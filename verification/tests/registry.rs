use circuit_core::component::AnyComponent;
use circuit_core::libraries::gates::{library, NaryGate, NaryGateType};
use circuit_core::library::{ComponentMetadata, Library};
use circuit_core::value::PropValue;

fn gate(t: NaryGateType) -> AnyComponent {
    AnyComponent::Gate(NaryGate::new(t))
}

#[test]
fn built_in_library_lists_the_or_gate() {
    let lib = library();
    let listed = lib.list();
    assert_eq!(listed.len(), 1);
    assert_eq!(listed[0].id, "or_gate");
    assert_eq!(listed[0].name, "OR Gate");
    assert_eq!(listed[0].category, "Gates");
    assert_eq!(listed[0].description, "Logical OR gate");
}

#[test]
fn create_of_a_missing_id_fails_with_that_id() {
    let lib = library();
    let err = match lib.create("missing_id") {
        Err(e) => e,
        Ok(_) => panic!("expected a lookup miss"),
    };
    assert_eq!(err.id, "missing_id");
}

#[test]
fn list_is_sorted_by_id() {
    let mut lib = Library::new();
    lib.add(ComponentMetadata::new("b_gate", "B", "Gates", ""), gate(NaryGateType::And));
    lib.add(ComponentMetadata::new("a_gate", "A", "Gates", ""), gate(NaryGateType::Or));
    lib.add(ComponentMetadata::new("c_gate", "C", "Gates", ""), gate(NaryGateType::Xor));
    let ids: Vec<String> = lib.list().iter().map(|m| m.id.clone()).collect();
    assert_eq!(ids, vec!["a_gate".to_owned(), "b_gate".to_owned(), "c_gate".to_owned()]);
}

#[test]
fn add_overwrites_an_existing_id() {
    let mut lib = Library::new();
    lib.add(ComponentMetadata::new("x", "First", "Gates", ""), gate(NaryGateType::And));
    lib.add(ComponentMetadata::new("x", "Second", "Gates", ""), gate(NaryGateType::Or));
    let listed = lib.list();
    assert_eq!(listed.len(), 1);
    assert_eq!(listed[0].name, "Second");
}

#[test]
fn extend_lets_the_incoming_entry_win() {
    let mut a = Library::new();
    a.add(ComponentMetadata::new("x", "From A", "Gates", ""), gate(NaryGateType::And));
    a.add(ComponentMetadata::new("only_a", "Only A", "Gates", ""), gate(NaryGateType::Xor));
    let mut b = Library::new();
    b.add(ComponentMetadata::new("x", "From B", "Gates", ""), gate(NaryGateType::Or));
    a.extend(b);

    let listed = a.list();
    assert_eq!(listed.len(), 2);
    let x = listed.iter().find(|m| m.id == "x").unwrap();
    assert_eq!(x.name, "From B");
    // The entry itself is B's: its prototype is an OR gate.
    let placement = a.create("x").unwrap();
    assert_eq!(placement.get_shape().image_name, "or_gate");
}

#[test]
fn created_instances_share_no_mutable_state() {
    let lib = library();
    let mut first = lib.create("or_gate").unwrap();
    let second = lib.create("or_gate").unwrap();
    assert!(first.set_property("num_inputs", PropValue::Int(5)).is_ok());
    assert_eq!(first.get_property("num_inputs").unwrap(), PropValue::Int(5));
    assert_eq!(second.get_property("num_inputs").unwrap(), PropValue::Int(2));
    let third = lib.create("or_gate").unwrap();
    assert_eq!(third.get_property("num_inputs").unwrap(), PropValue::Int(2));
}

#[test]
fn missing_component_message_names_the_id() {
    let err = match library().create("nope") {
        Err(e) => e,
        Ok(_) => panic!("expected a lookup miss"),
    };
    assert_eq!(err.message(), "Missing component with id `nope`");
}
