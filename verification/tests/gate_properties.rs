use circuit_core::component::{FieldType, PropertyErrorReason};
use circuit_core::libraries::gates::library;
use circuit_core::value::PropValue;

fn yes_no() -> FieldType {
    FieldType::Enum { options: vec!["No".to_owned(), "Yes".to_owned()] }
}

#[test]
fn or_gate_schema_has_every_expected_property() {
    let lib = library();
    let placement = lib.create("or_gate").unwrap();
    let schema = placement.schema();

    let orientation = schema.get("orientation").unwrap();
    assert!(!orientation.read_only);
    assert_eq!(
        orientation.type_,
        FieldType::Enum {
            options: vec![
                "North".to_owned(),
                "East".to_owned(),
                "South".to_owned(),
                "West".to_owned(),
            ],
        },
    );
    assert_eq!(orientation.name, "Orientation");

    let invert_output = schema.get("invert_output").unwrap();
    assert_eq!(invert_output.type_, yes_no());
    assert_eq!(invert_output.name, "Invert output");

    let num_inputs = schema.get("num_inputs").unwrap();
    assert_eq!(num_inputs.type_, FieldType::Integer { min: 2, max: 32 });

    let num_bits = schema.get("num_bits").unwrap();
    assert_eq!(num_bits.type_, FieldType::Integer { min: 1, max: 256 });

    assert_eq!(schema.get("invert_input_0").unwrap().type_, yes_no());
    assert_eq!(schema.get("invert_input_1").unwrap().name, "Invert input 1");
    assert!(schema.get("invert_input_2").is_none());
}

#[test]
fn schema_iterates_in_sorted_key_order() {
    let lib = library();
    let placement = lib.create("or_gate").unwrap();
    let schema = placement.schema();
    let mut keys: Vec<String> = Vec::new();
    for i in 0..schema.len() {
        keys.push(schema.entry_at(i).0.clone());
    }
    assert_eq!(
        keys,
        vec![
            "invert_input_0".to_owned(),
            "invert_input_1".to_owned(),
            "invert_output".to_owned(),
            "num_bits".to_owned(),
            "num_inputs".to_owned(),
            "orientation".to_owned(),
        ],
    );
}

#[test]
fn accepted_set_round_trips_through_get() {
    let lib = library();
    let mut placement = lib.create("or_gate").unwrap();

    assert!(placement.set_property("num_inputs", PropValue::Int(3)).is_ok());
    let got = placement.get_property("num_inputs").unwrap();
    assert_eq!(got, PropValue::Int(3));
    assert!(placement.set_property("num_inputs", got).is_ok());

    assert!(placement.set_property("invert_input_0", PropValue::Text("Yes".to_owned())).is_ok());
    let got = placement.get_property("invert_input_0").unwrap();
    assert_eq!(got, PropValue::Text("Yes".to_owned()));
    assert!(placement.set_property("invert_input_0", got).is_ok());

    assert!(placement.set_property("orientation", PropValue::Text("West".to_owned())).is_ok());
    let got = placement.get_property("orientation").unwrap();
    assert_eq!(got, PropValue::Text("West".to_owned()));
    assert!(placement.set_property("orientation", got).is_ok());
}

#[test]
fn growing_the_input_count_grows_the_schema() {
    let lib = library();
    let mut placement = lib.create("or_gate").unwrap();
    assert!(placement.set_property("num_inputs", PropValue::Int(3)).is_ok());
    let schema = placement.schema();
    assert!(schema.get("invert_input_2").is_some());
    assert!(schema.get("invert_input_3").is_none());

    assert!(placement.set_property("num_inputs", PropValue::Int(2)).is_ok());
    let schema = placement.schema();
    assert!(schema.get("invert_input_2").is_none());
    let err = placement.set_property("invert_input_2", PropValue::Text("Yes".to_owned()))
        .unwrap_err();
    assert_eq!(err.name, "invert_input_2");
    assert_eq!(err.reason, PropertyErrorReason::UnknownProperty);
}

#[test]
fn unknown_property_is_reported_for_any_state() {
    let lib = library();
    let mut placement = lib.create("or_gate").unwrap();
    assert!(placement.get_property("bogus").is_none());
    let err = placement.set_property("bogus", PropValue::Int(1)).unwrap_err();
    assert_eq!(err.name, "bogus");
    assert_eq!(err.reason, PropertyErrorReason::UnknownProperty);
}

#[test]
fn out_of_range_integers_are_invalid() {
    let lib = library();
    let mut placement = lib.create("or_gate").unwrap();
    let err = placement.set_property("num_inputs", PropValue::Int(100)).unwrap_err();
    assert_eq!(
        err.reason,
        PropertyErrorReason::InvalidValue {
            explanation: "expected an integer between 2 and 32".to_owned(),
        },
    );
    let err = placement.set_property("num_bits", PropValue::Int(0)).unwrap_err();
    assert_eq!(
        err.reason,
        PropertyErrorReason::InvalidValue {
            explanation: "expected an integer between 1 and 256".to_owned(),
        },
    );
}

#[test]
fn wrong_enum_tokens_are_invalid() {
    let lib = library();
    let mut placement = lib.create("or_gate").unwrap();
    let err = placement.set_property("invert_output", PropValue::Text("Maybe".to_owned()))
        .unwrap_err();
    assert_eq!(
        err.reason,
        PropertyErrorReason::InvalidValue { explanation: "expected `No` or `Yes`".to_owned() },
    );
    let err = placement.set_property("orientation", PropValue::Text("Up".to_owned()))
        .unwrap_err();
    assert_eq!(
        err.reason,
        PropertyErrorReason::InvalidValue {
            explanation: "expected one of `North`, `East`, `South`, `West`".to_owned(),
        },
    );
    let err = placement.set_property("orientation", PropValue::Null).unwrap_err();
    assert!(matches!(err.reason, PropertyErrorReason::InvalidValue { .. }));
    let err = placement.set_property("invert_output", PropValue::Other).unwrap_err();
    assert!(matches!(err.reason, PropertyErrorReason::InvalidValue { .. }));
}

#[test]
fn failed_set_leaves_state_unchanged() {
    let lib = library();
    let mut placement = lib.create("or_gate").unwrap();
    let before_inputs = placement.get_property("num_inputs").unwrap();
    let before_shape = placement.get_shape();
    assert!(placement.set_property("num_inputs", PropValue::Int(100)).is_err());
    assert!(placement.set_property("invert_output", PropValue::Int(1)).is_err());
    assert_eq!(placement.get_property("num_inputs").unwrap(), before_inputs);
    let after_shape = placement.get_shape();
    assert_eq!(after_shape.image_name, before_shape.image_name);
    assert!(placement.schema().get("invert_input_5").is_none());
}

#[test]
fn num_bits_only_changes_num_bits() {
    let lib = library();
    let mut placement = lib.create("or_gate").unwrap();
    assert!(placement.set_property("num_bits", PropValue::Int(8)).is_ok());
    assert_eq!(placement.get_property("num_bits").unwrap(), PropValue::Int(8));
    assert_eq!(placement.get_property("num_inputs").unwrap(), PropValue::Int(2));
    assert!(placement.schema().get("invert_input_2").is_none());
}

#[test]
fn shape_reflects_orientation_and_inversion() {
    let lib = library();
    let mut placement = lib.create("or_gate").unwrap();
    let shape = placement.get_shape();
    assert_eq!((shape.width, shape.height), (3, 3));
    assert!(shape.pins.is_empty());
    assert_eq!(shape.image_name, "or_gate");

    assert!(placement.set_property("invert_output", PropValue::Text("Yes".to_owned())).is_ok());
    assert_eq!(placement.get_shape().image_name, "nor_gate");

    assert!(placement.set_property("orientation", PropValue::Text("East".to_owned())).is_ok());
    let shape = placement.get_shape();
    assert_eq!((shape.width, shape.height), (3, 3));
    assert_eq!(shape.image_name, "nor_gate");
}

#[test]
fn default_orientation_reads_north() {
    let lib = library();
    let placement = lib.create("or_gate").unwrap();
    assert_eq!(
        placement.get_property("orientation").unwrap(),
        PropValue::Text("North".to_owned()),
    );
}
