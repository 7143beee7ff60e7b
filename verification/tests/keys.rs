use circuit_core::component::{FieldSchema, FieldType, Orientation, PropertyError, PropertyErrorReason, ReflectType};
use circuit_core::libraries::gates::NaryGateType;
use circuit_core::strkey::{str_compare, str_eq, u32_to_string};
use circuit_core::strmap::StrMap;
use std::cmp::Ordering;

#[test]
fn decimal_spelling_is_canonical() {
    assert_eq!(u32_to_string(0), "0");
    assert_eq!(u32_to_string(7), "7");
    assert_eq!(u32_to_string(10), "10");
    assert_eq!(u32_to_string(255), "255");
    assert_eq!(u32_to_string(u32::MAX), "4294967295");
}

#[test]
fn string_comparison_matches_byte_order() {
    assert_eq!(str_compare("a", "b"), Ordering::Less);
    assert_eq!(str_compare("a", "ab"), Ordering::Less);
    assert_eq!(str_compare("ab", "a"), Ordering::Greater);
    assert_eq!(str_compare("same", "same"), Ordering::Equal);
    assert_eq!(str_compare("num_bits", "num_inputs"), Ordering::Less);
    assert!(str_eq("orientation", "orientation"));
    assert!(!str_eq("orientation", "orientatioN"));
}

fn descriptor(name: &str) -> FieldSchema {
    FieldSchema {
        read_only: false,
        type_: FieldType::Integer { min: 0, max: 9 },
        name: name.to_owned(),
        description: None,
    }
}

#[test]
fn map_insert_get_and_overwrite() {
    let mut m: StrMap<FieldSchema> = StrMap::new();
    assert_eq!(m.len(), 0);
    m.insert("beta".to_owned(), descriptor("one"));
    m.insert("alpha".to_owned(), descriptor("two"));
    m.insert("beta".to_owned(), descriptor("three"));
    assert_eq!(m.len(), 2);
    assert_eq!(m.get("beta").unwrap().name, "three");
    assert_eq!(m.get("alpha").unwrap().name, "two");
    assert!(m.get("gamma").is_none());
    assert!(m.contains_key("alpha"));
    assert_eq!(m.entry_at(0).0, "alpha");
    assert_eq!(m.entry_at(1).0, "beta");
}

#[test]
fn map_extend_prefers_the_incoming_entry() {
    let mut a: StrMap<FieldSchema> = StrMap::new();
    a.insert("k".to_owned(), descriptor("from a"));
    a.insert("only_a".to_owned(), descriptor("a"));
    let mut b: StrMap<FieldSchema> = StrMap::new();
    b.insert("k".to_owned(), descriptor("from b"));
    b.insert("only_b".to_owned(), descriptor("b"));
    a.extend(b);
    assert_eq!(a.len(), 3);
    assert_eq!(a.get("k").unwrap().name, "from b");
    assert_eq!(a.get("only_a").unwrap().name, "a");
    assert_eq!(a.get("only_b").unwrap().name, "b");
}

#[test]
fn error_constructors_carry_the_precise_reason() {
    let e = PropertyError::unknown("foo");
    assert_eq!(e.name, "foo");
    assert_eq!(e.reason, PropertyErrorReason::UnknownProperty);
    let e = PropertyError::read_only("bar");
    assert_eq!(e.reason, PropertyErrorReason::ReadOnlyProperty);
    let e = PropertyError::invalid("baz", "because");
    assert_eq!(
        e.reason,
        PropertyErrorReason::InvalidValue { explanation: "because".to_owned() },
    );
}

#[test]
fn for_enum_keeps_the_given_tokens_in_order() {
    let t = FieldType::for_enum(vec!["Red".to_owned(), "Green".to_owned(), "Blue".to_owned()]);
    assert_eq!(
        t,
        FieldType::Enum {
            options: vec!["Red".to_owned(), "Green".to_owned(), "Blue".to_owned()],
        },
    );
}

#[test]
fn error_messages_spell_out_the_failure() {
    assert_eq!(PropertyError::unknown("w").message(), "Unknown property `w`");
    assert_eq!(PropertyError::read_only("w").message(), "Property `w` is read-only");
    assert_eq!(
        PropertyError::invalid("w", "too big").message(),
        "Invalid value for property `w`: too big",
    );
}

#[test]
fn orientation_reflects_a_four_token_domain() {
    let t = <Orientation as ReflectType>::field_type();
    assert_eq!(
        t,
        FieldType::Enum {
            options: vec![
                "North".to_owned(),
                "East".to_owned(),
                "South".to_owned(),
                "West".to_owned(),
            ],
        },
    );
}

#[test]
fn every_gate_kind_names_its_images() {
    assert_eq!(NaryGateType::And.image_name(false), "and_gate");
    assert_eq!(NaryGateType::And.image_name(true), "nand_gate");
    assert_eq!(NaryGateType::Or.image_name(false), "or_gate");
    assert_eq!(NaryGateType::Or.image_name(true), "nor_gate");
    assert_eq!(NaryGateType::Xor.image_name(false), "xor_gate");
    assert_eq!(NaryGateType::Xor.image_name(true), "xnor_gate");
    assert_eq!(NaryGateType::Parity.image_name(false), "odd_parity");
    assert_eq!(NaryGateType::Parity.image_name(true), "even_parity");
}
