use std::cmp::Ordering;
use std::collections::HashSet;

use graph::entity_type::EntityType;
use graph::{
    CausalityRegion, ConversionErrorKind, EntityKey, IdType, InternError, LoadRelatedRequest,
    StoreError, Value,
};

fn key(t: &str, id: &str, cr: i32) -> EntityKey {
    EntityKey::new(EntityType::new(t, IdType::String), id.to_string(), CausalityRegion(cr))
}

fn typed_key(t: &str, id_type: IdType, id: &str) -> EntityKey {
    EntityKey::new(EntityType::new(t, id_type), id.to_string(), CausalityRegion(0))
}

#[test]
fn key_equals_itself() {
    assert!(key("Token", "0x1", 0) == key("Token", "0x1", 0));
    let k = key("Pool", "abc", 3);
    assert!(k == k.clone());
}

#[test]
fn key_differs_when_one_part_changes() {
    let base = key("Token", "0x1", 1);
    assert!(base != key("Pair", "0x1", 1));
    assert!(base != key("Token", "0x2", 1));
    assert!(base != key("Token", "0x1", 2));
    let other_id_type =
        EntityKey::new(EntityType::new("Token", IdType::Bytes), "0x1".to_string(), CausalityRegion(1));
    assert!(base != other_id_type);
}

#[test]
fn equal_keys_hash_alike() {
    let mut set = HashSet::new();
    set.insert(key("Token", "0x1", 0));
    set.insert(key("Token", "0x1", 0));
    set.insert(key("Token", "0x1", 1));
    assert_eq!(set.len(), 2);
    assert!(set.contains(&key("Token", "0x1", 1)));
}

#[test]
fn order_compares_entity_type_first() {
    assert!(key("A", "1", 0) < key("B", "0", 0));
    assert_eq!(key("A", "1", 0).compare(&key("B", "0", 0)), Ordering::Less);
    assert_eq!(key("B", "0", 0).cmp(&key("A", "1", 0)), Ordering::Greater);
}

#[test]
fn order_then_id_then_region() {
    assert!(key("A", "1", 5) < key("A", "2", 0));
    assert!(key("A", "1", 0) < key("A", "1", 1));
    assert!(key("A", "1", -1) < key("A", "1", 0));
    assert!(key("A", "a", 0) < key("A", "ab", 0));
    assert_eq!(key("A", "1", 2).compare(&key("A", "1", 2)), Ordering::Equal);
    assert_eq!(key("A", "1", 2).partial_cmp(&key("A", "1", 2)), Some(Ordering::Equal));
}

#[test]
fn order_agrees_with_sort() {
    let mut keys = vec![
        key("B", "0", 0),
        key("A", "2", 0),
        key("A", "1", 7),
        key("A", "1", 0),
        key("Ab", "", 0),
    ];
    keys.sort();
    let rendered: Vec<String> = keys.iter().map(|k| k.debug_string()).collect();
    assert_eq!(
        rendered,
        vec![
            "EntityKey(A[1], cr=0)",
            "EntityKey(A[1], cr=7)",
            "EntityKey(A[2], cr=0)",
            "EntityKey(Ab[], cr=0)",
            "EntityKey(B[0], cr=0)",
        ]
    );
    for i in 0..keys.len() {
        for j in 0..keys.len() {
            assert_eq!(keys[i].compare(&keys[j]), keys[i].cmp(&keys[j]));
        }
    }
}

#[test]
fn from_related_lookup_takes_type_and_region() {
    let request = LoadRelatedRequest {
        entity_type: EntityType::new("Token", IdType::String),
        entity_id: "parent".to_string(),
        entity_field: "tokens".to_string(),
        causality_region: CausalityRegion(4),
    };
    let k = EntityKey::from(&"42".to_string(), &request);
    assert!(k == key("Token", "42", 4));
    assert_eq!(k.entity_id, "42");
    assert_eq!(k.causality_region, CausalityRegion(4));
}

#[test]
fn id_value_text_is_unchanged() {
    let k = typed_key("Token", IdType::String, "Some id 0x");
    assert_eq!(k.id_value(), Ok(Value::String("Some id 0x".to_string())));
}

#[test]
fn id_value_non_numeric_is_error() {
    let err = typed_key("Counter", IdType::Int8, "abc").id_value().unwrap_err();
    assert_eq!(err.kind, ConversionErrorKind::InvalidInteger);
    assert_eq!(err.id, "abc");
}

#[test]
fn id_value_integers() {
    assert_eq!(typed_key("C", IdType::Int8, "42").id_value(), Ok(Value::Int8(42)));
    assert_eq!(typed_key("C", IdType::Int8, "+7").id_value(), Ok(Value::Int8(7)));
    assert_eq!(typed_key("C", IdType::Int8, "-0012").id_value(), Ok(Value::Int8(-12)));
    assert_eq!(
        typed_key("C", IdType::Int8, "9223372036854775807").id_value(),
        Ok(Value::Int8(i64::MAX))
    );
    assert_eq!(
        typed_key("C", IdType::Int8, "-9223372036854775808").id_value(),
        Ok(Value::Int8(i64::MIN))
    );
}

#[test]
fn id_value_integer_errors() {
    let kind = |s: &str| typed_key("C", IdType::Int8, s).id_value().unwrap_err().kind;
    assert_eq!(kind(""), ConversionErrorKind::InvalidInteger);
    assert_eq!(kind("-"), ConversionErrorKind::InvalidInteger);
    assert_eq!(kind("+"), ConversionErrorKind::InvalidInteger);
    assert_eq!(kind("12a"), ConversionErrorKind::InvalidInteger);
    assert_eq!(kind(" 1"), ConversionErrorKind::InvalidInteger);
    assert_eq!(kind("9223372036854775808"), ConversionErrorKind::IntegerOutOfRange);
    assert_eq!(kind("-9223372036854775809"), ConversionErrorKind::IntegerOutOfRange);
    assert_eq!(kind("100000000000000000000"), ConversionErrorKind::IntegerOutOfRange);
}

#[test]
fn id_value_bytes() {
    assert_eq!(
        typed_key("T", IdType::Bytes, "0x01aB").id_value(),
        Ok(Value::Bytes(vec![0x01, 0xab]))
    );
    assert_eq!(typed_key("T", IdType::Bytes, "ff00").id_value(), Ok(Value::Bytes(vec![0xff, 0x00])));
    assert_eq!(typed_key("T", IdType::Bytes, "0x").id_value(), Ok(Value::Bytes(vec![])));
    assert_eq!(typed_key("T", IdType::Bytes, "").id_value(), Ok(Value::Bytes(vec![])));
}

#[test]
fn id_value_bytes_errors() {
    let kind = |s: &str| typed_key("T", IdType::Bytes, s).id_value().unwrap_err().kind;
    assert_eq!(kind("0x1"), ConversionErrorKind::InvalidHex);
    assert_eq!(kind("0xzz"), ConversionErrorKind::InvalidHex);
    assert_eq!(kind("0x0x00"), ConversionErrorKind::InvalidHex);
    assert_eq!(kind("abc"), ConversionErrorKind::InvalidHex);
}

#[test]
fn unknown_attribute_keeps_message() {
    let k = key("Token", "0x1", 0);
    let err = k.unknown_attribute(InternError::NotInterned("missing field x".to_string()));
    assert_eq!(
        err,
        StoreError::UnknownAttribute("Token".to_string(), "missing field x".to_string())
    );
}

#[test]
fn debug_rendering() {
    assert_eq!(key("Token", "0x1", 0).debug_string(), "EntityKey(Token[0x1], cr=0)");
    assert_eq!(key("Pair", "", 12).debug_string(), "EntityKey(Pair[], cr=12)");
    assert_eq!(
        key("T", "x", i32::MIN).debug_string(),
        "EntityKey(T[x], cr=-2147483648)"
    );
    assert_eq!(key("T", "x", i32::MAX).debug_string(), "EntityKey(T[x], cr=2147483647)");
}

#[test]
fn isolation_other_region_not_found() {
    let records = vec![key("Token", "0x1", 1)];
    let lookup = key("Token", "0x1", 2);
    assert_eq!(lookup.find_visible(&records), None);
    assert!(!lookup.observes(&records[0]));
}

#[test]
fn isolation_same_and_global_region_found() {
    let records = vec![key("Token", "0x1", 1), key("Token", "0x2", 2), key("Token", "0x1", 0)];
    assert_eq!(key("Token", "0x1", 1).find_visible(&records), Some(0));
    assert_eq!(key("Token", "0x1", 2).find_visible(&records), Some(2));
    assert_eq!(key("Token", "0x2", 2).find_visible(&records), Some(1));
    assert_eq!(key("Token", "0x2", 0).find_visible(&records), None);
    assert_eq!(key("Pair", "0x1", 0).find_visible(&records), None);
    assert_eq!(key("Token", "0x1", 1).find_visible(&[]), None);
}

#[test]
fn onchain_region_is_global() {
    assert!(CausalityRegion::onchain().is_onchain());
    assert!(!CausalityRegion(3).is_onchain());
    assert!(CausalityRegion(0).visible_from(CausalityRegion(9)));
    assert!(CausalityRegion(9).visible_from(CausalityRegion(9)));
    assert!(!CausalityRegion(8).visible_from(CausalityRegion(9)));
}
