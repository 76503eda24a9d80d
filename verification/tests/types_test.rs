use pgtypes::types::Type;

#[test]
fn from_oid_known() {
    assert_eq!(Type::from_oid(16), Some(Type::Bool));
    assert_eq!(Type::from_oid(23), Some(Type::Int4));
    assert_eq!(Type::from_oid(1043), Some(Type::Varchar));
    assert_eq!(Type::from_oid(3927), Some(Type::Int8RangeArray));
    assert_eq!(Type::from_oid(1022), Some(Type::Float8Array));
}

#[test]
fn from_oid_unknown() {
    assert_eq!(Type::from_oid(0), None);
    assert_eq!(Type::from_oid(22), None);
    assert_eq!(Type::from_oid(99999), None);
}

#[test]
fn to_oid_values() {
    assert_eq!(Type::Bool.to_oid(), 16);
    assert_eq!(Type::Jsonb.to_oid(), 3802);
    assert_eq!(Type::CharN.to_oid(), 1042);
    let t = Type::Unknown { name: "hstore".to_string(), oid: 16393, element_type: None };
    assert_eq!(t.to_oid(), 16393);
}

#[test]
fn oid_roundtrip_all_builtins() {
    let mut count = 0;
    for oid in 0..5000u32 {
        if let Some(t) = Type::from_oid(oid) {
            assert_eq!(t.to_oid(), oid);
            assert_eq!(Type::from_oid(t.to_oid()), Some(t));
            count += 1;
        }
    }
    assert_eq!(count, 45);
}

#[test]
fn element_types() {
    assert_eq!(Type::Int4Array.element_type(), Some(Type::Int4));
    assert_eq!(Type::TsRange.element_type(), Some(Type::Timestamp));
    assert_eq!(Type::TstzRangeArray.element_type(), Some(Type::TstzRange));
    assert_eq!(Type::CharNArray.element_type(), Some(Type::CharN));
    assert_eq!(Type::Int4.element_type(), None);
    assert_eq!(Type::Json.element_type(), None);
}

#[test]
fn unknown_element_type() {
    let t = Type::Unknown {
        name: "_citext".to_string(),
        oid: 20000,
        element_type: Some(Box::new(Type::Unknown {
            name: "citext".to_string(),
            oid: 19999,
            element_type: None,
        })),
    };
    assert_eq!(
        t.element_type(),
        Some(Type::Unknown { name: "citext".to_string(), oid: 19999, element_type: None })
    );
    let plain = Type::Unknown { name: "x".to_string(), oid: 1, element_type: None };
    assert_eq!(plain.element_type(), None);
}

#[test]
fn clone_keeps_type() {
    let t = Type::Unknown {
        name: "citext".to_string(),
        oid: 19999,
        element_type: Some(Box::new(Type::Text)),
    };
    assert_eq!(t.clone(), t);
    assert_eq!(Type::Int8Range.clone(), Type::Int8Range);
}

#[test]
fn debug_format() {
    assert_eq!(format!("{:?}", Type::Int4), "Int4");
    let t = Type::Unknown { name: "x".to_string(), oid: 7, element_type: None };
    assert_eq!(format!("{:?}", t), "Unknown { name: \"x\", oid: 7, element_type: None }");
}
