use pgtypes::error::Error;
use pgtypes::sql::{FromSql, ToSql};
use pgtypes::types::Type;

fn citext() -> Type {
    Type::Unknown { name: "citext".to_string(), oid: 16400, element_type: None }
}

#[test]
fn text_to_sql() {
    assert_eq!("héllo".to_sql(&Type::Text), Ok(Some("héllo".as_bytes().to_vec())));
    assert_eq!("a".to_string().to_sql(&Type::Varchar), Ok(Some(vec![b'a'])));
    assert_eq!("a".to_sql(&Type::CharN), Ok(Some(vec![b'a'])));
    assert_eq!("a".to_sql(&Type::Name), Ok(Some(vec![b'a'])));
    assert_eq!("a".to_sql(&citext()), Ok(Some(vec![b'a'])));
    assert_eq!("a".to_sql(&Type::Int4), Err(Error::WrongType(Type::Int4)));
    let other = Type::Unknown { name: "citexts".to_string(), oid: 1, element_type: None };
    assert_eq!("a".to_sql(&other), Err(Error::WrongType(other.clone())));
}

#[test]
fn optional_text_to_sql() {
    assert_eq!(Some("x").to_sql(&Type::Text), Ok(Some(vec![b'x'])));
    assert_eq!(None::<&str>.to_sql(&Type::Text), Ok(None));
    assert_eq!(None::<&str>.to_sql(&Type::Bool), Err(Error::WrongType(Type::Bool)));
    assert_eq!(Some("y".to_string()).to_sql(&Type::Varchar), Ok(Some(vec![b'y'])));
    assert_eq!(None::<String>.to_sql(&Type::Varchar), Ok(None));
}

#[test]
fn text_from_sql() {
    assert_eq!(<String as FromSql>::from_sql(&Type::Text, Some("日本".as_bytes())), Ok("日本".to_string()));
    assert_eq!(<String as FromSql>::from_sql(&citext(), Some(b"Ab")), Ok("Ab".to_string()));
    assert_eq!(<String as FromSql>::from_sql(&Type::Text, Some(&[0xff, 0xfe])), Err(Error::BadData));
    assert_eq!(<String as FromSql>::from_sql(&Type::Text, Some(&[])), Ok(String::new()));
    assert_eq!(<String as FromSql>::from_sql(&Type::Text, None), Err(Error::WasNull));
    assert_eq!(<Option<String> as FromSql>::from_sql(&Type::Name, None), Ok(None));
    assert_eq!(<String as FromSql>::from_sql(&Type::ByteA, Some(b"a")), Err(Error::WrongType(Type::ByteA)));
}

#[test]
fn text_roundtrip() {
    for s in ["", "plain", "ünïcödé ✓", "🦀"] {
        let b = s.to_sql(&Type::Text).unwrap();
        assert_eq!(<String as FromSql>::from_sql(&Type::Text, b.as_deref()), Ok(s.to_string()));
    }
}

#[test]
fn bytea() {
    let data: &[u8] = &[0, 1, 255];
    assert_eq!(data.to_sql(&Type::ByteA), Ok(Some(vec![0, 1, 255])));
    assert_eq!(vec![9u8, 8].to_sql(&Type::ByteA), Ok(Some(vec![9, 8])));
    assert_eq!(data.to_sql(&Type::Text), Err(Error::WrongType(Type::Text)));
    assert_eq!(Some(data).to_sql(&Type::ByteA), Ok(Some(vec![0, 1, 255])));
    assert_eq!(None::<&[u8]>.to_sql(&Type::ByteA), Ok(None));
    assert_eq!(None::<Vec<u8>>.to_sql(&Type::ByteA), Ok(None));
    assert_eq!(<Vec<u8> as FromSql>::from_sql(&Type::ByteA, Some(&[3, 4])), Ok(vec![3, 4]));
    assert_eq!(<Vec<u8> as FromSql>::from_sql(&Type::ByteA, None), Err(Error::WasNull));
    assert_eq!(<Option<Vec<u8>> as FromSql>::from_sql(&Type::ByteA, Some(&[])), Ok(Some(vec![])));
}
