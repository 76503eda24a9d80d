use pgtypes::error::{Error, IoErrorKind};
use pgtypes::hstore::Hstore;
use pgtypes::sql::{FromSql, ToSql};
use pgtypes::types::Type;

fn hstore_type() -> Type {
    Type::Unknown { name: "hstore".to_string(), oid: 16500, element_type: None }
}

fn be(v: i32) -> Vec<u8> {
    v.to_be_bytes().to_vec()
}

#[test]
fn insert_and_get() {
    let mut h = Hstore::new();
    assert_eq!(h.len(), 0);
    h.insert("a".to_string(), Some("1".to_string()));
    h.insert("b".to_string(), None);
    assert_eq!(h.len(), 2);
    assert_eq!(h.get("a"), Some(&Some("1".to_string())));
    assert_eq!(h.get("b"), Some(&None));
    assert_eq!(h.get("c"), None);
    h.insert("a".to_string(), Some("2".to_string()));
    assert_eq!(h.len(), 2);
    assert_eq!(h.get("a"), Some(&Some("2".to_string())));
    assert_eq!(h.entries()[0].0, "a");
    assert_eq!(h.entries()[1].0, "b");
}

#[test]
fn hstore_to_sql() {
    let mut h = Hstore::new();
    h.insert("k".to_string(), Some("vv".to_string()));
    h.insert("n".to_string(), None);
    let mut expect = be(2);
    expect.extend(be(1));
    expect.extend(b"k");
    expect.extend(be(2));
    expect.extend(b"vv");
    expect.extend(be(1));
    expect.extend(b"n");
    expect.extend(be(-1));
    assert_eq!(h.to_sql(&hstore_type()), Ok(Some(expect)));
    assert_eq!(h.to_sql(&Type::Text), Err(Error::WrongType(Type::Text)));
    assert_eq!(None::<Hstore>.to_sql(&hstore_type()), Ok(None));
}

#[test]
fn hstore_from_sql() {
    let mut buf = be(3);
    buf.extend(be(1));
    buf.extend(b"x");
    buf.extend(be(1));
    buf.extend(b"1");
    buf.extend(be(1));
    buf.extend(b"y");
    buf.extend(be(-1));
    // A repeated key: the later value wins.
    buf.extend(be(1));
    buf.extend(b"x");
    buf.extend(be(1));
    buf.extend(b"2");
    let h = <Hstore as FromSql>::from_sql(&hstore_type(), Some(&buf)).unwrap();
    assert_eq!(h.len(), 2);
    assert_eq!(h.get("x"), Some(&Some("2".to_string())));
    assert_eq!(h.get("y"), Some(&None));
}

#[test]
fn hstore_from_sql_edges() {
    // A negative count reads no entries.
    let h = <Hstore as FromSql>::from_sql(&hstore_type(), Some(&be(-5))).unwrap();
    assert_eq!(h.len(), 0);
    // A negative key length runs past the end.
    let mut buf = be(1);
    buf.extend(be(-1));
    assert_eq!(
        <Hstore as FromSql>::from_sql(&hstore_type(), Some(&buf)).err(),
        Some(Error::IoError(IoErrorKind::EndOfFile))
    );
    // A key that is not UTF-8.
    let mut buf = be(1);
    buf.extend(be(1));
    buf.push(0xff);
    buf.extend(be(-1));
    assert_eq!(<Hstore as FromSql>::from_sql(&hstore_type(), Some(&buf)).err(), Some(Error::BadData));
    // Fewer entries than counted.
    assert_eq!(
        <Hstore as FromSql>::from_sql(&hstore_type(), Some(&be(1))).err(),
        Some(Error::IoError(IoErrorKind::EndOfFile))
    );
    assert_eq!(<Hstore as FromSql>::from_sql(&hstore_type(), None).err(), Some(Error::WasNull));
    assert!(<Option<Hstore> as FromSql>::from_sql(&hstore_type(), None).unwrap().is_none());
    assert_eq!(
        <Hstore as FromSql>::from_sql(&Type::Text, Some(&be(0))).err(),
        Some(Error::WrongType(Type::Text))
    );
}

#[test]
fn hstore_roundtrip() {
    let mut h = Hstore::new();
    h.insert("z".to_string(), Some("é".to_string()));
    h.insert("".to_string(), Some("".to_string()));
    h.insert("null".to_string(), None);
    let b = h.to_sql(&hstore_type()).unwrap();
    let back = <Hstore as FromSql>::from_sql(&hstore_type(), b.as_deref()).unwrap();
    assert_eq!(back.entries(), h.entries());
}
