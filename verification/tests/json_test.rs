use pgtypes::error::{Error, IoErrorKind};
use pgtypes::sql::{FromSql, ToSql};
use pgtypes::types::Type;
use pgtypes::json::json_scan_of;
use rustc_serialize::json::Json;

#[test]
fn json_from_sql() {
    let j = <Json as FromSql>::from_sql(&Type::Json, Some(b"{\"a\":[1,true,null]}")).unwrap();
    assert_eq!(j, Json::from_str("{\"a\":[1,true,null]}").unwrap());
    assert_ne!(j, Json::Null);
    assert_eq!(<Json as FromSql>::from_sql(&Type::Json, Some(b"{\"a\":")), Err(Error::BadData));
    assert_eq!(<Json as FromSql>::from_sql(&Type::Json, Some(&[0xff])), Err(Error::BadData));
    assert_eq!(<Json as FromSql>::from_sql(&Type::Json, None), Err(Error::WasNull));
    assert_eq!(<Option<Json> as FromSql>::from_sql(&Type::Jsonb, None), Ok(None));
    assert_eq!(<Json as FromSql>::from_sql(&Type::Text, Some(b"1")), Err(Error::WrongType(Type::Text)));
}

#[test]
fn jsonb_from_sql() {
    assert_eq!(<Json as FromSql>::from_sql(&Type::Jsonb, Some(b"\x01[1,2]")), Ok(Json::from_str("[1,2]").unwrap()));
    assert_eq!(<Json as FromSql>::from_sql(&Type::Jsonb, Some(b"\x02[1,2]")), Err(Error::BadData));
    assert_eq!(
        <Json as FromSql>::from_sql(&Type::Jsonb, Some(&[])),
        Err(Error::IoError(IoErrorKind::EndOfFile))
    );
    // Without the version byte the text is not a version-1 document.
    assert_eq!(<Json as FromSql>::from_sql(&Type::Jsonb, Some(b"[1,2]")), Err(Error::BadData));
}

#[test]
fn json_to_sql() {
    let j = Json::from_str("{\"k\":\"v\"}").unwrap();
    assert_eq!(j.to_sql(&Type::Json), Ok(Some(b"{\"k\":\"v\"}".to_vec())));
    assert_eq!(j.to_sql(&Type::Jsonb), Ok(Some(b"\x01{\"k\":\"v\"}".to_vec())));
    assert_eq!(j.to_sql(&Type::Int4), Err(Error::WrongType(Type::Int4)));
    assert_eq!(None::<Json>.to_sql(&Type::Json), Ok(None));
    assert_eq!(Some(Json::I64(3)).to_sql(&Type::Json), Ok(Some(b"3".to_vec())));
}

#[test]
fn json_roundtrip() {
    let docs = ["null", "[1,2,3]", "{\"a\":{\"b\":false}}", "\"s\\\"q\"", "-12"];
    for d in docs {
        let j = Json::from_str(d).unwrap();
        for ty in [Type::Json, Type::Jsonb] {
            let b = j.to_sql(&ty).unwrap();
            assert_eq!(<Json as FromSql>::from_sql(&ty, b.as_deref()), Ok(j.clone()));
        }
    }
}

#[test]
fn jsonb_null_and_scalars() {
    assert_eq!(<Json as FromSql>::from_sql(&Type::Jsonb, Some(b"\x01null")), Ok(Json::Null));
    assert_eq!(Json::Boolean(true).to_sql(&Type::Jsonb), Ok(Some(vec![1, b't', b'r', b'u', b'e'])));
    assert_eq!(Json::String("a".to_string()).to_sql(&Type::Json), Ok(Some(vec![b'"', b'a', b'"'])));
}

#[test]
fn json_nesting_limit() {
    let limit = pgtypes::json::MAX_JSON_DEPTH;
    let deep = format!("{}{}", "[".repeat(limit), "]".repeat(limit));
    let j = <Json as FromSql>::from_sql(&Type::Json, Some(deep.as_bytes())).unwrap();
    assert!(j.is_array());
    std::mem::forget(j);
    let deeper = format!("{}{}", "[".repeat(limit + 1), "]".repeat(limit + 1));
    assert_eq!(<Json as FromSql>::from_sql(&Type::Json, Some(deeper.as_bytes())), Err(Error::BadData));
    let mut jsonb = vec![1u8];
    jsonb.extend(deeper.as_bytes());
    assert_eq!(<Json as FromSql>::from_sql(&Type::Jsonb, Some(&jsonb)), Err(Error::BadData));
    // Far deeper input is refused before it reaches the parser.
    let very_deep = "[".repeat(100_000);
    assert_eq!(<Json as FromSql>::from_sql(&Type::Json, Some(very_deep.as_bytes())), Err(Error::BadData));
    // Documents nested a few hundred deep are read and written back.
    let mid = format!("{}{}", "[".repeat(300), "]".repeat(300));
    let j = <Json as FromSql>::from_sql(&Type::Json, Some(mid.as_bytes())).unwrap();
    assert_eq!(j.to_sql(&Type::Json), Ok(Some(mid.clone().into_bytes())));
    // Brackets inside strings do not nest.
    let text = format!("[\"{}\\\"{}\"]", "[".repeat(5000), "{".repeat(5000));
    let j = <Json as FromSql>::from_sql(&Type::Json, Some(text.as_bytes())).unwrap();
    assert_eq!(j, Json::from_str(&text).unwrap());
}

#[test]
fn json_exponent_overflow() {
    let huge = format!("1e{}", "9".repeat(20));
    assert_eq!(<Json as FromSql>::from_sql(&Type::Json, Some(huge.as_bytes())), Err(Error::BadData));
    let mut jsonb = vec![1u8];
    jsonb.extend(format!("[2E+{}]", "9".repeat(25)).as_bytes());
    assert_eq!(<Json as FromSql>::from_sql(&Type::Jsonb, Some(&jsonb)), Err(Error::BadData));
    // Exponents that fit, leading zeros, and digits inside strings are read.
    assert_eq!(<Json as FromSql>::from_sql(&Type::Json, Some(b"1e2")), Ok(Json::F64(100.0)));
    let zeros = format!("1E-{}1", "0".repeat(40));
    assert_eq!(<Json as FromSql>::from_sql(&Type::Json, Some(zeros.as_bytes())), Ok(Json::F64(0.1)));
    let quoted = format!("\"1e{}\"", "9".repeat(30));
    assert_eq!(
        <Json as FromSql>::from_sql(&Type::Json, Some(quoted.as_bytes())),
        Ok(Json::String(format!("1e{}", "9".repeat(30))))
    );
    assert_eq!(<Json as FromSql>::from_sql(&Type::Json, Some(b"[true,false]")), Json::from_str("[true,false]").map_err(|_| Error::BadData));
}

#[test]
fn json_scan_of_text() {
    assert_eq!(json_scan_of(b"1"), (0, false));
    assert_eq!(json_scan_of(b"[{\"a\":[1]},[]]"), (3, false));
    assert_eq!(json_scan_of(b"\"[[[\""), (0, false));
    assert_eq!(json_scan_of(b"[\"\\\"[\"]"), (1, false));
    assert_eq!(json_scan_of(b"]]]["), (1, false));
    assert_eq!(json_scan_of(b"1e18446744073709551615"), (0, false));
    assert_eq!(json_scan_of(b"1e18446744073709551616"), (0, true));
    assert_eq!(json_scan_of(b"\"1e99999999999999999999\""), (0, false));
}
