use pgtypes::error::{Error, IoErrorKind};
use pgtypes::sql::{FromSql, ToSql, float4_bits_from_sql, float4_bits_to_sql, float8_bits_from_sql, float8_bits_to_sql, non_null};
use pgtypes::types::Type;

fn eof<T>() -> Result<T, Error> {
    Err(Error::IoError(IoErrorKind::EndOfFile))
}

#[test]
fn bool_to_sql() {
    assert_eq!(true.to_sql(&Type::Bool), Ok(Some(vec![1])));
    assert_eq!(false.to_sql(&Type::Bool), Ok(Some(vec![0])));
    assert_eq!(true.to_sql(&Type::Int4), Err(Error::WrongType(Type::Int4)));
}

#[test]
fn bool_from_sql() {
    assert_eq!(<bool as FromSql>::from_sql(&Type::Bool, Some(&[1])), Ok(true));
    assert_eq!(<bool as FromSql>::from_sql(&Type::Bool, Some(&[0])), Ok(false));
    assert_eq!(<bool as FromSql>::from_sql(&Type::Bool, Some(&[7])), Ok(true));
    assert_eq!(<bool as FromSql>::from_sql(&Type::Bool, Some(&[])), eof());
    assert_eq!(<bool as FromSql>::from_sql(&Type::Bool, None), Err(Error::WasNull));
    assert_eq!(<Option<bool> as FromSql>::from_sql(&Type::Bool, None), Ok(None));
    assert_eq!(
        <Option<bool> as FromSql>::from_sql(&Type::Text, Some(&[1])),
        Err(Error::WrongType(Type::Text))
    );
}

#[test]
fn char_i8() {
    assert_eq!((-1i8).to_sql(&Type::Char), Ok(Some(vec![0xff])));
    assert_eq!(<i8 as FromSql>::from_sql(&Type::Char, Some(&[0x80])), Ok(-128));
    assert_eq!(<i8 as FromSql>::from_sql(&Type::Int2, Some(&[0x80])), Err(Error::WrongType(Type::Int2)));
}

#[test]
fn int2() {
    assert_eq!((-2i16).to_sql(&Type::Int2), Ok(Some(vec![0xff, 0xfe])));
    assert_eq!(0x1234i16.to_sql(&Type::Int2), Ok(Some(vec![0x12, 0x34])));
    assert_eq!(<i16 as FromSql>::from_sql(&Type::Int2, Some(&[0x80, 0x00])), Ok(-32768));
    assert_eq!(<i16 as FromSql>::from_sql(&Type::Int2, Some(&[0x01])), eof());
}

#[test]
fn int4() {
    assert_eq!(258i32.to_sql(&Type::Int4), Ok(Some(vec![0, 0, 1, 2])));
    assert_eq!((-1i32).to_sql(&Type::Int4), Ok(Some(vec![0xff; 4])));
    assert_eq!(<i32 as FromSql>::from_sql(&Type::Int4, Some(&[0, 0, 1, 2])), Ok(258));
    assert_eq!(<i32 as FromSql>::from_sql(&Type::Int4, Some(&[0x7f, 0xff, 0xff, 0xff])), Ok(i32::MAX));
    // Trailing bytes are not read.
    assert_eq!(<i32 as FromSql>::from_sql(&Type::Int4, Some(&[0, 0, 0, 5, 9, 9])), Ok(5));
    assert_eq!(<i32 as FromSql>::from_sql(&Type::Int4, Some(&[0, 0, 0])), eof());
    assert_eq!(<i32 as FromSql>::from_sql(&Type::Int8, Some(&[0, 0, 0, 1])), Err(Error::WrongType(Type::Int8)));
}

#[test]
fn oid_u32() {
    assert_eq!(0xdeadbeefu32.to_sql(&Type::Oid), Ok(Some(vec![0xde, 0xad, 0xbe, 0xef])));
    assert_eq!(<u32 as FromSql>::from_sql(&Type::Oid, Some(&[0xff, 0, 0, 1])), Ok(0xff00_0001));
}

#[test]
fn int8() {
    assert_eq!(i64::MIN.to_sql(&Type::Int8), Ok(Some(vec![0x80, 0, 0, 0, 0, 0, 0, 0])));
    assert_eq!(
        <i64 as FromSql>::from_sql(&Type::Int8, Some(&[0xff, 0xff, 0xff, 0xff, 0xff, 0xff, 0xff, 0xfe])),
        Ok(-2)
    );
    assert_eq!(<i64 as FromSql>::from_sql(&Type::Int8, Some(&[1, 2, 3])), eof());
}

#[test]
fn option_to_sql() {
    assert_eq!(Some(5i32).to_sql(&Type::Int4), Ok(Some(vec![0, 0, 0, 5])));
    assert_eq!(None::<i32>.to_sql(&Type::Int4), Ok(None));
    assert_eq!(None::<i32>.to_sql(&Type::Text), Err(Error::WrongType(Type::Text)));
    assert_eq!(None::<bool>.to_sql(&Type::Bool), Ok(None));
}

#[test]
fn integer_roundtrips() {
    for v in [i16::MIN, -1, 0, 1, 255, 256, i16::MAX] {
        let b = v.to_sql(&Type::Int2).unwrap();
        assert_eq!(<i16 as FromSql>::from_sql(&Type::Int2, b.as_deref()), Ok(v));
    }
    for v in [i32::MIN, -65536, -1, 0, 1, 1 << 24, i32::MAX] {
        let b = v.to_sql(&Type::Int4).unwrap();
        assert_eq!(<i32 as FromSql>::from_sql(&Type::Int4, b.as_deref()), Ok(v));
    }
    for v in [i64::MIN, -1, 0, 1, 1 << 40, i64::MAX] {
        let b = v.to_sql(&Type::Int8).unwrap();
        assert_eq!(<i64 as FromSql>::from_sql(&Type::Int8, b.as_deref()), Ok(v));
    }
    for v in [i8::MIN, -1, 0, i8::MAX] {
        let b = v.to_sql(&Type::Char).unwrap();
        assert_eq!(<i8 as FromSql>::from_sql(&Type::Char, b.as_deref()), Ok(v));
    }
    for v in [0u32, 1, 0x8000_0000, u32::MAX] {
        let b = v.to_sql(&Type::Oid).unwrap();
        assert_eq!(<u32 as FromSql>::from_sql(&Type::Oid, b.as_deref()), Ok(v));
    }
    for v in [true, false] {
        let b = v.to_sql(&Type::Bool).unwrap();
        assert_eq!(<bool as FromSql>::from_sql(&Type::Bool, b.as_deref()), Ok(v));
    }
}

#[test]
fn float_bits() {
    let bits = 1.5f32.to_bits();
    assert_eq!(float4_bits_to_sql(Some(bits), &Type::Float4), Ok(Some(vec![0x3f, 0xc0, 0, 0])));
    assert_eq!(float4_bits_from_sql(&Type::Float4, Some(&[0x3f, 0xc0, 0, 0])), Ok(Some(bits)));
    assert_eq!(float4_bits_to_sql(None, &Type::Float4), Ok(None));
    assert_eq!(float4_bits_to_sql(Some(bits), &Type::Float8), Err(Error::WrongType(Type::Float8)));
    let bits8 = (-2.0f64).to_bits();
    let b = float8_bits_to_sql(Some(bits8), &Type::Float8).unwrap();
    assert_eq!(b, Some(vec![0xc0, 0, 0, 0, 0, 0, 0, 0]));
    assert_eq!(float8_bits_from_sql(&Type::Float8, b.as_deref()), Ok(Some(bits8)));
    assert_eq!(f64::from_bits(float8_bits_from_sql(&Type::Float8, b.as_deref()).unwrap().unwrap()), -2.0);
    assert_eq!(float8_bits_from_sql(&Type::Float8, Some(&[0, 0])), eof());
    assert_eq!(non_null(float8_bits_from_sql(&Type::Float8, None)), Err(Error::WasNull));
}
