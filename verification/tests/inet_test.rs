use pgtypes::error::{Error, IoErrorKind};
use pgtypes::inet::IpAddr;
use pgtypes::sql::{FromSql, ToSql};
use pgtypes::types::Type;

#[test]
fn ipv4_to_sql() {
    let a = IpAddr::Ipv4Addr(192, 168, 1, 20);
    assert_eq!(a.to_sql(&Type::Inet), Ok(Some(vec![2, 32, 0, 4, 192, 168, 1, 20])));
    assert_eq!(a.to_sql(&Type::Cidr), Ok(Some(vec![2, 32, 0, 4, 192, 168, 1, 20])));
    assert_eq!(a.to_sql(&Type::Text), Err(Error::WrongType(Type::Text)));
}

#[test]
fn ipv6_to_sql() {
    let a = IpAddr::Ipv6Addr(0x2001, 0xdb8, 0, 0, 0, 0, 0xff00, 1);
    assert_eq!(
        a.to_sql(&Type::Inet),
        Ok(Some(vec![3, 128, 0, 16, 0x20, 0x01, 0x0d, 0xb8, 0, 0, 0, 0, 0, 0, 0, 0, 0xff, 0, 0, 1]))
    );
}

#[test]
fn inet_from_sql() {
    assert_eq!(
        <IpAddr as FromSql>::from_sql(&Type::Inet, Some(&[2, 24, 1, 4, 10, 0, 0, 1])),
        Ok(IpAddr::Ipv4Addr(10, 0, 0, 1))
    );
    let v6 = [3u8, 64, 0, 16, 0, 1, 0, 2, 0, 3, 0, 4, 0, 5, 0, 6, 0, 7, 0, 8];
    assert_eq!(
        <IpAddr as FromSql>::from_sql(&Type::Cidr, Some(&v6)),
        Ok(IpAddr::Ipv6Addr(1, 2, 3, 4, 5, 6, 7, 8))
    );
}

#[test]
fn inet_bad_data() {
    // Length above sixteen.
    assert_eq!(<IpAddr as FromSql>::from_sql(&Type::Inet, Some(&[2, 32, 0, 17])), Err(Error::BadData));
    // Family and length do not agree.
    assert_eq!(<IpAddr as FromSql>::from_sql(&Type::Inet, Some(&[3, 32, 0, 4, 1, 2, 3, 4])), Err(Error::BadData));
    assert_eq!(<IpAddr as FromSql>::from_sql(&Type::Inet, Some(&[9, 32, 0, 4, 1, 2, 3, 4])), Err(Error::BadData));
    // Too few address bytes.
    assert_eq!(
        <IpAddr as FromSql>::from_sql(&Type::Inet, Some(&[2, 32, 0, 4, 1, 2])),
        Err(Error::IoError(IoErrorKind::EndOfFile))
    );
    // Header cut short.
    assert_eq!(
        <IpAddr as FromSql>::from_sql(&Type::Inet, Some(&[2, 32])),
        Err(Error::IoError(IoErrorKind::EndOfFile))
    );
    assert_eq!(<IpAddr as FromSql>::from_sql(&Type::Inet, None), Err(Error::WasNull));
    assert_eq!(<Option<IpAddr> as FromSql>::from_sql(&Type::Inet, None), Ok(None));
}

#[test]
fn inet_roundtrip() {
    let addrs = [
        IpAddr::Ipv4Addr(0, 0, 0, 0),
        IpAddr::Ipv4Addr(255, 1, 2, 3),
        IpAddr::Ipv6Addr(0xffff, 0, 1, 0x8000, 2, 3, 4, 0xabcd),
    ];
    for a in addrs {
        let b = a.to_sql(&Type::Inet).unwrap();
        assert_eq!(<IpAddr as FromSql>::from_sql(&Type::Inet, b.as_deref()), Ok(a));
        assert_eq!(Some(a).to_sql(&Type::Cidr), Ok(b));
    }
}
