use pgtypes::error::{Error, IoErrorKind};
use pgtypes::raw::RawFromSql;
use pgtypes::reader::Reader;
use pgtypes::types::Type;

#[test]
fn reader_reads_in_order() {
    let data = [0u8, 5, 1, 2, 3];
    let mut r = Reader::new(&data);
    assert_eq!(r.remaining(), 5);
    assert_eq!(<i16 as RawFromSql>::raw_from_sql(&Type::Int2, &mut r), Ok(5));
    assert_eq!(r.read_u8(), Ok(1));
    assert_eq!(r.read_exact(3), Err(Error::IoError(IoErrorKind::EndOfFile)));
    assert_eq!(r.read_to_end(), &[2u8, 3][..]);
    assert_eq!(r.remaining(), 0);
    assert_eq!(r.read_u8(), Err(Error::IoError(IoErrorKind::EndOfFile)));
}

#[test]
fn reader_big_endian() {
    let data = [1u8, 2, 3, 4, 5, 6, 7, 8];
    let mut r = Reader::new(&data);
    assert_eq!(r.read_be_uint(8), Ok(0x0102_0304_0506_0708));
    let mut r = Reader::new(&data);
    assert_eq!(r.read_be_uint(3), Ok(0x010203));
    assert_eq!(r.read_be_uint(0), Ok(0));
}
