//! Reading and writing the binary format of single values.
use vstd::prelude::*;
use vstd::utf8::encode_utf8;
use rustc_serialize::json::Json;
use crate::codec::{
    parse_bool, parse_int, parse_uint, lemma_parse_int_fits, bool_bytes, int_bytes, read_bool, read_signed, read_unsigned,
    write_bool, write_signed,
};
use crate::error::{Error, end_of_file, res_view};
use crate::inet::{IpAddr, parse_inet, inet_bytes, read_inet, write_inet};
use crate::json::{
    MAX_JSON_DEPTH, json_accepts, json_display, json_exponent_overflow, json_from_bytes,
    json_nesting, json_parsed, json_scan_of, json_text,
};
use crate::reader::Reader;
use crate::text::{decode_text, text_from_bytes, text_bytes_of};
use crate::types::Type;
use crate::wire::{be_bytes, push_be, push_bytes, lemma_pow256_values};

verus! {

/// A utility trait used by `FromSql` implementations
pub trait RawFromSql: Sized {
    /// Creates a new value of this type from a `Reader` of Postgres data.
    ///
    /// It is the caller's responsibility to ensure that Postgres data of this
    /// type can be turned in to this type.
    fn raw_from_sql(ty: &Type, raw: &mut Reader<'_>) -> Result<Self, Error>;
}

/// A utility trait used by `ToSql` implementations.
pub trait RawToSql {
    /// Converts the value of `self` into the binary format of the specified
    /// Postgres type, writing it to `w`.
    ///
    /// It is the caller's responsibility to make sure that this type can be
    /// converted to the specified Postgres type.
    fn raw_to_sql(&self, ty: &Type, w: &mut Vec<u8>) -> Result<(), Error>;
}

/// The version byte that comes before a `JSONB` document.
pub const JSONB_VERSION: u8 = 1;

/// What comes before the JSON text in the format of `ty`.
pub open spec fn json_prefix(ty: Type) -> Seq<u8> {
    if ty is Jsonb {
        seq![JSONB_VERSION]
    } else {
        Seq::empty()
    }
}

/// The JSON text in the bytes `s` of a value of type `ty`: after the version
/// byte for `JSONB`.
pub open spec fn json_body(ty: Type, s: Seq<u8>) -> Seq<u8> {
    if ty is Jsonb {
        s.skip(1)
    } else {
        s
    }
}

/// Whether JSON text is read: text that the parser would overflow on (an
/// exponent above `usize::MAX`, or nesting past the limit) is refused, and
/// otherwise it is read where `rustc_serialize` reads it.
pub open spec fn json_text_outcome(b: Seq<u8>) -> Result<(), Error> {
    if json_exponent_overflow(b) || json_nesting(b) > MAX_JSON_DEPTH {
        Err(Error::BadData)
    } else if json_accepts(b) {
        Ok(())
    } else {
        Err(Error::BadData)
    }
}

/// Whether the bytes `s` of a value of type `ty` are a JSON document: for `JSONB`
/// a version byte that must be 1 comes first.
pub open spec fn json_outcome(ty: Type, s: Seq<u8>) -> Result<(), Error> {
    if ty is Jsonb {
        if s.len() == 0 {
            Err(end_of_file())
        } else if s[0] != JSONB_VERSION {
            Err(Error::BadData)
        } else {
            json_text_outcome(s.skip(1))
        }
    } else {
        json_text_outcome(s)
    }
}

/// The JSON document in the bytes `s` of a value of type `ty`.
pub open spec fn json_value(ty: Type, s: Seq<u8>) -> Result<Json, Error> {
    match json_outcome(ty, s) {
        Ok(_) => Ok(json_parsed(json_body(ty, s))),
        Err(e) => Err(e),
    }
}

/// The bytes of a JSON document as a value of type `ty`: the version byte for
/// `JSONB`, then the UTF-8 of its compact text.
pub open spec fn json_bytes(ty: Type, j: Json) -> Seq<u8> {
    json_prefix(ty) + encode_utf8(json_display(j))
}

impl RawFromSql for bool {
    fn raw_from_sql(_ty: &Type, raw: &mut Reader<'_>) -> (res: Result<bool, Error>)
        ensures
            parse_bool(old(raw)@) matches Ok((v, rest)) ==> res == Ok::<bool, Error>(v) && final(raw)@ == rest,
            parse_bool(old(raw)@) matches Err(e) ==> res == Err::<bool, Error>(e) && final(raw)@ == old(raw)@,
    {
        read_bool(raw)
    }
}

impl RawFromSql for Vec<u8> {
    fn raw_from_sql(_ty: &Type, raw: &mut Reader<'_>) -> (res: Result<Vec<u8>, Error>)
        ensures
            res matches Ok(v) && v@ == old(raw)@,
            final(raw)@ == Seq::<u8>::empty(),
    {
        let b = raw.read_to_end();
        Ok(vstd::slice::slice_to_vec(b))
    }
}

impl RawFromSql for String {
    fn raw_from_sql(_ty: &Type, raw: &mut Reader<'_>) -> (res: Result<String, Error>)
        ensures
            res_view(res) == decode_text(old(raw)@),
            final(raw)@ == Seq::<u8>::empty(),
    {
        let b = raw.read_to_end();
        text_from_bytes(b)
    }
}

impl RawFromSql for i8 {
    fn raw_from_sql(_ty: &Type, raw: &mut Reader<'_>) -> (res: Result<i8, Error>)
        ensures
            parse_int(old(raw)@, 1) matches Ok((v, rest)) ==> (res matches Ok(x) && x == v && final(raw)@ == rest),
            parse_int(old(raw)@, 1) matches Err(e) ==> res == Err::<i8, Error>(e) && final(raw)@ == old(raw)@,
    {
        proof {
            lemma_pow256_values();
            if old(raw)@.len() >= 1 {
                lemma_parse_int_fits(old(raw)@, 1);
            }
        }
        match read_signed(raw, 1) {
            Ok(v) => Ok(v as i8),
            Err(e) => Err(e),
        }
    }
}

impl RawFromSql for i16 {
    fn raw_from_sql(_ty: &Type, raw: &mut Reader<'_>) -> (res: Result<i16, Error>)
        ensures
            parse_int(old(raw)@, 2) matches Ok((v, rest)) ==> (res matches Ok(x) && x == v && final(raw)@ == rest),
            parse_int(old(raw)@, 2) matches Err(e) ==> res == Err::<i16, Error>(e) && final(raw)@ == old(raw)@,
    {
        proof {
            lemma_pow256_values();
            if old(raw)@.len() >= 2 {
                lemma_parse_int_fits(old(raw)@, 2);
            }
        }
        match read_signed(raw, 2) {
            Ok(v) => Ok(v as i16),
            Err(e) => Err(e),
        }
    }
}

impl RawFromSql for i32 {
    fn raw_from_sql(_ty: &Type, raw: &mut Reader<'_>) -> (res: Result<i32, Error>)
        ensures
            parse_int(old(raw)@, 4) matches Ok((v, rest)) ==> (res matches Ok(x) && x == v && final(raw)@ == rest),
            parse_int(old(raw)@, 4) matches Err(e) ==> res == Err::<i32, Error>(e) && final(raw)@ == old(raw)@,
    {
        proof {
            lemma_pow256_values();
            if old(raw)@.len() >= 4 {
                lemma_parse_int_fits(old(raw)@, 4);
            }
        }
        match read_signed(raw, 4) {
            Ok(v) => Ok(v as i32),
            Err(e) => Err(e),
        }
    }
}

impl RawFromSql for u32 {
    fn raw_from_sql(_ty: &Type, raw: &mut Reader<'_>) -> (res: Result<u32, Error>)
        ensures
            parse_uint(old(raw)@, 4) matches Ok((v, rest)) ==> (res matches Ok(x) && x == v && final(raw)@ == rest),
            parse_uint(old(raw)@, 4) matches Err(e) ==> res == Err::<u32, Error>(e) && final(raw)@ == old(raw)@,
    {
        proof {
            lemma_pow256_values();
            if old(raw)@.len() >= 4 {
                crate::wire::lemma_be_value_bound(old(raw)@.take(4));
            }
        }
        match read_unsigned(raw, 4) {
            Ok(v) => Ok(v as u32),
            Err(e) => Err(e),
        }
    }
}

impl RawFromSql for i64 {
    fn raw_from_sql(_ty: &Type, raw: &mut Reader<'_>) -> (res: Result<i64, Error>)
        ensures
            parse_int(old(raw)@, 8) matches Ok((v, rest)) ==> (res matches Ok(x) && x == v && final(raw)@ == rest),
            parse_int(old(raw)@, 8) matches Err(e) ==> res == Err::<i64, Error>(e) && final(raw)@ == old(raw)@,
    {
        read_signed(raw, 8)
    }
}

impl RawFromSql for Json {
    fn raw_from_sql(ty: &Type, raw: &mut Reader<'_>) -> (res: Result<Json, Error>)
        ensures
            res == json_value(*ty, old(raw)@),
            final(raw)@ == if *ty is Jsonb && old(raw)@.len() > 0 && old(raw)@[0] != JSONB_VERSION {
                old(raw)@.skip(1)
            } else {
                Seq::<u8>::empty()
            },
    {
        if let Type::Jsonb = *ty {
            // Only version 1 of the jsonb binary format is supported
            match raw.read_u8() {
                Ok(v) => {
                    if v != JSONB_VERSION {
                        return Err(Error::BadData);
                    }
                },
                Err(e) => return Err(e),
            }
        }
        let rest = raw.read_to_end();
        let (nesting, exponent_overflow) = json_scan_of(rest);
        if exponent_overflow || nesting > MAX_JSON_DEPTH {
            return Err(Error::BadData);
        }
        match json_from_bytes(rest) {
            Ok(j) => Ok(j),
            Err(_) => Err(Error::BadData),
        }
    }
}

impl RawFromSql for IpAddr {
    fn raw_from_sql(_ty: &Type, raw: &mut Reader<'_>) -> (res: Result<IpAddr, Error>)
        ensures
            parse_inet(old(raw)@) matches Ok((a, rest)) ==> res == Ok::<IpAddr, Error>(a) && final(raw)@ == rest,
            parse_inet(old(raw)@) matches Err(e) ==> res == Err::<IpAddr, Error>(e),
    {
        read_inet(raw)
    }
}

impl RawToSql for bool {
    fn raw_to_sql(&self, _ty: &Type, w: &mut Vec<u8>) -> (res: Result<(), Error>)
        ensures
            res == Ok::<(), Error>(()),
            final(w)@ == old(w)@ + bool_bytes(*self),
    {
        write_bool(w, *self);
        Ok(())
    }
}

impl RawToSql for Vec<u8> {
    fn raw_to_sql(&self, _ty: &Type, w: &mut Vec<u8>) -> (res: Result<(), Error>)
        ensures
            res == Ok::<(), Error>(()),
            final(w)@ == old(w)@ + self@,
    {
        push_bytes(w, self.as_slice());
        Ok(())
    }
}

impl RawToSql for String {
    fn raw_to_sql(&self, _ty: &Type, w: &mut Vec<u8>) -> (res: Result<(), Error>)
        ensures
            res == Ok::<(), Error>(()),
            final(w)@ == old(w)@ + encode_utf8(self@),
    {
        push_bytes(w, text_bytes_of(self.as_str()));
        Ok(())
    }
}

impl RawToSql for i8 {
    fn raw_to_sql(&self, _ty: &Type, w: &mut Vec<u8>) -> (res: Result<(), Error>)
        ensures
            res == Ok::<(), Error>(()),
            final(w)@ == old(w)@ + int_bytes(*self as int, 1),
    {
        proof {
            lemma_pow256_values();
        }
        write_signed(w, *self as i64, 1);
        Ok(())
    }
}

impl RawToSql for i16 {
    fn raw_to_sql(&self, _ty: &Type, w: &mut Vec<u8>) -> (res: Result<(), Error>)
        ensures
            res == Ok::<(), Error>(()),
            final(w)@ == old(w)@ + int_bytes(*self as int, 2),
    {
        proof {
            lemma_pow256_values();
        }
        write_signed(w, *self as i64, 2);
        Ok(())
    }
}

impl RawToSql for i32 {
    fn raw_to_sql(&self, _ty: &Type, w: &mut Vec<u8>) -> (res: Result<(), Error>)
        ensures
            res == Ok::<(), Error>(()),
            final(w)@ == old(w)@ + int_bytes(*self as int, 4),
    {
        proof {
            lemma_pow256_values();
        }
        write_signed(w, *self as i64, 4);
        Ok(())
    }
}

impl RawToSql for u32 {
    fn raw_to_sql(&self, _ty: &Type, w: &mut Vec<u8>) -> (res: Result<(), Error>)
        ensures
            res == Ok::<(), Error>(()),
            final(w)@ == old(w)@ + be_bytes(*self as nat, 4),
    {
        push_be(w, *self as u64, 4);
        Ok(())
    }
}

impl RawToSql for i64 {
    fn raw_to_sql(&self, _ty: &Type, w: &mut Vec<u8>) -> (res: Result<(), Error>)
        ensures
            res == Ok::<(), Error>(()),
            final(w)@ == old(w)@ + int_bytes(*self as int, 8),
    {
        proof {
            lemma_pow256_values();
        }
        write_signed(w, *self, 8);
        Ok(())
    }
}

impl RawToSql for Json {
    fn raw_to_sql(&self, ty: &Type, w: &mut Vec<u8>) -> (res: Result<(), Error>)
        ensures
            res == Ok::<(), Error>(()),
            final(w)@ == old(w)@ + json_bytes(*ty, *self),
    {
        if let Type::Jsonb = *ty {
            w.push(JSONB_VERSION);
        }
        let text = json_text(self);
        push_bytes(w, text_bytes_of(text.as_str()));
        assert(w@ =~= old(w)@ + json_bytes(*ty, *self));
        Ok(())
    }
}

impl RawToSql for IpAddr {
    fn raw_to_sql(&self, _ty: &Type, w: &mut Vec<u8>) -> (res: Result<(), Error>)
        ensures
            res == Ok::<(), Error>(()),
            final(w)@ == old(w)@ + inet_bytes(*self),
    {
        write_inet(w, *self);
        Ok(())
    }
}

} // verus!
