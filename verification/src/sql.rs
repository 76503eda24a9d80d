//! Conversions between Rust values and nullable Postgres values.
use vstd::prelude::*;
use vstd::utf8::encode_utf8;
use rustc_serialize::json::Json;
use crate::codec::{parse_bool, parse_int, parse_uint, bool_bytes, int_bytes, read_unsigned};
use crate::error::{Error, opt_view, opt_res_view, res_view};
use crate::hstore::{Hstore, EntryView, parse_hstore, hstore_bytes, read_hstore, write_hstore};
use crate::inet::{IpAddr, parse_inet, inet_bytes};
use crate::raw::{RawFromSql, RawToSql, json_value, json_bytes};
use crate::reader::Reader;
use crate::text::{decode_text, text_is, text_bytes_of};
use crate::types::Type;
use crate::wire::{be_bytes, push_be, lemma_pow256_values, lemma_be_value_bound};

verus! {

/// A trait for types that can be created from a Postgres value
pub trait FromSql: Sized {
    /// Creates a new value of this type from a buffer of Postgres data.
    ///
    /// If the value was `NULL`, the buffer will be `None`.
    fn from_sql(ty: &Type, raw: Option<&[u8]>) -> Result<Self, Error>;
}

/// A trait for types that can be converted into Postgres values
pub trait ToSql {
    /// Converts the value of `self` into the binary format appropriate for the
    /// Postgres backend.
    fn to_sql(&self, ty: &Type) -> Result<Option<Vec<u8>>, Error>;
}

/// Reading a nullable value: a type that the Rust type does not convert from is
/// refused, `NULL` gives `None`, and bytes are read by `value`.
pub open spec fn nullable<V>(
    accepted: bool,
    ty: Type,
    raw: Option<Seq<u8>>,
    value: spec_fn(Seq<u8>) -> Result<V, Error>,
) -> Result<Option<V>, Error> {
    if !accepted {
        Err(Error::WrongType(ty))
    } else {
        match raw {
            None => Ok(None),
            Some(b) => match value(b) {
                Ok(v) => Ok(Some(v)),
                Err(e) => Err(e),
            },
        }
    }
}

/// A nullable result where `NULL` is an error.
pub open spec fn non_null_of<V>(r: Result<Option<V>, Error>) -> Result<V, Error> {
    match r {
        Ok(Some(v)) => Ok(v),
        Ok(None) => Err(Error::WasNull),
        Err(e) => Err(e),
    }
}

/// Writing a nullable value: a type that the Rust type does not convert to is
/// refused, and otherwise the bytes are given (`None` for `NULL`).
pub open spec fn encoded(accepted: bool, ty: Type, bytes: Option<Seq<u8>>) -> Result<
    Option<Seq<u8>>,
    Error,
> {
    if accepted {
        Ok(bytes)
    } else {
        Err(Error::WrongType(ty))
    }
}

/// The first value that a parse gives.
pub open spec fn first<V>(r: Result<(V, Seq<u8>), Error>) -> Result<V, Error> {
    match r {
        Ok((v, _)) => Ok(v),
        Err(e) => Err(e),
    }
}

pub open spec fn value_bool(b: Seq<u8>) -> Result<bool, Error> {
    first(parse_bool(b))
}

pub open spec fn value_i8(b: Seq<u8>) -> Result<i8, Error> {
    match parse_int(b, 1) {
        Ok((v, _)) => Ok(v as i8),
        Err(e) => Err(e),
    }
}

pub open spec fn value_i16(b: Seq<u8>) -> Result<i16, Error> {
    match parse_int(b, 2) {
        Ok((v, _)) => Ok(v as i16),
        Err(e) => Err(e),
    }
}

pub open spec fn value_i32(b: Seq<u8>) -> Result<i32, Error> {
    match parse_int(b, 4) {
        Ok((v, _)) => Ok(v as i32),
        Err(e) => Err(e),
    }
}

pub open spec fn value_i64(b: Seq<u8>) -> Result<i64, Error> {
    match parse_int(b, 8) {
        Ok((v, _)) => Ok(v as i64),
        Err(e) => Err(e),
    }
}

pub open spec fn value_u32(b: Seq<u8>) -> Result<u32, Error> {
    match parse_uint(b, 4) {
        Ok((v, _)) => Ok(v as u32),
        Err(e) => Err(e),
    }
}

pub open spec fn value_u64(b: Seq<u8>) -> Result<u64, Error> {
    match parse_uint(b, 8) {
        Ok((v, _)) => Ok(v as u64),
        Err(e) => Err(e),
    }
}

pub open spec fn value_bytes(b: Seq<u8>) -> Result<Seq<u8>, Error> {
    Ok(b)
}

pub open spec fn value_inet(b: Seq<u8>) -> Result<IpAddr, Error> {
    first(parse_inet(b))
}

pub open spec fn value_hstore(b: Seq<u8>) -> Result<Seq<EntryView>, Error> {
    first(parse_hstore(b))
}

/// The name of the `citext` extension type.
pub open spec fn citext_name() -> Seq<char> {
    seq!['c', 'i', 't', 'e', 'x', 't']
}

/// The name of the `hstore` extension type.
pub open spec fn hstore_name() -> Seq<char> {
    seq!['h', 's', 't', 'o', 'r', 'e']
}

/// An extension type with the given name.
pub open spec fn is_named(ty: Type, name: Seq<char>) -> bool {
    ty matches Type::Unknown { name: n, .. } && n@ == name
}

/// The types that text converts to and from.
pub open spec fn accepts_text(ty: Type) -> bool {
    ty is Varchar || ty is Text || ty is CharN || ty is Name || is_named(ty, citext_name())
}

/// The types that addresses convert to and from.
pub open spec fn accepts_inet(ty: Type) -> bool {
    ty is Inet || ty is Cidr
}

/// The types that JSON values convert to and from.
pub open spec fn accepts_json(ty: Type) -> bool {
    ty is Json || ty is Jsonb
}

fn wrong_type(ty: &Type) -> (e: Error)
    ensures
        e == Error::WrongType(*ty),
{
    Error::WrongType(ty.clone())
}

fn is_text_type(ty: &Type) -> (b: bool)
    ensures
        b == accepts_text(*ty),
{
    match ty {
        Type::Varchar => true,
        Type::Text => true,
        Type::CharN => true,
        Type::Name => true,
        Type::Unknown { name, .. } => {
            proof {
                reveal_strlit("citext");
                assert("citext"@ =~= citext_name());
            }
            text_is(name, "citext")
        },
        _ => false,
    }
}

fn is_hstore_type(ty: &Type) -> (b: bool)
    ensures
        b == is_named(*ty, hstore_name()),
{
    match ty {
        Type::Unknown { name, .. } => {
            proof {
                reveal_strlit("hstore");
                assert("hstore"@ =~= hstore_name());
            }
            text_is(name, "hstore")
        },
        _ => false,
    }
}

/// A nullable value read as a value, where `NULL` is an error.
pub fn non_null<T>(r: Result<Option<T>, Error>) -> (res: Result<T, Error>)
    ensures
        res == non_null_of(r),
{
    match r {
        Ok(Some(v)) => Ok(v),
        Ok(None) => Err(Error::WasNull),
        Err(e) => Err(e),
    }
}

impl FromSql for Option<bool> {
    fn from_sql(ty: &Type, raw: Option<&[u8]>) -> (res: Result<Option<bool>, Error>)
        ensures
            res == nullable(*ty == Type::Bool, *ty, opt_view(raw), |b: Seq<u8>| value_bool(b)),
    {
        match ty {
            Type::Bool => {},
            _ => return Err(wrong_type(ty)),
        }
        match raw {
            Some(buf) => {
                let mut r = Reader::new(buf);
                match <bool as RawFromSql>::raw_from_sql(ty, &mut r) {
                    Ok(v) => Ok(Some(v)),
                    Err(e) => Err(e),
                }
            },
            None => Ok(None),
        }
    }
}

impl FromSql for bool {
    fn from_sql(ty: &Type, raw: Option<&[u8]>) -> (res: Result<bool, Error>)
        ensures
            res == non_null_of(nullable(*ty == Type::Bool, *ty, opt_view(raw), |b: Seq<u8>| value_bool(b))),
    {
        non_null(<Option<bool> as FromSql>::from_sql(ty, raw))
    }
}

impl FromSql for Option<i8> {
    fn from_sql(ty: &Type, raw: Option<&[u8]>) -> (res: Result<Option<i8>, Error>)
        ensures
            res == nullable(*ty == Type::Char, *ty, opt_view(raw), |b: Seq<u8>| value_i8(b)),
    {
        match ty {
            Type::Char => {},
            _ => return Err(wrong_type(ty)),
        }
        match raw {
            Some(buf) => {
                let mut r = Reader::new(buf);
                match <i8 as RawFromSql>::raw_from_sql(ty, &mut r) {
                    Ok(v) => Ok(Some(v)),
                    Err(e) => Err(e),
                }
            },
            None => Ok(None),
        }
    }
}

impl FromSql for i8 {
    fn from_sql(ty: &Type, raw: Option<&[u8]>) -> (res: Result<i8, Error>)
        ensures
            res == non_null_of(nullable(*ty == Type::Char, *ty, opt_view(raw), |b: Seq<u8>| value_i8(b))),
    {
        non_null(<Option<i8> as FromSql>::from_sql(ty, raw))
    }
}

impl FromSql for Option<i16> {
    fn from_sql(ty: &Type, raw: Option<&[u8]>) -> (res: Result<Option<i16>, Error>)
        ensures
            res == nullable(*ty == Type::Int2, *ty, opt_view(raw), |b: Seq<u8>| value_i16(b)),
    {
        match ty {
            Type::Int2 => {},
            _ => return Err(wrong_type(ty)),
        }
        match raw {
            Some(buf) => {
                let mut r = Reader::new(buf);
                match <i16 as RawFromSql>::raw_from_sql(ty, &mut r) {
                    Ok(v) => Ok(Some(v)),
                    Err(e) => Err(e),
                }
            },
            None => Ok(None),
        }
    }
}

impl FromSql for i16 {
    fn from_sql(ty: &Type, raw: Option<&[u8]>) -> (res: Result<i16, Error>)
        ensures
            res == non_null_of(nullable(*ty == Type::Int2, *ty, opt_view(raw), |b: Seq<u8>| value_i16(b))),
    {
        non_null(<Option<i16> as FromSql>::from_sql(ty, raw))
    }
}

impl FromSql for Option<i32> {
    fn from_sql(ty: &Type, raw: Option<&[u8]>) -> (res: Result<Option<i32>, Error>)
        ensures
            res == nullable(*ty == Type::Int4, *ty, opt_view(raw), |b: Seq<u8>| value_i32(b)),
    {
        match ty {
            Type::Int4 => {},
            _ => return Err(wrong_type(ty)),
        }
        match raw {
            Some(buf) => {
                let mut r = Reader::new(buf);
                match <i32 as RawFromSql>::raw_from_sql(ty, &mut r) {
                    Ok(v) => Ok(Some(v)),
                    Err(e) => Err(e),
                }
            },
            None => Ok(None),
        }
    }
}

impl FromSql for i32 {
    fn from_sql(ty: &Type, raw: Option<&[u8]>) -> (res: Result<i32, Error>)
        ensures
            res == non_null_of(nullable(*ty == Type::Int4, *ty, opt_view(raw), |b: Seq<u8>| value_i32(b))),
    {
        non_null(<Option<i32> as FromSql>::from_sql(ty, raw))
    }
}

impl FromSql for Option<u32> {
    fn from_sql(ty: &Type, raw: Option<&[u8]>) -> (res: Result<Option<u32>, Error>)
        ensures
            res == nullable(*ty == Type::Oid, *ty, opt_view(raw), |b: Seq<u8>| value_u32(b)),
    {
        match ty {
            Type::Oid => {},
            _ => return Err(wrong_type(ty)),
        }
        match raw {
            Some(buf) => {
                let mut r = Reader::new(buf);
                match <u32 as RawFromSql>::raw_from_sql(ty, &mut r) {
                    Ok(v) => Ok(Some(v)),
                    Err(e) => Err(e),
                }
            },
            None => Ok(None),
        }
    }
}

impl FromSql for u32 {
    fn from_sql(ty: &Type, raw: Option<&[u8]>) -> (res: Result<u32, Error>)
        ensures
            res == non_null_of(nullable(*ty == Type::Oid, *ty, opt_view(raw), |b: Seq<u8>| value_u32(b))),
    {
        non_null(<Option<u32> as FromSql>::from_sql(ty, raw))
    }
}

impl FromSql for Option<i64> {
    fn from_sql(ty: &Type, raw: Option<&[u8]>) -> (res: Result<Option<i64>, Error>)
        ensures
            res == nullable(*ty == Type::Int8, *ty, opt_view(raw), |b: Seq<u8>| value_i64(b)),
    {
        match ty {
            Type::Int8 => {},
            _ => return Err(wrong_type(ty)),
        }
        match raw {
            Some(buf) => {
                let mut r = Reader::new(buf);
                match <i64 as RawFromSql>::raw_from_sql(ty, &mut r) {
                    Ok(v) => Ok(Some(v)),
                    Err(e) => Err(e),
                }
            },
            None => Ok(None),
        }
    }
}

impl FromSql for i64 {
    fn from_sql(ty: &Type, raw: Option<&[u8]>) -> (res: Result<i64, Error>)
        ensures
            res == non_null_of(nullable(*ty == Type::Int8, *ty, opt_view(raw), |b: Seq<u8>| value_i64(b))),
    {
        non_null(<Option<i64> as FromSql>::from_sql(ty, raw))
    }
}

impl FromSql for Option<IpAddr> {
    fn from_sql(ty: &Type, raw: Option<&[u8]>) -> (res: Result<Option<IpAddr>, Error>)
        ensures
            res == nullable(accepts_inet(*ty), *ty, opt_view(raw), |b: Seq<u8>| value_inet(b)),
    {
        match ty {
            Type::Inet | Type::Cidr => {},
            _ => return Err(wrong_type(ty)),
        }
        match raw {
            Some(buf) => {
                let mut r = Reader::new(buf);
                match <IpAddr as RawFromSql>::raw_from_sql(ty, &mut r) {
                    Ok(v) => Ok(Some(v)),
                    Err(e) => Err(e),
                }
            },
            None => Ok(None),
        }
    }
}

impl FromSql for IpAddr {
    fn from_sql(ty: &Type, raw: Option<&[u8]>) -> (res: Result<IpAddr, Error>)
        ensures
            res == non_null_of(nullable(accepts_inet(*ty), *ty, opt_view(raw), |b: Seq<u8>| value_inet(b))),
    {
        non_null(<Option<IpAddr> as FromSql>::from_sql(ty, raw))
    }
}

impl FromSql for Option<Vec<u8>> {
    fn from_sql(ty: &Type, raw: Option<&[u8]>) -> (res: Result<Option<Vec<u8>>, Error>)
        ensures
            opt_res_view(res) == nullable(*ty == Type::ByteA, *ty, opt_view(raw), |b: Seq<u8>| value_bytes(b)),
    {
        match ty {
            Type::ByteA => {},
            _ => return Err(wrong_type(ty)),
        }
        match raw {
            Some(buf) => {
                let mut r = Reader::new(buf);
                match <Vec<u8> as RawFromSql>::raw_from_sql(ty, &mut r) {
                    Ok(v) => Ok(Some(v)),
                    Err(e) => Err(e),
                }
            },
            None => Ok(None),
        }
    }
}

impl FromSql for Vec<u8> {
    fn from_sql(ty: &Type, raw: Option<&[u8]>) -> (res: Result<Vec<u8>, Error>)
        ensures
            res_view(res) == non_null_of(nullable(*ty == Type::ByteA, *ty, opt_view(raw), |b: Seq<u8>| value_bytes(b))),
    {
        non_null(<Option<Vec<u8>> as FromSql>::from_sql(ty, raw))
    }
}

impl FromSql for Option<String> {
    fn from_sql(ty: &Type, raw: Option<&[u8]>) -> (res: Result<Option<String>, Error>)
        ensures
            opt_res_view(res) == nullable(accepts_text(*ty), *ty, opt_view(raw), |b: Seq<u8>| decode_text(b)),
    {
        if !is_text_type(ty) {
            return Err(wrong_type(ty));
        }
        match raw {
            Some(buf) => {
                let mut r = Reader::new(buf);
                match <String as RawFromSql>::raw_from_sql(ty, &mut r) {
                    Ok(v) => Ok(Some(v)),
                    Err(e) => Err(e),
                }
            },
            None => Ok(None),
        }
    }
}

impl FromSql for String {
    fn from_sql(ty: &Type, raw: Option<&[u8]>) -> (res: Result<String, Error>)
        ensures
            res_view(res) == non_null_of(nullable(accepts_text(*ty), *ty, opt_view(raw), |b: Seq<u8>| decode_text(b))),
    {
        non_null(<Option<String> as FromSql>::from_sql(ty, raw))
    }
}

impl FromSql for Option<Hstore> {
    fn from_sql(ty: &Type, raw: Option<&[u8]>) -> (res: Result<Option<Hstore>, Error>)
        ensures
            opt_res_view(res) == nullable(is_named(*ty, hstore_name()), *ty, opt_view(raw), |b: Seq<u8>| value_hstore(b)),
    {
        if !is_hstore_type(ty) {
            return Err(wrong_type(ty));
        }
        match raw {
            Some(buf) => {
                let mut r = Reader::new(buf);
                match read_hstore(&mut r) {
                    Ok(v) => Ok(Some(v)),
                    Err(e) => Err(e),
                }
            },
            None => Ok(None),
        }
    }
}

impl FromSql for Hstore {
    fn from_sql(ty: &Type, raw: Option<&[u8]>) -> (res: Result<Hstore, Error>)
        ensures
            res_view(res) == non_null_of(nullable(is_named(*ty, hstore_name()), *ty, opt_view(raw), |b: Seq<u8>| value_hstore(b))),
    {
        non_null(<Option<Hstore> as FromSql>::from_sql(ty, raw))
    }
}

impl FromSql for Option<Json> {
    fn from_sql(ty: &Type, raw: Option<&[u8]>) -> (res: Result<Option<Json>, Error>)
        ensures
            res == nullable(accepts_json(*ty), *ty, opt_view(raw), |b: Seq<u8>| json_value(*ty, b)),
    {
        match ty {
            Type::Json | Type::Jsonb => {},
            _ => return Err(wrong_type(ty)),
        }
        match raw {
            Some(buf) => {
                let mut r = Reader::new(buf);
                match <Json as RawFromSql>::raw_from_sql(ty, &mut r) {
                    Ok(v) => Ok(Some(v)),
                    Err(e) => Err(e),
                }
            },
            None => Ok(None),
        }
    }
}

impl FromSql for Json {
    fn from_sql(ty: &Type, raw: Option<&[u8]>) -> (res: Result<Json, Error>)
        ensures
            res == non_null_of(nullable(accepts_json(*ty), *ty, opt_view(raw), |b: Seq<u8>| json_value(*ty, b))),
    {
        non_null(<Option<Json> as FromSql>::from_sql(ty, raw))
    }
}

impl ToSql for bool {
    fn to_sql(&self, ty: &Type) -> (res: Result<Option<Vec<u8>>, Error>)
        ensures
            opt_res_view(res) == encoded(*ty == Type::Bool, *ty, Some(bool_bytes(*self))),
    {
        match ty {
            Type::Bool => {},
            _ => return Err(wrong_type(ty)),
        }
        let mut writer: Vec<u8> = Vec::new();
        match self.raw_to_sql(ty, &mut writer) {
            Ok(()) => {},
            Err(e) => return Err(e),
        }
        assert(writer@ =~= bool_bytes(*self));
        Ok(Some(writer))
    }
}

impl ToSql for Option<bool> {
    fn to_sql(&self, ty: &Type) -> (res: Result<Option<Vec<u8>>, Error>)
        ensures
            opt_res_view(res) == encoded(
                *ty == Type::Bool,
                *ty,
                match *self {
                    Some(v) => Some(bool_bytes(v)),
                    None => None,
                },
            ),
    {
        match ty {
            Type::Bool => {},
            _ => return Err(wrong_type(ty)),
        }
        match self {
            None => Ok(None),
            Some(val) => val.to_sql(ty),
        }
    }
}

impl ToSql for Vec<u8> {
    fn to_sql(&self, ty: &Type) -> (res: Result<Option<Vec<u8>>, Error>)
        ensures
            opt_res_view(res) == encoded(*ty == Type::ByteA, *ty, Some((*self)@)),
    {
        match ty {
            Type::ByteA => {},
            _ => return Err(wrong_type(ty)),
        }
        let mut writer: Vec<u8> = Vec::new();
        match self.raw_to_sql(ty, &mut writer) {
            Ok(()) => {},
            Err(e) => return Err(e),
        }
        assert(writer@ =~= (*self)@);
        Ok(Some(writer))
    }
}

impl ToSql for Option<Vec<u8>> {
    fn to_sql(&self, ty: &Type) -> (res: Result<Option<Vec<u8>>, Error>)
        ensures
            opt_res_view(res) == encoded(
                *ty == Type::ByteA,
                *ty,
                match *self {
                    Some(v) => Some((v)@),
                    None => None,
                },
            ),
    {
        match ty {
            Type::ByteA => {},
            _ => return Err(wrong_type(ty)),
        }
        match self {
            None => Ok(None),
            Some(val) => val.to_sql(ty),
        }
    }
}

impl ToSql for IpAddr {
    fn to_sql(&self, ty: &Type) -> (res: Result<Option<Vec<u8>>, Error>)
        ensures
            opt_res_view(res) == encoded(accepts_inet(*ty), *ty, Some(inet_bytes(*self))),
    {
        match ty {
            Type::Inet | Type::Cidr => {},
            _ => return Err(wrong_type(ty)),
        }
        let mut writer: Vec<u8> = Vec::new();
        match self.raw_to_sql(ty, &mut writer) {
            Ok(()) => {},
            Err(e) => return Err(e),
        }
        assert(writer@ =~= inet_bytes(*self));
        Ok(Some(writer))
    }
}

impl ToSql for Option<IpAddr> {
    fn to_sql(&self, ty: &Type) -> (res: Result<Option<Vec<u8>>, Error>)
        ensures
            opt_res_view(res) == encoded(
                accepts_inet(*ty),
                *ty,
                match *self {
                    Some(v) => Some(inet_bytes(v)),
                    None => None,
                },
            ),
    {
        match ty {
            Type::Inet | Type::Cidr => {},
            _ => return Err(wrong_type(ty)),
        }
        match self {
            None => Ok(None),
            Some(val) => val.to_sql(ty),
        }
    }
}

impl ToSql for i8 {
    fn to_sql(&self, ty: &Type) -> (res: Result<Option<Vec<u8>>, Error>)
        ensures
            opt_res_view(res) == encoded(*ty == Type::Char, *ty, Some(int_bytes(*self as int, 1))),
    {
        match ty {
            Type::Char => {},
            _ => return Err(wrong_type(ty)),
        }
        let mut writer: Vec<u8> = Vec::new();
        match self.raw_to_sql(ty, &mut writer) {
            Ok(()) => {},
            Err(e) => return Err(e),
        }
        assert(writer@ =~= int_bytes(*self as int, 1));
        Ok(Some(writer))
    }
}

impl ToSql for Option<i8> {
    fn to_sql(&self, ty: &Type) -> (res: Result<Option<Vec<u8>>, Error>)
        ensures
            opt_res_view(res) == encoded(
                *ty == Type::Char,
                *ty,
                match *self {
                    Some(v) => Some(int_bytes(v as int, 1)),
                    None => None,
                },
            ),
    {
        match ty {
            Type::Char => {},
            _ => return Err(wrong_type(ty)),
        }
        match self {
            None => Ok(None),
            Some(val) => val.to_sql(ty),
        }
    }
}

impl ToSql for i16 {
    fn to_sql(&self, ty: &Type) -> (res: Result<Option<Vec<u8>>, Error>)
        ensures
            opt_res_view(res) == encoded(*ty == Type::Int2, *ty, Some(int_bytes(*self as int, 2))),
    {
        match ty {
            Type::Int2 => {},
            _ => return Err(wrong_type(ty)),
        }
        let mut writer: Vec<u8> = Vec::new();
        match self.raw_to_sql(ty, &mut writer) {
            Ok(()) => {},
            Err(e) => return Err(e),
        }
        assert(writer@ =~= int_bytes(*self as int, 2));
        Ok(Some(writer))
    }
}

impl ToSql for Option<i16> {
    fn to_sql(&self, ty: &Type) -> (res: Result<Option<Vec<u8>>, Error>)
        ensures
            opt_res_view(res) == encoded(
                *ty == Type::Int2,
                *ty,
                match *self {
                    Some(v) => Some(int_bytes(v as int, 2)),
                    None => None,
                },
            ),
    {
        match ty {
            Type::Int2 => {},
            _ => return Err(wrong_type(ty)),
        }
        match self {
            None => Ok(None),
            Some(val) => val.to_sql(ty),
        }
    }
}

impl ToSql for i32 {
    fn to_sql(&self, ty: &Type) -> (res: Result<Option<Vec<u8>>, Error>)
        ensures
            opt_res_view(res) == encoded(*ty == Type::Int4, *ty, Some(int_bytes(*self as int, 4))),
    {
        match ty {
            Type::Int4 => {},
            _ => return Err(wrong_type(ty)),
        }
        let mut writer: Vec<u8> = Vec::new();
        match self.raw_to_sql(ty, &mut writer) {
            Ok(()) => {},
            Err(e) => return Err(e),
        }
        assert(writer@ =~= int_bytes(*self as int, 4));
        Ok(Some(writer))
    }
}

impl ToSql for Option<i32> {
    fn to_sql(&self, ty: &Type) -> (res: Result<Option<Vec<u8>>, Error>)
        ensures
            opt_res_view(res) == encoded(
                *ty == Type::Int4,
                *ty,
                match *self {
                    Some(v) => Some(int_bytes(v as int, 4)),
                    None => None,
                },
            ),
    {
        match ty {
            Type::Int4 => {},
            _ => return Err(wrong_type(ty)),
        }
        match self {
            None => Ok(None),
            Some(val) => val.to_sql(ty),
        }
    }
}

impl ToSql for u32 {
    fn to_sql(&self, ty: &Type) -> (res: Result<Option<Vec<u8>>, Error>)
        ensures
            opt_res_view(res) == encoded(*ty == Type::Oid, *ty, Some(be_bytes(*self as nat, 4))),
    {
        match ty {
            Type::Oid => {},
            _ => return Err(wrong_type(ty)),
        }
        let mut writer: Vec<u8> = Vec::new();
        match self.raw_to_sql(ty, &mut writer) {
            Ok(()) => {},
            Err(e) => return Err(e),
        }
        assert(writer@ =~= be_bytes(*self as nat, 4));
        Ok(Some(writer))
    }
}

impl ToSql for Option<u32> {
    fn to_sql(&self, ty: &Type) -> (res: Result<Option<Vec<u8>>, Error>)
        ensures
            opt_res_view(res) == encoded(
                *ty == Type::Oid,
                *ty,
                match *self {
                    Some(v) => Some(be_bytes(v as nat, 4)),
                    None => None,
                },
            ),
    {
        match ty {
            Type::Oid => {},
            _ => return Err(wrong_type(ty)),
        }
        match self {
            None => Ok(None),
            Some(val) => val.to_sql(ty),
        }
    }
}

impl ToSql for i64 {
    fn to_sql(&self, ty: &Type) -> (res: Result<Option<Vec<u8>>, Error>)
        ensures
            opt_res_view(res) == encoded(*ty == Type::Int8, *ty, Some(int_bytes(*self as int, 8))),
    {
        match ty {
            Type::Int8 => {},
            _ => return Err(wrong_type(ty)),
        }
        let mut writer: Vec<u8> = Vec::new();
        match self.raw_to_sql(ty, &mut writer) {
            Ok(()) => {},
            Err(e) => return Err(e),
        }
        assert(writer@ =~= int_bytes(*self as int, 8));
        Ok(Some(writer))
    }
}

impl ToSql for Option<i64> {
    fn to_sql(&self, ty: &Type) -> (res: Result<Option<Vec<u8>>, Error>)
        ensures
            opt_res_view(res) == encoded(
                *ty == Type::Int8,
                *ty,
                match *self {
                    Some(v) => Some(int_bytes(v as int, 8)),
                    None => None,
                },
            ),
    {
        match ty {
            Type::Int8 => {},
            _ => return Err(wrong_type(ty)),
        }
        match self {
            None => Ok(None),
            Some(val) => val.to_sql(ty),
        }
    }
}

impl ToSql for Json {
    fn to_sql(&self, ty: &Type) -> (res: Result<Option<Vec<u8>>, Error>)
        ensures
            opt_res_view(res) == encoded(accepts_json(*ty), *ty, Some(json_bytes(*ty, *self))),
    {
        match ty {
            Type::Json | Type::Jsonb => {},
            _ => return Err(wrong_type(ty)),
        }
        let mut writer: Vec<u8> = Vec::new();
        match self.raw_to_sql(ty, &mut writer) {
            Ok(()) => {},
            Err(e) => return Err(e),
        }
        assert(writer@ =~= json_bytes(*ty, *self));
        Ok(Some(writer))
    }
}

impl ToSql for Option<Json> {
    fn to_sql(&self, ty: &Type) -> (res: Result<Option<Vec<u8>>, Error>)
        ensures
            opt_res_view(res) == encoded(
                accepts_json(*ty),
                *ty,
                match *self {
                    Some(j) => Some(json_bytes(*ty, j)),
                    None => None,
                },
            ),
    {
        match ty {
            Type::Json | Type::Jsonb => {},
            _ => return Err(wrong_type(ty)),
        }
        match self {
            None => Ok(None),
            Some(val) => val.to_sql(ty),
        }
    }
}

impl ToSql for String {
    fn to_sql(&self, ty: &Type) -> (res: Result<Option<Vec<u8>>, Error>)
        ensures
            opt_res_view(res) == encoded(accepts_text(*ty), *ty, Some(encode_utf8(self@))),
    {
        let s: &str = self.as_str();
        s.to_sql(ty)
    }
}

impl ToSql for Option<String> {
    fn to_sql(&self, ty: &Type) -> (res: Result<Option<Vec<u8>>, Error>)
        ensures
            opt_res_view(res) == encoded(
                accepts_text(*ty),
                *ty,
                match *self {
                    Some(s) => Some(encode_utf8(s@)),
                    None => None,
                },
            ),
    {
        let o: Option<&str> = match self {
            Some(s) => Some(s.as_str()),
            None => None,
        };
        o.to_sql(ty)
    }
}

impl<'a> ToSql for &'a str {
    fn to_sql(&self, ty: &Type) -> (res: Result<Option<Vec<u8>>, Error>)
        ensures
            opt_res_view(res) == encoded(accepts_text(*ty), *ty, Some(encode_utf8(self@))),
    {
        if !is_text_type(ty) {
            return Err(wrong_type(ty));
        }
        Ok(Some(vstd::slice::slice_to_vec(text_bytes_of(*self))))
    }
}

impl<'a> ToSql for Option<&'a str> {
    fn to_sql(&self, ty: &Type) -> (res: Result<Option<Vec<u8>>, Error>)
        ensures
            opt_res_view(res) == encoded(
                accepts_text(*ty),
                *ty,
                match *self {
                    Some(s) => Some(encode_utf8(s@)),
                    None => None,
                },
            ),
    {
        if !is_text_type(ty) {
            return Err(wrong_type(ty));
        }
        match self {
            Some(val) => val.to_sql(ty),
            None => Ok(None),
        }
    }
}

impl<'a> ToSql for &'a [u8] {
    fn to_sql(&self, ty: &Type) -> (res: Result<Option<Vec<u8>>, Error>)
        ensures
            opt_res_view(res) == encoded(*ty == Type::ByteA, *ty, Some(self@)),
    {
        match ty {
            Type::ByteA => {},
            _ => return Err(wrong_type(ty)),
        }
        Ok(Some(vstd::slice::slice_to_vec(*self)))
    }
}

impl<'a> ToSql for Option<&'a [u8]> {
    fn to_sql(&self, ty: &Type) -> (res: Result<Option<Vec<u8>>, Error>)
        ensures
            opt_res_view(res) == encoded(
                *ty == Type::ByteA,
                *ty,
                match *self {
                    Some(b) => Some(b@),
                    None => None,
                },
            ),
    {
        match ty {
            Type::ByteA => {},
            _ => return Err(wrong_type(ty)),
        }
        match self {
            None => Ok(None),
            Some(val) => val.to_sql(ty),
        }
    }
}

impl ToSql for Hstore {
    fn to_sql(&self, ty: &Type) -> (res: Result<Option<Vec<u8>>, Error>)
        ensures
            opt_res_view(res) == encoded(is_named(*ty, hstore_name()), *ty, Some(hstore_bytes(self@))),
    {
        if !is_hstore_type(ty) {
            return Err(wrong_type(ty));
        }
        let mut buf: Vec<u8> = Vec::new();
        write_hstore(&mut buf, self);
        assert(buf@ =~= hstore_bytes(self@));
        Ok(Some(buf))
    }
}

impl ToSql for Option<Hstore> {
    fn to_sql(&self, ty: &Type) -> (res: Result<Option<Vec<u8>>, Error>)
        ensures
            opt_res_view(res) == encoded(
                is_named(*ty, hstore_name()),
                *ty,
                match *self {
                    Some(h) => Some(hstore_bytes(h@)),
                    None => None,
                },
            ),
    {
        if !is_hstore_type(ty) {
            return Err(wrong_type(ty));
        }
        match self {
            Some(inner) => inner.to_sql(ty),
            None => Ok(None),
        }
    }
}

/// Reads a `FLOAT4` as the bits of its IEEE 754 single-precision number.
pub fn float4_bits_from_sql(ty: &Type, raw: Option<&[u8]>) -> (res: Result<Option<u32>, Error>)
    ensures
        res == nullable(*ty == Type::Float4, *ty, opt_view(raw), |b: Seq<u8>| value_u32(b)),
{
    match ty {
        Type::Float4 => {},
        _ => return Err(wrong_type(ty)),
    }
    match raw {
        Some(buf) => {
            let mut r = Reader::new(buf);
            match <u32 as RawFromSql>::raw_from_sql(ty, &mut r) {
                Ok(v) => Ok(Some(v)),
                Err(e) => Err(e),
            }
        },
        None => Ok(None),
    }
}

/// Reads a `FLOAT8` as the bits of its IEEE 754 double-precision number.
pub fn float8_bits_from_sql(ty: &Type, raw: Option<&[u8]>) -> (res: Result<Option<u64>, Error>)
    ensures
        res == nullable(*ty == Type::Float8, *ty, opt_view(raw), |b: Seq<u8>| value_u64(b)),
{
    match ty {
        Type::Float8 => {},
        _ => return Err(wrong_type(ty)),
    }
    match raw {
        Some(buf) => {
            let mut r = Reader::new(buf);
            proof {
                lemma_pow256_values();
                if buf@.len() >= 8 {
                    lemma_be_value_bound(buf@.take(8));
                }
            }
            match read_unsigned(&mut r, 8) {
                Ok(v) => Ok(Some(v)),
                Err(e) => Err(e),
            }
        },
        None => Ok(None),
    }
}

/// Writes the bits of an IEEE 754 single-precision number as a `FLOAT4`.
pub fn float4_bits_to_sql(bits: Option<u32>, ty: &Type) -> (res: Result<Option<Vec<u8>>, Error>)
    ensures
        opt_res_view(res) == encoded(
            *ty == Type::Float4,
            *ty,
            match bits {
                Some(v) => Some(be_bytes(v as nat, 4)),
                None => None,
            },
        ),
{
    match ty {
        Type::Float4 => {},
        _ => return Err(wrong_type(ty)),
    }
    match bits {
        Some(v) => {
            let mut w: Vec<u8> = Vec::new();
            push_be(&mut w, v as u64, 4);
            assert(w@ =~= be_bytes(v as nat, 4));
            Ok(Some(w))
        },
        None => Ok(None),
    }
}

/// Writes the bits of an IEEE 754 double-precision number as a `FLOAT8`.
pub fn float8_bits_to_sql(bits: Option<u64>, ty: &Type) -> (res: Result<Option<Vec<u8>>, Error>)
    ensures
        opt_res_view(res) == encoded(
            *ty == Type::Float8,
            *ty,
            match bits {
                Some(v) => Some(be_bytes(v as nat, 8)),
                None => None,
            },
        ),
{
    match ty {
        Type::Float8 => {},
        _ => return Err(wrong_type(ty)),
    }
    match bits {
        Some(v) => {
            let mut w: Vec<u8> = Vec::new();
            push_be(&mut w, v, 8);
            assert(w@ =~= be_bytes(v as nat, 8));
            Ok(Some(w))
        },
        None => Ok(None),
    }
}

} // verus!
