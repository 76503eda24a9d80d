//! What holds across conversions: what `to_sql` writes, `from_sql` reads back.
use vstd::prelude::*;
use vstd::utf8::{encode_utf8, encode_utf8_valid_utf8, encode_utf8_decode_utf8};
use crate::codec::{bool_bytes, int_bytes, lemma_parse_int_bytes, lemma_parse_uint_bytes};
use crate::error::Error;
use crate::hstore::{EntryView, hstore_bytes, distinct_keys, lengths_fit, lemma_parse_hstore_bytes};
use crate::inet::{IpAddr, inet_bytes, parse_inet, group_at, lemma_parse_inet_bytes};
use crate::raw::{json_value, json_prefix, JSONB_VERSION};
use crate::sql::{
    nullable, encoded, accepts_json, value_bool, value_i8, value_i16, value_i32, value_i64,
    value_u32, value_u64, value_bytes, value_inet, value_hstore,
};
use crate::text::decode_text;
use crate::json::{
    MAX_JSON_DEPTH, TextShape, json_accepts, json_exponent_overflow, json_nesting, json_parsed,
    shape_depth, shape_text, shape_wf, lemma_nesting_of_shape,
};
use rustc_serialize::json::Json;
use crate::types::{
    Oid, Type, oid_of, type_for_oid, element_of, lemma_type_for_oid_of_builtin,
    lemma_oid_of_type_for_oid,
};
use crate::wire::{be_bytes, be_value, lemma_pow256_values};

verus! {

/// The bytes of an optional value, `None` for `NULL`.
pub open spec fn opt_bytes<V>(v: Option<V>, enc: spec_fn(V) -> Seq<u8>) -> Option<Seq<u8>> {
    match v {
        Some(x) => Some(enc(x)),
        None => None,
    }
}

/// Wherever reading undoes writing for single values, reading a nullable value
/// of the same type undoes writing it, and `NULL` reads back as `NULL`.
pub proof fn law_nullable_roundtrip<V>(
    accepted: bool,
    ty: Type,
    v: Option<V>,
    enc: spec_fn(V) -> Seq<u8>,
    value: spec_fn(Seq<u8>) -> Result<V, Error>,
)
    requires
        v matches Some(x) ==> value(enc(x)) == Ok::<V, Error>(x),
    ensures
        accepted ==> encoded(accepted, ty, opt_bytes(v, enc)) == Ok::<Option<Seq<u8>>, Error>(
            opt_bytes(v, enc),
        ),
        accepted ==> nullable(accepted, ty, opt_bytes(v, enc), value) == Ok::<Option<V>, Error>(v),
        !accepted ==> encoded(accepted, ty, opt_bytes(v, enc)) == Err::<Option<Seq<u8>>, Error>(
            Error::WrongType(ty),
        ),
        !accepted ==> nullable(accepted, ty, opt_bytes(v, enc), value) == Err::<Option<V>, Error>(
            Error::WrongType(ty),
        ),
{
}

/// A boolean reads back as itself.
pub proof fn law_bool_roundtrip(b: bool)
    ensures
        value_bool(bool_bytes(b)) == Ok::<bool, Error>(b),
{
    assert(bool_bytes(b).skip(1) =~= Seq::<u8>::empty());
}

/// A `"char"` reads back as itself.
pub proof fn law_i8_roundtrip(v: i8)
    ensures
        value_i8(int_bytes(v as int, 1)) == Ok::<i8, Error>(v),
{
    lemma_pow256_values();
    lemma_parse_int_bytes(v as int, 1, Seq::empty());
    assert(int_bytes(v as int, 1) + Seq::<u8>::empty() =~= int_bytes(v as int, 1));
}

/// An `INT2` reads back as itself.
pub proof fn law_i16_roundtrip(v: i16)
    ensures
        value_i16(int_bytes(v as int, 2)) == Ok::<i16, Error>(v),
{
    lemma_pow256_values();
    lemma_parse_int_bytes(v as int, 2, Seq::empty());
    assert(int_bytes(v as int, 2) + Seq::<u8>::empty() =~= int_bytes(v as int, 2));
}

/// An `INT4` reads back as itself.
pub proof fn law_i32_roundtrip(v: i32)
    ensures
        value_i32(int_bytes(v as int, 4)) == Ok::<i32, Error>(v),
{
    lemma_pow256_values();
    lemma_parse_int_bytes(v as int, 4, Seq::empty());
    assert(int_bytes(v as int, 4) + Seq::<u8>::empty() =~= int_bytes(v as int, 4));
}

/// An `INT8` reads back as itself.
pub proof fn law_i64_roundtrip(v: i64)
    ensures
        value_i64(int_bytes(v as int, 8)) == Ok::<i64, Error>(v),
{
    lemma_pow256_values();
    lemma_parse_int_bytes(v as int, 8, Seq::empty());
    assert(int_bytes(v as int, 8) + Seq::<u8>::empty() =~= int_bytes(v as int, 8));
}

/// An `OID` (and the bits of a `FLOAT4`) reads back as itself.
pub proof fn law_u32_roundtrip(v: u32)
    ensures
        value_u32(be_bytes(v as nat, 4)) == Ok::<u32, Error>(v),
{
    lemma_pow256_values();
    lemma_parse_uint_bytes(v as nat, 4, Seq::empty());
    assert(be_bytes(v as nat, 4) + Seq::<u8>::empty() =~= be_bytes(v as nat, 4));
}

/// The bits of a `FLOAT8` read back as themselves.
pub proof fn law_u64_roundtrip(v: u64)
    ensures
        value_u64(be_bytes(v as nat, 8)) == Ok::<u64, Error>(v),
{
    lemma_pow256_values();
    lemma_parse_uint_bytes(v as nat, 8, Seq::empty());
    assert(be_bytes(v as nat, 8) + Seq::<u8>::empty() =~= be_bytes(v as nat, 8));
}

/// A `BYTEA` reads back as itself.
pub proof fn law_bytes_roundtrip(b: Seq<u8>)
    ensures
        value_bytes(b) == Ok::<Seq<u8>, Error>(b),
{
}

/// Text reads back as itself.
pub proof fn law_text_roundtrip(t: Seq<char>)
    ensures
        decode_text(encode_utf8(t)) == Ok::<Seq<char>, Error>(t),
{
    encode_utf8_valid_utf8(t);
    encode_utf8_decode_utf8(t);
}

/// An address reads back as itself.
pub proof fn law_inet_roundtrip(a: IpAddr)
    ensures
        value_inet(inet_bytes(a)) == Ok::<IpAddr, Error>(a),
{
    lemma_parse_inet_bytes(a);
}

/// An `hstore` reads back with the same entries in the same order, wherever the
/// count of entries and the byte length of every key and value fit in 31 bits.
pub proof fn law_hstore_roundtrip(v: Seq<EntryView>)
    requires
        distinct_keys(v),
        lengths_fit(v),
    ensures
        value_hstore(hstore_bytes(v)) == Ok::<Seq<EntryView>, Error>(v),
{
    lemma_parse_hstore_bytes(v);
}

/// Reading JSON undoes the framing that writing adds: the version byte of `JSONB`.
pub proof fn law_json_framing(ty: Type, t: Seq<u8>)
    requires
        accepts_json(ty),
    ensures
        json_value(ty, json_prefix(ty) + t) == json_value(Type::Json, t),
{
    if ty is Jsonb {
        let s = json_prefix(ty) + t;
        assert(s[0] == JSONB_VERSION);
        assert(s.skip(1) =~= t);
    } else {
        assert(json_prefix(ty) + t =~= t);
    }
}


/// Every built-in type has the OID that `pg_type.h` gives it, and that OID
/// names that type.
pub proof fn law_builtin_oids()
    ensures
        oid_of(Type::Bool) == 16 && type_for_oid(16) == Some(Type::Bool),
        oid_of(Type::ByteA) == 17 && type_for_oid(17) == Some(Type::ByteA),
        oid_of(Type::Char) == 18 && type_for_oid(18) == Some(Type::Char),
        oid_of(Type::Name) == 19 && type_for_oid(19) == Some(Type::Name),
        oid_of(Type::Int8) == 20 && type_for_oid(20) == Some(Type::Int8),
        oid_of(Type::Int2) == 21 && type_for_oid(21) == Some(Type::Int2),
        oid_of(Type::Int4) == 23 && type_for_oid(23) == Some(Type::Int4),
        oid_of(Type::Text) == 25 && type_for_oid(25) == Some(Type::Text),
        oid_of(Type::Oid) == 26 && type_for_oid(26) == Some(Type::Oid),
        oid_of(Type::Json) == 114 && type_for_oid(114) == Some(Type::Json),
        oid_of(Type::JsonArray) == 199 && type_for_oid(199) == Some(Type::JsonArray),
        oid_of(Type::Cidr) == 650 && type_for_oid(650) == Some(Type::Cidr),
        oid_of(Type::Float4) == 700 && type_for_oid(700) == Some(Type::Float4),
        oid_of(Type::Float8) == 701 && type_for_oid(701) == Some(Type::Float8),
        oid_of(Type::Inet) == 869 && type_for_oid(869) == Some(Type::Inet),
        oid_of(Type::BoolArray) == 1000 && type_for_oid(1000) == Some(Type::BoolArray),
        oid_of(Type::ByteAArray) == 1001 && type_for_oid(1001) == Some(Type::ByteAArray),
        oid_of(Type::CharArray) == 1002 && type_for_oid(1002) == Some(Type::CharArray),
        oid_of(Type::NameArray) == 1003 && type_for_oid(1003) == Some(Type::NameArray),
        oid_of(Type::Int2Array) == 1005 && type_for_oid(1005) == Some(Type::Int2Array),
        oid_of(Type::Int4Array) == 1007 && type_for_oid(1007) == Some(Type::Int4Array),
        oid_of(Type::TextArray) == 1009 && type_for_oid(1009) == Some(Type::TextArray),
        oid_of(Type::CharNArray) == 1014 && type_for_oid(1014) == Some(Type::CharNArray),
        oid_of(Type::VarcharArray) == 1015 && type_for_oid(1015) == Some(Type::VarcharArray),
        oid_of(Type::Int8Array) == 1016 && type_for_oid(1016) == Some(Type::Int8Array),
        oid_of(Type::Float4Array) == 1021 && type_for_oid(1021) == Some(Type::Float4Array),
        oid_of(Type::Float8Array) == 1022 && type_for_oid(1022) == Some(Type::Float8Array),
        oid_of(Type::CharN) == 1042 && type_for_oid(1042) == Some(Type::CharN),
        oid_of(Type::Varchar) == 1043 && type_for_oid(1043) == Some(Type::Varchar),
        oid_of(Type::Timestamp) == 1114 && type_for_oid(1114) == Some(Type::Timestamp),
        oid_of(Type::TimestampArray) == 1115 && type_for_oid(1115) == Some(Type::TimestampArray),
        oid_of(Type::TimestampTZ) == 1184 && type_for_oid(1184) == Some(Type::TimestampTZ),
        oid_of(Type::TimestampTZArray) == 1185 && type_for_oid(1185) == Some(Type::TimestampTZArray),
        oid_of(Type::Uuid) == 2950 && type_for_oid(2950) == Some(Type::Uuid),
        oid_of(Type::UuidArray) == 2951 && type_for_oid(2951) == Some(Type::UuidArray),
        oid_of(Type::Jsonb) == 3802 && type_for_oid(3802) == Some(Type::Jsonb),
        oid_of(Type::JsonbArray) == 3807 && type_for_oid(3807) == Some(Type::JsonbArray),
        oid_of(Type::Int4Range) == 3904 && type_for_oid(3904) == Some(Type::Int4Range),
        oid_of(Type::Int4RangeArray) == 3905 && type_for_oid(3905) == Some(Type::Int4RangeArray),
        oid_of(Type::TsRange) == 3908 && type_for_oid(3908) == Some(Type::TsRange),
        oid_of(Type::TsRangeArray) == 3909 && type_for_oid(3909) == Some(Type::TsRangeArray),
        oid_of(Type::TstzRange) == 3910 && type_for_oid(3910) == Some(Type::TstzRange),
        oid_of(Type::TstzRangeArray) == 3911 && type_for_oid(3911) == Some(Type::TstzRangeArray),
        oid_of(Type::Int8Range) == 3926 && type_for_oid(3926) == Some(Type::Int8Range),
        oid_of(Type::Int8RangeArray) == 3927 && type_for_oid(3927) == Some(Type::Int8RangeArray),
{
    lemma_type_for_oid_of_builtin(Type::Bool);
    lemma_type_for_oid_of_builtin(Type::ByteA);
    lemma_type_for_oid_of_builtin(Type::Char);
    lemma_type_for_oid_of_builtin(Type::Name);
    lemma_type_for_oid_of_builtin(Type::Int8);
    lemma_type_for_oid_of_builtin(Type::Int2);
    lemma_type_for_oid_of_builtin(Type::Int4);
    lemma_type_for_oid_of_builtin(Type::Text);
    lemma_type_for_oid_of_builtin(Type::Oid);
    lemma_type_for_oid_of_builtin(Type::Json);
    lemma_type_for_oid_of_builtin(Type::JsonArray);
    lemma_type_for_oid_of_builtin(Type::Cidr);
    lemma_type_for_oid_of_builtin(Type::Float4);
    lemma_type_for_oid_of_builtin(Type::Float8);
    lemma_type_for_oid_of_builtin(Type::Inet);
    lemma_type_for_oid_of_builtin(Type::BoolArray);
    lemma_type_for_oid_of_builtin(Type::ByteAArray);
    lemma_type_for_oid_of_builtin(Type::CharArray);
    lemma_type_for_oid_of_builtin(Type::NameArray);
    lemma_type_for_oid_of_builtin(Type::Int2Array);
    lemma_type_for_oid_of_builtin(Type::Int4Array);
    lemma_type_for_oid_of_builtin(Type::TextArray);
    lemma_type_for_oid_of_builtin(Type::CharNArray);
    lemma_type_for_oid_of_builtin(Type::VarcharArray);
    lemma_type_for_oid_of_builtin(Type::Int8Array);
    lemma_type_for_oid_of_builtin(Type::Float4Array);
    lemma_type_for_oid_of_builtin(Type::Float8Array);
    lemma_type_for_oid_of_builtin(Type::CharN);
    lemma_type_for_oid_of_builtin(Type::Varchar);
    lemma_type_for_oid_of_builtin(Type::Timestamp);
    lemma_type_for_oid_of_builtin(Type::TimestampArray);
    lemma_type_for_oid_of_builtin(Type::TimestampTZ);
    lemma_type_for_oid_of_builtin(Type::TimestampTZArray);
    lemma_type_for_oid_of_builtin(Type::Uuid);
    lemma_type_for_oid_of_builtin(Type::UuidArray);
    lemma_type_for_oid_of_builtin(Type::Jsonb);
    lemma_type_for_oid_of_builtin(Type::JsonbArray);
    lemma_type_for_oid_of_builtin(Type::Int4Range);
    lemma_type_for_oid_of_builtin(Type::Int4RangeArray);
    lemma_type_for_oid_of_builtin(Type::TsRange);
    lemma_type_for_oid_of_builtin(Type::TsRangeArray);
    lemma_type_for_oid_of_builtin(Type::TstzRange);
    lemma_type_for_oid_of_builtin(Type::TstzRangeArray);
    lemma_type_for_oid_of_builtin(Type::Int8Range);
    lemma_type_for_oid_of_builtin(Type::Int8RangeArray);
}

/// OIDs that `pg_type.h` gives no built-in type here name none.
pub proof fn law_unused_oids(oid: Oid)
    requires
        oid != 16 && oid != 17 && oid != 18 && oid != 19 && oid != 20 && oid != 21 && oid != 23 && oid != 25 && oid != 26 && oid != 114 && oid != 199 && oid != 650 && oid != 700 && oid != 701 && oid != 869 && oid != 1000 && oid != 1001 && oid != 1002 && oid != 1003 && oid != 1005 && oid != 1007 && oid != 1009 && oid != 1014 && oid != 1015 && oid != 1016 && oid != 1021 && oid != 1022 && oid != 1042 && oid != 1043 && oid != 1114 && oid != 1115 && oid != 1184 && oid != 1185 && oid != 2950 && oid != 2951 && oid != 3802 && oid != 3807 && oid != 3904 && oid != 3905 && oid != 3908 && oid != 3909 && oid != 3910 && oid != 3911 && oid != 3926 && oid != 3927,
    ensures
        type_for_oid(oid) is None,
{
    if type_for_oid(oid) is Some {
        lemma_oid_of_type_for_oid(oid);
    }
}

/// The members of each array and range type are the `typelem` that `pg_type.h`
/// lists for it, by OID; the other built-in types have none.
pub proof fn law_element_types()
    ensures
        element_of(Type::Bool) is None,
        element_of(Type::ByteA) is None,
        element_of(Type::Char) is None,
        element_of(Type::Name) is None,
        element_of(Type::Int8) is None,
        element_of(Type::Int2) is None,
        element_of(Type::Int4) is None,
        element_of(Type::Text) is None,
        element_of(Type::Oid) is None,
        element_of(Type::Json) is None,
        element_of(Type::JsonArray) == Some(Type::Json) && oid_of(element_of(Type::JsonArray).unwrap()) == 114,
        element_of(Type::Cidr) is None,
        element_of(Type::Float4) is None,
        element_of(Type::Float8) is None,
        element_of(Type::Inet) is None,
        element_of(Type::BoolArray) == Some(Type::Bool) && oid_of(element_of(Type::BoolArray).unwrap()) == 16,
        element_of(Type::ByteAArray) == Some(Type::ByteA) && oid_of(element_of(Type::ByteAArray).unwrap()) == 17,
        element_of(Type::CharArray) == Some(Type::Char) && oid_of(element_of(Type::CharArray).unwrap()) == 18,
        element_of(Type::NameArray) == Some(Type::Name) && oid_of(element_of(Type::NameArray).unwrap()) == 19,
        element_of(Type::Int2Array) == Some(Type::Int2) && oid_of(element_of(Type::Int2Array).unwrap()) == 21,
        element_of(Type::Int4Array) == Some(Type::Int4) && oid_of(element_of(Type::Int4Array).unwrap()) == 23,
        element_of(Type::TextArray) == Some(Type::Text) && oid_of(element_of(Type::TextArray).unwrap()) == 25,
        element_of(Type::CharNArray) == Some(Type::CharN) && oid_of(element_of(Type::CharNArray).unwrap()) == 1042,
        element_of(Type::VarcharArray) == Some(Type::Varchar) && oid_of(element_of(Type::VarcharArray).unwrap()) == 1043,
        element_of(Type::Int8Array) == Some(Type::Int8) && oid_of(element_of(Type::Int8Array).unwrap()) == 20,
        element_of(Type::Float4Array) == Some(Type::Float4) && oid_of(element_of(Type::Float4Array).unwrap()) == 700,
        element_of(Type::Float8Array) == Some(Type::Float8) && oid_of(element_of(Type::Float8Array).unwrap()) == 701,
        element_of(Type::CharN) is None,
        element_of(Type::Varchar) is None,
        element_of(Type::Timestamp) is None,
        element_of(Type::TimestampArray) == Some(Type::Timestamp) && oid_of(element_of(Type::TimestampArray).unwrap()) == 1114,
        element_of(Type::TimestampTZ) is None,
        element_of(Type::TimestampTZArray) == Some(Type::TimestampTZ) && oid_of(element_of(Type::TimestampTZArray).unwrap()) == 1184,
        element_of(Type::Uuid) is None,
        element_of(Type::UuidArray) == Some(Type::Uuid) && oid_of(element_of(Type::UuidArray).unwrap()) == 2950,
        element_of(Type::Jsonb) is None,
        element_of(Type::JsonbArray) == Some(Type::Jsonb) && oid_of(element_of(Type::JsonbArray).unwrap()) == 3802,
        element_of(Type::Int4Range) == Some(Type::Int4) && oid_of(element_of(Type::Int4Range).unwrap()) == 23,
        element_of(Type::Int4RangeArray) == Some(Type::Int4Range) && oid_of(element_of(Type::Int4RangeArray).unwrap()) == 3904,
        element_of(Type::TsRange) == Some(Type::Timestamp) && oid_of(element_of(Type::TsRange).unwrap()) == 1114,
        element_of(Type::TsRangeArray) == Some(Type::TsRange) && oid_of(element_of(Type::TsRangeArray).unwrap()) == 3908,
        element_of(Type::TstzRange) == Some(Type::TimestampTZ) && oid_of(element_of(Type::TstzRange).unwrap()) == 1184,
        element_of(Type::TstzRangeArray) == Some(Type::TstzRange) && oid_of(element_of(Type::TstzRangeArray).unwrap()) == 3910,
        element_of(Type::Int8Range) == Some(Type::Int8) && oid_of(element_of(Type::Int8Range).unwrap()) == 20,
        element_of(Type::Int8RangeArray) == Some(Type::Int8Range) && oid_of(element_of(Type::Int8RangeArray).unwrap()) == 3926,
{
}

/// Reading an address looks only at the family, length and address bytes: the
/// prefix-bits byte and the CIDR flag do not change what is read.
pub proof fn law_inet_ignores_bits_and_cidr_flag(s: Seq<u8>, bits: u8, is_cidr: u8)
    requires
        s.len() >= 4,
    ensures
        parse_inet(s.update(1, bits).update(2, is_cidr)) == parse_inet(s),
{
    let t = s.update(1, bits).update(2, is_cidr);
    assert(t.skip(4) =~= s.skip(4));
}

/// An address is written with a header fixed by its family alone: IPv4 as
/// family 2, 32 prefix bits, not CIDR, 4 bytes; IPv6 as family 3, 128 prefix
/// bits, not CIDR, 16 bytes; then the address bytes in network order.
pub proof fn law_inet_header(a: IpAddr)
    ensures
        a is Ipv4Addr ==> inet_bytes(a).len() == 8 && inet_bytes(a).take(4) == seq![2u8, 32u8, 0u8, 4u8],
        a is Ipv6Addr ==> inet_bytes(a).len() == 20 && inet_bytes(a).take(4) == seq![3u8, 128u8, 0u8, 16u8],
        a matches IpAddr::Ipv4Addr(x, y, z, w) ==> inet_bytes(a).skip(4) == seq![x, y, z, w],
        a matches IpAddr::Ipv6Addr(g0, g1, g2, g3, g4, g5, g6, g7) ==> {
            let body = inet_bytes(a).skip(4);
            &&& body[0] as int * 256 + body[1] as int == g0
            &&& body[2] as int * 256 + body[3] as int == g1
            &&& body[4] as int * 256 + body[5] as int == g2
            &&& body[6] as int * 256 + body[7] as int == g3
            &&& body[8] as int * 256 + body[9] as int == g4
            &&& body[10] as int * 256 + body[11] as int == g5
            &&& body[12] as int * 256 + body[13] as int == g6
            &&& body[14] as int * 256 + body[15] as int == g7
        },
{
    lemma_parse_inet_bytes(a);
    match a {
        IpAddr::Ipv4Addr(x, y, z, w) => {
            assert(inet_bytes(a).take(4) =~= seq![2u8, 32u8, 0u8, 4u8]);
            assert(inet_bytes(a).skip(4) =~= seq![x, y, z, w]);
        },
        IpAddr::Ipv6Addr(g0, g1, g2, g3, g4, g5, g6, g7) => {
            assert(inet_bytes(a).take(4) =~= seq![3u8, 128u8, 0u8, 16u8]);
            let body = inet_bytes(a).skip(4);
            assert forall|i: int| 0 <= i < 8 implies #[trigger] group_at(body, i) as int == body[2 * i] as int * 256 + body[2 * i + 1] as int by {
                let p = body.subrange(2 * i, 2 * i + 2);
                assert(p.drop_last().drop_last().len() == 0);
                assert(p.last() == body[2 * i + 1]);
                assert(p.drop_last().last() == body[2 * i]);
                assert(be_value(p) == be_value(p.drop_last()) * 256 + p.last());
                assert(be_value(p.drop_last()) == be_value(p.drop_last().drop_last()) * 256 + p.drop_last().last());
            }
            assert(group_at(body, 0) == g0);
            assert(group_at(body, 1) == g1);
            assert(group_at(body, 2) == g2);
            assert(group_at(body, 3) == g3);
            assert(group_at(body, 4) == g4);
            assert(group_at(body, 5) == g5);
            assert(group_at(body, 6) == g6);
            assert(group_at(body, 7) == g7);
        },
    }
}

/// The nesting that bounds reading JSON is the true depth of the text's groups:
/// for any text built of plain bytes, quoted strings and bracketed or braced
/// groups, it is the most groups that enclose one place.
pub proof fn law_json_nesting(t: TextShape)
    requires
        shape_wf(t),
    ensures
        json_nesting(shape_text(t)) == shape_depth(t),
{
    lemma_nesting_of_shape(t);
}

/// Reading JSON returns the parsed document for every text that the parser
/// accepts, whose groups nest no deeper than the limit and which has no
/// exponent above `usize::MAX`; the `JSONB` version byte before it changes nothing.
pub proof fn law_json_reads_accepted(ty: Type, t: TextShape)
    requires
        accepts_json(ty),
        shape_wf(t),
        shape_depth(t) <= MAX_JSON_DEPTH,
        !json_exponent_overflow(shape_text(t)),
        json_accepts(shape_text(t)),
    ensures
        json_value(ty, json_prefix(ty) + shape_text(t)) == Ok::<Json, Error>(json_parsed(shape_text(t))),
{
    lemma_nesting_of_shape(t);
    law_json_framing(ty, shape_text(t));
}

} // verus!
