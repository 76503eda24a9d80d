//! Postgres data types and their OIDs.
use vstd::prelude::*;

verus! {

/// A Postgres OID
pub type Oid = u32;

// Values from pg_type.h
pub const BOOLOID: Oid = 16;
pub const BYTEAOID: Oid = 17;
pub const CHAROID: Oid = 18;
pub const NAMEOID: Oid = 19;
pub const INT8OID: Oid = 20;
pub const INT2OID: Oid = 21;
pub const INT4OID: Oid = 23;
pub const TEXTOID: Oid = 25;
pub const OIDOID: Oid = 26;
pub const JSONOID: Oid = 114;
pub const JSONARRAYOID: Oid = 199;
pub const CIDROID: Oid = 650;
pub const FLOAT4OID: Oid = 700;
pub const FLOAT8OID: Oid = 701;
pub const INETOID: Oid = 869;
pub const BOOLARRAYOID: Oid = 1000;
pub const BYTEAARRAYOID: Oid = 1001;
pub const CHARARRAYOID: Oid = 1002;
pub const NAMEARRAYOID: Oid = 1003;
pub const INT2ARRAYOID: Oid = 1005;
pub const INT4ARRAYOID: Oid = 1007;
pub const TEXTARRAYOID: Oid = 1009;
pub const BPCHARARRAYOID: Oid = 1014;
pub const VARCHARARRAYOID: Oid = 1015;
pub const INT8ARRAYOID: Oid = 1016;
pub const FLOAT4ARRAYOID: Oid = 1021;
pub const FLOAT8ARRAYOID: Oid = 1022;
pub const BPCHAROID: Oid = 1042;
pub const VARCHAROID: Oid = 1043;
pub const TIMESTAMPOID: Oid = 1114;
pub const TIMESTAMPARRAYOID: Oid = 1115;
pub const TIMESTAMPZOID: Oid = 1184;
pub const TIMESTAMPZARRAYOID: Oid = 1185;
pub const UUIDOID: Oid = 2950;
pub const UUIDARRAYOID: Oid = 2951;
pub const JSONBOID: Oid = 3802;
pub const JSONBARRAYOID: Oid = 3807;
pub const INT4RANGEOID: Oid = 3904;
pub const INT4RANGEARRAYOID: Oid = 3905;
pub const TSRANGEOID: Oid = 3908;
pub const TSRANGEARRAYOID: Oid = 3909;
pub const TSTZRANGEOID: Oid = 3910;
pub const TSTZRANGEARRAYOID: Oid = 3911;
pub const INT8RANGEOID: Oid = 3926;
pub const INT8RANGEARRAYOID: Oid = 3927;

/// A Postgres type
#[derive(Debug, PartialEq, Eq)]
pub enum Type {
    /// BOOL
    Bool,
    /// BYTEA
    ByteA,
    /// "char"
    Char,
    /// NAME
    Name,
    /// INT8/BIGINT
    Int8,
    /// INT2/SMALLINT
    Int2,
    /// INT4/INT
    Int4,
    /// TEXT
    Text,
    /// OID
    Oid,
    /// JSON
    Json,
    /// CIDR
    Cidr,
    /// JSON[]
    JsonArray,
    /// FLOAT4/REAL
    Float4,
    /// FLOAT8/DOUBLE PRECISION
    Float8,
    /// INET
    Inet,
    /// BOOL[]
    BoolArray,
    /// BYTEA[]
    ByteAArray,
    /// "char"[]
    CharArray,
    /// NAME[]
    NameArray,
    /// INT2[]
    Int2Array,
    /// INT4[]
    Int4Array,
    /// TEXT[]
    TextArray,
    /// CHAR(n)[]
    CharNArray,
    /// VARCHAR[]
    VarcharArray,
    /// INT8[]
    Int8Array,
    /// FLOAT4[]
    Float4Array,
    /// FLOAT8[]
    Float8Array,
    /// TIMESTAMP
    Timestamp,
    /// TIMESTAMP[]
    TimestampArray,
    /// TIMESTAMP WITH TIME ZONE
    TimestampTZ,
    /// TIMESTAMP WITH TIME ZONE[]
    TimestampTZArray,
    /// UUID
    Uuid,
    /// UUID[]
    UuidArray,
    /// JSONB
    Jsonb,
    /// JSONB[]
    JsonbArray,
    /// CHAR(n)/CHARACTER(n)
    CharN,
    /// VARCHAR/CHARACTER VARYING
    Varchar,
    /// INT4RANGE
    Int4Range,
    /// INT4RANGE[]
    Int4RangeArray,
    /// TSRANGE
    TsRange,
    /// TSRANGE[]
    TsRangeArray,
    /// TSTZRANGE
    TstzRange,
    /// TSTZRANGE[]
    TstzRangeArray,
    /// INT8RANGE
    Int8Range,
    /// INT8RANGE[]
    Int8RangeArray,
    /// An unknown type
    Unknown {
        /// The name of the type
        name: String,
        /// The OID of the type
        oid: Oid,
        /// If this type is an array or range, the type of its members
        element_type: Option<Box<Type>>,
    },
}

/// The types that this library knows by OID: every variant but `Unknown`.
pub open spec fn is_builtin(t: Type) -> bool {
    !(t is Unknown)
}

/// The OID of a type.
pub open spec fn oid_of(t: Type) -> Oid {
    match t {
        Type::Bool => BOOLOID,
        Type::ByteA => BYTEAOID,
        Type::Char => CHAROID,
        Type::Name => NAMEOID,
        Type::Int8 => INT8OID,
        Type::Int2 => INT2OID,
        Type::Int4 => INT4OID,
        Type::Text => TEXTOID,
        Type::Oid => OIDOID,
        Type::Json => JSONOID,
        Type::Cidr => CIDROID,
        Type::JsonArray => JSONARRAYOID,
        Type::Float4 => FLOAT4OID,
        Type::Float8 => FLOAT8OID,
        Type::Inet => INETOID,
        Type::BoolArray => BOOLARRAYOID,
        Type::ByteAArray => BYTEAARRAYOID,
        Type::CharArray => CHARARRAYOID,
        Type::NameArray => NAMEARRAYOID,
        Type::Int2Array => INT2ARRAYOID,
        Type::Int4Array => INT4ARRAYOID,
        Type::TextArray => TEXTARRAYOID,
        Type::CharNArray => BPCHARARRAYOID,
        Type::VarcharArray => VARCHARARRAYOID,
        Type::Int8Array => INT8ARRAYOID,
        Type::Float4Array => FLOAT4ARRAYOID,
        Type::Float8Array => FLOAT8ARRAYOID,
        Type::Timestamp => TIMESTAMPOID,
        Type::TimestampArray => TIMESTAMPARRAYOID,
        Type::TimestampTZ => TIMESTAMPZOID,
        Type::TimestampTZArray => TIMESTAMPZARRAYOID,
        Type::Uuid => UUIDOID,
        Type::UuidArray => UUIDARRAYOID,
        Type::Jsonb => JSONBOID,
        Type::JsonbArray => JSONBARRAYOID,
        Type::CharN => BPCHAROID,
        Type::Varchar => VARCHAROID,
        Type::Int4Range => INT4RANGEOID,
        Type::Int4RangeArray => INT4RANGEARRAYOID,
        Type::TsRange => TSRANGEOID,
        Type::TsRangeArray => TSRANGEARRAYOID,
        Type::TstzRange => TSTZRANGEOID,
        Type::TstzRangeArray => TSTZRANGEARRAYOID,
        Type::Int8Range => INT8RANGEOID,
        Type::Int8RangeArray => INT8RANGEARRAYOID,
        Type::Unknown { oid, .. } => oid,
    }
}

/// The built-in type that has the given OID, if there is one.
pub open spec fn type_for_oid(oid: Oid) -> Option<Type> {
    if exists|t: Type| is_builtin(t) && oid_of(t) == oid {
        Some(choose|t: Type| is_builtin(t) && oid_of(t) == oid)
    } else {
        None
    }
}

/// The type of the members of an array or range type.
pub open spec fn element_of(t: Type) -> Option<Type> {
    match t {
        Type::JsonArray => Some(Type::Json),
        Type::BoolArray => Some(Type::Bool),
        Type::ByteAArray => Some(Type::ByteA),
        Type::CharArray => Some(Type::Char),
        Type::NameArray => Some(Type::Name),
        Type::Int2Array => Some(Type::Int2),
        Type::Int4Array => Some(Type::Int4),
        Type::TextArray => Some(Type::Text),
        Type::CharNArray => Some(Type::CharN),
        Type::VarcharArray => Some(Type::Varchar),
        Type::Int8Array => Some(Type::Int8),
        Type::Float4Array => Some(Type::Float4),
        Type::Float8Array => Some(Type::Float8),
        Type::TimestampArray => Some(Type::Timestamp),
        Type::TimestampTZArray => Some(Type::TimestampTZ),
        Type::UuidArray => Some(Type::Uuid),
        Type::JsonbArray => Some(Type::Jsonb),
        Type::Int4Range => Some(Type::Int4),
        Type::Int4RangeArray => Some(Type::Int4Range),
        Type::TsRange => Some(Type::Timestamp),
        Type::TsRangeArray => Some(Type::TsRange),
        Type::TstzRange => Some(Type::TimestampTZ),
        Type::TstzRangeArray => Some(Type::TstzRange),
        Type::Int8Range => Some(Type::Int8),
        Type::Int8RangeArray => Some(Type::Int8Range),
        Type::Unknown { element_type: Some(e), .. } => Some(*e),
        _ => None,
    }
}

/// Two built-in types never share an OID.
pub proof fn lemma_builtin_oid_injective(t1: Type, t2: Type)
    requires
        is_builtin(t1),
        is_builtin(t2),
        oid_of(t1) == oid_of(t2),
    ensures
        t1 == t2,
{
}

/// Every built-in type is found again from its OID.
pub proof fn lemma_type_for_oid_of_builtin(t: Type)
    requires
        is_builtin(t),
    ensures
        type_for_oid(oid_of(t)) == Some(t),
{
    assert(is_builtin(t) && oid_of(t) == oid_of(t));
    let c = choose|c: Type| is_builtin(c) && oid_of(c) == oid_of(t);
    lemma_builtin_oid_injective(c, t);
}

/// Whatever type an OID names, its OID is that OID.
pub proof fn lemma_oid_of_type_for_oid(oid: Oid)
    ensures
        type_for_oid(oid) matches Some(t) ==> is_builtin(t) && oid_of(t) == oid,
{
}

impl Type {
    /// Creates a `Type` from an OID.
    ///
    /// If the OID is unknown, `None` is returned.
    pub fn from_oid(oid: Oid) -> (res: Option<Type>)
        ensures
            res == type_for_oid(oid),
    {
        let res = match oid {
            BOOLOID => Some(Type::Bool),
            BYTEAOID => Some(Type::ByteA),
            CHAROID => Some(Type::Char),
            NAMEOID => Some(Type::Name),
            INT8OID => Some(Type::Int8),
            INT2OID => Some(Type::Int2),
            INT4OID => Some(Type::Int4),
            TEXTOID => Some(Type::Text),
            OIDOID => Some(Type::Oid),
            JSONOID => Some(Type::Json),
            CIDROID => Some(Type::Cidr),
            JSONARRAYOID => Some(Type::JsonArray),
            FLOAT4OID => Some(Type::Float4),
            FLOAT8OID => Some(Type::Float8),
            INETOID => Some(Type::Inet),
            BOOLARRAYOID => Some(Type::BoolArray),
            BYTEAARRAYOID => Some(Type::ByteAArray),
            CHARARRAYOID => Some(Type::CharArray),
            NAMEARRAYOID => Some(Type::NameArray),
            INT2ARRAYOID => Some(Type::Int2Array),
            INT4ARRAYOID => Some(Type::Int4Array),
            TEXTARRAYOID => Some(Type::TextArray),
            BPCHARARRAYOID => Some(Type::CharNArray),
            VARCHARARRAYOID => Some(Type::VarcharArray),
            INT8ARRAYOID => Some(Type::Int8Array),
            FLOAT4ARRAYOID => Some(Type::Float4Array),
            FLOAT8ARRAYOID => Some(Type::Float8Array),
            TIMESTAMPOID => Some(Type::Timestamp),
            TIMESTAMPARRAYOID => Some(Type::TimestampArray),
            TIMESTAMPZOID => Some(Type::TimestampTZ),
            TIMESTAMPZARRAYOID => Some(Type::TimestampTZArray),
            UUIDOID => Some(Type::Uuid),
            UUIDARRAYOID => Some(Type::UuidArray),
            JSONBOID => Some(Type::Jsonb),
            JSONBARRAYOID => Some(Type::JsonbArray),
            BPCHAROID => Some(Type::CharN),
            VARCHAROID => Some(Type::Varchar),
            INT4RANGEOID => Some(Type::Int4Range),
            INT4RANGEARRAYOID => Some(Type::Int4RangeArray),
            TSRANGEOID => Some(Type::TsRange),
            TSRANGEARRAYOID => Some(Type::TsRangeArray),
            TSTZRANGEOID => Some(Type::TstzRange),
            TSTZRANGEARRAYOID => Some(Type::TstzRangeArray),
            INT8RANGEOID => Some(Type::Int8Range),
            INT8RANGEARRAYOID => Some(Type::Int8RangeArray),
            _ => None,
        };
        proof {
            if res is Some {
                lemma_type_for_oid_of_builtin(res->0);
            }
        }
        res
    }

    /// Returns the OID of the `Type`.
    pub fn to_oid(&self) -> (res: Oid)
        ensures
            res == oid_of(*self),
    {
        match self {
            Type::Bool => BOOLOID,
            Type::ByteA => BYTEAOID,
            Type::Char => CHAROID,
            Type::Name => NAMEOID,
            Type::Int8 => INT8OID,
            Type::Int2 => INT2OID,
            Type::Int4 => INT4OID,
            Type::Text => TEXTOID,
            Type::Oid => OIDOID,
            Type::Json => JSONOID,
            Type::Cidr => CIDROID,
            Type::JsonArray => JSONARRAYOID,
            Type::Float4 => FLOAT4OID,
            Type::Float8 => FLOAT8OID,
            Type::Inet => INETOID,
            Type::BoolArray => BOOLARRAYOID,
            Type::ByteAArray => BYTEAARRAYOID,
            Type::CharArray => CHARARRAYOID,
            Type::NameArray => NAMEARRAYOID,
            Type::Int2Array => INT2ARRAYOID,
            Type::Int4Array => INT4ARRAYOID,
            Type::TextArray => TEXTARRAYOID,
            Type::CharNArray => BPCHARARRAYOID,
            Type::VarcharArray => VARCHARARRAYOID,
            Type::Int8Array => INT8ARRAYOID,
            Type::Float4Array => FLOAT4ARRAYOID,
            Type::Float8Array => FLOAT8ARRAYOID,
            Type::Timestamp => TIMESTAMPOID,
            Type::TimestampArray => TIMESTAMPARRAYOID,
            Type::TimestampTZ => TIMESTAMPZOID,
            Type::TimestampTZArray => TIMESTAMPZARRAYOID,
            Type::Uuid => UUIDOID,
            Type::UuidArray => UUIDARRAYOID,
            Type::Jsonb => JSONBOID,
            Type::JsonbArray => JSONBARRAYOID,
            Type::CharN => BPCHAROID,
            Type::Varchar => VARCHAROID,
            Type::Int4Range => INT4RANGEOID,
            Type::Int4RangeArray => INT4RANGEARRAYOID,
            Type::TsRange => TSRANGEOID,
            Type::TsRangeArray => TSRANGEARRAYOID,
            Type::TstzRange => TSTZRANGEOID,
            Type::TstzRangeArray => TSTZRANGEARRAYOID,
            Type::Int8Range => INT8RANGEOID,
            Type::Int8RangeArray => INT8RANGEARRAYOID,
            Type::Unknown { oid, .. } => *oid,
        }
    }

    /// If this `Type` is an array or range, returns the type of its elements
    pub fn element_type(&self) -> (res: Option<Type>)
        ensures
            res == element_of(*self),
    {
        match self {
            Type::JsonArray => Some(Type::Json),
            Type::BoolArray => Some(Type::Bool),
            Type::ByteAArray => Some(Type::ByteA),
            Type::CharArray => Some(Type::Char),
            Type::NameArray => Some(Type::Name),
            Type::Int2Array => Some(Type::Int2),
            Type::Int4Array => Some(Type::Int4),
            Type::TextArray => Some(Type::Text),
            Type::CharNArray => Some(Type::CharN),
            Type::VarcharArray => Some(Type::Varchar),
            Type::Int8Array => Some(Type::Int8),
            Type::Float4Array => Some(Type::Float4),
            Type::Float8Array => Some(Type::Float8),
            Type::TimestampArray => Some(Type::Timestamp),
            Type::TimestampTZArray => Some(Type::TimestampTZ),
            Type::UuidArray => Some(Type::Uuid),
            Type::JsonbArray => Some(Type::Jsonb),
            Type::Int4Range => Some(Type::Int4),
            Type::Int4RangeArray => Some(Type::Int4Range),
            Type::TsRange => Some(Type::Timestamp),
            Type::TsRangeArray => Some(Type::TsRange),
            Type::TstzRange => Some(Type::TimestampTZ),
            Type::TstzRangeArray => Some(Type::TstzRange),
            Type::Int8Range => Some(Type::Int8),
            Type::Int8RangeArray => Some(Type::Int8Range),
            Type::Unknown { element_type: Some(t), .. } => Some((**t).clone()),
            _ => None,
        }
    }
}

impl Clone for Type {
    fn clone(&self) -> (res: Self)
        ensures
            res == *self,
        decreases self,
    {
        match self {
            Type::Unknown { name, oid, element_type } => {
                let element_type = match element_type {
                    Some(t) => Some(Box::new((**t).clone())),
                    None => None,
                };
                Type::Unknown { name: name.clone(), oid: *oid, element_type }
            },
            _ => {
                proof {
                    lemma_type_for_oid_of_builtin(*self);
                }
                match Type::from_oid(self.to_oid()) {
                    Some(t) => t,
                    None => Type::Bool,
                }
            },
        }
    }
}

} // verus!
