//! Field type descriptors and their resolution to logical column types.

use vstd::prelude::*;

verus! {

/// A primitive Rust type that the resolver knows by name.
#[derive(Debug, Clone, Copy, PartialEq, Eq, Structural)]
pub enum PrimitiveKind {
    I8,
    I16,
    I32,
    I64,
    I128,
    ISize,
    U8,
    U16,
    U32,
    U64,
    U128,
    USize,
    F32,
    F64,
    Bool,
    OwnedString,
    Str,
    StrRef,
    NaiveDate,
    NaiveDateTime,
    NaiveTime,
    DateTimeUtc,
}

/// The declared type of a record field, decomposed into a base type and an
/// optional wrapper.
#[derive(Debug, PartialEq, Eq)]
pub enum TypeDescriptor {
    Primitive(PrimitiveKind),
    Optional(Box<TypeDescriptor>),
    Other,
}

/// The logical storage type of a column.
#[derive(Debug, Clone, PartialEq, Eq)]
pub enum LogicalType {
    Int8,
    Int16,
    Int32,
    Int64,
    UInt8,
    UInt16,
    UInt32,
    UInt64,
    Float32,
    Float64,
    Boolean,
    Text,
    Date,
    DateTimeMicros { timezone: Option<String> },
    Time,
}

/// Mathematical model of a `LogicalType`: time zones are character sequences.
pub enum LogicalTypeModel {
    Int8,
    Int16,
    Int32,
    Int64,
    UInt8,
    UInt16,
    UInt32,
    UInt64,
    Float32,
    Float64,
    Boolean,
    Text,
    Date,
    DateTimeMicros { timezone: Option<Seq<char>> },
    Time,
}

/// The character sequence of an optional time zone name.
pub open spec fn timezone_view(tz: Option<String>) -> Option<Seq<char>> {
    match tz {
        Some(s) => Some(s@),
        None => None,
    }
}

impl View for LogicalType {
    type V = LogicalTypeModel;

    open spec fn view(&self) -> LogicalTypeModel {
        match self {
            LogicalType::Int8 => LogicalTypeModel::Int8,
            LogicalType::Int16 => LogicalTypeModel::Int16,
            LogicalType::Int32 => LogicalTypeModel::Int32,
            LogicalType::Int64 => LogicalTypeModel::Int64,
            LogicalType::UInt8 => LogicalTypeModel::UInt8,
            LogicalType::UInt16 => LogicalTypeModel::UInt16,
            LogicalType::UInt32 => LogicalTypeModel::UInt32,
            LogicalType::UInt64 => LogicalTypeModel::UInt64,
            LogicalType::Float32 => LogicalTypeModel::Float32,
            LogicalType::Float64 => LogicalTypeModel::Float64,
            LogicalType::Boolean => LogicalTypeModel::Boolean,
            LogicalType::Text => LogicalTypeModel::Text,
            LogicalType::Date => LogicalTypeModel::Date,
            LogicalType::DateTimeMicros { timezone } => LogicalTypeModel::DateTimeMicros {
                timezone: timezone_view(*timezone),
            },
            LogicalType::Time => LogicalTypeModel::Time,
        }
    }
}

/// A descriptor on the primitive allow-list: a primitive, or a primitive
/// under exactly one optional wrapper.
pub open spec fn is_allow_listed(d: TypeDescriptor) -> bool {
    match d {
        TypeDescriptor::Primitive(_) => true,
        TypeDescriptor::Optional(inner) => *inner is Primitive,
        TypeDescriptor::Other => false,
    }
}

/// Everything off the allow-list is taken for a user-defined enumeration.
pub open spec fn is_enum_like(d: TypeDescriptor) -> bool {
    !is_allow_listed(d)
}

/// The logical type of each primitive; those without a column type of their
/// own (128-bit and pointer-sized integers, borrowed strings) fall back to
/// text.
pub open spec fn primitive_logical(k: PrimitiveKind) -> LogicalTypeModel {
    match k {
        PrimitiveKind::I8 => LogicalTypeModel::Int8,
        PrimitiveKind::I16 => LogicalTypeModel::Int16,
        PrimitiveKind::I32 => LogicalTypeModel::Int32,
        PrimitiveKind::I64 => LogicalTypeModel::Int64,
        PrimitiveKind::U8 => LogicalTypeModel::UInt8,
        PrimitiveKind::U16 => LogicalTypeModel::UInt16,
        PrimitiveKind::U32 => LogicalTypeModel::UInt32,
        PrimitiveKind::U64 => LogicalTypeModel::UInt64,
        PrimitiveKind::F32 => LogicalTypeModel::Float32,
        PrimitiveKind::F64 => LogicalTypeModel::Float64,
        PrimitiveKind::Bool => LogicalTypeModel::Boolean,
        PrimitiveKind::OwnedString => LogicalTypeModel::Text,
        PrimitiveKind::NaiveDate => LogicalTypeModel::Date,
        PrimitiveKind::NaiveDateTime => LogicalTypeModel::DateTimeMicros { timezone: None },
        PrimitiveKind::NaiveTime => LogicalTypeModel::Time,
        PrimitiveKind::DateTimeUtc => LogicalTypeModel::DateTimeMicros {
            timezone: Some("UTC"@),
        },
        _ => LogicalTypeModel::Text,
    }
}

/// The logical type that a field of descriptor `d` is stored as.
pub open spec fn logical_of(d: TypeDescriptor) -> LogicalTypeModel {
    match d {
        TypeDescriptor::Primitive(k) => primitive_logical(k),
        TypeDescriptor::Optional(inner) => match *inner {
            TypeDescriptor::Primitive(k) => primitive_logical(k),
            _ => LogicalTypeModel::Text,
        },
        TypeDescriptor::Other => LogicalTypeModel::Text,
    }
}

impl LogicalType {
    /// A copy of this type.
    pub fn duplicate(&self) -> (r: LogicalType)
        ensures
            r@ == self@,
    {
        match self {
            LogicalType::Int8 => LogicalType::Int8,
            LogicalType::Int16 => LogicalType::Int16,
            LogicalType::Int32 => LogicalType::Int32,
            LogicalType::Int64 => LogicalType::Int64,
            LogicalType::UInt8 => LogicalType::UInt8,
            LogicalType::UInt16 => LogicalType::UInt16,
            LogicalType::UInt32 => LogicalType::UInt32,
            LogicalType::UInt64 => LogicalType::UInt64,
            LogicalType::Float32 => LogicalType::Float32,
            LogicalType::Float64 => LogicalType::Float64,
            LogicalType::Boolean => LogicalType::Boolean,
            LogicalType::Text => LogicalType::Text,
            LogicalType::Date => LogicalType::Date,
            LogicalType::DateTimeMicros { timezone } => {
                let tz = match timezone {
                    Some(s) => Some(s.clone()),
                    None => None,
                };
                LogicalType::DateTimeMicros { timezone: tz }
            },
            LogicalType::Time => LogicalType::Time,
        }
    }

    /// Structural equality of two logical types.
    pub fn same_as(&self, other: &LogicalType) -> (r: bool)
        ensures
            r == (self@ == other@),
    {
        match self {
            LogicalType::Int8 => match other {
                LogicalType::Int8 => true,
                _ => false,
            },
            LogicalType::Int16 => match other {
                LogicalType::Int16 => true,
                _ => false,
            },
            LogicalType::Int32 => match other {
                LogicalType::Int32 => true,
                _ => false,
            },
            LogicalType::Int64 => match other {
                LogicalType::Int64 => true,
                _ => false,
            },
            LogicalType::UInt8 => match other {
                LogicalType::UInt8 => true,
                _ => false,
            },
            LogicalType::UInt16 => match other {
                LogicalType::UInt16 => true,
                _ => false,
            },
            LogicalType::UInt32 => match other {
                LogicalType::UInt32 => true,
                _ => false,
            },
            LogicalType::UInt64 => match other {
                LogicalType::UInt64 => true,
                _ => false,
            },
            LogicalType::Float32 => match other {
                LogicalType::Float32 => true,
                _ => false,
            },
            LogicalType::Float64 => match other {
                LogicalType::Float64 => true,
                _ => false,
            },
            LogicalType::Boolean => match other {
                LogicalType::Boolean => true,
                _ => false,
            },
            LogicalType::Text => match other {
                LogicalType::Text => true,
                _ => false,
            },
            LogicalType::Date => match other {
                LogicalType::Date => true,
                _ => false,
            },
            LogicalType::Time => match other {
                LogicalType::Time => true,
                _ => false,
            },
            LogicalType::DateTimeMicros { timezone: a } => match other {
                LogicalType::DateTimeMicros { timezone: b } => match (a, b) {
                    (None, None) => true,
                    (Some(x), Some(y)) => x.eq(y),
                    _ => false,
                },
                _ => false,
            },
        }
    }
}

/// The logical type of a primitive.
pub fn primitive_type(k: PrimitiveKind) -> (r: LogicalType)
    ensures
        r@ == primitive_logical(k),
{
    match k {
        PrimitiveKind::I8 => LogicalType::Int8,
        PrimitiveKind::I16 => LogicalType::Int16,
        PrimitiveKind::I32 => LogicalType::Int32,
        PrimitiveKind::I64 => LogicalType::Int64,
        PrimitiveKind::U8 => LogicalType::UInt8,
        PrimitiveKind::U16 => LogicalType::UInt16,
        PrimitiveKind::U32 => LogicalType::UInt32,
        PrimitiveKind::U64 => LogicalType::UInt64,
        PrimitiveKind::F32 => LogicalType::Float32,
        PrimitiveKind::F64 => LogicalType::Float64,
        PrimitiveKind::Bool => LogicalType::Boolean,
        PrimitiveKind::OwnedString => LogicalType::Text,
        PrimitiveKind::NaiveDate => LogicalType::Date,
        PrimitiveKind::NaiveDateTime => LogicalType::DateTimeMicros { timezone: None },
        PrimitiveKind::NaiveTime => LogicalType::Time,
        PrimitiveKind::DateTimeUtc => LogicalType::DateTimeMicros {
            timezone: Some(String::from_str("UTC")),
        },
        _ => LogicalType::Text,
    }
}

/// Whether a descriptor is taken for a user-defined enumeration, decided on
/// the whole descriptor, optional wrapper included.
pub fn enum_like(d: &TypeDescriptor) -> (r: bool)
    ensures
        r == is_enum_like(*d),
{
    match d {
        TypeDescriptor::Primitive(_) => false,
        TypeDescriptor::Optional(inner) => match &**inner {
            TypeDescriptor::Primitive(_) => false,
            _ => true,
        },
        TypeDescriptor::Other => true,
    }
}

/// Resolves a field's declared type to its logical column type. Enum-like
/// descriptors resolve to text; a primitive under one optional wrapper
/// resolves as the primitive itself. Every descriptor resolves.
pub fn resolve(d: &TypeDescriptor) -> (r: LogicalType)
    ensures
        r@ == logical_of(*d),
        is_enum_like(*d) ==> r@ == LogicalTypeModel::Text,
{
    if enum_like(d) {
        return LogicalType::Text;
    }
    match d {
        TypeDescriptor::Primitive(k) => primitive_type(*k),
        TypeDescriptor::Optional(inner) => match &**inner {
            TypeDescriptor::Primitive(k) => primitive_type(*k),
            _ => LogicalType::Text,
        },
        TypeDescriptor::Other => LogicalType::Text,
    }
}

/// Wrapping a primitive in one optional layer does not change its logical
/// type.
pub proof fn lemma_optional_primitive_fixpoint(k: PrimitiveKind)
    ensures
        logical_of(TypeDescriptor::Primitive(k)) == logical_of(
            TypeDescriptor::Optional(Box::new(TypeDescriptor::Primitive(k))),
        ),
{
}

/// A descriptor off the allow-list resolves to text, and so does an optional
/// wrapped around it.
pub proof fn lemma_enum_fallback(e: TypeDescriptor)
    requires
        is_enum_like(e),
    ensures
        logical_of(e) == LogicalTypeModel::Text,
        is_enum_like(TypeDescriptor::Optional(Box::new(e))),
        logical_of(TypeDescriptor::Optional(Box::new(e))) == LogicalTypeModel::Text,
{
}

} // verus!
