use vstd::prelude::*;

verus! {

/// Number of primitive types that every context provides up front.
pub const NUM_PRIMITIVES: usize = 33;

/// The primitive types known to the code generator, in the engine's
/// numbering (the value that `Type::from_const` takes).
#[derive(Clone, Copy, PartialEq, Eq, Structural, Debug)]
pub enum PrimitiveKind {
    Void,
    VoidPtr,
    Bool,
    Char,
    SignedChar,
    UnsignedChar,
    Short,
    UnsignedShort,
    Int,
    UnsignedInt,
    Long,
    UnsignedLong,
    LongLong,
    UnsignedLongLong,
    Float,
    Double,
    LongDouble,
    ConstCharPtr,
    SizeT,
    FilePtr,
    ComplexFloat,
    ComplexDouble,
    ComplexLongDouble,
    UInt8,
    UInt16,
    UInt32,
    UInt64,
    UInt128,
    Int8,
    Int16,
    Int32,
    Int64,
    Int128,
}

impl PrimitiveKind {
    /// Position of the kind in the engine's numbering.
    pub open spec fn spec_index(self) -> nat {
        match self {
            PrimitiveKind::Void => 0,
            PrimitiveKind::VoidPtr => 1,
            PrimitiveKind::Bool => 2,
            PrimitiveKind::Char => 3,
            PrimitiveKind::SignedChar => 4,
            PrimitiveKind::UnsignedChar => 5,
            PrimitiveKind::Short => 6,
            PrimitiveKind::UnsignedShort => 7,
            PrimitiveKind::Int => 8,
            PrimitiveKind::UnsignedInt => 9,
            PrimitiveKind::Long => 10,
            PrimitiveKind::UnsignedLong => 11,
            PrimitiveKind::LongLong => 12,
            PrimitiveKind::UnsignedLongLong => 13,
            PrimitiveKind::Float => 14,
            PrimitiveKind::Double => 15,
            PrimitiveKind::LongDouble => 16,
            PrimitiveKind::ConstCharPtr => 17,
            PrimitiveKind::SizeT => 18,
            PrimitiveKind::FilePtr => 19,
            PrimitiveKind::ComplexFloat => 20,
            PrimitiveKind::ComplexDouble => 21,
            PrimitiveKind::ComplexLongDouble => 22,
            PrimitiveKind::UInt8 => 23,
            PrimitiveKind::UInt16 => 24,
            PrimitiveKind::UInt32 => 25,
            PrimitiveKind::UInt64 => 26,
            PrimitiveKind::UInt128 => 27,
            PrimitiveKind::Int8 => 28,
            PrimitiveKind::Int16 => 29,
            PrimitiveKind::Int32 => 30,
            PrimitiveKind::Int64 => 31,
            PrimitiveKind::Int128 => 32,
        }
    }

    /// The C spelling of the type, which is also its debug string.
    pub open spec fn spec_name(self) -> Seq<char> {
        match self {
            PrimitiveKind::Void => "void"@,
            PrimitiveKind::VoidPtr => "void *"@,
            PrimitiveKind::Bool => "bool"@,
            PrimitiveKind::Char => "char"@,
            PrimitiveKind::SignedChar => "signed char"@,
            PrimitiveKind::UnsignedChar => "unsigned char"@,
            PrimitiveKind::Short => "short"@,
            PrimitiveKind::UnsignedShort => "unsigned short"@,
            PrimitiveKind::Int => "int"@,
            PrimitiveKind::UnsignedInt => "unsigned int"@,
            PrimitiveKind::Long => "long"@,
            PrimitiveKind::UnsignedLong => "unsigned long"@,
            PrimitiveKind::LongLong => "long long"@,
            PrimitiveKind::UnsignedLongLong => "unsigned long long"@,
            PrimitiveKind::Float => "float"@,
            PrimitiveKind::Double => "double"@,
            PrimitiveKind::LongDouble => "long double"@,
            PrimitiveKind::ConstCharPtr => "const char *"@,
            PrimitiveKind::SizeT => "size_t"@,
            PrimitiveKind::FilePtr => "FILE *"@,
            PrimitiveKind::ComplexFloat => "complex float"@,
            PrimitiveKind::ComplexDouble => "complex double"@,
            PrimitiveKind::ComplexLongDouble => "complex long double"@,
            PrimitiveKind::UInt8 => "__uint8_t"@,
            PrimitiveKind::UInt16 => "__uint16_t"@,
            PrimitiveKind::UInt32 => "__uint32_t"@,
            PrimitiveKind::UInt64 => "__uint64_t"@,
            PrimitiveKind::UInt128 => "__uint128_t"@,
            PrimitiveKind::Int8 => "__int8_t"@,
            PrimitiveKind::Int16 => "__int16_t"@,
            PrimitiveKind::Int32 => "__int32_t"@,
            PrimitiveKind::Int64 => "__int64_t"@,
            PrimitiveKind::Int128 => "__int128_t"@,
        }
    }

    pub fn index(self) -> (r: usize)
        ensures
            r == self.spec_index(),
            r < NUM_PRIMITIVES,
    {
        match self {
            PrimitiveKind::Void => 0,
            PrimitiveKind::VoidPtr => 1,
            PrimitiveKind::Bool => 2,
            PrimitiveKind::Char => 3,
            PrimitiveKind::SignedChar => 4,
            PrimitiveKind::UnsignedChar => 5,
            PrimitiveKind::Short => 6,
            PrimitiveKind::UnsignedShort => 7,
            PrimitiveKind::Int => 8,
            PrimitiveKind::UnsignedInt => 9,
            PrimitiveKind::Long => 10,
            PrimitiveKind::UnsignedLong => 11,
            PrimitiveKind::LongLong => 12,
            PrimitiveKind::UnsignedLongLong => 13,
            PrimitiveKind::Float => 14,
            PrimitiveKind::Double => 15,
            PrimitiveKind::LongDouble => 16,
            PrimitiveKind::ConstCharPtr => 17,
            PrimitiveKind::SizeT => 18,
            PrimitiveKind::FilePtr => 19,
            PrimitiveKind::ComplexFloat => 20,
            PrimitiveKind::ComplexDouble => 21,
            PrimitiveKind::ComplexLongDouble => 22,
            PrimitiveKind::UInt8 => 23,
            PrimitiveKind::UInt16 => 24,
            PrimitiveKind::UInt32 => 25,
            PrimitiveKind::UInt64 => 26,
            PrimitiveKind::UInt128 => 27,
            PrimitiveKind::Int8 => 28,
            PrimitiveKind::Int16 => 29,
            PrimitiveKind::Int32 => 30,
            PrimitiveKind::Int64 => 31,
            PrimitiveKind::Int128 => 32,
        }
    }

    /// The kind with the given number, if there is one.
    pub fn from_index(u: u32) -> (r: Option<PrimitiveKind>)
        ensures
            (u as int) < NUM_PRIMITIVES <==> r is Some,
            r matches Some(k) ==> k.spec_index() == u,
    {
        match u {
            0 => Some(PrimitiveKind::Void),
            1 => Some(PrimitiveKind::VoidPtr),
            2 => Some(PrimitiveKind::Bool),
            3 => Some(PrimitiveKind::Char),
            4 => Some(PrimitiveKind::SignedChar),
            5 => Some(PrimitiveKind::UnsignedChar),
            6 => Some(PrimitiveKind::Short),
            7 => Some(PrimitiveKind::UnsignedShort),
            8 => Some(PrimitiveKind::Int),
            9 => Some(PrimitiveKind::UnsignedInt),
            10 => Some(PrimitiveKind::Long),
            11 => Some(PrimitiveKind::UnsignedLong),
            12 => Some(PrimitiveKind::LongLong),
            13 => Some(PrimitiveKind::UnsignedLongLong),
            14 => Some(PrimitiveKind::Float),
            15 => Some(PrimitiveKind::Double),
            16 => Some(PrimitiveKind::LongDouble),
            17 => Some(PrimitiveKind::ConstCharPtr),
            18 => Some(PrimitiveKind::SizeT),
            19 => Some(PrimitiveKind::FilePtr),
            20 => Some(PrimitiveKind::ComplexFloat),
            21 => Some(PrimitiveKind::ComplexDouble),
            22 => Some(PrimitiveKind::ComplexLongDouble),
            23 => Some(PrimitiveKind::UInt8),
            24 => Some(PrimitiveKind::UInt16),
            25 => Some(PrimitiveKind::UInt32),
            26 => Some(PrimitiveKind::UInt64),
            27 => Some(PrimitiveKind::UInt128),
            28 => Some(PrimitiveKind::Int8),
            29 => Some(PrimitiveKind::Int16),
            30 => Some(PrimitiveKind::Int32),
            31 => Some(PrimitiveKind::Int64),
            32 => Some(PrimitiveKind::Int128),
            _ => None,
        }
    }

    pub fn name(self) -> (r: String)
        ensures
            r@ == self.spec_name(),
    {
        match self {
            PrimitiveKind::Void => "void".to_owned(),
            PrimitiveKind::VoidPtr => "void *".to_owned(),
            PrimitiveKind::Bool => "bool".to_owned(),
            PrimitiveKind::Char => "char".to_owned(),
            PrimitiveKind::SignedChar => "signed char".to_owned(),
            PrimitiveKind::UnsignedChar => "unsigned char".to_owned(),
            PrimitiveKind::Short => "short".to_owned(),
            PrimitiveKind::UnsignedShort => "unsigned short".to_owned(),
            PrimitiveKind::Int => "int".to_owned(),
            PrimitiveKind::UnsignedInt => "unsigned int".to_owned(),
            PrimitiveKind::Long => "long".to_owned(),
            PrimitiveKind::UnsignedLong => "unsigned long".to_owned(),
            PrimitiveKind::LongLong => "long long".to_owned(),
            PrimitiveKind::UnsignedLongLong => "unsigned long long".to_owned(),
            PrimitiveKind::Float => "float".to_owned(),
            PrimitiveKind::Double => "double".to_owned(),
            PrimitiveKind::LongDouble => "long double".to_owned(),
            PrimitiveKind::ConstCharPtr => "const char *".to_owned(),
            PrimitiveKind::SizeT => "size_t".to_owned(),
            PrimitiveKind::FilePtr => "FILE *".to_owned(),
            PrimitiveKind::ComplexFloat => "complex float".to_owned(),
            PrimitiveKind::ComplexDouble => "complex double".to_owned(),
            PrimitiveKind::ComplexLongDouble => "complex long double".to_owned(),
            PrimitiveKind::UInt8 => "__uint8_t".to_owned(),
            PrimitiveKind::UInt16 => "__uint16_t".to_owned(),
            PrimitiveKind::UInt32 => "__uint32_t".to_owned(),
            PrimitiveKind::UInt64 => "__uint64_t".to_owned(),
            PrimitiveKind::UInt128 => "__uint128_t".to_owned(),
            PrimitiveKind::Int8 => "__int8_t".to_owned(),
            PrimitiveKind::Int16 => "__int16_t".to_owned(),
            PrimitiveKind::Int32 => "__int32_t".to_owned(),
            PrimitiveKind::Int64 => "__int64_t".to_owned(),
            PrimitiveKind::Int128 => "__int128_t".to_owned(),
        }
    }
}

} // verus!
