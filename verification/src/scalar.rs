use vstd::prelude::*;

use crate::et_error::ExecuTorchError;
use crate::tensor::DataType;

verus! {

/// Element types of the ExecuTorch runtime.
#[allow(non_camel_case_types)]
#[derive(Clone, Copy, Debug, PartialEq, Eq, Structural, Hash)]
pub enum ScalarType {
    Byte,
    Char,
    Short,
    Int,
    Long,
    Half,
    Float,
    Double,
    ComplexHalf,
    ComplexFloat,
    ComplexDouble,
    Bool,
    QInt8,
    QUInt8,
    QInt32,
    BFloat16,
    QUInt4x2,
    QUInt2x4,
    Bits1x8,
    Bits2x4,
    Bits4x2,
    Bits8,
    Bits16,
    Float8_e5m2,
    Float8_e4m3fn,
    Float8_e5m2fnuz,
    Float8_e4m3fnuz,
    UInt16,
    UInt32,
    UInt64,
}

impl ScalarType {
    /// The variant's name, as its debug form prints it.
    pub open spec fn spec_name(self) -> Seq<char> {
        match self {
            ScalarType::Byte => "Byte"@,
            ScalarType::Char => "Char"@,
            ScalarType::Short => "Short"@,
            ScalarType::Int => "Int"@,
            ScalarType::Long => "Long"@,
            ScalarType::Half => "Half"@,
            ScalarType::Float => "Float"@,
            ScalarType::Double => "Double"@,
            ScalarType::ComplexHalf => "ComplexHalf"@,
            ScalarType::ComplexFloat => "ComplexFloat"@,
            ScalarType::ComplexDouble => "ComplexDouble"@,
            ScalarType::Bool => "Bool"@,
            ScalarType::QInt8 => "QInt8"@,
            ScalarType::QUInt8 => "QUInt8"@,
            ScalarType::QInt32 => "QInt32"@,
            ScalarType::BFloat16 => "BFloat16"@,
            ScalarType::QUInt4x2 => "QUInt4x2"@,
            ScalarType::QUInt2x4 => "QUInt2x4"@,
            ScalarType::Bits1x8 => "Bits1x8"@,
            ScalarType::Bits2x4 => "Bits2x4"@,
            ScalarType::Bits4x2 => "Bits4x2"@,
            ScalarType::Bits8 => "Bits8"@,
            ScalarType::Bits16 => "Bits16"@,
            ScalarType::Float8_e5m2 => "Float8_e5m2"@,
            ScalarType::Float8_e4m3fn => "Float8_e4m3fn"@,
            ScalarType::Float8_e5m2fnuz => "Float8_e5m2fnuz"@,
            ScalarType::Float8_e4m3fnuz => "Float8_e4m3fnuz"@,
            ScalarType::UInt16 => "UInt16"@,
            ScalarType::UInt32 => "UInt32"@,
            ScalarType::UInt64 => "UInt64"@,
        }
    }

    pub fn name(&self) -> (r: &str)
        ensures
            r@ == self.spec_name(),
    {
        match self {
            ScalarType::Byte => "Byte",
            ScalarType::Char => "Char",
            ScalarType::Short => "Short",
            ScalarType::Int => "Int",
            ScalarType::Long => "Long",
            ScalarType::Half => "Half",
            ScalarType::Float => "Float",
            ScalarType::Double => "Double",
            ScalarType::ComplexHalf => "ComplexHalf",
            ScalarType::ComplexFloat => "ComplexFloat",
            ScalarType::ComplexDouble => "ComplexDouble",
            ScalarType::Bool => "Bool",
            ScalarType::QInt8 => "QInt8",
            ScalarType::QUInt8 => "QUInt8",
            ScalarType::QInt32 => "QInt32",
            ScalarType::BFloat16 => "BFloat16",
            ScalarType::QUInt4x2 => "QUInt4x2",
            ScalarType::QUInt2x4 => "QUInt2x4",
            ScalarType::Bits1x8 => "Bits1x8",
            ScalarType::Bits2x4 => "Bits2x4",
            ScalarType::Bits4x2 => "Bits4x2",
            ScalarType::Bits8 => "Bits8",
            ScalarType::Bits16 => "Bits16",
            ScalarType::Float8_e5m2 => "Float8_e5m2",
            ScalarType::Float8_e4m3fn => "Float8_e4m3fn",
            ScalarType::Float8_e5m2fnuz => "Float8_e5m2fnuz",
            ScalarType::Float8_e4m3fnuz => "Float8_e4m3fnuz",
            ScalarType::UInt16 => "UInt16",
            ScalarType::UInt32 => "UInt32",
            ScalarType::UInt64 => "UInt64",
        }
    }
}

/// Bytes per element of a runtime element type.
pub open spec fn scalar_size(st: ScalarType) -> nat {
    match st {
        ScalarType::Byte => 1,
        ScalarType::Char => 1,
        ScalarType::Short => 2,
        ScalarType::Int => 4,
        ScalarType::Long => 8,
        ScalarType::Half => 2,
        ScalarType::Float => 4,
        ScalarType::Double => 8,
        ScalarType::ComplexHalf => 4,
        ScalarType::ComplexFloat => 8,
        ScalarType::ComplexDouble => 16,
        ScalarType::Bool => 1,
        ScalarType::QInt8 => 1,
        ScalarType::QUInt8 => 1,
        ScalarType::QInt32 => 4,
        ScalarType::BFloat16 => 2,
        ScalarType::QUInt4x2 => 1,
        ScalarType::QUInt2x4 => 1,
        ScalarType::Bits1x8 => 1,
        ScalarType::Bits2x4 => 1,
        ScalarType::Bits4x2 => 1,
        ScalarType::Bits8 => 1,
        ScalarType::Bits16 => 2,
        ScalarType::Float8_e5m2 => 1,
        ScalarType::Float8_e4m3fn => 1,
        ScalarType::Float8_e5m2fnuz => 1,
        ScalarType::Float8_e4m3fnuz => 1,
        ScalarType::UInt16 => 2,
        ScalarType::UInt32 => 4,
        ScalarType::UInt64 => 8,
    }
}

/// Whether a runtime element type holds floating-point values.
pub open spec fn scalar_is_float(st: ScalarType) -> bool {
    match st {
        ScalarType::Half | ScalarType::Float | ScalarType::Double | ScalarType::ComplexHalf | ScalarType::ComplexFloat | ScalarType::ComplexDouble | ScalarType::BFloat16 | ScalarType::Float8_e5m2 | ScalarType::Float8_e4m3fn | ScalarType::Float8_e5m2fnuz | ScalarType::Float8_e4m3fnuz => true,
        _ => false,
    }
}

/// Whether a runtime element type holds signed values.
pub open spec fn scalar_is_signed(st: ScalarType) -> bool {
    match st {
        ScalarType::Char | ScalarType::Short | ScalarType::Int | ScalarType::Long | ScalarType::QInt8 | ScalarType::QInt32 | ScalarType::Half | ScalarType::Float | ScalarType::Double | ScalarType::ComplexHalf | ScalarType::ComplexFloat | ScalarType::ComplexDouble | ScalarType::BFloat16 | ScalarType::Float8_e5m2 | ScalarType::Float8_e4m3fn | ScalarType::Float8_e5m2fnuz | ScalarType::Float8_e4m3fnuz => true,
        _ => false,
    }
}

/// Whether a runtime element type is a plain number: an integer, or an IEEE float of
/// 16, 32 or 64 bits (not quantized, packed, complex, boolean or a brain/8-bit float).
pub open spec fn scalar_is_plain(st: ScalarType) -> bool {
    match st {
        ScalarType::Byte | ScalarType::Char | ScalarType::Short | ScalarType::Int
        | ScalarType::Long | ScalarType::Half | ScalarType::Float | ScalarType::Double
        | ScalarType::UInt16 | ScalarType::UInt32 | ScalarType::UInt64 => true,
        _ => false,
    }
}

/// Whether a tensor element type holds floating-point values.
pub open spec fn data_is_float(dt: DataType) -> bool {
    dt == DataType::F16 || dt == DataType::F32 || dt == DataType::F64
}

/// Whether a tensor element type holds signed values (all but `U8`).
pub open spec fn data_is_signed(dt: DataType) -> bool {
    dt != DataType::U8
}

/// `st` is a plain number type of the same width, kind and signedness as `dt`.
pub open spec fn same_element(dt: DataType, st: ScalarType) -> bool {
    &&& scalar_is_plain(st)
    &&& scalar_size(st) == dt.spec_element_size()
    &&& scalar_is_float(st) == data_is_float(dt)
    &&& scalar_is_signed(st) == data_is_signed(dt)
}

/// The runtime element type of a tensor element type.
pub open spec fn scalar_of(dt: DataType) -> ScalarType {
    match dt {
        DataType::U8 => ScalarType::Byte,
        DataType::I8 => ScalarType::Char,
        DataType::I16 => ScalarType::Short,
        DataType::I32 => ScalarType::Int,
        DataType::I64 => ScalarType::Long,
        DataType::F16 => ScalarType::Half,
        DataType::F32 => ScalarType::Float,
        DataType::F64 => ScalarType::Double,
    }
}

/// The tensor element type of a runtime element type, where one exists.
pub open spec fn data_type_of(st: ScalarType) -> Option<DataType> {
    match st {
        ScalarType::Byte => Some(DataType::U8),
        ScalarType::Char => Some(DataType::I8),
        ScalarType::Short => Some(DataType::I16),
        ScalarType::Int => Some(DataType::I32),
        ScalarType::Long => Some(DataType::I64),
        ScalarType::Half => Some(DataType::F16),
        ScalarType::Float => Some(DataType::F32),
        ScalarType::Double => Some(DataType::F64),
        _ => None,
    }
}

/// Every tensor element type has a runtime element type.
pub fn data_type_to_scalar_type(dt: DataType) -> (r: Result<ScalarType, ExecuTorchError>)
    ensures
        r == Ok::<ScalarType, ExecuTorchError>(scalar_of(dt)),
        r matches Ok(st) ==> same_element(dt, st),
{
    match dt {
        DataType::U8 => Ok(ScalarType::Byte),
        DataType::I8 => Ok(ScalarType::Char),
        DataType::I16 => Ok(ScalarType::Short),
        DataType::I32 => Ok(ScalarType::Int),
        DataType::I64 => Ok(ScalarType::Long),
        DataType::F16 => Ok(ScalarType::Half),
        DataType::F32 => Ok(ScalarType::Float),
        DataType::F64 => Ok(ScalarType::Double),
    }
}

/// Maps a runtime element type back; types without a counterpart are an `Execution` error.
pub fn scalar_type_to_data_type(st: ScalarType) -> (r: Result<DataType, ExecuTorchError>)
    ensures
        data_type_of(st) matches Some(dt) ==> r == Ok::<DataType, ExecuTorchError>(dt),
        r matches Ok(dt) ==> same_element(dt, st),
        data_type_of(st) is None ==> (r matches Err(ExecuTorchError::Execution(m)) && m@
            == "Unsupported ExecuTorch ScalarType: "@ + st.spec_name()),
{
    match st {
        ScalarType::Byte => Ok(DataType::U8),
        ScalarType::Char => Ok(DataType::I8),
        ScalarType::Short => Ok(DataType::I16),
        ScalarType::Int => Ok(DataType::I32),
        ScalarType::Long => Ok(DataType::I64),
        ScalarType::Half => Ok(DataType::F16),
        ScalarType::Float => Ok(DataType::F32),
        ScalarType::Double => Ok(DataType::F64),
        other => Err(
            ExecuTorchError::Execution(
                crate::text::concat("Unsupported ExecuTorch ScalarType: ", other.name()),
            ),
        ),
    }
}

/// Converting an element type to the runtime's and back gives it back, and distinct
/// element types map to distinct runtime types.
pub proof fn lemma_scalar_roundtrip(dt: DataType, other: DataType)
    ensures
        data_type_of(scalar_of(dt)) == Some(dt),
        scalar_of(dt) == scalar_of(other) ==> dt == other,
{
}

/// Converting a runtime type that has a counterpart and back gives it back.
pub proof fn lemma_data_type_roundtrip(st: ScalarType)
    ensures
        data_type_of(st) matches Some(dt) ==> scalar_of(dt) == st,
{
}

/// Element types keep their meaning across the runtime boundary: every tensor element
/// type maps to a plain runtime number type of the same width, float-ness and
/// signedness (of which there is exactly one), and every runtime type that maps back
/// does so to such a type.
pub proof fn lemma_mapping_keeps_elements(dt: DataType, st: ScalarType)
    ensures
        same_element(dt, scalar_of(dt)),
        data_type_of(st) matches Some(back) ==> same_element(back, st),
        same_element(dt, st) ==> st == scalar_of(dt),
{
}

} // verus!
