use vstd::prelude::*;
use vstd::layout::size_of;

use crate::device::{Cpu, Device};
use crate::error::CoreError;
use crate::text::{decimal, with_number};

verus! {

/// Element type of a tensor.
#[derive(Clone, Copy, Debug, PartialEq, Eq, Structural, Hash)]
pub enum DataType {
    U8,
    I8,
    I16,
    I32,
    I64,
    F16,
    F32,
    F64,
}

impl DataType {
    /// Size in bytes of one element of this type.
    pub open spec fn spec_element_size(self) -> nat {
        match self {
            DataType::U8 | DataType::I8 => 1,
            DataType::I16 | DataType::F16 => 2,
            DataType::I32 | DataType::F32 => 4,
            DataType::I64 | DataType::F64 => 8,
        }
    }

    /// The variant's name, as its debug form prints it.
    pub open spec fn spec_name(self) -> Seq<char> {
        match self {
            DataType::U8 => "U8"@,
            DataType::I8 => "I8"@,
            DataType::I16 => "I16"@,
            DataType::I32 => "I32"@,
            DataType::I64 => "I64"@,
            DataType::F16 => "F16"@,
            DataType::F32 => "F32"@,
            DataType::F64 => "F64"@,
        }
    }

    pub fn name(&self) -> (r: &str)
        ensures
            r@ == self.spec_name(),
    {
        match self {
            DataType::U8 => "U8",
            DataType::I8 => "I8",
            DataType::I16 => "I16",
            DataType::I32 => "I32",
            DataType::I64 => "I64",
            DataType::F16 => "F16",
            DataType::F32 => "F32",
            DataType::F64 => "F64",
        }
    }

    pub fn element_size(&self) -> (r: usize)
        ensures
            r == self.spec_element_size(),
    {
        match self {
            DataType::U8 | DataType::I8 => 1,
            DataType::I16 | DataType::F16 => 2,
            DataType::I32 | DataType::F32 => 4,
            DataType::I64 | DataType::F64 => 8,
        }
    }
}

/// Each element type takes as many bytes as its width: the integer types exactly the
/// size of the Rust integer of the same width and signedness, and each float type as
/// many as the integer type of its width (16, 32 or 64 bits).
pub proof fn lemma_element_sizes_are_widths()
    ensures
        DataType::U8.spec_element_size() == size_of::<u8>(),
        DataType::I8.spec_element_size() == size_of::<i8>(),
        DataType::I16.spec_element_size() == size_of::<i16>(),
        DataType::I32.spec_element_size() == size_of::<i32>(),
        DataType::I64.spec_element_size() == size_of::<i64>(),
        DataType::F16.spec_element_size() == size_of::<u16>(),
        DataType::F32.spec_element_size() == size_of::<u32>(),
        DataType::F64.spec_element_size() == size_of::<u64>(),
{
    broadcast use vstd::layout::layout_of_primitives;

}

/// Product of all dimensions, as a mathematical integer.
pub open spec fn dims_product(dims: Seq<usize>) -> nat
    decreases dims.len(),
{
    if dims.len() == 0 {
        1
    } else {
        dims_product(dims.drop_last()) * (dims.last() as nat)
    }
}

/// `x` clamped to the range of `usize`.
pub open spec fn saturate(x: nat) -> nat {
    if x > usize::MAX {
        usize::MAX as nat
    } else {
        x
    }
}

/// Bytes taken by `dtype` elements of shape `dims`, saturating at `usize::MAX`.
pub open spec fn byte_size_of(dims: Seq<usize>, dtype: DataType) -> nat {
    saturate(dims_product(dims) * dtype.spec_element_size())
}

/// A shape is valid when it has at least one dimension and no dimension is zero.
pub open spec fn valid_dims(dims: Seq<usize>) -> bool {
    &&& dims.len() > 0
    &&& forall|i: int| 0 <= i < dims.len() ==> #[trigger] dims[i] != 0
}

/// `i` is the position of the first zero in `dims`.
pub open spec fn first_zero(dims: Seq<usize>, i: int) -> bool {
    &&& 0 <= i < dims.len()
    &&& dims[i] == 0
    &&& forall|j: int| 0 <= j < i ==> #[trigger] dims[j] != 0
}

/// Message of the error for a zero dimension at index `i`.
pub open spec fn zero_dim_message(i: nat) -> Seq<char> {
    "Dimension at index "@ + decimal(i) + " cannot be 0"@
}

/// Message of the error for bytes whose length differs from the shape's byte size.
pub open spec fn size_mismatch_message(expected: nat, actual: nat) -> Seq<char> {
    "Byte size mismatch: shape requires "@ + decimal(expected) + " bytes, got "@ + decimal(actual)
}

/// Saturating multiplication clamps at every step exactly as it would clamp once at the end.
proof fn lemma_saturate_mul(p: nat, d: nat)
    ensures
        saturate(saturate(p) * d) == saturate(p * d),
{
    if p > usize::MAX && d > 0 {
        assert(p * d >= p) by (nonlinear_arith)
            requires
                d > 0,
        ;
        assert((usize::MAX as nat) * d >= usize::MAX as nat) by (nonlinear_arith)
            requires
                d > 0,
        ;
    }
}

/// Dimensions of a tensor. Always non-empty with every dimension positive.
#[derive(Debug, PartialEq, Eq, Hash)]
pub struct TensorShape {
    dims: Vec<usize>,
}

impl Clone for TensorShape {
    fn clone(&self) -> (r: Self)
        ensures
            r@ == self@,
    {
        proof {
            use_type_invariant(self);
        }
        let dims = self.dims.clone();
        assert(dims@ =~= self.dims@);
        TensorShape { dims }
    }
}

impl View for TensorShape {
    type V = Seq<usize>;

    closed spec fn view(&self) -> Seq<usize> {
        self.dims@
    }
}

impl TensorShape {
    #[verifier::type_invariant]
    spec fn inv(&self) -> bool {
        valid_dims(self.dims@)
    }

    /// Every shape value satisfies what [`TensorShape::new`] checks.
    pub fn check_valid(&self)
        ensures
            valid_dims(self@),
    {
        proof {
            use_type_invariant(self);
        }
    }

    /// Whether two shapes have the same dimensions.
    pub fn same_dims(&self, other: &TensorShape) -> (r: bool)
        ensures
            r == (self@ == other@),
    {
        let n = self.dims.len();
        if n != other.dims.len() {
            return false;
        }
        for i in 0..n
            invariant
                n == self@.len(),
                n == other@.len(),
                forall|j: int| 0 <= j < i ==> self@[j] == other@[j],
        {
            if self.dims[i] != other.dims[i] {
                return false;
            }
        }
        assert(self@ =~= other@);
        true
    }

    pub open spec fn spec_element_count(&self) -> nat {
        saturate(dims_product(self@))
    }

    pub open spec fn spec_byte_size(&self, dtype: DataType) -> nat {
        byte_size_of(self@, dtype)
    }

    /// Builds a shape, rejecting an empty dimension list and any zero dimension; the
    /// error names the first zero dimension.
    pub fn new(dims: Vec<usize>) -> (r: Result<TensorShape, CoreError>)
        ensures
            r is Ok <==> valid_dims(dims@),
            r matches Ok(s) ==> s@ == dims@,
            r matches Err(e) ==> e is InvalidShape,
            dims@.len() == 0 ==> (r matches Err(CoreError::InvalidShape(m))
                && m@ == "Dimensions cannot be empty"@),
            forall|i: int|
                #![trigger first_zero(dims@, i)]
                dims@.len() > 0 && first_zero(dims@, i) ==> (r matches Err(
                    CoreError::InvalidShape(m),
                ) && m@ == zero_dim_message(i as nat)),
    {
        if dims.len() == 0 {
            return Err(CoreError::InvalidShape("Dimensions cannot be empty".to_string()));
        }
        let n = dims.len();
        for i in 0..n
            invariant
                n == dims@.len(),
                forall|j: int| 0 <= j < i ==> #[trigger] dims@[j] != 0,
        {
            if dims[i] == 0 {
                let mut m = with_number("Dimension at index ", i as u64);
                m.append(" cannot be 0");
                proof {
                    assert forall|k: int| #[trigger] first_zero(dims@, k) implies k == i by {
                        if k < i {
                        } else if k > i {
                            assert(dims@[i as int] != 0);
                        }
                    }
                }
                return Err(CoreError::InvalidShape(m));
            }
        }
        Ok(TensorShape { dims })
    }

    pub fn dims(&self) -> (r: &[usize])
        ensures
            r@ == self@,
    {
        self.dims.as_slice()
    }

    pub fn rank(&self) -> (r: usize)
        ensures
            r == self@.len(),
    {
        self.dims.len()
    }

    /// Number of elements: the product of the dimensions, saturating at `usize::MAX`.
    pub fn element_count(&self) -> (r: usize)
        ensures
            r == self.spec_element_count(),
    {
        let n = self.dims.len();
        let mut acc: usize = 1;
        for i in 0..n
            invariant
                n == self@.len(),
                acc == saturate(dims_product(self@.take(i as int))),
        {
            let d = self.dims[i];
            proof {
                assert(self@.take(i + 1).drop_last() == self@.take(i as int));
                lemma_saturate_mul(dims_product(self@.take(i as int)), d as nat);
            }
            acc = match acc.checked_mul(d) {
                Some(v) => v,
                None => usize::MAX,
            };
        }
        proof {
            assert(self@.take(n as int) == self@);
        }
        acc
    }

    /// Number of bytes for `dtype` elements of this shape, saturating at `usize::MAX`.
    pub fn byte_size(&self, dtype: DataType) -> (r: usize)
        ensures
            r == self.spec_byte_size(dtype),
    {
        let count = self.element_count();
        let size = dtype.element_size();
        proof {
            lemma_saturate_mul(dims_product(self@), dtype.spec_element_size());
        }
        match count.checked_mul(size) {
            Some(v) => v,
            None => usize::MAX,
        }
    }
}

impl vstd::std_specs::convert::TryFromSpecImpl<Vec<usize>> for TensorShape {
    open spec fn obeys_try_from_spec() -> bool {
        false
    }

    open spec fn try_from_spec(v: Vec<usize>) -> Result<Self, Self::Error> {
        arbitrary()
    }
}

impl TryFrom<Vec<usize>> for TensorShape {
    type Error = CoreError;

    fn try_from(dims: Vec<usize>) -> (r: Result<TensorShape, CoreError>)
        ensures
            r is Ok <==> valid_dims(dims@),
            r matches Ok(s) ==> s@ == dims@,
            r matches Err(e) ==> e is InvalidShape,
    {
        TensorShape::new(dims)
    }
}

/// Owned host tensor payload: dtype-tagged bytes whose length always matches the
/// shape's byte size.
#[derive(Debug)]
pub struct HostTensor {
    shape: TensorShape,
    dtype: DataType,
    bytes: Vec<u8>,
}

impl Clone for HostTensor {
    fn clone(&self) -> (r: Self)
        ensures
            r.spec_shape() == self.spec_shape(),
            r.spec_dtype() == self.spec_dtype(),
            r.spec_bytes() == self.spec_bytes(),
    {
        proof {
            use_type_invariant(self);
        }
        let bytes = self.bytes.clone();
        assert(bytes@ =~= self.bytes@);
        HostTensor { shape: self.shape.clone(), dtype: self.dtype, bytes }
    }
}

impl HostTensor {
    #[verifier::type_invariant]
    spec fn inv(&self) -> bool {
        self.bytes@.len() == self.shape.spec_byte_size(self.dtype)
    }

    pub closed spec fn spec_shape(&self) -> Seq<usize> {
        self.shape@
    }

    pub closed spec fn spec_dtype(&self) -> DataType {
        self.dtype
    }

    pub closed spec fn spec_bytes(&self) -> Seq<u8> {
        self.bytes@
    }

    /// The shape itself (its view is [`HostTensor::spec_shape`]).
    pub closed spec fn spec_shape_value(&self) -> TensorShape {
        self.shape
    }

    /// Wraps `bytes` as a tensor of `shape` and `dtype`; their length must equal the
    /// shape's byte size.
    pub fn new(shape: TensorShape, dtype: DataType, bytes: Vec<u8>) -> (r: Result<
        HostTensor,
        CoreError,
    >)
        ensures
            r is Ok <==> bytes@.len() == shape.spec_byte_size(dtype),
            r matches Ok(t) ==> t.spec_shape() == shape@ && t.spec_dtype() == dtype
                && t.spec_bytes() == bytes@,
            r is Err ==> (r matches Err(CoreError::InvalidShape(m)) && m@ == size_mismatch_message(
                shape.spec_byte_size(dtype),
                bytes@.len(),
            )),
    {
        let expected = shape.byte_size(dtype);
        if bytes.len() != expected {
            let mut m = with_number("Byte size mismatch: shape requires ", expected as u64);
            let tail = with_number(" bytes, got ", bytes.len() as u64);
            m.append(tail.as_str());
            return Err(CoreError::InvalidShape(m));
        }
        Ok(HostTensor { shape, dtype, bytes })
    }

    /// A `U8` tensor holding `data`.
    pub fn from_u8(shape: TensorShape, data: Vec<u8>) -> (r: Result<HostTensor, CoreError>)
        ensures
            r is Ok <==> data@.len() == shape.spec_byte_size(DataType::U8),
            r matches Ok(t) ==> t.spec_shape() == shape@ && t.spec_dtype() == DataType::U8
                && t.spec_bytes() == data@,
            r matches Err(e) ==> e is InvalidShape,
    {
        HostTensor::new(shape, DataType::U8, data)
    }

    /// An `I32` tensor holding the bytes of `data` in the machine's byte order.
    pub fn from_i32(shape: TensorShape, data: Vec<i32>) -> (r: Result<HostTensor, CoreError>)
        ensures
            r is Ok <==> 4 * data@.len() == shape.spec_byte_size(DataType::I32),
            r matches Ok(t) ==> t.spec_shape() == shape@ && t.spec_dtype() == DataType::I32
                && t.spec_bytes().len() == 4 * data@.len(),
            r matches Err(e) ==> e is InvalidShape,
    {
        broadcast use vstd::layout::layout_of_primitives;

        let bytes = match crate::bytes::vec_to_bytes(data.as_slice()) {
            Ok(b) => b,
            Err(e) => return Err(e),
        };
        HostTensor::new(shape, DataType::I32, bytes)
    }

    /// An `I64` tensor holding the bytes of `data` in the machine's byte order.
    pub fn from_i64(shape: TensorShape, data: Vec<i64>) -> (r: Result<HostTensor, CoreError>)
        ensures
            r is Ok <==> 8 * data@.len() == shape.spec_byte_size(DataType::I64),
            r matches Ok(t) ==> t.spec_shape() == shape@ && t.spec_dtype() == DataType::I64
                && t.spec_bytes().len() == 8 * data@.len(),
            r matches Err(e) ==> e is InvalidShape,
    {
        broadcast use vstd::layout::layout_of_primitives;

        let bytes = match crate::bytes::vec_to_bytes(data.as_slice()) {
            Ok(b) => b,
            Err(e) => return Err(e),
        };
        HostTensor::new(shape, DataType::I64, bytes)
    }

    pub fn shape(&self) -> (r: &TensorShape)
        ensures
            r@ == self.spec_shape(),
            *r == self.spec_shape_value(),
    {
        &self.shape
    }

    pub fn dtype(&self) -> (r: DataType)
        ensures
            r == self.spec_dtype(),
    {
        self.dtype
    }

    pub fn as_bytes(&self) -> (r: &[u8])
        ensures
            r@ == self.spec_bytes(),
    {
        self.bytes.as_slice()
    }

    /// The bytes, provided the tensor's type is `U8`.
    pub fn as_slice_u8(&self) -> (r: Result<&[u8], CoreError>)
        ensures
            r is Ok <==> self.spec_dtype() == DataType::U8,
            r matches Ok(s) ==> s@ == self.spec_bytes(),
            r matches Err(e) ==> e == (CoreError::InvalidDataType {
                expected: DataType::U8,
                actual: self.spec_dtype(),
            }),
    {
        if self.dtype != DataType::U8 {
            return Err(CoreError::InvalidDataType { expected: DataType::U8, actual: self.dtype });
        }
        Ok(self.bytes.as_slice())
    }

    /// The elements as `i32`, provided the tensor's type is `I32`; the cast can also
    /// fail when the bytes are not 4-byte aligned in memory.
    pub fn as_slice_i32(&self) -> (r: Result<&[i32], CoreError>)
        ensures
            self.spec_dtype() != DataType::I32 ==> (r matches Err(e) && e == (
            CoreError::InvalidDataType { expected: DataType::I32, actual: self.spec_dtype() })),
            r matches Ok(s) ==> self.spec_dtype() == DataType::I32 && 4 * s@.len()
                == self.spec_bytes().len(),
            r matches Err(e) ==> e is InvalidDataType || e is BufferTransferFailed || (
            e is InvalidArgument && self.spec_bytes().len() % 4 != 0),
            r matches Err(CoreError::InvalidDataType { .. }) ==> self.spec_dtype() != DataType::I32,
            r matches Err(CoreError::BufferTransferFailed(_)) ==> self.spec_dtype() == DataType::I32
                && self.spec_bytes().len() % 4 == 0,
    {
        broadcast use vstd::layout::layout_of_primitives;

        if self.dtype != DataType::I32 {
            return Err(CoreError::InvalidDataType { expected: DataType::I32, actual: self.dtype });
        }
        crate::bytes::cast_bytes::<i32>(self.bytes.as_slice())
    }

    /// The elements as `i64`, provided the tensor's type is `I64`; the cast can also
    /// fail when the bytes are not 8-byte aligned in memory.
    pub fn as_slice_i64(&self) -> (r: Result<&[i64], CoreError>)
        ensures
            self.spec_dtype() != DataType::I64 ==> (r matches Err(e) && e == (
            CoreError::InvalidDataType { expected: DataType::I64, actual: self.spec_dtype() })),
            r matches Ok(s) ==> self.spec_dtype() == DataType::I64 && 8 * s@.len()
                == self.spec_bytes().len(),
            r matches Err(e) ==> e is InvalidDataType || e is BufferTransferFailed || (
            e is InvalidArgument && self.spec_bytes().len() % 8 != 0),
            r matches Err(CoreError::InvalidDataType { .. }) ==> self.spec_dtype() != DataType::I64,
            r matches Err(CoreError::BufferTransferFailed(_)) ==> self.spec_dtype() == DataType::I64
                && self.spec_bytes().len() % 8 == 0,
    {
        broadcast use vstd::layout::layout_of_primitives;

        if self.dtype != DataType::I64 {
            return Err(CoreError::InvalidDataType { expected: DataType::I64, actual: self.dtype });
        }
        crate::bytes::cast_bytes::<i64>(self.bytes.as_slice())
    }
}

impl HostTensor {
    /// Copies the `len` bytes starting at `offset`; the range must lie inside the tensor.
    pub fn copy_bytes_range(&self, offset: usize, len: usize) -> (r: Result<Vec<u8>, CoreError>)
        ensures
            r is Ok <==> offset + len <= self.spec_bytes().len(),
            r matches Ok(v) ==> v@ == self.spec_bytes().subrange(offset as int, offset + len),
            r matches Err(e) ==> e is InvalidArgument,
    {
        let total = self.bytes.len();
        if offset > total || len > total - offset {
            return Err(
                CoreError::InvalidArgument("Byte range lies outside the tensor".to_string()),
            );
        }
        let part = vstd::slice::slice_subrange(self.bytes.as_slice(), offset, offset + len);
        Ok(vstd::slice::slice_to_vec(part))
    }

    /// The byte range of `len` elements of `size` bytes starting at element `start`,
    /// provided it lies inside the tensor.
    fn element_range(&self, start: usize, len: usize, size: usize) -> (r: Option<(usize, usize)>)
        requires
            size > 0,
        ensures
            r is Some <==> (start + len) * size <= self.spec_bytes().len(),
            r matches Some((a, b)) ==> a == start * size && b == (start + len) * size,
    {
        let total = self.bytes.len();
        if start > total || len > total - start {
            assert((start + len) * size > total) by (nonlinear_arith)
                requires
                    start + len > total,
                    size > 0,
            ;
            return None;
        }
        let end = start + len;
        match end.checked_mul(size) {
            Some(b) => {
                if b > total {
                    return None;
                }
                assert(start * size <= end * size) by (nonlinear_arith)
                    requires
                        start <= end,
                ;
                Some((start * size, b))
            },
            None => None,
        }
    }

    /// Copies `len` `i32` elements starting at element `start`: the tensor must be
    /// `I32` and the range inside it. The copy can also fail when the bytes are not
    /// aligned for `i32` in memory.
    pub fn copy_i32_range(&self, start: usize, len: usize) -> (r: Result<Vec<i32>, CoreError>)
        ensures
            self.spec_dtype() != DataType::I32 ==> (r matches Err(e) && e == (
            CoreError::InvalidDataType { expected: DataType::I32, actual: self.spec_dtype() })),
            self.spec_dtype() == DataType::I32 && (start + len) * 4 > self.spec_bytes().len()
                ==> r matches Err(CoreError::InvalidArgument(_)),
            r matches Ok(v) ==> self.spec_dtype() == DataType::I32 && v@.len() == len && (start
                + len) * 4 <= self.spec_bytes().len(),
            r matches Err(e) ==> e is InvalidDataType || e is InvalidArgument
                || e is BufferTransferFailed,
            r matches Err(CoreError::InvalidDataType { .. }) ==> self.spec_dtype() != DataType::I32,
            r matches Err(CoreError::InvalidArgument(_)) ==> self.spec_dtype() == DataType::I32 && (
            start + len) * 4 > self.spec_bytes().len(),
            self.spec_dtype() == DataType::I32 && (start + len) * 4 <= self.spec_bytes().len() ==> (
            r is Ok || r matches Err(CoreError::BufferTransferFailed(_))),
    {
        broadcast use vstd::layout::layout_of_primitives;

        if self.dtype != DataType::I32 {
            return Err(CoreError::InvalidDataType { expected: DataType::I32, actual: self.dtype });
        }
        let (a, b) = match self.element_range(start, len, 4) {
            Some(r) => r,
            None => {
                return Err(
                    CoreError::InvalidArgument("Element range lies outside the tensor".to_string()),
                )
            },
        };
        let part = vstd::slice::slice_subrange(self.bytes.as_slice(), a, b);
        assert((start + len) * 4 - start * 4 == len * 4) by (nonlinear_arith);
        crate::bytes::bytes_to_vec::<i32>(part)
    }

    /// Copies `len` `i64` elements starting at element `start`: the tensor must be
    /// `I64` and the range inside it. The copy can also fail when the bytes are not
    /// aligned for `i64` in memory.
    pub fn copy_i64_range(&self, start: usize, len: usize) -> (r: Result<Vec<i64>, CoreError>)
        ensures
            self.spec_dtype() != DataType::I64 ==> (r matches Err(e) && e == (
            CoreError::InvalidDataType { expected: DataType::I64, actual: self.spec_dtype() })),
            self.spec_dtype() == DataType::I64 && (start + len) * 8 > self.spec_bytes().len()
                ==> r matches Err(CoreError::InvalidArgument(_)),
            r matches Ok(v) ==> self.spec_dtype() == DataType::I64 && v@.len() == len && (start
                + len) * 8 <= self.spec_bytes().len(),
            r matches Err(e) ==> e is InvalidDataType || e is InvalidArgument
                || e is BufferTransferFailed,
            r matches Err(CoreError::InvalidDataType { .. }) ==> self.spec_dtype() != DataType::I64,
            r matches Err(CoreError::InvalidArgument(_)) ==> self.spec_dtype() == DataType::I64 && (
            start + len) * 8 > self.spec_bytes().len(),
            self.spec_dtype() == DataType::I64 && (start + len) * 8 <= self.spec_bytes().len() ==> (
            r is Ok || r matches Err(CoreError::BufferTransferFailed(_))),
    {
        broadcast use vstd::layout::layout_of_primitives;

        if self.dtype != DataType::I64 {
            return Err(CoreError::InvalidDataType { expected: DataType::I64, actual: self.dtype });
        }
        let (a, b) = match self.element_range(start, len, 8) {
            Some(r) => r,
            None => {
                return Err(
                    CoreError::InvalidArgument("Element range lies outside the tensor".to_string()),
                )
            },
        };
        let part = vstd::slice::slice_subrange(self.bytes.as_slice(), a, b);
        assert((start + len) * 8 - start * 8 == len * 8) by (nonlinear_arith);
        crate::bytes::bytes_to_vec::<i64>(part)
    }
}

/// CPU tensor storage is host bytes.
#[derive(Debug, PartialEq)]
pub struct HostBytes(pub Vec<u8>);

impl Clone for HostBytes {
    fn clone(&self) -> (r: Self)
        ensures
            r.0@ == self.0@,
    {
        let v = self.0.clone();
        assert(v@ =~= self.0@);
        HostBytes(v)
    }
}

/// Device-resident tensor. The device type parameter keeps tensors of different
/// devices apart at compile time.
#[derive(Clone, Debug)]
pub struct Tensor<D: Device> {
    device: D,
    shape: TensorShape,
    dtype: DataType,
    storage: D::Storage,
}

/// `t` holds exactly the shape, type and bytes of `h`.
pub open spec fn holds_host<D: Device>(t: Tensor<D>, h: HostTensor) -> bool {
    &&& t.spec_shape() == h.spec_shape()
    &&& t.spec_dtype() == h.spec_dtype()
    &&& t.spec_contents() == h.spec_bytes()
}

/// `a` and `b` hold the same shape, type and bytes, possibly on different devices.
pub open spec fn same_tensor<D: Device, E: Device>(a: Tensor<D>, b: Tensor<E>) -> bool {
    &&& a.spec_shape() == b.spec_shape()
    &&& a.spec_dtype() == b.spec_dtype()
    &&& a.spec_contents() == b.spec_contents()
}

/// `out` is a result `device.store` may give for the shape, type and bytes of `host`.
pub open spec fn store_outcome<D: Device>(device: &D, host: HostTensor, out: Result<D::Storage, CoreError>) -> bool {
    exists|b: &[u8]|
        b@ == host.spec_bytes() && #[trigger] call_ensures(
            D::store,
            (device, &host.spec_shape_value(), host.spec_dtype(), b),
            out,
        )
}

/// `out` is a result `t.read_to_host()` may give.
pub open spec fn read_outcome<D: Device>(t: Tensor<D>, out: Result<HostTensor, CoreError>) -> bool {
    call_ensures(Tensor::<D>::read_to_host, (&t,), out)
}

/// `out` is a result `Tensor::from_host(target, &host)` may give.
pub open spec fn from_host_outcome<T: Device>(target: &T, host: HostTensor, out: Result<Tensor<T>, CoreError>) -> bool {
    call_ensures(Tensor::<T>::from_host, (target, &host), out)
}

/// `out` is a result `target.try_adopt_tensor(&t)` may give.
pub open spec fn adopt_outcome<T: TensorAdopt<D>, D: Device>(target: &T, t: Tensor<D>, out: Option<Tensor<T>>) -> bool {
    call_ensures(<T as TensorAdopt<D>>::try_adopt_tensor, (target, &t), out)
}

/// `out` is a result `t.device().load(..)` may give for the tensor's storage, shape
/// and element type.
pub open spec fn load_outcome<D: Device>(t: Tensor<D>, out: Result<HostTensor, CoreError>) -> bool {
    call_ensures(D::load, (&t.spec_device(), &t.spec_storage(), &t.spec_shape_value(), t.spec_dtype()), out)
}

impl<D: Device> Tensor<D> {
    pub closed spec fn spec_device(&self) -> D {
        self.device
    }

    pub closed spec fn spec_shape(&self) -> Seq<usize> {
        self.shape@
    }

    pub closed spec fn spec_dtype(&self) -> DataType {
        self.dtype
    }

    pub closed spec fn spec_storage(&self) -> D::Storage {
        self.storage
    }

    /// The shape itself (its view is [`Tensor::spec_shape`]).
    pub closed spec fn spec_shape_value(&self) -> TensorShape {
        self.shape
    }

    /// The bytes the tensor's storage holds.
    pub open spec fn spec_contents(&self) -> Seq<u8> {
        D::contents(&self.spec_storage())
    }

    /// Whether the storage holds exactly one tensor's worth of bytes.
    pub open spec fn well_sized(&self) -> bool {
        self.spec_contents().len() == byte_size_of(self.spec_shape(), self.spec_dtype())
    }

    pub fn from_storage(device: D, shape: TensorShape, dtype: DataType, storage: D::Storage) -> (r:
        Self)
        ensures
            r.spec_device() == device,
            r.spec_shape() == shape@,
            r.spec_dtype() == dtype,
            r.spec_storage() == storage,
    {
        Tensor { device, shape, dtype, storage }
    }

    /// Stores the contents of `host` on `device`: the tensor carries a clone of
    /// `device` and the storage that `store` gave; an error of `store` is returned as
    /// it is.
    pub fn from_host(device: &D, host: &HostTensor) -> (r: Result<Self, CoreError>)
        ensures
            r matches Ok(t) ==> t.spec_shape() == host.spec_shape() && t.spec_dtype()
                == host.spec_dtype(),
            D::contents_known() ==> (r matches Ok(t) ==> holds_host(t, *host) && t.well_sized()),
            r matches Ok(t) ==> cloned::<D>(
                *device,
                t.spec_device(),
            ) && store_outcome(device, *host, Ok::<D::Storage, CoreError>(t.spec_storage())),
            r matches Err(e) ==> store_outcome(device, *host, Err::<D::Storage, CoreError>(e)),
            D::reliable() ==> r is Ok,
    {
        proof {
            use_type_invariant(host);
        }
        let shape = host.shape();
        let dtype = host.dtype();
        let bytes = host.as_bytes();
        let stored = device.store(shape, dtype, bytes);
        assert(bytes@ == host.spec_bytes() && call_ensures(
            D::store,
            (device, &host.spec_shape_value(), host.spec_dtype(), bytes),
            stored,
        ));
        let storage = match stored {
            Ok(s) => s,
            Err(e) => return Err(e),
        };
        Ok(Tensor { device: device.clone(), shape: shape.clone(), dtype, storage })
    }

    pub fn device(&self) -> (r: &D)
        ensures
            *r == self.spec_device(),
    {
        &self.device
    }

    pub fn shape(&self) -> (r: &TensorShape)
        ensures
            r@ == self.spec_shape(),
    {
        &self.shape
    }

    pub fn dtype(&self) -> (r: DataType)
        ensures
            r == self.spec_dtype(),
    {
        self.dtype
    }

    pub fn byte_size(&self) -> (r: usize)
        ensures
            r == byte_size_of(self.spec_shape(), self.spec_dtype()),
    {
        self.shape.byte_size(self.dtype)
    }

    pub fn storage(&self) -> (r: &D::Storage)
        ensures
            *r == self.spec_storage(),
    {
        &self.storage
    }

    /// Copies the tensor back into host memory.
    pub fn read_to_host(&self) -> (r: Result<HostTensor, CoreError>)
        ensures
            load_outcome(*self, r),
            r matches Ok(h) ==> h.spec_shape() == self.spec_shape() && h.spec_dtype()
                == self.spec_dtype(),
            D::contents_known() ==> (r matches Ok(h) ==> holds_host(*self, h)),
            D::reliable() && self.well_sized() ==> r is Ok,
    {
        self.device.load(&self.storage, &self.shape, self.dtype)
    }

    /// Transfers the tensor to `target`: adopted directly when the target can take the
    /// storage as it is (the adopted tensor is the result, and nothing is read back),
    /// otherwise read back to the host and stored again, with a read or store error
    /// returned as it is.
    pub fn to_device<T: TensorAdopt<D>>(&self, target: &T) -> (r: Result<Tensor<T>, CoreError>)
        ensures
            r matches Ok(t) ==> t.spec_shape() == self.spec_shape() && t.spec_dtype()
                == self.spec_dtype(),
            D::contents_known() && T::contents_known() ==> (r matches Ok(t) ==> same_tensor(
                t,
                *self,
            )),
            D::reliable() && T::reliable() && self.well_sized() ==> r is Ok,
            r matches Ok(t) ==> adopt_outcome(target, *self, Some(t)) || (adopt_outcome(
                target,
                *self,
                None,
            ) && exists|h: HostTensor|
                read_outcome(*self, Ok(h)) && #[trigger] from_host_outcome(target, h, Ok(t))),
            r matches Err(e) ==> adopt_outcome(target, *self, None) && (read_outcome(
                *self,
                Err(e),
            ) || exists|h: HostTensor|
                read_outcome(*self, Ok(h)) && #[trigger] from_host_outcome(target, h, Err(e))),
    {
        let adopted = target.try_adopt_tensor(self);
        if let Some(a) = adopted {
            return Ok(a);
        }
        let read = self.read_to_host();
        let host = match read {
            Ok(h) => h,
            Err(e) => return Err(e),
        };
        let stored = Tensor::from_host(target, &host);
        assert(read_outcome(*self, Ok(host)) && from_host_outcome(target, host, stored));
        stored
    }
}

impl Tensor<Cpu> {
    /// A CPU tensor holding a copy of `host`.
    pub fn adopt_host(host: &HostTensor) -> (r: Tensor<Cpu>)
        ensures
            holds_host(r, *host),
            r.well_sized(),
    {
        proof {
            use_type_invariant(host);
        }
        let bytes = vstd::slice::slice_to_vec(host.as_bytes());
        Tensor { device: Cpu, shape: host.shape().clone(), dtype: host.dtype(), storage: HostBytes(bytes) }
    }
}

/// Optional fast-path adoption of a tensor of device `S` whose storage this device
/// can use as it is.
pub trait TensorAdopt<S: Device>: Device {
    fn try_adopt_tensor(&self, tensor: &Tensor<S>) -> (r: Option<Tensor<Self>>)
        ensures
            r matches Some(t) ==> same_tensor(t, *tensor) && t.spec_shape() == tensor.spec_shape()
                && t.spec_dtype() == tensor.spec_dtype(),
    ;
}

impl<S: Device> TensorAdopt<S> for Cpu {
    /// Takes over exactly the tensors whose storage is host bytes.
    fn try_adopt_tensor(&self, tensor: &Tensor<S>) -> (r: Option<Tensor<Cpu>>)
        ensures
            r is Some <==> S::stored_on_host(&tensor.spec_storage()),
    {
        match S::host_bytes(&tensor.storage) {
            Some(b) => Some(
                Tensor { device: Cpu, shape: tensor.shape.clone(), dtype: tensor.dtype, storage: b.clone() },
            ),
            None => None,
        }
    }
}

/// A tensor whose storage is host bytes is always adopted by the CPU as it is: the CPU
/// never declines it, so moving it there reads nothing back.
pub proof fn lemma_cpu_adopts_host_storage<D: Device>(t: Tensor<D>, out: Option<Tensor<Cpu>>)
    requires
        D::stored_on_host(&t.spec_storage()),
        adopt_outcome(&Cpu, t, out),
    ensures
        out matches Some(a) && same_tensor(a, t),
{
}

/// A tensor read back after being stored holds the host tensor it was made from.
pub proof fn lemma_host_roundtrip<D: Device>(h: HostTensor, t: Tensor<D>, back: HostTensor)
    requires
        holds_host(t, h),
        holds_host(t, back),
    ensures
        back.spec_shape() == h.spec_shape(),
        back.spec_dtype() == h.spec_dtype(),
        back.spec_bytes() == h.spec_bytes(),
{
}

} // verus!
