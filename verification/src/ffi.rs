//! Types and entry points exposed to foreign callers (Kotlin, Swift) through the
//! application's FFI layer. They mirror the core types with plain, FFI-friendly fields.
use vstd::prelude::*;

use std::sync::Arc;

use crate::backend::ExecuTorchBackend;
use crate::device::{Cpu, DeviceInfo as CoreDeviceInfo, DeviceKind as CoreDeviceKind};
use crate::error::CoreError;
use crate::image::{
    CpuImage as CoreCpuImage, DeviceImage, FitMode as CoreFitMode,
    HardwareImage as CoreHardwareImage, ImageFormat as CoreImageFormat,
    TensorLayout as CoreTensorLayout,
};
use crate::tensor::{
    valid_dims, DataType as CoreDataType, HostTensor, Tensor, TensorShape as CoreTensorShape,
};
use crate::text::{concat, decimal};

verus! {

/// Class of execution device.
#[derive(Clone, Copy, Debug, PartialEq, Eq, Structural, Hash)]
pub enum DeviceKind {
    Cpu,
    Gpu,
    Npu,
}

pub open spec fn kind_to_core(k: DeviceKind) -> CoreDeviceKind {
    match k {
        DeviceKind::Cpu => CoreDeviceKind::Cpu,
        DeviceKind::Gpu => CoreDeviceKind::Gpu,
        DeviceKind::Npu => CoreDeviceKind::Npu,
    }
}

pub open spec fn kind_from_core(k: CoreDeviceKind) -> DeviceKind {
    match k {
        CoreDeviceKind::Cpu => DeviceKind::Cpu,
        CoreDeviceKind::Gpu => DeviceKind::Gpu,
        CoreDeviceKind::Npu => DeviceKind::Npu,
    }
}

impl vstd::std_specs::convert::FromSpecImpl<CoreDeviceKind> for DeviceKind {
    open spec fn obeys_from_spec() -> bool {
        true
    }

    open spec fn from_spec(v: CoreDeviceKind) -> DeviceKind {
        kind_from_core(v)
    }
}

impl From<CoreDeviceKind> for DeviceKind {
    fn from(kind: CoreDeviceKind) -> (r: DeviceKind)
        ensures
            r == kind_from_core(kind),
    {
        match kind {
            CoreDeviceKind::Cpu => DeviceKind::Cpu,
            CoreDeviceKind::Gpu => DeviceKind::Gpu,
            CoreDeviceKind::Npu => DeviceKind::Npu,
        }
    }
}

impl vstd::std_specs::convert::FromSpecImpl<DeviceKind> for CoreDeviceKind {
    open spec fn obeys_from_spec() -> bool {
        true
    }

    open spec fn from_spec(v: DeviceKind) -> CoreDeviceKind {
        kind_to_core(v)
    }
}

impl From<DeviceKind> for CoreDeviceKind {
    fn from(kind: DeviceKind) -> (r: CoreDeviceKind)
        ensures
            r == kind_to_core(kind),
    {
        match kind {
            DeviceKind::Cpu => CoreDeviceKind::Cpu,
            DeviceKind::Gpu => CoreDeviceKind::Gpu,
            DeviceKind::Npu => CoreDeviceKind::Npu,
        }
    }
}

/// Identity of an execution device.
#[derive(Clone, Debug, PartialEq, Eq, Hash)]
pub struct DeviceInfo {
    pub kind: DeviceKind,
    pub id: u64,
    pub name: String,
}

impl vstd::std_specs::convert::FromSpecImpl<CoreDeviceInfo> for DeviceInfo {
    open spec fn obeys_from_spec() -> bool {
        true
    }

    open spec fn from_spec(v: CoreDeviceInfo) -> DeviceInfo {
        DeviceInfo { kind: kind_from_core(v.kind), id: v.id as u64, name: v.name }
    }
}

impl From<CoreDeviceInfo> for DeviceInfo {
    fn from(info: CoreDeviceInfo) -> (r: DeviceInfo)
        ensures
            r.kind == kind_from_core(info.kind),
            r.id == info.id,
            r.name == info.name,
    {
        DeviceInfo { kind: DeviceKind::from(info.kind), id: info.id as u64, name: info.name }
    }
}

impl vstd::std_specs::convert::FromSpecImpl<DeviceInfo> for CoreDeviceInfo {
    open spec fn obeys_from_spec() -> bool {
        true
    }

    open spec fn from_spec(v: DeviceInfo) -> CoreDeviceInfo {
        CoreDeviceInfo { kind: kind_to_core(v.kind), id: v.id as usize, name: v.name }
    }
}

impl From<DeviceInfo> for CoreDeviceInfo {
    /// Converts the id with Rust's `as`, which truncates on 32-bit targets.
    fn from(info: DeviceInfo) -> (r: CoreDeviceInfo)
        ensures
            r.kind == kind_to_core(info.kind),
            r.id == info.id as usize,
            r.name == info.name,
    {
        CoreDeviceInfo { kind: CoreDeviceKind::from(info.kind), id: info.id as usize, name: info.name }
    }
}

/// The host CPU device: kind `Cpu`, id 0, name `"CPU"`.
pub fn create_cpu_device() -> (r: DeviceInfo)
    ensures
        r.kind == DeviceKind::Cpu,
        r.id == 0,
        r.name@ == "CPU"@,
{
    DeviceInfo::from(CoreDeviceInfo::cpu())
}

/// GPU number `id`, named `"GPU:<id>"`.
pub fn create_gpu_device(id: u64) -> (r: DeviceInfo)
    ensures
        r.kind == DeviceKind::Gpu,
        r.id == id as usize as u64,
        r.name@ == "GPU:"@ + decimal(id as usize as nat),
{
    DeviceInfo::from(CoreDeviceInfo::gpu(id as usize))
}

/// NPU number `id`, named `"NPU:<id>"`.
pub fn create_npu_device(id: u64) -> (r: DeviceInfo)
    ensures
        r.kind == DeviceKind::Npu,
        r.id == id as usize as u64,
        r.name@ == "NPU:"@ + decimal(id as usize as nat),
{
    DeviceInfo::from(CoreDeviceInfo::npu(id as usize))
}

/// Handle for the host CPU device.
#[derive(Debug)]
pub struct CpuDevice {}

impl CpuDevice {
    pub fn new() -> (r: Arc<CpuDevice>)
        ensures
            *r == (CpuDevice {  }),
    {
        Arc::new(CpuDevice {  })
    }

    /// Kind `Cpu`, id 0, name `"CPU"`.
    pub fn info(&self) -> (r: DeviceInfo)
        ensures
            r.kind == DeviceKind::Cpu,
            r.id == 0,
            r.name@ == "CPU"@,
    {
        DeviceInfo::from(Cpu::info())
    }
}

/// Element type of a tensor.
#[derive(Clone, Copy, Debug, PartialEq, Eq, Structural, Hash)]
pub enum DataType {
    U8,
    I8,
    I16,
    I32,
    I64,
    F16,
    F32,
    F64,
}

pub open spec fn dtype_to_core(d: DataType) -> CoreDataType {
    match d {
        DataType::U8 => CoreDataType::U8,
        DataType::I8 => CoreDataType::I8,
        DataType::I16 => CoreDataType::I16,
        DataType::I32 => CoreDataType::I32,
        DataType::I64 => CoreDataType::I64,
        DataType::F16 => CoreDataType::F16,
        DataType::F32 => CoreDataType::F32,
        DataType::F64 => CoreDataType::F64,
    }
}

pub open spec fn dtype_from_core(d: CoreDataType) -> DataType {
    match d {
        CoreDataType::U8 => DataType::U8,
        CoreDataType::I8 => DataType::I8,
        CoreDataType::I16 => DataType::I16,
        CoreDataType::I32 => DataType::I32,
        CoreDataType::I64 => DataType::I64,
        CoreDataType::F16 => DataType::F16,
        CoreDataType::F32 => DataType::F32,
        CoreDataType::F64 => DataType::F64,
    }
}

impl vstd::std_specs::convert::FromSpecImpl<CoreDataType> for DataType {
    open spec fn obeys_from_spec() -> bool {
        true
    }

    open spec fn from_spec(v: CoreDataType) -> DataType {
        dtype_from_core(v)
    }
}

impl From<CoreDataType> for DataType {
    fn from(d: CoreDataType) -> (r: DataType)
        ensures
            r == dtype_from_core(d),
    {
        match d {
            CoreDataType::U8 => DataType::U8,
            CoreDataType::I8 => DataType::I8,
            CoreDataType::I16 => DataType::I16,
            CoreDataType::I32 => DataType::I32,
            CoreDataType::I64 => DataType::I64,
            CoreDataType::F16 => DataType::F16,
            CoreDataType::F32 => DataType::F32,
            CoreDataType::F64 => DataType::F64,
        }
    }
}

impl vstd::std_specs::convert::FromSpecImpl<DataType> for CoreDataType {
    open spec fn obeys_from_spec() -> bool {
        true
    }

    open spec fn from_spec(v: DataType) -> CoreDataType {
        dtype_to_core(v)
    }
}

impl From<DataType> for CoreDataType {
    fn from(d: DataType) -> (r: CoreDataType)
        ensures
            r == dtype_to_core(d),
    {
        match d {
            DataType::U8 => CoreDataType::U8,
            DataType::I8 => CoreDataType::I8,
            DataType::I16 => CoreDataType::I16,
            DataType::I32 => CoreDataType::I32,
            DataType::I64 => CoreDataType::I64,
            DataType::F16 => CoreDataType::F16,
            DataType::F32 => CoreDataType::F32,
            DataType::F64 => CoreDataType::F64,
        }
    }
}

/// The mirrored enums convert back and forth without loss.
pub proof fn lemma_mirrors_roundtrip(k: DeviceKind, ck: CoreDeviceKind, d: DataType, cd: CoreDataType)
    ensures
        kind_from_core(kind_to_core(k)) == k,
        kind_to_core(kind_from_core(ck)) == ck,
        dtype_from_core(dtype_to_core(d)) == d,
        dtype_to_core(dtype_from_core(cd)) == cd,
{
}

/// Dimensions of a tensor.
#[derive(Clone, Debug, PartialEq, Eq, Hash)]
pub struct TensorShape {
    pub dims: Vec<u64>,
}

/// Dimensions widened to `u64`.
pub open spec fn dims_to_u64(dims: Seq<usize>) -> Seq<u64> {
    Seq::new(dims.len(), |i: int| dims[i] as u64)
}

/// Dimensions converted with Rust's `as` (truncating on 32-bit targets).
pub open spec fn dims_to_usize(dims: Seq<u64>) -> Seq<usize> {
    Seq::new(dims.len(), |i: int| dims[i] as usize)
}

impl vstd::std_specs::convert::FromSpecImpl<CoreTensorShape> for TensorShape {
    open spec fn obeys_from_spec() -> bool {
        false
    }

    open spec fn from_spec(v: CoreTensorShape) -> TensorShape {
        arbitrary()
    }
}

impl From<CoreTensorShape> for TensorShape {
    fn from(shape: CoreTensorShape) -> (r: TensorShape)
        ensures
            r.dims@ == dims_to_u64(shape@),
    {
        let src = shape.dims();
        let mut dims: Vec<u64> = Vec::new();
        let n = src.len();
        for i in 0..n
            invariant
                n == src@.len(),
                src@ == shape@,
                dims@ == dims_to_u64(src@.take(i as int)),
        {
            dims.push(src[i] as u64);
            assert(dims@ =~= dims_to_u64(src@.take(i + 1)));
        }
        assert(src@.take(n as int) =~= src@);
        TensorShape { dims }
    }
}

impl vstd::std_specs::convert::TryFromSpecImpl<TensorShape> for CoreTensorShape {
    open spec fn obeys_try_from_spec() -> bool {
        false
    }

    open spec fn try_from_spec(v: TensorShape) -> Result<Self, Self::Error> {
        arbitrary()
    }
}

impl TryFrom<TensorShape> for CoreTensorShape {
    type Error = InfersError;

    /// Accepts exactly the dimension lists that [`CoreTensorShape::new`] accepts.
    fn try_from(shape: TensorShape) -> (r: Result<CoreTensorShape, InfersError>)
        ensures
            r is Ok <==> valid_dims(dims_to_usize(shape.dims@)),
            r matches Ok(s) ==> s@ == dims_to_usize(shape.dims@),
            r matches Err(e) ==> e is InvalidShape,
    {
        let mut dims: Vec<usize> = Vec::new();
        let n = shape.dims.len();
        for i in 0..n
            invariant
                n == shape.dims@.len(),
                dims@ == dims_to_usize(shape.dims@.take(i as int)),
        {
            dims.push(shape.dims[i] as usize);
            assert(dims@ =~= dims_to_usize(shape.dims@.take(i + 1)));
        }
        assert(shape.dims@.take(n as int) =~= shape.dims@);
        match CoreTensorShape::new(dims) {
            Ok(s) => Ok(s),
            Err(e) => Err(InfersError::from(e)),
        }
    }
}

/// A valid shape sent across the FFI boundary and back is accepted and unchanged.
pub proof fn lemma_shape_roundtrip(dims: Seq<usize>)
    requires
        valid_dims(dims),
    ensures
        dims_to_usize(dims_to_u64(dims)) == dims,
        valid_dims(dims_to_usize(dims_to_u64(dims))),
{
    assert(dims_to_usize(dims_to_u64(dims)) =~= dims);
}

/// Error reported across the FFI boundary. Its text field is named `reason` so that
/// generated Kotlin does not clash with `Throwable.message`.
#[derive(Debug)]
pub enum InfersError {
    InvalidShape { reason: String },
    DeviceMismatch { expected: String, actual: String },
    UnsupportedType { reason: String },
    BufferAllocationFailed { reason: String },
    ModelLoadFailed { reason: String },
    InferenceFailed { reason: String },
    ProcessingFailed { reason: String },
    PlatformError { reason: String },
    InternalError { reason: String },
    AlreadyConsumed,
}

/// How each core error is reported across the FFI boundary.
pub open spec fn reports(c: CoreError, e: InfersError) -> bool {
    match c {
        CoreError::InvalidShape(m) => e == (InfersError::InvalidShape { reason: m }),
        CoreError::DeviceMismatch { expected, actual } => e == (InfersError::DeviceMismatch {
            expected: expected.name,
            actual: actual.name,
        }),
        CoreError::InvalidDataType { expected, actual } => e matches InfersError::UnsupportedType {
            reason,
        } && reason@ == "Expected "@ + expected.spec_name() + ", got "@ + actual.spec_name(),
        CoreError::BufferTransferFailed(m) => e == (InfersError::BufferAllocationFailed {
            reason: m,
        }),
        CoreError::ModelLoadFailed(m) => e == (InfersError::ModelLoadFailed { reason: m }),
        CoreError::InferenceFailed(m) => e == (InfersError::InferenceFailed { reason: m }),
        CoreError::InvalidArgument(m) => e == (InfersError::InvalidShape { reason: m }),
        CoreError::InvalidImageBuffer(m) => e == (InfersError::ProcessingFailed { reason: m }),
        CoreError::ImageResizeFailed(m) => e == (InfersError::ProcessingFailed { reason: m }),
        CoreError::Platform(m) => e == (InfersError::PlatformError { reason: m }),
        CoreError::Gpu(g) => e matches InfersError::ProcessingFailed { reason } && reason@
            == crate::gpu::gpu_message(g),
        CoreError::AlreadyConsumed => e == InfersError::AlreadyConsumed,
    }
}

impl vstd::std_specs::convert::FromSpecImpl<CoreError> for InfersError {
    open spec fn obeys_from_spec() -> bool {
        false
    }

    open spec fn from_spec(v: CoreError) -> InfersError {
        arbitrary()
    }
}

impl From<CoreError> for InfersError {
    fn from(err: CoreError) -> (r: InfersError)
        ensures
            reports(err, r),
    {
        match err {
            CoreError::InvalidShape(m) => InfersError::InvalidShape { reason: m },
            CoreError::DeviceMismatch { expected, actual } => InfersError::DeviceMismatch {
                expected: expected.name,
                actual: actual.name,
            },
            CoreError::InvalidDataType { expected, actual } => {
                let mut reason = concat("Expected ", expected.name());
                reason.append(", got ");
                reason.append(actual.name());
                InfersError::UnsupportedType { reason }
            },
            CoreError::BufferTransferFailed(m) => InfersError::BufferAllocationFailed { reason: m },
            CoreError::ModelLoadFailed(m) => InfersError::ModelLoadFailed { reason: m },
            CoreError::InferenceFailed(m) => InfersError::InferenceFailed { reason: m },
            CoreError::InvalidArgument(m) => InfersError::InvalidShape { reason: m },
            CoreError::InvalidImageBuffer(m) => InfersError::ProcessingFailed { reason: m },
            CoreError::ImageResizeFailed(m) => InfersError::ProcessingFailed { reason: m },
            CoreError::Platform(m) => InfersError::PlatformError { reason: m },
            CoreError::Gpu(g) => InfersError::ProcessingFailed { reason: g.message() },
            CoreError::AlreadyConsumed => InfersError::AlreadyConsumed,
        }
    }
}

/// Shapes as FFI shapes, in order (for describing a loaded model's inputs and outputs).
pub fn shapes_to_ffi(shapes: &[CoreTensorShape]) -> (r: Vec<TensorShape>)
    ensures
        r@.len() == shapes@.len(),
        forall|i: int| 0 <= i < r@.len() ==> (#[trigger] r@[i]).dims@ == dims_to_u64(shapes@[i]@),
{
    let mut out: Vec<TensorShape> = Vec::new();
    let n = shapes.len();
    for i in 0..n
        invariant
            n == shapes@.len(),
            out@.len() == i,
            forall|j: int| 0 <= j < i ==> (#[trigger] out@[j]).dims@ == dims_to_u64(shapes@[j]@),
    {
        out.push(TensorShape::from(shapes[i].clone()));
    }
    out
}

/// Host-resident CPU tensor.
#[derive(Debug)]
pub struct CpuTensor {
    inner: Tensor<Cpu>,
}

/// Message for a data type that cannot be built from raw bytes.
pub open spec fn unsupported_message(d: CoreDataType) -> Seq<char> {
    "create_cpu_tensor_from_bytes does not support "@ + d.spec_name()
}

impl CpuTensor {
    #[verifier::type_invariant]
    spec fn inv(&self) -> bool {
        self.inner.well_sized()
    }

    pub closed spec fn spec_tensor(&self) -> Tensor<Cpu> {
        self.inner
    }

    pub fn inner(&self) -> (r: &Tensor<Cpu>)
        ensures
            *r == self.spec_tensor(),
    {
        &self.inner
    }

    /// Wraps a tensor that holds exactly one tensor's worth of bytes.
    pub fn from_inner(inner: Tensor<Cpu>) -> (r: CpuTensor)
        requires
            inner.well_sized(),
        ensures
            r.spec_tensor() == inner,
    {
        CpuTensor { inner }
    }

    pub fn shape(&self) -> (r: TensorShape)
        ensures
            r.dims@ == dims_to_u64(self.spec_tensor().spec_shape()),
    {
        TensorShape::from(self.inner.shape().clone())
    }

    pub fn dtype(&self) -> (r: DataType)
        ensures
            r == dtype_from_core(self.spec_tensor().spec_dtype()),
    {
        DataType::from(self.inner.dtype())
    }

    /// The CPU device: kind `Cpu`, id 0, name `"CPU"`.
    pub fn device_info(&self) -> (r: DeviceInfo)
        ensures
            r.kind == DeviceKind::Cpu,
            r.id == 0,
            r.name@ == "CPU"@,
    {
        DeviceInfo::from(Cpu::info())
    }

    pub fn byte_size(&self) -> (r: u64)
        ensures
            r == self.spec_tensor().spec_contents().len(),
    {
        proof {
            use_type_invariant(self);
        }
        self.inner.byte_size() as u64
    }

    /// All of the tensor's bytes.
    pub fn read_bytes(&self) -> (r: Result<Vec<u8>, InfersError>)
        ensures
            r matches Ok(v) && v@ == self.spec_tensor().spec_contents(),
    {
        proof {
            use_type_invariant(self);
        }
        let n = self.byte_size();
        let r = self.copy_bytes(0, n);
        assert(r matches Ok(v) && v@ =~= self.spec_tensor().spec_contents());
        r
    }

    /// Copies the byte range `[byte_offset, byte_offset + len)`, which must lie inside
    /// the tensor (both bounds are converted with Rust's `as`).
    pub fn copy_bytes(&self, byte_offset: u64, len: u64) -> (r: Result<Vec<u8>, InfersError>)
        ensures
            r is Ok <==> (byte_offset as usize) + (len as usize)
                <= self.spec_tensor().spec_contents().len(),
            r matches Ok(v) ==> v@ == self.spec_tensor().spec_contents().subrange(
                byte_offset as usize as int,
                (byte_offset as usize) + (len as usize),
            ),
            r matches Err(e) ==> e is InvalidShape,
    {
        proof {
            use_type_invariant(self);
        }
        let host = match self.inner.read_to_host() {
            Ok(h) => h,
            Err(e) => return Err(InfersError::from(e)),
        };
        match host.copy_bytes_range(byte_offset as usize, len as usize) {
            Ok(v) => Ok(v),
            Err(e) => Err(InfersError::from(e)),
        }
    }

    /// Copies `len` `i32` elements starting at element `start_elem`.
    pub fn copy_i32(&self, start_elem: u64, len: u64) -> (r: Result<Vec<i32>, InfersError>)
        ensures
            self.spec_tensor().spec_dtype() != CoreDataType::I32 ==> r matches Err(
                InfersError::UnsupportedType { .. },
            ),
            self.spec_tensor().spec_dtype() == CoreDataType::I32 && ((start_elem as usize) + (
            len as usize)) * 4 > self.spec_tensor().spec_contents().len() ==> r matches Err(
                InfersError::InvalidShape { .. },
            ),
            r matches Ok(v) ==> self.spec_tensor().spec_dtype() == CoreDataType::I32 && v@.len()
                == len as usize && ((start_elem as usize) + (len as usize)) * 4
                <= self.spec_tensor().spec_contents().len(),
            r matches Err(InfersError::UnsupportedType { .. }) ==> self.spec_tensor().spec_dtype()
                != CoreDataType::I32,
            r matches Err(InfersError::InvalidShape { .. }) ==> self.spec_tensor().spec_dtype()
                == CoreDataType::I32 && ((start_elem as usize) + (len as usize)) * 4
                > self.spec_tensor().spec_contents().len(),
            self.spec_tensor().spec_dtype() == CoreDataType::I32 && ((start_elem as usize) + (
            len as usize)) * 4 <= self.spec_tensor().spec_contents().len() ==> (r is Ok
                || r matches Err(InfersError::BufferAllocationFailed { .. })),
            r matches Err(e) ==> e is UnsupportedType || e is InvalidShape
                || e is BufferAllocationFailed,
    {
        proof {
            use_type_invariant(self);
        }
        let host = match self.inner.read_to_host() {
            Ok(h) => h,
            Err(e) => return Err(InfersError::from(e)),
        };
        match host.copy_i32_range(start_elem as usize, len as usize) {
            Ok(v) => Ok(v),
            Err(e) => Err(InfersError::from(e)),
        }
    }

    /// Copies `len` `i64` elements starting at element `start_elem`.
    pub fn copy_i64(&self, start_elem: u64, len: u64) -> (r: Result<Vec<i64>, InfersError>)
        ensures
            self.spec_tensor().spec_dtype() != CoreDataType::I64 ==> r matches Err(
                InfersError::UnsupportedType { .. },
            ),
            self.spec_tensor().spec_dtype() == CoreDataType::I64 && ((start_elem as usize) + (
            len as usize)) * 8 > self.spec_tensor().spec_contents().len() ==> r matches Err(
                InfersError::InvalidShape { .. },
            ),
            r matches Ok(v) ==> self.spec_tensor().spec_dtype() == CoreDataType::I64 && v@.len()
                == len as usize && ((start_elem as usize) + (len as usize)) * 8
                <= self.spec_tensor().spec_contents().len(),
            r matches Err(InfersError::UnsupportedType { .. }) ==> self.spec_tensor().spec_dtype()
                != CoreDataType::I64,
            r matches Err(InfersError::InvalidShape { .. }) ==> self.spec_tensor().spec_dtype()
                == CoreDataType::I64 && ((start_elem as usize) + (len as usize)) * 8
                > self.spec_tensor().spec_contents().len(),
            self.spec_tensor().spec_dtype() == CoreDataType::I64 && ((start_elem as usize) + (
            len as usize)) * 8 <= self.spec_tensor().spec_contents().len() ==> (r is Ok
                || r matches Err(InfersError::BufferAllocationFailed { .. })),
            r matches Err(e) ==> e is UnsupportedType || e is InvalidShape
                || e is BufferAllocationFailed,
    {
        proof {
            use_type_invariant(self);
        }
        let host = match self.inner.read_to_host() {
            Ok(h) => h,
            Err(e) => return Err(InfersError::from(e)),
        };
        match host.copy_i64_range(start_elem as usize, len as usize) {
            Ok(v) => Ok(v),
            Err(e) => Err(InfersError::from(e)),
        }
    }
}

/// The byte offset and byte length of `len` elements of `elem_size` bytes starting at
/// element `start`, when both fit in 64 bits.
pub fn element_bytes(start: u64, len: u64, elem_size: u64) -> (r: Option<(u64, u64)>)
    ensures
        r is Some <==> start * elem_size <= u64::MAX && len * elem_size <= u64::MAX,
        r matches Some((offset, n)) ==> offset == start * elem_size && n == len * elem_size,
{
    let offset = match start.checked_mul(elem_size) {
        Some(v) => v,
        None => return None,
    };
    let n = match len.checked_mul(elem_size) {
        Some(v) => v,
        None => return None,
    };
    Some((offset, n))
}

/// Data types whose bytes are viewed as multi-byte elements before a tensor is built.
pub open spec fn multi_byte(d: CoreDataType) -> bool {
    d == CoreDataType::F32 || d == CoreDataType::I32 || d == CoreDataType::I64
}

/// Name of the element type the bytes of `d` are viewed as.
pub open spec fn view_label(d: CoreDataType) -> Seq<char> {
    match d {
        CoreDataType::F32 => "f32"@,
        CoreDataType::I32 => "i32"@,
        CoreDataType::I64 => "i64"@,
        _ => "u8"@,
    }
}

/// Message for bytes that are not a whole number of elements.
pub open spec fn not_multiple_message(len: nat, size: nat) -> Seq<char> {
    "byte length "@ + decimal(len) + " is not a multiple of element size "@ + decimal(size)
}

/// Message for bytes that could not be viewed as elements.
pub open spec fn view_failed_message(d: CoreDataType) -> Seq<char> {
    "failed to cast byte slice to "@ + view_label(d)
}

/// Builds the CPU tensor once `data` has been viewed as elements of `dtype`; `view` is
/// the outcome of that view. A failed view is reported as it is; otherwise the bytes
/// must fill the shape exactly.
pub fn tensor_from_viewed_bytes(
    shape: CoreTensorShape,
    dtype: CoreDataType,
    data: Vec<u8>,
    view: Result<(), CoreError>,
) -> (r: Result<Arc<CpuTensor>, InfersError>)
    ensures
        view matches Err(e) ==> (r matches Err(f) && reports(e, f)),
        view is Ok ==> (r is Ok <==> data@.len() == crate::tensor::byte_size_of(shape@, dtype)),
        view is Ok && data@.len() != crate::tensor::byte_size_of(shape@, dtype) ==> (r matches Err(
            InfersError::InvalidShape { reason },
        ) && reason@ == crate::tensor::size_mismatch_message(
            crate::tensor::byte_size_of(shape@, dtype),
            data@.len(),
        )),
        r matches Ok(t) ==> t.spec_tensor().spec_shape() == shape@ && t.spec_tensor().spec_dtype()
            == dtype && t.spec_tensor().spec_contents() == data@,
{
    if let Err(e) = view {
        return Err(InfersError::from(e));
    }
    let host = match HostTensor::new(shape, dtype, data) {
        Ok(h) => h,
        Err(e) => return Err(InfersError::from(e)),
    };
    let tensor = Tensor::adopt_host(&host);
    Ok(Arc::new(CpuTensor::from_inner(tensor)))
}

/// Views `data` as elements of `dtype`: `F32` as 4-byte elements, `I32` and `I64` as
/// such, `U8` as it is.
fn view_elements(dtype: CoreDataType, data: &[u8]) -> (r: Result<(), CoreError>)
    requires
        multi_byte(dtype) || dtype == CoreDataType::U8,
    ensures
        dtype == CoreDataType::U8 ==> r is Ok,
        multi_byte(dtype) && data@.len() % dtype.spec_element_size() != 0 ==> (r matches Err(
            CoreError::InvalidArgument(m),
        ) && m@ == not_multiple_message(data@.len(), dtype.spec_element_size())),
        multi_byte(dtype) && data@.len() % dtype.spec_element_size() == 0 ==> (r is Ok || (r matches Err(
            CoreError::BufferTransferFailed(m),
        ) && m@ == view_failed_message(dtype))),
{
    broadcast use vstd::layout::layout_of_primitives;

    match dtype {
        CoreDataType::F32 => match crate::bytes::cast_bytes::<u32>(data) {
            Ok(_) => Ok(()),
            Err(CoreError::BufferTransferFailed(_)) => {
                proof {
                    reveal_strlit("failed to cast byte slice to f32");
                    reveal_strlit("failed to cast byte slice to ");
                    reveal_strlit("f32");
                }
                Err(CoreError::BufferTransferFailed(String::from_str("failed to cast byte slice to f32")))
            },
            Err(e) => Err(e),
        },
        CoreDataType::I32 => match crate::bytes::cast_bytes::<i32>(data) {
            Ok(_) => Ok(()),
            Err(e) => Err(e),
        },
        CoreDataType::I64 => match crate::bytes::cast_bytes::<i64>(data) {
            Ok(_) => Ok(()),
            Err(e) => Err(e),
        },
        _ => Ok(()),
    }
}

/// Builds a CPU tensor from little-endian raw bytes laid out as `shape` and `dtype`.
///
/// `U8`, `I32`, `I64` and `F32` are supported. For the multi-byte types the bytes are
/// first viewed as elements, which fails when their length is not a whole number of
/// elements or (for the address the bytes happen to have) they are misaligned; what
/// follows the view is [`tensor_from_viewed_bytes`].
pub fn create_cpu_tensor_from_bytes(shape: TensorShape, dtype: DataType, data: Vec<u8>) -> (r:
    Result<Arc<CpuTensor>, InfersError>)
    ensures
        !valid_dims(dims_to_usize(shape.dims@)) ==> r matches Err(InfersError::InvalidShape { .. }),
        valid_dims(dims_to_usize(shape.dims@)) && !multi_byte(dtype_to_core(dtype)) && dtype
            != DataType::U8 ==> (r matches Err(InfersError::UnsupportedType { reason })
            && reason@ == unsupported_message(dtype_to_core(dtype))),
        valid_dims(dims_to_usize(shape.dims@)) && dtype == DataType::U8 ==> (r is Ok <==> data@.len()
            == crate::tensor::byte_size_of(dims_to_usize(shape.dims@), CoreDataType::U8)),
        valid_dims(dims_to_usize(shape.dims@)) && multi_byte(dtype_to_core(dtype)) && data@.len()
            % dtype_to_core(dtype).spec_element_size() != 0 ==> (r matches Err(
            InfersError::InvalidShape { reason },
        ) && reason@ == not_multiple_message(
            data@.len(),
            dtype_to_core(dtype).spec_element_size(),
        )),
        valid_dims(dims_to_usize(shape.dims@)) && multi_byte(dtype_to_core(dtype)) && data@.len()
            % dtype_to_core(dtype).spec_element_size() == 0 && !(r matches Err(
            InfersError::BufferAllocationFailed { .. },
        )) ==> (r is Ok <==> data@.len() == crate::tensor::byte_size_of(
            dims_to_usize(shape.dims@),
            dtype_to_core(dtype),
        )),
        r matches Err(InfersError::BufferAllocationFailed { reason }) ==> valid_dims(
            dims_to_usize(shape.dims@),
        ) && multi_byte(dtype_to_core(dtype)) && data@.len() % dtype_to_core(dtype).spec_element_size()
            == 0 && reason@ == view_failed_message(dtype_to_core(dtype)),
        r matches Ok(t) ==> t.spec_tensor().spec_shape() == dims_to_usize(shape.dims@)
            && t.spec_tensor().spec_dtype() == dtype_to_core(dtype)
            && t.spec_tensor().spec_contents() == data@,
        r is Ok ==> data@.len() == crate::tensor::byte_size_of(
            dims_to_usize(shape.dims@),
            dtype_to_core(dtype),
        ),
{
    let core_shape = match CoreTensorShape::try_from(shape) {
        Ok(s) => s,
        Err(e) => return Err(e),
    };
    let core_dtype = CoreDataType::from(dtype);
    match core_dtype {
        CoreDataType::U8 | CoreDataType::F32 | CoreDataType::I32 | CoreDataType::I64 => {},
        other => {
            let reason = concat("create_cpu_tensor_from_bytes does not support ", other.name());
            return Err(InfersError::UnsupportedType { reason });
        },
    }
    let view = view_elements(core_dtype, data.as_slice());
    tensor_from_viewed_bytes(core_shape, core_dtype, data, view)
}

/// Address and length of a tensor's host bytes, for direct-buffer bridging.
#[derive(Clone, Debug, PartialEq, Eq)]
pub struct HostDataPtr {
    pub ptr: u64,
    pub nbytes: u64,
}

/// Entry point of the inference backend for foreign callers.
#[derive(Debug)]
pub struct FfiBackend {
    inner: ExecuTorchBackend,
}

impl FfiBackend {
    /// The backend this handle exposes.
    pub closed spec fn spec_backend(&self) -> ExecuTorchBackend {
        self.inner
    }

    pub fn new() -> (r: Arc<FfiBackend>)
        ensures
            r.spec_backend() == ExecuTorchBackend,
    {
        Arc::new(FfiBackend { inner: ExecuTorchBackend::new() })
    }

    /// The CPU, GPU 0 and NPU 0, in that order.
    pub fn available_devices(&self) -> (r: Vec<DeviceInfo>)
        ensures
            r@.len() == 3,
            r@[0].kind == DeviceKind::Cpu && r@[0].id == 0 && r@[0].name@ == "CPU"@,
            r@[1].kind == DeviceKind::Gpu && r@[1].id == 0 && r@[1].name@ == "GPU:"@ + decimal(0),
            r@[2].kind == DeviceKind::Npu && r@[2].id == 0 && r@[2].name@ == "NPU:"@ + decimal(0),
    {
        let devices = self.inner.available_devices();
        let mut out: Vec<DeviceInfo> = Vec::new();
        let n = devices.len();
        for i in 0..n
            invariant
                n == devices@.len(),
                out@.len() == i,
                forall|j: int| #![trigger out@[j]]
                    0 <= j < i ==> out@[j].kind == kind_from_core(devices@[j].kind) && out@[j].id
                        == devices@[j].id && out@[j].name == devices@[j].name,
        {
            out.push(DeviceInfo::from(devices[i].clone()));
        }
        out
    }
}

/// Pixel layout of an image buffer.
#[derive(Clone, Copy, Debug, PartialEq, Eq, Structural, Hash)]
pub enum ImageFormat {
    Rgb888,
    Rgbf32,
    Nv12,
    I420,
}

pub open spec fn imageformat_to_core(v: ImageFormat) -> CoreImageFormat {
    match v {
        ImageFormat::Rgb888 => CoreImageFormat::Rgb888,
        ImageFormat::Rgbf32 => CoreImageFormat::Rgbf32,
        ImageFormat::Nv12 => CoreImageFormat::Nv12,
        ImageFormat::I420 => CoreImageFormat::I420,
    }
}

pub open spec fn imageformat_from_core(v: CoreImageFormat) -> ImageFormat {
    match v {
        CoreImageFormat::Rgb888 => ImageFormat::Rgb888,
        CoreImageFormat::Rgbf32 => ImageFormat::Rgbf32,
        CoreImageFormat::Nv12 => ImageFormat::Nv12,
        CoreImageFormat::I420 => ImageFormat::I420,
    }
}

impl vstd::std_specs::convert::FromSpecImpl<CoreImageFormat> for ImageFormat {
    open spec fn obeys_from_spec() -> bool {
        true
    }

    open spec fn from_spec(v: CoreImageFormat) -> ImageFormat {
        imageformat_from_core(v)
    }
}

impl From<CoreImageFormat> for ImageFormat {
    fn from(v: CoreImageFormat) -> (r: ImageFormat)
        ensures
            r == imageformat_from_core(v),
    {
        match v {
            CoreImageFormat::Rgb888 => ImageFormat::Rgb888,
            CoreImageFormat::Rgbf32 => ImageFormat::Rgbf32,
            CoreImageFormat::Nv12 => ImageFormat::Nv12,
            CoreImageFormat::I420 => ImageFormat::I420,
        }
    }
}

impl vstd::std_specs::convert::FromSpecImpl<ImageFormat> for CoreImageFormat {
    open spec fn obeys_from_spec() -> bool {
        true
    }

    open spec fn from_spec(v: ImageFormat) -> CoreImageFormat {
        imageformat_to_core(v)
    }
}

impl From<ImageFormat> for CoreImageFormat {
    fn from(v: ImageFormat) -> (r: CoreImageFormat)
        ensures
            r == imageformat_to_core(v),
    {
        match v {
            ImageFormat::Rgb888 => CoreImageFormat::Rgb888,
            ImageFormat::Rgbf32 => CoreImageFormat::Rgbf32,
            ImageFormat::Nv12 => CoreImageFormat::Nv12,
            ImageFormat::I420 => CoreImageFormat::I420,
        }
    }
}

/// How a source image is fitted into the destination size.
#[derive(Clone, Copy, Debug, PartialEq, Eq, Structural, Hash)]
pub enum FitMode {
    Stretch,
    Contain,
    Crop,
}

pub open spec fn fitmode_to_core(v: FitMode) -> CoreFitMode {
    match v {
        FitMode::Stretch => CoreFitMode::Stretch,
        FitMode::Contain => CoreFitMode::Contain,
        FitMode::Crop => CoreFitMode::Crop,
    }
}

pub open spec fn fitmode_from_core(v: CoreFitMode) -> FitMode {
    match v {
        CoreFitMode::Stretch => FitMode::Stretch,
        CoreFitMode::Contain => FitMode::Contain,
        CoreFitMode::Crop => FitMode::Crop,
    }
}

impl vstd::std_specs::convert::FromSpecImpl<CoreFitMode> for FitMode {
    open spec fn obeys_from_spec() -> bool {
        true
    }

    open spec fn from_spec(v: CoreFitMode) -> FitMode {
        fitmode_from_core(v)
    }
}

impl From<CoreFitMode> for FitMode {
    fn from(v: CoreFitMode) -> (r: FitMode)
        ensures
            r == fitmode_from_core(v),
    {
        match v {
            CoreFitMode::Stretch => FitMode::Stretch,
            CoreFitMode::Contain => FitMode::Contain,
            CoreFitMode::Crop => FitMode::Crop,
        }
    }
}

impl vstd::std_specs::convert::FromSpecImpl<FitMode> for CoreFitMode {
    open spec fn obeys_from_spec() -> bool {
        true
    }

    open spec fn from_spec(v: FitMode) -> CoreFitMode {
        fitmode_to_core(v)
    }
}

impl From<FitMode> for CoreFitMode {
    fn from(v: FitMode) -> (r: CoreFitMode)
        ensures
            r == fitmode_to_core(v),
    {
        match v {
            FitMode::Stretch => CoreFitMode::Stretch,
            FitMode::Contain => CoreFitMode::Contain,
            FitMode::Crop => CoreFitMode::Crop,
        }
    }
}

/// Memory order of an image tensor.
#[derive(Clone, Copy, Debug, PartialEq, Eq, Structural, Hash)]
pub enum TensorLayout {
    Nhwc,
    Nchw,
}

pub open spec fn tensorlayout_to_core(v: TensorLayout) -> CoreTensorLayout {
    match v {
        TensorLayout::Nhwc => CoreTensorLayout::Nhwc,
        TensorLayout::Nchw => CoreTensorLayout::Nchw,
    }
}

pub open spec fn tensorlayout_from_core(v: CoreTensorLayout) -> TensorLayout {
    match v {
        CoreTensorLayout::Nhwc => TensorLayout::Nhwc,
        CoreTensorLayout::Nchw => TensorLayout::Nchw,
    }
}

impl vstd::std_specs::convert::FromSpecImpl<CoreTensorLayout> for TensorLayout {
    open spec fn obeys_from_spec() -> bool {
        true
    }

    open spec fn from_spec(v: CoreTensorLayout) -> TensorLayout {
        tensorlayout_from_core(v)
    }
}

impl From<CoreTensorLayout> for TensorLayout {
    fn from(v: CoreTensorLayout) -> (r: TensorLayout)
        ensures
            r == tensorlayout_from_core(v),
    {
        match v {
            CoreTensorLayout::Nhwc => TensorLayout::Nhwc,
            CoreTensorLayout::Nchw => TensorLayout::Nchw,
        }
    }
}

impl vstd::std_specs::convert::FromSpecImpl<TensorLayout> for CoreTensorLayout {
    open spec fn obeys_from_spec() -> bool {
        true
    }

    open spec fn from_spec(v: TensorLayout) -> CoreTensorLayout {
        tensorlayout_to_core(v)
    }
}

impl From<TensorLayout> for CoreTensorLayout {
    fn from(v: TensorLayout) -> (r: CoreTensorLayout)
        ensures
            r == tensorlayout_to_core(v),
    {
        match v {
            TensorLayout::Nhwc => CoreTensorLayout::Nhwc,
            TensorLayout::Nchw => CoreTensorLayout::Nchw,
        }
    }
}

/// Host-resident image bytes (camera frame, decoded file, and so on).
#[derive(Debug)]
pub struct HardwareImage {
    inner: CoreHardwareImage,
}

impl HardwareImage {
    pub closed spec fn spec_inner(&self) -> CoreHardwareImage {
        self.inner
    }

    pub fn inner(&self) -> (r: &CoreHardwareImage)
        ensures
            *r == self.spec_inner(),
    {
        &self.inner
    }

    pub fn from_inner(inner: CoreHardwareImage) -> (r: HardwareImage)
        ensures
            r.spec_inner() == inner,
    {
        HardwareImage { inner }
    }

    pub fn width(&self) -> (r: u32)
        ensures
            r == self.spec_inner().spec_width(),
    {
        self.inner.width()
    }

    pub fn height(&self) -> (r: u32)
        ensures
            r == self.spec_inner().spec_height(),
    {
        self.inner.height()
    }

    pub fn format(&self) -> (r: ImageFormat)
        ensures
            r == imageformat_from_core(self.spec_inner().spec_format()),
    {
        ImageFormat::from(self.inner.format())
    }
}

/// Wraps `data` as a `width` x `height` image in `format`; the length must match the
/// frame size exactly.
pub fn create_hardware_image(width: u32, height: u32, format: ImageFormat, data: Vec<u8>) -> (r:
    Result<Arc<HardwareImage>, InfersError>)
    ensures
        r is Ok <==> data@.len() == crate::image::frame_size(
            imageformat_to_core(format),
            width as nat,
            height as nat,
        ),
        r matches Ok(img) ==> img.spec_inner().spec_width() == width
            && img.spec_inner().spec_height() == height && img.spec_inner().spec_format()
            == imageformat_to_core(format) && img.spec_inner().spec_data() == data@,
        r matches Err(e) ==> e is InvalidShape,
{
    match CoreHardwareImage::new(width, height, CoreImageFormat::from(format), data) {
        Ok(image) => Ok(Arc::new(HardwareImage::from_inner(image))),
        Err(e) => Err(InfersError::from(e)),
    }
}

/// CPU-resident image sharing the bytes of a [`HardwareImage`].
#[derive(Debug)]
pub struct CpuImage {
    inner: CoreCpuImage,
}

impl CpuImage {
    pub closed spec fn spec_inner(&self) -> CoreCpuImage {
        self.inner
    }

    pub fn from_core(inner: CoreCpuImage) -> (r: CpuImage)
        ensures
            r.spec_inner() == inner,
    {
        CpuImage { inner }
    }

    pub fn width(&self) -> (r: u32)
        ensures
            r == self.spec_inner().spec_hardware().spec_width(),
    {
        self.inner.width()
    }

    pub fn height(&self) -> (r: u32)
        ensures
            r == self.spec_inner().spec_hardware().spec_height(),
    {
        self.inner.height()
    }

    pub fn format(&self) -> (r: ImageFormat)
        ensures
            r == imageformat_from_core(self.spec_inner().spec_hardware().spec_format()),
    {
        ImageFormat::from(self.inner.format())
    }
}

} // verus!
