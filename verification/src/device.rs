use vstd::prelude::*;

use std::sync::Arc;

use crate::error::CoreError;
use crate::image::{CpuImage, HardwareImage};
use crate::text::{decimal, with_number};
use crate::tensor::{byte_size_of, DataType, HostBytes, HostTensor, TensorShape};

verus! {

/// Class of execution device.
#[derive(Clone, Copy, Debug, PartialEq, Eq, Structural, Hash)]
pub enum DeviceKind {
    Cpu,
    Gpu,
    Npu,
}

/// Identity of an execution device.
#[derive(Debug, PartialEq, Eq, Hash)]
pub struct DeviceInfo {
    pub kind: DeviceKind,
    pub id: usize,
    pub name: String,
}

impl Clone for DeviceInfo {
    fn clone(&self) -> (r: Self)
        ensures
            r == *self,
    {
        DeviceInfo { kind: self.kind, id: self.id, name: self.name.clone() }
    }
}

impl DeviceInfo {
    /// The host CPU: id 0, named `"CPU"`.
    pub fn cpu() -> (r: DeviceInfo)
        ensures
            r.kind == DeviceKind::Cpu,
            r.id == 0,
            r.name@ == "CPU"@,
    {
        DeviceInfo { kind: DeviceKind::Cpu, id: 0, name: String::from_str("CPU") }
    }

    /// GPU number `id`, named `"GPU:<id>"`.
    pub fn gpu(id: usize) -> (r: DeviceInfo)
        ensures
            r.kind == DeviceKind::Gpu,
            r.id == id,
            r.name@ == "GPU:"@ + decimal(id as nat),
    {
        DeviceInfo { kind: DeviceKind::Gpu, id, name: with_number("GPU:", id as u64) }
    }

    /// NPU number `id`, named `"NPU:<id>"`.
    pub fn npu(id: usize) -> (r: DeviceInfo)
        ensures
            r.kind == DeviceKind::Npu,
            r.id == id,
            r.name@ == "NPU:"@ + decimal(id as nat),
    {
        DeviceInfo { kind: DeviceKind::Npu, id, name: with_number("NPU:", id as u64) }
    }
}

/// Logical CPU execution device (zero-sized; host storage lives in [`crate::HostTensor`]).
#[derive(Clone, Copy, Debug, Default, PartialEq, Eq, Structural, Hash)]
pub struct Cpu;

impl Cpu {
    /// Description of the host CPU device: kind `Cpu`, id 0, name `"CPU"`.
    pub fn info() -> (r: DeviceInfo)
        ensures
            r.kind == DeviceKind::Cpu,
            r.id == 0,
            r.name@ == "CPU"@,
    {
        DeviceInfo::cpu()
    }
}

/// Execution device handle. Each implementor owns its context and storage types.
pub trait Device: Sized + Clone + 'static {
    type Storage: Clone + core::fmt::Debug;

    type Image;

    /// The bytes that `storage` holds, where the device describes them (see
    /// [`Device::contents_known`]).
    open spec fn contents(storage: &Self::Storage) -> Seq<u8> {
        arbitrary()
    }

    /// Whether [`Device::contents`] describes this device's storage, so that what is
    /// stored and loaded can be stated. Not promised unless the device says so.
    open spec fn contents_known() -> bool {
        false
    }

    /// Whether storing and loading correctly sized data always succeeds on this device.
    /// Not promised unless the device says so.
    open spec fn reliable() -> bool {
        false
    }

    /// Whether `storage` lives in host memory as bytes the CPU can take over. Not
    /// promised unless the device says so.
    open spec fn stored_on_host(storage: &Self::Storage) -> bool {
        false
    }

    fn info(&self) -> DeviceInfo;

    /// Copies `bytes`, laid out as `shape` and `dtype`, into device storage.
    fn store(&self, shape: &TensorShape, dtype: DataType, bytes: &[u8]) -> (r: Result<
        Self::Storage,
        CoreError,
    >)
        ensures
            Self::contents_known() ==> (r matches Ok(s) ==> Self::contents(&s) == bytes@),
            bytes@.len() != shape.spec_byte_size(dtype) ==> r is Err,
            Self::reliable() && bytes@.len() == shape.spec_byte_size(dtype) ==> r is Ok,
    ;

    /// Copies `storage` back into a host tensor of `shape` and `dtype`.
    fn load(&self, storage: &Self::Storage, shape: &TensorShape, dtype: DataType) -> (r: Result<
        HostTensor,
        CoreError,
    >)
        ensures
            r matches Ok(h) ==> h.spec_shape() == shape@ && h.spec_dtype() == dtype,
            Self::contents_known() ==> (r matches Ok(h) ==> h.spec_bytes() == Self::contents(storage)),
            Self::reliable() && Self::contents(storage).len() == byte_size_of(shape@, dtype)
                ==> r is Ok,
    ;

    /// The storage as host bytes, when this device keeps tensors in host memory.
    fn host_bytes(storage: &Self::Storage) -> (r: Option<&HostBytes>)
        ensures
            r is Some <==> Self::stored_on_host(storage),
            r matches Some(b) ==> b.0@ == Self::contents(storage),
    ;

    fn upload_image(&self, host: &HardwareImage) -> Result<Self::Image, CoreError>;
}

/// `info` is a description `device.info()` may give of `device`.
pub open spec fn reports_info<D: Device>(device: D, info: DeviceInfo) -> bool {
    call_ensures(D::info, (&device,), info)
}

impl Device for Cpu {
    type Storage = HostBytes;

    type Image = CpuImage;

    open spec fn contents(storage: &HostBytes) -> Seq<u8> {
        storage.0@
    }

    open spec fn contents_known() -> bool {
        true
    }

    open spec fn reliable() -> bool {
        true
    }

    open spec fn stored_on_host(storage: &HostBytes) -> bool {
        true
    }

    fn info(&self) -> (r: DeviceInfo)
        ensures
            r.kind == DeviceKind::Cpu,
            r.id == 0,
            r.name@ == "CPU"@,
    {
        Cpu::info()
    }

    /// Copies the bytes after checking that they fill the shape exactly.
    fn store(&self, shape: &TensorShape, dtype: DataType, bytes: &[u8]) -> (r: Result<
        HostBytes,
        CoreError,
    >)
        ensures
            r is Ok <==> bytes@.len() == shape.spec_byte_size(dtype),
            r matches Err(e) ==> e is InvalidShape,
    {
        if bytes.len() != shape.byte_size(dtype) {
            return Err(
                CoreError::InvalidShape(
                    "Upload size does not match the shape's byte size".to_string(),
                ),
            );
        }
        Ok(HostBytes(vstd::slice::slice_to_vec(bytes)))
    }

    fn load(&self, storage: &HostBytes, shape: &TensorShape, dtype: DataType) -> (r: Result<
        HostTensor,
        CoreError,
    >)
        ensures
            r is Ok <==> storage.0@.len() == byte_size_of(shape@, dtype),
            r matches Err(e) ==> e is InvalidShape,
    {
        let bytes = storage.0.clone();
        assert(bytes@ =~= storage.0@);
        HostTensor::new(shape.clone(), dtype, bytes)
    }

    fn host_bytes(storage: &HostBytes) -> (r: Option<&HostBytes>)
        ensures
            r == Some(storage),
    {
        Some(storage)
    }

    /// Wraps a copy of the image bytes; CPU images need no upload.
    fn upload_image(&self, host: &HardwareImage) -> (r: Result<CpuImage, CoreError>)
        ensures
            r matches Ok(img) && img.spec_hardware().spec_data() == host.spec_data()
                && img.spec_hardware().spec_width() == host.spec_width()
                && img.spec_hardware().spec_height() == host.spec_height()
                && img.spec_hardware().spec_format() == host.spec_format(),
    {
        Ok(CpuImage::from_hardware(Arc::new(host.clone())))
    }
}

} // verus!
