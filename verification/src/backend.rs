use vstd::prelude::*;

use crate::device::{DeviceInfo, DeviceKind};
use crate::error::CoreError;
use crate::tensor::{DataType, HostTensor, TensorShape};
use crate::text::decimal;

verus! {

/// Performs host-to-device tensor transfers (for example through a shared GPU context).
pub trait DeviceTransfer {
    /// Device-resident buffer produced by an upload.
    type Buffer;

    /// Uploads the contents of a host tensor.
    fn upload_tensor(&self, host: &HostTensor) -> Result<Self::Buffer, CoreError>;

    /// Uploads raw little-endian bytes laid out as `shape` and `dtype`.
    fn upload_bytes(
        &self,
        device: &DeviceInfo,
        shape: TensorShape,
        dtype: DataType,
        bytes: &[u8],
    ) -> Result<Self::Buffer, CoreError>;
}

/// The ExecuTorch inference backend.
#[derive(Clone, Copy, Debug, Default)]
pub struct ExecuTorchBackend;

/// The devices the backend can run on: the CPU, then GPU 0, then NPU 0.
pub open spec fn backend_devices_ok(devices: Seq<DeviceInfo>) -> bool {
    &&& devices.len() == 3
    &&& devices[0].kind == DeviceKind::Cpu && devices[0].id == 0 && devices[0].name@ == "CPU"@
    &&& devices[1].kind == DeviceKind::Gpu && devices[1].id == 0 && devices[1].name@ == "GPU:"@
        + decimal(0)
    &&& devices[2].kind == DeviceKind::Npu && devices[2].id == 0 && devices[2].name@ == "NPU:"@
        + decimal(0)
}

impl ExecuTorchBackend {
    pub fn new() -> (r: Self)
        ensures
            r == ExecuTorchBackend,
    {
        ExecuTorchBackend
    }

    /// The CPU, GPU 0 and NPU 0, in that order.
    pub fn available_devices(&self) -> (r: Vec<DeviceInfo>)
        ensures
            backend_devices_ok(r@),
    {
        let mut v: Vec<DeviceInfo> = Vec::new();
        v.push(DeviceInfo::cpu());
        v.push(DeviceInfo::gpu(0));
        v.push(DeviceInfo::npu(0));
        v
    }
}

} // verus!
