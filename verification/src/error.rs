use vstd::prelude::*;

use crate::device::DeviceInfo;
use crate::gpu::GpuError;
use crate::tensor::DataType;

verus! {

/// Errors raised by the core tensor, device and image types.
#[derive(Debug)]
pub enum CoreError {
    DeviceMismatch { expected: DeviceInfo, actual: DeviceInfo },
    InvalidShape(String),
    InvalidDataType { expected: DataType, actual: DataType },
    BufferTransferFailed(String),
    ModelLoadFailed(String),
    InferenceFailed(String),
    InvalidArgument(String),
    InvalidImageBuffer(String),
    ImageResizeFailed(String),
    Platform(String),
    Gpu(GpuError),
    AlreadyConsumed,
}

} // verus!
