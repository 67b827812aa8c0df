//! Core types for on-device ML inference: tensor shapes and host tensors,
//! devices, image buffers, backend configuration and the error model that
//! ties them together.

pub mod adapter;
pub mod backend;
pub mod bytes;
pub mod config;
pub mod delegate;
pub mod device;
pub mod error;
pub mod et_error;
pub mod ffi;
pub mod gpu;
pub mod gpu_input;
pub mod image;
pub mod program;
pub mod scalar;
pub mod session;
pub mod tensor;
pub mod text;

pub use adapter::RegistrationState;
pub use backend::{DeviceTransfer, ExecuTorchBackend};
pub use bytes::{bytes_to_vec, cast_bytes, vec_to_bytes, Element};
pub use config::{VulkanOptions, XnnpackOptions};
pub use delegate::ExecuTorchDelegate;
pub use device::{Cpu, Device, DeviceInfo, DeviceKind};
pub use error::CoreError;
pub use et_error::{ExecuTorchError, NativeError};
pub use gpu::{GpuError, YcbcrConversionKey};
pub use image::{CpuImage, DeviceImage, FitMode, HardwareImage, ImageFormat, TensorLayout};
pub use program::{validate_program_bytes, MethodDescriptor, ProgramMetadata, TensorDescriptor};
pub use scalar::{data_type_to_scalar_type, scalar_type_to_data_type, ScalarType};
pub use session::{validate_inputs, Session};
pub use tensor::{DataType, HostBytes, HostTensor, Tensor, TensorAdopt, TensorShape};
