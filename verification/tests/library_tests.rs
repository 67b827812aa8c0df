use infers::adapter::RegistrationState;
use infers::et_error::NativeError;
use infers::ffi::{create_cpu_tensor_from_bytes, DataType as FfiDataType, TensorShape as FfiShape};
use infers::ffi::{
    create_gpu_device, create_hardware_image, create_npu_device, FfiBackend, ImageFormat as FfiImageFormat,
    InfersError,
};
use infers::ffi::{element_bytes, tensor_from_viewed_bytes};
use infers::gpu::{
    buffer_size, check_frame_bytes, check_upload_size, read_prefix, require_gpu, write_prefix,
};
use infers::gpu_input::{mark_staged, plan_gpu_inputs, route_gpu_input, BufferRegion, InputRoute};
use infers::program::{validate_program_bytes, MethodDescriptor, ProgramMetadata, TensorDescriptor};
use infers::session::{
    dims_i32, output_to_cpu_tensor, require_transfer_bytes, validate_element_count, validate_inputs,
};
use infers::text::{decimal_string, format_dims};
use infers::{
    bytes_to_vec, cast_bytes, vec_to_bytes, CoreError, Cpu, DataType, DeviceInfo, DeviceKind,
    ExecuTorchDelegate, ExecuTorchError, GpuError, HardwareImage, HostTensor, ImageFormat,
    ScalarType, Tensor, TensorShape, VulkanOptions, XnnpackOptions,
};

fn shape(dims: &[usize]) -> TensorShape {
    TensorShape::new(dims.to_vec()).unwrap()
}

fn method(inputs: Vec<(TensorShape, DataType)>) -> MethodDescriptor {
    let descs = inputs
        .into_iter()
        .enumerate()
        .map(|(i, (s, d))| TensorDescriptor::new(format!("input_{i}"), s, d))
        .collect();
    MethodDescriptor::new("forward".to_string(), descs, Vec::new())
}

#[test]
fn element_count_and_byte_size_saturate() {
    let s = shape(&[usize::MAX, 2]);
    assert_eq!(s.element_count(), usize::MAX);
    assert_eq!(s.byte_size(DataType::I64), usize::MAX);
    let s = shape(&[2, 3, 5]);
    assert_eq!(s.element_count(), 30);
    assert_eq!(s.byte_size(DataType::I16), 60);
    assert_eq!(DataType::F64.element_size(), 8);
}

#[test]
fn host_tensor_constructors_and_accessors() {
    let s = shape(&[2, 2]);
    let t = HostTensor::from_i32(s.clone(), vec![1, -2, 3, 4]).unwrap();
    assert_eq!(t.as_bytes().len(), 16);
    assert_eq!(t.dtype(), DataType::I32);
    assert_eq!(t.as_slice_i32().unwrap(), &[1, -2, 3, 4]);
    assert!(matches!(
        t.as_slice_u8(),
        Err(CoreError::InvalidDataType { expected: DataType::U8, actual: DataType::I32 })
    ));
    assert!(HostTensor::from_i32(s.clone(), vec![1, 2, 3]).is_err());

    let t64 = HostTensor::from_i64(shape(&[3]), vec![7, 8, 9]).unwrap();
    assert_eq!(t64.as_bytes().len(), 24);
    assert_eq!(t64.as_slice_i64().unwrap(), &[7, 8, 9]);
    assert!(matches!(t64.as_slice_i32(), Err(CoreError::InvalidDataType { .. })));

    let u = HostTensor::from_u8(shape(&[3]), vec![1, 2, 3]).unwrap();
    assert_eq!(u.as_slice_u8().unwrap(), &[1, 2, 3]);
    assert!(matches!(
        HostTensor::from_u8(shape(&[3]), vec![1]),
        Err(CoreError::InvalidShape(_))
    ));
}

#[test]
fn host_tensor_ranges() {
    let u = HostTensor::from_u8(shape(&[6]), vec![1, 2, 3, 4, 5, 6]).unwrap();
    assert_eq!(u.copy_bytes_range(2, 3).unwrap(), vec![3, 4, 5]);
    assert_eq!(u.copy_bytes_range(6, 0).unwrap(), Vec::<u8>::new());
    assert!(matches!(u.copy_bytes_range(4, 3), Err(CoreError::InvalidArgument(_))));
    assert!(matches!(u.copy_bytes_range(usize::MAX, 2), Err(CoreError::InvalidArgument(_))));

    let t = HostTensor::from_i32(shape(&[4]), vec![10, 20, 30, 40]).unwrap();
    assert_eq!(t.copy_i32_range(1, 2).unwrap(), vec![20, 30]);
    assert!(matches!(t.copy_i32_range(3, 2), Err(CoreError::InvalidArgument(_))));
    assert!(matches!(t.copy_i64_range(0, 1), Err(CoreError::InvalidDataType { .. })));
    let t64 = HostTensor::from_i64(shape(&[2]), vec![-1, 5]).unwrap();
    assert_eq!(t64.copy_i64_range(1, 1).unwrap(), vec![5]);
}

#[test]
fn byte_casts() {
    let bytes = vec_to_bytes(&[1i32, 2, 3]).unwrap();
    assert_eq!(bytes.len(), 12);
    assert_eq!(bytes_to_vec::<i32>(&bytes).unwrap(), vec![1, 2, 3]);
    assert!(matches!(cast_bytes::<i32>(&[0u8; 7]), Err(CoreError::InvalidArgument(_))));
    assert_eq!(bytes_to_vec::<i64>(&vec_to_bytes(&[-7i64, 9]).unwrap()).unwrap(), vec![-7, 9]);
    assert_eq!(bytes_to_vec::<u32>(&vec_to_bytes(&[5u32]).unwrap()).unwrap(), vec![5]);
    assert_eq!(cast_bytes::<u8>(&[4, 5]).unwrap(), &[4, 5]);
}

#[test]
fn cpu_store_and_load_roundtrip() {
    let host = HostTensor::from_u8(shape(&[2, 3]), vec![1, 2, 3, 4, 5, 6]).unwrap();
    let t = Tensor::from_host(&Cpu, &host).unwrap();
    assert_eq!(t.byte_size(), 6);
    assert_eq!(t.storage().0, vec![1, 2, 3, 4, 5, 6]);
    let back = t.read_to_host().unwrap();
    assert_eq!(back.as_bytes(), host.as_bytes());
    assert_eq!(back.shape(), host.shape());
    let adopted = Tensor::adopt_host(&host);
    assert_eq!(adopted.read_to_host().unwrap().as_bytes(), host.as_bytes());
    let moved = t.to_device(&Cpu).unwrap();
    assert_eq!(moved.storage().0, vec![1, 2, 3, 4, 5, 6]);
}

#[test]
fn device_names() {
    let gpu = DeviceInfo::gpu(12);
    assert_eq!(gpu.name, "GPU:12");
    assert_eq!(gpu.kind, DeviceKind::Gpu);
    assert_eq!(DeviceInfo::npu(0).name, "NPU:0");
    assert_eq!(Cpu::info().name, "CPU");
    assert_eq!(create_gpu_device(7).name, "GPU:7");
    assert_eq!(create_npu_device(3).id, 3);
    assert_eq!(decimal_string(1020304), "1020304");
    assert_eq!(format_dims(&[1, 3, 224, 224]), "[1, 3, 224, 224]");
    assert_eq!(format_dims(&[]), "[]");
}

#[test]
fn delegates_for_devices() {
    assert_eq!(ExecuTorchDelegate::for_device(&DeviceInfo::cpu()), ExecuTorchDelegate::Xnnpack);
    assert_eq!(ExecuTorchDelegate::for_device(&DeviceInfo::gpu(1)), ExecuTorchDelegate::Vulkan);
    assert_eq!(ExecuTorchDelegate::for_device(&DeviceInfo::npu(2)), ExecuTorchDelegate::Qnn);
    let custom = ExecuTorchDelegate::Custom("mine".to_string());
    assert_eq!(custom.name(), "mine");
    assert!(custom.supports_device_kind(DeviceKind::Npu));
    assert_eq!(ExecuTorchDelegate::PortableCpu.name(), "portable_cpu");
    assert!(!ExecuTorchDelegate::PortableCpu.supports_device_kind(DeviceKind::Gpu));
}

#[test]
fn method_names_default_to_forward() {
    assert_eq!(XnnpackOptions::default().method_name(), "forward");
    let opts = XnnpackOptions { num_threads: 2, method: Some("detect".to_string()) };
    assert_eq!(opts.method_name(), "detect");
    assert_eq!(VulkanOptions::default().method_name(), "forward");
    assert_eq!(VulkanOptions { method: Some("m".to_string()) }.method_name(), "m");
}

#[test]
fn scalar_types_without_counterpart() {
    for dt in [DataType::U8, DataType::I8, DataType::I16, DataType::I32, DataType::I64, DataType::F16, DataType::F32, DataType::F64] {
        let st = infers::data_type_to_scalar_type(dt).unwrap();
        assert_eq!(infers::scalar_type_to_data_type(st).unwrap(), dt);
    }
    assert!(matches!(
        infers::scalar_type_to_data_type(ScalarType::Bool),
        Err(ExecuTorchError::Execution(_))
    ));
}

#[test]
fn program_header_validation() {
    match validate_program_bytes(&[0u8; 16]) {
        Err(ExecuTorchError::InvalidProgram(m)) => {
            assert!(m.contains("too small"));
            assert!(m.ends_with("got 16"));
        }
        other => panic!("unexpected {other:?}"),
    }
    match validate_program_bytes(&[0u8; 64]) {
        Err(ExecuTorchError::InvalidProgram(m)) => assert!(m.contains("ET12")),
        other => panic!("unexpected {other:?}"),
    }
    let mut good = vec![0u8; 64];
    good[4..8].copy_from_slice(b"ET12");
    assert!(validate_program_bytes(&good).is_ok());
    let err = CoreError::from(validate_program_bytes(&[0xDE, 0xAD, 0xBE, 0xEF]).unwrap_err());
    assert!(matches!(err, CoreError::ModelLoadFailed(_)));
}

#[test]
fn program_metadata_add_and_lookup() {
    let mut meta = ProgramMetadata::new();
    assert!(meta.method("forward").is_none());
    meta.add_method(method(vec![(shape(&[1]), DataType::U8)]));
    meta.add_method(MethodDescriptor::new("other".to_string(), Vec::new(), Vec::new()));
    assert_eq!(meta.method("forward").unwrap().inputs.len(), 1);
    meta.add_method(method(vec![]));
    assert_eq!(meta.method("forward").unwrap().inputs.len(), 0);
    assert_eq!(meta.method("other").unwrap().name, "other");
    assert!(meta.method("missing").is_none());
}

#[test]
fn executorch_errors_become_core_errors() {
    let e = CoreError::from(ExecuTorchError::InputCountMismatch { expected: 2, actual: 5 });
    assert!(matches!(e, CoreError::InferenceFailed(ref m) if m == "Input count mismatch: expected 2, got 5"));
    let e = CoreError::from(ExecuTorchError::ShapeMismatch { expected: "a".into(), actual: "b".into() });
    assert!(matches!(e, CoreError::InvalidShape(ref m) if m == "Expected shape a, got b"));
    let e = CoreError::from(ExecuTorchError::MethodNotFound("run".into()));
    assert!(matches!(e, CoreError::ModelLoadFailed(ref m) if m == "Method 'run' not found"));
    let e = CoreError::from(ExecuTorchError::Native(NativeError::InvalidProgram));
    assert!(matches!(e, CoreError::ModelLoadFailed(ref m) if m == "ExecuTorch native error: InvalidProgram"));
    let e = CoreError::from(ExecuTorchError::Native(NativeError::MemoryAllocationFailed));
    assert!(matches!(e, CoreError::InferenceFailed(ref m) if m == "ExecuTorch native error: MemoryAllocationFailed"));
    assert!(matches!(CoreError::from(ExecuTorchError::Execution("x".into())), CoreError::InferenceFailed(_)));
    assert!(matches!(CoreError::from(ExecuTorchError::BufferError("x".into())), CoreError::BufferTransferFailed(_)));
    assert!(matches!(CoreError::from(ExecuTorchError::Io("x".into())), CoreError::ModelLoadFailed(_)));
    assert!(matches!(CoreError::from(ExecuTorchError::InvalidProgram("x".into())), CoreError::ModelLoadFailed(_)));
    assert!(matches!(
        CoreError::from(ExecuTorchError::DataTypeMismatch { expected: DataType::F32, actual: DataType::U8 }),
        CoreError::InvalidDataType { expected: DataType::F32, actual: DataType::U8 }
    ));
    assert!(matches!(
        CoreError::from(ExecuTorchError::DeviceMismatch { expected: DeviceInfo::cpu(), actual: DeviceInfo::gpu(0) }),
        CoreError::DeviceMismatch { .. }
    ));
    assert!(matches!(
        CoreError::from(ExecuTorchError::Core(CoreError::AlreadyConsumed)),
        CoreError::AlreadyConsumed
    ));
}

#[test]
fn core_errors_become_ffi_errors() {
    let e = InfersError::from(CoreError::InvalidDataType { expected: DataType::F32, actual: DataType::I8 });
    assert!(matches!(e, InfersError::UnsupportedType { ref reason } if reason == "Expected F32, got I8"));
    let e = InfersError::from(CoreError::DeviceMismatch { expected: DeviceInfo::cpu(), actual: DeviceInfo::gpu(3) });
    assert!(matches!(e, InfersError::DeviceMismatch { ref expected, ref actual } if expected == "CPU" && actual == "GPU:3"));
    let e = InfersError::from(CoreError::Gpu(GpuError::NoDevice(2)));
    assert!(matches!(e, InfersError::ProcessingFailed { ref reason } if reason == "No compute-capable GPU at index 2"));
    assert!(matches!(InfersError::from(CoreError::InvalidArgument("a".into())), InfersError::InvalidShape { .. }));
    assert!(matches!(InfersError::from(CoreError::BufferTransferFailed("a".into())), InfersError::BufferAllocationFailed { .. }));
    assert!(matches!(InfersError::from(CoreError::ImageResizeFailed("a".into())), InfersError::ProcessingFailed { .. }));
    assert!(matches!(InfersError::from(CoreError::Platform("a".into())), InfersError::PlatformError { .. }));
    assert!(matches!(InfersError::from(CoreError::AlreadyConsumed), InfersError::AlreadyConsumed));
}

#[test]
fn input_validation() {
    let m = method(vec![(shape(&[1, 2]), DataType::F32), (shape(&[3]), DataType::I32)]);
    let a = Tensor::adopt_host(&HostTensor::new(shape(&[1, 2]), DataType::F32, vec![0; 8]).unwrap());
    let b = Tensor::adopt_host(&HostTensor::from_i32(shape(&[3]), vec![1, 2, 3]).unwrap());
    let wrong_shape = Tensor::adopt_host(&HostTensor::from_i32(shape(&[1, 3]), vec![1, 2, 3]).unwrap());
    let wrong_type = Tensor::adopt_host(&HostTensor::from_u8(shape(&[3]), vec![1, 2, 3]).unwrap());
    assert!(validate_inputs(&m, &[&a, &b]).is_ok());
    match validate_inputs(&m, &[&a]) {
        Err(CoreError::InferenceFailed(msg)) => assert_eq!(msg, "Input count mismatch: expected 2, received 1"),
        other => panic!("unexpected {other:?}"),
    }
    match validate_inputs(&m, &[&a, &wrong_shape]) {
        Err(CoreError::InvalidShape(msg)) => assert_eq!(msg, "Input 1 shape mismatch: expected [3], got [1, 3]"),
        other => panic!("unexpected {other:?}"),
    }
    assert!(matches!(
        validate_inputs(&m, &[&a, &wrong_type]),
        Err(CoreError::InvalidDataType { expected: DataType::I32, actual: DataType::U8 })
    ));
}

#[test]
fn gpu_input_validation() {
    let m = method(vec![(shape(&[2]), DataType::U8)]);
    let a = Tensor::adopt_host(&HostTensor::from_u8(shape(&[2]), vec![1, 2]).unwrap());
    let wrong = Tensor::adopt_host(&HostTensor::from_u8(shape(&[1, 2]), vec![1, 2]).unwrap());
    assert!(infers::gpu_input::validate_gpu_inputs(&m, &[&a], &[true], &DeviceInfo::gpu(0)).is_ok());
    assert!(matches!(
        infers::gpu_input::validate_gpu_inputs(&m, &[&a], &[false], &DeviceInfo::gpu(0)),
        Err(CoreError::DeviceMismatch { .. })
    ));
    match infers::gpu_input::validate_gpu_inputs(&m, &[&wrong], &[true], &DeviceInfo::gpu(0)) {
        Err(CoreError::InvalidShape(msg)) => assert_eq!(msg, "Input 0 shape mismatch"),
        other => panic!("unexpected {other:?}"),
    }
}

#[test]
fn runtime_outputs_become_cpu_tensors() {
    let t = output_to_cpu_tensor(&[2, 2], ScalarType::Byte, vec![1, 2, 3, 4]).unwrap();
    assert_eq!(t.shape().dims(), &[2, 2]);
    assert_eq!(t.dtype(), DataType::U8);
    assert_eq!(t.read_to_host().unwrap().as_bytes(), &[1, 2, 3, 4]);
    assert!(matches!(
        output_to_cpu_tensor(&[0, 2], ScalarType::Byte, vec![]),
        Err(ExecuTorchError::Core(CoreError::InvalidShape(_)))
    ));
    assert!(matches!(
        output_to_cpu_tensor(&[2], ScalarType::Bool, vec![1, 0]),
        Err(ExecuTorchError::Execution(_))
    ));
    assert!(matches!(
        output_to_cpu_tensor(&[2], ScalarType::Int, vec![1, 0]),
        Err(ExecuTorchError::Core(CoreError::InvalidShape(_)))
    ));
}

#[test]
fn element_and_transfer_checks() {
    assert_eq!(dims_i32(&shape(&[1, 3, 224])), vec![1, 3, 224]);
    assert!(validate_element_count(&[1u8, 2, 3], &shape(&[3])).is_ok());
    assert!(matches!(
        validate_element_count(&[1u8, 2], &shape(&[3])),
        Err(CoreError::BufferTransferFailed(_))
    ));
    assert!(require_transfer_bytes(8, 8, "x").is_ok());
    match require_transfer_bytes(16, 8, "input 0 source") {
        Err(CoreError::BufferTransferFailed(m)) => {
            assert_eq!(m, "input 0 source needs 16 bytes but only 8 are available")
        }
        other => panic!("unexpected {other:?}"),
    }
}

#[test]
fn gpu_input_routing() {
    let src = BufferRegion { buffer: 1, offset: 0, size: 64 };
    let staging = BufferRegion { buffer: 2, offset: 16, size: 64 };
    assert_eq!(route_gpu_input(0, 32, src, Some(staging)).unwrap(), InputRoute::Staging { copy: true });
    assert_eq!(route_gpu_input(0, 32, staging, Some(staging)).unwrap(), InputRoute::Staging { copy: false });
    assert_eq!(route_gpu_input(0, 32, src, None).unwrap(), InputRoute::HostFallback);
    assert_eq!(route_gpu_input(64, 32, src, Some(staging)).unwrap(), InputRoute::HostFallback);
    assert!(matches!(
        route_gpu_input(3, 128, src, Some(staging)),
        Err(CoreError::BufferTransferFailed(ref m)) if m == "input 3 source needs 128 bytes but only 64 are available"
    ));
    assert_eq!(mark_staged(0b1, 3), 0b1001);

    let gpu = DeviceInfo::gpu(0);
    let devices = vec![gpu.clone(), gpu.clone(), gpu.clone()];
    let (routes, mask) = plan_gpu_inputs(
        &[32, 32, 32],
        &[src, src, staging],
        &[Some(staging), None, Some(staging)],
        &[true, true, true],
        &devices,
        &gpu,
    )
    .unwrap();
    assert_eq!(routes, vec![InputRoute::Staging { copy: true }, InputRoute::HostFallback, InputRoute::Staging { copy: false }]);
    assert_eq!(mask, 0b101);
    assert!(matches!(
        plan_gpu_inputs(&[100], &[src], &[Some(staging)], &[true], &devices[..1], &gpu),
        Err(CoreError::BufferTransferFailed(_))
    ));
    // The context check of an input comes before its routing, after the earlier inputs.
    match plan_gpu_inputs(
        &[32, 100],
        &[src, src],
        &[Some(staging), Some(staging)],
        &[true, false],
        &[gpu.clone(), DeviceInfo::gpu(1)],
        &gpu,
    ) {
        Err(CoreError::DeviceMismatch { expected, actual }) => {
            assert_eq!(expected, gpu);
            assert_eq!(actual, DeviceInfo::gpu(1));
        }
        other => panic!("unexpected result: {other:?}"),
    }
}

#[test]
fn adapter_registration_lifecycle() {
    let mut state = RegistrationState::new();
    assert!(state.check_register(7).is_ok());
    state.record_register(7);
    assert!(state.check_register(7).is_ok());
    state.record_register(7);
    assert!(matches!(state.check_register(8), Err(ExecuTorchError::Execution(_))));
    assert_eq!(state.count(), 2);
    assert!(!state.release());
    assert_eq!(state.device(), Some(7));
    assert!(state.release());
    assert_eq!(state.device(), None);
    assert!(state.check_register(8).is_ok());
    assert!(state.release());
    assert_eq!(state.count(), 0);
}

#[test]
fn gpu_helpers() {
    assert_eq!(buffer_size(0), 4);
    assert_eq!(buffer_size(9), 9);
    let mut mapped = [9u8; 5];
    write_prefix(&mut mapped, &[1, 2]).unwrap();
    assert_eq!(mapped, [1, 2, 9, 9, 9]);
    assert!(matches!(write_prefix(&mut mapped, &[0; 6]), Err(GpuError::Other(_))));
    let mut out = [0u8; 3];
    read_prefix(&mapped, &mut out).unwrap();
    assert_eq!(out, [1, 2, 9]);
    let mut big = [0u8; 6];
    assert!(read_prefix(&mapped, &mut big).is_err());
    assert!(check_upload_size(&shape(&[2, 2]), DataType::I32, 16).is_ok());
    assert!(matches!(check_upload_size(&shape(&[2, 2]), DataType::I32, 15), Err(CoreError::InvalidShape(_))));
    assert!(check_frame_bytes(ImageFormat::Nv12, 4, 4, 24).is_ok());
    assert!(matches!(check_frame_bytes(ImageFormat::Rgb888, 4, 4, 47), Err(CoreError::InvalidImageBuffer(_))));
    assert_eq!(GpuError::Vulkan("ERROR_DEVICE_LOST".into()).message(), "Vulkan error: ERROR_DEVICE_LOST");
    assert!(matches!(CoreError::from(GpuError::Other("x".into())), CoreError::Gpu(GpuError::Other(_))));
}

#[test]
fn image_frame_sizes() {
    assert_eq!(ImageFormat::Rgb888.frame_bytes(4, 4), 48);
    assert_eq!(ImageFormat::Rgbf32.frame_bytes(2, 2), 48);
    assert_eq!(ImageFormat::Nv12.frame_bytes(4, 4), 24);
    assert_eq!(ImageFormat::I420.frame_bytes(3, 3), 17);
    assert!(HardwareImage::new(3, 3, ImageFormat::I420, vec![0; 17]).is_ok());
    let img = create_hardware_image(2, 1, FfiImageFormat::Rgb888, vec![1, 2, 3, 4, 5, 6]).unwrap();
    assert_eq!(img.width(), 2);
    assert_eq!(img.format(), FfiImageFormat::Rgb888);
    assert!(matches!(
        create_hardware_image(2, 1, FfiImageFormat::Rgb888, vec![1]),
        Err(InfersError::InvalidShape { .. })
    ));
}

#[test]
fn ffi_tensors_and_backend() {
    let t = create_cpu_tensor_from_bytes(FfiShape { dims: vec![2, 2] }, FfiDataType::I32, vec![0; 16]).unwrap();
    assert_eq!(t.copy_bytes(4, 4).unwrap(), vec![0; 4]);
    assert_eq!(t.copy_i32(1, 3).unwrap(), vec![0, 0, 0]);
    assert!(matches!(t.copy_i64(0, 1), Err(InfersError::UnsupportedType { .. })));
    assert!(matches!(t.copy_bytes(10, 10), Err(InfersError::InvalidShape { .. })));
    assert_eq!(t.device_info().name, "CPU");
    match create_cpu_tensor_from_bytes(FfiShape { dims: vec![2] }, FfiDataType::F64, vec![0; 16]) {
        Err(InfersError::UnsupportedType { reason }) => {
            assert_eq!(reason, "create_cpu_tensor_from_bytes does not support F64")
        }
        other => panic!("unexpected {other:?}"),
    }
    assert!(matches!(
        create_cpu_tensor_from_bytes(FfiShape { dims: vec![0] }, FfiDataType::U8, vec![]),
        Err(InfersError::InvalidShape { .. })
    ));
    assert!(matches!(
        create_cpu_tensor_from_bytes(FfiShape { dims: vec![2] }, FfiDataType::I64, vec![0; 8]),
        Err(InfersError::InvalidShape { .. })
    ));
    let devices = FfiBackend::new().available_devices();
    assert_eq!(devices.len(), 3);
    assert_eq!(devices[1].name, "GPU:0");
    assert_eq!(devices[2].kind, infers::ffi::DeviceKind::Npu);
}

#[test]
fn error_messages_name_the_offending_values() {
    match TensorShape::new(vec![2, 3, 0, 0]) {
        Err(CoreError::InvalidShape(m)) => assert_eq!(m, "Dimension at index 2 cannot be 0"),
        other => panic!("unexpected result: {other:?}"),
    }
    match TensorShape::new(vec![]) {
        Err(CoreError::InvalidShape(m)) => assert_eq!(m, "Dimensions cannot be empty"),
        other => panic!("unexpected result: {other:?}"),
    }
    match HostTensor::new(shape(&[2, 2]), DataType::I32, vec![0u8; 15]) {
        Err(CoreError::InvalidShape(m)) => {
            assert_eq!(m, "Byte size mismatch: shape requires 16 bytes, got 15")
        }
        other => panic!("unexpected result: {other:?}"),
    }
    match cast_bytes::<i32>(&[0u8; 6]) {
        Err(CoreError::InvalidArgument(m)) => {
            assert_eq!(m, "byte length 6 is not a multiple of element size 4")
        }
        other => panic!("unexpected result: {other:?}"),
    }
    let ints = [1i32, 2, 3];
    match validate_element_count(&ints, &shape(&[2, 2])) {
        Err(CoreError::BufferTransferFailed(m)) => {
            assert_eq!(m, "input has 3 elements, shape requires 4")
        }
        other => panic!("unexpected result: {other:?}"),
    }
}

#[test]
fn shapes_cross_the_ffi_boundary_unchanged() {
    let core = shape(&[1, 3, 224, 224]);
    let ffi = FfiShape::from(core.clone());
    assert_eq!(ffi.dims, vec![1u64, 3, 224, 224]);
    let back = TensorShape::try_from(ffi).unwrap();
    assert_eq!(back.dims(), core.dims());
}

#[test]
fn image_size_mismatch_message() {
    match HardwareImage::new(2, 2, ImageFormat::Rgb888, vec![0u8; 11]) {
        Err(CoreError::InvalidArgument(m)) => {
            assert_eq!(m, "Image data size mismatch: expected 12 bytes, got 11")
        }
        other => panic!("unexpected result: {other:?}"),
    }
    assert_eq!(infers::text::wide_decimal_string(u128::MAX), u128::MAX.to_string());
}

#[test]
fn gpu_and_range_helpers() {
    assert!(require_gpu(&DeviceInfo::gpu(2)).is_ok());
    match require_gpu(&DeviceInfo::cpu()) {
        Err(GpuError::NotGpu(d)) => assert_eq!(d, DeviceInfo::cpu()),
        other => panic!("unexpected result: {other:?}"),
    }
    assert_eq!(element_bytes(3, 5, 4), Some((12, 20)));
    assert_eq!(element_bytes(u64::MAX / 2, 1, 4), None);
    assert_eq!(element_bytes(1, u64::MAX, 4), None);
    match infers::scalar_type_to_data_type(ScalarType::Bool) {
        Err(ExecuTorchError::Execution(m)) => assert_eq!(m, "Unsupported ExecuTorch ScalarType: Bool"),
        other => panic!("unexpected result: {other:?}"),
    }
}

#[test]
fn misaligned_views_and_mappings_are_refused() {
    let storage = vec![0i64; 2];
    let bytes = vec_to_bytes(&storage).unwrap();
    let offset = if bytes.as_ptr() as usize % 4 == 0 { 1 } else { 0 };
    match cast_bytes::<i32>(&bytes[offset..offset + 4]) {
        Err(CoreError::BufferTransferFailed(m)) => assert_eq!(m, "failed to cast byte slice to i32"),
        other => panic!("unexpected result: {other:?}"),
    }
    assert!(matches!(
        infers::gpu_input::check_host_visible_mapping(Some(64), &shape(&[4]), DataType::F32, false),
        Err(CoreError::BufferTransferFailed(_))
    ));
    assert!(infers::gpu_input::check_host_visible_mapping(Some(64), &shape(&[4]), DataType::F32, true).is_ok());
}

#[test]
fn tensors_from_viewed_bytes() {
    let t = tensor_from_viewed_bytes(shape(&[2]), DataType::I32, vec![1, 0, 0, 0, 2, 0, 0, 0], Ok(()))
        .unwrap();
    assert_eq!(t.read_bytes().unwrap(), vec![1, 0, 0, 0, 2, 0, 0, 0]);
    match tensor_from_viewed_bytes(shape(&[3]), DataType::I32, vec![0; 8], Ok(())) {
        Err(InfersError::InvalidShape { reason }) => {
            assert_eq!(reason, "Byte size mismatch: shape requires 12 bytes, got 8")
        }
        other => panic!("unexpected result: {other:?}"),
    }
    match tensor_from_viewed_bytes(
        shape(&[2]),
        DataType::F32,
        vec![0; 8],
        Err(CoreError::BufferTransferFailed("failed to cast byte slice to f32".to_string())),
    ) {
        Err(InfersError::BufferAllocationFailed { reason }) => {
            assert_eq!(reason, "failed to cast byte slice to f32")
        }
        other => panic!("unexpected result: {other:?}"),
    }
    match create_cpu_tensor_from_bytes(FfiShape { dims: vec![2] }, FfiDataType::F32, vec![0; 7]) {
        Err(InfersError::InvalidShape { reason }) => {
            assert_eq!(reason, "byte length 7 is not a multiple of element size 4")
        }
        other => panic!("unexpected result: {other:?}"),
    }
}

#[test]
fn element_copies_report_each_error() {
    let ints = HostTensor::from_i32(shape(&[3]), vec![4, 5, 6]).unwrap();
    assert_eq!(ints.copy_i32_range(1, 2).unwrap(), vec![5, 6]);
    assert!(matches!(ints.copy_i32_range(2, 2), Err(CoreError::InvalidArgument(_))));
    assert!(matches!(ints.copy_i64_range(0, 1), Err(CoreError::InvalidDataType { .. })));
    let t = create_cpu_tensor_from_bytes(FfiShape { dims: vec![2] }, FfiDataType::I64, vec_to_bytes(&[7i64, 8]).unwrap())
        .unwrap();
    assert_eq!(t.copy_i64(1, 1).unwrap(), vec![8]);
    assert!(matches!(t.copy_i64(1, 2), Err(InfersError::InvalidShape { .. })));
    assert!(matches!(t.copy_i32(0, 1), Err(InfersError::UnsupportedType { .. })));
}
