use infers::{
    data_type_to_scalar_type, scalar_type_to_data_type, validate_program_bytes, DataType,
    DeviceInfo, DeviceKind, ExecuTorchBackend, ExecuTorchDelegate, ExecuTorchError, ScalarType,
};

#[test]
fn executorch_tests_test_data_type_scalar_type_conversions() {
    assert_eq!(data_type_to_scalar_type(DataType::F32).unwrap(), ScalarType::Float);
    assert_eq!(data_type_to_scalar_type(DataType::U8).unwrap(), ScalarType::Byte);
    assert_eq!(data_type_to_scalar_type(DataType::I32).unwrap(), ScalarType::Int);
    assert_eq!(data_type_to_scalar_type(DataType::I64).unwrap(), ScalarType::Long);
    assert_eq!(data_type_to_scalar_type(DataType::F16).unwrap(), ScalarType::Half);

    assert_eq!(scalar_type_to_data_type(ScalarType::Float).unwrap(), DataType::F32);
    assert_eq!(scalar_type_to_data_type(ScalarType::Byte).unwrap(), DataType::U8);
    assert_eq!(scalar_type_to_data_type(ScalarType::Int).unwrap(), DataType::I32);
    assert_eq!(scalar_type_to_data_type(ScalarType::Long).unwrap(), DataType::I64);
    assert_eq!(scalar_type_to_data_type(ScalarType::Half).unwrap(), DataType::F16);
}

#[test]
fn test_executorch_backend_devices() {
    let backend = ExecuTorchBackend::new();
    let devices = backend.available_devices();
    assert_eq!(devices.len(), 3);
    assert_eq!(devices[0], DeviceInfo::cpu());
    assert_eq!(devices[1], DeviceInfo::gpu(0));
    assert_eq!(devices[2], DeviceInfo::npu(0));
}

#[test]
fn executorch_tests_test_delegate_configuration_and_device_selection() {
    let xnnpack = ExecuTorchDelegate::Xnnpack;
    assert_eq!(xnnpack.name(), "xnnpack");
    assert!(xnnpack.supports_device_kind(DeviceKind::Cpu));
    assert!(!xnnpack.supports_device_kind(DeviceKind::Gpu));

    let vulkan = ExecuTorchDelegate::Vulkan;
    assert_eq!(vulkan.name(), "vulkan");
    assert!(vulkan.supports_device_kind(DeviceKind::Gpu));
    assert!(!vulkan.supports_device_kind(DeviceKind::Cpu));

    let qnn = ExecuTorchDelegate::Qnn;
    assert_eq!(qnn.name(), "qnn");
    assert!(qnn.supports_device_kind(DeviceKind::Npu));

    let coreml = ExecuTorchDelegate::CoreMl;
    assert_eq!(coreml.name(), "coreml");
    assert!(coreml.supports_device_kind(DeviceKind::Gpu));
    assert!(coreml.supports_device_kind(DeviceKind::Npu));
}

#[test]
fn executorch_tests_test_invalid_program_bytes_rejected_before_native_load() {
    let too_small = validate_program_bytes(&[0u8; 16]);
    assert!(too_small.is_err());
    match too_small.unwrap_err() {
        ExecuTorchError::InvalidProgram(msg) => {
            assert!(msg.contains("too small"));
        }
        other => panic!("expected InvalidProgram, got {other:?}"),
    }

    let wrong_magic = validate_program_bytes(&[0u8; 64]);
    assert!(wrong_magic.is_err());
    match wrong_magic.unwrap_err() {
        ExecuTorchError::InvalidProgram(msg) => {
            assert!(msg.contains("ET12"));
        }
        other => panic!("expected InvalidProgram, got {other:?}"),
    }
}
