use infers::ffi::shapes_to_ffi;
use infers::gpu::{first_compute_queue_family, select_compute_device, select_device_extensions};
use infers::gpu_input::check_host_visible_mapping;
use infers::{CoreError, DataType, GpuError, TensorShape};

fn names(v: &[&str]) -> Vec<String> {
    v.iter().map(|s| s.to_string()).collect()
}

#[test]
fn compute_queue_family_is_the_first_with_compute() {
    assert_eq!(first_compute_queue_family(&[false, true, true]), Some(1));
    assert_eq!(first_compute_queue_family(&[false, false]), None);
    assert_eq!(first_compute_queue_family(&[]), None);
}

#[test]
fn compute_device_selection_skips_devices_without_compute() {
    assert_eq!(select_compute_device(&[true, false, true], 0).unwrap(), 0);
    assert_eq!(select_compute_device(&[true, false, true], 1).unwrap(), 2);
    assert!(matches!(select_compute_device(&[true, false, true], 2), Err(GpuError::NoDevice(2))));
    assert!(matches!(select_compute_device(&[], 0), Err(GpuError::NoDevice(0))));
}

#[test]
fn device_extensions_for_old_and_new_devices() {
    let extra = names(&["VK_ANDROID_external_memory", "VK_missing"]);
    let modern = select_device_extensions(2, &names(&["VK_ANDROID_external_memory"]), &extra).unwrap();
    assert_eq!(modern, names(&["VK_ANDROID_external_memory"]));

    let available = names(&["VK_KHR_shader_float16_int8", "VK_KHR_8bit_storage", "VK_KHR_16bit_storage"]);
    let old = select_device_extensions(1, &available, &[]).unwrap();
    assert_eq!(old, names(&["VK_KHR_8bit_storage", "VK_KHR_shader_float16_int8", "VK_KHR_16bit_storage"]));

    match select_device_extensions(1, &names(&["VK_KHR_shader_float16_int8"]), &[]) {
        Err(GpuError::MissingFeature(m)) => assert_eq!(m, "VK_KHR_8bit_storage"),
        other => panic!("unexpected {other:?}"),
    }
    match select_device_extensions(0, &names(&["VK_KHR_8bit_storage"]), &[]) {
        Err(GpuError::MissingFeature(m)) => assert_eq!(m, "VK_KHR_shader_float16_int8"),
        other => panic!("unexpected {other:?}"),
    }
}

#[test]
fn host_visible_mapping_checks() {
    let shape = TensorShape::new(vec![2, 2]).unwrap();
    assert!(check_host_visible_mapping(Some(16), &shape, DataType::F32, true).is_ok());
    assert!(check_host_visible_mapping(Some(4), &shape, DataType::U8, false).is_ok());
    assert!(matches!(
        check_host_visible_mapping(None, &shape, DataType::U8, true),
        Err(CoreError::BufferTransferFailed(_))
    ));
    assert!(matches!(
        check_host_visible_mapping(Some(15), &shape, DataType::F32, true),
        Err(CoreError::BufferTransferFailed(_))
    ));
    assert!(matches!(
        check_host_visible_mapping(Some(16), &shape, DataType::F32, false),
        Err(CoreError::BufferTransferFailed(_))
    ));
    assert!(matches!(
        check_host_visible_mapping(Some(64), &shape, DataType::I64, true),
        Err(CoreError::InferenceFailed(_))
    ));
}

#[test]
fn shapes_convert_for_ffi() {
    let shapes = vec![TensorShape::new(vec![1, 3]).unwrap(), TensorShape::new(vec![7]).unwrap()];
    let out = shapes_to_ffi(&shapes);
    assert_eq!(out.len(), 2);
    assert_eq!(out[0].dims, vec![1, 3]);
    assert_eq!(out[1].dims, vec![7]);
}
