use cl::device::Device;
use cl::info::{
    CL_DEVICE_NOT_FOUND, CL_DEVICE_TYPE, CL_DEVICE_TYPE_ACCELERATOR, CL_DEVICE_TYPE_ALL,
    CL_DEVICE_TYPE_CPU, CL_DEVICE_TYPE_CUSTOM, CL_DEVICE_TYPE_GPU, CL_INVALID_DEVICE_TYPE,
    CL_INVALID_VALUE, CL_PLATFORM_EXTENSIONS, CL_PLATFORM_NAME, CL_PLATFORM_PROFILE,
    CL_PLATFORM_VENDOR, CL_PLATFORM_VERSION,
};
use cl::platform::Platform;
use cl::store::InfoEntry;

fn entry(key: u32, bytes: Vec<u8>) -> InfoEntry {
    InfoEntry { key, bytes }
}

fn typed_device(id: u64, device_type: u64) -> Device {
    Device {
        id,
        info: vec![entry(CL_DEVICE_TYPE, device_type.to_le_bytes().to_vec())],
    }
}

fn sample_platform() -> Platform {
    Platform {
        id: 1,
        info: vec![
            entry(CL_PLATFORM_PROFILE, b"FULL_PROFILE\0".to_vec()),
            entry(CL_PLATFORM_VERSION, b"OpenCL 1.2\0".to_vec()),
            entry(CL_PLATFORM_NAME, b"Verity\0".to_vec()),
            entry(CL_PLATFORM_VENDOR, b"Acme\0".to_vec()),
            entry(CL_PLATFORM_EXTENSIONS, b"cl_khr_icd cl_khr_gl_sharing\0".to_vec()),
        ],
        devs: vec![
            typed_device(10, CL_DEVICE_TYPE_GPU),
            typed_device(11, CL_DEVICE_TYPE_CPU),
            typed_device(12, CL_DEVICE_TYPE_CUSTOM),
        ],
    }
}

#[test]
fn platform_text_attributes_decode() {
    let p = sample_platform();
    assert_eq!(p.profile(), "FULL_PROFILE");
    assert_eq!(p.version(), "OpenCL 1.2");
    assert_eq!(p.name(), "Verity");
    assert_eq!(p.vendor(), "Acme");
}

#[test]
fn platform_extension_list_splits_on_spaces() {
    let p = sample_platform();
    assert_eq!(p.extensions(), vec!["cl_khr_icd", "cl_khr_gl_sharing"]);
}

#[test]
fn raw_query_reports_an_unknown_code() {
    let p = sample_platform();
    assert_eq!(p.get_info(CL_PLATFORM_NAME), Ok("Verity".to_string()));
    assert_eq!(p.get_info(0x0905), Err(CL_INVALID_VALUE));
}

#[test]
fn a_concrete_mask_selects_by_shared_bits() {
    let p = sample_platform();
    let cpus = p.devices(CL_DEVICE_TYPE_CPU).unwrap();
    assert_eq!(cpus.len(), 1);
    assert_eq!(cpus[0].id, 11);

    let both = p.devices(CL_DEVICE_TYPE_GPU | CL_DEVICE_TYPE_CPU).unwrap();
    assert_eq!(both.iter().map(|d| d.id).collect::<Vec<u64>>(), vec![10, 11]);
}

#[test]
fn the_all_mask_leaves_custom_devices_out() {
    let p = sample_platform();
    let all = p.devices(CL_DEVICE_TYPE_ALL).unwrap();
    assert_eq!(all.iter().map(|d| d.id).collect::<Vec<u64>>(), vec![10, 11]);
}

#[test]
fn an_empty_selection_is_reported() {
    let p = sample_platform();
    assert_eq!(
        p.devices(CL_DEVICE_TYPE_ACCELERATOR).err().unwrap(),
        CL_DEVICE_NOT_FOUND
    );
}

#[test]
fn an_invalid_mask_is_reported() {
    let p = sample_platform();
    assert_eq!(p.devices(0).err().unwrap(), CL_INVALID_DEVICE_TYPE);
    assert_eq!(p.devices(0x20).err().unwrap(), CL_INVALID_DEVICE_TYPE);
}

#[test]
fn a_platform_clone_answers_alike() {
    let p = sample_platform();
    let c = p.clone();
    assert_eq!(c.id, 1);
    assert_eq!(c.name(), "Verity");
    let all = c.devices(CL_DEVICE_TYPE_ALL).unwrap();
    assert_eq!(all.len(), 2);
}
