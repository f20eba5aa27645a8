use cl::device::Device;
use cl::info::{
    CL_DEVICE_BUILT_IN_KERNELS, CL_DEVICE_EXTENSIONS, CL_DEVICE_IMAGE_SUPPORT,
    CL_DEVICE_MAX_COMPUTE_UNITS, CL_DEVICE_MAX_MEM_ALLOC_SIZE, CL_DEVICE_MAX_WORK_ITEM_SIZES,
    CL_DEVICE_NAME, CL_DEVICE_PARENT_DEVICE, CL_DEVICE_PLATFORM, CL_DEVICE_TYPE,
    CL_DEVICE_TYPE_GPU, CL_DEVICE_VENDOR_ID, CL_INVALID_VALUE,
};
use cl::store::InfoEntry;

fn entry(key: u32, bytes: Vec<u8>) -> InfoEntry {
    InfoEntry { key, bytes }
}

#[test]
fn integer_attributes_decode() {
    let d = Device {
        id: 1,
        info: vec![
            entry(CL_DEVICE_TYPE, vec![4, 0, 0, 0, 0, 0, 0, 0]),
            entry(CL_DEVICE_MAX_COMPUTE_UNITS, vec![36, 0, 0, 0]),
            entry(
                CL_DEVICE_MAX_MEM_ALLOC_SIZE,
                vec![0, 0, 0, 0, 1, 0, 0, 0],
            ),
        ],
    };
    assert_eq!(d.device_type(), CL_DEVICE_TYPE_GPU);
    assert_eq!(d.max_compute_units(), 36);
    assert_eq!(d.max_mem_alloc_size(), 1 << 32);
}

#[test]
fn wide_buffer_wraps_in_a_narrow_attribute() {
    let d = Device {
        id: 1,
        info: vec![entry(CL_DEVICE_VENDOR_ID, vec![0x22, 0x10, 0, 0, 0x99, 0, 0, 0])],
    };
    assert_eq!(d.vendor_id(), 0x1022);
}

#[test]
fn flag_attributes_decode() {
    let on = Device {
        id: 1,
        info: vec![entry(CL_DEVICE_IMAGE_SUPPORT, vec![1, 0, 0, 0])],
    };
    let off = Device {
        id: 2,
        info: vec![entry(CL_DEVICE_IMAGE_SUPPORT, vec![0, 0, 0, 0])],
    };
    assert!(on.image_support());
    assert!(!off.image_support());
}

#[test]
fn text_attributes_decode() {
    let d = Device {
        id: 1,
        info: vec![entry(CL_DEVICE_NAME, b"Verity 9000\0".to_vec())],
    };
    assert_eq!(d.name(), "Verity 9000");
}

#[test]
fn extension_list_splits_on_spaces() {
    let d = Device {
        id: 1,
        info: vec![entry(
            CL_DEVICE_EXTENSIONS,
            b"cl_khr_fp64 cl_khr_int64_base_atomics\0".to_vec(),
        )],
    };
    assert_eq!(
        d.extensions(),
        vec!["cl_khr_fp64", "cl_khr_int64_base_atomics"]
    );
}

#[test]
fn empty_extension_text_is_one_empty_entry() {
    let d = Device {
        id: 1,
        info: vec![entry(CL_DEVICE_EXTENSIONS, b"\0".to_vec())],
    };
    assert_eq!(d.extensions(), vec![""]);
}

#[test]
fn kernel_list_splits_on_semicolons() {
    let d = Device {
        id: 1,
        info: vec![entry(
            CL_DEVICE_BUILT_IN_KERNELS,
            b"scan;reduce\0".to_vec(),
        )],
    };
    assert_eq!(d.built_in_kernels(), vec!["scan", "reduce"]);
}

#[test]
fn work_item_sizes_decode_as_an_array() {
    let mut bytes = vec![0u8; 24];
    bytes[0] = 0;
    bytes[1] = 4; // 1024
    bytes[8] = 0;
    bytes[9] = 1; // 256
    bytes[16] = 64;
    let d = Device {
        id: 1,
        info: vec![entry(CL_DEVICE_MAX_WORK_ITEM_SIZES, bytes)],
    };
    assert_eq!(d.max_work_item_sizes(), vec![1024, 256, 64]);
}

#[test]
fn raw_query_returns_the_stored_buffer() {
    let d = Device {
        id: 1,
        info: vec![entry(CL_DEVICE_NAME, b"X\0".to_vec())],
    };
    assert_eq!(d.get_info(CL_DEVICE_NAME), Ok(b"X\0".to_vec()));
    assert_eq!(d.get_info(CL_DEVICE_EXTENSIONS), Err(CL_INVALID_VALUE));
}

#[test]
fn first_entry_under_a_code_wins() {
    let d = Device {
        id: 1,
        info: vec![
            entry(CL_DEVICE_MAX_COMPUTE_UNITS, vec![7, 0, 0, 0]),
            entry(CL_DEVICE_MAX_COMPUTE_UNITS, vec![9, 0, 0, 0]),
        ],
    };
    assert_eq!(d.max_compute_units(), 7);
}

#[test]
fn parent_and_platform_carry_the_stored_identifier() {
    let d = Device {
        id: 5,
        info: vec![
            entry(CL_DEVICE_PARENT_DEVICE, vec![0xCD, 0xAB, 0, 0, 0, 0, 0, 0]),
            entry(CL_DEVICE_PLATFORM, vec![0x34, 0x12, 0, 0, 0, 0, 0, 0]),
        ],
    };
    assert_eq!(d.parent_device().id, 0xABCD);
    assert_eq!(d.platform().id, 0x1234);
}

#[test]
fn multibyte_text_attributes_decode_as_utf8() {
    let mut name = vec![0x4Bu8, 0x61, 0x66, 0x66, 0x65, 0x65, 0x6B, 0x61, 0x6E, 0x6E, 0x65];
    name.extend([0x20, 0xC3, 0xA4, 0x00]);
    let d = Device {
        id: 1,
        info: vec![entry(CL_DEVICE_NAME, name)],
    };
    assert_eq!(d.name(), "Kaffeekanne \u{e4}");
}

#[test]
fn multibyte_extension_pieces_decode_as_utf8() {
    let d = Device {
        id: 1,
        info: vec![entry(
            CL_DEVICE_EXTENSIONS,
            vec![0x61, 0x20, 0xC3, 0xA9, 0x00],
        )],
    };
    assert_eq!(d.extensions(), vec!["a", "\u{e9}"]);
}

#[test]
fn a_device_clone_answers_alike() {
    let d = Device {
        id: 3,
        info: vec![
            entry(CL_DEVICE_MAX_COMPUTE_UNITS, vec![12, 0, 0, 0]),
            entry(CL_DEVICE_NAME, b"Twin\0".to_vec()),
        ],
    };
    let c = d.clone();
    assert_eq!(c.id, 3);
    assert_eq!(c.max_compute_units(), 12);
    assert_eq!(c.name(), "Twin");
}
