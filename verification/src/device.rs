//! A compute device and its capability accessors.
//!
//! A `Device` holds its native identifier and the raw attribute buffers
//! that the discovery layer fetched for it.  Each accessor decodes one
//! attribute from its stored buffer, exactly as the contract states: a
//! little-endian integer (wrapping at the register width), a packed array
//! of 64-bit integers, or a zero-terminated text.

use vstd::prelude::*;

use crate::codec::{
    is_text, le32, le64, le_chunks, le_u32_of, le_u64_of, le_u64s_of, text_list, text_of,
    text_pieces, text_string, SEMICOLON, SPACE,
};
use crate::info::{
    CL_DEVICE_ADDRESS_BITS, CL_DEVICE_AVAILABLE, CL_DEVICE_BUILT_IN_KERNELS,
    CL_DEVICE_COMPILER_AVAILABLE, CL_DEVICE_DOUBLE_FP_CONFIG, CL_DEVICE_ENDIAN_LITTLE,
    CL_DEVICE_ERROR_CORRECTION_SUPPORT, CL_DEVICE_EXECUTION_CAPABILITIES, CL_DEVICE_EXTENSIONS,
    CL_DEVICE_GLOBAL_MEM_CACHELINE_SIZE, CL_DEVICE_GLOBAL_MEM_CACHE_SIZE, CL_DEVICE_GLOBAL_MEM_CACHE_TYPE,
    CL_DEVICE_GLOBAL_MEM_SIZE, CL_DEVICE_HOST_UNIFIED_MEMORY, CL_DEVICE_IMAGE2D_MAX_HEIGHT,
    CL_DEVICE_IMAGE2D_MAX_WIDTH, CL_DEVICE_IMAGE3D_MAX_DEPTH, CL_DEVICE_IMAGE3D_MAX_HEIGHT,
    CL_DEVICE_IMAGE3D_MAX_WIDTH, CL_DEVICE_IMAGE_MAX_ARRAY_SIZE, CL_DEVICE_IMAGE_MAX_BUFFER_SIZE,
    CL_DEVICE_IMAGE_SUPPORT, CL_DEVICE_LINKER_AVAILABLE, CL_DEVICE_LOCAL_MEM_SIZE,
    CL_DEVICE_LOCAL_MEM_TYPE, CL_DEVICE_MAX_CLOCK_FREQUENCY, CL_DEVICE_MAX_COMPUTE_UNITS,
    CL_DEVICE_MAX_CONSTANT_ARGS, CL_DEVICE_MAX_CONSTANT_BUFFER_SIZE, CL_DEVICE_MAX_MEM_ALLOC_SIZE,
    CL_DEVICE_MAX_PARAMETER_SIZE, CL_DEVICE_MAX_READ_IMAGE_ARGS, CL_DEVICE_MAX_SAMPLERS,
    CL_DEVICE_MAX_WORK_GROUP_SIZE, CL_DEVICE_MAX_WORK_ITEM_DIMENSIONS, CL_DEVICE_MAX_WORK_ITEM_SIZES,
    CL_DEVICE_MAX_WRITE_IMAGE_ARGS, CL_DEVICE_MEM_BASE_ADDR_ALIGN, CL_DEVICE_MIN_DATA_TYPE_ALIGN_SIZE,
    CL_DEVICE_NAME, CL_DEVICE_NATIVE_VECTOR_WIDTH_CHAR, CL_DEVICE_NATIVE_VECTOR_WIDTH_DOUBLE,
    CL_DEVICE_NATIVE_VECTOR_WIDTH_FLOAT, CL_DEVICE_NATIVE_VECTOR_WIDTH_HALF, CL_DEVICE_NATIVE_VECTOR_WIDTH_INT,
    CL_DEVICE_NATIVE_VECTOR_WIDTH_LONG, CL_DEVICE_NATIVE_VECTOR_WIDTH_SHORT, CL_DEVICE_OPENCL_C_VERSION,
    CL_DEVICE_PARENT_DEVICE, CL_DEVICE_PARTITION_AFFINITY_DOMAIN,
    CL_DEVICE_PARTITION_MAX_SUB_DEVICES, CL_DEVICE_PARTITION_PROPERTIES, CL_DEVICE_PARTITION_TYPE,
    CL_DEVICE_PLATFORM, CL_DEVICE_PREFERRED_INTEROP_USER_SYNC, CL_DEVICE_PREFERRED_VECTOR_WIDTH_CHAR,
    CL_DEVICE_PREFERRED_VECTOR_WIDTH_DOUBLE, CL_DEVICE_PREFERRED_VECTOR_WIDTH_FLOAT, CL_DEVICE_PREFERRED_VECTOR_WIDTH_HALF,
    CL_DEVICE_PREFERRED_VECTOR_WIDTH_INT, CL_DEVICE_PREFERRED_VECTOR_WIDTH_LONG, CL_DEVICE_PREFERRED_VECTOR_WIDTH_SHORT,
    CL_DEVICE_PRINTF_BUFFER_SIZE, CL_DEVICE_PROFILE, CL_DEVICE_PROFILING_TIMER_RESOLUTION,
    CL_DEVICE_QUEUE_PROPERTIES,
    CL_DEVICE_REFERENCE_COUNT, CL_DEVICE_SINGLE_FP_CONFIG, CL_DEVICE_TYPE,
    CL_DEVICE_VENDOR, CL_DEVICE_VENDOR_ID, CL_DEVICE_VERSION,
    CL_DRIVER_VERSION, CL_INVALID_VALUE, CL_TRUE,
};
use crate::platform::Platform;
use crate::store::{
    copy_bytes, copy_entries, lemma_same_entries_lookup, lookup, lookup_bytes, same_entries,
    InfoEntry,
};
use vstd::pervasive::unreached;

verus! {

/// A compute device: its native identifier and the attribute buffers
/// fetched for it.
pub struct Device {
    pub id: u64,
    pub info: Vec<InfoEntry>,
}

/// Two devices carry the same identifier and the same attributes.
pub open spec fn same_device(a: Device, b: Device) -> bool {
    a.id == b.id && same_entries(a.info@, b.info@)
}

impl Clone for Device {
    /// A device clones to one with the same identifier and the same
    /// attributes, so every accessor answers alike on the clone.
    fn clone(&self) -> (r: Device)
        ensures
            same_device(r, *self),
            forall|key: u32| #[trigger] lookup(r.info@, key) == lookup(self.info@, key),
    {
        let r = Device { id: self.id, info: copy_entries(&self.info) };
        proof {
            assert forall|key: u32| #[trigger] lookup(r.info@, key) == lookup(
                self.info@,
                key,
            ) by {
                lemma_same_entries_lookup(r.info@, self.info@, key);
            }
        }
        r
    }
}

impl Device {
    /// Whether an attribute buffer is stored under `key`.
    pub open spec fn has_info(self, key: u32) -> bool {
        lookup(self.info@, key) is Some
    }

    /// The attribute buffer stored under `key`.
    pub open spec fn info_bytes(self, key: u32) -> Seq<u8> {
        lookup(self.info@, key)->Some_0
    }

    /// The stored buffer for `key`.
    fn raw(&self, key: u32) -> (r: &Vec<u8>)
        requires
            self.has_info(key),
        ensures
            r@ == self.info_bytes(key),
    {
        match lookup_bytes(&self.info, key) {
            Some(b) => b,
            None => unreached(),
        }
    }

    /// The raw buffer stored under `name`, or the invalid-value status
    /// where no attribute carries that code.
    pub fn get_info(&self, name: u32) -> (r: Result<Vec<u8>, i32>)
        ensures
            self.has_info(name) ==> (r matches Ok(bts) && bts@ == self.info_bytes(name)),
            !self.has_info(name) ==> r == Err::<Vec<u8>, i32>(CL_INVALID_VALUE),
    {
        match lookup_bytes(&self.info, name) {
            Some(bts) => Ok(copy_bytes(bts)),
            None => Err(CL_INVALID_VALUE),
        }
    }

    pub fn device_type(&self) -> (r: u64)
        requires
            self.has_info(CL_DEVICE_TYPE),
        ensures
            r == le64(self.info_bytes(CL_DEVICE_TYPE)),
    {
        le_u64_of(self.raw(CL_DEVICE_TYPE))
    }

    pub fn vendor_id(&self) -> (r: u32)
        requires
            self.has_info(CL_DEVICE_VENDOR_ID),
        ensures
            r == le32(self.info_bytes(CL_DEVICE_VENDOR_ID)),
    {
        le_u32_of(self.raw(CL_DEVICE_VENDOR_ID))
    }

    pub fn max_compute_units(&self) -> (r: u32)
        requires
            self.has_info(CL_DEVICE_MAX_COMPUTE_UNITS),
        ensures
            r == le32(self.info_bytes(CL_DEVICE_MAX_COMPUTE_UNITS)),
    {
        le_u32_of(self.raw(CL_DEVICE_MAX_COMPUTE_UNITS))
    }

    pub fn max_work_item_dimensions(&self) -> (r: u32)
        requires
            self.has_info(CL_DEVICE_MAX_WORK_ITEM_DIMENSIONS),
        ensures
            r == le32(self.info_bytes(CL_DEVICE_MAX_WORK_ITEM_DIMENSIONS)),
    {
        le_u32_of(self.raw(CL_DEVICE_MAX_WORK_ITEM_DIMENSIONS))
    }

    pub fn max_work_group_size(&self) -> (r: u64)
        requires
            self.has_info(CL_DEVICE_MAX_WORK_GROUP_SIZE),
        ensures
            r == le64(self.info_bytes(CL_DEVICE_MAX_WORK_GROUP_SIZE)),
    {
        le_u64_of(self.raw(CL_DEVICE_MAX_WORK_GROUP_SIZE))
    }

    pub fn max_work_item_sizes(&self) -> (r: Vec<u64>)
        requires
            self.has_info(CL_DEVICE_MAX_WORK_ITEM_SIZES),
        ensures
            r@.len() == le_chunks(self.info_bytes(CL_DEVICE_MAX_WORK_ITEM_SIZES)).len(),
            forall|i: int| 0 <= i < r@.len() ==> r@[i] == le_chunks(self.info_bytes(CL_DEVICE_MAX_WORK_ITEM_SIZES))[i],
    {
        le_u64s_of(self.raw(CL_DEVICE_MAX_WORK_ITEM_SIZES))
    }

    pub fn preferred_vector_width_char(&self) -> (r: u32)
        requires
            self.has_info(CL_DEVICE_PREFERRED_VECTOR_WIDTH_CHAR),
        ensures
            r == le32(self.info_bytes(CL_DEVICE_PREFERRED_VECTOR_WIDTH_CHAR)),
    {
        le_u32_of(self.raw(CL_DEVICE_PREFERRED_VECTOR_WIDTH_CHAR))
    }

    pub fn preferred_vector_width_short(&self) -> (r: u32)
        requires
            self.has_info(CL_DEVICE_PREFERRED_VECTOR_WIDTH_SHORT),
        ensures
            r == le32(self.info_bytes(CL_DEVICE_PREFERRED_VECTOR_WIDTH_SHORT)),
    {
        le_u32_of(self.raw(CL_DEVICE_PREFERRED_VECTOR_WIDTH_SHORT))
    }

    pub fn preferred_vector_width_int(&self) -> (r: u32)
        requires
            self.has_info(CL_DEVICE_PREFERRED_VECTOR_WIDTH_INT),
        ensures
            r == le32(self.info_bytes(CL_DEVICE_PREFERRED_VECTOR_WIDTH_INT)),
    {
        le_u32_of(self.raw(CL_DEVICE_PREFERRED_VECTOR_WIDTH_INT))
    }

    pub fn preferred_vector_width_long(&self) -> (r: u32)
        requires
            self.has_info(CL_DEVICE_PREFERRED_VECTOR_WIDTH_LONG),
        ensures
            r == le32(self.info_bytes(CL_DEVICE_PREFERRED_VECTOR_WIDTH_LONG)),
    {
        le_u32_of(self.raw(CL_DEVICE_PREFERRED_VECTOR_WIDTH_LONG))
    }

    pub fn preferred_vector_width_float(&self) -> (r: u32)
        requires
            self.has_info(CL_DEVICE_PREFERRED_VECTOR_WIDTH_FLOAT),
        ensures
            r == le32(self.info_bytes(CL_DEVICE_PREFERRED_VECTOR_WIDTH_FLOAT)),
    {
        le_u32_of(self.raw(CL_DEVICE_PREFERRED_VECTOR_WIDTH_FLOAT))
    }

    pub fn preferred_vector_width_double(&self) -> (r: u32)
        requires
            self.has_info(CL_DEVICE_PREFERRED_VECTOR_WIDTH_DOUBLE),
        ensures
            r == le32(self.info_bytes(CL_DEVICE_PREFERRED_VECTOR_WIDTH_DOUBLE)),
    {
        le_u32_of(self.raw(CL_DEVICE_PREFERRED_VECTOR_WIDTH_DOUBLE))
    }

    pub fn max_clock_frequency(&self) -> (r: u32)
        requires
            self.has_info(CL_DEVICE_MAX_CLOCK_FREQUENCY),
        ensures
            r == le32(self.info_bytes(CL_DEVICE_MAX_CLOCK_FREQUENCY)),
    {
        le_u32_of(self.raw(CL_DEVICE_MAX_CLOCK_FREQUENCY))
    }

    pub fn address_bits(&self) -> (r: u32)
        requires
            self.has_info(CL_DEVICE_ADDRESS_BITS),
        ensures
            r == le32(self.info_bytes(CL_DEVICE_ADDRESS_BITS)),
    {
        le_u32_of(self.raw(CL_DEVICE_ADDRESS_BITS))
    }

    pub fn max_read_image_args(&self) -> (r: u32)
        requires
            self.has_info(CL_DEVICE_MAX_READ_IMAGE_ARGS),
        ensures
            r == le32(self.info_bytes(CL_DEVICE_MAX_READ_IMAGE_ARGS)),
    {
        le_u32_of(self.raw(CL_DEVICE_MAX_READ_IMAGE_ARGS))
    }

    pub fn max_write_image_args(&self) -> (r: u32)
        requires
            self.has_info(CL_DEVICE_MAX_WRITE_IMAGE_ARGS),
        ensures
            r == le32(self.info_bytes(CL_DEVICE_MAX_WRITE_IMAGE_ARGS)),
    {
        le_u32_of(self.raw(CL_DEVICE_MAX_WRITE_IMAGE_ARGS))
    }

    pub fn max_mem_alloc_size(&self) -> (r: u64)
        requires
            self.has_info(CL_DEVICE_MAX_MEM_ALLOC_SIZE),
        ensures
            r == le64(self.info_bytes(CL_DEVICE_MAX_MEM_ALLOC_SIZE)),
    {
        le_u64_of(self.raw(CL_DEVICE_MAX_MEM_ALLOC_SIZE))
    }

    pub fn image2d_max_width(&self) -> (r: u64)
        requires
            self.has_info(CL_DEVICE_IMAGE2D_MAX_WIDTH),
        ensures
            r == le64(self.info_bytes(CL_DEVICE_IMAGE2D_MAX_WIDTH)),
    {
        le_u64_of(self.raw(CL_DEVICE_IMAGE2D_MAX_WIDTH))
    }

    pub fn image2d_max_height(&self) -> (r: u64)
        requires
            self.has_info(CL_DEVICE_IMAGE2D_MAX_HEIGHT),
        ensures
            r == le64(self.info_bytes(CL_DEVICE_IMAGE2D_MAX_HEIGHT)),
    {
        le_u64_of(self.raw(CL_DEVICE_IMAGE2D_MAX_HEIGHT))
    }

    pub fn image3d_max_width(&self) -> (r: u64)
        requires
            self.has_info(CL_DEVICE_IMAGE3D_MAX_WIDTH),
        ensures
            r == le64(self.info_bytes(CL_DEVICE_IMAGE3D_MAX_WIDTH)),
    {
        le_u64_of(self.raw(CL_DEVICE_IMAGE3D_MAX_WIDTH))
    }

    pub fn image3d_max_height(&self) -> (r: u64)
        requires
            self.has_info(CL_DEVICE_IMAGE3D_MAX_HEIGHT),
        ensures
            r == le64(self.info_bytes(CL_DEVICE_IMAGE3D_MAX_HEIGHT)),
    {
        le_u64_of(self.raw(CL_DEVICE_IMAGE3D_MAX_HEIGHT))
    }

    pub fn image3d_max_depth(&self) -> (r: u64)
        requires
            self.has_info(CL_DEVICE_IMAGE3D_MAX_DEPTH),
        ensures
            r == le64(self.info_bytes(CL_DEVICE_IMAGE3D_MAX_DEPTH)),
    {
        le_u64_of(self.raw(CL_DEVICE_IMAGE3D_MAX_DEPTH))
    }

    pub fn image_support(&self) -> (r: bool)
        requires
            self.has_info(CL_DEVICE_IMAGE_SUPPORT),
        ensures
            r == (le32(self.info_bytes(CL_DEVICE_IMAGE_SUPPORT)) == CL_TRUE),
    {
        CL_TRUE == le_u32_of(self.raw(CL_DEVICE_IMAGE_SUPPORT))
    }

    pub fn max_parameter_size(&self) -> (r: u64)
        requires
            self.has_info(CL_DEVICE_MAX_PARAMETER_SIZE),
        ensures
            r == le64(self.info_bytes(CL_DEVICE_MAX_PARAMETER_SIZE)),
    {
        le_u64_of(self.raw(CL_DEVICE_MAX_PARAMETER_SIZE))
    }

    pub fn max_samplers(&self) -> (r: u32)
        requires
            self.has_info(CL_DEVICE_MAX_SAMPLERS),
        ensures
            r == le32(self.info_bytes(CL_DEVICE_MAX_SAMPLERS)),
    {
        le_u32_of(self.raw(CL_DEVICE_MAX_SAMPLERS))
    }

    pub fn mem_base_addr_align(&self) -> (r: u32)
        requires
            self.has_info(CL_DEVICE_MEM_BASE_ADDR_ALIGN),
        ensures
            r == le32(self.info_bytes(CL_DEVICE_MEM_BASE_ADDR_ALIGN)),
    {
        le_u32_of(self.raw(CL_DEVICE_MEM_BASE_ADDR_ALIGN))
    }

    pub fn min_data_type_align_size(&self) -> (r: u32)
        requires
            self.has_info(CL_DEVICE_MIN_DATA_TYPE_ALIGN_SIZE),
        ensures
            r == le32(self.info_bytes(CL_DEVICE_MIN_DATA_TYPE_ALIGN_SIZE)),
    {
        le_u32_of(self.raw(CL_DEVICE_MIN_DATA_TYPE_ALIGN_SIZE))
    }

    pub fn single_fp_config(&self) -> (r: u64)
        requires
            self.has_info(CL_DEVICE_SINGLE_FP_CONFIG),
        ensures
            r == le64(self.info_bytes(CL_DEVICE_SINGLE_FP_CONFIG)),
    {
        le_u64_of(self.raw(CL_DEVICE_SINGLE_FP_CONFIG))
    }

    pub fn global_mem_cache_type(&self) -> (r: u32)
        requires
            self.has_info(CL_DEVICE_GLOBAL_MEM_CACHE_TYPE),
        ensures
            r == le32(self.info_bytes(CL_DEVICE_GLOBAL_MEM_CACHE_TYPE)),
    {
        le_u32_of(self.raw(CL_DEVICE_GLOBAL_MEM_CACHE_TYPE))
    }

    pub fn global_mem_cacheline_size(&self) -> (r: u32)
        requires
            self.has_info(CL_DEVICE_GLOBAL_MEM_CACHELINE_SIZE),
        ensures
            r == le32(self.info_bytes(CL_DEVICE_GLOBAL_MEM_CACHELINE_SIZE)),
    {
        le_u32_of(self.raw(CL_DEVICE_GLOBAL_MEM_CACHELINE_SIZE))
    }

    pub fn global_mem_cache_size(&self) -> (r: u64)
        requires
            self.has_info(CL_DEVICE_GLOBAL_MEM_CACHE_SIZE),
        ensures
            r == le64(self.info_bytes(CL_DEVICE_GLOBAL_MEM_CACHE_SIZE)),
    {
        le_u64_of(self.raw(CL_DEVICE_GLOBAL_MEM_CACHE_SIZE))
    }

    pub fn global_mem_size(&self) -> (r: u64)
        requires
            self.has_info(CL_DEVICE_GLOBAL_MEM_SIZE),
        ensures
            r == le64(self.info_bytes(CL_DEVICE_GLOBAL_MEM_SIZE)),
    {
        le_u64_of(self.raw(CL_DEVICE_GLOBAL_MEM_SIZE))
    }

    pub fn max_constant_buffer_size(&self) -> (r: u64)
        requires
            self.has_info(CL_DEVICE_MAX_CONSTANT_BUFFER_SIZE),
        ensures
            r == le64(self.info_bytes(CL_DEVICE_MAX_CONSTANT_BUFFER_SIZE)),
    {
        le_u64_of(self.raw(CL_DEVICE_MAX_CONSTANT_BUFFER_SIZE))
    }

    pub fn max_constant_args(&self) -> (r: u32)
        requires
            self.has_info(CL_DEVICE_MAX_CONSTANT_ARGS),
        ensures
            r == le32(self.info_bytes(CL_DEVICE_MAX_CONSTANT_ARGS)),
    {
        le_u32_of(self.raw(CL_DEVICE_MAX_CONSTANT_ARGS))
    }

    pub fn local_mem_type(&self) -> (r: u32)
        requires
            self.has_info(CL_DEVICE_LOCAL_MEM_TYPE),
        ensures
            r == le32(self.info_bytes(CL_DEVICE_LOCAL_MEM_TYPE)),
    {
        le_u32_of(self.raw(CL_DEVICE_LOCAL_MEM_TYPE))
    }

    pub fn local_mem_size(&self) -> (r: u64)
        requires
            self.has_info(CL_DEVICE_LOCAL_MEM_SIZE),
        ensures
            r == le64(self.info_bytes(CL_DEVICE_LOCAL_MEM_SIZE)),
    {
        le_u64_of(self.raw(CL_DEVICE_LOCAL_MEM_SIZE))
    }

    pub fn error_correction_support(&self) -> (r: bool)
        requires
            self.has_info(CL_DEVICE_ERROR_CORRECTION_SUPPORT),
        ensures
            r == (le32(self.info_bytes(CL_DEVICE_ERROR_CORRECTION_SUPPORT)) == CL_TRUE),
    {
        CL_TRUE == le_u32_of(self.raw(CL_DEVICE_ERROR_CORRECTION_SUPPORT))
    }

    pub fn profiling_timer_resolution(&self) -> (r: u64)
        requires
            self.has_info(CL_DEVICE_PROFILING_TIMER_RESOLUTION),
        ensures
            r == le64(self.info_bytes(CL_DEVICE_PROFILING_TIMER_RESOLUTION)),
    {
        le_u64_of(self.raw(CL_DEVICE_PROFILING_TIMER_RESOLUTION))
    }

    pub fn endian_little(&self) -> (r: bool)
        requires
            self.has_info(CL_DEVICE_ENDIAN_LITTLE),
        ensures
            r == (le32(self.info_bytes(CL_DEVICE_ENDIAN_LITTLE)) == CL_TRUE),
    {
        CL_TRUE == le_u32_of(self.raw(CL_DEVICE_ENDIAN_LITTLE))
    }

    pub fn available(&self) -> (r: bool)
        requires
            self.has_info(CL_DEVICE_AVAILABLE),
        ensures
            r == (le32(self.info_bytes(CL_DEVICE_AVAILABLE)) == CL_TRUE),
    {
        CL_TRUE == le_u32_of(self.raw(CL_DEVICE_AVAILABLE))
    }

    pub fn compiler_available(&self) -> (r: bool)
        requires
            self.has_info(CL_DEVICE_COMPILER_AVAILABLE),
        ensures
            r == (le32(self.info_bytes(CL_DEVICE_COMPILER_AVAILABLE)) == CL_TRUE),
    {
        CL_TRUE == le_u32_of(self.raw(CL_DEVICE_COMPILER_AVAILABLE))
    }

    pub fn execution_capabilities(&self) -> (r: u64)
        requires
            self.has_info(CL_DEVICE_EXECUTION_CAPABILITIES),
        ensures
            r == le64(self.info_bytes(CL_DEVICE_EXECUTION_CAPABILITIES)),
    {
        le_u64_of(self.raw(CL_DEVICE_EXECUTION_CAPABILITIES))
    }

    pub fn queue_properties(&self) -> (r: u64)
        requires
            self.has_info(CL_DEVICE_QUEUE_PROPERTIES),
        ensures
            r == le64(self.info_bytes(CL_DEVICE_QUEUE_PROPERTIES)),
    {
        le_u64_of(self.raw(CL_DEVICE_QUEUE_PROPERTIES))
    }

    pub fn name(&self) -> (r: String)
        requires
            self.has_info(CL_DEVICE_NAME),
            is_text(self.info_bytes(CL_DEVICE_NAME)),
        ensures
            r@ == text_of(self.info_bytes(CL_DEVICE_NAME)),
    {
        text_string(self.raw(CL_DEVICE_NAME))
    }

    pub fn vendor(&self) -> (r: String)
        requires
            self.has_info(CL_DEVICE_VENDOR),
            is_text(self.info_bytes(CL_DEVICE_VENDOR)),
        ensures
            r@ == text_of(self.info_bytes(CL_DEVICE_VENDOR)),
    {
        text_string(self.raw(CL_DEVICE_VENDOR))
    }

    pub fn driver_version(&self) -> (r: String)
        requires
            self.has_info(CL_DRIVER_VERSION),
            is_text(self.info_bytes(CL_DRIVER_VERSION)),
        ensures
            r@ == text_of(self.info_bytes(CL_DRIVER_VERSION)),
    {
        text_string(self.raw(CL_DRIVER_VERSION))
    }

    pub fn profile(&self) -> (r: String)
        requires
            self.has_info(CL_DEVICE_PROFILE),
            is_text(self.info_bytes(CL_DEVICE_PROFILE)),
        ensures
            r@ == text_of(self.info_bytes(CL_DEVICE_PROFILE)),
    {
        text_string(self.raw(CL_DEVICE_PROFILE))
    }

    pub fn version(&self) -> (r: String)
        requires
            self.has_info(CL_DEVICE_VERSION),
            is_text(self.info_bytes(CL_DEVICE_VERSION)),
        ensures
            r@ == text_of(self.info_bytes(CL_DEVICE_VERSION)),
    {
        text_string(self.raw(CL_DEVICE_VERSION))
    }

    pub fn extensions(&self) -> (r: Vec<String>)
        requires
            self.has_info(CL_DEVICE_EXTENSIONS),
            is_text(self.info_bytes(CL_DEVICE_EXTENSIONS)),
        ensures
            r@.map_values(|p: String| p@) == text_pieces(self.info_bytes(CL_DEVICE_EXTENSIONS), SPACE),
    {
        text_list(self.raw(CL_DEVICE_EXTENSIONS), SPACE)
    }

    /// The platform this device belongs to, by its stored identifier; its
    /// own attribute buffers and device list are not carried along.
    pub fn platform(&self) -> (r: Platform)
        requires
            self.has_info(CL_DEVICE_PLATFORM),
        ensures
            r.id == le64(self.info_bytes(CL_DEVICE_PLATFORM)),
            r.info@.len() == 0,
            r.devs@.len() == 0,
    {
        Platform { id: le_u64_of(self.raw(CL_DEVICE_PLATFORM)), info: Vec::new(), devs: Vec::new() }
    }

    pub fn preferred_vector_width_half(&self) -> (r: u32)
        requires
            self.has_info(CL_DEVICE_PREFERRED_VECTOR_WIDTH_HALF),
        ensures
            r == le32(self.info_bytes(CL_DEVICE_PREFERRED_VECTOR_WIDTH_HALF)),
    {
        le_u32_of(self.raw(CL_DEVICE_PREFERRED_VECTOR_WIDTH_HALF))
    }

    pub fn host_unified_memory(&self) -> (r: bool)
        requires
            self.has_info(CL_DEVICE_HOST_UNIFIED_MEMORY),
        ensures
            r == (le32(self.info_bytes(CL_DEVICE_HOST_UNIFIED_MEMORY)) == CL_TRUE),
    {
        CL_TRUE == le_u32_of(self.raw(CL_DEVICE_HOST_UNIFIED_MEMORY))
    }

    pub fn native_vector_width_char(&self) -> (r: u32)
        requires
            self.has_info(CL_DEVICE_NATIVE_VECTOR_WIDTH_CHAR),
        ensures
            r == le32(self.info_bytes(CL_DEVICE_NATIVE_VECTOR_WIDTH_CHAR)),
    {
        le_u32_of(self.raw(CL_DEVICE_NATIVE_VECTOR_WIDTH_CHAR))
    }

    pub fn native_vector_width_short(&self) -> (r: u32)
        requires
            self.has_info(CL_DEVICE_NATIVE_VECTOR_WIDTH_SHORT),
        ensures
            r == le32(self.info_bytes(CL_DEVICE_NATIVE_VECTOR_WIDTH_SHORT)),
    {
        le_u32_of(self.raw(CL_DEVICE_NATIVE_VECTOR_WIDTH_SHORT))
    }

    pub fn native_vector_width_int(&self) -> (r: u32)
        requires
            self.has_info(CL_DEVICE_NATIVE_VECTOR_WIDTH_INT),
        ensures
            r == le32(self.info_bytes(CL_DEVICE_NATIVE_VECTOR_WIDTH_INT)),
    {
        le_u32_of(self.raw(CL_DEVICE_NATIVE_VECTOR_WIDTH_INT))
    }

    pub fn native_vector_width_long(&self) -> (r: u32)
        requires
            self.has_info(CL_DEVICE_NATIVE_VECTOR_WIDTH_LONG),
        ensures
            r == le32(self.info_bytes(CL_DEVICE_NATIVE_VECTOR_WIDTH_LONG)),
    {
        le_u32_of(self.raw(CL_DEVICE_NATIVE_VECTOR_WIDTH_LONG))
    }

    pub fn native_vector_width_float(&self) -> (r: u32)
        requires
            self.has_info(CL_DEVICE_NATIVE_VECTOR_WIDTH_FLOAT),
        ensures
            r == le32(self.info_bytes(CL_DEVICE_NATIVE_VECTOR_WIDTH_FLOAT)),
    {
        le_u32_of(self.raw(CL_DEVICE_NATIVE_VECTOR_WIDTH_FLOAT))
    }

    pub fn native_vector_width_double(&self) -> (r: u32)
        requires
            self.has_info(CL_DEVICE_NATIVE_VECTOR_WIDTH_DOUBLE),
        ensures
            r == le32(self.info_bytes(CL_DEVICE_NATIVE_VECTOR_WIDTH_DOUBLE)),
    {
        le_u32_of(self.raw(CL_DEVICE_NATIVE_VECTOR_WIDTH_DOUBLE))
    }

    pub fn native_vector_width_half(&self) -> (r: u32)
        requires
            self.has_info(CL_DEVICE_NATIVE_VECTOR_WIDTH_HALF),
        ensures
            r == le32(self.info_bytes(CL_DEVICE_NATIVE_VECTOR_WIDTH_HALF)),
    {
        le_u32_of(self.raw(CL_DEVICE_NATIVE_VECTOR_WIDTH_HALF))
    }

    pub fn opencl_c_version(&self) -> (r: String)
        requires
            self.has_info(CL_DEVICE_OPENCL_C_VERSION),
            is_text(self.info_bytes(CL_DEVICE_OPENCL_C_VERSION)),
        ensures
            r@ == text_of(self.info_bytes(CL_DEVICE_OPENCL_C_VERSION)),
    {
        text_string(self.raw(CL_DEVICE_OPENCL_C_VERSION))
    }

    pub fn double_fp_config(&self) -> (r: u64)
        requires
            self.has_info(CL_DEVICE_DOUBLE_FP_CONFIG),
        ensures
            r == le64(self.info_bytes(CL_DEVICE_DOUBLE_FP_CONFIG)),
    {
        le_u64_of(self.raw(CL_DEVICE_DOUBLE_FP_CONFIG))
    }

    pub fn linker_available(&self) -> (r: bool)
        requires
            self.has_info(CL_DEVICE_LINKER_AVAILABLE),
        ensures
            r == (le32(self.info_bytes(CL_DEVICE_LINKER_AVAILABLE)) == CL_TRUE),
    {
        CL_TRUE == le_u32_of(self.raw(CL_DEVICE_LINKER_AVAILABLE))
    }

    pub fn built_in_kernels(&self) -> (r: Vec<String>)
        requires
            self.has_info(CL_DEVICE_BUILT_IN_KERNELS),
            is_text(self.info_bytes(CL_DEVICE_BUILT_IN_KERNELS)),
        ensures
            r@.map_values(|p: String| p@) == text_pieces(self.info_bytes(CL_DEVICE_BUILT_IN_KERNELS), SEMICOLON),
    {
        text_list(self.raw(CL_DEVICE_BUILT_IN_KERNELS), SEMICOLON)
    }

    pub fn image_max_buffer_size(&self) -> (r: u64)
        requires
            self.has_info(CL_DEVICE_IMAGE_MAX_BUFFER_SIZE),
        ensures
            r == le64(self.info_bytes(CL_DEVICE_IMAGE_MAX_BUFFER_SIZE)),
    {
        le_u64_of(self.raw(CL_DEVICE_IMAGE_MAX_BUFFER_SIZE))
    }

    pub fn image_max_array_size(&self) -> (r: u64)
        requires
            self.has_info(CL_DEVICE_IMAGE_MAX_ARRAY_SIZE),
        ensures
            r == le64(self.info_bytes(CL_DEVICE_IMAGE_MAX_ARRAY_SIZE)),
    {
        le_u64_of(self.raw(CL_DEVICE_IMAGE_MAX_ARRAY_SIZE))
    }

    /// The parent of a sub-device, by its stored identifier; its own
    /// attribute buffers are not carried along.
    pub fn parent_device(&self) -> (r: Device)
        requires
            self.has_info(CL_DEVICE_PARENT_DEVICE),
        ensures
            r.id == le64(self.info_bytes(CL_DEVICE_PARENT_DEVICE)),
            r.info@.len() == 0,
    {
        Device { id: le_u64_of(self.raw(CL_DEVICE_PARENT_DEVICE)), info: Vec::new() }
    }

    pub fn partition_max_sub_devices(&self) -> (r: u32)
        requires
            self.has_info(CL_DEVICE_PARTITION_MAX_SUB_DEVICES),
        ensures
            r == le32(self.info_bytes(CL_DEVICE_PARTITION_MAX_SUB_DEVICES)),
    {
        le_u32_of(self.raw(CL_DEVICE_PARTITION_MAX_SUB_DEVICES))
    }

    pub fn partition_properties(&self) -> (r: Vec<u64>)
        requires
            self.has_info(CL_DEVICE_PARTITION_PROPERTIES),
        ensures
            r@.len() == le_chunks(self.info_bytes(CL_DEVICE_PARTITION_PROPERTIES)).len(),
            forall|i: int| 0 <= i < r@.len() ==> r@[i] == le_chunks(self.info_bytes(CL_DEVICE_PARTITION_PROPERTIES))[i],
    {
        le_u64s_of(self.raw(CL_DEVICE_PARTITION_PROPERTIES))
    }

    pub fn partition_affinity_domain(&self) -> (r: u64)
        requires
            self.has_info(CL_DEVICE_PARTITION_AFFINITY_DOMAIN),
        ensures
            r == le64(self.info_bytes(CL_DEVICE_PARTITION_AFFINITY_DOMAIN)),
    {
        le_u64_of(self.raw(CL_DEVICE_PARTITION_AFFINITY_DOMAIN))
    }

    pub fn partition_type(&self) -> (r: Vec<u64>)
        requires
            self.has_info(CL_DEVICE_PARTITION_TYPE),
        ensures
            r@.len() == le_chunks(self.info_bytes(CL_DEVICE_PARTITION_TYPE)).len(),
            forall|i: int| 0 <= i < r@.len() ==> r@[i] == le_chunks(self.info_bytes(CL_DEVICE_PARTITION_TYPE))[i],
    {
        le_u64s_of(self.raw(CL_DEVICE_PARTITION_TYPE))
    }

    pub fn reference_count(&self) -> (r: u32)
        requires
            self.has_info(CL_DEVICE_REFERENCE_COUNT),
        ensures
            r == le32(self.info_bytes(CL_DEVICE_REFERENCE_COUNT)),
    {
        le_u32_of(self.raw(CL_DEVICE_REFERENCE_COUNT))
    }

    pub fn preferred_interop_user_sync(&self) -> (r: bool)
        requires
            self.has_info(CL_DEVICE_PREFERRED_INTEROP_USER_SYNC),
        ensures
            r == (le32(self.info_bytes(CL_DEVICE_PREFERRED_INTEROP_USER_SYNC)) == CL_TRUE),
    {
        CL_TRUE == le_u32_of(self.raw(CL_DEVICE_PREFERRED_INTEROP_USER_SYNC))
    }

    pub fn printf_buffer_size(&self) -> (r: u64)
        requires
            self.has_info(CL_DEVICE_PRINTF_BUFFER_SIZE),
        ensures
            r == le64(self.info_bytes(CL_DEVICE_PRINTF_BUFFER_SIZE)),
    {
        le_u64_of(self.raw(CL_DEVICE_PRINTF_BUFFER_SIZE))
    }
}

} // verus!
