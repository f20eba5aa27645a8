//! The attribute codes and status codes of the native interface, as its
//! public header fixes them.

use vstd::prelude::*;

verus! {

pub const CL_SUCCESS: i32 = 0;

pub const CL_DEVICE_NOT_FOUND: i32 = -1;

pub const CL_INVALID_DEVICE_TYPE: i32 = -31;

pub const CL_INVALID_VALUE: i32 = -30;

pub const CL_FALSE: u32 = 0;

pub const CL_TRUE: u32 = 1;

pub const CL_PLATFORM_PROFILE: u32 = 0x0900;

pub const CL_PLATFORM_VERSION: u32 = 0x0901;

pub const CL_PLATFORM_NAME: u32 = 0x0902;

pub const CL_PLATFORM_VENDOR: u32 = 0x0903;

pub const CL_PLATFORM_EXTENSIONS: u32 = 0x0904;

pub const CL_DEVICE_TYPE_DEFAULT: u64 = 1;

pub const CL_DEVICE_TYPE_CPU: u64 = 2;

pub const CL_DEVICE_TYPE_GPU: u64 = 4;

pub const CL_DEVICE_TYPE_ACCELERATOR: u64 = 8;

pub const CL_DEVICE_TYPE_CUSTOM: u64 = 16;

pub const CL_DEVICE_TYPE_ALL: u64 = 0xFFFFFFFF;

pub const CL_DEVICE_TYPE: u32 = 0x1000;

pub const CL_DEVICE_VENDOR_ID: u32 = 0x1001;

pub const CL_DEVICE_MAX_COMPUTE_UNITS: u32 = 0x1002;

pub const CL_DEVICE_MAX_WORK_ITEM_DIMENSIONS: u32 = 0x1003;

pub const CL_DEVICE_MAX_WORK_GROUP_SIZE: u32 = 0x1004;

pub const CL_DEVICE_MAX_WORK_ITEM_SIZES: u32 = 0x1005;

pub const CL_DEVICE_PREFERRED_VECTOR_WIDTH_CHAR: u32 = 0x1006;

pub const CL_DEVICE_PREFERRED_VECTOR_WIDTH_SHORT: u32 = 0x1007;

pub const CL_DEVICE_PREFERRED_VECTOR_WIDTH_INT: u32 = 0x1008;

pub const CL_DEVICE_PREFERRED_VECTOR_WIDTH_LONG: u32 = 0x1009;

pub const CL_DEVICE_PREFERRED_VECTOR_WIDTH_FLOAT: u32 = 0x100A;

pub const CL_DEVICE_PREFERRED_VECTOR_WIDTH_DOUBLE: u32 = 0x100B;

pub const CL_DEVICE_MAX_CLOCK_FREQUENCY: u32 = 0x100C;

pub const CL_DEVICE_ADDRESS_BITS: u32 = 0x100D;

pub const CL_DEVICE_MAX_READ_IMAGE_ARGS: u32 = 0x100E;

pub const CL_DEVICE_MAX_WRITE_IMAGE_ARGS: u32 = 0x100F;

pub const CL_DEVICE_MAX_MEM_ALLOC_SIZE: u32 = 0x1010;

pub const CL_DEVICE_IMAGE2D_MAX_WIDTH: u32 = 0x1011;

pub const CL_DEVICE_IMAGE2D_MAX_HEIGHT: u32 = 0x1012;

pub const CL_DEVICE_IMAGE3D_MAX_WIDTH: u32 = 0x1013;

pub const CL_DEVICE_IMAGE3D_MAX_HEIGHT: u32 = 0x1014;

pub const CL_DEVICE_IMAGE3D_MAX_DEPTH: u32 = 0x1015;

pub const CL_DEVICE_IMAGE_SUPPORT: u32 = 0x1016;

pub const CL_DEVICE_MAX_PARAMETER_SIZE: u32 = 0x1017;

pub const CL_DEVICE_MAX_SAMPLERS: u32 = 0x1018;

pub const CL_DEVICE_MEM_BASE_ADDR_ALIGN: u32 = 0x1019;

pub const CL_DEVICE_MIN_DATA_TYPE_ALIGN_SIZE: u32 = 0x101A;

pub const CL_DEVICE_SINGLE_FP_CONFIG: u32 = 0x101B;

pub const CL_DEVICE_GLOBAL_MEM_CACHE_TYPE: u32 = 0x101C;

pub const CL_DEVICE_GLOBAL_MEM_CACHELINE_SIZE: u32 = 0x101D;

pub const CL_DEVICE_GLOBAL_MEM_CACHE_SIZE: u32 = 0x101E;

pub const CL_DEVICE_GLOBAL_MEM_SIZE: u32 = 0x101F;

pub const CL_DEVICE_MAX_CONSTANT_BUFFER_SIZE: u32 = 0x1020;

pub const CL_DEVICE_MAX_CONSTANT_ARGS: u32 = 0x1021;

pub const CL_DEVICE_LOCAL_MEM_TYPE: u32 = 0x1022;

pub const CL_DEVICE_LOCAL_MEM_SIZE: u32 = 0x1023;

pub const CL_DEVICE_ERROR_CORRECTION_SUPPORT: u32 = 0x1024;

pub const CL_DEVICE_PROFILING_TIMER_RESOLUTION: u32 = 0x1025;

pub const CL_DEVICE_ENDIAN_LITTLE: u32 = 0x1026;

pub const CL_DEVICE_AVAILABLE: u32 = 0x1027;

pub const CL_DEVICE_COMPILER_AVAILABLE: u32 = 0x1028;

pub const CL_DEVICE_EXECUTION_CAPABILITIES: u32 = 0x1029;

pub const CL_DEVICE_QUEUE_PROPERTIES: u32 = 0x102A;

pub const CL_DEVICE_NAME: u32 = 0x102B;

pub const CL_DEVICE_VENDOR: u32 = 0x102C;

pub const CL_DRIVER_VERSION: u32 = 0x102D;

pub const CL_DEVICE_PROFILE: u32 = 0x102E;

pub const CL_DEVICE_VERSION: u32 = 0x102F;

pub const CL_DEVICE_EXTENSIONS: u32 = 0x1030;

pub const CL_DEVICE_PLATFORM: u32 = 0x1031;

pub const CL_DEVICE_DOUBLE_FP_CONFIG: u32 = 0x1032;

pub const CL_DEVICE_PREFERRED_VECTOR_WIDTH_HALF: u32 = 0x1034;

pub const CL_DEVICE_HOST_UNIFIED_MEMORY: u32 = 0x1035;

pub const CL_DEVICE_NATIVE_VECTOR_WIDTH_CHAR: u32 = 0x1036;

pub const CL_DEVICE_NATIVE_VECTOR_WIDTH_SHORT: u32 = 0x1037;

pub const CL_DEVICE_NATIVE_VECTOR_WIDTH_INT: u32 = 0x1038;

pub const CL_DEVICE_NATIVE_VECTOR_WIDTH_LONG: u32 = 0x1039;

pub const CL_DEVICE_NATIVE_VECTOR_WIDTH_FLOAT: u32 = 0x103A;

pub const CL_DEVICE_NATIVE_VECTOR_WIDTH_DOUBLE: u32 = 0x103B;

pub const CL_DEVICE_NATIVE_VECTOR_WIDTH_HALF: u32 = 0x103C;

pub const CL_DEVICE_OPENCL_C_VERSION: u32 = 0x103D;

pub const CL_DEVICE_LINKER_AVAILABLE: u32 = 0x103E;

pub const CL_DEVICE_BUILT_IN_KERNELS: u32 = 0x103F;

pub const CL_DEVICE_IMAGE_MAX_BUFFER_SIZE: u32 = 0x1040;

pub const CL_DEVICE_IMAGE_MAX_ARRAY_SIZE: u32 = 0x1041;

pub const CL_DEVICE_PARENT_DEVICE: u32 = 0x1042;

pub const CL_DEVICE_PARTITION_MAX_SUB_DEVICES: u32 = 0x1043;

pub const CL_DEVICE_PARTITION_PROPERTIES: u32 = 0x1044;

pub const CL_DEVICE_PARTITION_AFFINITY_DOMAIN: u32 = 0x1045;

pub const CL_DEVICE_PARTITION_TYPE: u32 = 0x1046;

pub const CL_DEVICE_REFERENCE_COUNT: u32 = 0x1047;

pub const CL_DEVICE_PREFERRED_INTEROP_USER_SYNC: u32 = 0x1048;

pub const CL_DEVICE_PRINTF_BUFFER_SIZE: u32 = 0x1049;

} // verus!
