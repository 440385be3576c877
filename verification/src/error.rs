use vstd::prelude::*;

verus! {

pub const SUCCESS: i32 = 0;
pub const NOT_READY: i32 = 1;
pub const TIMEOUT: i32 = 2;
pub const EVENT_SET: i32 = 3;
pub const EVENT_RESET: i32 = 4;
pub const INCOMPLETE: i32 = 5;
pub const ERROR_OUT_OF_HOST_MEMORY: i32 = -1;
pub const ERROR_OUT_OF_DEVICE_MEMORY: i32 = -2;
pub const ERROR_INITIALIZATION_FAILED: i32 = -3;
pub const ERROR_DEVICE_LOST: i32 = -4;
pub const ERROR_MEMORY_MAP_FAILED: i32 = -5;
pub const ERROR_LAYER_NOT_PRESENT: i32 = -6;
pub const ERROR_EXTENSION_NOT_PRESENT: i32 = -7;
pub const ERROR_FEATURE_NOT_PRESENT: i32 = -8;
pub const ERROR_INCOMPATIBLE_DRIVER: i32 = -9;
pub const ERROR_TOO_MANY_OBJECTS: i32 = -10;
pub const ERROR_FORMAT_NOT_SUPPORTED: i32 = -11;
pub const ERROR_FRAGMENTED_POOL: i32 = -12;
pub const ERROR_UNKNOWN: i32 = -13;
pub const ERROR_OUT_OF_POOL_MEMORY: i32 = -1000069000;
pub const ERROR_INVALID_EXTERNAL_HANDLE: i32 = -1000072003;
pub const ERROR_FRAGMENTATION: i32 = -1000161000;
pub const ERROR_INVALID_OPAQUE_CAPTURE_ADDRESS: i32 = -1000257000;
pub const PIPELINE_COMPILE_REQUIRED: i32 = 1000297000;
pub const ERROR_SURFACE_LOST_KHR: i32 = -1000000000;
pub const ERROR_NATIVE_WINDOW_IN_USE_KHR: i32 = -1000000001;
pub const SUBOPTIMAL_KHR: i32 = 1000001003;
pub const ERROR_OUT_OF_DATE_KHR: i32 = -1000001004;
pub const ERROR_INCOMPATIBLE_DISPLAY_KHR: i32 = -1000003001;
pub const ERROR_VALIDATION_FAILED_EXT: i32 = -1000011001;
pub const ERROR_INVALID_SHADER_NV: i32 = -1000012000;
pub const ERROR_IMAGE_USAGE_NOT_SUPPORTED_KHR: i32 = -1000023000;
pub const ERROR_VIDEO_PICTURE_LAYOUT_NOT_SUPPORTED_KHR: i32 = -1000023001;
pub const ERROR_VIDEO_PROFILE_OPERATION_NOT_SUPPORTED_KHR: i32 = -1000023002;
pub const ERROR_VIDEO_PROFILE_FORMAT_NOT_SUPPORTED_KHR: i32 = -1000023003;
pub const ERROR_VIDEO_PROFILE_CODEC_NOT_SUPPORTED_KHR: i32 = -1000023004;
pub const ERROR_VIDEO_STD_VERSION_NOT_SUPPORTED_KHR: i32 = -1000023005;
pub const ERROR_INVALID_DRM_FORMAT_MODIFIER_PLANE_LAYOUT_EXT: i32 = -1000158000;
pub const ERROR_NOT_PERMITTED_EXT: i32 = -1000174001;
pub const THREAD_IDLE_KHR: i32 = 1000268000;
pub const THREAD_DONE_KHR: i32 = 1000268001;
pub const OPERATION_DEFERRED_KHR: i32 = 1000268002;
pub const OPERATION_NOT_DEFERRED_KHR: i32 = 1000268003;
pub const ERROR_COMPRESSION_EXHAUSTED_EXT: i32 = -1000338000;

/// The Vulkan name of a result code, for the codes that have one.
pub open spec fn result_name_spec(e: i32) -> Option<&'static str> {
    if e == SUCCESS {
        Some("SUCCESS")
    } else if e == NOT_READY {
        Some("NOT_READY")
    } else if e == TIMEOUT {
        Some("TIMEOUT")
    } else if e == EVENT_SET {
        Some("EVENT_SET")
    } else if e == EVENT_RESET {
        Some("EVENT_RESET")
    } else if e == INCOMPLETE {
        Some("INCOMPLETE")
    } else if e == ERROR_OUT_OF_HOST_MEMORY {
        Some("ERROR_OUT_OF_HOST_MEMORY")
    } else if e == ERROR_OUT_OF_DEVICE_MEMORY {
        Some("ERROR_OUT_OF_DEVICE_MEMORY")
    } else if e == ERROR_INITIALIZATION_FAILED {
        Some("ERROR_INITIALIZATION_FAILED")
    } else if e == ERROR_DEVICE_LOST {
        Some("ERROR_DEVICE_LOST")
    } else if e == ERROR_MEMORY_MAP_FAILED {
        Some("ERROR_MEMORY_MAP_FAILED")
    } else if e == ERROR_LAYER_NOT_PRESENT {
        Some("ERROR_LAYER_NOT_PRESENT")
    } else if e == ERROR_EXTENSION_NOT_PRESENT {
        Some("ERROR_EXTENSION_NOT_PRESENT")
    } else if e == ERROR_FEATURE_NOT_PRESENT {
        Some("ERROR_FEATURE_NOT_PRESENT")
    } else if e == ERROR_INCOMPATIBLE_DRIVER {
        Some("ERROR_INCOMPATIBLE_DRIVER")
    } else if e == ERROR_TOO_MANY_OBJECTS {
        Some("ERROR_TOO_MANY_OBJECTS")
    } else if e == ERROR_FORMAT_NOT_SUPPORTED {
        Some("ERROR_FORMAT_NOT_SUPPORTED")
    } else if e == ERROR_FRAGMENTED_POOL {
        Some("ERROR_FRAGMENTED_POOL")
    } else if e == ERROR_UNKNOWN {
        Some("ERROR_UNKNOWN")
    } else if e == ERROR_OUT_OF_POOL_MEMORY {
        Some("ERROR_OUT_OF_POOL_MEMORY")
    } else if e == ERROR_INVALID_EXTERNAL_HANDLE {
        Some("ERROR_INVALID_EXTERNAL_HANDLE")
    } else if e == ERROR_FRAGMENTATION {
        Some("ERROR_FRAGMENTATION")
    } else if e == ERROR_INVALID_OPAQUE_CAPTURE_ADDRESS {
        Some("ERROR_INVALID_OPAQUE_CAPTURE_ADDRESS")
    } else if e == PIPELINE_COMPILE_REQUIRED {
        Some("PIPELINE_COMPILE_REQUIRED")
    } else if e == ERROR_SURFACE_LOST_KHR {
        Some("ERROR_SURFACE_LOST_KHR")
    } else if e == ERROR_NATIVE_WINDOW_IN_USE_KHR {
        Some("ERROR_NATIVE_WINDOW_IN_USE_KHR")
    } else if e == SUBOPTIMAL_KHR {
        Some("SUBOPTIMAL_KHR")
    } else if e == ERROR_OUT_OF_DATE_KHR {
        Some("ERROR_OUT_OF_DATE_KHR")
    } else if e == ERROR_INCOMPATIBLE_DISPLAY_KHR {
        Some("ERROR_INCOMPATIBLE_DISPLAY_KHR")
    } else if e == ERROR_VALIDATION_FAILED_EXT {
        Some("ERROR_VALIDATION_FAILED_EXT")
    } else if e == ERROR_INVALID_SHADER_NV {
        Some("ERROR_INVALID_SHADER_NV")
    } else if e == ERROR_IMAGE_USAGE_NOT_SUPPORTED_KHR {
        Some("ERROR_IMAGE_USAGE_NOT_SUPPORTED_KHR")
    } else if e == ERROR_VIDEO_PICTURE_LAYOUT_NOT_SUPPORTED_KHR {
        Some("ERROR_VIDEO_PICTURE_LAYOUT_NOT_SUPPORTED_KHR")
    } else if e == ERROR_VIDEO_PROFILE_OPERATION_NOT_SUPPORTED_KHR {
        Some("ERROR_VIDEO_PROFILE_OPERATION_NOT_SUPPORTED_KHR")
    } else if e == ERROR_VIDEO_PROFILE_FORMAT_NOT_SUPPORTED_KHR {
        Some("ERROR_VIDEO_PROFILE_FORMAT_NOT_SUPPORTED_KHR")
    } else if e == ERROR_VIDEO_PROFILE_CODEC_NOT_SUPPORTED_KHR {
        Some("ERROR_VIDEO_PROFILE_CODEC_NOT_SUPPORTED_KHR")
    } else if e == ERROR_VIDEO_STD_VERSION_NOT_SUPPORTED_KHR {
        Some("ERROR_VIDEO_STD_VERSION_NOT_SUPPORTED_KHR")
    } else if e == ERROR_INVALID_DRM_FORMAT_MODIFIER_PLANE_LAYOUT_EXT {
        Some("ERROR_INVALID_DRM_FORMAT_MODIFIER_PLANE_LAYOUT_EXT")
    } else if e == ERROR_NOT_PERMITTED_EXT {
        Some("ERROR_NOT_PERMITTED_EXT")
    } else if e == THREAD_IDLE_KHR {
        Some("THREAD_IDLE_KHR")
    } else if e == THREAD_DONE_KHR {
        Some("THREAD_DONE_KHR")
    } else if e == OPERATION_DEFERRED_KHR {
        Some("OPERATION_DEFERRED_KHR")
    } else if e == OPERATION_NOT_DEFERRED_KHR {
        Some("OPERATION_NOT_DEFERRED_KHR")
    } else if e == ERROR_COMPRESSION_EXHAUSTED_EXT {
        Some("ERROR_COMPRESSION_EXHAUSTED_EXT")
    } else {
        None
    }
}

/// Gives the Vulkan name of a result code, or `None` for a code without one.
pub fn result_name(e: i32) -> (r: Option<&'static str>)
    ensures
        r == result_name_spec(e),
{
    if e == SUCCESS {
        Some("SUCCESS")
    } else if e == NOT_READY {
        Some("NOT_READY")
    } else if e == TIMEOUT {
        Some("TIMEOUT")
    } else if e == EVENT_SET {
        Some("EVENT_SET")
    } else if e == EVENT_RESET {
        Some("EVENT_RESET")
    } else if e == INCOMPLETE {
        Some("INCOMPLETE")
    } else if e == ERROR_OUT_OF_HOST_MEMORY {
        Some("ERROR_OUT_OF_HOST_MEMORY")
    } else if e == ERROR_OUT_OF_DEVICE_MEMORY {
        Some("ERROR_OUT_OF_DEVICE_MEMORY")
    } else if e == ERROR_INITIALIZATION_FAILED {
        Some("ERROR_INITIALIZATION_FAILED")
    } else if e == ERROR_DEVICE_LOST {
        Some("ERROR_DEVICE_LOST")
    } else if e == ERROR_MEMORY_MAP_FAILED {
        Some("ERROR_MEMORY_MAP_FAILED")
    } else if e == ERROR_LAYER_NOT_PRESENT {
        Some("ERROR_LAYER_NOT_PRESENT")
    } else if e == ERROR_EXTENSION_NOT_PRESENT {
        Some("ERROR_EXTENSION_NOT_PRESENT")
    } else if e == ERROR_FEATURE_NOT_PRESENT {
        Some("ERROR_FEATURE_NOT_PRESENT")
    } else if e == ERROR_INCOMPATIBLE_DRIVER {
        Some("ERROR_INCOMPATIBLE_DRIVER")
    } else if e == ERROR_TOO_MANY_OBJECTS {
        Some("ERROR_TOO_MANY_OBJECTS")
    } else if e == ERROR_FORMAT_NOT_SUPPORTED {
        Some("ERROR_FORMAT_NOT_SUPPORTED")
    } else if e == ERROR_FRAGMENTED_POOL {
        Some("ERROR_FRAGMENTED_POOL")
    } else if e == ERROR_UNKNOWN {
        Some("ERROR_UNKNOWN")
    } else if e == ERROR_OUT_OF_POOL_MEMORY {
        Some("ERROR_OUT_OF_POOL_MEMORY")
    } else if e == ERROR_INVALID_EXTERNAL_HANDLE {
        Some("ERROR_INVALID_EXTERNAL_HANDLE")
    } else if e == ERROR_FRAGMENTATION {
        Some("ERROR_FRAGMENTATION")
    } else if e == ERROR_INVALID_OPAQUE_CAPTURE_ADDRESS {
        Some("ERROR_INVALID_OPAQUE_CAPTURE_ADDRESS")
    } else if e == PIPELINE_COMPILE_REQUIRED {
        Some("PIPELINE_COMPILE_REQUIRED")
    } else if e == ERROR_SURFACE_LOST_KHR {
        Some("ERROR_SURFACE_LOST_KHR")
    } else if e == ERROR_NATIVE_WINDOW_IN_USE_KHR {
        Some("ERROR_NATIVE_WINDOW_IN_USE_KHR")
    } else if e == SUBOPTIMAL_KHR {
        Some("SUBOPTIMAL_KHR")
    } else if e == ERROR_OUT_OF_DATE_KHR {
        Some("ERROR_OUT_OF_DATE_KHR")
    } else if e == ERROR_INCOMPATIBLE_DISPLAY_KHR {
        Some("ERROR_INCOMPATIBLE_DISPLAY_KHR")
    } else if e == ERROR_VALIDATION_FAILED_EXT {
        Some("ERROR_VALIDATION_FAILED_EXT")
    } else if e == ERROR_INVALID_SHADER_NV {
        Some("ERROR_INVALID_SHADER_NV")
    } else if e == ERROR_IMAGE_USAGE_NOT_SUPPORTED_KHR {
        Some("ERROR_IMAGE_USAGE_NOT_SUPPORTED_KHR")
    } else if e == ERROR_VIDEO_PICTURE_LAYOUT_NOT_SUPPORTED_KHR {
        Some("ERROR_VIDEO_PICTURE_LAYOUT_NOT_SUPPORTED_KHR")
    } else if e == ERROR_VIDEO_PROFILE_OPERATION_NOT_SUPPORTED_KHR {
        Some("ERROR_VIDEO_PROFILE_OPERATION_NOT_SUPPORTED_KHR")
    } else if e == ERROR_VIDEO_PROFILE_FORMAT_NOT_SUPPORTED_KHR {
        Some("ERROR_VIDEO_PROFILE_FORMAT_NOT_SUPPORTED_KHR")
    } else if e == ERROR_VIDEO_PROFILE_CODEC_NOT_SUPPORTED_KHR {
        Some("ERROR_VIDEO_PROFILE_CODEC_NOT_SUPPORTED_KHR")
    } else if e == ERROR_VIDEO_STD_VERSION_NOT_SUPPORTED_KHR {
        Some("ERROR_VIDEO_STD_VERSION_NOT_SUPPORTED_KHR")
    } else if e == ERROR_INVALID_DRM_FORMAT_MODIFIER_PLANE_LAYOUT_EXT {
        Some("ERROR_INVALID_DRM_FORMAT_MODIFIER_PLANE_LAYOUT_EXT")
    } else if e == ERROR_NOT_PERMITTED_EXT {
        Some("ERROR_NOT_PERMITTED_EXT")
    } else if e == THREAD_IDLE_KHR {
        Some("THREAD_IDLE_KHR")
    } else if e == THREAD_DONE_KHR {
        Some("THREAD_DONE_KHR")
    } else if e == OPERATION_DEFERRED_KHR {
        Some("OPERATION_DEFERRED_KHR")
    } else if e == OPERATION_NOT_DEFERRED_KHR {
        Some("OPERATION_NOT_DEFERRED_KHR")
    } else if e == ERROR_COMPRESSION_EXHAUSTED_EXT {
        Some("ERROR_COMPRESSION_EXHAUSTED_EXT")
    } else {
        None
    }
}

/// An error reported by the Vulkan driver, carried as its result code.
#[derive(Clone, Copy, PartialEq, Eq, Structural, Debug, Hash)]
pub enum Error {
    Vulkan(i32),
}

impl Error {
    /// The Vulkan name of the error's result code, if it has one.
    pub fn name(&self) -> (r: Option<&'static str>)
        ensures
            r == match *self {
                Error::Vulkan(e) => result_name_spec(e),
            },
    {
        match self {
            Error::Vulkan(e) => result_name(*e),
        }
    }
}

impl vstd::std_specs::convert::FromSpecImpl<i32> for Error {
    open spec fn obeys_from_spec() -> bool {
        true
    }

    open spec fn from_spec(v: i32) -> Error {
        Error::Vulkan(v)
    }
}

impl From<i32> for Error {
    fn from(value: i32) -> (r: Error) {
        Error::Vulkan(value)
    }
}

} // verus!
