//! The numeric values of the Vulkan API that the library reads or produces.
//! Handles are carried as their raw 64-bit values; enumerations and flag sets
//! as the integers that the Vulkan headers assign to them.

use vstd::prelude::*;

verus! {

/// The null value of every Vulkan handle.
pub const NULL_HANDLE: u64 = 0;

/// `VkPipelineBindPoint::GRAPHICS`.
pub const PIPELINE_BIND_POINT_GRAPHICS: i32 = 0;

/// `VkPipelineBindPoint::COMPUTE`.
pub const PIPELINE_BIND_POINT_COMPUTE: i32 = 1;

/// `VkColorSpaceKHR::SRGB_NONLINEAR`.
pub const COLOR_SPACE_SRGB_NONLINEAR: i32 = 0;

/// The result codes that the layer returns.
#[derive(Debug, Clone, Copy, PartialEq, Eq, Structural)]
pub enum VkResult {
    /// `VK_SUCCESS`
    Success,
    /// `VK_INCOMPLETE`
    Incomplete,
    /// `VK_ERROR_UNKNOWN`
    ErrorUnknown,
}

/// The Vulkan code of a result.
pub open spec fn result_code(r: VkResult) -> i32 {
    match r {
        VkResult::Success => 0,
        VkResult::Incomplete => 5,
        VkResult::ErrorUnknown => -13i32,
    }
}

impl VkResult {
    /// The Vulkan code of this result, as `vkXxx` functions return it.
    pub fn as_raw(&self) -> (code: i32)
        ensures
            code == result_code(*self),
    {
        match self {
            VkResult::Success => 0,
            VkResult::Incomplete => 5,
            VkResult::ErrorUnknown => -13i32,
        }
    }
}

} // verus!
