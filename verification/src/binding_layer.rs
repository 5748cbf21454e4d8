//! The entry point tables: which Vulkan command a name passed to
//! `vkGetInstanceProcAddr` or `vkGetDeviceProcAddr` resolves to.

use vstd::prelude::*;
use vstd::string::StringSliceAdditionalSpecFns;

verus! {

/// Whether two strings hold the same characters.
pub fn str_eq(a: &str, b: &str) -> (r: bool)
    ensures
        r == (a@ == b@),
{
    let x = a.as_bytes();
    let y = b.as_bytes();
    proof {
        vstd::utf8::encode_utf8_decode_utf8(a@);
        vstd::utf8::encode_utf8_decode_utf8(b@);
    }
    if x.len() != y.len() {
        return false;
    }
    let n = x.len();
    let mut i: usize = 0;
    while i < n
        invariant
            n == x@.len(),
            n == y@.len(),
            x@ == a.spec_bytes(),
            y@ == b.spec_bytes(),
            0 <= i <= n,
            forall|j: int| 0 <= j < i ==> x@[j] == y@[j],
        decreases n - i,
    {
        if x[i] != y[i] {
            return false;
        }
        i = i + 1;
    }
    assert(x@ =~= y@);
    true
}

/// An instance-level command that the layer implements.
#[derive(Debug, Clone, Copy, PartialEq, Eq, Structural)]
pub enum InstanceEntry {
    /// `vkCreateInstance`
    CreateInstance,
    /// `vkDestroyInstance`
    DestroyInstance,
    /// `vkEnumeratePhysicalDevices`
    EnumeratePhysicalDevices,
    /// `vkGetDeviceProcAddr`
    GetDeviceProcAddr,
    /// `vkCreateDevice`
    CreateDevice,
    /// `vkGetPhysicalDeviceMemoryProperties`
    GetPhysicalDeviceMemoryProperties,
    /// `vkGetPhysicalDeviceSurfaceCapabilitiesKHR`
    GetPhysicalDeviceSurfaceCapabilities,
    /// `vkGetPhysicalDeviceSurfaceFormatsKHR`
    GetPhysicalDeviceSurfaceFormats,
    /// `vkDestroySurfaceKHR`
    DestroySurface,
}

/// A device-level command that the layer resolves.
#[derive(Debug, Clone, Copy, PartialEq, Eq, Structural)]
pub enum DeviceEntry {
    /// `vkDestroyDevice`
    DestroyDevice,
    /// `vkGetDeviceQueue`
    GetDeviceQueue,
    /// `vkGetBufferMemoryRequirements`
    GetBufferMemoryRequirements,
    /// `vkAllocateMemory`
    AllocateMemory,
    /// `vkFreeMemory`
    FreeMemory,
    /// `vkMapMemory`
    MapMemory,
    /// `vkUnmapMemory`
    UnmapMemory,
    /// `vkBindBufferMemory`
    BindBufferMemory,
    /// `vkCreateCommandPool`
    CreateCommandPool,
    /// `vkDestroyCommandPool`
    DestroyCommandPool,
    /// `vkAllocateCommandBuffers`
    AllocateCommandBuffers,
    /// `vkFreeCommandBuffers`
    FreeCommandBuffers,
    /// `vkQueueSubmit`
    QueueSubmit,
    /// `vkQueueWaitIdle`
    QueueWaitIdle,
    /// `vkCreateShaderModule`
    CreateShaderModule,
    /// `vkDestroyShaderModule`
    DestroyShaderModule,
    /// `vkCreateSwapchainKHR`
    CreateSwapchain,
    /// `vkCreatePipelineLayout`
    CreatePipelineLayout,
    /// `vkDestroyPipelineLayout`
    DestroyPipelineLayout,
    /// `vkCreateDescriptorPool`
    CreateDescriptorPool,
    /// `vkDestroyDescriptorPool`
    DestroyDescriptorPool,
    /// `vkAllocateDescriptorSets`
    AllocateDescriptorSets,
    /// `vkCreateDescriptorSetLayout`
    CreateDescriptorSetLayout,
    /// `vkDestroyDescriptorSetLayout`
    DestroyDescriptorSetLayout,
    /// `vkUpdateDescriptorSets`
    UpdateDescriptorSets,
    /// `vkCreateGraphicsPipelines`
    CreateGraphicsPipelines,
    /// `vkCreateComputePipelines`
    CreateComputePipelines,
    /// `vkDestroyPipeline`
    DestroyPipeline,
    /// `vkCreateImageView`
    CreateImageView,
    /// `vkDestroyImageView`
    DestroyImageView,
    /// `vkDestroySwapchainKHR`
    DestroySwapchain,
    /// `vkGetSwapchainImagesKHR`
    GetSwapchainImages,
    /// `vkAcquireNextImageKHR`
    AcquireNextImage,
    /// `vkCreateSemaphore`
    CreateSemaphore,
    /// `vkDestroySemaphore`
    DestroySemaphore,
    /// `vkCreateBuffer`
    CreateBuffer,
    /// `vkDestroyBuffer`
    DestroyBuffer,
    /// `vkResetCommandBuffer`
    ResetCommandBuffer,
    /// `vkBeginCommandBuffer`
    BeginCommandBuffer,
    /// `vkEndCommandBuffer`
    EndCommandBuffer,
    /// `vkCmdBeginRendering`
    CmdBeginRendering,
    /// `vkCmdEndRendering`
    CmdEndRendering,
    /// `vkCmdBindPipeline`
    CmdBindPipeline,
    /// `vkCmdBindDescriptorSets`
    CmdBindDescriptorSets,
    /// `vkCmdBindVertexBuffers`
    CmdBindVertexBuffers,
    /// `vkCmdPipelineBarrier`
    CmdPipelineBarrier,
    /// `vkCmdDraw`
    CmdDraw,
    /// `vkCmdDispatch`
    CmdDispatch,
    /// `vkQueuePresentKHR`
    QueuePresent,
    /// `vkDeviceWaitIdle`
    DeviceWaitIdle,
}

/// The instance-level command that `name` names.
pub open spec fn instance_entry(name: Seq<char>) -> Option<InstanceEntry> {
    if name == "vkCreateInstance"@ {
        Some(InstanceEntry::CreateInstance)
    } else if name == "vkDestroyInstance"@ {
        Some(InstanceEntry::DestroyInstance)
    } else if name == "vkEnumeratePhysicalDevices"@ {
        Some(InstanceEntry::EnumeratePhysicalDevices)
    } else if name == "vkGetDeviceProcAddr"@ {
        Some(InstanceEntry::GetDeviceProcAddr)
    } else if name == "vkCreateDevice"@ {
        Some(InstanceEntry::CreateDevice)
    } else if name == "vkGetPhysicalDeviceMemoryProperties"@ {
        Some(InstanceEntry::GetPhysicalDeviceMemoryProperties)
    } else if name == "vkGetPhysicalDeviceSurfaceCapabilitiesKHR"@ {
        Some(InstanceEntry::GetPhysicalDeviceSurfaceCapabilities)
    } else if name == "vkGetPhysicalDeviceSurfaceFormatsKHR"@ {
        Some(InstanceEntry::GetPhysicalDeviceSurfaceFormats)
    } else if name == "vkDestroySurfaceKHR"@ {
        Some(InstanceEntry::DestroySurface)
    } else {
        None
    }
}

/// The device-level command that `name` names; the `KHR` names of dynamic rendering resolve to the core commands.
pub open spec fn device_entry(name: Seq<char>) -> Option<DeviceEntry> {
    if name == "vkDestroyDevice"@ {
        Some(DeviceEntry::DestroyDevice)
    } else if name == "vkGetDeviceQueue"@ {
        Some(DeviceEntry::GetDeviceQueue)
    } else if name == "vkGetBufferMemoryRequirements"@ {
        Some(DeviceEntry::GetBufferMemoryRequirements)
    } else if name == "vkAllocateMemory"@ {
        Some(DeviceEntry::AllocateMemory)
    } else if name == "vkFreeMemory"@ {
        Some(DeviceEntry::FreeMemory)
    } else if name == "vkMapMemory"@ {
        Some(DeviceEntry::MapMemory)
    } else if name == "vkUnmapMemory"@ {
        Some(DeviceEntry::UnmapMemory)
    } else if name == "vkBindBufferMemory"@ {
        Some(DeviceEntry::BindBufferMemory)
    } else if name == "vkCreateCommandPool"@ {
        Some(DeviceEntry::CreateCommandPool)
    } else if name == "vkDestroyCommandPool"@ {
        Some(DeviceEntry::DestroyCommandPool)
    } else if name == "vkAllocateCommandBuffers"@ {
        Some(DeviceEntry::AllocateCommandBuffers)
    } else if name == "vkFreeCommandBuffers"@ {
        Some(DeviceEntry::FreeCommandBuffers)
    } else if name == "vkQueueSubmit"@ {
        Some(DeviceEntry::QueueSubmit)
    } else if name == "vkQueueWaitIdle"@ {
        Some(DeviceEntry::QueueWaitIdle)
    } else if name == "vkCreateShaderModule"@ {
        Some(DeviceEntry::CreateShaderModule)
    } else if name == "vkDestroyShaderModule"@ {
        Some(DeviceEntry::DestroyShaderModule)
    } else if name == "vkCreateSwapchainKHR"@ {
        Some(DeviceEntry::CreateSwapchain)
    } else if name == "vkCreatePipelineLayout"@ {
        Some(DeviceEntry::CreatePipelineLayout)
    } else if name == "vkDestroyPipelineLayout"@ {
        Some(DeviceEntry::DestroyPipelineLayout)
    } else if name == "vkCreateDescriptorPool"@ {
        Some(DeviceEntry::CreateDescriptorPool)
    } else if name == "vkDestroyDescriptorPool"@ {
        Some(DeviceEntry::DestroyDescriptorPool)
    } else if name == "vkAllocateDescriptorSets"@ {
        Some(DeviceEntry::AllocateDescriptorSets)
    } else if name == "vkCreateDescriptorSetLayout"@ {
        Some(DeviceEntry::CreateDescriptorSetLayout)
    } else if name == "vkDestroyDescriptorSetLayout"@ {
        Some(DeviceEntry::DestroyDescriptorSetLayout)
    } else if name == "vkUpdateDescriptorSets"@ {
        Some(DeviceEntry::UpdateDescriptorSets)
    } else if name == "vkCreateGraphicsPipelines"@ {
        Some(DeviceEntry::CreateGraphicsPipelines)
    } else if name == "vkCreateComputePipelines"@ {
        Some(DeviceEntry::CreateComputePipelines)
    } else if name == "vkDestroyPipeline"@ {
        Some(DeviceEntry::DestroyPipeline)
    } else if name == "vkCreateImageView"@ {
        Some(DeviceEntry::CreateImageView)
    } else if name == "vkDestroyImageView"@ {
        Some(DeviceEntry::DestroyImageView)
    } else if name == "vkDestroySwapchainKHR"@ {
        Some(DeviceEntry::DestroySwapchain)
    } else if name == "vkGetSwapchainImagesKHR"@ {
        Some(DeviceEntry::GetSwapchainImages)
    } else if name == "vkAcquireNextImageKHR"@ {
        Some(DeviceEntry::AcquireNextImage)
    } else if name == "vkCreateSemaphore"@ {
        Some(DeviceEntry::CreateSemaphore)
    } else if name == "vkDestroySemaphore"@ {
        Some(DeviceEntry::DestroySemaphore)
    } else if name == "vkCreateBuffer"@ {
        Some(DeviceEntry::CreateBuffer)
    } else if name == "vkDestroyBuffer"@ {
        Some(DeviceEntry::DestroyBuffer)
    } else if name == "vkResetCommandBuffer"@ {
        Some(DeviceEntry::ResetCommandBuffer)
    } else if name == "vkBeginCommandBuffer"@ {
        Some(DeviceEntry::BeginCommandBuffer)
    } else if name == "vkEndCommandBuffer"@ {
        Some(DeviceEntry::EndCommandBuffer)
    } else if name == "vkCmdBeginRendering"@ {
        Some(DeviceEntry::CmdBeginRendering)
    } else if name == "vkCmdEndRendering"@ {
        Some(DeviceEntry::CmdEndRendering)
    } else if name == "vkCmdBeginRenderingKHR"@ {
        Some(DeviceEntry::CmdBeginRendering)
    } else if name == "vkCmdEndRenderingKHR"@ {
        Some(DeviceEntry::CmdEndRendering)
    } else if name == "vkCmdBindPipeline"@ {
        Some(DeviceEntry::CmdBindPipeline)
    } else if name == "vkCmdBindDescriptorSets"@ {
        Some(DeviceEntry::CmdBindDescriptorSets)
    } else if name == "vkCmdBindVertexBuffers"@ {
        Some(DeviceEntry::CmdBindVertexBuffers)
    } else if name == "vkCmdPipelineBarrier"@ {
        Some(DeviceEntry::CmdPipelineBarrier)
    } else if name == "vkCmdDraw"@ {
        Some(DeviceEntry::CmdDraw)
    } else if name == "vkCmdDispatch"@ {
        Some(DeviceEntry::CmdDispatch)
    } else if name == "vkQueuePresentKHR"@ {
        Some(DeviceEntry::QueuePresent)
    } else if name == "vkDeviceWaitIdle"@ {
        Some(DeviceEntry::DeviceWaitIdle)
    } else {
        None
    }
}

/// The name of the Vulkan command that an instance-level entry implements.
pub open spec fn instance_entry_name(entry: InstanceEntry) -> Seq<char> {
    match entry {
        InstanceEntry::CreateInstance => "vkCreateInstance"@,
        InstanceEntry::DestroyInstance => "vkDestroyInstance"@,
        InstanceEntry::EnumeratePhysicalDevices => "vkEnumeratePhysicalDevices"@,
        InstanceEntry::GetDeviceProcAddr => "vkGetDeviceProcAddr"@,
        InstanceEntry::CreateDevice => "vkCreateDevice"@,
        InstanceEntry::GetPhysicalDeviceMemoryProperties => "vkGetPhysicalDeviceMemoryProperties"@,
        InstanceEntry::GetPhysicalDeviceSurfaceCapabilities => "vkGetPhysicalDeviceSurfaceCapabilitiesKHR"@,
        InstanceEntry::GetPhysicalDeviceSurfaceFormats => "vkGetPhysicalDeviceSurfaceFormatsKHR"@,
        InstanceEntry::DestroySurface => "vkDestroySurfaceKHR"@,
    }
}

/// The name of the Vulkan command that a device-level entry implements.
pub open spec fn device_entry_name(entry: DeviceEntry) -> Seq<char> {
    match entry {
        DeviceEntry::DestroyDevice => "vkDestroyDevice"@,
        DeviceEntry::GetDeviceQueue => "vkGetDeviceQueue"@,
        DeviceEntry::GetBufferMemoryRequirements => "vkGetBufferMemoryRequirements"@,
        DeviceEntry::AllocateMemory => "vkAllocateMemory"@,
        DeviceEntry::FreeMemory => "vkFreeMemory"@,
        DeviceEntry::MapMemory => "vkMapMemory"@,
        DeviceEntry::UnmapMemory => "vkUnmapMemory"@,
        DeviceEntry::BindBufferMemory => "vkBindBufferMemory"@,
        DeviceEntry::CreateCommandPool => "vkCreateCommandPool"@,
        DeviceEntry::DestroyCommandPool => "vkDestroyCommandPool"@,
        DeviceEntry::AllocateCommandBuffers => "vkAllocateCommandBuffers"@,
        DeviceEntry::FreeCommandBuffers => "vkFreeCommandBuffers"@,
        DeviceEntry::QueueSubmit => "vkQueueSubmit"@,
        DeviceEntry::QueueWaitIdle => "vkQueueWaitIdle"@,
        DeviceEntry::CreateShaderModule => "vkCreateShaderModule"@,
        DeviceEntry::DestroyShaderModule => "vkDestroyShaderModule"@,
        DeviceEntry::CreateSwapchain => "vkCreateSwapchainKHR"@,
        DeviceEntry::CreatePipelineLayout => "vkCreatePipelineLayout"@,
        DeviceEntry::DestroyPipelineLayout => "vkDestroyPipelineLayout"@,
        DeviceEntry::CreateDescriptorPool => "vkCreateDescriptorPool"@,
        DeviceEntry::DestroyDescriptorPool => "vkDestroyDescriptorPool"@,
        DeviceEntry::AllocateDescriptorSets => "vkAllocateDescriptorSets"@,
        DeviceEntry::CreateDescriptorSetLayout => "vkCreateDescriptorSetLayout"@,
        DeviceEntry::DestroyDescriptorSetLayout => "vkDestroyDescriptorSetLayout"@,
        DeviceEntry::UpdateDescriptorSets => "vkUpdateDescriptorSets"@,
        DeviceEntry::CreateGraphicsPipelines => "vkCreateGraphicsPipelines"@,
        DeviceEntry::CreateComputePipelines => "vkCreateComputePipelines"@,
        DeviceEntry::DestroyPipeline => "vkDestroyPipeline"@,
        DeviceEntry::CreateImageView => "vkCreateImageView"@,
        DeviceEntry::DestroyImageView => "vkDestroyImageView"@,
        DeviceEntry::DestroySwapchain => "vkDestroySwapchainKHR"@,
        DeviceEntry::GetSwapchainImages => "vkGetSwapchainImagesKHR"@,
        DeviceEntry::AcquireNextImage => "vkAcquireNextImageKHR"@,
        DeviceEntry::CreateSemaphore => "vkCreateSemaphore"@,
        DeviceEntry::DestroySemaphore => "vkDestroySemaphore"@,
        DeviceEntry::CreateBuffer => "vkCreateBuffer"@,
        DeviceEntry::DestroyBuffer => "vkDestroyBuffer"@,
        DeviceEntry::ResetCommandBuffer => "vkResetCommandBuffer"@,
        DeviceEntry::BeginCommandBuffer => "vkBeginCommandBuffer"@,
        DeviceEntry::EndCommandBuffer => "vkEndCommandBuffer"@,
        DeviceEntry::CmdBeginRendering => "vkCmdBeginRendering"@,
        DeviceEntry::CmdEndRendering => "vkCmdEndRendering"@,
        DeviceEntry::CmdBindPipeline => "vkCmdBindPipeline"@,
        DeviceEntry::CmdBindDescriptorSets => "vkCmdBindDescriptorSets"@,
        DeviceEntry::CmdBindVertexBuffers => "vkCmdBindVertexBuffers"@,
        DeviceEntry::CmdPipelineBarrier => "vkCmdPipelineBarrier"@,
        DeviceEntry::CmdDraw => "vkCmdDraw"@,
        DeviceEntry::CmdDispatch => "vkCmdDispatch"@,
        DeviceEntry::QueuePresent => "vkQueuePresentKHR"@,
        DeviceEntry::DeviceWaitIdle => "vkDeviceWaitIdle"@,
    }
}

/// The lengths of the instance-level command names, and a character at which any two
/// names of the same length differ.
proof fn lemma_instance_names_distinct()
    ensures
        "vkCreateInstance"@.len() == 16,
        "vkDestroyInstance"@.len() == 17,
        "vkEnumeratePhysicalDevices"@.len() == 26,
        "vkGetDeviceProcAddr"@.len() == 19,
        "vkCreateDevice"@.len() == 14,
        "vkGetPhysicalDeviceMemoryProperties"@.len() == 35,
        "vkGetPhysicalDeviceSurfaceCapabilitiesKHR"@.len() == 41,
        "vkGetPhysicalDeviceSurfaceFormatsKHR"@.len() == 36,
        "vkDestroySurfaceKHR"@.len() == 19,
        "vkGetDeviceProcAddr"@[2] != "vkDestroySurfaceKHR"@[2],
{
    reveal_strlit("vkCreateInstance");
    reveal_strlit("vkDestroyInstance");
    reveal_strlit("vkEnumeratePhysicalDevices");
    reveal_strlit("vkGetDeviceProcAddr");
    reveal_strlit("vkCreateDevice");
    reveal_strlit("vkGetPhysicalDeviceMemoryProperties");
    reveal_strlit("vkGetPhysicalDeviceSurfaceCapabilitiesKHR");
    reveal_strlit("vkGetPhysicalDeviceSurfaceFormatsKHR");
    reveal_strlit("vkDestroySurfaceKHR");
}

/// The lengths of the device-level command names, and a character at which any two
/// names of the same length differ.
proof fn lemma_device_names_distinct()
    ensures
        "vkDestroyDevice"@.len() == 15,
        "vkGetDeviceQueue"@.len() == 16,
        "vkGetBufferMemoryRequirements"@.len() == 29,
        "vkAllocateMemory"@.len() == 16,
        "vkFreeMemory"@.len() == 12,
        "vkMapMemory"@.len() == 11,
        "vkUnmapMemory"@.len() == 13,
        "vkBindBufferMemory"@.len() == 18,
        "vkCreateCommandPool"@.len() == 19,
        "vkDestroyCommandPool"@.len() == 20,
        "vkAllocateCommandBuffers"@.len() == 24,
        "vkFreeCommandBuffers"@.len() == 20,
        "vkQueueSubmit"@.len() == 13,
        "vkQueueWaitIdle"@.len() == 15,
        "vkCreateShaderModule"@.len() == 20,
        "vkDestroyShaderModule"@.len() == 21,
        "vkCreateSwapchainKHR"@.len() == 20,
        "vkCreatePipelineLayout"@.len() == 22,
        "vkDestroyPipelineLayout"@.len() == 23,
        "vkCreateDescriptorPool"@.len() == 22,
        "vkDestroyDescriptorPool"@.len() == 23,
        "vkAllocateDescriptorSets"@.len() == 24,
        "vkCreateDescriptorSetLayout"@.len() == 27,
        "vkDestroyDescriptorSetLayout"@.len() == 28,
        "vkUpdateDescriptorSets"@.len() == 22,
        "vkCreateGraphicsPipelines"@.len() == 25,
        "vkCreateComputePipelines"@.len() == 24,
        "vkDestroyPipeline"@.len() == 17,
        "vkCreateImageView"@.len() == 17,
        "vkDestroyImageView"@.len() == 18,
        "vkDestroySwapchainKHR"@.len() == 21,
        "vkGetSwapchainImagesKHR"@.len() == 23,
        "vkAcquireNextImageKHR"@.len() == 21,
        "vkCreateSemaphore"@.len() == 17,
        "vkDestroySemaphore"@.len() == 18,
        "vkCreateBuffer"@.len() == 14,
        "vkDestroyBuffer"@.len() == 15,
        "vkResetCommandBuffer"@.len() == 20,
        "vkBeginCommandBuffer"@.len() == 20,
        "vkEndCommandBuffer"@.len() == 18,
        "vkCmdBeginRendering"@.len() == 19,
        "vkCmdEndRendering"@.len() == 17,
        "vkCmdBindPipeline"@.len() == 17,
        "vkCmdBindDescriptorSets"@.len() == 23,
        "vkCmdBindVertexBuffers"@.len() == 22,
        "vkCmdPipelineBarrier"@.len() == 20,
        "vkCmdDraw"@.len() == 9,
        "vkCmdDispatch"@.len() == 13,
        "vkQueuePresentKHR"@.len() == 17,
        "vkDeviceWaitIdle"@.len() == 16,
        "vkCmdBeginRenderingKHR"@.len() == 22,
        "vkCmdEndRenderingKHR"@.len() == 20,
        "vkDestroyDevice"@[2] != "vkQueueWaitIdle"@[2],
        "vkDestroyDevice"@[9] != "vkDestroyBuffer"@[9],
        "vkGetDeviceQueue"@[2] != "vkAllocateMemory"@[2],
        "vkGetDeviceQueue"@[2] != "vkDeviceWaitIdle"@[2],
        "vkAllocateMemory"@[2] != "vkDeviceWaitIdle"@[2],
        "vkUnmapMemory"@[2] != "vkQueueSubmit"@[2],
        "vkUnmapMemory"@[2] != "vkCmdDispatch"@[2],
        "vkBindBufferMemory"@[2] != "vkDestroyImageView"@[2],
        "vkBindBufferMemory"@[2] != "vkDestroySemaphore"@[2],
        "vkBindBufferMemory"@[2] != "vkEndCommandBuffer"@[2],
        "vkCreateCommandPool"@[3] != "vkCmdBeginRendering"@[3],
        "vkDestroyCommandPool"@[2] != "vkFreeCommandBuffers"@[2],
        "vkDestroyCommandPool"@[2] != "vkCreateShaderModule"@[2],
        "vkDestroyCommandPool"@[2] != "vkCreateSwapchainKHR"@[2],
        "vkDestroyCommandPool"@[2] != "vkResetCommandBuffer"@[2],
        "vkDestroyCommandPool"@[2] != "vkBeginCommandBuffer"@[2],
        "vkDestroyCommandPool"@[2] != "vkCmdPipelineBarrier"@[2],
        "vkDestroyCommandPool"@[2] != "vkCmdEndRenderingKHR"@[2],
        "vkAllocateCommandBuffers"@[10] != "vkAllocateDescriptorSets"@[10],
        "vkAllocateCommandBuffers"@[2] != "vkCreateComputePipelines"@[2],
        "vkFreeCommandBuffers"@[2] != "vkCreateShaderModule"@[2],
        "vkFreeCommandBuffers"@[2] != "vkCreateSwapchainKHR"@[2],
        "vkFreeCommandBuffers"@[2] != "vkResetCommandBuffer"@[2],
        "vkFreeCommandBuffers"@[2] != "vkBeginCommandBuffer"@[2],
        "vkFreeCommandBuffers"@[2] != "vkCmdPipelineBarrier"@[2],
        "vkFreeCommandBuffers"@[2] != "vkCmdEndRenderingKHR"@[2],
        "vkQueueSubmit"@[2] != "vkCmdDispatch"@[2],
        "vkQueueWaitIdle"@[2] != "vkDestroyBuffer"@[2],
        "vkCreateShaderModule"@[9] != "vkCreateSwapchainKHR"@[9],
        "vkCreateShaderModule"@[2] != "vkResetCommandBuffer"@[2],
        "vkCreateShaderModule"@[2] != "vkBeginCommandBuffer"@[2],
        "vkCreateShaderModule"@[3] != "vkCmdPipelineBarrier"@[3],
        "vkCreateShaderModule"@[3] != "vkCmdEndRenderingKHR"@[3],
        "vkDestroyShaderModule"@[10] != "vkDestroySwapchainKHR"@[10],
        "vkDestroyShaderModule"@[2] != "vkAcquireNextImageKHR"@[2],
        "vkCreateSwapchainKHR"@[2] != "vkResetCommandBuffer"@[2],
        "vkCreateSwapchainKHR"@[2] != "vkBeginCommandBuffer"@[2],
        "vkCreateSwapchainKHR"@[3] != "vkCmdPipelineBarrier"@[3],
        "vkCreateSwapchainKHR"@[3] != "vkCmdEndRenderingKHR"@[3],
        "vkCreatePipelineLayout"@[8] != "vkCreateDescriptorPool"@[8],
        "vkCreatePipelineLayout"@[2] != "vkUpdateDescriptorSets"@[2],
        "vkCreatePipelineLayout"@[3] != "vkCmdBindVertexBuffers"@[3],
        "vkCreatePipelineLayout"@[3] != "vkCmdBeginRenderingKHR"@[3],
        "vkDestroyPipelineLayout"@[9] != "vkDestroyDescriptorPool"@[9],
        "vkDestroyPipelineLayout"@[2] != "vkGetSwapchainImagesKHR"@[2],
        "vkDestroyPipelineLayout"@[2] != "vkCmdBindDescriptorSets"@[2],
        "vkCreateDescriptorPool"@[2] != "vkUpdateDescriptorSets"@[2],
        "vkCreateDescriptorPool"@[3] != "vkCmdBindVertexBuffers"@[3],
        "vkCreateDescriptorPool"@[3] != "vkCmdBeginRenderingKHR"@[3],
        "vkDestroyDescriptorPool"@[2] != "vkGetSwapchainImagesKHR"@[2],
        "vkDestroyDescriptorPool"@[2] != "vkCmdBindDescriptorSets"@[2],
        "vkAllocateDescriptorSets"@[2] != "vkCreateComputePipelines"@[2],
        "vkUpdateDescriptorSets"@[2] != "vkCmdBindVertexBuffers"@[2],
        "vkUpdateDescriptorSets"@[2] != "vkCmdBeginRenderingKHR"@[2],
        "vkDestroyPipeline"@[2] != "vkCreateImageView"@[2],
        "vkDestroyPipeline"@[2] != "vkCreateSemaphore"@[2],
        "vkDestroyPipeline"@[2] != "vkCmdEndRendering"@[2],
        "vkDestroyPipeline"@[2] != "vkCmdBindPipeline"@[2],
        "vkDestroyPipeline"@[2] != "vkQueuePresentKHR"@[2],
        "vkCreateImageView"@[8] != "vkCreateSemaphore"@[8],
        "vkCreateImageView"@[3] != "vkCmdEndRendering"@[3],
        "vkCreateImageView"@[3] != "vkCmdBindPipeline"@[3],
        "vkCreateImageView"@[2] != "vkQueuePresentKHR"@[2],
        "vkDestroyImageView"@[9] != "vkDestroySemaphore"@[9],
        "vkDestroyImageView"@[2] != "vkEndCommandBuffer"@[2],
        "vkDestroySwapchainKHR"@[2] != "vkAcquireNextImageKHR"@[2],
        "vkGetSwapchainImagesKHR"@[2] != "vkCmdBindDescriptorSets"@[2],
        "vkCreateSemaphore"@[3] != "vkCmdEndRendering"@[3],
        "vkCreateSemaphore"@[3] != "vkCmdBindPipeline"@[3],
        "vkCreateSemaphore"@[2] != "vkQueuePresentKHR"@[2],
        "vkDestroySemaphore"@[2] != "vkEndCommandBuffer"@[2],
        "vkResetCommandBuffer"@[2] != "vkBeginCommandBuffer"@[2],
        "vkResetCommandBuffer"@[2] != "vkCmdPipelineBarrier"@[2],
        "vkResetCommandBuffer"@[2] != "vkCmdEndRenderingKHR"@[2],
        "vkBeginCommandBuffer"@[2] != "vkCmdPipelineBarrier"@[2],
        "vkBeginCommandBuffer"@[2] != "vkCmdEndRenderingKHR"@[2],
        "vkCmdEndRendering"@[5] != "vkCmdBindPipeline"@[5],
        "vkCmdEndRendering"@[2] != "vkQueuePresentKHR"@[2],
        "vkCmdBindPipeline"@[2] != "vkQueuePresentKHR"@[2],
        "vkCmdBindVertexBuffers"@[6] != "vkCmdBeginRenderingKHR"@[6],
        "vkCmdPipelineBarrier"@[5] != "vkCmdEndRenderingKHR"@[5],
{
    reveal_strlit("vkDestroyDevice");
    reveal_strlit("vkGetDeviceQueue");
    reveal_strlit("vkGetBufferMemoryRequirements");
    reveal_strlit("vkAllocateMemory");
    reveal_strlit("vkFreeMemory");
    reveal_strlit("vkMapMemory");
    reveal_strlit("vkUnmapMemory");
    reveal_strlit("vkBindBufferMemory");
    reveal_strlit("vkCreateCommandPool");
    reveal_strlit("vkDestroyCommandPool");
    reveal_strlit("vkAllocateCommandBuffers");
    reveal_strlit("vkFreeCommandBuffers");
    reveal_strlit("vkQueueSubmit");
    reveal_strlit("vkQueueWaitIdle");
    reveal_strlit("vkCreateShaderModule");
    reveal_strlit("vkDestroyShaderModule");
    reveal_strlit("vkCreateSwapchainKHR");
    reveal_strlit("vkCreatePipelineLayout");
    reveal_strlit("vkDestroyPipelineLayout");
    reveal_strlit("vkCreateDescriptorPool");
    reveal_strlit("vkDestroyDescriptorPool");
    reveal_strlit("vkAllocateDescriptorSets");
    reveal_strlit("vkCreateDescriptorSetLayout");
    reveal_strlit("vkDestroyDescriptorSetLayout");
    reveal_strlit("vkUpdateDescriptorSets");
    reveal_strlit("vkCreateGraphicsPipelines");
    reveal_strlit("vkCreateComputePipelines");
    reveal_strlit("vkDestroyPipeline");
    reveal_strlit("vkCreateImageView");
    reveal_strlit("vkDestroyImageView");
    reveal_strlit("vkDestroySwapchainKHR");
    reveal_strlit("vkGetSwapchainImagesKHR");
    reveal_strlit("vkAcquireNextImageKHR");
    reveal_strlit("vkCreateSemaphore");
    reveal_strlit("vkDestroySemaphore");
    reveal_strlit("vkCreateBuffer");
    reveal_strlit("vkDestroyBuffer");
    reveal_strlit("vkResetCommandBuffer");
    reveal_strlit("vkBeginCommandBuffer");
    reveal_strlit("vkEndCommandBuffer");
    reveal_strlit("vkCmdBeginRendering");
    reveal_strlit("vkCmdEndRendering");
    reveal_strlit("vkCmdBindPipeline");
    reveal_strlit("vkCmdBindDescriptorSets");
    reveal_strlit("vkCmdBindVertexBuffers");
    reveal_strlit("vkCmdPipelineBarrier");
    reveal_strlit("vkCmdDraw");
    reveal_strlit("vkCmdDispatch");
    reveal_strlit("vkQueuePresentKHR");
    reveal_strlit("vkDeviceWaitIdle");
    reveal_strlit("vkCmdBeginRenderingKHR");
    reveal_strlit("vkCmdEndRenderingKHR");
}

/// An instance-level name resolves exactly to the entry of the command of
/// that name: every resolved entry is the one the name names, and every
/// entry is found under its own name.
pub proof fn lemma_instance_entry_names(name: Seq<char>, entry: InstanceEntry)
    ensures
        instance_entry(name) == Some(entry) ==> name == instance_entry_name(entry),
        instance_entry(instance_entry_name(entry)) == Some(entry),
{
    lemma_instance_names_distinct();
    match entry {
        InstanceEntry::CreateInstance => {},
        InstanceEntry::DestroyInstance => {},
        InstanceEntry::EnumeratePhysicalDevices => {},
        InstanceEntry::GetDeviceProcAddr => {},
        InstanceEntry::CreateDevice => {},
        InstanceEntry::GetPhysicalDeviceMemoryProperties => {},
        InstanceEntry::GetPhysicalDeviceSurfaceCapabilities => {},
        InstanceEntry::GetPhysicalDeviceSurfaceFormats => {},
        InstanceEntry::DestroySurface => {},
    }
}

/// A device-level name resolves exactly to the entry of the command of that
/// name, or of the core command whose `KHR` alias it is: every resolved
/// entry is the one the name names, and every entry is found under its own
/// name.
pub proof fn lemma_device_entry_names(name: Seq<char>, entry: DeviceEntry)
    ensures
        device_entry(name) == Some(entry) ==> name == device_entry_name(entry) || name
            == device_entry_name(entry) + "KHR"@,
        device_entry(device_entry_name(entry)) == Some(entry),
{
    assert("vkCmdBeginRenderingKHR"@ == "vkCmdBeginRendering"@ + "KHR"@) by {
        reveal_strlit("vkCmdBeginRenderingKHR");
        reveal_strlit("vkCmdBeginRendering");
        reveal_strlit("KHR");
        assert("vkCmdBeginRenderingKHR"@ =~= "vkCmdBeginRendering"@ + "KHR"@);
    }
    assert("vkCmdEndRenderingKHR"@ == "vkCmdEndRendering"@ + "KHR"@) by {
        reveal_strlit("vkCmdEndRenderingKHR");
        reveal_strlit("vkCmdEndRendering");
        reveal_strlit("KHR");
        assert("vkCmdEndRenderingKHR"@ =~= "vkCmdEndRendering"@ + "KHR"@);
    }
    lemma_device_names_distinct();
    match entry {
        DeviceEntry::DestroyDevice => {},
        DeviceEntry::GetDeviceQueue => {},
        DeviceEntry::GetBufferMemoryRequirements => {},
        DeviceEntry::AllocateMemory => {},
        DeviceEntry::FreeMemory => {},
        DeviceEntry::MapMemory => {},
        DeviceEntry::UnmapMemory => {},
        DeviceEntry::BindBufferMemory => {},
        DeviceEntry::CreateCommandPool => {},
        DeviceEntry::DestroyCommandPool => {},
        DeviceEntry::AllocateCommandBuffers => {},
        DeviceEntry::FreeCommandBuffers => {},
        DeviceEntry::QueueSubmit => {},
        DeviceEntry::QueueWaitIdle => {},
        DeviceEntry::CreateShaderModule => {},
        DeviceEntry::DestroyShaderModule => {},
        DeviceEntry::CreateSwapchain => {},
        DeviceEntry::CreatePipelineLayout => {},
        DeviceEntry::DestroyPipelineLayout => {},
        DeviceEntry::CreateDescriptorPool => {},
        DeviceEntry::DestroyDescriptorPool => {},
        DeviceEntry::AllocateDescriptorSets => {},
        DeviceEntry::CreateDescriptorSetLayout => {},
        DeviceEntry::DestroyDescriptorSetLayout => {},
        DeviceEntry::UpdateDescriptorSets => {},
        DeviceEntry::CreateGraphicsPipelines => {},
        DeviceEntry::CreateComputePipelines => {},
        DeviceEntry::DestroyPipeline => {},
        DeviceEntry::CreateImageView => {},
        DeviceEntry::DestroyImageView => {},
        DeviceEntry::DestroySwapchain => {},
        DeviceEntry::GetSwapchainImages => {},
        DeviceEntry::AcquireNextImage => {},
        DeviceEntry::CreateSemaphore => {},
        DeviceEntry::DestroySemaphore => {},
        DeviceEntry::CreateBuffer => {},
        DeviceEntry::DestroyBuffer => {},
        DeviceEntry::ResetCommandBuffer => {},
        DeviceEntry::BeginCommandBuffer => {},
        DeviceEntry::EndCommandBuffer => {},
        DeviceEntry::CmdBeginRendering => {},
        DeviceEntry::CmdEndRendering => {},
        DeviceEntry::CmdBindPipeline => {},
        DeviceEntry::CmdBindDescriptorSets => {},
        DeviceEntry::CmdBindVertexBuffers => {},
        DeviceEntry::CmdPipelineBarrier => {},
        DeviceEntry::CmdDraw => {},
        DeviceEntry::CmdDispatch => {},
        DeviceEntry::QueuePresent => {},
        DeviceEntry::DeviceWaitIdle => {},
    }
}

/// Unit type that gathers the entry point tables.
pub struct BindingLayer;

impl BindingLayer {
    /// The instance-level command that `name` names, if the layer has it.
    pub fn get_instance_proc_addr(name: &str) -> (entry: Option<InstanceEntry>)
        ensures
            entry == instance_entry(name@),
            entry matches Some(e) ==> name@ == instance_entry_name(e),
    {
        proof {
            if let Some(e) = instance_entry(name@) {
                lemma_instance_entry_names(name@, e);
            }
        }
        if str_eq(name, "vkCreateInstance") {
            return Some(InstanceEntry::CreateInstance);
        }
        if str_eq(name, "vkDestroyInstance") {
            return Some(InstanceEntry::DestroyInstance);
        }
        if str_eq(name, "vkEnumeratePhysicalDevices") {
            return Some(InstanceEntry::EnumeratePhysicalDevices);
        }
        if str_eq(name, "vkGetDeviceProcAddr") {
            return Some(InstanceEntry::GetDeviceProcAddr);
        }
        if str_eq(name, "vkCreateDevice") {
            return Some(InstanceEntry::CreateDevice);
        }
        if str_eq(name, "vkGetPhysicalDeviceMemoryProperties") {
            return Some(InstanceEntry::GetPhysicalDeviceMemoryProperties);
        }
        if str_eq(name, "vkGetPhysicalDeviceSurfaceCapabilitiesKHR") {
            return Some(InstanceEntry::GetPhysicalDeviceSurfaceCapabilities);
        }
        if str_eq(name, "vkGetPhysicalDeviceSurfaceFormatsKHR") {
            return Some(InstanceEntry::GetPhysicalDeviceSurfaceFormats);
        }
        if str_eq(name, "vkDestroySurfaceKHR") {
            return Some(InstanceEntry::DestroySurface);
        }
        None
    }

    /// The device-level command that `name` names, if the layer has it.
    pub fn get_device_proc_addr(name: &str) -> (entry: Option<DeviceEntry>)
        ensures
            entry == device_entry(name@),
            entry matches Some(e) ==> name@ == device_entry_name(e) || name@ == device_entry_name(e)
                + "KHR"@,
    {
        proof {
            if let Some(e) = device_entry(name@) {
                lemma_device_entry_names(name@, e);
            }
        }
        if str_eq(name, "vkDestroyDevice") {
            return Some(DeviceEntry::DestroyDevice);
        }
        if str_eq(name, "vkGetDeviceQueue") {
            return Some(DeviceEntry::GetDeviceQueue);
        }
        if str_eq(name, "vkGetBufferMemoryRequirements") {
            return Some(DeviceEntry::GetBufferMemoryRequirements);
        }
        if str_eq(name, "vkAllocateMemory") {
            return Some(DeviceEntry::AllocateMemory);
        }
        if str_eq(name, "vkFreeMemory") {
            return Some(DeviceEntry::FreeMemory);
        }
        if str_eq(name, "vkMapMemory") {
            return Some(DeviceEntry::MapMemory);
        }
        if str_eq(name, "vkUnmapMemory") {
            return Some(DeviceEntry::UnmapMemory);
        }
        if str_eq(name, "vkBindBufferMemory") {
            return Some(DeviceEntry::BindBufferMemory);
        }
        if str_eq(name, "vkCreateCommandPool") {
            return Some(DeviceEntry::CreateCommandPool);
        }
        if str_eq(name, "vkDestroyCommandPool") {
            return Some(DeviceEntry::DestroyCommandPool);
        }
        if str_eq(name, "vkAllocateCommandBuffers") {
            return Some(DeviceEntry::AllocateCommandBuffers);
        }
        if str_eq(name, "vkFreeCommandBuffers") {
            return Some(DeviceEntry::FreeCommandBuffers);
        }
        if str_eq(name, "vkQueueSubmit") {
            return Some(DeviceEntry::QueueSubmit);
        }
        if str_eq(name, "vkQueueWaitIdle") {
            return Some(DeviceEntry::QueueWaitIdle);
        }
        if str_eq(name, "vkCreateShaderModule") {
            return Some(DeviceEntry::CreateShaderModule);
        }
        if str_eq(name, "vkDestroyShaderModule") {
            return Some(DeviceEntry::DestroyShaderModule);
        }
        if str_eq(name, "vkCreateSwapchainKHR") {
            return Some(DeviceEntry::CreateSwapchain);
        }
        if str_eq(name, "vkCreatePipelineLayout") {
            return Some(DeviceEntry::CreatePipelineLayout);
        }
        if str_eq(name, "vkDestroyPipelineLayout") {
            return Some(DeviceEntry::DestroyPipelineLayout);
        }
        if str_eq(name, "vkCreateDescriptorPool") {
            return Some(DeviceEntry::CreateDescriptorPool);
        }
        if str_eq(name, "vkDestroyDescriptorPool") {
            return Some(DeviceEntry::DestroyDescriptorPool);
        }
        if str_eq(name, "vkAllocateDescriptorSets") {
            return Some(DeviceEntry::AllocateDescriptorSets);
        }
        if str_eq(name, "vkCreateDescriptorSetLayout") {
            return Some(DeviceEntry::CreateDescriptorSetLayout);
        }
        if str_eq(name, "vkDestroyDescriptorSetLayout") {
            return Some(DeviceEntry::DestroyDescriptorSetLayout);
        }
        if str_eq(name, "vkUpdateDescriptorSets") {
            return Some(DeviceEntry::UpdateDescriptorSets);
        }
        if str_eq(name, "vkCreateGraphicsPipelines") {
            return Some(DeviceEntry::CreateGraphicsPipelines);
        }
        if str_eq(name, "vkCreateComputePipelines") {
            return Some(DeviceEntry::CreateComputePipelines);
        }
        if str_eq(name, "vkDestroyPipeline") {
            return Some(DeviceEntry::DestroyPipeline);
        }
        if str_eq(name, "vkCreateImageView") {
            return Some(DeviceEntry::CreateImageView);
        }
        if str_eq(name, "vkDestroyImageView") {
            return Some(DeviceEntry::DestroyImageView);
        }
        if str_eq(name, "vkDestroySwapchainKHR") {
            return Some(DeviceEntry::DestroySwapchain);
        }
        if str_eq(name, "vkGetSwapchainImagesKHR") {
            return Some(DeviceEntry::GetSwapchainImages);
        }
        if str_eq(name, "vkAcquireNextImageKHR") {
            return Some(DeviceEntry::AcquireNextImage);
        }
        if str_eq(name, "vkCreateSemaphore") {
            return Some(DeviceEntry::CreateSemaphore);
        }
        if str_eq(name, "vkDestroySemaphore") {
            return Some(DeviceEntry::DestroySemaphore);
        }
        if str_eq(name, "vkCreateBuffer") {
            return Some(DeviceEntry::CreateBuffer);
        }
        if str_eq(name, "vkDestroyBuffer") {
            return Some(DeviceEntry::DestroyBuffer);
        }
        if str_eq(name, "vkResetCommandBuffer") {
            return Some(DeviceEntry::ResetCommandBuffer);
        }
        if str_eq(name, "vkBeginCommandBuffer") {
            return Some(DeviceEntry::BeginCommandBuffer);
        }
        if str_eq(name, "vkEndCommandBuffer") {
            return Some(DeviceEntry::EndCommandBuffer);
        }
        if str_eq(name, "vkCmdBeginRendering") {
            return Some(DeviceEntry::CmdBeginRendering);
        }
        if str_eq(name, "vkCmdEndRendering") {
            return Some(DeviceEntry::CmdEndRendering);
        }
        if str_eq(name, "vkCmdBeginRenderingKHR") {
            return Some(DeviceEntry::CmdBeginRendering);
        }
        if str_eq(name, "vkCmdEndRenderingKHR") {
            return Some(DeviceEntry::CmdEndRendering);
        }
        if str_eq(name, "vkCmdBindPipeline") {
            return Some(DeviceEntry::CmdBindPipeline);
        }
        if str_eq(name, "vkCmdBindDescriptorSets") {
            return Some(DeviceEntry::CmdBindDescriptorSets);
        }
        if str_eq(name, "vkCmdBindVertexBuffers") {
            return Some(DeviceEntry::CmdBindVertexBuffers);
        }
        if str_eq(name, "vkCmdPipelineBarrier") {
            return Some(DeviceEntry::CmdPipelineBarrier);
        }
        if str_eq(name, "vkCmdDraw") {
            return Some(DeviceEntry::CmdDraw);
        }
        if str_eq(name, "vkCmdDispatch") {
            return Some(DeviceEntry::CmdDispatch);
        }
        if str_eq(name, "vkQueuePresentKHR") {
            return Some(DeviceEntry::QueuePresent);
        }
        if str_eq(name, "vkDeviceWaitIdle") {
            return Some(DeviceEntry::DeviceWaitIdle);
        }
        None
    }

}

} // verus!
