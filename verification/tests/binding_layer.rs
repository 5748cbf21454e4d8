use vknew::binding_layer::{str_eq, BindingLayer, DeviceEntry, InstanceEntry};

#[test]
fn instance_entries_resolve() {
    assert_eq!(
        BindingLayer::get_instance_proc_addr("vkCreateInstance"),
        Some(InstanceEntry::CreateInstance)
    );
    assert_eq!(
        BindingLayer::get_instance_proc_addr("vkGetPhysicalDeviceSurfaceFormatsKHR"),
        Some(InstanceEntry::GetPhysicalDeviceSurfaceFormats)
    );
    assert_eq!(
        BindingLayer::get_instance_proc_addr("vkDestroySurfaceKHR"),
        Some(InstanceEntry::DestroySurface)
    );
    assert_eq!(BindingLayer::get_instance_proc_addr("vkCreateFoo"), None);
    assert_eq!(BindingLayer::get_instance_proc_addr(""), None);
}

#[test]
fn device_entries_resolve() {
    assert_eq!(BindingLayer::get_device_proc_addr("vkCmdDraw"), Some(DeviceEntry::CmdDraw));
    assert_eq!(
        BindingLayer::get_device_proc_addr("vkDeviceWaitIdle"),
        Some(DeviceEntry::DeviceWaitIdle)
    );
    assert_eq!(
        BindingLayer::get_device_proc_addr("vkCreateSwapchainKHR"),
        Some(DeviceEntry::CreateSwapchain)
    );
    assert_eq!(BindingLayer::get_device_proc_addr("vkCreateInstance"), None);
    assert_eq!(BindingLayer::get_device_proc_addr("vkCmdDra"), None);
}

#[test]
fn dynamic_rendering_aliases_resolve_to_core_commands() {
    assert_eq!(
        BindingLayer::get_device_proc_addr("vkCmdBeginRenderingKHR"),
        BindingLayer::get_device_proc_addr("vkCmdBeginRendering")
    );
    assert_eq!(
        BindingLayer::get_device_proc_addr("vkCmdEndRenderingKHR"),
        Some(DeviceEntry::CmdEndRendering)
    );
}

#[test]
fn string_equality() {
    assert!(str_eq("abc", "abc"));
    assert!(!str_eq("abc", "abd"));
    assert!(!str_eq("abc", "ab"));
    assert!(str_eq("", ""));
    assert!(!str_eq("é", "e"));
}
