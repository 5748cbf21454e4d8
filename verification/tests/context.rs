use vknew::command::{CommandEmulator, DrawParameters, RenderAction};
use vknew::context::{
    CompatibilityLayer, GpuObjects, IdKind, InstanceContext, SurfaceCapabilities, SurfaceFormat,
};
use vknew::ids::{CommandBufferId, RenderPipelineId};
use vknew::type_converter::{CompositeAlphaMode, GpuTextureFormat};
use vknew::vk::{VkResult, PIPELINE_BIND_POINT_GRAPHICS};

struct TestObjects;

impl GpuObjects for TestObjects {
    type Surface = String;
    type ShaderModule = u32;
    type PipelineLayout = u32;
    type RenderPipeline = String;
    type SurfaceTexture = u32;
}

type Instance = InstanceContext<TestObjects>;

const INSTANCE_HANDLE: u64 = 0x5000;

fn instance_with_device() -> Instance {
    let mut instance = Instance::new();
    let mut device = 0;
    assert_eq!(
        CompatibilityLayer::create_device(&mut instance, INSTANCE_HANDLE, &mut device),
        VkResult::Success
    );
    instance
}

fn command_buffer(instance: &mut Instance) -> CommandBufferId {
    let mut pool = 0;
    assert_eq!(CompatibilityLayer::create_command_pool(instance, &mut pool), VkResult::Success);
    let ids = CompatibilityLayer::allocate_command_buffers(instance, pool, 1).unwrap();
    ids[0]
}

#[test]
fn result_codes_match_vulkan() {
    assert_eq!(VkResult::Success.as_raw(), ash::vk::Result::SUCCESS.as_raw());
    assert_eq!(VkResult::Incomplete.as_raw(), ash::vk::Result::INCOMPLETE.as_raw());
    assert_eq!(VkResult::ErrorUnknown.as_raw(), ash::vk::Result::ERROR_UNKNOWN.as_raw());
    assert_eq!(PIPELINE_BIND_POINT_GRAPHICS, ash::vk::PipelineBindPoint::GRAPHICS.as_raw());
}

#[test]
fn device_is_created_once() {
    let mut instance = Instance::new();
    assert!(!instance.has_device());
    let mut device = 0;
    assert_eq!(
        CompatibilityLayer::create_device(&mut instance, INSTANCE_HANDLE, &mut device),
        VkResult::Success
    );
    assert_eq!(device, INSTANCE_HANDLE);
    assert!(instance.has_device());
    let mut second = 0;
    assert_eq!(
        CompatibilityLayer::create_device(&mut instance, INSTANCE_HANDLE, &mut second),
        VkResult::ErrorUnknown
    );
    assert_eq!(second, 0);
}

#[test]
fn operations_without_device_fail() {
    let mut instance = Instance::new();
    let mut handle = 77;
    assert_eq!(CompatibilityLayer::create_command_pool(&mut instance, &mut handle), VkResult::ErrorUnknown);
    assert_eq!(CompatibilityLayer::create_semaphore(&mut instance, &mut handle), VkResult::ErrorUnknown);
    assert_eq!(
        CompatibilityLayer::create_shader_module(&mut instance, 5, &mut handle),
        VkResult::ErrorUnknown
    );
    assert_eq!(
        CompatibilityLayer::create_swapchain_khr(&mut instance, 1, &mut handle),
        VkResult::ErrorUnknown
    );
    assert_eq!(handle, 77);
    assert_eq!(
        CompatibilityLayer::allocate_command_buffers(&mut instance, 1, 2),
        Err(VkResult::ErrorUnknown)
    );
    assert_eq!(CompatibilityLayer::free_command_buffers(&mut instance, 1), VkResult::ErrorUnknown);
    assert_eq!(CompatibilityLayer::destroy_command_pool(&mut instance, 1), VkResult::Success);
    assert_eq!(
        CompatibilityLayer::begin_command_buffer(&mut instance, CommandBufferId { raw: 1 }),
        VkResult::ErrorUnknown
    );
    assert_eq!(CompatibilityLayer::queue_present(&mut instance), Err(VkResult::ErrorUnknown));
    assert_eq!(CommandEmulator::emulate(&instance, CommandBufferId { raw: 1 }), None);
}

#[test]
fn handles_count_up_from_one_per_kind() {
    let mut instance = instance_with_device();
    let mut a = 0;
    let mut b = 0;
    let mut c = 0;
    assert_eq!(CompatibilityLayer::create_semaphore(&mut instance, &mut a), VkResult::Success);
    assert_eq!(CompatibilityLayer::create_semaphore(&mut instance, &mut b), VkResult::Success);
    assert_eq!(CompatibilityLayer::create_command_pool(&mut instance, &mut c), VkResult::Success);
    assert_eq!((a, b, c), (1, 2, 1));
    let surface = CompatibilityLayer::create_surface(&mut instance, "window".to_string());
    assert_eq!(surface, 1);
    assert_eq!(instance.surface(1), Some(&"window".to_string()));
}

#[test]
fn command_buffers_are_allocated_from_a_pool() {
    let mut instance = instance_with_device();
    let mut pool = 0;
    assert_eq!(CompatibilityLayer::create_command_pool(&mut instance, &mut pool), VkResult::Success);
    let ids = CompatibilityLayer::allocate_command_buffers(&mut instance, pool, 2).unwrap();
    assert_eq!(ids.len(), 2);
    assert_eq!(ids, vec![CommandBufferId { raw: 1 }, CommandBufferId { raw: 2 }]);
    assert!(instance.has_command_list(ids[0]));
    assert!(instance.has_command_list(ids[1]));
    assert_eq!(CompatibilityLayer::destroy_command_pool(&mut instance, pool), VkResult::Success);
    // The lists of the buffers outlive the pool.
    assert!(instance.has_command_list(ids[0]));
}

#[test]
fn allocating_from_an_unknown_pool_uses_up_identifiers() {
    let mut instance = instance_with_device();
    let ids = CompatibilityLayer::allocate_command_buffers(&mut instance, 42, 3).unwrap();
    assert!(ids.is_empty());
    let mut pool = 0;
    CompatibilityLayer::create_command_pool(&mut instance, &mut pool);
    let ids = CompatibilityLayer::allocate_command_buffers(&mut instance, pool, 1).unwrap();
    assert_eq!(ids, vec![CommandBufferId { raw: 4 }]);
}

fn clear_bits(c: [f32; 4]) -> [u32; 4] {
    [c[0].to_bits(), c[1].to_bits(), c[2].to_bits(), c[3].to_bits()]
}

#[test]
fn recorded_frame_replays_as_one_render_pass() {
    let mut instance = instance_with_device();
    let surface = CompatibilityLayer::create_surface(&mut instance, "window".to_string());
    let mut swapchain = 0;
    CompatibilityLayer::create_swapchain_khr(&mut instance, surface, &mut swapchain);
    let mut pipeline = 0;
    CompatibilityLayer::add_graphics_pipeline(&mut instance, "triangle".to_string(), &mut pipeline);
    let cb = command_buffer(&mut instance);
    let clear = clear_bits([0.1, 0.2, 0.3, 1.0]);

    assert_eq!(CompatibilityLayer::begin_command_buffer(&mut instance, cb), VkResult::Success);
    CompatibilityLayer::cmd_begin_rendering(&mut instance, cb, clear);
    CompatibilityLayer::cmd_bind_pipeline(&mut instance, cb, PIPELINE_BIND_POINT_GRAPHICS, pipeline);
    assert_eq!(CompatibilityLayer::cmd_draw(&mut instance, cb, 3, 1, 0, 0), VkResult::Success);
    CompatibilityLayer::cmd_end_rendering(&mut instance, cb);
    assert_eq!(CompatibilityLayer::end_command_buffer(&mut instance, cb), VkResult::Success);

    // Without an acquired texture the rendering block is skipped, draw-time
    // commands and all.
    assert!(CommandEmulator::emulation_supported(&instance, cb));
    assert_eq!(CommandEmulator::emulate(&instance, cb), Some(vec![]));

    assert_eq!(
        CompatibilityLayer::acquire_next_image_khr(&instance, swapchain),
        Ok(&"window".to_string())
    );
    let mut index = 9;
    assert_eq!(
        CompatibilityLayer::acquire_next_image_finish(&mut instance, 7, &mut index),
        VkResult::Success
    );
    assert_eq!(index, 0);
    assert!(CommandEmulator::emulation_supported(&instance, cb));
    assert_eq!(
        CommandEmulator::emulate(&instance, cb),
        Some(vec![
            RenderAction::BeginRenderPass(clear),
            RenderAction::SetPipeline(RenderPipelineId { raw: pipeline }),
            RenderAction::Draw(DrawParameters { vertices: 0..3, instances: 0..1 }),
            RenderAction::EndRenderPass,
        ])
    );
    assert_eq!(CompatibilityLayer::queue_present(&mut instance), Ok(7));
    assert_eq!(CompatibilityLayer::queue_present(&mut instance), Err(VkResult::ErrorUnknown));
}

#[test]
fn unknown_pipelines_are_skipped_and_open_passes_are_closed() {
    let mut instance = instance_with_device();
    let cb = command_buffer(&mut instance);
    let mut index = 0;
    CompatibilityLayer::acquire_next_image_finish(&mut instance, 1, &mut index);
    let clear = clear_bits([0.0, 0.0, 0.0, 0.0]);
    CompatibilityLayer::cmd_begin_rendering(&mut instance, cb, clear);
    CompatibilityLayer::cmd_bind_pipeline(&mut instance, cb, PIPELINE_BIND_POINT_GRAPHICS, 99);
    CompatibilityLayer::cmd_draw(&mut instance, cb, 4, 2, 6, 1);
    assert_eq!(
        CommandEmulator::emulate(&instance, cb),
        Some(vec![
            RenderAction::BeginRenderPass(clear),
            RenderAction::Draw(DrawParameters { vertices: 6..10, instances: 1..3 }),
            RenderAction::EndRenderPass,
        ])
    );
    assert_eq!(
        CommandEmulator::push_draw_command(&instance, cb),
        vec![RenderAction::Draw(DrawParameters { vertices: 6..10, instances: 1..3 })]
    );
}

#[test]
fn draws_outside_a_render_pass_cannot_be_replayed() {
    let mut instance = instance_with_device();
    let cb = command_buffer(&mut instance);
    CompatibilityLayer::cmd_draw(&mut instance, cb, 3, 1, 0, 0);
    assert!(!CommandEmulator::emulation_supported(&instance, cb));
    assert!(CommandEmulator::draw_commands_supported(&instance, cb));
}

#[test]
fn blocks_without_a_texture_are_skipped() {
    let mut instance = instance_with_device();
    let cb = command_buffer(&mut instance);
    CompatibilityLayer::cmd_begin_rendering(&mut instance, cb, [0; 4]);
    CompatibilityLayer::cmd_draw(&mut instance, cb, 3, 1, 0, 0);
    CompatibilityLayer::cmd_end_rendering(&mut instance, cb);
    CompatibilityLayer::cmd_begin_rendering(&mut instance, cb, [0; 4]);
    CompatibilityLayer::cmd_draw(&mut instance, cb, 3, 1, 0, 0);
    assert!(CommandEmulator::emulation_supported(&instance, cb));
    assert_eq!(CommandEmulator::emulate(&instance, cb), Some(vec![]));
    // A draw after the first block is closed is still out of place.
    let other = command_buffer(&mut instance);
    CompatibilityLayer::cmd_begin_rendering(&mut instance, other, [0; 4]);
    CompatibilityLayer::cmd_end_rendering(&mut instance, other);
    CompatibilityLayer::cmd_draw(&mut instance, other, 3, 1, 0, 0);
    assert!(!CommandEmulator::emulation_supported(&instance, other));
}

#[test]
fn markers_alone_replay_to_nothing_without_a_texture() {
    let mut instance = instance_with_device();
    let cb = command_buffer(&mut instance);
    CompatibilityLayer::begin_command_buffer(&mut instance, cb);
    CompatibilityLayer::cmd_begin_rendering(&mut instance, cb, [0; 4]);
    CompatibilityLayer::cmd_end_rendering(&mut instance, cb);
    CompatibilityLayer::end_command_buffer(&mut instance, cb);
    assert!(CommandEmulator::emulation_supported(&instance, cb));
    assert_eq!(CommandEmulator::emulate(&instance, cb), Some(vec![]));
}

#[test]
fn reset_empties_the_list() {
    let mut instance = instance_with_device();
    let cb = command_buffer(&mut instance);
    let mut index = 0;
    CompatibilityLayer::acquire_next_image_finish(&mut instance, 1, &mut index);
    CompatibilityLayer::cmd_begin_rendering(&mut instance, cb, [0; 4]);
    assert_eq!(CompatibilityLayer::reset_command_buffer(&mut instance, cb), VkResult::Success);
    assert_eq!(CommandEmulator::emulate(&instance, cb), Some(vec![]));
    assert_eq!(
        CompatibilityLayer::reset_command_buffer(&mut instance, CommandBufferId { raw: 55 }),
        VkResult::ErrorUnknown
    );
    assert_eq!(CommandEmulator::emulate(&instance, CommandBufferId { raw: 55 }), Some(vec![]));
}

#[test]
fn swapchain_has_one_image() {
    let mut instance = instance_with_device();
    let mut swapchain = 0;
    assert_eq!(CompatibilityLayer::create_swapchain_khr(&mut instance, 3, &mut swapchain), VkResult::Success);
    assert_eq!(swapchain, 1);
    let mut count = 0;
    assert_eq!(CompatibilityLayer::get_swapchain_image_count(&mut count), VkResult::Success);
    assert_eq!(count, 1);
    assert_eq!(instance.swapchain_image_count(swapchain), Some(1));
    let mut none: Vec<u64> = vec![];
    assert_eq!(
        CompatibilityLayer::get_swapchain_images_khr(&instance, swapchain, &mut none),
        VkResult::Incomplete
    );
    let mut images = vec![0u64];
    assert_eq!(
        CompatibilityLayer::get_swapchain_images_khr(&instance, swapchain, &mut images),
        VkResult::Success
    );
    assert_eq!(images, vec![1]);
    assert_eq!(
        CompatibilityLayer::get_swapchain_images_khr(&instance, 8, &mut images),
        VkResult::ErrorUnknown
    );
    // The image is presented on surface 3, which the instance does not know.
    assert_eq!(
        CompatibilityLayer::acquire_next_image_khr(&instance, swapchain),
        Err(VkResult::ErrorUnknown)
    );
    CompatibilityLayer::destroy_swapchain_khr(&mut instance, swapchain);
    assert_eq!(instance.swapchain_image_count(swapchain), None);
}

#[test]
fn destroyed_objects_are_gone() {
    let mut instance = instance_with_device();
    let mut module = 0;
    CompatibilityLayer::create_shader_module(&mut instance, 11, &mut module);
    let mut other = 0;
    CompatibilityLayer::create_shader_module(&mut instance, 12, &mut other);
    assert_eq!(
        CompatibilityLayer::graphics_pipeline_stages(&instance, module, other),
        Ok((&11, &12))
    );
    CompatibilityLayer::destroy_shader_module(&mut instance, module);
    assert_eq!(
        CompatibilityLayer::graphics_pipeline_stages(&instance, module, other),
        Err(VkResult::ErrorUnknown)
    );
    let surface = CompatibilityLayer::create_surface(&mut instance, "s".to_string());
    CompatibilityLayer::destroy_surface(&mut instance, surface);
    assert_eq!(instance.surface(surface), None);
}

#[test]
fn queue_and_physical_devices_are_the_instance() {
    let mut queue = 5;
    CompatibilityLayer::get_device_queue(INSTANCE_HANDLE, 0, 0, &mut queue);
    assert_eq!(queue, INSTANCE_HANDLE);
    CompatibilityLayer::get_device_queue(INSTANCE_HANDLE, 1, 0, &mut queue);
    assert_eq!(queue, 0);
    let mut devices = vec![0u64; 3];
    assert_eq!(
        CompatibilityLayer::enumerate_physical_devices(INSTANCE_HANDLE, &mut devices),
        VkResult::Success
    );
    assert_eq!(devices, vec![INSTANCE_HANDLE; 3]);
}

#[test]
fn surface_queries() {
    let mut instance = Instance::new();
    let surface = CompatibilityLayer::create_surface(&mut instance, "w".to_string());
    assert_eq!(
        CompatibilityLayer::get_physical_device_surface_capabilities_khr(&instance, 0, surface),
        Err(VkResult::ErrorUnknown)
    );
    assert_eq!(
        CompatibilityLayer::get_physical_device_surface_capabilities_khr(&instance, INSTANCE_HANDLE, 0),
        Err(VkResult::ErrorUnknown)
    );
    assert_eq!(
        CompatibilityLayer::get_physical_device_surface_capabilities_khr(&instance, INSTANCE_HANDLE, surface),
        Ok(&"w".to_string())
    );
    let caps = CompatibilityLayer::surface_capabilities(
        &vec![CompositeAlphaMode::Opaque, CompositeAlphaMode::Auto],
        0x10,
    );
    assert_eq!(
        caps,
        SurfaceCapabilities {
            min_image_count: 1,
            max_image_count: 1,
            supported_composite_alpha: 1,
            supported_usage_flags: 0x10,
        }
    );
    let formats = vec![GpuTextureFormat::Bgra8UnormSrgb, GpuTextureFormat::NV12];
    assert!(CompatibilityLayer::surface_formats_supported(&formats, 1));
    assert!(!CompatibilityLayer::surface_formats_supported(&formats, 2));
    assert!(!CompatibilityLayer::surface_formats_supported(&formats, 3));
    assert_eq!(
        CompatibilityLayer::get_physical_device_surface_formats_khr(&formats, 1),
        vec![SurfaceFormat { format: 50, color_space: 0 }]
    );
}

#[test]
fn recording_into_one_buffer_leaves_the_others_alone() {
    let mut instance = instance_with_device();
    let mut pool = 0;
    CompatibilityLayer::create_command_pool(&mut instance, &mut pool);
    let ids = CompatibilityLayer::allocate_command_buffers(&mut instance, pool, 2).unwrap();
    let mut index = 0;
    CompatibilityLayer::acquire_next_image_finish(&mut instance, 1, &mut index);
    CompatibilityLayer::cmd_begin_rendering(&mut instance, ids[0], [1, 2, 3, 4]);
    CompatibilityLayer::cmd_draw(&mut instance, ids[0], 1, 1, 0, 0);
    assert_eq!(CommandEmulator::emulate(&instance, ids[1]), Some(vec![]));
    assert_eq!(
        CommandEmulator::emulate(&instance, ids[0]),
        Some(vec![
            RenderAction::BeginRenderPass([1, 2, 3, 4]),
            RenderAction::Draw(DrawParameters { vertices: 0..1, instances: 0..1 }),
            RenderAction::EndRenderPass,
        ])
    );
}

#[test]
fn room_is_counted_per_kind() {
    let mut instance = Instance::new();
    assert!(instance.has_room(IdKind::Surface, u64::MAX - 1));
    assert!(!instance.has_room(IdKind::Surface, u64::MAX));
    // Without a device only the surface generator sets a bound.
    assert!(instance.has_room(IdKind::Semaphore, u64::MAX));
    let mut device = 0;
    CompatibilityLayer::create_device(&mut instance, INSTANCE_HANDLE, &mut device);
    assert!(!instance.has_room(IdKind::Semaphore, u64::MAX));
    let mut semaphore = 0;
    CompatibilityLayer::create_semaphore(&mut instance, &mut semaphore);
    assert!(!instance.has_room(IdKind::Semaphore, u64::MAX - 1));
    assert!(instance.has_room(IdKind::CommandPool, u64::MAX - 1));
}
