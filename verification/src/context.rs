//! The state that the layer keeps per Vulkan instance and per device, and
//! the entry points that read and change it.
//!
//! Every object the layer hands out is named by an identifier that one of the
//! generators below issued; the identifier's raw value is the Vulkan handle.

use vstd::prelude::*;
use std::collections::{HashMap, HashSet};
use core::ops::Range;
use crate::command::{
    block_rest, blocks_begun, draws_performed, draws_recorded, lemma_replay_well_bracketed,
    pass_body, pass_body_supported, passes_begun, pipelines_recorded, pipelines_set, replay,
    replay_supported, well_bracketed, BeginRenderingParameters, Command, CommandEmulator,
    DrawParameters, RenderAction,
};
use crate::id_generator::IdGenerator;
use crate::ids::{
    CommandBufferId, CommandPoolId, ImageId, ImageViewId, PipelineLayoutId, RenderPipelineId,
    SemaphoreId, ShaderModuleId, SurfaceId, SwapchainId,
};
use crate::type_converter::{
    composite_alpha_flags, image_usage_flags, vk_format, CompositeAlpha, CompositeAlphaMode,
    GpuTextureFormat, TextureFormat, TextureUsage,
};
use crate::vk::{VkResult, COLOR_SPACE_SRGB_NONLINEAR};

verus! {

broadcast use vstd::std_specs::hash::group_hash_axioms;

/// The types of the device objects that the layer keeps for its caller.
pub trait GpuObjects {
    type Surface;
    type ShaderModule;
    type PipelineLayout;
    type RenderPipeline;
    type SurfaceTexture;
}

/// The kinds of identifiers; each kind has a generator of its own.
#[derive(Debug, Clone, Copy)]
pub enum IdKind {
    Surface,
    Swapchain,
    Image,
    ImageView,
    CommandPool,
    CommandBuffer,
    PipelineLayout,
    RenderPipeline,
    ShaderModule,
    Semaphore,
}

/// The abstract state of a device: what each table holds and the raw value
/// that each identifier generator hands out next.
pub struct DeviceModel<G: GpuObjects> {
    /// Command pool -> the command buffers allocated from it.
    pub command_pools: Map<u64, Set<u64>>,
    /// Command buffer -> the commands recorded into it.
    pub command_lists: Map<u64, Seq<Command>>,
    /// Swapchain -> its images.
    pub swapchain_images: Map<u64, Seq<u64>>,
    /// Image -> the surface it is presented on.
    pub image_surfaces: Map<u64, u64>,
    /// Image view -> the image it views.
    pub image_views: Map<u64, u64>,
    pub pipeline_layouts: Map<u64, G::PipelineLayout>,
    pub render_pipelines: Map<u64, G::RenderPipeline>,
    pub shader_modules: Map<u64, G::ShaderModule>,
    pub semaphores: Set<u64>,
    /// The texture acquired for the next presentation.
    pub surface_texture: Option<G::SurfaceTexture>,
    pub next_image: nat,
    pub next_image_view: nat,
    pub next_command_pool: nat,
    pub next_command_buffer: nat,
    pub next_pipeline_layout: nat,
    pub next_render_pipeline: nat,
    pub next_shader_module: nat,
    pub next_semaphore: nat,
    pub next_swapchain: nat,
}

impl<G: GpuObjects> DeviceModel<G> {
    /// The state of a device just created.
    pub open spec fn initial() -> Self {
        DeviceModel {
            command_pools: Map::empty(),
            command_lists: Map::empty(),
            swapchain_images: Map::empty(),
            image_surfaces: Map::empty(),
            image_views: Map::empty(),
            pipeline_layouts: Map::empty(),
            render_pipelines: Map::empty(),
            shader_modules: Map::empty(),
            semaphores: Set::empty(),
            surface_texture: None,
            next_image: 1,
            next_image_view: 1,
            next_command_pool: 1,
            next_command_buffer: 1,
            next_pipeline_layout: 1,
            next_render_pipeline: 1,
            next_shader_module: 1,
            next_semaphore: 1,
            next_swapchain: 1,
        }
    }

    /// Every generator starts at `1`, so no handle is null, and its next value
    /// fits in a handle; every key of a
    /// table was issued by its generator, so a new identifier is never a key
    /// yet; every buffer of a pool has a command list; every swapchain has
    /// exactly one image.
    pub open spec fn wf(self) -> bool {
        &&& self.next_image >= 1
        &&& self.next_image_view >= 1
        &&& self.next_command_pool >= 1
        &&& self.next_command_buffer >= 1
        &&& self.next_pipeline_layout >= 1
        &&& self.next_render_pipeline >= 1
        &&& self.next_shader_module >= 1
        &&& self.next_semaphore >= 1
        &&& self.next_swapchain >= 1
        &&& self.next_image <= u64::MAX
        &&& self.next_image_view <= u64::MAX
        &&& self.next_command_pool <= u64::MAX
        &&& self.next_command_buffer <= u64::MAX
        &&& self.next_pipeline_layout <= u64::MAX
        &&& self.next_render_pipeline <= u64::MAX
        &&& self.next_shader_module <= u64::MAX
        &&& self.next_semaphore <= u64::MAX
        &&& self.next_swapchain <= u64::MAX
        &&& forall|k: u64| #[trigger]
            self.command_pools.contains_key(k) ==> 1 <= k < self.next_command_pool
        &&& forall|k: u64, b: u64|
            #![trigger self.command_pools[k].contains(b)]
            self.command_pools.contains_key(k) && self.command_pools[k].contains(b)
                ==> self.command_lists.contains_key(b)
        &&& forall|k: u64| #[trigger]
            self.command_lists.contains_key(k) ==> 1 <= k < self.next_command_buffer
        &&& forall|k: u64| #[trigger]
            self.swapchain_images.contains_key(k) ==> {
                &&& 1 <= k < self.next_swapchain
                &&& self.swapchain_images[k].len() == 1
                &&& 1 <= self.swapchain_images[k][0] < self.next_image
            }
        &&& forall|k: u64| #[trigger]
            self.image_surfaces.contains_key(k) ==> 1 <= k < self.next_image
        &&& forall|k: u64| #[trigger]
            self.image_views.contains_key(k) ==> 1 <= k < self.next_image_view
        &&& forall|k: u64| #[trigger]
            self.pipeline_layouts.contains_key(k) ==> 1 <= k < self.next_pipeline_layout
        &&& forall|k: u64| #[trigger]
            self.render_pipelines.contains_key(k) ==> 1 <= k < self.next_render_pipeline
        &&& forall|k: u64| #[trigger]
            self.shader_modules.contains_key(k) ==> 1 <= k < self.next_shader_module
        &&& forall|k: u64| #[trigger] self.semaphores.contains(k) ==> 1 <= k < self.next_semaphore
    }

    /// The generator of `kind` can still hand out `n` identifiers (surfaces
    /// belong to the instance, so the device sets no bound on them).
    pub open spec fn room(self, kind: IdKind, n: nat) -> bool {
        match kind {
            IdKind::Surface => true,
            IdKind::Swapchain => self.next_swapchain + n <= u64::MAX,
            IdKind::Image => self.next_image + n <= u64::MAX,
            IdKind::ImageView => self.next_image_view + n <= u64::MAX,
            IdKind::CommandPool => self.next_command_pool + n <= u64::MAX,
            IdKind::CommandBuffer => self.next_command_buffer + n <= u64::MAX,
            IdKind::PipelineLayout => self.next_pipeline_layout + n <= u64::MAX,
            IdKind::RenderPipeline => self.next_render_pipeline + n <= u64::MAX,
            IdKind::ShaderModule => self.next_shader_module + n <= u64::MAX,
            IdKind::Semaphore => self.next_semaphore + n <= u64::MAX,
        }
    }
}

/// The state of a device.
pub struct DeviceContext<G: GpuObjects> {
    command_pool_table: HashMap<u64, HashSet<u64>>,
    command_table: HashMap<u64, Vec<Command>>,
    swapchain_image_table: HashMap<u64, Vec<u64>>,
    image_surface_table: HashMap<u64, u64>,
    image_view_table: HashMap<u64, u64>,
    pipeline_layout_table: HashMap<u64, G::PipelineLayout>,
    render_pipeline_table: HashMap<u64, G::RenderPipeline>,
    shader_module_table: HashMap<u64, G::ShaderModule>,
    semaphore_table: HashSet<u64>,
    image_id_generator: IdGenerator<ImageId>,
    image_view_id_generator: IdGenerator<ImageViewId>,
    command_pool_id_generator: IdGenerator<CommandPoolId>,
    command_buffer_id_generator: IdGenerator<CommandBufferId>,
    pipeline_layout_id_generator: IdGenerator<PipelineLayoutId>,
    render_pipeline_id_generator: IdGenerator<RenderPipelineId>,
    shader_module_id_generator: IdGenerator<ShaderModuleId>,
    semaphore_id_generator: IdGenerator<SemaphoreId>,
    swapchain_id_generator: IdGenerator<SwapchainId>,
    surface_texture: Option<G::SurfaceTexture>,
}

impl<G: GpuObjects> View for DeviceContext<G> {
    type V = DeviceModel<G>;

    closed spec fn view(&self) -> DeviceModel<G> {
        DeviceModel {
            command_pools: self.command_pool_table@.map_values(|s: HashSet<u64>| s@),
            command_lists: self.command_table@.map_values(|v: Vec<Command>| v@),
            swapchain_images: self.swapchain_image_table@.map_values(|v: Vec<u64>| v@),
            image_surfaces: self.image_surface_table@,
            image_views: self.image_view_table@,
            pipeline_layouts: self.pipeline_layout_table@,
            render_pipelines: self.render_pipeline_table@,
            shader_modules: self.shader_module_table@,
            semaphores: self.semaphore_table@,
            surface_texture: self.surface_texture,
            next_image: self.image_id_generator.next_raw(),
            next_image_view: self.image_view_id_generator.next_raw(),
            next_command_pool: self.command_pool_id_generator.next_raw(),
            next_command_buffer: self.command_buffer_id_generator.next_raw(),
            next_pipeline_layout: self.pipeline_layout_id_generator.next_raw(),
            next_render_pipeline: self.render_pipeline_id_generator.next_raw(),
            next_shader_module: self.shader_module_id_generator.next_raw(),
            next_semaphore: self.semaphore_id_generator.next_raw(),
            next_swapchain: self.swapchain_id_generator.next_raw(),
        }
    }
}


impl<G: GpuObjects> DeviceContext<G> {
    /// A device with empty tables and fresh generators.
    fn new() -> (d: Self)
        ensures
            d@ == DeviceModel::<G>::initial(),
    {
        let d = DeviceContext {
            command_pool_table: HashMap::new(),
            command_table: HashMap::new(),
            swapchain_image_table: HashMap::new(),
            image_surface_table: HashMap::new(),
            image_view_table: HashMap::new(),
            pipeline_layout_table: HashMap::new(),
            render_pipeline_table: HashMap::new(),
            shader_module_table: HashMap::new(),
            semaphore_table: HashSet::new(),
            image_id_generator: IdGenerator::new(),
            image_view_id_generator: IdGenerator::new(),
            command_pool_id_generator: IdGenerator::new(),
            command_buffer_id_generator: IdGenerator::new(),
            pipeline_layout_id_generator: IdGenerator::new(),
            render_pipeline_id_generator: IdGenerator::new(),
            shader_module_id_generator: IdGenerator::new(),
            semaphore_id_generator: IdGenerator::new(),
            swapchain_id_generator: IdGenerator::new(),
            surface_texture: None,
        };
        assert(d@.command_pools =~= Map::empty());
        assert(d@.command_lists =~= Map::empty());
        assert(d@.swapchain_images =~= Map::empty());
        d
    }

    fn create_swapchain(&mut self, surface: u64, dst: &mut u64) -> (r: VkResult)
        requires
            old(self)@.wf(),
            old(self)@.room(IdKind::Swapchain, 1),
            old(self)@.room(IdKind::Image, 1),
        ensures
            r == VkResult::Success,
            *final(dst) == old(self)@.next_swapchain,
            final(self)@ == (DeviceModel {
                swapchain_images: old(self)@.swapchain_images.insert(
                    old(self)@.next_swapchain as u64,
                    seq![old(self)@.next_image as u64],
                ),
                image_surfaces: old(self)@.image_surfaces.insert(
                    old(self)@.next_image as u64,
                    surface,
                ),
                next_swapchain: old(self)@.next_swapchain + 1,
                next_image: old(self)@.next_image + 1,
                ..old(self)@
            }),
    {
        let ghost old_images = self@.swapchain_images;
        let swapchain_id = self.swapchain_id_generator.generate();
        let image_id = self.image_id_generator.generate();
        let mut images: Vec<u64> = Vec::new();
        images.push(image_id.raw);
        self.swapchain_image_table.insert(swapchain_id.raw, images);
        self.image_surface_table.insert(image_id.raw, surface);
        *dst = swapchain_id.raw;
        assert(self@.swapchain_images =~= old_images.insert(
            swapchain_id.raw,
            seq![image_id.raw],
        ));
        VkResult::Success
    }

    fn get_swapchain_images(&self, swapchain: u64, dst: &mut Vec<u64>) -> (r: VkResult)
        requires
            self@.swapchain_images.contains_key(swapchain) ==> old(dst)@.len()
                <= self@.swapchain_images[swapchain].len(),
        ensures
            !self@.swapchain_images.contains_key(swapchain) ==> r == VkResult::ErrorUnknown
                && final(dst)@ == old(dst)@,
            self@.swapchain_images.contains_key(swapchain) ==> {
                let images = self@.swapchain_images[swapchain];
                if old(dst)@.len() < images.len() {
                    r == VkResult::Incomplete && final(dst)@ == old(dst)@
                } else {
                    r == VkResult::Success && final(dst)@ == images
                }
            },
    {
        let images = match self.swapchain_image_table.get(&swapchain) {
            None => {
                return VkResult::ErrorUnknown;
            },
            Some(images) => images,
        };
        if dst.len() < images.len() {
            return VkResult::Incomplete;
        }
        let n = dst.len();
        let mut index: usize = 0;
        while index < n
            invariant
                n == dst@.len(),
                n == images@.len(),
                0 <= index <= n,
                forall|j: int| 0 <= j < index ==> dst@[j] == images@[j],
            decreases n - index,
        {
            dst.set(index, images[index]);
            index = index + 1;
        }
        assert(dst@ =~= images@);
        VkResult::Success
    }

    /// The surface that the image of a swapchain is presented on.
    fn swapchain_surface(&self, swapchain: u64) -> (r: Result<u64, VkResult>)
        requires
            self@.wf(),
        ensures
            match r {
                Ok(surface) => {
                    &&& self@.swapchain_images.contains_key(swapchain)
                    &&& self@.image_surfaces.contains_key(self@.swapchain_images[swapchain][0])
                    &&& surface == self@.image_surfaces[self@.swapchain_images[swapchain][0]]
                },
                Err(e) => e == VkResult::ErrorUnknown && !(self@.swapchain_images.contains_key(
                    swapchain,
                ) && self@.image_surfaces.contains_key(self@.swapchain_images[swapchain][0])),
            },
    {
        let images = match self.swapchain_image_table.get(&swapchain) {
            None => {
                return Err(VkResult::ErrorUnknown);
            },
            Some(images) => images,
        };
        assert(self@.swapchain_images.contains_key(swapchain));
        match self.image_surface_table.get(&images[0]) {
            None => Err(VkResult::ErrorUnknown),
            Some(surface) => Ok(*surface),
        }
    }

    fn create_command_pool(&mut self, dst: &mut u64) -> (r: VkResult)
        requires
            old(self)@.wf(),
            old(self)@.room(IdKind::CommandPool, 1),
        ensures
            r == VkResult::Success,
            *final(dst) == old(self)@.next_command_pool,
            final(self)@ == (DeviceModel {
                command_pools: old(self)@.command_pools.insert(
                    old(self)@.next_command_pool as u64,
                    Set::empty(),
                ),
                next_command_pool: old(self)@.next_command_pool + 1,
                ..old(self)@
            }),
    {
        let ghost old_pools = self@.command_pools;
        let id = self.command_pool_id_generator.generate();
        self.command_pool_table.insert(id.raw, HashSet::new());
        *dst = id.raw;
        assert(self@.command_pools =~= old_pools.insert(id.raw, Set::empty()));
        VkResult::Success
    }

    fn remove_command_pool(&mut self, pool: u64)
        ensures
            final(self)@ == (DeviceModel {
                command_pools: old(self)@.command_pools.remove(pool),
                ..old(self)@
            }),
    {
        let ghost old_pools = self@.command_pools;
        self.command_pool_table.remove(&pool);
        assert(self@.command_pools =~= old_pools.remove(pool));
    }

    fn allocate_command_buffers(&mut self, pool: u64, count: usize) -> (ids: Vec<CommandBufferId>)
        requires
            old(self)@.wf(),
            old(self)@.next_command_buffer + count <= u64::MAX,
        ensures
            ({
                let d = old(self)@;
                let first = d.next_command_buffer;
                let fresh = Set::new(|k: u64| first <= k < first + count);
                &&& final(self)@.next_command_buffer == first + count
                &&& if d.command_pools.contains_key(pool) {
                    &&& ids@.len() == count
                    &&& forall|i: int| 0 <= i < count ==> #[trigger] ids@[i].raw == first + i
                    &&& final(self)@ == (DeviceModel {
                        command_pools: d.command_pools.insert(
                            pool,
                            d.command_pools[pool].union(fresh),
                        ),
                        command_lists: d.command_lists.union_prefer_right(
                            Map::new(
                                |k: u64| first <= k < first + count,
                                |k: u64| Seq::<Command>::empty(),
                            ),
                        ),
                        next_command_buffer: (first + count) as nat,
                        ..d
                    })
                } else {
                    &&& ids@.len() == 0
                    &&& final(self)@ == (DeviceModel { next_command_buffer: (first + count) as nat, ..d })
                }
            }),
    {
        let ghost d = self@;
        let ghost first = d.next_command_buffer;
        let pool_exists = self.command_pool_table.contains_key(&pool);
        let mut ids: Vec<CommandBufferId> = Vec::new();
        let mut index: usize = 0;
        proof {
            if pool_exists {
                assert(d.command_pools[pool].union(Set::new(|k: u64| first <= k < first + 0))
                    =~= d.command_pools[pool]);
                assert(d.command_pools.insert(
                    pool,
                    d.command_pools[pool].union(Set::new(|k: u64| first <= k < first + 0)),
                ) =~= d.command_pools);
                assert(d.command_lists.union_prefer_right(
                    Map::new(|k: u64| first <= k < first + 0, |k: u64| Seq::<Command>::empty()),
                ) =~= d.command_lists);
            }
        }
        while index < count
            invariant
                0 <= index <= count,
                d.next_command_buffer + count <= u64::MAX,
                first == d.next_command_buffer,
                pool_exists == d.command_pools.contains_key(pool),
                self@.next_command_buffer == first + index,
                pool_exists ==> ids@.len() == index,
                !pool_exists ==> ids@.len() == 0,
                forall|i: int| 0 <= i < ids@.len() ==> #[trigger] ids@[i].raw == first + i,
                pool_exists ==> self@ == (DeviceModel {
                    command_pools: d.command_pools.insert(
                        pool,
                        d.command_pools[pool].union(Set::new(|k: u64| first <= k < first + index)),
                    ),
                    command_lists: d.command_lists.union_prefer_right(
                        Map::new(
                            |k: u64| first <= k < first + index,
                            |k: u64| Seq::<Command>::empty(),
                        ),
                    ),
                    next_command_buffer: (first + index) as nat,
                    ..d
                }),
                !pool_exists ==> self@ == (DeviceModel { next_command_buffer: (first + index) as nat, ..d }),
            decreases count - index,
        {
            let ghost before = self@;
            let id = self.command_buffer_id_generator.generate();
            if pool_exists {
                assert(self@.command_pools.contains_key(pool));
                assert(self.command_pool_table@.contains_key(pool));
                let ghost old_set = self@.command_pools[pool];
                let mut list = self.command_pool_table.remove(&pool).unwrap();
                assert(list@ == old_set);
                list.insert(id.raw);
                let ghost new_set = list@;
                self.command_pool_table.insert(pool, list);
                self.command_table.insert(id.raw, Vec::new());
                ids.push(id);
                assert(new_set =~= d.command_pools[pool].union(
                    Set::new(|k: u64| first <= k < first + index + 1),
                ));
                assert(self@.command_pools =~= before.command_pools.insert(pool, new_set));
                assert(self@.command_pools =~= d.command_pools.insert(
                    pool,
                    d.command_pools[pool].union(Set::new(|k: u64| first <= k < first + index + 1)),
                ));
                assert(self@.command_lists =~= before.command_lists.insert(
                    id.raw,
                    Seq::<Command>::empty(),
                ));
                assert(self@.command_lists =~= d.command_lists.union_prefer_right(
                    Map::new(
                        |k: u64| first <= k < first + index + 1,
                        |k: u64| Seq::<Command>::empty(),
                    ),
                ));
            }
            index = index + 1;
        }
        ids
    }

    fn create_shader_module(&mut self, module: G::ShaderModule, dst: &mut u64) -> (r: VkResult)
        requires
            old(self)@.wf(),
            old(self)@.room(IdKind::ShaderModule, 1),
        ensures
            r == VkResult::Success,
            *final(dst) == old(self)@.next_shader_module,
            final(self)@ == (DeviceModel {
                shader_modules: old(self)@.shader_modules.insert(
                    old(self)@.next_shader_module as u64,
                    module,
                ),
                next_shader_module: old(self)@.next_shader_module + 1,
                ..old(self)@
            }),
    {
        let id = self.shader_module_id_generator.generate();
        self.shader_module_table.insert(id.raw, module);
        *dst = id.raw;
        VkResult::Success
    }

    fn create_pipeline_layout(&mut self, layout: G::PipelineLayout, dst: &mut u64) -> (r: VkResult)
        requires
            old(self)@.wf(),
            old(self)@.room(IdKind::PipelineLayout, 1),
        ensures
            r == VkResult::Success,
            *final(dst) == old(self)@.next_pipeline_layout,
            final(self)@ == (DeviceModel {
                pipeline_layouts: old(self)@.pipeline_layouts.insert(
                    old(self)@.next_pipeline_layout as u64,
                    layout,
                ),
                next_pipeline_layout: old(self)@.next_pipeline_layout + 1,
                ..old(self)@
            }),
    {
        let id = self.pipeline_layout_id_generator.generate();
        self.pipeline_layout_table.insert(id.raw, layout);
        *dst = id.raw;
        VkResult::Success
    }

    fn add_render_pipeline(&mut self, pipeline: G::RenderPipeline, dst: &mut u64) -> (r: VkResult)
        requires
            old(self)@.wf(),
            old(self)@.room(IdKind::RenderPipeline, 1),
        ensures
            r == VkResult::Success,
            *final(dst) == old(self)@.next_render_pipeline,
            final(self)@ == (DeviceModel {
                render_pipelines: old(self)@.render_pipelines.insert(
                    old(self)@.next_render_pipeline as u64,
                    pipeline,
                ),
                next_render_pipeline: old(self)@.next_render_pipeline + 1,
                ..old(self)@
            }),
    {
        let id = self.render_pipeline_id_generator.generate();
        self.render_pipeline_table.insert(id.raw, pipeline);
        *dst = id.raw;
        VkResult::Success
    }

    fn create_image_view(&mut self, image: u64, dst: &mut u64) -> (r: VkResult)
        requires
            old(self)@.wf(),
            old(self)@.room(IdKind::ImageView, 1),
        ensures
            r == VkResult::Success,
            *final(dst) == old(self)@.next_image_view,
            final(self)@ == (DeviceModel {
                image_views: old(self)@.image_views.insert(old(self)@.next_image_view as u64, image),
                next_image_view: old(self)@.next_image_view + 1,
                ..old(self)@
            }),
    {
        let id = self.image_view_id_generator.generate();
        *dst = id.raw;
        self.image_view_table.insert(id.raw, image);
        VkResult::Success
    }

    fn create_semaphore(&mut self, dst: &mut u64) -> (r: VkResult)
        requires
            old(self)@.wf(),
            old(self)@.room(IdKind::Semaphore, 1),
        ensures
            r == VkResult::Success,
            *final(dst) == old(self)@.next_semaphore,
            final(self)@ == (DeviceModel {
                semaphores: old(self)@.semaphores.insert(old(self)@.next_semaphore as u64),
                next_semaphore: old(self)@.next_semaphore + 1,
                ..old(self)@
            }),
    {
        let id = self.semaphore_id_generator.generate();
        *dst = id.raw;
        self.semaphore_table.insert(id.raw);
        VkResult::Success
    }

    fn remove_shader_module(&mut self, id: u64)
        ensures
            final(self)@ == (DeviceModel {
                shader_modules: old(self)@.shader_modules.remove(id),
                ..old(self)@
            }),
    {
        self.shader_module_table.remove(&id);
    }

    fn remove_pipeline_layout(&mut self, id: u64)
        ensures
            final(self)@ == (DeviceModel {
                pipeline_layouts: old(self)@.pipeline_layouts.remove(id),
                ..old(self)@
            }),
    {
        self.pipeline_layout_table.remove(&id);
    }

    fn remove_render_pipeline(&mut self, id: u64)
        ensures
            final(self)@ == (DeviceModel {
                render_pipelines: old(self)@.render_pipelines.remove(id),
                ..old(self)@
            }),
    {
        self.render_pipeline_table.remove(&id);
    }

    fn remove_image_view(&mut self, id: u64)
        ensures
            final(self)@ == (DeviceModel { image_views: old(self)@.image_views.remove(id), ..old(self)@ }),
    {
        self.image_view_table.remove(&id);
    }

    fn remove_semaphore(&mut self, id: u64)
        ensures
            final(self)@ == (DeviceModel { semaphores: old(self)@.semaphores.remove(id), ..old(self)@ }),
    {
        self.semaphore_table.remove(&id);
    }

    /// Appends `command` to the list of a command buffer.
    fn record(&mut self, command_buffer: u64, command: Command) -> (r: VkResult)
        requires
            old(self)@.wf(),
        ensures
            final(self)@.wf(),
            old(self)@.command_lists.contains_key(command_buffer) ==> r == VkResult::Success
                && final(self)@ == (DeviceModel {
                command_lists: old(self)@.command_lists.insert(
                    command_buffer,
                    old(self)@.command_lists[command_buffer].push(command),
                ),
                ..old(self)@
            }),
            !old(self)@.command_lists.contains_key(command_buffer) ==> r == VkResult::ErrorUnknown
                && final(self)@ == old(self)@,
    {
        let ghost d = self@;
        if !self.command_table.contains_key(&command_buffer) {
            return VkResult::ErrorUnknown;
        }
        let mut list = self.command_table.remove(&command_buffer).unwrap();
        assert(list@ == d.command_lists[command_buffer]);
        list.push(command);
        let ghost new_list = list@;
        self.command_table.insert(command_buffer, list);
        assert(self@.command_lists =~= d.command_lists.insert(command_buffer, new_list));
        assert(self@.command_lists.dom() =~= d.command_lists.dom());
        VkResult::Success
    }

    /// Empties the list of a command buffer.
    fn reset(&mut self, command_buffer: u64) -> (r: VkResult)
        requires
            old(self)@.wf(),
        ensures
            final(self)@.wf(),
            old(self)@.command_lists.contains_key(command_buffer) ==> r == VkResult::Success
                && final(self)@ == (DeviceModel {
                command_lists: old(self)@.command_lists.insert(command_buffer, Seq::empty()),
                ..old(self)@
            }),
            !old(self)@.command_lists.contains_key(command_buffer) ==> r == VkResult::ErrorUnknown
                && final(self)@ == old(self)@,
    {
        let ghost d = self@;
        if !self.command_table.contains_key(&command_buffer) {
            return VkResult::ErrorUnknown;
        }
        let mut list = self.command_table.remove(&command_buffer).unwrap();
        list.clear();
        self.command_table.insert(command_buffer, list);
        assert(self@.command_lists =~= d.command_lists.insert(command_buffer, Seq::empty()));
        assert(self@.command_lists.dom() =~= d.command_lists.dom());
        VkResult::Success
    }

    fn destroy_swapchain(&mut self, swapchain: u64)
        ensures
            final(self)@ == (DeviceModel {
                swapchain_images: old(self)@.swapchain_images.remove(swapchain),
                ..old(self)@
            }),
    {
        let ghost old_images = self@.swapchain_images;
        self.swapchain_image_table.remove(&swapchain);
        assert(self@.swapchain_images =~= old_images.remove(swapchain));
    }
}

/// The abstract state of an instance.
pub struct InstanceModel<G: GpuObjects> {
    pub surfaces: Map<u64, G::Surface>,
    pub next_surface: nat,
    pub device: Option<DeviceModel<G>>,
}

impl<G: GpuObjects> InstanceModel<G> {
    /// The surface table only holds issued identifiers, and the device, if
    /// any, is well formed.
    pub open spec fn wf(self) -> bool {
        &&& self.next_surface >= 1
        &&& self.next_surface <= u64::MAX
        &&& forall|k: u64| #[trigger] self.surfaces.contains_key(k) ==> 1 <= k < self.next_surface
        &&& match self.device {
            Some(d) => d.wf(),
            None => true,
        }
    }

    /// The generator of `kind` can still hand out `n` identifiers (without a
    /// device, only the surface generator exists).
    pub open spec fn room(self, kind: IdKind, n: nat) -> bool {
        match kind {
            IdKind::Surface => self.next_surface + n <= u64::MAX,
            _ => match self.device {
                Some(d) => d.room(kind, n),
                None => true,
            },
        }
    }

    /// A device exists and keeps a command list for `command_buffer`.
    pub open spec fn records(self, command_buffer: u64) -> bool {
        self.device matches Some(d) && d.command_lists.contains_key(command_buffer)
    }

    /// The commands recorded into `command_buffer` (meaningful when
    /// `records(command_buffer)`).
    pub open spec fn command_list(self, command_buffer: u64) -> Seq<Command> {
        self.device->0.command_lists[command_buffer]
    }

    /// A device exists and holds an acquired surface texture.
    pub open spec fn has_target(self) -> bool {
        self.device matches Some(d) && d.surface_texture is Some
    }

    /// The instance after `command` is appended to the list of
    /// `command_buffer`, when that list exists; otherwise unchanged.
    pub open spec fn recorded(self, command_buffer: u64, command: Command) -> Self {
        match self.device {
            Some(d) => if d.command_lists.contains_key(command_buffer) {
                self.with_device(
                    DeviceModel {
                        command_lists: d.command_lists.insert(
                            command_buffer,
                            d.command_lists[command_buffer].push(command),
                        ),
                        ..d
                    },
                )
            } else {
                self
            },
            None => self,
        }
    }

    /// The result of an operation on the list of `command_buffer`.
    pub open spec fn record_result(self, command_buffer: u64) -> VkResult {
        if self.records(command_buffer) {
            VkResult::Success
        } else {
            VkResult::ErrorUnknown
        }
    }

    /// The same instance with its device replaced.
    pub open spec fn with_device(self, d: DeviceModel<G>) -> Self {
        InstanceModel { device: Some(d), ..self }
    }
}

/// The state of an instance: its surfaces and, once created, its device.
pub struct InstanceContext<G: GpuObjects> {
    surface_table: HashMap<u64, G::Surface>,
    surface_id_generator: IdGenerator<SurfaceId>,
    context: Option<DeviceContext<G>>,
}

impl<G: GpuObjects> View for InstanceContext<G> {
    type V = InstanceModel<G>;

    closed spec fn view(&self) -> InstanceModel<G> {
        InstanceModel {
            surfaces: self.surface_table@,
            next_surface: self.surface_id_generator.next_raw(),
            device: match self.context {
                Some(c) => Some(c@),
                None => None,
            },
        }
    }
}

impl<G: GpuObjects> InstanceContext<G> {
    /// The state of an instance just created: no surface, no device.
    pub fn new() -> (instance: Self)
        ensures
            instance@.surfaces == Map::<u64, G::Surface>::empty(),
            instance@.next_surface == 1,
            instance@.device is None,
            instance@.wf(),
    {
        InstanceContext {
            surface_table: HashMap::new(),
            surface_id_generator: IdGenerator::new(),
            context: None,
        }
    }

    /// Whether a device was created on this instance.
    pub fn has_device(&self) -> (b: bool)
        ensures
            b == (self@.device is Some),
    {
        self.context.is_some()
    }

    /// Whether the generator of `kind` can still hand out `n` identifiers.
    pub fn has_room(&self, kind: IdKind, n: u64) -> (b: bool)
        ensures
            b == self@.room(kind, n as nat),
    {
        let next = match (kind, &self.context) {
            (IdKind::Surface, _) => self.surface_id_generator.next_value(),
            (_, None) => {
                return true;
            },
            (IdKind::Swapchain, Some(d)) => d.swapchain_id_generator.next_value(),
            (IdKind::Image, Some(d)) => d.image_id_generator.next_value(),
            (IdKind::ImageView, Some(d)) => d.image_view_id_generator.next_value(),
            (IdKind::CommandPool, Some(d)) => d.command_pool_id_generator.next_value(),
            (IdKind::CommandBuffer, Some(d)) => d.command_buffer_id_generator.next_value(),
            (IdKind::PipelineLayout, Some(d)) => d.pipeline_layout_id_generator.next_value(),
            (IdKind::RenderPipeline, Some(d)) => d.render_pipeline_id_generator.next_value(),
            (IdKind::ShaderModule, Some(d)) => d.shader_module_id_generator.next_value(),
            (IdKind::Semaphore, Some(d)) => d.semaphore_id_generator.next_value(),
        };
        next <= u64::MAX - n
    }

    /// The surface registered under `surface`, if any.
    pub fn surface(&self, surface: u64) -> (s: Option<&G::Surface>)
        ensures
            match s {
                Some(x) => self@.surfaces.contains_key(surface) && *x == self@.surfaces[surface],
                None => !self@.surfaces.contains_key(surface),
            },
    {
        self.surface_table.get(&surface)
    }
}

/// Unit type that gathers the layer's entry points. Each takes the state of
/// the instance that the Vulkan handle it was called with belongs to, and
/// reads or writes handles as their raw values.
pub struct CompatibilityLayer;

impl CompatibilityLayer {
    /// `vkEnumeratePhysicalDevices`: every physical device slot receives the
    /// instance handle, through which the device later finds its instance.
    pub fn enumerate_physical_devices(instance_handle: u64, dst_physical_devices: &mut Vec<u64>) -> (r:
        VkResult)
        ensures
            r == VkResult::Success,
            final(dst_physical_devices)@.len() == old(dst_physical_devices)@.len(),
            forall|i: int|
                0 <= i < final(dst_physical_devices)@.len() ==> #[trigger] final(dst_physical_devices)@[i]
                    == instance_handle,
    {
        let n = dst_physical_devices.len();
        let mut i: usize = 0;
        while i < n
            invariant
                n == dst_physical_devices@.len(),
                0 <= i <= n,
                forall|j: int| 0 <= j < i ==> #[trigger] dst_physical_devices@[j] == instance_handle,
            decreases n - i,
        {
            dst_physical_devices.set(i, instance_handle);
            i = i + 1;
        }
        VkResult::Success
    }

    /// The part of `vkCreateWin32SurfaceKHR` and the like that keeps the
    /// created surface: it is registered under a new identifier, which is
    /// the surface handle.
    pub fn create_surface<G: GpuObjects>(instance: &mut InstanceContext<G>, surface: G::Surface) -> (handle:
        u64)
        requires
            old(instance)@.wf(),
            old(instance)@.room(IdKind::Surface, 1),
        ensures
            handle == old(instance)@.next_surface,
            final(instance)@ == (InstanceModel {
                surfaces: old(instance)@.surfaces.insert(handle, surface),
                next_surface: old(instance)@.next_surface + 1,
                ..old(instance)@
            }),
            final(instance)@.wf(),
    {
        let id = instance.surface_id_generator.generate();
        instance.surface_table.insert(id.raw, surface);
        id.raw
    }

    /// `vkDestroySurfaceKHR`.
    pub fn destroy_surface<G: GpuObjects>(instance: &mut InstanceContext<G>, surface: u64)
        requires
            old(instance)@.wf(),
        ensures
            final(instance)@ == (InstanceModel {
                surfaces: old(instance)@.surfaces.remove(surface),
                ..old(instance)@
            }),
            final(instance)@.wf(),
    {
        instance.surface_table.remove(&surface);
    }

    /// The checks of `vkGetPhysicalDeviceSurfaceCapabilitiesKHR`: null
    /// handles and unknown surfaces are errors; otherwise the surface whose
    /// capabilities are asked for.
    pub fn get_physical_device_surface_capabilities_khr<'a, G: GpuObjects>(
        instance: &'a InstanceContext<G>,
        physical_device: u64,
        surface: u64,
    ) -> (r: Result<&'a G::Surface, VkResult>)
        ensures
            match r {
                Ok(s) => physical_device != crate::vk::NULL_HANDLE && surface != crate::vk::NULL_HANDLE
                    && instance@.surfaces.contains_key(surface) && *s == instance@.surfaces[surface],
                Err(e) => e == VkResult::ErrorUnknown && (physical_device == crate::vk::NULL_HANDLE
                    || surface == crate::vk::NULL_HANDLE || !instance@.surfaces.contains_key(
                    surface,
                )),
            },
    {
        if physical_device == crate::vk::NULL_HANDLE {
            return Err(VkResult::ErrorUnknown);
        }
        if surface == crate::vk::NULL_HANDLE {
            return Err(VkResult::ErrorUnknown);
        }
        match instance.surface_table.get(&surface) {
            None => Err(VkResult::ErrorUnknown),
            Some(s) => Ok(s),
        }
    }

    /// `vkCreateDevice`: a device is created only once per instance, and its
    /// handle is the physical device's value (the instance handle). A second
    /// request fails and changes nothing: the handle is written only when
    /// creation succeeds.
    pub fn create_device<G: GpuObjects>(
        instance: &mut InstanceContext<G>,
        physical_device: u64,
        dst_device: &mut u64,
    ) -> (r: VkResult)
        requires
            old(instance)@.wf(),
        ensures
            final(instance)@.wf(),
            old(instance)@.device is Some ==> r == VkResult::ErrorUnknown && final(instance)@
                == old(instance)@ && *final(dst_device) == *old(dst_device),
            old(instance)@.device is None ==> r == VkResult::Success && final(instance)@
                == old(instance)@.with_device(DeviceModel::initial()) && *final(dst_device)
                == physical_device,
    {
        if instance.context.is_some() {
            return VkResult::ErrorUnknown;
        }
        instance.context = Some(DeviceContext::new());
        *dst_device = physical_device;
        VkResult::Success
    }

    /// `vkGetDeviceQueue`: the single queue (family 0, index 0) is the
    /// instance handle; any other queue is null.
    pub fn get_device_queue(instance_handle: u64, queue_family_index: u32, queue_index: u32, queue: &mut u64)
        ensures
            *final(queue) == if queue_family_index == 0 && queue_index == 0 {
                instance_handle
            } else {
                crate::vk::NULL_HANDLE
            },
    {
        if !(queue_family_index == 0 && queue_index == 0) {
            *queue = crate::vk::NULL_HANDLE;
            return;
        }
        *queue = instance_handle;
    }

    /// `vkCreateSwapchainKHR`: a new swapchain with one new image, which is
    /// presented on `surface`.
    pub fn create_swapchain_khr<G: GpuObjects>(
        instance: &mut InstanceContext<G>,
        surface: u64,
        swapchain: &mut u64,
    ) -> (r: VkResult)
        requires
            old(instance)@.wf(),
            old(instance)@.room(IdKind::Swapchain, 1),
            old(instance)@.room(IdKind::Image, 1),
        ensures
            final(instance)@.wf(),
            match old(instance)@.device {
                None => r == VkResult::ErrorUnknown && final(instance)@ == old(instance)@
                    && *final(swapchain) == *old(swapchain),
                Some(d) => r == VkResult::Success && *final(swapchain) == d.next_swapchain
                    && final(instance)@ == old(instance)@.with_device(
                    DeviceModel {
                        swapchain_images: d.swapchain_images.insert(
                            d.next_swapchain as u64,
                            seq![d.next_image as u64],
                        ),
                        image_surfaces: d.image_surfaces.insert(d.next_image as u64, surface),
                        next_swapchain: d.next_swapchain + 1,
                        next_image: d.next_image + 1,
                        ..d
                    },
                ),
            },
    {
        match &mut instance.context {
            None => VkResult::ErrorUnknown,
            Some(ctx) => ctx.create_swapchain(surface, swapchain),
        }
    }

    /// `vkDestroySwapchainKHR`.
    pub fn destroy_swapchain_khr<G: GpuObjects>(instance: &mut InstanceContext<G>, swapchain: u64)
        requires
            old(instance)@.wf(),
        ensures
            final(instance)@.wf(),
            match old(instance)@.device {
                None => final(instance)@ == old(instance)@,
                Some(d) => final(instance)@ == old(instance)@.with_device(
                    DeviceModel { swapchain_images: d.swapchain_images.remove(swapchain), ..d },
                ),
            },
    {
        match &mut instance.context {
            None => {},
            Some(ctx) => ctx.destroy_swapchain(swapchain),
        }
    }
}

impl CompatibilityLayer {
    /// `vkGetSwapchainImagesKHR` with an output array of `dst_images.len()`
    /// entries: the images of the swapchain are copied when the array has
    /// room for them, `Incomplete` when it is too short.
    pub fn get_swapchain_images_khr<G: GpuObjects>(
        instance: &InstanceContext<G>,
        swapchain: u64,
        dst_images: &mut Vec<u64>,
    ) -> (r: VkResult)
        requires
            instance@.wf(),
            instance@.device matches Some(d) ==> (d.swapchain_images.contains_key(swapchain)
                ==> old(dst_images)@.len() <= d.swapchain_images[swapchain].len()),
        ensures
            match instance@.device {
                None => r == VkResult::ErrorUnknown && final(dst_images)@ == old(dst_images)@,
                Some(d) => if !d.swapchain_images.contains_key(swapchain) {
                    r == VkResult::ErrorUnknown && final(dst_images)@ == old(dst_images)@
                } else if old(dst_images)@.len() < d.swapchain_images[swapchain].len() {
                    r == VkResult::Incomplete && final(dst_images)@ == old(dst_images)@
                } else {
                    r == VkResult::Success && final(dst_images)@ == d.swapchain_images[swapchain]
                },
            },
    {
        match &instance.context {
            None => VkResult::ErrorUnknown,
            Some(ctx) => ctx.get_swapchain_images(swapchain, dst_images),
        }
    }

    /// `vkGetSwapchainImagesKHR` without an output array: every swapchain has
    /// one image.
    pub fn get_swapchain_image_count(out_count: &mut u32) -> (r: VkResult)
        ensures
            r == VkResult::Success,
            *final(out_count) == 1,
    {
        *out_count = 1;
        VkResult::Success
    }

    /// The lookups of `vkAcquireNextImageKHR`: the surface on which the
    /// image of `swapchain` is presented.
    pub fn acquire_next_image_khr<'a, G: GpuObjects>(
        instance: &'a InstanceContext<G>,
        swapchain: u64,
    ) -> (r: Result<&'a G::Surface, VkResult>)
        requires
            instance@.wf(),
        ensures
            match r {
                Ok(s) => instance@.device matches Some(d) && {
                    &&& d.swapchain_images.contains_key(swapchain)
                    &&& d.image_surfaces.contains_key(d.swapchain_images[swapchain][0])
                    &&& instance@.surfaces.contains_key(
                        d.image_surfaces[d.swapchain_images[swapchain][0]],
                    )
                    &&& *s == instance@.surfaces[d.image_surfaces[d.swapchain_images[swapchain][0]]]
                },
                Err(e) => e == VkResult::ErrorUnknown && !(instance@.device matches Some(d) && {
                    &&& d.swapchain_images.contains_key(swapchain)
                    &&& d.image_surfaces.contains_key(d.swapchain_images[swapchain][0])
                    &&& instance@.surfaces.contains_key(
                        d.image_surfaces[d.swapchain_images[swapchain][0]],
                    )
                }),
            },
    {
        match &instance.context {
            None => Err(VkResult::ErrorUnknown),
            Some(ctx) => {
                let surface = match ctx.swapchain_surface(swapchain) {
                    Err(e) => {
                        return Err(e);
                    },
                    Ok(surface) => surface,
                };
                match instance.surface_table.get(&surface) {
                    None => Err(VkResult::ErrorUnknown),
                    Some(s) => Ok(s),
                }
            },
        }
    }

    /// The end of `vkAcquireNextImageKHR`: the texture acquired from the
    /// surface is kept for the next presentation, and the image index is 0.
    pub fn acquire_next_image_finish<G: GpuObjects>(
        instance: &mut InstanceContext<G>,
        texture: G::SurfaceTexture,
        out_image_index: &mut u32,
    ) -> (r: VkResult)
        requires
            old(instance)@.wf(),
        ensures
            final(instance)@.wf(),
            match old(instance)@.device {
                None => r == VkResult::ErrorUnknown && final(instance)@ == old(instance)@
                    && *final(out_image_index) == *old(out_image_index),
                Some(d) => r == VkResult::Success && *final(out_image_index) == 0
                    && final(instance)@ == old(instance)@.with_device(
                    DeviceModel { surface_texture: Some(texture), ..d },
                ),
            },
    {
        match &mut instance.context {
            None => VkResult::ErrorUnknown,
            Some(ctx) => {
                ctx.surface_texture = Some(texture);
                *out_image_index = 0;
                VkResult::Success
            },
        }
    }

    /// `vkQueuePresentKHR`: hands out the acquired texture for presentation;
    /// without one there is nothing to present.
    pub fn queue_present<G: GpuObjects>(instance: &mut InstanceContext<G>) -> (r: Result<
        G::SurfaceTexture,
        VkResult,
    >)
        requires
            old(instance)@.wf(),
        ensures
            final(instance)@.wf(),
            match old(instance)@.device {
                None => r == Err::<G::SurfaceTexture, VkResult>(VkResult::ErrorUnknown)
                    && final(instance)@ == old(instance)@,
                Some(d) => match d.surface_texture {
                    None => r == Err::<G::SurfaceTexture, VkResult>(VkResult::ErrorUnknown)
                        && final(instance)@ == old(instance)@,
                    Some(t) => r == Ok::<G::SurfaceTexture, VkResult>(t) && final(instance)@
                        == old(instance)@.with_device(DeviceModel { surface_texture: None, ..d }),
                },
            },
    {
        match &mut instance.context {
            None => Err(VkResult::ErrorUnknown),
            Some(ctx) => match ctx.surface_texture.take() {
                None => Err(VkResult::ErrorUnknown),
                Some(t) => Ok(t),
            },
        }
    }

    /// `vkCreateCommandPool`.
    pub fn create_command_pool<G: GpuObjects>(
        instance: &mut InstanceContext<G>,
        command_pool: &mut u64,
    ) -> (r: VkResult)
        requires
            old(instance)@.wf(),
            old(instance)@.room(IdKind::CommandPool, 1),
        ensures
            final(instance)@.wf(),
            match old(instance)@.device {
                None => r == VkResult::ErrorUnknown && final(instance)@ == old(instance)@
                    && *final(command_pool) == *old(command_pool),
                Some(d) => r == VkResult::Success && *final(command_pool) == d.next_command_pool
                    && final(instance)@ == old(instance)@.with_device(
                    DeviceModel {
                        command_pools: d.command_pools.insert(
                            d.next_command_pool as u64,
                            Set::empty(),
                        ),
                        next_command_pool: d.next_command_pool + 1,
                        ..d
                    },
                ),
            },
    {
        match &mut instance.context {
            None => VkResult::ErrorUnknown,
            Some(ctx) => ctx.create_command_pool(command_pool),
        }
    }

    /// `vkDestroyCommandPool`. The command lists of its buffers stay.
    pub fn destroy_command_pool<G: GpuObjects>(instance: &mut InstanceContext<G>, command_pool: u64) -> (r:
        VkResult)
        requires
            old(instance)@.wf(),
        ensures
            r == VkResult::Success,
            final(instance)@.wf(),
            match old(instance)@.device {
                None => final(instance)@ == old(instance)@,
                Some(d) => final(instance)@ == old(instance)@.with_device(
                    DeviceModel { command_pools: d.command_pools.remove(command_pool), ..d },
                ),
            },
    {
        match &mut instance.context {
            None => {},
            Some(ctx) => ctx.remove_command_pool(command_pool),
        }
        VkResult::Success
    }

    /// `vkAllocateCommandBuffers` for `count` buffers from `command_pool`:
    /// one new identifier per buffer, each with an empty command list. When
    /// the pool is unknown the identifiers are used up all the same and no
    /// buffer is made.
    pub fn allocate_command_buffers<G: GpuObjects>(
        instance: &mut InstanceContext<G>,
        command_pool: u64,
        count: usize,
    ) -> (r: Result<Vec<CommandBufferId>, VkResult>)
        requires
            old(instance)@.wf(),
            old(instance)@.room(IdKind::CommandBuffer, count as nat),
        ensures
            final(instance)@.wf(),
            match old(instance)@.device {
                None => r matches Err(e) && e == VkResult::ErrorUnknown && final(instance)@ == old(
                    instance,
                )@,
                Some(d) => r matches Ok(ids) && {
                    let first = d.next_command_buffer;
                    if d.command_pools.contains_key(command_pool) {
                        &&& ids@.len() == count
                        &&& forall|i: int| 0 <= i < count ==> #[trigger] ids@[i].raw == first + i
                        &&& final(instance)@ == old(instance)@.with_device(
                            DeviceModel {
                                command_pools: d.command_pools.insert(
                                    command_pool,
                                    d.command_pools[command_pool].union(
                                        Set::new(|k: u64| first <= k < first + count),
                                    ),
                                ),
                                command_lists: d.command_lists.union_prefer_right(
                                    Map::new(
                                        |k: u64| first <= k < first + count,
                                        |k: u64| Seq::<Command>::empty(),
                                    ),
                                ),
                                next_command_buffer: (first + count) as nat,
                                ..d
                            },
                        )
                    } else {
                        &&& ids@.len() == 0
                        &&& final(instance)@ == old(instance)@.with_device(
                            DeviceModel { next_command_buffer: (first + count) as nat, ..d },
                        )
                    }
                },
            },
    {
        match &mut instance.context {
            None => Err(VkResult::ErrorUnknown),
            Some(ctx) => Ok(ctx.allocate_command_buffers(command_pool, count)),
        }
    }

    /// `vkFreeCommandBuffers`: the pool is forgotten as a whole.
    pub fn free_command_buffers<G: GpuObjects>(instance: &mut InstanceContext<G>, command_pool: u64) -> (r:
        VkResult)
        requires
            old(instance)@.wf(),
        ensures
            final(instance)@.wf(),
            match old(instance)@.device {
                None => r == VkResult::ErrorUnknown && final(instance)@ == old(instance)@,
                Some(d) => r == VkResult::Success && final(instance)@ == old(instance)@.with_device(
                    DeviceModel { command_pools: d.command_pools.remove(command_pool), ..d },
                ),
            },
    {
        match &mut instance.context {
            None => VkResult::ErrorUnknown,
            Some(ctx) => {
                ctx.remove_command_pool(command_pool);
                VkResult::Success
            },
        }
    }
}

impl CompatibilityLayer {
    /// `vkCreateShaderModule`: keeps the module created from the code.
    pub fn create_shader_module<G: GpuObjects>(
        instance: &mut InstanceContext<G>,
        module: G::ShaderModule,
        dst_shader_module: &mut u64,
    ) -> (r: VkResult)
        requires
            old(instance)@.wf(),
            old(instance)@.room(IdKind::ShaderModule, 1),
        ensures
            final(instance)@.wf(),
            match old(instance)@.device {
                None => r == VkResult::ErrorUnknown && final(instance)@ == old(instance)@
                    && *final(dst_shader_module) == *old(dst_shader_module),
                Some(d) => r == VkResult::Success && *final(dst_shader_module) == d.next_shader_module
                    && final(instance)@ == old(instance)@.with_device(
                    DeviceModel {
                        shader_modules: d.shader_modules.insert(d.next_shader_module as u64, module),
                        next_shader_module: d.next_shader_module + 1,
                        ..d
                    },
                ),
            },
    {
        match &mut instance.context {
            None => VkResult::ErrorUnknown,
            Some(ctx) => ctx.create_shader_module(module, dst_shader_module),
        }
    }

    /// `vkDestroyShaderModule`.
    pub fn destroy_shader_module<G: GpuObjects>(instance: &mut InstanceContext<G>, shader_module: u64)
        requires
            old(instance)@.wf(),
        ensures
            final(instance)@.wf(),
            match old(instance)@.device {
                None => final(instance)@ == old(instance)@,
                Some(d) => final(instance)@ == old(instance)@.with_device(
                    DeviceModel { shader_modules: d.shader_modules.remove(shader_module), ..d },
                ),
            },
    {
        match &mut instance.context {
            None => {},
            Some(ctx) => ctx.remove_shader_module(shader_module),
        }
    }

    /// `vkCreatePipelineLayout`: keeps the created layout.
    pub fn create_pipeline_layout<G: GpuObjects>(
        instance: &mut InstanceContext<G>,
        layout: G::PipelineLayout,
        dst_pipeline_layout: &mut u64,
    ) -> (r: VkResult)
        requires
            old(instance)@.wf(),
            old(instance)@.room(IdKind::PipelineLayout, 1),
        ensures
            final(instance)@.wf(),
            match old(instance)@.device {
                None => r == VkResult::ErrorUnknown && final(instance)@ == old(instance)@
                    && *final(dst_pipeline_layout) == *old(dst_pipeline_layout),
                Some(d) => r == VkResult::Success && *final(dst_pipeline_layout) == d.next_pipeline_layout
                    && final(instance)@ == old(instance)@.with_device(
                    DeviceModel {
                        pipeline_layouts: d.pipeline_layouts.insert(d.next_pipeline_layout as u64, layout),
                        next_pipeline_layout: d.next_pipeline_layout + 1,
                        ..d
                    },
                ),
            },
    {
        match &mut instance.context {
            None => VkResult::ErrorUnknown,
            Some(ctx) => ctx.create_pipeline_layout(layout, dst_pipeline_layout),
        }
    }

    /// `vkDestroyPipelineLayout`.
    pub fn destroy_pipeline_layout<G: GpuObjects>(instance: &mut InstanceContext<G>, pipeline_layout: u64)
        requires
            old(instance)@.wf(),
        ensures
            final(instance)@.wf(),
            match old(instance)@.device {
                None => final(instance)@ == old(instance)@,
                Some(d) => final(instance)@ == old(instance)@.with_device(
                    DeviceModel { pipeline_layouts: d.pipeline_layouts.remove(pipeline_layout), ..d },
                ),
            },
    {
        match &mut instance.context {
            None => {},
            Some(ctx) => ctx.remove_pipeline_layout(pipeline_layout),
        }
    }

    /// The end of one step of `vkCreateGraphicsPipelines`: keeps the created render pipeline.
    pub fn add_graphics_pipeline<G: GpuObjects>(
        instance: &mut InstanceContext<G>,
        pipeline: G::RenderPipeline,
        dst_pipeline: &mut u64,
    ) -> (r: VkResult)
        requires
            old(instance)@.wf(),
            old(instance)@.room(IdKind::RenderPipeline, 1),
        ensures
            final(instance)@.wf(),
            match old(instance)@.device {
                None => r == VkResult::ErrorUnknown && final(instance)@ == old(instance)@
                    && *final(dst_pipeline) == *old(dst_pipeline),
                Some(d) => r == VkResult::Success && *final(dst_pipeline) == d.next_render_pipeline
                    && final(instance)@ == old(instance)@.with_device(
                    DeviceModel {
                        render_pipelines: d.render_pipelines.insert(d.next_render_pipeline as u64, pipeline),
                        next_render_pipeline: d.next_render_pipeline + 1,
                        ..d
                    },
                ),
            },
    {
        match &mut instance.context {
            None => VkResult::ErrorUnknown,
            Some(ctx) => ctx.add_render_pipeline(pipeline, dst_pipeline),
        }
    }

    /// `vkDestroyPipeline`.
    pub fn destroy_pipeline<G: GpuObjects>(instance: &mut InstanceContext<G>, pipeline: u64)
        requires
            old(instance)@.wf(),
        ensures
            final(instance)@.wf(),
            match old(instance)@.device {
                None => final(instance)@ == old(instance)@,
                Some(d) => final(instance)@ == old(instance)@.with_device(
                    DeviceModel { render_pipelines: d.render_pipelines.remove(pipeline), ..d },
                ),
            },
    {
        match &mut instance.context {
            None => {},
            Some(ctx) => ctx.remove_render_pipeline(pipeline),
        }
    }

    /// `vkCreateImageView`: records which image the new view views.
    pub fn create_image_view<G: GpuObjects>(
        instance: &mut InstanceContext<G>,
        image: u64,
        dst_view: &mut u64,
    ) -> (r: VkResult)
        requires
            old(instance)@.wf(),
            old(instance)@.room(IdKind::ImageView, 1),
        ensures
            final(instance)@.wf(),
            match old(instance)@.device {
                None => r == VkResult::ErrorUnknown && final(instance)@ == old(instance)@
                    && *final(dst_view) == *old(dst_view),
                Some(d) => r == VkResult::Success && *final(dst_view) == d.next_image_view
                    && final(instance)@ == old(instance)@.with_device(
                    DeviceModel {
                        image_views: d.image_views.insert(d.next_image_view as u64, image),
                        next_image_view: d.next_image_view + 1,
                        ..d
                    },
                ),
            },
    {
        match &mut instance.context {
            None => VkResult::ErrorUnknown,
            Some(ctx) => ctx.create_image_view(image, dst_view),
        }
    }

    /// `vkDestroyImageView`.
    pub fn destroy_image_view<G: GpuObjects>(instance: &mut InstanceContext<G>, image_view: u64)
        requires
            old(instance)@.wf(),
        ensures
            final(instance)@.wf(),
            match old(instance)@.device {
                None => final(instance)@ == old(instance)@,
                Some(d) => final(instance)@ == old(instance)@.with_device(
                    DeviceModel { image_views: d.image_views.remove(image_view), ..d },
                ),
            },
    {
        match &mut instance.context {
            None => {},
            Some(ctx) => ctx.remove_image_view(image_view),
        }
    }

    /// `vkCreateSemaphore`.
    pub fn create_semaphore<G: GpuObjects>(
        instance: &mut InstanceContext<G>,
        dst_semaphore: &mut u64,
    ) -> (r: VkResult)
        requires
            old(instance)@.wf(),
            old(instance)@.room(IdKind::Semaphore, 1),
        ensures
            final(instance)@.wf(),
            match old(instance)@.device {
                None => r == VkResult::ErrorUnknown && final(instance)@ == old(instance)@
                    && *final(dst_semaphore) == *old(dst_semaphore),
                Some(d) => r == VkResult::Success && *final(dst_semaphore) == d.next_semaphore
                    && final(instance)@ == old(instance)@.with_device(
                    DeviceModel {
                        semaphores: d.semaphores.insert(d.next_semaphore as u64),
                        next_semaphore: d.next_semaphore + 1,
                        ..d
                    },
                ),
            },
    {
        match &mut instance.context {
            None => VkResult::ErrorUnknown,
            Some(ctx) => ctx.create_semaphore(dst_semaphore),
        }
    }

    /// `vkDestroySemaphore`.
    pub fn destroy_semaphore<G: GpuObjects>(instance: &mut InstanceContext<G>, semaphore: u64)
        requires
            old(instance)@.wf(),
        ensures
            final(instance)@.wf(),
            match old(instance)@.device {
                None => final(instance)@ == old(instance)@,
                Some(d) => final(instance)@ == old(instance)@.with_device(
                    DeviceModel { semaphores: d.semaphores.remove(semaphore), ..d },
                ),
            },
    {
        match &mut instance.context {
            None => {},
            Some(ctx) => ctx.remove_semaphore(semaphore),
        }
    }

    /// The lookups of one step of `vkCreateGraphicsPipelines`: the vertex
    /// and the fragment shader module of the pipeline.
    pub fn graphics_pipeline_stages<'a, G: GpuObjects>(
        instance: &'a InstanceContext<G>,
        vertex_module: u64,
        fragment_module: u64,
    ) -> (r: Result<(&'a G::ShaderModule, &'a G::ShaderModule), VkResult>)
        ensures
            match r {
                Ok((vs, fs)) => instance@.device matches Some(d) && {
                    &&& d.shader_modules.contains_key(vertex_module)
                    &&& d.shader_modules.contains_key(fragment_module)
                    &&& *vs == d.shader_modules[vertex_module]
                    &&& *fs == d.shader_modules[fragment_module]
                },
                Err(e) => e == VkResult::ErrorUnknown && !(instance@.device matches Some(d) && {
                    &&& d.shader_modules.contains_key(vertex_module)
                    &&& d.shader_modules.contains_key(fragment_module)
                }),
            },
    {
        match &instance.context {
            None => Err(VkResult::ErrorUnknown),
            Some(ctx) => {
                let vs = match ctx.shader_module_table.get(&vertex_module) {
                    None => {
                        return Err(VkResult::ErrorUnknown);
                    },
                    Some(vs) => vs,
                };
                let fs = match ctx.shader_module_table.get(&fragment_module) {
                    None => {
                        return Err(VkResult::ErrorUnknown);
                    },
                    Some(fs) => fs,
                };
                Ok((vs, fs))
            },
        }
    }
}

impl CompatibilityLayer {
    /// `vkBeginCommandBuffer`.
    pub fn begin_command_buffer<G: GpuObjects>(
        instance: &mut InstanceContext<G>,
        command_buffer: CommandBufferId,
    ) -> (r: VkResult)
        requires
            old(instance)@.wf(),
        ensures
            final(instance)@.wf(),
            r == old(instance)@.record_result(command_buffer.raw),
            final(instance)@ == old(instance)@.recorded(command_buffer.raw, Command::Begin),
    {
        match &mut instance.context {
            None => VkResult::ErrorUnknown,
            Some(ctx) => ctx.record(command_buffer.raw, Command::Begin),
        }
    }

    /// `vkEndCommandBuffer`.
    pub fn end_command_buffer<G: GpuObjects>(
        instance: &mut InstanceContext<G>,
        command_buffer: CommandBufferId,
    ) -> (r: VkResult)
        requires
            old(instance)@.wf(),
        ensures
            final(instance)@.wf(),
            r == old(instance)@.record_result(command_buffer.raw),
            final(instance)@ == old(instance)@.recorded(command_buffer.raw, Command::End),
    {
        match &mut instance.context {
            None => VkResult::ErrorUnknown,
            Some(ctx) => ctx.record(command_buffer.raw, Command::End),
        }
    }

    /// `vkCmdBeginRendering`, given the clear color of the first color attachment as the bit patterns of its components.
    pub fn cmd_begin_rendering<G: GpuObjects>(
        instance: &mut InstanceContext<G>,
        command_buffer: CommandBufferId,
        clear: [u32; 4],
    )
        requires
            old(instance)@.wf(),
        ensures
            final(instance)@.wf(),
            final(instance)@ == old(instance)@.recorded(command_buffer.raw, Command::BeginRendering(BeginRenderingParameters { clear })),
    {
        match &mut instance.context {
            None => VkResult::ErrorUnknown,
            Some(ctx) => ctx.record(command_buffer.raw, Command::BeginRendering(BeginRenderingParameters { clear })),
        };
    }

    /// `vkCmdEndRendering`.
    pub fn cmd_end_rendering<G: GpuObjects>(
        instance: &mut InstanceContext<G>,
        command_buffer: CommandBufferId,
    )
        requires
            old(instance)@.wf(),
        ensures
            final(instance)@.wf(),
            final(instance)@ == old(instance)@.recorded(command_buffer.raw, Command::EndRendering),
    {
        match &mut instance.context {
            None => VkResult::ErrorUnknown,
            Some(ctx) => ctx.record(command_buffer.raw, Command::EndRendering),
        };
    }

    /// `vkResetCommandBuffer`: empties the list of the buffer.
    pub fn reset_command_buffer<G: GpuObjects>(
        instance: &mut InstanceContext<G>,
        command_buffer: CommandBufferId,
    ) -> (r: VkResult)
        requires
            old(instance)@.wf(),
        ensures
            final(instance)@.wf(),
            r == old(instance)@.record_result(command_buffer.raw),
            match old(instance)@.device {
                Some(d) => if d.command_lists.contains_key(command_buffer.raw) {
                    final(instance)@ == old(instance)@.with_device(
                        DeviceModel {
                            command_lists: d.command_lists.insert(command_buffer.raw, Seq::empty()),
                            ..d
                        },
                    )
                } else {
                    final(instance)@ == old(instance)@
                },
                None => final(instance)@ == old(instance)@,
            },
    {
        match &mut instance.context {
            None => VkResult::ErrorUnknown,
            Some(ctx) => ctx.reset(command_buffer.raw),
        }
    }

    /// `vkCmdBindPipeline` at the graphics bind point (the only bind point
    /// that the layer supports).
    pub fn cmd_bind_pipeline<G: GpuObjects>(
        instance: &mut InstanceContext<G>,
        command_buffer: CommandBufferId,
        pipeline_bind_point: i32,
        pipeline: u64,
    )
        requires
            old(instance)@.wf(),
            pipeline_bind_point == crate::vk::PIPELINE_BIND_POINT_GRAPHICS,
        ensures
            final(instance)@.wf(),
            final(instance)@ == old(instance)@.recorded(
                command_buffer.raw,
                Command::BindRenderPipeline(RenderPipelineId { raw: pipeline }),
            ),
    {
        let pipeline_id = RenderPipelineId::from(pipeline);
        match &mut instance.context {
            None => VkResult::ErrorUnknown,
            Some(ctx) => ctx.record(command_buffer.raw, Command::BindRenderPipeline(pipeline_id)),
        };
    }

    /// `vkCmdDraw`: records the vertex range `first_vertex..first_vertex +
    /// vertex_count` and the instance range likewise.
    pub fn cmd_draw<G: GpuObjects>(
        instance: &mut InstanceContext<G>,
        command_buffer: CommandBufferId,
        vertex_count: u32,
        instance_count: u32,
        first_vertex: u32,
        first_instance: u32,
    ) -> (r: VkResult)
        requires
            old(instance)@.wf(),
            old(instance)@.records(command_buffer.raw) ==> first_vertex + vertex_count <= u32::MAX
                && first_instance + instance_count <= u32::MAX,
        ensures
            r == VkResult::Success,
            final(instance)@.wf(),
            final(instance)@ == old(instance)@.recorded(
                command_buffer.raw,
                Command::Draw(
                    DrawParameters {
                        vertices: Range {
                            start: first_vertex,
                            end: (first_vertex + vertex_count) as u32,
                        },
                        instances: Range {
                            start: first_instance,
                            end: (first_instance + instance_count) as u32,
                        },
                    },
                ),
            ),
    {
        match &mut instance.context {
            None => {},
            Some(ctx) => {
                if ctx.command_table.contains_key(&command_buffer.raw) {
                    let command = Command::Draw(
                        DrawParameters {
                            vertices: first_vertex..(first_vertex + vertex_count),
                            instances: first_instance..(first_instance + instance_count),
                        },
                    );
                    ctx.record(command_buffer.raw, command);
                }
            },
        }
        VkResult::Success
    }
}

impl<G: GpuObjects> InstanceContext<G> {
    /// Whether a device exists and keeps a command list for `command_buffer`.
    pub fn has_command_list(&self, command_buffer: CommandBufferId) -> (b: bool)
        ensures
            b == self@.records(command_buffer.raw),
    {
        match &self.context {
            None => false,
            Some(ctx) => ctx.command_table.contains_key(&command_buffer.raw),
        }
    }

    /// The render pipeline registered under `pipeline`, if a device exists
    /// and knows it.
    pub fn render_pipeline(&self, pipeline: u64) -> (p: Option<&G::RenderPipeline>)
        ensures
            match p {
                Some(x) => self@.device matches Some(d) && d.render_pipelines.contains_key(pipeline)
                    && *x == d.render_pipelines[pipeline],
                None => !(self@.device matches Some(d) && d.render_pipelines.contains_key(pipeline)),
            },
    {
        match &self.context {
            None => None,
            Some(ctx) => ctx.render_pipeline_table.get(&pipeline),
        }
    }

    /// The surface texture acquired for the next presentation, if any.
    pub fn surface_texture(&self) -> (t: Option<&G::SurfaceTexture>)
        ensures
            match t {
                Some(x) => self@.device matches Some(d) && d.surface_texture == Some(*x),
                None => !self@.has_target(),
            },
    {
        match &self.context {
            None => None,
            Some(ctx) => match &ctx.surface_texture {
                None => None,
                Some(t) => Some(t),
            },
        }
    }

    /// The number of images of `swapchain`, when a device exists and knows
    /// the swapchain.
    pub fn swapchain_image_count(&self, swapchain: u64) -> (n: Option<usize>)
        ensures
            match n {
                Some(n) => self@.device matches Some(d) && d.swapchain_images.contains_key(swapchain)
                    && n == d.swapchain_images[swapchain].len(),
                None => !(self@.device matches Some(d) && d.swapchain_images.contains_key(swapchain)),
            },
    {
        match &self.context {
            None => None,
            Some(ctx) => match ctx.swapchain_image_table.get(&swapchain) {
                None => None,
                Some(images) => Some(images.len()),
            },
        }
    }
}

impl CommandEmulator {
    /// Whether the commands recorded into `command_buffer` can be replayed
    /// (trivially so when there is no device or no such list).
    pub fn emulation_supported<G: GpuObjects>(
        instance: &InstanceContext<G>,
        command_buffer: CommandBufferId,
    ) -> (ok: bool)
        ensures
            ok == (instance@.records(command_buffer.raw) ==> replay_supported(
                instance@.command_list(command_buffer.raw),
                false,
                instance@.has_target(),
            )),
    {
        match &instance.context {
            None => true,
            Some(ctx) => match ctx.command_table.get(&command_buffer.raw) {
                None => true,
                Some(list) => Self::replay_is_supported(list, ctx.surface_texture.is_some()),
            },
        }
    }

    /// The replay that `vkQueueSubmit` performs for one command buffer:
    /// nothing is submitted without a device; an unknown buffer submits an
    /// empty encoder; otherwise its commands are replayed on the acquired
    /// surface texture with the registered render pipelines (no buffer is
    /// registered, so vertex-buffer bindings are skipped), and without an
    /// acquired texture every rendering block is skipped. Every render pass
    /// that the plan begins, it ends, and it draws only inside one.
    pub fn emulate<G: GpuObjects>(instance: &InstanceContext<G>, command_buffer: CommandBufferId) -> (r:
        Option<Vec<RenderAction>>)
        requires
            instance@.records(command_buffer.raw) ==> replay_supported(
                instance@.command_list(command_buffer.raw),
                false,
                instance@.has_target(),
            ),
        ensures
            match instance@.device {
                None => r is None,
                Some(d) => r matches Some(actions) && if d.command_lists.contains_key(
                    command_buffer.raw,
                ) {
                    actions@ == replay(
                        d.command_lists[command_buffer.raw],
                        false,
                        d.surface_texture is Some,
                        d.render_pipelines.dom(),
                        Set::empty(),
                    )
                } else {
                    actions@.len() == 0
                },
            },
            r matches Some(actions) ==> well_bracketed(actions@, false),
            r matches Some(actions) ==> (instance@.has_target() && instance@.records(
                command_buffer.raw,
            ) ==> {
                let list = instance@.command_list(command_buffer.raw);
                &&& passes_begun(actions@) == blocks_begun(list)
                &&& draws_performed(actions@) == draws_recorded(list)
                &&& pipelines_set(actions@) == pipelines_recorded(
                    list,
                    instance@.device->0.render_pipelines.dom(),
                )
            }),
    {
        match &instance.context {
            None => None,
            Some(ctx) => match ctx.command_table.get(&command_buffer.raw) {
                None => Some(Vec::new()),
                Some(list) => {
                    let buffers: HashSet<u64> = HashSet::new();
                    proof {
                        lemma_replay_well_bracketed(
                            list@,
                            false,
                            ctx.surface_texture is Some,
                            ctx.render_pipeline_table@.dom(),
                            buffers@,
                        );
                    }
                    Some(
                        Self::replay_commands(
                            list,
                            ctx.surface_texture.is_some(),
                            &ctx.render_pipeline_table,
                            &buffers,
                        ),
                    )
                },
            },
        }
    }

    /// Whether the commands recorded into `command_buffer` can be replayed on
    /// a render pass that is already begun.
    pub fn draw_commands_supported<G: GpuObjects>(
        instance: &InstanceContext<G>,
        command_buffer: CommandBufferId,
    ) -> (ok: bool)
        ensures
            ok == (instance@.records(command_buffer.raw) ==> pass_body_supported(
                instance@.command_list(command_buffer.raw),
            )),
    {
        match &instance.context {
            None => true,
            Some(ctx) => match ctx.command_table.get(&command_buffer.raw) {
                None => true,
                Some(list) => Self::pass_is_supported(list),
            },
        }
    }

    /// The draw commands of `command_buffer` replayed on a render pass that
    /// the caller has begun, up to the first `EndRendering`.
    pub fn push_draw_command<G: GpuObjects>(
        instance: &InstanceContext<G>,
        command_buffer: CommandBufferId,
    ) -> (actions: Vec<RenderAction>)
        requires
            instance@.records(command_buffer.raw) ==> pass_body_supported(
                instance@.command_list(command_buffer.raw),
            ),
        ensures
            actions@ == match instance@.device {
                Some(d) => if d.command_lists.contains_key(command_buffer.raw) {
                    pass_body(d.command_lists[command_buffer.raw], d.render_pipelines.dom(), Set::empty())
                } else {
                    Seq::empty()
                },
                None => Seq::empty(),
            },
            instance@.records(command_buffer.raw) ==> {
                let list = instance@.command_list(command_buffer.raw);
                &&& passes_begun(actions@) == Seq::<[u32; 4]>::empty()
                &&& draws_performed(actions@) == draws_recorded(block_rest(list))
                &&& pipelines_set(actions@) == pipelines_recorded(
                    block_rest(list),
                    instance@.device->0.render_pipelines.dom(),
                )
            },
    {
        match &instance.context {
            None => Vec::new(),
            Some(ctx) => match ctx.command_table.get(&command_buffer.raw) {
                None => Vec::new(),
                Some(list) => {
                    let buffers: HashSet<u64> = HashSet::new();
                    Self::replay_pass(list, &ctx.render_pipeline_table, &buffers)
                },
            },
        }
    }
}

/// The surface capabilities that the layer reports.
#[derive(Debug, Clone, Copy, PartialEq, Eq)]
pub struct SurfaceCapabilities {
    pub min_image_count: u32,
    pub max_image_count: u32,
    /// `VkCompositeAlphaFlagsKHR` bits.
    pub supported_composite_alpha: u32,
    /// `VkImageUsageFlags` bits.
    pub supported_usage_flags: u32,
}

/// A surface format that the layer reports.
#[derive(Debug, Clone, Copy, PartialEq, Eq)]
pub struct SurfaceFormat {
    /// `VkFormat` value.
    pub format: i32,
    /// `VkColorSpaceKHR` value.
    pub color_space: i32,
}

impl CompatibilityLayer {
    /// The capabilities reported by `vkGetPhysicalDeviceSurfaceCapabilitiesKHR`
    /// for a surface that supports the given alpha modes and texture usages:
    /// one image, and the Vulkan flags of the modes and usages.
    pub fn surface_capabilities(alpha_modes: &Vec<CompositeAlphaMode>, usages: u32) -> (c:
        SurfaceCapabilities)
        ensures
            c == (SurfaceCapabilities {
                min_image_count: 1,
                max_image_count: 1,
                supported_composite_alpha: composite_alpha_flags(alpha_modes@),
                supported_usage_flags: image_usage_flags(usages),
            }),
    {
        SurfaceCapabilities {
            min_image_count: 1,
            max_image_count: 1,
            supported_composite_alpha: CompositeAlpha::to_vk(alpha_modes),
            supported_usage_flags: TextureUsage::to_vk(usages),
        }
    }

    /// Whether the first `count` formats of a surface can be reported.
    pub fn surface_formats_supported(formats: &Vec<GpuTextureFormat>, count: usize) -> (ok: bool)
        ensures
            ok == (count <= formats@.len() && forall|i: int|
                0 <= i < count ==> #[trigger] vk_format(formats@[i]) is Some),
    {
        if count > formats.len() {
            return false;
        }
        let mut i: usize = 0;
        while i < count
            invariant
                count <= formats@.len(),
                0 <= i <= count,
                forall|j: int| 0 <= j < i ==> #[trigger] vk_format(formats@[j]) is Some,
            decreases count - i,
        {
            if !TextureFormat::is_supported(formats[i]) {
                return false;
            }
            i = i + 1;
        }
        true
    }

    /// The formats reported by `vkGetPhysicalDeviceSurfaceFormatsKHR` into an
    /// array of `count` entries: the Vulkan counterparts of the first `count`
    /// formats of the surface, in the sRGB non-linear color space.
    pub fn get_physical_device_surface_formats_khr(formats: &Vec<GpuTextureFormat>, count: usize) -> (r: Vec<SurfaceFormat>)
        requires
            count <= formats@.len(),
            forall|i: int| 0 <= i < count ==> #[trigger] vk_format(formats@[i]) is Some,
        ensures
            r@.len() == count,
            forall|i: int|
                0 <= i < count ==> #[trigger] r@[i] == (SurfaceFormat {
                    format: vk_format(formats@[i])->0,
                    color_space: COLOR_SPACE_SRGB_NONLINEAR,
                }),
    {
        let mut r: Vec<SurfaceFormat> = Vec::new();
        let mut i: usize = 0;
        while i < count
            invariant
                count <= formats@.len(),
                forall|j: int| 0 <= j < count ==> #[trigger] vk_format(formats@[j]) is Some,
                0 <= i <= count,
                r@.len() == i,
                forall|j: int|
                    0 <= j < i ==> #[trigger] r@[j] == (SurfaceFormat {
                        format: vk_format(formats@[j])->0,
                        color_space: COLOR_SPACE_SRGB_NONLINEAR,
                    }),
            decreases count - i,
        {
            r.push(
                SurfaceFormat {
                    format: TextureFormat::to_vk(formats[i]),
                    color_space: COLOR_SPACE_SRGB_NONLINEAR,
                },
            );
            i = i + 1;
        }
        r
    }
}

/// A handle that a generator hands out next is not null and names no live
/// object of its kind, so creating an object never replaces another.
pub proof fn lemma_new_handles_are_fresh<G: GpuObjects>(m: InstanceModel<G>)
    requires
        m.wf(),
    ensures
        m.next_surface as u64 != crate::vk::NULL_HANDLE,
        !m.surfaces.contains_key(m.next_surface as u64),
        m.device matches Some(d) ==> {
            &&& !d.command_pools.contains_key(d.next_command_pool as u64)
            &&& !d.command_lists.contains_key(d.next_command_buffer as u64)
            &&& !d.swapchain_images.contains_key(d.next_swapchain as u64)
            &&& !d.image_surfaces.contains_key(d.next_image as u64)
            &&& !d.image_views.contains_key(d.next_image_view as u64)
            &&& !d.pipeline_layouts.contains_key(d.next_pipeline_layout as u64)
            &&& !d.render_pipelines.contains_key(d.next_render_pipeline as u64)
            &&& !d.shader_modules.contains_key(d.next_shader_module as u64)
            &&& !d.semaphores.contains(d.next_semaphore as u64)
            &&& d.next_command_pool as u64 != crate::vk::NULL_HANDLE
            &&& d.next_command_buffer as u64 != crate::vk::NULL_HANDLE
            &&& d.next_swapchain as u64 != crate::vk::NULL_HANDLE
            &&& d.next_image as u64 != crate::vk::NULL_HANDLE
            &&& d.next_image_view as u64 != crate::vk::NULL_HANDLE
            &&& d.next_pipeline_layout as u64 != crate::vk::NULL_HANDLE
            &&& d.next_render_pipeline as u64 != crate::vk::NULL_HANDLE
            &&& d.next_shader_module as u64 != crate::vk::NULL_HANDLE
            &&& d.next_semaphore as u64 != crate::vk::NULL_HANDLE
        },
{
}

/// Destroying the object that a create call has just made gives back the
/// table as it was before the create call, for every kind of object.
pub proof fn lemma_destroy_undoes_create<G: GpuObjects>(d: DeviceModel<G>)
    requires
        d.wf(),
    ensures
        d.command_pools.insert(d.next_command_pool as u64, Set::empty()).remove(
            d.next_command_pool as u64,
        ) == d.command_pools,
        d.swapchain_images.insert(d.next_swapchain as u64, seq![d.next_image as u64]).remove(
            d.next_swapchain as u64,
        ) == d.swapchain_images,
        d.semaphores.insert(d.next_semaphore as u64).remove(d.next_semaphore as u64)
            == d.semaphores,
        forall|image: u64|
            #[trigger] d.image_views.insert(d.next_image_view as u64, image).remove(
                d.next_image_view as u64,
            ) == d.image_views,
        forall|module: G::ShaderModule|
            #[trigger] d.shader_modules.insert(d.next_shader_module as u64, module).remove(
                d.next_shader_module as u64,
            ) == d.shader_modules,
        forall|layout: G::PipelineLayout|
            #[trigger] d.pipeline_layouts.insert(d.next_pipeline_layout as u64, layout).remove(
                d.next_pipeline_layout as u64,
            ) == d.pipeline_layouts,
        forall|pipeline: G::RenderPipeline|
            #[trigger] d.render_pipelines.insert(d.next_render_pipeline as u64, pipeline).remove(
                d.next_render_pipeline as u64,
            ) == d.render_pipelines,
{
    assert(d.command_pools.insert(d.next_command_pool as u64, Set::empty()).remove(
        d.next_command_pool as u64,
    ) =~= d.command_pools);
    assert(d.swapchain_images.insert(d.next_swapchain as u64, seq![d.next_image as u64]).remove(
        d.next_swapchain as u64,
    ) =~= d.swapchain_images);
    assert(d.semaphores.insert(d.next_semaphore as u64).remove(d.next_semaphore as u64)
        =~= d.semaphores);
    assert forall|image: u64|
        #[trigger] d.image_views.insert(d.next_image_view as u64, image).remove(d.next_image_view as u64)
            == d.image_views by {
        assert(d.image_views.insert(d.next_image_view as u64, image).remove(
            d.next_image_view as u64,
        ) =~= d.image_views);
    }
    assert forall|module: G::ShaderModule|
        #[trigger] d.shader_modules.insert(d.next_shader_module as u64, module).remove(
            d.next_shader_module as u64,
        ) == d.shader_modules by {
        assert(d.shader_modules.insert(d.next_shader_module as u64, module).remove(
            d.next_shader_module as u64,
        ) =~= d.shader_modules);
    }
    assert forall|layout: G::PipelineLayout|
        #[trigger] d.pipeline_layouts.insert(d.next_pipeline_layout as u64, layout).remove(
            d.next_pipeline_layout as u64,
        ) == d.pipeline_layouts by {
        assert(d.pipeline_layouts.insert(d.next_pipeline_layout as u64, layout).remove(
            d.next_pipeline_layout as u64,
        ) =~= d.pipeline_layouts);
    }
    assert forall|pipeline: G::RenderPipeline|
        #[trigger] d.render_pipelines.insert(d.next_render_pipeline as u64, pipeline).remove(
            d.next_render_pipeline as u64,
        ) == d.render_pipelines by {
        assert(d.render_pipelines.insert(d.next_render_pipeline as u64, pipeline).remove(
            d.next_render_pipeline as u64,
        ) =~= d.render_pipelines);
    }
}

/// Recording a command appends it to its own buffer's list and leaves every
/// other buffer's list, and the rest of the instance, as it was.
pub proof fn lemma_recording_touches_only_its_buffer<G: GpuObjects>(
    m: InstanceModel<G>,
    command_buffer: u64,
    command: Command,
    other: u64,
)
    requires
        m.records(command_buffer),
        other != command_buffer,
    ensures
        m.recorded(command_buffer, command).records(command_buffer),
        m.recorded(command_buffer, command).command_list(command_buffer) == m.command_list(
            command_buffer,
        ).push(command),
        m.recorded(command_buffer, command).records(other) == m.records(other),
        m.records(other) ==> m.recorded(command_buffer, command).command_list(other)
            == m.command_list(other),
        m.recorded(command_buffer, command).surfaces == m.surfaces,
{
}

} // verus!
