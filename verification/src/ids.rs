//! Typed identifiers. Each one wraps the raw 64-bit value that is stored in
//! the Vulkan handle handed out for the object.

use vstd::prelude::*;
use vstd::std_specs::convert::{FromSpec, FromSpecImpl};

verus! {

/// Identifier of a recorded command buffer.
#[derive(Debug, Clone, Copy, PartialEq, Eq, Structural, PartialOrd, Ord, Hash)]
pub struct CommandBufferId {
    pub raw: u64,
}

impl From<u64> for CommandBufferId {
    fn from(value: u64) -> (id: Self) {
        CommandBufferId { raw: value }
    }
}

impl FromSpecImpl<u64> for CommandBufferId {
    open spec fn obeys_from_spec() -> bool {
        true
    }

    open spec fn from_spec(v: u64) -> Self {
        CommandBufferId { raw: v }
    }
}

impl From<CommandBufferId> for u64 {
    fn from(id: CommandBufferId) -> (value: u64) {
        id.raw
    }
}

impl FromSpecImpl<CommandBufferId> for u64 {
    open spec fn obeys_from_spec() -> bool {
        true
    }

    open spec fn from_spec(v: CommandBufferId) -> u64 {
        v.raw
    }
}

/// Identifier of a command pool.
#[derive(Debug, Clone, Copy, PartialEq, Eq, Structural, PartialOrd, Ord, Hash)]
pub struct CommandPoolId {
    pub raw: u64,
}

impl From<u64> for CommandPoolId {
    fn from(value: u64) -> (id: Self) {
        CommandPoolId { raw: value }
    }
}

impl FromSpecImpl<u64> for CommandPoolId {
    open spec fn obeys_from_spec() -> bool {
        true
    }

    open spec fn from_spec(v: u64) -> Self {
        CommandPoolId { raw: v }
    }
}

impl From<CommandPoolId> for u64 {
    fn from(id: CommandPoolId) -> (value: u64) {
        id.raw
    }
}

impl FromSpecImpl<CommandPoolId> for u64 {
    open spec fn obeys_from_spec() -> bool {
        true
    }

    open spec fn from_spec(v: CommandPoolId) -> u64 {
        v.raw
    }
}

/// Identifier of a swapchain image.
#[derive(Debug, Clone, Copy, PartialEq, Eq, Structural, PartialOrd, Ord, Hash)]
pub struct ImageId {
    pub raw: u64,
}

impl From<u64> for ImageId {
    fn from(value: u64) -> (id: Self) {
        ImageId { raw: value }
    }
}

impl FromSpecImpl<u64> for ImageId {
    open spec fn obeys_from_spec() -> bool {
        true
    }

    open spec fn from_spec(v: u64) -> Self {
        ImageId { raw: v }
    }
}

impl From<ImageId> for u64 {
    fn from(id: ImageId) -> (value: u64) {
        id.raw
    }
}

impl FromSpecImpl<ImageId> for u64 {
    open spec fn obeys_from_spec() -> bool {
        true
    }

    open spec fn from_spec(v: ImageId) -> u64 {
        v.raw
    }
}

/// Identifier of an image view.
#[derive(Debug, Clone, Copy, PartialEq, Eq, Structural, PartialOrd, Ord, Hash)]
pub struct ImageViewId {
    pub raw: u64,
}

impl From<u64> for ImageViewId {
    fn from(value: u64) -> (id: Self) {
        ImageViewId { raw: value }
    }
}

impl FromSpecImpl<u64> for ImageViewId {
    open spec fn obeys_from_spec() -> bool {
        true
    }

    open spec fn from_spec(v: u64) -> Self {
        ImageViewId { raw: v }
    }
}

impl From<ImageViewId> for u64 {
    fn from(id: ImageViewId) -> (value: u64) {
        id.raw
    }
}

impl FromSpecImpl<ImageViewId> for u64 {
    open spec fn obeys_from_spec() -> bool {
        true
    }

    open spec fn from_spec(v: ImageViewId) -> u64 {
        v.raw
    }
}

/// Identifier of a pipeline layout.
#[derive(Debug, Clone, Copy, PartialEq, Eq, Structural, PartialOrd, Ord, Hash)]
pub struct PipelineLayoutId {
    pub raw: u64,
}

impl From<u64> for PipelineLayoutId {
    fn from(value: u64) -> (id: Self) {
        PipelineLayoutId { raw: value }
    }
}

impl FromSpecImpl<u64> for PipelineLayoutId {
    open spec fn obeys_from_spec() -> bool {
        true
    }

    open spec fn from_spec(v: u64) -> Self {
        PipelineLayoutId { raw: v }
    }
}

impl From<PipelineLayoutId> for u64 {
    fn from(id: PipelineLayoutId) -> (value: u64) {
        id.raw
    }
}

impl FromSpecImpl<PipelineLayoutId> for u64 {
    open spec fn obeys_from_spec() -> bool {
        true
    }

    open spec fn from_spec(v: PipelineLayoutId) -> u64 {
        v.raw
    }
}

/// Identifier of a render pipeline.
#[derive(Debug, Clone, Copy, PartialEq, Eq, Structural, PartialOrd, Ord, Hash)]
pub struct RenderPipelineId {
    pub raw: u64,
}

impl From<u64> for RenderPipelineId {
    fn from(value: u64) -> (id: Self) {
        RenderPipelineId { raw: value }
    }
}

impl FromSpecImpl<u64> for RenderPipelineId {
    open spec fn obeys_from_spec() -> bool {
        true
    }

    open spec fn from_spec(v: u64) -> Self {
        RenderPipelineId { raw: v }
    }
}

impl From<RenderPipelineId> for u64 {
    fn from(id: RenderPipelineId) -> (value: u64) {
        id.raw
    }
}

impl FromSpecImpl<RenderPipelineId> for u64 {
    open spec fn obeys_from_spec() -> bool {
        true
    }

    open spec fn from_spec(v: RenderPipelineId) -> u64 {
        v.raw
    }
}

/// Identifier of a semaphore.
#[derive(Debug, Clone, Copy, PartialEq, Eq, Structural, PartialOrd, Ord, Hash)]
pub struct SemaphoreId {
    pub raw: u64,
}

impl From<u64> for SemaphoreId {
    fn from(value: u64) -> (id: Self) {
        SemaphoreId { raw: value }
    }
}

impl FromSpecImpl<u64> for SemaphoreId {
    open spec fn obeys_from_spec() -> bool {
        true
    }

    open spec fn from_spec(v: u64) -> Self {
        SemaphoreId { raw: v }
    }
}

impl From<SemaphoreId> for u64 {
    fn from(id: SemaphoreId) -> (value: u64) {
        id.raw
    }
}

impl FromSpecImpl<SemaphoreId> for u64 {
    open spec fn obeys_from_spec() -> bool {
        true
    }

    open spec fn from_spec(v: SemaphoreId) -> u64 {
        v.raw
    }
}

/// Identifier of a presentation surface.
#[derive(Debug, Clone, Copy, PartialEq, Eq, Structural, PartialOrd, Ord, Hash)]
pub struct SurfaceId {
    pub raw: u64,
}

impl From<u64> for SurfaceId {
    fn from(value: u64) -> (id: Self) {
        SurfaceId { raw: value }
    }
}

impl FromSpecImpl<u64> for SurfaceId {
    open spec fn obeys_from_spec() -> bool {
        true
    }

    open spec fn from_spec(v: u64) -> Self {
        SurfaceId { raw: v }
    }
}

impl From<SurfaceId> for u64 {
    fn from(id: SurfaceId) -> (value: u64) {
        id.raw
    }
}

impl FromSpecImpl<SurfaceId> for u64 {
    open spec fn obeys_from_spec() -> bool {
        true
    }

    open spec fn from_spec(v: SurfaceId) -> u64 {
        v.raw
    }
}

/// Identifier of a swapchain.
#[derive(Debug, Clone, Copy, PartialEq, Eq, Structural, PartialOrd, Ord, Hash)]
pub struct SwapchainId {
    pub raw: u64,
}

impl From<u64> for SwapchainId {
    fn from(value: u64) -> (id: Self) {
        SwapchainId { raw: value }
    }
}

impl FromSpecImpl<u64> for SwapchainId {
    open spec fn obeys_from_spec() -> bool {
        true
    }

    open spec fn from_spec(v: u64) -> Self {
        SwapchainId { raw: v }
    }
}

impl From<SwapchainId> for u64 {
    fn from(id: SwapchainId) -> (value: u64) {
        id.raw
    }
}

impl FromSpecImpl<SwapchainId> for u64 {
    open spec fn obeys_from_spec() -> bool {
        true
    }

    open spec fn from_spec(v: SwapchainId) -> u64 {
        v.raw
    }
}

/// Identifier of a shader module.
#[derive(Debug, Clone, Copy, PartialEq, Eq, Structural, PartialOrd, Ord, Hash)]
pub struct ShaderModuleId {
    pub raw: u64,
}

impl From<u64> for ShaderModuleId {
    fn from(value: u64) -> (id: Self) {
        ShaderModuleId { raw: value }
    }
}

impl FromSpecImpl<u64> for ShaderModuleId {
    open spec fn obeys_from_spec() -> bool {
        true
    }

    open spec fn from_spec(v: u64) -> Self {
        ShaderModuleId { raw: v }
    }
}

impl From<ShaderModuleId> for u64 {
    fn from(id: ShaderModuleId) -> (value: u64) {
        id.raw
    }
}

impl FromSpecImpl<ShaderModuleId> for u64 {
    open spec fn obeys_from_spec() -> bool {
        true
    }

    open spec fn from_spec(v: ShaderModuleId) -> u64 {
        v.raw
    }
}

/// Identifier of a vertex buffer.
#[derive(Debug, Clone, Copy, PartialEq, Eq, Structural, PartialOrd, Ord, Hash)]
pub struct BufferId {
    pub raw: u64,
}

impl From<u64> for BufferId {
    fn from(value: u64) -> (id: Self) {
        BufferId { raw: value }
    }
}

impl FromSpecImpl<u64> for BufferId {
    open spec fn obeys_from_spec() -> bool {
        true
    }

    open spec fn from_spec(v: u64) -> Self {
        BufferId { raw: v }
    }
}

impl From<BufferId> for u64 {
    fn from(id: BufferId) -> (value: u64) {
        id.raw
    }
}

impl FromSpecImpl<BufferId> for u64 {
    open spec fn obeys_from_spec() -> bool {
        true
    }

    open spec fn from_spec(v: BufferId) -> u64 {
        v.raw
    }
}

/// An identifier written into a handle and read back from it is the same
/// identifier, and a raw handle value read as an identifier and written back
/// is the same value.
pub proof fn lemma_handle_round_trip()
    ensures
        forall|id: CommandBufferId|
            #[trigger] <CommandBufferId as FromSpec<u64>>::from_spec(
                <u64 as FromSpec<CommandBufferId>>::from_spec(id),
            ) == id,
        forall|raw: u64|
            #[trigger] <u64 as FromSpec<CommandBufferId>>::from_spec(
                <CommandBufferId as FromSpec<u64>>::from_spec(raw),
            ) == raw,
        forall|id: CommandPoolId|
            #[trigger] <CommandPoolId as FromSpec<u64>>::from_spec(
                <u64 as FromSpec<CommandPoolId>>::from_spec(id),
            ) == id,
        forall|raw: u64|
            #[trigger] <u64 as FromSpec<CommandPoolId>>::from_spec(
                <CommandPoolId as FromSpec<u64>>::from_spec(raw),
            ) == raw,
        forall|id: ImageId|
            #[trigger] <ImageId as FromSpec<u64>>::from_spec(
                <u64 as FromSpec<ImageId>>::from_spec(id),
            ) == id,
        forall|raw: u64|
            #[trigger] <u64 as FromSpec<ImageId>>::from_spec(
                <ImageId as FromSpec<u64>>::from_spec(raw),
            ) == raw,
        forall|id: ImageViewId|
            #[trigger] <ImageViewId as FromSpec<u64>>::from_spec(
                <u64 as FromSpec<ImageViewId>>::from_spec(id),
            ) == id,
        forall|raw: u64|
            #[trigger] <u64 as FromSpec<ImageViewId>>::from_spec(
                <ImageViewId as FromSpec<u64>>::from_spec(raw),
            ) == raw,
        forall|id: PipelineLayoutId|
            #[trigger] <PipelineLayoutId as FromSpec<u64>>::from_spec(
                <u64 as FromSpec<PipelineLayoutId>>::from_spec(id),
            ) == id,
        forall|raw: u64|
            #[trigger] <u64 as FromSpec<PipelineLayoutId>>::from_spec(
                <PipelineLayoutId as FromSpec<u64>>::from_spec(raw),
            ) == raw,
        forall|id: RenderPipelineId|
            #[trigger] <RenderPipelineId as FromSpec<u64>>::from_spec(
                <u64 as FromSpec<RenderPipelineId>>::from_spec(id),
            ) == id,
        forall|raw: u64|
            #[trigger] <u64 as FromSpec<RenderPipelineId>>::from_spec(
                <RenderPipelineId as FromSpec<u64>>::from_spec(raw),
            ) == raw,
        forall|id: SemaphoreId|
            #[trigger] <SemaphoreId as FromSpec<u64>>::from_spec(
                <u64 as FromSpec<SemaphoreId>>::from_spec(id),
            ) == id,
        forall|raw: u64|
            #[trigger] <u64 as FromSpec<SemaphoreId>>::from_spec(
                <SemaphoreId as FromSpec<u64>>::from_spec(raw),
            ) == raw,
        forall|id: SurfaceId|
            #[trigger] <SurfaceId as FromSpec<u64>>::from_spec(
                <u64 as FromSpec<SurfaceId>>::from_spec(id),
            ) == id,
        forall|raw: u64|
            #[trigger] <u64 as FromSpec<SurfaceId>>::from_spec(
                <SurfaceId as FromSpec<u64>>::from_spec(raw),
            ) == raw,
        forall|id: SwapchainId|
            #[trigger] <SwapchainId as FromSpec<u64>>::from_spec(
                <u64 as FromSpec<SwapchainId>>::from_spec(id),
            ) == id,
        forall|raw: u64|
            #[trigger] <u64 as FromSpec<SwapchainId>>::from_spec(
                <SwapchainId as FromSpec<u64>>::from_spec(raw),
            ) == raw,
        forall|id: ShaderModuleId|
            #[trigger] <ShaderModuleId as FromSpec<u64>>::from_spec(
                <u64 as FromSpec<ShaderModuleId>>::from_spec(id),
            ) == id,
        forall|raw: u64|
            #[trigger] <u64 as FromSpec<ShaderModuleId>>::from_spec(
                <ShaderModuleId as FromSpec<u64>>::from_spec(raw),
            ) == raw,
        forall|id: BufferId|
            #[trigger] <BufferId as FromSpec<u64>>::from_spec(
                <u64 as FromSpec<BufferId>>::from_spec(id),
            ) == id,
        forall|raw: u64|
            #[trigger] <u64 as FromSpec<BufferId>>::from_spec(
                <BufferId as FromSpec<u64>>::from_spec(raw),
            ) == raw,
{
}

} // verus!
