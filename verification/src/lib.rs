//! A Vulkan front end that records Vulkan calls and replays them on a
//! WebGPU device. This crate holds the verified core: handle and id
//! bookkeeping, command recording and replay planning, entry point lookup
//! and the format and flag conversions.

pub mod id_generator;
pub mod ids;
pub mod vk;
pub mod command;
pub mod context;
pub mod type_converter;
pub mod binding_layer;
