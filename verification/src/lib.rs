//! Vulkan rendering backend: the decisions that sit between the application and
//! the Vulkan driver, stated over plain values and proved.
use std::sync::Arc;
use vstd::prelude::*;

pub mod ash_renderer;
pub mod renderer;
pub mod vulkan;
pub mod window_loop;

verus! {

/// The broad class of a GPU, as the renderer distinguishes it.
#[derive(Clone, Copy, Debug, PartialEq, Eq, Structural)]
pub enum DeviceType {
    Integrated,
    Discrete,
    Other,
}

/// A GPU that the backend can render with.
pub trait PhysicalDevice {
    fn device_type(&self) -> DeviceType;

    fn vram_size(&self) -> usize;
}

/// A rendering backend that enumerates the GPUs it can use.
pub trait RenderBackend {
    type PhysDev: PhysicalDevice;

    fn physical_devices(&self) -> &Vec<Arc<Self::PhysDev>>;
}

} // verus!
