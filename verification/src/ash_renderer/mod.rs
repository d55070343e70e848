//! The self-contained renderer that draws one pipeline into a swapchain: how it
//! steps through its frames and how it tears itself down.
pub mod ash_renderer;
pub mod constants;
pub mod platforms;
