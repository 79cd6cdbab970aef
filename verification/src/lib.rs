//! Frame orchestration for a small real-time renderer: a render graph of
//! passes that exchange images by tag, and the presentation state of a window.
//!
//! Nothing here talks to a device or to the window system. Every function
//! takes what the device or the operating system reported as a plain value
//! and answers with the next state and with what is to be done next. Of
//! vulkano the library uses one enumeration of a surface's alpha modes, and
//! carries its primitive topology through to the pipeline.

pub mod device;
pub mod graph;
pub mod laws;
pub mod mesh;
pub mod passes;
pub mod signal;
pub mod swapchain;
pub mod vk_window;
pub mod window;
