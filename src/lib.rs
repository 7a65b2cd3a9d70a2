//! Start-up decisions of a Vulkan application, verified: which instance extensions and layers to
//! enable, which physical device and queue family to use, and which swap-chain parameters to
//! request from what the surface reports. Talking to the driver and the window system is left to
//! the caller, which hands in what it probed as plain values.
pub mod app;
pub mod cli;
pub mod device;
pub mod error;
pub mod instance;
pub mod swapchain;
