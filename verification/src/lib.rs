//! Verified core of a screen-capture toolkit: the logic shared by the
//! injector, the capture hooks and the shared-memory protocol between them.

pub mod decimal;
pub mod naming;
pub mod vk_types;
pub mod vk;
pub mod vk_commands;
pub mod vk_frame;
pub mod shmem;
pub mod capture;
pub mod injector;
pub mod encoder;
pub mod pipe;
pub mod screenshot;
