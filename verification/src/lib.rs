mod ownership;

pub mod adapter;
pub mod binary_semaphore;
pub mod command_buffer;
pub mod command_pool;
pub mod debug_utils;
pub mod device;
pub mod error;
pub mod fence;
pub mod instance;
pub mod message_severity;
pub mod names;
pub mod queue;
pub mod surface;
pub mod timeline_semaphore;
