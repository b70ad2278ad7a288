pub mod collect;
pub mod example;
pub mod nm_device;
