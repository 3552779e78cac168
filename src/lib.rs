pub mod pad;
pub mod config;
pub mod transform;
pub mod port;
pub mod adapter;
pub mod rumble;
pub mod sink;
pub mod settings;
