//! Host telemetry: normalisation of platform-native system reports into one
//! snapshot schema, and the decisions around forceful process termination.
pub mod text;
pub mod types;
pub mod memory;
pub mod linux;
pub mod process;
pub mod json;
pub mod windows;
pub mod mac;
