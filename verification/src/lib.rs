pub mod clipboard;
pub mod encoding;
pub mod guid;
pub mod password;
pub mod secret;
mod rng;
