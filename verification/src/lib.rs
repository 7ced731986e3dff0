//! Verified core of the FFNodes distributed video encoding system.
#![allow(unused_imports)]

pub mod text;
pub mod system;
pub mod numbers;
pub mod data_url;
pub mod builders;
pub mod ffmpeg;
pub mod process;
pub mod server;
pub mod client;
