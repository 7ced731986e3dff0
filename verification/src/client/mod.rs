//! The verified logic of the FFNodes encoding client.
pub mod api;
pub mod config;
pub mod encoder;
pub mod gpu;
pub mod job_manager;
pub mod logger;
pub mod machine_id;
pub mod oauth;
