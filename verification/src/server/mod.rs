//! The verified logic of the FFNodes server.
pub mod actor;
pub mod auth;
pub mod clients;
pub mod config;
pub mod files;
pub mod jobs;
pub mod media;
pub mod path_security;
pub mod stats;
pub mod templates;
