//! Shared infrastructure.

pub mod cli;
pub mod common_component;
pub mod configuration;
pub mod error;
