pub mod client;
pub mod config;
pub mod laws;
pub mod pattern;
pub mod report;
pub mod text;
pub mod types;
