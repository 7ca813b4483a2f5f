pub mod args;
pub mod config;
pub mod engine;
pub mod filter;
pub mod models;
pub mod report;
pub mod text;
