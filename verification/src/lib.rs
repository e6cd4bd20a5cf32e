pub mod args;
pub mod cli;
pub mod cluster;
pub mod config;
pub mod connector;
pub mod openapi;
pub mod router;
pub mod scheduler;
pub mod text;
