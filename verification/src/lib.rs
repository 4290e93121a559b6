pub mod alerts;
pub mod auth;
pub mod errors;
pub mod fanout;
pub mod fs_path;
pub mod manager;
pub mod metrics;
pub mod models;
pub mod monitor;
pub mod numtext;
pub mod paths;
pub mod pipeline;
pub mod pty;
pub mod resolve;
pub mod text;
