pub mod api_channels;
pub mod codex;
pub mod commands;
pub mod models;
pub mod quota;
pub mod storage;
pub mod text;
