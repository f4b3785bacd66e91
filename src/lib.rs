pub mod config;
pub mod controller;
pub mod error;
pub mod menu;
pub mod plan;
pub mod render;
pub mod text;
pub mod transfer;
