pub mod action;
pub mod action_container;
pub mod action_fs;
pub mod config;
pub mod constants;
pub mod controller;
pub mod fs_plan;
pub mod http;
pub mod identifier;
pub mod json;
pub mod startup;
pub mod text;
