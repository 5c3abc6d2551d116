pub mod agent;
pub mod app;
pub mod approval;
pub mod autonomous_agent;
pub mod config;
pub mod events;
pub mod executor;
pub mod extract;
pub mod json;
pub mod models;
pub mod risk;
pub mod strmap;
pub mod text;
pub mod toolcall;
pub mod workflow;
