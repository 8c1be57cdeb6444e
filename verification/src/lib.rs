pub mod agent;
pub mod config;
pub mod fence;
pub mod json;
pub mod knowledge;
pub mod service;
pub mod text;
pub mod demo;
pub mod data;
