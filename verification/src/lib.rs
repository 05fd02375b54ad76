//! Command-line core for the Golem workload platform: a typed command model,
//! configuration resolution, request planning against the control-plane REST
//! API, template-name resolution, example scaffolding, and a format-aware
//! result renderer.

pub mod api;
pub mod args;
pub mod config;
pub mod examples;
pub mod jsonio;
pub mod model;
pub mod render;
pub mod template;
pub mod text;
pub mod worker;
