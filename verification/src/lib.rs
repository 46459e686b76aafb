//! Core resolution pipeline for a data-driven static site: page records,
//! theme registries, render-context building, favicon planning and
//! static-asset classification.

pub mod kvmap;
pub mod errors;
pub mod page;
pub mod config;
pub mod markdown;
pub mod favicon;
pub mod staticfiles;
pub mod context;
pub mod rawpage;
