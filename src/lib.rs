//! Deployment orchestration for environment templates: a catalog of
//! templates, the conversion of a template into engine-level container
//! configuration, the build and deploy pipeline as a sequence of verified
//! decisions, and a registry of what is currently deployed.

pub mod catalog;
pub mod deploy;
pub mod error;
pub mod host_config;
pub mod image_build;
pub mod inspect;
pub mod lifecycle;
pub mod model;
pub mod naming;
pub mod registry;
pub mod templates;
pub mod text;
