//! Bootstrapping of supply-chain-secured software projects.
//!
//! The crate models a project as a repository, a local source checkout, an
//! ecosystem identity and a collection of generated facets, and verifies the
//! orchestration that creates, fetches, updates and archives such projects.

pub mod facet;
pub mod manifest;
pub mod model;
pub mod project;
pub mod repo_created;
pub mod services;

pub use model::SkootError;
