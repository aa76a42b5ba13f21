//! Projection of rows of a remote task database into typed task records.

pub mod error;
pub mod extract;
pub mod gather;
pub mod model;
pub mod name_map;
pub mod pipeline;
pub mod project;
pub mod query;
pub mod relation;
pub mod task;
pub mod text;
