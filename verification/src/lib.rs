//! Layered configuration resolution for an assistant panel.
//!
//! A configuration is assembled from one fully populated base layer and an
//! ordered sequence of partial override layers; later layers win field by
//! field. Raw configuration sources are checked against the field schema
//! before they take part in a merge. A small closed enumeration of backend
//! models supports stable wire identifiers and a cyclic successor operation.

pub mod errors;
pub mod layer;
pub mod model;
pub mod resolver;
