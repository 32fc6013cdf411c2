//! An in-memory adjacency-list graph: vertices that carry named, typed
//! properties, and directed or undirected edges kept as one neighbour list per
//! vertex.
//!
//! Every executable item is verified against a mathematical model of the data
//! (see [`model`]): a [`Vertex`] is viewed as a [`VertexModel`], a [`Graph`] as a
//! [`GraphModel`], and each contract states the new model as a function of the
//! old one.

pub mod graph;
pub mod model;
pub mod text;
pub mod vertex;

pub use graph::Graph;
pub use model::{GraphModel, VertexModel};
pub use vertex::Vertex;
