//! A context graph: typed vertices anchored in data, space and time, held in a
//! dense directed graph with a lookup index that is kept in step with it.

pub mod context;
pub mod contextoid;
pub mod graph;
pub mod node_types;
pub mod protocols;
pub mod storage;
pub mod text;
pub mod time_scale;
