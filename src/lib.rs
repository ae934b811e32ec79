//! An in-memory blog backend: posts with embedded author snapshots, users,
//! and the query and mutation resolvers over them.

pub mod model;
pub mod names;
pub mod store;
pub mod resolvers;
pub mod stamp;
