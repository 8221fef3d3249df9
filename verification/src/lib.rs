//! A catalog of artists, releases and tracks: the data model, the statements
//! that persist it, and the decisions that keep the three kinds of entry
//! consistent while a music directory is synchronised.

pub mod frontend;
pub mod model;
pub mod repository;
pub mod service;
pub mod store;
