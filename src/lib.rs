//! Strict and generalized RDF terms and statements, with the conversions between them.
pub mod model;

pub mod gmodel;
pub mod laws;
