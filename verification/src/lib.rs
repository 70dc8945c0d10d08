//! Business rules of an open database of effects (products and services)
//! in the economy: turning requests into the records and storage commands
//! that a repository carries out, and turning records into their JSON
//! representations.

pub mod text;
pub mod entities;
pub mod error;
pub mod outside;
pub mod usecase;
pub mod json;
pub mod laws;
pub mod record_laws;
