//! Admission of pre-built, sorted table files into a column family of a
//! running storage engine.
//!
//! The crate decides what is done and in which order: it holds no file and
//! calls no engine. A caller performs each [`coordinator::Action`] and reports
//! what came of it as an [`coordinator::Event`].

pub mod coordinator;
pub mod error;
pub mod laws;
pub mod model;
pub mod options;
