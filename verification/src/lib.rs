//! Body-composition measurements: the values of one reading, the identifier
//! under which a document store keeps it, and the decisions a service makes
//! when a reading is recorded or fetched.

pub mod config;
pub mod error;
pub mod measurement;
pub mod object_id;
pub mod quantity;
pub mod service;
