//! The bundled datasets, one module per dataset.

pub mod boston;
pub mod iris;
