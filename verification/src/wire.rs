//! The form of everything on the wire: how each value is written as a JSON
//! document and read from one.

pub mod envelope;
pub mod fields;
pub mod parts;
pub mod tasks;
