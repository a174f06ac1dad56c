//! Value representation for an embeddable interpreter: ownership states,
//! value containers with a uniform capability interface, and the compact
//! tagged value that the interpreter passes around.

pub mod data;
pub mod insc;
pub mod value;
