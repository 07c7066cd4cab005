//! Functions of the host.

pub mod clock;
pub mod list;
