//! The two halves of a pseudo-terminal.

pub mod master;
pub mod slave;
