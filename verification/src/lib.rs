//! Supervision core of a lightweight actor-style runtime: supervised
//! processes with a unique identity, an application mailbox, an out-of-band
//! signal channel, and a once-per-process termination verdict broadcast.

pub mod message;
pub mod process;
