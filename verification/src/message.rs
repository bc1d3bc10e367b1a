//! The application-message envelope delivered into a process's mailbox.

use vstd::prelude::*;

verus! {

/// A message that can be delivered into a process's mailbox.
///
/// The payload is opaque to the supervision core; the one reserved variant,
/// [`Message::Signal`], is produced by the core itself when a linked process
/// died and this process chose (via its die-when-link-dies flag) to keep
/// running: in-band application logic can then observe the link death.
#[derive(Debug)]
pub enum Message {
    /// Reserved marker: a linked process died and this process stayed alive.
    Signal,
    /// An opaque application payload.
    Data(Vec<u8>),
}

} // verus!
