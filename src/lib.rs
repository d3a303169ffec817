//! Peer-to-peer chat and file exchange: the wire format, the connection
//! state machine and the interactive session logic.

use rand::Rng;
use vstd::prelude::*;

pub mod app;
pub mod dialog;
pub mod network;
pub mod protocol;

use network::IpAddress;
use protocol::{File, Message};

verus! {

/// The well-known TCP port every peer listens on.
pub const DEFAULT_PORT: u16 = 42069;

/// What the network thread and the interactive thread send each other.
/// Network to interactive: `ConnectRequest`, `Message`, `File`, `Disconnect`.
/// Interactive to network: `ConnectAccept`, `Disconnect`.
#[derive(Debug)]
pub enum ChannelMessage {
    ConnectRequest(u32, IpAddress),
    ConnectAccept,
    Message(Message),
    File(File),
    Disconnect,
}

/// Relies on `rand::Rng::gen_range` over the thread-local generator: the
/// value it draws lies in the inclusive range it is given.
#[verifier::external_body]
fn random_in_range(low: u32, high: u32) -> (r: u32)
    requires
        low <= high,
    ensures
        low <= r <= high,
{
    rand::thread_rng().gen_range(low..=high)
}

/// A fresh random id for this process; never zero.
pub fn generate_id() -> (r: u32)
    ensures
        r != 0,
{
    random_in_range(1, u32::MAX)
}

} // verus!
