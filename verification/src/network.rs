//! Addresses, ports and the bytes that peers send.

use crate::error::BlockchainError;
use crate::text::{from_utf8_lossy, push_decimal};
use rand::Rng;
use vstd::prelude::*;

verus! {

/// The lowest port that is drawn for a node that names none.
pub const FIRST_DRAWN_PORT: u16 = 1024;

/// The port after the highest one that is drawn.
pub const DRAWN_PORT_END: u16 = 65535;

/// How many bytes of a peer's message are read.
pub const PEER_BUFFER_SIZE: usize = 1024;

/// The address of a peer.
#[derive(Clone, Copy, Debug, PartialEq, Eq, Structural)]
pub enum PeerAddr {
    /// An IPv4 address, its four bytes as a number, and a port.
    V4 { ip4: u32, port: u16 },
    /// An IPv6 address, its sixteen bytes as a number, and a port.
    V6 { ip6: u128, port: u16, flowinfo: u32, scope_id: u32 },
}

/// A port of this machine and the address it is reached at.
#[derive(Debug)]
pub struct Endpoint {
    pub port: u16,
    pub addr: String,
}

/// The loopback address with a port.
pub open spec fn local_addr(port: u16) -> Seq<char> {
    "127.0.0.1:"@ + crate::text::decimal(port as nat)
}

impl Endpoint {
    /// The endpoint of `port` on the loopback address.
    pub fn local(port: u16) -> (r: Endpoint)
        ensures
            r.port == port,
            r.addr@ == local_addr(port),
            r.addr@ == "127.0.0.1:"@ + crate::text::decimal(port as nat),
    {
        let mut addr = "127.0.0.1:".to_owned();
        push_decimal(&mut addr, port as u128);
        Endpoint { port, addr }
    }

    /// The endpoint for WebSocket connections: the port after the one that peers connect to.
    pub fn websocket(listening_port: u16) -> (r: Endpoint)
        requires
            listening_port < u16::MAX,
        ensures
            r.port == listening_port + 1,
            r.addr@ == local_addr((listening_port + 1) as u16),
            r.addr@ == "127.0.0.1:"@ + crate::text::decimal((listening_port + 1) as nat),
    {
        Endpoint::local(listening_port + 1)
    }
}

/// `rand::Rng::gen_range` on `rand::thread_rng()`.
///
/// Trusted: the number lies in the range. Which one it is stays open; that it was drawn is what
/// [`drawn_between`](crate::provenance::drawn_between) keeps of it.
#[verifier::external_body]
pub(crate) fn random_in(low: u16, high: u16) -> (r: u16)
    requires
        low < high,
    ensures
        low <= r < high,
        crate::provenance::drawn_between(low, high, r),
{
    rand::thread_rng().gen_range(low..high)
}

/// What a listener met.
#[derive(Debug)]
pub enum ListenerEvent {
    /// The address is bound.
    Bound,
    /// The address could not be bound, for this reason.
    BindFailed(String),
    /// A connection came in.
    Accepted,
    /// A connection could not be accepted, for this reason.
    AcceptFailed(String),
}

/// What a listener for WebSocket connections does next.
#[derive(Debug)]
pub enum ListenerAction {
    /// Waits for a connection.
    Accept,
    /// Serves the connection in a task of its own, and waits for the next one.
    Serve,
    /// Ends.
    Finish(Result<(), BlockchainError>),
}

/// The text of a peer's message: the first `size` bytes of `buffer`, or nothing where the peer
/// sent nothing.
pub fn received_text(buffer: &Vec<u8>, size: usize) -> (r: Option<String>)
    requires
        size <= buffer@.len(),
    ensures
        match r {
            None => size == 0,
            Some(text) => {
                &&& size > 0
                &&& text@ == crate::text::lossy_text(buffer@.take(size as int))
                &&& vstd::utf8::valid_utf8(buffer@.take(size as int)) ==> text@
                    == vstd::utf8::decode_utf8(buffer@.take(size as int))
            },
        },
{
    if size > 0 {
        let data = vstd::slice::slice_subrange(buffer.as_slice(), 0, size);
        assert(data@ =~= buffer@.take(size as int));
        Some(from_utf8_lossy(data))
    } else {
        None
    }
}

} // verus!
