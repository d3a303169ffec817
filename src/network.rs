//! The connection state machine. Each method takes what a socket operation
//! gave and returns the next socket operation to perform; the sockets
//! themselves belong to the caller.

use vstd::prelude::*;

use crate::protocol::{
    be32_at, decode_frame, decode_handshake, handshake_bytes, max_frame_len, payload_frame,
    Handshake, Payload, ProtocolError, ProtocolMessage, Serializable, HANDSHAKE_LEN, HEADER_LEN,
};
use crate::ChannelMessage;

verus! {

/// An IP address as plain bytes.
#[derive(Debug, Clone, Copy, PartialEq, Eq, Structural)]
pub enum IpAddress {
    V4(u8, u8, u8, u8),
    V6(u16, u16, u16, u16, u16, u16, u16, u16),
}

/// Where the link to the peer stands.
#[derive(Debug, Clone, Copy, PartialEq, Eq, Structural)]
pub enum ConnectionState {
    /// No peer: waiting for one to connect, or free to connect to one.
    Listening,
    /// A peer has sent its handshake; the interactive side must judge it.
    AwaitingApproval { requester_id: u32, requester_ip: IpAddress },
    /// A peer is attached.
    Connected,
}

/// The socket operation the caller performs next.
#[derive(Debug)]
pub enum LinkAction {
    /// Nothing to do now; poll again.
    Wait,
    /// Read exactly this many bytes from the peer.
    Read(u64),
    /// Write these bytes to the peer.
    Write(Vec<u8>),
    /// Hand this event to the interactive side.
    Emit(ChannelMessage),
    /// Close the peer socket, then hand the event, if any, to the interactive side.
    Close(Option<ChannelMessage>),
}

/// Whether `event` is the channel event that carries `payload`.
pub open spec fn carries(event: ChannelMessage, payload: Payload) -> bool {
    match (event, payload) {
        (ChannelMessage::Message(m), Payload::Chat(text)) => m@ == text,
        (ChannelMessage::File(f), Payload::File(name, data)) => f@ == (name, data),
        _ => false,
    }
}

/// Decodes handshake bytes of any length.
fn decode_hello(bytes: &Vec<u8>) -> (r: Result<u32, ProtocolError>)
    ensures
        r == decode_handshake(bytes@),
{
    if bytes.len() != HANDSHAKE_LEN {
        return Err(ProtocolError::MalformedHandshake);
    }
    match Handshake::from_bytes(bytes.clone()) {
        Ok(h) => Ok(h.id()),
        Err(e) => Err(e),
    }
}

/// The state of one end of the peer link, this process's id, and the
/// handshake bytes of the peer awaiting approval.
#[derive(Debug)]
pub struct Connection {
    state: ConnectionState,
    local_id: u32,
    echo: Vec<u8>,
}

impl Connection {
    pub closed spec fn spec_state(&self) -> ConnectionState {
        self.state
    }

    pub closed spec fn spec_local_id(&self) -> u32 {
        self.local_id
    }

    /// The handshake bytes last received from an inbound peer.
    pub closed spec fn spec_echo(&self) -> Seq<u8> {
        self.echo@
    }

    /// A link that listens, for a process whose id is `local_id`.
    pub fn new(local_id: u32) -> (r: Self)
        requires
            local_id != 0,
        ensures
            r.spec_state() == ConnectionState::Listening,
            r.spec_local_id() == local_id,
    {
        Connection { state: ConnectionState::Listening, local_id, echo: Vec::new() }
    }

    pub fn state(&self) -> (r: ConnectionState)
        ensures
            r == self.spec_state(),
    {
        self.state
    }

    pub fn local_id(&self) -> (r: u32)
        ensures
            r == self.spec_local_id(),
    {
        self.local_id
    }

    pub fn is_connected(&self) -> (r: bool)
        ensures
            r == (self.spec_state() == ConnectionState::Connected),
    {
        match self.state {
            ConnectionState::Connected => true,
            _ => false,
        }
    }

    /// An inbound peer at `ip` has sent `bytes` as its handshake (`None`: the
    /// read failed or timed out). A handshake that decodes asks the
    /// interactive side for approval and waits; any other is dropped.
    pub fn handshake_received(&mut self, ip: IpAddress, bytes: Option<Vec<u8>>) -> (r: LinkAction)
        requires
            old(self).spec_state() == ConnectionState::Listening,
        ensures
            final(self).spec_local_id() == old(self).spec_local_id(),
            match bytes {
                Some(b) => match decode_handshake(b@) {
                    Ok(id) => {
                        &&& r == LinkAction::Emit(ChannelMessage::ConnectRequest(id, ip))
                        &&& final(self).spec_state() == (ConnectionState::AwaitingApproval {
                            requester_id: id,
                            requester_ip: ip,
                        })
                        &&& final(self).spec_echo() == b@
                    },
                    Err(_) => {
                        &&& r == LinkAction::Close(None)
                        &&& final(self).spec_state() == ConnectionState::Listening
                    },
                },
                None => {
                    &&& r == LinkAction::Close(None)
                    &&& final(self).spec_state() == ConnectionState::Listening
                },
            },
    {
        match bytes {
            Some(b) => match decode_hello(&b) {
                Ok(id) => {
                    self.state = ConnectionState::AwaitingApproval { requester_id: id, requester_ip: ip };
                    self.echo = b;
                    LinkAction::Emit(ChannelMessage::ConnectRequest(id, ip))
                },
                Err(_) => LinkAction::Close(None),
            },
            None => LinkAction::Close(None),
        }
    }

    /// The interactive side's answer to a pending request: `ConnectAccept`
    /// echoes the peer's handshake bytes back verbatim and attaches the peer;
    /// anything else drops it.
    pub fn approval(&mut self, command: ChannelMessage) -> (r: LinkAction)
        requires
            old(self).spec_state() is AwaitingApproval,
        ensures
            final(self).spec_local_id() == old(self).spec_local_id(),
            match command {
                ChannelMessage::ConnectAccept => {
                    &&& r matches LinkAction::Write(b) && b@ == old(self).spec_echo()
                    &&& final(self).spec_state() == ConnectionState::Connected
                },
                _ => {
                    &&& r == LinkAction::Close(None)
                    &&& final(self).spec_state() == ConnectionState::Listening
                },
            },
    {
        match command {
            ChannelMessage::ConnectAccept => {
                self.state = ConnectionState::Connected;
                LinkAction::Write(self.echo.clone())
            },
            _ => {
                self.state = ConnectionState::Listening;
                LinkAction::Close(None)
            },
        }
    }

    /// While connected, what a non-blocking look at the command queue found:
    /// `Disconnect` shuts the link down; nothing else changes anything.
    pub fn command_polled(&mut self, command: Option<ChannelMessage>) -> (r: LinkAction)
        requires
            old(self).spec_state() == ConnectionState::Connected,
        ensures
            final(self).spec_local_id() == old(self).spec_local_id(),
            if command matches Some(ChannelMessage::Disconnect) {
                &&& r == LinkAction::Close(None)
                &&& final(self).spec_state() == ConnectionState::Listening
            } else {
                &&& r == LinkAction::Wait
                &&& final(self).spec_state() == ConnectionState::Connected
            },
    {
        match command {
            Some(ChannelMessage::Disconnect) => {
                self.state = ConnectionState::Listening;
                LinkAction::Close(None)
            },
            _ => LinkAction::Wait,
        }
    }

    /// While connected, what a peek at the peer socket found, without
    /// consuming it: nothing means the peer closed; a whole header gives the
    /// length of the frame to read.
    pub fn peeked(&mut self, header: &[u8]) -> (r: LinkAction)
        requires
            old(self).spec_state() == ConnectionState::Connected,
        ensures
            final(self).spec_local_id() == old(self).spec_local_id(),
            header@.len() == 0 ==> {
                &&& r == LinkAction::Close(Some(ChannelMessage::Disconnect))
                &&& final(self).spec_state() == ConnectionState::Listening
            },
            0 < header@.len() < HEADER_LEN ==> {
                &&& r == LinkAction::Wait
                &&& final(self).spec_state() == ConnectionState::Connected
            },
            header@.len() >= HEADER_LEN ==> {
                &&& r == LinkAction::Read((HEADER_LEN + be32_at(header@, 4)) as u64)
                &&& final(self).spec_state() == ConnectionState::Connected
            },
    {
        if header.len() == 0 {
            self.state = ConnectionState::Listening;
            LinkAction::Close(Some(ChannelMessage::Disconnect))
        } else if header.len() < HEADER_LEN {
            LinkAction::Wait
        } else {
            let length = crate::protocol::read_be32(header, 4);
            LinkAction::Read(HEADER_LEN as u64 + length as u64)
        }
    }

    /// While connected, a whole frame has been read: its payload goes to the
    /// interactive side. A frame that does not decode ends the connection.
    /// `data` is at most as long as a frame can be, as the length from
    /// `peeked` is.
    pub fn frame_received(&mut self, data: Vec<u8>) -> (r: LinkAction)
        requires
            old(self).spec_state() == ConnectionState::Connected,
            data@.len() <= max_frame_len(),
        ensures
            final(self).spec_local_id() == old(self).spec_local_id(),
            match decode_frame(data@) {
                Ok(p) => {
                    &&& r matches LinkAction::Emit(event) && carries(event, p)
                    &&& final(self).spec_state() == ConnectionState::Connected
                },
                Err(_) => {
                    &&& r == LinkAction::Close(Some(ChannelMessage::Disconnect))
                    &&& final(self).spec_state() == ConnectionState::Listening
                },
            },
    {
        match ProtocolMessage::from_bytes(data) {
            Ok(ProtocolMessage::Message(m)) => LinkAction::Emit(ChannelMessage::Message(m)),
            Ok(ProtocolMessage::File(f)) => LinkAction::Emit(ChannelMessage::File(f)),
            Err(_) => {
                self.state = ConnectionState::Listening;
                LinkAction::Close(Some(ChannelMessage::Disconnect))
            },
        }
    }

    /// The handshake to write when connecting to a peer: this process's id.
    pub fn handshake(&self) -> (r: Vec<u8>)
        ensures
            r@ == handshake_bytes(self.spec_local_id()),
    {
        Handshake::new(self.local_id).to_bytes()
    }

    /// After connecting to a peer and writing `handshake()`, what came back
    /// (`None`: the connection or the read failed). The peer is attached
    /// only if it echoed this process's own id.
    pub fn initiate_reply(&mut self, reply: Option<Vec<u8>>) -> (r: Result<(), ProtocolError>)
        requires
            old(self).spec_state() == ConnectionState::Listening,
        ensures
            final(self).spec_local_id() == old(self).spec_local_id(),
            r is Ok <==> final(self).spec_state() == ConnectionState::Connected,
            r is Err ==> final(self).spec_state() == ConnectionState::Listening,
            reply is None ==> r == Err::<(), ProtocolError>(ProtocolError::ConnectionFailed),
            reply matches Some(b) ==> match decode_handshake(b@) {
                Err(e) => r == Err::<(), ProtocolError>(e),
                Ok(id) => if id == old(self).spec_local_id() {
                    r is Ok
                } else {
                    r == Err::<(), ProtocolError>(ProtocolError::HandshakeRejected)
                },
            },
    {
        match reply {
            None => Err(ProtocolError::ConnectionFailed),
            Some(b) => match decode_hello(&b) {
                Err(e) => Err(e),
                Ok(id) => {
                    if id == self.local_id {
                        self.state = ConnectionState::Connected;
                        Ok(())
                    } else {
                        Err(ProtocolError::HandshakeRejected)
                    }
                },
            },
        }
    }

    /// The bytes to write to send `message` to the peer, or `NotConnected`.
    pub fn send(&self, message: &ProtocolMessage) -> (r: Result<Vec<u8>, ProtocolError>)
        ensures
            self.spec_state() == ConnectionState::Connected ==> (r matches Ok(b) && b@
                == payload_frame(message@)),
            self.spec_state() != ConnectionState::Connected ==> r == Err::<Vec<u8>, ProtocolError>(
                ProtocolError::NotConnected,
            ),
    {
        if self.is_connected() {
            Ok(message.to_bytes())
        } else {
            Err(ProtocolError::NotConnected)
        }
    }

    /// Drops the peer, if any: the link listens again.
    pub fn reset(&mut self)
        ensures
            final(self).spec_local_id() == old(self).spec_local_id(),
            final(self).spec_state() == ConnectionState::Listening,
    {
        self.state = ConnectionState::Listening;
    }
}

} // verus!
