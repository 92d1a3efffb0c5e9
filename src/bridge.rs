use vstd::prelude::*;
use vstd::utf8::encode_utf8;
use crate::encoding::{cp437_text, decode_backend_data};
use crate::negotiation::{
    negotiation_reply, reply_matches, reply_spec, terminal_type_spec, NegotiationAction, NegotiationReply,
    OPT_SEND_LOCATION, OPT_TERMINAL_TYPE,
};
use crate::session::ClientConnection;

verus! {

/// What one poll of the backend connection brought.
pub enum BridgeEvent {
    /// Data bytes for the client.
    Data(Vec<u8>),
    /// A command that the Telnet layer did not recognise.
    UnknownCommand(u8),
    /// A negotiation verb on an option code.
    Negotiation(NegotiationAction, u8),
    /// A sub-negotiation block on an option code.
    Subnegotiation(u8, Vec<u8>),
    /// The poll timed out.
    TimedOut,
    /// Nothing was waiting.
    NoData,
    /// The Telnet layer's internal event queue failed.
    QueueError,
    /// Any other error that the Telnet layer reported.
    OtherError,
    /// Reading from the backend connection failed.
    Disconnected,
}

/// A request to enable Terminal-Type is accepted with the fixed terminal
/// type as payload; one to enable Send-Location is accepted with the bytes
/// of the client's address text as recorded for the session.
pub proof fn lemma_subnegotiation_payloads(ip_addr: Seq<char>, r1: BridgeAction, r2: BridgeAction)
    requires
        step_matches(BridgeEvent::Negotiation(NegotiationAction::Do, OPT_TERMINAL_TYPE), ip_addr, r1),
        step_matches(BridgeEvent::Negotiation(NegotiationAction::Do, OPT_SEND_LOCATION), ip_addr, r2),
    ensures
        r1 is Reply,
        r1->Reply_0.action == NegotiationAction::Will,
        r1->Reply_0.option == OPT_TERMINAL_TYPE,
        r1->Reply_0.subnegotiation is Some,
        r1->Reply_0.subnegotiation->0@ == terminal_type_spec(),
        r2 is Reply,
        r2->Reply_0.action == NegotiationAction::Will,
        r2->Reply_0.option == OPT_SEND_LOCATION,
        r2->Reply_0.subnegotiation is Some,
        r2->Reply_0.subnegotiation->0@ == encode_utf8(ip_addr),
{
}

/// What one non-blocking read of the client socket brought.
pub enum ClientRead {
    /// These bytes arrived.
    Bytes(Vec<u8>),
    /// Nothing was waiting.
    NothingWaiting,
    /// The peer closed the connection.
    Closed,
    /// The read failed.
    Failed,
}

/// What the bridge does in answer to one event.
#[derive(Debug, PartialEq, Eq)]
pub enum BridgeAction {
    /// Write this text to the client and flush.
    SendToClient(String),
    /// Write these bytes, unchanged, to the backend.
    SendToBackend(Vec<u8>),
    /// Send this negotiation reply to the backend.
    Reply(NegotiationReply),
    /// Nothing to do: poll again.
    Idle,
    /// End the session.
    Close,
}

/// The decision that the bridge owes for `event` in the session of the
/// client whose address text is `ip_addr`.
pub open spec fn step_matches(event: BridgeEvent, ip_addr: Seq<char>, r: BridgeAction) -> bool {
    match event {
        BridgeEvent::Data(d) => r matches BridgeAction::SendToClient(s) && s@ == cp437_text(d@),
        BridgeEvent::Negotiation(a, o) => if reply_spec(a, o) is None {
            r is Idle
        } else {
            r matches BridgeAction::Reply(rep) && reply_matches(Some(rep), a, o, encode_utf8(ip_addr))
        },
        BridgeEvent::QueueError | BridgeEvent::Disconnected => r is Close,
        _ => r is Idle,
    }
}

/// Decides what the bridge of `session` does with one backend event: data
/// is decoded and goes to the client, a negotiation is answered by the
/// table, an internal queue failure or a lost backend connection ends the
/// session, and everything else is ignored.
pub fn bridge_step(event: BridgeEvent, session: &ClientConnection) -> (r: BridgeAction)
    ensures
        step_matches(event, session.ip_addr@, r),
{
    match event {
        BridgeEvent::Data(d) => BridgeAction::SendToClient(decode_backend_data(d)),
        BridgeEvent::Negotiation(a, o) => match negotiation_reply(a, o, session.location()) {
            Some(rep) => BridgeAction::Reply(rep),
            None => BridgeAction::Idle,
        },
        BridgeEvent::QueueError | BridgeEvent::Disconnected => BridgeAction::Close,
        _ => BridgeAction::Idle,
    }
}

/// The decision that the bridge owes for a read of the client socket.
pub open spec fn read_matches(read: ClientRead, r: BridgeAction) -> bool {
    match read {
        ClientRead::Bytes(b) => if b@.len() == 0 {
            r is Idle
        } else {
            r matches BridgeAction::SendToBackend(out) && out@ == b@
        },
        ClientRead::NothingWaiting => r is Idle,
        _ => r is Close,
    }
}

/// Decides what the bridge does with one read of the client socket: bytes go
/// on to the backend unchanged, and a closed or failed socket ends the
/// session.
pub fn client_read_step(read: ClientRead) -> (r: BridgeAction)
    ensures
        read_matches(read, r),
{
    match read {
        ClientRead::Bytes(b) => if b.len() == 0 {
            BridgeAction::Idle
        } else {
            BridgeAction::SendToBackend(b)
        },
        ClientRead::NothingWaiting => BridgeAction::Idle,
        _ => BridgeAction::Close,
    }
}

/// The state of one bridge, as the contracts see it.
pub struct BridgeState {
    pub client_id: u128,
    pub ip_addr: Seq<char>,
    pub running: bool,
    pub close_sent: bool,
}

/// The bridge of one client session: it runs until an event ends it, and
/// then owes the registry one closure notice.
pub struct ConnectionBridge {
    session: ClientConnection,
    running: bool,
    close_sent: bool,
}

impl View for ConnectionBridge {
    type V = BridgeState;

    closed spec fn view(&self) -> BridgeState {
        BridgeState {
            client_id: self.session.client_id,
            ip_addr: self.session.ip_addr@,
            running: self.running,
            close_sent: self.close_sent,
        }
    }
}

impl ConnectionBridge {
    /// A running bridge for `session`.
    pub fn new(session: ClientConnection) -> (r: ConnectionBridge)
        ensures
            r@ == (BridgeState { client_id: session.client_id, ip_addr: session.ip_addr@, running: true, close_sent: false }),
    {
        ConnectionBridge { session, running: true, close_sent: false }
    }

    /// The identifier of the bridged session.
    pub fn client_id(&self) -> (r: u128)
        ensures
            r == self@.client_id,
    {
        self.session.client_id
    }

    /// Whether the bridge is still running.
    pub fn is_running(&self) -> (r: bool)
        ensures
            r == self@.running,
    {
        self.running
    }

    /// Handles one read of the client socket; a `Close` stops the bridge.
    pub fn on_client_read(&mut self, read: ClientRead) -> (r: BridgeAction)
        ensures
            read_matches(read, r),
            final(self)@ == (BridgeState { running: old(self)@.running && !(r is Close), ..old(self)@ }),
    {
        let r = client_read_step(read);
        if let BridgeAction::Close = r {
            self.running = false;
        }
        r
    }

    /// Handles one event from the backend; a `Close` stops the bridge.
    pub fn on_backend_event(&mut self, event: BridgeEvent) -> (r: BridgeAction)
        ensures
            step_matches(event, old(self)@.ip_addr, r),
            final(self)@ == (BridgeState { running: old(self)@.running && !(r is Close), ..old(self)@ }),
    {
        let r = bridge_step(event, &self.session);
        if let BridgeAction::Close = r {
            self.running = false;
        }
        r
    }

    /// Stops the bridge and hands out the identifier to send in the closure
    /// notice the first time; `None` on every later call, so the registry
    /// hears of the closure exactly once.
    pub fn finish(&mut self) -> (r: Option<u128>)
        ensures
            final(self)@ == (BridgeState { running: false, close_sent: true, ..old(self)@ }),
            r == if old(self)@.close_sent { None } else { Some(old(self)@.client_id) },
    {
        self.running = false;
        if self.close_sent {
            None
        } else {
            self.close_sent = true;
            Some(self.session.client_id)
        }
    }
}

} // verus!
