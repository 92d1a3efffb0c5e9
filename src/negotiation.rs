use vstd::prelude::*;
use vstd::slice::slice_to_vec;

verus! {

/// Telnet option code of Transmit-Binary.
pub const OPT_TRANSMIT_BINARY: u8 = 0;

/// Telnet option code of Echo.
pub const OPT_ECHO: u8 = 1;

/// Telnet option code of Suppress-Go-Ahead.
pub const OPT_SUPPRESS_GO_AHEAD: u8 = 3;

/// Telnet option code of Send-Location (report of the client's location).
pub const OPT_SEND_LOCATION: u8 = 23;

/// Telnet option code of Terminal-Type.
pub const OPT_TERMINAL_TYPE: u8 = 24;

/// The four Telnet negotiation verbs.
#[derive(Clone, Copy, Debug, PartialEq, Eq, Structural)]
pub enum NegotiationAction {
    Will,
    Wont,
    Do,
    Dont,
}

/// What the bridge sends back for one inbound negotiation: one reciprocal
/// verb on the same option, optionally followed by a sub-negotiation block.
#[derive(Debug, PartialEq, Eq)]
pub struct NegotiationReply {
    pub action: NegotiationAction,
    pub option: u8,
    pub subnegotiation: Option<Vec<u8>>,
}

/// What the sub-negotiation carries after accepting an option.
pub enum Payload {
    Location,
    TerminalType,
}

/// The decision table: the reciprocal verb for an inbound verb on an option,
/// and which payload follows it; `None` where the bridge stays silent.
pub open spec fn reply_spec(action: NegotiationAction, option: u8) -> Option<(NegotiationAction, Option<Payload>)> {
    if option == OPT_SEND_LOCATION {
        match action {
            NegotiationAction::Do => Some((NegotiationAction::Will, Some(Payload::Location))),
            NegotiationAction::Dont => Some((NegotiationAction::Wont, None)),
            _ => Some((NegotiationAction::Dont, None)),
        }
    } else if option == OPT_ECHO {
        match action {
            NegotiationAction::Do => Some((NegotiationAction::Will, None)),
            NegotiationAction::Dont => Some((NegotiationAction::Wont, None)),
            NegotiationAction::Will => Some((NegotiationAction::Do, None)),
            NegotiationAction::Wont => Some((NegotiationAction::Dont, None)),
        }
    } else if option == OPT_SUPPRESS_GO_AHEAD || option == OPT_TRANSMIT_BINARY {
        match action {
            NegotiationAction::Do | NegotiationAction::Dont => Some((NegotiationAction::Will, None)),
            _ => Some((NegotiationAction::Do, None)),
        }
    } else if option == OPT_TERMINAL_TYPE {
        match action {
            NegotiationAction::Do => Some((NegotiationAction::Will, Some(Payload::TerminalType))),
            _ => None,
        }
    } else {
        None
    }
}

/// The terminal type that the bridge reports.
pub open spec fn terminal_type_spec() -> Seq<u8> {
    seq![97u8, 110u8, 115u8, 105u8, 45u8, 98u8, 98u8, 115u8]
}

/// The bytes that a payload kind stands for, given the client's location text.
pub open spec fn payload_bytes(p: Payload, location: Seq<u8>) -> Seq<u8> {
    match p {
        Payload::Location => location,
        Payload::TerminalType => terminal_type_spec(),
    }
}

/// Whether `r` is the reply that the table gives, with `location` as the
/// client's location text.
pub open spec fn reply_matches(
    r: Option<NegotiationReply>,
    action: NegotiationAction,
    option: u8,
    location: Seq<u8>,
) -> bool {
    match reply_spec(action, option) {
        None => r is None,
        Some((a, p)) => r is Some && r->0.action == a && r->0.option == option && match p {
            None => r->0.subnegotiation is None,
            Some(p) => r->0.subnegotiation is Some && r->0.subnegotiation->0@ == payload_bytes(p, location),
        },
    }
}

/// For a fixed verb, option and location, the reply is always the same:
/// any two replies that meet the table agree in verb, option and payload.
pub proof fn lemma_reply_deterministic(
    action: NegotiationAction,
    option: u8,
    location: Seq<u8>,
    r1: Option<NegotiationReply>,
    r2: Option<NegotiationReply>,
)
    requires
        reply_matches(r1, action, option, location),
        reply_matches(r2, action, option, location),
    ensures
        r1 is Some <==> r2 is Some,
        r1 is Some ==> r1->0.action == r2->0.action && r1->0.option == r2->0.option
            && (r1->0.subnegotiation is Some <==> r2->0.subnegotiation is Some)
            && (r1->0.subnegotiation is Some ==> r1->0.subnegotiation->0@ == r2->0.subnegotiation->0@),
{
}

/// The terminal type string, "ansi-bbs", as bytes.
pub fn terminal_type() -> (r: Vec<u8>)
    ensures
        r@ == terminal_type_spec(),
{
    let r: Vec<u8> = vec![97u8, 110u8, 115u8, 105u8, 45u8, 98u8, 98u8, 115u8];
    assert(r@ =~= terminal_type_spec());
    r
}

/// The reply to an inbound negotiation of `option` with `action`, where
/// `location` is the text of the client's network address.
pub fn negotiation_reply(action: NegotiationAction, option: u8, location: &[u8]) -> (r: Option<NegotiationReply>)
    ensures
        reply_matches(r, action, option, location@),
{
    if option == OPT_SEND_LOCATION {
        match action {
            NegotiationAction::Do => Some(NegotiationReply {
                action: NegotiationAction::Will,
                option,
                subnegotiation: Some(slice_to_vec(location)),
            }),
            NegotiationAction::Dont => Some(NegotiationReply { action: NegotiationAction::Wont, option, subnegotiation: None }),
            _ => Some(NegotiationReply { action: NegotiationAction::Dont, option, subnegotiation: None }),
        }
    } else if option == OPT_ECHO {
        let a = match action {
            NegotiationAction::Do => NegotiationAction::Will,
            NegotiationAction::Dont => NegotiationAction::Wont,
            NegotiationAction::Will => NegotiationAction::Do,
            NegotiationAction::Wont => NegotiationAction::Dont,
        };
        Some(NegotiationReply { action: a, option, subnegotiation: None })
    } else if option == OPT_SUPPRESS_GO_AHEAD || option == OPT_TRANSMIT_BINARY {
        let a = match action {
            NegotiationAction::Do | NegotiationAction::Dont => NegotiationAction::Will,
            _ => NegotiationAction::Do,
        };
        Some(NegotiationReply { action: a, option, subnegotiation: None })
    } else if option == OPT_TERMINAL_TYPE {
        match action {
            NegotiationAction::Do => Some(NegotiationReply {
                action: NegotiationAction::Will,
                option,
                subnegotiation: Some(terminal_type()),
            }),
            _ => None,
        }
    } else {
        None
    }
}

} // verus!
