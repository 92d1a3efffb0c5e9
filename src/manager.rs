use vstd::prelude::*;
use crossbeam_channel::{Receiver, TryRecvError};
use uuid::Uuid;
use crate::session::{ClientConnection, SharedClientMap};

verus! {

/// crossbeam_channel's receiving end of a channel, carried as an opaque value.
#[verifier::external_type_specification]
#[verifier::external_body]
#[verifier::reject_recursive_types(T)]
pub struct ExReceiver<T>(Receiver<T>);

/// crossbeam_channel's error for a channel that is empty or disconnected,
/// carried as an opaque value.
#[verifier::external_type_specification]
#[verifier::external_body]
pub struct ExTryRecvError(TryRecvError);

/// A lifecycle message for the registry actor. `S` is the client's socket,
/// which the actor hands on to the bridge it starts.
pub enum ClientManagerMessage<S> {
    Connect { stream: S },
    ConnectionClosed { client_id: u128 },
}

/// A lifecycle event once the registry actor has processed it: a session
/// `id` for the client at `addr` was set up, or session `id` has ended.
pub enum RegistryEvent {
    Connected { id: u128, addr: Seq<char> },
    Closed { id: u128 },
}

/// The table of live sessions after one event. A session is set up only
/// under an identifier that no live session has; a closure of a session
/// that is not live changes nothing.
pub open spec fn apply_event(m: Map<u128, Seq<char>>, e: RegistryEvent) -> Map<u128, Seq<char>> {
    match e {
        RegistryEvent::Connected { id, addr } => if m.contains_key(id) {
            m
        } else {
            m.insert(id, addr)
        },
        RegistryEvent::Closed { id } => m.remove(id),
    }
}

/// The table of live sessions after a run of events, starting from `m`.
pub open spec fn apply_events(m: Map<u128, Seq<char>>, evs: Seq<RegistryEvent>) -> Map<u128, Seq<char>>
    decreases evs.len(),
{
    if evs.len() == 0 {
        m
    } else {
        apply_event(apply_events(m, evs.drop_last()), evs.last())
    }
}

/// Whether `e` sets up session `id`.
pub open spec fn connects(e: RegistryEvent, id: u128) -> bool {
    e matches RegistryEvent::Connected { id: c, .. } && c == id
}

/// Whether `e` closes session `id`.
pub open spec fn closes(e: RegistryEvent, id: u128) -> bool {
    e matches RegistryEvent::Closed { id: c } && c == id
}

/// Whether session `id` was set up in `evs` and has not been closed since.
pub open spec fn is_live(evs: Seq<RegistryEvent>, id: u128) -> bool {
    exists|i: int|
        0 <= i < evs.len() && #[trigger] connects(evs[i], id)
            && forall|j: int| i < j < evs.len() ==> !#[trigger] closes(evs[j], id)
}

proof fn lemma_live_step(evs: Seq<RegistryEvent>, id: u128)
    requires
        evs.len() > 0,
    ensures
        is_live(evs, id) <==> if closes(evs.last(), id) {
            false
        } else if connects(evs.last(), id) {
            true
        } else {
            is_live(evs.drop_last(), id)
        },
{
    let pre = evs.drop_last();
    let last = evs.len() - 1;
    assert(evs[last] == evs.last());
    if closes(evs.last(), id) {
        if is_live(evs, id) {
            let i = choose|i: int|
                0 <= i < evs.len() && #[trigger] connects(evs[i], id)
                    && forall|j: int| i < j < evs.len() ==> !#[trigger] closes(evs[j], id);
            assert(i != last);
            assert(!closes(evs[last], id));
        }
    } else if connects(evs.last(), id) {
        assert(connects(evs[last], id));
    } else {
        if is_live(pre, id) {
            let i = choose|i: int|
                0 <= i < pre.len() && #[trigger] connects(pre[i], id)
                    && forall|j: int| i < j < pre.len() ==> !#[trigger] closes(pre[j], id);
            assert(pre[i] == evs[i]);
            assert forall|j: int| i < j < evs.len() implies !#[trigger] closes(evs[j], id) by {
                if j < pre.len() {
                    assert(pre[j] == evs[j]);
                }
            }
        }
        if is_live(evs, id) {
            let i = choose|i: int|
                0 <= i < evs.len() && #[trigger] connects(evs[i], id)
                    && forall|j: int| i < j < evs.len() ==> !#[trigger] closes(evs[j], id);
            assert(i != last);
            assert(pre[i] == evs[i]);
            assert forall|j: int| i < j < pre.len() implies !#[trigger] closes(pre[j], id) by {
                assert(pre[j] == evs[j]);
            }
        }
    }
}

/// Between messages, the registry holds exactly the sessions that were set up
/// and whose closure has not been processed since.
pub proof fn lemma_registry_consistency(evs: Seq<RegistryEvent>)
    ensures
        forall|id: u128| #[trigger] apply_events(Map::empty(), evs).contains_key(id) <==> is_live(evs, id),
    decreases evs.len(),
{
    if evs.len() > 0 {
        lemma_registry_consistency(evs.drop_last());
        assert forall|id: u128| #[trigger] apply_events(Map::empty(), evs).contains_key(id) <==> is_live(evs, id) by {
            lemma_live_step(evs, id);
            let before = apply_events(Map::empty(), evs.drop_last());
            assert(apply_events(Map::empty(), evs) == apply_event(before, evs.last()));
            assert(before.contains_key(id) <==> is_live(evs.drop_last(), id));
        }
    }
}

/// Relies on uuid's `Uuid::new_v4` and `Uuid::as_u128`: a fresh random
/// identifier, read as one integer. Nothing is promised of its value.
#[verifier::external_body]
fn mint_session_id() -> (r: u128) {
    Uuid::new_v4().as_u128()
}

/// The registry actor: the single owner of the session table, fed by the
/// lifecycle messages that arrive on its channel.
#[verifier::reject_recursive_types(S)]
pub struct ClientManager<S> {
    receiver: Receiver<ClientManagerMessage<S>>,
    clients: SharedClientMap,
}

impl<S> View for ClientManager<S> {
    type V = Map<u128, Seq<char>>;

    /// The live sessions.
    closed spec fn view(&self) -> Map<u128, Seq<char>> {
        self.clients@
    }
}

impl<S> ClientManager<S> {
    /// The actor's invariant: its table is finite and files each record
    /// under its own identifier.
    pub closed spec fn wf(&self) -> bool {
        self.clients.wf()
    }

    /// The channel that the actor reads its messages from.
    pub closed spec fn receiver(&self) -> Receiver<ClientManagerMessage<S>> {
        self.receiver
    }

    /// The identifier that the record of live session `k` carries.
    pub closed spec fn record_id(&self, k: u128) -> u128 {
        self.clients.record_id(k)
    }

    /// The records of the live sessions carry the identifiers they are filed
    /// under, so any two live sessions have distinct identifiers.
    pub proof fn lemma_live_ids_distinct(&self, k1: u128, k2: u128)
        requires
            self.wf(),
            self@.contains_key(k1),
            self@.contains_key(k2),
            k1 != k2,
        ensures
            self.record_id(k1) == k1,
            self.record_id(k2) == k2,
            self.record_id(k1) != self.record_id(k2),
    {
        self.clients.lemma_identifiers_distinct(k1, k2);
    }

    /// An actor with no live session that reads its messages from `receiver`.
    pub fn new(receiver: Receiver<ClientManagerMessage<S>>) -> (r: ClientManager<S>)
        ensures
            r.wf(),
            r@ == Map::<u128, Seq<char>>::empty(),
            r.receiver() == receiver,
    {
        ClientManager { receiver, clients: SharedClientMap::new() }
    }

    /// Relies on crossbeam_channel's `Receiver::try_recv`: the next message
    /// if one is waiting, else an error at once. What arrives depends on
    /// other threads, so nothing is promised of it.
    #[verifier::external_body]
    pub fn receive(&self) -> (r: Result<ClientManagerMessage<S>, TryRecvError>) {
        self.receiver.try_recv()
    }

    /// Sets up session `id` for the client whose address text is `ip_addr`,
    /// unless a live session has that identifier already; the record of the
    /// new session comes back.
    pub fn register(&mut self, id: u128, ip_addr: String) -> (r: Option<ClientConnection>)
        requires
            old(self).wf(),
        ensures
            final(self).wf(),
            final(self).receiver() == old(self).receiver(),
            final(self)@ == apply_event(old(self)@, RegistryEvent::Connected { id, addr: ip_addr@ }),
            r is Some <==> !old(self)@.contains_key(id),
            r is Some ==> r->0.client_id == id && r->0.ip_addr@ == ip_addr@,
    {
        if self.clients.contains(id) {
            None
        } else {
            let record = ClientConnection::new(id, ip_addr);
            let copy = record.duplicate();
            self.clients.insert(id, record);
            Some(copy)
        }
    }

    /// Processes a connection from the client whose address text is
    /// `ip_addr`: mints a fresh identifier and sets up its session. Where the
    /// identifier happens to be taken by a live session, nothing changes and
    /// the connection is refused; with no live session it is always taken.
    pub fn connect(&mut self, ip_addr: String) -> (r: Option<ClientConnection>)
        requires
            old(self).wf(),
        ensures
            final(self).wf(),
            final(self).receiver() == old(self).receiver(),
            old(self)@ == Map::<u128, Seq<char>>::empty() ==> r is Some,
            r is Some ==> final(self)@.len() == old(self)@.len() + 1,
            match r {
                Some(c) => !old(self)@.contains_key(c.client_id) && c.ip_addr@ == ip_addr@
                    && final(self)@ == old(self)@.insert(c.client_id, ip_addr@),
                None => final(self)@ == old(self)@,
            },
    {
        proof {
            self.clients.lemma_finite();
        }
        let id = mint_session_id();
        let r = self.register(id, ip_addr);
        proof {
            if r is Some {
                assert(self@.dom() =~= old(self)@.dom().insert(id));
            }
        }
        r
    }

    /// Processes the closure of session `id`: drops it if it is live, and
    /// tells whether it was; a closure of a session that is not live is a
    /// no-op.
    pub fn close(&mut self, id: u128) -> (r: bool)
        requires
            old(self).wf(),
        ensures
            final(self).wf(),
            final(self).receiver() == old(self).receiver(),
            final(self)@ == apply_event(old(self)@, RegistryEvent::Closed { id }),
            r == old(self)@.contains_key(id),
    {
        if self.clients.contains(id) {
            self.clients.remove(id);
            true
        } else {
            false
        }
    }

    /// The record of live session `id`, if any.
    pub fn session(&self, id: u128) -> (r: Option<ClientConnection>)
        requires
            self.wf(),
        ensures
            r is Some <==> self@.contains_key(id),
            r is Some ==> r->0.client_id == id && r->0.ip_addr@ == self@[id],
    {
        self.clients.get(id)
    }

    /// The number of live sessions.
    pub fn len(&self) -> (r: usize)
        ensures
            r == self@.len(),
    {
        self.clients.len()
    }
}

/// Closing the same session twice leaves the registry as closing it once.
pub proof fn lemma_close_idempotent(m: Map<u128, Seq<char>>, id: u128)
    ensures
        apply_event(apply_event(m, RegistryEvent::Closed { id }), RegistryEvent::Closed { id })
            == apply_event(m, RegistryEvent::Closed { id }),
{
    assert(m.remove(id).remove(id) =~= m.remove(id));
}

} // verus!
