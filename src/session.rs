use vstd::prelude::*;
use std::collections::HashMap;
use vstd::utf8::encode_utf8;

verus! {

broadcast use vstd::std_specs::hash::group_hash_axioms;

/// One client session: its identifier and the text of the client's network
/// address. Created once and never changed.
pub struct ClientConnection {
    pub client_id: u128,
    pub ip_addr: String,
}

impl ClientConnection {
    /// A record for session `client_id` of the client at `ip_addr`.
    pub fn new(client_id: u128, ip_addr: String) -> (r: ClientConnection)
        ensures
            r.client_id == client_id,
            r.ip_addr@ == ip_addr@,
    {
        ClientConnection { client_id, ip_addr }
    }

    /// A separate record with the same contents.
    pub fn duplicate(&self) -> (r: ClientConnection)
        ensures
            r.client_id == self.client_id,
            r.ip_addr@ == self.ip_addr@,
    {
        ClientConnection { client_id: self.client_id, ip_addr: self.ip_addr.clone() }
    }

    /// The bytes that report the client's location: its address text.
    pub fn location(&self) -> (r: &[u8])
        ensures
            r@ == encode_utf8(self.ip_addr@),
    {
        self.ip_addr.as_str().as_bytes()
    }
}

/// The table of live sessions, from session identifier to its record.
pub struct SharedClientMap {
    data: HashMap<u128, ClientConnection>,
}

impl View for SharedClientMap {
    type V = Map<u128, Seq<char>>;

    /// Each live session's identifier, mapped to its client's address text.
    closed spec fn view(&self) -> Map<u128, Seq<char>> {
        self.data@.map_values(|c: ClientConnection| c.ip_addr@)
    }
}

impl SharedClientMap {
    /// The identifier that the record filed under `k` carries.
    pub closed spec fn record_id(&self, k: u128) -> u128 {
        self.data@[k].client_id
    }

    /// The table is finite, and every record is filed under its own
    /// identifier.
    pub closed spec fn wf(&self) -> bool {
        &&& self@.dom().finite()
        &&& forall|k: u128| #[trigger] self.data@.contains_key(k) ==> self.data@[k].client_id == k
    }

    /// An empty table.
    pub fn new() -> (r: SharedClientMap)
        ensures
            r.wf(),
            r@ == Map::<u128, Seq<char>>::empty(),
    {
        let r = SharedClientMap { data: HashMap::new() };
        assert(r@ =~= Map::<u128, Seq<char>>::empty());
        r
    }

    /// Files `value` under `key`, its own identifier, replacing any record
    /// filed there before.
    pub fn insert(&mut self, key: u128, value: ClientConnection)
        requires
            old(self).wf(),
            value.client_id == key,
        ensures
            final(self).wf(),
            final(self)@ == old(self)@.insert(key, value.ip_addr@),
    {
        let ghost text = value.ip_addr@;
        self.data.insert(key, value);
        assert(self@ =~= old(self)@.insert(key, text));
    }

    /// The record filed under `key`, if any.
    pub fn get(&self, key: u128) -> (r: Option<ClientConnection>)
        requires
            self.wf(),
        ensures
            r is Some <==> self@.contains_key(key),
            r is Some ==> r->0.client_id == key && r->0.ip_addr@ == self@[key],
    {
        match self.data.get(&key) {
            Some(c) => Some(c.duplicate()),
            None => None,
        }
    }

    /// Whether a session is filed under `key`.
    pub fn contains(&self, key: u128) -> (r: bool)
        ensures
            r == self@.contains_key(key),
    {
        self.data.contains_key(&key)
    }

    /// Drops the record filed under `key`; nothing changes where there is none.
    pub fn remove(&mut self, key: u128)
        requires
            old(self).wf(),
        ensures
            final(self).wf(),
            final(self)@ == old(self)@.remove(key),
    {
        let _ = self.data.remove(&key);
        assert(self@ =~= old(self)@.remove(key));
    }

    /// The number of live sessions.
    pub fn len(&self) -> (r: usize)
        ensures
            r == self@.len(),
    {
        proof {
            assert(self@.dom() =~= self.data@.dom());
        }
        self.data.len()
    }

    /// A well-formed table holds finitely many sessions.
    pub proof fn lemma_finite(&self)
        requires
            self.wf(),
        ensures
            self@.dom().finite(),
    {
    }

    /// Every live session's record carries the identifier it is filed under,
    /// so no two live sessions share an identifier.
    pub proof fn lemma_identifiers_distinct(&self, k1: u128, k2: u128)
        requires
            self.wf(),
            self@.contains_key(k1),
            self@.contains_key(k2),
            k1 != k2,
        ensures
            self.record_id(k1) == k1,
            self.record_id(k2) == k2,
            self.record_id(k1) != self.record_id(k2),
    {
    }
}

} // verus!
