//! The per-sender signature chain and the message log, held in memory.
//!
//! Each sender's compressed public key maps to the last signature accepted
//! from it; the next message must be signed over that anchor (64 zero bytes
//! before the first message). The anchor moves only through a
//! compare-and-swap, so two attempts that read the same anchor cannot both
//! advance it.
use vstd::bytes::{spec_u64_to_le_bytes, u64_to_le_bytes};
use vstd::prelude::*;

verus! {

/// The anchor of a sender with no accepted message yet.
pub open spec fn zero_anchor() -> Seq<u8> {
    Seq::new(64, |i: int| 0u8)
}

/// The bytes a message signature covers: anchor, timestamp (i64 little-endian),
/// then ciphertext. Client and server both sign and verify exactly these.
pub open spec fn signed_bytes(anchor: Seq<u8>, timestamp: i64, data: Seq<u8>) -> Seq<u8> {
    anchor + spec_u64_to_le_bytes(timestamp as u64) + data
}

/// Builds the bytes a message signature covers.
pub fn signed_data(anchor: &[u8; 64], timestamp: i64, data: &Vec<u8>) -> (r: Vec<u8>)
    ensures
        r@ == signed_bytes(anchor@, timestamp, data@),
{
    let mut r: Vec<u8> = Vec::new();
    r.extend_from_slice(anchor.as_slice());
    let t = u64_to_le_bytes(timestamp as u64);
    r.extend_from_slice(t.as_slice());
    r.extend_from_slice(data.as_slice());
    r
}

/// Compares two byte strings.
pub(crate) fn bytes_eq(a: &[u8], b: &[u8]) -> (r: bool)
    ensures
        r == (a@ == b@),
{
    if a.len() != b.len() {
        return false;
    }
    let mut i: usize = 0;
    while i < a.len()
        invariant
            a@.len() == b@.len(),
            i <= a@.len(),
            forall|j: int| 0 <= j < i ==> a@[j] == b@[j],
        decreases a@.len() - i,
    {
        if a[i] != b[i] {
            return false;
        }
        i = i + 1;
    }
    assert(a@ =~= b@);
    true
}

/// A stored message.
#[derive(Debug, Clone, PartialEq, Eq)]
pub struct MessageRecord {
    pub sender_x: [u8; 32],
    pub sender_p: u8,
    pub receiver_x: [u8; 32],
    pub receiver_p: u8,
    pub timestamp: i64,
    pub data: Vec<u8>,
}

pub struct RecordModel {
    pub sender_x: Seq<u8>,
    pub sender_p: u8,
    pub receiver_x: Seq<u8>,
    pub receiver_p: u8,
    pub timestamp: i64,
    pub data: Seq<u8>,
}

impl View for MessageRecord {
    type V = RecordModel;

    open spec fn view(&self) -> RecordModel {
        RecordModel {
            sender_x: self.sender_x@,
            sender_p: self.sender_p,
            receiver_x: self.receiver_x@,
            receiver_p: self.receiver_p,
            timestamp: self.timestamp,
            data: self.data@,
        }
    }
}

/// One chain entry: a sender's compressed key and its last accepted signature.
#[derive(Debug, Clone, Copy, PartialEq, Eq)]
pub struct ChainEntry {
    pub key: [u8; 33],
    pub signature: [u8; 64],
}

/// The chain (compressed key to last accepted signature) and the message log.
pub struct StoreModel {
    pub chain: Map<Seq<u8>, Seq<u8>>,
    pub log: Seq<RecordModel>,
}

/// The chain entry of `key`, if any.
pub open spec fn lookup(chain: Map<Seq<u8>, Seq<u8>>, key: Seq<u8>) -> Option<Seq<u8>> {
    if chain.contains_key(key) {
        Some(chain[key])
    } else {
        None
    }
}

/// The anchor the next message of `key` is signed over.
pub open spec fn anchor_of(chain: Map<Seq<u8>, Seq<u8>>, key: Seq<u8>) -> Seq<u8> {
    match lookup(chain, key) {
        Some(s) => s,
        None => zero_anchor(),
    }
}

pub open spec fn opt_sig(o: Option<[u8; 64]>) -> Option<Seq<u8>> {
    match o {
        Some(s) => Some(s@),
        None => None,
    }
}

/// The store after a compare-and-swap of `key` from `expected` to `new`.
pub open spec fn upsert_spec(
    chain: Map<Seq<u8>, Seq<u8>>,
    key: Seq<u8>,
    new: Seq<u8>,
    expected: Option<Seq<u8>>,
) -> Map<Seq<u8>, Seq<u8>> {
    if lookup(chain, key) == expected {
        chain.insert(key, new)
    } else {
        chain
    }
}

/// An in-memory chain store and message log.
pub struct ChainStore {
    entries: Vec<ChainEntry>,
    messages: Vec<MessageRecord>,
    chain: Ghost<Map<Seq<u8>, Seq<u8>>>,
}

impl View for ChainStore {
    type V = StoreModel;

    closed spec fn view(&self) -> StoreModel {
        StoreModel { chain: self.chain@, log: self.messages@.map_values(|r: MessageRecord| r@) }
    }
}

impl ChainStore {
    /// The entries hold each key once and agree with the chain.
    pub closed spec fn wf(&self) -> bool {
        &&& forall|i: int|
            0 <= i < self.entries@.len() ==> #[trigger] self.chain@.contains_key(
                self.entries@[i].key@,
            ) && self.chain@[self.entries@[i].key@] == self.entries@[i].signature@
        &&& forall|k: Seq<u8>|
            #[trigger] self.chain@.contains_key(k) ==> exists|i: int|
                0 <= i < self.entries@.len() && self.entries@[i].key@ == k
        &&& forall|i: int, j: int|
            0 <= i < self.entries@.len() && 0 <= j < self.entries@.len()
                && #[trigger] self.entries@[i].key@ == #[trigger] self.entries@[j].key@ ==> i == j
    }

    /// An empty store.
    pub fn new() -> (r: ChainStore)
        ensures
            r.wf(),
            r@.chain == Map::<Seq<u8>, Seq<u8>>::empty(),
            r@.log == Seq::<RecordModel>::empty(),
    {
        let r = ChainStore { entries: Vec::new(), messages: Vec::new(), chain: Ghost(Map::empty()) };
        assert(r@.log =~= Seq::<RecordModel>::empty());
        r
    }

    fn find(&self, key: &[u8; 33]) -> (r: Option<usize>)
        requires
            self.wf(),
        ensures
            r matches Some(i) ==> i < self.entries@.len() && self.entries@[i as int].key@ == key@,
            r is None ==> !self.chain@.contains_key(key@),
    {
        let mut i: usize = 0;
        while i < self.entries.len()
            invariant
                self.wf(),
                i <= self.entries@.len(),
                forall|j: int| 0 <= j < i ==> self.entries@[j].key@ != key@,
            decreases self.entries@.len() - i,
        {
            if bytes_eq(self.entries[i].key.as_slice(), key.as_slice()) {
                return Some(i);
            }
            i = i + 1;
        }
        None
    }

    /// The last accepted signature of `key`, if it has sent an accepted message.
    pub fn get_last_signature(&self, key: &[u8; 33]) -> (r: Option<[u8; 64]>)
        requires
            self.wf(),
        ensures
            opt_sig(r) == lookup(self@.chain, key@),
    {
        match self.find(key) {
            Some(i) => Some(self.entries[i].signature),
            None => None,
        }
    }

    /// Sets the chain entry of `key` to `new` if it still equals `expected`
    /// (`None`: no entry yet); tells whether it did.
    pub fn upsert_last_signature(
        &mut self,
        key: &[u8; 33],
        new: &[u8; 64],
        expected: &Option<[u8; 64]>,
    ) -> (r: bool)
        requires
            old(self).wf(),
        ensures
            final(self).wf(),
            r == (lookup(old(self)@.chain, key@) == opt_sig(*expected)),
            final(self)@.chain == upsert_spec(old(self)@.chain, key@, new@, opt_sig(*expected)),
            final(self)@.log == old(self)@.log,
    {
        let found = self.find(key);
        let current = match found {
            Some(i) => Some(self.entries[i].signature),
            None => None,
        };
        let matches = match (&current, expected) {
            (None, None) => true,
            (Some(c), Some(e)) => bytes_eq(c.as_slice(), e.as_slice()),
            _ => false,
        };
        assert(opt_sig(current) == lookup(self@.chain, key@));
        if !matches {
            return false;
        }
        let ghost old_chain = self.chain@;
        let ghost old_entries = self.entries@;
        match found {
            Some(i) => {
                self.entries.set(i, ChainEntry { key: *key, signature: *new });
            },
            None => {
                self.entries.push(ChainEntry { key: *key, signature: *new });
            },
        }
        self.chain = Ghost(old_chain.insert(key@, new@));
        assert forall|k: Seq<u8>| #[trigger] self.chain@.contains_key(k) implies exists|i: int|
            0 <= i < self.entries@.len() && self.entries@[i].key@ == k by {
            if k != key@ {
                let i = choose|i: int| 0 <= i < old_entries.len() && old_entries[i].key@ == k;
                assert(self.entries@[i].key@ == k);
            } else {
                match found {
                    Some(i) => assert(self.entries@[i as int].key@ == k),
                    None => assert(self.entries@[old_entries.len() as int].key@ == k),
                }
            }
        }
        true
    }

    /// The message log, oldest first.
    pub fn messages(&self) -> (r: &[MessageRecord])
        ensures
            r@.map_values(|m: MessageRecord| m@) == self@.log,
    {
        self.messages.as_slice()
    }

    /// Appends a message record to the log.
    pub fn append_message(&mut self, record: MessageRecord)
        requires
            old(self).wf(),
        ensures
            final(self).wf(),
            final(self)@.chain == old(self)@.chain,
            final(self)@.log == old(self)@.log.push(record@),
    {
        self.messages.push(record);
        assert(self.entries@ == old(self).entries@ && self.chain@ == old(self).chain@);
        assert(self@.log =~= old(self)@.log.push(record@));
    }
}

} // verus!
