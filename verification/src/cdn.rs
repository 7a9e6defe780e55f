//! The validator's CDN store: HTML receipts kept under the blake3 hash of the
//! transaction signature they belong to.

use vstd::prelude::*;
use vstd::utf8::encode_utf8;

verus! {

/// The blake3 hash of some bytes. It depends on the bytes alone.
pub uninterp spec fn blake3_digest(data: Seq<u8>) -> Seq<u8>;

/// `blake3::hash`: the 32-byte blake3 hash of `data`, taken out of the
/// `blake3::Hash` that holds it.
#[verifier::external_body]
fn blake3_hash(data: &[u8]) -> (digest: [u8; 32])
    ensures
        digest@ == blake3_digest(data@),
{
    *blake3::hash(data).as_bytes()
}

/// The key under which the receipt of transaction `tx` is stored.
pub open spec fn tx_key(tx: Seq<char>) -> Seq<u8> {
    blake3_digest(encode_utf8(tx))
}

/// The text that answers a request for a transaction that is not stored.
pub open spec fn not_found_text() -> Seq<char> {
    "Transaction Signature Not Found"@
}

/// The stored entries as a map from key to receipt.
spec fn entries_map(entries: Seq<([u8; 32], String)>) -> Map<Seq<u8>, Seq<char>> {
    Map::new(
        |k: Seq<u8>| exists|i: int| 0 <= i < entries.len() && #[trigger] entries[i].0@ == k,
        |k: Seq<u8>| entries[entry_index(entries, k)].1@,
    )
}

spec fn entry_index(entries: Seq<([u8; 32], String)>, k: Seq<u8>) -> int {
    choose|i: int| 0 <= i < entries.len() && #[trigger] entries[i].0@ == k
}

/// No key is stored twice.
spec fn distinct_keys(entries: Seq<([u8; 32], String)>) -> bool {
    forall|i: int, j: int|
        0 <= i < entries.len() && 0 <= j < entries.len() && i != j ==> #[trigger] entries[i].0@
            != #[trigger] entries[j].0@
}

proof fn lemma_entry_in_map(entries: Seq<([u8; 32], String)>, i: int)
    requires
        distinct_keys(entries),
        0 <= i < entries.len(),
    ensures
        entries_map(entries).contains_key(entries[i].0@),
        entries_map(entries)[entries[i].0@] == entries[i].1@,
{
    let k = entries[i].0@;
    assert(entries[i].0@ == k);
    let j = entry_index(entries, k);
    assert(entries[j].0@ == k);
}

/// Replacing the entry of a key keeps keys distinct and updates the map.
proof fn lemma_replace_entry(
    before: Seq<([u8; 32], String)>,
    i: int,
    entry: ([u8; 32], String),
)
    requires
        distinct_keys(before),
        0 <= i < before.len(),
        before[i].0@ == entry.0@,
    ensures
        distinct_keys(before.update(i, entry)),
        entries_map(before.update(i, entry)) =~= entries_map(before).insert(entry.0@, entry.1@),
{
    let after = before.update(i, entry);
    let k = entry.0@;
    assert forall|a: int, b: int|
        0 <= a < after.len() && 0 <= b < after.len() && a != b implies #[trigger] after[a].0@
        != #[trigger] after[b].0@ by {
        assert(before[a].0@ != before[b].0@);
    }
    assert forall|q: Seq<u8>| #[trigger] entries_map(after).contains_key(q) == entries_map(
        before,
    ).insert(k, entry.1@).contains_key(q) by {
        if entries_map(before).contains_key(q) {
            let j = entry_index(before, q);
            assert(after[j].0@ == q);
        }
        if q == k {
            assert(after[i].0@ == q);
        }
        if entries_map(after).contains_key(q) {
            let j = entry_index(after, q);
            if j != i {
                assert(before[j].0@ == q);
            }
        }
    }
    assert forall|q: Seq<u8>| #[trigger] entries_map(after).contains_key(q) implies entries_map(
        after,
    )[q] == entries_map(before).insert(k, entry.1@)[q] by {
        let j = entry_index(after, q);
        lemma_entry_in_map(after, j);
        if j != i {
            lemma_entry_in_map(before, j);
        }
    }
}

/// Adding an entry under a new key keeps keys distinct and updates the map.
proof fn lemma_push_entry(before: Seq<([u8; 32], String)>, entry: ([u8; 32], String))
    requires
        distinct_keys(before),
        forall|i: int| 0 <= i < before.len() ==> #[trigger] before[i].0@ != entry.0@,
    ensures
        distinct_keys(before.push(entry)),
        entries_map(before.push(entry)) =~= entries_map(before).insert(entry.0@, entry.1@),
{
    let after = before.push(entry);
    let k = entry.0@;
    assert forall|a: int, b: int|
        0 <= a < after.len() && 0 <= b < after.len() && a != b implies #[trigger] after[a].0@
        != #[trigger] after[b].0@ by {
        if a < before.len() && b < before.len() {
            assert(before[a].0@ != before[b].0@);
        }
    }
    assert forall|q: Seq<u8>| #[trigger] entries_map(after).contains_key(q) == entries_map(
        before,
    ).insert(k, entry.1@).contains_key(q) by {
        if entries_map(before).contains_key(q) {
            let j = entry_index(before, q);
            assert(after[j].0@ == q);
        }
        if q == k {
            assert(after[before.len() as int].0@ == q);
        }
        if entries_map(after).contains_key(q) {
            let j = entry_index(after, q);
            if j < before.len() {
                assert(before[j].0@ == q);
            }
        }
    }
    assert forall|q: Seq<u8>| #[trigger] entries_map(after).contains_key(q) implies entries_map(
        after,
    )[q] == entries_map(before).insert(k, entry.1@)[q] by {
        let j = entry_index(after, q);
        lemma_entry_in_map(after, j);
        if j < before.len() {
            lemma_entry_in_map(before, j);
        }
    }
}

fn find_key(entries: &Vec<([u8; 32], String)>, key: &[u8; 32]) -> (found: Option<usize>)
    ensures
        found matches Some(i) ==> i < entries@.len() && entries@[i as int].0@ == key@,
        found is None ==> forall|i: int| 0 <= i < entries@.len() ==> #[trigger] entries@[i].0@ != key@,
{
    let mut i: usize = 0;
    while i < entries.len()
        invariant
            i <= entries@.len(),
            forall|j: int| 0 <= j < i ==> #[trigger] entries@[j].0@ != key@,
        decreases entries@.len() - i,
    {
        if same_digest(&entries[i].0, key) {
            return Some(i);
        }
        i = i + 1;
    }
    None
}

/// In-memory map from the hash of a transaction signature to its HTML receipt.
#[derive(Debug)]
pub struct CdnMemDB {
    db: Vec<([u8; 32], String)>,
}

impl View for CdnMemDB {
    type V = Map<Seq<u8>, Seq<char>>;

    closed spec fn view(&self) -> Map<Seq<u8>, Seq<char>> {
        entries_map(self.db@)
    }
}

impl CdnMemDB {
    /// No key is stored twice.
    #[verifier::type_invariant]
    spec fn well_formed(&self) -> bool {
        distinct_keys(self.db@)
    }

    /// An empty store.
    pub fn init() -> (db: Self)
        ensures
            db@ == Map::<Seq<u8>, Seq<char>>::empty(),
    {
        let db = CdnMemDB { db: Vec::new() };
        assert(db@ =~= Map::<Seq<u8>, Seq<char>>::empty());
        db
    }

    /// Stores `response` as the receipt of transaction `tx`, replacing what was
    /// stored under the same key.
    pub fn set(&mut self, tx: &str, response: &str) -> (db: &mut Self)
        ensures
            *final(self) == *final(db),
            db@ == old(self)@.insert(tx_key(tx@), response@),
    {
        proof {
            use_type_invariant(&*self);
        }
        let key = blake3_hash(tx.as_bytes());
        let value = response.to_owned();
        let mut entries: Vec<([u8; 32], String)> = Vec::new();
        std::mem::swap(&mut entries, &mut self.db);
        let ghost before = entries@;
        let ghost entry = (key, value);
        match find_key(&entries, &key) {
            Some(i) => {
                entries.set(i, (key, value));
                proof {
                    lemma_replace_entry(before, i as int, entry);
                    assert(entries@ == before.update(i as int, entry));
                }
            },
            None => {
                entries.push((key, value));
                proof {
                    lemma_push_entry(before, entry);
                    assert(entries@ == before.push(entry));
                }
            },
        }
        self.db = entries;
        self
    }

    /// The receipt stored for transaction `tx`, if any.
    pub fn get(&self, tx: &str) -> (response: Option<&String>)
        ensures
            response is Some <==> self@.contains_key(tx_key(tx@)),
            response matches Some(r) ==> r@ == self@[tx_key(tx@)],
    {
        proof {
            use_type_invariant(self);
        }
        let key = blake3_hash(tx.as_bytes());
        match find_key(&self.db, &key) {
            Some(i) => {
                proof {
                    lemma_entry_in_map(self.db@, i as int);
                }
                Some(&self.db[i].1)
            },
            None => {
                proof {
                    if self@.contains_key(key@) {
                        let j = entry_index(self.db@, key@);
                        assert(self.db@[j].0@ == key@);
                    }
                }
                None
            },
        }
    }
}

impl Default for CdnMemDB {
    fn default() -> (db: Self)
        ensures
            db@ == Map::<Seq<u8>, Seq<char>>::empty(),
    {
        CdnMemDB::init()
    }
}

fn same_digest(a: &[u8; 32], b: &[u8; 32]) -> (same: bool)
    ensures
        same == (a@ == b@),
{
    let mut i: usize = 0;
    while i < 32
        invariant
            i <= 32,
            a@.len() == 32,
            b@.len() == 32,
            forall|j: int| 0 <= j < i ==> a@[j] == b@[j],
        decreases 32 - i,
    {
        if a[i] != b[i] {
            return false;
        }
        i = i + 1;
    }
    assert(a@ =~= b@);
    true
}

/// How the CDN answers a request for the receipt of a transaction.
#[derive(Debug, PartialEq, Eq)]
pub enum CdnReply {
    /// The stored HTML receipt, served as `text/html`.
    Html(String),
    /// The plain-text answer for a transaction that is not stored.
    NotFound(String),
}

/// The answer to a request for the receipt of transaction `tx`.
pub fn tx_reply(db: &CdnMemDB, tx: &str) -> (reply: CdnReply)
    ensures
        db@.contains_key(tx_key(tx@)) ==> (reply matches CdnReply::Html(h) && h@ == db@[tx_key(
            tx@,
        )]),
        !db@.contains_key(tx_key(tx@)) ==> (reply matches CdnReply::NotFound(t) && t@
            == not_found_text()),
{
    match db.get(tx) {
        Some(html) => CdnReply::Html(html.clone()),
        None => CdnReply::NotFound("Transaction Signature Not Found".to_owned()),
    }
}

/// A stored receipt is what a lookup of the same transaction gives back, and
/// storing a receipt leaves the receipts of transactions with other keys as
/// they were.
pub proof fn lemma_read_your_write(
    db: Map<Seq<u8>, Seq<char>>,
    tx: Seq<char>,
    response: Seq<char>,
    other: Seq<char>,
)
    ensures
        db.insert(tx_key(tx), response).contains_key(tx_key(tx)),
        db.insert(tx_key(tx), response)[tx_key(tx)] == response,
        tx_key(other) != tx_key(tx) ==> (db.insert(tx_key(tx), response).contains_key(
            tx_key(other),
        ) == db.contains_key(tx_key(other)) && db.insert(tx_key(tx), response)[tx_key(other)]
            == db[tx_key(other)]),
{
}


/// The receipts held by a store that `init` made and that then took
/// `set(sets[0].0, sets[0].1)`, `set(sets[1].0, sets[1].1)`, ... in order: each
/// `set` inserts under the hash of its transaction, as its `ensures` states.
pub open spec fn stored_after(sets: Seq<(Seq<char>, Seq<char>)>) -> Map<Seq<u8>, Seq<char>>
    decreases sets.len(),
{
    if sets.len() == 0 {
        Map::empty()
    } else {
        stored_after(sets.drop_last()).insert(tx_key(sets.last().0), sets.last().1)
    }
}

/// The last write wins: after any sequence of stores into a new store, a
/// lookup of `tx` finds nothing when no store was made under the key of `tx`,
/// and otherwise finds the receipt of the last store made under that key,
/// whatever was stored under other keys after it.
pub proof fn lemma_last_write_wins(sets: Seq<(Seq<char>, Seq<char>)>, tx: Seq<char>)
    ensures
        (forall|i: int| 0 <= i < sets.len() ==> tx_key(#[trigger] sets[i].0) != tx_key(tx))
            ==> !stored_after(sets).contains_key(tx_key(tx)),
        forall|i: int|
            0 <= i < sets.len() && tx_key(#[trigger] sets[i].0) == tx_key(tx) && (forall|j: int|
                i < j < sets.len() ==> tx_key(#[trigger] sets[j].0) != tx_key(tx))
                ==> stored_after(sets).contains_key(tx_key(tx)) && stored_after(sets)[tx_key(tx)]
                == sets[i].1,
    decreases sets.len(),
{
    if sets.len() > 0 {
        let rest = sets.drop_last();
        let n = sets.len() - 1;
        lemma_last_write_wins(rest, tx);
        assert forall|i: int| 0 <= i < rest.len() implies #[trigger] rest[i] == sets[i] by {}
        if forall|i: int| 0 <= i < sets.len() ==> tx_key(#[trigger] sets[i].0) != tx_key(tx) {
            assert(tx_key(sets[n].0) != tx_key(tx));
            assert forall|i: int| 0 <= i < rest.len() implies tx_key(#[trigger] rest[i].0) != tx_key(
                tx,
            ) by {
                assert(rest[i] == sets[i]);
            }
        }
        assert forall|i: int|
            0 <= i < sets.len() && tx_key(#[trigger] sets[i].0) == tx_key(tx) && (forall|j: int|
                i < j < sets.len() ==> tx_key(#[trigger] sets[j].0) != tx_key(tx)) implies stored_after(
            sets,
        ).contains_key(tx_key(tx)) && stored_after(sets)[tx_key(tx)] == sets[i].1 by {
            if i < n {
                assert(tx_key(sets[n].0) != tx_key(tx));
                assert(rest[i] == sets[i]);
                assert forall|j: int| i < j < rest.len() implies tx_key(#[trigger] rest[j].0)
                    != tx_key(tx) by {
                    assert(rest[j] == sets[j]);
                }
            }
        }
    }
}

} // verus!
