//! A keyed table of entries, each an item's metadata and its handler, in the order the
//! keys were first registered. The tool, resource and prompt registries are built on it.

use crate::error::{join_error_message, join_error_text, McpError, McpResult};
use crate::text::str_eq;
use vstd::string::*;
use vstd::prelude::*;

verus! {

/// The index of the entry with the key, or -1 when no entry has it
/// (the last such entry, should there be several).
pub open spec fn find_key<M, H>(entries: Seq<(Seq<char>, M, H)>, key: Seq<char>) -> int
    decreases entries.len(),
{
    if entries.len() == 0 {
        -1
    } else if entries.last().0 == key {
        entries.len() - 1
    } else {
        find_key(entries.drop_last(), key)
    }
}

/// No two entries share a key.
pub open spec fn keys_distinct<M, H>(entries: Seq<(Seq<char>, M, H)>) -> bool {
    forall|i: int, j: int|
        0 <= i < entries.len() && 0 <= j < entries.len() && i != j ==> entries[i].0 != entries[j].0
}

/// The entries after registering `entry`: it replaces the entry with its key in
/// place, or goes at the end when the key is new.
pub open spec fn insert_entry<M, H>(entries: Seq<(Seq<char>, M, H)>, entry: (Seq<char>, M, H)) -> Seq<
    (Seq<char>, M, H),
> {
    let i = find_key(entries, entry.0);
    if i >= 0 {
        entries.update(i, entry)
    } else {
        entries.push(entry)
    }
}

/// The handler registered under the key, if any.
pub open spec fn handler_for<M, H>(entries: Seq<(Seq<char>, M, H)>, key: Seq<char>) -> Option<H> {
    let i = find_key(entries, key);
    if i >= 0 {
        Some(entries[i].2)
    } else {
        None
    }
}

/// The metadata of the entries, in order.
pub open spec fn metadata<M, H>(entries: Seq<(Seq<char>, M, H)>) -> Seq<M> {
    entries.map_values(|e: (Seq<char>, M, H)| e.1)
}

/// `find_key` finds the key exactly where some entry has it.
pub proof fn lemma_find_key<M, H>(entries: Seq<(Seq<char>, M, H)>, key: Seq<char>)
    ensures
        -1 <= find_key(entries, key) < entries.len(),
        find_key(entries, key) >= 0 ==> entries[find_key(entries, key)].0 == key,
        find_key(entries, key) == -1 <==> (forall|j: int|
            0 <= j < entries.len() ==> entries[j].0 != key),
    decreases entries.len(),
{
    if entries.len() > 0 {
        lemma_find_key(entries.drop_last(), key);
        if entries.last().0 != key {
            assert forall|j: int| 0 <= j < entries.len() - 1 implies entries[j].0
                == entries.drop_last()[j].0 by {}
        }
    }
}

/// With distinct keys, an entry that has the key is the one `find_key` finds.
pub proof fn lemma_find_key_unique<M, H>(entries: Seq<(Seq<char>, M, H)>, key: Seq<char>, j: int)
    requires
        keys_distinct(entries),
        0 <= j < entries.len(),
        entries[j].0 == key,
    ensures
        find_key(entries, key) == j,
{
    lemma_find_key(entries, key);
}

/// Registering keeps the keys distinct.
pub proof fn lemma_insert_keeps_distinct<M, H>(entries: Seq<(Seq<char>, M, H)>, entry: (Seq<char>, M, H))
    requires
        keys_distinct(entries),
    ensures
        keys_distinct(insert_entry(entries, entry)),
{
    lemma_find_key(entries, entry.0);
}

struct Entry<M, H> {
    key: String,
    meta: M,
    handler: H,
}

/// A table of handlers with their metadata, keyed by name.
pub struct Registry<M, H> {
    entries: Vec<Entry<M, H>>,
    history: Ghost<Seq<(Seq<char>, M, H)>>,
}

impl<M, H> Registry<M, H> {
    /// The entries as (key, metadata, handler), in order.
    pub closed spec fn entries(&self) -> Seq<(Seq<char>, M, H)> {
        self.entries@.map_values(|e: Entry<M, H>| (e.key@, e.meta, e.handler))
    }

    /// Every registration made since the registry was created, in order.
    pub closed spec fn history(&self) -> Seq<(Seq<char>, M, H)> {
        self.history@
    }

    /// The registry is well formed: no two entries share a key, and the entries are
    /// what its registrations, made in turn from empty, leave.
    pub open spec fn wf(&self) -> bool {
        &&& keys_distinct(self.entries())
        &&& self.entries() == register_all(Seq::empty(), self.history())
    }

    /// An empty registry.
    pub fn new() -> (r: Self)
        ensures
            r.wf(),
            r.entries().len() == 0,
            r.history().len() == 0,
    {
        let r = Registry { entries: Vec::new(), history: Ghost(Seq::empty()) };
        assert(r.entries() =~= Seq::<(Seq<char>, M, H)>::empty());
        r
    }

    /// The position of the entry with the key.
    fn position(&self, key: &str) -> (r: Option<usize>)
        requires
            self.wf(),
        ensures
            r matches Some(i) ==> i == find_key(self.entries(), key@),
            r is None ==> find_key(self.entries(), key@) == -1,
    {
        let n = self.entries.len();
        let mut i: usize = 0;
        while i < n
            invariant
                n == self.entries@.len(),
                i <= n,
                self.entries().len() == n,
                self.wf(),
                forall|j: int| 0 <= j < i ==> self.entries()[j].0 != key@,
            decreases n - i,
        {
            if str_eq(self.entries[i].key.as_str(), key) {
                proof {
                    lemma_find_key_unique(self.entries(), key@, i as int);
                }
                return Some(i);
            }
            i = i + 1;
        }
        proof {
            lemma_find_key(self.entries(), key@);
        }
        None
    }

    /// Registers a handler under the key, replacing the entry that has it.
    pub fn register(&mut self, key: String, meta: M, handler: H)
        requires
            old(self).wf(),
        ensures
            final(self).wf(),
            final(self).entries() == insert_entry(old(self).entries(), (key@, meta, handler)),
            final(self).history() == old(self).history().push((key@, meta, handler)),
    {
        let ghost entry = (key@, meta, handler);
        let ghost new_history = self.history@.push(entry);
        assert(new_history.drop_last() =~= self.history@);
        proof {
            lemma_find_key(self.entries(), key@);
            lemma_insert_keeps_distinct(self.entries(), entry);
        }
        match self.position(key.as_str()) {
            Some(i) => {
                self.entries.set(i, Entry { key, meta, handler });
                self.history = Ghost(new_history);
                assert(self.entries() =~= old(self).entries().update(i as int, entry));
            },
            None => {
                self.entries.push(Entry { key, meta, handler });
                self.history = Ghost(new_history);
                assert(self.entries() =~= old(self).entries().push(entry));
            },
        }
    }

    /// The handler registered under the key.
    pub fn get(&self, key: &str) -> (r: Option<&H>)
        requires
            self.wf(),
        ensures
            r matches Some(h) ==> handler_for(self.entries(), key@) == Some(*h),
            r is None ==> handler_for(self.entries(), key@) is None,
    {
        proof {
            lemma_find_key(self.entries(), key@);
        }
        match self.position(key) {
            Some(i) => Some(&self.entries[i].handler),
            None => None,
        }
    }

    /// Copies of the metadata of all entries, in order.
    pub fn list(&self) -> (r: Vec<M>)
        where M: Clone,
        ensures
            r@.len() == self.entries().len(),
            forall|i: int| 0 <= i < r@.len() ==> cloned::<M>(metadata(self.entries())[i], #[trigger] r@[i]),
    {
        let n = self.entries.len();
        let mut out: Vec<M> = Vec::new();
        let mut i: usize = 0;
        while i < n
            invariant
                n == self.entries@.len(),
                i <= n,
                out@.len() == i,
                forall|j: int| 0 <= j < i ==> cloned::<M>(metadata(self.entries())[j], #[trigger] out@[j]),
            decreases n - i,
        {
            out.push(self.entries[i].meta.clone());
            i = i + 1;
        }
        out
    }
}

} // verus!

verus! {

/// The outcome of a handler that ran as a task of its own: the handler's result, or,
/// when the task failed (the handler panicked), an `Internal` error whose message
/// starts with "Handler panicked: " and goes on with the task's error.
pub fn handler_task_outcome<X>(outcome: Result<McpResult<X>, tokio::task::JoinError>) -> (r: McpResult<X>)
    ensures
        outcome matches Ok(res) ==> r == res,
        outcome matches Err(e) ==> (r matches Err(McpError::Internal(m)) && m@ == "Handler panicked: "@
            + join_error_message(e)),
{
    match outcome {
        Ok(res) => res,
        Err(e) => {
            let detail = join_error_text(&e);
            let m = String::from_str("Handler panicked: ").concat(detail.as_str());
            Err(McpError::Internal(m))
        },
    }
}

/// Registering a handler under a key makes it the handler found under that key.
pub proof fn lemma_register_then_lookup<M, H>(entries: Seq<(Seq<char>, M, H)>, key: Seq<char>, meta: M, handler: H)
    requires
        keys_distinct(entries),
    ensures
        handler_for(insert_entry(entries, (key, meta, handler)), key) == Some(handler),
{
    let after = insert_entry(entries, (key, meta, handler));
    lemma_find_key(entries, key);
    lemma_insert_keeps_distinct(entries, (key, meta, handler));
    let i = find_key(entries, key);
    if i >= 0 {
        lemma_find_key_unique(after, key, i);
    } else {
        lemma_find_key_unique(after, key, entries.len() as int);
    }
}

/// Registering under one key leaves what every other key finds unchanged.
pub proof fn lemma_register_keeps_others<M, H>(
    entries: Seq<(Seq<char>, M, H)>,
    key: Seq<char>,
    meta: M,
    handler: H,
    other: Seq<char>,
)
    requires
        keys_distinct(entries),
        other != key,
    ensures
        handler_for(insert_entry(entries, (key, meta, handler)), other) == handler_for(entries, other),
{
    let after = insert_entry(entries, (key, meta, handler));
    lemma_find_key(entries, key);
    lemma_find_key(entries, other);
    lemma_find_key(after, other);
    lemma_insert_keeps_distinct(entries, (key, meta, handler));
    let j = find_key(entries, other);
    if j >= 0 {
        lemma_find_key_unique(after, other, j);
    }
}

/// Registering under a key that is already taken replaces that entry's metadata and
/// keeps the number of entries; a new key adds one entry at the end.
pub proof fn lemma_register_size<M, H>(entries: Seq<(Seq<char>, M, H)>, key: Seq<char>, meta: M, handler: H)
    requires
        keys_distinct(entries),
    ensures
        (exists|j: int| 0 <= j < entries.len() && entries[j].0 == key) ==> {
            let after = insert_entry(entries, (key, meta, handler));
            &&& after.len() == entries.len()
            &&& metadata(after) == metadata(entries).update(find_key(entries, key), meta)
        },
        (forall|j: int| 0 <= j < entries.len() ==> entries[j].0 != key) ==> {
            let after = insert_entry(entries, (key, meta, handler));
            &&& after.len() == entries.len() + 1
            &&& metadata(after) == metadata(entries).push(meta)
        },
{
    lemma_find_key(entries, key);
    let after = insert_entry(entries, (key, meta, handler));
    assert(find_key(entries, key) >= 0 ==> metadata(after) =~= metadata(entries).update(find_key(entries, key), meta));
    assert(find_key(entries, key) < 0 ==> metadata(after) =~= metadata(entries).push(meta));
}

} // verus!

verus! {

/// The entries after registering each of `ops` in turn, starting from `entries`.
pub open spec fn register_all<M, H>(entries: Seq<(Seq<char>, M, H)>, ops: Seq<(Seq<char>, M, H)>) -> Seq<
    (Seq<char>, M, H),
>
    decreases ops.len(),
{
    if ops.len() == 0 {
        entries
    } else {
        insert_entry(register_all(entries, ops.drop_last()), ops.last())
    }
}

/// The keys of the entries, in order.
pub open spec fn keys<M, H>(entries: Seq<(Seq<char>, M, H)>) -> Seq<Seq<char>> {
    entries.map_values(|e: (Seq<char>, M, H)| e.0)
}

/// What registering one entry does to the entry found under each key.
proof fn lemma_insert_find<M, H>(entries: Seq<(Seq<char>, M, H)>, entry: (Seq<char>, M, H), key: Seq<char>)
    requires
        keys_distinct(entries),
    ensures
        ({
            let after = insert_entry(entries, entry);
            &&& key == entry.0 ==> find_key(after, key) >= 0 && after[find_key(after, key)] == entry
            &&& key != entry.0 ==> find_key(after, key) == find_key(entries, key)
            &&& key != entry.0 && find_key(entries, key) >= 0 ==> after[find_key(after, key)]
                == entries[find_key(entries, key)]
        }),
{
    let after = insert_entry(entries, entry);
    lemma_find_key(entries, entry.0);
    lemma_find_key(entries, key);
    lemma_insert_keeps_distinct(entries, entry);
    lemma_find_key(after, key);
    let i = find_key(entries, entry.0);
    if key == entry.0 {
        if i >= 0 {
            lemma_find_key_unique(after, key, i);
        } else {
            lemma_find_key_unique(after, key, entries.len() as int);
        }
    } else {
        let j = find_key(entries, key);
        if j >= 0 {
            lemma_find_key_unique(after, key, j);
        } else {
            assert forall|m: int| 0 <= m < after.len() implies after[m].0 != key by {
                if m < entries.len() && m != i {
                    assert(after[m] == entries[m]);
                }
            }
        }
    }
}

/// `entries` hold, for each distinct key among the registrations `ops`, the last
/// registration made under it, and nothing else.
pub open spec fn latest_per_key<M, H>(entries: Seq<(Seq<char>, M, H)>, ops: Seq<(Seq<char>, M, H)>) -> bool {
    &&& keys_distinct(entries)
    &&& forall|key: Seq<char>| #[trigger] find_key(entries, key) >= 0 <==> find_key(ops, key) >= 0
    &&& forall|key: Seq<char>|
        find_key(ops, key) >= 0 ==> entries[#[trigger] find_key(entries, key)] == ops[find_key(ops, key)]
    &&& forall|i: int| 0 <= i < entries.len() ==> #[trigger] entries[i] == ops[find_key(ops, entries[i].0)]
    &&& entries.len() == keys(ops).to_set().len()
}

/// Registering any sequence of entries into an empty registry leaves one entry per
/// distinct key, namely the last one registered under it, and nothing else: however
/// many registrations there were, none is lost and none is counted twice.
pub proof fn lemma_register_sequence<M, H>(ops: Seq<(Seq<char>, M, H)>)
    ensures
        latest_per_key(register_all(Seq::<(Seq<char>, M, H)>::empty(), ops), ops),
{
    let after = register_all(Seq::<(Seq<char>, M, H)>::empty(), ops);
    lemma_register_sequence_core(ops);
    assert forall|i: int| 0 <= i < after.len() implies #[trigger] after[i] == ops[find_key(ops, after[i].0)] by {
        let key = after[i].0;
        lemma_find_key_unique(after, key, i);
    }
}

proof fn lemma_register_sequence_core<M, H>(ops: Seq<(Seq<char>, M, H)>)
    ensures
        ({
            let after = register_all(Seq::<(Seq<char>, M, H)>::empty(), ops);
            &&& keys_distinct(after)
            &&& forall|key: Seq<char>| #[trigger] find_key(after, key) >= 0 <==> find_key(ops, key) >= 0
            &&& forall|key: Seq<char>|
                find_key(ops, key) >= 0 ==> after[#[trigger] find_key(after, key)] == ops[find_key(ops, key)]
            &&& after.len() == keys(ops).to_set().len()
        }),
    decreases ops.len(),
{
    let after = register_all(Seq::<(Seq<char>, M, H)>::empty(), ops);
    if ops.len() == 0 {
        assert(keys(ops).to_set() =~= Set::empty());
    } else {
        let init = ops.drop_last();
        let before = register_all(Seq::<(Seq<char>, M, H)>::empty(), init);
        lemma_register_sequence_core(init);
        lemma_insert_keeps_distinct(before, ops.last());
        assert forall|key: Seq<char>| #[trigger] find_key(after, key) >= 0 <==> find_key(ops, key) >= 0 by {
            lemma_insert_find(before, ops.last(), key);
        }
        assert forall|key: Seq<char>|
            find_key(ops, key) >= 0 implies after[#[trigger] find_key(after, key)] == ops[find_key(ops, key)] by {
            lemma_insert_find(before, ops.last(), key);
            lemma_find_key(init, key);
            if key != ops.last().0 {
                assert(find_key(ops, key) == find_key(init, key));
                assert(find_key(before, key) >= 0);
                assert(before[find_key(before, key)] == init[find_key(init, key)]);
                assert(init[find_key(init, key)] == ops[find_key(init, key)]);
            }
        }
        // The keys of the entries are those of the registrations, each once.
        assert forall|key: Seq<char>| #[trigger] keys(after).to_set().contains(key) <==> keys(ops).to_set().contains(key) by {
            lemma_find_key(after, key);
            lemma_find_key(ops, key);
            if keys(after).to_set().contains(key) {
                let m = choose|m: int| 0 <= m < keys(after).len() && keys(after)[m] == key;
                assert(after[m].0 == key);
            }
            if keys(ops).to_set().contains(key) {
                let m = choose|m: int| 0 <= m < keys(ops).len() && keys(ops)[m] == key;
                assert(ops[m].0 == key);
            }
            if find_key(after, key) >= 0 {
                assert(keys(after)[find_key(after, key)] == key);
            }
            if find_key(ops, key) >= 0 {
                assert(keys(ops)[find_key(ops, key)] == key);
            }
        }
        assert(keys(after).to_set() =~= keys(ops).to_set());
        assert(keys(after).no_duplicates()) by {
            assert forall|i: int, j: int|
                0 <= i < keys(after).len() && 0 <= j < keys(after).len() && i != j implies keys(after)[i]
                != keys(after)[j] by {
                assert(after[i].0 != after[j].0);
            }
        }
        keys(after).unique_seq_to_set();
    }
}

} // verus!
