//! The key/value backend of the token store: a map from string keys to
//! string values with single operations and batches that are applied as one
//! unit.

use vstd::prelude::*;

verus! {

/// One queued operation of a batch.
pub enum BatchOp {
    /// Bind `key` to `value`, replacing any earlier binding.
    Put { key: String, value: String },
    /// Remove the binding of `key`, if there is one.
    Del { key: String },
}

/// The mathematical form of a [`BatchOp`].
pub enum OpModel {
    Put { key: Seq<char>, value: Seq<char> },
    Del { key: Seq<char> },
}

impl View for BatchOp {
    type V = OpModel;

    open spec fn view(&self) -> OpModel {
        match self {
            BatchOp::Put { key, value } => OpModel::Put { key: key@, value: value@ },
            BatchOp::Del { key } => OpModel::Del { key: key@ },
        }
    }
}

/// The contents of a store after one operation.
pub open spec fn apply_op(contents: Map<Seq<char>, Seq<char>>, op: OpModel) -> Map<
    Seq<char>,
    Seq<char>,
> {
    match op {
        OpModel::Put { key, value } => contents.insert(key, value),
        OpModel::Del { key } => contents.remove(key),
    }
}

/// The contents of a store after the operations of `ops`, first to last.
pub open spec fn apply_batch(contents: Map<Seq<char>, Seq<char>>, ops: Seq<OpModel>) -> Map<
    Seq<char>,
    Seq<char>,
>
    decreases ops.len(),
{
    if ops.len() == 0 {
        contents
    } else {
        apply_op(apply_batch(contents, ops.drop_last()), ops.last())
    }
}

/// The models of a sequence of queued operations.
pub open spec fn ops_view(ops: Seq<BatchOp>) -> Seq<OpModel> {
    ops.map_values(|op: BatchOp| op@)
}

/// A batch under construction. Operations are queued in call order and take
/// effect only when the batch is committed to a store.
pub struct WriteBatchWrapper {
    pub wb: Vec<BatchOp>,
}

impl View for WriteBatchWrapper {
    type V = Seq<OpModel>;

    open spec fn view(&self) -> Seq<OpModel> {
        ops_view(self.wb@)
    }
}

impl WriteBatchWrapper {
    /// Queues a write of `value` under `key`.
    pub fn put(self, key: &str, value: &str) -> (batch: Self)
        ensures
            batch@ == self@.push(OpModel::Put { key: key@, value: value@ }),
    {
        let mut wb = self.wb;
        wb.push(BatchOp::Put { key: key.to_owned(), value: value.to_owned() });
        WriteBatchWrapper { wb }
    }

    /// Queues the removal of `key`.
    pub fn del(self, key: &str) -> (batch: Self)
        ensures
            batch@ == self@.push(OpModel::Del { key: key@ }),
    {
        let mut wb = self.wb;
        wb.push(BatchOp::Del { key: key.to_owned() });
        WriteBatchWrapper { wb }
    }

    /// A copy of this batch: the same operations in the same order.
    pub fn duplicate(&self) -> (copy: Self)
        ensures
            copy@ == self@,
    {
        let mut wb: Vec<BatchOp> = Vec::new();
        let mut i: usize = 0;
        while i < self.wb.len()
            invariant
                i <= self.wb@.len(),
                wb@.len() == i,
                forall|j: int| 0 <= j < i ==> (#[trigger] wb@[j])@ == self.wb@[j]@,
            decreases self.wb@.len() - i,
        {
            let op = match &self.wb[i] {
                BatchOp::Put { key, value } => BatchOp::Put {
                    key: key.clone(),
                    value: value.clone(),
                },
                BatchOp::Del { key } => BatchOp::Del { key: key.clone() },
            };
            wb.push(op);
            i += 1;
        }
        assert(ops_view(wb@) =~= ops_view(self.wb@));
        WriteBatchWrapper { wb }
    }

    /// Applies every queued operation to `store`, in order, as one unit.
    pub fn commit(self, store: &mut Store)
        ensures
            final(store)@ == apply_batch(old(store)@, self@),
            final(store).path() == old(store).path(),
    {
        store.commit(self)
    }
}

/// An in-memory key/value store. No key occurs twice.
pub struct Store {
    path: String,
    entries: Vec<(String, String)>,
}

/// The position of `key` among `entries`, if it occurs.
spec fn position_of(entries: Seq<(String, String)>, key: Seq<char>) -> Option<int> {
    if exists|i: int| 0 <= i < entries.len() && (#[trigger] entries[i]).0@ == key {
        Some(choose|i: int| 0 <= i < entries.len() && (#[trigger] entries[i]).0@ == key)
    } else {
        None
    }
}

/// No two entries share a key.
spec fn distinct_keys(entries: Seq<(String, String)>) -> bool {
    forall|i: int, j: int|
        0 <= i < entries.len() && 0 <= j < entries.len() && i != j ==> (#[trigger] entries[i]).0@
            != (#[trigger] entries[j]).0@
}

/// The map that a list of entries with distinct keys stands for.
spec fn entries_map(entries: Seq<(String, String)>) -> Map<Seq<char>, Seq<char>> {
    Map::new(
        |key: Seq<char>| position_of(entries, key) is Some,
        |key: Seq<char>| entries[position_of(entries, key).unwrap()].1@,
    )
}

impl View for Store {
    type V = Map<Seq<char>, Seq<char>>;

    closed spec fn view(&self) -> Map<Seq<char>, Seq<char>> {
        entries_map(self.entries@)
    }
}

/// Index of the entry for `key`, if any.
fn find(entries: &Vec<(String, String)>, key: &String) -> (found: Option<usize>)
    ensures
        match found {
            Some(i) => i < entries@.len() && entries@[i as int].0@ == key@,
            None => forall|i: int| 0 <= i < entries@.len() ==> (#[trigger] entries@[i]).0@ != key@,
        },
{
    let mut i: usize = 0;
    while i < entries.len()
        invariant
            i <= entries@.len(),
            forall|j: int| 0 <= j < i ==> (#[trigger] entries@[j]).0@ != key@,
        decreases entries@.len() - i,
    {
        if entries[i].0 == *key {
            return Some(i);
        }
        i += 1;
    }
    None
}

/// Binds `key` to `value` in a list of entries.
fn put_entry(entries: &mut Vec<(String, String)>, key: String, value: String)
    requires
        distinct_keys(old(entries)@),
    ensures
        distinct_keys(final(entries)@),
        entries_map(final(entries)@) == entries_map(old(entries)@).insert(key@, value@),
{
    let ghost before = entries@;
    let ghost pair = (key, value);
    match find(entries, &key) {
        Some(i) => {
            entries.set(i, (key, value));
            proof {
                lemma_replace(before, i as int, pair);
            }
        },
        None => {
            entries.push((key, value));
            proof {
                lemma_append(before, pair);
            }
        },
    }
}

/// Removes the entry for `key` from a list of entries.
fn del_entry(entries: &mut Vec<(String, String)>, key: String)
    requires
        distinct_keys(old(entries)@),
    ensures
        distinct_keys(final(entries)@),
        entries_map(final(entries)@) == entries_map(old(entries)@).remove(key@),
{
    let ghost before = entries@;
    match find(entries, &key) {
        Some(i) => {
            entries.remove(i);
            proof {
                lemma_remove(before, i as int);
            }
        },
        None => {
            proof {
                lemma_position(before, key@);
            }
        },
    }
}

/// Applies the operations of `ops` to a list of entries, first to last.
fn apply_ops(entries: &mut Vec<(String, String)>, ops: &Vec<BatchOp>)
    requires
        distinct_keys(old(entries)@),
    ensures
        distinct_keys(final(entries)@),
        entries_map(final(entries)@) == apply_batch(entries_map(old(entries)@), ops_view(ops@)),
{
    let mut i: usize = 0;
    while i < ops.len()
        invariant
            i <= ops@.len(),
            distinct_keys(entries@),
            entries_map(entries@) == apply_batch(
                entries_map(old(entries)@),
                ops_view(ops@).take(i as int),
            ),
        decreases ops@.len() - i,
    {
        proof {
            let done = ops_view(ops@).take(i as int);
            let next = ops_view(ops@).take(i as int + 1);
            assert(next.drop_last() =~= done);
        }
        match &ops[i] {
            BatchOp::Put { key, value } => put_entry(entries, key.clone(), value.clone()),
            BatchOp::Del { key } => del_entry(entries, key.clone()),
        }
        i += 1;
    }
    proof {
        assert(ops_view(ops@).take(ops@.len() as int) =~= ops_view(ops@));
    }
}

impl Store {
    #[verifier::type_invariant]
    spec fn well_formed(&self) -> bool {
        distinct_keys(self.entries@)
    }

    /// The path this store was created for.
    pub closed spec fn path(&self) -> Seq<char> {
        self.path@
    }

    /// An empty store that remembers `path` as the place it belongs to.
    pub fn new(path: &str) -> (store: Store)
        ensures
            store@ == Map::<Seq<char>, Seq<char>>::empty(),
            store.path() == path@,
    {
        let store = Store { path: path.to_owned(), entries: Vec::new() };
        store
    }

    /// The path this store was created for.
    pub fn location(&self) -> (path: &str)
        ensures
            path@ == self.path(),
    {
        self.path.as_str()
    }

    /// Binds `key` to `value`, replacing any earlier binding.
    pub fn put(&mut self, key: &str, value: &str)
        ensures
            final(self)@ == old(self)@.insert(key@, value@),
            final(self).path() == old(self).path(),
    {
        proof {
            use_type_invariant(&*self);
        }
        let mut entries: Vec<(String, String)> = Vec::new();
        std::mem::swap(&mut self.entries, &mut entries);
        put_entry(&mut entries, key.to_owned(), value.to_owned());
        self.entries = entries;
    }

    /// The value bound to `key`, if any.
    pub fn get(&self, key: &str) -> (value: Option<String>)
        ensures
            match value {
                Some(v) => self@.contains_key(key@) && self@[key@] == v@,
                None => !self@.contains_key(key@),
            },
    {
        proof {
            use_type_invariant(self);
            lemma_position(self.entries@, key@);
        }
        let key = key.to_owned();
        match find(&self.entries, &key) {
            Some(i) => Some(self.entries[i].1.clone()),
            None => None,
        }
    }

    /// Removes the binding of `key`, if there is one.
    pub fn del(&mut self, key: &str)
        ensures
            final(self)@ == old(self)@.remove(key@),
            final(self).path() == old(self).path(),
    {
        proof {
            use_type_invariant(&*self);
        }
        let mut entries: Vec<(String, String)> = Vec::new();
        std::mem::swap(&mut self.entries, &mut entries);
        del_entry(&mut entries, key.to_owned());
        self.entries = entries;
    }

    /// A fresh, empty batch for this store.
    pub fn batch(&self) -> (batch: WriteBatchWrapper)
        ensures
            batch@ == Seq::<OpModel>::empty(),
    {
        let batch = WriteBatchWrapper { wb: Vec::new() };
        batch
    }

    /// Applies every operation of `wbw`, in order, as one unit.
    pub fn commit(&mut self, wbw: WriteBatchWrapper)
        ensures
            final(self)@ == apply_batch(old(self)@, wbw@),
            final(self).path() == old(self).path(),
    {
        proof {
            use_type_invariant(&*self);
        }
        let mut entries: Vec<(String, String)> = Vec::new();
        std::mem::swap(&mut self.entries, &mut entries);
        apply_ops(&mut entries, &wbw.wb);
        self.entries = entries;
    }
}

/// With distinct keys, every entry is found at its own position.
proof fn lemma_position(entries: Seq<(String, String)>, key: Seq<char>)
    requires
        distinct_keys(entries),
    ensures
        match position_of(entries, key) {
            Some(i) => 0 <= i < entries.len() && entries[i].0@ == key && forall|j: int|
                0 <= j < entries.len() && (#[trigger] entries[j]).0@ == key ==> j == i,
            None => forall|j: int| 0 <= j < entries.len() ==> (#[trigger] entries[j]).0@ != key,
        },
{
}

/// Replacing the value of the entry at `i` rebinds its key.
proof fn lemma_replace(entries: Seq<(String, String)>, i: int, pair: (String, String))
    requires
        distinct_keys(entries),
        0 <= i < entries.len(),
        entries[i].0@ == pair.0@,
    ensures
        distinct_keys(entries.update(i, pair)),
        entries_map(entries.update(i, pair)) == entries_map(entries).insert(pair.0@, pair.1@),
{
    let after = entries.update(i, pair);
    assert forall|a: int, b: int| 0 <= a < after.len() && 0 <= b < after.len() && a != b implies (
    #[trigger] after[a]).0@ != (#[trigger] after[b]).0@ by {
        assert(after[a].0@ == entries[a].0@);
        assert(after[b].0@ == entries[b].0@);
    }
    let target = entries_map(entries).insert(pair.0@, pair.1@);
    let result = entries_map(after);
    assert forall|k: Seq<char>|
        (#[trigger] result.dom().contains(k)) == target.dom().contains(k) && (result.dom().contains(
            k,
        ) ==> result[k] == target[k]) by {
        lemma_position(entries, k);
        if let Some(j) = position_of(entries, k) {
            assert(after[j].0@ == k);
        }
        if k == pair.0@ {
            assert(after[i].0@ == k);
        }
        lemma_position(after, k);
        if let Some(j) = position_of(after, k) {
            assert(entries[j].0@ == k);
        }
    }
    assert(result =~= target);
}

/// Appending an entry with a new key binds that key.
proof fn lemma_append(entries: Seq<(String, String)>, pair: (String, String))
    requires
        distinct_keys(entries),
        forall|j: int| 0 <= j < entries.len() ==> (#[trigger] entries[j]).0@ != pair.0@,
    ensures
        distinct_keys(entries.push(pair)),
        entries_map(entries.push(pair)) == entries_map(entries).insert(pair.0@, pair.1@),
{
    let after = entries.push(pair);
    assert forall|a: int, b: int| 0 <= a < after.len() && 0 <= b < after.len() && a != b implies (
    #[trigger] after[a]).0@ != (#[trigger] after[b]).0@ by {
        if a < entries.len() {
            assert(after[a] == entries[a]);
        }
        if b < entries.len() {
            assert(after[b] == entries[b]);
        }
    }
    let target = entries_map(entries).insert(pair.0@, pair.1@);
    let result = entries_map(after);
    assert forall|k: Seq<char>|
        (#[trigger] result.dom().contains(k)) == target.dom().contains(k) && (result.dom().contains(
            k,
        ) ==> result[k] == target[k]) by {
        lemma_position(entries, k);
        if let Some(j) = position_of(entries, k) {
            assert(after[j].0@ == k);
        }
        if k == pair.0@ {
            assert(after[entries.len() as int].0@ == k);
        }
        lemma_position(after, k);
        if let Some(j) = position_of(after, k) {
            if j < entries.len() {
                assert(entries[j].0@ == k);
            }
        }
    }
    assert(result =~= target);
}

/// Removing the entry at `i` unbinds its key.
proof fn lemma_remove(entries: Seq<(String, String)>, i: int)
    requires
        distinct_keys(entries),
        0 <= i < entries.len(),
    ensures
        distinct_keys(entries.remove(i)),
        entries_map(entries.remove(i)) == entries_map(entries).remove(entries[i].0@),
{
    let after = entries.remove(i);
    let key = entries[i].0@;
    assert forall|a: int| 0 <= a < after.len() implies #[trigger] after[a] == entries[if a < i {
        a
    } else {
        a + 1
    }] by {}
    assert forall|a: int, b: int| 0 <= a < after.len() && 0 <= b < after.len() && a != b implies (
    #[trigger] after[a]).0@ != (#[trigger] after[b]).0@ by {
        let a0 = if a < i { a } else { a + 1 };
        let b0 = if b < i { b } else { b + 1 };
        assert(after[a] == entries[a0]);
        assert(after[b] == entries[b0]);
    }
    let target = entries_map(entries).remove(key);
    let result = entries_map(after);
    assert forall|k: Seq<char>|
        (#[trigger] result.dom().contains(k)) == target.dom().contains(k) && (result.dom().contains(
            k,
        ) ==> result[k] == target[k]) by {
        lemma_position(entries, k);
        if let Some(j) = position_of(entries, k) {
            if j < i {
                assert(after[j].0@ == k);
            } else if j > i {
                assert(after[j - 1].0@ == k);
            }
        }
        lemma_position(after, k);
        if let Some(j) = position_of(after, k) {
            let j0 = if j < i { j } else { j + 1 };
            assert(after[j] == entries[j0]);
            assert(entries[j0].0@ == k);
        }
    }
    assert(result =~= target);
}

} // verus!
