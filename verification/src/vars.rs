//! The variables of one reading: a mapping from name to value.
//!
//! The mapping is kept as a list of entries in the order of their names,
//! each name once, and viewed as a map. A sorted map of the standard
//! library would need a model of the order of strings to say anything of
//! its contents, and vstd has none; the order is stated and proved here.

use vstd::prelude::*;
use crate::codec::{DecodedFrame, DecodedFrameView, MetricEstimate};
use crate::text::{
    comes_before, lemma_before_irreflexive, lemma_before_total, lemma_before_transitive,
    str_before, str_eq,
};

verus! {

/// A value that a reading can carry under a name.
#[derive(Debug, PartialEq, Eq)]
pub enum VarValue {
    /// A string, such as the raw frame in hexadecimal.
    Text(String),
    /// An unsigned count, such as the raw frame's length.
    Count(u64),
    /// A scaled metric.
    Estimate(MetricEstimate),
    /// The decoded structure of the raw frame.
    Frame(DecodedFrame),
}

pub enum VarValueView {
    Text(Seq<char>),
    Count(u64),
    Estimate(MetricEstimate),
    Frame(DecodedFrameView),
}

impl View for VarValue {
    type V = VarValueView;

    open spec fn view(&self) -> VarValueView {
        match self {
            VarValue::Text(s) => VarValueView::Text(s@),
            VarValue::Count(n) => VarValueView::Count(*n),
            VarValue::Estimate(e) => VarValueView::Estimate(*e),
            VarValue::Frame(d) => VarValueView::Frame(d@),
        }
    }
}

impl Clone for VarValue {
    fn clone(&self) -> (copy: VarValue)
        ensures
            copy@ == self@,
    {
        match self {
            VarValue::Text(text) => VarValue::Text(text.clone()),
            VarValue::Count(count) => VarValue::Count(*count),
            VarValue::Estimate(estimate) => VarValue::Estimate(*estimate),
            VarValue::Frame(decoded) => VarValue::Frame(decoded.clone()),
        }
    }
}

/// One name with its value.
#[derive(Debug, PartialEq, Eq)]
pub struct VarEntry {
    pub key: String,
    pub value: VarValue,
}

impl Clone for VarEntry {
    fn clone(&self) -> (copy: VarEntry)
        ensures
            copy.key@ == self.key@,
            copy.value@ == self.value@,
    {
        VarEntry { key: self.key.clone(), value: self.value.clone() }
    }
}

/// Whether the names of the entries rise strictly from first to last. No
/// name then occurs twice.
pub open spec fn keys_increasing(entries: Seq<VarEntry>) -> bool {
    forall|i: int, j: int|
        0 <= i < j < entries.len() ==> comes_before(
            (#[trigger] entries[i]).key@,
            (#[trigger] entries[j]).key@,
        )
}

/// Whether an entry of this name is among the entries.
pub open spec fn has_key(entries: Seq<VarEntry>, key: Seq<char>) -> bool {
    exists|i: int| 0 <= i < entries.len() && (#[trigger] entries[i]).key@ == key
}

/// The place of an entry of this name, where there is one.
pub open spec fn index_of_key(entries: Seq<VarEntry>, key: Seq<char>) -> int {
    choose|i: int| 0 <= i < entries.len() && (#[trigger] entries[i]).key@ == key
}

/// The mapping that a sequence of entries stands for: each name is bound to
/// the value of the entry that carries it.
pub open spec fn map_of_entries(entries: Seq<VarEntry>) -> Map<Seq<char>, VarValueView> {
    Map::new(
        |key: Seq<char>| has_key(entries, key),
        |key: Seq<char>| entries[index_of_key(entries, key)].value@,
    )
}

/// A mapping from variable name to value. Its entries stand in the order of
/// their names, and no name occurs twice.
#[derive(Debug, PartialEq, Eq)]
pub struct Vars {
    entries: Vec<VarEntry>,
}

impl View for Vars {
    type V = Map<Seq<char>, VarValueView>;

    closed spec fn view(&self) -> Map<Seq<char>, VarValueView> {
        map_of_entries(self.entries@)
    }
}

/// Among entries whose names rise, an entry's name is found at the entry's
/// own place, and is bound to the entry's value.
pub proof fn lemma_entry_is_bound(entries: Seq<VarEntry>, i: int)
    requires
        keys_increasing(entries),
        0 <= i < entries.len(),
    ensures
        has_key(entries, entries[i].key@),
        index_of_key(entries, entries[i].key@) == i,
        map_of_entries(entries).contains_key(entries[i].key@),
        map_of_entries(entries)[entries[i].key@] == entries[i].value@,
{
    let j = index_of_key(entries, entries[i].key@);
    assert(entries[j].key@ == entries[i].key@);
    lemma_before_irreflexive(entries[i].key@);
    if j < i {
        assert(comes_before(entries[j].key@, entries[i].key@));
    } else if i < j {
        assert(comes_before(entries[i].key@, entries[j].key@));
    }
}

proof fn lemma_same_entries_same_map(a: Seq<VarEntry>, b: Seq<VarEntry>)
    requires
        keys_increasing(a),
        a.len() == b.len(),
        forall|i: int|
            0 <= i < a.len() ==> (#[trigger] a[i]).key@ == b[i].key@ && a[i].value@
                == b[i].value@,
    ensures
        keys_increasing(b),
        map_of_entries(a) == map_of_entries(b),
{
    assert forall|i: int, j: int| 0 <= i < j < b.len() implies comes_before(
        (#[trigger] b[i]).key@,
        (#[trigger] b[j]).key@,
    ) by {
        assert(a[i].key@ == b[i].key@ && a[j].key@ == b[j].key@);
    }
    assert forall|key: Seq<char>| #[trigger]
        map_of_entries(a).contains_key(key) == map_of_entries(b).contains_key(key) by {
        if has_key(a, key) {
            let i = index_of_key(a, key);
            assert(a[i].key@ == b[i].key@);
            assert(b[i].key@ == key);
        }
        if has_key(b, key) {
            let i = index_of_key(b, key);
            assert(a[i].key@ == b[i].key@);
        }
    }
    assert forall|key: Seq<char>| #[trigger]
        map_of_entries(a).contains_key(key) implies map_of_entries(a)[key] == map_of_entries(
        b,
    )[key] by {
        let i = index_of_key(a, key);
        assert(a[i].key@ == b[i].key@);
        lemma_entry_is_bound(a, i);
        lemma_entry_is_bound(b, i);
    }
    assert(map_of_entries(a) =~= map_of_entries(b));
}

proof fn lemma_replace_entry(entries: Seq<VarEntry>, at: int, entry: VarEntry)
    requires
        keys_increasing(entries),
        0 <= at < entries.len(),
        entries[at].key@ == entry.key@,
    ensures
        keys_increasing(entries.update(at, entry)),
        map_of_entries(entries.update(at, entry)) == map_of_entries(entries).insert(
            entry.key@,
            entry.value@,
        ),
{
    let after = entries.update(at, entry);
    assert forall|i: int, j: int| 0 <= i < j < after.len() implies comes_before(
        (#[trigger] after[i]).key@,
        (#[trigger] after[j]).key@,
    ) by {
        assert(after[i].key@ == entries[i].key@);
        assert(after[j].key@ == entries[j].key@);
    }
    let wanted = map_of_entries(entries).insert(entry.key@, entry.value@);
    assert forall|key: Seq<char>| #[trigger]
        map_of_entries(after).contains_key(key) == wanted.contains_key(key) by {
        if has_key(after, key) {
            let i = index_of_key(after, key);
            assert(entries[i].key@ == key);
        }
        if has_key(entries, key) {
            let i = index_of_key(entries, key);
            assert(after[i].key@ == key);
        }
        assert(after[at].key@ == entry.key@);
    }
    assert forall|key: Seq<char>| #[trigger]
        map_of_entries(after).contains_key(key) implies map_of_entries(after)[key]
        == wanted[key] by {
        let i = index_of_key(after, key);
        lemma_entry_is_bound(after, i);
        if i != at {
            assert(entries[i] == after[i]);
            lemma_entry_is_bound(entries, i);
            lemma_entry_is_bound(entries, at);
        }
    }
    assert(map_of_entries(after) =~= wanted);
}

proof fn lemma_insert_entry(entries: Seq<VarEntry>, at: int, entry: VarEntry)
    requires
        keys_increasing(entries),
        0 <= at <= entries.len(),
        forall|i: int| 0 <= i < at ==> comes_before((#[trigger] entries[i]).key@, entry.key@),
        at < entries.len() ==> comes_before(entry.key@, entries[at].key@),
    ensures
        keys_increasing(entries.insert(at, entry)),
        map_of_entries(entries.insert(at, entry)) == map_of_entries(entries).insert(
            entry.key@,
            entry.value@,
        ),
{
    let after = entries.insert(at, entry);
    assert forall|i: int| at <= i < entries.len() implies comes_before(
        entry.key@,
        (#[trigger] entries[i]).key@,
    ) by {
        if at < i {
            assert(comes_before(entries[at].key@, entries[i].key@));
            lemma_before_transitive(entry.key@, entries[at].key@, entries[i].key@);
        }
    }
    assert forall|i: int, j: int| 0 <= i < j < after.len() implies comes_before(
        (#[trigger] after[i]).key@,
        (#[trigger] after[j]).key@,
    ) by {
        if j < at {
            assert(after[i] == entries[i] && after[j] == entries[j]);
        } else if j == at {
            assert(after[i] == entries[i]);
        } else if i < at {
            assert(after[i] == entries[i] && after[j] == entries[j - 1]);
        } else if i == at {
            assert(after[j] == entries[j - 1]);
        } else {
            assert(after[i] == entries[i - 1] && after[j] == entries[j - 1]);
        }
    }
    assert(!has_key(entries, entry.key@)) by {
        lemma_before_irreflexive(entry.key@);
        if has_key(entries, entry.key@) {
            let i = index_of_key(entries, entry.key@);
            if i < at {
                assert(comes_before(entries[i].key@, entry.key@));
            } else {
                assert(comes_before(entry.key@, entries[i].key@));
            }
        }
    }
    let wanted = map_of_entries(entries).insert(entry.key@, entry.value@);
    assert forall|key: Seq<char>| #[trigger]
        map_of_entries(after).contains_key(key) == wanted.contains_key(key) by {
        if has_key(after, key) {
            let i = index_of_key(after, key);
            if i < at {
                assert(entries[i].key@ == key);
            } else if i > at {
                assert(entries[i - 1].key@ == key);
            }
        }
        if has_key(entries, key) {
            let i = index_of_key(entries, key);
            if i < at {
                assert(after[i].key@ == key);
            } else {
                assert(after[i + 1].key@ == key);
            }
        }
        assert(after[at].key@ == entry.key@);
    }
    assert forall|key: Seq<char>| #[trigger]
        map_of_entries(after).contains_key(key) implies map_of_entries(after)[key]
        == wanted[key] by {
        let i = index_of_key(after, key);
        lemma_entry_is_bound(after, i);
        if i < at {
            assert(entries[i] == after[i]);
            lemma_entry_is_bound(entries, i);
        } else if i > at {
            assert(entries[i - 1] == after[i]);
            lemma_entry_is_bound(entries, i - 1);
        }
    }
    assert(map_of_entries(after) =~= wanted);
}

impl Clone for Vars {
    fn clone(&self) -> (copy: Vars)
        ensures
            copy@ == self@,
    {
        proof {
            use_type_invariant(self);
        }
        let mut entries: Vec<VarEntry> = Vec::new();
        let mut i: usize = 0;
        while i < self.entries.len()
            invariant
                i <= self.entries@.len(),
                entries@.len() == i,
                forall|j: int|
                    0 <= j < i ==> (#[trigger] self.entries@[j]).key@ == entries@[j].key@
                        && self.entries@[j].value@ == entries@[j].value@,
            decreases self.entries@.len() - i,
        {
            entries.push(self.entries[i].clone());
            i = i + 1;
        }
        proof {
            lemma_same_entries_same_map(self.entries@, entries@);
        }
        Vars { entries }
    }
}

impl Vars {
    #[verifier::type_invariant]
    closed spec fn names_in_order(self) -> bool {
        keys_increasing(self.entries@)
    }

    /// An empty mapping.
    pub fn new() -> (vars: Vars)
        ensures
            vars@ == Map::<Seq<char>, VarValueView>::empty(),
    {
        let vars = Vars { entries: Vec::new() };
        assert(vars@ =~= Map::<Seq<char>, VarValueView>::empty());
        vars
    }

    /// Binds `key` to `value`, replacing what `key` was bound to.
    pub fn insert(&mut self, key: String, value: VarValue)
        ensures
            final(self)@ == old(self)@.insert(key@, value@),
    {
        proof {
            use_type_invariant(&*self);
        }
        let mut taken = Vars { entries: Vec::new() };
        std::mem::swap(self, &mut taken);
        let Vars { entries: mut entries } = taken;
        let len: usize = entries.len();
        let mut at: usize = 0;
        let mut searching: bool = true;
        while searching && at < len
            invariant
                len == entries@.len(),
                at <= len,
                forall|i: int| 0 <= i < at ==> comes_before((#[trigger] entries@[i]).key@, key@),
                !searching ==> at < len && !comes_before(entries@[at as int].key@, key@),
            decreases len - at + if searching { 1int } else { 0int },
        {
            if str_before(entries[at].key.as_str(), key.as_str()) {
                at = at + 1;
            } else {
                searching = false;
            }
        }
        let entry = VarEntry { key, value };
        if at < len && str_eq(entries[at].key.as_str(), entry.key.as_str()) {
            proof {
                lemma_replace_entry(entries@, at as int, entry);
            }
            entries.set(at, entry);
        } else {
            proof {
                if at < len {
                    lemma_before_total(entries@[at as int].key@, entry.key@);
                }
                lemma_insert_entry(entries@, at as int, entry);
            }
            entries.insert(at, entry);
        }
        *self = Vars { entries };
    }

    /// The value bound to `key`, if any.
    pub fn get(&self, key: &str) -> (found: Option<&VarValue>)
        ensures
            found is Some <==> self@.contains_key(key@),
            found matches Some(value) ==> value@ == self@[key@],
    {
        proof {
            use_type_invariant(self);
        }
        let mut i: usize = 0;
        while i < self.entries.len()
            invariant
                i <= self.entries@.len(),
                keys_increasing(self.entries@),
                forall|j: int| 0 <= j < i ==> (#[trigger] self.entries@[j]).key@ != key@,
            decreases self.entries@.len() - i,
        {
            if str_eq(self.entries[i].key.as_str(), key) {
                proof {
                    lemma_entry_is_bound(self.entries@, i as int);
                }
                return Some(&self.entries[i].value);
            }
            i = i + 1;
        }
        None
    }

    /// Whether `key` is bound.
    pub fn contains_key(&self, key: &str) -> (present: bool)
        ensures
            present == self@.contains_key(key@),
    {
        self.get(key).is_some()
    }

    /// Whether nothing is bound.
    pub fn is_empty(&self) -> (empty: bool)
        ensures
            empty == (self@ == Map::<Seq<char>, VarValueView>::empty()),
    {
        proof {
            use_type_invariant(self);
            if self.entries@.len() > 0 {
                lemma_entry_is_bound(self.entries@, 0);
            } else {
                assert(self@ =~= Map::<Seq<char>, VarValueView>::empty());
            }
        }
        self.entries.len() == 0
    }

    /// The entries, for walking the mapping: they stand in the order of
    /// their names, no name occurs twice, and together they are the mapping.
    pub fn entries(&self) -> (entries: &Vec<VarEntry>)
        ensures
            keys_increasing(entries@),
            map_of_entries(entries@) == self@,
    {
        proof {
            use_type_invariant(self);
        }
        &self.entries
    }
}

} // verus!
