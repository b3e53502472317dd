//! Lookup tables parsed from the `key=value` string arrays the host hands
//! to a plugin.

use vstd::prelude::*;

verus! {

/// The byte `=`, which parts a key from its value.
pub const SEPARATOR: u8 = 61;

/// `i` is the place of the first separator in `entry`.
pub open spec fn separator_at(entry: Seq<u8>, i: int) -> bool {
    &&& 0 <= i < entry.len()
    &&& entry[i] == SEPARATOR
    &&& forall|j: int| 0 <= j < i ==> entry[j] != SEPARATOR
}

/// The key and the value of an entry: what stands before its first
/// separator, and what stands after it. An entry without a separator has
/// neither.
pub open spec fn spec_split(entry: Seq<u8>) -> Option<(Seq<u8>, Seq<u8>)> {
    if exists|i: int| separator_at(entry, i) {
        let i = choose|i: int| separator_at(entry, i);
        Some((entry.subrange(0, i), entry.subrange(i + 1, entry.len() as int)))
    } else {
        None
    }
}

/// The table that a sequence of entries stands for: each entry with a
/// separator binds its key to its value, a later entry replacing an
/// earlier one with the same key; entries without a separator bind
/// nothing.
pub open spec fn spec_parse(entries: Seq<Seq<u8>>) -> Map<Seq<u8>, Seq<u8>>
    decreases entries.len(),
{
    if entries.len() == 0 {
        Map::empty()
    } else {
        let before = spec_parse(entries.drop_last());
        match spec_split(entries.last()) {
            Some((key, value)) => before.insert(key, value),
            None => before,
        }
    }
}

/// Whether an entry binds `key`: it has a separator, and `key` stands
/// before the first one.
pub open spec fn binds_key(entry: Seq<u8>, key: Seq<u8>) -> bool {
    match spec_split(entry) {
        Some((bound, _)) => bound == key,
        None => false,
    }
}

/// The byte strings held by a sequence of vectors.
pub open spec fn views(strings: Seq<Vec<u8>>) -> Seq<Seq<u8>> {
    Seq::new(strings.len(), |i: int| strings[i]@)
}

/// An entry has at most one first separator.
pub proof fn separator_is_unique(entry: Seq<u8>, i: int, j: int)
    requires
        separator_at(entry, i),
        separator_at(entry, j),
    ensures
        i == j,
{
    if i < j {
        assert(entry[i] != SEPARATOR);
    } else if j < i {
        assert(entry[j] != SEPARATOR);
    }
}

/// An entry whose first separator stands at `i` splits there.
pub proof fn split_at_separator(entry: Seq<u8>, i: int)
    requires
        separator_at(entry, i),
    ensures
        spec_split(entry) == Some(
            (entry.subrange(0, i), entry.subrange(i + 1, entry.len() as int)),
        ),
{
    let c = choose|c: int| separator_at(entry, c);
    separator_is_unique(entry, i, c);
}

/// Splitting is lossless: a key without a separator, a separator and any
/// value, even one that holds separators itself, split back into that key
/// and that value.
pub proof fn split_is_lossless(key: Seq<u8>, value: Seq<u8>)
    requires
        forall|j: int| 0 <= j < key.len() ==> key[j] != SEPARATOR,
    ensures
        spec_split(key + seq![SEPARATOR] + value) == Some((key, value)),
{
    let entry = key + seq![SEPARATOR] + value;
    let i = key.len() as int;
    assert(entry[i] == SEPARATOR);
    assert forall|j: int| 0 <= j < i implies entry[j] != SEPARATOR by {
        assert(entry[j] == key[j]);
    }
    assert(separator_at(entry, i));
    split_at_separator(entry, i);
    assert(entry.subrange(0, i) =~= key);
    assert(entry.subrange(i + 1, entry.len() as int) =~= value);
}

/// The last entry with a given key decides the value of that key.
pub proof fn last_duplicate_wins(entries: Seq<Seq<u8>>, i: int, key: Seq<u8>, value: Seq<u8>)
    requires
        0 <= i < entries.len(),
        spec_split(entries[i]) == Some((key, value)),
        forall|j: int| i < j < entries.len() ==> !#[trigger] binds_key(entries[j], key),
    ensures
        spec_parse(entries).dom().contains(key),
        spec_parse(entries)[key] == value,
    decreases entries.len(),
{
    let n = entries.len() as int;
    if i < n - 1 {
        let before = entries.drop_last();
        assert(before[i] == entries[i]);
        assert forall|j: int| i < j < before.len() implies !#[trigger] binds_key(
            before[j],
            key,
        ) by {
            assert(before[j] == entries[j]);
        }
        last_duplicate_wins(before, i, key, value);
        assert(!binds_key(entries[n - 1], key));
    }
}

/// A key that no entry binds is not in the table.
pub proof fn unbound_key_is_absent(entries: Seq<Seq<u8>>, key: Seq<u8>)
    requires
        forall|j: int| 0 <= j < entries.len() ==> !#[trigger] binds_key(entries[j], key),
    ensures
        !spec_parse(entries).dom().contains(key),
    decreases entries.len(),
{
    if entries.len() > 0 {
        let before = entries.drop_last();
        assert forall|j: int| 0 <= j < before.len() implies !#[trigger] binds_key(
            before[j],
            key,
        ) by {
            assert(before[j] == entries[j]);
        }
        unbound_key_is_absent(before, key);
        assert(!binds_key(entries[entries.len() - 1], key));
    }
}

/// Whether two byte strings are equal.
pub fn bytes_eq(a: &[u8], b: &[u8]) -> (same: bool)
    ensures
        same == (a@ == b@),
{
    if a.len() != b.len() {
        return false;
    }
    let mut i: usize = 0;
    while i < a.len()
        invariant
            a@.len() == b@.len(),
            i <= a@.len(),
            forall|j: int| 0 <= j < i ==> a@[j] == b@[j],
        decreases a@.len() - i,
    {
        if a[i] != b[i] {
            return false;
        }
        i += 1;
    }
    assert(a@ =~= b@);
    true
}

/// Copies the bytes of `source` from `from` up to, not including, `to`.
pub fn copy_range(source: &[u8], from: usize, to: usize) -> (copy: Vec<u8>)
    requires
        from <= to <= source@.len(),
    ensures
        copy@ == source@.subrange(from as int, to as int),
{
    let mut copy: Vec<u8> = Vec::new();
    let mut i: usize = from;
    while i < to
        invariant
            from <= i <= to <= source@.len(),
            copy@ == source@.subrange(from as int, i as int),
        decreases to - i,
    {
        copy.push(source[i]);
        assert(copy@ =~= source@.subrange(from as int, i + 1));
        i += 1;
    }
    copy
}

/// Finds the first separator of an entry.
pub fn find_separator(entry: &[u8]) -> (at: Option<usize>)
    ensures
        match at {
            Some(i) => separator_at(entry@, i as int),
            None => forall|j: int| 0 <= j < entry@.len() ==> entry@[j] != SEPARATOR,
        },
{
    let mut i: usize = 0;
    while i < entry.len()
        invariant
            i <= entry@.len(),
            forall|j: int| 0 <= j < i ==> entry@[j] != SEPARATOR,
        decreases entry@.len() - i,
    {
        if entry[i] == SEPARATOR {
            return Some(i);
        }
        i += 1;
    }
    None
}

/// Splits an entry at its first separator into key and value. An entry
/// without a separator gives `None`.
pub fn split_entry(entry: &[u8]) -> (pair: Option<(Vec<u8>, Vec<u8>)>)
    ensures
        match pair {
            Some((key, value)) => spec_split(entry@) == Some((key@, value@)),
            None => spec_split(entry@) is None,
        },
{
    match find_separator(entry) {
        Some(i) => {
            proof {
                split_at_separator(entry@, i as int);
            }
            let end = entry.len();
            assert(i < end);
            let key = copy_range(entry, 0, i);
            let value = copy_range(entry, i + 1, end);
            Some((key, value))
        },
        None => None,
    }
}

/// A lookup table from keys to values, both byte strings. No key occurs
/// twice.
#[derive(Debug)]
pub struct OptionMap {
    keys: Vec<Vec<u8>>,
    values: Vec<Vec<u8>>,
}

impl View for OptionMap {
    type V = Map<Seq<u8>, Seq<u8>>;

    /// The table as a map from keys to values.
    closed spec fn view(&self) -> Map<Seq<u8>, Seq<u8>> {
        Map::new(
            |key: Seq<u8>| exists|i: int| self.key_at(key, i),
            |key: Seq<u8>| self.values@[choose|i: int| self.key_at(key, i)]@,
        )
    }
}

impl OptionMap {
    /// `key` is stored at index `i`.
    pub closed spec fn key_at(&self, key: Seq<u8>, i: int) -> bool {
        0 <= i < self.keys@.len() && self.keys@[i]@ == key
    }

    /// Every key has its value, and no key is stored twice.
    pub closed spec fn wf(&self) -> bool {
        &&& self.keys@.len() == self.values@.len()
        &&& forall|i: int, j: int|
            0 <= i < j < self.keys@.len() ==> self.keys@[i]@ != self.keys@[j]@
    }

    proof fn lemma_lookup(&self, i: int)
        requires
            self.wf(),
            0 <= i < self.keys@.len(),
        ensures
            self@.dom().contains(self.keys@[i]@),
            self@[self.keys@[i]@] == self.values@[i]@,
    {
        let key = self.keys@[i]@;
        assert(self.key_at(key, i));
        let c = choose|c: int| self.key_at(key, c);
        assert(c == i);
    }

    /// An empty table.
    pub fn new() -> (table: Self)
        ensures
            table.wf(),
            table@ == Map::<Seq<u8>, Seq<u8>>::empty(),
    {
        let table = OptionMap { keys: Vec::new(), values: Vec::new() };
        assert(table@ =~= Map::<Seq<u8>, Seq<u8>>::empty());
        table
    }

    fn find(&self, key: &[u8]) -> (at: Option<usize>)
        ensures
            match at {
                Some(i) => self.key_at(key@, i as int),
                None => forall|i: int| !self.key_at(key@, i),
            },
    {
        let mut i: usize = 0;
        while i < self.keys.len()
            invariant
                i <= self.keys@.len(),
                forall|j: int| 0 <= j < i ==> self.keys@[j]@ != key@,
            decreases self.keys@.len() - i,
        {
            if bytes_eq(self.keys[i].as_slice(), key) {
                return Some(i);
            }
            i += 1;
        }
        None
    }

    /// Looks a key up. A key that the table does not hold gives `None`.
    pub fn get(&self, key: &[u8]) -> (value: Option<&Vec<u8>>)
        requires
            self.wf(),
        ensures
            match value {
                Some(v) => self@.dom().contains(key@) && v@ == self@[key@],
                None => !self@.dom().contains(key@),
            },
    {
        match self.find(key) {
            Some(i) => {
                proof {
                    self.lemma_lookup(i as int);
                }
                Some(&self.values[i])
            },
            None => None,
        }
    }

    /// Whether the table holds a key.
    pub fn contains_key(&self, key: &[u8]) -> (held: bool)
        requires
            self.wf(),
        ensures
            held == self@.dom().contains(key@),
    {
        self.get(key).is_some()
    }

    /// Binds `key` to `value`, replacing the value that the key had.
    pub fn insert(&mut self, key: Vec<u8>, value: Vec<u8>)
        requires
            old(self).wf(),
        ensures
            final(self).wf(),
            final(self)@ == old(self)@.insert(key@, value@),
    {
        let ghost before = *self;
        match self.find(key.as_slice()) {
            Some(i) => {
                self.values.set(i, value);
                proof {
                    let after = before@.insert(key@, value@);
                    assert(before.key_at(key@, i as int));
                    assert(self.key_at(key@, i as int));
                    assert forall|k: Seq<u8>| self@.dom().contains(k) implies after.dom().contains(
                        k,
                    ) by {
                        let c = choose|c: int| self.key_at(k, c);
                        assert(before.key_at(k, c));
                    }
                    assert forall|k: Seq<u8>| after.dom().contains(k) implies self@.dom().contains(
                        k,
                    ) by {
                        if k != key@ {
                            let c = choose|c: int| before.key_at(k, c);
                            assert(self.key_at(k, c));
                        }
                    }
                    assert forall|k: Seq<u8>| #[trigger]
                        self@.dom().contains(k) implies self@[k] == before@.insert(
                        key@,
                        value@,
                    )[k] by {
                        let c = choose|c: int| self.key_at(k, c);
                        self.lemma_lookup(c);
                        before.lemma_lookup(c);
                    }
                    assert(self@ =~= before@.insert(key@, value@));
                }
            },
            None => {
                let ghost n = self.keys@.len() as int;
                self.keys.push(key);
                self.values.push(value);
                proof {
                    assert forall|i: int, j: int| 0 <= i < j < self.keys@.len() implies self.keys@[i]@
                        != self.keys@[j]@ by {
                        if j == n {
                            assert(!before.key_at(key@, i));
                        }
                    }
                    assert(self.key_at(key@, n));
                    let after = before@.insert(key@, value@);
                    assert forall|k: Seq<u8>| self@.dom().contains(k) implies after.dom().contains(
                        k,
                    ) by {
                        let c = choose|c: int| self.key_at(k, c);
                        if c < n {
                            assert(before.key_at(k, c));
                        }
                    }
                    assert forall|k: Seq<u8>| after.dom().contains(k) implies self@.dom().contains(
                        k,
                    ) by {
                        if k != key@ {
                            let c = choose|c: int| before.key_at(k, c);
                            assert(self.key_at(k, c));
                        }
                    }
                    assert forall|k: Seq<u8>| #[trigger]
                        self@.dom().contains(k) implies self@[k] == before@.insert(
                        key@,
                        value@,
                    )[k] by {
                        let c = choose|c: int| self.key_at(k, c);
                        self.lemma_lookup(c);
                        if c < n {
                            before.lemma_lookup(c);
                        }
                    }
                    assert(self@ =~= before@.insert(key@, value@));
                }
            },
        }
    }

    /// Parses the entries of one string array into a table. Each entry is
    /// split at its first separator; a later entry replaces an earlier
    /// one with the same key; an entry without a separator is passed
    /// over.
    pub fn parse(entries: &Vec<Vec<u8>>) -> (table: Self)
        ensures
            table.wf(),
            table@ == spec_parse(views(entries@)),
    {
        let mut table = OptionMap::new();
        let mut i: usize = 0;
        assert(views(entries@).take(0) =~= Seq::<Seq<u8>>::empty());
        while i < entries.len()
            invariant
                i <= entries@.len(),
                table.wf(),
                table@ == spec_parse(views(entries@).take(i as int)),
            decreases entries@.len() - i,
        {
            let ghost upto = views(entries@).take(i + 1);
            assert(upto.drop_last() =~= views(entries@).take(i as int));
            assert(upto.last() == entries@[i as int]@);
            match split_entry(entries[i].as_slice()) {
                Some((key, value)) => {
                    table.insert(key, value);
                },
                None => {},
            }
            i += 1;
        }
        assert(views(entries@).take(i as int) =~= views(entries@));
        table
    }
}

} // verus!
