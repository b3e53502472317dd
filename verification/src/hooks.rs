//! The hooks a plugin subscribes to, and the order in which they are
//! handed to the host.

use vstd::prelude::*;

verus! {

/// One hook: the version of the hook interface, the kind of hook, and
/// the handle under which the caller keeps the hook's function and
/// context.
#[derive(Clone, Copy, Debug, PartialEq, Eq, Structural)]
pub struct HookRecord {
    pub version: u32,
    pub hook_type: u32,
    pub handle: usize,
}

/// The hooks of one plugin, and whether the host holds them.
#[derive(Debug)]
pub struct HookTable {
    records: Vec<HookRecord>,
    registered: bool,
}

impl HookTable {
    /// The hooks, in the order in which they were added.
    pub closed spec fn records(&self) -> Seq<HookRecord> {
        self.records@
    }

    /// Whether the host holds the hooks.
    pub closed spec fn registered(&self) -> bool {
        self.registered
    }

    /// A table without hooks, which the host does not hold.
    pub fn new() -> (table: Self)
        ensures
            table.records() == Seq::<HookRecord>::empty(),
            !table.registered(),
    {
        HookTable { records: Vec::new(), registered: false }
    }

    /// Whether the host holds the hooks.
    pub fn is_registered(&self) -> (held: bool)
        ensures
            held == self.registered(),
    {
        self.registered
    }

    /// Adds a hook behind those already there. While the host holds the
    /// hooks the table does not change, and `false` is returned.
    pub fn add(&mut self, record: HookRecord) -> (added: bool)
        ensures
            added == !old(self).registered(),
            final(self).registered() == old(self).registered(),
            final(self).records() == if added {
                old(self).records().push(record)
            } else {
                old(self).records()
            },
    {
        if self.registered {
            false
        } else {
            self.records.push(record);
            true
        }
    }

    /// The host asks for the hooks: they are returned in the order in
    /// which they were added, and the host holds them from now on. If it
    /// holds them already, nothing is returned.
    pub fn register(&mut self) -> (handed: Vec<HookRecord>)
        ensures
            final(self).records() == old(self).records(),
            final(self).registered(),
            handed@ == if old(self).registered() {
                Seq::<HookRecord>::empty()
            } else {
                old(self).records()
            },
    {
        if self.registered {
            return Vec::new();
        }
        self.registered = true;
        let mut handed: Vec<HookRecord> = Vec::new();
        let mut i: usize = 0;
        while i < self.records.len()
            invariant
                i <= self.records@.len(),
                handed@ == self.records@.take(i as int),
            decreases self.records@.len() - i,
        {
            handed.push(self.records[i]);
            assert(handed@ =~= self.records@.take(i + 1));
            i += 1;
        }
        assert(self.records@.take(i as int) =~= self.records@);
        handed
    }

    /// The host gives the hooks back: they are returned in the reverse of
    /// the order in which they were registered, and the host holds them
    /// no longer. If it does not hold them, nothing is returned.
    pub fn deregister(&mut self) -> (handed: Vec<HookRecord>)
        ensures
            final(self).records() == old(self).records(),
            !final(self).registered(),
            handed@ == if old(self).registered() {
                old(self).records().reverse()
            } else {
                Seq::<HookRecord>::empty()
            },
    {
        if !self.registered {
            return Vec::new();
        }
        self.registered = false;
        let mut handed: Vec<HookRecord> = Vec::new();
        let n = self.records.len();
        let mut i: usize = 0;
        while i < n
            invariant
                n == self.records@.len(),
                i <= n,
                handed@.len() == i,
                forall|j: int| 0 <= j < i ==> handed@[j] == self.records@[n - 1 - j],
            decreases n - i,
        {
            handed.push(self.records[n - 1 - i]);
            i += 1;
        }
        assert(handed@ =~= self.records@.reverse());
        handed
    }
}

} // verus!
