//! The shared counter registry: one counter per task plus the shared error
//! counter, registered once at startup, incremented by the polling loops,
//! and read whole for exposition.

use vstd::prelude::*;

verus! {

/// One static label attached to a counter, such as the task's period or
/// environment.
pub struct Label {
    pub key: String,
    pub value: String,
}

/// One registered counter: its exported name, its help text, its static
/// labels, and its current value. The value only ever grows (saturating at
/// the top of the range) and is reset only by a process restart.
pub struct CounterEntry {
    pub name: String,
    pub help: String,
    pub labels: Vec<Label>,
    pub value: u64,
}

/// Why a registration was refused.
#[derive(Debug, PartialEq, Eq, Structural, Clone, Copy)]
pub enum RegistryError {
    /// A counter with the same name is already registered; two tasks sharing
    /// a metric name is a fatal configuration mistake.
    DuplicateName,
}

/// The set of all counters, in registration order. Registration happens only
/// during startup, before any polling begins; afterwards the entry set is
/// fixed and only the values change.
pub struct Registry {
    pub entries: Vec<CounterEntry>,
}

/// Addition capped at the top of the counter range.
pub open spec fn sat_add(a: u64, b: u64) -> u64 {
    if a + b <= u64::MAX {
        (a + b) as u64
    } else {
        u64::MAX
    }
}

/// The entry with its value replaced and everything else kept.
pub open spec fn with_value(e: CounterEntry, v: u64) -> CounterEntry {
    CounterEntry { value: v, ..e }
}

/// Whether some entry already carries this name.
pub open spec fn has_name(entries: Seq<CounterEntry>, name: Seq<char>) -> bool {
    exists|i: int| 0 <= i < entries.len() && entries[i].name@ == name
}

/// Whether every counter still reads zero, as all do before the first poll.
pub open spec fn all_zero(entries: Seq<CounterEntry>) -> bool {
    forall|i: int| 0 <= i < entries.len() ==> entries[i].value == 0
}

impl Registry {
    /// An empty registry, as the process starts with.
    pub fn new() -> (r: Registry)
        ensures
            r.entries@ == Seq::<CounterEntry>::empty(),
    {
        Registry { entries: Vec::new() }
    }

    /// How many counters are registered.
    pub fn len(&self) -> (r: usize)
        ensures
            r == self.entries@.len(),
    {
        self.entries.len()
    }

    /// Registers a new counter at value zero and hands back its handle.
    /// A name already in use is refused, and the registry is left unchanged:
    /// duplicate metric names would silently merge two tasks' series.
    pub fn register(&mut self, name: String, help: String, labels: Vec<Label>) -> (r: Result<
        usize,
        RegistryError,
    >)
        ensures
            match r {
                Ok(h) => !has_name(old(self).entries@, name@) && h == old(self).entries@.len()
                    && final(self).entries@ == old(self).entries@.push(
                    (CounterEntry { name, help, labels, value: 0u64 }),
                ),
                Err(e) => e == RegistryError::DuplicateName && has_name(old(self).entries@, name@)
                    && *final(self) == *old(self),
            },
    {
        let mut i: usize = 0;
        while i < self.entries.len()
            invariant
                i <= self.entries@.len(),
                *self == *old(self),
                forall|k: int| 0 <= k < i ==> old(self).entries@[k].name@ != name@,
            decreases self.entries@.len() - i,
        {
            if self.entries[i].name == name {
                return Err(RegistryError::DuplicateName);
            }
            i = i + 1;
        }
        let h = self.entries.len();
        self.entries.push(CounterEntry { name, help, labels, value: 0 });
        Ok(h)
    }

    /// A point-in-time copy of every counter — name, help text, labels and
    /// current value, in registration order. Taken whole, a snapshot never
    /// races a registration; each value is the counter's at the moment of
    /// the read.
    pub fn snapshot(&self) -> (r: Vec<CounterEntry>)
        ensures
            r@.len() == self.entries@.len(),
            forall|i: int|
                0 <= i < self.entries@.len() ==> {
                    &&& #[trigger] r@[i].name@ == self.entries@[i].name@
                    &&& r@[i].help@ == self.entries@[i].help@
                    &&& r@[i].labels@ == self.entries@[i].labels@
                    &&& r@[i].value == self.entries@[i].value
                },
    {
        let mut r: Vec<CounterEntry> = Vec::new();
        let mut i: usize = 0;
        while i < self.entries.len()
            invariant
                i <= self.entries@.len(),
                r@.len() == i,
                forall|k: int|
                    0 <= k < i ==> {
                        &&& #[trigger] r@[k].name@ == self.entries@[k].name@
                        &&& r@[k].help@ == self.entries@[k].help@
                        &&& r@[k].labels@ == self.entries@[k].labels@
                        &&& r@[k].value == self.entries@[k].value
                    },
            decreases self.entries@.len() - i,
        {
            let e = &self.entries[i];
            r.push(
                CounterEntry {
                    name: e.name.clone(),
                    help: e.help.clone(),
                    labels: clone_labels(&e.labels),
                    value: e.value,
                },
            );
            i = i + 1;
        }
        r
    }

    /// Adds `amount` to the counter behind `handle`, capping at the top of
    /// the range; every other entry, and the entry's own identity, is left
    /// exactly as it was.
    pub fn increment(&mut self, handle: usize, amount: u64)
        requires
            handle < old(self).entries@.len(),
        ensures
            final(self).entries@ == old(self).entries@.update(
                handle as int,
                with_value(
                    old(self).entries@[handle as int],
                    sat_add(old(self).entries@[handle as int].value, amount),
                ),
            ),
    {
        let v = self.entries[handle].value;
        self.entries[handle].value = v.saturating_add(amount);
        proof {
            assert(final(self).entries@ =~= old(self).entries@.update(
                handle as int,
                with_value(
                    old(self).entries@[handle as int],
                    sat_add(old(self).entries@[handle as int].value, amount),
                ),
            ));
        }
    }
}

/// Clones a label list; the clone reads exactly as the original.
fn clone_labels(labels: &Vec<Label>) -> (r: Vec<Label>)
    ensures
        r@ == labels@,
{
    let mut r: Vec<Label> = Vec::new();
    let mut i: usize = 0;
    while i < labels.len()
        invariant
            i <= labels@.len(),
            r@ == labels@.take(i as int),
        decreases labels@.len() - i,
    {
        r.push(Label { key: labels[i].key.clone(), value: labels[i].value.clone() });
        proof {
            assert(r@ =~= labels@.take(i as int + 1));
        }
        i = i + 1;
    }
    proof {
        assert(labels@.take(labels@.len() as int) =~= labels@);
    }
    r
}

/// Law (snapshot completeness): a registration adds exactly one entry, at
/// value zero; so a registry that has only ever been registered into — the
/// error counter plus one counter per task, before any poll runs — snapshots
/// to exactly one entry per registration, every one of them zero.
pub proof fn lemma_snapshot_completeness(entries: Seq<CounterEntry>, e: CounterEntry)
    requires
        all_zero(entries),
        e.value == 0,
    ensures
        all_zero(entries.push(e)),
        entries.push(e).len() == entries.len() + 1,
{
    assert forall|i: int| 0 <= i < entries.push(e).len() implies entries.push(e)[i].value == 0 by {
        if i < entries.len() {
            assert(entries.push(e)[i] == entries[i]);
        }
    }
}

/// The counter value after `n` further increments of `amount` each.
pub open spec fn value_after_increments(v0: u64, n: nat, amount: u64) -> u64
    decreases n,
{
    if n == 0 {
        v0
    } else {
        sat_add(value_after_increments(v0, (n - 1) as nat, amount), amount)
    }
}

/// Law (increment safety): `n` increments of `amount` raise a counter from
/// `v0` to exactly `v0 + n * amount` while that total stays in range — no
/// update is lost. Each increment is one atomic step over the registry, so
/// this covers any interleaving of `n` concurrent callers.
pub proof fn lemma_increments_accumulate(v0: u64, n: nat, amount: u64)
    requires
        v0 + n * amount <= u64::MAX,
    ensures
        value_after_increments(v0, n, amount) == v0 + n * amount,
    decreases n,
{
    if n == 0 {
        assert(n * amount == 0) by (nonlinear_arith)
            requires
                n == 0,
        ;
    } else {
        assert(n * amount == (n - 1) * amount + amount) by (nonlinear_arith)
            requires
                n >= 1,
        ;
        assert((n - 1) * amount >= 0) by (nonlinear_arith)
            requires
                n >= 1,
        ;
        lemma_increments_accumulate(v0, (n - 1) as nat, amount);
        assert(value_after_increments(v0, n, amount) == sat_add(
            value_after_increments(v0, (n - 1) as nat, amount),
            amount,
        ));
    }
}

} // verus!
