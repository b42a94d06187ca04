//! Control plane: the per-run control state, the polling decisions
//! derived from it, and the registry that holds at most one control
//! bus per profile id.

use vstd::prelude::*;

verus! {

/// The operator-visible control state of a run.
#[derive(Debug, Clone, Copy, PartialEq, Eq, Structural)]
pub enum MaintenanceControl {
    Running,
    Paused,
    SkipDatabase,
    Stop,
}

/// What a worker does after observing the control state.
#[derive(Debug, Clone, Copy, PartialEq, Eq, Structural)]
pub enum ControlCheck {
    /// Running: go on with the current unit of work.
    Proceed,
    /// Paused: sleep this many milliseconds, then observe again.
    Wait { poll_ms: u64 },
    /// Stop or SkipDatabase: leave the current loop.
    Interrupt { control: MaintenanceControl },
}

/// The polling decision for one observed control state.  Paused is
/// polled at a coarse 150 ms; Stop and SkipDatabase interrupt.
pub fn check_control(control: MaintenanceControl) -> (r: ControlCheck)
    ensures
        control == MaintenanceControl::Running ==> r == ControlCheck::Proceed,
        control == MaintenanceControl::Paused ==> r == (ControlCheck::Wait { poll_ms: 150 }),
        control == MaintenanceControl::Stop || control == MaintenanceControl::SkipDatabase
            ==> r == (ControlCheck::Interrupt { control }),
{
    match control {
        MaintenanceControl::Running => ControlCheck::Proceed,
        MaintenanceControl::Paused => ControlCheck::Wait { poll_ms: 150 },
        MaintenanceControl::Stop => ControlCheck::Interrupt { control: MaintenanceControl::Stop },
        MaintenanceControl::SkipDatabase => ControlCheck::Interrupt {
            control: MaintenanceControl::SkipDatabase,
        },
    }
}

/// The length of the next chunk of an interruptible sleep: at most
/// 100 ms at a time, so control signals are noticed promptly.
pub fn wait_chunk_ms(remaining_ms: u64) -> (chunk: u64)
    ensures
        chunk == if remaining_ms < 100 {
            remaining_ms
        } else {
            100u64
        },
{
    if remaining_ms < 100 {
        remaining_ms
    } else {
        100
    }
}

/// How many entries of the registry carry this id.
pub open spec fn count_matching<T>(entries: Seq<(String, T)>, id: Seq<char>) -> nat
    decreases entries.len(),
{
    if entries.len() == 0 {
        0
    } else {
        (if entries[0].0@ == id {
            1nat
        } else {
            0nat
        }) + count_matching(entries.drop_first(), id)
    }
}

/// The registry of active control buses, one per profile id.  The
/// payload type is the caller's handle for the bus (for example a
/// channel sender); the registry itself only guarantees that no
/// profile id ever has two buses.
pub struct ControlRegistry<T> {
    entries: Vec<(String, T)>,
}

impl<T> ControlRegistry<T> {
    /// No two entries share a profile id.
    pub closed spec fn wf(self) -> bool {
        forall|i: int, j: int|
            0 <= i < j < self.entries@.len() ==> self.entries@[i].0@ != self.entries@[j].0@
    }

    /// A bus is registered under this id.
    pub closed spec fn has(self, id: Seq<char>) -> bool {
        exists|i: int| 0 <= i < self.entries@.len() && self.entries@[i].0@ == id
    }

    /// The number of buses registered under this id.
    pub closed spec fn bus_count(self, id: Seq<char>) -> nat {
        count_matching(self.entries@, id)
    }

    /// The bus registered under this id (meaningful only when
    /// `has(id)`).
    pub closed spec fn get_spec(self, id: Seq<char>) -> T {
        self.entries@[choose|i: int|
            0 <= i < self.entries@.len() && self.entries@[i].0@ == id].1
    }

    pub fn new() -> (r: Self)
        ensures
            r.wf(),
            forall|id: Seq<char>| !r.has(id),
    {
        ControlRegistry { entries: Vec::new() }
    }

    fn find_index(&self, id: &String) -> (r: Option<usize>)
        ensures
            match r {
                Some(i) => i < self.entries@.len() && self.entries@[i as int].0@ == id@,
                None => !self.has(id@),
            },
    {
        let n = self.entries.len();
        let mut i: usize = 0;
        while i < n
            invariant
                i <= n,
                n == self.entries@.len(),
                forall|j: int| 0 <= j < i ==> self.entries@[j].0@ != id@,
            decreases n - i,
        {
            if self.entries[i].0 == *id {
                return Some(i);
            }
            i += 1;
        }
        None
    }

    /// Look up the bus for a profile id.
    pub fn lookup(&self, id: &String) -> (r: Option<&T>)
        requires
            self.wf(),
        ensures
            match r {
                Some(v) => self.has(id@) && *v == self.get_spec(id@),
                None => !self.has(id@),
            },
    {
        match self.find_index(id) {
            Some(i) => {
                proof {
                    self.lemma_get_at(i as int, id@);
                }
                Some(&self.entries[i].1)
            },
            None => None,
        }
    }

    proof fn lemma_get_at(self, i: int, id: Seq<char>)
        requires
            self.wf(),
            0 <= i < self.entries@.len(),
            self.entries@[i].0@ == id,
        ensures
            self.has(id),
            self.get_spec(id) == self.entries@[i].1,
    {
        assert(self.has(id));
        let w = choose|j: int|
            0 <= j < self.entries@.len() && self.entries@[j].0@ == id;
        if w != i {
            assert(false);
        }
    }

    /// Register a bus for a profile id; refused when one is already
    /// registered.  When refused the registry is unchanged.
    pub fn insert(&mut self, id: &String, value: T) -> (ok: bool)
        requires
            old(self).wf(),
        ensures
            final(self).wf(),
            ok == !old(self).has(id@),
            !ok ==> *final(self) == *old(self),
            ok ==> final(self).has(id@) && final(self).get_spec(id@) == value,
            forall|other: Seq<char>|
                other != id@ ==> final(self).has(other) == old(self).has(other),
            forall|other: Seq<char>|
                other != id@ && old(self).has(other) ==> final(self).get_spec(other) == old(
                    self,
                ).get_spec(other),
    {
        match self.find_index(id) {
            Some(_) => false,
            None => {
                let ghost pre = self.entries@;
                let id_copy = id.clone();
                assert(id_copy@ == id@);
                self.entries.push((id_copy, value));
                proof {
                    let n = pre.len() as int;
                    assert(self.entries@ =~= pre.push((id_copy, value)));
                    assert(self.entries@[n].0@ == id@);
                    assert(forall|j: int| 0 <= j < n ==> self.entries@[j] == pre[j]);
                    assert(self.wf());
                    self.lemma_get_at(n, id@);
                    assert forall|other: Seq<char>|
                        other != id@ && old(self).has(other) implies self.has(other) && self.get_spec(
                        other,
                    ) == old(self).get_spec(other) by {
                        let w = choose|j: int| 0 <= j < pre.len() && pre[j].0@ == other;
                        self.lemma_get_at(w, other);
                        old(self).lemma_get_at(w, other);
                    }
                    assert forall|other: Seq<char>|
                        other != id@ && self.has(other) implies old(self).has(other) by {
                        let w = choose|j: int|
                            0 <= j < self.entries@.len() && self.entries@[j].0@ == other;
                        assert(w != n);
                        assert(pre[w].0@ == other);
                    }
                }
                true
            },
        }
    }

    /// Remove the bus for a profile id, if any; other entries are
    /// untouched.
    pub fn remove(&mut self, id: &String)
        requires
            old(self).wf(),
        ensures
            final(self).wf(),
            !final(self).has(id@),
            forall|other: Seq<char>|
                other != id@ ==> final(self).has(other) == old(self).has(other),
            forall|other: Seq<char>|
                other != id@ && old(self).has(other) ==> final(self).get_spec(other) == old(
                    self,
                ).get_spec(other),
    {
        match self.find_index(id) {
            None => {
            },
            Some(i) => {
                let ghost pre = self.entries@;
                self.entries.remove(i);
                proof {
                    assert(self.entries@ =~= pre.remove(i as int));
                    assert(forall|j: int|
                        0 <= j < i ==> self.entries@[j] == pre[j]);
                    assert(forall|j: int|
                        i <= j < self.entries@.len() ==> self.entries@[j] == pre[j + 1]);
                    assert(self.wf());
                    assert forall|k: int|
                        0 <= k < self.entries@.len() implies self.entries@[k].0@ != id@ by {
                        if k < i {
                            assert(pre[k].0@ != pre[i as int].0@);
                        } else {
                            assert(pre[k + 1].0@ != pre[i as int].0@);
                        }
                    }
                    assert forall|other: Seq<char>|
                        other != id@ && old(self).has(other) implies self.has(other) && self.get_spec(
                        other,
                    ) == old(self).get_spec(other) by {
                        let w = choose|j: int| 0 <= j < pre.len() && pre[j].0@ == other;
                        assert(w != i);
                        if w < i {
                            self.lemma_get_at(w, other);
                        } else {
                            assert(self.entries@[w - 1] == pre[w]);
                            self.lemma_get_at(w - 1, other);
                        }
                        old(self).lemma_get_at(w, other);
                    }
                    assert forall|other: Seq<char>|
                        other != id@ && self.has(other) implies old(self).has(other) by {
                        let w = choose|j: int|
                            0 <= j < self.entries@.len() && self.entries@[j].0@ == other;
                        if w < i {
                            assert(pre[w].0@ == other);
                        } else {
                            assert(pre[w + 1].0@ == other);
                        }
                    }
                }
            },
        }
    }

    proof fn lemma_count_matching_bound(entries: Seq<(String, T)>, id: Seq<char>)
        requires
            forall|i: int, j: int| 0 <= i < j < entries.len() ==> entries[i].0@ != entries[j].0@,
        ensures
            count_matching(entries, id) <= 1,
        decreases entries.len(),
    {
        if entries.len() > 0 {
            let rest = entries.drop_first();
            assert(forall|i: int, j: int|
                0 <= i < j < rest.len() ==> rest[i] == entries[i + 1] && rest[j] == entries[j + 1]);
            Self::lemma_count_matching_bound(rest, id);
            if entries[0].0@ == id {
                Self::lemma_count_not_present(rest, id);
            }
        }
    }

    proof fn lemma_count_not_present(entries: Seq<(String, T)>, id: Seq<char>)
        requires
            forall|i: int| 0 <= i < entries.len() ==> entries[i].0@ != id,
        ensures
            count_matching(entries, id) == 0,
        decreases entries.len(),
    {
        if entries.len() > 0 {
            let rest = entries.drop_first();
            assert(forall|i: int| 0 <= i < rest.len() ==> rest[i] == entries[i + 1]);
            Self::lemma_count_not_present(rest, id);
        }
    }

    /// A well-formed registry never holds two buses for one profile
    /// id: every operation above keeps `wf`, so this holds at any
    /// time.
    pub proof fn lemma_at_most_one_bus(self, id: Seq<char>)
        requires
            self.wf(),
        ensures
            self.bus_count(id) <= 1,
    {
        Self::lemma_count_matching_bound(self.entries@, id);
    }
}

} // verus!
