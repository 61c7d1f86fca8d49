//! The registry of function hooks installed in the host.
//!
//! The interception library owns the machine-code patch at each target
//! address; the registry owns the bookkeeping: which targets are hooked, the
//! replacement installed on each, and the trampoline through which the
//! replaced function can still be called. Every change goes in two steps:
//! a `check_*` call says whether the change is allowed, the caller asks the
//! interception library to make it, and a `record_*` call takes the
//! library's answer and updates the table to match.
use vstd::prelude::*;

use crate::address::Ptr;

verus! {

/// Whether an installed hook redirects its target.
#[derive(Clone, Copy, Debug, PartialEq, Eq, Structural)]
pub enum HookState {
    /// The patch is in place but not in effect.
    Installed,
    /// Calls to the target run the replacement.
    Active,
}

/// What the registry keeps for one hooked target.
#[derive(Clone, Copy, Debug, PartialEq, Eq, Structural)]
pub struct HookRecord {
    /// The replacement function.
    pub detour: Ptr,
    /// The stub that runs the displaced original code.
    pub trampoline: Ptr,
    pub state: HookState,
}

/// Why a hook could not be created, removed, enabled or disabled.
#[derive(Clone, Copy, Debug, PartialEq, Eq, Structural)]
pub enum HookError {
    /// The target is already hooked.
    AlreadyCreated,
    /// The target is not hooked.
    NotCreated,
    /// The interception library refused, with this status code.
    Backend(i32),
}

/// The table after hooking `target` with `detour`, the library having
/// answered `outcome` (the trampoline, or its status code).
pub open spec fn after_create(
    m: Map<Ptr, HookRecord>,
    target: Ptr,
    detour: Ptr,
    outcome: Result<Ptr, i32>,
) -> Map<Ptr, HookRecord> {
    if !m.dom().contains(target) && outcome is Ok {
        m.insert(
            target,
            HookRecord { detour, trampoline: outcome->Ok_0, state: HookState::Installed },
        )
    } else {
        m
    }
}

/// What creating a hook on `target` reports.
pub open spec fn create_result(m: Map<Ptr, HookRecord>, target: Ptr, outcome: Result<Ptr, i32>) -> Result<
    Ptr,
    HookError,
> {
    if m.dom().contains(target) {
        Err(HookError::AlreadyCreated)
    } else {
        match outcome {
            Ok(t) => Ok(t),
            Err(c) => Err(HookError::Backend(c)),
        }
    }
}

/// The table after removing the hook on `target`, the library having
/// answered `outcome`.
pub open spec fn after_remove(m: Map<Ptr, HookRecord>, target: Ptr, outcome: Result<(), i32>) -> Map<
    Ptr,
    HookRecord,
> {
    if m.dom().contains(target) && outcome is Ok {
        m.remove(target)
    } else {
        m
    }
}

/// What removing the hook on `target` reports.
pub open spec fn remove_result(m: Map<Ptr, HookRecord>, target: Ptr, outcome: Result<(), i32>) -> Result<
    (),
    HookError,
> {
    if !m.dom().contains(target) {
        Err(HookError::NotCreated)
    } else {
        match outcome {
            Ok(()) => Ok(()),
            Err(c) => Err(HookError::Backend(c)),
        }
    }
}

/// Every hook of `m` put in the state `s`.
pub open spec fn with_state(m: Map<Ptr, HookRecord>, s: HookState) -> Map<Ptr, HookRecord> {
    Map::new(|t: Ptr| m.dom().contains(t), |t: Ptr| HookRecord { state: s, ..m[t] })
}

/// The table after switching every hook to `s`, the library having answered
/// `outcome`.
pub open spec fn after_switch_all(m: Map<Ptr, HookRecord>, s: HookState, outcome: Result<(), i32>) -> Map<
    Ptr,
    HookRecord,
> {
    if outcome is Ok {
        with_state(m, s)
    } else {
        m
    }
}

/// What switching every hook reports.
pub open spec fn switch_result(outcome: Result<(), i32>) -> Result<(), HookError> {
    match outcome {
        Ok(()) => Ok(()),
        Err(c) => Err(HookError::Backend(c)),
    }
}

/// Creating a hook on a target that has none installs it, inactive; creating
/// another on the same target, with no removal between, is refused whatever
/// the library would answer, and leaves the table as it was. So a target has
/// at most one hook at a time.
pub proof fn lemma_create_is_exclusive(
    m: Map<Ptr, HookRecord>,
    target: Ptr,
    detour: Ptr,
    trampoline: Ptr,
    detour2: Ptr,
    outcome2: Result<Ptr, i32>,
)
    requires
        !m.dom().contains(target),
    ensures
        create_result(m, target, Ok(trampoline)) == Ok::<Ptr, HookError>(trampoline),
        after_create(m, target, detour, Ok(trampoline)).dom().contains(target),
        after_create(m, target, detour, Ok(trampoline))[target] == (HookRecord {
            detour,
            trampoline,
            state: HookState::Installed,
        }),
        create_result(after_create(m, target, detour, Ok(trampoline)), target, outcome2) == Err::<
            Ptr,
            HookError,
        >(HookError::AlreadyCreated),
        after_create(after_create(m, target, detour, Ok(trampoline)), target, detour2, outcome2)
            == after_create(m, target, detour, Ok(trampoline)),
{
}

/// Enabling every hook and then disabling every hook, both accepted by the
/// library, keeps the same hooked targets and leaves each hook that was
/// installed but inactive before exactly as it was.
pub proof fn lemma_enable_then_disable(m: Map<Ptr, HookRecord>)
    ensures
        after_switch_all(after_switch_all(m, HookState::Active, Ok(())), HookState::Installed, Ok(()),).dom()
            == m.dom(),
        forall|t: Ptr|
            #![trigger m[t]]
            m.dom().contains(t) && m[t].state == HookState::Installed ==> after_switch_all(
                after_switch_all(m, HookState::Active, Ok(())),
                HookState::Installed,
                Ok(()),
            )[t] == m[t],
{
    let r = after_switch_all(after_switch_all(m, HookState::Active, Ok(())), HookState::Installed, Ok(()));
    assert(r.dom() =~= m.dom());
}

/// Removing the hook of a target that has none is refused and changes
/// nothing; removing an installed hook, accepted by the library, succeeds,
/// and a new hook can then be created on the same target.
pub proof fn lemma_remove_then_create(
    m: Map<Ptr, HookRecord>,
    target: Ptr,
    outcome: Result<(), i32>,
    detour: Ptr,
    trampoline: Ptr,
)
    ensures
        !m.dom().contains(target) ==> remove_result(m, target, outcome) == Err::<(), HookError>(
            HookError::NotCreated,
        ) && after_remove(m, target, outcome) == m,
        m.dom().contains(target) ==> {
            let removed = after_remove(m, target, Ok(()));
            &&& remove_result(m, target, Ok(())) == Ok::<(), HookError>(())
            &&& !removed.dom().contains(target)
            &&& create_result(removed, target, Ok(trampoline)) == Ok::<Ptr, HookError>(trampoline)
            &&& after_create(removed, target, detour, Ok(trampoline))[target] == (HookRecord {
                detour,
                trampoline,
                state: HookState::Installed,
            })
        },
{
}

/// One row of the table.
#[derive(Clone, Copy, Debug)]
struct HookEntry {
    target: Ptr,
    record: HookRecord,
}

/// The hooks installed in the host, each keyed by its target address.
pub struct HookRegistry {
    entries: Vec<HookEntry>,
    table: Ghost<Map<Ptr, HookRecord>>,
}

impl View for HookRegistry {
    type V = Map<Ptr, HookRecord>;

    closed spec fn view(&self) -> Map<Ptr, HookRecord> {
        self.table@
    }
}

impl HookRegistry {
    /// The rows agree with the table, one row per hooked target.
    pub closed spec fn wf(&self) -> bool {
        &&& forall|i: int, j: int|
            0 <= i < j < self.entries@.len() ==> self.entries@[i].target
                != self.entries@[j].target
        &&& forall|i: int|
            0 <= i < self.entries@.len() ==> {
                &&& self.table@.dom().contains(#[trigger] self.entries@[i].target)
                &&& self.table@[self.entries@[i].target] == self.entries@[i].record
            }
        &&& forall|t: Ptr|
            #[trigger] self.table@.dom().contains(t) ==> exists|i: int|
                0 <= i < self.entries@.len() && self.entries@[i].target == t
    }

    /// A registry with no hooks.
    pub fn new() -> (r: HookRegistry)
        ensures
            r.wf(),
            r@ == Map::<Ptr, HookRecord>::empty(),
    {
        HookRegistry { entries: Vec::new(), table: Ghost(Map::empty()) }
    }

    /// The number of hooked targets.
    pub fn len(&self) -> (r: usize)
        requires
            self.wf(),
        ensures
            r == self@.len(),
    {
        proof {
            self.lemma_len();
        }
        self.entries.len()
    }

    proof fn lemma_len(&self)
        requires
            self.wf(),
        ensures
            self@.dom().finite(),
            self@.len() == self.entries@.len(),
    {
        let targets = Seq::new(self.entries@.len(), |i: int| self.entries@[i].target);
        assert(targets.no_duplicates());
        assert(self.table@.dom() =~= targets.to_set()) by {
            assert forall|t: Ptr| self.table@.dom().contains(t) implies targets.contains(t) by {
                let i = choose|i: int| 0 <= i < self.entries@.len() && self.entries@[i].target == t;
                assert(targets[i] == t);
            }
        }
        targets.unique_seq_to_set();
    }

    /// The row that holds `target`, if any.
    fn find(&self, target: Ptr) -> (r: Option<usize>)
        requires
            self.wf(),
        ensures
            r matches Some(i) ==> i < self.entries@.len() && self.entries@[i as int].target
                == target,
            r is Some <==> self@.dom().contains(target),
    {
        let mut i: usize = 0;
        while i < self.entries.len()
            invariant
                self.wf(),
                i <= self.entries@.len(),
                forall|k: int| 0 <= k < i ==> self.entries@[k].target != target,
            decreases self.entries@.len() - i,
        {
            if self.entries[i].target == target {
                return Some(i);
            }
            i = i + 1;
        }
        None
    }

    /// Whether `target` is hooked.
    pub fn contains(&self, target: Ptr) -> (r: bool)
        requires
            self.wf(),
        ensures
            r == self@.dom().contains(target),
    {
        self.find(target).is_some()
    }

    /// What the registry keeps for `target`, if it is hooked.
    pub fn get(&self, target: Ptr) -> (r: Option<HookRecord>)
        requires
            self.wf(),
        ensures
            r == (if self@.dom().contains(target) {
                Some(self@[target])
            } else {
                None
            }),
    {
        match self.find(target) {
            Some(i) => Some(self.entries[i].record),
            None => None,
        }
    }

    /// The trampoline through which the function hooked at `target` can
    /// still be called.
    pub fn original(&self, target: Ptr) -> (r: Option<Ptr>)
        requires
            self.wf(),
        ensures
            r == (if self@.dom().contains(target) {
                Some(self@[target].trampoline)
            } else {
                None
            }),
    {
        match self.find(target) {
            Some(i) => Some(self.entries[i].record.trampoline),
            None => None,
        }
    }

    /// Whether a hook may be created on `target`: not while one is there.
    pub fn check_create(&self, target: Ptr) -> (r: Result<(), HookError>)
        requires
            self.wf(),
        ensures
            r == (if self@.dom().contains(target) {
                Err(HookError::AlreadyCreated)
            } else {
                Ok(())
            }),
    {
        if self.contains(target) {
            Err(HookError::AlreadyCreated)
        } else {
            Ok(())
        }
    }

    /// Records a hook on `target` running `detour`, the library having
    /// answered `outcome`: the trampoline, or its status code. The new hook
    /// is installed, not yet active.
    pub fn record_create(&mut self, target: Ptr, detour: Ptr, outcome: Result<Ptr, i32>) -> (r:
        Result<Ptr, HookError>)
        requires
            old(self).wf(),
        ensures
            final(self).wf(),
            final(self)@ == after_create(old(self)@, target, detour, outcome),
            r == create_result(old(self)@, target, outcome),
    {
        if self.contains(target) {
            return Err(HookError::AlreadyCreated);
        }
        match outcome {
            Ok(trampoline) => {
                let record = HookRecord { detour, trampoline, state: HookState::Installed };
                let ghost before = self.entries@;
                self.entries.push(HookEntry { target, record });
                self.table = Ghost(self.table@.insert(target, record));
                proof {
                    assert forall|t: Ptr| #[trigger] self.table@.dom().contains(t) implies exists|
                        i: int,
                    |
                        0 <= i < self.entries@.len() && self.entries@[i].target == t by {
                        if t == target {
                            assert(self.entries@[before.len() as int].target == t);
                        } else {
                            let i = choose|i: int|
                                0 <= i < before.len() && before[i].target == t;
                            assert(self.entries@[i].target == t);
                        }
                    }
                }
                Ok(trampoline)
            },
            Err(code) => Err(HookError::Backend(code)),
        }
    }

    /// Whether the hook on `target` may be removed: only if there is one.
    pub fn check_remove(&self, target: Ptr) -> (r: Result<(), HookError>)
        requires
            self.wf(),
        ensures
            r == (if self@.dom().contains(target) {
                Ok(())
            } else {
                Err(HookError::NotCreated)
            }),
    {
        if self.contains(target) {
            Ok(())
        } else {
            Err(HookError::NotCreated)
        }
    }

    /// Records the removal of the hook on `target`, the library having
    /// answered `outcome`.
    pub fn record_remove(&mut self, target: Ptr, outcome: Result<(), i32>) -> (r: Result<
        (),
        HookError,
    >)
        requires
            old(self).wf(),
        ensures
            final(self).wf(),
            final(self)@ == after_remove(old(self)@, target, outcome),
            r == remove_result(old(self)@, target, outcome),
    {
        let i = match self.find(target) {
            Some(i) => i,
            None => {
                return Err(HookError::NotCreated);
            },
        };
        match outcome {
            Ok(()) => {
                let ghost before = self.entries@;
                self.entries.remove(i);
                self.table = Ghost(self.table@.remove(target));
                proof {
                    assert(self.entries@ =~= before.remove(i as int));
                    assert forall|k: int|
                        0 <= k < self.entries@.len() implies {
                        &&& self.table@.dom().contains(#[trigger] self.entries@[k].target)
                        &&& self.table@[self.entries@[k].target] == self.entries@[k].record
                    } by {
                        if k < i {
                            assert(self.entries@[k] == before[k]);
                        } else {
                            assert(self.entries@[k] == before[k + 1]);
                        }
                    }
                    assert forall|t: Ptr| #[trigger] self.table@.dom().contains(t) implies exists|
                        k: int,
                    |
                        0 <= k < self.entries@.len() && self.entries@[k].target == t by {
                        let j = choose|j: int| 0 <= j < before.len() && before[j].target == t;
                        if j < i {
                            assert(self.entries@[j].target == t);
                        } else {
                            assert(self.entries@[j - 1].target == t);
                        }
                    }
                }
                Ok(())
            },
            Err(code) => Err(HookError::Backend(code)),
        }
    }

    /// Puts every hook in the state `s`.
    fn set_all(&mut self, s: HookState)
        requires
            old(self).wf(),
        ensures
            final(self).wf(),
            final(self)@ == with_state(old(self)@, s),
    {
        let ghost before = self.entries@;
        let mut i: usize = 0;
        while i < self.entries.len()
            invariant
                old(self).wf(),
                self.table@ == old(self).table@,
                before == old(self).entries@,
                self.entries@.len() == before.len(),
                i <= before.len(),
                forall|k: int| 0 <= k < before.len() ==> #[trigger] self.entries@[k].target == before[k].target,
                forall|k: int|
                    0 <= k < i ==> #[trigger] self.entries@[k].record == (HookRecord {
                        state: s,
                        ..before[k].record
                    }),
                forall|k: int| i <= k < before.len() ==> #[trigger] self.entries@[k] == before[k],
            decreases before.len() - i,
        {
            let e = self.entries[i];
            let record = HookRecord { state: s, ..e.record };
            self.entries.set(i, HookEntry { target: e.target, record });
            i = i + 1;
        }
        self.table = Ghost(with_state(self.table@, s));
        proof {
            assert forall|k: int|
                0 <= k < self.entries@.len() implies {
                &&& self.table@.dom().contains(#[trigger] self.entries@[k].target)
                &&& self.table@[self.entries@[k].target] == self.entries@[k].record
            } by {
                assert(self.entries@[k].target == before[k].target);
            }
            assert forall|t: Ptr| #[trigger] self.table@.dom().contains(t) implies exists|k: int|
                0 <= k < self.entries@.len() && self.entries@[k].target == t by {
                assert(old(self).table@.dom().contains(t));
                let j = choose|j: int| 0 <= j < before.len() && before[j].target == t;
                assert(self.entries@[j].target == t);
            }
        }
    }

    /// Records the answer of the library to enabling every hook: on success
    /// every hook is active; on failure the table is left as it was.
    pub fn record_enable_all(&mut self, outcome: Result<(), i32>) -> (r: Result<(), HookError>)
        requires
            old(self).wf(),
        ensures
            final(self).wf(),
            final(self)@ == after_switch_all(old(self)@, HookState::Active, outcome),
            r == switch_result(outcome),
    {
        match outcome {
            Ok(()) => {
                self.set_all(HookState::Active);
                Ok(())
            },
            Err(code) => Err(HookError::Backend(code)),
        }
    }

    /// Records the answer of the library to disabling every hook: on success
    /// every hook is installed but inactive; on failure the table is left as
    /// it was.
    pub fn record_disable_all(&mut self, outcome: Result<(), i32>) -> (r: Result<(), HookError>)
        requires
            old(self).wf(),
        ensures
            final(self).wf(),
            final(self)@ == after_switch_all(old(self)@, HookState::Installed, outcome),
            r == switch_result(outcome),
    {
        match outcome {
            Ok(()) => {
                self.set_all(HookState::Installed);
                Ok(())
            },
            Err(code) => Err(HookError::Backend(code)),
        }
    }
}

} // verus!
