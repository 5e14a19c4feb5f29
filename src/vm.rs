//! The VM registry and its lifecycle state machine.
use vstd::prelude::*;
use crate::error::{AivaError, Result};
use crate::ids::{now_millis, random_uuid, uuid_text, uuid_text_of};
use crate::text::str_eq;
use crate::types::{empty_runtime, is_transitional, RuntimeInfo, VMConfig, VMInstance, VMState};

verus! {

/// Seconds that a platform stop may take before it is abandoned.
pub const STOP_TIMEOUT_SECS: u64 = 30;

/// Whole seconds after its last update past which a transitional VM is stuck.
pub const STUCK_AFTER_SECS: i64 = 120;

/// No two instances share an id.
pub open spec fn ids_unique(s: Seq<VMInstance>) -> bool {
    forall|i: int, j: int| 0 <= i < j < s.len() ==> s[i].id != s[j].id
}

/// Some instance has this id.
pub open spec fn has_id(s: Seq<VMInstance>, id: u128) -> bool {
    exists|i: int| 0 <= i < s.len() && s[i].id == id
}

/// The instance at `i` has this id.
pub open spec fn id_at(s: Seq<VMInstance>, i: int, id: u128) -> bool {
    0 <= i < s.len() && s[i].id == id
}

/// A lifecycle operation that the state machine guards.
#[derive(Clone, Copy, Debug, PartialEq, Eq, Structural)]
pub enum Operation {
    Start,
    Stop,
    Delete,
}

/// The states from which each operation is legal.
pub open spec fn allowed_from(op: Operation, s: VMState) -> bool {
    match op {
        Operation::Start => s == VMState::Stopped,
        Operation::Stop => s == VMState::Running || s == VMState::Paused,
        Operation::Delete => s == VMState::Stopped,
    }
}

/// Debug name of a state, as error messages show it.
pub open spec fn state_label(s: VMState) -> Seq<char> {
    match s {
        VMState::Creating => "Creating"@,
        VMState::Running => "Running"@,
        VMState::Paused => "Paused"@,
        VMState::Stopping => "Stopping"@,
        VMState::Stopped => "Stopped"@,
        VMState::Error => "Error"@,
    }
}

/// The verb of an operation in error messages.
pub open spec fn operation_verb(op: Operation) -> Seq<char> {
    match op {
        Operation::Start => "start"@,
        Operation::Stop => "stop"@,
        Operation::Delete => "delete"@,
    }
}

/// The error for an id that the registry does not hold.
pub open spec fn is_not_found(e: AivaError, id: u128) -> bool {
    &&& e matches AivaError::VMError { vm_name, state, message }
    &&& state == VMState::Stopped
    &&& vm_name@ == uuid_text_of(id)
    &&& message@ == "VM not found"@
}

/// The error for a new id that the registry already holds.
pub open spec fn is_id_clash(e: AivaError, id: u128) -> bool {
    &&& e matches AivaError::VMError { vm_name, state, message }
    &&& vm_name@ == uuid_text_of(id)
    &&& state == VMState::Creating
    &&& message@ == "VM id already in use"@
}

/// `after` is `before` with one new instance `id` in state `Creating`:
/// the given name and configuration, nothing materialized, created and
/// updated at the same moment.
pub open spec fn creating_added(
    before: Seq<VMInstance>,
    after: Seq<VMInstance>,
    id: u128,
    name: String,
    config: VMConfig,
) -> bool {
    &&& after.len() == before.len() + 1
    &&& after.drop_last() == before
    &&& after.last().id == id
    &&& after.last().name == name
    &&& after.last().state == VMState::Creating
    &&& after.last().config == config
    &&& empty_runtime(after.last().runtime)
    &&& after.last().created_at == after.last().updated_at
}

/// The error for an operation refused from state `s`.
pub open spec fn is_refused(e: AivaError, op: Operation, s: VMState) -> bool {
    &&& e is InvalidStateTransition
    &&& e->InvalidStateTransition_0@ == "Cannot "@ + operation_verb(op) + " VM in state "@
        + state_label(s)
}

/// The instance `v` with a new state and update time.
pub open spec fn restamped(v: VMInstance, state: VMState, now: i64) -> VMInstance {
    VMInstance { state, updated_at: now, ..v }
}

/// `after` is `before` with the instance of this id given `state` at `now`.
pub open spec fn state_set(
    before: Seq<VMInstance>,
    after: Seq<VMInstance>,
    id: u128,
    state: VMState,
    now: i64,
) -> bool {
    &&& after.len() == before.len()
    &&& forall|i: int|
        0 <= i < before.len() ==> #[trigger] after[i] == (if before[i].id == id {
            restamped(before[i], state, now)
        } else {
            before[i]
        })
}

/// Milliseconds past which more than 120 whole seconds have elapsed.
pub open spec fn is_stuck(v: VMInstance, now: i64) -> bool {
    is_transitional(v.state) && (now as int) - (v.updated_at as int) >= (STUCK_AFTER_SECS + 1)
        * 1000
}

/// What the stuck-state sweep makes of one instance.
pub open spec fn swept(v: VMInstance, now: i64) -> VMInstance {
    if is_stuck(v, now) {
        restamped(v, VMState::Stopped, now)
    } else {
        v
    }
}

/// The (id, previous state) pairs of the stuck instances, in registry order.
pub open spec fn stuck_pairs(s: Seq<VMInstance>, now: i64) -> Seq<(u128, VMState)>
    decreases s.len(),
{
    if s.len() == 0 {
        Seq::empty()
    } else {
        let rest = stuck_pairs(s.drop_last(), now);
        let v = s.last();
        if is_stuck(v, now) {
            rest.push((v.id, v.state))
        } else {
            rest
        }
    }
}

/// The registry holds the platform's instance `v` under `id`.
pub open spec fn settled_as(s: Seq<VMInstance>, id: u128, v: VMInstance) -> bool {
    &&& has_id(s, id)
    &&& forall|i: int| 0 <= i < s.len() && s[i].id == id ==> s[i] == (VMInstance { id, ..v })
}

/// How a platform stop call ended.
#[derive(Clone, Debug)]
pub enum StopOutcome {
    Completed,
    Failed(AivaError),
    TimedOut,
}

/// The error reported when a stop outlives its bound.
pub open spec fn is_stop_timeout(e: AivaError) -> bool {
    &&& e matches AivaError::PlatformError { platform, message, recoverable }
    &&& platform@ == "timeout"@
    &&& message@ == "VM stop operation timed out after 30 seconds"@
    &&& recoverable
}

/// The authoritative registry of VM instances and its state machine.
///
/// Platform calls happen outside: each operation is checked (and where it
/// says so, begun) here, the caller makes the platform call, and hands the
/// outcome back to the matching completion. The caller persists the
/// registry after each mutating call.
pub struct VMOrchestrator {
    vms: Vec<VMInstance>,
}

impl View for VMOrchestrator {
    type V = Seq<VMInstance>;

    closed spec fn view(&self) -> Seq<VMInstance> {
        self.vms@
    }
}

/// The debug name of a state.
pub fn state_name(s: VMState) -> (r: &'static str)
    ensures
        r@ == state_label(s),
{
    match s {
        VMState::Creating => {
            proof { reveal_strlit("Creating"); }
            "Creating"
        }
        VMState::Running => {
            proof { reveal_strlit("Running"); }
            "Running"
        }
        VMState::Paused => {
            proof { reveal_strlit("Paused"); }
            "Paused"
        }
        VMState::Stopping => {
            proof { reveal_strlit("Stopping"); }
            "Stopping"
        }
        VMState::Stopped => {
            proof { reveal_strlit("Stopped"); }
            "Stopped"
        }
        VMState::Error => {
            proof { reveal_strlit("Error"); }
            "Error"
        }
    }
}

/// Whether `op` may run from state `s`.
pub fn is_allowed(op: Operation, s: VMState) -> (r: bool)
    ensures
        r == allowed_from(op, s),
{
    match op {
        Operation::Start => s == VMState::Stopped,
        Operation::Stop => s == VMState::Running || s == VMState::Paused,
        Operation::Delete => s == VMState::Stopped,
    }
}

/// The error for an id that the registry does not hold.
pub fn not_found(id: u128) -> (e: AivaError)
    ensures
        is_not_found(e, id),
{
    proof { reveal_strlit("VM not found"); }
    AivaError::VMError {
        vm_name: uuid_text(id),
        state: VMState::Stopped,
        message: String::from_str("VM not found"),
    }
}

/// The error for `op` refused from state `s`.
pub fn refused(op: Operation, s: VMState) -> (e: AivaError)
    ensures
        is_refused(e, op, s),
{
    let verb = match op {
        Operation::Start => {
            proof { reveal_strlit("start"); }
            "start"
        }
        Operation::Stop => {
            proof { reveal_strlit("stop"); }
            "stop"
        }
        Operation::Delete => {
            proof { reveal_strlit("delete"); }
            "delete"
        }
    };
    proof {
        reveal_strlit("Cannot ");
        reveal_strlit(" VM in state ");
    }
    let msg = String::from_str("Cannot ").concat(verb).concat(" VM in state ").concat(
        state_name(s),
    );
    AivaError::InvalidStateTransition(msg)
}

/// The error reported when a stop outlives its bound.
pub fn stop_timeout_error() -> (e: AivaError)
    ensures
        is_stop_timeout(e),
{
    proof {
        reveal_strlit("timeout");
        reveal_strlit("VM stop operation timed out after 30 seconds");
    }
    AivaError::PlatformError {
        platform: String::from_str("timeout"),
        message: String::from_str("VM stop operation timed out after 30 seconds"),
        recoverable: true,
    }
}

impl VMOrchestrator {
    /// The registry's invariant: ids are unique.
    pub open spec fn wf(&self) -> bool {
        ids_unique(self@)
    }

    /// An empty registry.
    pub fn new() -> (r: VMOrchestrator)
        ensures
            r@ == Seq::<VMInstance>::empty(),
            r.wf(),
    {
        VMOrchestrator { vms: Vec::new() }
    }

    /// A registry seeded from persisted instances; refused with a
    /// serialization error where two of them share an id.
    pub fn from_instances(vms: Vec<VMInstance>) -> (r: Result<VMOrchestrator>)
        ensures
            r is Ok <==> ids_unique(vms@),
            r matches Ok(o) ==> o@ == vms@ && o.wf(),
            r matches Err(e) ==> e is SerializationError,
    {
        let n = vms.len();
        let mut i: usize = 0;
        while i < n
            invariant
                n == vms@.len(),
                i <= n,
                forall|a: int, b: int| 0 <= a < b < i ==> vms@[a].id != vms@[b].id,
            decreases n - i,
        {
            let mut j: usize = 0;
            while j < i
                invariant
                    n == vms@.len(),
                    j <= i < n,
                    forall|a: int| 0 <= a < j ==> vms@[a].id != vms@[i as int].id,
                decreases i - j,
            {
                if vms[j].id == vms[i].id {
                    proof { reveal_strlit("duplicate instance id"); }
                    return Err(
                        AivaError::SerializationError(String::from_str("duplicate instance id")),
                    );
                }
                j += 1;
            }
            i += 1;
        }
        Ok(VMOrchestrator { vms })
    }

    /// Every instance, in registry order.
    pub fn list_vms(&self) -> (r: &Vec<VMInstance>)
        ensures
            r@ == self@,
    {
        &self.vms
    }

    fn index_of(&self, id: u128) -> (r: Option<usize>)
        ensures
            r matches Some(i) ==> id_at(self@, i as int, id),
            r is None ==> !has_id(self@, id),
    {
        let mut i: usize = 0;
        while i < self.vms.len()
            invariant
                i <= self@.len(),
                forall|k: int| 0 <= k < i ==> self@[k].id != id,
            decreases self@.len() - i,
        {
            if self.vms[i].id == id {
                return Some(i);
            }
            i += 1;
        }
        None
    }

    /// The instance with this id.
    pub fn get_vm(&self, id: u128) -> (r: Option<&VMInstance>)
        ensures
            r matches Some(v) ==> exists|i: int| id_at(self@, i, id) && *v == self@[i],
            r is None <==> !has_id(self@, id),
    {
        match self.index_of(id) {
            Some(i) => Some(&self.vms[i]),
            None => None,
        }
    }

    /// The first instance, in registry order, with this name.
    pub fn get_vm_by_name(&self, name: &str) -> (r: Option<&VMInstance>)
        ensures
            r matches Some(v) ==> exists|i: int|
                0 <= i < self@.len() && *v == self@[i] && self@[i].name@ == name@ && forall|
                    k: int,
                | 0 <= k < i ==> self@[k].name@ != name@,
            r is None <==> forall|k: int| 0 <= k < self@.len() ==> self@[k].name@ != name@,
    {
        let mut i: usize = 0;
        while i < self.vms.len()
            invariant
                i <= self@.len(),
                forall|k: int| 0 <= k < i ==> self@[k].name@ != name@,
            decreases self@.len() - i,
        {
            if str_eq(self.vms[i].name.as_str(), name) {
                return Some(&self.vms[i]);
            }
            i += 1;
        }
        None
    }

    /// The instance with this id, or the not-found error.
    pub fn require_vm(&self, id: u128) -> (r: Result<&VMInstance>)
        ensures
            r matches Ok(v) ==> exists|i: int| id_at(self@, i, id) && *v == self@[i],
            r is Err <==> !has_id(self@, id),
            r matches Err(e) ==> is_not_found(e, id),
    {
        match self.index_of(id) {
            Some(i) => Ok(&self.vms[i]),
            None => Err(not_found(id)),
        }
    }

    /// Adds a new instance in state `Creating`, with nothing materialized
    /// and both timestamps at `now`. Refused where the id is taken.
    pub fn insert_creating(&mut self, id: u128, name: String, config: VMConfig, now: i64) -> (r:
        Result<()>)
        requires
            old(self).wf(),
        ensures
            final(self).wf(),
            r is Ok <==> !has_id(old(self)@, id),
            r is Ok ==> final(self)@ == old(self)@.push(
                VMInstance {
                    id,
                    name,
                    state: VMState::Creating,
                    config,
                    runtime: final(self)@.last().runtime,
                    created_at: now,
                    updated_at: now,
                },
            ) && empty_runtime(final(self)@.last().runtime),
            r matches Err(e) ==> final(self)@ == old(self)@ && is_id_clash(e, id),
    {
        if self.index_of(id).is_some() {
            proof { reveal_strlit("VM id already in use"); }
            return Err(
                AivaError::VMError {
                    vm_name: uuid_text(id),
                    state: VMState::Creating,
                    message: String::from_str("VM id already in use"),
                },
            );
        }
        let instance = VMInstance {
            id,
            name,
            state: VMState::Creating,
            config,
            runtime: RuntimeInfo::empty(),
            created_at: now,
            updated_at: now,
        };
        self.vms.push(instance);
        Ok(())
    }

    /// Begins a creation: draws a fresh UUID and adds the instance in
    /// state `Creating`. Returns the id for the platform call. Fails only
    /// where the drawn id is already in the registry.
    pub fn begin_create(&mut self, name: String, config: VMConfig) -> (r: Result<u128>)
        requires
            old(self).wf(),
        ensures
            final(self).wf(),
            old(self)@.len() == 0 ==> r is Ok,
            r matches Ok(id) ==> !has_id(old(self)@, id) && creating_added(
                old(self)@,
                final(self)@,
                id,
                name,
                config,
            ),
            r matches Err(e) ==> final(self)@ == old(self)@ && exists|id: u128|
                has_id(old(self)@, id) && is_id_clash(e, id),
    {
        let id = random_uuid();
        let now = now_millis();
        match self.insert_creating(id, name, config, now) {
            Ok(()) => {
                proof {
                    assert(self@.drop_last() =~= old(self)@);
                }
                Ok(id)
            }
            Err(e) => Err(e),
        }
    }

    /// Completes a creation with the platform's answer. On success the
    /// platform's instance (under the registry's id) replaces the entry,
    /// or is added where the entry has gone. On failure the entry is
    /// removed and the platform's error is returned.
    pub fn finish_create(&mut self, id: u128, outcome: Result<VMInstance>) -> (r: Result<()>)
        requires
            old(self).wf(),
        ensures
            final(self).wf(),
            r is Ok <==> outcome is Ok,
            outcome matches Ok(v) ==> settled_as(final(self)@, id, v) && (forall|i: int|
                0 <= i < old(self)@.len() && old(self)@[i].id != id ==> final(self)@.contains(
                    old(self)@[i],
                )) && final(self)@.len() == old(self)@.len() + (if has_id(old(self)@, id) {
                0int
            } else {
                1int
            }),
            outcome matches Err(e) ==> r == Err::<(), AivaError>(e) && !has_id(final(self)@, id)
                && (forall|i: int|
                0 <= i < old(self)@.len() && old(self)@[i].id != id ==> final(self)@.contains(
                    old(self)@[i],
                )) && (forall|v: VMInstance| final(self)@.contains(v) ==> old(self)@.contains(v)),
    {
        match outcome {
            Ok(v) => {
                let stored = VMInstance { id, ..v };
                match self.index_of(id) {
                    Some(i) => {
                        let ghost before = self@;
                        self.vms.set(i, stored);
                        proof {
                            assert(self@ == before.update(i as int, stored));
                            assert forall|k: int|
                                0 <= k < before.len() && before[k].id != id implies self@.contains(before[k]) by {
                                assert(self@[k] == before[k]);
                            }
                            assert(self@[i as int].id == id);
                        }
                    },
                    None => {
                        let ghost before = self@;
                        self.vms.push(stored);
                        proof {
                            assert forall|k: int|
                                0 <= k < before.len() && before[k].id != id implies self@.contains(before[k]) by {
                                assert(self@[k] == before[k]);
                            }
                            assert(self@[before.len() as int].id == id);
                        }
                    },
                }
                Ok(())
            },
            Err(e) => {
                match self.index_of(id) {
                    Some(i) => {
                        let ghost before = self@;
                        self.vms.remove(i);
                        proof {
                            assert(self@ == before.remove(i as int));
                            assert forall|k: int|
                                0 <= k < before.len() && before[k].id != id implies self@.contains(before[k]) by {
                                if k < i {
                                    assert(self@[k] == before[k]);
                                } else {
                                    assert(self@[k - 1] == before[k]);
                                }
                            }
                            assert forall|v: VMInstance| self@.contains(v) implies before.contains(
                                v,
                            ) by {
                                let k = choose|k: int| 0 <= k < self@.len() && self@[k] == v;
                                if k < i {
                                    assert(before[k] == v);
                                } else {
                                    assert(before[k + 1] == v);
                                }
                            }
                        }
                    },
                    None => {},
                }
                Err(e)
            },
        }
    }

    /// Overwrites the state of one instance and stamps it at `now`.
    pub fn update_vm_state_at(&mut self, id: u128, state: VMState, now: i64) -> (r: Result<()>)
        requires
            old(self).wf(),
        ensures
            final(self).wf(),
            r is Ok <==> has_id(old(self)@, id),
            r is Ok ==> state_set(old(self)@, final(self)@, id, state, now),
            r matches Err(e) ==> final(self)@ == old(self)@ && is_not_found(e, id),
    {
        match self.index_of(id) {
            Some(i) => {
                let ghost before = self@;
                self.vms[i].state = state;
                self.vms[i].updated_at = now;
                proof {
                    assert forall|k: int| 0 <= k < before.len() implies #[trigger] self@[k] == (
                    if before[k].id == id {
                        restamped(before[k], state, now)
                    } else {
                        before[k]
                    }) by {
                        if k != i {
                            assert(before[k].id != id);
                        }
                    }
                }
                Ok(())
            },
            None => Err(not_found(id)),
        }
    }

    /// Overwrites the state of one instance, stamped with the current time.
    pub fn update_vm_state(&mut self, id: u128, state: VMState) -> (r: Result<()>)
        requires
            old(self).wf(),
        ensures
            final(self).wf(),
            r is Ok <==> has_id(old(self)@, id),
            r is Ok ==> exists|now: i64| state_set(old(self)@, final(self)@, id, state, now),
            r matches Err(e) ==> final(self)@ == old(self)@ && is_not_found(e, id),
    {
        let now = now_millis();
        self.update_vm_state_at(id, state, now)
    }

    /// Checks that the instance may be started: it must exist and be
    /// `Stopped`. Nothing changes.
    pub fn check_start(&self, id: u128) -> (r: Result<&VMInstance>)
        requires
            self.wf(),
        ensures
            r is Ok <==> exists|i: int| id_at(self@, i, id) && allowed_from(Operation::Start, self@[i].state),
            r matches Ok(v) ==> exists|i: int| id_at(self@, i, id) && *v == self@[i],
            r matches Err(e) ==> if has_id(self@, id) {
                exists|i: int| id_at(self@, i, id) && is_refused(e, Operation::Start, self@[i].state)
            } else {
                is_not_found(e, id)
            },
    {
        self.check_operation(id, Operation::Start)
    }

    /// Checks that `op` is legal for the instance with this id.
    pub fn check_operation(&self, id: u128, op: Operation) -> (r: Result<&VMInstance>)
        requires
            self.wf(),
        ensures
            r is Ok <==> exists|i: int| id_at(self@, i, id) && allowed_from(op, self@[i].state),
            r matches Ok(v) ==> exists|i: int| id_at(self@, i, id) && *v == self@[i],
            r matches Err(e) ==> if has_id(self@, id) {
                exists|i: int| id_at(self@, i, id) && is_refused(e, op, self@[i].state)
            } else {
                is_not_found(e, id)
            },
    {
        match self.index_of(id) {
            Some(i) => {
                let s = self.vms[i].state;
                if is_allowed(op, s) {
                    Ok(&self.vms[i])
                } else {
                    proof {
                        assert forall|k: int| id_at(self@, k, id) implies k == i by {
                            if k < i {
                                assert(self@[k].id != self@[i as int].id);
                            } else if k > i {
                                assert(self@[i as int].id != self@[k].id);
                            }
                        }
                    }
                    Err(refused(op, s))
                }
            },
            None => Err(not_found(id)),
        }
    }

    /// Begins a stop: the instance must exist and be `Running` or
    /// `Paused`; it is then `Stopping`, stamped at `now`. A refused stop
    /// changes nothing.
    pub fn begin_stop_at(&mut self, id: u128, now: i64) -> (r: Result<()>)
        requires
            old(self).wf(),
        ensures
            final(self).wf(),
            r is Ok <==> exists|i: int|
                id_at(old(self)@, i, id) && allowed_from(Operation::Stop, old(self)@[i].state),
            r is Ok ==> state_set(old(self)@, final(self)@, id, VMState::Stopping, now),
            r matches Err(e) ==> final(self)@ == old(self)@ && if has_id(old(self)@, id) {
                exists|i: int|
                    id_at(old(self)@, i, id) && is_refused(e, Operation::Stop, old(self)@[i].state)
            } else {
                is_not_found(e, id)
            },
    {
        match self.check_operation(id, Operation::Stop) {
            Ok(_) => {},
            Err(e) => return Err(e),
        }
        self.update_vm_state_at(id, VMState::Stopping, now)
    }

    /// Begins a stop, stamped with the current time.
    pub fn begin_stop(&mut self, id: u128) -> (r: Result<()>)
        requires
            old(self).wf(),
        ensures
            final(self).wf(),
            r is Ok <==> exists|i: int|
                id_at(old(self)@, i, id) && allowed_from(Operation::Stop, old(self)@[i].state),
            r is Ok ==> exists|now: i64|
                state_set(old(self)@, final(self)@, id, VMState::Stopping, now),
            r matches Err(e) ==> final(self)@ == old(self)@ && if has_id(old(self)@, id) {
                exists|i: int|
                    id_at(old(self)@, i, id) && is_refused(e, Operation::Stop, old(self)@[i].state)
            } else {
                is_not_found(e, id)
            },
    {
        let now = now_millis();
        self.begin_stop_at(id, now)
    }

    /// Completes a stop: whatever the platform call did, the instance is
    /// `Stopped`, stamped at `now`. A failed call returns its error and a
    /// call that outlived its bound returns the timeout error.
    pub fn finish_stop_at(&mut self, id: u128, outcome: StopOutcome, now: i64) -> (r: Result<()>)
        requires
            old(self).wf(),
        ensures
            final(self).wf(),
            has_id(old(self)@, id) ==> state_set(
                old(self)@,
                final(self)@,
                id,
                VMState::Stopped,
                now,
            ),
            !has_id(old(self)@, id) ==> final(self)@ == old(self)@,
            r is Ok <==> has_id(old(self)@, id) && outcome is Completed,
            r matches Err(e) ==> if !has_id(old(self)@, id) {
                is_not_found(e, id)
            } else {
                match outcome {
                    StopOutcome::Failed(pe) => e == pe,
                    StopOutcome::TimedOut => is_stop_timeout(e),
                    StopOutcome::Completed => false,
                }
            },
    {
        match self.update_vm_state_at(id, VMState::Stopped, now) {
            Ok(()) => {},
            Err(e) => return Err(e),
        }
        match outcome {
            StopOutcome::Completed => Ok(()),
            StopOutcome::Failed(e) => Err(e),
            StopOutcome::TimedOut => Err(stop_timeout_error()),
        }
    }

    /// Completes a stop, stamped with the current time.
    pub fn finish_stop(&mut self, id: u128, outcome: StopOutcome) -> (r: Result<()>)
        requires
            old(self).wf(),
        ensures
            final(self).wf(),
            has_id(old(self)@, id) ==> exists|now: i64|
                state_set(old(self)@, final(self)@, id, VMState::Stopped, now),
            !has_id(old(self)@, id) ==> final(self)@ == old(self)@,
            r is Ok <==> has_id(old(self)@, id) && outcome is Completed,
            r matches Err(e) ==> if !has_id(old(self)@, id) {
                is_not_found(e, id)
            } else {
                match outcome {
                    StopOutcome::Failed(pe) => e == pe,
                    StopOutcome::TimedOut => is_stop_timeout(e),
                    StopOutcome::Completed => false,
                }
            },
    {
        let now = now_millis();
        self.finish_stop_at(id, outcome, now)
    }

    /// Removes a deleted instance. Deletion is legal only from `Stopped`;
    /// a refused deletion changes nothing.
    pub fn remove_stopped(&mut self, id: u128) -> (r: Result<()>)
        requires
            old(self).wf(),
        ensures
            final(self).wf(),
            r is Ok <==> exists|i: int|
                id_at(old(self)@, i, id) && allowed_from(Operation::Delete, old(self)@[i].state),
            r is Ok ==> exists|i: int| id_at(old(self)@, i, id) && final(self)@ == old(self)@.remove(i),
            r is Ok ==> !has_id(final(self)@, id),
            r matches Err(e) ==> final(self)@ == old(self)@ && if has_id(old(self)@, id) {
                exists|i: int|
                    id_at(old(self)@, i, id) && is_refused(e, Operation::Delete, old(self)@[i].state)
            } else {
                is_not_found(e, id)
            },
    {
        match self.check_operation(id, Operation::Delete) {
            Ok(_) => {},
            Err(e) => return Err(e),
        }
        match self.index_of(id) {
            Some(i) => {
                let ghost before = self@;
                self.vms.remove(i);
                proof {
                    assert(self@ == before.remove(i as int));
                    assert forall|k: int| 0 <= k < self@.len() implies self@[k].id != id by {
                        if k < i {
                            assert(before[k].id != before[i as int].id);
                        } else {
                            assert(before[i as int].id != before[k + 1].id);
                        }
                    }
                }
                Ok(())
            },
            None => Err(not_found(id)),
        }
    }

    /// Checks that a command may run in the instance: it must exist and be
    /// `Running`. Returns the instance for the platform call.
    pub fn check_execute(&self, id: u128) -> (r: Result<&VMInstance>)
        requires
            self.wf(),
        ensures
            r is Ok <==> exists|i: int| id_at(self@, i, id) && self@[i].state == VMState::Running,
            r matches Ok(v) ==> exists|i: int| id_at(self@, i, id) && *v == self@[i],
            r matches Err(e) ==> if has_id(self@, id) {
                exists|i: int|
                    id_at(self@, i, id) && e == AivaError::VMError {
                        vm_name: self@[i].name,
                        state: self@[i].state,
                        message: e->VMError_message,
                    } && e->VMError_message@ == "VM must be running to execute commands"@
            } else {
                is_not_found(e, id)
            },
    {
        match self.index_of(id) {
            Some(i) => {
                proof {
                    assert forall|k: int| id_at(self@, k, id) implies k == i by {
                        if k < i {
                            assert(self@[k].id != self@[i as int].id);
                        } else if k > i {
                            assert(self@[i as int].id != self@[k].id);
                        }
                    }
                }
                let v = &self.vms[i];
                if v.state == VMState::Running {
                    Ok(v)
                } else {
                    proof { reveal_strlit("VM must be running to execute commands"); }
                    Err(
                        AivaError::VMError {
                            vm_name: v.name.clone(),
                            state: v.state,
                            message: String::from_str("VM must be running to execute commands"),
                        },
                    )
                }
            },
            None => Err(not_found(id)),
        }
    }

    /// Overwrites the state of one instance without any transition check,
    /// stamped with the current time. Meant for recovery only.
    pub fn force_reset_vm_state(&mut self, id: u128, state: VMState) -> (r: Result<()>)
        requires
            old(self).wf(),
        ensures
            final(self).wf(),
            r is Ok <==> has_id(old(self)@, id),
            r is Ok ==> exists|now: i64| state_set(old(self)@, final(self)@, id, state, now),
            r matches Err(e) ==> final(self)@ == old(self)@ && is_not_found(e, id),
    {
        let now = now_millis();
        self.update_vm_state_at(id, state, now)
    }

    /// Forces every instance stuck in `Creating` or `Stopping` for more
    /// than 120 whole seconds before `now` to `Stopped`, stamped at `now`,
    /// and returns the (id, previous state) pairs it changed, in registry
    /// order. Every other instance is left as it was.
    pub fn reset_stuck_vms_at(&mut self, now: i64) -> (r: Vec<(u128, VMState)>)
        requires
            old(self).wf(),
        ensures
            final(self).wf(),
            final(self)@.len() == old(self)@.len(),
            forall|i: int| 0 <= i < old(self)@.len() ==> #[trigger] final(self)@[i] == swept(old(self)@[i], now),
            r@ == stuck_pairs(old(self)@, now),
    {
        let ghost before = self@;
        let mut out: Vec<(u128, VMState)> = Vec::new();
        let n = self.vms.len();
        let mut i: usize = 0;
        while i < n
            invariant
                n == before.len(),
                self@.len() == n,
                i <= n,
                forall|k: int| 0 <= k < i ==> #[trigger] self@[k] == swept(before[k], now),
                forall|k: int| i <= k < n ==> #[trigger] self@[k] == before[k],
                out@ == stuck_pairs(before.subrange(0, i as int), now),
            decreases n - i,
        {
            proof {
                assert(before.subrange(0, i as int + 1).drop_last() =~= before.subrange(0, i as int));
            }
            let st = self.vms[i].state;
            let elapsed: i128 = (now as i128) - (self.vms[i].updated_at as i128);
            if st.is_transitional() && elapsed >= ((STUCK_AFTER_SECS + 1) as i128) * 1000 {
                let id = self.vms[i].id;
                self.vms[i].state = VMState::Stopped;
                self.vms[i].updated_at = now;
                out.push((id, st));
            }
            i += 1;
        }
        proof {
            assert(before.subrange(0, n as int) =~= before);
            assert forall|a: int, b: int| 0 <= a < b < self@.len() implies self@[a].id != self@[b].id by {
                assert(self@[a] == swept(before[a], now));
                assert(self@[b] == swept(before[b], now));
            }
        }
        out
    }

    /// The stuck-state sweep at the current time.
    pub fn reset_stuck_vms(&mut self) -> (r: Vec<(u128, VMState)>)
        requires
            old(self).wf(),
        ensures
            final(self).wf(),
            final(self)@.len() == old(self)@.len(),
            exists|now: i64|
                (forall|i: int| 0 <= i < old(self)@.len() ==> #[trigger] final(self)@[i] == swept(old(self)@[i], now))
                && r@ == stuck_pairs(old(self)@, now),
    {
        let now = now_millis();
        self.reset_stuck_vms_at(now)
    }
}


/// A stop begun on a running or paused instance ends with it `Stopped`,
/// whatever the platform call did: after `begin_stop_at` and then
/// `finish_stop_at`, the registry differs from the one before only in that
/// instance's state, now `Stopped`, and its stamp.
pub proof fn lemma_stop_always_settles(
    before: Seq<VMInstance>,
    mid: Seq<VMInstance>,
    after: Seq<VMInstance>,
    id: u128,
    begun_at: i64,
    finished_at: i64,
)
    requires
        ids_unique(before),
        state_set(before, mid, id, VMState::Stopping, begun_at),
        state_set(mid, after, id, VMState::Stopped, finished_at),
    ensures
        state_set(before, after, id, VMState::Stopped, finished_at),
        forall|i: int| 0 <= i < after.len() && after[i].id == id ==> after[i].state == VMState::Stopped,
{
    assert forall|i: int| 0 <= i < before.len() implies #[trigger] after[i] == (if before[i].id == id {
        restamped(before[i], VMState::Stopped, finished_at)
    } else {
        before[i]
    }) by {
        assert(mid[i].id == before[i].id);
        assert(after[i] == (if mid[i].id == id {
            restamped(mid[i], VMState::Stopped, finished_at)
        } else {
            mid[i]
        }));
    }
    assert forall|i: int| 0 <= i < after.len() && after[i].id == id implies after[i].state == VMState::Stopped by {
        assert(mid[i].id == before[i].id);
        assert(after[i] == (if mid[i].id == id {
            restamped(mid[i], VMState::Stopped, finished_at)
        } else {
            mid[i]
        }));
    }
}


/// A creation followed by a lookup: once `finish_create` has settled the
/// platform's instance under the id that `begin_create` drew, which no
/// earlier instance had, `get_vm` of that id finds an instance with that
/// id and the state the platform reported.
pub proof fn lemma_create_then_get(
    before: Seq<VMInstance>,
    after: Seq<VMInstance>,
    id: u128,
    reported: VMInstance,
    found: VMInstance,
)
    requires
        !has_id(before, id),
        settled_as(after, id, reported),
        exists|i: int| id_at(after, i, id) && found == after[i],
    ensures
        found.id == id,
        found.state == reported.state,
        found.runtime == reported.runtime,
        forall|i: int| 0 <= i < before.len() ==> before[i].id != found.id,
{
    let i = choose|i: int| id_at(after, i, id) && found == after[i];
    assert(after[i] == (VMInstance { id, ..reported }));
}

} // verus!
