//! The command pool: at most one live command channel per VM name,
//! registered only after its probe succeeded.
use vstd::prelude::*;
use crate::error::{AivaError, Result};
use crate::executor::{probe_confirms, probe_succeeded, VsockExecutor};
use crate::text::str_eq;
use crate::types::VMState;

verus! {

/// Some executor in `s` serves this VM name.
pub open spec fn serves(s: Seq<VsockExecutor>, name: Seq<char>) -> bool {
    exists|i: int| 0 <= i < s.len() && s[i].vm_name()@ == name
}

/// No two executors serve the same VM name.
pub open spec fn names_unique(s: Seq<VsockExecutor>) -> bool {
    forall|i: int, j: int| 0 <= i < j < s.len() ==> s[i].vm_name()@ != s[j].vm_name()@
}

/// `after` is `before` without the executor of this name.
pub open spec fn without_name(before: Seq<VsockExecutor>, name: Seq<char>) -> Seq<VsockExecutor> {
    before.filter(|e: VsockExecutor| e.vm_name()@ != name)
}

/// The error for a VM with no executor in the pool.
pub open spec fn is_not_registered(e: AivaError, name: Seq<char>) -> bool {
    &&& e matches AivaError::VMError { vm_name, state, message }
    &&& vm_name@ == name
    &&& state == VMState::Stopped
    &&& message@ == "VM not registered in command pool"@
}

/// The error for a registration whose probe failed.
pub open spec fn is_unreachable(e: AivaError, name: Seq<char>) -> bool {
    &&& e matches AivaError::NetworkError { operation, cause }
    &&& operation@ == "register_vm"@
    &&& cause@ == "Failed to establish connection to VM "@ + name
}

/// At most one live command channel per VM name.
pub struct CommandPool {
    executors: Vec<VsockExecutor>,
}

impl View for CommandPool {
    type V = Seq<VsockExecutor>;

    closed spec fn view(&self) -> Seq<VsockExecutor> {
        self.executors@
    }
}

impl CommandPool {
    /// The pool's invariant: one executor per name.
    pub open spec fn wf(&self) -> bool {
        names_unique(self@)
    }

    /// An empty pool.
    pub fn new() -> (r: CommandPool)
        ensures
            r@ == Seq::<VsockExecutor>::empty(),
            r.wf(),
    {
        CommandPool { executors: Vec::new() }
    }

    fn position(&self, name: &str) -> (r: Option<usize>)
        ensures
            r matches Some(i) ==> i < self@.len() && self@[i as int].vm_name()@ == name@,
            r is None ==> !serves(self@, name@),
    {
        let mut i: usize = 0;
        while i < self.executors.len()
            invariant
                i <= self@.len(),
                forall|k: int| 0 <= k < i ==> self@[k].vm_name()@ != name@,
            decreases self@.len() - i,
        {
            if str_eq(self.executors[i].name().as_str(), name) {
                return Some(i);
            }
            i += 1;
        }
        None
    }

    /// Registers `executor` where its probe answer shows a working
    /// channel, replacing any executor of the same name. Where the probe
    /// failed nothing is registered and a network error is returned.
    pub fn register_vm(&mut self, executor: VsockExecutor, probe: Result<String>) -> (r: Result<()>)
        requires
            old(self).wf(),
        ensures
            final(self).wf(),
            r is Ok <==> probe_confirms(probe),
            r is Ok ==> final(self)@ == without_name(old(self)@, executor.vm_name()@).push(executor),
            r matches Err(e) ==> final(self)@ == old(self)@ && is_unreachable(e, executor.vm_name()@),
    {
        if !probe_succeeded(&probe) {
            proof { reveal_strlit("register_vm"); reveal_strlit("Failed to establish connection to VM "); }
            return Err(
                AivaError::NetworkError {
                    operation: String::from_str("register_vm"),
                    cause: String::from_str("Failed to establish connection to VM ").concat(
                        executor.name().as_str(),
                    ),
                },
            );
        }
        let ghost name = executor.vm_name()@;
        self.unregister(executor.name().as_str());
        proof {
            assert forall|i: int| 0 <= i < self@.len() implies self@[i].vm_name()@ != name by {
                assert(without_name(old(self)@, name).contains(self@[i]));
            }
        }
        self.executors.push(executor);
        Ok(())
    }

    fn unregister(&mut self, name: &str)
        requires
            old(self).wf(),
        ensures
            final(self).wf(),
            final(self)@ == without_name(old(self)@, name@),
            !serves(final(self)@, name@),
    {
        let ghost before = self@;
        match self.position(name) {
            Some(i) => {
                self.executors.remove(i);
                proof {
                    assert(self@ == before.remove(i as int));
                    lemma_filter_remove_unique(before, i as int, name@);
                }
            },
            None => {
                proof {
                    lemma_filter_absent(before, name@);
                }
            },
        }
        proof {
            assert forall|i: int| 0 <= i < self@.len() implies self@[i].vm_name()@ != name@ by {
                assert(without_name(before, name@).contains(self@[i]));
            }
        }
    }

    /// Removes the executor of this VM, if any. Always succeeds.
    pub fn unregister_vm(&mut self, vm_name: &str) -> (r: Result<()>)
        requires
            old(self).wf(),
        ensures
            final(self).wf(),
            r is Ok,
            final(self)@ == without_name(old(self)@, vm_name@),
            !serves(final(self)@, vm_name@),
    {
        self.unregister(vm_name);
        Ok(())
    }

    /// Whether this VM has an executor.
    pub fn is_registered(&self, vm_name: &str) -> (r: bool)
        ensures
            r == serves(self@, vm_name@),
    {
        self.position(vm_name).is_some()
    }

    /// The executor that runs commands for this VM, or the
    /// "not registered" error, which calls for no connection at all.
    pub fn executor_for(&self, vm_name: &str) -> (r: Result<&VsockExecutor>)
        ensures
            r is Ok <==> serves(self@, vm_name@),
            r matches Ok(e) ==> self@.contains(*e) && e.vm_name()@ == vm_name@,
            r matches Err(e) ==> is_not_registered(e, vm_name@),
    {
        match self.position(vm_name) {
            Some(i) => Ok(&self.executors[i]),
            None => {
                proof { reveal_strlit("VM not registered in command pool"); }
                Err(
                    AivaError::VMError {
                        vm_name: String::from_str(vm_name),
                        state: VMState::Stopped,
                        message: String::from_str("VM not registered in command pool"),
                    },
                )
            },
        }
    }

    /// The names of all registered VMs, in registration order.
    pub fn list_vms(&self) -> (r: Vec<String>)
        ensures
            r@.len() == self@.len(),
            forall|i: int| 0 <= i < r@.len() ==> #[trigger] r@[i] == self@[i].vm_name(),
    {
        let mut out: Vec<String> = Vec::new();
        let mut i: usize = 0;
        while i < self.executors.len()
            invariant
                i <= self@.len(),
                out@.len() == i,
                forall|k: int| 0 <= k < i ==> #[trigger] out@[k] == self@[k].vm_name(),
            decreases self@.len() - i,
        {
            out.push(self.executors[i].name().clone());
            i += 1;
        }
        out
    }
}

impl Default for CommandPool {
    fn default() -> (r: CommandPool)
        ensures
            r@ == Seq::<VsockExecutor>::empty(),
    {
        CommandPool::new()
    }
}

/// Filtering out a name that no executor has changes nothing.
pub proof fn lemma_filter_absent(s: Seq<VsockExecutor>, name: Seq<char>)
    requires
        !serves(s, name),
    ensures
        without_name(s, name) == s,
    decreases s.len(),
{
    if s.len() > 0 {
        let t = s.drop_last();
        assert(!serves(t, name)) by {
            if serves(t, name) {
                let i = choose|i: int| 0 <= i < t.len() && t[i].vm_name()@ == name;
                assert(s[i] == t[i]);
            }
        }
        lemma_filter_absent(t, name);
        assert(s =~= t.push(s.last()));
        assert(s.last() == s[s.len() - 1]);
        assert(without_name(s, name) == without_name(t, name).push(s.last())) by {
            reveal(Seq::filter);
            assert(s.drop_last() == t);
        }
    } else {
        assert(without_name(s, name) =~= s) by {
            reveal(Seq::filter);
        }
    }
}

/// With unique names, filtering out the name at `i` removes exactly `i`.
pub proof fn lemma_filter_remove_unique(s: Seq<VsockExecutor>, i: int, name: Seq<char>)
    requires
        names_unique(s),
        0 <= i < s.len(),
        s[i].vm_name()@ == name,
    ensures
        without_name(s, name) == s.remove(i),
    decreases s.len(),
{
    let t = s.drop_last();
    if i == s.len() - 1 {
        assert(!serves(t, name)) by {
            if serves(t, name) {
                let k = choose|k: int| 0 <= k < t.len() && t[k].vm_name()@ == name;
                assert(s[k].vm_name()@ != s[i].vm_name()@);
            }
        }
        lemma_filter_absent(t, name);
        assert(without_name(s, name) == without_name(t, name)) by {
            reveal(Seq::filter);
        }
        assert(s.remove(i) =~= t);
    } else {
        assert(names_unique(t));
        lemma_filter_remove_unique(t, i, name);
        assert(s.last().vm_name()@ != name) by {
            assert(s[i].vm_name()@ != s[s.len() - 1].vm_name()@);
        }
        assert(without_name(s, name) == without_name(t, name).push(s.last())) by {
            reveal(Seq::filter);
        }
        assert(s.remove(i) =~= t.remove(i).push(s.last()));
    }
}


/// Serving a name in a sequence with one more executor at its end.
pub proof fn lemma_serves_push(s: Seq<VsockExecutor>, x: VsockExecutor, name: Seq<char>)
    ensures
        serves(s.push(x), name) <==> (serves(s, name) || x.vm_name()@ == name),
{
    let t = s.push(x);
    if serves(t, name) {
        let i = choose|i: int| 0 <= i < t.len() && t[i].vm_name()@ == name;
        if i < s.len() {
            assert(s[i] == t[i]);
        }
    }
    if serves(s, name) {
        let i = choose|i: int| 0 <= i < s.len() && s[i].vm_name()@ == name;
        assert(t[i] == s[i]);
    }
    if x.vm_name()@ == name {
        assert(t[s.len() as int] == x);
    }
}

/// Taking one name out leaves every other name served as before.
pub proof fn lemma_without_name_keeps_others(s: Seq<VsockExecutor>, name: Seq<char>, other: Seq<char>)
    requires
        other != name,
    ensures
        serves(without_name(s, name), other) <==> serves(s, other),
    decreases s.len(),
{
    reveal(Seq::filter);
    if s.len() == 0 {
        assert(without_name(s, name) == s);
    } else {
        let t = s.drop_last();
        let x = s.last();
        lemma_without_name_keeps_others(t, name, other);
        assert(s =~= t.push(x));
        lemma_serves_push(t, x, other);
        if x.vm_name()@ != name {
            assert(without_name(s, name) == without_name(t, name).push(x));
            lemma_serves_push(without_name(t, name), x, other);
        } else {
            assert(without_name(s, name) == without_name(t, name));
        }
    }
}

/// After a registration whose probe succeeded, the VM it names is served,
/// so `executor_for` reaches that very executor; every other VM keeps its
/// standing.
pub proof fn lemma_registered_is_reachable(before: Seq<VsockExecutor>, executor: VsockExecutor, other: Seq<char>)
    ensures
        serves(without_name(before, executor.vm_name()@).push(executor), executor.vm_name()@),
        without_name(before, executor.vm_name()@).push(executor).last() == executor,
        other != executor.vm_name()@ ==> (serves(without_name(before, executor.vm_name()@).push(executor), other)
            <==> serves(before, other)),
{
    let name = executor.vm_name()@;
    let f = without_name(before, name);
    lemma_serves_push(f, executor, name);
    lemma_serves_push(f, executor, other);
    if other != name {
        lemma_without_name_keeps_others(before, name, other);
    }
}

} // verus!
