//! Process registry: the table of the processes that are taken to be
//! running, keyed by their handle.
//!
//! The registry is plain data. Whoever shares it between threads puts it
//! behind a lock and holds the lock for one call at a time.

use vstd::prelude::*;
use std::collections::HashMap;

verus! {

broadcast use vstd::std_specs::hash::group_hash_axioms;

/// The registry. `P` is the resource that stands for a live process; the
/// registry owns it from `register` until `unregister` hands it back.
pub struct ProjectManager<P> {
    processes: HashMap<u32, P>,
}

impl<P> View for ProjectManager<P> {
    type V = Map<u32, P>;

    closed spec fn view(&self) -> Map<u32, P> {
        self.processes@
    }
}

impl<P> ProjectManager<P> {
    /// A registry that tracks no process.
    pub fn new() -> (manager: Self)
        ensures
            manager@ == Map::<u32, P>::empty(),
    {
        ProjectManager { processes: HashMap::new() }
    }

    /// Puts `process` under `handle`. An entry that was there under the same
    /// handle is replaced; every other entry stays.
    pub fn register(&mut self, handle: u32, process: P)
        ensures
            final(self)@ == old(self)@.insert(handle, process),
    {
        let _ = self.processes.insert(handle, process);
    }

    /// Takes the entry under `handle` out and returns it, or returns `None`
    /// and changes nothing where there is none.
    pub fn unregister(&mut self, handle: u32) -> (process: Option<P>)
        ensures
            final(self)@ == old(self)@.remove(handle),
            process == (if old(self)@.contains_key(handle) {
                Some(old(self)@[handle])
            } else {
                None
            }),
    {
        self.processes.remove(&handle)
    }

    /// How many processes are tracked.
    pub fn len(&self) -> (n: usize)
        ensures
            n == self@.len(),
    {
        self.processes.len()
    }
}

/// A handle stands for at most one process: after `register`, the handle
/// leads to the process just registered and to no other, whatever was
/// registered under it before.
pub proof fn lemma_register_replaces<P>(m: Map<u32, P>, handle: u32, first: P, second: P)
    ensures
        m.insert(handle, first).insert(handle, second) == m.insert(handle, second),
        m.insert(handle, second)[handle] == second,
{
}

/// A handle that no tracked process has, as the system gives to every
/// process it creates while the others live, adds one entry when it is
/// registered and disturbs none: every process tracked before is tracked
/// after under its own handle.
pub proof fn lemma_register_fresh_handle<P>(m: Map<u32, P>, handle: u32, process: P)
    requires
        m.dom().finite(),
        !m.contains_key(handle),
    ensures
        m.insert(handle, process).len() == m.len() + 1,
        forall|other: u32| #[trigger]
            m.contains_key(other) ==> m.insert(handle, process).contains_key(other) && m.insert(
                handle,
                process,
            )[other] == m[other],
{
}

} // verus!
