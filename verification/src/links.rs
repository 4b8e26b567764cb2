use vstd::prelude::*;
use std::collections::HashSet;
use vstd::std_specs::iter::IteratorSpec;
use crate::error::ProgramError;

verus! {

broadcast use vstd::std_specs::hash::group_hash_axioms;

/// The links a program owns, by link id.
#[derive(Debug)]
pub struct LinkMap {
    ids: HashSet<u64>,
}

impl View for LinkMap {
    type V = Set<u64>;

    closed spec fn view(&self) -> Set<u64> {
        self.ids@
    }
}

impl LinkMap {
    /// Well-formedness: the set of links is finite.
    pub closed spec fn wf(&self) -> bool {
        self.ids@.finite()
    }

    /// An empty map.
    pub fn new() -> (m: LinkMap)
        ensures
            m.wf(),
            m@ == Set::<u64>::empty(),
    {
        LinkMap { ids: HashSet::new() }
    }

    /// Whether the link `id` is held.
    pub fn contains(&self, id: u64) -> (r: bool)
        ensures
            r == self@.contains(id),
    {
        self.ids.contains(&id)
    }

    /// Adds the link `id`. A link that is already held is refused with
    /// `AlreadyAttached`, and the map is left as it was.
    pub fn insert(&mut self, id: u64) -> (r: Result<u64, ProgramError>)
        requires
            old(self).wf(),
        ensures
            final(self).wf(),
            old(self)@.contains(id) ==> r == Err::<u64, ProgramError>(ProgramError::AlreadyAttached)
                && final(self)@ == old(self)@,
            !old(self)@.contains(id) ==> r == Ok::<u64, ProgramError>(id) && final(self)@ == old(
                self,
            )@.insert(id),
    {
        if self.ids.contains(&id) {
            Err(ProgramError::AlreadyAttached)
        } else {
            self.ids.insert(id);
            Ok(id)
        }
    }

    /// Removes the link `id` and hands it back, without detaching it. A link
    /// that is not held is refused with `NotAttached`.
    pub fn forget(&mut self, id: u64) -> (r: Result<u64, ProgramError>)
        requires
            old(self).wf(),
        ensures
            final(self).wf(),
            !old(self)@.contains(id) ==> r == Err::<u64, ProgramError>(ProgramError::NotAttached)
                && final(self)@ == old(self)@,
            old(self)@.contains(id) ==> r == Ok::<u64, ProgramError>(id) && final(self)@ == old(
                self,
            )@.remove(id),
    {
        if self.ids.remove(&id) {
            Ok(id)
        } else {
            Err(ProgramError::NotAttached)
        }
    }

    /// The ids of the links held, in some order.
    pub fn ids(&self) -> (v: Vec<u64>)
        requires
            self.wf(),
        ensures
            v@.to_set() == self@,
            v@.no_duplicates(),
    {
        let mut v: Vec<u64> = Vec::new();
        let ghost all = vstd::std_specs::hash::spec_hash_keys_iter(&self.ids).remaining().unref();
        for id in it: self.ids.iter()
            invariant
                it.seq().unref() == all,
                all.to_set() == self@,
                all.no_duplicates(),
                v@ == all.take(it.index()),
        {
            proof {
                assert(all.take(it.index() + 1) =~= v@.push(*id));
            }
            v.push(*id);
        }
        assert(v@ =~= all);
        v
    }

    /// Drops every link. Detaching them is the caller's work; `detached` is
    /// how that went, and it is handed back: the first failure, or `Ok`.
    /// Either way no link is held afterwards.
    pub fn remove_all(&mut self, detached: Result<(), ProgramError>) -> (r: Result<(), ProgramError>)
        ensures
            final(self).wf(),
            final(self)@ == Set::<u64>::empty(),
            r == detached,
    {
        self.ids.clear();
        detached
    }
}

} // verus!
