//! Servers that asked for moderation alerts, and when a timeout warrants
//! one.

use vstd::prelude::*;
use std::collections::HashSet;
use vstd::std_specs::hash::spec_hash_keys_iter;
use vstd::std_specs::iter::IteratorSpec;

verus! {

/// The servers with moderation alerts enabled.
#[derive(Debug)]
pub struct ModAlertStore {
    enabled: HashSet<u64>,
}

impl View for ModAlertStore {
    type V = Set<u64>;

    closed spec fn view(&self) -> Set<u64> {
        self.enabled@
    }
}

impl ModAlertStore {
    /// A store with the servers of a saved list.
    pub fn from_list(ids: &Vec<u64>) -> (r: ModAlertStore)
        ensures
            r@ == ids@.to_set(),
    {
        let mut enabled: HashSet<u64> = HashSet::new();
        let mut i: usize = 0;
        while i < ids.len()
            invariant
                i <= ids@.len(),
                enabled@ == ids@.subrange(0, i as int).to_set(),
            decreases ids@.len() - i,
        {
            enabled.insert(ids[i]);
            proof {
                broadcast use vstd::seq_lib::group_seq_properties;
                assert(ids@.subrange(0, i + 1) =~= ids@.subrange(0, i as int).push(ids@[i as int]));
                assert(enabled@ =~= ids@.subrange(0, i + 1).to_set());
            }
            i = i + 1;
        }
        assert(ids@.subrange(0, ids@.len() as int) =~= ids@);
        ModAlertStore { enabled }
    }

    /// The servers, each once, in no particular order.
    pub fn to_list(&self) -> (r: Vec<u64>)
        ensures
            r@.no_duplicates(),
            r@.to_set() == self@,
    {
        let mut out: Vec<u64> = Vec::new();
        let ghost all = spec_hash_keys_iter(&self.enabled).remaining();
        for x in it: self.enabled.iter()
            invariant
                all == spec_hash_keys_iter(&self.enabled).remaining(),
                it.seq() == all,
                out@ == it.seq().subrange(0, it.index() as int).map_values(|p: &u64| *p),
        {
            out.push(*x);
            assert(out@ =~= it.seq().subrange(0, it.index() + 1).map_values(|p: &u64| *p));
        }
        proof {
            assert(out@ =~= all.map_values(|p: &u64| *p));
            assert(all.unref() =~= all.map_values(|p: &u64| *p));
        }
        out
    }

    pub fn is_enabled(&self, id: u64) -> (r: bool)
        ensures
            r == self@.contains(id),
    {
        self.enabled.contains(&id)
    }

    /// Switches alerts for a server; returns whether they are on now.
    pub fn toggle(&mut self, id: u64) -> (r: bool)
        ensures
            r == !old(self)@.contains(id),
            final(self)@ == if r { old(self)@.insert(id) } else { old(self)@.remove(id) },
    {
        if self.enabled.contains(&id) {
            self.enabled.remove(&id);
            false
        } else {
            self.enabled.insert(id);
            true
        }
    }
}

/// A member's timeout was newly applied or extended: there was none
/// before and there is one now, or it now ends later.
pub open spec fn timeout_spec(old_until: Option<i64>, new_until: Option<i64>) -> bool {
    match (old_until, new_until) {
        (Some(o), Some(n)) => n > o,
        (None, Some(_)) => true,
        _ => false,
    }
}

/// Whether a member update applied a timeout (instants in seconds).
pub fn timeout_newly_applied(old_until: Option<i64>, new_until: Option<i64>) -> (r: bool)
    ensures
        r == timeout_spec(old_until, new_until),
{
    match (old_until, new_until) {
        (Some(o), Some(n)) => n > o,
        (None, Some(_)) => true,
        _ => false,
    }
}

} // verus!
