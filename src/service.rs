//! The topologies a service can run in and the strategies by which it
//! takes updates.
use vstd::prelude::*;
use crate::text::chars_of;

verus! {

#[derive(Clone, Copy, Debug, PartialEq, Eq, Structural)]
pub enum Topology {
    Standalone,
    Leader,
}

#[derive(Clone, Copy, Debug, PartialEq, Eq, Structural)]
pub enum UpdateStrategy {
    NoUpdate,
    AtOnce,
    Rolling,
}

pub open spec fn topology_of(s: Seq<char>) -> Option<Topology> {
    if s == "standalone"@ {
        Some(Topology::Standalone)
    } else if s == "leader"@ {
        Some(Topology::Leader)
    } else {
        None
    }
}

pub open spec fn update_strategy_of(s: Seq<char>) -> Option<UpdateStrategy> {
    if s == "none"@ {
        Some(UpdateStrategy::NoUpdate)
    } else if s == "at-once"@ {
        Some(UpdateStrategy::AtOnce)
    } else if s == "rolling"@ {
        Some(UpdateStrategy::Rolling)
    } else {
        None
    }
}

/// Whether `s` reads exactly as `lit`.
pub fn same_text(s: &str, lit: &str) -> (r: bool)
    ensures
        r == (s@ == lit@),
{
    let a = chars_of(s);
    let b = chars_of(lit);
    if a.len() != b.len() {
        return false;
    }
    let mut i: usize = 0;
    while i < a.len()
        invariant
            a@ == s@,
            b@ == lit@,
            a.len() == b.len(),
            i <= a.len(),
            forall|j: int| 0 <= j < i ==> a@[j] == b@[j],
        decreases a.len() - i,
    {
        if a[i] != b[i] {
            assert(a@[i as int] != b@[i as int]);
            return false;
        }
        i += 1;
    }
    assert(a@ =~= b@);
    true
}

impl Topology {
    /// The topology that `s` names, if any.
    pub fn from_str(s: &str) -> (r: Option<Topology>)
        ensures
            r == topology_of(s@),
    {
        if same_text(s, "standalone") {
            Some(Topology::Standalone)
        } else if same_text(s, "leader") {
            Some(Topology::Leader)
        } else {
            None
        }
    }
}

impl UpdateStrategy {
    /// The update strategy that `s` names, if any.
    pub fn from_str(s: &str) -> (r: Option<UpdateStrategy>)
        ensures
            r == update_strategy_of(s@),
    {
        if same_text(s, "none") {
            Some(UpdateStrategy::NoUpdate)
        } else if same_text(s, "at-once") {
            Some(UpdateStrategy::AtOnce)
        } else if same_text(s, "rolling") {
            Some(UpdateStrategy::Rolling)
        } else {
            None
        }
    }
}

} // verus!
