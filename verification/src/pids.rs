//! The pids controller: how many processes a group may hold.

use crate::resources::PidsSpec;
use crate::write::{Write, WriteView};
use vstd::prelude::*;
use vstd::string::*;

verus! {

/// The file that holds the largest number of processes.
pub const CGROUP_PIDS_MAX: &'static str = "pids.max";

/// The pids controller.
pub struct Pids {}

impl Pids {
    /// The writes that `pids` asks for: the maximum, if present, to its file.
    pub open spec fn writes(pids: PidsSpec) -> Seq<WriteView> {
        match pids.max {
            Some(max) => seq![WriteView { file: CGROUP_PIDS_MAX@, value: max.encoding() }],
            None => Seq::empty(),
        }
    }

    /// Whether `pids` holds any field at all.
    pub open spec fn requested(pids: PidsSpec) -> bool {
        pids.max is Some
    }

    /// Whether `pids` holds any field at all.
    pub fn is_requested(pids: &PidsSpec) -> (requested: bool)
        ensures
            requested == Self::requested(*pids),
    {
        pids.max.is_some()
    }

    /// The controller has something to write exactly when a field is present.
    pub proof fn lemma_requested_iff_writes(pids: PidsSpec)
        ensures
            Self::requested(pids) <==> Self::writes(pids).len() > 0,
    {
    }

    /// The writes that bound a group's process count as `pids` says.
    pub fn apply(pids: &PidsSpec) -> (writes: Vec<Write>)
        ensures
            writes.deep_view() == Self::writes(*pids),
    {
        let mut writes: Vec<Write> = Vec::new();
        if let Some(max) = pids.max {
            writes.push(Write { file: String::from_str(CGROUP_PIDS_MAX), value: max.encode() });
        }
        assert(writes.deep_view() =~= Self::writes(*pids));
        writes
    }
}

} // verus!
