//! The cpuset controller: which CPUs and memory nodes a group may use.

use crate::resources::{CpuSetSpec, CpuSetSpecView};
use crate::write::{Write, WriteView};
use vstd::prelude::*;
use vstd::string::*;

verus! {

/// The file that holds the CPUs a group may run on.
pub const CGROUP_CPUSET_CPUS: &'static str = "cpuset.cpus";

/// The file that holds the memory nodes a group may allocate from.
pub const CGROUP_CPUSET_MEMS: &'static str = "cpuset.mems";

/// The cpuset controller.
pub struct CpuSet {}

impl CpuSet {
    /// The writes that `cpuset` asks for: each mask that is present goes
    /// verbatim to its own file, the CPUs before the memory nodes; a mask
    /// that is absent gives no write.
    pub open spec fn writes(cpuset: CpuSetSpecView) -> Seq<WriteView> {
        let cpus = match cpuset.cpus {
            Some(cpus) => seq![WriteView { file: CGROUP_CPUSET_CPUS@, value: cpus }],
            None => Seq::empty(),
        };
        let mems = match cpuset.mems {
            Some(mems) => seq![WriteView { file: CGROUP_CPUSET_MEMS@, value: mems }],
            None => Seq::empty(),
        };
        cpus + mems
    }

    /// Whether `cpuset` holds any field at all.
    pub open spec fn requested(cpuset: CpuSetSpecView) -> bool {
        cpuset.cpus is Some || cpuset.mems is Some
    }

    /// Whether `cpuset` holds any field at all.
    pub fn is_requested(cpuset: &CpuSetSpec) -> (requested: bool)
        ensures
            requested == Self::requested(cpuset@),
    {
        cpuset.cpus.is_some() || cpuset.mems.is_some()
    }

    /// The controller has something to write exactly when a field is present.
    pub proof fn lemma_requested_iff_writes(cpuset: CpuSetSpecView)
        ensures
            Self::requested(cpuset) <==> Self::writes(cpuset).len() > 0,
    {
    }

    /// The writes that pin a group as `cpuset` says.
    pub fn apply(cpuset: &CpuSetSpec) -> (writes: Vec<Write>)
        ensures
            writes.deep_view() == Self::writes(cpuset@),
    {
        let mut writes: Vec<Write> = Vec::new();
        if let Some(cpus) = &cpuset.cpus {
            writes.push(Write { file: String::from_str(CGROUP_CPUSET_CPUS), value: cpus.clone() });
        }
        if let Some(mems) = &cpuset.mems {
            writes.push(Write { file: String::from_str(CGROUP_CPUSET_MEMS), value: mems.clone() });
        }
        assert(writes.deep_view() =~= Self::writes(cpuset@));
        writes
    }
}

} // verus!
