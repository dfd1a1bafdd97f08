//! What every controller offers: given the resource limits of a container,
//! the writes that put its own slice of them into force.
//!
//! The set of controllers is closed, so the choice among them is a `match`
//! on [`ControllerType`].

use crate::controller_type::ControllerType;
use crate::cpu::Cpu;
use crate::cpuset::CpuSet;
use crate::hugetlb::HugeTlb;
use crate::io::Io;
use crate::memory::Memory;
use crate::pids::Pids;
use crate::resources::{ResourceSpec, ResourceSpecView};
use crate::write::{Write, WriteView};
use vstd::prelude::*;

verus! {

impl ControllerType {
    /// The writes that this controller makes for `resources`: those of its
    /// own slice, and none where the slice is absent.
    pub open spec fn writes(self, resources: ResourceSpecView) -> Seq<WriteView> {
        match self {
            ControllerType::Cpu => match resources.cpu {
                Some(cpu) => Cpu::writes(cpu),
                None => Seq::empty(),
            },
            ControllerType::CpuSet => match resources.cpuset {
                Some(cpuset) => CpuSet::writes(cpuset),
                None => Seq::empty(),
            },
            ControllerType::Io => match resources.io {
                Some(io) => Io::writes(io),
                None => Seq::empty(),
            },
            ControllerType::Memory => match resources.memory {
                Some(memory) => Memory::writes(memory),
                None => Seq::empty(),
            },
            ControllerType::HugeTlb => match resources.hugetlb {
                Some(hugetlb) => HugeTlb::writes(hugetlb),
                None => Seq::empty(),
            },
            ControllerType::Pids => match resources.pids {
                Some(pids) => Pids::writes(pids),
                None => Seq::empty(),
            },
        }
    }

    /// Whether `resources` holds any field of this controller's slice.
    pub open spec fn used(self, resources: ResourceSpecView) -> bool {
        match self {
            ControllerType::Cpu => match resources.cpu {
                Some(cpu) => Cpu::requested(cpu),
                None => false,
            },
            ControllerType::CpuSet => match resources.cpuset {
                Some(cpuset) => CpuSet::requested(cpuset),
                None => false,
            },
            ControllerType::Io => match resources.io {
                Some(io) => Io::requested(io),
                None => false,
            },
            ControllerType::Memory => match resources.memory {
                Some(memory) => Memory::requested(memory),
                None => false,
            },
            ControllerType::HugeTlb => match resources.hugetlb {
                Some(hugetlb) => HugeTlb::requested(hugetlb),
                None => false,
            },
            ControllerType::Pids => match resources.pids {
                Some(pids) => Pids::requested(pids),
                None => false,
            },
        }
    }

    /// A controller is used exactly when it has something to write.
    pub proof fn lemma_used_iff_writes(self, resources: ResourceSpecView)
        ensures
            self.used(resources) <==> self.writes(resources).len() > 0,
    {
        match self {
            ControllerType::Cpu => {
                if let Some(cpu) = resources.cpu {
                    Cpu::lemma_requested_iff_writes(cpu);
                }
            },
            ControllerType::CpuSet => {
                if let Some(cpuset) = resources.cpuset {
                    CpuSet::lemma_requested_iff_writes(cpuset);
                }
            },
            ControllerType::Io => {
                if let Some(io) = resources.io {
                    Io::lemma_requested_iff_writes(io);
                }
            },
            ControllerType::Memory => {
                if let Some(memory) = resources.memory {
                    Memory::lemma_requested_iff_writes(memory);
                }
            },
            ControllerType::HugeTlb => {
                if let Some(hugetlb) = resources.hugetlb {
                    HugeTlb::lemma_requested_iff_writes(hugetlb);
                }
            },
            ControllerType::Pids => {
                if let Some(pids) = resources.pids {
                    Pids::lemma_requested_iff_writes(pids);
                }
            },
        }
    }

    /// The writes that put this controller's slice of `resources` into
    /// force. A field that is absent gives no write.
    pub fn apply(&self, resources: &ResourceSpec) -> (writes: Vec<Write>)
        ensures
            writes.deep_view() == self.writes(resources@),
    {
        let writes = match self {
            ControllerType::Cpu => match &resources.cpu {
                Some(cpu) => Cpu::apply(cpu),
                None => Vec::new(),
            },
            ControllerType::CpuSet => match &resources.cpuset {
                Some(cpuset) => CpuSet::apply(cpuset),
                None => Vec::new(),
            },
            ControllerType::Io => match &resources.io {
                Some(io) => Io::apply(io),
                None => Vec::new(),
            },
            ControllerType::Memory => match &resources.memory {
                Some(memory) => Memory::apply(memory),
                None => Vec::new(),
            },
            ControllerType::HugeTlb => match &resources.hugetlb {
                Some(hugetlb) => HugeTlb::apply(hugetlb),
                None => Vec::new(),
            },
            ControllerType::Pids => match &resources.pids {
                Some(pids) => Pids::apply(pids),
                None => Vec::new(),
            },
        };
        assert(writes.deep_view() =~= self.writes(resources@));
        writes
    }

    /// Whether `resources` holds any field of this controller's slice.
    pub fn is_used(&self, resources: &ResourceSpec) -> (used: bool)
        ensures
            used == self.used(resources@),
    {
        match self {
            ControllerType::Cpu => match &resources.cpu {
                Some(cpu) => Cpu::is_requested(cpu),
                None => false,
            },
            ControllerType::CpuSet => match &resources.cpuset {
                Some(cpuset) => CpuSet::is_requested(cpuset),
                None => false,
            },
            ControllerType::Io => match &resources.io {
                Some(io) => Io::is_requested(io),
                None => false,
            },
            ControllerType::Memory => match &resources.memory {
                Some(memory) => Memory::is_requested(memory),
                None => false,
            },
            ControllerType::HugeTlb => match &resources.hugetlb {
                Some(hugetlb) => HugeTlb::is_requested(hugetlb),
                None => false,
            },
            ControllerType::Pids => match &resources.pids {
                Some(pids) => Pids::is_requested(pids),
                None => false,
            },
        }
    }
}

} // verus!
