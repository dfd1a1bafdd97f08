//! The fields of the resource limits, one by one: which of them are present,
//! and the write that each one stands for.
//!
//! Every write that the controllers make is the write of a field that is
//! present, and every field that is present has its write made. So a field
//! that is absent never causes a write.

use crate::controller_type::ControllerType;
use crate::cpu::{Cpu, CGROUP_CPU_MAX, CGROUP_CPU_WEIGHT};
use crate::cpuset::{CGROUP_CPUSET_CPUS, CGROUP_CPUSET_MEMS};
use crate::hugetlb::HugeTlb;
use crate::io::{Io, CGROUP_IO_WEIGHT, READ_BPS, READ_IOPS, WRITE_BPS, WRITE_IOPS};
use crate::manager::Manager;
use crate::memory::{CGROUP_MEMORY_LOW, CGROUP_MEMORY_MAX, CGROUP_MEMORY_SWAP};
use crate::pids::CGROUP_PIDS_MAX;
use crate::resources::ResourceSpecView;
use crate::text::decimal;
use crate::write::{lemma_written_file, touches, written, Files, WriteView};
use vstd::prelude::*;

verus! {

/// One field of the resource limits. A field of a list names the entry by
/// its place in the list.
pub enum Field {
    CpuShares,
    CpuQuota,
    CpuPeriod,
    CpuSetCpus,
    CpuSetMems,
    IoWeight(int),
    IoReadBps(int),
    IoWriteBps(int),
    IoReadIops(int),
    IoWriteIops(int),
    MemoryLimit,
    MemoryReservation,
    MemorySwap,
    HugePageLimit(int),
    PidsMax,
}

impl Field {
    /// The controller in whose slice the field lies.
    pub open spec fn controller(self) -> ControllerType {
        match self {
            Field::CpuShares | Field::CpuQuota | Field::CpuPeriod => ControllerType::Cpu,
            Field::CpuSetCpus | Field::CpuSetMems => ControllerType::CpuSet,
            Field::IoWeight(_)
            | Field::IoReadBps(_)
            | Field::IoWriteBps(_)
            | Field::IoReadIops(_)
            | Field::IoWriteIops(_) => ControllerType::Io,
            Field::MemoryLimit | Field::MemoryReservation | Field::MemorySwap => {
                ControllerType::Memory
            },
            Field::HugePageLimit(_) => ControllerType::HugeTlb,
            Field::PidsMax => ControllerType::Pids,
        }
    }

    /// Whether `resources` holds a value for the field.
    pub open spec fn present(self, resources: ResourceSpecView) -> bool {
        match self {
            Field::CpuShares => resources.cpu matches Some(cpu) && cpu.shares is Some,
            Field::CpuQuota => resources.cpu matches Some(cpu) && cpu.quota is Some,
            Field::CpuPeriod => resources.cpu matches Some(cpu) && cpu.period is Some,
            Field::CpuSetCpus => resources.cpuset matches Some(cpuset) && cpuset.cpus is Some,
            Field::CpuSetMems => resources.cpuset matches Some(cpuset) && cpuset.mems is Some,
            Field::IoWeight(i) => resources.io matches Some(io) && 0 <= i < io.weight_devices.len()
                && io.weight_devices[i].weight is Some,
            Field::IoReadBps(i) => resources.io matches Some(io) && 0 <= i
                < io.throttle_read_bps.len(),
            Field::IoWriteBps(i) => resources.io matches Some(io) && 0 <= i
                < io.throttle_write_bps.len(),
            Field::IoReadIops(i) => resources.io matches Some(io) && 0 <= i
                < io.throttle_read_iops.len(),
            Field::IoWriteIops(i) => resources.io matches Some(io) && 0 <= i
                < io.throttle_write_iops.len(),
            Field::MemoryLimit => resources.memory matches Some(memory) && memory.limit is Some,
            Field::MemoryReservation => resources.memory matches Some(memory)
                && memory.reservation is Some,
            Field::MemorySwap => resources.memory matches Some(memory) && memory.swap is Some,
            Field::HugePageLimit(i) => resources.hugetlb matches Some(hugetlb) && 0 <= i
                < hugetlb.limits.len(),
            Field::PidsMax => resources.pids matches Some(pids) && pids.max is Some,
        }
    }

    /// The write that the field stands for in `resources`, where it is
    /// present: its file, and its value in the file's encoding. Quota and
    /// period share one file, whose text is made of both.
    pub open spec fn write(self, resources: ResourceSpecView) -> WriteView {
        match self {
            Field::CpuShares => WriteView {
                file: CGROUP_CPU_WEIGHT@,
                value: decimal(resources.cpu.unwrap().shares.unwrap() as nat),
            },
            Field::CpuQuota | Field::CpuPeriod => WriteView {
                file: CGROUP_CPU_MAX@,
                value: Cpu::max_encoding(
                    resources.cpu.unwrap().quota,
                    resources.cpu.unwrap().period,
                ).unwrap(),
            },
            Field::CpuSetCpus => WriteView {
                file: CGROUP_CPUSET_CPUS@,
                value: resources.cpuset.unwrap().cpus.unwrap(),
            },
            Field::CpuSetMems => WriteView {
                file: CGROUP_CPUSET_MEMS@,
                value: resources.cpuset.unwrap().mems.unwrap(),
            },
            Field::IoWeight(i) => {
                let entry = resources.io.unwrap().weight_devices[i];
                WriteView {
                    file: CGROUP_IO_WEIGHT@,
                    value: Io::weight_line(entry.major, entry.minor, entry.weight.unwrap()),
                }
            },
            Field::IoReadBps(i) => Io::throttle_write(
                resources.io.unwrap().throttle_read_bps[i],
                READ_BPS@,
            ),
            Field::IoWriteBps(i) => Io::throttle_write(
                resources.io.unwrap().throttle_write_bps[i],
                WRITE_BPS@,
            ),
            Field::IoReadIops(i) => Io::throttle_write(
                resources.io.unwrap().throttle_read_iops[i],
                READ_IOPS@,
            ),
            Field::IoWriteIops(i) => Io::throttle_write(
                resources.io.unwrap().throttle_write_iops[i],
                WRITE_IOPS@,
            ),
            Field::MemoryLimit => WriteView {
                file: CGROUP_MEMORY_MAX@,
                value: resources.memory.unwrap().limit.unwrap().encoding(),
            },
            Field::MemoryReservation => WriteView {
                file: CGROUP_MEMORY_LOW@,
                value: resources.memory.unwrap().reservation.unwrap().encoding(),
            },
            Field::MemorySwap => WriteView {
                file: CGROUP_MEMORY_SWAP@,
                value: resources.memory.unwrap().swap.unwrap().encoding(),
            },
            Field::HugePageLimit(i) => HugeTlb::limit_write(resources.hugetlb.unwrap().limits[i]),
            Field::PidsMax => WriteView {
                file: CGROUP_PIDS_MAX@,
                value: resources.pids.unwrap().max.unwrap().encoding(),
            },
        }
    }

    /// Every write of a controller is the write of a field of its slice that
    /// is present. The result is that field.
    pub proof fn lemma_controller_write_has_field(
        controller: ControllerType,
        resources: ResourceSpecView,
        k: int,
    ) -> (field: Field)
        requires
            0 <= k < controller.writes(resources).len(),
        ensures
            field.present(resources),
            field.controller() == controller,
            field.write(resources) == controller.writes(resources)[k],
    {
        match controller {
            ControllerType::Cpu => {
                let cpu = resources.cpu.unwrap();
                if cpu.shares is Some && k == 0 {
                    Field::CpuShares
                } else if cpu.quota is Some {
                    Field::CpuQuota
                } else {
                    Field::CpuPeriod
                }
            },
            ControllerType::CpuSet => {
                let cpuset = resources.cpuset.unwrap();
                if cpuset.cpus is Some && k == 0 {
                    Field::CpuSetCpus
                } else {
                    Field::CpuSetMems
                }
            },
            ControllerType::Io => {
                let io = resources.io.unwrap();
                let weights = Io::weight_writes(io.weight_devices);
                let read_bps = weights + Io::throttle_writes(io.throttle_read_bps, READ_BPS@);
                let write_bps = read_bps + Io::throttle_writes(io.throttle_write_bps, WRITE_BPS@);
                let read_iops = write_bps + Io::throttle_writes(io.throttle_read_iops, READ_IOPS@);
                assert(Io::writes(io) == read_iops + Io::throttle_writes(
                    io.throttle_write_iops,
                    WRITE_IOPS@,
                ));
                if k < weights.len() {
                    let j = Io::lemma_weight_write_entry(io.weight_devices, k);
                    assert(Io::weight_write(io.weight_devices[j])[0] == weights[k]);
                    Field::IoWeight(j)
                } else if k < read_bps.len() {
                    Field::IoReadBps(k - weights.len())
                } else if k < write_bps.len() {
                    Field::IoWriteBps(k - read_bps.len())
                } else if k < read_iops.len() {
                    Field::IoReadIops(k - write_bps.len())
                } else {
                    Field::IoWriteIops(k - read_iops.len())
                }
            },
            ControllerType::Memory => {
                let memory = resources.memory.unwrap();
                if memory.limit is Some && k == 0 {
                    Field::MemoryLimit
                } else if memory.reservation is Some && k == (if memory.limit is Some {
                    1int
                } else {
                    0int
                }) {
                    Field::MemoryReservation
                } else {
                    Field::MemorySwap
                }
            },
            ControllerType::HugeTlb => Field::HugePageLimit(k),
            ControllerType::Pids => Field::PidsMax,
        }
    }

    /// Every field that is present has its write among the writes of its
    /// controller. The result is that write's place.
    pub proof fn lemma_field_has_controller_write(self, resources: ResourceSpecView) -> (k: int)
        requires
            self.present(resources),
        ensures
            0 <= k < self.controller().writes(resources).len(),
            self.controller().writes(resources)[k] == self.write(resources),
    {
        match self {
            Field::CpuShares => 0,
            Field::CpuQuota | Field::CpuPeriod => if resources.cpu.unwrap().shares is Some {
                1
            } else {
                0
            },
            Field::CpuSetCpus => 0,
            Field::CpuSetMems => if resources.cpuset.unwrap().cpus is Some {
                1
            } else {
                0
            },
            Field::IoWeight(i) => {
                let io = resources.io.unwrap();
                let k = Io::lemma_weight_entry_write(io.weight_devices, i);
                assert(Io::weight_write(io.weight_devices[i])[0] == Io::weight_writes(
                    io.weight_devices,
                )[k]);
                k
            },
            Field::IoReadBps(i) => {
                let io = resources.io.unwrap();
                Io::weight_writes(io.weight_devices).len() + i
            },
            Field::IoWriteBps(i) => {
                let io = resources.io.unwrap();
                Io::weight_writes(io.weight_devices).len() + io.throttle_read_bps.len() + i
            },
            Field::IoReadIops(i) => {
                let io = resources.io.unwrap();
                Io::weight_writes(io.weight_devices).len() + io.throttle_read_bps.len()
                    + io.throttle_write_bps.len() + i
            },
            Field::IoWriteIops(i) => {
                let io = resources.io.unwrap();
                Io::weight_writes(io.weight_devices).len() + io.throttle_read_bps.len()
                    + io.throttle_write_bps.len() + io.throttle_read_iops.len() + i
            },
            Field::MemoryLimit => 0,
            Field::MemoryReservation => if resources.memory.unwrap().limit is Some {
                1
            } else {
                0
            },
            Field::MemorySwap => {
                let memory = resources.memory.unwrap();
                (if memory.limit is Some {
                    1int
                } else {
                    0int
                }) + (if memory.reservation is Some {
                    1int
                } else {
                    0int
                })
            },
            Field::HugePageLimit(i) => i,
            Field::PidsMax => 0,
        }
    }

    /// Every write to the node is the write of a field that is present: no
    /// write is made for a field that is absent. The result is the field.
    pub proof fn lemma_write_has_field(resources: ResourceSpecView, k: int) -> (field: Field)
        requires
            0 <= k < Manager::writes(resources).len(),
        ensures
            field.present(resources),
            field.write(resources) == Manager::writes(resources)[k],
    {
        Manager::lemma_writes_in_order(resources);
        let cpu = ControllerType::Cpu.writes(resources);
        let cpuset = cpu + ControllerType::CpuSet.writes(resources);
        let io = cpuset + ControllerType::Io.writes(resources);
        let memory = io + ControllerType::Memory.writes(resources);
        let hugetlb = memory + ControllerType::HugeTlb.writes(resources);
        if k < cpu.len() {
            Self::lemma_controller_write_has_field(ControllerType::Cpu, resources, k)
        } else if k < cpuset.len() {
            Self::lemma_controller_write_has_field(ControllerType::CpuSet, resources, k - cpu.len())
        } else if k < io.len() {
            Self::lemma_controller_write_has_field(ControllerType::Io, resources, k - cpuset.len())
        } else if k < memory.len() {
            Self::lemma_controller_write_has_field(ControllerType::Memory, resources, k - io.len())
        } else if k < hugetlb.len() {
            Self::lemma_controller_write_has_field(
                ControllerType::HugeTlb,
                resources,
                k - memory.len(),
            )
        } else {
            Self::lemma_controller_write_has_field(
                ControllerType::Pids,
                resources,
                k - hugetlb.len(),
            )
        }
    }

    /// Every field that is present has its write among the writes to the
    /// node. The result is that write's place.
    pub proof fn lemma_field_has_write(self, resources: ResourceSpecView) -> (k: int)
        requires
            self.present(resources),
        ensures
            0 <= k < Manager::writes(resources).len(),
            Manager::writes(resources)[k] == self.write(resources),
    {
        Manager::lemma_writes_in_order(resources);
        let cpu = ControllerType::Cpu.writes(resources);
        let cpuset = cpu + ControllerType::CpuSet.writes(resources);
        let io = cpuset + ControllerType::Io.writes(resources);
        let memory = io + ControllerType::Memory.writes(resources);
        let hugetlb = memory + ControllerType::HugeTlb.writes(resources);
        let k = self.lemma_field_has_controller_write(resources);
        match self.controller() {
            ControllerType::Cpu => k,
            ControllerType::CpuSet => cpu.len() + k,
            ControllerType::Io => cpuset.len() + k,
            ControllerType::Memory => io.len() + k,
            ControllerType::HugeTlb => memory.len() + k,
            ControllerType::Pids => hugetlb.len() + k,
        }
    }

    /// Where a file is the file of no field that is present, no write names
    /// it, and it is left as it was: there if it was there, with the content
    /// it had.
    pub proof fn lemma_absent_fields_leave_file(
        resources: ResourceSpecView,
        files: Files,
        file: Seq<char>,
    )
        requires
            forall|field: Field| #[trigger]
                field.present(resources) ==> field.write(resources).file != file,
        ensures
            !touches(Manager::writes(resources), file),
            written(files, Manager::writes(resources)).dom().contains(file) == files.dom().contains(
                file,
            ),
            files.dom().contains(file) ==> written(files, Manager::writes(resources))[file]
                == files[file],
    {
        let writes = Manager::writes(resources);
        if touches(writes, file) {
            let k = choose|k: int| 0 <= k < writes.len() && (#[trigger] writes[k]).file == file;
            Self::lemma_write_has_field(resources, k);
        }
        lemma_written_file(files, writes, file);
    }

    /// Where no field is present, nothing is written.
    pub proof fn lemma_no_field_no_write(resources: ResourceSpecView)
        requires
            forall|field: Field| !#[trigger] field.present(resources),
        ensures
            Manager::writes(resources).len() == 0,
    {
        if Manager::writes(resources).len() > 0 {
            Self::lemma_write_has_field(resources, 0);
        }
    }

    /// Where the field is the only one present, exactly one write is made:
    /// the field's encoded value goes to the field's file, and every other
    /// file is left as it was.
    pub proof fn lemma_single_field(self, resources: ResourceSpecView, files: Files)
        requires
            self.present(resources),
            forall|other: Field| #[trigger] other.present(resources) ==> other == self,
        ensures
            Manager::writes(resources) == seq![self.write(resources)],
            written(files, Manager::writes(resources)) == files.insert(
                self.write(resources).file,
                self.write(resources).value,
            ),
    {
        Manager::lemma_writes_in_order(resources);
        let only = seq![self.write(resources)];
        assert forall|controller: ControllerType| controller != self.controller() implies (
        #[trigger] controller.writes(resources)).len() == 0 by {
            if controller.writes(resources).len() > 0 {
                Self::lemma_controller_write_has_field(controller, resources, 0);
            }
        }
        let own = self.controller().writes(resources);
        assert(own =~= only) by {
            self.lemma_field_has_controller_write(resources);
            self.lemma_single_field_single_write(resources);
        }
        assert(Manager::writes(resources) =~= only);
        assert(only.drop_last() =~= Seq::<WriteView>::empty());
        assert(written(files, only.drop_last()) == files);
    }

    /// Where the field is the only one present, its controller makes at most
    /// one write.
    proof fn lemma_single_field_single_write(self, resources: ResourceSpecView)
        requires
            self.present(resources),
            forall|other: Field| #[trigger] other.present(resources) ==> other == self,
        ensures
            self.controller().writes(resources).len() <= 1,
    {
        assert(Field::CpuShares.present(resources) ==> Field::CpuShares == self);
        assert(Field::CpuQuota.present(resources) ==> Field::CpuQuota == self);
        assert(Field::CpuPeriod.present(resources) ==> Field::CpuPeriod == self);
        assert(Field::CpuSetCpus.present(resources) ==> Field::CpuSetCpus == self);
        assert(Field::CpuSetMems.present(resources) ==> Field::CpuSetMems == self);
        assert(Field::MemoryLimit.present(resources) ==> Field::MemoryLimit == self);
        assert(Field::MemoryReservation.present(resources) ==> Field::MemoryReservation == self);
        assert(Field::MemorySwap.present(resources) ==> Field::MemorySwap == self);
        assert(Field::HugePageLimit(0).present(resources) ==> Field::HugePageLimit(0) == self);
        assert(Field::HugePageLimit(1).present(resources) ==> Field::HugePageLimit(1) == self);
        if self.controller() == ControllerType::Io {
            let io = resources.io.unwrap();
            assert(Field::IoReadBps(0).present(resources) ==> Field::IoReadBps(0) == self);
            assert(Field::IoReadBps(1).present(resources) ==> Field::IoReadBps(1) == self);
            assert(Field::IoWriteBps(0).present(resources) ==> Field::IoWriteBps(0) == self);
            assert(Field::IoWriteBps(1).present(resources) ==> Field::IoWriteBps(1) == self);
            assert(Field::IoReadIops(0).present(resources) ==> Field::IoReadIops(0) == self);
            assert(Field::IoReadIops(1).present(resources) ==> Field::IoReadIops(1) == self);
            assert(Field::IoWriteIops(0).present(resources) ==> Field::IoWriteIops(0) == self);
            assert(Field::IoWriteIops(1).present(resources) ==> Field::IoWriteIops(1) == self);
            match self {
                Field::IoWeight(j) => {
                    assert forall|i: int| 0 <= i < io.weight_devices.len() && i != j implies (
                    #[trigger] io.weight_devices[i]).weight is None by {
                        assert(Field::IoWeight(i).present(resources) ==> Field::IoWeight(i)
                            == self);
                    }
                    Io::lemma_weight_writes_single(io.weight_devices, j);
                },
                _ => {
                    Io::lemma_weight_requested_iff_writes(io.weight_devices);
                    if Io::weight_requested(io.weight_devices) {
                        let i = choose|i: int|
                            0 <= i < io.weight_devices.len() && (
                            #[trigger] io.weight_devices[i]).weight is Some;
                        assert(Field::IoWeight(i).present(resources));
                    }
                },
            }
        }
    }
}

} // verus!
