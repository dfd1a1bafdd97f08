//! The resource limits of one container, as the controllers read them.
//!
//! Every field is optional. A field that is absent leaves the kernel's
//! current value alone; it never stands for zero or for a default.

use crate::limit::Limit;
use vstd::prelude::*;

verus! {

/// CPU bandwidth: the share of CPU time and the hard cap on it.
///
/// The unified hierarchy has no control file for realtime scheduling, so
/// this slice holds no realtime budget.
#[derive(Clone, Copy, Debug, PartialEq, Eq, Default)]
pub struct CpuSpec {
    /// Relative weight against sibling groups.
    pub shares: Option<u64>,
    /// CPU time allowed in each period, in microseconds.
    pub quota: Option<Limit>,
    /// Length of the period, in microseconds.
    pub period: Option<u64>,
}

/// CPU and memory-node pinning.
#[derive(Clone, Debug, PartialEq, Eq, Default)]
pub struct CpuSetSpec {
    /// CPUs the group may run on, as a range list such as `1-3` or `0,2,4`.
    pub cpus: Option<String>,
    /// Memory nodes the group may allocate from, in the same syntax.
    pub mems: Option<String>,
}

/// The mathematical content of a [`CpuSetSpec`].
pub struct CpuSetSpecView {
    pub cpus: Option<Seq<char>>,
    pub mems: Option<Seq<char>>,
}

impl View for CpuSetSpec {
    type V = CpuSetSpecView;

    open spec fn view(&self) -> CpuSetSpecView {
        CpuSetSpecView { cpus: self.cpus.deep_view(), mems: self.mems.deep_view() }
    }
}

/// The weight of one block device.
#[derive(Clone, Copy, Debug, PartialEq, Eq, Default)]
pub struct WeightDevice {
    pub major: i64,
    pub minor: i64,
    /// The weight; an entry without one asks for nothing.
    pub weight: Option<u16>,
}

/// A rate limit on one block device.
#[derive(Clone, Copy, Debug, PartialEq, Eq, Default)]
pub struct ThrottleDevice {
    pub major: i64,
    pub minor: i64,
    /// Bytes or operations per second.
    pub rate: u64,
}

/// Block I/O: weights and rate limits, device by device.
#[derive(Clone, Debug, PartialEq, Eq, Default)]
pub struct IoSpec {
    pub weight_devices: Vec<WeightDevice>,
    pub throttle_read_bps: Vec<ThrottleDevice>,
    pub throttle_write_bps: Vec<ThrottleDevice>,
    pub throttle_read_iops: Vec<ThrottleDevice>,
    pub throttle_write_iops: Vec<ThrottleDevice>,
}

/// The mathematical content of an [`IoSpec`].
pub struct IoSpecView {
    pub weight_devices: Seq<WeightDevice>,
    pub throttle_read_bps: Seq<ThrottleDevice>,
    pub throttle_write_bps: Seq<ThrottleDevice>,
    pub throttle_read_iops: Seq<ThrottleDevice>,
    pub throttle_write_iops: Seq<ThrottleDevice>,
}

impl View for IoSpec {
    type V = IoSpecView;

    open spec fn view(&self) -> IoSpecView {
        IoSpecView {
            weight_devices: self.weight_devices@,
            throttle_read_bps: self.throttle_read_bps@,
            throttle_write_bps: self.throttle_write_bps@,
            throttle_read_iops: self.throttle_read_iops@,
            throttle_write_iops: self.throttle_write_iops@,
        }
    }
}

/// Memory: the hard limit, the protected reservation and the swap limit.
///
/// The unified hierarchy accounts kernel memory together with the rest, so
/// this slice holds no separate kernel-memory limit.
#[derive(Clone, Copy, Debug, PartialEq, Eq, Default)]
pub struct MemorySpec {
    pub limit: Option<Limit>,
    pub reservation: Option<Limit>,
    pub swap: Option<Limit>,
}

/// The limit on huge pages of one size.
#[derive(Clone, Debug, PartialEq, Eq)]
pub struct HugePageLimit {
    /// The page size as the kernel spells it, such as `2MB` or `1GB`.
    pub page_size: String,
    /// The limit in bytes.
    pub limit: Limit,
}

/// The mathematical content of a [`HugePageLimit`].
pub struct HugePageLimitView {
    pub page_size: Seq<char>,
    pub limit: Limit,
}

impl View for HugePageLimit {
    type V = HugePageLimitView;

    open spec fn view(&self) -> HugePageLimitView {
        HugePageLimitView { page_size: self.page_size@, limit: self.limit }
    }
}

impl DeepView for HugePageLimit {
    type V = HugePageLimitView;

    open spec fn deep_view(&self) -> HugePageLimitView {
        self@
    }
}

/// Huge pages: one limit for each page size named.
#[derive(Clone, Debug, PartialEq, Eq, Default)]
pub struct HugeTlbSpec {
    pub limits: Vec<HugePageLimit>,
}

/// The mathematical content of a [`HugeTlbSpec`].
pub struct HugeTlbSpecView {
    pub limits: Seq<HugePageLimitView>,
}

impl View for HugeTlbSpec {
    type V = HugeTlbSpecView;

    open spec fn view(&self) -> HugeTlbSpecView {
        HugeTlbSpecView { limits: self.limits.deep_view() }
    }
}

/// The number of processes.
#[derive(Clone, Copy, Debug, PartialEq, Eq, Default)]
pub struct PidsSpec {
    pub max: Option<Limit>,
}

/// The resource limits of one container: one optional slice for each
/// controller.
#[derive(Clone, Debug, PartialEq, Eq, Default)]
pub struct ResourceSpec {
    pub cpu: Option<CpuSpec>,
    pub cpuset: Option<CpuSetSpec>,
    pub io: Option<IoSpec>,
    pub memory: Option<MemorySpec>,
    pub hugetlb: Option<HugeTlbSpec>,
    pub pids: Option<PidsSpec>,
}

/// The mathematical content of a [`ResourceSpec`].
pub struct ResourceSpecView {
    pub cpu: Option<CpuSpec>,
    pub cpuset: Option<CpuSetSpecView>,
    pub io: Option<IoSpecView>,
    pub memory: Option<MemorySpec>,
    pub hugetlb: Option<HugeTlbSpecView>,
    pub pids: Option<PidsSpec>,
}

impl View for ResourceSpec {
    type V = ResourceSpecView;

    open spec fn view(&self) -> ResourceSpecView {
        ResourceSpecView {
            cpu: self.cpu,
            cpuset: match self.cpuset {
                Some(cpuset) => Some(cpuset@),
                None => None,
            },
            io: match self.io {
                Some(io) => Some(io@),
                None => None,
            },
            memory: self.memory,
            hugetlb: match self.hugetlb {
                Some(hugetlb) => Some(hugetlb@),
                None => None,
            },
            pids: self.pids,
        }
    }
}

} // verus!
