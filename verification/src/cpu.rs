//! The cpu controller: the weight of a group and the cap on its CPU time.

use crate::limit::Limit;
use crate::resources::CpuSpec;
use crate::text::{decimal, decimal_string, push_decimal};
use crate::write::{Write, WriteView};
use vstd::prelude::*;
use vstd::string::*;

verus! {

/// The file that holds a group's weight against its siblings.
pub const CGROUP_CPU_WEIGHT: &'static str = "cpu.weight";

/// The file that holds the quota and the period it is counted in.
pub const CGROUP_CPU_MAX: &'static str = "cpu.max";

/// The cpu controller.
pub struct Cpu {}

impl Cpu {
    /// The text for the bandwidth file. Quota and period are read together:
    /// both give `<quota> <period>`; a period alone gives `max <period>`; a
    /// quota alone is written by itself, which leaves the period in force
    /// untouched; neither gives nothing.
    pub open spec fn max_encoding(quota: Option<Limit>, period: Option<u64>) -> Option<Seq<char>> {
        match (quota, period) {
            (Some(quota), Some(period)) => Some(quota.encoding() + " "@ + decimal(period as nat)),
            (None, Some(period)) => Some(Limit::Max.encoding() + " "@ + decimal(period as nat)),
            (Some(quota), None) => Some(quota.encoding()),
            (None, None) => None,
        }
    }

    /// The writes that `cpu` asks for: the shares, in decimal, to the weight
    /// file; then quota and period, encoded together, to the bandwidth file.
    pub open spec fn writes(cpu: CpuSpec) -> Seq<WriteView> {
        let weight = match cpu.shares {
            Some(shares) => seq![
                WriteView { file: CGROUP_CPU_WEIGHT@, value: decimal(shares as nat) },
            ],
            None => Seq::empty(),
        };
        let max = match Self::max_encoding(cpu.quota, cpu.period) {
            Some(value) => seq![WriteView { file: CGROUP_CPU_MAX@, value }],
            None => Seq::empty(),
        };
        weight + max
    }

    /// Whether `cpu` holds any field at all.
    pub open spec fn requested(cpu: CpuSpec) -> bool {
        cpu.shares is Some || cpu.quota is Some || cpu.period is Some
    }

    /// Whether `cpu` holds any field at all.
    pub fn is_requested(cpu: &CpuSpec) -> (requested: bool)
        ensures
            requested == Self::requested(*cpu),
    {
        cpu.shares.is_some() || cpu.quota.is_some() || cpu.period.is_some()
    }

    /// The controller has something to write exactly when a field is present.
    pub proof fn lemma_requested_iff_writes(cpu: CpuSpec)
        ensures
            Self::requested(cpu) <==> Self::writes(cpu).len() > 0,
    {
    }

    /// The text for the bandwidth file, if quota or period is present.
    pub fn encode_max(quota: Option<Limit>, period: Option<u64>) -> (text: Option<String>)
        ensures
            text.deep_view() == Self::max_encoding(quota, period),
    {
        match (quota, period) {
            (None, None) => None,
            (Some(quota), None) => Some(quota.encode()),
            (quota, Some(period)) => {
                let mut text = match quota {
                    Some(quota) => quota.encode(),
                    None => Limit::Max.encode(),
                };
                text.append(" ");
                push_decimal(&mut text, period);
                Some(text)
            },
        }
    }

    /// The writes that set a group's CPU bandwidth as `cpu` says.
    pub fn apply(cpu: &CpuSpec) -> (writes: Vec<Write>)
        ensures
            writes.deep_view() == Self::writes(*cpu),
    {
        let mut writes: Vec<Write> = Vec::new();
        if let Some(shares) = cpu.shares {
            writes.push(
                Write { file: String::from_str(CGROUP_CPU_WEIGHT), value: decimal_string(shares) },
            );
        }
        if let Some(value) = Self::encode_max(cpu.quota, cpu.period) {
            writes.push(Write { file: String::from_str(CGROUP_CPU_MAX), value });
        }
        assert(writes.deep_view() =~= Self::writes(*cpu));
        writes
    }
}

} // verus!
