//! The memory controller: hard limit, reservation and swap.

use crate::limit::Limit;
use crate::resources::MemorySpec;
use crate::write::{Write, WriteView};
use vstd::prelude::*;
use vstd::string::*;

verus! {

/// The file that holds the hard limit on memory.
pub const CGROUP_MEMORY_MAX: &'static str = "memory.max";

/// The file that holds the amount of memory protected from reclaim.
pub const CGROUP_MEMORY_LOW: &'static str = "memory.low";

/// The file that holds the limit on swap.
pub const CGROUP_MEMORY_SWAP: &'static str = "memory.swap.max";

/// The memory controller.
pub struct Memory {}

impl Memory {
    /// The write of one limit to `file`, or none where the limit is absent.
    pub open spec fn field_writes(file: Seq<char>, limit: Option<Limit>) -> Seq<WriteView> {
        match limit {
            Some(limit) => seq![WriteView { file, value: limit.encoding() }],
            None => Seq::empty(),
        }
    }

    /// The writes that `memory` asks for: each limit that is present goes to
    /// its own file, the hard limit first, then the reservation, then swap.
    pub open spec fn writes(memory: MemorySpec) -> Seq<WriteView> {
        Self::field_writes(CGROUP_MEMORY_MAX@, memory.limit) + Self::field_writes(
            CGROUP_MEMORY_LOW@,
            memory.reservation,
        ) + Self::field_writes(CGROUP_MEMORY_SWAP@, memory.swap)
    }

    /// Whether `memory` holds any field at all.
    pub open spec fn requested(memory: MemorySpec) -> bool {
        memory.limit is Some || memory.reservation is Some || memory.swap is Some
    }

    /// Whether `memory` holds any field at all.
    pub fn is_requested(memory: &MemorySpec) -> (requested: bool)
        ensures
            requested == Self::requested(*memory),
    {
        memory.limit.is_some() || memory.reservation.is_some() || memory.swap.is_some()
    }

    /// The controller has something to write exactly when a field is present.
    pub proof fn lemma_requested_iff_writes(memory: MemorySpec)
        ensures
            Self::requested(memory) <==> Self::writes(memory).len() > 0,
    {
    }

    fn push_field(writes: &mut Vec<Write>, file: &str, limit: Option<Limit>)
        ensures
            final(writes).deep_view() == old(writes).deep_view() + Self::field_writes(file@, limit),
    {
        if let Some(limit) = limit {
            writes.push(Write { file: String::from_str(file), value: limit.encode() });
        }
        assert(final(writes).deep_view() =~= old(writes).deep_view() + Self::field_writes(
            file@,
            limit,
        ));
    }

    /// The writes that limit a group's memory as `memory` says.
    pub fn apply(memory: &MemorySpec) -> (writes: Vec<Write>)
        ensures
            writes.deep_view() == Self::writes(*memory),
    {
        let mut writes: Vec<Write> = Vec::new();
        Self::push_field(&mut writes, CGROUP_MEMORY_MAX, memory.limit);
        Self::push_field(&mut writes, CGROUP_MEMORY_LOW, memory.reservation);
        Self::push_field(&mut writes, CGROUP_MEMORY_SWAP, memory.swap);
        assert(writes.deep_view() =~= Self::writes(*memory));
        writes
    }
}

} // verus!
