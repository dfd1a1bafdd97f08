//! The hugetlb controller: a limit for each size of huge page.

use crate::resources::{HugePageLimit, HugePageLimitView, HugeTlbSpec, HugeTlbSpecView};
use crate::write::{Write, WriteView};
use vstd::prelude::*;
use vstd::string::*;

verus! {

/// What every limit file's name starts with, before the page size.
pub const CGROUP_HUGETLB_PREFIX: &'static str = "hugetlb.";

/// What every limit file's name ends with, after the page size.
pub const CGROUP_HUGETLB_SUFFIX: &'static str = ".max";

/// The hugetlb controller.
pub struct HugeTlb {}

impl HugeTlb {
    /// The name of the file that limits pages of size `page_size`.
    pub open spec fn limit_file(page_size: Seq<char>) -> Seq<char> {
        CGROUP_HUGETLB_PREFIX@ + page_size + CGROUP_HUGETLB_SUFFIX@
    }

    /// The write that one entry asks for.
    pub open spec fn limit_write(entry: HugePageLimitView) -> WriteView {
        WriteView { file: Self::limit_file(entry.page_size), value: entry.limit.encoding() }
    }

    /// The writes that `hugetlb` asks for: one for each entry, in the
    /// entries' order, each to the file of its own page size.
    pub open spec fn writes(hugetlb: HugeTlbSpecView) -> Seq<WriteView> {
        hugetlb.limits.map_values(|entry: HugePageLimitView| Self::limit_write(entry))
    }

    /// Whether `hugetlb` holds any entry at all.
    pub open spec fn requested(hugetlb: HugeTlbSpecView) -> bool {
        hugetlb.limits.len() > 0
    }

    /// Whether `hugetlb` holds any entry at all.
    pub fn is_requested(hugetlb: &HugeTlbSpec) -> (requested: bool)
        ensures
            requested == Self::requested(hugetlb@),
    {
        hugetlb.limits.len() > 0
    }

    /// The controller has something to write exactly when an entry is present.
    pub proof fn lemma_requested_iff_writes(hugetlb: HugeTlbSpecView)
        ensures
            Self::requested(hugetlb) <==> Self::writes(hugetlb).len() > 0,
    {
    }

    /// The write that sets the limit of one page size.
    pub fn apply_limit(entry: &HugePageLimit) -> (write: Write)
        ensures
            write@ == Self::limit_write(entry@),
    {
        let mut file = String::from_str(CGROUP_HUGETLB_PREFIX);
        file.append(entry.page_size.as_str());
        file.append(CGROUP_HUGETLB_SUFFIX);
        Write { file, value: entry.limit.encode() }
    }

    /// The writes that limit a group's huge pages as `hugetlb` says.
    pub fn apply(hugetlb: &HugeTlbSpec) -> (writes: Vec<Write>)
        ensures
            writes.deep_view() == Self::writes(hugetlb@),
    {
        let mut writes: Vec<Write> = Vec::new();
        let mut i: usize = 0;
        while i < hugetlb.limits.len()
            invariant
                i <= hugetlb.limits.len(),
                writes.deep_view() =~= Self::writes(hugetlb@).take(i as int),
            decreases hugetlb.limits.len() - i,
        {
            let ghost before = writes.deep_view();
            let write = Self::apply_limit(&hugetlb.limits[i]);
            writes.push(write);
            proof {
                assert(writes.deep_view() =~= before.push(write@));
                assert(hugetlb@.limits[i as int] == hugetlb.limits[i as int]@);
            }
            i += 1;
        }
        assert(writes.deep_view() =~= Self::writes(hugetlb@));
        writes
    }
}

} // verus!
