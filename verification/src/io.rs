//! The io controller: weights and rate limits of block devices.

use crate::resources::{IoSpec, IoSpecView, ThrottleDevice, WeightDevice};
use crate::text::{decimal, push_decimal, push_signed_decimal, signed_decimal};
use crate::write::{Write, WriteView};
use vstd::prelude::*;
use vstd::string::*;

verus! {

/// The file that holds the weights of devices.
pub const CGROUP_IO_WEIGHT: &'static str = "io.weight";

/// The file that holds the rate limits of devices.
pub const CGROUP_IO_MAX: &'static str = "io.max";

/// The key of a limit on bytes read per second.
pub const READ_BPS: &'static str = "rbps";

/// The key of a limit on bytes written per second.
pub const WRITE_BPS: &'static str = "wbps";

/// The key of a limit on read operations per second.
pub const READ_IOPS: &'static str = "riops";

/// The key of a limit on write operations per second.
pub const WRITE_IOPS: &'static str = "wiops";

/// The io controller.
pub struct Io {}

impl Io {
    /// How a line names its device: `<major>:<minor>`.
    pub open spec fn device(major: i64, minor: i64) -> Seq<char> {
        signed_decimal(major as int) + ":"@ + signed_decimal(minor as int)
    }

    /// The line that gives a device its weight: `<major>:<minor> <weight>`.
    pub open spec fn weight_line(major: i64, minor: i64, weight: u16) -> Seq<char> {
        Self::device(major, minor) + " "@ + decimal(weight as nat)
    }

    /// The line that limits one rate of a device:
    /// `<major>:<minor> <key>=<rate>`.
    pub open spec fn throttle_line(entry: ThrottleDevice, key: Seq<char>) -> Seq<char> {
        Self::device(entry.major, entry.minor) + " "@ + key + "="@ + decimal(entry.rate as nat)
    }

    /// The write that one weight entry asks for; none where it holds no
    /// weight.
    pub open spec fn weight_write(entry: WeightDevice) -> Seq<WriteView> {
        match entry.weight {
            Some(weight) => seq![
                WriteView {
                    file: CGROUP_IO_WEIGHT@,
                    value: Self::weight_line(entry.major, entry.minor, weight),
                },
            ],
            None => Seq::empty(),
        }
    }

    /// The writes that a list of weight entries asks for, in the entries'
    /// order.
    pub open spec fn weight_writes(entries: Seq<WeightDevice>) -> Seq<WriteView>
        decreases entries.len(),
    {
        if entries.len() == 0 {
            Seq::empty()
        } else {
            Self::weight_writes(entries.drop_last()) + Self::weight_write(entries.last())
        }
    }

    /// The write that one rate limit asks for.
    pub open spec fn throttle_write(entry: ThrottleDevice, key: Seq<char>) -> WriteView {
        WriteView { file: CGROUP_IO_MAX@, value: Self::throttle_line(entry, key) }
    }

    /// The writes that a list of rate limits of one kind asks for: one for
    /// each entry, in the entries' order.
    pub open spec fn throttle_writes(entries: Seq<ThrottleDevice>, key: Seq<char>) -> Seq<
        WriteView,
    > {
        entries.map_values(|entry: ThrottleDevice| Self::throttle_write(entry, key))
    }

    /// The writes that `io` asks for: the weights first, then the limits on
    /// bytes read, bytes written, read operations and write operations. Each
    /// entry is a line of its own, so devices that `io` does not name are
    /// left as they are.
    pub open spec fn writes(io: IoSpecView) -> Seq<WriteView> {
        Self::weight_writes(io.weight_devices) + Self::throttle_writes(
            io.throttle_read_bps,
            READ_BPS@,
        ) + Self::throttle_writes(io.throttle_write_bps, WRITE_BPS@) + Self::throttle_writes(
            io.throttle_read_iops,
            READ_IOPS@,
        ) + Self::throttle_writes(io.throttle_write_iops, WRITE_IOPS@)
    }

    /// Whether some entry of `entries` holds a weight.
    pub open spec fn weight_requested(entries: Seq<WeightDevice>) -> bool {
        exists|i: int| 0 <= i < entries.len() && (#[trigger] entries[i]).weight is Some
    }

    /// Whether `io` holds any weight or rate limit at all.
    pub open spec fn requested(io: IoSpecView) -> bool {
        Self::weight_requested(io.weight_devices) || io.throttle_read_bps.len() > 0
            || io.throttle_write_bps.len() > 0 || io.throttle_read_iops.len() > 0
            || io.throttle_write_iops.len() > 0
    }

    /// A list of weight entries has something to write exactly when one of
    /// them holds a weight.
    pub proof fn lemma_weight_requested_iff_writes(entries: Seq<WeightDevice>)
        ensures
            Self::weight_requested(entries) <==> Self::weight_writes(entries).len() > 0,
        decreases entries.len(),
    {
        if entries.len() > 0 {
            let front = entries.drop_last();
            Self::lemma_weight_requested_iff_writes(front);
            if Self::weight_requested(entries) {
                let i = choose|i: int|
                    0 <= i < entries.len() && (#[trigger] entries[i]).weight is Some;
                if i < front.len() {
                    assert(front[i].weight is Some);
                }
            }
            if Self::weight_requested(front) {
                let i = choose|i: int| 0 <= i < front.len() && (#[trigger] front[i]).weight is Some;
                assert(entries[i].weight is Some);
            }
            if entries.last().weight is Some {
                assert(entries[entries.len() - 1].weight is Some);
            }
        }
    }

    /// Every write of a list of weight entries is the write of one of its
    /// entries that holds a weight. The result is that entry's place.
    pub proof fn lemma_weight_write_entry(entries: Seq<WeightDevice>, k: int) -> (j: int)
        requires
            0 <= k < Self::weight_writes(entries).len(),
        ensures
            0 <= j < entries.len(),
            entries[j].weight is Some,
            Self::weight_write(entries[j]) == seq![Self::weight_writes(entries)[k]],
        decreases entries.len(),
    {
        let front = entries.drop_last();
        if k < Self::weight_writes(front).len() {
            Self::lemma_weight_write_entry(front, k)
        } else {
            assert(Self::weight_write(entries.last()) =~= seq![Self::weight_writes(entries)[k]]);
            entries.len() - 1
        }
    }

    /// Every entry that holds a weight has its write among the writes of the
    /// list. The result is that write's place.
    pub proof fn lemma_weight_entry_write(entries: Seq<WeightDevice>, j: int) -> (k: int)
        requires
            0 <= j < entries.len(),
            entries[j].weight is Some,
        ensures
            0 <= k < Self::weight_writes(entries).len(),
            Self::weight_write(entries[j]) == seq![Self::weight_writes(entries)[k]],
        decreases entries.len(),
    {
        let front = entries.drop_last();
        if j < front.len() {
            Self::lemma_weight_entry_write(front, j)
        } else {
            let k = Self::weight_writes(front).len() as int;
            assert(Self::weight_write(entries.last()) =~= seq![Self::weight_writes(entries)[k]]);
            k
        }
    }

    /// Where a single entry holds a weight, its write is the only one.
    pub proof fn lemma_weight_writes_single(entries: Seq<WeightDevice>, j: int)
        requires
            0 <= j < entries.len(),
            entries[j].weight is Some,
            forall|i: int|
                0 <= i < entries.len() && i != j ==> (#[trigger] entries[i]).weight is None,
        ensures
            Self::weight_writes(entries) == Self::weight_write(entries[j]),
        decreases entries.len(),
    {
        let front = entries.drop_last();
        if j < front.len() {
            assert(entries[entries.len() - 1].weight is None);
            Self::lemma_weight_writes_single(front, j);
            assert(Self::weight_writes(entries) =~= Self::weight_writes(front));
        } else {
            Self::lemma_weight_requested_iff_writes(front);
            assert(!Self::weight_requested(front)) by {
                if Self::weight_requested(front) {
                    let i = choose|i: int|
                        0 <= i < front.len() && (#[trigger] front[i]).weight is Some;
                    assert(entries[i].weight is None);
                }
            }
            assert(Self::weight_writes(entries) =~= Self::weight_write(entries[j]));
        }
    }

    /// The controller has something to write exactly when a weight or a rate
    /// limit is present.
    pub proof fn lemma_requested_iff_writes(io: IoSpecView)
        ensures
            Self::requested(io) <==> Self::writes(io).len() > 0,
    {
        Self::lemma_weight_requested_iff_writes(io.weight_devices);
    }

    fn has_weight(entries: &Vec<WeightDevice>) -> (found: bool)
        ensures
            found == Self::weight_requested(entries@),
    {
        let mut i: usize = 0;
        while i < entries.len()
            invariant
                i <= entries.len(),
                forall|j: int| 0 <= j < i ==> (#[trigger] entries@[j]).weight is None,
            decreases entries.len() - i,
        {
            if entries[i].weight.is_some() {
                return true;
            }
            i += 1;
        }
        false
    }

    /// Whether `io` holds any weight or rate limit at all.
    pub fn is_requested(io: &IoSpec) -> (requested: bool)
        ensures
            requested == Self::requested(io@),
    {
        Self::has_weight(&io.weight_devices) || io.throttle_read_bps.len() > 0
            || io.throttle_write_bps.len() > 0 || io.throttle_read_iops.len() > 0
            || io.throttle_write_iops.len() > 0
    }

    fn device_string(major: i64, minor: i64) -> (text: String)
        ensures
            text@ == Self::device(major, minor),
    {
        let mut text = String::new();
        push_signed_decimal(&mut text, major);
        text.append(":");
        push_signed_decimal(&mut text, minor);
        assert(text@ =~= Self::device(major, minor));
        text
    }

    /// The write that limits one rate of a device.
    pub fn apply_throttle(entry: &ThrottleDevice, key: &str) -> (write: Write)
        ensures
            write@ == Self::throttle_write(*entry, key@),
    {
        let mut value = Self::device_string(entry.major, entry.minor);
        value.append(" ");
        value.append(key);
        value.append("=");
        push_decimal(&mut value, entry.rate);
        Write { file: String::from_str(CGROUP_IO_MAX), value }
    }

    fn push_weights(writes: &mut Vec<Write>, entries: &Vec<WeightDevice>)
        ensures
            final(writes).deep_view() == old(writes).deep_view() + Self::weight_writes(entries@),
    {
        let mut i: usize = 0;
        while i < entries.len()
            invariant
                i <= entries.len(),
                writes.deep_view() =~= old(writes).deep_view() + Self::weight_writes(
                    entries@.take(i as int),
                ),
            decreases entries.len() - i,
        {
            let ghost before = writes.deep_view();
            let entry = entries[i];
            if let Some(weight) = entry.weight {
                let mut value = Self::device_string(entry.major, entry.minor);
                value.append(" ");
                push_decimal(&mut value, weight as u64);
                let write = Write { file: String::from_str(CGROUP_IO_WEIGHT), value };
                writes.push(write);
                assert(writes.deep_view() =~= before.push(write@));
            }
            proof {
                let next = entries@.take(i + 1);
                assert(next.drop_last() =~= entries@.take(i as int));
                assert(next.last() == entry);
                assert(writes.deep_view() =~= before + Self::weight_write(entry));
            }
            i += 1;
        }
        assert(entries@.take(entries.len() as int) =~= entries@);
    }

    fn push_throttles(writes: &mut Vec<Write>, entries: &Vec<ThrottleDevice>, key: &str)
        ensures
            final(writes).deep_view() == old(writes).deep_view() + Self::throttle_writes(
                entries@,
                key@,
            ),
    {
        let mut i: usize = 0;
        while i < entries.len()
            invariant
                i <= entries.len(),
                writes.deep_view() =~= old(writes).deep_view() + Self::throttle_writes(
                    entries@,
                    key@,
                ).take(i as int),
            decreases entries.len() - i,
        {
            let ghost before = writes.deep_view();
            let write = Self::apply_throttle(&entries[i], key);
            writes.push(write);
            proof {
                assert(writes.deep_view() =~= before.push(write@));
            }
            i += 1;
        }
        assert(final(writes).deep_view() =~= old(writes).deep_view() + Self::throttle_writes(
            entries@,
            key@,
        ));
    }

    /// The writes that set the weights and rate limits of `io`.
    pub fn apply(io: &IoSpec) -> (writes: Vec<Write>)
        ensures
            writes.deep_view() == Self::writes(io@),
    {
        let mut writes: Vec<Write> = Vec::new();
        Self::push_weights(&mut writes, &io.weight_devices);
        Self::push_throttles(&mut writes, &io.throttle_read_bps, READ_BPS);
        Self::push_throttles(&mut writes, &io.throttle_write_bps, WRITE_BPS);
        Self::push_throttles(&mut writes, &io.throttle_read_iops, READ_IOPS);
        Self::push_throttles(&mut writes, &io.throttle_write_iops, WRITE_IOPS);
        assert(writes.deep_view() =~= Self::writes(io@));
        writes
    }
}

} // verus!
