//! Encoding of bytes into the pulses that carry them, most significant bit
//! first.
use vstd::prelude::*;

use crate::timing::TimingProfile;

verus! {

/// Signal level of the high half of a pulse.
pub const LEVEL_HIGH: u32 = 1;

/// Signal level of the low half of a pulse.
pub const LEVEL_LOW: u32 = 0;

/// Number of pulses that carry one byte.
pub const ITEMS_PER_BYTE: usize = 8;

/// One encoded bit: a pulse period split into two halves, each held for a
/// number of ticks at a signal level.
#[derive(Clone, Copy, Debug, PartialEq, Eq, Structural)]
pub struct PulseItem {
    pub duration0: u32,
    pub level0: u32,
    pub duration1: u32,
    pub level1: u32,
}

impl PulseItem {
    pub fn new(duration0: u32, level0: u32, duration1: u32, level1: u32) -> (r: PulseItem)
        ensures
            r == (PulseItem { duration0, level0, duration1, level1 }),
    {
        PulseItem { duration0, level0, duration1, level1 }
    }
}

/// The pulse of a zero bit: short high, long low.
pub open spec fn zero_pulse(p: TimingProfile) -> PulseItem {
    PulseItem { duration0: p.t0h, level0: LEVEL_HIGH, duration1: p.t0l, level1: LEVEL_LOW }
}

/// The pulse of a one bit: long high, short low.
pub open spec fn one_pulse(p: TimingProfile) -> PulseItem {
    PulseItem { duration0: p.t1h, level0: LEVEL_HIGH, duration1: p.t1l, level1: LEVEL_LOW }
}

impl TimingProfile {
    /// The pulse of a zero bit.
    pub fn bit0(&self) -> (r: PulseItem)
        ensures
            r == zero_pulse(*self),
    {
        PulseItem::new(self.t0h, LEVEL_HIGH, self.t0l, LEVEL_LOW)
    }

    /// The pulse of a one bit.
    pub fn bit1(&self) -> (r: PulseItem)
        ensures
            r == one_pulse(*self),
    {
        PulseItem::new(self.t1h, LEVEL_HIGH, self.t1l, LEVEL_LOW)
    }
}

/// Bit `j` of `b` counted from the most significant one (`j == 0`).
pub open spec fn msb_bit(b: u8, j: int) -> bool {
    (b >> ((7 - j) as u8)) & 1u8 == 1u8
}

/// The pulse at position `i` of the encoding of `bytes`: bit `7 - i % 8`
/// of byte `i / 8`.
pub open spec fn pulse_at(p: TimingProfile, bytes: Seq<u8>, i: int) -> PulseItem {
    if msb_bit(bytes[i / 8], i % 8) {
        one_pulse(p)
    } else {
        zero_pulse(p)
    }
}

/// The pulses that carry `bytes`: eight per byte, bytes in order, each byte
/// most significant bit first.
pub open spec fn encoded(p: TimingProfile, bytes: Seq<u8>) -> Seq<PulseItem> {
    Seq::new((8 * bytes.len()) as nat, |i: int| pulse_at(p, bytes, i))
}

/// How many leading bytes of a `len`-byte source fit in `capacity` pulses.
pub open spec fn bytes_that_fit(len: int, capacity: int) -> int {
    if len < capacity / 8 {
        len
    } else {
        capacity / 8
    }
}

/// Encodes as many whole leading bytes of `src` as `capacity` pulses can
/// hold. Returns the pulses and how many bytes they carry, so that a caller
/// with a longer source can resume after them. Never more than `capacity`
/// pulses come back; a capacity under eight, or an empty source, gives none.
pub fn encode(profile: &TimingProfile, src: &[u8], capacity: usize) -> (r: (Vec<PulseItem>, usize))
    ensures
        r.1 == bytes_that_fit(src@.len() as int, capacity as int),
        r.0@ == encoded(*profile, src@.take(r.1 as int)),
        r.0@.len() <= capacity,
{
    let bit0 = profile.bit0();
    let bit1 = profile.bit1();
    let n: usize = if src.len() < capacity / ITEMS_PER_BYTE {
        src.len()
    } else {
        capacity / ITEMS_PER_BYTE
    };
    let mut items: Vec<PulseItem> = Vec::new();
    let mut size: usize = 0;
    while size < n
        invariant
            n <= src@.len(),
            n * 8 <= capacity,
            size <= n,
            bit0 == zero_pulse(*profile),
            bit1 == one_pulse(*profile),
            items@.len() == 8 * size,
            forall|k: int| 0 <= k < items@.len() ==> items@[k] == pulse_at(*profile, src@, k),
        decreases n - size,
    {
        let byte = src[size];
        let mut i: u8 = 0;
        while i < 8
            invariant
                size < n,
                n <= src@.len(),
                byte == src@[size as int],
                i <= 8,
                bit0 == zero_pulse(*profile),
                bit1 == one_pulse(*profile),
                items@.len() == 8 * size + i,
                forall|k: int| 0 <= k < items@.len() ==> items@[k] == pulse_at(*profile, src@, k),
            decreases 8 - i,
        {
            if (byte >> (7 - i)) & 1 == 1 {
                items.push(bit1);
            } else {
                items.push(bit0);
            }
            proof {
                let k = 8 * size + i;
                assert(k / 8 == size && k % 8 == i);
                assert(items@[k] == pulse_at(*profile, src@, k));
            }
            i = i + 1;
        }
        size = size + 1;
    }
    proof {
        let taken = src@.take(n as int);
        assert forall|k: int| 0 <= k < items@.len() implies items@[k] == pulse_at(*profile, taken, k) by {
            assert(k / 8 < n);
        }
        assert(items@ =~= encoded(*profile, taken));
    }
    (items, n)
}

/// Every byte becomes eight pulses, bytes in order, each most significant bit
/// first: pulse `i` of a full encoding is the one or zero pulse as bit
/// `7 - i % 8` of byte `i / 8` is set or not.
pub proof fn lemma_encode_layout(p: TimingProfile, bytes: Seq<u8>, i: int)
    requires
        0 <= i < 8 * bytes.len(),
    ensures
        encoded(p, bytes).len() == 8 * bytes.len(),
        encoded(p, bytes)[i] == (if msb_bit(bytes[i / 8], i % 8) {
            one_pulse(p)
        } else {
            zero_pulse(p)
        }),
{
}

} // verus!
