//! Clip store: an ordered sequence of raw messages, each paired with its
//! offset in milliseconds from the start of the recording.
//!
//! The replay order is the insertion order, and offsets never decrease,
//! because recording appends in real time.

use vstd::prelude::*;

verus! {

/// One recorded event: the raw message bytes and the offset (in
/// milliseconds) since the recording started.
pub struct TimestampedMessage {
    pub data: Vec<u8>,
    pub offset: u64,
}

impl View for TimestampedMessage {
    type V = (Seq<u8>, u64);

    open spec fn view(&self) -> (Seq<u8>, u64) {
        (self.data@, self.offset)
    }
}

/// The mathematical content of a clip: each event as (bytes, offset).
pub open spec fn clip_view(clip: Seq<TimestampedMessage>) -> Seq<(Seq<u8>, u64)> {
    clip.map_values(|m: TimestampedMessage| m@)
}

/// Offsets never decrease along the clip.
pub open spec fn offsets_nondecreasing(clip: Seq<(Seq<u8>, u64)>) -> bool {
    forall|i: int, j: int| 0 <= i <= j < clip.len() ==> clip[i].1 <= clip[j].1
}

/// Copy a byte message, one value for one value.
pub fn copy_bytes(data: &Vec<u8>) -> (r: Vec<u8>)
    ensures
        r@ == data@,
{
    let mut r: Vec<u8> = Vec::new();
    let mut i: usize = 0;
    while i < data.len()
        invariant
            i <= data.len(),
            r@ == data@.subrange(0, i as int),
        decreases data.len() - i,
    {
        r.push(data[i]);
        proof {
            assert(r@ =~= data@.subrange(0, i + 1));
        }
        i = i + 1;
    }
    proof {
        assert(data@.subrange(0, data@.len() as int) =~= data@);
    }
    r
}

} // verus!
