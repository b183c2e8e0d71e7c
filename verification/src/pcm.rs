//! Arithmetic on channels of samples: which part of a decoded packet
//! belongs to a window, how long a padded window is, and how two channels
//! are woven into one sequence and taken apart again.

use vstd::prelude::*;

verus! {

/// The part of one packet that a window takes.
#[derive(Clone, Copy, Debug, PartialEq, Eq, Structural)]
pub struct PacketSlice {
    /// The place in the packet of the first sample taken.
    pub start: usize,
    /// The place after the last sample taken.
    pub end: usize,
    /// The number of samples still to pass over in the packets that follow.
    pub remaining_skip: usize,
}

/// The smaller of two numbers.
pub open spec fn min_of(a: int, b: int) -> int {
    if a <= b {
        a
    } else {
        b
    }
}

/// What a window takes of a packet of `packet_len` samples, when `to_skip`
/// samples are still to be passed over and the window holds `have` of the
/// `want` samples it is to hold. A packet that lies before the window is
/// passed over whole; of any other, the samples after those to skip are
/// taken until the window is full.
pub open spec fn packet_slice(
    to_skip: usize,
    packet_len: usize,
    have: usize,
    want: usize,
) -> PacketSlice {
    if to_skip < packet_len {
        let missing = if want >= have {
            want - have
        } else {
            0
        };
        PacketSlice {
            start: to_skip,
            end: (to_skip + min_of(packet_len - to_skip, missing)) as usize,
            remaining_skip: 0,
        }
    } else {
        PacketSlice {
            start: packet_len,
            end: packet_len,
            remaining_skip: (to_skip - packet_len) as usize,
        }
    }
}

/// The part of a packet that a window takes.
pub fn slice_packet(to_skip: usize, packet_len: usize, have: usize, want: usize) -> (r: PacketSlice)
    ensures
        r == packet_slice(to_skip, packet_len, have, want),
        r.start <= r.end <= packet_len,
        have <= want ==> have + (r.end - r.start) <= want,
{
    if to_skip < packet_len {
        let missing = want.saturating_sub(have);
        let left = packet_len - to_skip;
        let take = if left <= missing {
            left
        } else {
            missing
        };
        PacketSlice { start: to_skip, end: to_skip + take, remaining_skip: 0 }
    } else {
        PacketSlice { start: packet_len, end: packet_len, remaining_skip: to_skip - packet_len }
    }
}

/// The length of a decoded window once it is padded: the length asked for
/// where padding is on and less was decoded, else the length decoded.
pub fn padded_len(unpadded_len: usize, samples_to_read: usize, pad_with_zeros: bool) -> (r: usize)
    ensures
        r == if pad_with_zeros && unpadded_len < samples_to_read {
            samples_to_read
        } else {
            unpadded_len
        },
{
    if pad_with_zeros && unpadded_len < samples_to_read {
        samples_to_read
    } else {
        unpadded_len
    }
}

/// Two channels woven into one sequence: the samples of the first at the
/// even places, those of the second at the odd ones, as far as both
/// channels reach.
pub open spec fn interleaved<T>(a: Seq<T>, b: Seq<T>) -> Seq<T> {
    Seq::new(
        (2 * min_of(a.len() as int, b.len() as int)) as nat,
        |k: int|
            if k % 2 == 0 {
                a[k / 2]
            } else {
                b[k / 2]
            },
    )
}

/// The samples at the even places, or at the odd ones.
pub open spec fn every_other<T>(data: Seq<T>, odd: bool) -> Seq<T> {
    Seq::new(
        data.len() / 2,
        |k: int|
            data[2 * k + if odd {
                1int
            } else {
                0int
            }],
    )
}

/// Weaves two channels into one sequence.
pub fn interleave<T: Copy>(a: &[T], b: &[T]) -> (r: Vec<T>)
    ensures
        r@ == interleaved(a@, b@),
{
    let n = if a.len() <= b.len() {
        a.len()
    } else {
        b.len()
    };
    let ghost want = interleaved(a@, b@);
    let mut r: Vec<T> = Vec::new();
    let mut i: usize = 0;
    while i < n
        invariant
            i <= n,
            n == min_of(a@.len() as int, b@.len() as int),
            want == interleaved(a@, b@),
            r@ == want.take(2 * i),
        decreases n - i,
    {
        r.push(a[i]);
        r.push(b[i]);
        i += 1;
    }
    r
}

/// Takes a sequence of two woven channels apart.
pub fn deinterleave<T: Copy>(data: &[T]) -> (r: (Vec<T>, Vec<T>))
    requires
        data@.len() % 2 == 0,
    ensures
        r.0@ == every_other(data@, false),
        r.1@ == every_other(data@, true),
{
    let n = data.len() / 2;
    let mut c0: Vec<T> = Vec::new();
    let mut c1: Vec<T> = Vec::new();
    let mut i: usize = 0;
    while i < n
        invariant
            i <= n,
            n == data@.len() / 2,
            data@.len() % 2 == 0,
            data@.len() <= usize::MAX,
            c0@ == every_other(data@, false).take(i as int),
            c1@ == every_other(data@, true).take(i as int),
        decreases n - i,
    {
        c0.push(data[2 * i]);
        c1.push(data[2 * i + 1]);
        i += 1;
    }
    (c0, c1)
}

/// Taking apart what was woven gives the two channels back, as far as both
/// reached.
pub proof fn lemma_deinterleave_interleave<T>(a: Seq<T>, b: Seq<T>)
    ensures
        every_other(interleaved(a, b), false) == a.take(min_of(a.len() as int, b.len() as int)),
        every_other(interleaved(a, b), true) == b.take(min_of(a.len() as int, b.len() as int)),
{
    let n = min_of(a.len() as int, b.len() as int);
}

} // verus!
