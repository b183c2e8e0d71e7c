//! The windows of a corpus that are read without replacement.
//!
//! Times are whole microseconds. Every file is cut into windows of one
//! length that follow each other from offset zero. Without padding a window
//! is planned when it ends before the file does; with padding, when it
//! starts before the file ends.

use crate::rng::{pending, seed_rng, seeded_words};
use rand::rngs::StdRng;
use rand::seq::SliceRandom;
use vstd::prelude::*;

verus! {

/// A window of one file: the file's place in the corpus and the offset at
/// which the window starts.
#[derive(Clone, Copy, Debug, PartialEq, Eq, Structural)]
pub struct Segment {
    pub file_index: usize,
    pub start: u64,
}

/// One unit of work: a window and the index under which its sample is
/// emitted.
#[derive(Clone, Copy, Debug, PartialEq, Eq, Structural)]
pub struct WorkUnit {
    pub sample_index: u64,
    pub file_index: usize,
    pub start: u64,
}

/// Window number `k` of a file is planned.
pub open spec fn window_planned(duration: u64, window: u64, pad: bool, k: nat) -> bool {
    if pad {
        k * window < duration
    } else {
        k * window + window < duration
    }
}

/// The number of windows planned for a file.
pub open spec fn window_count(duration: u64, window: u64, pad: bool) -> nat {
    if duration == 0 {
        0
    } else if pad {
        ((duration - 1) / window as int + 1) as nat
    } else {
        ((duration - 1) / window as int) as nat
    }
}

/// The windows planned for a file, in the order of their offsets.
pub open spec fn file_segments(file_index: usize, duration: u64, window: u64, pad: bool) -> Seq<
    Segment,
> {
    Seq::new(
        window_count(duration, window, pad),
        |k: int| Segment { file_index, start: (k * window) as u64 },
    )
}

/// The windows planned for a corpus: those of each file, in file order.
pub open spec fn corpus_segments(durations: Seq<u64>, window: u64, pad: bool) -> Seq<Segment>
    decreases durations.len(),
{
    if durations.len() == 0 {
        Seq::empty()
    } else {
        corpus_segments(durations.drop_last(), window, pad) + file_segments(
            (durations.len() - 1) as usize,
            durations.last(),
            window,
            pad,
        )
    }
}

/// The stride that a step of `step_by` stands for: a step of zero keeps
/// every element, as a step of one does.
pub open spec fn stride_of(step_by: u64) -> int {
    if step_by > 1 {
        step_by as int
    } else {
        1
    }
}

/// How many elements are kept of `n` when the first `skip` are dropped and
/// then every `step_by`-th is taken, starting with the new head.
pub open spec fn kept_len(n: nat, skip: u64, step_by: u64) -> nat {
    if skip >= n {
        0
    } else {
        ((n - skip + stride_of(step_by) - 1) / stride_of(step_by)) as nat
    }
}

/// The elements kept when the first `skip` are dropped and then every
/// `step_by`-th is taken, starting with the new head.
pub open spec fn keep_every<T>(items: Seq<T>, skip: u64, step_by: u64) -> Seq<T> {
    Seq::new(
        kept_len(items.len(), skip, step_by),
        |j: int| items[skip + j * stride_of(step_by)],
    )
}

/// The windows planned are exactly those counted: window `k` of a file is
/// planned when `k` is below the file's window count, and only then.
pub proof fn lemma_window_count(duration: u64, window: u64, pad: bool, k: nat)
    requires
        window > 0,
    ensures
        k < window_count(duration, window, pad) <==> window_planned(duration, window, pad, k),
{
    let d = duration as int;
    let w = window as int;
    let k = k as int;
    if d > 0 {
        let q = (d - 1) / w;
        assert(q * w <= d - 1 < q * w + w && q >= 0) by (nonlinear_arith)
            requires
                q == (d - 1) / w,
                w > 0,
                d > 0,
        ;
        if k < q {
            assert(k * w + w <= q * w) by (nonlinear_arith)
                requires
                    k < q,
                    w > 0,
            ;
        }
        if k > q {
            assert(k * w >= q * w + w) by (nonlinear_arith)
                requires
                    k > q,
                    w > 0,
            ;
        }
    }
}

/// Element `j` of what is kept sits at place `skip + j * stride` of the
/// list, which is inside it.
pub proof fn lemma_kept_in_range(n: nat, skip: u64, step_by: u64, j: int)
    requires
        0 <= j < kept_len(n, skip, step_by),
    ensures
        skip + j * stride_of(step_by) < n,
        0 <= j * stride_of(step_by),
{
    let s = stride_of(step_by);
    let m = n - skip;
    assert(j * s < m && 0 <= j * s) by (nonlinear_arith)
        requires
            0 <= j < (m + s - 1) / s,
            s >= 1,
            m > 0,
    ;
}

/// Appends the windows of one file.
fn push_file_segments(
    out: &mut Vec<Segment>,
    file_index: usize,
    duration: u64,
    window: u64,
    pad: bool,
)
    requires
        window > 0,
    ensures
        final(out)@ == old(out)@ + file_segments(file_index, duration, window, pad),
{
    let ghost all = file_segments(file_index, duration, window, pad);
    let ghost before = out@;
    let ghost mut k: nat = 0;
    let mut start: u64 = 0;
    while window < duration && start < duration - window
        invariant
            window > 0,
            all == file_segments(file_index, duration, window, pad),
            start == k * window,
            start < duration || k == 0,
            k <= all.len(),
            out@ == before + all.take(k as int),
        decreases duration - start,
    {
        proof {
            lemma_window_count(duration, window, pad, k);
            assert((k + 1) * window == k * window + window) by (nonlinear_arith);
        }
        out.push(Segment { file_index, start });
        start = start + window;
        proof {
            k = k + 1;
        }
    }
    proof {
        lemma_window_count(duration, window, false, k);
        lemma_window_count(duration, window, pad, k);
    }
    if pad && start < duration {
        out.push(Segment { file_index, start });
    }
}

/// Plans the windows of a corpus: for each file, from offset zero, one
/// window after the other while the window ends before the file does; with
/// padding, one more window wherever a remainder is left.
pub fn plan_segments(durations: &Vec<u64>, window: u64, pad_last_segment: bool) -> (segments: Vec<
    Segment,
>)
    requires
        window > 0,
    ensures
        segments@ == corpus_segments(durations@, window, pad_last_segment),
{
    let mut segments: Vec<Segment> = Vec::new();
    let mut i: usize = 0;
    while i < durations.len()
        invariant
            window > 0,
            i <= durations.len(),
            segments@ == corpus_segments(durations@.take(i as int), window, pad_last_segment),
        decreases durations.len() - i,
    {
        proof {
            let next = durations@.take(i + 1);
            assert(next.drop_last() =~= durations@.take(i as int));
        }
        push_file_segments(&mut segments, i, durations[i], window, pad_last_segment);
        i += 1;
    }
    assert(durations@.take(i as int) =~= durations@);
    segments
}

/// Drops the first `skip` elements, then keeps every `step_by`-th of the
/// rest, starting with the new head. A step of zero keeps them all, and a
/// skip that reaches the end keeps none.
pub fn keep_every_nth<T: Copy>(items: &Vec<T>, skip: u64, step_by: u64) -> (kept: Vec<T>)
    ensures
        kept@ == keep_every(items@, skip, step_by),
{
    let n = items.len();
    let stride: u64 = if step_by > 1 {
        step_by
    } else {
        1
    };
    let ghost want = keep_every(items@, skip, step_by);
    let mut kept: Vec<T> = Vec::new();
    if skip < n as u64 {
        let mut pos: usize = skip as usize;
        assert((n - skip + stride_of(step_by) - 1) / stride_of(step_by) > 0) by (nonlinear_arith)
            requires
                n - skip > 0,
                stride_of(step_by) >= 1,
        ;
        loop
            invariant_except_break
                pos == skip + kept@.len() * stride,
                kept@.len() < want.len(),
                kept@ == want.take(kept@.len() as int),
            invariant
                n == items@.len(),
                stride == stride_of(step_by),
                want == keep_every(items@, skip, step_by),
                pos < n,
                skip <= pos,
            ensures
                kept@ == want,
            decreases n - pos,
        {
            let ghost j = kept@.len() as int;
            kept.push(items[pos]);
            let left: usize = n - pos;
            proof {
                let s = stride_of(step_by);
                let m = n - skip;
                assert((j + 1) * s == j * s + s) by (nonlinear_arith);
                if left as int <= s {
                    assert((m + s - 1) / s == j + 1) by (nonlinear_arith)
                        requires
                            j * s < m <= j * s + s,
                            s >= 1,
                            j >= 0,
                    ;
                } else {
                    assert((m + s - 1) / s > j + 1) by (nonlinear_arith)
                        requires
                            m > j * s + s,
                            s >= 1,
                            j >= 0,
                    ;
                }
            }
            if left as u64 <= stride {
                break ;
            }
            pos = pos + stride as usize;
        }
    }
    kept
}

/// `SliceRandom::shuffle` on a slice of windows: it swaps elements in
/// places that the generator's pending words decide, so the outcome is a
/// rearrangement of the list and a function of the list and those words.
#[verifier::external_body]
pub(crate) fn shuffle_segments(segments: &mut Vec<Segment>, rng: StdRng)
    ensures
        final(segments)@ == shuffled(old(segments)@, pending(rng)),
        final(segments)@.to_multiset() == old(segments)@.to_multiset(),
{
    let mut rng = rng;
    segments.shuffle(&mut rng);
}

/// The order in which `shuffle` leaves a list, given the words that its
/// generator has pending.
pub uninterp spec fn shuffled(items: Seq<Segment>, words: Map<nat, u64>) -> Seq<Segment>;

/// The order in which a plan reads the windows: as planned, or shuffled by
/// the generator of a seed.
pub open spec fn ordered(segments: Seq<Segment>, seed: Option<u64>) -> Seq<Segment> {
    match seed {
        Some(seed) => shuffled(segments, seeded_words(seed)),
        None => segments,
    }
}

/// The windows that one iterator reads, with the slice of the whole order
/// that it was given.
pub struct SegmentPlan {
    segments: Vec<Segment>,
    skip: u64,
    step_by: u64,
    total: Ghost<nat>,
}

impl View for SegmentPlan {
    type V = Seq<Segment>;

    closed spec fn view(&self) -> Seq<Segment> {
        self.segments@
    }
}

impl SegmentPlan {
    /// The number of leading windows of the whole order that were dropped.
    pub closed spec fn skip(&self) -> u64 {
        self.skip
    }

    /// The step between two windows kept.
    pub closed spec fn step_by(&self) -> u64 {
        self.step_by
    }

    /// The number of windows in the whole order.
    pub closed spec fn total(&self) -> nat {
        self.total@
    }

    /// The windows are what the slice keeps of an order of `total` windows.
    pub closed spec fn wf(&self) -> bool {
        &&& self.total@ <= usize::MAX
        &&& self.segments@.len() == kept_len(self.total@, self.skip, self.step_by)
    }

    /// The sample index of the window at `position`: with a step of at
    /// least one, its place in the whole order.
    pub open spec fn sample_index_at(&self, position: int) -> int {
        position * self.step_by() + self.skip()
    }

    /// Puts the windows in order, shuffled where a seed is given, drops the
    /// first `skip` and keeps every `step_by`-th of the rest.
    pub fn new(segments: Vec<Segment>, seed: Option<u64>, skip: u64, step_by: u64) -> (plan: Self)
        ensures
            plan.wf(),
            plan@ == keep_every(ordered(segments@, seed), skip, step_by),
            plan.skip() == skip,
            plan.step_by() == step_by,
            plan.total() == segments@.len(),
            plan@.len() == kept_len(segments@.len(), skip, step_by),
            ordered(segments@, seed).to_multiset() == segments@.to_multiset(),
    {
        let mut segments = segments;
        let ghost given = segments@;
        let n = segments.len();
        match seed {
            Some(seed) => {
                let rng = seed_rng(seed);
                shuffle_segments(&mut segments, rng);
                proof {
                    given.to_multiset_ensures();
                    segments@.to_multiset_ensures();
                }
            },
            None => {},
        }
        let kept = keep_every_nth(&segments, skip, step_by);
        SegmentPlan { segments: kept, skip, step_by, total: Ghost(n as nat) }
    }

    /// The number of windows.
    pub fn len(&self) -> (n: usize)
        ensures
            n == self@.len(),
    {
        self.segments.len()
    }

    /// The unit of work at `position`: the window there, under the sample
    /// index `position * step_by + skip`.
    pub fn unit(&self, position: usize) -> (unit: WorkUnit)
        requires
            self.wf(),
            position < self@.len(),
        ensures
            unit.sample_index == self.sample_index_at(position as int),
            unit.file_index == self@[position as int].file_index,
            unit.start == self@[position as int].start,
    {
        proof {
            let p = position as int;
            if self.step_by > 1 {
                lemma_kept_in_range(self.total@, self.skip, self.step_by, p);
            } else {
                assert(p * self.step_by <= p) by (nonlinear_arith)
                    requires
                        0 <= p,
                        0 <= self.step_by <= 1,
                ;
            }
        }
        let segment = self.segments[position];
        WorkUnit {
            sample_index: position as u64 * self.step_by + self.skip,
            file_index: segment.file_index,
            start: segment.start,
        }
    }
}

} // verus!
