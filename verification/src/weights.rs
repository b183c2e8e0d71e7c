//! Weighted choice of a file by its share of the corpus duration.
//!
//! Durations are whole microseconds. The cumulative share of file `i` is the
//! exact fraction `cumulative[i] / total`; a draw `d` stands for the fraction
//! `d / DRAW_DENOMINATOR`. A draw selects the first file whose cumulative
//! share is not less than it.

use crate::error::ConfigError;
use crate::rng::DRAW_DENOMINATOR;
use vstd::prelude::*;

verus! {

/// The smallest total duration, in microseconds, of a corpus that weighted
/// sampling accepts.
pub const MIN_TOTAL_DURATION: u64 = 10;

/// The sum of the durations.
pub open spec fn total_duration(durations: Seq<u64>) -> nat
    decreases durations.len(),
{
    if durations.len() == 0 {
        0
    } else {
        total_duration(durations.drop_last()) + durations.last() as nat
    }
}

/// The share `cumulative / total` is not less than the fraction that `draw`
/// stands for.
pub open spec fn reaches(cumulative: u64, total: u64, draw: u64) -> bool {
    draw * total <= cumulative * DRAW_DENOMINATOR
}

/// Index `i` is the first whose cumulative share is not less than `draw`.
pub open spec fn selects(cumulative: Seq<u64>, draw: u64, i: int) -> bool {
    &&& 0 <= i < cumulative.len()
    &&& reaches(cumulative[i], cumulative.last(), draw)
    &&& forall|j: int| 0 <= j < i ==> !reaches(#[trigger] cumulative[j], cumulative.last(), draw)
}

/// The running sums of a corpus's durations.
pub open spec fn running_sums(durations: Seq<u64>, cumulative: Seq<u64>) -> bool {
    &&& cumulative.len() == durations.len()
    &&& forall|i: int|
        0 <= i < cumulative.len() ==> #[trigger] cumulative[i] as nat == total_duration(
            durations.take(i + 1),
        )
}

/// A sum of durations does not shrink when more of them are taken.
pub proof fn lemma_total_monotonic(durations: Seq<u64>, i: int, j: int)
    requires
        0 <= i <= j <= durations.len(),
    ensures
        total_duration(durations.take(i)) <= total_duration(durations.take(j)),
    decreases j - i,
{
    if i < j {
        lemma_total_monotonic(durations, i, j - 1);
        assert(durations.take(j).drop_last() =~= durations.take(j - 1));
    }
}

/// The cumulative durations of a corpus, from which a draw selects a file.
pub struct CumulativeWeights {
    cumulative: Vec<u64>,
}

impl View for CumulativeWeights {
    type V = Seq<u64>;

    closed spec fn view(&self) -> Seq<u64> {
        self.cumulative@
    }
}

impl CumulativeWeights {
    /// The values never decrease, and the last one, the total, is at least
    /// [`MIN_TOTAL_DURATION`].
    pub open spec fn wf(&self) -> bool {
        &&& self@.len() > 0
        &&& forall|i: int, j: int| 0 <= i <= j < self@.len() ==> self@[i] <= self@[j]
        &&& self@.last() >= MIN_TOTAL_DURATION
    }

    /// Builds the table for a corpus, or refuses a corpus whose durations add
    /// up to less than [`MIN_TOTAL_DURATION`].
    pub fn new(durations: &Vec<u64>) -> (r: Result<Self, ConfigError>)
        requires
            total_duration(durations@) <= u64::MAX,
        ensures
            r is Ok <==> total_duration(durations@) >= MIN_TOTAL_DURATION,
            r matches Ok(w) ==> w.wf() && running_sums(durations@, w@),
            r matches Err(e) ==> e is DegenerateCorpus,
    {
        let mut cumulative: Vec<u64> = Vec::new();
        let mut sum: u64 = 0;
        let mut i: usize = 0;
        assert(durations@.take(durations@.len() as int) =~= durations@);
        while i < durations.len()
            invariant
                i <= durations.len(),
                total_duration(durations@) <= u64::MAX,
                sum as nat == total_duration(durations@.take(i as int)),
                cumulative@.len() == i,
                forall|k: int|
                    0 <= k < i ==> #[trigger] cumulative@[k] as nat == total_duration(
                        durations@.take(k + 1),
                    ),
            decreases durations.len() - i,
        {
            proof {
                lemma_total_monotonic(durations@, i + 1, durations@.len() as int);
                assert(durations@.take(durations@.len() as int) =~= durations@);
                assert(durations@.take(i + 1).drop_last() =~= durations@.take(i as int));
            }
            sum = sum + durations[i];
            cumulative.push(sum);
            i += 1;
        }
        if sum < MIN_TOTAL_DURATION {
            return Err(ConfigError::DegenerateCorpus);
        }
        let w = CumulativeWeights { cumulative };
        proof {
            assert forall|a: int, b: int| 0 <= a <= b < w@.len() implies w@[a] <= w@[b] by {
                lemma_total_monotonic(durations@, a + 1, b + 1);
            }
        }
        Ok(w)
    }

    /// The number of files.
    pub fn len(&self) -> (r: usize)
        ensures
            r == self@.len(),
    {
        self.cumulative.len()
    }

    /// The sum of all durations.
    pub fn total(&self) -> (r: u64)
        requires
            self.wf(),
        ensures
            r == self@.last(),
    {
        self.cumulative[self.cumulative.len() - 1]
    }

    /// The file that a draw selects: the first whose cumulative share is not
    /// less than the draw. The last share is the whole, which no draw
    /// reaches beyond, so the search never leaves the table.
    pub fn select(&self, draw: u64) -> (r: usize)
        requires
            self.wf(),
            draw < DRAW_DENOMINATOR,
        ensures
            selects(self@, draw, r as int),
    {
        let n = self.cumulative.len();
        let total = self.cumulative[n - 1];
        assert(draw * total <= u128::MAX && draw * total < total * DRAW_DENOMINATOR)
            by (nonlinear_arith)
            requires
                draw < 0x10_0000_0000_0000u64,
                0 < total <= u64::MAX,
        ;
        let target: u128 = (draw as u128) * (total as u128);
        let mut lo: usize = 0;
        let mut hi: usize = n - 1;
        while lo < hi
            invariant
                self.wf(),
                n == self@.len(),
                total == self@.last(),
                target == draw * total,
                lo <= hi < n,
                reaches(self@[hi as int], total, draw),
                forall|j: int| 0 <= j < lo ==> !reaches(#[trigger] self@[j], total, draw),
            decreases hi - lo,
        {
            let mid = lo + (hi - lo) / 2;
            let c = self.cumulative[mid];
            if (c as u128) * (DRAW_DENOMINATOR as u128) < target {
                lo = mid + 1;
            } else {
                hi = mid;
            }
        }
        lo
    }
}

/// A draw selects file `i` exactly when its fraction lies above the
/// cumulative share of the file before and not above that of file `i`: an
/// interval whose length is the file's own share of the total duration.
pub proof fn lemma_selection_interval(w: CumulativeWeights, draw: u64, i: int)
    requires
        w.wf(),
        0 <= i < w@.len(),
    ensures
        selects(w@, draw, i) <==> {
            &&& reaches(w@[i], w@.last(), draw)
            &&& i > 0 ==> !reaches(w@[i - 1], w@.last(), draw)
        },
{
    let total = w@.last();
}

/// No draw selects two files.
pub proof fn lemma_selection_unique(cumulative: Seq<u64>, draw: u64, i: int, j: int)
    requires
        selects(cumulative, draw, i),
        selects(cumulative, draw, j),
    ensures
        i == j,
{
}

/// The number of draws below `n` whose fraction the share `cumulative /
/// total` reaches.
pub open spec fn reach_count(cumulative: u64, total: u64, n: nat) -> nat
    decreases n,
{
    if n == 0 {
        0
    } else {
        reach_count(cumulative, total, (n - 1) as nat) + if reaches(
            cumulative,
            total,
            (n - 1) as u64,
        ) {
            1nat
        } else {
            0nat
        }
    }
}

/// The number of draws below `n` that select file `i`.
pub open spec fn select_count(cumulative: Seq<u64>, i: int, n: nat) -> nat
    decreases n,
{
    if n == 0 {
        0
    } else {
        select_count(cumulative, i, (n - 1) as nat) + if selects(cumulative, (n - 1) as u64, i) {
            1nat
        } else {
            0nat
        }
    }
}

/// The duration of file `i`, read off the running sums.
pub open spec fn duration_at(cumulative: Seq<u64>, i: int) -> int {
    if i == 0 {
        cumulative[0] as int
    } else {
        cumulative[i] - cumulative[i - 1]
    }
}

/// The draws that a share reaches are the smallest ones: as many as the
/// whole part of the share times the denominator, and one more for the
/// draw zero.
proof fn lemma_reach_count(cumulative: u64, total: u64, n: nat)
    requires
        total > 0,
        n <= DRAW_DENOMINATOR,
    ensures
        reach_count(cumulative, total, n) == if n <= cumulative * DRAW_DENOMINATOR / (
        total as int) + 1 {
            n as int
        } else {
            cumulative * DRAW_DENOMINATOR / (total as int) + 1
        },
    decreases n,
{
    if n > 0 {
        lemma_reach_count(cumulative, total, (n - 1) as nat);
        let x = cumulative * DRAW_DENOMINATOR;
        let t = total as int;
        let d = n - 1;
        assert(d * t <= x <==> d <= x / t) by (nonlinear_arith)
            requires
                t > 0,
                x >= 0,
                d >= 0,
        ;
    }
}

/// The draws that select a file are those that its own share reaches and
/// the share of the file before does not.
proof fn lemma_select_count(w: CumulativeWeights, i: int, n: nat)
    requires
        w.wf(),
        0 <= i < w@.len(),
        n <= DRAW_DENOMINATOR,
    ensures
        select_count(w@, i, n) == reach_count(w@[i], w@.last(), n) - if i > 0 {
            reach_count(w@[i - 1], w@.last(), n) as int
        } else {
            0
        },
        i > 0 ==> reach_count(w@[i - 1], w@.last(), n) <= reach_count(w@[i], w@.last(), n),
    decreases n,
{
    if n > 0 {
        lemma_select_count(w, i, (n - 1) as nat);
        lemma_selection_interval(w, (n - 1) as u64, i);
    }
}

/// Each file is selected by its share of all draws: of the
/// `DRAW_DENOMINATOR` draws that there are, the number that select file `i`
/// is the file's share of the total duration, to within one draw. A draw
/// that is uniform therefore selects a file with the probability of its
/// duration over the sum of the durations, to within `2^-52`.
pub proof fn lemma_selection_share(w: CumulativeWeights, i: int)
    requires
        w.wf(),
        0 <= i < w@.len(),
    ensures
        duration_at(w@, i) * DRAW_DENOMINATOR - w@.last() <= select_count(
            w@,
            i,
            DRAW_DENOMINATOR as nat,
        ) * w@.last() <= duration_at(w@, i) * DRAW_DENOMINATOR + w@.last(),
{
    let n = DRAW_DENOMINATOR as nat;
    let t = w@.last() as int;
    let den = DRAW_DENOMINATOR as int;
    lemma_select_count(w, i, n);
    lemma_reach_count(w@[i], w@.last(), n);
    let a = w@[i] as int;
    let qa = a * den / t;
    assert(qa * t <= a * den < qa * t + t) by (nonlinear_arith)
        requires
            qa == a * den / t,
            t > 0,
            a >= 0,
            den > 0,
    ;
    assert(a <= t);
    assert(a == t ==> qa == den) by (nonlinear_arith)
        requires
            qa * t <= a * den < qa * t + t,
            t > 0,
            den > 0,
    ;
    assert(a < t ==> qa < den) by (nonlinear_arith)
        requires
            qa * t <= a * den < qa * t + t,
            0 <= a < t || a == t,
            den > 0,
    ;
    let ra = reach_count(w@[i], w@.last(), n) as int;
    assert(ra == if a == t {
        den
    } else {
        qa + 1
    });
    if i > 0 {
        lemma_reach_count(w@[i - 1], w@.last(), n);
        let b = w@[i - 1] as int;
        let qb = b * den / t;
        assert(qb * t <= b * den < qb * t + t) by (nonlinear_arith)
            requires
                qb == b * den / t,
                t > 0,
                b >= 0,
                den > 0,
        ;
        assert(b <= a);
        assert(b == t ==> qb == den) by (nonlinear_arith)
            requires
                qb * t <= b * den < qb * t + t,
                t > 0,
                den > 0,
        ;
        assert(b < t ==> qb < den) by (nonlinear_arith)
            requires
                qb * t <= b * den < qb * t + t,
                0 <= b < t || b == t,
                den > 0,
        ;
        let rb = reach_count(w@[i - 1], w@.last(), n) as int;
        assert(rb == if b == t {
            den
        } else {
            qb + 1
        });
        let count = ra - rb;
        assert((a - b) * den - t <= count * t <= (a - b) * den + t) by (nonlinear_arith)
            requires
                count == ra - rb,
                ra == if a == t {
                    den
                } else {
                    qa + 1
                },
                rb == if b == t {
                    den
                } else {
                    qb + 1
                },
                qa * t <= a * den < qa * t + t,
                qb * t <= b * den < qb * t + t,
                a == t ==> qa == den,
                b == t ==> qb == den,
                t > 0,
        ;
    } else {
        assert(a * den - t <= ra * t <= a * den + t) by (nonlinear_arith)
            requires
                ra == if a == t {
                    den
                } else {
                    qa + 1
                },
                qa * t <= a * den < qa * t + t,
                a == t ==> qa == den,
                t > 0,
        ;
    }
}


} // verus!
