//! The reader's configuration, and the iterator that it builds: a plan of
//! the work, a pool for its results, and the consumer's pull.
//!
//! Times are whole microseconds.

use crate::error::ConfigError;
use crate::par_map::{par_map, par_range, Next, ParMap};
use crate::producer::Work;
use crate::rng::{draw_at, RngWithStep};
use crate::sample::{policy_named, policy_or_default, settle, settled};
use crate::sample::{Emitted, Failure, OnError, Outcome, SampleOrObject};
use crate::segments::{corpus_segments, keep_every, ordered, plan_segments};
use crate::segments::{Segment, SegmentPlan};
use crate::weights::{lemma_selection_unique, lemma_total_monotonic, running_sums, selects};
use crate::weights::{total_duration, CumulativeWeights, MIN_TOTAL_DURATION};
use std::sync::Arc;
use vstd::prelude::*;

verus! {

/// The seed of a reader that was given none.
pub const DEFAULT_SEED: u64 = 1337;

/// A file of the corpus and its duration.
#[derive(Clone, Debug)]
pub struct PathWithDuration {
    pub path: String,
    /// The duration in microseconds.
    pub duration: u64,
}

/// The corpus: shared, and never changed once built.
pub type Paths = Arc<Vec<PathWithDuration>>;

/// The order in which the corpus is read.
#[derive(Clone, Copy, Debug, PartialEq, Eq, Structural)]
pub enum IterOrder {
    /// The planned windows, in file order.
    Sequential,
    /// Files drawn by their share of the total duration, windows placed by
    /// a second draw. The stream has no end.
    RandomWithReplacement,
    /// The planned windows, shuffled.
    RandomNoReplacement,
}

/// How the work of one iterator is chosen. It is fixed when the iterator is
/// built.
#[derive(Clone, Copy, Debug, PartialEq, Eq, Structural)]
pub enum SamplingPlan {
    /// The planned windows in file order: the first `skip` dropped, then
    /// every `step_by`-th kept.
    Sequential { skip: u64, step_by: u64 },
    /// The planned windows shuffled from a seed, then sliced in the same
    /// way.
    ShuffledNoReplacement { seed: u64, skip: u64, step_by: u64 },
    /// Units drawn from the stream of a seed, without end.
    WeightedWithReplacement { seed: u64, skip: u64, step_by: u64 },
}

/// The configuration of a reader.
#[derive(Clone)]
pub struct DatasetReader {
    /// The corpus.
    pub paths: Paths,
    /// The length of a window in microseconds.
    pub duration: u64,
    /// The order in which the corpus is read.
    pub iter_order: IterOrder,
    /// The seed of the random orders.
    pub seed: u64,
    /// The number of leading units of the order that are left out.
    pub skip: u64,
    /// The number of workers, at most.
    pub num_threads: usize,
    /// What to do with a sample that failed.
    pub on_error: OnError,
    /// The step from one unit read to the next.
    pub step_by: u64,
    /// Whether the remainder of a file makes a window of its own, padded
    /// with zeros.
    pub pad_last_segment: bool,
    /// The sample rate to bring every sample to, if any.
    pub sample_rate: Option<usize>,
    /// The number of samples that each worker may have waiting.
    pub channel_len_per_thread: usize,
}

/// The durations of the corpus, in file order.
pub open spec fn durations_of(paths: Seq<PathWithDuration>) -> Seq<u64> {
    paths.map_values(|p: PathWithDuration| p.duration)
}

/// The corpus that a list of pairs of path and duration stands for.
pub open spec fn corpus_of(pairs: Seq<(String, u64)>) -> Seq<PathWithDuration> {
    pairs.map_values(|p: (String, u64)| PathWithDuration { path: p.0, duration: p.1 })
}

/// `rayon::current_num_threads`: the number of threads of the pool that the
/// calling thread belongs to, or of the global pool. It depends on the
/// machine and on the process, so nothing is promised of it.
#[verifier::external_body]
pub(crate) fn default_num_threads() -> usize {
    rayon::current_num_threads()
}

/// The durations of a corpus, in file order.
pub fn durations(paths: &Paths) -> (r: Vec<u64>)
    ensures
        r@ == durations_of(paths@),
{
    let mut r: Vec<u64> = Vec::new();
    let mut i: usize = 0;
    while i < paths.len()
        invariant
            i <= paths@.len(),
            r@ == durations_of(paths@).take(i as int),
        decreases paths@.len() - i,
    {
        r.push(paths[i].duration);
        i += 1;
    }
    r
}

/// The number of windows planned for a corpus.
pub fn segment_count(durations: &Vec<u64>, window: u64, pad_last_segment: bool) -> (n: u128)
    requires
        window > 0,
    ensures
        n == corpus_segments(durations@, window, pad_last_segment).len(),
{
    let mut n: u128 = 0;
    let mut i: usize = 0;
    while i < durations.len()
        invariant
            window > 0,
            i <= durations@.len(),
            n == corpus_segments(durations@.take(i as int), window, pad_last_segment).len(),
            n <= i * 0x1_0000_0000_0000_0000,
        decreases durations@.len() - i,
    {
        let d = durations[i];
        let count: u128 = if d == 0 {
            0
        } else if pad_last_segment {
            ((d - 1) / window) as u128 + 1
        } else {
            ((d - 1) / window) as u128
        };
        proof {
            let next = durations@.take(i + 1);
            assert(next.drop_last() =~= durations@.take(i as int));
        }
        n = n + count;
        i += 1;
    }
    assert(durations@.take(i as int) =~= durations@);
    n
}

impl DatasetReader {
    /// The reader that these settings make, with the number of threads
    /// given: it reads in sequence from the start, every window.
    pub open spec fn configured(
        paths: Seq<(String, u64)>,
        duration: u64,
        channel_len_per_thread: usize,
        pad_last_segment: bool,
        on_error: OnError,
        sample_rate: Option<usize>,
        num_threads: usize,
        r: DatasetReader,
    ) -> bool {
        &&& r.paths@ == corpus_of(paths)
        &&& r.duration == duration
        &&& r.iter_order == IterOrder::Sequential
        &&& r.seed == DEFAULT_SEED
        &&& r.skip == 0
        &&& r.num_threads == num_threads
        &&& r.on_error == on_error
        &&& r.step_by == 1
        &&& r.pad_last_segment == pad_last_segment
        &&& r.sample_rate == sample_rate
        &&& r.channel_len_per_thread == channel_len_per_thread
    }

    /// A reader over a list of pairs of path and duration. The error policy
    /// is read from its name and is `log` without one; a name that stands
    /// for no policy is refused. Without a number of threads the reader
    /// takes the one that the thread pool of the process has.
    pub fn new(
        paths: Vec<(String, u64)>,
        duration: u64,
        channel_len_per_thread: usize,
        pad_last_segment: bool,
        on_error: Option<&str>,
        sample_rate: Option<usize>,
        num_threads: Option<usize>,
    ) -> (r: Result<Self, ConfigError>)
        ensures
            r is Ok <==> policy_or_default(on_error) is Some,
            r matches Ok(reader) ==> DatasetReader::configured(
                paths@,
                duration,
                channel_len_per_thread,
                pad_last_segment,
                policy_or_default(on_error)->0,
                sample_rate,
                reader.num_threads,
                reader,
            ) && (num_threads matches Some(n) ==> reader.num_threads == n),
            r matches Err(e) ==> (e matches ConfigError::UnknownOnError { name } && on_error
                matches Some(given) && name@ == given@),
    {
        let policy = match OnError::parse_or_default(on_error) {
            Ok(policy) => policy,
            Err(e) => {
                return Err(e);
            },
        };
        let threads = match num_threads {
            Some(n) => n,
            None => default_num_threads(),
        };
        Ok(
            DatasetReader::with_threads(
                paths,
                duration,
                channel_len_per_thread,
                pad_last_segment,
                policy,
                sample_rate,
                threads,
            ),
        )
    }

    /// A reader with every setting given.
    pub fn with_threads(
        paths: Vec<(String, u64)>,
        duration: u64,
        channel_len_per_thread: usize,
        pad_last_segment: bool,
        on_error: OnError,
        sample_rate: Option<usize>,
        num_threads: usize,
    ) -> (r: Self)
        ensures
            DatasetReader::configured(
                paths@,
                duration,
                channel_len_per_thread,
                pad_last_segment,
                on_error,
                sample_rate,
                num_threads,
                r,
            ),
    {
        let mut corpus: Vec<PathWithDuration> = Vec::new();
        let mut i: usize = 0;
        while i < paths.len()
            invariant
                i <= paths@.len(),
                corpus@ == corpus_of(paths@).take(i as int),
            decreases paths@.len() - i,
        {
            let path = paths[i].0.clone();
            corpus.push(PathWithDuration { path, duration: paths[i].1 });
            i += 1;
        }
        assert(corpus@ =~= corpus_of(paths@));
        DatasetReader {
            paths: Arc::new(corpus),
            duration,
            iter_order: IterOrder::Sequential,
            seed: DEFAULT_SEED,
            skip: 0,
            num_threads,
            on_error,
            step_by: 1,
            pad_last_segment,
            sample_rate,
            channel_len_per_thread,
        }
    }

    /// The same reader, reading in sequence: the first `skip` windows
    /// dropped, then every `step_by`-th kept.
    pub fn seq(&self, skip: u64, step_by: u64) -> (r: Self)
        ensures
            r == (DatasetReader { iter_order: IterOrder::Sequential, skip, step_by, ..*self }),
    {
        DatasetReader {
            paths: self.paths.clone(),
            duration: self.duration,
            iter_order: IterOrder::Sequential,
            seed: self.seed,
            skip,
            num_threads: self.num_threads,
            on_error: self.on_error,
            step_by,
            pad_last_segment: self.pad_last_segment,
            sample_rate: self.sample_rate,
            channel_len_per_thread: self.channel_len_per_thread,
        }
    }

    /// The same reader, reading at random from a seed: the planned windows
    /// shuffled, or, with replacement, files drawn by weight.
    pub fn shuffle(&self, with_replacement: bool, seed: u64, skip: u64, step_by: u64) -> (r: Self)
        ensures
            r == (DatasetReader {
                iter_order: if with_replacement {
                    IterOrder::RandomWithReplacement
                } else {
                    IterOrder::RandomNoReplacement
                },
                seed,
                skip,
                step_by,
                ..*self
            }),
    {
        let iter_order = if with_replacement {
            IterOrder::RandomWithReplacement
        } else {
            IterOrder::RandomNoReplacement
        };
        DatasetReader {
            paths: self.paths.clone(),
            duration: self.duration,
            iter_order,
            seed,
            skip,
            num_threads: self.num_threads,
            on_error: self.on_error,
            step_by,
            pad_last_segment: self.pad_last_segment,
            sample_rate: self.sample_rate,
            channel_len_per_thread: self.channel_len_per_thread,
        }
    }

    /// The same reader with another number of threads.
    pub fn num_threads(&self, num_threads: usize) -> (r: Self)
        ensures
            r == (DatasetReader { num_threads, ..*self }),
    {
        DatasetReader {
            paths: self.paths.clone(),
            duration: self.duration,
            iter_order: self.iter_order,
            seed: self.seed,
            skip: self.skip,
            num_threads,
            on_error: self.on_error,
            step_by: self.step_by,
            pad_last_segment: self.pad_last_segment,
            sample_rate: self.sample_rate,
            channel_len_per_thread: self.channel_len_per_thread,
        }
    }

    /// The same reader with or without padding of the last window.
    pub fn pad_last_segment(&self, p: bool) -> (r: Self)
        ensures
            r == (DatasetReader { pad_last_segment: p, ..*self }),
    {
        DatasetReader {
            paths: self.paths.clone(),
            duration: self.duration,
            iter_order: self.iter_order,
            seed: self.seed,
            skip: self.skip,
            num_threads: self.num_threads,
            on_error: self.on_error,
            step_by: self.step_by,
            pad_last_segment: p,
            sample_rate: self.sample_rate,
            channel_len_per_thread: self.channel_len_per_thread,
        }
    }

    /// The same reader with the error policy of the given name; a name that
    /// stands for no policy is refused.
    pub fn on_error(&self, on_error: &str) -> (r: Result<Self, ConfigError>)
        ensures
            match r {
                Ok(reader) => policy_named(on_error@) == Some(reader.on_error)
                    && reader == (DatasetReader { on_error: reader.on_error, ..*self }),
                Err(e) => policy_named(on_error@) is None && (e
                    matches ConfigError::UnknownOnError { name } && name@ == on_error@),
            },
    {
        let policy = match OnError::parse(on_error) {
            Ok(policy) => policy,
            Err(e) => {
                return Err(e);
            },
        };
        Ok(
            DatasetReader {
                paths: self.paths.clone(),
                duration: self.duration,
                iter_order: self.iter_order,
                seed: self.seed,
                skip: self.skip,
                num_threads: self.num_threads,
                on_error: policy,
                step_by: self.step_by,
                pad_last_segment: self.pad_last_segment,
                sample_rate: self.sample_rate,
                channel_len_per_thread: self.channel_len_per_thread,
            },
        )
    }
}

/// The generators of a weighted stream fit their counters: the stride of
/// all workers together, and the place where the last worker starts.
pub open spec fn weighted_fits(skip: u64, step_by: u64, num_threads: usize) -> bool {
    &&& num_threads > 0
    &&& step_by * num_threads <= u64::MAX
    &&& skip + step_by * (num_threads - 1) <= u64::MAX
}

/// What weighted sampling works from: the table of cumulative durations,
/// and one generator for each worker.
pub struct WeightedPlan {
    pub weights: CumulativeWeights,
    pub rngs: Vec<RngWithStep>,
}

impl WeightedPlan {
    /// Worker `i` of `T` owns a generator of the stream of `seed` that
    /// stands `skip + step_by * i` units into it and strides by
    /// `step_by * T`.
    pub open spec fn wf(&self, seed: u64, skip: u64, step_by: u64) -> bool {
        &&& self.weights.wf()
        &&& forall|i: int|
            0 <= i < self.rngs@.len() ==> {
                &&& (#[trigger] self.rngs@[i]).wf()
                &&& self.rngs@[i].seed() == seed
                &&& self.rngs@[i].index() == skip + step_by * i
                &&& self.rngs@[i].step_by() == step_by * self.rngs@.len()
            }
    }
}

/// The plan of the work that the workers of an iterator share.
pub enum Source {
    /// The windows to read, for reading in sequence or shuffled.
    Segments(SegmentPlan),
    /// The table and the generators, for reading at random with replacement.
    Weighted(WeightedPlan),
}

/// The consumer's side of an iterator: the pool that the workers send to,
/// and the error policy.
pub struct DatasetIter<D, O> {
    pub paths: Paths,
    pub pm: ParMap<SampleOrObject<D, O>>,
    pub on_error: OnError,
}

/// What a pull hands to the consumer.
pub enum Pulled<D, O> {
    /// The next item of the stream.
    Yield(Emitted<D, O>),
    /// An item was left out of the stream; `log` holds the failure to
    /// report, if the policy asks for a report. Pull again.
    Skipped { log: Option<Failure> },
    /// An item failed, and the policy hands its failure to the caller.
    Raised(Failure),
    /// The next item is not produced yet: wait and pull again.
    Pending,
    /// The stream has ended.
    Finished,
    /// A worker has gone without its result. The stream cannot go on.
    Disconnected,
}

/// What a pull makes of what the pool hands out.
pub open spec fn pulled<D, O>(next: Next<SampleOrObject<D, O>>, on_error: OnError) -> Pulled<D, O> {
    match next {
        Next::Item(item) => match settled(item, on_error) {
            Outcome::Yield(emitted) => Pulled::Yield(emitted),
            Outcome::Skip { log } => Pulled::Skipped { log },
            Outcome::Raise(failure) => Pulled::Raised(failure),
        },
        Next::Pending => Pulled::Pending,
        Next::Finished => Pulled::Finished,
        Next::Disconnected => Pulled::Disconnected,
    }
}

/// A fresh pool of `len` positions for the workers that `num_threads` and
/// `len` allow, each with a queue of `channel_len` items.
pub open spec fn fresh_pool<T>(
    pm: ParMap<T>,
    len: usize,
    num_threads: usize,
    channel_len: usize,
) -> bool {
    &&& pm.wf()
    &&& pm.cnt() == 0
    &&& pm.len() == len
    &&& pm.workers() == if num_threads <= len {
        num_threads
    } else {
        len
    }
    &&& pm.open()
    &&& pm.drained() == Seq::<T>::empty()
    &&& forall|i: int|
        #![trigger pm.sent(i)]
        #![trigger pm.capacity(i)]
        #![trigger pm.worker_alive(i)]
        #![trigger pm.waiting(i)]
        0 <= i < pm.workers() ==> {
            &&& pm.sent(i) == Seq::<T>::empty()
            &&& pm.capacity(i) == channel_len
            &&& pm.worker_alive(i)
            &&& !pm.waiting(i)
        }
}

impl<D, O> DatasetIter<D, O> {
    /// An iterator without end over files drawn by their share of the total
    /// duration. A corpus whose durations add up to less than
    /// [`MIN_TOTAL_DURATION`] is refused.
    pub fn new_random(
        paths: &Paths,
        seed: u64,
        skip: u64,
        step_by: u64,
        on_error: OnError,
        num_threads: usize,
        channel_len_per_thread: usize,
    ) -> (r: Result<(Self, WeightedPlan), ConfigError>)
        requires
            total_duration(durations_of(paths@)) <= u64::MAX,
            total_duration(durations_of(paths@)) >= MIN_TOTAL_DURATION ==> weighted_fits(
                skip,
                step_by,
                num_threads,
            ),
        ensures
            r is Ok <==> total_duration(durations_of(paths@)) >= MIN_TOTAL_DURATION,
            r matches Err(e) ==> e is DegenerateCorpus,
            r matches Ok((iter, plan)) ==> {
                &&& plan.wf(seed, skip, step_by)
                &&& plan.rngs@.len() == num_threads
                &&& running_sums(durations_of(paths@), plan.weights@)
                &&& fresh_pool(iter.pm, usize::MAX, num_threads, channel_len_per_thread)
                &&& iter.on_error == on_error
                &&& iter.paths == *paths
            },
    {
        let durs = durations(paths);
        let weights = match CumulativeWeights::new(&durs) {
            Ok(weights) => weights,
            Err(e) => {
                return Err(e);
            },
        };
        let stride = step_by * (num_threads as u64);
        let master = RngWithStep::new(seed, skip, stride);
        let mut rngs: Vec<RngWithStep> = Vec::new();
        let mut i: usize = 0;
        while i < num_threads
            invariant
                i <= num_threads,
                weighted_fits(skip, step_by, num_threads),
                master.wf(),
                master.seed() == seed,
                master.index() == skip,
                master.step_by() == stride,
                stride == step_by * num_threads,
                rngs@.len() == i,
                forall|k: int|
                    0 <= k < i ==> {
                        &&& (#[trigger] rngs@[k]).wf()
                        &&& rngs@[k].seed() == seed
                        &&& rngs@[k].index() == skip + step_by * k
                        &&& rngs@[k].step_by() == stride
                    },
            decreases num_threads - i,
        {
            assert(step_by * i <= step_by * (num_threads - 1)) by (nonlinear_arith)
                requires
                    0 <= i <= num_threads - 1,
                    0 <= step_by,
            ;
            let mut rng = master.clone();
            rng.skip(step_by * (i as u64));
            rngs.push(rng);
            i += 1;
        }
        let pm = par_range(None, num_threads, channel_len_per_thread);
        let plan = WeightedPlan { weights, rngs };
        let iter = DatasetIter { paths: paths.clone(), pm, on_error };
        assert(plan.wf(seed, skip, step_by));
        assert(fresh_pool(iter.pm, usize::MAX, num_threads, channel_len_per_thread));
        Ok((iter, plan))
    }

    /// An iterator over the windows planned for the corpus: shuffled where
    /// a seed is given, the first `skip` dropped, then every `step_by`-th
    /// kept.
    pub fn new_shuffle(
        paths: &Paths,
        seed: Option<u64>,
        skip: u64,
        step_by: u64,
        duration: u64,
        on_error: OnError,
        num_threads: usize,
        pad_last_segment: bool,
        channel_len_per_thread: usize,
    ) -> (r: (Self, SegmentPlan))
        requires
            duration > 0,
            num_threads > 0 || skip >= corpus_segments(
                durations_of(paths@),
                duration,
                pad_last_segment,
            ).len(),
        ensures
            r.1.wf(),
            r.1@ == keep_every(
                ordered(corpus_segments(durations_of(paths@), duration, pad_last_segment), seed),
                skip,
                step_by,
            ),
            r.1.skip() == skip,
            r.1.step_by() == step_by,
            ordered(
                corpus_segments(durations_of(paths@), duration, pad_last_segment),
                seed,
            ).to_multiset() == corpus_segments(
                durations_of(paths@),
                duration,
                pad_last_segment,
            ).to_multiset(),
            fresh_pool(r.0.pm, r.1@.len() as usize, num_threads, channel_len_per_thread),
            r.0.on_error == on_error,
            r.0.paths == *paths,
    {
        let durs = durations(paths);
        let segments = plan_segments(&durs, duration, pad_last_segment);
        let plan = SegmentPlan::new(segments, seed, skip, step_by);
        let pm = par_map(plan.len(), num_threads, channel_len_per_thread);
        (DatasetIter { paths: paths.clone(), pm, on_error }, plan)
    }

    /// Takes the next item from the pool and applies the error policy to
    /// it. Whoever pulls waits on `Pending` and pulls again on `Skipped`.
    pub fn pull(&mut self) -> (r: Pulled<D, O>)
        requires
            old(self).pm.wf(),
        ensures
            r == pulled(old(self).pm.peek(), old(self).on_error),
            old(self).pm.advanced(final(self).pm),
            final(self).on_error == old(self).on_error,
            final(self).paths == old(self).paths,
    {
        match self.pm.next() {
            Next::Item(item) => match settle(item, self.on_error) {
                Outcome::Yield(emitted) => Pulled::Yield(emitted),
                Outcome::Skip { log } => Pulled::Skipped { log },
                Outcome::Raise(failure) => Pulled::Raised(failure),
            },
            Next::Pending => Pulled::Pending,
            Next::Finished => Pulled::Finished,
            Next::Disconnected => Pulled::Disconnected,
        }
    }

    /// The number of items that each worker's queue holds.
    pub fn buffered_lens(&self) -> (lens: Vec<usize>)
        requires
            self.pm.wf(),
        ensures
            lens@.len() == self.pm.workers(),
            forall|i: int|
                0 <= i < self.pm.workers() ==> {
                    &&& #[trigger] lens@[i] == self.pm.buffered(i).len()
                    &&& lens@[i] <= crate::channel::occupancy_bound(self.pm.capacity(i))
                },
    {
        self.pm.buffered_lens()
    }
}

/// The unit of work at a place of the stream of a seed: the file is the one
/// that the first draw of that place selects in the table, and the window
/// is placed by the second.
pub open spec fn drawn(weights: Seq<u64>, seed: u64, sample_index: u64, work: Work) -> bool {
    &&& work matches Work::Random { sample_index: index, file_index, start_draw }
    &&& index == sample_index
    &&& selects(weights, draw_at(seed, 2 * sample_index as nat), file_index as int)
    &&& start_draw == draw_at(seed, 2 * sample_index as nat + 1)
}

/// Draws the next unit of work of a weighted stream: the generator's next
/// production unit, its first draw turned into the file that it selects.
/// `None` when the generator's counter is used up.
pub fn draw_work(rng: &mut RngWithStep, weights: &CumulativeWeights) -> (r: Option<Work>)
    requires
        old(rng).wf(),
        weights.wf(),
    ensures
        final(rng).wf(),
        final(rng).seed() == old(rng).seed(),
        final(rng).step_by() == old(rng).step_by(),
        r is Some <==> old(rng).index() + old(rng).step_by() < u64::MAX,
        r is None ==> final(rng).index() == old(rng).index(),
        r matches Some(work) ==> {
            &&& work.wf()
            &&& drawn(
                weights@,
                old(rng).seed(),
                (old(rng).index() + old(rng).step_by()) as u64,
                work,
            )
            &&& final(rng).index() == old(rng).index() + old(rng).step_by() + 1
        },
{
    match rng.try_next() {
        Some(unit) => {
            let file_index = weights.select(unit.1);
            Some(Work::Random { sample_index: unit.0, file_index, start_draw: unit.2 })
        },
        None => None,
    }
}

impl DatasetReader {
    /// How the reader chooses its work.
    pub open spec fn plan(&self) -> SamplingPlan {
        match self.iter_order {
            IterOrder::Sequential => SamplingPlan::Sequential {
                skip: self.skip,
                step_by: self.step_by,
            },
            IterOrder::RandomNoReplacement => SamplingPlan::ShuffledNoReplacement {
                seed: self.seed,
                skip: self.skip,
                step_by: self.step_by,
            },
            IterOrder::RandomWithReplacement => SamplingPlan::WeightedWithReplacement {
                seed: self.seed,
                skip: self.skip,
                step_by: self.step_by,
            },
        }
    }

    /// How the reader chooses its work.
    pub fn sampling_plan(&self) -> (plan: SamplingPlan)
        ensures
            plan == self.plan(),
    {
        match self.iter_order {
            IterOrder::Sequential => SamplingPlan::Sequential {
                skip: self.skip,
                step_by: self.step_by,
            },
            IterOrder::RandomNoReplacement => SamplingPlan::ShuffledNoReplacement {
                seed: self.seed,
                skip: self.skip,
                step_by: self.step_by,
            },
            IterOrder::RandomWithReplacement => SamplingPlan::WeightedWithReplacement {
                seed: self.seed,
                skip: self.skip,
                step_by: self.step_by,
            },
        }
    }

    /// The windows planned for the corpus of this reader.
    pub open spec fn planned(&self) -> Seq<Segment> {
        corpus_segments(durations_of(self.paths@), self.duration, self.pad_last_segment)
    }

    /// The seed that the order of the windows is shuffled with, if any.
    pub open spec fn shuffle_seed(&self) -> Option<u64> {
        if self.iter_order == IterOrder::RandomNoReplacement {
            Some(self.seed)
        } else {
            None
        }
    }

    /// An iterator can be built: the window has a length, there is a worker
    /// where there is work, and the counters of a weighted stream fit.
    pub open spec fn can_iterate(&self) -> bool {
        let total = total_duration(durations_of(self.paths@));
        if self.iter_order == IterOrder::RandomWithReplacement {
            &&& total <= u64::MAX
            &&& total >= MIN_TOTAL_DURATION ==> weighted_fits(
                self.skip,
                self.step_by,
                self.num_threads,
            )
        } else {
            &&& self.duration > 0
            &&& self.num_threads > 0 || self.skip >= self.planned().len()
        }
    }

    /// Whether an iterator can be built.
    pub fn check(&self) -> (ok: bool)
        ensures
            ok == self.can_iterate(),
    {
        let durs = durations(&self.paths);
        match self.iter_order {
            IterOrder::RandomWithReplacement => {
                let total = match checked_total(&durs) {
                    Some(total) => total,
                    None => {
                        return false;
                    },
                };
                if total < MIN_TOTAL_DURATION {
                    return true;
                }
                if self.num_threads == 0 {
                    return false;
                }
                let threads = self.num_threads as u64;
                if self.step_by.checked_mul(threads).is_none() {
                    return false;
                }
                assert(self.step_by * (threads - 1) <= self.step_by * threads) by (nonlinear_arith)
                    requires
                        threads >= 1,
                        self.step_by >= 0,
                ;
                let last = self.step_by * (threads - 1);
                self.skip.checked_add(last).is_some()
            },
            _ => {
                if self.duration == 0 {
                    return false;
                }
                let count = segment_count(&durs, self.duration, self.pad_last_segment);
                self.num_threads > 0 || self.skip as u128 >= count
            },
        }
    }

    /// Builds the iterator that the reader describes, and the plan of its
    /// work. Weighted sampling refuses a corpus whose durations add up to
    /// less than [`MIN_TOTAL_DURATION`]; nothing else is refused.
    pub fn iter<D, O>(&self) -> (r: Result<(DatasetIter<D, O>, Source), ConfigError>)
        requires
            self.can_iterate(),
        ensures
            r is Err <==> self.iter_order == IterOrder::RandomWithReplacement && total_duration(
                durations_of(self.paths@),
            ) < MIN_TOTAL_DURATION,
            r matches Err(e) ==> e is DegenerateCorpus,
            r matches Ok((iter, source)) ==> {
                &&& iter.on_error == self.on_error
                &&& iter.paths == self.paths
                &&& match source {
                    Source::Weighted(plan) => {
                        &&& self.iter_order == IterOrder::RandomWithReplacement
                        &&& plan.wf(self.seed, self.skip, self.step_by)
                        &&& plan.rngs@.len() == self.num_threads
                        &&& running_sums(durations_of(self.paths@), plan.weights@)
                        &&& fresh_pool(
                            iter.pm,
                            usize::MAX,
                            self.num_threads,
                            self.channel_len_per_thread,
                        )
                    },
                    Source::Segments(plan) => {
                        &&& self.iter_order != IterOrder::RandomWithReplacement
                        &&& plan.wf()
                        &&& plan@ == keep_every(
                            ordered(self.planned(), self.shuffle_seed()),
                            self.skip,
                            self.step_by,
                        )
                        &&& plan.skip() == self.skip
                        &&& plan.step_by() == self.step_by
                        &&& fresh_pool(
                            iter.pm,
                            plan@.len() as usize,
                            self.num_threads,
                            self.channel_len_per_thread,
                        )
                    },
                }
            },
    {
        match self.sampling_plan() {
            SamplingPlan::Sequential { skip, step_by } => {
                let (iter, plan) = DatasetIter::new_shuffle(
                    &self.paths,
                    None,
                    skip,
                    step_by,
                    self.duration,
                    self.on_error,
                    self.num_threads,
                    self.pad_last_segment,
                    self.channel_len_per_thread,
                );
                Ok((iter, Source::Segments(plan)))
            },
            SamplingPlan::ShuffledNoReplacement { seed, skip, step_by } => {
                let (iter, plan) = DatasetIter::new_shuffle(
                    &self.paths,
                    Some(seed),
                    skip,
                    step_by,
                    self.duration,
                    self.on_error,
                    self.num_threads,
                    self.pad_last_segment,
                    self.channel_len_per_thread,
                );
                Ok((iter, Source::Segments(plan)))
            },
            SamplingPlan::WeightedWithReplacement { seed, skip, step_by } => {
                match DatasetIter::new_random(
                    &self.paths,
                    seed,
                    skip,
                    step_by,
                    self.on_error,
                    self.num_threads,
                    self.channel_len_per_thread,
                ) {
                    Ok((iter, plan)) => Ok((iter, Source::Weighted(plan))),
                    Err(e) => Err(e),
                }
            },
        }
    }
}

/// The sum of the durations, or `None` where it does not fit a `u64`.
pub fn checked_total(durations: &Vec<u64>) -> (r: Option<u64>)
    ensures
        match r {
            Some(total) => total == total_duration(durations@),
            None => total_duration(durations@) > u64::MAX,
        },
{
    let mut sum: u64 = 0;
    let mut i: usize = 0;
    while i < durations.len()
        invariant
            i <= durations@.len(),
            sum == total_duration(durations@.take(i as int)),
        decreases durations@.len() - i,
    {
        proof {
            lemma_total_monotonic(durations@, i + 1, durations@.len() as int);
            assert(durations@.take(durations@.len() as int) =~= durations@);
            assert(durations@.take(i + 1).drop_last() =~= durations@.take(i as int));
        }
        sum = match sum.checked_add(durations[i]) {
            Some(sum) => sum,
            None => {
                return None;
            },
        };
        i += 1;
    }
    assert(durations@.take(i as int) =~= durations@);
    Some(sum)
}


/// The samples of a plan of windows come out under the indices `skip`,
/// `skip + step_by`, `skip + 2 * step_by`, ... whatever the number of
/// workers: if every worker has sent, for each of its positions, an item
/// that carries the plan's sample index of that position, then item `j`
/// handed out carries `skip + j * step_by`.
pub proof fn lemma_sequential_indices<T>(
    pool: ParMap<T>,
    plan: SegmentPlan,
    index_of: spec_fn(T) -> int,
)
    requires
        pool.wf(),
        forall|i: int, m: int|
            0 <= i < pool.workers() && 0 <= m < pool.sent(i).len() ==> index_of(
                #[trigger] pool.sent(i)[m],
            ) == plan.sample_index_at(crate::par_map::position_of(i, m, pool.workers() as int)),
    ensures
        forall|j: int|
            0 <= j < pool.cnt() ==> index_of(#[trigger] pool.drained()[j]) == plan.skip() + j
                * plan.step_by(),
{
    pool.lemma_fan_in_keyed(index_of, |p: int| plan.sample_index_at(p));
}

/// With a step of at least one, the sample index grows with the position
/// in a plan of windows.
pub proof fn lemma_plan_indices_increase(plan: SegmentPlan, p: int, q: int)
    requires
        plan.step_by() >= 1,
        p < q,
    ensures
        plan.sample_index_at(p) < plan.sample_index_at(q),
{
    assert(p * plan.step_by() < q * plan.step_by()) by (nonlinear_arith)
        requires
            plan.step_by() >= 1,
            p < q,
    ;
}

/// The number of units that the generator of `worker` has consumed when it
/// draws its item number `round` of a weighted stream.
pub open spec fn units_before(
    skip: u64,
    step_by: u64,
    workers: int,
    worker: int,
    round: int,
) -> int {
    skip + step_by * worker + round * (step_by * workers + 1)
}

/// The sample index of item number `round` of `worker` in a weighted
/// stream: the generator passes over the stride of all workers together and
/// returns the unit that it reaches.
pub open spec fn weighted_sample_index(
    skip: u64,
    step_by: u64,
    workers: int,
    worker: int,
    round: int,
) -> int {
    units_before(skip, step_by, workers, worker, round) + step_by * workers
}

/// Each draw of a worker leaves its generator where the next round starts.
pub proof fn lemma_weighted_round(skip: u64, step_by: u64, workers: int, worker: int, round: int)
    ensures
        units_before(skip, step_by, workers, worker, round + 1) == weighted_sample_index(
            skip,
            step_by,
            workers,
            worker,
            round,
        ) + 1,
        units_before(skip, step_by, workers, worker, 0) == skip + step_by * worker,
{
    assert((round + 1) * (step_by * workers + 1) == round * (step_by * workers + 1) + (step_by
        * workers + 1)) by (nonlinear_arith);
}

/// With a step of at least one, the sample indices of a weighted stream
/// grow in the order in which the consumer takes the items: the index at
/// position `j + 1` is above the index at position `j`.
pub proof fn lemma_weighted_indices_increase(skip: u64, step_by: u64, workers: int, j: int)
    requires
        step_by >= 1,
        workers >= 1,
        j >= 0,
    ensures
        weighted_sample_index(skip, step_by, workers, j % workers, j / workers)
            < weighted_sample_index(skip, step_by, workers, (j + 1) % workers, (j + 1) / workers),
{
    crate::par_map::lemma_div_mod_succ(j, workers);
    let i = j % workers;
    let m = j / workers;
    let k = step_by as int;
    let stride = k * workers;
    assert(stride >= 1) by (nonlinear_arith)
        requires
            stride == k * workers,
            k >= 1,
            workers >= 1,
    ;
    if i + 1 < workers {
        assert(k * (i + 1) == k * i + k) by (nonlinear_arith);
    } else {
        assert(k * i == k * workers - k) by (nonlinear_arith)
            requires
                i == workers - 1,
        ;
        assert((m + 1) * (stride + 1) == m * (stride + 1) + stride + 1) by (nonlinear_arith);
    }
}


/// Weighted sampling is determined by the seed: two units of work drawn at
/// the same place of the stream of one seed, from one table, are the same
/// unit: the same sample index, the same file and the same draw for the
/// start.
pub proof fn lemma_drawn_work_is_determined(
    weights: Seq<u64>,
    seed: u64,
    sample_index: u64,
    a: Work,
    b: Work,
)
    requires
        drawn(weights, seed, sample_index, a),
        drawn(weights, seed, sample_index, b),
    ensures
        a == b,
{
    lemma_selection_unique(
        weights,
        draw_at(seed, 2 * sample_index as nat),
        a->Random_file_index as int,
        b->Random_file_index as int,
    );
}

/// Reading without replacement is determined by its settings: two plans
/// made from one corpus with the same window, padding, seed, skip and step
/// hold the same windows under the same sample indices.
pub proof fn lemma_plan_is_determined(
    a: SegmentPlan,
    b: SegmentPlan,
    durations: Seq<u64>,
    window: u64,
    pad_last_segment: bool,
    seed: Option<u64>,
    skip: u64,
    step_by: u64,
)
    requires
        a@ == keep_every(
            ordered(corpus_segments(durations, window, pad_last_segment), seed),
            skip,
            step_by,
        ),
        b@ == keep_every(
            ordered(corpus_segments(durations, window, pad_last_segment), seed),
            skip,
            step_by,
        ),
        a.skip() == skip && b.skip() == skip,
        a.step_by() == step_by && b.step_by() == step_by,
    ensures
        a@ == b@,
        forall|p: int| a.sample_index_at(p) == b.sample_index_at(p),
{
}


} // verus!
