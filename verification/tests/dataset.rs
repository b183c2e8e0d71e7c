use sphn::dataset::{
    checked_total, draw_work, durations, segment_count, DatasetIter, DatasetReader, IterOrder,
    Pulled, SamplingPlan, Source, DEFAULT_SEED,
};
use sphn::error::{ConfigError, SampleError};
use sphn::producer::{Action, DecodedData, Event, FileInfo, Producer, ProducerConfig, Work};
use sphn::rng::RngWithStep;
use sphn::sample::{Emitted, OnError, Sample, SampleOrObject};
use sphn::weights::CumulativeWeights;

const SECOND: u64 = 1_000_000;

fn corpus() -> Vec<(String, u64)> {
    vec![("a".to_string(), 10 * SECOND), ("b".to_string(), 5 * SECOND)]
}

fn reader(on_error: &str, num_threads: usize) -> DatasetReader {
    DatasetReader::new(corpus(), 4 * SECOND, 8, false, Some(on_error), None, Some(num_threads))
        .unwrap()
}

/// Produces the sample of one unit of work. The files named in
/// `unreadable` cannot be opened; every other file is a minute long.
fn produce(config: ProducerConfig, work: Work, unreadable: &[usize]) -> Sample<Vec<i16>> {
    let (mut producer, mut action) = Producer::begin::<Vec<i16>>(config, work);
    loop {
        let event = match action {
            Action::FileSize { .. } => Event::FileSize(Ok(1_000)),
            Action::Open { file_index } => {
                if unreadable.contains(&file_index) {
                    Event::Opened(Err(SampleError::Io("unreadable".to_string())))
                } else {
                    Event::Opened(Ok(FileInfo { duration: 60 * SECOND, sample_rate: 1_000 }))
                }
            }
            Action::Decode { duration, .. } => {
                let len = (duration / 1_000) as usize;
                Event::Decoded(Ok(DecodedData { data: vec![0; len], len, unpadded_len: len }))
            }
            Action::Resample { .. } => panic!("no target rate is set"),
            Action::Done(sample) => return sample,
        };
        assert!(producer.accepts(&event));
        action = producer.step(event);
    }
}

/// Runs an iterator over a plan of windows to its end, or to the first
/// failure that is raised. Returns the sample index, file and start of
/// each sample yielded, and whether a failure was raised.
fn run(reader: &DatasetReader, unreadable: &[usize]) -> (Vec<(u64, usize, u64)>, bool) {
    assert!(reader.check());
    let (mut iter, source) = reader.iter::<Vec<i16>, ()>().unwrap();
    let plan = match source {
        Source::Segments(plan) => plan,
        Source::Weighted(_) => panic!("the reader reads windows"),
    };
    let config = ProducerConfig {
        window: reader.duration,
        pad_last_segment: reader.pad_last_segment,
        target_sample_rate: reader.sample_rate,
    };
    let workers = iter.buffered_lens().len();
    let mut yielded = Vec::new();
    loop {
        match iter.pull() {
            Pulled::Yield(Emitted::Sample(d)) => {
                yielded.push((d.sample_index, d.file_index, d.start_time))
            }
            Pulled::Yield(Emitted::Object(())) => panic!("no transform is set"),
            Pulled::Skipped { .. } => {}
            Pulled::Raised(failure) => {
                assert!(unreadable.contains(&failure.file_index));
                return (yielded, true);
            }
            Pulled::Pending => {
                for worker in 0..workers {
                    if let Some(position) = iter.pm.next_work(worker) {
                        let work = Work::Segment(plan.unit(position));
                        let sample = produce(config, work, unreadable);
                        assert!(iter.pm.send(worker, SampleOrObject::Sample(sample)).is_ok());
                    }
                }
            }
            Pulled::Finished => return (yielded, false),
            Pulled::Disconnected => panic!("no worker has gone"),
        }
    }
}

#[test]
fn a_new_reader_reads_in_sequence_from_the_start() {
    let r = DatasetReader::new(corpus(), 4 * SECOND, 3, true, None, Some(16_000), Some(5)).unwrap();
    assert_eq!(r.paths.len(), 2);
    assert_eq!(r.paths[0].path, "a");
    assert_eq!(r.paths[0].duration, 10 * SECOND);
    assert_eq!(r.paths[1].path, "b");
    assert_eq!(r.paths[1].duration, 5 * SECOND);
    assert_eq!(r.duration, 4 * SECOND);
    assert_eq!(r.iter_order, IterOrder::Sequential);
    assert_eq!(r.seed, 1337);
    assert_eq!(r.seed, DEFAULT_SEED);
    assert_eq!(r.skip, 0);
    assert_eq!(r.step_by, 1);
    assert_eq!(r.num_threads, 5);
    assert_eq!(r.on_error, OnError::Log);
    assert!(r.pad_last_segment);
    assert_eq!(r.sample_rate, Some(16_000));
    assert_eq!(r.channel_len_per_thread, 3);
}

#[test]
fn without_a_number_of_threads_the_reader_takes_that_of_the_pool() {
    let r = DatasetReader::new(corpus(), 4 * SECOND, 1, false, None, None, None).unwrap();
    assert_eq!(r.num_threads, rayon::current_num_threads());
    assert!(r.num_threads > 0);
}

#[test]
fn a_reader_with_an_unknown_policy_is_refused() {
    let r = DatasetReader::new(corpus(), 4 * SECOND, 1, false, Some("warn"), None, Some(1));
    match r {
        Err(ConfigError::UnknownOnError { name }) => assert_eq!(name, "warn"),
        _ => panic!("warn is no policy"),
    }
    assert!(matches!(
        reader("log", 1).on_error("Log"),
        Err(ConfigError::UnknownOnError { .. })
    ));
}

#[test]
fn the_builders_change_what_they_name_and_nothing_else() {
    let base = reader("raise", 2);
    let r = base.seq(3, 4);
    assert_eq!((r.iter_order, r.skip, r.step_by, r.seed), (IterOrder::Sequential, 3, 4, 1337));
    let r = base.shuffle(false, 299792458, 1, 2);
    assert_eq!(
        (r.iter_order, r.skip, r.step_by, r.seed),
        (IterOrder::RandomNoReplacement, 1, 2, 299792458)
    );
    let r = r.shuffle(true, 7, 0, 1);
    assert_eq!(
        (r.iter_order, r.skip, r.step_by, r.seed),
        (IterOrder::RandomWithReplacement, 0, 1, 7)
    );
    let r = r.num_threads(9).pad_last_segment(true).on_error("ignore").unwrap();
    assert_eq!(r.num_threads, 9);
    assert!(r.pad_last_segment);
    assert_eq!(r.on_error, OnError::Ignore);
    assert_eq!(r.iter_order, IterOrder::RandomWithReplacement);
    assert_eq!(r.seed, 7);
    assert_eq!(r.duration, 4 * SECOND);
    assert_eq!(r.channel_len_per_thread, 8);
    assert_eq!(r.paths.len(), 2);
    let r = r.seq(0, 1);
    assert_eq!(r.seed, 7);
    assert_eq!(base.on_error, OnError::Raise);
    assert_eq!(base.num_threads, 2);
}

#[test]
fn the_sampling_plan_is_one_of_three() {
    let base = reader("log", 1);
    assert_eq!(base.sampling_plan(), SamplingPlan::Sequential { skip: 0, step_by: 1 });
    assert_eq!(base.seq(4, 2).sampling_plan(), SamplingPlan::Sequential { skip: 4, step_by: 2 });
    assert_eq!(
        base.shuffle(false, 9, 1, 3).sampling_plan(),
        SamplingPlan::ShuffledNoReplacement { seed: 9, skip: 1, step_by: 3 }
    );
    assert_eq!(
        base.shuffle(true, 9, 1, 3).sampling_plan(),
        SamplingPlan::WeightedWithReplacement { seed: 9, skip: 1, step_by: 3 }
    );
}

#[test]
fn the_windows_of_a_corpus_are_counted_and_its_durations_summed() {
    let r = reader("log", 1);
    assert_eq!(durations(&r.paths), vec![10 * SECOND, 5 * SECOND]);
    assert_eq!(segment_count(&vec![10 * SECOND, 5 * SECOND], 4 * SECOND, false), 3);
    assert_eq!(segment_count(&vec![10 * SECOND, 5 * SECOND], 4 * SECOND, true), 5);
    assert_eq!(segment_count(&vec![0, 1, 4 * SECOND], 4 * SECOND, true), 2);
    assert_eq!(segment_count(&vec![u64::MAX, u64::MAX], 1, true), 2 * u64::MAX as u128);
    assert_eq!(checked_total(&vec![1, 2, 3]), Some(6));
    assert_eq!(checked_total(&vec![]), Some(0));
    assert_eq!(checked_total(&vec![u64::MAX, 0]), Some(u64::MAX));
    assert_eq!(checked_total(&vec![u64::MAX, 1]), None);
}

#[test]
fn a_reader_that_cannot_iterate_is_told_apart() {
    assert!(reader("log", 2).check());
    assert!(reader("log", 2).seq(3, 1).check());
    assert!(reader("log", 2).seq(4, 1).check());
    assert!(!reader("log", 0).check());
    assert!(!reader("log", 0).seq(2, 1).check());
    assert!(reader("log", 0).seq(3, 1).check());
    assert!(reader("log", 0).seq(u64::MAX, 1).check());
    let no_window =
        DatasetReader::new(corpus(), 0, 1, false, None, None, Some(2)).unwrap();
    assert!(!no_window.check());
    assert!(no_window.shuffle(true, 1, 0, 1).check());
    assert!(reader("log", 2).shuffle(true, 1, u64::MAX, 0).check());
    assert!(!reader("log", 2).shuffle(true, 1, u64::MAX, 1).check());
    assert!(reader("log", 1).shuffle(true, 1, u64::MAX, 1).check());
    assert!(!reader("log", 2).shuffle(true, 1, 0, u64::MAX).check());
    assert!(!reader("log", 0).shuffle(true, 1, 0, 1).check());
    let tiny = DatasetReader::new(vec![("a".to_string(), 9)], 1, 1, false, None, None, Some(0))
        .unwrap();
    assert!(tiny.shuffle(true, 1, 0, 1).check());
    let huge = vec![("a".to_string(), u64::MAX), ("b".to_string(), 1)];
    let huge = DatasetReader::new(huge, 1, 1, false, None, None, Some(1)).unwrap();
    assert!(!huge.shuffle(true, 1, 0, 1).check());
}

#[test]
fn the_concrete_corpus_yields_three_samples() {
    for num_threads in [1usize, 2, 3, 7] {
        let (yielded, raised) = run(&reader("raise", num_threads), &[]);
        assert!(!raised);
        assert_eq!(yielded, vec![(0, 0, 0), (1, 0, 4 * SECOND), (2, 1, 0)]);
    }
}

#[test]
fn a_skip_that_reaches_the_end_leaves_nothing() {
    for skip in [3u64, 4, u64::MAX] {
        for num_threads in [0usize, 1, 5] {
            let (yielded, raised) = run(&reader("raise", num_threads).seq(skip, 2), &[]);
            assert!(!raised);
            assert_eq!(yielded, vec![]);
        }
    }
}

#[test]
fn an_unreadable_file_is_left_out_when_failures_are_ignored() {
    for policy in ["ignore", "log"] {
        for num_threads in [1usize, 2, 3, 7] {
            let (yielded, raised) = run(&reader(policy, num_threads), &[1]);
            assert!(!raised);
            assert_eq!(yielded, vec![(0, 0, 0), (1, 0, 4 * SECOND)]);
        }
    }
}

#[test]
fn an_unreadable_file_is_raised_when_its_window_is_reached() {
    for num_threads in [1usize, 2, 3, 7] {
        let (yielded, raised) = run(&reader("raise", num_threads), &[1]);
        assert!(raised);
        assert_eq!(yielded, vec![(0, 0, 0), (1, 0, 4 * SECOND)]);
    }
}

#[test]
fn a_failure_in_the_middle_does_not_shift_the_indices_that_follow() {
    let (yielded, raised) = run(&reader("ignore", 2), &[0]);
    assert!(!raised);
    assert_eq!(yielded, vec![(2, 1, 0)]);
}

#[test]
fn sequential_indices_do_not_depend_on_the_number_of_threads() {
    let paths: Vec<(String, u64)> =
        (0..9).map(|i| (format!("f{i}"), (3 + i) * SECOND)).collect();
    let base =
        DatasetReader::new(paths, SECOND, 64, true, Some("raise"), None, Some(1)).unwrap();
    for (skip, step_by) in [(0u64, 1u64), (5, 3), (2, 7)] {
        let expected = run(&base.seq(skip, step_by), &[]).0;
        let indices: Vec<u64> = expected.iter().map(|s| s.0).collect();
        let wanted: Vec<u64> = (skip..63).step_by(step_by as usize).collect();
        assert_eq!(indices, wanted);
        for num_threads in [2usize, 3, 7] {
            assert_eq!(run(&base.seq(skip, step_by).num_threads(num_threads), &[]).0, expected);
        }
    }
}

#[test]
fn a_shuffled_reader_yields_every_window_once_whatever_the_threads() {
    let paths: Vec<(String, u64)> =
        (0..9).map(|i| (format!("f{i}"), (3 + i) * SECOND)).collect();
    let base =
        DatasetReader::new(paths, SECOND, 64, true, Some("raise"), None, Some(1)).unwrap();
    let in_order = run(&base, &[]).0;
    let shuffled = run(&base.shuffle(false, 42, 0, 1), &[]).0;
    assert_ne!(
        shuffled.iter().map(|s| (s.1, s.2)).collect::<Vec<_>>(),
        in_order.iter().map(|s| (s.1, s.2)).collect::<Vec<_>>()
    );
    assert_eq!(shuffled.iter().map(|s| s.0).collect::<Vec<_>>(), (0..63).collect::<Vec<u64>>());
    let mut windows: Vec<(usize, u64)> = shuffled.iter().map(|s| (s.1, s.2)).collect();
    windows.sort();
    assert_eq!(windows, in_order.iter().map(|s| (s.1, s.2)).collect::<Vec<_>>());
    for num_threads in [2usize, 3, 7] {
        assert_eq!(run(&base.shuffle(false, 42, 0, 1).num_threads(num_threads), &[]).0, shuffled);
    }
    assert_eq!(run(&base.shuffle(false, 42, 0, 1), &[]).0, shuffled);
}

#[test]
fn weighted_sampling_refuses_a_corpus_without_duration() {
    let paths = vec![("a".to_string(), 4), ("b".to_string(), 5)];
    let r = DatasetReader::new(paths, 1, 1, false, None, None, Some(2)).unwrap();
    let r = r.shuffle(true, 1, 0, 1);
    assert!(r.check());
    assert!(matches!(r.iter::<Vec<i16>, ()>(), Err(ConfigError::DegenerateCorpus)));
    assert!(matches!(
        DatasetIter::<Vec<i16>, ()>::new_random(&r.paths, 1, 0, 1, OnError::Log, 2, 1),
        Err(ConfigError::DegenerateCorpus)
    ));
}

#[test]
fn each_worker_of_a_weighted_stream_starts_at_its_own_place() {
    let r = reader("log", 3).shuffle(true, 99, 5, 2);
    let (iter, source) = r.iter::<Vec<i16>, ()>().unwrap();
    assert_eq!(iter.buffered_lens(), vec![0, 0, 0]);
    let plan = match source {
        Source::Weighted(plan) => plan,
        Source::Segments(_) => panic!("the reader draws"),
    };
    assert_eq!(plan.weights.len(), 2);
    assert_eq!(plan.weights.total(), 15 * SECOND);
    assert_eq!(plan.rngs.len(), 3);
    for (worker, rng) in plan.rngs.iter().enumerate() {
        assert_eq!(rng.position(), 5 + 2 * worker as u64);
        assert_eq!(rng.stride(), 6);
    }
}

#[test]
fn the_indices_of_a_weighted_stream_grow_in_the_order_of_the_pulls() {
    for (num_threads, skip, step_by) in [(1usize, 0u64, 1u64), (2, 0, 1), (3, 5, 2), (7, 1, 3)] {
        let r = reader("log", num_threads).shuffle(true, 99, skip, step_by);
        let (mut iter, source) = r.iter::<Vec<i16>, ()>().unwrap();
        let mut plan = match source {
            Source::Weighted(plan) => plan,
            Source::Segments(_) => panic!("the reader draws"),
        };
        let config = ProducerConfig {
            window: 4 * SECOND,
            pad_last_segment: false,
            target_sample_rate: None,
        };
        let workers = num_threads as u64;
        let mut last = None;
        for pull in 0..40u64 {
            let got = loop {
                match iter.pull() {
                    Pulled::Yield(Emitted::Sample(d)) => break d,
                    Pulled::Pending => {
                        for worker in 0..num_threads {
                            if iter.pm.next_work(worker).is_some() {
                                let work =
                                    draw_work(&mut plan.rngs[worker], &plan.weights).unwrap();
                                let sample = produce(config, work, &[]);
                                let _ = iter.pm.send(worker, SampleOrObject::Sample(sample));
                            }
                        }
                    }
                    _ => panic!("the stream has no end"),
                }
            };
            let (worker, round) = (pull % workers, pull / workers);
            let stride = step_by * workers;
            assert_eq!(got.sample_index, skip + step_by * worker + (round + 1) * stride + round);
            assert!(got.file_index < 2);
            assert!(got.start_time < 56 * SECOND);
            if let Some(last) = last {
                assert!(last < got.sample_index);
            }
            last = Some(got.sample_index);
        }
    }
}

#[test]
fn drawn_work_is_the_same_for_the_same_seed_and_place() {
    let weights = CumulativeWeights::new(&vec![10 * SECOND, 5 * SECOND, 30 * SECOND]).unwrap();
    let draw = |seed: u64| -> Vec<Work> {
        let mut rng = RngWithStep::new(seed, 3, 2);
        (0..20).map(|_| draw_work(&mut rng, &weights).unwrap()).collect()
    };
    assert_eq!(draw(1), draw(1));
    assert_ne!(draw(1), draw(2));
    for (n, work) in draw(1).into_iter().enumerate() {
        match work {
            Work::Random { sample_index, file_index, .. } => {
                assert_eq!(sample_index, 3 + 2 + 3 * n as u64);
                assert!(file_index < 3);
            }
            Work::Segment(_) => panic!("the work is drawn"),
        }
    }
    let mut spent = RngWithStep::new(1, 0, u64::MAX);
    assert_eq!(draw_work(&mut spent, &weights), None);
}
