//! The production of one sample, as a state machine.
//!
//! Opening a file, decoding a window and resampling are done by whoever
//! runs the machine. The machine says which of them is due, takes what came
//! of it, and decides what follows. A failure of any of them ends the
//! production with a sample that carries the failure: none leaves the
//! worker in any other way.

use crate::error::SampleError;
use crate::rng::DRAW_DENOMINATOR;
use crate::sample::Sample;
use crate::segments::WorkUnit;
use vstd::prelude::*;

verus! {

/// What every sample of one iterator is produced with. Times are whole
/// microseconds.
#[derive(Clone, Copy, Debug, PartialEq, Eq, Structural)]
pub struct ProducerConfig {
    /// The length of the window to decode.
    pub window: u64,
    /// Whether a window that runs past the end of its file is padded with
    /// zeros.
    pub pad_last_segment: bool,
    /// The sample rate to bring the data to, if any.
    pub target_sample_rate: Option<usize>,
}

/// What is to be produced.
#[derive(Clone, Copy, Debug, PartialEq, Eq, Structural)]
pub enum Work {
    /// A planned window.
    Segment(WorkUnit),
    /// A file drawn by weight, and the draw that places the window in it.
    Random { sample_index: u64, file_index: usize, start_draw: u64 },
}

/// What is known of a file once it is open.
#[derive(Clone, Copy, Debug, PartialEq, Eq, Structural)]
pub struct FileInfo {
    /// The duration in microseconds.
    pub duration: u64,
    /// The sample rate in hertz.
    pub sample_rate: usize,
}

/// What the decoder made of a window: the data, the number of frames in
/// each channel of it, and how many of those were decoded rather than
/// padded.
pub struct DecodedData<D> {
    pub data: D,
    pub len: usize,
    pub unpadded_len: usize,
}

/// What the resampler made of the data, and the number of frames in each
/// channel of it.
pub struct ResampledData<D> {
    pub data: D,
    pub len: usize,
}

/// What has come of the action that was due.
pub enum Event<D> {
    /// The size of the file in bytes, or why it could not be found.
    FileSize(Result<u64, SampleError>),
    /// What is known of the open file, or why it could not be opened.
    Opened(Result<FileInfo, SampleError>),
    /// The decoded window, or why it could not be decoded.
    Decoded(Result<DecodedData<D>, SampleError>),
    /// The resampled data, or why it could not be resampled.
    Resampled(Result<ResampledData<D>, SampleError>),
}

/// What is due next.
pub enum Action<D> {
    /// Find the size in bytes of the file.
    FileSize { file_index: usize },
    /// Open the file.
    Open { file_index: usize },
    /// Decode a window of the open file.
    Decode { start: u64, duration: u64, pad_with_zeros: bool },
    /// Bring the data from one sample rate to another.
    Resample { data: D, from: usize, to: usize },
    /// Nothing: the sample is produced.
    Done(Sample<D>),
}

/// How far the production has got.
#[derive(Clone, Copy, Debug, PartialEq, Eq, Structural)]
pub enum Stage {
    /// The size of the file is awaited.
    AwaitFileSize,
    /// The opening of the file is awaited.
    AwaitOpen,
    /// The window that starts at `start` is being decoded from a file of
    /// the given sample rate.
    AwaitDecode { start: u64, sample_rate: usize },
    /// The data is being brought from one rate to another; `unpadded` says
    /// whether all of it was decoded rather than padded.
    AwaitResample { start: u64, from: usize, to: usize, unpadded_len: usize, unpadded: bool },
    /// The sample is produced.
    Finished,
}

/// The number of events that a stage can still take.
pub open spec fn events_left(stage: Stage) -> nat {
    match stage {
        Stage::AwaitFileSize => 4,
        Stage::AwaitOpen => 3,
        Stage::AwaitDecode { .. } => 2,
        Stage::AwaitResample { .. } => 1,
        Stage::Finished => 0,
    }
}

impl Work {
    /// The index under which the sample is emitted.
    pub open spec fn sample_index(self) -> u64 {
        match self {
            Work::Segment(unit) => unit.sample_index,
            Work::Random { sample_index, .. } => sample_index,
        }
    }

    /// The file that the sample is read from.
    pub open spec fn file_index(self) -> usize {
        match self {
            Work::Segment(unit) => unit.file_index,
            Work::Random { file_index, .. } => file_index,
        }
    }

    /// A draw is below the denominator of draws.
    pub open spec fn wf(self) -> bool {
        self matches Work::Random { start_draw, .. } ==> start_draw < DRAW_DENOMINATOR
    }
}

/// The offset that a draw picks in a span: the draw's fraction of the span,
/// rounded down.
pub open spec fn scaled(draw: u64, span: u64) -> u64 {
    (draw * span / DRAW_DENOMINATOR as int) as u64
}

/// The span in which the start of a drawn window is placed: the whole file
/// with padding; without, what leaves room for a full window.
pub open spec fn start_span(config: ProducerConfig, duration: u64) -> u64 {
    if config.pad_last_segment {
        duration
    } else {
        (duration - config.window) as u64
    }
}

/// The number of frames that count as decoded after resampling: all of
/// them where nothing was padded; else the decoded frames at the new rate,
/// rounded down.
pub open spec fn resampled_unpadded(
    unpadded: bool,
    unpadded_len: usize,
    from: usize,
    to: usize,
    len: usize,
) -> int {
    if unpadded {
        len as int
    } else {
        unpadded_len * to / from as int
    }
}

/// The rate to resample to: the target, where one is set and the data is
/// not at that rate already.
pub open spec fn resample_target(config: ProducerConfig, sample_rate: usize) -> Option<usize> {
    match config.target_sample_rate {
        Some(target) => if target != sample_rate {
            Some(target)
        } else {
            None
        },
        None => None,
    }
}

/// The sample that carries a failure. It keeps the index and the file of
/// its work; a planned window keeps its start as well.
pub open spec fn failed<D>(work: Work, error: SampleError) -> Sample<D> {
    Sample {
        sample_index: work.sample_index(),
        file_index: work.file_index(),
        start_time: match work {
            Work::Segment(unit) => unit.start,
            Work::Random { .. } => 0,
        },
        sample_rate: 0,
        unpadded_len: 0,
        data: Err(error),
        gen_duration: 0,
    }
}

/// The sample that carries decoded data.
pub open spec fn succeeded<D>(
    work: Work,
    start: u64,
    sample_rate: usize,
    unpadded_len: usize,
    data: D,
) -> Sample<D> {
    Sample {
        sample_index: work.sample_index(),
        file_index: work.file_index(),
        start_time: start,
        sample_rate,
        unpadded_len,
        data: Ok(data),
        gen_duration: 0,
    }
}

/// The event is one that the stage waits for, and what it reports can be
/// held: the count of decoded frames at the new rate fits a `usize`.
pub open spec fn expects<D>(stage: Stage, event: Event<D>) -> bool {
    match (stage, event) {
        (Stage::AwaitFileSize, Event::FileSize(_)) => true,
        (Stage::AwaitOpen, Event::Opened(_)) => true,
        (Stage::AwaitDecode { .. }, Event::Decoded(_)) => true,
        (
            Stage::AwaitResample { from, to, unpadded_len, unpadded, .. },
            Event::Resampled(outcome),
        ) => outcome matches Ok(resampled) ==> unpadded || (from > 0 && unpadded_len * to
            / from as int <= usize::MAX),
        _ => false,
    }
}

/// The stage and the action that follow an event.
pub open spec fn transition<D>(
    config: ProducerConfig,
    work: Work,
    stage: Stage,
    event: Event<D>,
) -> (Stage, Action<D>) {
    match (stage, event) {
        (Stage::AwaitFileSize, Event::FileSize(Err(error))) => (
            Stage::Finished,
            Action::Done(failed(work, error)),
        ),
        (Stage::AwaitFileSize, Event::FileSize(Ok(size))) => if size == 0 {
            (Stage::Finished, Action::Done(failed(work, SampleError::EmptyFile)))
        } else {
            (Stage::AwaitOpen, Action::Open { file_index: work.file_index() })
        },
        (Stage::AwaitOpen, Event::Opened(Err(error))) => (
            Stage::Finished,
            Action::Done(failed(work, error)),
        ),
        (Stage::AwaitOpen, Event::Opened(Ok(info))) => match work {
            Work::Segment(unit) => (
                Stage::AwaitDecode { start: unit.start, sample_rate: info.sample_rate },
                Action::Decode {
                    start: unit.start,
                    duration: config.window,
                    pad_with_zeros: config.pad_last_segment,
                },
            ),
            Work::Random { start_draw, .. } => if info.duration <= config.window {
                (
                    Stage::Finished,
                    Action::Done(
                        failed(work, SampleError::FileTooSmall { duration: info.duration }),
                    ),
                )
            } else {
                let start = scaled(start_draw, start_span(config, info.duration));
                (
                    Stage::AwaitDecode { start, sample_rate: info.sample_rate },
                    Action::Decode {
                        start,
                        duration: config.window,
                        pad_with_zeros: config.pad_last_segment,
                    },
                )
            },
        },
        (Stage::AwaitDecode { .. }, Event::Decoded(Err(error))) => (
            Stage::Finished,
            Action::Done(failed(work, error)),
        ),
        (Stage::AwaitDecode { start, sample_rate }, Event::Decoded(Ok(decoded))) => {
            match resample_target(config, sample_rate) {
                Some(target) => (
                    Stage::AwaitResample {
                        start,
                        from: sample_rate,
                        to: target,
                        unpadded_len: decoded.unpadded_len,
                        unpadded: decoded.unpadded_len == decoded.len,
                    },
                    Action::Resample { data: decoded.data, from: sample_rate, to: target },
                ),
                None => (
                    Stage::Finished,
                    Action::Done(
                        succeeded(work, start, sample_rate, decoded.unpadded_len, decoded.data),
                    ),
                ),
            }
        },
        (Stage::AwaitResample { .. }, Event::Resampled(Err(error))) => (
            Stage::Finished,
            Action::Done(failed(work, error)),
        ),
        (
            Stage::AwaitResample { start, from, to, unpadded_len, unpadded },
            Event::Resampled(Ok(resampled)),
        ) => (
            Stage::Finished,
            Action::Done(
                succeeded(
                    work,
                    start,
                    to,
                    resampled_unpadded(unpadded, unpadded_len, from, to, resampled.len) as usize,
                    resampled.data,
                ),
            ),
        ),
        _ => arbitrary(),
    }
}

/// The machine that produces one sample.
pub struct Producer {
    config: ProducerConfig,
    work: Work,
    stage: Stage,
}

impl Producer {
    /// What the sample is produced with.
    pub closed spec fn config(&self) -> ProducerConfig {
        self.config
    }

    /// What is produced.
    pub closed spec fn work(&self) -> Work {
        self.work
    }

    /// How far the production has got.
    pub closed spec fn stage(&self) -> Stage {
        self.stage
    }

    /// Starts the production of one sample and says what is due first: the
    /// size of the file for a drawn one, which is refused when empty;
    /// opening the file for a planned window.
    pub fn begin<D>(config: ProducerConfig, work: Work) -> (r: (Self, Action<D>))
        requires
            work.wf(),
        ensures
            r.0.config() == config,
            r.0.work() == work,
            r.0.work().wf(),
            match work {
                Work::Segment(unit) => r.0.stage() == Stage::AwaitOpen && r.1 == (Action::<
                    D,
                >::Open { file_index: unit.file_index }),
                Work::Random { file_index, .. } => r.0.stage() == Stage::AwaitFileSize && r.1 == (
                Action::<D>::FileSize { file_index }),
            },
    {
        match work {
            Work::Segment(unit) => (
                Producer { config, work, stage: Stage::AwaitOpen },
                Action::Open { file_index: unit.file_index },
            ),
            Work::Random { sample_index, file_index, start_draw } => (
                Producer { config, work, stage: Stage::AwaitFileSize },
                Action::FileSize { file_index },
            ),
        }
    }

    /// Whether the machine can take the event: it is the one that the stage
    /// waits for, and what it reports can be held.
    pub fn accepts<D>(&self, event: &Event<D>) -> (ok: bool)
        ensures
            ok == expects(self.stage(), *event),
    {
        match (self.stage, event) {
            (Stage::AwaitFileSize, Event::FileSize(_)) => true,
            (Stage::AwaitOpen, Event::Opened(_)) => true,
            (Stage::AwaitDecode { .. }, Event::Decoded(_)) => true,
            (
                Stage::AwaitResample { start, from, to, unpadded_len, unpadded },
                Event::Resampled(outcome),
            ) => match outcome {
                Ok(_) => unpadded || (from > 0 && scaled_len(unpadded_len, from, to).is_some()),
                Err(_) => true,
            },
            _ => false,
        }
    }

    /// Takes what came of the action that was due and says what is due
    /// next.
    pub fn step<D>(&mut self, event: Event<D>) -> (action: Action<D>)
        requires
            old(self).work().wf(),
            expects(old(self).stage(), event),
        ensures
            final(self).config() == old(self).config(),
            final(self).work() == old(self).work(),
            (final(self).stage(), action) == transition(
                old(self).config(),
                old(self).work(),
                old(self).stage(),
                event,
            ),
    {
        let config = self.config;
        let work = self.work;
        match (self.stage, event) {
            (Stage::AwaitFileSize, Event::FileSize(Err(error))) => self.fail(error),
            (Stage::AwaitFileSize, Event::FileSize(Ok(size))) => {
                if size == 0 {
                    self.fail(SampleError::EmptyFile)
                } else {
                    self.stage = Stage::AwaitOpen;
                    Action::Open { file_index: work_file(work) }
                }
            },
            (Stage::AwaitOpen, Event::Opened(Err(error))) => self.fail(error),
            (Stage::AwaitOpen, Event::Opened(Ok(info))) => match work {
                Work::Segment(unit) => {
                    self.stage =
                    Stage::AwaitDecode { start: unit.start, sample_rate: info.sample_rate };
                    Action::Decode {
                        start: unit.start,
                        duration: config.window,
                        pad_with_zeros: config.pad_last_segment,
                    }
                },
                Work::Random { sample_index, file_index, start_draw } => {
                    if info.duration <= config.window {
                        self.fail(SampleError::FileTooSmall { duration: info.duration })
                    } else {
                        let span = if config.pad_last_segment {
                            info.duration
                        } else {
                            info.duration - config.window
                        };
                        let start = scale_draw(start_draw, span);
                        self.stage = Stage::AwaitDecode { start, sample_rate: info.sample_rate };
                        Action::Decode {
                            start,
                            duration: config.window,
                            pad_with_zeros: config.pad_last_segment,
                        }
                    }
                },
            },
            (Stage::AwaitDecode { .. }, Event::Decoded(Err(error))) => self.fail(error),
            (Stage::AwaitDecode { start, sample_rate }, Event::Decoded(Ok(decoded))) => {
                let target = match config.target_sample_rate {
                    Some(target) => target,
                    None => sample_rate,
                };
                if target != sample_rate {
                    self.stage =
                    Stage::AwaitResample {
                        start,
                        from: sample_rate,
                        to: target,
                        unpadded_len: decoded.unpadded_len,
                        unpadded: decoded.unpadded_len == decoded.len,
                    };
                    Action::Resample { data: decoded.data, from: sample_rate, to: target }
                } else {
                    self.stage = Stage::Finished;
                    Action::Done(
                        Sample {
                            sample_index: work_index(work),
                            file_index: work_file(work),
                            start_time: start,
                            sample_rate,
                            unpadded_len: decoded.unpadded_len,
                            data: Ok(decoded.data),
                            gen_duration: 0,
                        },
                    )
                }
            },
            (Stage::AwaitResample { .. }, Event::Resampled(Err(error))) => self.fail(error),
            (
                Stage::AwaitResample { start, from, to, unpadded_len, unpadded },
                Event::Resampled(Ok(resampled)),
            ) => {
                let counted = if unpadded {
                    resampled.len
                } else {
                    match scaled_len(unpadded_len, from, to) {
                        Some(counted) => counted,
                        None => 0,
                    }
                };
                self.stage = Stage::Finished;
                Action::Done(
                    Sample {
                        sample_index: work_index(work),
                        file_index: work_file(work),
                        start_time: start,
                        sample_rate: to,
                        unpadded_len: counted,
                        data: Ok(resampled.data),
                        gen_duration: 0,
                    },
                )
            },
            _ => vstd::pervasive::unreached(),
        }
    }

    /// Ends the production with the sample that carries a failure.
    fn fail<D>(&mut self, error: SampleError) -> (action: Action<D>)
        ensures
            final(self).config() == old(self).config(),
            final(self).work() == old(self).work(),
            final(self).stage() == Stage::Finished,
            action == Action::Done(failed::<D>(old(self).work(), error)),
    {
        self.stage = Stage::Finished;
        let start_time = match self.work {
            Work::Segment(unit) => unit.start,
            Work::Random { .. } => 0,
        };
        Action::Done(
            Sample {
                sample_index: work_index(self.work),
                file_index: work_file(self.work),
                start_time,
                sample_rate: 0,
                unpadded_len: 0,
                data: Err(error),
                gen_duration: 0,
            },
        )
    }
}

/// The index under which the sample of a unit of work is emitted.
pub fn work_index(work: Work) -> (r: u64)
    ensures
        r == work.sample_index(),
{
    match work {
        Work::Segment(unit) => unit.sample_index,
        Work::Random { sample_index, .. } => sample_index,
    }
}

/// The file that a unit of work reads.
pub fn work_file(work: Work) -> (r: usize)
    ensures
        r == work.file_index(),
{
    match work {
        Work::Segment(unit) => unit.file_index,
        Work::Random { file_index, .. } => file_index,
    }
}

/// The offset that a draw picks in a span.
pub fn scale_draw(draw: u64, span: u64) -> (start: u64)
    requires
        draw < DRAW_DENOMINATOR,
    ensures
        start == scaled(draw, span),
        span > 0 ==> start < span,
        span == 0 ==> start == 0,
{
    assert(draw * span <= u128::MAX && 0 <= draw * span / 0x10_0000_0000_0000int <= span && (span
        > 0 ==> draw * span / 0x10_0000_0000_0000int < span)) by (nonlinear_arith)
        requires
            0 <= draw < 0x10_0000_0000_0000u64,
            0 <= span <= u64::MAX,
    ;
    let product: u128 = (draw as u128) * (span as u128);
    (product / (DRAW_DENOMINATOR as u128)) as u64
}

/// A count of frames brought from one sample rate to another, rounded down,
/// or `None` where the old rate is zero or the new count does not fit.
pub fn scaled_len(len: usize, from: usize, to: usize) -> (r: Option<usize>)
    ensures
        match r {
            Some(n) => from > 0 && n == len * to / from as int,
            None => from == 0 || len * to / from as int > usize::MAX,
        },
{
    if from == 0 {
        return None;
    }
    assert(len * to <= u128::MAX && 0 <= len * to / from as int) by (nonlinear_arith)
        requires
            0 <= len <= u64::MAX,
            0 <= to <= u64::MAX,
            from > 0,
    ;
    let scaled: u128 = (len as u128) * (to as u128) / (from as u128);
    if scaled <= usize::MAX as u128 {
        Some(scaled as usize)
    } else {
        None
    }
}

/// Whatever comes of the actions, the sample that ends a production is the
/// one of its work: it carries the work's sample index and file index. A
/// failure therefore never shifts the order of the stream.
pub proof fn lemma_done_keeps_identity<D>(
    config: ProducerConfig,
    work: Work,
    stage: Stage,
    event: Event<D>,
)
    requires
        expects(stage, event),
    ensures
        transition(config, work, stage, event).1 matches Action::Done(sample)
            ==> sample.sample_index == work.sample_index() && sample.file_index
            == work.file_index(),
{
}

/// Every production ends: each event brings the machine nearer to its end,
/// which it reaches after four events at most, and the sample is handed out
/// exactly when the end is reached.
pub proof fn lemma_production_ends<D>(
    config: ProducerConfig,
    work: Work,
    stage: Stage,
    event: Event<D>,
)
    requires
        expects(stage, event),
    ensures
        events_left(transition(config, work, stage, event).0) < events_left(stage) <= 4,
        transition(config, work, stage, event).1 is Done <==> transition(
            config,
            work,
            stage,
            event,
        ).0 == Stage::Finished,
{
}

/// A failure of a collaborator is captured: the production ends at once
/// with a sample whose data is that failure.
pub proof fn lemma_failure_is_captured<D>(
    config: ProducerConfig,
    work: Work,
    stage: Stage,
    event: Event<D>,
    error: SampleError,
)
    requires
        expects(stage, event),
        event == Event::<D>::FileSize(Err(error)) || event == Event::<D>::Opened(Err(error))
            || event == Event::<D>::Decoded(Err(error)) || event == Event::<D>::Resampled(
            Err(error),
        ),
    ensures
        transition(config, work, stage, event) == (
            Stage::Finished,
            Action::Done(failed::<D>(work, error)),
        ),
{
}

/// A drawn window starts inside its file, and without padding it ends
/// inside it too.
pub proof fn lemma_drawn_window_fits(config: ProducerConfig, draw: u64, duration: u64)
    requires
        draw < DRAW_DENOMINATOR,
        duration > config.window,
    ensures
        scaled(draw, start_span(config, duration)) < duration,
        !config.pad_last_segment ==> scaled(draw, start_span(config, duration)) + config.window
            < duration,
{
    let span = start_span(config, duration);
    assert(0 <= draw * span / 0x10_0000_0000_0000int < span) by (nonlinear_arith)
        requires
            0 <= draw < 0x10_0000_0000_0000u64,
            0 < span <= u64::MAX,
    ;
}

} // verus!
