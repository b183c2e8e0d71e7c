//! The record that a worker produces, and what the consumer makes of it
//! under the error policy.

use crate::error::{ConfigError, SampleError};
use vstd::prelude::*;

verus! {

/// What to do with a sample whose production failed.
#[derive(Clone, Copy, Debug, PartialEq, Eq, Structural)]
pub enum OnError {
    /// Hand the failure to the caller.
    Raise,
    /// Report the failure and go on with the next sample.
    Log,
    /// Go on with the next sample.
    Ignore,
}

/// The policy that a name stands for, if any.
pub open spec fn policy_named(name: Seq<char>) -> Option<OnError> {
    if name == "raise"@ {
        Some(OnError::Raise)
    } else if name == "log"@ {
        Some(OnError::Log)
    } else if name == "ignore"@ {
        Some(OnError::Ignore)
    } else {
        None
    }
}

/// The policy that an optional name stands for: `log` where none is given.
pub open spec fn policy_or_default(name: Option<&str>) -> Option<OnError> {
    match name {
        Some(name) => policy_named(name@),
        None => Some(OnError::Log),
    }
}

impl OnError {
    /// Reads a policy from its name: `raise`, `log` or `ignore`.
    pub fn parse(name: &str) -> (r: Result<OnError, ConfigError>)
        ensures
            match r {
                Ok(policy) => policy_named(name@) == Some(policy),
                Err(e) => policy_named(name@) is None && (e matches ConfigError::UnknownOnError {
                    name: n,
                } && n@ == name@),
            },
    {
        let given = name.to_owned();
        if given == "raise".to_owned() {
            Ok(OnError::Raise)
        } else if given == "log".to_owned() {
            Ok(OnError::Log)
        } else if given == "ignore".to_owned() {
            Ok(OnError::Ignore)
        } else {
            Err(ConfigError::UnknownOnError { name: given })
        }
    }

    /// Reads a policy from an optional name; without a name it is `log`.
    pub fn parse_or_default(name: Option<&str>) -> (r: Result<OnError, ConfigError>)
        ensures
            match r {
                Ok(policy) => policy_or_default(name) == Some(policy),
                Err(e) => policy_or_default(name) is None && (e
                    matches ConfigError::UnknownOnError { name: n } && name matches Some(given)
                    && n@ == given@),
            },
    {
        match name {
            Some(name) => OnError::parse(name),
            None => Ok(OnError::Log),
        }
    }
}

/// The unit of output. `data` holds what was decoded, or the failure that
/// was captured in its place; times are whole microseconds.
pub struct Sample<D> {
    pub sample_index: u64,
    pub file_index: usize,
    pub start_time: u64,
    pub sample_rate: usize,
    pub unpadded_len: usize,
    pub data: Result<D, SampleError>,
    pub gen_duration: u64,
}

/// A sample whose production succeeded.
pub struct Decoded<D> {
    pub sample_index: u64,
    pub file_index: usize,
    pub start_time: u64,
    pub sample_rate: usize,
    pub unpadded_len: usize,
    pub data: D,
    pub gen_duration: u64,
}

/// A failure together with the file that it came from.
pub struct Failure {
    pub file_index: usize,
    pub error: SampleError,
}

/// What becomes of one produced item.
pub enum Outcome<X> {
    /// It is handed to the caller.
    Yield(X),
    /// It is left out of the stream; `log` holds the failure to report, if
    /// the policy asks for a report.
    Skip { log: Option<Failure> },
    /// Its failure is handed to the caller.
    Raise(Failure),
}

/// What a worker sends: a sample, on which the consumer applies the error
/// policy, or the outcome of a transform that the worker has applied itself.
pub enum SampleOrObject<D, O> {
    Sample(Sample<D>),
    Object(Outcome<O>),
}

/// What the caller is handed: a decoded sample, or what a transform made of
/// one.
pub enum Emitted<D, O> {
    Sample(Decoded<D>),
    Object(O),
}

/// What the error policy makes of a sample.
pub open spec fn resolved<D>(sample: Sample<D>, on_error: OnError) -> Outcome<Decoded<D>> {
    match sample.data {
        Ok(data) => Outcome::Yield(
            Decoded {
                sample_index: sample.sample_index,
                file_index: sample.file_index,
                start_time: sample.start_time,
                sample_rate: sample.sample_rate,
                unpadded_len: sample.unpadded_len,
                data,
                gen_duration: sample.gen_duration,
            },
        ),
        Err(error) => {
            let failure = Failure { file_index: sample.file_index, error };
            match on_error {
                OnError::Raise => Outcome::Raise(failure),
                OnError::Log => Outcome::Skip { log: Some(failure) },
                OnError::Ignore => Outcome::Skip { log: None },
            }
        },
    }
}

/// What the consumer makes of an item: the policy applied to a sample, and
/// the outcome of a transform as it stands.
pub open spec fn settled<D, O>(item: SampleOrObject<D, O>, on_error: OnError) -> Outcome<
    Emitted<D, O>,
> {
    match item {
        SampleOrObject::Sample(sample) => match resolved(sample, on_error) {
            Outcome::Yield(decoded) => Outcome::Yield(Emitted::Sample(decoded)),
            Outcome::Skip { log } => Outcome::Skip { log },
            Outcome::Raise(failure) => Outcome::Raise(failure),
        },
        SampleOrObject::Object(outcome) => match outcome {
            Outcome::Yield(object) => Outcome::Yield(Emitted::Object(object)),
            Outcome::Skip { log } => Outcome::Skip { log },
            Outcome::Raise(failure) => Outcome::Raise(failure),
        },
    }
}

impl<D> Sample<D> {
    /// Applies the error policy: a decoded sample is handed on; a failed one
    /// is raised, skipped with a report, or skipped in silence.
    pub fn resolve(self, on_error: OnError) -> (r: Outcome<Decoded<D>>)
        ensures
            r == resolved(self, on_error),
    {
        match self.data {
            Ok(data) => Outcome::Yield(
                Decoded {
                    sample_index: self.sample_index,
                    file_index: self.file_index,
                    start_time: self.start_time,
                    sample_rate: self.sample_rate,
                    unpadded_len: self.unpadded_len,
                    data,
                    gen_duration: self.gen_duration,
                },
            ),
            Err(error) => {
                let failure = Failure { file_index: self.file_index, error };
                match on_error {
                    OnError::Raise => Outcome::Raise(failure),
                    OnError::Log => Outcome::Skip { log: Some(failure) },
                    OnError::Ignore => Outcome::Skip { log: None },
                }
            },
        }
    }
}

impl<X> Outcome<X> {
    /// Hands what is yielded to a transform. What the transform returns is
    /// yielded in its place, and its failure is raised; an item that is not
    /// yielded never reaches the transform.
    pub fn transform<Y, F: FnOnce(X) -> Result<Y, Failure>>(self, f: F) -> (r: Outcome<Y>)
        requires
            self matches Outcome::Yield(x) ==> f.requires((x,)),
        ensures
            match self {
                Outcome::Yield(x) => match r {
                    Outcome::Yield(y) => f.ensures((x,), Ok(y)),
                    Outcome::Raise(failure) => f.ensures((x,), Err(failure)),
                    Outcome::Skip { .. } => false,
                },
                Outcome::Skip { log } => r == (Outcome::<Y>::Skip { log }),
                Outcome::Raise(failure) => r == Outcome::<Y>::Raise(failure),
            },
    {
        match self {
            Outcome::Yield(x) => match f(x) {
                Ok(y) => Outcome::Yield(y),
                Err(failure) => Outcome::Raise(failure),
            },
            Outcome::Skip { log } => Outcome::Skip { log },
            Outcome::Raise(failure) => Outcome::Raise(failure),
        }
    }
}

/// What the consumer makes of an item that it took from the pool.
pub fn settle<D, O>(item: SampleOrObject<D, O>, on_error: OnError) -> (r: Outcome<Emitted<D, O>>)
    ensures
        r == settled(item, on_error),
{
    match item {
        SampleOrObject::Sample(sample) => match sample.resolve(on_error) {
            Outcome::Yield(decoded) => Outcome::Yield(Emitted::Sample(decoded)),
            Outcome::Skip { log } => Outcome::Skip { log },
            Outcome::Raise(failure) => Outcome::Raise(failure),
        },
        SampleOrObject::Object(outcome) => match outcome {
            Outcome::Yield(object) => Outcome::Yield(Emitted::Object(object)),
            Outcome::Skip { log } => Outcome::Skip { log },
            Outcome::Raise(failure) => Outcome::Raise(failure),
        },
    }
}

/// A failed sample never reaches the caller as data, and a decoded one is
/// never lost: an item is yielded exactly when its data was decoded, whatever
/// the policy.
pub proof fn lemma_yield_iff_decoded<D>(sample: Sample<D>, on_error: OnError)
    ensures
        resolved(sample, on_error) is Yield <==> sample.data is Ok,
        resolved(sample, on_error) is Raise <==> sample.data is Err && on_error == OnError::Raise,
        resolved(sample, on_error) matches Outcome::Yield(d) ==> d.sample_index
            == sample.sample_index && d.file_index == sample.file_index,
{
}

} // verus!
