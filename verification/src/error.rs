//! What can be wrong with a configuration, and what can go wrong with one
//! sample.

use vstd::prelude::*;

verus! {

/// A configuration that is refused when a reader or an iterator is built.
#[derive(Debug)]
pub enum ConfigError {
    /// The name given for the error policy is none of `raise`, `log`,
    /// `ignore`.
    UnknownOnError { name: String },
    /// The durations of the corpus add up to less than the smallest total
    /// that weighted sampling accepts.
    DegenerateCorpus,
}

/// A failure captured while one sample was produced. It travels inside the
/// sample to the consumer, which applies the error policy to it.
#[derive(Debug)]
pub enum SampleError {
    /// The file is missing or cannot be read; what the system said of it.
    Io(String),
    /// The file holds no bytes.
    EmptyFile,
    /// The file, of the given duration in microseconds, is not longer than
    /// the window asked for.
    FileTooSmall { duration: u64 },
    /// The container or codec data cannot be decoded; what the decoder said.
    Decode(String),
    /// The decoded data cannot be brought to the target sample rate; what
    /// the resampler said.
    Resample(String),
}

} // verus!
