//! Streaming of training samples from a corpus of audio files: the plan of
//! the windows to read, the seeded draws of weighted sampling, the pool that
//! fans the work out to workers and fans their results back in order, the
//! production of one sample, and the error policy of the consumer.
//!
//! Everything here is arithmetic on integers and moves of data. Times are
//! whole microseconds; a draw is a numerator over `2^52`. Opening files,
//! decoding, resampling, waiting and the clock belong to the caller, who
//! runs the state machines of [`producer`] and [`par_map`].

pub mod bytes;
pub mod channel;
pub mod dataset;
pub mod error;
pub mod opus;
pub mod par_map;
pub mod pcm;
pub mod producer;
pub mod rng;
pub mod sample;
pub mod segments;
pub mod wav;
pub mod weights;
