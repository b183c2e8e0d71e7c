//! The bytes of a WAV file with 16-bit samples.

use crate::bytes::{le_i16, le_u16, le_u32, push_i16, push_u16, push_u32};
use vstd::prelude::*;

verus! {

/// The number of bytes before the samples.
pub const HEADER_LEN: usize = 44;

/// The four letters `RIFF`.
pub open spec fn riff_tag() -> Seq<u8> {
    seq![0x52u8, 0x49u8, 0x46u8, 0x46u8]
}

/// The four letters `WAVE`.
pub open spec fn wave_tag() -> Seq<u8> {
    seq![0x57u8, 0x41u8, 0x56u8, 0x45u8]
}

/// The four letters `fmt ` that open the format block.
pub open spec fn fmt_tag() -> Seq<u8> {
    seq![0x66u8, 0x6du8, 0x74u8, 0x20u8]
}

/// The four letters `data` that open the data block.
pub open spec fn data_tag() -> Seq<u8> {
    seq![0x64u8, 0x61u8, 0x74u8, 0x61u8]
}

/// The header fits its fields: the length of the file a `u32`, the bytes
/// per second a `u32`, the bytes per frame a `u16`.
pub open spec fn header_fits(n_samples: nat, n_channels: u16, sample_rate: u32) -> bool {
    &&& HEADER_LEN + 2 * n_samples <= u32::MAX
    &&& sample_rate * 2 <= u32::MAX
    &&& sample_rate * 2 * n_channels <= u32::MAX
    &&& n_channels * 2 <= u16::MAX
}

/// The header of a file of `n_samples` samples: the RIFF block with the
/// length of what follows it, the format block of 16 bytes for PCM with
/// 16 bits per sample, and the opening of the data block with its length.
pub open spec fn header_bytes(n_samples: nat, n_channels: u16, sample_rate: u32) -> Seq<u8> {
    riff_tag() + le_u32((36 + 2 * n_samples) as u32) + wave_tag() + fmt_tag() + le_u32(16) + le_u16(
        1,
    ) + le_u16(n_channels) + le_u32(sample_rate) + le_u32(
        (sample_rate * 2 * n_channels) as u32,
    ) + le_u16((n_channels * 2) as u16) + le_u16(16) + data_tag() + le_u32(
        (2 * n_samples) as u32,
    )
}

/// The samples as bytes: two for each, low byte first, in the order given.
pub open spec fn sample_bytes(samples: Seq<i16>) -> Seq<u8> {
    Seq::new(2 * samples.len(), |k: int| le_i16(samples[k / 2])[k % 2])
}

/// The bytes of the whole file.
pub open spec fn wav_bytes(samples: Seq<i16>, n_channels: u16, sample_rate: u32) -> Seq<u8> {
    header_bytes(samples.len(), n_channels, sample_rate) + sample_bytes(samples)
}

/// Whether the header fits its fields.
pub fn fits(n_samples: usize, n_channels: u16, sample_rate: u32) -> (r: bool)
    ensures
        r == header_fits(n_samples as nat, n_channels, sample_rate),
{
    let limit: u128 = 0xffff_ffff;
    let bytes: u128 = 44 + 2 * (n_samples as u128);
    assert(sample_rate * 2 * n_channels == (sample_rate * 2) * n_channels && (sample_rate * 2)
        * n_channels <= 0x2_0000_0000 * 0x1_0000) by (nonlinear_arith)
        requires
            0 <= sample_rate <= 0xffff_ffff,
            0 <= n_channels <= 0xffff,
    ;
    let per_second: u128 = (sample_rate as u128) * 2 * (n_channels as u128);
    bytes <= limit && (sample_rate as u128) * 2 <= limit && per_second <= limit && n_channels
        <= 0x7fff
}

/// Appends four letters.
fn push_tag(out: &mut Vec<u8>, a: u8, b: u8, c: u8, d: u8)
    ensures
        final(out)@ == old(out)@ + seq![a, b, c, d],
{
    out.push(a);
    out.push(b);
    out.push(c);
    out.push(d);
}

/// The bytes of a WAV file. The samples are written as they come, so
/// those of several channels are taken to be interleaved.
pub fn write_multi(samples: &[i16], n_channels: u16, sample_rate: u32) -> (out: Vec<u8>)
    requires
        header_fits(samples@.len(), n_channels, sample_rate),
    ensures
        out@ == wav_bytes(samples@, n_channels, sample_rate),
        out@.len() == HEADER_LEN + 2 * samples@.len(),
{
    let n = samples.len();
    let data_len: u32 = (n as u32) * 2;
    let bytes_per_second: u32 = sample_rate * 2 * (n_channels as u32);
    let mut out: Vec<u8> = Vec::new();
    push_tag(&mut out, 0x52, 0x49, 0x46, 0x46);
    push_u32(&mut out, data_len + 36);
    push_tag(&mut out, 0x57, 0x41, 0x56, 0x45);
    push_tag(&mut out, 0x66, 0x6d, 0x74, 0x20);
    push_u32(&mut out, 16);
    push_u16(&mut out, 1);
    push_u16(&mut out, n_channels);
    push_u32(&mut out, sample_rate);
    push_u32(&mut out, bytes_per_second);
    push_u16(&mut out, n_channels * 2);
    push_u16(&mut out, 16);
    push_tag(&mut out, 0x64, 0x61, 0x74, 0x61);
    push_u32(&mut out, data_len);
    let ghost header = header_bytes(n as nat, n_channels, sample_rate);
    let mut i: usize = 0;
    while i < n
        invariant
            i <= n,
            n == samples@.len(),
            header.len() == 44,
            out@ == header + sample_bytes(samples@.take(i as int)),
        decreases n - i,
    {
        push_i16(&mut out, samples[i]);
        i += 1;
    }
    out
}

/// The bytes of a WAV file of one channel.
pub fn write_mono(samples: &[i16], sample_rate: u32) -> (out: Vec<u8>)
    requires
        header_fits(samples@.len(), 1, sample_rate),
    ensures
        out@ == wav_bytes(samples@, 1, sample_rate),
{
    write_multi(samples, 1, sample_rate)
}

/// The bytes of a WAV file of two channels, from interleaved samples.
pub fn write_stereo(samples: &[i16], sample_rate: u32) -> (out: Vec<u8>)
    requires
        header_fits(samples@.len(), 2, sample_rate),
    ensures
        out@ == wav_bytes(samples@, 2, sample_rate),
{
    write_multi(samples, 2, sample_rate)
}

} // verus!
