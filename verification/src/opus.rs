//! The headers of an Ogg Opus stream, the order of its packets, and the
//! frames that a stream is written in.

use crate::bytes::{i16_of_le, le_i16, le_u16, le_u32, read_i16, read_u16, read_u32};
use crate::bytes::{u16_of_le, u32_of_le};
use byteorder::{LittleEndian, WriteBytesExt};
use vstd::prelude::*;

verus! {

/// The number of samples of one channel in a frame that is encoded.
pub const OPUS_ENCODER_FRAME_SIZE: usize = 960;

/// The sample rate at which Opus audio is coded.
pub const OPUS_SAMPLE_RATE: u32 = 48000;

/// The number of samples to drop from the start of a decoded stream that
/// the header announces.
pub const PRE_SKIP: u16 = 3840;

/// The number of bytes of an identification header.
pub const HEADER_LEN: usize = 19;

/// The identification header of an Opus stream.
#[derive(Clone, Copy, Debug, PartialEq, Eq, Structural)]
pub struct OpusHeader {
    pub version: u8,
    pub channel_count: u8,
    pub pre_skip: u16,
    /// The sample rate of the input that was encoded.
    pub input_sample_rate: u32,
    pub output_gain: i16,
    pub mapping_family: u8,
}

/// What is wrong with a stream of packets.
#[derive(Clone, Copy, Debug, PartialEq, Eq, Structural)]
pub enum OpusError {
    /// The packet does not start with `OpusHead`.
    NotOpusHead,
    /// A second identification header.
    MultipleHeads,
    /// Audio before any identification header.
    NoInitialHead,
    /// The header announces neither one channel nor two.
    UnexpectedChannels { count: u8 },
    /// The stream ended without an identification header.
    NoData,
}

/// The eight letters `OpusHead`.
pub open spec fn head_magic() -> Seq<u8> {
    seq![0x4fu8, 0x70u8, 0x75u8, 0x73u8, 0x48u8, 0x65u8, 0x61u8, 0x64u8]
}

/// The eight letters `OpusTags`.
pub open spec fn tags_magic() -> Seq<u8> {
    seq![0x4fu8, 0x70u8, 0x75u8, 0x73u8, 0x54u8, 0x61u8, 0x67u8, 0x73u8]
}

/// The nine letters `sphn-pyo3`, the vendor that the comment header names.
pub open spec fn vendor() -> Seq<u8> {
    seq![0x73u8, 0x70u8, 0x68u8, 0x6eu8, 0x2du8, 0x70u8, 0x79u8, 0x6fu8, 0x33u8]
}

/// The packet starts with the given eight letters.
pub open spec fn starts_with(packet: Seq<u8>, magic: Seq<u8>) -> bool {
    packet.len() >= 8 && packet.subrange(0, 8) == magic
}

/// The header that the bytes of a packet spell.
pub open spec fn header_of(packet: Seq<u8>) -> OpusHeader {
    OpusHeader {
        version: packet[8],
        channel_count: packet[9],
        pre_skip: u16_of_le(packet[10], packet[11]),
        input_sample_rate: u32_of_le(packet[12], packet[13], packet[14], packet[15]),
        output_gain: i16_of_le(packet[16], packet[17]),
        mapping_family: packet[18],
    }
}

/// The bytes of the identification header that is written: version 1, the
/// channel count, the pre-skip, the sample rate of the input, no gain, and
/// channel mapping family 0.
pub open spec fn header_bytes(channels: u8, sample_rate: u32) -> Seq<u8> {
    head_magic().push(1).push(channels) + le_u16(PRE_SKIP) + le_u32(sample_rate) + le_i16(0).push(
        0,
    )
}

/// The bytes of the comment header that is written: the vendor's name with
/// its length before it, and no comment.
pub open spec fn tags_bytes() -> Seq<u8> {
    tags_magic() + le_u32(9) + vendor() + le_u32(0)
}

/// Whether the packet starts with the eight letters given.
fn has_magic(packet: &[u8], m: [u8; 8]) -> (r: bool)
    ensures
        r == starts_with(packet@, m@),
{
    if packet.len() < 8 {
        return false;
    }
    let mut i: usize = 0;
    while i < 8
        invariant
            i <= 8,
            packet@.len() >= 8,
            forall|k: int| 0 <= k < i ==> packet@[k] == m@[k],
        decreases 8 - i,
    {
        if packet[i] != m[i] {
            return false;
        }
        i += 1;
    }
    assert(packet@.subrange(0, 8) =~= m@);
    true
}

/// Whether the packet is an identification header.
pub fn is_head(packet: &[u8]) -> (r: bool)
    ensures
        r == starts_with(packet@, head_magic()),
{
    let m: [u8; 8] = [0x4f, 0x70, 0x75, 0x73, 0x48, 0x65, 0x61, 0x64];
    has_magic(packet, m)
}

/// Whether the packet is a comment header.
pub fn is_tags(packet: &[u8]) -> (r: bool)
    ensures
        r == starts_with(packet@, tags_magic()),
{
    let m: [u8; 8] = [0x4f, 0x70, 0x75, 0x73, 0x54, 0x61, 0x67, 0x73];
    has_magic(packet, m)
}

/// Reads an identification header. A packet that does not start with
/// `OpusHead` is refused; one that does holds all nineteen bytes.
pub fn parse_opus_header(packet: &[u8]) -> (r: Result<OpusHeader, OpusError>)
    requires
        starts_with(packet@, head_magic()) ==> packet@.len() >= HEADER_LEN,
    ensures
        r is Ok <==> starts_with(packet@, head_magic()),
        r matches Ok(header) ==> header == header_of(packet@),
        r matches Err(e) ==> e == OpusError::NotOpusHead,
{
    if !is_head(packet) {
        return Err(OpusError::NotOpusHead);
    }
    Ok(
        OpusHeader {
            version: packet[8],
            channel_count: packet[9],
            pre_skip: read_u16(packet[10], packet[11]),
            input_sample_rate: read_u32(packet[12], packet[13], packet[14], packet[15]),
            output_gain: read_i16(packet[16], packet[17]),
            mapping_family: packet[18],
        },
    )
}

/// `WriteBytesExt::write_u8` on a vector of bytes: appends the byte.
#[verifier::external_body]
fn put_u8(out: &mut Vec<u8>, n: u8)
    ensures
        final(out)@ == old(out)@.push(n),
{
    let _ = out.write_u8(n);
}

/// `WriteBytesExt::write_u16` with `LittleEndian` on a vector of bytes:
/// appends the two bytes, low byte first.
#[verifier::external_body]
fn put_u16(out: &mut Vec<u8>, n: u16)
    ensures
        final(out)@ == old(out)@ + le_u16(n),
{
    let _ = out.write_u16::<LittleEndian>(n);
}

/// `WriteBytesExt::write_u32` with `LittleEndian` on a vector of bytes:
/// appends the four bytes, low byte first.
#[verifier::external_body]
fn put_u32(out: &mut Vec<u8>, n: u32)
    ensures
        final(out)@ == old(out)@ + le_u32(n),
{
    let _ = out.write_u32::<LittleEndian>(n);
}

/// `WriteBytesExt::write_i16` with `LittleEndian` on a vector of bytes:
/// appends the two bytes of the two's complement, low byte first.
#[verifier::external_body]
fn put_i16(out: &mut Vec<u8>, n: i16)
    ensures
        final(out)@ == old(out)@ + le_i16(n),
{
    let _ = out.write_i16::<LittleEndian>(n);
}

/// Appends the letters given.
fn put_letters(out: &mut Vec<u8>, letters: &[u8])
    ensures
        final(out)@ == old(out)@ + letters@,
{
    let mut i: usize = 0;
    while i < letters.len()
        invariant
            i <= letters@.len(),
            out@ == old(out)@ + letters@.take(i as int),
        decreases letters@.len() - i,
    {
        out.push(letters[i]);
        i += 1;
    }
}

/// The identification header of a stream with the given channel count,
/// encoded from input of the given sample rate.
pub fn write_opus_header(channels: u8, sample_rate: u32) -> (out: Vec<u8>)
    ensures
        out@ == header_bytes(channels, sample_rate),
        out@.len() == HEADER_LEN,
{
    let m: [u8; 8] = [0x4f, 0x70, 0x75, 0x73, 0x48, 0x65, 0x61, 0x64];
    let mut out: Vec<u8> = Vec::new();
    put_letters(&mut out, m.as_slice());
    put_u8(&mut out, 1);
    put_u8(&mut out, channels);
    put_u16(&mut out, PRE_SKIP);
    put_u32(&mut out, sample_rate);
    put_i16(&mut out, 0);
    put_u8(&mut out, 0);
    out
}

/// The comment header.
pub fn write_opus_tags() -> (out: Vec<u8>)
    ensures
        out@ == tags_bytes(),
{
    let m: [u8; 8] = [0x4f, 0x70, 0x75, 0x73, 0x54, 0x61, 0x67, 0x73];
    let v: [u8; 9] = [0x73, 0x70, 0x68, 0x6e, 0x2d, 0x70, 0x79, 0x6f, 0x33];
    let mut out: Vec<u8> = Vec::new();
    put_letters(&mut out, m.as_slice());
    put_u32(&mut out, 9);
    put_letters(&mut out, v.as_slice());
    put_u32(&mut out, 0);
    out
}

/// The header that is written reads back as it was meant: version 1, the
/// channel count and the sample rate given, the pre-skip, no gain, mapping
/// family 0.
pub proof fn lemma_header_round_trip(channels: u8, sample_rate: u32)
    ensures
        starts_with(header_bytes(channels, sample_rate), head_magic()),
        header_bytes(channels, sample_rate).len() == HEADER_LEN,
        header_of(header_bytes(channels, sample_rate)) == (OpusHeader {
            version: 1,
            channel_count: channels,
            pre_skip: PRE_SKIP,
            input_sample_rate: sample_rate,
            output_gain: 0,
            mapping_family: 0,
        }),
{
    let b = header_bytes(channels, sample_rate);
    assert(b.subrange(0, 8) =~= head_magic());
}

/// What to do with a packet of the stream.
#[derive(Clone, Copy, Debug, PartialEq, Eq, Structural)]
pub enum PacketAction {
    /// Nothing: it is a comment header.
    Skip,
    /// Make the decoder for the channel count that the header announces.
    Init { header: OpusHeader },
    /// Decode it: it is audio.
    Decode,
}

/// The reader's place in a stream: the channel count, once the
/// identification header is read.
pub struct OggOpusReader {
    channels: Option<u8>,
}

/// What a packet calls for, given the channel count known so far.
pub open spec fn packet_action(channels: Option<u8>, packet: Seq<u8>) -> Result<
    PacketAction,
    OpusError,
> {
    if starts_with(packet, tags_magic()) {
        Ok(PacketAction::Skip)
    } else if starts_with(packet, head_magic()) {
        if channels is Some {
            Err(OpusError::MultipleHeads)
        } else if header_of(packet).channel_count == 1 || header_of(packet).channel_count == 2 {
            Ok(PacketAction::Init { header: header_of(packet) })
        } else {
            Err(OpusError::UnexpectedChannels { count: header_of(packet).channel_count })
        }
    } else if channels is Some {
        Ok(PacketAction::Decode)
    } else {
        Err(OpusError::NoInitialHead)
    }
}

impl OggOpusReader {
    /// The channel count, once the identification header is read.
    pub closed spec fn channels(&self) -> Option<u8> {
        self.channels
    }

    /// A reader at the start of a stream.
    pub fn new() -> (r: Self)
        ensures
            r.channels() is None,
    {
        OggOpusReader { channels: None }
    }

    /// Takes the next packet and says what to do with it. The first
    /// identification header fixes the channel count; a second one, audio
    /// before the first, and a channel count other than one or two are
    /// errors.
    pub fn on_packet(&mut self, packet: &[u8]) -> (r: Result<PacketAction, OpusError>)
        requires
            starts_with(packet@, head_magic()) ==> packet@.len() >= HEADER_LEN,
        ensures
            r == packet_action(old(self).channels(), packet@),
            final(self).channels() == match r {
                Ok(PacketAction::Init { header }) => Some(header.channel_count),
                _ => old(self).channels(),
            },
    {
        if is_tags(packet) {
            return Ok(PacketAction::Skip);
        }
        match parse_opus_header(packet) {
            Ok(header) => {
                if self.channels.is_some() {
                    return Err(OpusError::MultipleHeads);
                }
                if header.channel_count == 1 || header.channel_count == 2 {
                    self.channels = Some(header.channel_count);
                    Ok(PacketAction::Init { header })
                } else {
                    Err(OpusError::UnexpectedChannels { count: header.channel_count })
                }
            },
            Err(_) => {
                if self.channels.is_some() {
                    Ok(PacketAction::Decode)
                } else {
                    Err(OpusError::NoInitialHead)
                }
            },
        }
    }

    /// The channel count at the end of the stream; a stream without an
    /// identification header holds no data.
    pub fn finish(&self) -> (r: Result<u8, OpusError>)
        ensures
            match r {
                Ok(channels) => self.channels() == Some(channels),
                Err(e) => self.channels() is None && e == OpusError::NoData,
            },
    {
        match self.channels {
            Some(channels) => Ok(channels),
            None => Err(OpusError::NoData),
        }
    }
}

/// One frame of a stream that is written.
#[derive(Clone, Copy, Debug, PartialEq, Eq, Structural)]
pub struct Frame {
    /// The place of the frame's first sample in the interleaved samples.
    pub start: usize,
    /// The place after its last sample.
    pub end: usize,
    /// The number of samples of one channel written once the frame is.
    pub granule_position: u64,
    /// Whether the frame ends the stream, and with it its page.
    pub last: bool,
}

/// The number of samples of all channels in one frame.
pub open spec fn frame_len(stereo: bool) -> int {
    if stereo {
        2 * OPUS_ENCODER_FRAME_SIZE as int
    } else {
        OPUS_ENCODER_FRAME_SIZE as int
    }
}

/// The number of whole frames in `len` interleaved samples.
pub open spec fn frame_count(len: nat, stereo: bool) -> int {
    len as int / frame_len(stereo)
}

/// Frame number `index` of the stream.
pub open spec fn frame_at(len: nat, stereo: bool, index: int) -> Frame {
    Frame {
        start: (index * frame_len(stereo)) as usize,
        end: ((index + 1) * frame_len(stereo)) as usize,
        granule_position: ((index + 1) * OPUS_ENCODER_FRAME_SIZE as int) as u64,
        last: index + 1 == frame_count(len, stereo),
    }
}

/// The frames in which `len` interleaved samples are written: whole frames
/// of 960 samples for each channel, one after the other; what is left over
/// at the end is not written.
pub fn frames(len: usize, stereo: bool) -> (r: Vec<Frame>)
    ensures
        r@.len() == frame_count(len as nat, stereo),
        forall|i: int| 0 <= i < r@.len() ==> #[trigger] r@[i] == frame_at(len as nat, stereo, i),
        forall|i: int| 0 <= i < r@.len() ==> (#[trigger] r@[i]).start < r@[i].end <= len,
{
    let size: usize = if stereo {
        2 * OPUS_ENCODER_FRAME_SIZE
    } else {
        OPUS_ENCODER_FRAME_SIZE
    };
    let count = len / size;
    let mut r: Vec<Frame> = Vec::new();
    let mut i: usize = 0;
    while i < count
        invariant
            i <= count,
            size == frame_len(stereo),
            count == frame_count(len as nat, stereo),
            r@.len() == i,
            forall|k: int| 0 <= k < i ==> #[trigger] r@[k] == frame_at(len as nat, stereo, k),
            forall|k: int| 0 <= k < i ==> (#[trigger] r@[k]).start < r@[k].end <= len,
        decreases count - i,
    {
        assert((i + 1) * size <= len && i * size < (i + 1) * size && (i + 1) * 960 <= len)
            by (nonlinear_arith)
            requires
                i < count,
                count == len as int / size as int,
                size == 960 || size == 1920,
        ;
        let frame = Frame {
            start: i * size,
            end: (i + 1) * size,
            granule_position: ((i + 1) * OPUS_ENCODER_FRAME_SIZE) as u64,
            last: i + 1 == count,
        };
        r.push(frame);
        i += 1;
    }
    r
}

} // verus!
