//! FLAC: metadata block headers and the STREAMINFO block.
use vstd::prelude::*;

verus! {

/// The header of a FLAC metadata block.
#[derive(Clone, Copy, Debug, PartialEq, Eq)]
pub struct MetadataBlockHeader {
    pub is_last: bool,
    pub block_type: u8,
    pub length: u32,
}

/// Decodes a metadata block header: the last-block flag (top bit), the
/// block type (7 bits) and the 24-bit big-endian length.
pub fn read_block_header(h: [u8; 4]) -> (r: MetadataBlockHeader)
    ensures
        r.is_last == (h@[0] >= 128),
        r.block_type == h@[0] % 128,
        r.length == h@[1] * 65536 + h@[2] * 256 + h@[3],
{
    MetadataBlockHeader {
        is_last: h[0] >= 128,
        block_type: h[0] % 128,
        length: (h[1] as u32) * 65536 + (h[2] as u32) * 256 + (h[3] as u32),
    }
}

/// The fields of a STREAMINFO block.
#[derive(Clone, Copy, Debug, PartialEq, Eq)]
pub struct StreamInfo {
    pub sample_rate: u32,
    pub total_samples: u64,
    pub channels: u8,
    pub bits_per_sample: u8,
    pub min_frame_size: u32,
    pub max_frame_size: u32,
}

/// The bits per sample as the reader computes them: the low bit of byte 12
/// shifted to 16, or-ed with one more than the top four bits of byte 13.
pub open spec fn spec_bits_per_sample(d12: u8, d13: u8) -> u8 {
    let hi = (d12 % 2) * 16;
    let lo = d13 / 16 + 1;
    if hi == 16 && lo == 16 {
        16
    } else {
        (hi + lo) as u8
    }
}

/// Decodes the 34 bytes of a STREAMINFO block.
pub fn parse_streaminfo(data: &[u8; 34]) -> (r: StreamInfo)
    ensures
        r.sample_rate == data@[10] * 4096 + data@[11] * 16 + data@[12] / 16,
        r.total_samples == (data@[13] % 16) * 4294967296 + data@[14] * 16777216 + data@[15]
            * 65536 + data@[16] * 256 + data@[17],
        r.channels == (data@[12] / 2) % 8 + 1,
        r.bits_per_sample == spec_bits_per_sample(data@[12], data@[13]),
        r.min_frame_size == data@[4] * 65536 + data@[5] * 256 + data@[6],
        r.max_frame_size == data@[7] * 65536 + data@[8] * 256 + data@[9],
{
    // Parse sample rate (20 bits)
    let sample_rate = (data[10] as u32) * 4096 + (data[11] as u32) * 16 + (data[12] / 16) as u32;
    // Parse total samples (36 bits)
    let total_samples = ((data[13] % 16) as u64) * 4294967296 + (data[14] as u64) * 16777216 + (
    data[15] as u64) * 65536 + (data[16] as u64) * 256 + (data[17] as u64);
    let channels = (data[12] / 2) % 8 + 1;
    let hi = (data[12] % 2) * 16;
    let lo = data[13] / 16 + 1;
    let bits_per_sample = if hi == 16 && lo == 16 {
        16
    } else {
        hi + lo
    };
    let min_frame_size = (data[4] as u32) * 65536 + (data[5] as u32) * 256 + (data[6] as u32);
    let max_frame_size = (data[7] as u32) * 65536 + (data[8] as u32) * 256 + (data[9] as u32);
    StreamInfo {
        sample_rate,
        total_samples,
        channels,
        bits_per_sample,
        min_frame_size,
        max_frame_size,
    }
}

/// Why a file cannot be read as FLAC.
#[derive(Clone, Copy, Debug, PartialEq, Eq)]
pub enum FlacError {
    NotFlac,
    NoStreamInfo,
}

/// Whether the first four bytes are the FLAC signature `fLaC`.
pub fn is_flac_signature(signature: [u8; 4]) -> (r: bool)
    ensures
        r == (signature@ == seq![102u8, 76, 97, 67]),
{
    let r = signature[0] == 102 && signature[1] == 76 && signature[2] == 97 && signature[3] == 67;
    assert(r == (signature@ =~= seq![102u8, 76, 97, 67]));
    r
}

/// The walk over the metadata blocks of a FLAC file: where the next block
/// (and, at the end, the audio) starts, and the STREAMINFO seen so far.
pub struct FlacScan {
    pub audio_start_pos: u64,
    pub streaminfo: Option<StreamInfo>,
}

impl FlacScan {
    /// The first block starts after the four signature bytes.
    pub fn new() -> (r: Self)
        ensures
            r.audio_start_pos == 4,
            r.streaminfo is None,
    {
        FlacScan { audio_start_pos: 4, streaminfo: None }
    }

    /// Takes the header of the block at `audio_start_pos` and moves past
    /// the block.
    pub fn on_block_header(&mut self, h: [u8; 4]) -> (r: MetadataBlockHeader)
        requires
            old(self).audio_start_pos + 4 + 16777215 <= u64::MAX,
        ensures
            r == read_block_header_spec(h@),
            final(self).audio_start_pos == old(self).audio_start_pos + 4 + r.length,
            final(self).streaminfo == old(self).streaminfo,
    {
        let header = read_block_header(h);
        self.audio_start_pos = self.audio_start_pos + 4 + header.length as u64;
        header
    }

    /// Takes the 34 bytes of a STREAMINFO block; a later one replaces an
    /// earlier one.
    pub fn on_streaminfo(&mut self, data: &[u8; 34])
        ensures
            final(self).audio_start_pos == old(self).audio_start_pos,
            final(self).streaminfo == Some(parse_streaminfo_spec(data@)),
    {
        self.streaminfo = Some(parse_streaminfo(data));
    }

    /// The parser, once the last block has been read; the audio runs from
    /// `audio_start_pos` to `file_size`.
    pub fn finish(self, file_size: u64) -> (r: Result<FlacParser, FlacError>)
        ensures
            match self.streaminfo {
                Some(info) => r == Ok::<FlacParser, FlacError>(
                    FlacParser {
                        sample_rate: info.sample_rate,
                        total_samples: info.total_samples,
                        _channels: info.channels,
                        bits_per_sample: info.bits_per_sample,
                        min_frame_size: info.min_frame_size,
                        max_frame_size: info.max_frame_size,
                        audio_start_pos: self.audio_start_pos,
                        file_size,
                    },
                ),
                None => r == Err::<FlacParser, FlacError>(FlacError::NoStreamInfo),
            },
    {
        match self.streaminfo {
            Some(info) => Ok(
                FlacParser {
                    sample_rate: info.sample_rate,
                    total_samples: info.total_samples,
                    _channels: info.channels,
                    bits_per_sample: info.bits_per_sample,
                    min_frame_size: info.min_frame_size,
                    max_frame_size: info.max_frame_size,
                    audio_start_pos: self.audio_start_pos,
                    file_size,
                },
            ),
            None => Err(FlacError::NoStreamInfo),
        }
    }
}

/// The header that `read_block_header` decodes.
pub open spec fn read_block_header_spec(h: Seq<u8>) -> MetadataBlockHeader {
    MetadataBlockHeader {
        is_last: h[0] >= 128,
        block_type: h[0] % 128,
        length: (h[1] * 65536 + h[2] * 256 + h[3]) as u32,
    }
}

/// The STREAMINFO that `parse_streaminfo` decodes.
pub open spec fn parse_streaminfo_spec(d: Seq<u8>) -> StreamInfo {
    StreamInfo {
        sample_rate: (d[10] * 4096 + d[11] * 16 + d[12] / 16) as u32,
        total_samples: ((d[13] % 16) * 4294967296 + d[14] * 16777216 + d[15] * 65536 + d[16] * 256
            + d[17]) as u64,
        channels: ((d[12] / 2) % 8 + 1) as u8,
        bits_per_sample: spec_bits_per_sample(d[12], d[13]),
        min_frame_size: (d[4] * 65536 + d[5] * 256 + d[6]) as u32,
        max_frame_size: (d[7] * 65536 + d[8] * 256 + d[9]) as u32,
    }
}

/// The properties of a FLAC file that its STREAMINFO and layout give.
#[derive(Clone, Copy, Debug, PartialEq, Eq)]
pub struct FlacParser {
    pub sample_rate: u32,
    pub total_samples: u64,
    pub _channels: u8,
    pub bits_per_sample: u8,
    pub min_frame_size: u32,
    pub max_frame_size: u32,
    pub audio_start_pos: u64,
    pub file_size: u64,
}

impl FlacParser {
    /// Frames of different sizes mean a variable bitrate.
    pub fn is_vbr(&self) -> (r: bool)
        ensures
            r == (self.min_frame_size != self.max_frame_size),
    {
        self.min_frame_size != self.max_frame_size
    }

    pub fn sample_rate(&self) -> (r: u32)
        ensures
            r == self.sample_rate,
    {
        self.sample_rate
    }

    pub fn bit_depth(&self) -> (r: Option<u16>)
        ensures
            r == Some(self.bits_per_sample as u16),
    {
        Some(self.bits_per_sample as u16)
    }
}

} // verus!
