//! WAV (RIFF) files: the header, the walk over chunks and the `fmt ` chunk.
use vstd::prelude::*;

use super::Bitrate;
use crate::packing::u32_from_le;

verus! {

/// Whether the 12 header bytes start with `RIFF` and carry the form `WAVE`.
pub fn is_riff_wave(h: &[u8; 12]) -> (r: bool)
    ensures
        r == (h@.subrange(0, 4) == seq![82u8, 73, 70, 70] && h@.subrange(8, 12) == seq![
            87u8,
            65,
            86,
            69,
        ]),
{
    let riff = h[0] == 82 && h[1] == 73 && h[2] == 70 && h[3] == 70;
    let wave = h[8] == 87 && h[9] == 65 && h[10] == 86 && h[11] == 69;
    assert(riff == (h@.subrange(0, 4) =~= seq![82u8, 73, 70, 70]));
    assert(wave == (h@.subrange(8, 12) =~= seq![87u8, 65, 86, 69]));
    riff && wave
}

/// What the walk over chunks does with a chunk header.
#[derive(Clone, Copy, Debug, PartialEq, Eq)]
pub enum ChunkStep {
    /// The chunk looked for, with its size; its data follows.
    Found(u32),
    /// Another chunk: skip this many bytes of data.
    Skip(u32),
}

/// Reads an eight-byte chunk header (identifier, then little-endian size)
/// while looking for the chunk `chunk_id`.
pub fn chunk_step(header: &[u8; 8], chunk_id: &[u8; 4]) -> (r: ChunkStep)
    ensures
        r == (if header@.subrange(0, 4) == chunk_id@ {
            ChunkStep::Found(crate::packing::u32_of_le(header@.skip(4)))
        } else {
            ChunkStep::Skip(crate::packing::u32_of_le(header@.skip(4)))
        }),
{
    let size = (header[4] as u32) + (header[5] as u32) * 256 + (header[6] as u32) * 65536 + (
    header[7] as u32) * 16777216;
    let same = header[0] == chunk_id[0] && header[1] == chunk_id[1] && header[2] == chunk_id[2]
        && header[3] == chunk_id[3];
    assert(same == (header@.subrange(0, 4) =~= chunk_id@));
    if same {
        ChunkStep::Found(size)
    } else {
        ChunkStep::Skip(size)
    }
}

/// Why a file cannot be read as WAV.
#[derive(Clone, Copy, Debug, PartialEq, Eq)]
pub enum WavError {
    NotWav,
    NotPcm,
}

impl WavError {
    /// The text of the message the error is reported with.
    pub open spec fn message_text(self) -> Seq<char> {
        match self {
            WavError::NotWav => "Not a valid WAV file"@,
            WavError::NotPcm => "Only PCM format WAV files are supported"@,
        }
    }

    /// The message the error is reported with.
    pub fn message(&self) -> (r: &'static str)
        ensures
            r@ == self.message_text(),
    {
        match self {
            WavError::NotWav => "Not a valid WAV file",
            WavError::NotPcm => "Only PCM format WAV files are supported",
        }
    }
}

/// The fields of a PCM `fmt ` chunk.
#[derive(Clone, Copy, Debug, PartialEq, Eq)]
pub struct WavFormat {
    pub channels: u16,
    pub sample_rate: u32,
    pub byte_rate: u32,
    pub bits_per_sample: u16,
}

/// Decodes a `fmt ` chunk: audio format (must be 1, PCM), channels, sample
/// rate, byte rate and, at byte 14, the bits per sample, all little-endian.
pub fn parse_fmt(fmt_data: &[u8]) -> (r: Result<WavFormat, WavError>)
    requires
        fmt_data@.len() >= 16,
    ensures
        fmt_data@[0] + 256 * fmt_data@[1] != 1 ==> r == Err::<WavFormat, WavError>(
            WavError::NotPcm,
        ),
        fmt_data@[0] + 256 * fmt_data@[1] == 1 ==> r == Ok::<WavFormat, WavError>(
            WavFormat {
                channels: (fmt_data@[2] + 256 * fmt_data@[3]) as u16,
                sample_rate: crate::packing::u32_of_le(fmt_data@.skip(4)),
                byte_rate: crate::packing::u32_of_le(fmt_data@.skip(8)),
                bits_per_sample: (fmt_data@[14] + 256 * fmt_data@[15]) as u16,
            },
        ),
{
    // Check audio format (1 = PCM)
    let audio_format = fmt_data[0] as u16 + (fmt_data[1] as u16) * 256;
    if audio_format != 1 {
        return Err(WavError::NotPcm);
    }
    let channels = fmt_data[2] as u16 + (fmt_data[3] as u16) * 256;
    let sample_rate = (fmt_data[4] as u32) + (fmt_data[5] as u32) * 256 + (fmt_data[6] as u32)
        * 65536 + (fmt_data[7] as u32) * 16777216;
    let byte_rate = (fmt_data[8] as u32) + (fmt_data[9] as u32) * 256 + (fmt_data[10] as u32)
        * 65536 + (fmt_data[11] as u32) * 16777216;
    let bits_per_sample = fmt_data[14] as u16 + (fmt_data[15] as u16) * 256;
    Ok(WavFormat { channels, sample_rate, byte_rate, bits_per_sample })
}

/// The properties of a WAV file that its `fmt ` and `data` chunks give.
#[derive(Clone, Copy, Debug, PartialEq, Eq)]
pub struct WavParser {
    pub sample_rate: u32,
    pub bits_per_sample: u16,
    pub _channels: u16,
    pub byte_rate: u32,
    pub data_size: u32,
}

impl WavParser {
    pub fn from_chunks(format: WavFormat, data_size: u32) -> (r: Self)
        ensures
            r.sample_rate == format.sample_rate,
            r.bits_per_sample == format.bits_per_sample,
            r._channels == format.channels,
            r.byte_rate == format.byte_rate,
            r.data_size == data_size,
    {
        WavParser {
            sample_rate: format.sample_rate,
            bits_per_sample: format.bits_per_sample,
            _channels: format.channels,
            byte_rate: format.byte_rate,
            data_size,
        }
    }

    /// WAV is always constant bitrate: the byte rate in kbps (rounded down,
    /// kept to 16 bits).
    pub fn bitrate(&self) -> (r: Bitrate)
        requires
            self.byte_rate * 8 <= u32::MAX,
        ensures
            r == Bitrate::Constant(((self.byte_rate * 8) / 1000) as u16),
    {
        let kbps = (self.byte_rate * 8) / 1000;
        Bitrate::Constant(kbps as u16)
    }

    pub fn is_vbr(&self) -> (r: bool)
        ensures
            r == false,
    {
        false  // WAV is always constant bitrate

    }

    pub fn sample_rate(&self) -> (r: u32)
        ensures
            r == self.sample_rate,
    {
        self.sample_rate
    }

    pub fn bit_depth(&self) -> (r: Option<u16>)
        ensures
            r == Some(self.bits_per_sample),
    {
        Some(self.bits_per_sample)
    }
}

} // verus!
