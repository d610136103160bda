//! Ogg containers: pages, the identification headers of the codecs they
//! carry (Vorbis, Opus, FLAC, Speex) and the last granule position.
use vstd::prelude::*;

use super::{bytes_at, matches_at};
use crate::packing::{u32_of_le, u64_of_le};

verus! {

/// Why no audio stream was found, or a codec header was refused.
#[derive(Clone, Copy, Debug, PartialEq, Eq)]
pub enum OggError {
    EmptyData,
    FirstBlockNotStreamInfo,
    InvalidStreamInfoLength,
    NotAudioCodec,
    NoAudioStream,
    /// The scan stopped one or two bytes before the end of the file, where
    /// a page capture pattern cannot be compared.
    ShortTail,
}

impl OggError {
    /// The text of the message the error is reported with.
    pub open spec fn message_text(self) -> Seq<char> {
        match self {
            OggError::EmptyData => "Empty data"@,
            OggError::FirstBlockNotStreamInfo => "First FLAC metadata block should be STREAMINFO"@,
            OggError::InvalidStreamInfoLength => "Invalid STREAMINFO block length"@,
            OggError::NotAudioCodec => "Not an audio codec"@,
            OggError::NoAudioStream => "No audio stream found"@,
            OggError::ShortTail => "Truncated Ogg page"@,
        }
    }

    /// The message the error is reported with.
    pub fn message(&self) -> (r: &'static str)
        ensures
            r@ == self.message_text(),
    {
        match self {
            OggError::EmptyData => {
                proof {
                    reveal_strlit("Empty data");
                }
                "Empty data"
            },
            OggError::FirstBlockNotStreamInfo => {
                proof {
                    reveal_strlit("First FLAC metadata block should be STREAMINFO");
                }
                "First FLAC metadata block should be STREAMINFO"
            },
            OggError::InvalidStreamInfoLength => {
                proof {
                    reveal_strlit("Invalid STREAMINFO block length");
                }
                "Invalid STREAMINFO block length"
            },
            OggError::NotAudioCodec => {
                proof {
                    reveal_strlit("Not an audio codec");
                }
                "Not an audio codec"
            },
            OggError::NoAudioStream => {
                proof {
                    reveal_strlit("No audio stream found");
                }
                "No audio stream found"
            },
            OggError::ShortTail => {
                proof {
                    reveal_strlit("Truncated Ogg page");
                }
                "Truncated Ogg page"
            },
        }
    }
}

/// Sample rate, bit depth and whether the bitrate varies.
pub type AudioInfo = (u32, Option<u16>, bool);

/// The capture pattern `OggS` that starts every page.
pub open spec fn capture_pattern() -> Seq<u8> {
    seq![79u8, 103, 103, 83]
}

/// The first page start at or after `i`.
pub open spec fn next_page(buf: Seq<u8>, i: int) -> Option<int>
    decreases buf.len() - i,
{
    if i < 0 || i + 4 > buf.len() {
        None
    } else if bytes_at(buf, i, capture_pattern()) {
        Some(i)
    } else {
        next_page(buf, i + 1)
    }
}

/// A page found from `i` starts at or after `i` and fits the buffer.
pub proof fn lemma_next_page_after(buf: Seq<u8>, i: int)
    ensures
        next_page(buf, i) matches Some(p) ==> i <= p && p + 4 <= buf.len(),
    decreases buf.len() - i,
{
    if 0 <= i && i + 4 <= buf.len() && !bytes_at(buf, i, capture_pattern()) {
        lemma_next_page_after(buf, i + 1);
    }
}

fn find_page_from(buffer: &[u8], start: usize) -> (r: Option<usize>)
    ensures
        r == (match next_page(buffer@, start as int) {
            Some(p) => Some(p as usize),
            None => None,
        }),
{
    let n = buffer.len();
    let pattern: [u8; 4] = [79, 103, 103, 83];
    assert(pattern@ =~= capture_pattern());
    let mut i = start;
    while i < n && n - i >= 4
        invariant
            n == buffer@.len(),
            pattern@ == capture_pattern(),
            start <= i,
            next_page(buffer@, start as int) == next_page(buffer@, i as int),
        decreases n - i,
    {
        if matches_at(buffer, i, &pattern) {
            return Some(i);
        }
        i = i + 1;
    }
    None
}

/// Finds the first page start (the capture pattern `OggS`) in `buffer`.
pub fn find_next_page(buffer: &[u8]) -> (r: Option<usize>)
    requires
        buffer@.len() >= 3,
    ensures
        r == (match next_page(buffer@, 0) {
            Some(p) => Some(p as usize),
            None => None,
        }),
{
    find_page_from(buffer, 0)
}

/// The sum of bytes.
pub open spec fn byte_sum(s: Seq<u8>) -> nat
    decreases s.len(),
{
    if s.len() == 0 {
        0
    } else {
        byte_sum(s.drop_last()) + s.last() as nat
    }
}

proof fn lemma_byte_sum_bound(s: Seq<u8>)
    ensures
        byte_sum(s) <= 255 * s.len(),
    decreases s.len(),
{
    if s.len() > 0 {
        lemma_byte_sum_bound(s.drop_last());
    }
}

fn sum_bytes(buf: &[u8], start: usize, end: usize) -> (r: usize)
    requires
        start <= end <= buf@.len(),
        end - start <= 255,
    ensures
        r == byte_sum(buf@.subrange(start as int, end as int)),
{
    let mut total: usize = 0;
    let mut i = start;
    while i < end
        invariant
            start <= i <= end,
            end <= buf@.len(),
            end - start <= 255,
            total == byte_sum(buf@.subrange(start as int, i as int)),
            total <= 255 * (i - start),
        decreases end - i,
    {
        proof {
            assert(buf@.subrange(start as int, i + 1).drop_last() =~= buf@.subrange(
                start as int,
                i as int,
            ));
        }
        total = total + buf[i] as usize;
        i = i + 1;
    }
    total
}

// ---------------------------------------------------------------------------
// Codec identification headers
// ---------------------------------------------------------------------------

pub open spec fn vorbis_magic() -> Seq<u8> {
    seq![118u8, 111, 114, 98, 105, 115]
}

pub open spec fn opus_magic() -> Seq<u8> {
    seq![79u8, 112, 117, 115, 72, 101, 97, 100]
}

pub open spec fn flac_magic() -> Seq<u8> {
    seq![70u8, 76, 65, 67]
}

pub open spec fn speex_magic() -> Seq<u8> {
    seq![83u8, 112, 101, 101, 120, 32, 32, 32]
}

/// What the first packet of a stream says of its audio. Vorbis gives the
/// sample rate, 16 bits and a variable bitrate when the minimum and maximum
/// differ or no nominal rate is given; Opus the input sample rate; FLAC the
/// sample rate and bit depth of its STREAMINFO; Speex the sample rate.
pub open spec fn spec_parse_audio_codec(d: Seq<u8>) -> Result<AudioInfo, OggError> {
    if d.len() == 0 {
        Err(OggError::EmptyData)
    } else if d.len() >= 7 && bytes_at(d, 1, vorbis_magic()) {
        if d.len() >= 30 {
            let nominal = u32_of_le(d.skip(16));
            let max = u32_of_le(d.skip(20));
            let min = u32_of_le(d.skip(24));
            Ok((u32_of_le(d.skip(12)), Some(16u16), min != max || nominal == 0))
        } else {
            Err(OggError::NotAudioCodec)
        }
    } else if d.len() >= 8 && bytes_at(d, 0, opus_magic()) {
        if d.len() >= 19 {
            Ok((u32_of_le(d.skip(12)), None, true))
        } else {
            Err(OggError::NotAudioCodec)
        }
    } else if d.len() >= 5 && d[0] == 127 && bytes_at(d, 1, flac_magic()) {
        if d.len() >= 47 {
            if d[13] % 128 != 0 {
                Err(OggError::FirstBlockNotStreamInfo)
            } else if d[14] * 65536 + d[15] * 256 + d[16] != 34 || d.len() < 51 {
                Err(OggError::InvalidStreamInfoLength)
            } else {
                let sample_rate = ((d[27] * 65536 + d[28] * 256 + d[29]) / 16) as u32;
                let bits = ((d[29] % 2) * 16 + d[30] / 16 + 1) as u16;
                Ok((sample_rate, Some(bits), true))
            }
        } else {
            Err(OggError::NotAudioCodec)
        }
    } else if d.len() >= 8 && bytes_at(d, 0, speex_magic()) {
        if d.len() >= 68 {
            Ok((u32_of_le(d.skip(36)), None, true))
        } else {
            Err(OggError::NotAudioCodec)
        }
    } else {
        Err(OggError::NotAudioCodec)
    }
}

fn le32_at(buf: &[u8], at: usize) -> (r: u32)
    requires
        at + 4 <= buf@.len(),
    ensures
        r == u32_of_le(buf@.skip(at as int)),
{
    (buf[at] as u32) + (buf[at + 1] as u32) * 256 + (buf[at + 2] as u32) * 65536 + (buf[at
        + 3] as u32) * 16777216
}

fn matches_within(buf: &[u8], s: usize, len: usize, at: usize, lit: &[u8]) -> (r: bool)
    requires
        s + len <= buf@.len(),
        at <= len,
    ensures
        r == bytes_at(buf@.subrange(s as int, s + len), at as int, lit@),
{
    let d = Ghost(buf@.subrange(s as int, s + len));
    let bl = buf.len();
    if lit.len() > len - at {
        return false;
    }
    let r = matches_at(buf, s + at, lit);
    assert(d@.subrange(at as int, at + lit@.len()) =~= buf@.subrange(
        s + at,
        s + at + lit@.len(),
    ));
    r
}

/// Reads the codec header held by `buf[s..s + len]`.
fn parse_codec_in(buf: &[u8], s: usize, len: usize) -> (r: Result<AudioInfo, OggError>)
    requires
        s + len <= buf@.len(),
    ensures
        r == spec_parse_audio_codec(buf@.subrange(s as int, s + len)),
{
    let ghost d = buf@.subrange(s as int, s + len);
    let bl = buf.len();
    if len == 0 {
        return Err(OggError::EmptyData);
    }
    let vorbis: [u8; 6] = [118, 111, 114, 98, 105, 115];
    let opus: [u8; 8] = [79, 112, 117, 115, 72, 101, 97, 100];
    let flac: [u8; 4] = [70, 76, 65, 67];
    let speex: [u8; 8] = [83, 112, 101, 101, 120, 32, 32, 32];
    assert(vorbis@ =~= vorbis_magic());
    assert(opus@ =~= opus_magic());
    assert(flac@ =~= flac_magic());
    assert(speex@ =~= speex_magic());
    // Check for Vorbis
    if len >= 7 && matches_within(buf, s, len, 1, &vorbis) {
        if len >= 30 {
            assert(d.skip(12).take(4) =~= buf@.skip(s + 12).take(4));
            assert(d.skip(16).take(4) =~= buf@.skip(s + 16).take(4));
            assert(d.skip(20).take(4) =~= buf@.skip(s + 20).take(4));
            assert(d.skip(24).take(4) =~= buf@.skip(s + 24).take(4));
            let sample_rate = le32_at(buf, s + 12);
            let nominal_bitrate = le32_at(buf, s + 16);
            let max_bitrate = le32_at(buf, s + 20);
            let min_bitrate = le32_at(buf, s + 24);
            let is_vbr = min_bitrate != max_bitrate || nominal_bitrate == 0;
            return Ok((sample_rate, Some(16), is_vbr));
        }
    }
    // Check for Opus
     else if len >= 8 && matches_within(buf, s, len, 0, &opus) {
        if len >= 19 {
            assert(d.skip(12).take(4) =~= buf@.skip(s + 12).take(4));
            let input_sample_rate = le32_at(buf, s + 12);
            return Ok((input_sample_rate, None, true));
        }
    }
    // Check for FLAC in Ogg container (starts with 0x7F + "FLAC")
     else if len >= 5 && buf[s] == 127 && matches_within(buf, s, len, 1, &flac) {
        if len >= 47 {
            // The FLAC metadata block starts after 13 bytes (0x7F + "FLAC" + 8 bytes)
            let block_type = buf[s + 13] % 128;
            if block_type != 0 {
                return Err(OggError::FirstBlockNotStreamInfo);
            }
            let block_length = (buf[s + 14] as u32) * 65536 + (buf[s + 15] as u32) * 256 + (buf[s
                + 16] as u32);
            if block_length != 34 || len < 51 {
                return Err(OggError::InvalidStreamInfoLength);
            }
            // STREAMINFO starts at byte 17: sample rate in bytes 10-12, bit depth in 12-13
            let sample_rate = ((buf[s + 27] as u32) * 65536 + (buf[s + 28] as u32) * 256 + (buf[s
                + 29] as u32)) / 16;
            let bits_per_sample = ((buf[s + 29] % 2) as u16) * 16 + (buf[s + 30] / 16) as u16 + 1;
            // FLAC is vbr
            return Ok((sample_rate, Some(bits_per_sample), true));
        }
    }
    // Check for Speex
     else if len >= 8 && matches_within(buf, s, len, 0, &speex) {
        if len >= 68 {
            assert(d.skip(36).take(4) =~= buf@.skip(s + 36).take(4));
            let sample_rate = le32_at(buf, s + 36);
            return Ok((sample_rate, None, true));
        }
    }
    Err(OggError::NotAudioCodec)
}

/// Reads the identification header of an audio codec from the first
/// packet of a stream.
pub fn parse_audio_codec(data: &[u8]) -> (r: Result<AudioInfo, OggError>)
    ensures
        r == spec_parse_audio_codec(data@),
{
    let r = parse_codec_in(data, 0, data.len());
    assert(data@.subrange(0, data@.len() as int) =~= data@);
    r
}

// ---------------------------------------------------------------------------
// Scanning pages
// ---------------------------------------------------------------------------

/// The scan over pages from `pos` for the first one whose data is a codec
/// header: pages that run past the end stop it, and pages with other data
/// are passed over. Stopping one or two bytes before the end is `ShortTail`.
pub open spec fn audio_scan(buf: Seq<u8>, pos: int) -> Result<AudioInfo, OggError>
    decreases buf.len() - pos,
{
    if pos < 0 || pos >= buf.len() {
        Err(OggError::NoAudioStream)
    } else if buf.len() - pos < 3 {
        Err(OggError::ShortTail)
    } else {
        match next_page(buf, pos) {
            None => Err(OggError::NoAudioStream),
            Some(p) => {
                proof {
                    lemma_next_page_after(buf, pos);
                }
                if p + 27 > buf.len() {
                    Err(OggError::NoAudioStream)
                } else {
                    let data_start = p + 27 + buf[p + 26];
                    if data_start >= buf.len() {
                        Err(OggError::NoAudioStream)
                    } else {
                        let data_size = byte_sum(buf.subrange(p + 27, data_start));
                        if data_start + data_size > buf.len() {
                            Err(OggError::NoAudioStream)
                        } else {
                            match spec_parse_audio_codec(
                                buf.subrange(data_start, data_start + data_size),
                            ) {
                                Ok(info) => Ok(info),
                                Err(_) => audio_scan(buf, data_start + data_size),
                            }
                        }
                    }
                }
            },
        }
    }
}

/// Scans the pages of a whole Ogg file for the first audio stream.
pub fn find_audio_stream(buffer: &[u8]) -> (r: Result<AudioInfo, OggError>)
    ensures
        r == audio_scan(buffer@, 0),
{
    let n = buffer.len();
    let mut pos: usize = 0;
    while pos < n
        invariant
            n == buffer@.len(),
            audio_scan(buffer@, 0) == audio_scan(buffer@, pos as int),
        decreases n - pos,
    {
        if n - pos < 3 {
            return Err(OggError::ShortTail);
        }
        proof {
            lemma_next_page_after(buffer@, pos as int);
        }
        match find_page_from(buffer, pos) {
            None => return Err(OggError::NoAudioStream),
            Some(p) => {
                if p > n || n - p < 27 {
                    return Err(OggError::NoAudioStream);
                }
                let page_segments = buffer[p + 26] as usize;
                if page_segments >= n - (p + 27) {
                    return Err(OggError::NoAudioStream);
                }
                let data_start = p + 27 + page_segments;
                let data_size = sum_bytes(buffer, p + 27, data_start);
                if data_size > n - data_start {
                    return Err(OggError::NoAudioStream);
                }
                match parse_codec_in(buffer, data_start, data_size) {
                    Ok(audio_info) => return Ok(audio_info),
                    Err(_) => (),
                }
                // Move to next page
                pos = data_start + data_size;
            },
        }
    }
    Err(OggError::NoAudioStream)
}

/// The scan over pages from `pos` for the last granule position that is
/// neither 0 nor all ones, starting from `last`.
pub open spec fn granule_scan(buf: Seq<u8>, pos: int, last: u64) -> Result<u64, OggError>
    decreases buf.len() - pos,
{
    if pos < 0 || pos >= buf.len() {
        Ok(last)
    } else if buf.len() - pos < 3 {
        Err(OggError::ShortTail)
    } else {
        match next_page(buf, pos) {
            None => Ok(last),
            Some(p) => {
                proof {
                    lemma_next_page_after(buf, pos);
                }
                if p + 26 >= buf.len() {
                    Ok(last)
                } else {
                    let granule = u64_of_le(buf.skip(p + 6));
                    let last2 = if granule != u64::MAX && granule > 0 {
                        granule
                    } else {
                        last
                    };
                    if p + 27 >= buf.len() {
                        Ok(last2)
                    } else {
                        let segments = buf[p + 26] as int;
                        let next = p + 27 + segments;
                        if next >= buf.len() {
                            Ok(last2)
                        } else {
                            let after = next + byte_sum(buf.subrange(next - segments, next));
                            if after >= buf.len() {
                                Ok(last2)
                            } else {
                                granule_scan(buf, after, last2)
                            }
                        }
                    }
                }
            },
        }
    }
}

fn le64_at(buf: &[u8], at: usize) -> (r: u64)
    requires
        at + 8 <= buf@.len(),
    ensures
        r == u64_of_le(buf@.skip(at as int)),
{
    let bl = buf.len();
    let lo = le32_at(buf, at);
    let hi = le32_at(buf, at + 4);
    assert(buf@.skip(at as int).skip(4) =~= buf@.skip(at + 4));
    assert(buf@.skip(at as int).take(4) =~= buf@.skip(at as int).take(4));
    lo as u64 + (hi as u64) * 4294967296
}

/// The last granule position of a whole Ogg file (0 when there is none):
/// the number of samples the file holds.
pub fn last_granule(buffer: &[u8]) -> (r: Result<u64, OggError>)
    ensures
        r == granule_scan(buffer@, 0, 0),
{
    let n = buffer.len();
    let mut last: u64 = 0;
    let mut pos: usize = 0;
    while pos < n
        invariant
            n == buffer@.len(),
            granule_scan(buffer@, 0, 0) == granule_scan(buffer@, pos as int, last),
        decreases n - pos,
    {
        if n - pos < 3 {
            return Err(OggError::ShortTail);
        }
        proof {
            lemma_next_page_after(buffer@, pos as int);
        }
        match find_page_from(buffer, pos) {
            None => return Ok(last),
            Some(p) => {
                if n - p <= 26 {
                    return Ok(last);
                }
                let granule = le64_at(buffer, p + 6);
                if granule != u64::MAX && granule > 0 {
                    last = granule;
                }
                // Skip to next page
                if n - p <= 27 {
                    return Ok(last);
                }
                let page_segments = buffer[p + 26] as usize;
                if page_segments >= n - (p + 27) {
                    return Ok(last);
                }
                let next = p + 27 + page_segments;
                let data_size = sum_bytes(buffer, next - page_segments, next);
                if data_size >= n - next {
                    return Ok(last);
                }
                pos = next + data_size;
            },
        }
    }
    Ok(last)
}

} // verus!
