//! AIFF and AIFC files: the `FORM` header, the walk over chunks, the `COMM`
//! chunk and the compression types of AIFC.
use vstd::prelude::*;

use super::mp3::be_u32;

verus! {

/// Four bytes as a sequence, for naming chunk identifiers and compression
/// types.
pub open spec fn tag(a: u8, b: u8, c: u8, d: u8) -> Seq<u8> {
    seq![a, b, c, d]
}

fn tag_is(t: &[u8; 4], a: u8, b: u8, c: u8, d: u8) -> (r: bool)
    ensures
        r == (t@ == tag(a, b, c, d)),
{
    let r = t[0] == a && t[1] == b && t[2] == c && t[3] == d;
    assert(r == (t@ =~= tag(a, b, c, d)));
    r
}

/// Why a file cannot be read as AIFF.
#[derive(Clone, Copy, Debug, PartialEq, Eq)]
pub enum AiffError {
    /// The file does not start with `FORM`.
    NotForm,
    /// The form type is neither `AIFF` nor `AIFC`.
    BadFormType,
    /// No `COMM` chunk gave a sample rate and a sample size.
    MissingComm,
}

impl AiffError {
    /// The text of the message the error is reported with.
    pub open spec fn message_text(self) -> Seq<char> {
        match self {
            AiffError::NotForm => "Not a valid AIFF/AIFC file - missing FORM header"@,
            AiffError::BadFormType => "Not a valid AIFF/AIFC file - invalid form type"@,
            AiffError::MissingComm => "Missing required COMM chunk"@,
        }
    }

    /// The message the error is reported with.
    pub fn message(&self) -> (r: &'static str)
        ensures
            r@ == self.message_text(),
    {
        match self {
            AiffError::NotForm => {
                proof {
                    reveal_strlit("Not a valid AIFF/AIFC file - missing FORM header");
                }
                "Not a valid AIFF/AIFC file - missing FORM header"
            },
            AiffError::BadFormType => {
                proof {
                    reveal_strlit("Not a valid AIFF/AIFC file - invalid form type");
                }
                "Not a valid AIFF/AIFC file - invalid form type"
            },
            AiffError::MissingComm => {
                proof {
                    reveal_strlit("Missing required COMM chunk");
                }
                "Missing required COMM chunk"
            },
        }
    }
}

/// `FORM`, then a big-endian size, then the form type: `AIFF` gives
/// `Ok(false)`, `AIFC` (compressed AIFF) gives `Ok(true)`.
pub open spec fn spec_form_type(h: Seq<u8>) -> Result<bool, AiffError> {
    if h.subrange(0, 4) != tag(70, 79, 82, 77) {
        Err(AiffError::NotForm)
    } else if h.subrange(8, 12) == tag(65, 73, 70, 70) {
        Ok(false)
    } else if h.subrange(8, 12) == tag(65, 73, 70, 67) {
        Ok(true)
    } else {
        Err(AiffError::BadFormType)
    }
}

/// Reads the twelve header bytes: whether the file is AIFC.
pub fn form_type(h: &[u8; 12]) -> (r: Result<bool, AiffError>)
    ensures
        r == spec_form_type(h@),
{
    let form = h[0] == 70 && h[1] == 79 && h[2] == 82 && h[3] == 77;
    assert(form == (h@.subrange(0, 4) =~= tag(70, 79, 82, 77)));
    if !form {
        return Err(AiffError::NotForm);
    }
    let aif = h[8] == 65 && h[9] == 73 && h[10] == 70;
    let aiff = aif && h[11] == 70;
    let aifc = aif && h[11] == 67;
    assert(aiff == (h@.subrange(8, 12) =~= tag(65, 73, 70, 70)));
    assert(aifc == (h@.subrange(8, 12) =~= tag(65, 73, 70, 67)));
    if aiff {
        Ok(false)
    } else if aifc {
        Ok(true)
    } else {
        Err(AiffError::BadFormType)
    }
}

/// A chunk header: four identifier bytes and a big-endian size.
#[derive(Clone, Copy, Debug, PartialEq, Eq)]
pub struct ChunkHeader {
    pub id: [u8; 4],
    pub size: u32,
}

pub fn read_chunk_header(h: &[u8; 8]) -> (r: ChunkHeader)
    ensures
        r.id@ == h@.subrange(0, 4),
        r.size == be_u32(h@, 4),
{
    let id = [h[0], h[1], h[2], h[3]];
    assert(id@ =~= h@.subrange(0, 4));
    let size = (h[4] as u32) * 16777216 + (h[5] as u32) * 65536 + (h[6] as u32) * 256 + (
    h[7] as u32);
    ChunkHeader { id, size }
}

/// The bytes that skipping a chunk of `size` bytes passes: chunks are
/// padded to an even length.
pub fn padded_size(size: u32) -> (r: u64)
    ensures
        r == size + size % 2,
{
    size as u64 + (size % 2) as u64
}

/// The fields of a `COMM` chunk that come before the compression type:
/// channels, sample frames, sample size, and the ten bytes of the sample
/// rate (an 80-bit extended float), all big-endian.
#[derive(Clone, Copy, Debug, PartialEq, Eq)]
pub struct CommFields {
    pub channels: u16,
    pub num_sample_frames: u32,
    pub sample_size: u16,
    pub rate: [u8; 10],
}

pub fn parse_comm_fields(d: &[u8; 18]) -> (r: CommFields)
    ensures
        r.channels == d@[0] * 256 + d@[1],
        r.num_sample_frames == be_u32(d@, 2),
        r.sample_size == d@[6] * 256 + d@[7],
        r.rate@ == d@.subrange(8, 18),
{
    let channels = (d[0] as u16) * 256 + d[1] as u16;
    let num_sample_frames = (d[2] as u32) * 16777216 + (d[3] as u32) * 65536 + (d[4] as u32)
        * 256 + (d[5] as u32);
    let sample_size = (d[6] as u16) * 256 + d[7] as u16;
    let rate = [d[8], d[9], d[10], d[11], d[12], d[13], d[14], d[15], d[16], d[17]];
    assert(rate@ =~= d@.subrange(8, 18));
    CommFields { channels, num_sample_frames, sample_size, rate }
}

/// Whether a `COMM` chunk of this size carries a compression type: only in
/// AIFC, and only past the 18 bytes of the plain fields.
pub fn has_compression_type(is_aifc: bool, chunk_size: u32) -> (r: bool)
    ensures
        r == (is_aifc && chunk_size > 18),
{
    is_aifc && chunk_size > 18
}

/// The compression name is a Pascal string (a length byte, then the text);
/// a pad byte follows when the length is even, so that the whole is even.
pub fn name_is_padded(name_len: u8) -> (r: bool)
    ensures
        r == (name_len % 2 == 0),
{
    name_len % 2 == 0
}

/// The compression types that store samples uncompressed: PCM (`NONE`,
/// `twos`, `sowt`) and floating point (`fl32`, `fl64`, `FL32`, `FL64`).
pub open spec fn is_uncompressed_tag(t: Seq<u8>) -> bool {
    ||| t == tag(78, 79, 78, 69)
    ||| t == tag(116, 119, 111, 115)
    ||| t == tag(115, 111, 119, 116)
    ||| t == tag(102, 108, 51, 50)
    ||| t == tag(102, 108, 54, 52)
    ||| t == tag(70, 76, 51, 50)
    ||| t == tag(70, 76, 54, 52)
}

/// Every other compression type, known or not, counts as compressed.
pub fn is_compressed_format(compression_type: &[u8; 4]) -> (r: bool)
    ensures
        r == !is_uncompressed_tag(compression_type@),
{
    let t = compression_type;
    !(tag_is(t, 78, 79, 78, 69) || tag_is(t, 116, 119, 111, 115) || tag_is(t, 115, 111, 119, 116)
        || tag_is(t, 102, 108, 51, 50) || tag_is(t, 102, 108, 54, 52) || tag_is(
        t,
        70,
        76,
        51,
        50,
    ) || tag_is(t, 70, 76, 54, 52))
}

/// How many times smaller the compressed samples are: 1 uncompressed;
/// 4 for IMA ADPCM (`ima4`, `IMA4`); 3 for G.723 (`G723`, `g723`) and
/// MACE 3:1 (`MAC3`); 6 for MACE 6:1 (`MAC6`); 2 for a-law, mu-law, SDX2,
/// G.721, G.722, MS ADPCM and every type not known.
pub open spec fn spec_compression_ratio(t: Seq<u8>) -> u64 {
    if is_uncompressed_tag(t) {
        1
    } else if t == tag(105, 109, 97, 52) || t == tag(73, 77, 65, 52) {
        4
    } else if t == tag(71, 55, 50, 51) || t == tag(103, 55, 50, 51) || t == tag(77, 65, 67, 51) {
        3
    } else if t == tag(77, 65, 67, 54) {
        6
    } else {
        2
    }
}

pub fn get_compression_ratio(compression_type: &[u8; 4]) -> (r: u64)
    ensures
        r == spec_compression_ratio(compression_type@),
{
    let t = compression_type;
    if !is_compressed_format(t) {
        1
    } else if tag_is(t, 105, 109, 97, 52) || tag_is(t, 73, 77, 65, 52) {
        4
    } else if tag_is(t, 71, 55, 50, 51) || tag_is(t, 103, 55, 50, 51) || tag_is(
        t,
        77,
        65,
        67,
        51,
    ) {
        3
    } else if tag_is(t, 77, 65, 67, 54) {
        6
    } else {
        2
    }
}

/// What the walk over chunks does with a chunk header.
#[derive(Clone, Copy, Debug, PartialEq, Eq)]
pub enum AiffStep {
    /// A `COMM` chunk of this size: read its fields.
    ReadComm(u32),
    /// Any other chunk (`SSND` among them): skip this many bytes.
    Skip(u64),
}

/// The walk over the chunks of an AIFF file, with what the last `COMM`
/// chunk said.
#[derive(Clone, Copy, Debug, PartialEq, Eq)]
pub struct AiffScan {
    pub is_aifc: bool,
    pub sample_rate: u32,
    pub bit_depth: Option<u16>,
    pub num_sample_frames: u32,
    pub num_channels: u16,
    pub is_compressed: bool,
    pub is_vbr: bool,
    pub compression_ratio: u64,
}

impl AiffScan {
    /// Starts the walk from the twelve header bytes, nothing read yet.
    pub fn start(h: &[u8; 12]) -> (r: Result<AiffScan, AiffError>)
        ensures
            match spec_form_type(h@) {
                Ok(is_aifc) => r == Ok::<AiffScan, AiffError>(
                    AiffScan {
                        is_aifc,
                        sample_rate: 0,
                        bit_depth: None,
                        num_sample_frames: 0,
                        num_channels: 0,
                        is_compressed: false,
                        is_vbr: false,
                        compression_ratio: 1,
                    },
                ),
                Err(e) => r == Err::<AiffScan, AiffError>(e),
            },
    {
        match form_type(h) {
            Ok(is_aifc) => Ok(
                AiffScan {
                    is_aifc,
                    sample_rate: 0,
                    bit_depth: None,
                    num_sample_frames: 0,
                    num_channels: 0,
                    is_compressed: false,
                    is_vbr: false,
                    compression_ratio: 1,
                },
            ),
            Err(e) => Err(e),
        }
    }

    /// `COMM` chunks are read; all others are skipped with their padding.
    pub fn on_chunk(&self, header: &ChunkHeader) -> (r: AiffStep)
        ensures
            header.id@ == tag(67, 79, 77, 77) ==> r == AiffStep::ReadComm(header.size),
            header.id@ != tag(67, 79, 77, 77) ==> r == AiffStep::Skip(
                (header.size + header.size % 2) as u64,
            ),
    {
        if tag_is(&header.id, 67, 79, 77, 77) {
            AiffStep::ReadComm(header.size)
        } else {
            AiffStep::Skip(padded_size(header.size))
        }
    }

    /// Whether the `COMM` chunk of this size carries a compression type.
    pub fn has_compression_type(&self, chunk_size: u32) -> (r: bool)
        ensures
            r == (self.is_aifc && chunk_size > 18),
    {
        has_compression_type(self.is_aifc, chunk_size)
    }

    /// Takes a `COMM` chunk: its fields, the sample rate that its extended
    /// float converts to, and its compression type where it has one. AIFF
    /// is taken to be constant bitrate.
    pub fn on_comm(&mut self, fields: &CommFields, sample_rate: u32, compression: Option<[u8; 4]>)
        ensures
            final(self).is_aifc == old(self).is_aifc,
            final(self).num_channels == fields.channels,
            final(self).num_sample_frames == fields.num_sample_frames,
            final(self).sample_rate == sample_rate,
            final(self).bit_depth == Some(fields.sample_size),
            match compression {
                Some(t) => {
                    &&& final(self).is_compressed == !is_uncompressed_tag(t@)
                    &&& final(self).is_vbr == false
                    &&& final(self).compression_ratio == spec_compression_ratio(t@)
                },
                None => {
                    &&& final(self).is_compressed == old(self).is_compressed
                    &&& final(self).is_vbr == old(self).is_vbr
                    &&& final(self).compression_ratio == old(self).compression_ratio
                },
            },
    {
        self.num_channels = fields.channels;
        self.num_sample_frames = fields.num_sample_frames;
        self.sample_rate = sample_rate;
        self.bit_depth = Some(fields.sample_size);
        if let Some(t) = compression {
            self.is_compressed = is_compressed_format(&t);
            self.is_vbr = false;
            self.compression_ratio = get_compression_ratio(&t);
        }
    }

    /// Ends the walk: a file whose sample rate is 0, or that had no `COMM`
    /// chunk, is refused.
    pub fn finish(self) -> (r: Result<AiffParser, AiffError>)
        ensures
            (self.sample_rate == 0 || self.bit_depth is None) ==> r == Err::<
                AiffParser,
                AiffError,
            >(AiffError::MissingComm),
            !(self.sample_rate == 0 || self.bit_depth is None) ==> r == Ok::<
                AiffParser,
                AiffError,
            >(
                AiffParser {
                    sample_rate: self.sample_rate,
                    bit_depth: self.bit_depth,
                    num_sample_frames: self.num_sample_frames,
                    _channels: self.num_channels,
                    _is_compressed: self.is_compressed,
                    is_vbr: self.is_vbr,
                    compression_ratio: self.compression_ratio,
                },
            ),
    {
        if self.sample_rate == 0 || self.bit_depth.is_none() {
            return Err(AiffError::MissingComm);
        }
        Ok(
            AiffParser {
                sample_rate: self.sample_rate,
                bit_depth: self.bit_depth,
                num_sample_frames: self.num_sample_frames,
                _channels: self.num_channels,
                _is_compressed: self.is_compressed,
                is_vbr: self.is_vbr,
                compression_ratio: self.compression_ratio,
            },
        )
    }
}

/// The properties of an AIFF file that its `COMM` chunk gives.
#[derive(Clone, Copy, Debug, PartialEq, Eq)]
pub struct AiffParser {
    pub sample_rate: u32,
    pub bit_depth: Option<u16>,
    pub num_sample_frames: u32,
    pub _channels: u16,
    pub _is_compressed: bool,
    pub is_vbr: bool,
    pub compression_ratio: u64,
}

impl AiffParser {
    /// Whether a bitrate can be given: a sample rate, channels and a sample
    /// size, none of them 0. Otherwise the bitrate is a constant 0.
    pub fn has_bitrate(&self) -> (r: bool)
        ensures
            r == (self.sample_rate > 0 && self._channels > 0 && (match self.bit_depth {
                Some(d) => d > 0,
                None => false,
            })),
    {
        match self.bit_depth {
            Some(d) => self.sample_rate > 0 && self._channels > 0 && d > 0,
            None => false,
        }
    }

    /// The bits per second of the uncompressed samples: sample rate times
    /// channels times sample size.
    pub fn uncompressed_bps(&self) -> (r: u64)
        ensures
            r == self.sample_rate * self._channels * (match self.bit_depth {
                Some(d) => d as int,
                None => 0,
            }),
    {
        let d: u64 = match self.bit_depth {
            Some(d) => d as u64,
            None => 0,
        };
        let sr = self.sample_rate as u64;
        let ch = self._channels as u64;
        assert(sr * ch <= 0xffff_ffff * 0xffff) by (nonlinear_arith)
            requires
                sr <= 0xffff_ffff,
                ch <= 0xffff,
        ;
        assert(sr * ch * d <= 0xffff_ffff * 0xffff * 0xffff) by (nonlinear_arith)
            requires
                sr * ch <= 0xffff_ffff * 0xffff,
                d <= 0xffff,
        ;
        sr * ch * d
    }

    pub fn is_vbr(&self) -> (r: bool)
        ensures
            r == self.is_vbr,
    {
        self.is_vbr
    }

    pub fn sample_rate(&self) -> (r: u32)
        ensures
            r == self.sample_rate,
    {
        self.sample_rate
    }

    pub fn bit_depth(&self) -> (r: Option<u16>)
        ensures
            r == self.bit_depth,
    {
        self.bit_depth
    }
}

} // verus!
