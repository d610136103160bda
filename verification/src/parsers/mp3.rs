//! MPEG audio (MP1/MP2/MP3): frame headers, ID3v2 tag sizes, Xing/Info
//! headers and the sampling of frame sizes that tells variable bitrate.
use vstd::prelude::*;

verus! {

#[derive(Clone, Copy, Debug, PartialEq, Eq)]
pub enum MpegVersion {
    V2_5,
    V2,
    V1,
}

#[derive(Clone, Copy, Debug, PartialEq, Eq)]
pub enum MpegLayer {
    Layer1,
    Layer2,
    Layer3,
}

impl MpegLayer {
    /// Samples in one frame: 384 for layer I, 1152 for layers II and III.
    pub open spec fn spec_samples_per_frame(self) -> u32 {
        match self {
            MpegLayer::Layer1 => 384,
            _ => 1152,
        }
    }

    pub fn samples_per_frame(&self) -> (r: u32)
        ensures
            r == self.spec_samples_per_frame(),
    {
        match self {
            MpegLayer::Layer1 => 384,
            _ => 1152,
        }
    }
}

/// Why four bytes are not an MPEG audio frame header.
#[derive(Clone, Copy, Debug, PartialEq, Eq)]
pub enum FrameHeaderError {
    InvalidFrameSync,
    InvalidMpegVersion,
    InvalidMpegLayer,
    InvalidBitrateIndex,
    InvalidSampleRate,
}

impl FrameHeaderError {
    /// The text of the message the error is reported with.
    pub open spec fn message_text(self) -> Seq<char> {
        match self {
            FrameHeaderError::InvalidFrameSync => "Invalid Frame Sync"@,
            FrameHeaderError::InvalidMpegVersion => "Invalid MPEG Version"@,
            FrameHeaderError::InvalidMpegLayer => "Invalid MPEG Layer"@,
            FrameHeaderError::InvalidBitrateIndex => "Invalid Bitrate Index"@,
            FrameHeaderError::InvalidSampleRate => "Invalid Sample Rate"@,
        }
    }

    /// The message the error is reported with.
    pub fn message(&self) -> (r: &'static str)
        ensures
            r@ == self.message_text(),
    {
        match self {
            FrameHeaderError::InvalidFrameSync => {
                proof {
                    reveal_strlit("Invalid Frame Sync");
                }
                "Invalid Frame Sync"
            },
            FrameHeaderError::InvalidMpegVersion => {
                proof {
                    reveal_strlit("Invalid MPEG Version");
                }
                "Invalid MPEG Version"
            },
            FrameHeaderError::InvalidMpegLayer => {
                proof {
                    reveal_strlit("Invalid MPEG Layer");
                }
                "Invalid MPEG Layer"
            },
            FrameHeaderError::InvalidBitrateIndex => {
                proof {
                    reveal_strlit("Invalid Bitrate Index");
                }
                "Invalid Bitrate Index"
            },
            FrameHeaderError::InvalidSampleRate => {
                proof {
                    reveal_strlit("Invalid Sample Rate");
                }
                "Invalid Sample Rate"
            },
        }
    }
}

#[derive(Clone, Copy, Debug, PartialEq, Eq)]
pub struct FrameHeader {
    pub _version: MpegVersion,
    pub layer: MpegLayer,
    /// Store as kbps, 0 means free bitrate
    pub bitrate: u16,
    pub sample_rate: u32,
    pub padding_bit: bool,
}

/// The bitrate in kbps of a bitrate index (1 to 14) for a version and layer.
pub open spec fn bitrate_kbps(version: MpegVersion, layer: MpegLayer, idx: int) -> u16 {
    match (version, layer) {
        (MpegVersion::V1, MpegLayer::Layer1) => (32 * idx) as u16,
        (MpegVersion::V1, MpegLayer::Layer2) => seq![
            0u16, 32, 48, 56, 64, 80, 96, 112, 128, 160, 192, 224, 256, 320, 384,
        ][idx],
        (MpegVersion::V1, MpegLayer::Layer3) => seq![
            0u16, 32, 40, 48, 56, 64, 80, 96, 112, 128, 160, 192, 224, 256, 320,
        ][idx],
        (_, MpegLayer::Layer1) => seq![
            0u16, 32, 48, 56, 64, 80, 96, 112, 128, 144, 160, 176, 192, 224, 256,
        ][idx],
        (_, _) => seq![0u16, 8, 16, 24, 32, 40, 48, 56, 64, 80, 96, 112, 128, 144, 160][idx],
    }
}

/// In every bitrate table a higher index gives a higher bitrate; and for
/// MPEG-1 layer III the indices run from 32 kbps (index 1) to 320 kbps
/// (index 14), 256 kbps being index 13.
pub proof fn lemma_bitrates_increase(version: MpegVersion, layer: MpegLayer, i: int, j: int)
    requires
        1 <= i < j <= 14,
    ensures
        bitrate_kbps(version, layer, i) < bitrate_kbps(version, layer, j),
        bitrate_kbps(MpegVersion::V1, MpegLayer::Layer3, 1) == 32,
        bitrate_kbps(MpegVersion::V1, MpegLayer::Layer3, 13) == 256,
        bitrate_kbps(MpegVersion::V1, MpegLayer::Layer3, 14) == 320,
{
    assert forall|k: int| 1 <= k < 14 implies #[trigger] bitrate_kbps(version, layer, k) < bitrate_kbps(
        version,
        layer,
        k + 1,
    ) by {
        if k == 1 {
        } else if k == 2 {
        } else if k == 3 {
        } else if k == 4 {
        } else if k == 5 {
        } else if k == 6 {
        } else if k == 7 {
        } else if k == 8 {
        } else if k == 9 {
        } else if k == 10 {
        } else if k == 11 {
        } else if k == 12 {
        } else {
        }
    }
    lemma_increasing_chain(version, layer, i, j);
}

proof fn lemma_increasing_chain(version: MpegVersion, layer: MpegLayer, i: int, j: int)
    requires
        1 <= i < j <= 14,
        forall|k: int| 1 <= k < 14 ==> #[trigger] bitrate_kbps(version, layer, k) < bitrate_kbps(
            version,
            layer,
            k + 1,
        ),
    ensures
        bitrate_kbps(version, layer, i) < bitrate_kbps(version, layer, j),
    decreases j - i,
{
    assert(bitrate_kbps(version, layer, j - 1) < bitrate_kbps(version, layer, j));
    if i < j - 1 {
        lemma_increasing_chain(version, layer, i, j - 1);
    }
}

/// The sample rate in Hz of a sample-rate index (0 to 2) for a version.
pub open spec fn sample_rate_hz(version: MpegVersion, idx: int) -> u32 {
    match version {
        MpegVersion::V1 => seq![44100u32, 48000, 32000][idx],
        MpegVersion::V2 => seq![22050u32, 24000, 16000][idx],
        MpegVersion::V2_5 => seq![11025u32, 12000, 8000][idx],
    }
}

/// The frame header that four bytes describe: 11 sync bits, then version,
/// layer, bitrate index, sample-rate index and padding bit.
pub open spec fn spec_frame_header(b: Seq<u8>) -> Result<FrameHeader, FrameHeaderError> {
    let version_bits = (b[1] / 8) % 4;
    let layer_bits = (b[1] / 2) % 4;
    let bitrate_index = b[2] / 16;
    let rate_bits = (b[2] / 4) % 4;
    if b[0] * 8 + b[1] / 32 != 2047 {
        Err(FrameHeaderError::InvalidFrameSync)
    } else if version_bits == 1 {
        Err(FrameHeaderError::InvalidMpegVersion)
    } else if layer_bits == 0 {
        Err(FrameHeaderError::InvalidMpegLayer)
    } else if bitrate_index == 15 {
        Err(FrameHeaderError::InvalidBitrateIndex)
    } else if rate_bits == 3 {
        Err(FrameHeaderError::InvalidSampleRate)
    } else {
        let version = if version_bits == 0 {
            MpegVersion::V2_5
        } else if version_bits == 2 {
            MpegVersion::V2
        } else {
            MpegVersion::V1
        };
        let layer = if layer_bits == 1 {
            MpegLayer::Layer3
        } else if layer_bits == 2 {
            MpegLayer::Layer2
        } else {
            MpegLayer::Layer1
        };
        Ok(
            FrameHeader {
                _version: version,
                layer,
                bitrate: if bitrate_index == 0 {
                    0
                } else {
                    bitrate_kbps(version, layer, bitrate_index as int)
                },
                sample_rate: sample_rate_hz(version, rate_bits as int),
                padding_bit: (b[2] / 2) % 2 == 1,
            },
        )
    }
}

fn table_bitrate(version: MpegVersion, layer: MpegLayer, idx: u8) -> (r: u16)
    requires
        1 <= idx < 15,
    ensures
        r == bitrate_kbps(version, layer, idx as int),
        r <= 448,
{
    let i = idx as usize;
    match (version, layer) {
        (MpegVersion::V1, MpegLayer::Layer1) => 32 * idx as u16,
        (MpegVersion::V1, MpegLayer::Layer2) => {
            let t: [u16; 15] = [0, 32, 48, 56, 64, 80, 96, 112, 128, 160, 192, 224, 256, 320, 384];
            assert(t@ =~= seq![0u16, 32, 48, 56, 64, 80, 96, 112, 128, 160, 192, 224, 256, 320, 384]);
            t[i]
        },
        (MpegVersion::V1, MpegLayer::Layer3) => {
            let t: [u16; 15] = [0, 32, 40, 48, 56, 64, 80, 96, 112, 128, 160, 192, 224, 256, 320];
            assert(t@ =~= seq![0u16, 32, 40, 48, 56, 64, 80, 96, 112, 128, 160, 192, 224, 256, 320]);
            t[i]
        },
        (_, MpegLayer::Layer1) => {
            let t: [u16; 15] = [0, 32, 48, 56, 64, 80, 96, 112, 128, 144, 160, 176, 192, 224, 256];
            assert(t@ =~= seq![0u16, 32, 48, 56, 64, 80, 96, 112, 128, 144, 160, 176, 192, 224, 256]);
            t[i]
        },
        (_, _) => {
            let t: [u16; 15] = [0, 8, 16, 24, 32, 40, 48, 56, 64, 80, 96, 112, 128, 144, 160];
            assert(t@ =~= seq![0u16, 8, 16, 24, 32, 40, 48, 56, 64, 80, 96, 112, 128, 144, 160]);
            t[i]
        },
    }
}

fn table_sample_rate(version: MpegVersion, idx: u8) -> (r: u32)
    requires
        idx < 3,
    ensures
        r == sample_rate_hz(version, idx as int),
        8000 <= r <= 48000,
{
    let i = idx as usize;
    match version {
        MpegVersion::V1 => {
            let t: [u32; 3] = [44100, 48000, 32000];
            assert(t@ =~= seq![44100u32, 48000, 32000]);
            t[i]
        },
        MpegVersion::V2 => {
            let t: [u32; 3] = [22050, 24000, 16000];
            assert(t@ =~= seq![22050u32, 24000, 16000]);
            t[i]
        },
        MpegVersion::V2_5 => {
            let t: [u32; 3] = [11025, 12000, 8000];
            assert(t@ =~= seq![11025u32, 12000, 8000]);
            t[i]
        },
    }
}

/// Decodes an MPEG audio frame header.
pub fn read_frame_header(buffer: [u8; 4]) -> (r: Result<FrameHeader, FrameHeaderError>)
    ensures
        r == spec_frame_header(buffer@),
        r matches Ok(h) ==> h.bitrate <= 448 && 8000 <= h.sample_rate <= 48000,
{
    // Check frame sync (11 bits of 1)
    let frame_sync = (buffer[0] as u16) * 8 + (buffer[1] as u16) / 32;
    if frame_sync != 2047 {
        return Err(FrameHeaderError::InvalidFrameSync);
    }
    let version_bits = (buffer[1] / 8) % 4;
    if version_bits == 1 {
        return Err(FrameHeaderError::InvalidMpegVersion);
    }
    let layer_bits = (buffer[1] / 2) % 4;
    if layer_bits == 0 {
        return Err(FrameHeaderError::InvalidMpegLayer);
    }
    let bitrate_index = buffer[2] / 16;
    if bitrate_index == 15 {
        return Err(FrameHeaderError::InvalidBitrateIndex);
    }
    let rate_bits = (buffer[2] / 4) % 4;
    if rate_bits == 3 {
        return Err(FrameHeaderError::InvalidSampleRate);
    }
    let version = if version_bits == 0 {
        MpegVersion::V2_5
    } else if version_bits == 2 {
        MpegVersion::V2
    } else {
        MpegVersion::V1
    };
    let layer = if layer_bits == 1 {
        MpegLayer::Layer3
    } else if layer_bits == 2 {
        MpegLayer::Layer2
    } else {
        MpegLayer::Layer1
    };
    let bitrate = if bitrate_index == 0 {
        0  // Free bitrate

    } else {
        table_bitrate(version, layer, bitrate_index)
    };
    let sample_rate = table_sample_rate(version, rate_bits);
    let padding_bit = (buffer[2] / 2) % 2 == 1;
    Ok(FrameHeader { _version: version, layer, bitrate, sample_rate, padding_bit })
}

impl FrameHeader {
    /// The bytes of every `bitrate / sample_rate` in a frame beside layer I:
    /// 72 for layer III of MPEG-2 and 2.5, whose frames hold half the
    /// samples; 144 otherwise.
    pub open spec fn spec_slot_factor(self) -> u32 {
        match (self._version, self.layer) {
            (MpegVersion::V1, _) => 144,
            (_, MpegLayer::Layer3) => 72,
            _ => 144,
        }
    }

    /// The samples in one frame: 384 for layer I, 1152 for layer II and for
    /// layer III of MPEG-1, 576 for layer III of MPEG-2 and 2.5.
    pub open spec fn spec_frame_samples(self) -> u32 {
        match self.layer {
            MpegLayer::Layer1 => 384,
            MpegLayer::Layer2 => 1152,
            MpegLayer::Layer3 => if self._version == MpegVersion::V1 {
                1152
            } else {
                576
            },
        }
    }

    /// The samples in one frame (see `spec_frame_samples`).
    pub fn samples_per_frame(&self) -> (r: u32)
        ensures
            r == self.spec_frame_samples(),
    {
        match self.layer {
            MpegLayer::Layer1 => 384,
            MpegLayer::Layer2 => 1152,
            MpegLayer::Layer3 => match self._version {
                MpegVersion::V1 => 1152,
                _ => 576,
            },
        }
    }

    /// The frame length in bytes: layer I frames are
    /// `(12 * bitrate / sample_rate + padding) * 4`, others
    /// `factor * bitrate / sample_rate + padding`, the factor being 144, or
    /// 72 for layer III of MPEG-2 and 2.5 (bitrate in bits per second,
    /// divisions rounding down). Free bitrate (0) has no fixed length.
    pub open spec fn spec_frame_length(self) -> Option<u32> {
        if self.bitrate == 0 {
            None
        } else {
            let bps = self.bitrate * 1000;
            let pad: int = if self.padding_bit {
                1
            } else {
                0
            };
            match self.layer {
                MpegLayer::Layer1 => Some(((12 * bps / (self.sample_rate as int) + pad) * 4) as u32),
                _ => Some((self.spec_slot_factor() * bps / (self.sample_rate as int) + pad) as u32),
            }
        }
    }

    /// Calculates the frame length in bytes (compressed size)
    pub fn frame_length(&self) -> (r: Option<u32>)
        requires
            self.sample_rate > 0,
            self.bitrate * 144000 + 1 <= u32::MAX,
        ensures
            r == self.spec_frame_length(),
    {
        if self.bitrate == 0 {
            return None;  // Free bitrate - cannot calculate
        }
        let bitrate_bps = self.bitrate as u32 * 1000;
        let pad: u32 = if self.padding_bit {
            1
        } else {
            0
        };
        let frame_length = match self.layer {
            MpegLayer::Layer1 => {
                assert((12 * bitrate_bps) as int / (self.sample_rate as int) <= 12 * bitrate_bps) by (nonlinear_arith)
                    requires
                        self.sample_rate > 0,
                ;
                (12 * bitrate_bps / self.sample_rate + pad) * 4
            },
            _ => {
                let factor: u32 = match (self._version, self.layer) {
                    (MpegVersion::V1, _) => 144,
                    (_, MpegLayer::Layer3) => 72,
                    _ => 144,
                };
                assert((factor * bitrate_bps) as int / (self.sample_rate as int) <= factor * bitrate_bps)
                    by (nonlinear_arith)
                    requires
                        self.sample_rate > 0,
                ;
                factor * bitrate_bps / self.sample_rate + pad
            },
        };
        Some(frame_length)
    }
}

// ---------------------------------------------------------------------------
// ID3v2 tags
// ---------------------------------------------------------------------------

/// Whether the first bytes of a file start an ID3v2 tag (`"ID3"`).
pub fn is_id3_tag(buffer: [u8; 4]) -> (r: bool)
    ensures
        r == (buffer@[0] == 73 && buffer@[1] == 68 && buffer@[2] == 51),
{
    buffer[0] == 73 && buffer[1] == 68 && buffer[2] == 51
}

/// The size of an ID3v2 tag from its four synchsafe bytes (7 bits each,
/// most significant first).
pub fn id3_tag_size(buffer: [u8; 4]) -> (r: u32)
    ensures
        r == (buffer@[0] % 128) * 2097152 + (buffer@[1] % 128) * 16384 + (buffer@[2] % 128)
            * 128 + buffer@[3] % 128,
        r < 268435456,
{
    (buffer[0] % 128) as u32 * 2097152 + (buffer[1] % 128) as u32 * 16384 + (buffer[2] % 128) as u32
        * 128 + (buffer[3] % 128) as u32
}

// ---------------------------------------------------------------------------
// Xing / Info headers
// ---------------------------------------------------------------------------

/// The frame and byte counts of a Xing or Info header, when present.
#[derive(Clone, Copy, Debug, PartialEq, Eq)]
pub struct VbrHeader {
    pub frames: Option<u32>,
    pub bytes: Option<u32>,
}

/// The value of four bytes read big-endian.
pub open spec fn be_u32(b: Seq<u8>, at: int) -> u32 {
    (b[at] * 16777216 + b[at + 1] * 65536 + b[at + 2] * 256 + b[at + 3]) as u32
}

fn read_be_u32(b: &[u8], at: usize) -> (r: u32)
    requires
        at + 4 <= b@.len(),
    ensures
        r == be_u32(b@, at as int),
{
    (b[at] as u32) * 16777216 + (b[at + 1] as u32) * 65536 + (b[at + 2] as u32) * 256 + (b[at
        + 3] as u32)
}

/// Whether four bytes at `at` read `Xing` or `Info`.
pub open spec fn is_vbr_magic(b: Seq<u8>, at: int) -> bool {
    (b[at] == 88 && b[at + 1] == 105 && b[at + 2] == 110 && b[at + 3] == 103) || (b[at] == 73
        && b[at + 1] == 110 && b[at + 2] == 102 && b[at + 3] == 111)
}

/// The Xing/Info header at `offset` in `window`, with the number of bytes
/// of `window` it spans: the magic, the flags, then the frame count (flag 1)
/// and the byte count (flag 2), each present only when its bytes are there.
/// `None` when the magic or the flags are missing.
pub open spec fn vbr_header_at(window: Seq<u8>, offset: int) -> Option<(VbrHeader, int)> {
    if window.len() < offset + 8 || !is_vbr_magic(window, offset) {
        None
    } else {
        let flags = be_u32(window, offset + 4);
        let p1 = offset + 8;
        let has_frames = flags % 2 == 1 && window.len() >= p1 + 4;
        let frames = if has_frames {
            Some(be_u32(window, p1))
        } else {
            None
        };
        let p2 = if has_frames {
            p1 + 4
        } else {
            p1
        };
        let has_bytes = (flags / 2) % 2 == 1 && window.len() >= p2 + 4;
        let bytes = if has_bytes {
            Some(be_u32(window, p2))
        } else {
            None
        };
        let end = if has_bytes {
            p2 + 4
        } else {
            p2
        };
        Some((VbrHeader { frames, bytes }, end))
    }
}

/// The first Xing/Info header among the offsets 0, 32 and 36 of `window`.
pub open spec fn spec_find_vbr_header(window: Seq<u8>) -> Option<(VbrHeader, int)> {
    match vbr_header_at(window, 0) {
        Some(h) => Some(h),
        None => match vbr_header_at(window, 32) {
            Some(h) => Some(h),
            None => vbr_header_at(window, 36),
        },
    }
}

fn vbr_header_at_exec(window: &[u8], offset: usize) -> (r: Option<(VbrHeader, usize)>)
    requires
        offset <= 36,
    ensures
        r == (match vbr_header_at(window@, offset as int) {
            Some((h, end)) => Some((h, end as usize)),
            None => None,
        }),
{
    let n = window.len();
    if n < offset + 8 {
        return None;
    }
    let w = window;
    let is_xing = w[offset] == 88 && w[offset + 1] == 105 && w[offset + 2] == 110 && w[offset + 3]
        == 103;
    let is_info = w[offset] == 73 && w[offset + 1] == 110 && w[offset + 2] == 102 && w[offset + 3]
        == 111;
    if !(is_xing || is_info) {
        return None;
    }
    let flags = read_be_u32(window, offset + 4);
    let mut p = offset + 8;
    let frames = if flags % 2 == 1 && n >= p + 4 {
        let v = read_be_u32(window, p);
        p = p + 4;
        Some(v)
    } else {
        None
    };
    let bytes = if (flags / 2) % 2 == 1 && n >= p + 4 {
        let v = read_be_u32(window, p);
        p = p + 4;
        Some(v)
    } else {
        None
    };
    Some((VbrHeader { frames, bytes }, p))
}

/// Looks for a Xing/Info header in the bytes that follow a frame header,
/// at the offsets 0, 32 and 36. Returns the header and the position just
/// after the counts it read.
pub fn find_vbr_header(window: &[u8]) -> (r: Option<(VbrHeader, usize)>)
    ensures
        r == (match spec_find_vbr_header(window@) {
            Some((h, end)) => Some((h, end as usize)),
            None => None,
        }),
{
    if let Some(h) = vbr_header_at_exec(window, 0) {
        return Some(h);
    }
    if let Some(h) = vbr_header_at_exec(window, 32) {
        return Some(h);
    }
    vbr_header_at_exec(window, 36)
}

// ---------------------------------------------------------------------------
// Resynchronisation
// ---------------------------------------------------------------------------

/// Limit search to prevent hanging
pub const MAX_RESYNC_BYTES: usize = 8192;

/// Scans `window` from `i`, having searched `searched` bytes, for a byte
/// 0xFF followed by a byte whose three top bits are set. A byte that
/// follows a 0xFF without completing a sync is passed over without being
/// counted or examined. The result is the position of the 0xFF.
pub open spec fn resync_scan(window: Seq<u8>, i: int, searched: int) -> Option<int>
    decreases window.len() - i, 8192 - searched,
{
    if searched >= 8192 || i < 0 || i >= window.len() {
        None
    } else if window[i] == 255 {
        if i + 1 >= window.len() {
            None
        } else if window[i + 1] / 32 == 7 {
            Some(i)
        } else {
            resync_scan(window, i + 2, searched + 1)
        }
    } else {
        resync_scan(window, i + 1, searched + 1)
    }
}

/// Finds where the next frame starts in the bytes that follow the current
/// position, looking at no more than `MAX_RESYNC_BYTES` bytes.
pub fn resync_offset(window: &[u8]) -> (r: Option<usize>)
    ensures
        r == (match resync_scan(window@, 0, 0) {
            Some(i) => Some(i as usize),
            None => None,
        }),
{
    let n = window.len();
    let mut i: usize = 0;
    let mut searched: usize = 0;
    while searched < MAX_RESYNC_BYTES
        invariant
            n == window@.len(),
            searched <= 8192,
            resync_scan(window@, 0, 0) == resync_scan(window@, i as int, searched as int),
        decreases 8192 - searched,
    {
        if i >= n {
            return None;
        }
        if window[i] == 255 {
            if i + 1 >= n {
                return None;
            }
            if window[i + 1] / 32 == 7 {
                return Some(i);
            }
            i = i + 2;
        } else {
            i = i + 1;
        }
        searched = searched + 1;
    }
    None
}

// ---------------------------------------------------------------------------
// Sampling frame sizes
// ---------------------------------------------------------------------------

/// What the reader of a file does next while sampling frames.
#[derive(Clone, Copy, Debug, PartialEq, Eq)]
pub enum SamplerAction {
    /// Skip this many bytes: the rest of the frame whose header was read.
    Skip(u32),
    /// Look for the next frame sync.
    Resync,
    /// Stop sampling.
    Stop,
}

/// Samples the sizes of the first frames to tell whether a file has a
/// variable bitrate: five frames are read, the sizes of the last two are
/// kept.
pub struct VbrSampler {
    pub frames_to_check: u32,
    pub frame_sizes: Vec<u32>,
}

impl VbrSampler {
    pub fn new() -> (r: Self)
        ensures
            r.frames_to_check == 5,
            r.frame_sizes@ == Seq::<u32>::empty(),
    {
        VbrSampler { frames_to_check: 5, frame_sizes: Vec::new() }
    }

    /// Whether another frame header should be read.
    pub fn wants_frame(&self) -> (r: bool)
        ensures
            r == (self.frames_to_check > 0),
    {
        self.frames_to_check > 0
    }

    /// Takes the next four header bytes. A valid header with a plausible
    /// frame length (21 to 4096 bytes) is counted, its length kept when
    /// fewer than three frames remain, and the rest of the frame skipped; an
    /// invalid header asks for a resync; free bitrate or an implausible
    /// length stops the sampling.
    pub fn on_header(&mut self, header: [u8; 4]) -> (r: SamplerAction)
        requires
            old(self).frames_to_check > 0,
            old(self).frame_sizes@.len() < 5,
        ensures
            match spec_frame_header(header@) {
                Err(_) => r == SamplerAction::Resync && *final(self) == *old(self),
                Ok(h) => match h.spec_frame_length() {
                    None => r == SamplerAction::Stop && *final(self) == *old(self),
                    Some(len) => if len > 4096 || len < 21 {
                        r == SamplerAction::Stop && *final(self) == *old(self)
                    } else {
                        &&& r == SamplerAction::Skip((len - 4) as u32)
                        &&& final(self).frames_to_check == old(self).frames_to_check - 1
                        &&& final(self).frame_sizes@ == if old(self).frames_to_check < 3 {
                            old(self).frame_sizes@.push(len)
                        } else {
                            old(self).frame_sizes@
                        }
                    },
                },
            },
    {
        match read_frame_header(header) {
            Ok(h) => match h.frame_length() {
                Some(frame_len) => {
                    // Sanity check frame length
                    if frame_len > 4096 || frame_len < 21 {
                        return SamplerAction::Stop;
                    }
                    if self.frames_to_check < 3 {
                        self.frame_sizes.push(frame_len);
                    }
                    self.frames_to_check = self.frames_to_check - 1;
                    SamplerAction::Skip(frame_len - 4)
                },
                None => SamplerAction::Stop,  // Free bitrate or invalid
            },
            Err(_) => SamplerAction::Resync,
        }
    }

    /// Variable bitrate: at least two sizes were kept and some size differs
    /// from the first.
    pub open spec fn spec_is_vbr(sizes: Seq<u32>) -> bool {
        sizes.len() >= 2 && exists|i: int| 0 <= i < sizes.len() && #[trigger] sizes[i] != sizes[0]
    }

    pub fn is_vbr(&self) -> (r: bool)
        ensures
            r == Self::spec_is_vbr(self.frame_sizes@),
    {
        let n = self.frame_sizes.len();
        if n < 2 {
            return false;
        }
        let first_size = self.frame_sizes[0];
        let mut i: usize = 0;
        while i < n
            invariant
                n == self.frame_sizes@.len(),
                n >= 2,
                first_size == self.frame_sizes@[0],
                i <= n,
                forall|j: int| 0 <= j < i ==> self.frame_sizes@[j] == first_size,
            decreases n - i,
        {
            if self.frame_sizes[i] != first_size {
                return true;
            }
            i = i + 1;
        }
        false
    }
}

} // verus!
