//! Byte-level decoding of audio file headers: the decisions that the
//! readers of MP3, FLAC, WAV, Ogg and AIFF files take on what they read.
use vstd::prelude::*;

pub mod aiff;
pub mod flac;
pub mod mp3;
pub mod ogg;
pub mod wav;

verus! {

/// A bitrate in kbps, constant or variable (an average).
#[derive(Clone, Copy, Debug, PartialEq, Eq)]
pub enum Bitrate {
    Constant(u16),
    Variable(u16),
}

impl Bitrate {
    /// The number of kbps, whichever the kind.
    pub open spec fn kbps(self) -> u16 {
        match self {
            Bitrate::Constant(u) => u,
            Bitrate::Variable(u) => u,
        }
    }
}

impl core::ops::Deref for Bitrate {
    type Target = u16;

    fn deref(&self) -> (r: &u16)
        ensures
            *r == self.kbps(),
    {
        match self {
            Bitrate::Constant(u) => u,
            Bitrate::Variable(u) => u,
        }
    }
}

/// The container formats that can be read, by file extension.
#[derive(Clone, Copy, Debug, PartialEq, Eq)]
pub enum AudioFormat {
    Mpeg,
    Flac,
    Wav,
    Ogg,
    Aiff,
}

/// The format of a lower-cased file extension: `mp3`, `mp2`, `mp1`;
/// `flac`; `wav`; `opus`, `ogg`, `oga`; `aiff`, `aifc`, `aif`.
pub open spec fn spec_format_of_extension(ext: Seq<char>) -> Option<AudioFormat> {
    if ext == "mp3"@ || ext == "mp2"@ || ext == "mp1"@ {
        Some(AudioFormat::Mpeg)
    } else if ext == "flac"@ {
        Some(AudioFormat::Flac)
    } else if ext == "wav"@ {
        Some(AudioFormat::Wav)
    } else if ext == "opus"@ || ext == "ogg"@ || ext == "oga"@ {
        Some(AudioFormat::Ogg)
    } else if ext == "aiff"@ || ext == "aifc"@ || ext == "aif"@ {
        Some(AudioFormat::Aiff)
    } else {
        None
    }
}

/// Which extensions each reader takes: `mp3`, `mp2`, `mp1` are MPEG
/// audio; `flac` is FLAC; `wav` is WAV; `opus`, `ogg`, `oga` are Ogg;
/// `aiff`, `aifc`, `aif` are AIFF; no other extension has a reader.
pub proof fn lemma_extensions_of_formats(ext: Seq<char>)
    ensures
        (spec_format_of_extension(ext) == Some(AudioFormat::Mpeg)) == (ext == seq!['m', 'p', '3'] || ext
            == seq!['m', 'p', '2'] || ext == seq!['m', 'p', '1']),
        (spec_format_of_extension(ext) == Some(AudioFormat::Flac)) == (ext == seq!['f', 'l', 'a', 'c']),
        (spec_format_of_extension(ext) == Some(AudioFormat::Wav)) == (ext == seq!['w', 'a', 'v']),
        (spec_format_of_extension(ext) == Some(AudioFormat::Ogg)) == (ext == seq!['o', 'p', 'u', 's'] || ext
            == seq!['o', 'g', 'g'] || ext == seq!['o', 'g', 'a']),
        (spec_format_of_extension(ext) == Some(AudioFormat::Aiff)) == (ext == seq!['a', 'i', 'f', 'f']
            || ext == seq!['a', 'i', 'f', 'c'] || ext == seq!['a', 'i', 'f']),
{
    reveal_strlit("mp3");
    reveal_strlit("mp2");
    reveal_strlit("mp1");
    reveal_strlit("flac");
    reveal_strlit("wav");
    reveal_strlit("opus");
    reveal_strlit("ogg");
    reveal_strlit("oga");
    reveal_strlit("aiff");
    reveal_strlit("aifc");
    reveal_strlit("aif");
    assert("mp3"@ =~= seq!['m', 'p', '3']);
    assert("mp2"@ =~= seq!['m', 'p', '2']);
    assert("mp1"@ =~= seq!['m', 'p', '1']);
    assert("flac"@ =~= seq!['f', 'l', 'a', 'c']);
    assert("wav"@ =~= seq!['w', 'a', 'v']);
    assert("opus"@ =~= seq!['o', 'p', 'u', 's']);
    assert("ogg"@ =~= seq!['o', 'g', 'g']);
    assert("oga"@ =~= seq!['o', 'g', 'a']);
    assert("aiff"@ =~= seq!['a', 'i', 'f', 'f']);
    assert("aifc"@ =~= seq!['a', 'i', 'f', 'c']);
    assert("aif"@ =~= seq!['a', 'i', 'f']);
}

fn is(ext: &String, lit: &str) -> (r: bool)
    ensures
        r == (ext@ == lit@),
{
    *ext == lit.to_owned()
}

/// Chooses the reader for a file by its lower-cased extension.
pub fn format_of_extension(ext: &String) -> (r: Option<AudioFormat>)
    ensures
        r == spec_format_of_extension(ext@),
{
    if is(ext, "mp3") || is(ext, "mp2") || is(ext, "mp1") {
        Some(AudioFormat::Mpeg)
    } else if is(ext, "flac") {
        Some(AudioFormat::Flac)
    } else if is(ext, "wav") {
        Some(AudioFormat::Wav)
    } else if is(ext, "opus") || is(ext, "ogg") || is(ext, "oga") {
        Some(AudioFormat::Ogg)
    } else if is(ext, "aiff") || is(ext, "aifc") || is(ext, "aif") {
        Some(AudioFormat::Aiff)
    } else {
        None
    }
}

/// Whether the bytes of `data` at `at` are those of `lit`.
pub open spec fn bytes_at(data: Seq<u8>, at: int, lit: Seq<u8>) -> bool {
    at + lit.len() <= data.len() && data.subrange(at, at + lit.len()) == lit
}

/// Compares the bytes of `data` at `at` with `lit`.
pub fn matches_at(data: &[u8], at: usize, lit: &[u8]) -> (r: bool)
    ensures
        r == bytes_at(data@, at as int, lit@),
{
    let n = lit.len();
    if at > data.len() || data.len() - at < n {
        return false;
    }
    let dl = data.len();
    let mut i: usize = 0;
    while i < n
        invariant
            n == lit@.len(),
            dl == data@.len(),
            at + n <= dl,
            i <= n,
            forall|j: int| 0 <= j < i ==> data@[at + j] == lit@[j],
        decreases n - i,
    {
        if data[at + i] != lit[i] {
            assert(data@.subrange(at as int, at + n)[i as int] != lit@[i as int]);
            return false;
        }
        i = i + 1;
    }
    assert(data@.subrange(at as int, at + n) =~= lit@);
    true
}

} // verus!
