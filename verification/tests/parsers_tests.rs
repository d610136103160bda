use slsk::parsers::aiff::{
    form_type, get_compression_ratio, is_compressed_format, name_is_padded, padded_size,
    parse_comm_fields, read_chunk_header, AiffError, AiffScan, AiffStep,
};
use slsk::parsers::flac::{is_flac_signature, parse_streaminfo, read_block_header, FlacError, FlacScan};
use slsk::parsers::mp3::{
    find_vbr_header, id3_tag_size, is_id3_tag, read_frame_header, resync_offset, FrameHeaderError,
    FrameHeader, MpegLayer, MpegVersion, SamplerAction, VbrSampler,
};
use slsk::parsers::ogg::{find_audio_stream, find_next_page, last_granule, parse_audio_codec, OggError};
use slsk::parsers::wav::{chunk_step, is_riff_wave, parse_fmt, ChunkStep, WavError, WavParser};
use slsk::parsers::{format_of_extension, AudioFormat, Bitrate};

#[test]
fn mp3_frame_headers_decode() {
    let h = read_frame_header([0xFF, 0xFB, 0x90, 0x00]).unwrap();
    assert_eq!(h._version, MpegVersion::V1);
    assert_eq!(h.layer, MpegLayer::Layer3);
    assert_eq!(h.bitrate, 128);
    assert_eq!(h.sample_rate, 44100);
    assert!(!h.padding_bit);
    assert_eq!(h.frame_length(), Some(417));
    let padded = read_frame_header([0xFF, 0xFB, 0x92, 0x00]).unwrap();
    assert_eq!(padded.frame_length(), Some(418));
    assert_eq!(MpegLayer::Layer1.samples_per_frame(), 384);
    assert_eq!(MpegLayer::Layer3.samples_per_frame(), 1152);
}

#[test]
fn mpeg2_layer3_frames_hold_half_the_samples() {
    let h = FrameHeader {
        _version: MpegVersion::V2,
        layer: MpegLayer::Layer3,
        bitrate: 64,
        sample_rate: 22050,
        padding_bit: false,
    };
    assert_eq!(h.frame_length(), Some(208));
    assert_eq!(h.samples_per_frame(), 576);
    let read = read_frame_header([0xFF, 0xF3, 0x80, 0x00]).unwrap();
    assert_eq!((read._version, read.layer, read.bitrate, read.sample_rate), (MpegVersion::V2, MpegLayer::Layer3, 64, 22050));
    assert_eq!(read.frame_length(), Some(208));
    let layer2 = FrameHeader { layer: MpegLayer::Layer2, ..h };
    assert_eq!(layer2.frame_length(), Some(417));
    assert_eq!(layer2.samples_per_frame(), 1152);
    let v1 = read_frame_header([0xFF, 0xFB, 0x90, 0x00]).unwrap();
    assert_eq!(v1.samples_per_frame(), 1152);
}

#[test]
fn mp3_frame_header_errors() {
    assert_eq!(read_frame_header([0x00, 0xFB, 0x90, 0x00]), Err(FrameHeaderError::InvalidFrameSync));
    assert_eq!(read_frame_header([0xFF, 0xE9, 0x90, 0x00]), Err(FrameHeaderError::InvalidMpegVersion));
    assert_eq!(read_frame_header([0xFF, 0xF9, 0x90, 0x00]), Err(FrameHeaderError::InvalidMpegLayer));
    assert_eq!(read_frame_header([0xFF, 0xFB, 0xF0, 0x00]), Err(FrameHeaderError::InvalidBitrateIndex));
    assert_eq!(read_frame_header([0xFF, 0xFB, 0x9C, 0x00]), Err(FrameHeaderError::InvalidSampleRate));
    assert_eq!(FrameHeaderError::InvalidSampleRate.message(), "Invalid Sample Rate");
}

#[test]
fn free_bitrate_has_no_length() {
    let h = read_frame_header([0xFF, 0xFB, 0x00, 0x00]).unwrap();
    assert_eq!(h.bitrate, 0);
    assert_eq!(h.frame_length(), None);
}

#[test]
fn id3_tags() {
    assert!(is_id3_tag([b'I', b'D', b'3', 4]));
    assert!(!is_id3_tag([b'I', b'D', b'4', 4]));
    assert_eq!(id3_tag_size([0, 0, 2, 1]), 257);
    assert_eq!(id3_tag_size([0x7f, 0x7f, 0x7f, 0x7f]), 268435455);
}

#[test]
fn xing_headers_are_found_at_their_offsets() {
    let mut window = vec![0u8; 48];
    window[32..36].copy_from_slice(b"Xing");
    window[36..40].copy_from_slice(&[0, 0, 0, 3]);
    window[40..44].copy_from_slice(&[0, 0, 1, 0]);
    window[44..48].copy_from_slice(&[0, 1, 0, 0]);
    let (h, end) = find_vbr_header(&window).unwrap();
    assert_eq!(h.frames, Some(256));
    assert_eq!(h.bytes, Some(65536));
    assert_eq!(end, 48);
    assert!(find_vbr_header(&[0u8; 64]).is_none());
}

#[test]
fn resync_finds_the_next_sync() {
    assert_eq!(resync_offset(&[0, 1, 0xFF, 0xFB, 0]), Some(2));
    assert_eq!(resync_offset(&[0xFF, 0x00, 0xFF, 0xE0]), Some(2));
    assert_eq!(resync_offset(&[0, 0, 0]), None);
}

#[test]
fn constant_frames_are_not_vbr() {
    let mut s = VbrSampler::new();
    let mut n = 0;
    while s.wants_frame() {
        assert_eq!(s.on_header([0xFF, 0xFB, 0x90, 0x00]), SamplerAction::Skip(413));
        n += 1;
    }
    assert_eq!(n, 5);
    assert!(!s.is_vbr());
    let mut v = VbrSampler::new();
    for _ in 0..3 {
        v.on_header([0xFF, 0xFB, 0x90, 0x00]);
    }
    v.on_header([0xFF, 0xFB, 0xB0, 0x00]);
    v.on_header([0xFF, 0xFB, 0x90, 0x00]);
    assert!(v.is_vbr());
    let mut bad = VbrSampler::new();
    assert_eq!(bad.on_header([0, 0, 0, 0]), SamplerAction::Resync);
    assert_eq!(bad.on_header([0xFF, 0xFB, 0x00, 0x00]), SamplerAction::Stop);
}

#[test]
fn flac_streaminfo_decodes() {
    assert!(is_flac_signature(*b"fLaC"));
    assert!(!is_flac_signature(*b"OggS"));
    let h = read_block_header([0x80, 0, 0, 34]);
    assert!(h.is_last);
    assert_eq!(h.block_type, 0);
    assert_eq!(h.length, 34);
    let mut data = [0u8; 34];
    data[4..7].copy_from_slice(&[0, 0, 14]);
    data[7..10].copy_from_slice(&[0, 0x10, 0]);
    data[10] = 0x0A;
    data[11] = 0xC4;
    data[12] = 0x42;
    data[13] = 0xF0;
    data[17] = 100;
    let info = parse_streaminfo(&data);
    assert_eq!(info.sample_rate, 44100);
    assert_eq!(info.channels, 2);
    assert_eq!(info.bits_per_sample, 16);
    assert_eq!(info.total_samples, 100);
    assert_eq!(info.min_frame_size, 14);
    assert_eq!(info.max_frame_size, 4096);

    let mut scan = FlacScan::new();
    let header = scan.on_block_header([0x80, 0, 0, 34]);
    assert!(header.is_last);
    scan.on_streaminfo(&data);
    let parser = scan.finish(1000).unwrap();
    assert_eq!(parser.audio_start_pos, 42);
    assert!(parser.is_vbr());
    assert_eq!(parser.sample_rate(), 44100);
    assert_eq!(parser.bit_depth(), Some(16));
    assert_eq!(FlacScan::new().finish(10), Err(FlacError::NoStreamInfo));
}

#[test]
fn wav_headers_decode() {
    assert!(is_riff_wave(b"RIFF\0\0\0\0WAVE"));
    assert!(!is_riff_wave(b"RIFX\0\0\0\0WAVE"));
    assert_eq!(chunk_step(b"fmt \x10\0\0\0", b"fmt "), ChunkStep::Found(16));
    assert_eq!(chunk_step(b"LIST\x04\x01\0\0", b"fmt "), ChunkStep::Skip(260));
    let fmt = [1, 0, 2, 0, 0x44, 0xAC, 0, 0, 0x10, 0xB1, 2, 0, 4, 0, 16, 0];
    let f = parse_fmt(&fmt).unwrap();
    assert_eq!(f.channels, 2);
    assert_eq!(f.sample_rate, 44100);
    assert_eq!(f.byte_rate, 176400);
    assert_eq!(f.bits_per_sample, 16);
    let p = WavParser::from_chunks(f, 1000);
    assert_eq!(p.bitrate(), Bitrate::Constant(1411));
    assert_eq!(*p.bitrate(), 1411);
    assert!(!p.is_vbr());
    assert_eq!(p.bit_depth(), Some(16));
    let mut not_pcm = fmt;
    not_pcm[0] = 3;
    assert_eq!(parse_fmt(&not_pcm), Err(WavError::NotPcm));
    assert_eq!(WavError::NotWav.message(), "Not a valid WAV file");
}

fn opus_head() -> Vec<u8> {
    let mut d = b"OpusHead".to_vec();
    d.extend_from_slice(&[1, 2, 0x38, 0x01]);
    d.extend_from_slice(&48000u32.to_le_bytes());
    d.extend_from_slice(&[0, 0, 0]);
    d
}

#[test]
fn ogg_codecs_are_identified() {
    assert_eq!(parse_audio_codec(&opus_head()), Ok((48000, None, true)));
    assert_eq!(parse_audio_codec(&[]), Err(OggError::EmptyData));
    assert_eq!(parse_audio_codec(b"nothing here"), Err(OggError::NotAudioCodec));
    let mut vorbis = vec![1];
    vorbis.extend_from_slice(b"vorbis");
    vorbis.extend_from_slice(&[0, 0, 0, 0, 2]);
    vorbis.extend_from_slice(&44100u32.to_le_bytes());
    vorbis.extend_from_slice(&0u32.to_le_bytes());
    vorbis.extend_from_slice(&128000u32.to_le_bytes());
    vorbis.extend_from_slice(&0u32.to_le_bytes());
    vorbis.extend_from_slice(&[0, 0]);
    assert_eq!(vorbis.len(), 30);
    assert_eq!(parse_audio_codec(&vorbis), Ok((44100, Some(16), true)));
}

#[test]
fn ogg_pages_are_found() {
    assert_eq!(find_next_page(b"xxOggSyy"), Some(2));
    assert_eq!(find_next_page(b"xxxxxx"), None);
}

fn ogg_page(granule: u64, packet: &[u8]) -> Vec<u8> {
    let mut p = b"OggS".to_vec();
    p.push(0);
    p.push(2);
    p.extend_from_slice(&granule.to_le_bytes());
    p.extend_from_slice(&[0; 12]);
    p.push(1);
    p.push(packet.len() as u8);
    p.extend_from_slice(packet);
    p
}

#[test]
fn ogg_files_give_their_stream_and_length() {
    let mut file = ogg_page(0, &opus_head());
    file.extend(ogg_page(96000, &[0, 0, 0, 0]));
    assert_eq!(find_audio_stream(&file), Ok((48000, None, true)));
    assert_eq!(last_granule(&file), Ok(96000));
    assert_eq!(find_audio_stream(b"no pages at all"), Err(OggError::NoAudioStream));
}

#[test]
fn aiff_headers_decode() {
    assert_eq!(form_type(b"FORM\0\0\0\x10AIFF"), Ok(false));
    assert_eq!(form_type(b"FORM\0\0\0\x10AIFC"), Ok(true));
    assert_eq!(form_type(b"RIFF\0\0\0\x10AIFF"), Err(AiffError::NotForm));
    assert_eq!(form_type(b"FORM\0\0\0\x10WAVE"), Err(AiffError::BadFormType));
    let h = read_chunk_header(b"COMM\0\0\0\x12");
    assert_eq!(&h.id, b"COMM");
    assert_eq!(h.size, 18);
    assert_eq!(padded_size(7), 8);
    assert_eq!(padded_size(8), 8);
    assert!(name_is_padded(0));
    assert!(!name_is_padded(3));
    let comm = [0, 2, 0, 0, 0x10, 0, 0, 16, 0x40, 0x0E, 0xAC, 0x44, 0, 0, 0, 0, 0, 0];
    let f = parse_comm_fields(&comm);
    assert_eq!(f.channels, 2);
    assert_eq!(f.num_sample_frames, 4096);
    assert_eq!(f.sample_size, 16);
    assert_eq!(f.rate, [0x40, 0x0E, 0xAC, 0x44, 0, 0, 0, 0, 0, 0]);
}

#[test]
fn aiff_compression_types() {
    assert!(!is_compressed_format(b"NONE"));
    assert!(!is_compressed_format(b"sowt"));
    assert!(!is_compressed_format(b"FL64"));
    assert!(is_compressed_format(b"ulaw"));
    assert!(is_compressed_format(b"????"));
    assert_eq!(get_compression_ratio(b"twos"), 1);
    assert_eq!(get_compression_ratio(b"alaw"), 2);
    assert_eq!(get_compression_ratio(b"ima4"), 4);
    assert_eq!(get_compression_ratio(b"G723"), 3);
    assert_eq!(get_compression_ratio(b"MAC3"), 3);
    assert_eq!(get_compression_ratio(b"MAC6"), 6);
    assert_eq!(get_compression_ratio(b"ms\x00\x02"), 2);
    assert_eq!(get_compression_ratio(b"zzzz"), 2);
}

#[test]
fn aiff_walk() {
    let mut scan = AiffScan::start(b"FORM\0\0\0\x10AIFC").unwrap();
    let ssnd = read_chunk_header(b"SSND\0\0\0\x05");
    assert_eq!(scan.on_chunk(&ssnd), AiffStep::Skip(6));
    let comm = read_chunk_header(b"COMM\0\0\0\x18");
    assert_eq!(scan.on_chunk(&comm), AiffStep::ReadComm(24));
    assert!(scan.has_compression_type(24));
    let fields = parse_comm_fields(&[0, 2, 0, 0, 0x10, 0, 0, 16, 0x40, 0x0E, 0xAC, 0x44, 0, 0, 0, 0, 0, 0]);
    scan.on_comm(&fields, 44100, Some(*b"ima4"));
    let p = scan.finish().unwrap();
    assert_eq!(p.sample_rate(), 44100);
    assert_eq!(p.bit_depth(), Some(16));
    assert_eq!(p.compression_ratio, 4);
    assert!(p._is_compressed);
    assert!(!p.is_vbr());
    assert!(p.has_bitrate());
    assert_eq!(p.uncompressed_bps(), 44100 * 2 * 16);
    let empty = AiffScan::start(b"FORM\0\0\0\x10AIFF").unwrap();
    assert_eq!(empty.finish(), Err(AiffError::MissingComm));
    assert_eq!(AiffError::MissingComm.message(), "Missing required COMM chunk");
}

#[test]
fn extensions_choose_the_reader() {
    assert_eq!(format_of_extension(&String::from("mp3")), Some(AudioFormat::Mpeg));
    assert_eq!(format_of_extension(&String::from("flac")), Some(AudioFormat::Flac));
    assert_eq!(format_of_extension(&String::from("wav")), Some(AudioFormat::Wav));
    assert_eq!(format_of_extension(&String::from("opus")), Some(AudioFormat::Ogg));
    assert_eq!(format_of_extension(&String::from("aif")), Some(AudioFormat::Aiff));
    assert_eq!(format_of_extension(&String::from("txt")), None);
}

#[test]
fn errors_are_reported_with_their_messages() {
    assert_eq!(slsk::parsers::wav::WavError::NotPcm.message(), "Only PCM format WAV files are supported");
    assert_eq!(slsk::parsers::aiff::AiffError::MissingComm.message(), "Missing required COMM chunk");
    assert_eq!(slsk::parsers::mp3::FrameHeaderError::InvalidSampleRate.message(), "Invalid Sample Rate");
    assert_eq!(slsk::parsers::ogg::OggError::NoAudioStream.message(), "No audio stream found");
}
