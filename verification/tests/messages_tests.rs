use slsk::constants::{TransferDirections, MAJOR_VERSION, MINOR_VERSION};
use slsk::messages::peer::{
    Directory, File, FileAttribute, FileSearchResponse, SharedFileListResponse, TransferRequest,
    TransferResponse, TransferResponseReason,
};
use slsk::messages::server::{Login, SayChatroom, _SendLogin, _SendSayChatroom};
use slsk::messages::{MessageTrait, MessageType};
use slsk::packing::{PackToBytes, UnpackFromBytes};

#[test]
fn login_hash_is_md5_of_name_and_password() {
    let login = _SendLogin::new(String::from("user"), String::from("pass"));
    assert_eq!(login.username, "user");
    assert_eq!(login.password, "pass");
    assert_eq!(login.version, MAJOR_VERSION);
    assert_eq!(login.minor_version, MINOR_VERSION);
    // md5("userpass")
    assert_eq!(login.hash, "63e780c3f321d13109c71bf81805476e");
}

#[test]
fn a_message_is_framed_by_length_and_code() {
    let bytes = SayChatroom::to_bytes(_SendSayChatroom {
        room: String::from("r"),
        message: String::from("hi"),
    });
    let mut expected = vec![15, 0, 0, 0, 13, 0, 0, 0];
    expected.extend_from_slice(&[1, 0, 0, 0, b'r', 2, 0, 0, 0, b'h', b'i']);
    assert_eq!(bytes, expected);
    assert_eq!(SayChatroom::code(), MessageType::Server(13));
}

#[test]
fn a_failed_login_reads_its_reason() {
    let mut bytes = vec![0];
    bytes.extend(String::from("INVALIDPASS").pack_to_bytes());
    let r = Login::from_stream(&mut bytes).unwrap();
    assert!(!r.success);
    assert_eq!(r.failure_reason, Some(String::from("INVALIDPASS")));
    assert!(r.greet.is_none());
}

#[test]
fn file_attributes_are_kept_in_order() {
    let attrs = FileAttribute::from_parts(Some(320), Some(200), None, Some(44100), Some(16));
    assert_eq!(
        attrs,
        vec![
            FileAttribute::Bitrate(320),
            FileAttribute::Duration(200),
            FileAttribute::SampleRate(44100),
            FileAttribute::BitDepth(16),
        ]
    );
    assert!(FileAttribute::from_parts(None, None, None, None, None).is_empty());
}

#[test]
fn file_attributes_come_back() {
    for a in [FileAttribute::Bitrate(1), FileAttribute::VBR(true), FileAttribute::Encoder(7)] {
        let mut bytes = a.pack_to_bytes();
        assert_eq!(FileAttribute::unpack_from_bytes(&mut bytes), Some(a));
    }
}

fn sample_file() -> File {
    File {
        code: 1,
        filename: String::from("@@abc\\song.mp3"),
        file_size: 1234,
        extension: String::from("mp3"),
        attributes: vec![FileAttribute::Bitrate(320)],
    }
}

#[test]
fn search_responses_are_compressed_and_come_back() {
    let response = FileSearchResponse {
        username: String::from("peer"),
        token: 77,
        files: vec![sample_file()],
        slot_free: true,
        avg_speed: 1000,
        queue_length: 2,
        unknown_0: 0,
        private_files: Some(Vec::new()),
    };
    let mut bytes = response.pack_to_bytes();
    // zlib streams start with 0x78
    assert_eq!(bytes[0], 0x78);
    let back = FileSearchResponse::unpack_from_bytes(&mut bytes).unwrap();
    assert_eq!(back.username, "peer");
    assert_eq!(back.token, 77);
    assert_eq!(back.files.len(), 1);
    assert_eq!(back.files[0].filename, "@@abc\\song.mp3");
    assert_eq!(back.files[0].file_size, 1234);
    assert_eq!(back.files[0].attributes, vec![FileAttribute::Bitrate(320)]);
    assert!(back.slot_free);
    assert_eq!(back.avg_speed, 1000);
    assert_eq!(back.queue_length, 2);
}

#[test]
fn shared_file_lists_come_back() {
    let list = SharedFileListResponse {
        directories: vec![Directory { path: String::from("music"), files: vec![sample_file()] }],
        _unknown_0: 0,
        priv_directories: Vec::new(),
    };
    let mut bytes = list.pack_to_bytes();
    let back = SharedFileListResponse::unpack_from_bytes(&mut bytes).unwrap();
    assert_eq!(back.directories.len(), 1);
    assert_eq!(back.directories[0].path, "music");
    assert_eq!(back.directories[0].files[0].extension, "mp3");
    assert!(back.priv_directories.is_empty());
}

#[test]
fn garbage_is_not_a_compressed_list() {
    let mut bytes = vec![1, 2, 3, 4, 5];
    assert!(SharedFileListResponse::unpack_from_bytes(&mut bytes).is_none());
}

#[test]
fn an_upload_request_carries_its_size() {
    let request = TransferRequest {
        direction: TransferDirections::UploadToPeer,
        token: 9,
        filename: String::from("a.flac"),
        filesize: Some(5000),
    };
    let mut bytes = request.pack_to_bytes();
    assert_eq!(bytes.len(), 4 + 4 + 4 + 6 + 8);
    let back = TransferRequest::unpack_from_bytes(&mut bytes).unwrap();
    assert_eq!(back.direction, TransferDirections::UploadToPeer);
    assert_eq!(back.filesize, Some(5000));

    let download = TransferRequest {
        direction: TransferDirections::DownloadFromPeer,
        token: 9,
        filename: String::from("a.flac"),
        filesize: None,
    };
    let mut bytes = download.pack_to_bytes();
    assert_eq!(bytes.len(), 4 + 4 + 4 + 6);
    assert_eq!(TransferRequest::unpack_from_bytes(&mut bytes).unwrap().filesize, None);
}

#[test]
fn an_allowed_transfer_without_size_is_one_flag() {
    let r = TransferResponse { token: 3, reason: TransferResponseReason::Allowed(None) };
    assert_eq!(r.pack_to_bytes(), vec![3, 0, 0, 0, 1]);
    let refused = TransferResponse {
        token: 3,
        reason: TransferResponseReason::NotAllowed(String::from("Queued")),
    };
    let mut bytes = refused.pack_to_bytes();
    match TransferResponse::unpack_from_bytes(&mut bytes).unwrap().reason {
        TransferResponseReason::NotAllowed(s) => assert_eq!(s, "Queued"),
        _ => panic!("expected a refusal"),
    }
}

#[test]
fn message_codes_keep_their_kind_when_read_back() {
    for code in [
        MessageType::Server(13),
        MessageType::Peer(9),
        MessageType::PeerInit(1),
        MessageType::Distributed(3),
        MessageType::File,
    ] {
        let mut bytes = code.pack_to_bytes();
        bytes.push(7);
        assert_eq!(code._unpack_self_from_bytes(&mut bytes), Some(code));
        assert_eq!(bytes, vec![7]);
    }
    let mut bytes = vec![5, 9];
    assert_eq!(MessageType::Distributed(0)._unpack_self_from_bytes(&mut bytes), Some(MessageType::Distributed(5)));
    assert_eq!(bytes, vec![9]);
}
