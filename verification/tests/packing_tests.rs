use slsk::constants::{ConnectionTypes, FileAttributeTypes, TransferDirections, UserStatusCodes};
use slsk::messages::MessageType;
use slsk::packing::{Ipv4Addr, PackToBytes, UnpackFromBytes};

#[test]
fn integers_are_little_endian() {
    assert_eq!(0x1234u16.pack_to_bytes(), vec![0x34, 0x12]);
    assert_eq!(0x12345678u32.pack_to_bytes(), vec![0x78, 0x56, 0x34, 0x12]);
    assert_eq!(1u64.pack_to_bytes(), vec![1, 0, 0, 0, 0, 0, 0, 0]);
    assert_eq!((-1i32).pack_to_bytes(), vec![0xff, 0xff, 0xff, 0xff]);
    assert_eq!(true.pack_to_bytes(), vec![1]);
    assert_eq!(false.pack_to_bytes(), vec![0]);
}

#[test]
fn integers_come_back_and_leave_the_rest() {
    let mut bytes = 0xdeadbeefu32.pack_to_bytes();
    bytes.extend_from_slice(&[9, 9]);
    assert_eq!(u32::unpack_from_bytes(&mut bytes), Some(0xdeadbeef));
    assert_eq!(bytes, vec![9, 9]);

    let mut bytes = 42u64.pack_to_bytes();
    assert_eq!(u64::unpack_from_bytes(&mut bytes), Some(42));
    assert!(bytes.is_empty());

    let mut bytes = (-5i32).pack_to_bytes();
    assert_eq!(i32::unpack_from_bytes(&mut bytes), Some(-5));
}

#[test]
fn too_few_bytes_give_none() {
    let mut bytes = vec![1, 2, 3];
    assert_eq!(u32::unpack_from_bytes(&mut bytes), None);
    assert!(bytes.is_empty());
    let mut empty: Vec<u8> = Vec::new();
    assert_eq!(u8::unpack_from_bytes(&mut empty), None);
}

#[test]
fn strings_are_length_prefixed() {
    let s = String::from("héllo");
    let bytes = s.pack_to_bytes();
    assert_eq!(&bytes[..4], &[6, 0, 0, 0]);
    assert_eq!(&bytes[4..], "héllo".as_bytes());
    let mut bytes = bytes;
    bytes.push(7);
    assert_eq!(String::unpack_from_bytes(&mut bytes), Some(String::from("héllo")));
    assert_eq!(bytes, vec![7]);
}

#[test]
fn invalid_utf8_is_decoded_lossily() {
    let mut bytes = vec![3, 0, 0, 0, b'a', 0xff, b'b'];
    assert_eq!(String::unpack_from_bytes(&mut bytes), Some(String::from("a\u{FFFD}b")));
}

#[test]
fn a_short_string_empties_the_buffer() {
    let mut bytes = vec![10, 0, 0, 0, b'a', b'b'];
    assert_eq!(String::unpack_from_bytes(&mut bytes), None);
    assert!(bytes.is_empty());
}

#[test]
fn vectors_are_counted() {
    let v: Vec<u32> = vec![1, 2, 3];
    let bytes = v.pack_to_bytes();
    assert_eq!(bytes, vec![3, 0, 0, 0, 1, 0, 0, 0, 2, 0, 0, 0, 3, 0, 0, 0]);
    let mut bytes = bytes;
    assert_eq!(<Vec<u32>>::unpack_from_bytes(&mut bytes), Some(vec![1, 2, 3]));
    let names = vec![String::from("a"), String::from("bc")];
    let mut bytes = names.pack_to_bytes();
    assert_eq!(<Vec<String>>::unpack_from_bytes(&mut bytes), Some(names));
}

#[test]
fn ip_addresses_are_one_u32() {
    let ip = Ipv4Addr(0x0100007f);
    assert_eq!(ip.octets(), [1, 0, 0, 127]);
    let mut bytes = ip.pack_to_bytes();
    assert_eq!(bytes, vec![0x7f, 0, 0, 1]);
    assert_eq!(Ipv4Addr::unpack_from_bytes(&mut bytes), Some(Ipv4Addr(0x0100007f)));
}

#[test]
fn protocol_constants_come_back() {
    for status in [UserStatusCodes::Offline, UserStatusCodes::Away, UserStatusCodes::Online] {
        let mut bytes = status.pack_to_bytes();
        assert_eq!(UserStatusCodes::unpack_from_bytes(&mut bytes), Some(status));
    }
    for d in [TransferDirections::DownloadFromPeer, TransferDirections::UploadToPeer] {
        let mut bytes = d.pack_to_bytes();
        assert_eq!(TransferDirections::unpack_from_bytes(&mut bytes), Some(d));
    }
    let p = ConnectionTypes::PeerToPeer.pack_to_bytes();
    assert_eq!(p, vec![1, 0, 0, 0, b'P']);
    let f = ConnectionTypes::FileTransfer.pack_to_bytes();
    assert_eq!(f, vec![1, 0, 0, 0, b'F']);
    let d = ConnectionTypes::DistributedNetwork.pack_to_bytes();
    assert_eq!(d, vec![1, 0, 0, 0, b'D']);
    for c in [
        ConnectionTypes::PeerToPeer,
        ConnectionTypes::FileTransfer,
        ConnectionTypes::DistributedNetwork,
    ] {
        let mut bytes = c.pack_to_bytes();
        assert_eq!(ConnectionTypes::unpack_from_bytes(&mut bytes), Some(c));
    }
    let mut bytes = FileAttributeTypes::SampleRate.pack_to_bytes();
    assert_eq!(FileAttributeTypes::unpack_from_bytes(&mut bytes), Some(FileAttributeTypes::SampleRate));
}

#[test]
fn an_unknown_connection_letter_reads_as_peer_to_peer() {
    let mut bytes = vec![1, 0, 0, 0, b'X'];
    assert_eq!(ConnectionTypes::unpack_from_bytes(&mut bytes), Some(ConnectionTypes::PeerToPeer));
    let mut short = vec![1, 0, 0, 0];
    assert_eq!(ConnectionTypes::unpack_from_bytes(&mut short), None);
}

#[test]
fn message_codes_have_their_widths() {
    assert_eq!(MessageType::Server(1).pack_to_bytes(), vec![1, 0, 0, 0]);
    assert_eq!(MessageType::Peer(40).pack_to_bytes(), vec![40, 0, 0, 0]);
    assert_eq!(MessageType::PeerInit(1).pack_to_bytes(), vec![1]);
    assert_eq!(MessageType::Distributed(3).pack_to_bytes(), vec![3]);
    assert!(MessageType::File.pack_to_bytes().is_empty());
}

#[test]
fn message_codes_come_back() {
    let mut bytes = vec![26, 0, 0, 0, 5];
    assert_eq!(MessageType::Server(0)._unpack_self_from_bytes(&mut bytes), Some(MessageType::Server(26)));
    assert_eq!(bytes, vec![5]);
    let mut bytes = MessageType::Distributed(4).pack_to_bytes();
    assert_eq!(MessageType::Distributed(0)._unpack_self_from_bytes(&mut bytes), Some(MessageType::Distributed(4)));
    let mut bytes = vec![1, 2];
    assert_eq!(MessageType::File._unpack_self_from_bytes(&mut bytes), Some(MessageType::File));
    assert_eq!(bytes, vec![1, 2]);
}
