use slsk::constants::DownloadStatus;
use slsk::session::{ConnectStep, Peers, Session, SessionEnd, TokenQueues};
use slsk::config::{Config, Server, User};
use slsk::constants::{ConnectionTypes, TransferDirections, MAX_RESULTS};
use slsk::file_transfer::{ChunkOutcome, DownloadProgress, CHUNK_SIZE};
use slsk::messages::peer::{FileSearchResponse, TransferRequest};
use slsk::messages::peer_init::PeerInit;
use slsk::messages::MessageType;
use slsk::packing::{Ipv4Addr, PackToBytes};
use slsk::peer_handling::{listener_action, peer_action, ListenerAction, PeerAction, ResultsMap};
use slsk::server_handling::{
    after_login_messages, login_message, request_message, server_action, ServerAction, ServerRequest,
};

fn string_bytes(s: &str) -> Vec<u8> {
    String::from(s).pack_to_bytes()
}

#[test]
fn a_refused_login_is_reported() {
    let mut bytes = vec![0];
    bytes.extend(string_bytes("INVALIDPASS"));
    match server_action(MessageType::Server(1), &mut bytes) {
        ServerAction::Login { success, reason } => {
            assert!(!success);
            assert_eq!(reason, Some(String::from("INVALIDPASS")));
        }
        other => panic!("unexpected {other:?}"),
    }
}

#[test]
fn a_truncated_login_asks_for_nothing() {
    let mut bytes = vec![0, 9, 0];
    assert!(matches!(server_action(MessageType::Server(1), &mut bytes), ServerAction::Nothing));
}

#[test]
fn peer_addresses_and_room_messages() {
    let mut bytes = string_bytes("bob");
    bytes.extend(Ipv4Addr(0x0100007f).pack_to_bytes());
    bytes.extend(2234u32.pack_to_bytes());
    bytes.extend([0u8]);
    bytes.extend(0u32.pack_to_bytes());
    match server_action(MessageType::Server(3), &mut bytes) {
        ServerAction::PeerAddress { username, ip, port } => {
            assert_eq!(username, "bob");
            assert_eq!(ip, Ipv4Addr(0x0100007f));
            assert_eq!(port, 2234);
        }
        other => panic!("unexpected {other:?}"),
    }
    let mut bytes = string_bytes("room");
    bytes.extend(string_bytes("bob"));
    bytes.extend(string_bytes("hello"));
    match server_action(MessageType::Server(13), &mut bytes) {
        ServerAction::ChatroomMessage { room, username, message } => {
            assert_eq!((room.as_str(), username.as_str(), message.as_str()), ("room", "bob", "hello"));
        }
        other => panic!("unexpected {other:?}"),
    }
}

#[test]
fn joined_rooms_pair_users_with_stats() {
    let mut bytes = string_bytes("room");
    bytes.extend(vec![String::from("a"), String::from("b")].pack_to_bytes());
    bytes.extend(vec![2u32, 1u32].pack_to_bytes());
    bytes.extend(1u32.pack_to_bytes());
    bytes.extend(7u32.pack_to_bytes());
    bytes.extend(8u64.pack_to_bytes());
    bytes.extend(9u32.pack_to_bytes());
    bytes.extend(10u32.pack_to_bytes());
    bytes.extend(vec![0u32].pack_to_bytes());
    bytes.extend(vec![String::from("NL")].pack_to_bytes());
    match server_action(MessageType::Server(14), &mut bytes) {
        ServerAction::UpdateRoom { room, stats } => {
            assert_eq!(room, "room");
            assert_eq!(stats.len(), 1);
            assert_eq!(stats[0].0, "a");
            assert_eq!(stats[0].1.avg_speeds, 7);
            assert_eq!(stats[0].1.upload_num, 8);
        }
        other => panic!("unexpected {other:?}"),
    }
}

#[test]
fn room_lists_pair_rooms_with_counts() {
    let mut bytes = vec![String::from("a"), String::from("b")].pack_to_bytes();
    bytes.extend(vec![3u32, 4u32].pack_to_bytes());
    for _ in 0..2 {
        bytes.extend(Vec::<String>::new().pack_to_bytes());
        bytes.extend(Vec::<u32>::new().pack_to_bytes());
    }
    bytes.extend(Vec::<String>::new().pack_to_bytes());
    match server_action(MessageType::Server(64), &mut bytes) {
        ServerAction::RoomList(list) => {
            assert_eq!(list, vec![(String::from("a"), 3), (String::from("b"), 4)]);
        }
        other => panic!("unexpected {other:?}"),
    }
}

fn connect_bytes(kind: ConnectionTypes) -> Vec<u8> {
    let mut bytes = string_bytes("peer");
    bytes.extend(kind.pack_to_bytes());
    bytes.extend(Ipv4Addr(1).pack_to_bytes());
    bytes.extend(2234u32.pack_to_bytes());
    bytes.extend(55u32.pack_to_bytes());
    bytes.extend([0u8]);
    bytes.extend([0u8]);
    bytes.extend(0u32.pack_to_bytes());
    bytes
}

#[test]
fn connection_requests_skip_the_distributed_network() {
    let mut bytes = connect_bytes(ConnectionTypes::FileTransfer);
    match server_action(MessageType::Server(18), &mut bytes) {
        ServerAction::ConnectToPeer(m) => {
            assert_eq!(m.username, "peer");
            assert_eq!(m.firewall_token, 55);
        }
        other => panic!("unexpected {other:?}"),
    }
    let mut bytes = connect_bytes(ConnectionTypes::DistributedNetwork);
    assert!(matches!(server_action(MessageType::Server(18), &mut bytes), ServerAction::Nothing));
}

#[test]
fn relogging_and_other_codes() {
    let mut bytes = vec![1, 2, 3];
    assert!(matches!(server_action(MessageType::Server(41), &mut bytes), ServerAction::Relogged));
    assert_eq!(bytes, vec![1, 2, 3]);
    assert!(matches!(server_action(MessageType::Server(5), &mut bytes), ServerAction::Nothing));
    assert_eq!(bytes, vec![1, 2, 3]);
}

#[test]
fn login_messages() {
    let m = login_message(String::from("user"), String::from("pass"));
    assert_eq!(&m[4..8], &[1, 0, 0, 0]);
    let len = u32::from_le_bytes([m[0], m[1], m[2], m[3]]) as usize;
    assert_eq!(len, m.len() - 4);
    assert!(m.windows(32).any(|w| w == b"63e780c3f321d13109c71bf81805476e"));
    let after = after_login_messages(2234, 3, 10);
    assert_eq!(after.len(), 3);
    assert_eq!(after[0], vec![13, 0, 0, 0, 2, 0, 0, 0, 0xba, 8, 0, 0, 0, 0xba, 8, 0, 0]);
    assert_eq!(after[1], vec![12, 0, 0, 0, 35, 0, 0, 0, 3, 0, 0, 0, 10, 0, 0, 0]);
    assert_eq!(after[2], vec![4, 0, 0, 0, 64, 0, 0, 0]);
}

#[test]
fn peers_asking_for_shares() {
    let mut bytes = Vec::new();
    assert!(matches!(peer_action(MessageType::Peer(4), &mut bytes), PeerAction::SendShares));
}

#[test]
fn uploads_to_us_are_accepted() {
    let request = TransferRequest {
        direction: TransferDirections::UploadToPeer,
        token: 7,
        filename: String::from("x.mp3"),
        filesize: Some(123),
    };
    let mut bytes = request.pack_to_bytes();
    match peer_action(MessageType::Peer(40), &mut bytes) {
        PeerAction::AcceptUpload { token, filename, filesize, response } => {
            assert_eq!(token, 7);
            assert_eq!(filename, "x.mp3");
            assert_eq!(filesize, 123);
            assert_eq!(response, vec![9, 0, 0, 0, 41, 0, 0, 0, 7, 0, 0, 0, 1]);
        }
        other => panic!("unexpected {other:?}"),
    }
    let request = TransferRequest {
        direction: TransferDirections::DownloadFromPeer,
        token: 7,
        filename: String::from("x.mp3"),
        filesize: None,
    };
    let mut bytes = request.pack_to_bytes();
    assert!(matches!(peer_action(MessageType::Peer(40), &mut bytes), PeerAction::Nothing));
}

#[test]
fn search_results_and_unknown_codes() {
    let response = FileSearchResponse {
        username: String::from("peer"),
        token: 1,
        files: Vec::new(),
        slot_free: false,
        avg_speed: 0,
        queue_length: 0,
        unknown_0: 0,
        private_files: Some(Vec::new()),
    };
    let mut bytes = response.pack_to_bytes();
    match peer_action(MessageType::Peer(9), &mut bytes) {
        PeerAction::SearchResults(r) => assert_eq!(r.username, "peer"),
        other => panic!("unexpected {other:?}"),
    }
    let mut bytes = vec![1];
    assert!(matches!(peer_action(MessageType::Peer(15), &mut bytes), PeerAction::Nothing));
    assert!(matches!(
        peer_action(MessageType::Peer(99), &mut bytes),
        PeerAction::Unknown(MessageType::Peer(99))
    ));
}

#[test]
fn search_results_are_capped() {
    let mut results = ResultsMap::new();
    assert!(results.count_results(7, 1000));
    assert!(results.count_results(7, 600));
    assert_eq!(results.counted(7), 1600);
    assert!(!results.count_results(7, 1));
    assert_eq!(results.counted(7), 1600);
    assert!(results.count_results(8, MAX_RESULTS));
    assert_eq!(results.counted(9), 0);
}

#[test]
fn incoming_connections() {
    let init = PeerInit {
        username: String::from("peer"),
        connection_type: ConnectionTypes::PeerToPeer,
        token: 3,
    };
    let mut bytes = init.pack_to_bytes();
    match listener_action(MessageType::PeerInit(1), &mut bytes) {
        ListenerAction::Direct(p) => {
            assert_eq!(p.username, "peer");
            assert_eq!(p.token, 3);
        }
        other => panic!("unexpected {other:?}"),
    }
    let mut bytes = 5u32.pack_to_bytes();
    match listener_action(MessageType::PeerInit(0), &mut bytes) {
        ListenerAction::PierceFireWall(p) => assert_eq!(p.token, 5),
        other => panic!("unexpected {other:?}"),
    }
    let mut bytes = Vec::new();
    assert!(matches!(listener_action(MessageType::PeerInit(1), &mut bytes), ListenerAction::Nothing));
}

#[test]
fn downloads_report_whole_percentages() {
    let mut p = DownloadProgress::new(1000, 0);
    assert_eq!(p.next_chunk_len(), 1000);
    assert_eq!(p.on_chunk(250), ChunkOutcome::Progress(25));
    assert_eq!(p.on_chunk(5), ChunkOutcome::Same);
    assert_eq!(p.percentage, 25);
    assert_eq!(p.next_chunk_len(), 745);
    assert_eq!(p.on_chunk(745), ChunkOutcome::Complete);
    let big = DownloadProgress::new(10_000_000, 0);
    assert_eq!(big.next_chunk_len(), CHUNK_SIZE);
    let mut empty = DownloadProgress::new(0, 0);
    assert_eq!(empty.next_chunk_len(), 0);
    assert_eq!(empty.on_chunk(0), ChunkOutcome::Complete);
}

#[test]
fn a_download_moves_from_starting_to_complete_or_failed() {
    let mut p = DownloadProgress::new(100, 0);
    assert_eq!(p.status, DownloadStatus::Starting);
    p.begin_read();
    assert_eq!(p.status, DownloadStatus::Downloading);
    p.on_chunk(40);
    assert_eq!((p.status, p.percentage), (DownloadStatus::Downloading, 40));
    p.begin_read();
    assert_eq!(p.on_chunk(60), ChunkOutcome::Complete);
    assert_eq!((p.status, p.percentage), (DownloadStatus::Complete, 100));
    let mut q = DownloadProgress::new(100, 0);
    q.begin_read();
    q.on_chunk(10);
    q.on_read_error();
    assert_eq!((q.status, q.percentage, q.downloaded), (DownloadStatus::Failed, 10, 10));
}

#[test]
fn server_settings() {
    let server = Server::default();
    assert_eq!(server.to_string(), "server.slsknet.org:2242");
    assert!(server.auto_connect);
    let mut config = Config::default();
    assert!(!config.should_auto_login());
    config.user = User { name: String::from("u"), password: String::from("p"), port: 2234 };
    assert!(config.should_auto_login());
    config.server.auto_connect = false;
    assert!(!config.should_auto_login());
}

#[test]
fn requests_become_server_messages() {
    let join = request_message(ServerRequest::JoinRoom { room: String::from("r"), private: 0 }).unwrap();
    // length, code 14, the room's length and name, then the private flag
    assert_eq!(join, vec![13, 0, 0, 0, 14, 0, 0, 0, 1, 0, 0, 0, b'r', 0, 0, 0, 0]);
    let leave = request_message(ServerRequest::LeaveRoom { room: String::from("r") }).unwrap();
    assert_eq!(leave, vec![9, 0, 0, 0, 15, 0, 0, 0, 1, 0, 0, 0, b'r']);
    assert!(request_message(ServerRequest::ChatroomMessage {
        room: String::from("r"),
        username: Some(String::from("u")),
        message: String::from("m"),
    })
    .is_none());
    let say = request_message(ServerRequest::ChatroomMessage {
        room: String::from("r"),
        username: None,
        message: String::from("m"),
    })
    .unwrap();
    assert_eq!(&say[4..8], &[13, 0, 0, 0]);
    let search = request_message(ServerRequest::FileSearch { query: String::from("q"), token: 5 }).unwrap();
    assert_eq!(search, vec![13, 0, 0, 0, 26, 0, 0, 0, 5, 0, 0, 0, 1, 0, 0, 0, b'q']);
    let info = request_message(ServerRequest::GetInfo(String::from("u"))).unwrap();
    assert_eq!(&info[4..8], &[3, 0, 0, 0]);
}

#[test]
fn a_login_answer_ends_or_keeps_the_session() {
    let mut session = Session::new();
    assert_eq!(session.on_login(false, &String::from("me")), Some(SessionEnd::LoginFail));
    assert_eq!(session.username, Some(String::from("me")));
    assert_eq!(session.on_login(true, &String::from("you")), None);
    assert_eq!(session.username, Some(String::from("me")));
    session.try_login(String::from("other"));
    assert_eq!(session.on_login(true, &String::from("me")), None);
    assert_eq!(session.username, Some(String::from("other")));
    assert_eq!(session.on_relogged(), SessionEnd::OtherLogin);
}

#[test]
fn connections_wait_for_the_address_and_are_released_in_order() {
    let mut peers = Peers::new();
    assert_eq!(peers.connect(String::from("amy"), 1, ConnectionTypes::PeerToPeer), ConnectStep::AskAddress);
    assert_eq!(peers.connect(String::from("bob"), 2, ConnectionTypes::FileTransfer), ConnectStep::AskAddress);
    assert_eq!(peers.connect(String::from("amy"), 3, ConnectionTypes::FileTransfer), ConnectStep::AskAddress);
    let released = peers.on_address(String::from("amy"), Ipv4Addr(0x7f000001), 2234);
    assert_eq!(released, vec![(1, ConnectionTypes::PeerToPeer), (3, ConnectionTypes::FileTransfer)]);
    assert_eq!(peers.pending.len(), 1);
    assert_eq!(peers.pending[0].0, "bob");
    assert_eq!(
        peers.connect(String::from("amy"), 4, ConnectionTypes::PeerToPeer),
        ConnectStep::ConnectNow { ip: Ipv4Addr(0x7f000001), port: 2234 }
    );
    peers.on_address(String::from("amy"), Ipv4Addr(1), 5);
    assert_eq!(peers.address(&String::from("amy")), Some((Ipv4Addr(1), 5)));
    assert_eq!(peers.address(&String::from("zed")), None);
}

#[test]
fn held_items_come_back_in_order_for_their_token() {
    let mut held: TokenQueues<u8> = TokenQueues::new();
    held.push(1, 10);
    held.push(2, 20);
    held.push(1, 11);
    assert_eq!(held.pop_front(1), Some(10));
    assert_eq!(held.take(1), vec![11]);
    assert_eq!(held.take(1), Vec::<u8>::new());
    assert_eq!(held.pop_front(3), None);
    assert_eq!(held.take(2), vec![20]);
}
