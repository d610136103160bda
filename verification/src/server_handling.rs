//! What the client does with a message read from the server, and what it
//! writes to the server for a request of the interface: the decisions, apart
//! from the reading and the sending.
use vstd::prelude::*;

use crate::constants::ConnectionTypes;
use crate::messages::server::{
    FileSearch, GetPeerAddress, JoinRoom, LeaveRoom, Login, RoomList, SayChatroom, SetWaitPort,
    SharedFoldersFiles, _SendFileSearch, _SendGetPeerAddress, _SendJoinRoom, _SendLeaveRoom,
    _SendLogin, _SendRoomList, _SendSayChatroom,
    CantConnectToPeer, CantConnectToPeerModel, UserStats, _ReceiveConnectToPeer,
    _ReceiveConnectToPeerModel, _ReceiveGetPeerAddress, _ReceiveJoinRoom, _ReceiveLogin,
    _ReceiveRoomList, _ReceiveSayChatroom,
};
use crate::messages::{frame, MessageTrait, MessageType};
use crate::packing::{Ipv4Addr, PackToBytes, UnpackFromBytes};

verus! {

/// What to do about a message from the server.
#[derive(Debug)]
pub enum ServerAction {
    /// The answer to a login: report it; on failure stop the connection.
    Login { success: bool, reason: Option<String> },
    /// Remember where a user can be reached.
    PeerAddress { username: String, ip: Ipv4Addr, port: u32 },
    /// Show what a user said in a room.
    ChatroomMessage { room: String, username: String, message: String },
    /// Show the users of a room just joined, each with their statistics.
    UpdateRoom { room: String, stats: Vec<(String, UserStats)> },
    /// Connect to a peer that the server says wants to reach us.
    ConnectToPeer(_ReceiveConnectToPeer),
    /// The account logged in elsewhere: stop.
    Relogged,
    /// Show the public rooms, each with its number of users.
    RoomList(Vec<(String, u32)>),
    /// The server could not connect us to a peer.
    CantConnectToPeer(Option<CantConnectToPeer>),
    /// Nothing to do.
    Nothing,
}

/// A [`ServerAction`] as a value.
pub enum ServerActionModel {
    Login { success: bool, reason: Option<Seq<char>> },
    PeerAddress { username: Seq<char>, ip: Ipv4Addr, port: u32 },
    ChatroomMessage { room: Seq<char>, username: Seq<char>, message: Seq<char> },
    UpdateRoom { room: Seq<char>, stats: Seq<(Seq<char>, UserStats)> },
    ConnectToPeer(_ReceiveConnectToPeerModel),
    Relogged,
    RoomList(Seq<(Seq<char>, u32)>),
    CantConnectToPeer(Option<CantConnectToPeerModel>),
    Nothing,
}

impl DeepView for ServerAction {
    type V = ServerActionModel;

    open spec fn deep_view(&self) -> ServerActionModel {
        match self {
            ServerAction::Login { success, reason } => ServerActionModel::Login {
                success: *success,
                reason: reason.deep_view(),
            },
            ServerAction::PeerAddress { username, ip, port } => ServerActionModel::PeerAddress {
                username: username@,
                ip: *ip,
                port: *port,
            },
            ServerAction::ChatroomMessage { room, username, message } =>
                ServerActionModel::ChatroomMessage {
                room: room@,
                username: username@,
                message: message@,
            },
            ServerAction::UpdateRoom { room, stats } => ServerActionModel::UpdateRoom {
                room: room@,
                stats: stats.deep_view(),
            },
            ServerAction::ConnectToPeer(m) => ServerActionModel::ConnectToPeer(m.deep_view()),
            ServerAction::Relogged => ServerActionModel::Relogged,
            ServerAction::RoomList(l) => ServerActionModel::RoomList(l.deep_view()),
            ServerAction::CantConnectToPeer(m) => ServerActionModel::CantConnectToPeer(
                m.deep_view(),
            ),
            ServerAction::Nothing => ServerActionModel::Nothing,
        }
    }
}

/// Pairs the entries of two lists, as far as the shorter one goes.
pub open spec fn zip_seqs<A, B>(a: Seq<A>, b: Seq<B>) -> Seq<(A, B)> {
    Seq::new(
        if a.len() <= b.len() {
            a.len()
        } else {
            b.len()
        },
        |i: int| (a[i], b[i]),
    )
}

fn zip_users(names: Vec<String>, stats: Vec<UserStats>) -> (r: Vec<(String, UserStats)>)
    ensures
        r.deep_view() == zip_seqs(names.deep_view(), stats.deep_view()),
{
    let n = if names.len() <= stats.len() {
        names.len()
    } else {
        stats.len()
    };
    let mut r: Vec<(String, UserStats)> = Vec::new();
    let mut i: usize = 0;
    while i < n
        invariant
            n <= names@.len(),
            n <= stats@.len(),
            n == (if names@.len() <= stats@.len() {
                names@.len()
            } else {
                stats@.len()
            }),
            i <= n,
            r@.len() == i,
            forall|j: int|
                0 <= j < i ==> (#[trigger] r@[j]).0@ == names@[j]@ && r@[j].1 == stats@[j],
        decreases n - i,
    {
        r.push((names[i].clone(), stats[i]));
        i = i + 1;
    }
    assert(r.deep_view() =~= zip_seqs(names.deep_view(), stats.deep_view()));
    r
}

fn zip_rooms(rooms: Vec<String>, counts: Vec<u32>) -> (r: Vec<(String, u32)>)
    ensures
        r.deep_view() == zip_seqs(rooms.deep_view(), counts.deep_view()),
{
    let n = if rooms.len() <= counts.len() {
        rooms.len()
    } else {
        counts.len()
    };
    let mut r: Vec<(String, u32)> = Vec::new();
    let mut i: usize = 0;
    while i < n
        invariant
            n <= rooms@.len(),
            n <= counts@.len(),
            n == (if rooms@.len() <= counts@.len() {
                rooms@.len()
            } else {
                counts@.len()
            }),
            i <= n,
            r@.len() == i,
            forall|j: int|
                0 <= j < i ==> (#[trigger] r@[j]).0@ == rooms@[j]@ && r@[j].1 == counts@[j],
        decreases n - i,
    {
        r.push((rooms[i].clone(), counts[i]));
        i = i + 1;
    }
    assert(r.deep_view() =~= zip_seqs(rooms.deep_view(), counts.deep_view()));
    r
}

/// What a message from the server with code `code` and payload `bytes`
/// asks for, and the bytes that are left after it is read: the login
/// answer (1), a peer's address (3), a room message (13), a joined room
/// (14), a connection request other than to the distributed network (18),
/// a login elsewhere (41), the room list (64), a failed connection (1001).
/// A payload that cannot be read asks for nothing; other codes are not
/// read.
pub open spec fn spec_server_action(code: MessageType, bytes: Seq<u8>) -> (
    ServerActionModel,
    Seq<u8>,
) {
    match code {
        MessageType::Server(1) => match _ReceiveLogin::spec_unpack(bytes) {
            (Some(m), rest) => (
                ServerActionModel::Login { success: m.success, reason: m.failure_reason },
                rest,
            ),
            (None, rest) => (ServerActionModel::Nothing, rest),
        },
        MessageType::Server(3) => match _ReceiveGetPeerAddress::spec_unpack(bytes) {
            (Some(m), rest) => (
                ServerActionModel::PeerAddress { username: m.username, ip: m.ip, port: m.port },
                rest,
            ),
            (None, rest) => (ServerActionModel::Nothing, rest),
        },
        MessageType::Server(13) => match _ReceiveSayChatroom::spec_unpack(bytes) {
            (Some(m), rest) => (
                ServerActionModel::ChatroomMessage {
                    room: m.room,
                    username: m.username,
                    message: m.message,
                },
                rest,
            ),
            (None, rest) => (ServerActionModel::Nothing, rest),
        },
        MessageType::Server(14) => match _ReceiveJoinRoom::spec_unpack(bytes) {
            (Some(m), rest) => (
                ServerActionModel::UpdateRoom {
                    room: m.room,
                    stats: zip_seqs(m.usernames, m.stats),
                },
                rest,
            ),
            (None, rest) => (ServerActionModel::Nothing, rest),
        },
        MessageType::Server(18) => match _ReceiveConnectToPeer::spec_unpack(bytes) {
            (Some(m), rest) => if m.connection_type is DistributedNetwork {
                (ServerActionModel::Nothing, rest)
            } else {
                (ServerActionModel::ConnectToPeer(m), rest)
            },
            (None, rest) => (ServerActionModel::Nothing, rest),
        },
        MessageType::Server(41) => (ServerActionModel::Relogged, bytes),
        MessageType::Server(64) => match _ReceiveRoomList::spec_unpack(bytes) {
            (Some(m), rest) => (
                ServerActionModel::RoomList(zip_seqs(m.rooms, m.num_of_users)),
                rest,
            ),
            (None, rest) => (ServerActionModel::Nothing, rest),
        },
        MessageType::Server(1001) => match CantConnectToPeer::spec_unpack(bytes) {
            (m, rest) => (ServerActionModel::CantConnectToPeer(m), rest),
        },
        _ => (ServerActionModel::Nothing, bytes),
    }
}

fn login_action(bytes: &mut Vec<u8>) -> (r: ServerAction)
    ensures
        (r.deep_view(), final(bytes)@) == spec_server_action(MessageType::Server(1), old(bytes)@),
{
    match _ReceiveLogin::unpack_from_bytes(bytes) {
        Some(m) => ServerAction::Login { success: m.success, reason: m.failure_reason },
        None => ServerAction::Nothing,
    }
}

fn peer_address_action(bytes: &mut Vec<u8>) -> (r: ServerAction)
    ensures
        (r.deep_view(), final(bytes)@) == spec_server_action(MessageType::Server(3), old(bytes)@),
{
    match _ReceiveGetPeerAddress::unpack_from_bytes(bytes) {
        Some(m) => ServerAction::PeerAddress { username: m.username, ip: m.ip, port: m.port },
        None => ServerAction::Nothing,
    }
}

fn chatroom_message_action(bytes: &mut Vec<u8>) -> (r: ServerAction)
    ensures
        (r.deep_view(), final(bytes)@) == spec_server_action(MessageType::Server(13), old(bytes)@),
{
    match _ReceiveSayChatroom::unpack_from_bytes(bytes) {
        Some(m) => ServerAction::ChatroomMessage {
            room: m.room,
            username: m.username,
            message: m.message,
        },
        None => ServerAction::Nothing,
    }
}

fn join_room_action(bytes: &mut Vec<u8>) -> (r: ServerAction)
    ensures
        (r.deep_view(), final(bytes)@) == spec_server_action(MessageType::Server(14), old(bytes)@),
{
    match _ReceiveJoinRoom::unpack_from_bytes(bytes) {
        Some(m) => ServerAction::UpdateRoom {
            room: m.room,
            stats: zip_users(m.usernames, m.stats),
        },
        None => ServerAction::Nothing,
    }
}

/// A connection request that the server relays is taken up unless it is
/// for the distributed network: for a peer-to-peer or a file-transfer
/// request, the request read is handed back to be connected to; only a
/// distributed-network request is passed over. What follows the request is
/// left either way.
pub proof fn lemma_connection_requests_taken_up(bytes: Seq<u8>)
    ensures
        _ReceiveConnectToPeer::spec_unpack(bytes).0 matches Some(m) ==> {
            &&& spec_server_action(MessageType::Server(18), bytes).1 == _ReceiveConnectToPeer::spec_unpack(
                bytes,
            ).1
            &&& (m.connection_type is PeerToPeer || m.connection_type is FileTransfer) ==> spec_server_action(
                MessageType::Server(18),
                bytes,
            ).0 == ServerActionModel::ConnectToPeer(m)
            &&& m.connection_type is DistributedNetwork ==> spec_server_action(
                MessageType::Server(18),
                bytes,
            ).0 == ServerActionModel::Nothing
        },
{
}

fn connect_action(bytes: &mut Vec<u8>) -> (r: ServerAction)
    ensures
        (r.deep_view(), final(bytes)@) == spec_server_action(MessageType::Server(18), old(bytes)@),
{
    match _ReceiveConnectToPeer::unpack_from_bytes(bytes) {
        Some(m) => match m.connection_type {
            ConnectionTypes::PeerToPeer => ServerAction::ConnectToPeer(m),
            ConnectionTypes::FileTransfer => ServerAction::ConnectToPeer(m),
            ConnectionTypes::DistributedNetwork => ServerAction::Nothing,
        },
        None => ServerAction::Nothing,
    }
}

fn room_list_action(bytes: &mut Vec<u8>) -> (r: ServerAction)
    ensures
        (r.deep_view(), final(bytes)@) == spec_server_action(MessageType::Server(64), old(bytes)@),
{
    match _ReceiveRoomList::unpack_from_bytes(bytes) {
        Some(m) => ServerAction::RoomList(zip_rooms(m.rooms, m.num_of_users)),
        None => ServerAction::Nothing,
    }
}

fn cant_connect_action(bytes: &mut Vec<u8>) -> (r: ServerAction)
    ensures
        (r.deep_view(), final(bytes)@) == spec_server_action(
            MessageType::Server(1001),
            old(bytes)@,
        ),
{
    ServerAction::CantConnectToPeer(CantConnectToPeer::unpack_from_bytes(bytes))
}

/// Reads a message from the server and decides what to do about it.
pub fn server_action(code: MessageType, bytes: &mut Vec<u8>) -> (r: ServerAction)
    ensures
        (r.deep_view(), final(bytes)@) == spec_server_action(code, old(bytes)@),
{
    match code {
        MessageType::Server(1) => login_action(bytes),
        MessageType::Server(3) => peer_address_action(bytes),
        MessageType::Server(13) => chatroom_message_action(bytes),
        MessageType::Server(14) => join_room_action(bytes),
        MessageType::Server(18) => connect_action(bytes),
        MessageType::Server(41) => ServerAction::Relogged,
        MessageType::Server(64) => room_list_action(bytes),
        MessageType::Server(1001) => cant_connect_action(bytes),
        _ => ServerAction::Nothing,
    }
}

/// The login message for a user: name, password, client version and the
/// MD5 hash of name and password.
pub fn login_message(username: String, password: String) -> (r: Vec<u8>)
    ensures
        exists|m: _SendLogin|
            {
                &&& m.username@ == username@
                &&& m.password@ == password@
                &&& m.version == crate::constants::MAJOR_VERSION
                &&& m.minor_version == crate::constants::MINOR_VERSION
                &&& m.hash@ == crate::utils::hex_lower(
                    crate::utils::md5(crate::packing::utf8_bytes(username@ + password@)),
                )
                &&& m.hash@.len() == 32
                &&& r@ == frame(MessageType::Server(1), _SendLogin::spec_pack(m.deep_view()))
            },
{
    let m = _SendLogin::new(username, password);
    let ghost gm = m;
    let r = Login::to_bytes(m);
    assert(r@ == frame(MessageType::Server(1), _SendLogin::spec_pack(gm.deep_view())));
    r
}

/// What the client tells the server once logged in, in order: the port it
/// listens on (without obfuscation), how many folders and files it shares,
/// and a request for the room list.
pub fn after_login_messages(port: u32, dirs: u32, files: u32) -> (r: Vec<Vec<u8>>)
    ensures
        r@.len() == 3,
        r@[0]@ == frame(
            MessageType::Server(2),
            SetWaitPort::spec_pack(
                SetWaitPort { port, use_obfuscation: false, obfuscated_port: port }.deep_view(),
            ),
        ),
        r@[1]@ == frame(
            MessageType::Server(35),
            SharedFoldersFiles::spec_pack(SharedFoldersFiles { dirs, files }.deep_view()),
        ),
        r@[2]@ == frame(MessageType::Server(64), _SendRoomList::spec_pack(_SendRoomList {  }.deep_view())),
{
    let mut r: Vec<Vec<u8>> = Vec::new();
    r.push(SetWaitPort::to_bytes(SetWaitPort { port, use_obfuscation: false, obfuscated_port: port }));
    r.push(SharedFoldersFiles::to_bytes(SharedFoldersFiles { dirs, files }));
    r.push(RoomList::to_bytes(_SendRoomList {  }));
    r
}

/// A request of the interface that the server is told about.
#[derive(Debug)]
pub enum ServerRequest {
    JoinRoom { room: String, private: u32 },
    LeaveRoom { room: String },
    /// A message said in a room: by us when no user is given; a message of
    /// another user is only shown.
    ChatroomMessage { room: String, username: Option<String>, message: String },
    FileSearch { query: String, token: u32 },
    /// Ask where a user can be reached.
    GetInfo(String),
}

/// The message written to the server for a request, if any: joining or
/// leaving a room, saying something in a room (only our own messages), a
/// file search, or asking for a user's address.
pub fn request_message(request: ServerRequest) -> (r: Option<Vec<u8>>)
    ensures
        match request {
            ServerRequest::JoinRoom { room, private } => r matches Some(b) && b@ == frame(
                MessageType::Server(14),
                _SendJoinRoom::spec_pack(_SendJoinRoom { room, private }.deep_view()),
            ),
            ServerRequest::LeaveRoom { room } => r matches Some(b) && b@ == frame(
                MessageType::Server(15),
                _SendLeaveRoom::spec_pack(_SendLeaveRoom { room }.deep_view()),
            ),
            ServerRequest::ChatroomMessage { room, username, message } => match username {
                Some(_) => r is None,
                None => r matches Some(b) && b@ == frame(
                    MessageType::Server(13),
                    _SendSayChatroom::spec_pack(_SendSayChatroom { room, message }.deep_view()),
                ),
            },
            ServerRequest::FileSearch { query, token } => r matches Some(b) && b@ == frame(
                MessageType::Server(26),
                _SendFileSearch::spec_pack(_SendFileSearch { token, search_query: query }.deep_view()),
            ),
            ServerRequest::GetInfo(username) => r matches Some(b) && b@ == frame(
                MessageType::Server(3),
                _SendGetPeerAddress::spec_pack(_SendGetPeerAddress { username }.deep_view()),
            ),
        },
{
    match request {
        ServerRequest::JoinRoom { room, private } => Some(JoinRoom::to_bytes(_SendJoinRoom { room, private })),
        ServerRequest::LeaveRoom { room } => Some(LeaveRoom::to_bytes(_SendLeaveRoom { room })),
        ServerRequest::ChatroomMessage { room, username, message } => match username {
            Some(_) => None,
            None => Some(SayChatroom::to_bytes(_SendSayChatroom { room, message })),
        },
        ServerRequest::FileSearch { query, token } => Some(
            FileSearch::to_bytes(_SendFileSearch { token, search_query: query }),
        ),
        ServerRequest::GetInfo(username) => Some(GetPeerAddress::to_bytes(_SendGetPeerAddress { username })),
    }
}

} // verus!
