//! Messages exchanged with the server.
use vstd::prelude::*;

use super::{MessageTrait, MessageType};
use crate::constants::{UserStatusCodes, ConnectionTypes, MAJOR_VERSION, MINOR_VERSION};
use crate::packing::{
    lemma_bool_roundtrip, lemma_string_roundtrip, lemma_u32_roundtrip, lemma_vec_roundtrip,
    roundtrips, utf8_bytes, Ipv4Addr, IsntReceived, IsntSent, PackToBytes, UnpackFromBytes,
};
use crate::utils::{hex_lower, md5, md5_digest, push_str};

verus! {

/// Logging in to the server.
pub struct Login;
#[derive(Debug, Clone)]
pub struct _SendLogin {
    pub username: String,
    pub password: String,
    pub version: u32,
    pub hash: String,
    pub minor_version: u32,
}

/// The value of a [`_SendLogin`], with texts and lists as sequences.
pub struct _SendLoginModel {
    pub username: Seq<char>,
    pub password: Seq<char>,
    pub version: u32,
    pub hash: Seq<char>,
    pub minor_version: u32,
}

impl DeepView for _SendLogin {
    type V = _SendLoginModel;

    open spec fn deep_view(&self) -> _SendLoginModel {
        _SendLoginModel {
            username: self.username.deep_view(),
            password: self.password.deep_view(),
            version: self.version.deep_view(),
            hash: self.hash.deep_view(),
            minor_version: self.minor_version.deep_view(),
        }
    }
}

impl PackToBytes for _SendLogin {
    /// The fields, one after the other.
    open spec fn spec_pack(v: _SendLoginModel) -> Seq<u8> {
        String::spec_pack(v.username) + String::spec_pack(v.password) + u32::spec_pack(v.version) + String::spec_pack(v.hash) + u32::spec_pack(v.minor_version)
    }

    fn pack_to_bytes(&self) -> (r: Vec<u8>) {
        let mut bytes: Vec<u8> = Vec::new();
        let mut username = self.username.pack_to_bytes();
        bytes.append(&mut username);
        let mut password = self.password.pack_to_bytes();
        bytes.append(&mut password);
        let mut version = self.version.pack_to_bytes();
        bytes.append(&mut version);
        let mut hash = self.hash.pack_to_bytes();
        bytes.append(&mut hash);
        let mut minor_version = self.minor_version.pack_to_bytes();
        bytes.append(&mut minor_version);
        assert(bytes@ =~= Self::spec_pack(self.deep_view()));
        bytes
    }
}
/// A login's bytes carry, one after the other, the user name, the
/// password, the version, the hash and the minor version: reading a string
/// gives the user name, another the password, then a number the version, a
/// string the hash, and a number the minor version, with nothing left.
pub proof fn lemma_login_fields_in_order(m: _SendLoginModel)
    requires
        utf8_bytes(m.username).len() <= u32::MAX,
        utf8_bytes(m.password).len() <= u32::MAX,
        utf8_bytes(m.hash).len() <= u32::MAX,
    ensures
        ({
            let b = _SendLogin::spec_pack(m);
            let (name, b1) = String::spec_unpack(b);
            let (password, b2) = String::spec_unpack(b1);
            let (version, b3) = u32::spec_unpack(b2);
            let (hash, b4) = String::spec_unpack(b3);
            let (minor, b5) = u32::spec_unpack(b4);
            &&& name == Some(m.username)
            &&& password == Some(m.password)
            &&& version == Some(m.version)
            &&& hash == Some(m.hash)
            &&& minor == Some(m.minor_version)
            &&& b5.len() == 0
        }),
{
    lemma_string_roundtrip(m.username);
    lemma_string_roundtrip(m.password);
    lemma_string_roundtrip(m.hash);
    lemma_u32_roundtrip(m.version);
    lemma_u32_roundtrip(m.minor_version);
    let empty = Seq::<u8>::empty();
    let t4 = u32::spec_pack(m.minor_version) + empty;
    let t3 = String::spec_pack(m.hash) + t4;
    let t2 = u32::spec_pack(m.version) + t3;
    let t1 = String::spec_pack(m.password) + t2;
    let t0 = String::spec_pack(m.username) + t1;
    assert(_SendLogin::spec_pack(m) =~= t0);
    assert(String::spec_unpack(t0) == (Some(m.username), t1));
    assert(String::spec_unpack(t1) == (Some(m.password), t2));
    assert(u32::spec_unpack(t2) == (Some(m.version), t3));
    assert(String::spec_unpack(t3) == (Some(m.hash), t4));
    assert(u32::spec_unpack(t4) == (Some(m.minor_version), empty));
}

impl _SendLogin {
    /// A login for `username`: the hash is the MD5 digest, in 32 lower-case
    /// hexadecimal digits, of the user name followed by the password.
    pub fn new(username: String, password: String) -> (r: Self)
        ensures
            r.username@ == username@,
            r.password@ == password@,
            r.version == MAJOR_VERSION,
            r.minor_version == MINOR_VERSION,
            r.hash@ == hex_lower(md5(utf8_bytes(username@ + password@))),
            r.hash@.len() == 32,
    {
        let mut hash = username.clone();
        push_str(&mut hash, password.as_str());
        let digest = md5_digest(hash.as_str().as_bytes());
        _SendLogin {
            username,
            password,
            version: MAJOR_VERSION,
            hash: digest,
            minor_version: MINOR_VERSION,
        }
    }
}

/// The server's answer to a login: on success a greeting, the user's
/// address, a hash and whether the user is a supporter; on failure a reason.
#[derive(Debug, Clone)]
pub struct _ReceiveLogin {
    pub success: bool,
    pub greet: Option<String>,
    pub failure_reason: Option<String>,
    pub ip: Option<Ipv4Addr>,
    pub hash: Option<String>,
    pub is_supporter: Option<bool>,
}

/// The value of a [`_ReceiveLogin`].
pub struct _ReceiveLoginModel {
    pub success: bool,
    pub greet: Option<Seq<char>>,
    pub failure_reason: Option<Seq<char>>,
    pub ip: Option<Ipv4Addr>,
    pub hash: Option<Seq<char>>,
    pub is_supporter: Option<bool>,
}

impl DeepView for _ReceiveLogin {
    type V = _ReceiveLoginModel;

    open spec fn deep_view(&self) -> _ReceiveLoginModel {
        _ReceiveLoginModel {
            success: self.success,
            greet: self.greet.deep_view(),
            failure_reason: self.failure_reason.deep_view(),
            ip: self.ip,
            hash: self.hash.deep_view(),
            is_supporter: self.is_supporter,
        }
    }
}

impl _ReceiveLogin {
    /// What follows a successful login: greeting, address, hash, supporter.
    pub open spec fn spec_unpack_success(bytes: Seq<u8>) -> (
        Option<(Seq<char>, Ipv4Addr, Seq<char>, bool)>,
        Seq<u8>,
    ) {
        match String::spec_unpack(bytes) {
            (Some(greet), r1) => match Ipv4Addr::spec_unpack(r1) {
                (Some(ip), r2) => match String::spec_unpack(r2) {
                    (Some(hash), r3) => match bool::spec_unpack(r3) {
                        (Some(is_supporter), r4) => (Some((greet, ip, hash, is_supporter)), r4),
                        (None, r4) => (None, r4),
                    },
                    (None, r3) => (None, r3),
                },
                (None, r2) => (None, r2),
            },
            (None, r1) => (None, r1),
        }
    }
}

impl UnpackFromBytes for _ReceiveLogin {
    /// A success flag, then the success fields or the failure reason.
    open spec fn spec_unpack(bytes: Seq<u8>) -> (Option<_ReceiveLoginModel>, Seq<u8>) {
        match bool::spec_unpack(bytes) {
            (Some(success), r0) => if success {
                match Self::spec_unpack_success(r0) {
                    (Some(s), r4) => (
                        Some(
                            _ReceiveLoginModel {
                                success,
                                greet: Some(s.0),
                                failure_reason: None,
                                ip: Some(s.1),
                                hash: Some(s.2),
                                is_supporter: Some(s.3),
                            },
                        ),
                        r4,
                    ),
                    (None, r4) => (None, r4),
                }
            } else {
                match String::spec_unpack(r0) {
                    (Some(reason), r1) => (
                        Some(
                            _ReceiveLoginModel {
                                success,
                                greet: None,
                                failure_reason: Some(reason),
                                ip: None,
                                hash: None,
                                is_supporter: None,
                            },
                        ),
                        r1,
                    ),
                    (None, r1) => (None, r1),
                }
            },
            (None, r0) => (None, r0),
        }
    }

    fn unpack_from_bytes(stream: &mut Vec<u8>) -> (r: Option<Self>) {
        let success = bool::unpack_from_bytes(stream)?;
        if success {
            let greet = String::unpack_from_bytes(stream)?;
            let ip = Ipv4Addr::unpack_from_bytes(stream)?;
            let hash = String::unpack_from_bytes(stream)?;
            let is_supporter = bool::unpack_from_bytes(stream)?;
            Some(
                _ReceiveLogin {
                    success,
                    greet: Some(greet),
                    failure_reason: None,
                    ip: Some(ip),
                    hash: Some(hash),
                    is_supporter: Some(is_supporter),
                },
            )
        } else {
            let reason = String::unpack_from_bytes(stream)?;
            Some(
                _ReceiveLogin {
                    success,
                    greet: None,
                    failure_reason: Some(reason),
                    ip: None,
                    hash: None,
                    is_supporter: None,
                },
            )
        }
    }
}

impl MessageTrait for Login {
    type ToSend = _SendLogin;

    type ToReceive = _ReceiveLogin;

    open spec fn spec_code() -> MessageType {
        MessageType::Server(1)
    }

    fn code() -> (c: MessageType) {
        MessageType::Server(1)
    }
}

#[derive(Debug, Clone, Copy, PartialEq, Eq)]
pub struct SetWaitPort {
    pub port: u32,
    pub use_obfuscation: bool,
    pub obfuscated_port: u32,
}

impl DeepView for SetWaitPort {
    type V = SetWaitPort;

    open spec fn deep_view(&self) -> SetWaitPort {
        *self
    }
}

impl PackToBytes for SetWaitPort {
    /// The fields, one after the other.
    open spec fn spec_pack(v: SetWaitPort) -> Seq<u8> {
        u32::spec_pack(v.port) + bool::spec_pack(v.use_obfuscation) + u32::spec_pack(v.obfuscated_port)
    }

    fn pack_to_bytes(&self) -> (r: Vec<u8>) {
        let mut bytes: Vec<u8> = Vec::new();
        let mut port = self.port.pack_to_bytes();
        bytes.append(&mut port);
        let mut use_obfuscation = self.use_obfuscation.pack_to_bytes();
        bytes.append(&mut use_obfuscation);
        let mut obfuscated_port = self.obfuscated_port.pack_to_bytes();
        bytes.append(&mut obfuscated_port);
        assert(bytes@ =~= Self::spec_pack(self.deep_view()));
        bytes
    }
}
impl MessageTrait for SetWaitPort {
    type ToSend = SetWaitPort;

    type ToReceive = IsntReceived;

    open spec fn spec_code() -> MessageType {
        MessageType::Server(2)
    }

    fn code() -> (c: MessageType) {
        MessageType::Server(2)
    }
}

#[derive(Debug, Clone)]
pub struct _SendGetPeerAddress {
    pub username: String,
}

/// The value of a [`_SendGetPeerAddress`], with texts and lists as sequences.
pub struct _SendGetPeerAddressModel {
    pub username: Seq<char>,
}

impl DeepView for _SendGetPeerAddress {
    type V = _SendGetPeerAddressModel;

    open spec fn deep_view(&self) -> _SendGetPeerAddressModel {
        _SendGetPeerAddressModel {
            username: self.username.deep_view(),
        }
    }
}

impl PackToBytes for _SendGetPeerAddress {
    /// The fields, one after the other.
    open spec fn spec_pack(v: _SendGetPeerAddressModel) -> Seq<u8> {
        String::spec_pack(v.username)
    }

    fn pack_to_bytes(&self) -> (r: Vec<u8>) {
        let mut bytes: Vec<u8> = Vec::new();
        let mut username = self.username.pack_to_bytes();
        bytes.append(&mut username);
        assert(bytes@ =~= Self::spec_pack(self.deep_view()));
        bytes
    }
}
#[derive(Debug, Clone)]
pub struct _ReceiveGetPeerAddress {
    pub username: String,
    pub ip: Ipv4Addr,
    pub port: u32,
    pub use_obfuscation: bool,
    pub obfuscated_port: u32,
}

/// The value of a [`_ReceiveGetPeerAddress`], with texts and lists as sequences.
pub struct _ReceiveGetPeerAddressModel {
    pub username: Seq<char>,
    pub ip: Ipv4Addr,
    pub port: u32,
    pub use_obfuscation: bool,
    pub obfuscated_port: u32,
}

impl DeepView for _ReceiveGetPeerAddress {
    type V = _ReceiveGetPeerAddressModel;

    open spec fn deep_view(&self) -> _ReceiveGetPeerAddressModel {
        _ReceiveGetPeerAddressModel {
            username: self.username.deep_view(),
            ip: self.ip.deep_view(),
            port: self.port.deep_view(),
            use_obfuscation: self.use_obfuscation.deep_view(),
            obfuscated_port: self.obfuscated_port.deep_view(),
        }
    }
}

impl UnpackFromBytes for _ReceiveGetPeerAddress {
    /// The fields, one after the other; the first failure stops it.
    open spec fn spec_unpack(bytes: Seq<u8>) -> (Option<_ReceiveGetPeerAddressModel>, Seq<u8>) {
        match String::spec_unpack(bytes) {
            (Some(username), r0) => 
                match Ipv4Addr::spec_unpack(r0) {
                    (Some(ip), r1) => 
                        match u32::spec_unpack(r1) {
                            (Some(port), r2) => 
                                match bool::spec_unpack(r2) {
                                    (Some(use_obfuscation), r3) => 
                                        match u32::spec_unpack(r3) {
                                            (Some(obfuscated_port), r4) => (Some(_ReceiveGetPeerAddressModel { username, ip, port, use_obfuscation, obfuscated_port }), r4),
                                            (None, r4) => (None, r4),
                                        },
                                    (None, r3) => (None, r3),
                                },
                            (None, r2) => (None, r2),
                        },
                    (None, r1) => (None, r1),
                },
            (None, r0) => (None, r0),
        }
    }

    fn unpack_from_bytes(bytes: &mut Vec<u8>) -> (r: Option<Self>) {
        let username = String::unpack_from_bytes(bytes)?;
        let ip = Ipv4Addr::unpack_from_bytes(bytes)?;
        let port = u32::unpack_from_bytes(bytes)?;
        let use_obfuscation = bool::unpack_from_bytes(bytes)?;
        let obfuscated_port = u32::unpack_from_bytes(bytes)?;
        Some(_ReceiveGetPeerAddress { username, ip, port, use_obfuscation, obfuscated_port })
    }
}
/// Asking the server for the address of a peer.
pub struct GetPeerAddress;
impl MessageTrait for GetPeerAddress {
    type ToSend = _SendGetPeerAddress;

    type ToReceive = _ReceiveGetPeerAddress;

    open spec fn spec_code() -> MessageType {
        MessageType::Server(3)
    }

    fn code() -> (c: MessageType) {
        MessageType::Server(3)
    }
}

#[derive(Debug, Clone)]
pub struct _SendWatchUser {
    pub username: String,
}

/// The value of a [`_SendWatchUser`], with texts and lists as sequences.
pub struct _SendWatchUserModel {
    pub username: Seq<char>,
}

impl DeepView for _SendWatchUser {
    type V = _SendWatchUserModel;

    open spec fn deep_view(&self) -> _SendWatchUserModel {
        _SendWatchUserModel {
            username: self.username.deep_view(),
        }
    }
}

impl PackToBytes for _SendWatchUser {
    /// The fields, one after the other.
    open spec fn spec_pack(v: _SendWatchUserModel) -> Seq<u8> {
        String::spec_pack(v.username)
    }

    fn pack_to_bytes(&self) -> (r: Vec<u8>) {
        let mut bytes: Vec<u8> = Vec::new();
        let mut username = self.username.pack_to_bytes();
        bytes.append(&mut username);
        assert(bytes@ =~= Self::spec_pack(self.deep_view()));
        bytes
    }
}
/// The server's answer about a watched user: whether the user exists and,
/// if so, the status and statistics (and the country unless offline).
#[derive(Debug, Clone)]
pub struct _ReceiveWatchUser {
    pub username: String,
    pub exists: bool,
    pub status: Option<UserStatusCodes>,
    pub avg_speed: Option<u32>,
    pub upload_num: Option<u64>,
    pub files: Option<u32>,
    pub dirs: Option<u32>,
    pub country_code: Option<String>,
}

/// The value of a [`_ReceiveWatchUser`].
pub struct _ReceiveWatchUserModel {
    pub username: Seq<char>,
    pub exists: bool,
    pub status: Option<UserStatusCodes>,
    pub avg_speed: Option<u32>,
    pub upload_num: Option<u64>,
    pub files: Option<u32>,
    pub dirs: Option<u32>,
    pub country_code: Option<Seq<char>>,
}

impl DeepView for _ReceiveWatchUser {
    type V = _ReceiveWatchUserModel;

    open spec fn deep_view(&self) -> _ReceiveWatchUserModel {
        _ReceiveWatchUserModel {
            username: self.username@,
            exists: self.exists,
            status: self.status,
            avg_speed: self.avg_speed,
            upload_num: self.upload_num,
            files: self.files,
            dirs: self.dirs,
            country_code: self.country_code.deep_view(),
        }
    }
}

impl _ReceiveWatchUser {
    /// The fields of an existing user: status, speed, uploads, files,
    /// folders, and the country unless the status is offline.
    pub open spec fn spec_unpack_details(bytes: Seq<u8>) -> (
        Option<(UserStatusCodes, u32, u64, u32, u32, Option<Seq<char>>)>,
        Seq<u8>,
    ) {
        match UserStatusCodes::spec_unpack(bytes) {
            (Some(status), r2) => match u32::spec_unpack(r2) {
                (Some(avg_speed), r3) => match u64::spec_unpack(r3) {
                    (Some(upload_num), r4) => match u32::spec_unpack(r4) {
                        (Some(files), r5) => match u32::spec_unpack(r5) {
                            (Some(dirs), r6) => if status != UserStatusCodes::Offline {
                                match String::spec_unpack(r6) {
                                    (Some(country), r7) => (
                                        Some(
                                            (
                                                status,
                                                avg_speed,
                                                upload_num,
                                                files,
                                                dirs,
                                                Some(country),
                                            ),
                                        ),
                                        r7,
                                    ),
                                    (None, r7) => (None, r7),
                                }
                            } else {
                                (Some((status, avg_speed, upload_num, files, dirs, None)), r6)
                            },
                            (None, r6) => (None, r6),
                        },
                        (None, r5) => (None, r5),
                    },
                    (None, r4) => (None, r4),
                },
                (None, r3) => (None, r3),
            },
            (None, r2) => (None, r2),
        }
    }

    fn unpack_details(stream: &mut Vec<u8>) -> (r: Option<
        (UserStatusCodes, u32, u64, u32, u32, Option<String>),
    >)
        ensures
            (
                match r {
                    Some(d) => Some((d.0, d.1, d.2, d.3, d.4, d.5.deep_view())),
                    None => None,
                },
                final(stream)@,
            ) == Self::spec_unpack_details(old(stream)@),
    {
        let status = UserStatusCodes::unpack_from_bytes(stream)?;
        let avg_speed = u32::unpack_from_bytes(stream)?;
        let upload_num = u64::unpack_from_bytes(stream)?;
        let files = u32::unpack_from_bytes(stream)?;
        let dirs = u32::unpack_from_bytes(stream)?;
        let country_code = if !matches!(status, UserStatusCodes::Offline) {
            Some(String::unpack_from_bytes(stream)?)
        } else {
            None
        };
        Some((status, avg_speed, upload_num, files, dirs, country_code))
    }
}

impl UnpackFromBytes for _ReceiveWatchUser {
    /// The user name and whether the user exists, then the details of an
    /// existing user.
    open spec fn spec_unpack(bytes: Seq<u8>) -> (Option<_ReceiveWatchUserModel>, Seq<u8>) {
        match String::spec_unpack(bytes) {
            (Some(username), r0) => match bool::spec_unpack(r0) {
                (Some(exists), r1) => if exists {
                    match Self::spec_unpack_details(r1) {
                        (Some(d), r7) => (
                            Some(
                                _ReceiveWatchUserModel {
                                    username,
                                    exists,
                                    status: Some(d.0),
                                    avg_speed: Some(d.1),
                                    upload_num: Some(d.2),
                                    files: Some(d.3),
                                    dirs: Some(d.4),
                                    country_code: d.5,
                                },
                            ),
                            r7,
                        ),
                        (None, r7) => (None, r7),
                    }
                } else {
                    (
                        Some(
                            _ReceiveWatchUserModel {
                                username,
                                exists,
                                status: None,
                                avg_speed: None,
                                upload_num: None,
                                files: None,
                                dirs: None,
                                country_code: None,
                            },
                        ),
                        r1,
                    )
                },
                (None, r1) => (None, r1),
            },
            (None, r0) => (None, r0),
        }
    }

    fn unpack_from_bytes(stream: &mut Vec<u8>) -> (r: Option<Self>) {
        let username = String::unpack_from_bytes(stream)?;
        let exists = bool::unpack_from_bytes(stream)?;
        if exists {
            let (status, avg_speed, upload_num, files, dirs, country_code) = Self::unpack_details(
                stream,
            )?;
            Some(
                _ReceiveWatchUser {
                    username,
                    exists,
                    status: Some(status),
                    avg_speed: Some(avg_speed),
                    upload_num: Some(upload_num),
                    files: Some(files),
                    dirs: Some(dirs),
                    country_code,
                },
            )
        } else {
            Some(
                _ReceiveWatchUser {
                    username,
                    exists,
                    status: None,
                    avg_speed: None,
                    upload_num: None,
                    files: None,
                    dirs: None,
                    country_code: None,
                },
            )
        }
    }
}

/// Following the status of a user.
pub struct WatchUser;
impl MessageTrait for WatchUser {
    type ToSend = _SendWatchUser;

    type ToReceive = _ReceiveWatchUser;

    open spec fn spec_code() -> MessageType {
        MessageType::Server(5)
    }

    fn code() -> (c: MessageType) {
        MessageType::Server(5)
    }
}

#[derive(Debug, Clone)]
pub struct UnwatchUser {
    pub username: String,
}

/// The value of a [`UnwatchUser`], with texts and lists as sequences.
pub struct UnwatchUserModel {
    pub username: Seq<char>,
}

impl DeepView for UnwatchUser {
    type V = UnwatchUserModel;

    open spec fn deep_view(&self) -> UnwatchUserModel {
        UnwatchUserModel {
            username: self.username.deep_view(),
        }
    }
}

impl PackToBytes for UnwatchUser {
    /// The fields, one after the other.
    open spec fn spec_pack(v: UnwatchUserModel) -> Seq<u8> {
        String::spec_pack(v.username)
    }

    fn pack_to_bytes(&self) -> (r: Vec<u8>) {
        let mut bytes: Vec<u8> = Vec::new();
        let mut username = self.username.pack_to_bytes();
        bytes.append(&mut username);
        assert(bytes@ =~= Self::spec_pack(self.deep_view()));
        bytes
    }
}
impl MessageTrait for UnwatchUser {
    type ToSend = UnwatchUser;

    type ToReceive = IsntReceived;

    open spec fn spec_code() -> MessageType {
        MessageType::Server(6)
    }

    fn code() -> (c: MessageType) {
        MessageType::Server(6)
    }
}

#[derive(Debug, Clone)]
pub struct _SendGetUserStatus {
    pub username: String,
}

/// The value of a [`_SendGetUserStatus`], with texts and lists as sequences.
pub struct _SendGetUserStatusModel {
    pub username: Seq<char>,
}

impl DeepView for _SendGetUserStatus {
    type V = _SendGetUserStatusModel;

    open spec fn deep_view(&self) -> _SendGetUserStatusModel {
        _SendGetUserStatusModel {
            username: self.username.deep_view(),
        }
    }
}

impl PackToBytes for _SendGetUserStatus {
    /// The fields, one after the other.
    open spec fn spec_pack(v: _SendGetUserStatusModel) -> Seq<u8> {
        String::spec_pack(v.username)
    }

    fn pack_to_bytes(&self) -> (r: Vec<u8>) {
        let mut bytes: Vec<u8> = Vec::new();
        let mut username = self.username.pack_to_bytes();
        bytes.append(&mut username);
        assert(bytes@ =~= Self::spec_pack(self.deep_view()));
        bytes
    }
}
#[derive(Debug, Clone)]
pub struct _ReceiveGetUserStatus {
    pub username: String,
    pub status: UserStatusCodes,
    pub privileged: bool,
}

/// The value of a [`_ReceiveGetUserStatus`], with texts and lists as sequences.
pub struct _ReceiveGetUserStatusModel {
    pub username: Seq<char>,
    pub status: UserStatusCodes,
    pub privileged: bool,
}

impl DeepView for _ReceiveGetUserStatus {
    type V = _ReceiveGetUserStatusModel;

    open spec fn deep_view(&self) -> _ReceiveGetUserStatusModel {
        _ReceiveGetUserStatusModel {
            username: self.username.deep_view(),
            status: self.status.deep_view(),
            privileged: self.privileged.deep_view(),
        }
    }
}

impl UnpackFromBytes for _ReceiveGetUserStatus {
    /// The fields, one after the other; the first failure stops it.
    open spec fn spec_unpack(bytes: Seq<u8>) -> (Option<_ReceiveGetUserStatusModel>, Seq<u8>) {
        match String::spec_unpack(bytes) {
            (Some(username), r0) => 
                match UserStatusCodes::spec_unpack(r0) {
                    (Some(status), r1) => 
                        match bool::spec_unpack(r1) {
                            (Some(privileged), r2) => (Some(_ReceiveGetUserStatusModel { username, status, privileged }), r2),
                            (None, r2) => (None, r2),
                        },
                    (None, r1) => (None, r1),
                },
            (None, r0) => (None, r0),
        }
    }

    fn unpack_from_bytes(bytes: &mut Vec<u8>) -> (r: Option<Self>) {
        let username = String::unpack_from_bytes(bytes)?;
        let status = UserStatusCodes::unpack_from_bytes(bytes)?;
        let privileged = bool::unpack_from_bytes(bytes)?;
        Some(_ReceiveGetUserStatus { username, status, privileged })
    }
}
/// Asking the server for the status of a user.
pub struct GetUserStatus;
impl MessageTrait for GetUserStatus {
    type ToSend = _SendGetUserStatus;

    type ToReceive = _ReceiveGetUserStatus;

    open spec fn spec_code() -> MessageType {
        MessageType::Server(7)
    }

    fn code() -> (c: MessageType) {
        MessageType::Server(7)
    }
}

#[derive(Debug, Clone)]
pub struct _SendSayChatroom {
    pub room: String,
    pub message: String,
}

/// The value of a [`_SendSayChatroom`], with texts and lists as sequences.
pub struct _SendSayChatroomModel {
    pub room: Seq<char>,
    pub message: Seq<char>,
}

impl DeepView for _SendSayChatroom {
    type V = _SendSayChatroomModel;

    open spec fn deep_view(&self) -> _SendSayChatroomModel {
        _SendSayChatroomModel {
            room: self.room.deep_view(),
            message: self.message.deep_view(),
        }
    }
}

impl PackToBytes for _SendSayChatroom {
    /// The fields, one after the other.
    open spec fn spec_pack(v: _SendSayChatroomModel) -> Seq<u8> {
        String::spec_pack(v.room) + String::spec_pack(v.message)
    }

    fn pack_to_bytes(&self) -> (r: Vec<u8>) {
        let mut bytes: Vec<u8> = Vec::new();
        let mut room = self.room.pack_to_bytes();
        bytes.append(&mut room);
        let mut message = self.message.pack_to_bytes();
        bytes.append(&mut message);
        assert(bytes@ =~= Self::spec_pack(self.deep_view()));
        bytes
    }
}
#[derive(Debug, Clone)]
pub struct _ReceiveSayChatroom {
    pub room: String,
    pub username: String,
    pub message: String,
}

/// The value of a [`_ReceiveSayChatroom`], with texts and lists as sequences.
pub struct _ReceiveSayChatroomModel {
    pub room: Seq<char>,
    pub username: Seq<char>,
    pub message: Seq<char>,
}

impl DeepView for _ReceiveSayChatroom {
    type V = _ReceiveSayChatroomModel;

    open spec fn deep_view(&self) -> _ReceiveSayChatroomModel {
        _ReceiveSayChatroomModel {
            room: self.room.deep_view(),
            username: self.username.deep_view(),
            message: self.message.deep_view(),
        }
    }
}

impl UnpackFromBytes for _ReceiveSayChatroom {
    /// The fields, one after the other; the first failure stops it.
    open spec fn spec_unpack(bytes: Seq<u8>) -> (Option<_ReceiveSayChatroomModel>, Seq<u8>) {
        match String::spec_unpack(bytes) {
            (Some(room), r0) => 
                match String::spec_unpack(r0) {
                    (Some(username), r1) => 
                        match String::spec_unpack(r1) {
                            (Some(message), r2) => (Some(_ReceiveSayChatroomModel { room, username, message }), r2),
                            (None, r2) => (None, r2),
                        },
                    (None, r1) => (None, r1),
                },
            (None, r0) => (None, r0),
        }
    }

    fn unpack_from_bytes(bytes: &mut Vec<u8>) -> (r: Option<Self>) {
        let room = String::unpack_from_bytes(bytes)?;
        let username = String::unpack_from_bytes(bytes)?;
        let message = String::unpack_from_bytes(bytes)?;
        Some(_ReceiveSayChatroom { room, username, message })
    }
}
/// A message in a chat room.
pub struct SayChatroom;
impl MessageTrait for SayChatroom {
    type ToSend = _SendSayChatroom;

    type ToReceive = _ReceiveSayChatroom;

    open spec fn spec_code() -> MessageType {
        MessageType::Server(13)
    }

    fn code() -> (c: MessageType) {
        MessageType::Server(13)
    }
}

#[derive(Debug, Clone)]
pub struct _SendJoinRoom {
    pub room: String,
    pub private: u32,
}

/// The value of a [`_SendJoinRoom`], with texts and lists as sequences.
pub struct _SendJoinRoomModel {
    pub room: Seq<char>,
    pub private: u32,
}

impl DeepView for _SendJoinRoom {
    type V = _SendJoinRoomModel;

    open spec fn deep_view(&self) -> _SendJoinRoomModel {
        _SendJoinRoomModel {
            room: self.room.deep_view(),
            private: self.private.deep_view(),
        }
    }
}

impl PackToBytes for _SendJoinRoom {
    /// The fields, one after the other.
    open spec fn spec_pack(v: _SendJoinRoomModel) -> Seq<u8> {
        String::spec_pack(v.room) + u32::spec_pack(v.private)
    }

    fn pack_to_bytes(&self) -> (r: Vec<u8>) {
        let mut bytes: Vec<u8> = Vec::new();
        let mut room = self.room.pack_to_bytes();
        bytes.append(&mut room);
        let mut private = self.private.pack_to_bytes();
        bytes.append(&mut private);
        assert(bytes@ =~= Self::spec_pack(self.deep_view()));
        bytes
    }
}
#[derive(Debug, Clone, Copy, PartialEq, Eq)]
pub struct UserStats {
    pub avg_speeds: u32,
    pub upload_num: u64,
    pub num_of_files: u32,
    pub num_of_dirs: u32,
}

impl DeepView for UserStats {
    type V = UserStats;

    open spec fn deep_view(&self) -> UserStats {
        *self
    }
}

impl UnpackFromBytes for UserStats {
    /// The fields, one after the other; the first failure stops it.
    open spec fn spec_unpack(bytes: Seq<u8>) -> (Option<UserStats>, Seq<u8>) {
        match u32::spec_unpack(bytes) {
            (Some(avg_speeds), r0) => 
                match u64::spec_unpack(r0) {
                    (Some(upload_num), r1) => 
                        match u32::spec_unpack(r1) {
                            (Some(num_of_files), r2) => 
                                match u32::spec_unpack(r2) {
                                    (Some(num_of_dirs), r3) => (Some(UserStats { avg_speeds, upload_num, num_of_files, num_of_dirs }), r3),
                                    (None, r3) => (None, r3),
                                },
                            (None, r2) => (None, r2),
                        },
                    (None, r1) => (None, r1),
                },
            (None, r0) => (None, r0),
        }
    }

    fn unpack_from_bytes(bytes: &mut Vec<u8>) -> (r: Option<Self>) {
        let avg_speeds = u32::unpack_from_bytes(bytes)?;
        let upload_num = u64::unpack_from_bytes(bytes)?;
        let num_of_files = u32::unpack_from_bytes(bytes)?;
        let num_of_dirs = u32::unpack_from_bytes(bytes)?;
        Some(UserStats { avg_speeds, upload_num, num_of_files, num_of_dirs })
    }
}
/// The server's answer to joining a room: the room, its users with their
/// statuses, statistics, free slots and countries, and for a private room
/// its owner and operators.
pub struct _ReceiveJoinRoom {
    pub room: String,
    pub usernames: Vec<String>,
    pub statuses: Vec<UserStatusCodes>,
    pub stats: Vec<UserStats>,
    pub slots_free: Vec<u32>,
    pub country_codes: Vec<String>,
    /// Only exists if room is private.
    pub owner: Option<String>,
    /// Only exists if room is private.
    pub operators: Option<Vec<String>>,
}

/// The value of a [`_ReceiveJoinRoom`].
pub struct _ReceiveJoinRoomModel {
    pub room: Seq<char>,
    pub usernames: Seq<Seq<char>>,
    pub statuses: Seq<UserStatusCodes>,
    pub stats: Seq<UserStats>,
    pub slots_free: Seq<u32>,
    pub country_codes: Seq<Seq<char>>,
    pub owner: Option<Seq<char>>,
    pub operators: Option<Seq<Seq<char>>>,
}

impl DeepView for _ReceiveJoinRoom {
    type V = _ReceiveJoinRoomModel;

    open spec fn deep_view(&self) -> _ReceiveJoinRoomModel {
        _ReceiveJoinRoomModel {
            room: self.room@,
            usernames: self.usernames.deep_view(),
            statuses: self.statuses.deep_view(),
            stats: self.stats.deep_view(),
            slots_free: self.slots_free.deep_view(),
            country_codes: self.country_codes.deep_view(),
            owner: self.owner.deep_view(),
            operators: self.operators.deep_view(),
        }
    }
}

impl _ReceiveJoinRoom {
    /// The room, the user names and their statuses.
    pub open spec fn spec_unpack_users(bytes: Seq<u8>) -> (
        Option<(Seq<char>, Seq<Seq<char>>, Seq<UserStatusCodes>)>,
        Seq<u8>,
    ) {
        match String::spec_unpack(bytes) {
            (Some(room), r0) => match <Vec<String>>::spec_unpack(r0) {
                (Some(usernames), r1) => match <Vec<UserStatusCodes>>::spec_unpack(r1) {
                    (Some(statuses), r2) => (Some((room, usernames, statuses)), r2),
                    (None, r2) => (None, r2),
                },
                (None, r1) => (None, r1),
            },
            (None, r0) => (None, r0),
        }
    }

    /// The statistics, free slots and countries of the users.
    pub open spec fn spec_unpack_stats(bytes: Seq<u8>) -> (
        Option<(Seq<UserStats>, Seq<u32>, Seq<Seq<char>>)>,
        Seq<u8>,
    ) {
        match <Vec<UserStats>>::spec_unpack(bytes) {
            (Some(stats), r3) => match <Vec<u32>>::spec_unpack(r3) {
                (Some(slots_free), r4) => match <Vec<String>>::spec_unpack(r4) {
                    (Some(country_codes), r5) => (Some((stats, slots_free, country_codes)), r5),
                    (None, r5) => (None, r5),
                },
                (None, r4) => (None, r4),
            },
            (None, r3) => (None, r3),
        }
    }

    /// The owner and operators, present only when bytes remain.
    pub open spec fn spec_unpack_private(bytes: Seq<u8>) -> (
        Option<(Option<Seq<char>>, Option<Seq<Seq<char>>>)>,
        Seq<u8>,
    ) {
        if bytes.len() == 0 {
            (Some((None, None)), bytes)
        } else {
            match String::spec_unpack(bytes) {
                (Some(owner), r6) => match <Vec<String>>::spec_unpack(r6) {
                    (Some(operators), r7) => (Some((Some(owner), Some(operators))), r7),
                    (None, r7) => (None, r7),
                },
                (None, r6) => (None, r6),
            }
        }
    }

    fn unpack_users(bytes: &mut Vec<u8>) -> (r: Option<(String, Vec<String>, Vec<UserStatusCodes>)>)
        ensures
            (
                match r {
                    Some(u) => Some((u.0@, u.1.deep_view(), u.2.deep_view())),
                    None => None,
                },
                final(bytes)@,
            ) == Self::spec_unpack_users(old(bytes)@),
    {
        let room = String::unpack_from_bytes(bytes)?;
        let usernames = <Vec<String>>::unpack_from_bytes(bytes)?;
        let statuses = <Vec<UserStatusCodes>>::unpack_from_bytes(bytes)?;
        Some((room, usernames, statuses))
    }

    fn unpack_stats(bytes: &mut Vec<u8>) -> (r: Option<(Vec<UserStats>, Vec<u32>, Vec<String>)>)
        ensures
            (
                match r {
                    Some(s) => Some((s.0.deep_view(), s.1.deep_view(), s.2.deep_view())),
                    None => None,
                },
                final(bytes)@,
            ) == Self::spec_unpack_stats(old(bytes)@),
    {
        let stats = <Vec<UserStats>>::unpack_from_bytes(bytes)?;
        let slots_free = <Vec<u32>>::unpack_from_bytes(bytes)?;
        let country_codes = <Vec<String>>::unpack_from_bytes(bytes)?;
        Some((stats, slots_free, country_codes))
    }

    fn unpack_private(bytes: &mut Vec<u8>) -> (r: Option<(Option<String>, Option<Vec<String>>)>)
        ensures
            (
                match r {
                    Some(p) => Some((p.0.deep_view(), p.1.deep_view())),
                    None => None,
                },
                final(bytes)@,
            ) == Self::spec_unpack_private(old(bytes)@),
    {
        if bytes.len() == 0 {
            Some((None, None))
        } else {
            let owner = String::unpack_from_bytes(bytes)?;
            let operators = <Vec<String>>::unpack_from_bytes(bytes)?;
            Some((Some(owner), Some(operators)))
        }
    }
}

impl UnpackFromBytes for _ReceiveJoinRoom {
    /// The users, their statistics, then the private-room fields.
    open spec fn spec_unpack(bytes: Seq<u8>) -> (Option<_ReceiveJoinRoomModel>, Seq<u8>) {
        match Self::spec_unpack_users(bytes) {
            (Some(u), r2) => match Self::spec_unpack_stats(r2) {
                (Some(s), r5) => match Self::spec_unpack_private(r5) {
                    (Some(p), r7) => (
                        Some(
                            _ReceiveJoinRoomModel {
                                room: u.0,
                                usernames: u.1,
                                statuses: u.2,
                                stats: s.0,
                                slots_free: s.1,
                                country_codes: s.2,
                                owner: p.0,
                                operators: p.1,
                            },
                        ),
                        r7,
                    ),
                    (None, r7) => (None, r7),
                },
                (None, r5) => (None, r5),
            },
            (None, r2) => (None, r2),
        }
    }

    fn unpack_from_bytes(bytes: &mut Vec<u8>) -> (r: Option<Self>) {
        let (room, usernames, statuses) = Self::unpack_users(bytes)?;
        let (stats, slots_free, country_codes) = Self::unpack_stats(bytes)?;
        let (owner, operators) = Self::unpack_private(bytes)?;
        Some(
            Self {
                room,
                usernames,
                statuses,
                stats,
                slots_free,
                country_codes,
                owner,
                operators,
            },
        )
    }
}

/// Joining a chat room.
pub struct JoinRoom;
impl MessageTrait for JoinRoom {
    type ToSend = _SendJoinRoom;

    type ToReceive = _ReceiveJoinRoom;

    open spec fn spec_code() -> MessageType {
        MessageType::Server(14)
    }

    fn code() -> (c: MessageType) {
        MessageType::Server(14)
    }
}

#[derive(Debug, Clone)]
pub struct _SendLeaveRoom {
    pub room: String,
}

/// The value of a [`_SendLeaveRoom`], with texts and lists as sequences.
pub struct _SendLeaveRoomModel {
    pub room: Seq<char>,
}

impl DeepView for _SendLeaveRoom {
    type V = _SendLeaveRoomModel;

    open spec fn deep_view(&self) -> _SendLeaveRoomModel {
        _SendLeaveRoomModel {
            room: self.room.deep_view(),
        }
    }
}

impl PackToBytes for _SendLeaveRoom {
    /// The fields, one after the other.
    open spec fn spec_pack(v: _SendLeaveRoomModel) -> Seq<u8> {
        String::spec_pack(v.room)
    }

    fn pack_to_bytes(&self) -> (r: Vec<u8>) {
        let mut bytes: Vec<u8> = Vec::new();
        let mut room = self.room.pack_to_bytes();
        bytes.append(&mut room);
        assert(bytes@ =~= Self::spec_pack(self.deep_view()));
        bytes
    }
}
#[derive(Debug, Clone)]
pub struct _ReceiveLeaveRoom {
    pub room: String,
}

/// The value of a [`_ReceiveLeaveRoom`], with texts and lists as sequences.
pub struct _ReceiveLeaveRoomModel {
    pub room: Seq<char>,
}

impl DeepView for _ReceiveLeaveRoom {
    type V = _ReceiveLeaveRoomModel;

    open spec fn deep_view(&self) -> _ReceiveLeaveRoomModel {
        _ReceiveLeaveRoomModel {
            room: self.room.deep_view(),
        }
    }
}

impl UnpackFromBytes for _ReceiveLeaveRoom {
    /// The fields, one after the other; the first failure stops it.
    open spec fn spec_unpack(bytes: Seq<u8>) -> (Option<_ReceiveLeaveRoomModel>, Seq<u8>) {
        match String::spec_unpack(bytes) {
            (Some(room), r0) => (Some(_ReceiveLeaveRoomModel { room }), r0),
            (None, r0) => (None, r0),
        }
    }

    fn unpack_from_bytes(bytes: &mut Vec<u8>) -> (r: Option<Self>) {
        let room = String::unpack_from_bytes(bytes)?;
        Some(_ReceiveLeaveRoom { room })
    }
}
/// Leaving a chat room.
pub struct LeaveRoom;
impl MessageTrait for LeaveRoom {
    type ToSend = _SendLeaveRoom;

    type ToReceive = _ReceiveLeaveRoom;

    open spec fn spec_code() -> MessageType {
        MessageType::Server(15)
    }

    fn code() -> (c: MessageType) {
        MessageType::Server(15)
    }
}

#[derive(Debug, Clone)]
pub struct UserJoinedRoom {
    pub room: String,
    pub username: String,
    pub status: UserStatusCodes,
    pub avg_speed: u32,
    pub upload_num: u64,
    pub files: u32,
    pub dirs: u32,
    pub slots_free: u32,
    pub country_code: String,
}

/// The value of a [`UserJoinedRoom`], with texts and lists as sequences.
pub struct UserJoinedRoomModel {
    pub room: Seq<char>,
    pub username: Seq<char>,
    pub status: UserStatusCodes,
    pub avg_speed: u32,
    pub upload_num: u64,
    pub files: u32,
    pub dirs: u32,
    pub slots_free: u32,
    pub country_code: Seq<char>,
}

impl DeepView for UserJoinedRoom {
    type V = UserJoinedRoomModel;

    open spec fn deep_view(&self) -> UserJoinedRoomModel {
        UserJoinedRoomModel {
            room: self.room.deep_view(),
            username: self.username.deep_view(),
            status: self.status.deep_view(),
            avg_speed: self.avg_speed.deep_view(),
            upload_num: self.upload_num.deep_view(),
            files: self.files.deep_view(),
            dirs: self.dirs.deep_view(),
            slots_free: self.slots_free.deep_view(),
            country_code: self.country_code.deep_view(),
        }
    }
}

impl UnpackFromBytes for UserJoinedRoom {
    /// The fields, one after the other; the first failure stops it.
    open spec fn spec_unpack(bytes: Seq<u8>) -> (Option<UserJoinedRoomModel>, Seq<u8>) {
        match String::spec_unpack(bytes) {
            (Some(room), r0) => 
                match String::spec_unpack(r0) {
                    (Some(username), r1) => 
                        match UserStatusCodes::spec_unpack(r1) {
                            (Some(status), r2) => 
                                match u32::spec_unpack(r2) {
                                    (Some(avg_speed), r3) => 
                                        match u64::spec_unpack(r3) {
                                            (Some(upload_num), r4) => 
                                                match u32::spec_unpack(r4) {
                                                    (Some(files), r5) => 
                                                        match u32::spec_unpack(r5) {
                                                            (Some(dirs), r6) => 
                                                                match u32::spec_unpack(r6) {
                                                                    (Some(slots_free), r7) => 
                                                                        match String::spec_unpack(r7) {
                                                                            (Some(country_code), r8) => (Some(UserJoinedRoomModel { room, username, status, avg_speed, upload_num, files, dirs, slots_free, country_code }), r8),
                                                                            (None, r8) => (None, r8),
                                                                        },
                                                                    (None, r7) => (None, r7),
                                                                },
                                                            (None, r6) => (None, r6),
                                                        },
                                                    (None, r5) => (None, r5),
                                                },
                                            (None, r4) => (None, r4),
                                        },
                                    (None, r3) => (None, r3),
                                },
                            (None, r2) => (None, r2),
                        },
                    (None, r1) => (None, r1),
                },
            (None, r0) => (None, r0),
        }
    }

    fn unpack_from_bytes(bytes: &mut Vec<u8>) -> (r: Option<Self>) {
        let room = String::unpack_from_bytes(bytes)?;
        let username = String::unpack_from_bytes(bytes)?;
        let status = UserStatusCodes::unpack_from_bytes(bytes)?;
        let avg_speed = u32::unpack_from_bytes(bytes)?;
        let upload_num = u64::unpack_from_bytes(bytes)?;
        let files = u32::unpack_from_bytes(bytes)?;
        let dirs = u32::unpack_from_bytes(bytes)?;
        let slots_free = u32::unpack_from_bytes(bytes)?;
        let country_code = String::unpack_from_bytes(bytes)?;
        Some(UserJoinedRoom { room, username, status, avg_speed, upload_num, files, dirs, slots_free, country_code })
    }
}
impl MessageTrait for UserJoinedRoom {
    type ToSend = IsntSent;

    type ToReceive = UserJoinedRoom;

    open spec fn spec_code() -> MessageType {
        MessageType::Server(16)
    }

    fn code() -> (c: MessageType) {
        MessageType::Server(16)
    }
}

#[derive(Debug, Clone)]
pub struct UserLefRoom {
    pub room: String,
    pub username: String,
}

/// The value of a [`UserLefRoom`], with texts and lists as sequences.
pub struct UserLefRoomModel {
    pub room: Seq<char>,
    pub username: Seq<char>,
}

impl DeepView for UserLefRoom {
    type V = UserLefRoomModel;

    open spec fn deep_view(&self) -> UserLefRoomModel {
        UserLefRoomModel {
            room: self.room.deep_view(),
            username: self.username.deep_view(),
        }
    }
}

impl UnpackFromBytes for UserLefRoom {
    /// The fields, one after the other; the first failure stops it.
    open spec fn spec_unpack(bytes: Seq<u8>) -> (Option<UserLefRoomModel>, Seq<u8>) {
        match String::spec_unpack(bytes) {
            (Some(room), r0) => 
                match String::spec_unpack(r0) {
                    (Some(username), r1) => (Some(UserLefRoomModel { room, username }), r1),
                    (None, r1) => (None, r1),
                },
            (None, r0) => (None, r0),
        }
    }

    fn unpack_from_bytes(bytes: &mut Vec<u8>) -> (r: Option<Self>) {
        let room = String::unpack_from_bytes(bytes)?;
        let username = String::unpack_from_bytes(bytes)?;
        Some(UserLefRoom { room, username })
    }
}
impl MessageTrait for UserLefRoom {
    type ToSend = IsntSent;

    type ToReceive = UserLefRoom;

    open spec fn spec_code() -> MessageType {
        MessageType::Server(17)
    }

    fn code() -> (c: MessageType) {
        MessageType::Server(17)
    }
}

#[derive(Debug, Clone)]
pub struct _SendConnectToPeer {
    pub token: u32,
    pub username: String,
    pub connection_type: ConnectionTypes,
}

/// The value of a [`_SendConnectToPeer`], with texts and lists as sequences.
pub struct _SendConnectToPeerModel {
    pub token: u32,
    pub username: Seq<char>,
    pub connection_type: ConnectionTypes,
}

impl DeepView for _SendConnectToPeer {
    type V = _SendConnectToPeerModel;

    open spec fn deep_view(&self) -> _SendConnectToPeerModel {
        _SendConnectToPeerModel {
            token: self.token.deep_view(),
            username: self.username.deep_view(),
            connection_type: self.connection_type.deep_view(),
        }
    }
}

impl PackToBytes for _SendConnectToPeer {
    /// The fields, one after the other.
    open spec fn spec_pack(v: _SendConnectToPeerModel) -> Seq<u8> {
        u32::spec_pack(v.token) + String::spec_pack(v.username) + ConnectionTypes::spec_pack(v.connection_type)
    }

    fn pack_to_bytes(&self) -> (r: Vec<u8>) {
        let mut bytes: Vec<u8> = Vec::new();
        let mut token = self.token.pack_to_bytes();
        bytes.append(&mut token);
        let mut username = self.username.pack_to_bytes();
        bytes.append(&mut username);
        let mut connection_type = self.connection_type.pack_to_bytes();
        bytes.append(&mut connection_type);
        assert(bytes@ =~= Self::spec_pack(self.deep_view()));
        bytes
    }
}
#[derive(Debug, Clone)]
pub struct _ReceiveConnectToPeer {
    pub username: String,
    pub connection_type: ConnectionTypes,
    pub ip: Ipv4Addr,
    pub port: u32,
    pub firewall_token: u32,
    pub privileged: bool,
    pub use_obfuscation: bool,
    pub obfuscated_port: u32,
}

/// The value of a [`_ReceiveConnectToPeer`], with texts and lists as sequences.
pub struct _ReceiveConnectToPeerModel {
    pub username: Seq<char>,
    pub connection_type: ConnectionTypes,
    pub ip: Ipv4Addr,
    pub port: u32,
    pub firewall_token: u32,
    pub privileged: bool,
    pub use_obfuscation: bool,
    pub obfuscated_port: u32,
}

impl DeepView for _ReceiveConnectToPeer {
    type V = _ReceiveConnectToPeerModel;

    open spec fn deep_view(&self) -> _ReceiveConnectToPeerModel {
        _ReceiveConnectToPeerModel {
            username: self.username.deep_view(),
            connection_type: self.connection_type.deep_view(),
            ip: self.ip.deep_view(),
            port: self.port.deep_view(),
            firewall_token: self.firewall_token.deep_view(),
            privileged: self.privileged.deep_view(),
            use_obfuscation: self.use_obfuscation.deep_view(),
            obfuscated_port: self.obfuscated_port.deep_view(),
        }
    }
}

impl UnpackFromBytes for _ReceiveConnectToPeer {
    /// The fields, one after the other; the first failure stops it.
    open spec fn spec_unpack(bytes: Seq<u8>) -> (Option<_ReceiveConnectToPeerModel>, Seq<u8>) {
        match String::spec_unpack(bytes) {
            (Some(username), r0) => 
                match ConnectionTypes::spec_unpack(r0) {
                    (Some(connection_type), r1) => 
                        match Ipv4Addr::spec_unpack(r1) {
                            (Some(ip), r2) => 
                                match u32::spec_unpack(r2) {
                                    (Some(port), r3) => 
                                        match u32::spec_unpack(r3) {
                                            (Some(firewall_token), r4) => 
                                                match bool::spec_unpack(r4) {
                                                    (Some(privileged), r5) => 
                                                        match bool::spec_unpack(r5) {
                                                            (Some(use_obfuscation), r6) => 
                                                                match u32::spec_unpack(r6) {
                                                                    (Some(obfuscated_port), r7) => (Some(_ReceiveConnectToPeerModel { username, connection_type, ip, port, firewall_token, privileged, use_obfuscation, obfuscated_port }), r7),
                                                                    (None, r7) => (None, r7),
                                                                },
                                                            (None, r6) => (None, r6),
                                                        },
                                                    (None, r5) => (None, r5),
                                                },
                                            (None, r4) => (None, r4),
                                        },
                                    (None, r3) => (None, r3),
                                },
                            (None, r2) => (None, r2),
                        },
                    (None, r1) => (None, r1),
                },
            (None, r0) => (None, r0),
        }
    }

    fn unpack_from_bytes(bytes: &mut Vec<u8>) -> (r: Option<Self>) {
        let username = String::unpack_from_bytes(bytes)?;
        let connection_type = ConnectionTypes::unpack_from_bytes(bytes)?;
        let ip = Ipv4Addr::unpack_from_bytes(bytes)?;
        let port = u32::unpack_from_bytes(bytes)?;
        let firewall_token = u32::unpack_from_bytes(bytes)?;
        let privileged = bool::unpack_from_bytes(bytes)?;
        let use_obfuscation = bool::unpack_from_bytes(bytes)?;
        let obfuscated_port = u32::unpack_from_bytes(bytes)?;
        Some(_ReceiveConnectToPeer { username, connection_type, ip, port, firewall_token, privileged, use_obfuscation, obfuscated_port })
    }
}
/// Asking a peer, through the server, to connect.
pub struct ConnectToPeer;
impl MessageTrait for ConnectToPeer {
    type ToSend = _SendConnectToPeer;

    type ToReceive = _ReceiveConnectToPeer;

    open spec fn spec_code() -> MessageType {
        MessageType::Server(18)
    }

    fn code() -> (c: MessageType) {
        MessageType::Server(18)
    }
}

#[derive(Debug, Clone)]
pub struct _SendMessageUser {
    pub username: String,
    pub message: String,
}

/// The value of a [`_SendMessageUser`], with texts and lists as sequences.
pub struct _SendMessageUserModel {
    pub username: Seq<char>,
    pub message: Seq<char>,
}

impl DeepView for _SendMessageUser {
    type V = _SendMessageUserModel;

    open spec fn deep_view(&self) -> _SendMessageUserModel {
        _SendMessageUserModel {
            username: self.username.deep_view(),
            message: self.message.deep_view(),
        }
    }
}

impl PackToBytes for _SendMessageUser {
    /// The fields, one after the other.
    open spec fn spec_pack(v: _SendMessageUserModel) -> Seq<u8> {
        String::spec_pack(v.username) + String::spec_pack(v.message)
    }

    fn pack_to_bytes(&self) -> (r: Vec<u8>) {
        let mut bytes: Vec<u8> = Vec::new();
        let mut username = self.username.pack_to_bytes();
        bytes.append(&mut username);
        let mut message = self.message.pack_to_bytes();
        bytes.append(&mut message);
        assert(bytes@ =~= Self::spec_pack(self.deep_view()));
        bytes
    }
}
#[derive(Debug, Clone)]
pub struct _ReceiveMessageUser {
    pub id: u32,
    pub timestamp: u32,
    pub username: String,
    pub message: String,
    pub is_new: bool,
}

/// The value of a [`_ReceiveMessageUser`], with texts and lists as sequences.
pub struct _ReceiveMessageUserModel {
    pub id: u32,
    pub timestamp: u32,
    pub username: Seq<char>,
    pub message: Seq<char>,
    pub is_new: bool,
}

impl DeepView for _ReceiveMessageUser {
    type V = _ReceiveMessageUserModel;

    open spec fn deep_view(&self) -> _ReceiveMessageUserModel {
        _ReceiveMessageUserModel {
            id: self.id.deep_view(),
            timestamp: self.timestamp.deep_view(),
            username: self.username.deep_view(),
            message: self.message.deep_view(),
            is_new: self.is_new.deep_view(),
        }
    }
}

impl UnpackFromBytes for _ReceiveMessageUser {
    /// The fields, one after the other; the first failure stops it.
    open spec fn spec_unpack(bytes: Seq<u8>) -> (Option<_ReceiveMessageUserModel>, Seq<u8>) {
        match u32::spec_unpack(bytes) {
            (Some(id), r0) => 
                match u32::spec_unpack(r0) {
                    (Some(timestamp), r1) => 
                        match String::spec_unpack(r1) {
                            (Some(username), r2) => 
                                match String::spec_unpack(r2) {
                                    (Some(message), r3) => 
                                        match bool::spec_unpack(r3) {
                                            (Some(is_new), r4) => (Some(_ReceiveMessageUserModel { id, timestamp, username, message, is_new }), r4),
                                            (None, r4) => (None, r4),
                                        },
                                    (None, r3) => (None, r3),
                                },
                            (None, r2) => (None, r2),
                        },
                    (None, r1) => (None, r1),
                },
            (None, r0) => (None, r0),
        }
    }

    fn unpack_from_bytes(bytes: &mut Vec<u8>) -> (r: Option<Self>) {
        let id = u32::unpack_from_bytes(bytes)?;
        let timestamp = u32::unpack_from_bytes(bytes)?;
        let username = String::unpack_from_bytes(bytes)?;
        let message = String::unpack_from_bytes(bytes)?;
        let is_new = bool::unpack_from_bytes(bytes)?;
        Some(_ReceiveMessageUser { id, timestamp, username, message, is_new })
    }
}
/// A private message to a user.
pub struct MessageUser;
impl MessageTrait for MessageUser {
    type ToSend = _SendMessageUser;

    type ToReceive = _ReceiveMessageUser;

    open spec fn spec_code() -> MessageType {
        MessageType::Server(22)
    }

    fn code() -> (c: MessageType) {
        MessageType::Server(22)
    }
}

#[derive(Debug, Clone, Copy, PartialEq, Eq)]
pub struct MessageAcked {
    pub message_id: u32,
}

impl DeepView for MessageAcked {
    type V = MessageAcked;

    open spec fn deep_view(&self) -> MessageAcked {
        *self
    }
}

impl PackToBytes for MessageAcked {
    /// The fields, one after the other.
    open spec fn spec_pack(v: MessageAcked) -> Seq<u8> {
        u32::spec_pack(v.message_id)
    }

    fn pack_to_bytes(&self) -> (r: Vec<u8>) {
        let mut bytes: Vec<u8> = Vec::new();
        let mut message_id = self.message_id.pack_to_bytes();
        bytes.append(&mut message_id);
        assert(bytes@ =~= Self::spec_pack(self.deep_view()));
        bytes
    }
}
impl MessageTrait for MessageAcked {
    type ToSend = MessageAcked;

    type ToReceive = IsntReceived;

    open spec fn spec_code() -> MessageType {
        MessageType::Server(23)
    }

    fn code() -> (c: MessageType) {
        MessageType::Server(23)
    }
}

#[derive(Debug, Clone)]
pub struct _SendFileSearch {
    pub token: u32,
    pub search_query: String,
}

/// The value of a [`_SendFileSearch`], with texts and lists as sequences.
pub struct _SendFileSearchModel {
    pub token: u32,
    pub search_query: Seq<char>,
}

impl DeepView for _SendFileSearch {
    type V = _SendFileSearchModel;

    open spec fn deep_view(&self) -> _SendFileSearchModel {
        _SendFileSearchModel {
            token: self.token.deep_view(),
            search_query: self.search_query.deep_view(),
        }
    }
}

impl PackToBytes for _SendFileSearch {
    /// The fields, one after the other.
    open spec fn spec_pack(v: _SendFileSearchModel) -> Seq<u8> {
        u32::spec_pack(v.token) + String::spec_pack(v.search_query)
    }

    fn pack_to_bytes(&self) -> (r: Vec<u8>) {
        let mut bytes: Vec<u8> = Vec::new();
        let mut token = self.token.pack_to_bytes();
        bytes.append(&mut token);
        let mut search_query = self.search_query.pack_to_bytes();
        bytes.append(&mut search_query);
        assert(bytes@ =~= Self::spec_pack(self.deep_view()));
        bytes
    }
}
#[derive(Debug, Clone)]
pub struct _ReceiveFileSearch {
    pub username: String,
    pub token: u32,
    pub search_query: String,
}

/// The value of a [`_ReceiveFileSearch`], with texts and lists as sequences.
pub struct _ReceiveFileSearchModel {
    pub username: Seq<char>,
    pub token: u32,
    pub search_query: Seq<char>,
}

impl DeepView for _ReceiveFileSearch {
    type V = _ReceiveFileSearchModel;

    open spec fn deep_view(&self) -> _ReceiveFileSearchModel {
        _ReceiveFileSearchModel {
            username: self.username.deep_view(),
            token: self.token.deep_view(),
            search_query: self.search_query.deep_view(),
        }
    }
}

impl UnpackFromBytes for _ReceiveFileSearch {
    /// The fields, one after the other; the first failure stops it.
    open spec fn spec_unpack(bytes: Seq<u8>) -> (Option<_ReceiveFileSearchModel>, Seq<u8>) {
        match String::spec_unpack(bytes) {
            (Some(username), r0) => 
                match u32::spec_unpack(r0) {
                    (Some(token), r1) => 
                        match String::spec_unpack(r1) {
                            (Some(search_query), r2) => (Some(_ReceiveFileSearchModel { username, token, search_query }), r2),
                            (None, r2) => (None, r2),
                        },
                    (None, r1) => (None, r1),
                },
            (None, r0) => (None, r0),
        }
    }

    fn unpack_from_bytes(bytes: &mut Vec<u8>) -> (r: Option<Self>) {
        let username = String::unpack_from_bytes(bytes)?;
        let token = u32::unpack_from_bytes(bytes)?;
        let search_query = String::unpack_from_bytes(bytes)?;
        Some(_ReceiveFileSearch { username, token, search_query })
    }
}
/// A search over the files of the network.
pub struct FileSearch;
impl MessageTrait for FileSearch {
    type ToSend = _SendFileSearch;

    type ToReceive = _ReceiveFileSearch;

    open spec fn spec_code() -> MessageType {
        MessageType::Server(26)
    }

    fn code() -> (c: MessageType) {
        MessageType::Server(26)
    }
}

#[derive(Debug, Clone, Copy, PartialEq, Eq)]
pub struct SetStatus {
    pub status: UserStatusCodes,
}

impl DeepView for SetStatus {
    type V = SetStatus;

    open spec fn deep_view(&self) -> SetStatus {
        *self
    }
}

impl PackToBytes for SetStatus {
    /// The fields, one after the other.
    open spec fn spec_pack(v: SetStatus) -> Seq<u8> {
        UserStatusCodes::spec_pack(v.status)
    }

    fn pack_to_bytes(&self) -> (r: Vec<u8>) {
        let mut bytes: Vec<u8> = Vec::new();
        let mut status = self.status.pack_to_bytes();
        bytes.append(&mut status);
        assert(bytes@ =~= Self::spec_pack(self.deep_view()));
        bytes
    }
}
impl MessageTrait for SetStatus {
    type ToSend = SetStatus;

    type ToReceive = IsntReceived;

    open spec fn spec_code() -> MessageType {
        MessageType::Server(28)
    }

    fn code() -> (c: MessageType) {
        MessageType::Server(28)
    }
}

#[derive(Debug, Clone, Copy, PartialEq, Eq)]
pub struct ServerPing {}

impl DeepView for ServerPing {
    type V = ServerPing;

    open spec fn deep_view(&self) -> ServerPing {
        *self
    }
}

impl PackToBytes for ServerPing {
    /// The fields, one after the other.
    open spec fn spec_pack(v: ServerPing) -> Seq<u8> {
        Seq::empty()
    }

    fn pack_to_bytes(&self) -> (r: Vec<u8>) {
        let mut bytes: Vec<u8> = Vec::new();
        assert(bytes@ =~= Self::spec_pack(self.deep_view()));
        bytes
    }
}
impl MessageTrait for ServerPing {
    type ToSend = ServerPing;

    type ToReceive = IsntReceived;

    open spec fn spec_code() -> MessageType {
        MessageType::Server(32)
    }

    fn code() -> (c: MessageType) {
        MessageType::Server(32)
    }
}

#[derive(Debug, Clone, Copy, PartialEq, Eq)]
pub struct SharedFoldersFiles {
    pub dirs: u32,
    pub files: u32,
}

impl DeepView for SharedFoldersFiles {
    type V = SharedFoldersFiles;

    open spec fn deep_view(&self) -> SharedFoldersFiles {
        *self
    }
}

impl PackToBytes for SharedFoldersFiles {
    /// The fields, one after the other.
    open spec fn spec_pack(v: SharedFoldersFiles) -> Seq<u8> {
        u32::spec_pack(v.dirs) + u32::spec_pack(v.files)
    }

    fn pack_to_bytes(&self) -> (r: Vec<u8>) {
        let mut bytes: Vec<u8> = Vec::new();
        let mut dirs = self.dirs.pack_to_bytes();
        bytes.append(&mut dirs);
        let mut files = self.files.pack_to_bytes();
        bytes.append(&mut files);
        assert(bytes@ =~= Self::spec_pack(self.deep_view()));
        bytes
    }
}
impl MessageTrait for SharedFoldersFiles {
    type ToSend = SharedFoldersFiles;

    type ToReceive = IsntReceived;

    open spec fn spec_code() -> MessageType {
        MessageType::Server(35)
    }

    fn code() -> (c: MessageType) {
        MessageType::Server(35)
    }
}

#[derive(Debug, Clone)]
pub struct _SendGetUserStats {
    pub username: String,
}

/// The value of a [`_SendGetUserStats`], with texts and lists as sequences.
pub struct _SendGetUserStatsModel {
    pub username: Seq<char>,
}

impl DeepView for _SendGetUserStats {
    type V = _SendGetUserStatsModel;

    open spec fn deep_view(&self) -> _SendGetUserStatsModel {
        _SendGetUserStatsModel {
            username: self.username.deep_view(),
        }
    }
}

impl PackToBytes for _SendGetUserStats {
    /// The fields, one after the other.
    open spec fn spec_pack(v: _SendGetUserStatsModel) -> Seq<u8> {
        String::spec_pack(v.username)
    }

    fn pack_to_bytes(&self) -> (r: Vec<u8>) {
        let mut bytes: Vec<u8> = Vec::new();
        let mut username = self.username.pack_to_bytes();
        bytes.append(&mut username);
        assert(bytes@ =~= Self::spec_pack(self.deep_view()));
        bytes
    }
}
#[derive(Debug, Clone)]
pub struct _ReceiveGetUserStats {
    pub username: String,
    pub avg_speed: u32,
    pub upload_num: u64,
    pub files: u32,
    pub dirs: u32,
}

/// The value of a [`_ReceiveGetUserStats`], with texts and lists as sequences.
pub struct _ReceiveGetUserStatsModel {
    pub username: Seq<char>,
    pub avg_speed: u32,
    pub upload_num: u64,
    pub files: u32,
    pub dirs: u32,
}

impl DeepView for _ReceiveGetUserStats {
    type V = _ReceiveGetUserStatsModel;

    open spec fn deep_view(&self) -> _ReceiveGetUserStatsModel {
        _ReceiveGetUserStatsModel {
            username: self.username.deep_view(),
            avg_speed: self.avg_speed.deep_view(),
            upload_num: self.upload_num.deep_view(),
            files: self.files.deep_view(),
            dirs: self.dirs.deep_view(),
        }
    }
}

impl UnpackFromBytes for _ReceiveGetUserStats {
    /// The fields, one after the other; the first failure stops it.
    open spec fn spec_unpack(bytes: Seq<u8>) -> (Option<_ReceiveGetUserStatsModel>, Seq<u8>) {
        match String::spec_unpack(bytes) {
            (Some(username), r0) => 
                match u32::spec_unpack(r0) {
                    (Some(avg_speed), r1) => 
                        match u64::spec_unpack(r1) {
                            (Some(upload_num), r2) => 
                                match u32::spec_unpack(r2) {
                                    (Some(files), r3) => 
                                        match u32::spec_unpack(r3) {
                                            (Some(dirs), r4) => (Some(_ReceiveGetUserStatsModel { username, avg_speed, upload_num, files, dirs }), r4),
                                            (None, r4) => (None, r4),
                                        },
                                    (None, r3) => (None, r3),
                                },
                            (None, r2) => (None, r2),
                        },
                    (None, r1) => (None, r1),
                },
            (None, r0) => (None, r0),
        }
    }

    fn unpack_from_bytes(bytes: &mut Vec<u8>) -> (r: Option<Self>) {
        let username = String::unpack_from_bytes(bytes)?;
        let avg_speed = u32::unpack_from_bytes(bytes)?;
        let upload_num = u64::unpack_from_bytes(bytes)?;
        let files = u32::unpack_from_bytes(bytes)?;
        let dirs = u32::unpack_from_bytes(bytes)?;
        Some(_ReceiveGetUserStats { username, avg_speed, upload_num, files, dirs })
    }
}
/// Asking the server for the statistics of a user.
pub struct GetUserStats;
impl MessageTrait for GetUserStats {
    type ToSend = _SendGetUserStats;

    type ToReceive = _ReceiveGetUserStats;

    open spec fn spec_code() -> MessageType {
        MessageType::Server(36)
    }

    fn code() -> (c: MessageType) {
        MessageType::Server(36)
    }
}

#[derive(Debug, Clone, Copy, PartialEq, Eq)]
pub struct Relogged {}

impl DeepView for Relogged {
    type V = Relogged;

    open spec fn deep_view(&self) -> Relogged {
        *self
    }
}

impl UnpackFromBytes for Relogged {
    /// The fields, one after the other; the first failure stops it.
    open spec fn spec_unpack(bytes: Seq<u8>) -> (Option<Relogged>, Seq<u8>) {
        (Some(Relogged {}), bytes)
    }

    fn unpack_from_bytes(bytes: &mut Vec<u8>) -> (r: Option<Self>) {
        Some(Relogged {  })
    }
}
impl MessageTrait for Relogged {
    type ToSend = IsntSent;

    type ToReceive = Relogged;

    open spec fn spec_code() -> MessageType {
        MessageType::Server(41)
    }

    fn code() -> (c: MessageType) {
        MessageType::Server(41)
    }
}

#[derive(Debug, Clone)]
pub struct UserSearch {
    pub username: String,
    pub token: u32,
    pub search_query: String,
}

/// The value of a [`UserSearch`], with texts and lists as sequences.
pub struct UserSearchModel {
    pub username: Seq<char>,
    pub token: u32,
    pub search_query: Seq<char>,
}

impl DeepView for UserSearch {
    type V = UserSearchModel;

    open spec fn deep_view(&self) -> UserSearchModel {
        UserSearchModel {
            username: self.username.deep_view(),
            token: self.token.deep_view(),
            search_query: self.search_query.deep_view(),
        }
    }
}

impl PackToBytes for UserSearch {
    /// The fields, one after the other.
    open spec fn spec_pack(v: UserSearchModel) -> Seq<u8> {
        String::spec_pack(v.username) + u32::spec_pack(v.token) + String::spec_pack(v.search_query)
    }

    fn pack_to_bytes(&self) -> (r: Vec<u8>) {
        let mut bytes: Vec<u8> = Vec::new();
        let mut username = self.username.pack_to_bytes();
        bytes.append(&mut username);
        let mut token = self.token.pack_to_bytes();
        bytes.append(&mut token);
        let mut search_query = self.search_query.pack_to_bytes();
        bytes.append(&mut search_query);
        assert(bytes@ =~= Self::spec_pack(self.deep_view()));
        bytes
    }
}
impl MessageTrait for UserSearch {
    type ToSend = UserSearch;

    type ToReceive = IsntReceived;

    open spec fn spec_code() -> MessageType {
        MessageType::Server(42)
    }

    fn code() -> (c: MessageType) {
        MessageType::Server(42)
    }
}

#[derive(Debug, Clone, Copy, PartialEq, Eq)]
pub struct _SendRoomList {}

impl DeepView for _SendRoomList {
    type V = _SendRoomList;

    open spec fn deep_view(&self) -> _SendRoomList {
        *self
    }
}

impl PackToBytes for _SendRoomList {
    /// The fields, one after the other.
    open spec fn spec_pack(v: _SendRoomList) -> Seq<u8> {
        Seq::empty()
    }

    fn pack_to_bytes(&self) -> (r: Vec<u8>) {
        let mut bytes: Vec<u8> = Vec::new();
        assert(bytes@ =~= Self::spec_pack(self.deep_view()));
        bytes
    }
}
#[derive(Debug, Clone)]
pub struct _ReceiveRoomList {
    pub rooms: Vec<String>,
    pub num_of_users: Vec<u32>,
    pub owned_priv_rooms: Vec<String>,
    pub owned_priv_num_of_users: Vec<u32>,
    pub non_owned_priv_rooms: Vec<String>,
    pub non_owned_priv_num_of_users: Vec<u32>,
    pub operated_priv_rooms: Vec<String>,
}

/// The value of a [`_ReceiveRoomList`], with texts and lists as sequences.
pub struct _ReceiveRoomListModel {
    pub rooms: Seq<Seq<char>>,
    pub num_of_users: Seq<u32>,
    pub owned_priv_rooms: Seq<Seq<char>>,
    pub owned_priv_num_of_users: Seq<u32>,
    pub non_owned_priv_rooms: Seq<Seq<char>>,
    pub non_owned_priv_num_of_users: Seq<u32>,
    pub operated_priv_rooms: Seq<Seq<char>>,
}

impl DeepView for _ReceiveRoomList {
    type V = _ReceiveRoomListModel;

    open spec fn deep_view(&self) -> _ReceiveRoomListModel {
        _ReceiveRoomListModel {
            rooms: self.rooms.deep_view(),
            num_of_users: self.num_of_users.deep_view(),
            owned_priv_rooms: self.owned_priv_rooms.deep_view(),
            owned_priv_num_of_users: self.owned_priv_num_of_users.deep_view(),
            non_owned_priv_rooms: self.non_owned_priv_rooms.deep_view(),
            non_owned_priv_num_of_users: self.non_owned_priv_num_of_users.deep_view(),
            operated_priv_rooms: self.operated_priv_rooms.deep_view(),
        }
    }
}

impl UnpackFromBytes for _ReceiveRoomList {
    /// The fields, one after the other; the first failure stops it.
    open spec fn spec_unpack(bytes: Seq<u8>) -> (Option<_ReceiveRoomListModel>, Seq<u8>) {
        match <Vec<String>>::spec_unpack(bytes) {
            (Some(rooms), r0) => 
                match <Vec<u32>>::spec_unpack(r0) {
                    (Some(num_of_users), r1) => 
                        match <Vec<String>>::spec_unpack(r1) {
                            (Some(owned_priv_rooms), r2) => 
                                match <Vec<u32>>::spec_unpack(r2) {
                                    (Some(owned_priv_num_of_users), r3) => 
                                        match <Vec<String>>::spec_unpack(r3) {
                                            (Some(non_owned_priv_rooms), r4) => 
                                                match <Vec<u32>>::spec_unpack(r4) {
                                                    (Some(non_owned_priv_num_of_users), r5) => 
                                                        match <Vec<String>>::spec_unpack(r5) {
                                                            (Some(operated_priv_rooms), r6) => (Some(_ReceiveRoomListModel { rooms, num_of_users, owned_priv_rooms, owned_priv_num_of_users, non_owned_priv_rooms, non_owned_priv_num_of_users, operated_priv_rooms }), r6),
                                                            (None, r6) => (None, r6),
                                                        },
                                                    (None, r5) => (None, r5),
                                                },
                                            (None, r4) => (None, r4),
                                        },
                                    (None, r3) => (None, r3),
                                },
                            (None, r2) => (None, r2),
                        },
                    (None, r1) => (None, r1),
                },
            (None, r0) => (None, r0),
        }
    }

    fn unpack_from_bytes(bytes: &mut Vec<u8>) -> (r: Option<Self>) {
        let rooms = <Vec<String>>::unpack_from_bytes(bytes)?;
        let num_of_users = <Vec<u32>>::unpack_from_bytes(bytes)?;
        let owned_priv_rooms = <Vec<String>>::unpack_from_bytes(bytes)?;
        let owned_priv_num_of_users = <Vec<u32>>::unpack_from_bytes(bytes)?;
        let non_owned_priv_rooms = <Vec<String>>::unpack_from_bytes(bytes)?;
        let non_owned_priv_num_of_users = <Vec<u32>>::unpack_from_bytes(bytes)?;
        let operated_priv_rooms = <Vec<String>>::unpack_from_bytes(bytes)?;
        Some(_ReceiveRoomList { rooms, num_of_users, owned_priv_rooms, owned_priv_num_of_users, non_owned_priv_rooms, non_owned_priv_num_of_users, operated_priv_rooms })
    }
}
/// Asking the server for the list of chat rooms.
pub struct RoomList;
impl MessageTrait for RoomList {
    type ToSend = _SendRoomList;

    type ToReceive = _ReceiveRoomList;

    open spec fn spec_code() -> MessageType {
        MessageType::Server(64)
    }

    fn code() -> (c: MessageType) {
        MessageType::Server(64)
    }
}

#[derive(Debug, Clone)]
pub struct AdminMessage {
    pub message: String,
}

/// The value of a [`AdminMessage`], with texts and lists as sequences.
pub struct AdminMessageModel {
    pub message: Seq<char>,
}

impl DeepView for AdminMessage {
    type V = AdminMessageModel;

    open spec fn deep_view(&self) -> AdminMessageModel {
        AdminMessageModel {
            message: self.message.deep_view(),
        }
    }
}

impl UnpackFromBytes for AdminMessage {
    /// The fields, one after the other; the first failure stops it.
    open spec fn spec_unpack(bytes: Seq<u8>) -> (Option<AdminMessageModel>, Seq<u8>) {
        match String::spec_unpack(bytes) {
            (Some(message), r0) => (Some(AdminMessageModel { message }), r0),
            (None, r0) => (None, r0),
        }
    }

    fn unpack_from_bytes(bytes: &mut Vec<u8>) -> (r: Option<Self>) {
        let message = String::unpack_from_bytes(bytes)?;
        Some(AdminMessage { message })
    }
}
impl MessageTrait for AdminMessage {
    type ToSend = IsntSent;

    type ToReceive = AdminMessage;

    open spec fn spec_code() -> MessageType {
        MessageType::Server(66)
    }

    fn code() -> (c: MessageType) {
        MessageType::Server(66)
    }
}

#[derive(Debug, Clone)]
pub struct PrivilegedUsers {
    pub usernames: Vec<String>,
}

/// The value of a [`PrivilegedUsers`], with texts and lists as sequences.
pub struct PrivilegedUsersModel {
    pub usernames: Seq<Seq<char>>,
}

impl DeepView for PrivilegedUsers {
    type V = PrivilegedUsersModel;

    open spec fn deep_view(&self) -> PrivilegedUsersModel {
        PrivilegedUsersModel {
            usernames: self.usernames.deep_view(),
        }
    }
}

impl UnpackFromBytes for PrivilegedUsers {
    /// The fields, one after the other; the first failure stops it.
    open spec fn spec_unpack(bytes: Seq<u8>) -> (Option<PrivilegedUsersModel>, Seq<u8>) {
        match <Vec<String>>::spec_unpack(bytes) {
            (Some(usernames), r0) => (Some(PrivilegedUsersModel { usernames }), r0),
            (None, r0) => (None, r0),
        }
    }

    fn unpack_from_bytes(bytes: &mut Vec<u8>) -> (r: Option<Self>) {
        let usernames = <Vec<String>>::unpack_from_bytes(bytes)?;
        Some(PrivilegedUsers { usernames })
    }
}
impl MessageTrait for PrivilegedUsers {
    type ToSend = IsntSent;

    type ToReceive = PrivilegedUsers;

    open spec fn spec_code() -> MessageType {
        MessageType::Server(69)
    }

    fn code() -> (c: MessageType) {
        MessageType::Server(69)
    }
}

#[derive(Debug, Clone, Copy, PartialEq, Eq)]
pub struct HaveNoParent {
    pub have_parents: bool,
}

impl DeepView for HaveNoParent {
    type V = HaveNoParent;

    open spec fn deep_view(&self) -> HaveNoParent {
        *self
    }
}

impl PackToBytes for HaveNoParent {
    /// The fields, one after the other.
    open spec fn spec_pack(v: HaveNoParent) -> Seq<u8> {
        bool::spec_pack(v.have_parents)
    }

    fn pack_to_bytes(&self) -> (r: Vec<u8>) {
        let mut bytes: Vec<u8> = Vec::new();
        let mut have_parents = self.have_parents.pack_to_bytes();
        bytes.append(&mut have_parents);
        assert(bytes@ =~= Self::spec_pack(self.deep_view()));
        bytes
    }
}
impl MessageTrait for HaveNoParent {
    type ToSend = HaveNoParent;

    type ToReceive = IsntReceived;

    open spec fn spec_code() -> MessageType {
        MessageType::Server(71)
    }

    fn code() -> (c: MessageType) {
        MessageType::Server(71)
    }
}

#[derive(Debug, Clone, Copy, PartialEq, Eq)]
pub struct ParentMinSpeed {
    pub speed: u32,
}

impl DeepView for ParentMinSpeed {
    type V = ParentMinSpeed;

    open spec fn deep_view(&self) -> ParentMinSpeed {
        *self
    }
}

impl UnpackFromBytes for ParentMinSpeed {
    /// The fields, one after the other; the first failure stops it.
    open spec fn spec_unpack(bytes: Seq<u8>) -> (Option<ParentMinSpeed>, Seq<u8>) {
        match u32::spec_unpack(bytes) {
            (Some(speed), r0) => (Some(ParentMinSpeed { speed }), r0),
            (None, r0) => (None, r0),
        }
    }

    fn unpack_from_bytes(bytes: &mut Vec<u8>) -> (r: Option<Self>) {
        let speed = u32::unpack_from_bytes(bytes)?;
        Some(ParentMinSpeed { speed })
    }
}
impl MessageTrait for ParentMinSpeed {
    type ToSend = IsntSent;

    type ToReceive = ParentMinSpeed;

    open spec fn spec_code() -> MessageType {
        MessageType::Server(83)
    }

    fn code() -> (c: MessageType) {
        MessageType::Server(83)
    }
}

#[derive(Debug, Clone, Copy, PartialEq, Eq)]
pub struct ParentSpeedRatio {
    pub ratio: u32,
}

impl DeepView for ParentSpeedRatio {
    type V = ParentSpeedRatio;

    open spec fn deep_view(&self) -> ParentSpeedRatio {
        *self
    }
}

impl UnpackFromBytes for ParentSpeedRatio {
    /// The fields, one after the other; the first failure stops it.
    open spec fn spec_unpack(bytes: Seq<u8>) -> (Option<ParentSpeedRatio>, Seq<u8>) {
        match u32::spec_unpack(bytes) {
            (Some(ratio), r0) => (Some(ParentSpeedRatio { ratio }), r0),
            (None, r0) => (None, r0),
        }
    }

    fn unpack_from_bytes(bytes: &mut Vec<u8>) -> (r: Option<Self>) {
        let ratio = u32::unpack_from_bytes(bytes)?;
        Some(ParentSpeedRatio { ratio })
    }
}
impl MessageTrait for ParentSpeedRatio {
    type ToSend = IsntSent;

    type ToReceive = ParentSpeedRatio;

    open spec fn spec_code() -> MessageType {
        MessageType::Server(84)
    }

    fn code() -> (c: MessageType) {
        MessageType::Server(84)
    }
}

#[derive(Debug, Clone, Copy, PartialEq, Eq)]
pub struct _SendCheckPrivileges {}

impl DeepView for _SendCheckPrivileges {
    type V = _SendCheckPrivileges;

    open spec fn deep_view(&self) -> _SendCheckPrivileges {
        *self
    }
}

impl PackToBytes for _SendCheckPrivileges {
    /// The fields, one after the other.
    open spec fn spec_pack(v: _SendCheckPrivileges) -> Seq<u8> {
        Seq::empty()
    }

    fn pack_to_bytes(&self) -> (r: Vec<u8>) {
        let mut bytes: Vec<u8> = Vec::new();
        assert(bytes@ =~= Self::spec_pack(self.deep_view()));
        bytes
    }
}
#[derive(Debug, Clone, Copy, PartialEq, Eq)]
pub struct _ReceiveCheckPrivileges {
    pub time_left_seconds: u32,
}

impl DeepView for _ReceiveCheckPrivileges {
    type V = _ReceiveCheckPrivileges;

    open spec fn deep_view(&self) -> _ReceiveCheckPrivileges {
        *self
    }
}

impl UnpackFromBytes for _ReceiveCheckPrivileges {
    /// The fields, one after the other; the first failure stops it.
    open spec fn spec_unpack(bytes: Seq<u8>) -> (Option<_ReceiveCheckPrivileges>, Seq<u8>) {
        match u32::spec_unpack(bytes) {
            (Some(time_left_seconds), r0) => (Some(_ReceiveCheckPrivileges { time_left_seconds }), r0),
            (None, r0) => (None, r0),
        }
    }

    fn unpack_from_bytes(bytes: &mut Vec<u8>) -> (r: Option<Self>) {
        let time_left_seconds = u32::unpack_from_bytes(bytes)?;
        Some(_ReceiveCheckPrivileges { time_left_seconds })
    }
}
/// Asking the server how long the user stays privileged.
pub struct CheckPrivileges;
impl MessageTrait for CheckPrivileges {
    type ToSend = _SendCheckPrivileges;

    type ToReceive = _ReceiveCheckPrivileges;

    open spec fn spec_code() -> MessageType {
        MessageType::Server(92)
    }

    fn code() -> (c: MessageType) {
        MessageType::Server(92)
    }
}

#[derive(Debug, Clone)]
pub struct EmbeddedMessage {
    pub distributed_code: u8,
    pub distributed_message: String,
}

/// The value of a [`EmbeddedMessage`], with texts and lists as sequences.
pub struct EmbeddedMessageModel {
    pub distributed_code: u8,
    pub distributed_message: Seq<char>,
}

impl DeepView for EmbeddedMessage {
    type V = EmbeddedMessageModel;

    open spec fn deep_view(&self) -> EmbeddedMessageModel {
        EmbeddedMessageModel {
            distributed_code: self.distributed_code.deep_view(),
            distributed_message: self.distributed_message.deep_view(),
        }
    }
}

impl UnpackFromBytes for EmbeddedMessage {
    /// The fields, one after the other; the first failure stops it.
    open spec fn spec_unpack(bytes: Seq<u8>) -> (Option<EmbeddedMessageModel>, Seq<u8>) {
        match u8::spec_unpack(bytes) {
            (Some(distributed_code), r0) => 
                match String::spec_unpack(r0) {
                    (Some(distributed_message), r1) => (Some(EmbeddedMessageModel { distributed_code, distributed_message }), r1),
                    (None, r1) => (None, r1),
                },
            (None, r0) => (None, r0),
        }
    }

    fn unpack_from_bytes(bytes: &mut Vec<u8>) -> (r: Option<Self>) {
        let distributed_code = u8::unpack_from_bytes(bytes)?;
        let distributed_message = String::unpack_from_bytes(bytes)?;
        Some(EmbeddedMessage { distributed_code, distributed_message })
    }
}
impl MessageTrait for EmbeddedMessage {
    type ToSend = IsntSent;

    type ToReceive = EmbeddedMessage;

    open spec fn spec_code() -> MessageType {
        MessageType::Server(93)
    }

    fn code() -> (c: MessageType) {
        MessageType::Server(93)
    }
}

#[derive(Debug, Clone, Copy, PartialEq, Eq)]
pub struct AcceptChildren {
    pub accept: bool,
}

impl DeepView for AcceptChildren {
    type V = AcceptChildren;

    open spec fn deep_view(&self) -> AcceptChildren {
        *self
    }
}

impl PackToBytes for AcceptChildren {
    /// The fields, one after the other.
    open spec fn spec_pack(v: AcceptChildren) -> Seq<u8> {
        bool::spec_pack(v.accept)
    }

    fn pack_to_bytes(&self) -> (r: Vec<u8>) {
        let mut bytes: Vec<u8> = Vec::new();
        let mut accept = self.accept.pack_to_bytes();
        bytes.append(&mut accept);
        assert(bytes@ =~= Self::spec_pack(self.deep_view()));
        bytes
    }
}
impl MessageTrait for AcceptChildren {
    type ToSend = AcceptChildren;

    type ToReceive = IsntReceived;

    open spec fn spec_code() -> MessageType {
        MessageType::Server(100)
    }

    fn code() -> (c: MessageType) {
        MessageType::Server(100)
    }
}

#[derive(Debug, Clone)]
pub struct PossibleParents {
    pub usernames: Vec<String>,
}

/// The value of a [`PossibleParents`], with texts and lists as sequences.
pub struct PossibleParentsModel {
    pub usernames: Seq<Seq<char>>,
}

impl DeepView for PossibleParents {
    type V = PossibleParentsModel;

    open spec fn deep_view(&self) -> PossibleParentsModel {
        PossibleParentsModel {
            usernames: self.usernames.deep_view(),
        }
    }
}

impl UnpackFromBytes for PossibleParents {
    /// The fields, one after the other; the first failure stops it.
    open spec fn spec_unpack(bytes: Seq<u8>) -> (Option<PossibleParentsModel>, Seq<u8>) {
        match <Vec<String>>::spec_unpack(bytes) {
            (Some(usernames), r0) => (Some(PossibleParentsModel { usernames }), r0),
            (None, r0) => (None, r0),
        }
    }

    fn unpack_from_bytes(bytes: &mut Vec<u8>) -> (r: Option<Self>) {
        let usernames = <Vec<String>>::unpack_from_bytes(bytes)?;
        Some(PossibleParents { usernames })
    }
}
impl MessageTrait for PossibleParents {
    type ToSend = IsntSent;

    type ToReceive = PossibleParents;

    open spec fn spec_code() -> MessageType {
        MessageType::Server(102)
    }

    fn code() -> (c: MessageType) {
        MessageType::Server(102)
    }
}

#[derive(Debug, Clone, Copy, PartialEq, Eq)]
pub struct WishlistSearch {
    pub token: u32,
    pub search_query: u32,
}

impl DeepView for WishlistSearch {
    type V = WishlistSearch;

    open spec fn deep_view(&self) -> WishlistSearch {
        *self
    }
}

impl PackToBytes for WishlistSearch {
    /// The fields, one after the other.
    open spec fn spec_pack(v: WishlistSearch) -> Seq<u8> {
        u32::spec_pack(v.token) + u32::spec_pack(v.search_query)
    }

    fn pack_to_bytes(&self) -> (r: Vec<u8>) {
        let mut bytes: Vec<u8> = Vec::new();
        let mut token = self.token.pack_to_bytes();
        bytes.append(&mut token);
        let mut search_query = self.search_query.pack_to_bytes();
        bytes.append(&mut search_query);
        assert(bytes@ =~= Self::spec_pack(self.deep_view()));
        bytes
    }
}
impl MessageTrait for WishlistSearch {
    type ToSend = WishlistSearch;

    type ToReceive = IsntReceived;

    open spec fn spec_code() -> MessageType {
        MessageType::Server(103)
    }

    fn code() -> (c: MessageType) {
        MessageType::Server(103)
    }
}

#[derive(Debug, Clone, Copy, PartialEq, Eq)]
pub struct WishListInterval {
    pub interval: u32,
}

impl DeepView for WishListInterval {
    type V = WishListInterval;

    open spec fn deep_view(&self) -> WishListInterval {
        *self
    }
}

impl UnpackFromBytes for WishListInterval {
    /// The fields, one after the other; the first failure stops it.
    open spec fn spec_unpack(bytes: Seq<u8>) -> (Option<WishListInterval>, Seq<u8>) {
        match u32::spec_unpack(bytes) {
            (Some(interval), r0) => (Some(WishListInterval { interval }), r0),
            (None, r0) => (None, r0),
        }
    }

    fn unpack_from_bytes(bytes: &mut Vec<u8>) -> (r: Option<Self>) {
        let interval = u32::unpack_from_bytes(bytes)?;
        Some(WishListInterval { interval })
    }
}
impl MessageTrait for WishListInterval {
    type ToSend = IsntSent;

    type ToReceive = WishListInterval;

    open spec fn spec_code() -> MessageType {
        MessageType::Server(104)
    }

    fn code() -> (c: MessageType) {
        MessageType::Server(104)
    }
}

#[derive(Debug, Clone)]
pub struct Ticker {
    pub username: String,
    pub ticker: String,
}

/// The value of a [`Ticker`], with texts and lists as sequences.
pub struct TickerModel {
    pub username: Seq<char>,
    pub ticker: Seq<char>,
}

impl DeepView for Ticker {
    type V = TickerModel;

    open spec fn deep_view(&self) -> TickerModel {
        TickerModel {
            username: self.username.deep_view(),
            ticker: self.ticker.deep_view(),
        }
    }
}

impl UnpackFromBytes for Ticker {
    /// The fields, one after the other; the first failure stops it.
    open spec fn spec_unpack(bytes: Seq<u8>) -> (Option<TickerModel>, Seq<u8>) {
        match String::spec_unpack(bytes) {
            (Some(username), r0) => 
                match String::spec_unpack(r0) {
                    (Some(ticker), r1) => (Some(TickerModel { username, ticker }), r1),
                    (None, r1) => (None, r1),
                },
            (None, r0) => (None, r0),
        }
    }

    fn unpack_from_bytes(bytes: &mut Vec<u8>) -> (r: Option<Self>) {
        let username = String::unpack_from_bytes(bytes)?;
        let ticker = String::unpack_from_bytes(bytes)?;
        Some(Ticker { username, ticker })
    }
}
#[derive(Debug, Clone)]
pub struct RoomTickerState {
    pub room: String,
    pub tickers: Vec<Ticker>,
}

/// The value of a [`RoomTickerState`], with texts and lists as sequences.
pub struct RoomTickerStateModel {
    pub room: Seq<char>,
    pub tickers: Seq<TickerModel>,
}

impl DeepView for RoomTickerState {
    type V = RoomTickerStateModel;

    open spec fn deep_view(&self) -> RoomTickerStateModel {
        RoomTickerStateModel {
            room: self.room.deep_view(),
            tickers: self.tickers.deep_view(),
        }
    }
}

impl UnpackFromBytes for RoomTickerState {
    /// The fields, one after the other; the first failure stops it.
    open spec fn spec_unpack(bytes: Seq<u8>) -> (Option<RoomTickerStateModel>, Seq<u8>) {
        match String::spec_unpack(bytes) {
            (Some(room), r0) => 
                match <Vec<Ticker>>::spec_unpack(r0) {
                    (Some(tickers), r1) => (Some(RoomTickerStateModel { room, tickers }), r1),
                    (None, r1) => (None, r1),
                },
            (None, r0) => (None, r0),
        }
    }

    fn unpack_from_bytes(bytes: &mut Vec<u8>) -> (r: Option<Self>) {
        let room = String::unpack_from_bytes(bytes)?;
        let tickers = <Vec<Ticker>>::unpack_from_bytes(bytes)?;
        Some(RoomTickerState { room, tickers })
    }
}
impl MessageTrait for RoomTickerState {
    type ToSend = IsntSent;

    type ToReceive = RoomTickerState;

    open spec fn spec_code() -> MessageType {
        MessageType::Server(113)
    }

    fn code() -> (c: MessageType) {
        MessageType::Server(113)
    }
}

#[derive(Debug, Clone)]
pub struct RoomTickerAdd {
    pub room: String,
    pub username: String,
    pub ticker: String,
}

/// The value of a [`RoomTickerAdd`], with texts and lists as sequences.
pub struct RoomTickerAddModel {
    pub room: Seq<char>,
    pub username: Seq<char>,
    pub ticker: Seq<char>,
}

impl DeepView for RoomTickerAdd {
    type V = RoomTickerAddModel;

    open spec fn deep_view(&self) -> RoomTickerAddModel {
        RoomTickerAddModel {
            room: self.room.deep_view(),
            username: self.username.deep_view(),
            ticker: self.ticker.deep_view(),
        }
    }
}

impl UnpackFromBytes for RoomTickerAdd {
    /// The fields, one after the other; the first failure stops it.
    open spec fn spec_unpack(bytes: Seq<u8>) -> (Option<RoomTickerAddModel>, Seq<u8>) {
        match String::spec_unpack(bytes) {
            (Some(room), r0) => 
                match String::spec_unpack(r0) {
                    (Some(username), r1) => 
                        match String::spec_unpack(r1) {
                            (Some(ticker), r2) => (Some(RoomTickerAddModel { room, username, ticker }), r2),
                            (None, r2) => (None, r2),
                        },
                    (None, r1) => (None, r1),
                },
            (None, r0) => (None, r0),
        }
    }

    fn unpack_from_bytes(bytes: &mut Vec<u8>) -> (r: Option<Self>) {
        let room = String::unpack_from_bytes(bytes)?;
        let username = String::unpack_from_bytes(bytes)?;
        let ticker = String::unpack_from_bytes(bytes)?;
        Some(RoomTickerAdd { room, username, ticker })
    }
}
impl MessageTrait for RoomTickerAdd {
    type ToSend = IsntSent;

    type ToReceive = RoomTickerAdd;

    open spec fn spec_code() -> MessageType {
        MessageType::Server(114)
    }

    fn code() -> (c: MessageType) {
        MessageType::Server(114)
    }
}

#[derive(Debug, Clone)]
pub struct RoomTickerRemove {
    pub room: String,
    pub username: String,
}

/// The value of a [`RoomTickerRemove`], with texts and lists as sequences.
pub struct RoomTickerRemoveModel {
    pub room: Seq<char>,
    pub username: Seq<char>,
}

impl DeepView for RoomTickerRemove {
    type V = RoomTickerRemoveModel;

    open spec fn deep_view(&self) -> RoomTickerRemoveModel {
        RoomTickerRemoveModel {
            room: self.room.deep_view(),
            username: self.username.deep_view(),
        }
    }
}

impl UnpackFromBytes for RoomTickerRemove {
    /// The fields, one after the other; the first failure stops it.
    open spec fn spec_unpack(bytes: Seq<u8>) -> (Option<RoomTickerRemoveModel>, Seq<u8>) {
        match String::spec_unpack(bytes) {
            (Some(room), r0) => 
                match String::spec_unpack(r0) {
                    (Some(username), r1) => (Some(RoomTickerRemoveModel { room, username }), r1),
                    (None, r1) => (None, r1),
                },
            (None, r0) => (None, r0),
        }
    }

    fn unpack_from_bytes(bytes: &mut Vec<u8>) -> (r: Option<Self>) {
        let room = String::unpack_from_bytes(bytes)?;
        let username = String::unpack_from_bytes(bytes)?;
        Some(RoomTickerRemove { room, username })
    }
}
impl MessageTrait for RoomTickerRemove {
    type ToSend = IsntSent;

    type ToReceive = RoomTickerRemove;

    open spec fn spec_code() -> MessageType {
        MessageType::Server(115)
    }

    fn code() -> (c: MessageType) {
        MessageType::Server(115)
    }
}

#[derive(Debug, Clone)]
pub struct RoomTickerSet {
    pub room: String,
    pub ticker: String,
}

/// The value of a [`RoomTickerSet`], with texts and lists as sequences.
pub struct RoomTickerSetModel {
    pub room: Seq<char>,
    pub ticker: Seq<char>,
}

impl DeepView for RoomTickerSet {
    type V = RoomTickerSetModel;

    open spec fn deep_view(&self) -> RoomTickerSetModel {
        RoomTickerSetModel {
            room: self.room.deep_view(),
            ticker: self.ticker.deep_view(),
        }
    }
}

impl PackToBytes for RoomTickerSet {
    /// The fields, one after the other.
    open spec fn spec_pack(v: RoomTickerSetModel) -> Seq<u8> {
        String::spec_pack(v.room) + String::spec_pack(v.ticker)
    }

    fn pack_to_bytes(&self) -> (r: Vec<u8>) {
        let mut bytes: Vec<u8> = Vec::new();
        let mut room = self.room.pack_to_bytes();
        bytes.append(&mut room);
        let mut ticker = self.ticker.pack_to_bytes();
        bytes.append(&mut ticker);
        assert(bytes@ =~= Self::spec_pack(self.deep_view()));
        bytes
    }
}
impl MessageTrait for RoomTickerSet {
    type ToSend = RoomTickerSet;

    type ToReceive = IsntReceived;

    open spec fn spec_code() -> MessageType {
        MessageType::Server(116)
    }

    fn code() -> (c: MessageType) {
        MessageType::Server(116)
    }
}

#[derive(Debug, Clone)]
pub struct RoomSearch {
    pub room: String,
    pub token: u32,
    pub search_query: String,
}

/// The value of a [`RoomSearch`], with texts and lists as sequences.
pub struct RoomSearchModel {
    pub room: Seq<char>,
    pub token: u32,
    pub search_query: Seq<char>,
}

impl DeepView for RoomSearch {
    type V = RoomSearchModel;

    open spec fn deep_view(&self) -> RoomSearchModel {
        RoomSearchModel {
            room: self.room.deep_view(),
            token: self.token.deep_view(),
            search_query: self.search_query.deep_view(),
        }
    }
}

impl PackToBytes for RoomSearch {
    /// The fields, one after the other.
    open spec fn spec_pack(v: RoomSearchModel) -> Seq<u8> {
        String::spec_pack(v.room) + u32::spec_pack(v.token) + String::spec_pack(v.search_query)
    }

    fn pack_to_bytes(&self) -> (r: Vec<u8>) {
        let mut bytes: Vec<u8> = Vec::new();
        let mut room = self.room.pack_to_bytes();
        bytes.append(&mut room);
        let mut token = self.token.pack_to_bytes();
        bytes.append(&mut token);
        let mut search_query = self.search_query.pack_to_bytes();
        bytes.append(&mut search_query);
        assert(bytes@ =~= Self::spec_pack(self.deep_view()));
        bytes
    }
}
impl MessageTrait for RoomSearch {
    type ToSend = RoomSearch;

    type ToReceive = IsntReceived;

    open spec fn spec_code() -> MessageType {
        MessageType::Server(120)
    }

    fn code() -> (c: MessageType) {
        MessageType::Server(120)
    }
}

#[derive(Debug, Clone, Copy, PartialEq, Eq)]
pub struct SendUploadSpeed {
    pub speed: u32,
}

impl DeepView for SendUploadSpeed {
    type V = SendUploadSpeed;

    open spec fn deep_view(&self) -> SendUploadSpeed {
        *self
    }
}

impl PackToBytes for SendUploadSpeed {
    /// The fields, one after the other.
    open spec fn spec_pack(v: SendUploadSpeed) -> Seq<u8> {
        u32::spec_pack(v.speed)
    }

    fn pack_to_bytes(&self) -> (r: Vec<u8>) {
        let mut bytes: Vec<u8> = Vec::new();
        let mut speed = self.speed.pack_to_bytes();
        bytes.append(&mut speed);
        assert(bytes@ =~= Self::spec_pack(self.deep_view()));
        bytes
    }
}
impl MessageTrait for SendUploadSpeed {
    type ToSend = SendUploadSpeed;

    type ToReceive = IsntReceived;

    open spec fn spec_code() -> MessageType {
        MessageType::Server(121)
    }

    fn code() -> (c: MessageType) {
        MessageType::Server(121)
    }
}

#[derive(Debug, Clone)]
pub struct GivePrivileges {
    pub username: String,
    pub days: u32,
}

/// The value of a [`GivePrivileges`], with texts and lists as sequences.
pub struct GivePrivilegesModel {
    pub username: Seq<char>,
    pub days: u32,
}

impl DeepView for GivePrivileges {
    type V = GivePrivilegesModel;

    open spec fn deep_view(&self) -> GivePrivilegesModel {
        GivePrivilegesModel {
            username: self.username.deep_view(),
            days: self.days.deep_view(),
        }
    }
}

impl PackToBytes for GivePrivileges {
    /// The fields, one after the other.
    open spec fn spec_pack(v: GivePrivilegesModel) -> Seq<u8> {
        String::spec_pack(v.username) + u32::spec_pack(v.days)
    }

    fn pack_to_bytes(&self) -> (r: Vec<u8>) {
        let mut bytes: Vec<u8> = Vec::new();
        let mut username = self.username.pack_to_bytes();
        bytes.append(&mut username);
        let mut days = self.days.pack_to_bytes();
        bytes.append(&mut days);
        assert(bytes@ =~= Self::spec_pack(self.deep_view()));
        bytes
    }
}
impl MessageTrait for GivePrivileges {
    type ToSend = GivePrivileges;

    type ToReceive = IsntReceived;

    open spec fn spec_code() -> MessageType {
        MessageType::Server(123)
    }

    fn code() -> (c: MessageType) {
        MessageType::Server(123)
    }
}

#[derive(Debug, Clone, Copy, PartialEq, Eq)]
pub struct BranchLevel {
    pub branch_level: u32,
}

impl DeepView for BranchLevel {
    type V = BranchLevel;

    open spec fn deep_view(&self) -> BranchLevel {
        *self
    }
}

impl PackToBytes for BranchLevel {
    /// The fields, one after the other.
    open spec fn spec_pack(v: BranchLevel) -> Seq<u8> {
        u32::spec_pack(v.branch_level)
    }

    fn pack_to_bytes(&self) -> (r: Vec<u8>) {
        let mut bytes: Vec<u8> = Vec::new();
        let mut branch_level = self.branch_level.pack_to_bytes();
        bytes.append(&mut branch_level);
        assert(bytes@ =~= Self::spec_pack(self.deep_view()));
        bytes
    }
}
impl MessageTrait for BranchLevel {
    type ToSend = BranchLevel;

    type ToReceive = IsntReceived;

    open spec fn spec_code() -> MessageType {
        MessageType::Server(126)
    }

    fn code() -> (c: MessageType) {
        MessageType::Server(126)
    }
}

#[derive(Debug, Clone)]
pub struct BranchRoot {
    pub branch_root: String,
}

/// The value of a [`BranchRoot`], with texts and lists as sequences.
pub struct BranchRootModel {
    pub branch_root: Seq<char>,
}

impl DeepView for BranchRoot {
    type V = BranchRootModel;

    open spec fn deep_view(&self) -> BranchRootModel {
        BranchRootModel {
            branch_root: self.branch_root.deep_view(),
        }
    }
}

impl PackToBytes for BranchRoot {
    /// The fields, one after the other.
    open spec fn spec_pack(v: BranchRootModel) -> Seq<u8> {
        String::spec_pack(v.branch_root)
    }

    fn pack_to_bytes(&self) -> (r: Vec<u8>) {
        let mut bytes: Vec<u8> = Vec::new();
        let mut branch_root = self.branch_root.pack_to_bytes();
        bytes.append(&mut branch_root);
        assert(bytes@ =~= Self::spec_pack(self.deep_view()));
        bytes
    }
}
impl MessageTrait for BranchRoot {
    type ToSend = BranchRoot;

    type ToReceive = IsntReceived;

    open spec fn spec_code() -> MessageType {
        MessageType::Server(127)
    }

    fn code() -> (c: MessageType) {
        MessageType::Server(127)
    }
}

#[derive(Debug, Clone, Copy, PartialEq, Eq)]
pub struct ResetDistributed {}

impl DeepView for ResetDistributed {
    type V = ResetDistributed;

    open spec fn deep_view(&self) -> ResetDistributed {
        *self
    }
}

impl UnpackFromBytes for ResetDistributed {
    /// The fields, one after the other; the first failure stops it.
    open spec fn spec_unpack(bytes: Seq<u8>) -> (Option<ResetDistributed>, Seq<u8>) {
        (Some(ResetDistributed {}), bytes)
    }

    fn unpack_from_bytes(bytes: &mut Vec<u8>) -> (r: Option<Self>) {
        Some(ResetDistributed {  })
    }
}
impl MessageTrait for ResetDistributed {
    type ToSend = IsntSent;

    type ToReceive = ResetDistributed;

    open spec fn spec_code() -> MessageType {
        MessageType::Server(130)
    }

    fn code() -> (c: MessageType) {
        MessageType::Server(130)
    }
}

#[derive(Debug, Clone)]
pub struct PrivateRoomUsers {
    pub room: String,
    pub users: Vec<String>,
}

/// The value of a [`PrivateRoomUsers`], with texts and lists as sequences.
pub struct PrivateRoomUsersModel {
    pub room: Seq<char>,
    pub users: Seq<Seq<char>>,
}

impl DeepView for PrivateRoomUsers {
    type V = PrivateRoomUsersModel;

    open spec fn deep_view(&self) -> PrivateRoomUsersModel {
        PrivateRoomUsersModel {
            room: self.room.deep_view(),
            users: self.users.deep_view(),
        }
    }
}

impl UnpackFromBytes for PrivateRoomUsers {
    /// The fields, one after the other; the first failure stops it.
    open spec fn spec_unpack(bytes: Seq<u8>) -> (Option<PrivateRoomUsersModel>, Seq<u8>) {
        match String::spec_unpack(bytes) {
            (Some(room), r0) => 
                match <Vec<String>>::spec_unpack(r0) {
                    (Some(users), r1) => (Some(PrivateRoomUsersModel { room, users }), r1),
                    (None, r1) => (None, r1),
                },
            (None, r0) => (None, r0),
        }
    }

    fn unpack_from_bytes(bytes: &mut Vec<u8>) -> (r: Option<Self>) {
        let room = String::unpack_from_bytes(bytes)?;
        let users = <Vec<String>>::unpack_from_bytes(bytes)?;
        Some(PrivateRoomUsers { room, users })
    }
}
impl MessageTrait for PrivateRoomUsers {
    type ToSend = IsntSent;

    type ToReceive = PrivateRoomUsers;

    open spec fn spec_code() -> MessageType {
        MessageType::Server(133)
    }

    fn code() -> (c: MessageType) {
        MessageType::Server(133)
    }
}

#[derive(Debug, Clone)]
pub struct PrivateRoomAddUser {
    pub room: String,
    pub username: String,
}

/// The value of a [`PrivateRoomAddUser`], with texts and lists as sequences.
pub struct PrivateRoomAddUserModel {
    pub room: Seq<char>,
    pub username: Seq<char>,
}

impl DeepView for PrivateRoomAddUser {
    type V = PrivateRoomAddUserModel;

    open spec fn deep_view(&self) -> PrivateRoomAddUserModel {
        PrivateRoomAddUserModel {
            room: self.room.deep_view(),
            username: self.username.deep_view(),
        }
    }
}

impl PrivateRoomAddUserModel {
    /// Every text and list fits its `u32` length prefix.
    pub open spec fn wire_ok(self) -> bool {
        &&& utf8_bytes(self.room).len() <= u32::MAX
        &&& utf8_bytes(self.username).len() <= u32::MAX
    }
}

impl PackToBytes for PrivateRoomAddUser {
    /// The fields, one after the other.
    open spec fn spec_pack(v: PrivateRoomAddUserModel) -> Seq<u8> {
        String::spec_pack(v.room) + String::spec_pack(v.username)
    }

    fn pack_to_bytes(&self) -> (r: Vec<u8>) {
        let mut bytes: Vec<u8> = Vec::new();
        let mut room = self.room.pack_to_bytes();
        bytes.append(&mut room);
        let mut username = self.username.pack_to_bytes();
        bytes.append(&mut username);
        assert(bytes@ =~= Self::spec_pack(self.deep_view()));
        bytes
    }
}

impl UnpackFromBytes for PrivateRoomAddUser {
    /// The fields, one after the other; the first failure stops it.
    open spec fn spec_unpack(bytes: Seq<u8>) -> (Option<PrivateRoomAddUserModel>, Seq<u8>) {
        match String::spec_unpack(bytes) {
            (Some(room), r0) => 
                match String::spec_unpack(r0) {
                    (Some(username), r1) => (Some(PrivateRoomAddUserModel { room, username }), r1),
                    (None, r1) => (None, r1),
                },
            (None, r0) => (None, r0),
        }
    }

    fn unpack_from_bytes(bytes: &mut Vec<u8>) -> (r: Option<Self>) {
        let room = String::unpack_from_bytes(bytes)?;
        let username = String::unpack_from_bytes(bytes)?;
        Some(PrivateRoomAddUser { room, username })
    }
}

impl PrivateRoomAddUser {
    /// Decoding the encoding of a message gives the message back, whatever
    /// follows it, when its texts and lists fit their length prefixes.
    pub proof fn lemma_roundtrip(m: PrivateRoomAddUserModel)
        requires
            m.wire_ok(),
        ensures
            roundtrips::<PrivateRoomAddUser>(m),
    {
        lemma_string_roundtrip(m.room);
        lemma_string_roundtrip(m.username);
        assert forall|rest: Seq<u8>|
            #[trigger] PrivateRoomAddUser::spec_unpack(PrivateRoomAddUser::spec_pack(m) + rest) == (Some(m), rest) by {
            let t2 = rest;
            let t1 = String::spec_pack(m.username) + t2;
            let t0 = String::spec_pack(m.room) + t1;
            assert(PrivateRoomAddUser::spec_pack(m) + rest =~= t0);
            assert(String::spec_unpack(t0) == (Some(m.room), t1));
            assert(String::spec_unpack(t1) == (Some(m.username), t2));
        }
    }
}
impl MessageTrait for PrivateRoomAddUser {
    type ToSend = PrivateRoomAddUser;

    type ToReceive = PrivateRoomAddUser;

    open spec fn spec_code() -> MessageType {
        MessageType::Server(134)
    }

    fn code() -> (c: MessageType) {
        MessageType::Server(134)
    }
}

#[derive(Debug, Clone)]
pub struct PrivateRoomRemoveUser {
    pub room: String,
    pub username: String,
}

/// The value of a [`PrivateRoomRemoveUser`], with texts and lists as sequences.
pub struct PrivateRoomRemoveUserModel {
    pub room: Seq<char>,
    pub username: Seq<char>,
}

impl DeepView for PrivateRoomRemoveUser {
    type V = PrivateRoomRemoveUserModel;

    open spec fn deep_view(&self) -> PrivateRoomRemoveUserModel {
        PrivateRoomRemoveUserModel {
            room: self.room.deep_view(),
            username: self.username.deep_view(),
        }
    }
}

impl PrivateRoomRemoveUserModel {
    /// Every text and list fits its `u32` length prefix.
    pub open spec fn wire_ok(self) -> bool {
        &&& utf8_bytes(self.room).len() <= u32::MAX
        &&& utf8_bytes(self.username).len() <= u32::MAX
    }
}

impl PackToBytes for PrivateRoomRemoveUser {
    /// The fields, one after the other.
    open spec fn spec_pack(v: PrivateRoomRemoveUserModel) -> Seq<u8> {
        String::spec_pack(v.room) + String::spec_pack(v.username)
    }

    fn pack_to_bytes(&self) -> (r: Vec<u8>) {
        let mut bytes: Vec<u8> = Vec::new();
        let mut room = self.room.pack_to_bytes();
        bytes.append(&mut room);
        let mut username = self.username.pack_to_bytes();
        bytes.append(&mut username);
        assert(bytes@ =~= Self::spec_pack(self.deep_view()));
        bytes
    }
}

impl UnpackFromBytes for PrivateRoomRemoveUser {
    /// The fields, one after the other; the first failure stops it.
    open spec fn spec_unpack(bytes: Seq<u8>) -> (Option<PrivateRoomRemoveUserModel>, Seq<u8>) {
        match String::spec_unpack(bytes) {
            (Some(room), r0) => 
                match String::spec_unpack(r0) {
                    (Some(username), r1) => (Some(PrivateRoomRemoveUserModel { room, username }), r1),
                    (None, r1) => (None, r1),
                },
            (None, r0) => (None, r0),
        }
    }

    fn unpack_from_bytes(bytes: &mut Vec<u8>) -> (r: Option<Self>) {
        let room = String::unpack_from_bytes(bytes)?;
        let username = String::unpack_from_bytes(bytes)?;
        Some(PrivateRoomRemoveUser { room, username })
    }
}

impl PrivateRoomRemoveUser {
    /// Decoding the encoding of a message gives the message back, whatever
    /// follows it, when its texts and lists fit their length prefixes.
    pub proof fn lemma_roundtrip(m: PrivateRoomRemoveUserModel)
        requires
            m.wire_ok(),
        ensures
            roundtrips::<PrivateRoomRemoveUser>(m),
    {
        lemma_string_roundtrip(m.room);
        lemma_string_roundtrip(m.username);
        assert forall|rest: Seq<u8>|
            #[trigger] PrivateRoomRemoveUser::spec_unpack(PrivateRoomRemoveUser::spec_pack(m) + rest) == (Some(m), rest) by {
            let t2 = rest;
            let t1 = String::spec_pack(m.username) + t2;
            let t0 = String::spec_pack(m.room) + t1;
            assert(PrivateRoomRemoveUser::spec_pack(m) + rest =~= t0);
            assert(String::spec_unpack(t0) == (Some(m.room), t1));
            assert(String::spec_unpack(t1) == (Some(m.username), t2));
        }
    }
}
impl MessageTrait for PrivateRoomRemoveUser {
    type ToSend = PrivateRoomRemoveUser;

    type ToReceive = PrivateRoomRemoveUser;

    open spec fn spec_code() -> MessageType {
        MessageType::Server(135)
    }

    fn code() -> (c: MessageType) {
        MessageType::Server(135)
    }
}

#[derive(Debug, Clone)]
pub struct PrivateRoomDismember {
    pub room: String,
}

/// The value of a [`PrivateRoomDismember`], with texts and lists as sequences.
pub struct PrivateRoomDismemberModel {
    pub room: Seq<char>,
}

impl DeepView for PrivateRoomDismember {
    type V = PrivateRoomDismemberModel;

    open spec fn deep_view(&self) -> PrivateRoomDismemberModel {
        PrivateRoomDismemberModel {
            room: self.room.deep_view(),
        }
    }
}

impl PackToBytes for PrivateRoomDismember {
    /// The fields, one after the other.
    open spec fn spec_pack(v: PrivateRoomDismemberModel) -> Seq<u8> {
        String::spec_pack(v.room)
    }

    fn pack_to_bytes(&self) -> (r: Vec<u8>) {
        let mut bytes: Vec<u8> = Vec::new();
        let mut room = self.room.pack_to_bytes();
        bytes.append(&mut room);
        assert(bytes@ =~= Self::spec_pack(self.deep_view()));
        bytes
    }
}
impl MessageTrait for PrivateRoomDismember {
    type ToSend = PrivateRoomDismember;

    type ToReceive = IsntReceived;

    open spec fn spec_code() -> MessageType {
        MessageType::Server(136)
    }

    fn code() -> (c: MessageType) {
        MessageType::Server(136)
    }
}

#[derive(Debug, Clone)]
pub struct PrivateRoomDisown {
    pub room: String,
}

/// The value of a [`PrivateRoomDisown`], with texts and lists as sequences.
pub struct PrivateRoomDisownModel {
    pub room: Seq<char>,
}

impl DeepView for PrivateRoomDisown {
    type V = PrivateRoomDisownModel;

    open spec fn deep_view(&self) -> PrivateRoomDisownModel {
        PrivateRoomDisownModel {
            room: self.room.deep_view(),
        }
    }
}

impl PackToBytes for PrivateRoomDisown {
    /// The fields, one after the other.
    open spec fn spec_pack(v: PrivateRoomDisownModel) -> Seq<u8> {
        String::spec_pack(v.room)
    }

    fn pack_to_bytes(&self) -> (r: Vec<u8>) {
        let mut bytes: Vec<u8> = Vec::new();
        let mut room = self.room.pack_to_bytes();
        bytes.append(&mut room);
        assert(bytes@ =~= Self::spec_pack(self.deep_view()));
        bytes
    }
}
impl MessageTrait for PrivateRoomDisown {
    type ToSend = PrivateRoomDisown;

    type ToReceive = IsntReceived;

    open spec fn spec_code() -> MessageType {
        MessageType::Server(137)
    }

    fn code() -> (c: MessageType) {
        MessageType::Server(137)
    }
}

#[derive(Debug, Clone)]
pub struct PrivateRoomAdded {
    pub room: String,
}

/// The value of a [`PrivateRoomAdded`], with texts and lists as sequences.
pub struct PrivateRoomAddedModel {
    pub room: Seq<char>,
}

impl DeepView for PrivateRoomAdded {
    type V = PrivateRoomAddedModel;

    open spec fn deep_view(&self) -> PrivateRoomAddedModel {
        PrivateRoomAddedModel {
            room: self.room.deep_view(),
        }
    }
}

impl UnpackFromBytes for PrivateRoomAdded {
    /// The fields, one after the other; the first failure stops it.
    open spec fn spec_unpack(bytes: Seq<u8>) -> (Option<PrivateRoomAddedModel>, Seq<u8>) {
        match String::spec_unpack(bytes) {
            (Some(room), r0) => (Some(PrivateRoomAddedModel { room }), r0),
            (None, r0) => (None, r0),
        }
    }

    fn unpack_from_bytes(bytes: &mut Vec<u8>) -> (r: Option<Self>) {
        let room = String::unpack_from_bytes(bytes)?;
        Some(PrivateRoomAdded { room })
    }
}
impl MessageTrait for PrivateRoomAdded {
    type ToSend = IsntSent;

    type ToReceive = PrivateRoomAdded;

    open spec fn spec_code() -> MessageType {
        MessageType::Server(139)
    }

    fn code() -> (c: MessageType) {
        MessageType::Server(139)
    }
}

#[derive(Debug, Clone)]
pub struct PrivateRoomRemoved {
    pub room: String,
}

/// The value of a [`PrivateRoomRemoved`], with texts and lists as sequences.
pub struct PrivateRoomRemovedModel {
    pub room: Seq<char>,
}

impl DeepView for PrivateRoomRemoved {
    type V = PrivateRoomRemovedModel;

    open spec fn deep_view(&self) -> PrivateRoomRemovedModel {
        PrivateRoomRemovedModel {
            room: self.room.deep_view(),
        }
    }
}

impl UnpackFromBytes for PrivateRoomRemoved {
    /// The fields, one after the other; the first failure stops it.
    open spec fn spec_unpack(bytes: Seq<u8>) -> (Option<PrivateRoomRemovedModel>, Seq<u8>) {
        match String::spec_unpack(bytes) {
            (Some(room), r0) => (Some(PrivateRoomRemovedModel { room }), r0),
            (None, r0) => (None, r0),
        }
    }

    fn unpack_from_bytes(bytes: &mut Vec<u8>) -> (r: Option<Self>) {
        let room = String::unpack_from_bytes(bytes)?;
        Some(PrivateRoomRemoved { room })
    }
}
impl MessageTrait for PrivateRoomRemoved {
    type ToSend = IsntSent;

    type ToReceive = PrivateRoomRemoved;

    open spec fn spec_code() -> MessageType {
        MessageType::Server(140)
    }

    fn code() -> (c: MessageType) {
        MessageType::Server(140)
    }
}

#[derive(Debug, Clone, Copy, PartialEq, Eq)]
pub struct PrivateRoomToggle {
    pub enable: bool,
}

impl DeepView for PrivateRoomToggle {
    type V = PrivateRoomToggle;

    open spec fn deep_view(&self) -> PrivateRoomToggle {
        *self
    }
}

impl PrivateRoomToggle {
    /// Every text and list fits its `u32` length prefix.
    pub open spec fn wire_ok(self) -> bool {
        true
    }
}

impl PackToBytes for PrivateRoomToggle {
    /// The fields, one after the other.
    open spec fn spec_pack(v: PrivateRoomToggle) -> Seq<u8> {
        bool::spec_pack(v.enable)
    }

    fn pack_to_bytes(&self) -> (r: Vec<u8>) {
        let mut bytes: Vec<u8> = Vec::new();
        let mut enable = self.enable.pack_to_bytes();
        bytes.append(&mut enable);
        assert(bytes@ =~= Self::spec_pack(self.deep_view()));
        bytes
    }
}

impl UnpackFromBytes for PrivateRoomToggle {
    /// The fields, one after the other; the first failure stops it.
    open spec fn spec_unpack(bytes: Seq<u8>) -> (Option<PrivateRoomToggle>, Seq<u8>) {
        match bool::spec_unpack(bytes) {
            (Some(enable), r0) => (Some(PrivateRoomToggle { enable }), r0),
            (None, r0) => (None, r0),
        }
    }

    fn unpack_from_bytes(bytes: &mut Vec<u8>) -> (r: Option<Self>) {
        let enable = bool::unpack_from_bytes(bytes)?;
        Some(PrivateRoomToggle { enable })
    }
}

impl PrivateRoomToggle {
    /// Decoding the encoding of a message gives the message back, whatever
    /// follows it, when its texts and lists fit their length prefixes.
    pub proof fn lemma_roundtrip(m: PrivateRoomToggle)
        requires
            m.wire_ok(),
        ensures
            roundtrips::<PrivateRoomToggle>(m),
    {
        lemma_bool_roundtrip(m.enable);
        assert forall|rest: Seq<u8>|
            #[trigger] PrivateRoomToggle::spec_unpack(PrivateRoomToggle::spec_pack(m) + rest) == (Some(m), rest) by {
            let t1 = rest;
            let t0 = bool::spec_pack(m.enable) + t1;
            assert(PrivateRoomToggle::spec_pack(m) + rest =~= t0);
            assert(bool::spec_unpack(t0) == (Some(m.enable), t1));
        }
    }
}
impl MessageTrait for PrivateRoomToggle {
    type ToSend = PrivateRoomToggle;

    type ToReceive = PrivateRoomToggle;

    open spec fn spec_code() -> MessageType {
        MessageType::Server(141)
    }

    fn code() -> (c: MessageType) {
        MessageType::Server(141)
    }
}

#[derive(Debug, Clone)]
pub struct ChangePassword {
    pub password: String,
}

/// The value of a [`ChangePassword`], with texts and lists as sequences.
pub struct ChangePasswordModel {
    pub password: Seq<char>,
}

impl DeepView for ChangePassword {
    type V = ChangePasswordModel;

    open spec fn deep_view(&self) -> ChangePasswordModel {
        ChangePasswordModel {
            password: self.password.deep_view(),
        }
    }
}

impl ChangePasswordModel {
    /// Every text and list fits its `u32` length prefix.
    pub open spec fn wire_ok(self) -> bool {
        &&& utf8_bytes(self.password).len() <= u32::MAX
    }
}

impl PackToBytes for ChangePassword {
    /// The fields, one after the other.
    open spec fn spec_pack(v: ChangePasswordModel) -> Seq<u8> {
        String::spec_pack(v.password)
    }

    fn pack_to_bytes(&self) -> (r: Vec<u8>) {
        let mut bytes: Vec<u8> = Vec::new();
        let mut password = self.password.pack_to_bytes();
        bytes.append(&mut password);
        assert(bytes@ =~= Self::spec_pack(self.deep_view()));
        bytes
    }
}

impl UnpackFromBytes for ChangePassword {
    /// The fields, one after the other; the first failure stops it.
    open spec fn spec_unpack(bytes: Seq<u8>) -> (Option<ChangePasswordModel>, Seq<u8>) {
        match String::spec_unpack(bytes) {
            (Some(password), r0) => (Some(ChangePasswordModel { password }), r0),
            (None, r0) => (None, r0),
        }
    }

    fn unpack_from_bytes(bytes: &mut Vec<u8>) -> (r: Option<Self>) {
        let password = String::unpack_from_bytes(bytes)?;
        Some(ChangePassword { password })
    }
}

impl ChangePassword {
    /// Decoding the encoding of a message gives the message back, whatever
    /// follows it, when its texts and lists fit their length prefixes.
    pub proof fn lemma_roundtrip(m: ChangePasswordModel)
        requires
            m.wire_ok(),
        ensures
            roundtrips::<ChangePassword>(m),
    {
        lemma_string_roundtrip(m.password);
        assert forall|rest: Seq<u8>|
            #[trigger] ChangePassword::spec_unpack(ChangePassword::spec_pack(m) + rest) == (Some(m), rest) by {
            let t1 = rest;
            let t0 = String::spec_pack(m.password) + t1;
            assert(ChangePassword::spec_pack(m) + rest =~= t0);
            assert(String::spec_unpack(t0) == (Some(m.password), t1));
        }
    }
}
impl MessageTrait for ChangePassword {
    type ToSend = ChangePassword;

    type ToReceive = ChangePassword;

    open spec fn spec_code() -> MessageType {
        MessageType::Server(142)
    }

    fn code() -> (c: MessageType) {
        MessageType::Server(142)
    }
}

#[derive(Debug, Clone)]
pub struct PrivateRoomAddOperator {
    pub room: String,
    pub username: String,
}

/// The value of a [`PrivateRoomAddOperator`], with texts and lists as sequences.
pub struct PrivateRoomAddOperatorModel {
    pub room: Seq<char>,
    pub username: Seq<char>,
}

impl DeepView for PrivateRoomAddOperator {
    type V = PrivateRoomAddOperatorModel;

    open spec fn deep_view(&self) -> PrivateRoomAddOperatorModel {
        PrivateRoomAddOperatorModel {
            room: self.room.deep_view(),
            username: self.username.deep_view(),
        }
    }
}

impl PrivateRoomAddOperatorModel {
    /// Every text and list fits its `u32` length prefix.
    pub open spec fn wire_ok(self) -> bool {
        &&& utf8_bytes(self.room).len() <= u32::MAX
        &&& utf8_bytes(self.username).len() <= u32::MAX
    }
}

impl PackToBytes for PrivateRoomAddOperator {
    /// The fields, one after the other.
    open spec fn spec_pack(v: PrivateRoomAddOperatorModel) -> Seq<u8> {
        String::spec_pack(v.room) + String::spec_pack(v.username)
    }

    fn pack_to_bytes(&self) -> (r: Vec<u8>) {
        let mut bytes: Vec<u8> = Vec::new();
        let mut room = self.room.pack_to_bytes();
        bytes.append(&mut room);
        let mut username = self.username.pack_to_bytes();
        bytes.append(&mut username);
        assert(bytes@ =~= Self::spec_pack(self.deep_view()));
        bytes
    }
}

impl UnpackFromBytes for PrivateRoomAddOperator {
    /// The fields, one after the other; the first failure stops it.
    open spec fn spec_unpack(bytes: Seq<u8>) -> (Option<PrivateRoomAddOperatorModel>, Seq<u8>) {
        match String::spec_unpack(bytes) {
            (Some(room), r0) => 
                match String::spec_unpack(r0) {
                    (Some(username), r1) => (Some(PrivateRoomAddOperatorModel { room, username }), r1),
                    (None, r1) => (None, r1),
                },
            (None, r0) => (None, r0),
        }
    }

    fn unpack_from_bytes(bytes: &mut Vec<u8>) -> (r: Option<Self>) {
        let room = String::unpack_from_bytes(bytes)?;
        let username = String::unpack_from_bytes(bytes)?;
        Some(PrivateRoomAddOperator { room, username })
    }
}

impl PrivateRoomAddOperator {
    /// Decoding the encoding of a message gives the message back, whatever
    /// follows it, when its texts and lists fit their length prefixes.
    pub proof fn lemma_roundtrip(m: PrivateRoomAddOperatorModel)
        requires
            m.wire_ok(),
        ensures
            roundtrips::<PrivateRoomAddOperator>(m),
    {
        lemma_string_roundtrip(m.room);
        lemma_string_roundtrip(m.username);
        assert forall|rest: Seq<u8>|
            #[trigger] PrivateRoomAddOperator::spec_unpack(PrivateRoomAddOperator::spec_pack(m) + rest) == (Some(m), rest) by {
            let t2 = rest;
            let t1 = String::spec_pack(m.username) + t2;
            let t0 = String::spec_pack(m.room) + t1;
            assert(PrivateRoomAddOperator::spec_pack(m) + rest =~= t0);
            assert(String::spec_unpack(t0) == (Some(m.room), t1));
            assert(String::spec_unpack(t1) == (Some(m.username), t2));
        }
    }
}
impl MessageTrait for PrivateRoomAddOperator {
    type ToSend = PrivateRoomAddOperator;

    type ToReceive = PrivateRoomAddOperator;

    open spec fn spec_code() -> MessageType {
        MessageType::Server(143)
    }

    fn code() -> (c: MessageType) {
        MessageType::Server(143)
    }
}

#[derive(Debug, Clone)]
pub struct PrivateRoomRemoveOperator {
    pub room: String,
    pub username: String,
}

/// The value of a [`PrivateRoomRemoveOperator`], with texts and lists as sequences.
pub struct PrivateRoomRemoveOperatorModel {
    pub room: Seq<char>,
    pub username: Seq<char>,
}

impl DeepView for PrivateRoomRemoveOperator {
    type V = PrivateRoomRemoveOperatorModel;

    open spec fn deep_view(&self) -> PrivateRoomRemoveOperatorModel {
        PrivateRoomRemoveOperatorModel {
            room: self.room.deep_view(),
            username: self.username.deep_view(),
        }
    }
}

impl PrivateRoomRemoveOperatorModel {
    /// Every text and list fits its `u32` length prefix.
    pub open spec fn wire_ok(self) -> bool {
        &&& utf8_bytes(self.room).len() <= u32::MAX
        &&& utf8_bytes(self.username).len() <= u32::MAX
    }
}

impl PackToBytes for PrivateRoomRemoveOperator {
    /// The fields, one after the other.
    open spec fn spec_pack(v: PrivateRoomRemoveOperatorModel) -> Seq<u8> {
        String::spec_pack(v.room) + String::spec_pack(v.username)
    }

    fn pack_to_bytes(&self) -> (r: Vec<u8>) {
        let mut bytes: Vec<u8> = Vec::new();
        let mut room = self.room.pack_to_bytes();
        bytes.append(&mut room);
        let mut username = self.username.pack_to_bytes();
        bytes.append(&mut username);
        assert(bytes@ =~= Self::spec_pack(self.deep_view()));
        bytes
    }
}

impl UnpackFromBytes for PrivateRoomRemoveOperator {
    /// The fields, one after the other; the first failure stops it.
    open spec fn spec_unpack(bytes: Seq<u8>) -> (Option<PrivateRoomRemoveOperatorModel>, Seq<u8>) {
        match String::spec_unpack(bytes) {
            (Some(room), r0) => 
                match String::spec_unpack(r0) {
                    (Some(username), r1) => (Some(PrivateRoomRemoveOperatorModel { room, username }), r1),
                    (None, r1) => (None, r1),
                },
            (None, r0) => (None, r0),
        }
    }

    fn unpack_from_bytes(bytes: &mut Vec<u8>) -> (r: Option<Self>) {
        let room = String::unpack_from_bytes(bytes)?;
        let username = String::unpack_from_bytes(bytes)?;
        Some(PrivateRoomRemoveOperator { room, username })
    }
}

impl PrivateRoomRemoveOperator {
    /// Decoding the encoding of a message gives the message back, whatever
    /// follows it, when its texts and lists fit their length prefixes.
    pub proof fn lemma_roundtrip(m: PrivateRoomRemoveOperatorModel)
        requires
            m.wire_ok(),
        ensures
            roundtrips::<PrivateRoomRemoveOperator>(m),
    {
        lemma_string_roundtrip(m.room);
        lemma_string_roundtrip(m.username);
        assert forall|rest: Seq<u8>|
            #[trigger] PrivateRoomRemoveOperator::spec_unpack(PrivateRoomRemoveOperator::spec_pack(m) + rest) == (Some(m), rest) by {
            let t2 = rest;
            let t1 = String::spec_pack(m.username) + t2;
            let t0 = String::spec_pack(m.room) + t1;
            assert(PrivateRoomRemoveOperator::spec_pack(m) + rest =~= t0);
            assert(String::spec_unpack(t0) == (Some(m.room), t1));
            assert(String::spec_unpack(t1) == (Some(m.username), t2));
        }
    }
}
impl MessageTrait for PrivateRoomRemoveOperator {
    type ToSend = PrivateRoomRemoveOperator;

    type ToReceive = PrivateRoomRemoveOperator;

    open spec fn spec_code() -> MessageType {
        MessageType::Server(144)
    }

    fn code() -> (c: MessageType) {
        MessageType::Server(144)
    }
}

#[derive(Debug, Clone)]
pub struct PrivateRoomOperatorAdded {
    pub room: String,
}

/// The value of a [`PrivateRoomOperatorAdded`], with texts and lists as sequences.
pub struct PrivateRoomOperatorAddedModel {
    pub room: Seq<char>,
}

impl DeepView for PrivateRoomOperatorAdded {
    type V = PrivateRoomOperatorAddedModel;

    open spec fn deep_view(&self) -> PrivateRoomOperatorAddedModel {
        PrivateRoomOperatorAddedModel {
            room: self.room.deep_view(),
        }
    }
}

impl UnpackFromBytes for PrivateRoomOperatorAdded {
    /// The fields, one after the other; the first failure stops it.
    open spec fn spec_unpack(bytes: Seq<u8>) -> (Option<PrivateRoomOperatorAddedModel>, Seq<u8>) {
        match String::spec_unpack(bytes) {
            (Some(room), r0) => (Some(PrivateRoomOperatorAddedModel { room }), r0),
            (None, r0) => (None, r0),
        }
    }

    fn unpack_from_bytes(bytes: &mut Vec<u8>) -> (r: Option<Self>) {
        let room = String::unpack_from_bytes(bytes)?;
        Some(PrivateRoomOperatorAdded { room })
    }
}
impl MessageTrait for PrivateRoomOperatorAdded {
    type ToSend = IsntSent;

    type ToReceive = PrivateRoomOperatorAdded;

    open spec fn spec_code() -> MessageType {
        MessageType::Server(145)
    }

    fn code() -> (c: MessageType) {
        MessageType::Server(145)
    }
}

#[derive(Debug, Clone)]
pub struct PrivateRoomOperatorRemoved {
    pub room: String,
}

/// The value of a [`PrivateRoomOperatorRemoved`], with texts and lists as sequences.
pub struct PrivateRoomOperatorRemovedModel {
    pub room: Seq<char>,
}

impl DeepView for PrivateRoomOperatorRemoved {
    type V = PrivateRoomOperatorRemovedModel;

    open spec fn deep_view(&self) -> PrivateRoomOperatorRemovedModel {
        PrivateRoomOperatorRemovedModel {
            room: self.room.deep_view(),
        }
    }
}

impl UnpackFromBytes for PrivateRoomOperatorRemoved {
    /// The fields, one after the other; the first failure stops it.
    open spec fn spec_unpack(bytes: Seq<u8>) -> (Option<PrivateRoomOperatorRemovedModel>, Seq<u8>) {
        match String::spec_unpack(bytes) {
            (Some(room), r0) => (Some(PrivateRoomOperatorRemovedModel { room }), r0),
            (None, r0) => (None, r0),
        }
    }

    fn unpack_from_bytes(bytes: &mut Vec<u8>) -> (r: Option<Self>) {
        let room = String::unpack_from_bytes(bytes)?;
        Some(PrivateRoomOperatorRemoved { room })
    }
}
impl MessageTrait for PrivateRoomOperatorRemoved {
    type ToSend = IsntSent;

    type ToReceive = PrivateRoomOperatorRemoved;

    open spec fn spec_code() -> MessageType {
        MessageType::Server(146)
    }

    fn code() -> (c: MessageType) {
        MessageType::Server(146)
    }
}

#[derive(Debug, Clone)]
pub struct PrivateRoomOwned {
    pub room: String,
    pub operators: Vec<String>,
}

/// The value of a [`PrivateRoomOwned`], with texts and lists as sequences.
pub struct PrivateRoomOwnedModel {
    pub room: Seq<char>,
    pub operators: Seq<Seq<char>>,
}

impl DeepView for PrivateRoomOwned {
    type V = PrivateRoomOwnedModel;

    open spec fn deep_view(&self) -> PrivateRoomOwnedModel {
        PrivateRoomOwnedModel {
            room: self.room.deep_view(),
            operators: self.operators.deep_view(),
        }
    }
}

impl UnpackFromBytes for PrivateRoomOwned {
    /// The fields, one after the other; the first failure stops it.
    open spec fn spec_unpack(bytes: Seq<u8>) -> (Option<PrivateRoomOwnedModel>, Seq<u8>) {
        match String::spec_unpack(bytes) {
            (Some(room), r0) => 
                match <Vec<String>>::spec_unpack(r0) {
                    (Some(operators), r1) => (Some(PrivateRoomOwnedModel { room, operators }), r1),
                    (None, r1) => (None, r1),
                },
            (None, r0) => (None, r0),
        }
    }

    fn unpack_from_bytes(bytes: &mut Vec<u8>) -> (r: Option<Self>) {
        let room = String::unpack_from_bytes(bytes)?;
        let operators = <Vec<String>>::unpack_from_bytes(bytes)?;
        Some(PrivateRoomOwned { room, operators })
    }
}
impl MessageTrait for PrivateRoomOwned {
    type ToSend = IsntSent;

    type ToReceive = PrivateRoomOwned;

    open spec fn spec_code() -> MessageType {
        MessageType::Server(148)
    }

    fn code() -> (c: MessageType) {
        MessageType::Server(148)
    }
}

#[derive(Debug, Clone)]
pub struct MessageUsers {
    pub usernames: Vec<String>,
    pub message: String,
}

/// The value of a [`MessageUsers`], with texts and lists as sequences.
pub struct MessageUsersModel {
    pub usernames: Seq<Seq<char>>,
    pub message: Seq<char>,
}

impl DeepView for MessageUsers {
    type V = MessageUsersModel;

    open spec fn deep_view(&self) -> MessageUsersModel {
        MessageUsersModel {
            usernames: self.usernames.deep_view(),
            message: self.message.deep_view(),
        }
    }
}

impl PackToBytes for MessageUsers {
    /// The fields, one after the other.
    open spec fn spec_pack(v: MessageUsersModel) -> Seq<u8> {
        <Vec<String>>::spec_pack(v.usernames) + String::spec_pack(v.message)
    }

    fn pack_to_bytes(&self) -> (r: Vec<u8>) {
        let mut bytes: Vec<u8> = Vec::new();
        let mut usernames = self.usernames.pack_to_bytes();
        bytes.append(&mut usernames);
        let mut message = self.message.pack_to_bytes();
        bytes.append(&mut message);
        assert(bytes@ =~= Self::spec_pack(self.deep_view()));
        bytes
    }
}
impl MessageTrait for MessageUsers {
    type ToSend = MessageUsers;

    type ToReceive = IsntReceived;

    open spec fn spec_code() -> MessageType {
        MessageType::Server(149)
    }

    fn code() -> (c: MessageType) {
        MessageType::Server(149)
    }
}

#[derive(Debug, Clone)]
pub struct CantConnectToPeer {
    pub token: u32,
    pub username: String,
}

/// The value of a [`CantConnectToPeer`], with texts and lists as sequences.
pub struct CantConnectToPeerModel {
    pub token: u32,
    pub username: Seq<char>,
}

impl DeepView for CantConnectToPeer {
    type V = CantConnectToPeerModel;

    open spec fn deep_view(&self) -> CantConnectToPeerModel {
        CantConnectToPeerModel {
            token: self.token.deep_view(),
            username: self.username.deep_view(),
        }
    }
}

impl CantConnectToPeerModel {
    /// Every text and list fits its `u32` length prefix.
    pub open spec fn wire_ok(self) -> bool {
        &&& utf8_bytes(self.username).len() <= u32::MAX
    }
}

impl PackToBytes for CantConnectToPeer {
    /// The fields, one after the other.
    open spec fn spec_pack(v: CantConnectToPeerModel) -> Seq<u8> {
        u32::spec_pack(v.token) + String::spec_pack(v.username)
    }

    fn pack_to_bytes(&self) -> (r: Vec<u8>) {
        let mut bytes: Vec<u8> = Vec::new();
        let mut token = self.token.pack_to_bytes();
        bytes.append(&mut token);
        let mut username = self.username.pack_to_bytes();
        bytes.append(&mut username);
        assert(bytes@ =~= Self::spec_pack(self.deep_view()));
        bytes
    }
}

impl UnpackFromBytes for CantConnectToPeer {
    /// The fields, one after the other; the first failure stops it.
    open spec fn spec_unpack(bytes: Seq<u8>) -> (Option<CantConnectToPeerModel>, Seq<u8>) {
        match u32::spec_unpack(bytes) {
            (Some(token), r0) => 
                match String::spec_unpack(r0) {
                    (Some(username), r1) => (Some(CantConnectToPeerModel { token, username }), r1),
                    (None, r1) => (None, r1),
                },
            (None, r0) => (None, r0),
        }
    }

    fn unpack_from_bytes(bytes: &mut Vec<u8>) -> (r: Option<Self>) {
        let token = u32::unpack_from_bytes(bytes)?;
        let username = String::unpack_from_bytes(bytes)?;
        Some(CantConnectToPeer { token, username })
    }
}

impl CantConnectToPeer {
    /// Decoding the encoding of a message gives the message back, whatever
    /// follows it, when its texts and lists fit their length prefixes.
    pub proof fn lemma_roundtrip(m: CantConnectToPeerModel)
        requires
            m.wire_ok(),
        ensures
            roundtrips::<CantConnectToPeer>(m),
    {
        lemma_u32_roundtrip(m.token);
        lemma_string_roundtrip(m.username);
        assert forall|rest: Seq<u8>|
            #[trigger] CantConnectToPeer::spec_unpack(CantConnectToPeer::spec_pack(m) + rest) == (Some(m), rest) by {
            let t2 = rest;
            let t1 = String::spec_pack(m.username) + t2;
            let t0 = u32::spec_pack(m.token) + t1;
            assert(CantConnectToPeer::spec_pack(m) + rest =~= t0);
            assert(u32::spec_unpack(t0) == (Some(m.token), t1));
            assert(String::spec_unpack(t1) == (Some(m.username), t2));
        }
    }
}
impl MessageTrait for CantConnectToPeer {
    type ToSend = CantConnectToPeer;

    type ToReceive = CantConnectToPeer;

    open spec fn spec_code() -> MessageType {
        MessageType::Server(1001)
    }

    fn code() -> (c: MessageType) {
        MessageType::Server(1001)
    }
}

#[derive(Debug, Clone)]
pub struct CantConnectToRoom {
    pub room: String,
}

/// The value of a [`CantConnectToRoom`], with texts and lists as sequences.
pub struct CantConnectToRoomModel {
    pub room: Seq<char>,
}

impl DeepView for CantConnectToRoom {
    type V = CantConnectToRoomModel;

    open spec fn deep_view(&self) -> CantConnectToRoomModel {
        CantConnectToRoomModel {
            room: self.room.deep_view(),
        }
    }
}

impl UnpackFromBytes for CantConnectToRoom {
    /// The fields, one after the other; the first failure stops it.
    open spec fn spec_unpack(bytes: Seq<u8>) -> (Option<CantConnectToRoomModel>, Seq<u8>) {
        match String::spec_unpack(bytes) {
            (Some(room), r0) => (Some(CantConnectToRoomModel { room }), r0),
            (None, r0) => (None, r0),
        }
    }

    fn unpack_from_bytes(bytes: &mut Vec<u8>) -> (r: Option<Self>) {
        let room = String::unpack_from_bytes(bytes)?;
        Some(CantConnectToRoom { room })
    }
}
impl MessageTrait for CantConnectToRoom {
    type ToSend = IsntSent;

    type ToReceive = CantConnectToRoom;

    open spec fn spec_code() -> MessageType {
        MessageType::Server(1003)
    }

    fn code() -> (c: MessageType) {
        MessageType::Server(1003)
    }
}

} // verus!
