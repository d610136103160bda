//! Protocol constants and the small enumerations that travel on the wire.
use vstd::prelude::*;

use crate::packing::{
    lemma_string_roundtrip, lemma_u32_roundtrip, le_u32, roundtrips, utf8_bytes, PackToBytes,
    UnpackFromBytes,
};
use crate::utils::{byte_unit_text, decimal, decimal_string, num_as_bytes, push_char};

verus! {

pub const MAJOR_VERSION: u32 = 160;

pub const MINOR_VERSION: u32 = 1;

pub const MAX_RESULTS: u32 = 1500;

// ---------------------------------------------------------------------------
// User status
// ---------------------------------------------------------------------------

#[derive(Debug, PartialEq, Eq, Clone, Copy)]
pub enum UserStatusCodes {
    Offline,
    Away,
    Online,
}

impl DeepView for UserStatusCodes {
    type V = UserStatusCodes;

    open spec fn deep_view(&self) -> UserStatusCodes {
        *self
    }
}

impl Default for UserStatusCodes {
    fn default() -> (r: Self)
        ensures
            r == UserStatusCodes::Offline,
    {
        UserStatusCodes::Offline
    }
}

/// The wire number of a status.
pub open spec fn status_code(s: UserStatusCodes) -> u32 {
    match s {
        UserStatusCodes::Offline => 0,
        UserStatusCodes::Away => 1,
        UserStatusCodes::Online => 2,
    }
}

/// The status of a wire number; unknown numbers mean offline.
pub open spec fn status_of_code(u: u32) -> UserStatusCodes {
    if u == 1 {
        UserStatusCodes::Away
    } else if u == 2 {
        UserStatusCodes::Online
    } else {
        UserStatusCodes::Offline
    }
}

impl UnpackFromBytes for UserStatusCodes {
    open spec fn spec_unpack(bytes: Seq<u8>) -> (Option<UserStatusCodes>, Seq<u8>) {
        match u32::spec_unpack(bytes) {
            (Some(u), rest) => (Some(status_of_code(u)), rest),
            (None, rest) => (None, rest),
        }
    }

    fn unpack_from_bytes(bytes: &mut Vec<u8>) -> (r: Option<Self>) {
        let u = match u32::unpack_from_bytes(bytes) {
            Some(u) => u,
            None => return None,
        };
        Some(
            if u == 0 {
                Self::Offline
            } else if u == 1 {
                Self::Away
            } else if u == 2 {
                Self::Online
            } else {
                Self::Offline
            },
        )
    }
}

impl PackToBytes for UserStatusCodes {
    open spec fn spec_pack(v: UserStatusCodes) -> Seq<u8> {
        le_u32(status_code(v))
    }

    fn pack_to_bytes(&self) -> (r: Vec<u8>) {
        match self {
            UserStatusCodes::Offline => 0u32.pack_to_bytes(),
            UserStatusCodes::Away => 1u32.pack_to_bytes(),
            UserStatusCodes::Online => 2u32.pack_to_bytes(),
        }
    }
}

pub proof fn lemma_status_roundtrip(v: UserStatusCodes)
    ensures
        roundtrips::<UserStatusCodes>(v),
{
    lemma_u32_roundtrip(status_code(v));
    assert forall|rest: Seq<u8>|
        #[trigger] UserStatusCodes::spec_unpack(UserStatusCodes::spec_pack(v) + rest) == (
            Some(v),
            rest,
        ) by {
        assert(u32::spec_unpack(u32::spec_pack(status_code(v)) + rest) == (
            Some(status_code(v)),
            rest,
        ));
    }
}

// ---------------------------------------------------------------------------
// Transfer direction
// ---------------------------------------------------------------------------

#[derive(Debug, PartialEq, Eq, Clone, Copy)]
pub enum TransferDirections {
    DownloadFromPeer,
    UploadToPeer,
}

impl DeepView for TransferDirections {
    type V = TransferDirections;

    open spec fn deep_view(&self) -> TransferDirections {
        *self
    }
}

pub open spec fn direction_code(d: TransferDirections) -> u32 {
    match d {
        TransferDirections::DownloadFromPeer => 0,
        TransferDirections::UploadToPeer => 1,
    }
}

impl PackToBytes for TransferDirections {
    open spec fn spec_pack(v: TransferDirections) -> Seq<u8> {
        le_u32(direction_code(v))
    }

    fn pack_to_bytes(&self) -> (r: Vec<u8>) {
        match self {
            TransferDirections::DownloadFromPeer => 0u32.pack_to_bytes(),
            TransferDirections::UploadToPeer => 1u32.pack_to_bytes(),
        }
    }
}

impl UnpackFromBytes for TransferDirections {
    /// Numbers other than 0 and 1 are refused (the `u32` stays consumed).
    open spec fn spec_unpack(bytes: Seq<u8>) -> (Option<TransferDirections>, Seq<u8>) {
        match u32::spec_unpack(bytes) {
            (Some(u), rest) => if u == 0 {
                (Some(TransferDirections::DownloadFromPeer), rest)
            } else if u == 1 {
                (Some(TransferDirections::UploadToPeer), rest)
            } else {
                (None, rest)
            },
            (None, rest) => (None, rest),
        }
    }

    fn unpack_from_bytes(bytes: &mut Vec<u8>) -> (r: Option<Self>) {
        let u = match u32::unpack_from_bytes(bytes) {
            Some(u) => u,
            None => return None,
        };
        if u == 0 {
            Some(Self::DownloadFromPeer)
        } else if u == 1 {
            Some(Self::UploadToPeer)
        } else {
            None
        }
    }
}

pub proof fn lemma_direction_roundtrip(v: TransferDirections)
    ensures
        roundtrips::<TransferDirections>(v),
{
    lemma_u32_roundtrip(direction_code(v));
    assert forall|rest: Seq<u8>|
        #[trigger] TransferDirections::spec_unpack(TransferDirections::spec_pack(v) + rest) == (
            Some(v),
            rest,
        ) by {
        assert(u32::spec_unpack(u32::spec_pack(direction_code(v)) + rest) == (
            Some(direction_code(v)),
            rest,
        ));
    }
}

// ---------------------------------------------------------------------------
// Connection types
// ---------------------------------------------------------------------------

#[derive(Debug, Clone, Copy, PartialEq, Eq)]
pub enum ConnectionTypes {
    PeerToPeer,
    FileTransfer,
    DistributedNetwork,
}

impl DeepView for ConnectionTypes {
    type V = ConnectionTypes;

    open spec fn deep_view(&self) -> ConnectionTypes {
        *self
    }
}

/// The one-letter name of a connection type: `P`, `F` or `D`.
pub open spec fn connection_letter(c: ConnectionTypes) -> Seq<char> {
    match c {
        ConnectionTypes::PeerToPeer => seq!['P'],
        ConnectionTypes::FileTransfer => seq!['F'],
        ConnectionTypes::DistributedNetwork => seq!['D'],
    }
}

/// The connection type of a name; unknown names mean peer to peer.
pub open spec fn connection_of_letter(s: Seq<char>) -> ConnectionTypes {
    if s == seq!['F'] {
        ConnectionTypes::FileTransfer
    } else if s == seq!['D'] {
        ConnectionTypes::DistributedNetwork
    } else {
        ConnectionTypes::PeerToPeer
    }
}

impl PackToBytes for ConnectionTypes {
    /// The letter, encoded as a string.
    open spec fn spec_pack(v: ConnectionTypes) -> Seq<u8> {
        String::spec_pack(connection_letter(v))
    }

    fn pack_to_bytes(&self) -> (r: Vec<u8>) {
        proof {
            reveal_strlit("P");
            reveal_strlit("F");
            reveal_strlit("D");
            assert("P"@ =~= seq!['P']);
            assert("F"@ =~= seq!['F']);
            assert("D"@ =~= seq!['D']);
        }
        match self {
            ConnectionTypes::PeerToPeer => "P".to_owned().pack_to_bytes(),
            ConnectionTypes::FileTransfer => "F".to_owned().pack_to_bytes(),
            ConnectionTypes::DistributedNetwork => "D".to_owned().pack_to_bytes(),
        }
    }
}

impl UnpackFromBytes for ConnectionTypes {
    open spec fn spec_unpack(bytes: Seq<u8>) -> (Option<ConnectionTypes>, Seq<u8>) {
        match String::spec_unpack(bytes) {
            (Some(s), rest) => (Some(connection_of_letter(s)), rest),
            (None, rest) => (None, rest),
        }
    }

    fn unpack_from_bytes(bytes: &mut Vec<u8>) -> (r: Option<Self>) {
        let string = match String::unpack_from_bytes(bytes) {
            Some(s) => s,
            None => return None,
        };
        let p = "P".to_owned();
        let f = "F".to_owned();
        let d = "D".to_owned();
        proof {
            reveal_strlit("P");
            reveal_strlit("F");
            reveal_strlit("D");
            assert("P"@ =~= seq!['P']);
            assert("F"@ =~= seq!['F']);
            assert("D"@ =~= seq!['D']);
        }
        assert(seq!['P'] != seq!['F'] && seq!['P'] != seq!['D']) by {
            assert(seq!['P'][0] != seq!['F'][0]);
            assert(seq!['P'][0] != seq!['D'][0]);
        }
        Some(
            if string == p {
                Self::PeerToPeer
            } else if string == f {
                Self::FileTransfer
            } else if string == d {
                Self::DistributedNetwork
            } else {
                Self::PeerToPeer
            },
        )
    }
}

pub proof fn lemma_connection_roundtrip(v: ConnectionTypes)
    ensures
        roundtrips::<ConnectionTypes>(v),
{
    let s = connection_letter(v);
    reveal_with_fuel(vstd::utf8::encode_utf8, 2);
    assert(utf8_bytes(s).len() <= 4);
    lemma_string_roundtrip(s);
    assert forall|rest: Seq<u8>|
        #[trigger] ConnectionTypes::spec_unpack(ConnectionTypes::spec_pack(v) + rest) == (
            Some(v),
            rest,
        ) by {
        assert(String::spec_unpack(String::spec_pack(s) + rest) == (Some(s), rest));
    }
}

// ---------------------------------------------------------------------------
// File attribute types
// ---------------------------------------------------------------------------

#[derive(Debug, Clone, Copy, PartialEq, Eq)]
pub enum FileAttributeTypes {
    /// Kbps
    Bitrate,
    /// Seconds
    Duration,
    /// 0 or 1
    VBR,
    Encoder,
    /// Hz
    SampleRate,
    /// Bits
    BitDepth,
}

impl DeepView for FileAttributeTypes {
    type V = FileAttributeTypes;

    open spec fn deep_view(&self) -> FileAttributeTypes {
        *self
    }
}

pub open spec fn attribute_type_code(t: FileAttributeTypes) -> u32 {
    match t {
        FileAttributeTypes::Bitrate => 0,
        FileAttributeTypes::Duration => 1,
        FileAttributeTypes::VBR => 2,
        FileAttributeTypes::Encoder => 3,
        FileAttributeTypes::SampleRate => 4,
        FileAttributeTypes::BitDepth => 5,
    }
}

pub open spec fn attribute_type_of_code(u: u32) -> Option<FileAttributeTypes> {
    if u == 0 {
        Some(FileAttributeTypes::Bitrate)
    } else if u == 1 {
        Some(FileAttributeTypes::Duration)
    } else if u == 2 {
        Some(FileAttributeTypes::VBR)
    } else if u == 3 {
        Some(FileAttributeTypes::Encoder)
    } else if u == 4 {
        Some(FileAttributeTypes::SampleRate)
    } else if u == 5 {
        Some(FileAttributeTypes::BitDepth)
    } else {
        None
    }
}

impl PackToBytes for FileAttributeTypes {
    open spec fn spec_pack(v: FileAttributeTypes) -> Seq<u8> {
        le_u32(attribute_type_code(v))
    }

    fn pack_to_bytes(&self) -> (r: Vec<u8>) {
        match self {
            FileAttributeTypes::Bitrate => 0u32.pack_to_bytes(),
            FileAttributeTypes::Duration => 1u32.pack_to_bytes(),
            FileAttributeTypes::VBR => 2u32.pack_to_bytes(),
            FileAttributeTypes::Encoder => 3u32.pack_to_bytes(),
            FileAttributeTypes::SampleRate => 4u32.pack_to_bytes(),
            FileAttributeTypes::BitDepth => 5u32.pack_to_bytes(),
        }
    }
}

impl UnpackFromBytes for FileAttributeTypes {
    /// Numbers above 5 are refused (the `u32` stays consumed).
    open spec fn spec_unpack(bytes: Seq<u8>) -> (Option<FileAttributeTypes>, Seq<u8>) {
        match u32::spec_unpack(bytes) {
            (Some(u), rest) => (attribute_type_of_code(u), rest),
            (None, rest) => (None, rest),
        }
    }

    fn unpack_from_bytes(bytes: &mut Vec<u8>) -> (r: Option<Self>) {
        let u = match u32::unpack_from_bytes(bytes) {
            Some(u) => u,
            None => return None,
        };
        if u == 0 {
            Some(Self::Bitrate)
        } else if u == 1 {
            Some(Self::Duration)
        } else if u == 2 {
            Some(Self::VBR)
        } else if u == 3 {
            Some(Self::Encoder)
        } else if u == 4 {
            Some(Self::SampleRate)
        } else if u == 5 {
            Some(Self::BitDepth)
        } else {
            None
        }
    }
}

pub proof fn lemma_attribute_type_roundtrip(v: FileAttributeTypes)
    ensures
        roundtrips::<FileAttributeTypes>(v),
{
    lemma_u32_roundtrip(attribute_type_code(v));
    assert forall|rest: Seq<u8>|
        #[trigger] FileAttributeTypes::spec_unpack(FileAttributeTypes::spec_pack(v) + rest) == (
            Some(v),
            rest,
        ) by {
        assert(u32::spec_unpack(u32::spec_pack(attribute_type_code(v)) + rest) == (
            Some(attribute_type_code(v)),
            rest,
        ));
    }
}

// ---------------------------------------------------------------------------
// Download bookkeeping
// ---------------------------------------------------------------------------

#[derive(Clone, Copy, Debug, PartialEq, Eq, PartialOrd, Ord)]
pub enum DownloadStatus {
    Queued,
    Starting,
    Downloading,
    Complete,
    Failed,
}

/// The display name of a download status.
pub open spec fn status_name(s: DownloadStatus) -> Seq<char> {
    match s {
        DownloadStatus::Queued => "Queued"@,
        DownloadStatus::Starting => "Starting"@,
        DownloadStatus::Downloading => "Downloading"@,
        DownloadStatus::Complete => "Complete"@,
        DownloadStatus::Failed => "Failed"@,
    }
}

impl DownloadStatus {
    pub fn str(&self) -> (r: &'static str)
        ensures
            r@ == status_name(*self),
    {
        match *self {
            DownloadStatus::Queued => "Queued",
            DownloadStatus::Starting => "Starting",
            DownloadStatus::Downloading => "Downloading",
            DownloadStatus::Complete => "Complete",
            DownloadStatus::Failed => "Failed",
        }
    }

    pub fn to_string(&self) -> (r: String)
        ensures
            r@ == status_name(*self),
    {
        self.str().to_owned()
    }
}

/// A number of bytes.
#[derive(Clone, Copy, Debug, PartialEq, Eq, PartialOrd, Ord)]
pub struct ByteSize(pub u64);

impl ByteSize {
    /// The size in the nearest decimal unit, such as `123.45 MB`.
    pub fn to_string(&self) -> (r: String)
        ensures
            r@ == byte_unit_text(self.0),
    {
        num_as_bytes(self.0)
    }

    /// The sum of two sizes.
    pub fn add(self, rhs: Self) -> (r: ByteSize)
        requires
            self.0 + rhs.0 <= u64::MAX,
        ensures
            r.0 == self.0 + rhs.0,
    {
        ByteSize(self.0 + rhs.0)
    }
}

/// A percentage.
#[derive(Clone, Copy, Debug, PartialEq, Eq, PartialOrd, Ord)]
pub struct Percentage(pub u8);

impl Percentage {
    /// The number followed by `%`, such as `42%`.
    pub fn to_string(&self) -> (r: String)
        ensures
            r@ == decimal(self.0 as nat).push('%'),
    {
        let mut r = decimal_string(self.0 as u64);
        push_char(&mut r, '%');
        r
    }
}

/// A transfer token.
#[derive(Clone, Copy, Debug, PartialEq, Eq, PartialOrd, Ord, Hash)]
pub struct Token(pub u32);

impl Token {
    /// The token in decimal.
    pub fn to_string(&self) -> (r: String)
        ensures
            r@ == decimal(self.0 as nat),
    {
        decimal_string(self.0 as u64)
    }
}

} // verus!
