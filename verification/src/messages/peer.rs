//! Messages exchanged directly between peers.
use vstd::prelude::*;

use super::{MessageTrait, MessageType};
use crate::constants::{lemma_direction_roundtrip, TransferDirections};
use crate::packing::{
    lemma_bool_roundtrip, lemma_string_roundtrip, lemma_u32_roundtrip, lemma_u64_roundtrip,
    lemma_u8_roundtrip, lemma_regroup8, lemma_vec_roundtrip, le_u32, roundtrips, u32_to_le, u64_to_le,
    utf8_bytes, PackToBytes, UnpackFromBytes,
};

verus! {

// ---------------------------------------------------------------------------
// Compression of the larger peer messages
// ---------------------------------------------------------------------------

/// The zlib stream that `flate2::write::ZlibEncoder` at
/// `Compression::best()` writes for `data`.
pub uninterp spec fn zlib_compress(data: Seq<u8>) -> Seq<u8>;

/// What `flate2::read::ZlibDecoder` reads out of `data`, or `None` when
/// `data` is not a complete zlib stream.
pub uninterp spec fn zlib_decompress(data: Seq<u8>) -> Option<Seq<u8>>;

/// Compresses with `flate2::write::ZlibEncoder` at the best level and
/// returns the finished stream (empty if finishing fails, which writing to a
/// `Vec` does not). Nothing is stated of the stream but its name.
#[verifier::external_body]
fn zlib_compress_best(data: &[u8]) -> (r: Vec<u8>)
    ensures
        r@ == zlib_compress(data@),
{
    let mut writer = flate2::write::ZlibEncoder::new(Vec::new(), flate2::Compression::best());
    let _ = std::io::Write::write_all(&mut writer, data);
    writer.finish().unwrap_or_default()
}

/// Reads `data` to its end through `flate2::read::ZlibDecoder`; `None` when
/// the decoder reports an error. Nothing is stated of the bytes but their
/// name.
#[verifier::external_body]
fn zlib_decompress_all(data: &[u8]) -> (r: Option<Vec<u8>>)
    ensures
        r is Some <==> zlib_decompress(data@) is Some,
        r matches Some(v) ==> zlib_decompress(data@) == Some(v@),
{
    let mut bytes = Vec::new();
    std::io::Read::read_to_end(&mut flate2::read::ZlibDecoder::new(data), &mut bytes).ok()?;
    Some(bytes)
}

// ---------------------------------------------------------------------------
// File attributes
// ---------------------------------------------------------------------------

#[derive(Debug, Clone, Copy, PartialEq, Eq)]
pub enum FileAttribute {
    Bitrate(u32),
    Duration(u32),
    VBR(bool),
    Encoder(u32),
    SampleRate(u32),
    BitDepth(u32),
}

impl DeepView for FileAttribute {
    type V = FileAttribute;

    open spec fn deep_view(&self) -> FileAttribute {
        *self
    }
}

/// The one value that is present, or none.
pub open spec fn present<A>(o: Option<A>) -> Seq<A> {
    match o {
        Some(a) => seq![a],
        None => Seq::empty(),
    }
}

impl FileAttribute {
    /// The attribute code and the value that go on the wire.
    pub open spec fn code_value(self) -> (u32, u32) {
        match self {
            FileAttribute::Bitrate(b) => (0, b),
            FileAttribute::Duration(d) => (1, d),
            FileAttribute::VBR(v) => (2, if v { 1 } else { 0 }),
            FileAttribute::Encoder(e) => (3, e),
            FileAttribute::SampleRate(s) => (4, s),
            FileAttribute::BitDepth(d) => (5, d),
        }
    }

    /// The attribute of a code and a value; a VBR value is true only when
    /// it is 1, and codes above 5 are refused.
    pub open spec fn of_code_value(code: u32, value: u32) -> Option<FileAttribute> {
        if code == 0 {
            Some(FileAttribute::Bitrate(value))
        } else if code == 1 {
            Some(FileAttribute::Duration(value))
        } else if code == 2 {
            Some(FileAttribute::VBR(value == 1))
        } else if code == 3 {
            Some(FileAttribute::Encoder(value))
        } else if code == 4 {
            Some(FileAttribute::SampleRate(value))
        } else if code == 5 {
            Some(FileAttribute::BitDepth(value))
        } else {
            None
        }
    }

    /// The attributes that are given, in the order bitrate, duration, VBR,
    /// sample rate, bit depth.
    pub open spec fn spec_from_parts(
        bitrate: Option<u32>,
        duration: Option<u32>,
        vbr: Option<bool>,
        sample_rate: Option<u32>,
        bit_depth: Option<u32>,
    ) -> Seq<FileAttribute> {
        present(
            match bitrate {
                Some(b) => Some(FileAttribute::Bitrate(b)),
                None => None,
            },
        ) + present(
            match duration {
                Some(d) => Some(FileAttribute::Duration(d)),
                None => None,
            },
        ) + present(
            match vbr {
                Some(v) => Some(FileAttribute::VBR(v)),
                None => None,
            },
        ) + present(
            match sample_rate {
                Some(s) => Some(FileAttribute::SampleRate(s)),
                None => None,
            },
        ) + present(
            match bit_depth {
                Some(d) => Some(FileAttribute::BitDepth(d)),
                None => None,
            },
        )
    }

    pub fn from_parts(
        bitrate: Option<u32>,
        duration: Option<u32>,
        vbr: Option<bool>,
        sample_rate: Option<u32>,
        bit_depth: Option<u32>,
    ) -> (r: Vec<Self>)
        ensures
            r@ == Self::spec_from_parts(bitrate, duration, vbr, sample_rate, bit_depth),
    {
        let mut r: Vec<FileAttribute> = Vec::new();
        if let Some(b) = bitrate {
            r.push(FileAttribute::Bitrate(b));
        }
        if let Some(d) = duration {
            r.push(FileAttribute::Duration(d));
        }
        if let Some(v) = vbr {
            r.push(FileAttribute::VBR(v));
        }
        if let Some(s) = sample_rate {
            r.push(FileAttribute::SampleRate(s));
        }
        if let Some(d) = bit_depth {
            r.push(FileAttribute::BitDepth(d));
        }
        assert(r@ =~= Self::spec_from_parts(bitrate, duration, vbr, sample_rate, bit_depth));
        r
    }
}

impl PackToBytes for FileAttribute {
    /// The code, then the value, as `u32`s.
    open spec fn spec_pack(v: FileAttribute) -> Seq<u8> {
        le_u32(v.code_value().0) + le_u32(v.code_value().1)
    }

    fn pack_to_bytes(&self) -> (r: Vec<u8>) {
        let (code, value): (u32, u32) = match *self {
            Self::Bitrate(bitrate) => (0u32, bitrate),
            Self::Duration(duration) => (1, duration),
            Self::VBR(vbr) => (2, if vbr { 1 } else { 0 }),
            Self::Encoder(encoder) => (3, encoder),
            Self::SampleRate(sample_rate) => (4, sample_rate),
            Self::BitDepth(depth) => (5, depth),
        };
        let mut bytes = u32_to_le(code);
        let mut v = u32_to_le(value);
        bytes.append(&mut v);
        bytes
    }
}

impl UnpackFromBytes for FileAttribute {
    open spec fn spec_unpack(bytes: Seq<u8>) -> (Option<FileAttribute>, Seq<u8>) {
        match u32::spec_unpack(bytes) {
            (Some(code), r1) => match u32::spec_unpack(r1) {
                (Some(value), r2) => (FileAttribute::of_code_value(code, value), r2),
                (None, r2) => (None, r2),
            },
            (None, r1) => (None, r1),
        }
    }

    fn unpack_from_bytes(bytes: &mut Vec<u8>) -> (r: Option<Self>) {
        let code = u32::unpack_from_bytes(bytes)?;
        let value = u32::unpack_from_bytes(bytes)?;
        if code == 0 {
            Some(Self::Bitrate(value))
        } else if code == 1 {
            Some(Self::Duration(value))
        } else if code == 2 {
            Some(Self::VBR(value == 1))
        } else if code == 3 {
            Some(Self::Encoder(value))
        } else if code == 4 {
            Some(Self::SampleRate(value))
        } else if code == 5 {
            Some(Self::BitDepth(value))
        } else {
            None
        }
    }
}

impl FileAttribute {
    /// An attribute comes back from its encoding, whatever follows it.
    pub proof fn lemma_roundtrip(a: FileAttribute)
        ensures
            roundtrips::<FileAttribute>(a),
    {
        let (c, v) = a.code_value();
        lemma_u32_roundtrip(c);
        lemma_u32_roundtrip(v);
        assert forall|rest: Seq<u8>|
            #[trigger] FileAttribute::spec_unpack(FileAttribute::spec_pack(a) + rest) == (
                Some(a),
                rest,
            ) by {
            let t1 = le_u32(v) + rest;
            assert(FileAttribute::spec_pack(a) + rest =~= le_u32(c) + t1);
            assert(u32::spec_unpack(u32::spec_pack(c) + t1) == (Some(c), t1));
            assert(u32::spec_unpack(u32::spec_pack(v) + rest) == (Some(v), rest));
        }
    }
}

#[derive(Debug, Clone)]
pub struct File {
    pub code: u8,
    pub filename: String,
    pub file_size: u64,
    pub extension: String,
    pub attributes: Vec<FileAttribute>,
}

/// The value of a [`File`], with texts and lists as sequences.
pub struct FileModel {
    pub code: u8,
    pub filename: Seq<char>,
    pub file_size: u64,
    pub extension: Seq<char>,
    pub attributes: Seq<FileAttribute>,
}

impl DeepView for File {
    type V = FileModel;

    open spec fn deep_view(&self) -> FileModel {
        FileModel {
            code: self.code.deep_view(),
            filename: self.filename.deep_view(),
            file_size: self.file_size.deep_view(),
            extension: self.extension.deep_view(),
            attributes: self.attributes.deep_view(),
        }
    }
}

impl FileModel {
    /// Every text and list fits its `u32` length prefix.
    pub open spec fn wire_ok(self) -> bool {
        &&& utf8_bytes(self.filename).len() <= u32::MAX
        &&& utf8_bytes(self.extension).len() <= u32::MAX
        &&& self.attributes.len() <= u32::MAX
    }
}

impl PackToBytes for File {
    /// The fields, one after the other.
    open spec fn spec_pack(v: FileModel) -> Seq<u8> {
        u8::spec_pack(v.code) + String::spec_pack(v.filename) + u64::spec_pack(v.file_size) + String::spec_pack(v.extension) + <Vec<FileAttribute>>::spec_pack(v.attributes)
    }

    fn pack_to_bytes(&self) -> (r: Vec<u8>) {
        let mut bytes: Vec<u8> = Vec::new();
        let mut code = self.code.pack_to_bytes();
        bytes.append(&mut code);
        let mut filename = self.filename.pack_to_bytes();
        bytes.append(&mut filename);
        let mut file_size = self.file_size.pack_to_bytes();
        bytes.append(&mut file_size);
        let mut extension = self.extension.pack_to_bytes();
        bytes.append(&mut extension);
        let mut attributes = self.attributes.pack_to_bytes();
        bytes.append(&mut attributes);
        assert(bytes@ =~= Self::spec_pack(self.deep_view()));
        bytes
    }
}

impl UnpackFromBytes for File {
    /// The fields, one after the other; the first failure stops it.
    open spec fn spec_unpack(bytes: Seq<u8>) -> (Option<FileModel>, Seq<u8>) {
        match u8::spec_unpack(bytes) {
            (Some(code), r0) => 
                match String::spec_unpack(r0) {
                    (Some(filename), r1) => 
                        match u64::spec_unpack(r1) {
                            (Some(file_size), r2) => 
                                match String::spec_unpack(r2) {
                                    (Some(extension), r3) => 
                                        match <Vec<FileAttribute>>::spec_unpack(r3) {
                                            (Some(attributes), r4) => (Some(FileModel { code, filename, file_size, extension, attributes }), r4),
                                            (None, r4) => (None, r4),
                                        },
                                    (None, r3) => (None, r3),
                                },
                            (None, r2) => (None, r2),
                        },
                    (None, r1) => (None, r1),
                },
            (None, r0) => (None, r0),
        }
    }

    fn unpack_from_bytes(bytes: &mut Vec<u8>) -> (r: Option<Self>) {
        let code = u8::unpack_from_bytes(bytes)?;
        let filename = String::unpack_from_bytes(bytes)?;
        let file_size = u64::unpack_from_bytes(bytes)?;
        let extension = String::unpack_from_bytes(bytes)?;
        let attributes = <Vec<FileAttribute>>::unpack_from_bytes(bytes)?;
        Some(File { code, filename, file_size, extension, attributes })
    }
}

impl File {
    /// Decoding the encoding of a message gives the message back, whatever
    /// follows it, when its texts and lists fit their length prefixes.
    #[verifier::rlimit(50)]
    pub proof fn lemma_roundtrip(m: FileModel)
        requires
            m.wire_ok(),
        ensures
            roundtrips::<File>(m),
    {
        lemma_u8_roundtrip(m.code);
        lemma_string_roundtrip(m.filename);
        lemma_u64_roundtrip(m.file_size);
        lemma_string_roundtrip(m.extension);
        assert forall|i: int| 0 <= i < m.attributes.len() implies roundtrips::<FileAttribute>(#[trigger] m.attributes[i]) by {
            FileAttribute::lemma_roundtrip(m.attributes[i]);
        }
        lemma_vec_roundtrip::<FileAttribute>(m.attributes);
        assert forall|rest: Seq<u8>|
            #[trigger] File::spec_unpack(File::spec_pack(m) + rest) == (Some(m), rest) by {
            let t5 = rest;
            let t4 = <Vec<FileAttribute>>::spec_pack(m.attributes) + t5;
            let t3 = String::spec_pack(m.extension) + t4;
            let t2 = u64::spec_pack(m.file_size) + t3;
            let t1 = String::spec_pack(m.filename) + t2;
            let t0 = u8::spec_pack(m.code) + t1;
            assert(File::spec_pack(m) + rest =~= t0);
            assert(u8::spec_unpack(t0) == (Some(m.code), t1));
            assert(String::spec_unpack(t1) == (Some(m.filename), t2));
            assert(u64::spec_unpack(t2) == (Some(m.file_size), t3));
            assert(String::spec_unpack(t3) == (Some(m.extension), t4));
            assert(<Vec<FileAttribute>>::spec_unpack(t4) == (Some(m.attributes), t5));
        }
    }
}
#[derive(Debug, Clone)]
pub struct Directory {
    pub path: String,
    pub files: Vec<File>,
}

/// The value of a [`Directory`], with texts and lists as sequences.
pub struct DirectoryModel {
    pub path: Seq<char>,
    pub files: Seq<FileModel>,
}

impl DeepView for Directory {
    type V = DirectoryModel;

    open spec fn deep_view(&self) -> DirectoryModel {
        DirectoryModel {
            path: self.path.deep_view(),
            files: self.files.deep_view(),
        }
    }
}

impl DirectoryModel {
    /// Every text and list fits its `u32` length prefix.
    pub open spec fn wire_ok(self) -> bool {
        &&& utf8_bytes(self.path).len() <= u32::MAX
        &&& self.files.len() <= u32::MAX && (forall|i: int| #![trigger self.files[i]] 0 <= i < self.files.len() ==> self.files[i].wire_ok())
    }
}

impl PackToBytes for Directory {
    /// The fields, one after the other.
    open spec fn spec_pack(v: DirectoryModel) -> Seq<u8> {
        String::spec_pack(v.path) + <Vec<File>>::spec_pack(v.files)
    }

    fn pack_to_bytes(&self) -> (r: Vec<u8>) {
        let mut bytes: Vec<u8> = Vec::new();
        let mut path = self.path.pack_to_bytes();
        bytes.append(&mut path);
        let mut files = self.files.pack_to_bytes();
        bytes.append(&mut files);
        assert(bytes@ =~= Self::spec_pack(self.deep_view()));
        bytes
    }
}

impl UnpackFromBytes for Directory {
    /// The fields, one after the other; the first failure stops it.
    open spec fn spec_unpack(bytes: Seq<u8>) -> (Option<DirectoryModel>, Seq<u8>) {
        match String::spec_unpack(bytes) {
            (Some(path), r0) => 
                match <Vec<File>>::spec_unpack(r0) {
                    (Some(files), r1) => (Some(DirectoryModel { path, files }), r1),
                    (None, r1) => (None, r1),
                },
            (None, r0) => (None, r0),
        }
    }

    fn unpack_from_bytes(bytes: &mut Vec<u8>) -> (r: Option<Self>) {
        let path = String::unpack_from_bytes(bytes)?;
        let files = <Vec<File>>::unpack_from_bytes(bytes)?;
        Some(Directory { path, files })
    }
}

impl Directory {
    /// Decoding the encoding of a message gives the message back, whatever
    /// follows it, when its texts and lists fit their length prefixes.
    pub proof fn lemma_roundtrip(m: DirectoryModel)
        requires
            m.wire_ok(),
        ensures
            roundtrips::<Directory>(m),
    {
        lemma_string_roundtrip(m.path);
        assert forall|i: int| 0 <= i < m.files.len() implies roundtrips::<File>(#[trigger] m.files[i]) by {
            File::lemma_roundtrip(m.files[i]);
        }
        lemma_vec_roundtrip::<File>(m.files);
        assert forall|rest: Seq<u8>|
            #[trigger] Directory::spec_unpack(Directory::spec_pack(m) + rest) == (Some(m), rest) by {
            let t2 = rest;
            let t1 = <Vec<File>>::spec_pack(m.files) + t2;
            let t0 = String::spec_pack(m.path) + t1;
            assert(Directory::spec_pack(m) + rest =~= t0);
            assert(String::spec_unpack(t0) == (Some(m.path), t1));
            assert(<Vec<File>>::spec_unpack(t1) == (Some(m.files), t2));
        }
    }
}
#[derive(Debug, Clone, Copy, PartialEq, Eq)]
pub struct GetSharedFileList {}

impl DeepView for GetSharedFileList {
    type V = GetSharedFileList;

    open spec fn deep_view(&self) -> GetSharedFileList {
        *self
    }
}

impl GetSharedFileList {
    /// Every text and list fits its `u32` length prefix.
    pub open spec fn wire_ok(self) -> bool {
        true
    }
}

impl PackToBytes for GetSharedFileList {
    /// The fields, one after the other.
    open spec fn spec_pack(v: GetSharedFileList) -> Seq<u8> {
        Seq::empty()
    }

    fn pack_to_bytes(&self) -> (r: Vec<u8>) {
        let mut bytes: Vec<u8> = Vec::new();
        assert(bytes@ =~= Self::spec_pack(self.deep_view()));
        bytes
    }
}

impl UnpackFromBytes for GetSharedFileList {
    /// The fields, one after the other; the first failure stops it.
    open spec fn spec_unpack(bytes: Seq<u8>) -> (Option<GetSharedFileList>, Seq<u8>) {
        (Some(GetSharedFileList {}), bytes)
    }

    fn unpack_from_bytes(bytes: &mut Vec<u8>) -> (r: Option<Self>) {
        Some(GetSharedFileList {  })
    }
}

impl GetSharedFileList {
    /// Decoding the encoding of a message gives the message back, whatever
    /// follows it, when its texts and lists fit their length prefixes.
    pub proof fn lemma_roundtrip(m: GetSharedFileList)
        requires
            m.wire_ok(),
        ensures
            roundtrips::<GetSharedFileList>(m),
    {
        assert forall|rest: Seq<u8>|
            #[trigger] GetSharedFileList::spec_unpack(GetSharedFileList::spec_pack(m) + rest) == (Some(m), rest) by {
            assert(Seq::<u8>::empty() + rest =~= rest);
        }
    }
}
impl MessageTrait for GetSharedFileList {
    type ToSend = GetSharedFileList;

    type ToReceive = GetSharedFileList;

    open spec fn spec_code() -> MessageType {
        MessageType::Peer(4)
    }

    fn code() -> (c: MessageType) {
        MessageType::Peer(4)
    }
}

#[derive(Debug, Clone, Copy, PartialEq, Eq)]
pub struct SharedFileListRequest {}

impl DeepView for SharedFileListRequest {
    type V = SharedFileListRequest;

    open spec fn deep_view(&self) -> SharedFileListRequest {
        *self
    }
}

impl SharedFileListRequest {
    /// Every text and list fits its `u32` length prefix.
    pub open spec fn wire_ok(self) -> bool {
        true
    }
}

impl PackToBytes for SharedFileListRequest {
    /// The fields, one after the other.
    open spec fn spec_pack(v: SharedFileListRequest) -> Seq<u8> {
        Seq::empty()
    }

    fn pack_to_bytes(&self) -> (r: Vec<u8>) {
        let mut bytes: Vec<u8> = Vec::new();
        assert(bytes@ =~= Self::spec_pack(self.deep_view()));
        bytes
    }
}

impl UnpackFromBytes for SharedFileListRequest {
    /// The fields, one after the other; the first failure stops it.
    open spec fn spec_unpack(bytes: Seq<u8>) -> (Option<SharedFileListRequest>, Seq<u8>) {
        (Some(SharedFileListRequest {}), bytes)
    }

    fn unpack_from_bytes(bytes: &mut Vec<u8>) -> (r: Option<Self>) {
        Some(SharedFileListRequest {  })
    }
}

impl SharedFileListRequest {
    /// Decoding the encoding of a message gives the message back, whatever
    /// follows it, when its texts and lists fit their length prefixes.
    pub proof fn lemma_roundtrip(m: SharedFileListRequest)
        requires
            m.wire_ok(),
        ensures
            roundtrips::<SharedFileListRequest>(m),
    {
        assert forall|rest: Seq<u8>|
            #[trigger] SharedFileListRequest::spec_unpack(SharedFileListRequest::spec_pack(m) + rest) == (Some(m), rest) by {
            assert(Seq::<u8>::empty() + rest =~= rest);
        }
    }
}
impl MessageTrait for SharedFileListRequest {
    type ToSend = SharedFileListRequest;

    type ToReceive = SharedFileListRequest;

    open spec fn spec_code() -> MessageType {
        MessageType::Peer(4)
    }

    fn code() -> (c: MessageType) {
        MessageType::Peer(4)
    }
}

// ---------------------------------------------------------------------------
// Shared file lists
// ---------------------------------------------------------------------------

#[derive(Debug, Clone)]
pub struct SharedFileListResponse {
    pub directories: Vec<Directory>,
    pub _unknown_0: u32,
    pub priv_directories: Vec<Directory>,
}

/// The value of a [`SharedFileListResponse`].
pub struct SharedFileListResponseModel {
    pub directories: Seq<DirectoryModel>,
    pub _unknown_0: u32,
    pub priv_directories: Seq<DirectoryModel>,
}

impl DeepView for SharedFileListResponse {
    type V = SharedFileListResponseModel;

    open spec fn deep_view(&self) -> SharedFileListResponseModel {
        SharedFileListResponseModel {
            directories: self.directories.deep_view(),
            _unknown_0: self._unknown_0,
            priv_directories: self.priv_directories.deep_view(),
        }
    }
}

impl SharedFileListResponseModel {
    pub open spec fn wire_ok(self) -> bool {
        &&& self.directories.len() <= u32::MAX
        &&& forall|i: int|
            #![trigger self.directories[i]]
            0 <= i < self.directories.len() ==> self.directories[i].wire_ok()
        &&& self.priv_directories.len() <= u32::MAX
        &&& forall|i: int|
            #![trigger self.priv_directories[i]]
            0 <= i < self.priv_directories.len() ==> self.priv_directories[i].wire_ok()
    }
}

impl SharedFileListResponse {
    /// The uncompressed body: public directories, a number, private
    /// directories.
    pub open spec fn spec_pack_body(v: SharedFileListResponseModel) -> Seq<u8> {
        <Vec<Directory>>::spec_pack(v.directories) + u32::spec_pack(v._unknown_0) + <Vec<
            Directory,
        >>::spec_pack(v.priv_directories)
    }

    /// Decoding of the uncompressed body.
    pub open spec fn spec_unpack_body(bytes: Seq<u8>) -> (
        Option<SharedFileListResponseModel>,
        Seq<u8>,
    ) {
        match <Vec<Directory>>::spec_unpack(bytes) {
            (Some(directories), r0) => match u32::spec_unpack(r0) {
                (Some(_unknown_0), r1) => match <Vec<Directory>>::spec_unpack(r1) {
                    (Some(priv_directories), r2) => (
                        Some(
                            SharedFileListResponseModel {
                                directories,
                                _unknown_0,
                                priv_directories,
                            },
                        ),
                        r2,
                    ),
                    (None, r2) => (None, r2),
                },
                (None, r1) => (None, r1),
            },
            (None, r0) => (None, r0),
        }
    }

    /// The body decodes back to the message, whatever follows it.
    #[verifier::rlimit(50)]
    pub proof fn lemma_body_roundtrip(m: SharedFileListResponseModel, rest: Seq<u8>)
        requires
            m.wire_ok(),
        ensures
            Self::spec_unpack_body(Self::spec_pack_body(m) + rest) == (Some(m), rest),
    {
        assert forall|i: int| 0 <= i < m.directories.len() implies roundtrips::<Directory>(
            #[trigger] m.directories[i],
        ) by {
            Directory::lemma_roundtrip(m.directories[i]);
        }
        lemma_vec_roundtrip::<Directory>(m.directories);
        assert forall|i: int| 0 <= i < m.priv_directories.len() implies roundtrips::<Directory>(
            #[trigger] m.priv_directories[i],
        ) by {
            Directory::lemma_roundtrip(m.priv_directories[i]);
        }
        lemma_vec_roundtrip::<Directory>(m.priv_directories);
        lemma_u32_roundtrip(m._unknown_0);
        let t2 = <Vec<Directory>>::spec_pack(m.priv_directories) + rest;
        let t1 = u32::spec_pack(m._unknown_0) + t2;
        let t0 = <Vec<Directory>>::spec_pack(m.directories) + t1;
        assert(Self::spec_pack_body(m) + rest =~= t0);
        assert(<Vec<Directory>>::spec_unpack(t0) == (Some(m.directories), t1));
        assert(u32::spec_unpack(t1) == (Some(m._unknown_0), t2));
        assert(<Vec<Directory>>::spec_unpack(t2) == (Some(m.priv_directories), rest));
    }

    /// The message decodes back from its encoding when zlib gives back what
    /// it compressed.
    pub proof fn lemma_roundtrip(m: SharedFileListResponseModel)
        requires
            m.wire_ok(),
        ensures
            zlib_decompress(zlib_compress(Self::spec_pack_body(m))) == Some(Self::spec_pack_body(m))
                ==> Self::spec_unpack(Self::spec_pack(m)) == (Some(m), Self::spec_pack(m)),
    {
        Self::lemma_body_roundtrip(m, Seq::empty());
        assert(Self::spec_pack_body(m) + Seq::<u8>::empty() =~= Self::spec_pack_body(m));
    }
}

impl PackToBytes for SharedFileListResponse {
    /// The body, compressed.
    open spec fn spec_pack(v: SharedFileListResponseModel) -> Seq<u8> {
        zlib_compress(Self::spec_pack_body(v))
    }

    fn pack_to_bytes(&self) -> (r: Vec<u8>) {
        let mut bytes = self.directories.pack_to_bytes();
        let mut unknown = u32_to_le(self._unknown_0);
        bytes.append(&mut unknown);
        let mut private = self.priv_directories.pack_to_bytes();
        bytes.append(&mut private);
        assert(bytes@ =~= Self::spec_pack_body(self.deep_view()));
        zlib_compress_best(bytes.as_slice())
    }
}

impl UnpackFromBytes for SharedFileListResponse {
    /// The whole buffer is decompressed and the body decoded from it; the
    /// buffer itself is left as it was.
    open spec fn spec_unpack(bytes: Seq<u8>) -> (Option<SharedFileListResponseModel>, Seq<u8>) {
        match zlib_decompress(bytes) {
            Some(body) => (Self::spec_unpack_body(body).0, bytes),
            None => (None, bytes),
        }
    }

    fn unpack_from_bytes(buf: &mut Vec<u8>) -> (r: Option<Self>) {
        let mut bytes = zlib_decompress_all(buf.as_slice())?;
        Self::unpack_body(&mut bytes)
    }
}

impl SharedFileListResponse {
    fn unpack_body(bytes: &mut Vec<u8>) -> (r: Option<Self>)
        ensures
            (r.deep_view(), final(bytes)@) == Self::spec_unpack_body(old(bytes)@),
    {
        let directories = <Vec<Directory>>::unpack_from_bytes(bytes)?;
        let _unknown_0 = u32::unpack_from_bytes(bytes)?;
        let priv_directories = <Vec<Directory>>::unpack_from_bytes(bytes)?;
        Some(Self { directories, _unknown_0, priv_directories })
    }
}

impl MessageTrait for SharedFileListResponse {
    type ToSend = SharedFileListResponse;

    type ToReceive = SharedFileListResponse;

    open spec fn spec_code() -> MessageType {
        MessageType::Peer(5)
    }

    fn code() -> (c: MessageType) {
        MessageType::Peer(5)
    }
}

// ---------------------------------------------------------------------------
// Search results
// ---------------------------------------------------------------------------

#[derive(Debug, Clone)]
pub struct FileSearchResponse {
    pub username: String,
    pub token: u32,
    pub files: Vec<File>,
    pub slot_free: bool,
    pub avg_speed: u32,
    pub queue_length: u32,
    pub unknown_0: u32,
    pub private_files: Option<Vec<File>>,
}

/// The value of a [`FileSearchResponse`].
pub struct FileSearchResponseModel {
    pub username: Seq<char>,
    pub token: u32,
    pub files: Seq<FileModel>,
    pub slot_free: bool,
    pub avg_speed: u32,
    pub queue_length: u32,
    pub unknown_0: u32,
    pub private_files: Option<Seq<FileModel>>,
}

impl DeepView for FileSearchResponse {
    type V = FileSearchResponseModel;

    open spec fn deep_view(&self) -> FileSearchResponseModel {
        FileSearchResponseModel {
            username: self.username@,
            token: self.token,
            files: self.files.deep_view(),
            slot_free: self.slot_free,
            avg_speed: self.avg_speed,
            queue_length: self.queue_length,
            unknown_0: self.unknown_0,
            private_files: self.private_files.deep_view(),
        }
    }
}

/// Every file of a list fits the encoding's length prefixes.
pub open spec fn files_ok(files: Seq<FileModel>) -> bool {
    &&& files.len() <= u32::MAX
    &&& forall|i: int| #![trigger files[i]] 0 <= i < files.len() ==> files[i].wire_ok()
}

impl FileSearchResponseModel {
    /// The texts and lists fit their length prefixes, and the private list
    /// is present: without it the decoder refuses the message.
    pub open spec fn wire_ok(self) -> bool {
        &&& utf8_bytes(self.username).len() <= u32::MAX
        &&& files_ok(self.files)
        &&& self.private_files is Some
        &&& files_ok(self.private_files->0)
    }
}

proof fn lemma_files_roundtrip(files: Seq<FileModel>)
    requires
        files_ok(files),
    ensures
        roundtrips::<Vec<File>>(files),
{
    assert forall|i: int| 0 <= i < files.len() implies roundtrips::<File>(#[trigger] files[i]) by {
        File::lemma_roundtrip(files[i]);
    }
    lemma_vec_roundtrip::<File>(files);
}

impl FileSearchResponse {
    /// The uncompressed body: the fields in order, the private list only
    /// when present.
    pub open spec fn spec_pack_body(v: FileSearchResponseModel) -> Seq<u8> {
        String::spec_pack(v.username) + u32::spec_pack(v.token) + <Vec<File>>::spec_pack(v.files)
            + bool::spec_pack(v.slot_free) + u32::spec_pack(v.avg_speed) + u32::spec_pack(
            v.queue_length,
        ) + u32::spec_pack(v.unknown_0) + <Option<Vec<File>>>::spec_pack(v.private_files)
    }

    /// Decoding of the first four fields of the body.
    pub open spec fn spec_unpack_head(bytes: Seq<u8>) -> (
        Option<(Seq<char>, u32, Seq<FileModel>, bool)>,
        Seq<u8>,
    ) {
        match String::spec_unpack(bytes) {
            (Some(username), r0) => match u32::spec_unpack(r0) {
                (Some(token), r1) => match <Vec<File>>::spec_unpack(r1) {
                    (Some(files), r2) => match bool::spec_unpack(r2) {
                        (Some(slot_free), r3) => (Some((username, token, files, slot_free)), r3),
                        (None, r3) => (None, r3),
                    },
                    (None, r2) => (None, r2),
                },
                (None, r1) => (None, r1),
            },
            (None, r0) => (None, r0),
        }
    }

    /// Decoding of the last four fields of the body. The private list is an
    /// optional value: decoding fails when no byte is left for it.
    pub open spec fn spec_unpack_tail(bytes: Seq<u8>) -> (
        Option<(u32, u32, u32, Option<Seq<FileModel>>)>,
        Seq<u8>,
    ) {
        match u32::spec_unpack(bytes) {
            (Some(avg_speed), r4) => match u32::spec_unpack(r4) {
                (Some(queue_length), r5) => match u32::spec_unpack(r5) {
                    (Some(unknown_0), r6) => match <Option<Vec<File>>>::spec_unpack(r6) {
                        (Some(private_files), r7) => (
                            Some((avg_speed, queue_length, unknown_0, private_files)),
                            r7,
                        ),
                        (None, r7) => (None, r7),
                    },
                    (None, r6) => (None, r6),
                },
                (None, r5) => (None, r5),
            },
            (None, r4) => (None, r4),
        }
    }

    /// Decoding of the uncompressed body: the fields in order.
    pub open spec fn spec_unpack_body(bytes: Seq<u8>) -> (Option<FileSearchResponseModel>, Seq<u8>) {
        match Self::spec_unpack_head(bytes) {
            (Some(h), r) => match Self::spec_unpack_tail(r) {
                (Some(t), r2) => (
                    Some(
                        FileSearchResponseModel {
                            username: h.0,
                            token: h.1,
                            files: h.2,
                            slot_free: h.3,
                            avg_speed: t.0,
                            queue_length: t.1,
                            unknown_0: t.2,
                            private_files: t.3,
                        },
                    ),
                    r2,
                ),
                (None, r2) => (None, r2),
            },
            (None, r) => (None, r),
        }
    }

    proof fn lemma_head(m: FileSearchResponseModel, t4: Seq<u8>)
        requires
            m.wire_ok(),
        ensures
            Self::spec_unpack_head(
                String::spec_pack(m.username) + (u32::spec_pack(m.token) + (<Vec<File>>::spec_pack(
                    m.files,
                ) + (bool::spec_pack(m.slot_free) + t4))),
            ) == (Some((m.username, m.token, m.files, m.slot_free)), t4),
    {
        lemma_string_roundtrip(m.username);
        lemma_u32_roundtrip(m.token);
        lemma_files_roundtrip(m.files);
        lemma_bool_roundtrip(m.slot_free);
        let t3 = bool::spec_pack(m.slot_free) + t4;
        let t2 = <Vec<File>>::spec_pack(m.files) + t3;
        let t1 = u32::spec_pack(m.token) + t2;
        let t0 = String::spec_pack(m.username) + t1;
        assert(String::spec_unpack(t0) == (Some(m.username), t1));
        assert(u32::spec_unpack(t1) == (Some(m.token), t2));
        assert(<Vec<File>>::spec_unpack(t2) == (Some(m.files), t3));
        assert(bool::spec_unpack(t3) == (Some(m.slot_free), t4));
    }

    proof fn lemma_tail(m: FileSearchResponseModel, rest: Seq<u8>)
        requires
            m.wire_ok(),
        ensures
            Self::spec_unpack_tail(
                u32::spec_pack(m.avg_speed) + (u32::spec_pack(m.queue_length) + (u32::spec_pack(
                    m.unknown_0,
                ) + (<Option<Vec<File>>>::spec_pack(m.private_files) + rest))),
            ) == (Some((m.avg_speed, m.queue_length, m.unknown_0, m.private_files)), rest),
    {
        lemma_u32_roundtrip(m.avg_speed);
        lemma_u32_roundtrip(m.queue_length);
        lemma_u32_roundtrip(m.unknown_0);
        let p = m.private_files->0;
        lemma_files_roundtrip(p);
        let t7 = <Vec<File>>::spec_pack(p) + rest;
        let t6 = u32::spec_pack(m.unknown_0) + t7;
        let t5 = u32::spec_pack(m.queue_length) + t6;
        let t4 = u32::spec_pack(m.avg_speed) + t5;
        assert(u32::spec_unpack(t4) == (Some(m.avg_speed), t5));
        assert(u32::spec_unpack(t5) == (Some(m.queue_length), t6));
        assert(u32::spec_unpack(t6) == (Some(m.unknown_0), t7));
        assert(<Vec<File>>::spec_unpack(t7) == (Some(p), rest));
        assert(t7.len() >= 4);
    }

    /// The body decodes back to the message, whatever follows it.
    pub proof fn lemma_body_roundtrip(m: FileSearchResponseModel, rest: Seq<u8>)
        requires
            m.wire_ok(),
        ensures
            Self::spec_unpack_body(Self::spec_pack_body(m) + rest) == (Some(m), rest),
    {
        let t4 = u32::spec_pack(m.avg_speed) + (u32::spec_pack(m.queue_length) + (u32::spec_pack(
            m.unknown_0,
        ) + (<Option<Vec<File>>>::spec_pack(m.private_files) + rest)));
        let t0 = String::spec_pack(m.username) + (u32::spec_pack(m.token) + (<Vec<File>>::spec_pack(
            m.files,
        ) + (bool::spec_pack(m.slot_free) + t4)));
        lemma_regroup8(
            String::spec_pack(m.username),
            u32::spec_pack(m.token),
            <Vec<File>>::spec_pack(m.files),
            bool::spec_pack(m.slot_free),
            u32::spec_pack(m.avg_speed),
            u32::spec_pack(m.queue_length),
            u32::spec_pack(m.unknown_0),
            <Option<Vec<File>>>::spec_pack(m.private_files),
            rest,
        );
        Self::lemma_head(m, t4);
        Self::lemma_tail(m, rest);
    }

    /// The message decodes back from its encoding when zlib gives back what
    /// it compressed.
    pub proof fn lemma_roundtrip(m: FileSearchResponseModel)
        requires
            m.wire_ok(),
        ensures
            zlib_decompress(zlib_compress(Self::spec_pack_body(m))) == Some(Self::spec_pack_body(m))
                ==> Self::spec_unpack(Self::spec_pack(m)) == (Some(m), Self::spec_pack(m)),
    {
        Self::lemma_body_roundtrip(m, Seq::empty());
        assert(Self::spec_pack_body(m) + Seq::<u8>::empty() =~= Self::spec_pack_body(m));
    }
}

impl PackToBytes for FileSearchResponse {
    /// The body, compressed.
    open spec fn spec_pack(v: FileSearchResponseModel) -> Seq<u8> {
        zlib_compress(Self::spec_pack_body(v))
    }

    fn pack_to_bytes(&self) -> (r: Vec<u8>) {
        let mut bytes = self.username.pack_to_bytes();
        let mut b = u32_to_le(self.token);
        bytes.append(&mut b);
        let mut b = self.files.pack_to_bytes();
        bytes.append(&mut b);
        let mut b = self.slot_free.pack_to_bytes();
        bytes.append(&mut b);
        let mut b = u32_to_le(self.avg_speed);
        bytes.append(&mut b);
        let mut b = u32_to_le(self.queue_length);
        bytes.append(&mut b);
        let mut b = u32_to_le(self.unknown_0);
        bytes.append(&mut b);
        if let Some(private_files) = &self.private_files {
            let mut b = private_files.pack_to_bytes();
            bytes.append(&mut b);
        }
        assert(bytes@ =~= Self::spec_pack_body(self.deep_view()));
        zlib_compress_best(bytes.as_slice())
    }
}

impl UnpackFromBytes for FileSearchResponse {
    /// The whole buffer is decompressed and the body decoded from it; the
    /// buffer itself is left as it was.
    open spec fn spec_unpack(bytes: Seq<u8>) -> (Option<FileSearchResponseModel>, Seq<u8>) {
        match zlib_decompress(bytes) {
            Some(body) => (Self::spec_unpack_body(body).0, bytes),
            None => (None, bytes),
        }
    }

    fn unpack_from_bytes(buf: &mut Vec<u8>) -> (r: Option<Self>) {
        let mut bytes = zlib_decompress_all(buf.as_slice())?;
        Self::unpack_body(&mut bytes)
    }
}

impl FileSearchResponse {
    #[verifier::rlimit(100)]
    fn unpack_body(bytes: &mut Vec<u8>) -> (r: Option<Self>)
        ensures
            (r.deep_view(), final(bytes)@) == Self::spec_unpack_body(old(bytes)@),
    {
        let username = String::unpack_from_bytes(bytes)?;
        let token = u32::unpack_from_bytes(bytes)?;
        let files = <Vec<File>>::unpack_from_bytes(bytes)?;
        let slot_free = bool::unpack_from_bytes(bytes)?;
        let avg_speed = u32::unpack_from_bytes(bytes)?;
        let queue_length = u32::unpack_from_bytes(bytes)?;
        let unknown_0 = u32::unpack_from_bytes(bytes)?;
        let private_files = <Option<Vec<File>>>::unpack_from_bytes(bytes)?;
        Some(
            Self {
                username,
                token,
                files,
                slot_free,
                avg_speed,
                queue_length,
                unknown_0,
                private_files,
            },
        )
    }
}

impl MessageTrait for FileSearchResponse {
    type ToSend = FileSearchResponse;

    type ToReceive = FileSearchResponse;

    open spec fn spec_code() -> MessageType {
        MessageType::Peer(9)
    }

    fn code() -> (c: MessageType) {
        MessageType::Peer(9)
    }
}

#[derive(Debug, Clone, Copy, PartialEq, Eq)]
pub struct UserInfoRequest {}

impl DeepView for UserInfoRequest {
    type V = UserInfoRequest;

    open spec fn deep_view(&self) -> UserInfoRequest {
        *self
    }
}

impl UserInfoRequest {
    /// Every text and list fits its `u32` length prefix.
    pub open spec fn wire_ok(self) -> bool {
        true
    }
}

impl PackToBytes for UserInfoRequest {
    /// The fields, one after the other.
    open spec fn spec_pack(v: UserInfoRequest) -> Seq<u8> {
        Seq::empty()
    }

    fn pack_to_bytes(&self) -> (r: Vec<u8>) {
        let mut bytes: Vec<u8> = Vec::new();
        assert(bytes@ =~= Self::spec_pack(self.deep_view()));
        bytes
    }
}

impl UnpackFromBytes for UserInfoRequest {
    /// The fields, one after the other; the first failure stops it.
    open spec fn spec_unpack(bytes: Seq<u8>) -> (Option<UserInfoRequest>, Seq<u8>) {
        (Some(UserInfoRequest {}), bytes)
    }

    fn unpack_from_bytes(bytes: &mut Vec<u8>) -> (r: Option<Self>) {
        Some(UserInfoRequest {  })
    }
}

impl UserInfoRequest {
    /// Decoding the encoding of a message gives the message back, whatever
    /// follows it, when its texts and lists fit their length prefixes.
    pub proof fn lemma_roundtrip(m: UserInfoRequest)
        requires
            m.wire_ok(),
        ensures
            roundtrips::<UserInfoRequest>(m),
    {
        assert forall|rest: Seq<u8>|
            #[trigger] UserInfoRequest::spec_unpack(UserInfoRequest::spec_pack(m) + rest) == (Some(m), rest) by {
            assert(Seq::<u8>::empty() + rest =~= rest);
        }
    }
}
impl MessageTrait for UserInfoRequest {
    type ToSend = UserInfoRequest;

    type ToReceive = UserInfoRequest;

    open spec fn spec_code() -> MessageType {
        MessageType::Peer(15)
    }

    fn code() -> (c: MessageType) {
        MessageType::Peer(15)
    }
}

// ---------------------------------------------------------------------------
// User pictures
// ---------------------------------------------------------------------------

#[derive(Debug, Clone)]
pub struct Picture {
    pub picture: Option<String>,
}

/// The value of a [`Picture`].
pub struct PictureModel {
    pub picture: Option<Seq<char>>,
}

impl DeepView for Picture {
    type V = PictureModel;

    open spec fn deep_view(&self) -> PictureModel {
        PictureModel { picture: self.picture.deep_view() }
    }
}

impl PictureModel {
    pub open spec fn wire_ok(self) -> bool {
        match self.picture {
            Some(p) => utf8_bytes(p).len() <= u32::MAX,
            None => true,
        }
    }
}

impl PackToBytes for Picture {
    /// `true` and the picture, or `false`.
    open spec fn spec_pack(v: PictureModel) -> Seq<u8> {
        match v.picture {
            Some(p) => bool::spec_pack(true) + String::spec_pack(p),
            None => bool::spec_pack(false),
        }
    }

    fn pack_to_bytes(&self) -> (r: Vec<u8>) {
        let mut bytes = Vec::new();
        match &self.picture {
            Some(picture) => {
                let mut t = true.pack_to_bytes();
                bytes.append(&mut t);
                let mut p = picture.pack_to_bytes();
                bytes.append(&mut p);
            },
            None => {
                let mut f = false.pack_to_bytes();
                bytes.append(&mut f);
            },
        }
        assert(bytes@ =~= Self::spec_pack(self.deep_view()));
        bytes
    }
}

impl UnpackFromBytes for Picture {
    open spec fn spec_unpack(bytes: Seq<u8>) -> (Option<PictureModel>, Seq<u8>) {
        match bool::spec_unpack(bytes) {
            (Some(exists), r1) => if exists {
                match String::spec_unpack(r1) {
                    (Some(p), r2) => (Some(PictureModel { picture: Some(p) }), r2),
                    (None, r2) => (None, r2),
                }
            } else {
                (Some(PictureModel { picture: None }), r1)
            },
            (None, r1) => (None, r1),
        }
    }

    fn unpack_from_bytes(bytes: &mut Vec<u8>) -> (r: Option<Self>) {
        let exists = bool::unpack_from_bytes(bytes)?;
        let picture: Option<String> = match exists {
            true => Some(String::unpack_from_bytes(bytes)?),
            false => None,
        };
        Some(Picture { picture })
    }
}

impl Picture {
    /// A picture comes back from its encoding, whatever follows it.
    pub proof fn lemma_roundtrip(m: PictureModel)
        requires
            m.wire_ok(),
        ensures
            roundtrips::<Picture>(m),
    {
        lemma_bool_roundtrip(true);
        lemma_bool_roundtrip(false);
        assert forall|rest: Seq<u8>|
            #[trigger] Picture::spec_unpack(Picture::spec_pack(m) + rest) == (Some(m), rest) by {
            match m.picture {
                Some(p) => {
                    lemma_string_roundtrip(p);
                    let t1 = String::spec_pack(p) + rest;
                    assert(Picture::spec_pack(m) + rest =~= bool::spec_pack(true) + t1);
                    assert(bool::spec_unpack(bool::spec_pack(true) + t1) == (Some(true), t1));
                    assert(String::spec_unpack(t1) == (Some(p), rest));
                },
                None => {
                    assert(bool::spec_unpack(bool::spec_pack(false) + rest) == (Some(false), rest));
                },
            }
        }
    }
}

#[derive(Debug, Clone)]
pub struct UserInfoResponse {
    pub description: String,
    pub picture: Picture,
    pub upload_num: u32,
    pub queue_size: u32,
    pub slots_free: bool,
    pub upload_permitted: u32,
}

/// The value of a [`UserInfoResponse`], with texts and lists as sequences.
pub struct UserInfoResponseModel {
    pub description: Seq<char>,
    pub picture: PictureModel,
    pub upload_num: u32,
    pub queue_size: u32,
    pub slots_free: bool,
    pub upload_permitted: u32,
}

impl DeepView for UserInfoResponse {
    type V = UserInfoResponseModel;

    open spec fn deep_view(&self) -> UserInfoResponseModel {
        UserInfoResponseModel {
            description: self.description.deep_view(),
            picture: self.picture.deep_view(),
            upload_num: self.upload_num.deep_view(),
            queue_size: self.queue_size.deep_view(),
            slots_free: self.slots_free.deep_view(),
            upload_permitted: self.upload_permitted.deep_view(),
        }
    }
}

impl UserInfoResponseModel {
    /// Every text and list fits its `u32` length prefix.
    pub open spec fn wire_ok(self) -> bool {
        &&& utf8_bytes(self.description).len() <= u32::MAX
        &&& self.picture.wire_ok()
    }
}

impl PackToBytes for UserInfoResponse {
    /// The fields, one after the other.
    open spec fn spec_pack(v: UserInfoResponseModel) -> Seq<u8> {
        String::spec_pack(v.description) + Picture::spec_pack(v.picture) + u32::spec_pack(v.upload_num) + u32::spec_pack(v.queue_size) + bool::spec_pack(v.slots_free) + u32::spec_pack(v.upload_permitted)
    }

    fn pack_to_bytes(&self) -> (r: Vec<u8>) {
        let mut bytes: Vec<u8> = Vec::new();
        let mut description = self.description.pack_to_bytes();
        bytes.append(&mut description);
        let mut picture = self.picture.pack_to_bytes();
        bytes.append(&mut picture);
        let mut upload_num = self.upload_num.pack_to_bytes();
        bytes.append(&mut upload_num);
        let mut queue_size = self.queue_size.pack_to_bytes();
        bytes.append(&mut queue_size);
        let mut slots_free = self.slots_free.pack_to_bytes();
        bytes.append(&mut slots_free);
        let mut upload_permitted = self.upload_permitted.pack_to_bytes();
        bytes.append(&mut upload_permitted);
        assert(bytes@ =~= Self::spec_pack(self.deep_view()));
        bytes
    }
}

impl UnpackFromBytes for UserInfoResponse {
    /// The fields, one after the other; the first failure stops it.
    open spec fn spec_unpack(bytes: Seq<u8>) -> (Option<UserInfoResponseModel>, Seq<u8>) {
        match String::spec_unpack(bytes) {
            (Some(description), r0) => 
                match Picture::spec_unpack(r0) {
                    (Some(picture), r1) => 
                        match u32::spec_unpack(r1) {
                            (Some(upload_num), r2) => 
                                match u32::spec_unpack(r2) {
                                    (Some(queue_size), r3) => 
                                        match bool::spec_unpack(r3) {
                                            (Some(slots_free), r4) => 
                                                match u32::spec_unpack(r4) {
                                                    (Some(upload_permitted), r5) => (Some(UserInfoResponseModel { description, picture, upload_num, queue_size, slots_free, upload_permitted }), r5),
                                                    (None, r5) => (None, r5),
                                                },
                                            (None, r4) => (None, r4),
                                        },
                                    (None, r3) => (None, r3),
                                },
                            (None, r2) => (None, r2),
                        },
                    (None, r1) => (None, r1),
                },
            (None, r0) => (None, r0),
        }
    }

    fn unpack_from_bytes(bytes: &mut Vec<u8>) -> (r: Option<Self>) {
        let description = String::unpack_from_bytes(bytes)?;
        let picture = Picture::unpack_from_bytes(bytes)?;
        let upload_num = u32::unpack_from_bytes(bytes)?;
        let queue_size = u32::unpack_from_bytes(bytes)?;
        let slots_free = bool::unpack_from_bytes(bytes)?;
        let upload_permitted = u32::unpack_from_bytes(bytes)?;
        Some(UserInfoResponse { description, picture, upload_num, queue_size, slots_free, upload_permitted })
    }
}

impl UserInfoResponse {
    /// Decoding the encoding of a message gives the message back, whatever
    /// follows it, when its texts and lists fit their length prefixes.
    #[verifier::rlimit(50)]
    pub proof fn lemma_roundtrip(m: UserInfoResponseModel)
        requires
            m.wire_ok(),
        ensures
            roundtrips::<UserInfoResponse>(m),
    {
        lemma_string_roundtrip(m.description);
        Picture::lemma_roundtrip(m.picture);
        lemma_u32_roundtrip(m.upload_num);
        lemma_u32_roundtrip(m.queue_size);
        lemma_bool_roundtrip(m.slots_free);
        lemma_u32_roundtrip(m.upload_permitted);
        assert forall|rest: Seq<u8>|
            #[trigger] UserInfoResponse::spec_unpack(UserInfoResponse::spec_pack(m) + rest) == (Some(m), rest) by {
            let t6 = rest;
            let t5 = u32::spec_pack(m.upload_permitted) + t6;
            let t4 = bool::spec_pack(m.slots_free) + t5;
            let t3 = u32::spec_pack(m.queue_size) + t4;
            let t2 = u32::spec_pack(m.upload_num) + t3;
            let t1 = Picture::spec_pack(m.picture) + t2;
            let t0 = String::spec_pack(m.description) + t1;
            assert(UserInfoResponse::spec_pack(m) + rest =~= t0);
            assert(String::spec_unpack(t0) == (Some(m.description), t1));
            assert(Picture::spec_unpack(t1) == (Some(m.picture), t2));
            assert(u32::spec_unpack(t2) == (Some(m.upload_num), t3));
            assert(u32::spec_unpack(t3) == (Some(m.queue_size), t4));
            assert(bool::spec_unpack(t4) == (Some(m.slots_free), t5));
            assert(u32::spec_unpack(t5) == (Some(m.upload_permitted), t6));
        }
    }
}
impl MessageTrait for UserInfoResponse {
    type ToSend = UserInfoResponse;

    type ToReceive = UserInfoResponse;

    open spec fn spec_code() -> MessageType {
        MessageType::Peer(16)
    }

    fn code() -> (c: MessageType) {
        MessageType::Peer(16)
    }
}

#[derive(Debug, Clone)]
pub struct FolderContentsRequest {
    pub token: u32,
    pub folder: String,
}

/// The value of a [`FolderContentsRequest`], with texts and lists as sequences.
pub struct FolderContentsRequestModel {
    pub token: u32,
    pub folder: Seq<char>,
}

impl DeepView for FolderContentsRequest {
    type V = FolderContentsRequestModel;

    open spec fn deep_view(&self) -> FolderContentsRequestModel {
        FolderContentsRequestModel {
            token: self.token.deep_view(),
            folder: self.folder.deep_view(),
        }
    }
}

impl FolderContentsRequestModel {
    /// Every text and list fits its `u32` length prefix.
    pub open spec fn wire_ok(self) -> bool {
        &&& utf8_bytes(self.folder).len() <= u32::MAX
    }
}

impl PackToBytes for FolderContentsRequest {
    /// The fields, one after the other.
    open spec fn spec_pack(v: FolderContentsRequestModel) -> Seq<u8> {
        u32::spec_pack(v.token) + String::spec_pack(v.folder)
    }

    fn pack_to_bytes(&self) -> (r: Vec<u8>) {
        let mut bytes: Vec<u8> = Vec::new();
        let mut token = self.token.pack_to_bytes();
        bytes.append(&mut token);
        let mut folder = self.folder.pack_to_bytes();
        bytes.append(&mut folder);
        assert(bytes@ =~= Self::spec_pack(self.deep_view()));
        bytes
    }
}

impl UnpackFromBytes for FolderContentsRequest {
    /// The fields, one after the other; the first failure stops it.
    open spec fn spec_unpack(bytes: Seq<u8>) -> (Option<FolderContentsRequestModel>, Seq<u8>) {
        match u32::spec_unpack(bytes) {
            (Some(token), r0) => 
                match String::spec_unpack(r0) {
                    (Some(folder), r1) => (Some(FolderContentsRequestModel { token, folder }), r1),
                    (None, r1) => (None, r1),
                },
            (None, r0) => (None, r0),
        }
    }

    fn unpack_from_bytes(bytes: &mut Vec<u8>) -> (r: Option<Self>) {
        let token = u32::unpack_from_bytes(bytes)?;
        let folder = String::unpack_from_bytes(bytes)?;
        Some(FolderContentsRequest { token, folder })
    }
}

impl FolderContentsRequest {
    /// Decoding the encoding of a message gives the message back, whatever
    /// follows it, when its texts and lists fit their length prefixes.
    pub proof fn lemma_roundtrip(m: FolderContentsRequestModel)
        requires
            m.wire_ok(),
        ensures
            roundtrips::<FolderContentsRequest>(m),
    {
        lemma_u32_roundtrip(m.token);
        lemma_string_roundtrip(m.folder);
        assert forall|rest: Seq<u8>|
            #[trigger] FolderContentsRequest::spec_unpack(FolderContentsRequest::spec_pack(m) + rest) == (Some(m), rest) by {
            let t2 = rest;
            let t1 = String::spec_pack(m.folder) + t2;
            let t0 = u32::spec_pack(m.token) + t1;
            assert(FolderContentsRequest::spec_pack(m) + rest =~= t0);
            assert(u32::spec_unpack(t0) == (Some(m.token), t1));
            assert(String::spec_unpack(t1) == (Some(m.folder), t2));
        }
    }
}
impl MessageTrait for FolderContentsRequest {
    type ToSend = FolderContentsRequest;

    type ToReceive = FolderContentsRequest;

    open spec fn spec_code() -> MessageType {
        MessageType::Peer(36)
    }

    fn code() -> (c: MessageType) {
        MessageType::Peer(36)
    }
}

#[derive(Debug, Clone)]
pub struct FolderContentsResponse {
    pub token: u32,
    pub folder: String,
    pub folders: Vec<Directory>,
}

/// The value of a [`FolderContentsResponse`], with texts and lists as sequences.
pub struct FolderContentsResponseModel {
    pub token: u32,
    pub folder: Seq<char>,
    pub folders: Seq<DirectoryModel>,
}

impl DeepView for FolderContentsResponse {
    type V = FolderContentsResponseModel;

    open spec fn deep_view(&self) -> FolderContentsResponseModel {
        FolderContentsResponseModel {
            token: self.token.deep_view(),
            folder: self.folder.deep_view(),
            folders: self.folders.deep_view(),
        }
    }
}

impl FolderContentsResponseModel {
    /// Every text and list fits its `u32` length prefix.
    pub open spec fn wire_ok(self) -> bool {
        &&& utf8_bytes(self.folder).len() <= u32::MAX
        &&& self.folders.len() <= u32::MAX && (forall|i: int| #![trigger self.folders[i]] 0 <= i < self.folders.len() ==> self.folders[i].wire_ok())
    }
}

impl PackToBytes for FolderContentsResponse {
    /// The fields, one after the other.
    open spec fn spec_pack(v: FolderContentsResponseModel) -> Seq<u8> {
        u32::spec_pack(v.token) + String::spec_pack(v.folder) + <Vec<Directory>>::spec_pack(v.folders)
    }

    fn pack_to_bytes(&self) -> (r: Vec<u8>) {
        let mut bytes: Vec<u8> = Vec::new();
        let mut token = self.token.pack_to_bytes();
        bytes.append(&mut token);
        let mut folder = self.folder.pack_to_bytes();
        bytes.append(&mut folder);
        let mut folders = self.folders.pack_to_bytes();
        bytes.append(&mut folders);
        assert(bytes@ =~= Self::spec_pack(self.deep_view()));
        bytes
    }
}

impl UnpackFromBytes for FolderContentsResponse {
    /// The fields, one after the other; the first failure stops it.
    open spec fn spec_unpack(bytes: Seq<u8>) -> (Option<FolderContentsResponseModel>, Seq<u8>) {
        match u32::spec_unpack(bytes) {
            (Some(token), r0) => 
                match String::spec_unpack(r0) {
                    (Some(folder), r1) => 
                        match <Vec<Directory>>::spec_unpack(r1) {
                            (Some(folders), r2) => (Some(FolderContentsResponseModel { token, folder, folders }), r2),
                            (None, r2) => (None, r2),
                        },
                    (None, r1) => (None, r1),
                },
            (None, r0) => (None, r0),
        }
    }

    fn unpack_from_bytes(bytes: &mut Vec<u8>) -> (r: Option<Self>) {
        let token = u32::unpack_from_bytes(bytes)?;
        let folder = String::unpack_from_bytes(bytes)?;
        let folders = <Vec<Directory>>::unpack_from_bytes(bytes)?;
        Some(FolderContentsResponse { token, folder, folders })
    }
}

impl FolderContentsResponse {
    /// Decoding the encoding of a message gives the message back, whatever
    /// follows it, when its texts and lists fit their length prefixes.
    pub proof fn lemma_roundtrip(m: FolderContentsResponseModel)
        requires
            m.wire_ok(),
        ensures
            roundtrips::<FolderContentsResponse>(m),
    {
        lemma_u32_roundtrip(m.token);
        lemma_string_roundtrip(m.folder);
        assert forall|i: int| 0 <= i < m.folders.len() implies roundtrips::<Directory>(#[trigger] m.folders[i]) by {
            Directory::lemma_roundtrip(m.folders[i]);
        }
        lemma_vec_roundtrip::<Directory>(m.folders);
        assert forall|rest: Seq<u8>|
            #[trigger] FolderContentsResponse::spec_unpack(FolderContentsResponse::spec_pack(m) + rest) == (Some(m), rest) by {
            let t3 = rest;
            let t2 = <Vec<Directory>>::spec_pack(m.folders) + t3;
            let t1 = String::spec_pack(m.folder) + t2;
            let t0 = u32::spec_pack(m.token) + t1;
            assert(FolderContentsResponse::spec_pack(m) + rest =~= t0);
            assert(u32::spec_unpack(t0) == (Some(m.token), t1));
            assert(String::spec_unpack(t1) == (Some(m.folder), t2));
            assert(<Vec<Directory>>::spec_unpack(t2) == (Some(m.folders), t3));
        }
    }
}
impl MessageTrait for FolderContentsResponse {
    type ToSend = FolderContentsResponse;

    type ToReceive = FolderContentsResponse;

    open spec fn spec_code() -> MessageType {
        MessageType::Peer(37)
    }

    fn code() -> (c: MessageType) {
        MessageType::Peer(37)
    }
}

// ---------------------------------------------------------------------------
// Transfers
// ---------------------------------------------------------------------------

#[derive(Debug, Clone)]
pub struct TransferRequest {
    pub direction: TransferDirections,
    pub token: u32,
    pub filename: String,
    pub filesize: Option<u64>,
}

/// The value of a [`TransferRequest`].
pub struct TransferRequestModel {
    pub direction: TransferDirections,
    pub token: u32,
    pub filename: Seq<char>,
    pub filesize: Option<u64>,
}

impl DeepView for TransferRequest {
    type V = TransferRequestModel;

    open spec fn deep_view(&self) -> TransferRequestModel {
        TransferRequestModel {
            direction: self.direction,
            token: self.token,
            filename: self.filename@,
            filesize: self.filesize,
        }
    }
}

impl TransferRequestModel {
    /// The file name fits its length prefix, and a size is given exactly for
    /// uploads (only uploads carry one on the wire).
    pub open spec fn wire_ok(self) -> bool {
        &&& utf8_bytes(self.filename).len() <= u32::MAX
        &&& (self.direction == TransferDirections::UploadToPeer) == (self.filesize is Some)
    }
}

impl PackToBytes for TransferRequest {
    /// Direction, token and file name; an upload adds the size (0 when none
    /// is given).
    open spec fn spec_pack(v: TransferRequestModel) -> Seq<u8> {
        TransferDirections::spec_pack(v.direction) + u32::spec_pack(v.token) + String::spec_pack(
            v.filename,
        ) + if v.direction == TransferDirections::UploadToPeer {
            u64::spec_pack(
                match v.filesize {
                    Some(s) => s,
                    None => 0,
                },
            )
        } else {
            Seq::empty()
        }
    }

    fn pack_to_bytes(&self) -> (r: Vec<u8>) {
        let mut bytes = self.direction.pack_to_bytes();
        let mut t = u32_to_le(self.token);
        bytes.append(&mut t);
        let mut f = self.filename.pack_to_bytes();
        bytes.append(&mut f);
        if matches!(self.direction, TransferDirections::UploadToPeer) {
            let size: u64 = match self.filesize {
                Some(s) => s,
                None => 0,
            };
            let mut s = u64_to_le(size);
            bytes.append(&mut s);
        }
        assert(bytes@ =~= Self::spec_pack(self.deep_view()));
        bytes
    }
}

impl UnpackFromBytes for TransferRequest {
    /// An upload request carries the size after the file name.
    open spec fn spec_unpack(bytes: Seq<u8>) -> (Option<TransferRequestModel>, Seq<u8>) {
        match TransferDirections::spec_unpack(bytes) {
            (Some(direction), r0) => match u32::spec_unpack(r0) {
                (Some(token), r1) => match String::spec_unpack(r1) {
                    (Some(filename), r2) => if direction == TransferDirections::UploadToPeer {
                        match u64::spec_unpack(r2) {
                            (Some(size), r3) => (
                                Some(
                                    TransferRequestModel {
                                        direction,
                                        token,
                                        filename,
                                        filesize: Some(size),
                                    },
                                ),
                                r3,
                            ),
                            (None, r3) => (None, r3),
                        }
                    } else {
                        (
                            Some(TransferRequestModel { direction, token, filename, filesize: None }),
                            r2,
                        )
                    },
                    (None, r2) => (None, r2),
                },
                (None, r1) => (None, r1),
            },
            (None, r0) => (None, r0),
        }
    }

    fn unpack_from_bytes(bytes: &mut Vec<u8>) -> (r: Option<Self>) {
        let direction = TransferDirections::unpack_from_bytes(bytes)?;
        let token = u32::unpack_from_bytes(bytes)?;
        let filename = String::unpack_from_bytes(bytes)?;
        let filesize: Option<u64>;
        if matches!(direction, TransferDirections::UploadToPeer) {
            filesize = Some(u64::unpack_from_bytes(bytes)?);
        } else {
            filesize = None
        };
        Some(TransferRequest { direction, token, filename, filesize })
    }
}

impl TransferRequest {
    /// A request comes back from its encoding, whatever follows it, when a
    /// size is given exactly for uploads.
    #[verifier::rlimit(50)]
    pub proof fn lemma_roundtrip(m: TransferRequestModel)
        requires
            m.wire_ok(),
        ensures
            roundtrips::<TransferRequest>(m),
    {
        lemma_direction_roundtrip(m.direction);
        lemma_u32_roundtrip(m.token);
        lemma_string_roundtrip(m.filename);
        assert forall|rest: Seq<u8>|
            #[trigger] TransferRequest::spec_unpack(TransferRequest::spec_pack(m) + rest) == (
                Some(m),
                rest,
            ) by {
            let tail = if m.direction == TransferDirections::UploadToPeer {
                u64::spec_pack(m.filesize->0)
            } else {
                Seq::empty()
            };
            let t3 = tail + rest;
            let t2 = String::spec_pack(m.filename) + t3;
            let t1 = u32::spec_pack(m.token) + t2;
            let t0 = TransferDirections::spec_pack(m.direction) + t1;
            assert(TransferRequest::spec_pack(m) + rest =~= t0);
            assert(TransferDirections::spec_unpack(t0) == (Some(m.direction), t1));
            assert(u32::spec_unpack(t1) == (Some(m.token), t2));
            assert(String::spec_unpack(t2) == (Some(m.filename), t3));
            if m.direction == TransferDirections::UploadToPeer {
                lemma_u64_roundtrip(m.filesize->0);
                assert(u64::spec_unpack(u64::spec_pack(m.filesize->0) + rest) == (
                    Some(m.filesize->0),
                    rest,
                ));
            } else {
                assert(t3 =~= rest);
            }
        }
    }
}

impl MessageTrait for TransferRequest {
    type ToSend = TransferRequest;

    type ToReceive = TransferRequest;

    open spec fn spec_code() -> MessageType {
        MessageType::Peer(40)
    }

    fn code() -> (c: MessageType) {
        MessageType::Peer(40)
    }
}

#[derive(Debug, Clone)]
pub enum TransferResponseReason {
    Allowed(Option<u64>),
    NotAllowed(String),
}

/// The value of a [`TransferResponseReason`].
pub enum TransferResponseReasonModel {
    Allowed(Option<u64>),
    NotAllowed(Seq<char>),
}

impl DeepView for TransferResponseReason {
    type V = TransferResponseReasonModel;

    open spec fn deep_view(&self) -> TransferResponseReasonModel {
        match self {
            TransferResponseReason::Allowed(size) => TransferResponseReasonModel::Allowed(*size),
            TransferResponseReason::NotAllowed(reason) => TransferResponseReasonModel::NotAllowed(
                reason@,
            ),
        }
    }
}

impl TransferResponseReasonModel {
    /// An allowed transfer gives its size (an absent size is recognised only
    /// at the end of a buffer), and a refusal reason fits its length prefix.
    pub open spec fn wire_ok(self) -> bool {
        match self {
            TransferResponseReasonModel::Allowed(size) => size is Some,
            TransferResponseReasonModel::NotAllowed(reason) => utf8_bytes(reason).len()
                <= u32::MAX,
        }
    }
}

impl PackToBytes for TransferResponseReason {
    /// `true` and the optional size, or `false` and the reason.
    open spec fn spec_pack(v: TransferResponseReasonModel) -> Seq<u8> {
        match v {
            TransferResponseReasonModel::Allowed(size) => bool::spec_pack(true) + <Option<
                u64,
            >>::spec_pack(size),
            TransferResponseReasonModel::NotAllowed(reason) => bool::spec_pack(false)
                + String::spec_pack(reason),
        }
    }

    fn pack_to_bytes(&self) -> (r: Vec<u8>) {
        let mut bytes = Vec::new();
        match self {
            TransferResponseReason::Allowed(filesize) => {
                let mut t = true.pack_to_bytes();
                bytes.append(&mut t);
                let mut s = filesize.pack_to_bytes();
                bytes.append(&mut s);
            },
            TransferResponseReason::NotAllowed(reason) => {
                let mut f = false.pack_to_bytes();
                bytes.append(&mut f);
                let mut s = reason.pack_to_bytes();
                bytes.append(&mut s);
            },
        }
        assert(bytes@ =~= Self::spec_pack(self.deep_view()));
        bytes
    }
}

impl UnpackFromBytes for TransferResponseReason {
    /// After `true`, the size is whatever a `u64` decoding gives (absent
    /// when fewer than eight bytes are left, which are then dropped).
    open spec fn spec_unpack(bytes: Seq<u8>) -> (Option<TransferResponseReasonModel>, Seq<u8>) {
        match bool::spec_unpack(bytes) {
            (Some(allowed), r1) => if allowed {
                (
                    Some(TransferResponseReasonModel::Allowed(u64::spec_unpack(r1).0)),
                    u64::spec_unpack(r1).1,
                )
            } else {
                match String::spec_unpack(r1) {
                    (Some(reason), r2) => (
                        Some(TransferResponseReasonModel::NotAllowed(reason)),
                        r2,
                    ),
                    (None, r2) => (None, r2),
                }
            },
            (None, r1) => (None, r1),
        }
    }

    fn unpack_from_bytes(bytes: &mut Vec<u8>) -> (r: Option<Self>) {
        let allowed = bool::unpack_from_bytes(bytes)?;
        let reason = if allowed {
            TransferResponseReason::Allowed(u64::unpack_from_bytes(bytes))
        } else {
            TransferResponseReason::NotAllowed(String::unpack_from_bytes(bytes)?)
        };
        Some(reason)
    }
}

impl TransferResponseReason {
    /// A reason comes back from its encoding, whatever follows it, unless it
    /// is an allowed transfer without a size.
    pub proof fn lemma_roundtrip(m: TransferResponseReasonModel)
        requires
            m.wire_ok(),
        ensures
            roundtrips::<TransferResponseReason>(m),
    {
        lemma_bool_roundtrip(true);
        lemma_bool_roundtrip(false);
        assert forall|rest: Seq<u8>|
            #[trigger] TransferResponseReason::spec_unpack(
                TransferResponseReason::spec_pack(m) + rest,
            ) == (Some(m), rest) by {
            match m {
                TransferResponseReasonModel::Allowed(size) => {
                    let s = size->0;
                    lemma_u64_roundtrip(s);
                    let t1 = u64::spec_pack(s) + rest;
                    assert(TransferResponseReason::spec_pack(m) + rest =~= bool::spec_pack(true)
                        + t1);
                    assert(bool::spec_unpack(bool::spec_pack(true) + t1) == (Some(true), t1));
                    assert(u64::spec_unpack(t1) == (Some(s), rest));
                },
                TransferResponseReasonModel::NotAllowed(reason) => {
                    lemma_string_roundtrip(reason);
                    let t1 = String::spec_pack(reason) + rest;
                    assert(TransferResponseReason::spec_pack(m) + rest =~= bool::spec_pack(false)
                        + t1);
                    assert(bool::spec_unpack(bool::spec_pack(false) + t1) == (Some(false), t1));
                    assert(String::spec_unpack(t1) == (Some(reason), rest));
                },
            }
        }
    }

    /// An allowed transfer without a size comes back from its encoding when
    /// nothing follows it.
    pub proof fn lemma_allowed_without_size()
        ensures
            TransferResponseReason::spec_unpack(
                TransferResponseReason::spec_pack(TransferResponseReasonModel::Allowed(None)),
            ) == (Some(TransferResponseReasonModel::Allowed(None)), Seq::<u8>::empty()),
    {
        let b = TransferResponseReason::spec_pack(TransferResponseReasonModel::Allowed(None));
        assert(b =~= seq![1u8]);
        assert(b.skip(1) =~= Seq::<u8>::empty());
    }
}

#[derive(Debug, Clone)]
pub struct TransferResponse {
    pub token: u32,
    pub reason: TransferResponseReason,
}

/// The value of a [`TransferResponse`], with texts and lists as sequences.
pub struct TransferResponseModel {
    pub token: u32,
    pub reason: TransferResponseReasonModel,
}

impl DeepView for TransferResponse {
    type V = TransferResponseModel;

    open spec fn deep_view(&self) -> TransferResponseModel {
        TransferResponseModel {
            token: self.token.deep_view(),
            reason: self.reason.deep_view(),
        }
    }
}

impl TransferResponseModel {
    /// Every text and list fits its `u32` length prefix.
    pub open spec fn wire_ok(self) -> bool {
        &&& self.reason.wire_ok()
    }
}

impl PackToBytes for TransferResponse {
    /// The fields, one after the other.
    open spec fn spec_pack(v: TransferResponseModel) -> Seq<u8> {
        u32::spec_pack(v.token) + TransferResponseReason::spec_pack(v.reason)
    }

    fn pack_to_bytes(&self) -> (r: Vec<u8>) {
        let mut bytes: Vec<u8> = Vec::new();
        let mut token = self.token.pack_to_bytes();
        bytes.append(&mut token);
        let mut reason = self.reason.pack_to_bytes();
        bytes.append(&mut reason);
        assert(bytes@ =~= Self::spec_pack(self.deep_view()));
        bytes
    }
}

impl UnpackFromBytes for TransferResponse {
    /// The fields, one after the other; the first failure stops it.
    open spec fn spec_unpack(bytes: Seq<u8>) -> (Option<TransferResponseModel>, Seq<u8>) {
        match u32::spec_unpack(bytes) {
            (Some(token), r0) => 
                match TransferResponseReason::spec_unpack(r0) {
                    (Some(reason), r1) => (Some(TransferResponseModel { token, reason }), r1),
                    (None, r1) => (None, r1),
                },
            (None, r0) => (None, r0),
        }
    }

    fn unpack_from_bytes(bytes: &mut Vec<u8>) -> (r: Option<Self>) {
        let token = u32::unpack_from_bytes(bytes)?;
        let reason = TransferResponseReason::unpack_from_bytes(bytes)?;
        Some(TransferResponse { token, reason })
    }
}

impl TransferResponse {
    /// Decoding the encoding of a message gives the message back, whatever
    /// follows it, when its texts and lists fit their length prefixes.
    pub proof fn lemma_roundtrip(m: TransferResponseModel)
        requires
            m.wire_ok(),
        ensures
            roundtrips::<TransferResponse>(m),
    {
        lemma_u32_roundtrip(m.token);
        TransferResponseReason::lemma_roundtrip(m.reason);
        assert forall|rest: Seq<u8>|
            #[trigger] TransferResponse::spec_unpack(TransferResponse::spec_pack(m) + rest) == (Some(m), rest) by {
            let t2 = rest;
            let t1 = TransferResponseReason::spec_pack(m.reason) + t2;
            let t0 = u32::spec_pack(m.token) + t1;
            assert(TransferResponse::spec_pack(m) + rest =~= t0);
            assert(u32::spec_unpack(t0) == (Some(m.token), t1));
            assert(TransferResponseReason::spec_unpack(t1) == (Some(m.reason), t2));
        }
    }
}
impl MessageTrait for TransferResponse {
    type ToSend = TransferResponse;

    type ToReceive = TransferResponse;

    open spec fn spec_code() -> MessageType {
        MessageType::Peer(41)
    }

    fn code() -> (c: MessageType) {
        MessageType::Peer(41)
    }
}

#[derive(Debug, Clone)]
pub struct QueueUpload {
    pub filename: String,
}

/// The value of a [`QueueUpload`], with texts and lists as sequences.
pub struct QueueUploadModel {
    pub filename: Seq<char>,
}

impl DeepView for QueueUpload {
    type V = QueueUploadModel;

    open spec fn deep_view(&self) -> QueueUploadModel {
        QueueUploadModel {
            filename: self.filename.deep_view(),
        }
    }
}

impl QueueUploadModel {
    /// Every text and list fits its `u32` length prefix.
    pub open spec fn wire_ok(self) -> bool {
        &&& utf8_bytes(self.filename).len() <= u32::MAX
    }
}

impl PackToBytes for QueueUpload {
    /// The fields, one after the other.
    open spec fn spec_pack(v: QueueUploadModel) -> Seq<u8> {
        String::spec_pack(v.filename)
    }

    fn pack_to_bytes(&self) -> (r: Vec<u8>) {
        let mut bytes: Vec<u8> = Vec::new();
        let mut filename = self.filename.pack_to_bytes();
        bytes.append(&mut filename);
        assert(bytes@ =~= Self::spec_pack(self.deep_view()));
        bytes
    }
}

impl UnpackFromBytes for QueueUpload {
    /// The fields, one after the other; the first failure stops it.
    open spec fn spec_unpack(bytes: Seq<u8>) -> (Option<QueueUploadModel>, Seq<u8>) {
        match String::spec_unpack(bytes) {
            (Some(filename), r0) => (Some(QueueUploadModel { filename }), r0),
            (None, r0) => (None, r0),
        }
    }

    fn unpack_from_bytes(bytes: &mut Vec<u8>) -> (r: Option<Self>) {
        let filename = String::unpack_from_bytes(bytes)?;
        Some(QueueUpload { filename })
    }
}

impl QueueUpload {
    /// Decoding the encoding of a message gives the message back, whatever
    /// follows it, when its texts and lists fit their length prefixes.
    pub proof fn lemma_roundtrip(m: QueueUploadModel)
        requires
            m.wire_ok(),
        ensures
            roundtrips::<QueueUpload>(m),
    {
        lemma_string_roundtrip(m.filename);
        assert forall|rest: Seq<u8>|
            #[trigger] QueueUpload::spec_unpack(QueueUpload::spec_pack(m) + rest) == (Some(m), rest) by {
            let t1 = rest;
            let t0 = String::spec_pack(m.filename) + t1;
            assert(QueueUpload::spec_pack(m) + rest =~= t0);
            assert(String::spec_unpack(t0) == (Some(m.filename), t1));
        }
    }
}
impl MessageTrait for QueueUpload {
    type ToSend = QueueUpload;

    type ToReceive = QueueUpload;

    open spec fn spec_code() -> MessageType {
        MessageType::Peer(43)
    }

    fn code() -> (c: MessageType) {
        MessageType::Peer(43)
    }
}

#[derive(Debug, Clone)]
pub struct PlaceInQueueResponse {
    pub filename: String,
    pub place: u32,
}

/// The value of a [`PlaceInQueueResponse`], with texts and lists as sequences.
pub struct PlaceInQueueResponseModel {
    pub filename: Seq<char>,
    pub place: u32,
}

impl DeepView for PlaceInQueueResponse {
    type V = PlaceInQueueResponseModel;

    open spec fn deep_view(&self) -> PlaceInQueueResponseModel {
        PlaceInQueueResponseModel {
            filename: self.filename.deep_view(),
            place: self.place.deep_view(),
        }
    }
}

impl PlaceInQueueResponseModel {
    /// Every text and list fits its `u32` length prefix.
    pub open spec fn wire_ok(self) -> bool {
        &&& utf8_bytes(self.filename).len() <= u32::MAX
    }
}

impl PackToBytes for PlaceInQueueResponse {
    /// The fields, one after the other.
    open spec fn spec_pack(v: PlaceInQueueResponseModel) -> Seq<u8> {
        String::spec_pack(v.filename) + u32::spec_pack(v.place)
    }

    fn pack_to_bytes(&self) -> (r: Vec<u8>) {
        let mut bytes: Vec<u8> = Vec::new();
        let mut filename = self.filename.pack_to_bytes();
        bytes.append(&mut filename);
        let mut place = self.place.pack_to_bytes();
        bytes.append(&mut place);
        assert(bytes@ =~= Self::spec_pack(self.deep_view()));
        bytes
    }
}

impl UnpackFromBytes for PlaceInQueueResponse {
    /// The fields, one after the other; the first failure stops it.
    open spec fn spec_unpack(bytes: Seq<u8>) -> (Option<PlaceInQueueResponseModel>, Seq<u8>) {
        match String::spec_unpack(bytes) {
            (Some(filename), r0) => 
                match u32::spec_unpack(r0) {
                    (Some(place), r1) => (Some(PlaceInQueueResponseModel { filename, place }), r1),
                    (None, r1) => (None, r1),
                },
            (None, r0) => (None, r0),
        }
    }

    fn unpack_from_bytes(bytes: &mut Vec<u8>) -> (r: Option<Self>) {
        let filename = String::unpack_from_bytes(bytes)?;
        let place = u32::unpack_from_bytes(bytes)?;
        Some(PlaceInQueueResponse { filename, place })
    }
}

impl PlaceInQueueResponse {
    /// Decoding the encoding of a message gives the message back, whatever
    /// follows it, when its texts and lists fit their length prefixes.
    pub proof fn lemma_roundtrip(m: PlaceInQueueResponseModel)
        requires
            m.wire_ok(),
        ensures
            roundtrips::<PlaceInQueueResponse>(m),
    {
        lemma_string_roundtrip(m.filename);
        lemma_u32_roundtrip(m.place);
        assert forall|rest: Seq<u8>|
            #[trigger] PlaceInQueueResponse::spec_unpack(PlaceInQueueResponse::spec_pack(m) + rest) == (Some(m), rest) by {
            let t2 = rest;
            let t1 = u32::spec_pack(m.place) + t2;
            let t0 = String::spec_pack(m.filename) + t1;
            assert(PlaceInQueueResponse::spec_pack(m) + rest =~= t0);
            assert(String::spec_unpack(t0) == (Some(m.filename), t1));
            assert(u32::spec_unpack(t1) == (Some(m.place), t2));
        }
    }
}
impl MessageTrait for PlaceInQueueResponse {
    type ToSend = PlaceInQueueResponse;

    type ToReceive = PlaceInQueueResponse;

    open spec fn spec_code() -> MessageType {
        MessageType::Peer(44)
    }

    fn code() -> (c: MessageType) {
        MessageType::Peer(44)
    }
}

#[derive(Debug, Clone)]
pub struct UploadFailed {
    pub filename: String,
}

/// The value of a [`UploadFailed`], with texts and lists as sequences.
pub struct UploadFailedModel {
    pub filename: Seq<char>,
}

impl DeepView for UploadFailed {
    type V = UploadFailedModel;

    open spec fn deep_view(&self) -> UploadFailedModel {
        UploadFailedModel {
            filename: self.filename.deep_view(),
        }
    }
}

impl UploadFailedModel {
    /// Every text and list fits its `u32` length prefix.
    pub open spec fn wire_ok(self) -> bool {
        &&& utf8_bytes(self.filename).len() <= u32::MAX
    }
}

impl PackToBytes for UploadFailed {
    /// The fields, one after the other.
    open spec fn spec_pack(v: UploadFailedModel) -> Seq<u8> {
        String::spec_pack(v.filename)
    }

    fn pack_to_bytes(&self) -> (r: Vec<u8>) {
        let mut bytes: Vec<u8> = Vec::new();
        let mut filename = self.filename.pack_to_bytes();
        bytes.append(&mut filename);
        assert(bytes@ =~= Self::spec_pack(self.deep_view()));
        bytes
    }
}

impl UnpackFromBytes for UploadFailed {
    /// The fields, one after the other; the first failure stops it.
    open spec fn spec_unpack(bytes: Seq<u8>) -> (Option<UploadFailedModel>, Seq<u8>) {
        match String::spec_unpack(bytes) {
            (Some(filename), r0) => (Some(UploadFailedModel { filename }), r0),
            (None, r0) => (None, r0),
        }
    }

    fn unpack_from_bytes(bytes: &mut Vec<u8>) -> (r: Option<Self>) {
        let filename = String::unpack_from_bytes(bytes)?;
        Some(UploadFailed { filename })
    }
}

impl UploadFailed {
    /// Decoding the encoding of a message gives the message back, whatever
    /// follows it, when its texts and lists fit their length prefixes.
    pub proof fn lemma_roundtrip(m: UploadFailedModel)
        requires
            m.wire_ok(),
        ensures
            roundtrips::<UploadFailed>(m),
    {
        lemma_string_roundtrip(m.filename);
        assert forall|rest: Seq<u8>|
            #[trigger] UploadFailed::spec_unpack(UploadFailed::spec_pack(m) + rest) == (Some(m), rest) by {
            let t1 = rest;
            let t0 = String::spec_pack(m.filename) + t1;
            assert(UploadFailed::spec_pack(m) + rest =~= t0);
            assert(String::spec_unpack(t0) == (Some(m.filename), t1));
        }
    }
}
impl MessageTrait for UploadFailed {
    type ToSend = UploadFailed;

    type ToReceive = UploadFailed;

    open spec fn spec_code() -> MessageType {
        MessageType::Peer(46)
    }

    fn code() -> (c: MessageType) {
        MessageType::Peer(46)
    }
}

#[derive(Debug, Clone)]
pub struct UploadDenied {
    pub filename: String,
    pub reason: String,
}

/// The value of a [`UploadDenied`], with texts and lists as sequences.
pub struct UploadDeniedModel {
    pub filename: Seq<char>,
    pub reason: Seq<char>,
}

impl DeepView for UploadDenied {
    type V = UploadDeniedModel;

    open spec fn deep_view(&self) -> UploadDeniedModel {
        UploadDeniedModel {
            filename: self.filename.deep_view(),
            reason: self.reason.deep_view(),
        }
    }
}

impl UploadDeniedModel {
    /// Every text and list fits its `u32` length prefix.
    pub open spec fn wire_ok(self) -> bool {
        &&& utf8_bytes(self.filename).len() <= u32::MAX
        &&& utf8_bytes(self.reason).len() <= u32::MAX
    }
}

impl PackToBytes for UploadDenied {
    /// The fields, one after the other.
    open spec fn spec_pack(v: UploadDeniedModel) -> Seq<u8> {
        String::spec_pack(v.filename) + String::spec_pack(v.reason)
    }

    fn pack_to_bytes(&self) -> (r: Vec<u8>) {
        let mut bytes: Vec<u8> = Vec::new();
        let mut filename = self.filename.pack_to_bytes();
        bytes.append(&mut filename);
        let mut reason = self.reason.pack_to_bytes();
        bytes.append(&mut reason);
        assert(bytes@ =~= Self::spec_pack(self.deep_view()));
        bytes
    }
}

impl UnpackFromBytes for UploadDenied {
    /// The fields, one after the other; the first failure stops it.
    open spec fn spec_unpack(bytes: Seq<u8>) -> (Option<UploadDeniedModel>, Seq<u8>) {
        match String::spec_unpack(bytes) {
            (Some(filename), r0) => 
                match String::spec_unpack(r0) {
                    (Some(reason), r1) => (Some(UploadDeniedModel { filename, reason }), r1),
                    (None, r1) => (None, r1),
                },
            (None, r0) => (None, r0),
        }
    }

    fn unpack_from_bytes(bytes: &mut Vec<u8>) -> (r: Option<Self>) {
        let filename = String::unpack_from_bytes(bytes)?;
        let reason = String::unpack_from_bytes(bytes)?;
        Some(UploadDenied { filename, reason })
    }
}

impl UploadDenied {
    /// Decoding the encoding of a message gives the message back, whatever
    /// follows it, when its texts and lists fit their length prefixes.
    pub proof fn lemma_roundtrip(m: UploadDeniedModel)
        requires
            m.wire_ok(),
        ensures
            roundtrips::<UploadDenied>(m),
    {
        lemma_string_roundtrip(m.filename);
        lemma_string_roundtrip(m.reason);
        assert forall|rest: Seq<u8>|
            #[trigger] UploadDenied::spec_unpack(UploadDenied::spec_pack(m) + rest) == (Some(m), rest) by {
            let t2 = rest;
            let t1 = String::spec_pack(m.reason) + t2;
            let t0 = String::spec_pack(m.filename) + t1;
            assert(UploadDenied::spec_pack(m) + rest =~= t0);
            assert(String::spec_unpack(t0) == (Some(m.filename), t1));
            assert(String::spec_unpack(t1) == (Some(m.reason), t2));
        }
    }
}
impl MessageTrait for UploadDenied {
    type ToSend = UploadDenied;

    type ToReceive = UploadDenied;

    open spec fn spec_code() -> MessageType {
        MessageType::Peer(50)
    }

    fn code() -> (c: MessageType) {
        MessageType::Peer(50)
    }
}

#[derive(Debug, Clone)]
pub struct PlaceInQueueRequest {
    pub filename: String,
}

/// The value of a [`PlaceInQueueRequest`], with texts and lists as sequences.
pub struct PlaceInQueueRequestModel {
    pub filename: Seq<char>,
}

impl DeepView for PlaceInQueueRequest {
    type V = PlaceInQueueRequestModel;

    open spec fn deep_view(&self) -> PlaceInQueueRequestModel {
        PlaceInQueueRequestModel {
            filename: self.filename.deep_view(),
        }
    }
}

impl PlaceInQueueRequestModel {
    /// Every text and list fits its `u32` length prefix.
    pub open spec fn wire_ok(self) -> bool {
        &&& utf8_bytes(self.filename).len() <= u32::MAX
    }
}

impl PackToBytes for PlaceInQueueRequest {
    /// The fields, one after the other.
    open spec fn spec_pack(v: PlaceInQueueRequestModel) -> Seq<u8> {
        String::spec_pack(v.filename)
    }

    fn pack_to_bytes(&self) -> (r: Vec<u8>) {
        let mut bytes: Vec<u8> = Vec::new();
        let mut filename = self.filename.pack_to_bytes();
        bytes.append(&mut filename);
        assert(bytes@ =~= Self::spec_pack(self.deep_view()));
        bytes
    }
}

impl UnpackFromBytes for PlaceInQueueRequest {
    /// The fields, one after the other; the first failure stops it.
    open spec fn spec_unpack(bytes: Seq<u8>) -> (Option<PlaceInQueueRequestModel>, Seq<u8>) {
        match String::spec_unpack(bytes) {
            (Some(filename), r0) => (Some(PlaceInQueueRequestModel { filename }), r0),
            (None, r0) => (None, r0),
        }
    }

    fn unpack_from_bytes(bytes: &mut Vec<u8>) -> (r: Option<Self>) {
        let filename = String::unpack_from_bytes(bytes)?;
        Some(PlaceInQueueRequest { filename })
    }
}

impl PlaceInQueueRequest {
    /// Decoding the encoding of a message gives the message back, whatever
    /// follows it, when its texts and lists fit their length prefixes.
    pub proof fn lemma_roundtrip(m: PlaceInQueueRequestModel)
        requires
            m.wire_ok(),
        ensures
            roundtrips::<PlaceInQueueRequest>(m),
    {
        lemma_string_roundtrip(m.filename);
        assert forall|rest: Seq<u8>|
            #[trigger] PlaceInQueueRequest::spec_unpack(PlaceInQueueRequest::spec_pack(m) + rest) == (Some(m), rest) by {
            let t1 = rest;
            let t0 = String::spec_pack(m.filename) + t1;
            assert(PlaceInQueueRequest::spec_pack(m) + rest =~= t0);
            assert(String::spec_unpack(t0) == (Some(m.filename), t1));
        }
    }
}
impl MessageTrait for PlaceInQueueRequest {
    type ToSend = PlaceInQueueRequest;

    type ToReceive = PlaceInQueueRequest;

    open spec fn spec_code() -> MessageType {
        MessageType::Peer(51)
    }

    fn code() -> (c: MessageType) {
        MessageType::Peer(51)
    }
}

#[derive(Debug, Clone, Copy, PartialEq, Eq)]
pub struct UploadQueueNotification {}

impl DeepView for UploadQueueNotification {
    type V = UploadQueueNotification;

    open spec fn deep_view(&self) -> UploadQueueNotification {
        *self
    }
}

impl UploadQueueNotification {
    /// Every text and list fits its `u32` length prefix.
    pub open spec fn wire_ok(self) -> bool {
        true
    }
}

impl PackToBytes for UploadQueueNotification {
    /// The fields, one after the other.
    open spec fn spec_pack(v: UploadQueueNotification) -> Seq<u8> {
        Seq::empty()
    }

    fn pack_to_bytes(&self) -> (r: Vec<u8>) {
        let mut bytes: Vec<u8> = Vec::new();
        assert(bytes@ =~= Self::spec_pack(self.deep_view()));
        bytes
    }
}

impl UnpackFromBytes for UploadQueueNotification {
    /// The fields, one after the other; the first failure stops it.
    open spec fn spec_unpack(bytes: Seq<u8>) -> (Option<UploadQueueNotification>, Seq<u8>) {
        (Some(UploadQueueNotification {}), bytes)
    }

    fn unpack_from_bytes(bytes: &mut Vec<u8>) -> (r: Option<Self>) {
        Some(UploadQueueNotification {  })
    }
}

impl UploadQueueNotification {
    /// Decoding the encoding of a message gives the message back, whatever
    /// follows it, when its texts and lists fit their length prefixes.
    pub proof fn lemma_roundtrip(m: UploadQueueNotification)
        requires
            m.wire_ok(),
        ensures
            roundtrips::<UploadQueueNotification>(m),
    {
        assert forall|rest: Seq<u8>|
            #[trigger] UploadQueueNotification::spec_unpack(UploadQueueNotification::spec_pack(m) + rest) == (Some(m), rest) by {
            assert(Seq::<u8>::empty() + rest =~= rest);
        }
    }
}
impl MessageTrait for UploadQueueNotification {
    type ToSend = UploadQueueNotification;

    type ToReceive = UploadQueueNotification;

    open spec fn spec_code() -> MessageType {
        MessageType::Peer(52)
    }

    fn code() -> (c: MessageType) {
        MessageType::Peer(52)
    }
}

} // verus!
