//! Messages of file-transfer connections.
use vstd::prelude::*;

use super::{MessageTrait, MessageType};
use crate::packing::{
    lemma_u32_roundtrip, lemma_u64_roundtrip, roundtrips, PackToBytes, UnpackFromBytes,
};

verus! {

#[derive(Debug, Clone, Copy, PartialEq, Eq)]
pub struct FileInit {
    pub token: u32,
}

impl DeepView for FileInit {
    type V = FileInit;

    open spec fn deep_view(&self) -> FileInit {
        *self
    }
}

impl FileInit {
    /// Every text and list fits its `u32` length prefix.
    pub open spec fn wire_ok(self) -> bool {
        true
    }
}

impl PackToBytes for FileInit {
    /// The fields, one after the other.
    open spec fn spec_pack(v: FileInit) -> Seq<u8> {
        u32::spec_pack(v.token)
    }

    fn pack_to_bytes(&self) -> (r: Vec<u8>) {
        let mut bytes: Vec<u8> = Vec::new();
        let mut token = self.token.pack_to_bytes();
        bytes.append(&mut token);
        assert(bytes@ =~= Self::spec_pack(self.deep_view()));
        bytes
    }
}

impl UnpackFromBytes for FileInit {
    /// The fields, one after the other; the first failure stops it.
    open spec fn spec_unpack(bytes: Seq<u8>) -> (Option<FileInit>, Seq<u8>) {
        match u32::spec_unpack(bytes) {
            (Some(token), r0) => (Some(FileInit { token }), r0),
            (None, r0) => (None, r0),
        }
    }

    fn unpack_from_bytes(bytes: &mut Vec<u8>) -> (r: Option<Self>) {
        let token = u32::unpack_from_bytes(bytes)?;
        Some(FileInit { token })
    }
}

impl FileInit {
    /// Decoding the encoding of a message gives the message back, whatever
    /// follows it, when its texts and lists fit their length prefixes.
    pub proof fn lemma_roundtrip(m: FileInit)
        requires
            m.wire_ok(),
        ensures
            roundtrips::<FileInit>(m),
    {
        lemma_u32_roundtrip(m.token);
        assert forall|rest: Seq<u8>|
            #[trigger] FileInit::spec_unpack(FileInit::spec_pack(m) + rest) == (Some(m), rest) by {
            let t1 = rest;
            let t0 = u32::spec_pack(m.token) + t1;
            assert(FileInit::spec_pack(m) + rest =~= t0);
            assert(u32::spec_unpack(t0) == (Some(m.token), t1));
        }
    }
}

/// Both the download and the upload side of a file connection start with it.
impl MessageTrait for FileInit {
    type ToSend = FileInit;

    type ToReceive = FileInit;

    open spec fn spec_code() -> MessageType {
        MessageType::File
    }

    fn code() -> (c: MessageType) {
        MessageType::File
    }
}

#[derive(Debug, Clone, Copy, PartialEq, Eq)]
pub struct FileOffset {
    pub offset: u64,
}

impl DeepView for FileOffset {
    type V = FileOffset;

    open spec fn deep_view(&self) -> FileOffset {
        *self
    }
}

impl FileOffset {
    /// Every text and list fits its `u32` length prefix.
    pub open spec fn wire_ok(self) -> bool {
        true
    }
}

impl PackToBytes for FileOffset {
    /// The fields, one after the other.
    open spec fn spec_pack(v: FileOffset) -> Seq<u8> {
        u64::spec_pack(v.offset)
    }

    fn pack_to_bytes(&self) -> (r: Vec<u8>) {
        let mut bytes: Vec<u8> = Vec::new();
        let mut offset = self.offset.pack_to_bytes();
        bytes.append(&mut offset);
        assert(bytes@ =~= Self::spec_pack(self.deep_view()));
        bytes
    }
}

impl UnpackFromBytes for FileOffset {
    /// The fields, one after the other; the first failure stops it.
    open spec fn spec_unpack(bytes: Seq<u8>) -> (Option<FileOffset>, Seq<u8>) {
        match u64::spec_unpack(bytes) {
            (Some(offset), r0) => (Some(FileOffset { offset }), r0),
            (None, r0) => (None, r0),
        }
    }

    fn unpack_from_bytes(bytes: &mut Vec<u8>) -> (r: Option<Self>) {
        let offset = u64::unpack_from_bytes(bytes)?;
        Some(FileOffset { offset })
    }
}

impl FileOffset {
    /// Decoding the encoding of a message gives the message back, whatever
    /// follows it, when its texts and lists fit their length prefixes.
    pub proof fn lemma_roundtrip(m: FileOffset)
        requires
            m.wire_ok(),
        ensures
            roundtrips::<FileOffset>(m),
    {
        lemma_u64_roundtrip(m.offset);
        assert forall|rest: Seq<u8>|
            #[trigger] FileOffset::spec_unpack(FileOffset::spec_pack(m) + rest) == (Some(m), rest) by {
            let t1 = rest;
            let t0 = u64::spec_pack(m.offset) + t1;
            assert(FileOffset::spec_pack(m) + rest =~= t0);
            assert(u64::spec_unpack(t0) == (Some(m.offset), t1));
        }
    }
}

impl MessageTrait for FileOffset {
    type ToSend = FileOffset;

    type ToReceive = FileOffset;

    open spec fn spec_code() -> MessageType {
        MessageType::File
    }

    fn code() -> (c: MessageType) {
        MessageType::File
    }
}
} // verus!
