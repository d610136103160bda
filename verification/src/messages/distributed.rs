//! Messages of the distributed search network.
use vstd::prelude::*;

use super::{MessageTrait, MessageType};
use crate::packing::{
    lemma_string_roundtrip, lemma_u32_roundtrip, roundtrips, utf8_bytes, PackToBytes,
    UnpackFromBytes,
};

verus! {

#[derive(Debug, Clone, Copy, PartialEq, Eq)]
pub struct _SendDistribPing {}

impl DeepView for _SendDistribPing {
    type V = _SendDistribPing;

    open spec fn deep_view(&self) -> _SendDistribPing {
        *self
    }
}

impl PackToBytes for _SendDistribPing {
    /// The fields, one after the other.
    open spec fn spec_pack(v: _SendDistribPing) -> Seq<u8> {
        Seq::empty()
    }

    fn pack_to_bytes(&self) -> (r: Vec<u8>) {
        let mut bytes: Vec<u8> = Vec::new();
        assert(bytes@ =~= Self::spec_pack(self.deep_view()));
        bytes
    }
}
#[derive(Debug, Clone, Copy, PartialEq, Eq)]
pub struct _ReceiveDistribPing {}

impl DeepView for _ReceiveDistribPing {
    type V = _ReceiveDistribPing;

    open spec fn deep_view(&self) -> _ReceiveDistribPing {
        *self
    }
}

impl UnpackFromBytes for _ReceiveDistribPing {
    /// The fields, one after the other; the first failure stops it.
    open spec fn spec_unpack(bytes: Seq<u8>) -> (Option<_ReceiveDistribPing>, Seq<u8>) {
        (Some(_ReceiveDistribPing {}), bytes)
    }

    fn unpack_from_bytes(bytes: &mut Vec<u8>) -> (r: Option<Self>) {
        Some(_ReceiveDistribPing {  })
    }
}
pub struct DistribPing;
impl MessageTrait for DistribPing {
    type ToSend = _SendDistribPing;

    type ToReceive = _ReceiveDistribPing;

    open spec fn spec_code() -> MessageType {
        MessageType::Distributed(0)
    }

    fn code() -> (c: MessageType) {
        MessageType::Distributed(0)
    }
}

#[derive(Debug, Clone)]
pub struct DistribSearch {
    pub unknown: u32,
    pub username: String,
    pub token: u32,
    pub query: String,
}

/// The value of a [`DistribSearch`], with texts and lists as sequences.
pub struct DistribSearchModel {
    pub unknown: u32,
    pub username: Seq<char>,
    pub token: u32,
    pub query: Seq<char>,
}

impl DeepView for DistribSearch {
    type V = DistribSearchModel;

    open spec fn deep_view(&self) -> DistribSearchModel {
        DistribSearchModel {
            unknown: self.unknown.deep_view(),
            username: self.username.deep_view(),
            token: self.token.deep_view(),
            query: self.query.deep_view(),
        }
    }
}

impl DistribSearchModel {
    /// Every text and list fits its `u32` length prefix.
    pub open spec fn wire_ok(self) -> bool {
        &&& utf8_bytes(self.username).len() <= u32::MAX
        &&& utf8_bytes(self.query).len() <= u32::MAX
    }
}

impl PackToBytes for DistribSearch {
    /// The fields, one after the other.
    open spec fn spec_pack(v: DistribSearchModel) -> Seq<u8> {
        u32::spec_pack(v.unknown) + String::spec_pack(v.username) + u32::spec_pack(v.token) + String::spec_pack(v.query)
    }

    fn pack_to_bytes(&self) -> (r: Vec<u8>) {
        let mut bytes: Vec<u8> = Vec::new();
        let mut unknown = self.unknown.pack_to_bytes();
        bytes.append(&mut unknown);
        let mut username = self.username.pack_to_bytes();
        bytes.append(&mut username);
        let mut token = self.token.pack_to_bytes();
        bytes.append(&mut token);
        let mut query = self.query.pack_to_bytes();
        bytes.append(&mut query);
        assert(bytes@ =~= Self::spec_pack(self.deep_view()));
        bytes
    }
}

impl UnpackFromBytes for DistribSearch {
    /// The fields, one after the other; the first failure stops it.
    open spec fn spec_unpack(bytes: Seq<u8>) -> (Option<DistribSearchModel>, Seq<u8>) {
        match u32::spec_unpack(bytes) {
            (Some(unknown), r0) => 
                match String::spec_unpack(r0) {
                    (Some(username), r1) => 
                        match u32::spec_unpack(r1) {
                            (Some(token), r2) => 
                                match String::spec_unpack(r2) {
                                    (Some(query), r3) => (Some(DistribSearchModel { unknown, username, token, query }), r3),
                                    (None, r3) => (None, r3),
                                },
                            (None, r2) => (None, r2),
                        },
                    (None, r1) => (None, r1),
                },
            (None, r0) => (None, r0),
        }
    }

    fn unpack_from_bytes(bytes: &mut Vec<u8>) -> (r: Option<Self>) {
        let unknown = u32::unpack_from_bytes(bytes)?;
        let username = String::unpack_from_bytes(bytes)?;
        let token = u32::unpack_from_bytes(bytes)?;
        let query = String::unpack_from_bytes(bytes)?;
        Some(DistribSearch { unknown, username, token, query })
    }
}

impl DistribSearch {
    /// Decoding the encoding of a message gives the message back, whatever
    /// follows it, when its texts and lists fit their length prefixes.
    pub proof fn lemma_roundtrip(m: DistribSearchModel)
        requires
            m.wire_ok(),
        ensures
            roundtrips::<DistribSearch>(m),
    {
        lemma_u32_roundtrip(m.unknown);
        lemma_string_roundtrip(m.username);
        lemma_u32_roundtrip(m.token);
        lemma_string_roundtrip(m.query);
        assert forall|rest: Seq<u8>|
            #[trigger] DistribSearch::spec_unpack(DistribSearch::spec_pack(m) + rest) == (Some(m), rest) by {
            let t4 = rest;
            let t3 = String::spec_pack(m.query) + t4;
            let t2 = u32::spec_pack(m.token) + t3;
            let t1 = String::spec_pack(m.username) + t2;
            let t0 = u32::spec_pack(m.unknown) + t1;
            assert(DistribSearch::spec_pack(m) + rest =~= t0);
            assert(u32::spec_unpack(t0) == (Some(m.unknown), t1));
            assert(String::spec_unpack(t1) == (Some(m.username), t2));
            assert(u32::spec_unpack(t2) == (Some(m.token), t3));
            assert(String::spec_unpack(t3) == (Some(m.query), t4));
        }
    }
}

impl MessageTrait for DistribSearch {
    type ToSend = DistribSearch;

    type ToReceive = DistribSearch;

    open spec fn spec_code() -> MessageType {
        MessageType::Distributed(3)
    }

    fn code() -> (c: MessageType) {
        MessageType::Distributed(3)
    }
}

#[derive(Debug, Clone, Copy, PartialEq, Eq)]
pub struct DistribBranchLevel {
    pub branch_level: u32,
}

impl DeepView for DistribBranchLevel {
    type V = DistribBranchLevel;

    open spec fn deep_view(&self) -> DistribBranchLevel {
        *self
    }
}

impl DistribBranchLevel {
    /// Every text and list fits its `u32` length prefix.
    pub open spec fn wire_ok(self) -> bool {
        true
    }
}

impl PackToBytes for DistribBranchLevel {
    /// The fields, one after the other.
    open spec fn spec_pack(v: DistribBranchLevel) -> Seq<u8> {
        u32::spec_pack(v.branch_level)
    }

    fn pack_to_bytes(&self) -> (r: Vec<u8>) {
        let mut bytes: Vec<u8> = Vec::new();
        let mut branch_level = self.branch_level.pack_to_bytes();
        bytes.append(&mut branch_level);
        assert(bytes@ =~= Self::spec_pack(self.deep_view()));
        bytes
    }
}

impl UnpackFromBytes for DistribBranchLevel {
    /// The fields, one after the other; the first failure stops it.
    open spec fn spec_unpack(bytes: Seq<u8>) -> (Option<DistribBranchLevel>, Seq<u8>) {
        match u32::spec_unpack(bytes) {
            (Some(branch_level), r0) => (Some(DistribBranchLevel { branch_level }), r0),
            (None, r0) => (None, r0),
        }
    }

    fn unpack_from_bytes(bytes: &mut Vec<u8>) -> (r: Option<Self>) {
        let branch_level = u32::unpack_from_bytes(bytes)?;
        Some(DistribBranchLevel { branch_level })
    }
}

impl DistribBranchLevel {
    /// Decoding the encoding of a message gives the message back, whatever
    /// follows it, when its texts and lists fit their length prefixes.
    pub proof fn lemma_roundtrip(m: DistribBranchLevel)
        requires
            m.wire_ok(),
        ensures
            roundtrips::<DistribBranchLevel>(m),
    {
        lemma_u32_roundtrip(m.branch_level);
        assert forall|rest: Seq<u8>|
            #[trigger] DistribBranchLevel::spec_unpack(DistribBranchLevel::spec_pack(m) + rest) == (Some(m), rest) by {
            let t1 = rest;
            let t0 = u32::spec_pack(m.branch_level) + t1;
            assert(DistribBranchLevel::spec_pack(m) + rest =~= t0);
            assert(u32::spec_unpack(t0) == (Some(m.branch_level), t1));
        }
    }
}

impl MessageTrait for DistribBranchLevel {
    type ToSend = DistribBranchLevel;

    type ToReceive = DistribBranchLevel;

    open spec fn spec_code() -> MessageType {
        MessageType::Distributed(5)
    }

    fn code() -> (c: MessageType) {
        MessageType::Distributed(5)
    }
}

#[derive(Debug, Clone, Copy, PartialEq, Eq)]
pub struct DistribChildDepth {
    pub child_depth: u32,
}

impl DeepView for DistribChildDepth {
    type V = DistribChildDepth;

    open spec fn deep_view(&self) -> DistribChildDepth {
        *self
    }
}

impl DistribChildDepth {
    /// Every text and list fits its `u32` length prefix.
    pub open spec fn wire_ok(self) -> bool {
        true
    }
}

impl PackToBytes for DistribChildDepth {
    /// The fields, one after the other.
    open spec fn spec_pack(v: DistribChildDepth) -> Seq<u8> {
        u32::spec_pack(v.child_depth)
    }

    fn pack_to_bytes(&self) -> (r: Vec<u8>) {
        let mut bytes: Vec<u8> = Vec::new();
        let mut child_depth = self.child_depth.pack_to_bytes();
        bytes.append(&mut child_depth);
        assert(bytes@ =~= Self::spec_pack(self.deep_view()));
        bytes
    }
}

impl UnpackFromBytes for DistribChildDepth {
    /// The fields, one after the other; the first failure stops it.
    open spec fn spec_unpack(bytes: Seq<u8>) -> (Option<DistribChildDepth>, Seq<u8>) {
        match u32::spec_unpack(bytes) {
            (Some(child_depth), r0) => (Some(DistribChildDepth { child_depth }), r0),
            (None, r0) => (None, r0),
        }
    }

    fn unpack_from_bytes(bytes: &mut Vec<u8>) -> (r: Option<Self>) {
        let child_depth = u32::unpack_from_bytes(bytes)?;
        Some(DistribChildDepth { child_depth })
    }
}

impl DistribChildDepth {
    /// Decoding the encoding of a message gives the message back, whatever
    /// follows it, when its texts and lists fit their length prefixes.
    pub proof fn lemma_roundtrip(m: DistribChildDepth)
        requires
            m.wire_ok(),
        ensures
            roundtrips::<DistribChildDepth>(m),
    {
        lemma_u32_roundtrip(m.child_depth);
        assert forall|rest: Seq<u8>|
            #[trigger] DistribChildDepth::spec_unpack(DistribChildDepth::spec_pack(m) + rest) == (Some(m), rest) by {
            let t1 = rest;
            let t0 = u32::spec_pack(m.child_depth) + t1;
            assert(DistribChildDepth::spec_pack(m) + rest =~= t0);
            assert(u32::spec_unpack(t0) == (Some(m.child_depth), t1));
        }
    }
}

impl MessageTrait for DistribChildDepth {
    type ToSend = DistribChildDepth;

    type ToReceive = DistribChildDepth;

    open spec fn spec_code() -> MessageType {
        MessageType::Distributed(7)
    }

    fn code() -> (c: MessageType) {
        MessageType::Distributed(7)
    }
}

/// A message of the distributed network carried inside another. Only its encoding is given: a code is read back only against an expected kind (`MessageType::_unpack_self_from_bytes`).
#[derive(Debug, Clone)]
pub struct DistribEmbeddedMessage {
    pub distributed_code: MessageType,
    pub distributed_message: String,
}

/// The value of a [`DistribEmbeddedMessage`], with texts and lists as sequences.
pub struct DistribEmbeddedMessageModel {
    pub distributed_code: MessageType,
    pub distributed_message: Seq<char>,
}

impl DeepView for DistribEmbeddedMessage {
    type V = DistribEmbeddedMessageModel;

    open spec fn deep_view(&self) -> DistribEmbeddedMessageModel {
        DistribEmbeddedMessageModel {
            distributed_code: self.distributed_code.deep_view(),
            distributed_message: self.distributed_message.deep_view(),
        }
    }
}

impl PackToBytes for DistribEmbeddedMessage {
    /// The fields, one after the other.
    open spec fn spec_pack(v: DistribEmbeddedMessageModel) -> Seq<u8> {
        MessageType::spec_pack(v.distributed_code) + String::spec_pack(v.distributed_message)
    }

    fn pack_to_bytes(&self) -> (r: Vec<u8>) {
        let mut bytes: Vec<u8> = Vec::new();
        let mut distributed_code = self.distributed_code.pack_to_bytes();
        bytes.append(&mut distributed_code);
        let mut distributed_message = self.distributed_message.pack_to_bytes();
        bytes.append(&mut distributed_message);
        assert(bytes@ =~= Self::spec_pack(self.deep_view()));
        bytes
    }
}
} // verus!
