//! Messages that open a connection between peers.
use vstd::prelude::*;

use super::{MessageTrait, MessageType};
use crate::constants::{lemma_connection_roundtrip, ConnectionTypes};
use crate::packing::{
    lemma_string_roundtrip, lemma_u32_roundtrip, roundtrips, utf8_bytes, PackToBytes,
    UnpackFromBytes,
};

verus! {

#[derive(Debug, Clone, Copy, PartialEq, Eq)]
pub struct PierceFireWall {
    pub token: u32,
}

impl DeepView for PierceFireWall {
    type V = PierceFireWall;

    open spec fn deep_view(&self) -> PierceFireWall {
        *self
    }
}

impl PierceFireWall {
    /// Every text and list fits its `u32` length prefix.
    pub open spec fn wire_ok(self) -> bool {
        true
    }
}

impl PackToBytes for PierceFireWall {
    /// The fields, one after the other.
    open spec fn spec_pack(v: PierceFireWall) -> Seq<u8> {
        u32::spec_pack(v.token)
    }

    fn pack_to_bytes(&self) -> (r: Vec<u8>) {
        let mut bytes: Vec<u8> = Vec::new();
        let mut token = self.token.pack_to_bytes();
        bytes.append(&mut token);
        assert(bytes@ =~= Self::spec_pack(self.deep_view()));
        bytes
    }
}

impl UnpackFromBytes for PierceFireWall {
    /// The fields, one after the other; the first failure stops it.
    open spec fn spec_unpack(bytes: Seq<u8>) -> (Option<PierceFireWall>, Seq<u8>) {
        match u32::spec_unpack(bytes) {
            (Some(token), r0) => (Some(PierceFireWall { token }), r0),
            (None, r0) => (None, r0),
        }
    }

    fn unpack_from_bytes(bytes: &mut Vec<u8>) -> (r: Option<Self>) {
        let token = u32::unpack_from_bytes(bytes)?;
        Some(PierceFireWall { token })
    }
}

impl PierceFireWall {
    /// Decoding the encoding of a message gives the message back, whatever
    /// follows it, when its texts and lists fit their length prefixes.
    pub proof fn lemma_roundtrip(m: PierceFireWall)
        requires
            m.wire_ok(),
        ensures
            roundtrips::<PierceFireWall>(m),
    {
        lemma_u32_roundtrip(m.token);
        assert forall|rest: Seq<u8>|
            #[trigger] PierceFireWall::spec_unpack(PierceFireWall::spec_pack(m) + rest) == (Some(m), rest) by {
            let t1 = rest;
            let t0 = u32::spec_pack(m.token) + t1;
            assert(PierceFireWall::spec_pack(m) + rest =~= t0);
            assert(u32::spec_unpack(t0) == (Some(m.token), t1));
        }
    }
}

impl MessageTrait for PierceFireWall {
    type ToSend = PierceFireWall;

    type ToReceive = PierceFireWall;

    open spec fn spec_code() -> MessageType {
        MessageType::PeerInit(0)
    }

    fn code() -> (c: MessageType) {
        MessageType::PeerInit(0)
    }
}

#[derive(Debug, Clone)]
pub struct PeerInit {
    pub username: String,
    pub connection_type: ConnectionTypes,
    pub token: u32,
}

/// The value of a [`PeerInit`], with texts and lists as sequences.
pub struct PeerInitModel {
    pub username: Seq<char>,
    pub connection_type: ConnectionTypes,
    pub token: u32,
}

impl DeepView for PeerInit {
    type V = PeerInitModel;

    open spec fn deep_view(&self) -> PeerInitModel {
        PeerInitModel {
            username: self.username.deep_view(),
            connection_type: self.connection_type.deep_view(),
            token: self.token.deep_view(),
        }
    }
}

impl PeerInitModel {
    /// Every text and list fits its `u32` length prefix.
    pub open spec fn wire_ok(self) -> bool {
        &&& utf8_bytes(self.username).len() <= u32::MAX
    }
}

impl PackToBytes for PeerInit {
    /// The fields, one after the other.
    open spec fn spec_pack(v: PeerInitModel) -> Seq<u8> {
        String::spec_pack(v.username) + ConnectionTypes::spec_pack(v.connection_type) + u32::spec_pack(v.token)
    }

    fn pack_to_bytes(&self) -> (r: Vec<u8>) {
        let mut bytes: Vec<u8> = Vec::new();
        let mut username = self.username.pack_to_bytes();
        bytes.append(&mut username);
        let mut connection_type = self.connection_type.pack_to_bytes();
        bytes.append(&mut connection_type);
        let mut token = self.token.pack_to_bytes();
        bytes.append(&mut token);
        assert(bytes@ =~= Self::spec_pack(self.deep_view()));
        bytes
    }
}

impl UnpackFromBytes for PeerInit {
    /// The fields, one after the other; the first failure stops it.
    open spec fn spec_unpack(bytes: Seq<u8>) -> (Option<PeerInitModel>, Seq<u8>) {
        match String::spec_unpack(bytes) {
            (Some(username), r0) => 
                match ConnectionTypes::spec_unpack(r0) {
                    (Some(connection_type), r1) => 
                        match u32::spec_unpack(r1) {
                            (Some(token), r2) => (Some(PeerInitModel { username, connection_type, token }), r2),
                            (None, r2) => (None, r2),
                        },
                    (None, r1) => (None, r1),
                },
            (None, r0) => (None, r0),
        }
    }

    fn unpack_from_bytes(bytes: &mut Vec<u8>) -> (r: Option<Self>) {
        let username = String::unpack_from_bytes(bytes)?;
        let connection_type = ConnectionTypes::unpack_from_bytes(bytes)?;
        let token = u32::unpack_from_bytes(bytes)?;
        Some(PeerInit { username, connection_type, token })
    }
}

impl PeerInit {
    /// Decoding the encoding of a message gives the message back, whatever
    /// follows it, when its texts and lists fit their length prefixes.
    pub proof fn lemma_roundtrip(m: PeerInitModel)
        requires
            m.wire_ok(),
        ensures
            roundtrips::<PeerInit>(m),
    {
        lemma_string_roundtrip(m.username);
        lemma_connection_roundtrip(m.connection_type);
        lemma_u32_roundtrip(m.token);
        assert forall|rest: Seq<u8>|
            #[trigger] PeerInit::spec_unpack(PeerInit::spec_pack(m) + rest) == (Some(m), rest) by {
            let t3 = rest;
            let t2 = u32::spec_pack(m.token) + t3;
            let t1 = ConnectionTypes::spec_pack(m.connection_type) + t2;
            let t0 = String::spec_pack(m.username) + t1;
            assert(PeerInit::spec_pack(m) + rest =~= t0);
            assert(String::spec_unpack(t0) == (Some(m.username), t1));
            assert(ConnectionTypes::spec_unpack(t1) == (Some(m.connection_type), t2));
            assert(u32::spec_unpack(t2) == (Some(m.token), t3));
        }
    }
}

impl MessageTrait for PeerInit {
    type ToSend = PeerInit;

    type ToReceive = PeerInit;

    open spec fn spec_code() -> MessageType {
        MessageType::PeerInit(1)
    }

    fn code() -> (c: MessageType) {
        MessageType::PeerInit(1)
    }
}
} // verus!
