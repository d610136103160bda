//! Messages of the Soulseek protocol and the framing that carries them.
use vstd::prelude::*;

use crate::packing::{le_u32, u32_to_le, PackToBytes, UnpackFromBytes};

pub mod distributed;
pub mod file;
pub mod peer;
pub mod peer_init;
#[allow(dead_code)]
pub mod server;

verus! {

/// The kind and number of a message.
#[derive(Debug, Clone, Copy, PartialEq, Eq)]
pub enum MessageType {
    Server(u32),
    PeerInit(u8),
    Peer(u32),
    File,
    Distributed(u8),
}

impl DeepView for MessageType {
    type V = MessageType;

    open spec fn deep_view(&self) -> MessageType {
        *self
    }
}

impl PackToBytes for MessageType {
    /// Server and peer codes are `u32`s, peer-init and distributed codes are
    /// single bytes, and file messages carry no code.
    open spec fn spec_pack(v: MessageType) -> Seq<u8> {
        match v {
            MessageType::Server(u) => le_u32(u),
            MessageType::Peer(u) => le_u32(u),
            MessageType::PeerInit(u) => seq![u],
            MessageType::Distributed(u) => seq![u],
            MessageType::File => Seq::empty(),
        }
    }

    fn pack_to_bytes(&self) -> (r: Vec<u8>) {
        match self {
            MessageType::Server(u) | MessageType::Peer(u) => u32_to_le(*u),
            MessageType::PeerInit(u) | MessageType::Distributed(u) => {
                let mut v = Vec::new();
                v.push(*u);
                v
            },
            MessageType::File => Vec::new(),
        }
    }
}

impl MessageType {
    /// Decoding a code of the same kind as `self`: the number that follows
    /// is read with the width of that kind, and the code keeps its kind;
    /// file messages read nothing.
    pub open spec fn spec_unpack_self(self, bytes: Seq<u8>) -> (Option<MessageType>, Seq<u8>) {
        match self {
            MessageType::Server(_) => match u32::spec_unpack(bytes) {
                (Some(u), rest) => (Some(MessageType::Server(u)), rest),
                (None, rest) => (None, rest),
            },
            MessageType::Peer(_) => match u32::spec_unpack(bytes) {
                (Some(u), rest) => (Some(MessageType::Peer(u)), rest),
                (None, rest) => (None, rest),
            },
            MessageType::PeerInit(_) => match u8::spec_unpack(bytes) {
                (Some(u), rest) => (Some(MessageType::PeerInit(u)), rest),
                (None, rest) => (None, rest),
            },
            MessageType::Distributed(_) => match u8::spec_unpack(bytes) {
                (Some(u), rest) => (Some(MessageType::Distributed(u)), rest),
                (None, rest) => (None, rest),
            },
            MessageType::File => (Some(MessageType::File), bytes),
        }
    }

    #[allow(non_snake_case)]
    pub fn _unpack_self_from_bytes(&self, bytes: &mut Vec<u8>) -> (r: Option<Self>)
        ensures
            (r, final(bytes)@) == self.spec_unpack_self(old(bytes)@),
    {
        match self {
            MessageType::Server(_) => Some(MessageType::Server(u32::unpack_from_bytes(bytes)?)),
            MessageType::Peer(_) => Some(MessageType::Peer(u32::unpack_from_bytes(bytes)?)),
            MessageType::PeerInit(_) => Some(MessageType::PeerInit(u8::unpack_from_bytes(bytes)?)),
            MessageType::Distributed(_) => Some(MessageType::Distributed(u8::unpack_from_bytes(bytes)?)),
            MessageType::File => Some(MessageType::File),
        }
    }

    /// A code read back after being written is the same code, and the bytes
    /// after it are left.
    pub proof fn lemma_code_roundtrip(self, rest: Seq<u8>)
        ensures
            self.spec_unpack_self(MessageType::spec_pack(self) + rest) == (Some(self), rest),
    {
        match self {
            MessageType::Server(u) | MessageType::Peer(u) => {
                crate::packing::lemma_u32_roundtrip(u);
                assert(u32::spec_unpack(u32::spec_pack(u) + rest) == (Some(u), rest));
            },
            MessageType::PeerInit(u) | MessageType::Distributed(u) => {
                crate::packing::lemma_u8_roundtrip(u);
                assert(u8::spec_unpack(u8::spec_pack(u) + rest) == (Some(u), rest));
            },
            MessageType::File => {
                assert(Seq::<u8>::empty() + rest =~= rest);
            },
        }
    }
}

/// The bytes of a message on the wire: its code and payload, preceded (but
/// for file messages) by their length as a `u32`.
pub open spec fn frame(code: MessageType, payload: Seq<u8>) -> Seq<u8> {
    let body = MessageType::spec_pack(code) + payload;
    if code is File {
        body
    } else {
        le_u32(body.len() as u32) + body
    }
}

/// A message of the protocol: what it sends, what it receives and its code.
pub trait MessageTrait: Sized {
    type ToSend: PackToBytes;

    type ToReceive: UnpackFromBytes;

    /// The code of the message.
    spec fn spec_code() -> MessageType;

    fn code() -> (c: MessageType)
        ensures
            c == Self::spec_code(),
    ;

    fn to_bytes(message: Self::ToSend) -> (r: Vec<u8>)
        ensures
            r@ == frame(Self::spec_code(), <Self::ToSend as PackToBytes>::spec_pack(message.deep_view())),
    {
        let code = Self::code();
        let is_file = matches!(code, MessageType::File);
        let mut body = code.pack_to_bytes();
        let mut payload = message.pack_to_bytes();
        body.append(&mut payload);
        if is_file {
            body
        } else {
            let mut data = u32_to_le(body.len() as u32);
            data.append(&mut body);
            data
        }
    }

    /// Returns `None` if there aren't enough bytes to unpack the object.
    fn from_stream(stream: &mut Vec<u8>) -> (r: Option<Self::ToReceive>)
        ensures
            (r.deep_view(), final(stream)@) == <Self::ToReceive as UnpackFromBytes>::spec_unpack(
                old(stream)@,
            ),
    {
        Self::ToReceive::unpack_from_bytes(stream)
    }
}

} // verus!
