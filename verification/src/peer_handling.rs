//! What the client does with a message read from a peer, and how many
//! search results it takes per search.
use std::collections::HashMap;

use vstd::prelude::*;

use crate::constants::{TransferDirections, MAX_RESULTS};
use crate::messages::peer::{
    FileSearchResponse, FileSearchResponseModel, SharedFileListRequest, TransferRequest,
    TransferResponse, TransferResponseModel, TransferResponseReason, TransferResponseReasonModel,
};
use crate::messages::peer_init::{PeerInit, PeerInitModel, PierceFireWall};
use crate::messages::{frame, MessageTrait, MessageType};
use crate::packing::{PackToBytes, UnpackFromBytes};

verus! {

/// What to do about a message from a peer.
#[derive(Debug)]
pub enum PeerAction {
    /// The peer asks for our shared files: send it the list.
    SendShares,
    /// Search results came: show them (while the search wants more).
    SearchResults(FileSearchResponse),
    /// The peer will upload a file to us: remember the file under the token
    /// and send the answer, which allows the transfer.
    AcceptUpload { token: u32, filename: String, filesize: u64, response: Vec<u8> },
    /// A code that peers do not send.
    Unknown(MessageType),
    /// Nothing to do.
    Nothing,
}

/// A [`PeerAction`] as a value.
pub enum PeerActionModel {
    SendShares,
    SearchResults(FileSearchResponseModel),
    AcceptUpload { token: u32, filename: Seq<char>, filesize: u64, response: Seq<u8> },
    Unknown(MessageType),
    Nothing,
}

impl DeepView for PeerAction {
    type V = PeerActionModel;

    open spec fn deep_view(&self) -> PeerActionModel {
        match self {
            PeerAction::SendShares => PeerActionModel::SendShares,
            PeerAction::SearchResults(m) => PeerActionModel::SearchResults(m.deep_view()),
            PeerAction::AcceptUpload { token, filename, filesize, response } =>
                PeerActionModel::AcceptUpload {
                token: *token,
                filename: filename@,
                filesize: *filesize,
                response: response@,
            },
            PeerAction::Unknown(c) => PeerActionModel::Unknown(*c),
            PeerAction::Nothing => PeerActionModel::Nothing,
        }
    }
}

/// The peer messages that the client reads only to report them.
pub open spec fn is_reported_peer_code(u: u32) -> bool {
    u == 5 || u == 15 || u == 16 || u == 36 || u == 37 || u == 41 || u == 43 || u == 44 || u
        == 46 || u == 50 || u == 51 || u == 52
}

/// The answer that allows a transfer.
pub open spec fn allow_transfer_bytes(token: u32) -> Seq<u8> {
    frame(
        MessageType::Peer(41),
        TransferResponse::spec_pack(
            TransferResponseModel { token, reason: TransferResponseReasonModel::Allowed(None) },
        ),
    )
}

/// What a message from a peer with code `code` and payload `bytes` asks for,
/// and the bytes left after it is read: a request for our shares (4),
/// search results (9), a transfer request (40), which is answered when the
/// peer uploads to us. Codes that are only reported are not read here;
/// codes that peers do not send are unknown.
pub open spec fn spec_peer_action(code: MessageType, bytes: Seq<u8>) -> (
    PeerActionModel,
    Seq<u8>,
) {
    match code {
        MessageType::Peer(4) => match SharedFileListRequest::spec_unpack(bytes) {
            (Some(_), rest) => (PeerActionModel::SendShares, rest),
            (None, rest) => (PeerActionModel::Nothing, rest),
        },
        MessageType::Peer(9) => match FileSearchResponse::spec_unpack(bytes) {
            (Some(m), rest) => (PeerActionModel::SearchResults(m), rest),
            (None, rest) => (PeerActionModel::Nothing, rest),
        },
        MessageType::Peer(40) => match TransferRequest::spec_unpack(bytes) {
            (Some(m), rest) => if m.direction == TransferDirections::UploadToPeer {
                (
                    PeerActionModel::AcceptUpload {
                        token: m.token,
                        filename: m.filename,
                        filesize: m.filesize->0,
                        response: allow_transfer_bytes(m.token),
                    },
                    rest,
                )
            } else {
                (PeerActionModel::Nothing, rest)
            },
            (None, rest) => (PeerActionModel::Nothing, rest),
        },
        MessageType::Peer(u) => if is_reported_peer_code(u) {
            (PeerActionModel::Nothing, bytes)
        } else {
            (PeerActionModel::Unknown(code), bytes)
        },
        _ => (PeerActionModel::Unknown(code), bytes),
    }
}

fn shares_action(bytes: &mut Vec<u8>) -> (r: PeerAction)
    ensures
        (r.deep_view(), final(bytes)@) == spec_peer_action(MessageType::Peer(4), old(bytes)@),
{
    match SharedFileListRequest::from_stream(bytes) {
        Some(_) => PeerAction::SendShares,
        None => PeerAction::Nothing,
    }
}

fn search_results_action(bytes: &mut Vec<u8>) -> (r: PeerAction)
    ensures
        (r.deep_view(), final(bytes)@) == spec_peer_action(MessageType::Peer(9), old(bytes)@),
{
    match FileSearchResponse::from_stream(bytes) {
        Some(m) => PeerAction::SearchResults(m),
        None => PeerAction::Nothing,
    }
}

fn transfer_request_action(bytes: &mut Vec<u8>) -> (r: PeerAction)
    ensures
        (r.deep_view(), final(bytes)@) == spec_peer_action(MessageType::Peer(40), old(bytes)@),
{
    match TransferRequest::from_stream(bytes) {
        Some(m) => match m.direction {
            TransferDirections::UploadToPeer => {
                let filesize = match m.filesize {
                    Some(s) => s,
                    None => 0,
                };
                let response = TransferResponse::to_bytes(
                    TransferResponse { token: m.token, reason: TransferResponseReason::Allowed(None) },
                );
                PeerAction::AcceptUpload { token: m.token, filename: m.filename, filesize, response }
            },
            _ => PeerAction::Nothing,
        },
        None => PeerAction::Nothing,
    }
}

/// Reads a message from a peer and decides what to do about it.
pub fn peer_action(code: MessageType, bytes: &mut Vec<u8>) -> (r: PeerAction)
    ensures
        (r.deep_view(), final(bytes)@) == spec_peer_action(code, old(bytes)@),
{
    match code {
        MessageType::Peer(4) => shares_action(bytes),
        MessageType::Peer(9) => search_results_action(bytes),
        MessageType::Peer(40) => transfer_request_action(bytes),
        MessageType::Peer(u) => {
            if u == 5 || u == 15 || u == 16 || u == 36 || u == 37 || u == 41 || u == 43 || u == 44
                || u == 46 || u == 50 || u == 51 || u == 52 {
                PeerAction::Nothing
            } else {
                PeerAction::Unknown(code)
            }
        },
        _ => PeerAction::Unknown(code),
    }
}

/// What to do about the first message of a connection that a peer opened.
#[derive(Debug)]
pub enum ListenerAction {
    /// The peer answers our request to pierce its firewall.
    PierceFireWall(PierceFireWall),
    /// The peer introduces itself: queue the connection.
    Direct(PeerInit),
    /// Nothing to do.
    Nothing,
}

/// A [`ListenerAction`] as a value.
pub enum ListenerActionModel {
    PierceFireWall(PierceFireWall),
    Direct(PeerInitModel),
    Nothing,
}

impl DeepView for ListenerAction {
    type V = ListenerActionModel;

    open spec fn deep_view(&self) -> ListenerActionModel {
        match self {
            ListenerAction::PierceFireWall(m) => ListenerActionModel::PierceFireWall(*m),
            ListenerAction::Direct(m) => ListenerActionModel::Direct(m.deep_view()),
            ListenerAction::Nothing => ListenerActionModel::Nothing,
        }
    }
}

/// The first message of an incoming connection: a firewall piercing (code
/// 0) or a peer introduction (code 1); anything else, or a message that
/// cannot be read, asks for nothing.
pub open spec fn spec_listener_action(code: MessageType, bytes: Seq<u8>) -> (
    ListenerActionModel,
    Seq<u8>,
) {
    match code {
        MessageType::PeerInit(0) => match PierceFireWall::spec_unpack(bytes) {
            (Some(m), rest) => (ListenerActionModel::PierceFireWall(m), rest),
            (None, rest) => (ListenerActionModel::Nothing, rest),
        },
        MessageType::PeerInit(1) => match PeerInit::spec_unpack(bytes) {
            (Some(m), rest) => (ListenerActionModel::Direct(m), rest),
            (None, rest) => (ListenerActionModel::Nothing, rest),
        },
        _ => (ListenerActionModel::Nothing, bytes),
    }
}

/// Reads the first message of an incoming connection and decides what to
/// do about it.
pub fn listener_action(code: MessageType, bytes: &mut Vec<u8>) -> (r: ListenerAction)
    ensures
        (r.deep_view(), final(bytes)@) == spec_listener_action(code, old(bytes)@),
{
    match code {
        MessageType::PeerInit(0) => match PierceFireWall::from_stream(bytes) {
            Some(m) => ListenerAction::PierceFireWall(m),
            None => ListenerAction::Nothing,
        },
        MessageType::PeerInit(1) => match PeerInit::from_stream(bytes) {
            Some(m) => ListenerAction::Direct(m),
            None => ListenerAction::Nothing,
        },
        _ => ListenerAction::Nothing,
    }
}

/// The number of files counted so far for a search token (0 for a token
/// not seen).
pub open spec fn counted(m: Map<u32, u32>, token: u32) -> u32 {
    if m.contains_key(token) {
        m[token]
    } else {
        0
    }
}

/// The counts after a response with `num_files` files for `token`: counted
/// when the search had fewer than `MAX_RESULTS` files, ignored otherwise.
pub open spec fn after_count(m: Map<u32, u32>, token: u32, num_files: u32) -> Map<u32, u32> {
    if counted(m, token) < MAX_RESULTS {
        m.insert(token, (counted(m, token) + num_files) as u32)
    } else {
        m
    }
}

/// Search results are capped: counts never go down; a search that has
/// `MAX_RESULTS` files counted shows no more and its count stays; and the
/// counts of other searches are untouched.
pub proof fn lemma_results_cap(m: Map<u32, u32>, token: u32, num_files: u32, other: u32)
    requires
        counted(m, token) < MAX_RESULTS ==> counted(m, token) + num_files <= u32::MAX,
    ensures
        counted(after_count(m, token, num_files), token) >= counted(m, token),
        counted(m, token) >= MAX_RESULTS ==> after_count(m, token, num_files) == m,
        other != token ==> counted(after_count(m, token, num_files), other) == counted(m, other),
{
}

/// How many result files each search has shown, by search token.
#[derive(Debug)]
pub struct ResultsMap {
    counts: HashMap<u32, u32>,
}

impl ResultsMap {
    pub closed spec fn counts_view(self) -> Map<u32, u32> {
        self.counts@
    }

    pub fn new() -> (r: Self)
        ensures
            r.counts_view() == Map::<u32, u32>::empty(),
    {
        ResultsMap { counts: HashMap::new() }
    }

    /// Takes a response with `num_files` files for the search `token`: it
    /// is shown while fewer than `MAX_RESULTS` files were counted for the
    /// search, and its files are then counted too.
    pub fn count_results(&mut self, token: u32, num_files: u32) -> (show: bool)
        requires
            counted(old(self).counts_view(), token) < MAX_RESULTS ==> counted(
                old(self).counts_view(),
                token,
            ) + num_files <= u32::MAX,
        ensures
            show == (counted(old(self).counts_view(), token) < MAX_RESULTS),
            final(self).counts_view() == after_count(old(self).counts_view(), token, num_files),
    {
        broadcast use vstd::std_specs::hash::group_hash_axioms;

        let count: u32 = match self.counts.get(&token) {
            Some(c) => *c,
            None => 0,
        };
        if count < MAX_RESULTS {
            self.counts.insert(token, count + num_files);
            true
        } else {
            false
        }
    }

    /// The files counted for a search.
    pub fn counted(&self, token: u32) -> (r: u32)
        ensures
            r == counted(self.counts_view(), token),
    {
        broadcast use vstd::std_specs::hash::group_hash_axioms;

        match self.counts.get(&token) {
            Some(c) => *c,
            None => 0,
        }
    }
}

} // verus!
