//! The decisions of a session with the server that span messages: what the
//! answer to a login does to the session, and how connections to users
//! wait for the users' addresses.
use vstd::prelude::*;

use std::collections::HashMap;

use crate::constants::ConnectionTypes;
use crate::packing::Ipv4Addr;

verus! {

/// Why a session ends before the connection does.
#[derive(Clone, Copy, Debug, PartialEq, Eq)]
pub enum SessionEnd {
    /// The server refused the login.
    LoginFail,
    /// The same user logged in elsewhere.
    OtherLogin,
}

/// The user a session is logged in as, once known.
#[derive(Debug)]
pub struct Session {
    pub username: Option<String>,
}

impl Session {
    /// A session not yet logged in.
    pub fn new() -> (r: Self)
        ensures
            r.username is None,
    {
        Session { username: None }
    }

    /// The login `username` is tried: the session is that user's from now.
    pub fn try_login(&mut self, username: String)
        ensures
            final(self).username == Some(username),
    {
        self.username = Some(username);
    }

    /// The server's answer to a login. Whatever it is, a session without
    /// a user takes the configured one. A refusal then ends the session with
    /// `LoginFail`; an acceptance lets it go on.
    pub fn on_login(&mut self, success: bool, configured: &String) -> (r: Option<SessionEnd>)
        ensures
            final(self).username == Some(
                match old(self).username {
                    Some(u) => u,
                    None => *configured,
                },
            ),
            !success ==> r == Some(SessionEnd::LoginFail),
            success ==> r is None,
    {
        if self.username.is_none() {
            self.username = Some(configured.clone());
        }
        if !success {
            return Some(SessionEnd::LoginFail);
        }
        None
    }

    /// The server says the user logged in elsewhere: the session ends.
    pub fn on_relogged(&self) -> (r: SessionEnd)
        ensures
            r == SessionEnd::OtherLogin,
    {
        SessionEnd::OtherLogin
    }
}

/// The address last given for `user`, if any.
pub open spec fn address_of(known: Seq<(String, Ipv4Addr, u32)>, user: Seq<char>) -> Option<(Ipv4Addr, u32)>
    decreases known.len(),
{
    if known.len() == 0 {
        None
    } else if known.last().0@ == user {
        Some((known.last().1, known.last().2))
    } else {
        address_of(known.drop_last(), user)
    }
}

/// The connections waiting for the address of `user`, in the order they
/// were asked for.
pub open spec fn waiting_for(pending: Seq<(String, u32, ConnectionTypes)>, user: Seq<char>) -> Seq<(u32, ConnectionTypes)>
    decreases pending.len(),
{
    if pending.len() == 0 {
        Seq::empty()
    } else {
        let rest = waiting_for(pending.drop_last(), user);
        if pending.last().0@ == user {
            rest.push((pending.last().1, pending.last().2))
        } else {
            rest
        }
    }
}

/// The connections waiting for other users than `user`, in order.
pub open spec fn waiting_for_others(pending: Seq<(String, u32, ConnectionTypes)>, user: Seq<char>) -> Seq<(String, u32, ConnectionTypes)>
    decreases pending.len(),
{
    if pending.len() == 0 {
        Seq::empty()
    } else {
        let rest = waiting_for_others(pending.drop_last(), user);
        if pending.last().0@ == user {
            rest
        } else {
            rest.push(pending.last())
        }
    }
}

/// What a connection to a user does first.
#[derive(Clone, Copy, Debug, PartialEq, Eq)]
pub enum ConnectStep {
    /// The address is known: connect to it now.
    ConnectNow { ip: Ipv4Addr, port: u32 },
    /// The address is not known: ask the server for it; the connection
    /// waits.
    AskAddress,
}

/// The addresses the server gave for users, and the connections waiting
/// for an address.
#[derive(Debug)]
pub struct Peers {
    pub known: Vec<(String, Ipv4Addr, u32)>,
    pub pending: Vec<(String, u32, ConnectionTypes)>,
}

impl Peers {
    /// No address known, no connection waiting.
    pub fn new() -> (r: Self)
        ensures
            r.known@.len() == 0,
            r.pending@.len() == 0,
    {
        Peers { known: Vec::new(), pending: Vec::new() }
    }

    /// The address last given for `user`.
    pub fn address(&self, user: &String) -> (r: Option<(Ipv4Addr, u32)>)
        ensures
            r == address_of(self.known@, user@),
    {
        let mut j = self.known.len();
        assert(self.known@.take(j as int) =~= self.known@);
        while j > 0
            invariant
                j <= self.known@.len(),
                address_of(self.known@, user@) == address_of(self.known@.take(j as int), user@),
            decreases j,
        {
            let ghost t = self.known@.take(j as int);
            assert(t.last() == self.known@[j - 1]);
            assert(t.drop_last() =~= self.known@.take(j - 1));
            if self.known[j - 1].0 == *user {
                return Some((self.known[j - 1].1, self.known[j - 1].2));
            }
            j = j - 1;
        }
        None
    }

    /// A connection of kind `kind` under `token` to `user`: at once when the
    /// address is known; otherwise it waits, and the server is to be asked
    /// for the address.
    pub fn connect(&mut self, user: String, token: u32, kind: ConnectionTypes) -> (r: ConnectStep)
        ensures
            final(self).known == old(self).known,
            match address_of(old(self).known@, user@) {
                Some((ip, port)) => r == (ConnectStep::ConnectNow { ip, port })
                    && final(self).pending == old(self).pending,
                None => r == ConnectStep::AskAddress && final(self).pending@ == old(
                    self,
                ).pending@.push((user, token, kind)),
            },
    {
        match self.address(&user) {
            Some((ip, port)) => ConnectStep::ConnectNow { ip, port },
            None => {
                self.pending.push((user, token, kind));
                ConnectStep::AskAddress
            },
        }
    }

    /// The server gave the address of `user`: it is known from now, and the
    /// connections that waited for it are released, in the order they were
    /// asked for; the others keep waiting.
    pub fn on_address(&mut self, user: String, ip: Ipv4Addr, port: u32) -> (r: Vec<(u32, ConnectionTypes)>)
        ensures
            final(self).known@ == old(self).known@.push((user, ip, port)),
            address_of(final(self).known@, user@) == Some((ip, port)),
            final(self).pending@ == waiting_for_others(old(self).pending@, user@),
            r@ == waiting_for(old(self).pending@, user@),
    {
        let ghost p = self.pending@;
        let mut released: Vec<(u32, ConnectionTypes)> = Vec::new();
        let mut others: Vec<(String, u32, ConnectionTypes)> = Vec::new();
        let n = self.pending.len();
        let mut i: usize = 0;
        while i < n
            invariant
                n == p.len(),
                p == self.pending@,
                i <= n,
                released@ == waiting_for(p.take(i as int), user@),
                others@ == waiting_for_others(p.take(i as int), user@),
            decreases n - i,
        {
            assert(p.take(i + 1).drop_last() =~= p.take(i as int));
            assert(p.take(i + 1).last() == p[i as int]);
            let e = &self.pending[i];
            if e.0 == user {
                released.push((e.1, e.2));
            } else {
                others.push((e.0.clone(), e.1, e.2));
            }
            i = i + 1;
        }
        assert(p.take(n as int) =~= p);
        self.pending = others;
        let ghost before = self.known@;
        self.known.push((user, ip, port));
        assert(self.known@.drop_last() =~= before);
        released
    }
}

/// What is held for each token until its connection is made: messages to
/// send, or files to receive, each token's in the order they came.
#[derive(Debug)]
pub struct TokenQueues<T> {
    pub queues: HashMap<u32, Vec<T>>,
}

impl<T> TokenQueues<T> {
    /// What is held, by token.
    pub open spec fn held(self) -> Map<u32, Seq<T>> {
        self.queues@.map_values(|q: Vec<T>| q@)
    }

    /// Nothing held.
    pub fn new() -> (r: Self)
        ensures
            r.held() == Map::<u32, Seq<T>>::empty(),
    {
        let r = TokenQueues { queues: HashMap::new() };
        assert(r.held() =~= Map::<u32, Seq<T>>::empty());
        r
    }

    /// Holds `item` for `token`, after what is held for it already.
    pub fn push(&mut self, token: u32, item: T)
        ensures
            final(self).held() == old(self).held().insert(
                token,
                if old(self).held().contains_key(token) {
                    old(self).held()[token].push(item)
                } else {
                    seq![item]
                },
            ),
    {
        broadcast use vstd::std_specs::hash::group_hash_axioms;

        let ghost before = self.held();
        let mut queue = match self.queues.remove(&token) {
            Some(q) => q,
            None => Vec::new(),
        };
        queue.push(item);
        self.queues.insert(token, queue);
        assert(self.held() =~= before.insert(
            token,
            if before.contains_key(token) {
                before[token].push(item)
            } else {
                seq![item]
            },
        ));
    }

    /// Takes all that is held for `token`, in order; the token holds
    /// nothing after.
    pub fn take(&mut self, token: u32) -> (r: Vec<T>)
        ensures
            r@ == if old(self).held().contains_key(token) {
                old(self).held()[token]
            } else {
                Seq::empty()
            },
            final(self).held() == old(self).held().remove(token),
    {
        broadcast use vstd::std_specs::hash::group_hash_axioms;

        let ghost before = self.held();
        let r = match self.queues.remove(&token) {
            Some(q) => q,
            None => Vec::new(),
        };
        assert(self.held() =~= before.remove(token));
        r
    }

    /// Takes the first thing held for `token`, if any.
    pub fn pop_front(&mut self, token: u32) -> (r: Option<T>)
        ensures
            old(self).held().contains_key(token) && old(self).held()[token].len() > 0 ==> r == Some(
                old(self).held()[token][0],
            ) && final(self).held() == old(self).held().insert(token, old(self).held()[token].drop_first()),
            !(old(self).held().contains_key(token) && old(self).held()[token].len() > 0) ==> r is None
                && final(self).held() == old(self).held(),
    {
        broadcast use vstd::std_specs::hash::group_hash_axioms;

        let ghost before = self.held();
        match self.queues.remove(&token) {
            Some(mut q) => {
                if q.len() == 0 {
                    self.queues.insert(token, q);
                    assert(self.held() =~= before);
                    None
                } else {
                    let first = q.remove(0);
                    self.queues.insert(token, q);
                    assert(self.held() =~= before.insert(token, before[token].drop_first()));
                    Some(first)
                }
            },
            None => {
                assert(self.held() =~= before);
                None
            },
        }
    }
}

} // verus!
