//! The state of a chat room: the messages said in it and the users in it,
//! each user once, with the statistics the server gave for them.
use vstd::prelude::*;

use crate::messages::server::UserStats;
use crate::utils::{now_as_string, push_str};

verus! {

/// A line of chat: the user's name, the time in brackets, and what was
/// said.
pub open spec fn chat_line_of(username: Seq<char>, time: Seq<char>, message: Seq<char>) -> Seq<char> {
    username + " ["@ + time + "] "@ + message
}

/// The line of chat of `message` said by `username` at `time`.
pub fn chat_line(username: &str, time: &str, message: &str) -> (r: String)
    ensures
        r@ == chat_line_of(username@, time@, message@),
{
    let mut line = String::new();
    push_str(&mut line, username);
    push_str(&mut line, " [");
    push_str(&mut line, time);
    push_str(&mut line, "] ");
    push_str(&mut line, message);
    proof {
        reveal_strlit(" [");
        reveal_strlit("] ");
    }
    assert(line@ =~= chat_line_of(username@, time@, message@));
    line
}

/// No two entries name the same user.
pub open spec fn names_unique(s: Seq<(String, UserStats)>) -> bool {
    forall|i: int, j: int| 0 <= i < j < s.len() ==> #[trigger] s[i].0@ != #[trigger] s[j].0@
}

/// The users of a list of entries, by name.
pub open spec fn user_map(s: Seq<(String, UserStats)>) -> Map<Seq<char>, UserStats>
    decreases s.len(),
{
    if s.len() == 0 {
        Map::empty()
    } else {
        user_map(s.drop_last()).insert(s.last().0@, s.last().1)
    }
}

/// A name is a user of the list exactly when an entry has it, and then the
/// entry gives the statistics.
proof fn lemma_user_map(s: Seq<(String, UserStats)>)
    requires
        names_unique(s),
    ensures
        forall|j: int|
            0 <= j < s.len() ==> user_map(s).contains_key(#[trigger] s[j].0@) && user_map(s)[s[j].0@]
                == s[j].1,
        forall|k: Seq<char>|
            #[trigger] user_map(s).contains_key(k) ==> exists|j: int| 0 <= j < s.len() && s[j].0@ == k,
    decreases s.len(),
{
    if s.len() > 0 {
        let p = s.drop_last();
        assert(names_unique(p)) by {
            assert forall|i: int, j: int| 0 <= i < j < p.len() implies #[trigger] p[i].0@
                != #[trigger] p[j].0@ by {
                assert(s[i] == p[i] && s[j] == p[j]);
            }
        }
        lemma_user_map(p);
        assert forall|j: int| 0 <= j < s.len() implies user_map(s).contains_key(
            #[trigger] s[j].0@,
        ) && user_map(s)[s[j].0@] == s[j].1 by {
            if j < s.len() - 1 {
                assert(s[j] == p[j]);
                assert(s[j].0@ != s[s.len() - 1].0@);
            }
        }
        assert forall|k: Seq<char>| #[trigger] user_map(s).contains_key(k) implies exists|j: int|
            0 <= j < s.len() && s[j].0@ == k by {
            if k == s.last().0@ {
                assert(s[s.len() - 1].0@ == k);
            } else {
                assert(user_map(p).contains_key(k));
                let j = choose|j: int| 0 <= j < p.len() && p[j].0@ == k;
                assert(s[j] == p[j]);
            }
        }
    }
}

/// Removing a user undoes adding one who was not in the room, and adding a
/// user twice keeps one entry, with the statistics given last (by the
/// contracts of `add_user` and `remove_user`, these are the users of the
/// room after those calls).
pub proof fn lemma_add_remove_users(
    users: Map<Seq<char>, UserStats>,
    name: Seq<char>,
    first: UserStats,
    last: UserStats,
)
    ensures
        !users.contains_key(name) ==> users.insert(name, first).remove(name) == users,
        users.insert(name, first).insert(name, last) == users.insert(name, last),
{
    assert(users.insert(name, first).insert(name, last) =~= users.insert(name, last));
    if !users.contains_key(name) {
        assert(users.insert(name, first).remove(name) =~= users);
    }
}

/// The messages and the users of a chat room.
#[derive(Debug)]
pub struct ChatroomState {
    messages: Vec<String>,
    users: Vec<(String, UserStats)>,
}

impl ChatroomState {
    #[verifier::type_invariant]
    spec fn users_unique(self) -> bool {
        names_unique(self.users@)
    }

    /// The messages, oldest first.
    pub closed spec fn messages_view(self) -> Seq<Seq<char>> {
        self.messages@.map_values(|m: String| m@)
    }

    /// The users, by name.
    pub closed spec fn users_view(self) -> Map<Seq<char>, UserStats> {
        user_map(self.users@)
    }

    /// A room with no messages and no users.
    pub fn new() -> (r: Self)
        ensures
            r.messages_view() == Seq::<Seq<char>>::empty(),
            r.users_view() == Map::<Seq<char>, UserStats>::empty(),
    {
        let r = ChatroomState { messages: Vec::new(), users: Vec::new() };
        assert(r.messages_view() =~= Seq::<Seq<char>>::empty());
        r
    }

    /// Adds a message after the others.
    pub fn add_message(&mut self, message: String)
        ensures
            final(self).messages_view() == old(self).messages_view().push(message@),
            final(self).users_view() == old(self).users_view(),
    {
        proof {
            use_type_invariant(&*self);
        }
        let mut messages: Vec<String> = Vec::new();
        std::mem::swap(&mut messages, &mut self.messages);
        let ghost m = message@;
        messages.push(message);
        self.messages = messages;
        assert(self.messages_view() =~= old(self).messages_view().push(m));
    }

    /// Adds what `username` said, as a line of chat stamped with the local
    /// time.
    pub fn add_chat_message(&mut self, username: &str, message: &str)
        ensures
            exists|time: Seq<char>|
                final(self).messages_view() == old(self).messages_view().push(
                    #[trigger] chat_line_of(username@, time, message@),
                ),
            final(self).users_view() == old(self).users_view(),
    {
        let time = now_as_string();
        let line = chat_line(username, time.as_str(), message);
        self.add_message(line);
    }

    /// The index of the entry of a user, if there is one.
    fn find_user(&self, user: &String) -> (r: Option<usize>)
        ensures
            match r {
                Some(i) => i < self.users@.len() && self.users@[i as int].0@ == user@,
                None => forall|j: int| 0 <= j < self.users@.len() ==> self.users@[j].0@ != user@,
            },
    {
        let n = self.users.len();
        let mut i: usize = 0;
        while i < n
            invariant
                n == self.users@.len(),
                i <= n,
                forall|j: int| 0 <= j < i ==> self.users@[j].0@ != user@,
            decreases n - i,
        {
            if self.users[i].0 == *user {
                return Some(i);
            }
            i = i + 1;
        }
        None
    }

    /// Adds a user, or gives a user already in the room new statistics.
    pub fn add_user(&mut self, user: String, stats: UserStats)
        ensures
            final(self).users_view() == old(self).users_view().insert(user@, stats),
            final(self).messages_view() == old(self).messages_view(),
    {
        proof {
            use_type_invariant(&*self);
            lemma_user_map(self.users@);
        }
        let found = self.find_user(&user);
        let ghost old_users = self.users@;
        let ghost name = user@;
        let mut users: Vec<(String, UserStats)> = Vec::new();
        std::mem::swap(&mut users, &mut self.users);
        match found {
            Some(i) => {
                users.set(i, (user, stats));
                proof {
                    assert(names_unique(users@)) by {
                        assert forall|a: int, b: int| 0 <= a < b < users@.len() implies #[trigger] users@[a].0@
                            != #[trigger] users@[b].0@ by {
                            assert(users@[a].0@ == old_users[a].0@);
                            assert(users@[b].0@ == old_users[b].0@);
                        }
                    }
                    lemma_user_map(users@);
                    assert(user_map(users@) =~= user_map(old_users).insert(name, stats)) by {
                        assert forall|k: Seq<char>| #[trigger] user_map(users@).contains_key(k)
                            <==> user_map(old_users).insert(name, stats).contains_key(k) by {
                            if user_map(users@).contains_key(k) {
                                let j = choose|j: int| 0 <= j < users@.len() && users@[j].0@ == k;
                                assert(old_users[j].0@ == k);
                            }
                            if user_map(old_users).contains_key(k) {
                                let j = choose|j: int|
                                    0 <= j < old_users.len() && old_users[j].0@ == k;
                                assert(users@[j].0@ == k);
                            }
                        }
                        assert forall|k: Seq<char>| #[trigger] user_map(users@).contains_key(k)
                            implies user_map(users@)[k] == user_map(old_users).insert(
                            name,
                            stats,
                        )[k] by {
                            let j = choose|j: int| 0 <= j < users@.len() && users@[j].0@ == k;
                            if j != i {
                                assert(old_users[j].0@ == k);
                            }
                        }
                    }
                }
            },
            None => {
                users.push((user, stats));
                proof {
                    assert(users@.drop_last() =~= old_users);
                    assert(names_unique(users@)) by {
                        assert forall|a: int, b: int| 0 <= a < b < users@.len() implies #[trigger] users@[a].0@
                            != #[trigger] users@[b].0@ by {
                            if b < users@.len() - 1 {
                                assert(users@[a] == old_users[a]);
                                assert(users@[b] == old_users[b]);
                            } else {
                                assert(users@[a] == old_users[a]);
                            }
                        }
                    }
                }
            },
        }
        self.users = users;
    }

    /// Removes a user, if in the room.
    pub fn remove_user(&mut self, user: String)
        ensures
            final(self).users_view() == old(self).users_view().remove(user@),
            final(self).messages_view() == old(self).messages_view(),
    {
        proof {
            use_type_invariant(&*self);
            lemma_user_map(self.users@);
        }
        let found = self.find_user(&user);
        let ghost old_users = self.users@;
        let ghost name = user@;
        match found {
            Some(i) => {
                let mut users: Vec<(String, UserStats)> = Vec::new();
        std::mem::swap(&mut users, &mut self.users);
                users.remove(i);
                proof {
                    assert(users@ =~= old_users.remove(i as int));
                    assert(forall|j: int|
                        0 <= j < users@.len() ==> #[trigger] users@[j] == old_users[if j < i {
                            j
                        } else {
                            j + 1
                        }]);
                    assert(names_unique(users@)) by {
                        assert forall|a: int, b: int| 0 <= a < b < users@.len() implies #[trigger] users@[a].0@
                            != #[trigger] users@[b].0@ by {
                            let oa = if a < i {
                                a
                            } else {
                                a + 1
                            };
                            let ob = if b < i {
                                b
                            } else {
                                b + 1
                            };
                            assert(users@[a] == old_users[oa]);
                            assert(users@[b] == old_users[ob]);
                        }
                    }
                    lemma_user_map(users@);
                    assert(user_map(users@) =~= user_map(old_users).remove(name)) by {
                        assert forall|k: Seq<char>| #[trigger] user_map(users@).contains_key(k)
                            <==> user_map(old_users).remove(name).contains_key(k) by {
                            if user_map(users@).contains_key(k) {
                                let j = choose|j: int| 0 <= j < users@.len() && users@[j].0@ == k;
                                let oj = if j < i {
                                    j
                                } else {
                                    j + 1
                                };
                                assert(users@[j] == old_users[oj]);
                                assert(old_users[oj].0@ != old_users[i as int].0@);
                            }
                            if user_map(old_users).remove(name).contains_key(k) {
                                let j = choose|j: int|
                                    0 <= j < old_users.len() && old_users[j].0@ == k;
                                assert(j != i);
                                let nj = if j < i {
                                    j
                                } else {
                                    j - 1
                                };
                                assert(users@[nj] == old_users[j]);
                            }
                        }
                        assert forall|k: Seq<char>| #[trigger] user_map(users@).contains_key(k)
                            implies user_map(users@)[k] == user_map(old_users).remove(name)[k] by {
                            let j = choose|j: int| 0 <= j < users@.len() && users@[j].0@ == k;
                            let oj = if j < i {
                                j
                            } else {
                                j + 1
                            };
                            assert(users@[j] == old_users[oj]);
                            assert(old_users[oj].0@ != old_users[i as int].0@);
                        }
                    }
                }
                self.users = users;
            },
            None => {
                proof {
                    assert(!user_map(old_users).contains_key(name));
                    assert(user_map(old_users).remove(name) =~= user_map(old_users));
                }
            },
        }
    }

    /// The messages, oldest first.
    pub fn messages(&self) -> (r: &Vec<String>)
        ensures
            r@.map_values(|m: String| m@) == self.messages_view(),
    {
        &self.messages
    }

    /// The users' entries, in the order they came.
    pub closed spec fn users_seq(self) -> Seq<(String, UserStats)> {
        self.users@
    }

    /// The users, each once, in the order they came.
    pub fn users(&self) -> (r: &Vec<(String, UserStats)>)
        ensures
            r@ == self.users_seq(),
            names_unique(r@),
            user_map(r@) == self.users_view(),
    {
        proof {
            use_type_invariant(self);
        }
        &self.users
    }
}

impl Default for ChatroomState {
    fn default() -> (r: Self)
        ensures
            r.messages_view() == Seq::<Seq<char>>::empty(),
            r.users_view() == Map::<Seq<char>, UserStats>::empty(),
    {
        ChatroomState::new()
    }
}

} // verus!
