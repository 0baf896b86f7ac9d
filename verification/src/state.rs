//! The relay as a mathematical state, and what each operation makes of it.

use vstd::prelude::*;
use crate::message::{format_message, render_lines};
use crate::registry::bound_channels;
use crate::session::SessionState;

verus! {

/// A submitted message before it is stored: the sender and the body.
pub type Post = (Seq<char>, Seq<char>);

/// The stored forms of `posts`, in order.
pub open spec fn stored(posts: Seq<Post>) -> Seq<Seq<char>> {
    posts.map_values(|p: Post| format_message(p.0, p.1))
}

/// The whole state of the relay: the log, the users in the order of their
/// first login, and the session of each user.
#[verifier::ext_equal]
pub ghost struct ChatState<C> {
    pub log: Seq<Seq<char>>,
    pub users: Seq<Seq<char>>,
    pub sessions: Map<Seq<char>, SessionState<C>>,
}

impl<C> ChatState<C> {
    /// The state at start: no message, no user.
    pub open spec fn empty() -> Self {
        ChatState { log: Seq::empty(), users: Seq::empty(), sessions: Map::empty() }
    }

    /// Whether `user` has a session.
    pub open spec fn knows(self, user: Seq<char>) -> bool {
        self.sessions.contains_key(user)
    }

    /// Every user is listed once, the listed users are those with a session,
    /// and no session counts more unread messages than the log holds.
    pub open spec fn consistent(self) -> bool {
        &&& self.users.no_duplicates()
        &&& forall|u: Seq<char>| self.sessions.contains_key(u) <==> self.users.contains(u)
        &&& forall|u: Seq<char>| #[trigger]
            self.sessions.contains_key(u) ==> self.sessions[u].unread <= self.log.len()
    }

    /// The state after `user` logged in: the whole log so far counts as unread
    /// for that user, whatever was counted before. A known user keeps the
    /// bound connection, a new one has none.
    pub open spec fn login(self, user: Seq<char>) -> Self {
        ChatState {
            log: self.log,
            users: if self.knows(user) {
                self.users
            } else {
                self.users.push(user)
            },
            sessions: self.sessions.insert(
                user,
                SessionState {
                    unread: self.log.len(),
                    channel: if self.knows(user) {
                        self.sessions[user].channel
                    } else {
                        None
                    },
                },
            ),
        }
    }

    /// The state after `user` submitted `body`: the message is the new last
    /// entry of the log and every session, the sender's too, counts one more
    /// unread message. A submission by an unknown user changes nothing.
    pub open spec fn submit(self, user: Seq<char>, body: Seq<char>) -> Self {
        if self.knows(user) {
            ChatState {
                log: self.log.push(format_message(user, body)),
                users: self.users,
                sessions: self.sessions.map_values(
                    |s: SessionState<C>| SessionState { unread: s.unread + 1, channel: s.channel },
                ),
            }
        } else {
            self
        }
    }

    /// The state after all of `posts` were submitted in order.
    pub open spec fn submit_all(self, posts: Seq<Post>) -> Self
        decreases posts.len(),
    {
        if posts.len() == 0 {
            self
        } else {
            self.submit_all(posts.drop_last()).submit(posts.last().0, posts.last().1)
        }
    }

    /// The messages that `user` has not fetched yet, oldest first.
    pub open spec fn pending(self, user: Seq<char>) -> Seq<Seq<char>> {
        self.log.skip(self.log.len() - self.sessions[user].unread)
    }

    /// What a fetch by `user` returns: the pending messages, a line feed
    /// after each.
    pub open spec fn unread_text(self, user: Seq<char>) -> Seq<char> {
        render_lines(self.pending(user))
    }

    /// The state after `user` fetched: nothing is pending for that user. A
    /// fetch by an unknown user changes nothing.
    pub open spec fn fetch(self, user: Seq<char>) -> Self {
        if self.knows(user) {
            ChatState {
                log: self.log,
                users: self.users,
                sessions: self.sessions.insert(
                    user,
                    SessionState { unread: 0, channel: self.sessions[user].channel },
                ),
            }
        } else {
            self
        }
    }

    /// The state after `channel` was bound to the session of `user`, in place
    /// of any connection bound before. Binding for an unknown user changes
    /// nothing.
    pub open spec fn bind(self, user: Seq<char>, channel: C) -> Self {
        if self.knows(user) {
            ChatState {
                log: self.log,
                users: self.users,
                sessions: self.sessions.insert(
                    user,
                    SessionState { unread: self.sessions[user].unread, channel: Some(channel) },
                ),
            }
        } else {
            self
        }
    }

    /// The connections to notify of a new message: every bound connection,
    /// in the order of the users' first login.
    pub open spec fn targets(self) -> Seq<C> {
        bound_channels(self.users, self.sessions)
    }

    /// No operation lets a session count more unread messages than the log
    /// holds: the empty state is consistent, and login, submission, fetch and
    /// binding keep a consistent state consistent.
    pub proof fn law_unread_within_log(self, user: Seq<char>, body: Seq<char>, channel: C)
        requires
            self.consistent(),
        ensures
            Self::empty().consistent(),
            self.login(user).consistent(),
            self.submit(user, body).consistent(),
            self.fetch(user).consistent(),
            self.bind(user, channel).consistent(),
    {
        let after = self.login(user);
        if !self.knows(user) {
            assert forall|i: int, j: int|
                0 <= i < after.users.len() && 0 <= j < after.users.len() && i != j implies after.users[i]
                != after.users[j] by {
                if i < self.users.len() {
                    assert(self.users.contains(self.users[i]));
                }
                if j < self.users.len() {
                    assert(self.users.contains(self.users[j]));
                }
            }
            assert forall|u: Seq<char>| after.sessions.contains_key(u) <==> after.users.contains(
                u,
            ) by {
                if after.sessions.contains_key(u) {
                    if u == user {
                        assert(after.users[self.users.len() as int] == u);
                    } else {
                        assert(self.users.contains(u));
                        let i = choose|i: int| 0 <= i < self.users.len() && self.users[i] == u;
                        assert(after.users[i] == u);
                    }
                }
                if after.users.contains(u) {
                    let i = choose|i: int| 0 <= i < after.users.len() && after.users[i] == u;
                    if i < self.users.len() {
                        assert(self.users.contains(self.users[i]));
                    }
                }
            }
        }
    }

    /// Submissions only add to what is pending: after `posts` were submitted
    /// by known users, a known reader has pending what was pending before,
    /// followed by the stored forms of `posts` in the order of submission.
    pub proof fn law_submissions_accumulate(self, reader: Seq<char>, posts: Seq<Post>)
        requires
            self.consistent(),
            self.knows(reader),
            forall|i: int| 0 <= i < posts.len() ==> self.knows(#[trigger] posts[i].0),
        ensures
            self.submit_all(posts).consistent(),
            self.submit_all(posts).users == self.users,
            self.submit_all(posts).sessions.dom() == self.sessions.dom(),
            self.submit_all(posts).log == self.log + stored(posts),
            self.submit_all(posts).sessions[reader].unread == self.sessions[reader].unread
                + posts.len(),
            self.submit_all(posts).sessions[reader].channel == self.sessions[reader].channel,
            self.submit_all(posts).pending(reader) == self.pending(reader) + stored(posts),
        decreases posts.len(),
    {
        if posts.len() > 0 {
            let earlier = posts.drop_last();
            let last = posts.last();
            self.law_submissions_accumulate(reader, earlier);
            self.submit_all(earlier).law_unread_within_log(last.0, last.1, arbitrary());
        }
    }

    /// A fetch after a run of submissions returns exactly the submitted
    /// messages: when a known reader has fetched and `posts` are then
    /// submitted by known users, with no fetch by the reader in between, the
    /// reader's next fetch returns the stored forms of `posts`, in the order
    /// of submission and nothing else.
    pub proof fn law_fetch_returns_submitted(self, reader: Seq<char>, posts: Seq<Post>)
        requires
            self.consistent(),
            self.knows(reader),
            forall|i: int| 0 <= i < posts.len() ==> self.knows(#[trigger] posts[i].0),
        ensures
            self.fetch(reader).submit_all(posts).pending(reader) == stored(posts),
            self.fetch(reader).submit_all(posts).unread_text(reader) == render_lines(
                stored(posts),
            ),
    {
        self.law_unread_within_log(reader, Seq::empty(), arbitrary());
        self.fetch(reader).law_submissions_accumulate(reader, posts);
    }

    /// Fetching is idempotent: the first fetch of a known user returns the
    /// whole backlog, and a second fetch right after it returns the empty
    /// text and changes nothing.
    pub proof fn law_second_fetch_is_empty(self, user: Seq<char>)
        requires
            self.consistent(),
            self.knows(user),
        ensures
            self.unread_text(user) == render_lines(self.pending(user)),
            self.pending(user).len() == self.sessions[user].unread,
            self.fetch(user).unread_text(user) == Seq::<char>::empty(),
            self.fetch(user).fetch(user) == self.fetch(user),
    {
    }

    /// Binding a connection changes where notifications go and nothing else:
    /// the count of unread messages of every user and the log stay as they
    /// were, and of two bindings for one user only the second remains.
    pub proof fn law_binding_keeps_unread(self, user: Seq<char>, first: C, second: C)
        requires
            self.knows(user),
        ensures
            self.bind(user, first).log == self.log,
            self.bind(user, first).users == self.users,
            self.bind(user, first).sessions.dom() == self.sessions.dom(),
            forall|u: Seq<char>| #[trigger]
                self.knows(u) ==> self.bind(user, first).sessions[u].unread
                    == self.sessions[u].unread,
            forall|u: Seq<char>|
                self.knows(u) && u != user ==> #[trigger] self.bind(user, first).sessions[u]
                    == self.sessions[u],
            self.bind(user, first).sessions[user].channel == Some(first),
            self.bind(user, first).bind(user, second) == self.bind(user, second),
    {
        assert(self.bind(user, first).bind(user, second).sessions =~= self.bind(
            user,
            second,
        ).sessions);
    }

    /// A login discards the count of unread messages and sets it to the
    /// length of the log at that moment: after a login, any submissions by
    /// known users and a second login, the user's count is the length of the
    /// log at the second login, and the bound connection is the one from
    /// before.
    pub proof fn law_login_resets_unread(self, user: Seq<char>, posts: Seq<Post>)
        requires
            self.consistent(),
            forall|i: int|
                0 <= i < posts.len() ==> self.login(user).knows(#[trigger] posts[i].0),
        ensures
            self.login(user).sessions[user].unread == self.log.len(),
            self.login(user).submit_all(posts).log.len() == self.log.len() + posts.len(),
            self.login(user).submit_all(posts).login(user).sessions[user].unread
                == self.log.len() + posts.len(),
            self.login(user).submit_all(posts).login(user).sessions[user].channel
                == self.login(user).sessions[user].channel,
            self.login(user).submit_all(posts).login(user).users == self.login(user).users,
    {
        let first = self.login(user);
        self.law_unread_within_log(user, Seq::empty(), arbitrary());
        first.law_submissions_accumulate(user, posts);
    }
}

} // verus!
