//! The coordinator: the one place through which the log and the sessions
//! change.

use vstd::prelude::*;
use crate::error::AuthError;
use crate::log::MessageLog;
use crate::message::{compose, join_lines};
use crate::registry::{referents, SessionRegistry};
use crate::session::Session;
use crate::state::ChatState;

verus! {

/// Owns the message log and the session registry. Every operation takes the
/// coordinator by exclusive reference, so each one sees the whole effect of
/// those before it and none of those after it. Callers that share a
/// coordinator between threads keep it behind one lock.
///
/// The coordinator sends nothing itself: a submission returns references to
/// the handles of the connections to notify. A caller that holds a lock around
/// the coordinator copies the handles, releases the lock and notifies then.
pub struct ChatCoordinator<C> {
    log: MessageLog,
    registry: SessionRegistry<C>,
}

impl<C> View for ChatCoordinator<C> {
    type V = ChatState<C>;

    closed spec fn view(&self) -> ChatState<C> {
        ChatState { log: self.log@, users: self.registry.users(), sessions: self.registry@ }
    }
}

impl<C> ChatCoordinator<C> {
    /// The registry finds every session it holds.
    pub closed spec fn indexed(&self) -> bool {
        self.registry.wf()
    }

    /// The coordinator's invariant: the registry is in order and the state is
    /// consistent, so no session counts more unread messages than the log
    /// holds.
    pub open spec fn wf(&self) -> bool {
        &&& self.indexed()
        &&& self@.consistent()
    }

    /// A coordinator with an empty log and no sessions.
    pub fn new() -> (coordinator: Self)
        ensures
            coordinator.wf(),
            coordinator@ == ChatState::<C>::empty(),
    {
        let coordinator = ChatCoordinator { log: MessageLog::new(), registry: SessionRegistry::new() };
        proof {
            coordinator.registry.lemma_users_are_the_keys();
        }
        coordinator
    }

    /// The number of messages in the log.
    pub fn message_count(&self) -> (n: usize)
        ensures
            n == self@.log.len(),
    {
        self.log.len()
    }

    /// The session of `user_id`, if the user ever logged in.
    pub fn session(&self, user_id: &str) -> (found: Option<&Session<C>>)
        requires
            self.wf(),
        ensures
            found is Some <==> self@.knows(user_id@),
            found matches Some(session) ==> session@ == self@.sessions[user_id@],
    {
        self.registry.get(user_id)
    }

    /// The handles of the connections that a submission made now would have
    /// notified.
    pub fn notification_targets(&self) -> (targets: Vec<&C>)
        requires
            self.wf(),
        ensures
            referents(targets@) == self@.targets(),
    {
        self.registry.channels()
    }

    /// Records a login of `user_id`: the user's count of unread messages
    /// becomes the length of the log. A first login creates the session.
    pub fn login(&mut self, user_id: &str)
        requires
            old(self).wf(),
        ensures
            final(self).wf(),
            final(self)@ == old(self)@.login(user_id@),
    {
        let baseline: usize = self.log.len();
        self.registry.create_or_reset(user_id, baseline);
        proof {
            old(self)@.law_unread_within_log(user_id@, Seq::empty(), arbitrary());
        }
    }

    /// Appends the message of `user_id` to the log, counts it as unread for
    /// every session and returns the handles of the connections to notify.
    /// A user without a session is refused and nothing changes.
    pub fn submit_message(&mut self, user_id: &str, body: &str) -> (res: Result<
        Vec<&C>,
        AuthError,
    >)
        requires
            old(self).wf(),
        ensures
            final(self).wf(),
            final(self)@ == old(self)@.submit(user_id@, body@),
            res is Ok <==> old(self)@.knows(user_id@),
            res matches Ok(targets) ==> referents(targets@) == final(self)@.targets(),
            res matches Err(e) ==> e == AuthError::UnknownUser,
    {
        if self.registry.get(user_id).is_none() {
            return Err(AuthError::UnknownUser);
        }
        self.log.append(compose(user_id, body));
        let bump = |s: Session<C>| -> (r: Session<C>)
            requires
                s.unread < usize::MAX,
            ensures
                r.unread == s.unread + 1,
                r.channel == s.channel,
            { Session { unread: s.unread + 1, channel: s.channel } };
        self.registry.for_each_mut(bump);
        proof {
            old(self)@.law_unread_within_log(user_id@, body@, arbitrary());
            self.registry.lemma_counts_fit();
        }
        Ok(self.registry.channels())
    }

    /// Returns the messages that `user_id` has not fetched yet, oldest first,
    /// a line feed after each, and sets the user's count of unread messages to
    /// zero. With nothing unread the text is empty. A user without a session
    /// is refused and nothing changes.
    pub fn fetch_unread(&mut self, user_id: &str) -> (res: Result<String, AuthError>)
        requires
            old(self).wf(),
        ensures
            final(self).wf(),
            final(self)@ == old(self)@.fetch(user_id@),
            res is Ok <==> old(self)@.knows(user_id@),
            res matches Ok(text) ==> text@ == old(self)@.unread_text(user_id@),
            res matches Err(e) ==> e == AuthError::UnknownUser,
    {
        let unread: usize = match self.registry.reset_unread(user_id) {
            Ok(count) => count,
            Err(e) => {
                return Err(e);
            },
        };
        proof {
            old(self)@.law_unread_within_log(user_id@, Seq::empty(), arbitrary());
        }
        let start: usize = self.log.len() - unread;
        match self.log.slice_from(start) {
            Ok(run) => Ok(join_lines(run)),
            Err(_) => unreached(),
        }
    }

    /// Binds `channel` to the session of `user_id`, in place of any connection
    /// bound before; counts of unread messages stay as they are. A user
    /// without a session is refused and nothing changes.
    pub fn bind_connection(&mut self, user_id: &str, channel: C) -> (res: Result<(), AuthError>)
        requires
            old(self).wf(),
        ensures
            final(self).wf(),
            final(self)@ == old(self)@.bind(user_id@, channel),
            res is Ok <==> old(self)@.knows(user_id@),
            res matches Err(e) ==> e == AuthError::UnknownUser,
    {
        let res = self.registry.set_channel(user_id, channel);
        proof {
            old(self)@.law_unread_within_log(user_id@, Seq::empty(), channel);
        }
        res
    }
}

} // verus!
