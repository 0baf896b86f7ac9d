//! The session registry: one session per user identifier.

use vstd::prelude::*;
use vstd::hash_map::StringHashMap;
use crate::error::AuthError;
use crate::session::{Session, SessionState};

verus! {

/// The handles of the connections bound to the sessions of `users`, in the
/// order of `users`; a user without a bound connection contributes nothing.
pub open spec fn bound_channels<C>(
    users: Seq<Seq<char>>,
    sessions: Map<Seq<char>, SessionState<C>>,
) -> Seq<C>
    decreases users.len(),
{
    if users.len() == 0 {
        Seq::empty()
    } else {
        let before = bound_channels(users.drop_last(), sessions);
        match sessions[users.last()].channel {
            Some(channel) => before.push(channel),
            None => before,
        }
    }
}

/// The values that a run of references points at.
pub open spec fn referents<C>(handles: Seq<&C>) -> Seq<C> {
    handles.map_values(|h: &C| *h)
}

/// One user's place in the registry.
struct Slot<C> {
    user_id: String,
    session: Session<C>,
}

/// The sessions of all users that ever logged in, found by user identifier.
///
/// The sessions stand in the order in which their users first appeared; a
/// hash index finds a user's place. As a mathematical value the registry is
/// the map from identifier to session state, together with that order.
pub struct SessionRegistry<C> {
    slots: Vec<Slot<C>>,
    index: StringHashMap<usize>,
}

impl<C> View for SessionRegistry<C> {
    type V = Map<Seq<char>, SessionState<C>>;

    closed spec fn view(&self) -> Map<Seq<char>, SessionState<C>> {
        Map::new(
            |u: Seq<char>| self.index@.contains_key(u),
            |u: Seq<char>| self.slots@[self.index@[u] as int].session@,
        )
    }
}

impl<C> SessionRegistry<C> {
    /// The user identifiers in the order in which they were first registered.
    pub closed spec fn users(&self) -> Seq<Seq<char>> {
        self.slots@.map_values(|s: Slot<C>| s.user_id@)
    }

    /// The index and the slots describe each other: every indexed identifier
    /// points at the slot that carries it, and every slot is indexed.
    pub closed spec fn wf(&self) -> bool {
        &&& forall|u: Seq<char>| #[trigger]
            self.index@.contains_key(u) ==> self.index@[u] < self.slots@.len()
                && self.slots@[self.index@[u] as int].user_id@ == u
        &&& forall|i: int|
            0 <= i < self.slots@.len() ==> self.index@.contains_key(
                (#[trigger] self.slots@[i]).user_id@,
            ) && self.index@[self.slots@[i].user_id@] == i
    }

    /// In a well-formed registry no user is listed twice, and the listed
    /// users are exactly those that have a session.
    pub proof fn lemma_users_are_the_keys(&self)
        requires
            self.wf(),
        ensures
            self.users().no_duplicates(),
            forall|u: Seq<char>| self@.contains_key(u) <==> self.users().contains(u),
            self@.dom().finite(),
            self@.len() == self.users().len(),
    {
        let users = self.users();
        assert forall|u: Seq<char>| self@.contains_key(u) implies users.contains(u) by {
            assert(users[self.index@[u] as int] == u);
        }
        assert(self@.dom() =~= users.to_set());
        users.unique_seq_to_set();
        vstd::seq_lib::seq_to_set_is_finite(users);
    }

    /// Every count of unread messages is one that a session record can hold.
    pub proof fn lemma_counts_fit(&self)
        ensures
            forall|u: Seq<char>| #[trigger]
                self@.contains_key(u) ==> self@[u].unread <= usize::MAX
                    && self@[u].record()@ == self@[u],
    {
    }

    /// A registry without sessions.
    pub fn new() -> (registry: Self)
        ensures
            registry.wf(),
            registry@ == Map::<Seq<char>, SessionState<C>>::empty(),
            registry.users() == Seq::<Seq<char>>::empty(),
    {
        let registry = SessionRegistry { slots: Vec::new(), index: StringHashMap::new() };
        registry
    }

    /// The number of sessions.
    pub fn len(&self) -> (n: usize)
        ensures
            n == self.users().len(),
    {
        self.slots.len()
    }

    /// The session of `user_id`, if the user has one.
    pub fn get(&self, user_id: &str) -> (found: Option<&Session<C>>)
        requires
            self.wf(),
        ensures
            found is Some <==> self@.contains_key(user_id@),
            found matches Some(session) ==> session@ == self@[user_id@],
    {
        match self.index.get(user_id) {
            Some(place) => Some(&self.slots[*place].session),
            None => None,
        }
    }

    /// Registers `user_id` with `baseline` unread messages. A user that is
    /// already registered keeps the bound connection and has the count of
    /// unread messages replaced; a new user starts without a connection.
    pub fn create_or_reset(&mut self, user_id: &str, baseline: usize)
        requires
            old(self).wf(),
        ensures
            final(self).wf(),
            final(self)@ == old(self)@.insert(
                user_id@,
                SessionState {
                    unread: baseline as nat,
                    channel: if old(self)@.contains_key(user_id@) {
                        old(self)@[user_id@].channel
                    } else {
                        None
                    },
                },
            ),
            final(self).users() == if old(self)@.contains_key(user_id@) {
                old(self).users()
            } else {
                old(self).users().push(user_id@)
            },
    {
        let known: Option<usize> = match self.index.get(user_id) {
            Some(place) => Some(*place),
            None => None,
        };
        match known {
            Some(place) => {
                self.slots[place].session.unread = baseline;
            },
            None => {
                let place: usize = self.slots.len();
                self.slots.push(Slot { user_id: user_id.to_owned(), session: Session::new(baseline) });
                self.index.insert(user_id.to_owned(), place);
            },
        }
        assert(self@ =~= old(self)@.insert(
            user_id@,
            SessionState {
                unread: baseline as nat,
                channel: if old(self)@.contains_key(user_id@) {
                    old(self)@[user_id@].channel
                } else {
                    None
                },
            },
        ));
    }

    /// Binds `channel` to the session of `user_id`, in place of whatever
    /// connection was bound before. The earlier handle is dropped here and
    /// nothing else is done to it.
    pub fn set_channel(&mut self, user_id: &str, channel: C) -> (res: Result<(), AuthError>)
        requires
            old(self).wf(),
        ensures
            final(self).wf(),
            final(self).users() == old(self).users(),
            res is Ok <==> old(self)@.contains_key(user_id@),
            res is Ok ==> final(self)@ == old(self)@.insert(
                user_id@,
                SessionState { unread: old(self)@[user_id@].unread, channel: Some(channel) },
            ),
            res matches Err(e) ==> e == AuthError::UnknownUser && final(self)@ == old(self)@,
    {
        let known: Option<usize> = match self.index.get(user_id) {
            Some(place) => Some(*place),
            None => None,
        };
        match known {
            Some(place) => {
                self.slots[place].session.channel = Some(channel);
                assert(self@ =~= old(self)@.insert(
                    user_id@,
                    SessionState { unread: old(self)@[user_id@].unread, channel: Some(channel) },
                ));
                Ok(())
            },
            None => Err(AuthError::UnknownUser),
        }
    }

    /// Sets the count of unread messages of `user_id` to zero and returns the
    /// count it had.
    pub fn reset_unread(&mut self, user_id: &str) -> (res: Result<usize, AuthError>)
        requires
            old(self).wf(),
        ensures
            final(self).wf(),
            final(self).users() == old(self).users(),
            res is Ok <==> old(self)@.contains_key(user_id@),
            res matches Ok(count) ==> count == old(self)@[user_id@].unread,
            res is Ok ==> final(self)@ == old(self)@.insert(
                user_id@,
                SessionState { unread: 0, channel: old(self)@[user_id@].channel },
            ),
            res matches Err(e) ==> e == AuthError::UnknownUser && final(self)@ == old(self)@,
    {
        let known: Option<usize> = match self.index.get(user_id) {
            Some(place) => Some(*place),
            None => None,
        };
        match known {
            Some(place) => {
                let count: usize = self.slots[place].session.unread;
                self.slots[place].session.unread = 0;
                assert(self@ =~= old(self)@.insert(
                    user_id@,
                    SessionState { unread: 0, channel: old(self)@[user_id@].channel },
                ));
                Ok(count)
            },
            None => Err(AuthError::UnknownUser),
        }
    }

    /// The handles of all bound connections, in the order of `users()`.
    pub fn channels(&self) -> (handles: Vec<&C>)
        requires
            self.wf(),
        ensures
            referents(handles@) == bound_channels(self.users(), self@),
    {
        let ghost users = self.users();
        let mut handles: Vec<&C> = Vec::new();
        let mut i: usize = 0;
        while i < self.slots.len()
            invariant
                self.wf(),
                users == self.users(),
                i <= self.slots.len(),
                referents(handles@) == bound_channels(users.take(i as int), self@),
            decreases self.slots.len() - i,
        {
            assert(users.take(i + 1).drop_last() =~= users.take(i as int));
            match &self.slots[i].session.channel {
                Some(channel) => {
                    handles.push(channel);
                },
                None => {},
            }
            i += 1;
        }
        assert(users.take(i as int) =~= users);
        handles
    }

    /// Replaces every session by what `f` makes of it. The order in which the
    /// sessions are visited is not part of the contract.
    pub fn for_each_mut<F: Fn(Session<C>) -> Session<C>>(&mut self, f: F)
        requires
            old(self).wf(),
            forall|u: Seq<char>| #[trigger]
                old(self)@.contains_key(u) ==> call_requires(f, (old(self)@[u].record(),)),
        ensures
            final(self).wf(),
            final(self).users() == old(self).users(),
            final(self)@.dom() == old(self)@.dom(),
            forall|u: Seq<char>| #[trigger]
                old(self)@.contains_key(u) ==> call_ensures(
                    f,
                    (old(self)@[u].record(),),
                    final(self)@[u].record(),
                ),
    {
        let mut i: usize = 0;
        while i < self.slots.len()
            invariant
                old(self).wf(),
                self.wf(),
                self.index@ == old(self).index@,
                self.slots@.len() == old(self).slots@.len(),
                i <= self.slots.len(),
                forall|u: Seq<char>| #[trigger]
                    old(self)@.contains_key(u) ==> call_requires(f, (old(self)@[u].record(),)),
                forall|j: int|
                    0 <= j < self.slots@.len() ==> (#[trigger] self.slots@[j]).user_id@
                        == old(self).slots@[j].user_id@,
                forall|j: int|
                    i <= j < self.slots@.len() ==> (#[trigger] self.slots@[j]).session
                        == old(self).slots@[j].session,
                forall|j: int|
                    0 <= j < i ==> call_ensures(
                        f,
                        (old(self).slots@[j].session,),
                        (#[trigger] self.slots@[j]).session,
                    ),
            decreases self.slots.len() - i,
        {
            assert(old(self)@.contains_key(old(self).slots@[i as int].user_id@));
            let mut taken: Session<C> = Session::new(0);
            core::mem::swap(&mut self.slots[i].session, &mut taken);
            let made = f(taken);
            self.slots[i].session = made;
            i += 1;
        }
    }
}

} // verus!
