//! The per-user session record.

use vstd::prelude::*;

verus! {

/// What a session holds, as a mathematical value.
pub ghost struct SessionState<C> {
    /// How many of the newest messages the user has not fetched yet.
    pub unread: nat,
    /// The handle of the user's live connection, if one is bound.
    pub channel: Option<C>,
}

/// The record kept for one user: the count of unread messages and the handle
/// of the live connection, if any. The handle is owned by the transport; the
/// relay only keeps it to say whom to notify.
pub struct Session<C> {
    /// How many of the newest messages the user has not fetched yet.
    pub unread: usize,
    /// The handle of the user's live connection, if one is bound.
    pub channel: Option<C>,
}

impl<C> View for Session<C> {
    type V = SessionState<C>;

    open spec fn view(&self) -> SessionState<C> {
        SessionState { unread: self.unread as nat, channel: self.channel }
    }
}

impl<C> SessionState<C> {
    /// The record that holds this state, for a count that a record can hold.
    pub open spec fn record(self) -> Session<C>
        recommends
            self.unread <= usize::MAX,
    {
        Session { unread: self.unread as usize, channel: self.channel }
    }
}

impl<C> Session<C> {
    /// A session with `unread` messages pending and no connection bound.
    pub fn new(unread: usize) -> (session: Self)
        ensures
            session@ == (SessionState::<C> { unread: unread as nat, channel: None }),
    {
        Session { unread, channel: None }
    }
}

} // verus!
