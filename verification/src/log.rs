//! The message log: an append-only sequence of messages in delivery order.

use vstd::prelude::*;
use vstd::slice::slice_subrange;
use crate::error::LogError;
use crate::message::texts;

verus! {

/// An append-only log of messages. A message is identified by its position,
/// and a position once handed out stays valid: nothing is ever changed or
/// removed.
pub struct MessageLog {
    messages: Vec<String>,
}

impl View for MessageLog {
    type V = Seq<Seq<char>>;

    closed spec fn view(&self) -> Seq<Seq<char>> {
        texts(self.messages@)
    }
}

impl MessageLog {
    /// An empty log.
    pub fn new() -> (log: Self)
        ensures
            log@ == Seq::<Seq<char>>::empty(),
    {
        let log = MessageLog { messages: Vec::new() };
        log
    }

    /// The number of messages appended so far.
    pub fn len(&self) -> (n: usize)
        ensures
            n == self@.len(),
    {
        self.messages.len()
    }

    /// Adds `text` as the new last message and returns its position.
    pub fn append(&mut self, text: String) -> (index: usize)
        ensures
            final(self)@ == old(self)@.push(text@),
            final(self)@.len() <= usize::MAX,
            index == old(self)@.len(),
    {
        self.messages.push(text);
        self.messages.len() - 1
    }

    /// The messages at position `index` and after, in order. A position
    /// beyond the end of the log is refused; the end itself gives an empty run.
    pub fn slice_from(&self, index: usize) -> (res: Result<&[String], LogError>)
        ensures
            res is Ok <==> index <= self@.len(),
            res matches Ok(run) ==> texts(run@) == self@.skip(index as int),
            res matches Err(e) ==> e == LogError::IndexOutOfRange,
    {
        let n: usize = self.messages.len();
        if index > n {
            return Err(LogError::IndexOutOfRange);
        }
        let run = slice_subrange(self.messages.as_slice(), index, n);
        Ok(run)
    }
}

} // verus!
