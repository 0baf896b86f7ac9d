//! The text of a chat message and of a batch of messages.

use vstd::prelude::*;
use vstd::string::StringExecFns;

verus! {

/// The whole of what is pushed over a live connection when a message has
/// arrived: the receiver is expected to fetch what is unread.
pub const NEW_MESSAGE_SIGNAL: &'static str = "new_message";

/// A message as it is stored in the log: the sender, a colon, a space, the body.
pub open spec fn format_message(sender: Seq<char>, body: Seq<char>) -> Seq<char> {
    sender + seq![':', ' '] + body
}

/// A batch of messages as one text: each message in order, each followed by a
/// line feed.
pub open spec fn render_lines(messages: Seq<Seq<char>>) -> Seq<char>
    decreases messages.len(),
{
    if messages.len() == 0 {
        Seq::empty()
    } else {
        render_lines(messages.drop_last()) + messages.last() + seq!['\n']
    }
}

/// The views of a run of stored messages.
pub open spec fn texts(messages: Seq<String>) -> Seq<Seq<char>> {
    messages.map_values(|m: String| m@)
}

/// Builds the stored form of a message.
pub fn compose(sender: &str, body: &str) -> (text: String)
    ensures
        text@ == format_message(sender@, body@),
{
    let mut text = String::new();
    text.append(sender);
    text.append(": ");
    text.append(body);
    proof {
        reveal_strlit(": ");
    }
    text
}

/// Joins a batch of messages into one text, a line feed after each.
pub fn join_lines(messages: &[String]) -> (text: String)
    ensures
        text@ == render_lines(texts(messages@)),
{
    let ghost lines = texts(messages@);
    let mut text = String::new();
    let mut i: usize = 0;
    while i < messages.len()
        invariant
            i <= messages.len(),
            lines == texts(messages@),
            text@ == render_lines(lines.take(i as int)),
        decreases messages.len() - i,
    {
        text.append(messages[i].as_str());
        text.append("\n");
        proof {
            reveal_strlit("\n");
            assert(lines.take(i + 1).drop_last() =~= lines.take(i as int));
        }
        i += 1;
    }
    proof {
        assert(lines.take(i as int) =~= lines);
    }
    text
}

} // verus!
