//! The conversation's message history, as the presentation layer keeps
//! it: user and bot messages in order, a separator after each finished
//! turn.  While a reply streams in, the newest bot message carries a
//! trailing ellipsis; the terminal event strips it again.

use vstd::prelude::*;
use vstd::pervasive::VecAdditionalExecFns;
use vstd::string::{StrSliceExecFns, StringExecFns};

verus! {

/// Who wrote a message.
#[derive(Debug)]
pub enum Sender {
    User,
    Bot,
}

/// One entry of the history: a message, or the separator that closes a
/// turn.
#[derive(Debug)]
pub enum Message {
    Text { sender: Sender, content: String },
    Separator,
}

/// Whether an entry is a bot message.
pub open spec fn is_bot_text(m: Message) -> bool {
    match m {
        Message::Text { sender: Sender::Bot, .. } => true,
        _ => false,
    }
}

/// The index of the newest bot message, or `-1` if there is none.
pub open spec fn last_bot_index(s: Seq<Message>) -> int
    decreases s.len(),
{
    if s.len() == 0 {
        -1
    } else if is_bot_text(s.last()) {
        s.len() - 1
    } else {
        last_bot_index(s.drop_last())
    }
}

/// Whether the history holds a bot message.
pub open spec fn has_bot_text(s: Seq<Message>) -> bool {
    last_bot_index(s) >= 0
}

/// Whether the text ends with the three-dot streaming marker.
pub open spec fn ends_with_ellipsis(s: Seq<char>) -> bool {
    s.len() >= 3 && s[s.len() - 3] == '.' && s[s.len() - 2] == '.' && s[s.len() - 1] == '.'
}

/// The newest bot message stands at `last_bot_index`, and nothing after
/// it is a bot message.
pub proof fn lemma_last_bot_index(s: Seq<Message>)
    ensures
        -1 <= last_bot_index(s) < s.len(),
        last_bot_index(s) >= 0 ==> is_bot_text(s[last_bot_index(s)]),
        forall|i: int| last_bot_index(s) < i < s.len() ==> !is_bot_text(s[i]),
    decreases s.len(),
{
    if s.len() > 0 && !is_bot_text(s.last()) {
        lemma_last_bot_index(s.drop_last());
        assert forall|i: int| last_bot_index(s) < i < s.len() implies !is_bot_text(s[i]) by {
            if i < s.len() - 1 {
                assert(s.drop_last()[i] == s[i]);
            }
        }
    }
}

/// Find the newest bot message.
fn find_last_bot(msgs: &Vec<Message>) -> (r: Option<usize>)
    ensures
        r matches Some(k) ==> k == last_bot_index(msgs@) && k < msgs@.len(),
        r is None ==> last_bot_index(msgs@) == -1,
{
    let mut k = msgs.len();
    proof {
        assert(msgs@.take(msgs@.len() as int) =~= msgs@);
    }
    while k > 0
        invariant
            k <= msgs@.len(),
            last_bot_index(msgs@) == last_bot_index(msgs@.take(k as int)),
        decreases k,
    {
        proof {
            assert(msgs@.take(k as int).last() == msgs@[k - 1]);
            assert(msgs@.take(k as int).drop_last() =~= msgs@.take(k as int - 1));
        }
        let is_bot = match &msgs[k - 1] {
            Message::Text { sender: Sender::Bot, .. } => true,
            _ => false,
        };
        if is_bot {
            return Some(k - 1);
        }
        k -= 1;
    }
    proof {
        assert(msgs@.take(0) =~= Seq::<Message>::empty());
    }
    None
}

/// Fold a partial answer snapshot into the history: the first snapshot
/// of a turn becomes a fresh bot message; every later snapshot replaces
/// the newest bot message's text with the snapshot plus the streaming
/// marker.  Without a bot message to replace, a later snapshot changes
/// nothing.
pub fn apply_update(msgs: &mut Vec<Message>, text: String, needs_creation: bool)
    ensures
        needs_creation ==> final(msgs)@ == old(msgs)@.push(
            Message::Text { sender: Sender::Bot, content: text },
        ),
        !needs_creation && !has_bot_text(old(msgs)@) ==> final(msgs)@ == old(msgs)@,
        !needs_creation && has_bot_text(old(msgs)@) ==> ({
            let idx = last_bot_index(old(msgs)@);
            &&& final(msgs)@.len() == old(msgs)@.len()
            &&& forall|i: int| 0 <= i < old(msgs)@.len() && i != idx ==> final(msgs)@[i] == old(
                msgs,
            )@[i]
            &&& final(msgs)@[idx] matches Message::Text { sender: Sender::Bot, content } && content@
                == text@ + seq!['.', '.', '.']
        }),
{
    if needs_creation {
        msgs.push(Message::Text { sender: Sender::Bot, content: text });
        return ;
    }
    proof {
        lemma_last_bot_index(msgs@);
    }
    match find_last_bot(msgs) {
        Some(k) => {
            let mut content = text;
            content.append("...");
            proof {
                reveal_strlit("...");
                assert(content@ =~= text@ + seq!['.', '.', '.']);
            }
            msgs.set(k, Message::Text { sender: Sender::Bot, content });
        },
        None => {},
    }
}

/// Close the turn in the history: strip the streaming marker from the
/// newest bot message, if it carries one, and append the separator.
pub fn apply_complete(msgs: &mut Vec<Message>)
    ensures
        !has_bot_text(old(msgs)@) ==> final(msgs)@ == old(msgs)@.push(Message::Separator),
        has_bot_text(old(msgs)@) ==> ({
            let idx = last_bot_index(old(msgs)@);
            &&& final(msgs)@.len() == old(msgs)@.len() + 1
            &&& final(msgs)@.last() == Message::Separator
            &&& forall|i: int| 0 <= i < old(msgs)@.len() && i != idx ==> final(msgs)@[i] == old(
                msgs,
            )@[i]
            &&& old(msgs)@[idx] matches Message::Text { sender: Sender::Bot, content: before }
                && final(msgs)@[idx] matches Message::Text { sender: Sender::Bot, content: after }
                && after@ == (if ends_with_ellipsis(before@) {
                before@.take(before@.len() - 3)
            } else {
                before@
            })
        }),
{
    proof {
        lemma_last_bot_index(msgs@);
    }
    match find_last_bot(msgs) {
        Some(k) => {
            let mut replacement: Option<String> = None;
            match &msgs[k] {
                Message::Text { sender: _, content } => {
                    let n = content.as_str().unicode_len();
                    if n >= 3 {
                        let c1 = content.as_str().get_char(n - 3);
                        let c2 = content.as_str().get_char(n - 2);
                        let c3 = content.as_str().get_char(n - 1);
                        if c1 == '.' && c2 == '.' && c3 == '.' {
                            replacement = Some(
                                content.as_str().substring_char(0, n - 3).to_owned(),
                            );
                        }
                    }
                },
                _ => {},
            }
            if let Some(stripped) = replacement {
                msgs.set(k, Message::Text { sender: Sender::Bot, content: stripped });
            }
        },
        None => {},
    }
    msgs.push(Message::Separator);
}

} // verus!
