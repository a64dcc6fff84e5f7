//! The conversation transcript: an append-only sequence of user and
//! assistant messages, plus the serialized context strings handed to the
//! upstream service when conversation-context mode is enabled.

use vstd::prelude::*;
use vstd::string::StringExecFns;

verus! {

/// One transcript entry: who spoke, and what they said.
#[derive(Clone)]
pub enum Correspondence {
    User(String),
    Assistant(String),
}

/// The conversation so far. `messages` is the transcript in conversation
/// order; `chats` holds one serialized exchange per completed interaction,
/// used to build the conversation-context prefix; `bot_responding` mirrors
/// whether a response is still streaming in.
#[derive(Clone)]
pub struct CurrentChat {
    pub chats: Vec<String>,
    pub messages: Vec<Correspondence>,
    pub bot_responding: bool,
}

/// The view of one serialized exchange: the user's message and the
/// assistant's response under fixed role labels.
pub open spec fn spec_exchange(user_message: Seq<char>, bot_response: Seq<char>) -> Seq<char> {
    "User: "@ + user_message + "\nAI Language Model: "@ + bot_response
}

/// The parts joined with a newline between consecutive parts: empty for no
/// parts, and no trailing newline.
pub open spec fn join_lines(parts: Seq<Seq<char>>) -> Seq<char>
    decreases parts.len(),
{
    if parts.len() == 0 {
        Seq::empty()
    } else if parts.len() == 1 {
        parts[0]
    } else {
        join_lines(parts.drop_last()) + "\n"@ + parts.last()
    }
}

impl CurrentChat {
    /// An empty conversation.
    pub fn new() -> (c: CurrentChat)
        ensures
            c.chats@ == Seq::<String>::empty(),
            c.messages@ == Seq::<Correspondence>::empty(),
            !c.bot_responding,
    {
        CurrentChat { chats: Vec::new(), messages: Vec::new(), bot_responding: false }
    }

    /// Appends one serialized exchange; the transcript is untouched.
    pub fn push_chat(&mut self, chat: String)
        ensures
            final(self).chats@ == old(self).chats@.push(chat),
            final(self).messages == old(self).messages,
            final(self).bot_responding == old(self).bot_responding,
    {
        self.chats.push(chat);
    }

    /// Appends one transcript entry; the serialized exchanges are untouched.
    pub fn push_message(&mut self, message: Correspondence)
        ensures
            final(self).messages@ == old(self).messages@.push(message),
            final(self).chats == old(self).chats,
            final(self).bot_responding == old(self).bot_responding,
    {
        self.messages.push(message);
    }

    /// Serializes one exchange under the fixed role labels.
    pub fn generate_new_message(user_message: String, bot_response: String) -> (r: String)
        ensures
            r@ == spec_exchange(user_message@, bot_response@),
    {
        let mut r = String::new();
        r.append("User: ");
        r.append(user_message.as_str());
        r.append("\nAI Language Model: ");
        r.append(bot_response.as_str());
        proof {
            assert(r@ =~= spec_exchange(user_message@, bot_response@));
        }
        r
    }

    /// Serializes one exchange and appends it to the exchange list.
    pub fn generate_and_push(&mut self, user_message: String, bot_response: String)
        ensures
            final(self).chats.deep_view() == old(self).chats.deep_view().push(
                spec_exchange(user_message@, bot_response@),
            ),
            final(self).messages == old(self).messages,
            final(self).bot_responding == old(self).bot_responding,
    {
        let new_message = Self::generate_new_message(user_message, bot_response);
        self.push_chat(new_message);
        proof {
            assert(final(self).chats.deep_view() =~= old(self).chats.deep_view().push(
                spec_exchange(user_message@, bot_response@),
            ));
        }
    }

    /// The serialized exchanges joined with newlines, oldest first.
    pub fn unravel(&self) -> (r: String)
        ensures
            r@ == join_lines(self.chats.deep_view()),
    {
        let ghost parts = self.chats.deep_view();
        let mut r = String::new();
        let mut i: usize = 0;
        while i < self.chats.len()
            invariant
                i <= self.chats.len(),
                parts == self.chats.deep_view(),
                r@ == join_lines(parts.take(i as int)),
            decreases self.chats.len() - i,
        {
            if i > 0 {
                r.append("\n");
            }
            r.append(self.chats[i].as_str());
            proof {
                assert(parts.take(i as int + 1).drop_last() =~= parts.take(i as int));
                assert(r@ =~= join_lines(parts.take(i as int + 1)));
            }
            i += 1;
        }
        proof {
            assert(parts.take(self.chats.len() as int) =~= parts);
        }
        r
    }
}

} // verus!
