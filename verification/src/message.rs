//! Messages shown to the user in popups, and the pipe that collects them.
use vstd::prelude::*;
use vstd::string::{StrSliceExecFns, StringExecFns};

verus! {

/// Maximum number of characters of a message's text; longer texts are clipped.
pub const MAX_MESSAGE_LENGTH: usize = 150;

/// A message text clipped to [`MAX_MESSAGE_LENGTH`] characters, marked with "..."
/// when it was clipped.
pub open spec fn clipped(text: Seq<char>) -> Seq<char> {
    if text.len() <= MAX_MESSAGE_LENGTH {
        text
    } else {
        text.subrange(0, MAX_MESSAGE_LENGTH as int) + "..."@
    }
}

/// A titled message.
#[derive(Clone)]
pub struct Message {
    title: String,
    message: String,
}

impl View for Message {
    /// The title and the text.
    type V = (Seq<char>, Seq<char>);

    closed spec fn view(&self) -> (Seq<char>, Seq<char>) {
        (self.title@, self.message@)
    }
}

impl Message {
    /// A message with the given title and text; the text is clipped.
    pub fn new(title: &str, message: &str) -> (r: Self)
        ensures
            r@ == (title@, clipped(message@)),
    {
        Message { title: String::from_str(title), message: Self::cut_length(String::from_str(message)) }
    }

    /// A message titled "Error" whose text is the (clipped) description of an error.
    pub fn from_error(error_text: &str) -> (r: Self)
        ensures
            r@ == ("Error"@, clipped(error_text@)),
    {
        Message { title: String::from_str("Error"), message: Self::cut_length(String::from_str(error_text)) }
    }

    /// Clips `message` to [`MAX_MESSAGE_LENGTH`] characters, appending "..." when
    /// something was cut.
    pub fn cut_length(message: String) -> (r: String)
        ensures
            r@ == clipped(message@),
    {
        if message.as_str().unicode_len() <= MAX_MESSAGE_LENGTH {
            message
        } else {
            let mut r = String::from_str(message.as_str().substring_char(0, MAX_MESSAGE_LENGTH));
            r.append("...");
            r
        }
    }

    /// The title.
    pub fn title(&self) -> (r: &str)
        ensures
            r@ == self@.0,
    {
        self.title.as_str()
    }

    /// The text.
    pub fn message(&self) -> (r: &str)
        ensures
            r@ == self@.1,
    {
        self.message.as_str()
    }

    /// The message as "title: text".
    pub fn to_text(&self) -> (r: String)
        ensures
            r@ == self@.0 + ": "@ + self@.1,
    {
        let mut r = String::from_str(self.title.as_str());
        r.append(": ");
        r.append(self.message.as_str());
        r
    }

    /// A copy of the message.
    pub fn duplicate(&self) -> (r: Self)
        ensures
            r@ == self@,
    {
        Message { title: String::from_str(self.title.as_str()), message: String::from_str(self.message.as_str()) }
    }
}

/// The messages waiting to be shown; the most recent one is shown first.
pub struct MessagePopupPipe {
    message_pipe: Vec<Message>,
}

impl View for MessagePopupPipe {
    /// The waiting messages, oldest first.
    type V = Seq<(Seq<char>, Seq<char>)>;

    closed spec fn view(&self) -> Seq<(Seq<char>, Seq<char>)> {
        self.message_pipe@.map_values(|m: Message| m@)
    }
}

impl MessagePopupPipe {
    /// An empty pipe.
    pub fn new() -> (r: Self)
        ensures
            r@ == Seq::<(Seq<char>, Seq<char>)>::empty(),
    {
        let r = MessagePopupPipe { message_pipe: Vec::new() };
        assert(r@ =~= Seq::<(Seq<char>, Seq<char>)>::empty());
        r
    }

    /// Adds `message` as the most recent message.
    pub fn push_message(&mut self, message: Message)
        ensures
            final(self)@ == old(self)@.push(message@),
    {
        self.message_pipe.push(message);
        assert(self@ =~= old(self)@.push(message@));
    }

    /// The most recent message, if any.
    pub fn last(&self) -> (r: Option<Message>)
        ensures
            self@.len() == 0 ==> r is None,
            self@.len() > 0 ==> r is Some && r->0@ == self@.last(),
    {
        let n = self.message_pipe.len();
        if n == 0 {
            None
        } else {
            Some(self.message_pipe[n - 1].duplicate())
        }
    }

    /// Removes the most recent message (its popup was acknowledged).
    pub fn pop_last(&mut self)
        ensures
            old(self)@.len() == 0 ==> final(self)@ == old(self)@,
            old(self)@.len() > 0 ==> final(self)@ == old(self)@.drop_last(),
    {
        self.message_pipe.pop();
        assert(old(self)@.len() > 0 ==> self@ =~= old(self)@.drop_last());
        assert(old(self)@.len() == 0 ==> self@ =~= old(self)@);
    }

    /// Number of waiting messages.
    pub fn len(&self) -> (r: usize)
        ensures
            r == self@.len(),
    {
        self.message_pipe.len()
    }

    /// Handles the result of an operation: a failure, given by its error text, becomes
    /// an error message in the pipe; a success changes nothing.
    pub fn default_handle<T>(&mut self, result: Result<T, String>)
        ensures
            match result {
                Ok(_) => final(self)@ == old(self)@,
                Err(e) => final(self)@ == old(self)@.push(("Error"@, clipped(e@))),
            },
    {
        match result {
            Ok(_) => {},
            Err(e) => self.push_message(Message::from_error(e.as_str())),
        }
    }
}

/// A text within the limit is left as it is; a longer one keeps its first
/// [`MAX_MESSAGE_LENGTH`] characters followed by three more (the "..." mark).
pub proof fn lemma_clipped_length(text: Seq<char>)
    ensures
        clipped(text).len() <= MAX_MESSAGE_LENGTH + 3,
        text.len() <= MAX_MESSAGE_LENGTH ==> clipped(text) == text,
        text.len() > MAX_MESSAGE_LENGTH ==> clipped(text).len() == MAX_MESSAGE_LENGTH + 3
            && clipped(text).subrange(0, MAX_MESSAGE_LENGTH as int) == text.subrange(
            0,
            MAX_MESSAGE_LENGTH as int,
        ),
{
    reveal_strlit("...");
    if text.len() > MAX_MESSAGE_LENGTH {
        assert(clipped(text).subrange(0, MAX_MESSAGE_LENGTH as int) =~= text.subrange(
            0,
            MAX_MESSAGE_LENGTH as int,
        ));
    }
}

/// Acknowledging the popup of a message just pushed removes exactly that message.
pub proof fn lemma_push_then_acknowledge(s: Seq<(Seq<char>, Seq<char>)>, m: (Seq<char>, Seq<char>))
    ensures
        s.push(m).len() > 0,
        s.push(m).last() == m,
        s.push(m).drop_last() == s,
{
    assert(s.push(m).drop_last() =~= s);
}

} // verus!
