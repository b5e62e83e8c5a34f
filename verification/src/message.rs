//! Messages of a conversation and the views of message logs.

use vstd::prelude::*;

verus! {

/// Who a message is attributed to.
#[derive(Clone, Copy, Debug, PartialEq, Eq, Structural)]
pub enum Role {
    System,
    User,
    Assistant,
}

impl Role {
    /// The lower-case name under which providers know the role.
    pub fn as_str(&self) -> (name: &'static str)
        ensures
            name@ == match *self {
                Role::System => "system"@,
                Role::User => "user"@,
                Role::Assistant => "assistant"@,
            },
    {
        match self {
            Role::System => "system",
            Role::User => "user",
            Role::Assistant => "assistant",
        }
    }
}

/// One entry of the conversation history.
#[derive(Debug)]
pub struct Message {
    pub role: Role,
    pub content: String,
}

/// A message as a mathematical value.
pub struct MessageView {
    pub role: Role,
    pub content: Seq<char>,
}

impl View for Message {
    type V = MessageView;

    open spec fn view(&self) -> MessageView {
        MessageView { role: self.role, content: self.content@ }
    }
}

impl Clone for Message {
    fn clone(&self) -> (out: Message)
        ensures
            out@ == self@,
    {
        Message { role: self.role, content: self.content.clone() }
    }
}

impl Message {
    /// A message of the system role.
    pub fn system(content: String) -> (m: Message)
        ensures
            m@ == (MessageView { role: Role::System, content: content@ }),
    {
        Message { role: Role::System, content }
    }

    /// A message of the user role.
    pub fn user(content: &str) -> (m: Message)
        ensures
            m@ == (MessageView { role: Role::User, content: content@ }),
    {
        Message { role: Role::User, content: String::from_str(content) }
    }

    /// A message of the assistant role.
    pub fn assistant(content: String) -> (m: Message)
        ensures
            m@ == (MessageView { role: Role::Assistant, content: content@ }),
    {
        Message { role: Role::Assistant, content }
    }
}

/// The views of the messages of a log, in order.
pub open spec fn history_view(log: Seq<Message>) -> Seq<MessageView> {
    Seq::new(log.len(), |i: int| log[i]@)
}

/// The views of a list of texts, in order.
pub open spec fn texts_view(texts: Seq<String>) -> Seq<Seq<char>> {
    Seq::new(texts.len(), |i: int| texts[i]@)
}

/// Appending a message to a log appends its view to the log's view.
pub proof fn lemma_history_push(log: Seq<Message>, m: Message)
    ensures
        history_view(log.push(m)) == history_view(log).push(m@),
{
    assert(history_view(log.push(m)) =~= history_view(log).push(m@));
}

/// Appending a text to a list appends its view to the list's view.
pub proof fn lemma_texts_push(texts: Seq<String>, t: String)
    ensures
        texts_view(texts.push(t)) == texts_view(texts).push(t@),
{
    assert(texts_view(texts.push(t)) =~= texts_view(texts).push(t@));
}

/// An independent copy of a list of texts.
pub fn clone_texts(texts: &Vec<String>) -> (out: Vec<String>)
    ensures
        texts_view(out@) == texts_view(texts@),
{
    let mut out: Vec<String> = Vec::new();
    let n: usize = texts.len();
    let mut i: usize = 0;
    while i < n
        invariant
            i <= n,
            n == texts.len(),
            out.len() == i,
            forall|j: int| 0 <= j < i ==> out@[j]@ == texts@[j]@,
        decreases n - i,
    {
        out.push(texts[i].clone());
        i = i + 1;
    }
    assert(texts_view(out@) =~= texts_view(texts@));
    out
}

} // verus!
