//! How a run can fail, and the message that each failure is reported with.

use vstd::prelude::*;

verus! {

/// The part of a service's JSON answer that was absent or of the wrong kind.
#[derive(Clone, Copy, Debug, PartialEq, Eq, Structural)]
pub enum Expected {
    /// A string member `text` at the top of a transcription answer.
    Text,
    /// An array member `choices` at the top of a completion answer.
    Choices,
    /// A first element in `choices`.
    FirstChoice,
    /// A member `message` in the first choice.
    Message,
    /// A string member `content` in that message.
    Content,
}

/// Why a run stopped before its reply was written.
#[derive(Debug, PartialEq, Eq)]
pub enum Failure {
    /// A local file could not be read or written; holds the system's description.
    Io(String),
    /// A request could not be sent or its answer not received; holds the
    /// transport's description.
    Transport(String),
    /// The service answered with a status outside 200..=299; holds the text
    /// of the answer's body, unchanged.
    Remote(String),
    /// The body of a successful answer is not a JSON document; holds the
    /// parser's description.
    Parse(String),
    /// The answer is a JSON document without the named part.
    Missing(Expected),
    /// An event arrived that does not answer the action that was pending.
    OutOfOrder,
}

/// The mathematical value of a [`Failure`].
pub enum FailureView {
    Io(Seq<char>),
    Transport(Seq<char>),
    Remote(Seq<char>),
    Parse(Seq<char>),
    Missing(Expected),
    OutOfOrder,
}

impl Expected {
    /// The sentence that reports the absence of this part.
    pub open spec fn spec_message(self) -> Seq<char> {
        match self {
            Expected::Text => "missing field `text`"@,
            Expected::Choices => "missing field `choices`"@,
            Expected::FirstChoice => "no element in `choices`"@,
            Expected::Message => "missing field `message`"@,
            Expected::Content => "missing field `content`"@,
        }
    }

    /// The sentence that reports the absence of this part.
    pub fn message(self) -> (text: String)
        ensures
            text@ == self.spec_message(),
    {
        match self {
            Expected::Text => String::from_str("missing field `text`"),
            Expected::Choices => String::from_str("missing field `choices`"),
            Expected::FirstChoice => String::from_str("no element in `choices`"),
            Expected::Message => String::from_str("missing field `message`"),
            Expected::Content => String::from_str("missing field `content`"),
        }
    }
}

impl FailureView {
    /// The human-readable message of a failure: the description it holds,
    /// for a refusal by the service the text of the answer's body as it
    /// came, and for a part that is missing a sentence that names it.
    pub open spec fn message(self) -> Seq<char> {
        match self {
            FailureView::Io(description) => description,
            FailureView::Transport(description) => description,
            FailureView::Remote(body) => body,
            FailureView::Parse(description) => description,
            FailureView::Missing(part) => part.spec_message(),
            FailureView::OutOfOrder => "unexpected event"@,
        }
    }
}

impl View for Failure {
    type V = FailureView;

    open spec fn view(&self) -> FailureView {
        match self {
            Failure::Io(description) => FailureView::Io(description@),
            Failure::Transport(description) => FailureView::Transport(description@),
            Failure::Remote(body) => FailureView::Remote(body@),
            Failure::Parse(description) => FailureView::Parse(description@),
            Failure::Missing(part) => FailureView::Missing(*part),
            Failure::OutOfOrder => FailureView::OutOfOrder,
        }
    }
}

impl Clone for Failure {
    fn clone(&self) -> (copy: Failure)
        ensures
            copy == *self,
    {
        match self {
            Failure::Io(description) => Failure::Io(description.clone()),
            Failure::Transport(description) => Failure::Transport(description.clone()),
            Failure::Remote(body) => Failure::Remote(body.clone()),
            Failure::Parse(description) => Failure::Parse(description.clone()),
            Failure::Missing(part) => Failure::Missing(*part),
            Failure::OutOfOrder => Failure::OutOfOrder,
        }
    }
}

impl Failure {
    /// The message this failure is reported with.
    pub fn message(&self) -> (text: String)
        ensures
            text@ == self@.message(),
    {
        match self {
            Failure::Io(description) => description.clone(),
            Failure::Transport(description) => description.clone(),
            Failure::Remote(body) => body.clone(),
            Failure::Parse(description) => description.clone(),
            Failure::Missing(part) => part.message(),
            Failure::OutOfOrder => String::from_str("unexpected event"),
        }
    }
}

} // verus!
