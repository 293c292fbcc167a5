//! What the service answers: a status and a body, as plain values that a web
//! front end turns into a response.

use crate::joke::{joke_views, Joke, JokeView};
use crate::json::{encode_joke, encode_jokes, joke_json, jokes_json};
use vstd::prelude::*;

verus! {

/// The outcome of a request.
#[derive(Debug, Clone, Copy, PartialEq, Eq, Structural)]
pub enum Status {
    /// The request was answered.
    Success,
    /// No joke has the requested id.
    NotFound,
}

impl Status {
    /// The HTTP status code of the outcome.
    pub open spec fn spec_code(self) -> u16 {
        match self {
            Status::Success => 200,
            Status::NotFound => 404,
        }
    }

    /// The HTTP status code of the outcome: 200 or 404.
    #[verifier::when_used_as_spec(spec_code)]
    pub fn code(self) -> (code: u16)
        ensures
            code == self.spec_code(),
    {
        match self {
            Status::Success => 200,
            Status::NotFound => 404,
        }
    }
}

/// What a reply carries.
#[derive(Debug)]
pub enum Content {
    /// A plain-text message.
    Text(String),
    /// One joke, sent as a JSON object.
    Record(Joke),
    /// Several jokes, sent as a JSON array.
    Records(Vec<Joke>),
}

/// The content of a reply as mathematical values.
pub enum ContentView {
    /// A plain-text message.
    Text(Seq<char>),
    /// One joke.
    Record(JokeView),
    /// Several jokes, in the order in which they are sent.
    Records(Seq<JokeView>),
}

impl View for Content {
    type V = ContentView;

    open spec fn view(&self) -> ContentView {
        match self {
            Content::Text(text) => ContentView::Text(text@),
            Content::Record(joke) => ContentView::Record(joke@),
            Content::Records(jokes) => ContentView::Records(joke_views(jokes@)),
        }
    }
}

impl ContentView {
    /// Whether the content is sent as JSON rather than as plain text.
    pub open spec fn is_json(self) -> bool {
        !(self is Text)
    }

    /// The text of the body that carries this content.
    pub open spec fn body(self) -> Seq<char> {
        match self {
            ContentView::Text(text) => text,
            ContentView::Record(joke) => joke_json(joke),
            ContentView::Records(jokes) => jokes_json(jokes),
        }
    }
}

/// A reply as mathematical values.
pub struct ReplyView {
    pub status: Status,
    pub content: ContentView,
}

/// The answer to one request.
#[derive(Debug)]
pub struct Reply {
    /// Whether the request was answered.
    pub status: Status,
    /// What is sent back.
    pub content: Content,
}

impl View for Reply {
    type V = ReplyView;

    open spec fn view(&self) -> ReplyView {
        ReplyView { status: self.status, content: self.content@ }
    }
}

impl Reply {
    /// The HTTP status code of the reply.
    pub fn status_code(&self) -> (code: u16)
        ensures
            code == self@.status.spec_code(),
    {
        self.status.code()
    }

    /// Whether the body is JSON; if not, it is plain text.
    pub fn is_json(&self) -> (json: bool)
        ensures
            json == self@.content.is_json(),
    {
        match &self.content {
            Content::Text(_) => false,
            Content::Record(_) => true,
            Content::Records(_) => true,
        }
    }

    /// The body as text: a message as it stands, a joke as a JSON object,
    /// several jokes as a JSON array of such objects.
    pub fn body(&self) -> (text: String)
        ensures
            text@ == self@.content.body(),
    {
        match &self.content {
            Content::Text(message) => message.clone(),
            Content::Record(joke) => encode_joke(joke),
            Content::Records(jokes) => encode_jokes(jokes),
        }
    }
}

} // verus!
