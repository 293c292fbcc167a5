//! The joke record.

use vstd::prelude::*;

verus! {

/// A joke record as mathematical values: what contracts speak of.
pub struct JokeView {
    pub id: nat,
    pub category: Seq<char>,
    pub content: Seq<char>,
}

/// One joke of the directory.
#[derive(Debug)]
pub struct Joke {
    /// Identifies the joke within the directory.
    pub id: u32,
    /// A short label such as "Programming" or "General".
    pub category: String,
    /// The joke itself.
    pub content: String,
}

impl View for Joke {
    type V = JokeView;

    open spec fn view(&self) -> JokeView {
        JokeView { id: self.id as nat, category: self.category@, content: self.content@ }
    }
}

/// The views of a sequence of jokes, in order.
pub open spec fn joke_views(jokes: Seq<Joke>) -> Seq<JokeView> {
    jokes.map_values(|joke: Joke| joke@)
}

impl Joke {
    /// A record with the given id, category and content.
    pub fn new(id: u32, category: &str, content: &str) -> (joke: Joke)
        ensures
            joke@ == (JokeView { id: id as nat, category: category@, content: content@ }),
    {
        Joke { id, category: category.to_string(), content: content.to_string() }
    }
}

} // verus!
