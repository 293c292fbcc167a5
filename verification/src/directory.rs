//! The directory: the fixed set of jokes, keyed by id.

use crate::joke::{Joke, JokeView};
use std::collections::HashMap;
use vstd::prelude::*;

verus! {

broadcast use vstd::std_specs::hash::group_hash_axioms;

/// The smallest id of the directory.
pub const FIRST_ID: u32 = 1;

/// The largest id of the directory.
pub const LAST_ID: u32 = 3;

/// Whether the directory holds a joke under `id`.
pub open spec fn is_listed(id: u32) -> bool {
    FIRST_ID <= id <= LAST_ID
}

/// The directory as a mathematical map from id to record.
pub open spec fn directory() -> Map<u32, JokeView> {
    map![
        1u32 => JokeView {
            id: 1,
            category: "Programming"@,
            content: "Why do programmers prefer dark mode? Because light attracts bugs!"@,
        },
        2u32 => JokeView {
            id: 2,
            category: "Programming"@,
            content: "A SQL query walks into a bar, walks up to two tables and asks: 'Can I join you?'"@,
        },
        3u32 => JokeView {
            id: 3,
            category: "General"@,
            content: "Why did the scarecrow win an award? He was outstanding in his field!"@,
        },
    ]
}

/// The records of `jokes`, each taken by its view.
pub open spec fn views(jokes: Map<u32, Joke>) -> Map<u32, JokeView> {
    jokes.map_values(|joke: Joke| joke@)
}

/// Builds the directory afresh. It holds the same three jokes on every call.
pub fn get_jokes() -> (jokes: HashMap<u32, Joke>)
    ensures
        views(jokes@) == directory(),
        jokes@.len() == 3,
        forall|id: u32| #[trigger] jokes@.dom().contains(id) <==> is_listed(id),
        forall|id: u32| is_listed(id) ==> (#[trigger] jokes@[id])@.id == id,
{
    let mut jokes: HashMap<u32, Joke> = HashMap::new();
    jokes.insert(
        1,
        Joke::new(
            1,
            "Programming",
            "Why do programmers prefer dark mode? Because light attracts bugs!",
        ),
    );
    jokes.insert(
        2,
        Joke::new(
            2,
            "Programming",
            "A SQL query walks into a bar, walks up to two tables and asks: 'Can I join you?'",
        ),
    );
    jokes.insert(
        3,
        Joke::new(
            3,
            "General",
            "Why did the scarecrow win an award? He was outstanding in his field!",
        ),
    );
    proof {
        assert(views(jokes@) =~= directory());
        lemma_views_of_directory(jokes@);
    }
    jokes
}

/// A map of jokes whose views make up the directory holds a joke under
/// exactly the listed ids, and each joke is the directory's record for its id.
pub proof fn lemma_views_of_directory(jokes: Map<u32, Joke>)
    requires
        views(jokes) == directory(),
    ensures
        jokes.dom().finite(),
        jokes.len() == 3,
        forall|id: u32| #[trigger] jokes.dom().contains(id) <==> is_listed(id),
        forall|id: u32| is_listed(id) ==> (#[trigger] jokes[id])@ == directory()[id],
{
    lemma_directory_ids();
    assert(jokes.dom() =~= directory().dom());
    assert forall|id: u32| #[trigger] jokes.dom().contains(id) <==> is_listed(id) by {
        assert(views(jokes).dom().contains(id) <==> jokes.dom().contains(id));
    }
    assert forall|id: u32| is_listed(id) implies (#[trigger] jokes[id])@ == directory()[id] by {
        assert(jokes.dom().contains(id));
        assert(views(jokes)[id] == jokes[id]@);
    }
}

/// The directory holds exactly three records, under the ids from `FIRST_ID` to
/// `LAST_ID`, and each record carries the id it is stored under.
pub proof fn lemma_directory_ids()
    ensures
        directory().dom() == set![1u32, 2u32, 3u32],
        directory().dom().finite(),
        directory().len() == 3,
        forall|id: u32| #[trigger] directory().dom().contains(id) <==> is_listed(id),
        forall|id: u32| is_listed(id) ==> (#[trigger] directory()[id]).id == id,
{
    assert(directory().dom() =~= set![1u32, 2u32, 3u32]);
}

} // verus!
