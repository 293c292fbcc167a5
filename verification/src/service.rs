//! The three requests the service answers: a welcome, the full listing, and
//! the lookup of one joke by id.
//!
//! Every request is answered from a directory built for that request alone, so
//! an answer depends on nothing but the request.

use crate::directory::{
    directory, get_jokes, is_listed, lemma_views_of_directory, FIRST_ID, LAST_ID,
};
use crate::joke::{Joke, JokeView};
use crate::json::{joke_json, jokes_json};
use crate::reply::{Content, ContentView, Reply, ReplyView, Status};
use vstd::prelude::*;

verus! {

broadcast use vstd::std_specs::hash::group_hash_axioms;

/// The greeting sent at the root.
pub open spec fn welcome_text() -> Seq<char> {
    "🎭 Welcome to the Rust Joke API! Try /jokes or /joke/1"@
}

/// The message sent when no joke has the requested id.
pub open spec fn not_found_text() -> Seq<char> {
    "Joke not found! Try IDs 1-3"@
}

/// All jokes of the directory, in ascending order of id.
pub open spec fn listing() -> Seq<JokeView> {
    Seq::new((LAST_ID - FIRST_ID + 1) as nat, |i: int| directory()[(FIRST_ID + i) as u32])
}

/// The reply to a request for the root.
pub open spec fn welcome_reply() -> ReplyView {
    ReplyView { status: Status::Success, content: ContentView::Text(welcome_text()) }
}

/// The reply to a request for all jokes.
pub open spec fn listing_reply() -> ReplyView {
    ReplyView { status: Status::Success, content: ContentView::Records(listing()) }
}

/// The reply to a request for the joke with the given id.
pub open spec fn lookup_reply(joke_id: u32) -> ReplyView {
    if directory().dom().contains(joke_id) {
        ReplyView { status: Status::Success, content: ContentView::Record(directory()[joke_id]) }
    } else {
        ReplyView { status: Status::NotFound, content: ContentView::Text(not_found_text()) }
    }
}

/// The ids of a sequence of jokes, in order.
pub open spec fn ids_of(jokes: Seq<JokeView>) -> Seq<nat> {
    jokes.map_values(|joke: JokeView| joke.id)
}

/// The welcome is a success, and its body is not empty.
pub proof fn lemma_welcome_is_success()
    ensures
        welcome_reply().status.spec_code() == 200,
        !welcome_reply().content.is_json(),
        welcome_reply().content.body().len() > 0,
{
    reveal_strlit("🎭 Welcome to the Rust Joke API! Try /jokes or /joke/1");
}

/// The listing holds three jokes, with the ids 1, 2 and 3 in this order: every
/// id of the directory occurs, and none occurs twice.
pub proof fn lemma_listing_ids()
    ensures
        listing().len() == 3,
        ids_of(listing()) == seq![1nat, 2nat, 3nat],
        ids_of(listing()).no_duplicates(),
        ids_of(listing()).to_set() == set![1nat, 2nat, 3nat],
        forall|i: int| 0 <= i < listing().len() ==> listing()[i] == directory()[(i + 1) as u32],
{
    let ids = ids_of(listing());
    assert(ids =~= seq![1nat, 2nat, 3nat]);
    assert(ids.to_set() =~= set![1nat, 2nat, 3nat]) by {
        assert(ids[0] == 1 && ids[1] == 2 && ids[2] == 3);
        assert forall|id: nat| set![1nat, 2nat, 3nat].contains(id) implies ids.to_set().contains(
            id,
        ) by {
            assert(ids.contains(ids[id - 1]));
        }
    }
}

/// A lookup by a listed id is a success, and the joke it returns carries the
/// id that was asked for.
pub proof fn lemma_lookup_by_listed_id(joke_id: u32)
    ensures
        is_listed(joke_id) ==> {
            &&& lookup_reply(joke_id).status.spec_code() == 200
            &&& lookup_reply(joke_id).content == ContentView::Record(directory()[joke_id])
            &&& directory()[joke_id].id == joke_id
        },
{
}

/// A lookup by an id that is not listed is answered with status 404 and the
/// not-found message.
pub proof fn lemma_lookup_by_unlisted_id(joke_id: u32)
    ensures
        !is_listed(joke_id) ==> {
            &&& lookup_reply(joke_id).status.spec_code() == 404
            &&& lookup_reply(joke_id).content == ContentView::Text(not_found_text())
        },
{
}

/// Lookups by different listed ids do not answer for one another: each
/// returns the joke of its own id, and the two replies differ.
pub proof fn lemma_lookups_keep_apart(first: u32, second: u32)
    requires
        is_listed(first),
        is_listed(second),
        first != second,
    ensures
        lookup_reply(first).content == ContentView::Record(directory()[first]),
        lookup_reply(second).content == ContentView::Record(directory()[second]),
        directory()[first].id == first,
        directory()[second].id == second,
        lookup_reply(first) != lookup_reply(second),
{
}

/// Answers a request for the root with the greeting.
pub fn hello() -> (reply: Reply)
    ensures
        reply@ == welcome_reply(),
        reply@.status.spec_code() == 200,
        !reply@.content.is_json(),
        reply@.content.body() == welcome_text(),
        reply@.content.body().len() > 0,
{
    proof {
        lemma_welcome_is_success();
    }
    Reply {
        status: Status::Success,
        content: Content::Text(
            "🎭 Welcome to the Rust Joke API! Try /jokes or /joke/1".to_string(),
        ),
    }
}

/// Answers a request for all jokes: every joke of the directory, in ascending
/// order of id.
pub fn get_all_jokes() -> (reply: Reply)
    ensures
        reply@ == listing_reply(),
        reply@.status.spec_code() == 200,
        reply@.content matches ContentView::Records(jokes) && {
            &&& jokes.len() == 3
            &&& ids_of(jokes) == seq![1nat, 2nat, 3nat]
            &&& ids_of(jokes).no_duplicates()
            &&& ids_of(jokes).to_set() == set![1nat, 2nat, 3nat]
        },
        reply@.content.is_json(),
        reply@.content.body() == jokes_json(listing()),
{
    proof {
        lemma_listing_ids();
    }
    let mut jokes = get_jokes();
    proof {
        lemma_views_of_directory(jokes@);
    }
    let mut records: Vec<Joke> = Vec::new();
    let mut id: u32 = FIRST_ID;
    while id <= LAST_ID
        invariant
            FIRST_ID <= id <= LAST_ID + 1,
            records@.len() == id - FIRST_ID,
            forall|k: u32|
                #![trigger jokes@.dom().contains(k)]
                #![trigger jokes@[k]]
                id <= k <= LAST_ID ==> jokes@.dom().contains(k) && jokes@[k]@ == directory()[k],
            forall|i: int|
                0 <= i < records@.len() ==> (#[trigger] records@[i])@ == directory()[(FIRST_ID
                    + i) as u32],
        decreases LAST_ID + 1 - id,
    {
        if let Some(joke) = jokes.remove(&id) {
            records.push(joke);
        }
        id += 1;
    }
    let reply = Reply { status: Status::Success, content: Content::Records(records) };
    assert(reply@.content->Records_0 =~= listing());
    reply
}

/// Answers a request for one joke: the joke with that id where the directory
/// holds one, and the not-found message otherwise.
pub fn get_joke_by_id(joke_id: u32) -> (reply: Reply)
    ensures
        reply@ == lookup_reply(joke_id),
        is_listed(joke_id) ==> {
            &&& reply@.status.spec_code() == 200
            &&& reply@.content matches ContentView::Record(joke) && joke.id == joke_id
            &&& reply@.content.is_json()
            &&& reply@.content.body() == joke_json(directory()[joke_id])
        },
        !is_listed(joke_id) ==> {
            &&& reply@.status.spec_code() == 404
            &&& !reply@.content.is_json()
            &&& reply@.content.body() == not_found_text()
        },
{
    proof {
        lemma_lookup_by_listed_id(joke_id);
        lemma_lookup_by_unlisted_id(joke_id);
    }
    let mut jokes = get_jokes();
    proof {
        lemma_views_of_directory(jokes@);
    }
    match jokes.remove(&joke_id) {
        Some(joke) => Reply { status: Status::Success, content: Content::Record(joke) },
        None => Reply {
            status: Status::NotFound,
            content: Content::Text("Joke not found! Try IDs 1-3".to_string()),
        },
    }
}

} // verus!
