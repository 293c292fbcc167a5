//! Compact JSON text for joke records.
//!
//! An object is framed here, field by field. The text of a string value comes
//! from `serde_json`, which knows the escaping rules of JSON.

use crate::joke::{joke_views, Joke, JokeView};
use vstd::prelude::*;
use vstd::string::*;

verus! {

/// The JSON string literal that `serde_json::to_string` writes for `text`:
/// the characters of `text` between double quotes, escaped where JSON asks
/// for it.
pub uninterp spec fn json_string(text: Seq<char>) -> Seq<char>;

/// Calls `serde_json::to_string` on a string slice.
///
/// Not proved, but taken from `serde_json`: the result is the JSON string
/// literal for `text`, a function of the characters of `text` alone. The call
/// writes into memory and serialises nothing but a string slice, which cannot
/// fail in `serde_json`, so the empty default never stands in for a result.
#[verifier::external_body]
fn quote(text: &str) -> (quoted: String)
    ensures
        quoted@ == json_string(text@),
{
    serde_json::to_string(text).unwrap_or_default()
}

/// The decimal digit for `d`, which is below ten.
pub open spec fn digit(d: nat) -> char
    recommends
        d < 10,
{
    seq!['0', '1', '2', '3', '4', '5', '6', '7', '8', '9'][d as int]
}

/// `n` in decimal, without sign or leading zeros.
pub open spec fn decimal(n: nat) -> Seq<char>
    decreases n,
{
    if n < 10 {
        seq![digit(n)]
    } else {
        decimal(n / 10).push(digit(n % 10))
    }
}

/// The one-character text of a digit.
fn digit_text(d: u32) -> (text: &'static str)
    requires
        d < 10,
    ensures
        text@ == seq![digit(d as nat)],
{
    proof {
        reveal_strlit("0");
        reveal_strlit("1");
        reveal_strlit("2");
        reveal_strlit("3");
        reveal_strlit("4");
        reveal_strlit("5");
        reveal_strlit("6");
        reveal_strlit("7");
        reveal_strlit("8");
        reveal_strlit("9");
    }
    match d {
        0 => "0",
        1 => "1",
        2 => "2",
        3 => "3",
        4 => "4",
        5 => "5",
        6 => "6",
        7 => "7",
        8 => "8",
        _ => "9",
    }
}

/// Writes `n` in decimal.
pub fn decimal_text(n: u32) -> (text: String)
    ensures
        text@ == decimal(n as nat),
    decreases n,
{
    if n < 10 {
        digit_text(n).to_string()
    } else {
        let mut text = decimal_text(n / 10);
        text.append(digit_text(n % 10));
        text
    }
}

/// A joke as a JSON object, given its id and the JSON texts of its two
/// string fields.
pub open spec fn object_text(id: nat, category: Seq<char>, content: Seq<char>) -> Seq<char> {
    "{\"id\":"@ + decimal(id) + ",\"category\":"@ + category + ",\"content\":"@ + content + "}"@
}

/// Frames a joke's JSON object around the JSON texts of its two string
/// fields.
pub fn joke_object(id: u32, category: &str, content: &str) -> (text: String)
    ensures
        text@ == object_text(id as nat, category@, content@),
{
    let mut text = "{\"id\":".to_string();
    text.append(decimal_text(id).as_str());
    text.append(",\"category\":");
    text.append(category);
    text.append(",\"content\":");
    text.append(content);
    text.append("}");
    text
}

/// The JSON object of a joke.
pub open spec fn joke_json(joke: JokeView) -> Seq<char> {
    object_text(joke.id, json_string(joke.category), json_string(joke.content))
}

/// Encodes one joke as a JSON object with the fields `id`, `category` and
/// `content`, in that order.
pub fn encode_joke(joke: &Joke) -> (text: String)
    ensures
        text@ == joke_json(joke@),
{
    let category = quote(joke.category.as_str());
    let content = quote(joke.content.as_str());
    joke_object(joke.id, category.as_str(), content.as_str())
}

/// The texts of `items`, in order, with a comma between neighbours.
pub open spec fn joined(items: Seq<Seq<char>>) -> Seq<char>
    decreases items.len(),
{
    if items.len() == 0 {
        Seq::empty()
    } else if items.len() == 1 {
        items[0]
    } else {
        joined(items.drop_last()) + ","@ + items.last()
    }
}

/// A JSON array of the given element texts.
pub open spec fn array_text(items: Seq<Seq<char>>) -> Seq<char> {
    "["@ + joined(items) + "]"@
}

/// The JSON array of a sequence of jokes.
pub open spec fn jokes_json(jokes: Seq<JokeView>) -> Seq<char> {
    array_text(jokes.map_values(|joke: JokeView| joke_json(joke)))
}

/// Encodes jokes as a JSON array of objects, in the order given.
pub fn encode_jokes(jokes: &Vec<Joke>) -> (text: String)
    ensures
        text@ == jokes_json(joke_views(jokes@)),
{
    let ghost items = joke_views(jokes@).map_values(|joke: JokeView| joke_json(joke));
    let mut text = "[".to_string();
    let mut i: usize = 0;
    while i < jokes.len()
        invariant
            i <= jokes.len(),
            items == joke_views(jokes@).map_values(|joke: JokeView| joke_json(joke)),
            text@ == "["@ + joined(items.take(i as int)),
        decreases jokes.len() - i,
    {
        if i > 0 {
            text.append(",");
        }
        let object = encode_joke(&jokes[i]);
        text.append(object.as_str());
        proof {
            assert(items.take(i + 1).drop_last() =~= items.take(i as int));
        }
        i += 1;
    }
    assert(items.take(i as int) =~= items);
    text.append("]");
    text
}

} // verus!
