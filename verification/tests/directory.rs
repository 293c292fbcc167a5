use joke_api::arith::add_numbers;
use joke_api::directory::{get_jokes, FIRST_ID, LAST_ID};
use joke_api::joke::Joke;

#[test]
fn directory_holds_three_jokes_under_their_ids() {
    let jokes = get_jokes();
    assert_eq!(jokes.len(), 3);
    let mut ids: Vec<u32> = jokes.keys().copied().collect();
    ids.sort();
    assert_eq!(ids, vec![1, 2, 3]);
    for (id, joke) in jokes.iter() {
        assert_eq!(joke.id, *id);
    }
    assert!(jokes.get(&0).is_none());
    assert!(jokes.get(&4).is_none());
}

#[test]
fn directory_records_have_their_texts() {
    let jokes = get_jokes();
    assert_eq!(jokes[&1].category, "Programming");
    assert_eq!(
        jokes[&1].content,
        "Why do programmers prefer dark mode? Because light attracts bugs!"
    );
    assert_eq!(jokes[&2].category, "Programming");
    assert_eq!(
        jokes[&2].content,
        "A SQL query walks into a bar, walks up to two tables and asks: 'Can I join you?'"
    );
    assert_eq!(jokes[&3].category, "General");
    assert_eq!(
        jokes[&3].content,
        "Why did the scarecrow win an award? He was outstanding in his field!"
    );
}

#[test]
fn directory_is_the_same_on_every_call() {
    let first = get_jokes();
    let second = get_jokes();
    assert_eq!(first.len(), second.len());
    for id in FIRST_ID..=LAST_ID {
        assert_eq!(first[&id].id, second[&id].id);
        assert_eq!(first[&id].category, second[&id].category);
        assert_eq!(first[&id].content, second[&id].content);
    }
}

#[test]
fn id_range_is_1_to_3() {
    assert_eq!(FIRST_ID, 1);
    assert_eq!(LAST_ID, 3);
}

#[test]
fn new_joke_keeps_its_fields() {
    let joke = Joke::new(17, "General", "text");
    assert_eq!(joke.id, 17);
    assert_eq!(joke.category, "General");
    assert_eq!(joke.content, "text");
}

#[test]
fn add_numbers_adds() {
    assert_eq!(add_numbers(5, 3), 8);
    assert_eq!(add_numbers(0, 0), 0);
    assert_eq!(add_numbers(-7, 7), 0);
    assert_eq!(add_numbers(-5, -3), -8);
    assert_eq!(add_numbers(i32::MAX, 0), i32::MAX);
    assert_eq!(add_numbers(i32::MAX, i32::MIN), -1);
    assert_eq!(add_numbers(i32::MIN + 1, -1), i32::MIN);
}
