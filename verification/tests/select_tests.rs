use puddle_rank::model::{Player, Rating, TopDefeated, TopRating};
use puddle_rank::select::select;

fn entry(code: &str, character: &str, rating: i64, match_count: u32) -> Rating {
    Rating {
        rating,
        deviation: 0,
        char_short: code.to_string(),
        character: character.to_string(),
        match_count,
        top_char: 0,
        top_defeated: TopDefeated {
            timestamp: String::new(),
            id: 0,
            name: String::new(),
            char_short: String::new(),
            value: 0,
        },
        top_rating: TopRating { timestamp: String::new(), value: 0 },
    }
}

fn player(name: &str, ratings: Vec<Rating>) -> Player {
    Player {
        id: 1,
        name: name.to_string(),
        ratings,
        platform: "PC".to_string(),
        top_global: 0,
        tags: Vec::new(),
    }
}

#[test]
fn select_finds_matching_entry() {
    let p = player("Foo", vec![entry("SO", "Sol", 100, 1), entry("KY", "Ky", 200, 2)]);
    let code = "KY".to_string();
    let e = select(&p, &code).expect("entry should be found");
    assert_eq!(e.character, "Ky");
    assert_eq!(e.rating, 200);
}

#[test]
fn select_takes_first_of_duplicates() {
    let p = player(
        "Foo",
        vec![entry("JC", "Jack-O'", 111, 1), entry("JC", "Jack-O'", 222, 2), entry("JC", "Jack-O'", 333, 3)],
    );
    let code = "JC".to_string();
    let e = select(&p, &code).expect("entry should be found");
    assert_eq!(e.rating, 111);
}

#[test]
fn select_missing_code_is_none() {
    let p = player("Foo", vec![entry("SO", "Sol", 100, 1)]);
    let code = "AX".to_string();
    assert!(select(&p, &code).is_none());
}

#[test]
fn select_empty_list_is_none() {
    let p = player("Foo", Vec::new());
    let code = "SO".to_string();
    assert!(select(&p, &code).is_none());
}

#[test]
fn select_is_case_sensitive() {
    let p = player("Foo", vec![entry("SO", "Sol", 100, 1)]);
    let code = "so".to_string();
    assert!(select(&p, &code).is_none());
}
