use puddle_rank::model::{Rating, TopDefeated, TopRating};
use puddle_rank::render::{json_escape, render_discord_body, render_discord_embed, render_html_graded, render_html_plain};

fn entry(code: &str, character: &str, rating: i64, deviation: i64, match_count: u32) -> Rating {
    Rating {
        rating,
        deviation,
        char_short: code.to_string(),
        character: character.to_string(),
        match_count,
        top_char: 0,
        top_defeated: TopDefeated {
            timestamp: String::new(),
            id: 0,
            name: String::new(),
            char_short: String::new(),
            value: 0,
        },
        top_rating: TopRating { timestamp: String::new(), value: 0 },
    }
}

#[test]
fn json_escape_specials() {
    assert_eq!(json_escape("plain text"), "plain text");
    assert_eq!(json_escape("a\"b\\c"), "a\\\"b\\\\c");
    assert_eq!(json_escape("line\nbreak\ttab"), "line\\u000abreak\\u0009tab");
    assert_eq!(json_escape(""), "");
}

#[test]
fn discord_embed_exact_document() {
    let name = "Foo".to_string();
    let e = entry("SO", "Sol", 158000, 350, 120);
    let doc = render_discord_embed(&name, &e);
    assert_eq!(
        doc,
        "{\"embeds\":[{\"title\":\"Foo\",\"description\":\"Guilty Gear -Strive-\",\
         \"color\":9406699,\"fields\":[{\"name\":\"Sol\",\"value\":\"15800.0 \u{b1}35.0\",\
         \"inline\":true},{\"name\":\"Games\",\"value\":\"120\",\"inline\":true}],\
         \"footer\":{\"text\":\"puddle.farm\"}}]}"
    );
}

#[test]
fn discord_round_trip_two_fields_games_second() {
    let name = "Foo".to_string();
    let e = entry("SO", "Sol", 158000, 350, 120);
    let doc = render_discord_embed(&name, &e);
    let v: serde_json::Value = serde_json::from_str(&doc).expect("embed document is valid JSON");
    let fields = v["embeds"][0]["fields"].as_array().expect("fields is an array");
    assert_eq!(fields.len(), 2);
    assert_eq!(fields[0]["name"], serde_json::Value::String("Sol".to_string()));
    assert_eq!(fields[1]["name"], serde_json::Value::String("Games".to_string()));
    assert_eq!(fields[1]["value"], serde_json::Value::String("120".to_string()));
    assert_eq!(fields[1]["inline"], serde_json::Value::Bool(true));
}

#[test]
fn discord_body_is_double_encoded() {
    let name = "Foo".to_string();
    let e = entry("SO", "Sol", 158000, 350, 120);
    let body = render_discord_body(&name, &e);
    // The response body is itself a JSON string whose content is the embed
    // document.
    let outer: serde_json::Value = serde_json::from_str(&body).expect("body is valid JSON");
    let inner = outer.as_str().expect("body is a JSON string");
    assert_eq!(inner, render_discord_embed(&name, &e));
    let v: serde_json::Value = serde_json::from_str(inner).expect("inner document is valid JSON");
    assert_eq!(v["embeds"][0]["fields"].as_array().unwrap().len(), 2);
}

#[test]
fn discord_round_trip_with_special_characters() {
    let name = "A\"B\\C".to_string();
    let e = entry("SO", "So\"l", 5, 0, 1);
    let doc = render_discord_embed(&name, &e);
    let v: serde_json::Value = serde_json::from_str(&doc).expect("embed document is valid JSON");
    assert_eq!(v["embeds"][0]["title"], serde_json::Value::String("A\"B\\C".to_string()));
    assert_eq!(v["embeds"][0]["fields"][0]["name"], serde_json::Value::String("So\"l".to_string()));
}

#[test]
fn html_plain_document() {
    let name = "Foo".to_string();
    let e = entry("SO", "Sol", 158000, 0, 120);
    let html = render_html_plain(1, &name, &e);
    assert!(html.contains("<meta property=\"og:title\" content=\"Foo - Sol\" />"));
    assert!(html.contains("Rating: 15800.0 | Games: 120"));
    assert!(html.contains("<meta property=\"og:url\" content=\"https://puddle.farm/player/1/SO\" />"));
    assert!(html.contains("<meta property=\"og:image\" content=\"https://puddle.farm/api/avatar/1\" />"));
    assert!(html.contains("<meta property=\"og:site_name\" content=\"puddle.farm\" />"));
    assert!(html.contains("<p>Player stats for Foo</p>"));
}

#[test]
fn html_graded_document() {
    let name = "Foo".to_string();
    let e = entry("SO", "Sol", 10045000, 0, 77);
    let html = render_html_graded(42, &name, &e);
    assert!(html.contains("content=\"Vanquisher, 45000 DR | Games: 77\""));
    assert!(html.contains("https://puddle.farm/player/42/SO"));
}

#[test]
fn html_graded_ordinary_tier() {
    let name = "Bar".to_string();
    let e = entry("KY", "Ky", 15800, 0, 3);
    let html = render_html_graded(7, &name, &e);
    assert!(html.contains("content=\"Gold 2, 15800 RP | Games: 3\""));
}
