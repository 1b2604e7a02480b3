use details_form::genre::Genre;
use details_form::json::{to_json, to_json_pretty};
use details_form::record::Details;
use details_form::status::Status;

fn frieren() -> Details {
    Details {
        title: "Frieren".to_string(),
        author: "Kanehito Yamada".to_string(),
        artist: "Tsukasa Abe".to_string(),
        description: "...".to_string(),
        genre: vec![Genre::Fantasy, Genre::Drama],
        status: Status::Ongoing,
    }
}

#[test]
fn compact_json_of_the_example_record() {
    let expected = "{\"title\":\"Frieren\",\"author\":\"Kanehito Yamada\",\"artist\":\"Tsukasa Abe\",\"description\":\"...\",\"genre\":[\"Fantasy\",\"Drama\"],\"status\":1}";
    assert_eq!(to_json(&frieren()), expected);
}

#[test]
fn pretty_json_of_the_example_record() {
    let expected = "{\n  \"title\": \"Frieren\",\n  \"author\": \"Kanehito Yamada\",\n  \"artist\": \"Tsukasa Abe\",\n  \"description\": \"...\",\n  \"genre\": [\n    \"Fantasy\",\n    \"Drama\"\n  ],\n  \"status\": 1\n}";
    assert_eq!(to_json_pretty(&frieren()), expected);
}

#[test]
fn pretty_json_of_the_default_record() {
    let d = Details::default();
    let expected = "{\n  \"title\": \"\",\n  \"author\": \"\",\n  \"artist\": \"\",\n  \"description\": \"\",\n  \"genre\": [],\n  \"status\": 0\n}";
    assert_eq!(to_json_pretty(&d), expected);
}

#[test]
fn compact_json_of_the_default_record() {
    let d = Details::default();
    let expected =
        "{\"title\":\"\",\"author\":\"\",\"artist\":\"\",\"description\":\"\",\"genre\":[],\"status\":0}";
    assert_eq!(to_json(&d), expected);
}

#[test]
fn string_escaping_matches_the_reference_serializer() {
    let gnarly = "a\"b\\c\nd\te\rf\u{8}g\u{c}h\u{1}i\u{1f}j \u{7f} caf\u{e9} \u{2603}";
    let mut d = Details::default();
    d.title = gnarly.to_string();
    let quoted = serde_json::to_string(&serde_json::Value::String(gnarly.to_string())).unwrap();
    let expected = format!(
        "{{\"title\":{},\"author\":\"\",\"artist\":\"\",\"description\":\"\",\"genre\":[],\"status\":0}}",
        quoted
    );
    assert_eq!(to_json(&d), expected);
}

#[test]
fn rendered_json_is_well_formed() {
    let mut d = frieren();
    d.description = "line one\nline two\t\"quoted\" back\\slash \u{3} end".to_string();
    let parsed: serde_json::Value = serde_json::from_str(&to_json(&d)).unwrap();
    assert_eq!(parsed["title"].as_str().unwrap(), "Frieren");
    assert_eq!(
        parsed["description"].as_str().unwrap(),
        "line one\nline two\t\"quoted\" back\\slash \u{3} end"
    );
    assert_eq!(parsed["status"].as_i64().unwrap(), 1);
}

#[test]
fn pretty_and_compact_hold_the_same_document() {
    let d = frieren();
    let a: serde_json::Value = serde_json::from_str(&to_json(&d)).unwrap();
    let b: serde_json::Value = serde_json::from_str(&to_json_pretty(&d)).unwrap();
    assert_eq!(a, b);
}

#[test]
fn serialized_record_parses_back_equal_in_all_fields() {
    let original = Details {
        title: "A \"quoted\" title".to_string(),
        author: "X, Y".to_string(),
        artist: "".to_string(),
        description: "two\nlines".to_string(),
        genre: vec![Genre::SlifeOfLife, Genre::MahouShoujo, Genre::SciFi],
        status: Status::Hiatus,
    };
    let text = to_json_pretty(&original);
    let parsed: serde_json::Value = serde_json::from_str(&text).unwrap();
    let rebuilt = Details {
        title: parsed["title"].as_str().unwrap().to_string(),
        author: parsed["author"].as_str().unwrap().to_string(),
        artist: parsed["artist"].as_str().unwrap().to_string(),
        description: parsed["description"].as_str().unwrap().to_string(),
        genre: parsed["genre"]
            .as_array()
            .unwrap()
            .iter()
            .map(|v| Genre::from_tag(v.as_str().unwrap()).unwrap())
            .collect(),
        status: Status::from_code(parsed["status"].as_u64().unwrap() as u8).unwrap(),
    };
    assert_eq!(rebuilt.title, original.title);
    assert_eq!(rebuilt.author, original.author);
    assert_eq!(rebuilt.artist, original.artist);
    assert_eq!(rebuilt.description, original.description);
    assert_eq!(rebuilt.genre, original.genre);
    assert_eq!(rebuilt.status, original.status);
}

#[test]
fn status_serializes_as_its_integer_code() {
    let codes = vec![
        (Status::Unknown, "0"),
        (Status::Ongoing, "1"),
        (Status::Completed, "2"),
        (Status::Licensed, "3"),
        (Status::Finished, "4"),
        (Status::Cancelled, "5"),
        (Status::Hiatus, "6"),
    ];
    for (status, digit) in codes {
        let mut d = Details::default();
        d.status = status;
        let text = to_json(&d);
        let expected = format!(
            "{{\"title\":\"\",\"author\":\"\",\"artist\":\"\",\"description\":\"\",\"genre\":[],\"status\":{}}}",
            digit
        );
        assert_eq!(text, expected);
    }
}

#[test]
fn genre_array_uses_tag_names_not_display_names() {
    let mut d = Details::default();
    d.genre = vec![Genre::MahouShoujo, Genre::SciFi, Genre::SlifeOfLife];
    let parsed: serde_json::Value = serde_json::from_str(&to_json(&d)).unwrap();
    let names: Vec<&str> = parsed["genre"]
        .as_array()
        .unwrap()
        .iter()
        .map(|v| v.as_str().unwrap())
        .collect();
    assert_eq!(names, vec!["MahouShoujo", "SciFi", "SlifeOfLife"]);
}
