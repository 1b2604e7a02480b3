use details_form::genre::Genre;
use details_form::record::Details;
use details_form::status::Status;

#[test]
fn status_codes_are_stable() {
    assert_eq!(Status::Unknown.code(), 0);
    assert_eq!(Status::Ongoing.code(), 1);
    assert_eq!(Status::Completed.code(), 2);
    assert_eq!(Status::Licensed.code(), 3);
    assert_eq!(Status::Finished.code(), 4);
    assert_eq!(Status::Cancelled.code(), 5);
    assert_eq!(Status::Hiatus.code(), 6);
}

#[test]
fn status_from_code_round_trips() {
    let all = vec![
        Status::Unknown,
        Status::Ongoing,
        Status::Completed,
        Status::Licensed,
        Status::Finished,
        Status::Cancelled,
        Status::Hiatus,
    ];
    for s in all {
        assert_eq!(Status::from_code(s.code()), Some(s));
    }
}

#[test]
fn status_from_code_rejects_unused_codes() {
    assert_eq!(Status::from_code(7), None);
    assert_eq!(Status::from_code(42), None);
    assert_eq!(Status::from_code(255), None);
}

#[test]
fn status_names() {
    assert_eq!(Status::Unknown.name(), "Unknown");
    assert_eq!(Status::Ongoing.name(), "Ongoing");
    assert_eq!(Status::Completed.name(), "Completed");
    assert_eq!(Status::Licensed.name(), "Licensed");
    assert_eq!(Status::Finished.name(), "Finished");
    assert_eq!(Status::Cancelled.name(), "Cancelled");
    assert_eq!(Status::Hiatus.name(), "Hiatus");
}

#[test]
fn status_selection_list_skips_unselectable_variants() {
    let list = Status::selectable();
    assert_eq!(
        list,
        vec![
            Status::Unknown,
            Status::Ongoing,
            Status::Completed,
            Status::Cancelled,
            Status::Hiatus,
        ]
    );
}

#[test]
fn status_default_is_unknown() {
    assert_eq!(Status::default(), Status::Unknown);
}

#[test]
fn genre_display_names_differ_for_three_variants() {
    assert_eq!(Genre::MahouShoujo.display_name(), "Mahou Shoujo");
    assert_eq!(Genre::SciFi.display_name(), "Sci-Fi");
    assert_eq!(Genre::SlifeOfLife.display_name(), "Slice of Life");
    assert_eq!(Genre::Action.display_name(), "Action");
    assert_eq!(Genre::Unknown.display_name(), "Unknown");
}

#[test]
fn genre_tags_are_the_serialized_names() {
    assert_eq!(Genre::MahouShoujo.tag(), "MahouShoujo");
    assert_eq!(Genre::SciFi.tag(), "SciFi");
    assert_eq!(Genre::SlifeOfLife.tag(), "SlifeOfLife");
    assert_eq!(Genre::Fantasy.tag(), "Fantasy");
}

#[test]
fn genre_from_tag_round_trips() {
    for g in Genre::variants() {
        assert_eq!(Genre::from_tag(g.tag()), Some(g));
    }
}

#[test]
fn genre_from_tag_rejects_other_names() {
    assert_eq!(Genre::from_tag(""), None);
    assert_eq!(Genre::from_tag("Sci-Fi"), None);
    assert_eq!(Genre::from_tag("action"), None);
    assert_eq!(Genre::from_tag("Isekai"), None);
}

#[test]
fn genre_selection_list_holds_all_twenty() {
    let list = Genre::variants();
    assert_eq!(list.len(), 20);
    assert_eq!(list[0], Genre::Unknown);
    assert_eq!(list[19], Genre::Thriller);
}

#[test]
fn all_cancelled_prompts_give_the_default_record() {
    let d = Details::from_prompts(None, None, None, None, None, None);
    assert_eq!(d.title, "");
    assert_eq!(d.author, "");
    assert_eq!(d.artist, "");
    assert_eq!(d.description, "");
    assert_eq!(d.genre, Vec::new());
    assert_eq!(d.status, Status::Unknown);
}

#[test]
fn answered_prompts_pass_through_unchanged() {
    let d = Details::from_prompts(
        Some("Frieren".to_string()),
        Some("Kanehito Yamada".to_string()),
        Some("Tsukasa Abe".to_string()),
        Some("An elf looks back.".to_string()),
        Some(vec![Genre::Fantasy, Genre::Drama]),
        Some(Status::Ongoing),
    );
    assert_eq!(d.title, "Frieren");
    assert_eq!(d.author, "Kanehito Yamada");
    assert_eq!(d.artist, "Tsukasa Abe");
    assert_eq!(d.description, "An elf looks back.");
    assert_eq!(d.genre, vec![Genre::Fantasy, Genre::Drama]);
    assert_eq!(d.status, Status::Ongoing);
}

#[test]
fn a_single_cancelled_prompt_only_defaults_its_own_field() {
    let d = Details::from_prompts(
        Some("Frieren".to_string()),
        None,
        Some("Tsukasa Abe".to_string()),
        None,
        Some(vec![Genre::Fantasy]),
        None,
    );
    assert_eq!(d.title, "Frieren");
    assert_eq!(d.author, "");
    assert_eq!(d.artist, "Tsukasa Abe");
    assert_eq!(d.description, "");
    assert_eq!(d.genre, vec![Genre::Fantasy]);
    assert_eq!(d.status, Status::Unknown);
}

#[test]
fn default_record_is_all_defaults() {
    let d = Details::default();
    assert_eq!(d.title, "");
    assert_eq!(d.author, "");
    assert_eq!(d.artist, "");
    assert_eq!(d.description, "");
    assert!(d.genre.is_empty());
    assert_eq!(d.status, Status::Unknown);
}
