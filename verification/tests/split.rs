use details_form::split::split_genres;

#[test]
fn split_trims_each_token_and_keeps_order() {
    assert_eq!(
        split_genres("Action, Comedy ,Drama"),
        vec!["Action".to_string(), "Comedy".to_string(), "Drama".to_string()]
    );
}

#[test]
fn split_empty_line_is_one_empty_token() {
    assert_eq!(split_genres(""), vec!["".to_string()]);
}

#[test]
fn split_whitespace_only_line_is_one_empty_token() {
    assert_eq!(split_genres(" \t "), vec!["".to_string()]);
}

#[test]
fn split_keeps_duplicates_and_empty_tokens() {
    assert_eq!(
        split_genres("Drama,,Drama, "),
        vec![
            "Drama".to_string(),
            "".to_string(),
            "Drama".to_string(),
            "".to_string(),
        ]
    );
}

#[test]
fn split_does_not_fold_case() {
    assert_eq!(
        split_genres("drama, ACTION"),
        vec!["drama".to_string(), "ACTION".to_string()]
    );
}

#[test]
fn split_trims_tabs_and_newlines() {
    assert_eq!(
        split_genres("\tFantasy\n,\r Horror "),
        vec!["Fantasy".to_string(), "Horror".to_string()]
    );
}

#[test]
fn split_keeps_inner_whitespace() {
    assert_eq!(
        split_genres(" Mahou Shoujo , Slice of Life"),
        vec!["Mahou Shoujo".to_string(), "Slice of Life".to_string()]
    );
}

#[test]
fn split_trailing_comma_gives_trailing_empty_token() {
    assert_eq!(
        split_genres("Action,"),
        vec!["Action".to_string(), "".to_string()]
    );
}
