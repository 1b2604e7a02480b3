use details_form::sink::{output_file_name, should_write, written_message};

#[test]
fn only_an_explicit_yes_writes_the_file() {
    assert!(should_write(Some(true)));
    assert!(!should_write(Some(false)));
    assert!(!should_write(None));
}

#[test]
fn fixed_output_names() {
    assert_eq!(output_file_name(), "details.json");
    assert_eq!(written_message(), "Written to ./details.json");
}
