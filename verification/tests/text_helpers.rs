use assembly_cli::error::{require_setting, ApiError, Field};
use assembly_cli::text::{join, same_text};

#[test]
fn same_text_compares_character_by_character() {
    assert!(same_text("completed", "completed"));
    assert!(!same_text("completed", "Completed"));
    assert!(!same_text("completed", "complete"));
    assert!(same_text("", ""));
}

#[test]
fn join_puts_the_tail_behind_the_head() {
    assert_eq!(join("abc", ".json"), "abc.json");
    assert_eq!(join("", "x"), "x");
    assert_eq!(join("x", ""), "x");
}

#[test]
fn field_names_are_those_of_the_replies() {
    assert_eq!(Field::Id.name(), "id");
    assert_eq!(Field::Status.name(), "status");
    assert_eq!(Field::Error.name(), "error");
    assert_eq!(Field::Response.name(), "response");
}

#[test]
fn require_setting_hands_on_a_setting_that_is_set() {
    assert_eq!(require_setting("API_TOKEN", Some("secret")), Ok("secret"));
}

#[test]
fn require_setting_names_the_setting_that_is_not_set() {
    assert_eq!(
        require_setting("API_TOKEN", None),
        Err(ApiError::Configuration("API_TOKEN not set.".to_string()))
    );
}
