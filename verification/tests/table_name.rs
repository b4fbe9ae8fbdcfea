use tower_sessions_rusqlite_store::table_name::{
    invalid_table_name_message, is_valid_table_name, TableName, DEFAULT_TABLE_NAME,
};

#[test]
fn accepts_letters_digits_hyphen_and_underscore() {
    assert!(is_valid_table_name("tower_sessions"));
    assert!(is_valid_table_name("Sessions2"));
    assert!(is_valid_table_name("my-sessions_v2"));
    assert!(is_valid_table_name("ABCxyz0189"));
}

#[test]
fn accepts_each_kind_of_character_alone() {
    for name in ["a", "z", "A", "Z", "0", "9", "-", "_"] {
        assert!(is_valid_table_name(name), "{name:?}");
    }
}

#[test]
fn rejects_the_empty_name() {
    assert!(!is_valid_table_name(""));
}

#[test]
fn rejects_names_with_other_characters() {
    for name in [
        " ",
        "a b",
        "a;b",
        "a'b",
        "a\"b",
        "a.b",
        "a(b)",
        "a\tb",
        "a\n",
        "a,b",
        "a*",
        "a/b",
        "a`b",
        "a=b",
        "sessions; drop table users;--",
        "caf\u{e9}",
        "\u{430}\u{431}\u{432}",
        "a\u{0}b",
    ] {
        assert!(!is_valid_table_name(name), "{name:?}");
    }
}

#[test]
fn rejects_the_neighbours_of_the_accepted_ranges() {
    for name in ["/", ":", "@", "[", "`", "{", ",", ".", "^"] {
        assert!(!is_valid_table_name(name), "{name:?}");
    }
}

#[test]
fn a_table_name_is_made_of_exactly_the_valid_names() {
    assert_eq!(TableName::new("sessions_2").unwrap().as_str(), "sessions_2");
    assert!(TableName::new("").is_none());
    assert!(TableName::new("sessions 2").is_none());
}

#[test]
fn the_default_table_name_is_tower_sessions() {
    assert_eq!(DEFAULT_TABLE_NAME, "tower_sessions");
    assert_eq!(TableName::default().as_str(), "tower_sessions");
    assert!(is_valid_table_name(DEFAULT_TABLE_NAME));
}

#[test]
fn a_cloned_table_name_is_the_same_name() {
    let name = TableName::new("abc").unwrap();
    assert_eq!(name.clone().as_str(), "abc");
}

#[test]
fn the_refusal_names_the_name() {
    assert_eq!(
        invalid_table_name_message("a b"),
        "Invalid table name 'a b'. Table names must be alphanumeric and may contain hyphens or \
         underscores."
    );
    assert_eq!(
        invalid_table_name_message(""),
        "Invalid table name ''. Table names must be alphanumeric and may contain hyphens or \
         underscores."
    );
}
