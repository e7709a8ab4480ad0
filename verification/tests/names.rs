use std::collections::HashSet;

use test_db::name::{database_name, fresh_database_name, normalize, NAME_PREFIX, TOKEN_LEN};

#[test]
fn prefix_and_token_length_are_fixed() {
    assert_eq!(NAME_PREFIX, "test_db_");
    assert_eq!(TOKEN_LEN, 36);
}

#[test]
fn name_of_a_known_token() {
    assert_eq!(
        database_name("67e55044-10b1-426f-9247-bb680e5fe0c8"),
        "test_db_67e55044_10b1_426f_9247_bb680e5fe0c8"
    );
}

#[test]
fn name_of_the_empty_token_is_the_prefix() {
    assert_eq!(database_name(""), "test_db_");
}

#[test]
fn normalize_replaces_every_hyphen() {
    assert_eq!(normalize("a-b-c"), "a_b_c");
    assert_eq!(normalize("----"), "____");
    assert_eq!(normalize("-"), "_");
}

#[test]
fn normalize_keeps_everything_else() {
    assert_eq!(normalize(""), "");
    assert_eq!(normalize("abc123"), "abc123");
    assert_eq!(normalize("already_ok"), "already_ok");
    assert_eq!(normalize("A B.C/D"), "A B.C/D");
    assert_eq!(normalize("é-ß"), "é_ß");
}

#[test]
fn tokens_that_differ_give_names_that_differ() {
    let a = database_name("00000000-0000-4000-8000-000000000000");
    let b = database_name("00000000-0000-4000-8000-000000000001");
    assert_ne!(a, b);
}

#[test]
fn fresh_name_has_the_documented_shape() {
    let name = fresh_database_name();
    assert_eq!(name.len(), 44);
    assert!(name.starts_with("test_db_"));
    let token: Vec<char> = name["test_db_".len()..].chars().collect();
    assert_eq!(token.len(), 36);
    for (i, c) in token.iter().enumerate() {
        if i == 8 || i == 13 || i == 18 || i == 23 {
            assert_eq!(*c, '_');
        } else {
            assert!(matches!(*c, '0'..='9' | 'a'..='f'));
        }
    }
    assert_eq!(token[14], '4');
    assert!(matches!(token[19], '8' | '9' | 'a' | 'b'));
}

#[test]
fn fresh_name_is_a_plain_identifier() {
    let name = fresh_database_name();
    assert!(!name.is_empty());
    assert!(!name.starts_with(|c: char| c.is_ascii_digit()));
    assert!(name.chars().all(|c| c.is_ascii_lowercase() || c.is_ascii_digit() || c == '_'));
    assert!(!name.contains('-'));
    assert!(!name.contains('"'));
    assert!(!name.contains('\''));
}

#[test]
fn ten_thousand_fresh_names_are_all_different() {
    let mut seen = HashSet::new();
    for _ in 0..10_000 {
        assert!(seen.insert(fresh_database_name()));
    }
    assert_eq!(seen.len(), 10_000);
}
