use freegames::identifier::make_identifier;

#[test]
fn strips_punctuation_and_joins_words() {
    assert_eq!(make_identifier("The Game".to_string()), "The_Game");
    assert_eq!(make_identifier("The Game: The DLC".to_string()), "The_Game_The_DLC");
}

#[test]
fn whitespace_runs_collapse_to_one_underscore() {
    assert_eq!(make_identifier("a  b".to_string()), "a_b");
    assert_eq!(make_identifier("a \t b".to_string()), "a_b");
    assert_eq!(make_identifier("a .! b".to_string()), "a_b");
}

#[test]
fn edge_whitespace_becomes_an_underscore() {
    assert_eq!(make_identifier(" a".to_string()), "_a");
    assert_eq!(make_identifier("a ".to_string()), "a_");
    assert_eq!(make_identifier("   ".to_string()), "_");
}

#[test]
fn empty_and_symbol_only_titles() {
    assert_eq!(make_identifier(String::new()), "");
    assert_eq!(make_identifier("!!!".to_string()), "");
}

#[test]
fn unicode_letters_and_digits_survive() {
    assert_eq!(make_identifier("Café 42".to_string()), "Café_42");
}

#[test]
fn normalizing_twice_changes_nothing_without_underscores() {
    let once = make_identifier("OneWord42".to_string());
    assert_eq!(once, "OneWord42");
    assert_eq!(make_identifier(once.clone()), once);
}

#[test]
fn underscores_in_the_input_are_stripped() {
    assert_eq!(make_identifier("a_b".to_string()), "ab");
}
