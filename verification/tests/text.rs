use modal_editor::text::{
    char_count, joined, repeated, split_at_char, with_char_appended, with_char_inserted,
    with_char_removed, without_last_char,
};

#[test]
fn counts_characters_not_bytes() {
    assert_eq!(char_count(&String::new()), 0);
    assert_eq!(char_count(&"abc".to_string()), 3);
    assert_eq!(char_count(&"héllo wörld".to_string()), 11);
}

#[test]
fn repeats_a_character() {
    assert_eq!(repeated(' ', 0), "");
    assert_eq!(repeated(' ', 4), "    ");
    assert_eq!(repeated('é', 2), "éé");
}

#[test]
fn appends_a_character() {
    assert_eq!(with_char_appended(&String::new(), 'a'), "a");
    assert_eq!(with_char_appended(&"ab".to_string(), 'é'), "abé");
}

#[test]
fn inserts_a_character_by_position() {
    let line = "héllo".to_string();
    assert_eq!(with_char_inserted(&line, 0, 'x'), "xhéllo");
    assert_eq!(with_char_inserted(&line, 2, 'x'), "héxllo");
    assert_eq!(with_char_inserted(&line, 5, 'x'), "héllox");
    assert_eq!(with_char_inserted(&String::new(), 0, 'x'), "x");
    assert_eq!(line, "héllo");
}

#[test]
fn removes_a_character_by_position() {
    let line = "héllo".to_string();
    assert_eq!(with_char_removed(&line, 0), "éllo");
    assert_eq!(with_char_removed(&line, 1), "hllo");
    assert_eq!(with_char_removed(&line, 4), "héll");
    assert_eq!(with_char_removed(&"x".to_string(), 0), "");
}

#[test]
fn drops_the_last_character() {
    assert_eq!(without_last_char(&":q".to_string()), ":");
    assert_eq!(without_last_char(&":".to_string()), "");
    assert_eq!(without_last_char(&String::new()), "");
    assert_eq!(without_last_char(&"né".to_string()), "n");
}

#[test]
fn splits_a_line_by_position() {
    let line = "héllo".to_string();
    assert_eq!(split_at_char(&line, 0), (String::new(), "héllo".to_string()));
    assert_eq!(split_at_char(&line, 2), ("hé".to_string(), "llo".to_string()));
    assert_eq!(split_at_char(&line, 5), ("héllo".to_string(), String::new()));
}

#[test]
fn joins_two_lines() {
    assert_eq!(joined(&"x".to_string(), &"ab".to_string()), "xab");
    assert_eq!(joined(&String::new(), &"ab".to_string()), "ab");
    assert_eq!(joined(&"x".to_string(), &String::new()), "x");
}
