use hitokage_core::pad::{pad_string, PadError};

#[test]
fn pad_right_fills_to_width() {
    assert_eq!(pad_string("right", "ab", 5, "-"), Ok("ab---".to_string()));
}

#[test]
fn pad_left_also_fills_on_the_right() {
    assert_eq!(pad_string("left", "ab", 5, "*"), Ok("ab***".to_string()));
}

#[test]
fn pad_replaces_spaces_of_the_input() {
    assert_eq!(pad_string("right", "a b", 5, "."), Ok("a.b..".to_string()));
}

#[test]
fn pad_with_space_keeps_spaces() {
    assert_eq!(pad_string("right", "ab", 4, " "), Ok("ab  ".to_string()));
}

#[test]
fn pad_shorter_width_keeps_input() {
    assert_eq!(pad_string("right", "abcdef", 3, "x"), Ok("abcdef".to_string()));
    assert_eq!(pad_string("left", "", 0, "x"), Ok(String::new()));
}

#[test]
fn pad_counts_characters_not_bytes() {
    assert_eq!(pad_string("right", "é", 3, "ü"), Ok("éüü".to_string()));
}

#[test]
fn pad_rejects_long_pad_char() {
    assert_eq!(pad_string("right", "ab", 5, "--"), Err(PadError::PadCharNotSingle));
    assert_eq!(pad_string("right", "ab", 5, ""), Err(PadError::PadCharNotSingle));
}

#[test]
fn pad_rejects_unknown_direction() {
    assert_eq!(pad_string("center", "ab", 5, "-"), Err(PadError::InvalidDirection));
}

#[test]
fn pad_checks_pad_char_before_direction() {
    assert_eq!(pad_string("up", "ab", 5, "ab"), Err(PadError::PadCharNotSingle));
}
