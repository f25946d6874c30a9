use oi_helper::strdiff::{colored_diff, SpanStyle, StyledSpan};

fn plain(c: char) -> StyledSpan {
    StyledSpan { content: c, style: SpanStyle::Plain }
}

fn changed(c: char) -> StyledSpan {
    StyledSpan { content: c, style: SpanStyle::Changed }
}

#[test]
fn diff_marks_third_position_on_actual_side_only() {
    let (expected, actual) = colored_diff("abc", "abd");
    assert_eq!(expected, vec![plain('a'), plain('b'), plain('c')]);
    assert_eq!(actual, vec![plain('a'), plain('b'), changed('d')]);
}

#[test]
fn diff_of_identical_texts_is_all_plain() {
    for text in ["", "a", "hello world", "1 2 3\n4 5 6", "\u{8f93}\u{5165}"] {
        let (expected, actual) = colored_diff(text, text);
        let want: Vec<StyledSpan> = text.chars().map(plain).collect();
        assert_eq!(expected, want);
        assert_eq!(actual, want);
        assert_eq!(expected.len(), actual.len());
    }
}

#[test]
fn diff_marks_excess_of_longer_actual() {
    let (expected, actual) = colored_diff("ab", "abcd");
    assert_eq!(expected, vec![plain('a'), plain('b')]);
    assert_eq!(actual, vec![plain('a'), plain('b'), changed('c'), changed('d')]);
}

#[test]
fn diff_pads_shorter_actual_with_changed_blanks() {
    let (expected, actual) = colored_diff("abcd", "ax");
    assert_eq!(expected, vec![plain('a'), plain('b'), changed('c'), changed('d')]);
    assert_eq!(actual, vec![plain('a'), changed('x'), changed(' '), changed(' ')]);
    assert_eq!(expected.len(), actual.len());
}

#[test]
fn diff_against_empty_texts() {
    let (expected, actual) = colored_diff("", "xy");
    assert_eq!(expected, vec![]);
    assert_eq!(actual, vec![changed('x'), changed('y')]);
    let (expected, actual) = colored_diff("xy", "");
    assert_eq!(expected, vec![changed('x'), changed('y')]);
    assert_eq!(actual, vec![changed(' '), changed(' ')]);
}

#[test]
fn diff_is_positional_not_aligned() {
    let (expected, actual) = colored_diff("abc", "xabc");
    assert_eq!(expected, vec![plain('a'), plain('b'), plain('c')]);
    assert_eq!(actual, vec![changed('x'), changed('a'), changed('b'), changed('c')]);
}
