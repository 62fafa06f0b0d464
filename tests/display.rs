use zellij_what_time::display::{compose, format_terminal_style, padding_for};

#[test]
fn compose_pads_narrow_text() {
    assert_eq!(padding_for("ab", 5), 3);
    assert_eq!(compose("ab", 5), "   \x1b[30;37mab\x1b[0m");
}

#[test]
fn compose_counts_wide_characters_twice() {
    assert_eq!(padding_for("日", 2), 0);
    assert_eq!(compose("日", 2), "\x1b[30;37m日\x1b[0m");
    assert_eq!(padding_for("日", 5), 3);
}

#[test]
fn compose_leaves_wide_text_unpadded() {
    assert_eq!(padding_for("abcdef", 3), 0);
    assert_eq!(compose("abcdef", 3), "\x1b[30;37mabcdef\x1b[0m");
}

#[test]
fn compose_exact_fit_and_empty() {
    assert_eq!(compose("abc", 3), "\x1b[30;37mabc\x1b[0m");
    assert_eq!(compose("", 2), "  \x1b[30;37m\x1b[0m");
    assert_eq!(compose("ab", 0), "\x1b[30;37mab\x1b[0m");
}

#[test]
fn padding_mixed_width() {
    assert_eq!(padding_for(" 〈14:30", 10), 2);
    assert_eq!(padding_for("ab", usize::MAX), usize::MAX - 2);
}

#[test]
fn terminal_style() {
    assert_eq!(format_terminal_style("hi", "31", "42"), "\x1b[31;42mhi\x1b[0m");
}
