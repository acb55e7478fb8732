//! Tests of the command-line grammar.

use kinematic2d::command_line::parse;

#[test]
fn parses_name_and_body() {
    assert_eq!(parse("/goto (1, 2)"), Some(("goto", "(1, 2)")));
    assert_eq!(parse("/spawn ball"), Some(("spawn", "ball")));
}

#[test]
fn no_command_start() {
    assert_eq!(parse(""), None);
    assert_eq!(parse("hello"), None);
    assert_eq!(parse("/"), None);
    assert_eq!(parse("/ goto"), None, "the slash needs a letter right after it");
    assert_eq!(parse("/Abc"), None, "command names are lowercase");
    assert_eq!(parse("/1x"), None);
    assert_eq!(parse("ends with a slash/"), None);
}

#[test]
fn first_start_wins() {
    assert_eq!(parse("x /spawn  ball"), Some(("spawn", "ball")));
    assert_eq!(parse("//run x"), Some(("run", "x")));
    assert_eq!(parse("/A /go on"), Some(("go", "on")));
}

#[test]
fn name_is_longest_lowercase_run() {
    assert_eq!(parse("/goto"), Some(("goto", "")));
    assert_eq!(parse("/goto9 rest"), Some(("goto", "9 rest")));
    assert_eq!(parse("/aXb"), Some(("a", "Xb")));
}

#[test]
fn whitespace_after_name_is_dropped() {
    assert_eq!(parse("/goto   "), Some(("goto", "")));
    assert_eq!(parse("/goto \t\n (1, 2)"), Some(("goto", "(1, 2)")));
    // The body keeps its own inner and trailing whitespace.
    assert_eq!(parse("/say a  b "), Some(("say", "a  b ")));
}

#[test]
fn unicode_text_around_the_command() {
    assert_eq!(parse("héllo /cmd arg"), Some(("cmd", "arg")));
    // A no-break space counts as whitespace after the name.
    assert_eq!(parse("/cmd\u{00A0}arg"), Some(("cmd", "arg")));
    // An em space is whitespace too, so it is dropped with the rest.
    assert_eq!(parse("/cmd \u{2003}x"), Some(("cmd", "x")));
    // A word joiner is not whitespace: it starts the body.
    assert_eq!(parse("/cmd \u{2060}x"), Some(("cmd", "\u{2060}x")));
}

#[test]
fn body_spans_lines() {
    assert_eq!(parse("/say line1\nline2"), Some(("say", "line1\nline2")));
    assert_eq!(parse("/say \n line2"), Some(("say", "line2")));
}
