use loglib::pattern::formatter;

#[test]
fn formatter_test1() {
    let pattern = "there is no placeholder here";
    let args: [&str; 0] = [];
    let ret = formatter(pattern, &args);
    assert_eq!(ret, "there is no placeholder here");
}

#[test]
fn formatter_test2() {
    let pattern = "wrong number of placeholders";
    let args: [&str; 1] = ["asd"];
    let ret = formatter(pattern, &args);
    assert_eq!(ret, "Invalid pattern: wrong number of placeholders");
}

#[test]
fn formatter_test3() {
    let pattern = "{} {}";
    let args: [&str; 2] = ["one", "two"];
    let ret = formatter(pattern, &args);
    assert_eq!(ret, "one two");
}

#[test]
fn formatter_test4() {
    let pattern = "assdfsdgf{}dsfgsdfg{}sfdgsdg{}";
    let args: [&str; 3] = ["one", "two", "three"];
    let ret = formatter(pattern, &args);
    assert_eq!(ret, "assdfsdgfonedsfgsdfgtwosfdgsdgthree");
}

#[test]
fn formatter_too_few_placeholders() {
    let ret = formatter("{}{}", &["a"]);
    assert_eq!(ret, "Invalid pattern: {}{}");
}

#[test]
fn formatter_empty_pattern_no_args() {
    let args: [&str; 0] = [];
    let ret = formatter("", &args);
    assert_eq!(ret, "");
}

#[test]
fn formatter_braces_in_argument_not_resubstituted() {
    // substitution is single-pass: a placeholder token arriving inside
    // an argument is inserted verbatim, never treated as a placeholder
    let ret = formatter("{} {}", &["{}", "x"]);
    assert_eq!(ret, "{} x");
}

#[test]
fn formatter_adjacent_placeholders() {
    let ret = formatter("{}{}{}", &["a", "b", "c"]);
    assert_eq!(ret, "abc");
}

#[test]
fn formatter_lone_braces_are_literal() {
    // "{" and "}" only count when adjacent in that order
    let ret = formatter("}{ {}", &["x"]);
    assert_eq!(ret, "}{ x");
}

#[test]
fn formatter_non_ascii_text() {
    let ret = formatter("gr{}ß: {}", &["o", "héllo"]);
    assert_eq!(ret, "groß: héllo");
}
