use needjs::format::{format_parser, format_to_string, parse_int_text, FormatArg};

fn s(text: &str) -> FormatArg {
    FormatArg {
        is_string: true,
        text: text.to_string(),
        number: "NaN".to_string(),
        integer: "NaN".to_string(),
        json: format!("\"{}\"", text),
    }
}

fn num(text: &str, integer: &str) -> FormatArg {
    FormatArg {
        is_string: false,
        text: text.to_string(),
        number: text.to_string(),
        integer: integer.to_string(),
        json: text.to_string(),
    }
}

#[test]
fn hello_world_line() {
    assert_eq!(format_parser(&vec![s("hi")]), "hi");
}

#[test]
fn no_arguments_print_empty_line() {
    assert_eq!(format_parser(&vec![]), "");
}

#[test]
fn string_specifier_takes_next_argument() {
    assert_eq!(format_parser(&vec![s("a %s c"), s("b")]), "a b c");
}

#[test]
fn number_and_integer_specifiers() {
    let args = vec![s("%d/%i/%f"), num("4.5", "4"), num("-2.7", "-2"), num("1", "1")];
    assert_eq!(format_parser(&args), "4.5/-2/1");
}

#[test]
fn json_and_css_specifiers() {
    assert_eq!(format_parser(&vec![s("%j%c!"), s("x"), s("color: red")]), "\"x\"!");
}

#[test]
fn object_specifiers_use_text() {
    assert_eq!(format_parser(&vec![s("%o %O"), num("1", "1"), s("t")]), "1 t");
}

#[test]
fn double_percent_prints_one() {
    assert_eq!(format_parser(&vec![s("100%% %s"), s("sure")]), "100% sure");
}

#[test]
fn specifier_without_argument_stays() {
    assert_eq!(format_parser(&vec![s("%s and %d")]), "%s and %d");
    assert_eq!(format_parser(&vec![s("%s and %d"), s("x")]), "x and %d");
}

#[test]
fn unknown_specifier_and_trailing_percent_stay() {
    assert_eq!(format_parser(&vec![s("%x 5%"), s("a")]), "%x 5% a");
}

#[test]
fn unused_arguments_follow_with_spaces() {
    assert_eq!(format_parser(&vec![s("a"), s("b"), num("3", "3")]), "a b 3");
}

#[test]
fn non_string_first_argument_joins_with_spaces() {
    assert_eq!(format_parser(&vec![num("1", "1"), s("two"), num("3", "3")]), "1 two 3");
}

#[test]
fn non_ascii_template() {
    assert_eq!(format_parser(&vec![s("é%sü"), s("ß")]), "éßü");
}

#[test]
fn format_to_string_appends_from_index() {
    let mut out = "x".to_string();
    format_to_string(&mut out, &vec![s("a"), s("b"), s("c")], 1);
    assert_eq!(out, "x b c");
    format_to_string(&mut out, &vec![s("a")], 5);
    assert_eq!(out, "x b c");
}

#[test]
fn parse_int_reads_leading_decimal_integer() {
    assert_eq!(parse_int_text("42"), "42");
    assert_eq!(parse_int_text("  -17.9px"), "-17");
    assert_eq!(parse_int_text("+008"), "8");
    assert_eq!(parse_int_text("000"), "0");
    assert_eq!(parse_int_text("-0"), "0");
    assert_eq!(parse_int_text("\t\n12 34"), "12");
    assert_eq!(parse_int_text("abc"), "NaN");
    assert_eq!(parse_int_text(""), "NaN");
    assert_eq!(parse_int_text("-"), "NaN");
    assert_eq!(parse_int_text(" - 3"), "NaN");
}
