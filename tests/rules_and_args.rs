use nu_pest::args::{parse_command_line_args, ArgsError};
use nu_pest::rule::{get_rule, Rule};
use nu_pest::text::{parse_i64, str_eq};

fn strings(v: &[&str]) -> Vec<String> {
    v.iter().map(|s| s.to_string()).collect()
}

#[test]
fn rule_lookup_is_exact() {
    assert_eq!(get_rule("plus_expr"), Some(Rule::plus_expr));
    assert_eq!(get_rule("int"), Some(Rule::integer));
    assert_eq!(get_rule("EOI"), Some(Rule::EOI));
    assert_eq!(get_rule("ws"), Some(Rule::ws));
    assert_eq!(get_rule("PLUS_EXPR"), None);
    assert_eq!(get_rule("plus_expr "), None);
    assert_eq!(get_rule(""), None);
}

#[test]
fn rule_names_round_trip() {
    for name in ["and_expr", "program", "double_quote_string_inner", "COMMENT", "while_command"] {
        assert_eq!(get_rule(name).unwrap().name(), name);
    }
}

#[test]
fn integer_text() {
    assert_eq!(parse_i64("0"), Some(0));
    assert_eq!(parse_i64("-0"), Some(0));
    assert_eq!(parse_i64("007"), Some(7));
    assert_eq!(parse_i64(" 7"), None);
    assert!(str_eq("ab", "ab"));
    assert!(!str_eq("ab", "abc"));
}

#[test]
fn arguments_string_expression_rule() {
    let a = parse_command_line_args(&strings(&["-s", "10.4 + 9.6", "-e", "-r", "plus_expr"])).unwrap();
    assert!(a.string_mode && !a.file_mode);
    assert_eq!(a.string, "10.4 + 9.6");
    assert!(a.expression_mode && !a.diagnostic_mode);
    assert!(a.rule_mode);
    assert_eq!(a.rule, Rule::plus_expr);
}

#[test]
fn arguments_default_rule_and_file() {
    let a = parse_command_line_args(&strings(&["--file", "x.nu", "--diagnostic"])).unwrap();
    assert!(a.file_mode && !a.string_mode);
    assert_eq!(a.file_name, "x.nu");
    assert!(!a.rule_mode);
    assert_eq!(a.rule, Rule::program);
}

#[test]
fn arguments_refused() {
    assert!(matches!(parse_command_line_args(&strings(&["-x"])), Err(ArgsError::UnknownArgument(s)) if s == "-x"));
    assert!(matches!(parse_command_line_args(&strings(&["-r", "nope"])), Err(ArgsError::UnknownRule(s)) if s == "nope"));
    assert!(matches!(
        parse_command_line_args(&strings(&["-f", "a", "-s", "b"])),
        Err(ArgsError::FileAndString)
    ));
    assert!(matches!(
        parse_command_line_args(&strings(&["-d", "-e"])),
        Err(ArgsError::DiagnosticAndExpression)
    ));
}
