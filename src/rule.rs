use vstd::prelude::*;
use crate::text::str_eq;

verus! {

/// A production of the shell grammar, as tagged on each node of a concrete syntax tree.
#[allow(non_camel_case_types)]
#[derive(Clone, Copy, Debug, PartialEq, Eq, Structural)]
pub enum Rule {
    and_expr,
    arg_list,
    array,
    assignment,
    assignment_operator,
    backtick_string,
    backtick_string_char,
    backtick_string_inner,
    bare_char,
    bare_follow_char,
    bare_string,
    bare_value,
    bare_word,
    bin_int,
    binary_data,
    binary_data_bin,
    binary_data_hex,
    binary_data_oct,
    bitand_expr,
    bitor_expr,
    bitxor_expr,
    block,
    break_command,
    closure,
    closure_args,
    code_block,
    command,
    commands,
    COMMENT,
    comp_expr,
    comp_op,
    comp_op_word,
    continue_command,
    date_fullyear,
    date_mday,
    date_month,
    date_or_datetime,
    date_sigil,
    date_time,
    dec_int,
    def_command,
    def_env_command,
    double_quote_interpolated_string,
    double_quote_string,
    double_quote_string_char,
    double_quote_string_inner,
    duration,
    EOI,
    expr,
    filesize,
    flag,
    float,
    for_command,
    full_date,
    full_time,
    hex_int,
    ident,
    ident_char,
    if_command,
    integer,
    interpolated_string,
    label,
    let_command,
    let_env_command,
    local_date_time,
    long_flag,
    mul_expr,
    mul_op,
    mul_op_word,
    mut_command,
    named_arg,
    nl,
    oct_int,
    or_expr,
    pair,
    param,
    params,
    paren_expr,
    partial_time,
    pathed_value,
    pipeline,
    plus_expr,
    plus_op,
    pow_expr,
    program,
    quotes,
    range,
    range_value,
    record,
    return_command,
    row_and_expr,
    row_bitand_expr,
    row_bitor_expr,
    row_bitxor_expr,
    row_comp_expr,
    row_condition,
    row_mul_expr,
    row_or_expr,
    row_plus_expr,
    row_pow_expr,
    row_shift_expr,
    row_value,
    shift_expr,
    shift_op_word,
    short_flag,
    single_quote_interpolated_string,
    single_quote_string,
    single_quote_string_char,
    single_quote_string_inner,
    sp,
    string,
    table,
    time_hour,
    time_minute,
    time_offset,
    time_secfrac,
    time_second,
    toplevel,
    traditional_call,
    traditional_call_arg,
    unit,
    unnamed_arg,
    user_command,
    value,
    variable,
    variable_char,
    variable_name,
    where_command,
    while_command,
    ws,
}

/// The production name under which each rule is written in the grammar.
pub open spec fn rule_name(r: Rule) -> Seq<char> {
    match r {
        Rule::and_expr => "and_expr"@,
        Rule::arg_list => "arg_list"@,
        Rule::array => "array"@,
        Rule::assignment => "assignment"@,
        Rule::assignment_operator => "assignment_operator"@,
        Rule::backtick_string => "backtick_string"@,
        Rule::backtick_string_char => "backtick_string_char"@,
        Rule::backtick_string_inner => "backtick_string_inner"@,
        Rule::bare_char => "bare_char"@,
        Rule::bare_follow_char => "bare_follow_char"@,
        Rule::bare_string => "bare_string"@,
        Rule::bare_value => "bare_value"@,
        Rule::bare_word => "bare_word"@,
        Rule::bin_int => "bin_int"@,
        Rule::binary_data => "binary_data"@,
        Rule::binary_data_bin => "binary_data_bin"@,
        Rule::binary_data_hex => "binary_data_hex"@,
        Rule::binary_data_oct => "binary_data_oct"@,
        Rule::bitand_expr => "bitand_expr"@,
        Rule::bitor_expr => "bitor_expr"@,
        Rule::bitxor_expr => "bitxor_expr"@,
        Rule::block => "block"@,
        Rule::break_command => "break_command"@,
        Rule::closure => "closure"@,
        Rule::closure_args => "closure_args"@,
        Rule::code_block => "code_block"@,
        Rule::command => "command"@,
        Rule::commands => "commands"@,
        Rule::COMMENT => "COMMENT"@,
        Rule::comp_expr => "comp_expr"@,
        Rule::comp_op => "comp_op"@,
        Rule::comp_op_word => "comp_op_word"@,
        Rule::continue_command => "continue_command"@,
        Rule::date_fullyear => "date_fullyear"@,
        Rule::date_mday => "date_mday"@,
        Rule::date_month => "date_month"@,
        Rule::date_or_datetime => "date_or_datetime"@,
        Rule::date_sigil => "date_sigil"@,
        Rule::date_time => "date_time"@,
        Rule::dec_int => "dec_int"@,
        Rule::def_command => "def_command"@,
        Rule::def_env_command => "def_env_command"@,
        Rule::double_quote_interpolated_string => "double_quote_interpolated_string"@,
        Rule::double_quote_string => "double_quote_string"@,
        Rule::double_quote_string_char => "double_quote_string_char"@,
        Rule::double_quote_string_inner => "double_quote_string_inner"@,
        Rule::duration => "duration"@,
        Rule::EOI => "EOI"@,
        Rule::expr => "expr"@,
        Rule::filesize => "filesize"@,
        Rule::flag => "flag"@,
        Rule::float => "float"@,
        Rule::for_command => "for_command"@,
        Rule::full_date => "full_date"@,
        Rule::full_time => "full_time"@,
        Rule::hex_int => "hex_int"@,
        Rule::ident => "ident"@,
        Rule::ident_char => "ident_char"@,
        Rule::if_command => "if_command"@,
        Rule::integer => "int"@,
        Rule::interpolated_string => "interpolated_string"@,
        Rule::label => "label"@,
        Rule::let_command => "let_command"@,
        Rule::let_env_command => "let_env_command"@,
        Rule::local_date_time => "local_date_time"@,
        Rule::long_flag => "long_flag"@,
        Rule::mul_expr => "mul_expr"@,
        Rule::mul_op => "mul_op"@,
        Rule::mul_op_word => "mul_op_word"@,
        Rule::mut_command => "mut_command"@,
        Rule::named_arg => "named_arg"@,
        Rule::nl => "nl"@,
        Rule::oct_int => "oct_int"@,
        Rule::or_expr => "or_expr"@,
        Rule::pair => "pair"@,
        Rule::param => "param"@,
        Rule::params => "params"@,
        Rule::paren_expr => "paren_expr"@,
        Rule::partial_time => "partial_time"@,
        Rule::pathed_value => "pathed_value"@,
        Rule::pipeline => "pipeline"@,
        Rule::plus_expr => "plus_expr"@,
        Rule::plus_op => "plus_op"@,
        Rule::pow_expr => "pow_expr"@,
        Rule::program => "program"@,
        Rule::quotes => "quotes"@,
        Rule::range => "range"@,
        Rule::range_value => "range_value"@,
        Rule::record => "record"@,
        Rule::return_command => "return_command"@,
        Rule::row_and_expr => "row_and_expr"@,
        Rule::row_bitand_expr => "row_bitand_expr"@,
        Rule::row_bitor_expr => "row_bitor_expr"@,
        Rule::row_bitxor_expr => "row_bitxor_expr"@,
        Rule::row_comp_expr => "row_comp_expr"@,
        Rule::row_condition => "row_condition"@,
        Rule::row_mul_expr => "row_mul_expr"@,
        Rule::row_or_expr => "row_or_expr"@,
        Rule::row_plus_expr => "row_plus_expr"@,
        Rule::row_pow_expr => "row_pow_expr"@,
        Rule::row_shift_expr => "row_shift_expr"@,
        Rule::row_value => "row_value"@,
        Rule::shift_expr => "shift_expr"@,
        Rule::shift_op_word => "shift_op_word"@,
        Rule::short_flag => "short_flag"@,
        Rule::single_quote_interpolated_string => "single_quote_interpolated_string"@,
        Rule::single_quote_string => "single_quote_string"@,
        Rule::single_quote_string_char => "single_quote_string_char"@,
        Rule::single_quote_string_inner => "single_quote_string_inner"@,
        Rule::sp => "sp"@,
        Rule::string => "string"@,
        Rule::table => "table"@,
        Rule::time_hour => "time_hour"@,
        Rule::time_minute => "time_minute"@,
        Rule::time_offset => "time_offset"@,
        Rule::time_secfrac => "time_secfrac"@,
        Rule::time_second => "time_second"@,
        Rule::toplevel => "toplevel"@,
        Rule::traditional_call => "traditional_call"@,
        Rule::traditional_call_arg => "traditional_call_arg"@,
        Rule::unit => "unit"@,
        Rule::unnamed_arg => "unnamed_arg"@,
        Rule::user_command => "user_command"@,
        Rule::value => "value"@,
        Rule::variable => "variable"@,
        Rule::variable_char => "variable_char"@,
        Rule::variable_name => "variable_name"@,
        Rule::where_command => "where_command"@,
        Rule::while_command => "while_command"@,
        Rule::ws => "ws"@,
    }
}

impl Rule {
    /// The grammar name of this rule.
    pub fn name(&self) -> (r: &'static str)
        ensures
            r@ == rule_name(*self),
    {
        match self {
            Rule::and_expr => "and_expr",
            Rule::arg_list => "arg_list",
            Rule::array => "array",
            Rule::assignment => "assignment",
            Rule::assignment_operator => "assignment_operator",
            Rule::backtick_string => "backtick_string",
            Rule::backtick_string_char => "backtick_string_char",
            Rule::backtick_string_inner => "backtick_string_inner",
            Rule::bare_char => "bare_char",
            Rule::bare_follow_char => "bare_follow_char",
            Rule::bare_string => "bare_string",
            Rule::bare_value => "bare_value",
            Rule::bare_word => "bare_word",
            Rule::bin_int => "bin_int",
            Rule::binary_data => "binary_data",
            Rule::binary_data_bin => "binary_data_bin",
            Rule::binary_data_hex => "binary_data_hex",
            Rule::binary_data_oct => "binary_data_oct",
            Rule::bitand_expr => "bitand_expr",
            Rule::bitor_expr => "bitor_expr",
            Rule::bitxor_expr => "bitxor_expr",
            Rule::block => "block",
            Rule::break_command => "break_command",
            Rule::closure => "closure",
            Rule::closure_args => "closure_args",
            Rule::code_block => "code_block",
            Rule::command => "command",
            Rule::commands => "commands",
            Rule::COMMENT => "COMMENT",
            Rule::comp_expr => "comp_expr",
            Rule::comp_op => "comp_op",
            Rule::comp_op_word => "comp_op_word",
            Rule::continue_command => "continue_command",
            Rule::date_fullyear => "date_fullyear",
            Rule::date_mday => "date_mday",
            Rule::date_month => "date_month",
            Rule::date_or_datetime => "date_or_datetime",
            Rule::date_sigil => "date_sigil",
            Rule::date_time => "date_time",
            Rule::dec_int => "dec_int",
            Rule::def_command => "def_command",
            Rule::def_env_command => "def_env_command",
            Rule::double_quote_interpolated_string => "double_quote_interpolated_string",
            Rule::double_quote_string => "double_quote_string",
            Rule::double_quote_string_char => "double_quote_string_char",
            Rule::double_quote_string_inner => "double_quote_string_inner",
            Rule::duration => "duration",
            Rule::EOI => "EOI",
            Rule::expr => "expr",
            Rule::filesize => "filesize",
            Rule::flag => "flag",
            Rule::float => "float",
            Rule::for_command => "for_command",
            Rule::full_date => "full_date",
            Rule::full_time => "full_time",
            Rule::hex_int => "hex_int",
            Rule::ident => "ident",
            Rule::ident_char => "ident_char",
            Rule::if_command => "if_command",
            Rule::integer => "int",
            Rule::interpolated_string => "interpolated_string",
            Rule::label => "label",
            Rule::let_command => "let_command",
            Rule::let_env_command => "let_env_command",
            Rule::local_date_time => "local_date_time",
            Rule::long_flag => "long_flag",
            Rule::mul_expr => "mul_expr",
            Rule::mul_op => "mul_op",
            Rule::mul_op_word => "mul_op_word",
            Rule::mut_command => "mut_command",
            Rule::named_arg => "named_arg",
            Rule::nl => "nl",
            Rule::oct_int => "oct_int",
            Rule::or_expr => "or_expr",
            Rule::pair => "pair",
            Rule::param => "param",
            Rule::params => "params",
            Rule::paren_expr => "paren_expr",
            Rule::partial_time => "partial_time",
            Rule::pathed_value => "pathed_value",
            Rule::pipeline => "pipeline",
            Rule::plus_expr => "plus_expr",
            Rule::plus_op => "plus_op",
            Rule::pow_expr => "pow_expr",
            Rule::program => "program",
            Rule::quotes => "quotes",
            Rule::range => "range",
            Rule::range_value => "range_value",
            Rule::record => "record",
            Rule::return_command => "return_command",
            Rule::row_and_expr => "row_and_expr",
            Rule::row_bitand_expr => "row_bitand_expr",
            Rule::row_bitor_expr => "row_bitor_expr",
            Rule::row_bitxor_expr => "row_bitxor_expr",
            Rule::row_comp_expr => "row_comp_expr",
            Rule::row_condition => "row_condition",
            Rule::row_mul_expr => "row_mul_expr",
            Rule::row_or_expr => "row_or_expr",
            Rule::row_plus_expr => "row_plus_expr",
            Rule::row_pow_expr => "row_pow_expr",
            Rule::row_shift_expr => "row_shift_expr",
            Rule::row_value => "row_value",
            Rule::shift_expr => "shift_expr",
            Rule::shift_op_word => "shift_op_word",
            Rule::short_flag => "short_flag",
            Rule::single_quote_interpolated_string => "single_quote_interpolated_string",
            Rule::single_quote_string => "single_quote_string",
            Rule::single_quote_string_char => "single_quote_string_char",
            Rule::single_quote_string_inner => "single_quote_string_inner",
            Rule::sp => "sp",
            Rule::string => "string",
            Rule::table => "table",
            Rule::time_hour => "time_hour",
            Rule::time_minute => "time_minute",
            Rule::time_offset => "time_offset",
            Rule::time_secfrac => "time_secfrac",
            Rule::time_second => "time_second",
            Rule::toplevel => "toplevel",
            Rule::traditional_call => "traditional_call",
            Rule::traditional_call_arg => "traditional_call_arg",
            Rule::unit => "unit",
            Rule::unnamed_arg => "unnamed_arg",
            Rule::user_command => "user_command",
            Rule::value => "value",
            Rule::variable => "variable",
            Rule::variable_char => "variable_char",
            Rule::variable_name => "variable_name",
            Rule::where_command => "where_command",
            Rule::while_command => "while_command",
            Rule::ws => "ws",
        }
    }
}

/// Looks a rule up by its exact, case-sensitive production name.
pub fn get_rule(rule_str: &str) -> (r: Option<Rule>)
    ensures
        match r {
            Some(x) => rule_name(x) == rule_str@,
            None => forall|x: Rule| rule_name(x) != rule_str@,
        },
{
    if str_eq(rule_str, "and_expr") {
        return Some(Rule::and_expr);
    }
    if str_eq(rule_str, "arg_list") {
        return Some(Rule::arg_list);
    }
    if str_eq(rule_str, "array") {
        return Some(Rule::array);
    }
    if str_eq(rule_str, "assignment") {
        return Some(Rule::assignment);
    }
    if str_eq(rule_str, "assignment_operator") {
        return Some(Rule::assignment_operator);
    }
    if str_eq(rule_str, "backtick_string") {
        return Some(Rule::backtick_string);
    }
    if str_eq(rule_str, "backtick_string_char") {
        return Some(Rule::backtick_string_char);
    }
    if str_eq(rule_str, "backtick_string_inner") {
        return Some(Rule::backtick_string_inner);
    }
    if str_eq(rule_str, "bare_char") {
        return Some(Rule::bare_char);
    }
    if str_eq(rule_str, "bare_follow_char") {
        return Some(Rule::bare_follow_char);
    }
    if str_eq(rule_str, "bare_string") {
        return Some(Rule::bare_string);
    }
    if str_eq(rule_str, "bare_value") {
        return Some(Rule::bare_value);
    }
    if str_eq(rule_str, "bare_word") {
        return Some(Rule::bare_word);
    }
    if str_eq(rule_str, "bin_int") {
        return Some(Rule::bin_int);
    }
    if str_eq(rule_str, "binary_data") {
        return Some(Rule::binary_data);
    }
    if str_eq(rule_str, "binary_data_bin") {
        return Some(Rule::binary_data_bin);
    }
    if str_eq(rule_str, "binary_data_hex") {
        return Some(Rule::binary_data_hex);
    }
    if str_eq(rule_str, "binary_data_oct") {
        return Some(Rule::binary_data_oct);
    }
    if str_eq(rule_str, "bitand_expr") {
        return Some(Rule::bitand_expr);
    }
    if str_eq(rule_str, "bitor_expr") {
        return Some(Rule::bitor_expr);
    }
    if str_eq(rule_str, "bitxor_expr") {
        return Some(Rule::bitxor_expr);
    }
    if str_eq(rule_str, "block") {
        return Some(Rule::block);
    }
    if str_eq(rule_str, "break_command") {
        return Some(Rule::break_command);
    }
    if str_eq(rule_str, "closure") {
        return Some(Rule::closure);
    }
    if str_eq(rule_str, "closure_args") {
        return Some(Rule::closure_args);
    }
    if str_eq(rule_str, "code_block") {
        return Some(Rule::code_block);
    }
    if str_eq(rule_str, "command") {
        return Some(Rule::command);
    }
    if str_eq(rule_str, "commands") {
        return Some(Rule::commands);
    }
    if str_eq(rule_str, "COMMENT") {
        return Some(Rule::COMMENT);
    }
    if str_eq(rule_str, "comp_expr") {
        return Some(Rule::comp_expr);
    }
    if str_eq(rule_str, "comp_op") {
        return Some(Rule::comp_op);
    }
    if str_eq(rule_str, "comp_op_word") {
        return Some(Rule::comp_op_word);
    }
    if str_eq(rule_str, "continue_command") {
        return Some(Rule::continue_command);
    }
    if str_eq(rule_str, "date_fullyear") {
        return Some(Rule::date_fullyear);
    }
    if str_eq(rule_str, "date_mday") {
        return Some(Rule::date_mday);
    }
    if str_eq(rule_str, "date_month") {
        return Some(Rule::date_month);
    }
    if str_eq(rule_str, "date_or_datetime") {
        return Some(Rule::date_or_datetime);
    }
    if str_eq(rule_str, "date_sigil") {
        return Some(Rule::date_sigil);
    }
    if str_eq(rule_str, "date_time") {
        return Some(Rule::date_time);
    }
    if str_eq(rule_str, "dec_int") {
        return Some(Rule::dec_int);
    }
    if str_eq(rule_str, "def_command") {
        return Some(Rule::def_command);
    }
    if str_eq(rule_str, "def_env_command") {
        return Some(Rule::def_env_command);
    }
    if str_eq(rule_str, "double_quote_interpolated_string") {
        return Some(Rule::double_quote_interpolated_string);
    }
    if str_eq(rule_str, "double_quote_string") {
        return Some(Rule::double_quote_string);
    }
    if str_eq(rule_str, "double_quote_string_char") {
        return Some(Rule::double_quote_string_char);
    }
    if str_eq(rule_str, "double_quote_string_inner") {
        return Some(Rule::double_quote_string_inner);
    }
    if str_eq(rule_str, "duration") {
        return Some(Rule::duration);
    }
    if str_eq(rule_str, "EOI") {
        return Some(Rule::EOI);
    }
    if str_eq(rule_str, "expr") {
        return Some(Rule::expr);
    }
    if str_eq(rule_str, "filesize") {
        return Some(Rule::filesize);
    }
    if str_eq(rule_str, "flag") {
        return Some(Rule::flag);
    }
    if str_eq(rule_str, "float") {
        return Some(Rule::float);
    }
    if str_eq(rule_str, "for_command") {
        return Some(Rule::for_command);
    }
    if str_eq(rule_str, "full_date") {
        return Some(Rule::full_date);
    }
    if str_eq(rule_str, "full_time") {
        return Some(Rule::full_time);
    }
    if str_eq(rule_str, "hex_int") {
        return Some(Rule::hex_int);
    }
    if str_eq(rule_str, "ident") {
        return Some(Rule::ident);
    }
    if str_eq(rule_str, "ident_char") {
        return Some(Rule::ident_char);
    }
    if str_eq(rule_str, "if_command") {
        return Some(Rule::if_command);
    }
    if str_eq(rule_str, "int") {
        return Some(Rule::integer);
    }
    if str_eq(rule_str, "interpolated_string") {
        return Some(Rule::interpolated_string);
    }
    if str_eq(rule_str, "label") {
        return Some(Rule::label);
    }
    if str_eq(rule_str, "let_command") {
        return Some(Rule::let_command);
    }
    if str_eq(rule_str, "let_env_command") {
        return Some(Rule::let_env_command);
    }
    if str_eq(rule_str, "local_date_time") {
        return Some(Rule::local_date_time);
    }
    if str_eq(rule_str, "long_flag") {
        return Some(Rule::long_flag);
    }
    if str_eq(rule_str, "mul_expr") {
        return Some(Rule::mul_expr);
    }
    if str_eq(rule_str, "mul_op") {
        return Some(Rule::mul_op);
    }
    if str_eq(rule_str, "mul_op_word") {
        return Some(Rule::mul_op_word);
    }
    if str_eq(rule_str, "mut_command") {
        return Some(Rule::mut_command);
    }
    if str_eq(rule_str, "named_arg") {
        return Some(Rule::named_arg);
    }
    if str_eq(rule_str, "nl") {
        return Some(Rule::nl);
    }
    if str_eq(rule_str, "oct_int") {
        return Some(Rule::oct_int);
    }
    if str_eq(rule_str, "or_expr") {
        return Some(Rule::or_expr);
    }
    if str_eq(rule_str, "pair") {
        return Some(Rule::pair);
    }
    if str_eq(rule_str, "param") {
        return Some(Rule::param);
    }
    if str_eq(rule_str, "params") {
        return Some(Rule::params);
    }
    if str_eq(rule_str, "paren_expr") {
        return Some(Rule::paren_expr);
    }
    if str_eq(rule_str, "partial_time") {
        return Some(Rule::partial_time);
    }
    if str_eq(rule_str, "pathed_value") {
        return Some(Rule::pathed_value);
    }
    if str_eq(rule_str, "pipeline") {
        return Some(Rule::pipeline);
    }
    if str_eq(rule_str, "plus_expr") {
        return Some(Rule::plus_expr);
    }
    if str_eq(rule_str, "plus_op") {
        return Some(Rule::plus_op);
    }
    if str_eq(rule_str, "pow_expr") {
        return Some(Rule::pow_expr);
    }
    if str_eq(rule_str, "program") {
        return Some(Rule::program);
    }
    if str_eq(rule_str, "quotes") {
        return Some(Rule::quotes);
    }
    if str_eq(rule_str, "range") {
        return Some(Rule::range);
    }
    if str_eq(rule_str, "range_value") {
        return Some(Rule::range_value);
    }
    if str_eq(rule_str, "record") {
        return Some(Rule::record);
    }
    if str_eq(rule_str, "return_command") {
        return Some(Rule::return_command);
    }
    if str_eq(rule_str, "row_and_expr") {
        return Some(Rule::row_and_expr);
    }
    if str_eq(rule_str, "row_bitand_expr") {
        return Some(Rule::row_bitand_expr);
    }
    if str_eq(rule_str, "row_bitor_expr") {
        return Some(Rule::row_bitor_expr);
    }
    if str_eq(rule_str, "row_bitxor_expr") {
        return Some(Rule::row_bitxor_expr);
    }
    if str_eq(rule_str, "row_comp_expr") {
        return Some(Rule::row_comp_expr);
    }
    if str_eq(rule_str, "row_condition") {
        return Some(Rule::row_condition);
    }
    if str_eq(rule_str, "row_mul_expr") {
        return Some(Rule::row_mul_expr);
    }
    if str_eq(rule_str, "row_or_expr") {
        return Some(Rule::row_or_expr);
    }
    if str_eq(rule_str, "row_plus_expr") {
        return Some(Rule::row_plus_expr);
    }
    if str_eq(rule_str, "row_pow_expr") {
        return Some(Rule::row_pow_expr);
    }
    if str_eq(rule_str, "row_shift_expr") {
        return Some(Rule::row_shift_expr);
    }
    if str_eq(rule_str, "row_value") {
        return Some(Rule::row_value);
    }
    if str_eq(rule_str, "shift_expr") {
        return Some(Rule::shift_expr);
    }
    if str_eq(rule_str, "shift_op_word") {
        return Some(Rule::shift_op_word);
    }
    if str_eq(rule_str, "short_flag") {
        return Some(Rule::short_flag);
    }
    if str_eq(rule_str, "single_quote_interpolated_string") {
        return Some(Rule::single_quote_interpolated_string);
    }
    if str_eq(rule_str, "single_quote_string") {
        return Some(Rule::single_quote_string);
    }
    if str_eq(rule_str, "single_quote_string_char") {
        return Some(Rule::single_quote_string_char);
    }
    if str_eq(rule_str, "single_quote_string_inner") {
        return Some(Rule::single_quote_string_inner);
    }
    if str_eq(rule_str, "sp") {
        return Some(Rule::sp);
    }
    if str_eq(rule_str, "string") {
        return Some(Rule::string);
    }
    if str_eq(rule_str, "table") {
        return Some(Rule::table);
    }
    if str_eq(rule_str, "time_hour") {
        return Some(Rule::time_hour);
    }
    if str_eq(rule_str, "time_minute") {
        return Some(Rule::time_minute);
    }
    if str_eq(rule_str, "time_offset") {
        return Some(Rule::time_offset);
    }
    if str_eq(rule_str, "time_secfrac") {
        return Some(Rule::time_secfrac);
    }
    if str_eq(rule_str, "time_second") {
        return Some(Rule::time_second);
    }
    if str_eq(rule_str, "toplevel") {
        return Some(Rule::toplevel);
    }
    if str_eq(rule_str, "traditional_call") {
        return Some(Rule::traditional_call);
    }
    if str_eq(rule_str, "traditional_call_arg") {
        return Some(Rule::traditional_call_arg);
    }
    if str_eq(rule_str, "unit") {
        return Some(Rule::unit);
    }
    if str_eq(rule_str, "unnamed_arg") {
        return Some(Rule::unnamed_arg);
    }
    if str_eq(rule_str, "user_command") {
        return Some(Rule::user_command);
    }
    if str_eq(rule_str, "value") {
        return Some(Rule::value);
    }
    if str_eq(rule_str, "variable") {
        return Some(Rule::variable);
    }
    if str_eq(rule_str, "variable_char") {
        return Some(Rule::variable_char);
    }
    if str_eq(rule_str, "variable_name") {
        return Some(Rule::variable_name);
    }
    if str_eq(rule_str, "where_command") {
        return Some(Rule::where_command);
    }
    if str_eq(rule_str, "while_command") {
        return Some(Rule::while_command);
    }
    if str_eq(rule_str, "ws") {
        return Some(Rule::ws);
    }
    None
}

} // verus!
