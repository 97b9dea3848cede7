use vstd::prelude::*;
use crate::rule::{get_rule, rule_name, Rule};
use crate::text::str_eq;
use vstd::string::*;

verus! {

/// The options of one run, read from the command line.
#[derive(Debug)]
pub struct Args {
    pub file_mode: bool,
    pub file_name: String,
    pub string_mode: bool,
    pub string: String,
    pub diagnostic_mode: bool,
    pub expression_mode: bool,
    pub rule_mode: bool,
    pub rule: Rule,
}

/// Why the command line was refused.
#[derive(Debug)]
pub enum ArgsError {
    UnknownArgument(String),
    UnknownRule(String),
    FileAndString,
    DiagnosticAndExpression,
}

/// What the next argument is awaited as.
#[derive(Clone, Copy, PartialEq, Eq, Structural)]
pub enum Pending {
    Nothing,
    FileName,
    Text,
    RuleName,
}

/// The state of a left-to-right scan over the arguments.
pub struct ScanState {
    pub pending: Pending,
    pub file_name: Seq<char>,
    pub string: Seq<char>,
    pub diagnostic: bool,
    pub expression: bool,
    pub rule: Option<Seq<char>>,
}

/// The mathematical value of an `ArgsError`.
pub enum ArgsErrorModel {
    UnknownArgument(Seq<char>),
    UnknownRule(Seq<char>),
    FileAndString,
    DiagnosticAndExpression,
}

/// The mathematical value of `Args`; the rule is given by its grammar name.
pub struct ArgsModel {
    pub file_mode: bool,
    pub file_name: Seq<char>,
    pub string_mode: bool,
    pub string: Seq<char>,
    pub diagnostic_mode: bool,
    pub expression_mode: bool,
    pub rule_mode: bool,
    pub rule: Seq<char>,
}

impl Args {
    pub open spec fn model(&self) -> ArgsModel {
        ArgsModel {
            file_mode: self.file_mode,
            file_name: self.file_name@,
            string_mode: self.string_mode,
            string: self.string@,
            diagnostic_mode: self.diagnostic_mode,
            expression_mode: self.expression_mode,
            rule_mode: self.rule_mode,
            rule: rule_name(self.rule),
        }
    }
}

impl ArgsError {
    pub open spec fn model(&self) -> ArgsErrorModel {
        match self {
            ArgsError::UnknownArgument(a) => ArgsErrorModel::UnknownArgument(a@),
            ArgsError::UnknownRule(a) => ArgsErrorModel::UnknownRule(a@),
            ArgsError::FileAndString => ArgsErrorModel::FileAndString,
            ArgsError::DiagnosticAndExpression => ArgsErrorModel::DiagnosticAndExpression,
        }
    }
}

pub open spec fn initial_state() -> ScanState {
    ScanState {
        pending: Pending::Nothing,
        file_name: Seq::empty(),
        string: Seq::empty(),
        diagnostic: false,
        expression: false,
        rule: None,
    }
}

/// Whether some rule is written `a` in the grammar.
pub open spec fn names_rule(a: Seq<char>) -> bool {
    exists|x: Rule| rule_name(x) == a
}

/// One argument of the scan: the value an option awaits, or else an option.
pub open spec fn step(st: ScanState, a: Seq<char>) -> Result<ScanState, ArgsErrorModel> {
    match st.pending {
        Pending::FileName => Ok(ScanState { pending: Pending::Nothing, file_name: a, ..st }),
        Pending::Text => Ok(ScanState { pending: Pending::Nothing, string: a, ..st }),
        Pending::RuleName => if names_rule(a) {
            Ok(ScanState { pending: Pending::Nothing, rule: Some(a), ..st })
        } else {
            Err(ArgsErrorModel::UnknownRule(a))
        },
        Pending::Nothing => if a == "-f"@ || a == "--file"@ {
            Ok(ScanState { pending: Pending::FileName, ..st })
        } else if a == "-s"@ || a == "--string"@ {
            Ok(ScanState { pending: Pending::Text, ..st })
        } else if a == "-d"@ || a == "--diagnostic"@ {
            Ok(ScanState { diagnostic: true, ..st })
        } else if a == "-e"@ || a == "--expression"@ {
            Ok(ScanState { expression: true, ..st })
        } else if a == "-r"@ || a == "--rule"@ {
            Ok(ScanState { pending: Pending::RuleName, ..st })
        } else {
            Err(ArgsErrorModel::UnknownArgument(a))
        },
    }
}

/// The scan over a sequence of arguments, stopping at the first refused one.
pub open spec fn scan(args: Seq<Seq<char>>) -> Result<ScanState, ArgsErrorModel>
    decreases args.len(),
{
    if args.len() == 0 {
        Ok(initial_state())
    } else {
        match scan(args.drop_last()) {
            Err(e) => Err(e),
            Ok(st) => step(st, args.last()),
        }
    }
}

/// The options that a finished scan gives: a mode is on when its value is non-empty,
/// and the rule defaults to the whole program.
pub open spec fn finish(st: ScanState) -> Result<ArgsModel, ArgsErrorModel> {
    if st.file_name.len() > 0 && st.string.len() > 0 {
        Err(ArgsErrorModel::FileAndString)
    } else if st.diagnostic && st.expression {
        Err(ArgsErrorModel::DiagnosticAndExpression)
    } else {
        Ok(
            ArgsModel {
                file_mode: st.file_name.len() > 0,
                file_name: st.file_name,
                string_mode: st.string.len() > 0,
                string: st.string,
                diagnostic_mode: st.diagnostic,
                expression_mode: st.expression,
                rule_mode: st.rule is Some,
                rule: match st.rule {
                    Some(n) => n,
                    None => rule_name(Rule::program),
                },
            },
        )
    }
}

/// What the command line `args` (without the program name) gives.
pub open spec fn parse_args(args: Seq<Seq<char>>) -> Result<ArgsModel, ArgsErrorModel> {
    match scan(args) {
        Err(e) => Err(e),
        Ok(st) => finish(st),
    }
}

/// The views of a list of strings.
pub open spec fn views(args: Seq<String>) -> Seq<Seq<char>> {
    args.map_values(|s: String| s@)
}

proof fn lemma_scan_error_stays(s: Seq<Seq<char>>, k: int)
    requires
        0 <= k <= s.len(),
        scan(s.take(k)) is Err,
    ensures
        scan(s) == scan(s.take(k)),
    decreases s.len() - k,
{
    if k < s.len() {
        assert(s.take(k + 1).drop_last() =~= s.take(k));
        lemma_scan_error_stays(s, k + 1);
    } else {
        assert(s.take(k) =~= s);
    }
}

fn is_either(a: &str, short: &str, long: &str) -> (r: bool)
    ensures
        r == (a@ == short@ || a@ == long@),
{
    str_eq(a, short) || str_eq(a, long)
}

/// Reads the command line `args`, the program name left out.
pub fn parse_command_line_args(args: &Vec<String>) -> (r: Result<Args, ArgsError>)
    ensures
        match r {
            Ok(a) => parse_args(views(args@)) == Ok::<_, ArgsErrorModel>(a.model()),
            Err(e) => parse_args(views(args@)) == Err::<ArgsModel, _>(e.model()),
        },
{
    let mut pending = Pending::Nothing;
    let mut file_name = String::new();
    let mut string = String::new();
    let mut diagnostic_mode = false;
    let mut expression_mode = false;
    let mut rule: Option<Rule> = None;
    let ghost mut rule_text: Option<Seq<char>> = None;
    let mut i: usize = 0;
    while i < args.len()
        invariant
            i <= args@.len(),
            scan(views(args@).take(i as int)) == Ok::<_, ArgsErrorModel>(
                ScanState {
                    pending,
                    file_name: file_name@,
                    string: string@,
                    diagnostic: diagnostic_mode,
                    expression: expression_mode,
                    rule: rule_text,
                },
            ),
            match rule_text {
                Some(n) => rule matches Some(x) && rule_name(x) == n,
                None => rule is None,
            },
        decreases args@.len() - i,
    {
        let a = args[i].as_str();
        let ghost before = views(args@).take(i as int);
        proof {
            assert(views(args@).take(i + 1).drop_last() =~= before);
            assert(views(args@).take(i + 1).last() == a@);
        }
        match pending {
            Pending::FileName => {
                file_name = args[i].clone();
                pending = Pending::Nothing;
            },
            Pending::Text => {
                string = args[i].clone();
                pending = Pending::Nothing;
            },
            Pending::RuleName => {
                match get_rule(a) {
                    Some(x) => {
                        rule = Some(x);
                        proof {
                            rule_text = Some(a@);
                        }
                        pending = Pending::Nothing;
                    },
                    None => {
                        proof {
                            lemma_scan_error_stays(views(args@), i + 1);
                        }
                        return Err(ArgsError::UnknownRule(args[i].clone()));
                    },
                }
            },
            Pending::Nothing => {
                if is_either(a, "-f", "--file") {
                    pending = Pending::FileName;
                } else if is_either(a, "-s", "--string") {
                    pending = Pending::Text;
                } else if is_either(a, "-d", "--diagnostic") {
                    diagnostic_mode = true;
                } else if is_either(a, "-e", "--expression") {
                    expression_mode = true;
                } else if is_either(a, "-r", "--rule") {
                    pending = Pending::RuleName;
                } else {
                    proof {
                        lemma_scan_error_stays(views(args@), i + 1);
                    }
                    return Err(ArgsError::UnknownArgument(args[i].clone()));
                }
            },
        }
        i = i + 1;
    }
    proof {
        assert(views(args@).take(args@.len() as int) =~= views(args@));
    }
    let file_mode = file_name.as_str().unicode_len() > 0;
    let string_mode = string.as_str().unicode_len() > 0;
    if file_mode && string_mode {
        return Err(ArgsError::FileAndString);
    }
    if diagnostic_mode && expression_mode {
        return Err(ArgsError::DiagnosticAndExpression);
    }
    let rule_mode = rule.is_some();
    let chosen = match rule {
        Some(x) => x,
        None => Rule::program,
    };
    Ok(
        Args {
            file_mode,
            file_name,
            string_mode,
            string,
            diagnostic_mode,
            expression_mode,
            rule_mode,
            rule: chosen,
        },
    )
}

} // verus!
