//! The command model and its parser: exactly one of the three subcommands
//! `login`, `test` and `submit` is recognized from the invocation's tokens,
//! each with its own option set, and a fully typed command value (or a typed
//! usage error) is handed to the caller.
//!
//! The grammar is token-based: an option takes its value from the next token,
//! taken verbatim; a token that begins with `-` must spell a known option of
//! the subcommand; every other token is a positional. A leading `boj` token
//! (left by a cargo-style launcher) is skipped.

use vstd::prelude::*;

use crate::code_open::CodeOpen;
use crate::code_open::spec_parse_code_open;
use crate::lang::LanguageType;
use crate::lang::LanguageTypeV;
use crate::lang::spec_parse_language;
use crate::strutil::starts_with_dash;
use crate::strutil::str_eq;

verus! {

/// The pair of judge session cookies stored by `login`.
#[derive(Debug, Clone, PartialEq, Eq)]
pub struct Cookies {
    /// Value of the judge's `bojautologin` cookie.
    pub bojautologin: String,
    /// Value of the judge's `OnlineJudge` cookie.
    pub onlinejudge: String,
}

/// Mathematical image of [`Cookies`].
pub ghost struct CookiesV {
    pub bojautologin: Seq<char>,
    pub onlinejudge: Seq<char>,
}

impl DeepView for Cookies {
    type V = CookiesV;

    open spec fn deep_view(&self) -> CookiesV {
        CookiesV { bojautologin: self.bojautologin@, onlinejudge: self.onlinejudge@ }
    }
}

/// The `login` command: store credentials, optionally supplied inline.
#[derive(Debug, Clone, PartialEq, Eq)]
pub struct Login {
    pub cookies: Option<Cookies>,
}

/// Mathematical image of [`Login`].
pub ghost struct LoginV {
    pub cookies: Option<CookiesV>,
}

impl DeepView for Login {
    type V = LoginV;

    open spec fn deep_view(&self) -> LoginV {
        LoginV { cookies: self.cookies.deep_view() }
    }
}

/// How the `test` command runs the solution: either a bin of the current
/// crate or an arbitrary command line, never both.
#[derive(Debug, Clone, PartialEq, Eq)]
pub enum BinOrCmd {
    Bin(String),
    Cmd(String),
}

/// Mathematical image of [`BinOrCmd`].
pub ghost enum BinOrCmdV {
    Bin(Seq<char>),
    Cmd(Seq<char>),
}

impl DeepView for BinOrCmd {
    type V = BinOrCmdV;

    open spec fn deep_view(&self) -> BinOrCmdV {
        match self {
            BinOrCmd::Bin(s) => BinOrCmdV::Bin(s@),
            BinOrCmd::Cmd(s) => BinOrCmdV::Cmd(s@),
        }
    }
}

/// The `test` command: run a solution against the problem's example tests.
#[derive(Debug, Clone, PartialEq, Eq)]
pub struct Test {
    /// Judge-defined problem identifier; opaque, required.
    pub problem_id: String,
    /// How to run the solution, when not the default.
    pub bin_or_cmd: Option<BinOrCmd>,
    /// Ask for confirmation before running special-judge problems.
    pub spj_prompt: bool,
    /// Refresh the cached problem data.
    pub refresh: bool,
}

/// Mathematical image of [`Test`].
pub ghost struct TestV {
    pub problem_id: Seq<char>,
    pub bin_or_cmd: Option<BinOrCmdV>,
    pub spj_prompt: bool,
    pub refresh: bool,
}

impl DeepView for Test {
    type V = TestV;

    open spec fn deep_view(&self) -> TestV {
        TestV {
            problem_id: self.problem_id@,
            bin_or_cmd: self.bin_or_cmd.deep_view(),
            spj_prompt: self.spj_prompt,
            refresh: self.refresh,
        }
    }
}

/// The `submit` command: send a solution to the judge. The language
/// selector is carried unresolved; resolution happens at submission time.
#[derive(Debug, Clone, PartialEq, Eq)]
pub struct Submit {
    /// Judge-defined problem identifier; opaque, required.
    pub problem_id: String,
    /// File to submit; the executor picks a default when absent.
    pub path: Option<String>,
    /// Unresolved language selector, when one was supplied.
    pub language: Option<LanguageType>,
    /// Code-visibility policy, when one was supplied.
    pub code_open: Option<CodeOpen>,
}

/// Mathematical image of [`Submit`].
pub ghost struct SubmitV {
    pub problem_id: Seq<char>,
    pub path: Option<Seq<char>>,
    pub language: Option<LanguageTypeV>,
    pub code_open: Option<CodeOpen>,
}

impl DeepView for Submit {
    type V = SubmitV;

    open spec fn deep_view(&self) -> SubmitV {
        SubmitV {
            problem_id: self.problem_id@,
            path: self.path.deep_view(),
            language: self.language.deep_view(),
            code_open: self.code_open.deep_view(),
        }
    }
}

/// The one command an invocation selects.
#[derive(Debug, Clone, PartialEq, Eq)]
pub enum Opts {
    Login(Login),
    Test(Test),
    Submit(Submit),
}

/// Mathematical image of [`Opts`].
pub ghost enum OptsV {
    Login(LoginV),
    Test(TestV),
    Submit(SubmitV),
}

impl DeepView for Opts {
    type V = OptsV;

    open spec fn deep_view(&self) -> OptsV {
        match self {
            Opts::Login(l) => OptsV::Login(l.deep_view()),
            Opts::Test(t) => OptsV::Test(t.deep_view()),
            Opts::Submit(s) => OptsV::Submit(s.deep_view()),
        }
    }
}

/// A usage error: the invocation was rejected before any command value was
/// built. Each variant names the offending token where there is one.
#[derive(Debug, Clone, PartialEq, Eq)]
pub enum CliError {
    /// No command word was present.
    MissingCommand,
    /// The command word is none of `login`, `test`, `submit`.
    UnknownCommand(String),
    /// The subcommand requires a problem id and none was given.
    MissingProblemId,
    /// A second positional token after the problem id, or a positional
    /// where none is accepted.
    UnexpectedArgument(String),
    /// A `-` token that is no option of the subcommand.
    UnknownFlag(String),
    /// An option that takes a value stood last, with no token after it.
    MissingValue(String),
    /// An option, or a switch, was supplied twice.
    DuplicateFlag(String),
    /// `test` was given both a bin and a command line.
    BinAndCmd,
    /// Only one of the two cookie options of `login` was supplied.
    IncompleteCookiePair(String),
    /// The code-visibility value was none of `y`, `n`, `ac`.
    BadCodeOpen(String),
}

/// Mathematical image of [`CliError`].
pub ghost enum CliErrorV {
    MissingCommand,
    UnknownCommand(Seq<char>),
    MissingProblemId,
    UnexpectedArgument(Seq<char>),
    UnknownFlag(Seq<char>),
    MissingValue(Seq<char>),
    DuplicateFlag(Seq<char>),
    BinAndCmd,
    IncompleteCookiePair(Seq<char>),
    BadCodeOpen(Seq<char>),
}

impl DeepView for CliError {
    type V = CliErrorV;

    open spec fn deep_view(&self) -> CliErrorV {
        match self {
            CliError::MissingCommand => CliErrorV::MissingCommand,
            CliError::UnknownCommand(s) => CliErrorV::UnknownCommand(s@),
            CliError::MissingProblemId => CliErrorV::MissingProblemId,
            CliError::UnexpectedArgument(s) => CliErrorV::UnexpectedArgument(s@),
            CliError::UnknownFlag(s) => CliErrorV::UnknownFlag(s@),
            CliError::MissingValue(s) => CliErrorV::MissingValue(s@),
            CliError::DuplicateFlag(s) => CliErrorV::DuplicateFlag(s@),
            CliError::BinAndCmd => CliErrorV::BinAndCmd,
            CliError::IncompleteCookiePair(s) => CliErrorV::IncompleteCookiePair(s@),
            CliError::BadCodeOpen(s) => CliErrorV::BadCodeOpen(s@),
        }
    }
}

/// The usage message a rejected invocation is reported with, naming the
/// offending token where there is one.
pub open spec fn spec_message(e: CliErrorV) -> Seq<char> {
    match e {
        CliErrorV::MissingCommand => "expected one of `login`, `test`, `submit`"@,
        CliErrorV::UnknownCommand(c) => "unknown command `"@ + c + "`"@,
        CliErrorV::MissingProblemId => "expected a problem id"@,
        CliErrorV::UnexpectedArgument(a) => "unexpected argument `"@ + a + "`"@,
        CliErrorV::UnknownFlag(f) => "unknown flag `"@ + f + "`"@,
        CliErrorV::MissingValue(f) => "flag `"@ + f + "` expects a value"@,
        CliErrorV::DuplicateFlag(f) => "flag `"@ + f + "` was supplied more than once"@,
        CliErrorV::BinAndCmd => "`--bin` and `--cmd` cannot be supplied together"@,
        CliErrorV::IncompleteCookiePair(f) => "flag `"@ + f
            + "` was supplied without the other cookie flag"@,
        CliErrorV::BadCodeOpen(_) => "provided string was not `y`, `n`, or `ac`"@,
    }
}

impl CliError {
    /// Human-readable usage message for this rejection.
    pub fn message(&self) -> (r: String)
        ensures
            r@ == spec_message(self.deep_view()),
    {
        match self {
            CliError::MissingCommand => String::from_str(
                "expected one of `login`, `test`, `submit`",
            ),
            CliError::UnknownCommand(c) => String::from_str("unknown command `").concat(
                c.as_str(),
            ).concat("`"),
            CliError::MissingProblemId => String::from_str("expected a problem id"),
            CliError::UnexpectedArgument(a) => String::from_str("unexpected argument `").concat(
                a.as_str(),
            ).concat("`"),
            CliError::UnknownFlag(f) => String::from_str("unknown flag `").concat(
                f.as_str(),
            ).concat("`"),
            CliError::MissingValue(f) => String::from_str("flag `").concat(f.as_str()).concat(
                "` expects a value",
            ),
            CliError::DuplicateFlag(f) => String::from_str("flag `").concat(f.as_str()).concat(
                "` was supplied more than once",
            ),
            CliError::BinAndCmd => String::from_str(
                "`--bin` and `--cmd` cannot be supplied together",
            ),
            CliError::IncompleteCookiePair(f) => String::from_str("flag `").concat(
                f.as_str(),
            ).concat("` was supplied without the other cookie flag"),
            CliError::BadCodeOpen(_) => String::from_str(
                "provided string was not `y`, `n`, or `ac`",
            ),
        }
    }
}

/// Whether the executable result is the image of the specified one.
pub open spec fn result_agrees<T: DeepView, E: DeepView>(
    r: Result<T, E>,
    s: Result<T::V, E::V>,
) -> bool {
    match r {
        Ok(t) => s == Ok::<T::V, E::V>(t.deep_view()),
        Err(e) => s == Err::<T::V, E::V>(e.deep_view()),
    }
}

/// What parsing the tokens of `login` from position `i` onward yields, given
/// the cookie values collected so far. Both cookie options are optional, but
/// the pair is assembled as a unit: supplying exactly one of the two is
/// rejected rather than stored as a partial pair, which the command model
/// cannot represent.
pub open spec fn spec_parse_login(
    args: Seq<Seq<char>>,
    i: int,
    auto: Option<Seq<char>>,
    online: Option<Seq<char>>,
) -> Result<LoginV, CliErrorV>
    decreases args.len() - i,
{
    if i >= args.len() {
        match (auto, online) {
            (Some(a), Some(o)) => Ok(
                LoginV { cookies: Some(CookiesV { bojautologin: a, onlinejudge: o }) },
            ),
            (None, None) => Ok(LoginV { cookies: None }),
            (Some(_), None) => Err(CliErrorV::IncompleteCookiePair("--bojautologin"@)),
            (None, Some(_)) => Err(CliErrorV::IncompleteCookiePair("--onlinejudge"@)),
        }
    } else {
        let tok = args[i];
        if tok == "--bojautologin"@ {
            if auto is Some {
                Err(CliErrorV::DuplicateFlag(tok))
            } else if i + 1 >= args.len() {
                Err(CliErrorV::MissingValue(tok))
            } else {
                spec_parse_login(args, i + 2, Some(args[i + 1]), online)
            }
        } else if tok == "--onlinejudge"@ {
            if online is Some {
                Err(CliErrorV::DuplicateFlag(tok))
            } else if i + 1 >= args.len() {
                Err(CliErrorV::MissingValue(tok))
            } else {
                spec_parse_login(args, i + 2, auto, Some(args[i + 1]))
            }
        } else if tok.len() > 0 && tok[0] == '-' {
            Err(CliErrorV::UnknownFlag(tok))
        } else {
            Err(CliErrorV::UnexpectedArgument(tok))
        }
    }
}

/// What parsing the tokens of `test` from position `i` onward yields, given
/// the state collected so far. `-b`/`--bin` and `-c`/`--cmd` are mutually
/// exclusive: the second of the pair is rejected as soon as it is seen,
/// before any `Test` value exists.
pub open spec fn spec_parse_test(
    args: Seq<Seq<char>>,
    i: int,
    pid: Option<Seq<char>>,
    bin: Option<Seq<char>>,
    cmd: Option<Seq<char>>,
    spj: bool,
    refresh: bool,
) -> Result<TestV, CliErrorV>
    decreases args.len() - i,
{
    if i >= args.len() {
        match pid {
            None => Err(CliErrorV::MissingProblemId),
            Some(p) => match (bin, cmd) {
                (Some(b), None) => Ok(
                    TestV {
                        problem_id: p,
                        bin_or_cmd: Some(BinOrCmdV::Bin(b)),
                        spj_prompt: spj,
                        refresh: refresh,
                    },
                ),
                (None, Some(c)) => Ok(
                    TestV {
                        problem_id: p,
                        bin_or_cmd: Some(BinOrCmdV::Cmd(c)),
                        spj_prompt: spj,
                        refresh: refresh,
                    },
                ),
                (None, None) => Ok(
                    TestV {
                        problem_id: p,
                        bin_or_cmd: None,
                        spj_prompt: spj,
                        refresh: refresh,
                    },
                ),
                (Some(_), Some(_)) => Err(CliErrorV::BinAndCmd),
            },
        }
    } else {
        let tok = args[i];
        if tok == "-b"@ || tok == "--bin"@ {
            if cmd is Some {
                Err(CliErrorV::BinAndCmd)
            } else if bin is Some {
                Err(CliErrorV::DuplicateFlag(tok))
            } else if i + 1 >= args.len() {
                Err(CliErrorV::MissingValue(tok))
            } else {
                spec_parse_test(args, i + 2, pid, Some(args[i + 1]), cmd, spj, refresh)
            }
        } else if tok == "-c"@ || tok == "--cmd"@ {
            if bin is Some {
                Err(CliErrorV::BinAndCmd)
            } else if cmd is Some {
                Err(CliErrorV::DuplicateFlag(tok))
            } else if i + 1 >= args.len() {
                Err(CliErrorV::MissingValue(tok))
            } else {
                spec_parse_test(args, i + 2, pid, bin, Some(args[i + 1]), spj, refresh)
            }
        } else if tok == "-p"@ || tok == "--spj-prompt"@ {
            if spj {
                Err(CliErrorV::DuplicateFlag(tok))
            } else {
                spec_parse_test(args, i + 1, pid, bin, cmd, true, refresh)
            }
        } else if tok == "-r"@ || tok == "--refresh"@ {
            if refresh {
                Err(CliErrorV::DuplicateFlag(tok))
            } else {
                spec_parse_test(args, i + 1, pid, bin, cmd, spj, true)
            }
        } else if tok.len() > 0 && tok[0] == '-' {
            Err(CliErrorV::UnknownFlag(tok))
        } else {
            if pid is Some {
                Err(CliErrorV::UnexpectedArgument(tok))
            } else {
                spec_parse_test(args, i + 1, Some(tok), bin, cmd, spj, refresh)
            }
        }
    }
}

/// What parsing the tokens of `submit` from position `i` onward yields,
/// given the state collected so far. The language value is read totally (a
/// numeric token becomes an id, anything else a name); the code-visibility
/// value must be one of `y`, `n`, `ac` or the invocation is rejected.
pub open spec fn spec_parse_submit(
    args: Seq<Seq<char>>,
    i: int,
    pid: Option<Seq<char>>,
    path: Option<Seq<char>>,
    language: Option<LanguageTypeV>,
    code_open: Option<CodeOpen>,
) -> Result<SubmitV, CliErrorV>
    decreases args.len() - i,
{
    if i >= args.len() {
        match pid {
            None => Err(CliErrorV::MissingProblemId),
            Some(p) => Ok(
                SubmitV { problem_id: p, path: path, language: language, code_open: code_open },
            ),
        }
    } else {
        let tok = args[i];
        if tok == "-p"@ || tok == "--path"@ {
            if path is Some {
                Err(CliErrorV::DuplicateFlag(tok))
            } else if i + 1 >= args.len() {
                Err(CliErrorV::MissingValue(tok))
            } else {
                spec_parse_submit(args, i + 2, pid, Some(args[i + 1]), language, code_open)
            }
        } else if tok == "-l"@ || tok == "--lang"@ {
            if language is Some {
                Err(CliErrorV::DuplicateFlag(tok))
            } else if i + 1 >= args.len() {
                Err(CliErrorV::MissingValue(tok))
            } else {
                spec_parse_submit(
                    args,
                    i + 2,
                    pid,
                    path,
                    Some(spec_parse_language(args[i + 1])),
                    code_open,
                )
            }
        } else if tok == "-o"@ || tok == "--code-open"@ {
            if code_open is Some {
                Err(CliErrorV::DuplicateFlag(tok))
            } else if i + 1 >= args.len() {
                Err(CliErrorV::MissingValue(tok))
            } else {
                match spec_parse_code_open(args[i + 1]) {
                    None => Err(CliErrorV::BadCodeOpen(args[i + 1])),
                    Some(c) => spec_parse_submit(args, i + 2, pid, path, language, Some(c)),
                }
            }
        } else if tok.len() > 0 && tok[0] == '-' {
            Err(CliErrorV::UnknownFlag(tok))
        } else {
            if pid is Some {
                Err(CliErrorV::UnexpectedArgument(tok))
            } else {
                spec_parse_submit(args, i + 1, Some(tok), path, language, code_open)
            }
        }
    }
}

/// What an invocation yields: after an optional leading `boj` token, the
/// first token selects exactly one of `login`, `test` and `submit`, whose
/// remaining tokens are parsed by that subcommand's rule.
pub open spec fn spec_parse_opts(args: Seq<Seq<char>>) -> Result<OptsV, CliErrorV> {
    let start: int = if args.len() > 0 && args[0] == "boj"@ {
        1
    } else {
        0
    };
    if start >= args.len() {
        Err(CliErrorV::MissingCommand)
    } else if args[start] == "login"@ {
        match spec_parse_login(args, start + 1, None, None) {
            Ok(l) => Ok(OptsV::Login(l)),
            Err(e) => Err(e),
        }
    } else if args[start] == "test"@ {
        match spec_parse_test(args, start + 1, None, None, None, false, false) {
            Ok(t) => Ok(OptsV::Test(t)),
            Err(e) => Err(e),
        }
    } else if args[start] == "submit"@ {
        match spec_parse_submit(args, start + 1, None, None, None, None) {
            Ok(s) => Ok(OptsV::Submit(s)),
            Err(e) => Err(e),
        }
    } else {
        Err(CliErrorV::UnknownCommand(args[start]))
    }
}

/// Parse the tokens of `login` that follow the command word.
pub fn cargo_boj_login(args: &Vec<String>, start: usize) -> (r: Result<Login, CliError>)
    requires
        start <= args@.len(),
    ensures
        result_agrees(r, spec_parse_login(args.deep_view(), start as int, None, None)),
{
    let ghost d = args.deep_view();
    let n = args.len();
    let mut auto: Option<String> = None;
    let mut online: Option<String> = None;
    let mut i: usize = start;
    while i < n
        invariant
            n == args@.len(),
            d == args.deep_view(),
            start <= i <= n,
            spec_parse_login(d, start as int, None, None) == spec_parse_login(
                d,
                i as int,
                auto.deep_view(),
                online.deep_view(),
            ),
        decreases n - i,
    {
        let a = &args[i];
        if str_eq(a.as_str(), "--bojautologin") {
            if auto.is_some() {
                return Err(CliError::DuplicateFlag(a.clone()));
            }
            if i + 1 >= n {
                return Err(CliError::MissingValue(a.clone()));
            }
            auto = Some(args[i + 1].clone());
            i += 2;
        } else if str_eq(a.as_str(), "--onlinejudge") {
            if online.is_some() {
                return Err(CliError::DuplicateFlag(a.clone()));
            }
            if i + 1 >= n {
                return Err(CliError::MissingValue(a.clone()));
            }
            online = Some(args[i + 1].clone());
            i += 2;
        } else if starts_with_dash(a.as_str()) {
            return Err(CliError::UnknownFlag(a.clone()));
        } else {
            return Err(CliError::UnexpectedArgument(a.clone()));
        }
    }
    match (auto, online) {
        (Some(a), Some(o)) => Ok(
            Login { cookies: Some(Cookies { bojautologin: a, onlinejudge: o }) },
        ),
        (None, None) => Ok(Login { cookies: None }),
        (Some(_), None) => Err(
            CliError::IncompleteCookiePair(String::from_str("--bojautologin")),
        ),
        (None, Some(_)) => Err(CliError::IncompleteCookiePair(String::from_str("--onlinejudge"))),
    }
}

/// Parse the tokens of `test` that follow the command word.
pub fn cargo_boj_test(args: &Vec<String>, start: usize) -> (r: Result<Test, CliError>)
    requires
        start <= args@.len(),
    ensures
        result_agrees(r, spec_parse_test(args.deep_view(), start as int, None, None, None, false, false)),
{
    let ghost d = args.deep_view();
    let n = args.len();
    let mut pid: Option<String> = None;
    let mut bin: Option<String> = None;
    let mut cmd: Option<String> = None;
    let mut spj: bool = false;
    let mut refresh: bool = false;
    let mut i: usize = start;
    while i < n
        invariant
            n == args@.len(),
            d == args.deep_view(),
            start <= i <= n,
            spec_parse_test(d, start as int, None, None, None, false, false) == spec_parse_test(
                d,
                i as int,
                pid.deep_view(),
                bin.deep_view(),
                cmd.deep_view(),
                spj,
                refresh,
            ),
        decreases n - i,
    {
        let a = &args[i];
        if str_eq(a.as_str(), "-b") || str_eq(a.as_str(), "--bin") {
            if cmd.is_some() {
                return Err(CliError::BinAndCmd);
            }
            if bin.is_some() {
                return Err(CliError::DuplicateFlag(a.clone()));
            }
            if i + 1 >= n {
                return Err(CliError::MissingValue(a.clone()));
            }
            bin = Some(args[i + 1].clone());
            i += 2;
        } else if str_eq(a.as_str(), "-c") || str_eq(a.as_str(), "--cmd") {
            if bin.is_some() {
                return Err(CliError::BinAndCmd);
            }
            if cmd.is_some() {
                return Err(CliError::DuplicateFlag(a.clone()));
            }
            if i + 1 >= n {
                return Err(CliError::MissingValue(a.clone()));
            }
            cmd = Some(args[i + 1].clone());
            i += 2;
        } else if str_eq(a.as_str(), "-p") || str_eq(a.as_str(), "--spj-prompt") {
            if spj {
                return Err(CliError::DuplicateFlag(a.clone()));
            }
            spj = true;
            i += 1;
        } else if str_eq(a.as_str(), "-r") || str_eq(a.as_str(), "--refresh") {
            if refresh {
                return Err(CliError::DuplicateFlag(a.clone()));
            }
            refresh = true;
            i += 1;
        } else if starts_with_dash(a.as_str()) {
            return Err(CliError::UnknownFlag(a.clone()));
        } else {
            if pid.is_some() {
                return Err(CliError::UnexpectedArgument(a.clone()));
            }
            pid = Some(a.clone());
            i += 1;
        }
    }
    let p = match pid {
        Some(p) => p,
        None => {
            return Err(CliError::MissingProblemId);
        },
    };
    match (bin, cmd) {
        (Some(b), None) => Ok(
            Test {
                problem_id: p,
                bin_or_cmd: Some(BinOrCmd::Bin(b)),
                spj_prompt: spj,
                refresh: refresh,
            },
        ),
        (None, Some(c)) => Ok(
            Test {
                problem_id: p,
                bin_or_cmd: Some(BinOrCmd::Cmd(c)),
                spj_prompt: spj,
                refresh: refresh,
            },
        ),
        (None, None) => Ok(
            Test { problem_id: p, bin_or_cmd: None, spj_prompt: spj, refresh: refresh },
        ),
        (Some(_), Some(_)) => Err(CliError::BinAndCmd),
    }
}

/// Parse the tokens of `submit` that follow the command word.
pub fn cargo_boj_submit(args: &Vec<String>, start: usize) -> (r: Result<Submit, CliError>)
    requires
        start <= args@.len(),
    ensures
        result_agrees(r, spec_parse_submit(args.deep_view(), start as int, None, None, None, None)),
{
    let ghost d = args.deep_view();
    let n = args.len();
    let mut pid: Option<String> = None;
    let mut path: Option<String> = None;
    let mut language: Option<LanguageType> = None;
    let mut code_open: Option<CodeOpen> = None;
    let mut i: usize = start;
    while i < n
        invariant
            n == args@.len(),
            d == args.deep_view(),
            start <= i <= n,
            spec_parse_submit(d, start as int, None, None, None, None) == spec_parse_submit(
                d,
                i as int,
                pid.deep_view(),
                path.deep_view(),
                language.deep_view(),
                code_open.deep_view(),
            ),
        decreases n - i,
    {
        let a = &args[i];
        if str_eq(a.as_str(), "-p") || str_eq(a.as_str(), "--path") {
            if path.is_some() {
                return Err(CliError::DuplicateFlag(a.clone()));
            }
            if i + 1 >= n {
                return Err(CliError::MissingValue(a.clone()));
            }
            path = Some(args[i + 1].clone());
            i += 2;
        } else if str_eq(a.as_str(), "-l") || str_eq(a.as_str(), "--lang") {
            if language.is_some() {
                return Err(CliError::DuplicateFlag(a.clone()));
            }
            if i + 1 >= n {
                return Err(CliError::MissingValue(a.clone()));
            }
            let lt = match LanguageType::from_str(args[i + 1].as_str()) {
                Ok(lt) => lt,
                Err(_) => unreached(),
            };
            language = Some(lt);
            i += 2;
        } else if str_eq(a.as_str(), "-o") || str_eq(a.as_str(), "--code-open") {
            if code_open.is_some() {
                return Err(CliError::DuplicateFlag(a.clone()));
            }
            if i + 1 >= n {
                return Err(CliError::MissingValue(a.clone()));
            }
            let c = match CodeOpen::from_str(args[i + 1].as_str()) {
                Ok(c) => c,
                Err(_) => {
                    return Err(CliError::BadCodeOpen(args[i + 1].clone()));
                },
            };
            code_open = Some(c);
            i += 2;
        } else if starts_with_dash(a.as_str()) {
            return Err(CliError::UnknownFlag(a.clone()));
        } else {
            if pid.is_some() {
                return Err(CliError::UnexpectedArgument(a.clone()));
            }
            pid = Some(a.clone());
            i += 1;
        }
    }
    match pid {
        Some(p) => Ok(
            Submit { problem_id: p, path: path, language: language, code_open: code_open },
        ),
        None => Err(CliError::MissingProblemId),
    }
}

/// Parse a full invocation (the tokens after the program name) into the one
/// command it selects, or the usage error that rejects it.
pub fn cargo_boj_opts(args: &Vec<String>) -> (r: Result<Opts, CliError>)
    ensures
        result_agrees(r, spec_parse_opts(args.deep_view())),
{
    let ghost d = args.deep_view();
    let n = args.len();
    let start: usize = if n > 0 && str_eq(args[0].as_str(), "boj") {
        1
    } else {
        0
    };
    if start >= n {
        return Err(CliError::MissingCommand);
    }
    let c = &args[start];
    if str_eq(c.as_str(), "login") {
        match cargo_boj_login(args, start + 1) {
            Ok(l) => Ok(Opts::Login(l)),
            Err(e) => Err(e),
        }
    } else if str_eq(c.as_str(), "test") {
        match cargo_boj_test(args, start + 1) {
            Ok(t) => Ok(Opts::Test(t)),
            Err(e) => Err(e),
        }
    } else if str_eq(c.as_str(), "submit") {
        match cargo_boj_submit(args, start + 1) {
            Ok(s) => Ok(Opts::Submit(s)),
            Err(e) => Err(e),
        }
    } else {
        Err(CliError::UnknownCommand(c.clone()))
    }
}

} // verus!
