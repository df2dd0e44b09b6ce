use cargo_boj::cli::{cargo_boj_opts, BinOrCmd, CliError, Cookies, Opts};
use cargo_boj::code_open::CodeOpen;
use cargo_boj::lang::LanguageType;

fn argv(tokens: &[&str]) -> Vec<String> {
    tokens.iter().map(|t| String::from(*t)).collect()
}

#[test]
fn submit_with_no_optional_flags() {
    let r = cargo_boj_opts(&argv(&["submit", "1000"]));
    match r {
        Ok(Opts::Submit(s)) => {
            assert_eq!(s.problem_id, "1000");
            assert_eq!(s.path, None);
            assert_eq!(s.language, None);
            assert_eq!(s.code_open, None);
        }
        other => panic!("expected a Submit value, got {:?}", other),
    }
}

#[test]
fn test_with_both_bin_and_cmd_is_rejected() {
    let r = cargo_boj_opts(&argv(&["test", "1000", "-b", "foo", "-c", "bar"]));
    assert_eq!(r, Err(CliError::BinAndCmd));
    let r = cargo_boj_opts(&argv(&["test", "1000", "--cmd", "bar", "--bin", "foo"]));
    assert_eq!(r, Err(CliError::BinAndCmd));
}

#[test]
fn test_with_all_options() {
    let r = cargo_boj_opts(&argv(&["test", "1000", "-b", "sol", "-p", "-r"]));
    match r {
        Ok(Opts::Test(t)) => {
            assert_eq!(t.problem_id, "1000");
            assert_eq!(t.bin_or_cmd, Some(BinOrCmd::Bin(String::from("sol"))));
            assert!(t.spj_prompt);
            assert!(t.refresh);
        }
        other => panic!("expected a Test value, got {:?}", other),
    }
}

#[test]
fn test_with_cmd_long_form() {
    let r = cargo_boj_opts(&argv(&["test", "2557", "--cmd", "python3 main.py"]));
    match r {
        Ok(Opts::Test(t)) => {
            assert_eq!(t.problem_id, "2557");
            assert_eq!(
                t.bin_or_cmd,
                Some(BinOrCmd::Cmd(String::from("python3 main.py")))
            );
            assert!(!t.spj_prompt);
            assert!(!t.refresh);
        }
        other => panic!("expected a Test value, got {:?}", other),
    }
}

#[test]
fn test_defaults_without_flags() {
    let r = cargo_boj_opts(&argv(&["test", "1000"]));
    match r {
        Ok(Opts::Test(t)) => {
            assert_eq!(t.problem_id, "1000");
            assert_eq!(t.bin_or_cmd, None);
            assert!(!t.spj_prompt);
            assert!(!t.refresh);
        }
        other => panic!("expected a Test value, got {:?}", other),
    }
}

#[test]
fn submit_with_all_options() {
    let r = cargo_boj_opts(&argv(&[
        "submit", "1000", "--path", "sol.rs", "--lang", "rust", "--code-open", "ac",
    ]));
    match r {
        Ok(Opts::Submit(s)) => {
            assert_eq!(s.problem_id, "1000");
            assert_eq!(s.path, Some(String::from("sol.rs")));
            assert_eq!(s.language, Some(LanguageType::Name(String::from("rust"))));
            assert_eq!(s.code_open, Some(CodeOpen::YesOnAc));
        }
        other => panic!("expected a Submit value, got {:?}", other),
    }
}

#[test]
fn submit_numeric_language_becomes_an_id() {
    let r = cargo_boj_opts(&argv(&["submit", "1000", "-l", "28", "-o", "y"]));
    match r {
        Ok(Opts::Submit(s)) => {
            assert_eq!(s.language, Some(LanguageType::Id(28)));
            assert_eq!(s.code_open, Some(CodeOpen::Yes));
        }
        other => panic!("expected a Submit value, got {:?}", other),
    }
}

#[test]
fn submit_bad_code_open_is_rejected() {
    let r = cargo_boj_opts(&argv(&["submit", "1000", "-o", "z"]));
    assert_eq!(r, Err(CliError::BadCodeOpen(String::from("z"))));
}

#[test]
fn login_with_both_cookies() {
    let r = cargo_boj_opts(&argv(&[
        "login",
        "--bojautologin",
        "aaa",
        "--onlinejudge",
        "bbb",
    ]));
    let cookies = Cookies {
        bojautologin: String::from("aaa"),
        onlinejudge: String::from("bbb"),
    };
    match r {
        Ok(Opts::Login(l)) => assert_eq!(l.cookies, Some(cookies)),
        other => panic!("expected a Login value, got {:?}", other),
    }
}

#[test]
fn login_without_flags_has_no_cookies() {
    let r = cargo_boj_opts(&argv(&["login"]));
    match r {
        Ok(Opts::Login(l)) => assert_eq!(l.cookies, None),
        other => panic!("expected a Login value, got {:?}", other),
    }
}

#[test]
fn login_with_one_cookie_is_rejected() {
    let r = cargo_boj_opts(&argv(&["login", "--bojautologin", "aaa"]));
    assert_eq!(
        r,
        Err(CliError::IncompleteCookiePair(String::from("--bojautologin")))
    );
    let r = cargo_boj_opts(&argv(&["login", "--onlinejudge", "bbb"]));
    assert_eq!(
        r,
        Err(CliError::IncompleteCookiePair(String::from("--onlinejudge")))
    );
}

#[test]
fn login_rejects_positional_tokens() {
    let r = cargo_boj_opts(&argv(&["login", "stray"]));
    assert_eq!(r, Err(CliError::UnexpectedArgument(String::from("stray"))));
}

#[test]
fn leading_boj_token_is_skipped() {
    let r = cargo_boj_opts(&argv(&["boj", "test", "1000"]));
    match r {
        Ok(Opts::Test(t)) => assert_eq!(t.problem_id, "1000"),
        other => panic!("expected a Test value, got {:?}", other),
    }
}

#[test]
fn missing_command_is_rejected() {
    assert_eq!(cargo_boj_opts(&argv(&[])), Err(CliError::MissingCommand));
    assert_eq!(cargo_boj_opts(&argv(&["boj"])), Err(CliError::MissingCommand));
}

#[test]
fn unknown_command_is_rejected() {
    let r = cargo_boj_opts(&argv(&["frobnicate", "1000"]));
    assert_eq!(r, Err(CliError::UnknownCommand(String::from("frobnicate"))));
}

#[test]
fn missing_problem_id_is_rejected() {
    assert_eq!(
        cargo_boj_opts(&argv(&["test", "-p"])),
        Err(CliError::MissingProblemId)
    );
    assert_eq!(
        cargo_boj_opts(&argv(&["submit"])),
        Err(CliError::MissingProblemId)
    );
}

#[test]
fn second_positional_is_rejected() {
    let r = cargo_boj_opts(&argv(&["test", "1000", "1001"]));
    assert_eq!(r, Err(CliError::UnexpectedArgument(String::from("1001"))));
}

#[test]
fn unknown_flag_is_rejected() {
    let r = cargo_boj_opts(&argv(&["test", "1000", "-x"]));
    assert_eq!(r, Err(CliError::UnknownFlag(String::from("-x"))));
    let r = cargo_boj_opts(&argv(&["submit", "1000", "--frob"]));
    assert_eq!(r, Err(CliError::UnknownFlag(String::from("--frob"))));
}

#[test]
fn option_without_value_is_rejected() {
    let r = cargo_boj_opts(&argv(&["submit", "1000", "-l"]));
    assert_eq!(r, Err(CliError::MissingValue(String::from("-l"))));
    let r = cargo_boj_opts(&argv(&["login", "--bojautologin"]));
    assert_eq!(r, Err(CliError::MissingValue(String::from("--bojautologin"))));
}

#[test]
fn repeated_options_are_rejected() {
    let r = cargo_boj_opts(&argv(&["test", "1000", "-p", "-p"]));
    assert_eq!(r, Err(CliError::DuplicateFlag(String::from("-p"))));
    let r = cargo_boj_opts(&argv(&["submit", "1000", "-p", "a.rs", "--path", "b.rs"]));
    assert_eq!(r, Err(CliError::DuplicateFlag(String::from("--path"))));
}

#[test]
fn short_and_long_forms_agree() {
    let short = cargo_boj_opts(&argv(&["test", "1000", "-b", "sol", "-p", "-r"]));
    let long = cargo_boj_opts(&argv(&[
        "test",
        "1000",
        "--bin",
        "sol",
        "--spj-prompt",
        "--refresh",
    ]));
    assert_eq!(short, long);
}

#[test]
fn usage_messages_name_the_offending_token() {
    assert_eq!(
        CliError::UnknownFlag(String::from("-x")).message(),
        "unknown flag `-x`"
    );
    assert_eq!(
        CliError::MissingValue(String::from("-l")).message(),
        "flag `-l` expects a value"
    );
    assert_eq!(
        CliError::BinAndCmd.message(),
        "`--bin` and `--cmd` cannot be supplied together"
    );
    assert_eq!(
        CliError::MissingCommand.message(),
        "expected one of `login`, `test`, `submit`"
    );
}
