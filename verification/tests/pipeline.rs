use peg_syntax_ext::argument::ArgExpr;
use peg_syntax_ext::diag::ErrorSite;
use peg_syntax_ext::compiler::grammar_text_supported;
use peg_syntax_ext::expand::{
    expand_file_contents, expand_inline, fold_compile_result, plan_file_read,
    registration_after_read, Outcome,
};
use peg_syntax_ext::source_path::SourceName;

const GRAMMAR: &str = "pub number -> i64 = n:$([0-9]+) { n.parse().unwrap() }";

fn inline_arg(text: &str) -> ArgExpr {
    ArgExpr::StrLit { value: String::from(text), trailing: false }
}

#[test]
fn inline_expansion_generates_code() {
    match expand_inline(inline_arg(GRAMMAR)) {
        Outcome::Compiled { code } => {
            assert!(!code.is_empty());
            assert_ne!(code, GRAMMAR);
            assert!(code.contains("number"));
            assert!(code.contains("fn"));
        }
        Outcome::Failed { diag } => panic!("expected generated code, got: {}", diag.message),
    }
}

#[test]
fn invalid_grammar_reports_compile_error() {
    match expand_inline(inline_arg("!!! not a grammar !!!")) {
        Outcome::Compiled { .. } => panic!("expected a compile error"),
        Outcome::Failed { diag } => {
            assert_eq!(diag.site, ErrorSite::Invocation);
            assert!(!diag.message.is_empty());
        }
    }
}

#[test]
fn bad_argument_gives_placeholder() {
    let arg = ArgExpr::Other { rendered: String::from("1 + 2") };
    match expand_inline(arg) {
        Outcome::Compiled { .. } => panic!("expected a placeholder"),
        Outcome::Failed { diag } => {
            assert_eq!(diag.site, ErrorSite::ArgumentTokens);
            assert_eq!(diag.message, "expected string literal but got `1 + 2`");
        }
    }
}

#[test]
fn file_plan_from_real_source() {
    let invoking = SourceName::Real { path: String::from("/a/b/c.src") };
    let r = plan_file_read(inline_arg("d/e.peg"), &invoking);
    assert_eq!(r.unwrap(), "/a/b/d/e.peg");
}

#[test]
fn file_plan_bad_argument() {
    let invoking = SourceName::Real { path: String::from("/a/b/c.src") };
    let arg = ArgExpr::Other { rendered: String::from("42") };
    let d = plan_file_read(arg, &invoking).unwrap_err();
    assert_eq!(d.site, ErrorSite::ArgumentTokens);
    assert_eq!(d.message, "expected string literal but got `42`");
}

#[test]
fn file_plan_from_synthetic_source() {
    let invoking = SourceName::Synthetic { label: String::from("proc-macro source") };
    let d = plan_file_read(inline_arg("d/e.peg"), &invoking).unwrap_err();
    assert_eq!(d.site, ErrorSite::Invocation);
    assert_eq!(d.message, "cannot resolve relative path in non-file source `proc-macro source`");
}

#[test]
fn read_failure_reports_io_error() {
    let read = Err(String::from("No such file or directory (os error 2)"));
    let register = registration_after_read(String::from("/a/b/d/e.peg"), &read);
    assert_eq!(register, None);
    match expand_file_contents(read) {
        Outcome::Compiled { .. } => panic!("expected a placeholder"),
        Outcome::Failed { diag } => {
            assert_eq!(diag.site, ErrorSite::Invocation);
            assert_eq!(diag.message, "No such file or directory (os error 2)");
        }
    }
}

#[test]
fn successful_read_registers_source() {
    let read = Ok(String::from(GRAMMAR));
    let register = registration_after_read(String::from("/a/b/d/e.peg"), &read);
    assert_eq!(register, Some(String::from("/a/b/d/e.peg")));
    assert!(matches!(expand_file_contents(read), Outcome::Compiled { .. }));
}

const UNSUPPORTED_MSG: &str =
    "grammar text not supported: integer repeat bound or unicode escape out of range";

#[test]
fn huge_repeat_bound_is_rejected() {
    // the compiler's grammar parser unwraps the usize conversion of a repeat
    // bound, so an oversized bound is refused before the compiler runs
    match expand_inline(inline_arg("x -> () = \"a\"*<99999999999999999999999>")) {
        Outcome::Compiled { .. } => panic!("expected a placeholder"),
        Outcome::Failed { diag } => {
            assert_eq!(diag.site, ErrorSite::Invocation);
            assert_eq!(diag.message, UNSUPPORTED_MSG);
        }
    }
}

#[test]
fn surrogate_escape_is_rejected() {
    // \u{D800} names a surrogate, which the compiler's code-point check
    // would abort on
    match expand_inline(inline_arg("x -> () = \"\\u{D800}\"")) {
        Outcome::Compiled { .. } => panic!("expected a placeholder"),
        Outcome::Failed { diag } => {
            assert_eq!(diag.site, ErrorSite::Invocation);
            assert_eq!(diag.message, UNSUPPORTED_MSG);
        }
    }
}

#[test]
fn overlong_escape_is_rejected() {
    // a code point past the Unicode range is refused up front
    match expand_inline(inline_arg("x -> () = \"\\u{FFFFFFFFF}\"")) {
        Outcome::Compiled { .. } => panic!("expected a placeholder"),
        Outcome::Failed { diag } => assert_eq!(diag.message, UNSUPPORTED_MSG),
    }
}

#[test]
fn valid_escape_is_compiled() {
    let text = "pub esc -> () = \"\\u{0041}\" {}";
    assert!(grammar_text_supported(text));
    assert!(matches!(expand_inline(inline_arg(text)), Outcome::Compiled { .. }));
}

#[test]
fn supported_domain_boundaries() {
    // nine consecutive digits always fit the compiler's integer parsing;
    // ten may not, and the scan reads raw text, not grammar structure
    assert!(grammar_text_supported("x -> () = \"123456789\""));
    assert!(!grammar_text_supported("x -> () = \"1234567890\""));
    // a valid escape passes; the opener alone, unclosed, is no escape
    assert!(grammar_text_supported("\\u{10FFFF}"));
    assert!(grammar_text_supported("\\u{D800"));
    assert!(!grammar_text_supported("\\u{00D800}"));
}

#[test]
fn compiler_verdict_is_folded_verbatim() {
    match fold_compile_result(Err(String::from("boom"))) {
        Outcome::Compiled { .. } => panic!("expected a placeholder"),
        Outcome::Failed { diag } => {
            assert_eq!(diag.site, ErrorSite::Invocation);
            assert_eq!(diag.message, "boom");
        }
    }
    match fold_compile_result(Ok(String::from("fn generated() {}"))) {
        Outcome::Compiled { code } => assert_eq!(code, "fn generated() {}"),
        Outcome::Failed { .. } => panic!("expected generated code"),
    }
}

#[test]
fn expansion_is_deterministic() {
    let first = expand_inline(inline_arg(GRAMMAR));
    let second = expand_inline(inline_arg(GRAMMAR));
    assert_eq!(first, second);

    // A rejected grammar fails on every run; only the compiler's own wording
    // of the message may vary, so the diagnostics are not compared.
    let bad_first = expand_inline(inline_arg("!!!"));
    let bad_second = expand_inline(inline_arg("!!!"));
    assert!(matches!(bad_first, Outcome::Failed { .. }));
    assert!(matches!(bad_second, Outcome::Failed { .. }));

    // Failures before the compile stage are identical in full.
    let arg_fail_first = expand_inline(ArgExpr::Other { rendered: String::from("42") });
    let arg_fail_second = expand_inline(ArgExpr::Other { rendered: String::from("42") });
    assert_eq!(arg_fail_first, arg_fail_second);
}

#[test]
fn nested_invocation_argument() {
    // A nested invocation producing a string literal is expanded by the host
    // before shape checking; the library sees only the resulting literal.
    let first_half = "pub number -> i64 = ";
    let second_half = "n:$([0-9]+) { n.parse().unwrap() }";
    let expanded = ArgExpr::StrLit {
        value: format!("{}{}", first_half, second_half),
        trailing: false,
    };
    assert_eq!(expand_inline(expanded), expand_inline(inline_arg(GRAMMAR)));
    assert!(matches!(expand_inline(inline_arg(GRAMMAR)), Outcome::Compiled { .. }));
}
