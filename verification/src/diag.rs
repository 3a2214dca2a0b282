//! Diagnostics: a failing expansion reports exactly one message, anchored
//! either at the invocation site or at the offending argument token.

use vstd::prelude::*;
use vstd::string::StringExecFns;

verus! {

/// Where the host should anchor a diagnostic. The host owns the concrete
/// source spans; the library only decides which of the two known anchors
/// a message belongs to.
#[derive(Clone, Copy, Debug, PartialEq, Eq, Structural)]
pub enum ErrorSite {
    /// The span of the whole invocation.
    Invocation,
    /// The span of the argument token that failed shape checking.
    ArgumentTokens,
}

/// One diagnostic: an anchor and a rendered message.
#[derive(Clone, Debug, PartialEq, Eq)]
pub struct Diag {
    pub site: ErrorSite,
    pub message: String,
}

/// Mathematical model of a diagnostic.
#[verifier::ext_equal]
pub struct DiagView {
    pub site: ErrorSite,
    pub message: Seq<char>,
}

impl View for Diag {
    type V = DiagView;

    open spec fn view(&self) -> DiagView {
        DiagView { site: self.site, message: self.message@ }
    }
}

/// Message for an argument that is a string literal followed by extra tokens.
pub open spec fn msg_expected_one_string() -> Seq<char> {
    "expected only one string literal"@
}

/// Message for an argument expression that is not a string literal at all;
/// `rendered` is the host's rendering of the offending expression.
pub open spec fn msg_not_string_lit(rendered: Seq<char>) -> Seq<char> {
    "expected string literal but got `"@ + rendered + "`"@
}

/// Message for a file-form invocation made from a source without a concrete
/// file identity; `label` is the host's rendering of that source's origin.
pub open spec fn msg_nonfile_source(label: Seq<char>) -> Seq<char> {
    "cannot resolve relative path in non-file source `"@ + label + "`"@
}

/// Message for grammar text outside the compiler adapter's supported domain:
/// a repeat bound too large for the compiler's integer parsing, or a unicode
/// escape naming an invalid code point, would abort the compiler instead of
/// being rejected, so the adapter refuses the text up front.
pub open spec fn msg_unsupported_grammar() -> Seq<char> {
    "grammar text not supported: integer repeat bound or unicode escape out of range"@
}

pub fn build_msg_expected_one_string() -> (r: String)
    ensures
        r@ == msg_expected_one_string(),
{
    String::from_str("expected only one string literal")
}

pub fn build_msg_not_string_lit(rendered: &str) -> (r: String)
    ensures
        r@ == msg_not_string_lit(rendered@),
{
    String::from_str("expected string literal but got `").concat(rendered).concat("`")
}

pub fn build_msg_unsupported_grammar() -> (r: String)
    ensures
        r@ == msg_unsupported_grammar(),
{
    String::from_str(
        "grammar text not supported: integer repeat bound or unicode escape out of range",
    )
}

pub fn build_msg_nonfile_source(label: &str) -> (r: String)
    ensures
        r@ == msg_nonfile_source(label@),
{
    String::from_str("cannot resolve relative path in non-file source `").concat(label).concat(
        "`",
    )
}

} // verus!
