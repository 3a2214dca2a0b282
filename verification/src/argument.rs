//! Argument extraction: the raw tokens of a call site must amount to exactly
//! one string-literal expression. The host parses the tokens and expands any
//! nested invocations first; the library receives the shape of the resulting
//! expression and decides whether it is acceptable.

use vstd::prelude::*;

use crate::diag::{build_msg_expected_one_string, build_msg_not_string_lit};
use crate::diag::{msg_expected_one_string, msg_not_string_lit};
use crate::diag::{Diag, DiagView, ErrorSite};

verus! {

/// The call-site argument as the host hands it over: the expression parsed
/// from the raw tokens, after nested invocations have been expanded.
#[derive(Clone, Debug, PartialEq, Eq)]
pub enum ArgExpr {
    /// The expression is a string literal with payload `value` (already
    /// unescaped); `trailing` records whether tokens remain after it.
    StrLit { value: String, trailing: bool },
    /// Any other expression shape, rendered back to text by the host.
    Other { rendered: String },
}

/// Mathematical model of a call-site argument.
#[verifier::ext_equal]
pub enum ArgView {
    StrLit { value: Seq<char>, trailing: bool },
    Other { rendered: Seq<char> },
}

impl View for ArgExpr {
    type V = ArgView;

    open spec fn view(&self) -> ArgView {
        match self {
            ArgExpr::StrLit { value, trailing } => ArgView::StrLit {
                value: value@,
                trailing: *trailing,
            },
            ArgExpr::Other { rendered } => ArgView::Other { rendered: rendered@ },
        }
    }
}

/// Whether the argument is acceptable: a single string literal and nothing
/// after it.
pub open spec fn arg_is_single_string(a: ArgView) -> bool {
    a matches ArgView::StrLit { trailing: false, .. }
}

/// What extraction yields: the literal's payload, or the one diagnostic of
/// this stage, anchored at the argument tokens.
pub open spec fn spec_extract(a: ArgView) -> Result<Seq<char>, DiagView> {
    match a {
        ArgView::StrLit { value, trailing } => {
            if trailing {
                Err(
                    DiagView {
                        site: ErrorSite::ArgumentTokens,
                        message: msg_expected_one_string(),
                    },
                )
            } else {
                Ok(value)
            }
        },
        ArgView::Other { rendered } => Err(
            DiagView { site: ErrorSite::ArgumentTokens, message: msg_not_string_lit(rendered) },
        ),
    }
}

/// Turn the host-expanded argument expression into the one string value the
/// pipeline needs, or the diagnostic to report. Succeeds exactly when the
/// expanded expression is a single string literal with no trailing tokens.
pub fn extract_argument(arg: ArgExpr) -> (r: Result<String, Diag>)
    ensures
        match r {
            Ok(s) => spec_extract(arg@) == Ok::<Seq<char>, DiagView>(s@),
            Err(d) => spec_extract(arg@) == Err::<Seq<char>, DiagView>(d@),
        },
{
    match arg {
        ArgExpr::StrLit { value, trailing } => {
            if trailing {
                Err(Diag { site: ErrorSite::ArgumentTokens, message: build_msg_expected_one_string() })
            } else {
                Ok(value)
            }
        },
        ArgExpr::Other { rendered } => {
            let message = build_msg_not_string_lit(rendered.as_str());
            Err(Diag { site: ErrorSite::ArgumentTokens, message })
        },
    }
}

} // verus!
