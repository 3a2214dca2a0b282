//! Expansion controller: one invocation runs `extract argument -> acquire
//! source (inline or file) -> compile grammar -> reparse -> inject module`,
//! and any stage's failure short-circuits to a placeholder after exactly one
//! diagnostic. The host performs the file read and hands its outcome back;
//! everything the controller decides is verified here.

use vstd::prelude::*;

use crate::argument::{arg_is_single_string, extract_argument, spec_extract, ArgExpr, ArgView};
use crate::compiler::{compile_text, grammar_text_supported, peg_compile_spec, peg_input_safe};
use crate::diag::{msg_nonfile_source, msg_unsupported_grammar, Diag, DiagView, ErrorSite};
use crate::diag::build_msg_unsupported_grammar;
use crate::source_path::{is_file_path, resolve_relative, spec_resolve, SourceName, SourceNameView};

verus! {

/// How an invocation ends: a placeholder carrying the one diagnostic of the
/// failing stage, or the generated source code ready for the host to reparse
/// into the items of the new module.
#[derive(Clone, Debug, PartialEq, Eq)]
pub enum Outcome {
    Failed { diag: Diag },
    Compiled { code: String },
}

/// Mathematical model of an expansion outcome.
#[verifier::ext_equal]
pub enum OutcomeView {
    Failed { diag: DiagView },
    Compiled { code: Seq<char> },
}

impl View for Outcome {
    type V = OutcomeView;

    open spec fn view(&self) -> OutcomeView {
        match self {
            Outcome::Failed { diag } => OutcomeView::Failed { diag: diag@ },
            Outcome::Compiled { code } => OutcomeView::Compiled { code: code@ },
        }
    }
}

/// The diagnostics an outcome carries: one for a placeholder, none for a
/// successful expansion.
pub open spec fn diags_of(o: OutcomeView) -> Seq<DiagView> {
    match o {
        OutcomeView::Failed { diag } => seq![diag],
        OutcomeView::Compiled { .. } => Seq::empty(),
    }
}

/// What the compile stage may yield for acquired text. Text outside the
/// compiler's supported domain (`peg_input_safe`) is refused up front with
/// the adapter's own message, since the compiler would abort on it instead
/// of rejecting it. Inside the domain: exactly the generated code when the
/// compiler accepts the text, and a placeholder anchored at the invocation
/// when it rejects it (the message is the compiler's own and not pinned,
/// since its wording is not a function of the text).
pub open spec fn compile_outcome_ok(text: Seq<char>, o: OutcomeView) -> bool {
    if !peg_input_safe(text) {
        o == (OutcomeView::Failed {
            diag: DiagView { site: ErrorSite::Invocation, message: msg_unsupported_grammar() },
        })
    } else {
        match peg_compile_spec(text) {
            Some(code) => o == (OutcomeView::Compiled { code }),
            None => o matches OutcomeView::Failed { diag } && diag.site == ErrorSite::Invocation,
        }
    }
}

/// The whole inline pipeline: a relation between the expanded argument and
/// the outcome.
pub open spec fn inline_outcome_ok(arg: ArgView, o: OutcomeView) -> bool {
    match spec_extract(arg) {
        Ok(text) => compile_outcome_ok(text, o),
        Err(d) => o == (OutcomeView::Failed { diag: d }),
    }
}

/// The file pipeline up to the read: the path to read, or the diagnostic of
/// the first failing stage (argument shape, then path resolution).
pub open spec fn spec_plan_file(arg: ArgView, invoking: SourceNameView) -> Result<
    Seq<char>,
    DiagView,
> {
    match spec_extract(arg) {
        Ok(rel) => spec_resolve(invoking, rel),
        Err(d) => Err(d),
    }
}

/// Model of the host's read outcome: the file's text, or the I/O error
/// rendered to a message.
pub open spec fn read_view(read: Result<String, String>) -> Result<Seq<char>, Seq<char>> {
    match read {
        Ok(text) => Ok(text@),
        Err(e) => Err(e@),
    }
}

/// Which path the host must register as a new logical source unit before
/// compiling: the resolved path when the read succeeded, nothing otherwise.
pub open spec fn spec_register_path(path: Seq<char>, read: Result<Seq<char>, Seq<char>>) -> Option<
    Seq<char>,
> {
    match read {
        Ok(_) => Some(path),
        Err(_) => None,
    }
}

/// The file pipeline after the read: a read error is reported verbatim at
/// the invocation; otherwise the text is compiled like inline text.
pub open spec fn file_contents_outcome_ok(
    read: Result<Seq<char>, Seq<char>>,
    o: OutcomeView,
) -> bool {
    match read {
        Ok(text) => compile_outcome_ok(text, o),
        Err(e) => o == (OutcomeView::Failed {
            diag: DiagView { site: ErrorSite::Invocation, message: e },
        }),
    }
}

/// The whole file pipeline, with the host's read outcome as a parameter: the
/// read only happens, and only matters, when planning succeeded.
pub open spec fn file_outcome_ok(
    arg: ArgView,
    invoking: SourceNameView,
    read: Result<Seq<char>, Seq<char>>,
    o: OutcomeView,
) -> bool {
    match spec_plan_file(arg, invoking) {
        Ok(_) => file_contents_outcome_ok(read, o),
        Err(d) => o == (OutcomeView::Failed { diag: d }),
    }
}

/// Fold the compiler's verdict into an outcome: generated code as it stands,
/// or a placeholder carrying the compiler's message verbatim, anchored at
/// the invocation.
pub fn fold_compile_result(res: Result<String, String>) -> (r: Outcome)
    ensures
        match res {
            Ok(code) => r@ == (OutcomeView::Compiled { code: code@ }),
            Err(msg) => r@ == (OutcomeView::Failed {
                diag: DiagView { site: ErrorSite::Invocation, message: msg@ },
            }),
        },
{
    match res {
        Ok(code) => Outcome::Compiled { code },
        Err(msg) => Outcome::Failed { diag: Diag { site: ErrorSite::Invocation, message: msg } },
    }
}

/// Compile acquired grammar text: exactly the generated code when the text
/// is accepted, a placeholder with the compiler's message otherwise; text
/// the compiler would abort on is refused with the adapter's message.
pub fn compile_stage(text: &str) -> (r: Outcome)
    ensures
        compile_outcome_ok(text@, r@),
{
    if !grammar_text_supported(text) {
        Outcome::Failed {
            diag: Diag { site: ErrorSite::Invocation, message: build_msg_unsupported_grammar() },
        }
    } else {
        fold_compile_result(compile_text(text))
    }
}

/// Expand an inline invocation: the argument must be a single string literal,
/// whose payload is the grammar text itself.
pub fn expand_inline(arg: ArgExpr) -> (r: Outcome)
    ensures
        inline_outcome_ok(arg@, r@),
{
    match extract_argument(arg) {
        Ok(text) => compile_stage(text.as_str()),
        Err(d) => Outcome::Failed { diag: d },
    }
}

/// Begin a file-form invocation: extract the path argument and resolve it
/// against the invoking source. On success the host reads the returned path;
/// on failure it reports the returned diagnostic and emits the placeholder.
pub fn plan_file_read(arg: ArgExpr, invoking: &SourceName) -> (r: Result<String, Diag>)
    requires
        invoking@ matches SourceNameView::Real { path } ==> is_file_path(path),
    ensures
        match r {
            Ok(p) => spec_plan_file(arg@, invoking@) == Ok::<Seq<char>, DiagView>(p@),
            Err(d) => spec_plan_file(arg@, invoking@) == Err::<Seq<char>, DiagView>(d@),
        },
{
    match extract_argument(arg) {
        Ok(rel) => resolve_relative(invoking, rel.as_str()),
        Err(d) => Err(d),
    }
}

/// Decide, once the host has read the planned path, which path it must
/// register as a new logical source unit: the resolved path exactly when the
/// read succeeded. Registration comes before the compile step, so that
/// later diagnostics pointing into the file can be rendered against it.
pub fn registration_after_read(path: String, read: &Result<String, String>) -> (r: Option<String>)
    ensures
        r.deep_view() == spec_register_path(path@, read_view(*read)),
{
    match read {
        Ok(_) => Some(path),
        Err(_) => None,
    }
}

/// Finish a file-form invocation once the host has read the planned path and
/// registered it: compile the text, or pass the read error through verbatim.
pub fn expand_file_contents(read: Result<String, String>) -> (r: Outcome)
    ensures
        file_contents_outcome_ok(read_view(read), r@),
{
    match read {
        Ok(text) => compile_stage(text.as_str()),
        Err(e) => Outcome::Failed { diag: Diag { site: ErrorSite::Invocation, message: e } },
    }
}

/// A valid inline invocation whose grammar text is inside the adapter's
/// supported domain and accepted by the compiler expands to exactly the
/// compiler's generated code, with no diagnostic; wrapped by
/// `inject_module`, the result is a module holding exactly the items the
/// host reparses from that code.
pub proof fn lemma_inline_success(value: Seq<char>, code: Seq<char>, o: OutcomeView)
    requires
        peg_input_safe(value),
        peg_compile_spec(value) == Some(code),
        inline_outcome_ok(ArgView::StrLit { value, trailing: false }, o),
    ensures
        o == (OutcomeView::Compiled { code }),
        diags_of(o).len() == 0,
{
}

/// An invocation whose argument is not a single string literal ends as a
/// placeholder carrying exactly the one shape diagnostic, never a partial
/// module.
pub proof fn lemma_invalid_argument_placeholder(arg: ArgView, o: OutcomeView)
    requires
        !arg_is_single_string(arg),
        inline_outcome_ok(arg, o),
    ensures
        spec_extract(arg) matches Err(d) && o == (OutcomeView::Failed { diag: d }),
        diags_of(o).len() == 1,
{
}

/// A file-form invocation from a source without a concrete file identity
/// fails with the path-resolution diagnostic, whatever the argument's
/// string content.
pub proof fn lemma_synthetic_source_fails(value: Seq<char>, label: Seq<char>)
    ensures
        spec_plan_file(
            ArgView::StrLit { value, trailing: false },
            SourceNameView::Synthetic { label },
        ) == Err::<Seq<char>, DiagView>(
            DiagView { site: ErrorSite::Invocation, message: msg_nonfile_source(label) },
        ),
{
}

/// Re-running an inline invocation with an identical expanded argument and
/// the same compiler verdict yields the same success or failure, and
/// structurally identical generated output on success; a failure before the
/// compile stage carries the identical diagnostic. (Only the wording of the
/// compiler's own rejection message is outside the claim: it is not a
/// function of the text.)
pub proof fn lemma_inline_deterministic(arg: ArgView, o1: OutcomeView, o2: OutcomeView)
    requires
        inline_outcome_ok(arg, o1),
        inline_outcome_ok(arg, o2),
    ensures
        o1 matches OutcomeView::Compiled { .. } <==> o2 matches OutcomeView::Compiled { .. },
        o1 matches OutcomeView::Compiled { .. } ==> o1 == o2,
        spec_extract(arg) is Err ==> o1 == o2,
        spec_extract(arg) matches Ok(t) && !peg_input_safe(t) ==> o1 == o2,
{
}

/// Re-running a file-form invocation with an identical argument, invoking
/// source and read outcome yields the same success or failure, structurally
/// identical generated output on success, and the identical diagnostic for
/// every failure before the compile stage.
pub proof fn lemma_file_deterministic(
    arg: ArgView,
    invoking: SourceNameView,
    read: Result<Seq<char>, Seq<char>>,
    o1: OutcomeView,
    o2: OutcomeView,
)
    requires
        file_outcome_ok(arg, invoking, read, o1),
        file_outcome_ok(arg, invoking, read, o2),
    ensures
        o1 matches OutcomeView::Compiled { .. } <==> o2 matches OutcomeView::Compiled { .. },
        o1 matches OutcomeView::Compiled { .. } ==> o1 == o2,
        spec_plan_file(arg, invoking) is Err ==> o1 == o2,
        read is Err ==> o1 == o2,
        read matches Ok(t) && !peg_input_safe(t) ==> o1 == o2,
{
}

/// Every inline invocation emits exactly one diagnostic when it fails and
/// none when it succeeds: never zero on failure, never more than one.
pub proof fn lemma_one_diagnostic_inline(arg: ArgView, o: OutcomeView)
    requires
        inline_outcome_ok(arg, o),
    ensures
        o matches OutcomeView::Failed { .. } <==> diags_of(o).len() == 1,
        o matches OutcomeView::Compiled { .. } <==> diags_of(o).len() == 0,
{
}

/// Every file-form invocation emits exactly one diagnostic when it fails and
/// none when it succeeds, whichever stage fails first.
pub proof fn lemma_one_diagnostic_file(
    arg: ArgView,
    invoking: SourceNameView,
    read: Result<Seq<char>, Seq<char>>,
    o: OutcomeView,
)
    requires
        file_outcome_ok(arg, invoking, read, o),
    ensures
        o matches OutcomeView::Failed { .. } <==> diags_of(o).len() == 1,
        o matches OutcomeView::Compiled { .. } <==> diags_of(o).len() == 0,
{
}

} // verus!
