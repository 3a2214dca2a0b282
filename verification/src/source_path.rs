//! Path resolution for file-form invocations: the argument names a grammar
//! file relative to the invoking source file's directory. Resolution fails
//! closed when the invoking source has no concrete file identity, since a
//! relative path cannot be anchored anywhere.
//!
//! Paths are modeled as character sequences with `/` as the separator; the
//! invoking source's path is a file path, so it is non-empty and does not end
//! in a separator.

use vstd::prelude::*;

use crate::diag::{build_msg_nonfile_source, msg_nonfile_source};
use crate::diag::{Diag, DiagView, ErrorSite};
use vstd::string::{StrSliceExecFns, StringExecFns};

verus! {

/// The identity of the invoking source, as the host reports it: either a real
/// on-disk file path, or a synthetic origin rendered to a label (for example
/// the output of another expansion).
#[derive(Clone, Debug, PartialEq, Eq)]
pub enum SourceName {
    Real { path: String },
    Synthetic { label: String },
}

/// Mathematical model of a source identity.
#[verifier::ext_equal]
pub enum SourceNameView {
    Real { path: Seq<char> },
    Synthetic { label: Seq<char> },
}

impl View for SourceName {
    type V = SourceNameView;

    open spec fn view(&self) -> SourceNameView {
        match self {
            SourceName::Real { path } => SourceNameView::Real { path: path@ },
            SourceName::Synthetic { label } => SourceNameView::Synthetic { label: label@ },
        }
    }
}

/// A non-empty path that does not end in a separator: the shape of every
/// concrete file path the host can report as an invoking source.
pub open spec fn is_file_path(p: Seq<char>) -> bool {
    p.len() > 0 && p[p.len() - 1] != '/'
}

/// Index of the last separator in `p`, or -1 when `p` has none.
pub open spec fn last_slash(p: Seq<char>) -> int
    decreases p.len(),
{
    if p.len() == 0 {
        -1
    } else if p[p.len() - 1] == '/' {
        p.len() - 1
    } else {
        last_slash(p.drop_last())
    }
}

/// The resolved path: the directory component of the invoking file `p`
/// (everything up to and including its last separator) joined with `rel`.
/// An absolute `rel` replaces `p`'s directory outright, and a `p` without any
/// separator has the invoking file in the current directory, so `rel` stands
/// alone.
pub open spec fn join_relative(p: Seq<char>, rel: Seq<char>) -> Seq<char> {
    if rel.len() > 0 && rel[0] == '/' {
        rel
    } else if last_slash(p) >= 0 {
        p.subrange(0, last_slash(p) + 1) + rel
    } else {
        rel
    }
}

/// What resolution yields: the path to read, or the one diagnostic of this
/// stage, anchored at the invocation.
pub open spec fn spec_resolve(invoking: SourceNameView, rel: Seq<char>) -> Result<
    Seq<char>,
    DiagView,
> {
    match invoking {
        SourceNameView::Real { path } => Ok(join_relative(path, rel)),
        SourceNameView::Synthetic { label } => Err(
            DiagView { site: ErrorSite::Invocation, message: msg_nonfile_source(label) },
        ),
    }
}

proof fn lemma_last_slash_bounds(p: Seq<char>)
    ensures
        -1 <= last_slash(p) < p.len(),
        last_slash(p) >= 0 ==> p[last_slash(p)] == '/',
    decreases p.len(),
{
    if p.len() == 0 {
    } else if p[p.len() - 1] == '/' {
    } else {
        lemma_last_slash_bounds(p.drop_last());
    }
}

/// Index of the last `/` in `p`, scanning from the end.
fn find_last_slash(p: &str) -> (r: Option<usize>)
    ensures
        match r {
            Some(i) => last_slash(p@) == i as int,
            None => last_slash(p@) == -1,
        },
{
    let n: usize = p.unicode_len();
    let mut i: usize = n;
    proof {
        assert(p@.subrange(0, n as int) =~= p@);
    }
    while i > 0
        invariant
            i <= n,
            n == p@.len(),
            last_slash(p@) == last_slash(p@.subrange(0, i as int)),
        decreases i,
    {
        let c = p.get_char(i - 1);
        proof {
            let s = p@.subrange(0, i as int);
            assert(s[s.len() - 1] == p@[i - 1]);
            assert(s.drop_last() =~= p@.subrange(0, i - 1));
        }
        if c == '/' {
            return Some(i - 1);
        }
        i = i - 1;
    }
    proof {
        assert(p@.subrange(0, 0) =~= Seq::<char>::empty());
    }
    None
}

/// Resolve the extracted path argument against the invoking source: a real
/// file anchors it at its directory; a synthetic source cannot anchor a
/// relative path at all and yields the resolution diagnostic, whatever the
/// argument's content.
pub fn resolve_relative(invoking: &SourceName, rel: &str) -> (r: Result<String, Diag>)
    requires
        invoking@ matches SourceNameView::Real { path } ==> is_file_path(path),
    ensures
        match r {
            Ok(s) => spec_resolve(invoking@, rel@) == Ok::<Seq<char>, DiagView>(s@),
            Err(d) => spec_resolve(invoking@, rel@) == Err::<Seq<char>, DiagView>(d@),
        },
{
    match invoking {
        SourceName::Synthetic { label } => {
            let message = build_msg_nonfile_source(label.as_str());
            Err(Diag { site: ErrorSite::Invocation, message })
        },
        SourceName::Real { path } => {
            if rel.unicode_len() > 0 && rel.get_char(0) == '/' {
                Ok(String::from_str(rel))
            } else {
                let n: usize = path.as_str().unicode_len();
                match find_last_slash(path.as_str()) {
                    Some(i) => {
                        proof {
                            lemma_last_slash_bounds(path@);
                            assert(i < n);
                        }
                        let dir = path.as_str().substring_char(0, i + 1);
                        Ok(String::from_str(dir).concat(rel))
                    },
                    None => Ok(String::from_str(rel)),
                }
            }
        },
    }
}

} // verus!
