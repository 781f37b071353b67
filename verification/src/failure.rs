//! Structured failures: a machine-readable kind and a text for people.

use vstd::prelude::*;
use vstd::string::StringExecFns;

verus! {

/// Why a request could not be served.
#[derive(Clone, Copy, Debug, PartialEq, Eq, Structural)]
pub enum FailureKind {
    /// The network could not be reached, or the exchange broke off.
    Transport,
    /// The identifier is malformed or in an encoding that is not supported.
    Validation,
    /// The completion could not be delivered to the rendering thread.
    Marshaling,
}

/// A failure that is shown to the renderer.
#[derive(Debug)]
pub struct Failure {
    pub kind: FailureKind,
    pub detail: String,
}

/// The mathematical value of a `Failure`.
pub struct FailureView {
    pub kind: FailureKind,
    pub detail: Seq<char>,
}

impl View for Failure {
    type V = FailureView;

    open spec fn view(&self) -> FailureView {
        FailureView { kind: self.kind, detail: self.detail@ }
    }
}

/// The diagnostic text of a cause: how it is shown, a colon and a blank,
/// and how it is debugged.
pub open spec fn spec_diagnostic(shown: Seq<char>, debugged: Seq<char>) -> Seq<char> {
    shown + ": "@ + debugged
}

/// `detail` is the diagnostic text of some cause.
pub open spec fn is_diagnostic(detail: Seq<char>) -> bool {
    exists|shown: Seq<char>, debugged: Seq<char>| detail == #[trigger] spec_diagnostic(shown, debugged)
}

/// A diagnostic text is never empty, whatever the cause printed.
pub proof fn lemma_diagnostic_not_empty(detail: Seq<char>)
    requires
        is_diagnostic(detail),
    ensures
        detail.len() >= 2,
{
    reveal_strlit(": ");
    let (shown, debugged) = choose|shown: Seq<char>, debugged: Seq<char>|
        detail == #[trigger] spec_diagnostic(shown, debugged);
    assert(detail.len() == shown.len() + 2 + debugged.len());
}

impl Failure {
    /// The failure of kind `kind` for a cause with these two texts.
    pub fn describe(kind: FailureKind, shown: &str, debugged: &str) -> (f: Failure)
        ensures
            f@.kind == kind,
            f@.detail == spec_diagnostic(shown@, debugged@),
            is_diagnostic(f@.detail),
            f@.detail.len() >= 2,
    {
        let detail = String::from_str(shown).concat(": ").concat(debugged);
        proof {
            assert(detail@ == spec_diagnostic(shown@, debugged@));
            lemma_diagnostic_not_empty(detail@);
        }
        Failure { kind, detail }
    }
}

} // verus!
