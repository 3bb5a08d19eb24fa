use cairo_lang_syntax::node::ids::SyntaxStablePtrId;
use vstd::prelude::*;

verus! {

/// `cairo_lang_syntax::node::ids::SyntaxStablePtrId`: the interned pointer by
/// which the compiler finds a syntax node again. Nothing is claimed of what
/// it holds; the rules only carry it from a node to the diagnostic.
#[verifier::external_type_specification]
#[verifier::external_body]
pub struct ExSyntaxStablePtrId(SyntaxStablePtrId);

/// How grave a diagnostic is.
#[derive(Debug, Clone, Copy, PartialEq, Eq, Structural)]
pub enum Severity {
    Warning,
    Error,
    Info,
}

/// One finding of a lint rule.
#[derive(Debug, PartialEq, Eq)]
pub struct Diagnostic {
    /// The node that the finding is about.
    pub stable_ptr: SyntaxStablePtrId,
    pub message: String,
    pub severity: Severity,
}

/// A diagnostic with its message as a sequence of characters.
pub struct DiagnosticView {
    pub stable_ptr: SyntaxStablePtrId,
    pub message: Seq<char>,
    pub severity: Severity,
}

impl View for Diagnostic {
    type V = DiagnosticView;

    open spec fn view(&self) -> DiagnosticView {
        DiagnosticView {
            stable_ptr: self.stable_ptr,
            message: self.message@,
            severity: self.severity,
        }
    }
}

impl DeepView for Diagnostic {
    type V = DiagnosticView;

    open spec fn deep_view(&self) -> DiagnosticView {
        self@
    }
}

/// The warning with the given message at the given node.
pub open spec fn warning_at(stable_ptr: SyntaxStablePtrId, message: Seq<char>) -> DiagnosticView {
    DiagnosticView { stable_ptr, message, severity: Severity::Warning }
}

impl Diagnostic {
    /// A warning with the given message at the given node.
    pub fn warning(stable_ptr: SyntaxStablePtrId, message: &str) -> (diagnostic: Diagnostic)
        ensures
            diagnostic@ == warning_at(stable_ptr, message@),
    {
        Diagnostic { stable_ptr, message: message.to_owned(), severity: Severity::Warning }
    }
}

} // verus!
