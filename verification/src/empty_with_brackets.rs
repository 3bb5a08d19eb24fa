use crate::diagnostic::{warning_at, Diagnostic, DiagnosticView};
use crate::plugin::EMPTY_WITH_BRACKETS;
use crate::syntax::{Pattern, PatternKind};
use crate::text::{contains, has_substring};
use vstd::prelude::*;

verus! {

/// An opening parenthesis with its closing one right behind it.
pub const EMPTY_PARENTHESES: &'static str = "()";

/// The pattern is an enum pattern whose text holds `()`.
pub open spec fn has_redundant_parentheses(pattern: Pattern) -> bool {
    pattern.kind is Enum && has_substring(pattern.text@, EMPTY_PARENTHESES@)
}

/// What the rule reports of a pattern: a warning at the pattern where it has
/// redundant parentheses, and nothing else.
pub open spec fn variant_diagnostic(pattern: Pattern) -> Option<DiagnosticView> {
    if has_redundant_parentheses(pattern) {
        Some(warning_at(pattern.stable_ptr, EMPTY_WITH_BRACKETS@))
    } else {
        None
    }
}

/// The rule on enum patterns with empty parentheses.
#[derive(Debug, Default)]
pub struct EmptyWithBrackets;

impl EmptyWithBrackets {
    pub fn check_variant(&self, variant: &Pattern) -> (diagnostic: Option<Diagnostic>)
        ensures
            diagnostic.deep_view() == variant_diagnostic(*variant),
    {
        if self.is_redundant_parentheses(variant) {
            return Some(Diagnostic::warning(variant.stable_ptr, EMPTY_WITH_BRACKETS));
        }
        None
    }

    pub fn is_redundant_parentheses(&self, pattern: &Pattern) -> (redundant: bool)
        ensures
            redundant == has_redundant_parentheses(*pattern),
    {
        match &pattern.kind {
            PatternKind::Enum { .. } => contains(pattern.text.as_str(), EMPTY_PARENTHESES),
            _ => false,
        }
    }
}

} // verus!
