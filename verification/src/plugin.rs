use crate::diagnostic::{warning_at, Diagnostic, DiagnosticView};
use crate::empty_with_brackets::{variant_diagnostic, EmptyWithBrackets};
use crate::syntax::{
    Expr, ExprMatch, MatchArm, ModuleItem, Pattern, PatternKind, Statement, SyntaxNode,
};
use vstd::prelude::*;

verus! {

/// The lints of this crate, as one analyzer.
#[derive(Debug, Default)]
pub struct CairoLint;

/// The lint that a diagnostic was raised by, as far as its message tells.
#[derive(Debug, PartialEq, Eq, Structural, Clone, Copy)]
pub enum CairoLintKind {
    DestructMatch,
    MatchForEquality,
    EmptyWithBrackets,
    Unknown,
}

/// The message for a `match` that stands for an `if let`.
pub const DESTRUCT_MATCH: &'static str =
    "you seem to be trying to use `match` for destructuring a single pattern. Consider using `if let`";

/// The message for a `match` that stands for an `if`.
pub const MATCH_FOR_EQUALITY: &'static str =
    "you seem to be trying to use `match` for an equality check. Consider using `if`";

/// The message for an enum pattern with empty parentheses.
pub const EMPTY_WITH_BRACKETS: &'static str = "enum variant has empty brackets";

/// The kind that a message text stands for.
pub open spec fn kind_of_message(message: Seq<char>) -> CairoLintKind {
    if message == DESTRUCT_MATCH@ {
        CairoLintKind::DestructMatch
    } else if message == MATCH_FOR_EQUALITY@ {
        CairoLintKind::MatchForEquality
    } else if message == EMPTY_WITH_BRACKETS@ {
        CairoLintKind::EmptyWithBrackets
    } else {
        CairoLintKind::Unknown
    }
}

/// Tells from the text of a message which lint raised it. The text is
/// compared with the three messages as a whole; any other text is `Unknown`.
pub fn diagnostic_kind_from_message(message: &str) -> (kind: CairoLintKind)
    ensures
        kind == kind_of_message(message@),
{
    if message.eq(DESTRUCT_MATCH) {
        CairoLintKind::DestructMatch
    } else if message.eq(MATCH_FOR_EQUALITY) {
        CairoLintKind::MatchForEquality
    } else if message.eq(EMPTY_WITH_BRACKETS) {
        CairoLintKind::EmptyWithBrackets
    } else {
        CairoLintKind::Unknown
    }
}

/// A parenthesised list with no element.
pub open spec fn is_unit(expression: Expr) -> bool {
    expression matches Expr::Tuple(elements) && elements@.len() == 0
}

/// The body does nothing: a block without statements, a block whose one
/// statement is the expression `()`, or `()` itself.
pub open spec fn is_empty_body(expression: Expr) -> bool {
    match expression {
        Expr::Block(statements) => statements@.len() == 0 || (statements@.len() == 1 && (
        statements@[0] matches Statement::Expr(inner) && is_unit(inner))),
        Expr::Tuple(elements) => elements@.len() == 0,
        Expr::Other => false,
    }
}

/// The arm catches everything and does nothing.
pub open spec fn is_catch_all(arm: MatchArm) -> bool {
    arm.pattern.kind is Underscore && is_empty_body(arm.expression)
}

/// The arm's pattern takes a value apart: an enum pattern with something
/// behind the variant's path, or a struct pattern.
pub open spec fn is_destructuring_arm(arm: MatchArm) -> bool {
    match arm.pattern.kind {
        PatternKind::Enum { inner } => inner@.len() > 0,
        PatternKind::Struct => arm.pattern.text@.len() > 0,
        _ => false,
    }
}

/// Some arm catches everything and does nothing.
pub open spec fn is_single_armed(arms: Seq<MatchArm>) -> bool {
    exists|i: int| 0 <= i < arms.len() && is_catch_all(#[trigger] arms[i])
}

/// Some arm takes a value apart.
pub open spec fn is_destructuring(arms: Seq<MatchArm>) -> bool {
    exists|i: int| 0 <= i < arms.len() && is_destructuring_arm(#[trigger] arms[i])
}

/// The message that a `match` with these arms is reported with, if it is
/// reported: only one of two arms is, of which one catches everything and does
/// nothing. It then stands for an `if let` where an arm takes a value apart,
/// and for an `if` where none does.
pub open spec fn match_message(arms: Seq<MatchArm>) -> Option<Seq<char>> {
    if arms.len() == 2 && is_single_armed(arms) {
        if is_destructuring(arms) {
            Some(DESTRUCT_MATCH@)
        } else {
            Some(MATCH_FOR_EQUALITY@)
        }
    } else {
        None
    }
}

/// What the rule on `match` reports of one `match`: at most one warning, at
/// the `match` itself.
pub open spec fn match_diagnostics(match_expr: ExprMatch) -> Seq<DiagnosticView> {
    match match_message(match_expr.arms@) {
        Some(message) => seq![warning_at(match_expr.stable_ptr, message)],
        None => Seq::empty(),
    }
}

/// What the rules report of one node.
pub open spec fn node_diagnostics(node: SyntaxNode) -> Seq<DiagnosticView> {
    match node {
        SyntaxNode::Match(match_expr) => match_diagnostics(match_expr),
        SyntaxNode::Pattern(pattern) => match variant_diagnostic(pattern) {
            Some(diagnostic) => seq![diagnostic],
            None => Seq::empty(),
        },
        SyntaxNode::Other => Seq::empty(),
    }
}

/// What the rules report of a function's nodes: the reports of each node, in
/// the order of the nodes.
pub open spec fn nodes_diagnostics(nodes: Seq<SyntaxNode>) -> Seq<DiagnosticView> {
    nodes.map_values(|node: SyntaxNode| node_diagnostics(node)).flatten()
}

/// The nodes of an item that the rules walk: those of a free function whose
/// syntax was found. No other item is walked.
pub open spec fn walked_nodes(item: ModuleItem) -> Seq<SyntaxNode> {
    match item {
        ModuleItem::FreeFunction(Some(function)) => function.descendants@,
        _ => Seq::empty(),
    }
}

/// What the rules report of one item of a module.
pub open spec fn item_diagnostics(item: ModuleItem) -> Seq<DiagnosticView> {
    nodes_diagnostics(walked_nodes(item))
}

/// What the rules report of the items of a module, in the order of the items.
pub open spec fn items_diagnostics(items: Seq<ModuleItem>) -> Seq<DiagnosticView> {
    items.map_values(|item: ModuleItem| item_diagnostics(item)).flatten()
}

/// What the rules report of a module: nothing where its items could not be
/// found.
pub open spec fn module_diagnostics(items: Option<Vec<ModuleItem>>) -> Seq<DiagnosticView> {
    match items {
        Some(items) => items_diagnostics(items@),
        None => Seq::empty(),
    }
}

/// The first `n + 1` sequences joined are the first `n` joined, and then the
/// one at `n`.
pub proof fn lemma_flatten_take_next<A>(parts: Seq<Seq<A>>, n: int)
    requires
        0 <= n < parts.len(),
    ensures
        parts.take(n + 1).flatten() == parts.take(n).flatten() + parts[n],
{
    assert(parts.take(n + 1) =~= parts.take(n).push(parts[n]));
    parts.take(n).lemma_flatten_push(parts[n]);
}

impl CairoLint {
    fn has_empty_body(expression: &Expr) -> (empty: bool)
        ensures
            empty == is_empty_body(*expression),
    {
        match expression {
            Expr::Block(statements) => {
                if statements.len() == 0 {
                    true
                } else if statements.len() == 1 {
                    match &statements[0] {
                        Statement::Expr(Expr::Tuple(elements)) => elements.len() == 0,
                        _ => false,
                    }
                } else {
                    false
                }
            },
            Expr::Tuple(elements) => elements.len() == 0,
            Expr::Other => false,
        }
    }

    /// Adds to `diagnostics` what the rule on `match` reports of `match_expr`.
    pub fn check_destruct_match(&self, match_expr: &ExprMatch, diagnostics: &mut Vec<Diagnostic>)
        ensures
            final(diagnostics).deep_view() == old(diagnostics).deep_view() + match_diagnostics(
                *match_expr,
            ),
    {
        let arms = &match_expr.arms;
        let mut single_armed = false;
        let mut destructuring = false;
        if arms.len() == 2 {
            let mut i: usize = 0;
            while i < arms.len()
                invariant
                    i <= arms.len(),
                    single_armed == is_single_armed(arms@.take(i as int)),
                    destructuring == is_destructuring(arms@.take(i as int)),
                decreases arms.len() - i,
            {
                let arm = &arms[i];
                proof {
                    let seen = arms@.take(i as int);
                    let next = arms@.take(i + 1);
                    assert(next[i as int] == *arm);
                    assert(forall|j: int| 0 <= j < seen.len() ==> seen[j] == next[j]);
                }
                match &arm.pattern.kind {
                    PatternKind::Underscore => {
                        if Self::has_empty_body(&arm.expression) {
                            single_armed = true;
                        }
                    },
                    PatternKind::Enum { inner } => {
                        if !inner.as_str().is_empty() {
                            destructuring = true;
                        }
                    },
                    PatternKind::Struct => {
                        if !arm.pattern.text.as_str().is_empty() {
                            destructuring = true;
                        }
                    },
                    PatternKind::Other => (),
                }
                i += 1;
            }
            assert(arms@.take(i as int) =~= arms@);
        }
        let ghost before = diagnostics.deep_view();
        match (single_armed, destructuring) {
            (true, false) => {
                diagnostics.push(Diagnostic::warning(match_expr.stable_ptr, MATCH_FOR_EQUALITY));
                assert(diagnostics.deep_view() =~= before + match_diagnostics(*match_expr));
            },
            (true, true) => {
                diagnostics.push(Diagnostic::warning(match_expr.stable_ptr, DESTRUCT_MATCH));
                assert(diagnostics.deep_view() =~= before + match_diagnostics(*match_expr));
            },
            (_, _) => {
                assert(diagnostics.deep_view() =~= before + match_diagnostics(*match_expr));
            },
        }
    }

    /// What the rule on empty parentheses reports of a pattern.
    pub fn check_variant(&self, variant: &Pattern) -> (diagnostic: Option<Diagnostic>)
        ensures
            diagnostic.deep_view() == variant_diagnostic(*variant),
    {
        EmptyWithBrackets.check_variant(variant)
    }

    /// The diagnostics of a module, given its items as far as they could be
    /// found: those of each free function's nodes, item by item and node by
    /// node.
    pub fn diagnostics(&self, module_items: &Option<Vec<ModuleItem>>) -> (diags: Vec<Diagnostic>)
        ensures
            diags.deep_view() == module_diagnostics(*module_items),
    {
        let mut diags: Vec<Diagnostic> = Vec::new();
        let items = match module_items {
            Some(items) => items,
            None => {
                return diags;
            },
        };
        let ghost per_item = items@.map_values(|item: ModuleItem| item_diagnostics(item));
        let mut n: usize = 0;
        while n < items.len()
            invariant
                n <= items.len(),
                per_item == items@.map_values(|item: ModuleItem| item_diagnostics(item)),
                diags.deep_view() == per_item.take(n as int).flatten(),
            decreases items.len() - n,
        {
            let ghost before = diags.deep_view();
            match &items[n] {
                ModuleItem::FreeFunction(Some(function)) => {
                    let descendants = &function.descendants;
                    let ghost per_node = descendants@.map_values(
                        |node: SyntaxNode| node_diagnostics(node),
                    );
                    let mut i: usize = 0;
                    while i < descendants.len()
                        invariant
                            i <= descendants.len(),
                            per_node == descendants@.map_values(
                                |node: SyntaxNode| node_diagnostics(node),
                            ),
                            diags.deep_view() == before + per_node.take(i as int).flatten(),
                        decreases descendants.len() - i,
                    {
                        let ghost so_far = diags.deep_view();
                        match &descendants[i] {
                            SyntaxNode::Match(match_expr) => {
                                self.check_destruct_match(match_expr, &mut diags);
                            },
                            SyntaxNode::Pattern(pattern) => {
                                if let Some(diag) = self.check_variant(pattern) {
                                    diags.push(diag);
                                }
                            },
                            SyntaxNode::Other => (),
                        }
                        proof {
                            assert(diags.deep_view() =~= so_far + per_node[i as int]);
                            lemma_flatten_take_next(per_node, i as int);
                        }
                        i += 1;
                    }
                    assert(per_node.take(i as int) =~= per_node);
                },
                ModuleItem::FreeFunction(None) => (),
                ModuleItem::ExternFunction => (),
                ModuleItem::Other => (),
            }
            proof {
                assert(diags.deep_view() =~= before + per_item[n as int]);
                lemma_flatten_take_next(per_item, n as int);
            }
            n += 1;
        }
        assert(per_item.take(n as int) =~= per_item);
        diags
    }
}

} // verus!
