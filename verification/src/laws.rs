//! What holds of the rules on every module, proved from their definitions.

use crate::diagnostic::{warning_at, DiagnosticView, Severity};
use crate::empty_with_brackets::{has_redundant_parentheses, EMPTY_PARENTHESES};
use crate::plugin::{
    is_catch_all, is_destructuring_arm, item_diagnostics, items_diagnostics, kind_of_message,
    match_diagnostics, module_diagnostics, node_diagnostics, nodes_diagnostics, walked_nodes,
    CairoLintKind, DESTRUCT_MATCH, EMPTY_WITH_BRACKETS, MATCH_FOR_EQUALITY,
};
use crate::syntax::{ExprMatch, ModuleItem, Pattern, SyntaxNode};
use crate::text::has_substring;
use vstd::prelude::*;
use vstd::seq_lib::lemma_flatten_concat;

verus! {

/// Item `n` of the module is walked, and has a node at place `i`.
pub open spec fn has_node(items: Seq<ModuleItem>, n: int, i: int) -> bool {
    0 <= n < items.len() && 0 <= i < walked_nodes(items[n]).len()
}

/// The node at place `i` of item `n`.
pub open spec fn node_at(items: Seq<ModuleItem>, n: int, i: int) -> SyntaxNode {
    walked_nodes(items[n])[i]
}

/// What is reported of all that stands before node `i` of item `n`: of the
/// items before that item, and of the nodes before that node.
pub open spec fn diagnostics_before(items: Seq<ModuleItem>, n: int, i: int) -> Seq<DiagnosticView> {
    items_diagnostics(items.take(n)) + nodes_diagnostics(walked_nodes(items[n]).take(i))
}

/// What is reported of all that stands behind node `i` of item `n`: of the
/// nodes behind that node, and of the items behind that item.
pub open spec fn diagnostics_after(items: Seq<ModuleItem>, n: int, i: int) -> Seq<DiagnosticView> {
    nodes_diagnostics(walked_nodes(items[n]).skip(i + 1)) + items_diagnostics(items.skip(n + 1))
}

/// A warning with one of the three messages.
pub open spec fn is_known_warning(diagnostic: DiagnosticView) -> bool {
    diagnostic.severity == Severity::Warning && kind_of_message(diagnostic.message)
        != CairoLintKind::Unknown
}

/// The three messages differ from one another.
pub proof fn lemma_messages_distinct()
    ensures
        DESTRUCT_MATCH@ != MATCH_FOR_EQUALITY@,
        DESTRUCT_MATCH@ != EMPTY_WITH_BRACKETS@,
        MATCH_FOR_EQUALITY@ != EMPTY_WITH_BRACKETS@,
{
    reveal_strlit(
        "you seem to be trying to use `match` for destructuring a single pattern. Consider using `if let`",
    );
    reveal_strlit("you seem to be trying to use `match` for an equality check. Consider using `if`");
    reveal_strlit("enum variant has empty brackets");
    assert(DESTRUCT_MATCH@.len() != MATCH_FOR_EQUALITY@.len());
    assert(DESTRUCT_MATCH@[0] != EMPTY_WITH_BRACKETS@[0]);
    assert(MATCH_FOR_EQUALITY@[0] != EMPTY_WITH_BRACKETS@[0]);
}

/// Sequences joined are those before place `n` joined, the one at `n`, and
/// those behind it joined.
pub proof fn lemma_flatten_split<A>(parts: Seq<Seq<A>>, n: int)
    requires
        0 <= n < parts.len(),
    ensures
        parts.flatten() == parts.take(n).flatten() + parts[n] + parts.skip(n + 1).flatten(),
{
    let head = parts.take(n);
    let tail = parts.skip(n + 1);
    assert(parts =~= head.push(parts[n]) + tail);
    lemma_flatten_concat(head.push(parts[n]), tail);
    head.lemma_flatten_push(parts[n]);
}

/// What holds of every element of every part holds of every element of the
/// parts joined.
pub proof fn lemma_flatten_all<A>(parts: Seq<Seq<A>>, holds: spec_fn(A) -> bool)
    requires
        forall|n: int, k: int|
            0 <= n < parts.len() && 0 <= k < parts[n].len() ==> holds(#[trigger] parts[n][k]),
    ensures
        forall|k: int| 0 <= k < parts.flatten().len() ==> holds(#[trigger] parts.flatten()[k]),
    decreases parts.len(),
{
    if parts.len() > 0 {
        let rest = parts.drop_first();
        assert forall|n: int, k: int| 0 <= n < rest.len() && 0 <= k < rest[n].len() implies holds(
            #[trigger] rest[n][k],
        ) by {
            assert(rest[n][k] == parts[n + 1][k]);
        }
        lemma_flatten_all(rest, holds);
        assert forall|k: int| 0 <= k < parts.flatten().len() implies holds(
            #[trigger] parts.flatten()[k],
        ) by {
            if k < parts[0].len() {
                assert(parts.flatten()[k] == parts[0][k]);
            } else {
                assert(parts.flatten()[k] == rest.flatten()[k - parts[0].len()]);
            }
        }
    }
}

/// The diagnostics of a module come in document order: each node's own stand
/// between those of all that is before the node and those of all that is
/// behind it.
pub proof fn law_document_order(items: Vec<ModuleItem>, n: int, i: int)
    requires
        has_node(items@, n, i),
    ensures
        module_diagnostics(Some(items)) == diagnostics_before(items@, n, i) + node_diagnostics(
            node_at(items@, n, i),
        ) + diagnostics_after(items@, n, i),
{
    let of_item = |item: ModuleItem| item_diagnostics(item);
    let of_node = |node: SyntaxNode| node_diagnostics(node);
    let nodes = walked_nodes(items@[n]);
    let per_item = items@.map_values(of_item);
    let per_node = nodes.map_values(of_node);
    lemma_flatten_split(per_item, n);
    lemma_flatten_split(per_node, i);
    assert(per_item.take(n) =~= items@.take(n).map_values(of_item));
    assert(per_item.skip(n + 1) =~= items@.skip(n + 1).map_values(of_item));
    assert(per_node.take(i) =~= nodes.take(i).map_values(of_node));
    assert(per_node.skip(i + 1) =~= nodes.skip(i + 1).map_values(of_node));
    assert(module_diagnostics(Some(items)) =~= diagnostics_before(items@, n, i) + node_diagnostics(
        node_at(items@, n, i),
    ) + diagnostics_after(items@, n, i));
}

/// A `match` of two arms, of which one catches everything and does nothing
/// and the other takes nothing apart, is reported once, at the `match`, as an
/// equality check: the module's diagnostics hold that one warning for it.
pub proof fn law_match_for_equality(
    items: Vec<ModuleItem>,
    n: int,
    i: int,
    match_expr: ExprMatch,
    catch_all: int,
)
    requires
        has_node(items@, n, i),
        node_at(items@, n, i) == SyntaxNode::Match(match_expr),
        match_expr.arms@.len() == 2,
        0 <= catch_all < 2,
        is_catch_all(match_expr.arms@[catch_all]),
        !is_destructuring_arm(match_expr.arms@[1 - catch_all]),
    ensures
        match_diagnostics(match_expr) == seq![
            warning_at(match_expr.stable_ptr, MATCH_FOR_EQUALITY@),
        ],
        module_diagnostics(Some(items)) == diagnostics_before(items@, n, i) + seq![
            warning_at(match_expr.stable_ptr, MATCH_FOR_EQUALITY@),
        ] + diagnostics_after(items@, n, i),
        kind_of_message(MATCH_FOR_EQUALITY@) == CairoLintKind::MatchForEquality,
{
    lemma_messages_distinct();
    law_document_order(items, n, i);
}

/// A `match` of two arms, of which one catches everything and does nothing
/// and the other takes a value apart, is reported once, at the `match`, as the
/// destructuring of a single pattern: the module's diagnostics hold that one
/// warning for it.
pub proof fn law_destruct_match(
    items: Vec<ModuleItem>,
    n: int,
    i: int,
    match_expr: ExprMatch,
    catch_all: int,
)
    requires
        has_node(items@, n, i),
        node_at(items@, n, i) == SyntaxNode::Match(match_expr),
        match_expr.arms@.len() == 2,
        0 <= catch_all < 2,
        is_catch_all(match_expr.arms@[catch_all]),
        is_destructuring_arm(match_expr.arms@[1 - catch_all]),
    ensures
        match_diagnostics(match_expr) == seq![warning_at(match_expr.stable_ptr, DESTRUCT_MATCH@)],
        module_diagnostics(Some(items)) == diagnostics_before(items@, n, i) + seq![
            warning_at(match_expr.stable_ptr, DESTRUCT_MATCH@),
        ] + diagnostics_after(items@, n, i),
        kind_of_message(DESTRUCT_MATCH@) == CairoLintKind::DestructMatch,
{
    law_document_order(items, n, i);
}

/// A `match` with any other number of arms than two is not reported, whatever
/// its arms hold.
pub proof fn law_other_arity_is_silent(items: Vec<ModuleItem>, n: int, i: int, match_expr: ExprMatch)
    requires
        has_node(items@, n, i),
        node_at(items@, n, i) == SyntaxNode::Match(match_expr),
        match_expr.arms@.len() != 2,
    ensures
        match_diagnostics(match_expr) == Seq::<DiagnosticView>::empty(),
        module_diagnostics(Some(items)) == diagnostics_before(items@, n, i) + diagnostics_after(
            items@,
            n,
            i,
        ),
{
    law_document_order(items, n, i);
    assert(diagnostics_before(items@, n, i) + Seq::<DiagnosticView>::empty()
        =~= diagnostics_before(items@, n, i));
}

/// An enum pattern whose text holds `()` is reported at the pattern, with the
/// message that stands for empty brackets.
pub proof fn law_redundant_parentheses(items: Vec<ModuleItem>, n: int, i: int, pattern: Pattern)
    requires
        has_node(items@, n, i),
        node_at(items@, n, i) == SyntaxNode::Pattern(pattern),
        pattern.kind is Enum,
        has_substring(pattern.text@, EMPTY_PARENTHESES@),
    ensures
        module_diagnostics(Some(items)) == diagnostics_before(items@, n, i) + seq![
            warning_at(pattern.stable_ptr, EMPTY_WITH_BRACKETS@),
        ] + diagnostics_after(items@, n, i),
        kind_of_message(EMPTY_WITH_BRACKETS@) == CairoLintKind::EmptyWithBrackets,
{
    lemma_messages_distinct();
    law_document_order(items, n, i);
    assert(has_redundant_parentheses(pattern));
}

/// Each of the three messages stands for its own kind.
pub proof fn law_messages_round_trip()
    ensures
        kind_of_message(DESTRUCT_MATCH@) == CairoLintKind::DestructMatch,
        kind_of_message(MATCH_FOR_EQUALITY@) == CairoLintKind::MatchForEquality,
        kind_of_message(EMPTY_WITH_BRACKETS@) == CairoLintKind::EmptyWithBrackets,
{
    lemma_messages_distinct();
}

/// Any text but the three messages stands for `Unknown`.
pub proof fn law_other_text_is_unknown(message: Seq<char>)
    requires
        message != DESTRUCT_MATCH@,
        message != MATCH_FOR_EQUALITY@,
        message != EMPTY_WITH_BRACKETS@,
    ensures
        kind_of_message(message) == CairoLintKind::Unknown,
{
}

/// Only a free function whose syntax was found is walked: any other item, an
/// extern function among them, adds nothing to the module's diagnostics.
pub proof fn law_only_functions_are_walked(item: ModuleItem)
    requires
        !(item matches ModuleItem::FreeFunction(Some(_))),
    ensures
        walked_nodes(item) == Seq::<SyntaxNode>::empty(),
        item_diagnostics(item) == Seq::<DiagnosticView>::empty(),
{
    assert(walked_nodes(item).map_values(|node: SyntaxNode| node_diagnostics(node))
        =~= Seq::<Seq<DiagnosticView>>::empty());
}

/// Every diagnostic of a module is a warning with one of the three messages.
pub proof fn law_only_known_warnings(items: Option<Vec<ModuleItem>>, k: int)
    requires
        0 <= k < module_diagnostics(items).len(),
    ensures
        is_known_warning(module_diagnostics(items)[k]),
{
    lemma_messages_distinct();
    let holds = |diagnostic: DiagnosticView| is_known_warning(diagnostic);
    let items = items->Some_0@;
    let per_item = items.map_values(|item: ModuleItem| item_diagnostics(item));
    assert forall|n: int, j: int| 0 <= n < per_item.len() && 0 <= j < per_item[n].len() implies holds(
        #[trigger] per_item[n][j],
    ) by {
        let nodes = walked_nodes(items[n]);
        let per_node = nodes.map_values(|node: SyntaxNode| node_diagnostics(node));
        assert forall|m: int, l: int|
            0 <= m < per_node.len() && 0 <= l < per_node[m].len() implies holds(
            #[trigger] per_node[m][l],
        ) by {
            assert(per_node[m] == node_diagnostics(nodes[m]));
        }
        lemma_flatten_all(per_node, holds);
    }
    lemma_flatten_all(per_item, holds);
}

} // verus!
