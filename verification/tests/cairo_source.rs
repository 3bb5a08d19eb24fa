use cairo_lang_parser::utils::SimpleParserDatabase;
use cairo_lang_syntax::node::ast;
use cairo_lang_syntax::node::db::SyntaxGroup;
use cairo_lang_syntax::node::ids::SyntaxStablePtrId;
use cairo_lang_syntax::node::kind::SyntaxKind;
use cairo_lang_syntax::node::{SyntaxNode as CairoNode, TypedStablePtr, TypedSyntaxNode};
use cairo_lint_core::diagnostic::{Diagnostic, Severity};
use cairo_lint_core::plugin::{
    diagnostic_kind_from_message, CairoLint, CairoLintKind, DESTRUCT_MATCH, EMPTY_WITH_BRACKETS,
    MATCH_FOR_EQUALITY,
};
use cairo_lint_core::syntax::{
    Expr, ExprMatch, FunctionWithBody, MatchArm, ModuleItem, Pattern, PatternKind, Statement,
    SyntaxNode,
};

fn read_file(db: &dyn SyntaxGroup, root: &CairoNode) -> Vec<ModuleItem> {
    let items = ast::SyntaxFile::from_syntax_node(db, root.clone()).items(db).elements(db);
    items
        .iter()
        .map(|item| match item {
            ast::ModuleItem::FreeFunction(function) => {
                ModuleItem::FreeFunction(Some(read_function(db, function)))
            }
            ast::ModuleItem::ExternFunction(_) => ModuleItem::ExternFunction,
            _ => ModuleItem::Other,
        })
        .collect()
}

fn read_function(db: &dyn SyntaxGroup, function: &ast::FunctionWithBody) -> FunctionWithBody {
    let descendants = function.as_syntax_node().descendants(db);
    FunctionWithBody { descendants: descendants.map(|node| read_node(db, node)).collect() }
}

fn read_node(db: &dyn SyntaxGroup, node: CairoNode) -> SyntaxNode {
    match node.kind(db) {
        SyntaxKind::ExprMatch => {
            SyntaxNode::Match(read_match(db, &ast::ExprMatch::from_syntax_node(db, node)))
        }
        SyntaxKind::PatternEnum => {
            SyntaxNode::Pattern(read_pattern(db, &ast::Pattern::from_syntax_node(db, node)))
        }
        _ => SyntaxNode::Other,
    }
}

fn read_match(db: &dyn SyntaxGroup, match_expr: &ast::ExprMatch) -> ExprMatch {
    let arms = match_expr.arms(db).elements(db);
    ExprMatch {
        arms: arms.iter().map(|arm| read_arm(db, arm)).collect(),
        stable_ptr: match_expr.stable_ptr().untyped(),
    }
}

fn read_arm(db: &dyn SyntaxGroup, arm: &ast::MatchArm) -> MatchArm {
    let patterns = arm.patterns(db).elements(db);
    MatchArm {
        pattern: read_pattern(db, &patterns[0]),
        expression: read_expr(db, &arm.expression(db)),
    }
}

fn read_pattern(db: &dyn SyntaxGroup, pattern: &ast::Pattern) -> Pattern {
    let kind = match pattern {
        ast::Pattern::Underscore(_) => PatternKind::Underscore,
        ast::Pattern::Enum(pattern) => {
            PatternKind::Enum { inner: pattern.pattern(db).as_syntax_node().get_text(db) }
        }
        ast::Pattern::Struct(_) => PatternKind::Struct,
        _ => PatternKind::Other,
    };
    Pattern {
        kind,
        text: pattern.as_syntax_node().get_text(db),
        stable_ptr: pattern.stable_ptr().untyped(),
    }
}

fn read_expr(db: &dyn SyntaxGroup, expr: &ast::Expr) -> Expr {
    match expr {
        ast::Expr::Block(block) => {
            let statements = block.statements(db).elements(db);
            Expr::Block(statements.iter().map(|statement| read_statement(db, statement)).collect())
        }
        ast::Expr::Tuple(tuple) => {
            let elements = tuple.expressions(db).elements(db);
            Expr::Tuple(elements.iter().map(|element| read_expr(db, element)).collect())
        }
        _ => Expr::Other,
    }
}

fn read_statement(db: &dyn SyntaxGroup, statement: &ast::Statement) -> Statement {
    match statement {
        ast::Statement::Expr(statement) => Statement::Expr(read_expr(db, &statement.expr(db))),
        _ => Statement::Other,
    }
}

/// The diagnostics of a source file, and the pointers to its nodes of the
/// given kind, in document order.
fn lint(code: &str, kind: SyntaxKind) -> (Vec<Diagnostic>, Vec<SyntaxStablePtrId>) {
    let db = SimpleParserDatabase::default();
    let (root, _) = db.parse_virtual_with_diagnostics(code);
    let nodes = root
        .descendants(&db)
        .filter(|node| node.kind(&db) == kind)
        .map(|node| node.stable_ptr())
        .collect();
    (CairoLint.diagnostics(&Some(read_file(&db, &root))), nodes)
}

fn warning(stable_ptr: SyntaxStablePtrId, message: &str) -> Diagnostic {
    Diagnostic { stable_ptr, message: message.to_string(), severity: Severity::Warning }
}

#[test]
fn match_on_a_variant_without_fields_is_an_equality_check() {
    let code = "fn f(shape: Shape) { match shape { Shape::Circle => {}, _ => {} } }";
    let (found, matches) = lint(code, SyntaxKind::ExprMatch);
    assert_eq!(matches.len(), 1);
    assert_eq!(found, vec![warning(matches[0], MATCH_FOR_EQUALITY)]);
    assert_eq!(diagnostic_kind_from_message(&found[0].message), CairoLintKind::MatchForEquality);
}

#[test]
fn match_on_a_literal_is_an_equality_check() {
    let code = "fn f(x: felt252) { match x { 0 => { g(); }, _ => (), } }";
    let (found, matches) = lint(code, SyntaxKind::ExprMatch);
    assert_eq!(found, vec![warning(matches[0], MATCH_FOR_EQUALITY)]);
}

#[test]
fn catch_all_with_unit_in_a_block_is_empty() {
    let code = "fn f(x: felt252) { match x { _ => { () }, 0 => { g(); } } }";
    let (found, matches) = lint(code, SyntaxKind::ExprMatch);
    assert_eq!(found, vec![warning(matches[0], MATCH_FOR_EQUALITY)]);
}

#[test]
fn catch_all_with_a_call_is_not_reported() {
    let code = "fn f(x: felt252) { match x { 0 => {}, _ => { g(); } } }";
    let (found, matches) = lint(code, SyntaxKind::ExprMatch);
    assert_eq!(matches.len(), 1);
    assert_eq!(found, vec![]);
}

#[test]
fn match_on_a_struct_pattern_is_a_destructuring() {
    let code = "fn f(p: Point) { match p { Point { x, y } => { g(x, y); }, _ => {} } }";
    let (found, matches) = lint(code, SyntaxKind::ExprMatch);
    assert_eq!(found, vec![warning(matches[0], DESTRUCT_MATCH)]);
}

#[test]
fn match_on_a_unit_payload_reads_as_cairo_renders_it() {
    let code = "fn f(shape: Shape) { match shape { Shape::Circle(()) => {}, _ => {} } }";
    let (found, matches) = lint(code, SyntaxKind::ExprMatch);
    let (_, patterns) = lint(code, SyntaxKind::PatternEnum);
    assert_eq!(patterns.len(), 1);
    assert_eq!(
        found,
        vec![warning(matches[0], DESTRUCT_MATCH), warning(patterns[0], EMPTY_WITH_BRACKETS)]
    );
}

#[test]
fn match_that_binds_a_field_in_source() {
    let code = "fn f(shape: Shape) { match shape { Shape::Circle(radius) => {}, _ => {} } }";
    let (found, matches) = lint(code, SyntaxKind::ExprMatch);
    assert_eq!(matches.len(), 1);
    assert_eq!(found, vec![warning(matches[0], DESTRUCT_MATCH)]);
    assert_eq!(diagnostic_kind_from_message(&found[0].message), CairoLintKind::DestructMatch);
}

#[test]
fn match_of_three_arms_in_source() {
    let code = "fn f(shape: Shape) {
        match shape { Shape::Circle(radius) => {}, Shape::Square(side) => {}, _ => {} }
    }";
    let (found, matches) = lint(code, SyntaxKind::ExprMatch);
    assert_eq!(matches.len(), 1);
    assert_eq!(found, vec![]);
}

#[test]
fn pattern_with_empty_parentheses_in_source() {
    let code = "fn f(shape: Shape) { let Shape::Circle() = shape; }";
    let (found, patterns) = lint(code, SyntaxKind::PatternEnum);
    assert_eq!(patterns.len(), 1);
    assert_eq!(found, vec![warning(patterns[0], EMPTY_WITH_BRACKETS)]);
    assert_eq!(diagnostic_kind_from_message(&found[0].message), CairoLintKind::EmptyWithBrackets);
}

#[test]
fn extern_function_in_source() {
    let code = "extern fn f(shape: Shape) -> felt252 nopanic;";
    let (found, _) = lint(code, SyntaxKind::ExprMatch);
    assert_eq!(found, vec![]);
    let db = SimpleParserDatabase::default();
    let root = db.parse_virtual(code).unwrap();
    assert_eq!(read_file(&db, &root), vec![ModuleItem::ExternFunction]);
}

#[test]
fn items_that_are_no_functions_are_not_walked() {
    let code = "struct Point { x: felt252, y: felt252 }
        const A: felt252 = 1;
        extern fn g() nopanic;
        fn f(p: Option<felt252>) { match p { Option::Some(x) => {}, _ => () } }";
    let (found, matches) = lint(code, SyntaxKind::ExprMatch);
    assert_eq!(found, vec![warning(matches[0], DESTRUCT_MATCH)]);
}

#[test]
fn nested_matches_are_reported_outermost_first() {
    let code = "fn f(a: A, b: B) {
        match a {
            A::X(x) => { match b { B::Y => {}, _ => {} } },
            _ => {},
        }
    }
    fn g(c: C) { match c { C::Z() => {}, _ => {} } }";
    let (found, matches) = lint(code, SyntaxKind::ExprMatch);
    let (_, patterns) = lint(code, SyntaxKind::PatternEnum);
    assert_eq!(matches.len(), 3);
    assert_eq!(patterns.len(), 3);
    assert_eq!(
        found,
        vec![
            warning(matches[0], DESTRUCT_MATCH),
            warning(matches[1], MATCH_FOR_EQUALITY),
            warning(matches[2], DESTRUCT_MATCH),
            warning(patterns[2], EMPTY_WITH_BRACKETS),
        ]
    );
}
