use cairo_lang_syntax::node::ids::SyntaxStablePtrId;
use vstd::prelude::*;

verus! {

/// An expression, as far as the rules tell expressions apart.
#[derive(Debug, PartialEq, Eq)]
pub enum Expr {
    /// A block, with its statements in order.
    Block(Vec<Statement>),
    /// A parenthesised list of expressions, with its elements in order.
    Tuple(Vec<Expr>),
    /// Any other expression.
    Other,
}

/// A statement of a block.
#[derive(Debug, PartialEq, Eq)]
pub enum Statement {
    /// An expression that stands as a statement.
    Expr(Expr),
    /// Any other statement.
    Other,
}

/// What kind of pattern a pattern is.
#[derive(Debug, PartialEq, Eq)]
pub enum PatternKind {
    /// The wildcard `_`.
    Underscore,
    /// An enum variant; `inner` is the exact text of what follows the
    /// variant's path, empty where nothing follows it.
    Enum { inner: String },
    /// A struct pattern.
    Struct,
    /// Any other pattern.
    Other,
}

/// A pattern node.
#[derive(Debug, PartialEq, Eq)]
pub struct Pattern {
    pub kind: PatternKind,
    /// The exact source text of the node.
    pub text: String,
    pub stable_ptr: SyntaxStablePtrId,
}

/// One arm of a `match`: the pattern it is entered by, and its body.
#[derive(Debug, PartialEq, Eq)]
pub struct MatchArm {
    pub pattern: Pattern,
    pub expression: Expr,
}

/// A `match` expression with its arms in order.
#[derive(Debug, PartialEq, Eq)]
pub struct ExprMatch {
    pub arms: Vec<MatchArm>,
    pub stable_ptr: SyntaxStablePtrId,
}

/// A node of a function's syntax tree, by what the rules look at.
#[derive(Debug, PartialEq, Eq)]
pub enum SyntaxNode {
    Match(ExprMatch),
    Pattern(Pattern),
    /// A node of any other kind.
    Other,
}

/// The syntax of a function with a body: its nodes in document order.
#[derive(Debug, PartialEq, Eq)]
pub struct FunctionWithBody {
    pub descendants: Vec<SyntaxNode>,
}

/// An item of a module.
#[derive(Debug, PartialEq, Eq)]
pub enum ModuleItem {
    /// A free function, with its syntax if that could be found.
    FreeFunction(Option<FunctionWithBody>),
    /// The declaration of an extern function, which has no body.
    ExternFunction,
    /// Any other item.
    Other,
}

} // verus!
