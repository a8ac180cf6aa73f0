use vstd::prelude::*;

verus! {

/// A literal expression. Integer and float literals carry their base-10 digit
/// text; string literals carry their exact characters, unquoted. `Other`
/// stands for a literal kind outside the supported subset (it degrades to a
/// null placeholder in the output, it never aborts the translation).
pub enum Literal {
    Text(String),
    Int(String),
    Float(String),
    Bool(bool),
    Other,
}

/// A binary operator of the source language. `Unsupported` stands for any
/// operator outside the fixed translation table (for example a bitwise
/// shift); translating it aborts the whole pass.
pub enum BinOp {
    Plus,
    Minus,
    Times,
    Divide,
    Equal,
    NotEqual,
    Less,
    LessEqual,
    Greater,
    GreaterEqual,
    LogicalAnd,
    LogicalOr,
    Unsupported,
}

/// An expression of the source language. `Name` is a bare identifier
/// reference; `Other` is any expression shape with no defined lowering, which
/// degrades to a null placeholder.
pub enum Expr {
    Lit(Literal),
    Name(String),
    Binary(BinOp, Box<Expr>, Box<Expr>),
    Match(Box<MatchExpr>),
    Other,
}

/// A multi-way branch: a scrutinee and its arms, in source order.
pub struct MatchExpr {
    pub scrutinee: Expr,
    pub arms: Vec<MatchArm>,
}

/// One arm of a `match`. `has_guard` records that the source attached an
/// extra boolean guard to the pattern; guards are unsupported and abort the
/// translation.
pub struct MatchArm {
    pub pat: Pat,
    pub has_guard: bool,
    pub body: Expr,
}

/// A pattern of a `match` arm. Range bounds must be literal values: `None`
/// stands for a missing or non-literal bound, which aborts the translation.
/// `Other` is any pattern shape outside the subset; it aborts too.
pub enum Pat {
    Lit(Literal),
    Name(String),
    Range { start: Option<Literal>, end: Option<Literal>, inclusive: bool },
    Wild,
    Or(Vec<Pat>),
    Other,
}

/// A source type annotation: the final identifier of a type path, or `Other`
/// for a type with no such identifier (it maps to the dynamic annotation).
pub enum TypeName {
    Ident(String),
    Other,
}

/// The binding of a `for` loop. Only a simple identifier is supported;
/// anything else aborts the translation.
pub enum LoopVar {
    Name(String),
    Other,
}

/// One bound of a range iterated by a `for` loop: absent, a literal integer,
/// or a non-literal expression (unsupported, aborts the translation).
pub enum LoopBound {
    Absent,
    Val(u64),
    Unsupported,
}

/// The iterable of a `for` loop. Only a range with literal bounds is
/// supported.
pub enum LoopIter {
    Range { start: LoopBound, end: LoopBound, inclusive: bool },
    Other,
}

/// A statement of a function body.
///
/// - `TypedLocal` is a local binding with an explicit type annotation.
/// - `Local` is a local binding without one; when its initializer is a
///   `match` expression it is lowered to an `if/elseif/else` chain.
/// - `Assign` is an assignment to a bare identifier.
/// - `Other` is any statement shape outside the subset; it emits nothing.
pub enum Stmt {
    TypedLocal { name: String, ty: TypeName, init: Option<Expr> },
    Local { name: String, init: Option<Expr> },
    Assign { target: String, value: Expr },
    If(Box<IfStmt>),
    For { var: LoopVar, iter: LoopIter, body: Vec<Stmt> },
    While { cond: Expr, body: Vec<Stmt> },
    Loop { body: Vec<Stmt> },
    Other,
}

/// A conditional: condition, `then` block, and an optional alternative.
pub struct IfStmt {
    pub cond: Expr,
    pub then_body: Vec<Stmt>,
    pub alt: Option<ElseBranch>,
}

/// The alternative of a conditional: either a further `else if`, or a final
/// `else` block.
pub enum ElseBranch {
    ElseIf(Box<IfStmt>),
    Else(Vec<Stmt>),
}

/// One parameter of a function definition. Only a typed simple-identifier
/// parameter is rendered; any other parameter shape is skipped.
pub enum Param {
    Named { name: String, ty: TypeName },
    Other,
}

/// A function definition: header data and the body statements in source
/// order.
pub struct FnDef {
    pub name: String,
    pub params: Vec<Param>,
    pub ret: Option<TypeName>,
    pub body: Vec<Stmt>,
}

/// A top-level item of a translation unit. Only function definitions are
/// translated; every other item kind is skipped.
pub enum Item {
    Fn(FnDef),
    Other,
}

/// A fully parsed translation unit: its top-level items in source order.
pub struct SourceFile {
    pub items: Vec<Item>,
}

/// The reasons a translation aborts. A fatal condition aborts the entire
/// pass immediately: no partial output is usable once one is reported.
#[derive(Clone, Copy, Debug, PartialEq, Eq, Structural)]
pub enum TransErr {
    /// A binary operator outside the fixed translation table.
    UnsupportedOperator,
    /// A match-arm pattern shape not covered by the subset.
    UnsupportedPattern,
    /// A missing or non-literal bound of a range pattern.
    UnsupportedPatternBound,
    /// A match arm carrying an extra boolean guard.
    UnsupportedGuardClause,
    /// A `for` loop binding pattern that is not a simple identifier.
    UnsupportedLoopVariable,
    /// A `for` loop iterable that is not a range over literal bounds.
    UnsupportedIterator,
}

} // verus!
