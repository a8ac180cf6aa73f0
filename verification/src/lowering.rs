use vstd::prelude::*;
use crate::ast::{
    BinOp, ElseBranch, Expr, FnDef, IfStmt, Item, Literal, LoopBound, LoopIter, LoopVar,
    MatchArm, MatchExpr, Param, Pat, SourceFile, Stmt, TransErr, TypeName,
};
use crate::indent_manager::repeat_text;

verus! {

// ---------------------------------------------------------------------------
// The translation state
// ---------------------------------------------------------------------------

/// The state a translation pass threads through the tree walk: the emitted
/// text so far, the indentation unit and current nesting depth, the set of
/// local variable names already declared in the current function scope, and
/// whether the walk is currently inside a function body.
#[verifier::ext_equal]
pub struct TransState {
    pub out: Seq<char>,
    pub unit: Seq<char>,
    pub level: nat,
    pub locals: Set<Seq<char>>,
    pub in_function: bool,
}

/// Appending one line: the indentation prefix for the current depth, the
/// line's text, and a newline.
pub open spec fn emit_line(st: TransState, line: Seq<char>) -> TransState {
    TransState { out: st.out + repeat_text(st.unit, st.level) + line + "\n"@, ..st }
}

/// Recording a name as declared in the current function scope.
pub open spec fn with_local(st: TransState, name: Seq<char>) -> TransState {
    TransState { locals: st.locals.insert(name), ..st }
}

// ---------------------------------------------------------------------------
// Literals, operators, types
// ---------------------------------------------------------------------------

/// The target text of a literal: string literals are re-quoted with their
/// exact characters, numbers keep their base-10 digits, booleans render as
/// `true`/`false`, and an unhandled literal kind degrades to `nil`.
pub open spec fn lit_text(l: Literal) -> Seq<char> {
    match l {
        Literal::Text(s) => "\""@ + s@ + "\""@,
        Literal::Int(d) => d@,
        Literal::Float(d) => d@,
        Literal::Bool(b) => if b { "true"@ } else { "false"@ },
        Literal::Other => "nil"@,
    }
}

/// The fixed operator translation table. `Unsupported` has no entry; it is
/// rejected before this function is consulted.
pub open spec fn op_text(op: BinOp) -> Seq<char> {
    match op {
        BinOp::Plus => "+"@,
        BinOp::Minus => "-"@,
        BinOp::Times => "*"@,
        BinOp::Divide => "/"@,
        BinOp::Equal => "=="@,
        BinOp::NotEqual => "~="@,
        BinOp::Less => "<"@,
        BinOp::LessEqual => "<="@,
        BinOp::Greater => ">"@,
        BinOp::GreaterEqual => ">="@,
        BinOp::LogicalAnd => "and"@,
        BinOp::LogicalOr => "or"@,
        BinOp::Unsupported => Seq::empty(),
    }
}

/// The source type identifiers of the numeric family.
pub open spec fn numeric_type(s: Seq<char>) -> bool {
    ||| s == "i8"@
    ||| s == "i16"@
    ||| s == "i32"@
    ||| s == "i64"@
    ||| s == "isize"@
    ||| s == "u8"@
    ||| s == "u16"@
    ||| s == "u32"@
    ||| s == "u64"@
    ||| s == "usize"@
    ||| s == "f32"@
    ||| s == "f64"@
}

/// The target type annotation for a source type: one of `number`, `boolean`,
/// `string`, with every unknown identifier degrading to `any`. Total by
/// design: an unknown type never aborts the translation.
pub open spec fn type_text(t: TypeName) -> Seq<char> {
    match t {
        TypeName::Ident(s) => if numeric_type(s@) {
            "number"@
        } else if s@ == "bool"@ {
            "boolean"@
        } else if s@ == "String"@ || s@ == "str"@ {
            "string"@
        } else {
            "any"@
        },
        TypeName::Other => "any"@,
    }
}

// ---------------------------------------------------------------------------
// Decimal rendering of loop bounds
// ---------------------------------------------------------------------------

/// The decimal digit character for `d` (`d < 10`).
pub open spec fn digit_char(d: nat) -> char {
    if d == 0 { '0' }
    else if d == 1 { '1' }
    else if d == 2 { '2' }
    else if d == 3 { '3' }
    else if d == 4 { '4' }
    else if d == 5 { '5' }
    else if d == 6 { '6' }
    else if d == 7 { '7' }
    else if d == 8 { '8' }
    else if d == 9 { '9' }
    else { ' ' }
}

/// The base-10 digit text of `n`, most significant digit first.
pub open spec fn dec_str(n: nat) -> Seq<char>
    decreases n,
{
    if n < 10 {
        seq![digit_char(n)]
    } else {
        dec_str(n / 10) + seq![digit_char(n % 10)]
    }
}

// ---------------------------------------------------------------------------
// Expressions
// ---------------------------------------------------------------------------

/// The target text of an expression, or the fatal failure that translating it
/// raises. A binary operator outside the fixed table is the one expression
/// shape that aborts; an unrecognized expression shape degrades to `nil`, and
/// a `match` in plain expression position contributes no text of its own (its
/// lowering to statements happens only for a local binding's initializer).
pub open spec fn expr_text(e: Expr) -> Result<Seq<char>, TransErr>
    decreases e,
{
    match e {
        Expr::Lit(l) => Ok(lit_text(l)),
        Expr::Name(s) => Ok(s@),
        Expr::Binary(op, l, r) => {
            let lt = expr_text(*l);
            let rt = expr_text(*r);
            if lt is Err {
                lt
            } else if rt is Err {
                rt
            } else if op is Unsupported {
                Err(TransErr::UnsupportedOperator)
            } else {
                Ok(lt->Ok_0 + " "@ + op_text(op) + " "@ + rt->Ok_0)
            }
        },
        Expr::Match(_) => Ok(Seq::empty()),
        Expr::Other => Ok("nil"@),
    }
}

// ---------------------------------------------------------------------------
// Patterns
// ---------------------------------------------------------------------------

/// The boolean guard text of a `match` pattern relative to a scrutinee.
/// Literal and identifier-binding patterns compare the scrutinee with the
/// value; range patterns render a two-sided bound test; or-patterns join
/// their cases' guards with `or`; a wildcard yields the sentinel `_`, which
/// the caller turns into an unconditional `else` branch.
pub open spec fn pat_guard(p: Pat, scrutinee: Seq<char>) -> Result<Seq<char>, TransErr>
    decreases p, 1int,
{
    match p {
        Pat::Lit(l) => Ok(scrutinee + " == "@ + lit_text(l)),
        Pat::Name(n) => Ok(scrutinee + " == "@ + n@),
        Pat::Range { start, end, inclusive } => match (start, end) {
            (Some(lo), Some(hi)) => if inclusive {
                Ok(lit_text(lo) + " <= x and x <= "@ + lit_text(hi))
            } else {
                Ok(lit_text(lo) + " <= x and x < "@ + lit_text(hi))
            },
            _ => Err(TransErr::UnsupportedPatternBound),
        },
        Pat::Wild => Ok("_"@),
        Pat::Or(cases) => pats_guard(cases@, scrutinee),
        Pat::Other => Err(TransErr::UnsupportedPattern),
    }
}

/// The guards of an or-pattern's cases, joined by ` or `.
pub open spec fn pats_guard(ps: Seq<Pat>, scrutinee: Seq<char>) -> Result<Seq<char>, TransErr>
    decreases ps, 0int,
{
    if ps.len() == 0 {
        Ok(Seq::empty())
    } else {
        let head = pat_guard(ps[0], scrutinee);
        if ps.len() == 1 {
            head
        } else {
            let rest = pats_guard(ps.drop_first(), scrutinee);
            if head is Err {
                head
            } else if rest is Err {
                rest
            } else {
                Ok(head->Ok_0 + " or "@ + rest->Ok_0)
            }
        }
    }
}

// ---------------------------------------------------------------------------
// Loop bounds
// ---------------------------------------------------------------------------

/// The rendered start bound of a `for` loop range: a missing start defaults
/// to `0`; a non-literal bound aborts.
pub open spec fn start_text(b: LoopBound) -> Result<Seq<char>, TransErr> {
    match b {
        LoopBound::Absent => Ok("0"@),
        LoopBound::Val(n) => Ok(dec_str(n as nat)),
        LoopBound::Unsupported => Err(TransErr::UnsupportedIterator),
    }
}

/// The rendered end bound: a missing end defaults to positive infinity; an
/// exclusive literal end is decremented by one at translation time (the
/// target loop construct is inclusive); a non-literal bound aborts.
pub open spec fn end_text(b: LoopBound, inclusive: bool) -> Result<Seq<char>, TransErr> {
    match b {
        LoopBound::Absent => Ok("math.huge"@),
        LoopBound::Val(n) => if inclusive {
            Ok(dec_str(n as nat))
        } else if n == 0 {
            Ok("-1"@)
        } else {
            Ok(dec_str((n - 1) as nat))
        },
        LoopBound::Unsupported => Err(TransErr::UnsupportedIterator),
    }
}

// ---------------------------------------------------------------------------
// Function headers
// ---------------------------------------------------------------------------

/// The rendered `name: type` entry of one parameter, or nothing for a
/// parameter shape that is not rendered.
pub open spec fn param_text(p: Param) -> Option<Seq<char>> {
    match p {
        Param::Named { name, ty } => Some(name@ + ": "@ + type_text(ty)),
        Param::Other => None,
    }
}

/// The rendered parameter list, entries joined by `, `.
pub open spec fn params_text(ps: Seq<Param>) -> Seq<char>
    decreases ps,
{
    if ps.len() == 0 {
        Seq::empty()
    } else {
        let rest = params_text(ps.drop_first());
        match param_text(ps[0]) {
            Option::None => rest,
            Option::Some(t) => if rest.len() == 0 {
                t
            } else {
                t + ", "@ + rest
            },
        }
    }
}

/// The rendered return type annotation, empty when the function declares
/// none.
pub open spec fn ret_text(r: Option<TypeName>) -> Seq<char> {
    match r {
        Option::None => Seq::empty(),
        Option::Some(t) => ": "@ + type_text(t),
    }
}

// ---------------------------------------------------------------------------
// Statements
// ---------------------------------------------------------------------------

/// The text of an optional initializer: ` = <value>` when present, empty when
/// absent.
pub open spec fn opt_init_text(init: Option<Expr>) -> Result<Seq<char>, TransErr> {
    match init {
        Option::None => Ok(Seq::empty()),
        Option::Some(e) => match expr_text(e) {
            Ok(t) => Ok(" = "@ + t),
            Err(er) => Err(er),
        },
    }
}

/// A local binding with an explicit type annotation: records the name as
/// declared and emits `local name: type [= value]`.
pub open spec fn typed_local_out(
    name: Seq<char>,
    ty: TypeName,
    init: Option<Expr>,
    st: TransState,
) -> Result<TransState, TransErr> {
    match opt_init_text(init) {
        Err(e) => Err(e),
        Ok(part) => Ok(emit_line(
            with_local(st, name),
            "local "@ + name + ": "@ + type_text(ty) + part,
        )),
    }
}

/// A local binding without a type annotation: a `match` initializer is
/// lowered to a branch chain; otherwise the name is recorded as declared and
/// `local name [= value]` is emitted.
pub open spec fn local_out(name: Seq<char>, init: Option<Expr>, st: TransState) -> Result<
    TransState,
    TransErr,
> {
    match init {
        Option::Some(Expr::Match(m)) => local_match_out(name, *m, st),
        _ => match opt_init_text(init) {
            Err(e) => Err(e),
            Ok(part) => Ok(emit_line(with_local(st, name), "local "@ + name + part)),
        },
    }
}

/// An assignment: inside a function, the first assignment to a name not yet
/// declared is promoted to a declaration and the name is recorded; otherwise
/// a plain assignment is emitted.
pub open spec fn assign_out(target: Seq<char>, value: Expr, st: TransState) -> Result<
    TransState,
    TransErr,
> {
    match expr_text(value) {
        Err(e) => Err(e),
        Ok(v) => if st.in_function && !st.locals.contains(target) {
            Ok(emit_line(with_local(st, target), "local "@ + target + " = "@ + v))
        } else {
            Ok(emit_line(st, target + " = "@ + v))
        },
    }
}

/// A `for` loop over an integer range: `for v = <start>, <end> do`, the body
/// one level deeper, and a closing `end`.
pub open spec fn for_out(var: LoopVar, iter: LoopIter, body: Seq<Stmt>, st: TransState) -> Result<
    TransState,
    TransErr,
>
    decreases body, 3int,
{
    match var {
        LoopVar::Other => Err(TransErr::UnsupportedLoopVariable),
        LoopVar::Name(v) => match iter {
            LoopIter::Other => Err(TransErr::UnsupportedIterator),
            LoopIter::Range { start, end, inclusive } => match (start_text(start), end_text(end, inclusive)) {
                (Ok(stx), Ok(etx)) => {
                    match block_out(body, emit_line(st, "for "@ + v@ + " = "@ + stx + ", "@ + etx + " do"@)) {
                        Err(e) => Err(e),
                        Ok(st2) => Ok(emit_line(st2, "end"@)),
                    }
                },
                _ => Err(TransErr::UnsupportedIterator),
            },
        },
    }
}

/// A `while` loop: `while <cond> do`, the body one level deeper, `end`.
pub open spec fn while_out(cond: Expr, body: Seq<Stmt>, st: TransState) -> Result<
    TransState,
    TransErr,
>
    decreases body, 3int,
{
    match expr_text(cond) {
        Err(e) => Err(e),
        Ok(c) => match block_out(body, emit_line(st, "while "@ + c + " do"@)) {
            Err(e) => Err(e),
            Ok(st2) => Ok(emit_line(st2, "end"@)),
        },
    }
}

/// An infinite loop: a `while` loop with the literal `true` condition.
pub open spec fn loop_out(body: Seq<Stmt>, st: TransState) -> Result<TransState, TransErr>
    decreases body, 3int,
{
    match block_out(body, emit_line(st, "while true do"@)) {
        Err(e) => Err(e),
        Ok(st2) => Ok(emit_line(st2, "end"@)),
    }
}

/// The state after translating one statement, or the fatal failure that
/// aborts the pass. This is the authoritative definition of the statement
/// emitter: one case per supported statement kind; a statement shape outside
/// the subset emits nothing.
pub open spec fn stmt_out(s: Stmt, st: TransState) -> Result<TransState, TransErr>
    decreases s, 0int,
{
    match s {
        Stmt::TypedLocal { name, ty, init } => typed_local_out(name@, ty, init, st),
        Stmt::Local { name, init } => local_out(name@, init, st),
        Stmt::Assign { target, value } => assign_out(target@, value, st),
        Stmt::If(b) => if_out(*b, st),
        Stmt::For { var, iter, body } => for_out(var, iter, body@, st),
        Stmt::While { cond, body } => while_out(cond, body@, st),
        Stmt::Loop { body } => loop_out(body@, st),
        Stmt::Other => Ok(st),
    }
}

/// The state after translating a sequence of sibling statements, in source
/// order.
pub open spec fn stmts_out(ss: Seq<Stmt>, st: TransState) -> Result<TransState, TransErr>
    decreases ss, 0int,
{
    if ss.len() == 0 {
        Ok(st)
    } else {
        match stmt_out(ss[0], st) {
            Err(e) => Err(e),
            Ok(st1) => stmts_out(ss.drop_first(), st1),
        }
    }
}

/// A nested block: its statements are translated one nesting level deeper,
/// and the depth is restored when the block closes.
pub open spec fn block_out(ss: Seq<Stmt>, st: TransState) -> Result<TransState, TransErr>
    decreases ss, 1int,
{
    match stmts_out(ss, TransState { level: st.level + 1, ..st }) {
        Err(e) => Err(e),
        Ok(st2) => Ok(TransState { level: st.level, ..st2 }),
    }
}

/// A conditional: `if <cond> then`, the `then` block one level deeper, then
/// the alternative.
pub open spec fn if_out(i: IfStmt, st: TransState) -> Result<TransState, TransErr>
    decreases i, 0int,
{
    match expr_text(i.cond) {
        Err(e) => Err(e),
        Ok(c) => match block_out(i.then_body@, emit_line(st, "if "@ + c + " then"@)) {
            Err(e) => Err(e),
            Ok(st2) => else_out(i.alt, st2),
        },
    }
}

/// The alternative of a conditional: a missing alternative closes the chain
/// with `end`; an `else if` continues it with `elseif <cond> then` so that an
/// arbitrarily deep chain closes with a single `end`; a final `else` block
/// closes with `end` after its statements.
pub open spec fn else_out(alt: Option<ElseBranch>, st: TransState) -> Result<TransState, TransErr>
    decreases alt, 0int,
{
    match alt {
        Option::None => Ok(emit_line(st, "end"@)),
        Option::Some(ElseBranch::ElseIf(j)) => match expr_text(j.cond) {
            Err(e) => Err(e),
            Ok(c) => match block_out(j.then_body@, emit_line(st, "elseif "@ + c + " then"@)) {
                Err(e) => Err(e),
                Ok(st2) => else_out(j.alt, st2),
            },
        },
        Option::Some(ElseBranch::Else(b)) => match block_out(b@, emit_line(st, "else"@)) {
            Err(e) => Err(e),
            Ok(st2) => Ok(emit_line(st2, "end"@)),
        },
    }
}

/// The lowering of a local binding whose initializer is a `match`: the
/// placeholder is declared as `nil`, each arm becomes a guarded branch that
/// assigns the arm's result to the placeholder, and the chain closes with one
/// `end`.
pub open spec fn local_match_out(name: Seq<char>, m: MatchExpr, st: TransState) -> Result<
    TransState,
    TransErr,
>
    decreases m,
{
    match expr_text(m.scrutinee) {
        Err(e) => Err(e),
        Ok(sc) => {
            let st1 = emit_line(with_local(st, name), "local "@ + name + " = nil"@);
            match match_arms_out(m.arms@, sc, name, true, st1) {
                Err(e) => Err(e),
                Ok(st2) => Ok(emit_line(st2, "end"@)),
            }
        },
    }
}

/// The arms of a lowered `match`, in source order. `first` records whether a
/// guarded branch has been opened yet: the first guarded arm opens with
/// `if`, later ones with `elseif`, and a wildcard arm emits a plain `else`
/// wherever it textually appears. An arm carrying an extra boolean guard
/// aborts the pass.
pub open spec fn match_arms_out(
    arms: Seq<MatchArm>,
    scrutinee: Seq<char>,
    name: Seq<char>,
    first: bool,
    st: TransState,
) -> Result<TransState, TransErr>
    decreases arms,
{
    if arms.len() == 0 {
        Ok(st)
    } else {
        let arm = arms[0];
        if arm.has_guard {
            Err(TransErr::UnsupportedGuardClause)
        } else {
            match pat_guard(arm.pat, scrutinee) {
                Err(e) => Err(e),
                Ok(g) => {
                    let is_else = g == "_"@;
                    let st1 = if is_else {
                        emit_line(st, "else"@)
                    } else if first {
                        emit_line(st, "if "@ + g + " then"@)
                    } else {
                        emit_line(st, "elseif "@ + g + " then"@)
                    };
                    match expr_text(arm.body) {
                        Err(e) => Err(e),
                        Ok(b) => {
                            let st2 = emit_line(
                                TransState { level: st1.level + 1, ..st1 },
                                name + " = "@ + b,
                            );
                            let st3 = TransState { level: st1.level, ..st2 };
                            match_arms_out(
                                arms.drop_first(),
                                scrutinee,
                                name,
                                if is_else { first } else { false },
                                st3,
                            )
                        },
                    }
                },
            }
        }
    }
}

// ---------------------------------------------------------------------------
// Functions and whole files
// ---------------------------------------------------------------------------

/// The state after translating one function definition: the header line with
/// the rendered parameter list and optional return annotation, the body one
/// level deeper under a fresh local-variable scope, and a closing `end`. The
/// walk is inside a function for exactly the body.
pub open spec fn fn_out(f: FnDef, st: TransState) -> Result<TransState, TransErr> {
    let st0 = TransState { in_function: true, locals: Set::empty(), ..st };
    let header = "function "@ + f.name@ + "("@ + params_text(f.params@) + ")"@ + ret_text(f.ret);
    match block_out(f.body@, emit_line(st0, header)) {
        Err(e) => Err(e),
        Ok(st2) => Ok(TransState { in_function: false, ..emit_line(st2, "end"@) }),
    }
}

/// One top-level item: only function definitions produce text.
pub open spec fn item_out(it: Item, st: TransState) -> Result<TransState, TransErr> {
    match it {
        Item::Fn(f) => fn_out(f, st),
        Item::Other => Ok(st),
    }
}

/// The items of a translation unit, in source order.
pub open spec fn items_out(its: Seq<Item>, st: TransState) -> Result<TransState, TransErr>
    decreases its,
{
    if its.len() == 0 {
        Ok(st)
    } else {
        match item_out(its[0], st) {
            Err(e) => Err(e),
            Ok(st1) => items_out(its.drop_first(), st1),
        }
    }
}

/// The state after translating a whole translation unit.
pub open spec fn file_out(f: SourceFile, st: TransState) -> Result<TransState, TransErr> {
    items_out(f.items@, st)
}

// ---------------------------------------------------------------------------
// Nesting depth
// ---------------------------------------------------------------------------
//
// The walker's nesting counter grows by one for each open block, so the
// machine bound it can reach while translating a construct is the pre-call
// depth plus the construct's block-nesting depth. These measures state that
// depth.

pub open spec fn max_nat(a: nat, b: nat) -> nat {
    if a >= b {
        a
    } else {
        b
    }
}

/// The deepest block nesting a statement's translation opens.
pub open spec fn stmt_depth(s: Stmt) -> nat
    decreases s, 0int,
{
    match s {
        Stmt::TypedLocal { .. } => 0,
        Stmt::Local { init, .. } => match init {
            Option::Some(Expr::Match(_)) => 1,
            _ => 0,
        },
        Stmt::Assign { .. } => 0,
        Stmt::If(b) => if_depth(*b),
        Stmt::For { body, .. } => stmts_depth(body@) + 1,
        Stmt::While { body, .. } => stmts_depth(body@) + 1,
        Stmt::Loop { body } => stmts_depth(body@) + 1,
        Stmt::Other => 0,
    }
}

pub open spec fn stmts_depth(ss: Seq<Stmt>) -> nat
    decreases ss, 1int,
{
    if ss.len() == 0 {
        0
    } else {
        max_nat(stmt_depth(ss[0]), stmts_depth(ss.drop_first()))
    }
}

pub open spec fn if_depth(i: IfStmt) -> nat
    decreases i, 0int,
{
    max_nat(stmts_depth(i.then_body@) + 1, else_depth(i.alt))
}

pub open spec fn else_depth(alt: Option<ElseBranch>) -> nat
    decreases alt, 0int,
{
    match alt {
        Option::None => 0,
        Option::Some(ElseBranch::ElseIf(j)) => if_depth(*j),
        Option::Some(ElseBranch::Else(b)) => stmts_depth(b@) + 1,
    }
}

pub open spec fn fn_depth(f: FnDef) -> nat {
    stmts_depth(f.body@) + 1
}

pub open spec fn item_depth(it: Item) -> nat {
    match it {
        Item::Fn(f) => fn_depth(f),
        Item::Other => 0,
    }
}

pub open spec fn items_depth(its: Seq<Item>) -> nat
    decreases its,
{
    if its.len() == 0 {
        0
    } else {
        max_nat(item_depth(its[0]), items_depth(its.drop_first()))
    }
}

pub open spec fn file_depth(f: SourceFile) -> nat {
    items_depth(f.items@)
}

/// No statement nests deeper than its sequence's bound.
pub proof fn lemma_stmts_depth_elem(ss: Seq<Stmt>, i: int)
    requires
        0 <= i < ss.len(),
    ensures
        stmt_depth(ss[i]) <= stmts_depth(ss),
    decreases ss.len(),
{
    if i > 0 {
        lemma_stmts_depth_elem(ss.drop_first(), i - 1);
        assert(ss.drop_first()[i - 1] == ss[i]);
    }
}

/// No item nests deeper than its sequence's bound.
pub proof fn lemma_items_depth_elem(its: Seq<Item>, i: int)
    requires
        0 <= i < its.len(),
    ensures
        item_depth(its[i]) <= items_depth(its),
    decreases its.len(),
{
    if i > 0 {
        lemma_items_depth_elem(its.drop_first(), i - 1);
        assert(its.drop_first()[i - 1] == its[i]);
    }
}

// ---------------------------------------------------------------------------
// Balanced indentation
// ---------------------------------------------------------------------------
//
// Every successful translation step leaves the nesting depth, the
// indentation unit, and the in-function flag exactly as it found them:
// block openings and closings are always paired.

/// On success, the resulting state keeps the depth, unit, and in-function
/// flag of the starting state.
pub open spec fn frame_ok(r: Result<TransState, TransErr>, st: TransState) -> bool {
    match r {
        Ok(st2) => st2.level == st.level && st2.unit == st.unit && st2.in_function
            == st.in_function,
        Err(_) => true,
    }
}

pub proof fn lemma_arms_frame(
    arms: Seq<MatchArm>,
    scrutinee: Seq<char>,
    name: Seq<char>,
    first: bool,
    st: TransState,
)
    ensures
        frame_ok(match_arms_out(arms, scrutinee, name, first, st), st),
    decreases arms,
{
    if arms.len() > 0 && !arms[0].has_guard {
        match pat_guard(arms[0].pat, scrutinee) {
            Err(_) => {},
            Ok(g) => {
                let is_else = g == "_"@;
                let st1 = if is_else {
                    emit_line(st, "else"@)
                } else if first {
                    emit_line(st, "if "@ + g + " then"@)
                } else {
                    emit_line(st, "elseif "@ + g + " then"@)
                };
                match expr_text(arms[0].body) {
                    Err(_) => {},
                    Ok(b) => {
                        let st2 = emit_line(
                            TransState { level: st1.level + 1, ..st1 },
                            name + " = "@ + b,
                        );
                        let st3 = TransState { level: st1.level, ..st2 };
                        lemma_arms_frame(
                            arms.drop_first(),
                            scrutinee,
                            name,
                            if is_else { first } else { false },
                            st3,
                        );
                    },
                }
            },
        }
    }
}

pub proof fn lemma_local_match_frame(name: Seq<char>, m: MatchExpr, st: TransState)
    ensures
        frame_ok(local_match_out(name, m, st), st),
{
    match expr_text(m.scrutinee) {
        Err(_) => {},
        Ok(sc) => {
            let st1 = emit_line(with_local(st, name), "local "@ + name + " = nil"@);
            lemma_arms_frame(m.arms@, sc, name, true, st1);
        },
    }
}

pub proof fn lemma_stmt_frame(s: Stmt, st: TransState)
    ensures
        frame_ok(stmt_out(s, st), st),
    decreases s, 4int,
{
    match s {
        Stmt::Local { name, init } => match init {
            Option::Some(Expr::Match(m)) => lemma_local_match_frame(name@, *m, st),
            _ => {},
        },
        Stmt::If(b) => lemma_if_frame(*b, st),
        Stmt::For { var, iter, body } => lemma_for_frame(var, iter, body@, st),
        Stmt::While { cond, body } => lemma_while_frame(cond, body@, st),
        Stmt::Loop { body } => lemma_loop_frame(body@, st),
        _ => {},
    }
}

pub proof fn lemma_stmts_frame(ss: Seq<Stmt>, st: TransState)
    ensures
        frame_ok(stmts_out(ss, st), st),
    decreases ss, 5int,
{
    if ss.len() > 0 {
        lemma_stmt_frame(ss[0], st);
        match stmt_out(ss[0], st) {
            Err(_) => {},
            Ok(st1) => lemma_stmts_frame(ss.drop_first(), st1),
        }
    }
}

pub proof fn lemma_block_frame(ss: Seq<Stmt>, st: TransState)
    ensures
        frame_ok(block_out(ss, st), st),
    decreases ss, 6int,
{
    lemma_stmts_frame(ss, TransState { level: st.level + 1, ..st });
}

pub proof fn lemma_if_frame(i: IfStmt, st: TransState)
    ensures
        frame_ok(if_out(i, st), st),
    decreases i, 4int,
{
    match expr_text(i.cond) {
        Err(_) => {},
        Ok(c) => {
            let st1 = emit_line(st, "if "@ + c + " then"@);
            lemma_block_frame(i.then_body@, st1);
            match block_out(i.then_body@, st1) {
                Err(_) => {},
                Ok(st2) => lemma_else_frame(i.alt, st2),
            }
        },
    }
}

pub proof fn lemma_else_frame(alt: Option<ElseBranch>, st: TransState)
    ensures
        frame_ok(else_out(alt, st), st),
    decreases alt, 4int,
{
    match alt {
        Option::None => {},
        Option::Some(ElseBranch::ElseIf(j)) => match expr_text(j.cond) {
            Err(_) => {},
            Ok(c) => {
                let st1 = emit_line(st, "elseif "@ + c + " then"@);
                lemma_block_frame(j.then_body@, st1);
                match block_out(j.then_body@, st1) {
                    Err(_) => {},
                    Ok(st2) => lemma_else_frame(j.alt, st2),
                }
            },
        },
        Option::Some(ElseBranch::Else(b)) => {
            lemma_block_frame(b@, emit_line(st, "else"@));
        },
    }
}

pub proof fn lemma_for_frame(var: LoopVar, iter: LoopIter, body: Seq<Stmt>, st: TransState)
    ensures
        frame_ok(for_out(var, iter, body, st), st),
    decreases body, 7int,
{
    match var {
        LoopVar::Other => {},
        LoopVar::Name(v) => match iter {
            LoopIter::Other => {},
            LoopIter::Range { start, end, inclusive } => match (
                start_text(start),
                end_text(end, inclusive),
            ) {
                (Ok(stx), Ok(etx)) => {
                    lemma_block_frame(
                        body,
                        emit_line(st, "for "@ + v@ + " = "@ + stx + ", "@ + etx + " do"@),
                    );
                },
                _ => {},
            },
        },
    }
}

pub proof fn lemma_while_frame(cond: Expr, body: Seq<Stmt>, st: TransState)
    ensures
        frame_ok(while_out(cond, body, st), st),
    decreases body, 7int,
{
    match expr_text(cond) {
        Err(_) => {},
        Ok(c) => {
            lemma_block_frame(body, emit_line(st, "while "@ + c + " do"@));
        },
    }
}

pub proof fn lemma_loop_frame(body: Seq<Stmt>, st: TransState)
    ensures
        frame_ok(loop_out(body, st), st),
    decreases body, 7int,
{
    lemma_block_frame(body, emit_line(st, "while true do"@));
}

/// Balanced indentation for a whole function: a successful translation
/// returns the nesting depth and indentation unit to their pre-call values,
/// and leaves the walk outside any function body.
pub proof fn lemma_fn_frame(f: FnDef, st: TransState)
    ensures
        fn_out(f, st) is Ok ==> {
            let st2 = fn_out(f, st)->Ok_0;
            &&& st2.level == st.level
            &&& st2.unit == st.unit
            &&& !st2.in_function
        },
{
    let st0 = TransState { in_function: true, locals: Set::empty(), ..st };
    let header = "function "@ + f.name@ + "("@ + params_text(f.params@) + ")"@ + ret_text(f.ret);
    lemma_block_frame(f.body@, emit_line(st0, header));
}

pub proof fn lemma_item_frame(it: Item, st: TransState)
    ensures
        item_out(it, st) is Ok ==> {
            let st2 = item_out(it, st)->Ok_0;
            &&& st2.level == st.level
            &&& st2.unit == st.unit
        },
{
    match it {
        Item::Fn(f) => lemma_fn_frame(f, st),
        Item::Other => {},
    }
}

/// Balanced indentation for a whole translation unit: when it succeeds, the
/// nesting depth at render time equals the depth the pass started with.
pub proof fn lemma_file_frame(f: SourceFile, st: TransState)
    ensures
        file_out(f, st) is Ok ==> {
            let st2 = file_out(f, st)->Ok_0;
            &&& st2.level == st.level
            &&& st2.unit == st.unit
        },
{
    lemma_items_frame(f.items@, st);
}

pub proof fn lemma_items_frame(its: Seq<Item>, st: TransState)
    ensures
        items_out(its, st) is Ok ==> {
            let st2 = items_out(its, st)->Ok_0;
            &&& st2.level == st.level
            &&& st2.unit == st.unit
        },
    decreases its,
{
    if its.len() > 0 {
        lemma_item_frame(its[0], st);
        match item_out(its[0], st) {
            Err(_) => {},
            Ok(st1) => lemma_items_frame(its.drop_first(), st1),
        }
    }
}

} // verus!
