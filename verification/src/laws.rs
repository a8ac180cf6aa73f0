use vstd::prelude::*;
use crate::ast::{BinOp, Expr, Literal, LoopBound, TransErr};
use crate::indent_manager::repeat_text;
use crate::lowering::{
    assign_out, dec_str, end_text, expr_text, lit_text, op_text, start_text, TransState,
};

verus! {

// ---------------------------------------------------------------------------
// Laws of the translation, stated over the lowering model. Each is proved
// once and for all inputs; the walker's contracts tie the executable code to
// the same model.
// ---------------------------------------------------------------------------

/// For every supported binary operator, translating `a <op> b` yields
/// exactly `<a text> <op text> <b text>`, the operator mapped through the
/// fixed table.
pub proof fn lemma_binary_operator_shape(
    op: BinOp,
    l: Box<Expr>,
    r: Box<Expr>,
    lt: Seq<char>,
    rt: Seq<char>,
)
    requires
        !(op is Unsupported),
        expr_text(*l) == Ok::<Seq<char>, TransErr>(lt),
        expr_text(*r) == Ok::<Seq<char>, TransErr>(rt),
    ensures
        expr_text(Expr::Binary(op, l, r)) == Ok::<Seq<char>, TransErr>(
            lt + " "@ + op_text(op) + " "@ + rt,
        ),
{
}

/// The fixed operator table, entry by entry.
pub proof fn lemma_operator_table()
    ensures
        op_text(BinOp::Plus) == "+"@,
        op_text(BinOp::Minus) == "-"@,
        op_text(BinOp::Times) == "*"@,
        op_text(BinOp::Divide) == "/"@,
        op_text(BinOp::Equal) == "=="@,
        op_text(BinOp::NotEqual) == "~="@,
        op_text(BinOp::Less) == "<"@,
        op_text(BinOp::LessEqual) == "<="@,
        op_text(BinOp::Greater) == ">"@,
        op_text(BinOp::GreaterEqual) == ">="@,
        op_text(BinOp::LogicalAnd) == "and"@,
        op_text(BinOp::LogicalOr) == "or"@,
{
}

/// A binary expression whose operator is outside the fixed table aborts the
/// translation: it never degrades to placeholder text, and a statement whose
/// value contains it aborts too. When both operands translate, the failure
/// is the operator failure itself.
pub proof fn lemma_unsupported_operator_aborts(
    op: BinOp,
    l: Box<Expr>,
    r: Box<Expr>,
    target: String,
    st: TransState,
)
    requires
        op is Unsupported,
    ensures
        expr_text(Expr::Binary(op, l, r)) is Err,
        expr_text(*l) is Ok && expr_text(*r) is Ok ==> expr_text(Expr::Binary(op, l, r))
            == Err::<Seq<char>, TransErr>(TransErr::UnsupportedOperator),
        assign_out(target@, Expr::Binary(op, l, r), st) is Err,
{
}

/// Integer and float literal translation is the identity on the digit text:
/// trivially injective, and the value re-parsed from the output is the
/// source value.
pub proof fn lemma_number_literal_identity(d: String)
    ensures
        lit_text(Literal::Int(d)) == d@,
        lit_text(Literal::Float(d)) == d@,
{
}

/// A string literal's translation is the source characters between one
/// added quote on each side: the exact characters round-trip.
pub proof fn lemma_text_literal_shape(s: String)
    ensures
        lit_text(Literal::Text(s)).len() == s@.len() + 2,
        lit_text(Literal::Text(s)).subrange(1, s@.len() as int + 1) == s@,
{
    reveal_strlit("\"");
    assert(lit_text(Literal::Text(s)).subrange(1, s@.len() as int + 1) =~= s@);
}

/// String literal translation is injective.
pub proof fn lemma_text_literal_injective(a: String, b: String)
    requires
        lit_text(Literal::Text(a)) == lit_text(Literal::Text(b)),
    ensures
        a@ == b@,
{
    reveal_strlit("\"");
    assert("\""@.len() == 1);
    assert(lit_text(Literal::Text(a)).len() == a@.len() + 2);
    assert(lit_text(Literal::Text(b)).len() == b@.len() + 2);
    assert(a@.len() == b@.len());
    assert forall|i: int| 0 <= i < a@.len() implies a@[i] == b@[i] by {
        assert(lit_text(Literal::Text(a))[i + 1] == a@[i]);
        assert(lit_text(Literal::Text(b))[i + 1] == b@[i]);
    };
    assert(a@ =~= b@);
}

/// Boolean literal translation is injective.
pub proof fn lemma_bool_literal_injective(a: bool, b: bool)
    requires
        lit_text(Literal::Bool(a)) == lit_text(Literal::Bool(b)),
    ensures
        a == b,
{
    reveal_strlit("true");
    reveal_strlit("false");
    if a != b {
        assert("true"@.len() == 4);
        assert("false"@.len() == 5);
    }
}

/// Range-based loop bounds: a missing start defaults to `0`; an inclusive
/// literal end is kept as-is; an exclusive literal end is decremented by one
/// at translation time.
pub proof fn lemma_loop_bounds(n: u64)
    ensures
        start_text(LoopBound::Absent) == Ok::<Seq<char>, TransErr>("0"@),
        start_text(LoopBound::Val(n)) == Ok::<Seq<char>, TransErr>(dec_str(n as nat)),
        end_text(LoopBound::Val(n), true) == Ok::<Seq<char>, TransErr>(dec_str(n as nat)),
        n > 0 ==> end_text(LoopBound::Val(n), false) == Ok::<Seq<char>, TransErr>(
            dec_str((n - 1) as nat),
        ),
{
}

/// Inside a function, the first assignment to an undeclared name is
/// promoted to a declaration and records the name; a second assignment to
/// the same name then emits a plain assignment, never a second declaration.
pub proof fn lemma_assignment_promotion(
    target: String,
    v1: Expr,
    v2: Expr,
    t1: Seq<char>,
    t2: Seq<char>,
    st: TransState,
)
    requires
        st.in_function,
        !st.locals.contains(target@),
        expr_text(v1) == Ok::<Seq<char>, TransErr>(t1),
        expr_text(v2) == Ok::<Seq<char>, TransErr>(t2),
    ensures
        ({
            let r1 = assign_out(target@, v1, st);
            &&& r1 is Ok
            &&& r1->Ok_0.out == st.out + repeat_text(st.unit, st.level) + ("local "@ + target@
                + " = "@ + t1) + "\n"@
            &&& r1->Ok_0.locals.contains(target@)
            &&& ({
                let r2 = assign_out(target@, v2, r1->Ok_0);
                &&& r2 is Ok
                &&& r2->Ok_0.out == r1->Ok_0.out + repeat_text(st.unit, st.level) + (target@
                    + " = "@ + t2) + "\n"@
            })
        }),
{
}

} // verus!
