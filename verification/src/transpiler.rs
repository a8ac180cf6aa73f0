use vstd::prelude::*;
use vstd::string::StringExecFns;
use crate::ast::{
    BinOp, ElseBranch, Expr, FnDef, IfStmt, Item, Literal, LoopBound, LoopIter, LoopVar,
    MatchArm, MatchExpr, Param, Pat, SourceFile, Stmt, TransErr, TypeName,
};
use crate::indent_manager::IndentManager;
use crate::lowering::{
    assign_out, block_out, else_out, emit_line, expr_text, file_out, fn_out, for_out, if_out,
    items_out, lit_text, local_match_out, local_out, loop_out, match_arms_out, op_text,
    opt_init_text, pat_guard, pats_guard, ret_text, stmt_out, stmts_out, type_text,
    typed_local_out, while_out, with_local, TransState, else_depth, file_depth, fn_depth,
    if_depth, stmt_depth, stmts_depth, lemma_item_frame, lemma_items_depth_elem,
    lemma_stmt_frame, lemma_stmts_depth_elem, lemma_stmts_frame, params_text,
};
use crate::text::{str_eq, u64_text};

verus! {

/// The set of names a sequence of declared locals stands for.
pub open spec fn locals_set(v: Seq<String>) -> Set<Seq<char>> {
    Set::new(|x: Seq<char>| exists|i: int| #![trigger v[i]] 0 <= i < v.len() && v[i]@ == x)
}

/// The tree-to-text translation engine. It owns the output buffer, the
/// indentation tracker, and the per-function set of declared local variable
/// names; a depth-first walk over the AST appends fully formed lines in
/// traversal order. Its abstract state is a [`TransState`], and every walk
/// step is proved to transform that state exactly as the corresponding
/// `lowering` spec function says.
pub struct LuauTranspiler {
    pub indent_manager: IndentManager,
    pub local_variables: Vec<String>,
    pub output: String,
    pub in_function: bool,
}

impl View for LuauTranspiler {
    type V = TransState;

    open spec fn view(&self) -> TransState {
        TransState {
            out: self.output@,
            unit: self.indent_manager.indent_str@,
            level: self.indent_manager.level as nat,
            locals: locals_set(self.local_variables@),
            in_function: self.in_function,
        }
    }
}

impl LuauTranspiler {
    pub fn new(indent_manager: IndentManager) -> (r: Self)
        ensures
            r@.out == Seq::<char>::empty(),
            r@.unit == indent_manager.indent_str@,
            r@.level == indent_manager.level as nat,
            r@.locals == Set::<Seq<char>>::empty(),
            !r@.in_function,
    {
        let r = Self {
            indent_manager,
            local_variables: Vec::new(),
            output: String::new(),
            in_function: false,
        };
        proof {
            assert(r@.locals =~= Set::<Seq<char>>::empty());
        }
        r
    }

    /// Hands the fully rendered program text to the caller.
    pub fn render(self) -> (r: String)
        ensures
            r@ == self@.out,
    {
        self.output
    }

    /// Appends one line: indentation prefix, text, newline.
    pub fn add_line(&mut self, line: &str)
        ensures
            final(self)@ == emit_line(old(self)@, line@),
    {
        let ind = self.indent_manager.get_indent();
        self.output.append(ind.as_str());
        self.output.append(line);
        self.output.append("\n");
        proof {
            assert(self@ =~~= emit_line(old(self)@, line@));
        }
    }

    /// Records a name as declared in the current function scope.
    pub fn add_local_variable(&mut self, name: &str)
        ensures
            final(self)@ == (TransState { locals: old(self)@.locals.insert(name@), ..old(self)@ }),
    {
        self.local_variables.push(name.to_owned());
        proof {
            let v0 = old(self).local_variables@;
            let v1 = self.local_variables@;
            assert(locals_set(v1) =~= locals_set(v0).insert(name@)) by {
                assert forall|x: Seq<char>| locals_set(v1).contains(x) implies locals_set(
                    v0,
                ).insert(name@).contains(x) by {
                    let i = choose|i: int| 0 <= i < v1.len() && v1[i]@ == x;
                    if i < v0.len() {
                        assert(v0[i]@ == x);
                    }
                };
                assert forall|x: Seq<char>| locals_set(v0).insert(name@).contains(x)
                    implies locals_set(v1).contains(x) by {
                    if x == name@ {
                        assert(v1[v0.len() as int]@ == x);
                    } else {
                        let i = choose|i: int| 0 <= i < v0.len() && v0[i]@ == x;
                        assert(v1[i]@ == x);
                    }
                };
            };
            assert(self@ =~~= TransState {
                locals: old(self)@.locals.insert(name@),
                ..old(self)@
            });
        }
    }

    /// Whether a name has already been declared in the current function
    /// scope.
    pub fn is_local_variable(&self, name: &str) -> (r: bool)
        ensures
            r == self@.locals.contains(name@),
    {
        let n = self.local_variables.len();
        let mut i: usize = 0;
        while i < n
            invariant
                i <= n,
                n == self.local_variables@.len(),
                forall|j: int| #![trigger self.local_variables@[j]] 0 <= j < i
                    ==> self.local_variables@[j]@ != name@,
            decreases n - i,
        {
            if str_eq(self.local_variables[i].as_str(), name) {
                proof {
                    assert(self.local_variables@[i as int]@ == name@);
                }
                return true;
            }
            i = i + 1;
        }
        false
    }

    /// Forgets all declared locals; called at each function boundary.
    pub fn clear_local_variables(&mut self)
        ensures
            final(self)@ == (TransState { locals: Set::empty(), ..old(self)@ }),
    {
        self.local_variables = Vec::new();
        proof {
            assert(locals_set(self.local_variables@) =~= Set::<Seq<char>>::empty());
            assert(self@ =~~= TransState { locals: Set::empty(), ..old(self)@ });
        }
    }

    /// Maps a source type identifier to its target annotation; unknown types
    /// degrade to the dynamic annotation.
    pub fn map_type(&self, ty: &TypeName) -> (r: &'static str)
        ensures
            r@ == type_text(*ty),
    {
        match ty {
            TypeName::Ident(s) => {
                let t = s.as_str();
                if str_eq(t, "i8") || str_eq(t, "i16") || str_eq(t, "i32") || str_eq(t, "i64")
                    || str_eq(t, "isize") || str_eq(t, "u8") || str_eq(t, "u16")
                    || str_eq(t, "u32") || str_eq(t, "u64") || str_eq(t, "usize")
                    || str_eq(t, "f32") || str_eq(t, "f64") {
                    "number"
                } else if str_eq(t, "bool") {
                    "boolean"
                } else if str_eq(t, "String") || str_eq(t, "str") {
                    "string"
                } else {
                    "any"
                }
            },
            TypeName::Other => "any",
        }
    }

    /// Renders a literal in its target form.
    pub fn transpile_lit(&self, l: &Literal) -> (r: String)
        ensures
            r@ == lit_text(*l),
    {
        match l {
            Literal::Text(s) => {
                let mut out = String::from_str("\"");
                out.append(s.as_str());
                out.append("\"");
                out
            },
            Literal::Int(d) => d.clone(),
            Literal::Float(d) => d.clone(),
            Literal::Bool(b) => if *b {
                String::from_str("true")
            } else {
                String::from_str("false")
            },
            Literal::Other => String::from_str("nil"),
        }
    }

    /// The target spelling of a supported operator (the entry of the fixed
    /// table).
    fn op_str(&self, op: &BinOp) -> (r: &'static str)
        ensures
            r@ == op_text(*op),
    {
        match op {
            BinOp::Plus => "+",
            BinOp::Minus => "-",
            BinOp::Times => "*",
            BinOp::Divide => "/",
            BinOp::Equal => "==",
            BinOp::NotEqual => "~=",
            BinOp::Less => "<",
            BinOp::LessEqual => "<=",
            BinOp::Greater => ">",
            BinOp::GreaterEqual => ">=",
            BinOp::LogicalAnd => "and",
            BinOp::LogicalOr => "or",
            BinOp::Unsupported => {
                proof {
                    reveal_strlit("");
                    assert(""@ =~= op_text(*op));
                }
                ""
            },
        }
    }

    /// Lowers an expression to target text; the only expression shape that
    /// aborts is a binary operator outside the fixed table.
    pub fn transpile_expr(&self, e: &Expr) -> (r: Result<String, TransErr>)
        ensures
            match r {
                Ok(s) => expr_text(*e) == Ok::<Seq<char>, TransErr>(s@),
                Err(er) => expr_text(*e) == Err::<Seq<char>, TransErr>(er),
            },
        decreases *e,
    {
        match e {
            Expr::Lit(l) => Ok(self.transpile_lit(l)),
            Expr::Name(s) => Ok(s.clone()),
            Expr::Binary(op, l, r) => {
                let lt = match self.transpile_expr(&**l) {
                    Ok(t) => t,
                    Err(er) => {
                        return Err(er);
                    },
                };
                let rt = match self.transpile_expr(&**r) {
                    Ok(t) => t,
                    Err(er) => {
                        return Err(er);
                    },
                };
                if let BinOp::Unsupported = op {
                    return Err(TransErr::UnsupportedOperator);
                }
                let mut out = lt;
                out.append(" ");
                out.append(self.op_str(op));
                out.append(" ");
                out.append(rt.as_str());
                Ok(out)
            },
            Expr::Match(_) => Ok(String::new()),
            Expr::Other => Ok(String::from_str("nil")),
        }
    }

    /// The ` = <value>` tail of a binding with an initializer, empty when
    /// there is none.
    fn opt_init(&self, init: &Option<Expr>) -> (r: Result<String, TransErr>)
        ensures
            match r {
                Ok(s) => opt_init_text(*init) == Ok::<Seq<char>, TransErr>(s@),
                Err(er) => opt_init_text(*init) == Err::<Seq<char>, TransErr>(er),
            },
    {
        match init {
            Option::None => Ok(String::new()),
            Option::Some(e) => match self.transpile_expr(e) {
                Ok(t) => {
                    let mut out = String::from_str(" = ");
                    out.append(t.as_str());
                    Ok(out)
                },
                Err(er) => Err(er),
            },
        }
    }

    /// Lowers a pattern to its boolean guard text relative to a scrutinee.
    pub fn transpile_pat(&self, p: &Pat, scrutinee: &str) -> (r: Result<String, TransErr>)
        ensures
            match r {
                Ok(s) => pat_guard(*p, scrutinee@) == Ok::<Seq<char>, TransErr>(s@),
                Err(er) => pat_guard(*p, scrutinee@) == Err::<Seq<char>, TransErr>(er),
            },
        decreases *p, 1int,
    {
        match p {
            Pat::Lit(l) => {
                let mut out = scrutinee.to_owned();
                out.append(" == ");
                out.append(self.transpile_lit(l).as_str());
                Ok(out)
            },
            Pat::Name(n) => {
                let mut out = scrutinee.to_owned();
                out.append(" == ");
                out.append(n.as_str());
                Ok(out)
            },
            Pat::Range { start, end, inclusive } => match (start, end) {
                (Option::Some(lo), Option::Some(hi)) => {
                    let mut out = self.transpile_lit(lo);
                    if *inclusive {
                        out.append(" <= x and x <= ");
                    } else {
                        out.append(" <= x and x < ");
                    }
                    out.append(self.transpile_lit(hi).as_str());
                    Ok(out)
                },
                _ => Err(TransErr::UnsupportedPatternBound),
            },
            Pat::Wild => Ok(String::from_str("_")),
            Pat::Or(cases) => {
                proof {
                    assert(cases@.skip(0) =~= cases@);
                }
                self.or_cases(cases, scrutinee, 0)
            },
            Pat::Other => Err(TransErr::UnsupportedPattern),
        }
    }

    /// The guards of an or-pattern's cases from `i` on, joined by ` or `.
    fn or_cases(&self, cases: &Vec<Pat>, scrutinee: &str, i: usize) -> (r: Result<
        String,
        TransErr,
    >)
        requires
            i <= cases@.len(),
        ensures
            match r {
                Ok(s) => pats_guard(cases@.skip(i as int), scrutinee@) == Ok::<
                    Seq<char>,
                    TransErr,
                >(s@),
                Err(er) => pats_guard(cases@.skip(i as int), scrutinee@) == Err::<
                    Seq<char>,
                    TransErr,
                >(er),
            },
        decreases cases@.skip(i as int), 0int,
    {
        if i == cases.len() {
            proof {
                assert(cases@.skip(i as int) =~= Seq::<Pat>::empty());
            }
            return Ok(String::new());
        }
        proof {
            assert(cases@.skip(i as int)[0] == cases@[i as int]);
        }
        let head = match self.transpile_pat(&cases[i], scrutinee) {
            Ok(g) => g,
            Err(er) => {
                return Err(er);
            },
        };
        if i + 1 == cases.len() {
            return Ok(head);
        }
        proof {
            let s = cases@.skip(i as int);
            assert(cases@.skip(i as int + 1) =~= s.subrange(1, s.len() as int));
            assert(decreases_to!(s => s.subrange(1, s.len() as int)));
            assert(s.drop_first() =~= cases@.skip(i as int + 1));
        }
        let rest = match self.or_cases(cases, scrutinee, i + 1) {
            Ok(t) => t,
            Err(er) => {
                return Err(er);
            },
        };
        let mut out = head;
        out.append(" or ");
        out.append(rest.as_str());
        Ok(out)
    }

    /// Dispatches one statement to its lowering routine.
    pub fn visit_stmt(&mut self, s: &Stmt) -> (r: Result<(), TransErr>)
        requires
            old(self)@.level + stmt_depth(*s) <= usize::MAX,
        ensures
            match r {
                Ok(_) => stmt_out(*s, old(self)@) == Ok::<TransState, TransErr>(final(self)@),
                Err(e) => stmt_out(*s, old(self)@) == Err::<TransState, TransErr>(e),
            },
        decreases *s, 0int,
    {
        match s {
            Stmt::TypedLocal { .. } => self.visit_local(s),
            Stmt::Local { .. } => self.visit_local(s),
            Stmt::Assign { target, value } => self.visit_expr_assign(target, value),
            Stmt::If(b) => self.visit_expr_if(&**b),
            Stmt::For { var, iter, body } => self.visit_expr_for_loop(var, iter, body),
            Stmt::While { cond, body } => self.visit_expr_while(cond, body),
            Stmt::Loop { body } => self.visit_expr_loop(body),
            Stmt::Other => Ok(()),
        }
    }

    /// Translates sibling statements in source order.
    #[verifier::loop_isolation(false)]
    pub fn visit_stmts(&mut self, ss: &Vec<Stmt>) -> (r: Result<(), TransErr>)
        requires
            old(self)@.level + stmts_depth(ss@) <= usize::MAX,
        ensures
            match r {
                Ok(_) => stmts_out(ss@, old(self)@) == Ok::<TransState, TransErr>(final(self)@),
                Err(e) => stmts_out(ss@, old(self)@) == Err::<TransState, TransErr>(e),
            },
        decreases ss@, 1int,
    {
        let ghost st0 = self@;
        proof {
            assert(ss@.skip(0) =~= ss@);
        }
        let n = ss.len();
        let mut i: usize = 0;
        while i < n
            invariant
                i <= n,
                stmts_out(ss@, st0) == stmts_out(ss@.skip(i as int), self@),
                self@.level == st0.level,
                self@.unit == st0.unit,
                self@.in_function == st0.in_function,
            decreases n - i,
        {
            proof {
                lemma_stmts_depth_elem(ss@, i as int);
                assert(ss@.skip(i as int)[0] == ss@[i as int]);
            }
            let ghost prev = self@;
            match self.visit_stmt(&ss[i]) {
                Ok(_) => {},
                Err(e) => {
                    proof {
                        assert(stmts_out(ss@.skip(i as int), prev) == Err::<TransState, TransErr>(
                            e,
                        ));
                    }
                    return Err(e);
                },
            }
            proof {
                lemma_stmt_frame(ss@[i as int], prev);
                assert(ss@.skip(i as int).drop_first() =~= ss@.skip(i as int + 1));
            }
            i = i + 1;
        }
        proof {
            assert(ss@.skip(n as int) =~= Seq::<Stmt>::empty());
        }
        Ok(())
    }

    /// Translates a local binding (with or without a type annotation).
    pub fn visit_local(&mut self, s: &Stmt) -> (r: Result<(), TransErr>)
        requires
            old(self)@.level + stmt_depth(*s) <= usize::MAX,
            (*s) is TypedLocal || (*s) is Local,
        ensures
            match r {
                Ok(_) => stmt_out(*s, old(self)@) == Ok::<TransState, TransErr>(final(self)@),
                Err(e) => stmt_out(*s, old(self)@) == Err::<TransState, TransErr>(e),
            },
    {
        match s {
            Stmt::TypedLocal { name, ty, init } => {
                let part = match self.opt_init(init) {
                    Ok(p) => p,
                    Err(e) => {
                        return Err(e);
                    },
                };
                self.add_local_variable(name.as_str());
                let mut line = String::from_str("local ");
                line.append(name.as_str());
                line.append(": ");
                line.append(self.map_type(ty));
                line.append(part.as_str());
                self.add_line(line.as_str());
                proof {
                    assert(typed_local_out(name@, *ty, *init, old(self)@) == Ok::<
                        TransState,
                        TransErr,
                    >(self@));
                }
                Ok(())
            },
            Stmt::Local { name, init } => match init {
                Option::Some(Expr::Match(m)) => self.visit_local_match(name, &**m),
                _ => {
                    let part = match self.opt_init(init) {
                        Ok(p) => p,
                        Err(e) => {
                            return Err(e);
                        },
                    };
                    self.add_local_variable(name.as_str());
                    let mut line = String::from_str("local ");
                    line.append(name.as_str());
                    line.append(part.as_str());
                    self.add_line(line.as_str());
                    proof {
                        assert(local_out(name@, *init, old(self)@) == Ok::<TransState, TransErr>(
                            self@,
                        ));
                    }
                    Ok(())
                },
            },
            _ => {
                proof {
                    assert(false);
                }
                Err(TransErr::UnsupportedPattern)
            },
        }
    }

    /// Lowers a local binding whose initializer is a `match` into an
    /// `if/elseif/else` chain that assigns the placeholder.
    #[verifier::loop_isolation(false)]
    fn visit_local_match(&mut self, name: &String, m: &MatchExpr) -> (r: Result<(), TransErr>)
        requires
            old(self)@.level + 1 <= usize::MAX,
        ensures
            match r {
                Ok(_) => local_match_out(name@, *m, old(self)@) == Ok::<TransState, TransErr>(
                    final(self)@,
                ),
                Err(e) => local_match_out(name@, *m, old(self)@) == Err::<TransState, TransErr>(
                    e,
                ),
            },
    {
        let ghost st0 = self@;
        let sc = match self.transpile_expr(&m.scrutinee) {
            Ok(t) => t,
            Err(e) => {
                return Err(e);
            },
        };
        self.add_local_variable(name.as_str());
        let mut line = String::from_str("local ");
        line.append(name.as_str());
        line.append(" = nil");
        self.add_line(line.as_str());
        let ghost st1 = self@;
        proof {
            assert(st1 == emit_line(with_local(st0, name@), "local "@ + name@ + " = nil"@));
        }
        proof {
            assert(m.arms@.skip(0) =~= m.arms@);
        }
        let n = m.arms.len();
        let mut idx: usize = 0;
        let mut first = true;
        while idx < n
            invariant
                idx <= n,
                match_arms_out(m.arms@, sc@, name@, true, st1) == match_arms_out(
                    m.arms@.skip(idx as int),
                    sc@,
                    name@,
                    first,
                    self@,
                ),
                self@.level == st1.level,
                self@.unit == st1.unit,
                self@.in_function == st1.in_function,
            decreases n - idx,
        {
            let ghost prev = self@;
            let ghost first0 = first;
            proof {
                assert(m.arms@.skip(idx as int)[0] == m.arms@[idx as int]);
            }
            let arm = &m.arms[idx];
            if arm.has_guard {
                proof {
                    assert(match_arms_out(m.arms@.skip(idx as int), sc@, name@, first0, prev)
                        == Err::<TransState, TransErr>(TransErr::UnsupportedGuardClause));
                }
                return Err(TransErr::UnsupportedGuardClause);
            }
            let g = match self.transpile_pat(&arm.pat, sc.as_str()) {
                Ok(t) => t,
                Err(e) => {
                    return Err(e);
                },
            };
            let is_else = str_eq(g.as_str(), "_");
            if is_else {
                self.add_line("else");
            } else if first {
                let mut cl = String::from_str("if ");
                cl.append(g.as_str());
                cl.append(" then");
                self.add_line(cl.as_str());
                first = false;
            } else {
                let mut cl = String::from_str("elseif ");
                cl.append(g.as_str());
                cl.append(" then");
                self.add_line(cl.as_str());
            }
            let ghost stc = self@;
            self.indent_manager.increase();
            let b = match self.transpile_expr(&arm.body) {
                Ok(t) => t,
                Err(e) => {
                    return Err(e);
                },
            };
            let mut al = name.clone();
            al.append(" = ");
            al.append(b.as_str());
            self.add_line(al.as_str());
            self.indent_manager.decrease();
            proof {
                assert(self@ =~~= (TransState {
                    level: stc.level,
                    ..emit_line(TransState { level: stc.level + 1, ..stc }, name@ + " = "@ + b@)
                }));
                assert(m.arms@.skip(idx as int).drop_first() =~= m.arms@.skip(idx as int + 1));
                assert(match_arms_out(m.arms@.skip(idx as int), sc@, name@, first0, prev)
                    == match_arms_out(m.arms@.skip(idx as int + 1), sc@, name@, first, self@));
            }
            idx = idx + 1;
        }
        proof {
            assert(m.arms@.skip(n as int) =~= Seq::<MatchArm>::empty());
        }
        self.add_line("end");
        proof {
            assert(local_match_out(name@, *m, st0) == Ok::<TransState, TransErr>(self@));
        }
        Ok(())
    }

    /// Translates an assignment to a bare identifier, promoting the first
    /// assignment to an undeclared name inside a function to a declaration.
    pub fn visit_expr_assign(&mut self, target: &String, value: &Expr) -> (r: Result<
        (),
        TransErr,
    >)
        ensures
            match r {
                Ok(_) => assign_out(target@, *value, old(self)@) == Ok::<TransState, TransErr>(
                    final(self)@,
                ),
                Err(e) => assign_out(target@, *value, old(self)@) == Err::<TransState, TransErr>(
                    e,
                ),
            },
    {
        let v = match self.transpile_expr(value) {
            Ok(t) => t,
            Err(e) => {
                return Err(e);
            },
        };
        if self.in_function && !self.is_local_variable(target.as_str()) {
            let mut line = String::from_str("local ");
            line.append(target.as_str());
            line.append(" = ");
            line.append(v.as_str());
            self.add_line(line.as_str());
            self.add_local_variable(target.as_str());
            proof {
                assert(self@ =~~= emit_line(
                    with_local(old(self)@, target@),
                    "local "@ + target@ + " = "@ + v@,
                ));
            }
        } else {
            let mut line = target.clone();
            line.append(" = ");
            line.append(v.as_str());
            self.add_line(line.as_str());
        }
        Ok(())
    }

    /// Translates a conditional and its alternative chain.
    pub fn visit_expr_if(&mut self, i: &IfStmt) -> (r: Result<(), TransErr>)
        requires
            old(self)@.level + if_depth(*i) <= usize::MAX,
        ensures
            match r {
                Ok(_) => if_out(*i, old(self)@) == Ok::<TransState, TransErr>(final(self)@),
                Err(e) => if_out(*i, old(self)@) == Err::<TransState, TransErr>(e),
            },
        decreases *i, 0int,
    {
        let ghost st0 = self@;
        let c = match self.transpile_expr(&i.cond) {
            Ok(t) => t,
            Err(e) => {
                return Err(e);
            },
        };
        let mut line = String::from_str("if ");
        line.append(c.as_str());
        line.append(" then");
        self.add_line(line.as_str());
        let ghost st1 = self@;
        self.indent_manager.increase();
        let ghost stin = self@;
        match self.visit_stmts(&i.then_body) {
            Ok(_) => {},
            Err(e) => {
                proof {
                    assert(block_out(i.then_body@, st1) == Err::<TransState, TransErr>(e));
                }
                return Err(e);
            },
        }
        proof {
            lemma_stmts_frame(i.then_body@, stin);
        }
        self.indent_manager.decrease();
        proof {
            assert(block_out(i.then_body@, st1) == Ok::<TransState, TransErr>(self@));
        }
        self.visit_else(&i.alt)
    }

    /// Translates the alternative of a conditional: nothing, a further
    /// `else if`, or a final `else` block.
    pub fn visit_else(&mut self, alt: &Option<ElseBranch>) -> (r: Result<(), TransErr>)
        requires
            old(self)@.level + else_depth(*alt) <= usize::MAX,
        ensures
            match r {
                Ok(_) => else_out(*alt, old(self)@) == Ok::<TransState, TransErr>(final(self)@),
                Err(e) => else_out(*alt, old(self)@) == Err::<TransState, TransErr>(e),
            },
        decreases *alt, 0int,
    {
        match alt {
            Option::None => {
                self.add_line("end");
                Ok(())
            },
            Option::Some(ElseBranch::ElseIf(j)) => {
                let c = match self.transpile_expr(&j.cond) {
                    Ok(t) => t,
                    Err(e) => {
                        return Err(e);
                    },
                };
                let mut line = String::from_str("elseif ");
                line.append(c.as_str());
                line.append(" then");
                self.add_line(line.as_str());
                let ghost st1 = self@;
                self.indent_manager.increase();
                let ghost stin = self@;
                match self.visit_stmts(&j.then_body) {
                    Ok(_) => {},
                    Err(e) => {
                        proof {
                            assert(block_out(j.then_body@, st1) == Err::<TransState, TransErr>(
                                e,
                            ));
                        }
                        return Err(e);
                    },
                }
                proof {
                    lemma_stmts_frame(j.then_body@, stin);
                }
                self.indent_manager.decrease();
                proof {
                    assert(block_out(j.then_body@, st1) == Ok::<TransState, TransErr>(self@));
                }
                self.visit_else(&j.alt)
            },
            Option::Some(ElseBranch::Else(b)) => {
                self.add_line("else");
                let ghost st1 = self@;
                self.indent_manager.increase();
                let ghost stin = self@;
                match self.visit_stmts(b) {
                    Ok(_) => {},
                    Err(e) => {
                        proof {
                            assert(block_out(b@, st1) == Err::<TransState, TransErr>(e));
                        }
                        return Err(e);
                    },
                }
                proof {
                    lemma_stmts_frame(b@, stin);
                }
                self.indent_manager.decrease();
                self.add_line("end");
                Ok(())
            },
        }
    }

    /// Translates a `for` loop over an integer range.
    pub fn visit_expr_for_loop(
        &mut self,
        var: &LoopVar,
        iter: &LoopIter,
        body: &Vec<Stmt>,
    ) -> (r: Result<(), TransErr>)
        requires
            old(self)@.level + stmts_depth(body@) + 1 <= usize::MAX,
        ensures
            match r {
                Ok(_) => for_out(*var, *iter, body@, old(self)@) == Ok::<TransState, TransErr>(
                    final(self)@,
                ),
                Err(e) => for_out(*var, *iter, body@, old(self)@) == Err::<TransState, TransErr>(
                    e,
                ),
            },
        decreases body@, 2int,
    {
        let v = match var {
            LoopVar::Name(n) => n,
            LoopVar::Other => {
                return Err(TransErr::UnsupportedLoopVariable);
            },
        };
        match iter {
            LoopIter::Other => Err(TransErr::UnsupportedIterator),
            LoopIter::Range { start, end, inclusive } => {
                let stx = match start {
                    LoopBound::Absent => String::from_str("0"),
                    LoopBound::Val(x) => u64_text(*x),
                    LoopBound::Unsupported => {
                        return Err(TransErr::UnsupportedIterator);
                    },
                };
                let etx = match end {
                    LoopBound::Absent => String::from_str("math.huge"),
                    LoopBound::Val(x) => if *inclusive {
                        u64_text(*x)
                    } else if *x == 0 {
                        String::from_str("-1")
                    } else {
                        u64_text(*x - 1)
                    },
                    LoopBound::Unsupported => {
                        return Err(TransErr::UnsupportedIterator);
                    },
                };
                let mut line = String::from_str("for ");
                line.append(v.as_str());
                line.append(" = ");
                line.append(stx.as_str());
                line.append(", ");
                line.append(etx.as_str());
                line.append(" do");
                self.add_line(line.as_str());
                let ghost st1 = self@;
                self.indent_manager.increase();
                let ghost stin = self@;
                match self.visit_stmts(body) {
                    Ok(_) => {},
                    Err(e) => {
                        proof {
                            assert(block_out(body@, st1) == Err::<TransState, TransErr>(e));
                        }
                        return Err(e);
                    },
                }
                proof {
                    lemma_stmts_frame(body@, stin);
                }
                self.indent_manager.decrease();
                self.add_line("end");
                Ok(())
            },
        }
    }

    /// Translates a `while` loop.
    pub fn visit_expr_while(&mut self, cond: &Expr, body: &Vec<Stmt>) -> (r: Result<
        (),
        TransErr,
    >)
        requires
            old(self)@.level + stmts_depth(body@) + 1 <= usize::MAX,
        ensures
            match r {
                Ok(_) => while_out(*cond, body@, old(self)@) == Ok::<TransState, TransErr>(
                    final(self)@,
                ),
                Err(e) => while_out(*cond, body@, old(self)@) == Err::<TransState, TransErr>(e),
            },
        decreases body@, 2int,
    {
        let c = match self.transpile_expr(cond) {
            Ok(t) => t,
            Err(e) => {
                return Err(e);
            },
        };
        let mut line = String::from_str("while ");
        line.append(c.as_str());
        line.append(" do");
        self.add_line(line.as_str());
        let ghost st1 = self@;
        self.indent_manager.increase();
        let ghost stin = self@;
        match self.visit_stmts(body) {
            Ok(_) => {},
            Err(e) => {
                proof {
                    assert(block_out(body@, st1) == Err::<TransState, TransErr>(e));
                }
                return Err(e);
            },
        }
        proof {
            lemma_stmts_frame(body@, stin);
        }
        self.indent_manager.decrease();
        self.add_line("end");
        Ok(())
    }

    /// Translates an infinite loop as `while true do`.
    pub fn visit_expr_loop(&mut self, body: &Vec<Stmt>) -> (r: Result<(), TransErr>)
        requires
            old(self)@.level + stmts_depth(body@) + 1 <= usize::MAX,
        ensures
            match r {
                Ok(_) => loop_out(body@, old(self)@) == Ok::<TransState, TransErr>(final(self)@),
                Err(e) => loop_out(body@, old(self)@) == Err::<TransState, TransErr>(e),
            },
        decreases body@, 2int,
    {
        self.add_line("while true do");
        let ghost st1 = self@;
        self.indent_manager.increase();
        let ghost stin = self@;
        match self.visit_stmts(body) {
            Ok(_) => {},
            Err(e) => {
                proof {
                    assert(block_out(body@, st1) == Err::<TransState, TransErr>(e));
                }
                return Err(e);
            },
        }
        proof {
            lemma_stmts_frame(body@, stin);
        }
        self.indent_manager.decrease();
        self.add_line("end");
        Ok(())
    }

    /// Renders the `name: type` entries of the parameters from `i` on,
    /// joined by `, `.
    fn render_params(&self, ps: &Vec<Param>, i: usize) -> (r: String)
        requires
            i <= ps@.len(),
        ensures
            r@ == params_text(ps@.skip(i as int)),
        decreases ps@.len() - i,
    {
        if i == ps.len() {
            proof {
                assert(ps@.skip(i as int) =~= Seq::<Param>::empty());
            }
            return String::new();
        }
        proof {
            assert(ps@.skip(i as int)[0] == ps@[i as int]);
            assert(ps@.skip(i as int).drop_first() =~= ps@.skip(i as int + 1));
        }
        let rest = self.render_params(ps, i + 1);
        match &ps[i] {
            Param::Named { name, ty } => {
                let mut out = name.clone();
                out.append(": ");
                out.append(self.map_type(ty));
                if rest.as_str().is_empty() {
                    out
                } else {
                    out.append(", ");
                    out.append(rest.as_str());
                    out
                }
            },
            Param::Other => rest,
        }
    }

    /// Translates one function definition: header, body one level deeper
    /// under a fresh local scope, closing `end`.
    pub fn visit_item_fn(&mut self, f: &FnDef) -> (r: Result<(), TransErr>)
        requires
            old(self)@.level + fn_depth(*f) <= usize::MAX,
        ensures
            match r {
                Ok(_) => fn_out(*f, old(self)@) == Ok::<TransState, TransErr>(final(self)@),
                Err(e) => fn_out(*f, old(self)@) == Err::<TransState, TransErr>(e),
            },
    {
        let ghost st0 = self@;
        self.in_function = true;
        self.clear_local_variables();
        proof {
            assert(self@ =~~= (TransState { in_function: true, locals: Set::empty(), ..st0 }));
            assert(f.params@.skip(0) =~= f.params@);
        }
        let params = self.render_params(&f.params, 0);
        let mut header = String::from_str("function ");
        header.append(f.name.as_str());
        header.append("(");
        header.append(params.as_str());
        header.append(")");
        match &f.ret {
            Option::Some(t) => {
                header.append(": ");
                header.append(self.map_type(t));
            },
            Option::None => {},
        }
        proof {
            assert(header@ =~= "function "@ + f.name@ + "("@ + params_text(f.params@) + ")"@
                + ret_text(f.ret));
        }
        self.add_line(header.as_str());
        let ghost st1 = self@;
        self.indent_manager.increase();
        let ghost stin = self@;
        match self.visit_stmts(&f.body) {
            Ok(_) => {},
            Err(e) => {
                proof {
                    assert(block_out(f.body@, st1) == Err::<TransState, TransErr>(e));
                }
                return Err(e);
            },
        }
        proof {
            lemma_stmts_frame(f.body@, stin);
        }
        self.indent_manager.decrease();
        self.add_line("end");
        self.in_function = false;
        proof {
            assert(fn_out(*f, st0) == Ok::<TransState, TransErr>(self@));
        }
        Ok(())
    }

    /// Translates a whole translation unit, item by item in source order.
    #[verifier::loop_isolation(false)]
    pub fn visit_file(&mut self, f: &SourceFile) -> (r: Result<(), TransErr>)
        requires
            old(self)@.level + file_depth(*f) <= usize::MAX,
        ensures
            match r {
                Ok(_) => file_out(*f, old(self)@) == Ok::<TransState, TransErr>(final(self)@),
                Err(e) => file_out(*f, old(self)@) == Err::<TransState, TransErr>(e),
            },
    {
        let ghost st0 = self@;
        proof {
            assert(f.items@.skip(0) =~= f.items@);
        }
        let n = f.items.len();
        let mut i: usize = 0;
        while i < n
            invariant
                i <= n,
                items_out(f.items@, st0) == items_out(f.items@.skip(i as int), self@),
                self@.level == st0.level,
                self@.unit == st0.unit,
            decreases n - i,
        {
            proof {
                lemma_items_depth_elem(f.items@, i as int);
                assert(f.items@.skip(i as int)[0] == f.items@[i as int]);
            }
            let ghost prev = self@;
            match &f.items[i] {
                Item::Fn(fd) => match self.visit_item_fn(fd) {
                    Ok(_) => {
                        proof {
                            lemma_item_frame(f.items@[i as int], prev);
                        }
                    },
                    Err(e) => {
                        proof {
                            assert(items_out(f.items@.skip(i as int), prev) == Err::<
                                TransState,
                                TransErr,
                            >(e));
                        }
                        return Err(e);
                    },
                },
                Item::Other => {},
            }
            proof {
                assert(f.items@.skip(i as int).drop_first() =~= f.items@.skip(i as int + 1));
            }
            i = i + 1;
        }
        proof {
            assert(f.items@.skip(n as int) =~= Seq::<Item>::empty());
        }
        Ok(())
    }
}

} // verus!
