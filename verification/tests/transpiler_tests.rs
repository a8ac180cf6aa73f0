use luau_transpiler::ast::{
    BinOp, ElseBranch, Expr, FnDef, IfStmt, Item, Literal, LoopBound, LoopIter, LoopVar,
    MatchArm, MatchExpr, Param, Pat, SourceFile, Stmt, TransErr, TypeName,
};
use luau_transpiler::transpiler::LuauTranspiler;
use luau_transpiler::IndentManager;

fn fresh() -> LuauTranspiler {
    LuauTranspiler::new(IndentManager::new("    "))
}

fn int_lit(d: &str) -> Expr {
    Expr::Lit(Literal::Int(d.to_string()))
}

fn name(n: &str) -> Expr {
    Expr::Name(n.to_string())
}

fn binary(op: BinOp, l: Expr, r: Expr) -> Expr {
    Expr::Binary(op, Box::new(l), Box::new(r))
}

fn arm(pat: Pat, body: Expr) -> MatchArm {
    MatchArm { pat, has_guard: false, body }
}

fn assign(target: &str, value: Expr) -> Stmt {
    Stmt::Assign { target: target.to_string(), value }
}

#[test]
fn indent_tracker_round_trip() {
    let mut im = IndentManager::new("  ");
    assert_eq!(im.get_indent(), "");
    im.increase();
    im.increase();
    assert_eq!(im.get_indent(), "    ");
    im.decrease();
    assert_eq!(im.get_indent(), "  ");
    im.decrease();
    im.decrease();
    assert_eq!(im.get_indent(), "");
}

#[test]
fn local_variable_tracking() {
    let mut t = fresh();
    assert!(!t.is_local_variable("x"));
    t.add_local_variable("x");
    assert!(t.is_local_variable("x"));
    assert!(!t.is_local_variable("y"));
    t.clear_local_variables();
    assert!(!t.is_local_variable("x"));
}

#[test]
fn type_mapping() {
    let t = fresh();
    for n in ["i8", "i16", "i32", "i64", "isize", "u8", "u16", "u32", "u64", "usize", "f32", "f64"] {
        assert_eq!(t.map_type(&TypeName::Ident(n.to_string())), "number");
    }
    assert_eq!(t.map_type(&TypeName::Ident("bool".to_string())), "boolean");
    assert_eq!(t.map_type(&TypeName::Ident("String".to_string())), "string");
    assert_eq!(t.map_type(&TypeName::Ident("str".to_string())), "string");
    assert_eq!(t.map_type(&TypeName::Ident("MyThing".to_string())), "any");
    assert_eq!(t.map_type(&TypeName::Other), "any");
}

#[test]
fn operator_table_exact() {
    let t = fresh();
    let cases = [
        (BinOp::Plus, "+"),
        (BinOp::Minus, "-"),
        (BinOp::Times, "*"),
        (BinOp::Divide, "/"),
        (BinOp::Equal, "=="),
        (BinOp::NotEqual, "~="),
        (BinOp::Less, "<"),
        (BinOp::LessEqual, "<="),
        (BinOp::Greater, ">"),
        (BinOp::GreaterEqual, ">="),
        (BinOp::LogicalAnd, "and"),
        (BinOp::LogicalOr, "or"),
    ];
    for (op, sym) in cases {
        let e = binary(op, name("a"), name("b"));
        assert_eq!(t.transpile_expr(&e).unwrap(), format!("a {} b", sym));
    }
}

#[test]
fn unsupported_operator_aborts() {
    let t = fresh();
    let e = binary(BinOp::Unsupported, int_lit("1"), int_lit("2"));
    assert_eq!(t.transpile_expr(&e), Err(TransErr::UnsupportedOperator));
    let nested = binary(BinOp::Plus, binary(BinOp::Unsupported, int_lit("1"), int_lit("2")), int_lit("3"));
    assert_eq!(t.transpile_expr(&nested), Err(TransErr::UnsupportedOperator));
}

#[test]
fn literal_forms() {
    let t = fresh();
    assert_eq!(t.transpile_expr(&Expr::Lit(Literal::Text("hi".to_string()))).unwrap(), "\"hi\"");
    assert_eq!(t.transpile_expr(&int_lit("42")).unwrap(), "42");
    assert_eq!(t.transpile_expr(&Expr::Lit(Literal::Float("1.5".to_string()))).unwrap(), "1.5");
    assert_eq!(t.transpile_expr(&Expr::Lit(Literal::Bool(true))).unwrap(), "true");
    assert_eq!(t.transpile_expr(&Expr::Lit(Literal::Bool(false))).unwrap(), "false");
    assert_eq!(t.transpile_expr(&Expr::Lit(Literal::Other)).unwrap(), "nil");
    assert_eq!(t.transpile_expr(&Expr::Other).unwrap(), "nil");
    assert_eq!(t.transpile_expr(&name("foo")).unwrap(), "foo");
}

#[test]
fn nested_binary_expression() {
    let t = fresh();
    let e = binary(BinOp::Plus, name("a"), binary(BinOp::Times, name("b"), name("c")));
    assert_eq!(t.transpile_expr(&e).unwrap(), "a + b * c");
}

#[test]
fn pattern_guards() {
    let t = fresh();
    assert_eq!(
        t.transpile_pat(&Pat::Lit(Literal::Int("1".to_string())), "s").unwrap(),
        "s == 1"
    );
    assert_eq!(t.transpile_pat(&Pat::Name("v".to_string()), "s").unwrap(), "s == v");
    assert_eq!(t.transpile_pat(&Pat::Wild, "s").unwrap(), "_");
    let half_open = Pat::Range {
        start: Some(Literal::Int("1".to_string())),
        end: Some(Literal::Int("5".to_string())),
        inclusive: false,
    };
    assert_eq!(t.transpile_pat(&half_open, "s").unwrap(), "1 <= x and x < 5");
    let closed = Pat::Range {
        start: Some(Literal::Int("1".to_string())),
        end: Some(Literal::Int("5".to_string())),
        inclusive: true,
    };
    assert_eq!(t.transpile_pat(&closed, "s").unwrap(), "1 <= x and x <= 5");
    let or_pat = Pat::Or(vec![
        Pat::Lit(Literal::Int("1".to_string())),
        Pat::Lit(Literal::Int("2".to_string())),
    ]);
    assert_eq!(t.transpile_pat(&or_pat, "s").unwrap(), "s == 1 or s == 2");
}

#[test]
fn pattern_failures() {
    let t = fresh();
    let open_range = Pat::Range {
        start: None,
        end: Some(Literal::Int("5".to_string())),
        inclusive: false,
    };
    assert_eq!(t.transpile_pat(&open_range, "s"), Err(TransErr::UnsupportedPatternBound));
    assert_eq!(t.transpile_pat(&Pat::Other, "s"), Err(TransErr::UnsupportedPattern));
}

#[test]
fn match_lowering_scenario() {
    let mut t = fresh();
    let m = MatchExpr {
        scrutinee: name("s"),
        arms: vec![
            arm(Pat::Lit(Literal::Int("1".to_string())), Expr::Lit(Literal::Text("a".to_string()))),
            arm(Pat::Lit(Literal::Int("2".to_string())), Expr::Lit(Literal::Text("b".to_string()))),
            arm(Pat::Wild, Expr::Lit(Literal::Text("c".to_string()))),
        ],
    };
    let s = Stmt::Local { name: "x".to_string(), init: Some(Expr::Match(Box::new(m))) };
    t.visit_stmt(&s).unwrap();
    assert_eq!(
        t.render(),
        "local x = nil\n\
         if s == 1 then\n    x = \"a\"\n\
         elseif s == 2 then\n    x = \"b\"\n\
         else\n    x = \"c\"\n\
         end\n"
    );
}

#[test]
fn match_wildcard_kept_in_written_order() {
    let mut t = fresh();
    let m = MatchExpr {
        scrutinee: name("s"),
        arms: vec![
            arm(Pat::Wild, Expr::Lit(Literal::Text("c".to_string()))),
            arm(Pat::Lit(Literal::Int("1".to_string())), Expr::Lit(Literal::Text("a".to_string()))),
        ],
    };
    let s = Stmt::Local { name: "x".to_string(), init: Some(Expr::Match(Box::new(m))) };
    t.visit_stmt(&s).unwrap();
    assert_eq!(
        t.render(),
        "local x = nil\nelse\n    x = \"c\"\nif s == 1 then\n    x = \"a\"\nend\n"
    );
}

#[test]
fn match_with_range_and_or_arms() {
    let mut t = fresh();
    let m = MatchExpr {
        scrutinee: name("s"),
        arms: vec![
            arm(
                Pat::Range {
                    start: Some(Literal::Int("1".to_string())),
                    end: Some(Literal::Int("5".to_string())),
                    inclusive: true,
                },
                int_lit("0"),
            ),
            arm(
                Pat::Or(vec![
                    Pat::Lit(Literal::Int("7".to_string())),
                    Pat::Lit(Literal::Int("9".to_string())),
                ]),
                int_lit("1"),
            ),
        ],
    };
    let s = Stmt::Local { name: "x".to_string(), init: Some(Expr::Match(Box::new(m))) };
    t.visit_stmt(&s).unwrap();
    assert_eq!(
        t.render(),
        "local x = nil\n\
         if 1 <= x and x <= 5 then\n    x = 0\n\
         elseif s == 7 or s == 9 then\n    x = 1\n\
         end\n"
    );
}

#[test]
fn match_guard_clause_aborts() {
    let mut t = fresh();
    let m = MatchExpr {
        scrutinee: name("s"),
        arms: vec![MatchArm {
            pat: Pat::Lit(Literal::Int("1".to_string())),
            has_guard: true,
            body: int_lit("0"),
        }],
    };
    let s = Stmt::Local { name: "x".to_string(), init: Some(Expr::Match(Box::new(m))) };
    assert_eq!(t.visit_stmt(&s), Err(TransErr::UnsupportedGuardClause));
}

#[test]
fn local_bindings() {
    let mut t = fresh();
    t.visit_stmt(&Stmt::TypedLocal {
        name: "n".to_string(),
        ty: TypeName::Ident("i32".to_string()),
        init: Some(int_lit("3")),
    })
    .unwrap();
    t.visit_stmt(&Stmt::TypedLocal {
        name: "s".to_string(),
        ty: TypeName::Ident("String".to_string()),
        init: None,
    })
    .unwrap();
    t.visit_stmt(&Stmt::Local { name: "y".to_string(), init: Some(int_lit("2")) }).unwrap();
    t.visit_stmt(&Stmt::Local { name: "z".to_string(), init: None }).unwrap();
    assert_eq!(t.render(), "local n: number = 3\nlocal s: string\nlocal y = 2\nlocal z\n");
}

#[test]
fn assignment_promotion_inside_function() {
    let mut t = fresh();
    let f = FnDef {
        name: "f".to_string(),
        params: vec![],
        ret: None,
        body: vec![assign("x", int_lit("1")), assign("x", int_lit("2"))],
    };
    t.visit_item_fn(&f).unwrap();
    assert_eq!(t.render(), "function f()\n    local x = 1\n    x = 2\nend\n");
}

#[test]
fn assignment_outside_function_is_plain() {
    let mut t = fresh();
    t.visit_stmt(&assign("x", int_lit("1"))).unwrap();
    t.visit_stmt(&assign("x", int_lit("2"))).unwrap();
    assert_eq!(t.render(), "x = 1\nx = 2\n");
}

#[test]
fn function_header_params_and_return() {
    let mut t = fresh();
    let f = FnDef {
        name: "combine".to_string(),
        params: vec![
            Param::Named { name: "a".to_string(), ty: TypeName::Ident("i32".to_string()) },
            Param::Named { name: "b".to_string(), ty: TypeName::Ident("bool".to_string()) },
            Param::Other,
        ],
        ret: Some(TypeName::Ident("f64".to_string())),
        body: vec![],
    };
    t.visit_item_fn(&f).unwrap();
    assert_eq!(t.render(), "function combine(a: number, b: boolean): number\nend\n");
}

#[test]
fn indentation_balanced_after_function() {
    let mut t = fresh();
    let f = FnDef {
        name: "f".to_string(),
        params: vec![],
        ret: None,
        body: vec![Stmt::While {
            cond: Expr::Lit(Literal::Bool(true)),
            body: vec![assign("x", int_lit("1"))],
        }],
    };
    t.visit_item_fn(&f).unwrap();
    assert_eq!(t.indent_manager.level, 0);
    assert_eq!(
        t.render(),
        "function f()\n    while true do\n        local x = 1\n    end\nend\n"
    );
}

#[test]
fn for_loop_bounds() {
    let cases: Vec<(LoopBound, LoopBound, bool, &str)> = vec![
        (LoopBound::Val(0), LoopBound::Val(5), false, "for i = 0, 4 do\nend\n"),
        (LoopBound::Val(0), LoopBound::Val(5), true, "for i = 0, 5 do\nend\n"),
        (LoopBound::Absent, LoopBound::Val(5), false, "for i = 0, 4 do\nend\n"),
        (LoopBound::Val(1), LoopBound::Absent, false, "for i = 1, math.huge do\nend\n"),
        (LoopBound::Val(0), LoopBound::Val(0), false, "for i = 0, -1 do\nend\n"),
        (LoopBound::Val(10), LoopBound::Val(123), true, "for i = 10, 123 do\nend\n"),
        (LoopBound::Val(10), LoopBound::Val(1000), false, "for i = 10, 999 do\nend\n"),
    ];
    for (start, end, inclusive, expect) in cases {
        let mut t = fresh();
        t.visit_expr_for_loop(
            &LoopVar::Name("i".to_string()),
            &LoopIter::Range { start, end, inclusive },
            &vec![],
        )
        .unwrap();
        assert_eq!(t.render(), expect);
    }
}

#[test]
fn for_loop_failures() {
    let mut t = fresh();
    let range = LoopIter::Range {
        start: LoopBound::Val(0),
        end: LoopBound::Val(5),
        inclusive: false,
    };
    assert_eq!(
        t.visit_expr_for_loop(&LoopVar::Other, &range, &vec![]),
        Err(TransErr::UnsupportedLoopVariable)
    );
    assert_eq!(
        t.visit_expr_for_loop(&LoopVar::Name("i".to_string()), &LoopIter::Other, &vec![]),
        Err(TransErr::UnsupportedIterator)
    );
    let bad_bound = LoopIter::Range {
        start: LoopBound::Unsupported,
        end: LoopBound::Val(5),
        inclusive: false,
    };
    assert_eq!(
        t.visit_expr_for_loop(&LoopVar::Name("i".to_string()), &bad_bound, &vec![]),
        Err(TransErr::UnsupportedIterator)
    );
}

#[test]
fn while_and_infinite_loops() {
    let mut t = fresh();
    t.visit_expr_while(
        &binary(BinOp::Less, name("i"), int_lit("10")),
        &vec![assign("i", binary(BinOp::Plus, name("i"), int_lit("1")))],
    )
    .unwrap();
    assert_eq!(t.render(), "while i < 10 do\n    i = i + 1\nend\n");

    let mut t2 = fresh();
    t2.visit_expr_loop(&vec![assign("x", int_lit("1"))]).unwrap();
    assert_eq!(t2.render(), "while true do\n    x = 1\nend\n");
}

#[test]
fn if_elseif_else_chain() {
    let mut t = fresh();
    let chain = IfStmt {
        cond: name("a"),
        then_body: vec![assign("x", int_lit("1"))],
        alt: Some(ElseBranch::ElseIf(Box::new(IfStmt {
            cond: name("b"),
            then_body: vec![assign("x", int_lit("2"))],
            alt: Some(ElseBranch::ElseIf(Box::new(IfStmt {
                cond: name("c"),
                then_body: vec![assign("x", int_lit("3"))],
                alt: Some(ElseBranch::Else(vec![assign("x", int_lit("4"))])),
            }))),
        }))),
    };
    t.visit_expr_if(&chain).unwrap();
    assert_eq!(
        t.render(),
        "if a then\n    x = 1\n\
         elseif b then\n    x = 2\n\
         elseif c then\n    x = 3\n\
         else\n    x = 4\n\
         end\n"
    );
}

#[test]
fn if_without_else() {
    let mut t = fresh();
    let i = IfStmt { cond: name("a"), then_body: vec![assign("x", int_lit("1"))], alt: None };
    t.visit_expr_if(&i).unwrap();
    assert_eq!(t.render(), "if a then\n    x = 1\nend\n");
}

#[test]
fn whole_file_two_functions() {
    let mut t = fresh();
    let file = SourceFile {
        items: vec![
            Item::Fn(FnDef {
                name: "first".to_string(),
                params: vec![Param::Named {
                    name: "n".to_string(),
                    ty: TypeName::Ident("u8".to_string()),
                }],
                ret: None,
                body: vec![assign("y", name("n"))],
            }),
            Item::Other,
            Item::Fn(FnDef {
                name: "second".to_string(),
                params: vec![],
                ret: Some(TypeName::Ident("bool".to_string())),
                body: vec![],
            }),
        ],
    };
    t.visit_file(&file).unwrap();
    assert_eq!(
        t.render(),
        "function first(n: number)\n    local y = n\nend\n\
         function second(): boolean\nend\n"
    );
}

#[test]
fn local_scope_reset_between_functions() {
    let mut t = fresh();
    let file = SourceFile {
        items: vec![
            Item::Fn(FnDef {
                name: "first".to_string(),
                params: vec![],
                ret: None,
                body: vec![assign("x", int_lit("1"))],
            }),
            Item::Fn(FnDef {
                name: "second".to_string(),
                params: vec![],
                ret: None,
                body: vec![assign("x", int_lit("2"))],
            }),
        ],
    };
    t.visit_file(&file).unwrap();
    assert_eq!(
        t.render(),
        "function first()\n    local x = 1\nend\n\
         function second()\n    local x = 2\nend\n"
    );
}

#[test]
fn unsupported_statement_emits_nothing() {
    let mut t = fresh();
    t.visit_stmt(&Stmt::Other).unwrap();
    t.visit_stmt(&assign("x", int_lit("1"))).unwrap();
    assert_eq!(t.render(), "x = 1\n");
}

#[test]
fn match_in_plain_expression_position_is_empty() {
    let t = fresh();
    let m = Expr::Match(Box::new(MatchExpr { scrutinee: name("s"), arms: vec![] }));
    assert_eq!(t.transpile_expr(&m).unwrap(), "");
}

#[test]
fn empty_match_still_declares_placeholder() {
    let mut t = fresh();
    let s = Stmt::Local {
        name: "x".to_string(),
        init: Some(Expr::Match(Box::new(MatchExpr { scrutinee: name("s"), arms: vec![] }))),
    };
    t.visit_stmt(&s).unwrap();
    assert_eq!(t.render(), "local x = nil\nend\n");
}

#[test]
fn custom_indent_unit() {
    let mut t = LuauTranspiler::new(IndentManager::new("\t"));
    let f = FnDef {
        name: "f".to_string(),
        params: vec![],
        ret: None,
        body: vec![assign("x", int_lit("1"))],
    };
    t.visit_item_fn(&f).unwrap();
    assert_eq!(t.render(), "function f()\n\tlocal x = 1\nend\n");
}

#[test]
fn match_arm_with_unsupported_pattern_aborts() {
    let mut t = fresh();
    let m = MatchExpr {
        scrutinee: name("s"),
        arms: vec![arm(Pat::Other, int_lit("0"))],
    };
    let s = Stmt::Local { name: "x".to_string(), init: Some(Expr::Match(Box::new(m))) };
    assert_eq!(t.visit_stmt(&s), Err(TransErr::UnsupportedPattern));
}

#[test]
fn fatal_failure_propagates_from_whole_file() {
    let mut t = fresh();
    let file = SourceFile {
        items: vec![Item::Fn(FnDef {
            name: "f".to_string(),
            params: vec![],
            ret: None,
            body: vec![assign(
                "x",
                binary(BinOp::Unsupported, int_lit("1"), int_lit("2")),
            )],
        })],
    };
    assert_eq!(t.visit_file(&file), Err(TransErr::UnsupportedOperator));
}

#[test]
fn typed_local_with_match_initializer_stays_inline() {
    let mut t = fresh();
    let m = Expr::Match(Box::new(MatchExpr { scrutinee: name("s"), arms: vec![] }));
    t.visit_stmt(&Stmt::TypedLocal {
        name: "x".to_string(),
        ty: TypeName::Ident("i32".to_string()),
        init: Some(m),
    })
    .unwrap();
    assert_eq!(t.render(), "local x: number = \n");
}

#[test]
fn function_with_only_unsupported_params() {
    let mut t = fresh();
    let f = FnDef {
        name: "f".to_string(),
        params: vec![Param::Other, Param::Other],
        ret: None,
        body: vec![],
    };
    t.visit_item_fn(&f).unwrap();
    assert_eq!(t.render(), "function f()\nend\n");
}

#[test]
fn nested_blocks_indent_twice() {
    let mut t = fresh();
    let f = FnDef {
        name: "f".to_string(),
        params: vec![],
        ret: None,
        body: vec![Stmt::If(Box::new(IfStmt {
            cond: name("a"),
            then_body: vec![Stmt::While {
                cond: name("b"),
                body: vec![assign("x", int_lit("1"))],
            }],
            alt: None,
        }))],
    };
    t.visit_item_fn(&f).unwrap();
    assert_eq!(
        t.render(),
        "function f()\n    if a then\n        while b do\n            local x = 1\n        end\n    end\nend\n"
    );
}

#[test]
fn or_pattern_with_wildcard_case() {
    let t = fresh();
    let p = Pat::Or(vec![Pat::Lit(Literal::Int("1".to_string())), Pat::Wild]);
    assert_eq!(t.transpile_pat(&p, "s").unwrap(), "s == 1 or _");
}
