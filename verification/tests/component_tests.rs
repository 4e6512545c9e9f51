//! Unit tests of the components: allocator, labels, rendering, evaluation,
//! folding, validation, and the error cases of code generation.

use dumbc::ast::{BinaryOp, BlockItem, Declaration, Expr, Function, Program, Statement, TopLevel, UnaryOp};
use dumbc::generator::allocator::{Allocator, Variable};
use dumbc::generator::arm64::CodegenError;
use dumbc::generator::bingus::is_bingus_used;
use dumbc::generator::func::{generate, generate_function, generate_function_instrs};
use dumbc::generator::function_validation::{
    check_global_name_conflicts, validate_functions_declarations, ValidationError,
};
use dumbc::generator::instr::{render_instrs, Instr, Op};
use dumbc::generator::label::{LabelGenerator, LabelKind};
use dumbc::generator::stack::simulate_stack_usage;
use dumbc::lexer::lex;
use dumbc::optimizer::evaluate_expr_compile_time::{evaluate_compile_time_expr, EvalError};
use dumbc::optimizer::fold_expr::constant_fold;
use dumbc::parser::{parse, parse_block_items, parse_expr};

fn parse_src(src: &str) -> Program {
    parse(&lex(src).unwrap()).unwrap()
}

fn decl(name: &str) -> BlockItem {
    BlockItem::Decl(Declaration::Declare(name.to_string(), None))
}

#[test]
fn allocator_hands_out_registers_then_stack() {
    let mut a = Allocator::new(&[19, 20]);
    assert_eq!(a.allocate("x".to_string(), 4), Variable::Register(20));
    assert_eq!(a.allocate("y".to_string(), 4), Variable::Register(19));
    assert_eq!(a.allocate("z".to_string(), 4), Variable::Stack(-4));
    assert_eq!(a.allocate("w".to_string(), 4), Variable::Stack(-8));
    assert_eq!(a.total_stack_size(), 8);
    assert_eq!(a.get("y"), Some(Variable::Register(19)));
    assert_eq!(a.get("missing"), None);
}

#[test]
fn allocator_shadowing_and_scopes() {
    let mut a = Allocator::new(&[19]);
    let outer = a.allocate("x".to_string(), 4);
    a.enter_scope();
    let inner = a.allocate("x".to_string(), 4);
    assert_ne!(outer, inner);
    assert_eq!(a.get("x"), Some(inner));
    a.exit_scope();
    assert_eq!(a.get("x"), Some(outer));
}

#[test]
fn simulator_counts_all_declarations() {
    let mut a = Allocator::new(&[19, 20]);
    let mut max = 0;
    let items = vec![decl("a"), decl("b"), decl("c"), decl("d")];
    simulate_stack_usage(&items, &mut a, &mut max);
    // Two registers, then two stack words.
    assert_eq!(max, 8);
}

#[test]
fn simulator_walks_loop_bodies() {
    // One declaration sits inside a while body: with an empty pool it takes
    // a stack word, and the simulator must see it.
    let body = Statement::While {
        cond: Expr::Const(1),
        body: Box::new(Statement::Compound(vec![decl("k")])),
    };
    let mut a = Allocator::new(&[]);
    let mut max = 0;
    let items = vec![BlockItem::Stmt(body)];
    simulate_stack_usage(&items, &mut a, &mut max);
    assert_eq!(max, 4);
    // The simulator leaves the allocator as it found it.
    assert_eq!(a.total_stack_size(), 0);
}

#[test]
fn simulator_restores_between_sibling_blocks() {
    // Two sibling blocks reuse the same storage, exactly as the real pass
    // restores its snapshot: the peak is one word, not two.
    let items = vec![
        BlockItem::Stmt(Statement::Compound(vec![decl("a")])),
        BlockItem::Stmt(Statement::Compound(vec![decl("b")])),
    ];
    let mut a = Allocator::new(&[]);
    let mut max = 0;
    simulate_stack_usage(&items, &mut a, &mut max);
    assert_eq!(max, 4);
}

#[test]
fn frame_reservation_counts_parameters() {
    // Eight parameters and three locals exceed the ten-register pool by
    // one word: sixteen bytes after rounding.
    let params: Vec<String> = (0..8).map(|i| format!("p{}", i)).collect();
    let body: Vec<BlockItem> = (0..3).map(|i| decl(&format!("v{}", i))).collect();
    let f = Function { name: "f".to_string(), params, block_items: Some(body) };
    let mut labels = LabelGenerator::new();
    let ins = generate_function_instrs(&f, &mut labels).unwrap();
    assert!(ins.iter().any(|i| matches!(i, Instr::Op(Op::SubSpImm(16)))));
    assert!(ins.iter().any(|i| matches!(i, Instr::Op(Op::AddSpImm(16)))));
}

#[test]
fn frame_reservation_covers_loop_body_locals() {
    // Ten locals fill the pool; a declaration inside a loop body spills, so
    // the frame must reserve its word.
    let mut body: Vec<BlockItem> = (0..10).map(|i| decl(&format!("v{}", i))).collect();
    body.push(BlockItem::Stmt(Statement::While {
        cond: Expr::Const(0),
        body: Box::new(Statement::Compound(vec![decl("k")])),
    }));
    body.push(BlockItem::Stmt(Statement::Return(Expr::Const(0))));
    let f = Function { name: "f".to_string(), params: vec![], block_items: Some(body) };
    let mut labels = LabelGenerator::new();
    let ins = generate_function_instrs(&f, &mut labels).unwrap();
    assert!(ins.iter().any(|i| matches!(i, Instr::Op(Op::SubSpImm(16)))));
}

#[test]
fn label_generator_counts_up() {
    let mut l = LabelGenerator::new();
    assert_eq!(l.next("_else"), "_else_1".to_string());
    assert_eq!(l.next("loop"), "loop_2".to_string());
}

#[test]
fn evaluation_of_constant_expressions() {
    let e = Expr::BinOp(
        BinaryOp::Add,
        Box::new(Expr::Const(2)),
        Box::new(Expr::BinOp(
            BinaryOp::Multiply,
            Box::new(Expr::Const(3)),
            Box::new(Expr::Const(4)),
        )),
    );
    assert_eq!(evaluate_compile_time_expr(&e), Ok(14));

    let neg = Expr::UnOp(UnaryOp::Neg, Box::new(Expr::Const(5)));
    assert_eq!(evaluate_compile_time_expr(&neg), Ok(-5));

    let not = Expr::UnOp(UnaryOp::Not, Box::new(Expr::Const(0)));
    assert_eq!(evaluate_compile_time_expr(&not), Ok(1));

    let div0 = Expr::BinOp(BinaryOp::Divide, Box::new(Expr::Const(1)), Box::new(Expr::Const(0)));
    assert_eq!(evaluate_compile_time_expr(&div0), Err(EvalError::DivisionByZero));

    let overflow_div = Expr::BinOp(
        BinaryOp::Divide,
        Box::new(Expr::Const(i32::MIN)),
        Box::new(Expr::Const(-1)),
    );
    assert_eq!(evaluate_compile_time_expr(&overflow_div), Ok(i32::MIN));

    let var = Expr::Var("x".to_string());
    assert_eq!(evaluate_compile_time_expr(&var), Err(EvalError::Variable));

    let wrap = Expr::BinOp(
        BinaryOp::Add,
        Box::new(Expr::Const(i32::MAX)),
        Box::new(Expr::Const(1)),
    );
    assert_eq!(evaluate_compile_time_expr(&wrap), Ok(i32::MIN));
}

#[test]
fn folding_replaces_constant_subexpressions() {
    let p = parse_src("int main() { return 1 + 2 * 3; }");
    let folded = constant_fold(&p);
    match &folded.toplevel_items[0] {
        TopLevel::Function(f) => match &f.block_items.as_ref().unwrap()[0] {
            BlockItem::Stmt(Statement::Return(e)) => assert_eq!(*e, Expr::Const(7)),
            other => panic!("unexpected item {:?}", other),
        },
        other => panic!("unexpected item {:?}", other),
    }
}

#[test]
fn folding_keeps_variables() {
    let p = parse_src("int main() { int x = 1; return x + (2 * 3); }");
    let folded = constant_fold(&p);
    match &folded.toplevel_items[0] {
        TopLevel::Function(f) => match &f.block_items.as_ref().unwrap()[1] {
            BlockItem::Stmt(Statement::Return(e)) => {
                assert_eq!(
                    *e,
                    Expr::BinOp(
                        BinaryOp::Add,
                        Box::new(Expr::Var("x".to_string())),
                        Box::new(Expr::Const(6)),
                    )
                );
            },
            other => panic!("unexpected item {:?}", other),
        },
        other => panic!("unexpected item {:?}", other),
    }
}

#[test]
fn validation_finds_call_errors() {
    // An undefined callee.
    let call = Expr::FunCall { name: "g".to_string(), parameters: vec![] };
    let main = Function {
        name: "main".to_string(),
        params: vec![],
        block_items: Some(vec![BlockItem::Stmt(Statement::Return(call))]),
    };
    let p = Program { toplevel_items: vec![TopLevel::Function(main)] };
    assert_eq!(
        validate_functions_declarations(&p),
        Err(ValidationError::UndefinedFunction)
    );

    // A call with the wrong number of arguments.
    let g = Function { name: "g".to_string(), params: vec!["a".to_string()], block_items: None };
    let call = Expr::FunCall { name: "g".to_string(), parameters: vec![] };
    let main = Function {
        name: "main".to_string(),
        params: vec![],
        block_items: Some(vec![BlockItem::Stmt(Statement::Return(call))]),
    };
    let p = Program {
        toplevel_items: vec![TopLevel::Function(g), TopLevel::Function(main)],
    };
    assert_eq!(
        validate_functions_declarations(&p),
        Err(ValidationError::WrongArgumentCount)
    );
}

#[test]
fn validation_accepts_consistent_programs() {
    let g = Function { name: "g".to_string(), params: vec!["a".to_string()], block_items: None };
    let call = Expr::FunCall { name: "g".to_string(), parameters: vec![Expr::Const(1)] };
    let main = Function {
        name: "main".to_string(),
        params: vec![],
        block_items: Some(vec![BlockItem::Stmt(Statement::Return(call))]),
    };
    let p = Program {
        toplevel_items: vec![TopLevel::Function(g), TopLevel::Function(main)],
    };
    assert_eq!(validate_functions_declarations(&p), Ok(()));
}

#[test]
fn validation_walks_initializers_and_print_operands() {
    fn g_decl() -> Function {
        Function { name: "g".to_string(), params: vec!["a".to_string()], block_items: None }
    }
    fn bad_call() -> Expr {
        Expr::FunCall { name: "g".to_string(), parameters: vec![] }
    }

    // A call with the wrong arity inside a declaration initializer.
    let main = Function {
        name: "main".to_string(),
        params: vec![],
        block_items: Some(vec![
            BlockItem::Decl(Declaration::Declare("x".to_string(), Some(bad_call()))),
            BlockItem::Stmt(Statement::Return(Expr::Var("x".to_string()))),
        ]),
    };
    let p = Program {
        toplevel_items: vec![TopLevel::Function(g_decl()), TopLevel::Function(main)],
    };
    assert_eq!(
        validate_functions_declarations(&p),
        Err(ValidationError::WrongArgumentCount)
    );

    // A call to an undefined function as the debug-print operand.
    let main = Function {
        name: "main".to_string(),
        params: vec![],
        block_items: Some(vec![
            BlockItem::Stmt(Statement::Bingus(bad_call())),
            BlockItem::Stmt(Statement::Return(Expr::Const(0))),
        ]),
    };
    let p = Program { toplevel_items: vec![TopLevel::Function(main)] };
    assert_eq!(
        validate_functions_declarations(&p),
        Err(ValidationError::UndefinedFunction)
    );

    // A call with the wrong arity in a for loop's declared initializer.
    let main = Function {
        name: "main".to_string(),
        params: vec![],
        block_items: Some(vec![
            BlockItem::Stmt(Statement::ForDecl {
                decl: Declaration::Declare("i".to_string(), Some(bad_call())),
                cond: Expr::Const(0),
                post: None,
                body: Box::new(Statement::Expr(None)),
            }),
            BlockItem::Stmt(Statement::Return(Expr::Const(0))),
        ]),
    };
    let p = Program {
        toplevel_items: vec![TopLevel::Function(g_decl()), TopLevel::Function(main)],
    };
    assert_eq!(
        validate_functions_declarations(&p),
        Err(ValidationError::WrongArgumentCount)
    );
}

#[test]
fn function_defined_twice_is_a_global_conflict() {
    let p = parse_src("int f() { return 1; } int f() { return 2; }");
    assert_eq!(
        check_global_name_conflicts(&p),
        Err(ValidationError::FunctionRedefined)
    );

    // A declaration beside one definition is fine.
    let p = parse_src("int f(); int f() { return 2; }");
    assert_eq!(check_global_name_conflicts(&p), Ok(()));
}

#[test]
fn global_name_conflicts_are_reported() {
    let p = parse_src("int x = 1; int x = 2;");
    assert_eq!(
        check_global_name_conflicts(&p),
        Err(ValidationError::DuplicateGlobalDefinition)
    );

    let p = parse_src("int f; int f() { return 0; }");
    assert_eq!(
        check_global_name_conflicts(&p),
        Err(ValidationError::GlobalFunctionNameConflict)
    );

    let p = parse_src("int x = 1; int main() { return 0; }");
    assert_eq!(check_global_name_conflicts(&p), Ok(()));
}

#[test]
fn redeclaration_in_same_block_is_an_error() {
    let p = parse_src("int main() { int x; int x; return 0; }");
    let f = match &p.toplevel_items[0] {
        TopLevel::Function(f) => f,
        other => panic!("unexpected item {:?}", other),
    };
    let mut labels = LabelGenerator::new();
    assert_eq!(
        generate_function_instrs(f, &mut labels),
        Err(CodegenError::RedeclaredVariable)
    );
}

#[test]
fn shadowing_in_inner_block_is_allowed() {
    let p = parse_src("int main() { int x = 1; { int x = 2; } return x; }");
    let f = match &p.toplevel_items[0] {
        TopLevel::Function(f) => f,
        other => panic!("unexpected item {:?}", other),
    };
    let mut labels = LabelGenerator::new();
    assert!(generate_function_instrs(f, &mut labels).is_ok());
}

#[test]
fn break_outside_loop_is_an_error() {
    let p = parse_src("int main() { break; }");
    let f = match &p.toplevel_items[0] {
        TopLevel::Function(f) => f,
        other => panic!("unexpected item {:?}", other),
    };
    let mut labels = LabelGenerator::new();
    assert_eq!(
        generate_function_instrs(f, &mut labels),
        Err(CodegenError::BreakOutsideLoop)
    );

    let p = parse_src("int main() { continue; }");
    let f = match &p.toplevel_items[0] {
        TopLevel::Function(f) => f,
        other => panic!("unexpected item {:?}", other),
    };
    assert_eq!(
        generate_function_instrs(f, &mut labels),
        Err(CodegenError::ContinueOutsideLoop)
    );
}

#[test]
fn undeclared_variable_uses_are_errors() {
    let p = parse_src("int main() { return y; }");
    let f = match &p.toplevel_items[0] {
        TopLevel::Function(f) => f,
        other => panic!("unexpected item {:?}", other),
    };
    let mut labels = LabelGenerator::new();
    assert_eq!(
        generate_function_instrs(f, &mut labels),
        Err(CodegenError::VariableNotFound)
    );

    let p = parse_src("int main() { y = 1; return 0; }");
    let f = match &p.toplevel_items[0] {
        TopLevel::Function(f) => f,
        other => panic!("unexpected item {:?}", other),
    };
    assert_eq!(
        generate_function_instrs(f, &mut labels),
        Err(CodegenError::AssignToUndeclared)
    );
}

#[test]
fn too_many_parameters_is_an_error() {
    let params: Vec<String> = (0..9).map(|i| format!("p{}", i)).collect();
    let f = Function {
        name: "f".to_string(),
        params,
        block_items: Some(vec![BlockItem::Stmt(Statement::Return(Expr::Const(0)))]),
    };
    let mut labels = LabelGenerator::new();
    assert_eq!(
        generate_function_instrs(&f, &mut labels),
        Err(CodegenError::TooManyParameters)
    );
}

#[test]
fn duplicate_parameter_is_an_error() {
    let f = Function {
        name: "f".to_string(),
        params: vec!["a".to_string(), "a".to_string()],
        block_items: Some(vec![BlockItem::Stmt(Statement::Return(Expr::Const(0)))]),
    };
    let mut labels = LabelGenerator::new();
    assert_eq!(
        generate_function_instrs(&f, &mut labels),
        Err(CodegenError::DuplicateParameter)
    );
}

#[test]
fn declaration_without_body_generates_nothing() {
    let f = Function { name: "f".to_string(), params: vec![], block_items: None };
    let mut labels = LabelGenerator::new();
    assert_eq!(
        generate_function(&f, &mut labels, "linux"),
        Err(CodegenError::MissingFunctionBody)
    );
}

#[test]
fn single_function_text_generation() {
    let p = parse_src("int f() { return 3; }");
    let f = match &p.toplevel_items[0] {
        TopLevel::Function(f) => f,
        other => panic!("unexpected item {:?}", other),
    };
    let mut labels = LabelGenerator::new();
    let out = generate_function(f, &mut labels, "macos").unwrap();
    assert!(out.contains(".global _f
"));
    assert!(out.contains("_f:
"));
    assert!(out.contains("mov	w0, #3
"));
    assert_eq!(
        generate_function(f, &mut labels, "sparc"),
        Err(CodegenError::UnsupportedPlatform)
    );
}

#[test]
fn variable_locations_emit_their_loads_and_stores() {
    let mut out: Vec<Instr> = Vec::new();
    Variable::Register(23).emit_store_in_w0(&mut out);
    Variable::Stack(-8).emit_store_in_w0(&mut out);
    Variable::Register(23).emit_store_from_w0(&mut out);
    Variable::Stack(-8).emit_store_from_w0(&mut out);
    let text = render_instrs("", &out);
    assert_eq!(
        text,
        "mov	w0, w23
ldr	w0, [x29, #-8]
mov	w23, w0
str	w0, [x29, #-8]
"
    );
}

#[test]
fn platform_prefixes_and_errors() {
    let p = parse_src("int main() { return 0; }");
    let linux = generate(&p, "linux").unwrap();
    assert!(linux.contains(".global main\n"));
    assert!(linux.contains("main:\n"));
    let macos = generate(&p, "macos").unwrap();
    assert!(macos.contains(".global _main\n"));
    assert!(macos.contains("_main:\n"));
    assert_eq!(generate(&p, "windows"), Err(CodegenError::UnsupportedPlatform));
}

#[test]
fn bingus_needs_its_platform_helper() {
    let p = parse_src("int main() { bingus(42); return 0; }");
    assert_eq!(
        generate(&p, "linux"),
        Err(CodegenError::BingusUnsupportedOnPlatform)
    );
    let out = generate(&p, "macos").unwrap();
    assert!(out.contains(".global bingus"));
    assert!(out.contains("bl\tbingus"));
    assert!(is_bingus_used(&BlockItem::Stmt(Statement::Bingus(Expr::Const(1)))));
}

#[test]
fn generated_text_of_minimal_function() {
    let p = parse_src("int main() { return 42; }");
    let out = generate(&p, "linux").unwrap();
    let expected = ".global main\n\
                    main:\n\
                    stp\tx29, x30, [sp, #-16]!\n\
                    mov\tx29, sp\n\
                    stp\tx19, x20, [sp, #-16]!\n\
                    stp\tx21, x22, [sp, #-16]!\n\
                    stp\tx23, x24, [sp, #-16]!\n\
                    stp\tx25, x26, [sp, #-16]!\n\
                    stp\tx27, x28, [sp, #-16]!\n\
                    mov\tw0, #42\n\
                    b\tfunc_epilogue_1\n\
                    func_epilogue_1:\n\
                    ldp\tx27, x28, [sp], #16\n\
                    ldp\tx25, x26, [sp], #16\n\
                    ldp\tx23, x24, [sp], #16\n\
                    ldp\tx21, x22, [sp], #16\n\
                    ldp\tx19, x20, [sp], #16\n\
                    ldp\tx29, x30, [sp], #16\n\
                    ret\n\n";
    assert_eq!(out, expected);
}

#[test]
fn frame_reservation_follows_spilled_locals() {
    // Ten locals fit the register pool: no frame bytes.
    let few: Vec<BlockItem> = (0..10).map(|i| decl(&format!("v{}", i))).collect();
    let f = Function { name: "f".to_string(), params: vec![], block_items: Some(few) };
    let mut labels = LabelGenerator::new();
    let ins = generate_function_instrs(&f, &mut labels).unwrap();
    assert!(!ins.iter().any(|i| matches!(i, Instr::Op(Op::SubSpImm(_)))));

    // Twelve locals spill two words: sixteen bytes after rounding.
    let many: Vec<BlockItem> = (0..12).map(|i| decl(&format!("v{}", i))).collect();
    let f = Function { name: "f".to_string(), params: vec![], block_items: Some(many) };
    let ins = generate_function_instrs(&f, &mut labels).unwrap();
    assert!(ins.iter().any(|i| matches!(i, Instr::Op(Op::SubSpImm(16)))));
    assert!(ins.iter().any(|i| matches!(i, Instr::Op(Op::AddSpImm(16)))));
}

#[test]
fn ninth_call_argument_goes_to_the_stack() {
    // A call with nine arguments: eight register moves and one push, with
    // the stack adjustment reversed exactly after the call.
    let args: Vec<Expr> = (1..=9).map(Expr::Const).collect();
    let call = Expr::FunCall { name: "f9".to_string(), parameters: args };
    let main = Function {
        name: "main".to_string(),
        params: vec![],
        block_items: Some(vec![BlockItem::Stmt(Statement::Return(call))]),
    };
    let mut labels = LabelGenerator::new();
    let ins = generate_function_instrs(&main, &mut labels).unwrap();

    let pushes = ins.iter().filter(|i| matches!(i, Instr::Op(Op::PushW0))).count();
    assert_eq!(pushes, 1);
    for reg in 0..8u8 {
        assert!(ins.iter().any(|i| matches!(i, Instr::Op(Op::MovWW(d, 0)) if *d == reg)));
    }
    // Sixteen bytes are reserved for the ninth argument and released again.
    assert!(ins.iter().any(|i| matches!(i, Instr::Op(Op::SubX9Imm(16)))));
    let call_at = ins
        .iter()
        .position(|i| matches!(i, Instr::Sym(dumbc::generator::instr::SymKind::Call, n) if n == "f9"))
        .unwrap();
    assert!(matches!(ins[call_at + 1], Instr::Op(Op::AddSpImm(16))));
    assert!(matches!(ins[call_at + 2], Instr::Op(Op::PopX9)));
    assert!(matches!(ins[call_at + 3], Instr::Op(Op::AddSpX9)));
}

#[test]
fn nested_loop_break_targets_inner_end_label() {
    let p = parse_src("int main() { while (1) { while (1) { break; } } return 0; }");
    let f = match &p.toplevel_items[0] {
        TopLevel::Function(f) => f,
        other => panic!("unexpected item {:?}", other),
    };
    let mut labels = LabelGenerator::new();
    let ins = generate_function_instrs(f, &mut labels).unwrap();
    // The two loop-end labels, in emission order the inner one has the
    // larger number.
    let ends: Vec<usize> = ins
        .iter()
        .filter_map(|i| match i {
            Instr::Op(Op::LabelDef(l)) if l.kind == LabelKind::WhileEnd => Some(l.num),
            _ => None,
        })
        .collect();
    assert_eq!(ends.len(), 2);
    let inner_end = *ends.iter().max().unwrap();
    let outer_end = *ends.iter().min().unwrap();
    // The single break branch targets the inner end, never the outer one.
    let break_targets: Vec<usize> = ins
        .iter()
        .filter_map(|i| match i {
            Instr::Op(Op::B(l)) if l.kind == LabelKind::WhileEnd => Some(l.num),
            _ => None,
        })
        .collect();
    assert_eq!(break_targets, vec![inner_end]);
    assert_ne!(inner_end, outer_end);
}

#[test]
fn parse_builds_exact_minimal_program() {
    let p = parse_src("int main() { return 42; }");
    assert_eq!(
        p,
        Program {
            toplevel_items: vec![TopLevel::Function(Function {
                name: "main".to_string(),
                params: vec![],
                block_items: Some(vec![BlockItem::Stmt(Statement::Return(Expr::Const(42)))]),
            })],
        }
    );
}

#[test]
fn declaration_list_parses_in_order() {
    let tokens = lex("int a = 1, b;").unwrap();
    let mut pos = 0usize;
    let items = parse_block_items(&tokens, &mut pos).unwrap();
    assert_eq!(pos, tokens.len());
    assert_eq!(
        items,
        vec![
            BlockItem::Decl(Declaration::Declare("a".to_string(), Some(Expr::Const(1)))),
            BlockItem::Decl(Declaration::Declare("b".to_string(), None)),
        ]
    );
}

#[test]
fn increment_and_compound_assignments_desugar() {
    let tokens = lex("x++").unwrap();
    let mut pos = 0usize;
    let e = parse_expr(&tokens, &mut pos).unwrap();
    assert_eq!(
        e,
        Expr::Assign(
            "x".to_string(),
            Box::new(Expr::BinOp(
                BinaryOp::Add,
                Box::new(Expr::Var("x".to_string())),
                Box::new(Expr::Const(1)),
            )),
        )
    );

    let tokens = lex("x *= 3").unwrap();
    let mut pos = 0usize;
    let e = parse_expr(&tokens, &mut pos).unwrap();
    assert_eq!(
        e,
        Expr::Assign(
            "x".to_string(),
            Box::new(Expr::BinOp(
                BinaryOp::Multiply,
                Box::new(Expr::Var("x".to_string())),
                Box::new(Expr::Const(3)),
            )),
        )
    );
}

#[test]
fn parser_rejects_malformed_programs() {
    assert!(parse(&lex("int main() { return ; }").unwrap()).is_err());
    assert!(parse(&lex("int main() { int ; }").unwrap()).is_err());
    assert!(parse(&lex("return 1;").unwrap()).is_err());
    assert!(parse(&lex("int main() { for (int a = 0, b = 1; a < 2; a = a + 1) ; return 0; }").unwrap()).is_err());
}

#[test]
fn parser_builds_expected_shapes() {
    let p = parse_src("int f(int a, int b); int x = 3; int main() { return 1 ? 2 : 3; }");
    assert_eq!(p.toplevel_items.len(), 3);
    assert!(matches!(
        &p.toplevel_items[0],
        TopLevel::Function(Function { block_items: None, .. })
    ));
    assert!(matches!(
        &p.toplevel_items[1],
        TopLevel::GlobalVariable(Declaration::Declare(_, Some(Expr::Const(3))))
    ));
}
