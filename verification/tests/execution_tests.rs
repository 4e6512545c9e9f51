//! Executes generated instruction sequences under a small interpreter of the
//! emitted ARM64 subset, to check the behaviour of whole compiled programs.

use std::collections::HashMap;

use dumbc::ast::{BlockItem, Expr, Function, Program, Statement, TopLevel};
use dumbc::generator::func::generate_function_instrs;
use dumbc::generator::instr::{CondCode, Instr, Op, SymKind};
use dumbc::generator::label::{LabelGenerator, Lbl};
use dumbc::lexer::lex;
use dumbc::parser::parse;

struct Machine {
    mem: HashMap<i64, i64>,
    effects: Vec<i32>,
}

fn cond_holds(cc: &CondCode, a: i32, b: i32) -> bool {
    match cc {
        CondCode::Eq => a == b,
        CondCode::Ne => a != b,
        CondCode::Lt => a < b,
        CondCode::Le => a <= b,
        CondCode::Gt => a > b,
        CondCode::Ge => a >= b,
    }
}

fn find_label(ins: &[Instr], l: &Lbl) -> usize {
    for (i, instr) in ins.iter().enumerate() {
        if let Instr::Op(Op::LabelDef(d)) = instr {
            if d == l {
                return i;
            }
        }
    }
    panic!("label not found");
}

/// Runs one compiled function with the given arguments; `sp` is the current
/// stack pointer (stacks grow down).
fn run(funcs: &HashMap<String, Vec<Instr>>, name: &str, args: &[i32], sp0: i64, m: &mut Machine) -> i32 {
    let ins = &funcs[name];
    let mut w = [0i32; 32];
    for (i, a) in args.iter().enumerate() {
        w[i] = *a;
    }
    let mut sp: i64 = sp0;
    let mut fp: i64 = 0;
    let mut x9: i64 = 0;
    let mut x10: i64 = 0;
    let (mut ca, mut cb): (i32, i32) = (0, 0);
    let mut pc: usize = 0;
    loop {
        assert!(pc < ins.len(), "fell off the end of {}", name);
        match &ins[pc] {
            Instr::Sym(SymKind::Export, _) | Instr::Sym(SymKind::Entry, _) => {}
            Instr::Sym(SymKind::Call, callee) => {
                let argv: Vec<i32> = w[0..8].to_vec();
                w[0] = run(funcs, callee, &argv, sp, m);
            }
            Instr::Op(op) => match op {
                Op::MovW0Imm(n) => w[0] = *n,
                Op::MovWW(d, s) => w[*d as usize] = w[*s as usize],
                Op::LdrW0Fp(off) => w[0] = *m.mem.get(&(fp + *off as i64)).unwrap_or(&0) as i32,
                Op::StrWFp(r, off) => {
                    m.mem.insert(fp + *off as i64, w[*r as usize] as i64);
                }
                Op::NegW0 => w[0] = w[0].wrapping_neg(),
                Op::MvnW0 => w[0] = !w[0],
                Op::CmpW0Zero => {
                    ca = w[0];
                    cb = 0;
                }
                Op::CmpW11W0 => {
                    ca = w[11];
                    cb = w[0];
                }
                Op::CsetW0(cc) => w[0] = if cond_holds(cc, ca, cb) { 1 } else { 0 },
                Op::PushW0 => {
                    sp -= 16;
                    m.mem.insert(sp, w[0] as i64);
                }
                Op::PopW11 => {
                    w[11] = *m.mem.get(&sp).unwrap_or(&0) as i32;
                    sp += 16;
                }
                Op::AddW0 => w[0] = w[11].wrapping_add(w[0]),
                Op::SubW0 => w[0] = w[11].wrapping_sub(w[0]),
                Op::MulW0 => w[0] = w[11].wrapping_mul(w[0]),
                Op::SdivW0 => w[0] = if w[0] == 0 { 0 } else { w[11].wrapping_div(w[0]) },
                Op::AndW0 => w[0] = w[11] & w[0],
                Op::OrrW0 => w[0] = w[11] | w[0],
                Op::EorW0 => w[0] = w[11] ^ w[0],
                Op::LslW0 => w[0] = w[11].wrapping_shl(w[0] as u32),
                Op::LsrW0 => w[0] = ((w[11] as u32) >> ((w[0] as u32) & 31)) as i32,
                Op::UdivW12 => {
                    w[12] = if w[0] == 0 {
                        0
                    } else {
                        ((w[11] as u32) / (w[0] as u32)) as i32
                    }
                }
                Op::MsubW0 => w[0] = w[11].wrapping_sub(w[12].wrapping_mul(w[0])),
                Op::LabelDef(_) => {}
                Op::B(l) => {
                    pc = find_label(ins, l);
                    continue;
                }
                Op::Beq(l) | Op::BDotEq(l) => {
                    if ca == cb {
                        pc = find_label(ins, l);
                        continue;
                    }
                }
                Op::BDotNe(l) => {
                    if ca != cb {
                        pc = find_label(ins, l);
                        continue;
                    }
                }
                Op::BlBingus => m.effects.push(w[0]),
                Op::MovX9Sp => x9 = sp,
                Op::SubX9Imm(n) => x9 -= *n as i64,
                Op::AndX10X9 => x10 = x9 & 15,
                Op::SubSpX10 => sp -= x10,
                Op::PushX10 => {
                    sp -= 16;
                    m.mem.insert(sp, x10);
                }
                Op::AddSpImm(n) => sp += *n as i64,
                Op::PopX9 => {
                    x9 = *m.mem.get(&sp).unwrap_or(&0);
                    sp += 16;
                }
                Op::AddSpX9 => sp += x9,
                Op::StpFpLr => {
                    sp -= 16;
                    m.mem.insert(sp, fp);
                }
                Op::MovFpSp => fp = sp,
                Op::StpPair(n) => {
                    sp -= 16;
                    m.mem.insert(sp, w[*n as usize] as i64);
                    m.mem.insert(sp + 8, w[*n as usize + 1] as i64);
                }
                Op::LdpPair(n) => {
                    w[*n as usize] = *m.mem.get(&sp).unwrap_or(&0) as i32;
                    w[*n as usize + 1] = *m.mem.get(&(sp + 8)).unwrap_or(&0) as i32;
                    sp += 16;
                }
                Op::SubSpImm(n) => sp -= *n as i64,
                Op::LdpFpLr => {
                    fp = *m.mem.get(&sp).unwrap_or(&0);
                    sp += 16;
                }
                Op::Ret => return w[0],
            },
        }
        pc += 1;
    }
}

fn compile_source(src: &str) -> HashMap<String, Vec<Instr>> {
    let tokens = lex(src).unwrap();
    let program = parse(&tokens).unwrap();
    compile_program(&program)
}

fn compile_program(program: &Program) -> HashMap<String, Vec<Instr>> {
    let mut labels = LabelGenerator::new();
    let mut funcs = HashMap::new();
    for item in &program.toplevel_items {
        if let TopLevel::Function(f) = item {
            if f.block_items.is_some() {
                let ins = generate_function_instrs(f, &mut labels).unwrap();
                funcs.insert(f.name.clone(), ins);
            }
        }
    }
    funcs
}

fn run_main(funcs: &HashMap<String, Vec<Instr>>) -> i32 {
    let mut m = Machine { mem: HashMap::new(), effects: Vec::new() };
    run(funcs, "main", &[], 1 << 20, &mut m)
}

#[test]
fn return_of_sum_with_scaled_operand() {
    // f(a, b) = a + b * 2, called on several inputs.
    let f = Function {
        name: "f".to_string(),
        params: vec!["a".to_string(), "b".to_string()],
        block_items: Some(vec![BlockItem::Stmt(Statement::Return(Expr::BinOp(
            dumbc::ast::BinaryOp::Add,
            Box::new(Expr::Var("a".to_string())),
            Box::new(Expr::BinOp(
                dumbc::ast::BinaryOp::Multiply,
                Box::new(Expr::Var("b".to_string())),
                Box::new(Expr::Const(2)),
            )),
        )))]),
    };
    let mut labels = LabelGenerator::new();
    let ins = generate_function_instrs(&f, &mut labels).unwrap();

    // The function has a single epilogue label, and the return branches to it.
    let epilogues = ins
        .iter()
        .filter(|i| {
            matches!(i, Instr::Op(Op::LabelDef(l)) if l.kind == dumbc::generator::label::LabelKind::FuncEpilogue)
        })
        .count();
    assert_eq!(epilogues, 1);

    let mut funcs = HashMap::new();
    funcs.insert("f".to_string(), ins);
    let mut m = Machine { mem: HashMap::new(), effects: Vec::new() };
    assert_eq!(run(&funcs, "f", &[3, 4], 1 << 20, &mut m), 11);
    assert_eq!(run(&funcs, "f", &[0, 0], 1 << 20, &mut m), 0);
    assert_eq!(run(&funcs, "f", &[-1, 5], 1 << 20, &mut m), 9);
}

#[test]
fn while_loop_sums_first_five() {
    let funcs =
        compile_source("int main(){ int i=0; int s=0; while(i<5){ s=s+i; i=i+1; } return s; }");
    assert_eq!(run_main(&funcs), 10);
}

#[test]
fn taken_branch_of_constant_conditional() {
    let funcs = compile_source("int main(){ if (1) return 7; else return 8; }");
    assert_eq!(run_main(&funcs), 7);
}

#[test]
fn short_circuit_skips_right_side_effect() {
    // The right-hand assignment must not run when the left side decides.
    let funcs = compile_source(
        "int main() { int l = 5; int r = 7; (l = 0) && (r = 9); return r; }",
    );
    assert_eq!(run_main(&funcs), 7);
    let funcs = compile_source(
        "int main() { int l = 5; int r = 7; (l = 1) && (r = 9); return r; }",
    );
    assert_eq!(run_main(&funcs), 9);
    let funcs = compile_source(
        "int main() { int l = 5; int r = 7; (l = 1) || (r = 9); return r; }",
    );
    assert_eq!(run_main(&funcs), 7);
    let funcs = compile_source(
        "int main() { int l = 5; int r = 7; (l = 0) || (r = 9); return r; }",
    );
    assert_eq!(run_main(&funcs), 9);
}

#[test]
fn call_passes_register_arguments() {
    // Two functions; the callee receives its arguments in w0 and w1.
    let callee = Function {
        name: "addup".to_string(),
        params: vec!["a".to_string(), "b".to_string()],
        block_items: Some(vec![BlockItem::Stmt(Statement::Return(Expr::BinOp(
            dumbc::ast::BinaryOp::Add,
            Box::new(Expr::Var("a".to_string())),
            Box::new(Expr::Var("b".to_string())),
        )))]),
    };
    let caller = Function {
        name: "main".to_string(),
        params: vec![],
        block_items: Some(vec![BlockItem::Stmt(Statement::Return(Expr::FunCall {
            name: "addup".to_string(),
            parameters: vec![Expr::Const(20), Expr::Const(22)],
        }))]),
    };
    let program = Program {
        toplevel_items: vec![TopLevel::Function(callee), TopLevel::Function(caller)],
    };
    let funcs = compile_program(&program);
    assert_eq!(run_main(&funcs), 42);
}

#[test]
fn nested_break_leaves_only_inner_loop() {
    // The inner break must leave only the innermost loop: the outer loop
    // keeps running and counts all three outer rounds.
    let funcs = compile_source(
        "int main() { int n = 0; int i = 0; while (i < 3) { while (1) { break; } n = n + 1; i = i + 1; } return n; }",
    );
    assert_eq!(run_main(&funcs), 3);
}

#[test]
fn continue_reaches_post_expression_of_for_loop() {
    let funcs = compile_source(
        "int main() { int s = 0; for (int i = 0; i < 6; i = i + 1) { if (i % 2) continue; s = s + i; } return s; }",
    );
    // 0 + 2 + 4
    assert_eq!(run_main(&funcs), 6);
}

#[test]
fn continue_in_while_retests_the_condition() {
    // Every round ends in a continue; the loop must still terminate after
    // three rounds, because continue jumps back to the condition test.
    let funcs = compile_source(
        "int main() { int i = 0; while (i < 3) { i = i + 1; continue; } return i; }",
    );
    assert_eq!(run_main(&funcs), 3);
}

#[test]
fn nested_continue_stays_in_inner_loop() {
    // The inner continue re-tests the inner condition only; the outer loop
    // still runs both rounds.
    let funcs = compile_source(
        "int main() { int n = 0; int i = 0; while (i < 2) { i = i + 1; int j = 0; while (j < 3) { j = j + 1; continue; } n = n + j; } return n; }",
    );
    assert_eq!(run_main(&funcs), 6);
}

#[test]
fn while_continue_label_sits_before_the_condition() {
    let funcs = compile_source("int main() { int i = 0; while (i < 1) { i = i + 1; } return i; }");
    let ins = &funcs["main"];
    let cont_at = ins
        .iter()
        .position(|i| {
            matches!(i, Instr::Op(Op::LabelDef(l)) if l.kind == dumbc::generator::label::LabelKind::WhileContinue)
        })
        .unwrap();
    let test_at = ins.iter().position(|i| matches!(i, Instr::Op(Op::CmpW0Zero))).unwrap();
    assert!(cont_at < test_at);
}

#[test]
fn do_while_runs_body_at_least_once() {
    let funcs = compile_source("int main() { int n = 0; do { n = n + 1; } while (0); return n; }");
    assert_eq!(run_main(&funcs), 1);
}

#[test]
fn bingus_effect_recorded_once_per_call() {
    let f = Function {
        name: "main".to_string(),
        params: vec![],
        block_items: Some(vec![
            BlockItem::Stmt(Statement::Bingus(Expr::Const(41))),
            BlockItem::Stmt(Statement::Return(Expr::Const(0))),
        ]),
    };
    let mut labels = LabelGenerator::new();
    let ins = generate_function_instrs(&f, &mut labels).unwrap();
    let mut funcs = HashMap::new();
    funcs.insert("main".to_string(), ins);
    let mut m = Machine { mem: HashMap::new(), effects: Vec::new() };
    let r = run(&funcs, "main", &[], 1 << 20, &mut m);
    assert_eq!(r, 0);
    assert_eq!(m.effects, vec![41]);
}

#[test]
fn implicit_return_value_is_zero() {
    let funcs = compile_source("int main() { int x = 3; x = x + 1; }");
    assert_eq!(run_main(&funcs), 0);
}

#[test]
fn spilled_locals_round_trip_through_stack() {
    // Twelve locals exceed the ten-register pool, so the last two live on
    // the stack; their values must still read back correctly.
    let funcs = compile_source(
        "int main() { int a=1; int b=2; int c=3; int d=4; int e=5; int f=6; int g=7; int h=8; int i=9; int j=10; int k=11; int l=12; return k + l; }",
    );
    assert_eq!(run_main(&funcs), 23);
}
