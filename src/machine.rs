use vstd::prelude::*;
use crate::ast::{BinaryOperator, Expr};
use crate::codegen::{emit_expr, lowered_op};
use crate::inst::{Instruction, Reg};

verus! {

/// The registers that generated code uses, and the native stack (its top
/// last). Memory and control flow are not modelled.
pub struct Machine {
    pub rax: u64,
    pub rbx: u64,
    pub rcx: u64,
    pub rdx: u64,
    pub rbp: u64,
    pub rsp: u64,
    pub stack: Seq<u64>,
}

pub open spec fn word_modulus() -> int {
    0x1_0000_0000_0000_0000
}

/// An integer reduced to a machine word, as two's-complement hardware does.
pub open spec fn wrap(x: int) -> u64 {
    (x % word_modulus()) as u64
}

pub open spec fn reg(m: Machine, r: Reg) -> u64 {
    match r {
        Reg::Rax => m.rax,
        Reg::Rbx => m.rbx,
        Reg::Rcx => m.rcx,
        Reg::Rdx => m.rdx,
        Reg::Rbp => m.rbp,
        Reg::Rsp => m.rsp,
    }
}

pub open spec fn set_reg(m: Machine, r: Reg, v: u64) -> Machine {
    match r {
        Reg::Rax => Machine { rax: v, ..m },
        Reg::Rbx => Machine { rbx: v, ..m },
        Reg::Rcx => Machine { rcx: v, ..m },
        Reg::Rdx => Machine { rdx: v, ..m },
        Reg::Rbp => Machine { rbp: v, ..m },
        Reg::Rsp => Machine { rsp: v, ..m },
    }
}

/// The effect of one instruction; `None` where the hardware would fault
/// (popping an empty stack, dividing by zero or into an overflowing quotient).
/// Labels, stores to the frame and returns leave the registers as they are.
pub open spec fn step(m: Machine, i: Instruction) -> Option<Machine> {
    match i {
        Instruction::MovImm { dst, value } => Some(set_reg(m, dst, wrap(value as int))),
        Instruction::MovReg { dst, src } => Some(set_reg(m, dst, reg(m, src))),
        Instruction::Push(r) => Some(Machine { stack: m.stack.push(reg(m, r)), ..m }),
        Instruction::Pop(r) => if m.stack.len() == 0 {
            None
        } else {
            Some(set_reg(Machine { stack: m.stack.drop_last(), ..m }, r, m.stack.last()))
        },
        Instruction::Add { dst, src } => Some(set_reg(m, dst, wrap(reg(m, dst) + reg(m, src)))),
        Instruction::Sub { dst, src } => Some(set_reg(m, dst, wrap(reg(m, dst) - reg(m, src)))),
        Instruction::IMul { dst, src } => Some(set_reg(m, dst, wrap(reg(m, dst) * reg(m, src)))),
        Instruction::Xor { dst, src } => Some(set_reg(m, dst, reg(m, dst) ^ reg(m, src))),
        Instruction::Div(r) => {
            let d = reg(m, r) as int;
            let n = m.rdx as int * word_modulus() + m.rax as int;
            if d == 0 || n / d >= word_modulus() {
                None
            } else {
                Some(Machine { rax: (n / d) as u64, rdx: (n % d) as u64, ..m })
            }
        },
        _ => Some(m),
    }
}

/// Runs a straight-line instruction sequence from state `m`.
pub open spec fn run(code: Seq<Instruction>, m: Machine) -> Option<Machine>
    decreases code.len(),
{
    if code.len() == 0 {
        Some(m)
    } else {
        match step(m, code[0]) {
            Some(m1) => run(code.drop_first(), m1),
            None => None,
        }
    }
}

/// The value of `a op b` on machine words: `+`, `-` and `*` wrap, `/` is
/// unsigned and undefined on a zero divisor; other operators have no value.
pub open spec fn combine(op: BinaryOperator, a: u64, b: u64) -> Option<u64> {
    match op {
        BinaryOperator::Add => Some(wrap(a + b)),
        BinaryOperator::Sub => Some(wrap(a - b)),
        BinaryOperator::Mul => Some(wrap(a * b)),
        BinaryOperator::Div => if b == 0 {
            None
        } else {
            Some((a / b) as u64)
        },
        _ => None,
    }
}

/// The value of an arithmetic expression on machine words: `+`, `-` and `*`
/// wrap, `/` is unsigned and undefined on a zero divisor.
pub open spec fn eval(e: Expr) -> Option<u64>
    decreases e,
{
    match e {
        Expr::IntegerLiteral(v) => Some(wrap(v as int)),
        Expr::BinaryOp { op, lhs, rhs } => match (eval(*lhs), eval(*rhs)) {
            (Some(a), Some(b)) => combine(op, a, b),
            _ => None,
        },
        _ => None,
    }
}

/// Running two sequences one after the other is running their concatenation.
pub proof fn lemma_run_append(a: Seq<Instruction>, b: Seq<Instruction>, m: Machine)
    ensures
        run(a + b, m) == match run(a, m) {
            Some(m1) => run(b, m1),
            None => None,
        },
    decreases a.len(),
{
    if a.len() > 0 {
        assert((a + b).drop_first() =~= a.drop_first() + b);
        match step(m, a[0]) {
            Some(m1) => lemma_run_append(a.drop_first(), b, m1),
            None => {},
        }
    } else {
        assert(a + b =~= b);
    }
}

proof fn lemma_xor_self(x: u64)
    ensures
        x ^ x == 0,
{
    assert(x ^ x == 0) by (bit_vector);
}

proof fn lemma_run_single(i: Instruction, m: Machine)
    ensures
        run(seq![i], m) == step(m, i),
{
    reveal_with_fuel(run, 2);
    assert(seq![i].drop_first() =~= Seq::<Instruction>::empty());
}

/// The instructions that finish a binary operation, with the left operand in
/// rbx and the right one in rax, leave `a op b` in rax.
proof fn lemma_op_tail(op: BinaryOperator, m: Machine)
    requires
        combine(op, m.rbx, m.rax) is Some,
    ensures
        lowered_op(op) is Some,
        run(lowered_op(op).unwrap(), m) is Some,
        run(lowered_op(op).unwrap(), m).unwrap().rax == combine(op, m.rbx, m.rax).unwrap(),
        run(lowered_op(op).unwrap(), m).unwrap().stack == m.stack,
        run(lowered_op(op).unwrap(), m).unwrap().rbp == m.rbp,
        run(lowered_op(op).unwrap(), m).unwrap().rsp == m.rsp,
{
    reveal_with_fuel(run, 5);
    let a = m.rbx;
    let b = m.rax;
    if op is Div {
        lemma_xor_self(m.rdx);
        assert(a as int / b as int >= 0) by (nonlinear_arith)
            requires
                b > 0,
                a >= 0,
        ;
        assert(a as int / b as int <= a as int) by (nonlinear_arith)
            requires
                b > 0,
                a >= 0,
        ;
    }
}

/// The code lowered from an arithmetic expression, run from any state, leaves
/// the expression's value in rax, the stack as it found it, and the frame
/// registers untouched; it declares no external symbol and reserves no slot.
pub proof fn lemma_lowered_expr_computes(e: Expr, off: int, m: Machine)
    requires
        eval(e) is Some,
    ensures
        emit_expr(e, off) is Some,
        emit_expr(e, off).unwrap().1.len() == 0,
        emit_expr(e, off).unwrap().2 == off,
        run(emit_expr(e, off).unwrap().0, m) is Some,
        run(emit_expr(e, off).unwrap().0, m).unwrap().rax == eval(e).unwrap(),
        run(emit_expr(e, off).unwrap().0, m).unwrap().stack == m.stack,
        run(emit_expr(e, off).unwrap().0, m).unwrap().rbp == m.rbp,
        run(emit_expr(e, off).unwrap().0, m).unwrap().rsp == m.rsp,
    decreases e,
{
    match e {
        Expr::IntegerLiteral(v) => {
            lemma_run_single(Instruction::MovImm { dst: Reg::Rax, value: v }, m);
        },
        Expr::BinaryOp { op, lhs, rhs } => {
            let a = eval(*lhs).unwrap();
            let b = eval(*rhs).unwrap();
            lemma_lowered_expr_computes(*lhs, off, m);
            let l = emit_expr(*lhs, off).unwrap();
            let m1 = run(l.0, m).unwrap();
            let m2 = Machine { stack: m1.stack.push(a), ..m1 };
            lemma_lowered_expr_computes(*rhs, off, m2);
            let r = emit_expr(*rhs, off).unwrap();
            let m3 = run(r.0, m2).unwrap();
            assert(m3.stack.drop_last() =~= m.stack);
            let m4 = Machine { rbx: a, stack: m.stack, ..m3 };
            let tail = lowered_op(op).unwrap();
            let push = seq![Instruction::Push(Reg::Rax)];
            let pop = seq![Instruction::Pop(Reg::Rbx)];
            lemma_run_single(Instruction::Push(Reg::Rax), m1);
            lemma_run_single(Instruction::Pop(Reg::Rbx), m3);
            assert(run(pop, m3) == Some(m4));
            lemma_op_tail(op, m4);
            lemma_run_append(l.0, push, m);
            lemma_run_append(l.0 + push, r.0, m);
            lemma_run_append(l.0 + push + r.0, pop, m);
            lemma_run_append(l.0 + push + r.0 + pop, tail, m);
        },
        _ => {},
    }
}

/// An expression made of integer literals and the binary operators that
/// have a lowering.
pub open spec fn is_arith(e: Expr) -> bool
    decreases e,
{
    match e {
        Expr::IntegerLiteral(_) => true,
        Expr::BinaryOp { op, lhs, rhs } => lowered_op(op) is Some && is_arith(*lhs) && is_arith(*rhs),
        _ => false,
    }
}

pub open spec fn binary_nodes(e: Expr) -> nat
    decreases e,
{
    match e {
        Expr::BinaryOp { lhs, rhs, .. } => 1 + binary_nodes(*lhs) + binary_nodes(*rhs),
        _ => 0,
    }
}

pub open spec fn count_pushes(s: Seq<Instruction>) -> nat
    decreases s.len(),
{
    if s.len() == 0 {
        0
    } else {
        count_pushes(s.drop_last()) + if s.last() is Push { 1nat } else { 0nat }
    }
}

pub open spec fn count_pops(s: Seq<Instruction>) -> nat
    decreases s.len(),
{
    if s.len() == 0 {
        0
    } else {
        count_pops(s.drop_last()) + if s.last() is Pop { 1nat } else { 0nat }
    }
}

proof fn lemma_counts_append(a: Seq<Instruction>, b: Seq<Instruction>)
    ensures
        count_pushes(a + b) == count_pushes(a) + count_pushes(b),
        count_pops(a + b) == count_pops(a) + count_pops(b),
    decreases b.len(),
{
    if b.len() == 0 {
        assert(a + b =~= a);
    } else {
        assert((a + b).drop_last() =~= a + b.drop_last());
        lemma_counts_append(a, b.drop_last());
    }
}

/// The code of an arithmetic expression holds one push and one pop for each
/// binary operation in it.
pub proof fn lemma_push_pop_per_binary_node(e: Expr, off: int)
    requires
        is_arith(e),
    ensures
        emit_expr(e, off) is Some,
        count_pushes(emit_expr(e, off).unwrap().0) == binary_nodes(e),
        count_pops(emit_expr(e, off).unwrap().0) == binary_nodes(e),
    decreases e,
{
    reveal_with_fuel(count_pushes, 5);
    reveal_with_fuel(count_pops, 5);
    match e {
        Expr::BinaryOp { op, lhs, rhs } => {
            lemma_push_pop_per_binary_node(*lhs, off);
            let l = emit_expr(*lhs, off).unwrap();
            lemma_push_pop_per_binary_node(*rhs, l.2);
            let r = emit_expr(*rhs, l.2).unwrap();
            let push = seq![Instruction::Push(Reg::Rax)];
            let pop = seq![Instruction::Pop(Reg::Rbx)];
            let tail = lowered_op(op).unwrap();
            lemma_counts_append(l.0, push);
            lemma_counts_append(l.0 + push, r.0);
            lemma_counts_append(l.0 + push + r.0, pop);
            lemma_counts_append(l.0 + push + r.0 + pop, tail);
            assert(push.drop_last() =~= Seq::<Instruction>::empty());
            assert(pop.drop_last() =~= Seq::<Instruction>::empty());
        },
        _ => {},
    }
}

/// The native stack's depth after `code`, from depth `d`; `None` if some pop
/// would find the stack at depth `d` or below, that is, below where it began.
pub open spec fn depth_after(code: Seq<Instruction>, d: int, floor: int) -> Option<int>
    decreases code.len(),
{
    if code.len() == 0 {
        Some(d)
    } else {
        let next = match code[0] {
            Instruction::Push(_) => d + 1,
            Instruction::Pop(_) => d - 1,
            _ => d,
        };
        if next < floor {
            None
        } else {
            depth_after(code.drop_first(), next, floor)
        }
    }
}

proof fn lemma_depth_append(a: Seq<Instruction>, b: Seq<Instruction>, d: int, floor: int)
    ensures
        depth_after(a + b, d, floor) == match depth_after(a, d, floor) {
            Some(d1) => depth_after(b, d1, floor),
            None => None,
        },
    decreases a.len(),
{
    if a.len() > 0 {
        assert((a + b).drop_first() =~= a.drop_first() + b);
        let next = match a[0] {
            Instruction::Push(_) => d + 1,
            Instruction::Pop(_) => d - 1,
            _ => d,
        };
        lemma_depth_append(a.drop_first(), b, next, floor);
    } else {
        assert(a + b =~= b);
    }
}

proof fn lemma_depth_op_tail(op: BinaryOperator, d: int, floor: int)
    requires
        lowered_op(op) is Some,
        floor <= d,
    ensures
        depth_after(lowered_op(op).unwrap(), d, floor) == Some(d),
{
    reveal_with_fuel(depth_after, 5);
}

/// In the code of an arithmetic expression every pop matches an earlier
/// push of the same expression: from any depth, the stack never drops below
/// where it started, and it ends at that depth.
pub proof fn lemma_push_pop_balanced(e: Expr, off: int, d: int)
    requires
        is_arith(e),
    ensures
        emit_expr(e, off) is Some,
        depth_after(emit_expr(e, off).unwrap().0, d, d) == Some(d),
{
    lemma_push_pop_balanced_from(e, off, d, d);
}

/// From a depth `d` at or above `floor`, the code of an arithmetic expression
/// never takes the stack below `d`, and it ends at `d`.
proof fn lemma_push_pop_balanced_from(e: Expr, off: int, d: int, floor: int)
    requires
        is_arith(e),
        floor <= d,
    ensures
        emit_expr(e, off) is Some,
        depth_after(emit_expr(e, off).unwrap().0, d, floor) == Some(d),
    decreases e,
{
    lemma_push_pop_per_binary_node(e, off);
    reveal_with_fuel(depth_after, 2);
    match e {
        Expr::BinaryOp { op, lhs, rhs } => {
            lemma_push_pop_balanced_from(*lhs, off, d, floor);
            let l = emit_expr(*lhs, off).unwrap();
            lemma_push_pop_balanced_from(*rhs, l.2, d + 1, floor);
            let r = emit_expr(*rhs, l.2).unwrap();
            let push = seq![Instruction::Push(Reg::Rax)];
            let pop = seq![Instruction::Pop(Reg::Rbx)];
            let tail = lowered_op(op).unwrap();
            assert(push.drop_first() =~= Seq::<Instruction>::empty());
            assert(pop.drop_first() =~= Seq::<Instruction>::empty());
            lemma_depth_op_tail(op, d, floor);
            lemma_depth_append(l.0, push, d, floor);
            lemma_depth_append(l.0 + push, r.0, d, floor);
            lemma_depth_append(l.0 + push + r.0, pop, d, floor);
            lemma_depth_append(l.0 + push + r.0 + pop, tail, d, floor);
        },
        _ => {},
    }
}

} // verus!
