use vstd::prelude::*;
use crate::ast::{BinaryOperator, DeclType, Expr};
use crate::inst::{Instruction, Reg};

verus! {

broadcast use vstd::seq::axiom_seq_index_decreases, vstd::std_specs::vec::axiom_vec_decreases_to_view;

/// Bytes reserved for each local variable.
pub const SLOT_SIZE: usize = 32;

/// How far the frame offset advances for a slot of `size` bytes: the size
/// rounded up to a multiple of eight, plus an eight-byte pad.
pub open spec fn stride(size: int) -> int {
    size - size % 8 + if size % 8 == 0 { 8int } else { 16int }
}

/// Hands out frame offsets: each request gets the current offset, which then
/// advances by the stride of the requested size.
#[derive(Debug)]
pub struct RspTracker {
    pub current: usize,
}

impl RspTracker {
    pub fn new() -> (r: Self)
        ensures
            r.current == 0,
    {
        Self { current: 0 }
    }

    pub fn next_offset(&mut self, size: usize) -> (r: usize)
        requires
            old(self).current + stride(size as int) <= usize::MAX,
        ensures
            r == old(self).current,
            final(self).current == old(self).current + stride(size as int),
    {
        let old_offset = self.current;
        let extra: usize = if size % 8 == 0 { 8 } else { 16 };
        self.current = self.current + (size - size % 8) + extra;
        old_offset
    }
}

/// Why a tree could not be lowered.
#[derive(Debug, Clone, Copy, PartialEq, Eq, Structural)]
pub enum GenError {
    /// A declaration kept only for its side effect.
    UnsupportedDeclaration,
    /// An expression other than a literal, a binary operation or a block.
    UnsupportedExpression,
    /// A binary operator other than `+`, `-`, `*` and `/`.
    UnsupportedOperator(BinaryOperator),
    /// The frame offsets no longer fit in a machine word.
    FrameTooLarge,
}

/// What a program part lowers to: text lines, names of external symbols,
/// and the frame offset after it.
pub type Emitted = (Seq<Instruction>, Seq<String>, int);

/// The instructions that combine the left operand (in rbx) with the right one
/// (in rax), leaving the result in rax.
pub open spec fn lowered_op(op: BinaryOperator) -> Option<Seq<Instruction>> {
    match op {
        BinaryOperator::Add => Some(seq![Instruction::Add { dst: Reg::Rax, src: Reg::Rbx }]),
        BinaryOperator::Sub => Some(
            seq![
                Instruction::Sub { dst: Reg::Rbx, src: Reg::Rax },
                Instruction::MovReg { dst: Reg::Rax, src: Reg::Rbx },
            ],
        ),
        BinaryOperator::Mul => Some(seq![Instruction::IMul { dst: Reg::Rax, src: Reg::Rbx }]),
        BinaryOperator::Div => Some(
            seq![
                Instruction::Xor { dst: Reg::Rdx, src: Reg::Rdx },
                Instruction::MovReg { dst: Reg::Rcx, src: Reg::Rax },
                Instruction::MovReg { dst: Reg::Rax, src: Reg::Rbx },
                Instruction::Div(Reg::Rcx),
            ],
        ),
        _ => None,
    }
}

pub open spec fn prologue(name: String) -> Seq<Instruction> {
    seq![
        Instruction::Label(name),
        Instruction::Push(Reg::Rbp),
        Instruction::MovReg { dst: Reg::Rbp, src: Reg::Rsp },
    ]
}

pub open spec fn epilogue() -> Seq<Instruction> {
    seq![
        Instruction::MovReg { dst: Reg::Rsp, src: Reg::Rbp },
        Instruction::Pop(Reg::Rbp),
        Instruction::Ret,
    ]
}

/// What an expression lowers to from frame offset `off`; `None` when it holds
/// a construct that has no lowering or the frame outgrows a machine word.
pub open spec fn emit_expr(e: Expr, off: int) -> Option<Emitted>
    decreases e,
{
    match e {
        Expr::IntegerLiteral(v) => Some(
            (seq![Instruction::MovImm { dst: Reg::Rax, value: v }], seq![], off),
        ),
        Expr::BinaryOp { op, lhs, rhs } => match lowered_op(op) {
            Some(tail) => match emit_expr(*lhs, off) {
                Some(l) => match emit_expr(*rhs, l.2) {
                    Some(r) => Some(
                        (
                            l.0 + seq![Instruction::Push(Reg::Rax)] + r.0 + seq![
                                Instruction::Pop(Reg::Rbx),
                            ] + tail,
                            l.1 + r.1,
                            r.2,
                        ),
                    ),
                    None => None,
                },
                None => None,
            },
            None => None,
        },
        Expr::CompoundExpr { expressions } => emit_decls(expressions@, off),
        _ => None,
    }
}

/// What a sequence of declarations lowers to, each in turn.
pub open spec fn emit_decls(ds: Seq<Box<DeclType>>, off: int) -> Option<Emitted>
    decreases ds,
{
    if ds.len() == 0 {
        Some((seq![], seq![], off))
    } else {
        match emit_decls(ds.drop_last(), off) {
            Some(a) => match emit_decl(*ds.last(), a.2) {
                Some(b) => Some((a.0 + b.0, a.1 + b.1, b.2)),
                None => None,
            },
            None => None,
        }
    }
}

/// What one declaration lowers to.
pub open spec fn emit_decl(d: DeclType, off: int) -> Option<Emitted>
    decreases d,
{
    match d {
        DeclType::FunctionDecl { name, body, .. } => match body {
            None => Some((seq![], seq![name], off)),
            Some(b) => match emit_expr(*b, off) {
                Some(x) => Some((prologue(name) + x.0 + epilogue(), x.1, x.2)),
                None => None,
            },
        },
        DeclType::VariableDecl { .. } => if off + stride(SLOT_SIZE as int) <= usize::MAX {
            Some((seq![Instruction::StoreZero { offset: off as usize }], seq![], off + stride(SLOT_SIZE as int)))
        } else {
            None
        },
        DeclType::SideEffect(_) => None,
    }
}

/// What a program lowers to: its declarations in order.
pub open spec fn emit_program(ds: Seq<DeclType>, off: int) -> Option<Emitted>
    decreases ds.len(),
{
    if ds.len() == 0 {
        Some((seq![], seq![], off))
    } else {
        match emit_program(ds.drop_last(), off) {
            Some(a) => match emit_decl(ds.last(), a.2) {
                Some(b) => Some((a.0 + b.0, a.1 + b.1, b.2)),
                None => None,
            },
            None => None,
        }
    }
}

/// Once a prefix of a declaration list fails to lower, so does the list.
proof fn lemma_decls_prefix_fails(ds: Seq<Box<DeclType>>, j: int, off: int)
    requires
        0 <= j <= ds.len(),
        emit_decls(ds.take(j), off) is None,
    ensures
        emit_decls(ds, off) is None,
    decreases ds.len(),
{
    if j < ds.len() {
        assert(ds.drop_last().take(j) =~= ds.take(j));
        lemma_decls_prefix_fails(ds.drop_last(), j, off);
    } else {
        assert(ds.take(j) =~= ds);
    }
}

proof fn lemma_program_prefix_fails(ds: Seq<DeclType>, j: int, off: int)
    requires
        0 <= j <= ds.len(),
        emit_program(ds.take(j), off) is None,
    ensures
        emit_program(ds, off) is None,
    decreases ds.len(),
{
    if j < ds.len() {
        assert(ds.drop_last().take(j) =~= ds.take(j));
        lemma_program_prefix_fails(ds.drop_last(), j, off);
    } else {
        assert(ds.take(j) =~= ds);
    }
}

/// Code generation state: the program and the four section buffers.
#[derive(Debug)]
pub struct State {
    pub program: Vec<DeclType>,
    /// Names of the symbols that are declared but not defined here.
    pub extern_buffer: Vec<String>,
    pub text_buffer: Vec<Instruction>,
    pub data_buffer: Vec<String>,
    pub bss_buffer: Vec<String>,
    pub rsp_tracker: RspTracker,
}

/// `after` is `before` with `out` appended: its text lines to the text
/// section, its names to the external symbols, and the frame offset moved on.
pub open spec fn appended(before: State, after: State, out: Emitted) -> bool {
    &&& after.text_buffer@ == before.text_buffer@ + out.0
    &&& after.extern_buffer@ == before.extern_buffer@ + out.1
    &&& after.rsp_tracker.current == out.2
    &&& after.data_buffer@ == before.data_buffer@
    &&& after.bss_buffer@ == before.bss_buffer@
    &&& after.program@ == before.program@
}

/// The outcome of lowering, as `lowered` says it should be.
pub open spec fn lowers_as(
    before: State,
    after: State,
    r: Result<(), GenError>,
    lowered: Option<Emitted>,
) -> bool {
    match lowered {
        Some(out) => r is Ok && appended(before, after, out),
        None => r is Err,
    }
}

impl State {
    pub fn new(program: Vec<DeclType>) -> (r: Self)
        ensures
            r.program@ == program@,
            r.extern_buffer@.len() == 0,
            r.text_buffer@.len() == 0,
            r.data_buffer@.len() == 0,
            r.bss_buffer@.len() == 0,
            r.rsp_tracker.current == 0,
    {
        State {
            program,
            extern_buffer: Vec::new(),
            text_buffer: Vec::new(),
            data_buffer: Vec::new(),
            bss_buffer: Vec::new(),
            rsp_tracker: RspTracker::new(),
        }
    }

    /// Lowers every declaration of the program, in order.
    pub fn generate(&mut self) -> (r: Result<(), GenError>)
        ensures
            lowers_as(
                *old(self),
                *final(self),
                r,
                emit_program(old(self).program@, old(self).rsp_tracker.current as int),
            ),
    {
        let mut program: Vec<DeclType> = Vec::new();
        core::mem::swap(&mut program, &mut self.program);
        let ghost start = *self;
        let ghost off = old(self).rsp_tracker.current as int;
        let mut i: usize = 0;
        while i < program.len()
            invariant
                0 <= i <= program.len(),
                off == old(self).rsp_tracker.current as int,
                program@ == old(self).program@,
                self.program@.len() == 0,
                start.program@.len() == 0,
                start.text_buffer@ == old(self).text_buffer@,
                start.extern_buffer@ == old(self).extern_buffer@,
                start.data_buffer@ == old(self).data_buffer@,
                start.bss_buffer@ == old(self).bss_buffer@,
                match emit_program(program@.take(i as int), off) {
                    Some(out) => appended(start, *self, out),
                    None => false,
                },
            decreases program.len() - i,
        {
            let ghost before = *self;
            let r = self.gen_decl(&program[i]);
            proof {
                assert(program@.take(i + 1).drop_last() =~= program@.take(i as int));
                assert(program@.take(i + 1).last() == program@[i as int]);
            }
            if r.is_err() {
                proof {
                    assert(emit_program(program@.take(i + 1), off) is None);
                    lemma_program_prefix_fails(program@, i + 1, off);
                }
                core::mem::swap(&mut program, &mut self.program);
                return r;
            }
            proof {
                let a = emit_program(program@.take(i as int), off).unwrap();
                let b = emit_decl(program@[i as int], a.2).unwrap();
                assert(self.text_buffer@ =~= start.text_buffer@ + (a.0 + b.0));
                assert(self.extern_buffer@ =~= start.extern_buffer@ + (a.1 + b.1));
            }
            i = i + 1;
        }
        proof {
            assert(program@.take(i as int) =~= program@);
        }
        core::mem::swap(&mut program, &mut self.program);
        Ok(())
    }

    fn gen_label(&mut self, label: &String)
        ensures
            final(self).text_buffer@ == old(self).text_buffer@.push(Instruction::Label(*label)),
            final(self).extern_buffer@ == old(self).extern_buffer@,
            final(self).data_buffer@ == old(self).data_buffer@,
            final(self).bss_buffer@ == old(self).bss_buffer@,
            final(self).program@ == old(self).program@,
            final(self).rsp_tracker == old(self).rsp_tracker,
    {
        self.text_buffer.push(Instruction::Label(label.clone()));
    }

    fn gen_inst(&mut self, inst: Instruction)
        ensures
            final(self).text_buffer@ == old(self).text_buffer@.push(inst),
            final(self).extern_buffer@ == old(self).extern_buffer@,
            final(self).data_buffer@ == old(self).data_buffer@,
            final(self).bss_buffer@ == old(self).bss_buffer@,
            final(self).program@ == old(self).program@,
            final(self).rsp_tracker == old(self).rsp_tracker,
    {
        self.text_buffer.push(inst);
    }

    fn gen_extern(&mut self, name: &String)
        ensures
            appended(*old(self), *final(self), (seq![], seq![*name], old(self).rsp_tracker.current as int)),
    {
        self.extern_buffer.push(name.clone());
        assert(self.text_buffer@ =~= old(self).text_buffer@ + seq![]);
        assert(self.extern_buffer@ =~= old(self).extern_buffer@ + seq![*name]);
    }

    fn gen_func_prologue(&mut self, name: &String)
        ensures
            appended(*old(self), *final(self), (prologue(*name), seq![], old(self).rsp_tracker.current as int)),
    {
        self.gen_label(name);
        self.gen_inst(Instruction::Push(Reg::Rbp));
        self.gen_inst(Instruction::MovReg { dst: Reg::Rbp, src: Reg::Rsp });
        assert(self.text_buffer@ =~= old(self).text_buffer@ + prologue(*name));
        assert(self.extern_buffer@ =~= old(self).extern_buffer@ + seq![]);
    }

    fn gen_func_epilogue(&mut self)
        ensures
            appended(*old(self), *final(self), (epilogue(), seq![], old(self).rsp_tracker.current as int)),
    {
        self.gen_inst(Instruction::MovReg { dst: Reg::Rsp, src: Reg::Rbp });
        self.gen_inst(Instruction::Pop(Reg::Rbp));
        self.gen_inst(Instruction::Ret);
        assert(self.text_buffer@ =~= old(self).text_buffer@ + epilogue());
        assert(self.extern_buffer@ =~= old(self).extern_buffer@ + seq![]);
    }

    fn gen_decl(&mut self, decl: &DeclType) -> (r: Result<(), GenError>)
        ensures
            lowers_as(*old(self), *final(self), r, emit_decl(*decl, old(self).rsp_tracker.current as int)),
        decreases *decl, 1int,
    {
        match decl {
            DeclType::FunctionDecl { name, body, .. } => self.gen_function(name, body),
            DeclType::VariableDecl { .. } => self.gen_var_decl(),
            DeclType::SideEffect(_) => Err(GenError::UnsupportedDeclaration),
        }
    }

    /// Reserves a slot in the frame and stores zero in it.
    fn gen_var_decl(&mut self) -> (r: Result<(), GenError>)
        ensures
            lowers_as(
                *old(self),
                *final(self),
                r,
                if old(self).rsp_tracker.current + stride(SLOT_SIZE as int) <= usize::MAX {
                    Some((
                        seq![Instruction::StoreZero { offset: old(self).rsp_tracker.current }],
                        seq![],
                        old(self).rsp_tracker.current + stride(SLOT_SIZE as int),
                    ))
                } else {
                    None
                },
            ),
    {
        // a slot's size is a multiple of eight, so it advances by the size plus the pad
        let slot_stride: usize = SLOT_SIZE + 8;
        assert(stride(SLOT_SIZE as int) == slot_stride);
        if self.rsp_tracker.current > usize::MAX - slot_stride {
            return Err(GenError::FrameTooLarge);
        }
        let offset = self.rsp_tracker.next_offset(SLOT_SIZE);
        self.gen_inst(Instruction::StoreZero { offset });
        assert(self.text_buffer@ =~= old(self).text_buffer@ + seq![Instruction::StoreZero { offset }]);
        assert(self.extern_buffer@ =~= old(self).extern_buffer@ + seq![]);
        Ok(())
    }

    fn gen_function(&mut self, name: &String, body: &Option<Box<Expr>>) -> (r: Result<(), GenError>)
        ensures
            lowers_as(
                *old(self),
                *final(self),
                r,
                match body {
                    None => Some((seq![], seq![*name], old(self).rsp_tracker.current as int)),
                    Some(b) => match emit_expr(**b, old(self).rsp_tracker.current as int) {
                        Some(x) => Some((prologue(*name) + x.0 + epilogue(), x.1, x.2)),
                        None => None,
                    },
                },
            ),
        decreases *body, 0int,
    {
        match body {
            None => {
                self.gen_extern(name);
                Ok(())
            },
            Some(b) => {
                let ghost s0 = *self;
                self.gen_func_prologue(name);
                let r = self.gen_expr(b);
                if r.is_err() {
                    return r;
                }
                self.gen_func_epilogue();
                proof {
                    let x = emit_expr(**b, s0.rsp_tracker.current as int).unwrap();
                    assert(self.text_buffer@ =~= s0.text_buffer@ + (prologue(*name) + x.0 + epilogue()));
                    assert(self.extern_buffer@ =~= s0.extern_buffer@ + x.1);
                }
                Ok(())
            },
        }
    }

    /// Lowers one expression into the text section.
    pub fn gen_expr(&mut self, expr: &Expr) -> (r: Result<(), GenError>)
        ensures
            lowers_as(*old(self), *final(self), r, emit_expr(*expr, old(self).rsp_tracker.current as int)),
        decreases *expr, 0int,
    {
        match expr {
            Expr::IntegerLiteral(value) => {
                self.gen_inst(Instruction::MovImm { dst: Reg::Rax, value: *value });
                assert(self.text_buffer@ =~= old(self).text_buffer@ + seq![Instruction::MovImm { dst: Reg::Rax, value: *value }]);
                assert(self.extern_buffer@ =~= old(self).extern_buffer@ + seq![]);
                Ok(())
            },
            Expr::BinaryOp { op, lhs, rhs } => {
                match op {
                    BinaryOperator::Add | BinaryOperator::Sub | BinaryOperator::Mul
                    | BinaryOperator::Div => {},
                    _ => {
                        return Err(GenError::UnsupportedOperator(*op));
                    },
                }
                let ghost s0 = *self;
                let r = self.gen_expr(lhs);
                if r.is_err() {
                    return r;
                }
                let ghost s1 = *self;
                self.gen_inst(Instruction::Push(Reg::Rax));
                let r = self.gen_expr(rhs);
                if r.is_err() {
                    return r;
                }
                let ghost s2 = *self;
                self.gen_inst(Instruction::Pop(Reg::Rbx));
                match op {
                    BinaryOperator::Add => {
                        self.gen_inst(Instruction::Add { dst: Reg::Rax, src: Reg::Rbx });
                    },
                    BinaryOperator::Sub => {
                        self.gen_inst(Instruction::Sub { dst: Reg::Rbx, src: Reg::Rax });
                        self.gen_inst(Instruction::MovReg { dst: Reg::Rax, src: Reg::Rbx });
                    },
                    BinaryOperator::Mul => {
                        self.gen_inst(Instruction::IMul { dst: Reg::Rax, src: Reg::Rbx });
                    },
                    _ => {
                        // clear the high half of the dividend before dividing
                        self.gen_inst(Instruction::Xor { dst: Reg::Rdx, src: Reg::Rdx });
                        self.gen_inst(Instruction::MovReg { dst: Reg::Rcx, src: Reg::Rax });
                        self.gen_inst(Instruction::MovReg { dst: Reg::Rax, src: Reg::Rbx });
                        self.gen_inst(Instruction::Div(Reg::Rcx));
                    },
                }
                proof {
                    let l = emit_expr(**lhs, s0.rsp_tracker.current as int).unwrap();
                    let rr = emit_expr(**rhs, l.2).unwrap();
                    let tail = lowered_op(*op).unwrap();
                    assert(self.text_buffer@ =~= old(self).text_buffer@ + (l.0 + seq![Instruction::Push(Reg::Rax)] + rr.0 + seq![Instruction::Pop(Reg::Rbx)] + tail));
                    assert(self.extern_buffer@ =~= old(self).extern_buffer@ + (l.1 + rr.1));
                }
                Ok(())
            },
            Expr::CompoundExpr { expressions } => {
                let ghost off = old(self).rsp_tracker.current as int;
                let mut i: usize = 0;
                while i < expressions.len()
                    invariant
                        0 <= i <= expressions.len(),
                        off == old(self).rsp_tracker.current as int,
                        *expr == (Expr::CompoundExpr { expressions: *expressions }),
                        match emit_decls(expressions@.take(i as int), off) {
                            Some(out) => appended(*old(self), *self, out),
                            None => false,
                        },
                    decreases expressions.len() - i,
                {
                    proof {
                        assert(decreases_to!(*expr => expressions@[i as int]));
                    }
                    let ghost before = *self;
                    let r = self.gen_decl(&expressions[i]);
                    proof {
                        assert(expressions@.take(i + 1).drop_last() =~= expressions@.take(i as int));
                        assert(expressions@.take(i + 1).last() == expressions@[i as int]);
                    }
                    if r.is_err() {
                        proof {
                            lemma_decls_prefix_fails(expressions@, i + 1, off);
                        }
                        return r;
                    }
                    proof {
                        let a = emit_decls(expressions@.take(i as int), off).unwrap();
                        let b = emit_decl(*expressions@[i as int], a.2).unwrap();
                        assert(self.text_buffer@ =~= old(self).text_buffer@ + (a.0 + b.0));
                        assert(self.extern_buffer@ =~= old(self).extern_buffer@ + (a.1 + b.1));
                    }
                    i = i + 1;
                }
                proof {
                    assert(expressions@.take(i as int) =~= expressions@);
                }
                Ok(())
            },
            _ => Err(GenError::UnsupportedExpression),
        }
    }
}

} // verus!
