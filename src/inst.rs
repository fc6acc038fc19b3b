use vstd::prelude::*;

verus! {

/// The general-purpose registers that generated code names.
#[derive(Debug, Clone, Copy, PartialEq, Eq, Structural)]
pub enum Reg {
    Rax,
    Rbx,
    Rcx,
    Rdx,
    Rbp,
    Rsp,
}

/// One line of the text section: a label or an instruction.
#[derive(Debug, Clone, PartialEq, Eq)]
pub enum Instruction {
    /// `name:`
    Label(String),
    /// `mov dst, value`
    MovImm { dst: Reg, value: i64 },
    /// `mov dst, src`
    MovReg { dst: Reg, src: Reg },
    /// `mov [rbp - offset], 0`
    StoreZero { offset: usize },
    Push(Reg),
    Pop(Reg),
    /// `add dst, src`
    Add { dst: Reg, src: Reg },
    /// `sub dst, src`
    Sub { dst: Reg, src: Reg },
    /// `imul dst, src`
    IMul { dst: Reg, src: Reg },
    /// `xor dst, src`
    Xor { dst: Reg, src: Reg },
    /// `div divisor`: unsigned division of rdx:rax
    Div(Reg),
    Ret,
}

/// A straight-line sequence of instructions.
#[derive(Debug)]
pub struct Builder {
    pub instructions: Vec<Instruction>,
}

/// A symbol of a module, its name an index into the module's string pool.
#[derive(Debug)]
pub enum Label {
    ExternLabel(usize),
    GlobalLabel(usize),
    FunctionLabel { id: usize, builder: Builder },
}

/// A compilation unit: the strings that its labels refer to.
#[derive(Debug)]
pub struct Module {
    pub string_pool: Vec<String>,
}

} // verus!
