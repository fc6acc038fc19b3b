use vstd::prelude::*;
use crate::inst::{Instruction, Reg};
use crate::token::{Token, TokenType};

verus! {

pub open spec fn digit_char(d: int) -> char {
    if d == 0 {
        '0'
    } else if d == 1 {
        '1'
    } else if d == 2 {
        '2'
    } else if d == 3 {
        '3'
    } else if d == 4 {
        '4'
    } else if d == 5 {
        '5'
    } else if d == 6 {
        '6'
    } else if d == 7 {
        '7'
    } else if d == 8 {
        '8'
    } else if d == 9 {
        '9'
    } else {
        '?'
    }
}

/// The decimal digits of `n`, most significant first.
pub open spec fn digits_of(n: nat) -> Seq<char>
    decreases n,
{
    if n < 10 {
        seq![digit_char(n as int)]
    } else {
        digits_of(n / 10).push(digit_char((n % 10) as int))
    }
}

/// `v` in decimal, with a leading `-` when negative.
pub open spec fn decimal(v: int) -> Seq<char> {
    if v < 0 {
        seq!['-'] + digits_of((-v) as nat)
    } else {
        digits_of(v as nat)
    }
}

fn digit_str(d: u64) -> (r: &'static str)
    requires
        d < 10,
    ensures
        r@ == seq![digit_char(d as int)],
{
    proof {
        reveal_strlit("0");
        reveal_strlit("1");
        reveal_strlit("2");
        reveal_strlit("3");
        reveal_strlit("4");
        reveal_strlit("5");
        reveal_strlit("6");
        reveal_strlit("7");
        reveal_strlit("8");
        reveal_strlit("9");
    }
    match d {
        0 => "0",
        1 => "1",
        2 => "2",
        3 => "3",
        4 => "4",
        5 => "5",
        6 => "6",
        7 => "7",
        8 => "8",
        9 => "9",
        _ => "9",
    }
}

fn digits_text(n: u64) -> (r: String)
    ensures
        r@ == digits_of(n as nat),
    decreases n,
{
    if n < 10 {
        String::from_str(digit_str(n))
    } else {
        let mut s = digits_text(n / 10);
        s.append(digit_str(n % 10));
        s
    }
}

/// `v` written in decimal.
pub fn decimal_text(v: i64) -> (r: String)
    ensures
        r@ == decimal(v as int),
{
    if v < 0 {
        let magnitude: u64 = if v == i64::MIN { 9223372036854775808 } else { (-v) as u64 };
        let mut s = String::from_str("-");
        proof {
            reveal_strlit("-");
        }
        let digits = digits_text(magnitude);
        s.append(digits.as_str());
        s
    } else {
        digits_text(v as u64)
    }
}

/// How a token type is shown in messages.
pub open spec fn display_text(t: TokenType) -> Seq<char> {
    match t {
        TokenType::Identifier(n) => "identifier("@ + n@ + ")"@,
        TokenType::IntegerLiteral(v) => "integer("@ + decimal(v as int) + ")"@,
        TokenType::Fn => "fn"@,
        TokenType::Var => "var"@,
        TokenType::Int => "int"@,
        TokenType::Char => "char"@,
        TokenType::Struct => "struct"@,
        TokenType::Enum => "enum"@,
        TokenType::Return => "return"@,
        TokenType::If => "if"@,
        TokenType::Else => "else"@,
        TokenType::While => "while"@,
        TokenType::For => "for"@,
        TokenType::Break => "break"@,
        TokenType::Continue => "continue"@,
        TokenType::Void => "void"@,
        TokenType::Const => "const"@,
        TokenType::Static => "static"@,
        TokenType::Extern => "Extern"@,
        TokenType::Typedef => "typedef"@,
        TokenType::Sizeof => "sizeof"@,
        TokenType::Switch => "switch"@,
        TokenType::Case => "case"@,
        TokenType::Default => "default"@,
        TokenType::Do => "do"@,
        TokenType::Goto => "goto"@,
        TokenType::Union => "union"@,
        TokenType::Add => "+"@,
        TokenType::Sub => "-"@,
        TokenType::Mul => "*"@,
        TokenType::Div => "/"@,
        TokenType::Eq => "="@,
        TokenType::Neq => "!="@,
        TokenType::Lt => "<"@,
        TokenType::Gt => ">"@,
        TokenType::Leq => "<="@,
        TokenType::Geq => ">="@,
        TokenType::Assign => ":="@,
        TokenType::And => "&&"@,
        TokenType::Or => "||"@,
        TokenType::Not => "!"@,
        TokenType::Inc => "++"@,
        TokenType::Dec => "--"@,
        TokenType::AddrOf => "&"@,
        TokenType::Deref => "*"@,
        TokenType::Mod => "%"@,
        TokenType::Xor => "^"@,
        TokenType::Shl => "<<"@,
        TokenType::Shr => ">>"@,
        TokenType::LParen => "("@,
        TokenType::RParen => ")"@,
        TokenType::LBrace => "{"@,
        TokenType::RBrace => "}"@,
        TokenType::SemiColon => ";"@,
        TokenType::Colon => ":"@,
        TokenType::Comma => ","@,
        TokenType::LArrow => "<-"@,
        TokenType::RArrow => "->"@,
        TokenType::Eof => "EOF"@,
    }
}

impl Token {
    /// The token's type as shown in messages.
    pub fn display(&self) -> (r: String)
        ensures
            r@ == display_text(self.token_type),
    {
        match &self.token_type {
            TokenType::Identifier(name) => {
                let mut s = String::from_str("identifier(");
                s.append(name.as_str());
                s.append(")");
                s
            },
            TokenType::IntegerLiteral(value) => {
                let mut s = String::from_str("integer(");
                let digits = decimal_text(*value);
                s.append(digits.as_str());
                s.append(")");
                s
            },
            TokenType::Fn => String::from_str("fn"),
            TokenType::Var => String::from_str("var"),
            TokenType::Int => String::from_str("int"),
            TokenType::Char => String::from_str("char"),
            TokenType::Struct => String::from_str("struct"),
            TokenType::Enum => String::from_str("enum"),
            TokenType::Return => String::from_str("return"),
            TokenType::If => String::from_str("if"),
            TokenType::Else => String::from_str("else"),
            TokenType::While => String::from_str("while"),
            TokenType::For => String::from_str("for"),
            TokenType::Break => String::from_str("break"),
            TokenType::Continue => String::from_str("continue"),
            TokenType::Void => String::from_str("void"),
            TokenType::Const => String::from_str("const"),
            TokenType::Static => String::from_str("static"),
            TokenType::Extern => String::from_str("Extern"),
            TokenType::Typedef => String::from_str("typedef"),
            TokenType::Sizeof => String::from_str("sizeof"),
            TokenType::Switch => String::from_str("switch"),
            TokenType::Case => String::from_str("case"),
            TokenType::Default => String::from_str("default"),
            TokenType::Do => String::from_str("do"),
            TokenType::Goto => String::from_str("goto"),
            TokenType::Union => String::from_str("union"),
            TokenType::Add => String::from_str("+"),
            TokenType::Sub => String::from_str("-"),
            TokenType::Mul => String::from_str("*"),
            TokenType::Div => String::from_str("/"),
            TokenType::Eq => String::from_str("="),
            TokenType::Neq => String::from_str("!="),
            TokenType::Lt => String::from_str("<"),
            TokenType::Gt => String::from_str(">"),
            TokenType::Leq => String::from_str("<="),
            TokenType::Geq => String::from_str(">="),
            TokenType::Assign => String::from_str(":="),
            TokenType::And => String::from_str("&&"),
            TokenType::Or => String::from_str("||"),
            TokenType::Not => String::from_str("!"),
            TokenType::Inc => String::from_str("++"),
            TokenType::Dec => String::from_str("--"),
            TokenType::AddrOf => String::from_str("&"),
            TokenType::Deref => String::from_str("*"),
            TokenType::Mod => String::from_str("%"),
            TokenType::Xor => String::from_str("^"),
            TokenType::Shl => String::from_str("<<"),
            TokenType::Shr => String::from_str(">>"),
            TokenType::LParen => String::from_str("("),
            TokenType::RParen => String::from_str(")"),
            TokenType::LBrace => String::from_str("{"),
            TokenType::RBrace => String::from_str("}"),
            TokenType::SemiColon => String::from_str(";"),
            TokenType::Colon => String::from_str(":"),
            TokenType::Comma => String::from_str(","),
            TokenType::LArrow => String::from_str("<-"),
            TokenType::RArrow => String::from_str("->"),
            TokenType::Eof => String::from_str("EOF"),
        }
    }
}

pub open spec fn reg_text(r: Reg) -> Seq<char> {
    match r {
        Reg::Rax => "rax"@,
        Reg::Rbx => "rbx"@,
        Reg::Rcx => "rcx"@,
        Reg::Rdx => "rdx"@,
        Reg::Rbp => "rbp"@,
        Reg::Rsp => "rsp"@,
    }
}

fn reg_name(r: Reg) -> (s: &'static str)
    ensures
        s@ == reg_text(r),
{
    match r {
        Reg::Rax => "rax",
        Reg::Rbx => "rbx",
        Reg::Rcx => "rcx",
        Reg::Rdx => "rdx",
        Reg::Rbp => "rbp",
        Reg::Rsp => "rsp",
    }
}

/// `    mnemonic dst, src`
pub open spec fn two_operand_text(mnemonic: Seq<char>, dst: Reg, src: Reg) -> Seq<char> {
    "    "@ + mnemonic + " "@ + reg_text(dst) + ", "@ + reg_text(src)
}

/// The assembly line of an instruction: labels flush left, instructions
/// indented by four spaces.
pub open spec fn line_text(i: Instruction) -> Seq<char> {
    match i {
        Instruction::Label(n) => n@ + ":"@,
        Instruction::MovImm { dst, value } => "    mov "@ + reg_text(dst) + ", "@ + decimal(value as int),
        Instruction::MovReg { dst, src } => two_operand_text("mov"@, dst, src),
        Instruction::StoreZero { offset } => "    mov [rbp - "@ + decimal(offset as int) + "], 0"@,
        Instruction::Push(r) => "    push "@ + reg_text(r),
        Instruction::Pop(r) => "    pop "@ + reg_text(r),
        Instruction::Add { dst, src } => two_operand_text("add"@, dst, src),
        Instruction::Sub { dst, src } => two_operand_text("sub"@, dst, src),
        Instruction::IMul { dst, src } => two_operand_text("imul"@, dst, src),
        Instruction::Xor { dst, src } => two_operand_text("xor"@, dst, src),
        Instruction::Div(r) => "    div "@ + reg_text(r),
        Instruction::Ret => "    ret"@,
    }
}

fn two_operand(mnemonic: &str, dst: Reg, src: Reg) -> (r: String)
    ensures
        r@ == two_operand_text(mnemonic@, dst, src),
{
    let mut s = String::from_str("    ");
    s.append(mnemonic);
    s.append(" ");
    s.append(reg_name(dst));
    s.append(", ");
    s.append(reg_name(src));
    s
}

impl Instruction {
    /// The instruction as a line of assembly.
    pub fn render(&self) -> (r: String)
        ensures
            r@ == line_text(*self),
    {
        match self {
            Instruction::Label(n) => {
                let mut s = String::from_str(n.as_str());
                s.append(":");
                s
            },
            Instruction::MovImm { dst, value } => {
                let mut s = String::from_str("    mov ");
                s.append(reg_name(*dst));
                s.append(", ");
                let v = decimal_text(*value);
                s.append(v.as_str());
                s
            },
            Instruction::MovReg { dst, src } => two_operand("mov", *dst, *src),
            Instruction::StoreZero { offset } => {
                let mut s = String::from_str("    mov [rbp - ");
                let v = digits_text(*offset as u64);
                s.append(v.as_str());
                s.append("], 0");
                s
            },
            Instruction::Push(r) => String::from_str("    push ").concat(reg_name(*r)),
            Instruction::Pop(r) => String::from_str("    pop ").concat(reg_name(*r)),
            Instruction::Add { dst, src } => two_operand("add", *dst, *src),
            Instruction::Sub { dst, src } => two_operand("sub", *dst, *src),
            Instruction::IMul { dst, src } => two_operand("imul", *dst, *src),
            Instruction::Xor { dst, src } => two_operand("xor", *dst, *src),
            Instruction::Div(r) => String::from_str("    div ").concat(reg_name(*r)),
            Instruction::Ret => String::from_str("    ret"),
        }
    }
}

} // verus!
