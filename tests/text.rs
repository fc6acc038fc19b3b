use cxc::inst::{Instruction, Reg};
use cxc::text::decimal_text;
use cxc::token::{Span, Token, TokenType};

fn tok(t: TokenType) -> Token {
    Token::new(t, Span::new(1, 1, 0, 0))
}

#[test]
fn display_shows_payloads() {
    assert_eq!(tok(TokenType::Identifier(String::from("foo"))).display(), "identifier(foo)");
    assert_eq!(tok(TokenType::IntegerLiteral(40)).display(), "integer(40)");
    assert_eq!(tok(TokenType::IntegerLiteral(-7)).display(), "integer(-7)");
    assert_eq!(tok(TokenType::Fn).display(), "fn");
    assert_eq!(tok(TokenType::Eq).display(), "=");
    assert_eq!(tok(TokenType::Eof).display(), "EOF");
    assert_eq!(tok(TokenType::SemiColon).display(), ";");
}

#[test]
fn decimal_text_of_extremes() {
    assert_eq!(decimal_text(0), "0");
    assert_eq!(decimal_text(1234567890), "1234567890");
    assert_eq!(decimal_text(i64::MAX), "9223372036854775807");
    assert_eq!(decimal_text(i64::MIN), "-9223372036854775808");
}

#[test]
fn instructions_render_as_assembly_lines() {
    assert_eq!(Instruction::Label(String::from("main")).render(), "main:");
    assert_eq!(Instruction::MovImm { dst: Reg::Rax, value: 5 }.render(), "    mov rax, 5");
    assert_eq!(Instruction::MovReg { dst: Reg::Rbp, src: Reg::Rsp }.render(), "    mov rbp, rsp");
    assert_eq!(Instruction::StoreZero { offset: 40 }.render(), "    mov [rbp - 40], 0");
    assert_eq!(Instruction::Push(Reg::Rax).render(), "    push rax");
    assert_eq!(Instruction::Pop(Reg::Rbx).render(), "    pop rbx");
    assert_eq!(Instruction::Sub { dst: Reg::Rbx, src: Reg::Rax }.render(), "    sub rbx, rax");
    assert_eq!(Instruction::IMul { dst: Reg::Rax, src: Reg::Rbx }.render(), "    imul rax, rbx");
    assert_eq!(Instruction::Xor { dst: Reg::Rdx, src: Reg::Rdx }.render(), "    xor rdx, rdx");
    assert_eq!(Instruction::Div(Reg::Rcx).render(), "    div rcx");
    assert_eq!(Instruction::Ret.render(), "    ret");
}
