use cxc::ast::{BinaryOperator, DeclType, Expr, Mutability, Type};
use cxc::codegen::{GenError, RspTracker, State};
use cxc::diag::Diag;
use cxc::inst::{Instruction, Reg};
use cxc::lexer::Lexer;
use cxc::parser::Parser;
use cxc::token::{Span, Token, TokenType};

fn tokenize(src: &str) -> Vec<Token> {
    let mut lexer = Lexer::new(String::from(src));
    let mut tokens = Vec::new();
    loop {
        let token = lexer.next_token().expect("lexable source");
        let done = token.matches(&TokenType::Eof);
        tokens.push(token);
        if done {
            break;
        }
    }
    tokens
}

fn parse(src: &str) -> Result<Vec<DeclType>, Vec<Diag>> {
    Parser::new(tokenize(src)).parse_program()
}

fn lit(v: i64) -> Box<Expr> {
    Box::new(Expr::IntegerLiteral(v))
}

fn bin(op: BinaryOperator, lhs: Box<Expr>, rhs: Box<Expr>) -> Box<Expr> {
    Box::new(Expr::BinaryOp { op, lhs, rhs })
}

#[derive(Default)]
struct Cpu {
    rax: u64,
    rbx: u64,
    rcx: u64,
    rdx: u64,
    stack: Vec<u64>,
}

impl Cpu {
    fn get(&self, r: Reg) -> u64 {
        match r {
            Reg::Rax => self.rax,
            Reg::Rbx => self.rbx,
            Reg::Rcx => self.rcx,
            Reg::Rdx => self.rdx,
            _ => 0,
        }
    }

    fn set(&mut self, r: Reg, v: u64) {
        match r {
            Reg::Rax => self.rax = v,
            Reg::Rbx => self.rbx = v,
            Reg::Rcx => self.rcx = v,
            Reg::Rdx => self.rdx = v,
            _ => {}
        }
    }

    fn run(&mut self, code: &[Instruction]) {
        for inst in code {
            match inst {
                Instruction::MovImm { dst, value } => self.set(*dst, *value as u64),
                Instruction::MovReg { dst, src } => self.set(*dst, self.get(*src)),
                Instruction::Push(r) => self.stack.push(self.get(*r)),
                Instruction::Pop(r) => {
                    let v = self.stack.pop().unwrap();
                    self.set(*r, v);
                }
                Instruction::Add { dst, src } => self.set(*dst, self.get(*dst).wrapping_add(self.get(*src))),
                Instruction::Sub { dst, src } => self.set(*dst, self.get(*dst).wrapping_sub(self.get(*src))),
                Instruction::IMul { dst, src } => self.set(*dst, self.get(*dst).wrapping_mul(self.get(*src))),
                Instruction::Xor { dst, src } => self.set(*dst, self.get(*dst) ^ self.get(*src)),
                Instruction::Div(r) => {
                    let n = ((self.rdx as u128) << 64) | self.rax as u128;
                    let d = self.get(*r) as u128;
                    self.rax = (n / d) as u64;
                    self.rdx = (n % d) as u64;
                }
                _ => {}
            }
        }
    }
}

fn lower(e: &Expr) -> Vec<Instruction> {
    let mut state = State::new(Vec::new());
    state.gen_expr(e).expect("lowerable");
    state.text_buffer
}

#[test]
fn span_merge_takes_start_of_first_and_end_of_second() {
    let a = Span::new(1, 1, 4, 6);
    let b = Span::new(2, 3, 0, 9);
    assert_eq!(a.merge(&b), Span::new(1, 3, 4, 9));
}

#[test]
fn token_predicates() {
    let t = Token::new(TokenType::Identifier(String::from("x")), Span::new(1, 1, 0, 0));
    assert!(t.is_an_identifier());
    assert!(t.is_a_name());
    assert!(!t.is_an_integer_literal());
    assert!(t.matches(&TokenType::Identifier(String::from("x"))));
    assert!(!t.matches(&TokenType::Identifier(String::from("y"))));
    let k = Token::new(TokenType::Int, Span::new(1, 1, 0, 2));
    assert!(k.is_a_name());
    assert!(!k.is_an_identifier());
    assert_eq!(*k.get_span(), Span::new(1, 1, 0, 2));
}

#[test]
fn lexer_reads_keywords_names_numbers_and_spans() {
    let tokens = tokenize("fn main() {\n var foo: int = 40;\n}");
    let kinds: Vec<&TokenType> = tokens.iter().map(|t| t.get_type()).collect();
    assert_eq!(
        kinds,
        vec![
            &TokenType::Fn,
            &TokenType::Identifier(String::from("main")),
            &TokenType::LParen,
            &TokenType::RParen,
            &TokenType::LBrace,
            &TokenType::Var,
            &TokenType::Identifier(String::from("foo")),
            &TokenType::Colon,
            &TokenType::Int,
            &TokenType::Eq,
            &TokenType::IntegerLiteral(40),
            &TokenType::SemiColon,
            &TokenType::RBrace,
            &TokenType::Eof,
        ]
    );
    assert_eq!(*tokens[1].get_span(), Span::new(1, 1, 3, 6));
    assert_eq!(*tokens[6].get_span(), Span::new(2, 2, 5, 7));
    assert_eq!(*tokens[10].get_span(), Span::new(2, 2, 16, 17));
}

#[test]
fn lexer_reads_arrow_as_one_token() {
    let tokens = tokenize("-> -");
    assert!(tokens[0].matches(&TokenType::RArrow));
    assert!(tokens[1].matches(&TokenType::Sub));
}

#[test]
fn lexer_reports_stray_character_and_moves_on() {
    let mut lexer = Lexer::new(String::from("@ x"));
    match lexer.next_token() {
        Err(Diag::InvalidCharacter(c, span)) => {
            assert_eq!(c, '@');
            assert_eq!(span, Span::new(1, 1, 0, 0));
        }
        other => panic!("unexpected {:?}", other),
    }
    let next = lexer.next_token().unwrap();
    assert!(next.matches(&TokenType::Identifier(String::from("x"))));
}

#[test]
fn lexer_reports_number_too_large() {
    let mut lexer = Lexer::new(String::from("9223372036854775808"));
    match lexer.next_token() {
        Err(Diag::InvalidNumberFormat(text, _)) => assert_eq!(text, "9223372036854775808"),
        other => panic!("unexpected {:?}", other),
    }
    let mut lexer = Lexer::new(String::from("9223372036854775807"));
    assert!(lexer.next_token().unwrap().matches(&TokenType::IntegerLiteral(i64::MAX)));
}

#[test]
fn tracker_strides_by_rounded_size_plus_pad() {
    let mut t = RspTracker::new();
    assert_eq!(t.next_offset(32), 0);
    assert_eq!(t.next_offset(32), 40);
    assert_eq!(t.next_offset(1), 80);
    assert_eq!(t.current, 96);
}

#[test]
fn integer_literal_lowers_to_one_move() {
    let program = parse("42").unwrap();
    assert_eq!(program.len(), 1);
    let e = match &program[0] {
        DeclType::SideEffect(e) => e,
        _ => panic!("expected an expression"),
    };
    assert_eq!(*e, Expr::IntegerLiteral(42));
    assert_eq!(lower(e), vec![Instruction::MovImm { dst: Reg::Rax, value: 42 }]);
}

#[test]
fn one_push_and_pop_per_binary_node() {
    let program = parse("1 + 2 * 3 - 4").unwrap();
    let e = match &program[0] {
        DeclType::SideEffect(e) => e,
        _ => panic!("expected an expression"),
    };
    let code = lower(e);
    let pushes = code.iter().filter(|i| matches!(i, Instruction::Push(_))).count();
    let pops = code.iter().filter(|i| matches!(i, Instruction::Pop(_))).count();
    assert_eq!(pushes, 3);
    assert_eq!(pops, 3);
    let mut cpu = Cpu::default();
    cpu.run(&code);
    assert!(cpu.stack.is_empty());
    assert_eq!(cpu.rax, 3);
}

#[test]
fn subtraction_keeps_operand_order() {
    let e = bin(BinaryOperator::Sub, lit(5), lit(3));
    let code = lower(&e);
    assert!(code.contains(&Instruction::Sub { dst: Reg::Rbx, src: Reg::Rax }));
    assert_eq!(code.last(), Some(&Instruction::MovReg { dst: Reg::Rax, src: Reg::Rbx }));
    let mut cpu = Cpu::default();
    cpu.run(&code);
    assert_eq!(cpu.rax, 2);
}

#[test]
fn division_clears_remainder_register() {
    // 100 / 7 leaves a remainder of 2 in rdx before the second division.
    let e = bin(BinaryOperator::Div, bin(BinaryOperator::Div, lit(100), lit(7)), lit(2));
    let code = lower(&e);
    let mut cpu = Cpu { rdx: 0xdead, ..Cpu::default() };
    cpu.run(&code);
    assert_eq!(cpu.rax, 7);
    let tail = &code[code.len() - 4..];
    assert_eq!(
        tail,
        &[
            Instruction::Xor { dst: Reg::Rdx, src: Reg::Rdx },
            Instruction::MovReg { dst: Reg::Rcx, src: Reg::Rax },
            Instruction::MovReg { dst: Reg::Rax, src: Reg::Rbx },
            Instruction::Div(Reg::Rcx),
        ]
    );
}

#[test]
fn parser_batches_one_diagnostic_per_bad_declaration() {
    let r = parse("var a: int 5; var b: int = 1; var c int = 2; var d: int = 3;");
    match r {
        Err(diags) => {
            assert_eq!(diags.len(), 2);
            assert!(matches!(diags[0], Diag::MissingToken(TokenType::Eq, _)));
            assert!(matches!(diags[1], Diag::MissingToken(TokenType::Colon, _)));
        }
        Ok(_) => panic!("expected diagnostics"),
    }
}

#[test]
fn diagnostic_points_at_the_offending_token() {
    let r = parse("var a: int 5;");
    match r {
        Err(diags) => match &diags[0] {
            Diag::MissingToken(TokenType::Eq, span) => assert_eq!(*span, Span::new(1, 1, 11, 11)),
            other => panic!("unexpected {:?}", other),
        },
        Ok(_) => panic!("expected diagnostics"),
    }
}

#[test]
fn function_with_two_variables_round_trip() {
    let program = parse("fn main() { var foo: int = 40; var ahh: int = 50; }").unwrap();
    assert_eq!(program.len(), 1);
    match &program[0] {
        DeclType::FunctionDecl { name, func_type, params, body } => {
            assert_eq!(name, "main");
            assert_eq!(**func_type, Type::Void);
            assert!(params.is_empty());
            match body.as_deref() {
                Some(Expr::CompoundExpr { expressions }) => {
                    assert_eq!(expressions.len(), 2);
                    match &*expressions[0] {
                        DeclType::VariableDecl { name, var_type, init, mutability } => {
                            assert_eq!(name, "foo");
                            assert_eq!(**var_type, Type::Int);
                            assert_eq!(init.as_deref(), Some(&Expr::IntegerLiteral(40)));
                            assert_eq!(*mutability, Mutability::Mutable);
                        }
                        _ => panic!("expected a variable"),
                    }
                    assert!(matches!(&*expressions[1], DeclType::VariableDecl { name, .. } if name == "ahh"));
                }
                _ => panic!("expected a block body"),
            }
        }
        _ => panic!("expected a function"),
    }
    let mut state = State::new(program);
    state.generate().unwrap();
    assert!(state.extern_buffer.is_empty());
    assert_eq!(
        state.text_buffer,
        vec![
            Instruction::Label(String::from("main")),
            Instruction::Push(Reg::Rbp),
            Instruction::MovReg { dst: Reg::Rbp, src: Reg::Rsp },
            Instruction::StoreZero { offset: 0 },
            Instruction::StoreZero { offset: 40 },
            Instruction::MovReg { dst: Reg::Rsp, src: Reg::Rbp },
            Instruction::Pop(Reg::Rbp),
            Instruction::Ret,
        ]
    );
}

#[test]
fn forward_declaration_becomes_an_external_symbol() {
    let program = parse("fn foo();").unwrap();
    assert_eq!(program.len(), 1);
    assert!(matches!(&program[0], DeclType::FunctionDecl { name, body: None, .. } if name == "foo"));
    let mut state = State::new(program);
    state.generate().unwrap();
    assert_eq!(state.extern_buffer, vec![String::from("foo")]);
    assert!(state.text_buffer.is_empty());
}

#[test]
fn function_parameters_and_return_type() {
    let program = parse("fn add(a: int, b: char) -> int;").unwrap();
    match &program[0] {
        DeclType::FunctionDecl { params, func_type, body: None, .. } => {
            assert_eq!(params.len(), 2);
            assert_eq!(params[0].name.as_deref(), Some("a"));
            assert_eq!(*params[1].ptype, Type::Char);
            assert_eq!(**func_type, Type::Int);
        }
        _ => panic!("expected a forward declaration"),
    }
}

#[test]
fn named_type_with_stars_is_a_pointer_chain() {
    let program = parse("var const p: node** = 0;").unwrap();
    match &program[0] {
        DeclType::VariableDecl { var_type, mutability, .. } => {
            assert_eq!(*mutability, Mutability::Immutable);
            let inner = Type::PointerType { to: Box::new(Type::TypeName(String::from("node"))) };
            assert_eq!(**var_type, Type::PointerType { to: Box::new(inner) });
        }
        _ => panic!("expected a variable"),
    }
}

#[test]
fn unsupported_call_is_an_error() {
    let call = Expr::Call { func: Box::new(Expr::Identifier(String::from("foo"))), args: Vec::new() };
    let body = Expr::CompoundExpr { expressions: vec![Box::new(DeclType::SideEffect(call))] };
    let program = vec![DeclType::FunctionDecl {
        name: String::from("main"),
        func_type: Type::new_void(),
        params: Vec::new(),
        body: Some(Box::new(body)),
    }];
    let mut state = State::new(program);
    assert_eq!(state.generate(), Err(GenError::UnsupportedDeclaration));
    let mut state = State::new(Vec::new());
    let call = Expr::Call { func: Box::new(Expr::Identifier(String::from("foo"))), args: Vec::new() };
    assert_eq!(state.gen_expr(&call), Err(GenError::UnsupportedExpression));
}

#[test]
fn unsupported_operator_is_an_error() {
    let mut state = State::new(Vec::new());
    let e = bin(BinaryOperator::Lt, lit(1), lit(2));
    assert_eq!(state.gen_expr(&e), Err(GenError::UnsupportedOperator(BinaryOperator::Lt)));
}

#[test]
fn early_end_of_input_is_reported() {
    match parse("fn main() {") {
        Err(diags) => {
            assert_eq!(diags.len(), 1);
            assert!(matches!(diags[0], Diag::EarlyEOF(_)));
        }
        Ok(_) => panic!("expected diagnostics"),
    }
}

#[test]
fn precedence_binds_multiplication_tighter() {
    let program = parse("1 + 2 * 3").unwrap();
    let expected = bin(BinaryOperator::Add, lit(1), bin(BinaryOperator::Mul, lit(2), lit(3)));
    assert!(matches!(&program[0], DeclType::SideEffect(e) if *e == *expected));
}

#[test]
fn type_helpers() {
    assert!(Type::new_int().is_integer());
    assert!(Type::new_char().is_integer());
    assert!(Type::new_integer(16, true).is_integer());
    assert!(!Type::new_void().is_integer());
    assert!(!Type::new_pointer(Type::new_int()).is_integer());
}

#[test]
fn missing_function_name_is_reported() {
    match parse("fn (a: int);") {
        Err(diags) => {
            assert_eq!(diags.len(), 1);
            match &diags[0] {
                Diag::MissingIdentifier(span) => assert_eq!(*span, Span::new(1, 1, 3, 3)),
                other => panic!("unexpected {:?}", other),
            }
        }
        Ok(_) => panic!("expected diagnostics"),
    }
}

#[test]
fn unexpected_token_in_expression_is_reported() {
    match parse("var x: int = ;") {
        Err(diags) => {
            assert_eq!(diags.len(), 1);
            assert!(matches!(diags[0], Diag::UnexpectedToken(TokenType::SemiColon, _)));
        }
        Ok(_) => panic!("expected diagnostics"),
    }
}

#[test]
fn frame_overflow_is_an_error() {
    let program = vec![DeclType::VariableDecl {
        name: String::from("x"),
        var_type: Type::new_int(),
        init: Some(lit(1)),
        mutability: Mutability::Mutable,
    }];
    let mut state = State::new(program);
    state.rsp_tracker.current = usize::MAX - 10;
    assert_eq!(state.generate(), Err(GenError::FrameTooLarge));
}

#[test]
fn empty_program_generates_nothing() {
    let program = parse("").unwrap();
    assert!(program.is_empty());
    let mut state = State::new(program);
    state.generate().unwrap();
    assert!(state.text_buffer.is_empty());
    assert!(state.extern_buffer.is_empty());
}
