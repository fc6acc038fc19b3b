use vstd::prelude::*;
use crate::ast::Expr;
use crate::codegen::emit_expr;
use crate::diag::Diag;
use crate::grammar::{
    expr_view, kind_at, level_op, parse_outcome, sp_binary, sp_binary_rest, sp_decl, sp_expr,
    sp_program, sp_unary, DeclV, ExprV, Level,
};
use crate::inst::{Instruction, Reg};
use crate::token::{Token, TokenType};

verus! {

/// A token stream that holds a single integer literal parses to one
/// declaration, that literal; and whatever expression has that shape lowers
/// to exactly one instruction, which moves the literal into rax.
pub proof fn lemma_single_literal(ts: Seq<Token>, v: i64, e: Expr, off: int)
    requires
        ts.len() >= 1,
        ts[0].token_type == TokenType::IntegerLiteral(v),
        ts.len() == 1 || ts[1].token_type is Eof,
        expr_view(e) == ExprV::IntegerLiteral(v),
    ensures
        parse_outcome(ts, 0) == Ok::<Seq<DeclV>, Seq<Diag>>(
            seq![DeclV::SideEffect(ExprV::IntegerLiteral(v))],
        ),
        emit_expr(e, off) == Some(
            (seq![Instruction::MovImm { dst: Reg::Rax, value: v }], Seq::<String>::empty(), off),
        ),
{
    reveal_with_fuel(sp_binary_rest, 2);
    reveal_with_fuel(sp_program, 2);
    assert(sp_unary(ts, 0) == Ok::<(ExprV, int), (Diag, int)>((ExprV::IntegerLiteral(v), 1)));
    let lit = Ok::<(ExprV, int), (Diag, int)>((ExprV::IntegerLiteral(v), 1));
    assert(level_op(Level::Multiplicative, kind_at(ts, 1)) is None);
    assert(sp_binary_rest(ts, Level::Multiplicative, ExprV::IntegerLiteral(v), 1) == lit);
    assert(sp_binary(ts, Level::Multiplicative, 0) == lit);
    assert(level_op(Level::Additive, kind_at(ts, 1)) is None);
    assert(sp_binary_rest(ts, Level::Additive, ExprV::IntegerLiteral(v), 1) == lit);
    assert(sp_binary(ts, Level::Additive, 0) == lit);
    assert(level_op(Level::Relational, kind_at(ts, 1)) is None);
    assert(sp_binary_rest(ts, Level::Relational, ExprV::IntegerLiteral(v), 1) == lit);
    assert(sp_binary(ts, Level::Relational, 0) == lit);
    assert(level_op(Level::Equality, kind_at(ts, 1)) is None);
    assert(sp_binary_rest(ts, Level::Equality, ExprV::IntegerLiteral(v), 1) == lit);
    assert(sp_binary(ts, Level::Equality, 0) == lit);
    assert(level_op(Level::LogicalAnd, kind_at(ts, 1)) is None);
    assert(sp_binary_rest(ts, Level::LogicalAnd, ExprV::IntegerLiteral(v), 1) == lit);
    assert(sp_binary(ts, Level::LogicalAnd, 0) == lit);
    assert(level_op(Level::LogicalOr, kind_at(ts, 1)) is None);
    assert(sp_binary_rest(ts, Level::LogicalOr, ExprV::IntegerLiteral(v), 1) == lit);
    assert(sp_binary(ts, Level::LogicalOr, 0) == lit);
    assert(sp_expr(ts, 0) == Ok::<(ExprV, int), (Diag, int)>((ExprV::IntegerLiteral(v), 1)));
    assert(sp_decl(ts, 0) == Ok::<(DeclV, int), (Diag, int)>((DeclV::SideEffect(ExprV::IntegerLiteral(v)), 1)));
    assert(seq![DeclV::SideEffect(ExprV::IntegerLiteral(v))] =~= Seq::<DeclV>::empty().push(DeclV::SideEffect(ExprV::IntegerLiteral(v))));
    match e {
        Expr::IntegerLiteral(w) => {},
        _ => {},
    }
}

} // verus!
