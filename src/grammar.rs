use vstd::prelude::*;
use crate::ast::{BinaryOperator, DeclType, Expr, Mutability, Parameter, TakeType, Type, UnaryOperator};
use crate::diag::Diag;
use crate::token::{Span, Token, TokenType};

verus! {

/// An expression tree with its lists as sequences.
pub enum ExprV {
    IntegerLiteral(i64),
    Identifier(String),
    Variable(String),
    BinaryOp { op: BinaryOperator, lhs: Box<ExprV>, rhs: Box<ExprV> },
    UnaryOp { op: UnaryOperator, expr: Box<ExprV> },
    Call { func: Box<ExprV>, args: Seq<ExprV> },
    CompoundExpr { expressions: Seq<DeclV> },
}

/// A declaration with its lists as sequences.
pub enum DeclV {
    FunctionDecl {
        name: String,
        func_type: Box<Type>,
        params: Seq<Parameter>,
        body: Option<ExprV>,
    },
    VariableDecl {
        name: String,
        var_type: Box<Type>,
        init: Option<ExprV>,
        mutability: Mutability,
    },
    SideEffect(ExprV),
}

pub open spec fn expr_view(e: Expr) -> ExprV
    decreases e,
{
    match e {
        Expr::IntegerLiteral(v) => ExprV::IntegerLiteral(v),
        Expr::Identifier(n) => ExprV::Identifier(n),
        Expr::Variable(n) => ExprV::Variable(n),
        Expr::BinaryOp { op, lhs, rhs } => ExprV::BinaryOp {
            op,
            lhs: Box::new(expr_view(*lhs)),
            rhs: Box::new(expr_view(*rhs)),
        },
        Expr::UnaryOp { op, expr } => ExprV::UnaryOp { op, expr: Box::new(expr_view(*expr)) },
        Expr::Call { func, args } => ExprV::Call {
            func: Box::new(expr_view(*func)),
            args: exprs_view(args@),
        },
        Expr::CompoundExpr { expressions } => ExprV::CompoundExpr {
            expressions: decls_view(expressions@),
        },
    }
}

pub open spec fn exprs_view(es: Seq<Expr>) -> Seq<ExprV>
    decreases es,
{
    if es.len() == 0 {
        Seq::empty()
    } else {
        exprs_view(es.drop_last()).push(expr_view(es.last()))
    }
}

pub open spec fn decls_view(ds: Seq<Box<DeclType>>) -> Seq<DeclV>
    decreases ds,
{
    if ds.len() == 0 {
        Seq::empty()
    } else {
        decls_view(ds.drop_last()).push(decl_view(*ds.last()))
    }
}

pub open spec fn decl_view(d: DeclType) -> DeclV
    decreases d,
{
    match d {
        DeclType::FunctionDecl { name, func_type, params, body } => DeclV::FunctionDecl {
            name,
            func_type,
            params: params@,
            body: match body {
                Some(b) => Some(expr_view(*b)),
                None => None,
            },
        },
        DeclType::VariableDecl { name, var_type, init, mutability } => DeclV::VariableDecl {
            name,
            var_type,
            init: match init {
                Some(b) => Some(expr_view(*b)),
                None => None,
            },
            mutability,
        },
        DeclType::SideEffect(e) => DeclV::SideEffect(expr_view(e)),
    }
}

/// The token type at `p`; past the end the stream reads as ended.
pub open spec fn kind_at(ts: Seq<Token>, p: int) -> TokenType {
    if 0 <= p < ts.len() {
        ts[p].token_type
    } else {
        TokenType::Eof
    }
}

pub open spec fn default_span() -> Span {
    Span { start_line: 1, end_line: 1, start_col: 0, end_col: 0 }
}

/// Where a diagnostic at `p` points: that token, else the last one.
pub open spec fn span_at(ts: Seq<Token>, p: int) -> Span {
    if 0 <= p < ts.len() {
        ts[p].span
    } else if ts.len() > 0 {
        ts.last().span
    } else {
        default_span()
    }
}

/// A parse outcome: the value and the position after it, or a diagnostic
/// and the position where it arose.
pub type Parsed<T> = Result<(T, int), (Diag, int)>;

/// The error for a missing `expected` at `p`: an early end where the stream
/// has ended.
pub open spec fn missing(ts: Seq<Token>, expected: TokenType, p: int) -> (Diag, int) {
    if kind_at(ts, p) is Eof {
        (Diag::EarlyEOF(span_at(ts, p)), p)
    } else {
        (Diag::MissingToken(expected, span_at(ts, p)), p)
    }
}

/// The binary precedence levels, loosest first.
#[derive(Debug, Clone, Copy, PartialEq, Eq, Structural)]
pub enum Level {
    LogicalOr,
    LogicalAnd,
    Equality,
    Relational,
    Additive,
    Multiplicative,
}

pub open spec fn rank(l: Level) -> int {
    match l {
        Level::LogicalOr => 6,
        Level::LogicalAnd => 5,
        Level::Equality => 4,
        Level::Relational => 3,
        Level::Additive => 2,
        Level::Multiplicative => 1,
    }
}

/// The next tighter level; below multiplication come the unary operators.
pub open spec fn tighter(l: Level) -> Option<Level> {
    match l {
        Level::LogicalOr => Some(Level::LogicalAnd),
        Level::LogicalAnd => Some(Level::Equality),
        Level::Equality => Some(Level::Relational),
        Level::Relational => Some(Level::Additive),
        Level::Additive => Some(Level::Multiplicative),
        Level::Multiplicative => None,
    }
}

/// The binary operator that token `t` stands for at level `l`, if any.
pub open spec fn level_op(l: Level, t: TokenType) -> Option<BinaryOperator> {
    match (l, t) {
        (Level::LogicalOr, TokenType::Or) => Some(BinaryOperator::Or),
        (Level::LogicalAnd, TokenType::And) => Some(BinaryOperator::And),
        (Level::Equality, TokenType::Eq) => Some(BinaryOperator::Eq),
        (Level::Equality, TokenType::Neq) => Some(BinaryOperator::Neq),
        (Level::Relational, TokenType::Lt) => Some(BinaryOperator::Lt),
        (Level::Relational, TokenType::Gt) => Some(BinaryOperator::Gt),
        (Level::Relational, TokenType::Leq) => Some(BinaryOperator::Leq),
        (Level::Relational, TokenType::Geq) => Some(BinaryOperator::Geq),
        (Level::Additive, TokenType::Add) => Some(BinaryOperator::Add),
        (Level::Additive, TokenType::Sub) => Some(BinaryOperator::Sub),
        (Level::Multiplicative, TokenType::Mul) => Some(BinaryOperator::Mul),
        (Level::Multiplicative, TokenType::Div) => Some(BinaryOperator::Div),
        (Level::Multiplicative, TokenType::Mod) => Some(BinaryOperator::Mod),
        _ => None,
    }
}

/// The prefix operator that token `t` stands for, if any.
pub open spec fn unary_op(t: TokenType) -> Option<UnaryOperator> {
    match t {
        TokenType::Sub => Some(UnaryOperator::Neg),
        TokenType::Not => Some(UnaryOperator::Not),
        TokenType::Mul => Some(UnaryOperator::Deref),
        TokenType::And => Some(UnaryOperator::AddrOf),
        _ => None,
    }
}

/// How many `*` tokens follow one another from `p`.
pub open spec fn stars(ts: Seq<Token>, p: int) -> nat
    decreases ts.len() - p,
{
    if 0 <= p < ts.len() && ts[p].token_type is Mul {
        1 + stars(ts, p + 1)
    } else {
        0
    }
}

/// `t` under `n` pointer layers.
pub open spec fn pointer_to(t: Type, n: nat) -> Type
    decreases n,
{
    if n == 0 {
        t
    } else {
        Type::PointerType { to: Box::new(pointer_to(t, (n - 1) as nat)) }
    }
}

/// A type: `int`, `char`, `void`, or a name followed by any number of `*`.
pub open spec fn sp_type(ts: Seq<Token>, p: int) -> Parsed<Type> {
    match kind_at(ts, p) {
        TokenType::Int => Ok((Type::Int, p + 1)),
        TokenType::Char => Ok((Type::Char, p + 1)),
        TokenType::Void => Ok((Type::Void, p + 1)),
        TokenType::Identifier(n) => Ok(
            (pointer_to(Type::TypeName(n), stars(ts, p + 1)), p + 1 + stars(ts, p + 1)),
        ),
        TokenType::Eof => Err((Diag::EarlyEOF(span_at(ts, p)), p)),
        t => Err((Diag::UnexpectedToken(t, span_at(ts, p)), p)),
    }
}

/// An expression: the loosest binary level.
pub open spec fn sp_expr(ts: Seq<Token>, p: int) -> Parsed<ExprV>
    decreases ts.len() - p, 17int,
{
    sp_binary(ts, Level::LogicalOr, p)
}

/// An operand of level `l`: the next tighter level, or a unary expression.
pub open spec fn sp_binary(ts: Seq<Token>, l: Level, p: int) -> Parsed<ExprV>
    decreases ts.len() - p, 4 + 2 * rank(l),
{
    let first = match tighter(l) {
        Some(t) => sp_binary(ts, t, p),
        None => sp_unary(ts, p),
    };
    match first {
        Ok((left, mid)) => if p <= mid <= ts.len() {
            sp_binary_rest(ts, l, left, mid)
        } else {
            Ok((left, mid))
        },
        Err(e) => Err(e),
    }
}

/// Folds operators of level `l` onto `left`, from the left.
pub open spec fn sp_binary_rest(ts: Seq<Token>, l: Level, left: ExprV, p: int) -> Parsed<ExprV>
    decreases ts.len() - p, 3 + 2 * rank(l),
{
    match level_op(l, kind_at(ts, p)) {
        Some(op) => if 0 <= p < ts.len() {
            let right = match tighter(l) {
                Some(t) => sp_binary(ts, t, p + 1),
                None => sp_unary(ts, p + 1),
            };
            match right {
                Ok((r, after)) => {
                    let e = ExprV::BinaryOp { op, lhs: Box::new(left), rhs: Box::new(r) };
                    if p < after <= ts.len() {
                        sp_binary_rest(ts, l, e, after)
                    } else {
                        Ok((e, after))
                    }
                },
                Err(e) => Err(e),
            }
        } else {
            Ok((left, p))
        },
        None => Ok((left, p)),
    }
}

/// Prefix operators, right-recursive, over a primary expression.
pub open spec fn sp_unary(ts: Seq<Token>, p: int) -> Parsed<ExprV>
    decreases ts.len() - p, 4int,
{
    match unary_op(kind_at(ts, p)) {
        Some(op) => if 0 <= p < ts.len() {
            match sp_unary(ts, p + 1) {
                Ok((e, after)) => Ok((ExprV::UnaryOp { op, expr: Box::new(e) }, after)),
                Err(e) => Err(e),
            }
        } else {
            Err((Diag::EarlyEOF(span_at(ts, p)), p))
        },
        None => sp_primary(ts, p),
    }
}

/// An integer literal, a name, or a block in braces.
pub open spec fn sp_primary(ts: Seq<Token>, p: int) -> Parsed<ExprV>
    decreases ts.len() - p, 3int,
{
    match kind_at(ts, p) {
        TokenType::IntegerLiteral(v) => Ok((ExprV::IntegerLiteral(v), p + 1)),
        TokenType::Identifier(n) => Ok((ExprV::Identifier(n), p + 1)),
        TokenType::LBrace => if 0 <= p < ts.len() {
            sp_block(ts, p + 1, Seq::empty())
        } else {
            Err((Diag::EarlyEOF(span_at(ts, p)), p))
        },
        TokenType::Eof => Err((Diag::EarlyEOF(span_at(ts, p)), p)),
        t => Err((Diag::UnexpectedToken(t, span_at(ts, p)), p)),
    }
}

/// The declarations of a block up to its closing brace; `items` are those
/// read so far.
pub open spec fn sp_block(ts: Seq<Token>, p: int, items: Seq<DeclV>) -> Parsed<ExprV>
    decreases ts.len() - p, 21int,
{
    match kind_at(ts, p) {
        TokenType::RBrace => Ok((ExprV::CompoundExpr { expressions: items }, p + 1)),
        TokenType::Eof => Err((Diag::EarlyEOF(span_at(ts, p)), p)),
        _ => match sp_decl(ts, p) {
            Ok((d, after)) => if p < after <= ts.len() {
                sp_block(ts, after, items.push(d))
            } else {
                Err((Diag::EarlyEOF(span_at(ts, after)), after))
            },
            Err(e) => Err(e),
        },
    }
}

/// A declaration: a function after `fn`, a variable after `var`, else an
/// expression kept for its side effect, with an optional `;` after it.
pub open spec fn sp_decl(ts: Seq<Token>, p: int) -> Parsed<DeclV>
    decreases ts.len() - p, 20int,
{
    match kind_at(ts, p) {
        TokenType::Fn => if 0 <= p < ts.len() {
            sp_function(ts, p + 1)
        } else {
            Err((Diag::EarlyEOF(span_at(ts, p)), p))
        },
        TokenType::Var => if 0 <= p < ts.len() {
            sp_variable(ts, p + 1)
        } else {
            Err((Diag::EarlyEOF(span_at(ts, p)), p))
        },
        _ => match sp_expr(ts, p) {
            Ok((e, mid)) => if kind_at(ts, mid) is SemiColon {
                Ok((DeclV::SideEffect(e), mid + 1))
            } else {
                Ok((DeclV::SideEffect(e), mid))
            },
            Err(e) => Err(e),
        },
    }
}

/// `name ( params ) [-> type] ( ; | { ... } )`, after `fn`.
pub open spec fn sp_function(ts: Seq<Token>, p: int) -> Parsed<DeclV>
    decreases ts.len() - p, 19int,
{
    match kind_at(ts, p) {
        TokenType::Identifier(name) => if !(kind_at(ts, p + 1) is LParen) {
            Err(missing(ts, TokenType::LParen, p + 1))
        } else {
            match sp_params(ts, p + 2, Seq::empty()) {
                Ok((params, q)) => {
                    let ret = if kind_at(ts, q) is RArrow {
                        sp_type(ts, q + 1)
                    } else {
                        Ok((Type::Void, q))
                    };
                    match ret {
                        Ok((rt, q2)) => if kind_at(ts, q2) is SemiColon {
                            Ok((DeclV::FunctionDecl { name, func_type: Box::new(rt), params, body: None }, q2 + 1))
                        } else if !(kind_at(ts, q2) is LBrace) {
                            Err(missing(ts, TokenType::LBrace, q2))
                        } else if p < q2 <= ts.len() {
                            match sp_primary(ts, q2) {
                                Ok((b, q3)) => Ok(
                                    (DeclV::FunctionDecl { name, func_type: Box::new(rt), params, body: Some(b) }, q3),
                                ),
                                Err(e) => Err(e),
                            }
                        } else {
                            Err((Diag::EarlyEOF(span_at(ts, q2)), q2))
                        },
                        Err(e) => Err(e),
                    }
                },
                Err(e) => Err(e),
            }
        },
        TokenType::Eof => Err((Diag::EarlyEOF(span_at(ts, p)), p)),
        _ => Err((Diag::MissingIdentifier(span_at(ts, p)), p)),
    }
}

/// The parameters `name : type`, separated by commas, up to and including
/// the closing parenthesis; `acc` are those read so far.
pub open spec fn sp_params(ts: Seq<Token>, p: int, acc: Seq<Parameter>) -> Parsed<Seq<Parameter>>
    decreases ts.len() - p,
{
    match kind_at(ts, p) {
        TokenType::RParen => Ok((acc, p + 1)),
        TokenType::Identifier(name) => if !(kind_at(ts, p + 1) is Colon) {
            Err(missing(ts, TokenType::Colon, p + 1))
        } else {
            match sp_type(ts, p + 2) {
                Ok((t, q)) => {
                    let acc2 = acc.push(
                        Parameter { name: Some(name), ptype: Box::new(t), take_type: TakeType::ByValue },
                    );
                    if kind_at(ts, q) is Comma {
                        if p < q < ts.len() {
                            sp_params(ts, q + 1, acc2)
                        } else {
                            Err((Diag::EarlyEOF(span_at(ts, q)), q))
                        }
                    } else if kind_at(ts, q) is RParen {
                        Ok((acc2, q + 1))
                    } else {
                        Err(missing(ts, TokenType::RParen, q))
                    }
                },
                Err(e) => Err(e),
            }
        },
        TokenType::Eof => Err((Diag::EarlyEOF(span_at(ts, p)), p)),
        _ => Err((Diag::MissingIdentifier(span_at(ts, p)), p)),
    }
}

/// `[const] name : type = expr ;`, after `var`.
pub open spec fn sp_variable(ts: Seq<Token>, p: int) -> Parsed<DeclV>
    decreases ts.len() - p, 18int,
{
    let is_const = kind_at(ts, p) is Const;
    let at_name = if is_const { p + 1 } else { p };
    let mutability = if is_const { Mutability::Immutable } else { Mutability::Mutable };
    match kind_at(ts, at_name) {
        TokenType::Identifier(name) => if !(kind_at(ts, at_name + 1) is Colon) {
            Err(missing(ts, TokenType::Colon, at_name + 1))
        } else {
            match sp_type(ts, at_name + 2) {
                Ok((t, q)) => if !(kind_at(ts, q) is Eq) {
                    Err(missing(ts, TokenType::Eq, q))
                } else if p < q < ts.len() {
                    match sp_expr(ts, q + 1) {
                        Ok((init, q2)) => if kind_at(ts, q2) is SemiColon {
                            Ok(
                                (
                                    DeclV::VariableDecl { name, var_type: Box::new(t), init: Some(init), mutability },
                                    q2 + 1,
                                ),
                            )
                        } else {
                            Err(missing(ts, TokenType::SemiColon, q2))
                        },
                        Err(e) => Err(e),
                    }
                } else {
                    Err((Diag::EarlyEOF(span_at(ts, q)), q))
                },
                Err(e) => Err(e),
            }
        },
        TokenType::Eof => Err((Diag::EarlyEOF(span_at(ts, at_name)), at_name)),
        _ => Err((Diag::MissingIdentifier(span_at(ts, at_name)), at_name)),
    }
}

/// Where parsing resumes after a declaration failed at `q`: just past the
/// next `;`, or at the end of the stream.
pub open spec fn recover_from(ts: Seq<Token>, q: int) -> int
    decreases ts.len() - q,
{
    if !(0 <= q < ts.len()) || kind_at(ts, q) is Eof {
        q
    } else if kind_at(ts, q) is SemiColon {
        q + 1
    } else {
        recover_from(ts, q + 1)
    }
}

/// The declarations from `p` to the end of the stream, appended to `decls`,
/// and the diagnostics of those that failed, appended to `errs`. A failed
/// declaration yields one diagnostic and parsing resumes after the next `;`.
pub open spec fn sp_program(ts: Seq<Token>, p: int, decls: Seq<DeclV>, errs: Seq<Diag>) -> (
    Seq<DeclV>,
    Seq<Diag>,
)
    decreases ts.len() - p,
{
    if !(0 <= p < ts.len()) || kind_at(ts, p) is Eof {
        (decls, errs)
    } else {
        match sp_decl(ts, p) {
            Ok((d, after)) => if p < after <= ts.len() {
                sp_program(ts, after, decls.push(d), errs)
            } else {
                (decls.push(d), errs)
            },
            Err((diag, q)) => {
                let r = recover_from(ts, q);
                if p < r <= ts.len() {
                    sp_program(ts, r, decls, errs.push(diag))
                } else {
                    (decls, errs.push(diag))
                }
            },
        }
    }
}

/// What parsing a stream from `p` gives: every declaration, or every
/// diagnostic if any declaration failed.
pub open spec fn parse_outcome(ts: Seq<Token>, p: int) -> Result<Seq<DeclV>, Seq<Diag>> {
    let (decls, errs) = sp_program(ts, p, Seq::empty(), Seq::empty());
    if errs.len() == 0 {
        Ok(decls)
    } else {
        Err(errs)
    }
}

pub open spec fn program_view(ds: Seq<DeclType>) -> Seq<DeclV> {
    ds.map_values(|d: DeclType| decl_view(d))
}

} // verus!
