use vstd::prelude::*;
use crate::ast::{DeclType, Expr, Mutability, Parameter, TakeType, Type, BinaryOperator, UnaryOperator};
use crate::diag::Diag;
use crate::grammar::{
    decl_view, decls_view, expr_view, kind_at, level_op, missing, parse_outcome, program_view,
    recover_from, sp_binary, sp_binary_rest, sp_block, sp_decl, sp_expr, sp_function, sp_params,
    sp_primary, sp_program, sp_type, sp_unary, sp_variable, span_at, stars, pointer_to, tighter,
    unary_op, rank, DeclV, ExprV, Level, Parsed,
};
use crate::token::{same_token_type, Span, Token, TokenType};

verus! {

/// Where the parser stands; recovery after an error is defined at the top
/// level and inside blocks.
#[derive(Debug, Clone, Copy, PartialEq, Eq, Structural)]
pub enum ParseContext {
    Global,
    Function,
    FunctionParams,
    Block,
    Expression,
}

/// A step of parsing: the value and the position after it, or a diagnostic
/// and the position where it arose.
pub type Step<T> = Result<(T, usize), (Diag, usize)>;

/// A successful step moves forward; a failed one stays in the stream.
pub open spec fn within<T>(r: Step<T>, pos: int, len: int) -> bool {
    match r {
        Ok((_, p)) => pos < p <= len,
        Err((_, p)) => pos <= p <= len,
    }
}

pub open spec fn same_failure(d: Diag, p: usize, f: (Diag, int)) -> bool {
    d == f.0 && p as int == f.1
}

pub open spec fn same_expr(r: Step<Box<Expr>>, s: Parsed<ExprV>) -> bool {
    match (r, s) {
        (Ok((e, p)), Ok((v, q))) => expr_view(*e) == v && p as int == q,
        (Err((d, p)), Err(f)) => same_failure(d, p, f),
        _ => false,
    }
}

pub open spec fn same_decl(r: Step<DeclType>, s: Parsed<DeclV>) -> bool {
    match (r, s) {
        (Ok((d, p)), Ok((v, q))) => decl_view(d) == v && p as int == q,
        (Err((d, p)), Err(f)) => same_failure(d, p, f),
        _ => false,
    }
}

pub open spec fn same_type(r: Step<Box<Type>>, s: Parsed<Type>) -> bool {
    match (r, s) {
        (Ok((t, p)), Ok((v, q))) => *t == v && p as int == q,
        (Err((d, p)), Err(f)) => same_failure(d, p, f),
        _ => false,
    }
}

pub open spec fn same_params(r: Step<Vec<Parameter>>, s: Parsed<Seq<Parameter>>) -> bool {
    match (r, s) {
        (Ok((ps, p)), Ok((v, q))) => ps@ == v && p as int == q,
        (Err((d, p)), Err(f)) => same_failure(d, p, f),
        _ => false,
    }
}

impl Level {
    fn next_tighter(self) -> (r: Option<Level>)
        ensures
            r == tighter(self),
    {
        match self {
            Level::LogicalOr => Some(Level::LogicalAnd),
            Level::LogicalAnd => Some(Level::Equality),
            Level::Equality => Some(Level::Relational),
            Level::Relational => Some(Level::Additive),
            Level::Additive => Some(Level::Multiplicative),
            Level::Multiplicative => None,
        }
    }
}

/// A recursive-descent parser over a token stream.
#[derive(Debug)]
pub struct Parser {
    pub token_buffer: Vec<Token>,
    pub position: usize,
    pub program: Vec<DeclType>,
    pub context: ParseContext,
}

impl Parser {
    pub fn new(tb: Vec<Token>) -> (r: Self)
        ensures
            r.token_buffer@ == tb@,
            r.position == 0,
            r.program@.len() == 0,
            r.context == ParseContext::Global,
    {
        Parser { token_buffer: tb, position: 0, program: Vec::new(), context: ParseContext::Global }
    }

    /// Whether the token at `p` has type `k`; past the end the stream reads
    /// as ended.
    fn peek_is(&self, p: usize, k: &TokenType) -> (r: bool)
        ensures
            r == same_token_type(kind_at(self.token_buffer@, p as int), *k),
            r && !(*k is Eof) ==> p < self.token_buffer@.len(),
            self.token_buffer@.len() <= usize::MAX,
    {
        if p < self.token_buffer.len() {
            self.token_buffer[p].matches(k)
        } else {
            matches!(k, TokenType::Eof)
        }
    }

    /// The span of the token at `p`, else of the last token.
    fn current_span(&self, p: usize) -> (r: Span)
        ensures
            r == span_at(self.token_buffer@, p as int),
    {
        let len = self.token_buffer.len();
        if p < len {
            self.token_buffer[p].span
        } else if len > 0 {
            self.token_buffer[len - 1].span
        } else {
            Span::new(1, 1, 0, 0)
        }
    }

    fn early_end(&self, p: usize) -> (r: (Diag, usize))
        ensures
            r.0 == Diag::EarlyEOF(span_at(self.token_buffer@, p as int)),
            r.1 == p,
    {
        (Diag::EarlyEOF(self.current_span(p)), p)
    }

    fn missing_at(&self, expected: TokenType, p: usize) -> (r: (Diag, usize))
        ensures
            same_failure(r.0, r.1, missing(self.token_buffer@, expected, p as int)),
    {
        if self.peek_is(p, &TokenType::Eof) {
            self.early_end(p)
        } else {
            (Diag::MissingToken(expected, self.current_span(p)), p)
        }
    }

    fn binary_op_at(&self, level: Level, p: usize) -> (r: Option<BinaryOperator>)
        ensures
            r == level_op(level, kind_at(self.token_buffer@, p as int)),
            r is Some ==> p < self.token_buffer@.len(),
            self.token_buffer@.len() <= usize::MAX,
    {
        if p >= self.token_buffer.len() {
            return None;
        }
        match (level, &self.token_buffer[p].token_type) {
            (Level::LogicalOr, TokenType::Or) => Some(BinaryOperator::Or),
            (Level::LogicalAnd, TokenType::And) => Some(BinaryOperator::And),
            (Level::Equality, TokenType::Eq) => Some(BinaryOperator::Eq),
            (Level::Equality, TokenType::Neq) => Some(BinaryOperator::Neq),
            (Level::Relational, TokenType::Lt) => Some(BinaryOperator::Lt),
            (Level::Relational, TokenType::Gt) => Some(BinaryOperator::Gt),
            (Level::Relational, TokenType::Leq) => Some(BinaryOperator::Leq),
            (Level::Relational, TokenType::Geq) => Some(BinaryOperator::Geq),
            (Level::Additive, TokenType::Add) => Some(BinaryOperator::Add),
            (Level::Additive, TokenType::Sub) => Some(BinaryOperator::Sub),
            (Level::Multiplicative, TokenType::Mul) => Some(BinaryOperator::Mul),
            (Level::Multiplicative, TokenType::Div) => Some(BinaryOperator::Div),
            (Level::Multiplicative, TokenType::Mod) => Some(BinaryOperator::Mod),
            _ => None,
        }
    }

    fn unary_op_at(&self, p: usize) -> (r: Option<UnaryOperator>)
        ensures
            r == unary_op(kind_at(self.token_buffer@, p as int)),
            r is Some ==> p < self.token_buffer@.len(),
            self.token_buffer@.len() <= usize::MAX,
    {
        if p >= self.token_buffer.len() {
            return None;
        }
        match &self.token_buffer[p].token_type {
            TokenType::Sub => Some(UnaryOperator::Neg),
            TokenType::Not => Some(UnaryOperator::Not),
            TokenType::Mul => Some(UnaryOperator::Deref),
            TokenType::And => Some(UnaryOperator::AddrOf),
            _ => None,
        }
    }

    /// `int`, `char`, `void`, or a name followed by any number of `*`.
    fn parse_type(&self, pos: usize) -> (r: Step<Box<Type>>)
        requires
            pos <= self.token_buffer@.len(),
        ensures
            same_type(r, sp_type(self.token_buffer@, pos as int)),
            within(r, pos as int, self.token_buffer@.len() as int),
    {
        let len = self.token_buffer.len();
        if pos >= len {
            return Err(self.early_end(pos));
        }
        match &self.token_buffer[pos].token_type {
            TokenType::Int => Ok((Type::new_int(), pos + 1)),
            TokenType::Char => Ok((Type::new_char(), pos + 1)),
            TokenType::Void => Ok((Type::new_void(), pos + 1)),
            TokenType::Identifier(n) => {
                let ghost base = Type::TypeName(*n);
                let mut t = Box::new(Type::TypeName(n.clone()));
                let mut p = pos + 1;
                while p < len && self.peek_is(p, &TokenType::Mul)
                    invariant
                        len == self.token_buffer@.len(),
                        pos + 1 <= p <= len,
                        *t == pointer_to(base, (p - pos - 1) as nat),
                        stars(self.token_buffer@, pos + 1) == (p - pos - 1) + stars(self.token_buffer@, p as int),
                    decreases len - p,
                {
                    t = Type::new_pointer(t);
                    p = p + 1;
                }
                Ok((t, p))
            },
            TokenType::Eof => Err(self.early_end(pos)),
            t => Err((Diag::UnexpectedToken(t.duplicate(), self.current_span(pos)), pos)),
        }
    }

    /// The loosest expression.
    fn parse_expression(&self, pos: usize) -> (r: Step<Box<Expr>>)
        requires
            pos <= self.token_buffer@.len(),
        ensures
            same_expr(r, sp_expr(self.token_buffer@, pos as int)),
            within(r, pos as int, self.token_buffer@.len() as int),
        decreases self.token_buffer@.len() - pos, 17int,
    {
        self.parse_binary(Level::LogicalOr, pos)
    }

    /// Operands of `level` joined by its operators, from the left.
    fn parse_binary(&self, level: Level, pos: usize) -> (r: Step<Box<Expr>>)
        requires
            pos <= self.token_buffer@.len(),
        ensures
            same_expr(r, sp_binary(self.token_buffer@, level, pos as int)),
            within(r, pos as int, self.token_buffer@.len() as int),
        decreases self.token_buffer@.len() - pos, 4 + 2 * rank(level),
    {
        let first = match level.next_tighter() {
            Some(t) => self.parse_binary(t, pos),
            None => self.parse_unary(pos),
        };
        match first {
            Ok((left, mid)) => self.parse_binary_rest(level, left, mid),
            Err(e) => Err(e),
        }
    }

    fn parse_binary_rest(&self, level: Level, left: Box<Expr>, pos: usize) -> (r: Step<Box<Expr>>)
        requires
            pos <= self.token_buffer@.len(),
        ensures
            same_expr(r, sp_binary_rest(self.token_buffer@, level, expr_view(*left), pos as int)),
            match r {
                Ok((_, p)) => pos <= p <= self.token_buffer@.len(),
                Err((_, p)) => pos <= p <= self.token_buffer@.len(),
            },
        decreases self.token_buffer@.len() - pos, 3 + 2 * rank(level),
    {
        match self.binary_op_at(level, pos) {
            Some(op) => {
                let right = match level.next_tighter() {
                    Some(t) => self.parse_binary(t, pos + 1),
                    None => self.parse_unary(pos + 1),
                };
                match right {
                    Ok((rhs, after)) => {
                        let e = Box::new(Expr::BinaryOp { op, lhs: left, rhs });
                        self.parse_binary_rest(level, e, after)
                    },
                    Err(e) => Err(e),
                }
            },
            None => Ok((left, pos)),
        }
    }

    /// Prefix operators over a primary expression.
    fn parse_unary(&self, pos: usize) -> (r: Step<Box<Expr>>)
        requires
            pos <= self.token_buffer@.len(),
        ensures
            same_expr(r, sp_unary(self.token_buffer@, pos as int)),
            within(r, pos as int, self.token_buffer@.len() as int),
        decreases self.token_buffer@.len() - pos, 4int,
    {
        match self.unary_op_at(pos) {
            Some(op) => match self.parse_unary(pos + 1) {
                Ok((e, after)) => Ok((Box::new(Expr::UnaryOp { op, expr: e }), after)),
                Err(x) => Err(x),
            },
            None => self.parse_primary(pos),
        }
    }

    /// An integer literal, a name, or a block.
    fn parse_primary(&self, pos: usize) -> (r: Step<Box<Expr>>)
        requires
            pos <= self.token_buffer@.len(),
        ensures
            same_expr(r, sp_primary(self.token_buffer@, pos as int)),
            within(r, pos as int, self.token_buffer@.len() as int),
        decreases self.token_buffer@.len() - pos, 3int,
    {
        if pos >= self.token_buffer.len() {
            return Err(self.early_end(pos));
        }
        match &self.token_buffer[pos].token_type {
            TokenType::IntegerLiteral(v) => Ok((Box::new(Expr::IntegerLiteral(*v)), pos + 1)),
            TokenType::Identifier(n) => Ok((Box::new(Expr::Identifier(n.clone())), pos + 1)),
            TokenType::LBrace => self.parse_block(pos + 1),
            TokenType::Eof => Err(self.early_end(pos)),
            t => Err((Diag::UnexpectedToken(t.duplicate(), self.current_span(pos)), pos)),
        }
    }

    /// The declarations of a block, after its opening brace, up to and
    /// including its closing brace.
    fn parse_block(&self, pos: usize) -> (r: Step<Box<Expr>>)
        requires
            pos <= self.token_buffer@.len(),
        ensures
            same_expr(r, sp_block(self.token_buffer@, pos as int, Seq::empty())),
            within(r, pos as int - 1, self.token_buffer@.len() as int),
        decreases self.token_buffer@.len() - pos, 21int,
    {
        let ghost ts = self.token_buffer@;
        let mut items: Vec<Box<DeclType>> = Vec::new();
        let mut p = pos;
        assert(decls_view(items@) =~= Seq::<DeclV>::empty());
        loop
            invariant
                ts == self.token_buffer@,
                pos <= p <= ts.len(),
                sp_block(ts, pos as int, Seq::empty()) == sp_block(ts, p as int, decls_view(items@)),
            decreases ts.len() - p,
        {
            if self.peek_is(p, &TokenType::RBrace) {
                let e = Box::new(Expr::CompoundExpr { expressions: items });
                return Ok((e, p + 1));
            }
            if self.peek_is(p, &TokenType::Eof) {
                return Err(self.early_end(p));
            }
            match self.parse_declaration(p) {
                Ok((d, after)) => {
                    let ghost before = items@;
                    items.push(Box::new(d));
                    proof {
                        assert(items@.drop_last() =~= before);
                    }
                    p = after;
                },
                Err(e) => {
                    return Err(e);
                },
            }
        }
    }

    /// A function after `fn`, a variable after `var`, else an expression
    /// kept for its side effect, with an optional `;` after it.
    fn parse_declaration(&self, pos: usize) -> (r: Step<DeclType>)
        requires
            pos <= self.token_buffer@.len(),
        ensures
            same_decl(r, sp_decl(self.token_buffer@, pos as int)),
            within(r, pos as int, self.token_buffer@.len() as int),
        decreases self.token_buffer@.len() - pos, 20int,
    {
        if self.peek_is(pos, &TokenType::Fn) {
            return self.parse_function_decl(pos + 1);
        }
        if self.peek_is(pos, &TokenType::Var) {
            return self.parse_variable_decl(pos + 1);
        }
        match self.parse_expression(pos) {
            Ok((e, mid)) => if self.peek_is(mid, &TokenType::SemiColon) {
                Ok((DeclType::SideEffect(*e), mid + 1))
            } else {
                Ok((DeclType::SideEffect(*e), mid))
            },
            Err(x) => Err(x),
        }
    }

    /// `name ( params ) [-> type] ( ; | { ... } )`, after `fn`.
    fn parse_function_decl(&self, pos: usize) -> (r: Step<DeclType>)
        requires
            pos <= self.token_buffer@.len(),
        ensures
            same_decl(r, sp_function(self.token_buffer@, pos as int)),
            within(r, pos as int, self.token_buffer@.len() as int),
        decreases self.token_buffer@.len() - pos, 19int,
    {
        if pos >= self.token_buffer.len() {
            return Err(self.early_end(pos));
        }
        let name = match &self.token_buffer[pos].token_type {
            TokenType::Identifier(n) => n.clone(),
            TokenType::Eof => {
                return Err(self.early_end(pos));
            },
            _ => {
                return Err((Diag::MissingIdentifier(self.current_span(pos)), pos));
            },
        };
        if !self.peek_is(pos + 1, &TokenType::LParen) {
            return Err(self.missing_at(TokenType::LParen, pos + 1));
        }
        let (params, q) = match self.parse_params(pos + 2) {
            Ok(x) => x,
            Err(e) => {
                return Err(e);
            },
        };
        let (func_type, q2) = if self.peek_is(q, &TokenType::RArrow) {
            match self.parse_type(q + 1) {
                Ok(x) => x,
                Err(e) => {
                    return Err(e);
                },
            }
        } else {
            (Type::new_void(), q)
        };
        if self.peek_is(q2, &TokenType::SemiColon) {
            return Ok((DeclType::FunctionDecl { name, func_type, params, body: None }, q2 + 1));
        }
        if !self.peek_is(q2, &TokenType::LBrace) {
            return Err(self.missing_at(TokenType::LBrace, q2));
        }
        match self.parse_primary(q2) {
            Ok((b, q3)) => Ok((DeclType::FunctionDecl { name, func_type, params, body: Some(b) }, q3)),
            Err(e) => Err(e),
        }
    }

    /// The parameters `name : type`, separated by commas, up to and
    /// including the closing parenthesis.
    fn parse_params(&self, pos: usize) -> (r: Step<Vec<Parameter>>)
        requires
            pos <= self.token_buffer@.len(),
        ensures
            same_params(r, sp_params(self.token_buffer@, pos as int, Seq::empty())),
            within(r, pos as int, self.token_buffer@.len() as int),
    {
        let ghost ts = self.token_buffer@;
        let len = self.token_buffer.len();
        let mut params: Vec<Parameter> = Vec::new();
        let mut p = pos;
        loop
            invariant
                ts == self.token_buffer@,
                len == ts.len(),
                pos <= p <= len,
                sp_params(ts, pos as int, Seq::empty()) == sp_params(ts, p as int, params@),
            decreases len - p,
        {
            if p >= len {
                return Err(self.early_end(p));
            }
            let name = match &self.token_buffer[p].token_type {
                TokenType::RParen => {
                    return Ok((params, p + 1));
                },
                TokenType::Identifier(n) => n.clone(),
                TokenType::Eof => {
                    return Err(self.early_end(p));
                },
                _ => {
                    return Err((Diag::MissingIdentifier(self.current_span(p)), p));
                },
            };
            if !self.peek_is(p + 1, &TokenType::Colon) {
                return Err(self.missing_at(TokenType::Colon, p + 1));
            }
            let (ptype, q) = match self.parse_type(p + 2) {
                Ok(x) => x,
                Err(e) => {
                    return Err(e);
                },
            };
            params.push(Parameter { name: Some(name), ptype, take_type: TakeType::ByValue });
            if self.peek_is(q, &TokenType::Comma) {
                p = q + 1;
            } else if self.peek_is(q, &TokenType::RParen) {
                return Ok((params, q + 1));
            } else {
                return Err(self.missing_at(TokenType::RParen, q));
            }
        }
    }

    /// `[const] name : type = expr ;`, after `var`.
    fn parse_variable_decl(&self, pos: usize) -> (r: Step<DeclType>)
        requires
            pos <= self.token_buffer@.len(),
        ensures
            same_decl(r, sp_variable(self.token_buffer@, pos as int)),
            within(r, pos as int, self.token_buffer@.len() as int),
        decreases self.token_buffer@.len() - pos, 18int,
    {
        let is_const = self.peek_is(pos, &TokenType::Const);
        let at_name = if is_const { pos + 1 } else { pos };
        let mutability = if is_const { Mutability::Immutable } else { Mutability::Mutable };
        if at_name >= self.token_buffer.len() {
            return Err(self.early_end(at_name));
        }
        let name = match &self.token_buffer[at_name].token_type {
            TokenType::Identifier(n) => n.clone(),
            TokenType::Eof => {
                return Err(self.early_end(at_name));
            },
            _ => {
                return Err((Diag::MissingIdentifier(self.current_span(at_name)), at_name));
            },
        };
        if !self.peek_is(at_name + 1, &TokenType::Colon) {
            return Err(self.missing_at(TokenType::Colon, at_name + 1));
        }
        let (var_type, q) = match self.parse_type(at_name + 2) {
            Ok(x) => x,
            Err(e) => {
                return Err(e);
            },
        };
        if !self.peek_is(q, &TokenType::Eq) {
            return Err(self.missing_at(TokenType::Eq, q));
        }
        let (init, q2) = match self.parse_expression(q + 1) {
            Ok(x) => x,
            Err(e) => {
                return Err(e);
            },
        };
        if !self.peek_is(q2, &TokenType::SemiColon) {
            return Err(self.missing_at(TokenType::SemiColon, q2));
        }
        Ok((DeclType::VariableDecl { name, var_type, init: Some(init), mutability }, q2 + 1))
    }

    /// Skips from `q` to just past the next `;`, or to the end of the stream.
    fn recover_to(&self, q: usize) -> (r: usize)
        requires
            q <= self.token_buffer@.len(),
        ensures
            r == recover_from(self.token_buffer@, q as int),
            q <= r <= self.token_buffer@.len(),
            !(kind_at(self.token_buffer@, q as int) is Eof) ==> q < r,
    {
        let mut p = q;
        while !self.peek_is(p, &TokenType::Eof) && !self.peek_is(p, &TokenType::SemiColon)
            invariant
                q <= p <= self.token_buffer@.len(),
                recover_from(self.token_buffer@, q as int) == recover_from(self.token_buffer@, p as int),
                !(kind_at(self.token_buffer@, q as int) is Eof) ==> q < p || !(kind_at(self.token_buffer@, p as int) is Eof),
            decreases self.token_buffer@.len() - p,
        {
            p = p + 1;
        }
        if self.peek_is(p, &TokenType::SemiColon) {
            p + 1
        } else {
            p
        }
    }

    /// Parses every declaration from the current position to the end of the
    /// stream. A declaration that fails yields one diagnostic, and parsing
    /// resumes after the next `;`; the result is the whole program, or every
    /// diagnostic if there was any.
    pub fn parse_program(&mut self) -> (r: Result<Vec<DeclType>, Vec<Diag>>)
        ensures
            final(self).token_buffer@ == old(self).token_buffer@,
            match r {
                Ok(ds) => parse_outcome(old(self).token_buffer@, old(self).position as int) == Ok::<
                    Seq<DeclV>,
                    Seq<Diag>,
                >(program_view(ds@)),
                Err(es) => parse_outcome(old(self).token_buffer@, old(self).position as int) == Err::<
                    Seq<DeclV>,
                    Seq<Diag>,
                >(es@),
            },
    {
        let ghost ts = self.token_buffer@;
        let ghost start = self.position as int;
        let len = self.token_buffer.len();
        let mut decls: Vec<DeclType> = Vec::new();
        let mut errors: Vec<Diag> = Vec::new();
        let mut p = self.position;
        if p > len {
            p = len;
        }
        assert(program_view(decls@) =~= Seq::<DeclV>::empty());
        assert(errors@ =~= Seq::<Diag>::empty());
        while !self.peek_is(p, &TokenType::Eof)
            invariant
                ts == self.token_buffer@,
                len == ts.len(),
                p <= len,
                sp_program(ts, start, Seq::empty(), Seq::empty()) == sp_program(
                    ts,
                    p as int,
                    program_view(decls@),
                    errors@,
                ),
            decreases len - p,
        {
            match self.parse_declaration(p) {
                Ok((d, after)) => {
                    let ghost before = decls@;
                    decls.push(d);
                    assert(program_view(decls@) =~= program_view(before).push(decl_view(d)));
                    p = after;
                },
                Err((diag, q)) => {
                    errors.push(diag);
                    p = self.recover_to(q);
                },
            }
        }
        self.position = p;
        if errors.len() > 0 {
            Err(errors)
        } else {
            Ok(decls)
        }
    }
}

} // verus!
