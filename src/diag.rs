use vstd::prelude::*;
use crate::ast::{Mutability, Type};
use crate::token::{Span, TokenType};

verus! {

/// A diagnostic: what went wrong and where.
#[derive(Debug)]
pub enum Diag {
    // lexical
    InvalidCharacter(char, Span),
    UnterminatedString(Span),
    InvalidNumberFormat(String, Span),
    // syntactic
    UnexpectedToken(TokenType, Span),
    MissingToken(TokenType, Span),
    DeclarationMissingAName(Span),
    MissingIdentifier(Span),
    EarlyEOF(Span),
    // semantic
    UndefinedVariable { err_loc: Span, var_name: String },
    RedefinedVariable { err_loc: Span, var_name: String, prev_decl: Span },
    TypeMismatch { err_loc: Span, expected: Type, got: Type },
    ReferenceMutMismatch { err_loc: Span, expected: Mutability, got: Mutability },
    InvalidOperation { err_loc: Span, operation: String, operand_type: Type },
}

} // verus!
