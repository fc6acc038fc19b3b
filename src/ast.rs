use vstd::prelude::*;

verus! {

/// A type as written in the source, before any resolution.
#[derive(Debug, PartialEq, Eq)]
pub enum Type {
    /// A named type that is not resolved yet.
    TypeName(String),
    /// A sized integer.
    CxInteger { bits: u8, signed: bool },
    Int,
    Void,
    Char,
    /// A record type: its name and its fields, each with a type and an offset.
    CompoundType { name: String, fields: Vec<(String, FieldMeta)> },
    PointerType { to: Box<Type> },
    RefType { to: Box<Type>, mutable: bool },
    /// An array; without a length it is dynamically sized.
    ArrayType { of: Box<Type>, length: Option<usize> },
    FunctionType {
        return_type: Box<Type>,
        param_types: Vec<Type>,
        variadic: bool,
        variadic_type: Option<Box<Type>>,
    },
}

/// How a parameter is passed.
#[derive(Debug, PartialEq, Eq)]
pub enum TakeType {
    ByValue,
    ByRef { mutable: bool },
}

/// A function parameter: a name (absent only in function types), a type and
/// a passing mode.
#[derive(Debug, PartialEq, Eq)]
pub struct Parameter {
    pub name: Option<String>,
    pub ptype: Box<Type>,
    pub take_type: TakeType,
}

/// A declaration, at the top level or inside a compound expression.
#[derive(Debug, PartialEq, Eq)]
pub enum DeclType {
    /// A function; without a body it is a forward or library declaration.
    FunctionDecl {
        name: String,
        func_type: Box<Type>,
        params: Vec<Parameter>,
        body: Option<Box<Expr>>,
    },
    VariableDecl {
        name: String,
        var_type: Box<Type>,
        init: Option<Box<Expr>>,
        mutability: Mutability,
    },
    /// An expression kept for its side effect.
    SideEffect(Expr),
}

#[derive(Debug, Clone, Copy, PartialEq, Eq, Structural)]
pub enum BinaryOperator {
    Add,
    Sub,
    Mul,
    Div,
    Mod,
    And,
    Or,
    Xor,
    Shl,
    Shr,
    Eq,
    Neq,
    Lt,
    Gt,
    Leq,
    Geq,
    Assign,
}

#[derive(Debug, Clone, Copy, PartialEq, Eq, Structural)]
pub enum UnaryOperator {
    Neg,
    Not,
    Deref,
    AddrOf,
}

#[derive(Debug, Clone, Copy, PartialEq, Eq, Structural)]
pub enum Mutability {
    Mutable,
    Immutable,
}

#[derive(Debug, PartialEq, Eq)]
pub enum Expr {
    IntegerLiteral(i64),
    /// A name as written, before resolution.
    Identifier(String),
    /// A resolved variable reference.
    Variable(String),
    BinaryOp { op: BinaryOperator, lhs: Box<Expr>, rhs: Box<Expr> },
    UnaryOp { op: UnaryOperator, expr: Box<Expr> },
    Call { func: Box<Expr>, args: Vec<Expr> },
    /// A block: function bodies and nested scopes.
    CompoundExpr { expressions: Vec<Box<DeclType>> },
}

/// A field of a record type: its type and its byte offset.
#[derive(Debug, PartialEq, Eq)]
pub struct FieldMeta {
    pub field_type: Type,
    pub offset: usize,
}

impl Parameter {
    pub fn new_named(name: String, ptype: Box<Type>, take_type: TakeType) -> (r: Self)
        ensures
            r.name == Some(name),
            r.ptype == ptype,
            r.take_type == take_type,
    {
        Parameter { name: Some(name), ptype, take_type }
    }

    pub fn new_unnamed(ptype: Box<Type>, take_type: TakeType) -> (r: Self)
        ensures
            r.name is None,
            r.ptype == ptype,
            r.take_type == take_type,
    {
        Parameter { name: None, ptype, take_type }
    }
}

impl Type {
    pub fn new_integer(bits: u8, signed: bool) -> (r: Box<Self>)
        ensures
            *r == (Type::CxInteger { bits, signed }),
    {
        Box::new(Type::CxInteger { bits, signed })
    }

    pub fn new_int() -> (r: Box<Self>)
        ensures
            *r == Type::Int,
    {
        Box::new(Type::Int)
    }

    pub fn new_char() -> (r: Box<Self>)
        ensures
            *r == Type::Char,
    {
        Box::new(Type::Char)
    }

    pub fn new_void() -> (r: Box<Self>)
        ensures
            *r == Type::Void,
    {
        Box::new(Type::Void)
    }

    pub fn new_pointer(to: Box<Type>) -> (r: Box<Self>)
        ensures
            *r == (Type::PointerType { to }),
    {
        Box::new(Type::PointerType { to })
    }

    /// Sized integers, `int` and `char` are integer types.
    pub fn is_integer(&self) -> (r: bool)
        ensures
            r == (self is CxInteger || self is Int || self is Char),
    {
        match self {
            Type::CxInteger { .. } | Type::Int | Type::Char => true,
            _ => false,
        }
    }
}

} // verus!
