//! The shapes of a syntax tree that the analyses read, held as plain values.
//! A traversal of a full tree hands these to the analyses; anything the
//! analyses do not look into is `Other`.
use vstd::prelude::*;

verus! {

/// A unary operator.
#[derive(Copy, Clone, Debug, PartialEq, Eq, Structural)]
pub enum UnaryOp {
    Deref,
    Not,
    Neg,
}

/// A binary operator, compound assignments included.
#[derive(Copy, Clone, Debug, PartialEq, Eq, Structural)]
pub enum BinaryOp {
    Add,
    Sub,
    Lt,
    Le,
    Eq,
    Ne,
    Gt,
    Ge,
    AddAssign,
    /// A compound assignment other than `+=`.
    OtherAssign,
    Other,
}

/// An expression.
#[derive(Debug)]
pub enum Expr {
    /// A path such as `a::b::c`; `qualified` when it carries a leading
    /// `<T as Trait>` qualification.
    Path { qualified: bool, segments: Vec<String> },
    /// An integer literal, with its type suffix (empty when it has none).
    IntLit { value: u128, suffix: String },
    /// Any other literal.
    OtherLit,
    Unary { op: UnaryOp, operand: Box<Expr> },
    Binary { left: Box<Expr>, op: BinaryOp, right: Box<Expr> },
    Assign { left: Box<Expr>, right: Box<Expr> },
    MethodCall { receiver: Box<Expr>, method: String, args: Vec<Expr> },
    /// `operand as T`.
    Cast { operand: Box<Expr> },
    While { cond: Box<Expr>, body: Vec<Stmt> },
    Other,
}

/// A statement of a block.
#[derive(Debug)]
pub enum Stmt {
    /// `let name = init;`, where `name` is the bound identifier when the
    /// pattern is one identifier, with or without a type.
    Local { name: Option<String>, init: Option<Expr> },
    /// An expression statement, with or without its semicolon.
    Expr(Expr),
    Other,
}

/// A binding pattern.
#[derive(Clone, Debug)]
pub enum Pattern {
    Ident(String),
    Other,
}

/// A raw pointer type `*const T` or `*mut T`, the pointee kept as its text.
#[derive(Clone, Debug)]
pub struct RawPointer {
    pub mutable: bool,
    pub pointee: String,
}

/// A declared type.
#[derive(Clone, Debug)]
pub enum TypeShape {
    Ptr(RawPointer),
    Other,
}

/// A typed binding: a function parameter or a local declaration with a type.
#[derive(Clone, Debug)]
pub struct Declaration {
    pub pat: Pattern,
    pub ty: TypeShape,
}

impl RawPointer {
    /// A copy of this pointer type.
    pub fn copy(&self) -> (r: RawPointer)
        ensures
            r == *self,
    {
        RawPointer { mutable: self.mutable, pointee: self.pointee.clone() }
    }
}

} // verus!
