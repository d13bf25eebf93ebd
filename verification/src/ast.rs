//! AST node types consumed by the code generator and the evaluator.
//!
//! Expression nodes carry operator tags and literal payloads; every statement
//! is paired with a debug symbol.  The expression grammar here covers the
//! lowered core: literal atoms, groups, and unary/binary operator
//! applications.  The assignment-target and conditional types are the data
//! model of the surrounding parser layer.

use vstd::prelude::*;
use crate::debug::DebugSymbol;
use crate::variant::{InternSymbol, FloatBits};

verus! {

/// Label naming a loop or block, for labeled `break`/`continue`.
#[derive(Debug, Clone, Copy, PartialEq, Eq, Structural, Hash)]
pub struct Label(pub InternSymbol);

/// Mutability of a declaration.
#[derive(Debug, Clone, Copy, PartialEq, Eq, Structural)]
pub enum DeclType {
    Immutable,
    Mutable,
}

/// Unary operator tags.
#[derive(Debug, Clone, Copy, PartialEq, Eq, Structural)]
pub enum UnaryOp {
    Neg,
    Pos,
    Inv,
    Not,
}

/// Arithmetic binary operators.
#[derive(Debug, Clone, Copy, PartialEq, Eq, Structural)]
pub enum Arithmetic {
    Mul,
    Div,
    Mod,
    Add,
    Sub,
}

/// Bitwise binary operators.
#[derive(Debug, Clone, Copy, PartialEq, Eq, Structural)]
pub enum Bitwise {
    And,
    Xor,
    Or,
}

/// Bit-shift binary operators.
#[derive(Debug, Clone, Copy, PartialEq, Eq, Structural)]
pub enum Shift {
    Left,
    Right,
}

/// Comparison binary operators.
#[derive(Debug, Clone, Copy, PartialEq, Eq, Structural)]
pub enum Comparison {
    LT,
    GT,
    LE,
    GE,
    EQ,
    NE,
}

/// Short-circuit logical binary operators.
#[derive(Debug, Clone, Copy, PartialEq, Eq, Structural)]
pub enum Logical {
    And,
    Or,
}

/// Binary operator tags, by category: the category determines which opcode
/// table the code generator uses.
#[derive(Debug, Clone, Copy, PartialEq, Eq, Structural)]
pub enum BinaryOp {
    Logical(Logical),
    Arithmetic(Arithmetic),
    Bitwise(Bitwise),
    Shift(Shift),
    Comparison(Comparison),
}

/// Literal atoms and groups: the leaves of the expression grammar.
#[derive(Debug)]
pub enum Atom {
    Nil,
    EmptyTuple,
    Identifier(InternSymbol),
    BooleanLiteral(bool),
    IntegerLiteral(i64),
    FloatLiteral(FloatBits),
    StringLiteral(InternSymbol),
    Group(Box<Expr>),
}

/// Expressions: atoms and unary/binary operator applications, lowered in
/// postfix order (operands left to right, then the operator instruction).
#[derive(Debug)]
pub enum Expr {
    Atom(Atom),
    UnaryOp(UnaryOp, Box<Expr>),
    BinaryOp(BinaryOp, Box<Expr>, Box<Expr>),
}

/// An `Expr` plus a `DebugSymbol`.
#[derive(Debug)]
pub struct ExprMeta {
    pub variant: Expr,
    pub symbol: DebugSymbol,
}

impl ExprMeta {
    /// Pairs an expression with its source span.
    pub fn new(variant: Expr, symbol: DebugSymbol) -> (r: ExprMeta)
        ensures
            r.variant == variant,
            r.symbol == symbol,
    {
        ExprMeta { variant, symbol }
    }

    /// The expression.
    pub fn variant(&self) -> (r: &Expr)
        ensures
            r == self.variant,
    {
        &self.variant
    }

    /// The expression, by move.
    pub fn take_variant(self) -> (r: Expr)
        ensures
            r == self.variant,
    {
        self.variant
    }

    /// The source span.
    pub fn debug_symbol(&self) -> (r: &DebugSymbol)
        ensures
            r == self.symbol,
    {
        &self.symbol
    }

    /// The source span, by move.
    pub fn take_symbol(self) -> (r: DebugSymbol)
        ensures
            r == self.symbol,
    {
        self.symbol
    }

    /// Both parts, by move.
    pub fn take(self) -> (r: (Expr, DebugSymbol))
        ensures
            r.0 == self.variant,
            r.1 == self.symbol,
    {
        (self.variant, self.symbol)
    }
}

/// Statements.  The lowered core consists of expression statements; each
/// top-level statement is compiled independently, so a failure in one does
/// not abort its siblings.
#[derive(Debug)]
pub enum Stmt {
    Expression(Expr),
}

/// A `Stmt` plus a `DebugSymbol`.
#[derive(Debug)]
pub struct StmtMeta {
    pub variant: Stmt,
    pub symbol: DebugSymbol,
}

impl StmtMeta {
    /// Pairs a statement with its source span.
    pub fn new(variant: Stmt, symbol: DebugSymbol) -> (r: StmtMeta)
        ensures
            r.variant == variant,
            r.symbol == symbol,
    {
        StmtMeta { variant, symbol }
    }

    /// The statement.
    pub fn variant(&self) -> (r: &Stmt)
        ensures
            r == self.variant,
    {
        &self.variant
    }

    /// The source span.
    pub fn debug_symbol(&self) -> (r: &DebugSymbol)
        ensures
            r == self.symbol,
    {
        &self.symbol
    }

    /// Both parts, by move.
    pub fn take(self) -> (r: (Stmt, DebugSymbol))
        ensures
            r.0 == self.variant,
            r.1 == self.symbol,
    {
        (self.variant, self.symbol)
    }
}

/// A suite of statements.
pub type StmtList = Vec<StmtMeta>;

/// Member access and indexing steps of a primary expression.
#[derive(Debug)]
pub enum AccessItem {
    Attribute(InternSymbol),
    Index(Expr),
}

/// A primary expression: an atom followed by an access path.
#[derive(Debug)]
pub struct Primary {
    pub atom: Atom,
    pub path: Vec<AccessItem>,
}

impl Primary {
    /// A primary from its atom and access path.
    pub fn new(atom: Atom, path: Vec<AccessItem>) -> (r: Primary)
        ensures
            r.atom == atom,
            r.path == path,
    {
        Primary { atom, path }
    }

    /// The leading atom.
    pub fn atom(&self) -> (r: &Atom)
        ensures
            r == self.atom,
    {
        &self.atom
    }

    /// The leading atom, by move.
    pub fn take_atom(self) -> (r: Atom)
        ensures
            r == self.atom,
    {
        self.atom
    }

    /// The access path.
    pub fn path(&self) -> (r: &Vec<AccessItem>)
        ensures
            r == self.path,
    {
        &self.path
    }

    /// The access path, for in-place editing.
    pub fn path_mut(&mut self) -> (r: &mut Vec<AccessItem>)
        ensures
            *r == old(self).path,
            final(self).path == *final(r),
            final(self).atom == old(self).atom,
    {
        &mut self.path
    }
}

/// Assignment targets.
#[derive(Debug)]
pub enum LValue {
    Identifier(InternSymbol),
    Attribute(Primary, InternSymbol),
    Index(Primary, Expr),
    Tuple(Vec<LValue>),
}

impl LValue {
    /// Converts an atom to an assignment target: only identifiers (possibly
    /// parenthesized) are valid targets among the atoms.
    pub fn from_atom(atom: Atom) -> (r: Result<LValue, ()>)
        decreases atom,
    {
        match atom {
            Atom::Identifier(name) => Ok(LValue::Identifier(name)),
            Atom::Group(expr) => LValue::from_expr(*expr),
            _ => Err(()),
        }
    }

    /// Converts an expression to an assignment target.
    pub fn from_expr(expr: Expr) -> (r: Result<LValue, ()>)
        decreases expr,
    {
        match expr {
            Expr::Atom(atom) => LValue::from_atom(atom),
            _ => Err(()),
        }
    }

    /// Converts a primary to an assignment target: the last access item
    /// becomes the target, the rest evaluates to the receiver.
    pub fn from_primary(primary: Primary) -> (r: Result<LValue, ()>) {
        let mut primary = primary;
        let tail = primary.path_mut().pop();
        match tail {
            Some(AccessItem::Attribute(name)) => Ok(LValue::Attribute(primary, name)),
            Some(AccessItem::Index(index)) => Ok(LValue::Index(primary, index)),
            _ => Err(()),
        }
    }
}

/// An assignment: target, optional augmenting operator (`+=` and kin),
/// and right-hand side.
#[derive(Debug)]
pub struct Assignment {
    pub lhs: LValue,
    pub op: Option<BinaryOp>,
    pub rhs: Expr,
}

/// A declaration: mutability, target, and initializer.
#[derive(Debug)]
pub struct Declaration {
    pub decl: DeclType,
    pub lhs: LValue,
    pub init: Expr,
}

/// One branch of a conditional: a condition and the suite it guards.
#[derive(Debug)]
pub struct CondBranch(pub Expr, pub StmtList);

impl CondBranch {
    /// A branch from its condition and suite.
    pub fn new(cond: Expr, stmt_list: StmtList) -> (r: CondBranch)
        ensures
            r.0 == cond,
            r.1 == stmt_list,
    {
        CondBranch(cond, stmt_list)
    }

    /// The branch condition.
    pub fn cond_expr(&self) -> (r: &Expr)
        ensures
            r == self.0,
    {
        &self.0
    }

    /// The guarded suite.
    pub fn suite(&self) -> (r: &StmtList)
        ensures
            r == self.1,
    {
        &self.1
    }
}

/// An `if` expression: its branches and an optional `else` suite.
#[derive(Debug)]
pub struct Conditional {
    pub branches: Vec<CondBranch>,
    pub else_branch: Option<StmtList>,
}

impl Conditional {
    /// A conditional from its branches and optional `else` suite.
    pub fn new(branches: Vec<CondBranch>, else_branch: Option<StmtList>) -> (r: Conditional)
        ensures
            r.branches == branches,
            r.else_branch == else_branch,
    {
        Conditional { branches, else_branch }
    }

    /// The branches, in source order.
    pub fn branches(&self) -> (r: &Vec<CondBranch>)
        ensures
            r == self.branches,
    {
        &self.branches
    }

    /// The `else` suite, when present.
    pub fn else_branch(&self) -> (r: Option<&StmtList>)
        ensures
            match r {
                Some(suite) => self.else_branch matches Some(s) && s == *suite,
                None => self.else_branch is None,
            },
    {
        self.else_branch.as_ref()
    }
}

} // verus!
