//! The stable model of a function body: a control-flow graph of basic blocks.
//!
//! Two kinds of right-hand side have a variant of their own, the construction
//! of a compound value and the arithmetic that also reports overflow. Every
//! other kind is kept whole in the generic variant `Other`, so that a body can
//! always be represented, whatever the compiler hands over. Operators and
//! kinds of aggregate have such a variant too.

use vstd::prelude::*;

verus! {

/// A storage location of a function: one of its locals.
#[derive(Clone, Copy, Debug, PartialEq, Eq, Structural)]
pub struct Place {
    pub local: usize,
}

/// A leaf of an expression: a place that is read, or a value written out.
#[derive(Clone, Copy, Debug, PartialEq, Eq, Structural)]
pub enum Operand {
    Copy(Place),
    Move(Place),
    /// The bits of a constant.
    Constant(u128),
}

/// A binary operator. One that the bridge has no name for is kept by its
/// code.
#[derive(Clone, Copy, Debug, PartialEq, Eq, Structural)]
pub enum BinOp {
    Add,
    Sub,
    Mul,
    Div,
    Rem,
    BitXor,
    BitAnd,
    BitOr,
    Shl,
    Shr,
    Eq,
    Lt,
    Le,
    Ne,
    Ge,
    Gt,
    Offset,
    Other(u32),
}

impl BinOp {
    /// The operator as it is written in source text, and `?` for one that
    /// has no name.
    pub fn symbol(&self) -> (text: &'static str)
        ensures
            text@ == self.spec_symbol()@,
    {
        match self {
            BinOp::Add => "+",
            BinOp::Sub => "-",
            BinOp::Mul => "*",
            BinOp::Div => "/",
            BinOp::Rem => "%",
            BinOp::BitXor => "^",
            BinOp::BitAnd => "&",
            BinOp::BitOr => "|",
            BinOp::Shl => "<<",
            BinOp::Shr => ">>",
            BinOp::Eq => "==",
            BinOp::Lt => "<",
            BinOp::Le => "<=",
            BinOp::Ne => "!=",
            BinOp::Ge => ">=",
            BinOp::Gt => ">",
            BinOp::Offset => "offset",
            BinOp::Other(_) => "?",
        }
    }

    pub open spec fn spec_symbol(&self) -> &'static str {
        match *self {
            BinOp::Add => "+",
            BinOp::Sub => "-",
            BinOp::Mul => "*",
            BinOp::Div => "/",
            BinOp::Rem => "%",
            BinOp::BitXor => "^",
            BinOp::BitAnd => "&",
            BinOp::BitOr => "|",
            BinOp::Shl => "<<",
            BinOp::Shr => ">>",
            BinOp::Eq => "==",
            BinOp::Lt => "<",
            BinOp::Le => "<=",
            BinOp::Ne => "!=",
            BinOp::Ge => ">=",
            BinOp::Gt => ">",
            BinOp::Offset => "offset",
            BinOp::Other(_) => "?",
        }
    }
}

/// What kind of compound value an aggregate builds. A kind that the bridge
/// has no name for is kept by its code.
#[derive(Clone, Copy, Debug, PartialEq, Eq, Structural)]
pub enum AggregateKind {
    Array,
    Tuple,
    Adt,
    Closure,
    Generator,
    Other(u32),
}

/// A right-hand side that has no variant of its own: the compiler's tag for
/// its kind, the detail code that goes with the tag, and its operands.
#[derive(Clone, Debug, PartialEq, Eq)]
pub struct RawRvalue {
    pub tag: u32,
    pub code: u32,
    pub operands: Vec<Operand>,
}

/// The right-hand side of an assignment.
#[derive(Clone, Debug, PartialEq, Eq)]
pub enum Rvalue {
    /// A compound value built from operands, in order.
    Aggregate(AggregateKind, Vec<Operand>),
    /// An operation whose result also carries an overflow flag.
    CheckedBinaryOp(BinOp, Operand, Operand),
    /// Any other kind of right-hand side.
    Other(RawRvalue),
}

/// A statement that is no assignment (a no-op, a storage marker): the
/// compiler's tag for its kind and the one argument it has.
#[derive(Clone, Copy, Debug, PartialEq, Eq, Structural)]
pub struct RawStatement {
    pub tag: u32,
    pub arg: u64,
}

#[derive(Clone, Debug, PartialEq, Eq)]
pub enum Statement {
    Assign(Place, Rvalue),
    /// Any other kind of statement.
    Other(RawStatement),
}

/// How a block ends. The bridge keeps the compiler's tag and reads nothing
/// into it.
#[derive(Clone, Copy, Debug, PartialEq, Eq, Structural)]
pub struct Terminator {
    pub tag: u32,
}

#[derive(Clone, Debug, PartialEq, Eq)]
pub struct BasicBlock {
    pub statements: Vec<Statement>,
    pub terminator: Terminator,
}

/// The body of one function. Its first block is the entry block.
#[derive(Clone, Debug, PartialEq, Eq)]
pub struct Body {
    pub blocks: Vec<BasicBlock>,
}

pub ghost struct RawRvalueView {
    pub tag: u32,
    pub code: u32,
    pub operands: Seq<Operand>,
}

pub ghost enum RvalueView {
    Aggregate(AggregateKind, Seq<Operand>),
    CheckedBinaryOp(BinOp, Operand, Operand),
    Other(RawRvalueView),
}

pub ghost enum StatementView {
    Assign(Place, RvalueView),
    Other(RawStatement),
}

pub ghost struct BasicBlockView {
    pub statements: Seq<StatementView>,
    pub terminator: Terminator,
}

pub ghost struct BodyView {
    pub blocks: Seq<BasicBlockView>,
}

impl View for RawRvalue {
    type V = RawRvalueView;

    open spec fn view(&self) -> RawRvalueView {
        RawRvalueView { tag: self.tag, code: self.code, operands: self.operands@ }
    }
}

impl View for Rvalue {
    type V = RvalueView;

    open spec fn view(&self) -> RvalueView {
        match *self {
            Rvalue::Aggregate(kind, operands) => RvalueView::Aggregate(kind, operands@),
            Rvalue::CheckedBinaryOp(op, left, right) => RvalueView::CheckedBinaryOp(op, left, right),
            Rvalue::Other(raw) => RvalueView::Other(raw@),
        }
    }
}

impl View for Statement {
    type V = StatementView;

    open spec fn view(&self) -> StatementView {
        match *self {
            Statement::Assign(place, rvalue) => StatementView::Assign(place, rvalue@),
            Statement::Other(raw) => StatementView::Other(raw),
        }
    }
}

impl View for BasicBlock {
    type V = BasicBlockView;

    open spec fn view(&self) -> BasicBlockView {
        BasicBlockView {
            statements: self.statements@.map_values(|s: Statement| s@),
            terminator: self.terminator,
        }
    }
}

impl View for Body {
    type V = BodyView;

    open spec fn view(&self) -> BodyView {
        BodyView { blocks: self.blocks@.map_values(|b: BasicBlock| b@) }
    }
}

} // verus!
