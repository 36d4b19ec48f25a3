//! The compiler's side of a function body, as plain values.
//!
//! The compiler's own representation changes from version to version. What
//! the bridge reads of it is held here: every right-hand side as a tag for its
//! kind, a detail code and its operands, whatever the kind is. A kind that the
//! bridge has never heard of is a tag like any other.

use vstd::prelude::*;
use crate::mir::RawStatement;

verus! {

/// The tag of a right-hand side that builds a compound value.
pub const RVALUE_AGGREGATE: u32 = 12;

/// The tag of a right-hand side that computes with an overflow flag.
pub const RVALUE_CHECKED_BINARY_OP: u32 = 8;

/// The tag of a right-hand side that reads one operand.
pub const RVALUE_USE: u32 = 0;

/// A leaf of an expression: a local that is read, or the bits of a constant.
#[derive(Clone, Copy, Debug, PartialEq, Eq, Structural)]
pub enum InternalOperand {
    Copy(u32),
    Move(u32),
    Constant(u128),
}

/// A right-hand side. For an aggregate `code` says what is built, for an
/// operation which operator it is.
#[derive(Clone, Debug, PartialEq, Eq)]
pub struct InternalRvalue {
    pub tag: u32,
    pub code: u32,
    pub operands: Vec<InternalOperand>,
}

#[derive(Clone, Debug, PartialEq, Eq)]
pub enum InternalStatement {
    /// The local that is assigned to, and the right-hand side.
    Assign(u32, InternalRvalue),
    /// A statement that is no assignment.
    Other(RawStatement),
}

#[derive(Clone, Debug, PartialEq, Eq)]
pub struct InternalBlock {
    pub statements: Vec<InternalStatement>,
    /// The tag of the terminator.
    pub terminator: u32,
}

/// The body of a function. It has an entry block by construction.
#[derive(Clone, Debug, PartialEq, Eq)]
pub struct InternalBody {
    pub entry: InternalBlock,
    pub rest: Vec<InternalBlock>,
}

pub ghost struct InternalRvalueView {
    pub tag: u32,
    pub code: u32,
    pub operands: Seq<InternalOperand>,
}

pub ghost enum InternalStatementView {
    Assign(u32, InternalRvalueView),
    Other(RawStatement),
}

pub ghost struct InternalBlockView {
    pub statements: Seq<InternalStatementView>,
    pub terminator: u32,
}

pub ghost struct InternalBodyView {
    pub entry: InternalBlockView,
    pub rest: Seq<InternalBlockView>,
}

impl View for InternalRvalue {
    type V = InternalRvalueView;

    open spec fn view(&self) -> InternalRvalueView {
        InternalRvalueView { tag: self.tag, code: self.code, operands: self.operands@ }
    }
}

impl View for InternalStatement {
    type V = InternalStatementView;

    open spec fn view(&self) -> InternalStatementView {
        match *self {
            InternalStatement::Assign(local, rvalue) => InternalStatementView::Assign(local, rvalue@),
            InternalStatement::Other(raw) => InternalStatementView::Other(raw),
        }
    }
}

impl View for InternalBlock {
    type V = InternalBlockView;

    open spec fn view(&self) -> InternalBlockView {
        InternalBlockView {
            statements: self.statements@.map_values(|s: InternalStatement| s@),
            terminator: self.terminator,
        }
    }
}

impl View for InternalBody {
    type V = InternalBodyView;

    open spec fn view(&self) -> InternalBodyView {
        InternalBodyView {
            entry: self.entry@,
            rest: self.rest@.map_values(|b: InternalBlock| b@),
        }
    }
}

} // verus!
