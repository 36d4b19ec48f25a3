//! The body materializer: from the compiler's side of a body to the stable model.
//!
//! The translation is total. A right-hand side that is an aggregate, or a
//! checked operation on two operands, becomes the variant made for it;
//! anything else is carried over whole in the generic one. Nothing is lost
//! either way: `lower_body` gives back what `lift_body` was given.

use vstd::prelude::*;
use crate::internal::{
    InternalBlock, InternalBlockView, InternalBody, InternalBodyView, InternalOperand,
    InternalRvalue, InternalRvalueView, InternalStatement, InternalStatementView,
    RVALUE_AGGREGATE, RVALUE_CHECKED_BINARY_OP,
};
use crate::mir::{
    AggregateKind, BasicBlock, BasicBlockView, BinOp, Body, BodyView, Operand, Place, RawRvalue,
    RawRvalueView, Rvalue, RvalueView, Statement, StatementView, Terminator,
};

verus! {

/// The operator that a detail code names.
pub open spec fn bin_op_of_code(code: u32) -> BinOp {
    match code {
        0 => BinOp::Add,
        1 => BinOp::Sub,
        2 => BinOp::Mul,
        3 => BinOp::Div,
        4 => BinOp::Rem,
        5 => BinOp::BitXor,
        6 => BinOp::BitAnd,
        7 => BinOp::BitOr,
        8 => BinOp::Shl,
        9 => BinOp::Shr,
        10 => BinOp::Eq,
        11 => BinOp::Lt,
        12 => BinOp::Le,
        13 => BinOp::Ne,
        14 => BinOp::Ge,
        15 => BinOp::Gt,
        16 => BinOp::Offset,
        _ => BinOp::Other(code),
    }
}

/// The detail code of an operator.
pub open spec fn code_of_bin_op(op: BinOp) -> u32 {
    match op {
        BinOp::Add => 0,
        BinOp::Sub => 1,
        BinOp::Mul => 2,
        BinOp::Div => 3,
        BinOp::Rem => 4,
        BinOp::BitXor => 5,
        BinOp::BitAnd => 6,
        BinOp::BitOr => 7,
        BinOp::Shl => 8,
        BinOp::Shr => 9,
        BinOp::Eq => 10,
        BinOp::Lt => 11,
        BinOp::Le => 12,
        BinOp::Ne => 13,
        BinOp::Ge => 14,
        BinOp::Gt => 15,
        BinOp::Offset => 16,
        BinOp::Other(code) => code,
    }
}

/// The kind of aggregate that a detail code names.
pub open spec fn aggregate_kind_of_code(code: u32) -> AggregateKind {
    match code {
        0 => AggregateKind::Array,
        1 => AggregateKind::Tuple,
        2 => AggregateKind::Adt,
        3 => AggregateKind::Closure,
        4 => AggregateKind::Generator,
        _ => AggregateKind::Other(code),
    }
}

/// The detail code of a kind of aggregate.
pub open spec fn code_of_aggregate_kind(kind: AggregateKind) -> u32 {
    match kind {
        AggregateKind::Array => 0,
        AggregateKind::Tuple => 1,
        AggregateKind::Adt => 2,
        AggregateKind::Closure => 3,
        AggregateKind::Generator => 4,
        AggregateKind::Other(code) => code,
    }
}

pub open spec fn lift_operand(operand: InternalOperand) -> Operand {
    match operand {
        InternalOperand::Copy(local) => Operand::Copy(Place { local: local as usize }),
        InternalOperand::Move(local) => Operand::Move(Place { local: local as usize }),
        InternalOperand::Constant(bits) => Operand::Constant(bits),
    }
}

/// The operands one by one, in their order.
pub open spec fn lift_operands(operands: Seq<InternalOperand>) -> Seq<Operand> {
    Seq::new(operands.len(), |i: int| lift_operand(operands[i]))
}

/// Is this right-hand side the construction of a compound value?
pub open spec fn is_aggregate(rvalue: InternalRvalueView) -> bool {
    rvalue.tag == RVALUE_AGGREGATE
}

/// Is this right-hand side a checked operation on a pair of operands?
pub open spec fn is_checked_binary_op(rvalue: InternalRvalueView) -> bool {
    rvalue.tag == RVALUE_CHECKED_BINARY_OP && rvalue.operands.len() == 2
}

/// An aggregate and a checked operation on two operands get their own
/// variants; all else is `Other`.
pub open spec fn lift_rvalue(rvalue: InternalRvalueView) -> RvalueView {
    if is_aggregate(rvalue) {
        RvalueView::Aggregate(aggregate_kind_of_code(rvalue.code), lift_operands(rvalue.operands))
    } else if is_checked_binary_op(rvalue) {
        RvalueView::CheckedBinaryOp(
            bin_op_of_code(rvalue.code),
            lift_operand(rvalue.operands[0]),
            lift_operand(rvalue.operands[1]),
        )
    } else {
        RvalueView::Other(
            RawRvalueView {
                tag: rvalue.tag,
                code: rvalue.code,
                operands: lift_operands(rvalue.operands),
            },
        )
    }
}

pub open spec fn lift_statement(statement: InternalStatementView) -> StatementView {
    match statement {
        InternalStatementView::Assign(local, rvalue) => StatementView::Assign(
            Place { local: local as usize },
            lift_rvalue(rvalue),
        ),
        InternalStatementView::Other(raw) => StatementView::Other(raw),
    }
}

pub open spec fn lift_block(block: InternalBlockView) -> BasicBlockView {
    BasicBlockView {
        statements: Seq::new(
            block.statements.len(),
            |i: int| lift_statement(block.statements[i]),
        ),
        terminator: Terminator { tag: block.terminator },
    }
}

/// The entry block first, then the other blocks in their order.
pub open spec fn lift_body(body: InternalBodyView) -> BodyView {
    BodyView {
        blocks: Seq::new(
            body.rest.len() + 1,
            |i: int|
                if i == 0 {
                    lift_block(body.entry)
                } else {
                    lift_block(body.rest[i - 1])
                },
        ),
    }
}

pub open spec fn lower_operand(operand: Operand) -> InternalOperand {
    match operand {
        Operand::Copy(place) => InternalOperand::Copy(place.local as u32),
        Operand::Move(place) => InternalOperand::Move(place.local as u32),
        Operand::Constant(bits) => InternalOperand::Constant(bits),
    }
}

pub open spec fn lower_operands(operands: Seq<Operand>) -> Seq<InternalOperand> {
    Seq::new(operands.len(), |i: int| lower_operand(operands[i]))
}

pub open spec fn lower_rvalue(rvalue: RvalueView) -> InternalRvalueView {
    match rvalue {
        RvalueView::Aggregate(kind, operands) => InternalRvalueView {
            tag: RVALUE_AGGREGATE,
            code: code_of_aggregate_kind(kind),
            operands: lower_operands(operands),
        },
        RvalueView::CheckedBinaryOp(op, left, right) => InternalRvalueView {
            tag: RVALUE_CHECKED_BINARY_OP,
            code: code_of_bin_op(op),
            operands: seq![lower_operand(left), lower_operand(right)],
        },
        RvalueView::Other(raw) => InternalRvalueView {
            tag: raw.tag,
            code: raw.code,
            operands: lower_operands(raw.operands),
        },
    }
}

pub open spec fn lower_statement(statement: StatementView) -> InternalStatementView {
    match statement {
        StatementView::Assign(place, rvalue) => InternalStatementView::Assign(
            place.local as u32,
            lower_rvalue(rvalue),
        ),
        StatementView::Other(raw) => InternalStatementView::Other(raw),
    }
}

pub open spec fn lower_block(block: BasicBlockView) -> InternalBlockView {
    InternalBlockView {
        statements: Seq::new(
            block.statements.len(),
            |i: int| lower_statement(block.statements[i]),
        ),
        terminator: block.terminator.tag,
    }
}

pub open spec fn lower_body(body: BodyView) -> InternalBodyView {
    InternalBodyView {
        entry: lower_block(body.blocks[0]),
        rest: Seq::new(
            (body.blocks.len() - 1) as nat,
            |i: int| lower_block(body.blocks[i + 1]),
        ),
    }
}

/// The operator that a code names has that code: no two codes name one
/// operator.
pub proof fn lemma_bin_op_codes(code: u32)
    ensures
        code_of_bin_op(bin_op_of_code(code)) == code,
{
}

/// The kind of aggregate that a code names has that code: no two codes name
/// one kind.
pub proof fn lemma_aggregate_kind_codes(code: u32)
    ensures
        code_of_aggregate_kind(aggregate_kind_of_code(code)) == code,
{
}

/// Lowering gives back the operand that was lifted.
pub proof fn lemma_operand_round_trip(operand: InternalOperand)
    ensures
        lower_operand(lift_operand(operand)) == operand,
{
}

/// Lowering gives back the operands that were lifted.
pub proof fn lemma_operands_round_trip(operands: Seq<InternalOperand>)
    ensures
        lower_operands(lift_operands(operands)) == operands,
{
    assert forall|i: int| 0 <= i < operands.len() implies lower_operand(
        lift_operand(operands[i]),
    ) == operands[i] by {
        lemma_operand_round_trip(operands[i]);
    }
    assert(lower_operands(lift_operands(operands)) =~= operands);
}

/// Lowering gives back the right-hand side that was lifted, whatever its kind.
pub proof fn lemma_rvalue_round_trip(rvalue: InternalRvalueView)
    ensures
        lower_rvalue(lift_rvalue(rvalue)) == rvalue,
{
    lemma_operands_round_trip(rvalue.operands);
    if is_aggregate(rvalue) {
        lemma_aggregate_kind_codes(rvalue.code);
    } else if is_checked_binary_op(rvalue) {
        lemma_bin_op_codes(rvalue.code);
        lemma_operand_round_trip(rvalue.operands[0]);
        lemma_operand_round_trip(rvalue.operands[1]);
        assert(lower_rvalue(lift_rvalue(rvalue)).operands =~= rvalue.operands);
    }
}

/// Lowering gives back the statement that was lifted.
pub proof fn lemma_statement_round_trip(statement: InternalStatementView)
    ensures
        lower_statement(lift_statement(statement)) == statement,
{
    match statement {
        InternalStatementView::Assign(local, rvalue) => {
            lemma_rvalue_round_trip(rvalue);
        },
        InternalStatementView::Other(raw) => {},
    }
}

/// Lowering gives back the block that was lifted.
pub proof fn lemma_block_round_trip(block: InternalBlockView)
    ensures
        lower_block(lift_block(block)) == block,
{
    assert forall|i: int| 0 <= i < block.statements.len() implies lower_statement(
        lift_statement(block.statements[i]),
    ) == block.statements[i] by {
        lemma_statement_round_trip(block.statements[i]);
    }
    assert(lower_block(lift_block(block)).statements =~= block.statements);
}

/// Lowering gives back the body that was lifted: the translation loses nothing.
pub proof fn lemma_body_round_trip(body: InternalBodyView)
    ensures
        lower_body(lift_body(body)) == body,
{
    lemma_block_round_trip(body.entry);
    assert forall|i: int| 0 <= i < body.rest.len() implies lower_block(lift_block(body.rest[i]))
        == body.rest[i] by {
        lemma_block_round_trip(body.rest[i]);
    }
    assert(lower_body(lift_body(body)).rest =~= body.rest);
}

/// An assignment whose right-hand side builds an aggregate becomes an
/// assignment of `Aggregate` with as many operands, each the translation of
/// the operand at its place.
pub proof fn lemma_aggregate_is_kept(local: u32, rvalue: InternalRvalueView)
    requires
        is_aggregate(rvalue),
    ensures
        lift_statement(InternalStatementView::Assign(local, rvalue)) == StatementView::Assign(
            Place { local: local as usize },
            RvalueView::Aggregate(
                aggregate_kind_of_code(rvalue.code),
                lift_operands(rvalue.operands),
            ),
        ),
        lift_operands(rvalue.operands).len() == rvalue.operands.len(),
        forall|i: int|
            0 <= i < rvalue.operands.len() ==> #[trigger] lift_operands(rvalue.operands)[i]
                == lift_operand(rvalue.operands[i]),
{
}

/// An assignment whose right-hand side is a checked operation on two
/// operands becomes an assignment of `CheckedBinaryOp` with the operator of
/// the same code and the translations of the two, left and right.
pub proof fn lemma_checked_binary_op_is_kept(local: u32, rvalue: InternalRvalueView)
    requires
        is_checked_binary_op(rvalue),
    ensures
        lift_statement(InternalStatementView::Assign(local, rvalue)) == StatementView::Assign(
            Place { local: local as usize },
            RvalueView::CheckedBinaryOp(
                bin_op_of_code(rvalue.code),
                lift_operand(rvalue.operands[0]),
                lift_operand(rvalue.operands[1]),
            ),
        ),
        code_of_bin_op(bin_op_of_code(rvalue.code)) == rvalue.code,
{
}

/// The operator that `code` names.
pub fn decode_bin_op(code: u32) -> (op: BinOp)
    ensures
        op == bin_op_of_code(code),
{
    match code {
        0 => BinOp::Add,
        1 => BinOp::Sub,
        2 => BinOp::Mul,
        3 => BinOp::Div,
        4 => BinOp::Rem,
        5 => BinOp::BitXor,
        6 => BinOp::BitAnd,
        7 => BinOp::BitOr,
        8 => BinOp::Shl,
        9 => BinOp::Shr,
        10 => BinOp::Eq,
        11 => BinOp::Lt,
        12 => BinOp::Le,
        13 => BinOp::Ne,
        14 => BinOp::Ge,
        15 => BinOp::Gt,
        16 => BinOp::Offset,
        _ => BinOp::Other(code),
    }
}

/// The kind of aggregate that `code` names.
pub fn decode_aggregate_kind(code: u32) -> (kind: AggregateKind)
    ensures
        kind == aggregate_kind_of_code(code),
{
    match code {
        0 => AggregateKind::Array,
        1 => AggregateKind::Tuple,
        2 => AggregateKind::Adt,
        3 => AggregateKind::Closure,
        4 => AggregateKind::Generator,
        _ => AggregateKind::Other(code),
    }
}

pub fn translate_operand(operand: InternalOperand) -> (out: Operand)
    ensures
        out == lift_operand(operand),
{
    match operand {
        InternalOperand::Copy(local) => Operand::Copy(Place { local: local as usize }),
        InternalOperand::Move(local) => Operand::Move(Place { local: local as usize }),
        InternalOperand::Constant(bits) => Operand::Constant(bits),
    }
}

pub fn translate_operands(operands: &Vec<InternalOperand>) -> (out: Vec<Operand>)
    ensures
        out@ == lift_operands(operands@),
{
    let mut out: Vec<Operand> = Vec::new();
    let n = operands.len();
    let mut i: usize = 0;
    while i < n
        invariant
            n == operands@.len(),
            0 <= i <= n,
            out@.len() == i,
            forall|j: int| 0 <= j < i ==> #[trigger] out@[j] == lift_operand(operands@[j]),
        decreases n - i,
    {
        out.push(translate_operand(operands[i]));
        i += 1;
    }
    assert(out@ =~= lift_operands(operands@));
    out
}

/// Translates a right-hand side. It never fails: a kind without a variant of
/// its own comes out as `Other`, with all that it held.
pub fn translate_rvalue(rvalue: &InternalRvalue) -> (out: Rvalue)
    ensures
        out@ == lift_rvalue(rvalue@),
{
    if rvalue.tag == RVALUE_AGGREGATE {
        Rvalue::Aggregate(
            decode_aggregate_kind(rvalue.code),
            translate_operands(&rvalue.operands),
        )
    } else if rvalue.tag == RVALUE_CHECKED_BINARY_OP && rvalue.operands.len() == 2 {
        Rvalue::CheckedBinaryOp(
            decode_bin_op(rvalue.code),
            translate_operand(rvalue.operands[0]),
            translate_operand(rvalue.operands[1]),
        )
    } else {
        Rvalue::Other(
            RawRvalue {
                tag: rvalue.tag,
                code: rvalue.code,
                operands: translate_operands(&rvalue.operands),
            },
        )
    }
}

pub fn translate_statement(statement: &InternalStatement) -> (out: Statement)
    ensures
        out@ == lift_statement(statement@),
{
    match statement {
        InternalStatement::Assign(local, rvalue) => Statement::Assign(
            Place { local: *local as usize },
            translate_rvalue(rvalue),
        ),
        InternalStatement::Other(raw) => Statement::Other(*raw),
    }
}

pub fn translate_block(block: &InternalBlock) -> (out: BasicBlock)
    ensures
        out@ == lift_block(block@),
{
    let mut statements: Vec<Statement> = Vec::new();
    let n = block.statements.len();
    let mut i: usize = 0;
    while i < n
        invariant
            n == block.statements@.len(),
            0 <= i <= n,
            statements@.len() == i,
            forall|j: int|
                0 <= j < i ==> (#[trigger] statements@[j])@ == lift_statement(
                    block.statements@[j]@,
                ),
        decreases n - i,
    {
        statements.push(translate_statement(&block.statements[i]));
        i += 1;
    }
    let out = BasicBlock { statements, terminator: Terminator { tag: block.terminator } };
    assert(out@.statements =~= lift_block(block@).statements);
    out
}

/// Translates a whole body. The entry block comes first, so the result has
/// at least one block.
pub fn translate_body(body: &InternalBody) -> (out: Body)
    ensures
        out@ == lift_body(body@),
        out.blocks@.len() == body.rest@.len() + 1,
{
    let mut blocks: Vec<BasicBlock> = Vec::new();
    blocks.push(translate_block(&body.entry));
    let n = body.rest.len();
    let mut i: usize = 0;
    while i < n
        invariant
            n == body.rest@.len(),
            0 <= i <= n,
            blocks@.len() == i + 1,
            blocks@[0]@ == lift_block(body.entry@),
            forall|j: int|
                0 <= j < i ==> (#[trigger] blocks@[j + 1])@ == lift_block(body.rest@[j]@),
        decreases n - i,
    {
        blocks.push(translate_block(&body.rest[i]));
        i += 1;
    }
    let out = Body { blocks };
    assert(out@.blocks =~= lift_body(body@).blocks) by {
        assert forall|k: int| 0 <= k < out@.blocks.len() implies out@.blocks[k] == lift_body(
            body@,
        ).blocks[k] by {
            if k > 0 {
                assert(out.blocks@[(k - 1) + 1]@ == lift_block(body.rest@[k - 1]@));
            }
        }
    }
    out
}

} // verus!
