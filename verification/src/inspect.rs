//! The inspection that the bridge runs on a crate: it checks what the crate
//! is expected to be, then reads the entry block of its `main` and reports
//! every assignment whose right-hand side is an aggregate or a checked
//! operation.

use vstd::prelude::*;
use crate::catalog::{
    is_definition, local_id, DefinitionKindView, DefinitionView, ItemKind, SnapshotView,
};
use crate::ident::{intern, position, InternalId};
use crate::materialize::lift_block;
use crate::mir::{BasicBlock, Operand, Rvalue, RvalueView, Statement, StatementView};
use crate::search::{first_where, lemma_first_where};
use crate::session::{
    entry_index, found_crate, intern_locals, lemma_intern_locals, lemma_listed_item_stands_for,
    Session, ENTRY_PATH,
};

verus! {

/// The name that the inspected crate must have.
pub const CRATE_NAME: &'static str = "input";

/// The dependency that every inspected crate must have.
pub const STD_NAME: &'static str = "std";

/// What an assignment of one of the two specialized kinds holds.
#[derive(Clone, Debug, PartialEq, Eq)]
pub enum Finding {
    /// The operands of an aggregate, in order.
    Aggregate(Vec<Operand>),
    /// The left and the right operand of a checked operation.
    CheckedBinaryOp(Operand, Operand),
}

pub ghost enum FindingView {
    Aggregate(Seq<Operand>),
    CheckedBinaryOp(Operand, Operand),
}

impl View for Finding {
    type V = FindingView;

    open spec fn view(&self) -> FindingView {
        match *self {
            Finding::Aggregate(operands) => FindingView::Aggregate(operands@),
            Finding::CheckedBinaryOp(left, right) => FindingView::CheckedBinaryOp(left, right),
        }
    }
}

/// The expectation that a crate did not meet.
#[derive(Clone, Copy, Debug, PartialEq, Eq, Structural)]
pub enum InspectionError {
    /// The local crate is not named `input`.
    CrateName,
    /// The crate has an entry point, and should have none.
    EntryPoint,
    /// The crate has no function at the path `main`.
    MissingMain,
    /// The crate does not depend on `std`.
    MissingStd,
}

/// What one statement contributes to the report, if anything.
pub open spec fn finding_of(statement: StatementView) -> Option<FindingView> {
    match statement {
        StatementView::Assign(_, RvalueView::Aggregate(_, operands)) => Some(
            FindingView::Aggregate(operands),
        ),
        StatementView::Assign(_, RvalueView::CheckedBinaryOp(_, left, right)) => Some(
            FindingView::CheckedBinaryOp(left, right),
        ),
        _ => None,
    }
}

/// The findings of a list of statements, in the order of the statements.
pub open spec fn findings_of(statements: Seq<StatementView>) -> Seq<FindingView>
    decreases statements.len(),
{
    if statements.len() == 0 {
        Seq::empty()
    } else {
        match finding_of(statements.last()) {
            Some(finding) => findings_of(statements.drop_last()).push(finding),
            None => findings_of(statements.drop_last()),
        }
    }
}

/// The findings as values of the model.
pub open spec fn findings_view(findings: Seq<Finding>) -> Seq<FindingView> {
    Seq::new(findings.len(), |i: int| findings[i]@)
}

/// The statements of the entry block of a function, in the stable model. A
/// definition without code has none.
pub open spec fn entry_statements(definition: DefinitionView) -> Seq<StatementView> {
    match definition.kind {
        DefinitionKindView::Function(body) => lift_block(body.entry).statements,
        _ => Seq::empty(),
    }
}

/// What the inspection of a crate comes to: the first expectation that the
/// crate does not meet, in the order in which they are checked, or the
/// findings in the entry block of its `main`.
pub open spec fn inspection(snapshot: SnapshotView) -> Result<Seq<FindingView>, InspectionError> {
    let main = first_where(snapshot.definitions, is_definition(ItemKind::Function, ENTRY_PATH@));
    if snapshot.local.name != CRATE_NAME@ {
        Err(InspectionError::CrateName)
    } else if entry_index(snapshot) is Some {
        Err(InspectionError::EntryPoint)
    } else if main >= snapshot.definitions.len() {
        Err(InspectionError::MissingMain)
    } else if found_crate(snapshot, STD_NAME@) is None {
        Err(InspectionError::MissingStd)
    } else {
        Ok(findings_of(entry_statements(snapshot.definitions[main])))
    }
}

/// The table after the inspection: untouched where the name is wrong, with
/// the entry point added where there is one, and with every local definition
/// added in all other cases.
pub open spec fn inspected_table(table: Seq<InternalId>, snapshot: SnapshotView) -> Seq<
    InternalId,
> {
    if snapshot.local.name != CRATE_NAME@ {
        table
    } else if entry_index(snapshot) is Some {
        intern(table, local_id(snapshot, entry_index(snapshot)->0))
    } else {
        intern_locals(table, snapshot, snapshot.definitions.len())
    }
}

fn copy_operands(operands: &Vec<Operand>) -> (out: Vec<Operand>)
    ensures
        out@ == operands@,
{
    let mut out: Vec<Operand> = Vec::new();
    let n = operands.len();
    let mut i: usize = 0;
    while i < n
        invariant
            n == operands@.len(),
            0 <= i <= n,
            out@ == operands@.take(i as int),
        decreases n - i,
    {
        out.push(operands[i]);
        assert(operands@.take(i + 1) =~= operands@.take(i as int).push(operands@[i as int]));
        i += 1;
    }
    assert(operands@.take(n as int) =~= operands@);
    out
}

/// What one statement contributes to the report, if anything.
pub fn finding_in(statement: &Statement) -> (found: Option<Finding>)
    ensures
        match finding_of(statement@) {
            Some(finding) => found is Some && found->0@ == finding,
            None => found is None,
        },
{
    match statement {
        Statement::Assign(_, Rvalue::Aggregate(_, operands)) => Some(
            Finding::Aggregate(copy_operands(operands)),
        ),
        Statement::Assign(_, Rvalue::CheckedBinaryOp(_, left, right)) => Some(
            Finding::CheckedBinaryOp(*left, *right),
        ),
        _ => None,
    }
}

/// The assignments of a block whose right-hand side is an aggregate or a
/// checked operation, in the order of the statements, each reduced to its
/// operands. Every other statement is passed over.
pub fn specialized_assignments(block: &BasicBlock) -> (findings: Vec<Finding>)
    ensures
        findings_view(findings@) == findings_of(block@.statements),
{
    let mut findings: Vec<Finding> = Vec::new();
    let n = block.statements.len();
    let mut i: usize = 0;
    while i < n
        invariant
            n == block.statements@.len(),
            0 <= i <= n,
            findings_view(findings@) == findings_of(block@.statements.take(i as int)),
        decreases n - i,
    {
        let ghost before = findings@;
        let ghost upto = block@.statements.take(i + 1);
        proof {
            assert(upto.last() == block.statements@[i as int]@);
            assert(upto.drop_last() =~= block@.statements.take(i as int));
        }
        match finding_in(&block.statements[i]) {
            Some(finding) => {
                findings.push(finding);
                assert(findings_view(findings@) =~= findings_view(before).push(finding@));
            },
            None => {},
        }
        i += 1;
    }
    assert(block@.statements.take(n as int) =~= block@.statements);
    findings
}

/// Inspects the crate of `session`. The crate must be named `input`, have no
/// entry point, define a function at the path `main` and depend on `std`;
/// the first of these that fails is the error. Where all hold, the result is
/// the findings in the entry block of `main`.
pub fn inspect_crate(session: &mut Session) -> (report: Result<Vec<Finding>, InspectionError>)
    ensures
        final(session).number() == old(session).number(),
        final(session).snapshot() == old(session).snapshot(),
        final(session).table() == inspected_table(old(session).table(), old(session).snapshot()),
        match inspection(old(session).snapshot()) {
            Ok(findings) => report is Ok && findings_view(report->Ok_0@) == findings,
            Err(e) => report == Err::<Vec<Finding>, InspectionError>(e),
        },
{
    let ghost snapshot = session.snapshot();
    let ghost start = session.table();
    let local = session.local_crate();
    let expected = CRATE_NAME.to_owned();
    if !(local.name == expected) {
        return Err(InspectionError::CrateName);
    }
    if session.entry_fn().is_some() {
        return Err(InspectionError::EntryPoint);
    }
    let main = match session.find_item(ItemKind::Function, ENTRY_PATH) {
        Some(item) => item,
        None => {
            return Err(InspectionError::MissingMain);
        },
    };
    if session.find_crate(STD_NAME).is_none() {
        return Err(InspectionError::MissingStd);
    }
    proof {
        let at = first_where(snapshot.definitions, is_definition(ItemKind::Function, ENTRY_PATH@));
        session.lemma_fits();
        lemma_first_where(snapshot.definitions, is_definition(ItemKind::Function, ENTRY_PATH@));
        lemma_intern_locals(start, snapshot, snapshot.definitions.len());
        assert(position(session.table(), local_id(snapshot, at)) < session.table().len());
        lemma_listed_item_stands_for(session.table(), session.number(), snapshot, at);
    }
    match session.materialize(&main) {
        Ok(body) => {
            assert(body@.blocks[0] == body.blocks@[0]@);
            Ok(specialized_assignments(&body.blocks[0]))
        },
        // `main` was found as a function of this session, so it has a body.
        Err(_) => {
            assert(false);
            Ok(Vec::new())
        },
    }
}

} // verus!
