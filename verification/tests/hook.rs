use ir_bridge::catalog::{CrateRecord, CrateType, Definition, DefinitionKind, Snapshot};
use ir_bridge::error::BridgeError;
use ir_bridge::hook::{step, Compilation, HookAction, HookAdapter, HookEvent, HookOutcome, HookState};
use ir_bridge::input::generate_input;
use ir_bridge::inspect::{
    finding_in, inspect_crate, specialized_assignments, Finding, InspectionError, CRATE_NAME,
    STD_NAME,
};
use ir_bridge::internal::{
    InternalBlock, InternalBody, InternalOperand, InternalRvalue, InternalStatement,
    RVALUE_AGGREGATE, RVALUE_CHECKED_BINARY_OP, RVALUE_USE,
};
use ir_bridge::mir::{
    AggregateKind, BasicBlock, BinOp, Operand, Place, RawRvalue, RawStatement, Rvalue, Statement,
    Terminator,
};
use ir_bridge::session::{Session, ENTRY_PATH};

fn record(num: u32, name: &str) -> CrateRecord {
    CrateRecord { num, name: name.to_string() }
}

fn body(statements: Vec<InternalStatement>) -> InternalBody {
    InternalBody { entry: InternalBlock { statements, terminator: 7 }, rest: vec![] }
}

fn function(path: &str, statements: Vec<InternalStatement>) -> Definition {
    Definition { path: path.to_string(), kind: DefinitionKind::Function(body(statements)) }
}

fn input_crate(statements: Vec<InternalStatement>) -> Snapshot {
    Snapshot {
        crate_type: CrateType::Library,
        local: record(0, "input"),
        dependencies: vec![record(1, "std")],
        definitions: vec![function("main", statements)],
    }
}

fn mixed_statements() -> Vec<InternalStatement> {
    vec![
        InternalStatement::Other(RawStatement { tag: 4, arg: 1 }),
        InternalStatement::Assign(
            1,
            InternalRvalue {
                tag: RVALUE_AGGREGATE,
                code: 1,
                operands: vec![InternalOperand::Constant(3), InternalOperand::Copy(2)],
            },
        ),
        InternalStatement::Assign(
            3,
            InternalRvalue {
                tag: RVALUE_USE,
                code: 0,
                operands: vec![InternalOperand::Constant(5)],
            },
        ),
        InternalStatement::Assign(
            4,
            InternalRvalue {
                tag: RVALUE_CHECKED_BINARY_OP,
                code: 2,
                operands: vec![InternalOperand::Move(1), InternalOperand::Constant(2)],
            },
        ),
        InternalStatement::Assign(
            5,
            InternalRvalue { tag: RVALUE_AGGREGATE, code: 0, operands: vec![] },
        ),
    ]
}

fn mixed_findings() -> Vec<Finding> {
    vec![
        Finding::Aggregate(vec![Operand::Constant(3), Operand::Copy(Place { local: 2 })]),
        Finding::CheckedBinaryOp(Operand::Move(Place { local: 1 }), Operand::Constant(2)),
        Finding::Aggregate(vec![]),
    ]
}

#[test]
fn transitions() {
    let all_states = [HookState::Uninitialized, HookState::Active, HookState::Closed];
    let all_events = [
        HookEvent::AnalysisSucceeded,
        HookEvent::InspectionReturned,
        HookEvent::InspectionFailed,
    ];
    for decision in [Compilation::Continue, Compilation::Stop] {
        for state in all_states {
            for event in all_events {
                let expected = match (state, event) {
                    (HookState::Uninitialized, HookEvent::AnalysisSucceeded) => {
                        (HookState::Active, HookAction::Inspect)
                    }
                    (HookState::Active, HookEvent::InspectionReturned) => {
                        (HookState::Closed, HookAction::Report(decision))
                    }
                    (HookState::Active, HookEvent::InspectionFailed) => {
                        (HookState::Closed, HookAction::Propagate)
                    }
                    _ => (state, HookAction::Refuse),
                };
                assert_eq!(step(state, decision, event), expected);
            }
        }
    }
}

#[test]
fn the_hook_is_entered_once() {
    let mut adapter = HookAdapter::new(1, Compilation::Stop);
    assert_eq!(adapter.current_state(), HookState::Uninitialized);
    let session = adapter.enter(input_crate(vec![]));
    assert!(session.is_some());
    assert_eq!(session.as_ref().unwrap().session_number(), 1);
    assert_eq!(adapter.current_state(), HookState::Active);
    assert!(adapter.enter(input_crate(vec![])).is_none());
    assert_eq!(adapter.current_state(), HookState::Active);
    assert_eq!(
        adapter.leave(session.unwrap(), HookEvent::InspectionReturned),
        HookAction::Report(Compilation::Stop)
    );
    assert_eq!(adapter.current_state(), HookState::Closed);
    assert!(adapter.enter(input_crate(vec![])).is_none());
    assert_eq!(adapter.current_state(), HookState::Closed);
}

#[test]
fn continuing_is_a_choice() {
    let mut adapter = HookAdapter::new(1, Compilation::Continue);
    let session = adapter.enter(input_crate(vec![])).unwrap();
    assert_eq!(
        adapter.leave(session, HookEvent::InspectionReturned),
        HookAction::Report(Compilation::Continue)
    );
}

#[test]
fn a_failed_inspection_is_handed_on() {
    let mut adapter = HookAdapter::new(1, Compilation::Continue);
    let session = adapter.enter(input_crate(vec![])).unwrap();
    assert_eq!(adapter.leave(session, HookEvent::InspectionFailed), HookAction::Propagate);
    assert_eq!(adapter.current_state(), HookState::Closed);
}

#[test]
fn leaving_is_refused_where_it_does_not_fit() {
    // Before the hook was entered.
    let mut adapter = HookAdapter::new(1, Compilation::Stop);
    let stray = Session::open(1, input_crate(vec![]));
    assert_eq!(adapter.leave(stray, HookEvent::InspectionReturned), HookAction::Refuse);
    assert_eq!(adapter.current_state(), HookState::Uninitialized);
    // With the session of another adapter.
    let session = adapter.enter(input_crate(vec![])).unwrap();
    let foreign = Session::open(2, input_crate(vec![]));
    assert_eq!(adapter.leave(foreign, HookEvent::InspectionReturned), HookAction::Refuse);
    assert_eq!(adapter.current_state(), HookState::Active);
    // With an event that does not end an inspection.
    let again = Session::open(1, input_crate(vec![]));
    assert_eq!(adapter.leave(again, HookEvent::AnalysisSucceeded), HookAction::Refuse);
    assert_eq!(adapter.current_state(), HookState::Active);
    // After the hook was left.
    assert_eq!(adapter.leave(session, HookEvent::InspectionFailed), HookAction::Propagate);
    let late = Session::open(1, input_crate(vec![]));
    assert_eq!(adapter.leave(late, HookEvent::InspectionReturned), HookAction::Refuse);
    assert_eq!(adapter.current_state(), HookState::Closed);
}

#[test]
fn handles_do_not_outlive_their_session() {
    let mut first = HookAdapter::new(1, Compilation::Stop);
    let mut session = first.enter(input_crate(vec![])).unwrap();
    let main = session.local_items()[0];
    assert!(session.materialize(&main).is_ok());
    first.leave(session, HookEvent::InspectionReturned);
    let mut second = HookAdapter::new(2, Compilation::Stop);
    let mut later = second.enter(input_crate(vec![])).unwrap();
    later.local_items();
    assert_eq!(later.to_internal(main.id), Err(BridgeError::InvalidHandle));
    assert_eq!(later.materialize(&main), Err(BridgeError::InvalidHandle));
}

#[test]
fn after_analysis_runs_the_inspection_and_closes() {
    let mut adapter = HookAdapter::new(1, Compilation::Stop);
    let outcome = adapter.after_analysis(input_crate(mixed_statements()));
    assert_eq!(
        outcome,
        HookOutcome {
            action: HookAction::Report(Compilation::Stop),
            inspection: Some(Ok(mixed_findings()))
        }
    );
    assert_eq!(adapter.current_state(), HookState::Closed);
    let again = adapter.after_analysis(input_crate(mixed_statements()));
    assert_eq!(again, HookOutcome { action: HookAction::Refuse, inspection: None });
    assert_eq!(adapter.current_state(), HookState::Closed);
}

#[test]
fn after_analysis_hands_on_a_failed_inspection() {
    let mut adapter = HookAdapter::new(1, Compilation::Continue);
    let mut snapshot = input_crate(vec![]);
    snapshot.dependencies = vec![];
    let outcome = adapter.after_analysis(snapshot);
    assert_eq!(
        outcome,
        HookOutcome {
            action: HookAction::Propagate,
            inspection: Some(Err(InspectionError::MissingStd))
        }
    );
    assert_eq!(adapter.current_state(), HookState::Closed);
}

#[test]
fn after_analysis_is_refused_on_an_active_adapter() {
    let mut adapter = HookAdapter::new(1, Compilation::Continue);
    let _session = adapter.enter(input_crate(vec![])).unwrap();
    let outcome = adapter.after_analysis(input_crate(vec![]));
    assert_eq!(outcome, HookOutcome { action: HookAction::Refuse, inspection: None });
    assert_eq!(adapter.current_state(), HookState::Active);
}

#[test]
fn inspection_of_a_trivial_main() {
    let mut session = Session::open(1, input_crate(vec![]));
    assert_eq!(inspect_crate(&mut session), Ok(vec![]));
}

#[test]
fn inspection_reports_the_specialized_assignments_in_order() {
    let mut session = Session::open(1, input_crate(mixed_statements()));
    assert_eq!(inspect_crate(&mut session), Ok(mixed_findings()));
    assert_eq!(inspect_crate(&mut session), Ok(mixed_findings()));
}

#[test]
fn inspection_reads_the_entry_block_only() {
    let mut snapshot = input_crate(vec![]);
    snapshot.definitions = vec![Definition {
        path: "main".to_string(),
        kind: DefinitionKind::Function(InternalBody {
            entry: InternalBlock { statements: vec![], terminator: 9 },
            rest: vec![InternalBlock { statements: mixed_statements(), terminator: 7 }],
        }),
    }];
    let mut session = Session::open(1, snapshot);
    assert_eq!(inspect_crate(&mut session), Ok(vec![]));
}

#[test]
fn inspection_reads_the_first_main() {
    let mut snapshot = input_crate(vec![]);
    snapshot.definitions = vec![
        Definition { path: "main".to_string(), kind: DefinitionKind::Static },
        function("main", mixed_statements()),
        function("main", vec![]),
    ];
    let mut session = Session::open(1, snapshot);
    assert_eq!(inspect_crate(&mut session), Ok(mixed_findings()));
}

#[test]
fn inspection_fails_on_another_crate_name() {
    let mut snapshot = input_crate(vec![]);
    snapshot.local = record(0, "output");
    let mut session = Session::open(1, snapshot);
    assert_eq!(inspect_crate(&mut session), Err(InspectionError::CrateName));
}

#[test]
fn inspection_fails_on_an_entry_point() {
    let mut snapshot = input_crate(vec![]);
    snapshot.crate_type = CrateType::Binary;
    let mut session = Session::open(1, snapshot);
    assert_eq!(inspect_crate(&mut session), Err(InspectionError::EntryPoint));
}

#[test]
fn inspection_fails_without_main() {
    let mut snapshot = input_crate(vec![]);
    snapshot.definitions = vec![
        function("start", vec![]),
        Definition { path: "main".to_string(), kind: DefinitionKind::Type },
    ];
    let mut session = Session::open(1, snapshot);
    assert_eq!(inspect_crate(&mut session), Err(InspectionError::MissingMain));
    // A binary without `main` has no entry point either.
    let mut snapshot = input_crate(vec![]);
    snapshot.crate_type = CrateType::Binary;
    snapshot.definitions = vec![];
    let mut session = Session::open(1, snapshot);
    assert_eq!(inspect_crate(&mut session), Err(InspectionError::MissingMain));
}

#[test]
fn inspection_fails_without_std() {
    let mut snapshot = input_crate(vec![]);
    snapshot.dependencies = vec![record(1, "core"), record(2, "stdx")];
    let mut session = Session::open(1, snapshot);
    assert_eq!(inspect_crate(&mut session), Err(InspectionError::MissingStd));
}

#[test]
fn inspection_checks_in_order() {
    // Wrong name, an entry point, no `std`: the name is reported.
    let snapshot = Snapshot {
        crate_type: CrateType::Binary,
        local: record(0, "other"),
        dependencies: vec![],
        definitions: vec![function("main", vec![])],
    };
    let mut session = Session::open(1, snapshot);
    assert_eq!(inspect_crate(&mut session), Err(InspectionError::CrateName));
    // No `main` and no `std`: `main` is reported.
    let snapshot = Snapshot {
        crate_type: CrateType::Library,
        local: record(0, "input"),
        dependencies: vec![],
        definitions: vec![],
    };
    let mut session = Session::open(1, snapshot);
    assert_eq!(inspect_crate(&mut session), Err(InspectionError::MissingMain));
}

#[test]
fn findings_of_single_statements() {
    let aggregate = Statement::Assign(
        Place { local: 1 },
        Rvalue::Aggregate(AggregateKind::Closure, vec![Operand::Constant(4)]),
    );
    assert_eq!(finding_in(&aggregate), Some(Finding::Aggregate(vec![Operand::Constant(4)])));
    let checked = Statement::Assign(
        Place { local: 1 },
        Rvalue::CheckedBinaryOp(BinOp::Shl, Operand::Constant(4), Operand::Constant(5)),
    );
    assert_eq!(
        finding_in(&checked),
        Some(Finding::CheckedBinaryOp(Operand::Constant(4), Operand::Constant(5)))
    );
    let other = Statement::Assign(
        Place { local: 1 },
        Rvalue::Other(RawRvalue { tag: 0, code: 0, operands: vec![Operand::Constant(4)] }),
    );
    assert_eq!(finding_in(&other), None);
    assert_eq!(finding_in(&Statement::Other(RawStatement { tag: 0, arg: 0 })), None);
}

#[test]
fn findings_of_an_empty_block() {
    let block = BasicBlock { statements: vec![], terminator: Terminator { tag: 0 } };
    assert_eq!(specialized_assignments(&block), vec![]);
}

#[test]
fn names_that_the_inspection_expects() {
    assert_eq!(CRATE_NAME, "input");
    assert_eq!(STD_NAME, "std");
    assert_eq!(ENTRY_PATH, "main");
}

#[test]
fn generate_input_has_nothing_to_do() {
    assert!(generate_input("input.rs").is_ok());
    assert!(generate_input("").is_ok());
}
