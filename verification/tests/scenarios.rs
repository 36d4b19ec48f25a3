use ir_bridge::catalog::{
    Crate, CrateRecord, CrateType, Definition, DefinitionKind, Item, ItemKind, Snapshot,
};
use ir_bridge::error::BridgeError;
use ir_bridge::inspect::{specialized_assignments, Finding};
use ir_bridge::internal::{
    InternalBlock, InternalBody, InternalOperand, InternalRvalue, InternalStatement,
    RVALUE_CHECKED_BINARY_OP, RVALUE_USE,
};
use ir_bridge::mir::{BinOp, Operand, Place, RawStatement, Rvalue, Statement};
use ir_bridge::session::Session;

const TERMINATOR_RETURN: u32 = 7;
const TERMINATOR_ASSERT: u32 = 9;
const STATEMENT_STORAGE_LIVE: u32 = 4;

fn record(num: u32, name: &str) -> CrateRecord {
    CrateRecord { num, name: name.to_string() }
}

fn function(path: &str, body: InternalBody) -> Definition {
    Definition { path: path.to_string(), kind: DefinitionKind::Function(body) }
}

fn empty_body() -> InternalBody {
    InternalBody {
        entry: InternalBlock { statements: vec![], terminator: TERMINATOR_RETURN },
        rest: vec![],
    }
}

/// `fn main() { let x = 1 + 1; }` with overflow checks.
fn checked_add_body() -> InternalBody {
    InternalBody {
        entry: InternalBlock {
            statements: vec![
                InternalStatement::Other(RawStatement { tag: STATEMENT_STORAGE_LIVE, arg: 1 }),
                InternalStatement::Assign(
                    2,
                    InternalRvalue {
                        tag: RVALUE_CHECKED_BINARY_OP,
                        code: 0,
                        operands: vec![InternalOperand::Constant(1), InternalOperand::Constant(1)],
                    },
                ),
            ],
            terminator: TERMINATOR_ASSERT,
        },
        rest: vec![InternalBlock {
            statements: vec![InternalStatement::Assign(
                1,
                InternalRvalue {
                    tag: RVALUE_USE,
                    code: 0,
                    operands: vec![InternalOperand::Move(2)],
                },
            )],
            terminator: TERMINATOR_RETURN,
        }],
    }
}

fn snapshot(crate_type: CrateType, definitions: Vec<Definition>) -> Snapshot {
    Snapshot {
        crate_type,
        local: record(0, "input"),
        dependencies: vec![record(1, "std"), record(2, "core"), record(3, "alloc")],
        definitions,
    }
}

#[test]
fn library_with_empty_main() {
    let mut session =
        Session::open(1, snapshot(CrateType::Library, vec![function("main", empty_body())]));
    assert_eq!(session.local_crate().name, "input");
    assert!(session.local_crate().is_local);
    assert_eq!(session.entry_fn(), None);
    let main = session.find_item(ItemKind::Function, "main");
    assert!(main.is_some());
    let body = main.unwrap().body(&session).unwrap();
    assert_eq!(body.blocks.len(), 1);
    assert_eq!(body.blocks[0].statements.len(), 0);
    assert_eq!(specialized_assignments(&body.blocks[0]), Vec::<Finding>::new());
}

#[test]
fn library_with_checked_addition() {
    let mut session =
        Session::open(1, snapshot(CrateType::Library, vec![function("main", checked_add_body())]));
    let main = session.find_item(ItemKind::Function, "main").unwrap();
    let body = session.materialize(&main).unwrap();
    let entry = &body.blocks[0];
    let assignments: Vec<&Statement> =
        entry.statements.iter().filter(|s| matches!(s, Statement::Assign(..))).collect();
    assert_eq!(assignments.len(), 1);
    match assignments[0] {
        Statement::Assign(place, Rvalue::CheckedBinaryOp(op, left, right)) => {
            assert_eq!(*place, Place { local: 2 });
            assert_eq!(*op, BinOp::Add);
            assert_eq!(op.symbol(), "+");
            assert_eq!(*left, Operand::Constant(1));
            assert_eq!(*right, Operand::Constant(1));
        }
        other => panic!("not a checked operation: {:?}", other),
    }
    assert_eq!(
        specialized_assignments(entry),
        vec![Finding::CheckedBinaryOp(Operand::Constant(1), Operand::Constant(1))]
    );
    assert_eq!(body.blocks.len(), 2);
    assert_eq!(specialized_assignments(&body.blocks[1]), Vec::<Finding>::new());
}

#[test]
fn find_crate_by_exact_name() {
    let session = Session::open(1, snapshot(CrateType::Library, vec![]));
    assert_eq!(
        session.find_crate("std"),
        Some(Crate { id: 1, name: "std".to_string(), is_local: false })
    );
    assert_eq!(session.find_crate("does-not-exist-xyz"), None);
    assert_eq!(session.find_crate("st"), None);
    assert_eq!(session.find_crate("Std"), None);
    assert_eq!(session.find_crate(""), None);
}

#[test]
fn find_crate_does_not_return_the_local_crate() {
    let session = Session::open(1, snapshot(CrateType::Library, vec![]));
    assert_eq!(session.find_crate("input"), None);
    assert_eq!(
        session.local_crate(),
        Crate { id: 0, name: "input".to_string(), is_local: true }
    );
}

#[test]
fn find_crate_returns_the_first_of_two_with_one_name() {
    let mut snapshot = snapshot(CrateType::Library, vec![]);
    snapshot.dependencies = vec![record(4, "rand"), record(9, "rand")];
    let session = Session::open(1, snapshot);
    assert_eq!(session.find_crate("rand").unwrap().id, 4);
}

#[test]
fn a_library_has_no_entry_point() {
    let definitions = vec![
        Definition { path: "Config".to_string(), kind: DefinitionKind::Type },
        function("main", empty_body()),
    ];
    let mut library = Session::open(1, snapshot(CrateType::Library, definitions.clone()));
    assert_eq!(library.entry_fn(), None);
    let mut empty_library = Session::open(2, snapshot(CrateType::Library, vec![]));
    assert_eq!(empty_library.entry_fn(), None);
    let mut binary = Session::open(3, snapshot(CrateType::Binary, definitions));
    let entry = binary.entry_fn().unwrap();
    assert_eq!(entry.kind, ItemKind::Function);
    assert_eq!(binary.to_internal(entry.id).unwrap().index, 1);
    assert_eq!(binary.entry_fn(), Some(entry));
}

#[test]
fn a_binary_without_main_has_no_entry_point() {
    let definitions = vec![
        function("start", empty_body()),
        Definition { path: "main".to_string(), kind: DefinitionKind::Const },
        function("helpers::main", empty_body()),
    ];
    let mut binary = Session::open(1, snapshot(CrateType::Binary, definitions));
    assert_eq!(binary.entry_fn(), None);
}

#[test]
fn local_items_come_in_the_order_of_the_definitions() {
    let definitions = vec![
        Definition { path: "Config".to_string(), kind: DefinitionKind::Type },
        function("main", empty_body()),
        Definition { path: "LIMIT".to_string(), kind: DefinitionKind::Const },
        Definition { path: "COUNTER".to_string(), kind: DefinitionKind::Static },
        Definition { path: "helpers".to_string(), kind: DefinitionKind::Other },
    ];
    let mut session = Session::open(5, snapshot(CrateType::Library, definitions));
    let items = session.local_items();
    let kinds: Vec<ItemKind> = items.iter().map(|item| item.kind).collect();
    assert_eq!(
        kinds,
        vec![ItemKind::Type, ItemKind::Function, ItemKind::Const, ItemKind::Static, ItemKind::Other]
    );
    for (place, item) in items.iter().enumerate() {
        assert_eq!(item.id.session, 5);
        assert_eq!(item.id.index, place);
        assert_eq!(session.to_internal(item.id).unwrap().index, place);
        assert_eq!(session.to_internal(item.id).unwrap().krate, 0);
    }
    assert_eq!(session.local_items(), items);
}

#[test]
fn handles_follow_the_order_of_first_use() {
    let definitions = vec![
        Definition { path: "Config".to_string(), kind: DefinitionKind::Type },
        function("main", empty_body()),
    ];
    let mut session = Session::open(5, snapshot(CrateType::Binary, definitions));
    let entry = session.entry_fn().unwrap();
    assert_eq!(entry.id.index, 0);
    let items = session.local_items();
    assert_eq!(items[0].id.index, 1);
    assert_eq!(items[1], entry);
}

#[test]
fn find_item_returns_the_listed_item() {
    let definitions = vec![
        Definition { path: "main".to_string(), kind: DefinitionKind::Type },
        function("helpers::run", empty_body()),
        function("main", checked_add_body()),
    ];
    let mut session = Session::open(1, snapshot(CrateType::Library, definitions));
    let items = session.local_items();
    let main = session.find_item(ItemKind::Function, "main");
    assert_eq!(main, Some(items[2]));
    assert_eq!(session.find_item(ItemKind::Function, "main"), main);
    assert_eq!(session.get_item(&items, ItemKind::Function, "main"), main);
    assert_eq!(session.find_item(ItemKind::Function, "helpers::run"), Some(items[1]));
    assert_eq!(session.find_item(ItemKind::Type, "main"), Some(items[0]));
    assert_eq!(session.find_item(ItemKind::Const, "main"), None);
    assert_eq!(session.find_item(ItemKind::Function, "run"), None);
    assert_eq!(session.find_item(ItemKind::Function, "Main"), None);
}

#[test]
fn find_item_returns_the_first_of_two_with_one_path() {
    let definitions =
        vec![function("twice", empty_body()), function("twice", checked_add_body())];
    let mut session = Session::open(1, snapshot(CrateType::Library, definitions));
    let items = session.local_items();
    assert_eq!(session.find_item(ItemKind::Function, "twice"), Some(items[0]));
    let second = vec![items[1], items[0]];
    assert_eq!(session.get_item(&second, ItemKind::Function, "twice"), Some(items[1]));
}

#[test]
fn get_item_passes_over_items_of_another_session() {
    let definitions = vec![function("main", empty_body())];
    let mut first = Session::open(1, snapshot(CrateType::Library, definitions.clone()));
    let mut second = Session::open(2, snapshot(CrateType::Library, definitions));
    let foreign = first.local_items();
    let own = second.local_items();
    assert_eq!(second.get_item(&foreign, ItemKind::Function, "main"), None);
    let mixed = vec![foreign[0], own[0]];
    assert_eq!(second.get_item(&mixed, ItemKind::Function, "main"), Some(own[0]));
    assert_eq!(second.get_item(&vec![], ItemKind::Function, "main"), None);
}

#[test]
fn materialize_succeeds_on_functions_only() {
    let definitions = vec![
        Definition { path: "Config".to_string(), kind: DefinitionKind::Type },
        function("main", empty_body()),
        Definition { path: "LIMIT".to_string(), kind: DefinitionKind::Const },
        function("run", checked_add_body()),
        Definition { path: "COUNTER".to_string(), kind: DefinitionKind::Static },
        Definition { path: "helpers".to_string(), kind: DefinitionKind::Other },
    ];
    let mut session = Session::open(1, snapshot(CrateType::Library, definitions));
    for item in session.local_items() {
        let body = session.materialize(&item);
        if item.kind == ItemKind::Function {
            assert!(body.unwrap().blocks.len() >= 1);
        } else {
            assert_eq!(body, Err(BridgeError::NotExecutable));
        }
    }
}

#[test]
fn materialize_refuses_what_the_session_did_not_issue() {
    let definitions = vec![
        function("main", empty_body()),
        Definition { path: "Config".to_string(), kind: DefinitionKind::Type },
    ];
    let mut first = Session::open(1, snapshot(CrateType::Library, definitions.clone()));
    let mut second = Session::open(2, snapshot(CrateType::Library, definitions));
    let items = first.local_items();
    assert!(first.materialize(&items[0]).is_ok());
    assert_eq!(second.materialize(&items[0]), Err(BridgeError::InvalidHandle));
    second.local_items();
    assert_eq!(second.materialize(&items[0]), Err(BridgeError::InvalidHandle));
    assert_eq!(items[0].body(&second), Err(BridgeError::InvalidHandle));
    // An item of another kind is refused as such, wherever it comes from.
    assert_eq!(second.materialize(&items[1]), Err(BridgeError::NotExecutable));
    // A handle that was never given out.
    let never = Item { id: ir_bridge::ident::Handle { session: 1, index: 7 }, kind: ItemKind::Function };
    assert_eq!(first.materialize(&never), Err(BridgeError::InvalidHandle));
    // An item that claims to be a function and stands for a type.
    let forged = Item { id: items[1].id, kind: ItemKind::Function };
    assert_eq!(first.materialize(&forged), Err(BridgeError::NotExecutable));
    // An item that stands for something outside the local crate.
    let outside = first.to_stable(ir_bridge::ident::InternalId { krate: 1, index: 0 });
    let declared = Item { id: outside, kind: ItemKind::Function };
    assert_eq!(first.materialize(&declared), Err(BridgeError::NotExecutable));
}

#[test]
fn error_descriptions() {
    assert_eq!(BridgeError::InvalidHandle.describe(), "invalid handle");
    assert_eq!(BridgeError::NotExecutable.describe(), "not executable");
}
