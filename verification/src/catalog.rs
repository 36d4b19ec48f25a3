//! What the compiler knows of one compilation unit, as plain values, and the
//! stable values that the bridge gives out for crates and items.

use vstd::prelude::*;
use crate::ident::{Handle, InternalId};
use crate::internal::{InternalBody, InternalBodyView};
use crate::search::{first_where, lemma_first_where_is};

verus! {

/// What a top-level declaration is.
#[derive(Clone, Copy, Debug, PartialEq, Eq, Structural)]
pub enum ItemKind {
    Function,
    Type,
    Const,
    Static,
    Other,
}

/// What the compilation unit is built as.
#[derive(Clone, Copy, Debug, PartialEq, Eq, Structural)]
pub enum CrateType {
    Binary,
    Library,
}

/// A crate as the compiler numbers and names it.
#[derive(Clone, Debug, PartialEq, Eq)]
pub struct CrateRecord {
    pub num: u32,
    pub name: String,
}

/// What a definition is. A function comes with its body; a function that is
/// only declared here and defined elsewhere is `Other`.
#[derive(Clone, Debug, PartialEq, Eq)]
pub enum DefinitionKind {
    Function(InternalBody),
    Type,
    Const,
    Static,
    Other,
}

/// One top-level declaration of the local crate.
#[derive(Clone, Debug, PartialEq, Eq)]
pub struct Definition {
    /// The fully qualified path, as the compiler prints it.
    pub path: String,
    pub kind: DefinitionKind,
}

/// The compiler's state after analysis. The definitions stand in the
/// compiler's own order, and the place of one in `definitions` is the index of
/// its internal identifier.
#[derive(Clone, Debug, PartialEq, Eq)]
pub struct Snapshot {
    pub crate_type: CrateType,
    pub local: CrateRecord,
    pub dependencies: Vec<CrateRecord>,
    pub definitions: Vec<Definition>,
}

/// A crate, as the bridge reports it.
#[derive(Clone, Debug, PartialEq, Eq)]
pub struct Crate {
    pub id: usize,
    pub name: String,
    pub is_local: bool,
}

/// A top-level declaration, as the bridge reports it. It is good for queries
/// only with the session that gave it out, and only while that session lasts.
#[derive(Clone, Copy, Debug, PartialEq, Eq, Structural)]
pub struct Item {
    pub id: Handle,
    pub kind: ItemKind,
}

pub ghost struct CrateRecordView {
    pub num: u32,
    pub name: Seq<char>,
}

pub ghost enum DefinitionKindView {
    Function(InternalBodyView),
    Type,
    Const,
    Static,
    Other,
}

pub ghost struct DefinitionView {
    pub path: Seq<char>,
    pub kind: DefinitionKindView,
}

pub ghost struct SnapshotView {
    pub crate_type: CrateType,
    pub local: CrateRecordView,
    pub dependencies: Seq<CrateRecordView>,
    pub definitions: Seq<DefinitionView>,
}

pub ghost struct CrateView {
    pub id: usize,
    pub name: Seq<char>,
    pub is_local: bool,
}

impl View for CrateRecord {
    type V = CrateRecordView;

    open spec fn view(&self) -> CrateRecordView {
        CrateRecordView { num: self.num, name: self.name@ }
    }
}

impl View for DefinitionKind {
    type V = DefinitionKindView;

    open spec fn view(&self) -> DefinitionKindView {
        match *self {
            DefinitionKind::Function(body) => DefinitionKindView::Function(body@),
            DefinitionKind::Type => DefinitionKindView::Type,
            DefinitionKind::Const => DefinitionKindView::Const,
            DefinitionKind::Static => DefinitionKindView::Static,
            DefinitionKind::Other => DefinitionKindView::Other,
        }
    }
}

impl View for Definition {
    type V = DefinitionView;

    open spec fn view(&self) -> DefinitionView {
        DefinitionView { path: self.path@, kind: self.kind@ }
    }
}

impl View for Snapshot {
    type V = SnapshotView;

    open spec fn view(&self) -> SnapshotView {
        SnapshotView {
            crate_type: self.crate_type,
            local: self.local@,
            dependencies: self.dependencies@.map_values(|c: CrateRecord| c@),
            definitions: self.definitions@.map_values(|d: Definition| d@),
        }
    }
}

impl View for Crate {
    type V = CrateView;

    open spec fn view(&self) -> CrateView {
        CrateView { id: self.id, name: self.name@, is_local: self.is_local }
    }
}

/// The item kind of a definition.
pub open spec fn item_kind(kind: DefinitionKindView) -> ItemKind {
    match kind {
        DefinitionKindView::Function(_) => ItemKind::Function,
        DefinitionKindView::Type => ItemKind::Type,
        DefinitionKindView::Const => ItemKind::Const,
        DefinitionKindView::Static => ItemKind::Static,
        DefinitionKindView::Other => ItemKind::Other,
    }
}

/// The internal identifier of the local definition at place `i`.
pub open spec fn local_id(snapshot: SnapshotView, i: int) -> InternalId {
    InternalId { krate: snapshot.local.num, index: i as usize }
}

/// The local definition that `id` names, if it names one.
pub open spec fn definition_at(snapshot: SnapshotView, id: InternalId) -> Option<DefinitionView> {
    if id.krate == snapshot.local.num && id.index < snapshot.definitions.len() {
        Some(snapshot.definitions[id.index as int])
    } else {
        None
    }
}

/// The test "is this a definition of kind `kind` at path `path`?".
pub open spec fn is_definition(kind: ItemKind, path: Seq<char>) -> spec_fn(DefinitionView) -> bool {
    |d: DefinitionView| item_kind(d.kind) == kind && d.path == path
}

/// The test "is this the crate named `name`?".
pub open spec fn is_named(name: Seq<char>) -> spec_fn(CrateRecordView) -> bool {
    |c: CrateRecordView| c.name == name
}

impl DefinitionKind {
    /// The item kind of the definition.
    pub fn item_kind(&self) -> (kind: ItemKind)
        ensures
            kind == item_kind(self@),
    {
        match self {
            DefinitionKind::Function(_) => ItemKind::Function,
            DefinitionKind::Type => ItemKind::Type,
            DefinitionKind::Const => ItemKind::Const,
            DefinitionKind::Static => ItemKind::Static,
            DefinitionKind::Other => ItemKind::Other,
        }
    }
}

impl Snapshot {
    /// The local definition that `id` names, if it names one.
    pub fn definition(&self, id: InternalId) -> (found: Option<&Definition>)
        ensures
            match definition_at(self@, id) {
                Some(d) => found is Some && found->0@ == d,
                None => found is None,
            },
    {
        if id.krate == self.local.num && id.index < self.definitions.len() {
            Some(&self.definitions[id.index])
        } else {
            None
        }
    }

    /// The place of the first definition of kind `kind` at path `path`, or
    /// the number of definitions where there is none.
    pub fn first_definition(&self, kind: ItemKind, path: &str) -> (i: usize)
        ensures
            i == first_where(self@.definitions, is_definition(kind, path@)),
            i <= self@.definitions.len(),
    {
        let wanted = path.to_owned();
        let n = self.definitions.len();
        let mut i: usize = 0;
        while i < n && !(self.definitions[i].kind.item_kind() == kind
            && self.definitions[i].path == wanted)
            invariant
                n == self.definitions@.len(),
                wanted@ == path@,
                0 <= i <= n,
                forall|j: int|
                    0 <= j < i ==> !is_definition(kind, path@)(#[trigger] self@.definitions[j]),
            decreases n - i,
        {
            i += 1;
        }
        proof {
            lemma_first_where_is(
                self@.definitions,
                is_definition(kind, path@),
                i as int,
            );
        }
        i
    }
}

} // verus!
