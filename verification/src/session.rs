//! The query surface of one session: the crate at hand, its entry point, its
//! items, the crates it depends on, and the bodies of its functions.
//!
//! A `Session` exists from the moment the hook is entered until it is left.
//! It owns the snapshot of the compiler's state and the identity map. Every
//! query is total: it returns a value, an absence or a `BridgeError`, and
//! never stops the process.

use vstd::prelude::*;
use crate::catalog::{
    definition_at, is_definition, is_named, item_kind, local_id, Crate, CrateType, CrateView,
    DefinitionKind, DefinitionKindView, Item, ItemKind, Snapshot, SnapshotView,
};
use crate::error::BridgeError;
use crate::ident::{
    distinct, handle_of, intern, lemma_intern_holds, lemma_intern_keeps,
    lemma_intern_keeps_distinct, lemma_position, position, resolve, Handle, IdentityMap,
    InternalId,
};
use crate::materialize::{lift_body, translate_body};
use crate::mir::{Body, BodyView};
use crate::search::{first_where, lemma_first_where, lemma_first_where_agree, lemma_first_where_is};

verus! {

/// The path of the conventional entry function.
pub const ENTRY_PATH: &'static str = "main";

/// The table once the first `n` local definitions have handles, taken in order.
pub open spec fn intern_locals(table: Seq<InternalId>, snapshot: SnapshotView, n: nat) -> Seq<
    InternalId,
>
    decreases n,
{
    if n == 0 {
        table
    } else {
        intern(intern_locals(table, snapshot, (n - 1) as nat), local_id(snapshot, n - 1))
    }
}

/// The item for the local definition at place `i`, with the handle that
/// `table` has for it.
pub open spec fn item_at(table: Seq<InternalId>, session: u64, snapshot: SnapshotView, i: int) -> Item {
    Item {
        id: handle_of(table, session, local_id(snapshot, i)),
        kind: item_kind(snapshot.definitions[i].kind),
    }
}

/// The items of the local crate in the compiler's order.
pub open spec fn listed_items(table: Seq<InternalId>, session: u64, snapshot: SnapshotView) -> Seq<
    Item,
> {
    Seq::new(snapshot.definitions.len(), |i: int| item_at(table, session, snapshot, i))
}

/// The place of the entry function: the first function at the path `main`,
/// and only in a crate that is built as a binary.
pub open spec fn entry_index(snapshot: SnapshotView) -> Option<int> {
    let i = first_where(snapshot.definitions, is_definition(ItemKind::Function, ENTRY_PATH@));
    if snapshot.crate_type == CrateType::Binary && i < snapshot.definitions.len() {
        Some(i)
    } else {
        None
    }
}

/// The test "does this item stand for a definition of kind `kind` at path
/// `path`?". An item whose handle does not resolve stands for nothing.
pub open spec fn item_is(
    table: Seq<InternalId>,
    session: u64,
    snapshot: SnapshotView,
    kind: ItemKind,
    path: Seq<char>,
) -> spec_fn(Item) -> bool {
    |item: Item|
        match resolve(table, session, item.id) {
            Ok(id) => match definition_at(snapshot, id) {
                Some(d) => is_definition(kind, path)(d),
                None => false,
            },
            Err(_) => false,
        }
}

/// The first of `items` that stands for a definition of kind `kind` at path
/// `path`, if there is one.
pub open spec fn first_item(
    table: Seq<InternalId>,
    session: u64,
    snapshot: SnapshotView,
    items: Seq<Item>,
    kind: ItemKind,
    path: Seq<char>,
) -> Option<Item> {
    let i = first_where(items, item_is(table, session, snapshot, kind, path));
    if i < items.len() {
        Some(items[i])
    } else {
        None
    }
}

/// The item for the first local definition of kind `kind` at path `path`, if
/// there is one.
pub open spec fn found_item(
    table: Seq<InternalId>,
    session: u64,
    snapshot: SnapshotView,
    kind: ItemKind,
    path: Seq<char>,
) -> Option<Item> {
    let i = first_where(snapshot.definitions, is_definition(kind, path));
    if i < snapshot.definitions.len() {
        Some(item_at(table, session, snapshot, i))
    } else {
        None
    }
}

/// The first dependency named `name`, if there is one.
pub open spec fn found_crate(snapshot: SnapshotView, name: Seq<char>) -> Option<CrateView> {
    let i = first_where(snapshot.dependencies, is_named(name));
    if i < snapshot.dependencies.len() {
        Some(
            CrateView {
                id: snapshot.dependencies[i].num as usize,
                name: snapshot.dependencies[i].name,
                is_local: false,
            },
        )
    } else {
        None
    }
}

/// The body of `item`, or why it has none: the item is no function, its
/// handle does not resolve in this session, or what it resolves to is no
/// function defined in the local crate.
pub open spec fn body_of(
    table: Seq<InternalId>,
    session: u64,
    snapshot: SnapshotView,
    item: Item,
) -> Result<BodyView, BridgeError> {
    if item.kind != ItemKind::Function {
        Err(BridgeError::NotExecutable)
    } else {
        match resolve(table, session, item.id) {
            Err(_) => Err(BridgeError::InvalidHandle),
            Ok(id) => match definition_at(snapshot, id) {
                Some(d) => match d.kind {
                    DefinitionKindView::Function(body) => Ok(lift_body(body)),
                    _ => Err(BridgeError::NotExecutable),
                },
                None => Err(BridgeError::NotExecutable),
            },
        }
    }
}

/// What holds of the table once the first `n` local definitions have handles:
/// it has grown by at most `n` places, every place that was taken is as it
/// was, each of the `n` definitions has a place, and nothing stands twice.
pub proof fn lemma_intern_locals(table: Seq<InternalId>, snapshot: SnapshotView, n: nat)
    ensures
        table.len() <= intern_locals(table, snapshot, n).len() <= table.len() + n,
        forall|x: InternalId|
            position(table, x) < table.len() ==> #[trigger] position(
                intern_locals(table, snapshot, n),
                x,
            ) == position(table, x),
        forall|j: int|
            0 <= j < n ==> #[trigger] position(
                intern_locals(table, snapshot, n),
                local_id(snapshot, j),
            ) < intern_locals(table, snapshot, n).len(),
        distinct(table) ==> distinct(intern_locals(table, snapshot, n)),
    decreases n,
{
    if n > 0 {
        let before = intern_locals(table, snapshot, (n - 1) as nat);
        let added = local_id(snapshot, n - 1);
        let after = intern_locals(table, snapshot, n);
        lemma_intern_locals(table, snapshot, (n - 1) as nat);
        lemma_intern_holds(before, added);
        assert forall|x: InternalId| position(table, x) < table.len() implies #[trigger] position(
            after,
            x,
        ) == position(table, x) by {
            lemma_intern_keeps(before, added, x);
        }
        assert forall|j: int| 0 <= j < n implies #[trigger] position(
            after,
            local_id(snapshot, j),
        ) < after.len() by {
            if j < n - 1 {
                lemma_intern_keeps(before, added, local_id(snapshot, j));
            }
        }
        if distinct(table) {
            lemma_intern_keeps_distinct(before, added);
        }
    }
}

/// Listing is idempotent: once the local definitions have handles, giving
/// them handles again changes nothing, so a second listing returns the items
/// of the first.
pub proof fn lemma_listing_is_idempotent(table: Seq<InternalId>, snapshot: SnapshotView, n: nat)
    ensures
        intern_locals(intern_locals(table, snapshot, n), snapshot, n) == intern_locals(
            table,
            snapshot,
            n,
        ),
{
    let listed = intern_locals(table, snapshot, n);
    lemma_intern_locals(table, snapshot, n);
    lemma_relisting(listed, snapshot, n, n);
}

/// Giving handles to the first `k` local definitions changes nothing in a
/// table that holds the first `n` of them, for `k` up to `n`.
proof fn lemma_relisting(listed: Seq<InternalId>, snapshot: SnapshotView, n: nat, k: nat)
    requires
        k <= n,
        forall|j: int|
            0 <= j < n ==> #[trigger] position(listed, local_id(snapshot, j)) < listed.len(),
    ensures
        intern_locals(listed, snapshot, k) == listed,
    decreases k,
{
    if k > 0 {
        lemma_relisting(listed, snapshot, n, (k - 1) as nat);
        assert(position(listed, local_id(snapshot, k - 1)) < listed.len());
    }
}

/// In a table that holds every local definition, the item listed at place `j`
/// stands for the definition at place `j`.
pub proof fn lemma_listed_item_stands_for(
    table: Seq<InternalId>,
    session: u64,
    snapshot: SnapshotView,
    j: int,
)
    requires
        0 <= j < snapshot.definitions.len(),
        table.len() <= usize::MAX,
        snapshot.definitions.len() <= usize::MAX,
        position(table, local_id(snapshot, j)) < table.len(),
    ensures
        resolve(table, session, item_at(table, session, snapshot, j).id) == Ok::<
            InternalId,
            BridgeError,
        >(local_id(snapshot, j)),
        definition_at(snapshot, local_id(snapshot, j)) == Some(snapshot.definitions[j]),
{
    lemma_position(table, local_id(snapshot, j));
}

/// A search among the listed items finds what a search among the definitions
/// finds.
pub proof fn lemma_search_listed(
    table: Seq<InternalId>,
    session: u64,
    snapshot: SnapshotView,
    kind: ItemKind,
    path: Seq<char>,
)
    requires
        table.len() <= usize::MAX,
        snapshot.definitions.len() <= usize::MAX,
        forall|j: int|
            0 <= j < snapshot.definitions.len() ==> #[trigger] position(
                table,
                local_id(snapshot, j),
            ) < table.len(),
    ensures
        first_item(table, session, snapshot, listed_items(table, session, snapshot), kind, path)
            == found_item(table, session, snapshot, kind, path),
{
    let items = listed_items(table, session, snapshot);
    lemma_first_where(snapshot.definitions, is_definition(kind, path));
    assert forall|j: int| 0 <= j < items.len() implies item_is(
        table,
        session,
        snapshot,
        kind,
        path,
    )(#[trigger] items[j]) == is_definition(kind, path)(snapshot.definitions[j]) by {
        assert(position(table, local_id(snapshot, j)) < table.len());
        lemma_listed_item_stands_for(table, session, snapshot, j);
    }
    lemma_first_where_agree(
        items,
        item_is(table, session, snapshot, kind, path),
        snapshot.definitions,
        is_definition(kind, path),
    );
}

/// A listed item is found again by its own kind and path, unless a definition
/// of that kind at that path stands before it: the search returns the first.
pub proof fn lemma_find_item_returns_listed(
    table: Seq<InternalId>,
    session: u64,
    snapshot: SnapshotView,
    i: int,
)
    requires
        0 <= i < snapshot.definitions.len(),
        forall|j: int|
            0 <= j < i ==> !is_definition(
                item_kind(snapshot.definitions[i].kind),
                snapshot.definitions[i].path,
            )(#[trigger] snapshot.definitions[j]),
    ensures
        found_item(
            table,
            session,
            snapshot,
            item_kind(snapshot.definitions[i].kind),
            snapshot.definitions[i].path,
        ) == Some(listed_items(table, session, snapshot)[i]),
{
    lemma_first_where_is(
        snapshot.definitions,
        is_definition(item_kind(snapshot.definitions[i].kind), snapshot.definitions[i].path),
        i,
    );
}

/// Finding is idempotent: a second search changes nothing in the table and
/// returns the item of the first.
pub proof fn lemma_finding_is_idempotent(
    table: Seq<InternalId>,
    session: u64,
    snapshot: SnapshotView,
    kind: ItemKind,
    path: Seq<char>,
)
    ensures
        ({
            let n = snapshot.definitions.len();
            let once = intern_locals(table, snapshot, n);
            let twice = intern_locals(once, snapshot, n);
            twice == once && found_item(twice, session, snapshot, kind, path) == found_item(
                once,
                session,
                snapshot,
                kind,
                path,
            )
        }),
{
    lemma_listing_is_idempotent(table, snapshot, snapshot.definitions.len());
}

/// Every listed function has a body with at least one block, and no item of
/// another kind has a body.
pub proof fn lemma_body_of_listed(
    table: Seq<InternalId>,
    session: u64,
    snapshot: SnapshotView,
    i: int,
)
    requires
        0 <= i < snapshot.definitions.len(),
        table.len() <= usize::MAX,
        snapshot.definitions.len() <= usize::MAX,
        position(table, local_id(snapshot, i)) < table.len(),
    ensures
        item_kind(snapshot.definitions[i].kind) == ItemKind::Function ==> body_of(
            table,
            session,
            snapshot,
            listed_items(table, session, snapshot)[i],
        ) is Ok && body_of(
            table,
            session,
            snapshot,
            listed_items(table, session, snapshot)[i],
        )->Ok_0.blocks.len() >= 1,
        item_kind(snapshot.definitions[i].kind) != ItemKind::Function ==> body_of(
            table,
            session,
            snapshot,
            listed_items(table, session, snapshot)[i],
        ) == Err::<BodyView, BridgeError>(BridgeError::NotExecutable),
{
    lemma_listed_item_stands_for(table, session, snapshot, i);
}

/// One session of the bridge.
pub struct Session {
    snapshot: Snapshot,
    table: IdentityMap,
}

impl Session {
    /// What the compiler handed over when the session began.
    pub closed spec fn snapshot(&self) -> SnapshotView {
        self.snapshot@
    }

    /// The identifiers that have a handle, in the order of their handles.
    pub closed spec fn table(&self) -> Seq<InternalId> {
        self.table@
    }

    /// The number of the session, which all its handles carry.
    pub closed spec fn number(&self) -> u64 {
        self.table.session()
    }

    /// The table and the definitions are held in memory, so their lengths are
    /// machine numbers.
    pub proof fn lemma_fits(&self)
        ensures
            self.table().len() <= usize::MAX,
            self.snapshot().definitions.len() <= usize::MAX,
    {
        self.table.lemma_len_fits();
        assert(self.snapshot.definitions@.len() == self.snapshot.definitions.len());
    }

    /// A session with the number `number` over `snapshot`. No handle has been
    /// given out yet.
    pub fn open(number: u64, snapshot: Snapshot) -> (session: Session)
        ensures
            session.number() == number,
            session.snapshot() == snapshot@,
            session.table() == Seq::<InternalId>::empty(),
    {
        Session { snapshot, table: IdentityMap::new(number) }
    }

    /// The number of the session.
    pub fn session_number(&self) -> (n: u64)
        ensures
            n == self.number(),
    {
        self.table.session_number()
    }

    /// The stable handle of an internal identifier. See `IdentityMap::to_stable`.
    pub fn to_stable(&mut self, id: InternalId) -> (handle: Handle)
        ensures
            final(self).number() == old(self).number(),
            final(self).snapshot() == old(self).snapshot(),
            final(self).table() == intern(old(self).table(), id),
            handle == handle_of(old(self).table(), old(self).number(), id),
            resolve(final(self).table(), final(self).number(), handle) == Ok::<
                InternalId,
                BridgeError,
            >(id),
    {
        self.table.to_stable(id)
    }

    /// The internal identifier behind a handle, or `InvalidHandle` where this
    /// session did not issue it. See `IdentityMap::to_internal`.
    pub fn to_internal(&self, handle: Handle) -> (found: Result<InternalId, BridgeError>)
        ensures
            found == resolve(self.table(), self.number(), handle),
            found is Ok ==> handle_of(self.table(), self.number(), found->Ok_0) == handle,
    {
        self.table.to_internal(handle)
    }

    /// The crate that is being analyzed.
    pub fn local_crate(&self) -> (krate: Crate)
        ensures
            krate@ == (CrateView {
                id: self.snapshot().local.num as usize,
                name: self.snapshot().local.name,
                is_local: true,
            }),
    {
        Crate {
            id: self.snapshot.local.num as usize,
            name: self.snapshot.local.name.clone(),
            is_local: true,
        }
    }

    /// The first dependency whose name is exactly `name`; `None` where no
    /// dependency has that name.
    pub fn find_crate(&self, name: &str) -> (found: Option<Crate>)
        ensures
            match found_crate(self.snapshot(), name@) {
                Some(c) => found is Some && found->0@ == c,
                None => found is None,
            },
            found is Some <==> exists|j: int|
                0 <= j < self.snapshot().dependencies.len() && (
                #[trigger] self.snapshot().dependencies[j]).name == name@,
    {
        let wanted = name.to_owned();
        let n = self.snapshot.dependencies.len();
        let mut i: usize = 0;
        while i < n && !(self.snapshot.dependencies[i].name == wanted)
            invariant
                n == self.snapshot.dependencies@.len(),
                wanted@ == name@,
                0 <= i <= n,
                forall|j: int|
                    0 <= j < i ==> !is_named(name@)(#[trigger] self.snapshot@.dependencies[j]),
            decreases n - i,
        {
            i += 1;
        }
        proof {
            lemma_first_where_is(self.snapshot@.dependencies, is_named(name@), i as int);
            if i < n {
                assert(is_named(name@)(self.snapshot@.dependencies[i as int]));
            }
        }
        if i < n {
            Some(
                Crate {
                    id: self.snapshot.dependencies[i].num as usize,
                    name: self.snapshot.dependencies[i].name.clone(),
                    is_local: false,
                },
            )
        } else {
            None
        }
    }

    /// The entry point of the program: the first function at the path `main`
    /// where the crate is built as a binary, and `None` in every other case. A
    /// library has no entry point, whatever it defines.
    pub fn entry_fn(&mut self) -> (entry: Option<Item>)
        ensures
            final(self).number() == old(self).number(),
            final(self).snapshot() == old(self).snapshot(),
            old(self).snapshot().crate_type == CrateType::Library ==> entry is None,
            match entry_index(old(self).snapshot()) {
                Some(i) => {
                    &&& final(self).table() == intern(
                        old(self).table(),
                        local_id(old(self).snapshot(), i),
                    )
                    &&& entry == Some(
                        item_at(
                            final(self).table(),
                            old(self).number(),
                            old(self).snapshot(),
                            i,
                        ),
                    )
                    &&& entry->0.kind == ItemKind::Function
                    &&& body_of(
                        final(self).table(),
                        old(self).number(),
                        old(self).snapshot(),
                        entry->0,
                    ) is Ok
                },
                None => entry is None && final(self).table() == old(self).table(),
            },
    {
        match self.snapshot.crate_type {
            CrateType::Library => None,
            CrateType::Binary => {
                let i = self.snapshot.first_definition(ItemKind::Function, ENTRY_PATH);
                if i < self.snapshot.definitions.len() {
                    let ghost before = self.table@;
                    let id = InternalId { krate: self.snapshot.local.num, index: i };
                    let handle = self.table.to_stable(id);
                    proof {
                        lemma_intern_holds(before, id);
                        lemma_first_where(
                            self.snapshot@.definitions,
                            is_definition(ItemKind::Function, ENTRY_PATH@),
                        );
                        lemma_body_of_listed(
                            self.table@,
                            self.table.session(),
                            self.snapshot@,
                            i as int,
                        );
                    }
                    Some(Item { id: handle, kind: ItemKind::Function })
                } else {
                    None
                }
            },
        }
    }

    /// All top-level declarations of the local crate, in the compiler's order.
    /// Each gets a handle on the way, unless it has one. A second call returns
    /// the same items.
    pub fn local_items(&mut self) -> (items: Vec<Item>)
        ensures
            final(self).number() == old(self).number(),
            final(self).snapshot() == old(self).snapshot(),
            final(self).table() == intern_locals(
                old(self).table(),
                old(self).snapshot(),
                old(self).snapshot().definitions.len(),
            ),
            items@ == listed_items(final(self).table(), old(self).number(), old(self).snapshot()),
            forall|j: int|
                0 <= j < items@.len() ==> resolve(
                    final(self).table(),
                    old(self).number(),
                    (#[trigger] items@[j]).id,
                ) == Ok::<InternalId, BridgeError>(local_id(old(self).snapshot(), j)),
            forall|j: int|
                0 <= j < items@.len() ==> (body_of(
                    final(self).table(),
                    old(self).number(),
                    old(self).snapshot(),
                    #[trigger] items@[j],
                ) is Ok <==> items@[j].kind == ItemKind::Function),
    {
        let ghost start = self.table@;
        let ghost snapshot = self.snapshot@;
        let ghost number = self.table.session();
        let mut items: Vec<Item> = Vec::new();
        let n = self.snapshot.definitions.len();
        let mut i: usize = 0;
        proof {
            self.table.lemma_len_fits();
        }
        while i < n
            invariant
                n == self.snapshot.definitions@.len(),
                self.snapshot@ == snapshot,
                self.table.session() == number,
                0 <= i <= n,
                self.table@ == intern_locals(start, snapshot, i as nat),
                self.table@.len() <= usize::MAX,
                items@.len() == i,
                forall|j: int|
                    0 <= j < i ==> #[trigger] position(self.table@, local_id(snapshot, j))
                        < self.table@.len(),
                forall|j: int|
                    0 <= j < i ==> #[trigger] items@[j] == item_at(
                        self.table@,
                        number,
                        snapshot,
                        j,
                    ),
            decreases n - i,
        {
            let ghost before = self.table@;
            let ghost listed = items@;
            let id = InternalId { krate: self.snapshot.local.num, index: i };
            let kind = self.snapshot.definitions[i].kind.item_kind();
            let handle = self.table.to_stable(id);
            items.push(Item { id: handle, kind });
            proof {
                lemma_intern_holds(before, id);
                assert forall|j: int| 0 <= j < i + 1 implies #[trigger] position(
                    self.table@,
                    local_id(snapshot, j),
                ) < self.table@.len() by {
                    if j < i {
                        lemma_intern_keeps(before, id, local_id(snapshot, j));
                    }
                }
                assert forall|j: int| 0 <= j < i + 1 implies #[trigger] items@[j] == item_at(
                    self.table@,
                    number,
                    snapshot,
                    j,
                ) by {
                    if j < i {
                        assert(items@[j] == listed[j]);
                        lemma_intern_keeps(before, id, local_id(snapshot, j));
                    }
                }
            }
            i += 1;
        }
        proof {
            assert(items@ =~= listed_items(self.table@, number, snapshot));
            assert forall|j: int| 0 <= j < items@.len() implies resolve(
                self.table@,
                number,
                (#[trigger] items@[j]).id,
            ) == Ok::<InternalId, BridgeError>(local_id(snapshot, j)) by {
                assert(position(self.table@, local_id(snapshot, j)) < self.table@.len());
                lemma_listed_item_stands_for(self.table@, number, snapshot, j);
            }
            assert forall|j: int| 0 <= j < items@.len() implies (body_of(
                self.table@,
                number,
                snapshot,
                #[trigger] items@[j],
            ) is Ok <==> items@[j].kind == ItemKind::Function) by {
                assert(position(self.table@, local_id(snapshot, j)) < self.table@.len());
                lemma_body_of_listed(self.table@, number, snapshot, j);
            }
        }
        items
    }

    /// Does `item` stand for a definition of kind `kind` at the path `wanted`?
    fn item_matches(&self, item: &Item, kind: ItemKind, wanted: &String) -> (yes: bool)
        ensures
            yes == item_is(self.table(), self.number(), self.snapshot(), kind, wanted@)(*item),
    {
        match self.table.to_internal(item.id) {
            Ok(id) => match self.snapshot.definition(id) {
                Some(definition) => definition.kind.item_kind() == kind && definition.path
                    == *wanted,
                None => false,
            },
            Err(_) => false,
        }
    }

    /// The first of `items` that stands for a definition of kind `kind` at
    /// the path `path`. Where several do, the first is returned and the
    /// others are passed over in silence; where none does, `None`.
    pub fn get_item(&self, items: &Vec<Item>, kind: ItemKind, path: &str) -> (found: Option<Item>)
        ensures
            found == first_item(
                self.table(),
                self.number(),
                self.snapshot(),
                items@,
                kind,
                path@,
            ),
    {
        let wanted = path.to_owned();
        let ghost test = item_is(self.table(), self.number(), self.snapshot(), kind, path@);
        let n = items.len();
        let mut i: usize = 0;
        while i < n && !self.item_matches(&items[i], kind, &wanted)
            invariant
                n == items@.len(),
                wanted@ == path@,
                0 <= i <= n,
                test == item_is(self.table(), self.number(), self.snapshot(), kind, path@),
                forall|j: int| 0 <= j < i ==> !test(#[trigger] items@[j]),
            decreases n - i,
        {
            i += 1;
        }
        proof {
            lemma_first_where_is(items@, test, i as int);
        }
        if i < n {
            Some(items[i])
        } else {
            None
        }
    }

    /// The item for the first local definition of kind `kind` at the path
    /// `path`, found by a scan of the listed items; `None` where there is no
    /// such definition.
    pub fn find_item(&mut self, kind: ItemKind, path: &str) -> (found: Option<Item>)
        ensures
            final(self).number() == old(self).number(),
            final(self).snapshot() == old(self).snapshot(),
            final(self).table() == intern_locals(
                old(self).table(),
                old(self).snapshot(),
                old(self).snapshot().definitions.len(),
            ),
            found == found_item(
                final(self).table(),
                old(self).number(),
                old(self).snapshot(),
                kind,
                path@,
            ),
            found is Some <==> exists|j: int|
                0 <= j < old(self).snapshot().definitions.len() && is_definition(kind, path@)(
                    #[trigger] old(self).snapshot().definitions[j],
                ),
            found is Some ==> found->0.kind == kind && (body_of(
                final(self).table(),
                old(self).number(),
                old(self).snapshot(),
                found->0,
            ) is Ok <==> kind == ItemKind::Function),
    {
        let ghost start = self.table@;
        let items = self.local_items();
        let found = self.get_item(&items, kind, path);
        proof {
            let n = self.snapshot@.definitions.len();
            assert(n == self.snapshot.definitions.len());
            self.table.lemma_len_fits();
            lemma_intern_locals(start, self.snapshot@, n);
            lemma_search_listed(self.table@, self.table.session(), self.snapshot@, kind, path@);
            lemma_first_where(self.snapshot@.definitions, is_definition(kind, path@));
            let at = first_where(self.snapshot@.definitions, is_definition(kind, path@));
            if at < n {
                assert(position(self.table@, local_id(self.snapshot@, at)) < self.table@.len());
                lemma_body_of_listed(self.table@, self.table.session(), self.snapshot@, at);
            }
        }
        found
    }

    /// The body of `item` as a control-flow graph, built on this call and not
    /// before. It succeeds on every function that this session listed, and
    /// then has at least the entry block.
    pub fn materialize(&self, item: &Item) -> (found: Result<Body, BridgeError>)
        ensures
            match body_of(self.table(), self.number(), self.snapshot(), *item) {
                Ok(body) => found is Ok && found->Ok_0@ == body && found->Ok_0.blocks@.len() >= 1,
                Err(e) => found is Err && found->Err_0 == e,
            },
    {
        if item.kind != ItemKind::Function {
            return Err(BridgeError::NotExecutable);
        }
        match self.table.to_internal(item.id) {
            Err(_) => Err(BridgeError::InvalidHandle),
            Ok(id) => match self.snapshot.definition(id) {
                Some(definition) => match &definition.kind {
                    DefinitionKind::Function(body) => Ok(translate_body(body)),
                    _ => Err(BridgeError::NotExecutable),
                },
                None => Err(BridgeError::NotExecutable),
            },
        }
    }
}

impl Item {
    /// The body of the item in `session`. See `Session::materialize`.
    pub fn body(&self, session: &Session) -> (found: Result<Body, BridgeError>)
        ensures
            match body_of(session.table(), session.number(), session.snapshot(), *self) {
                Ok(body) => found is Ok && found->Ok_0@ == body && found->Ok_0.blocks@.len() >= 1,
                Err(e) => found is Err && found->Err_0 == e,
            },
    {
        session.materialize(self)
    }
}

} // verus!
