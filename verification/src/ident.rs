//! The identity map: internal identifiers on one side, stable handles on the other.
//!
//! A handle is an index into a table that belongs to one session. The table
//! owns the correspondence; a handle alone means nothing, and one that another
//! session issued is refused.

use vstd::prelude::*;
use crate::error::BridgeError;
use crate::search::{first_where, lemma_first_where, lemma_first_where_is};

verus! {

/// The compiler's own name for a definition: the crate it belongs to and its
/// position in that crate's table of definitions.
#[derive(Clone, Copy, Debug, PartialEq, Eq, Structural)]
pub struct InternalId {
    pub krate: u32,
    pub index: usize,
}

/// A stable handle. It is valid only with the session whose number it carries.
#[derive(Clone, Copy, Debug, PartialEq, Eq, Structural)]
pub struct Handle {
    pub session: u64,
    pub index: usize,
}

/// The test "is this `id`?".
pub open spec fn is_id(id: InternalId) -> spec_fn(InternalId) -> bool {
    |x: InternalId| x == id
}

/// Where `id` stands in `table`, or `table.len()` where it does not occur.
pub open spec fn position(table: Seq<InternalId>, id: InternalId) -> int {
    first_where(table, is_id(id))
}

/// The handle that `id` has in `table`, or will get when it is added next.
pub open spec fn handle_of(table: Seq<InternalId>, session: u64, id: InternalId) -> Handle {
    Handle { session, index: position(table, id) as usize }
}

/// The table once `id` has a handle: unchanged where it had one already.
pub open spec fn intern(table: Seq<InternalId>, id: InternalId) -> Seq<InternalId> {
    if position(table, id) < table.len() {
        table
    } else {
        table.push(id)
    }
}

/// What a handle stands for in `table`, and the refusal of one that this
/// session did not issue.
pub open spec fn resolve(table: Seq<InternalId>, session: u64, handle: Handle) -> Result<
    InternalId,
    BridgeError,
> {
    if handle.session == session && handle.index < table.len() {
        Ok(table[handle.index as int])
    } else {
        Err(BridgeError::InvalidHandle)
    }
}

/// No identifier stands at two places.
pub open spec fn distinct(table: Seq<InternalId>) -> bool {
    forall|i: int, j: int| 0 <= i < j < table.len() ==> table[i] != table[j]
}

/// `position` lies within `0..=table.len()`. Below `table.len()` it is the one
/// place of `id`; at `table.len()` the table does not hold `id`.
pub proof fn lemma_position(table: Seq<InternalId>, id: InternalId)
    ensures
        0 <= position(table, id) <= table.len(),
        position(table, id) < table.len() ==> table[position(table, id)] == id,
        forall|j: int| 0 <= j < position(table, id) ==> #[trigger] table[j] != id,
{
    lemma_first_where(table, is_id(id));
}

/// Round trip: the handle that `to_stable` gives for `id` resolves to `id`.
pub proof fn lemma_round_trip(table: Seq<InternalId>, session: u64, id: InternalId)
    requires
        table.len() <= usize::MAX,
    ensures
        resolve(intern(table, id), session, handle_of(table, session, id)) == Ok::<
            InternalId,
            BridgeError,
        >(id),
{
    lemma_position(table, id);
}

/// Round trip from the other side: the identifier that a handle resolves to
/// has that handle.
pub proof fn lemma_resolve_then_handle(table: Seq<InternalId>, session: u64, handle: Handle)
    requires
        distinct(table),
        resolve(table, session, handle) is Ok,
    ensures
        handle_of(table, session, resolve(table, session, handle)->Ok_0) == handle,
{
    let id = table[handle.index as int];
    lemma_position(table, id);
    let p = position(table, id);
    if p < handle.index {
        assert(table[p] != table[handle.index as int]);
    }
}

/// Adding an identifier leaves every place that was taken as it was.
pub proof fn lemma_intern_keeps(table: Seq<InternalId>, added: InternalId, id: InternalId)
    requires
        position(table, id) < table.len(),
    ensures
        position(intern(table, added), id) == position(table, id),
{
    lemma_position(table, id);
    lemma_first_where_is(intern(table, added), is_id(id), position(table, id));
}

/// Once added, an identifier is in the table, at the place that its handle named
/// before.
pub proof fn lemma_intern_holds(table: Seq<InternalId>, id: InternalId)
    ensures
        position(intern(table, id), id) == position(table, id),
        position(intern(table, id), id) < intern(table, id).len(),
        intern(intern(table, id), id) == intern(table, id),
{
    lemma_position(table, id);
    lemma_first_where_is(intern(table, id), is_id(id), position(table, id));
}

/// Determinism: a second `to_stable` for one identifier returns the handle of
/// the first and leaves the table alone.
pub proof fn lemma_to_stable_is_deterministic(table: Seq<InternalId>, session: u64, id: InternalId)
    ensures
        handle_of(intern(table, id), session, id) == handle_of(table, session, id),
        intern(intern(table, id), id) == intern(table, id),
{
    lemma_intern_holds(table, id);
}

/// No collision: two identifiers that differ have handles that differ, once
/// both are in the table.
pub proof fn lemma_handles_differ(table: Seq<InternalId>, session: u64, a: InternalId, b: InternalId)
    requires
        table.len() <= usize::MAX,
        a != b,
        position(table, a) < table.len(),
        position(table, b) < table.len(),
    ensures
        handle_of(table, session, a) != handle_of(table, session, b),
{
    lemma_position(table, a);
    lemma_position(table, b);
}

/// No reuse: a handle that resolves keeps resolving to the same identifier
/// when others are added.
pub proof fn lemma_handles_survive(
    table: Seq<InternalId>,
    session: u64,
    handle: Handle,
    added: InternalId,
)
    requires
        resolve(table, session, handle) is Ok,
    ensures
        resolve(intern(table, added), session, handle) == resolve(table, session, handle),
{
}

/// A handle of another session is refused, whatever its index.
pub proof fn lemma_foreign_handle_is_refused(table: Seq<InternalId>, session: u64, handle: Handle)
    requires
        handle.session != session,
    ensures
        resolve(table, session, handle) == Err::<InternalId, BridgeError>(
            BridgeError::InvalidHandle,
        ),
{
}

/// Adding an identifier keeps the table free of repetitions.
pub proof fn lemma_intern_keeps_distinct(table: Seq<InternalId>, id: InternalId)
    requires
        distinct(table),
    ensures
        distinct(intern(table, id)),
{
    lemma_position(table, id);
}

/// The table of one session.
pub struct IdentityMap {
    session: u64,
    ids: Vec<InternalId>,
}

impl View for IdentityMap {
    type V = Seq<InternalId>;

    /// The identifiers in the order of their handles.
    closed spec fn view(&self) -> Seq<InternalId> {
        self.ids@
    }
}

impl IdentityMap {
    #[verifier::type_invariant]
    spec fn well_formed(self) -> bool {
        distinct(self.ids@)
    }

    /// The number of the session that owns the table.
    pub closed spec fn session(&self) -> u64 {
        self.session
    }

    /// An empty table for the session `session`.
    pub fn new(session: u64) -> (map: IdentityMap)
        ensures
            map@ == Seq::<InternalId>::empty(),
            map.session() == session,
    {
        IdentityMap { session, ids: Vec::new() }
    }

    /// The number of the session that owns the table.
    pub fn session_number(&self) -> (n: u64)
        ensures
            n == self.session(),
    {
        self.session
    }

    /// The table is held in memory, so its length is a machine number.
    pub proof fn lemma_len_fits(&self)
        ensures
            self@.len() <= usize::MAX,
    {
        assert(self.ids@.len() == self.ids.len());
    }

    /// How many handles the table has given out.
    pub fn len(&self) -> (n: usize)
        ensures
            n == self@.len(),
    {
        self.ids.len()
    }

    /// The handle of `id`. The first call for an identifier adds it to the
    /// table; every later call finds it there and returns the same handle.
    pub fn to_stable(&mut self, id: InternalId) -> (handle: Handle)
        ensures
            final(self).session() == old(self).session(),
            final(self)@ == intern(old(self)@, id),
            handle == handle_of(old(self)@, old(self).session(), id),
            distinct(final(self)@),
            final(self)@.len() <= usize::MAX,
            resolve(final(self)@, final(self).session(), handle) == Ok::<InternalId, BridgeError>(id),
    {
        proof {
            use_type_invariant(&*self);
        }
        let ghost table = self.ids@;
        let n = self.ids.len();
        let mut i: usize = 0;
        while i < n && self.ids[i] != id
            invariant
                n == self.ids@.len(),
                self.ids@ == table,
                0 <= i <= n,
                forall|j: int| 0 <= j < i ==> #[trigger] table[j] != id,
            decreases n - i,
        {
            i += 1;
        }
        proof {
            lemma_first_where_is(table, is_id(id), i as int);
        }
        if i == n {
            let mut ids = Vec::new();
            std::mem::swap(&mut ids, &mut self.ids);
            ids.push(id);
            proof {
                assert forall|a: int, b: int| 0 <= a < b < ids@.len() implies ids@[a] != ids@[b] by {
                    if b == n {
                        assert(table[a] != id);
                    }
                }
            }
            self.ids = ids;
        }
        assert(self.ids@.len() == self.ids.len());
        Handle { session: self.session, index: i }
    }

    /// The identifier behind `handle`, or `InvalidHandle` where this table did
    /// not issue it. It is the inverse of `to_stable`: the identifier that
    /// comes back has `handle` and no other.
    pub fn to_internal(&self, handle: Handle) -> (found: Result<InternalId, BridgeError>)
        ensures
            found == resolve(self@, self.session(), handle),
            found is Ok ==> handle_of(self@, self.session(), found->Ok_0) == handle,
    {
        proof {
            use_type_invariant(self);
            if resolve(self@, self.session(), handle) is Ok {
                lemma_resolve_then_handle(self@, self.session(), handle);
            }
        }
        if handle.session == self.session && handle.index < self.ids.len() {
            Ok(self.ids[handle.index])
        } else {
            Err(BridgeError::InvalidHandle)
        }
    }
}

} // verus!
