//! In-memory item store with the operation set of the `items` table: rows
//! kept in ascending id order, ids assigned from a sequence and never reused,
//! prices held to the column's fixed-point range. Each operation takes the
//! store by reference, exclusively for writes, so an update's read, merge and
//! write happen as one step.

use vstd::prelude::*;
use crate::error::{DbError, StoreError};
use crate::model::{
    created_fields, merge_update, merged_fields, resolve_create, CreateData, CreateItem, Item,
    ItemData, Timestamp, UpdateData, UpdateItem,
};

verus! {

/// Largest magnitude, in cents, of a price the column holds (ten digits, two decimals).
pub const MAX_PRICE_CENTS: i64 = 9_999_999_999;

/// Largest identifier the sequence hands out.
pub const MAX_ID: i32 = 2147483647;

pub open spec fn price_fits(p: i64) -> bool {
    -MAX_PRICE_CENTS <= p <= MAX_PRICE_CENTS
}

/// Mathematical value of a store: its rows in storage order, and the next id
/// of the sequence.
pub struct StoreState {
    pub rows: Seq<ItemData>,
    pub next_id: int,
}

pub open spec fn ids_ascending(rows: Seq<ItemData>) -> bool {
    forall|i: int, j: int| 0 <= i < j < rows.len() ==> rows[i].id < rows[j].id
}

pub open spec fn has_id(rows: Seq<ItemData>, id: i32) -> bool {
    exists|i: int| 0 <= i < rows.len() && rows[i].id == id
}

pub open spec fn index_of(rows: Seq<ItemData>, id: i32) -> int {
    choose|i: int| 0 <= i < rows.len() && rows[i].id == id
}

/// The row with identifier `id`, if there is one.
pub open spec fn lookup(rows: Seq<ItemData>, id: i32) -> Option<ItemData> {
    if has_id(rows, id) {
        Some(rows[index_of(rows, id)])
    } else {
        None
    }
}

impl StoreState {
    /// Rows in strictly ascending id order, every id below the sequence's next
    /// value, and every price within the column's range.
    pub open spec fn wf(self) -> bool {
        &&& ids_ascending(self.rows)
        &&& 1 <= self.next_id <= MAX_ID + 1
        &&& forall|i: int|
            0 <= i < self.rows.len() ==> 1 <= #[trigger] self.rows[i].id < self.next_id
                && price_fits(self.rows[i].fields.price_cents)
    }
}

/// What a create returns on state `s`.
pub open spec fn create_outcome(s: StoreState, c: CreateData, now: Timestamp) -> Result<
    ItemData,
    DbError,
> {
    if s.next_id > MAX_ID {
        Err(DbError::Store(StoreError::IdsExhausted))
    } else if !price_fits(created_fields(c).price_cents) {
        Err(DbError::Store(StoreError::PriceOutOfRange))
    } else {
        Ok(ItemData { id: s.next_id as i32, fields: created_fields(c), created_at: now })
    }
}

/// The state a create leaves: the new row appended and the sequence advanced,
/// or nothing changed on failure.
pub open spec fn after_create(s: StoreState, c: CreateData, now: Timestamp) -> StoreState {
    match create_outcome(s, c, now) {
        Ok(d) => StoreState { rows: s.rows.push(d), next_id: s.next_id + 1 },
        Err(_) => s,
    }
}

/// What an update returns on state `s`: `None` where no row has the id, else
/// the merged row, which keeps its id and creation time.
pub open spec fn update_outcome(s: StoreState, id: i32, u: UpdateData) -> Result<
    Option<ItemData>,
    DbError,
> {
    match lookup(s.rows, id) {
        None => Ok(None),
        Some(cur) => {
            let f = merged_fields(cur.fields, u);
            if !price_fits(f.price_cents) {
                Err(DbError::Store(StoreError::PriceOutOfRange))
            } else {
                Ok(Some(ItemData { id: cur.id, fields: f, created_at: cur.created_at }))
            }
        },
    }
}

/// The state an update leaves: the row replaced in place, or nothing changed.
pub open spec fn after_update(s: StoreState, id: i32, u: UpdateData) -> StoreState {
    match update_outcome(s, id, u) {
        Ok(Some(d)) => StoreState { rows: s.rows.update(index_of(s.rows, id), d), next_id: s.next_id },
        _ => s,
    }
}

/// What a delete returns: whether a row had the id.
pub open spec fn delete_outcome(s: StoreState, id: i32) -> bool {
    has_id(s.rows, id)
}

/// The state a delete leaves: the row removed, the sequence untouched.
pub open spec fn after_delete(s: StoreState, id: i32) -> StoreState {
    if has_id(s.rows, id) {
        StoreState { rows: s.rows.remove(index_of(s.rows, id)), next_id: s.next_id }
    } else {
        s
    }
}

pub open spec fn opt_item(o: Option<Item>) -> Option<ItemData> {
    match o {
        Some(it) => Some(it@),
        None => None,
    }
}

pub open spec fn created_view(r: Result<Item, DbError>) -> Result<ItemData, DbError> {
    match r {
        Ok(it) => Ok(it@),
        Err(e) => Err(e),
    }
}

pub open spec fn updated_view(r: Result<Option<Item>, DbError>) -> Result<Option<ItemData>, DbError> {
    match r {
        Ok(o) => Ok(opt_item(o)),
        Err(e) => Err(e),
    }
}

/// In unique ids, the row at `i` is the one `lookup` finds.
pub proof fn lemma_lookup_at(rows: Seq<ItemData>, i: int)
    requires
        ids_ascending(rows),
        0 <= i < rows.len(),
    ensures
        has_id(rows, rows[i].id),
        index_of(rows, rows[i].id) == i,
        lookup(rows, rows[i].id) == Some(rows[i]),
{
    let id = rows[i].id;
    assert(has_id(rows, id));
    let j = index_of(rows, id);
    if j < i {
        assert(rows[j].id < rows[i].id);
    } else if i < j {
        assert(rows[i].id < rows[j].id);
    }
}

/// A create keeps the store well formed.
pub proof fn lemma_create_wf(s: StoreState, c: CreateData, now: Timestamp)
    requires
        s.wf(),
    ensures
        after_create(s, c, now).wf(),
{
    if let Ok(d) = create_outcome(s, c, now) {
        let t = after_create(s, c, now);
        assert(t.rows.last() == d);
        assert forall|i: int| 0 <= i < t.rows.len() - 1 implies t.rows[i] == s.rows[i] by {}
    }
}

/// An update keeps the store well formed.
pub proof fn lemma_update_wf(s: StoreState, id: i32, u: UpdateData)
    requires
        s.wf(),
    ensures
        after_update(s, id, u).wf(),
        update_outcome(s, id, u) matches Ok(Some(d)) ==> d.id == id,
{
    if let Ok(Some(d)) = update_outcome(s, id, u) {
        let k = index_of(s.rows, id);
        assert(has_id(s.rows, id));
        assert(0 <= k < s.rows.len() && s.rows[k].id == id);
        let t = after_update(s, id, u);
        assert forall|i: int| 0 <= i < t.rows.len() && i != k implies t.rows[i] == s.rows[i] by {}
        assert(t.rows[k] == d);
    }
}

/// A delete keeps the store well formed.
pub proof fn lemma_delete_wf(s: StoreState, id: i32)
    requires
        s.wf(),
    ensures
        after_delete(s, id).wf(),
{
    if has_id(s.rows, id) {
        let k = index_of(s.rows, id);
        let t = after_delete(s, id);
        assert forall|i: int| 0 <= i < t.rows.len() implies #[trigger] t.rows[i] == (if i < k {
            s.rows[i]
        } else {
            s.rows[i + 1]
        }) by {}
        assert forall|i: int, j: int| 0 <= i < j < t.rows.len() implies t.rows[i].id
            < t.rows[j].id by {
            let a = if i < k { i } else { i + 1 };
            let b = if j < k { j } else { j + 1 };
            assert(t.rows[i] == s.rows[a]);
            assert(t.rows[j] == s.rows[b]);
        }
    }
}

/// After a delete, no row has the deleted id.
pub proof fn lemma_delete_lookup(s: StoreState, id: i32)
    requires
        s.wf(),
    ensures
        lookup(after_delete(s, id).rows, id) is None,
{
    let t = after_delete(s, id);
    if has_id(s.rows, id) {
        lemma_delete_wf(s, id);
        let k = index_of(s.rows, id);
        assert(s.rows[k].id == id);
        if has_id(t.rows, id) {
            let j = index_of(t.rows, id);
            let a = if j < k { j } else { j + 1 };
            assert(t.rows[j] == s.rows[a]);
            if a < k {
                assert(s.rows[a].id < s.rows[k].id);
            } else {
                assert(s.rows[k].id < s.rows[a].id);
            }
        }
    }
}

/// An in-memory store of items.
pub struct ItemStore {
    rows: Vec<Item>,
    next_id: i64,
}

impl View for ItemStore {
    type V = StoreState;

    closed spec fn view(&self) -> StoreState {
        StoreState { rows: self.rows@.map_values(|it: Item| it@), next_id: self.next_id as int }
    }
}

impl ItemStore {
    /// The store's model is well formed.
    pub open spec fn wf(&self) -> bool {
        self@.wf()
    }

    /// An empty store whose sequence starts at 1.
    pub fn new() -> (r: ItemStore)
        ensures
            r.wf(),
            r@.rows.len() == 0,
            r@.next_id == 1,
    {
        ItemStore { rows: Vec::new(), next_id: 1 }
    }

    /// An empty store whose sequence starts at `first_id`.
    pub fn starting_at(first_id: i32) -> (r: ItemStore)
        requires
            first_id >= 1,
        ensures
            r.wf(),
            r@.rows.len() == 0,
            r@.next_id == first_id,
    {
        ItemStore { rows: Vec::new(), next_id: first_id as i64 }
    }

    /// Where the row with identifier `id` stands.
    fn position(&self, id: i32) -> (r: Option<usize>)
        requires
            self.wf(),
        ensures
            match r {
                Some(i) => i < self@.rows.len() && index_of(self@.rows, id) == i && has_id(
                    self@.rows,
                    id,
                ),
                None => !has_id(self@.rows, id),
            },
    {
        let mut i: usize = 0;
        while i < self.rows.len()
            invariant
                i <= self.rows.len(),
                self.wf(),
                forall|j: int| 0 <= j < i ==> self@.rows[j].id != id,
            decreases self.rows.len() - i,
        {
            if self.rows[i].id == id {
                proof {
                    assert(self@.rows[i as int] == self.rows@[i as int]@);
                    lemma_lookup_at(self@.rows, i as int);
                }
                return Some(i);
            }
            assert(self@.rows[i as int] == self.rows@[i as int]@);
            i = i + 1;
        }
        None
    }
}

/// All items, in ascending id order.
pub fn list_items(store: &ItemStore) -> (r: Vec<Item>)
    requires
        store.wf(),
    ensures
        r@.map_values(|it: Item| it@) == store@.rows,
        ids_ascending(r@.map_values(|it: Item| it@)),
{
    let mut out: Vec<Item> = Vec::new();
    let mut i: usize = 0;
    while i < store.rows.len()
        invariant
            i <= store.rows.len(),
            out@.map_values(|it: Item| it@) == store@.rows.take(i as int),
        decreases store.rows.len() - i,
    {
        let it = store.rows[i].clone();
        let ghost prev = out@;
        out.push(it);
        proof {
            assert(store@.rows[i as int] == store.rows@[i as int]@);
            assert(out@ == prev.push(store.rows@[i as int]));
            assert(prev.map_values(|it: Item| it@) =~= out@.map_values(|it: Item| it@).take(
                i as int,
            ));
            assert(out@.map_values(|it: Item| it@) =~= store@.rows.take(i + 1));
        }
        i = i + 1;
    }
    proof {
        assert(store@.rows.take(i as int) =~= store@.rows);
    }
    out
}

/// The item with identifier `id`; `None` where there is none.
pub fn get_item(store: &ItemStore, id: i32) -> (r: Option<Item>)
    requires
        store.wf(),
    ensures
        opt_item(r) == lookup(store@.rows, id),
{
    match store.position(id) {
        Some(i) => {
            let it = store.rows[i].clone();
            Some(it)
        },
        None => None,
    }
}

/// Inserts an item, quantity and price defaulting to zero, with the next id of
/// the sequence and creation time `now`; returns the row as stored.
pub fn create_item(store: &mut ItemStore, input: CreateItem, now: Timestamp) -> (r: Result<
    Item,
    DbError,
>)
    requires
        old(store).wf(),
    ensures
        final(store).wf(),
        created_view(r) == create_outcome(old(store)@, input@, now),
        final(store)@ == after_create(old(store)@, input@, now),
        r matches Ok(it) ==> lookup(final(store)@.rows, it.id) == Some(it@),
{
    proof {
        lemma_create_wf(store@, input@, now);
    }
    if store.next_id > MAX_ID as i64 {
        return Err(DbError::Store(StoreError::IdsExhausted));
    }
    let ghost c = input@;
    let fields = resolve_create(input);
    if fields.price_cents < -MAX_PRICE_CENTS || fields.price_cents > MAX_PRICE_CENTS {
        return Err(DbError::Store(StoreError::PriceOutOfRange));
    }
    let item = Item {
        id: store.next_id as i32,
        name: fields.name,
        description: fields.description,
        quantity: fields.quantity,
        price_cents: fields.price_cents,
        created_at: now,
    };
    let out = item.clone();
    store.rows.push(item);
    store.next_id = store.next_id + 1;
    proof {
        assert(store@.rows =~= old(store)@.rows.push(out@));
        assert(out@ == create_outcome(old(store)@, c, now)->Ok_0);
        lemma_lookup_at(store@.rows, store@.rows.len() - 1);
    }
    Ok(out)
}

/// Replaces the mutable fields of the item `id` by the merge of `input` over
/// them, in one write; `None` where no item has that id.
pub fn update_item(store: &mut ItemStore, id: i32, input: UpdateItem) -> (r: Result<
    Option<Item>,
    DbError,
>)
    requires
        old(store).wf(),
    ensures
        final(store).wf(),
        updated_view(r) == update_outcome(old(store)@, id, input@),
        final(store)@ == after_update(old(store)@, id, input@),
        r matches Ok(Some(it)) ==> lookup(final(store)@.rows, id) == Some(it@),
{
    proof {
        lemma_update_wf(store@, id, input@);
    }
    match store.position(id) {
        None => Ok(None),
        Some(i) => {
            let existing = store.rows[i].clone();
            let created_at = existing.created_at;
            let ghost u = input@;
            let fields = merge_update(existing, input);
            if fields.price_cents < -MAX_PRICE_CENTS || fields.price_cents > MAX_PRICE_CENTS {
                return Err(DbError::Store(StoreError::PriceOutOfRange));
            }
            let item = Item {
                id,
                name: fields.name,
                description: fields.description,
                quantity: fields.quantity,
                price_cents: fields.price_cents,
                created_at,
            };
            let out = item.clone();
            store.rows.set(i, item);
            proof {
                assert(store@.rows =~= old(store)@.rows.update(i as int, out@));
                lemma_lookup_at(store@.rows, i as int);
            }
            Ok(Some(out))
        },
    }
}

/// Removes the item `id`; `true` where a row was removed.
pub fn delete_item(store: &mut ItemStore, id: i32) -> (r: bool)
    requires
        old(store).wf(),
    ensures
        final(store).wf(),
        r == delete_outcome(old(store)@, id),
        final(store)@ == after_delete(old(store)@, id),
        lookup(final(store)@.rows, id) is None,
{
    proof {
        lemma_delete_wf(store@, id);
        lemma_delete_lookup(store@, id);
    }
    match store.position(id) {
        None => false,
        Some(i) => {
            store.rows.remove(i);
            proof {
                assert(store@.rows =~= old(store)@.rows.remove(i as int));
            }
            true
        },
    }
}

} // verus!
