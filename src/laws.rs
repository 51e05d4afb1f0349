//! Laws of the repository operations, stated over the store's model.

use vstd::prelude::*;
use crate::error::DbError;
use crate::model::{created_fields, CreateData, FieldValues, ItemData, Timestamp, UpdateData};
use crate::store::{
    after_create, after_delete, after_update, create_outcome, delete_outcome, ids_ascending, index_of,
    lemma_create_wf, lemma_delete_lookup, lemma_delete_wf, lemma_lookup_at, lemma_update_wf, lookup, price_fits,
    update_outcome, StoreState, MAX_ID,
};

verus! {

/// A create that supplies neither quantity nor price stores quantity 0 and
/// price 0.00, and succeeds wherever the id sequence is not exhausted.
pub proof fn law_create_defaults(s: StoreState, c: CreateData, now: Timestamp)
    requires
        s.wf(),
        c.quantity is None,
        c.price_cents is None,
    ensures
        created_fields(c).quantity == 0,
        created_fields(c).price_cents == 0,
        s.next_id <= MAX_ID ==> (create_outcome(s, c, now) matches Ok(d) && d.fields.quantity
            == 0 && d.fields.price_cents == 0),
{
}

/// Reading back the id a create returned gives the very record the create returned.
pub proof fn law_round_trip(s: StoreState, c: CreateData, now: Timestamp)
    requires
        s.wf(),
        create_outcome(s, c, now) is Ok,
    ensures
        after_create(s, c, now).wf(),
        lookup(after_create(s, c, now).rows, create_outcome(s, c, now)->Ok_0.id) == Some(
            create_outcome(s, c, now)->Ok_0,
        ),
{
    lemma_create_wf(s, c, now);
    let t = after_create(s, c, now);
    lemma_lookup_at(t.rows, t.rows.len() - 1);
}

/// An update that supplies no field returns the stored record unchanged and
/// leaves the store as it was.
pub proof fn law_update_identity(s: StoreState, id: i32)
    requires
        s.wf(),
        lookup(s.rows, id) is Some,
    ensures
        ({
            let empty = UpdateData { name: None, description: None, quantity: None, price_cents: None };
            &&& update_outcome(s, id, empty) == Ok::<Option<ItemData>, DbError>(
                lookup(s.rows, id),
            )
            &&& after_update(s, id, empty) == s
        }),
{
    let empty = UpdateData { name: None, description: None, quantity: None, price_cents: None };
    let k = index_of(s.rows, id);
    assert(s.rows[k].id == id);
    assert(price_fits(s.rows[k].fields.price_cents));
    assert(s.rows.update(k, s.rows[k]) =~= s.rows);
}

/// An update that supplies only a price returns the stored record with that
/// price and every other field as it was (for a price within the column's range).
pub proof fn law_update_price(s: StoreState, id: i32, p: i64)
    requires
        s.wf(),
        lookup(s.rows, id) is Some,
        price_fits(p),
    ensures
        ({
            let cur = lookup(s.rows, id)->Some_0;
            update_outcome(
                s,
                id,
                UpdateData { name: None, description: None, quantity: None, price_cents: Some(p) },
            ) == Ok::<Option<ItemData>, DbError>(
                Some(
                    ItemData {
                        id: cur.id,
                        fields: FieldValues {
                            name: cur.fields.name,
                            description: cur.fields.description,
                            quantity: cur.fields.quantity,
                            price_cents: p,
                        },
                        created_at: cur.created_at,
                    },
                ),
            )
        }),
{
}

/// On an id that no row has, a lookup finds nothing, an update returns `None`
/// without error and changes nothing, and a delete returns `false` and changes nothing.
pub proof fn law_not_found(s: StoreState, id: i32, u: UpdateData)
    requires
        s.wf(),
        lookup(s.rows, id) is None,
    ensures
        update_outcome(s, id, u) == Ok::<Option<ItemData>, DbError>(None),
        after_update(s, id, u) == s,
        !delete_outcome(s, id),
        after_delete(s, id) == s,
{
}

/// After a delete that removed a row, no row has that id.
pub proof fn law_delete_removes(s: StoreState, id: i32)
    requires
        s.wf(),
        delete_outcome(s, id),
    ensures
        lookup(after_delete(s, id).rows, id) is None,
{
    lemma_delete_lookup(s, id);
}

/// Rows stay in strictly ascending id order whatever sequence of creates,
/// updates and deletes produced the store: each operation keeps the order.
pub proof fn law_ordering(s: StoreState, c: CreateData, now: Timestamp, id: i32, u: UpdateData)
    requires
        s.wf(),
    ensures
        ids_ascending(s.rows),
        after_create(s, c, now).wf(),
        after_update(s, id, u).wf(),
        after_delete(s, id).wf(),
{
    lemma_create_wf(s, c, now);
    lemma_update_wf(s, id, u);
    lemma_delete_wf(s, id);
}

} // verus!
