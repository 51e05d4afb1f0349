use vstd::prelude::*;

verus! {

/// A point in time, as microseconds since the Unix epoch (UTC).
#[derive(Clone, Copy, Debug, PartialEq, Eq, Structural)]
pub struct Timestamp {
    pub micros: i64,
}

/// A persisted item. The price is kept in cents, the column's fixed-point
/// representation with two decimals.
#[derive(Debug)]
pub struct Item {
    pub id: i32,
    pub name: String,
    pub description: Option<String>,
    pub quantity: i32,
    pub price_cents: i64,
    pub created_at: Timestamp,
}

/// Input of a create: only the name is required.
#[derive(Debug)]
pub struct CreateItem {
    pub name: String,
    pub description: Option<String>,
    pub quantity: Option<i32>,
    pub price_cents: Option<i64>,
}

/// Input of a partial update: an absent field keeps the stored value.
#[derive(Debug)]
pub struct UpdateItem {
    pub name: Option<String>,
    pub description: Option<String>,
    pub quantity: Option<i32>,
    pub price_cents: Option<i64>,
}

/// The four mutable columns of a row, as written by a create or an update.
#[derive(Debug)]
pub struct ItemFields {
    pub name: String,
    pub description: Option<String>,
    pub quantity: i32,
    pub price_cents: i64,
}

/// Mathematical value of the mutable columns.
pub struct FieldValues {
    pub name: Seq<char>,
    pub description: Option<Seq<char>>,
    pub quantity: i32,
    pub price_cents: i64,
}

/// Mathematical value of a persisted item.
pub struct ItemData {
    pub id: i32,
    pub fields: FieldValues,
    pub created_at: Timestamp,
}

/// Mathematical value of a create input.
pub struct CreateData {
    pub name: Seq<char>,
    pub description: Option<Seq<char>>,
    pub quantity: Option<i32>,
    pub price_cents: Option<i64>,
}

/// Mathematical value of an update input.
pub struct UpdateData {
    pub name: Option<Seq<char>>,
    pub description: Option<Seq<char>>,
    pub quantity: Option<i32>,
    pub price_cents: Option<i64>,
}

pub open spec fn opt_text(o: Option<String>) -> Option<Seq<char>> {
    match o {
        Some(s) => Some(s@),
        None => None,
    }
}

impl View for ItemFields {
    type V = FieldValues;

    open spec fn view(&self) -> FieldValues {
        FieldValues {
            name: self.name@,
            description: opt_text(self.description),
            quantity: self.quantity,
            price_cents: self.price_cents,
        }
    }
}

impl View for Item {
    type V = ItemData;

    open spec fn view(&self) -> ItemData {
        ItemData {
            id: self.id,
            fields: FieldValues {
                name: self.name@,
                description: opt_text(self.description),
                quantity: self.quantity,
                price_cents: self.price_cents,
            },
            created_at: self.created_at,
        }
    }
}

impl View for CreateItem {
    type V = CreateData;

    open spec fn view(&self) -> CreateData {
        CreateData {
            name: self.name@,
            description: opt_text(self.description),
            quantity: self.quantity,
            price_cents: self.price_cents,
        }
    }
}

impl View for UpdateItem {
    type V = UpdateData;

    open spec fn view(&self) -> UpdateData {
        UpdateData {
            name: opt_text(self.name),
            description: opt_text(self.description),
            quantity: self.quantity,
            price_cents: self.price_cents,
        }
    }
}

impl Clone for Item {
    fn clone(&self) -> (r: Item)
        ensures
            r == *self,
    {
        let description = match &self.description {
            Some(d) => Some(d.clone()),
            None => None,
        };
        Item {
            id: self.id,
            name: self.name.clone(),
            description,
            quantity: self.quantity,
            price_cents: self.price_cents,
            created_at: self.created_at,
        }
    }
}

impl UpdateItem {
    /// An update that supplies no field.
    pub fn empty() -> (r: UpdateItem)
        ensures
            r@ == (UpdateData { name: None, description: None, quantity: None, price_cents: None }),
    {
        UpdateItem { name: None, description: None, quantity: None, price_cents: None }
    }
}

/// The row a create writes: the quantity defaults to 0 and the price to 0.00;
/// name and description are taken as given (an absent description stays null).
pub open spec fn created_fields(c: CreateData) -> FieldValues {
    FieldValues {
        name: c.name,
        description: c.description,
        quantity: match c.quantity {
            Some(q) => q,
            None => 0,
        },
        price_cents: match c.price_cents {
            Some(p) => p,
            None => 0,
        },
    }
}

/// The row an update writes over `cur`: each field the input supplies replaces
/// the stored one, each absent field keeps it. A supplied empty description
/// replaces the stored one; an absent one keeps it, so an update cannot set
/// the description back to null.
pub open spec fn merged_fields(cur: FieldValues, u: UpdateData) -> FieldValues {
    FieldValues {
        name: match u.name {
            Some(n) => n,
            None => cur.name,
        },
        description: match u.description {
            Some(d) => Some(d),
            None => cur.description,
        },
        quantity: match u.quantity {
            Some(q) => q,
            None => cur.quantity,
        },
        price_cents: match u.price_cents {
            Some(p) => p,
            None => cur.price_cents,
        },
    }
}

/// Resolves the optional fields of a create input to the row to insert.
pub fn resolve_create(input: CreateItem) -> (r: ItemFields)
    ensures
        r@ == created_fields(input@),
{
    let quantity = input.quantity.unwrap_or(0);
    let price_cents = input.price_cents.unwrap_or(0);
    ItemFields { name: input.name, description: input.description, quantity, price_cents }
}

/// Merges a partial update into the current row, giving the full row to write back.
pub fn merge_update(existing: Item, input: UpdateItem) -> (r: ItemFields)
    ensures
        r@ == merged_fields(existing@.fields, input@),
{
    let name = input.name.unwrap_or(existing.name);
    let description = match input.description {
        Some(d) => Some(d),
        None => existing.description,
    };
    let quantity = input.quantity.unwrap_or(existing.quantity);
    let price_cents = input.price_cents.unwrap_or(existing.price_cents);
    ItemFields { name, description, quantity, price_cents }
}

} // verus!
