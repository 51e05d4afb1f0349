use item_repo::error::{DbError, StoreError};
use item_repo::model::{merge_update, resolve_create, CreateItem, Item, Timestamp, UpdateItem};
use item_repo::pool::{pool_config, MAX_CONNECTIONS};
use item_repo::store::{
    create_item, delete_item, get_item, list_items, update_item, ItemStore, MAX_PRICE_CENTS,
};

fn at(micros: i64) -> Timestamp {
    Timestamp { micros }
}

fn create(name: &str, quantity: Option<i32>, price_cents: Option<i64>) -> CreateItem {
    CreateItem { name: name.to_string(), description: None, quantity, price_cents }
}

fn price_only(p: i64) -> UpdateItem {
    UpdateItem { name: None, description: None, quantity: None, price_cents: Some(p) }
}

fn same_item(a: &Item, b: &Item) -> bool {
    a.id == b.id
        && a.name == b.name
        && a.description == b.description
        && a.quantity == b.quantity
        && a.price_cents == b.price_cents
        && a.created_at == b.created_at
}

#[test]
fn widget_scenario() {
    let mut store = ItemStore::new();
    let created = create_item(&mut store, create("Widget", Some(5), Some(999)), at(100)).unwrap();
    assert_eq!(created.id, 1);
    assert_eq!(created.name, "Widget");
    assert_eq!(created.description, None);
    assert_eq!(created.quantity, 5);
    assert_eq!(created.price_cents, 999);
    assert_eq!(created.created_at, at(100));

    let updated = update_item(&mut store, created.id, price_only(1250)).unwrap().unwrap();
    assert_eq!(updated.name, "Widget");
    assert_eq!(updated.price_cents, 1250);
    assert_eq!(updated.quantity, 5);

    assert!(delete_item(&mut store, created.id));
    assert!(get_item(&store, created.id).is_none());
}

#[test]
fn create_fills_defaults() {
    let mut store = ItemStore::new();
    let item = create_item(&mut store, create("Bolt", None, None), at(1)).unwrap();
    assert_eq!(item.quantity, 0);
    assert_eq!(item.price_cents, 0);
    assert_eq!(item.description, None);
}

#[test]
fn resolve_create_defaults_and_keeps_given_values() {
    let f = resolve_create(create("Nut", None, None));
    assert_eq!((f.quantity, f.price_cents), (0, 0));
    let g = resolve_create(CreateItem {
        name: "Nut".to_string(),
        description: Some("steel".to_string()),
        quantity: Some(7),
        price_cents: Some(-3),
    });
    assert_eq!(g.name, "Nut");
    assert_eq!(g.description, Some("steel".to_string()));
    assert_eq!((g.quantity, g.price_cents), (7, -3));
}

#[test]
fn get_after_create_round_trips() {
    let mut store = ItemStore::new();
    let a = create_item(&mut store, create("A", Some(1), Some(10)), at(5)).unwrap();
    let b = create_item(
        &mut store,
        CreateItem {
            name: "B".to_string(),
            description: Some("second".to_string()),
            quantity: Some(2),
            price_cents: None,
        },
        at(6),
    )
    .unwrap();
    assert_eq!(b.id, 2);
    assert!(same_item(&get_item(&store, a.id).unwrap(), &a));
    assert!(same_item(&get_item(&store, b.id).unwrap(), &b));
}

#[test]
fn empty_update_changes_nothing() {
    let mut store = ItemStore::new();
    let a = create_item(
        &mut store,
        CreateItem {
            name: "Lamp".to_string(),
            description: Some("desk".to_string()),
            quantity: Some(3),
            price_cents: Some(4500),
        },
        at(9),
    )
    .unwrap();
    let u = update_item(&mut store, a.id, UpdateItem::empty()).unwrap().unwrap();
    assert!(same_item(&u, &a));
    assert!(same_item(&get_item(&store, a.id).unwrap(), &a));
}

#[test]
fn price_update_overrides_price_only() {
    let mut store = ItemStore::new();
    let a = create_item(&mut store, create("Cup", Some(4), Some(250)), at(2)).unwrap();
    let u = update_item(&mut store, a.id, price_only(300)).unwrap().unwrap();
    assert_eq!(u.id, a.id);
    assert_eq!(u.name, "Cup");
    assert_eq!(u.description, None);
    assert_eq!(u.quantity, 4);
    assert_eq!(u.price_cents, 300);
    assert_eq!(u.created_at, at(2));
}

#[test]
fn merge_takes_supplied_fields() {
    let existing = Item {
        id: 8,
        name: "Old".to_string(),
        description: Some("kept".to_string()),
        quantity: 1,
        price_cents: 100,
        created_at: at(0),
    };
    let f = merge_update(
        existing,
        UpdateItem { name: Some("New".to_string()), description: None, quantity: Some(9), price_cents: None },
    );
    assert_eq!(f.name, "New");
    assert_eq!(f.description, Some("kept".to_string()));
    assert_eq!((f.quantity, f.price_cents), (9, 100));
}

#[test]
fn merge_replaces_description_with_empty_text() {
    let existing = Item {
        id: 8,
        name: "Old".to_string(),
        description: Some("kept".to_string()),
        quantity: 1,
        price_cents: 100,
        created_at: at(0),
    };
    let f = merge_update(
        existing,
        UpdateItem { name: None, description: Some(String::new()), quantity: None, price_cents: None },
    );
    assert_eq!(f.description, Some(String::new()));
    assert_eq!(f.name, "Old");
}

#[test]
fn missing_id_is_not_an_error() {
    let mut store = ItemStore::new();
    create_item(&mut store, create("X", None, None), at(0)).unwrap();
    assert!(get_item(&store, 42).is_none());
    assert!(update_item(&mut store, 42, price_only(1)).unwrap().is_none());
    assert!(!delete_item(&mut store, 42));
    assert_eq!(list_items(&store).len(), 1);
}

#[test]
fn delete_removes_row_and_id_is_not_reused() {
    let mut store = ItemStore::new();
    let a = create_item(&mut store, create("A", None, None), at(0)).unwrap();
    assert!(delete_item(&mut store, a.id));
    assert!(get_item(&store, a.id).is_none());
    assert!(!delete_item(&mut store, a.id));
    let b = create_item(&mut store, create("B", None, None), at(1)).unwrap();
    assert_eq!(b.id, 2);
}

#[test]
fn list_is_in_ascending_id_order() {
    let mut store = ItemStore::new();
    assert!(list_items(&store).is_empty());
    for name in ["c", "a", "b", "d"] {
        create_item(&mut store, create(name, None, None), at(0)).unwrap();
    }
    delete_item(&mut store, 2);
    update_item(&mut store, 1, price_only(5)).unwrap();
    let ids: Vec<i32> = list_items(&store).iter().map(|i| i.id).collect();
    assert_eq!(ids, vec![1, 3, 4]);
    let names: Vec<String> = list_items(&store).into_iter().map(|i| i.name).collect();
    assert_eq!(names, vec!["c".to_string(), "b".to_string(), "d".to_string()]);
}

#[test]
fn price_out_of_range_is_refused() {
    let mut store = ItemStore::new();
    let e = create_item(&mut store, create("Big", None, Some(MAX_PRICE_CENTS + 1)), at(0));
    assert_eq!(e.unwrap_err(), DbError::Store(StoreError::PriceOutOfRange));
    assert!(list_items(&store).is_empty());
    let ok = create_item(&mut store, create("Edge", None, Some(-MAX_PRICE_CENTS)), at(0)).unwrap();
    assert_eq!(ok.id, 1);
    let e = update_item(&mut store, ok.id, price_only(-MAX_PRICE_CENTS - 1));
    assert_eq!(e.unwrap_err(), DbError::Store(StoreError::PriceOutOfRange));
    assert_eq!(get_item(&store, ok.id).unwrap().price_cents, -MAX_PRICE_CENTS);
}

#[test]
fn exhausted_sequence_is_refused() {
    let mut store = ItemStore::starting_at(i32::MAX);
    let last = create_item(&mut store, create("Last", None, None), at(0)).unwrap();
    assert_eq!(last.id, i32::MAX);
    let e = create_item(&mut store, create("More", None, None), at(0));
    assert_eq!(e.unwrap_err(), DbError::Store(StoreError::IdsExhausted));
    assert_eq!(list_items(&store).len(), 1);
}

#[test]
fn pool_config_needs_a_connection_string() {
    assert_eq!(pool_config(None).unwrap_err(), DbError::Config);
    assert_eq!(pool_config(Some(String::new())).unwrap_err(), DbError::Config);
    let c = pool_config(Some("postgres://u:p@localhost/db".to_string())).unwrap();
    assert_eq!(c.url, "postgres://u:p@localhost/db");
    assert_eq!(c.max_connections, MAX_CONNECTIONS);
    assert_eq!(MAX_CONNECTIONS, 5);
}
