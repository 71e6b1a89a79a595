use todo_list::item::TodoItem;
use todo_list::service::{serve, Request};
use todo_list::table::TodoTable;
use todo_list::template::{ErrorTemplate, IndexTemplate, ItemTemplate};

#[test]
fn added_item_is_listed_alone() {
    let mut table = TodoTable::new();
    let row = serve(&mut table, Request::Add("buy milk".to_string()));
    let item = TodoItem::new(1, "buy milk".to_string(), false);
    assert_eq!(row, ItemTemplate { item: item.clone() }.render());
    let items = table.list_all();
    assert_eq!(items.len(), 1);
    assert_eq!(items[0].text, "buy milk");
    assert!(!items[0].done);
    let page = serve(&mut table, Request::List);
    assert_eq!(page, IndexTemplate { items: vec![item] }.render());
}

#[test]
fn flipping_twice_restores_the_item() {
    let mut table = TodoTable::new();
    serve(&mut table, Request::Add("a".to_string()));
    serve(&mut table, Request::Add("b".to_string()));
    let before = table.list_all();

    let once = serve(&mut table, Request::Flip(2));
    assert_eq!(once, ItemTemplate { item: TodoItem::new(2, "b".to_string(), true) }.render());
    assert_eq!(
        table.list_all(),
        vec![TodoItem::new(1, "a".to_string(), false), TodoItem::new(2, "b".to_string(), true)]
    );

    let twice = serve(&mut table, Request::Flip(2));
    assert_eq!(twice, ItemTemplate { item: TodoItem::new(2, "b".to_string(), false) }.render());
    assert_eq!(table.list_all(), before);
}

#[test]
fn flipping_a_missing_key_shows_the_error_fragment() {
    let mut table = TodoTable::new();
    assert_eq!(serve(&mut table, Request::Flip(1)), ErrorTemplate.render());
    serve(&mut table, Request::Add("a".to_string()));
    let before = table.list_all();
    assert_eq!(serve(&mut table, Request::Flip(2)), ErrorTemplate.render());
    assert_eq!(serve(&mut table, Request::Flip(0)), ErrorTemplate.render());
    assert_eq!(serve(&mut table, Request::Flip(-7)), ErrorTemplate.render());
    assert_eq!(table.list_all(), before);
}

#[test]
fn listing_the_empty_table_shows_a_page_without_rows() {
    let mut table = TodoTable::new();
    let page = serve(&mut table, Request::List);
    assert_eq!(page, IndexTemplate { items: vec![] }.render());
    assert_ne!(page, ErrorTemplate.render());
    assert!(!page.contains("<li id="));
    assert!(table.list_all().is_empty());
}

#[test]
fn many_added_items_get_keys_of_their_own() {
    let mut table = TodoTable::new();
    let n = 50;
    for k in 0..n {
        serve(&mut table, Request::Add(format!("item {}", k)));
    }
    let items = table.list_all();
    assert_eq!(items.len(), n);
    for (k, item) in items.iter().enumerate() {
        assert_eq!(item.id, (k + 1) as i32);
        assert_eq!(item.text, format!("item {}", k));
        assert!(!item.done);
    }
    let mut ids: Vec<i32> = items.iter().map(|item| item.id).collect();
    ids.sort();
    ids.dedup();
    assert_eq!(ids.len(), n);
}

#[test]
fn adding_without_a_key_left_shows_the_error_fragment() {
    let rows = vec![TodoItem::new(i32::MAX, "last".to_string(), false)];
    let mut table = TodoTable::with_rows(rows.clone()).unwrap();
    assert_eq!(serve(&mut table, Request::Add("more".to_string())), ErrorTemplate.render());
    assert_eq!(table.list_all(), rows);
}

#[test]
fn listing_changes_nothing() {
    let mut table = TodoTable::new();
    serve(&mut table, Request::Add("a".to_string()));
    serve(&mut table, Request::Flip(1));
    let before = table.list_all();
    serve(&mut table, Request::List);
    assert_eq!(table.list_all(), before);
}
