use todo_list::item::TodoItem;
use todo_list::template::{decimal_string, ErrorTemplate, IndexTemplate, ItemTemplate};

const HEAD: &str = "<!DOCTYPE html><html><head><meta charset=\"utf-8\"><title>To-do</title>\
<link rel=\"stylesheet\" href=\"/assets/css/tailwind.css\"><script src=\"/assets/js/htmx.min.js\"></script>\
</head><body><h1>To-do</h1><form hx-post=\"/\" hx-target=\"#items\" hx-swap=\"beforeend\">\
<input type=\"text\" name=\"text\"><button type=\"submit\">Add</button></form><ul id=\"items\">";
const TAIL: &str = "</ul></body></html>";

#[test]
fn decimal_of_small_numbers() {
    assert_eq!(decimal_string(0), "0");
    assert_eq!(decimal_string(7), "7");
    assert_eq!(decimal_string(10), "10");
    assert_eq!(decimal_string(1203), "1203");
    assert_eq!(decimal_string(-1), "-1");
    assert_eq!(decimal_string(-12), "-12");
}

#[test]
fn decimal_at_the_limits() {
    assert_eq!(decimal_string(i32::MAX), "2147483647");
    assert_eq!(decimal_string(i32::MIN), "-2147483648");
}

#[test]
fn decimal_agrees_with_std() {
    let mut n: i32 = -100_000;
    while n <= 100_000 {
        assert_eq!(decimal_string(n), n.to_string());
        n += 37;
    }
}

#[test]
fn item_row_of_an_open_item() {
    let template = ItemTemplate { item: TodoItem::new(7, "buy milk".to_string(), false) };
    assert_eq!(
        template.render(),
        "<li id=\"item-7\" class=\"open\"><button hx-post=\"/flip/7\" hx-target=\"#item-7\" \
         hx-swap=\"outerHTML\">buy milk</button></li>"
    );
}

#[test]
fn item_row_of_a_done_item() {
    let template = ItemTemplate { item: TodoItem::new(12, "call home".to_string(), true) };
    assert_eq!(
        template.render(),
        "<li id=\"item-12\" class=\"done\"><button hx-post=\"/flip/12\" hx-target=\"#item-12\" \
         hx-swap=\"outerHTML\">call home</button></li>"
    );
}

#[test]
fn item_text_is_escaped() {
    let template = ItemTemplate {
        item: TodoItem::new(1, "<b>\"tea\" & 'cake'</b> é/".to_string(), false),
    };
    assert_eq!(
        template.render(),
        "<li id=\"item-1\" class=\"open\"><button hx-post=\"/flip/1\" hx-target=\"#item-1\" \
         hx-swap=\"outerHTML\">&lt;b&gt;&quot;tea&quot; &amp; &#x27;cake&#x27;&lt;/b&gt; é/</button></li>"
    );
}

#[test]
fn item_with_empty_text() {
    let template = ItemTemplate { item: TodoItem::new(3, String::new(), false) };
    assert_eq!(
        template.render(),
        "<li id=\"item-3\" class=\"open\"><button hx-post=\"/flip/3\" hx-target=\"#item-3\" \
         hx-swap=\"outerHTML\"></button></li>"
    );
}

#[test]
fn index_without_items() {
    let template = IndexTemplate { items: vec![] };
    assert_eq!(template.render(), format!("{}{}", HEAD, TAIL));
}

#[test]
fn index_with_two_items_in_order() {
    let first = TodoItem::new(1, "one".to_string(), false);
    let second = TodoItem::new(2, "two".to_string(), true);
    let rows = format!(
        "{}{}",
        ItemTemplate { item: first.clone() }.render(),
        ItemTemplate { item: second.clone() }.render()
    );
    let template = IndexTemplate { items: vec![first, second] };
    assert_eq!(template.render(), format!("{}{}{}", HEAD, rows, TAIL));
    assert!(rows.find("item-1").unwrap() < rows.find("item-2").unwrap());
}

#[test]
fn error_fragment_is_fixed() {
    assert_eq!(ErrorTemplate.render(), "<p class=\"error\">Something went wrong.</p>");
}
