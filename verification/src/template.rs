//! The three things the application shows: the page with the whole list,
//! the row of one item, and the error fragment.

use vstd::prelude::*;
use vstd::string::StringExecFns;

use crate::item::{views, TodoItem, TodoItemView};

verus! {

/// What the page holds before the rows.
pub const INDEX_HEAD: &'static str =
    "<!DOCTYPE html><html><head><meta charset=\"utf-8\"><title>To-do</title><link rel=\"stylesheet\" href=\"/assets/css/tailwind.css\"><script src=\"/assets/js/htmx.min.js\"></script></head><body><h1>To-do</h1><form hx-post=\"/\" hx-target=\"#items\" hx-swap=\"beforeend\"><input type=\"text\" name=\"text\"><button type=\"submit\">Add</button></form><ul id=\"items\">";

/// What the page holds behind the rows.
pub const INDEX_TAIL: &'static str = "</ul></body></html>";

/// The error fragment.
pub const ERROR_FRAGMENT: &'static str = "<p class=\"error\">Something went wrong.</p>";

/// What stands for one character of a text inside HTML: the five
/// characters with a meaning in markup are replaced by entities.
pub open spec fn escaped_char(c: char) -> Seq<char> {
    if c == '<' {
        seq!['&', 'l', 't', ';']
    } else if c == '>' {
        seq!['&', 'g', 't', ';']
    } else if c == '&' {
        seq!['&', 'a', 'm', 'p', ';']
    } else if c == '"' {
        seq!['&', 'q', 'u', 'o', 't', ';']
    } else if c == '\'' {
        seq!['&', '#', 'x', '2', '7', ';']
    } else {
        seq![c]
    }
}

/// A text as it stands inside HTML: each character escaped, in order.
pub open spec fn escaped(text: Seq<char>) -> Seq<char>
    decreases text.len(),
{
    if text.len() == 0 {
        Seq::empty()
    } else {
        escaped(text.drop_last()) + escaped_char(text.last())
    }
}

/// The character of a decimal digit.
pub open spec fn digit_char(d: nat) -> char {
    seq!['0', '1', '2', '3', '4', '5', '6', '7', '8', '9'][d as int]
}

/// A natural number in decimal, without leading zeros.
pub open spec fn decimal_digits(n: nat) -> Seq<char>
    decreases n,
{
    if n < 10 {
        seq![digit_char(n)]
    } else {
        decimal_digits(n / 10) + seq![digit_char(n % 10)]
    }
}

/// An integer in decimal, with a minus sign if it is negative.
pub open spec fn decimal(n: int) -> Seq<char> {
    if n < 0 {
        seq!['-'] + decimal_digits((-n) as nat)
    } else {
        decimal_digits(n as nat)
    }
}

/// The row of one item.
pub open spec fn item_html(item: TodoItemView) -> Seq<char> {
    "<li id=\"item-"@ + decimal(item.id) + "\" class=\""@ + (if item.done {
        "done"@
    } else {
        "open"@
    }) + "\"><button hx-post=\"/flip/"@ + decimal(item.id) + "\" hx-target=\"#item-"@ + decimal(
        item.id,
    ) + "\" hx-swap=\"outerHTML\">"@ + escaped(item.text) + "</button></li>"@
}

/// The rows of the items, in their order.
pub open spec fn items_html(items: Seq<TodoItemView>) -> Seq<char>
    decreases items.len(),
{
    if items.len() == 0 {
        Seq::empty()
    } else {
        items_html(items.drop_last()) + item_html(items.last())
    }
}

/// What the page holds before the rows.
pub open spec fn index_head() -> Seq<char> {
    INDEX_HEAD@
}

/// What the page holds behind the rows.
pub open spec fn index_tail() -> Seq<char> {
    INDEX_TAIL@
}

/// The page with the whole list.
pub open spec fn index_html(items: Seq<TodoItemView>) -> Seq<char> {
    index_head() + items_html(items) + index_tail()
}

/// The error fragment.
pub open spec fn error_html() -> Seq<char> {
    ERROR_FRAGMENT@
}

/// No page is the error fragment, whatever rows it lists.
pub proof fn page_is_not_error(items: Seq<TodoItemView>)
    ensures
        index_html(items) != error_html(),
{
    reveal_strlit(
        "<!DOCTYPE html><html><head><meta charset=\"utf-8\"><title>To-do</title><link rel=\"stylesheet\" href=\"/assets/css/tailwind.css\"><script src=\"/assets/js/htmx.min.js\"></script></head><body><h1>To-do</h1><form hx-post=\"/\" hx-target=\"#items\" hx-swap=\"beforeend\"><input type=\"text\" name=\"text\"><button type=\"submit\">Add</button></form><ul id=\"items\">",
    );
    reveal_strlit("<p class=\"error\">Something went wrong.</p>");
    assert(index_html(items)[1] == '!');
    assert(error_html()[1] == 'p');
}

/// No row is the error fragment, whatever item it shows.
pub proof fn row_is_not_error(item: TodoItemView)
    ensures
        item_html(item) != error_html(),
{
    reveal_strlit("<li id=\"item-");
    reveal_strlit("<p class=\"error\">Something went wrong.</p>");
    assert(item_html(item)[1] == 'l');
    assert(error_html()[1] == 'p');
}

/// Calls `askama::MarkupDisplay::new_unsafe` with the escaper
/// `askama::Html` and writes the value out through its `Display`. Taken on
/// trust: the result is the text with `<`, `>`, `&`, `"` and `'` replaced
/// by `&lt;`, `&gt;`, `&amp;`, `&quot;` and `&#x27;`, and every other
/// character kept.
#[verifier::external_body]
fn escape_html(text: &str) -> (html: String)
    ensures
        html@ == escaped(text@),
{
    askama::MarkupDisplay::new_unsafe(text, askama::Html).to_string()
}

fn digit_str(d: u32) -> (s: &'static str)
    requires
        d < 10,
    ensures
        s@ == seq![digit_char(d as nat)],
{
    proof {
        reveal_strlit("0");
        reveal_strlit("1");
        reveal_strlit("2");
        reveal_strlit("3");
        reveal_strlit("4");
        reveal_strlit("5");
        reveal_strlit("6");
        reveal_strlit("7");
        reveal_strlit("8");
        reveal_strlit("9");
    }
    let s = if d == 0 {
        "0"
    } else if d == 1 {
        "1"
    } else if d == 2 {
        "2"
    } else if d == 3 {
        "3"
    } else if d == 4 {
        "4"
    } else if d == 5 {
        "5"
    } else if d == 6 {
        "6"
    } else if d == 7 {
        "7"
    } else if d == 8 {
        "8"
    } else {
        "9"
    };
    assert(s@ =~= seq![digit_char(d as nat)]);
    s
}

fn digits_string(n: u32) -> (s: String)
    ensures
        s@ == decimal_digits(n as nat),
    decreases n,
{
    if n < 10 {
        String::from_str(digit_str(n))
    } else {
        let mut s = digits_string(n / 10);
        s.append(digit_str(n % 10));
        s
    }
}

/// The integer in decimal.
pub fn decimal_string(n: i32) -> (s: String)
    ensures
        s@ == decimal(n as int),
{
    if n < 0 {
        proof {
            reveal_strlit("-");
        }
        let mut s = String::from_str("-");
        let magnitude: i64 = -(n as i64);
        let digits = digits_string(magnitude as u32);
        s.append(digits.as_str());
        assert(s@ =~= seq!['-'] + decimal_digits((-n) as nat));
        s
    } else {
        digits_string(n as u32)
    }
}

/// The row of one item.
pub struct ItemTemplate {
    pub item: TodoItem,
}

/// The page with the whole list.
pub struct IndexTemplate {
    pub items: Vec<TodoItem>,
}

/// The error fragment.
pub struct ErrorTemplate;

fn append_item(html: &mut String, item: &TodoItem)
    ensures
        final(html)@ == old(html)@ + item_html(item@),
{
    let id = decimal_string(item.id);
    let text = escape_html(item.text.as_str());
    html.append("<li id=\"item-");
    html.append(id.as_str());
    html.append("\" class=\"");
    html.append(if item.done { "done" } else { "open" });
    html.append("\"><button hx-post=\"/flip/");
    html.append(id.as_str());
    html.append("\" hx-target=\"#item-");
    html.append(id.as_str());
    html.append("\" hx-swap=\"outerHTML\">");
    html.append(text.as_str());
    html.append("</button></li>");
    assert(html@ =~= old(html)@ + item_html(item@));
}

impl ItemTemplate {
    /// The row of the item: its key in decimal, its state, and its text
    /// escaped.
    pub fn render(&self) -> (html: String)
        ensures
            html@ == item_html(self.item@),
    {
        let mut html = String::new();
        append_item(&mut html, &self.item);
        assert(html@ =~= item_html(self.item@));
        html
    }
}

impl IndexTemplate {
    /// The page: one row for each item, in the order of the items.
    pub fn render(&self) -> (html: String)
        ensures
            html@ == index_html(views(self.items@)),
    {
        let mut html = String::from_str(INDEX_HEAD);
        let ghost all = views(self.items@);
        let mut i: usize = 0;
        assert(all.take(0) =~= Seq::empty());
        assert(html@ =~= index_head() + items_html(all.take(0)));
        while i < self.items.len()
            invariant
                i <= self.items.len(),
                all == views(self.items@),
                html@ == index_head() + items_html(all.take(i as int)),
            decreases self.items.len() - i,
        {
            append_item(&mut html, &self.items[i]);
            proof {
                let next = all.take(i + 1);
                assert(next.drop_last() =~= all.take(i as int));
                assert(next.last() == self.items@[i as int]@);
                assert(html@ =~= index_head() + items_html(next));
            }
            i += 1;
        }
        assert(all.take(i as int) =~= all);
        html.append(INDEX_TAIL);
        html
    }
}

impl ErrorTemplate {
    /// The error fragment, the same whatever went wrong.
    pub fn render(&self) -> (html: String)
        ensures
            html@ == error_html(),
    {
        String::from_str(ERROR_FRAGMENT)
    }
}

} // verus!
