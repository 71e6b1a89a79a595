//! The application as a whole, over a table in memory: each request is
//! answered by reading or writing the table and handing the outcome to its
//! handler.

use vstd::prelude::*;

use crate::handler::{add_item, flip_item, flipped_item, root, FlipStep};
use crate::item::TodoItemView;
use crate::table::{
    has_id, key_names_row, new_row, next_id, replaced, row_of, well_formed, TodoTable,
};
use crate::template::{
    error_html, index_head, index_html, index_tail, item_html, items_html, page_is_not_error,
    row_is_not_error,
};

verus! {

/// A request, decoded.
#[derive(Debug)]
pub enum Request {
    /// Show the whole list.
    List,
    /// Add an item with this text.
    Add(String),
    /// Flip the item with this key.
    Flip(i32),
}

/// A request as a mathematical value.
pub ghost enum RequestView {
    List,
    Add(Seq<char>),
    Flip(int),
}

impl View for Request {
    type V = RequestView;

    open spec fn view(&self) -> RequestView {
        match self {
            Request::List => RequestView::List,
            Request::Add(text) => RequestView::Add(text@),
            Request::Flip(id) => RequestView::Flip(*id as int),
        }
    }
}

/// The rows with the flag negated in each row that has the key `id`.
pub open spec fn flipped_rows(rows: Seq<TodoItemView>, id: int) -> Seq<TodoItemView> {
    rows.map_values(
        |row: TodoItemView|
            if row.id == id {
                row.flipped()
            } else {
                row
            },
    )
}

/// Whether the table has a key left for one more row.
pub open spec fn has_room(rows: Seq<TodoItemView>) -> bool {
    next_id(rows) <= i32::MAX
}

/// The table after a request: listing changes nothing, adding appends the
/// new row if a key is left, flipping negates the flag of the row with
/// the key.
pub open spec fn table_after(rows: Seq<TodoItemView>, request: RequestView) -> Seq<TodoItemView> {
    match request {
        RequestView::List => rows,
        RequestView::Add(text) => if has_room(rows) {
            rows.push(new_row(rows, text))
        } else {
            rows
        },
        RequestView::Flip(id) => flipped_rows(rows, id),
    }
}

/// What a request is answered with: the page with every row; the row that
/// was added; the row as it is after the flip; or the error fragment,
/// where no key is left for a new row or no row has the key to flip.
pub open spec fn response_to(rows: Seq<TodoItemView>, request: RequestView) -> Seq<char> {
    match request {
        RequestView::List => index_html(rows),
        RequestView::Add(text) => if has_room(rows) {
            item_html(new_row(rows, text))
        } else {
            error_html()
        },
        RequestView::Flip(id) => if has_id(rows, id) {
            item_html(row_of(rows, id).flipped())
        } else {
            error_html()
        },
    }
}

/// Writing the flipped row over its row is flipping the row in place.
proof fn flipped_row_replaced(rows: Seq<TodoItemView>, id: int)
    requires
        well_formed(rows),
        has_id(rows, id),
    ensures
        replaced(rows, row_of(rows, id).flipped()) == flipped_rows(rows, id),
{
    let next = row_of(rows, id).flipped();
    assert forall|i: int| 0 <= i < rows.len() implies replaced(rows, next)[i] == flipped_rows(
        rows,
        id,
    )[i] by {
        if rows[i].id == id {
            key_names_row(rows, i);
        }
    }
    assert(replaced(rows, next) =~= flipped_rows(rows, id));
}

/// Flipping a key that no row has changes nothing.
proof fn flip_without_row(rows: Seq<TodoItemView>, id: int)
    requires
        !has_id(rows, id),
    ensures
        flipped_rows(rows, id) == rows,
{
    assert forall|i: int| 0 <= i < rows.len() implies flipped_rows(rows, id)[i] == rows[i] by {
        if rows[i].id == id {
            assert(has_id(rows, id));
        }
    }
    assert(flipped_rows(rows, id) =~= rows);
}

/// Answers `request` from `table`.
pub fn serve(table: &mut TodoTable, request: Request) -> (html: String)
    requires
        well_formed(old(table)@),
    ensures
        well_formed(final(table)@),
        final(table)@ == table_after(old(table)@, request@),
        html@ == response_to(old(table)@, request@),
{
    match request {
        Request::List => root(Ok(table.list_all())),
        Request::Add(text) => add_item(table.insert(text)),
        Request::Flip(id) => {
            match flip_item(table.find_by_id(id)) {
                FlipStep::Update(next) => {
                    proof {
                        flipped_row_replaced(table@, id as int);
                    }
                    flipped_item(table.update(next))
                },
                FlipStep::Respond(html) => {
                    proof {
                        flip_without_row(table@, id as int);
                    }
                    html
                },
            }
        },
    }
}

/// The table after the items of `texts` were added one after the other.
pub open spec fn after_adding(rows: Seq<TodoItemView>, texts: Seq<Seq<char>>) -> Seq<TodoItemView>
    decreases texts.len(),
{
    if texts.len() == 0 {
        rows
    } else {
        table_after(after_adding(rows, texts.drop_last()), RequestView::Add(texts.last()))
    }
}

/// No request removes a row, changes the key or the text of a row, or
/// brings a key in twice.
pub proof fn rows_keep_key_and_text(rows: Seq<TodoItemView>, request: RequestView)
    requires
        well_formed(rows),
    ensures
        well_formed(table_after(rows, request)),
        table_after(rows, request).len() >= rows.len(),
        forall|i: int|
            0 <= i < rows.len() ==> {
                &&& (#[trigger] table_after(rows, request)[i]).id == rows[i].id
                &&& table_after(rows, request)[i].text == rows[i].text
            },
{
}

/// An item that is added to the empty table is then the only item
/// listed, with its text and not done.
pub proof fn added_item_is_listed(text: Seq<char>)
    ensures
        table_after(Seq::empty(), RequestView::Add(text)) == seq![
            TodoItemView { id: 1, text, done: false },
        ],
        response_to(table_after(Seq::empty(), RequestView::Add(text)), RequestView::List)
            == index_head() + item_html(TodoItemView { id: 1, text, done: false }) + index_tail(),
{
    let item = TodoItemView { id: 1, text, done: false };
    let rows = table_after(Seq::empty(), RequestView::Add(text));
    assert(rows =~= seq![item]);
    assert(rows.drop_last() =~= Seq::empty());
    assert(items_html(rows.drop_last()) =~= Seq::empty());
    assert(items_html(rows) =~= item_html(item));
}

/// Flipping the same key twice leaves the table as it was; and where the
/// table has the key, the second flip is answered with the row as it was
/// before the first.
pub proof fn flip_twice_restores(rows: Seq<TodoItemView>, id: int)
    ensures
        table_after(table_after(rows, RequestView::Flip(id)), RequestView::Flip(id)) == rows,
        well_formed(rows) && has_id(rows, id) ==> response_to(
            table_after(rows, RequestView::Flip(id)),
            RequestView::Flip(id),
        ) == item_html(row_of(rows, id)),
{
    let once = flipped_rows(rows, id);
    assert(flipped_rows(once, id) =~= rows);
    if well_formed(rows) && has_id(rows, id) {
        let i = choose|i: int| 0 <= i < rows.len() && #[trigger] rows[i].id == id;
        key_names_row(rows, i);
        assert(once[i].id == id);
        key_names_row(once, i);
    }
}

/// Flipping a key that no row has is answered with the error fragment
/// and changes nothing; flipping a key that a row has is never answered
/// with the error fragment.
pub proof fn flip_of_missing_key(rows: Seq<TodoItemView>, id: int)
    ensures
        !has_id(rows, id) ==> {
            &&& response_to(rows, RequestView::Flip(id)) == error_html()
            &&& table_after(rows, RequestView::Flip(id)) == rows
        },
        has_id(rows, id) ==> response_to(rows, RequestView::Flip(id)) != error_html(),
{
    if has_id(rows, id) {
        row_is_not_error(row_of(rows, id).flipped());
    } else {
        flip_without_row(rows, id);
    }
}

/// Listing the empty table is answered with the page without rows, which
/// is not the error fragment.
pub proof fn empty_table_lists_nothing()
    ensures
        response_to(Seq::empty(), RequestView::List) == index_head() + index_tail(),
        response_to(Seq::empty(), RequestView::List) != error_html(),
{
    page_is_not_error(Seq::empty());
    assert(index_html(Seq::empty()) =~= index_head() + index_tail());
}

/// Items added one after the other to a table that has keys left for all
/// of them are appended in the order in which they were added, each not
/// done and under a key of its own; the rows that were there stay, and
/// the list then has one row more for each item.
pub proof fn added_items_get_keys_of_their_own(rows: Seq<TodoItemView>, texts: Seq<Seq<char>>)
    requires
        well_formed(rows),
        next_id(rows) + texts.len() - 1 <= i32::MAX,
    ensures
        well_formed(after_adding(rows, texts)),
        after_adding(rows, texts).len() == rows.len() + texts.len(),
        after_adding(rows, texts).take(rows.len() as int) == rows,
        forall|k: int|
            0 <= k < texts.len() ==> #[trigger] after_adding(rows, texts)[rows.len() + k] == (
            TodoItemView { id: next_id(rows) + k, text: texts[k], done: false }),
        forall|i: int, j: int|
            0 <= i < j < after_adding(rows, texts).len() ==> after_adding(rows, texts)[i].id
                != after_adding(rows, texts)[j].id,
        response_to(after_adding(rows, texts), RequestView::List) == index_html(
            after_adding(rows, texts),
        ),
    decreases texts.len(),
{
    let after = after_adding(rows, texts);
    if texts.len() == 0 {
        assert(after.take(rows.len() as int) =~= rows);
    } else {
        let front = texts.drop_last();
        let before = after_adding(rows, front);
        added_items_get_keys_of_their_own(rows, front);
        assert(next_id(before) == next_id(rows) + front.len()) by {
            if front.len() > 0 {
                assert(before.last() == before[rows.len() + (front.len() - 1)]);
            } else {
                assert(before.take(rows.len() as int) == rows);
                assert(before =~= rows);
            }
        }
        assert(after == before.push(new_row(before, texts.last())));
        assert(after.take(rows.len() as int) =~= before.take(rows.len() as int));
        assert forall|k: int| 0 <= k < texts.len() implies #[trigger] after[rows.len() + k] == (
        TodoItemView { id: next_id(rows) + k, text: texts[k], done: false }) by {
            if k < front.len() {
                assert(after[rows.len() + k] == before[rows.len() + k]);
                assert(front[k] == texts[k]);
            }
        }
        assert(well_formed(after)) by {
            assert forall|i: int, j: int| 0 <= i < j < after.len() implies after[i].id
                < after[j].id by {
                if j == after.len() - 1 && before.len() > 0 {
                    if i < before.len() - 1 {
                        assert(before[i].id < before[before.len() - 1].id);
                    }
                }
            }
        }
    }
}

} // verus!
