//! The `todo_item` table held in memory: its rows in the order of their
//! keys, with the four operations the application needs of it.

use vstd::prelude::*;

use crate::error::DataError;
use crate::item::{views, TodoItem, TodoItemView};

verus! {

/// The rows are in the order of their keys, and no key occurs twice.
pub open spec fn well_formed(rows: Seq<TodoItemView>) -> bool {
    forall|i: int, j: int| 0 <= i < j < rows.len() ==> rows[i].id < rows[j].id
}

/// Whether a row has the key `id`.
pub open spec fn has_id(rows: Seq<TodoItemView>, id: int) -> bool {
    exists|i: int| 0 <= i < rows.len() && #[trigger] rows[i].id == id
}

/// The row with the key `id`, where there is one.
pub open spec fn row_of(rows: Seq<TodoItemView>, id: int) -> TodoItemView {
    rows[choose|i: int| 0 <= i < rows.len() && #[trigger] rows[i].id == id]
}

/// The key that the next new row gets: 1 in an empty table, else one more
/// than the greatest key.
pub open spec fn next_id(rows: Seq<TodoItemView>) -> int {
    if rows.len() == 0 {
        1
    } else {
        rows.last().id + 1
    }
}

/// The row that is created for `text`.
pub open spec fn new_row(rows: Seq<TodoItemView>, text: Seq<char>) -> TodoItemView {
    TodoItemView { id: next_id(rows), text, done: false }
}

/// The rows with `item` in place of the row that has its key.
pub open spec fn replaced(rows: Seq<TodoItemView>, item: TodoItemView) -> Seq<TodoItemView> {
    rows.map_values(
        |row: TodoItemView|
            if row.id == item.id {
                item
            } else {
                row
            },
    )
}

/// In a well-formed table a key names its row.
pub proof fn key_names_row(rows: Seq<TodoItemView>, i: int)
    requires
        well_formed(rows),
        0 <= i < rows.len(),
    ensures
        has_id(rows, rows[i].id),
        row_of(rows, rows[i].id) == rows[i],
{
    let id = rows[i].id;
    let j = choose|j: int| 0 <= j < rows.len() && #[trigger] rows[j].id == id;
    if j < i {
        assert(rows[j].id < rows[i].id);
    } else if i < j {
        assert(rows[i].id < rows[j].id);
    }
}

/// Rows of which each has a smaller key than the next are in the order
/// of their keys.
proof fn ascending_steps(rows: Seq<TodoItemView>, a: int, b: int)
    requires
        forall|k: int| 0 < k < rows.len() ==> (#[trigger] rows[k - 1]).id < rows[k].id,
        0 <= a < b < rows.len(),
    ensures
        rows[a].id < rows[b].id,
    decreases b - a,
{
    if a + 1 < b {
        ascending_steps(rows, a, b - 1);
    }
    assert(rows[(b - 1)].id < rows[b].id);
}

/// The `todo_item` table in memory.
pub struct TodoTable {
    rows: Vec<TodoItem>,
}

impl View for TodoTable {
    type V = Seq<TodoItemView>;

    closed spec fn view(&self) -> Seq<TodoItemView> {
        views(self.rows@)
    }
}

impl TodoTable {
    /// The empty table.
    pub fn new() -> (table: Self)
        ensures
            well_formed(table@),
            table@ == Seq::<TodoItemView>::empty(),
    {
        let table = TodoTable { rows: Vec::new() };
        assert(table@ =~= Seq::<TodoItemView>::empty());
        table
    }

    /// The table with these rows, if they are in the order of their keys
    /// and no key occurs twice; `None` if they are not.
    pub fn with_rows(rows: Vec<TodoItem>) -> (table: Option<Self>)
        ensures
            match table {
                Some(table) => well_formed(table@) && table@ == views(rows@),
                None => !well_formed(views(rows@)),
            },
    {
        let ghost all = views(rows@);
        let mut i: usize = 1;
        while i < rows.len()
            invariant
                1 <= i,
                all == views(rows@),
                forall|k: int| 0 < k < i && k < all.len() ==> (#[trigger] all[k - 1]).id < all[k].id,
            decreases rows.len() - i,
        {
            if rows[i - 1].id >= rows[i].id {
                assert(all[i - 1].id >= all[i as int].id);
                return None;
            }
            i += 1;
        }
        proof {
            assert forall|a: int, b: int| 0 <= a < b < all.len() implies all[a].id < all[b].id by {
                ascending_steps(all, a, b);
            }
        }
        Some(TodoTable { rows })
    }

    /// Where the row with the key `id` stands.
    fn position(&self, id: i32) -> (at: Option<usize>)
        ensures
            match at {
                Some(i) => i < self@.len() && self@[i as int].id == id,
                None => !has_id(self@, id as int),
            },
    {
        let mut i: usize = 0;
        while i < self.rows.len()
            invariant
                i <= self.rows.len(),
                self@.len() == self.rows.len(),
                forall|k: int| 0 <= k < i ==> (#[trigger] self@[k]).id != id,
            decreases self.rows.len() - i,
        {
            if self.rows[i].id == id {
                return Some(i);
            }
            i += 1;
        }
        None
    }

    /// Every row, in the order of the keys.
    pub fn list_all(&self) -> (items: Vec<TodoItem>)
        ensures
            views(items@) == self@,
    {
        let mut items: Vec<TodoItem> = Vec::new();
        let mut i: usize = 0;
        while i < self.rows.len()
            invariant
                i <= self.rows.len(),
                self@.len() == self.rows.len(),
                views(items@) =~= self@.take(i as int),
            decreases self.rows.len() - i,
        {
            let item = self.rows[i].clone();
            let ghost before = items@;
            items.push(item);
            assert(views(items@) =~= views(before).push(self@[i as int]));
            i += 1;
        }
        assert(self@.take(i as int) =~= self@);
        items
    }

    /// The row with the key `id`; `NotFound` if and only if there is none.
    pub fn find_by_id(&self, id: i32) -> (found: Result<TodoItem, DataError>)
        requires
            well_formed(self@),
        ensures
            match found {
                Ok(item) => has_id(self@, id as int) && item@ == row_of(self@, id as int),
                Err(error) => !has_id(self@, id as int) && error == DataError::NotFound,
            },
    {
        match self.position(id) {
            Some(i) => {
                assert(self@[i as int].id == id);
                Ok(self.rows[i].clone())
            },
            None => Err(DataError::NotFound),
        }
    }

    /// Creates the row for `text`, not done, under the next key, and
    /// returns it. Fails, and changes nothing, if and only if the keys are
    /// used up.
    pub fn insert(&mut self, text: String) -> (inserted: Result<TodoItem, DataError>)
        requires
            well_formed(old(self)@),
        ensures
            well_formed(final(self)@),
            match inserted {
                Ok(item) => {
                    &&& next_id(old(self)@) <= i32::MAX
                    &&& item@ == new_row(old(self)@, text@)
                    &&& final(self)@ == old(self)@.push(item@)
                },
                Err(error) => {
                    &&& next_id(old(self)@) > i32::MAX
                    &&& error == DataError::DataAccess
                    &&& final(self)@ == old(self)@
                },
            },
    {
        let n = self.rows.len();
        let id: i32 = if n == 0 {
            1
        } else {
            let last = self.rows[n - 1].id;
            assert(self@.last().id == last);
            if last == i32::MAX {
                return Err(DataError::DataAccess);
            }
            last + 1
        };
        let item = TodoItem { id, text, done: false };
        self.rows.push(item.clone());
        assert(self@ =~= old(self)@.push(item@));
        Ok(item)
    }

    /// Writes `item` over the row that has its key, and returns the row
    /// as it then is. Fails, and changes nothing, if and only if no row
    /// has that key.
    pub fn update(&mut self, item: TodoItem) -> (updated: Result<TodoItem, DataError>)
        requires
            well_formed(old(self)@),
        ensures
            well_formed(final(self)@),
            final(self)@ == replaced(old(self)@, item@),
            match updated {
                Ok(row) => has_id(old(self)@, item@.id) && row@ == item@,
                Err(error) => {
                    &&& !has_id(old(self)@, item@.id)
                    &&& error == DataError::DataAccess
                    &&& final(self)@ == old(self)@
                },
            },
    {
        match self.position(item.id) {
            Some(i) => {
                self.rows[i] = item.clone();
                assert(self@ =~= replaced(old(self)@, item@));
                Ok(item)
            },
            None => {
                assert(replaced(self@, item@) =~= self@);
                Err(DataError::DataAccess)
            },
        }
    }
}

} // verus!
