//! The to-do item: the one entity this library knows.

use vstd::prelude::*;

verus! {

/// One row of the `todo_item` table.
#[derive(Debug, PartialEq, Eq)]
pub struct TodoItem {
    /// The key of the row, assigned when the row is created.
    pub id: i32,
    /// What is to be done.
    pub text: String,
    /// Whether it has been done.
    pub done: bool,
}

/// A to-do item as a mathematical value.
pub ghost struct TodoItemView {
    pub id: int,
    pub text: Seq<char>,
    pub done: bool,
}

impl TodoItemView {
    /// The same item with its completion flag negated.
    pub open spec fn flipped(self) -> TodoItemView {
        TodoItemView { id: self.id, text: self.text, done: !self.done }
    }
}

impl View for TodoItem {
    type V = TodoItemView;

    open spec fn view(&self) -> TodoItemView {
        TodoItemView { id: self.id as int, text: self.text@, done: self.done }
    }
}

/// The items as mathematical values, in their order.
pub open spec fn views(items: Seq<TodoItem>) -> Seq<TodoItemView> {
    items.map_values(|item: TodoItem| item@)
}

impl Clone for TodoItem {
    fn clone(&self) -> (copy: Self)
        ensures
            copy@ == self@,
    {
        TodoItem { id: self.id, text: self.text.clone(), done: self.done }
    }
}

impl TodoItem {
    /// An item with the given fields.
    pub fn new(id: i32, text: String, done: bool) -> (item: Self)
        ensures
            item@ == (TodoItemView { id: id as int, text: text@, done }),
    {
        TodoItem { id, text, done }
    }

    /// The same item with its completion flag negated.
    pub fn flipped(&self) -> (item: Self)
        ensures
            item@ == self@.flipped(),
    {
        TodoItem { id: self.id, text: self.text.clone(), done: !self.done }
    }
}

/// Flipping an item twice gives the item back.
pub proof fn flip_twice_is_identity(item: TodoItemView)
    ensures
        item.flipped().flipped() == item,
{
}

} // verus!
