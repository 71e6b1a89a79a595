//! What each request is answered with, given what the table gave back.
//!
//! A handler never touches the table. The caller reads or writes and hands
//! the outcome over; the handler says what is shown, or what is to be
//! written next.

use vstd::prelude::*;

use crate::error::DataError;
use crate::item::{views, TodoItem};
use crate::template::{error_html, index_html, item_html, ErrorTemplate, IndexTemplate, ItemTemplate};

verus! {

/// What follows the lookup of the item that is to be flipped.
pub enum FlipStep {
    /// The row is to be written as given here.
    Update(TodoItem),
    /// Nothing is written, and this is shown.
    Respond(String),
}

/// Answers a request for the list, given the outcome of reading every
/// row: the page with the rows that were read, in their order; the error
/// fragment where reading failed.
pub fn root(listed: Result<Vec<TodoItem>, DataError>) -> (html: String)
    ensures
        match listed {
            Ok(items) => html@ == index_html(views(items@)),
            Err(_) => html@ == error_html(),
        },
{
    match listed {
        Ok(items) => {
            let template = IndexTemplate { items };
            template.render()
        },
        Err(_) => ErrorTemplate.render(),
    }
}

/// The row of the item that was written; the error fragment where
/// writing failed.
fn respond_with_item(written: Result<TodoItem, DataError>) -> (html: String)
    ensures
        match written {
            Ok(item) => html@ == item_html(item@),
            Err(_) => html@ == error_html(),
        },
{
    match written {
        Ok(item) => {
            let template = ItemTemplate { item };
            template.render()
        },
        Err(_) => ErrorTemplate.render(),
    }
}

/// Answers a request to add an item, given the outcome of creating its
/// row: the row that was created; the error fragment where creating it
/// failed.
pub fn add_item(inserted: Result<TodoItem, DataError>) -> (html: String)
    ensures
        match inserted {
            Ok(item) => html@ == item_html(item@),
            Err(_) => html@ == error_html(),
        },
{
    respond_with_item(inserted)
}

/// Takes up a request to flip an item, given the outcome of looking the
/// item up: the row that was found is to be written with its flag
/// negated; where none was found, or the lookup failed, the error
/// fragment is shown and nothing is written.
pub fn flip_item(found: Result<TodoItem, DataError>) -> (step: FlipStep)
    ensures
        match found {
            Ok(item) => step matches FlipStep::Update(next) && next@ == item@.flipped(),
            Err(_) => step matches FlipStep::Respond(html) && html@ == error_html(),
        },
{
    match found {
        Ok(item) => FlipStep::Update(item.flipped()),
        Err(_) => FlipStep::Respond(ErrorTemplate.render()),
    }
}

/// Answers a request to flip an item, given the outcome of writing the
/// flipped row: the row as it was written; the error fragment where
/// writing it failed.
pub fn flipped_item(updated: Result<TodoItem, DataError>) -> (html: String)
    ensures
        match updated {
            Ok(item) => html@ == item_html(item@),
            Err(_) => html@ == error_html(),
        },
{
    respond_with_item(updated)
}

} // verus!
