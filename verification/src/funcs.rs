//! Tasks on their way out of the store: what a deletion or an update that
//! touched nothing means.

use crate::error::{AppError, AppErrorView, NOT_FOUND};
use crate::structs::{DeleteResponse, DeleteResponseView};
use crate::text::{around_decimal, decimal};
use vstd::prelude::*;
use vstd::string::*;

verus! {

/// A task of a user.
#[derive(Debug, Clone)]
pub struct Todo {
    pub id: i32,
    pub descript: String,
    pub done: bool,
    pub category: String,
    pub user_id: i32,
}

/// The value of a [`Todo`].
pub struct TodoView {
    pub id: i32,
    pub descript: Seq<char>,
    pub done: bool,
    pub category: Seq<char>,
    pub user_id: i32,
}

impl View for Todo {
    type V = TodoView;

    open spec fn view(&self) -> TodoView {
        TodoView {
            id: self.id,
            descript: self.descript@,
            done: self.done,
            category: self.category@,
            user_id: self.user_id,
        }
    }
}

/// The answer to a deletion that removed the task.
pub open spec fn deleted(id: i32) -> DeleteResponseView {
    DeleteResponseView {
        success: true,
        id,
        message: "Todo with id "@ + decimal(id as int) + " deleted successfully."@,
    }
}

/// The error of a deletion that found no task of the user under the id.
pub open spec fn not_found_for_deletion(id: i32) -> AppErrorView {
    AppErrorView::HttpError(
        NOT_FOUND,
        "Task with id "@ + decimal(id as int) + " not found for deletion."@,
    )
}

/// The error of an update that found no task of the user under the id.
pub open spec fn not_found_for_update(id: i32) -> AppErrorView {
    AppErrorView::HttpError(
        NOT_FOUND,
        "Todo with id "@ + decimal(id as int) + " not found for update."@,
    )
}

/// What a deletion means, given how many rows it removed: the answer where
/// it removed one, an error where the user has no task under the id.
pub fn delete(id: i32, rows_affected: u64) -> (r: Result<DeleteResponse, AppError>)
    ensures
        match r {
            Ok(response) => rows_affected > 0 && response@ == deleted(id),
            Err(error) => rows_affected == 0 && error@ == not_found_for_deletion(id),
        },
{
    if rows_affected > 0 {
        Ok(
            DeleteResponse {
                success: true,
                id,
                message: around_decimal("Todo with id ", id as i64, " deleted successfully."),
            },
        )
    } else {
        Err(AppError::HttpError(NOT_FOUND, around_decimal("Task with id ", id as i64, " not found for deletion.")))
    }
}

/// What an update means, given how many rows it changed: the task as it was
/// sent where it changed one, an error where the user has no task under the
/// id.
pub fn update(todo: Todo, rows_affected: u64) -> (r: Result<Todo, AppError>)
    ensures
        match r {
            Ok(updated) => rows_affected > 0 && updated == todo,
            Err(error) => rows_affected == 0 && error@ == not_found_for_update(todo.id),
        },
{
    if rows_affected > 0 {
        Ok(todo)
    } else {
        Err(AppError::HttpError(NOT_FOUND, around_decimal("Todo with id ", todo.id as i64, " not found for update.")))
    }
}

} // verus!
