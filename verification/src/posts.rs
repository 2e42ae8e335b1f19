//! Posts on their way out of the store: what a stored row becomes, and what
//! a deletion or an update that touched nothing means.

use crate::error::{AppError, AppErrorView, NOT_FOUND};
use crate::structs::{opt_text, DeleteResponse, DeleteResponseView, NewPost, Post, PostType, PostView};
use crate::text::{around_decimal, decimal};
use vstd::prelude::*;
use vstd::string::*;

verus! {

/// A post as the store keeps it: the post type is a word.
#[derive(Debug, Clone)]
pub struct PostRow {
    pub id: i32,
    pub description: String,
    pub completed: bool,
    pub category: String,
    pub user_id: i32,
    pub post_type: String,
    pub pin_code: Option<String>,
}

/// The value of a [`PostRow`].
pub struct PostRowView {
    pub id: i32,
    pub description: Seq<char>,
    pub completed: bool,
    pub category: Seq<char>,
    pub user_id: i32,
    pub post_type: Seq<char>,
    pub pin_code: Option<Seq<char>>,
}

impl View for PostRow {
    type V = PostRowView;

    open spec fn view(&self) -> PostRowView {
        PostRowView {
            id: self.id,
            description: self.description@,
            completed: self.completed,
            category: self.category@,
            user_id: self.user_id,
            post_type: self.post_type@,
            pin_code: opt_text(self.pin_code),
        }
    }
}

/// The post that a row stands for, with the given post type.
pub open spec fn post_with(row: PostRowView, post_type: PostType) -> PostView {
    PostView {
        id: row.id,
        description: row.description,
        completed: row.completed,
        category: row.category,
        user_id: row.user_id,
        post_type,
        pin_code: row.pin_code,
    }
}

/// The post that a row stands for. A post type that is neither `offer` nor
/// `request` reads as a request.
pub open spec fn post_of(row: PostRowView) -> PostView {
    post_with(row, PostType::parse(row.post_type))
}

/// The answer to a deletion that removed the post.
pub open spec fn deleted(id: i32) -> DeleteResponseView {
    DeleteResponseView {
        success: true,
        id,
        message: "Post with id "@ + decimal(id as int) + " deleted successfully."@,
    }
}

/// The error of a deletion that found no post of the user under the id.
pub open spec fn not_found_for_deletion(id: i32) -> AppErrorView {
    AppErrorView::HttpError(
        NOT_FOUND,
        "Post with id "@ + decimal(id as int) + " not found for deletion."@,
    )
}

/// The error of an update that found no post of the user under the id.
pub open spec fn not_found_for_update(id: i32) -> AppErrorView {
    AppErrorView::HttpError(
        NOT_FOUND,
        "Post with id "@ + decimal(id as int) + " not found for update."@,
    )
}

fn post_from(row: PostRow, post_type: PostType) -> (r: Post)
    ensures
        r@ == post_with(row@, post_type),
{
    Post {
        id: row.id,
        description: row.description,
        completed: row.completed,
        category: row.category,
        user_id: row.user_id,
        post_type,
        pin_code: row.pin_code,
    }
}

/// Turns the rows of a user's posts into posts, one for one and in order.
pub fn list_posts(rows: Vec<PostRow>) -> (r: Vec<Post>)
    ensures
        r@.len() == rows@.len(),
        forall|i: int| 0 <= i < r@.len() ==> (#[trigger] r@[i])@ == post_of(rows@[i]@),
{
    let ghost all = rows@;
    let mut posts: Vec<Post> = Vec::new();
    for row in it: rows
        invariant
            it.seq() == all,
            posts@.len() == it.index(),
            forall|i: int| 0 <= i < posts@.len() ==> (#[trigger] posts@[i])@ == post_of(all[i]@),
    {
        let post_type = PostType::from_stored(row.post_type.as_str());
        posts.push(post_from(row, post_type));
    }
    posts
}

/// The post that was created: the row that the store returned, with the post
/// type of the form.
pub fn create_post(new_post: NewPost, row: PostRow) -> (r: Post)
    ensures
        r@ == post_with(row@, new_post.post_type),
{
    post_from(row, new_post.post_type)
}

/// What a deletion means, given how many rows it removed: the answer where
/// it removed one, an error where the user has no post under the id.
pub fn delete_post(id: i32, rows_affected: u64) -> (r: Result<DeleteResponse, AppError>)
    ensures
        match r {
            Ok(response) => rows_affected > 0 && response@ == deleted(id),
            Err(error) => rows_affected == 0 && error@ == not_found_for_deletion(id),
        },
{
    if rows_affected > 0 {
        Ok(DeleteResponse { success: true, id, message: around_decimal("Post with id ", id as i64, " deleted successfully.") })
    } else {
        Err(AppError::HttpError(NOT_FOUND, around_decimal("Post with id ", id as i64, " not found for deletion.")))
    }
}

/// What an update means, given how many rows it changed: the post as it was
/// sent where it changed one, an error where the user has no post under the
/// id.
pub fn update_post(post: Post, rows_affected: u64) -> (r: Result<Post, AppError>)
    ensures
        match r {
            Ok(updated) => rows_affected > 0 && updated == post,
            Err(error) => rows_affected == 0 && error@ == not_found_for_update(post.id),
        },
{
    if rows_affected > 0 {
        Ok(post)
    } else {
        Err(AppError::HttpError(NOT_FOUND, around_decimal("Post with id ", post.id as i64, " not found for update.")))
    }
}

} // verus!
