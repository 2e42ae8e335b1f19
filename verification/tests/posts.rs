use backend::error::AppError;
use backend::posts::{create_post, delete_post, list_posts, update_post, PostRow};
use backend::structs::{NewPost, Post, PostType};

fn row(id: i32, post_type: &str) -> PostRow {
    PostRow {
        id,
        description: format!("post {}", id),
        completed: id % 2 == 0,
        category: "music".to_string(),
        user_id: 7,
        post_type: post_type.to_string(),
        pin_code: if id == 3 { Some("560001".to_string()) } else { None },
    }
}

#[test]
fn post_type_is_stored_as_a_word() {
    assert_eq!(PostType::Offer.to_string(), "offer");
    assert_eq!(PostType::Request.to_string(), "request");
}

#[test]
fn stored_word_reads_back() {
    assert_eq!(PostType::from_stored("offer"), PostType::Offer);
    assert_eq!(PostType::from_stored("request"), PostType::Request);
    for t in [PostType::Offer, PostType::Request] {
        assert_eq!(PostType::from_stored(&t.to_string()), t);
    }
}

#[test]
fn unknown_word_reads_as_request() {
    for word in ["", "Offer", "OFFER", "offers", "offe", "gift", " offer"] {
        assert_eq!(PostType::from_stored(word), PostType::Request);
    }
}

#[test]
fn rows_become_posts_in_order() {
    let posts = list_posts(vec![row(1, "offer"), row(2, "request"), row(3, "something"), row(4, "offer")]);
    assert_eq!(posts.len(), 4);
    let ids: Vec<i32> = posts.iter().map(|p| p.id).collect();
    assert_eq!(ids, vec![1, 2, 3, 4]);
    let types: Vec<PostType> = posts.iter().map(|p| p.post_type).collect();
    assert_eq!(types, vec![PostType::Offer, PostType::Request, PostType::Request, PostType::Offer]);
    assert_eq!(posts[2].description, "post 3");
    assert_eq!(posts[2].completed, false);
    assert_eq!(posts[1].completed, true);
    assert_eq!(posts[2].category, "music");
    assert_eq!(posts[2].user_id, 7);
    assert_eq!(posts[2].pin_code.as_deref(), Some("560001"));
    assert_eq!(posts[0].pin_code, None);
}

#[test]
fn no_rows_no_posts() {
    assert!(list_posts(Vec::new()).is_empty());
}

#[test]
fn created_post_has_the_type_of_the_form() {
    let form = NewPost {
        description: "d".to_string(),
        category: "c".to_string(),
        post_type: PostType::Offer,
        pin_code: None,
    };
    let post = create_post(form, row(5, "request"));
    assert_eq!(post.id, 5);
    assert_eq!(post.post_type, PostType::Offer);
    assert_eq!(post.description, "post 5");
    assert_eq!(post.user_id, 7);
}

#[test]
fn deletion_that_removed_a_post() {
    let r = delete_post(12, 1).expect("removed");
    assert!(r.success);
    assert_eq!(r.id, 12);
    assert_eq!(r.message, "Post with id 12 deleted successfully.");
    let r = delete_post(-3, 2).expect("removed");
    assert_eq!(r.message, "Post with id -3 deleted successfully.");
}

#[test]
fn deletion_that_removed_nothing() {
    match delete_post(12, 0) {
        Err(AppError::HttpError(status, detail)) => {
            assert_eq!(status, 404);
            assert_eq!(detail, "Post with id 12 not found for deletion.");
        }
        other => panic!("unexpected result {:?}", other),
    }
}

fn a_post(id: i32) -> Post {
    Post {
        id,
        description: "d".to_string(),
        completed: true,
        category: "c".to_string(),
        user_id: 7,
        post_type: PostType::Request,
        pin_code: None,
    }
}

#[test]
fn update_that_changed_a_post() {
    let post = update_post(a_post(9), 1).expect("changed");
    assert_eq!(post.id, 9);
    assert_eq!(post.description, "d");
    assert_eq!(post.post_type, PostType::Request);
}

#[test]
fn update_that_changed_nothing() {
    match update_post(a_post(i32::MIN), 0) {
        Err(AppError::HttpError(status, detail)) => {
            assert_eq!(status, 404);
            assert_eq!(detail, "Post with id -2147483648 not found for update.");
        }
        other => panic!("unexpected result {:?}", other),
    }
}

#[test]
fn task_deletion_that_removed_a_task() {
    let r = backend::funcs::delete(4, 1).expect("removed");
    assert!(r.success);
    assert_eq!(r.id, 4);
    assert_eq!(r.message, "Todo with id 4 deleted successfully.");
}

#[test]
fn task_deletion_that_removed_nothing() {
    match backend::funcs::delete(4, 0) {
        Err(AppError::HttpError(status, detail)) => {
            assert_eq!(status, 404);
            assert_eq!(detail, "Task with id 4 not found for deletion.");
        }
        other => panic!("unexpected result {:?}", other),
    }
}

#[test]
fn task_update() {
    let todo = backend::funcs::Todo {
        id: 21,
        descript: "water the plants".to_string(),
        done: false,
        category: "home".to_string(),
        user_id: 7,
    };
    let same = backend::funcs::update(todo.clone(), 3).expect("changed");
    assert_eq!(same.id, 21);
    assert_eq!(same.descript, "water the plants");
    assert_eq!(same.done, false);
    match backend::funcs::update(todo, 0) {
        Err(AppError::HttpError(status, detail)) => {
            assert_eq!(status, 404);
            assert_eq!(detail, "Todo with id 21 not found for update.");
        }
        other => panic!("unexpected result {:?}", other),
    }
}
