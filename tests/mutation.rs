use lemmy_autodelete::{
    Api, Method, Action, Comment, Configuration, DeleteCommentBody, DeletedState, EditCommentBody, Echo, Mutation,
    MutationError, Next, Post, PostIdBody, Reply, Request, Stage, Timestamp,
};

const T: Timestamp = Timestamp { secs: 1_600_000_000, nanos: 0 };

fn config(edit: bool) -> Configuration {
    Configuration {
        username: "alice@example.social".to_string(),
        lemmy_token: "tok".to_string(),
        days_to_keep: 14,
        keep_favourites: false,
        keep_upvotes: false,
        keep_downvotes: false,
        edit_then_delete: edit,
        edit_text: "[removed]".to_string(),
        sleep_time: 100,
    }
}

fn comment(deleted: DeletedState) -> Comment {
    Comment { id: 77, content: "hello".to_string(), removed: false, deleted, published: T }
}

fn delete_request() -> Next {
    Next::Send(Request::DeleteComment(DeleteCommentBody { auth: "tok".to_string(), comment_id: 77, deleted: true }))
}

fn echoed(content: &str, deleted: Option<bool>) -> Echo {
    Echo::Comment { content: content.to_string(), deleted }
}

fn answer(status: u16, echo: Echo) -> Reply {
    Reply::Answered { status, body: "{}".to_string(), echo }
}

#[test]
fn deleted_items_need_no_request() {
    let c = config(true);
    for state in [DeletedState::Deleted, DeletedState::Unknown] {
        let (m, a) = Mutation::for_comment(&comment(state), &c);
        assert_eq!(m.stage, Stage::Finished);
        assert_eq!(a, Action { pauses: 0, next: Next::Finish(Ok(true)) });
    }
    let p = Post { id: 5, name: "p".to_string(), removed: false, deleted: true, published: T };
    let (m, a) = Mutation::for_post(&p, &c);
    assert_eq!(m.stage, Stage::Finished);
    assert_eq!(a, Action { pauses: 0, next: Next::Finish(Ok(true)) });
}

#[test]
fn post_deletion_round() {
    let c = config(true);
    let p = Post { id: 5, name: "p".to_string(), removed: false, deleted: false, published: T };
    let (mut m, a) = Mutation::for_post(&p, &c);
    assert_eq!(
        a,
        Action { pauses: 1, next: Next::Send(Request::DeletePost(PostIdBody { auth: "tok".to_string(), post_id: 5, deleted: true })) }
    );
    let a = m.step(&c, answer(200, Echo::Post { deleted: Some(true) }));
    assert_eq!(a, Action { pauses: 0, next: Next::Finish(Ok(true)) });
    assert!(!m.is_awaiting());
}

#[test]
fn post_deletion_status_does_not_stop_reading_the_echo() {
    let c = config(true);
    let p = Post { id: 5, name: "p".to_string(), removed: false, deleted: false, published: T };
    let (mut m, _) = Mutation::for_post(&p, &c);
    let a = m.step(&c, answer(500, Echo::Post { deleted: Some(false) }));
    assert_eq!(a.next, Next::Finish(Ok(false)));
}

#[test]
fn post_deletion_without_flag_is_unverified() {
    let c = config(true);
    let p = Post { id: 5, name: "p".to_string(), removed: false, deleted: false, published: T };
    let (mut m, _) = Mutation::for_post(&p, &c);
    assert_eq!(m.step(&c, answer(200, Echo::Post { deleted: None })).next, Next::Finish(Err(MutationError::Unverified)));
    let (mut m, _) = Mutation::for_post(&p, &c);
    assert_eq!(m.step(&c, answer(200, Echo::Unparsable)).next, Next::Finish(Err(MutationError::Parse { body: "{}".to_string() })));
    let (mut m, _) = Mutation::for_post(&p, &c);
    assert_eq!(m.step(&c, Reply::Unsent).next, Next::Finish(Err(MutationError::Transport)));
}

#[test]
fn edit_matching_text_goes_on_to_delete() {
    let c = config(true);
    let (mut m, a) = Mutation::for_comment(&comment(DeletedState::NotDeleted), &c);
    assert_eq!(
        a,
        Action {
            pauses: 1,
            next: Next::Send(Request::EditComment(EditCommentBody { auth: "tok".to_string(), comment_id: 77, content: "[removed]".to_string() })),
        }
    );
    let a = m.step(&c, answer(200, echoed("[removed]", Some(false))));
    assert_eq!(a, Action { pauses: 0, next: delete_request() });
    assert_eq!(m.stage, Stage::DeletingComment { tries_left: 3 });
    let a = m.step(&c, answer(200, echoed("[removed]", Some(true))));
    assert_eq!(a, Action { pauses: 0, next: Next::Finish(Ok(true)) });
}

#[test]
fn edit_with_other_content_fails_before_delete() {
    let c = config(true);
    let (mut m, _) = Mutation::for_comment(&comment(DeletedState::NotDeleted), &c);
    let a = m.step(&c, answer(200, echoed("hello", Some(false))));
    assert_eq!(a, Action { pauses: 0, next: Next::Finish(Err(MutationError::EditNotApplied)) });
    assert_eq!(m.stage, Stage::Finished);
}

#[test]
fn edit_refused_is_status_error() {
    let c = config(true);
    let (mut m, _) = Mutation::for_comment(&comment(DeletedState::NotDeleted), &c);
    let a = m.step(&c, answer(403, Echo::Unparsable));
    assert_eq!(a.next, Next::Finish(Err(MutationError::Status { id: 77, status: 403, body: "{}".to_string() })));
}

#[test]
fn edit_overload_retries_then_gives_up() {
    let c = config(true);
    let (mut m, _) = Mutation::for_comment(&comment(DeletedState::NotDeleted), &c);
    for _ in 0..2 {
        let a = m.step(&c, answer(503, Echo::Unparsable));
        assert_eq!(a.pauses, 10);
        assert!(matches!(a.next, Next::Send(Request::EditComment(_))));
    }
    let a = m.step(&c, answer(503, Echo::Unparsable));
    assert_eq!(a, Action { pauses: 10, next: Next::Finish(Err(MutationError::AttemptsExhausted { id: 77 })) });
}

#[test]
fn three_overloads_exhaust_comment_delete() {
    let c = config(false);
    let (mut m, a) = Mutation::for_comment(&comment(DeletedState::NotDeleted), &c);
    assert_eq!(a, Action { pauses: 1, next: delete_request() });
    let mut sent = 1;
    loop {
        let a = m.step(&c, answer(503, Echo::Unparsable));
        assert_eq!(a.pauses, 10);
        match a.next {
            Next::Send(_) => sent += 1,
            Next::Finish(r) => {
                assert_eq!(r, Err(MutationError::AttemptsExhausted { id: 77 }));
                break;
            }
        }
    }
    assert_eq!(sent, 3);
}

#[test]
fn comment_delete_without_flag_is_unverified() {
    let c = config(false);
    let (mut m, _) = Mutation::for_comment(&comment(DeletedState::NotDeleted), &c);
    let a = m.step(&c, answer(200, echoed("hello", None)));
    assert_eq!(a.next, Next::Finish(Err(MutationError::Unverified)));
}

#[test]
fn comment_delete_other_failures() {
    let c = config(false);
    let (mut m, _) = Mutation::for_comment(&comment(DeletedState::NotDeleted), &c);
    let refused = Reply::Answered { status: 404, body: "not found".to_string(), echo: Echo::Unparsable };
    assert_eq!(
        m.step(&c, refused).next,
        Next::Finish(Err(MutationError::Status { id: 77, status: 404, body: "not found".to_string() }))
    );
    let (mut m, _) = Mutation::for_comment(&comment(DeletedState::NotDeleted), &c);
    assert_eq!(m.step(&c, answer(200, Echo::Unparsable)).next, Next::Finish(Err(MutationError::Parse { body: "{}".to_string() })));
    let (mut m, _) = Mutation::for_comment(&comment(DeletedState::NotDeleted), &c);
    assert_eq!(m.step(&c, answer(200, echoed("x", Some(false)))).next, Next::Finish(Ok(false)));
}

#[test]
fn requests_go_to_their_endpoints() {
    let c = config(true);
    let api = Api::try_from(&c).unwrap();
    let post = Request::DeletePost(PostIdBody::new(1, "tok".to_string()));
    let edit = Request::EditComment(EditCommentBody { auth: "tok".to_string(), comment_id: 2, content: "x".to_string() });
    let delete = Request::DeleteComment(DeleteCommentBody { auth: "tok".to_string(), comment_id: 3, deleted: true });
    assert_eq!(post.url(&api), "https://example.social/api/v3/post/delete");
    assert_eq!(post.method(), Method::Post);
    assert_eq!(edit.url(&api), "https://example.social/api/v3/comment");
    assert_eq!(edit.method(), Method::Put);
    assert_eq!(delete.url(&api), "https://example.social/api/v3/comment/delete");
    assert_eq!(delete.method(), Method::Post);
}
