use vstd::prelude::*;
use crate::api::{Api, DeleteCommentBody, EditCommentBody, PostIdBody};
use crate::configuration::Configuration;
use crate::item::{Comment, DeletedState, Post};

verus! {

/// Why the deletion of one item failed.
#[derive(Debug, PartialEq, Eq)]
pub enum MutationError {
    /// The request could not be sent, or its answer could not be read.
    Transport,
    /// The answer, whose raw text is `body`, did not have the expected shape.
    Parse { body: String },
    /// The server refused the request of item `id` with this status and body.
    Status { id: i64, status: u16, body: String },
    /// The edit answer echoed another content than the configured text.
    EditNotApplied,
    /// The deletion answer did not echo the `deleted` flag.
    Unverified,
    /// Every attempt for item `id` met an overloaded server.
    AttemptsExhausted { id: i64 },
}

/// What an answer body holds, as far as the mutation steps read it.
#[derive(Debug, PartialEq, Eq)]
pub enum Echo {
    /// The body did not have the expected shape.
    Unparsable,
    /// The comment as the server echoes it after an edit or a deletion.
    Comment { content: String, deleted: Option<bool> },
    /// The `deleted` flag of the post as the server echoes it after a deletion.
    Post { deleted: Option<bool> },
}

/// The outcome of one request.
#[derive(Debug, PartialEq, Eq)]
pub enum Reply {
    /// The request could not be sent, or its answer could not be read.
    Unsent,
    /// The server answered with `status` and the text `body`, which holds `echo`.
    Answered { status: u16, body: String, echo: Echo },
}

/// A request to the remote service.
#[derive(Debug, PartialEq, Eq)]
pub enum Request {
    DeletePost(PostIdBody),
    EditComment(EditCommentBody),
    DeleteComment(DeleteCommentBody),
}

/// The HTTP method of a request.
#[derive(Clone, Copy, Debug, PartialEq, Eq, Structural)]
pub enum Method {
    Post,
    Put,
}

/// The endpoint of a request, below the API's version prefix.
pub open spec fn endpoint(r: Request) -> Seq<char> {
    match r {
        Request::DeletePost(_) => "post/delete"@,
        Request::EditComment(_) => "comment"@,
        Request::DeleteComment(_) => "comment/delete"@,
    }
}

/// The HTTP method of a request: an edit replaces (`PUT`), a deletion posts.
pub open spec fn method_of(r: Request) -> Method {
    match r {
        Request::EditComment(_) => Method::Put,
        _ => Method::Post,
    }
}

impl Request {
    /// The HTTP method by which the request is sent.
    pub fn method(&self) -> (r: Method)
        ensures
            r == method_of(*self),
    {
        match self {
            Request::EditComment(_) => Method::Put,
            _ => Method::Post,
        }
    }

    /// The address to which the request is sent.
    pub fn url(&self, api: &Api) -> (r: String)
        ensures
            r@ == api.base() + "/api/v3/"@ + endpoint(*self),
    {
        match self {
            Request::DeletePost(_) => api.format_api_call("post/delete"),
            Request::EditComment(_) => api.format_api_call("comment"),
            Request::DeleteComment(_) => api.format_api_call("comment/delete"),
        }
    }
}

/// What follows a pause.
#[derive(Debug, PartialEq, Eq)]
pub enum Next {
    /// Send this request and hand its outcome to the mutation.
    Send(Request),
    /// The item is handled: whether the server confirmed the deletion, or why not.
    Finish(Result<bool, MutationError>),
}

/// The next action of a mutation: wait `pauses` times the configured delay, then `next`.
#[derive(Debug, PartialEq, Eq)]
pub struct Action {
    pub pauses: u64,
    pub next: Next,
}

/// Where the mutation of one item stands.
#[derive(Clone, Copy, Debug, PartialEq, Eq, Structural)]
pub enum Stage {
    /// The post deletion request is out.
    DeletingPost,
    /// The comment edit request is out; `tries_left` counts this attempt too.
    Editing { tries_left: u64 },
    /// The comment deletion request is out; `tries_left` counts this attempt too.
    DeletingComment { tries_left: u64 },
    /// Nothing more is sent.
    Finished,
}

/// The mutation of the item `id`.
#[derive(Clone, Copy, Debug, PartialEq, Eq, Structural)]
pub struct Mutation {
    pub id: i64,
    pub stage: Stage,
}

/// The status by which the server says that it is overloaded.
pub const OVERLOADED: u16 = 503;

/// Attempts of one edit or deletion request against an overloaded server.
pub const ATTEMPTS: u64 = 3;

/// Pauses (of the configured delay) before a request is sent again to an overloaded server.
pub const RECOVERY_PAUSES: u64 = 10;

/// A status of the success class.
pub open spec fn is_success(status: u16) -> bool {
    200 <= status <= 299
}

/// The body of the deletion request of post `id`.
pub open spec fn post_body(id: i64, config: &Configuration) -> PostIdBody {
    PostIdBody { auth: config.lemmy_token, post_id: id, deleted: true }
}

/// The body of the edit request of comment `id`.
pub open spec fn edit_body(id: i64, config: &Configuration) -> EditCommentBody {
    EditCommentBody { auth: config.lemmy_token, comment_id: id, content: config.edit_text }
}

/// The body of the deletion request of comment `id`.
pub open spec fn delete_body(id: i64, config: &Configuration) -> DeleteCommentBody {
    DeleteCommentBody { auth: config.lemmy_token, comment_id: id, deleted: true }
}

/// The request of a stage that has one out.
pub open spec fn request_of(m: Mutation, config: &Configuration) -> Request {
    match m.stage {
        Stage::Editing { .. } => Request::EditComment(edit_body(m.id, config)),
        Stage::DeletingComment { .. } => Request::DeleteComment(delete_body(m.id, config)),
        _ => Request::DeletePost(post_body(m.id, config)),
    }
}

/// Stop at once with `res`.
pub open spec fn finish(m: Mutation, res: Result<bool, MutationError>) -> (Mutation, Action) {
    (Mutation { id: m.id, stage: Stage::Finished }, Action { pauses: 0, next: Next::Finish(res) })
}

/// After an overload answer: wait for recovery, then send the same request
/// again, or give up where this was the last attempt.
pub open spec fn after_overload(m: Mutation, config: &Configuration, tries_left: u64) -> (Mutation, Action) {
    if tries_left <= 1 {
        (
            Mutation { id: m.id, stage: Stage::Finished },
            Action {
                pauses: RECOVERY_PAUSES,
                next: Next::Finish(Err(MutationError::AttemptsExhausted { id: m.id })),
            },
        )
    } else {
        let stage = match m.stage {
            Stage::Editing { .. } => Stage::Editing { tries_left: (tries_left - 1) as u64 },
            _ => Stage::DeletingComment { tries_left: (tries_left - 1) as u64 },
        };
        let m2 = Mutation { id: m.id, stage };
        (m2, Action { pauses: RECOVERY_PAUSES, next: Next::Send(request_of(m2, config)) })
    }
}

/// What an echoed deletion says: the echoed flag, an error where it is absent.
pub open spec fn deletion_outcome(flag: Option<bool>) -> Result<bool, MutationError> {
    match flag {
        Some(b) => Ok(b),
        None => Err(MutationError::Unverified),
    }
}

/// The step of a mutation on one reply.
pub open spec fn transition(m: Mutation, config: &Configuration, reply: Reply) -> (Mutation, Action) {
    match reply {
        Reply::Unsent => finish(m, Err(MutationError::Transport)),
        Reply::Answered { status, body, echo } => match m.stage {
            Stage::DeletingPost => match echo {
                Echo::Post { deleted } => finish(m, deletion_outcome(deleted)),
                _ => finish(m, Err(MutationError::Parse { body })),
            },
            Stage::Editing { tries_left } => {
                if status == OVERLOADED {
                    after_overload(m, config, tries_left)
                } else if !is_success(status) {
                    finish(m, Err(MutationError::Status { id: m.id, status, body }))
                } else {
                    match echo {
                        Echo::Comment { content, .. } => {
                            if content@ == config.edit_text@ {
                                let m2 = Mutation {
                                    id: m.id,
                                    stage: Stage::DeletingComment { tries_left: ATTEMPTS },
                                };
                                (m2, Action { pauses: 0, next: Next::Send(request_of(m2, config)) })
                            } else {
                                finish(m, Err(MutationError::EditNotApplied))
                            }
                        },
                        _ => finish(m, Err(MutationError::Parse { body })),
                    }
                }
            },
            Stage::DeletingComment { tries_left } => {
                if status == OVERLOADED {
                    after_overload(m, config, tries_left)
                } else if !is_success(status) {
                    finish(m, Err(MutationError::Status { id: m.id, status, body }))
                } else {
                    match echo {
                        Echo::Comment { deleted, .. } => finish(m, deletion_outcome(deleted)),
                        _ => finish(m, Err(MutationError::Parse { body })),
                    }
                }
            },
            Stage::Finished => finish(m, Err(MutationError::Parse { body })),
        },
    }
}

/// The mutation is waiting for the answer to a request.
pub open spec fn awaiting(m: Mutation) -> bool {
    match m.stage {
        Stage::DeletingPost => true,
        Stage::Editing { tries_left } => tries_left >= 1,
        Stage::DeletingComment { tries_left } => tries_left >= 1,
        Stage::Finished => false,
    }
}

/// Builds the request of the stage that has one out.
fn make_request(m: &Mutation, config: &Configuration) -> (r: Request)
    ensures
        r == request_of(*m, config),
{
    match m.stage {
        Stage::Editing { .. } => Request::EditComment(EditCommentBody {
            auth: config.lemmy_token.clone(),
            comment_id: m.id,
            content: config.edit_text.clone(),
        }),
        Stage::DeletingComment { .. } => Request::DeleteComment(DeleteCommentBody {
            auth: config.lemmy_token.clone(),
            comment_id: m.id,
            deleted: true,
        }),
        _ => Request::DeletePost(PostIdBody::new(m.id, config.lemmy_token.clone())),
    }
}

/// Reads the echoed `deleted` flag of a deletion answer.
fn deletion_result(flag: Option<bool>) -> (r: Result<bool, MutationError>)
    ensures
        r == deletion_outcome(flag),
{
    match flag {
        Some(b) => Ok(b),
        None => Err(MutationError::Unverified),
    }
}

impl Mutation {
    /// The mutation has a request out, so that `step` may take its outcome.
    pub fn is_awaiting(&self) -> (r: bool)
        ensures
            r == awaiting(*self),
    {
        match self.stage {
            Stage::DeletingPost => true,
            Stage::Editing { tries_left } => tries_left >= 1,
            Stage::DeletingComment { tries_left } => tries_left >= 1,
            Stage::Finished => false,
        }
    }

    /// Stops with `res`, sending nothing more.
    fn finish_with(&mut self, res: Result<bool, MutationError>) -> (r: Action)
        ensures
            (*final(self), r) == finish(*old(self), res),
    {
        self.stage = Stage::Finished;
        Action { pauses: 0, next: Next::Finish(res) }
    }

    /// Waits for the server to recover, then retries or gives up.
    fn overloaded(&mut self, config: &Configuration, tries_left: u64) -> (r: Action)
        requires
            old(self).stage is Editing || old(self).stage is DeletingComment,
        ensures
            (*final(self), r) == after_overload(*old(self), config, tries_left),
    {
        if tries_left <= 1 {
            self.stage = Stage::Finished;
            Action {
                pauses: RECOVERY_PAUSES,
                next: Next::Finish(Err(MutationError::AttemptsExhausted { id: self.id })),
            }
        } else {
            self.stage = match self.stage {
                Stage::Editing { .. } => Stage::Editing { tries_left: tries_left - 1 },
                _ => Stage::DeletingComment { tries_left: tries_left - 1 },
            };
            Action { pauses: RECOVERY_PAUSES, next: Next::Send(make_request(self, config)) }
        }
    }

    /// The deletion of a post: nothing is sent for a post that is already
    /// deleted; otherwise one pause, then the deletion request.
    pub fn for_post(post: &Post, config: &Configuration) -> (r: (Mutation, Action))
        ensures
            post.deleted ==> r == (Mutation { id: post.id, stage: Stage::Finished },
                Action { pauses: 0, next: Next::Finish(Ok(true)) }),
            !post.deleted ==> r == (Mutation { id: post.id, stage: Stage::DeletingPost },
                Action { pauses: 1, next: Next::Send(Request::DeletePost(post_body(post.id, config))) }),
            awaiting(r.0) || r.0.stage is Finished,
    {
        if post.deleted {
            return (Mutation { id: post.id, stage: Stage::Finished },
                Action { pauses: 0, next: Next::Finish(Ok(true)) });
        }
        let body = PostIdBody::new(post.id, config.lemmy_token.clone());
        (Mutation { id: post.id, stage: Stage::DeletingPost },
            Action { pauses: 1, next: Next::Send(Request::DeletePost(body)) })
    }

    /// The deletion of a comment: nothing is sent for a comment that is
    /// deleted or whose state is unknown; otherwise one pause, then the edit
    /// request where the configuration asks for one, else the deletion request.
    pub fn for_comment(comment: &Comment, config: &Configuration) -> (r: (Mutation, Action))
        ensures
            comment.deleted != DeletedState::NotDeleted ==> r == (Mutation { id: comment.id, stage: Stage::Finished },
                Action { pauses: 0, next: Next::Finish(Ok(true)) }),
            comment.deleted == DeletedState::NotDeleted && config.edit_then_delete ==> r == (
                Mutation { id: comment.id, stage: Stage::Editing { tries_left: ATTEMPTS } },
                Action { pauses: 1, next: Next::Send(Request::EditComment(edit_body(comment.id, config))) }),
            comment.deleted == DeletedState::NotDeleted && !config.edit_then_delete ==> r == (
                Mutation { id: comment.id, stage: Stage::DeletingComment { tries_left: ATTEMPTS } },
                Action { pauses: 1, next: Next::Send(Request::DeleteComment(delete_body(comment.id, config))) }),
            awaiting(r.0) || r.0.stage is Finished,
    {
        if comment.deleted != DeletedState::NotDeleted {
            return (Mutation { id: comment.id, stage: Stage::Finished },
                Action { pauses: 0, next: Next::Finish(Ok(true)) });
        }
        if config.edit_then_delete {
            let body = EditCommentBody::new(comment, config);
            (Mutation { id: comment.id, stage: Stage::Editing { tries_left: ATTEMPTS } },
                Action { pauses: 1, next: Next::Send(Request::EditComment(body)) })
        } else {
            let body = DeleteCommentBody::new(comment, config);
            (Mutation { id: comment.id, stage: Stage::DeletingComment { tries_left: ATTEMPTS } },
                Action { pauses: 1, next: Next::Send(Request::DeleteComment(body)) })
        }
    }

    /// Takes in the outcome of the request that is out and says what follows.
    pub fn step(&mut self, config: &Configuration, reply: Reply) -> (r: Action)
        requires
            awaiting(*old(self)),
        ensures
            (*final(self), r) == transition(*old(self), config, reply),
            awaiting(*final(self)) || final(self).stage is Finished,
    {
        match reply {
            Reply::Unsent => self.finish_with(Err(MutationError::Transport)),
            Reply::Answered { status, body, echo } => match self.stage {
                Stage::DeletingPost => match echo {
                    Echo::Post { deleted } => self.finish_with(deletion_result(deleted)),
                    _ => self.finish_with(Err(MutationError::Parse { body })),
                },
                Stage::Editing { tries_left } => {
                    if status == OVERLOADED {
                        self.overloaded(config, tries_left)
                    } else if !(200 <= status && status <= 299) {
                        let id = self.id;
                        self.finish_with(Err(MutationError::Status { id, status, body }))
                    } else {
                        match echo {
                            Echo::Comment { content, .. } => {
                                if content == config.edit_text {
                                    self.stage = Stage::DeletingComment { tries_left: ATTEMPTS };
                                    Action { pauses: 0, next: Next::Send(make_request(self, config)) }
                                } else {
                                    self.finish_with(Err(MutationError::EditNotApplied))
                                }
                            },
                            _ => self.finish_with(Err(MutationError::Parse { body })),
                        }
                    }
                },
                Stage::DeletingComment { tries_left } => {
                    if status == OVERLOADED {
                        self.overloaded(config, tries_left)
                    } else if !(200 <= status && status <= 299) {
                        let id = self.id;
                        self.finish_with(Err(MutationError::Status { id, status, body }))
                    } else {
                        match echo {
                            Echo::Comment { deleted, .. } => self.finish_with(deletion_result(deleted)),
                            _ => self.finish_with(Err(MutationError::Parse { body })),
                        }
                    }
                },
                Stage::Finished => self.finish_with(Err(MutationError::Parse { body })),
            },
        }
    }
}

/// Three overload answers in a row to a comment deletion end it: the request
/// is sent again after each of the first two, and after the third the
/// mutation gives up with the attempts exhausted, having sent it three times
/// in all; each time it first waits ten times the configured delay.
pub proof fn lemma_overload_gives_up(
    config: &Configuration,
    id: i64,
    b1: String,
    e1: Echo,
    b2: String,
    e2: Echo,
    b3: String,
    e3: Echo,
)
    ensures ({
        let m0 = Mutation { id, stage: Stage::DeletingComment { tries_left: ATTEMPTS } };
        let (m1, a1) = transition(m0, config, Reply::Answered { status: OVERLOADED, body: b1, echo: e1 });
        let (m2, a2) = transition(m1, config, Reply::Answered { status: OVERLOADED, body: b2, echo: e2 });
        let (m3, a3) = transition(m2, config, Reply::Answered { status: OVERLOADED, body: b3, echo: e3 });
        &&& a1 == Action { pauses: RECOVERY_PAUSES, next: Next::Send(Request::DeleteComment(delete_body(id, config))) }
        &&& a2 == Action { pauses: RECOVERY_PAUSES, next: Next::Send(Request::DeleteComment(delete_body(id, config))) }
        &&& a3 == Action { pauses: RECOVERY_PAUSES, next: Next::Finish(Err(MutationError::AttemptsExhausted { id })) }
        &&& m3.stage is Finished
    }),
{
}

/// A deletion that the server accepts without echoing the `deleted` flag is
/// never taken for a success: it ends in `Unverified`.
pub proof fn lemma_missing_flag_unverified(config: &Configuration, m: Mutation, status: u16, body: String, content: String)
    requires
        m.stage is DeletingPost || (m.stage is DeletingComment && is_success(status)),
    ensures
        transition(m, config, Reply::Answered {
            status,
            body,
            echo: if m.stage is DeletingPost { Echo::Post { deleted: None } }
                else { Echo::Comment { content, deleted: None } },
        }).1 == (Action { pauses: 0, next: Next::Finish(Err(MutationError::Unverified)) }),
{
}

} // verus!
