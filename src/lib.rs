//! Retention and deletion logic for an account's posts and comments on a
//! federated link aggregator: which items a run collects for deletion, and
//! the per-item edit and delete steps with bounded retry.
pub mod decimal;

pub mod timestamp;
pub mod item;
pub mod configuration;
pub mod api;
pub mod collector;
pub mod mutator;

pub use timestamp::{Timestamp, within_days, retained_after_shift, deserialize_date};
pub use item::{DeletedState, Comment, Post, CommentView, PostView, ProfilePage};
pub use configuration::Configuration;
pub use api::{Api, ConfigError, PostIdBody, DeleteCommentBody, EditCommentBody, profile_page_path};
pub use collector::{keep_comment, keep_post, select_comments, select_posts, Collector, CollectStep, PageReply};
pub use mutator::{Action, Echo, Method, Mutation, MutationError, Next, Reply, Request, Stage};
