use vstd::prelude::*;
use crate::decimal::{i64_text, signed_decimal};
use crate::timestamp::Timestamp;
use vstd::string::StringSliceAdditionalSpecFns;
use vstd::utf8::{valid_utf8, encode_utf8, encode_utf8_valid_utf8, is_char_boundary, is_char_boundary_start_end_of_seq};

verus! {

/// Whether the remote service reports a comment as deleted. It may leave the
/// field out, which is a state of its own.
#[derive(Clone, Copy, Debug, PartialEq, Eq, Structural)]
pub enum DeletedState {
    Deleted,
    NotDeleted,
    Unknown,
}

/// One comment of the account.
#[derive(Debug)]
pub struct Comment {
    pub id: i64,
    pub content: String,
    /// Removed by a moderator.
    pub removed: bool,
    pub deleted: DeletedState,
    pub published: Timestamp,
}

/// One post of the account.
#[derive(Debug)]
pub struct Post {
    pub id: i64,
    pub name: String,
    /// Removed by a moderator.
    pub removed: bool,
    pub deleted: bool,
    pub published: Timestamp,
}

/// A comment as the activity feed lists it, with the owner's own annotations.
#[derive(Debug)]
pub struct CommentView {
    pub comment: Comment,
    /// Bookmarked by the account owner.
    pub saved: bool,
    /// The owner's own vote on the comment, if any.
    pub my_vote: Option<i64>,
}

/// A post as the activity feed lists it, with the owner's own annotations.
#[derive(Debug)]
pub struct PostView {
    pub post: Post,
    pub saved: bool,
    pub my_vote: Option<i64>,
    pub deleted: Option<bool>,
}

/// One page of the account's activity feed.
#[derive(Debug)]
pub struct ProfilePage {
    pub comments: Vec<CommentView>,
    pub posts: Vec<PostView>,
}

impl Clone for Comment {
    fn clone(&self) -> (r: Self)
        ensures
            r == *self,
    {
        Comment {
            id: self.id,
            content: self.content.clone(),
            removed: self.removed,
            deleted: self.deleted,
            published: self.published,
        }
    }
}

impl Clone for Post {
    fn clone(&self) -> (r: Self)
        ensures
            r == *self,
    {
        Post {
            id: self.id,
            name: self.name.clone(),
            removed: self.removed,
            deleted: self.deleted,
            published: self.published,
        }
    }
}

/// Number of bytes that a short view of a comment shows at most.
pub const SHORT_CONTENT_BYTES: usize = 100;

impl Comment {
    /// The identifier as decimal text, for messages.
    pub fn item_id(&self) -> (r: String)
        ensures
            r@ == signed_decimal(self.id as int),
    {
        i64_text(self.id)
    }

    /// The content cut at a hundred bytes: its longest prefix of at most a
    /// hundred bytes that ends on a character boundary (all of it when shorter).
    pub fn short_content(&self) -> (r: &str)
        ensures
            ({
                let bytes = encode_utf8(self.content@);
                let lim = if bytes.len() < SHORT_CONTENT_BYTES { bytes.len() as int } else { SHORT_CONTENT_BYTES as int };
                let k = r.spec_bytes().len() as int;
                &&& k <= lim
                &&& r.spec_bytes() == bytes.take(k)
                &&& is_char_boundary(bytes, k)
                &&& forall|j: int| k < j <= lim ==> !is_char_boundary(bytes, j)
            }),
    {
        let s = self.content.as_str();
        let ghost bytes = s.spec_bytes();
        proof {
            encode_utf8_valid_utf8(s@);
            is_char_boundary_start_end_of_seq(bytes);
        }
        let n = s.as_bytes().len();
        let lim = if n < SHORT_CONTENT_BYTES { n } else { SHORT_CONTENT_BYTES };
        let mut k = lim;
        while k > 0 && !s.is_char_boundary(k)
            invariant
                k <= lim,
                lim <= n,
                n == bytes.len(),
                valid_utf8(bytes),
                bytes == s.spec_bytes(),
                forall|j: int| k < j <= lim ==> !is_char_boundary(bytes, j),
            decreases k,
        {
            k = k - 1;
        }
        let (head, _rest) = s.split_at(k);
        proof {
            assert(head.spec_bytes() =~= bytes.take(k as int));
        }
        head
    }
}

impl Post {
    /// The identifier as decimal text, for messages.
    pub fn item_id(&self) -> (r: String)
        ensures
            r@ == signed_decimal(self.id as int),
    {
        i64_text(self.id)
    }
}

} // verus!
