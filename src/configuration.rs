use vstd::prelude::*;

verus! {

/// The settings of a run: the account, its token, and the retention policy.
#[derive(Debug)]
pub struct Configuration {
    /// The account identifier, `name@host`, optionally with a leading `@`.
    pub username: String,
    /// The API token of the account.
    pub lemmy_token: String,
    /// Items younger than this many days are kept.
    pub days_to_keep: u64,
    /// Keep items that the owner saved.
    pub keep_favourites: bool,
    /// Keep items that the owner upvoted.
    pub keep_upvotes: bool,
    /// Keep items that the owner downvoted.
    pub keep_downvotes: bool,
    /// Overwrite a comment's content with `edit_text` before deleting it.
    pub edit_then_delete: bool,
    /// The text that replaces a comment's content before deletion.
    pub edit_text: String,
    /// The pause between requests, in milliseconds.
    pub sleep_time: u64,
}

/// The account identifier without one leading `@`.
pub open spec fn canonical_name(username: Seq<char>) -> Seq<char> {
    if username.len() > 0 && username[0] == '@' {
        username.drop_first()
    } else {
        username
    }
}

impl Configuration {
    /// The account identifier without its leading `@`, if it has one.
    pub fn canonical_username(&self) -> (r: &str)
        ensures
            r@ == canonical_name(self.username@),
    {
        let s = self.username.as_str();
        let n = s.unicode_len();
        if n > 0 && s.get_char(0) == '@' {
            let r = s.substring_char(1, n);
            proof {
                assert(r@ =~= self.username@.drop_first());
            }
            r
        } else {
            s
        }
    }

    /// The text that replaces a comment's content before it is deleted.
    pub fn encoded_edit_text(&self) -> (r: &str)
        ensures
            r@ == self.edit_text@,
    {
        self.edit_text.as_str()
    }

    /// The token as an HTTP bearer authorization value.
    pub fn auth_header(&self) -> (r: String)
        ensures
            r@ == "Bearer "@ + self.lemmy_token@,
    {
        String::from_str("Bearer ").concat(self.lemmy_token.as_str())
    }
}

} // verus!
