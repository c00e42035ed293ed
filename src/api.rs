use vstd::prelude::*;
use crate::configuration::{Configuration, canonical_name};
use crate::decimal::{u64_text, decimal_digits};
use crate::item::Comment;

verus! {

/// The account identifier could not be turned into a server address.
#[derive(Clone, Copy, Debug, PartialEq, Eq, Structural)]
pub enum ConfigError {
    /// The identifier has no `@host` part.
    InvalidUsername,
}

/// The part after the first `@`, or `None` where there is no `@`.
pub open spec fn host_part(name: Seq<char>) -> Option<Seq<char>>
    decreases name.len(),
{
    if name.len() == 0 {
        None
    } else if name[0] == '@' {
        Some(name.drop_first())
    } else {
        host_part(name.drop_first())
    }
}

/// The server address for an account identifier.
pub open spec fn base_url_of(username: Seq<char>) -> Option<Seq<char>> {
    match host_part(canonical_name(username)) {
        Some(host) => Some("https://"@ + host),
        None => None,
    }
}

/// Builds addresses of the versioned REST endpoints of one server.
#[derive(Debug)]
pub struct Api {
    base_url: String,
}

/// The host part of a suffix, by its first character.
proof fn lemma_host_part_suffix(s: Seq<char>, i: int)
    requires
        0 <= i < s.len(),
    ensures
        host_part(s.subrange(i, s.len() as int)) == (if s[i] == '@' {
            Some(s.subrange(i + 1, s.len() as int))
        } else {
            host_part(s.subrange(i + 1, s.len() as int))
        }),
{
    let t = s.subrange(i, s.len() as int);
    assert(t.drop_first() =~= s.subrange(i + 1, s.len() as int));
}

/// Position of the first `@` in `s`, if any.
fn find_at_sign(s: &str) -> (r: Option<usize>)
    ensures
        match r {
            Some(i) => i < s@.len() && host_part(s@) == Some(s@.subrange(i + 1, s@.len() as int)),
            None => host_part(s@).is_none(),
        },
{
    let n = s.unicode_len();
    let mut i: usize = 0;
    proof {
        assert(s@.subrange(0, s@.len() as int) =~= s@);
    }
    while i < n
        invariant
            n == s@.len(),
            i <= n,
            host_part(s@) == host_part(s@.subrange(i as int, n as int)),
        decreases n - i,
    {
        proof {
            lemma_host_part_suffix(s@, i as int);
        }
        if s.get_char(i) == '@' {
            return Some(i);
        }
        i = i + 1;
    }
    proof {
        assert(s@.subrange(n as int, n as int).len() == 0);
    }
    None
}

impl Api {
    /// The server address that endpoint paths are appended to.
    pub closed spec fn base(&self) -> Seq<char> {
        self.base_url@
    }

    /// The address of an endpoint below the API's version prefix.
    pub fn format_api_call(&self, path: &str) -> (r: String)
        ensures
            r@ == self.base() + "/api/v3/"@ + path@,
    {
        self.base_url.clone().concat("/api/v3/").concat(path)
    }

    /// The API of the server named by the account identifier: `https://` and
    /// the part after its first `@`.
    pub fn try_from(value: &Configuration) -> (r: Result<Api, ConfigError>)
        ensures
            match base_url_of(value.username@) {
                Some(b) => r matches Ok(api) && api.base() == b,
                None => r == Err::<Api, ConfigError>(ConfigError::InvalidUsername),
            },
    {
        let name = value.canonical_username();
        let n = name.unicode_len();
        match find_at_sign(name) {
            Some(i) => {
                let host = name.substring_char(i + 1, n);
                Ok(Api { base_url: String::from_str("https://").concat(host) })
            },
            None => Err(ConfigError::InvalidUsername),
        }
    }
}

/// Entries per page of the activity feed.
pub const PAGE_LIMIT: u64 = 50;

/// The feed path of one page of the account's activity, oldest first.
pub open spec fn profile_path(username: Seq<char>, page: u64, auth: Seq<char>) -> Seq<char> {
    "user?username="@ + username + "&sort=Old&page="@ + decimal_digits(page as nat)
        + "&limit=50&auth="@ + auth
}

/// The feed path of one page of the account's activity, oldest first.
pub fn profile_page_path(config: &Configuration, page: u64) -> (r: String)
    ensures
        r@ == profile_path(canonical_name(config.username@), page, config.lemmy_token@),
{
    let page_text = u64_text(page);
    String::from_str("user?username=")
        .concat(config.canonical_username())
        .concat("&sort=Old&page=")
        .concat(page_text.as_str())
        .concat("&limit=50&auth=")
        .concat(config.lemmy_token.as_str())
}

/// Body of a post deletion request.
#[derive(Debug, PartialEq, Eq)]
pub struct PostIdBody {
    pub auth: String,
    pub post_id: i64,
    pub deleted: bool,
}

/// Body of a comment deletion request.
#[derive(Debug, PartialEq, Eq)]
pub struct DeleteCommentBody {
    pub auth: String,
    pub comment_id: i64,
    pub deleted: bool,
}

/// Body of a comment edit request.
#[derive(Debug, PartialEq, Eq)]
pub struct EditCommentBody {
    pub auth: String,
    pub comment_id: i64,
    pub content: String,
}

impl PostIdBody {
    /// A request to delete post `post_id`.
    pub fn new(post_id: i64, auth: String) -> (r: Self)
        ensures
            r == (PostIdBody { auth, post_id, deleted: true }),
    {
        Self { post_id, deleted: true, auth }
    }
}

impl DeleteCommentBody {
    /// A request to delete `source`, authenticated with the configured token.
    pub fn new(source: &Comment, configuration: &Configuration) -> (r: Self)
        ensures
            r == (DeleteCommentBody {
                auth: configuration.lemmy_token,
                comment_id: source.id,
                deleted: true,
            }),
    {
        Self { auth: configuration.lemmy_token.clone(), comment_id: source.id, deleted: true }
    }
}

impl EditCommentBody {
    /// A request to replace the content of `source` with the configured text.
    pub fn new(source: &Comment, config: &Configuration) -> (r: Self)
        ensures
            r == (EditCommentBody {
                auth: config.lemmy_token,
                comment_id: source.id,
                content: config.edit_text,
            }),
    {
        Self {
            auth: config.lemmy_token.clone(),
            comment_id: source.id,
            content: config.edit_text.clone(),
        }
    }
}

} // verus!
