use vstd::prelude::*;
use crate::api::{Api, profile_page_path, profile_path};
use crate::configuration::{Configuration, canonical_name};
use crate::item::{Comment, CommentView, DeletedState, Post, PostView, ProfilePage};
use crate::timestamp::{Timestamp, retained_by_age, within_days};

verus! {

/// The owner voted the item up.
pub open spec fn is_upvote(my_vote: Option<i64>) -> bool {
    my_vote matches Some(v) && v > 0
}

/// The owner voted the item down.
pub open spec fn is_downvote(my_vote: Option<i64>) -> bool {
    my_vote matches Some(v) && v < 0
}

/// The owner's own vote exempts the item under the policy.
pub open spec fn vote_exempt(config: &Configuration, my_vote: Option<i64>) -> bool {
    (config.keep_upvotes && is_upvote(my_vote)) || (config.keep_downvotes && is_downvote(my_vote))
}

/// A listed comment is kept (not put on the deletion list): it is already
/// deleted, a vote or saved exemption applies, or it is still too young.
pub open spec fn comment_retained(config: &Configuration, v: CommentView, now: Timestamp) -> bool {
    v.comment.deleted == DeletedState::Deleted
        || vote_exempt(config, v.my_vote)
        || (config.keep_favourites && v.saved)
        || retained_by_age(v.comment.published, config.days_to_keep, now)
}

/// A listed post is kept (not put on the deletion list): it is already
/// deleted, a vote or saved exemption applies, or it is still too young.
pub open spec fn post_retained(config: &Configuration, v: PostView, now: Timestamp) -> bool {
    v.deleted == Some(true) || v.post.deleted
        || vote_exempt(config, v.my_vote)
        || (config.keep_favourites && v.saved)
        || retained_by_age(v.post.published, config.days_to_keep, now)
}

/// The listed comments that are not kept, in feed order.
pub open spec fn comments_marked(config: &Configuration, views: Seq<CommentView>, now: Timestamp) -> Seq<CommentView>
    decreases views.len(),
{
    if views.len() == 0 {
        seq![]
    } else {
        let rest = comments_marked(config, views.drop_last(), now);
        if comment_retained(config, views.last(), now) {
            rest
        } else {
            rest.push(views.last())
        }
    }
}

/// The listed posts that are not kept, in feed order.
pub open spec fn posts_marked(config: &Configuration, views: Seq<PostView>, now: Timestamp) -> Seq<PostView>
    decreases views.len(),
{
    if views.len() == 0 {
        seq![]
    } else {
        let rest = posts_marked(config, views.drop_last(), now);
        if post_retained(config, views.last(), now) {
            rest
        } else {
            rest.push(views.last())
        }
    }
}

/// The comments of some listed entries.
pub open spec fn comments_of(views: Seq<CommentView>) -> Seq<Comment> {
    views.map_values(|v: CommentView| v.comment)
}

/// The posts of some listed entries.
pub open spec fn posts_of(views: Seq<PostView>) -> Seq<Post> {
    views.map_values(|v: PostView| v.post)
}

/// The vote is an upvote.
fn has_positive(vote: Option<i64>) -> (r: bool)
    ensures
        r == is_upvote(vote),
{
    match vote {
        Some(v) => v > 0,
        None => false,
    }
}

/// The vote is a downvote.
fn has_negative(vote: Option<i64>) -> (r: bool)
    ensures
        r == is_downvote(vote),
{
    match vote {
        Some(v) => v < 0,
        None => false,
    }
}

/// Whether a listed comment is kept rather than deleted.
pub fn keep_comment(config: &Configuration, view: &CommentView, now: Timestamp) -> (r: bool)
    ensures
        r == comment_retained(config, *view, now),
{
    if view.comment.deleted == DeletedState::Deleted {
        return true;
    }
    if config.keep_upvotes && has_positive(view.my_vote) {
        return true;
    }
    if config.keep_downvotes && has_negative(view.my_vote) {
        return true;
    }
    if config.keep_favourites && view.saved {
        return true;
    }
    within_days(view.comment.published, config.days_to_keep, now)
}

/// Whether a listed post is kept rather than deleted.
pub fn keep_post(config: &Configuration, view: &PostView, now: Timestamp) -> (r: bool)
    ensures
        r == post_retained(config, *view, now),
{
    if view.deleted == Some(true) || view.post.deleted {
        return true;
    }
    if config.keep_upvotes && has_positive(view.my_vote) {
        return true;
    }
    if config.keep_downvotes && has_negative(view.my_vote) {
        return true;
    }
    if config.keep_favourites && view.saved {
        return true;
    }
    within_days(view.post.published, config.days_to_keep, now)
}

/// Appends to `out`, in feed order, the listed comments that are not kept.
pub fn select_comments(config: &Configuration, views: &Vec<CommentView>, now: Timestamp, out: &mut Vec<Comment>)
    ensures
        final(out)@ == old(out)@ + comments_of(comments_marked(config, views@, now)),
{
    let ghost start = out@;
    let mut i: usize = 0;
    proof {
        assert(views@.take(0) =~= Seq::<CommentView>::empty());
        assert(start + comments_of(Seq::<CommentView>::empty()) =~= start);
    }
    while i < views.len()
        invariant
            i <= views@.len(),
            out@ == start + comments_of(comments_marked(config, views@.take(i as int), now)),
        decreases views@.len() - i,
    {
        let view = &views[i];
        let keep = keep_comment(config, view, now);
        proof {
            let next = views@.take(i as int + 1);
            assert(next.drop_last() =~= views@.take(i as int));
            assert(next.last() == views@[i as int]);
        }
        if !keep {
            let ghost before = comments_marked(config, views@.take(i as int), now);
            out.push(view.comment.clone());
            proof {
                assert(comments_of(before.push(*view)) =~= comments_of(before).push(view.comment));
            }
        }
        i = i + 1;
    }
    proof {
        assert(views@.take(views@.len() as int) =~= views@);
    }
}

/// Appends to `out`, in feed order, the listed posts that are not kept.
pub fn select_posts(config: &Configuration, views: &Vec<PostView>, now: Timestamp, out: &mut Vec<Post>)
    ensures
        final(out)@ == old(out)@ + posts_of(posts_marked(config, views@, now)),
{
    let ghost start = out@;
    let mut i: usize = 0;
    proof {
        assert(views@.take(0) =~= Seq::<PostView>::empty());
        assert(start + posts_of(Seq::<PostView>::empty()) =~= start);
    }
    while i < views.len()
        invariant
            i <= views@.len(),
            out@ == start + posts_of(posts_marked(config, views@.take(i as int), now)),
        decreases views@.len() - i,
    {
        let view = &views[i];
        let keep = keep_post(config, view, now);
        proof {
            let next = views@.take(i as int + 1);
            assert(next.drop_last() =~= views@.take(i as int));
            assert(next.last() == views@[i as int]);
        }
        if !keep {
            let ghost before = posts_marked(config, views@.take(i as int), now);
            out.push(view.post.clone());
            proof {
                assert(posts_of(before.push(*view)) =~= posts_of(before).push(view.post));
            }
        }
        i = i + 1;
    }
    proof {
        assert(views@.take(views@.len() as int) =~= views@);
    }
}

/// What the feed request for one page brought.
#[derive(Debug)]
pub enum PageReply {
    /// The request could not be sent.
    Unsent,
    /// The answer did not have the shape of a feed page.
    Unparsable,
    /// The page as listed.
    Page(ProfilePage),
}

/// What collection does next.
#[derive(Debug, PartialEq, Eq)]
pub enum CollectStep {
    /// Request the feed page at `url`, after one configured pause where `pause` holds.
    Fetch { pause: bool, url: String },
    /// Collection is complete.
    Done,
    /// A feed request could not be sent: there is nothing to act on.
    Failed,
}

/// The step requests the page at `url`, after a pause exactly where `pause` holds.
pub open spec fn fetches(step: CollectStep, pause: bool, url: Seq<char>) -> bool {
    step matches CollectStep::Fetch { pause: p, url: u } && p == pause && u@ == url
}

/// The address of one page of the account's activity feed.
pub open spec fn page_url(api: &Api, config: &Configuration, page: u64) -> Seq<char> {
    api.base() + "/api/v3/"@ + profile_path(canonical_name(config.username@), page, config.lemmy_token@)
}

/// Pagination through the activity feed, oldest first, with the items
/// selected for deletion so far.
#[derive(Debug)]
pub struct Collector {
    /// The page that was requested last.
    pub page: u64,
    /// Comments to delete, in feed order.
    pub comments: Vec<Comment>,
    /// Posts to delete, in feed order.
    pub posts: Vec<Post>,
}

/// The address of one feed page.
fn page_request(api: &Api, config: &Configuration, page: u64) -> (r: String)
    ensures
        r@ == page_url(api, config, page),
{
    let path = profile_page_path(config, page);
    api.format_api_call(path.as_str())
}

impl Collector {
    /// Collection before any page: nothing selected, the first page to fetch at once.
    pub fn start(api: &Api, config: &Configuration) -> (r: (Collector, CollectStep))
        ensures
            r.0.page == 1,
            r.0.comments@.len() == 0,
            r.0.posts@.len() == 0,
            fetches(r.1, false, page_url(api, config, 1)),
    {
        let url = page_request(api, config, 1);
        (Collector { page: 1, comments: Vec::new(), posts: Vec::new() }, CollectStep::Fetch { pause: false, url })
    }

    /// Takes in what the request for the current page brought: an unsent
    /// request fails collection, an unreadable or empty page ends it, and a
    /// page with entries adds its items that are not kept and asks for the
    /// next page after a pause.
    pub fn on_reply(&mut self, api: &Api, config: &Configuration, reply: PageReply, now: Timestamp) -> (r: CollectStep)
        ensures
            reply is Unsent ==> r is Failed && *final(self) == *old(self),
            reply is Unparsable ==> r is Done && *final(self) == *old(self),
            reply matches PageReply::Page(p) ==> {
                if p.comments@.len() == 0 && p.posts@.len() == 0 {
                    r is Done && *final(self) == *old(self)
                } else {
                    &&& final(self).comments@ == old(self).comments@ + comments_of(comments_marked(config, p.comments@, now))
                    &&& final(self).posts@ == old(self).posts@ + posts_of(posts_marked(config, p.posts@, now))
                    &&& old(self).page == u64::MAX ==> r is Done && final(self).page == old(self).page
                    &&& old(self).page < u64::MAX ==> final(self).page == old(self).page + 1
                        && fetches(r, true, page_url(api, config, final(self).page))
                }
            },
    {
        match reply {
            PageReply::Unsent => CollectStep::Failed,
            PageReply::Unparsable => CollectStep::Done,
            PageReply::Page(p) => {
                if p.comments.len() == 0 && p.posts.len() == 0 {
                    return CollectStep::Done;
                }
                select_comments(config, &p.comments, now, &mut self.comments);
                select_posts(config, &p.posts, now, &mut self.posts);
                if self.page == u64::MAX {
                    return CollectStep::Done;
                }
                self.page = self.page + 1;
                let url = page_request(api, config, self.page);
                CollectStep::Fetch { pause: true, url }
            },
        }
    }
}

/// A vote exemption or a saved exemption that applies keeps a comment,
/// whatever its age and whichever of the others apply.
pub proof fn lemma_comment_exemptions(config: &Configuration, v: CommentView, now: Timestamp)
    requires
        (config.keep_upvotes && is_upvote(v.my_vote))
            || (config.keep_downvotes && is_downvote(v.my_vote))
            || (config.keep_favourites && v.saved),
    ensures
        comment_retained(config, v, now),
{
}

/// A vote exemption or a saved exemption that applies keeps a post,
/// whatever its age and whichever of the others apply.
pub proof fn lemma_post_exemptions(config: &Configuration, v: PostView, now: Timestamp)
    requires
        (config.keep_upvotes && is_upvote(v.my_vote))
            || (config.keep_downvotes && is_downvote(v.my_vote))
            || (config.keep_favourites && v.saved),
    ensures
        post_retained(config, v, now),
{
}

/// Selecting comments is idempotent: selecting again among the selected ones
/// keeps all of them, so two runs over the same entries give one partition.
pub proof fn lemma_comment_selection_idempotent(config: &Configuration, views: Seq<CommentView>, now: Timestamp)
    ensures
        comments_marked(config, comments_marked(config, views, now), now) == comments_marked(config, views, now),
    decreases views.len(),
{
    if views.len() > 0 {
        let rest = comments_marked(config, views.drop_last(), now);
        lemma_comment_selection_idempotent(config, views.drop_last(), now);
        if !comment_retained(config, views.last(), now) {
            assert(rest.push(views.last()).drop_last() =~= rest);
        }
    }
}

/// Selecting posts is idempotent: selecting again among the selected ones
/// keeps all of them, so two runs over the same entries give one partition.
pub proof fn lemma_post_selection_idempotent(config: &Configuration, views: Seq<PostView>, now: Timestamp)
    ensures
        posts_marked(config, posts_marked(config, views, now), now) == posts_marked(config, views, now),
    decreases views.len(),
{
    if views.len() > 0 {
        let rest = posts_marked(config, views.drop_last(), now);
        lemma_post_selection_idempotent(config, views.drop_last(), now);
        if !post_retained(config, views.last(), now) {
            assert(rest.push(views.last()).drop_last() =~= rest);
        }
    }
}

/// No comment that is kept lands on a deletion list, and every entry on it
/// comes from the listed ones.
pub proof fn lemma_selected_not_retained(config: &Configuration, views: Seq<CommentView>, now: Timestamp)
    ensures
        forall|i: int| 0 <= i < comments_marked(config, views, now).len() ==>
            !comment_retained(config, #[trigger] comments_marked(config, views, now)[i], now)
            && views.contains(comments_marked(config, views, now)[i]),
    decreases views.len(),
{
    if views.len() > 0 {
        lemma_selected_not_retained(config, views.drop_last(), now);
        let rest = comments_marked(config, views.drop_last(), now);
        assert forall|i: int| 0 <= i < rest.len() implies views.contains(#[trigger] rest[i]) by {
            let j = choose|j: int| 0 <= j < views.drop_last().len() && views.drop_last()[j] == rest[i];
            assert(views[j] == rest[i]);
        }
        assert(views[views.len() - 1] == views.last());
    }
}

/// No post that is kept lands on a deletion list, and every entry on it
/// comes from the listed ones.
pub proof fn lemma_selected_posts_not_retained(config: &Configuration, views: Seq<PostView>, now: Timestamp)
    ensures
        forall|i: int| 0 <= i < posts_marked(config, views, now).len() ==>
            !post_retained(config, #[trigger] posts_marked(config, views, now)[i], now)
            && views.contains(posts_marked(config, views, now)[i]),
    decreases views.len(),
{
    if views.len() > 0 {
        lemma_selected_posts_not_retained(config, views.drop_last(), now);
        let rest = posts_marked(config, views.drop_last(), now);
        assert forall|i: int| 0 <= i < rest.len() implies views.contains(#[trigger] rest[i]) by {
            let j = choose|j: int| 0 <= j < views.drop_last().len() && views.drop_last()[j] == rest[i];
            assert(views[j] == rest[i]);
        }
        assert(views[views.len() - 1] == views.last());
    }
}

} // verus!
