//! The views that the read endpoints assemble from database rows.

use vstd::prelude::*;
use crate::db::models::{
    ActorRow, GeneratorRow, LikeWithActorRow, ListItemRow, ListRow, NotificationRow, PostRow,
    PostWithAuthorRow,
};
use crate::text::{opt_view, or_else};
use crate::json::JsonValue;
use crate::lexicon::bsky::{
    FeedViewPost, GeneratorView, LikeView, ListItemView, ListView, Notification, PostView,
    ProfileView, ProfileViewBasic, ProfileViewDetailed,
};
use crate::text::to_string;

verus! {

broadcast use vstd::string::group_string_axioms;

/// The handle shown for an actor: its handle, or its DID when it has none.
pub fn handle_or_did(handle: Option<String>, did: &str) -> (r: String)
    ensures
        r@ == or_else(opt_view(handle), did@),
{
    match handle {
        Some(h) => h,
        None => to_string(did),
    }
}

/// The `$type` of a notification with reason `reason`:
/// `app.bsky.notification.<reason>#<reason>`.
pub fn notification_type(reason: &str) -> (r: String)
    ensures
        r@ == "app.bsky.notification."@ + reason@ + "#"@ + reason@,
{
    let mut t = to_string("app.bsky.notification.");
    t.append(reason);
    t.append("#");
    t.append(reason);
    t
}

fn copy_opt(o: &Option<String>) -> (r: Option<String>)
    ensures
        opt_view(r) == opt_view(*o),
{
    match o {
        Some(s) => Some(s.clone()),
        None => None,
    }
}

/// `p` is the basic profile of `did` with that handle, display name and
/// avatar: the handle falls back to the DID, and nothing else is set.
pub open spec fn is_basic_profile(
    p: ProfileViewBasic,
    did: Seq<char>,
    handle: Option<Seq<char>>,
    display_name: Option<Seq<char>>,
    avatar: Option<Seq<char>>,
) -> bool {
    &&& opt_view(p.type_) == Some("app.bsky.actor.defs#profileViewBasic"@)
    &&& p.did@ == did
    &&& p.handle@ == or_else(handle, did)
    &&& opt_view(p.display_name) == display_name
    &&& opt_view(p.avatar) == avatar
    &&& p.associated is None
    &&& p.viewer is None
    &&& p.labels is None
    &&& p.created_at is None
}

/// The basic profile of an actor row.
pub open spec fn is_row_basic_profile(p: ProfileViewBasic, row: ActorRow) -> bool {
    is_basic_profile(
        p,
        row.did@,
        opt_view(row.handle),
        opt_view(row.display_name),
        opt_view(row.avatar_cid),
    )
}

/// A basic profile; the handle falls back to the DID.
pub fn build_profile_basic(
    did: String,
    handle: Option<String>,
    display_name: Option<String>,
    avatar_cid: Option<String>,
) -> (r: ProfileViewBasic)
    ensures
        is_basic_profile(r, did@, opt_view(handle), opt_view(display_name), opt_view(avatar_cid)),
{
    let shown = handle_or_did(handle, did.as_str());
    ProfileViewBasic {
        type_: Some(to_string("app.bsky.actor.defs#profileViewBasic")),
        did,
        handle: shown,
        display_name,
        avatar: avatar_cid,
        associated: None,
        viewer: None,
        labels: None,
        created_at: None,
    }
}

/// The basic profile of an actor.
pub fn actor_to_profile_basic(row: &ActorRow) -> (r: ProfileViewBasic)
    ensures
        is_row_basic_profile(r, *row),
{
    build_profile_basic(
        row.did.clone(),
        copy_opt(&row.handle),
        copy_opt(&row.display_name),
        copy_opt(&row.avatar_cid),
    )
}

/// The profile of an actor: its handle (or DID), display name, description,
/// avatar and indexing time.
pub fn actor_to_profile_view(row: &ActorRow) -> (r: ProfileView)
    ensures
        opt_view(r.type_) == Some("app.bsky.actor.defs#profileView"@),
        r.did@ == row.did@,
        r.handle@ == or_else(opt_view(row.handle), row.did@),
        opt_view(r.display_name) == opt_view(row.display_name),
        opt_view(r.description) == opt_view(row.description),
        opt_view(r.avatar) == opt_view(row.avatar_cid),
        opt_view(r.indexed_at) == opt_view(row.indexed_at),
        r.associated is None,
        r.created_at is None,
        r.viewer is None,
        r.labels is None,
{
    ProfileView {
        type_: Some(to_string("app.bsky.actor.defs#profileView")),
        did: row.did.clone(),
        handle: handle_or_did(copy_opt(&row.handle), row.did.as_str()),
        display_name: copy_opt(&row.display_name),
        description: copy_opt(&row.description),
        avatar: copy_opt(&row.avatar_cid),
        associated: None,
        indexed_at: copy_opt(&row.indexed_at),
        created_at: None,
        viewer: None,
        labels: None,
    }
}

/// The detailed profile of an actor: the profile, banner and counts.
pub fn actor_to_profile_detailed(row: &ActorRow) -> (r: ProfileViewDetailed)
    ensures
        opt_view(r.type_) == Some("app.bsky.actor.defs#profileViewDetailed"@),
        r.did@ == row.did@,
        r.handle@ == or_else(opt_view(row.handle), row.did@),
        opt_view(r.display_name) == opt_view(row.display_name),
        opt_view(r.description) == opt_view(row.description),
        opt_view(r.avatar) == opt_view(row.avatar_cid),
        opt_view(r.banner) == opt_view(row.banner_cid),
        r.followers_count == row.followers_count,
        r.follows_count == row.follows_count,
        r.posts_count == row.posts_count,
        opt_view(r.indexed_at) == opt_view(row.indexed_at),
        r.associated is None,
        r.joined_via_starter_pack is None,
        r.created_at is None,
        r.viewer is None,
        r.labels is None,
{
    ProfileViewDetailed {
        type_: Some(to_string("app.bsky.actor.defs#profileViewDetailed")),
        did: row.did.clone(),
        handle: handle_or_did(copy_opt(&row.handle), row.did.as_str()),
        display_name: copy_opt(&row.display_name),
        description: copy_opt(&row.description),
        avatar: copy_opt(&row.avatar_cid),
        banner: copy_opt(&row.banner_cid),
        followers_count: row.followers_count,
        follows_count: row.follows_count,
        posts_count: row.posts_count,
        associated: None,
        joined_via_starter_pack: None,
        indexed_at: copy_opt(&row.indexed_at),
        created_at: None,
        viewer: None,
        labels: None,
    }
}

/// `v` is the string `s`.
pub open spec fn is_json_str(v: JsonValue, s: Seq<char>) -> bool {
    v matches JsonValue::Str(t) && t@ == s
}

/// `v` is the record of a post: `{"$type": "app.bsky.feed.post", "text":
/// text, "createdAt": created_at}`.
pub open spec fn is_post_record(v: JsonValue, text: Seq<char>, created_at: Seq<char>) -> bool {
    match v {
        JsonValue::Object(m) => {
            &&& m@.len() == 3
            &&& m@[0].0@ == "$type"@ && is_json_str(m@[0].1, "app.bsky.feed.post"@)
            &&& m@[1].0@ == "text"@ && is_json_str(m@[1].1, text)
            &&& m@[2].0@ == "createdAt"@ && is_json_str(m@[2].1, created_at)
        },
        _ => false,
    }
}

/// The record a post view shows: its type, text and creation time.
pub fn post_record(text: &str, created_at: &str) -> (r: JsonValue)
    ensures
        is_post_record(r, text@, created_at@),
{
    let mut m: Vec<(String, JsonValue)> = Vec::new();
    m.push((to_string("$type"), JsonValue::Str(to_string("app.bsky.feed.post"))));
    m.push((to_string("text"), JsonValue::Str(to_string(text))));
    m.push((to_string("createdAt"), JsonValue::Str(to_string(created_at))));
    JsonValue::Object(m)
}

/// `p` is the view of the post `uri`/`cid` with that record, counts and
/// indexing time, and nothing else set.
pub open spec fn is_post_view(
    p: PostView,
    uri: Seq<char>,
    cid: Seq<char>,
    text: Seq<char>,
    created_at: Seq<char>,
    counts: (Option<i64>, Option<i64>, Option<i64>, Option<i64>),
    indexed_at: Seq<char>,
) -> bool {
    &&& opt_view(p.type_) == Some("app.bsky.feed.defs#postView"@)
    &&& p.uri@ == uri
    &&& p.cid@ == cid
    &&& is_post_record(p.record, text, created_at)
    &&& p.embed is None
    &&& p.reply_count == counts.0
    &&& p.repost_count == counts.1
    &&& p.like_count == counts.2
    &&& p.quote_count == counts.3
    &&& p.indexed_at@ == indexed_at
    &&& p.viewer is None
    &&& p.labels is None
    &&& p.threadgate is None
}

/// The view of a post joined with its author.
pub fn post_view_with_author(row: &PostWithAuthorRow) -> (r: PostView)
    ensures
        is_post_view(
            r,
            row.uri@,
            row.cid@,
            row.text@,
            row.created_at@,
            (row.reply_count, row.repost_count, row.like_count, row.quote_count),
            row.indexed_at@,
        ),
        is_basic_profile(
            r.author,
            row.author_did@,
            opt_view(row.author_handle),
            opt_view(row.author_display_name),
            opt_view(row.author_avatar_cid),
        ),
{
    PostView {
        type_: Some(to_string("app.bsky.feed.defs#postView")),
        uri: row.uri.clone(),
        cid: row.cid.clone(),
        author: build_profile_basic(
            row.author_did.clone(),
            copy_opt(&row.author_handle),
            copy_opt(&row.author_display_name),
            copy_opt(&row.author_avatar_cid),
        ),
        record: post_record(row.text.as_str(), row.created_at.as_str()),
        embed: None,
        reply_count: row.reply_count,
        repost_count: row.repost_count,
        like_count: row.like_count,
        quote_count: row.quote_count,
        indexed_at: row.indexed_at.clone(),
        viewer: None,
        labels: None,
        threadgate: None,
    }
}

/// The view of a post without its author's profile: the author is shown
/// by DID alone.
pub fn post_view_plain(row: &PostRow) -> (r: PostView)
    ensures
        is_post_view(
            r,
            row.uri@,
            row.cid@,
            row.text@,
            row.created_at@,
            (row.reply_count, row.repost_count, row.like_count, row.quote_count),
            row.indexed_at@,
        ),
        is_basic_profile(r.author, row.creator@, None, None, None),
{
    PostView {
        type_: Some(to_string("app.bsky.feed.defs#postView")),
        uri: row.uri.clone(),
        cid: row.cid.clone(),
        author: build_profile_basic(row.creator.clone(), None, None, None),
        record: post_record(row.text.as_str(), row.created_at.as_str()),
        embed: None,
        reply_count: row.reply_count,
        repost_count: row.repost_count,
        like_count: row.like_count,
        quote_count: row.quote_count,
        indexed_at: row.indexed_at.clone(),
        viewer: None,
        labels: None,
        threadgate: None,
    }
}

/// A post joined with its author, as a feed item with no reason or reply.
pub fn feed_item_with_author(row: &PostWithAuthorRow) -> (r: FeedViewPost)
    ensures
        is_post_view(
            r.post,
            row.uri@,
            row.cid@,
            row.text@,
            row.created_at@,
            (row.reply_count, row.repost_count, row.like_count, row.quote_count),
            row.indexed_at@,
        ),
        is_basic_profile(
            r.post.author,
            row.author_did@,
            opt_view(row.author_handle),
            opt_view(row.author_display_name),
            opt_view(row.author_avatar_cid),
        ),
        r.reason is None,
        r.reply is None,
        r.feed_context is None,
{
    FeedViewPost { post: post_view_with_author(row), reason: None, reply: None, feed_context: None }
}

/// A post, as a feed item with no reason or reply.
pub fn feed_item_plain(row: &PostRow) -> (r: FeedViewPost)
    ensures
        is_post_view(
            r.post,
            row.uri@,
            row.cid@,
            row.text@,
            row.created_at@,
            (row.reply_count, row.repost_count, row.like_count, row.quote_count),
            row.indexed_at@,
        ),
        is_basic_profile(r.post.author, row.creator@, None, None, None),
        r.reason is None,
        r.reply is None,
        r.feed_context is None,
{
    FeedViewPost { post: post_view_plain(row), reason: None, reply: None, feed_context: None }
}

/// A like: the liking actor, and its indexing time (empty when unknown).
pub fn like_view(row: LikeWithActorRow) -> (r: LikeView)
    ensures
        r.indexed_at@ == or_else(opt_view(row.actor_indexed_at), Seq::<char>::empty()),
        is_basic_profile(
            r.actor,
            row.actor_did@,
            opt_view(row.actor_handle),
            opt_view(row.actor_display_name),
            opt_view(row.actor_avatar_cid),
        ),
{
    let indexed_at = match row.actor_indexed_at {
        Some(t) => t,
        None => String::new(),
    };
    LikeView {
        indexed_at,
        actor: build_profile_basic(
            row.actor_did,
            row.actor_handle,
            row.actor_display_name,
            row.actor_avatar_cid,
        ),
    }
}

/// The basic profile of an actor when there is a row for it; otherwise the
/// bare profile of `did`, whose handle is the DID.
pub fn profile_or_bare(profile: Option<ActorRow>, did: &str) -> (r: ProfileViewBasic)
    ensures
        match profile {
            Some(a) => is_row_basic_profile(r, a),
            None => is_basic_profile(r, did@, None, None, None),
        },
{
    match profile {
        Some(a) => actor_to_profile_basic(&a),
        None => build_profile_basic(to_string(did), None, None, None),
    }
}

/// A list: its creator is shown by DID alone.
pub fn list_view_from_row(row: ListRow) -> (r: ListView)
    ensures
        opt_view(r.type_) == Some("app.bsky.graph.defs#listView"@),
        r.uri@ == row.uri@,
        r.cid@ == row.cid@,
        r.name@ == row.name@,
        opt_view(r.purpose) == Some(row.purpose@),
        opt_view(r.avatar) == opt_view(row.avatar_cid),
        opt_view(r.description) == opt_view(row.description),
        r.description_facets is None,
        r.list_item_count is None,
        is_basic_profile(r.creator, row.creator_did@, None, None, None),
        r.indexed_at@ == row.indexed_at@,
        r.viewer is None,
        r.labels is None,
{
    let creator = build_profile_basic(row.creator_did, None, None, None);
    ListView {
        type_: Some(to_string("app.bsky.graph.defs#listView")),
        uri: row.uri,
        cid: row.cid,
        name: row.name,
        purpose: Some(row.purpose),
        avatar: row.avatar_cid,
        description: row.description,
        description_facets: None,
        list_item_count: None,
        creator,
        indexed_at: row.indexed_at,
        viewer: None,
        labels: None,
    }
}

/// A member of a list, with the member's basic profile.
pub fn list_item_view(row: &ListItemRow) -> (r: ListItemView)
    ensures
        r.uri@ == row.uri@,
        is_basic_profile(
            r.subject,
            row.subject_did@,
            opt_view(row.subject_handle),
            opt_view(row.subject_display_name),
            opt_view(row.subject_avatar_cid),
        ),
{
    ListItemView {
        uri: row.uri.clone(),
        subject: build_profile_basic(
            row.subject_did.clone(),
            copy_opt(&row.subject_handle),
            copy_opt(&row.subject_display_name),
            copy_opt(&row.subject_avatar_cid),
        ),
    }
}

/// A notification by `author`: typed after its reason, with an empty
/// record, unread unless marked read, and indexed at its sort time.
pub fn notification_view(row: NotificationRow, author: ProfileViewBasic) -> (r: Notification)
    ensures
        opt_view(r.type_) == Some(
            "app.bsky.notification."@ + row.reason@ + "#"@ + row.reason@,
        ),
        r.uri@ == row.record_uri@,
        r.cid@ == row.record_cid@,
        r.author == author,
        r.reason@ == row.reason@,
        opt_view(r.reason_subject) == opt_view(row.reason_subject),
        r.record matches JsonValue::Object(m) && m@.len() == 0,
        r.is_read == (row.is_read == Some(true)),
        r.indexed_at@ == row.sort_at@,
        r.labels is None,
{
    let type_ = notification_type(row.reason.as_str());
    let is_read = match row.is_read {
        Some(b) => b,
        None => false,
    };
    Notification {
        type_: Some(type_),
        uri: row.record_uri,
        cid: row.record_cid,
        author,
        reason: row.reason,
        reason_subject: row.reason_subject,
        record: JsonValue::Object(Vec::new()),
        is_read,
        indexed_at: row.sort_at,
        labels: None,
    }
}

/// A feed generator by `creator`; its like count is 0 when unknown.
pub fn generator_view(row: GeneratorRow, creator: ProfileViewBasic) -> (r: GeneratorView)
    ensures
        opt_view(r.type_) == Some("app.bsky.feed.defs#generatorView"@),
        r.uri@ == row.uri@,
        r.cid@ == row.cid@,
        r.did@ == row.feed_did@,
        r.creator == creator,
        r.display_name@ == row.display_name@,
        opt_view(r.description) == opt_view(row.description),
        r.description_facets is None,
        opt_view(r.avatar) == opt_view(row.avatar_cid),
        r.like_count == Some(
            match row.like_count {
                Some(n) => n,
                None => 0i64,
            },
        ),
        r.accepts_interactions is None,
        r.labels is None,
        r.viewer is None,
        r.indexed_at@ == row.indexed_at@,
{
    let like_count = match row.like_count {
        Some(n) => n,
        None => 0,
    };
    GeneratorView {
        type_: Some(to_string("app.bsky.feed.defs#generatorView")),
        uri: row.uri,
        cid: row.cid,
        did: row.feed_did,
        creator,
        display_name: row.display_name,
        description: row.description,
        description_facets: None,
        avatar: row.avatar_cid,
        like_count: Some(like_count),
        accepts_interactions: None,
        labels: None,
        viewer: None,
        indexed_at: row.indexed_at,
    }
}

/// The generator view answered for a feed that is not looked up: every
/// text empty and every optional member absent.
pub fn unresolved_generator_view() -> (r: GeneratorView)
    ensures
        opt_view(r.type_) == Some("app.bsky.feed.defs#generatorView"@),
        r.uri@.len() == 0 && r.cid@.len() == 0 && r.did@.len() == 0,
        r.display_name@.len() == 0 && r.indexed_at@.len() == 0,
        is_basic_profile(r.creator, Seq::<char>::empty(), Some(Seq::<char>::empty()), None, None),
        r.description is None && r.description_facets is None && r.avatar is None,
        r.like_count is None && r.accepts_interactions is None,
        r.labels is None && r.viewer is None,
{
    GeneratorView {
        type_: Some(to_string("app.bsky.feed.defs#generatorView")),
        uri: String::new(),
        cid: String::new(),
        did: String::new(),
        creator: build_profile_basic(String::new(), Some(String::new()), None, None),
        display_name: String::new(),
        description: None,
        description_facets: None,
        avatar: None,
        like_count: None,
        accepts_interactions: None,
        labels: None,
        viewer: None,
        indexed_at: String::new(),
    }
}

/// The cursor of a page of notifications: the indexing time of its last
/// one; none for an empty page.
pub fn notifications_cursor(page: &[Notification]) -> (r: Option<String>)
    ensures
        page@.len() == 0 ==> r is None,
        page@.len() > 0 ==> r is Some && r->0@ == page@.last().indexed_at@,
{
    let n = page.len();
    if n == 0 {
        None
    } else {
        Some(to_string(page[n - 1].indexed_at.as_str()))
    }
}

/// The cursor of a page of feed generators: the URI of its last one; none
/// for an empty page.
pub fn generators_cursor(page: &[GeneratorView]) -> (r: Option<String>)
    ensures
        page@.len() == 0 ==> r is None,
        page@.len() > 0 ==> r is Some && r->0@ == page@.last().uri@,
{
    let n = page.len();
    if n == 0 {
        None
    } else {
        Some(to_string(page[n - 1].uri.as_str()))
    }
}

} // verus!
