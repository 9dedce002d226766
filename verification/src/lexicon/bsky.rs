//! `app.bsky.*` pieces: actor, post, feed, list and notification views,
//! viewer state, unread counts and feed gates. Free-form JSON members are
//! `JsonValue`s; `type_` is the `$type` member.

use vstd::prelude::*;
use crate::json::JsonValue;

verus! {

/// The viewer's relationship to a post.
#[derive(Debug)]
pub struct PostViewerState {
    pub like: Option<String>,
    pub repost: Option<String>,
    pub reply_disabled: Option<bool>,
    pub thread_muted: Option<bool>,
    pub embedding_disabled: Option<bool>,
}

/// `app.bsky.notification.getUnreadCount` output.
#[derive(Debug)]
pub struct GetUnreadCountOutput {
    pub count: i64,
}

/// A postgate embedding rule.
#[derive(Debug)]
pub enum EmbeddingRule {
    /// `app.bsky.feed.postgate#disableRule`.
    DisableRule(DisableRule),
}

/// Embedding of the post is disabled.
#[derive(Debug)]
pub struct DisableRule {}

/// Who may reply to a threadgated post.
#[derive(Debug)]
pub enum AllowRule {
    MentionRule(MentionRule),
    FollowerRule(FollowerRule),
    FollowingRule(FollowingRule),
    ListRule(ListRule),
}

/// Accounts mentioned in the post may reply.
#[derive(Debug)]
pub struct MentionRule {}

/// Followers of the author may reply.
#[derive(Debug)]
pub struct FollowerRule {}

/// Accounts the author follows may reply.
#[derive(Debug)]
pub struct FollowingRule {}

/// Members of a list may reply.
#[derive(Debug)]
pub struct ListRule {
    pub list: String,
}

/// The viewer's relationship to an actor.
#[derive(Debug)]
pub struct ViewerState {
    pub muted: Option<bool>,
    pub muted_by_list: Option<JsonValue>,
    pub blocked_by: Option<bool>,
    pub blocking: Option<String>,
    pub blocking_by_list: Option<JsonValue>,
    pub following: Option<String>,
    pub followed_by: Option<String>,
    pub known_followers: Option<JsonValue>,
}

/// Minimal actor view: DID, handle, display name, avatar.
#[derive(Debug)]
pub struct ProfileViewBasic {
    pub type_: Option<String>,
    pub did: String,
    pub handle: String,
    pub display_name: Option<String>,
    pub avatar: Option<String>,
    pub associated: Option<JsonValue>,
    pub viewer: Option<ViewerState>,
    pub labels: Option<Vec<JsonValue>>,
    pub created_at: Option<String>,
}

/// Medium actor view: no counts.
#[derive(Debug)]
pub struct ProfileView {
    pub type_: Option<String>,
    pub did: String,
    pub handle: String,
    pub display_name: Option<String>,
    pub description: Option<String>,
    pub avatar: Option<String>,
    pub associated: Option<JsonValue>,
    pub indexed_at: Option<String>,
    pub created_at: Option<String>,
    pub viewer: Option<ViewerState>,
    pub labels: Option<Vec<JsonValue>>,
}

/// Full actor view, with follower, follow and post counts.
#[derive(Debug)]
pub struct ProfileViewDetailed {
    pub type_: Option<String>,
    pub did: String,
    pub handle: String,
    pub display_name: Option<String>,
    pub description: Option<String>,
    pub avatar: Option<String>,
    pub banner: Option<String>,
    pub followers_count: Option<i64>,
    pub follows_count: Option<i64>,
    pub posts_count: Option<i64>,
    pub associated: Option<JsonValue>,
    pub joined_via_starter_pack: Option<JsonValue>,
    pub indexed_at: Option<String>,
    pub created_at: Option<String>,
    pub viewer: Option<ViewerState>,
    pub labels: Option<Vec<JsonValue>>,
}

/// A post with its author and counts.
#[derive(Debug)]
pub struct PostView {
    pub type_: Option<String>,
    pub uri: String,
    pub cid: String,
    pub author: ProfileViewBasic,
    pub record: JsonValue,
    pub embed: Option<JsonValue>,
    pub reply_count: Option<i64>,
    pub repost_count: Option<i64>,
    pub like_count: Option<i64>,
    pub quote_count: Option<i64>,
    pub indexed_at: String,
    pub viewer: Option<PostViewerState>,
    pub labels: Option<Vec<JsonValue>>,
    pub threadgate: Option<JsonValue>,
}

/// Why a post is in a feed: someone reposted it.
#[derive(Debug)]
pub struct ReasonRepost {
    pub type_: Option<String>,
    pub by: ProfileViewBasic,
    pub indexed_at: String,
}

/// The thread a reply belongs to.
#[derive(Debug)]
pub struct ReplyRef {
    pub root: JsonValue,
    pub parent: JsonValue,
    pub grandparent_author: Option<ProfileViewBasic>,
}

/// A post as a feed item.
#[derive(Debug)]
pub struct FeedViewPost {
    pub post: PostView,
    pub reason: Option<ReasonRepost>,
    pub reply: Option<ReplyRef>,
    pub feed_context: Option<String>,
}

/// A like, with who liked.
#[derive(Debug)]
pub struct LikeView {
    pub indexed_at: String,
    pub actor: ProfileViewBasic,
}

/// A feed generator.
#[derive(Debug)]
pub struct GeneratorView {
    pub type_: Option<String>,
    pub uri: String,
    pub cid: String,
    pub did: String,
    pub creator: ProfileViewBasic,
    pub display_name: String,
    pub description: Option<String>,
    pub description_facets: Option<Vec<JsonValue>>,
    pub avatar: Option<String>,
    pub like_count: Option<i64>,
    pub accepts_interactions: Option<bool>,
    pub labels: Option<Vec<JsonValue>>,
    pub viewer: Option<JsonValue>,
    pub indexed_at: String,
}

/// A list.
#[derive(Debug)]
pub struct ListView {
    pub type_: Option<String>,
    pub uri: String,
    pub cid: String,
    pub creator: ProfileViewBasic,
    pub name: String,
    pub purpose: Option<String>,
    pub description: Option<String>,
    pub description_facets: Option<Vec<JsonValue>>,
    pub avatar: Option<String>,
    pub list_item_count: Option<i64>,
    pub labels: Option<Vec<JsonValue>>,
    pub viewer: Option<JsonValue>,
    pub indexed_at: String,
}

/// A member of a list.
#[derive(Debug)]
pub struct ListItemView {
    pub uri: String,
    pub subject: ProfileViewBasic,
}

/// A notification, with its author.
#[derive(Debug)]
pub struct Notification {
    pub type_: Option<String>,
    pub uri: String,
    pub cid: String,
    pub author: ProfileViewBasic,
    pub reason: String,
    pub reason_subject: Option<String>,
    pub record: JsonValue,
    pub is_read: bool,
    pub indexed_at: String,
    pub labels: Option<Vec<JsonValue>>,
}


/// `app.bsky.feed.postgate`: who may embed a post.
#[derive(Debug)]
pub struct Postgate {
    /// An RFC 3339 timestamp.
    pub created_at: String,
    pub post: String,
    pub detached_embedding_uris: Option<Vec<String>>,
    pub embedding_rules: Option<Vec<EmbeddingRule>>,
}

/// `app.bsky.feed.threadgate`: who may reply to a thread.
#[derive(Debug)]
pub struct Threadgate {
    /// An RFC 3339 timestamp.
    pub created_at: String,
    pub post: String,
    pub allow: Option<Vec<AllowRule>>,
    pub hidden_replies: Option<Vec<String>>,
}

} // verus!
