//! What the indexer writes for each repository operation. A created or
//! updated record becomes the rows of its collection, plus a notification
//! for the account it concerns; a deletion removes them again. Executing the
//! writes is left to the caller.

use vstd::prelude::*;
use crate::appview::types::{after_scheme_of, uri_did};
use crate::json::{json_get, json_str, json_str_at2, str_member, str_member2, JsonValue};
use crate::text::{chars_of, find_char, opt_view, or_else, split_char, split_on, str_eq, str_starts_with, to_string};

verus! {

broadcast use vstd::string::group_string_axioms;

/// A notification row.
#[derive(Debug)]
pub struct NotificationWrite {
    /// The account notified.
    pub did: String,
    /// The account whose record caused it.
    pub author: String,
    pub record_uri: String,
    pub record_cid: String,
    /// `reply`, `like`, `repost` or `follow`.
    pub reason: String,
    pub reason_subject: String,
}

/// The notification row with these fields.
pub open spec fn notification_is(
    n: NotificationWrite,
    did: Seq<char>,
    author: Seq<char>,
    record_uri: Seq<char>,
    record_cid: Seq<char>,
    reason: Seq<char>,
    reason_subject: Seq<char>,
) -> bool {
    &&& n.did@ == did
    &&& n.author@ == author
    &&& n.record_uri@ == record_uri
    &&& n.record_cid@ == record_cid
    &&& n.reason@ == reason
    &&& n.reason_subject@ == reason_subject
}

/// The rows of a post.
#[derive(Debug)]
pub struct PostWrite {
    pub uri: String,
    pub cid: String,
    pub creator: String,
    pub text: String,
    pub reply_root: Option<String>,
    pub reply_parent: Option<String>,
    pub created_at: String,
    pub indexed_at: String,
    /// The reply notification to the parent's author, when that is someone else.
    pub notification: Option<NotificationWrite>,
}

/// The rows of a like.
#[derive(Debug)]
pub struct LikeWrite {
    pub uri: String,
    pub creator: String,
    pub subject: String,
    pub subject_cid: String,
    pub created_at: String,
    pub indexed_at: String,
    pub notification: Option<NotificationWrite>,
}

/// The rows of a repost.
#[derive(Debug)]
pub struct RepostWrite {
    pub uri: String,
    pub creator: String,
    pub subject: String,
    pub created_at: String,
    pub indexed_at: String,
    pub notification: Option<NotificationWrite>,
}

/// The rows of a follow.
#[derive(Debug)]
pub struct FollowWrite {
    pub uri: String,
    pub creator: String,
    pub subject_did: String,
    pub created_at: String,
    pub indexed_at: String,
    pub notification: NotificationWrite,
}

/// The row of a block.
#[derive(Debug)]
pub struct BlockWrite {
    pub creator: String,
    pub subject_did: String,
    pub created_at: String,
    pub indexed_at: String,
}

/// The row of a profile.
#[derive(Debug)]
pub struct ProfileWrite {
    pub creator: String,
    pub display_name: Option<String>,
    pub description: Option<String>,
    pub avatar_cid: Option<String>,
    pub banner_cid: Option<String>,
    pub indexed_at: String,
}

/// What indexing a created or updated record writes. A post or a profile
/// also records its author as an actor.
#[derive(Debug)]
pub enum IndexAction {
    /// Nothing.
    Skip,
    /// Only the author, as an actor (a profile without record data).
    EnsureActor(String),
    Post(PostWrite),
    Like(LikeWrite),
    Repost(RepostWrite),
    Follow(FollowWrite),
    Block(BlockWrite),
    Profile(ProfileWrite),
}

/// What deleting a record removes.
#[derive(Debug)]
pub enum DeleteAction {
    Skip,
    /// The post, its feed item and its notifications.
    Post { uri: String, creator: String },
    Like { uri: String },
    Repost { uri: String },
    Follow { uri: String },
    /// The block between `creator` and the account named by the record key.
    Block { creator: String, subject_did: String },
}

/// The `/`-separated parts of a record URI, after its scheme.
pub open spec fn uri_parts(uri: Seq<char>) -> Seq<Seq<char>> {
    split_on(after_scheme_of(uri), '/')
}


/// The string at `a.b.c` of `v`.
pub open spec fn json_str_at3(v: JsonValue, a: Seq<char>, b: Seq<char>, c: Seq<char>) -> Option<
    Seq<char>,
> {
    match json_get(v, a) {
        Some(x) => json_str_at2(x, b, c),
        None => None,
    }
}

/// The CID of a blob member: its `ref.$link`, or the member itself when it
/// is a plain string.
pub open spec fn blob_cid_of(rec: JsonValue, field: Seq<char>) -> Option<Seq<char>> {
    match json_str_at3(rec, field, "ref"@, "$link"@) {
        Some(l) => Some(l),
        None => json_str(json_get(rec, field)),
    }
}

/// The DID at the head of an AT URI.
pub fn extract_did_from_at_uri(uri: &str) -> (r: &str)
    ensures
        r@ == uri_did(uri@),
{
    proof {
        reveal_strlit("at://");
    }
    let s: &str = if str_starts_with(uri, "at://") {
        let m = chars_of(uri).len();
        uri.substring_char(5, m)
    } else {
        uri
    };
    let cs = chars_of(s);
    let i = find_char(&cs, '/');
    s.substring_char(0, i)
}

fn string_at3(v: &JsonValue, a: &str, b: &str, c: &str) -> (r: Option<String>)
    ensures
        opt_view(r) == json_str_at3(*v, a@, b@, c@),
{
    match v.get(a) {
        Some(x) => match str_member2(x, b, c) {
            Some(s) => Some(to_string(s)),
            None => None,
        },
        None => None,
    }
}

fn string_member(v: &JsonValue, a: &str) -> (r: Option<String>)
    ensures
        opt_view(r) == json_str(json_get(*v, a@)),
{
    match str_member(v, a) {
        Some(s) => Some(to_string(s)),
        None => None,
    }
}

fn string_member2(v: &JsonValue, a: &str, b: &str) -> (r: Option<String>)
    ensures
        opt_view(r) == json_str_at2(*v, a@, b@),
{
    match str_member2(v, a, b) {
        Some(s) => Some(to_string(s)),
        None => None,
    }
}

fn string_or(o: Option<String>, d: &str) -> (r: String)
    ensures
        r@ == or_else(opt_view(o), d@),
{
    match o {
        Some(s) => s,
        None => to_string(d),
    }
}

/// The CID of a blob member of a record.
pub fn extract_blob_cid(rec: &JsonValue, field: &str) -> (r: Option<String>)
    ensures
        opt_view(r) == blob_cid_of(*rec, field@),
{
    proof {
        reveal_strlit("ref");
        reveal_strlit("$link");
    }
    match string_at3(rec, field, "ref", "$link") {
        Some(l) => Some(l),
        None => string_member(rec, field),
    }
}


/// The reply-notification a post of `repo` at `uri` with CID `cid` owes the
/// author of `parent`, when that is someone else.
pub open spec fn reply_notification_ok(
    n: Option<NotificationWrite>,
    repo: Seq<char>,
    uri: Seq<char>,
    cid: Seq<char>,
    parent: Option<Seq<char>>,
) -> bool {
    match parent {
        Some(p) => if uri_did(p) != repo {
            n matches Some(w) && notification_is(w, uri_did(p), repo, uri, cid, "reply"@, p)
        } else {
            n is None
        },
        None => n is None,
    }
}

/// The rows a post record `rec` of `repo` with key `rkey` and CID `cid`
/// makes, at time `now`.
pub open spec fn post_write_ok(
    w: PostWrite,
    repo: Seq<char>,
    rkey: Seq<char>,
    cid: Seq<char>,
    rec: JsonValue,
    now: Seq<char>,
) -> bool {
    let uri = "at://"@ + repo + "/app.bsky.feed.post/"@ + rkey;
    &&& w.uri@ == uri
    &&& w.cid@ == cid
    &&& w.creator@ == repo
    &&& w.text@ == or_else(json_str(json_get(rec, "text"@)), Seq::empty())
    &&& opt_view(w.reply_root) == json_str_at3(rec, "reply"@, "root"@, "uri"@)
    &&& opt_view(w.reply_parent) == json_str_at3(rec, "reply"@, "parent"@, "uri"@)
    &&& w.created_at@ == or_else(json_str(json_get(rec, "createdAt"@)), now)
    &&& w.indexed_at@ == now
    &&& reply_notification_ok(w.notification, repo, uri, cid, opt_view(w.reply_parent))
}

/// The rows of a like or repost `rec` at `uri` by `repo`: its subject, and a
/// notification to the subject's author when that is someone else.
pub open spec fn subject_notification_ok(
    n: Option<NotificationWrite>,
    repo: Seq<char>,
    uri: Seq<char>,
    record_cid: Seq<char>,
    reason: Seq<char>,
    subject: Seq<char>,
) -> bool {
    if uri_did(subject) != repo {
        n matches Some(w) && notification_is(w, uri_did(subject), repo, uri, record_cid, reason, subject)
    } else {
        n is None
    }
}

/// The writes of a post record.
pub open spec fn post_action_ok(
    r: IndexAction,
    repo: Seq<char>,
    rkey: Seq<char>,
    cid: Seq<char>,
    record: Option<JsonValue>,
    now: Seq<char>,
) -> bool {
    match record {
        None => r is Skip,
        Some(rec) => r matches IndexAction::Post(w) && post_write_ok(w, repo, rkey, cid, rec, now),
    }
}

/// The writes of a like record at `uri`.
pub open spec fn like_action_ok(
    r: IndexAction,
    uri: Seq<char>,
    repo: Seq<char>,
    record: Option<JsonValue>,
    now: Seq<char>,
) -> bool {
    match record {
        None => r is Skip,
        Some(rec) => {
            let subject = or_else(json_str_at2(rec, "subject"@, "uri"@), Seq::empty());
            let subject_cid = or_else(json_str_at2(rec, "subject"@, "cid"@), Seq::empty());
            if subject.len() == 0 {
                r is Skip
            } else {
                r matches IndexAction::Like(w) && w.uri@ == uri && w.creator@ == repo && w.subject@
                    == subject && w.subject_cid@ == subject_cid && w.created_at@ == or_else(
                    json_str(json_get(rec, "createdAt"@)),
                    now,
                ) && w.indexed_at@ == now && subject_notification_ok(
                    w.notification,
                    repo,
                    uri,
                    subject_cid,
                    "like"@,
                    subject,
                )
            }
        },
    }
}

/// The writes of a repost record at `uri`.
pub open spec fn repost_action_ok(
    r: IndexAction,
    uri: Seq<char>,
    repo: Seq<char>,
    record: Option<JsonValue>,
    now: Seq<char>,
) -> bool {
    match record {
        None => r is Skip,
        Some(rec) => {
            let subject = or_else(json_str_at2(rec, "subject"@, "uri"@), Seq::empty());
            if subject.len() == 0 {
                r is Skip
            } else {
                r matches IndexAction::Repost(w) && w.uri@ == uri && w.creator@ == repo
                    && w.subject@ == subject && w.created_at@ == or_else(
                    json_str(json_get(rec, "createdAt"@)),
                    now,
                ) && w.indexed_at@ == now && subject_notification_ok(
                    w.notification,
                    repo,
                    uri,
                    Seq::empty(),
                    "repost"@,
                    subject,
                )
            }
        },
    }
}

/// The writes of a follow record at `uri`.
pub open spec fn follow_action_ok(
    r: IndexAction,
    uri: Seq<char>,
    repo: Seq<char>,
    record: Option<JsonValue>,
    now: Seq<char>,
) -> bool {
    match record {
        None => r is Skip,
        Some(rec) => {
            let subject = or_else(json_str(json_get(rec, "subject"@)), Seq::empty());
            if subject.len() == 0 {
                r is Skip
            } else {
                r matches IndexAction::Follow(w) && w.uri@ == uri && w.creator@ == repo
                    && w.subject_did@ == subject && w.created_at@ == or_else(
                    json_str(json_get(rec, "createdAt"@)),
                    now,
                ) && w.indexed_at@ == now && notification_is(
                    w.notification,
                    subject,
                    repo,
                    uri,
                    Seq::empty(),
                    "follow"@,
                    Seq::empty(),
                )
            }
        },
    }
}

/// The writes of a block record.
pub open spec fn block_action_ok(
    r: IndexAction,
    repo: Seq<char>,
    record: Option<JsonValue>,
    now: Seq<char>,
) -> bool {
    match record {
        None => r is Skip,
        Some(rec) => {
            let subject = or_else(json_str(json_get(rec, "subject"@)), Seq::empty());
            if subject.len() == 0 {
                r is Skip
            } else {
                r matches IndexAction::Block(w) && w.creator@ == repo && w.subject_did@ == subject
                    && w.created_at@ == or_else(json_str(json_get(rec, "createdAt"@)), now)
                    && w.indexed_at@ == now
            }
        },
    }
}

/// The writes of a profile record; without data, only its author.
pub open spec fn profile_action_ok(
    r: IndexAction,
    repo: Seq<char>,
    record: Option<JsonValue>,
    now: Seq<char>,
) -> bool {
    match record {
        None => r matches IndexAction::EnsureActor(d) && d@ == repo,
        Some(rec) => r matches IndexAction::Profile(w) && w.creator@ == repo && opt_view(
            w.display_name,
        ) == json_str(json_get(rec, "displayName"@)) && opt_view(w.description) == json_str(
            json_get(rec, "description"@),
        ) && opt_view(w.avatar_cid) == blob_cid_of(rec, "avatar"@) && opt_view(w.banner_cid)
            == blob_cid_of(rec, "banner"@) && w.indexed_at@ == now,
    }
}

/// What indexing a created or updated record writes: its collection (the
/// second part of its URI) chooses the rows; records without data, without
/// a subject, or of other collections write nothing (except that a profile
/// always records its author).
pub open spec fn index_action_ok(
    r: IndexAction,
    uri: Seq<char>,
    cid: Seq<char>,
    repo: Seq<char>,
    record: Option<JsonValue>,
    now: Seq<char>,
) -> bool {
    let parts = uri_parts(uri);
    if parts.len() < 3 {
        r is Skip
    } else {
        let collection = parts[1];
        if collection == "app.bsky.feed.post"@ {
            post_action_ok(r, repo, parts[2], cid, record, now)
        } else if collection == "app.bsky.feed.like"@ {
            like_action_ok(r, uri, repo, record, now)
        } else if collection == "app.bsky.feed.repost"@ {
            repost_action_ok(r, uri, repo, record, now)
        } else if collection == "app.bsky.graph.follow"@ {
            follow_action_ok(r, uri, repo, record, now)
        } else if collection == "app.bsky.graph.block"@ {
            block_action_ok(r, repo, record, now)
        } else if collection == "app.bsky.actor.profile"@ {
            profile_action_ok(r, repo, record, now)
        } else {
            r is Skip
        }
    }
}

/// The record URI's parts after its scheme.
fn parts_of(uri: &str) -> (r: Vec<String>)
    ensures
        r@.map_values(|p: String| p@) == uri_parts(uri@),
{
    proof {
        reveal_strlit("at://");
    }
    let s: &str = if str_starts_with(uri, "at://") {
        let m = chars_of(uri).len();
        uri.substring_char(5, m)
    } else {
        uri
    };
    split_char(s, '/')
}

fn concat3(a: &str, b: &str, c: &str) -> (r: String)
    ensures
        r@ == a@ + b@ + c@,
{
    let mut s = to_string(a);
    s.append(b);
    s.append(c);
    s
}

fn notify_subject(repo: &str, uri: &str, record_cid: &str, reason: &str, subject: &str) -> (r: Option<NotificationWrite>)
    ensures
        subject_notification_ok(r, repo@, uri@, record_cid@, reason@, subject@),
{
    let author = extract_did_from_at_uri(subject);
    if str_eq(author, repo) {
        None
    } else {
        Some(NotificationWrite {
            did: to_string(author),
            author: to_string(repo),
            record_uri: to_string(uri),
            record_cid: to_string(record_cid),
            reason: to_string(reason),
            reason_subject: to_string(subject),
        })
    }
}

/// The record as an optional spec value.
pub open spec fn opt_record(record: Option<&JsonValue>) -> Option<JsonValue> {
    match record {
        Some(v) => Some(*v),
        None => None,
    }
}

fn plan_post(repo: &str, rkey: &str, cid: &str, record: Option<&JsonValue>, now: &str) -> (r: IndexAction)
    ensures
        post_action_ok(r, repo@, rkey@, cid@, opt_record(record), now@),
{
    proof {
        reveal_strlit("");
        assert(""@ =~= Seq::<char>::empty());
    }
    let rec = match record {
        Some(r) => r,
        None => return IndexAction::Skip,
    };
    let text = string_or(string_member(rec, "text"), "");
    let created_at = string_or(string_member(rec, "createdAt"), now);
    let reply_root = string_at3(rec, "reply", "root", "uri");
    let reply_parent = string_at3(rec, "reply", "parent", "uri");
    let mut post_uri = concat3("at://", repo, "/app.bsky.feed.post/");
    post_uri.append(rkey);
    let notification = match &reply_parent {
        Some(p) => {
            let author = extract_did_from_at_uri(p.as_str());
            if str_eq(author, repo) {
                None
            } else {
                Some(NotificationWrite {
                    did: to_string(author),
                    author: to_string(repo),
                    record_uri: post_uri.clone(),
                    record_cid: to_string(cid),
                    reason: to_string("reply"),
                    reason_subject: p.clone(),
                })
            }
        },
        None => None,
    };
    IndexAction::Post(PostWrite {
        uri: post_uri,
        cid: to_string(cid),
        creator: to_string(repo),
        text,
        reply_root,
        reply_parent,
        created_at,
        indexed_at: to_string(now),
        notification,
    })
}

fn plan_like(uri: &str, repo: &str, record: Option<&JsonValue>, now: &str) -> (r: IndexAction)
    ensures
        like_action_ok(r, uri@, repo@, opt_record(record), now@),
{
    proof {
        reveal_strlit("");
        assert(""@ =~= Seq::<char>::empty());
    }
    let rec = match record {
        Some(r) => r,
        None => return IndexAction::Skip,
    };
    let subject = string_or(string_member2(rec, "subject", "uri"), "");
    let subject_cid = string_or(string_member2(rec, "subject", "cid"), "");
    let created_at = string_or(string_member(rec, "createdAt"), now);
    if chars_of(subject.as_str()).len() == 0 {
        return IndexAction::Skip;
    }
    let notification = notify_subject(repo, uri, subject_cid.as_str(), "like", subject.as_str());
    IndexAction::Like(LikeWrite {
        uri: to_string(uri),
        creator: to_string(repo),
        subject,
        subject_cid,
        created_at,
        indexed_at: to_string(now),
        notification,
    })
}

fn plan_repost(uri: &str, repo: &str, record: Option<&JsonValue>, now: &str) -> (r: IndexAction)
    ensures
        repost_action_ok(r, uri@, repo@, opt_record(record), now@),
{
    proof {
        reveal_strlit("");
        assert(""@ =~= Seq::<char>::empty());
    }
    let rec = match record {
        Some(r) => r,
        None => return IndexAction::Skip,
    };
    let subject = string_or(string_member2(rec, "subject", "uri"), "");
    let created_at = string_or(string_member(rec, "createdAt"), now);
    if chars_of(subject.as_str()).len() == 0 {
        return IndexAction::Skip;
    }
    let notification = notify_subject(repo, uri, "", "repost", subject.as_str());
    IndexAction::Repost(RepostWrite {
        uri: to_string(uri),
        creator: to_string(repo),
        subject,
        created_at,
        indexed_at: to_string(now),
        notification,
    })
}

fn plan_follow(uri: &str, repo: &str, record: Option<&JsonValue>, now: &str) -> (r: IndexAction)
    ensures
        follow_action_ok(r, uri@, repo@, opt_record(record), now@),
{
    proof {
        reveal_strlit("");
        assert(""@ =~= Seq::<char>::empty());
    }
    let rec = match record {
        Some(r) => r,
        None => return IndexAction::Skip,
    };
    let subject = string_or(string_member(rec, "subject"), "");
    let created_at = string_or(string_member(rec, "createdAt"), now);
    if chars_of(subject.as_str()).len() == 0 {
        return IndexAction::Skip;
    }
    let notification = NotificationWrite {
        did: subject.clone(),
        author: to_string(repo),
        record_uri: to_string(uri),
        record_cid: to_string(""),
        reason: to_string("follow"),
        reason_subject: to_string(""),
    };
    IndexAction::Follow(FollowWrite {
        uri: to_string(uri),
        creator: to_string(repo),
        subject_did: subject,
        created_at,
        indexed_at: to_string(now),
        notification,
    })
}

fn plan_block(repo: &str, record: Option<&JsonValue>, now: &str) -> (r: IndexAction)
    ensures
        block_action_ok(r, repo@, opt_record(record), now@),
{
    proof {
        reveal_strlit("");
        assert(""@ =~= Seq::<char>::empty());
    }
    let rec = match record {
        Some(r) => r,
        None => return IndexAction::Skip,
    };
    let subject = string_or(string_member(rec, "subject"), "");
    let created_at = string_or(string_member(rec, "createdAt"), now);
    if chars_of(subject.as_str()).len() == 0 {
        return IndexAction::Skip;
    }
    IndexAction::Block(BlockWrite {
        creator: to_string(repo),
        subject_did: subject,
        created_at,
        indexed_at: to_string(now),
    })
}

fn plan_profile(repo: &str, record: Option<&JsonValue>, now: &str) -> (r: IndexAction)
    ensures
        profile_action_ok(r, repo@, opt_record(record), now@),
{
    let rec = match record {
        Some(r) => r,
        None => return IndexAction::EnsureActor(to_string(repo)),
    };
    IndexAction::Profile(ProfileWrite {
        creator: to_string(repo),
        display_name: string_member(rec, "displayName"),
        description: string_member(rec, "description"),
        avatar_cid: extract_blob_cid(rec, "avatar"),
        banner_cid: extract_blob_cid(rec, "banner"),
        indexed_at: to_string(now),
    })
}

/// Plans the writes of a created or updated record (`index_record`).
pub fn index_record(uri: &str, cid: &str, repo: &str, record: Option<&JsonValue>, now: &str) -> (r: IndexAction)
    ensures
        index_action_ok(r, uri@, cid@, repo@, opt_record(record), now@),
{
    let parts = parts_of(uri);
    let ghost pv = parts@.map_values(|p: String| p@);
    if parts.len() < 3 {
        return IndexAction::Skip;
    }
    assert(pv[1] == parts@[1]@ && pv[2] == parts@[2]@);
    let collection = parts[1].as_str();
    let rkey = parts[2].as_str();
    if str_eq(collection, "app.bsky.feed.post") {
        plan_post(repo, rkey, cid, record, now)
    } else if str_eq(collection, "app.bsky.feed.like") {
        plan_like(uri, repo, record, now)
    } else if str_eq(collection, "app.bsky.feed.repost") {
        plan_repost(uri, repo, record, now)
    } else if str_eq(collection, "app.bsky.graph.follow") {
        plan_follow(uri, repo, record, now)
    } else if str_eq(collection, "app.bsky.graph.block") {
        plan_block(repo, record, now)
    } else if str_eq(collection, "app.bsky.actor.profile") {
        plan_profile(repo, record, now)
    } else {
        IndexAction::Skip
    }
}


/// What deleting the record at `uri` of `repo` removes.
pub open spec fn delete_action_ok(r: DeleteAction, uri: Seq<char>, repo: Seq<char>) -> bool {
    let parts = uri_parts(uri);
    if parts.len() < 3 {
        r is Skip
    } else {
        let collection = parts[1];
        if collection == "app.bsky.feed.post"@ {
            r matches DeleteAction::Post { uri: u, creator: c } && u@ == uri && c@ == repo
        } else if collection == "app.bsky.feed.like"@ {
            r matches DeleteAction::Like { uri: u } && u@ == uri
        } else if collection == "app.bsky.feed.repost"@ {
            r matches DeleteAction::Repost { uri: u } && u@ == uri
        } else if collection == "app.bsky.graph.follow"@ {
            r matches DeleteAction::Follow { uri: u } && u@ == uri
        } else if collection == "app.bsky.graph.block"@ {
            r matches DeleteAction::Block { creator: c, subject_did: d } && c@ == parts[0] && d@
                == parts[2]
        } else {
            r is Skip
        }
    }
}

/// Plans what deleting a record removes (`delete_record`).
pub fn delete_record(uri: &str, repo: &str) -> (r: DeleteAction)
    ensures
        delete_action_ok(r, uri@, repo@),
{
    let parts = parts_of(uri);
    let ghost pv = parts@.map_values(|p: String| p@);
    if parts.len() < 3 {
        return DeleteAction::Skip;
    }
    assert(pv[0] == parts@[0]@ && pv[1] == parts@[1]@ && pv[2] == parts@[2]@);
    let collection = parts[1].as_str();
    if str_eq(collection, "app.bsky.feed.post") {
        DeleteAction::Post { uri: to_string(uri), creator: to_string(repo) }
    } else if str_eq(collection, "app.bsky.feed.like") {
        DeleteAction::Like { uri: to_string(uri) }
    } else if str_eq(collection, "app.bsky.feed.repost") {
        DeleteAction::Repost { uri: to_string(uri) }
    } else if str_eq(collection, "app.bsky.graph.follow") {
        DeleteAction::Follow { uri: to_string(uri) }
    } else if str_eq(collection, "app.bsky.graph.block") {
        DeleteAction::Block { creator: parts[0].clone(), subject_did: parts[2].clone() }
    } else {
        DeleteAction::Skip
    }
}

/// Nobody is notified of their own reply, like or repost: a notification
/// that indexing one of these plans goes to someone other than its author.
pub proof fn law_no_self_notification(
    r: IndexAction,
    uri: Seq<char>,
    cid: Seq<char>,
    repo: Seq<char>,
    record: Option<JsonValue>,
    now: Seq<char>,
)
    requires
        index_action_ok(r, uri, cid, repo, record, now),
    ensures
        r matches IndexAction::Post(w) ==> (w.notification matches Some(n) ==> n.did@ != repo
            && n.author@ == repo),
        r matches IndexAction::Like(w) ==> (w.notification matches Some(n) ==> n.did@ != repo
            && n.author@ == repo),
        r matches IndexAction::Repost(w) ==> (w.notification matches Some(n) ==> n.did@ != repo
            && n.author@ == repo),
{
}

/// A notification names why it was sent by what caused it: a reply is
/// `reply`, a like `like`, a repost `repost` and a follow `follow`. A like
/// or repost of someone else's record notifies that record's author, and a
/// reply to someone else's post notifies the parent's author.
pub proof fn law_notification_reason_is_the_record_kind(
    r: IndexAction,
    uri: Seq<char>,
    cid: Seq<char>,
    repo: Seq<char>,
    record: Option<JsonValue>,
    now: Seq<char>,
)
    requires
        index_action_ok(r, uri, cid, repo, record, now),
    ensures
        r matches IndexAction::Post(w) ==> (w.notification matches Some(n) ==> n.reason@ == "reply"@),
        r matches IndexAction::Like(w) ==> (w.notification matches Some(n) ==> n.reason@ == "like"@),
        r matches IndexAction::Repost(w) ==> (w.notification matches Some(n) ==> n.reason@
            == "repost"@),
        r matches IndexAction::Follow(w) ==> w.notification.reason@ == "follow"@,
        r matches IndexAction::Like(w) ==> (uri_did(w.subject@) != repo ==> (w.notification matches Some(
            n,
        ) && n.did@ == uri_did(w.subject@) && n.reason@ == "like"@)),
        r matches IndexAction::Repost(w) ==> (uri_did(w.subject@) != repo ==> (
        w.notification matches Some(n) && n.did@ == uri_did(w.subject@) && n.reason@
            == "repost"@)),
        r matches IndexAction::Post(w) ==> (w.reply_parent matches Some(p) ==> (uri_did(p@) != repo
            ==> (w.notification matches Some(n) && n.did@ == uri_did(p@) && n.reason@ == "reply"@))),
{
}

} // verus!
