use rsky_appview::api::views::{
    actor_to_profile_basic, actor_to_profile_detailed, actor_to_profile_view, build_profile_basic,
    feed_item_plain, generator_view, handle_or_did, like_view, list_item_view, list_view_from_row,
    generators_cursor, notification_view, notifications_cursor, post_record, post_view_with_author, profile_or_bare,
    unresolved_generator_view,
};
use rsky_appview::db::models::{
    ActorRow, GeneratorRow, LikeWithActorRow, ListItemRow, ListRow, NotificationRow, PostRow,
    PostWithAuthorRow,
};
use rsky_appview::json::JsonValue;

fn actor(handle: Option<&str>) -> ActorRow {
    ActorRow {
        did: "did:plc:alice".to_string(),
        handle: handle.map(|h| h.to_string()),
        display_name: Some("Alice".to_string()),
        description: Some("hi".to_string()),
        avatar_cid: Some("bafyavatar".to_string()),
        banner_cid: Some("bafybanner".to_string()),
        indexed_at: Some("2024-01-01T00:00:00.000Z".to_string()),
        followers_count: Some(3),
        follows_count: Some(4),
        posts_count: None,
    }
}

fn assert_post_record(v: &JsonValue, text: &str, created_at: &str) {
    match v {
        JsonValue::Object(m) => {
            assert_eq!(m.len(), 3);
            assert_eq!(m[0].0, "$type");
            assert!(matches!(&m[0].1, JsonValue::Str(s) if s == "app.bsky.feed.post"));
            assert_eq!(m[1].0, "text");
            assert!(matches!(&m[1].1, JsonValue::Str(s) if s == text));
            assert_eq!(m[2].0, "createdAt");
            assert!(matches!(&m[2].1, JsonValue::Str(s) if s == created_at));
        }
        other => panic!("not an object: {other:?}"),
    }
}

#[test]
fn basic_profile_falls_back_to_the_did() {
    let p = build_profile_basic("did:plc:bob".to_string(), None, None, None);
    assert_eq!(p.handle, "did:plc:bob");
    assert_eq!(p.type_.as_deref(), Some("app.bsky.actor.defs#profileViewBasic"));
    assert!(p.display_name.is_none() && p.avatar.is_none() && p.viewer.is_none());
    assert_eq!(handle_or_did(Some("bob.test".to_string()), "did:plc:bob"), "bob.test");
}

#[test]
fn actor_profiles_carry_the_row() {
    let row = actor(Some("alice.test"));
    let b = actor_to_profile_basic(&row);
    assert_eq!(b.handle, "alice.test");
    assert_eq!(b.avatar.as_deref(), Some("bafyavatar"));
    let v = actor_to_profile_view(&row);
    assert_eq!(v.type_.as_deref(), Some("app.bsky.actor.defs#profileView"));
    assert_eq!(v.description.as_deref(), Some("hi"));
    assert_eq!(v.indexed_at.as_deref(), Some("2024-01-01T00:00:00.000Z"));
    let d = actor_to_profile_detailed(&actor(None));
    assert_eq!(d.type_.as_deref(), Some("app.bsky.actor.defs#profileViewDetailed"));
    assert_eq!(d.handle, "did:plc:alice");
    assert_eq!(d.banner.as_deref(), Some("bafybanner"));
    assert_eq!((d.followers_count, d.follows_count, d.posts_count), (Some(3), Some(4), None));
}

#[test]
fn post_views_show_the_record() {
    assert_post_record(&post_record("hello", "2024-02-02"), "hello", "2024-02-02");
    let row = PostWithAuthorRow {
        uri: "at://did:plc:alice/app.bsky.feed.post/1".to_string(),
        cid: "bafypost".to_string(),
        creator: "did:plc:alice".to_string(),
        text: "hello".to_string(),
        reply_root: None,
        reply_parent: None,
        reply_count: Some(1),
        repost_count: Some(2),
        like_count: Some(5),
        quote_count: None,
        created_at: "2024-02-02".to_string(),
        indexed_at: "2024-02-03".to_string(),
        author_did: "did:plc:alice".to_string(),
        author_handle: Some("alice.test".to_string()),
        author_display_name: None,
        author_description: None,
        author_avatar_cid: None,
        author_banner_cid: None,
        author_indexed_at: None,
        author_followers_count: None,
        author_follows_count: None,
        author_posts_count: None,
    };
    let p = post_view_with_author(&row);
    assert_eq!(p.type_.as_deref(), Some("app.bsky.feed.defs#postView"));
    assert_eq!(p.author.handle, "alice.test");
    assert_eq!((p.reply_count, p.repost_count, p.like_count, p.quote_count), (Some(1), Some(2), Some(5), None));
    assert_eq!(p.indexed_at, "2024-02-03");
    assert_post_record(&p.record, "hello", "2024-02-02");

    let plain = PostRow {
        uri: row.uri.clone(),
        cid: row.cid.clone(),
        creator: "did:plc:carol".to_string(),
        text: "yo".to_string(),
        reply_root: None,
        reply_parent: None,
        reply_count: None,
        repost_count: None,
        like_count: None,
        quote_count: None,
        created_at: "c".to_string(),
        indexed_at: "i".to_string(),
    };
    let item = feed_item_plain(&plain);
    assert_eq!(item.post.author.handle, "did:plc:carol");
    assert!(item.reason.is_none() && item.reply.is_none() && item.feed_context.is_none());
}

#[test]
fn like_view_defaults_the_indexing_time() {
    let row = LikeWithActorRow {
        like_uri: "at://x/app.bsky.feed.like/1".to_string(),
        actor_did: "did:plc:dan".to_string(),
        actor_handle: None,
        actor_display_name: Some("Dan".to_string()),
        actor_description: None,
        actor_avatar_cid: None,
        actor_banner_cid: None,
        actor_indexed_at: None,
        actor_followers_count: None,
        actor_follows_count: None,
        actor_posts_count: None,
    };
    let l = like_view(row);
    assert_eq!(l.indexed_at, "");
    assert_eq!(l.actor.handle, "did:plc:dan");
    assert_eq!(l.actor.display_name.as_deref(), Some("Dan"));
}

#[test]
fn lists_show_their_creator_by_did() {
    let l = list_view_from_row(ListRow {
        uri: "at://did:plc:e/app.bsky.graph.list/1".to_string(),
        cid: "bafylist".to_string(),
        creator_did: "did:plc:e".to_string(),
        name: "Friends".to_string(),
        purpose: "app.bsky.graph.defs#curatelist".to_string(),
        description: None,
        avatar_cid: None,
        indexed_at: "t".to_string(),
    });
    assert_eq!(l.type_.as_deref(), Some("app.bsky.graph.defs#listView"));
    assert_eq!(l.purpose.as_deref(), Some("app.bsky.graph.defs#curatelist"));
    assert_eq!(l.creator.did, "did:plc:e");
    assert_eq!(l.creator.handle, "did:plc:e");
    let item = list_item_view(&ListItemRow {
        uri: "at://did:plc:e/app.bsky.graph.listitem/1".to_string(),
        subject_did: "did:plc:f".to_string(),
        subject_handle: Some("f.test".to_string()),
        subject_display_name: None,
        subject_avatar_cid: None,
        indexed_at: "t".to_string(),
    });
    assert_eq!(item.subject.handle, "f.test");
}

#[test]
fn notifications_are_typed_by_reason() {
    let row = NotificationRow {
        did: "did:plc:alice".to_string(),
        author: "did:plc:bob".to_string(),
        record_uri: "at://did:plc:bob/app.bsky.feed.like/1".to_string(),
        record_cid: "bafylike".to_string(),
        reason: "like".to_string(),
        reason_subject: Some("at://did:plc:alice/app.bsky.feed.post/1".to_string()),
        is_read: None,
        sort_at: "s".to_string(),
    };
    let author = profile_or_bare(None, "did:plc:bob");
    assert_eq!(author.handle, "did:plc:bob");
    let n = notification_view(row, author);
    assert_eq!(n.type_.as_deref(), Some("app.bsky.notification.like#like"));
    assert!(!n.is_read);
    assert_eq!(n.indexed_at, "s");
    assert!(matches!(n.record, JsonValue::Object(ref m) if m.is_empty()));
}

#[test]
fn generators_count_unknown_likes_as_zero() {
    let row = GeneratorRow {
        uri: "at://did:plc:g/app.bsky.feed.generator/hot".to_string(),
        cid: "bafygen".to_string(),
        creator: "did:plc:g".to_string(),
        feed_did: "did:web:feed.test".to_string(),
        display_name: "Hot".to_string(),
        description: None,
        avatar_cid: None,
        like_count: None,
        indexed_at: "t".to_string(),
    };
    let creator = profile_or_bare(Some(actor(Some("g.test"))), "did:plc:g");
    assert_eq!(creator.handle, "g.test");
    let g = generator_view(row, creator);
    assert_eq!(g.like_count, Some(0));
    assert_eq!(g.did, "did:web:feed.test");
    let u = unresolved_generator_view();
    assert_eq!(u.type_.as_deref(), Some("app.bsky.feed.defs#generatorView"));
    assert!(u.uri.is_empty() && u.creator.handle.is_empty() && u.like_count.is_none());
}

fn notification_row(uri: &str, sort_at: &str) -> NotificationRow {
    NotificationRow {
        did: "did:plc:alice".to_string(),
        author: "did:plc:bob".to_string(),
        record_uri: uri.to_string(),
        record_cid: "bafy".to_string(),
        reason: "follow".to_string(),
        reason_subject: None,
        is_read: Some(true),
        sort_at: sort_at.to_string(),
    }
}

fn generator_row(uri: &str) -> GeneratorRow {
    GeneratorRow {
        uri: uri.to_string(),
        cid: "bafygen".to_string(),
        creator: "did:plc:g".to_string(),
        feed_did: "did:web:feed.test".to_string(),
        display_name: "Feed".to_string(),
        description: None,
        avatar_cid: None,
        like_count: Some(3),
        indexed_at: "t".to_string(),
    }
}

#[test]
fn pages_continue_from_their_last_item() {
    assert!(notifications_cursor(&[]).is_none());
    let page = vec![
        notification_view(notification_row("at://a/1", "2024-01-02"), profile_or_bare(None, "did:plc:bob")),
        notification_view(notification_row("at://a/2", "2024-01-01"), profile_or_bare(None, "did:plc:bob")),
    ];
    assert_eq!(notifications_cursor(&page).as_deref(), Some("2024-01-01"));
    assert!(generators_cursor(&[]).is_none());
    let feeds = vec![
        generator_view(generator_row("at://g/1"), profile_or_bare(None, "did:plc:g")),
        generator_view(generator_row("at://g/2"), profile_or_bare(None, "did:plc:g")),
    ];
    assert_eq!(generators_cursor(&feeds).as_deref(), Some("at://g/2"));
}
