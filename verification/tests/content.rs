use aura::database::{
    database_url, ChannelData, ChannelMember, ChannelRow, PostData, PostRow, ResourceRow, UserRow,
};
use aura::logic::feed::reaction_tally;
use aura::logic::posting::{
    check_not_blocked, create, delete, hydrate, react, ParentLookup, PostInteraction, VectorSource,
};
use aura::logic::resource::{
    build_path, check_download, check_meta, check_upload, is_download_authorized,
    is_upload_authorized, namespace_dir, start_upload, upload_chunk, UploadPayload, UploadRequest,
};
use aura::logic::user::{chunks_length, default_icon_descriptor, get, push_notifications, search_profile};
use aura::types::chat::{Channel, ChannelPermission, Content, Member};
use aura::types::common::Timestamp;
use aura::types::posting::{Post, PostReaction, ReactionCount};
use aura::types::resource::{
    ResourceDescriptor, ResourceId, ResourceMeta, ResourceNamespace, ResourceNamespaceType,
};
use aura::types::user::{Notification, Notifications, User, UserRole};

fn ts(secs: i64) -> Timestamp {
    Timestamp::from_parts(secs, 0).unwrap()
}

fn user_row(id: &str) -> UserRow {
    UserRow {
        user_id: id.to_string(),
        username: id.to_uppercase(),
        email: format!("{id}@x"),
        password: "h".to_string(),
        role: UserRole::User,
        icon: ResourceId::default_user_icon(),
        notifications: Notifications(Vec::new()),
        created_at: ts(1),
    }
}

fn channel_row(id: &str) -> ChannelRow {
    ChannelRow { channel_id: id.to_string(), name: format!("{id} name"), description: String::new() }
}

fn member_row(channel: &str, user: &str, p: ChannelPermission) -> ChannelMember {
    ChannelMember { channel_id: channel.to_string(), user_id: user.to_string(), permission: p }
}

fn pair(a: &str, b: &str) -> (String, String) {
    (a.to_string(), b.to_string())
}

#[test]
fn users_are_assembled_from_rows() {
    let users: Vec<User> = get(
        vec![user_row("alice"), user_row("bob"), user_row("alice")],
        vec![("alice".to_string(), channel_row("c1")), ("bob".to_string(), channel_row("c1")), ("alice".to_string(), channel_row("c2"))],
        vec![
            member_row("c1", "alice", ChannelPermission::Manager),
            member_row("c2", "alice", ChannelPermission::ReadOnly),
            member_row("c1", "bob", ChannelPermission::ReadWrite),
        ],
        vec![pair("alice", "bob"), pair("bob", "carol")],
        vec![pair("bob", "alice")],
    );
    assert_eq!(users.len(), 3);
    let alice = &users[0];
    assert_eq!(alice.username, "ALICE");
    assert_eq!(alice.channels.len(), 2);
    assert_eq!(alice.channels[0].channel_id, "c1");
    assert_eq!(alice.channels[0].members.len(), 2);
    assert_eq!(alice.channels[0].members[1].user_id, "bob");
    assert_eq!(alice.channels[1].members.len(), 1);
    assert_eq!(alice.followers, vec!["bob".to_string()]);
    assert!(alice.following.is_empty());
    let bob = &users[1];
    assert_eq!(bob.followers, vec!["carol".to_string()]);
    assert_eq!(bob.following, vec!["alice".to_string()]);
    // a repeated row of the same user gets no relations
    assert!(users[2].channels.is_empty() && users[2].followers.is_empty());
    let profile = users.into_iter().next().unwrap().into_profile();
    assert_eq!((profile.followers, profile.following), (1, 0));
}

fn invite_at(secs: i64) -> Notification {
    Notification::Invite {
        notification_id: format!("n{secs}"),
        timestamp: ts(secs),
        channel_id: "c".to_string(),
        invited_by: "a".to_string(),
        uninvited: false,
    }
}

#[test]
fn notifications_expire() {
    let existing = Notifications(vec![invite_at(0), invite_at(7000)]);
    let now = ts(10_000);
    // one hour: notifications older than 3600 s are dropped
    let kept = push_notifications(existing, vec![invite_at(9000)], &now, 1);
    let ids: Vec<i64> = kept.0.iter().map(|n| n.timestamp().seconds()).collect();
    assert_eq!(ids, vec![7000, 9000]);
    let fresh = Notification::invite("c".to_string(), "a".to_string(), true);
    assert_eq!(fresh.timestamp().subsec_nanos() % 1000, 0);
}

#[test]
fn channel_rows_round_trip() {
    let c = Channel {
        channel_id: "c1".to_string(),
        name: "n".to_string(),
        description: "d".to_string(),
        members: vec![
            Member { user_id: "a".to_string(), permission: ChannelPermission::Manager },
            Member { user_id: "b".to_string(), permission: ChannelPermission::ReadOnly },
        ],
    };
    let rows: ChannelData = c.into_db();
    assert!(rows.members.iter().all(|m| m.channel_id == "c1"));
    let back = Channel::from_db(rows);
    assert_eq!(back.members.len(), 2);
    assert_eq!(back.members[1].user_id, "b");
    assert_eq!(back.members[1].permission, ChannelPermission::ReadOnly);
}

fn meta() -> ResourceMeta {
    ResourceMeta { size: 3, timestamp: ts(5), name: "f".to_string(), metadata: Vec::new() }
}

fn desc(ns: ResourceNamespace, key: &str) -> ResourceDescriptor {
    ResourceDescriptor {
        resource_id: ResourceId { namespace: ns, key: key.to_string() },
        meta: meta(),
        user_id: "u".to_string(),
    }
}

#[test]
fn resource_rows_round_trip() {
    let row: ResourceRow = desc(ResourceNamespace::Channel("c9".to_string()), "k").into_db();
    assert_eq!(row.namespace_type, ResourceNamespaceType::Channel);
    assert_eq!(row.namespace_id, "c9");
    let back = ResourceDescriptor::from_db(row);
    assert_eq!(back.resource_id.namespace, ResourceNamespace::Channel("c9".to_string()));
    let row = desc(ResourceNamespace::UserIcon, "u").into_db();
    assert_eq!(row.namespace_id, "");
    assert_eq!(ResourceDescriptor::from_db(row).resource_id.namespace, ResourceNamespace::UserIcon);
    assert_eq!(ResourceId::default_user_icon().to_display_string(), "aura:default_icon.png");
    assert_eq!(
        ResourceId { namespace: ResourceNamespace::Channel("c".to_string()), key: "k".to_string() }.to_display_string(),
        "channel:c:k"
    );
}

#[test]
fn resource_permissions() {
    let c = Channel {
        channel_id: "c".to_string(),
        name: String::new(),
        description: String::new(),
        members: vec![
            Member { user_id: "w".to_string(), permission: ChannelPermission::ReadWrite },
            Member { user_id: "r".to_string(), permission: ChannelPermission::ReadOnly },
        ],
    };
    let ch = desc(ResourceNamespace::Channel("c".to_string()), "k");
    assert_eq!(is_download_authorized(&desc(ResourceNamespace::Aura, "x"), None, "anyone").unwrap(), true);
    assert_eq!(is_download_authorized(&ch, Some(&c), "r").unwrap(), true);
    assert_eq!(is_download_authorized(&ch, Some(&c), "z").unwrap(), false);
    assert_eq!(is_download_authorized(&ch, None, "r").unwrap_err().message, "Channel not found");
    assert_eq!(is_upload_authorized(&desc(ResourceNamespace::Aura, "x"), None, "w").unwrap(), false);
    assert_eq!(is_upload_authorized(&desc(ResourceNamespace::UserIcon, "w"), None, "w").unwrap(), true);
    assert_eq!(is_upload_authorized(&desc(ResourceNamespace::UserIcon, "w"), None, "r").unwrap(), false);
    assert_eq!(is_upload_authorized(&ch, Some(&c), "w").unwrap(), true);
    assert_eq!(is_upload_authorized(&ch, Some(&c), "r").unwrap(), false);
    assert_eq!(is_upload_authorized(&ch, Some(&c), "z").unwrap_err().message, "User not in channel");
    assert_eq!(check_upload(false).unwrap_err().message, "User does not have write permissions");
    assert_eq!(check_download(None::<u8>, true).unwrap_err().message, "Resource not found");
    assert_eq!(check_download(Some(1), false).unwrap_err().message, "User not permitted");
    assert_eq!(check_meta(Some(1), false).unwrap_err().message, "User not authorized");
    assert_eq!(check_meta(Some(1), true).unwrap(), 1);
}

#[test]
fn resource_paths() {
    let id = ResourceId { namespace: ResourceNamespace::Channel("abc".to_string()), key: "k1".to_string() };
    assert_eq!(build_path("./res", &id), vec!["./res".to_string(), "channel.abc".to_string(), "k1".to_string()]);
    assert_eq!(namespace_dir(&ResourceNamespace::UserIcon), "user_icon");
    assert_eq!(namespace_dir(&ResourceNamespace::Aura), "aura");
}

#[test]
fn upload_stream_protocol() {
    assert_eq!(start_upload(None, "u").unwrap_err().message, "First request must be meta request");
    let e = start_upload(Some(UploadRequest { namespace: None, payload: None }), "u").unwrap_err();
    assert_eq!(e.message, "Namespace not provided");
    let e = start_upload(Some(UploadRequest { namespace: Some(ResourceNamespace::UserIcon), payload: None }), "u").unwrap_err();
    assert_eq!(e.message, "Payload not provided");
    let e = start_upload(
        Some(UploadRequest { namespace: Some(ResourceNamespace::UserIcon), payload: Some(UploadPayload::Data(vec![1])) }),
        "u",
    )
    .unwrap_err();
    assert_eq!(e.message, "First payload must be meta");
    let d = start_upload(
        Some(UploadRequest { namespace: Some(ResourceNamespace::UserIcon), payload: Some(UploadPayload::Meta(meta())) }),
        "u",
    )
    .unwrap();
    assert_eq!(d.resource_id.key.len(), 16);
    assert_eq!(d.meta.size, 3);
    assert_eq!(d.user_id, "u");
    assert_eq!(upload_chunk(UploadRequest { namespace: None, payload: Some(UploadPayload::Data(vec![7])) }).unwrap(), vec![7]);
    let e = upload_chunk(UploadRequest { namespace: None, payload: Some(UploadPayload::Meta(meta())) }).unwrap_err();
    assert_eq!(e.message, "Meta only allowed in first upload request");
}

#[test]
fn default_icon() {
    let chunks = vec![vec![1u8, 2, 3], vec![4u8; 10]];
    let n = chunks_length(&chunks);
    assert_eq!(n, 13);
    let d = default_icon_descriptor("alice", n, ts(3));
    assert_eq!(d.resource_id.namespace, ResourceNamespace::UserIcon);
    assert_eq!(d.resource_id.key, "alice");
    assert_eq!(d.meta.size, 13);
    assert_eq!(d.meta.name, "icon");
    let p = search_profile("a".to_string(), "A".to_string(), UserRole::Admin, ResourceId::default_user_icon(), ts(1), 5, (1i64 << 32) + 2);
    assert_eq!((p.followers, p.following), (5, 2));
}

fn post_row(id: &str) -> PostRow {
    PostRow {
        post_id: id.to_string(),
        author_id: "a".to_string(),
        content: Content::Text("t".to_string()),
        timestamp: ts(2),
        parent_id: None,
    }
}

#[test]
fn posts_are_hydrated() {
    let posts: Vec<Post> = hydrate(
        vec![post_row("p1"), post_row("p2")],
        vec![
            ("p1".to_string(), PostReaction::Like, 3),
            ("p2".to_string(), PostReaction::Dislike, 1),
            ("p1".to_string(), PostReaction::Dislike, 2),
        ],
        vec![("p2".to_string(), PostReaction::Like)],
    );
    assert_eq!(posts[0].reactions, vec![
        ReactionCount { reaction: PostReaction::Like, count: 3 },
        ReactionCount { reaction: PostReaction::Dislike, count: 2 },
    ]);
    assert_eq!(posts[0].reaction, PostReaction::NoReaction);
    assert_eq!(posts[1].reaction, PostReaction::Like);
    assert_eq!(posts[1].reactions.len(), 1);
    let data: PostData = hydrate(vec![post_row("p3")], vec![], vec![]).pop().unwrap().into_db();
    assert_eq!(data.post.post_id, "p3");
    assert!(data.reaction_counts.is_empty());
}

#[test]
fn post_rules() {
    assert!(delete(Some("a"), "a").is_ok());
    assert_eq!(delete(Some("a"), "b").unwrap_err().message, "Only the author of the post can delete it");
    assert_eq!(delete(None, "b").unwrap_err().message, "Post not found");
    assert_eq!(check_not_blocked(true).unwrap_err().message, "User blocked this post author");
    assert!(check_not_blocked(false).is_ok());
    assert_eq!(react(PostReaction::Like, None), Some((PostInteraction::React, true)));
    assert_eq!(react(PostReaction::NoReaction, Some(PostReaction::Like)), Some((PostInteraction::React, false)));
    assert_eq!(react(PostReaction::Dislike, Some(PostReaction::Like)), None);
    assert_eq!(react(PostReaction::NoReaction, None), None);
    assert_eq!(create(ParentLookup::NotFound, 384).unwrap_err().message, "Parent post not found");
    assert_eq!(create(ParentLookup::Found(Some(384)), 384).unwrap(), Some((PostInteraction::Comment, VectorSource::Parent)));
    assert_eq!(create(ParentLookup::Found(Some(0)), 384).unwrap(), None);
    assert_eq!(create(ParentLookup::Found(None), 384).unwrap(), Some((PostInteraction::React, VectorSource::Own)));
    assert_eq!(create(ParentLookup::NoParent, 0).unwrap(), None);
    assert_eq!(PostReaction::from_name("none"), Some(PostReaction::NoReaction));
}

#[test]
fn feed_tally() {
    let r = vec![
        ("p".to_string(), PostReaction::Like),
        ("q".to_string(), PostReaction::Like),
        ("p".to_string(), PostReaction::Dislike),
        ("p".to_string(), PostReaction::Like),
    ];
    assert_eq!(reaction_tally(&r, "p"), (2, 1));
    assert_eq!(reaction_tally(&r, "z"), (0, 0));
}

#[test]
fn database_urls() {
    assert_eq!(database_url("postgres", "pw", "127.0.0.1", 5432), "postgres://postgres:pw@127.0.0.1:5432/aura");
}
