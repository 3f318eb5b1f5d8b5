//! The rules for user accounts: who may be created, followed or blocked, which
//! notifications are kept, and how the stored rows of users make up users.
use crate::error::{failure, outcome, Error, ErrorCode, Failure};
use crate::types::common::Timestamp;
use crate::types::resource::{
    ResourceDescriptor, ResourceId, ResourceMeta, ResourceNamespace,
};
use crate::types::user::{UserProfile, UserRole};
use crate::database::{ChannelMember, ChannelRow, UserRow};
use crate::logic::chat::views;
use crate::types::chat::{member_pairs, Channel, ChannelPermission, ChannelView, Member};
use crate::types::user::{Notification, Notifications, User};
use crate::utils::{is_valid_ident, spec_is_valid_ident, str_eq, validate_item_length};
use vstd::prelude::*;

verus! {

/// The largest number of hours after which notifications can be set to
/// expire: the span in milliseconds must fit a signed 64-bit integer.
pub const MAX_EXPIRATION_HOURS: i64 = 2_562_047_788_015i64;

/// A notification made at least `limit_ms` milliseconds before `now_ms` has
/// expired.
pub open spec fn is_fresh(n: Notification, now_ms: int, limit_ms: int) -> bool {
    now_ms - n.spec_timestamp().spec_millis() < limit_ms
}

/// The notifications that have not expired, in order.
pub open spec fn keep_fresh(s: Seq<Notification>, now_ms: int, limit_ms: int) -> Seq<Notification>
    decreases s.len(),
{
    if s.len() == 0 {
        Seq::empty()
    } else if is_fresh(s.last(), now_ms, limit_ms) {
        keep_fresh(s.drop_last(), now_ms, limit_ms).push(s.last())
    } else {
        keep_fresh(s.drop_last(), now_ms, limit_ms)
    }
}

/// The notifications of a user after new ones arrive at `now`: the stored ones
/// followed by the new ones, without those older than `expiration_hours`.
pub fn push_notifications(
    existing: Notifications,
    new_notifications: Vec<Notification>,
    now: &Timestamp,
    expiration_hours: i64,
) -> (r: Notifications)
    requires
        -MAX_EXPIRATION_HOURS <= expiration_hours <= MAX_EXPIRATION_HOURS,
    ensures
        r.0@ == keep_fresh(
            existing.0@ + new_notifications@,
            now.spec_millis(),
            expiration_hours * 3_600_000,
        ),
{
    let limit = expiration_hours * 60 * 60 * 1000;
    let now_ms = now.millis();
    let mut all = existing.0;
    let mut new_notifications = new_notifications;
    all.append(&mut new_notifications);
    let ghost all_seq = all@;
    let mut kept: Vec<Notification> = Vec::new();
    for n in it: all.into_iter()
        invariant
            it.seq() == all_seq,
            0 <= it.index() <= all_seq.len(),
            now_ms == now.spec_millis(),
            crate::types::common::MIN_TIMESTAMP_SECS * 1000 <= now_ms
                < crate::types::common::MAX_TIMESTAMP_SECS * 1000 + 2000,
            limit == expiration_hours * 3_600_000,
            kept@ == keep_fresh(all_seq.take(it.index() as int), now_ms as int, limit as int),
    {
        proof {
            let k = it.index() as int;
            assert(all_seq.take(k + 1).drop_last() =~= all_seq.take(k));
            assert(all_seq.take(k + 1).last() == n);
        }
        let ts = n.timestamp().millis();
        if now_ms - ts < limit {
            kept.push(n);
        }
    }
    proof {
        assert(all_seq.take(all_seq.len() as int) =~= all_seq);
    }
    Notifications(kept)
}

/// Checks a user about to be created: its id must be an identifier.
pub fn check_new_user_id(user_id: &str) -> (r: Result<(), Error>)
    ensures
        r is Ok <==> spec_is_valid_ident(user_id@),
        r matches Err(e) ==> failure(e) == (ErrorCode::InvalidFormat, "Invalid User ID"@),
{
    if !is_valid_ident(user_id) {
        return Err(Error::invalid_format("Invalid User ID"));
    }
    Ok(())
}

/// The error for a user that breaks a uniqueness constraint of the store,
/// named by the constraint.
pub fn unique_violation(constraint: Option<&str>) -> (e: Error)
    ensures
        e.code == ErrorCode::AlreadyExists,
        constraint matches Some(c) && c@ == "users_email_unique"@ ==> e.message@
            == "Email already registered"@,
        constraint matches Some(c) && c@ == "users_user_id_unique"@ ==> e.message@
            == "User ID already exists"@,
        !(constraint matches Some(c) && (c@ == "users_email_unique"@ || c@
            == "users_user_id_unique"@)) ==> e.message@ == "Database unique constraint violation"@,
{
    proof {
        reveal_strlit("users_email_unique");
        reveal_strlit("users_user_id_unique");
        assert("users_email_unique"@[6] != "users_user_id_unique"@[6]);
    }
    match constraint {
        Some(c) => if str_eq(c, "users_email_unique") {
            Error::already_exists("Email already registered")
        } else if str_eq(c, "users_user_id_unique") {
            Error::already_exists("User ID already exists")
        } else {
            Error::already_exists("Database unique constraint violation")
        },
        None => Error::already_exists("Database unique constraint violation"),
    }
}

/// Who may follow whom: no one follows itself, and only existing users are
/// followed.
pub open spec fn spec_follow(follower: Seq<char>, followed: Seq<char>, exists: bool) -> Result<
    (),
    Failure,
> {
    if follower == followed {
        Err((ErrorCode::InvalidFormat, "You cannot follow yourself"@))
    } else if !exists {
        Err((ErrorCode::NotFound, "User to follow not found"@))
    } else {
        Ok(())
    }
}

/// Checks that `follower_id` may follow `followed_id`; `followed_exists`
/// tells whether that user exists.
pub fn follow(follower_id: &str, followed_id: &str, followed_exists: bool) -> (r: Result<(), Error>)
    ensures
        outcome(r) == spec_follow(follower_id@, followed_id@, followed_exists),
{
    if str_eq(follower_id, followed_id) {
        return Err(Error::invalid_format("You cannot follow yourself"));
    }
    if !followed_exists {
        return Err(Error::not_found("User to follow not found"));
    }
    Ok(())
}

/// Checks that the user to block, unblock or ask about exists.
pub fn block(blocked_exists: bool) -> (r: Result<(), Error>)
    ensures
        r is Ok <==> blocked_exists,
        r matches Err(e) ==> failure(e) == (ErrorCode::NotFound, "User not found"@),
{
    if !blocked_exists {
        return Err(Error::not_found("User not found"));
    }
    Ok(())
}

/// Checks a request for the users with the given ids before the store is
/// asked: it may name no more than `limit` ids (the count taken in 32 bits),
/// and the answer is `true` where there is any id to look up, `false` where the
/// answer is empty without asking.
pub fn check_user_request(user_ids: &[String], limit: u32) -> (r: Result<bool, Error>)
    ensures
        r is Err <==> (user_ids@.len() as u32) > limit,
        r matches Err(e) ==> failure(e) == (ErrorCode::InvalidFormat, "Item length exceeds limit"@),
        r matches Ok(b) ==> b == (user_ids@.len() > 0),
{
    let count = user_ids.len() as u32;
    match validate_item_length(count, limit) {
        Ok(()) => Ok(user_ids.len() > 0),
        Err(e) => Err(e),
    }
}

/// The second parts of the pairs whose first part is `key`, in order.
pub open spec fn values_for(pairs: Seq<(String, String)>, key: Seq<char>) -> Seq<Seq<char>>
    decreases pairs.len(),
{
    if pairs.len() == 0 {
        Seq::empty()
    } else if pairs.last().0@ == key {
        values_for(pairs.drop_last(), key).push(pairs.last().1@)
    } else {
        values_for(pairs.drop_last(), key)
    }
}

/// The members of channel `cid` among the member rows, in order.
pub open spec fn members_for(rows: Seq<ChannelMember>, cid: Seq<char>) -> Seq<
    (Seq<char>, ChannelPermission),
>
    decreases rows.len(),
{
    if rows.len() == 0 {
        Seq::empty()
    } else if rows.last().channel_id@ == cid {
        members_for(rows.drop_last(), cid).push((rows.last().user_id@, rows.last().permission))
    } else {
        members_for(rows.drop_last(), cid)
    }
}

/// The channel that a channel row makes up with the member rows.
pub open spec fn channel_of_row(c: ChannelRow, rows: Seq<ChannelMember>) -> ChannelView {
    ChannelView {
        channel_id: c.channel_id@,
        name: c.name@,
        description: c.description@,
        members: members_for(rows, c.channel_id@),
    }
}

/// The channels of user `uid`, in order, with their members.
pub open spec fn channels_for(
    user_channels: Seq<(String, ChannelRow)>,
    rows: Seq<ChannelMember>,
    uid: Seq<char>,
) -> Seq<ChannelView>
    decreases user_channels.len(),
{
    if user_channels.len() == 0 {
        Seq::empty()
    } else if user_channels.last().0@ == uid {
        channels_for(user_channels.drop_last(), rows, uid).push(
            channel_of_row(user_channels.last().1, rows),
        )
    } else {
        channels_for(user_channels.drop_last(), rows, uid)
    }
}

/// The channels as contracts see them.
pub open spec fn channel_views(s: Seq<Channel>) -> Seq<ChannelView> {
    s.map_values(|c: Channel| c@)
}

/// No user row before row `i` has its user id.
pub open spec fn is_first_row(rows: Seq<UserRow>, i: int) -> bool {
    forall|j: int| 0 <= j < i ==> rows[j].user_id@ != rows[i].user_id@
}

/// What user row `i` makes up with the loaded relations: the fields of the row,
/// and, for the first row of a user id, its channels, followers and followed
/// users; a later row of the same id gets none of them.
pub open spec fn assembled(
    u: User,
    rows: Seq<UserRow>,
    i: int,
    user_channels: Seq<(String, ChannelRow)>,
    members: Seq<ChannelMember>,
    followers: Seq<(String, String)>,
    following: Seq<(String, String)>,
) -> bool {
    let row = rows[i];
    let first = is_first_row(rows, i);
    &&& u.user_id == row.user_id
    &&& u.username == row.username
    &&& u.email == row.email
    &&& u.password == row.password
    &&& u.role == row.role
    &&& u.icon == row.icon
    &&& u.notifications == row.notifications
    &&& u.created_at == row.created_at
    &&& channel_views(u.channels@) == (if first {
        channels_for(user_channels, members, row.user_id@)
    } else {
        Seq::empty()
    })
    &&& views(u.followers@) == (if first {
        values_for(followers, row.user_id@)
    } else {
        Seq::empty()
    })
    &&& views(u.following@) == (if first {
        values_for(following, row.user_id@)
    } else {
        Seq::empty()
    })
}

/// The second parts of the pairs whose first part is `key`, in order.
fn collect_values_for(pairs: &Vec<(String, String)>, key: &str) -> (r: Vec<String>)
    ensures
        views(r@) == values_for(pairs@, key@),
{
    let mut r: Vec<String> = Vec::new();
    let mut i: usize = 0;
    while i < pairs.len()
        invariant
            i <= pairs@.len(),
            views(r@) == values_for(pairs@.take(i as int), key@),
        decreases pairs@.len() - i,
    {
        proof {
            assert(pairs@.take(i + 1).drop_last() =~= pairs@.take(i as int));
        }
        if str_eq(pairs[i].0.as_str(), key) {
            r.push(pairs[i].1.clone());
            proof {
                assert(views(r@) =~= views(r@.drop_last()).push(r@.last()@));
            }
        }
        i = i + 1;
    }
    proof {
        assert(pairs@.take(pairs@.len() as int) =~= pairs@);
    }
    r
}

/// The members of channel `cid` among the member rows, in order.
fn collect_members_for(rows: &Vec<ChannelMember>, cid: &str) -> (r: Vec<Member>)
    ensures
        member_pairs(r@) == members_for(rows@, cid@),
{
    let mut r: Vec<Member> = Vec::new();
    let mut i: usize = 0;
    while i < rows.len()
        invariant
            i <= rows@.len(),
            member_pairs(r@) == members_for(rows@.take(i as int), cid@),
        decreases rows@.len() - i,
    {
        proof {
            assert(rows@.take(i + 1).drop_last() =~= rows@.take(i as int));
        }
        if str_eq(rows[i].channel_id.as_str(), cid) {
            let ghost before = r@;
            r.push(Member { user_id: rows[i].user_id.clone(), permission: rows[i].permission });
            proof {
                assert(member_pairs(r@) =~= member_pairs(before).push(
                    (rows@[i as int].user_id@, rows@[i as int].permission),
                ));
            }
        }
        i = i + 1;
    }
    proof {
        assert(rows@.take(rows@.len() as int) =~= rows@);
    }
    r
}

/// The channels of user `uid`, in order, with their members.
fn collect_channels_for(
    user_channels: &Vec<(String, ChannelRow)>,
    members: &Vec<ChannelMember>,
    uid: &str,
) -> (r: Vec<Channel>)
    ensures
        channel_views(r@) == channels_for(user_channels@, members@, uid@),
{
    let mut r: Vec<Channel> = Vec::new();
    let mut i: usize = 0;
    while i < user_channels.len()
        invariant
            i <= user_channels@.len(),
            channel_views(r@) == channels_for(user_channels@.take(i as int), members@, uid@),
        decreases user_channels@.len() - i,
    {
        proof {
            assert(user_channels@.take(i + 1).drop_last() =~= user_channels@.take(i as int));
        }
        if str_eq(user_channels[i].0.as_str(), uid) {
            let row = &user_channels[i].1;
            let channel = Channel {
                channel_id: row.channel_id.clone(),
                name: row.name.clone(),
                description: row.description.clone(),
                members: collect_members_for(members, row.channel_id.as_str()),
            };
            let ghost before = r@;
            r.push(channel);
            proof {
                assert(channel_views(r@) =~= channel_views(before).push(
                    channel_of_row(user_channels@[i as int].1, members@),
                ));
            }
        }
        i = i + 1;
    }
    proof {
        assert(user_channels@.take(user_channels@.len() as int) =~= user_channels@);
    }
    r
}

/// The users that the loaded rows make up: each user row in order, with the
/// channels it is a member of (and their members), the users following it and
/// the users it follows. Only the first row of a user id gets these.
pub fn get(
    user_rows: Vec<UserRow>,
    user_channels: Vec<(String, ChannelRow)>,
    members: Vec<ChannelMember>,
    followers: Vec<(String, String)>,
    following: Vec<(String, String)>,
) -> (r: Vec<User>)
    ensures
        r@.len() == user_rows@.len(),
        forall|i: int|
            0 <= i < r@.len() ==> assembled(
                #[trigger] r@[i],
                user_rows@,
                i,
                user_channels@,
                members@,
                followers@,
                following@,
            ),
{
    let ghost rows = user_rows@;
    let mut seen: Vec<String> = Vec::new();
    let mut result: Vec<User> = Vec::new();
    for row in it: user_rows.into_iter()
        invariant
            it.seq() == rows,
            0 <= it.index() <= rows.len(),
            result@.len() == it.index(),
            seen@.len() == it.index(),
            views(seen@) == rows.take(it.index() as int).map_values(|u: UserRow| u.user_id@),
            forall|i: int|
                0 <= i < result@.len() ==> assembled(
                    #[trigger] result@[i],
                    rows,
                    i,
                    user_channels@,
                    members@,
                    followers@,
                    following@,
                ),
    {
        let ghost k = it.index() as int;
        let mut first = true;
        let mut j: usize = 0;
        while j < seen.len()
            invariant
                j <= seen@.len(),
                seen@.len() == k,
                0 <= k < rows.len(),
                row == rows[k],
                views(seen@) == rows.take(k).map_values(|u: UserRow| u.user_id@),
                first == (forall|m: int| 0 <= m < j ==> rows[m].user_id@ != rows[k].user_id@),
            decreases seen@.len() - j,
        {
            proof {
                assert(views(seen@)[j as int] == seen@[j as int]@);
                assert(rows.take(k)[j as int] == rows[j as int]);
                assert(rows.take(k).map_values(|u: UserRow| u.user_id@)[j as int]
                    == rows[j as int].user_id@);
            }
            if str_eq(seen[j].as_str(), row.user_id.as_str()) {
                first = false;
            }
            j = j + 1;
        }
        let (channels, user_followers, user_following) = if first {
            (
                collect_channels_for(&user_channels, &members, row.user_id.as_str()),
                collect_values_for(&followers, row.user_id.as_str()),
                collect_values_for(&following, row.user_id.as_str()),
            )
        } else {
            (Vec::new(), Vec::new(), Vec::new())
        };
        proof {
            assert(channel_views(Seq::<Channel>::empty()) =~= Seq::empty());
            assert(views(Seq::<String>::empty()) =~= Seq::empty());
        }
        let ghost before_seen = seen@;
        seen.push(row.user_id.clone());
        proof {
            assert(rows.take(k + 1) =~= rows.take(k).push(row));
            assert(views(seen@) =~= views(before_seen).push(row.user_id@));
            assert(rows.take(k + 1).map_values(|u: UserRow| u.user_id@) =~= rows.take(k).map_values(
                |u: UserRow| u.user_id@,
            ).push(row.user_id@));
        }
        let user = User {
            user_id: row.user_id,
            username: row.username,
            email: row.email,
            password: row.password,
            role: row.role,
            created_at: row.created_at,
            icon: row.icon,
            notifications: row.notifications,
            channels,
            followers: user_followers,
            following: user_following,
        };
        result.push(user);
    }
    result
}

/// The sum of the lengths of the chunks.
pub open spec fn total_len(chunks: Seq<Vec<u8>>) -> nat
    decreases chunks.len(),
{
    if chunks.len() == 0 {
        0
    } else {
        total_len(chunks.drop_last()) + chunks.last()@.len()
    }
}

/// The number of bytes in the chunks read from a file.
pub fn chunks_length(chunks: &Vec<Vec<u8>>) -> (n: usize)
    requires
        total_len(chunks@) <= usize::MAX,
    ensures
        n == total_len(chunks@),
{
    let mut n: usize = 0;
    let mut i: usize = 0;
    while i < chunks.len()
        invariant
            i <= chunks@.len(),
            n == total_len(chunks@.take(i as int)),
            total_len(chunks@) <= usize::MAX,
        decreases chunks@.len() - i,
    {
        proof {
            assert(chunks@.take(i + 1).drop_last() =~= chunks@.take(i as int));
            lemma_total_len_prefix(chunks@, i + 1);
        }
        n = n + chunks[i].len();
        i = i + 1;
    }
    proof {
        assert(chunks@.take(chunks@.len() as int) =~= chunks@);
    }
    n
}

proof fn lemma_total_len_prefix(chunks: Seq<Vec<u8>>, k: int)
    requires
        0 <= k <= chunks.len(),
    ensures
        total_len(chunks.take(k)) <= total_len(chunks),
    decreases chunks.len(),
{
    if k < chunks.len() {
        lemma_total_len_prefix(chunks.drop_last(), k);
        assert(chunks.drop_last().take(k) =~= chunks.take(k));
    } else {
        assert(chunks.take(k) =~= chunks);
    }
}

/// The descriptor of the icon a new user starts with: a copy of the default
/// icon, `length` bytes long, named `icon`, kept under the user's id in the
/// user icon namespace and uploaded by the user.
pub fn default_icon_descriptor(user_id: &str, length: usize, now: Timestamp) -> (d:
    ResourceDescriptor)
    ensures
        d.resource_id.namespace == ResourceNamespace::UserIcon,
        d.resource_id.key@ == user_id@,
        d.meta.size == length as u32,
        d.meta.name@ == "icon"@,
        d.meta.timestamp == now,
        d.meta.metadata@.len() == 0,
        d.user_id@ == user_id@,
{
    ResourceDescriptor {
        resource_id: ResourceId {
            namespace: ResourceNamespace::UserIcon,
            key: String::from_str(user_id),
        },
        meta: ResourceMeta {
            size: length as u32,
            name: String::from_str("icon"),
            timestamp: now,
            metadata: Vec::new(),
        },
        user_id: String::from_str(user_id),
    }
}

/// The profile that a search finds: the columns of the user and its follower
/// and following counts, cut to 32 bits.
pub fn search_profile(
    user_id: String,
    username: String,
    role: UserRole,
    icon: ResourceId,
    created_at: Timestamp,
    followers_count: i64,
    following_count: i64,
) -> (p: UserProfile)
    ensures
        p.user_id == user_id,
        p.username == username,
        p.role == role,
        p.icon == icon,
        p.created_at == created_at,
        p.followers == followers_count as u32,
        p.following == following_count as u32,
{
    UserProfile {
        user_id,
        username,
        role,
        icon,
        created_at,
        followers: followers_count as u32,
        following: following_count as u32,
    }
}

/// The administrator that the server creates when none exists: id and name
/// `admin`, no e-mail, the given password hash, the admin role, and an icon
/// in the user icon namespace under its id.
pub fn admin_user(password_hash: String, now: Timestamp) -> (u: User)
    ensures
        u.user_id@ == "admin"@,
        u.username@ == "admin"@,
        u.email@.len() == 0,
        u.password == password_hash,
        u.role == UserRole::Admin,
        u.created_at == now,
        u.icon.namespace == ResourceNamespace::UserIcon,
        u.icon.key@ == "admin"@,
        u.notifications.0@.len() == 0,
        u.channels@.len() == 0,
        u.followers@.len() == 0,
        u.following@.len() == 0,
{
    User {
        user_id: String::from_str("admin"),
        username: String::from_str("admin"),
        email: String::new(),
        password: password_hash,
        role: UserRole::Admin,
        created_at: now,
        icon: ResourceId { namespace: ResourceNamespace::UserIcon, key: String::from_str("admin") },
        notifications: Notifications(Vec::new()),
        channels: Vec::new(),
        followers: Vec::new(),
        following: Vec::new(),
    }
}

/// What the start-up check of the setup administrator decides.
#[derive(Clone, Copy, Debug, PartialEq, Eq, Structural)]
pub enum AdminSetup {
    /// There is no administrator `admin`: create it.
    Create,
    /// It exists and still has the initial password: warn about it.
    Warn,
    /// It exists and its password has been changed: leave it.
    Keep,
}

/// The decision at start-up: `existing_login` is `None` where there is no
/// user `admin`, else what logging in as `admin` with password `admin` gave.
pub open spec fn spec_create_admin(existing_login: Option<Result<(), Failure>>) -> Result<
    AdminSetup,
    Failure,
> {
    match existing_login {
        None => Ok(AdminSetup::Create),
        Some(Ok(())) => Ok(AdminSetup::Warn),
        Some(Err(f)) => if f.0 == ErrorCode::Unauthorized {
            Ok(AdminSetup::Keep)
        } else {
            Err(f)
        },
    }
}

/// Decides what start-up does about the setup administrator: create it where
/// it is missing; where it exists, warn while its password is still the
/// initial one, leave it where the login is refused, and report any other
/// error of the login.
pub fn create_admin(existing_login: Option<Result<(), Error>>) -> (r: Result<AdminSetup, Error>)
    ensures
        outcome(r) == spec_create_admin(
            match existing_login {
                None => None,
                Some(l) => Some(outcome(l)),
            },
        ),
        existing_login matches Some(Err(e)) ==> (e.code == ErrorCode::Unauthorized || r == Err::<
            AdminSetup,
            Error,
        >(e)),
{
    match existing_login {
        None => Ok(AdminSetup::Create),
        Some(Ok(())) => Ok(AdminSetup::Warn),
        Some(Err(e)) => if e.code == ErrorCode::Unauthorized {
            Ok(AdminSetup::Keep)
        } else {
            Err(e)
        },
    }
}

/// Once the administrator exists, start-up never creates it again, whatever
/// the login gives: running the setup a second time changes nothing.
pub proof fn law_admin_setup_is_idempotent(login: Result<(), Failure>)
    ensures
        spec_create_admin(Some(login)) != Ok::<AdminSetup, Failure>(AdminSetup::Create),
{
}

/// A new account with the given id, name, e-mail and password hash: the user
/// role, created now, the default icon, and no notifications, channels or
/// follows.
pub fn new_account(user_id: String, username: String, email: String, password_hash: String) -> (u:
    User)
    ensures
        u.user_id == user_id,
        u.username == username,
        u.email == email,
        u.password == password_hash,
        u.role == UserRole::User,
        u.icon.namespace == ResourceNamespace::Aura,
        u.icon.key@ == "default_icon.png"@,
        u.notifications.0@.len() == 0,
        u.channels@.len() == 0,
        u.followers@.len() == 0,
        u.following@.len() == 0,
{
    User {
        user_id,
        username,
        email,
        password: password_hash,
        role: UserRole::User,
        created_at: Timestamp::now(),
        icon: ResourceId::default_user_icon(),
        notifications: Notifications(Vec::new()),
        channels: Vec::new(),
        followers: Vec::new(),
        following: Vec::new(),
    }
}

/// The user after an update of its own account: each given field replaces the
/// stored one, and a new password is stored hashed.
pub fn apply_update(
    user: User,
    username: Option<String>,
    email: Option<String>,
    password: Option<String>,
) -> (r: Result<User, Error>)
    ensures
        r is Err ==> (password matches Some(p) && p@.len() > 0x3fff_ffff),
        r matches Err(e) ==> e.code == ErrorCode::Internal,
        r matches Ok(u) ==> {
            &&& u.user_id == user.user_id
            &&& u.username == (match username {
                Some(n) => n,
                None => user.username,
            })
            &&& u.email == (match email {
                Some(m) => m,
                None => user.email,
            })
            &&& (match password {
                Some(p) => crate::auth::spec_check_credentials(Some(u.password@), p@) is Ok,
                None => u.password == user.password,
            })
            &&& u.role == user.role
            &&& u.created_at == user.created_at
            &&& u.icon == user.icon
            &&& u.notifications == user.notifications
            &&& u.channels == user.channels
            &&& u.followers == user.followers
            &&& u.following == user.following
        },
{
    let mut user = user;
    if let Some(n) = username {
        user.username = n;
    }
    if let Some(m) = email {
        user.email = m;
    }
    if let Some(p) = password {
        user.password = crate::auth::hash(p)?;
    }
    Ok(user)
}

} // verus!
