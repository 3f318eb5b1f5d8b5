//! The rows in which the store keeps channels, users, posts and resources, and
//! how they make up the domain types and back. JSON columns arrive decoded.
use crate::types::chat::{member_pairs, Channel, ChannelPermission, ChannelView, Content, Member};
use crate::types::common::Timestamp;
use crate::types::posting::{Post, PostReaction, ReactionCount};
use crate::types::resource::{
    spec_namespace_from_db, spec_namespace_id, spec_namespace_type, ResourceDescriptor, ResourceId, ResourceMeta,
    ResourceNamespace, ResourceNamespaceType,
};
use crate::types::user::{Notifications, User, UserRole};
use crate::serde_duration::{decimal, u64_to_decimal};
use vstd::prelude::*;

verus! {

/// The URL of the `aura` database on the given server, with the given
/// credentials.
pub fn database_url(user: &str, password: &str, host: &str, port: u16) -> (url: String)
    ensures
        url@ == "postgres://"@ + user@ + ":"@ + password@ + "@"@ + host@ + ":"@ + decimal(
            port as nat,
        ) + "/aura"@,
{
    let mut url = String::from_str("postgres://");
    url.append(user);
    url.append(":");
    url.append(password);
    url.append("@");
    url.append(host);
    url.append(":");
    let p = u64_to_decimal(port as u64);
    url.append(p.as_str());
    url.append("/aura");
    url
}

/// A row of the channel table.
#[derive(Debug)]
pub struct ChannelRow {
    pub channel_id: String,
    pub name: String,
    pub description: String,
}

/// A row of the channel member table: a user and its permission in a channel.
#[derive(Debug)]
pub struct ChannelMember {
    pub channel_id: String,
    pub user_id: String,
    pub permission: ChannelPermission,
}

/// A channel row with the rows of its members.
#[derive(Debug)]
pub struct ChannelData {
    pub channel: ChannelRow,
    pub members: Vec<ChannelMember>,
}

/// A channel row and its member rows as a contract sees them; each member row
/// is its channel id, user id and permission.
pub struct ChannelDataView {
    pub channel_id: Seq<char>,
    pub name: Seq<char>,
    pub description: Seq<char>,
    pub members: Seq<(Seq<char>, Seq<char>, ChannelPermission)>,
}

impl View for ChannelData {
    type V = ChannelDataView;

    open spec fn view(&self) -> ChannelDataView {
        ChannelDataView {
            channel_id: self.channel.channel_id@,
            name: self.channel.name@,
            description: self.channel.description@,
            members: self.members@.map_values(
                |m: ChannelMember| (m.channel_id@, m.user_id@, m.permission),
            ),
        }
    }
}

/// The rows that store a channel: one channel row and one member row per
/// member, in order, each naming the channel.
pub open spec fn spec_channel_into_db(c: ChannelView) -> ChannelDataView {
    ChannelDataView {
        channel_id: c.channel_id,
        name: c.name,
        description: c.description,
        members: c.members.map_values(
            |m: (Seq<char>, ChannelPermission)| (c.channel_id, m.0, m.1),
        ),
    }
}

/// The channel that rows make up: the members are the user ids and
/// permissions of the member rows, in order.
pub open spec fn spec_channel_from_db(d: ChannelDataView) -> ChannelView {
    ChannelView {
        channel_id: d.channel_id,
        name: d.name,
        description: d.description,
        members: d.members.map_values(
            |r: (Seq<char>, Seq<char>, ChannelPermission)| (r.1, r.2),
        ),
    }
}

/// Storing a channel as rows and reading the rows back gives the same channel.
pub proof fn law_channel_db_round_trip(c: ChannelView)
    ensures
        spec_channel_from_db(spec_channel_into_db(c)) == c,
{
    assert(spec_channel_from_db(spec_channel_into_db(c)).members =~= c.members);
}

/// The member rows, each as its user id and permission.
pub open spec fn row_pairs(s: Seq<ChannelMember>) -> Seq<(Seq<char>, ChannelPermission)> {
    s.map_values(|m: ChannelMember| (m.user_id@, m.permission))
}

impl Channel {
    /// The channel that a channel row and its member rows make up.
    pub fn from_db(value: ChannelData) -> (c: Channel)
        ensures
            c@.channel_id == value.channel.channel_id@,
            c@.name == value.channel.name@,
            c@.description == value.channel.description@,
            c@.members == row_pairs(value.members@),
            c@ == spec_channel_from_db(value@),
    {
        let mut members: Vec<Member> = Vec::new();
        let ghost rows = value.members@;
        for m in it: value.members.into_iter()
            invariant
                it.seq() == rows,
                member_pairs(members@) == row_pairs(rows.take(it.index() as int)),
        {
            let ghost k = it.index() as int;
            let ghost mv = m;
            let ghost before = members@;
            proof {
                assert(rows.take(k + 1) =~= rows.take(k).push(m));
            }
            members.push(Member { user_id: m.user_id, permission: m.permission });
            proof {
                assert(member_pairs(members@) =~= member_pairs(before).push(
                    (mv.user_id@, mv.permission),
                ));
                assert(row_pairs(rows.take(k + 1)) =~= row_pairs(rows.take(k)).push(
                    (mv.user_id@, mv.permission),
                ));
            }
        }
        proof {
            assert(rows.take(rows.len() as int) =~= rows);
        }
        let c = Channel {
            channel_id: value.channel.channel_id,
            name: value.channel.name,
            description: value.channel.description,
            members,
        };
        proof {
            assert(c@.members =~= spec_channel_from_db(value@).members);
        }
        c
    }

    /// The channel row and the member rows that store the channel.
    pub fn into_db(self) -> (d: ChannelData)
        ensures
            d.channel.channel_id@ == self@.channel_id,
            d.channel.name@ == self@.name,
            d.channel.description@ == self@.description,
            row_pairs(d.members@) == self@.members,
            forall|i: int| 0 <= i < d.members@.len() ==> #[trigger] d.members@[i].channel_id@
                == self@.channel_id,
            d@ == spec_channel_into_db(self@),
    {
        let mut rows: Vec<ChannelMember> = Vec::new();
        let ghost members = self.members@;
        let channel_id = self.channel_id;
        for m in it: self.members.into_iter()
            invariant
                it.seq() == members,
                row_pairs(rows@) == member_pairs(members.take(it.index() as int)),
                forall|i: int| 0 <= i < rows@.len() ==> #[trigger] rows@[i].channel_id@
                    == channel_id@,
        {
            let ghost k = it.index() as int;
            let ghost mv = m;
            let ghost before = rows@;
            proof {
                assert(members.take(k + 1) =~= members.take(k).push(m));
            }
            rows.push(
                ChannelMember {
                    channel_id: channel_id.clone(),
                    user_id: m.user_id,
                    permission: m.permission,
                },
            );
            proof {
                assert(row_pairs(rows@) =~= row_pairs(before).push((mv.user_id@, mv.permission)));
                assert(member_pairs(members.take(k + 1)) =~= member_pairs(members.take(k)).push(
                    (mv.user_id@, mv.permission),
                ));
            }
        }
        proof {
            assert(members.take(members.len() as int) =~= members);
        }
        let d = ChannelData {
            channel: ChannelRow { channel_id, name: self.name, description: self.description },
            members: rows,
        };
        proof {
            assert forall|i: int| 0 <= i < d@.members.len() implies d@.members[i]
                == spec_channel_into_db(self@).members[i] by {
                assert(row_pairs(rows@)[i] == member_pairs(members)[i]);
            }
            assert(d@.members =~= spec_channel_into_db(self@).members);
        }
        d
    }
}

/// A row of the user table, with its icon and notifications decoded.
#[derive(Debug)]
pub struct UserRow {
    pub user_id: String,
    pub username: String,
    pub email: String,
    pub password: String,
    pub role: UserRole,
    pub icon: ResourceId,
    pub notifications: Notifications,
    pub created_at: Timestamp,
}

/// A row of the block table: `user_id` blocked `blocked_user_id`.
#[derive(Debug)]
pub struct UserBlock {
    pub user_id: String,
    pub blocked_user_id: String,
}

/// A row of the follow table: `follower_id` follows `followed_id` since
/// `created_at`.
#[derive(Debug)]
pub struct UserFollow {
    pub follower_id: String,
    pub followed_id: String,
    pub created_at: Timestamp,
}

/// A user row with the channels of the user and whom it follows and is
/// followed by.
#[derive(Debug)]
pub struct UserData {
    pub user: UserRow,
    pub channels: Vec<ChannelData>,
    pub followers: Vec<String>,
    pub following: Vec<String>,
}

impl User {
    /// The user that a user row and its relation rows make up.
    pub fn from_db(value: UserData) -> (u: User)
        ensures
            u.user_id == value.user.user_id,
            u.username == value.user.username,
            u.email == value.user.email,
            u.password == value.user.password,
            u.role == value.user.role,
            u.created_at == value.user.created_at,
            u.icon == value.user.icon,
            u.notifications == value.user.notifications,
            u.channels@.len() == value.channels@.len(),
            forall|i: int|
                0 <= i < u.channels@.len() ==> #[trigger] u.channels@[i]@ == spec_channel_from_db(
                    value.channels@[i]@,
                ),
            u.followers == value.followers,
            u.following == value.following,
    {
        let ghost rows = value.channels@;
        let mut channels: Vec<Channel> = Vec::new();
        for d in it: value.channels.into_iter()
            invariant
                it.seq() == rows,
                channels@.len() == it.index(),
                forall|i: int|
                    0 <= i < channels@.len() ==> #[trigger] channels@[i]@ == spec_channel_from_db(
                        rows[i]@,
                    ),
        {
            channels.push(Channel::from_db(d));
        }
        User {
            user_id: value.user.user_id,
            username: value.user.username,
            email: value.user.email,
            password: value.user.password,
            role: value.user.role,
            created_at: value.user.created_at,
            icon: value.user.icon,
            notifications: value.user.notifications,
            channels,
            followers: value.followers,
            following: value.following,
        }
    }

    /// The user row and the relation rows that store the user.
    pub fn into_db(self) -> (d: UserData)
        ensures
            d.user.user_id == self.user_id,
            d.user.username == self.username,
            d.user.email == self.email,
            d.user.password == self.password,
            d.user.role == self.role,
            d.user.created_at == self.created_at,
            d.user.icon == self.icon,
            d.user.notifications == self.notifications,
            d.channels@.len() == self.channels@.len(),
            forall|i: int|
                0 <= i < d.channels@.len() ==> #[trigger] d.channels@[i]@ == spec_channel_into_db(
                    self.channels@[i]@,
                ),
            d.followers == self.followers,
            d.following == self.following,
    {
        let ghost cs = self.channels@;
        let mut channels: Vec<ChannelData> = Vec::new();
        for c in it: self.channels.into_iter()
            invariant
                it.seq() == cs,
                channels@.len() == it.index(),
                forall|i: int|
                    0 <= i < channels@.len() ==> #[trigger] channels@[i]@ == spec_channel_into_db(
                        cs[i]@,
                    ),
        {
            channels.push(c.into_db());
        }
        UserData {
            user: UserRow {
                user_id: self.user_id,
                username: self.username,
                email: self.email,
                password: self.password,
                role: self.role,
                icon: self.icon,
                notifications: self.notifications,
                created_at: self.created_at,
            },
            channels,
            followers: self.followers,
            following: self.following,
        }
    }
}

/// A row of the post table, with its content decoded.
#[derive(Debug)]
pub struct PostRow {
    pub post_id: String,
    pub author_id: String,
    pub content: Content,
    pub timestamp: Timestamp,
    pub parent_id: Option<String>,
}

/// A row of the reaction table: how `user_id` reacted to `post_id`.
#[derive(Debug)]
pub struct PostReactionRow {
    pub post_id: String,
    pub user_id: String,
    pub reaction: PostReaction,
}

/// A post row with its reaction counts and the reaction of the user who asks.
#[derive(Debug)]
pub struct PostData {
    pub post: PostRow,
    pub reaction_counts: Vec<(PostReaction, i64)>,
    pub user_reaction: PostReaction,
}

/// The reaction counts of the store, each cut to 32 bits.
pub open spec fn counts_view(s: Seq<(PostReaction, i64)>) -> Seq<ReactionCount> {
    s.map_values(|p: (PostReaction, i64)| ReactionCount { reaction: p.0, count: p.1 as u32 })
}

/// Storing the reaction counts of a post and reading them back gives the same
/// counts, in the same order.
pub proof fn law_post_counts_round_trip(reactions: Seq<ReactionCount>)
    ensures
        counts_view(reactions.map_values(|r: ReactionCount| (r.reaction, r.count as i64)))
            == reactions,
{
    let back = counts_view(reactions.map_values(|r: ReactionCount| (r.reaction, r.count as i64)));
    assert forall|i: int| 0 <= i < reactions.len() implies back[i] == reactions[i] by {
        let c = reactions[i].count;
        assert((c as i64) as u32 == c);
    }
    assert(back =~= reactions);
}

impl Post {
    /// The post row, counts and reaction of the asking user that store the
    /// post.
    pub fn into_db(self) -> (d: PostData)
        ensures
            d.post.post_id == self.post_id,
            d.post.author_id == self.author_id,
            d.post.content == self.content,
            d.post.timestamp == self.timestamp,
            d.post.parent_id == self.parent,
            d.reaction_counts@ == self.reactions@.map_values(
                |r: ReactionCount| (r.reaction, r.count as i64),
            ),
            d.user_reaction == self.reaction,
    {
        let mut counts: Vec<(PostReaction, i64)> = Vec::new();
        let mut i: usize = 0;
        while i < self.reactions.len()
            invariant
                i <= self.reactions@.len(),
                counts@ == self.reactions@.take(i as int).map_values(
                    |r: ReactionCount| (r.reaction, r.count as i64),
                ),
            decreases self.reactions@.len() - i,
        {
            let r = self.reactions[i];
            counts.push((r.reaction, r.count as i64));
            proof {
                assert(counts@ =~= self.reactions@.take(i + 1).map_values(
                    |r: ReactionCount| (r.reaction, r.count as i64),
                ));
            }
            i = i + 1;
        }
        proof {
            assert(self.reactions@.take(self.reactions@.len() as int) =~= self.reactions@);
        }
        PostData {
            post: PostRow {
                post_id: self.post_id,
                author_id: self.author_id,
                content: self.content,
                timestamp: self.timestamp,
                parent_id: self.parent,
            },
            reaction_counts: counts,
            user_reaction: self.reaction,
        }
    }

    /// The post that a post row and its counts make up.
    pub fn from_db(value: PostData) -> (p: Post)
        ensures
            p.post_id == value.post.post_id,
            p.author_id == value.post.author_id,
            p.content == value.post.content,
            p.timestamp == value.post.timestamp,
            p.parent == value.post.parent_id,
            p.reactions@ == counts_view(value.reaction_counts@),
            p.reaction == value.user_reaction,
    {
        let mut reactions: Vec<ReactionCount> = Vec::new();
        let mut i: usize = 0;
        while i < value.reaction_counts.len()
            invariant
                i <= value.reaction_counts@.len(),
                reactions@ == counts_view(value.reaction_counts@.take(i as int)),
            decreases value.reaction_counts@.len() - i,
        {
            let (r, c) = value.reaction_counts[i];
            reactions.push(ReactionCount { reaction: r, count: c as u32 });
            proof {
                assert(reactions@ =~= counts_view(value.reaction_counts@.take(i + 1)));
            }
            i = i + 1;
        }
        proof {
            assert(value.reaction_counts@.take(value.reaction_counts@.len() as int)
                =~= value.reaction_counts@);
        }
        Post {
            post_id: value.post.post_id,
            author_id: value.post.author_id,
            content: value.post.content,
            timestamp: value.post.timestamp,
            parent: value.post.parent_id,
            reactions,
            reaction: value.user_reaction,
        }
    }
}

/// A row of the resource table: the namespace kind and id, the key, the
/// metadata and the uploader.
#[derive(Debug)]
pub struct ResourceRow {
    pub namespace_type: ResourceNamespaceType,
    pub namespace_id: String,
    pub key: String,
    pub meta: ResourceMeta,
    pub user_id: String,
}

impl ResourceDescriptor {
    /// The descriptor that a resource row stores.
    pub fn from_db(value: ResourceRow) -> (d: ResourceDescriptor)
        ensures
            d.resource_id.namespace@ == spec_namespace_from_db(
                value.namespace_type,
                value.namespace_id@,
            ),
            d.resource_id.key == value.key,
            d.meta == value.meta,
            d.user_id == value.user_id,
    {
        let namespace = ResourceNamespace::from_db(value.namespace_type, value.namespace_id);
        ResourceDescriptor {
            resource_id: ResourceId { namespace, key: value.key },
            meta: value.meta,
            user_id: value.user_id,
        }
    }

    /// The resource row that stores the descriptor.
    pub fn into_db(self) -> (r: ResourceRow)
        ensures
            r.namespace_type == spec_namespace_type(self.resource_id.namespace),
            r.namespace_id@ == spec_namespace_id(self.resource_id.namespace),
            r.key == self.resource_id.key,
            r.meta == self.meta,
            r.user_id == self.user_id,
    {
        let namespace_type = ResourceNamespaceType::from_namespace(&self.resource_id.namespace);
        let namespace_id = self.resource_id.namespace.namespace_id();
        ResourceRow {
            namespace_type,
            namespace_id,
            key: self.resource_id.key,
            meta: self.meta,
            user_id: self.user_id,
        }
    }
}

} // verus!
