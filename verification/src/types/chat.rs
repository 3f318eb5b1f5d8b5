use crate::types::common::Timestamp;
use crate::types::resource::ResourceId;
use vstd::prelude::*;

verus! {

/// What a member may do in a channel.
#[derive(Clone, Copy, Debug, PartialEq, Eq, Structural)]
pub enum ChannelPermission {
    ReadOnly,
    ReadWrite,
    Manager,
}

impl ChannelPermission {
    /// The permission that an operator names on the console: `read`, `write` or
    /// `manager`.
    pub fn from_name(name: &str) -> (p: Option<ChannelPermission>)
        ensures
            name@ == "read"@ <==> p == Some(ChannelPermission::ReadOnly),
            name@ == "write"@ <==> p == Some(ChannelPermission::ReadWrite),
            name@ == "manager"@ <==> p == Some(ChannelPermission::Manager),
    {
        proof {
            reveal_strlit("read");
            reveal_strlit("write");
            reveal_strlit("manager");
            assert("read"@.len() == 4 && "write"@.len() == 5 && "manager"@.len() == 7);
        }
        if crate::utils::str_eq(name, "read") {
            Some(ChannelPermission::ReadOnly)
        } else if crate::utils::str_eq(name, "write") {
            Some(ChannelPermission::ReadWrite)
        } else if crate::utils::str_eq(name, "manager") {
            Some(ChannelPermission::Manager)
        } else {
            None
        }
    }

    pub open spec fn spec_is_write_authorized(self) -> bool {
        self == ChannelPermission::ReadWrite || self == ChannelPermission::Manager
    }

    /// Whether a member with this permission may post into the channel.
    pub fn is_write_authorized(&self) -> (b: bool)
        ensures
            b == self.spec_is_write_authorized(),
    {
        match self {
            ChannelPermission::ReadWrite | ChannelPermission::Manager => true,
            ChannelPermission::ReadOnly => false,
        }
    }
}

/// One member of a channel and the permission it holds there.
#[derive(Clone, Debug)]
pub struct Member {
    pub user_id: String,
    pub permission: ChannelPermission,
}

/// The members of a channel as a map from user id to permission. Where a user
/// id occurs twice, the later entry wins.
pub open spec fn members_map(s: Seq<Member>) -> Map<Seq<char>, ChannelPermission>
    decreases s.len(),
{
    if s.len() == 0 {
        Map::empty()
    } else {
        members_map(s.drop_last()).insert(s.last().user_id@, s.last().permission)
    }
}

/// No user id occurs twice among the members.
pub open spec fn distinct_members(s: Seq<Member>) -> bool {
    forall|i: int, j: int|
        0 <= i < s.len() && 0 <= j < s.len() && i != j ==> #[trigger] s[i].user_id@
            != #[trigger] s[j].user_id@
}

pub proof fn lemma_members_map_domain(s: Seq<Member>, u: Seq<char>)
    ensures
        members_map(s).contains_key(u) <==> exists|i: int| 0 <= i < s.len() && s[i].user_id@ == u,
    decreases s.len(),
{
    if s.len() > 0 {
        lemma_members_map_domain(s.drop_last(), u);
        if exists|i: int| 0 <= i < s.len() && s[i].user_id@ == u {
            let i = choose|i: int| 0 <= i < s.len() && s[i].user_id@ == u;
            if i < s.len() - 1 {
                assert(s.drop_last()[i] == s[i]);
            }
        }
        if exists|i: int| 0 <= i < s.drop_last().len() && s.drop_last()[i].user_id@ == u {
            let i = choose|i: int| 0 <= i < s.drop_last().len() && s.drop_last()[i].user_id@ == u;
            assert(s[i] == s.drop_last()[i]);
        }
    }
}

pub proof fn lemma_members_map_value(s: Seq<Member>, i: int)
    requires
        distinct_members(s),
        0 <= i < s.len(),
    ensures
        members_map(s).contains_key(s[i].user_id@),
        members_map(s)[s[i].user_id@] == s[i].permission,
    decreases s.len(),
{
    if i < s.len() - 1 {
        let t = s.drop_last();
        assert(t[i] == s[i]);
        assert(distinct_members(t)) by {
            assert forall|a: int, b: int|
                0 <= a < t.len() && 0 <= b < t.len() && a != b implies #[trigger] t[a].user_id@
                != #[trigger] t[b].user_id@ by {
                assert(t[a] == s[a] && t[b] == s[b]);
            }
        }
        lemma_members_map_value(t, i);
        assert(s[i].user_id@ != s.last().user_id@);
    }
}

pub proof fn lemma_members_map_push(s: Seq<Member>, m: Member)
    ensures
        members_map(s.push(m)) == members_map(s).insert(m.user_id@, m.permission),
{
    assert(s.push(m).drop_last() =~= s);
}

pub proof fn lemma_distinct_push(s: Seq<Member>, m: Member)
    requires
        distinct_members(s),
        forall|i: int| 0 <= i < s.len() ==> s[i].user_id@ != m.user_id@,
    ensures
        distinct_members(s.push(m)),
{
    let t = s.push(m);
    assert forall|a: int, b: int|
        0 <= a < t.len() && 0 <= b < t.len() && a != b implies #[trigger] t[a].user_id@
        != #[trigger] t[b].user_id@ by {
        if a < s.len() {
            assert(t[a] == s[a]);
        }
        if b < s.len() {
            assert(t[b] == s[b]);
        }
    }
}

pub proof fn lemma_members_map_remove(s: Seq<Member>, i: int)
    requires
        distinct_members(s),
        0 <= i < s.len(),
    ensures
        members_map(s.remove(i)) == members_map(s).remove(s[i].user_id@),
        distinct_members(s.remove(i)),
    decreases s.len(),
{
    let r = s.remove(i);
    assert(distinct_members(r)) by {
        assert forall|a: int, b: int|
            0 <= a < r.len() && 0 <= b < r.len() && a != b implies #[trigger] r[a].user_id@
            != #[trigger] r[b].user_id@ by {
            let a2 = if a < i { a } else { a + 1 };
            let b2 = if b < i { b } else { b + 1 };
            assert(r[a] == s[a2] && r[b] == s[b2]);
        }
    }
    if i == s.len() - 1 {
        assert(r =~= s.drop_last());
        lemma_members_map_domain(s.drop_last(), s[i].user_id@);
        assert(!members_map(s.drop_last()).contains_key(s[i].user_id@)) by {
            if members_map(s.drop_last()).contains_key(s[i].user_id@) {
                let j = choose|j: int|
                    0 <= j < s.drop_last().len() && s.drop_last()[j].user_id@ == s[i].user_id@;
                assert(s.drop_last()[j] == s[j]);
            }
        }
        assert(members_map(r) =~= members_map(s).remove(s[i].user_id@));
    } else {
        let t = s.drop_last();
        assert(distinct_members(t)) by {
            assert forall|a: int, b: int|
                0 <= a < t.len() && 0 <= b < t.len() && a != b implies #[trigger] t[a].user_id@
                != #[trigger] t[b].user_id@ by {
                assert(t[a] == s[a] && t[b] == s[b]);
            }
        }
        assert(t[i] == s[i]);
        lemma_members_map_remove(t, i);
        assert(r.drop_last() =~= t.remove(i));
        assert(r.last() == s.last());
        assert(s[i].user_id@ != s.last().user_id@);
        assert(members_map(r) =~= members_map(s).remove(s[i].user_id@));
    }
}

pub proof fn lemma_members_map_update(s: Seq<Member>, i: int, m: Member)
    requires
        distinct_members(s),
        0 <= i < s.len(),
        m.user_id@ == s[i].user_id@,
    ensures
        members_map(s.update(i, m)) == members_map(s).insert(m.user_id@, m.permission),
        distinct_members(s.update(i, m)),
    decreases s.len(),
{
    let r = s.update(i, m);
    assert(distinct_members(r)) by {
        assert forall|a: int, b: int|
            0 <= a < r.len() && 0 <= b < r.len() && a != b implies #[trigger] r[a].user_id@
            != #[trigger] r[b].user_id@ by {
            assert(r[a].user_id@ == s[a].user_id@);
            assert(r[b].user_id@ == s[b].user_id@);
        }
    }
    if i == s.len() - 1 {
        assert(r.drop_last() =~= s.drop_last());
        assert(members_map(r) =~= members_map(s).insert(m.user_id@, m.permission));
    } else {
        let t = s.drop_last();
        assert(distinct_members(t)) by {
            assert forall|a: int, b: int|
                0 <= a < t.len() && 0 <= b < t.len() && a != b implies #[trigger] t[a].user_id@
                != #[trigger] t[b].user_id@ by {
                assert(t[a] == s[a] && t[b] == s[b]);
            }
        }
        lemma_members_map_update(t, i, m);
        assert(r.drop_last() =~= t.update(i, m));
        assert(r.last() == s.last());
        assert(s[i].user_id@ != s.last().user_id@);
        assert(members_map(r) =~= members_map(s).insert(m.user_id@, m.permission));
    }
}

/// A chat channel with its members.
#[derive(Clone, Debug)]
pub struct Channel {
    pub channel_id: String,
    pub name: String,
    pub description: String,
    pub members: Vec<Member>,
}

/// A channel as a contract sees it.
pub struct ChannelView {
    pub channel_id: Seq<char>,
    pub name: Seq<char>,
    pub description: Seq<char>,
    pub members: Seq<(Seq<char>, ChannelPermission)>,
}

/// The members in order, each as its user id and permission.
pub open spec fn member_pairs(s: Seq<Member>) -> Seq<(Seq<char>, ChannelPermission)> {
    s.map_values(|m: Member| (m.user_id@, m.permission))
}

impl View for Channel {
    type V = ChannelView;

    open spec fn view(&self) -> ChannelView {
        ChannelView {
            channel_id: self.channel_id@,
            name: self.name@,
            description: self.description@,
            members: member_pairs(self.members@),
        }
    }
}

impl Channel {
    /// The members of the channel, as a map from user id to permission.
    pub open spec fn member_map(&self) -> Map<Seq<char>, ChannelPermission> {
        members_map(self.members@)
    }

    /// Every user occurs at most once among the members.
    pub open spec fn wf(&self) -> bool {
        distinct_members(self.members@)
    }

    /// The permission of the given user in this channel, if the user is a member.
    pub fn member_permission(&self, user_id: &str) -> (p: Option<ChannelPermission>)
        requires
            self.wf(),
        ensures
            p == (if self.member_map().contains_key(user_id@) {
                Some(self.member_map()[user_id@])
            } else {
                None
            }),
    {
        match self.find_member(user_id) {
            Some(i) => Some(self.members[i].permission),
            None => None,
        }
    }

    /// The position of the given user among the members, if it is one.
    pub fn find_member(&self, user_id: &str) -> (r: Option<usize>)
        requires
            self.wf(),
        ensures
            r matches Some(i) ==> i < self.members@.len() && self.members@[i as int].user_id@
                == user_id@ && self.member_map().contains_key(user_id@) && self.member_map()[user_id@]
                == self.members@[i as int].permission,
            r is None ==> !self.member_map().contains_key(user_id@),
            r is None <==> !self.member_map().contains_key(user_id@),
    {
        let mut i: usize = 0;
        while i < self.members.len()
            invariant
                self.wf(),
                i <= self.members@.len(),
                forall|j: int| 0 <= j < i ==> self.members@[j].user_id@ != user_id@,
            decreases self.members@.len() - i,
        {
            if crate::utils::str_eq(self.members[i].user_id.as_str(), user_id) {
                proof {
                    lemma_members_map_value(self.members@, i as int);
                }
                return Some(i);
            }
            i = i + 1;
        }
        proof {
            lemma_members_map_domain(self.members@, user_id@);
        }
        None
    }

    /// Whether every user occurs at most once among the members.
    pub fn has_distinct_members(&self) -> (b: bool)
        ensures
            b == self.wf(),
    {
        let n = self.members.len();
        let mut i: usize = 0;
        while i < n
            invariant
                n == self.members@.len(),
                i <= n,
                forall|a: int, b: int|
                    0 <= a < i && 0 <= b < n && a != b ==> #[trigger] self.members@[a].user_id@
                        != #[trigger] self.members@[b].user_id@,
            decreases n - i,
        {
            let mut j: usize = 0;
            while j < n
                invariant
                    n == self.members@.len(),
                    i < n,
                    j <= n,
                    forall|a: int, b: int|
                        0 <= a < i && 0 <= b < n && a != b ==> #[trigger] self.members@[a].user_id@
                            != #[trigger] self.members@[b].user_id@,
                    forall|b: int| 0 <= b < j && b != i ==> self.members@[i as int].user_id@
                        != #[trigger] self.members@[b].user_id@,
                decreases n - j,
            {
                if j != i && crate::utils::str_eq(
                    self.members[i].user_id.as_str(),
                    self.members[j].user_id.as_str(),
                ) {
                    return false;
                }
                j = j + 1;
            }
            i = i + 1;
        }
        true
    }

    /// Whether the given user is a member of the channel.
    pub fn contains_member(&self, user_id: &str) -> (b: bool)
        requires
            self.wf(),
        ensures
            b == self.member_map().contains_key(user_id@),
    {
        self.find_member(user_id).is_some()
    }
}

/// A message posted into a channel.
#[derive(Clone, Debug)]
pub struct Message {
    pub message_id: String,
    pub channel_id: String,
    pub user_id: String,
    pub content: Content,
    pub created_at: Timestamp,
}

/// The content of a message or a post: a text or an uploaded resource.
#[derive(Clone, Debug)]
pub enum Content {
    Text(String),
    Resource(ResourceId),
}

impl Content {
    /// The text of the content, where it is a text.
    pub fn as_text(&self) -> (t: Option<&str>)
        ensures
            match self {
                Content::Text(s) => t matches Some(x) && x@ == s@,
                Content::Resource(_) => t is None,
            },
    {
        match self {
            Content::Text(s) => Some(s.as_str()),
            Content::Resource(_) => None,
        }
    }
}

} // verus!
