//! The membership rules of channels. Each operation looks at the channel as it
//! is stored (its members and their permissions) and either refuses with an
//! error or answers with the one change to the membership that the store then
//! makes.
use crate::error::{failure, outcome, Error, ErrorCode, Failure};
use crate::types::chat::{
    lemma_distinct_push, lemma_members_map_domain, lemma_members_map_push,
    lemma_members_map_remove, lemma_members_map_update, lemma_members_map_value, Channel,
    ChannelPermission, Member, Message,
};
use crate::utils::str_eq;
use vstd::prelude::*;

verus! {

/// The members of a channel as the rules see them: user id to permission.
pub type Members = Map<Seq<char>, ChannelPermission>;

/// A change of the membership of a channel, as a contract sees it.
pub enum ChangeView {
    Add(Seq<char>, ChannelPermission),
    Remove(Seq<char>),
    SetPermission(Seq<char>, ChannelPermission),
}

/// A change of the membership of a channel.
#[derive(Debug)]
pub enum MemberChange {
    /// The user joins with the given permission.
    Add { user_id: String, permission: ChannelPermission },
    /// The user leaves.
    Remove { user_id: String },
    /// The member's permission becomes the given one.
    SetPermission { user_id: String, permission: ChannelPermission },
}

impl View for MemberChange {
    type V = ChangeView;

    open spec fn view(&self) -> ChangeView {
        match self {
            MemberChange::Add { user_id, permission } => ChangeView::Add(user_id@, *permission),
            MemberChange::Remove { user_id } => ChangeView::Remove(user_id@),
            MemberChange::SetPermission { user_id, permission } => ChangeView::SetPermission(
                user_id@,
                *permission,
            ),
        }
    }
}

/// A result of a membership operation as a contract sees it.
pub open spec fn change_outcome(r: Result<MemberChange, Error>) -> Result<ChangeView, Failure> {
    match r {
        Ok(c) => Ok(c@),
        Err(e) => Err(failure(e)),
    }
}

/// The membership after a change.
pub open spec fn apply_change(m: Members, c: ChangeView) -> Members {
    match c {
        ChangeView::Add(u, p) => m.insert(u, p),
        ChangeView::Remove(u) => m.remove(u),
        ChangeView::SetPermission(u, p) => m.insert(u, p),
    }
}

/// A change that fits the membership: one adds a user who is not a member, the
/// others touch a member.
pub open spec fn change_applies(m: Members, c: ChangeView) -> bool {
    match c {
        ChangeView::Add(u, _) => !m.contains_key(u),
        ChangeView::Remove(u) => m.contains_key(u),
        ChangeView::SetPermission(u, _) => m.contains_key(u),
    }
}

/// The members of a channel that may be missing.
pub open spec fn members_of(channel: Option<&Channel>) -> Option<Members> {
    match channel {
        Some(c) => Some(c.member_map()),
        None => None,
    }
}

/// A channel that may be missing is well formed where it is there.
pub open spec fn channel_wf(channel: Option<&Channel>) -> bool {
    match channel {
        Some(c) => c.wf(),
        None => true,
    }
}

/// Some member other than `u` is a manager.
pub open spec fn has_other_manager(m: Members, u: Seq<char>) -> bool {
    exists|k: Seq<char>| m.contains_key(k) && k != u && m[k] == ChannelPermission::Manager
}

/// Some member is a manager.
pub open spec fn has_manager(m: Members) -> bool {
    exists|k: Seq<char>| m.contains_key(k) && m[k] == ChannelPermission::Manager
}

/// The permission of a user in a channel; a missing channel has no members.
pub open spec fn spec_member_perm(ch: Option<Members>, u: Seq<char>) -> Result<
    ChannelPermission,
    Failure,
> {
    match ch {
        Some(m) => if m.contains_key(u) {
            Ok(m[u])
        } else {
            Err((ErrorCode::NotFound, "User not in channel"@))
        },
        None => Err((ErrorCode::NotFound, "User not in channel"@)),
    }
}

/// Who may delete a channel: a manager of an existing channel.
pub open spec fn spec_delete_channel(ch: Option<Members>, u: Seq<char>) -> Result<(), Failure> {
    match ch {
        None => Err((ErrorCode::NotFound, "Channel not found"@)),
        Some(m) => match spec_member_perm(ch, u) {
            Err(f) => Err(f),
            Ok(p) => if p != ChannelPermission::Manager {
                Err((ErrorCode::Restricted, "Only channel managers can delete a channel"@))
            } else {
                Ok(())
            },
        },
    }
}

/// What an invitation of `t` by `u` does: a manager adds an existing user who
/// is not yet a member, with the right to write.
pub open spec fn spec_invite(ch: Option<Members>, u: Seq<char>, t: Seq<char>, t_exists: bool) -> Result<
    ChangeView,
    Failure,
> {
    match ch {
        None => Err((ErrorCode::NotFound, "Channel not found"@)),
        Some(m) => match spec_member_perm(ch, u) {
            Err(f) => Err(f),
            Ok(p) => if p != ChannelPermission::Manager {
                Err((ErrorCode::Restricted, "Only channel managers can invite users"@))
            } else if !t_exists {
                Err((ErrorCode::NotFound, "User not found"@))
            } else if m.contains_key(t) {
                Err((ErrorCode::AlreadyExists, "User is already in channel"@))
            } else {
                Ok(ChangeView::Add(t, ChannelPermission::ReadWrite))
            },
        },
    }
}

/// What removing `t` from a channel on the request of `u` does: a member may
/// leave, a manager may remove members that are not managers, and the only
/// manager may not leave.
pub open spec fn spec_uninvite(ch: Option<Members>, u: Seq<char>, t: Seq<char>) -> Result<
    ChangeView,
    Failure,
> {
    match ch {
        None => Err((ErrorCode::NotFound, "Channel not found"@)),
        Some(m) => match spec_member_perm(ch, u) {
            Err(f) => Err(f),
            Ok(p) => {
                let is_self = u == t;
                if !is_self && p != ChannelPermission::Manager {
                    Err((ErrorCode::Restricted, "Only channel managers can uninvite users"@))
                } else if !m.contains_key(t) {
                    Err((ErrorCode::NotFound, "User is not a member of the channel"@))
                } else if !is_self && m[t] == ChannelPermission::Manager {
                    Err((ErrorCode::Restricted, "Managers cannot uninvite other managers"@))
                } else if is_self && m[t] == ChannelPermission::Manager && !has_other_manager(m, t) {
                    Err(
                        (
                            ErrorCode::Restricted,
                            "The only channel manager cannot leave the channel"@,
                        ),
                    )
                } else {
                    Ok(ChangeView::Remove(t))
                }
            },
        },
    }
}

/// What setting the permission of `t` to `p` on the request of `u` does: a
/// manager may change members that are not managers, and itself as long as
/// another manager remains.
pub open spec fn spec_set_member_perm(
    ch: Option<Members>,
    u: Seq<char>,
    t: Seq<char>,
    p: ChannelPermission,
) -> Result<ChangeView, Failure> {
    match ch {
        None => Err((ErrorCode::NotFound, "Channel not found"@)),
        Some(m) => match spec_member_perm(ch, u) {
            Err(f) => Err(f),
            Ok(q) => if q != ChannelPermission::Manager {
                Err(
                    (ErrorCode::Restricted, "Only channel managers can change member permissions"@),
                )
            } else {
                match spec_member_perm(ch, t) {
                    Err(f) => Err(f),
                    Ok(tp) => if t != u && tp == ChannelPermission::Manager {
                        Err(
                            (
                                ErrorCode::Restricted,
                                "Managers cannot change another manager's permission"@,
                            ),
                        )
                    } else if t == u && tp == ChannelPermission::Manager && p
                        != ChannelPermission::Manager && !has_other_manager(m, t) {
                        Err(
                            (
                                ErrorCode::Restricted,
                                "Cannot remove the only manager from a channel"@,
                            ),
                        )
                    } else {
                        Ok(ChangeView::SetPermission(t, p))
                    },
                }
            },
        },
    }
}

/// The user ids of the members, in order, leaving out `u`.
pub open spec fn ids_except(s: Seq<Member>, u: Seq<char>) -> Seq<Seq<char>>
    decreases s.len(),
{
    if s.len() == 0 {
        Seq::empty()
    } else if s.last().user_id@ == u {
        ids_except(s.drop_last(), u)
    } else {
        ids_except(s.drop_last(), u).push(s.last().user_id@)
    }
}

/// The characters of each string.
pub open spec fn views(v: Seq<String>) -> Seq<Seq<char>> {
    v.map_values(|s: String| s@)
}

impl Channel {
    /// Whether a member other than `user_id` is a manager.
    pub fn has_other_manager(&self, user_id: &str) -> (b: bool)
        requires
            self.wf(),
        ensures
            b == has_other_manager(self.member_map(), user_id@),
    {
        let mut i: usize = 0;
        while i < self.members.len()
            invariant
                self.wf(),
                i <= self.members@.len(),
                forall|j: int|
                    0 <= j < i ==> !(self.members@[j].permission == ChannelPermission::Manager
                        && self.members@[j].user_id@ != user_id@),
            decreases self.members@.len() - i,
        {
            if self.members[i].permission == ChannelPermission::Manager && !str_eq(
                self.members[i].user_id.as_str(),
                user_id,
            ) {
                proof {
                    lemma_members_map_value(self.members@, i as int);
                    assert(self.member_map().contains_key(self.members@[i as int].user_id@));
                }
                return true;
            }
            i = i + 1;
        }
        proof {
            if has_other_manager(self.member_map(), user_id@) {
                let k = choose|k: Seq<char>|
                    self.member_map().contains_key(k) && k != user_id@ && self.member_map()[k]
                        == ChannelPermission::Manager;
                lemma_members_map_domain(self.members@, k);
                let j = choose|j: int| 0 <= j < self.members@.len() && self.members@[j].user_id@ == k;
                lemma_members_map_value(self.members@, j);
            }
        }
        false
    }

    /// The user ids of the members other than `user_id`, in order.
    pub fn member_ids_except(&self, user_id: &str) -> (ids: Vec<String>)
        ensures
            views(ids@) == ids_except(self.members@, user_id@),
    {
        let mut ids: Vec<String> = Vec::new();
        let mut i: usize = 0;
        while i < self.members.len()
            invariant
                i <= self.members@.len(),
                views(ids@) == ids_except(self.members@.take(i as int), user_id@),
            decreases self.members@.len() - i,
        {
            proof {
                assert(self.members@.take(i + 1).drop_last() =~= self.members@.take(i as int));
            }
            if !str_eq(self.members[i].user_id.as_str(), user_id) {
                ids.push(self.members[i].user_id.clone());
                proof {
                    assert(views(ids@) =~= views(ids@.drop_last()).push(ids@.last()@));
                }
            }
            i = i + 1;
        }
        proof {
            assert(self.members@.take(self.members@.len() as int) =~= self.members@);
        }
        ids
    }

    /// Makes a change of the membership that fits it.
    pub fn apply_change(&mut self, change: MemberChange)
        requires
            old(self).wf(),
            change_applies(old(self).member_map(), change@),
        ensures
            final(self).wf(),
            final(self).member_map() == apply_change(old(self).member_map(), change@),
            final(self).channel_id == old(self).channel_id,
            final(self).name == old(self).name,
            final(self).description == old(self).description,
    {
        match change {
            MemberChange::Add { user_id, permission } => {
                let m = Member { user_id, permission };
                proof {
                    assert forall|i: int| 0 <= i < self.members@.len() implies self.members@[i].user_id@
                        != m.user_id@ by {
                        lemma_members_map_domain(self.members@, m.user_id@);
                    }
                    lemma_distinct_push(self.members@, m);
                    lemma_members_map_push(self.members@, m);
                }
                self.members.push(m);
            },
            MemberChange::Remove { user_id } => {
                let i = self.find_member(user_id.as_str()).unwrap();
                proof {
                    lemma_members_map_remove(self.members@, i as int);
                }
                self.members.remove(i);
            },
            MemberChange::SetPermission { user_id, permission } => {
                let i = self.find_member(user_id.as_str()).unwrap();
                let m = Member { user_id, permission };
                proof {
                    lemma_members_map_update(self.members@, i as int, m);
                }
                self.members.set(i, m);
            },
        }
    }
}

/// The permission of `user_id` in the channel, which may be missing.
pub fn get_channel_member_perm(channel: Option<&Channel>, user_id: &str) -> (r: Result<
    ChannelPermission,
    Error,
>)
    requires
        channel_wf(channel),
    ensures
        outcome(r) == spec_member_perm(members_of(channel), user_id@),
{
    match channel {
        Some(c) => match c.member_permission(user_id) {
            Some(p) => Ok(p),
            None => Err(Error::not_found("User not in channel")),
        },
        None => Err(Error::not_found("User not in channel")),
    }
}

/// Checks that `user_id` may delete the channel.
pub fn delete_channel(channel: Option<&Channel>, user_id: &str) -> (r: Result<(), Error>)
    requires
        channel_wf(channel),
    ensures
        outcome(r) == spec_delete_channel(members_of(channel), user_id@),
{
    if channel.is_none() {
        return Err(Error::not_found("Channel not found"));
    }
    let permission = get_channel_member_perm(channel, user_id)?;
    if permission != ChannelPermission::Manager {
        return Err(Error::restricted("Only channel managers can delete a channel"));
    }
    Ok(())
}

/// The change that an invitation of `invited_user_id` by `user_id` makes;
/// `invited_exists` tells whether the invited user exists.
pub fn invite(
    channel: Option<&Channel>,
    user_id: &str,
    invited_user_id: &str,
    invited_exists: bool,
) -> (r: Result<MemberChange, Error>)
    requires
        channel_wf(channel),
    ensures
        change_outcome(r) == spec_invite(
            members_of(channel),
            user_id@,
            invited_user_id@,
            invited_exists,
        ),
{
    let c = match channel {
        Some(c) => c,
        None => return Err(Error::not_found("Channel not found")),
    };
    let permission = match get_channel_member_perm(channel, user_id) {
        Ok(p) => p,
        Err(e) => return Err(e),
    };
    if permission != ChannelPermission::Manager {
        return Err(Error::restricted("Only channel managers can invite users"));
    }
    if !invited_exists {
        return Err(Error::not_found("User not found"));
    }
    if c.contains_member(invited_user_id) {
        return Err(Error::already_exists("User is already in channel"));
    }
    Ok(
        MemberChange::Add {
            user_id: String::from_str(invited_user_id),
            permission: ChannelPermission::ReadWrite,
        },
    )
}

/// The change that removing `uninvited_user_id` on the request of `user_id`
/// makes.
pub fn uninvite(channel: Option<&Channel>, user_id: &str, uninvited_user_id: &str) -> (r: Result<
    MemberChange,
    Error,
>)
    requires
        channel_wf(channel),
    ensures
        change_outcome(r) == spec_uninvite(members_of(channel), user_id@, uninvited_user_id@),
{
    let c = match channel {
        Some(c) => c,
        None => return Err(Error::not_found("Channel not found")),
    };
    let permission = match get_channel_member_perm(channel, user_id) {
        Ok(p) => p,
        Err(e) => return Err(e),
    };
    let is_self_uninvite = str_eq(user_id, uninvited_user_id);
    if !is_self_uninvite && permission != ChannelPermission::Manager {
        return Err(Error::restricted("Only channel managers can uninvite users"));
    }
    let target_permission = match c.member_permission(uninvited_user_id) {
        Some(p) => p,
        None => return Err(Error::not_found("User is not a member of the channel")),
    };
    if !is_self_uninvite && target_permission == ChannelPermission::Manager {
        return Err(Error::restricted("Managers cannot uninvite other managers"));
    }
    if is_self_uninvite && target_permission == ChannelPermission::Manager
        && !c.has_other_manager(uninvited_user_id) {
        return Err(Error::restricted("The only channel manager cannot leave the channel"));
    }
    Ok(MemberChange::Remove { user_id: String::from_str(uninvited_user_id) })
}

/// The change that setting the permission of `target_user_id` to `permission`
/// on the request of `user_id` makes.
pub fn set_channel_member_perm(
    channel: Option<&Channel>,
    user_id: &str,
    target_user_id: &str,
    permission: ChannelPermission,
) -> (r: Result<MemberChange, Error>)
    requires
        channel_wf(channel),
    ensures
        change_outcome(r) == spec_set_member_perm(
            members_of(channel),
            user_id@,
            target_user_id@,
            permission,
        ),
{
    let c = match channel {
        Some(c) => c,
        None => return Err(Error::not_found("Channel not found")),
    };
    let issuer_permission = match get_channel_member_perm(channel, user_id) {
        Ok(p) => p,
        Err(e) => return Err(e),
    };
    if issuer_permission != ChannelPermission::Manager {
        return Err(Error::restricted("Only channel managers can change member permissions"));
    }
    let target_permission = match get_channel_member_perm(channel, target_user_id) {
        Ok(p) => p,
        Err(e) => return Err(e),
    };
    let same = str_eq(target_user_id, user_id);
    if !same && target_permission == ChannelPermission::Manager {
        return Err(Error::restricted("Managers cannot change another manager's permission"));
    }
    if same && target_permission == ChannelPermission::Manager && permission
        != ChannelPermission::Manager && !c.has_other_manager(target_user_id) {
        return Err(Error::restricted("Cannot remove the only manager from a channel"));
    }
    Ok(MemberChange::SetPermission { user_id: String::from_str(target_user_id), permission })
}

/// The channel that `owner` creates: the given channel with `owner` as a
/// manager, and the other members, in order, who are told of their
/// invitation.
pub fn create_channel(channel: Channel, owner: &str) -> (r: (Channel, Vec<String>))
    requires
        channel.wf(),
    ensures
        r.0.wf(),
        r.0.member_map() == channel.member_map().insert(owner@, ChannelPermission::Manager),
        r.0.channel_id == channel.channel_id,
        r.0.name == channel.name,
        r.0.description == channel.description,
        views(r.1@) == ids_except(r.0.members@, owner@),
{
    let mut channel = channel;
    match channel.find_member(owner) {
        Some(_) => {
            channel.apply_change(
                MemberChange::SetPermission {
                    user_id: String::from_str(owner),
                    permission: ChannelPermission::Manager,
                },
            );
        },
        None => {
            channel.apply_change(
                MemberChange::Add {
                    user_id: String::from_str(owner),
                    permission: ChannelPermission::Manager,
                },
            );
        },
    }
    let invited = channel.member_ids_except(owner);
    (channel, invited)
}

/// The members to be told of a message that `sender` posts into the channel:
/// every member but the sender, in order.
pub fn send(channel: Option<&Channel>, sender: &str) -> (r: Result<Vec<String>, Error>)
    ensures
        channel is None <==> r is Err,
        r matches Err(e) ==> failure(e) == (ErrorCode::NotFound, "Channel not found"@),
        r matches Ok(ids) ==> channel matches Some(c) && views(ids@) == ids_except(c.members@, sender@),
{
    match channel {
        Some(c) => Ok(c.member_ids_except(sender)),
        None => Err(Error::not_found("Channel not found")),
    }
}

/// Checks that deleting a channel removed a row; none means it was gone.
pub fn channel_deleted(deleted: usize) -> (r: Result<(), Error>)
    ensures
        r is Ok <==> deleted != 0,
        r matches Err(e) ==> failure(e) == (ErrorCode::NotFound, "Channel not found"@),
{
    if deleted == 0 {
        return Err(Error::not_found("Channel not found"));
    }
    Ok(())
}

/// Checks that deleting a message removed a row; none means it was gone.
pub fn delete_message(deleted: usize) -> (r: Result<(), Error>)
    ensures
        r is Ok <==> deleted != 0,
        r matches Err(e) ==> failure(e) == (ErrorCode::NotFound, "Message not found"@),
{
    if deleted == 0 {
        return Err(Error::not_found("Message not found"));
    }
    Ok(())
}

/// Who may read the messages of a channel: its members.
pub open spec fn spec_read_access(ch: Option<Members>, u: Seq<char>) -> Result<(), Failure> {
    match ch {
        None => Err((ErrorCode::NotFound, "Channel not found"@)),
        Some(m) => if m.contains_key(u) {
            Ok(())
        } else {
            Err((ErrorCode::Restricted, "User not in channel"@))
        },
    }
}

/// Who may post into a channel: members with the right to write.
pub open spec fn spec_send_access(ch: Option<Members>, u: Seq<char>) -> Result<(), Failure> {
    match spec_member_perm(ch, u) {
        Err(f) => Err(f),
        Ok(p) => if p.spec_is_write_authorized() {
            Ok(())
        } else {
            Err((ErrorCode::Restricted, "User has no permission to send messages"@))
        },
    }
}

/// Who may delete a message: a manager of its channel, or its author while the
/// author may still write there.
pub open spec fn spec_message_delete_access(
    ch: Option<Members>,
    u: Seq<char>,
    author: Seq<char>,
) -> Result<(), Failure> {
    match spec_member_perm(ch, u) {
        Err(f) => Err(f),
        Ok(p) => if p == ChannelPermission::Manager || (p == ChannelPermission::ReadWrite && author
            == u) {
            Ok(())
        } else {
            Err((ErrorCode::Restricted, "User has no permission to delete this message"@))
        },
    }
}

/// Checks that `user_id` may read the messages of the channel.
pub fn authorize_read(channel: Option<&Channel>, user_id: &str) -> (r: Result<(), Error>)
    requires
        channel_wf(channel),
    ensures
        outcome(r) == spec_read_access(members_of(channel), user_id@),
{
    match channel {
        None => Err(Error::not_found("Channel not found")),
        Some(c) => if c.contains_member(user_id) {
            Ok(())
        } else {
            Err(Error::restricted("User not in channel"))
        },
    }
}

/// Checks that `user_id` may post into the channel.
pub fn authorize_send(channel: Option<&Channel>, user_id: &str) -> (r: Result<(), Error>)
    requires
        channel_wf(channel),
    ensures
        outcome(r) == spec_send_access(members_of(channel), user_id@),
{
    let permission = get_channel_member_perm(channel, user_id)?;
    if permission.is_write_authorized() {
        Ok(())
    } else {
        Err(Error::restricted("User has no permission to send messages"))
    }
}

/// Checks that `user_id` may delete the message, which may be missing, from
/// its channel.
pub fn authorize_message_delete(
    message: Option<&Message>,
    channel: Option<&Channel>,
    user_id: &str,
) -> (r: Result<(), Error>)
    requires
        channel_wf(channel),
    ensures
        message is None ==> r is Err && failure(r->Err_0) == (ErrorCode::NotFound, "Message not found"@),
        message matches Some(msg) ==> outcome(r) == spec_message_delete_access(
            members_of(channel),
            user_id@,
            msg.user_id@,
        ),
{
    let message = match message {
        Some(m) => m,
        None => return Err(Error::not_found("Message not found")),
    };
    let permission = get_channel_member_perm(channel, user_id)?;
    if permission == ChannelPermission::Manager || (permission == ChannelPermission::ReadWrite
        && str_eq(message.user_id.as_str(), user_id)) {
        Ok(())
    } else {
        Err(Error::restricted("User has no permission to delete this message"))
    }
}

/// Every change that the rules allow fits the membership it is made to.
pub proof fn law_allowed_changes_apply(
    m: Members,
    u: Seq<char>,
    t: Seq<char>,
    p: ChannelPermission,
    t_exists: bool,
)
    ensures
        spec_invite(Some(m), u, t, t_exists) matches Ok(c) ==> change_applies(m, c),
        spec_uninvite(Some(m), u, t) matches Ok(c) ==> change_applies(m, c),
        spec_set_member_perm(Some(m), u, t, p) matches Ok(c) ==> change_applies(m, c),
{
}

/// A channel that has a manager keeps one through every invitation, removal
/// and change of permission that the rules allow.
pub proof fn law_channel_keeps_a_manager(
    m: Members,
    u: Seq<char>,
    t: Seq<char>,
    p: ChannelPermission,
    t_exists: bool,
)
    requires
        has_manager(m),
    ensures
        spec_invite(Some(m), u, t, t_exists) matches Ok(c) ==> has_manager(apply_change(m, c)),
        spec_uninvite(Some(m), u, t) matches Ok(c) ==> has_manager(apply_change(m, c)),
        spec_set_member_perm(Some(m), u, t, p) matches Ok(c) ==> has_manager(apply_change(m, c)),
{
    let k = choose|k: Seq<char>| m.contains_key(k) && m[k] == ChannelPermission::Manager;
    if let Ok(c) = spec_invite(Some(m), u, t, t_exists) {
        assert(k != t);
        assert(apply_change(m, c).contains_key(k) && apply_change(m, c)[k] == ChannelPermission::Manager);
    }
    if let Ok(c) = spec_uninvite(Some(m), u, t) {
        if m[t] == ChannelPermission::Manager {
            let k2 = choose|k2: Seq<char>|
                m.contains_key(k2) && k2 != t && m[k2] == ChannelPermission::Manager;
            assert(apply_change(m, c).contains_key(k2) && apply_change(m, c)[k2]
                == ChannelPermission::Manager);
        } else {
            assert(apply_change(m, c).contains_key(k) && apply_change(m, c)[k]
                == ChannelPermission::Manager);
        }
    }
    if let Ok(c) = spec_set_member_perm(Some(m), u, t, p) {
        if p == ChannelPermission::Manager {
            assert(apply_change(m, c).contains_key(t) && apply_change(m, c)[t]
                == ChannelPermission::Manager);
        } else if m[t] == ChannelPermission::Manager {
            let k2 = choose|k2: Seq<char>|
                m.contains_key(k2) && k2 != t && m[k2] == ChannelPermission::Manager;
            assert(apply_change(m, c).contains_key(k2) && apply_change(m, c)[k2]
                == ChannelPermission::Manager);
        } else {
            assert(k != t);
            assert(apply_change(m, c).contains_key(k) && apply_change(m, c)[k]
                == ChannelPermission::Manager);
        }
    }
}

/// Only a manager changes the membership of others: every allowed invitation,
/// removal of another member and change of permission comes from a manager,
/// and every allowed deletion of a channel too.
pub proof fn law_only_managers_change_others(
    m: Members,
    u: Seq<char>,
    t: Seq<char>,
    p: ChannelPermission,
    t_exists: bool,
)
    ensures
        spec_invite(Some(m), u, t, t_exists) is Ok ==> m.contains_key(u) && m[u]
            == ChannelPermission::Manager,
        spec_set_member_perm(Some(m), u, t, p) is Ok ==> m.contains_key(u) && m[u]
            == ChannelPermission::Manager,
        (spec_uninvite(Some(m), u, t) is Ok && u != t) ==> m.contains_key(u) && m[u]
            == ChannelPermission::Manager,
        spec_delete_channel(Some(m), u) is Ok ==> m.contains_key(u) && m[u]
            == ChannelPermission::Manager,
{
}

/// No one removes another manager or changes another manager's permission.
pub proof fn law_managers_are_protected(
    m: Members,
    u: Seq<char>,
    t: Seq<char>,
    p: ChannelPermission,
)
    requires
        u != t,
        m.contains_key(t),
        m[t] == ChannelPermission::Manager,
    ensures
        spec_uninvite(Some(m), u, t) is Err,
        spec_set_member_perm(Some(m), u, t, p) is Err,
{
}

/// A member may post into a channel exactly when it is a writer or a manager;
/// a reader may not, and a non-member is told it is not in the channel.
pub proof fn law_writers_and_managers_send(m: Members, u: Seq<char>)
    ensures
        m.contains_key(u) ==> (spec_send_access(Some(m), u) is Ok <==> (m[u]
            == ChannelPermission::ReadWrite || m[u] == ChannelPermission::Manager)),
        m.contains_key(u) && m[u] == ChannelPermission::Manager ==> spec_send_access(Some(m), u)
            == Ok::<(), Failure>(()),
        m.contains_key(u) && m[u] == ChannelPermission::ReadOnly ==> spec_send_access(Some(m), u)
            == Err::<(), Failure>((ErrorCode::Restricted, "User has no permission to send messages"@)),
        !m.contains_key(u) ==> spec_send_access(Some(m), u) is Err,
{
}

/// Every member, and only a member, may read a channel; a manager may delete
/// any message of its channel, a writer only its own, and a reader none.
pub proof fn law_reading_and_deleting_messages(m: Members, u: Seq<char>, author: Seq<char>)
    ensures
        spec_read_access(Some(m), u) is Ok <==> m.contains_key(u),
        m.contains_key(u) && m[u] == ChannelPermission::Manager ==> spec_message_delete_access(
            Some(m),
            u,
            author,
        ) is Ok,
        m.contains_key(u) && m[u] == ChannelPermission::ReadWrite ==> (spec_message_delete_access(
            Some(m),
            u,
            author,
        ) is Ok <==> author == u),
        m.contains_key(u) && m[u] == ChannelPermission::ReadOnly ==> spec_message_delete_access(
            Some(m),
            u,
            author,
        ) is Err,
        !m.contains_key(u) ==> spec_message_delete_access(Some(m), u, author) is Err,
{
}

} // verus!
