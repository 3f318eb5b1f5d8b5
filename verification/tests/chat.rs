use aura::error::ErrorCode;
use aura::logic::chat::{
    authorize_message_delete, authorize_read, authorize_send, channel_deleted, create_channel,
    delete_channel, delete_message, get_channel_member_perm, invite, send, set_channel_member_perm,
    uninvite, MemberChange,
};
use aura::types::chat::{Channel, ChannelPermission, Content, Member, Message};
use aura::types::common::Timestamp;

fn member(user: &str, permission: ChannelPermission) -> Member {
    Member { user_id: user.to_string(), permission }
}

fn channel(members: Vec<Member>) -> Channel {
    Channel {
        channel_id: "chan".to_string(),
        name: "Channel".to_string(),
        description: "A channel".to_string(),
        members,
    }
}

fn perm_of(c: &Channel, user: &str) -> Option<ChannelPermission> {
    c.member_permission(user)
}

#[test]
fn create_channel_makes_owner_manager_and_invites_others() {
    let c = channel(vec![
        member("bob", ChannelPermission::ReadOnly),
        member("carol", ChannelPermission::ReadWrite),
    ]);
    let (c, invited) = create_channel(c, "alice");
    assert_eq!(perm_of(&c, "alice"), Some(ChannelPermission::Manager));
    assert_eq!(perm_of(&c, "bob"), Some(ChannelPermission::ReadOnly));
    assert_eq!(invited, vec!["bob".to_string(), "carol".to_string()]);
}

#[test]
fn create_channel_upgrades_owner_listed_as_member() {
    let c = channel(vec![member("alice", ChannelPermission::ReadOnly), member("bob", ChannelPermission::ReadOnly)]);
    let (c, invited) = create_channel(c, "alice");
    assert_eq!(c.members.len(), 2);
    assert_eq!(perm_of(&c, "alice"), Some(ChannelPermission::Manager));
    assert_eq!(invited, vec!["bob".to_string()]);
}

#[test]
fn delete_channel_rules() {
    let c = channel(vec![member("alice", ChannelPermission::Manager), member("bob", ChannelPermission::ReadWrite)]);
    assert!(delete_channel(Some(&c), "alice").is_ok());
    let e = delete_channel(Some(&c), "bob").unwrap_err();
    assert_eq!(e.code, ErrorCode::Restricted);
    assert_eq!(e.message, "Only channel managers can delete a channel");
    let e = delete_channel(Some(&c), "dave").unwrap_err();
    assert_eq!(e.code, ErrorCode::NotFound);
    assert_eq!(e.message, "User not in channel");
    let e = delete_channel(None, "alice").unwrap_err();
    assert_eq!(e.code, ErrorCode::NotFound);
    assert_eq!(e.message, "Channel not found");
}

#[test]
fn invite_adds_writer() {
    let mut c = channel(vec![member("alice", ChannelPermission::Manager)]);
    let change = invite(Some(&c), "alice", "bob", true).unwrap();
    match &change {
        MemberChange::Add { user_id, permission } => {
            assert_eq!(user_id, "bob");
            assert_eq!(*permission, ChannelPermission::ReadWrite);
        }
        _ => panic!("expected an addition"),
    }
    c.apply_change(change);
    assert_eq!(perm_of(&c, "bob"), Some(ChannelPermission::ReadWrite));
}

#[test]
fn invite_errors() {
    let c = channel(vec![member("alice", ChannelPermission::Manager), member("bob", ChannelPermission::ReadWrite)]);
    let e = invite(Some(&c), "bob", "carol", true).unwrap_err();
    assert_eq!((e.code, e.message.as_str()), (ErrorCode::Restricted, "Only channel managers can invite users"));
    let e = invite(Some(&c), "alice", "carol", false).unwrap_err();
    assert_eq!((e.code, e.message.as_str()), (ErrorCode::NotFound, "User not found"));
    let e = invite(Some(&c), "alice", "bob", true).unwrap_err();
    assert_eq!((e.code, e.message.as_str()), (ErrorCode::AlreadyExists, "User is already in channel"));
    let e = invite(None, "alice", "bob", true).unwrap_err();
    assert_eq!((e.code, e.message.as_str()), (ErrorCode::NotFound, "Channel not found"));
}

#[test]
fn uninvite_rules() {
    let c = channel(vec![
        member("alice", ChannelPermission::Manager),
        member("bob", ChannelPermission::ReadWrite),
        member("carol", ChannelPermission::Manager),
    ]);
    // a manager removes a writer
    assert!(matches!(uninvite(Some(&c), "alice", "bob"), Ok(MemberChange::Remove { .. })));
    // a member leaves
    assert!(uninvite(Some(&c), "bob", "bob").is_ok());
    // a writer cannot remove others
    let e = uninvite(Some(&c), "bob", "alice").unwrap_err();
    assert_eq!((e.code, e.message.as_str()), (ErrorCode::Restricted, "Only channel managers can uninvite users"));
    // a manager cannot remove another manager
    let e = uninvite(Some(&c), "alice", "carol").unwrap_err();
    assert_eq!((e.code, e.message.as_str()), (ErrorCode::Restricted, "Managers cannot uninvite other managers"));
    // a manager may leave while another manager remains
    assert!(uninvite(Some(&c), "alice", "alice").is_ok());
    let e = uninvite(Some(&c), "alice", "dave").unwrap_err();
    assert_eq!((e.code, e.message.as_str()), (ErrorCode::NotFound, "User is not a member of the channel"));
}

#[test]
fn only_manager_cannot_leave() {
    let c = channel(vec![member("alice", ChannelPermission::Manager), member("bob", ChannelPermission::ReadWrite)]);
    let e = uninvite(Some(&c), "alice", "alice").unwrap_err();
    assert_eq!((e.code, e.message.as_str()), (ErrorCode::Restricted, "The only channel manager cannot leave the channel"));
}

#[test]
fn set_permission_rules() {
    let mut c = channel(vec![member("alice", ChannelPermission::Manager), member("bob", ChannelPermission::ReadWrite)]);
    let e = set_channel_member_perm(Some(&c), "alice", "alice", ChannelPermission::ReadOnly).unwrap_err();
    assert_eq!((e.code, e.message.as_str()), (ErrorCode::Restricted, "Cannot remove the only manager from a channel"));
    let e = set_channel_member_perm(Some(&c), "bob", "alice", ChannelPermission::ReadOnly).unwrap_err();
    assert_eq!((e.code, e.message.as_str()), (ErrorCode::Restricted, "Only channel managers can change member permissions"));
    let e = set_channel_member_perm(Some(&c), "alice", "dave", ChannelPermission::ReadOnly).unwrap_err();
    assert_eq!((e.code, e.message.as_str()), (ErrorCode::NotFound, "User not in channel"));
    let change = set_channel_member_perm(Some(&c), "alice", "bob", ChannelPermission::Manager).unwrap();
    c.apply_change(change);
    assert_eq!(perm_of(&c, "bob"), Some(ChannelPermission::Manager));
    let e = set_channel_member_perm(Some(&c), "alice", "bob", ChannelPermission::ReadOnly).unwrap_err();
    assert_eq!((e.code, e.message.as_str()), (ErrorCode::Restricted, "Managers cannot change another manager's permission"));
    // with a second manager, alice may step down
    let change = set_channel_member_perm(Some(&c), "alice", "alice", ChannelPermission::ReadOnly).unwrap();
    c.apply_change(change);
    assert_eq!(perm_of(&c, "alice"), Some(ChannelPermission::ReadOnly));
}

#[test]
fn channel_keeps_a_manager_through_a_sequence() {
    let mut c = channel(vec![member("alice", ChannelPermission::Manager)]);
    for u in ["bob", "carol"] {
        let ch = invite(Some(&c), "alice", u, true).unwrap();
        c.apply_change(ch);
    }
    assert!(uninvite(Some(&c), "alice", "alice").is_err());
    let ch = set_channel_member_perm(Some(&c), "alice", "bob", ChannelPermission::Manager).unwrap();
    c.apply_change(ch);
    let ch = uninvite(Some(&c), "alice", "alice").unwrap();
    c.apply_change(ch);
    assert_eq!(perm_of(&c, "alice"), None);
    assert!(c.members.iter().any(|m| m.permission == ChannelPermission::Manager));
    assert!(uninvite(Some(&c), "bob", "bob").is_err());
}

#[test]
fn member_permission_lookup() {
    let c = channel(vec![member("alice", ChannelPermission::ReadOnly)]);
    assert_eq!(get_channel_member_perm(Some(&c), "alice").unwrap(), ChannelPermission::ReadOnly);
    assert_eq!(get_channel_member_perm(None, "alice").unwrap_err().message, "User not in channel");
    assert!(!c.has_other_manager("alice"));
}

#[test]
fn send_notifies_other_members() {
    let c = channel(vec![member("alice", ChannelPermission::Manager), member("bob", ChannelPermission::ReadWrite)]);
    assert_eq!(send(Some(&c), "alice").unwrap(), vec!["bob".to_string()]);
    assert_eq!(send(None, "alice").unwrap_err().message, "Channel not found");
}

#[test]
fn service_access_rules() {
    let c = channel(vec![
        member("alice", ChannelPermission::Manager),
        member("bob", ChannelPermission::ReadWrite),
        member("carol", ChannelPermission::ReadOnly),
    ]);
    assert!(authorize_read(Some(&c), "carol").is_ok());
    let e = authorize_read(Some(&c), "dave").unwrap_err();
    assert_eq!((e.code, e.message.as_str()), (ErrorCode::Restricted, "User not in channel"));
    assert!(authorize_send(Some(&c), "bob").is_ok());
    let e = authorize_send(Some(&c), "carol").unwrap_err();
    assert_eq!((e.code, e.message.as_str()), (ErrorCode::Restricted, "User has no permission to send messages"));
    let msg = Message {
        message_id: "m1".to_string(),
        channel_id: "chan".to_string(),
        user_id: "bob".to_string(),
        content: Content::Text("hi".to_string()),
        created_at: Timestamp::from_parts(10, 0).unwrap(),
    };
    assert!(authorize_message_delete(Some(&msg), Some(&c), "bob").is_ok());
    assert!(authorize_message_delete(Some(&msg), Some(&c), "alice").is_ok());
    let e = authorize_message_delete(Some(&msg), Some(&c), "carol").unwrap_err();
    assert_eq!(e.message, "User has no permission to delete this message");
    let e = authorize_message_delete(None, Some(&c), "alice").unwrap_err();
    assert_eq!((e.code, e.message.as_str()), (ErrorCode::NotFound, "Message not found"));
}

#[test]
fn deleted_row_counts() {
    assert!(channel_deleted(1).is_ok());
    assert_eq!(channel_deleted(0).unwrap_err().message, "Channel not found");
    assert!(delete_message(1).is_ok());
    assert_eq!(delete_message(0).unwrap_err().message, "Message not found");
}

#[test]
fn permission_names_and_write_rights() {
    assert_eq!(ChannelPermission::from_name("read"), Some(ChannelPermission::ReadOnly));
    assert_eq!(ChannelPermission::from_name("write"), Some(ChannelPermission::ReadWrite));
    assert_eq!(ChannelPermission::from_name("manager"), Some(ChannelPermission::Manager));
    assert_eq!(ChannelPermission::from_name("owner"), None);
    assert!(!ChannelPermission::ReadOnly.is_write_authorized());
    assert!(ChannelPermission::ReadWrite.is_write_authorized());
    assert!(ChannelPermission::Manager.is_write_authorized());
}

#[test]
fn distinct_members_are_detected() {
    let ok = channel(vec![
        member("a", ChannelPermission::Manager),
        member("b", ChannelPermission::ReadOnly),
    ]);
    assert!(ok.has_distinct_members());
    let twice = channel(vec![
        member("a", ChannelPermission::Manager),
        member("b", ChannelPermission::ReadOnly),
        member("a", ChannelPermission::ReadWrite),
    ]);
    assert!(!twice.has_distinct_members());
    assert!(channel(Vec::new()).has_distinct_members());
}
