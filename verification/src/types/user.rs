use crate::error::{failure, outcome, Error, ErrorCode, Failure};
use crate::types::chat::{Channel, Message};
use crate::types::common::Timestamp;
use crate::types::resource::ResourceId;
use crate::utils::generate_unique_id;
use vstd::prelude::*;

verus! {

/// The role of a user on the server.
#[derive(Clone, Copy, Debug, PartialEq, Eq, Structural)]
pub enum UserRole {
    User,
    Moderator,
    Admin,
}

impl UserRole {
    /// The role that an operator names on the console: `user`, `moderator` or
    /// `admin`.
    pub fn from_name(name: &str) -> (r: Option<UserRole>)
        ensures
            name@ == "user"@ <==> r == Some(UserRole::User),
            name@ == "moderator"@ <==> r == Some(UserRole::Moderator),
            name@ == "admin"@ <==> r == Some(UserRole::Admin),
    {
        proof {
            reveal_strlit("user");
            reveal_strlit("moderator");
            reveal_strlit("admin");
            assert("user"@.len() == 4 && "moderator"@.len() == 9 && "admin"@.len() == 5);
        }
        if crate::utils::str_eq(name, "user") {
            Some(UserRole::User)
        } else if crate::utils::str_eq(name, "moderator") {
            Some(UserRole::Moderator)
        } else if crate::utils::str_eq(name, "admin") {
            Some(UserRole::Admin)
        } else {
            None
        }
    }
}

/// A user account with everything the server knows of it.
#[derive(Debug)]
pub struct User {
    pub user_id: String,
    pub username: String,
    pub email: String,
    pub password: String,
    pub role: UserRole,
    pub created_at: Timestamp,
    pub icon: ResourceId,
    pub notifications: Notifications,
    pub channels: Vec<Channel>,
    pub followers: Vec<String>,
    pub following: Vec<String>,
}

/// What other users see of a user.
#[derive(Debug)]
pub struct UserProfile {
    pub user_id: String,
    pub username: String,
    pub role: UserRole,
    pub icon: ResourceId,
    pub created_at: Timestamp,
    pub followers: u32,
    pub following: u32,
}

impl User {
    /// The password as it leaves the server: the stored hash only where the
    /// server runs for testing (`keep`), else the empty string.
    pub fn exported_password(&self, keep: bool) -> (p: String)
        ensures
            keep ==> p@ == self.password@,
            !keep ==> p@.len() == 0,
    {
        if keep {
            self.password.clone()
        } else {
            String::new()
        }
    }

    /// The public profile of the user: the follower and following counts are
    /// the lengths of the lists, cut to 32 bits.
    pub fn into_profile(self) -> (p: UserProfile)
        ensures
            p.user_id == self.user_id,
            p.username == self.username,
            p.role == self.role,
            p.icon == self.icon,
            p.created_at == self.created_at,
            p.followers == self.followers@.len() as u32,
            p.following == self.following@.len() as u32,
    {
        let followers = self.followers.len() as u32;
        let following = self.following.len() as u32;
        UserProfile {
            user_id: self.user_id,
            username: self.username,
            role: self.role,
            icon: self.icon,
            created_at: self.created_at,
            followers,
            following,
        }
    }
}

/// The notifications waiting for a user, oldest first.
#[derive(Debug)]
pub struct Notifications(pub Vec<Notification>);

/// Something a user is told of.
#[derive(Debug)]
pub enum Notification {
    /// The user was invited into a channel, or removed from it.
    Invite {
        notification_id: String,
        timestamp: Timestamp,
        channel_id: String,
        invited_by: String,
        uninvited: bool,
    },
    /// A message was posted into a channel of the user.
    Message {
        notification_id: String,
        timestamp: Timestamp,
        channel_id: String,
        sender_id: String,
        message: Message,
    },
}

impl Notification {
    /// When the notification was made.
    pub open spec fn spec_timestamp(&self) -> Timestamp {
        match self {
            Notification::Invite { timestamp, .. } => *timestamp,
            Notification::Message { timestamp, .. } => *timestamp,
        }
    }

    /// When the notification was made.
    pub fn timestamp(&self) -> (t: &Timestamp)
        ensures
            *t == self.spec_timestamp(),
    {
        match self {
            Notification::Invite { timestamp, .. } => timestamp,
            Notification::Message { timestamp, .. } => timestamp,
        }
    }

    /// A new notification, made now with a fresh id, that `invited_by` invited
    /// the user into the channel, or removed it from there.
    pub fn invite(channel_id: String, invited_by: String, uninvited: bool) -> (n: Notification)
        ensures
            n matches Notification::Invite {
                notification_id,
                channel_id: c,
                invited_by: b,
                uninvited: u,
                ..
            } && c == channel_id && b == invited_by && u == uninvited && notification_id@.len()
                == 16,
    {
        Notification::Invite {
            notification_id: generate_unique_id(),
            timestamp: Timestamp::now(),
            channel_id,
            invited_by,
            uninvited,
        }
    }

    /// A new notification, made now with a fresh id, that `sender_id` posted the
    /// message into the channel.
    pub fn message(channel_id: String, sender_id: String, message: Message) -> (n: Notification)
        ensures
            n matches Notification::Message {
                notification_id,
                channel_id: c,
                sender_id: s,
                message: m,
                ..
            } && c == channel_id && s == sender_id && m == message && notification_id@.len() == 16,
    {
        Notification::Message {
            notification_id: generate_unique_id(),
            timestamp: Timestamp::now(),
            channel_id,
            sender_id,
            message,
        }
    }
}

/// What a notification read from the wire carries besides its id and time,
/// where it carries it. The message of a message notification arrives already
/// read, or with the error that reading it gave.
#[derive(Debug)]
pub enum NotificationBody {
    Invite { channel_id: String, invited_by: String, uninvited: bool },
    Message { channel_id: String, sender_id: String, message: Option<Result<Message, Error>> },
}

/// The notification that wire parts make up, or the first thing missing from
/// them: the kind of notification, then its time (which must be a timestamp),
/// then, for a message notification, the message.
pub open spec fn spec_notification_from_parts(
    notification_id: String,
    timestamp: Option<(i64, i32)>,
    body: Option<NotificationBody>,
) -> Result<Notification, Failure> {
    match body {
        None => Err((ErrorCode::InvalidFormat, "Notification not provided"@)),
        Some(b) => match timestamp {
            None => Err((ErrorCode::InvalidFormat, "Timestamp not provided"@)),
            Some(w) => match Timestamp::spec_from_wire(w.0 as int, w.1 as int) {
                None => Err((ErrorCode::Internal, "Failed to convert timestamp"@)),
                Some(t) => match b {
                    NotificationBody::Invite { channel_id, invited_by, uninvited } => Ok(
                        Notification::Invite {
                            notification_id,
                            timestamp: t,
                            channel_id,
                            invited_by,
                            uninvited,
                        },
                    ),
                    NotificationBody::Message { channel_id, sender_id, message } => match message {
                        None => Err((ErrorCode::InvalidFormat, "Message not provided"@)),
                        Some(Err(e)) => Err(failure(e)),
                        Some(Ok(m)) => Ok(
                            Notification::Message {
                                notification_id,
                                timestamp: t,
                                channel_id,
                                sender_id,
                                message: m,
                            },
                        ),
                    },
                },
            },
        },
    }
}

impl Notification {
    /// The notification that wire parts make up: its id, its time as seconds
    /// and nanoseconds, and its kind with what that kind carries, each of the
    /// last two where the wire holds it.
    pub fn from_parts(
        notification_id: String,
        timestamp: Option<(i64, i32)>,
        body: Option<NotificationBody>,
    ) -> (r: Result<Notification, Error>)
        ensures
            outcome(r) == spec_notification_from_parts(notification_id, timestamp, body),
    {
        let b = match body {
            None => return Err(Error::invalid_format("Notification not provided")),
            Some(b) => b,
        };
        let (seconds, nanos) = match timestamp {
            None => return Err(Error::invalid_format("Timestamp not provided")),
            Some(w) => w,
        };
        let t = match Timestamp::from_wire(seconds, nanos) {
            Ok(t) => t,
            Err(e) => return Err(e),
        };
        match b {
            NotificationBody::Invite { channel_id, invited_by, uninvited } => Ok(
                Notification::Invite { notification_id, timestamp: t, channel_id, invited_by, uninvited },
            ),
            NotificationBody::Message { channel_id, sender_id, message } => match message {
                None => Err(Error::invalid_format("Message not provided")),
                Some(Err(e)) => Err(e),
                Some(Ok(m)) => Ok(
                    Notification::Message { notification_id, timestamp: t, channel_id, sender_id, message: m },
                ),
            },
        }
    }
}

} // verus!
