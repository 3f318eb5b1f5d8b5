//! The SQL types of the database schema that are not built in: the enums that
//! the store keeps as Postgres enum types. The table definitions and the
//! mapping of these markers to the column types live with the store.
use vstd::prelude::*;

verus! {

/// The Postgres type `channel_permission`.
pub struct ChannelPermission;

/// The Postgres type `post_reaction`.
pub struct PostReaction;

/// The Postgres type `resource_namespace_type`.
pub struct ResourceNamespaceType;

/// The Postgres type `user_role`.
pub struct UserRole;

} // verus!
