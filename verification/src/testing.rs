//! The accounts that a server running for tests starts with: a user, a
//! moderator and an administrator, each with a known password.
use crate::auth::{hash, spec_check_credentials};
use crate::error::Error;
use crate::types::common::Timestamp;
use crate::types::resource::{ResourceId, ResourceNamespace};
use crate::types::user::{Notifications, User, UserRole};
use vstd::prelude::*;

verus! {

/// A test account: the password is stored hashed where `hash_password` is set,
/// else as it is; the icon is kept under the user id.
fn test_account(
    user_id: &str,
    username: &str,
    email: &str,
    password: &str,
    role: UserRole,
    hash_password: bool,
) -> (r: Result<User, Error>)
    ensures
        r is Err ==> hash_password && password@.len() > 0x3fff_ffff,
        r matches Ok(u) ==> {
            &&& u.user_id@ == user_id@
            &&& u.username@ == username@
            &&& u.email@ == email@
            &&& (if hash_password {
                spec_check_credentials(Some(u.password@), password@) is Ok
            } else {
                u.password@ == password@
            })
            &&& u.role == role
            &&& u.icon.namespace == ResourceNamespace::UserIcon
            &&& u.icon.key@ == user_id@
            &&& u.notifications.0@.len() == 0
            &&& u.channels@.len() == 0
            &&& u.followers@.len() == 0
            &&& u.following@.len() == 0
        },
{
    let password = if hash_password {
        hash(String::from_str(password))?
    } else {
        String::from_str(password)
    };
    Ok(
        User {
            user_id: String::from_str(user_id),
            username: String::from_str(username),
            email: String::from_str(email),
            password,
            role,
            created_at: Timestamp::now(),
            icon: ResourceId {
                namespace: ResourceNamespace::UserIcon,
                key: String::from_str(user_id),
            },
            notifications: Notifications(Vec::new()),
            channels: Vec::new(),
            followers: Vec::new(),
            following: Vec::new(),
        },
    )
}

/// The test account `user` (password `user123`) with the user role.
pub fn test_user(hash_password: bool) -> (r: Result<User, Error>)
    ensures
        r is Ok,
        r matches Ok(u) ==> u.user_id@ == "user"@ && u.role == UserRole::User && (if hash_password {
            spec_check_credentials(Some(u.password@), "user123"@) is Ok
        } else {
            u.password@ == "user123"@
        }),
{
    proof {
        reveal_strlit("user123");
    }
    test_account("user", "User", "user@aura.testing", "user123", UserRole::User, hash_password)
}

/// The test account `moderator` (password `mod123`) with the moderator role.
pub fn moderator_user(hash_password: bool) -> (r: Result<User, Error>)
    ensures
        r is Ok,
        r matches Ok(u) ==> u.user_id@ == "moderator"@ && u.role == UserRole::Moderator && (
        if hash_password {
            spec_check_credentials(Some(u.password@), "mod123"@) is Ok
        } else {
            u.password@ == "mod123"@
        }),
{
    proof {
        reveal_strlit("mod123");
    }
    test_account(
        "moderator",
        "Moderator",
        "moderator@aura.testing",
        "mod123",
        UserRole::Moderator,
        hash_password,
    )
}

/// The test account `admin` (password `admin123`) with the admin role.
pub fn admin_user(hash_password: bool) -> (r: Result<User, Error>)
    ensures
        r is Ok,
        r matches Ok(u) ==> u.user_id@ == "admin"@ && u.role == UserRole::Admin && (
        if hash_password {
            spec_check_credentials(Some(u.password@), "admin123"@) is Ok
        } else {
            u.password@ == "admin123"@
        }),
{
    proof {
        reveal_strlit("admin123");
    }
    test_account("admin", "Admin", "admin@aura.testing", "admin123", UserRole::Admin, hash_password)
}

} // verus!
