//! A back-office user: identifier, validated email, name and password.

use vstd::prelude::*;
use crate::common::ids::UniqueId;
use crate::users::email::Email;
use crate::users::password::Password;
use crate::users::username::Username;

verus! {

/// A user of the back office.
#[derive(Debug, Clone)]
pub struct User {
    pub id: UniqueId,
    pub email: Email,
    pub username: Username,
    pub password: Password,
    pub created_at: String,
}

impl User {
    /// Assembles a user from already validated parts.
    pub fn new(
        id: UniqueId,
        email: Email,
        username: Username,
        password: Password,
        created_at: String,
    ) -> (r: Self)
        ensures
            r.id == id,
            r.email == email,
            r.username == username,
            r.password == password,
            r.created_at == created_at,
    {
        User { id, email, username, password, created_at }
    }
}

} // verus!
