//! User accounts.

use crate::ids::ObjectId;
use vstd::prelude::*;

verus! {

/// A stored user account; `id` is unset until the database assigns one.
#[derive(Debug)]
pub struct User {
    pub id: Option<ObjectId>,
    pub email: String,
    pub password_hash: String,
    pub display_name: String,
    pub profile_image: String,
}

/// What other users and the owner may see of an account.
#[derive(Debug)]
pub struct UserSafe {
    pub id: ObjectId,
    pub email: String,
    pub display_name: String,
}

impl UserSafe {
    /// The public form of a stored account, which must already have its id.
    pub fn from(value: User) -> (r: UserSafe)
        requires
            value.id is Some,
        ensures
            r.id == value.id.unwrap(),
            r.email == value.email,
            r.display_name == value.display_name,
    {
        UserSafe { id: value.id.unwrap(), email: value.email, display_name: value.display_name }
    }

    /// A copy of this account view.
    pub fn duplicate(&self) -> (r: UserSafe)
        ensures
            r == *self,
    {
        UserSafe { id: self.id, email: self.email.clone(), display_name: self.display_name.clone() }
    }
}

} // verus!
