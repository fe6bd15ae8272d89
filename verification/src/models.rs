use vstd::prelude::*;

verus! {

use crate::utils::IdGenerator;
use crate::utils::generate_id;

/// The user entity: an id assigned once at construction, a name set at
/// construction, and an optional email, absent by default.
#[derive(Debug)]
pub struct User {
    pub id: u64,
    pub name: String,
    pub email: Option<String>,
}

impl User {
    /// Constructs a user with a fresh id minted from `ids`, the given name
    /// stored as it was handed in, and no email.
    pub fn new(ids: &mut IdGenerator, name: &str) -> (user: User)
        ensures
            user.id == old(ids)@,
            final(ids)@ == (if old(ids)@ == u64::MAX {
                0u64
            } else {
                (old(ids)@ + 1) as u64
            }),
            user.name@ == name@,
            user.email is None,
    {
        User { id: generate_id(ids), name: name.to_owned(), email: None }
    }

    /// Consuming transform: the same user with `email` now present;
    /// id and name are unchanged.
    pub fn with_email(self, email: &str) -> (user: User)
        ensures
            user.id == self.id,
            user.name == self.name,
            user.email matches Some(e) && e@ == email@,
    {
        User { email: Some(email.to_owned()), ..self }
    }
}

impl Clone for User {
    /// An exact copy: the clone equals the original field for field.
    fn clone(&self) -> (copy: Self)
        ensures
            copy == *self,
    {
        User {
            id: self.id,
            name: self.name.clone(),
            email: match &self.email {
                Some(e) => Some(e.clone()),
                None => None,
            },
        }
    }
}

/// The roles a user could hold; not connected to `User` in the current design.
#[derive(Debug)]
pub enum UserRole {
    Admin,
    Member,
    Guest,
}

/// Capability of carrying a numeric identifier.
pub trait Identifiable {
    /// The identifier that `id` returns.
    spec fn spec_id(&self) -> u64;

    /// Returns the stored identifier.
    fn id(&self) -> (id: u64)
        ensures
            id == self.spec_id(),
    ;
}

impl Identifiable for User {
    open spec fn spec_id(&self) -> u64 {
        self.id
    }

    fn id(&self) -> (id: u64)
        ensures
            id == self.spec_id(),
    {
        self.id
    }
}

} // verus!
