//! The data model: a user row, a creation request and the reply envelope.

use vstd::prelude::*;

verus! {

/// A user as the store holds it. `id` is the only key: it is fixed when the
/// row is created and never changes afterwards. `password` is kept and handed
/// back as it came in; whether it should be hashed, or left out of replies,
/// is an open question.
#[derive(Debug, PartialEq, Eq)]
pub struct User {
    pub id: String,
    pub email: String,
    pub name: String,
    pub role: String,
    pub password: String,
}

/// A request to create a user. Without an `id` the service picks a fresh one.
#[derive(Clone, Debug, PartialEq, Eq)]
pub struct UserRequest {
    pub id: Option<String>,
    pub email: String,
    pub name: String,
    pub role: String,
    pub password: String,
}

/// The envelope that wraps every reply that has a body: a label for people,
/// the transport status as text, and the payload where there is one.
#[derive(Clone, Debug, PartialEq, Eq)]
pub struct Response<T> {
    pub status: String,
    pub status_code: String,
    pub data: Option<T>,
}

impl Clone for User {
    fn clone(&self) -> (copy: Self)
        ensures
            copy == *self,
    {
        User {
            id: self.id.clone(),
            email: self.email.clone(),
            name: self.name.clone(),
            role: self.role.clone(),
            password: self.password.clone(),
        }
    }
}

impl User {
    /// The row that `request` asks for: its own `id` where it names one,
    /// `fallback_id` where it does not; every other field as requested.
    pub open spec fn of_request(request: UserRequest, fallback_id: String) -> User {
        User {
            id: match request.id {
                Some(id) => id,
                None => fallback_id,
            },
            email: request.email,
            name: request.name,
            role: request.role,
            password: request.password,
        }
    }

    /// Builds the row for `request`, taking `fallback_id` only where the
    /// request names no `id`.
    pub fn from_request(request: UserRequest, fallback_id: String) -> (user: User)
        ensures
            user == User::of_request(request, fallback_id),
    {
        let UserRequest { id, email, name, role, password } = request;
        let id = match id {
            Some(id) => id,
            None => fallback_id,
        };
        User { id, email, name, role, password }
    }
}

} // verus!
