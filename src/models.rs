use vstd::prelude::*;

verus! {

/// The mathematical value of a stored or returned user.
pub struct UserModel {
    pub id: int,
    pub email: Seq<char>,
    pub username: Seq<char>,
    pub password: Seq<char>,
    pub token: Option<Seq<char>>,
}

/// A persisted user account; `token` is only ever set in a login response.
pub struct User {
    pub id: i32,
    pub email: String,
    pub username: String,
    pub password: String,
    pub token: Option<String>,
}

/// The payload that creates a user: everything but the id and the token.
pub struct NewUser {
    pub email: String,
    pub username: String,
    pub password: String,
}

/// The mathematical value of a creation payload.
pub struct NewUserModel {
    pub email: Seq<char>,
    pub username: Seq<char>,
    pub password: Seq<char>,
}

pub open spec fn token_view(t: Option<String>) -> Option<Seq<char>> {
    match t {
        Some(s) => Some(s@),
        None => None,
    }
}

impl View for User {
    type V = UserModel;

    open spec fn view(&self) -> UserModel {
        UserModel {
            id: self.id as int,
            email: self.email@,
            username: self.username@,
            password: self.password@,
            token: token_view(self.token),
        }
    }
}

impl View for NewUser {
    type V = NewUserModel;

    open spec fn view(&self) -> NewUserModel {
        NewUserModel { email: self.email@, username: self.username@, password: self.password@ }
    }
}

impl User {
    /// A copy of this user, field by field.
    pub fn copy(&self) -> (r: User)
        ensures
            r@ == self@,
    {
        let token = match &self.token {
            Some(t) => Some(t.clone()),
            None => None,
        };
        User {
            id: self.id,
            email: self.email.clone(),
            username: self.username.clone(),
            password: self.password.clone(),
            token,
        }
    }
}

} // verus!
