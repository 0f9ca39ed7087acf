//! The user record.

use vstd::prelude::*;

verus! {

/// A user: the id is absent until the table has assigned one.
#[derive(Debug, PartialEq, Eq)]
pub struct User {
    pub id: Option<i32>,
    pub name: String,
    pub email: String,
}

/// A user as a mathematical value.
pub struct UserView {
    pub id: Option<i32>,
    pub name: Seq<char>,
    pub email: Seq<char>,
}

impl View for User {
    type V = UserView;

    open spec fn view(&self) -> UserView {
        UserView { id: self.id, name: self.name@, email: self.email@ }
    }
}

/// The users of `users` as mathematical values.
pub open spec fn user_views(users: Seq<User>) -> Seq<UserView> {
    users.map_values(|u: User| u@)
}

impl Clone for User {
    fn clone(&self) -> (copy: Self)
        ensures
            copy@ == self@,
    {
        User { id: self.id, name: self.name.clone(), email: self.email.clone() }
    }
}

impl User {
    /// A user with the given fields.
    pub fn new(id: Option<i32>, name: &str, email: &str) -> (user: User)
        ensures
            user@ == (UserView { id, name: name@, email: email@ }),
    {
        User { id, name: name.to_owned(), email: email.to_owned() }
    }
}

} // verus!
