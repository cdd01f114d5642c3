//! The `User` record, its mathematical model, and a model of the `users`
//! table in which the service's laws are stated.
use vstd::prelude::*;

verus! {

/// One row of the `users` table.
pub struct User {
    pub id: i32,
    pub username: String,
    pub password: String,
    pub email: String,
}

/// The model of a `User`: its id and the characters of each text field.
pub struct UserView {
    pub id: i32,
    pub username: Seq<char>,
    pub password: Seq<char>,
    pub email: Seq<char>,
}

impl View for User {
    type V = UserView;

    open spec fn view(&self) -> UserView {
        UserView {
            id: self.id,
            username: self.username@,
            password: self.password@,
            email: self.email@,
        }
    }
}

impl User {
    pub fn new(id: i32, username: String, password: String, email: String) -> (r: User)
        ensures
            r@ == (UserView { id, username: username@, password: password@, email: email@ }),
    {
        User { id, username, password, email }
    }
}

/// The body of a create request: the three text fields of a new user.
pub struct CreateUserParams {
    pub username: String,
    pub password: String,
    pub email: String,
}

/// The models of a sequence of users, in the same order.
pub open spec fn users_view(us: Seq<User>) -> Seq<UserView> {
    us.map_values(|u: User| u@)
}

} // verus!
