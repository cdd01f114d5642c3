//! The response each action gives for the outcome of its statement.
use vstd::prelude::*;
use vstd::string::StringExecFns;
use crate::json::{digits_of, push_digits, user_json, user_to_json, users_json, users_to_json};
use crate::store::{StoreError, fetched_view, looked_up, lookup};
use crate::user::{User, UserView};

verus! {

/// What a response body holds.
#[derive(Clone, Copy, Debug, PartialEq, Eq, Structural)]
pub enum BodyKind {
    /// `application/json`
    Json,
    /// Plain text.
    Text,
    /// No body.
    Empty,
}

/// An HTTP response: status code, kind of body, and body text.
pub struct Response {
    pub status: u16,
    pub kind: BodyKind,
    pub body: String,
}

/// The model of a response.
pub struct ResponseView {
    pub status: u16,
    pub kind: BodyKind,
    pub body: Seq<char>,
}

impl View for Response {
    type V = ResponseView;

    open spec fn view(&self) -> ResponseView {
        ResponseView { status: self.status, kind: self.kind, body: self.body@ }
    }
}

/// 200 with a JSON body.
pub open spec fn ok_json(body: Seq<char>) -> ResponseView {
    ResponseView { status: 200, kind: BodyKind::Json, body }
}

/// 400 with a fixed message.
pub open spec fn bad_request(message: Seq<char>) -> ResponseView {
    ResponseView { status: 400, kind: BodyKind::Text, body: message }
}

/// `GET /users`: the array of all rows, or 400.
pub open spec fn list_response(fetched: Result<Seq<UserView>, StoreError>) -> ResponseView {
    match fetched {
        Ok(us) => ok_json(users_json(us)),
        Err(_) => bad_request("Error trying to read all users from database"@),
    }
}

/// `GET /users/{id}`: the one matching row, or 400.
pub open spec fn get_response(fetched: Result<Seq<UserView>, StoreError>) -> ResponseView {
    match looked_up(fetched) {
        Ok(u) => ok_json(user_json(u)),
        Err(_) => bad_request("User not found"@),
    }
}

/// `POST /users`: the row the insert returned, or 400.
pub open spec fn create_response(returned: Result<Seq<UserView>, StoreError>) -> ResponseView {
    match looked_up(returned) {
        Ok(u) => ok_json(user_json(u)),
        Err(_) => bad_request("Error trying to create a new user."@),
    }
}

/// `DELETE /users/{id}`: a confirmation with the number of rows removed when
/// there is one at least, else 400.
pub open spec fn delete_response(deleted: Result<u64, StoreError>) -> ResponseView {
    match deleted {
        Ok(n) => if n > 0 {
            ResponseView {
                status: 200,
                kind: BodyKind::Text,
                body: "Successfully deleted "@ + digits_of(n as nat) + " user(s)"@,
            }
        } else {
            bad_request("User not found"@)
        },
        Err(_) => bad_request("User not found"@),
    }
}

/// Any request that selects no action: 404 with an empty body.
pub open spec fn not_found_response() -> ResponseView {
    ResponseView { status: 404, kind: BodyKind::Empty, body: seq![] }
}

fn bad_request_with(message: &str) -> (r: Response)
    ensures
        r@ == bad_request(message@),
{
    Response { status: 400, kind: BodyKind::Text, body: String::from_str(message) }
}

/// The response to `GET /users` for the rows the select returned.
pub fn get_users(fetched: Result<Vec<User>, StoreError>) -> (r: Response)
    ensures
        r@ == list_response(fetched_view(fetched)),
{
    match fetched {
        Ok(us) => Response { status: 200, kind: BodyKind::Json, body: users_to_json(&us) },
        Err(_) => bad_request_with("Error trying to read all users from database"),
    }
}

/// The response to `GET /users/{id}` for the rows the select returned.
pub fn get_user(fetched: Result<Vec<User>, StoreError>) -> (r: Response)
    ensures
        r@ == get_response(fetched_view(fetched)),
{
    match lookup(fetched) {
        Ok(u) => Response { status: 200, kind: BodyKind::Json, body: user_to_json(&u) },
        Err(_) => bad_request_with("User not found"),
    }
}

/// The response to `POST /users` for the rows the insert returned.
pub fn create_user(returned: Result<Vec<User>, StoreError>) -> (r: Response)
    ensures
        r@ == create_response(fetched_view(returned)),
{
    match lookup(returned) {
        Ok(u) => Response { status: 200, kind: BodyKind::Json, body: user_to_json(&u) },
        Err(_) => bad_request_with("Error trying to create a new user."),
    }
}

/// The response to `DELETE /users/{id}` for the number of rows removed.
pub fn delete_user(deleted: Result<u64, StoreError>) -> (r: Response)
    ensures
        r@ == delete_response(deleted),
{
    match deleted {
        Ok(n) => {
            if n > 0 {
                let mut body = String::from_str("Successfully deleted ");
                push_digits(&mut body, n);
                body.append(" user(s)");
                Response { status: 200, kind: BodyKind::Text, body }
            } else {
                bad_request_with("User not found")
            }
        },
        Err(_) => bad_request_with("User not found"),
    }
}

/// The response to a request that selects no action.
pub fn not_found() -> (r: Response)
    ensures
        r@ == not_found_response(),
{
    let body = String::new();
    assert(body@ =~= seq![]);
    Response { status: 404, kind: BodyKind::Empty, body }
}

} // verus!
