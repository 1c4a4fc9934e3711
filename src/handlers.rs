//! What the service answers: which store operation a request asks for, and
//! the response of each resource handler to the outcome of that operation.

use vstd::prelude::*;
use crate::json::{user_json, user_to_json, users_json, users_to_json};
use crate::password::{is_bcrypt_of, needs_hash, stored_password};
use crate::request::{
    body_of, get_id, get_user_request_body, id_text, id_value, parse_id, route, route_of, Route,
};
use crate::response::{responds, Response, Status};
use crate::user::User;

verus! {

/// A failure of the relational store.
#[derive(Clone, Copy, Debug, PartialEq, Eq)]
pub enum StoreError {
    /// The store could not be reached.
    Connection,
    /// The statement failed.
    Query,
}

/// A failure on the way to a store write.
#[derive(Clone, Copy, Debug, PartialEq, Eq)]
pub enum RequestError {
    /// The body is not a well-formed user record.
    Decode,
    /// The password hash could not be made.
    Hash,
    /// The store failed.
    Store(StoreError),
}

/// What a request asks of the caller, once its text has been read.
pub enum Action {
    /// Read all rows, then answer with `handle_get_all_users_request`.
    ListUsers,
    /// Read the row with this id, then answer with `handle_get_request`.
    GetUser(i32),
    /// Decode this body, insert it, then answer with `handle_post_request`.
    CreateUser(String),
    /// Decode this body, prepare it with `prepare_update`, write it to the row
    /// with this id, then answer with `handle_put_request`.
    UpdateUser(i32, String),
    /// Delete the row with this id, then answer with `handle_delete_request`.
    DeleteUser(i32),
    /// The path identifier is not an integer: the request cannot be served.
    InvalidId,
    /// Answer at once with this response.
    Respond(Response),
}

/// `a` is the action for a request with text `r`.
pub open spec fn action_for(r: Seq<char>, a: Action) -> bool {
    match route_of(r) {
        Route::ListAll => a is ListUsers,
        Route::GetById => match id_value(id_text(r)) {
            Some(id) => a == Action::GetUser(id),
            None => a is InvalidId,
        },
        Route::Create => a matches Action::CreateUser(b) && b@ == body_of(r),
        Route::Update => match id_value(id_text(r)) {
            Some(id) => a matches Action::UpdateUser(i, b) && i == id && b@ == body_of(r),
            None => a is InvalidId,
        },
        Route::Delete => match id_value(id_text(r)) {
            Some(id) => a == Action::DeleteUser(id),
            None => a is InvalidId,
        },
        Route::NotFound => a matches Action::Respond(resp) && responds(
            resp,
            Status::NotFound,
            "Not Found"@,
        ),
    }
}

/// The response has the given status and body text.
pub open spec fn answers(r: Response, o: (Status, Seq<char>)) -> bool {
    responds(r, o.0, o.1)
}

/// Status and body of the answer to a listing.
pub open spec fn list_outcome(rows: Result<Vec<User>, StoreError>) -> (Status, Seq<char>) {
    match rows {
        Ok(us) => (Status::Success, users_json(us@)),
        Err(_) => (Status::ServerError, "Error"@),
    }
}

/// Status and body of the answer to a read by id.
pub open spec fn get_outcome(row: Result<Option<User>, StoreError>) -> (Status, Seq<char>) {
    match row {
        Ok(Some(u)) => (Status::Success, user_json(u)),
        Ok(None) => (Status::NotFound, "User not found"@),
        Err(_) => (Status::ServerError, "Error"@),
    }
}

/// Status and body of the answer to a create.
pub open spec fn post_outcome(created: Result<User, RequestError>) -> (Status, Seq<char>) {
    match created {
        Ok(u) => (Status::Success, user_json(u)),
        Err(_) => (Status::ServerError, "Error creating user"@),
    }
}

/// Status and body of the answer to an update.
pub open spec fn put_outcome(updated: Result<u64, RequestError>) -> (Status, Seq<char>) {
    match updated {
        Ok(_) => (Status::Success, "User updated"@),
        Err(_) => (Status::ServerError, "Error updating user"@),
    }
}

/// Status and body of the answer to a delete: not found when no row went.
pub open spec fn delete_outcome(deleted: Result<u64, StoreError>) -> (Status, Seq<char>) {
    match deleted {
        Ok(n) => if n == 0 {
            (Status::NotFound, "User not found"@)
        } else {
            (Status::Success, "User deleted"@)
        },
        Err(_) => (Status::ServerError, "Error deleting user"@),
    }
}

fn request_id(request: &str) -> (r: Option<i32>)
    ensures
        r == id_value(id_text(request@)),
{
    parse_id(get_id(request))
}

/// Reads a request's text and says what must be done for it.
pub fn dispatch(request: &str) -> (a: Action)
    ensures
        action_for(request@, a),
{
    match route(request) {
        Route::ListAll => Action::ListUsers,
        Route::GetById => match request_id(request) {
            Some(id) => Action::GetUser(id),
            None => Action::InvalidId,
        },
        Route::Create => Action::CreateUser(String::from_str(get_user_request_body(request))),
        Route::Update => match request_id(request) {
            Some(id) => Action::UpdateUser(id, String::from_str(get_user_request_body(request))),
            None => Action::InvalidId,
        },
        Route::Delete => match request_id(request) {
            Some(id) => Action::DeleteUser(id),
            None => Action::InvalidId,
        },
        Route::NotFound => Action::Respond(not_found_response()),
    }
}

/// The response to a request on no known route.
pub fn not_found_response() -> (r: Response)
    ensures
        responds(r, Status::NotFound, "Not Found"@),
{
    Response::new(Status::NotFound, "Not Found")
}

/// The answer to a listing, given the rows read or the store's failure.
pub fn handle_get_all_users_request(rows: Result<Vec<User>, StoreError>) -> (r: Response)
    ensures
        answers(r, list_outcome(rows)),
{
    match rows {
        Ok(us) => Response { status: Status::Success, body: users_to_json(&us) },
        Err(_) => Response::new(Status::ServerError, "Error"),
    }
}

/// The answer to a read by id, given the row (if any) or the store's failure.
pub fn handle_get_request(row: Result<Option<User>, StoreError>) -> (r: Response)
    ensures
        answers(r, get_outcome(row)),
{
    match row {
        Ok(Some(u)) => Response { status: Status::Success, body: user_to_json(&u) },
        Ok(None) => Response::new(Status::NotFound, "User not found"),
        Err(_) => Response::new(Status::ServerError, "Error"),
    }
}

/// The answer to a create, given the inserted row or the failure on the way.
pub fn handle_post_request(created: Result<User, RequestError>) -> (r: Response)
    ensures
        answers(r, post_outcome(created)),
{
    match created {
        Ok(u) => Response { status: Status::Success, body: user_to_json(&u) },
        Err(_) => Response::new(Status::ServerError, "Error creating user"),
    }
}

/// `p` is the record that an update writes for the decoded record `sent`:
/// the same id, name and email, and the password to store for the one sent,
/// which is a bcrypt hash of it when it is short and the password itself
/// otherwise.
pub open spec fn prepared_from(sent: User, p: User) -> bool {
    &&& p.id == sent.id
    &&& p.name@ == sent.name@
    &&& p.email@ == sent.email@
    &&& if needs_hash(sent.password@) {
        is_bcrypt_of(p.password@, sent.password@) && p.password@.len() == 60 && p.password@
            != sent.password@
    } else {
        p.password@ == sent.password@
    }
}

/// The record that an update writes: the decoded record with its password
/// replaced by the value to store for it. Only the hash can fail.
pub fn prepare_update(user: User) -> (r: Result<User, RequestError>)
    ensures
        r matches Ok(u) ==> prepared_from(user, u),
        !needs_hash(user.password@) ==> r is Ok,
        r matches Err(e) ==> e == RequestError::Hash,
{
    match stored_password(user.password.as_str()) {
        Some(p) => Ok(User { id: user.id, name: user.name, email: user.email, password: p }),
        None => Err(RequestError::Hash),
    }
}

/// The answer to an update, given the rows changed or the failure on the way.
pub fn handle_put_request(updated: Result<u64, RequestError>) -> (r: Response)
    ensures
        answers(r, put_outcome(updated)),
{
    match updated {
        Ok(_) => Response::new(Status::Success, "User updated"),
        Err(_) => Response::new(Status::ServerError, "Error updating user"),
    }
}

/// The answer to a delete, given the rows removed or the store's failure.
pub fn handle_delete_request(deleted: Result<u64, StoreError>) -> (r: Response)
    ensures
        answers(r, delete_outcome(deleted)),
{
    match deleted {
        Ok(n) => if n == 0 {
            Response::new(Status::NotFound, "User not found")
        } else {
            Response::new(Status::Success, "User deleted")
        },
        Err(_) => Response::new(Status::ServerError, "Error deleting user"),
    }
}

} // verus!
