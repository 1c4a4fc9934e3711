//! A small user-record service: request classification, identifier and body
//! extraction, JSON rendering of user records, the password storage policy and
//! the response that each resource handler gives for each store outcome.
//! Socket and database work stays with the caller, which hands the outcomes in.

mod handlers;
mod json;
mod password;
mod request;
mod response;
mod store;
mod user;

pub use handlers::{
    dispatch, handle_delete_request, handle_get_all_users_request, handle_get_request,
    handle_post_request, handle_put_request, not_found_response, prepare_update, Action,
    RequestError, StoreError,
};
pub use json::{user_to_json, users_to_json};
pub use password::{stored_password, HASH_THRESHOLD};
pub use request::{get_id, get_user_request_body, parse_id, route, Route};
pub use response::{Response, Status, INTERNAL_SERVER_ERROR, NOT_FOUND, OK_RESPONSE};
pub use store::{
    lemma_create_then_get, lemma_delete_then_get, lemma_get_bad_id, lemma_get_missing,
    lemma_list_counts_rows, lemma_unmatched_not_found, lemma_update_stores, Record,
};
pub use user::User;
