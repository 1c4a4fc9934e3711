//! The users table as the store gateway sees it, what each of its answers
//! means for the table, and the properties of the handlers that follow when
//! the store answers so.

use vstd::prelude::*;
use crate::handlers::{
    action_for, delete_outcome, get_outcome, list_outcome, post_outcome, prepared_from,
    put_outcome, Action, StoreError,
};
use crate::password::{is_bcrypt_of, needs_hash};
use crate::json::{json_array, user_json, users_json};
use crate::request::{id_text, id_value, route_of, starts_with, Route};
use crate::response::{responds, Status};
use crate::user::User;

verus! {

/// The stored fields of one row.
pub struct Record {
    pub name: Seq<char>,
    pub email: Seq<char>,
    pub password: Seq<char>,
}

pub open spec fn record_of(u: User) -> Record {
    Record { name: u.name@, email: u.email@, password: u.password@ }
}

/// `u` is the row of `t` with its id.
pub open spec fn is_row_of(t: Map<i32, Record>, u: User) -> bool {
    u.id matches Some(k) && t.contains_key(k) && record_of(u) == t[k]
}

/// `rows` is the store's answer to listing `t`: every row once.
pub open spec fn list_answer(t: Map<i32, Record>, rows: Seq<User>) -> bool {
    &&& t.dom().finite()
    &&& rows.len() == t.dom().len()
    &&& forall|i: int| 0 <= i < rows.len() ==> is_row_of(t, #[trigger] rows[i])
    &&& forall|i: int, j: int|
        0 <= i < j < rows.len() ==> #[trigger] rows[i].id != #[trigger] rows[j].id
}

/// `c` is the store's answer to inserting `u` into `t`, which becomes `t2`:
/// the row gets a fresh id and keeps the fields given.
pub open spec fn insert_answer(t: Map<i32, Record>, u: User, c: User, t2: Map<i32, Record>) -> bool {
    &&& c.id matches Some(k) && !t.contains_key(k) && t2 == t.insert(k, record_of(u))
    &&& record_of(c) == record_of(u)
}

/// `g` is the store's answer to reading id `k` from `t`.
pub open spec fn get_answer(t: Map<i32, Record>, k: i32, g: Result<Option<User>, StoreError>) -> bool {
    match g {
        Ok(Some(x)) => x.id == Some(k) && is_row_of(t, x),
        Ok(None) => !t.contains_key(k),
        Err(_) => true,
    }
}

/// `d` is the store's answer to deleting id `k` from `t`, which becomes `t2`.
pub open spec fn delete_answer(
    t: Map<i32, Record>,
    k: i32,
    d: Result<u64, StoreError>,
    t2: Map<i32, Record>,
) -> bool {
    match d {
        Ok(n) => n == (if t.contains_key(k) {
            1u64
        } else {
            0u64
        }) && t2 == t.remove(k),
        Err(_) => t2 == t,
    }
}

/// `d` is the store's answer to writing the fields of `u` to the row with id
/// `k` of `t`, which becomes `t2`: the whole row is replaced, whatever id `u`
/// holds.
pub open spec fn update_answer(
    t: Map<i32, Record>,
    k: i32,
    u: User,
    d: Result<u64, StoreError>,
    t2: Map<i32, Record>,
) -> bool {
    match d {
        Ok(n) => if t.contains_key(k) {
            n == 1 && t2 == t.insert(k, record_of(u))
        } else {
            n == 0 && t2 == t
        },
        Err(_) => t2 == t,
    }
}

/// An update of an existing row answers "User updated" and leaves the row with
/// the name and email sent, and with the password sent when it is long enough,
/// else a bcrypt hash of it that differs from it.
pub proof fn lemma_update_stores(
    t: Map<i32, Record>,
    k: i32,
    sent: User,
    p: User,
    d: Result<u64, StoreError>,
    t2: Map<i32, Record>,
)
    requires
        prepared_from(sent, p),
        t.contains_key(k),
        update_answer(t, k, p, d, t2),
        d is Ok,
    ensures
        put_outcome(Ok(d->Ok_0)) == (Status::Success, "User updated"@),
        t2.contains_key(k),
        t2[k].name == sent.name@,
        t2[k].email == sent.email@,
        !needs_hash(sent.password@) ==> t2[k].password == sent.password@,
        needs_hash(sent.password@) ==> is_bcrypt_of(t2[k].password, sent.password@)
            && t2[k].password != sent.password@,
        forall|j: i32| j != k ==> t2.contains_key(j) == t.contains_key(j),
{
}

/// A created user has an id, and reading that id back gives a row with the
/// name and email that were sent; both answers are successes with the JSON
/// of the row.
pub proof fn lemma_create_then_get(
    t: Map<i32, Record>,
    u: User,
    c: User,
    t2: Map<i32, Record>,
    g: Result<Option<User>, StoreError>,
)
    requires
        insert_answer(t, u, c, t2),
        get_answer(t2, c.id->Some_0, g),
        g is Ok,
    ensures
        c.id is Some,
        post_outcome(Ok(c)) == (Status::Success, user_json(c)),
        g matches Ok(Some(x)) && x.name@ == u.name@ && x.email@ == u.email@ && get_outcome(g) == (
        Status::Success, user_json(x)),
{
}

/// Deleting an id answers "User deleted" when the row was there and "User not
/// found" when it was not; either way a later read of that id is not found.
pub proof fn lemma_delete_then_get(
    t: Map<i32, Record>,
    k: i32,
    d: Result<u64, StoreError>,
    t2: Map<i32, Record>,
    g: Result<Option<User>, StoreError>,
)
    requires
        delete_answer(t, k, d, t2),
        d is Ok,
        get_answer(t2, k, g),
        g is Ok,
    ensures
        t.contains_key(k) ==> delete_outcome(d) == (Status::Success, "User deleted"@),
        !t.contains_key(k) ==> delete_outcome(d) == (Status::NotFound, "User not found"@),
        get_outcome(g) == (Status::NotFound, "User not found"@),
{
}

/// A read of an id that has no row is answered 404 "User not found".
pub proof fn lemma_get_missing(t: Map<i32, Record>, k: i32, g: Result<Option<User>, StoreError>)
    requires
        !t.contains_key(k),
        get_answer(t, k, g),
        g is Ok,
    ensures
        get_outcome(g) == (Status::NotFound, "User not found"@),
{
}

/// The listing is a JSON array with one element per row of the table.
pub proof fn lemma_list_counts_rows(t: Map<i32, Record>, rows: Vec<User>)
    requires
        list_answer(t, rows@),
    ensures
        list_outcome(Ok(rows)) == (Status::Success, json_array(
            rows@.map_values(|u: User| user_json(u)),
        )),
        rows@.map_values(|u: User| user_json(u)).len() == t.dom().len(),
{
}

/// A request that starts with none of the five route prefixes is answered
/// 404 "Not Found", whatever else its text holds.
pub proof fn lemma_unmatched_not_found(r: Seq<char>, a: Action)
    requires
        !starts_with(r, "GET /users"@),
        !starts_with(r, "GET /users/"@),
        !starts_with(r, "POST /users"@),
        !starts_with(r, "PUT /users/"@),
        !starts_with(r, "DELETE /users/"@),
        action_for(r, a),
    ensures
        a matches Action::Respond(resp) && responds(resp, Status::NotFound, "Not Found"@),
{
}

/// A read by id whose identifier is not an integer cannot be served.
pub proof fn lemma_get_bad_id(r: Seq<char>, a: Action)
    requires
        starts_with(r, "GET /users/"@),
        id_value(id_text(r)) is None,
        action_for(r, a),
    ensures
        a is InvalidId,
{
    assert(route_of(r) == Route::GetById);
}

} // verus!
