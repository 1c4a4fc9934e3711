use vstd::prelude::*;

verus! {

/// A user record. `id` is absent on records that the store has not yet
/// assigned an identifier to.
pub struct User {
    pub id: Option<i32>,
    pub name: String,
    pub email: String,
    pub password: String,
}

impl User {
    /// A record with the given fields.
    pub fn new(id: Option<i32>, name: String, email: String, password: String) -> (r: User)
        ensures
            r.id == id,
            r.name@ == name@,
            r.email@ == email@,
            r.password@ == password@,
    {
        User { id, name, email, password }
    }
}

} // verus!
