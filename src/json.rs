//! JSON text of user records, in the compact form with the fields in the
//! order `id`, `name`, `email`, `password`.

use vstd::prelude::*;
use crate::user::User;

verus! {

/// A lower-case hexadecimal digit.
pub open spec fn hex_digit(d: u32) -> char {
    if d < 10 {
        (d + 48) as char
    } else {
        (d + 87) as char
    }
}

/// How one character is written inside a JSON string literal: `"` and `\`
/// after a backslash, the controls with a short escape as such, the other
/// controls below 0x20 as `\u00` and two hex digits, and the rest as it is.
pub open spec fn escape_char(c: char) -> Seq<char> {
    let v = c as u32;
    if c == '"' {
        seq!['\\', '"']
    } else if c == '\\' {
        seq!['\\', '\\']
    } else if v == 0x08 {
        seq!['\\', 'b']
    } else if v == 0x09 {
        seq!['\\', 't']
    } else if v == 0x0A {
        seq!['\\', 'n']
    } else if v == 0x0C {
        seq!['\\', 'f']
    } else if v == 0x0D {
        seq!['\\', 'r']
    } else if v < 0x20 {
        seq!['\\', 'u', '0', '0', hex_digit(v / 16), hex_digit(v % 16)]
    } else {
        seq![c]
    }
}

/// The escaped characters of a text, in order.
pub open spec fn escaped(s: Seq<char>) -> Seq<char>
    decreases s.len(),
{
    if s.len() == 0 {
        Seq::empty()
    } else {
        escaped(s.drop_last()) + escape_char(s.last())
    }
}

/// The JSON string literal of a text, quotes included.
pub open spec fn json_string(s: Seq<char>) -> Seq<char> {
    seq!['"'] + escaped(s) + seq!['"']
}

/// Relies on `serde_json::to_string` on a `str`: the text between double
/// quotes, escaped by serde_json's escape table (`format_escaped_str`,
/// `write_char_escape`). The serializer writes into a `Vec<u8>`, which cannot
/// fail.
#[verifier::external_body]
fn quote(s: &str) -> (r: String)
    ensures
        r@ == json_string(s@),
{
    serde_json::to_string(s).unwrap_or_default()
}

/// The character of a decimal digit value.
pub open spec fn digit_char(d: nat) -> char {
    (d + 48) as char
}

/// Decimal digits of a natural number, most significant first.
pub open spec fn decimal_nat(n: nat) -> Seq<char>
    decreases n,
{
    if n < 10 {
        seq![digit_char(n)]
    } else {
        decimal_nat(n / 10).push(digit_char(n % 10))
    }
}

/// Decimal text of an integer, with `-` before a negative one.
pub open spec fn decimal(v: int) -> Seq<char> {
    if v < 0 {
        seq!['-'] + decimal_nat((-v) as nat)
    } else {
        decimal_nat(v as nat)
    }
}

/// Relies on `serde_json::to_string` on an `i32`: its decimal text, as a
/// JSON number. The serializer writes into a `Vec<u8>`, which cannot fail.
#[verifier::external_body]
fn number(v: i32) -> (r: String)
    ensures
        r@ == decimal(v as int),
{
    serde_json::to_string(&v).unwrap_or_default()
}

/// The JSON of an optional identifier: a number, or `null`.
pub open spec fn id_json(id: Option<i32>) -> Seq<char> {
    match id {
        Some(v) => decimal(v as int),
        None => "null"@,
    }
}

/// The JSON object of one user record.
pub open spec fn user_json(u: User) -> Seq<char> {
    "{\"id\":"@ + id_json(u.id) + ",\"name\":"@ + json_string(u.name@) + ",\"email\":"@
        + json_string(u.email@) + ",\"password\":"@ + json_string(u.password@) + "}"@
}

/// The texts joined with commas between them.
pub open spec fn join_items(items: Seq<Seq<char>>) -> Seq<char>
    decreases items.len(),
{
    if items.len() == 0 {
        Seq::empty()
    } else if items.len() == 1 {
        items[0]
    } else {
        join_items(items.drop_last()) + ","@ + items.last()
    }
}

/// A JSON array with the given element texts.
pub open spec fn json_array(items: Seq<Seq<char>>) -> Seq<char> {
    "["@ + join_items(items) + "]"@
}

/// The JSON array of the records, in their order.
pub open spec fn users_json(us: Seq<User>) -> Seq<char> {
    json_array(us.map_values(|u: User| user_json(u)))
}

/// The JSON object of a user record.
pub fn user_to_json(u: &User) -> (r: String)
    ensures
        r@ == user_json(*u),
{
    let mut r = String::from_str("{\"id\":");
    match u.id {
        Some(v) => {
            let t = number(v);
            r.append(t.as_str());
        },
        None => {
            r.append("null");
        },
    }
    r.append(",\"name\":");
    let t = quote(u.name.as_str());
    r.append(t.as_str());
    r.append(",\"email\":");
    let t = quote(u.email.as_str());
    r.append(t.as_str());
    r.append(",\"password\":");
    let t = quote(u.password.as_str());
    r.append(t.as_str());
    r.append("}");
    r
}

/// The JSON array of user records.
pub fn users_to_json(us: &Vec<User>) -> (r: String)
    ensures
        r@ == users_json(us@),
{
    let mut r = String::from_str("[");
    let mut i: usize = 0;
    while i < us.len()
        invariant
            i <= us@.len(),
            r@ == "["@ + join_items(us@.subrange(0, i as int).map_values(|u: User| user_json(u))),
        decreases us@.len() - i,
    {
        let ghost before = us@.subrange(0, i as int).map_values(|u: User| user_json(u));
        let ghost after = us@.subrange(0, i + 1).map_values(|u: User| user_json(u));
        assert(after.drop_last() =~= before);
        if i > 0 {
            r.append(",");
        }
        let t = user_to_json(&us[i]);
        r.append(t.as_str());
        proof {
            if i == 0 {
                assert(before =~= Seq::<Seq<char>>::empty());
                assert("["@ + Seq::<char>::empty() =~= "["@);
            }
        }
        i += 1;
    }
    assert(us@.subrange(0, i as int) =~= us@);
    r.append("]");
    r
}

} // verus!
