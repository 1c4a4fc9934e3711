//! Reading a raw request: which route it takes, the identifier in its path and
//! the text of its body.

use vstd::prelude::*;

verus! {

/// The five resource routes, and the fallback for everything else.
#[derive(Clone, Copy, Debug, PartialEq, Eq)]
pub enum Route {
    ListAll,
    GetById,
    Create,
    Update,
    Delete,
    NotFound,
}

/// `p` is a prefix of `s`.
pub open spec fn starts_with(s: Seq<char>, p: Seq<char>) -> bool {
    p.len() <= s.len() && s.subrange(0, p.len() as int) == p
}

/// The route of a request, by the literal prefixes of its text in their fixed
/// order; `GET /users` takes the list route only when the text does not go on
/// with `/`.
pub open spec fn route_of(r: Seq<char>) -> Route {
    if starts_with(r, "GET /users"@) && !starts_with(r, "GET /users/"@) {
        Route::ListAll
    } else if starts_with(r, "GET /users/"@) {
        Route::GetById
    } else if starts_with(r, "POST /users"@) {
        Route::Create
    } else if starts_with(r, "PUT /users/"@) {
        Route::Update
    } else if starts_with(r, "DELETE /users/"@) {
        Route::Delete
    } else {
        Route::NotFound
    }
}

/// The characters that `char::is_whitespace` accepts: Unicode `White_Space`.
pub open spec fn is_ws(c: char) -> bool {
    let v = c as u32;
    (0x09 <= v && v <= 0x0D) || v == 0x20 || v == 0x85 || v == 0xA0 || v == 0x1680 || (0x2000
        <= v && v <= 0x200A) || v == 0x2028 || v == 0x2029 || v == 0x202F || v == 0x205F || v
        == 0x3000
}

/// Index of the first `c` in `s` at or after `i`, or `s.len()` when there is none.
pub open spec fn find_char(s: Seq<char>, c: char, i: int) -> int
    decreases s.len() - i,
{
    if i >= s.len() {
        s.len() as int
    } else if s[i] == c {
        i
    } else {
        find_char(s, c, i + 1)
    }
}

/// Index of the first whitespace in `s` at or after `i`, or `s.len()`.
pub open spec fn find_ws(s: Seq<char>, i: int) -> int
    decreases s.len() - i,
{
    if i >= s.len() {
        s.len() as int
    } else if is_ws(s[i]) {
        i
    } else {
        find_ws(s, i + 1)
    }
}

/// Index of the first non-whitespace in `s` at or after `i`, or `s.len()`.
pub open spec fn skip_ws(s: Seq<char>, i: int) -> int
    decreases s.len() - i,
{
    if i >= s.len() {
        s.len() as int
    } else if !is_ws(s[i]) {
        i
    } else {
        skip_ws(s, i + 1)
    }
}

/// Where the `k`-th `/`-separated segment of `s` starts, if `s` has that many.
pub open spec fn segment_start(s: Seq<char>, k: nat) -> Option<int>
    decreases k,
{
    if k == 0 {
        Some(0)
    } else {
        match segment_start(s, (k - 1) as nat) {
            Some(st) => {
                let e = find_char(s, '/', st);
                if e < s.len() {
                    Some(e + 1)
                } else {
                    None
                }
            },
            None => None,
        }
    }
}

/// The `k`-th `/`-separated segment of `s` (counting from 0), or the empty
/// text when `s` has fewer segments.
pub open spec fn segment(s: Seq<char>, k: nat) -> Seq<char> {
    match segment_start(s, k) {
        Some(st) => s.subrange(st, find_char(s, '/', st)),
        None => Seq::empty(),
    }
}

/// The first whitespace-separated word of `s`, or the empty text.
pub open spec fn first_word(s: Seq<char>) -> Seq<char> {
    let a = skip_ws(s, 0);
    s.subrange(a, find_ws(s, a))
}

/// The identifier text of a request: the first word of the segment after
/// `users` in `/users/<id> HTTP/1.1`.
pub open spec fn id_text(r: Seq<char>) -> Seq<char> {
    first_word(segment(r, 2))
}

/// An ASCII decimal digit.
pub open spec fn is_digit(c: char) -> bool {
    '0' <= c && c <= '9'
}

/// The value of an ASCII decimal digit.
pub open spec fn digit_value(c: char) -> int {
    c as u32 - 48
}

/// The value of a text of decimal digits.
pub open spec fn digits_value(d: Seq<char>) -> int
    decreases d.len(),
{
    if d.len() == 0 {
        0
    } else {
        10 * digits_value(d.drop_last()) + digit_value(d.last())
    }
}

/// A non-empty text of decimal digits only.
pub open spec fn all_digits(d: Seq<char>) -> bool {
    d.len() > 0 && forall|i: int| 0 <= i < d.len() ==> is_digit(#[trigger] d[i])
}

/// The text starts with `+` or `-`.
pub open spec fn has_sign(s: Seq<char>) -> bool {
    s.len() > 0 && (s[0] == '-' || s[0] == '+')
}

/// The text after an optional leading sign.
pub open spec fn magnitude_text(s: Seq<char>) -> Seq<char> {
    if has_sign(s) {
        s.drop_first()
    } else {
        s
    }
}

/// The value of the digits after an optional sign, negated after `-`.
pub open spec fn signed_value(s: Seq<char>) -> int {
    if s.len() > 0 && s[0] == '-' {
        -digits_value(magnitude_text(s))
    } else {
        digits_value(magnitude_text(s))
    }
}

/// The `i32` that a text denotes as `i32::from_str` reads it: an optional `+`
/// or `-`, then one or more decimal digits, with a value in range.
pub open spec fn id_value(s: Seq<char>) -> Option<i32> {
    if all_digits(magnitude_text(s)) && i32::MIN <= signed_value(s) && signed_value(s)
        <= i32::MAX {
        Some(signed_value(s) as i32)
    } else {
        None
    }
}

/// The four characters at `i` are the blank line `\r\n\r\n`.
pub open spec fn blank_line_at(s: Seq<char>, i: int) -> bool {
    0 <= i && i + 4 <= s.len() && s[i] == '\r' && s[i + 1] == '\n' && s[i + 2] == '\r' && s[i
        + 3] == '\n'
}

/// Start of the last part of `s` split on `\r\n\r\n`, scanning from `i` with
/// the current part starting at `start`; separators do not overlap.
pub open spec fn last_part_start(s: Seq<char>, i: int, start: int) -> int
    decreases s.len() - i,
{
    if i + 4 > s.len() {
        start
    } else if blank_line_at(s, i) {
        last_part_start(s, i + 4, i + 4)
    } else {
        last_part_start(s, i + 1, start)
    }
}

/// The body of a request: the last part of its text split on `\r\n\r\n`.
pub open spec fn body_of(r: Seq<char>) -> Seq<char> {
    r.subrange(last_part_start(r, 0, 0), r.len() as int)
}

fn has_prefix(s: &str, p: &str) -> (r: bool)
    ensures
        r == starts_with(s@, p@),
{
    let n = s.unicode_len();
    let m = p.unicode_len();
    if m > n {
        return false;
    }
    let mut i: usize = 0;
    while i < m
        invariant
            i <= m <= n,
            n == s@.len(),
            m == p@.len(),
            forall|j: int| 0 <= j < i ==> s@[j] == p@[j],
        decreases m - i,
    {
        if s.get_char(i) != p.get_char(i) {
            assert(s@.subrange(0, m as int)[i as int] != p@[i as int]);
            return false;
        }
        i += 1;
    }
    assert(s@.subrange(0, m as int) =~= p@);
    true
}

/// Classifies a request by the literal prefix of its text.
pub fn route(request: &str) -> (r: Route)
    ensures
        r == route_of(request@),
{
    let list = has_prefix(request, "GET /users");
    let get = has_prefix(request, "GET /users/");
    if list && !get {
        Route::ListAll
    } else if get {
        Route::GetById
    } else if has_prefix(request, "POST /users") {
        Route::Create
    } else if has_prefix(request, "PUT /users/") {
        Route::Update
    } else if has_prefix(request, "DELETE /users/") {
        Route::Delete
    } else {
        Route::NotFound
    }
}

fn is_whitespace(c: char) -> (r: bool)
    ensures
        r == is_ws(c),
{
    let v = c as u32;
    (0x09 <= v && v <= 0x0D) || v == 0x20 || v == 0x85 || v == 0xA0 || v == 0x1680 || (0x2000
        <= v && v <= 0x200A) || v == 0x2028 || v == 0x2029 || v == 0x202F || v == 0x205F || v
        == 0x3000
}

fn find_char_from(s: &str, n: usize, c: char, i: usize) -> (r: usize)
    requires
        n == s@.len(),
        i <= n,
    ensures
        r == find_char(s@, c, i as int),
        i <= r <= n,
{
    let mut j = i;
    while j < n
        invariant
            i <= j <= n,
            n == s@.len(),
            find_char(s@, c, j as int) == find_char(s@, c, i as int),
        decreases n - j,
    {
        if s.get_char(j) == c {
            return j;
        }
        j += 1;
    }
    j
}

fn find_ws_from(s: &str, n: usize, i: usize) -> (r: usize)
    requires
        n == s@.len(),
        i <= n,
    ensures
        r == find_ws(s@, i as int),
        i <= r <= n,
{
    let mut j = i;
    while j < n
        invariant
            i <= j <= n,
            n == s@.len(),
            find_ws(s@, j as int) == find_ws(s@, i as int),
        decreases n - j,
    {
        if is_whitespace(s.get_char(j)) {
            return j;
        }
        j += 1;
    }
    j
}

fn skip_ws_from(s: &str, n: usize, i: usize) -> (r: usize)
    requires
        n == s@.len(),
        i <= n,
    ensures
        r == skip_ws(s@, i as int),
        i <= r <= n,
{
    let mut j = i;
    while j < n
        invariant
            i <= j <= n,
            n == s@.len(),
            skip_ws(s@, j as int) == skip_ws(s@, i as int),
        decreases n - j,
    {
        if !is_whitespace(s.get_char(j)) {
            return j;
        }
        j += 1;
    }
    j
}

/// The identifier text of a request path: the segment after `users`, up to the
/// first whitespace; empty when the path has no such segment.
pub fn get_id(request: &str) -> (r: &str)
    ensures
        r@ == id_text(request@),
{
    let n = request.unicode_len();
    let ghost s = request@;
    let a = find_char_from(request, n, '/', 0);
    assert(segment_start(s, 0) == Some(0int));
    assert(segment_start(s, 1) == if a < n { Some(a + 1) } else { None::<int> });
    if a >= n {
        proof {
            reveal_strlit("");
            assert(id_text(s) =~= Seq::<char>::empty());
        }
        return "";
    }
    let b = find_char_from(request, n, '/', a + 1);
    assert(segment_start(s, 2) == if b < n { Some(b + 1) } else { None::<int> });
    if b >= n {
        proof {
            reveal_strlit("");
            assert(id_text(s) =~= Seq::<char>::empty());
        }
        return "";
    }
    let c = find_char_from(request, n, '/', b + 1);
    let seg = request.substring_char(b + 1, c);
    assert(seg@ == segment(s, 2));
    let m = seg.unicode_len();
    let lo = skip_ws_from(seg, m, 0);
    let hi = find_ws_from(seg, m, lo);
    seg.substring_char(lo, hi)
}

proof fn lemma_digits_nonneg(d: Seq<char>)
    requires
        forall|i: int| 0 <= i < d.len() ==> is_digit(#[trigger] d[i]),
    ensures
        digits_value(d) >= 0,
    decreases d.len(),
{
    if d.len() > 0 {
        lemma_digits_nonneg(d.drop_last());
    }
}

/// A longer run of digits is worth at least as much as its prefix.
proof fn lemma_digits_prefix(d: Seq<char>, k: int)
    requires
        0 <= k <= d.len(),
        forall|i: int| 0 <= i < d.len() ==> is_digit(#[trigger] d[i]),
    ensures
        digits_value(d) >= digits_value(d.subrange(0, k)),
    decreases d.len(),
{
    if k == d.len() {
        assert(d.subrange(0, k) =~= d);
    } else {
        let e = d.drop_last();
        lemma_digits_prefix(e, k);
        lemma_digits_nonneg(e);
        assert(e.subrange(0, k) =~= d.subrange(0, k));
    }
}

/// Reads an identifier as a signed 32-bit integer; `None` where the text is
/// not one.
pub fn parse_id(s: &str) -> (r: Option<i32>)
    ensures
        r == id_value(s@),
{
    let n = s.unicode_len();
    if n == 0 {
        return None;
    }
    let first = s.get_char(0);
    let neg = first == '-';
    let start: usize = if first == '-' || first == '+' {
        1
    } else {
        0
    };
    let ghost d = if start == 1 {
        s@.drop_first()
    } else {
        s@
    };
    assert(d =~= s@.subrange(start as int, n as int));
    assert(d == magnitude_text(s@));
    if start >= n {
        return None;
    }
    let mut acc: u64 = 0;
    let mut i: usize = start;
    while i < n
        invariant
            start <= i <= n,
            n == s@.len(),
            d == s@.subrange(start as int, n as int),
            d == magnitude_text(s@),
            forall|j: int| start <= j < i ==> is_digit(#[trigger] s@[j]),
            acc == digits_value(s@.subrange(start as int, i as int)),
            acc <= 2147483648,
        decreases n - i,
    {
        let c = s.get_char(i);
        if !('0' <= c && c <= '9') {
            assert(!is_digit(d[i - start]));
            assert(!all_digits(d));
            assert(id_value(s@) is None);
            return None;
        }
        let dv = (c as u32 - 48) as u64;
        let next = acc * 10 + dv;
        assert(s@.subrange(start as int, i + 1).drop_last() =~= s@.subrange(
            start as int,
            i as int,
        ));
        assert(next == digits_value(s@.subrange(start as int, i + 1)));
        if next > 2147483648 {
            proof {
                if all_digits(d) {
                    lemma_digits_prefix(d, i + 1 - start);
                    assert(d.subrange(0, i + 1 - start) =~= s@.subrange(start as int, i + 1));
                    assert(digits_value(d) > 2147483648);
                }
                assert(id_value(s@) is None);
            }
            return None;
        }
        acc = next;
        i += 1;
    }
    assert(s@.subrange(start as int, n as int) =~= d);
    assert(all_digits(d)) by {
        assert forall|j: int| 0 <= j < d.len() implies is_digit(#[trigger] d[j]) by {
            assert(d[j] == s@[start + j]);
        }
    }
    if neg {
        Some((0 - acc as i64) as i32)
    } else if acc <= 2147483647 {
        Some(acc as i32)
    } else {
        None
    }
}

/// The body of a request: its text after the last `\r\n\r\n`, or the whole
/// text when there is none.
pub fn get_user_request_body(request: &str) -> (r: &str)
    ensures
        r@ == body_of(request@),
{
    let n = request.unicode_len();
    let mut i: usize = 0;
    let mut start: usize = 0;
    while n - i >= 4
        invariant
            start <= n,
            i <= n,
            n == request@.len(),
            last_part_start(request@, i as int, start as int) == last_part_start(request@, 0, 0),
        decreases n - i,
    {
        if request.get_char(i) == '\r' && request.get_char(i + 1) == '\n' && request.get_char(i + 2)
            == '\r' && request.get_char(i + 3) == '\n' {
            i = i + 4;
            start = i;
        } else {
            i = i + 1;
        }
    }
    request.substring_char(start, n)
}

} // verus!
