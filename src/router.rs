//! The HTTP surface: which action a method and path select.
use vstd::prelude::*;
use vstd::string::StrSliceExecFns;

verus! {

/// The request methods the service tells apart.
#[derive(Clone, Copy, Debug, PartialEq, Eq, Structural)]
pub enum Method {
    Get,
    Post,
    Delete,
    Other,
}

/// The action a request selects.
#[derive(Clone, Copy, Debug, PartialEq, Eq, Structural)]
pub enum Route {
    /// `GET /users`
    ListUsers,
    /// `POST /users`
    CreateUser,
    /// `GET /users/{id}`
    GetUser(i32),
    /// `DELETE /users/{id}`
    DeleteUser(i32),
    /// Anything else.
    Unknown,
}

/// Whether `c` is an ASCII decimal digit.
pub open spec fn is_digit(c: char) -> bool {
    ('0' as int) <= (c as int) <= ('9' as int)
}

/// The value of a run of decimal digits.
pub open spec fn digits_value(s: Seq<char>) -> int
    decreases s.len(),
{
    if s.len() == 0 {
        0
    } else {
        digits_value(s.drop_last()) * 10 + ((s.last() as int) - ('0' as int))
    }
}

/// The digits of a signed decimal, without its sign.
pub open spec fn unsigned_part(s: Seq<char>) -> Seq<char> {
    if s.len() > 0 && (s[0] == '-' || s[0] == '+') {
        s.drop_first()
    } else {
        s
    }
}

/// The value of a signed decimal: an optional `+` or `-`, then digits.
pub open spec fn signed_value(s: Seq<char>) -> int {
    if s.len() > 0 && s[0] == '-' {
        -digits_value(unsigned_part(s))
    } else {
        digits_value(unsigned_part(s))
    }
}

/// The `i32` that the text `s` denotes: an optional sign followed by at least
/// one decimal digit, whose value fits; `None` for any other text.
pub open spec fn parse_i32(s: Seq<char>) -> Option<i32> {
    let ds = unsigned_part(s);
    if ds.len() > 0 && (forall|i: int| 0 <= i < ds.len() ==> is_digit(#[trigger] ds[i]))
        && i32::MIN <= signed_value(s) <= i32::MAX {
        Some(signed_value(s) as i32)
    } else {
        None
    }
}

/// The action that method `m` on `path` selects.
pub open spec fn route_of(m: Method, path: Seq<char>) -> Route {
    if path == "/users"@ {
        match m {
            Method::Get => Route::ListUsers,
            Method::Post => Route::CreateUser,
            _ => Route::Unknown,
        }
    } else if path.len() >= "/users/"@.len() && path.take("/users/"@.len() as int) == "/users/"@ {
        match parse_i32(path.skip("/users/"@.len() as int)) {
            Some(id) => match m {
                Method::Get => Route::GetUser(id),
                Method::Delete => Route::DeleteUser(id),
                _ => Route::Unknown,
            },
            None => Route::Unknown,
        }
    } else {
        Route::Unknown
    }
}

/// Whether `s` begins with `prefix`.
fn starts_with(s: &str, prefix: &str) -> (r: bool)
    ensures
        r == (prefix@.len() <= s@.len() && s@.take(prefix@.len() as int) == prefix@),
{
    let n = s.unicode_len();
    let k = prefix.unicode_len();
    if k > n {
        return false;
    }
    let mut i: usize = 0;
    while i < k
        invariant
            k == prefix@.len(),
            n == s@.len(),
            k <= n,
            i <= k,
            s@.take(i as int) == prefix@.take(i as int),
        decreases k - i,
    {
        if s.get_char(i) != prefix.get_char(i) {
            assert(s@.take(k as int)[i as int] != prefix@[i as int]);
            return false;
        }
        assert(s@.take(i as int + 1) =~= s@.take(i as int).push(s@[i as int]));
        assert(prefix@.take(i as int + 1) =~= prefix@.take(i as int).push(prefix@[i as int]));
        i = i + 1;
    }
    assert(prefix@.take(k as int) =~= prefix@);
    true
}

/// Parses a path segment as an `i32` id.
pub fn parse_id(s: &str) -> (r: Option<i32>)
    ensures
        r == parse_i32(s@),
{
    let n = s.unicode_len();
    if n == 0 {
        return None;
    }
    let c0 = s.get_char(0);
    let start: usize = if c0 == '-' || c0 == '+' { 1 } else { 0 };
    let ghost ds = unsigned_part(s@);
    assert(ds =~= s@.skip(start as int));
    if start >= n {
        return None;
    }
    let cap: i64 = 2147483649;
    let mut acc: i64 = 0;
    let mut i: usize = start;
    while i < n
        invariant
            n == s@.len(),
            start <= i <= n,
            ds == s@.skip(start as int),
            ds == unsigned_part(s@),
            0 <= acc <= cap,
            cap == 2147483649,
            forall|j: int| 0 <= j < i - start ==> is_digit(#[trigger] ds[j]),
            acc == if digits_value(ds.take(i - start)) < cap {
                digits_value(ds.take(i - start))
            } else {
                cap as int
            },
        decreases n - i,
    {
        let c = s.get_char(i);
        let cv = c as u32;
        if cv < 48 || cv > 57 {
            assert(!is_digit(ds[i - start]));
            assert(!(forall|j: int| 0 <= j < ds.len() ==> is_digit(#[trigger] ds[j])));
            return None;
        }
        let ghost before = digits_value(ds.take(i - start));
        assert(ds.take(i - start + 1).drop_last() =~= ds.take(i - start));
        assert(digits_value(ds.take(i - start + 1)) == before * 10 + (cv - 48));
        let next: i64 = acc * 10 + (cv as i64 - 48);
        proof {
            if before >= cap as int {
                assert(before * 10 >= cap as int) by (nonlinear_arith)
                    requires
                        before >= cap as int,
                        cap > 0,
                ;
            }
        }
        acc = if next > cap { cap } else { next };
        i = i + 1;
    }
    assert(ds.take(n - start) =~= ds);
    if c0 == '-' {
        if acc <= 2147483648 {
            Some((-acc) as i32)
        } else {
            None
        }
    } else {
        if acc <= 2147483647 {
            Some(acc as i32)
        } else {
            None
        }
    }
}

/// The action that method `m` on `path` selects.
pub fn route(m: Method, path: &str) -> (r: Route)
    ensures
        r == route_of(m, path@),
{
    let base = "/users";
    let item = "/users/";
    let is_base = path.unicode_len() == base.unicode_len() && starts_with(path, base);
    assert(path@ == base@ <==> is_base) by {
        assert(path@.take(path@.len() as int) =~= path@);
    }
    if is_base {
        match m {
            Method::Get => Route::ListUsers,
            Method::Post => Route::CreateUser,
            _ => Route::Unknown,
        }
    } else if starts_with(path, item) {
        let seg = path.substring_char(item.unicode_len(), path.unicode_len());
        assert(seg@ =~= path@.skip(item@.len() as int));
        match parse_id(seg) {
            Some(id) => match m {
                Method::Get => Route::GetUser(id),
                Method::Delete => Route::DeleteUser(id),
                _ => Route::Unknown,
            },
            None => Route::Unknown,
        }
    } else {
        Route::Unknown
    }
}

} // verus!
