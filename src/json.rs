//! JSON text for users: decimal integers, quoted strings and the fixed-order
//! object `{"id":..,"username":..,"password":..,"email":..}`.
use vstd::prelude::*;
use vstd::string::StringExecFns;
use crate::user::{User, UserView, users_view};

verus! {

/// Relies on `String::push`: the character is appended at the end.
pub assume_specification[ String::push ](s: &mut String, ch: char)
    ensures
        final(s)@ == old(s)@.push(ch),
;

/// The character of the decimal digit `d` (`0 <= d < 10`).
pub open spec fn digit_char(d: int) -> char {
    (('0' as int) + d) as char
}

/// The decimal digits of `n`, most significant first, without leading zeros.
pub open spec fn digits_of(n: nat) -> Seq<char>
    decreases n,
{
    if n < 10 {
        seq![digit_char(n as int)]
    } else {
        digits_of(n / 10).push(digit_char((n % 10) as int))
    }
}

/// The decimal text of an integer, with a leading `-` when it is negative.
pub open spec fn decimal(v: int) -> Seq<char> {
    if v < 0 {
        seq!['-'] + digits_of((-v) as nat)
    } else {
        digits_of(v as nat)
    }
}

/// The lower-case hexadecimal digit of `d` (`0 <= d < 16`).
pub open spec fn hex_digit(d: int) -> char {
    if d < 10 {
        digit_char(d)
    } else {
        (('a' as int) + d - 10) as char
    }
}

/// How one character is written inside a JSON string: quote and backslash
/// escaped, the usual short escapes for control characters, `\u00xx` for the
/// other control characters, and every other character as it is.
pub open spec fn json_escape(c: char) -> Seq<char> {
    if c == '"' {
        seq!['\\', '"']
    } else if c == '\\' {
        seq!['\\', '\\']
    } else if c == '\x08' {
        seq!['\\', 'b']
    } else if c == '\t' {
        seq!['\\', 't']
    } else if c == '\n' {
        seq!['\\', 'n']
    } else if c == '\x0C' {
        seq!['\\', 'f']
    } else if c == '\r' {
        seq!['\\', 'r']
    } else if (c as u32) < 0x20 {
        seq!['\\', 'u', '0', '0', hex_digit((c as int) / 16), hex_digit((c as int) % 16)]
    } else {
        seq![c]
    }
}

/// The characters of `s`, each escaped for a JSON string.
pub open spec fn json_escaped(s: Seq<char>) -> Seq<char>
    decreases s.len(),
{
    if s.len() == 0 {
        seq![]
    } else {
        json_escaped(s.drop_last()) + json_escape(s.last())
    }
}

/// `s` as a JSON string literal.
pub open spec fn json_string(s: Seq<char>) -> Seq<char> {
    seq!['"'] + json_escaped(s) + seq!['"']
}

/// A user as a JSON object with its keys in the order id, username,
/// password, email.
pub open spec fn user_json(u: UserView) -> Seq<char> {
    "{\"id\":"@ + decimal(u.id as int) + ",\"username\":"@ + json_string(u.username)
        + ",\"password\":"@ + json_string(u.password) + ",\"email\":"@ + json_string(u.email)
        + "}"@
}

/// The objects of `us`, in order, separated by commas.
pub open spec fn json_items(us: Seq<UserView>) -> Seq<char>
    decreases us.len(),
{
    if us.len() == 0 {
        seq![]
    } else if us.len() == 1 {
        user_json(us[0])
    } else {
        json_items(us.drop_last()) + seq![','] + user_json(us.last())
    }
}

/// A sequence of users as a JSON array.
pub open spec fn users_json(us: Seq<UserView>) -> Seq<char> {
    seq!['['] + json_items(us) + seq![']']
}

/// Relies on `serde_json::to_string` on a `str`: it writes the text between
/// double quotes, escaping each character through serde_json's escape table
/// (quote, backslash, and the control characters below 0x20, those without a
/// short escape as `\u00` and two lower-case hex digits). Serialising a `str`
/// into the in-memory buffer cannot fail.
#[verifier::external_body]
fn quote_json(s: &str) -> (r: String)
    ensures
        r@ == json_string(s@),
{
    serde_json::to_string(s).unwrap_or_default()
}

/// Appends the decimal digits of `n`.
pub fn push_digits(out: &mut String, n: u64)
    ensures
        final(out)@ == old(out)@ + digits_of(n as nat),
    decreases n,
{
    let ghost start = out@;
    if n >= 10 {
        push_digits(out, n / 10);
    }
    let d: u8 = (n % 10) as u8;
    out.push((48u8 + d) as char);
    assert(out@ =~= start + digits_of(n as nat));
}

/// Appends the decimal text of `v`.
pub fn push_i32(out: &mut String, v: i32)
    ensures
        final(out)@ == old(out)@ + decimal(v as int),
{
    let ghost start = out@;
    if v < 0 {
        out.push('-');
        let m: i64 = -(v as i64);
        push_digits(out, m as u64);
        assert(out@ =~= start + decimal(v as int));
    } else {
        push_digits(out, v as u64);
    }
}

/// Appends `s` as a JSON string literal.
fn push_json_string(out: &mut String, s: &String)
    ensures
        final(out)@ == old(out)@ + json_string(s@),
{
    let q = quote_json(s.as_str());
    out.append(q.as_str());
}

/// The JSON object of one user.
pub fn user_to_json(u: &User) -> (r: String)
    ensures
        r@ == user_json(u@),
{
    let mut out = String::from_str("{\"id\":");
    push_i32(&mut out, u.id);
    out.append(",\"username\":");
    push_json_string(&mut out, &u.username);
    out.append(",\"password\":");
    push_json_string(&mut out, &u.password);
    out.append(",\"email\":");
    push_json_string(&mut out, &u.email);
    out.append("}");
    out
}

/// The JSON array of the given users, in order.
pub fn users_to_json(us: &Vec<User>) -> (r: String)
    ensures
        r@ == users_json(users_view(us@)),
{
    let mut out = String::new();
    out.push('[');
    let mut i: usize = 0;
    while i < us.len()
        invariant
            i <= us@.len(),
            out@ == seq!['['] + json_items(users_view(us@.take(i as int))),
        decreases us@.len() - i,
    {
        let ghost before = out@;
        assert(users_view(us@.take(i as int + 1)) =~= users_view(us@.take(i as int)).push(
            us@[i as int]@,
        ));
        if i > 0 {
            out.push(',');
        }
        let item = user_to_json(&us[i]);
        out.append(item.as_str());
        assert(users_view(us@.take(i as int + 1)).drop_last() =~= users_view(
            us@.take(i as int),
        ));
        i = i + 1;
        assert(out@ =~= seq!['['] + json_items(users_view(us@.take(i as int))));
    }
    assert(us@.take(i as int) =~= us@);
    out.push(']');
    out
}

} // verus!
