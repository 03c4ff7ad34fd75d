//! Text building blocks shared by the provider adapters: decimal rendering
//! of status codes, JSON string escaping, and HTTP reason phrases.

use vstd::prelude::*;

verus! {

/// The decimal digit `d` as a character, for `0 <= d <= 9`.
pub open spec fn dec_digit(d: int) -> char {
    if d == 0 {
        '0'
    } else if d == 1 {
        '1'
    } else if d == 2 {
        '2'
    } else if d == 3 {
        '3'
    } else if d == 4 {
        '4'
    } else if d == 5 {
        '5'
    } else if d == 6 {
        '6'
    } else if d == 7 {
        '7'
    } else if d == 8 {
        '8'
    } else {
        '9'
    }
}

/// The usual decimal rendering of `n >= 0`: no sign, no leading zero
/// except for `0` itself.
pub open spec fn dec_str(n: int) -> Seq<char>
    decreases n,
{
    if n < 10 {
        seq![dec_digit(n)]
    } else {
        dec_str(n / 10) + seq![dec_digit(n % 10)]
    }
}

fn dec_digit_str(d: u16) -> (r: &'static str)
    requires
        d < 10,
    ensures
        r@ == seq![dec_digit(d as int)],
{
    let r: &'static str = if d == 0 {
        "0"
    } else if d == 1 {
        "1"
    } else if d == 2 {
        "2"
    } else if d == 3 {
        "3"
    } else if d == 4 {
        "4"
    } else if d == 5 {
        "5"
    } else if d == 6 {
        "6"
    } else if d == 7 {
        "7"
    } else if d == 8 {
        "8"
    } else {
        "9"
    };
    proof {
        reveal_strlit("0");
        reveal_strlit("1");
        reveal_strlit("2");
        reveal_strlit("3");
        reveal_strlit("4");
        reveal_strlit("5");
        reveal_strlit("6");
        reveal_strlit("7");
        reveal_strlit("8");
        reveal_strlit("9");
        assert(r@ =~= seq![dec_digit(d as int)]);
    }
    r
}

/// Appends the decimal rendering of `n` to `out`.
pub fn push_dec(n: u16, out: &mut String)
    ensures
        final(out)@ == old(out)@ + dec_str(n as int),
    decreases n,
{
    if n >= 10 {
        push_dec(n / 10, out);
        out.append(dec_digit_str(n % 10));
        proof {
            assert(out@ =~= old(out)@ + dec_str(n as int));
        }
    } else {
        out.append(dec_digit_str(n));
        proof {
            assert(out@ =~= old(out)@ + dec_str(n as int));
        }
    }
}

/// The decimal rendering of `n` as an owned string.
pub fn dec_string(n: u16) -> (r: String)
    ensures
        r@ == dec_str(n as int),
{
    let mut out = String::new();
    push_dec(n, &mut out);
    proof {
        assert(out@ =~= dec_str(n as int));
    }
    out
}

/// The hexadecimal digit `d` as a lower-case character, for `0 <= d <= 15`.
pub open spec fn hex_digit(d: int) -> char {
    if d < 10 {
        dec_digit(d)
    } else if d == 10 {
        'a'
    } else if d == 11 {
        'b'
    } else if d == 12 {
        'c'
    } else if d == 13 {
        'd'
    } else if d == 14 {
        'e'
    } else {
        'f'
    }
}

/// How one character appears inside a JSON string literal: quote and
/// backslash are escaped, the named control characters take their short
/// escapes, the remaining control characters take a `\u00..` escape, and
/// every other character stands as itself.
pub open spec fn json_escaped_char(c: char) -> Seq<char> {
    if c == '"' {
        seq!['\\', '"']
    } else if c == '\\' {
        seq!['\\', '\\']
    } else if c == '\u{8}' {
        seq!['\\', 'b']
    } else if c == '\u{c}' {
        seq!['\\', 'f']
    } else if c == '\n' {
        seq!['\\', 'n']
    } else if c == '\r' {
        seq!['\\', 'r']
    } else if c == '\t' {
        seq!['\\', 't']
    } else if (c as int) < 32 {
        seq!['\\', 'u', '0', '0', hex_digit(c as int / 16), hex_digit(c as int % 16)]
    } else {
        seq![c]
    }
}

/// A whole character sequence as it appears inside a JSON string literal.
pub open spec fn json_escaped(s: Seq<char>) -> Seq<char>
    decreases s.len(),
{
    if s.len() == 0 {
        Seq::empty()
    } else {
        json_escaped_char(s[0]) + json_escaped(s.drop_first())
    }
}

pub proof fn lemma_json_escaped_push(s: Seq<char>, c: char)
    ensures
        json_escaped(s.push(c)) == json_escaped(s) + json_escaped_char(c),
    decreases s.len(),
{
    if s.len() == 0 {
        assert(s.push(c)[0] == c);
        assert(s.push(c).drop_first() =~= Seq::<char>::empty());
        assert(json_escaped(s.push(c).drop_first()) == Seq::<char>::empty());
        assert(json_escaped(s.push(c)) == json_escaped_char(c) + Seq::<char>::empty());
        assert(json_escaped(s.push(c)) =~= json_escaped(s) + json_escaped_char(c));
    } else {
        assert(s.push(c)[0] == s[0]);
        assert(s.push(c).drop_first() =~= s.drop_first().push(c));
        lemma_json_escaped_push(s.drop_first(), c);
        assert(json_escaped(s.push(c)) == json_escaped_char(s[0]) + (json_escaped(s.drop_first())
            + json_escaped_char(c)));
        assert(json_escaped(s.push(c)) =~= json_escaped(s) + json_escaped_char(c));
    }
}

fn hex_digit_str(d: u32) -> (r: &'static str)
    requires
        d < 16,
    ensures
        r@ == seq![hex_digit(d as int)],
{
    let r: &'static str = if d < 10 {
        dec_digit_str(d as u16)
    } else if d == 10 {
        "a"
    } else if d == 11 {
        "b"
    } else if d == 12 {
        "c"
    } else if d == 13 {
        "d"
    } else if d == 14 {
        "e"
    } else {
        "f"
    };
    proof {
        reveal_strlit("a");
        reveal_strlit("b");
        reveal_strlit("c");
        reveal_strlit("d");
        reveal_strlit("e");
        reveal_strlit("f");
        assert(r@ =~= seq![hex_digit(d as int)]);
    }
    r
}

/// Appends `c` escaped for a JSON string literal to `out`.
fn push_escaped_char(c: char, out: &mut String)
    ensures
        final(out)@ == old(out)@ + json_escaped_char(c),
{
    if c == '"' {
        out.append("\\\"");
        proof {
            reveal_strlit("\\\"");
            assert(out@ =~= old(out)@ + json_escaped_char(c));
        }
    } else if c == '\\' {
        out.append("\\\\");
        proof {
            reveal_strlit("\\\\");
            assert(out@ =~= old(out)@ + json_escaped_char(c));
        }
    } else if c == '\u{8}' {
        out.append("\\b");
        proof {
            reveal_strlit("\\b");
            assert(out@ =~= old(out)@ + json_escaped_char(c));
        }
    } else if c == '\u{c}' {
        out.append("\\f");
        proof {
            reveal_strlit("\\f");
            assert(out@ =~= old(out)@ + json_escaped_char(c));
        }
    } else if c == '\n' {
        out.append("\\n");
        proof {
            reveal_strlit("\\n");
            assert(out@ =~= old(out)@ + json_escaped_char(c));
        }
    } else if c == '\r' {
        out.append("\\r");
        proof {
            reveal_strlit("\\r");
            assert(out@ =~= old(out)@ + json_escaped_char(c));
        }
    } else if c == '\t' {
        out.append("\\t");
        proof {
            reveal_strlit("\\t");
            assert(out@ =~= old(out)@ + json_escaped_char(c));
        }
    } else if (c as u32) < 32 {
        out.append("\\u00");
        out.append(hex_digit_str((c as u32) / 16));
        out.append(hex_digit_str((c as u32) % 16));
        proof {
            reveal_strlit("\\u00");
            assert(out@ =~= old(out)@ + json_escaped_char(c));
        }
    } else {
        push_char(out, c);
        proof {
            assert(out@ =~= old(out)@ + json_escaped_char(c));
        }
    }
}

/// Relies on String::push: appends the given character to the end of the
/// string, and nothing else.
#[verifier::external_body]
fn push_char(out: &mut String, c: char)
    ensures
        final(out)@ == old(out)@ + seq![c],
{
    out.push(c);
}

/// `s` escaped for use inside a JSON string literal.
pub fn escape_json(s: &str) -> (r: String)
    ensures
        r@ == json_escaped(s@),
{
    let n = s.unicode_len();
    let mut out = String::new();
    let mut i: usize = 0;
    while i < n
        invariant
            n == s@.len(),
            i <= n,
            out@ == json_escaped(s@.take(i as int)),
        decreases n - i,
    {
        let c = s.get_char(i);
        push_escaped_char(c, &mut out);
        proof {
            assert(s@.take(i as int + 1) =~= s@.take(i as int).push(s@[i as int]));
            lemma_json_escaped_push(s@.take(i as int), s@[i as int]);
        }
        i = i + 1;
    }
    proof {
        assert(s@.take(n as int) =~= s@);
    }
    out
}

/// The reason phrase paired with an HTTP status code, as the common
/// registry gives it; codes outside that list read "Unknown Status".
pub open spec fn reason_label(code: int) -> Seq<char> {
    if code == 200 {
        "OK"@
    } else if code == 201 {
        "Created"@
    } else if code == 202 {
        "Accepted"@
    } else if code == 204 {
        "No Content"@
    } else if code == 301 {
        "Moved Permanently"@
    } else if code == 302 {
        "Found"@
    } else if code == 400 {
        "Bad Request"@
    } else if code == 401 {
        "Unauthorized"@
    } else if code == 403 {
        "Forbidden"@
    } else if code == 404 {
        "Not Found"@
    } else if code == 408 {
        "Request Timeout"@
    } else if code == 429 {
        "Too Many Requests"@
    } else if code == 500 {
        "Internal Server Error"@
    } else if code == 502 {
        "Bad Gateway"@
    } else if code == 503 {
        "Service Unavailable"@
    } else if code == 504 {
        "Gateway Timeout"@
    } else {
        "Unknown Status"@
    }
}

pub fn reason_phrase(code: u16) -> (r: &'static str)
    ensures
        r@ == reason_label(code as int),
{
    if code == 200 {
        "OK"
    } else if code == 201 {
        "Created"
    } else if code == 202 {
        "Accepted"
    } else if code == 204 {
        "No Content"
    } else if code == 301 {
        "Moved Permanently"
    } else if code == 302 {
        "Found"
    } else if code == 400 {
        "Bad Request"
    } else if code == 401 {
        "Unauthorized"
    } else if code == 403 {
        "Forbidden"
    } else if code == 404 {
        "Not Found"
    } else if code == 408 {
        "Request Timeout"
    } else if code == 429 {
        "Too Many Requests"
    } else if code == 500 {
        "Internal Server Error"
    } else if code == 502 {
        "Bad Gateway"
    } else if code == 503 {
        "Service Unavailable"
    } else if code == 504 {
        "Gateway Timeout"
    } else {
        "Unknown Status"
    }
}

} // verus!
