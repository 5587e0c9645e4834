//! The little JSON the client speaks: building flat string-valued
//! objects for request bodies, and looking up string members of response
//! bodies.

use vstd::prelude::*;
use vstd::string::StrSliceExecFns;
use vstd::string::StringExecFns;

verus! {

/// The lowercase hex digit for a value below sixteen.
pub open spec fn spec_hex_digit(n: int) -> char {
    seq!['0', '1', '2', '3', '4', '5', '6', '7', '8', '9', 'a', 'b', 'c', 'd', 'e', 'f'][n]
}

/// How one character is written inside a JSON string literal: quotes and
/// backslashes get a backslash escape, control characters their short
/// escape or a `\u00..` escape, and everything else stands as itself.
pub open spec fn spec_escape_char(c: char) -> Seq<char> {
    if c == '"' {
        seq!['\\', '"']
    } else if c == '\\' {
        seq!['\\', '\\']
    } else if c == '\u{8}' {
        seq!['\\', 'b']
    } else if c == '\u{c}' {
        seq!['\\', 'f']
    } else if c == '\n' {
        seq!['\\', 'n']
    } else if c == '\r' {
        seq!['\\', 'r']
    } else if c == '\t' {
        seq!['\\', 't']
    } else if (c as u32) < 32 {
        seq!['\\', 'u', '0', '0', spec_hex_digit((c as u32 / 16) as int), spec_hex_digit(
            (c as u32 % 16) as int,
        )]
    } else {
        seq![c]
    }
}

/// How a string is written inside a JSON string literal.
pub open spec fn spec_escape(s: Seq<char>) -> Seq<char>
    decreases s.len(),
{
    if s.len() == 0 {
        Seq::empty()
    } else {
        spec_escape_char(s[0]) + spec_escape(s.drop_first())
    }
}

/// Escaping one more character appends that character's escape.
pub proof fn lemma_escape_push(t: Seq<char>, c: char)
    ensures
        spec_escape(t.push(c)) == spec_escape(t) + spec_escape_char(c),
    decreases t.len(),
{
    if t.len() == 0 {
        assert(t.push(c)[0] == c);
        assert(t.push(c).drop_first() =~= t);
        assert(spec_escape(t) == Seq::<char>::empty());
        assert(spec_escape(t.push(c)) == spec_escape_char(c) + spec_escape(t));
        assert(spec_escape_char(c) + Seq::<char>::empty() =~= spec_escape_char(c));
        assert(Seq::<char>::empty() + spec_escape_char(c) =~= spec_escape_char(c));
    } else {
        assert(t.push(c)[0] == t[0]);
        assert(t.push(c).drop_first() =~= t.drop_first().push(c));
        lemma_escape_push(t.drop_first(), c);
        assert(spec_escape(t.push(c)) == spec_escape_char(t[0]) + (spec_escape(t.drop_first())
            + spec_escape_char(c)));
        assert(spec_escape_char(t[0]) + (spec_escape(t.drop_first()) + spec_escape_char(c)) =~= (
        spec_escape_char(t[0]) + spec_escape(t.drop_first())) + spec_escape_char(c));
        assert(spec_escape(t) == spec_escape_char(t[0]) + spec_escape(t.drop_first()));
    }
}

/// The lowercase hex digit for a value below sixteen, as a
/// one-character string.
fn hex_digit_str(n: u32) -> (r: &'static str)
    requires
        n < 16,
    ensures
        r@ == seq![spec_hex_digit(n as int)],
{
    let r: &'static str = if n == 0 {
        "0"
    } else if n == 1 {
        "1"
    } else if n == 2 {
        "2"
    } else if n == 3 {
        "3"
    } else if n == 4 {
        "4"
    } else if n == 5 {
        "5"
    } else if n == 6 {
        "6"
    } else if n == 7 {
        "7"
    } else if n == 8 {
        "8"
    } else if n == 9 {
        "9"
    } else if n == 10 {
        "a"
    } else if n == 11 {
        "b"
    } else if n == 12 {
        "c"
    } else if n == 13 {
        "d"
    } else if n == 14 {
        "e"
    } else {
        "f"
    };
    proof {
        reveal_strlit("0");
        reveal_strlit("1");
        reveal_strlit("2");
        reveal_strlit("3");
        reveal_strlit("4");
        reveal_strlit("5");
        reveal_strlit("6");
        reveal_strlit("7");
        reveal_strlit("8");
        reveal_strlit("9");
        reveal_strlit("a");
        reveal_strlit("b");
        reveal_strlit("c");
        reveal_strlit("d");
        reveal_strlit("e");
        reveal_strlit("f");
        assert(r@ =~= seq![spec_hex_digit(n as int)]);
    }
    r
}

/// Escapes `s` for use inside a JSON string literal.
pub fn escape_json(s: &str) -> (r: String)
    ensures
        r@ == spec_escape(s@),
{
    let len = s.unicode_len();
    let mut out = String::new();
    let mut i: usize = 0;
    while i < len
        invariant
            0 <= i <= len,
            len == s@.len(),
            out@ == spec_escape(s@.take(i as int)),
        decreases len - i,
    {
        let c = s.get_char(i);
        if c == '"' {
            out.append("\\\"");
            proof {
                reveal_strlit("\\\"");
                assert("\\\""@ =~= spec_escape_char(c));
            }
        } else if c == '\\' {
            out.append("\\\\");
            proof {
                reveal_strlit("\\\\");
                assert("\\\\"@ =~= spec_escape_char(c));
            }
        } else if c == '\u{8}' {
            out.append("\\b");
            proof {
                reveal_strlit("\\b");
                assert("\\b"@ =~= spec_escape_char(c));
            }
        } else if c == '\u{c}' {
            out.append("\\f");
            proof {
                reveal_strlit("\\f");
                assert("\\f"@ =~= spec_escape_char(c));
            }
        } else if c == '\n' {
            out.append("\\n");
            proof {
                reveal_strlit("\\n");
                assert("\\n"@ =~= spec_escape_char(c));
            }
        } else if c == '\r' {
            out.append("\\r");
            proof {
                reveal_strlit("\\r");
                assert("\\r"@ =~= spec_escape_char(c));
            }
        } else if c == '\t' {
            out.append("\\t");
            proof {
                reveal_strlit("\\t");
                assert("\\t"@ =~= spec_escape_char(c));
            }
        } else if (c as u32) < 32 {
            let code = c as u32;
            let ghost out0 = out@;
            out.append("\\u00");
            let hi = hex_digit_str(code / 16);
            out.append(hi);
            let lo = hex_digit_str(code % 16);
            out.append(lo);
            proof {
                reveal_strlit("\\u00");
                assert(out@ =~= out0 + spec_escape_char(c));
            }
        } else {
            let piece = s.substring_char(i, i + 1);
            out.append(piece);
            proof {
                assert(piece@ =~= spec_escape_char(c));
            }
        }
        proof {
            lemma_escape_push(s@.take(i as int), c);
            assert(s@.take(i as int + 1) =~= s@.take(i as int).push(c));
        }
        i = i + 1;
    }
    proof {
        assert(s@.take(len as int) =~= s@);
    }
    out
}

/// How one `"key":"value"` member of a JSON object is written.
pub open spec fn spec_json_member(key: Seq<char>, value: Seq<char>) -> Seq<char> {
    "\""@ + spec_escape(key) + "\":\""@ + spec_escape(value) + "\""@
}

/// Writes one `"key":"value"` member of a JSON object.
pub fn json_member(key: &str, value: &str) -> (r: String)
    ensures
        r@ == spec_json_member(key@, value@),
{
    let mut r = String::from_str("\"");
    let ek = escape_json(key);
    r.append(ek.as_str());
    r.append("\":\"");
    let ev = escape_json(value);
    r.append(ev.as_str());
    r.append("\"");
    r
}

/// The string value of the top-level member named `key` of the JSON
/// document `body`, if `body` is a JSON object with such a member.
pub uninterp spec fn spec_json_string_field(body: Seq<char>, key: Seq<char>) -> Option<Seq<char>>;

/// Relies on serde_json — `from_str`, `Value::get` and the
/// `Value::String` variant — to parse a JSON document and return its
/// top-level member named `key` when that member is a string. The result
/// is a function of the two arguments alone.
#[verifier::external_body]
pub(crate) fn json_string_field(body: &str, key: &str) -> (r: Option<String>)
    ensures
        r matches Some(v) ==> spec_json_string_field(body@, key@) == Some(v@),
        r is None ==> spec_json_string_field(body@, key@) is None,
{
    let value: serde_json::Value = match serde_json::from_str(body) {
        Ok(v) => v,
        Err(_) => return None,
    };
    match value.get(key) {
        Some(serde_json::Value::String(s)) => Some(s.clone()),
        _ => None,
    }
}

} // verus!
