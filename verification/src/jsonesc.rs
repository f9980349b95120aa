use vstd::prelude::*;
use vstd::string::StrSliceExecFns;
use vstd::string::StringExecFns;
use crate::hexid::{hex_digit, hex_digit_str};

verus! {

/// How one character stands inside a JSON string literal: quote and
/// backslash are escaped, control characters become `\u00XX` with
/// lowercase hexadecimal digits, everything else stands as itself.
pub open spec fn json_escaped_char(c: char) -> Seq<char> {
    if c == '"' {
        seq!['\\', '"']
    } else if c == '\\' {
        seq!['\\', '\\']
    } else if (c as int) < 32 {
        seq!['\\', 'u', '0', '0', hex_digit(c as int / 16), hex_digit(c as int % 16)]
    } else {
        seq![c]
    }
}

/// The body of the JSON string literal that denotes a text.
pub open spec fn json_escaped(s: Seq<char>) -> Seq<char>
    decreases s.len(),
{
    if s.len() == 0 {
        Seq::<char>::empty()
    } else {
        json_escaped_char(s[0]) + json_escaped(s.drop_first())
    }
}

/// Escaping distributes over appending one character at the end.
proof fn lemma_json_escaped_push(s: Seq<char>, c: char)
    ensures
        json_escaped(s.push(c)) == json_escaped(s) + json_escaped_char(c),
    decreases s.len(),
{
    let e = Seq::<char>::empty();
    if s.len() == 0 {
        assert(s =~= e);
        assert(s.push(c)[0] == c);
        assert(s.push(c).drop_first() =~= e);
        assert(json_escaped(e) == e);
        assert(json_escaped(s.push(c)) == json_escaped_char(c) + e);
        assert(json_escaped_char(c) + e =~= e + json_escaped_char(c));
    } else {
        assert(s.push(c)[0] == s[0]);
        assert(s.push(c).drop_first() =~= s.drop_first().push(c));
        lemma_json_escaped_push(s.drop_first(), c);
        assert(json_escaped(s.push(c)) == json_escaped_char(s[0]) + (json_escaped(s.drop_first())
            + json_escaped_char(c)));
        assert(json_escaped(s) == json_escaped_char(s[0]) + json_escaped(s.drop_first()));
        assert(json_escaped_char(s[0]) + (json_escaped(s.drop_first()) + json_escaped_char(c))
            =~= (json_escaped_char(s[0]) + json_escaped(s.drop_first())) + json_escaped_char(c));
    }
}

/// Renders a text as it stands inside a JSON string literal.
pub fn escape_json_string(s: &str) -> (r: String)
    ensures
        r@ == json_escaped(s@),
{
    let n = s.unicode_len();
    let mut r = String::new();
    let mut i: usize = 0;
    proof {
        assert(s@.subrange(0, 0) =~= Seq::<char>::empty());
    }
    while i < n
        invariant
            0 <= i <= n,
            n == s@.len(),
            r@ == json_escaped(s@.subrange(0, i as int)),
        decreases n - i,
    {
        let c = s.get_char(i);
        proof {
            reveal_strlit("\\\"");
            reveal_strlit("\\\\");
            reveal_strlit("\\u00");
            assert(s@.subrange(0, i + 1) =~= s@.subrange(0, i as int).push(c));
            lemma_json_escaped_push(s@.subrange(0, i as int), c);
        }
        if c == '"' {
            r.append("\\\"");
            proof {
                assert(r@ =~= json_escaped(s@.subrange(0, i + 1)));
            }
        } else if c == '\\' {
            r.append("\\\\");
            proof {
                assert(r@ =~= json_escaped(s@.subrange(0, i + 1)));
            }
        } else if (c as u32) < 32 {
            let code = c as u32;
            r.append("\\u00");
            r.append(hex_digit_str((code / 16) as u64));
            r.append(hex_digit_str((code % 16) as u64));
            proof {
                assert(r@ =~= json_escaped(s@.subrange(0, i + 1)));
            }
        } else {
            let piece = s.substring_char(i, i + 1);
            proof {
                assert(piece@ =~= seq![c]);
            }
            r.append(piece);
            proof {
                assert(r@ =~= json_escaped(s@.subrange(0, i + 1)));
            }
        }
        i += 1;
    }
    proof {
        assert(s@.subrange(0, n as int) =~= s@);
    }
    r
}

/// The token-exchange request body: a refresh-token grant carrying
/// the long-lived refresh token as a JSON string.
pub fn token_request_body(refresh_token: &str) -> (r: String)
    ensures
        r@ == "{\"grant_type\":\"refresh_token\",\"refresh_token\":\""@ + json_escaped(
            refresh_token@,
        ) + "\"}"@,
{
    let mut r = String::from_str("{\"grant_type\":\"refresh_token\",\"refresh_token\":\"");
    let escaped = escape_json_string(refresh_token);
    r.append(escaped.as_str());
    r.append("\"}");
    r
}

} // verus!
