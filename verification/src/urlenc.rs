use vstd::prelude::*;

verus! {

/// The uppercase hexadecimal digit for a value below sixteen.
pub open spec fn hex_upper_digit(d: int) -> char {
    "0123456789ABCDEF"@[d]
}

/// The characters the form serializer passes through unchanged:
/// ASCII alphanumerics and `*`, `-`, `.`, `_`.
pub open spec fn form_unchanged_char(c: char) -> bool {
    ||| c == '*'
    ||| c == '-'
    ||| c == '.'
    ||| ('0' <= c && c <= '9')
    ||| ('A' <= c && c <= 'Z')
    ||| c == '_'
    ||| ('a' <= c && c <= 'z')
}

/// How one ASCII character is form-serialized: passed through, a
/// space becomes `+`, and anything else becomes a percent escape
/// with uppercase hexadecimal digits.
pub open spec fn form_encoded_char(c: char) -> Seq<char> {
    if form_unchanged_char(c) {
        seq![c]
    } else if c == ' ' {
        seq!['+']
    } else {
        seq!['%', hex_upper_digit(c as int / 16), hex_upper_digit(c as int % 16)]
    }
}

/// The `application/x-www-form-urlencoded` serialization of an ASCII
/// text, character by character.
pub open spec fn form_urlencoded(s: Seq<char>) -> Seq<char>
    decreases s.len(),
{
    if s.len() == 0 {
        Seq::<char>::empty()
    } else {
        form_encoded_char(s[0]) + form_urlencoded(s.drop_first())
    }
}

/// Relies on url's `form_urlencoded::byte_serialize`: each byte is
/// either passed through (alphanumerics and `*-._`), turned into `+`
/// (space), or percent-escaped with uppercase hexadecimal digits. On
/// ASCII text the bytes are the characters, so the serialization is
/// this character-wise map.
#[verifier::external_body]
pub fn urlencode_ascii(s: &str) -> (r: String)
    requires
        vstd::string::is_ascii(s),
    ensures
        r@ == form_urlencoded(s@),
{
    url::form_urlencoded::byte_serialize(s.as_bytes()).collect()
}

} // verus!
