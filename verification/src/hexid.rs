use vstd::prelude::*;
use vstd::string::StrSliceExecFns;
use vstd::string::StringExecFns;
use crate::rng::{lcg_iter, lemma_lcg_iter_add, Lcg64};

verus! {

/// A lowercase hexadecimal digit.
pub open spec fn is_hex_digit(c: char) -> bool {
    ('0' <= c && c <= '9') || ('a' <= c && c <= 'f')
}

/// A run of lowercase hexadecimal digits.
pub open spec fn all_hex_digits(s: Seq<char>) -> bool {
    forall|i: int| 0 <= i < s.len() ==> is_hex_digit(#[trigger] s[i])
}

/// A session identifier: hexadecimal digits dash-grouped 8-4-4-4-12.
pub open spec fn valid_session_id(s: Seq<char>) -> bool {
    &&& s.len() == 36
    &&& s[8] == '-'
    &&& s[13] == '-'
    &&& s[18] == '-'
    &&& s[23] == '-'
    &&& forall|i: int|
        0 <= i < 36 && i != 8 && i != 13 && i != 18 && i != 23 ==> is_hex_digit(#[trigger] s[i])
}

/// The lowercase hexadecimal digit for a value below sixteen.
pub open spec fn hex_digit(d: int) -> char {
    "0123456789abcdef"@[d]
}

/// The digit `d` as a one-character string slice.
pub fn hex_digit_str(d: u64) -> (r: &'static str)
    requires
        d < 16,
    ensures
        r@.len() == 1,
        r@[0] == hex_digit(d as int),
        is_hex_digit(r@[0]),
{
    let digits = "0123456789abcdef";
    proof {
        reveal_strlit("0123456789abcdef");
        assert(digits.is_ascii());
    }
    let idx = d as usize;
    let r = digits.substring_ascii(idx, idx + 1);
    proof {
        assert(r@[0] == digits@[idx as int]);
    }
    r
}

/// The two digits that render the `k`-th byte drawn from a generator
/// seeded with `s0`: positions `2k` and `2k + 1` hold the high and
/// low digit of that draw.
pub open spec fn hex_pair_at(s: Seq<char>, s0: u64, k: int) -> bool {
    &&& s[2 * k] == hex_digit(((lcg_iter(s0, (k + 1) as nat) % 256) / 16) as int)
    &&& s[2 * k + 1] == hex_digit(((lcg_iter(s0, (k + 1) as nat) % 256) % 16) as int)
}

/// Draws `n_bytes` bytes from the generator and renders them as
/// `2 * n_bytes` lowercase hexadecimal digits, each pair pinned to
/// the generator's stream.
pub fn hex_string(rng: &mut Lcg64, n_bytes: usize) -> (r: String)
    requires
        n_bytes <= 1000000,
    ensures
        r@.len() == 2 * n_bytes,
        all_hex_digits(r@),
        final(rng).state == lcg_iter(old(rng).state, n_bytes as nat),
        forall|k: int| 0 <= k < n_bytes ==> #[trigger] hex_pair_at(r@, old(rng).state, k),
{
    let ghost s0 = rng.state;
    let mut s = String::new();
    let mut i: usize = 0;
    while i < n_bytes
        invariant
            0 <= i <= n_bytes,
            n_bytes <= 1000000,
            s@.len() == 2 * i,
            all_hex_digits(s@),
            rng.state == lcg_iter(s0, i as nat),
            forall|k: int| 0 <= k < i ==> #[trigger] hex_pair_at(s@, s0, k),
        decreases n_bytes - i,
    {
        let ghost prev = s@;
        let b = rng.below(256);
        proof {
            assert(lcg_iter(s0, (i + 1) as nat) == crate::rng::lcg_next(lcg_iter(s0, i as nat)));
        }
        let hi = hex_digit_str(b / 16);
        let lo = hex_digit_str(b % 16);
        s.append(hi);
        s.append(lo);
        proof {
            assert(s@ =~= prev + seq![hi@[0], lo@[0]]);
            assert forall|k: int| 0 <= k < i + 1 implies #[trigger] hex_pair_at(s@, s0, k) by {
                if k < i {
                    assert(hex_pair_at(prev, s0, k));
                    assert(s@[2 * k] == prev[2 * k] && s@[2 * k + 1] == prev[2 * k + 1]);
                } else {
                    assert(s@[2 * k] == hi@[0] && s@[2 * k + 1] == lo@[0]);
                }
            }
        }
        i += 1;
    }
    s
}

/// A fresh dash-grouped session identifier, 36 characters in the
/// 8-4-4-4-12 shape, drawn from the generator.
pub fn generate_session_id(rng: &mut Lcg64) -> (r: String)
    ensures
        valid_session_id(r@),
        final(rng).state == lcg_iter(old(rng).state, 16),
{
    let ghost s0 = rng.state;
    let mut s = hex_string(rng, 4);
    let g1 = hex_string(rng, 2);
    let g2 = hex_string(rng, 2);
    let g3 = hex_string(rng, 2);
    let g4 = hex_string(rng, 6);
    proof {
        reveal_strlit("-");
        lemma_lcg_iter_add(s0, 4, 2);
        lemma_lcg_iter_add(s0, 6, 2);
        lemma_lcg_iter_add(s0, 8, 2);
        lemma_lcg_iter_add(s0, 10, 6);
    }
    s.append("-");
    s.append(g1.as_str());
    s.append("-");
    s.append(g2.as_str());
    s.append("-");
    s.append(g3.as_str());
    s.append("-");
    s.append(g4.as_str());
    proof {
        assert(s@.len() == 36);
        assert forall|i: int|
            0 <= i < 36 && i != 8 && i != 13 && i != 18 && i != 23 implies is_hex_digit(
            #[trigger] s@[i],
        ) by {
            if i < 8 {
            } else if i < 13 {
                assert(s@[i] == g1@[i - 9]);
            } else if i < 18 {
                assert(s@[i] == g2@[i - 14]);
            } else if i < 23 {
                assert(s@[i] == g3@[i - 19]);
            } else {
                assert(s@[i] == g4@[i - 24]);
            }
        }
    }
    s
}

} // verus!
