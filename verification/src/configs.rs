//! Reading configuration values: the numeric environment variables are
//! decimal texts, optionally signed with a leading `+`, that must fit an
//! unsigned 32-bit value. A misconfigured deployment fails fast: the caller
//! that reads the environment aborts on a value this parser refuses.
use vstd::prelude::*;

verus! {

/// Whether `c` is a decimal digit.
pub open spec fn is_digit(c: char) -> bool {
    '0' as u32 <= c as u32 && c as u32 <= '9' as u32
}

/// The numeric value of the digit `c`.
pub open spec fn digit_val(c: char) -> int {
    c as u32 - '0' as u32
}

/// The value of a string of digits, most significant first.
pub open spec fn digits_value(s: Seq<char>) -> int
    decreases s.len(),
{
    if s.len() == 0 {
        0
    } else {
        digits_value(s.drop_last()) * 10 + digit_val(s.last())
    }
}

/// The digits of a numeric text: everything after an optional leading `+`.
pub open spec fn digit_part(s: Seq<char>) -> Seq<char> {
    if s.len() > 0 && s[0] == '+' {
        s.subrange(1, s.len() as int)
    } else {
        s
    }
}

/// Whether `s` is a numeric configuration text: at least one digit after
/// the optional sign, nothing but digits, and a value that fits `u32`.
pub open spec fn is_env_number(s: Seq<char>) -> bool {
    &&& digit_part(s).len() > 0
    &&& forall|i: int| 0 <= i < digit_part(s).len() ==> is_digit(#[trigger] digit_part(s)[i])
    &&& digits_value(digit_part(s)) <= u32::MAX
}

/// A string of digits has a non-negative value.
proof fn lemma_digits_value_nonneg(s: Seq<char>)
    requires
        forall|t: int| 0 <= t < s.len() ==> is_digit(#[trigger] s[t]),
    ensures
        digits_value(s) >= 0,
    decreases s.len(),
{
    if s.len() > 0 {
        lemma_digits_value_nonneg(s.drop_last());
    }
}

/// Within a string of digits, a prefix never has a larger value than the
/// whole.
proof fn lemma_digits_value_prefix_le(s: Seq<char>, i: int)
    requires
        0 <= i <= s.len(),
        forall|t: int| 0 <= t < s.len() ==> is_digit(#[trigger] s[t]),
    ensures
        digits_value(s.subrange(0, i)) <= digits_value(s),
    decreases s.len() - i,
{
    if i == s.len() {
        assert(s.subrange(0, i) =~= s);
    } else {
        let ext = s.subrange(0, i + 1);
        assert(ext.drop_last() =~= s.subrange(0, i));
        lemma_digits_value_nonneg(s.subrange(0, i));
        assert(digits_value(ext) == digits_value(s.subrange(0, i)) * 10 + digit_val(ext.last()));
        lemma_digits_value_prefix_le(s, i + 1);
    }
}

/// Parses a numeric configuration text: `Some` exactly on the texts that
/// [`is_env_number`] admits, carrying their value.
pub fn parse_env_number(s: &str) -> (r: Option<u32>)
    ensures
        (r is Some) <==> is_env_number(s@),
        r matches Some(v) ==> v == digits_value(digit_part(s@)),
{
    let n = s.unicode_len();
    let plus = n > 0 && s.get_char(0) == '+';
    let d = if plus {
        s.substring_char(1, n)
    } else {
        s.substring_char(0, n)
    };
    proof {
        assert(d@ =~= digit_part(s@));
    }
    let dn = d.unicode_len();
    if dn == 0 {
        return None;
    }
    let mut acc: u32 = 0;
    for j in 0..dn
        invariant
            dn == d@.len(),
            d@ == digit_part(s@),
            dn > 0,
            forall|t: int| 0 <= t < j ==> is_digit(#[trigger] d@[t]),
            acc == digits_value(d@.subrange(0, j as int)),
    {
        let c = d.get_char(j);
        let cv = c as u32;
        if cv < '0' as u32 || cv > '9' as u32 {
            proof {
                assert(!is_digit(digit_part(s@)[j as int]));
            }
            return None;
        }
        let dv = cv - '0' as u32;
        let wide: u64 = (acc as u64) * 10 + (dv as u64);
        proof {
            let ext = d@.subrange(0, j as int + 1);
            assert(ext.drop_last() =~= d@.subrange(0, j as int));
            assert(ext.last() == d@[j as int]);
            assert(digits_value(ext) == acc * 10 + dv);
        }
        if wide > 0xFFFFFFFFu64 {
            proof {
                if forall|t: int| 0 <= t < d@.len() ==> is_digit(#[trigger] d@[t]) {
                    lemma_digits_value_prefix_le(d@, j as int + 1);
                    assert(digits_value(d@) > u32::MAX);
                }
            }
            return None;
        }
        acc = wide as u32;
    }
    proof {
        assert(d@.subrange(0, dn as int) =~= d@);
    }
    Some(acc)
}

} // verus!
