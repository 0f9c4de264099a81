//! Amounts typed in the entry field: a non-empty run of decimal digits.
use vstd::prelude::*;

verus! {

pub open spec fn is_digit(c: char) -> bool {
    '0' <= c && c <= '9'
}

pub open spec fn all_digits(s: Seq<char>) -> bool {
    forall|i: int| 0 <= i < s.len() ==> is_digit(#[trigger] s[i])
}

/// The number that a run of decimal digits writes, most significant first.
pub open spec fn decimal_value(s: Seq<char>) -> int
    decreases s.len(),
{
    if s.len() == 0 {
        0
    } else {
        decimal_value(s.drop_last()) * 10 + (s.last() as u32 - '0' as u32)
    }
}

/// The amount that `s` writes, where it is one that a `u64` holds.
pub open spec fn amount_of(s: Seq<char>) -> Option<u64> {
    if s.len() > 0 && all_digits(s) && decimal_value(s) <= u64::MAX {
        Some(decimal_value(s) as u64)
    } else {
        None
    }
}

proof fn lemma_value_grows(s: Seq<char>, j: int)
    requires
        all_digits(s),
        0 <= j <= s.len(),
    ensures
        0 <= decimal_value(s.take(j)) <= decimal_value(s),
    decreases s.len() - j,
{
    if j == s.len() {
        assert(s.take(j) =~= s);
        lemma_nonnegative(s);
    } else {
        lemma_value_grows(s, j + 1);
        assert(s.take(j + 1).drop_last() =~= s.take(j));
        lemma_nonnegative(s.take(j));
    }
}

proof fn lemma_nonnegative(s: Seq<char>)
    requires
        all_digits(s),
    ensures
        decimal_value(s) >= 0,
    decreases s.len(),
{
    if s.len() > 0 {
        assert(all_digits(s.drop_last()));
        lemma_nonnegative(s.drop_last());
    }
}

/// Reads the amount that `text` writes: `Some` exactly where `text` is a
/// non-empty run of ASCII digits whose value fits in a `u64`.
pub fn parse_amount(text: &str) -> (r: Option<u64>)
    ensures
        r == amount_of(text@),
{
    broadcast use vstd::string::is_ascii_spec_bytes;

    if !text.is_ascii() {
        proof {
            if all_digits(text@) {
                assert(vstd::utf8::is_ascii_chars(text@));
            }
        }
        return None;
    }
    let bytes = text.as_bytes();
    let n = bytes.len();
    let mut acc: u64 = 0;
    let mut i: usize = 0;
    while i < n
        invariant
            n == bytes@.len(),
            n == text@.len(),
            i <= n,
            forall|k: int| 0 <= k < n ==> bytes@[k] == text@[k] as u8,
            vstd::string::is_ascii(text),
            all_digits(text@.take(i as int)),
            acc as int == decimal_value(text@.take(i as int)),
        decreases n - i,
    {
        let b = bytes[i];
        if b < 48 || b > 57 {
            assert(!is_digit(text@[i as int]));
            return None;
        }
        assert(text@.take(i as int + 1).drop_last() =~= text@.take(i as int));
        let d = (b - 48) as u64;
        assert(d == text@[i as int] as u32 - '0' as u32);
        let m = acc.checked_mul(10);
        if m.is_none() {
            proof {
                assert(all_digits(text@.take(i as int + 1)));
                if all_digits(text@) {
                    lemma_value_grows(text@, i as int + 1);
                }
            }
            return None;
        }
        let s = m.unwrap().checked_add(d);
        if s.is_none() {
            proof {
                assert(all_digits(text@.take(i as int + 1)));
                if all_digits(text@) {
                    lemma_value_grows(text@, i as int + 1);
                }
            }
            return None;
        }
        acc = s.unwrap();
        i = i + 1;
    }
    assert(text@.take(n as int) =~= text@);
    if n == 0 {
        return None;
    }
    Some(acc)
}

} // verus!
