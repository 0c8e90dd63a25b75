use vstd::prelude::*;
use vstd::string::*;

verus! {

pub open spec fn is_digit(c: char) -> bool {
    '0' <= c && c <= '9'
}

pub open spec fn digit_value(c: char) -> int {
    (c as int) - ('0' as int)
}

/// The number that a string of decimal digits writes.
pub open spec fn digits_value(s: Seq<char>) -> int
    decreases s.len(),
{
    if s.len() == 0 {
        0
    } else {
        digits_value(s.drop_last()) * 10 + digit_value(s.last())
    }
}

pub open spec fn all_digits(s: Seq<char>) -> bool {
    forall|i: int| 0 <= i < s.len() ==> is_digit(#[trigger] s[i])
}

/// The digits of an unsigned number as text: all of `s`, or all of it after
/// one leading `+`; at least one digit.
pub open spec fn unsigned_digits(s: Seq<char>) -> Option<Seq<char>> {
    let d = if s.len() > 0 && s[0] == '+' {
        s.drop_first()
    } else {
        s
    };
    if d.len() > 0 && all_digits(d) {
        Some(d)
    } else {
        None
    }
}

/// The value of `s` read as an unsigned decimal number no larger than `max`,
/// as `str::parse` reads an unsigned integer type.
pub open spec fn parsed_unsigned(s: Seq<char>, max: int) -> Option<int> {
    match unsigned_digits(s) {
        Some(d) => if digits_value(d) <= max {
            Some(digits_value(d))
        } else {
            None
        },
        None => None,
    }
}

proof fn lemma_digits_value_grows(s: Seq<char>, i: int)
    requires
        0 <= i <= s.len(),
        all_digits(s),
    ensures
        digits_value(s.subrange(0, i)) <= digits_value(s),
        0 <= digits_value(s.subrange(0, i)),
    decreases s.len() - i,
{
    if i < s.len() {
        lemma_digits_value_grows(s, i + 1);
        assert(s.subrange(0, i + 1).drop_last() =~= s.subrange(0, i));
        assert(is_digit(s[i]));
    } else {
        assert(s.subrange(0, i) =~= s);
        lemma_digits_value_nonneg(s);
    }
}

proof fn lemma_digits_value_nonneg(s: Seq<char>)
    requires
        all_digits(s),
    ensures
        digits_value(s) >= 0,
    decreases s.len(),
{
    if s.len() > 0 {
        assert(is_digit(s.last()));
        lemma_digits_value_nonneg(s.drop_last());
    }
}

/// Reads `s` as an unsigned decimal number no larger than `max`.
pub fn parse_unsigned(s: &str, max: u64) -> (r: Option<u64>)
    ensures
        r is Some <==> parsed_unsigned(s@, max as int) is Some,
        r matches Some(v) ==> parsed_unsigned(s@, max as int) == Some(v as int) && v <= max,
{
    let n = s.unicode_len();
    let mut i: usize = 0;
    if n > 0 && s.get_char(0) == '+' {
        i = 1;
    }
    let ghost d = if s@.len() > 0 && s@[0] == '+' {
        s@.drop_first()
    } else {
        s@
    };
    let first = i;
    assert(d =~= s@.subrange(first as int, n as int));
    assert(unsigned_digits(s@) == (if d.len() > 0 && all_digits(d) {
        Some(d)
    } else {
        None::<Seq<char>>
    }));
    if i >= n {
        return None;
    }
    let mut acc: u64 = 0;
    while i < n
        invariant
            n == s@.len(),
            first <= i <= n,
            first < n,
            d == s@.subrange(first as int, n as int),
            forall|j: int| 0 <= j < i - first ==> is_digit(#[trigger] d[j]),
            acc as int == digits_value(d.subrange(0, i - first)),
            acc <= max,
            unsigned_digits(s@) == (if d.len() > 0 && all_digits(d) {
                Some(d)
            } else {
                None::<Seq<char>>
            }),
        decreases n - i,
    {
        let c = s.get_char(i);
        if c < '0' || c > '9' {
            assert(d[i - first] == s@[i as int]);
            assert(!is_digit(d[i - first]));
            assert(!all_digits(d));
            assert(unsigned_digits(s@) is None);
            return None;
        }
        let v = (c as u32 - '0' as u32) as u64;
        proof {
            assert(d.subrange(0, i + 1 - first).drop_last() =~= d.subrange(0, i - first));
        }
        if v > max || acc > (max - v) / 10 {
            proof {
                assert(digits_value(d.subrange(0, i + 1 - first)) == acc * 10 + v);
                if v <= max {
                    assert(acc * 10 + v > max) by (nonlinear_arith)
                        requires
                            acc > (max - v) / 10,
                            v <= max,
                    ;
                }
                let full = d;
                assert(all_digits(full.subrange(0, i + 1 - first)));
                if all_digits(full) {
                    lemma_digits_value_grows(full, i + 1 - first);
                    assert(digits_value(full) > max);
                }
                assert(parsed_unsigned(s@, max as int) is None);
            }
            return None;
        }
        acc = acc * 10 + v;
        i += 1;
    }
    proof {
        assert(d.subrange(0, n - first) =~= d);
    }
    Some(acc)
}

} // verus!
