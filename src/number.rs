//! Reading integers and decimals from the text of a JSON number.
use vstd::prelude::*;
use vstd::utf8::encode_utf8;

verus! {

/// The largest magnitude that any integer field of this library can hold.
pub const LIMIT: u128 = 18446744073709551616;

/// ASCII `0`.
pub const ZERO: u8 = 48;

/// ASCII `9`.
pub const NINE: u8 = 57;

/// ASCII `-`.
pub const MINUS: u8 = 45;

/// ASCII `.`.
pub const POINT: u8 = 46;

pub open spec fn is_digit(b: u8) -> bool {
    ZERO <= b <= NINE
}

/// Every byte is an ASCII digit (the empty sequence included).
pub open spec fn digits_only(s: Seq<u8>) -> bool {
    forall|i: int| 0 <= i < s.len() ==> is_digit(#[trigger] s[i])
}

/// One or more ASCII digits.
pub open spec fn all_digits(s: Seq<u8>) -> bool {
    s.len() > 0 && digits_only(s)
}

/// The value of a run of decimal digits.
pub open spec fn digits_value(s: Seq<u8>) -> int
    decreases s.len(),
{
    if s.len() == 0 {
        0
    } else {
        10 * digits_value(s.drop_last()) + (s.last() - ZERO)
    }
}

/// The integer that a text of an optional `-` and one or more digits denotes.
pub open spec fn integer_value(s: Seq<u8>) -> Option<int> {
    if s.len() > 0 && s[0] == MINUS && all_digits(s.drop_first()) {
        Some(-digits_value(s.drop_first()))
    } else if all_digits(s) {
        Some(digits_value(s))
    } else {
        None
    }
}

/// `p` is the position of the point in a text `digits.digits`.
pub open spec fn is_decimal_point(s: Seq<u8>, p: int) -> bool {
    0 < p < s.len() - 1 && s[p] == POINT && all_digits(s.take(p)) && all_digits(s.skip(p + 1))
}

/// A text of digits with at most one decimal point inside, as the number
/// formed by all its digits and the count of digits after the point.
pub open spec fn decimal_value(s: Seq<u8>) -> Option<(int, nat)> {
    if all_digits(s) {
        Some((digits_value(s), 0))
    } else if exists|p: int| is_decimal_point(s, p) {
        let p = choose|p: int| is_decimal_point(s, p);
        Some((digits_value(s.take(p) + s.skip(p + 1)), (s.len() - p - 1) as nat))
    } else {
        None
    }
}

proof fn lemma_digits_value_nonneg(s: Seq<u8>)
    requires
        digits_only(s),
    ensures
        digits_value(s) >= 0,
    decreases s.len(),
{
    if s.len() > 0 {
        lemma_digits_value_nonneg(s.drop_last());
    }
}

/// A run of digits is worth at least any of its prefixes.
proof fn lemma_digits_value_prefix(s: Seq<u8>, k: int)
    requires
        digits_only(s),
        0 <= k <= s.len(),
    ensures
        digits_value(s.take(k)) <= digits_value(s),
    decreases s.len(),
{
    if k == s.len() {
        assert(s.take(k) =~= s);
    } else {
        let d = s.drop_last();
        lemma_digits_value_prefix(d, k);
        assert(d.take(k) =~= s.take(k));
        lemma_digits_value_nonneg(d);
    }
}

/// The value of the digits `b[i]` for `from <= i < to`, when they are one
/// or more digits and their value is at most `LIMIT`.
fn digits_between(b: &[u8], from: usize, to: usize) -> (r: Option<u128>)
    requires
        from <= to <= b@.len(),
    ensures
        match r {
            Some(v) => all_digits(b@.subrange(from as int, to as int)) && v as int == digits_value(
                b@.subrange(from as int, to as int),
            ) && v <= LIMIT,
            None => !all_digits(b@.subrange(from as int, to as int)) || digits_value(
                b@.subrange(from as int, to as int),
            ) > LIMIT,
        },
{
    let ghost s = b@.subrange(from as int, to as int);
    if from == to {
        return None;
    }
    let mut acc: u128 = 0;
    let mut i: usize = from;
    while i < to
        invariant
            from <= i <= to <= b@.len(),
            s == b@.subrange(from as int, to as int),
            digits_only(b@.subrange(from as int, i as int)),
            acc as int == digits_value(b@.subrange(from as int, i as int)),
            acc <= LIMIT,
        decreases to - i,
    {
        let c = b[i];
        let ghost pre = b@.subrange(from as int, i as int);
        let ghost next = b@.subrange(from as int, i + 1);
        assert(next.drop_last() =~= pre);
        assert(pre =~= s.take(i - from));
        if c < ZERO || c > NINE {
            assert(s[i - from] == c);
            return None;
        }
        acc = acc * 10 + (c - ZERO) as u128;
        assert(digits_only(next)) by {
            assert forall|k: int| 0 <= k < next.len() implies is_digit(#[trigger] next[k]) by {
                if k < pre.len() {
                    assert(next[k] == pre[k]);
                }
            }
        }
        if acc > LIMIT {
            assert(next =~= s.take(i + 1 - from));
            proof {
                if all_digits(s) {
                    lemma_digits_value_prefix(s, i + 1 - from);
                }
            }
            return None;
        }
        i += 1;
    }
    Some(acc)
}

/// Reads the text of an integer: an optional `-` and one or more digits.
/// `None` when the text is no integer or its magnitude exceeds `LIMIT`.
pub fn parse_integer(t: &str) -> (r: Option<i128>)
    ensures
        match r {
            Some(v) => integer_value(encode_utf8(t@)) == Some(v as int),
            None => match integer_value(encode_utf8(t@)) {
                Some(v) => v > LIMIT || v < -LIMIT,
                None => true,
            },
        },
{
    let b = t.as_bytes();
    let n = b.len();
    assert(b@.subrange(0, n as int) =~= b@);
    if n > 0 && b[0] == MINUS {
        assert(b@.subrange(1, n as int) =~= b@.drop_first());
        assert(!is_digit(b@[0]));
        match digits_between(b, 1, n) {
            Some(v) => Some(-(v as i128)),
            None => None,
        }
    } else {
        match digits_between(b, 0, n) {
            Some(v) => Some(v as i128),
            None => None,
        }
    }
}

/// Only `p` can be the decimal point of a text whose bytes before `p` are
/// digits and whose byte at `p` is not.
proof fn lemma_point_unique(s: Seq<u8>, p: int, q: int)
    requires
        0 <= p < s.len(),
        digits_only(s.take(p)),
        !is_digit(s[p]),
        is_decimal_point(s, q),
    ensures
        q == p,
{
    if q < p {
        assert(s.take(p)[q] == s[q]);
    } else if q > p {
        assert(s.take(q)[p] == s[p]);
    }
}

/// Reads the text of a non-negative decimal (`3`, `0.5`, `2.50`) as the
/// number formed by all its digits and the count of digits after the point.
/// `None` when the text is no such decimal or that number exceeds `u64::MAX`.
pub fn parse_decimal(t: &str) -> (r: Option<(u64, usize)>)
    ensures
        match r {
            Some((v, k)) => decimal_value(encode_utf8(t@)) == Some((v as int, k as nat)),
            None => match decimal_value(encode_utf8(t@)) {
                Some((v, _)) => v > u64::MAX,
                None => true,
            },
        },
{
    let b = t.as_bytes();
    let ghost s = b@;
    let n = b.len();
    let mut p: usize = 0;
    while p < n && ZERO <= b[p] && b[p] <= NINE
        invariant
            p <= n == s.len(),
            s == b@,
            digits_only(s.take(p as int)),
        decreases n - p,
    {
        assert forall|k: int| 0 <= k < p + 1 implies is_digit(#[trigger] s.take(p + 1)[k]) by {
            if k < p {
                assert(s.take(p + 1)[k] == s.take(p as int)[k]);
            }
        }
        p += 1;
    }
    if p == n {
        assert(s.take(p as int) =~= s);
        assert(s.subrange(0, n as int) =~= s);
        match digits_between(b, 0, n) {
            Some(v) => {
                if v <= u64::MAX as u128 {
                    Some((v as u64, 0))
                } else {
                    None
                }
            },
            None => None,
        }
    } else if p > 0 && b[p] == POINT && p + 1 < n {
        let mut d: Vec<u8> = Vec::new();
        let mut i: usize = 0;
        while i < n
            invariant
                p < n == s.len(),
                s == b@,
                i <= n,
                i <= p ==> d@ =~= s.take(i as int),
                i > p ==> d@ =~= s.take(p as int) + s.subrange(p + 1, i as int),
            decreases n - i,
        {
            if i != p {
                d.push(b[i]);
            }
            i += 1;
        }
        assert(s.subrange(p + 1, n as int) =~= s.skip(p + 1));
        let ghost both = s.take(p as int) + s.skip(p + 1);
        assert(d@ =~= both);
        assert(d@.subrange(0, d@.len() as int) =~= d@);
        let ghost rest_digits = all_digits(s.skip(p + 1));
        proof {
            if all_digits(both) {
                assert forall|k: int| 0 <= k < s.skip(p + 1).len() implies is_digit(
                    #[trigger] s.skip(p + 1)[k],
                ) by {
                    assert(both[p + k] == s.skip(p + 1)[k]);
                }
            }
            if rest_digits {
                assert forall|k: int| 0 <= k < both.len() implies is_digit(#[trigger] both[k]) by {
                    if k >= p {
                        assert(both[k] == s.skip(p + 1)[k - p]);
                    }
                }
                assert(is_decimal_point(s, p as int));
                assert forall|q: int| is_decimal_point(s, q) implies q == p by {
                    lemma_point_unique(s, p as int, q);
                }
            } else {
                assert forall|q: int| !is_decimal_point(s, q) by {
                    if is_decimal_point(s, q) {
                        lemma_point_unique(s, p as int, q);
                    }
                }
            }
            assert(!all_digits(s)) by {
                assert(!is_digit(s[p as int]));
            }
        }
        match digits_between(&d, 0, d.len()) {
            Some(v) => {
                if v <= u64::MAX as u128 {
                    Some((v as u64, n - p - 1))
                } else {
                    None
                }
            },
            None => None,
        }
    } else {
        proof {
            assert forall|q: int| !is_decimal_point(s, q) by {
                if is_decimal_point(s, q) {
                    lemma_point_unique(s, p as int, q);
                }
            }
            assert(!all_digits(s)) by {
                assert(!is_digit(s[p as int]));
            }
        }
        None
    }
}

} // verus!
