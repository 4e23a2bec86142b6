//! Decimal rendering and parsing of unsigned integers.
use vstd::prelude::*;
use crate::fingerprint::push_char;

verus! {

/// The ASCII digit of a value below ten.
pub open spec fn digit_char(d: nat) -> char {
    (d + 48) as char
}

/// The canonical decimal rendering of `n`: no sign, no leading zeros.
pub open spec fn dec_spec(n: nat) -> Seq<char>
    decreases n,
{
    if n < 10 {
        seq![digit_char(n)]
    } else {
        dec_spec(n / 10).push(digit_char(n % 10))
    }
}

/// Whether `c` is an ASCII digit.
pub open spec fn is_digit(c: char) -> bool {
    '0' <= c && c <= '9'
}

/// The value of a sequence of ASCII digits.
pub open spec fn dec_value(s: Seq<char>) -> nat
    decreases s.len(),
{
    if s.len() == 0 {
        0
    } else {
        dec_value(s.drop_last()) * 10 + (s.last() as nat - 48) as nat
    }
}

/// A canonical decimal: one or more digits, no leading zero unless the
/// number is zero itself.
pub open spec fn is_canonical_dec(s: Seq<char>) -> bool {
    &&& s.len() > 0
    &&& forall|i: int| 0 <= i < s.len() ==> is_digit(#[trigger] s[i])
    &&& (s.len() > 1 ==> s[0] != '0')
}

fn digit(d: u64) -> (c: char)
    requires
        d < 10,
    ensures
        c == digit_char(d as nat),
{
    ((d as u8) + 48) as char
}

/// Renders `n` in decimal.
pub fn to_decimal(n: u64) -> (r: String)
    ensures
        r@ == dec_spec(n as nat),
    decreases n,
{
    if n < 10 {
        let mut r = String::new();
        push_char(&mut r, digit(n));
        r
    } else {
        let mut r = to_decimal(n / 10);
        push_char(&mut r, digit(n % 10));
        r
    }
}

/// The canonical rendering is canonical, and reads back as the number.
pub proof fn lemma_dec_round_trip(n: nat)
    ensures
        is_canonical_dec(dec_spec(n)),
        dec_value(dec_spec(n)) == n,
        dec_spec(n)[0] == '0' ==> n == 0,
    decreases n,
{
    assert(digit_char(n % 10) as nat == n % 10 + 48);
    if n < 10 {
        assert(dec_spec(n).drop_last().len() == 0);
        assert(dec_value(dec_spec(n)) == dec_value(dec_spec(n).drop_last()) * 10 + (digit_char(n) as nat - 48) as nat);
    } else {
        lemma_dec_round_trip(n / 10);
        let p = dec_spec(n / 10);
        assert(dec_spec(n).drop_last() == p);
        assert(dec_spec(n).last() == digit_char(n % 10));
        assert(n == (n / 10) * 10 + n % 10);
        assert forall|i: int| 0 <= i < dec_spec(n).len() implies is_digit(#[trigger] dec_spec(n)[i]) by {
            if i < p.len() {
                assert(dec_spec(n)[i] == p[i]);
            }
        }
    }
}

/// A canonical decimal is the rendering of its value.
pub proof fn lemma_canonical_unique(s: Seq<char>)
    requires
        is_canonical_dec(s),
    ensures
        dec_spec(dec_value(s)) == s,
    decreases s.len(),
{
    if s.len() > 1 {
        let p = s.drop_last();
        assert(is_digit(p[0]));
        assert forall|i: int| 0 <= i < p.len() implies is_digit(#[trigger] p[i]) by {
            assert(p[i] == s[i]);
        }
        lemma_canonical_unique(p);
        lemma_dec_value_positive(p);
        assert(s.last() == s[s.len() - 1]);
        assert(is_digit(s[s.len() - 1]));
        let v = dec_value(s);
        let d = (s.last() as nat - 48) as nat;
        let q = dec_value(p);
        assert(d < 10);
        assert(v == q * 10 + d);
        assert(v / 10 == q && v % 10 == d) by (nonlinear_arith)
            requires
                v == q * 10 + d,
                d < 10,
        ;
        assert(v >= 10);
        assert(digit_char(d) == s.last());
        assert(s == p.push(s.last()));
    } else {
        assert(is_digit(s[0]));
        assert(s.drop_last().len() == 0);
        assert(s == seq![s[0]]);
        assert(s.last() == s[0]);
        assert(dec_value(s.drop_last()) == 0);
        assert(dec_value(s) == (s[0] as nat - 48) as nat);
        assert(digit_char(dec_value(s)) == s[0]);
    }
}

proof fn lemma_dec_value_positive(s: Seq<char>)
    requires
        s.len() > 0,
        s[0] != '0',
        forall|i: int| 0 <= i < s.len() ==> is_digit(#[trigger] s[i]),
    ensures
        dec_value(s) >= 1,
    decreases s.len(),
{
    if s.len() > 1 {
        let p = s.drop_last();
        assert(p[0] == s[0]);
        assert forall|i: int| 0 <= i < p.len() implies is_digit(#[trigger] p[i]) by {
            assert(p[i] == s[i]);
        }
        lemma_dec_value_positive(p);
    }
}

proof fn lemma_dec_value_prefix(s: Seq<char>, j: int)
    requires
        0 <= j <= s.len(),
        forall|i: int| 0 <= i < s.len() ==> is_digit(#[trigger] s[i]),
    ensures
        dec_value(s.subrange(0, j)) <= dec_value(s),
    decreases s.len() - j,
{
    if j < s.len() {
        lemma_dec_value_prefix(s, j + 1);
        assert(s.subrange(0, j + 1).drop_last() == s.subrange(0, j));
    } else {
        assert(s.subrange(0, j) == s);
    }
}

/// Parses a canonical decimal that fits in 64 bits.
pub fn parse_decimal(s: &str) -> (r: Option<u64>)
    ensures
        r is Some <==> is_canonical_dec(s@) && dec_value(s@) <= u64::MAX,
        r matches Some(v) ==> v as nat == dec_value(s@),
{
    let n = s.unicode_len();
    if n == 0 {
        return None;
    }
    if n > 1 && s.get_char(0) == '0' {
        return None;
    }
    let mut v: u64 = 0;
    let mut i: usize = 0;
    while i < n
        invariant
            n == s@.len(),
            i <= n,
            v as nat == dec_value(s@.subrange(0, i as int)),
            forall|k: int| 0 <= k < i ==> is_digit(#[trigger] s@[k]),
        decreases n - i,
    {
        let c = s.get_char(i);
        if !('0' <= c && c <= '9') {
            return None;
        }
        let d = (c as u64) - 48;
        assert(s@.subrange(0, i + 1).drop_last() == s@.subrange(0, i as int));
        assert(s@.subrange(0, i + 1).last() == c);
        if v > (u64::MAX - d) / 10 {
            proof {
                assert(v * 10 + d > u64::MAX) by (nonlinear_arith)
                    requires
                        v > (u64::MAX - d) / 10,
                        d < 10,
                ;
                if is_canonical_dec(s@) {
                    lemma_dec_value_prefix(s@, i + 1);
                }
            }
            return None;
        }
        proof {
            assert(v * 10 + d <= u64::MAX) by (nonlinear_arith)
                requires
                    v <= (u64::MAX - d) / 10,
                    d < 10,
            ;
        }
        v = v * 10 + d;
        i = i + 1;
    }
    assert(s@.subrange(0, n as int) == s@);
    Some(v)
}

} // verus!
