//! The process start time, read from the text of a Linux `/proc/<pid>/stat`
//! file, used to tell a daemon from a later process that reuses its pid.
use vstd::prelude::*;
use crate::decimal::{dec_value, is_canonical_dec, parse_decimal};

verus! {

/// Field `k` of `s`, fields being separated by single spaces; none if `s`
/// has fewer than `k + 1` fields.
pub open spec fn nth_field(s: Seq<char>, k: nat) -> Option<Seq<char>>
    decreases s.len(),
{
    if s.len() == 0 {
        if k == 0 {
            Some(Seq::empty())
        } else {
            None
        }
    } else if s[0] == ' ' {
        if k == 0 {
            Some(Seq::empty())
        } else {
            nth_field(s.drop_first(), (k - 1) as nat)
        }
    } else if k == 0 {
        Some(seq![s[0]] + nth_field(s.drop_first(), 0)->0)
    } else {
        nth_field(s.drop_first(), k)
    }
}

proof fn lemma_first_field_some(s: Seq<char>)
    ensures
        nth_field(s, 0) is Some,
    decreases s.len(),
{
    if s.len() > 0 && s[0] != ' ' {
        lemma_first_field_some(s.drop_first());
    }
}

/// Field `k` of `s`, fields being separated by single spaces.
pub fn field_of(s: &str, k: usize) -> (r: Option<String>)
    ensures
        r matches Some(f) ==> nth_field(s@, k as nat) == Some(f@),
        r is None ==> nth_field(s@, k as nat) is None,
{
    let n = s.unicode_len();
    let mut i: usize = 0;
    let mut left: usize = k;
    assert(s@.subrange(0, n as int) == s@);
    while left > 0 && i < n
        invariant
            n == s@.len(),
            i <= n,
            nth_field(s@.subrange(i as int, n as int), left as nat) == nth_field(s@, k as nat),
        decreases n - i,
    {
        assert(s@.subrange(i as int, n as int).drop_first() == s@.subrange(i + 1, n as int));
        if s.get_char(i) == ' ' {
            left = left - 1;
        }
        i = i + 1;
    }
    if left > 0 {
        assert(s@.subrange(i as int, n as int).len() == 0);
        return None;
    }
    let start = i;
    proof {
        lemma_first_field_some(s@.subrange(i as int, n as int));
    }
    while i < n && s.get_char(i) != ' '
        invariant
            n == s@.len(),
            start <= i <= n,
            nth_field(s@.subrange(i as int, n as int), 0) is Some,
            nth_field(s@, k as nat) == Some(
                s@.subrange(start as int, i as int) + nth_field(
                    s@.subrange(i as int, n as int),
                    0,
                )->0,
            ),
        decreases n - i,
    {
        let ghost rest = s@.subrange(i as int, n as int);
        assert(rest.drop_first() == s@.subrange(i + 1, n as int));
        assert(rest[0] == s@[i as int]);
        proof {
            lemma_first_field_some(rest.drop_first());
        }
        assert(s@.subrange(start as int, i + 1) == s@.subrange(start as int, i as int).push(
            s@[i as int],
        ));
        assert(s@.subrange(start as int, i + 1) + nth_field(rest.drop_first(), 0)->0
            =~= s@.subrange(start as int, i as int) + (seq![rest[0]] + nth_field(
            rest.drop_first(),
            0,
        )->0));
        i = i + 1;
    }
    assert(nth_field(s@.subrange(i as int, n as int), 0)->0 =~= Seq::<char>::empty());
    assert(s@.subrange(start as int, i as int) + Seq::<char>::empty() =~= s@.subrange(
        start as int,
        i as int,
    ));
    Some(String::from_str(s.substring_char(start, i)))
}

/// The index of the last `)` in `s`, or -1 if there is none.
pub open spec fn last_paren(s: Seq<char>) -> int
    decreases s.len(),
{
    if s.len() == 0 {
        -1
    } else if s.last() == ')' {
        s.len() - 1
    } else {
        last_paren(s.drop_last())
    }
}

/// The start time in a stat line: the twenty-second field, counted after
/// the command name, which is enclosed in parentheses and may itself hold
/// spaces or parentheses.
pub open spec fn stat_start_time_spec(stat: Seq<char>) -> Option<nat> {
    let j = last_paren(stat);
    if j < 0 {
        None
    } else {
        match nth_field(stat.subrange(j + 1, stat.len() as int), 20) {
            Some(f) => if is_canonical_dec(f) && dec_value(f) <= u64::MAX {
                Some(dec_value(f))
            } else {
                None
            },
            None => None,
        }
    }
}

/// The process start time from the text of its stat file.
pub fn stat_start_time(stat: &str) -> (r: Option<u64>)
    ensures
        r matches Some(t) ==> stat_start_time_spec(stat@) == Some(t as nat),
        r is None ==> stat_start_time_spec(stat@) is None,
{
    let n = stat.unicode_len();
    let mut j: usize = n;
    assert(stat@.subrange(0, n as int) == stat@);
    while j > 0 && stat.get_char(j - 1) != ')'
        invariant
            n == stat@.len(),
            j <= n,
            last_paren(stat@) == last_paren(stat@.subrange(0, j as int)),
        decreases j,
    {
        assert(stat@.subrange(0, j as int).drop_last() == stat@.subrange(0, j - 1));
        j = j - 1;
    }
    if j == 0 {
        return None;
    }
    assert(stat@.subrange(0, j as int).last() == ')');
    let rest = stat.substring_char(j, n);
    match field_of(rest, 20) {
        Some(f) => parse_decimal(f.as_str()),
        None => None,
    }
}

} // verus!
