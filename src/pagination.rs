use crate::error::Error;
use vstd::prelude::*;
use vstd::string::{StrSliceExecFns, StringExecFns};

verus! {

/// Pagination extracted from query parameters.
#[derive(Debug, Clone, Copy, PartialEq, Eq, Structural)]
pub struct Pagination {
    /// The index of the first item that should be returned
    pub start: usize,
    /// The index of the last item to be returned
    pub end: usize,
}

pub open spec fn is_digit(c: char) -> bool {
    '0' <= c <= '9'
}

pub open spec fn all_digits(s: Seq<char>) -> bool {
    forall|i: int| 0 <= i < s.len() ==> is_digit(#[trigger] s[i])
}

/// The number a string of decimal digits writes.
pub open spec fn digits_value(s: Seq<char>) -> nat
    decreases s.len(),
{
    if s.len() == 0 {
        0
    } else {
        digits_value(s.drop_last()) * 10 + (s.last() as nat - '0' as nat) as nat
    }
}

/// The digits of a decimal literal: what follows an optional leading `+`.
pub open spec fn unsigned_digits(s: Seq<char>) -> Seq<char> {
    if s.len() > 0 && s[0] == '+' {
        s.drop_first()
    } else {
        s
    }
}

/// A `usize` written in decimal: an optional `+`, then at least one digit,
/// and a value that fits.
pub open spec fn parse_usize_spec(s: Seq<char>) -> Option<usize> {
    let d = unsigned_digits(s);
    if d.len() > 0 && all_digits(d) && digits_value(d) <= usize::MAX {
        Some(digits_value(d) as usize)
    } else {
        None
    }
}

/// The value of the last parameter named `key`, as a map filled from the
/// parameters in order would hold it.
pub open spec fn lookup(params: Seq<(String, String)>, key: Seq<char>) -> Option<Seq<char>>
    decreases params.len(),
{
    if params.len() == 0 {
        None
    } else if params.last().0@ == key {
        Some(params.last().1@)
    } else {
        lookup(params.drop_last(), key)
    }
}

pub open spec fn start_key() -> Seq<char> {
    seq!['s', 't', 'a', 'r', 't']
}

pub open spec fn end_key() -> Seq<char> {
    seq!['e', 'n', 'd']
}

/// What the query parameters give: both bounds, each a valid `usize`; a
/// parse error where one of them is not; missing parameters where either is
/// absent.
pub open spec fn pagination_of(params: Seq<(String, String)>) -> Result<Pagination, Error> {
    match (lookup(params, start_key()), lookup(params, end_key())) {
        (Some(s), Some(e)) => match (parse_usize_spec(s), parse_usize_spec(e)) {
            (Some(start), Some(end)) => Ok(Pagination { start, end }),
            _ => Err(Error::ParseError),
        },
        _ => Err(Error::MissingParameters),
    }
}

proof fn lemma_digits_value_prefix(s: Seq<char>, k: int)
    requires
        0 <= k <= s.len(),
        all_digits(s),
    ensures
        digits_value(s.take(k)) <= digits_value(s),
    decreases s.len(),
{
    if k < s.len() {
        let t = s.drop_last();
        assert(t.take(k) =~= s.take(k));
        assert forall|i: int| 0 <= i < t.len() implies is_digit(#[trigger] t[i]) by {
            assert(t[i] == s[i]);
        }
        lemma_digits_value_prefix(t, k);
    } else {
        assert(s.take(k) =~= s);
    }
}

/// Reads a decimal `usize` as `str::parse::<usize>` does.
pub fn parse_usize(s: &str) -> (r: Option<usize>)
    ensures
        r == parse_usize_spec(s@),
{
    let n = s.unicode_len();
    let mut i: usize = 0;
    if n > 0 && s.get_char(0) == '+' {
        i = 1;
    }
    let first = i;
    let ghost d = unsigned_digits(s@);
    assert(d =~= s@.subrange(first as int, n as int));
    if first == n {
        return None;
    }
    let mut k: usize = first;
    while k < n
        invariant
            first <= k <= n,
            n == s@.len(),
            d == s@.subrange(first as int, n as int),
            d == unsigned_digits(s@),
            forall|j: int| 0 <= j < k - first ==> is_digit(#[trigger] d[j]),
        decreases n - k,
    {
        let c = s.get_char(k);
        if !('0' <= c && c <= '9') {
            assert(d[k - first] == c);
            assert(!is_digit(d[k - first]));
            assert(!all_digits(d));
            return None;
        }
        k = k + 1;
    }
    assert(all_digits(d));
    let mut v: usize = 0;
    let mut j: usize = first;
    while j < n
        invariant
            first <= j <= n,
            n == s@.len(),
            d == s@.subrange(first as int, n as int),
            d == unsigned_digits(s@),
            all_digits(d),
            v as nat == digits_value(d.take(j - first)),
        decreases n - j,
    {
        let c = s.get_char(j);
        assert(d[j - first] == c);
        assert(d.take(j - first + 1).drop_last() =~= d.take(j - first));
        let digit = (c as u32 - '0' as u32) as usize;
        assert(is_digit(d[j - first]));
        assert(d.take(j - first + 1).last() == c);
        assert(digits_value(d.take(j - first + 1)) == v * 10 + digit);
        if v > (usize::MAX - digit) / 10 {
            assert(digits_value(d.take(j - first + 1)) > usize::MAX) by (nonlinear_arith)
                requires
                    v > (usize::MAX - digit) / 10,
                    digits_value(d.take(j - first + 1)) == v * 10 + digit,
                    digit <= 9,
            ;
            proof {
                lemma_digits_value_prefix(d, j - first + 1);
                assert(digits_value(d) > usize::MAX);
            }
            return None;
        }
        assert(v * 10 + digit <= usize::MAX) by (nonlinear_arith)
            requires
                v <= (usize::MAX - digit) / 10,
                digit <= 9,
        ;
        v = v * 10 + digit;
        j = j + 1;
    }
    assert(d.take(n - first) =~= d);
    Some(v)
}

/// The last value given for `key`.
fn find_param<'a>(params: &'a Vec<(String, String)>, key: &String) -> (r: Option<&'a String>)
    ensures
        match lookup(params@, key@) {
            Some(v) => r matches Some(x) && x@ == v,
            None => r is None,
        },
{
    let mut i: usize = params.len();
    assert(params@.take(i as int) =~= params@);
    while i > 0
        invariant
            i <= params@.len(),
            lookup(params@, key@) == lookup(params@.take(i as int), key@),
        decreases i,
    {
        let ghost t = params@.take(i as int);
        assert(t.drop_last() =~= params@.take(i - 1));
        if params[i - 1].0 == *key {
            return Some(&params[i - 1].1);
        }
        i = i - 1;
    }
    None
}

/// Extracts `start` and `end` from the query parameters of the question
/// listing, e.g. `?start=1&end=50`.
pub fn extract_pagination(params: Vec<(String, String)>) -> (r: Result<Pagination, Error>)
    ensures
        r == pagination_of(params@),
{
    proof {
        reveal_strlit("start");
        reveal_strlit("end");
        assert(params@.take(params@.len() as int) =~= params@);
    }
    let start_name = String::from_str("start");
    let end_name = String::from_str("end");
    assert(start_name@ =~= start_key());
    assert(end_name@ =~= end_key());
    match (find_param(&params, &start_name), find_param(&params, &end_name)) {
        (Some(s), Some(e)) => {
            let start = match parse_usize(s.as_str()) {
                Some(v) => v,
                None => return Err(Error::ParseError),
            };
            let end = match parse_usize(e.as_str()) {
                Some(v) => v,
                None => return Err(Error::ParseError),
            };
            Ok(Pagination { start, end })
        },
        _ => Err(Error::MissingParameters),
    }
}

} // verus!
