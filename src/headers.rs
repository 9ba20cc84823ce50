//! Reading the remote size from the headers of a probe response.
use vstd::prelude::*;

verus! {

pub open spec fn is_digit(c: char) -> bool {
    '0' <= c && c <= '9'
}

pub open spec fn digit_value(c: char) -> nat {
    (c as u32 - '0' as u32) as nat
}

pub open spec fn all_digits(s: Seq<char>) -> bool {
    forall|k: int| 0 <= k < s.len() ==> is_digit(#[trigger] s[k])
}

/// The number that a run of decimal digits denotes.
pub open spec fn digits_value(s: Seq<char>) -> nat
    decreases s.len(),
{
    if s.len() == 0 {
        0
    } else {
        digits_value(s.drop_last()) * 10 + digit_value(s.last())
    }
}

/// The number that `s` writes in decimal, when it is a non-empty run of digits
/// whose value fits in a `u64`.
pub open spec fn decimal_value(s: Seq<char>) -> Option<u64> {
    if s.len() > 0 && all_digits(s) && digits_value(s) <= u64::MAX {
        Some(digits_value(s) as u64)
    } else {
        None
    }
}

/// Index of the last `c` in `s` before index `end`, or -1 if there is none.
pub open spec fn last_index_before(s: Seq<char>, c: char, end: int) -> int
    decreases end,
{
    if end <= 0 || end > s.len() {
        -1
    } else if s[end - 1] == c {
        end - 1
    } else {
        last_index_before(s, c, end - 1)
    }
}

/// Index of the last `c` in `s`, or -1 if there is none.
pub open spec fn last_index_of(s: Seq<char>, c: char) -> int {
    last_index_before(s, c, s.len() as int)
}

pub proof fn lemma_last_index_range(s: Seq<char>, c: char, end: int)
    ensures
        -1 <= last_index_before(s, c, end) < s.len(),
        last_index_before(s, c, end) >= 0 ==> s[last_index_before(s, c, end)] == c,
    decreases end,
{
    if end <= 0 || end > s.len() {
    } else if s[end - 1] == c {
    } else {
        lemma_last_index_range(s, c, end - 1);
    }
}

/// The total size that a `Content-Range` value gives: the number after its
/// last `/` (`bytes 0-0/1048576` gives 1048576).
pub open spec fn content_range_total(v: Seq<char>) -> Option<u64> {
    let k = last_index_of(v, '/');
    if k < 0 {
        None
    } else {
        decimal_value(v.subrange(k + 1, v.len() as int))
    }
}

/// The authoritative size of a probe response: the total of `Content-Range`
/// where it is readable, else the value of `Content-Length`.
pub open spec fn authoritative_size(
    content_range: Option<Seq<char>>,
    content_length: Option<Seq<char>>,
) -> Option<u64> {
    let from_range = match content_range {
        Some(v) => content_range_total(v),
        None => None,
    };
    match from_range {
        Some(n) => Some(n),
        None => match content_length {
            Some(v) => decimal_value(v),
            None => None,
        },
    }
}

proof fn lemma_digits_grow(s: Seq<char>, i: int, j: int)
    requires
        0 <= i <= j <= s.len(),
        all_digits(s),
    ensures
        digits_value(s.subrange(0, i)) <= digits_value(s.subrange(0, j)),
    decreases j - i,
{
    if i < j {
        lemma_digits_grow(s, i, j - 1);
        assert(s.subrange(0, j).drop_last() =~= s.subrange(0, j - 1));
    }
}

/// Index of the last `c` in `s`, or -1 if there is none.
pub fn find_last(s: &str, c: char) -> (r: Option<usize>)
    ensures
        s@.len() <= usize::MAX,
        match r {
            Some(k) => k == last_index_of(s@, c) && k < s@.len(),
            None => last_index_of(s@, c) < 0,
        },
{
    let n = s.unicode_len();
    let mut end: usize = n;
    while end > 0
        invariant
            n == s@.len(),
            end <= n,
            last_index_before(s@, c, end as int) == last_index_of(s@, c),
        decreases end,
    {
        if s.get_char(end - 1) == c {
            proof {
                lemma_last_index_range(s@, c, n as int);
            }
            return Some(end - 1);
        }
        end = end - 1;
    }
    None
}

/// Reads the characters of `s` from index `start` on as a decimal number.
pub fn parse_decimal_from(s: &str, start: usize) -> (r: Option<u64>)
    requires
        start <= s@.len(),
    ensures
        r == decimal_value(s@.subrange(start as int, s@.len() as int)),
{
    let n = s.unicode_len();
    let ghost t = s@.subrange(start as int, n as int);
    if start == n {
        return None;
    }
    let mut i: usize = start;
    let mut value: u64 = 0;
    while i < n
        invariant
            n == s@.len(),
            start <= i <= n,
            t == s@.subrange(start as int, n as int),
            all_digits(t.subrange(0, i - start)),
            value == digits_value(t.subrange(0, i - start)),
        decreases n - i,
    {
        let c = s.get_char(i);
        assert(t[i - start] == c);
        if c < '0' || c > '9' {
            return None;
        }
        let d = (c as u32 - '0' as u32) as u64;
        assert(t.subrange(0, i + 1 - start).drop_last() =~= t.subrange(0, i - start));
        if value > (u64::MAX - d) / 10 {
            proof {
                assert(value * 10 + d > u64::MAX) by (nonlinear_arith)
                    requires value > (u64::MAX - d) / 10, d <= 9;
                if all_digits(t) {
                    lemma_digits_grow(t, i + 1 - start, t.len() as int);
                    assert(t.subrange(0, t.len() as int) =~= t);
                }
            }
            return None;
        }
        assert(value * 10 + d <= u64::MAX) by (nonlinear_arith)
            requires value <= (u64::MAX - d) / 10, d <= 9;
        value = value * 10 + d;
        i = i + 1;
        assert(all_digits(t.subrange(0, i - start)));
    }
    assert(t.subrange(0, n - start) =~= t);
    Some(value)
}

/// The total size that a `Content-Range` value gives, if it gives one.
pub fn range_total(v: &str) -> (r: Option<u64>)
    ensures
        r == content_range_total(v@),
{
    match find_last(v, '/') {
        None => None,
        Some(k) => {
            proof {
                lemma_last_index_range(v@, '/', v@.len() as int);
            }
            parse_decimal_from(v, k + 1)
        },
    }
}

/// The text of a header value, where the header is present.
pub open spec fn text_of(v: Option<&str>) -> Option<Seq<char>> {
    match v {
        Some(t) => Some(t@),
        None => None,
    }
}

/// The authoritative size of a probe response, from the values of its
/// `Content-Range` and `Content-Length` headers where present: the total of
/// `Content-Range` wins; `Content-Length` is read only when that gives none.
pub fn probe_size(content_range: Option<&str>, content_length: Option<&str>) -> (r: Option<u64>)
    ensures
        r == authoritative_size(text_of(content_range), text_of(content_length)),
{
    let from_range = match content_range {
        Some(v) => range_total(v),
        None => None,
    };
    match from_range {
        Some(n) => Some(n),
        None => match content_length {
            Some(v) => {
                let r = parse_decimal_from(v, 0);
                assert(v@.subrange(0, v@.len() as int) =~= v@);
                r
            },
            None => None,
        },
    }
}

/// With a `Content-Length` header alone, the authoritative size is what that
/// header's value says.
pub proof fn law_length_alone(content_length: Seq<char>)
    ensures
        authoritative_size(None, Some(content_length)) == decimal_value(content_length),
{
}

/// With both headers present and a readable `Content-Range` total, that
/// total is the authoritative size, whatever `Content-Length` says.
pub proof fn law_range_total_wins(content_range: Seq<char>, content_length: Seq<char>)
    requires
        content_range_total(content_range) is Some,
    ensures
        authoritative_size(Some(content_range), Some(content_length)) == content_range_total(
            content_range,
        ),
{
}

/// With neither header readable there is no authoritative size.
pub proof fn law_no_size(content_range: Option<Seq<char>>, content_length: Option<Seq<char>>)
    requires
        content_range matches Some(v) ==> content_range_total(v) is None,
        content_length matches Some(v) ==> decimal_value(v) is None,
    ensures
        authoritative_size(content_range, content_length) is None,
{
}

} // verus!
