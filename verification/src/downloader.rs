//! Planning of HTTP downloads: whether a resource can be fetched with range requests, which
//! byte ranges to ask for, and how to ask for them.
//!
//! <https://developer.mozilla.org/en-US/docs/Web/HTTP/Guides/Range_requests>
use vstd::prelude::*;

use crate::text::str_eq;

verus! {

/// `c` is an ASCII decimal digit.
pub open spec fn is_digit(c: char) -> bool {
    '0' <= c <= '9'
}

/// The value of a string of decimal digits.
pub open spec fn digits_value(s: Seq<char>) -> int
    decreases s.len(),
{
    if s.len() == 0 {
        0
    } else {
        digits_value(s.drop_last()) * 10 + (s.last() as int - '0' as int)
    }
}

/// The digits of a decimal string: what follows an optional leading `'+'`.
pub open spec fn unsigned_digits(s: Seq<char>) -> Seq<char> {
    if s.len() > 0 && s[0] == '+' {
        s.drop_first()
    } else {
        s
    }
}

/// Every character is a decimal digit.
pub open spec fn all_digits(d: Seq<char>) -> bool {
    forall|i: int| 0 <= i < d.len() ==> is_digit(d[i])
}

/// What `str::parse::<u64>` gives, as its documentation states: an optional `'+'` followed by
/// one or more decimal digits, whose value fits in a `u64`.
pub open spec fn decimal_u64(s: Seq<char>) -> Option<u64> {
    let d = unsigned_digits(s);
    if d.len() > 0 && all_digits(d) && digits_value(d) <= u64::MAX {
        Some(digits_value(d) as u64)
    } else {
        None
    }
}

/// The decimal digit for `d < 10`.
pub open spec fn digit_char(d: nat) -> char {
    ('0' as nat + d) as char
}

/// The decimal text of `n`, without sign or leading zeros, as integers display.
pub open spec fn decimal_text(n: nat) -> Seq<char>
    decreases n,
{
    if n < 10 {
        seq![digit_char(n)]
    } else {
        decimal_text(n / 10).push(digit_char(n % 10))
    }
}

/// A single digit reads as its value.
pub proof fn lemma_decimal_single_digit(c: char)
    requires
        is_digit(c),
    ensures
        decimal_u64(seq![c]) == Some((c as int - '0' as int) as u64),
{
    let s = seq![c];
    assert(unsigned_digits(s) == s);
    assert(s.drop_last() =~= Seq::<char>::empty());
    assert(all_digits(s));
    assert(digits_value(s) == digits_value(s.drop_last()) * 10 + (c as int - '0' as int));
}

/// The value of a digit string is not negative.
proof fn lemma_digits_value_nonneg(d: Seq<char>)
    requires
        all_digits(d),
    ensures
        digits_value(d) >= 0,
    decreases d.len(),
{
    if d.len() > 0 {
        assert(all_digits(d.drop_last()));
        lemma_digits_value_nonneg(d.drop_last());
    }
}

/// Writing one more digit after a number multiplies its value by ten and adds the digit, as
/// long as the result fits in a `u64`: every digit counts, the last one too.
pub proof fn lemma_decimal_push_digit(s: Seq<char>, c: char, v: u64)
    requires
        decimal_u64(s) == Some(v),
        is_digit(c),
        v * 10 + (c as int - '0' as int) <= u64::MAX,
    ensures
        decimal_u64(s.push(c)) == Some((v * 10 + (c as int - '0' as int)) as u64),
{
    let d = unsigned_digits(s);
    let t = s.push(c);
    assert(t[0] == s[0]);
    assert(unsigned_digits(t) =~= d.push(c));
    let e = d.push(c);
    assert(e.drop_last() =~= d);
    assert forall|i: int| 0 <= i < e.len() implies is_digit(e[i]) by {
        if i < d.len() {
            assert(e[i] == d[i]);
        }
    }
    assert(all_digits(e));
    lemma_digits_value_nonneg(d);
    assert(digits_value(d) == v);
    assert(digits_value(e) == digits_value(d) * 10 + (c as int - '0' as int));
}

/// The decimal text of a number is made of digits, and its value is the number.
proof fn lemma_decimal_text_digits(n: nat)
    ensures
        decimal_text(n).len() > 0,
        all_digits(decimal_text(n)),
        digits_value(decimal_text(n)) == n,
    decreases n,
{
    let t = decimal_text(n);
    if n < 10 {
        assert(t.drop_last() =~= Seq::<char>::empty());
        assert(digit_char(n) as int == '0' as int + n);
        assert(digits_value(t) == digits_value(t.drop_last()) * 10 + (t.last() as int - '0' as int));
        assert(digits_value(t.drop_last()) == 0);
    } else {
        lemma_decimal_text_digits(n / 10);
        let d = (n % 10) as nat;
        assert(digit_char(d) as int == '0' as int + d);
        assert(t.drop_last() =~= decimal_text(n / 10));
        assert(t.last() == digit_char(d));
        assert forall|i: int| 0 <= i < t.len() implies is_digit(t[i]) by {
            if i < t.len() - 1 {
                assert(t[i] == decimal_text(n / 10)[i]);
            }
        }
        assert(n == (n / 10) * 10 + d);
        assert(digits_value(t) == digits_value(t.drop_last()) * 10 + (t.last() as int - '0' as int));
    }
}

/// Reading the decimal text of any `u64` gives the number back: every digit counts.
pub proof fn lemma_decimal_roundtrip(n: u64)
    ensures
        decimal_u64(decimal_text(n as nat)) == Some(n),
{
    lemma_decimal_text_digits(n as nat);
    let t = decimal_text(n as nat);
    assert(t[0] != '+') by {
        assert(is_digit(t[0]));
    }
    assert(unsigned_digits(t) == t);
}

/// The decimal digit `d` as text.
fn digit_str(d: u64) -> (r: &'static str)
    requires
        d < 10,
    ensures
        r@ == seq![digit_char(d as nat)],
{
    proof {
        reveal_strlit("0");
        reveal_strlit("1");
        reveal_strlit("2");
        reveal_strlit("3");
        reveal_strlit("4");
        reveal_strlit("5");
        reveal_strlit("6");
        reveal_strlit("7");
        reveal_strlit("8");
        reveal_strlit("9");
    }
    if d == 0 {
        "0"
    } else if d == 1 {
        "1"
    } else if d == 2 {
        "2"
    } else if d == 3 {
        "3"
    } else if d == 4 {
        "4"
    } else if d == 5 {
        "5"
    } else if d == 6 {
        "6"
    } else if d == 7 {
        "7"
    } else if d == 8 {
        "8"
    } else {
        "9"
    }
}

/// The decimal text of `n`, as `u64`'s `Display` writes it.
fn u64_text(n: u64) -> (r: String)
    ensures
        r@ == decimal_text(n as nat),
    decreases n,
{
    if n < 10 {
        String::from_str(digit_str(n))
    } else {
        let mut r = u64_text(n / 10);
        let ghost head = r@;
        r.append(digit_str(n % 10));
        assert(r@ =~= head.push(digit_char((n % 10) as nat)));
        r
    }
}

/// One more digit multiplies the value by ten and adds the digit.
proof fn lemma_digits_value_step(d: Seq<char>, k: int)
    requires
        0 <= k < d.len(),
        is_digit(d[k]),
    ensures
        digits_value(d.take(k + 1)) == digits_value(d.take(k)) * 10 + (d[k] as int - '0' as int),
{
    assert(d.take(k + 1).drop_last() =~= d.take(k));
}

/// The value of a decimal string, as `str::parse::<u64>` reads it: an optional `'+'` and one
/// or more decimal digits whose value fits in a `u64`.
fn parse_u64(s: &str) -> (r: Option<u64>)
    ensures
        r == decimal_u64(s@),
{
    let n = s.unicode_len();
    let start: usize = if n > 0 && s.get_char(0) == '+' {
        1
    } else {
        0
    };
    let ghost d = unsigned_digits(s@);
    assert(d =~= s@.subrange(start as int, n as int));
    if start == n {
        return None;
    }
    let mut value: u64 = 0;
    let mut too_large = false;
    let mut i: usize = start;
    assert(d.take(0) =~= Seq::<char>::empty());
    while i < n
        invariant
            n == s@.len(),
            start <= i <= n,
            start < n,
            d == s@.subrange(start as int, n as int),
            d == unsigned_digits(s@),
            forall|k: int| 0 <= k < i - start ==> is_digit(d[k]),
            digits_value(d.take(i - start)) >= 0,
            !too_large ==> value == digits_value(d.take(i - start)),
            too_large ==> digits_value(d.take(i - start)) > u64::MAX,
        decreases n - i,
    {
        let c = s.get_char(i);
        let ghost k: int = i - start;
        assert(d[k] == c);
        if !('0' <= c && c <= '9') {
            assert(!is_digit(d[k]));
            assert(!all_digits(d));
            return None;
        }
        let digit = (c as u32 - '0' as u32) as u64;
        proof {
            lemma_digits_value_step(d, k);
        }
        if !too_large {
            match value.checked_mul(10) {
                Some(scaled) => match scaled.checked_add(digit) {
                    Some(next) => {
                        value = next;
                    },
                    None => {
                        too_large = true;
                    },
                },
                None => {
                    too_large = true;
                },
            }
        }
        i = i + 1;
    }
    assert(d.take(n - start) =~= d);
    if too_large {
        None
    } else {
        Some(value)
    }
}

/// The size to fetch in byte ranges, from the `Accept-Ranges` and `Content-Length` headers of
/// the answer to a HEAD request (each as text, when present and visible ASCII): the server must
/// accept ranges in `bytes` and tell the length; otherwise `None`, and the resource is fetched
/// with a plain GET.
pub open spec fn ranged_total(accept_ranges: Option<Seq<char>>, content_length: Option<Seq<char>>) -> Option<
    u64,
> {
    if accept_ranges == Some("bytes"@) {
        match content_length {
            Some(c) => decimal_u64(c),
            None => None,
        }
    } else {
        None
    }
}

/// The byte ranges `[start, end)` that a chunked download of `total` bytes asks for, from
/// `start` on, `chunk_size` bytes each (the last one shorter).
pub open spec fn chunks_from(start: int, total: int, chunk_size: int) -> Seq<(u64, u64)>
    decreases total - start,
{
    if start >= total || chunk_size <= 0 {
        Seq::empty()
    } else {
        let end = if start + chunk_size < total {
            start + chunk_size
        } else {
            total
        };
        seq![(start as u64, end as u64)] + chunks_from(end, total, chunk_size)
    }
}

/// The value of the `Range` header that asks for bytes `[start, end)`: `bytes=<start>-<end - 1>`
/// (the last position is inclusive; it saturates at 0).
pub open spec fn range_header_text(start: u64, end: u64) -> Seq<char> {
    "bytes="@ + decimal_text(start as nat) + "-"@ + decimal_text(
        if end > 0 {
            (end - 1) as nat
        } else {
            0
        },
    )
}

/// The chunks of a download of `total` bytes split the bytes into consecutive ranges: the
/// first starts at 0, each starts where the previous one ends, the last ends at `total`, and
/// each holds between 1 and `chunk_size` bytes.
pub proof fn lemma_chunks_partition(start: int, total: int, chunk_size: int)
    requires
        0 <= start <= total <= u64::MAX,
        chunk_size > 0,
    ensures
        ({
            let c = chunks_from(start, total, chunk_size);
            &&& (start < total ==> c.len() > 0 && c[0].0 == start && c.last().1 == total)
            &&& (start == total ==> c.len() == 0)
            &&& forall|i: int| 0 <= i < c.len() ==> c[i].0 < c[i].1 && c[i].1 - c[i].0 <= chunk_size
            &&& forall|i: int| 0 <= i < c.len() - 1 ==> #[trigger] c[i].1 == c[i + 1].0
        }),
    decreases total - start,
{
    if start < total {
        let end = if start + chunk_size < total {
            start + chunk_size
        } else {
            total
        };
        lemma_chunks_partition(end, total, chunk_size);
        let rest = chunks_from(end, total, chunk_size);
        let c = chunks_from(start, total, chunk_size);
        assert(c == seq![(start as u64, end as u64)] + rest);
        assert forall|i: int| 0 < i < c.len() implies c[i] == rest[i - 1] by {}
        assert forall|i: int| 0 <= i < c.len() - 1 implies #[trigger] c[i].1 == c[i + 1].0 by {
            if i > 0 {
                assert(c[i] == rest[i - 1]);
                assert(c[i + 1] == rest[i]);
            }
        }
    }
}

/// The size to fetch in byte ranges, or `None` to fetch the resource with a plain GET: the
/// `Accept-Ranges` header must be `bytes` and the `Content-Length` header a `u64`.
pub fn ranged_download_total(accept_ranges: Option<&str>, content_length: Option<&str>) -> (r:
    Option<u64>)
    ensures
        r == ranged_total(
            match accept_ranges {
                Some(a) => Some(a@),
                None => None,
            },
            match content_length {
                Some(c) => Some(c@),
                None => None,
            },
        ),
{
    let accepts_ranges = match accept_ranges {
        Some(a) => str_eq(a, "bytes"),
        None => false,
    };
    if !accepts_ranges {
        return None;
    }
    match content_length {
        Some(c) => parse_u64(c),
        None => None,
    }
}

/// The byte ranges `[start, end)` of a chunked download of `total` bytes, `chunk_size` bytes
/// each (the last one shorter), in order; none when there is nothing to fetch.
pub fn chunk_ranges(total: u64, chunk_size: u64) -> (r: Vec<(u64, u64)>)
    requires
        chunk_size > 0 || total == 0,
    ensures
        r@ == chunks_from(0, total as int, chunk_size as int),
{
    let mut r: Vec<(u64, u64)> = Vec::new();
    let mut start: u64 = 0;
    while start < total
        invariant
            chunk_size > 0 || total == 0,
            start <= total,
            r@ + chunks_from(start as int, total as int, chunk_size as int) == chunks_from(
                0,
                total as int,
                chunk_size as int,
            ),
        decreases total - start,
    {
        let end = if start.saturating_add(chunk_size) < total {
            start.saturating_add(chunk_size)
        } else {
            total
        };
        let ghost before = r@;
        r.push((start, end));
        assert(chunks_from(start as int, total as int, chunk_size as int) == seq![(start, end)]
            + chunks_from(end as int, total as int, chunk_size as int));
        assert(r@ + chunks_from(end as int, total as int, chunk_size as int) =~= before
            + chunks_from(start as int, total as int, chunk_size as int));
        start = end;
    }
    assert(r@ + chunks_from(start as int, total as int, chunk_size as int) =~= r@);
    r
}

/// The value of the `Range` header that asks for bytes `[start, end)`.
pub fn range_header_value(start: u64, end: u64) -> (r: String)
    ensures
        r@ == range_header_text(start, end),
{
    let mut r = String::from_str("bytes=");
    r.append(u64_text(start).as_str());
    r.append("-");
    r.append(u64_text(end.saturating_sub(1)).as_str());
    r
}

} // verus!
