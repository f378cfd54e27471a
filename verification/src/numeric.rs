use vstd::prelude::*;

use crate::text::concat3;

verus! {

/// Characters with the Unicode `White_Space` property, which `str::trim` removes.
pub open spec fn is_unicode_whitespace(c: char) -> bool {
    ||| ('\u{9}' <= c && c <= '\u{d}')
    ||| c == ' '
    ||| c == '\u{85}'
    ||| c == '\u{a0}'
    ||| c == '\u{1680}'
    ||| ('\u{2000}' <= c && c <= '\u{200a}')
    ||| c == '\u{2028}'
    ||| c == '\u{2029}'
    ||| c == '\u{202f}'
    ||| c == '\u{205f}'
    ||| c == '\u{3000}'
}

/// `s` without its leading whitespace.
pub open spec fn trim_start(s: Seq<char>) -> Seq<char>
    decreases s.len(),
{
    if s.len() > 0 && is_unicode_whitespace(s[0]) {
        trim_start(s.drop_first())
    } else {
        s
    }
}

/// `s` without its trailing whitespace.
pub open spec fn trim_end(s: Seq<char>) -> Seq<char>
    decreases s.len(),
{
    if s.len() > 0 && is_unicode_whitespace(s.last()) {
        trim_end(s.drop_last())
    } else {
        s
    }
}

/// `s` without leading and trailing whitespace.
pub open spec fn trim(s: Seq<char>) -> Seq<char> {
    trim_end(trim_start(s))
}

/// An ASCII decimal digit.
pub open spec fn is_digit(c: char) -> bool {
    '0' <= c && c <= '9'
}

/// The value of a decimal digit.
pub open spec fn digit_value(c: char) -> int {
    (c as int) - ('0' as int)
}

/// Text made only of decimal digits.
pub open spec fn all_digits(t: Seq<char>) -> bool {
    forall|i: int| 0 <= i < t.len() ==> is_digit(#[trigger] t[i])
}

/// The number that a string of decimal digits writes.
pub open spec fn digits_value(t: Seq<char>) -> int
    decreases t.len(),
{
    if t.len() == 0 {
        0
    } else {
        digits_value(t.drop_last()) * 10 + digit_value(t.last())
    }
}

/// The digits of an unsigned number after trimming: an optional leading `+` is dropped.
pub open spec fn unsigned_digits(s: Seq<char>) -> Seq<char> {
    let t = trim(s);
    if t.len() > 0 && t[0] == '+' {
        t.drop_first()
    } else {
        t
    }
}

/// The `usize` that `s` writes once trimmed: an optional `+` followed by at least one
/// decimal digit and nothing else, with a value that fits in `usize`; `None` otherwise.
pub open spec fn parse_usize_spec(s: Seq<char>) -> Option<usize> {
    let d = unsigned_digits(s);
    if d.len() > 0 && all_digits(d) && digits_value(d) <= usize::MAX {
        Some(digits_value(d) as usize)
    } else {
        None
    }
}

/// The message for text that is not a number.
pub open spec fn parse_error_message(s: Seq<char>) -> Seq<char> {
    "Could not parse '"@ + s + "'"@
}

/// The fewest sweep steps accepted.
pub const MIN_STEPS: usize = 1;

/// The most sweep steps accepted.
pub const MAX_STEPS: usize = 200;

/// The message for a number of sweep steps out of range.
pub const STEPS_RANGE_ERROR: &'static str = "Steps should be between 1 and 200";

proof fn lemma_trim_start_from(s: Seq<char>, k: int)
    requires
        0 <= k <= s.len(),
        forall|i: int| 0 <= i < k ==> is_unicode_whitespace(#[trigger] s[i]),
        k == s.len() || !is_unicode_whitespace(s[k]),
    ensures
        trim_start(s) == s.subrange(k, s.len() as int),
    decreases k,
{
    if k == 0 {
        assert(s.subrange(0, s.len() as int) =~= s);
    } else {
        let t = s.drop_first();
        assert forall|i: int| 0 <= i < k - 1 implies is_unicode_whitespace(#[trigger] t[i]) by {
            assert(t[i] == s[i + 1]);
        }
        assert(is_unicode_whitespace(s[0]));
        lemma_trim_start_from(t, k - 1);
        assert(t.subrange(k - 1, t.len() as int) =~= s.subrange(k, s.len() as int));
    }
}

proof fn lemma_trim_end_to(s: Seq<char>, e: int)
    requires
        0 <= e <= s.len(),
        forall|i: int| e <= i < s.len() ==> is_unicode_whitespace(#[trigger] s[i]),
        e == 0 || !is_unicode_whitespace(s[e - 1]),
    ensures
        trim_end(s) == s.subrange(0, e),
    decreases s.len() - e,
{
    if e == s.len() {
        assert(s.subrange(0, e) =~= s);
    } else {
        let t = s.drop_last();
        assert(is_unicode_whitespace(s[s.len() - 1]));
        assert forall|i: int| e <= i < t.len() implies is_unicode_whitespace(#[trigger] t[i]) by {
            assert(t[i] == s[i]);
        }
        lemma_trim_end_to(t, e);
        assert(t.subrange(0, e) =~= s.subrange(0, e));
    }
}

proof fn lemma_digits_value_nonneg(t: Seq<char>)
    requires
        all_digits(t),
    ensures
        digits_value(t) >= 0,
    decreases t.len(),
{
    if t.len() > 0 {
        assert(all_digits(t.drop_last())) by {
            assert forall|i: int| 0 <= i < t.drop_last().len() implies is_digit(
                #[trigger] t.drop_last()[i],
            ) by {
                assert(t.drop_last()[i] == t[i]);
            }
        }
        lemma_digits_value_nonneg(t.drop_last());
        assert(is_digit(t[t.len() - 1]));
    }
}

proof fn lemma_digits_value_prefix_le(t: Seq<char>, k: int)
    requires
        all_digits(t),
        0 <= k <= t.len(),
    ensures
        digits_value(t.subrange(0, k)) <= digits_value(t),
    decreases t.len(),
{
    if k == t.len() {
        assert(t.subrange(0, k) =~= t);
    } else {
        let u = t.drop_last();
        assert(all_digits(u)) by {
            assert forall|i: int| 0 <= i < u.len() implies is_digit(#[trigger] u[i]) by {
                assert(u[i] == t[i]);
            }
        }
        lemma_digits_value_prefix_le(u, k);
        assert(u.subrange(0, k) =~= t.subrange(0, k));
        lemma_digits_value_nonneg(u);
        assert(is_digit(t[t.len() - 1]));
    }
}

/// The characters of `s`.
fn chars_of(s: &str) -> (r: Vec<char>)
    ensures
        r@ == s@,
{
    let n = s.unicode_len();
    let mut v: Vec<char> = Vec::new();
    let mut i: usize = 0;
    while i < n
        invariant
            n == s@.len(),
            i <= n,
            v@ == s@.subrange(0, i as int),
        decreases n - i,
    {
        v.push(s.get_char(i));
        i = i + 1;
        assert(v@ =~= s@.subrange(0, i as int));
    }
    assert(v@ =~= s@);
    v
}

/// Whether `c` has the Unicode `White_Space` property.
pub fn is_whitespace(c: char) -> (r: bool)
    ensures
        r == is_unicode_whitespace(c),
{
    ('\u{9}' <= c && c <= '\u{d}') || c == ' ' || c == '\u{85}' || c == '\u{a0}' || c
        == '\u{1680}' || ('\u{2000}' <= c && c <= '\u{200a}') || c == '\u{2028}' || c
        == '\u{2029}' || c == '\u{202f}' || c == '\u{205f}' || c == '\u{3000}'
}

/// Parse a number of sweep steps from a field's text: surrounding whitespace is ignored, an
/// optional `+` may lead, and the rest must be decimal digits whose value fits in `usize`.
pub fn parse_usize(s: &str) -> (r: Result<usize, String>)
    ensures
        match r {
            Ok(n) => parse_usize_spec(s@) == Some(n),
            Err(e) => parse_usize_spec(s@) is None && e@ == parse_error_message(s@),
        },
{
    let cs = chars_of(s);
    let n = cs.len();
    let mut a: usize = 0;
    while a < n && is_whitespace(cs[a])
        invariant
            n == cs@.len(),
            a <= n,
            forall|i: int| 0 <= i < a ==> is_unicode_whitespace(#[trigger] cs@[i]),
        decreases n - a,
    {
        a = a + 1;
    }
    let mut b: usize = n;
    while b > a && is_whitespace(cs[b - 1])
        invariant
            n == cs@.len(),
            a <= b <= n,
            forall|i: int| b <= i < n ==> is_unicode_whitespace(#[trigger] cs@[i]),
        decreases b,
    {
        b = b - 1;
    }
    proof {
        lemma_trim_start_from(cs@, a as int);
        let t = cs@.subrange(a as int, n as int);
        assert forall|i: int| b - a <= i < t.len() implies is_unicode_whitespace(#[trigger] t[i]) by {
            assert(t[i] == cs@[i + a]);
        }
        lemma_trim_end_to(t, b - a);
        assert(t.subrange(0, b - a) =~= cs@.subrange(a as int, b as int));
        assert(trim(s@) == cs@.subrange(a as int, b as int));
    }
    let mut start = a;
    if a < b && cs[a] == '+' {
        start = a + 1;
    }
    let ghost d = cs@.subrange(start as int, b as int);
    assert(unsigned_digits(s@) =~= d);
    if start == b {
        return Err(concat3("Could not parse '", s, "'"));
    }
    let mut acc: usize = 0;
    let mut i: usize = start;
    while i < b
        invariant
            n == cs@.len(),
            start <= i <= b <= n,
            d == cs@.subrange(start as int, b as int),
            all_digits(cs@.subrange(start as int, i as int)),
            acc == digits_value(cs@.subrange(start as int, i as int)),
            unsigned_digits(s@) == d,
        decreases b - i,
    {
        let c = cs[i];
        let ghost p = cs@.subrange(start as int, i as int);
        let ghost q = cs@.subrange(start as int, i as int + 1);
        assert(q.drop_last() =~= p);
        if !('0' <= c && c <= '9') {
            assert(d[i - start] == c);
            return Err(concat3("Could not parse '", s, "'"));
        }
        let dv = (c as u32 - '0' as u32) as usize;
        assert(all_digits(q)) by {
            assert forall|j: int| 0 <= j < q.len() implies is_digit(#[trigger] q[j]) by {
                if j < p.len() {
                    assert(q[j] == p[j]);
                }
            }
        }
        let next = match acc.checked_mul(10) {
            Some(m) => m.checked_add(dv),
            None => None,
        };
        match next {
            Some(v) => {
                acc = v;
            },
            None => {
                proof {
                    if all_digits(d) {
                        assert(d.subrange(0, i - start + 1) =~= q);
                        lemma_digits_value_prefix_le(d, i - start + 1);
                    }
                }
                return Err(concat3("Could not parse '", s, "'"));
            },
        }
        i = i + 1;
    }
    assert(cs@.subrange(start as int, i as int) =~= d);
    Ok(acc)
}

/// Accept a number of sweep steps between `MIN_STEPS` and `MAX_STEPS`, or say that it is
/// out of range.
pub fn validate_steps(steps: usize) -> (r: Result<usize, String>)
    ensures
        MIN_STEPS <= steps <= MAX_STEPS ==> r == Ok::<usize, String>(steps),
        !(MIN_STEPS <= steps <= MAX_STEPS) ==> (r matches Err(e) && e@ == STEPS_RANGE_ERROR@),
{
    if MIN_STEPS <= steps && steps <= MAX_STEPS {
        Ok(steps)
    } else {
        Err(STEPS_RANGE_ERROR.to_owned())
    }
}


proof fn lemma_trim_of_digits(d: Seq<char>)
    requires
        d.len() > 0,
        all_digits(d),
    ensures
        trim(d) == d,
        unsigned_digits(d) == d,
{
    assert(is_digit(d[0]));
    assert(is_digit(d[d.len() - 1]));
    assert(trim_start(d) == d);
}

/// A single decimal digit parses to its value.
pub proof fn lemma_parse_single_digit(c: char)
    requires
        is_digit(c),
    ensures
        parse_usize_spec(seq![c]) == Some((c as int - '0' as int) as usize),
        0 <= c as int - '0' as int <= 9,
{
    let d = seq![c];
    assert(all_digits(d));
    lemma_trim_of_digits(d);
    assert(d.drop_last() =~= Seq::<char>::empty());
    assert(digits_value(d.drop_last()) == 0);
    assert(d.last() == c);
    assert(digits_value(d) == digit_value(c));
}

/// Appending a digit to a number multiplies it by ten and adds the digit, or makes it too
/// large when that no longer fits; a number that is already too large stays too large.
pub proof fn lemma_parse_append_digit(d: Seq<char>, c: char)
    requires
        d.len() > 0,
        all_digits(d),
        is_digit(c),
    ensures
        match parse_usize_spec(d) {
            Some(v) => {
                &&& 10 * v + (c as int - '0' as int) <= usize::MAX ==> parse_usize_spec(d.push(c))
                    == Some((10 * v + (c as int - '0' as int)) as usize)
                &&& 10 * v + (c as int - '0' as int) > usize::MAX ==> parse_usize_spec(
                    d.push(c),
                ) is None
            },
            None => parse_usize_spec(d.push(c)) is None,
        },
{
    let e = d.push(c);
    assert(all_digits(e)) by {
        assert forall|i: int| 0 <= i < e.len() implies is_digit(#[trigger] e[i]) by {
            if i < d.len() {
                assert(e[i] == d[i]);
            }
        }
    }
    lemma_trim_of_digits(d);
    lemma_trim_of_digits(e);
    assert(e.drop_last() =~= d);
    lemma_digits_value_nonneg(d);
}

/// A leading `+` is accepted once, and a leading `-` is refused.
pub proof fn lemma_parse_signs(d: Seq<char>)
    requires
        d.len() > 0,
        all_digits(d),
    ensures
        parse_usize_spec(seq!['+'] + d) == parse_usize_spec(d),
        parse_usize_spec(seq!['-'] + d) is None,
        parse_usize_spec(seq!['+', '+'] + d) is None,
{
    let p = seq!['+'] + d;
    let m = seq!['-'] + d;
    let pp = seq!['+', '+'] + d;
    lemma_trim_of_digits(d);
    assert(is_digit(d[d.len() - 1]));
    assert(p[0] == '+' && p[p.len() - 1] == d[d.len() - 1]);
    assert(trim_start(p) == p);
    assert(trim(p) == p);
    assert(p.drop_first() =~= d);
    assert(m[0] == '-' && m[m.len() - 1] == d[d.len() - 1]);
    assert(trim_start(m) == m);
    assert(trim(m) == m);
    assert(!is_digit(m[0]));
    assert(pp[0] == '+' && pp[pp.len() - 1] == d[d.len() - 1]);
    assert(trim_start(pp) == pp);
    assert(trim(pp) == pp);
    assert(pp.drop_first()[0] == '+');
    assert(!is_digit(pp.drop_first()[0]));
}

/// Whitespace in front of the text does not change what it parses to.
pub proof fn lemma_parse_ignores_leading_whitespace(w: char, s: Seq<char>)
    requires
        is_unicode_whitespace(w),
    ensures
        parse_usize_spec(seq![w] + s) == parse_usize_spec(s),
{
    let t = seq![w] + s;
    assert(t.drop_first() =~= s);
    assert(trim_start(t) == trim_start(s));
}

} // verus!
