//! Character-level helpers shared by the parsers: white space, trimming,
//! splitting, decimal integers and case folding.

use vstd::prelude::*;

verus! {

/// A half-open range of character positions inside a buffer.
#[derive(Clone, Copy, Debug, PartialEq, Eq, Structural)]
pub struct Span {
    pub start: usize,
    pub end: usize,
}

impl Span {
    /// The span lies inside a buffer of `len` characters.
    pub open spec fn within(self, len: nat) -> bool {
        self.start <= self.end <= len
    }

    /// The characters of `s` that the span covers.
    pub open spec fn of(self, s: Seq<char>) -> Seq<char> {
        s.subrange(self.start as int, self.end as int)
    }
}

/// Whether `c` carries the Unicode `White_Space` property.
pub open spec fn is_space(c: char) -> bool {
    let u = c as u32;
    ||| 0x09 <= u <= 0x0D
    ||| u == 0x20
    ||| u == 0x85
    ||| u == 0xA0
    ||| u == 0x1680
    ||| 0x2000 <= u <= 0x200A
    ||| u == 0x2028
    ||| u == 0x2029
    ||| u == 0x202F
    ||| u == 0x205F
    ||| u == 0x3000
}

/// Tests a character for Unicode white space.
pub fn is_whitespace(c: char) -> (b: bool)
    ensures
        b == is_space(c),
{
    let u: u32 = c as u32;
    (0x09 <= u && u <= 0x0D) || u == 0x20 || u == 0x85 || u == 0xA0 || u == 0x1680 || (0x2000 <= u
        && u <= 0x200A) || u == 0x2028 || u == 0x2029 || u == 0x202F || u == 0x205F || u == 0x3000
}

/// `s` without its leading white space.
pub open spec fn trim_start(s: Seq<char>) -> Seq<char>
    decreases s.len(),
{
    if s.len() > 0 && is_space(s[0]) {
        trim_start(s.subrange(1, s.len() as int))
    } else {
        s
    }
}

/// `s` without its trailing white space.
pub open spec fn trim_end(s: Seq<char>) -> Seq<char>
    decreases s.len(),
{
    if s.len() > 0 && is_space(s[s.len() - 1]) {
        trim_end(s.subrange(0, s.len() - 1))
    } else {
        s
    }
}

/// `s` without leading and trailing white space.
pub open spec fn trimmed(s: Seq<char>) -> Seq<char> {
    trim_end(trim_start(s))
}

/// Narrows `span` to the part of `s` that is left after trimming white space
/// from both ends.
pub fn trim_span(s: &Vec<char>, span: Span) -> (r: Span)
    requires
        span.within(s@.len()),
    ensures
        r.within(s@.len()),
        span.start <= r.start,
        r.end <= span.end,
        r.of(s@) == trimmed(span.of(s@)),
{
    let mut start: usize = span.start;
    while start < span.end && is_whitespace(s[start])
        invariant
            span.within(s@.len()),
            span.start <= start <= span.end,
            trim_start(span.of(s@)) == trim_start(s@.subrange(start as int, span.end as int)),
        decreases span.end - start,
    {
        proof {
            let cur = s@.subrange(start as int, span.end as int);
            assert(cur.subrange(1, cur.len() as int) =~= s@.subrange(start + 1, span.end as int));
        }
        start = start + 1;
    }
    let mut end: usize = span.end;
    while start < end && is_whitespace(s[end - 1])
        invariant
            span.within(s@.len()),
            span.start <= start <= end <= span.end,
            trim_start(span.of(s@)) == s@.subrange(start as int, span.end as int),
            trimmed(span.of(s@)) == trim_end(s@.subrange(start as int, end as int)),
        decreases end - start,
    {
        proof {
            let cur = s@.subrange(start as int, end as int);
            assert(cur.subrange(0, cur.len() - 1) =~= s@.subrange(start as int, end - 1));
        }
        end = end - 1;
    }
    Span { start, end }
}

/// The pieces of `s` between occurrences of `sep`. There is always at least
/// one piece; an empty input gives one empty piece.
pub open spec fn split_on(s: Seq<char>, sep: char) -> Seq<Seq<char>>
    decreases s.len(),
{
    if s.len() == 0 {
        seq![Seq::<char>::empty()]
    } else {
        let init = split_on(s.drop_last(), sep);
        if s.last() == sep {
            init.push(Seq::<char>::empty())
        } else {
            init.update(init.len() - 1, init.last().push(s.last()))
        }
    }
}

/// `split_on` never returns an empty list.
pub proof fn lemma_split_on_nonempty(s: Seq<char>, sep: char)
    ensures
        split_on(s, sep).len() >= 1,
    decreases s.len(),
{
    if s.len() > 0 {
        lemma_split_on_nonempty(s.drop_last(), sep);
    }
}

/// The character sequences that a list of spans selects from `s`.
pub open spec fn spans_of(s: Seq<char>, spans: Seq<Span>) -> Seq<Seq<char>> {
    Seq::new(spans.len(), |i: int| spans[i].of(s))
}

/// Splits the part of `s` under `span` at every `sep`, returning the spans
/// of the pieces in order.
pub fn split_span(s: &Vec<char>, span: Span, sep: char) -> (r: Vec<Span>)
    requires
        span.within(s@.len()),
    ensures
        r@.len() >= 1,
        forall|i: int| 0 <= i < r@.len() ==> (#[trigger] r@[i]).within(s@.len()),
        spans_of(s@, r@) == split_on(span.of(s@), sep),
{
    let mut done: Vec<Span> = Vec::new();
    let mut start: usize = span.start;
    let mut i: usize = span.start;
    proof {
        assert(s@.subrange(span.start as int, i as int) =~= Seq::<char>::empty());
        assert(spans_of(s@, done@.push(Span { start, end: i })) =~= split_on(
            s@.subrange(span.start as int, i as int),
            sep,
        ));
    }
    while i < span.end
        invariant
            span.within(s@.len()),
            span.start <= start <= i <= span.end,
            forall|k: int| 0 <= k < done@.len() ==> (#[trigger] done@[k]).within(s@.len()),
            spans_of(s@, done@.push(Span { start, end: i })) == split_on(
                s@.subrange(span.start as int, i as int),
                sep,
            ),
        decreases span.end - i,
    {
        let ghost before = s@.subrange(span.start as int, i as int);
        let ghost after = s@.subrange(span.start as int, i + 1);
        let ghost old_spans = done@.push(Span { start, end: i });
        proof {
            assert(after.drop_last() =~= before);
        }
        if s[i] == sep {
            done.push(Span { start, end: i });
            start = i + 1;
            proof {
                assert(s@.subrange(start as int, start as int) =~= Seq::<char>::empty());
                assert(spans_of(s@, done@.push(Span { start, end: start })) =~= spans_of(
                    s@,
                    old_spans,
                ).push(Seq::<char>::empty()));
            }
        } else {
            proof {
                let grown = done@.push(Span { start, end: (i + 1) as usize });
                assert(s@.subrange(start as int, i + 1) =~= s@.subrange(
                    start as int,
                    i as int,
                ).push(s@[i as int]));
                assert(spans_of(s@, grown) =~= spans_of(s@, old_spans).update(
                    old_spans.len() - 1,
                    spans_of(s@, old_spans).last().push(s@[i as int]),
                ));
            }
        }
        i = i + 1;
    }
    done.push(Span { start, end: i });
    done
}

/// Whether `c` is one of the ten ASCII digits.
pub open spec fn is_digit(c: char) -> bool {
    '0' <= c <= '9'
}

/// Whether every character of `s` is an ASCII digit.
pub open spec fn all_digits(s: Seq<char>) -> bool {
    forall|i: int| 0 <= i < s.len() ==> is_digit(#[trigger] s[i])
}

/// The number that a string of decimal digits denotes.
pub open spec fn decimal_value(s: Seq<char>) -> int
    decreases s.len(),
{
    if s.len() == 0 {
        0
    } else {
        10 * decimal_value(s.drop_last()) + (s.last() as int - '0' as int)
    }
}

/// The `i32` that `s` denotes in base ten: an optional `+` or `-`, then one
/// or more ASCII digits, with a value that fits. Anything else denotes no
/// number.
pub open spec fn parse_i32_spec(s: Seq<char>) -> Option<i32> {
    if s.len() == 0 {
        None
    } else {
        let negative = s[0] == '-';
        let digits = if s[0] == '-' || s[0] == '+' {
            s.subrange(1, s.len() as int)
        } else {
            s
        };
        let value = if negative {
            -decimal_value(digits)
        } else {
            decimal_value(digits)
        };
        if digits.len() > 0 && all_digits(digits) && i32::MIN <= value <= i32::MAX {
            Some(value as i32)
        } else {
            None
        }
    }
}

/// A digit string's value never shrinks when more digits follow.
pub proof fn lemma_decimal_value_monotone(s: Seq<char>, n: int)
    requires
        all_digits(s),
        0 <= n <= s.len(),
    ensures
        0 <= decimal_value(s.take(n)) <= decimal_value(s),
    decreases s.len() - n,
{
    lemma_decimal_value_nonnegative(s.take(n));
    if n < s.len() {
        let next = s.take(n + 1);
        assert(next.drop_last() =~= s.take(n));
        lemma_decimal_value_monotone(s, n + 1);
    } else {
        assert(s.take(n) =~= s);
    }
}

/// A digit string denotes a natural number.
pub proof fn lemma_decimal_value_nonnegative(s: Seq<char>)
    requires
        all_digits(s),
    ensures
        0 <= decimal_value(s),
    decreases s.len(),
{
    if s.len() > 0 {
        lemma_decimal_value_nonnegative(s.drop_last());
    }
}

/// Reads the part of `s` under `span` as a signed decimal integer.
pub fn parse_i32_span(s: &Vec<char>, span: Span) -> (r: Option<i32>)
    requires
        span.within(s@.len()),
    ensures
        r == parse_i32_spec(span.of(s@)),
{
    if span.start == span.end {
        return None;
    }
    let first = s[span.start];
    let ghost whole = span.of(s@);
    let negative = first == '-';
    let from: usize = if first == '-' || first == '+' {
        span.start + 1
    } else {
        span.start
    };
    let ghost digits = s@.subrange(from as int, span.end as int);
    if from == span.end {
        return None;
    }
    let limit: i64 = 2147483648;
    let mut acc: i64 = 0;
    let mut i: usize = from;
    while i < span.end
        invariant
            span.within(s@.len()),
            from <= i <= span.end,
            digits == s@.subrange(from as int, span.end as int),
            whole == span.of(s@),
            whole.len() > 0,
            whole[0] == first,
            negative == (first == '-'),
            digits == if first == '-' || first == '+' {
                whole.subrange(1, whole.len() as int)
            } else {
                whole
            },
            all_digits(digits.take(i - from)),
            acc == decimal_value(digits.take(i - from)),
            0 <= acc <= limit,
            limit == 2147483648,
        decreases span.end - i,
    {
        let c = s[i];
        let ghost seen = digits.take(i - from);
        let ghost next = digits.take(i - from + 1);
        proof {
            assert(next.drop_last() =~= seen);
            assert(next.last() == c);
        }
        if !('0' <= c && c <= '9') {
            return None;
        }
        let d: i64 = (c as u32 - '0' as u32) as i64;
        acc = acc * 10 + d;
        if acc > limit {
            proof {
                lemma_rest_cannot_matter(digits, i - from + 1);
            }
            return None;
        }
        i = i + 1;
    }
    proof {
        assert(digits.take(i - from) =~= digits);
    }
    if negative {
        Some((-acc) as i32)
    } else if acc == limit {
        None
    } else {
        Some(acc as i32)
    }
}

/// Once a prefix of digits denotes more than `2^31`, the whole string
/// denotes no `i32`, whatever follows and whatever the sign.
proof fn lemma_rest_cannot_matter(digits: Seq<char>, n: int)
    requires
        0 <= n <= digits.len(),
        all_digits(digits.take(n)),
        decimal_value(digits.take(n)) > 2147483648,
    ensures
        !all_digits(digits) || decimal_value(digits) > 2147483648,
{
    if all_digits(digits) {
        lemma_decimal_value_monotone(digits, n);
    }
}

/// The character sequences of a list of strings.
pub open spec fn strings_view(list: Seq<String>) -> Seq<Seq<char>> {
    list.map_values(|s: String| s@)
}

/// Collects the characters of a string slice.
pub fn chars_of(s: &str) -> (v: Vec<char>)
    ensures
        v@ == s@,
{
    let mut v: Vec<char> = Vec::new();
    for c in it: s.chars()
        invariant
            it.seq() == s@,
            v@ =~= s@.take(it.index()),
    {
        v.push(c);
    }
    v
}

/// Trims white space from both ends of a string slice.
pub fn trim_str(s: &str) -> (r: &str)
    ensures
        r@ == trimmed(s@),
{
    let chars = chars_of(s);
    let whole = Span { start: 0, end: chars.len() };
    assert(whole.of(chars@) =~= s@);
    let kept = trim_span(&chars, whole);
    s.substring_char(kept.start, kept.end)
}

/// Compares two string slices character by character.
pub fn str_eq(a: &str, b: &str) -> (r: bool)
    ensures
        r == (a@ == b@),
{
    let x = a.as_bytes();
    let y = b.as_bytes();
    proof {
        vstd::utf8::encode_utf8_decode_utf8(a@);
        vstd::utf8::encode_utf8_decode_utf8(b@);
    }
    if x.len() != y.len() {
        return false;
    }
    let mut i: usize = 0;
    while i < x.len()
        invariant
            x@ == vstd::utf8::encode_utf8(a@),
            y@ == vstd::utf8::encode_utf8(b@),
            x@.len() == y@.len(),
            i <= x@.len(),
            forall|k: int| 0 <= k < i ==> x@[k] == y@[k],
        decreases x@.len() - i,
    {
        if x[i] != y[i] {
            return false;
        }
        i = i + 1;
    }
    assert(x@ =~= y@);
    true
}

/// The lower-case form of a string, as `str::to_lowercase` computes it.
pub uninterp spec fn lowercase_of(s: Seq<char>) -> Seq<char>;

/// The upper-case form of a string, as `str::to_uppercase` computes it.
pub uninterp spec fn uppercase_of(s: Seq<char>) -> Seq<char>;

/// What `String::from_utf8_lossy` makes of a byte string: the text it
/// encodes, with every ill-formed sequence replaced.
pub uninterp spec fn utf8_lossy(bytes: Seq<u8>) -> Seq<char>;

/// Calls `str::to_lowercase`. The Unicode case mapping is not spelled out
/// here; the contract only names the result.
#[verifier::external_body]
pub(crate) fn to_lowercase(s: &str) -> (r: String)
    ensures
        r@ == lowercase_of(s@),
{
    s.to_lowercase()
}

/// Calls `str::to_uppercase`. The Unicode case mapping is not spelled out
/// here; the contract only names the result.
#[verifier::external_body]
pub(crate) fn to_uppercase(s: &str) -> (r: String)
    ensures
        r@ == uppercase_of(s@),
{
    s.to_uppercase()
}

/// Calls `String::from_utf8_lossy` and takes ownership of the text. The
/// contract only names the result.
#[verifier::external_body]
pub(crate) fn decode_lossy(bytes: &[u8]) -> (r: String)
    ensures
        r@ == utf8_lossy(bytes@),
{
    String::from_utf8_lossy(bytes).into_owned()
}

} // verus!
