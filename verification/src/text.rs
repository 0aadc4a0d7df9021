//! Character-level helpers: lines, trimming, substring search and decimal
//! numbers, each with its meaning stated over `Seq<char>`.
use vstd::prelude::*;
use vstd::string::*;

verus! {

/// Whether `c` has the Unicode property `White_Space`, as `char::is_whitespace`
/// decides it.
pub uninterp spec fn char_is_whitespace(c: char) -> bool;

/// The white space of ASCII: the space, and the controls from the tab to the
/// carriage return.
pub open spec fn ascii_white_space(c: char) -> bool {
    c == ' ' || ('\t' <= c && c <= '\r')
}

/// White space: within ASCII the characters listed above, beyond it what the
/// standard library counts as such.
pub open spec fn white_space(c: char) -> bool {
    if c <= '\x7f' {
        ascii_white_space(c)
    } else {
        char_is_whitespace(c)
    }
}

/// Calls `char::is_whitespace`, which says whether a character has the
/// Unicode property `White_Space`. The contract gives the answer its name,
/// and states it for ASCII, where the property holds of the space and of the
/// five controls from U+0009 to U+000D only. Which characters beyond ASCII
/// are white space is left to the standard library.
#[verifier::external_body]
pub(crate) fn is_whitespace(c: char) -> (b: bool)
    ensures
        b == char_is_whitespace(c),
        b == white_space(c),
{
    c.is_whitespace()
}

/// What `{:?}` prints for the text `s`: `s` between double quotes, with the
/// characters escaped that the standard library escapes there.
pub uninterp spec fn debug_quoted(s: Seq<char>) -> Seq<char>;

/// Formats `s` with `{:?}`, that is with `<str as Debug>::fmt`. The contract
/// only gives the outcome its name.
#[verifier::external_body]
pub(crate) fn quoted(s: &str) -> (r: String)
    ensures
        r@ == debug_quoted(s@),
{
    format!("{:?}", s)
}

/// Index of the first line feed in `s`, or the length of `s` if it has none.
pub open spec fn line_end(s: Seq<char>) -> int
    decreases s.len(),
{
    if s.len() == 0 || s[0] == '\n' {
        0
    } else {
        1 + line_end(s.drop_first())
    }
}

/// The text before the first line feed.
pub open spec fn first_line(s: Seq<char>) -> Seq<char> {
    s.take(line_end(s))
}

/// The first line of `s` without its line ending, which is a line feed or a
/// carriage return with a line feed after it.
pub open spec fn leading_line(s: Seq<char>) -> Seq<char> {
    let line = first_line(s);
    if line_end(s) < s.len() && line.len() > 0 && line.last() == '\r' {
        line.drop_last()
    } else {
        line
    }
}

/// `s` without its leading white space.
pub open spec fn trim_front(s: Seq<char>) -> Seq<char>
    decreases s.len(),
{
    if s.len() > 0 && white_space(s[0]) {
        trim_front(s.drop_first())
    } else {
        s
    }
}

/// `s` without its trailing white space.
pub open spec fn trim_back(s: Seq<char>) -> Seq<char>
    decreases s.len(),
{
    if s.len() > 0 && white_space(s.last()) {
        trim_back(s.drop_last())
    } else {
        s
    }
}

/// `s` without leading and trailing white space.
pub open spec fn trimmed(s: Seq<char>) -> Seq<char> {
    trim_back(trim_front(s))
}

/// `needle` stands in `hay` at index `i`.
pub open spec fn occurs_at(hay: Seq<char>, needle: Seq<char>, i: int) -> bool {
    0 <= i && i + needle.len() <= hay.len() && hay.subrange(i, i + needle.len()) == needle
}

/// `s` begins with `prefix`.
pub open spec fn starts_with(s: Seq<char>, prefix: Seq<char>) -> bool {
    occurs_at(s, prefix, 0)
}

/// `c` is one of the ten decimal digits.
pub open spec fn is_digit(c: char) -> bool {
    '0' <= c && c <= '9'
}

/// The number that the digit `c` writes.
pub open spec fn digit_value(c: char) -> nat {
    (c as int - '0' as int) as nat
}

/// Every character of `s` is a decimal digit.
pub open spec fn all_digits(s: Seq<char>) -> bool {
    forall|i: int| 0 <= i < s.len() ==> is_digit(#[trigger] s[i])
}

/// The number that the decimal digits `s` write, most significant first.
pub open spec fn decimal_value(s: Seq<char>) -> nat
    decreases s.len(),
{
    if s.len() == 0 {
        0
    } else {
        decimal_value(s.drop_last()) * 10 + digit_value(s.last())
    }
}

/// `s` is one or more decimal digits.
pub open spec fn is_number(s: Seq<char>) -> bool {
    s.len() > 0 && all_digits(s)
}

/// What `s` means as an unsigned decimal number no greater than `max`:
/// an optional `+`, then digits only.
pub open spec fn unsigned_value(s: Seq<char>, max: nat) -> Option<nat> {
    let digits = if s.len() > 0 && s[0] == '+' {
        s.drop_first()
    } else {
        s
    };
    if is_number(digits) && decimal_value(digits) <= max {
        Some(decimal_value(digits))
    } else {
        None
    }
}

/// What `s` means as a signed decimal number between `min` and `max`:
/// an optional `+` or `-`, then digits only.
pub open spec fn signed_value(s: Seq<char>, min: int, max: int) -> Option<int> {
    let negative = s.len() > 0 && s[0] == '-';
    let digits = if s.len() > 0 && (s[0] == '+' || s[0] == '-') {
        s.drop_first()
    } else {
        s
    };
    let value = if negative {
        -(decimal_value(digits) as int)
    } else {
        decimal_value(digits) as int
    };
    if is_number(digits) && min <= value <= max {
        Some(value)
    } else {
        None
    }
}

/// The character that writes the digit `d`.
pub open spec fn digit_char(d: nat) -> char {
    ('0' as int + d) as char
}

/// The decimal digits of `n`, most significant first, without leading zeros.
pub open spec fn decimal_digits(n: nat) -> Seq<char>
    decreases n,
{
    if n < 10 {
        seq![digit_char(n)]
    } else {
        decimal_digits(n / 10).push(digit_char(n % 10))
    }
}

/// How `n` is written in decimal, with a `-` before a negative number.
pub open spec fn decimal_text(n: int) -> Seq<char> {
    if n < 0 {
        seq!['-'] + decimal_digits((-n) as nat)
    } else {
        decimal_digits(n as nat)
    }
}

/// A text that neither begins nor ends with white space is left as it is.
pub proof fn law_trimmed_keeps(s: Seq<char>)
    requires
        s.len() > 0 ==> !white_space(s[0]) && !white_space(s.last()),
    ensures
        trimmed(s) == s,
{
}

/// Nothing is left of a text that is white space throughout.
pub proof fn law_trimmed_blank(s: Seq<char>)
    requires
        forall|i: int| 0 <= i < s.len() ==> white_space(#[trigger] s[i]),
    ensures
        trimmed(s).len() == 0,
    decreases s.len(),
{
    if s.len() > 0 {
        let rest = s.drop_first();
        assert forall|i: int| 0 <= i < rest.len() implies white_space(#[trigger] rest[i]) by {
            assert(rest[i] == s[i + 1]);
        }
        law_trimmed_blank(rest);
    }
}

/// Trimming takes nothing off a text but white space, so a text with
/// anything else in it keeps something.
pub proof fn law_trimmed_keeps_something(s: Seq<char>, at: int)
    requires
        0 <= at < s.len(),
        !white_space(s[at]),
    ensures
        trimmed(s).len() > 0,
{
    lemma_trim_front_keeps(s, at);
    let front = trim_front(s);
    let k = choose|k: int| 0 <= k < front.len() && front[k] == s[at];
    lemma_trim_back_keeps(front, k);
}

proof fn lemma_trim_front_keeps(s: Seq<char>, at: int)
    requires
        0 <= at < s.len(),
        !white_space(s[at]),
    ensures
        exists|k: int| 0 <= k < trim_front(s).len() && trim_front(s)[k] == s[at],
    decreases s.len(),
{
    if white_space(s[0]) {
        let rest = s.drop_first();
        assert(rest[at - 1] == s[at]);
        lemma_trim_front_keeps(rest, at - 1);
        let k = choose|k: int| 0 <= k < trim_front(rest).len() && trim_front(rest)[k] == rest[at - 1];
        assert(trim_front(s)[k] == s[at]);
    } else {
        assert(trim_front(s)[at] == s[at]);
    }
}

proof fn lemma_trim_back_keeps(s: Seq<char>, at: int)
    requires
        0 <= at < s.len(),
        !white_space(s[at]),
    ensures
        trim_back(s).len() > at,
    decreases s.len(),
{
    if white_space(s.last()) {
        lemma_trim_back_keeps(s.drop_last(), at);
    }
}

/// The first line feed is where `line_end` says: nothing before it is one.
pub proof fn lemma_line_end_is(s: Seq<char>, i: int)
    requires
        0 <= i <= s.len(),
        forall|j: int| 0 <= j < i ==> s[j] != '\n',
        i == s.len() || s[i] == '\n',
    ensures
        line_end(s) == i,
    decreases s.len(),
{
    if s.len() == 0 || s[0] == '\n' {
    } else {
        let t = s.drop_first();
        assert forall|j: int| 0 <= j < i - 1 implies t[j] != '\n' by {
            assert(t[j] == s[j + 1]);
        }
        lemma_line_end_is(t, i - 1);
    }
}

/// A longer run of digits writes no smaller a number than its beginning.
pub proof fn lemma_decimal_value_prefix(s: Seq<char>, k: int)
    requires
        0 <= k <= s.len(),
    ensures
        decimal_value(s.take(k)) <= decimal_value(s),
    decreases s.len() - k,
{
    if k == s.len() {
        assert(s.take(k) =~= s);
    } else {
        lemma_decimal_value_prefix(s.drop_last(), k);
        assert(s.drop_last().take(k) =~= s.take(k));
    }
}

/// The characters of `s`.
pub fn chars_of(s: &str) -> (v: Vec<char>)
    ensures
        v@ == s@,
{
    let mut v: Vec<char> = Vec::new();
    for c in it: s.chars()
        invariant
            it.seq() == s@,
            v@ == it.seq().take(it.index()),
    {
        v.push(c);
    }
    v
}

/// Whether two string slices hold the same text.
pub fn same_text(a: &str, b: &str) -> (r: bool)
    ensures
        r == (a@ == b@),
{
    let x = chars_of(a);
    let y = chars_of(b);
    if x.len() != y.len() {
        return false;
    }
    let mut i: usize = 0;
    while i < x.len()
        invariant
            i <= x.len(),
            x.len() == y.len(),
            x@ == a@,
            y@ == b@,
            x@.take(i as int) == y@.take(i as int),
        decreases x.len() - i,
    {
        if x[i] != y[i] {
            assert(x@[i as int] != y@[i as int]);
            return false;
        }
        assert(x@.take(i + 1) =~= x@.take(i as int).push(x@[i as int]));
        assert(y@.take(i + 1) =~= y@.take(i as int).push(y@[i as int]));
        i += 1;
    }
    assert(x@ =~= x@.take(i as int));
    assert(y@ =~= y@.take(i as int));
    true
}

/// Where the first line of `cs` ends.
fn find_line_end(cs: &Vec<char>) -> (end: usize)
    ensures
        end == line_end(cs@),
        end <= cs.len(),
{
    let mut i: usize = 0;
    while i < cs.len() && cs[i] != '\n'
        invariant
            i <= cs.len(),
            forall|j: int| 0 <= j < i ==> cs@[j] != '\n',
        decreases cs.len() - i,
    {
        i += 1;
    }
    proof {
        lemma_line_end_is(cs@, i as int);
    }
    i
}

/// The bounds of `cs[lo..hi]` once white space is taken off both ends.
fn trim_range(cs: &Vec<char>, lo: usize, hi: usize) -> (r: (usize, usize))
    requires
        lo <= hi <= cs.len(),
    ensures
        lo <= r.0 <= r.1 <= hi,
        cs@.subrange(r.0 as int, r.1 as int) == trimmed(cs@.subrange(lo as int, hi as int)),
{
    let mut start: usize = lo;
    let mut more: bool = start < hi;
    while more
        invariant
            lo <= start <= hi <= cs.len(),
            more ==> start < hi,
            !more ==> start == hi || !white_space(cs@[start as int]),
            trim_front(cs@.subrange(lo as int, hi as int)) == trim_front(
                cs@.subrange(start as int, hi as int),
            ),
        decreases 2 * (hi - start) + (if more { 1int } else { 0int }),
    {
        if is_whitespace(cs[start]) {
            proof {
                let t = cs@.subrange(start as int, hi as int);
                assert(t[0] == cs@[start as int]);
                assert(t.drop_first() =~= cs@.subrange(start + 1, hi as int));
            }
            start += 1;
            more = start < hi;
        } else {
            more = false;
        }
    }
    proof {
        let t = cs@.subrange(start as int, hi as int);
        if start < hi {
            assert(t[0] == cs@[start as int]);
        }
        assert(trim_front(t) == t);
    }
    let mut end: usize = hi;
    let mut more: bool = start < end;
    while more
        invariant
            lo <= start <= end <= hi <= cs.len(),
            more ==> start < end,
            !more ==> start == end || !white_space(cs@[end - 1]),
            trim_back(cs@.subrange(start as int, hi as int)) == trim_back(
                cs@.subrange(start as int, end as int),
            ),
        decreases 2 * (end - start) + (if more { 1int } else { 0int }),
    {
        if is_whitespace(cs[end - 1]) {
            proof {
                let t = cs@.subrange(start as int, end as int);
                assert(t.last() == cs@[end - 1]);
                assert(t.drop_last() =~= cs@.subrange(start as int, end - 1));
            }
            end -= 1;
            more = start < end;
        } else {
            more = false;
        }
    }
    proof {
        let t = cs@.subrange(start as int, end as int);
        if start < end {
            assert(t.last() == cs@[end - 1]);
        }
        assert(trim_back(t) == t);
    }
    (start, end)
}

/// `s` without leading and trailing white space.
pub fn trim(s: &str) -> (r: &str)
    ensures
        r@ == trimmed(s@),
{
    let cs = chars_of(s);
    let (start, end) = trim_range(&cs, 0, cs.len());
    proof {
        assert(cs@.subrange(0, cs.len() as int) =~= cs@);
    }
    s.substring_char(start, end)
}

/// The first line of `s`, without leading and trailing white space.
pub fn first_line_trimmed(s: &str) -> (r: &str)
    ensures
        r@ == trimmed(first_line(s@)),
{
    let cs = chars_of(s);
    let stop = find_line_end(&cs);
    let (start, end) = trim_range(&cs, 0, stop);
    s.substring_char(start, end)
}

/// The first line of `s` without its line ending.
pub fn first_line_of(s: &str) -> (r: &str)
    ensures
        r@ == leading_line(s@),
{
    let cs = chars_of(s);
    let stop = find_line_end(&cs);
    if stop < cs.len() && stop > 0 && cs[stop - 1] == '\r' {
        assert(s@.take(stop as int).drop_last() =~= s@.subrange(0, stop - 1));
        s.substring_char(0, stop - 1)
    } else {
        s.substring_char(0, stop)
    }
}

/// Whether `needle` stands in `hay` at index `at`.
fn matches_at(hay: &Vec<char>, needle: &Vec<char>, at: usize) -> (r: bool)
    ensures
        r == occurs_at(hay@, needle@, at as int),
{
    if needle.len() > hay.len() || at > hay.len() - needle.len() {
        return false;
    }
    let mut k: usize = 0;
    while k < needle.len()
        invariant
            k <= needle.len(),
            at + needle.len() <= hay.len(),
            forall|j: int| 0 <= j < k ==> hay@[at + j] == needle@[j],
        decreases needle.len() - k,
    {
        if hay[at + k] != needle[k] {
            proof {
                let window = hay@.subrange(at as int, at + needle.len());
                assert(window[k as int] == hay@[at + k]);
            }
            return false;
        }
        k += 1;
    }
    assert(hay@.subrange(at as int, at + needle.len()) =~= needle@);
    true
}

/// Whether `needle` stands somewhere in `hay` at or after index `from`.
pub fn contains_from(hay: &Vec<char>, needle: &Vec<char>, from: usize) -> (r: bool)
    ensures
        r == exists|i: int| from <= i && occurs_at(hay@, needle@, i),
{
    if from > hay.len() {
        return false;
    }
    let mut i: usize = from;
    while i < hay.len()
        invariant
            from <= i <= hay.len(),
            forall|j: int| from <= j < i ==> !occurs_at(hay@, needle@, j),
        decreases hay.len() - i,
    {
        if matches_at(hay, needle, i) {
            return true;
        }
        i += 1;
    }
    matches_at(hay, needle, i)
}

/// Whether `s` begins with `prefix`.
pub fn has_prefix(s: &str, prefix: &str) -> (r: bool)
    ensures
        r == starts_with(s@, prefix@),
{
    let h = chars_of(s);
    let n = chars_of(prefix);
    matches_at(&h, &n, 0)
}

/// The number that the digits `cs[from..]` write, if there is at least one
/// character there, all are digits and the number is at most `max`.
fn parse_digits(cs: &Vec<char>, from: usize, max: u64) -> (r: Option<u64>)
    requires
        from <= cs.len(),
    ensures
        r == (if is_number(cs@.skip(from as int)) && decimal_value(cs@.skip(from as int)) <= max {
            Some(decimal_value(cs@.skip(from as int)) as u64)
        } else {
            None
        }),
{
    let ghost digits = cs@.skip(from as int);
    if from == cs.len() {
        return None;
    }
    let mut acc: u64 = 0;
    let mut i: usize = from;
    while i < cs.len()
        invariant
            from <= i <= cs.len(),
            digits == cs@.skip(from as int),
            all_digits(digits.take(i - from)),
            acc == decimal_value(digits.take(i - from)),
            acc <= max,
        decreases cs.len() - i,
    {
        let c = cs[i];
        proof {
            assert(digits[i - from] == c);
            assert(digits.take(i - from + 1).drop_last() =~= digits.take(i - from));
            assert(digits.take(i - from + 1).last() == c);
        }
        if c < '0' || c > '9' {
            return None;
        }
        let d: u64 = (c as u32 - '0' as u32) as u64;
        if d > max || acc > (max - d) / 10 {
            proof {
                lemma_decimal_value_prefix(digits, i - from + 1);
            }
            return None;
        }
        acc = acc * 10 + d;
        proof {
            let next = digits.take(i - from + 1);
            assert forall|j: int| 0 <= j < next.len() implies is_digit(#[trigger] next[j]) by {
                if j < i - from {
                    assert(next[j] == digits.take(i - from)[j]);
                }
            }
        }
        i += 1;
    }
    proof {
        assert(digits.take(i - from) =~= digits);
    }
    Some(acc)
}

/// Reads `s` as an unsigned decimal number no greater than `max`.
pub fn parse_unsigned(s: &str, max: u64) -> (r: Option<u64>)
    ensures
        r == match unsigned_value(s@, max as nat) {
            Some(n) => Some(n as u64),
            None => None,
        },
{
    let cs = chars_of(s);
    let from: usize = if cs.len() > 0 && cs[0] == '+' {
        1
    } else {
        0
    };
    proof {
        if from == 1 {
            assert(cs@.skip(1) =~= cs@.drop_first());
        } else {
            assert(cs@.skip(0) =~= cs@);
        }
    }
    parse_digits(&cs, from, max)
}

/// Reads `s` as a decimal number that fits `u64`.
pub fn parse_u64(s: &str) -> (r: Option<u64>)
    ensures
        r == match unsigned_value(s@, u64::MAX as nat) {
            Some(n) => Some(n as u64),
            None => None,
        },
{
    parse_unsigned(s, u64::MAX)
}

/// Reads `s` as a decimal number that fits `u32`.
pub fn parse_u32(s: &str) -> (r: Option<u32>)
    ensures
        r == match unsigned_value(s@, u32::MAX as nat) {
            Some(n) => Some(n as u32),
            None => None,
        },
{
    match parse_unsigned(s, 0xffff_ffff) {
        Some(n) => Some(n as u32),
        None => None,
    }
}

/// Reads `s` as a decimal number that fits `i32`.
pub fn parse_i32(s: &str) -> (r: Option<i32>)
    ensures
        r == match signed_value(s@, i32::MIN as int, i32::MAX as int) {
            Some(n) => Some(n as i32),
            None => None,
        },
{
    let cs = chars_of(s);
    let negative = cs.len() > 0 && cs[0] == '-';
    let from: usize = if cs.len() > 0 && (cs[0] == '+' || cs[0] == '-') {
        1
    } else {
        0
    };
    proof {
        if from == 1 {
            assert(cs@.skip(1) =~= cs@.drop_first());
        } else {
            assert(cs@.skip(0) =~= cs@);
        }
    }
    if negative {
        match parse_digits(&cs, from, 0x8000_0000) {
            Some(n) => Some((-(n as i64)) as i32),
            None => None,
        }
    } else {
        match parse_digits(&cs, from, 0x7fff_ffff) {
            Some(n) => Some(n as i32),
            None => None,
        }
    }
}

fn digit_str(d: u64) -> (r: &'static str)
    requires
        d < 10,
    ensures
        r@ == seq![digit_char(d as nat)],
{
    proof {
        reveal_strlit("0");
        reveal_strlit("1");
        reveal_strlit("2");
        reveal_strlit("3");
        reveal_strlit("4");
        reveal_strlit("5");
        reveal_strlit("6");
        reveal_strlit("7");
        reveal_strlit("8");
        reveal_strlit("9");
    }
    let r = if d == 0 {
        "0"
    } else if d == 1 {
        "1"
    } else if d == 2 {
        "2"
    } else if d == 3 {
        "3"
    } else if d == 4 {
        "4"
    } else if d == 5 {
        "5"
    } else if d == 6 {
        "6"
    } else if d == 7 {
        "7"
    } else if d == 8 {
        "8"
    } else {
        "9"
    };
    assert(r@ =~= seq![digit_char(d as nat)]);
    r
}

/// Writes `n` in decimal.
pub fn render_u64(n: u64) -> (r: String)
    ensures
        r@ == decimal_digits(n as nat),
    decreases n,
{
    if n < 10 {
        String::from_str(digit_str(n))
    } else {
        let mut r = render_u64(n / 10);
        r.append(digit_str(n % 10));
        assert(r@ =~= decimal_digits((n / 10) as nat).push(digit_char((n % 10) as nat)));
        r
    }
}

/// Writes `n` in decimal, with a `-` before a negative number.
pub fn render_i32(n: i32) -> (r: String)
    ensures
        r@ == decimal_text(n as int),
{
    if n < 0 {
        let magnitude: u64 = (-(n as i64)) as u64;
        let mut r = String::from_str("-");
        let digits = render_u64(magnitude);
        r.append(digits.as_str());
        proof {
            reveal_strlit("-");
            assert("-"@ =~= seq!['-']);
        }
        r
    } else {
        render_u64(n as u64)
    }
}

} // verus!
