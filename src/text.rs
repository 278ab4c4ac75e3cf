use vstd::prelude::*;

verus! {

/// The characters that `char::is_whitespace` accepts (Unicode `White_Space`).
pub open spec fn is_white(c: char) -> bool {
    c == '\t' || c == '\n' || c == '\u{0B}' || c == '\u{0C}' || c == '\r' || c == ' '
        || c == '\u{85}' || c == '\u{A0}' || c == '\u{1680}' || ('\u{2000}' <= c
        && c <= '\u{200A}') || c == '\u{2028}' || c == '\u{2029}' || c == '\u{202F}'
        || c == '\u{205F}' || c == '\u{3000}'
}

/// `s` without its leading white space.
pub open spec fn trim_front(s: Seq<char>) -> Seq<char>
    decreases s.len(),
{
    if s.len() > 0 && is_white(s[0]) {
        trim_front(s.drop_first())
    } else {
        s
    }
}

/// `s` without its trailing white space.
pub open spec fn trim_back(s: Seq<char>) -> Seq<char>
    decreases s.len(),
{
    if s.len() > 0 && is_white(s.last()) {
        trim_back(s.drop_last())
    } else {
        s
    }
}

/// `s` without white space at either end, as `str::trim` gives it.
pub open spec fn trimmed(s: Seq<char>) -> Seq<char> {
    trim_back(trim_front(s))
}

pub open spec fn is_digit(c: char) -> bool {
    '0' <= c && c <= '9'
}

pub open spec fn digit_value(c: char) -> nat {
    (c as u32 - '0' as u32) as nat
}

pub open spec fn all_digits(s: Seq<char>) -> bool {
    forall|i: int| 0 <= i < s.len() ==> #[trigger] is_digit(s[i])
}

/// The number that a string of decimal digits writes.
pub open spec fn digits_value(s: Seq<char>) -> nat
    decreases s.len(),
{
    if s.len() == 0 {
        0
    } else {
        digits_value(s.drop_last()) * 10 + digit_value(s.last())
    }
}

/// The digits of an unsigned number's text: a leading `+` is dropped when
/// something follows it.
pub open spec fn unsigned_body(s: Seq<char>) -> Seq<char> {
    if s.len() > 1 && s[0] == '+' {
        s.drop_first()
    } else {
        s
    }
}

/// What reading `s` as a `u8` gives: `Some` exactly when `s` is an optional
/// `+` followed by one or more decimal digits whose value fits in a byte.
pub open spec fn u8_of_text(s: Seq<char>) -> Option<u8> {
    let d = unsigned_body(s);
    if d.len() > 0 && all_digits(d) && digits_value(d) <= 255 {
        Some(digits_value(d) as u8)
    } else {
        None
    }
}

fn is_white_char(c: char) -> (r: bool)
    ensures
        r == is_white(c),
{
    c == '\t' || c == '\n' || c == '\u{0B}' || c == '\u{0C}' || c == '\r' || c == ' ' || c
        == '\u{85}' || c == '\u{A0}' || c == '\u{1680}' || ('\u{2000}' <= c && c <= '\u{200A}')
        || c == '\u{2028}' || c == '\u{2029}' || c == '\u{202F}' || c == '\u{205F}' || c
        == '\u{3000}'
}

proof fn lemma_digits_prefix(s: Seq<char>, k: int)
    requires
        0 <= k <= s.len(),
    ensures
        digits_value(s.subrange(0, k)) <= digits_value(s),
    decreases s.len(),
{
    if k < s.len() {
        lemma_digits_prefix(s.drop_last(), k);
        assert(s.drop_last().subrange(0, k) =~= s.subrange(0, k));
    } else {
        assert(s.subrange(0, k) =~= s);
    }
}

/// Reads `s`, with white space at either end ignored, as a `u8` in decimal.
pub fn parse_u8_trimmed(s: &str) -> (r: Option<u8>)
    ensures
        r == u8_of_text(trimmed(s@)),
{
    let n = s.unicode_len();
    let ghost t = s@;
    let mut lo: usize = 0;
    assert(t.subrange(0, n as int) =~= t);
    while lo < n && is_white_char(s.get_char(lo))
        invariant
            n == t.len(),
            t == s@,
            lo <= n,
            trim_front(t) == trim_front(t.subrange(lo as int, n as int)),
        decreases n - lo,
    {
        assert(t.subrange(lo as int, n as int).drop_first() =~= t.subrange(lo + 1, n as int));
        lo = lo + 1;
    }
    let ghost front = t.subrange(lo as int, n as int);
    assert(trim_front(t) == front);
    let mut hi: usize = n;
    while hi > lo && is_white_char(s.get_char(hi - 1))
        invariant
            n == t.len(),
            t == s@,
            lo <= hi <= n,
            front == t.subrange(lo as int, n as int),
            trim_back(front) == trim_back(t.subrange(lo as int, hi as int)),
        decreases hi - lo,
    {
        assert(t.subrange(lo as int, hi as int).drop_last() =~= t.subrange(lo as int, hi - 1));
        hi = hi - 1;
    }
    let ghost w = t.subrange(lo as int, hi as int);
    assert(trimmed(t) == w);
    let mut start: usize = lo;
    if hi - lo > 1 && s.get_char(lo) == '+' {
        start = lo + 1;
    }
    let ghost d = t.subrange(start as int, hi as int);
    assert(unsigned_body(w) =~= d);
    if start == hi {
        assert(d.len() == 0);
        return None;
    }
    let mut acc: u32 = 0;
    let mut i: usize = start;
    while i < hi
        invariant
            n == t.len(),
            t == s@,
            start <= i <= hi <= n,
            d == t.subrange(start as int, hi as int),
            unsigned_body(trimmed(t)) == d,
            acc <= 255,
            acc == digits_value(d.subrange(0, i - start)),
            all_digits(d.subrange(0, i - start)),
        decreases hi - i,
    {
        let c = s.get_char(i);
        if !('0' <= c && c <= '9') {
            assert(!is_digit(d[i - start]));
            return None;
        }
        let ghost k = i - start;
        assert(d.subrange(0, k + 1).drop_last() =~= d.subrange(0, k));
        acc = acc * 10 + (c as u32 - '0' as u32);
        i = i + 1;
        assert(d.subrange(0, k + 1).last() == c);
        assert(acc == digits_value(d.subrange(0, k + 1)));
        if acc > 255 {
            proof {
                lemma_digits_prefix(d, k + 1);
            }
            return None;
        }
    }
    assert(d.subrange(0, i - start) =~= d);
    Some(acc as u8)
}

} // verus!
