use vstd::prelude::*;
use vstd::string::*;

verus! {

/// Characters with the Unicode `White_Space` property, which `str::trim` removes.
pub open spec fn is_space(c: char) -> bool {
    ||| ('\t' <= c && c <= '\r')
    ||| c == ' '
    ||| c == '\u{85}'
    ||| c == '\u{A0}'
    ||| c == '\u{1680}'
    ||| ('\u{2000}' <= c && c <= '\u{200A}')
    ||| c == '\u{2028}'
    ||| c == '\u{2029}'
    ||| c == '\u{202F}'
    ||| c == '\u{205F}'
    ||| c == '\u{3000}'
}

pub open spec fn trim_start(s: Seq<char>) -> Seq<char>
    decreases s.len(),
{
    if s.len() > 0 && is_space(s[0]) {
        trim_start(s.drop_first())
    } else {
        s
    }
}

pub open spec fn trim_end(s: Seq<char>) -> Seq<char>
    decreases s.len(),
{
    if s.len() > 0 && is_space(s.last()) {
        trim_end(s.drop_last())
    } else {
        s
    }
}

/// The text without leading and trailing white space.
pub open spec fn trimmed(s: Seq<char>) -> Seq<char> {
    trim_end(trim_start(s))
}

pub open spec fn is_digit(c: char) -> bool {
    '0' <= c && c <= '9'
}

pub open spec fn all_digits(s: Seq<char>) -> bool {
    forall|i: int| 0 <= i < s.len() ==> is_digit(#[trigger] s[i])
}

/// The number that a string of decimal digits denotes.
pub open spec fn digits_value(s: Seq<char>) -> nat
    decreases s.len(),
{
    if s.len() == 0 {
        0
    } else {
        digits_value(s.drop_last()) * 10 + ((s.last() as u32) - ('0' as u32)) as nat
    }
}

/// The digits of an unsigned decimal: an optional leading `+` is dropped.
pub open spec fn unsigned_digits(s: Seq<char>) -> Seq<char> {
    if s.len() > 0 && s[0] == '+' {
        s.drop_first()
    } else {
        s
    }
}

/// What `u8::from_str` accepts: an optional `+`, then one or more digits, of value at most 255.
pub open spec fn parsed_u8(s: Seq<char>) -> Option<u8> {
    let d = unsigned_digits(s);
    if d.len() > 0 && all_digits(d) && digits_value(d) <= 255 {
        Some(digits_value(d) as u8)
    } else {
        None
    }
}

/// A count read fail-soft: the trimmed text as a `u8`, or zero where it is not one.
pub open spec fn count_of(s: Seq<char>) -> u8 {
    match parsed_u8(trimmed(s)) {
        Some(v) => v,
        None => 0,
    }
}

/// A delimited text without its first and last character; shorter texts are kept as they are.
pub open spec fn without_delimiters(s: Seq<char>) -> Seq<char> {
    if s.len() >= 2 {
        s.subrange(1, s.len() - 1)
    } else {
        s
    }
}

pub open spec fn is_first_close(s: Seq<char>, i: int) -> bool {
    &&& 0 <= i < s.len()
    &&& s[i] == ')'
    &&& forall|j: int| 0 <= j < i ==> s[j] != ')'
}

/// A method text cut after its first closing parenthesis; a text without one is kept whole.
pub open spec fn method_cut(s: Seq<char>) -> Seq<char> {
    if exists|i: int| is_first_close(s, i) {
        let i = choose|i: int| is_first_close(s, i);
        s.subrange(0, i + 1)
    } else {
        s
    }
}

pub open spec fn occurs_at(hay: Seq<char>, needle: Seq<char>, i: int) -> bool {
    0 <= i && i + needle.len() <= hay.len() && hay.subrange(i, i + needle.len()) == needle
}

/// `needle` stands somewhere in `hay`, as `str::contains` finds it.
pub open spec fn contains_text(hay: Seq<char>, needle: Seq<char>) -> bool {
    exists|i: int| occurs_at(hay, needle, i)
}

proof fn lemma_trim_start_step(s: Seq<char>, i: int)
    requires
        0 <= i < s.len(),
        is_space(s[i]),
    ensures
        trim_start(s.subrange(i, s.len() as int)) == trim_start(s.subrange(i + 1, s.len() as int)),
{
    assert(s.subrange(i, s.len() as int).drop_first() =~= s.subrange(i + 1, s.len() as int));
}

proof fn lemma_trim_end_step(s: Seq<char>, j: int)
    requires
        0 < j <= s.len(),
        is_space(s[j - 1]),
    ensures
        trim_end(s.subrange(0, j)) == trim_end(s.subrange(0, j - 1)),
{
    assert(s.subrange(0, j).drop_last() =~= s.subrange(0, j - 1));
}

/// Removes leading and trailing white space.
pub fn trim_text(s: &str) -> (r: String)
    ensures
        r@ == trimmed(s@),
{
    let n = s.unicode_len();
    let mut lo: usize = 0;
    proof {
        assert(s@.subrange(0, n as int) =~= s@);
    }
    while lo < n && is_space_char(s.get_char(lo))
        invariant
            n == s@.len(),
            lo <= n,
            trim_start(s@.subrange(lo as int, n as int)) == trim_start(s@),
        decreases n - lo,
    {
        proof {
            lemma_trim_start_step(s@, lo as int);
        }
        lo = lo + 1;
    }
    let ghost start = s@.subrange(lo as int, n as int);
    proof {
        assert(trim_start(start) == start);
    }
    let mut hi: usize = n;
    proof {
        assert(start.subrange(0, (hi - lo) as int) =~= start);
    }
    while hi > lo && is_space_char(s.get_char(hi - 1))
        invariant
            n == s@.len(),
            lo <= hi <= n,
            start == s@.subrange(lo as int, n as int),
            trim_end(start.subrange(0, (hi - lo) as int)) == trim_end(start),
        decreases hi,
    {
        proof {
            lemma_trim_end_step(start, (hi - lo) as int);
        }
        hi = hi - 1;
    }
    let r = s.substring_char(lo, hi);
    proof {
        assert(r@ =~= start.subrange(0, (hi - lo) as int));
        let t = r@;
        assert(t.len() == 0 || !is_space(t.last()));
    }
    String::from_str(r)
}

fn is_space_char(c: char) -> (r: bool)
    ensures
        r == is_space(c),
{
    ('\t' <= c && c <= '\r') || c == ' ' || c == '\u{85}' || c == '\u{A0}' || c == '\u{1680}'
        || ('\u{2000}' <= c && c <= '\u{200A}') || c == '\u{2028}' || c == '\u{2029}'
        || c == '\u{202F}' || c == '\u{205F}' || c == '\u{3000}'
}

proof fn lemma_digits_push(s: Seq<char>, c: char)
    ensures
        digits_value(s.push(c)) == digits_value(s) * 10 + ((c as u32) - ('0' as u32)) as nat,
{
    assert(s.push(c).drop_last() =~= s);
}

/// Reads `s` as `u8::from_str` does.
pub fn parse_u8(s: &str) -> (r: Option<u8>)
    ensures
        r == parsed_u8(s@),
{
    let n = s.unicode_len();
    let mut start: usize = 0;
    if n > 0 && s.get_char(0) == '+' {
        start = 1;
    }
    let ghost d = unsigned_digits(s@);
    proof {
        assert(d =~= s@.subrange(start as int, n as int));
    }
    if start >= n {
        return None;
    }
    let mut acc: u32 = 0;
    let mut i: usize = start;
    proof {
        assert(d.subrange(0, 0) =~= Seq::<char>::empty());
    }
    while i < n
        invariant
            n == s@.len(),
            start <= i <= n,
            d == s@.subrange(start as int, n as int),
            d == unsigned_digits(s@),
            all_digits(d.subrange(0, (i - start) as int)),
            acc <= 256,
            acc < 256 ==> acc == digits_value(d.subrange(0, (i - start) as int)),
            acc == 256 ==> digits_value(d.subrange(0, (i - start) as int)) > 255,
        decreases n - i,
    {
        let c = s.get_char(i);
        let ghost pre = d.subrange(0, (i - start) as int);
        proof {
            assert(d.subrange(0, (i + 1 - start) as int) =~= pre.push(c));
            lemma_digits_push(pre, c);
        }
        if !('0' <= c && c <= '9') {
            proof {
                assert(d[(i - start) as int] == c);
                assert(!is_digit(d[(i - start) as int]));
                assert(!all_digits(d));
                assert(unsigned_digits(s@) == d);
                assert(parsed_u8(s@) is None);
            }
            return None;
        }
        let v = (c as u32) - ('0' as u32);
        if acc == 256 || acc * 10 + v > 255 {
            proof {
                assert(digits_value(pre) * 10 + v >= digits_value(pre)) by (nonlinear_arith);
            }
            acc = 256;
        } else {
            acc = acc * 10 + v;
        }
        proof {
            assert forall|k: int| 0 <= k < (i + 1 - start) as int implies is_digit(
                #[trigger] d.subrange(0, (i + 1 - start) as int)[k],
            ) by {
                if k < (i - start) as int {
                    assert(d.subrange(0, (i + 1 - start) as int)[k] == pre[k]);
                }
            }
        }
        i = i + 1;
    }
    proof {
        assert(d.subrange(0, (n - start) as int) =~= d);
    }
    if acc < 256 {
        Some(acc as u8)
    } else {
        None
    }
}

/// A count read fail-soft: zero where the trimmed text is not a `u8`.
pub fn count_from_text(s: &str) -> (r: u8)
    ensures
        r == count_of(s@),
{
    let t = trim_text(s);
    match parse_u8(t.as_str()) {
        Some(v) => v,
        None => 0,
    }
}

/// Drops the delimiter pair around a text such as `(The Eagle)`.
pub fn strip_delimiters(s: &str) -> (r: String)
    ensures
        r@ == without_delimiters(s@),
{
    let n = s.unicode_len();
    if n >= 2 {
        String::from_str(s.substring_char(1, n - 1))
    } else {
        String::from_str(s)
    }
}

/// Cuts a method text after its first `)`, keeping a text without one whole.
pub fn cut_method(s: &str) -> (r: String)
    ensures
        r@ == method_cut(s@),
{
    let n = s.unicode_len();
    let mut i: usize = 0;
    while i < n
        invariant
            n == s@.len(),
            i <= n,
            forall|j: int| 0 <= j < i ==> s@[j] != ')',
        decreases n - i,
    {
        if s.get_char(i) == ')' {
            proof {
                assert(is_first_close(s@, i as int));
                let k = choose|k: int| is_first_close(s@, k);
                assert(k == i as int);
            }
            return String::from_str(s.substring_char(0, i + 1));
        }
        i = i + 1;
    }
    proof {
        assert(!exists|k: int| is_first_close(s@, k));
    }
    String::from_str(s)
}

/// Whether `needle` occurs in `hay`.
pub fn contains(hay: &str, needle: &str) -> (r: bool)
    ensures
        r == contains_text(hay@, needle@),
{
    let n = hay.unicode_len();
    let m = needle.unicode_len();
    if m > n {
        proof {
            assert(forall|i: int| !occurs_at(hay@, needle@, i));
        }
        return false;
    }
    let mut i: usize = 0;
    while i <= n - m
        invariant
            n == hay@.len(),
            m == needle@.len(),
            m <= n,
            i <= n - m + 1,
            forall|k: int| 0 <= k < i ==> !occurs_at(hay@, needle@, k),
        decreases n - m + 1 - i,
    {
        let mut j: usize = 0;
        while j < m && hay.get_char(i + j) == needle.get_char(j)
            invariant
                n == hay@.len(),
                m == needle@.len(),
                i + m <= n,
                j <= m,
                forall|t: int| 0 <= t < j ==> hay@[i + t] == needle@[t],
            decreases m - j,
        {
            j = j + 1;
        }
        if j == m {
            proof {
                assert(hay@.subrange(i as int, i + m) =~= needle@);
                assert(occurs_at(hay@, needle@, i as int));
            }
            return true;
        }
        proof {
            assert(hay@.subrange(i as int, i + m)[j as int] == hay@[i + j]);
        }
        i = i + 1;
    }
    false
}

} // verus!
