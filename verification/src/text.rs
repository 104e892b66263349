//! Character-level helpers shared by the parsers: conversions between
//! `str`/`String` and character vectors, UTF-8 widths, and the ASCII and
//! Unicode character classes the parsers rely on.

use vstd::prelude::*;
use vstd::string::StringExecFns;

verus! {

/// The characters of `s`, in order.
#[verifier::external_body]
pub(crate) fn chars_of(s: &str) -> (v: Vec<char>)
    ensures
        v@ == s@,
{
    s.chars().collect()
}

/// The string made of the characters of `v`, in order.
#[verifier::external_body]
pub(crate) fn string_of(v: &[char]) -> (s: String)
    ensures
        s@ == v@,
{
    v.iter().collect()
}

/// An owned copy of `s`.
pub fn owned(s: &str) -> (r: String)
    ensures
        r@ == s@,
{
    s.to_owned()
}

/// Number of bytes that `c` takes in UTF-8.
pub open spec fn utf8_width(c: char) -> nat {
    if (c as u32) < 0x80 {
        1
    } else if (c as u32) < 0x800 {
        2
    } else if (c as u32) < 0x10000 {
        3
    } else {
        4
    }
}

/// Number of bytes that the characters of `s` take in UTF-8.
pub open spec fn utf8_len(s: Seq<char>) -> nat
    decreases s.len(),
{
    if s.len() == 0 {
        0
    } else {
        utf8_len(s.drop_last()) + utf8_width(s.last())
    }
}

pub proof fn lemma_utf8_len_push(s: Seq<char>, c: char)
    ensures
        utf8_len(s.push(c)) == utf8_len(s) + utf8_width(c),
{
    assert(s.push(c).drop_last() =~= s);
}

pub proof fn lemma_utf8_len_bounds(s: Seq<char>)
    ensures
        s.len() <= utf8_len(s) <= 4 * s.len(),
    decreases s.len(),
{
    if s.len() > 0 {
        lemma_utf8_len_bounds(s.drop_last());
    }
}

/// Byte width of `c` in UTF-8.
pub fn char_width(c: char) -> (w: usize)
    ensures
        w == utf8_width(c),
{
    let u = c as u32;
    if u < 0x80 {
        1
    } else if u < 0x800 {
        2
    } else if u < 0x10000 {
        3
    } else {
        4
    }
}

/// Whether `c` has the Unicode `White_Space` property (what `str::trim` removes).
pub open spec fn is_ws(c: char) -> bool {
    let u = c as u32;
    (0x9 <= u && u <= 0xD) || u == 0x20 || u == 0x85 || u == 0xA0 || u == 0x1680 || (0x2000 <= u
        && u <= 0x200A) || u == 0x2028 || u == 0x2029 || u == 0x202F || u == 0x205F || u == 0x3000
}

/// Whether `c` is white space in the sense of `char::is_whitespace`.
pub fn is_whitespace(c: char) -> (b: bool)
    ensures
        b == is_ws(c),
{
    let u = c as u32;
    (0x9 <= u && u <= 0xD) || u == 0x20 || u == 0x85 || u == 0xA0 || u == 0x1680 || (0x2000 <= u
        && u <= 0x200A) || u == 0x2028 || u == 0x2029 || u == 0x202F || u == 0x205F || u == 0x3000
}

} // verus!

verus! {

/// `a` followed by `b`.
pub fn concat(a: &str, b: &str) -> (r: String)
    ensures
        r@ == a@ + b@,
{
    owned(a).concat(b)
}

} // verus!

verus! {

/// A class of characters that trimming removes.
#[derive(Clone, Copy)]
pub enum CharClass {
    /// White space (`char::is_whitespace`).
    Ws,
    /// One given character.
    Is(char),
}

/// Whether `c` belongs to `class`.
pub open spec fn in_class(class: CharClass, c: char) -> bool {
    match class {
        CharClass::Ws => is_ws(c),
        CharClass::Is(d) => c == d,
    }
}

/// Whether `c` belongs to `class`.
pub fn class_has(class: CharClass, c: char) -> (b: bool)
    ensures
        b == in_class(class, c),
{
    match class {
        CharClass::Ws => is_whitespace(c),
        CharClass::Is(d) => c == d,
    }
}

/// Number of leading characters of `s` in `class`.
pub open spec fn leading(s: Seq<char>, class: CharClass) -> nat
    decreases s.len(),
{
    if s.len() > 0 && in_class(class, s[0]) {
        1 + leading(s.drop_first(), class)
    } else {
        0
    }
}

/// Number of trailing characters of `s` in `class`.
pub open spec fn trailing(s: Seq<char>, class: CharClass) -> nat
    decreases s.len(),
{
    if s.len() > 0 && in_class(class, s.last()) {
        1 + trailing(s.drop_last(), class)
    } else {
        0
    }
}

/// `s` without its leading characters in `class` (`trim_start_matches`).
pub open spec fn trim_start(s: Seq<char>, class: CharClass) -> Seq<char> {
    s.skip(leading(s, class) as int)
}

/// `s` without its trailing characters in `class` (`trim_end_matches`).
pub open spec fn trim_end(s: Seq<char>, class: CharClass) -> Seq<char> {
    s.take(s.len() - trailing(s, class))
}

/// `s` without its leading and trailing characters in `class` (`trim_matches`, or `trim` for white space).
pub open spec fn trim(s: Seq<char>, class: CharClass) -> Seq<char> {
    trim_end(trim_start(s, class), class)
}

pub proof fn lemma_leading_le(s: Seq<char>, class: CharClass)
    ensures
        leading(s, class) <= s.len(),
    decreases s.len(),
{
    if s.len() > 0 && in_class(class, s[0]) {
        lemma_leading_le(s.drop_first(), class);
    }
}

pub proof fn lemma_trailing_le(s: Seq<char>, class: CharClass)
    ensures
        trailing(s, class) <= s.len(),
    decreases s.len(),
{
    if s.len() > 0 && in_class(class, s.last()) {
        lemma_trailing_le(s.drop_last(), class);
    }
}

/// Start of the window `v[lo..hi]` after dropping its leading characters in `class`.
pub fn skip_leading(v: &[char], lo: usize, hi: usize, class: CharClass) -> (r: usize)
    requires
        lo <= hi <= v@.len(),
    ensures
        r == lo + leading(v@.subrange(lo as int, hi as int), class),
        lo <= r <= hi,
{
    let mut i = lo;
    while i < hi && class_has(class, v[i])
        invariant
            lo <= i <= hi <= v@.len(),
            leading(v@.subrange(lo as int, hi as int), class) == (i - lo) + leading(
                v@.subrange(i as int, hi as int),
                class,
            ),
        decreases hi - i,
    {
        assert(v@.subrange(i as int, hi as int).drop_first() =~= v@.subrange(
            i as int + 1,
            hi as int,
        ));
        i = i + 1;
    }
    proof {
        if i < hi {
            assert(leading(v@.subrange(i as int, hi as int), class) == 0);
        } else {
            assert(v@.subrange(i as int, hi as int).len() == 0);
        }
    }
    i
}

/// End of the window `v[lo..hi]` after dropping its trailing characters in `class`.
pub fn skip_trailing(v: &[char], lo: usize, hi: usize, class: CharClass) -> (r: usize)
    requires
        lo <= hi <= v@.len(),
    ensures
        r == hi - trailing(v@.subrange(lo as int, hi as int), class),
        lo <= r <= hi,
{
    let mut j = hi;
    while j > lo && class_has(class, v[j - 1])
        invariant
            lo <= j <= hi <= v@.len(),
            trailing(v@.subrange(lo as int, hi as int), class) == (hi - j) + trailing(
                v@.subrange(lo as int, j as int),
                class,
            ),
        decreases j - lo,
    {
        assert(v@.subrange(lo as int, j as int).drop_last() =~= v@.subrange(
            lo as int,
            j as int - 1,
        ));
        j = j - 1;
    }
    proof {
        if j > lo {
            assert(trailing(v@.subrange(lo as int, j as int), class) == 0);
        } else {
            assert(v@.subrange(lo as int, j as int).len() == 0);
        }
    }
    j
}

/// The window `v[lo..hi]` trimmed of `class` on both ends, as a new window.
pub fn trim_window(v: &[char], lo: usize, hi: usize, class: CharClass) -> (r: (usize, usize))
    requires
        lo <= hi <= v@.len(),
    ensures
        r.0 <= r.1 <= v@.len(),
        v@.subrange(r.0 as int, r.1 as int) == trim(v@.subrange(lo as int, hi as int), class),
{
    let a = skip_leading(v, lo, hi, class);
    let b = skip_trailing(v, a, hi, class);
    proof {
        let s = v@.subrange(lo as int, hi as int);
        assert(trim_start(s, class) =~= v@.subrange(a as int, hi as int));
        assert(trim(s, class) =~= v@.subrange(a as int, b as int));
    }
    (a, b)
}

/// `s` trimmed of `class` on both ends.
pub fn trim_chars(s: &str, class: CharClass) -> (r: String)
    ensures
        r@ == trim(s@, class),
{
    let v = chars_of(s);
    let (a, b) = trim_window(v.as_slice(), 0, v.len(), class);
    assert(v@.subrange(0, v@.len() as int) =~= v@);
    string_of(vstd::slice::slice_subrange(v.as_slice(), a, b))
}

/// `s` without its trailing characters in `class`.
pub fn trim_end_chars(s: &str, class: CharClass) -> (r: String)
    ensures
        r@ == trim_end(s@, class),
{
    let v = chars_of(s);
    let b = skip_trailing(v.as_slice(), 0, v.len(), class);
    assert(v@.subrange(0, v@.len() as int) =~= v@);
    assert(v@.subrange(0, b as int) =~= trim_end(s@, class));
    string_of(vstd::slice::slice_subrange(v.as_slice(), 0, b))
}

} // verus!

verus! {

/// Position of the first occurrence of `c` in `s`, searching from the front.
pub open spec fn index_of(s: Seq<char>, c: char) -> Option<nat>
    decreases s.len(),
{
    if s.len() == 0 {
        None
    } else if s[0] == c {
        Some(0)
    } else {
        match index_of(s.drop_first(), c) {
            Some(i) => Some(i + 1),
            None => None,
        }
    }
}

pub proof fn lemma_index_of_found(s: Seq<char>, c: char, k: int)
    requires
        0 <= k < s.len(),
        s[k] == c,
        forall|j: int| 0 <= j < k ==> s[j] != c,
    ensures
        index_of(s, c) == Some(k as nat),
    decreases k,
{
    if k > 0 {
        lemma_index_of_found(s.drop_first(), c, k - 1);
    }
}

pub proof fn lemma_index_of_none(s: Seq<char>, c: char)
    requires
        forall|j: int| 0 <= j < s.len() ==> s[j] != c,
    ensures
        index_of(s, c) is None,
    decreases s.len(),
{
    if s.len() > 0 {
        lemma_index_of_none(s.drop_first(), c);
    }
}

pub proof fn lemma_index_of_bounds(s: Seq<char>, c: char)
    ensures
        index_of(s, c) matches Some(i) ==> i < s.len() && s[i as int] == c && forall|j: int|
            0 <= j < i ==> s[j] != c,
        index_of(s, c) is None ==> forall|j: int| 0 <= j < s.len() ==> s[j] != c,
    decreases s.len(),
{
    if s.len() > 0 && s[0] != c {
        lemma_index_of_bounds(s.drop_first(), c);
        assert forall|j: int| 1 <= j < s.len() implies s[j] == s.drop_first()[j - 1] by {}
    }
}

/// Position of the first `c` in `v[lo..hi]`, relative to `lo`.
pub fn find_char(v: &[char], lo: usize, hi: usize, c: char) -> (r: Option<usize>)
    requires
        lo <= hi <= v@.len(),
    ensures
        match r {
            Some(k) => index_of(v@.subrange(lo as int, hi as int), c) == Some(k as nat),
            None => index_of(v@.subrange(lo as int, hi as int), c) is None,
        },
{
    let mut i = lo;
    while i < hi
        invariant
            lo <= i <= hi <= v@.len(),
            forall|j: int| lo <= j < i ==> v@[j] != c,
        decreases hi - i,
    {
        if v[i] == c {
            proof {
                lemma_index_of_found(v@.subrange(lo as int, hi as int), c, (i - lo) as int);
            }
            return Some(i - lo);
        }
        i = i + 1;
    }
    proof {
        lemma_index_of_none(v@.subrange(lo as int, hi as int), c);
    }
    None
}

/// `s` without one trailing carriage return.
pub open spec fn strip_cr(s: Seq<char>) -> Seq<char> {
    if s.len() > 0 && s.last() == '\r' {
        s.drop_last()
    } else {
        s
    }
}

/// The lines of `s` as `str::lines` yields them: split at '\n', a '\r'
/// before the '\n' removed, no empty line after a final '\n'.
pub open spec fn lines(s: Seq<char>) -> Seq<Seq<char>>
    decreases s.len(),
{
    if s.len() == 0 {
        Seq::empty()
    } else {
        match index_of(s, '\n') {
            None => seq![s],
            Some(i) => {
                if i < s.len() {
                    seq![strip_cr(s.take(i as int))] + lines(s.skip(i + 1int))
                } else {
                    Seq::empty()
                }
            },
        }
    }
}

/// The lines of `s`, each as a character vector.
pub fn split_lines(s: &str) -> (r: Vec<Vec<char>>)
    ensures
        r@.len() == lines(s@).len(),
        forall|i: int| 0 <= i < r@.len() ==> (#[trigger] r@[i])@ == lines(s@)[i],
{
    let v = chars_of(s);
    let mut out: Vec<Vec<char>> = Vec::new();
    let mut start: usize = 0;
    assert(v@.skip(0) =~= v@);
    assert(out@.map_values(|l: Vec<char>| l@) + lines(v@.skip(0)) =~= lines(v@.skip(0)));
    while start < v.len()
        invariant
            v@ == s@,
            start <= v@.len(),
            lines(s@) == out@.map_values(|l: Vec<char>| l@) + lines(v@.skip(start as int)),
        decreases v.len() - start,
    {
        let ghost rest = v@.skip(start as int);
        match find_char(v.as_slice(), start, v.len(), '\n') {
            Some(k) => {
                assert(v@.subrange(start as int, v@.len() as int) =~= rest);
                proof {
                    lemma_index_of_bounds(rest, '\n');
                }
                let end = start + k;
                let line_end = if end > start && v[end - 1] == '\r' {
                    end - 1
                } else {
                    end
                };
                let line = vstd::slice::slice_subrange(v.as_slice(), start, line_end);
                let mut lv: Vec<char> = Vec::new();
                let mut t: usize = 0;
                while t < line.len()
                    invariant
                        t <= line@.len(),
                        lv@ == line@.take(t as int),
                    decreases line.len() - t,
                {
                    lv.push(line[t]);
                    t = t + 1;
                    assert(lv@ =~= line@.take(t as int));
                }
                assert(line@.take(t as int) =~= line@);
                assert(lv@ == strip_cr(rest.take(k as int)));
                assert(rest.skip(k as int + 1) =~= v@.skip(end as int + 1));
                let ghost prev = out@;
                out.push(lv);
                assert(out@.map_values(|l: Vec<char>| l@) =~= prev.map_values(|l: Vec<char>| l@).push(
                    strip_cr(rest.take(k as int)),
                ));
                start = end + 1;
            },
            None => {
                assert(v@.subrange(start as int, v@.len() as int) =~= rest);
                let mut lv: Vec<char> = Vec::new();
                let mut t: usize = start;
                while t < v.len()
                    invariant
                        start <= t <= v@.len(),
                        lv@ == v@.subrange(start as int, t as int),
                    decreases v.len() - t,
                {
                    lv.push(v[t]);
                    t = t + 1;
                    assert(lv@ =~= v@.subrange(start as int, t as int));
                }
                assert(lv@ == rest);
                let ghost prev = out@;
                out.push(lv);
                assert(out@.map_values(|l: Vec<char>| l@) =~= prev.map_values(|l: Vec<char>| l@).push(
                    rest,
                ));
                assert(v@.skip(v@.len() as int) =~= Seq::<char>::empty());
                start = v.len();
            },
        }
    }
    assert(v@.skip(start as int) =~= Seq::<char>::empty());
    assert(lines(s@) =~= out@.map_values(|l: Vec<char>| l@));
    out
}

/// `parts` joined with `sep` between consecutive parts.
pub open spec fn join(parts: Seq<Seq<char>>, sep: Seq<char>) -> Seq<char>
    decreases parts.len(),
{
    if parts.len() == 0 {
        Seq::empty()
    } else if parts.len() == 1 {
        parts[0]
    } else {
        join(parts.drop_last(), sep) + sep + parts.last()
    }
}

/// Joins character vectors with `sep` between consecutive ones.
pub fn join_chars(parts: &Vec<Vec<char>>, sep: &str) -> (r: Vec<char>)
    ensures
        r@ == join(parts@.map_values(|l: Vec<char>| l@), sep@),
{
    let sepv = chars_of(sep);
    let mut out: Vec<char> = Vec::new();
    let mut i: usize = 0;
    while i < parts.len()
        invariant
            i <= parts@.len(),
            sepv@ == sep@,
            out@ == join(parts@.take(i as int).map_values(|l: Vec<char>| l@), sep@),
        decreases parts.len() - i,
    {
        let ghost before = out@;
        if i > 0 {
            let mut j: usize = 0;
            while j < sepv.len()
                invariant
                    j <= sepv@.len(),
                    out@ == before + sepv@.take(j as int),
                decreases sepv.len() - j,
            {
                out.push(sepv[j]);
                j = j + 1;
                assert(out@ =~= before + sepv@.take(j as int));
            }
            assert(sepv@.take(j as int) =~= sepv@);
        }
        let ghost mid = out@;
        let p = &parts[i];
        let mut j: usize = 0;
        while j < p.len()
            invariant
                j <= p@.len(),
                out@ == mid + p@.take(j as int),
            decreases p.len() - j,
        {
            out.push(p[j]);
            j = j + 1;
            assert(out@ =~= mid + p@.take(j as int));
        }
        assert(p@.take(j as int) =~= p@);
        proof {
            let m = parts@.take(i as int + 1).map_values(|l: Vec<char>| l@);
            assert(m.drop_last() =~= parts@.take(i as int).map_values(|l: Vec<char>| l@));
            assert(m.last() == parts@[i as int]@);
            if i == 0 {
                assert(m.len() == 1);
                assert(out@ =~= m[0]);
            } else {
                assert(out@ =~= before + sep@ + m.last());
            }
        }
        i = i + 1;
    }
    assert(parts@.take(i as int) =~= parts@);
    out
}

} // verus!

verus! {

/// Whether the window `v[lo..hi]` holds exactly the characters of `w`.
pub fn chars_equal(v: &[char], lo: usize, hi: usize, w: &[char]) -> (b: bool)
    requires
        lo <= hi <= v@.len(),
    ensures
        b == (v@.subrange(lo as int, hi as int) == w@),
{
    if hi - lo != w.len() {
        return false;
    }
    let mut i: usize = 0;
    while i < w.len()
        invariant
            hi - lo == w@.len(),
            lo <= hi <= v@.len(),
            i <= w@.len(),
            forall|j: int| 0 <= j < i ==> v@[lo + j] == w@[j],
        decreases w.len() - i,
    {
        if v[lo + i] != w[i] {
            assert(v@.subrange(lo as int, hi as int)[i as int] != w@[i as int]);
            return false;
        }
        i = i + 1;
    }
    assert(v@.subrange(lo as int, hi as int) =~= w@);
    true
}

/// The one-character string "\n" is the newline character.
pub proof fn reveal_newline()
    ensures
        "\n"@ == seq!['\n'],
{
    reveal_strlit("\n");
}

} // verus!

verus! {

/// The ASCII digit for `d` (0..=9).
pub open spec fn digit_char(d: nat) -> char {
    (('0' as nat) + d) as char
}

/// Decimal digits of `n`, most significant first, without leading zeros.
pub open spec fn decimal(n: nat) -> Seq<char>
    decreases n,
{
    if n < 10 {
        seq![digit_char(n)]
    } else {
        decimal(n / 10).push(digit_char(n % 10))
    }
}

/// Decimal text of an integer, with a leading '-' when negative (what `to_string` gives).
pub open spec fn int_text(n: int) -> Seq<char> {
    if n < 0 {
        seq!['-'] + decimal((-n) as nat)
    } else {
        decimal(n as nat)
    }
}

fn decimal_chars(n: u64) -> (r: Vec<char>)
    ensures
        r@ == decimal(n as nat),
    decreases n,
{
    let d = ((n % 10) as u8 + 0x30) as char;
    assert(d == digit_char((n % 10) as nat));
    if n < 10 {
        let mut v: Vec<char> = Vec::new();
        v.push(d);
        assert(v@ =~= seq![digit_char(n as nat)]);
        v
    } else {
        let mut v = decimal_chars(n / 10);
        v.push(d);
        v
    }
}

/// Decimal text of `n`.
pub fn i32_text(n: i32) -> (s: String)
    ensures
        s@ == int_text(n as int),
{
    if n < 0 {
        let m: u64 = (0i64 - (n as i64)) as u64;
        let mut v: Vec<char> = Vec::new();
        v.push('-');
        let d = decimal_chars(m);
        let mut i: usize = 0;
        while i < d.len()
            invariant
                i <= d@.len(),
                v@ == seq!['-'] + d@.take(i as int),
            decreases d.len() - i,
        {
            v.push(d[i]);
            i = i + 1;
            assert(v@ =~= seq!['-'] + d@.take(i as int));
        }
        assert(d@.take(i as int) =~= d@);
        string_of(v.as_slice())
    } else {
        let d = decimal_chars(n as u64);
        string_of(d.as_slice())
    }
}

/// "true" or "false".
pub open spec fn bool_text(b: bool) -> Seq<char> {
    if b {
        "true"@
    } else {
        "false"@
    }
}

/// Text of `b` ("true" or "false").
pub fn bool_str(b: bool) -> (s: String)
    ensures
        s@ == bool_text(b),
{
    if b {
        owned("true")
    } else {
        owned("false")
    }
}

/// Whether every character of `s` is an ASCII digit.
pub open spec fn all_digits(s: Seq<char>) -> bool {
    forall|i: int| 0 <= i < s.len() ==> '0' <= #[trigger] s[i] <= '9'
}

/// Value of a string of ASCII digits.
pub open spec fn digits_value(s: Seq<char>) -> nat
    decreases s.len(),
{
    if s.len() == 0 {
        0
    } else {
        digits_value(s.drop_last()) * 10 + ((s.last() as nat) - ('0' as nat)) as nat
    }
}

/// `s` without one leading '+' or '-'.
pub open spec fn unsigned_part(s: Seq<char>) -> Seq<char> {
    if s.len() > 0 && (s[0] == '-' || s[0] == '+') {
        s.drop_first()
    } else {
        s
    }
}

/// What `str::parse::<i32>` accepts: an optional '+' or '-', then at least
/// one ASCII digit and nothing else, with the value in the `i32` range.
pub open spec fn parse_i32(s: Seq<char>) -> Option<i32> {
    let neg = s.len() > 0 && s[0] == '-';
    let body = unsigned_part(s);
    if body.len() == 0 || !all_digits(body) {
        None
    } else {
        let v: int = if neg {
            -digits_value(body)
        } else {
            digits_value(body) as int
        };
        if i32::MIN <= v <= i32::MAX {
            Some(v as i32)
        } else {
            None
        }
    }
}

proof fn lemma_digits_value_grows(s: Seq<char>, j: int, k: int)
    requires
        0 <= j <= k <= s.len(),
        all_digits(s),
    ensures
        digits_value(s.take(j)) <= digits_value(s.take(k)),
    decreases k - j,
{
    if j < k {
        lemma_digits_value_grows(s, j, k - 1);
        assert(s.take(k).drop_last() =~= s.take(k - 1));
    }
}

/// Parses a decimal `i32` the way `str::parse::<i32>` does.
pub fn parse_i32_text(s: &str) -> (r: Option<i32>)
    ensures
        r == parse_i32(s@),
{
    let v = chars_of(s);
    let n = v.len();
    let neg = n > 0 && v[0] == '-';
    let start: usize = if n > 0 && (v[0] == '-' || v[0] == '+') {
        1
    } else {
        0
    };
    let ghost body = v@.skip(start as int);
    assert(body =~= unsigned_part(s@));
    if start == n {
        return None;
    }
    let mut acc: i64 = 0;
    let mut i: usize = start;
    while i < n
        invariant
            start <= i <= n == v@.len(),
            v@ == s@,
            body == v@.skip(start as int),
            body == unsigned_part(s@),
            neg == (s@.len() > 0 && s@[0] == '-'),
            all_digits(body.take(i - start)),
            acc == digits_value(body.take(i - start)),
            acc <= 0x8000_0000,
        decreases n - i,
    {
        let c = v[i];
        if !('0' <= c && c <= '9') {
            assert(body[i - start] == c);
            assert(!all_digits(body));
            return None;
        }
        let d = (c as u32 - 0x30) as i64;
        assert(body.take(i + 1 - start).drop_last() =~= body.take(i - start));
        acc = acc * 10 + d;
        i = i + 1;
        if acc > 0x8000_0000 {
            proof {
                if all_digits(body) {
                    lemma_digits_value_grows(body, (i - start) as int, body.len() as int);
                    assert(body.take(body.len() as int) =~= body);
                }
            }
            return None;
        }
    }
    assert(body.take(i - start) =~= body);
    if neg {
        Some((0 - acc) as i32)
    } else if acc <= 0x7fff_ffff {
        Some(acc as i32)
    } else {
        None
    }
}

/// What `str::parse::<bool>` accepts: exactly "true" or "false".
pub open spec fn parse_bool(s: Seq<char>) -> Option<bool> {
    if s == "true"@ {
        Some(true)
    } else if s == "false"@ {
        Some(false)
    } else {
        None
    }
}

/// Parses a boolean the way `str::parse::<bool>` does.
pub fn parse_bool_text(s: &str) -> (r: Option<bool>)
    ensures
        r == parse_bool(s@),
{
    let v = chars_of(s);
    let t = chars_of("true");
    let f = chars_of("false");
    assert(v@.subrange(0, v@.len() as int) =~= v@);
    if chars_equal(v.as_slice(), 0, v.len(), t.as_slice()) {
        Some(true)
    } else if chars_equal(v.as_slice(), 0, v.len(), f.as_slice()) {
        Some(false)
    } else {
        None
    }
}

/// The pieces of `s` between occurrences of `c` (what `str::split` yields
/// for a character: one more piece than there are separators).
pub open spec fn split(s: Seq<char>, c: char) -> Seq<Seq<char>>
    decreases s.len(),
{
    match index_of(s, c) {
        None => seq![s],
        Some(i) => if i < s.len() {
            seq![s.take(i as int)] + split(s.skip(i + 1int), c)
        } else {
            seq![s]
        },
    }
}

/// The pieces of `s` between occurrences of `c`.
pub fn split_char(s: &str, c: char) -> (r: Vec<String>)
    ensures
        r@.map_values(|p: String| p@) == split(s@, c),
{
    let v = chars_of(s);
    let mut out: Vec<String> = Vec::new();
    let mut start: usize = 0;
    assert(v@.skip(0) =~= v@);
    loop
        invariant
            v@ == s@,
            start <= v@.len(),
            split(s@, c) == out@.map_values(|p: String| p@) + split(v@.skip(start as int), c),
        decreases v.len() - start,
    {
        let ghost rest = v@.skip(start as int);
        assert(v@.subrange(start as int, v@.len() as int) =~= rest);
        proof {
            lemma_index_of_bounds(rest, c);
        }
        match find_char(v.as_slice(), start, v.len(), c) {
            Some(k) => {
                let piece = string_of(vstd::slice::slice_subrange(v.as_slice(), start, start + k));
                assert(piece@ =~= rest.take(k as int));
                assert(rest.skip(k as int + 1) =~= v@.skip(start + k + 1));
                let ghost prev = out@;
                out.push(piece);
                assert(out@.map_values(|p: String| p@) =~= prev.map_values(|p: String| p@).push(
                    rest.take(k as int),
                ));
                start = start + k + 1;
            },
            None => {
                let piece = string_of(vstd::slice::slice_subrange(v.as_slice(), start, v.len()));
                assert(piece@ =~= rest);
                let ghost prev = out@;
                out.push(piece);
                assert(out@.map_values(|p: String| p@) =~= prev.map_values(|p: String| p@).push(
                    rest,
                ));
                assert(split(s@, c) =~= out@.map_values(|p: String| p@));
                return out;
            },
        }
    }
}

} // verus!

verus! {

/// The first character of the lowercase mapping of `c`.
pub uninterp spec fn char_lower_first(c: char) -> Option<char>;

/// The first character that `char::to_lowercase` yields for `c`. ASCII
/// letters map to their lowercase form.
#[verifier::external_body]
pub(crate) fn lowercase_first(c: char) -> (r: Option<char>)
    ensures
        r == char_lower_first(c),
        ('A' <= c <= 'Z') ==> r == Some(((c as u32) + 32) as char),
        ('a' <= c <= 'z') ==> r == Some(c),
{
    c.to_lowercase().next()
}

/// The lowercase mapping of a text.
pub uninterp spec fn text_lower(s: Seq<char>) -> Seq<char>;

/// The uppercase mapping of a text.
pub uninterp spec fn text_upper(s: Seq<char>) -> Seq<char>;

/// Whether every character of `s` is ASCII.
pub open spec fn is_ascii_text(s: Seq<char>) -> bool {
    forall|i: int| 0 <= i < s.len() ==> (s[i] as u32) < 128
}

/// The ASCII lowercase form of a character: 'A'..='Z' become 'a'..='z'.
pub open spec fn ascii_lower_char(c: char) -> char {
    if 'A' <= c <= 'Z' {
        ((c as u32) + 32) as char
    } else {
        c
    }
}

/// The ASCII uppercase form of a character: 'a'..='z' become 'A'..='Z'.
pub open spec fn ascii_upper_char(c: char) -> char {
    if 'a' <= c <= 'z' {
        ((c as u32) - 32) as char
    } else {
        c
    }
}

/// Each character of `s` in ASCII lowercase.
pub open spec fn ascii_lower_text(s: Seq<char>) -> Seq<char> {
    s.map_values(|c: char| ascii_lower_char(c))
}

/// Each character of `s` in ASCII uppercase.
pub open spec fn ascii_upper_text(s: Seq<char>) -> Seq<char> {
    s.map_values(|c: char| ascii_upper_char(c))
}

/// `str::to_lowercase`: the Unicode lowercase mapping of `s`. On ASCII text
/// it maps each letter to its lowercase letter and keeps every other character.
#[verifier::external_body]
pub(crate) fn to_lower(s: &str) -> (r: String)
    ensures
        r@ == text_lower(s@),
        is_ascii_text(s@) ==> r@ == ascii_lower_text(s@),
{
    s.to_lowercase()
}

/// `str::to_uppercase`: the Unicode uppercase mapping of `s`. On ASCII text
/// it maps each letter to its uppercase letter and keeps every other character.
#[verifier::external_body]
pub(crate) fn to_upper(s: &str) -> (r: String)
    ensures
        r@ == text_upper(s@),
        is_ascii_text(s@) ==> r@ == ascii_upper_text(s@),
{
    s.to_uppercase()
}

} // verus!
