//! Character-level text helpers shared by the rest of the library: building
//! strings, decimal numbers, trimming, splitting and parsing.
//!
//! Text is modelled by its view, a `Seq<char>`.
use vstd::prelude::*;
use vstd::std_specs::iter::IteratorSpec;

verus! {

broadcast use vstd::string::group_string_axioms;

//----------------------------------------------------------------------
// std primitives
//----------------------------------------------------------------------

/// Appends one character to a `String` (`String::push`): the text gains
/// `c` at its end.
#[verifier::external_body]
pub(crate) fn push_char(s: &mut String, c: char)
    ensures
        final(s)@ == old(s)@.push(c),
{
    s.push(c);
}

/// Removes and returns the last character of a `String` (`String::pop`):
/// `None`, with the text unchanged, when it is empty.
#[verifier::external_body]
pub(crate) fn pop_char(s: &mut String) -> (r: Option<char>)
    ensures
        old(s)@.len() == 0 ==> r is None && final(s)@ == old(s)@,
        old(s)@.len() > 0 ==> r == Some(old(s)@.last()) && final(s)@ == old(s)@.drop_last(),
{
    s.pop()
}

/// Unicode lower-case mapping of a whole string, as `str::to_lowercase`
/// computes it.
pub uninterp spec fn unicode_lowercase(s: Seq<char>) -> Seq<char>;

/// `str::to_lowercase`: the full Unicode lower-case mapping, named
/// [`unicode_lowercase`]; nothing more is stated of it.
#[verifier::external_body]
pub(crate) fn to_lowercase(s: &str) -> (r: String)
    ensures
        r@ == unicode_lowercase(s@),
{
    s.to_lowercase()
}

/// The characters of a string slice, in order.
pub fn chars_of(s: &str) -> (r: Vec<char>)
    ensures
        r@ == s@,
{
    let mut out: Vec<char> = Vec::new();
    for c in iter: s.chars()
        invariant
            out@ == iter.seq().take(iter.index() as int),
    {
        out.push(c);
    }
    out
}

/// Appends every character of `cs` to `s`.
pub fn push_all(s: &mut String, cs: &Vec<char>)
    ensures
        final(s)@ == old(s)@ + cs@,
{
    let n = cs.len();
    for i in 0..n
        invariant
            n == cs@.len(),
            s@ == old(s)@ + cs@.take(i as int),
    {
        push_char(s, cs[i]);
        assert(cs@.take(i + 1) =~= cs@.take(i as int).push(cs@[i as int]));
    }
    assert(cs@.take(n as int) =~= cs@);
}

/// Builds a `String` whose characters are `cs`.
pub fn string_from_chars(cs: &Vec<char>) -> (r: String)
    ensures
        r@ == cs@,
{
    let mut s = String::new();
    push_all(&mut s, cs);
    assert(s@ =~= cs@);
    s
}

/// Appends a string slice to `s`.
pub fn push_str(s: &mut String, t: &str)
    ensures
        final(s)@ == old(s)@ + t@,
{
    let cs = chars_of(t);
    push_all(s, &cs);
}

/// An owned copy of a string slice.
pub fn to_string(t: &str) -> (r: String)
    ensures
        r@ == t@,
{
    let mut s = String::new();
    push_str(&mut s, t);
    assert(s@ =~= t@);
    s
}

/// Copies a `String`.
pub fn copy_string(t: &String) -> (r: String)
    ensures
        r@ == t@,
{
    to_string(t.as_str())
}

/// True when two character sequences are equal.
pub fn chars_eq(a: &Vec<char>, b: &Vec<char>) -> (r: bool)
    ensures
        r == (a@ == b@),
{
    if a.len() != b.len() {
        return false;
    }
    let n = a.len();
    for i in 0..n
        invariant
            n == a@.len(),
            n == b@.len(),
            forall|j: int| 0 <= j < i ==> a@[j] == b@[j],
    {
        if a[i] != b[i] {
            return false;
        }
    }
    assert(a@ =~= b@);
    true
}

/// True when two strings have the same characters.
pub fn str_eq(a: &str, b: &str) -> (r: bool)
    ensures
        r == (a@ == b@),
{
    let ca = chars_of(a);
    let cb = chars_of(b);
    chars_eq(&ca, &cb)
}

//----------------------------------------------------------------------
// Character classes
//----------------------------------------------------------------------

pub open spec fn is_digit_spec(c: char) -> bool {
    '0' <= c && c <= '9'
}

pub open spec fn is_ascii_alpha_spec(c: char) -> bool {
    ('a' <= c && c <= 'z') || ('A' <= c && c <= 'Z')
}

pub open spec fn is_ascii_alnum_spec(c: char) -> bool {
    is_digit_spec(c) || is_ascii_alpha_spec(c)
}

/// `char::is_whitespace`: the Unicode `White_Space` property.
pub open spec fn is_whitespace_spec(c: char) -> bool {
    ||| ('\u{9}' <= c && c <= '\u{d}')
    ||| c == ' '
    ||| c == '\u{85}'
    ||| c == '\u{a0}'
    ||| c == '\u{1680}'
    ||| ('\u{2000}' <= c && c <= '\u{200a}')
    ||| c == '\u{2028}'
    ||| c == '\u{2029}'
    ||| c == '\u{202f}'
    ||| c == '\u{205f}'
    ||| c == '\u{3000}'
}

/// ASCII lower-casing of one character (`char::to_ascii_lowercase`).
pub open spec fn ascii_lower_spec(c: char) -> char {
    if 'A' <= c && c <= 'Z' {
        ((c as u32) + 32) as char
    } else {
        c
    }
}

pub fn is_digit(c: char) -> (r: bool)
    ensures
        r == is_digit_spec(c),
{
    '0' <= c && c <= '9'
}

pub fn is_ascii_alpha(c: char) -> (r: bool)
    ensures
        r == is_ascii_alpha_spec(c),
{
    ('a' <= c && c <= 'z') || ('A' <= c && c <= 'Z')
}

pub fn is_ascii_alnum(c: char) -> (r: bool)
    ensures
        r == is_ascii_alnum_spec(c),
{
    is_digit(c) || is_ascii_alpha(c)
}

pub fn is_whitespace(c: char) -> (r: bool)
    ensures
        r == is_whitespace_spec(c),
{
    ('\u{9}' <= c && c <= '\u{d}') || c == ' ' || c == '\u{85}' || c == '\u{a0}' || c
        == '\u{1680}' || ('\u{2000}' <= c && c <= '\u{200a}') || c == '\u{2028}' || c
        == '\u{2029}' || c == '\u{202f}' || c == '\u{205f}' || c == '\u{3000}'
}

pub fn ascii_lower(c: char) -> (r: char)
    ensures
        r == ascii_lower_spec(c),
{
    if 'A' <= c && c <= 'Z' {
        let b = c as u8;
        assert(b == c as u32);
        ((b + 32u8) as char)
    } else {
        c
    }
}

//----------------------------------------------------------------------
// Decimal numbers
//----------------------------------------------------------------------

pub open spec fn digit_char(d: nat) -> char {
    (48 + d) as char
}

/// The decimal representation of `n`, without sign or leading zeros
/// (`"0"` for zero), as `u64`'s `Display` writes it.
pub open spec fn decimal(n: nat) -> Seq<char>
    decreases n,
{
    if n < 10 {
        seq![digit_char(n)]
    } else {
        decimal(n / 10).push(digit_char(n % 10))
    }
}

pub fn digit_to_char(d: u64) -> (c: char)
    requires
        d < 10,
    ensures
        c == digit_char(d as nat),
{
    ((d as u8) + 48u8) as char
}

/// Appends the decimal representation of `n` to `s`.
pub fn push_decimal(s: &mut String, n: u64)
    ensures
        final(s)@ == old(s)@ + decimal(n as nat),
    decreases n,
{
    if n >= 10 {
        push_decimal(s, n / 10);
    }
    push_char(s, digit_to_char(n % 10));
    if n < 10 {
        assert(s@ =~= old(s)@ + decimal(n as nat));
    } else {
        assert(s@ =~= old(s)@ + decimal(n as nat));
    }
}

/// Numeric value of a sequence of ASCII digits.
pub open spec fn digits_value(s: Seq<char>) -> nat
    decreases s.len(),
{
    if s.len() == 0 {
        0
    } else {
        digits_value(s.drop_last()) * 10 + ((s.last() as nat) - 48) as nat
    }
}

pub open spec fn all_digits(s: Seq<char>) -> bool {
    forall|i: int| 0 <= i < s.len() ==> is_digit_spec(#[trigger] s[i])
}

/// What `str::parse` gives for an unsigned integer type whose largest
/// value is `max`: an optional `+` sign followed by at least one ASCII
/// digit, with a value no larger than `max`; anything else is an error.
pub open spec fn parse_unsigned(s: Seq<char>, max: nat) -> Option<nat> {
    let body = if s.len() > 0 && s[0] == '+' {
        s.drop_first()
    } else {
        s
    };
    if body.len() > 0 && all_digits(body) && digits_value(body) <= max {
        Some(digits_value(body))
    } else {
        None
    }
}

/// A decimal representation is a non-empty run of digits whose value is
/// the number it represents.
pub proof fn lemma_decimal_digits(n: nat)
    ensures
        decimal(n).len() > 0,
        all_digits(decimal(n)),
        digits_value(decimal(n)) == n,
    decreases n,
{
    let d = n % 10;
    assert((digit_char(d) as nat) == 48 + d);
    if n >= 10 {
        lemma_decimal_digits(n / 10);
        assert(decimal(n).drop_last() =~= decimal(n / 10));
        assert(decimal(n).last() == digit_char(d));
        assert(digits_value(decimal(n)) == digits_value(decimal(n / 10)) * 10 + d);
        assert((n / 10) * 10 + n % 10 == n) by (nonlinear_arith);
    } else {
        assert(decimal(n).drop_last() =~= Seq::<char>::empty());
        assert(decimal(n).last() == digit_char(d));
        assert(digits_value(Seq::<char>::empty()) == 0);
    }
}

/// Digits are not whitespace, so trimming a run of digits keeps it.
pub proof fn lemma_trim_digits(s: Seq<char>)
    requires
        all_digits(s),
    ensures
        trim(s) == s,
{
    if s.len() > 0 {
        assert(is_digit_spec(s[0]));
        assert(is_digit_spec(s.last()));
    }
}

/// Reading back the decimal representation of `n`, trimmed, gives `n`
/// whenever it is in range.
pub proof fn lemma_decimal_reads_back(n: nat, max: nat)
    requires
        n <= max,
    ensures
        parse_unsigned(trim(decimal(n)), max) == Some(n),
{
    lemma_decimal_digits(n);
    lemma_trim_digits(decimal(n));
    assert(is_digit_spec(decimal(n)[0]));
}

proof fn lemma_digits_value_grows(s: Seq<char>, i: int)
    requires
        0 <= i <= s.len(),
        all_digits(s),
    ensures
        digits_value(s.take(i)) <= digits_value(s),
    decreases s.len() - i,
{
    if i < s.len() {
        lemma_digits_value_grows(s, i + 1);
        assert(s.take(i + 1).drop_last() =~= s.take(i));
        assert(is_digit_spec(s[i]));
    } else {
        assert(s.take(i) =~= s);
    }
}

/// Parses `cs` as an unsigned integer no larger than `max`, as
/// `str::parse` does for the unsigned type whose largest value is `max`.
pub fn parse_unsigned_chars(cs: &Vec<char>, max: u64) -> (r: Option<u64>)
    ensures
        match parse_unsigned(cs@, max as nat) {
            Some(v) => r == Some(v as u64),
            None => r is None,
        },
{
    let n = cs.len();
    let start: usize = if n > 0 && cs[0] == '+' {
        1
    } else {
        0
    };
    let ghost body = if cs@.len() > 0 && cs@[0] == '+' {
        cs@.drop_first()
    } else {
        cs@
    };
    assert(body =~= cs@.subrange(start as int, n as int));
    if start >= n {
        return None;
    }
    let mut acc: u64 = 0;
    let mut i = start;
    while i < n
        invariant
            start <= i <= n,
            n == cs@.len(),
            body =~= cs@.subrange(start as int, n as int),
            body == (if cs@.len() > 0 && cs@[0] == '+' {
                cs@.drop_first()
            } else {
                cs@
            }),
            all_digits(body.take(i - start)),
            acc as nat == digits_value(body.take(i - start)),
            acc <= max,
        decreases n - i,
    {
        let c = cs[i];
        if !is_digit(c) {
            assert(body[i - start] == c);
            assert(!is_digit_spec(body[i - start]));
            assert(!all_digits(body));
            assert(parse_unsigned(cs@, max as nat) is None);
            return None;
        }
        let d = (c as u32 - 48) as u64;
        assert(body.take(i + 1 - start).drop_last() =~= body.take(i - start));
        assert(body.take(i + 1 - start).last() == c);
        if acc > max / 10 || (acc as u128) * 10 + (d as u128) > max as u128 {
            proof {
                assert(digits_value(body.take(i + 1 - start)) == acc * 10 + d);
                assert(acc * 10 + d > max) by (nonlinear_arith)
                    requires
                        acc > max / 10 || acc * 10 + d > max,
                        d <= 9,
                ;
                assert(all_digits(body.take(i + 1 - start)));
                if all_digits(body) {
                    lemma_digits_value_grows(body, i + 1 - start);
                    assert(digits_value(body) > max);
                }
                assert(parse_unsigned(cs@, max as nat) is None);
            }
            return None;
        }
        assert(acc * 10 + d <= max) by (nonlinear_arith)
            requires
                acc <= max / 10,
                acc * 10 + d <= max,
        ;
        acc = acc * 10 + d;
        i = i + 1;
    }
    assert(body.take(n - start) =~= body);
    Some(acc)
}

/// Parses a string slice as an unsigned integer no larger than `max`.
pub fn parse_unsigned_str(s: &str, max: u64) -> (r: Option<u64>)
    ensures
        match parse_unsigned(s@, max as nat) {
            Some(v) => r == Some(v as u64),
            None => r is None,
        },
{
    let cs = chars_of(s);
    parse_unsigned_chars(&cs, max)
}

//----------------------------------------------------------------------
// Trimming
//----------------------------------------------------------------------

/// `str::trim_start`: drops leading whitespace.
pub open spec fn trim_start(s: Seq<char>) -> Seq<char>
    decreases s.len(),
{
    if s.len() > 0 && is_whitespace_spec(s[0]) {
        trim_start(s.drop_first())
    } else {
        s
    }
}

/// `str::trim_end`: drops trailing whitespace.
pub open spec fn trim_end(s: Seq<char>) -> Seq<char>
    decreases s.len(),
{
    if s.len() > 0 && is_whitespace_spec(s.last()) {
        trim_end(s.drop_last())
    } else {
        s
    }
}

/// `str::trim`: drops leading and trailing whitespace.
pub open spec fn trim(s: Seq<char>) -> Seq<char> {
    trim_end(trim_start(s))
}

/// Drops a run of `c` at the end (`str::trim_end_matches(c)`).
pub open spec fn trim_end_char(s: Seq<char>, c: char) -> Seq<char>
    decreases s.len(),
{
    if s.len() > 0 && s.last() == c {
        trim_end_char(s.drop_last(), c)
    } else {
        s
    }
}

/// Drops a run of `c` at the start (`str::trim_start_matches(c)`).
pub open spec fn trim_start_char(s: Seq<char>, c: char) -> Seq<char>
    decreases s.len(),
{
    if s.len() > 0 && s[0] == c {
        trim_start_char(s.drop_first(), c)
    } else {
        s
    }
}

/// `trim_end_char` keeps a prefix, ends in something other than `c`, and
/// drops only copies of `c`.
pub proof fn lemma_trim_end_char(s: Seq<char>, c: char)
    ensures
        trim_end_char(s, c).len() <= s.len(),
        trim_end_char(s, c) == s.take(trim_end_char(s, c).len() as int),
        trim_end_char(s, c).len() > 0 ==> trim_end_char(s, c).last() != c,
        forall|i: int| trim_end_char(s, c).len() <= i < s.len() ==> s[i] == c,
    decreases s.len(),
{
    if s.len() > 0 && s.last() == c {
        let t = trim_end_char(s.drop_last(), c);
        lemma_trim_end_char(s.drop_last(), c);
        assert(s.drop_last().take(t.len() as int) =~= s.take(t.len() as int));
        assert forall|i: int| t.len() <= i < s.len() implies s[i] == c by {
            if i < s.len() - 1 {
                assert(s.drop_last()[i] == s[i]);
            }
        }
    } else {
        assert(s.take(s.len() as int) =~= s);
    }
}

/// `trim_start_char` keeps a suffix.
pub proof fn lemma_trim_start_char(s: Seq<char>, c: char)
    ensures
        trim_start_char(s, c).len() <= s.len(),
        trim_start_char(s, c) == s.skip(s.len() - trim_start_char(s, c).len()),
    decreases s.len(),
{
    if s.len() > 0 && s[0] == c {
        let t = trim_start_char(s.drop_first(), c);
        lemma_trim_start_char(s.drop_first(), c);
        assert(s.drop_first().skip(s.len() - 1 - t.len()) =~= s.skip(s.len() - t.len()));
    } else {
        assert(s.skip(0) =~= s);
    }
}

pub fn trim_start_chars(cs: &Vec<char>) -> (r: Vec<char>)
    ensures
        r@ == trim_start(cs@),
{
    let n = cs.len();
    let mut i: usize = 0;
    assert(cs@.subrange(0, n as int) =~= cs@);
    while i < n && is_whitespace(cs[i])
        invariant
            i <= n,
            n == cs@.len(),
            trim_start(cs@) == trim_start(cs@.subrange(i as int, n as int)),
        decreases n - i,
    {
        assert(cs@.subrange(i as int, n as int).drop_first() =~= cs@.subrange(
            i + 1,
            n as int,
        ));
        i = i + 1;
    }
    let r = subvec(cs, i, n);
    r
}

pub fn trim_end_chars(cs: &Vec<char>) -> (r: Vec<char>)
    ensures
        r@ == trim_end(cs@),
{
    let mut j: usize = cs.len();
    assert(cs@.subrange(0, j as int) =~= cs@);
    while j > 0 && is_whitespace(cs[j - 1])
        invariant
            j <= cs@.len(),
            trim_end(cs@) == trim_end(cs@.subrange(0, j as int)),
        decreases j,
    {
        assert(cs@.subrange(0, j as int).drop_last() =~= cs@.subrange(0, j - 1));
        j = j - 1;
    }
    let r = subvec(cs, 0, j);
    r
}

pub fn trim_chars(cs: &Vec<char>) -> (r: Vec<char>)
    ensures
        r@ == trim(cs@),
{
    let a = trim_start_chars(cs);
    trim_end_chars(&a)
}

/// `s.trim().to_owned()`.
pub fn trim_str(s: &str) -> (r: String)
    ensures
        r@ == trim(s@),
{
    let cs = chars_of(s);
    let t = trim_chars(&cs);
    string_from_chars(&t)
}

/// True when `s.trim().is_empty()`.
pub fn is_blank(s: &str) -> (r: bool)
    ensures
        r == (trim(s@).len() == 0),
{
    let cs = chars_of(s);
    let t = trim_chars(&cs);
    t.len() == 0
}

pub fn trim_end_char_chars(cs: &Vec<char>, c: char) -> (r: Vec<char>)
    ensures
        r@ == trim_end_char(cs@, c),
{
    let mut j: usize = cs.len();
    assert(cs@.subrange(0, j as int) =~= cs@);
    while j > 0 && cs[j - 1] == c
        invariant
            j <= cs@.len(),
            trim_end_char(cs@, c) == trim_end_char(cs@.subrange(0, j as int), c),
        decreases j,
    {
        assert(cs@.subrange(0, j as int).drop_last() =~= cs@.subrange(0, j - 1));
        j = j - 1;
    }
    subvec(cs, 0, j)
}

pub fn trim_start_char_chars(cs: &Vec<char>, c: char) -> (r: Vec<char>)
    ensures
        r@ == trim_start_char(cs@, c),
{
    let n = cs.len();
    let mut i: usize = 0;
    assert(cs@.subrange(0, n as int) =~= cs@);
    while i < n && cs[i] == c
        invariant
            i <= n,
            n == cs@.len(),
            trim_start_char(cs@, c) == trim_start_char(cs@.subrange(i as int, n as int), c),
        decreases n - i,
    {
        assert(cs@.subrange(i as int, n as int).drop_first() =~= cs@.subrange(
            i + 1,
            n as int,
        ));
        i = i + 1;
    }
    subvec(cs, i, n)
}

//----------------------------------------------------------------------
// Slicing, searching and splitting
//----------------------------------------------------------------------

/// The characters `cs[from..to]`.
pub fn subvec(cs: &Vec<char>, from: usize, to: usize) -> (r: Vec<char>)
    requires
        from <= to <= cs@.len(),
    ensures
        r@ == cs@.subrange(from as int, to as int),
{
    let mut out: Vec<char> = Vec::new();
    let mut i = from;
    while i < to
        invariant
            from <= i <= to,
            to <= cs@.len(),
            out@ == cs@.subrange(from as int, i as int),
        decreases to - i,
    {
        out.push(cs[i]);
        i = i + 1;
        assert(out@ =~= cs@.subrange(from as int, i as int));
    }
    out
}

/// Index of the first occurrence of `c` in `s`, or -1.
pub open spec fn index_of(s: Seq<char>, c: char) -> int
    decreases s.len(),
{
    if s.len() == 0 {
        -1
    } else if s[0] == c {
        0
    } else {
        let r = index_of(s.drop_first(), c);
        if r < 0 {
            -1
        } else {
            r + 1
        }
    }
}

pub proof fn lemma_index_of(s: Seq<char>, c: char, i: int)
    requires
        0 <= i <= s.len(),
        forall|j: int| 0 <= j < i ==> s[j] != c,
    ensures
        i < s.len() && s[i] == c ==> index_of(s, c) == i,
        i == s.len() ==> index_of(s, c) == -1,
    decreases i,
{
    if i > 0 {
        lemma_index_of(s.drop_first(), c, i - 1);
    }
}

pub proof fn lemma_index_of_bounds(s: Seq<char>, c: char)
    ensures
        -1 <= index_of(s, c) < s.len(),
        index_of(s, c) >= 0 ==> s[index_of(s, c)] == c,
        forall|j: int| 0 <= j < index_of(s, c) ==> s[j] != c,
        index_of(s, c) < 0 ==> forall|j: int| 0 <= j < s.len() ==> s[j] != c,
    decreases s.len(),
{
    if s.len() > 0 && s[0] != c {
        lemma_index_of_bounds(s.drop_first(), c);
        let r = index_of(s.drop_first(), c);
        assert forall|j: int| 0 <= j < index_of(s, c) implies s[j] != c by {
            if j > 0 {
                assert(s[j] == s.drop_first()[j - 1]);
            }
        }
        if r < 0 {
            assert forall|j: int| 0 <= j < s.len() implies s[j] != c by {
                if j > 0 {
                    assert(s[j] == s.drop_first()[j - 1]);
                }
            }
        }
    }
}

/// Index of the first `c` in `cs`, if any.
pub fn find_char(cs: &Vec<char>, c: char) -> (r: Option<usize>)
    ensures
        match r {
            Some(i) => index_of(cs@, c) == i as int && i < cs@.len(),
            None => index_of(cs@, c) == -1,
        },
{
    let n = cs.len();
    for i in 0..n
        invariant
            n == cs@.len(),
            forall|j: int| 0 <= j < i ==> cs@[j] != c,
    {
        if cs[i] == c {
            proof {
                lemma_index_of(cs@, c, i as int);
            }
            return Some(i);
        }
    }
    proof {
        lemma_index_of(cs@, c, n as int);
    }
    None
}

/// True when `c` occurs in `s`.
pub open spec fn has_char(s: Seq<char>, c: char) -> bool {
    exists|i: int| 0 <= i < s.len() && s[i] == c
}

pub fn contains_char(cs: &Vec<char>, c: char) -> (r: bool)
    ensures
        r == has_char(cs@, c),
{
    proof {
        lemma_index_of_bounds(cs@, c);
    }
    match find_char(cs, c) {
        Some(_) => true,
        None => false,
    }
}

/// `s.split(c)`: the pieces between occurrences of `c`.
pub open spec fn split(s: Seq<char>, c: char) -> Seq<Seq<char>>
    decreases s.len(),
{
    let i = index_of(s, c);
    if i < 0 || i >= s.len() {
        seq![s]
    } else {
        seq![s.take(i)] + split(s.skip(i + 1), c)
    }
}

/// `s.split_once(c)`.
pub open spec fn split_once(s: Seq<char>, c: char) -> Option<(Seq<char>, Seq<char>)> {
    let i = index_of(s, c);
    if i < 0 || i >= s.len() {
        None
    } else {
        Some((s.take(i), s.skip(i + 1)))
    }
}

/// Splitting a text with no `c` gives the text as the only piece.
pub proof fn lemma_split_single(y: Seq<char>, c: char)
    requires
        !has_char(y, c),
    ensures
        split(y, c) == seq![y],
{
    lemma_index_of(y, c, y.len() as int);
}

/// Splitting `x`, `c`, `y` gives the pieces of `x` followed by those of `y`.
pub proof fn lemma_split_concat(x: Seq<char>, y: Seq<char>, c: char)
    ensures
        split(x + seq![c] + y, c) == split(x, c) + split(y, c),
    decreases x.len(),
{
    let s = x + seq![c] + y;
    lemma_index_of_bounds(x, c);
    let i0 = index_of(x, c);
    if i0 >= 0 {
        lemma_index_of(s, c, i0);
        assert(s.take(i0) =~= x.take(i0));
        assert(s.skip(i0 + 1) =~= x.skip(i0 + 1) + seq![c] + y);
        lemma_split_concat(x.skip(i0 + 1), y, c);
        assert(split(s, c) =~= split(x, c) + split(y, c));
    } else {
        lemma_index_of(s, c, x.len() as int);
        assert(s.take(x.len() as int) =~= x);
        assert(s.skip(x.len() as int + 1) =~= y);
        assert(split(s, c) =~= split(x, c) + split(y, c));
    }
}

pub fn split_once_chars(cs: &Vec<char>, c: char) -> (r: Option<(Vec<char>, Vec<char>)>)
    ensures
        match split_once(cs@, c) {
            Some((a, b)) => r matches Some((x, y)) && x@ == a && y@ == b,
            None => r is None,
        },
{
    let found = find_char(cs, c);
    match found {
        Some(i) => {
            let n = cs.len();
            let a = subvec(cs, 0, i);
            let b = subvec(cs, i + 1, n);
            assert(a@ =~= cs@.take(i as int));
            assert(b@ =~= cs@.skip(i + 1));
            Some((a, b))
        },
        None => None,
    }
}

pub fn split_chars(cs: &Vec<char>, c: char) -> (r: Vec<Vec<char>>)
    ensures
        r@.len() == split(cs@, c).len(),
        forall|k: int| 0 <= k < r@.len() ==> (#[trigger] r@[k])@ == split(cs@, c)[k],
{
    let mut pieces: Vec<Vec<char>> = Vec::new();
    let mut rest: Vec<char> = subvec(cs, 0, cs.len());
    assert(rest@ =~= cs@);
    loop
        invariant
            pieces@.len() + split(rest@, c).len() == split(cs@, c).len(),
            forall|k: int| 0 <= k < pieces@.len() ==> (#[trigger] pieces@[k])@ == split(cs@, c)[k],
            forall|k: int|
                0 <= k < split(rest@, c).len() ==> split(rest@, c)[k] == split(cs@, c)[pieces@.len()
                    + k],
        decreases rest@.len(),
    {
        match find_char(&rest, c) {
            Some(i) => {
                let rn = rest.len();
                let head = subvec(&rest, 0, i);
                let tail = subvec(&rest, i + 1, rn);
                proof {
                    assert(head@ =~= rest@.take(i as int));
                    assert(tail@ =~= rest@.skip(i + 1));
                    assert(split(rest@, c) == seq![rest@.take(i as int)] + split(tail@, c));
                    assert(split(rest@, c)[0] == head@);
                    assert forall|k: int| 0 <= k < split(tail@, c).len() implies split(tail@, c)[k]
                        == split(cs@, c)[pieces@.len() + 1 + k] by {
                        assert(split(tail@, c)[k] == split(rest@, c)[k + 1]);
                    }
                }
                pieces.push(head);
                rest = tail;
            },
            None => {
                proof {
                    assert(split(rest@, c) == seq![rest@]);
                    assert(split(rest@, c)[0] == rest@);
                }
                pieces.push(rest);
                return pieces;
            },
        }
    }
}

/// `s.split_whitespace()`: the maximal runs of non-whitespace characters.
pub open spec fn words(s: Seq<char>) -> Seq<Seq<char>>
    decreases s.len(),
{
    let t = trim_start(s);
    if t.len() == 0 {
        seq![]
    } else {
        let i = first_ws(t);
        if i <= 0 || i > t.len() || t.len() > s.len() {
            seq![t]
        } else {
            seq![t.take(i)] + words(t.skip(i))
        }
    }
}

/// Index of the first whitespace character of `s`, or its length.
pub open spec fn first_ws(s: Seq<char>) -> int
    decreases s.len(),
{
    if s.len() == 0 {
        0
    } else if is_whitespace_spec(s[0]) {
        0
    } else {
        first_ws(s.drop_first()) + 1
    }
}

proof fn lemma_first_ws(s: Seq<char>, i: int)
    requires
        0 <= i <= s.len(),
        forall|j: int| 0 <= j < i ==> !is_whitespace_spec(s[j]),
        i == s.len() || is_whitespace_spec(s[i]),
    ensures
        first_ws(s) == i,
    decreases i,
{
    if i > 0 {
        lemma_first_ws(s.drop_first(), i - 1);
    }
}

proof fn lemma_trim_start_len(s: Seq<char>)
    ensures
        trim_start(s).len() <= s.len(),
        trim_start(s).len() > 0 ==> !is_whitespace_spec(trim_start(s)[0]),
    decreases s.len(),
{
    if s.len() > 0 && is_whitespace_spec(s[0]) {
        lemma_trim_start_len(s.drop_first());
    }
}

proof fn lemma_trim_end_len(s: Seq<char>)
    ensures
        trim_end(s).len() <= s.len(),
    decreases s.len(),
{
    if s.len() > 0 && is_whitespace_spec(s.last()) {
        lemma_trim_end_len(s.drop_last());
    }
}

/// `trim_end` keeps a prefix that does not end in whitespace.
proof fn lemma_trim_end_shape(s: Seq<char>)
    ensures
        trim_end(s).len() <= s.len(),
        trim_end(s) == s.take(trim_end(s).len() as int),
        trim_end(s).len() > 0 ==> !is_whitespace_spec(trim_end(s).last()),
    decreases s.len(),
{
    if s.len() > 0 && is_whitespace_spec(s.last()) {
        let t = trim_end(s.drop_last());
        lemma_trim_end_shape(s.drop_last());
        assert(s.drop_last().take(t.len() as int) =~= s.take(t.len() as int));
    } else {
        assert(s.take(s.len() as int) =~= s);
    }
}

/// Trimming a trimmed text changes nothing.
pub proof fn lemma_trim_idempotent(s: Seq<char>)
    ensures
        trim(trim(s)) == trim(s),
{
    let u = trim_start(s);
    lemma_trim_start_len(s);
    let v = trim_end(u);
    lemma_trim_end_shape(u);
    if v.len() > 0 {
        assert(v[0] == u[0]);
    }
    assert(trim_start(v) == v);
}

/// A non-empty text that trimming leaves alone starts and ends with a
/// character other than whitespace.
pub proof fn lemma_trimmed_ends(v: Seq<char>)
    requires
        trim(v) == v,
        v.len() > 0,
    ensures
        !is_whitespace_spec(v[0]),
        !is_whitespace_spec(v.last()),
{
    if is_whitespace_spec(v[0]) {
        lemma_trim_start_len(v.drop_first());
        lemma_trim_end_len(trim_start(v));
        assert(false);
    }
    if is_whitespace_spec(v.last()) {
        lemma_trim_end_len(v.drop_last());
        assert(false);
    }
}

/// Trimming a space followed by a trimmed, non-empty text gives the text.
pub proof fn lemma_trim_space_prefix(t: Seq<char>)
    requires
        trim(t) == t,
        t.len() > 0,
    ensures
        trim(seq![' '] + t) == t,
{
    lemma_trimmed_ends(t);
    assert((seq![' '] + t).drop_first() =~= t);
}

/// `first_ws` is the position of the first whitespace character, or the
/// length when there is none.
proof fn lemma_first_ws_bounds(s: Seq<char>)
    ensures
        0 <= first_ws(s) <= s.len(),
        first_ws(s) < s.len() ==> is_whitespace_spec(s[first_ws(s)]),
        forall|k: int| 0 <= k < first_ws(s) ==> !is_whitespace_spec(#[trigger] s[k]),
    decreases s.len(),
{
    if s.len() > 0 && !is_whitespace_spec(s[0]) {
        lemma_first_ws_bounds(s.drop_first());
        assert forall|k: int| 0 <= k < first_ws(s) implies !is_whitespace_spec(#[trigger] s[k]) by {
            if k > 0 {
                assert(s[k] == s.drop_first()[k - 1]);
            }
        }
    }
}

/// Leading whitespace of `x + y`: that of `x` when `x` holds something
/// else, otherwise all of `x` and that of `y`.
proof fn lemma_trim_start_concat(x: Seq<char>, y: Seq<char>)
    ensures
        trim_start(x + y) == if trim_start(x).len() > 0 {
            trim_start(x) + y
        } else {
            trim_start(y)
        },
    decreases x.len(),
{
    if x.len() == 0 {
        assert(x + y =~= y);
    } else if is_whitespace_spec(x[0]) {
        assert((x + y).drop_first() =~= x.drop_first() + y);
        lemma_trim_start_concat(x.drop_first(), y);
    } else {
        assert((x + y)[0] == x[0]);
    }
}

/// The first whitespace of `x + y`: that of `x`, or past `x` when `x`
/// has none.
proof fn lemma_first_ws_concat(x: Seq<char>, y: Seq<char>)
    ensures
        first_ws(x + y) == if first_ws(x) < x.len() {
            first_ws(x)
        } else {
            x.len() + first_ws(y)
        },
    decreases x.len(),
{
    lemma_first_ws_bounds(x);
    if x.len() == 0 {
        assert(x + y =~= y);
    } else if is_whitespace_spec(x[0]) {
        assert((x + y)[0] == x[0]);
    } else {
        assert((x + y)[0] == x[0]);
        assert((x + y).drop_first() =~= x.drop_first() + y);
        lemma_first_ws_concat(x.drop_first(), y);
        lemma_first_ws_bounds(x.drop_first());
    }
}

/// The words of a text depend only on it from its first non-blank on.
proof fn lemma_words_trim_start(x: Seq<char>, y: Seq<char>)
    requires
        trim_start(x) == trim_start(y),
    ensures
        words(x) == words(y),
{
    lemma_trim_start_len(x);
    lemma_trim_start_len(y);
}

/// The words of `f1`, a space and `f2` are the words of `f1` followed by
/// those of `f2`.
pub proof fn lemma_words_concat(f1: Seq<char>, f2: Seq<char>)
    ensures
        words(f1 + seq![' '] + f2) == words(f1) + words(f2),
    decreases f1.len(),
{
    let s = f1 + seq![' '] + f2;
    let sp = seq![' '] + f2;
    let u = trim_start(f1);
    assert(s =~= f1 + sp);
    lemma_trim_start_concat(f1, sp);
    lemma_trim_start_concat(seq![' '], f2);
    assert(trim_start(seq![' ']) =~= Seq::<char>::empty()) by {
        assert(is_whitespace_spec(' '));
        assert(seq![' '].drop_first() =~= Seq::<char>::empty());
        assert(trim_start(Seq::<char>::empty()) =~= Seq::<char>::empty());
    }
    lemma_trim_start_len(f1);
    if u.len() == 0 {
        lemma_words_trim_start(s, f2);
        assert(words(f1) =~= Seq::<Seq<char>>::empty());
        assert(words(f1) + words(f2) =~= words(f2));
    } else {
        let t = u + sp;
        assert(trim_start(s) == t);
        lemma_first_ws_bounds(u);
        lemma_first_ws_concat(u, sp);
        let j = first_ws(u);
        assert(j >= 1) by {
            if j == 0 {
                assert(!is_whitespace_spec(u[0]));
            }
        }
        if j < u.len() {
            assert(first_ws(t) == j);
            assert(t.take(j) =~= u.take(j));
            assert(t.skip(j) =~= u.skip(j) + seq![' '] + f2);
            lemma_words_concat(u.skip(j), f2);
            assert(words(f1) == seq![u.take(j)] + words(u.skip(j)));
            assert(words(s) =~= words(f1) + words(f2));
        } else {
            assert(first_ws(sp) == 0);
            assert(first_ws(t) == u.len());
            assert(t.take(j) =~= u);
            assert(t.skip(j) =~= sp);
            lemma_words_trim_start(sp, f2);
            assert(u.skip(j) =~= Seq::<char>::empty());
            assert(words(Seq::<char>::empty()) =~= Seq::<Seq<char>>::empty());
            assert(u.take(j) =~= u);
            assert(words(f1) == seq![u.take(j)] + words(u.skip(j)));
            assert(words(f1) =~= seq![u]);
            assert(words(s) =~= words(f1) + words(f2));
        }
    }
}

/// A non-empty text without whitespace is one word.
pub proof fn lemma_words_single(t: Seq<char>)
    requires
        t.len() > 0,
        forall|i: int| 0 <= i < t.len() ==> !is_whitespace_spec(#[trigger] t[i]),
    ensures
        words(t) == seq![t],
{
    lemma_first_ws_bounds(t);
    assert(trim_start(t) == t);
    assert(first_ws(t) == t.len());
    assert(t.take(t.len() as int) =~= t);
    assert(t.skip(t.len() as int) =~= Seq::<char>::empty());
    assert(words(Seq::<char>::empty()) =~= Seq::<Seq<char>>::empty());
    assert(words(t) =~= seq![t]);
}

/// A text of whitespace alone has no words.
pub proof fn lemma_words_blank(s: Seq<char>)
    requires
        forall|i: int| 0 <= i < s.len() ==> is_whitespace_spec(#[trigger] s[i]),
    ensures
        words(s).len() == 0,
    decreases s.len(),
{
    if s.len() > 0 {
        assert forall|i: int| 0 <= i < s.drop_first().len() implies is_whitespace_spec(
            #[trigger] s.drop_first()[i],
        ) by {
            assert(s.drop_first()[i] == s[i + 1]);
        }
        lemma_words_blank(s.drop_first());
        assert(is_whitespace_spec(s[0]));
        lemma_trim_start_len(s.drop_first());
        lemma_words_trim_start(s, s.drop_first());
    }
}

/// Reading the decimal text of `n` as a number no larger than `max`.
pub proof fn lemma_parse_decimal(n: nat, max: nat)
    ensures
        parse_unsigned(decimal(n), max) == if n <= max {
            Some(n)
        } else {
            None::<nat>
        },
{
    lemma_decimal_digits(n);
    assert(is_digit_spec(decimal(n)[0]));
}

pub fn words_chars(cs: &Vec<char>) -> (r: Vec<Vec<char>>)
    ensures
        r@.len() == words(cs@).len(),
        forall|k: int| 0 <= k < r@.len() ==> (#[trigger] r@[k])@ == words(cs@)[k],
{
    let mut pieces: Vec<Vec<char>> = Vec::new();
    let mut rest: Vec<char> = subvec(cs, 0, cs.len());
    assert(rest@ =~= cs@);
    loop
        invariant
            pieces@.len() + words(rest@).len() == words(cs@).len(),
            forall|k: int| 0 <= k < pieces@.len() ==> (#[trigger] pieces@[k])@ == words(cs@)[k],
            forall|k: int|
                0 <= k < words(rest@).len() ==> words(rest@)[k] == words(cs@)[pieces@.len() + k],
        decreases rest@.len(),
    {
        let t = trim_start_chars(&rest);
        proof {
            lemma_trim_start_len(rest@);
        }
        if t.len() == 0 {
            return pieces;
        }
        let n = t.len();
        let mut i: usize = 0;
        while i < n && !is_whitespace(t[i])
            invariant
                i <= n,
                n == t@.len(),
                forall|j: int| 0 <= j < i ==> !is_whitespace_spec(t@[j]),
            decreases n - i,
        {
            i = i + 1;
        }
        proof {
            lemma_first_ws(t@, i as int);
        }
        let head = subvec(&t, 0, i);
        let tail = subvec(&t, i, n);
        proof {
            assert(i > 0);
            assert(head@ =~= t@.take(i as int));
            assert(tail@ =~= t@.skip(i as int));
            assert(words(rest@) == seq![t@.take(i as int)] + words(tail@));
            assert(words(rest@)[0] == head@);
            assert forall|k: int| 0 <= k < words(tail@).len() implies words(tail@)[k] == words(
                cs@,
            )[pieces@.len() + 1 + k] by {
                assert(words(tail@)[k] == words(rest@)[k + 1]);
            }
        }
        pieces.push(head);
        rest = tail;
    }
}

/// True when `needle` occurs as a contiguous run inside `hay`.
pub open spec fn contains_seq(hay: Seq<char>, needle: Seq<char>) -> bool {
    exists|i: int| 0 <= i <= hay.len() - needle.len() && #[trigger] hay.subrange(i, i + needle.len()) == needle
}

pub fn contains_chars(hay: &Vec<char>, needle: &Vec<char>) -> (r: bool)
    ensures
        r == contains_seq(hay@, needle@),
{
    if needle.len() > hay.len() {
        return false;
    }
    let hl = hay.len();
    let last = hl - needle.len();
    let mut i: usize = 0;
    loop
        invariant
            hl == hay@.len(),
            last == hay@.len() - needle@.len(),
            needle@.len() <= hay@.len(),
            i <= last,
            forall|j: int| 0 <= j < i ==> #[trigger] hay@.subrange(j, j + needle@.len()) != needle@,
        decreases last - i,
    {
        let piece = subvec(hay, i, i + needle.len());
        if chars_eq(&piece, needle) {
            return true;
        }
        if i == last {
            return false;
        }
        i = i + 1;
    }
}

/// True when the two sequences are equal ignoring ASCII case
/// (`str::eq_ignore_ascii_case`).
pub open spec fn eq_ignore_ascii_case(a: Seq<char>, b: Seq<char>) -> bool {
    a.len() == b.len() && forall|i: int|
        0 <= i < a.len() ==> ascii_lower_spec(#[trigger] a[i]) == ascii_lower_spec(b[i])
}

pub fn eq_ignore_ascii_case_chars(a: &Vec<char>, b: &Vec<char>) -> (r: bool)
    ensures
        r == eq_ignore_ascii_case(a@, b@),
{
    if a.len() != b.len() {
        return false;
    }
    let n = a.len();
    for i in 0..n
        invariant
            n == a@.len(),
            n == b@.len(),
            forall|j: int| 0 <= j < i ==> ascii_lower_spec(#[trigger] a@[j]) == ascii_lower_spec(
                b@[j],
            ),
    {
        if ascii_lower(a[i]) != ascii_lower(b[i]) {
            return false;
        }
    }
    true
}

/// True when `prefix` is a prefix of `s`.
pub open spec fn starts_with(s: Seq<char>, prefix: Seq<char>) -> bool {
    prefix.len() <= s.len() && s.take(prefix.len() as int) == prefix
}

pub fn starts_with_chars(s: &Vec<char>, prefix: &Vec<char>) -> (r: bool)
    ensures
        r == starts_with(s@, prefix@),
{
    if prefix.len() > s.len() {
        return false;
    }
    let head = subvec(s, 0, prefix.len());
    assert(head@ =~= s@.take(prefix@.len() as int));
    chars_eq(&head, prefix)
}

} // verus!
