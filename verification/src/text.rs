//! Character-level helpers on strings: whitespace, words, trimming,
//! decimal numerals and path joining.

use vstd::prelude::*;

verus! {

/// Whether a character has the Unicode `White_Space` property: tab, line
/// feed, vertical tab, form feed, carriage return, space, next line,
/// no-break space, ogham space mark, the spaces U+2000 to U+200A, line
/// separator, paragraph separator, narrow no-break space, medium
/// mathematical space and ideographic space.
pub open spec fn unicode_white_space(c: char) -> bool {
    let v = c as u32;
    ||| 0x9 <= v <= 0xD
    ||| v == 0x20
    ||| v == 0x85
    ||| v == 0xA0
    ||| v == 0x1680
    ||| 0x2000 <= v <= 0x200A
    ||| v == 0x2028
    ||| v == 0x2029
    ||| v == 0x202F
    ||| v == 0x205F
    ||| v == 0x3000
}

/// Decides whether `c` has the Unicode `White_Space` property, as
/// `char::is_whitespace` does.
pub fn is_whitespace(c: char) -> (b: bool)
    ensures
        b == unicode_white_space(c),
{
    let v = c as u32;
    (0x9 <= v && v <= 0xD) || v == 0x20 || v == 0x85 || v == 0xA0 || v == 0x1680 || (0x2000 <= v
        && v <= 0x200A) || v == 0x2028 || v == 0x2029 || v == 0x202F || v == 0x205F || v == 0x3000
}

/// Calls `String::push`, which appends one character to the string.
#[verifier::external_body]
pub fn push_char(s: &mut String, c: char)
    ensures
        final(s)@ == old(s)@.push(c),
{
    s.push(c)
}

/// The characters of a string, in order.
pub fn chars_of(s: &str) -> (v: Vec<char>)
    ensures
        v@ == s@,
{
    let mut v: Vec<char> = Vec::new();
    for c in it: s.chars()
        invariant
            it.seq() == s@,
            v@ == it.seq().take(it.index() as int),
    {
        proof {
            assert(it.seq().take(it.index() + 1) =~= v@.push(c));
        }
        v.push(c);
    }
    proof {
        assert(v@ =~= s@);
    }
    v
}

/// A string made of the given characters.
pub fn string_of(v: &[char]) -> (s: String)
    ensures
        s@ == v@,
{
    let mut s = String::new();
    let mut i: usize = 0;
    while i < v.len()
        invariant
            i <= v@.len(),
            s@ == v@.take(i as int),
        decreases v@.len() - i,
    {
        push_char(&mut s, v[i]);
        proof {
            assert(v@.take(i + 1) =~= v@.take(i as int).push(v@[i as int]));
        }
        i = i + 1;
    }
    proof {
        assert(v@.take(v@.len() as int) =~= v@);
    }
    s
}

/// Whether position `i` of `s` starts a word: it holds a non-whitespace
/// character that is first or follows whitespace.
pub open spec fn starts_word(s: Seq<char>, i: int) -> bool {
    &&& 0 <= i < s.len()
    &&& !unicode_white_space(s[i])
    &&& (i == 0 || unicode_white_space(s[i - 1]))
}

/// The number of whitespace-separated words in the first `n` characters of `s`.
pub open spec fn words_in_prefix(s: Seq<char>, n: int) -> nat
    decreases n,
{
    if n <= 0 {
        0
    } else {
        words_in_prefix(s, n - 1) + if starts_word(s, n - 1) {
            1nat
        } else {
            0nat
        }
    }
}

/// The number of whitespace-separated words in `s`.
pub open spec fn word_total(s: Seq<char>) -> nat {
    words_in_prefix(s, s.len() as int)
}

proof fn lemma_words_in_prefix_bound(s: Seq<char>, n: int)
    requires
        0 <= n,
    ensures
        words_in_prefix(s, n) <= n,
    decreases n,
{
    if n > 0 {
        lemma_words_in_prefix_bound(s, n - 1);
    }
}

/// A text has no more words than characters.
pub proof fn lemma_word_total_bound(s: Seq<char>)
    ensures
        word_total(s) <= s.len(),
{
    lemma_words_in_prefix_bound(s, s.len() as int);
}

/// Counts the whitespace-separated words of `s`.
pub fn count_words(s: &[char]) -> (n: usize)
    ensures
        n == word_total(s@),
{
    let mut n: usize = 0;
    let mut i: usize = 0;
    let mut prev_ws: bool = true;
    while i < s.len()
        invariant
            i <= s@.len(),
            n == words_in_prefix(s@, i as int),
            n <= i,
            prev_ws == (i == 0 || unicode_white_space(s@[i - 1])),
        decreases s@.len() - i,
    {
        let ws = is_whitespace(s[i]);
        proof {
            lemma_words_in_prefix_bound(s@, i as int);
        }
        if !ws && prev_ws {
            n = n + 1;
        }
        prev_ws = ws;
        i = i + 1;
    }
    n
}

/// The number of leading whitespace characters of `s`.
pub open spec fn leading_ws(s: Seq<char>) -> nat
    decreases s.len(),
{
    if s.len() > 0 && unicode_white_space(s[0]) {
        1 + leading_ws(s.drop_first())
    } else {
        0
    }
}

/// The number of trailing whitespace characters of `s`.
pub open spec fn trailing_ws(s: Seq<char>) -> nat
    decreases s.len(),
{
    if s.len() > 0 && unicode_white_space(s.last()) {
        1 + trailing_ws(s.drop_last())
    } else {
        0
    }
}

/// `s` without its leading and trailing whitespace.
pub open spec fn trimmed(s: Seq<char>) -> Seq<char> {
    let t = s.skip(leading_ws(s) as int);
    t.take(t.len() - trailing_ws(t))
}

proof fn lemma_leading_ws_bound(s: Seq<char>)
    ensures
        leading_ws(s) <= s.len(),
    decreases s.len(),
{
    if s.len() > 0 && unicode_white_space(s[0]) {
        lemma_leading_ws_bound(s.drop_first());
    }
}

proof fn lemma_trailing_ws_bound(s: Seq<char>)
    ensures
        trailing_ws(s) <= s.len(),
    decreases s.len(),
{
    if s.len() > 0 && unicode_white_space(s.last()) {
        lemma_trailing_ws_bound(s.drop_last());
    }
}

/// The count of leading whitespace, found by scanning from the front.
fn count_leading_ws(s: &[char]) -> (n: usize)
    ensures
        n == leading_ws(s@),
{
    let mut i: usize = 0;
    proof {
        assert(s@.skip(0) =~= s@);
    }
    while i < s.len() && is_whitespace(s[i])
        invariant
            i <= s@.len(),
            leading_ws(s@) == i + leading_ws(s@.skip(i as int)),
        decreases s@.len() - i,
    {
        proof {
            assert(s@.skip(i as int).drop_first() =~= s@.skip(i + 1));
        }
        i = i + 1;
    }
    proof {
        if i < s@.len() {
            assert(s@.skip(i as int)[0] == s@[i as int]);
        }
    }
    i
}

/// The count of trailing whitespace, found by scanning from the back.
fn count_trailing_ws(s: &[char]) -> (n: usize)
    ensures
        n == trailing_ws(s@),
{
    let mut j: usize = s.len();
    proof {
        assert(s@.take(s@.len() as int) =~= s@);
    }
    while j > 0 && is_whitespace(s[j - 1])
        invariant
            j <= s@.len(),
            trailing_ws(s@) == (s@.len() - j) + trailing_ws(s@.take(j as int)),
        decreases j,
    {
        proof {
            assert(s@.take(j as int).drop_last() =~= s@.take(j - 1));
        }
        j = j - 1;
    }
    proof {
        if j > 0 {
            assert(s@.take(j as int).last() == s@[j - 1]);
        }
    }
    s.len() - j
}

/// Returns `s` without leading and trailing whitespace, as `str::trim` does.
pub fn trim_whitespace(s: &str) -> (t: String)
    ensures
        t@ == trimmed(s@),
{
    let v = chars_of(s);
    let a = count_leading_ws(v.as_slice());
    proof {
        lemma_leading_ws_bound(v@);
    }
    let mut rest: Vec<char> = Vec::new();
    let mut i: usize = a;
    while i < v.len()
        invariant
            a <= i <= v@.len(),
            rest@ == v@.subrange(a as int, i as int),
        decreases v@.len() - i,
    {
        rest.push(v[i]);
        proof {
            assert(rest@ =~= v@.subrange(a as int, i + 1));
        }
        i = i + 1;
    }
    proof {
        assert(rest@ =~= v@.skip(a as int));
    }
    let b = count_trailing_ws(rest.as_slice());
    proof {
        lemma_trailing_ws_bound(rest@);
    }
    let keep: usize = rest.len() - b;
    let mut out: Vec<char> = Vec::new();
    let mut k: usize = 0;
    while k < keep
        invariant
            keep <= rest@.len(),
            k <= keep,
            out@ == rest@.take(k as int),
        decreases keep - k,
    {
        out.push(rest[k]);
        proof {
            assert(out@ =~= rest@.take(k + 1));
        }
        k = k + 1;
    }
    string_of(out.as_slice())
}

/// The character of a decimal digit.
pub open spec fn digit_char(d: int) -> char {
    (48 + d) as char
}

/// The decimal numeral of a natural number, without leading zeros.
pub open spec fn digits(n: nat) -> Seq<char>
    decreases n,
{
    if n < 10 {
        seq![digit_char(n as int)]
    } else {
        digits(n / 10).push(digit_char((n % 10) as int))
    }
}

/// The decimal numeral of an integer, with a leading minus sign when negative.
pub open spec fn decimal(n: int) -> Seq<char> {
    if n < 0 {
        seq!['-'] + digits((-n) as nat)
    } else {
        digits(n as nat)
    }
}

fn push_digits(s: &mut String, n: u64)
    ensures
        final(s)@ == old(s)@ + digits(n as nat),
    decreases n,
{
    if n >= 10 {
        push_digits(s, n / 10);
    }
    let d: u64 = n % 10;
    let c: char = (48u8 + d as u8) as char;
    proof {
        assert(c == digit_char(d as int));
    }
    push_char(s, c);
    proof {
        if n >= 10 {
            assert(old(s)@ + digits(n as nat) =~= old(s)@ + digits((n / 10) as nat) + seq![c]);
        } else {
            assert(old(s)@ + digits(n as nat) =~= old(s)@ + seq![c]);
        }
    }
}

/// Appends the decimal numeral of `n` to `s`.
pub fn push_decimal(s: &mut String, n: i64)
    ensures
        final(s)@ == old(s)@ + decimal(n as int),
{
    if n < 0 {
        push_char(s, '-');
        let m: u64 = if n == i64::MIN {
            9223372036854775808u64
        } else {
            (-n) as u64
        };
        push_digits(s, m);
        proof {
            assert(old(s)@ + decimal(n as int) =~= old(s)@.push('-') + digits(m as nat));
        }
    } else {
        push_digits(s, n as u64);
    }
}

/// Joins a path component onto a base as `Path::join` does on Unix: an
/// absolute component replaces the base; otherwise a `/` separates the
/// two unless the base is empty or already ends with one.
pub open spec fn path_join(base: Seq<char>, part: Seq<char>) -> Seq<char> {
    if part.len() > 0 && part[0] == '/' {
        part
    } else if base.len() > 0 && base.last() != '/' {
        base + seq!['/'] + part
    } else {
        base + part
    }
}

/// Joins `part` onto `base` by the rule of `path_join`.
pub fn join_path(base: &str, part: &str) -> (p: String)
    ensures
        p@ == path_join(base@, part@),
{
    let b = chars_of(base);
    let q = chars_of(part);
    if q.len() > 0 && q[0] == '/' {
        return string_of(q.as_slice());
    }
    let mut out = string_of(b.as_slice());
    if b.len() > 0 && b[b.len() - 1] != '/' {
        push_char(&mut out, '/');
    }
    out.append(part);
    out
}

/// Decides whether two strings are the same text.
pub fn same_text(a: &str, b: &str) -> (r: bool)
    ensures
        r == (a@ == b@),
{
    let x = chars_of(a);
    let y = chars_of(b);
    if x.len() != y.len() {
        return false;
    }
    let mut i: usize = 0;
    while i < x.len()
        invariant
            x@ == a@,
            y@ == b@,
            x@.len() == y@.len(),
            i <= x@.len(),
            forall|j: int| 0 <= j < i ==> x@[j] == y@[j],
        decreases x@.len() - i,
    {
        if x[i] != y[i] {
            return false;
        }
        i = i + 1;
    }
    proof {
        assert(x@ =~= y@);
    }
    true
}

/// Whether `s` begins with `prefix`.
pub open spec fn has_prefix(s: Seq<char>, prefix: Seq<char>) -> bool {
    prefix.len() <= s.len() && s.take(prefix.len() as int) == prefix
}

/// Decides whether `s` begins with `prefix`.
pub fn starts_with(s: &str, prefix: &str) -> (b: bool)
    ensures
        b == has_prefix(s@, prefix@),
{
    let v = chars_of(s);
    let p = chars_of(prefix);
    if p.len() > v.len() {
        return false;
    }
    let mut i: usize = 0;
    while i < p.len()
        invariant
            v@ == s@,
            p@ == prefix@,
            p@.len() <= v@.len(),
            i <= p@.len(),
            forall|j: int| 0 <= j < i ==> v@[j] == p@[j],
        decreases p@.len() - i,
    {
        if v[i] != p[i] {
            proof {
                assert(v@.take(p@.len() as int)[i as int] != p@[i as int]);
                assert(v@.take(p@.len() as int) != p@);
            }
            return false;
        }
        i = i + 1;
    }
    proof {
        assert(v@.take(p@.len() as int) =~= p@);
    }
    true
}

/// `s` without its first `n` characters.
pub fn skip_chars(s: &str, n: usize) -> (t: String)
    requires
        n <= s@.len(),
    ensures
        t@ == s@.skip(n as int),
{
    let v = chars_of(s);
    let mut out: Vec<char> = Vec::new();
    let mut i: usize = n;
    while i < v.len()
        invariant
            n <= i <= v@.len(),
            out@ == v@.subrange(n as int, i as int),
        decreases v@.len() - i,
    {
        out.push(v[i]);
        proof {
            assert(out@ =~= v@.subrange(n as int, i + 1));
        }
        i = i + 1;
    }
    proof {
        assert(out@ =~= v@.skip(n as int));
    }
    string_of(out.as_slice())
}

} // verus!
