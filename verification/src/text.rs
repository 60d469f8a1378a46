//! Character-level string helpers shared by the rest of the library.
//!
//! Strings are specified through their views, `Seq<char>`.  The spec
//! functions here say what the std string operations that the platform uses
//! compute (`str::replace`, `split(..).next()`, `to_string` of integers),
//! and the executable functions compute exactly that.
use vstd::prelude::*;

verus! {

broadcast use vstd::string::group_string_axioms;

// ---------------------------------------------------------------------------
// Specifications
// ---------------------------------------------------------------------------

/// Reading `h` left to right, cut at every `sep`: the parts completed so
/// far and the part being read.
pub open spec fn split_state(h: Seq<char>, sep: char) -> (Seq<Seq<char>>, Seq<char>)
    decreases h.len(),
{
    if h.len() == 0 {
        (Seq::empty(), Seq::empty())
    } else {
        let (done, cur) = split_state(h.drop_last(), sep);
        if h.last() == sep {
            (done.push(cur), Seq::empty())
        } else {
            (done, cur.push(h.last()))
        }
    }
}

/// The parts of `h` between the occurrences of `sep`, in order: what
/// `h.split(sep)` yields.
pub open spec fn split_parts(h: Seq<char>, sep: char) -> Seq<Seq<char>> {
    split_state(h, sep).0.push(split_state(h, sep).1)
}

pub open spec fn lacks_char(s: Seq<char>, c: char) -> bool {
    forall|i: int| 0 <= i < s.len() ==> #[trigger] s[i] != c
}

/// Text without the separator continues the part being read.
pub proof fn lemma_split_append(p: Seq<char>, s: Seq<char>, sep: char)
    requires
        lacks_char(s, sep),
    ensures
        split_state(p + s, sep) == (split_state(p, sep).0, split_state(p, sep).1 + s),
    decreases s.len(),
{
    if s.len() == 0 {
        assert(p + s =~= p);
        assert(split_state(p, sep).1 + s =~= split_state(p, sep).1);
    } else {
        let s0 = s.drop_last();
        lemma_split_append(p, s0, sep);
        assert((p + s).drop_last() =~= p + s0);
        assert((p + s).last() == s.last());
        assert((split_state(p, sep).1 + s0).push(s.last()) =~= split_state(p, sep).1 + s);
    }
}

/// `sub` occurs somewhere in `s`.
pub open spec fn has_substring(s: Seq<char>, sub: Seq<char>) -> bool {
    exists|i: int| occurs_at(s, i, sub)
}

/// Every text contains itself.
pub proof fn lemma_substring_self(s: Seq<char>)
    ensures
        has_substring(s, s),
{
    assert(s.subrange(0, s.len() as int) =~= s);
    assert(occurs_at(s, 0, s));
}

/// What occurs in a part occurs in the whole.
pub broadcast proof fn lemma_substring_concat(a: Seq<char>, b: Seq<char>, sub: Seq<char>)
    ensures
        (has_substring(a, sub) || has_substring(b, sub)) ==> #[trigger] has_substring(a + b, sub),
{
    if has_substring(a, sub) {
        let i = choose|i: int| occurs_at(a, i, sub);
        assert((a + b).subrange(i, i + sub.len()) =~= a.subrange(i, i + sub.len()));
        assert(occurs_at(a + b, i, sub));
    } else if has_substring(b, sub) {
        let i = choose|i: int| occurs_at(b, i, sub);
        assert((a + b).subrange(a.len() + i, a.len() + i + sub.len()) =~= b.subrange(i, i + sub.len()));
        assert(occurs_at(a + b, a.len() + i, sub));
    }
}

/// A prefix of a text occurs in it.
pub proof fn lemma_prefix_substring(a: Seq<char>, b: Seq<char>)
    ensures
        has_substring(a + b, a),
{
    lemma_substring_self(a);
    lemma_substring_concat(a, b, a);
}

/// Replacing one character by another maps the text character by character.
pub proof fn lemma_replace_char(s: Seq<char>, c: char, r: char)
    ensures
        replace_all(s, seq![c], seq![r]) == s.map_values(|x: char| if x == c { r } else { x }),
    decreases s.len(),
{
    let p = seq![c];
    if s.len() > 0 {
        lemma_replace_char(s.skip(1), c, r);
        let f = |x: char| if x == c { r } else { x };
        let rest = replace_all(s.skip(1), p, seq![r]);
        if s[0] == c {
            assert(s.subrange(0, 1) =~= p);
            assert(replace_all(s, p, seq![r]) == seq![r] + rest);
        } else {
            assert(s.subrange(0, 1)[0] != p[0]);
            assert(replace_all(s, p, seq![r]) == seq![s[0]] + rest);
        }
        assert(rest =~= s.skip(1).map_values(f));
        assert(replace_all(s, p, seq![r]) =~= s.map_values(f));
    }
}

/// `pat` occurs in `s` starting at index `i`.
pub open spec fn occurs_at(s: Seq<char>, i: int, pat: Seq<char>) -> bool {
    0 <= i && i + pat.len() <= s.len() && s.subrange(i, i + pat.len()) == pat
}

/// Leftmost, non-overlapping replacement of every occurrence of a non-empty
/// `pat` in `s` by `rep`: what `str::replace` returns.
pub open spec fn replace_all(s: Seq<char>, pat: Seq<char>, rep: Seq<char>) -> Seq<char>
    decreases s.len(),
{
    if s.len() == 0 || pat.len() == 0 {
        s
    } else if occurs_at(s, 0, pat) {
        rep + replace_all(s.skip(pat.len() as int), pat, rep)
    } else {
        seq![s[0]] + replace_all(s.skip(1), pat, rep)
    }
}

/// The characters of `s` before the first occurrence of `c`, or all of `s`
/// when `c` does not occur: what `s.split(c).next().unwrap_or(s)` returns.
pub open spec fn before_char(s: Seq<char>, c: char) -> Seq<char>
    decreases s.len(),
{
    if s.len() == 0 {
        s
    } else if s[0] == c {
        Seq::empty()
    } else {
        seq![s[0]] + before_char(s.skip(1), c)
    }
}

/// The characters of `s` after the last occurrence of `c`, or all of `s`
/// when `c` does not occur: what `s.split(c).last().unwrap_or("")` returns.
pub open spec fn after_last_char(s: Seq<char>, c: char) -> Seq<char>
    decreases s.len(),
{
    if s.len() == 0 {
        s
    } else if s.last() == c {
        Seq::empty()
    } else {
        after_last_char(s.drop_last(), c).push(s.last())
    }
}

/// The number of times `c` occurs in `s`.
pub open spec fn count_char(s: Seq<char>, c: char) -> nat
    decreases s.len(),
{
    if s.len() == 0 {
        0
    } else {
        count_char(s.drop_last(), c) + if s.last() == c { 1nat } else { 0nat }
    }
}

/// The ASCII digit for a value below ten.
pub open spec fn digit_char(d: nat) -> char {
    if d == 0 { '0' }
    else if d == 1 { '1' }
    else if d == 2 { '2' }
    else if d == 3 { '3' }
    else if d == 4 { '4' }
    else if d == 5 { '5' }
    else if d == 6 { '6' }
    else if d == 7 { '7' }
    else if d == 8 { '8' }
    else { '9' }
}

/// Decimal representation of a natural number, no leading zeros: what
/// `to_string` gives for an unsigned integer.
pub open spec fn decimal(n: nat) -> Seq<char>
    decreases n,
{
    if n < 10 {
        seq![digit_char(n)]
    } else {
        decimal(n / 10).push(digit_char(n % 10))
    }
}

/// Decimal representation of an integer, with a leading `-` when negative:
/// what `to_string` gives for a signed integer.
pub open spec fn signed_decimal(n: int) -> Seq<char> {
    if n < 0 {
        seq!['-'] + decimal((-n) as nat)
    } else {
        decimal(n as nat)
    }
}

pub open spec fn is_ascii_digit(c: char) -> bool {
    '0' <= c && c <= '9'
}

pub open spec fn is_ascii_alphanumeric(c: char) -> bool {
    ('0' <= c && c <= '9') || ('a' <= c && c <= 'z') || ('A' <= c && c <= 'Z')
}

/// Unicode White_Space, the set that `char::is_whitespace` accepts.
pub open spec fn is_unicode_whitespace(c: char) -> bool {
    ||| ('\u{9}' <= c && c <= '\u{d}')
    ||| c == ' '
    ||| c == '\u{85}'
    ||| c == '\u{a0}'
    ||| c == '\u{1680}'
    ||| ('\u{2000}' <= c && c <= '\u{200a}')
    ||| c == '\u{2028}'
    ||| c == '\u{2029}'
    ||| c == '\u{202f}'
    ||| c == '\u{205f}'
    ||| c == '\u{3000}'
}

// ---------------------------------------------------------------------------
// Executable helpers
// ---------------------------------------------------------------------------

/// Appends one character to a `String` (std's `String::push`).
#[verifier::external_body]
pub(crate) fn push_char(s: &mut String, c: char)
    ensures
        final(s)@ == old(s)@.push(c),
{
    s.push(c);
}

/// Appends a string slice to a `String`.
pub fn push_str(s: &mut String, t: &str)
    ensures
        final(s)@ == old(s)@ + t@,
{
    s.append(t);
}

/// The characters of a string slice, in order.
pub fn chars_of(s: &str) -> (res: Vec<char>)
    ensures
        res@ == s@,
{
    let mut res: Vec<char> = Vec::new();
    for c in it: s.chars()
        invariant
            res@ == it.seq().take(it.index() as int),
            it.seq() == s@,
    {
        res.push(c);
    }
    res
}

/// A new `String` holding the characters `cs[lo..hi]`.
pub fn string_from_range(cs: &[char], lo: usize, hi: usize) -> (res: String)
    requires
        lo <= hi <= cs@.len(),
    ensures
        res@ == cs@.subrange(lo as int, hi as int),
{
    let mut res = String::new();
    let mut i: usize = lo;
    while i < hi
        invariant
            lo <= i <= hi <= cs@.len(),
            res@ == cs@.subrange(lo as int, i as int),
        decreases hi - i,
    {
        push_char(&mut res, cs[i]);
        assert(cs@.subrange(lo as int, i + 1) == cs@.subrange(lo as int, i as int).push(cs@[i as int]));
        i += 1;
    }
    res
}

/// A new `String` holding all the given characters.
pub fn string_from_chars(cs: &[char]) -> (res: String)
    ensures
        res@ == cs@,
{
    assert(cs@.subrange(0, cs@.len() as int) =~= cs@);
    string_from_range(cs, 0, cs.len())
}

/// An owned copy of a string slice.
pub fn to_owned_string(s: &str) -> (res: String)
    ensures
        res@ == s@,
{
    s.to_owned()
}

/// Whether two string slices hold the same characters.
pub fn str_eq(a: &str, b: &str) -> (res: bool)
    ensures
        res == (a@ == b@),
{
    let ac = chars_of(a);
    let bc = chars_of(b);
    if ac.len() != bc.len() {
        return false;
    }
    let mut i: usize = 0;
    while i < ac.len()
        invariant
            ac@ == a@,
            bc@ == b@,
            ac@.len() == bc@.len(),
            i <= ac@.len(),
            forall|j: int| 0 <= j < i ==> ac@[j] == bc@[j],
        decreases ac@.len() - i,
    {
        if ac[i] != bc[i] {
            return false;
        }
        i += 1;
    }
    assert(ac@ =~= bc@);
    true
}

/// Whether `pat` occurs in `s` at index `i`.
pub fn occurs_at_exec(s: &[char], i: usize, pat: &[char]) -> (res: bool)
    ensures
        res == occurs_at(s@, i as int, pat@),
{
    if i > s.len() || pat.len() > s.len() - i {
        return false;
    }
    let mut j: usize = 0;
    while j < pat.len()
        invariant
            i + pat@.len() <= s@.len(),
            s@.len() == s.len(),
            j <= pat@.len(),
            forall|k: int| 0 <= k < j ==> s@[i + k] == pat@[k],
        decreases pat@.len() - j,
    {
        assert(i + j < s.len());
        if s[i + j] != pat[j] {
            assert(s@.subrange(i as int, i + pat@.len())[j as int] != pat@[j as int]);
            return false;
        }
        j += 1;
    }
    assert(s@.subrange(i as int, i + pat@.len()) =~= pat@);
    true
}

/// The characters of `s` before the first `c` (all of `s` without one):
/// `s.split(c).next().unwrap_or(s)`.
pub fn before_char_str(s: &str, c: char) -> (res: String)
    ensures
        res@ == before_char(s@, c),
{
    let sc = chars_of(s);
    let mut i: usize = 0;
    assert(sc@.skip(0) =~= sc@);
    assert(sc@.take(0) =~= Seq::<char>::empty());
    while i < sc.len() && sc[i] != c
        invariant
            sc@ == s@,
            i <= sc@.len(),
            before_char(s@, c) == sc@.take(i as int) + before_char(sc@.skip(i as int), c),
        decreases sc@.len() - i,
    {
        let ghost rest = sc@.skip(i as int);
        assert(rest.skip(1) =~= sc@.skip(i + 1));
        assert(sc@.take(i + 1) =~= sc@.take(i as int) + seq![rest[0]]);
        assert(sc@.take(i as int) + (seq![rest[0]] + before_char(rest.skip(1), c)) =~= sc@.take(
            i + 1,
        ) + before_char(sc@.skip(i + 1), c));
        i += 1;
    }
    if i < sc.len() {
        assert(before_char(sc@.skip(i as int), c) == Seq::<char>::empty());
    } else {
        assert(sc@.skip(i as int) =~= Seq::<char>::empty());
    }
    assert(sc@.take(i as int) + Seq::<char>::empty() =~= sc@.take(i as int));
    assert(sc@.subrange(0, i as int) =~= sc@.take(i as int));
    string_from_range(&sc, 0, i)
}

/// The ASCII digit for a value below ten.
pub fn digit(d: u64) -> (c: char)
    requires
        d < 10,
    ensures
        c == digit_char(d as nat),
{
    if d == 0 { '0' }
    else if d == 1 { '1' }
    else if d == 2 { '2' }
    else if d == 3 { '3' }
    else if d == 4 { '4' }
    else if d == 5 { '5' }
    else if d == 6 { '6' }
    else if d == 7 { '7' }
    else if d == 8 { '8' }
    else { '9' }
}

/// Appends the decimal form of `n` to `out`.
pub fn push_decimal(out: &mut String, n: u64)
    ensures
        final(out)@ == old(out)@ + decimal(n as nat),
    decreases n,
{
    if n >= 10 {
        push_decimal(out, n / 10);
    }
    let ghost mid = out@;
    push_char(out, digit(n % 10));
    proof {
        if n >= 10 {
            assert(old(out)@ + decimal(n as nat) =~= mid.push(digit_char((n % 10) as nat)));
        } else {
            assert(old(out)@ + decimal(n as nat) =~= mid.push(digit_char((n % 10) as nat)));
        }
    }
}

/// Appends the decimal form of a signed `n` to `out`.
pub fn push_signed_decimal(out: &mut String, n: i64)
    ensures
        final(out)@ == old(out)@ + signed_decimal(n as int),
{
    if n < 0 {
        push_char(out, '-');
        let mag: u64 = if n == i64::MIN {
            9223372036854775808u64
        } else {
            (-n) as u64
        };
        let ghost mid = out@;
        push_decimal(out, mag);
        assert(old(out)@ + signed_decimal(n as int) =~= mid + decimal(mag as nat));
    } else {
        push_decimal(out, n as u64);
    }
}

/// `n.to_string()` for an unsigned integer.
pub fn u64_to_string(n: u64) -> (res: String)
    ensures
        res@ == decimal(n as nat),
{
    let mut res = String::new();
    push_decimal(&mut res, n);
    assert(Seq::<char>::empty() + decimal(n as nat) =~= decimal(n as nat));
    res
}

/// `n.to_string()` for a signed integer.
pub fn i64_to_string(n: i64) -> (res: String)
    ensures
        res@ == signed_decimal(n as int),
{
    let mut res = String::new();
    push_signed_decimal(&mut res, n);
    assert(Seq::<char>::empty() + signed_decimal(n as int) =~= signed_decimal(n as int));
    res
}

/// The characters of `s` after the last `c` (all of `s` without one):
/// `s.split(c).last().unwrap_or("")`.
pub fn after_last_char_str(s: &str, c: char) -> (res: String)
    ensures
        res@ == after_last_char(s@, c),
{
    let sc = chars_of(s);
    let mut j: usize = sc.len();
    assert(sc@.take(sc@.len() as int) =~= sc@);
    while j > 0 && sc[j - 1] != c
        invariant
            sc@ == s@,
            j <= sc@.len(),
            after_last_char(s@, c) == after_last_char(sc@.take(j as int), c) + sc@.subrange(
                j as int,
                sc@.len() as int,
            ),
        decreases j,
    {
        let ghost pre = sc@.take(j as int);
        assert(pre.drop_last() =~= sc@.take(j - 1));
        assert(after_last_char(pre, c) == after_last_char(pre.drop_last(), c).push(pre.last()));
        assert(after_last_char(sc@.take(j - 1), c).push(pre.last()) + sc@.subrange(
            j as int,
            sc@.len() as int,
        ) =~= after_last_char(sc@.take(j - 1), c) + sc@.subrange(j - 1, sc@.len() as int));
        j -= 1;
    }
    if j > 0 {
        assert(sc@.take(j as int).last() == c);
        assert(after_last_char(sc@.take(j as int), c) == Seq::<char>::empty());
    } else {
        assert(sc@.take(0) =~= Seq::<char>::empty());
    }
    assert(Seq::<char>::empty() + sc@.subrange(j as int, sc@.len() as int) =~= sc@.subrange(
        j as int,
        sc@.len() as int,
    ));
    string_from_range(&sc, j, sc.len())
}

/// Whether `c` occurs in `s`.
pub fn contains_char(s: &[char], c: char) -> (res: bool)
    ensures
        res == s@.contains(c),
{
    let mut i: usize = 0;
    while i < s.len()
        invariant
            i <= s@.len(),
            forall|k: int| 0 <= k < i ==> s@[k] != c,
        decreases s@.len() - i,
    {
        if s[i] == c {
            assert(s@[i as int] == c);
            return true;
        }
        i += 1;
    }
    false
}

/// `s` starts with `prefix`.
pub open spec fn has_prefix(s: Seq<char>, prefix: Seq<char>) -> bool {
    prefix.len() <= s.len() && s.take(prefix.len() as int) == prefix
}

/// `s.starts_with(prefix)`.
pub fn starts_with_str(s: &str, prefix: &str) -> (res: bool)
    ensures
        res == has_prefix(s@, prefix@),
{
    let sc = chars_of(s);
    let pc = chars_of(prefix);
    let r = occurs_at_exec(&sc, 0, &pc);
    assert(r == has_prefix(s@, prefix@)) by {
        if pc@.len() <= sc@.len() {
            assert(sc@.subrange(0, pc@.len() as int) =~= sc@.take(pc@.len() as int));
        }
    }
    r
}

/// What `str::to_lowercase` of std returns: the Unicode lower-case mapping
/// of every character, which may change the length.
pub uninterp spec fn lowercase_of(s: Seq<char>) -> Seq<char>;

/// Whether every character of `s` is ASCII.
pub open spec fn is_ascii_text(s: Seq<char>) -> bool {
    forall|i: int| 0 <= i < s.len() ==> (#[trigger] s[i] as u32) < 128
}

/// The ASCII lower case of a character: `A` to `Z` become `a` to `z`, every
/// other character stays as it is.
pub open spec fn ascii_lower(c: char) -> char {
    if 'A' <= c && c <= 'Z' {
        ((c as u32) + 32) as char
    } else {
        c
    }
}

/// `str::to_lowercase` of std.  Its result is named as a whole; for text of
/// ASCII characters the documentation fixes it: each `A` to `Z` becomes its
/// lower-case letter and every other character stays.
#[verifier::external_body]
pub(crate) fn to_lowercase_string(s: &str) -> (res: String)
    ensures
        res@ == lowercase_of(s@),
        is_ascii_text(s@) ==> res@ == s@.map_values(|c: char| ascii_lower(c)),
{
    s.to_lowercase()
}

/// What `char::is_alphanumeric` of std answers for a character beyond
/// ASCII: whether it has the Unicode `Alphabetic` or `Numeric` property.
pub uninterp spec fn unicode_alphanumeric(c: char) -> bool;

/// Whether `char::is_alphanumeric` accepts a character: among the ASCII
/// characters exactly the letters and digits, beyond ASCII the Unicode
/// `Alphabetic` or `Numeric` characters.
pub open spec fn alnum_char(c: char) -> bool {
    if c <= '\u{7f}' {
        is_ascii_alphanumeric(c)
    } else {
        unicode_alphanumeric(c)
    }
}

/// `char::is_alphanumeric` of std: whether `c` has the Unicode
/// `Alphabetic` or `Numeric` property. Among ASCII characters these are
/// exactly the letters and digits (std documents `is_alphabetic` and
/// `is_numeric` by these properties; every other ASCII character, such as
/// a space, `/` or `-`, has neither).
#[verifier::external_body]
pub(crate) fn is_alphanumeric_char(c: char) -> (res: bool)
    ensures
        res == alnum_char(c),
        c > '\u{7f}' ==> res == unicode_alphanumeric(c),
{
    c.is_alphanumeric()
}

/// `char::is_whitespace`.
pub fn is_whitespace_char(c: char) -> (res: bool)
    ensures
        res == is_unicode_whitespace(c),
{
    ('\u{9}' <= c && c <= '\u{d}') || c == ' ' || c == '\u{85}' || c == '\u{a0}' || c == '\u{1680}'
        || ('\u{2000}' <= c && c <= '\u{200a}') || c == '\u{2028}' || c == '\u{2029}' || c == '\u{202f}'
        || c == '\u{205f}' || c == '\u{3000}'
}

/// Concatenation of string slices into a new `String`.
pub fn concat2(a: &str, b: &str) -> (res: String)
    ensures
        res@ == a@ + b@,
{
    let mut s = String::new();
    push_str(&mut s, a);
    push_str(&mut s, b);
    assert(s@ =~= a@ + b@);
    s
}

/// Concatenation of three string slices into a new `String`.
pub fn concat3(a: &str, b: &str, c: &str) -> (res: String)
    ensures
        res@ == a@ + b@ + c@,
{
    let mut s = String::new();
    push_str(&mut s, a);
    push_str(&mut s, b);
    push_str(&mut s, c);
    assert(s@ =~= a@ + b@ + c@);
    s
}

proof fn lemma_skip_skip(s: Seq<char>, i: int, k: int)
    requires
        0 <= i,
        0 <= k,
        i + k <= s.len(),
    ensures
        s.skip(i).skip(k) == s.skip(i + k),
{
    assert(s.skip(i).skip(k) =~= s.skip(i + k));
}

proof fn lemma_occurs_shift(s: Seq<char>, i: int, pat: Seq<char>)
    requires
        0 <= i <= s.len(),
    ensures
        occurs_at(s, i, pat) == occurs_at(s.skip(i), 0, pat),
{
    if i + pat.len() <= s.len() {
        assert(s.subrange(i, i + pat.len()) =~= s.skip(i).subrange(0, pat.len() as int));
    }
}

/// `str::replace` for a non-empty pattern: every leftmost, non-overlapping
/// occurrence of `pat` in `s` is replaced by `rep`.
pub fn replace_str(s: &str, pat: &str, rep: &str) -> (res: String)
    requires
        pat@.len() > 0,
    ensures
        res@ == replace_all(s@, pat@, rep@),
{
    let sc = chars_of(s);
    let pc = chars_of(pat);
    let mut res = String::new();
    let mut i: usize = 0;
    assert(sc@.skip(0) =~= sc@);
    while i < sc.len()
        invariant
            sc@ == s@,
            pc@ == pat@,
            pc@.len() > 0,
            i <= sc@.len(),
            res@ + replace_all(sc@.skip(i as int), pc@, rep@) == replace_all(s@, pat@, rep@),
        decreases sc@.len() - i,
    {
        let ghost rest = sc@.skip(i as int);
        proof {
            lemma_occurs_shift(sc@, i as int, pc@);
        }
        if occurs_at_exec(&sc, i, &pc) {
            proof {
                lemma_skip_skip(sc@, i as int, pc@.len() as int);
            }
            assert(replace_all(rest, pc@, rep@) == rep@ + replace_all(
                rest.skip(pc@.len() as int),
                pc@,
                rep@,
            ));
            let ghost before = res@;
            push_str(&mut res, rep);
            assert(before + (rep@ + replace_all(sc@.skip(i + pc@.len()), pc@, rep@)) =~= res@
                + replace_all(sc@.skip(i + pc@.len()), pc@, rep@));
            i = i + pc.len();
        } else {
            proof {
                lemma_skip_skip(sc@, i as int, 1);
            }
            assert(replace_all(rest, pc@, rep@) == seq![rest[0]] + replace_all(
                rest.skip(1),
                pc@,
                rep@,
            ));
            let ghost before = res@;
            push_char(&mut res, sc[i]);
            assert(before + (seq![rest[0]] + replace_all(rest.skip(1), pc@, rep@)) =~= res@
                + replace_all(sc@.skip(i + 1), pc@, rep@));
            i = i + 1;
        }
    }
    assert(sc@.skip(i as int) =~= Seq::<char>::empty());
    assert(res@ + Seq::<char>::empty() =~= res@);
    res
}

} // verus!
