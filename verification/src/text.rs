//! Character-level text operations with their meaning stated over `Seq<char>`.

use vstd::prelude::*;

verus! {

/// The characters with the Unicode `White_Space` property, the set that
/// `char::is_whitespace` accepts.
pub open spec fn is_space(c: char) -> bool {
    ||| c == ' '
    ||| ('\t' <= c && c <= '\r')
    ||| c == '\u{85}'
    ||| c == '\u{a0}'
    ||| c == '\u{1680}'
    ||| ('\u{2000}' <= c && c <= '\u{200a}')
    ||| c == '\u{2028}'
    ||| c == '\u{2029}'
    ||| c == '\u{202f}'
    ||| c == '\u{205f}'
    ||| c == '\u{3000}'
}

/// Whether `c` is a white-space character.
pub fn char_is_space(c: char) -> (r: bool)
    ensures
        r == is_space(c),
{
    c == ' ' || ('\t' <= c && c <= '\r') || c == '\u{85}' || c == '\u{a0}' || c == '\u{1680}'
        || ('\u{2000}' <= c && c <= '\u{200a}') || c == '\u{2028}' || c == '\u{2029}'
        || c == '\u{202f}' || c == '\u{205f}' || c == '\u{3000}'
}

/// `s` without its leading white space.
pub open spec fn trim_start(s: Seq<char>) -> Seq<char>
    decreases s.len(),
{
    if s.len() > 0 && is_space(s[0]) {
        trim_start(s.drop_first())
    } else {
        s
    }
}

/// `s` without its trailing white space.
pub open spec fn trim_end(s: Seq<char>) -> Seq<char>
    decreases s.len(),
{
    if s.len() > 0 && is_space(s.last()) {
        trim_end(s.drop_last())
    } else {
        s
    }
}

/// `s` without leading and trailing white space, as `str::trim` gives it.
pub open spec fn trim(s: Seq<char>) -> Seq<char> {
    trim_end(trim_start(s))
}

/// The characters of `s`, in order.
pub fn chars_of(s: &str) -> (v: Vec<char>)
    ensures
        v@ == s@,
{
    let n = s.unicode_len();
    let mut v: Vec<char> = Vec::new();
    let mut i: usize = 0;
    while i < n
        invariant
            n == s@.len(),
            i <= n,
            v@ == s@.subrange(0, i as int),
        decreases n - i,
    {
        v.push(s.get_char(i));
        i = i + 1;
    }
    v
}

/// The number of bytes of `c` in UTF-8.
pub open spec fn utf8_width(c: char) -> nat {
    if (c as u32) < 0x80 {
        1
    } else if (c as u32) < 0x800 {
        2
    } else if (c as u32) < 0x10000 {
        3
    } else {
        4
    }
}

/// The number of bytes of `s` in UTF-8 (`str::len`).
pub open spec fn utf8_len(s: Seq<char>) -> nat
    decreases s.len(),
{
    if s.len() == 0 {
        0
    } else {
        utf8_len(s.drop_last()) + utf8_width(s.last())
    }
}

/// The number of bytes of `s` in UTF-8.
pub fn utf8_len_of(s: &str) -> (r: u128)
    ensures
        r == utf8_len(s@),
        r <= 4 * (usize::MAX as int),
{
    let v = chars_of(s);
    let n: usize = v.len();
    let mut total: u128 = 0;
    let mut i: usize = 0;
    while i < n
        invariant
            v@ == s@,
            n == v@.len(),
            i <= n,
            total == utf8_len(v@.subrange(0, i as int)),
            total <= 4 * i,
        decreases n - i,
    {
        let code = v[i] as u32;
        let w: u128 = if code < 0x80 {
            1
        } else if code < 0x800 {
            2
        } else if code < 0x10000 {
            3
        } else {
            4
        };
        assert(v@.subrange(0, i + 1).drop_last() =~= v@.subrange(0, i as int));
        total = total + w;
        i = i + 1;
    }
    assert(v@.subrange(0, v@.len() as int) =~= v@);
    total
}

/// A string that holds a copy of the text `s`.
pub fn owned(s: &str) -> (r: String)
    ensures
        r@ == s@,
{
    String::from_str(s)
}

/// `std`'s collection of characters into a `String`.
#[verifier::external_body]
pub(crate) fn string_of(v: &[char]) -> (s: String)
    ensures
        s@ == v@,
{
    v.iter().collect()
}

/// The bounds `(a, b)` such that `s[a..b]` is `s` trimmed.
pub fn trim_bounds(s: &[char]) -> (r: (usize, usize))
    ensures
        r.0 <= r.1 <= s@.len(),
        s@.subrange(r.0 as int, r.1 as int) == trim(s@),
        trim_start(s@) == s@.subrange(r.0 as int, s@.len() as int),
{
    let n = s.len();
    let mut a: usize = 0;
    assert(s@.subrange(0, n as int) =~= s@);
    while a < n && char_is_space(s[a])
        invariant
            a <= n,
            n == s@.len(),
            trim_start(s@) == trim_start(s@.subrange(a as int, n as int)),
        decreases n - a,
    {
        assert(s@.subrange(a as int, n as int).drop_first() =~= s@.subrange(a + 1, n as int));
        a = a + 1;
    }
    assert(trim_start(s@) == s@.subrange(a as int, n as int));
    let mut b: usize = n;
    while b > a && char_is_space(s[b - 1])
        invariant
            a <= b <= n,
            n == s@.len(),
            trim(s@) == trim_end(s@.subrange(a as int, b as int)),
        decreases b,
    {
        assert(s@.subrange(a as int, b as int).drop_last() =~= s@.subrange(a as int, b - 1));
        b = b - 1;
    }
    (a, b)
}

/// `s` trimmed, as `str::trim` gives it.
pub fn trim_str(s: &str) -> (r: String)
    ensures
        r@ == trim(s@),
{
    let v = chars_of(s);
    let (a, b) = trim_bounds(v.as_slice());
    string_of(slice_range(v.as_slice(), a, b))
}

/// The sub-slice `s[a..b]`.
pub fn slice_range(s: &[char], a: usize, b: usize) -> (r: &[char])
    requires
        a <= b <= s@.len(),
    ensures
        r@ == s@.subrange(a as int, b as int),
{
    let (left, _) = s.split_at(b);
    let (_, mid) = left.split_at(a);
    assert(left@.subrange(a as int, b as int) =~= s@.subrange(a as int, b as int));
    mid
}


/// `p` is a prefix of `s`.
pub open spec fn starts_with(s: Seq<char>, p: Seq<char>) -> bool {
    p.len() <= s.len() && s.subrange(0, p.len() as int) == p
}

/// `s` with the prefix `p` taken off, if `s` starts with it (`str::strip_prefix`).
pub open spec fn strip_prefix(s: Seq<char>, p: Seq<char>) -> Option<Seq<char>> {
    if starts_with(s, p) {
        Some(s.subrange(p.len() as int, s.len() as int))
    } else {
        None
    }
}

/// `p` occurs in `s` at position `i`.
pub open spec fn occurs_at(s: Seq<char>, p: Seq<char>, i: int) -> bool {
    0 <= i && i + p.len() <= s.len() && s.subrange(i, i + p.len()) == p
}

/// `p` occurs somewhere in `s` (`str::contains`).
pub open spec fn contains(s: Seq<char>, p: Seq<char>) -> bool {
    exists|i: int| occurs_at(s, p, i)
}

/// Every occurrence of the non-empty `pat` in `s`, taken from the left without
/// overlap, replaced by `rep` (`str::replace`).
pub open spec fn replace_all(s: Seq<char>, pat: Seq<char>, rep: Seq<char>) -> Seq<char>
    decreases s.len(),
{
    if pat.len() == 0 || s.len() < pat.len() {
        s
    } else if s.subrange(0, pat.len() as int) == pat {
        rep + replace_all(s.subrange(pat.len() as int, s.len() as int), pat, rep)
    } else {
        seq![s[0]] + replace_all(s.drop_first(), pat, rep)
    }
}

/// Trimming never lengthens a text, and shortens it when it starts or ends
/// with white space.
pub proof fn lemma_trim_shortens(s: Seq<char>)
    ensures
        trim_start(s).len() <= s.len(),
        trim_end(s).len() <= s.len(),
        s.len() > 0 && is_space(s[0]) ==> trim_start(s).len() < s.len(),
        s.len() > 0 && is_space(s.last()) ==> trim_end(s).len() < s.len(),
    decreases s.len(),
{
    if s.len() > 0 {
        lemma_trim_shortens(s.drop_first());
        lemma_trim_shortens(s.drop_last());
    }
}

/// A text that trimming leaves as it is neither starts nor ends with white
/// space.
pub proof fn lemma_trimmed_ends(s: Seq<char>)
    requires
        trim(s) == s,
        s.len() > 0,
    ensures
        !is_space(s[0]),
        !is_space(s.last()),
{
    lemma_trim_shortens(s);
    lemma_trim_shortens(trim_start(s));
    if is_space(s.last()) {
        if !is_space(s[0]) {
            assert(trim_start(s) == s);
        }
    }
}

/// Replacing a pattern that does not occur leaves the text as it is.
pub proof fn replace_absent_is_identity(s: Seq<char>, pat: Seq<char>, rep: Seq<char>)
    requires
        pat.len() > 0,
        !contains(s, pat),
    ensures
        replace_all(s, pat, rep) == s,
    decreases s.len(),
{
    if s.len() >= pat.len() {
        assert(!occurs_at(s, pat, 0));
        let t = s.drop_first();
        assert forall|i: int| !occurs_at(t, pat, i) by {
            if occurs_at(t, pat, i) {
                assert(s.subrange(i + 1, i + 1 + pat.len()) =~= t.subrange(i, i + pat.len()));
                assert(occurs_at(s, pat, i + 1));
            }
        }
        replace_absent_is_identity(t, pat, rep);
        assert(seq![s[0]] + t =~= s);
    }
}

/// Whether `p` occurs in `s` at position `i`.
pub fn occurs_at_exec(s: &[char], p: &[char], i: usize) -> (r: bool)
    ensures
        r == occurs_at(s@, p@, i as int),
{
    if i > s.len() || p.len() > s.len() - i {
        return false;
    }
    let mut k: usize = 0;
    while k < p.len()
        invariant
            i + p@.len() <= s@.len(),
            i + p@.len() <= s.len(),
            k <= p@.len(),
            forall|j: int| 0 <= j < k ==> s@[i + j] == p@[j],
        decreases p@.len() - k,
    {
        if s[i + k] != p[k] {
            assert(s@.subrange(i as int, i + p@.len())[k as int] != p@[k as int]);
            return false;
        }
        k = k + 1;
    }
    assert(s@.subrange(i as int, i + p@.len()) =~= p@);
    true
}

/// Whether `p` occurs in `s`.
pub fn contains_exec(s: &[char], p: &[char]) -> (r: bool)
    ensures
        r == contains(s@, p@),
{
    let n = s.len();
    let mut i: usize = 0;
    while i < n
        invariant
            n == s@.len(),
            i <= n,
            forall|j: int| 0 <= j < i ==> !occurs_at(s@, p@, j),
        decreases n - i,
    {
        if occurs_at_exec(s, p, i) {
            return true;
        }
        i = i + 1;
    }
    if occurs_at_exec(s, p, n) {
        return true;
    }
    assert forall|j: int| !occurs_at(s@, p@, j) by {
        if 0 <= j && j + p@.len() <= s@.len() {
            assert(j <= n);
        }
    }
    false
}

/// Whether the text `s` holds the text `p`.
pub fn str_contains(s: &str, p: &str) -> (r: bool)
    ensures
        r == contains(s@, p@),
{
    let sv = chars_of(s);
    let pv = chars_of(p);
    contains_exec(sv.as_slice(), pv.as_slice())
}

/// Whether `s` starts with `p`.
pub fn starts_with_exec(s: &[char], p: &[char]) -> (r: bool)
    ensures
        r == starts_with(s@, p@),
{
    occurs_at_exec(s, p, 0)
}

/// Appends the characters of `s` to `out`.
pub fn push_all(out: &mut Vec<char>, s: &[char])
    ensures
        final(out)@ == old(out)@ + s@,
{
    let mut i: usize = 0;
    while i < s.len()
        invariant
            i <= s@.len(),
            out@ == old(out)@ + s@.subrange(0, i as int),
        decreases s@.len() - i,
    {
        out.push(s[i]);
        i = i + 1;
        assert(out@ =~= old(out)@ + s@.subrange(0, i as int));
    }
    assert(s@.subrange(0, s@.len() as int) =~= s@);
}

/// `s` with every occurrence of the non-empty `pat` replaced by `rep`.
pub fn replace_all_exec(s: &[char], pat: &[char], rep: &[char]) -> (r: Vec<char>)
    requires
        pat@.len() > 0,
    ensures
        r@ == replace_all(s@, pat@, rep@),
{
    let n = s.len();
    let mut out: Vec<char> = Vec::new();
    let mut i: usize = 0;
    assert(s@.subrange(0, n as int) =~= s@);
    while i < n
        invariant
            n == s@.len(),
            i <= n,
            pat@.len() > 0,
            out@ + replace_all(s@.subrange(i as int, n as int), pat@, rep@) == replace_all(
                s@,
                pat@,
                rep@,
            ),
        decreases n - i,
    {
        let ghost rest = s@.subrange(i as int, n as int);
        if occurs_at_exec(s, pat, i) {
            assert(rest.subrange(0, pat@.len() as int) =~= s@.subrange(i as int, i + pat@.len()));
            assert(rest.subrange(pat@.len() as int, rest.len() as int) =~= s@.subrange(
                i + pat@.len(),
                n as int,
            ));
            push_all(&mut out, rep);
            i = i + pat.len();
        } else {
            proof {
                if rest.len() >= pat@.len() {
                    assert(rest.subrange(0, pat@.len() as int) =~= s@.subrange(
                        i as int,
                        i + pat@.len(),
                    ));
                }
                assert(rest.drop_first() =~= s@.subrange(i + 1, n as int));
                if rest.len() < pat@.len() {
                    assert(replace_all(rest, pat@, rep@) == rest);
                    assert(rest =~= seq![rest[0]] + rest.drop_first());
                    assert(replace_all(rest.drop_first(), pat@, rep@) == rest.drop_first());
                }
            }
            out.push(s[i]);
            i = i + 1;
        }
        assert(out@ + replace_all(s@.subrange(i as int, n as int), pat@, rep@) =~= replace_all(
            s@,
            pat@,
            rep@,
        ));
    }
    assert(out@ + replace_all(s@.subrange(n as int, n as int), pat@, rep@) =~= out@);
    out
}

/// The decimal digit for `d < 10`.
pub open spec fn digit(d: nat) -> char {
    ((48 + d) as u8) as char
}

/// The decimal notation of `n`, without sign or leading zeros.
pub open spec fn decimal(n: nat) -> Seq<char>
    decreases n,
{
    if n < 10 {
        seq![digit(n)]
    } else {
        decimal(n / 10).push(digit(n % 10))
    }
}

/// Appends the decimal notation of `n` to `out`.
pub fn push_decimal(out: &mut Vec<char>, n: u64)
    ensures
        final(out)@ == old(out)@ + decimal(n as nat),
    decreases n,
{
    if n >= 10 {
        push_decimal(out, n / 10);
    }
    let d: u8 = (n % 10) as u8;
    let c: char = (48u8 + d) as char;
    out.push(c);
    assert(out@ =~= old(out)@ + decimal(n as nat));
}


/// Position of the first character of `s` that satisfies `f`, or `s.len()`.
pub open spec fn first_index(s: Seq<char>, f: spec_fn(char) -> bool) -> int
    decreases s.len(),
{
    if s.len() == 0 {
        0
    } else if f(s[0]) {
        0
    } else {
        1 + first_index(s.drop_first(), f)
    }
}

/// `first_index` is the first position that satisfies `f`, and no other.
pub proof fn lemma_first_index(s: Seq<char>, f: spec_fn(char) -> bool)
    ensures
        0 <= first_index(s, f) <= s.len(),
        first_index(s, f) < s.len() ==> f(s[first_index(s, f)]),
        forall|j: int| 0 <= j < first_index(s, f) ==> !f(#[trigger] s[j]),
    decreases s.len(),
{
    if s.len() > 0 && !f(s[0]) {
        lemma_first_index(s.drop_first(), f);
        assert forall|j: int| 0 <= j < first_index(s, f) implies !f(#[trigger] s[j]) by {
            if j > 0 {
                assert(s[j] == s.drop_first()[j - 1]);
            }
        }
    }
}

/// A position that is the first to satisfy `f` (or the end) is `first_index`.
pub proof fn lemma_first_index_is(s: Seq<char>, f: spec_fn(char) -> bool, r: int)
    requires
        0 <= r <= s.len(),
        r < s.len() ==> f(s[r]),
        forall|j: int| 0 <= j < r ==> !f(#[trigger] s[j]),
    ensures
        first_index(s, f) == r,
{
    lemma_first_index(s, f);
    let k = first_index(s, f);
    if k < r {
        assert(!f(s[k]));
    } else if r < k {
        assert(!f(s[r]));
    }
}

/// The newline character.
pub open spec fn is_newline(c: char) -> bool {
    c == '\n'
}

/// A line without the carriage return that ends it, if any.
pub open spec fn strip_cr(l: Seq<char>) -> Seq<char> {
    if l.len() > 0 && l.last() == '\r' {
        l.drop_last()
    } else {
        l
    }
}

/// The lines of `s` as `str::lines` gives them: split after each `\n`, the
/// `\n` and a `\r` before it dropped, and no empty line after a final `\n`.
pub open spec fn lines(s: Seq<char>) -> Seq<Seq<char>>
    decreases s.len(),
{
    if s.len() == 0 {
        seq![]
    } else {
        let k = first_index(s, |c: char| is_newline(c));
        if k < 0 || k >= s.len() {
            seq![s]
        } else {
            seq![strip_cr(s.subrange(0, k))] + lines(s.subrange(k + 1, s.len() as int))
        }
    }
}

/// The position of the first character at or after `i` that is `c`, or `s.len()`.
pub fn find_char_from(s: &[char], c: char, i: usize) -> (r: usize)
    requires
        i <= s@.len(),
    ensures
        i <= r <= s@.len(),
        r == i + first_index(s@.subrange(i as int, s@.len() as int), |x: char| x == c),
{
    let n = s.len();
    let mut j: usize = i;
    while j < n && s[j] != c
        invariant
            n == s@.len(),
            i <= j <= n,
            forall|k: int| i <= k < j ==> s@[k] != c,
        decreases n - j,
    {
        j = j + 1;
    }
    proof {
        let t = s@.subrange(i as int, n as int);
        assert forall|k: int| 0 <= k < j - i implies !(|x: char| x == c)(#[trigger] t[k]) by {
            assert(t[k] == s@[i + k]);
        }
        lemma_first_index_is(t, |x: char| x == c, j - i);
    }
    j
}

/// The line of `s` that starts at `i < s.len()`: its bounds `(i, e)` and the
/// position `next` where the following lines start.
pub fn next_line(s: &[char], i: usize) -> (r: (usize, usize))
    requires
        i < s@.len(),
    ensures
        i <= r.0 <= r.1 <= s@.len(),
        r.1 > i,
        lines(s@.subrange(i as int, s@.len() as int)) == seq![
            s@.subrange(i as int, r.0 as int),
        ] + lines(s@.subrange(r.1 as int, s@.len() as int)),
{
    let n = s.len();
    let k = find_char_from(s, '\n', i);
    let ghost t = s@.subrange(i as int, n as int);
    proof {
        assert((|x: char| x == '\n') =~= (|c: char| is_newline(c)));
        lemma_first_index(t, |c: char| is_newline(c));
    }
    if k == n {
        assert(s@.subrange(n as int, n as int).len() == 0);
        assert(lines(s@.subrange(n as int, n as int)) =~= Seq::<Seq<char>>::empty());
        (n, n)
    } else {
        let e = if k > i && s[k - 1] == '\r' {
            k - 1
        } else {
            k
        };
        assert(t.subrange(0, k - i) =~= s@.subrange(i as int, k as int));
        assert(t.subrange(k - i + 1, t.len() as int) =~= s@.subrange(k + 1, n as int));
        assert(strip_cr(s@.subrange(i as int, k as int)) =~= s@.subrange(i as int, e as int));
        (e, k + 1)
    }
}

/// A line that holds more than white space.
pub open spec fn is_nonblank(l: Seq<char>) -> bool {
    trim(l).len() > 0
}

/// The first of `ls` that holds more than white space.
pub open spec fn find_nonblank(ls: Seq<Seq<char>>) -> Option<Seq<char>>
    decreases ls.len(),
{
    if ls.len() == 0 {
        None
    } else if is_nonblank(ls[0]) {
        Some(ls[0])
    } else {
        find_nonblank(ls.drop_first())
    }
}

/// `find_nonblank` answers the first line that holds more than white space,
/// and nothing exactly when there is none.
proof fn lemma_find_nonblank(ls: Seq<Seq<char>>)
    ensures
        find_nonblank(ls) is None <==> forall|j: int| 0 <= j < ls.len() ==> !is_nonblank(#[trigger] ls[j]),
        find_nonblank(ls) matches Some(l) ==> exists|j: int|
            0 <= j < ls.len() && #[trigger] ls[j] == l && is_nonblank(l) && forall|k: int|
                0 <= k < j ==> !is_nonblank(#[trigger] ls[k]),
    decreases ls.len(),
{
    if ls.len() > 0 {
        let rest = ls.drop_first();
        lemma_find_nonblank(rest);
        assert forall|j: int| 0 <= j < rest.len() implies rest[j] == ls[j + 1] by {}
        if !is_nonblank(ls[0]) {
            if find_nonblank(rest) is None {
                assert forall|j: int| 0 <= j < ls.len() implies !is_nonblank(#[trigger] ls[j]) by {
                    if j > 0 {
                        assert(ls[j] == rest[j - 1]);
                    }
                }
            } else {
                let l = find_nonblank(rest)->Some_0;
                let j = choose|j: int|
                    0 <= j < rest.len() && #[trigger] rest[j] == l && is_nonblank(l) && forall|k: int|
                        0 <= k < j ==> !is_nonblank(#[trigger] rest[k]);
                assert(ls[j + 1] == l);
                assert forall|k: int| 0 <= k < j + 1 implies !is_nonblank(#[trigger] ls[k]) by {
                    if k > 0 {
                        assert(ls[k] == rest[k - 1]);
                    }
                }
                assert(!is_nonblank(rest[j]) ==> false);
            }
        } else {
            assert(ls[0] == find_nonblank(ls)->Some_0);
        }
    }
}

/// The connection name taken from `nmcli`'s list is the first line that holds
/// more than white space, trimmed, so never empty; there is none exactly when
/// every line is blank.
pub proof fn connection_is_the_first_nonblank_line(s: Seq<char>)
    ensures
        first_nonblank_line(s) is None <==> forall|j: int|
            0 <= j < lines(s).len() ==> !is_nonblank(#[trigger] lines(s)[j]),
        first_nonblank_line(s) matches Some(c) ==> c.len() > 0 && exists|j: int|
            0 <= j < lines(s).len() && c == trim(#[trigger] lines(s)[j]) && forall|k: int|
                0 <= k < j ==> !is_nonblank(#[trigger] lines(s)[k]),
{
    lemma_find_nonblank(lines(s));
}

/// The first line of `s` that holds more than white space, trimmed (the name
/// that `nmcli -t -f NAME con show --active` lists first).
pub open spec fn first_nonblank_line(s: Seq<char>) -> Option<Seq<char>> {
    match find_nonblank(lines(s)) {
        Some(l) => Some(trim(l)),
        None => None,
    }
}

/// The first line of `s` that holds more than white space, trimmed.
pub fn first_nonblank_line_exec(s: &str) -> (r: Option<String>)
    ensures
        r matches Some(x) ==> first_nonblank_line(s@) == Some(x@),
        r is None ==> first_nonblank_line(s@) is None,
{
    let v = chars_of(s);
    let n = v.len();
    let mut i: usize = 0;
    assert(v@.subrange(0, n as int) =~= v@);
    while i < n
        invariant
            n == v@.len(),
            i <= n,
            v@ == s@,
            find_nonblank(lines(v@)) == find_nonblank(lines(v@.subrange(i as int, n as int))),
        decreases n - i,
    {
        let (e, next) = next_line(v.as_slice(), i);
        let line = slice_range(v.as_slice(), i, e);
        let (a, b) = trim_bounds(line);
        let ghost ls = lines(v@.subrange(i as int, n as int));
        assert(ls.drop_first() =~= lines(v@.subrange(next as int, n as int)));
        if a < b {
            assert(ls[0] == line@);
            assert(is_nonblank(line@));
            let out = string_of(slice_range(line, a, b));
            assert(find_nonblank(ls) == Some(line@));
            assert(find_nonblank(lines(v@)) == Some(line@));
            assert(v@ == s@);
            assert(first_nonblank_line(s@) == Some(trim(line@)));
            return Some(out);
        }
        assert(!is_nonblank(ls[0]));
        i = next;
    }
    assert(lines(v@.subrange(n as int, n as int)) =~= Seq::<Seq<char>>::empty());
    None
}


/// `trim_start` takes off a prefix made of white space.
pub proof fn lemma_trim_start(s: Seq<char>)
    ensures
        trim_start(s).len() <= s.len(),
        trim_start(s) == s.subrange(s.len() - trim_start(s).len(), s.len() as int),
        trim_start(s).len() > 0 ==> !is_space(trim_start(s)[0]),
    decreases s.len(),
{
    if s.len() > 0 && is_space(s[0]) {
        lemma_trim_start(s.drop_first());
        assert(trim_start(s) =~= s.subrange(s.len() - trim_start(s).len(), s.len() as int));
    } else {
        assert(s.subrange(0, s.len() as int) =~= s);
    }
}

/// The white-space separated words of `s`, as `str::split_whitespace` gives them.
pub open spec fn words(s: Seq<char>) -> Seq<Seq<char>>
    decreases s.len(),
{
    let t = trim_start(s);
    if t.len() == 0 || t.len() > s.len() {
        seq![]
    } else {
        let k = first_index(t, |c: char| is_space(c));
        if k <= 0 || k > t.len() {
            seq![t]
        } else {
            seq![t.subrange(0, k)] + words(t.subrange(k, t.len() as int))
        }
    }
}

/// The position of the first white-space character at or after `i`, or `s.len()`.
pub fn find_space_from(s: &[char], i: usize) -> (r: usize)
    requires
        i <= s@.len(),
    ensures
        i <= r <= s@.len(),
        r == i + first_index(s@.subrange(i as int, s@.len() as int), |c: char| is_space(c)),
{
    let n = s.len();
    let mut j: usize = i;
    while j < n && !char_is_space(s[j])
        invariant
            n == s@.len(),
            i <= j <= n,
            forall|k: int| i <= k < j ==> !is_space(s@[k]),
        decreases n - j,
    {
        j = j + 1;
    }
    proof {
        let t = s@.subrange(i as int, n as int);
        assert forall|k: int| 0 <= k < j - i implies !(|c: char| is_space(c))(#[trigger] t[k]) by {
            assert(t[k] == s@[i + k]);
        }
        lemma_first_index_is(t, |c: char| is_space(c), j - i);
    }
    j
}

/// The bounds of the word of `s` at position `n` of `split_whitespace`, if `s`
/// has that many words.
pub fn nth_word(s: &[char], n: usize) -> (r: Option<(usize, usize)>)
    ensures
        r matches Some(b) ==> b.0 <= b.1 <= s@.len() && words(s@).len() > n && words(s@)[n as int]
            == s@.subrange(b.0 as int, b.1 as int),
        r is None ==> words(s@).len() <= n,
{
    let len = s.len();
    let mut i: usize = 0;
    let mut count: usize = 0;
    let ghost mut seen: Seq<Seq<char>> = seq![];
    assert(s@.subrange(0, len as int) =~= s@);
    while count <= n
        invariant
            len == s@.len(),
            i <= len,
            seen.len() == count,
            count <= n,
            words(s@) == seen + words(s@.subrange(i as int, len as int)),
        decreases len - i,
    {
        let sub = slice_range(s, i, len);
        let (a0, _) = trim_bounds(sub);
        let a = i + a0;
        let ghost t = trim_start(sub@);
        proof {
            lemma_trim_start(sub@);
        }
        if a == len {
            assert(t.len() == 0);
            assert(words(sub@) =~= Seq::<Seq<char>>::empty());
            assert(words(s@) =~= seen);
            return None;
        }
        let b = find_space_from(s, a);
        proof {
            assert(t =~= s@.subrange(a as int, len as int));
            lemma_first_index(t, |c: char| is_space(c));
            assert(!is_space(t[0]));
            let k = first_index(t, |c: char| is_space(c));
            assert(k == b - a);
            assert(t.subrange(0, k) =~= s@.subrange(a as int, b as int));
            assert(t.subrange(k, t.len() as int) =~= s@.subrange(b as int, len as int));
            assert(words(sub@) == seq![s@.subrange(a as int, b as int)] + words(
                s@.subrange(b as int, len as int),
            ));
        }
        if count == n {
            assert(words(s@)[n as int] == s@.subrange(a as int, b as int));
            return Some((a, b));
        }
        proof {
            seen = seen.push(s@.subrange(a as int, b as int));
            assert(words(s@) =~= seen + words(s@.subrange(b as int, len as int)));
        }
        count = count + 1;
        i = b;
    }
    None
}

/// The colon character.
pub open spec fn is_colon(c: char) -> bool {
    c == ':'
}

/// The second of the `:`-separated fields of `s`, as `s.split(':').nth(1)`
/// gives it: `None` when `s` holds no `:`.
pub open spec fn second_field(s: Seq<char>) -> Option<Seq<char>> {
    let i = first_index(s, |c: char| is_colon(c));
    if i >= s.len() {
        None
    } else {
        let rest = s.subrange(i + 1, s.len() as int);
        Some(rest.subrange(0, first_index(rest, |c: char| is_colon(c))))
    }
}

/// The bounds of the second `:`-separated field of `s`.
pub fn second_field_exec(s: &[char]) -> (r: Option<(usize, usize)>)
    ensures
        r matches Some(b) ==> b.0 <= b.1 <= s@.len() && second_field(s@) == Some(
            s@.subrange(b.0 as int, b.1 as int),
        ),
        r is None ==> second_field(s@) is None,
{
    let n = s.len();
    let i = find_char_from(s, ':', 0);
    let ghost f = |c: char| is_colon(c);
    proof {
        assert((|x: char| x == ':') =~= f);
        assert(s@.subrange(0, n as int) =~= s@);
        assert(first_index(s@, f) == i);
    }
    if i == n {
        return None;
    }
    let j = find_char_from(s, ':', i + 1);
    proof {
        let rest = s@.subrange(i + 1, n as int);
        assert(first_index(rest, f) == j - i - 1);
        assert(rest.subrange(0, j - i - 1) =~= s@.subrange(i + 1, j as int));
        assert(second_field(s@) == Some(rest.subrange(0, j - i - 1)));
    }
    Some((i + 1, j))
}

/// `value` made safe inside double quotes: each backslash doubled, then each
/// double quote preceded by a backslash.
pub open spec fn escape_quoted(value: Seq<char>) -> Seq<char> {
    replace_all(replace_all(value, seq!['\\'], seq!['\\', '\\']), seq!['"'], seq!['\\', '"'])
}

/// `value` with backslashes doubled and double quotes escaped.
pub fn escape_for_shell(value: &str) -> (r: String)
    ensures
        r@ == escape_quoted(value@),
{
    let v = chars_of(value);
    let backslash = vec!['\\'];
    let backslash2 = vec!['\\', '\\'];
    let quote = vec!['"'];
    let quote_escaped = vec!['\\', '"'];
    assert(backslash@ =~= seq!['\\']);
    assert(backslash2@ =~= seq!['\\', '\\']);
    assert(quote@ =~= seq!['"']);
    assert(quote_escaped@ =~= seq!['\\', '"']);
    let step = replace_all_exec(v.as_slice(), backslash.as_slice(), backslash2.as_slice());
    let out = replace_all_exec(step.as_slice(), quote.as_slice(), quote_escaped.as_slice());
    string_of(out.as_slice())
}


/// The decimal notation of `n`.
pub fn decimal_string(n: u64) -> (r: String)
    ensures
        r@ == decimal(n as nat),
{
    let mut v: Vec<char> = Vec::new();
    push_decimal(&mut v, n);
    assert(v@ =~= decimal(n as nat));
    string_of(v.as_slice())
}


/// How a shell reads the text between double quotes, as far as quotes and
/// backslashes go: a backslash makes the next character literal, and a bare
/// double quote (or a backslash with nothing after it) would end the quoted
/// text early, which reads as `None`. (`$` and backquotes are not modelled.)
pub open spec fn dq_decode(t: Seq<char>) -> Option<Seq<char>>
    decreases t.len(),
{
    if t.len() == 0 {
        Some(seq![])
    } else if t[0] == '\\' {
        if t.len() < 2 {
            None
        } else {
            match dq_decode(t.subrange(2, t.len() as int)) {
                Some(r) => Some(seq![t[1]] + r),
                None => None,
            }
        }
    } else if t[0] == '"' {
        None
    } else {
        match dq_decode(t.drop_first()) {
            Some(r) => Some(seq![t[0]] + r),
            None => None,
        }
    }
}

/// Replacing a single character works character by character.
proof fn lemma_replace_char_first(s: Seq<char>, c: char, r: Seq<char>)
    requires
        s.len() > 0,
    ensures
        replace_all(s, seq![c], r) == (if s[0] == c {
            r
        } else {
            seq![s[0]]
        }) + replace_all(s.drop_first(), seq![c], r),
{
    assert(s.subrange(1, s.len() as int) =~= s.drop_first());
    if s[0] == c {
        assert(s.subrange(0, 1) =~= seq![c]);
    } else {
        assert(s.subrange(0, 1) != seq![c]) by {
            assert(s.subrange(0, 1)[0] == s[0]);
        }
    }
}

/// Replacing a single character distributes over concatenation.
proof fn lemma_replace_char_concat(a: Seq<char>, b: Seq<char>, c: char, r: Seq<char>)
    ensures
        replace_all(a + b, seq![c], r) == replace_all(a, seq![c], r) + replace_all(b, seq![c], r),
    decreases a.len(),
{
    if a.len() == 0 {
        assert(a + b =~= b);
        assert(replace_all(a, seq![c], r) =~= Seq::<char>::empty());
    } else {
        lemma_replace_char_first(a + b, c, r);
        lemma_replace_char_first(a, c, r);
        assert((a + b).drop_first() =~= a.drop_first() + b);
        lemma_replace_char_concat(a.drop_first(), b, c, r);
        assert((a + b)[0] == a[0]);
    }
}

/// The escape of one character.
pub open spec fn escape_char(c: char) -> Seq<char> {
    if c == '\\' {
        seq!['\\', '\\']
    } else if c == '"' {
        seq!['\\', '"']
    } else {
        seq![c]
    }
}

/// `escape_quoted` escapes character by character.
proof fn lemma_escape_first(s: Seq<char>)
    requires
        s.len() > 0,
    ensures
        escape_quoted(s) == escape_char(s[0]) + escape_quoted(s.drop_first()),
{
    let bs = seq!['\\'];
    let q = seq!['"'];
    lemma_replace_char_first(s, '\\', seq!['\\', '\\']);
    let head = if s[0] == '\\' {
        seq!['\\', '\\']
    } else {
        seq![s[0]]
    };
    let tail = replace_all(s.drop_first(), bs, seq!['\\', '\\']);
    lemma_replace_char_concat(head, tail, '"', seq!['\\', '"']);
    if s[0] == '\\' {
        lemma_replace_char_first(head, '"', seq!['\\', '"']);
        lemma_replace_char_first(head.drop_first(), '"', seq!['\\', '"']);
        assert(head.drop_first().drop_first() =~= Seq::<char>::empty());
        assert(replace_all(head.drop_first().drop_first(), q, seq!['\\', '"']) =~= Seq::<char>::empty());
        assert(replace_all(head, q, seq!['\\', '"']) =~= seq!['\\', '\\']);
    } else {
        lemma_replace_char_first(head, '"', seq!['\\', '"']);
        assert(head.drop_first() =~= Seq::<char>::empty());
        assert(replace_all(head.drop_first(), q, seq!['\\', '"']) =~= Seq::<char>::empty());
        if s[0] == '"' {
            assert(replace_all(head, q, seq!['\\', '"']) =~= seq!['\\', '"']);
        } else {
            assert(replace_all(head, q, seq!['\\', '"']) =~= seq![s[0]]);
        }
    }
}

/// A value escaped by `escape_for_shell` and put between double quotes reads
/// back as the value itself: no character of it can end the quotes.
pub proof fn escaped_value_reads_back(s: Seq<char>)
    ensures
        dq_decode(escape_quoted(s)) == Some(s),
    decreases s.len(),
{
    if s.len() == 0 {
        assert(escape_quoted(s) =~= Seq::<char>::empty()) by {
            assert(replace_all(s, seq!['\\'], seq!['\\', '\\']) == s);
        }
    } else {
        lemma_escape_first(s);
        escaped_value_reads_back(s.drop_first());
        let rest = escape_quoted(s.drop_first());
        let t = escape_char(s[0]) + rest;
        if s[0] == '\\' || s[0] == '"' {
            assert(t.subrange(2, t.len() as int) =~= rest);
        } else {
            assert(t.drop_first() =~= rest);
        }
        assert(seq![s[0]] + s.drop_first() =~= s);
    }
}

} // verus!
