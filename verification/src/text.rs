//! Character-level text utilities with exact specifications.
//!
//! Text is handled as sequences of `char`; every operation here is stated
//! over `Seq<char>` and proved against its executable counterpart.
use vstd::prelude::*;
use vstd::std_specs::iter::IteratorSpec;

verus! {

/// Unicode `White_Space` (the set `char::is_whitespace` and `str::trim` use).
pub open spec fn is_ws(c: char) -> bool {
    let u = c as u32;
    (0x9 <= u && u <= 0xd) || u == 0x20 || u == 0x85 || u == 0xa0 || u == 0x1680 || (0x2000 <= u
        && u <= 0x200a) || u == 0x2028 || u == 0x2029 || u == 0x202f || u == 0x205f || u == 0x3000
}

/// Which characters a stripping operation removes.
#[derive(Clone, Copy)]
pub enum CharClass {
    Whitespace,
    Exactly(char),
}

pub open spec fn in_class(k: CharClass, c: char) -> bool {
    match k {
        CharClass::Whitespace => is_ws(c),
        CharClass::Exactly(x) => c == x,
    }
}

pub fn class_contains(k: CharClass, c: char) -> (r: bool)
    ensures
        r == in_class(k, c),
{
    match k {
        CharClass::Whitespace => {
            let u = c as u32;
            (0x9 <= u && u <= 0xd) || u == 0x20 || u == 0x85 || u == 0xa0 || u == 0x1680 || (0x2000
                <= u && u <= 0x200a) || u == 0x2028 || u == 0x2029 || u == 0x202f || u == 0x205f
                || u == 0x3000
        },
        CharClass::Exactly(x) => c == x,
    }
}

/// Number of leading characters of `s` in class `k`.
pub open spec fn leading(s: Seq<char>, k: CharClass) -> nat
    decreases s.len(),
{
    if s.len() > 0 && in_class(k, s[0]) {
        1 + leading(s.drop_first(), k)
    } else {
        0
    }
}

/// Number of trailing characters of `s` in class `k`.
pub open spec fn trailing(s: Seq<char>, k: CharClass) -> nat
    decreases s.len(),
{
    if s.len() > 0 && in_class(k, s.last()) {
        1 + trailing(s.drop_last(), k)
    } else {
        0
    }
}

pub open spec fn strip_start(s: Seq<char>, k: CharClass) -> Seq<char> {
    s.skip(leading(s, k) as int)
}

pub open spec fn strip_end(s: Seq<char>, k: CharClass) -> Seq<char> {
    s.take(s.len() - trailing(s, k))
}

/// `s` without its leading and trailing characters of class `k`
/// (`str::trim` for whitespace, `str::trim_matches` for one character).
pub open spec fn strip(s: Seq<char>, k: CharClass) -> Seq<char> {
    strip_end(strip_start(s, k), k)
}

/// `str::trim`.
pub open spec fn trim(s: Seq<char>) -> Seq<char> {
    strip(s, CharClass::Whitespace)
}

pub proof fn lemma_leading(s: Seq<char>, k: CharClass, n: int)
    requires
        0 <= n <= s.len(),
        forall|j: int| 0 <= j < n ==> in_class(k, #[trigger] s[j]),
        n == s.len() || !in_class(k, s[n]),
    ensures
        leading(s, k) == n,
    decreases n,
{
    if n > 0 {
        lemma_leading(s.drop_first(), k, n - 1);
    }
}

pub proof fn lemma_trailing(s: Seq<char>, k: CharClass, n: int)
    requires
        0 <= n <= s.len(),
        forall|j: int| s.len() - n <= j < s.len() ==> in_class(k, #[trigger] s[j]),
        n == s.len() || !in_class(k, s[s.len() - n - 1]),
    ensures
        trailing(s, k) == n,
    decreases n,
{
    if n > 0 {
        let t = s.drop_last();
        assert forall|j: int| t.len() - (n - 1) <= j < t.len() implies in_class(k, #[trigger] t[j]) by {
            assert(t[j] == s[j]);
        }
        if n - 1 != t.len() {
            assert(t[t.len() - (n - 1) - 1] == s[s.len() - n - 1]);
        }
        lemma_trailing(t, k, n - 1);
    }
}

/// The index range `[lo, hi)` of `s` that `strip(s, k)` keeps.
pub fn strip_bounds(s: &[char], k: CharClass) -> (r: (usize, usize))
    ensures
        r.0 <= r.1 <= s@.len(),
        s@.subrange(r.0 as int, r.1 as int) == strip(s@, k),
{
    let n = s.len();
    let mut lo: usize = 0;
    while lo < n && class_contains(k, s[lo])
        invariant
            lo <= n,
            n == s@.len(),
            forall|j: int| 0 <= j < lo ==> in_class(k, #[trigger] s@[j]),
        decreases n - lo,
    {
        lo = lo + 1;
    }
    proof {
        lemma_leading(s@, k, lo as int);
    }
    let ghost t = s@.skip(lo as int);
    let mut hi: usize = n;
    while hi > lo && class_contains(k, s[hi - 1])
        invariant
            lo <= hi <= n,
            n == s@.len(),
            t == s@.skip(lo as int),
            forall|j: int| hi <= j < n ==> in_class(k, #[trigger] s@[j]),
        decreases hi,
    {
        hi = hi - 1;
    }
    proof {
        assert forall|j: int| t.len() - (n - hi) <= j < t.len() implies in_class(k, #[trigger] t[j]) by {
            assert(t[j] == s@[j + lo]);
        }
        if n - hi != t.len() {
            assert(t[t.len() - (n - hi) - 1] == s@[hi - 1]);
        }
        lemma_trailing(t, k, (n - hi) as int);
        assert(s@.subrange(lo as int, hi as int) =~= t.take(t.len() - (n - hi)));
    }
    (lo, hi)
}

/// A copy of `s[lo..hi]`.
pub fn slice_copy(s: &[char], lo: usize, hi: usize) -> (r: Vec<char>)
    requires
        lo <= hi <= s@.len(),
    ensures
        r@ == s@.subrange(lo as int, hi as int),
{
    let mut r: Vec<char> = Vec::new();
    let mut i = lo;
    while i < hi
        invariant
            lo <= i <= hi <= s@.len(),
            r@ == s@.subrange(lo as int, i as int),
        decreases hi - i,
    {
        r.push(s[i]);
        i = i + 1;
        assert(r@ =~= s@.subrange(lo as int, i as int));
    }
    r
}

/// `strip(s, k)` as a new vector.
pub fn strip_chars(s: &[char], k: CharClass) -> (r: Vec<char>)
    ensures
        r@ == strip(s@, k),
{
    let (lo, hi) = strip_bounds(s, k);
    slice_copy(s, lo, hi)
}

/// `str::trim`.
pub fn trim_chars(s: &[char]) -> (r: Vec<char>)
    ensures
        r@ == trim(s@),
{
    strip_chars(s, CharClass::Whitespace)
}


/// Index of the first `c` in `s`, or -1.
pub open spec fn find_char(s: Seq<char>, c: char) -> int
    decreases s.len(),
{
    if s.len() == 0 {
        -1
    } else if s[0] == c {
        0
    } else {
        let r = find_char(s.drop_first(), c);
        if r < 0 {
            -1
        } else {
            r + 1
        }
    }
}

pub proof fn lemma_find_char(s: Seq<char>, c: char, n: int)
    requires
        0 <= n <= s.len(),
        forall|j: int| 0 <= j < n ==> #[trigger] s[j] != c,
        n == s.len() || s[n] == c,
    ensures
        find_char(s, c) == (if n == s.len() { -1 } else { n }),
    decreases n,
{
    if n > 0 {
        lemma_find_char(s.drop_first(), c, n - 1);
    }
}

/// `str::split_once` with a character delimiter.
pub open spec fn split_once(s: Seq<char>, c: char) -> Option<(Seq<char>, Seq<char>)> {
    let i = find_char(s, c);
    if i < 0 {
        None
    } else {
        Some((s.take(i), s.skip(i + 1)))
    }
}

/// First index of `c` in `s`, if any.
pub fn find(s: &[char], c: char) -> (r: Option<usize>)
    ensures
        match r {
            Some(i) => i < s@.len() && find_char(s@, c) == i,
            None => find_char(s@, c) == -1,
        },
{
    let mut i: usize = 0;
    while i < s.len()
        invariant
            i <= s@.len(),
            forall|j: int| 0 <= j < i ==> #[trigger] s@[j] != c,
        decreases s@.len() - i,
    {
        if s[i] == c {
            proof {
                lemma_find_char(s@, c, i as int);
            }
            return Some(i);
        }
        i = i + 1;
    }
    proof {
        lemma_find_char(s@, c, i as int);
    }
    None
}

/// `str::split_once` with a character delimiter.
pub fn split_once_chars(s: &[char], c: char) -> (r: Option<(Vec<char>, Vec<char>)>)
    ensures
        match r {
            Some((a, b)) => split_once(s@, c) == Some((a@, b@)),
            None => split_once(s@, c) is None,
        },
{
    match find(s, c) {
        Some(i) => {
            assert(i < s.len());
            let a = slice_copy(s, 0, i);
            let b = slice_copy(s, i + 1, s.len());
            assert(a@ == s@.take(i as int));
            assert(b@ == s@.skip(i + 1));
            Some((a, b))
        },
        None => None,
    }
}

/// The pieces of `s` between occurrences of `c` (`str::split` with a
/// character delimiter); there is always at least one piece.
pub open spec fn split(s: Seq<char>, c: char) -> Seq<Seq<char>>
    decreases s.len(),
{
    if s.len() == 0 {
        seq![Seq::<char>::empty()]
    } else {
        let prev = split(s.drop_last(), c);
        if s.last() == c {
            prev.push(Seq::<char>::empty())
        } else {
            prev.update(prev.len() - 1, prev.last().push(s.last()))
        }
    }
}

pub proof fn lemma_split_nonempty(s: Seq<char>, c: char)
    ensures
        split(s, c).len() >= 1,
    decreases s.len(),
{
    if s.len() > 0 {
        lemma_split_nonempty(s.drop_last(), c);
    }
}

/// The views of a sequence of character vectors.
pub open spec fn views(v: Seq<Vec<char>>) -> Seq<Seq<char>> {
    v.map_values(|x: Vec<char>| x@)
}

/// `str::split` with a character delimiter.
pub fn split_chars(s: &[char], c: char) -> (r: Vec<Vec<char>>)
    ensures
        views(r@) == split(s@, c),
{
    let mut done: Vec<Vec<char>> = Vec::new();
    let mut cur: Vec<char> = Vec::new();
    let mut i: usize = 0;
    assert(s@.take(0) =~= Seq::<char>::empty());
    assert(views(done@).push(cur@) =~= split(s@.take(0), c));
    while i < s.len()
        invariant
            i <= s@.len(),
            views(done@).push(cur@) == split(s@.take(i as int), c),
        decreases s@.len() - i,
    {
        let ch = s[i];
        let ghost t = s@.take(i as int + 1);
        assert(t.drop_last() =~= s@.take(i as int));
        if ch == c {
            done.push(cur);
            cur = Vec::new();
            assert(views(done@).push(cur@) =~= split(t, c));
        } else {
            cur.push(ch);
            assert(views(done@).push(cur@) =~= split(t, c));
        }
        i = i + 1;
    }
    assert(s@.take(s@.len() as int) =~= s@);
    done.push(cur);
    assert(views(done@) =~= split(s@, c));
    done
}

/// `s` begins with `p`.
pub open spec fn starts_with(s: Seq<char>, p: Seq<char>) -> bool {
    p.len() <= s.len() && s.take(p.len() as int) == p
}

/// A text that begins with `p` does not begin with a `q` that differs from
/// `p` at a position both have.
pub proof fn lemma_prefix_excludes(s: Seq<char>, p: Seq<char>, q: Seq<char>, i: int)
    requires
        starts_with(s, p),
        0 <= i < p.len(),
        i < q.len(),
        p[i] != q[i],
    ensures
        !starts_with(s, q),
{
    if starts_with(s, q) {
        assert(s.take(p.len() as int)[i] == s[i]);
        assert(s.take(q.len() as int)[i] == s[i]);
    }
}

/// `s` ends with `p`.
pub open spec fn ends_with(s: Seq<char>, p: Seq<char>) -> bool {
    p.len() <= s.len() && s.skip(s.len() - p.len()) == p
}

/// `p` occurs in `s` at position `i`.
pub open spec fn occurs_at(s: Seq<char>, p: Seq<char>, i: int) -> bool {
    0 <= i && i + p.len() <= s.len() && s.subrange(i, i + p.len()) == p
}

/// `p` occurs somewhere in `s` (`str::contains`).
pub open spec fn contains(s: Seq<char>, p: Seq<char>) -> bool {
    exists|i: int| occurs_at(s, p, i)
}

/// `p` occurs in `s` at position `i`.
pub fn occurs_at_exec(s: &[char], p: &[char], i: usize) -> (r: bool)
    ensures
        r == occurs_at(s@, p@, i as int),
{
    if i > s.len() || p.len() > s.len() - i {
        return false;
    }
    let mut j: usize = 0;
    while j < p.len()
        invariant
            j <= p@.len(),
            i + p@.len() <= s@.len(),
            forall|k: int| 0 <= k < j ==> s@[i + k] == p@[k],
        decreases p@.len() - j,
    {
        assert(i + j < s.len());
        if s[i + j] != p[j] {
            assert(s@.subrange(i as int, i + p@.len())[j as int] != p@[j as int]);
            return false;
        }
        j = j + 1;
    }
    assert(s@.subrange(i as int, i + p@.len()) =~= p@);
    true
}

pub fn starts_with_chars(s: &[char], p: &[char]) -> (r: bool)
    ensures
        r == starts_with(s@, p@),
{
    occurs_at_exec(s, p, 0)
}

pub fn ends_with_chars(s: &[char], p: &[char]) -> (r: bool)
    ensures
        r == ends_with(s@, p@),
{
    if p.len() > s.len() {
        false
    } else {
        let r = occurs_at_exec(s, p, s.len() - p.len());
        assert(s@.subrange(s@.len() - p@.len(), s@.len() as int) =~= s@.skip(s@.len() - p@.len()));
        r
    }
}

pub fn contains_chars(s: &[char], p: &[char]) -> (r: bool)
    ensures
        r == contains(s@, p@),
{
    if p.len() > s.len() {
        return false;
    }
    let last = s.len() - p.len();
    let mut i: usize = 0;
    loop
        invariant
            i <= last,
            last == s@.len() - p@.len(),
            forall|k: int| 0 <= k < i ==> !occurs_at(s@, p@, k),
        decreases last - i,
    {
        if occurs_at_exec(s, p, i) {
            return true;
        }
        if i == last {
            assert forall|k: int| !occurs_at(s@, p@, k) by {
                if 0 <= k <= last {
                    assert(k < i || k == last);
                }
            }
            return false;
        }
        i = i + 1;
    }
}

pub fn starts_with_str(s: &[char], p: &str) -> (r: bool)
    ensures
        r == starts_with(s@, p@),
{
    let pc = chars_of(p);
    starts_with_chars(s, pc.as_slice())
}

pub fn ends_with_str(s: &[char], p: &str) -> (r: bool)
    ensures
        r == ends_with(s@, p@),
{
    let pc = chars_of(p);
    ends_with_chars(s, pc.as_slice())
}

pub fn contains_str(s: &[char], p: &str) -> (r: bool)
    ensures
        r == contains(s@, p@),
{
    let pc = chars_of(p);
    contains_chars(s, pc.as_slice())
}

/// `s` is exactly the text `p`.
pub fn eq_str(s: &[char], p: &str) -> (r: bool)
    ensures
        r == (s@ == p@),
{
    let pc = chars_of(p);
    if pc.len() != s.len() {
        return false;
    }
    let r = starts_with_chars(s, pc.as_slice());
    assert(s@.take(pc@.len() as int) =~= s@);
    r
}


/// `s` with every leading repetition of `p` removed (`str::trim_start_matches`
/// with a non-empty string pattern).
pub open spec fn strip_prefix_all(s: Seq<char>, p: Seq<char>) -> Seq<char>
    decreases s.len(),
{
    if p.len() > 0 && starts_with(s, p) {
        strip_prefix_all(s.skip(p.len() as int), p)
    } else {
        s
    }
}

/// `str::trim_start_matches` with a non-empty string pattern.
pub fn strip_prefix_all_chars(s: &[char], p: &str) -> (r: Vec<char>)
    ensures
        r@ == strip_prefix_all(s@, p@),
{
    let pc = chars_of(p);
    let mut i: usize = 0;
    if pc.len() == 0 {
        return slice_copy(s, 0, s.len());
    }
    assert(s@.skip(0) =~= s@);
    loop
        invariant
            i <= s@.len(),
            pc@ == p@,
            pc@.len() > 0,
            strip_prefix_all(s@.skip(i as int), p@) == strip_prefix_all(s@, p@),
        decreases s@.len() - i,
    {
        if pc.len() <= s.len() - i && occurs_at_exec(s, pc.as_slice(), i) {
            proof {
                let t = s@.skip(i as int);
                assert(t.take(pc@.len() as int) =~= s@.subrange(i as int, i + pc@.len()));
                assert(t.skip(pc@.len() as int) =~= s@.skip(i + pc@.len()));
            }
            i = i + pc.len();
        } else {
            proof {
                let t = s@.skip(i as int);
                if starts_with(t, p@) {
                    assert(t.take(pc@.len() as int) =~= s@.subrange(i as int, i + pc@.len()));
                }
            }
            return slice_copy(s, i, s.len());
        }
    }
}

/// `s` with every occurrence of `p` replaced by `r`, scanning left to right
/// without overlap (`str::replace` with a non-empty pattern).
pub open spec fn replace(s: Seq<char>, p: Seq<char>, r: Seq<char>) -> Seq<char>
    decreases s.len(),
{
    if s.len() == 0 || p.len() == 0 {
        s
    } else if starts_with(s, p) {
        r + replace(s.skip(p.len() as int), p, r)
    } else {
        seq![s[0]] + replace(s.drop_first(), p, r)
    }
}

/// `str::replace` with a non-empty pattern.
pub fn replace_chars(s: &[char], p: &str, r: &[char]) -> (out: Vec<char>)
    requires
        p@.len() > 0,
    ensures
        out@ == replace(s@, p@, r@),
{
    let pc = chars_of(p);
    let mut out: Vec<char> = Vec::new();
    let mut i: usize = 0;
    assert(s@.skip(0) =~= s@);
    assert(out@ + replace(s@, p@, r@) =~= replace(s@, p@, r@));
    while i < s.len()
        invariant
            i <= s@.len(),
            pc@ == p@,
            pc@.len() > 0,
            out@ + replace(s@.skip(i as int), p@, r@) == replace(s@, p@, r@),
        decreases s@.len() - i,
    {
        let ghost t = s@.skip(i as int);
        let ghost before = out@;
        if pc.len() <= s.len() - i && occurs_at_exec(s, pc.as_slice(), i) {
            let mut j: usize = 0;
            while j < r.len()
                invariant
                    j <= r@.len(),
                    out@ == before + r@.take(j as int),
                decreases r@.len() - j,
            {
                out.push(r[j]);
                j = j + 1;
                assert(out@ =~= before + r@.take(j as int));
            }
            proof {
                assert(t.take(pc@.len() as int) =~= s@.subrange(i as int, i + pc@.len()));
                assert(t.skip(pc@.len() as int) =~= s@.skip(i + pc@.len()));
                assert(r@.take(r@.len() as int) =~= r@);
                assert(out@ + replace(s@.skip(i + pc@.len()), p@, r@) =~= before + (r@ + replace(
                    t.skip(pc@.len() as int),
                    p@,
                    r@,
                )));
            }
            i = i + pc.len();
        } else {
            proof {
                if starts_with(t, p@) {
                    assert(t.take(pc@.len() as int) =~= s@.subrange(i as int, i + pc@.len()));
                }
                assert(t.drop_first() =~= s@.skip(i + 1));
            }
            out.push(s[i]);
            proof {
                assert(out@ + replace(s@.skip(i + 1), p@, r@) =~= before + (seq![t[0]] + replace(
                    t.drop_first(),
                    p@,
                    r@,
                )));
            }
            i = i + 1;
        }
    }
    assert(s@.skip(i as int) =~= Seq::<char>::empty());
    assert(out@ + Seq::<char>::empty() =~= out@);
    out
}

/// The character of decimal digit `d`.
pub open spec fn digit_char(d: nat) -> char {
    if d == 0 { '0' }
    else if d == 1 { '1' }
    else if d == 2 { '2' }
    else if d == 3 { '3' }
    else if d == 4 { '4' }
    else if d == 5 { '5' }
    else if d == 6 { '6' }
    else if d == 7 { '7' }
    else if d == 8 { '8' }
    else { '9' }
}

/// The decimal text of `n`, as `u64::to_string` writes it.
pub open spec fn decimal(n: nat) -> Seq<char>
    decreases n,
{
    if n < 10 {
        seq![digit_char(n)]
    } else {
        decimal(n / 10).push(digit_char(n % 10))
    }
}

/// The decimal text of `n` is digits that denote `n`, with no leading zero
/// but for `0` itself.
pub proof fn lemma_decimal_denotes(n: nat)
    ensures
        all_digits(decimal(n)),
        digits_value(decimal(n)) == n,
        decimal(n).len() > 0,
        decimal(n)[0] == '0' ==> n == 0,
    decreases n,
{
    let m = n % 10;
    assert(digit_value(digit_char(m)) == m && is_digit(digit_char(m))) by {
        assert(m < 10);
    }
    if n >= 10 {
        lemma_decimal_denotes(n / 10);
        let d = decimal(n);
        assert(d.drop_last() =~= decimal(n / 10));
        assert(d[0] == decimal(n / 10)[0]);
        assert(d.last() == digit_char(m));
        assert(digits_value(d) == digits_value(d.drop_last()) * 10 + digit_value(d.last()));
        assert(digits_value(d) == (n / 10) * 10 + m);
        assert((n / 10) * 10 + n % 10 == n) by (nonlinear_arith);
    } else {
        assert(m == n);
        assert(decimal(n).drop_last() =~= Seq::<char>::empty());
        assert(digits_value(decimal(n).drop_last()) == 0);
        assert(decimal(n).last() == digit_char(n));
    }
}

fn digit_char_exec(d: u64) -> (c: char)
    requires
        d < 10,
    ensures
        c == digit_char(d as nat),
{
    if d == 0 { '0' }
    else if d == 1 { '1' }
    else if d == 2 { '2' }
    else if d == 3 { '3' }
    else if d == 4 { '4' }
    else if d == 5 { '5' }
    else if d == 6 { '6' }
    else if d == 7 { '7' }
    else if d == 8 { '8' }
    else { '9' }
}

/// The decimal text of `n`.
pub fn decimal_chars(n: u64) -> (r: Vec<char>)
    ensures
        r@ == decimal(n as nat),
    decreases n,
{
    if n < 10 {
        let mut v: Vec<char> = Vec::new();
        v.push(digit_char_exec(n));
        assert(v@ =~= seq![digit_char(n as nat)]);
        v
    } else {
        let mut v = decimal_chars(n / 10);
        v.push(digit_char_exec(n % 10));
        v
    }
}

/// `c` is an ASCII decimal digit.
pub open spec fn is_digit(c: char) -> bool {
    '0' <= c && c <= '9'
}

pub open spec fn digit_value(c: char) -> nat {
    (c as u32 - '0' as u32) as nat
}

/// Every character of `s` is a decimal digit.
pub open spec fn all_digits(s: Seq<char>) -> bool {
    forall|i: int| 0 <= i < s.len() ==> is_digit(#[trigger] s[i])
}

/// The number that the decimal digits `s` denote.
pub open spec fn digits_value(s: Seq<char>) -> nat
    decreases s.len(),
{
    if s.len() == 0 {
        0
    } else {
        digits_value(s.drop_last()) * 10 + digit_value(s.last())
    }
}

/// The digits of an unsigned integer literal as `from_str` of an unsigned
/// integer type accepts it: an optional `+`, then one or more digits.
pub open spec fn unsigned_digits(s: Seq<char>) -> Option<Seq<char>> {
    let d = if s.len() > 0 && s[0] == '+' {
        s.drop_first()
    } else {
        s
    };
    if d.len() > 0 && all_digits(d) {
        Some(d)
    } else {
        None
    }
}

/// `str::parse` into an unsigned integer type whose largest value is `max`.
pub open spec fn parse_unsigned(s: Seq<char>, max: nat) -> Option<nat> {
    match unsigned_digits(s) {
        Some(d) => if digits_value(d) <= max {
            Some(digits_value(d))
        } else {
            None
        },
        None => None,
    }
}

pub proof fn lemma_digits_value_grows(d: Seq<char>, k: int)
    requires
        0 <= k <= d.len(),
        all_digits(d),
    ensures
        digits_value(d.take(k)) <= digits_value(d),
    decreases d.len() - k,
{
    if k < d.len() {
        lemma_digits_value_grows(d, k + 1);
        assert(d.take(k + 1).drop_last() =~= d.take(k));
    } else {
        assert(d.take(k) =~= d);
    }
}

/// `str::parse::<T>` for an unsigned integer type `T` whose largest value is
/// `max` (at most `u64::MAX`).
pub fn parse_unsigned_chars(s: &[char], max: u64) -> (r: Option<u64>)
    ensures
        match r {
            Some(v) => parse_unsigned(s@, max as nat) == Some(v as nat),
            None => parse_unsigned(s@, max as nat) is None,
        },
{
    let start: usize = if s.len() > 0 && s[0] == '+' { 1 } else { 0 };
    let ghost d = if s@.len() > 0 && s@[0] == '+' { s@.drop_first() } else { s@ };
    assert(d =~= s@.skip(start as int));
    if start == s.len() {
        assert(d.len() == 0);
        return None;
    }
    let mut v: u64 = 0;
    let mut i: usize = start;
    while i < s.len()
        invariant
            start <= i <= s@.len(),
            d == s@.skip(start as int),
            d == (if s@.len() > 0 && s@[0] == '+' { s@.drop_first() } else { s@ }),
            all_digits(d.take(i - start)),
            v as nat == digits_value(d.take(i - start)),
            v <= max,
        decreases s@.len() - i,
    {
        let c = s[i];
        let ghost k = i - start;
        assert(d[k] == c);
        if !('0' <= c && c <= '9') {
            assert(!is_digit(d[k]));
            assert(!all_digits(d));
            assert(unsigned_digits(s@) is None);
            return None;
        }
        let dv = (c as u32 - '0' as u32) as u64;
        assert(d.take(k + 1).drop_last() =~= d.take(k));
        assert(d.take(k + 1).last() == c);
        let big: u128 = (v as u128) * 10 + (dv as u128);
        assert(digits_value(d.take(k + 1)) == digits_value(d.take(k)) * 10 + digit_value(c));
        assert(digit_value(c) == dv);
        if big > max as u128 {
            proof {
                if all_digits(d) {
                    lemma_digits_value_grows(d, k + 1);
                    assert(unsigned_digits(s@) == Some(d));
                }
            }
            return None;
        }
        v = big as u64;
        i = i + 1;
        assert forall|j: int| 0 <= j < d.take(i - start).len() implies is_digit(
            #[trigger] d.take(i - start)[j],
        ) by {
            if j < k {
                assert(d.take(i - start)[j] == d.take(k)[j]);
            }
        }
    }
    assert(d.take(s@.len() - start) =~= d);
    Some(v)
}


/// Every character of `s` is a decimal digit.
pub fn all_digits_chars(s: &[char]) -> (r: bool)
    ensures
        r == all_digits(s@),
{
    let mut i: usize = 0;
    while i < s.len()
        invariant
            i <= s@.len(),
            forall|j: int| 0 <= j < i ==> is_digit(#[trigger] s@[j]),
        decreases s@.len() - i,
    {
        if !('0' <= s[i] && s[i] <= '9') {
            return false;
        }
        i = i + 1;
    }
    true
}

pub open spec fn is_sign(c: char) -> bool {
    c == '+' || c == '-'
}

/// `s` without one leading sign character.
pub open spec fn drop_sign(s: Seq<char>) -> Seq<char> {
    if s.len() > 0 && is_sign(s[0]) {
        s.drop_first()
    } else {
        s
    }
}

/// `c` equals the lowercase ASCII letter `l` up to ASCII case.
pub open spec fn eq_ignore_case(c: char, l: char) -> bool {
    c == l || c as u32 + 32 == l as u32
}

/// `s` spells the lowercase ASCII word `w`, ignoring ASCII case.
pub open spec fn spells(s: Seq<char>, w: Seq<char>) -> bool {
    s.len() == w.len() && forall|i: int| 0 <= i < s.len() ==> eq_ignore_case(#[trigger] s[i], w[i])
}

pub fn spells_exec(s: &[char], w: &[char]) -> (r: bool)
    ensures
        r == spells(s@, w@),
{
    if s.len() != w.len() {
        return false;
    }
    let mut i: usize = 0;
    while i < s.len()
        invariant
            i <= s@.len(),
            s@.len() == w@.len(),
            forall|j: int| 0 <= j < i ==> eq_ignore_case(#[trigger] s@[j], w@[j]),
        decreases s@.len() - i,
    {
        if !(s[i] == w[i] || (s[i] as u32 as u64) + 32 == (w[i] as u32 as u64)) {
            return false;
        }
        i = i + 1;
    }
    true
}

pub open spec fn is_exp_marker(c: char) -> bool {
    c == 'e' || c == 'E'
}

/// Index of the first exponent marker (`e` or `E`) in `s`, or -1.
pub open spec fn find_exp(s: Seq<char>) -> int
    decreases s.len(),
{
    if s.len() == 0 {
        -1
    } else if is_exp_marker(s[0]) {
        0
    } else {
        let r = find_exp(s.drop_first());
        if r < 0 {
            -1
        } else {
            r + 1
        }
    }
}

pub proof fn lemma_find_exp(s: Seq<char>, n: int)
    requires
        0 <= n <= s.len(),
        forall|j: int| 0 <= j < n ==> !is_exp_marker(#[trigger] s[j]),
        n == s.len() || is_exp_marker(s[n]),
    ensures
        find_exp(s) == (if n == s.len() { -1 } else { n }),
    decreases n,
{
    if n > 0 {
        lemma_find_exp(s.drop_first(), n - 1);
    }
}

/// The digits-and-point part of a decimal literal: `Digit+`,
/// `Digit+ '.' Digit*` or `Digit* '.' Digit+`.
pub open spec fn mantissa(m: Seq<char>) -> bool {
    let dot = find_char(m, '.');
    if dot < 0 {
        m.len() > 0 && all_digits(m)
    } else {
        m.len() > 1 && all_digits(m.take(dot)) && all_digits(m.skip(dot + 1))
    }
}

/// The part after an exponent marker: `Sign? Digit+`.
pub open spec fn exponent(x: Seq<char>) -> bool {
    drop_sign(x).len() > 0 && all_digits(drop_sign(x))
}

/// A decimal number: a mantissa, optionally followed by an exponent.
pub open spec fn decimal_number(b: Seq<char>) -> bool {
    let e = find_exp(b);
    if e < 0 {
        mantissa(b)
    } else {
        mantissa(b.take(e)) && exponent(b.skip(e + 1))
    }
}

/// The texts that `str::parse::<f64>` (and `::<f32>`) accept, as std
/// documents them: an optional sign, then `inf`, `infinity`, `nan` (in any
/// ASCII case) or a decimal number with an optional exponent.
pub open spec fn float_literal(s: Seq<char>) -> bool {
    let b = drop_sign(s);
    spells(b, seq!['i', 'n', 'f']) || spells(b, seq!['i', 'n', 'f', 'i', 'n', 'i', 't', 'y'])
        || spells(b, seq!['n', 'a', 'n']) || decimal_number(b)
}

fn mantissa_exec(m: &[char]) -> (r: bool)
    ensures
        r == mantissa(m@),
{
    match find(m, '.') {
        None => m.len() > 0 && all_digits_chars(m),
        Some(dot) => {
            assert(dot < m.len());
            let a = slice_copy(m, 0, dot);
            let c = slice_copy(m, dot + 1, m.len());
            assert(a@ == m@.take(dot as int));
            assert(c@ == m@.skip(dot + 1));
            m.len() > 1 && all_digits_chars(a.as_slice()) && all_digits_chars(c.as_slice())
        },
    }
}

fn exponent_exec(x: &[char]) -> (r: bool)
    ensures
        r == exponent(x@),
{
    let start: usize = if x.len() > 0 && (x[0] == '+' || x[0] == '-') { 1 } else { 0 };
    let y = slice_copy(x, start, x.len());
    assert(y@ == drop_sign(x@));
    y.len() > 0 && all_digits_chars(y.as_slice())
}

/// Whether `str::parse::<f64>` accepts `s`.
pub fn is_float_literal(s: &[char]) -> (r: bool)
    ensures
        r == float_literal(s@),
{
    let start: usize = if s.len() > 0 && (s[0] == '+' || s[0] == '-') { 1 } else { 0 };
    let b = slice_copy(s, start, s.len());
    assert(b@ == drop_sign(s@));
    let inf = ['i', 'n', 'f'];
    let infinity = ['i', 'n', 'f', 'i', 'n', 'i', 't', 'y'];
    let nan = ['n', 'a', 'n'];
    assert(inf@ == seq!['i', 'n', 'f']);
    assert(infinity@ == seq!['i', 'n', 'f', 'i', 'n', 'i', 't', 'y']);
    assert(nan@ == seq!['n', 'a', 'n']);
    if spells_exec(b.as_slice(), inf.as_slice()) || spells_exec(b.as_slice(), infinity.as_slice())
        || spells_exec(b.as_slice(), nan.as_slice()) {
        return true;
    }
    let mut e: usize = 0;
    while e < b.len() && !(b[e] == 'e' || b[e] == 'E')
        invariant
            e <= b@.len(),
            forall|j: int| 0 <= j < e ==> !is_exp_marker(#[trigger] b@[j]),
        decreases b@.len() - e,
    {
        e = e + 1;
    }
    proof {
        lemma_find_exp(b@, e as int);
    }
    if e == b.len() {
        mantissa_exec(b.as_slice())
    } else {
        let m = slice_copy(b.as_slice(), 0, e);
        let x = slice_copy(b.as_slice(), e + 1, b.len());
        assert(m@ == b@.take(e as int));
        assert(x@ == b@.skip(e + 1));
        mantissa_exec(m.as_slice()) && exponent_exec(x.as_slice())
    }
}


/// Appends the characters of `t` to `v`.
pub fn push_all(v: &mut Vec<char>, t: &[char])
    ensures
        final(v)@ == old(v)@ + t@,
{
    let ghost start = v@;
    let mut i: usize = 0;
    while i < t.len()
        invariant
            i <= t@.len(),
            v@ == start + t@.take(i as int),
        decreases t@.len() - i,
    {
        v.push(t[i]);
        i = i + 1;
        assert(v@ =~= start + t@.take(i as int));
    }
    assert(t@.take(t@.len() as int) =~= t@);
}

/// Appends the characters of `t` to `v`.
pub fn push_str(v: &mut Vec<char>, t: &str)
    ensures
        final(v)@ == old(v)@ + t@,
{
    let tc = chars_of(t);
    push_all(v, tc.as_slice());
}

/// `<w>x<h>`, the text of a resolution.
pub open spec fn resolution_text(w: nat, h: nat) -> Seq<char> {
    decimal(w) + seq!['x'] + decimal(h)
}

/// `<w>x<h>`, the text of a resolution.
pub fn resolution_string(w: u32, h: u32) -> (r: String)
    ensures
        r@ == resolution_text(w as nat, h as nat),
{
    let mut v = decimal_chars(w as u64);
    v.push('x');
    let hv = decimal_chars(h as u64);
    push_all(&mut v, hv.as_slice());
    string_of(v.as_slice())
}


/// `str::trim_end_matches` with one character: `s` without its trailing `c`s.
pub open spec fn strip_trailing(s: Seq<char>, c: char) -> Seq<char> {
    strip_end(s, CharClass::Exactly(c))
}

/// `str::trim_end_matches` with one character.
pub fn strip_trailing_chars(s: &[char], c: char) -> (r: Vec<char>)
    ensures
        r@ == strip_trailing(s@, c),
{
    let n = s.len();
    let mut hi: usize = n;
    while hi > 0 && s[hi - 1] == c
        invariant
            hi <= n,
            n == s@.len(),
            forall|j: int| hi <= j < n ==> in_class(CharClass::Exactly(c), #[trigger] s@[j]),
        decreases hi,
    {
        hi = hi - 1;
    }
    proof {
        if n - hi != n {
            assert(s@[s@.len() - (n - hi) - 1] == s@[hi - 1]);
        }
        lemma_trailing(s@, CharClass::Exactly(c), (n - hi) as int);
    }
    let r = slice_copy(s, 0, hi);
    assert(r@ =~= s@.take(s@.len() - trailing(s@, CharClass::Exactly(c))));
    r
}

/// `str::trim_start_matches` with one character: `s` without its leading `c`s.
pub open spec fn strip_leading(s: Seq<char>, c: char) -> Seq<char> {
    strip_start(s, CharClass::Exactly(c))
}

/// `str::trim_start_matches` with one character.
pub fn strip_leading_chars(s: &[char], c: char) -> (r: Vec<char>)
    ensures
        r@ == strip_leading(s@, c),
{
    let n = s.len();
    let mut lo: usize = 0;
    while lo < n && s[lo] == c
        invariant
            lo <= n,
            n == s@.len(),
            forall|j: int| 0 <= j < lo ==> in_class(CharClass::Exactly(c), #[trigger] s@[j]),
        decreases n - lo,
    {
        lo = lo + 1;
    }
    proof {
        lemma_leading(s@, CharClass::Exactly(c), lo as int);
    }
    slice_copy(s, lo, n)
}

/// Digits and at most one `.`, with at least one digit.
pub open spec fn plain_decimal(b: Seq<char>) -> bool {
    match split_once(b, '.') {
        Some((i, f)) => all_digits(i) && all_digits(f) && i.len() + f.len() > 0,
        None => b.len() > 0 && all_digits(b),
    }
}

/// Integer digits without leading zeros; `0` where none is left.
pub open spec fn integer_digits(i: Seq<char>) -> Seq<char> {
    let t = strip_leading(i, '0');
    if t.len() == 0 {
        seq!['0']
    } else {
        t
    }
}

/// A plain decimal written the way a number prints: no leading zeros, no
/// trailing zeros after the point, and no point before an empty fraction.
pub open spec fn plain_number(b: Seq<char>) -> Seq<char> {
    match split_once(b, '.') {
        Some((i, f)) => {
            let fr = strip_trailing(f, '0');
            if fr.len() == 0 {
                integer_digits(i)
            } else {
                integer_digits(i) + seq!['.'] + fr
            }
        },
        None => integer_digits(b),
    }
}

/// The text of a number as it prints: a signed plain decimal loses a `+`,
/// its leading zeros, its trailing fractional zeros and a bare point (so
/// `+025.500` is `25.5` and `-0.0` is `-0`); any other text stays as it is.
pub open spec fn number_text(t: Seq<char>) -> Seq<char> {
    let b = drop_sign(t);
    if plain_decimal(b) {
        (if t.len() > 0 && t[0] == '-' {
            seq!['-']
        } else {
            Seq::empty()
        }) + plain_number(b)
    } else {
        t
    }
}

fn integer_digits_chars(i: &[char]) -> (r: Vec<char>)
    ensures
        r@ == integer_digits(i@),
{
    let t = strip_leading_chars(i, '0');
    if t.len() == 0 {
        let mut z: Vec<char> = Vec::new();
        z.push('0');
        assert(z@ =~= seq!['0']);
        z
    } else {
        t
    }
}

/// The text of a number as it prints.
pub fn number_text_chars(t: &[char]) -> (r: Vec<char>)
    ensures
        r@ == number_text(t@),
{
    let signed = t.len() > 0 && (t[0] == '+' || t[0] == '-');
    let b = if signed {
        slice_copy(t, 1, t.len())
    } else {
        slice_copy(t, 0, t.len())
    };
    assert(b@ =~= drop_sign(t@));
    let mut out: Vec<char> = Vec::new();
    if t.len() > 0 && t[0] == '-' {
        out.push('-');
    }
    let ghost sign = out@;
    assert(sign =~= (if t@.len() > 0 && t@[0] == '-' {
        seq!['-']
    } else {
        Seq::<char>::empty()
    }));
    match split_once_chars(b.as_slice(), '.') {
        Some((i, f)) => {
            if !(all_digits_chars(i.as_slice()) && all_digits_chars(f.as_slice()) && (i.len() > 0
                || f.len() > 0)) {
                return slice_copy(t, 0, t.len());
            }
            let id = integer_digits_chars(i.as_slice());
            let fr = strip_trailing_chars(f.as_slice(), '0');
            push_all(&mut out, id.as_slice());
            if fr.len() > 0 {
                out.push('.');
                push_all(&mut out, fr.as_slice());
                assert(out@ =~= sign + (integer_digits(i@) + seq!['.'] + fr@));
            } else {
                assert(out@ =~= sign + integer_digits(i@));
            }
            out
        },
        None => {
            if !(b.len() > 0 && all_digits_chars(b.as_slice())) {
                return slice_copy(t, 0, t.len());
            }
            let id = integer_digits_chars(b.as_slice());
            push_all(&mut out, id.as_slice());
            assert(out@ =~= sign + integer_digits(b@));
            out
        },
    }
}

/// The characters of `s`, in order.
pub fn chars_of(s: &str) -> (r: Vec<char>)
    ensures
        r@ == s@,
{
    let mut r: Vec<char> = Vec::new();
    let mut it = s.chars();
    let ghost all = s@;
    broadcast use vstd::string::group_string_axioms;

    loop
        invariant
            it.remaining() == all.skip(r@.len() as int),
            r@ == all.take(r@.len() as int),
            r@.len() <= all.len(),
            all == s@,
        decreases all.len() - r@.len(),
    {
        match it.next() {
            Some(c) => {
                assert(all.skip(r@.len() as int).drop_first() == all.skip(r@.len() as int + 1));
                r.push(c);
                assert(r@ == all.take(r@.len() as int));
            },
            None => {
                assert(all.take(r@.len() as int) == all);
                return r;
            },
        }
    }
}

/// Collects characters into a `String` (std's `FromIterator<&char>` for
/// `String`, which appends each character in turn).
#[verifier::external_body]
pub(crate) fn string_of(cs: &[char]) -> (r: String)
    ensures
        r@ == cs@,
{
    cs.iter().collect()
}

} // verus!
