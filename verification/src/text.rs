use vstd::prelude::*;
use vstd::std_specs::iter::IteratorSpec;

verus! {

broadcast use vstd::string::group_string_axioms;

/// Whether `c` has the Unicode `White_Space` property, which is what
/// `char::is_whitespace` and the `trim` family of `str` go by.
pub open spec fn is_ws(c: char) -> bool {
    ||| ('\u{9}' <= c && c <= '\u{d}')
    ||| c == ' '
    ||| c == '\u{85}'
    ||| c == '\u{a0}'
    ||| c == '\u{1680}'
    ||| ('\u{2000}' <= c && c <= '\u{200a}')
    ||| c == '\u{2028}'
    ||| c == '\u{2029}'
    ||| c == '\u{202f}'
    ||| c == '\u{205f}'
    ||| c == '\u{3000}'
}

/// `s` without its leading whitespace.
pub open spec fn trim_start(s: Seq<char>) -> Seq<char>
    decreases s.len(),
{
    if s.len() > 0 && is_ws(s[0]) {
        trim_start(s.drop_first())
    } else {
        s
    }
}

/// `s` without its trailing whitespace.
pub open spec fn trim_end(s: Seq<char>) -> Seq<char>
    decreases s.len(),
{
    if s.len() > 0 && is_ws(s.last()) {
        trim_end(s.drop_last())
    } else {
        s
    }
}

/// `s` without leading and trailing whitespace.
pub open spec fn trim(s: Seq<char>) -> Seq<char> {
    trim_end(trim_start(s))
}

/// `s` without any leading `c`.
pub open spec fn trim_start_char(s: Seq<char>, c: char) -> Seq<char>
    decreases s.len(),
{
    if s.len() > 0 && s[0] == c {
        trim_start_char(s.drop_first(), c)
    } else {
        s
    }
}

/// `s` without any trailing `c`.
pub open spec fn trim_end_char(s: Seq<char>, c: char) -> Seq<char>
    decreases s.len(),
{
    if s.len() > 0 && s.last() == c {
        trim_end_char(s.drop_last(), c)
    } else {
        s
    }
}

/// `s` without every leading repetition of the (non-empty) pattern `p`.
pub open spec fn trim_start_pattern(s: Seq<char>, p: Seq<char>) -> Seq<char>
    decreases s.len(),
{
    if p.len() > 0 && starts_with(s, p) {
        trim_start_pattern(s.skip(p.len() as int), p)
    } else {
        s
    }
}

/// Whether `s` begins with `p`.
pub open spec fn starts_with(s: Seq<char>, p: Seq<char>) -> bool {
    p.len() <= s.len() && s.take(p.len() as int) =~= p
}

/// Whether `p` occurs in `s` starting at position `i`.
pub open spec fn occurs_at(s: Seq<char>, p: Seq<char>, i: int) -> bool {
    0 <= i && i + p.len() <= s.len() && s.subrange(i, i + p.len()) =~= p
}

/// Whether `p` occurs anywhere in `s` (the empty pattern occurs in every string).
pub open spec fn contains(s: Seq<char>, p: Seq<char>) -> bool {
    exists|i: int| occurs_at(s, p, i)
}

/// The first position at or after `i` where `p` occurs in `s`.
pub open spec fn find_from(s: Seq<char>, p: Seq<char>, i: nat) -> Option<nat>
    decreases s.len() + 1 - i,
{
    if i > s.len() {
        None
    } else if occurs_at(s, p, i as int) {
        Some(i)
    } else {
        find_from(s, p, i + 1)
    }
}

/// The first position where `p` occurs in `s`.
pub open spec fn find(s: Seq<char>, p: Seq<char>) -> Option<nat> {
    find_from(s, p, 0)
}

/// The last position below `n` where `p` occurs in `s`.
pub open spec fn rfind_below(s: Seq<char>, p: Seq<char>, n: nat) -> Option<nat>
    decreases n,
{
    if n == 0 {
        None
    } else if occurs_at(s, p, n - 1) {
        Some((n - 1) as nat)
    } else {
        rfind_below(s, p, (n - 1) as nat)
    }
}

/// The last position where `p` occurs in `s`.
pub open spec fn rfind(s: Seq<char>, p: Seq<char>) -> Option<nat> {
    rfind_below(s, p, s.len() + 1)
}

/// A line as `str::lines` yields it: the `\n` that ends it is gone, and so is
/// a `\r` just before that `\n`.
pub open spec fn strip_cr(l: Seq<char>) -> Seq<char> {
    if l.len() > 0 && l.last() == '\r' {
        l.drop_last()
    } else {
        l
    }
}

/// The lines of `s`, as `str::lines` yields them: split after each `\n`,
/// no empty line after a final `\n`, and each line without its line ending.
pub open spec fn lines(s: Seq<char>) -> Seq<Seq<char>>
    decreases s.len(),
{
    if s.len() == 0 {
        seq![]
    } else {
        match find(s, seq!['\n']) {
            Some(i) => if i < s.len() {
                seq![strip_cr(s.take(i as int))] + lines(s.skip(i + 1 as int))
            } else {
                seq![s]
            },
            None => seq![s],
        }
    }
}

/// The strings of `ls` with `sep` between each two.
pub open spec fn join(ls: Seq<Seq<char>>, sep: Seq<char>) -> Seq<char>
    decreases ls.len(),
{
    if ls.len() == 0 {
        seq![]
    } else if ls.len() == 1 {
        ls[0]
    } else {
        join(ls.drop_last(), sep) + sep + ls.last()
    }
}

/// Joining one more string.
pub proof fn lemma_join_take(ls: Seq<Seq<char>>, sep: Seq<char>, i: int)
    requires
        0 <= i < ls.len(),
    ensures
        join(ls.take(i + 1), sep) == if i == 0 {
            ls[0]
        } else {
            join(ls.take(i), sep) + sep + ls[i]
        },
{
    assert(ls.take(i + 1).drop_last() =~= ls.take(i));
}

/// The decimal digit for `d`, which is below ten.
pub open spec fn digit(d: nat) -> char {
    if d == 0 { '0' }
    else if d == 1 { '1' }
    else if d == 2 { '2' }
    else if d == 3 { '3' }
    else if d == 4 { '4' }
    else if d == 5 { '5' }
    else if d == 6 { '6' }
    else if d == 7 { '7' }
    else if d == 8 { '8' }
    else { '9' }
}

/// `n` written in decimal, as `Display` writes an unsigned integer.
pub open spec fn decimal(n: nat) -> Seq<char>
    decreases n,
{
    if n < 10 {
        seq![digit(n)]
    } else {
        decimal(n / 10).push(digit(n % 10))
    }
}

/// The number that a string of decimal digits stands for.
pub open spec fn digits_value(s: Seq<char>) -> int
    decreases s.len(),
{
    if s.len() == 0 {
        0
    } else {
        digits_value(s.drop_last()) * 10 + (s.last() as int - '0' as int)
    }
}

/// Writing `n` in decimal gives digits only, with no leading zero except for
/// zero itself, and those digits stand for `n`.
pub proof fn law_decimal_reads_back(n: nat)
    ensures
        decimal(n).len() > 0,
        forall|i: int| 0 <= i < decimal(n).len() ==> '0' <= #[trigger] decimal(n)[i] <= '9',
        decimal(n)[0] == '0' ==> n == 0,
        digits_value(decimal(n)) == n,
    decreases n,
{
    if n < 10 {
        assert(decimal(n) == seq![digit(n)]);
        assert(seq![digit(n)].drop_last() =~= Seq::<char>::empty());
        assert(digit(n) as int - '0' as int == n);
        assert(digits_value(Seq::<char>::empty()) == 0);
        assert(digits_value(seq![digit(n)]) == digits_value(seq![digit(n)].drop_last()) * 10 + (
        digit(n) as int - '0' as int));
    } else {
        law_decimal_reads_back(n / 10);
        let d = decimal(n / 10);
        assert(decimal(n) == d.push(digit(n % 10)));
        assert(d.push(digit(n % 10)).drop_last() =~= d);
        assert(digit(n % 10) as int - '0' as int == n % 10);
        assert(n == (n / 10) * 10 + n % 10);
        assert(digits_value(d.push(digit(n % 10))) == digits_value(d) * 10 + (digit(n % 10) as int
            - '0' as int));
        assert forall|i: int| 0 <= i < decimal(n).len() implies '0' <= #[trigger] decimal(n)[i]
            <= '9' by {
            if i < d.len() {
                assert(decimal(n)[i] == d[i]);
            }
        }
        assert(decimal(n)[0] == d[0]);
        assert(n / 10 > 0);
    }
}

/// `b` as `Display` writes it.
pub open spec fn bool_text(b: bool) -> Seq<char> {
    if b { "true"@ } else { "false"@ }
}

// ---------------------------------------------------------------------------
// Lemmas

pub proof fn lemma_find_from(s: Seq<char>, p: Seq<char>, i: nat)
    ensures
        match find_from(s, p, i) {
            Some(k) => i <= k && occurs_at(s, p, k as int)
                && forall|j: int| i <= j < k ==> !occurs_at(s, p, j),
            None => forall|j: int| i <= j ==> !occurs_at(s, p, j),
        },
    decreases s.len() + 1 - i,
{
    if i > s.len() {
    } else if occurs_at(s, p, i as int) {
    } else {
        lemma_find_from(s, p, i + 1);
    }
}

pub proof fn lemma_find(s: Seq<char>, p: Seq<char>)
    ensures
        match find(s, p) {
            Some(k) => occurs_at(s, p, k as int) && forall|j: int| 0 <= j < k ==> !occurs_at(s, p, j),
            None => forall|j: int| !occurs_at(s, p, j),
        },
        find(s, p) is Some <==> contains(s, p),
{
    lemma_find_from(s, p, 0);
}

pub proof fn lemma_rfind_below(s: Seq<char>, p: Seq<char>, n: nat)
    ensures
        match rfind_below(s, p, n) {
            Some(k) => k < n && occurs_at(s, p, k as int)
                && forall|j: int| k < j < n ==> !occurs_at(s, p, j),
            None => forall|j: int| j < n ==> !occurs_at(s, p, j),
        },
    decreases n,
{
    if n > 0 && !occurs_at(s, p, n - 1) {
        lemma_rfind_below(s, p, (n - 1) as nat);
    }
}

pub proof fn lemma_rfind(s: Seq<char>, p: Seq<char>)
    ensures
        match rfind(s, p) {
            Some(k) => occurs_at(s, p, k as int) && forall|j: int| k < j ==> !occurs_at(s, p, j),
            None => forall|j: int| !occurs_at(s, p, j),
        },
{
    lemma_rfind_below(s, p, s.len() + 1);
}

/// The first occurrence is pinned down by an occurrence with none before it.
pub proof fn lemma_find_is(s: Seq<char>, p: Seq<char>, k: nat)
    requires
        occurs_at(s, p, k as int),
        forall|j: int| 0 <= j < k ==> !occurs_at(s, p, j),
    ensures
        find(s, p) == Some(k),
{
    lemma_find(s, p);
}

/// The last occurrence is pinned down by an occurrence with none after it.
pub proof fn lemma_rfind_is(s: Seq<char>, p: Seq<char>, k: nat)
    requires
        occurs_at(s, p, k as int),
        forall|j: int| k < j ==> !occurs_at(s, p, j),
    ensures
        rfind(s, p) == Some(k),
{
    lemma_rfind(s, p);
}

proof fn lemma_trim_start_skip(s: Seq<char>, i: int)
    requires
        0 <= i <= s.len(),
        forall|j: int| 0 <= j < i ==> is_ws(s[j]),
    ensures
        trim_start(s) == trim_start(s.skip(i)),
    decreases i,
{
    if i > 0 {
        assert(s.drop_first().skip(i - 1) =~= s.skip(i));
        lemma_trim_start_skip(s.drop_first(), i - 1);
    } else {
        assert(s.skip(0) =~= s);
    }
}

proof fn lemma_trim_end_take(s: Seq<char>, j: int)
    requires
        0 <= j <= s.len(),
        forall|k: int| j <= k < s.len() ==> is_ws(s[k]),
    ensures
        trim_end(s) == trim_end(s.take(j)),
    decreases s.len() - j,
{
    if j < s.len() {
        assert(s.drop_last().take(j) =~= s.take(j));
        lemma_trim_end_take(s.drop_last(), j);
    } else {
        assert(s.take(j) =~= s);
    }
}

proof fn lemma_trim_start_char_skip(s: Seq<char>, c: char, i: int)
    requires
        0 <= i <= s.len(),
        forall|j: int| 0 <= j < i ==> s[j] == c,
    ensures
        trim_start_char(s, c) == trim_start_char(s.skip(i), c),
    decreases i,
{
    if i > 0 {
        assert(s.drop_first().skip(i - 1) =~= s.skip(i));
        lemma_trim_start_char_skip(s.drop_first(), c, i - 1);
    } else {
        assert(s.skip(0) =~= s);
    }
}

proof fn lemma_trim_end_char_take(s: Seq<char>, c: char, j: int)
    requires
        0 <= j <= s.len(),
        forall|k: int| j <= k < s.len() ==> s[k] == c,
    ensures
        trim_end_char(s, c) == trim_end_char(s.take(j), c),
    decreases s.len() - j,
{
    if j < s.len() {
        assert(s.drop_last().take(j) =~= s.take(j));
        lemma_trim_end_char_take(s.drop_last(), c, j);
    } else {
        assert(s.take(j) =~= s);
    }
}

/// An occurrence in a suffix is an occurrence in the whole, shifted.
pub proof fn lemma_occurs_skip(s: Seq<char>, p: Seq<char>, k: int, j: int)
    requires
        0 <= k <= s.len(),
    ensures
        occurs_at(s.skip(k), p, j) <==> (0 <= j && occurs_at(s, p, k + j)),
{
    if 0 <= j && j + p.len() <= s.len() - k {
        assert(s.skip(k).subrange(j, j + p.len()) =~= s.subrange(k + j, k + j + p.len()));
    }
}

proof fn lemma_trim_start_at(s: Seq<char>) -> (i: int)
    ensures
        0 <= i <= s.len(),
        trim_start(s) == s.skip(i),
        forall|k: int| 0 <= k < i ==> is_ws(s[k]),
        i < s.len() ==> !is_ws(s[i]),
    decreases s.len(),
{
    if s.len() > 0 && is_ws(s[0]) {
        let j = lemma_trim_start_at(s.drop_first());
        assert(s.drop_first().skip(j) =~= s.skip(j + 1));
        assert forall|k: int| 0 <= k < j + 1 implies is_ws(s[k]) by {
            if k > 0 {
                assert(s[k] == s.drop_first()[k - 1]);
            }
        }
        j + 1
    } else {
        assert(s.skip(0) =~= s);
        0
    }
}

proof fn lemma_trim_end_at(s: Seq<char>) -> (j: int)
    ensures
        0 <= j <= s.len(),
        trim_end(s) == s.take(j),
        forall|k: int| j <= k < s.len() ==> is_ws(s[k]),
        j > 0 ==> !is_ws(s[j - 1]),
    decreases s.len(),
{
    if s.len() > 0 && is_ws(s.last()) {
        let j = lemma_trim_end_at(s.drop_last());
        assert(s.drop_last().take(j) =~= s.take(j));
        assert forall|k: int| j <= k < s.len() implies is_ws(s[k]) by {
            if k < s.len() - 1 {
                assert(s[k] == s.drop_last()[k]);
            }
        }
        if j > 0 {
            assert(s[j - 1] == s.drop_last()[j - 1]);
        }
        j
    } else {
        assert(s.take(s.len() as int) =~= s);
        s.len() as int
    }
}

/// Trimming cuts off exactly the whitespace at both ends: what is left is a
/// piece of the text, everything cut off is whitespace, and what is left
/// neither begins nor ends with whitespace.
pub proof fn law_trim_cuts_whitespace(s: Seq<char>)
    ensures
        exists|a: int, b: int|
            {
                &&& 0 <= a <= b <= s.len()
                &&& trim(s) == s.subrange(a, b)
                &&& forall|k: int| 0 <= k < a ==> is_ws(#[trigger] s[k])
                &&& forall|k: int| b <= k < s.len() ==> is_ws(#[trigger] s[k])
                &&& a < b ==> !is_ws(s[a]) && !is_ws(s[b - 1])
            },
{
    let a = lemma_trim_start_at(s);
    let t = s.skip(a);
    let j = lemma_trim_end_at(t);
    let b = a + j;
    assert(t.take(j) =~= s.subrange(a, b));
    assert forall|k: int| b <= k < s.len() implies is_ws(s[k]) by {
        assert(s[k] == t[k - a]);
    }
    if a < b {
        assert(s[a] == t[0]);
        assert(s[b - 1] == t[j - 1]);
    }
    assert(0 <= a <= b <= s.len() && trim(s) == s.subrange(a, b));
}

/// A pattern that occurs in the middle piece of a text occurs in the text.
pub proof fn lemma_contains_within(a: Seq<char>, b: Seq<char>, c: Seq<char>, p: Seq<char>)
    requires
        contains(b, p),
    ensures
        contains(a + b + c, p),
{
    let i = choose|i: int| occurs_at(b, p, i);
    let s = a + b + c;
    let k = a.len() + i;
    assert(s.subrange(k, k + p.len()) =~= b.subrange(i, i + p.len()));
    assert(occurs_at(s, p, k));
}

/// Every string that is joined occurs in the joined text.
pub proof fn lemma_join_contains(ls: Seq<Seq<char>>, sep: Seq<char>, i: int)
    requires
        0 <= i < ls.len(),
    ensures
        contains(join(ls, sep), ls[i]),
    decreases ls.len(),
{
    assert(ls[i].subrange(0, ls[i].len() as int) =~= ls[i]);
    assert(occurs_at(ls[i], ls[i], 0));
    if ls.len() == 1 {
    } else if i == ls.len() - 1 {
        lemma_contains_within(join(ls.drop_last(), sep) + sep, ls[i], Seq::empty(), ls[i]);
        assert(join(ls.drop_last(), sep) + sep + ls[i] + Seq::<char>::empty() =~= join(ls, sep));
    } else {
        lemma_join_contains(ls.drop_last(), sep, i);
        assert(ls.drop_last()[i] == ls[i]);
        lemma_contains_within(Seq::empty(), join(ls.drop_last(), sep), sep + ls.last(), ls[i]);
        assert(Seq::<char>::empty() + join(ls.drop_last(), sep) + (sep + ls.last()) =~= join(ls, sep));
    }
}

/// `find_from` at `k` is `find` in the suffix from `k`, shifted by `k`.
pub proof fn lemma_find_from_skip(s: Seq<char>, p: Seq<char>, k: nat)
    requires
        k <= s.len(),
    ensures
        match find(s.skip(k as int), p) {
            Some(j) => find_from(s, p, k) == Some(k + j),
            None => find_from(s, p, k) is None,
        },
{
    lemma_find(s.skip(k as int), p);
    lemma_find_from(s, p, k);
    assert forall|j: int| #![trigger occurs_at(s.skip(k as int), p, j)] true implies (occurs_at(s.skip(k as int), p, j) <==> (0 <= j && occurs_at(s, p, k + j))) by {
        lemma_occurs_skip(s, p, k as int, j);
    }
    match find(s.skip(k as int), p) {
        Some(j) => {
            assert(occurs_at(s, p, (k + j) as int));
            match find_from(s, p, k) {
                Some(m) => {
                    if m < k + j {
                        assert(occurs_at(s.skip(k as int), p, m - k));
                    }
                },
                None => {},
            }
        },
        None => {
            match find_from(s, p, k) {
                Some(m) => {
                    assert(occurs_at(s.skip(k as int), p, m - k));
                },
                None => {},
            }
        },
    }
}

// ---------------------------------------------------------------------------
// Executable functions

/// The characters of `s`, in order.
pub fn to_chars(s: &str) -> (v: Vec<char>)
    ensures
        v@ == s@,
{
    let n = s.unicode_len();
    let mut it = s.chars();
    let mut v: Vec<char> = Vec::new();
    let mut i: usize = 0;
    while i < n
        invariant
            n == s@.len(),
            i <= n,
            v@.len() == i,
            v@ + it.remaining() == s@,
        decreases n - i,
    {
        let c = it.next();
        match c {
            Some(c) => {
                v.push(c);
            },
            None => {
                assert(false);
            },
        }
        i = i + 1;
    }
    v
}

/// Whether `c` is whitespace, as `char::is_whitespace` decides.
pub fn is_whitespace(c: char) -> (r: bool)
    ensures
        r == is_ws(c),
{
    ('\u{9}' <= c && c <= '\u{d}') || c == ' ' || c == '\u{85}' || c == '\u{a0}' || c == '\u{1680}'
        || ('\u{2000}' <= c && c <= '\u{200a}') || c == '\u{2028}' || c == '\u{2029}' || c
        == '\u{202f}' || c == '\u{205f}' || c == '\u{3000}'
}

/// The first position in `lo..hi` whose character is not whitespace, or `hi`.
pub fn skip_ws_forward(s: &Vec<char>, lo: usize, hi: usize) -> (r: usize)
    requires
        lo <= hi <= s@.len(),
    ensures
        lo <= r <= hi,
        trim_start(s@.subrange(lo as int, hi as int)) == s@.subrange(r as int, hi as int),
{
    let mut i = lo;
    while i < hi && is_whitespace(s[i])
        invariant
            lo <= i <= hi <= s@.len(),
            forall|j: int| lo <= j < i ==> is_ws(s@[j]),
        decreases hi - i,
    {
        i = i + 1;
    }
    let ghost w = s@.subrange(lo as int, hi as int);
    proof {
        lemma_trim_start_skip(w, i - lo);
        assert(w.skip(i - lo) =~= s@.subrange(i as int, hi as int));
    }
    i
}

/// The end of `lo..hi` once its trailing whitespace is left out.
pub fn skip_ws_backward(s: &Vec<char>, lo: usize, hi: usize) -> (r: usize)
    requires
        lo <= hi <= s@.len(),
    ensures
        lo <= r <= hi,
        trim_end(s@.subrange(lo as int, hi as int)) == s@.subrange(lo as int, r as int),
{
    let mut j = hi;
    while j > lo && is_whitespace(s[j - 1])
        invariant
            lo <= j <= hi <= s@.len(),
            forall|k: int| j <= k < hi ==> is_ws(s@[k]),
        decreases j - lo,
    {
        j = j - 1;
    }
    let ghost w = s@.subrange(lo as int, hi as int);
    proof {
        lemma_trim_end_take(w, j - lo);
        assert(w.take(j - lo) =~= s@.subrange(lo as int, j as int));
    }
    j
}

/// The first position in `lo..hi` whose character is not `c`, or `hi`.
pub fn skip_char_forward(s: &Vec<char>, c: char, lo: usize, hi: usize) -> (r: usize)
    requires
        lo <= hi <= s@.len(),
    ensures
        lo <= r <= hi,
        trim_start_char(s@.subrange(lo as int, hi as int), c) == s@.subrange(r as int, hi as int),
{
    let mut i = lo;
    while i < hi && s[i] == c
        invariant
            lo <= i <= hi <= s@.len(),
            forall|j: int| lo <= j < i ==> s@[j] == c,
        decreases hi - i,
    {
        i = i + 1;
    }
    let ghost w = s@.subrange(lo as int, hi as int);
    proof {
        lemma_trim_start_char_skip(w, c, i - lo);
        assert(w.skip(i - lo) =~= s@.subrange(i as int, hi as int));
    }
    i
}

/// The end of `lo..hi` once its trailing `c` are left out.
pub fn skip_char_backward(s: &Vec<char>, c: char, lo: usize, hi: usize) -> (r: usize)
    requires
        lo <= hi <= s@.len(),
    ensures
        lo <= r <= hi,
        trim_end_char(s@.subrange(lo as int, hi as int), c) == s@.subrange(lo as int, r as int),
{
    let mut j = hi;
    while j > lo && s[j - 1] == c
        invariant
            lo <= j <= hi <= s@.len(),
            forall|k: int| j <= k < hi ==> s@[k] == c,
        decreases j - lo,
    {
        j = j - 1;
    }
    let ghost w = s@.subrange(lo as int, hi as int);
    proof {
        lemma_trim_end_char_take(w, c, j - lo);
        assert(w.take(j - lo) =~= s@.subrange(lo as int, j as int));
    }
    j
}

/// Whether `p` occurs in `s` at position `i`.
pub fn occurs_at_exec(s: &Vec<char>, p: &Vec<char>, i: usize) -> (r: bool)
    ensures
        r == occurs_at(s@, p@, i as int),
{
    if i > s.len() || p.len() > s.len() - i {
        return false;
    }
    let n = p.len();
    let mut k: usize = 0;
    while k < n
        invariant
            n == p@.len(),
            s@.len() <= usize::MAX,
            i <= s@.len(),
            i + p@.len() <= s@.len(),
            k <= p@.len(),
            forall|j: int| 0 <= j < k ==> s@[i + j] == p@[j],
        decreases p@.len() - k,
    {
        let idx: usize = i + k;
        if s[idx] != p[k] {
            assert(s@.subrange(i as int, i + p@.len())[k as int] != p@[k as int]);
            return false;
        }
        k = k + 1;
    }
    assert(s@.subrange(i as int, i + p@.len()) =~= p@);
    true
}

/// The first position at or after `from` where `p` occurs in `s`.
pub fn find_from_exec(s: &Vec<char>, p: &Vec<char>, from: usize) -> (r: Option<usize>)
    requires
        from <= s@.len(),
    ensures
        match r {
            Some(k) => find_from(s@, p@, from as nat) == Some(k as nat),
            None => find_from(s@, p@, from as nat) is None,
        },
{
    let mut i = from;
    loop
        invariant
            from <= i <= s@.len(),
            find_from(s@, p@, from as nat) == find_from(s@, p@, i as nat),
        decreases s@.len() - i,
    {
        if occurs_at_exec(s, p, i) {
            return Some(i);
        }
        if i == s.len() {
            assert(find_from(s@, p@, (i + 1) as nat) is None);
            return None;
        }
        i = i + 1;
    }
}

/// The first position where `p` occurs in `s`.
pub fn find_exec(s: &Vec<char>, p: &Vec<char>) -> (r: Option<usize>)
    ensures
        match r {
            Some(k) => find(s@, p@) == Some(k as nat),
            None => find(s@, p@) is None,
        },
{
    find_from_exec(s, p, 0)
}

/// The last position where `p` occurs in `s`.
pub fn rfind_exec(s: &Vec<char>, p: &Vec<char>) -> (r: Option<usize>)
    ensures
        match r {
            Some(k) => rfind(s@, p@) == Some(k as nat),
            None => rfind(s@, p@) is None,
        },
{
    let mut n = s.len();
    loop
        invariant
            n <= s@.len(),
            rfind(s@, p@) == rfind_below(s@, p@, (n + 1) as nat),
        decreases n,
    {
        if occurs_at_exec(s, p, n) {
            return Some(n);
        }
        if n == 0 {
            assert(rfind_below(s@, p@, 0) is None);
            return None;
        }
        n = n - 1;
    }
}

/// Whether `p` occurs in `s`.
pub fn contains_exec(s: &str, p: &str) -> (r: bool)
    ensures
        r == contains(s@, p@),
{
    let sv = to_chars(s);
    let pv = to_chars(p);
    proof {
        lemma_find(s@, p@);
    }
    find_exec(&sv, &pv).is_some()
}

/// `s` without leading and trailing whitespace, as `str::trim` gives it.
pub fn trim_string(s: &str) -> (r: String)
    ensures
        r@ == trim(s@),
{
    let v = to_chars(s);
    let lo = skip_ws_forward(&v, 0, v.len());
    let hi = skip_ws_backward(&v, lo, v.len());
    proof {
        assert(s@.subrange(0, s@.len() as int) =~= s@);
    }
    String::from_str(s.substring_char(lo, hi))
}

/// Whether the two strings are the same.
pub fn str_eq(a: &str, b: &str) -> (r: bool)
    ensures
        r == (a@ == b@),
{
    String::from_str(a) == String::from_str(b)
}

/// The strings of `parts` with `sep` between each two.
pub fn join_strings(parts: &Vec<String>, sep: &str) -> (r: String)
    ensures
        r@ == join(parts.deep_view(), sep@),
{
    let ghost ls = parts.deep_view();
    let mut r = String::new();
    let mut i: usize = 0;
    while i < parts.len()
        invariant
            i <= parts@.len(),
            ls == parts.deep_view(),
            r@ == join(ls.take(i as int), sep@),
        decreases parts@.len() - i,
    {
        proof {
            lemma_join_take(ls, sep@, i as int);
            if i == 0 {
                assert(join(ls.take(0), sep@) =~= Seq::<char>::empty());
            }
        }
        if i > 0 {
            r.append(sep);
        }
        r.append(parts[i].as_str());
        assert(r@ =~= join(ls.take(i + 1), sep@));
        i = i + 1;
    }
    assert(ls.take(i as int) =~= ls);
    r
}

/// The decimal digit for `d`.
fn digit_text(d: usize) -> (r: &'static str)
    requires
        d < 10,
    ensures
        r@ == seq![digit(d as nat)],
{
    proof {
        reveal_strlit("0");
        reveal_strlit("1");
        reveal_strlit("2");
        reveal_strlit("3");
        reveal_strlit("4");
        reveal_strlit("5");
        reveal_strlit("6");
        reveal_strlit("7");
        reveal_strlit("8");
        reveal_strlit("9");
    }
    if d == 0 { "0" }
    else if d == 1 { "1" }
    else if d == 2 { "2" }
    else if d == 3 { "3" }
    else if d == 4 { "4" }
    else if d == 5 { "5" }
    else if d == 6 { "6" }
    else if d == 7 { "7" }
    else if d == 8 { "8" }
    else { "9" }
}

/// `n` written in decimal, as `n.to_string()` writes it.
pub fn decimal_string(n: usize) -> (r: String)
    ensures
        r@ == decimal(n as nat),
    decreases n,
{
    if n < 10 {
        String::from_str(digit_text(n))
    } else {
        let mut r = decimal_string(n / 10);
        r.append(digit_text(n % 10));
        r
    }
}

/// `b` written as `Display` writes it.
pub fn bool_string(b: bool) -> (r: String)
    ensures
        r@ == bool_text(b),
{
    if b {
        String::from_str("true")
    } else {
        String::from_str("false")
    }
}

} // verus!
