//! Character-level text operations used by the report parsers: searching for
//! a marker, removing every occurrence of a marker, and trimming Unicode
//! whitespace. Each operation has a spec function over `Seq<char>` and an
//! executable counterpart proved equal to it.

use vstd::prelude::*;

verus! {

/// The Unicode `White_Space` property: the characters that `str::trim`
/// removes from both ends of a string.
pub open spec fn is_white_space(c: char) -> bool {
    ||| ('\u{9}' <= c && c <= '\u{d}')
    ||| c == ' '
    ||| c == '\u{85}'
    ||| c == '\u{a0}'
    ||| c == '\u{1680}'
    ||| ('\u{2000}' <= c && c <= '\u{200a}')
    ||| c == '\u{2028}'
    ||| c == '\u{2029}'
    ||| c == '\u{202f}'
    ||| c == '\u{205f}'
    ||| c == '\u{3000}'
}

/// `s` with its leading whitespace removed.
pub open spec fn trim_start(s: Seq<char>) -> Seq<char>
    decreases s.len(),
{
    if s.len() > 0 && is_white_space(s[0]) {
        trim_start(s.drop_first())
    } else {
        s
    }
}

/// `s` with its trailing whitespace removed.
pub open spec fn trim_end(s: Seq<char>) -> Seq<char>
    decreases s.len(),
{
    if s.len() > 0 && is_white_space(s.last()) {
        trim_end(s.drop_last())
    } else {
        s
    }
}

/// `s` with leading and trailing whitespace removed.
pub open spec fn trim(s: Seq<char>) -> Seq<char> {
    trim_end(trim_start(s))
}

/// `pat` occurs in `s` starting at position `i`.
pub open spec fn occurs_at(s: Seq<char>, pat: Seq<char>, i: int) -> bool {
    &&& 0 <= i
    &&& i + pat.len() <= s.len()
    &&& s.subrange(i, i + pat.len()) == pat
}

/// `pat` occurs somewhere in `s`.
pub open spec fn contains(s: Seq<char>, pat: Seq<char>) -> bool {
    exists|i: int| occurs_at(s, pat, i)
}

/// `i` is the position of the leftmost occurrence of `pat` in `s`.
pub open spec fn is_first_occurrence(s: Seq<char>, pat: Seq<char>, i: int) -> bool {
    &&& occurs_at(s, pat, i)
    &&& forall|j: int| 0 <= j < i ==> !occurs_at(s, pat, j)
}

/// What follows the leftmost occurrence of `pat` in `s`, if `pat` occurs.
pub open spec fn after_first(s: Seq<char>, pat: Seq<char>) -> Option<Seq<char>> {
    if contains(s, pat) {
        let i = choose|i: int| is_first_occurrence(s, pat, i);
        Some(s.skip(i + pat.len()))
    } else {
        None
    }
}

/// `s` with every occurrence of `pat` removed, occurrences being taken
/// from left to right without overlap. An empty `pat` removes nothing.
pub open spec fn remove_all(s: Seq<char>, pat: Seq<char>) -> Seq<char>
    decreases s.len(),
{
    if s.len() == 0 {
        s
    } else if pat.len() > 0 && occurs_at(s, pat, 0) {
        remove_all(s.skip(pat.len() as int), pat)
    } else {
        seq![s[0]] + remove_all(s.drop_first(), pat)
    }
}

/// A leftmost occurrence is unique.
pub proof fn lemma_first_occurrence_unique(s: Seq<char>, pat: Seq<char>, i: int, j: int)
    requires
        is_first_occurrence(s, pat, i),
        is_first_occurrence(s, pat, j),
    ensures
        i == j,
{
}

/// The decimal digit for `d` (below ten).
pub open spec fn digit_char(d: int) -> char {
    seq!['0', '1', '2', '3', '4', '5', '6', '7', '8', '9'][d]
}

/// The decimal numeral of `n`, without leading zeros.
pub open spec fn decimal(n: nat) -> Seq<char>
    decreases n,
{
    if n < 10 {
        seq![digit_char(n as int)]
    } else {
        decimal(n / 10) + seq![digit_char((n % 10) as int)]
    }
}

/// The value of a decimal digit character.
pub open spec fn digit_value(c: char) -> int {
    (c as int) - ('0' as int)
}

/// The number that a string of decimal digits denotes, read in base ten.
pub open spec fn value_of(s: Seq<char>) -> int
    decreases s.len(),
{
    if s.len() == 0 {
        0
    } else {
        value_of(s.drop_last()) * 10 + digit_value(s.last())
    }
}

proof fn lemma_digit_char(d: int)
    requires
        0 <= d < 10,
    ensures
        '0' <= digit_char(d) <= '9',
        digit_value(digit_char(d)) == d,
{
    let ds = seq!['0', '1', '2', '3', '4', '5', '6', '7', '8', '9'];
    assert(ds[0] == '0' && ds[1] == '1' && ds[2] == '2' && ds[3] == '3' && ds[4] == '4');
    assert(ds[5] == '5' && ds[6] == '6' && ds[7] == '7' && ds[8] == '8' && ds[9] == '9');
}

/// The numeral of `n` denotes `n`: it is made of decimal digits, read in
/// base ten it gives back `n`, and it has no leading zero (its first digit is
/// `0` only for `n == 0`).
pub proof fn lemma_decimal_denotes(n: nat)
    ensures
        decimal(n).len() > 0,
        forall|i: int| 0 <= i < decimal(n).len() ==> '0' <= #[trigger] decimal(n)[i] <= '9',
        value_of(decimal(n)) == n,
        decimal(n)[0] == '0' <==> n == 0,
    decreases n,
{
    if n < 10 {
        lemma_digit_char(n as int);
        let s = decimal(n);
        assert(s.drop_last() =~= Seq::<char>::empty());
        assert(value_of(s.drop_last()) == 0);
        assert(s.last() == digit_char(n as int));
        assert(value_of(s) == value_of(s.drop_last()) * 10 + digit_value(s.last()));
        if n != 0 {
            assert(digit_char(n as int) != '0');
        }
    } else {
        lemma_decimal_denotes(n / 10);
        lemma_digit_char((n % 10) as int);
        let s = decimal(n);
        let p = decimal(n / 10);
        assert(s.drop_last() =~= p);
        assert(s.last() == digit_char((n % 10) as int));
        assert(s[0] == p[0]);
        assert forall|i: int| 0 <= i < s.len() implies '0' <= #[trigger] s[i] <= '9' by {
            if i < p.len() {
                assert(s[i] == p[i]);
            }
        }
        assert(value_of(p) * 10 + (n % 10) as int == n) by (nonlinear_arith)
            requires
                value_of(p) == n / 10,
        ;
        assert(value_of(s) == value_of(s.drop_last()) * 10 + digit_value(s.last()));
    }
}

/// Numerals of different numbers differ.
pub proof fn lemma_decimal_injective(m: nat, n: nat)
    requires
        decimal(m) == decimal(n),
    ensures
        m == n,
{
    lemma_decimal_denotes(m);
    lemma_decimal_denotes(n);
}

/// The decimal numeral of `n`, as characters.
pub fn decimal_chars(n: u32) -> (v: Vec<char>)
    ensures
        v@ == decimal(n as nat),
    decreases n,
{
    let digits = vec!['0', '1', '2', '3', '4', '5', '6', '7', '8', '9'];
    if n < 10 {
        vec![digits[n as usize]]
    } else {
        let mut v = decimal_chars(n / 10);
        v.push(digits[(n % 10) as usize]);
        v
    }
}

/// Appends `c` to the end of `s` (`String::push`).
#[verifier::external_body]
pub(crate) fn push_char(s: &mut String, c: char)
    ensures
        final(s)@ == old(s)@.push(c),
{
    s.push(c);
}

/// A string of the single character `c`.
pub fn char_string(c: char) -> (s: String)
    ensures
        s@ == seq![c],
{
    let mut s = String::new();
    push_char(&mut s, c);
    s
}

/// The characters of `s`, in order.
pub fn chars_of(s: &str) -> (v: Vec<char>)
    ensures
        v@ == s@,
{
    let n = s.unicode_len();
    let mut v: Vec<char> = Vec::new();
    let mut i: usize = 0;
    while i < n
        invariant
            n == s@.len(),
            i <= n,
            v@ == s@.subrange(0, i as int),
        decreases n - i,
    {
        v.push(s.get_char(i));
        i = i + 1;
    }
    v
}

/// The string made of `v[lo..hi]`.
pub fn string_of(v: &Vec<char>, lo: usize, hi: usize) -> (s: String)
    requires
        lo <= hi <= v.len(),
    ensures
        s@ == v@.subrange(lo as int, hi as int),
{
    let mut s = String::new();
    let mut i: usize = lo;
    while i < hi
        invariant
            lo <= i <= hi <= v.len(),
            s@ == v@.subrange(lo as int, i as int),
        decreases hi - i,
    {
        push_char(&mut s, v[i]);
        i = i + 1;
    }
    s
}

/// Decides the Unicode `White_Space` property of `c`.
pub fn is_white_space_char(c: char) -> (b: bool)
    ensures
        b == is_white_space(c),
{
    ('\u{9}' <= c && c <= '\u{d}') || c == ' ' || c == '\u{85}' || c == '\u{a0}' || c
        == '\u{1680}' || ('\u{2000}' <= c && c <= '\u{200a}') || c == '\u{2028}' || c
        == '\u{2029}' || c == '\u{202f}' || c == '\u{205f}' || c == '\u{3000}'
}

proof fn lemma_trim_start_step(s: Seq<char>, i: int)
    requires
        0 <= i < s.len(),
        is_white_space(s[i]),
    ensures
        trim_start(s.skip(i)) == trim_start(s.skip(i + 1)),
{
    assert(s.skip(i).drop_first() =~= s.skip(i + 1));
}

proof fn lemma_trim_end_step(s: Seq<char>, j: int)
    requires
        0 < j <= s.len(),
        is_white_space(s[j - 1]),
    ensures
        trim_end(s.take(j)) == trim_end(s.take(j - 1)),
{
    assert(s.take(j).drop_last() =~= s.take(j - 1));
}

/// The bounds `lo..hi` of `v` with whitespace removed from both ends.
pub fn trim_bounds(v: &Vec<char>) -> (r: (usize, usize))
    ensures
        r.0 <= r.1 <= v.len(),
        v@.subrange(r.0 as int, r.1 as int) == trim(v@),
{
    let n = v.len();
    let mut i: usize = 0;
    assert(v@.skip(0) =~= v@);
    while i < n && is_white_space_char(v[i])
        invariant
            n == v.len(),
            i <= n,
            trim_start(v@) == trim_start(v@.skip(i as int)),
        decreases n - i,
    {
        proof {
            lemma_trim_start_step(v@, i as int);
        }
        i = i + 1;
    }
    let ghost t = v@.skip(i as int);
    assert(trim_start(v@) == t);
    let mut j: usize = n;
    assert(t.take((n - i) as int) =~= t);
    while j > i && is_white_space_char(v[j - 1])
        invariant
            n == v.len(),
            i <= j <= n,
            t == v@.skip(i as int),
            trim_end(t) == trim_end(t.take(j - i)),
        decreases j,
    {
        proof {
            lemma_trim_end_step(t, j - i);
        }
        j = j - 1;
    }
    assert(trim_end(t.take(j - i)) == t.take(j - i));
    assert(t.take(j - i) =~= v@.subrange(i as int, j as int));
    (i, j)
}

/// `s` with leading and trailing whitespace removed.
pub fn trimmed(s: &str) -> (r: String)
    ensures
        r@ == trim(s@),
{
    let v = chars_of(s);
    let (lo, hi) = trim_bounds(&v);
    string_of(&v, lo, hi)
}

/// Whether `pat` occurs in `v` at position `i`.
pub fn occurs_at_exec(v: &Vec<char>, pat: &Vec<char>, i: usize) -> (b: bool)
    ensures
        b == occurs_at(v@, pat@, i as int),
{
    if i > v.len() || pat.len() > v.len() - i {
        return false;
    }
    let m = pat.len();
    let mut k: usize = 0;
    while k < m
        invariant
            m == pat.len(),
            i + m <= v.len(),
            k <= m,
            forall|t: int| 0 <= t < k ==> v@[i + t] == pat@[t],
        decreases m - k,
    {
        if v[i + k] != pat[k] {
            assert(v@.subrange(i as int, i + m)[k as int] != pat@[k as int]);
            return false;
        }
        k = k + 1;
    }
    assert(v@.subrange(i as int, i + m) =~= pat@);
    true
}

/// The position of the leftmost occurrence of `pat` in `v`, if any.
pub fn find_first(v: &Vec<char>, pat: &Vec<char>) -> (r: Option<usize>)
    ensures
        r matches Some(i) ==> is_first_occurrence(v@, pat@, i as int),
        r is None ==> !contains(v@, pat@),
{
    let n = v.len();
    let mut i: usize = 0;
    while i <= n
        invariant
            n == v.len(),
            forall|j: int| 0 <= j < i ==> !occurs_at(v@, pat@, j),
        decreases n + 1 - i,
    {
        if occurs_at_exec(v, pat, i) {
            return Some(i);
        }
        if i == n {
            assert forall|j: int| occurs_at(v@, pat@, j) implies false by {
                assert(j <= n);
            }
            return None;
        }
        i = i + 1;
    }
    None
}

/// Whether `pat` occurs in `s`.
pub fn contains_exec(s: &Vec<char>, pat: &Vec<char>) -> (b: bool)
    ensures
        b == contains(s@, pat@),
{
    match find_first(s, pat) {
        Some(_) => true,
        None => false,
    }
}

/// What follows the leftmost occurrence of `pat` in `v`, as a position in `v`.
pub fn after_first_exec(v: &Vec<char>, pat: &Vec<char>) -> (r: Option<usize>)
    ensures
        r matches Some(k) ==> k <= v.len() && after_first(v@, pat@) == Some(v@.skip(k as int)),
        r is None ==> after_first(v@, pat@) is None,
{
    match find_first(v, pat) {
        Some(i) => {
            proof {
                let c = choose|c: int| is_first_occurrence(v@, pat@, c);
                lemma_first_occurrence_unique(v@, pat@, c, i as int);
            }
            assert(i + pat.len() <= v.len());
            Some(i + pat.len())
        },
        None => None,
    }
}

/// `v[lo..]` with every occurrence of `pat` removed, left to right.
pub fn remove_all_exec(v: &Vec<char>, lo: usize, pat: &Vec<char>) -> (r: Vec<char>)
    requires
        lo <= v.len(),
    ensures
        r@ == remove_all(v@.skip(lo as int), pat@),
{
    let n = v.len();
    let m = pat.len();
    let mut out: Vec<char> = Vec::new();
    let mut i: usize = lo;
    while i < n
        invariant
            n == v.len(),
            m == pat.len(),
            lo <= i <= n,
            remove_all(v@.skip(lo as int), pat@) == out@ + remove_all(v@.skip(i as int), pat@),
        decreases n - i,
    {
        let ghost rest = v@.skip(i as int);
        let hit = m > 0 && occurs_at_exec(v, pat, i);
        proof {
            if m > 0 && i + m <= n {
                assert(rest.subrange(0, m as int) =~= v@.subrange(i as int, i + m));
            }
            assert(m > 0 ==> (occurs_at(rest, pat@, 0) == occurs_at(v@, pat@, i as int)));
        }
        if hit {
            assert(rest.skip(m as int) =~= v@.skip(i + m));
            i = i + m;
        } else {
            let c = v[i];
            assert(rest.drop_first() =~= v@.skip(i + 1));
            assert(out@.push(c) + remove_all(v@.skip(i + 1), pat@) =~= out@ + (seq![c]
                + remove_all(v@.skip(i + 1), pat@)));
            out.push(c);
            i = i + 1;
        }
    }
    assert(out@ + remove_all(v@.skip(n as int), pat@) =~= out@);
    out
}

} // verus!
