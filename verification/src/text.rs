//! Character-level helpers over `str` and `String`, each with its model over `Seq<char>`.
use vstd::prelude::*;

verus! {

broadcast use vstd::string::group_string_axioms;

// ---------------------------------------------------------------------------
// Models
// ---------------------------------------------------------------------------

/// Whether `c` has the Unicode `White_Space` property, as `char::is_whitespace`
/// answers: tab through carriage return, space, next line, no-break space,
/// ogham space mark, the en quad through hair space, line and paragraph
/// separators, narrow no-break space, medium mathematical space and
/// ideographic space.
pub open spec fn spec_is_whitespace(c: char) -> bool {
    let u = c as u32;
    ||| 0x09 <= u && u <= 0x0D
    ||| u == 0x20
    ||| u == 0x85
    ||| u == 0xA0
    ||| u == 0x1680
    ||| 0x2000 <= u && u <= 0x200A
    ||| u == 0x2028
    ||| u == 0x2029
    ||| u == 0x202F
    ||| u == 0x205F
    ||| u == 0x3000
}

/// `s` without its leading whitespace.
pub open spec fn trim_start(s: Seq<char>) -> Seq<char>
    decreases s.len(),
{
    if s.len() > 0 && spec_is_whitespace(s[0]) {
        trim_start(s.drop_first())
    } else {
        s
    }
}

/// `s` without its trailing whitespace.
pub open spec fn trim_end(s: Seq<char>) -> Seq<char>
    decreases s.len(),
{
    if s.len() > 0 && spec_is_whitespace(s.last()) {
        trim_end(s.drop_last())
    } else {
        s
    }
}

/// `s` without leading and trailing whitespace, as `str::trim` gives it.
pub open spec fn trimmed(s: Seq<char>) -> Seq<char> {
    trim_end(trim_start(s))
}

/// ASCII lower-casing of one character: `A`..`Z` become `a`..`z`, all else stays.
pub open spec fn lower_char(c: char) -> char {
    if 'A' <= c && c <= 'Z' {
        ((c as u32) + 32) as char
    } else {
        c
    }
}

/// ASCII lower-casing of a text, character by character.
pub open spec fn ascii_lower(s: Seq<char>) -> Seq<char> {
    Seq::new(s.len(), |i: int| lower_char(s[i]))
}

/// `pat` occurs in `hay` starting at position `i`.
pub open spec fn occurs_at(hay: Seq<char>, pat: Seq<char>, i: int) -> bool {
    &&& 0 <= i
    &&& i + pat.len() <= hay.len()
    &&& hay.subrange(i, i + pat.len()) == pat
}

/// `pat` occurs somewhere in `hay` (the empty text occurs in every text).
pub open spec fn contains(hay: Seq<char>, pat: Seq<char>) -> bool {
    exists|i: int| occurs_at(hay, pat, i)
}

/// `s` begins with `p`.
pub open spec fn has_prefix(s: Seq<char>, p: Seq<char>) -> bool {
    p.len() <= s.len() && s.subrange(0, p.len() as int) == p
}

/// The character of the decimal digit `d` (`d < 10`).
pub open spec fn digit_char(d: nat) -> char {
    (('0' as u32) + d) as char
}

/// The decimal numeral of `n`, most significant digit first, without leading zeros.
pub open spec fn decimal_digits(n: nat) -> Seq<char>
    decreases n,
{
    if n < 10 {
        seq![digit_char(n)]
    } else {
        decimal_digits(n / 10).push(digit_char(n % 10))
    }
}

/// The number that a string of decimal digits denotes.
pub open spec fn decimal_value(s: Seq<char>) -> int
    decreases s.len(),
{
    if s.len() == 0 {
        0
    } else {
        decimal_value(s.drop_last()) * 10 + ((s.last() as u32) - ('0' as u32))
    }
}

// ---------------------------------------------------------------------------
// Trusted items (std)
// ---------------------------------------------------------------------------

/// Calls `String::from_iter` over the characters of `v`. Trusted to produce
/// the string of exactly those characters, in order.
#[verifier::external_body]
pub(crate) fn string_from_chars(v: &Vec<char>) -> (s: String)
    ensures
        s@ == v@,
{
    v.iter().collect::<String>()
}

// ---------------------------------------------------------------------------
// Verified helpers
// ---------------------------------------------------------------------------

/// Whether `c` is whitespace (see [`spec_is_whitespace`]).
pub fn is_whitespace(c: char) -> (b: bool)
    ensures
        b == spec_is_whitespace(c),
{
    let u: u32 = c as u32;
    (0x09 <= u && u <= 0x0D) || u == 0x20 || u == 0x85 || u == 0xA0 || u == 0x1680 || (0x2000
        <= u && u <= 0x200A) || u == 0x2028 || u == 0x2029 || u == 0x202F || u == 0x205F || u
        == 0x3000
}

/// The characters of `s`, in order.
pub fn chars_of(s: &str) -> (v: Vec<char>)
    ensures
        v@ == s@,
{
    let mut v: Vec<char> = Vec::new();
    for c in it: s.chars()
        invariant
            it.seq() == s@,
            v@ == it.seq().take(it.index() as int),
    {
        v.push(c);
    }
    v
}

/// The characters `v[from..to]` as a new vector.
fn slice_chars(v: &Vec<char>, from: usize, to: usize) -> (r: Vec<char>)
    requires
        from <= to <= v.len(),
    ensures
        r@ == v@.subrange(from as int, to as int),
{
    let mut r: Vec<char> = Vec::new();
    let mut k: usize = from;
    while k < to
        invariant
            from <= k <= to <= v.len(),
            r@ == v@.subrange(from as int, k as int),
        decreases to - k,
    {
        r.push(v[k]);
        k += 1;
        assert(r@ =~= v@.subrange(from as int, k as int));
    }
    r
}

/// Trimming the leading whitespace of a text that begins with whitespace is
/// trimming it from the rest.
proof fn lemma_trim_start_step(s: Seq<char>, i: int)
    requires
        0 <= i < s.len(),
        spec_is_whitespace(s[i]),
    ensures
        trim_start(s.subrange(i, s.len() as int)) == trim_start(s.subrange(i + 1, s.len() as int)),
{
    let w = s.subrange(i, s.len() as int);
    assert(w.drop_first() =~= s.subrange(i + 1, s.len() as int));
}

/// Trimming the trailing whitespace of a text that ends with whitespace is
/// trimming it from the text without its last character.
proof fn lemma_trim_end_step(w: Seq<char>, j: int)
    requires
        0 < j <= w.len(),
        spec_is_whitespace(w[j - 1]),
    ensures
        trim_end(w.subrange(0, j)) == trim_end(w.subrange(0, j - 1)),
{
    let u = w.subrange(0, j);
    assert(u.drop_last() =~= w.subrange(0, j - 1));
}

/// `v` without leading and trailing whitespace.
pub fn trim_chars(v: &Vec<char>) -> (r: Vec<char>)
    ensures
        r@ == trimmed(v@),
{
    let n = v.len();
    let mut i: usize = 0;
    assert(v@.subrange(0, n as int) =~= v@);
    while i < n && is_whitespace(v[i])
        invariant
            i <= n == v.len(),
            trim_start(v@) == trim_start(v@.subrange(i as int, n as int)),
        decreases n - i,
    {
        proof {
            lemma_trim_start_step(v@, i as int);
        }
        i += 1;
    }
    let ghost w = v@.subrange(i as int, n as int);
    assert(v@.subrange(0, n as int) =~= v@);
    assert(trim_start(v@) == w) by {
        if i < n {
            assert(!spec_is_whitespace(w[0]));
        } else {
            assert(w.len() == 0);
        }
    }
    let mut j: usize = n;
    assert(w.subrange(0, w.len() as int) =~= w);
    while j > i && is_whitespace(v[j - 1])
        invariant
            i <= j <= n == v.len(),
            w == v@.subrange(i as int, n as int),
            trim_end(w) == trim_end(w.subrange(0, j - i)),
        decreases j,
    {
        proof {
            lemma_trim_end_step(w, (j - i) as int);
        }
        j -= 1;
    }
    assert(w.subrange(0, w.len() as int) =~= w);
    let ghost u = w.subrange(0, j - i);
    assert(trim_end(w) == u) by {
        if j > i {
            assert(u.last() == v@[j - 1]);
        } else {
            assert(u.len() == 0);
        }
    }
    assert(u =~= v@.subrange(i as int, j as int));
    slice_chars(v, i, j)
}

/// `s` without leading and trailing whitespace, as `str::trim` gives it.
pub fn trim(s: &str) -> (r: String)
    ensures
        r@ == trimmed(s@),
{
    let v = chars_of(s);
    let t = trim_chars(&v);
    string_from_chars(&t)
}

/// ASCII lower-casing of one character.
pub fn lower_char_exec(c: char) -> (r: char)
    ensures
        r == lower_char(c),
{
    if 'A' <= c && c <= 'Z' {
        let b: u8 = c as u8;
        assert(b == c as u32);
        ((b + 32) as char)
    } else {
        c
    }
}

/// ASCII lower-casing of every character of `v`, as `str::to_ascii_lowercase` does it.
pub fn ascii_lower_chars(v: &Vec<char>) -> (r: Vec<char>)
    ensures
        r@ == ascii_lower(v@),
{
    let mut r: Vec<char> = Vec::new();
    for k in 0..v.len()
        invariant
            r@ == ascii_lower(v@.subrange(0, k as int)),
    {
        r.push(lower_char_exec(v[k]));
        assert(r@ =~= ascii_lower(v@.subrange(0, k + 1)));
    }
    assert(v@.subrange(0, v@.len() as int) =~= v@);
    r
}

/// Whether `pat` occurs in `hay` at position `i`.
fn matches_at(hay: &Vec<char>, pat: &Vec<char>, i: usize) -> (b: bool)
    requires
        i + pat.len() <= hay.len(),
    ensures
        b == occurs_at(hay@, pat@, i as int),
{
    let m = pat.len();
    let mut t: usize = 0;
    while t < m
        invariant
            t <= m == pat.len(),
            i + m <= hay.len(),
            forall|q: int| 0 <= q < t ==> hay@[i + q] == pat@[q],
        decreases m - t,
    {
        if hay[i + t] != pat[t] {
            assert(hay@.subrange(i as int, i + m)[t as int] != pat@[t as int]);
            return false;
        }
        t += 1;
    }
    assert(hay@.subrange(i as int, i + m) =~= pat@);
    true
}

/// Whether `pat` occurs somewhere in `hay`.
pub fn contains_chars(hay: &Vec<char>, pat: &Vec<char>) -> (b: bool)
    ensures
        b == contains(hay@, pat@),
{
    let n = hay.len();
    let m = pat.len();
    if m > n {
        assert forall|i: int| !occurs_at(hay@, pat@, i) by {}
        return false;
    }
    let last = n - m;
    let mut i: usize = 0;
    while i <= last
        invariant
            last + m == n == hay.len(),
            m == pat.len(),
            forall|k: int| 0 <= k < i ==> !occurs_at(hay@, pat@, k),
        decreases last + 1 - i,
    {
        if matches_at(hay, pat, i) {
            return true;
        }
        if i == last {
            assert forall|k: int| !occurs_at(hay@, pat@, k) by {
                if 0 <= k < i {
                } else if k == i {
                } else {
                }
            }
            return false;
        }
        i += 1;
    }
    false
}

/// Pushes the decimal numeral of `n` onto `out`.
fn push_decimal(n: usize, out: &mut Vec<char>)
    ensures
        final(out)@ == old(out)@ + decimal_digits(n as nat),
    decreases n,
{
    if n >= 10 {
        push_decimal(n / 10, out);
    }
    let d: u8 = (n % 10) as u8;
    let c: char = (48u8 + d) as char;
    assert(c == digit_char((n % 10) as nat));
    out.push(c);
    proof {
        if n >= 10 {
            assert(decimal_digits(n as nat) == decimal_digits((n / 10) as nat).push(
                digit_char((n % 10) as nat),
            ));
        } else {
            assert(decimal_digits(n as nat) == seq![digit_char(n as nat)]);
        }
    }
    assert(out@ =~= old(out)@ + decimal_digits(n as nat));
}

/// The decimal numeral of `n`, as `format!("{n}")` writes it.
pub fn decimal(n: usize) -> (r: Vec<char>)
    ensures
        r@ == decimal_digits(n as nat),
{
    let mut out: Vec<char> = Vec::new();
    push_decimal(n, &mut out);
    assert(out@ =~= decimal_digits(n as nat));
    out
}

/// Law: the decimal numeral of `n` denotes `n`, so formatting an index loses nothing.
pub proof fn lemma_decimal_round_trip(n: nat)
    ensures
        decimal_value(decimal_digits(n)) == n,
    decreases n,
{
    if n < 10 {
        let s = decimal_digits(n);
        assert(s.drop_last() =~= Seq::<char>::empty());
        assert(decimal_value(s.drop_last()) == 0);
    } else {
        lemma_decimal_round_trip(n / 10);
        let s = decimal_digits(n);
        assert(s.drop_last() =~= decimal_digits(n / 10));
        assert(n == (n / 10) * 10 + n % 10) by (nonlinear_arith);
    }
}

/// Law: a text without surrounding whitespace is left unchanged by trimming, so
/// trimming twice is trimming once.
pub proof fn lemma_trim_idempotent(s: Seq<char>)
    ensures
        trimmed(trimmed(s)) == trimmed(s),
{
    lemma_trim_start_fixed(s);
    lemma_trim_end_keeps_clean_start(trim_start(s));
}

/// The result of `trim_start` does not begin with whitespace.
proof fn lemma_trim_start_fixed(s: Seq<char>)
    ensures
        trim_start(s).len() > 0 ==> !spec_is_whitespace(trim_start(s)[0]),
    decreases s.len(),
{
    if s.len() > 0 && spec_is_whitespace(s[0]) {
        lemma_trim_start_fixed(s.drop_first());
    }
}

/// Trimming the end of a text that does not begin with whitespace gives a text
/// that neither begins nor ends with whitespace, which both trims leave alone.
proof fn lemma_trim_end_keeps_clean_start(s: Seq<char>)
    requires
        s.len() > 0 ==> !spec_is_whitespace(s[0]),
    ensures
        trim_start(trim_end(s)) == trim_end(s),
        trim_end(trim_end(s)) == trim_end(s),
    decreases s.len(),
{
    if s.len() > 0 && spec_is_whitespace(s.last()) {
        let t = s.drop_last();
        if t.len() > 0 {
            assert(t[0] == s[0]);
        }
        lemma_trim_end_keeps_clean_start(t);
    }
}

/// Law: no printable ASCII character other than the space is whitespace
/// (punctuation, brackets, braces, letters and digits are all kept by trimming).
pub proof fn lemma_printable_ascii_is_not_whitespace(c: char)
    requires
        '!' <= c && c <= '~',
    ensures
        !spec_is_whitespace(c),
{
}

/// Law: space, tab, line feed, vertical tab, form feed and carriage return are
/// whitespace.
pub proof fn lemma_ascii_blanks_are_whitespace(c: char)
    requires
        c == ' ' || c == '\t' || c == '\n' || c == '\r' || c == '\x0B' || c == '\x0C',
    ensures
        spec_is_whitespace(c),
{
}

/// Trimming the front of a text followed by a non-whitespace character keeps
/// that character at the end.
proof fn lemma_trim_start_push(s: Seq<char>, c: char)
    requires
        !spec_is_whitespace(c),
    ensures
        trim_start(s.push(c)) == trim_start(s).push(c),
    decreases s.len(),
{
    if s.len() > 0 && spec_is_whitespace(s[0]) {
        assert(s.push(c).drop_first() =~= s.drop_first().push(c));
        lemma_trim_start_push(s.drop_first(), c);
    } else if s.len() == 0 {
        assert(s.push(c) =~= seq![c]);
        assert(trim_start(seq![c]) == seq![c]);
    }
}

/// Law: trimming keeps a text's last character when it is not whitespace, and
/// the result is a piece of the text: what trimming removes lies before the
/// first kept character.
pub proof fn lemma_trim_keeps_non_whitespace_end(s: Seq<char>, c: char)
    requires
        !spec_is_whitespace(c),
    ensures
        trimmed(s.push(c)).len() > 0,
        trimmed(s.push(c)).last() == c,
        trimmed(s.push(c)) == trim_start(s).push(c),
{
    lemma_trim_start_push(s, c);
    let t = trim_start(s).push(c);
    assert(t.last() == c);
}

/// Law: a text that neither begins nor ends with whitespace is left as it is by
/// trimming.
pub proof fn lemma_trim_keeps_clean_text(s: Seq<char>)
    requires
        s.len() > 0,
        !spec_is_whitespace(s[0]),
        !spec_is_whitespace(s.last()),
    ensures
        trimmed(s) == s,
{
}

} // verus!
