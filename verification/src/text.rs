//! Character-level helpers shared by the parsers and formatters of the crate.

use vstd::prelude::*;

verus! {

/// Appends one character: `String::push`, documented as appending the given
/// `char` to the end of the string.
#[verifier::external_body]
pub(crate) fn push_char(s: &mut String, c: char)
    ensures
        final(s)@ == old(s)@.push(c),
{
    s.push(c);
}

/// Unicode `White_Space`, which is what `char::is_whitespace` and `str::trim` use.
pub open spec fn is_white_space(c: char) -> bool {
    let u = c as u32;
    ||| 0x09 <= u <= 0x0D
    ||| u == 0x20
    ||| u == 0x85
    ||| u == 0xA0
    ||| u == 0x1680
    ||| 0x2000 <= u <= 0x200A
    ||| u == 0x2028
    ||| u == 0x2029
    ||| u == 0x202F
    ||| u == 0x205F
    ||| u == 0x3000
}

pub fn white_space(c: char) -> (res: bool)
    ensures
        res == is_white_space(c),
{
    let u = c as u32;
    (0x09 <= u && u <= 0x0D) || u == 0x20 || u == 0x85 || u == 0xA0 || u == 0x1680 || (0x2000
        <= u && u <= 0x200A) || u == 0x2028 || u == 0x2029 || u == 0x202F || u == 0x205F || u
        == 0x3000
}

/// The first index `j` in `lo..hi` with `s[j] == c`, or `hi` when there is none.
pub open spec fn find_in(s: Seq<char>, c: char, lo: int, hi: int) -> int
    decreases hi - lo,
{
    if lo >= hi {
        hi
    } else if s[lo] == c {
        lo
    } else {
        find_in(s, c, lo + 1, hi)
    }
}

/// The first index in `lo..hi` that does not hold white space, or `hi`.
pub open spec fn skip_ws(s: Seq<char>, lo: int, hi: int) -> int
    decreases hi - lo,
{
    if lo >= hi {
        hi
    } else if is_white_space(s[lo]) {
        skip_ws(s, lo + 1, hi)
    } else {
        lo
    }
}

/// The end of `s[lo..hi]` once trailing white space is cut off.
pub open spec fn back_ws(s: Seq<char>, lo: int, hi: int) -> int
    decreases hi - lo,
{
    if hi <= lo {
        lo
    } else if is_white_space(s[hi - 1]) {
        back_ws(s, lo, hi - 1)
    } else {
        hi
    }
}

/// `str::trim`: the text without its leading and trailing white space.
pub open spec fn trim(s: Seq<char>) -> Seq<char> {
    let a = skip_ws(s, 0, s.len() as int);
    s.subrange(a, back_ws(s, a, s.len() as int))
}

pub proof fn lemma_find_in_bounds(s: Seq<char>, c: char, lo: int, hi: int)
    requires
        lo <= hi,
    ensures
        lo <= find_in(s, c, lo, hi) <= hi,
        find_in(s, c, lo, hi) < hi ==> s[find_in(s, c, lo, hi)] == c,
        forall|j: int| lo <= j < find_in(s, c, lo, hi) ==> s[j] != c,
    decreases hi - lo,
{
    if lo < hi && s[lo] != c {
        lemma_find_in_bounds(s, c, lo + 1, hi);
    }
}

/// When `s[lo..hi]` holds no `c`, the search runs to `hi`.
pub proof fn lemma_find_in_absent(s: Seq<char>, c: char, lo: int, hi: int)
    requires
        lo <= hi,
        forall|j: int| lo <= j < hi ==> s[j] != c,
    ensures
        find_in(s, c, lo, hi) == hi,
    decreases hi - lo,
{
    if lo < hi {
        lemma_find_in_absent(s, c, lo + 1, hi);
    }
}

/// The search stops at the first `c`.
pub proof fn lemma_find_in_first(s: Seq<char>, c: char, lo: int, k: int, hi: int)
    requires
        lo <= k < hi,
        s[k] == c,
        forall|j: int| lo <= j < k ==> s[j] != c,
    ensures
        find_in(s, c, lo, hi) == k,
    decreases k - lo,
{
    if lo < k {
        lemma_find_in_first(s, c, lo + 1, k, hi);
    }
}

pub proof fn lemma_skip_ws_bounds(s: Seq<char>, lo: int, hi: int)
    requires
        lo <= hi,
    ensures
        lo <= skip_ws(s, lo, hi) <= hi,
        forall|j: int| lo <= j < skip_ws(s, lo, hi) ==> is_white_space(s[j]),
    decreases hi - lo,
{
    if lo < hi && is_white_space(s[lo]) {
        lemma_skip_ws_bounds(s, lo + 1, hi);
    }
}

pub proof fn lemma_back_ws_bounds(s: Seq<char>, lo: int, hi: int)
    requires
        lo <= hi,
    ensures
        lo <= back_ws(s, lo, hi) <= hi,
        forall|j: int| back_ws(s, lo, hi) <= j < hi ==> is_white_space(s[j]),
    decreases hi - lo,
{
    if lo < hi && is_white_space(s[hi - 1]) {
        lemma_back_ws_bounds(s, lo, hi - 1);
    }
}

/// The characters of a string slice.
pub fn chars_of(s: &str) -> (res: Vec<char>)
    ensures
        res@ == s@,
{
    let n = s.unicode_len();
    let mut v: Vec<char> = Vec::new();
    let mut i: usize = 0;
    while i < n
        invariant
            n == s@.len(),
            i <= n,
            v@ == s@.subrange(0, i as int),
        decreases n - i,
    {
        v.push(s.get_char(i));
        i += 1;
        assert(v@ =~= s@.subrange(0, i as int));
    }
    assert(v@ =~= s@);
    v
}

/// The string made of `v[lo..hi]`.
pub fn string_of(v: &Vec<char>, lo: usize, hi: usize) -> (res: String)
    requires
        lo <= hi <= v@.len(),
    ensures
        res@ == v@.subrange(lo as int, hi as int),
{
    let mut s = String::new();
    let mut i = lo;
    while i < hi
        invariant
            lo <= i <= hi <= v@.len(),
            s@ == v@.subrange(lo as int, i as int),
        decreases hi - i,
    {
        push_char(&mut s, v[i]);
        i += 1;
        assert(s@ =~= v@.subrange(lo as int, i as int));
    }
    s
}

/// Index of the first `c` in `v[lo..hi]`, or `hi`.
pub fn find_char(v: &Vec<char>, c: char, lo: usize, hi: usize) -> (res: usize)
    requires
        lo <= hi <= v@.len(),
    ensures
        res == find_in(v@, c, lo as int, hi as int),
{
    let mut j = lo;
    while j < hi && v[j] != c
        invariant
            lo <= j <= hi <= v@.len(),
            find_in(v@, c, lo as int, hi as int) == find_in(v@, c, j as int, hi as int),
        decreases hi - j,
    {
        j += 1;
    }
    j
}

/// First index in `v[lo..hi]` that is not white space, or `hi`.
pub fn skip_white_space(v: &Vec<char>, lo: usize, hi: usize) -> (res: usize)
    requires
        lo <= hi <= v@.len(),
    ensures
        res == skip_ws(v@, lo as int, hi as int),
{
    let mut j = lo;
    while j < hi && white_space(v[j])
        invariant
            lo <= j <= hi <= v@.len(),
            skip_ws(v@, lo as int, hi as int) == skip_ws(v@, j as int, hi as int),
        decreases hi - j,
    {
        j += 1;
    }
    j
}

/// End of `v[lo..hi]` with trailing white space removed.
pub fn back_white_space(v: &Vec<char>, lo: usize, hi: usize) -> (res: usize)
    requires
        lo <= hi <= v@.len(),
    ensures
        res == back_ws(v@, lo as int, hi as int),
{
    let mut j = hi;
    while j > lo && white_space(v[j - 1])
        invariant
            lo <= j <= hi <= v@.len(),
            back_ws(v@, lo as int, hi as int) == back_ws(v@, lo as int, j as int),
        decreases j - lo,
    {
        j -= 1;
    }
    j
}

/// Whether `v[lo..hi]` spells `word`.
pub fn range_equals(v: &Vec<char>, lo: usize, hi: usize, word: &str) -> (res: bool)
    requires
        lo <= hi <= v@.len(),
    ensures
        res == (v@.subrange(lo as int, hi as int) == word@),
{
    let w = chars_of(word);
    if hi - lo != w.len() {
        assert(v@.subrange(lo as int, hi as int).len() != word@.len());
        return false;
    }
    let mut i: usize = 0;
    while i < w.len()
        invariant
            lo <= hi <= v@.len(),
            hi - lo == w@.len(),
            w@ == word@,
            i <= w@.len(),
            forall|k: int| 0 <= k < i ==> v@[lo + k] == w@[k],
        decreases w@.len() - i,
    {
        if v[lo + i] != w[i] {
            assert(v@.subrange(lo as int, hi as int)[i as int] != word@[i as int]);
            return false;
        }
        i += 1;
    }
    assert(v@.subrange(lo as int, hi as int) =~= word@);
    true
}

/// The decimal digit `d`, for `d < 10`, or the lower-case hexadecimal digit for `d < 16`.
pub open spec fn hex_digit(d: int) -> char {
    if d < 10 {
        (48 + d) as char
    } else {
        (87 + d) as char
    }
}

pub fn hex_digit_char(d: u8) -> (res: char)
    requires
        d < 16,
    ensures
        res == hex_digit(d as int),
{
    if d < 10 {
        (48u8 + d) as char
    } else {
        (87u8 + d) as char
    }
}

/// Decimal notation of a natural number, as `u64`'s `Display` writes it.
pub open spec fn decimal(n: nat) -> Seq<char>
    decreases n,
{
    if n < 10 {
        seq![hex_digit(n as int)]
    } else {
        decimal(n / 10).push(hex_digit((n % 10) as int))
    }
}

/// Appends the decimal notation of `n`.
pub fn push_decimal(out: &mut String, n: u64)
    ensures
        final(out)@ == old(out)@ + decimal(n as nat),
    decreases n,
{
    if n >= 10 {
        push_decimal(out, n / 10);
    }
    push_char(out, hex_digit_char((n % 10) as u8));
    assert(final(out)@ =~= old(out)@ + decimal(n as nat));
}

} // verus!

verus! {

/// String equality, `a == b`.
pub fn text_equals(a: &str, b: &str) -> (res: bool)
    ensures
        res == (a@ == b@),
{
    let v = chars_of(a);
    assert(v@.subrange(0, v@.len() as int) =~= v@);
    range_equals(&v, 0, v.len(), b)
}

} // verus!
