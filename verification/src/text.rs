//! Character-level text operations used by the user-data and metadata logic:
//! whitespace trimming, splitting at the first occurrence of a character,
//! equality of strings, and conversions between strings and UTF-8 bytes.
use vstd::prelude::*;
use vstd::utf8::{decode_utf8, encode_utf8, valid_utf8};

verus! {

/// The error `String::from_utf8` reports for bytes that are not UTF-8.
#[verifier::external_type_specification]
#[verifier::external_body]
pub struct ExFromUtf8Error(std::string::FromUtf8Error);

/// Unicode `White_Space`, the set of characters that `char::is_whitespace`
/// accepts and that `str::trim` removes.
pub open spec fn spec_is_whitespace(c: char) -> bool {
    let u = c as u32;
    ||| 0x09 <= u <= 0x0d
    ||| u == 0x20
    ||| u == 0x85
    ||| u == 0xa0
    ||| u == 0x1680
    ||| 0x2000 <= u <= 0x200a
    ||| u == 0x2028
    ||| u == 0x2029
    ||| u == 0x202f
    ||| u == 0x205f
    ||| u == 0x3000
}

/// `s` without its leading whitespace.
pub open spec fn trim_start(s: Seq<char>) -> Seq<char>
    decreases s.len(),
{
    if s.len() > 0 && spec_is_whitespace(s[0]) {
        trim_start(s.drop_first())
    } else {
        s
    }
}

/// `s` without its trailing whitespace.
pub open spec fn trim_end(s: Seq<char>) -> Seq<char>
    decreases s.len(),
{
    if s.len() > 0 && spec_is_whitespace(s.last()) {
        trim_end(s.drop_last())
    } else {
        s
    }
}

/// `s` without leading and trailing whitespace.
pub open spec fn spec_trim(s: Seq<char>) -> Seq<char> {
    trim_end(trim_start(s))
}

/// The position of the first `c` in `s`, if there is one.
pub open spec fn first_index_of(s: Seq<char>, c: char) -> Option<int>
    decreases s.len(),
{
    if s.len() == 0 {
        None
    } else if s[0] == c {
        Some(0)
    } else {
        match first_index_of(s.drop_first(), c) {
            Some(i) => Some(i + 1),
            None => None,
        }
    }
}

/// The text before and the text after the first `c` in `s`, or `None` where
/// `s` holds no `c`.
pub open spec fn spec_split_once(s: Seq<char>, c: char) -> Option<(Seq<char>, Seq<char>)> {
    match first_index_of(s, c) {
        Some(i) => Some((s.take(i), s.skip(i + 1))),
        None => None,
    }
}

proof fn lemma_trim_start_clean(s: Seq<char>)
    ensures
        trim_start(s).len() == 0 || !spec_is_whitespace(trim_start(s)[0]),
    decreases s.len(),
{
    if s.len() > 0 && spec_is_whitespace(s[0]) {
        lemma_trim_start_clean(s.drop_first());
    }
}

proof fn lemma_trim_end_clean(s: Seq<char>)
    ensures
        trim_end(s).len() == 0 || !spec_is_whitespace(trim_end(s).last()),
        trim_end(s).len() <= s.len(),
        trim_end(s) == s.take(trim_end(s).len() as int),
    decreases s.len(),
{
    if s.len() > 0 && spec_is_whitespace(s.last()) {
        let t = s.drop_last();
        lemma_trim_end_clean(t);
        assert(t.take(trim_end(t).len() as int) =~= s.take(trim_end(t).len() as int));
    } else {
        assert(s.take(s.len() as int) =~= s);
    }
}

/// Trimming twice is trimming once: a trimmed text has no whitespace at
/// either end.
pub proof fn lemma_trim_idempotent(s: Seq<char>)
    ensures
        spec_trim(spec_trim(s)) == spec_trim(s),
        spec_trim(s).len() == 0 || (!spec_is_whitespace(spec_trim(s)[0])
            && !spec_is_whitespace(spec_trim(s).last())),
{
    let a = trim_start(s);
    let t = trim_end(a);
    lemma_trim_start_clean(s);
    lemma_trim_end_clean(a);
    if t.len() > 0 {
        assert(t == a.take(t.len() as int));
        assert(t[0] == a.take(t.len() as int)[0]);
    }
    assert(trim_start(t) == t);
    assert(trim_end(t) == t);
}

/// Where the first `lo` characters are whitespace and the next is not (or
/// there is none), trimming the start removes exactly those `lo`.
pub proof fn lemma_trim_start_at(s: Seq<char>, lo: int)
    requires
        0 <= lo <= s.len(),
        forall|j: int| 0 <= j < lo ==> spec_is_whitespace(#[trigger] s[j]),
        lo == s.len() || !spec_is_whitespace(s[lo]),
    ensures
        trim_start(s) == s.skip(lo),
    decreases lo,
{
    if lo == 0 {
        assert(s.skip(0) =~= s);
    } else {
        let t = s.drop_first();
        assert forall|j: int| 0 <= j < lo - 1 implies spec_is_whitespace(#[trigger] t[j]) by {
            assert(t[j] == s[j + 1]);
        }
        if lo < s.len() {
            assert(t[lo - 1] == s[lo]);
        }
        lemma_trim_start_at(t, lo - 1);
        assert(t.skip(lo - 1) =~= s.skip(lo));
    }
}

/// Where the characters from `hi` on are whitespace and the one before is
/// not (or there is none), trimming the end keeps exactly the first `hi`.
pub proof fn lemma_trim_end_at(s: Seq<char>, hi: int)
    requires
        0 <= hi <= s.len(),
        forall|j: int| hi <= j < s.len() ==> spec_is_whitespace(#[trigger] s[j]),
        hi == 0 || !spec_is_whitespace(s[hi - 1]),
    ensures
        trim_end(s) == s.take(hi),
    decreases s.len() - hi,
{
    if hi == s.len() {
        assert(s.take(hi) =~= s);
    } else {
        let t = s.drop_last();
        assert(spec_is_whitespace(s[s.len() - 1]));
        assert forall|j: int| hi <= j < t.len() implies spec_is_whitespace(#[trigger] t[j]) by {
            assert(t[j] == s[j]);
        }
        if hi > 0 {
            assert(t[hi - 1] == s[hi - 1]);
        }
        lemma_trim_end_at(t, hi);
        assert(t.take(hi) =~= s.take(hi));
    }
}

/// Where `i` is the first position of `c` (or `s.len()` where there is none),
/// `first_index_of` says so.
pub proof fn lemma_first_index_at(s: Seq<char>, c: char, i: int)
    requires
        0 <= i <= s.len(),
        forall|j: int| 0 <= j < i ==> #[trigger] s[j] != c,
        i == s.len() || s[i] == c,
    ensures
        first_index_of(s, c) == (if i == s.len() {
            None::<int>
        } else {
            Some(i)
        }),
    decreases i,
{
    if s.len() == 0 {
    } else if i == 0 {
    } else {
        let t = s.drop_first();
        assert(s[0] != c);
        assert forall|j: int| 0 <= j < i - 1 implies #[trigger] t[j] != c by {
            assert(t[j] == s[j + 1]);
        }
        if i < s.len() {
            assert(t[i - 1] == s[i]);
        }
        lemma_first_index_at(t, c, i - 1);
    }
}

/// Whether `c` is whitespace, as `char::is_whitespace` decides it.
pub fn is_whitespace(c: char) -> (r: bool)
    ensures
        r == spec_is_whitespace(c),
{
    let u = c as u32;
    (0x09 <= u && u <= 0x0d) || u == 0x20 || u == 0x85 || u == 0xa0 || u == 0x1680 || (0x2000
        <= u && u <= 0x200a) || u == 0x2028 || u == 0x2029 || u == 0x202f || u == 0x205f || u
        == 0x3000
}

/// The characters of `s`, in order.
pub fn chars_of(s: &str) -> (out: Vec<char>)
    ensures
        out@ == s@,
{
    let mut out: Vec<char> = Vec::new();
    for c in it: s.chars()
        invariant
            out@ == it.seq().take(it.index() as int),
    {
        out.push(c);
    }
    out
}

/// Appends one character to a string (`String::push`).
#[verifier::external_body]
fn push_char(s: &mut String, c: char)
    ensures
        final(s)@ == old(s)@.push(c),
{
    s.push(c);
}

/// A string made of `cs[lo..hi]`.
pub fn string_from_range(cs: &Vec<char>, lo: usize, hi: usize) -> (s: String)
    requires
        lo <= hi <= cs.len(),
    ensures
        s@ == cs@.subrange(lo as int, hi as int),
{
    let mut s = String::new();
    let mut i = lo;
    while i < hi
        invariant
            lo <= i <= hi <= cs.len(),
            s@ == cs@.subrange(lo as int, i as int),
        decreases hi - i,
    {
        push_char(&mut s, cs[i]);
        i = i + 1;
        assert(s@ =~= cs@.subrange(lo as int, i as int));
    }
    s
}

/// A copy of `s` as an owned string.
pub fn owned(s: &str) -> (r: String)
    ensures
        r@ == s@,
{
    let cs = chars_of(s);
    string_from_range(&cs, 0, cs.len())
}

/// The concatenation of `a` and `b`.
pub fn concat(a: String, b: &str) -> (r: String)
    ensures
        r@ == a@ + b@,
{
    let mut r = a;
    let ghost a_view = r@;
    let cs = chars_of(b);
    let mut i: usize = 0;
    while i < cs.len()
        invariant
            i <= cs.len(),
            cs@ == b@,
            r@ == a_view + cs@.take(i as int),
        decreases cs.len() - i,
    {
        push_char(&mut r, cs[i]);
        i = i + 1;
        assert(r@ =~= a_view + cs@.take(i as int));
    }
    assert(cs@.take(cs.len() as int) =~= cs@);
    r
}

/// Whether `a` and `b` hold the same characters.
pub fn str_eq(a: &str, b: &str) -> (r: bool)
    ensures
        r == (a@ == b@),
{
    let x = chars_of(a);
    let y = chars_of(b);
    if x.len() != y.len() {
        return false;
    }
    let mut i: usize = 0;
    while i < x.len()
        invariant
            i <= x.len() == y.len(),
            x@ == a@,
            y@ == b@,
            forall|j: int| 0 <= j < i ==> x@[j] == y@[j],
        decreases x.len() - i,
    {
        if x[i] != y[i] {
            assert(x@[i as int] != y@[i as int]);
            return false;
        }
        i = i + 1;
    }
    assert(x@ =~= y@);
    true
}

/// `s` without leading and trailing whitespace (`str::trim`).
pub fn trim(s: &str) -> (r: String)
    ensures
        r@ == spec_trim(s@),
{
    let cs = chars_of(s);
    let n = cs.len();
    let mut lo: usize = 0;
    while lo < n && is_whitespace(cs[lo])
        invariant
            lo <= n == cs.len(),
            forall|j: int| 0 <= j < lo ==> spec_is_whitespace(#[trigger] cs@[j]),
        decreases n - lo,
    {
        lo = lo + 1;
    }
    let mut hi: usize = n;
    while hi > lo && is_whitespace(cs[hi - 1])
        invariant
            lo <= hi <= n == cs.len(),
            forall|j: int| hi <= j < n ==> spec_is_whitespace(#[trigger] cs@[j]),
        decreases hi - lo,
    {
        hi = hi - 1;
    }
    proof {
        lemma_trim_start_at(cs@, lo as int);
        let t = cs@.skip(lo as int);
        assert forall|j: int| hi - lo <= j < t.len() implies spec_is_whitespace(#[trigger] t[j]) by {
            assert(t[j] == cs@[j + lo]);
        }
        if hi > lo {
            assert(t[hi - lo - 1] == cs@[hi - 1]);
        }
        lemma_trim_end_at(t, hi - lo);
        assert(t.take(hi - lo) =~= cs@.subrange(lo as int, hi as int));
    }
    string_from_range(&cs, lo, hi)
}

/// The text before and the text after the first `sep` in `s`
/// (`str::split_once` with a character pattern).
pub fn split_once(s: &str, sep: char) -> (r: Option<(String, String)>)
    ensures
        match spec_split_once(s@, sep) {
            Some((a, b)) => r matches Some((x, y)) && x@ == a && y@ == b,
            None => r is None,
        },
{
    let cs = chars_of(s);
    let n = cs.len();
    let mut i: usize = 0;
    while i < n && cs[i] != sep
        invariant
            i <= n == cs.len(),
            forall|j: int| 0 <= j < i ==> #[trigger] cs@[j] != sep,
        decreases n - i,
    {
        i = i + 1;
    }
    proof {
        lemma_first_index_at(cs@, sep, i as int);
    }
    if i == n {
        None
    } else {
        let before = string_from_range(&cs, 0, i);
        let after = string_from_range(&cs, i + 1, n);
        assert(cs@.subrange(0, i as int) =~= cs@.take(i as int));
        assert(cs@.subrange(i + 1, n as int) =~= cs@.skip(i + 1));
        Some((before, after))
    }
}

/// The UTF-8 encoding of `s`.
pub fn utf8_bytes(s: &str) -> (out: Vec<u8>)
    ensures
        out@ == encode_utf8(s@),
{
    let bytes = s.as_bytes();
    let mut out: Vec<u8> = Vec::new();
    let mut i: usize = 0;
    while i < bytes.len()
        invariant
            i <= bytes@.len(),
            bytes@ == encode_utf8(s@),
            out@ == bytes@.take(i as int),
        decreases bytes@.len() - i,
    {
        out.push(bytes[i]);
        i = i + 1;
        assert(out@ =~= bytes@.take(i as int));
    }
    assert(bytes@.take(i as int) =~= bytes@);
    out
}

/// The string that the bytes encode (`String::from_utf8`): defined exactly
/// when the bytes are valid UTF-8, and then their decoding.
#[verifier::external_body]
fn string_from_utf8(bytes: Vec<u8>) -> (r: Result<String, std::string::FromUtf8Error>)
    ensures
        r is Ok <==> valid_utf8(bytes@),
        r matches Ok(s) ==> s@ == decode_utf8(bytes@),
{
    String::from_utf8(bytes)
}

/// The text that UTF-8 bytes encode, or `None` where they are not UTF-8.
pub fn decode_utf8_bytes(bytes: Vec<u8>) -> (r: Option<String>)
    ensures
        r is Some <==> valid_utf8(bytes@),
        r matches Some(s) ==> s@ == decode_utf8(bytes@),
{
    match string_from_utf8(bytes) {
        Ok(s) => Some(s),
        Err(_) => None,
    }
}

} // verus!
