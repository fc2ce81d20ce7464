//! Whitespace, trimming and comparison of text, over `Seq<char>` models.

use vstd::prelude::*;
use vstd::utf8::*;

verus! {

/// Whether `c` carries the Unicode `White_Space` property.
pub open spec fn is_whitespace(c: char) -> bool {
    let u = c as u32;
    ||| 0x09 <= u <= 0x0D
    ||| u == 0x20
    ||| u == 0x85
    ||| u == 0xA0
    ||| u == 0x1680
    ||| 0x2000 <= u <= 0x200A
    ||| u == 0x2028
    ||| u == 0x2029
    ||| u == 0x202F
    ||| u == 0x205F
    ||| u == 0x3000
}

/// Whether `s` is empty or made of whitespace only.
pub open spec fn is_blank(s: Seq<char>) -> bool {
    forall|i: int| 0 <= i < s.len() ==> is_whitespace(#[trigger] s[i])
}

/// `s` without its leading whitespace.
pub open spec fn trim_start(s: Seq<char>) -> Seq<char>
    decreases s.len(),
{
    if s.len() > 0 && is_whitespace(s[0]) {
        trim_start(s.drop_first())
    } else {
        s
    }
}

/// `s` without its trailing whitespace.
pub open spec fn trim_end(s: Seq<char>) -> Seq<char>
    decreases s.len(),
{
    if s.len() > 0 && is_whitespace(s.last()) {
        trim_end(s.drop_last())
    } else {
        s
    }
}

/// `s` without its leading and trailing whitespace.
pub open spec fn trim(s: Seq<char>) -> Seq<char> {
    trim_end(trim_start(s))
}

/// Where the whitespace that `trim` removes ends and begins again: everything
/// before `a` and from `b` on is whitespace, and what lies between them is
/// either empty or starts and ends with a character that is not.
pub open spec fn trim_bounds(s: Seq<char>, a: int, b: int) -> bool {
    &&& 0 <= a <= b <= s.len()
    &&& is_blank(s.subrange(0, a))
    &&& is_blank(s.subrange(b, s.len() as int))
    &&& a < b ==> !is_whitespace(s[a]) && !is_whitespace(s[b - 1])
}

proof fn lemma_trim_start(s: Seq<char>, a: int)
    requires
        0 <= a <= s.len(),
        is_blank(s.subrange(0, a)),
        a < s.len() ==> !is_whitespace(s[a]),
    ensures
        trim_start(s) == s.subrange(a, s.len() as int),
    decreases a,
{
    if a == 0 {
        assert(s.subrange(0, s.len() as int) =~= s);
    } else {
        assert(s.subrange(0, a)[0] == s[0]);
        let rest = s.drop_first();
        assert forall|i: int| 0 <= i < a - 1 implies is_whitespace(
            #[trigger] rest.subrange(0, a - 1)[i],
        ) by {
            assert(s.subrange(0, a)[i + 1] == rest.subrange(0, a - 1)[i]);
        }
        lemma_trim_start(rest, a - 1);
        assert(rest.subrange(a - 1, rest.len() as int) =~= s.subrange(a, s.len() as int));
    }
}

proof fn lemma_trim_end(s: Seq<char>, b: int)
    requires
        0 <= b <= s.len(),
        is_blank(s.subrange(b, s.len() as int)),
        0 < b ==> !is_whitespace(s[b - 1]),
    ensures
        trim_end(s) == s.subrange(0, b),
    decreases s.len() - b,
{
    if b == s.len() {
        assert(s.subrange(0, b) =~= s);
    } else {
        let n = s.len() as int;
        assert(s.subrange(b, n)[n - 1 - b] == s.last());
        let rest = s.drop_last();
        assert forall|i: int| 0 <= i < n - 1 - b implies is_whitespace(
            #[trigger] rest.subrange(b, n - 1)[i],
        ) by {
            assert(s.subrange(b, n)[i] == rest.subrange(b, n - 1)[i]);
        }
        lemma_trim_end(rest, b);
        assert(rest.subrange(0, b) =~= s.subrange(0, b));
    }
}

/// `trim` keeps exactly what lies between the bounds of the whitespace.
pub proof fn lemma_trim_between(s: Seq<char>, a: int, b: int)
    requires
        trim_bounds(s, a, b),
    ensures
        trim(s) == s.subrange(a, b),
{
    let n = s.len() as int;
    if a < b {
        lemma_trim_start(s, a);
        let t = s.subrange(a, n);
        assert forall|i: int| 0 <= i < n - b implies is_whitespace(
            #[trigger] t.subrange(b - a, n - a)[i],
        ) by {
            assert(s.subrange(b, n)[i] == t.subrange(b - a, n - a)[i]);
        }
        lemma_trim_end(t, b - a);
        assert(t.subrange(0, b - a) =~= s.subrange(a, b));
    } else {
        // Nothing but whitespace: the bounds meet, and all of `s` goes.
        assert forall|i: int| 0 <= i < n implies is_whitespace(#[trigger] s.subrange(0, n)[i]) by {
            if i < a {
                assert(s.subrange(0, a)[i] == s[i]);
            } else {
                assert(s.subrange(b, n)[i - b] == s[i]);
            }
        }
        lemma_trim_start(s, n);
        assert(s.subrange(n, n) =~= Seq::<char>::empty());
        assert(s.subrange(a, b) =~= Seq::<char>::empty());
    }
}

/// Trimming leaves nothing exactly when the text is blank.
pub proof fn lemma_trim_empty_iff_blank(s: Seq<char>)
    ensures
        trim(s).len() == 0 <==> is_blank(s),
{
    if is_blank(s) {
        let n = s.len() as int;
        assert(s.subrange(0, n) =~= s);
        assert(s.subrange(n, n) =~= Seq::<char>::empty());
        lemma_trim_between(s, n, n);
    } else {
        let (a, b) = lemma_trim_bounds_exist(s);
        lemma_trim_between(s, a, b);
        if a == b {
            assert forall|i: int| 0 <= i < s.len() implies is_whitespace(#[trigger] s[i]) by {
                if i < a {
                    assert(s.subrange(0, a)[i] == s[i]);
                } else {
                    assert(s.subrange(b, s.len() as int)[i - b] == s[i]);
                }
            }
        }
    }
}

/// Every text has bounds for `trim`.
pub proof fn lemma_trim_bounds_exist(s: Seq<char>) -> (r: (int, int))
    ensures
        trim_bounds(s, r.0, r.1),
    decreases s.len(),
{
    let n = s.len() as int;
    if n == 0 {
        (0, 0)
    } else if is_whitespace(s.last()) {
        let (a, b) = lemma_trim_bounds_exist(s.drop_last());
        let rest = s.drop_last();
        assert(s.subrange(0, a) =~= rest.subrange(0, a));
        assert forall|i: int| 0 <= i < n - b implies is_whitespace(#[trigger] s.subrange(b, n)[i]) by {
            if i < n - 1 - b {
                assert(rest.subrange(b, n - 1)[i] == s.subrange(b, n)[i]);
            }
        }
        (a, b)
    } else {
        let (a, b) = lemma_first_visible(s, 0);
        (a, n)
    }
}

proof fn lemma_first_visible(s: Seq<char>, from: int) -> (r: (int, int))
    requires
        0 <= from < s.len(),
        !is_whitespace(s.last()),
        is_blank(s.subrange(0, from)),
    ensures
        from <= r.0 < s.len(),
        r.1 == s.len(),
        is_blank(s.subrange(0, r.0)),
        !is_whitespace(s[r.0]),
    decreases s.len() - from,
{
    if !is_whitespace(s[from]) {
        (from, s.len() as int)
    } else {
        assert forall|i: int| 0 <= i < from + 1 implies is_whitespace(
            #[trigger] s.subrange(0, from + 1)[i],
        ) by {
            if i < from {
                assert(s.subrange(0, from)[i] == s[i]);
            }
        }
        lemma_first_visible(s, from + 1)
    }
}

pub fn whitespace(c: char) -> (r: bool)
    ensures
        r == is_whitespace(c),
{
    let u: u32 = c as u32;
    (0x09 <= u && u <= 0x0D) || u == 0x20 || u == 0x85 || u == 0xA0 || u == 0x1680 || (0x2000 <= u
        && u <= 0x200A) || u == 0x2028 || u == 0x2029 || u == 0x202F || u == 0x205F || u == 0x3000
}

pub fn blank(s: &str) -> (r: bool)
    ensures
        r == is_blank(s@),
{
    for c in it: s.chars()
        invariant
            it.seq() == s@,
            forall|i: int| 0 <= i < it.index() ==> is_whitespace(#[trigger] s@[i]),
    {
        if !whitespace(c) {
            return false;
        }
    }
    true
}

/// The part of `s` between its leading and its trailing whitespace.
pub fn trimmed(s: &str) -> (r: &str)
    ensures
        r@ == trim(s@),
{
    // Counting first bounds the positions that the walk below records.
    let n = s.unicode_len();
    let mut start: usize = 0;
    let mut end: usize = 0;
    let mut i: usize = 0;
    for c in it: s.chars()
        invariant
            it.seq() == s@,
            n == s@.len(),
            i == it.index(),
            start <= end <= i,
            forall|j: int| 0 <= j < start ==> is_whitespace(#[trigger] s@[j]),
            forall|j: int| end <= j < i ==> is_whitespace(#[trigger] s@[j]),
            start < end ==> !is_whitespace(s@[start as int]) && !is_whitespace(s@[end - 1]),
            start == end ==> start == 0,
    {
        if !whitespace(c) {
            if start == end {
                start = i;
            }
            end = i + 1;
        }
        i = i + 1;
    }
    proof {
        if start == end {
            assert(s@.subrange(0, 0) =~= Seq::<char>::empty());
        }
        lemma_trim_between(s@, start as int, end as int);
    }
    s.substring_char(start, end)
}

/// Whether two texts hold the same characters.
pub fn same_text(a: &str, b: &str) -> (r: bool)
    ensures
        r == (a@ == b@),
{
    let x = a.as_bytes();
    let y = b.as_bytes();
    proof {
        // Two texts are equal exactly when their UTF-8 encodings are.
        encode_utf8_decode_utf8(a@);
        encode_utf8_decode_utf8(b@);
    }
    if x.len() != y.len() {
        return false;
    }
    let mut i: usize = 0;
    while i < x.len()
        invariant
            x@ == encode_utf8(a@),
            y@ == encode_utf8(b@),
            i <= x@.len() == y@.len(),
            forall|j: int| 0 <= j < i ==> x@[j] == y@[j],
        decreases x@.len() - i,
    {
        if x[i] != y[i] {
            return false;
        }
        i = i + 1;
    }
    assert(x@ =~= y@);
    true
}

/// What std's `String::from_utf8_lossy` makes of `bytes`.
pub uninterp spec fn utf8_lossy(bytes: Seq<u8>) -> Seq<char>;

/// The text that `bytes` are read as: what they encode where they are valid
/// UTF-8, and otherwise what the lenient decoding of std makes of them.
pub open spec fn decoded(bytes: Seq<u8>) -> Seq<char> {
    if valid_utf8(bytes) {
        decode_utf8(bytes)
    } else {
        utf8_lossy(bytes)
    }
}

/// Text that was encoded as UTF-8 is read as itself.
pub proof fn lemma_decoded_encoding(text: Seq<char>)
    ensures
        decoded(encode_utf8(text)) == text,
{
    encode_utf8_valid_utf8(text);
    encode_utf8_decode_utf8(text);
}

/// Decodes `bytes` with std's `String::from_utf8_lossy`, which is not verified
/// here. Its documentation says that bytes which are valid UTF-8 come back as
/// the text they encode, and that every invalid sequence among them is
/// replaced by U+FFFD. The contract names the result and states the first of
/// the two; how the replacement goes is left to the name.
#[verifier::external_body]
pub(crate) fn decode_lossy(bytes: &[u8]) -> (text: String)
    ensures
        text@ == utf8_lossy(bytes@),
        valid_utf8(bytes@) ==> text@ == decode_utf8(bytes@),
{
    String::from_utf8_lossy(bytes).into_owned()
}

/// Reads `bytes` as text, invalid sequences and all.
pub fn decode(bytes: &[u8]) -> (text: String)
    ensures
        text@ == decoded(bytes@),
{
    decode_lossy(bytes)
}

} // verus!
