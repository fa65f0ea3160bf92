//! Null-terminated UTF-16 ("wide") strings.

use vstd::prelude::*;

verus! {

/// The UTF-16 code units of one character: one unit in the basic multilingual
/// plane, a surrogate pair above it.
pub open spec fn utf16_of_char(c: char) -> Seq<u16> {
    let v = c as int;
    if v < 0x10000 {
        seq![v as u16]
    } else {
        let u = v - 0x10000;
        seq![(0xD800 + u / 0x400) as u16, (0xDC00 + u % 0x400) as u16]
    }
}

/// The UTF-16 encoding of a character sequence.
pub open spec fn utf16_of(s: Seq<char>) -> Seq<u16>
    decreases s.len(),
{
    if s.len() == 0 {
        Seq::empty()
    } else {
        utf16_of(s.drop_last()) + utf16_of_char(s.last())
    }
}

/// The UTF-16 encoding of `s` followed by a single null terminator.
pub open spec fn wide_null(s: Seq<char>) -> Seq<u16> {
    utf16_of(s).push(0u16)
}

/// A character other than NUL encodes to code units that are all non-zero.
proof fn lemma_char_units_nonzero(c: char)
    requires
        c != '\0',
    ensures
        forall|i: int| 0 <= i < utf16_of_char(c).len() ==> #[trigger] utf16_of_char(c)[i] != 0,
{
    assert((c as int) != 0) by {
        if (c as int) == 0 {
            assert(c == '\0');
        }
    }
}

/// The first null unit of `wide_null(s)` is its terminator when `s` holds no NUL:
/// a reader that stops there sees `s` and nothing that stood in the buffer before.
pub proof fn lemma_terminator_ends_string(s: Seq<char>)
    requires
        forall|j: int| 0 <= j < s.len() ==> s[j] != '\0',
    ensures
        wide_null(s).len() == utf16_of(s).len() + 1,
        wide_null(s).last() == 0,
        forall|i: int| 0 <= i < utf16_of(s).len() ==> #[trigger] wide_null(s)[i] != 0,
        wide_null(s).subrange(0, utf16_of(s).len() as int) == utf16_of(s),
{
    lemma_units_nonzero(s);
    assert(wide_null(s).subrange(0, utf16_of(s).len() as int) =~= utf16_of(s));
}

proof fn lemma_units_nonzero(s: Seq<char>)
    requires
        forall|j: int| 0 <= j < s.len() ==> s[j] != '\0',
    ensures
        forall|i: int| 0 <= i < utf16_of(s).len() ==> #[trigger] utf16_of(s)[i] != 0,
    decreases s.len(),
{
    if s.len() > 0 {
        let t = s.drop_last();
        lemma_units_nonzero(t);
        lemma_char_units_nonzero(s.last());
        let a = utf16_of(t);
        let b = utf16_of_char(s.last());
        assert forall|i: int| 0 <= i < utf16_of(s).len() implies #[trigger] utf16_of(s)[i] != 0 by {
            if i < a.len() {
                assert(utf16_of(s)[i] == a[i]);
            } else {
                assert(utf16_of(s)[i] == b[i - a.len()]);
            }
        }
    }
}

/// Appends the UTF-16 code units of `c` to `out`.
fn push_utf16(out: &mut Vec<u16>, c: char)
    ensures
        final(out)@ == old(out)@ + utf16_of_char(c),
{
    let v: u32 = c as u32;
    if v < 0x10000 {
        out.push(v as u16);
    } else {
        let u: u32 = v - 0x10000;
        out.push((0xD800 + u / 0x400) as u16);
        out.push((0xDC00 + u % 0x400) as u16);
    }
    assert(final(out)@ =~= old(out)@ + utf16_of_char(c));
}

/// Encodes `s` as UTF-16 with a trailing null, the form the engine reads locale names in.
pub fn to_wide_null(s: &str) -> (r: Vec<u16>)
    ensures
        r@ == wide_null(s@),
{
    let n: usize = s.unicode_len();
    let mut out: Vec<u16> = Vec::new();
    let mut i: usize = 0;
    while i < n
        invariant
            n == s@.len(),
            i <= n,
            out@ == utf16_of(s@.subrange(0, i as int)),
        decreases n - i,
    {
        let c = s.get_char(i);
        push_utf16(&mut out, c);
        assert(s@.subrange(0, i + 1).drop_last() =~= s@.subrange(0, i as int));
        i = i + 1;
    }
    assert(s@.subrange(0, n as int) =~= s@);
    out.push(0u16);
    out
}

} // verus!
