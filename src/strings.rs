//! Conversion of text into the zero-terminated UTF-16 form that wide-character
//! windowing entry points read.
use vstd::prelude::*;

verus! {

broadcast use vstd::string::axiom_spec_iter;

/// The UTF-16 code units of one Unicode scalar value.
pub open spec fn utf16_of_scalar(v: u32) -> Seq<u16> {
    if v < 0x10000 {
        seq![v as u16]
    } else {
        let u = v - 0x10000;
        seq![(0xD800 + u / 0x400) as u16, (0xDC00 + u % 0x400) as u16]
    }
}

/// The UTF-16 encoding of a sequence of characters.
pub open spec fn utf16_of(s: Seq<char>) -> Seq<u16>
    decreases s.len(),
{
    if s.len() == 0 {
        seq![]
    } else {
        utf16_of(s.drop_last()) + utf16_of_scalar(s.last() as u32)
    }
}

/// The UTF-16 encoding of `s` followed by one terminating zero unit.
pub open spec fn wide_of(s: Seq<char>) -> Seq<u16> {
    utf16_of(s).push(0u16)
}

/// Encodes `s` as UTF-16 and appends a single terminating zero unit.
pub fn str_to_wstr(s: &str) -> (r: Vec<u16>)
    ensures
        r@ == wide_of(s@),
{
    let mut out: Vec<u16> = Vec::new();
    for c in it: s.chars()
        invariant
            it.seq() == s@,
            out@ == utf16_of(s@.take(it.index() as int)),
    {
        let ghost k = it.index() as int;
        let v: u32 = c as u32;
        if v < 0x10000 {
            out.push(v as u16);
        } else {
            let u: u32 = v - 0x10000;
            out.push((0xD800 + u / 0x400) as u16);
            out.push((0xDC00 + u % 0x400) as u16);
        }
        assert(s@.take(k + 1).drop_last() == s@.take(k));
    }
    assert(s@.take(s@.len() as int) == s@);
    out.push(0);
    out
}

/// Whether `u` is the second unit of a surrogate pair.
pub open spec fn is_low_surrogate(u: u16) -> bool {
    0xDC00 <= u <= 0xDFFF
}

/// Decodes UTF-16 units into scalar values, reading surrogate pairs from the end.
pub open spec fn decode_utf16(w: Seq<u16>) -> Seq<u32>
    decreases w.len(),
{
    if w.len() == 0 {
        seq![]
    } else if w.len() >= 2 && is_low_surrogate(w.last()) {
        let hi = w[w.len() - 2] as int;
        let lo = w.last() as int;
        decode_utf16(w.take(w.len() - 2)).push((0x10000 + (hi - 0xD800) * 0x400 + (lo - 0xDC00)) as u32)
    } else {
        decode_utf16(w.drop_last()).push(w.last() as u32)
    }
}

/// The scalar values of the characters of `s`.
pub open spec fn scalars_of(s: Seq<char>) -> Seq<u32> {
    s.map_values(|c: char| c as u32)
}

/// Whether no character of `s` is the null character.
pub open spec fn has_no_null(s: Seq<char>) -> bool {
    forall|i: int| 0 <= i < s.len() ==> s[i] as u32 != 0
}

proof fn lemma_utf16_round_trip(s: Seq<char>)
    ensures
        decode_utf16(utf16_of(s)) == scalars_of(s),
    decreases s.len(),
{
    if s.len() > 0 {
        let p = s.drop_last();
        let v = s.last() as u32;
        let e = utf16_of(s);
        lemma_utf16_round_trip(p);
        assert(scalars_of(s) =~= scalars_of(p).push(v));
        vstd::utf8::char_is_scalar(s.last());
        assert(vstd::utf8::is_scalar(v));
        assert(e == utf16_of(p) + utf16_of_scalar(v));
        if v < 0x10000 {
            assert(e.drop_last() =~= utf16_of(p));
            assert(e.last() == v as u16);
            assert(!is_low_surrogate(e.last()));
            assert(decode_utf16(e) == decode_utf16(e.drop_last()).push(v));
        } else {
            let u = (v - 0x10000) as int;
            assert(u == (u / 0x400) * 0x400 + u % 0x400) by (nonlinear_arith);
            assert(e.take(e.len() - 2) =~= utf16_of(p));
            assert(e.last() == (0xDC00 + u % 0x400) as u16);
            assert(e[e.len() - 2] == (0xD800 + u / 0x400) as u16);
            assert(is_low_surrogate(e.last()));
            assert(decode_utf16(e) == decode_utf16(e.take(e.len() - 2)).push(v));
        }
    }
}

proof fn lemma_utf16_no_zero(s: Seq<char>)
    requires
        has_no_null(s),
    ensures
        forall|i: int| 0 <= i < utf16_of(s).len() ==> utf16_of(s)[i] != 0,
    decreases s.len(),
{
    if s.len() > 0 {
        let p = s.drop_last();
        assert(has_no_null(p)) by {
            assert forall|i: int| 0 <= i < p.len() implies p[i] as u32 != 0 by {
                assert(p[i] == s[i]);
            }
        }
        assert(s.last() == s[s.len() - 1]);
        lemma_utf16_no_zero(p);
        let v = s.last() as u32;
        assert(v != 0);
        vstd::utf8::char_is_scalar(s.last());
        let e = utf16_of(s);
        assert(e == utf16_of(p) + utf16_of_scalar(v));
        assert forall|i: int| 0 <= i < e.len() implies e[i] != 0 by {
            if i >= utf16_of(p).len() {
                assert(e[i] == utf16_of_scalar(v)[i - utf16_of(p).len()]);
            } else {
                assert(e[i] == utf16_of(p)[i]);
            }
        }
    }
}

/// Decoding the bridge output without its terminator gives back the scalar
/// values of the input text, one for each character.
pub proof fn lemma_wide_round_trip(s: Seq<char>)
    ensures
        decode_utf16(wide_of(s).drop_last()) == scalars_of(s),
{
    assert(wide_of(s).drop_last() =~= utf16_of(s));
    lemma_utf16_round_trip(s);
}

/// The bridge output ends in a zero unit; where the text holds no null
/// character, that terminator is its only zero unit.
pub proof fn lemma_wide_single_terminator(s: Seq<char>)
    ensures
        wide_of(s).len() >= 1,
        wide_of(s).last() == 0,
        has_no_null(s) ==> forall|i: int| 0 <= i < wide_of(s).len() - 1 ==> wide_of(s)[i] != 0,
{
    if has_no_null(s) {
        lemma_utf16_no_zero(s);
        assert forall|i: int| 0 <= i < wide_of(s).len() - 1 implies wide_of(s)[i] != 0 by {
            assert(wide_of(s)[i] == utf16_of(s)[i]);
        }
    }
}

} // verus!
