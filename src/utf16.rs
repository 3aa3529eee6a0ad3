//! UTF-16 encoding of text, as the system clipboard stores it.
use vstd::prelude::*;

verus! {

/// The UTF-16 code units of one character: one unit inside the basic
/// multilingual plane, a surrogate pair above it.
pub open spec fn char_units(c: char) -> Seq<u16> {
    let v = c as int;
    if v < 0x10000 {
        seq![v as u16]
    } else {
        let w = v - 0x10000;
        seq![(0xD800 + w / 0x400) as u16, (0xDC00 + w % 0x400) as u16]
    }
}

/// The UTF-16 code units of a text, character after character.
pub open spec fn utf16_units(s: Seq<char>) -> Seq<u16>
    decreases s.len(),
{
    if s.len() == 0 {
        Seq::empty()
    } else {
        utf16_units(s.drop_last()) + char_units(s.last())
    }
}

/// Appends the code units of `c` to `out`.
fn push_char_units(out: &mut Vec<u16>, c: char)
    ensures
        final(out)@ == old(out)@ + char_units(c),
{
    let v: u32 = c as u32;
    if v < 0x10000 {
        out.push(v as u16);
    } else {
        let w: u32 = v - 0x10000;
        out.push((0xD800 + w / 0x400) as u16);
        out.push((0xDC00 + w % 0x400) as u16);
    }
    assert(final(out)@ =~= old(out)@ + char_units(c));
}

/// Encodes `s` as UTF-16 code units.
pub fn encode_utf16(s: &str) -> (r: Vec<u16>)
    ensures
        r@ == utf16_units(s@),
{
    broadcast use vstd::string::group_string_axioms;
    let mut out: Vec<u16> = Vec::new();
    for c in it: s.chars()
        invariant
            it.seq() == s@,
            out@ == utf16_units(s@.subrange(0, it.index() as int)),
    {
        push_char_units(&mut out, c);
        proof {
            let next = s@.subrange(0, it.index() + 1);
            assert(next.drop_last() =~= s@.subrange(0, it.index() as int));
        }
    }
    assert(s@.subrange(0, s@.len() as int) =~= s@);
    out
}

/// The clipboard's text payload for `s`: its UTF-16 units followed by a
/// terminating zero unit.
pub open spec fn clipboard_payload(s: Seq<char>) -> Seq<u16> {
    utf16_units(s).push(0u16)
}

/// Encodes `s` as a zero-terminated UTF-16 clipboard payload.
pub fn encode_payload(s: &str) -> (r: Vec<u16>)
    ensures
        r@ == clipboard_payload(s@),
{
    let mut units = encode_utf16(s);
    units.push(0u16);
    units
}

} // verus!
