//! Wide strings: the NUL-terminated UTF-16 form in which the platform's
//! windowing APIs take names such as the overlay's window class.

use vstd::prelude::*;
use vstd::string::StrSliceExecFns;

verus! {

/// The UTF-16 code units of one scalar value: a single unit below 0x10000,
/// a surrogate pair above it.
pub open spec fn spec_utf16_char(c: char) -> Seq<u16> {
    let v = c as int;
    if v < 0x10000 {
        seq![v as u16]
    } else {
        seq![
            (0xD800 + ((v - 0x10000) / 0x400)) as u16,
            (0xDC00 + ((v - 0x10000) % 0x400)) as u16,
        ]
    }
}

/// The UTF-16 code units of a string, character by character.
pub open spec fn spec_utf16(s: Seq<char>) -> Seq<u16>
    decreases s.len(),
{
    if s.len() == 0 {
        Seq::empty()
    } else {
        spec_utf16_char(s[0]) + spec_utf16(s.drop_first())
    }
}

proof fn lemma_utf16_snoc(s: Seq<char>, c: char)
    ensures
        spec_utf16(s.push(c)) == spec_utf16(s) + spec_utf16_char(c),
    decreases s.len(),
{
    if s.len() == 0 {
        assert(s.push(c)[0] == c);
        assert(s.push(c).drop_first() =~= Seq::<char>::empty());
        assert(spec_utf16(s.push(c)) == spec_utf16_char(c) + spec_utf16(Seq::<char>::empty()));
        assert(spec_utf16_char(c) + Seq::<u16>::empty() =~= spec_utf16_char(c));
        assert(Seq::<u16>::empty() + spec_utf16_char(c) =~= spec_utf16_char(c));
    } else {
        lemma_utf16_snoc(s.drop_first(), c);
        assert(s.push(c)[0] == s[0]);
        assert(s.push(c).drop_first() =~= s.drop_first().push(c));
        assert(spec_utf16(s.push(c)) == spec_utf16_char(s[0]) + spec_utf16(
            s.drop_first().push(c),
        ));
        assert(spec_utf16_char(s[0]) + (spec_utf16(s.drop_first()) + spec_utf16_char(c)) =~= (
        spec_utf16_char(s[0]) + spec_utf16(s.drop_first())) + spec_utf16_char(c));
        assert(spec_utf16(s) == spec_utf16_char(s[0]) + spec_utf16(s.drop_first()));
    }
}

/// The string's UTF-16 code units with a trailing NUL unit appended, ready
/// to hand to a wide-character platform API.
pub fn wide_string(s: &str) -> (r: Vec<u16>)
    ensures
        r@ == spec_utf16(s@).push(0u16),
{
    let n = s.unicode_len();
    let mut r: Vec<u16> = Vec::new();
    let mut i: usize = 0;
    proof {
        assert(s@.subrange(0, 0) =~= Seq::<char>::empty());
    }
    while i < n
        invariant
            n == s@.len(),
            i <= n,
            r@ == spec_utf16(s@.subrange(0, i as int)),
        decreases n - i,
    {
        let c = s.get_char(i);
        let v = c as u32;
        if v < 0x10000 {
            r.push(v as u16);
        } else {
            let w = v - 0x10000;
            r.push((0xD800 + w / 0x400) as u16);
            r.push((0xDC00 + w % 0x400) as u16);
        }
        proof {
            lemma_utf16_snoc(s@.subrange(0, i as int), s@[i as int]);
            assert(s@.subrange(0, i as int + 1) =~= s@.subrange(0, i as int).push(s@[i as int]));
            assert(r@ =~= spec_utf16(s@.subrange(0, i as int + 1)));
        }
        i = i + 1;
    }
    proof {
        assert(s@.subrange(0, n as int) =~= s@);
    }
    r.push(0);
    r
}

} // verus!
