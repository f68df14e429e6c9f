//! UTF-16 encoding, as the security block and the password derivation
//! need it: text becomes UTF-16 code units (surrogate pairs for the
//! characters beyond the basic plane), and units become little-endian
//! bytes.
use vstd::prelude::*;
use crate::codec::{push_le16, spec_le16};

verus! {

/// The UTF-16 code units of one character: the scalar itself below
/// 0x10000, else its surrogate pair.
pub open spec fn spec_utf16_char(c: char) -> Seq<u16> {
    let v = c as u32;
    if v < 0x10000 {
        seq![v as u16]
    } else {
        seq![
            (0xD800 + ((v - 0x10000) / 0x400)) as u16,
            (0xDC00 + ((v - 0x10000) % 0x400)) as u16,
        ]
    }
}

/// The UTF-16 code units of a character sequence.
pub open spec fn spec_utf16_units(s: Seq<char>) -> Seq<u16>
    decreases s.len(),
{
    if s.len() == 0 {
        Seq::empty()
    } else {
        spec_utf16_char(s[0]) + spec_utf16_units(s.drop_first())
    }
}

proof fn lemma_utf16_units_snoc(s: Seq<char>, i: int)
    requires
        0 <= i < s.len(),
    ensures
        spec_utf16_units(s.take(i + 1)) == spec_utf16_units(s.take(i)) + spec_utf16_char(s[i]),
    decreases i,
{
    let t = s.take(i + 1);
    if i == 0 {
        assert(t[0] == s[0]);
        assert(t.drop_first() =~= Seq::<char>::empty());
        assert(spec_utf16_units(t) == spec_utf16_char(t[0]) + spec_utf16_units(t.drop_first()));
        assert(spec_utf16_char(s[0]) + Seq::<u16>::empty() =~= spec_utf16_char(s[0]));
        assert(s.take(0) =~= Seq::<char>::empty());
        assert(Seq::<u16>::empty() + spec_utf16_char(s[0]) =~= spec_utf16_char(s[0]));
    } else {
        lemma_utf16_units_snoc(s.drop_first(), i - 1);
        assert(t[0] == s[0]);
        assert(t.drop_first() =~= s.drop_first().take(i));
        assert(s.take(i).drop_first() =~= s.drop_first().take(i - 1));
        assert(s.drop_first()[i - 1] == s[i]);
        assert(spec_utf16_units(s.take(i)) == spec_utf16_char(s[0]) + spec_utf16_units(
            s.drop_first().take(i - 1),
        ));
        assert(spec_utf16_units(t) == spec_utf16_char(s[0]) + spec_utf16_units(
            s.drop_first().take(i),
        ));
        assert(spec_utf16_char(s[0]) + (spec_utf16_units(s.drop_first().take(i - 1))
            + spec_utf16_char(s[i])) =~= (spec_utf16_char(s[0]) + spec_utf16_units(
            s.drop_first().take(i - 1),
        )) + spec_utf16_char(s[i]));
    }
}

/// The UTF-16 code units of one character.
pub fn utf16_char_units(c: char) -> (r: Vec<u16>)
    ensures
        r@ == spec_utf16_char(c),
{
    proof {
        vstd::utf8::char_is_scalar(c);
    }
    let v = c as u32;
    let mut r: Vec<u16> = Vec::new();
    if v < 0x10000 {
        r.push(v as u16);
    } else {
        let w = v - 0x10000;
        r.push((0xD800 + (w / 0x400)) as u16);
        r.push((0xDC00 + (w % 0x400)) as u16);
    }
    proof {
        assert(r@ =~= spec_utf16_char(c));
    }
    r
}

/// The UTF-16 code units of a string.
pub fn utf16_units(s: &str) -> (r: Vec<u16>)
    ensures
        r@ == spec_utf16_units(s@),
{
    let n = s.unicode_len();
    let mut r: Vec<u16> = Vec::new();
    let mut i: usize = 0;
    while i < n
        invariant
            0 <= i <= n,
            n == s@.len(),
            r@ == spec_utf16_units(s@.take(i as int)),
        decreases n - i,
    {
        let c = s.get_char(i);
        let units = utf16_char_units(c);
        let mut j: usize = 0;
        let un = units.len();
        while j < un
            invariant
                0 <= j <= un,
                un == units@.len(),
                r@ == spec_utf16_units(s@.take(i as int)) + units@.take(j as int),
            decreases un - j,
        {
            let u = units[j];
            r.push(u);
            proof {
                assert(units@.take(j + 1) =~= units@.take(j as int).push(units@[j as int]));
            }
            j += 1;
        }
        proof {
            assert(units@.take(un as int) =~= units@);
            lemma_utf16_units_snoc(s@, i as int);
        }
        i += 1;
    }
    proof {
        assert(s@.take(n as int) =~= s@);
    }
    r
}

/// UTF-16 code units as little-endian bytes.
pub open spec fn spec_utf16le_bytes(units: Seq<u16>) -> Seq<u8>
    decreases units.len(),
{
    if units.len() == 0 {
        Seq::empty()
    } else {
        spec_utf16le_bytes(units.drop_last()) + spec_le16(units.last())
    }
}

pub proof fn lemma_utf16le_bytes_len(units: Seq<u16>)
    ensures
        spec_utf16le_bytes(units).len() == 2 * units.len(),
    decreases units.len(),
{
    if units.len() > 0 {
        lemma_utf16le_bytes_len(units.drop_last());
    }
}

/// Each unit's two bytes sit at twice its index, low byte first.
pub proof fn lemma_utf16le_bytes_index(units: Seq<u16>, i: int)
    requires
        0 <= i < units.len(),
    ensures
        spec_utf16le_bytes(units).len() == 2 * units.len(),
        spec_utf16le_bytes(units)[2 * i] == units[i] % 0x100,
        spec_utf16le_bytes(units)[2 * i + 1] == units[i] / 0x100,
    decreases units.len(),
{
    lemma_utf16le_bytes_len(units);
    lemma_utf16le_bytes_len(units.drop_last());
    if i == units.len() - 1 {
        assert(units.last() == units[i]);
    } else {
        lemma_utf16le_bytes_index(units.drop_last(), i);
        assert(units.drop_last()[i] == units[i]);
    }
}

/// Encodes UTF-16 code units as little-endian bytes.
pub fn utf16le_bytes(units: &[u16]) -> (r: Vec<u8>)
    ensures
        r@ == spec_utf16le_bytes(units@),
{
    let n = units.len();
    let mut r: Vec<u8> = Vec::new();
    let mut i: usize = 0;
    while i < n
        invariant
            0 <= i <= n,
            n == units@.len(),
            r@ == spec_utf16le_bytes(units@.take(i as int)),
        decreases n - i,
    {
        push_le16(&mut r, units[i]);
        proof {
            let t = units@.take(i + 1);
            assert(t.drop_last() =~= units@.take(i as int));
            assert(t.last() == units@[i as int]);
        }
        i += 1;
    }
    proof {
        assert(units@.take(n as int) =~= units@);
    }
    r
}

} // verus!
