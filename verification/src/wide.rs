//! UTF-16 ("wide") text as the Win32 API takes it.
use vstd::prelude::*;

verus! {

/// The UTF-16 code units of one character: a single unit inside the basic
/// plane, otherwise a high and a low surrogate.
pub open spec fn char_units(c: char) -> Seq<u16> {
    let v = c as int;
    if v < 0x10000 {
        seq![v as u16]
    } else {
        seq![(0xD800 + (v - 0x10000) / 0x400) as u16, (0xDC00 + (v - 0x10000) % 0x400) as u16]
    }
}

/// The UTF-16 encoding of a character sequence, as `str::encode_utf16` yields it.
pub open spec fn utf16(s: Seq<char>) -> Seq<u16>
    decreases s.len(),
{
    if s.len() == 0 {
        seq![]
    } else {
        char_units(s[0]) + utf16(s.drop_first())
    }
}

/// Decoding of UTF-16 units; a unit that is not part of a surrogate pair
/// stands for itself.
pub open spec fn utf16_decode(u: Seq<u16>) -> Seq<char>
    decreases u.len(),
{
    if u.len() == 0 {
        seq![]
    } else if 0xD800 <= u[0] < 0xDC00 && u.len() >= 2 && 0xDC00 <= u[1] < 0xE000 {
        seq![(0x10000 + (u[0] - 0xD800) * 0x400 + (u[1] - 0xDC00)) as char] + utf16_decode(
            u.subrange(2, u.len() as int),
        )
    } else {
        seq![u[0] as char] + utf16_decode(u.subrange(1, u.len() as int))
    }
}

/// Little-endian bytes of a sequence of code units, two per unit.
pub open spec fn le_bytes(u: Seq<u16>) -> Seq<u8> {
    Seq::new(
        2 * u.len(),
        |i: int|
            if i % 2 == 0 {
                (u[i / 2] % 256) as u8
            } else {
                (u[i / 2] / 256) as u8
            },
    )
}

/// Encoding distributes over concatenation.
pub proof fn lemma_utf16_append(a: Seq<char>, b: Seq<char>)
    ensures
        utf16(a + b) == utf16(a) + utf16(b),
    decreases a.len(),
{
    if a.len() == 0 {
        assert(a + b =~= b);
        assert(utf16(a) + utf16(b) =~= utf16(b));
    } else {
        assert((a + b).drop_first() =~= a.drop_first() + b);
        lemma_utf16_append(a.drop_first(), b);
        assert(utf16(a + b) =~= utf16(a) + utf16(b));
    }
}

/// Decoding a character's units, followed by anything, gives the character back first.
proof fn lemma_decode_char_units(c: char, rest: Seq<u16>)
    ensures
        utf16_decode(char_units(c) + rest) == seq![c] + utf16_decode(rest),
{
    let u = char_units(c) + rest;
    let v = c as int;
    if v < 0x10000 {
        assert(u[0] == v);
        assert(u.subrange(1, u.len() as int) =~= rest);
        assert((u[0] as char) == c);
    } else {
        let w = v - 0x10000;
        assert(0 <= w < 0x100000);
        assert(u[0] == 0xD800 + w / 0x400);
        assert(u[1] == 0xDC00 + w % 0x400);
        assert(u.subrange(2, u.len() as int) =~= rest);
        assert(0x10000 + (u[0] - 0xD800) * 0x400 + (u[1] - 0xDC00) == v);
    }
}

/// Decoding undoes encoding: the Win32 side reads back exactly the text that was encoded.
pub proof fn lemma_utf16_round_trip(s: Seq<char>)
    ensures
        utf16_decode(utf16(s)) == s,
    decreases s.len(),
{
    if s.len() == 0 {
    } else {
        lemma_decode_char_units(s[0], utf16(s.drop_first()));
        lemma_utf16_round_trip(s.drop_first());
        assert(seq![s[0]] + s.drop_first() =~= s);
    }
}

/// Every code unit is recovered from its two little-endian bytes.
pub proof fn lemma_le_bytes_recover(u: Seq<u16>)
    ensures
        le_bytes(u).len() == 2 * u.len(),
        forall|i: int|
            0 <= i < u.len() ==> (#[trigger] le_bytes(u)[2 * i]) as int + 256 * le_bytes(u)[2 * i
                + 1] as int == u[i] as int,
{
    assert forall|i: int| 0 <= i < u.len() implies (#[trigger] le_bytes(u)[2 * i]) as int + 256
        * le_bytes(u)[2 * i + 1] as int == u[i] as int by {
        assert((2 * i) / 2 == i);
        assert((2 * i + 1) / 2 == i);
        assert((2 * i) % 2 == 0);
        assert((2 * i + 1) % 2 == 1);
    }
}

/// Appends the UTF-16 units of `c`.
fn push_char_units(out: &mut Vec<u16>, c: char)
    ensures
        final(out)@ == old(out)@ + char_units(c),
{
    let v = c as u32;
    if v < 0x10000 {
        out.push(v as u16);
    } else {
        let w = v - 0x10000;
        out.push((0xD800 + w / 0x400) as u16);
        out.push((0xDC00 + w % 0x400) as u16);
    }
    proof {
        assert(final(out)@ =~= old(out)@ + char_units(c));
    }
}

/// The UTF-16 encoding of `s`.
pub fn encode_wide(s: &str) -> (r: Vec<u16>)
    ensures
        r@ == utf16(s@),
{
    let mut out: Vec<u16> = Vec::new();
    for c in it: s.chars()
        invariant
            it.seq() == s@,
            out@ == utf16(s@.take(it.index() as int)),
    {
        let ghost i = it.index();
        push_char_units(&mut out, c);
        proof {
            assert(s@.take(i + 1) =~= s@.take(i as int) + seq![c]);
            lemma_utf16_append(s@.take(i as int), seq![c]);
            assert(utf16(seq![c]) =~= char_units(c)) by {
                let e = seq![c].drop_first();
                assert(e =~= Seq::<char>::empty());
                assert(utf16(e) =~= Seq::<u16>::empty());
                assert(char_units(c) + utf16(e) =~= char_units(c));
            }
        }
    }
    proof {
        assert(s@.take(s@.len() as int) =~= s@);
    }
    out
}

/// The UTF-16 encoding of `s` followed by a terminating zero unit: the form
/// of a `PCWSTR` argument.
pub fn to_wide_nul(s: &str) -> (r: Vec<u16>)
    ensures
        r@ == utf16(s@).push(0),
{
    let mut out = encode_wide(s);
    out.push(0);
    out
}

/// The bytes of `units` in little-endian order, as the registry stores a `REG_SZ` value.
pub fn wide_le_bytes(units: &Vec<u16>) -> (r: Vec<u8>)
    ensures
        r@ == le_bytes(units@),
{
    let mut out: Vec<u8> = Vec::new();
    let mut i: usize = 0;
    while i < units.len()
        invariant
            i <= units@.len(),
            out@ =~= le_bytes(units@.take(i as int)),
        decreases units@.len() - i,
    {
        let w = units[i];
        out.push((w % 256) as u8);
        out.push((w / 256) as u8);
        proof {
            let t = units@.take(i as int + 1);
            assert forall|k: int| 0 <= k < out@.len() implies out@[k] == #[trigger] le_bytes(t)[k] by {
                if k < 2 * i {
                    assert(k / 2 < i);
                } else {
                    assert(k / 2 == i);
                }
            }
            assert(out@ =~= le_bytes(t));
        }
        i = i + 1;
    }
    proof {
        assert(units@.take(units@.len() as int) =~= units@);
    }
    out
}

} // verus!
