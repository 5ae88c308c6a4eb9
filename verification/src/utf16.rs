//! UTF-16, the text encoding of the Windows interfaces.

use vstd::prelude::*;

verus! {

/// `char::from_u32` of std: the character with a given code point; `None`
/// for a surrogate and for a number above the last code point.
pub assume_specification[ char::from_u32 ](i: u32) -> (r: Option<char>)
    ensures
        r is Some <==> i <= 0xD7FF || 0xE000 <= i <= 0x10FFFF,
        r matches Some(c) ==> c as int == i,
;

/// A character is a code point and no surrogate.
pub proof fn lemma_char_range(c: char)
    ensures
        0 <= c as int <= 0xD7FF || 0xE000 <= c as int <= 0x10FFFF,
        (c as int) as char == c,
{
}

/// The one or two units of a character.
pub open spec fn units(c: char) -> Seq<u16> {
    let v = c as int;
    if v < 0x10000 {
        seq![v as u16]
    } else {
        seq![
            (0xD800 + (v - 0x10000) / 0x400) as u16,
            (0xDC00 + (v - 0x10000) % 0x400) as u16,
        ]
    }
}

/// The units of a text.
pub open spec fn encoded(s: Seq<char>) -> Seq<u16>
    decreases s.len(),
{
    if s.len() == 0 {
        seq![]
    } else {
        encoded(s.drop_last()) + units(s.last())
    }
}

pub open spec fn is_high(u: u16) -> bool {
    0xD800 <= u <= 0xDBFF
}

pub open spec fn is_low(u: u16) -> bool {
    0xDC00 <= u <= 0xDFFF
}

/// The character of a surrogate pair.
pub open spec fn pair_char(high: u16, low: u16) -> char {
    (0x10000 + (high - 0xD800) * 0x400 + (low - 0xDC00)) as char
}

/// The text of a sequence of units; U+FFFD stands for each surrogate that is
/// not part of a pair.
pub open spec fn decoded(u: Seq<u16>) -> Seq<char>
    decreases u.len(),
{
    if u.len() == 0 {
        seq![]
    } else if !is_high(u[0]) && !is_low(u[0]) {
        seq![u[0] as char] + decoded(u.skip(1))
    } else if is_high(u[0]) && u.len() >= 2 && is_low(u[1]) {
        seq![pair_char(u[0], u[1])] + decoded(u.skip(2))
    } else {
        seq!['\u{FFFD}'] + decoded(u.skip(1))
    }
}

/// The units of the text.
pub fn encode(s: &str) -> (r: Vec<u16>)
    ensures
        r@ == encoded(s@),
{
    let mut out: Vec<u16> = Vec::new();
    for c in it: s.chars()
        invariant
            out@ == encoded(s@.take(it.index() as int)),
            it.seq() == s@,
    {
        let v: u32 = c as u32;
        proof {
            lemma_char_range(c);
            let t = s@.take(it.index() + 1);
            assert(t.drop_last() =~= s@.take(it.index() as int));
            assert(t.last() == c);
        }
        if v < 0x10000 {
            out.push(v as u16);
        } else {
            out.push((0xD800 + (v - 0x10000) / 0x400) as u16);
            out.push((0xDC00 + (v - 0x10000) % 0x400) as u16);
        }
        assert(out@ =~= encoded(s@.take(it.index() + 1)));
    }
    assert(s@.take(s@.len() as int) =~= s@);
    out
}

/// The units of the text and a zero after them.
pub fn encode_z(s: &str) -> (r: Vec<u16>)
    ensures
        r@ == encoded(s@).push(0),
{
    let mut out = encode(s);
    out.push(0);
    out
}

/// The text of the units; U+FFFD stands for each unpaired surrogate.
pub fn decode_lossy(u: &[u16]) -> (r: String)
    ensures
        r@ == decoded(u@),
{
    let mut out = String::new();
    let mut i: usize = 0;
    assert(u@.skip(0) =~= u@);
    assert(out@ + decoded(u@) =~= decoded(u@));
    while i < u.len()
        invariant
            i <= u.len(),
            out@ + decoded(u@.skip(i as int)) == decoded(u@),
        decreases u.len() - i,
    {
        let a: u16 = u[i];
        let ghost rest = u@.skip(i as int);
        let ghost before = out@;
        let high = 0xD800 <= a && a <= 0xDBFF;
        let low = 0xDC00 <= a && a <= 0xDFFF;
        let mut used: usize = 1;
        let mut c: char = '\u{FFFD}';
        if !high && !low {
            c = code_point(a as u32);
        } else if high && u.len() - i >= 2 && 0xDC00 <= u[i + 1] && u[i + 1] <= 0xDFFF {
            let b: u16 = u[i + 1];
            c = code_point(0x10000 + (a as u32 - 0xD800) * 0x400 + (b as u32 - 0xDC00));
            used = 2;
        }
        out.push(c);
        i = i + used;
        proof {
            assert(rest[0] == a);
            assert(rest.skip(used as int) =~= u@.skip(i as int));
            assert(decoded(rest) == seq![c] + decoded(rest.skip(used as int)));
            assert(before + (seq![c] + decoded(rest.skip(used as int))) =~= out@ + decoded(
                u@.skip(i as int),
            ));
        }
    }
    assert(u@.skip(u@.len() as int) =~= seq![]);
    assert(out@ + decoded(seq![]) =~= out@);
    out
}

fn code_point(v: u32) -> (c: char)
    requires
        v <= 0xD7FF || 0xE000 <= v <= 0x10FFFF,
    ensures
        c == v as char,
{
    match char::from_u32(v) {
        Some(c) => {
            proof {
                lemma_char_range(c);
            }
            c
        },
        None => '\u{FFFD}',
    }
}

proof fn lemma_encoded_front(s: Seq<char>)
    requires
        s.len() > 0,
    ensures
        encoded(s) == units(s[0]) + encoded(s.skip(1)),
    decreases s.len(),
{
    if s.len() == 1 {
        assert(s.drop_last() =~= seq![]);
        assert(s.skip(1) =~= seq![]);
        assert(encoded(s) =~= units(s[0]) + encoded(s.skip(1)));
    } else {
        lemma_encoded_front(s.drop_last());
        assert(s.drop_last().skip(1) =~= s.skip(1).drop_last());
        assert(s.skip(1).last() == s.last());
        assert(encoded(s) =~= units(s[0]) + encoded(s.skip(1)));
    }
}

/// Reading back what was encoded gives the text unchanged.
pub proof fn law_decode_undoes_encode(s: Seq<char>)
    ensures
        decoded(encoded(s)) == s,
    decreases s.len(),
{
    let u = encoded(s);
    if s.len() > 0 {
        lemma_encoded_front(s);
        lemma_char_range(s[0]);
        law_decode_undoes_encode(s.skip(1));
        let k = units(s[0]).len() as int;
        assert(u.skip(k) =~= encoded(s.skip(1)));
        assert(u[0] == units(s[0])[0]);
        if k == 2 {
            assert(u[1] == units(s[0])[1]);
            let v = s[0] as int - 0x10000;
            assert((v / 0x400) * 0x400 + v % 0x400 == v);
            assert(pair_char(u[0], u[1]) == s[0]);
        }
        assert(decoded(u) == seq![s[0]] + decoded(u.skip(k)));
        assert(seq![s[0]] + s.skip(1) =~= s);
    }
}

/// Units are read one character after the other. A unit below or above the
/// surrogates is its own character, and a surrogate without its partner is read
/// as the replacement character, without taking a unit that follows with it.
pub proof fn law_lone_surrogates_are_replaced(u: Seq<u16>)
    requires
        u.len() > 0,
    ensures
        u[0] < 0xD800 || u[0] >= 0xE000 ==> decoded(u)[0] as int == u[0] && decoded(u).skip(1)
            == decoded(u.skip(1)),
        0xDC00 <= u[0] <= 0xDFFF ==> decoded(u)[0] as int == 0xFFFD && decoded(u).skip(1)
            == decoded(u.skip(1)),
        0xD800 <= u[0] <= 0xDBFF && (u.len() == 1 || u[1] < 0xDC00 || u[1] > 0xDFFF) ==> decoded(
            u,
        )[0] as int == 0xFFFD && decoded(u).skip(1) == decoded(u.skip(1)),
        0xD800 <= u[0] <= 0xDBFF && u.len() > 1 && 0xDC00 <= u[1] <= 0xDFFF ==> units(
            decoded(u)[0],
        ) == u.take(2) && decoded(u).skip(1) == decoded(u.skip(2)),
{
    assert(decoded(u).skip(1) =~= decoded(u.skip(1)) || decoded(u).skip(1) =~= decoded(u.skip(2)));
    if 0xD800 <= u[0] <= 0xDBFF && u.len() > 1 && 0xDC00 <= u[1] <= 0xDFFF {
        assert(decoded(u).skip(1) =~= decoded(u.skip(2)));
        let c = pair_char(u[0], u[1]);
        let hi = u[0] - 0xD800;
        let lo = u[1] - 0xDC00;
        let v = 0x10000 + hi * 0x400 + lo;
        assert(0x10000 <= v <= 0x10FFFF);
        assert(c as int == v);
        assert((v - 0x10000) / 0x400 == hi && (v - 0x10000) % 0x400 == lo);
        assert(units(c) =~= u.take(2));
    } else {
        assert(decoded(u).skip(1) =~= decoded(u.skip(1)));
    }
}

/// Texts one after the other are encoded one after the other, so the units of a
/// text do not depend on what stands around it.
pub proof fn law_encoding_goes_character_by_character(a: Seq<char>, b: Seq<char>)
    ensures
        encoded(a + b) == encoded(a) + encoded(b),
    decreases b.len(),
{
    if b.len() == 0 {
        assert(a + b =~= a);
        assert(encoded(a) + encoded(b) =~= encoded(a));
    } else {
        law_encoding_goes_character_by_character(a, b.drop_last());
        assert((a + b).drop_last() =~= a + b.drop_last());
        assert(encoded(a + b) =~= encoded(a) + encoded(b));
    }
}

} // verus!
