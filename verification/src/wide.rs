//! Strings as Windows takes them: UTF-16, with a zero at the end.

use vstd::prelude::*;

verus! {

/// The UTF-16 code units of a character: one, or a pair of surrogates.
pub open spec fn utf16_of(c: char) -> Seq<u16> {
    let v = c as int;
    if v < 0x10000 {
        seq![v as u16]
    } else {
        seq![(0xD800 + (v - 0x10000) / 0x400) as u16, (0xDC00 + (v - 0x10000) % 0x400) as u16]
    }
}

/// A string in UTF-16.
pub open spec fn utf16(s: Seq<char>) -> Seq<u16>
    decreases s.len(),
{
    if s.len() == 0 {
        Seq::empty()
    } else {
        utf16_of(s.first()) + utf16(s.drop_first())
    }
}

/// Whether a code unit is the first half of a pair of surrogates.
pub open spec fn is_high(unit: u16) -> bool {
    0xD800 <= unit < 0xDC00
}

/// Whether a code unit is the second half of a pair of surrogates.
pub open spec fn is_low(unit: u16) -> bool {
    0xDC00 <= unit < 0xE000
}

/// The string that UTF-16 code units stand for, with U+FFFD in place of every
/// surrogate that is not part of a pair.
pub open spec fn lossy(units: Seq<u16>) -> Seq<char>
    decreases units.len(),
{
    if units.len() == 0 {
        Seq::empty()
    } else if is_high(units[0]) && units.len() > 1 && is_low(units[1]) {
        seq![(0x10000 + (units[0] - 0xD800) * 0x400 + (units[1] - 0xDC00)) as char] + lossy(
            units.skip(2),
        )
    } else if is_high(units[0]) || is_low(units[0]) {
        seq!['\u{FFFD}'] + lossy(units.skip(1))
    } else {
        seq![units[0] as char] + lossy(units.skip(1))
    }
}

/// What a character can be: any code point but for the surrogates.
proof fn lemma_char_range(c: char)
    ensures
        0 <= c as int <= 0x10FFFF,
        !(0xD800 <= c as int && (c as int) < 0xE000),
        (c as int) as char == c,
        c as u32 == c as int,
{
}

/// The UTF-16 of two strings, one after the other.
pub(crate) proof fn lemma_utf16_concat(a: Seq<char>, b: Seq<char>)
    ensures
        utf16(a + b) == utf16(a) + utf16(b),
    decreases a.len(),
{
    if a.len() == 0 {
        assert(a + b =~= b);
        assert(utf16(a) + utf16(b) =~= utf16(b));
    } else {
        assert((a + b).drop_first() =~= a.drop_first() + b);
        lemma_utf16_concat(a.drop_first(), b);
        assert(utf16(a + b) =~= utf16(a) + utf16(b));
    }
}

/// The UTF-16 of a string of one character.
proof fn lemma_utf16_single(c: char)
    ensures
        utf16(seq![c]) == utf16_of(c),
{
    assert(seq![c].drop_first() =~= Seq::<char>::empty());
    assert(utf16(Seq::<char>::empty()) =~= Seq::<u16>::empty());
    assert(utf16(seq![c]) =~= utf16_of(c));
}

/// Nothing is lost on the way to UTF-16 and back.
pub proof fn law_utf16_comes_back(s: Seq<char>)
    ensures
        lossy(utf16(s)) == s,
    decreases s.len(),
{
    let units = utf16(s);
    if s.len() > 0 {
        let c = s.first();
        let rest = utf16(s.drop_first());
        law_utf16_comes_back(s.drop_first());
        let v = c as int;
        lemma_char_range(c);
        if v < 0x10000 {
            assert(units[0] == v as u16);
            assert(units.skip(1) =~= rest);
            assert(lossy(units) == seq![c] + lossy(rest));
        } else {
            let high = (v - 0x10000) / 0x400;
            let low = (v - 0x10000) % 0x400;
            assert(units[0] == (0xD800 + high) as u16);
            assert(units[1] == (0xDC00 + low) as u16);
            assert(units.skip(2) =~= rest);
            assert(high * 0x400 + low == v - 0x10000);
            assert(lossy(units) == seq![c] + lossy(rest));
        }
        assert(seq![c] + s.drop_first() =~= s);
    } else {
        assert(lossy(units) =~= s);
    }
}

/// Appends a string in UTF-16.
pub(crate) fn push_wide(units: &mut Vec<u16>, s: &str)
    ensures
        final(units)@ == old(units)@ + utf16(s@),
{
    let ghost before = units@;
    proof {
        assert(s@.take(0) =~= Seq::<char>::empty());
        assert(before + utf16(s@.take(0)) =~= before);
    }
    for c in it: s.chars()
        invariant
            it.seq() == s@,
            units@ == before + utf16(s@.take(it.index())),
    {
        let ghost done = s@.take(it.index());
        proof {
            assert(s@.take(it.index() + 1) =~= done + seq![c]);
            lemma_utf16_concat(done, seq![c]);
            lemma_utf16_single(c);
            lemma_char_range(c);
        }
        let v: u32 = c as u32;
        if v < 0x10000 {
            units.push(v as u16);
        } else {
            let rest: u32 = v - 0x10000;
            units.push((0xD800 + rest / 0x400) as u16);
            units.push((0xDC00 + rest % 0x400) as u16);
        }
        proof {
            assert(units@ =~= before + (utf16(done) + utf16_of(c)));
        }
    }
    proof {
        assert(s@.take(s@.len() as int) =~= s@);
    }
}

/// Appends the string that UTF-16 code units stand for: a surrogate that is not
/// part of a pair becomes U+FFFD.
pub(crate) fn push_lossy(units: &mut Vec<u16>, given: &[u16])
    ensures
        final(units)@ == old(units)@ + utf16(lossy(given@)),
{
    let ghost before = units@;
    assert(given@.skip(0) =~= given@);
    let mut i: usize = 0;
    while i < given.len()
        invariant
            i <= given@.len(),
            units@ + utf16(lossy(given@.skip(i as int))) == before + utf16(lossy(given@)),
        decreases given@.len() - i,
    {
        let ghost done = units@;
        let ghost rest = given@.skip(i as int);
        let unit: u16 = given[i];
        let high = 0xD800 <= unit && unit < 0xDC00;
        let low = 0xDC00 <= unit && unit < 0xE000;
        assert(rest[0] == unit);
        if high && i + 1 < given.len() && 0xDC00 <= given[i + 1] && given[i + 1] < 0xE000 {
            units.push(unit);
            units.push(given[i + 1]);
            proof {
                lemma_lossy_pair(rest);
                assert(rest.skip(2) =~= given@.skip(i + 2));
                assert(units@ + utf16(lossy(given@.skip(i + 2))) =~= done + utf16(lossy(rest)));
            }
            i += 2;
        } else {
            if high || low {
                units.push(0xFFFD);
            } else {
                units.push(unit);
            }
            proof {
                lemma_lossy_single(rest);
                assert(rest.skip(1) =~= given@.skip(i + 1));
                assert(units@ + utf16(lossy(given@.skip(i + 1))) =~= done + utf16(lossy(rest)));
            }
            i += 1;
        }
    }
    proof {
        assert(given@.skip(i as int) =~= Seq::<u16>::empty());
        assert(lossy(Seq::<u16>::empty()) =~= Seq::<char>::empty());
        assert(utf16(Seq::<char>::empty()) =~= Seq::<u16>::empty());
        assert(units@ =~= units@ + utf16(lossy(given@.skip(i as int))));
    }
}

/// A pair of surrogates comes back as it was.
proof fn lemma_lossy_pair(units: Seq<u16>)
    requires
        units.len() > 1,
        is_high(units[0]),
        is_low(units[1]),
    ensures
        utf16(lossy(units)) == seq![units[0], units[1]] + utf16(lossy(units.skip(2))),
{
    let v = 0x10000 + (units[0] - 0xD800) * 0x400 + (units[1] - 0xDC00);
    let c = v as char;
    lemma_utf16_concat(seq![c], lossy(units.skip(2)));
    lemma_utf16_single(c);
    assert(c as int == v);
    assert((v - 0x10000) / 0x400 == units[0] - 0xD800);
    assert((v - 0x10000) % 0x400 == units[1] - 0xDC00);
    assert(utf16_of(c) =~= seq![units[0], units[1]]);
}

/// A code unit that is not part of a pair comes back as it was, or as U+FFFD.
proof fn lemma_lossy_single(units: Seq<u16>)
    requires
        units.len() > 0,
        !(is_high(units[0]) && units.len() > 1 && is_low(units[1])),
    ensures
        utf16(lossy(units)) == seq![
            if is_high(units[0]) || is_low(units[0]) {
                0xFFFDu16
            } else {
                units[0]
            },
        ] + utf16(lossy(units.skip(1))),
{
    let c = if is_high(units[0]) || is_low(units[0]) {
        '\u{FFFD}'
    } else {
        units[0] as char
    };
    lemma_utf16_concat(seq![c], lossy(units.skip(1)));
    lemma_utf16_single(c);
    assert(lossy(units) == seq![c] + lossy(units.skip(1)));
    assert(utf16_of(c) =~= seq![c as u16]);
}

/// A string as Windows takes it.
pub fn to_wide(s: &str) -> (wide: Vec<u16>)
    ensures
        wide@ == utf16(s@).push(0),
{
    let mut wide: Vec<u16> = Vec::new();
    push_wide(&mut wide, s);
    wide.push(0);
    assert(wide@ =~= utf16(s@).push(0));
    wide
}

/// In UTF-16 a character below 0x10000 is the code unit of that number, and one above is a
/// pair of surrogates, which hold the upper and the lower ten bits of what it is above; the
/// characters of a string follow one another.
pub proof fn law_characters_in_utf16(c: char, rest: Seq<char>)
    ensures
        utf16(Seq::<char>::empty()).len() == 0,
        ({
            let units = utf16(seq![c] + rest);
            if (c as int) < 0x10000 {
                &&& units[0] == c as int
                &&& units == seq![units[0]] + utf16(rest)
            } else {
                &&& 0xD800 <= units[0] < 0xDC00
                &&& 0xDC00 <= units[1] < 0xE000
                &&& 0x10000 + (units[0] - 0xD800) * 1024 + (units[1] - 0xDC00) == c as int
                &&& units == seq![units[0], units[1]] + utf16(rest)
            }
        }),
{
    lemma_char_range(c);
    lemma_utf16_concat(seq![c], rest);
    lemma_utf16_single(c);
    let v = c as int;
    let units = utf16(seq![c] + rest);
    if v < 0x10000 {
        assert(units =~= seq![units[0]] + utf16(rest));
    } else {
        assert(0 <= (v - 0x10000) / 0x400 < 0x400);
        assert(units =~= seq![units[0], units[1]] + utf16(rest));
    }
}

/// Code units stand for characters one by one: a pair of surrogates for the character whose
/// bits it holds, a surrogate without its partner for U+FFFD, and any other code unit for the
/// character of its number.
pub proof fn law_code_units_as_characters(units: Seq<u16>)
    ensures
        lossy(Seq::<u16>::empty()).len() == 0,
        units.len() > 1 && 0xD800 <= units[0] < 0xDC00 && 0xDC00 <= units[1] < 0xE000 ==> {
            &&& lossy(units).len() > 0
            &&& lossy(units)[0] as int == 0x10000 + (units[0] - 0xD800) * 1024 + (units[1]
                - 0xDC00)
            &&& lossy(units).skip(1) == lossy(units.skip(2))
        },
        units.len() > 0 && (units[0] < 0xD800 || 0xE000 <= units[0]) ==> {
            &&& lossy(units).len() > 0
            &&& lossy(units)[0] as int == units[0]
            &&& lossy(units).skip(1) == lossy(units.skip(1))
        },
        units.len() > 0 && (0xDC00 <= units[0] < 0xE000 || (0xD800 <= units[0] < 0xDC00 && (
        units.len() == 1 || units[1] < 0xDC00 || 0xE000 <= units[1]))) ==> {
            &&& lossy(units).len() > 0
            &&& lossy(units)[0] as int == 0xFFFD
            &&& lossy(units).skip(1) == lossy(units.skip(1))
        },
{
    if units.len() > 0 {
        if is_high(units[0]) && units.len() > 1 && is_low(units[1]) {
            assert(lossy(units).skip(1) =~= lossy(units.skip(2)));
        } else {
            assert(lossy(units).skip(1) =~= lossy(units.skip(1)));
        }
    }
}

} // verus!
