//! UTF-16, as the wide Windows interfaces exchange text.

use crate::text::chars_of;
use vstd::prelude::*;

verus! {

/// `char::from_u32` gives the character with the given scalar value, and nothing
/// for a value that is no Unicode scalar value.
pub assume_specification[ char::from_u32 ](i: u32) -> (c: Option<char>)
    ensures
        c == (if is_scalar(i) {
            Some(i as char)
        } else {
            None
        }),
;

/// Whether `n` is a Unicode scalar value.
pub open spec fn is_scalar(n: u32) -> bool {
    n <= 0xd7ff || 0xe000 <= n <= 0x10ffff
}

/// U+FFFD, which stands for what cannot be decoded.
pub open spec fn replacement() -> char {
    '\u{fffd}'
}

/// The code units of one character: one, or a surrogate pair beyond the basic
/// plane.
pub open spec fn units_of(c: char) -> Seq<u16> {
    let n = c as u32;
    if n < 0x10000 {
        seq![n as u16]
    } else {
        seq![
            (0xd800 + (n - 0x10000) / 0x400) as u16,
            (0xdc00 + (n - 0x10000) % 0x400) as u16,
        ]
    }
}

/// The code units of a text.
pub open spec fn encoded(s: Seq<char>) -> Seq<u16>
    decreases s.len(),
{
    if s.len() == 0 {
        Seq::empty()
    } else {
        units_of(s[0]) + encoded(s.drop_first())
    }
}

/// Whether `u` opens a surrogate pair.
pub open spec fn is_high(u: u16) -> bool {
    0xd800 <= u <= 0xdbff
}

/// Whether `u` closes a surrogate pair.
pub open spec fn is_low(u: u16) -> bool {
    0xdc00 <= u <= 0xdfff
}

/// The character that a surrogate pair stands for.
pub open spec fn paired(high: u16, low: u16) -> char {
    (0x10000 + (high - 0xd800) * 0x400 + (low - 0xdc00)) as u32 as char
}

/// The text that code units spell; an unpaired surrogate is replaced.
pub open spec fn decoded(units: Seq<u16>) -> Seq<char>
    decreases units.len(),
{
    if units.len() == 0 {
        Seq::empty()
    } else if !is_high(units[0]) && !is_low(units[0]) {
        seq![units[0] as u32 as char] + decoded(units.drop_first())
    } else if is_high(units[0]) && units.len() > 1 && is_low(units[1]) {
        seq![paired(units[0], units[1])] + decoded(units.skip(2))
    } else {
        seq![replacement()] + decoded(units.drop_first())
    }
}

/// The units before the first zero, or all of them.
pub open spec fn before_nul(units: Seq<u16>) -> Seq<u16>
    decreases units.len(),
{
    if units.len() == 0 || units[0] == 0 {
        Seq::empty()
    } else {
        seq![units[0]] + before_nul(units.drop_first())
    }
}

/// The code units of a text, zero-terminated.
pub open spec fn wide(s: Seq<char>) -> Seq<u16> {
    encoded(s).push(0)
}

proof fn lemma_decode_one(c: char, rest: Seq<u16>)
    ensures
        decoded(units_of(c) + rest) == seq![c] + decoded(rest),
{
    let n = c as u32;
    let all = units_of(c) + rest;
    if n < 0x10000 {
        assert(all.drop_first() =~= rest);
        assert(all[0] == n as u16);
        assert(all[0] as u32 == n);
    } else {
        assert(all.skip(2) =~= rest);
        let q = (n - 0x10000) / 0x400;
        let r = (n - 0x10000) % 0x400;
        assert(0 <= q < 0x400 && 0 <= r < 0x400 && n - 0x10000 == q * 0x400 + r);
        assert(all[0] == 0xd800 + q);
        assert(all[1] == 0xdc00 + r);
        assert(paired(all[0], all[1]) as u32 == n);
    }
}

/// Decoding undoes encoding.
pub proof fn decoding_undoes_encoding(s: Seq<char>)
    ensures
        decoded(encoded(s)) == s,
    decreases s.len(),
{
    if s.len() > 0 {
        decoding_undoes_encoding(s.drop_first());
        lemma_decode_one(s[0], encoded(s.drop_first()));
        assert(seq![s[0]] + s.drop_first() =~= s);
    }
}

proof fn lemma_units_are_not_nul(c: char)
    requires
        c != '\0',
    ensures
        forall|i: int| 0 <= i < units_of(c).len() ==> #[trigger] units_of(c)[i] != 0,
{
    let n = c as u32;
    if n >= 0x10000 {
        assert(0 <= (n - 0x10000) / 0x400 < 0x400);
    }
}

proof fn lemma_encoded_has_no_nul(s: Seq<char>)
    requires
        !s.contains('\0'),
    ensures
        forall|i: int| 0 <= i < encoded(s).len() ==> #[trigger] encoded(s)[i] != 0,
    decreases s.len(),
{
    if s.len() > 0 {
        let rest = s.drop_first();
        assert(!rest.contains('\0')) by {
            if rest.contains('\0') {
                let i = choose|i: int| 0 <= i < rest.len() && rest[i] == '\0';
                assert(s[i + 1] == '\0');
            }
        }
        lemma_encoded_has_no_nul(rest);
        let head = units_of(s[0]);
        assert(s[0] != '\0');
        lemma_units_are_not_nul(s[0]);
        assert forall|i: int| 0 <= i < encoded(s).len() implies #[trigger] encoded(s)[i] != 0 by {
            if i >= head.len() {
                assert(encoded(s)[i] == encoded(rest)[i - head.len()]);
            }
        }
    }
}

proof fn lemma_before_nul(units: Seq<u16>, tail: Seq<u16>)
    requires
        forall|i: int| 0 <= i < units.len() ==> #[trigger] units[i] != 0,
        tail.len() > 0 ==> tail[0] == 0,
    ensures
        before_nul(units + tail) == units,
    decreases units.len(),
{
    let all = units + tail;
    if units.len() > 0 {
        assert(all[0] == units[0]);
        assert(all.drop_first() =~= units.drop_first() + tail);
        assert forall|i: int| 0 <= i < units.drop_first().len() implies #[trigger] units.drop_first()[i]
            != 0 by {
            assert(units.drop_first()[i] == units[i + 1]);
        }
        lemma_before_nul(units.drop_first(), tail);
        assert(seq![units[0]] + units.drop_first() =~= units);
    } else {
        assert(all =~= tail);
    }
}

/// A text without a NUL is read back whole from its zero-terminated form, and
/// from any buffer that goes on after the terminator.
pub proof fn wide_text_round_trips(s: Seq<char>, tail: Seq<u16>)
    requires
        !s.contains('\0'),
    ensures
        decoded(before_nul(wide(s))) == s,
        decoded(before_nul(wide(s) + tail)) == s,
{
    lemma_encoded_has_no_nul(s);
    lemma_before_nul(encoded(s), seq![0u16]);
    assert(encoded(s) + seq![0u16] =~= wide(s));
    lemma_before_nul(encoded(s), seq![0u16] + tail);
    assert(encoded(s) + (seq![0u16] + tail) =~= wide(s) + tail);
    decoding_undoes_encoding(s);
}

proof fn lemma_encoded_push(s: Seq<char>, c: char)
    ensures
        encoded(s.push(c)) == encoded(s) + units_of(c),
    decreases s.len(),
{
    if s.len() == 0 {
        assert(s.push(c).drop_first() =~= Seq::empty());
        assert(encoded(s.push(c).drop_first()) =~= Seq::empty());
        assert(encoded(s.push(c)) =~= units_of(c));
        assert(encoded(s) + units_of(c) =~= units_of(c));
    } else {
        assert(s.push(c).drop_first() =~= s.drop_first().push(c));
        lemma_encoded_push(s.drop_first(), c);
        assert(encoded(s.push(c)) =~= encoded(s) + units_of(c));
    }
}

/// Append the code units of one character.
fn push_units(units: &mut Vec<u16>, c: char)
    ensures
        final(units)@ == old(units)@ + units_of(c),
{
    let n: u32 = c as u32;
    let ghost before = units@;
    if n < 0x10000 {
        units.push(n as u16);
    } else {
        let offset: u32 = n - 0x10000;
        units.push((0xd800 + offset / 0x400) as u16);
        units.push((0xdc00 + offset % 0x400) as u16);
    }
    proof {
        assert(units@ =~= before + units_of(c));
    }
}

/// The code units of a text.
pub fn encode(text: &str) -> (units: Vec<u16>)
    ensures
        units@ == encoded(text@),
{
    let chars = chars_of(text);
    let mut units: Vec<u16> = Vec::new();
    let mut i: usize = 0;
    while i < chars.len()
        invariant
            i <= chars.len(),
            chars@ == text@,
            units@ == encoded(text@.take(i as int)),
        decreases chars.len() - i,
    {
        push_units(&mut units, chars[i]);
        i = i + 1;
        proof {
            lemma_encoded_push(text@.take(i as int - 1), text@[i as int - 1]);
            assert(text@.take(i as int) =~= text@.take(i as int - 1).push(text@[i as int - 1]));
        }
    }
    proof {
        assert(text@.take(i as int) =~= text@);
    }
    units
}

/// The code units of a text, zero-terminated.
pub fn to_wide(text: &str) -> (units: Vec<u16>)
    ensures
        units@ == wide(text@),
{
    let mut units = encode(text);
    units.push(0);
    units
}

/// The text that code units spell; an unpaired surrogate is replaced.
fn decode_range(units: &Vec<u16>, end: usize) -> (text: String)
    requires
        end <= units.len(),
    ensures
        text@ == decoded(units@.take(end as int)),
{
    let ghost all = units@.take(end as int);
    let mut text = String::new();
    let mut i: usize = 0;
    proof {
        assert(all.skip(0) =~= all);
    }
    while i < end
        invariant
            i <= end <= units.len(),
            all == units@.take(end as int),
            text@ + decoded(all.skip(i as int)) == decoded(all),
        decreases end - i,
    {
        let u: u16 = units[i];
        let ghost rest = all.skip(i as int);
        let ghost done = text@;
        proof {
            assert(rest[0] == u);
            assert(rest.drop_first() =~= all.skip(i as int + 1));
        }
        if u < 0xd800 || u > 0xdfff {
            match char::from_u32(u as u32) {
                Some(c) => {
                    text.push(c);
                    proof {
                        assert(rest[0] as u32 as char == c);
                        assert(text@ + decoded(rest.drop_first()) =~= done + (seq![c] + decoded(
                            rest.drop_first(),
                        )));
                    }
                },
                None => {
                    proof {
                        assert(false);
                    }
                },
            }
            i = i + 1;
        } else if u <= 0xdbff && i + 1 < end && 0xdc00 <= units[i + 1] && units[i + 1] <= 0xdfff {
            let low: u16 = units[i + 1];
            let n: u32 = 0x10000 + (u as u32 - 0xd800) * 0x400 + (low as u32 - 0xdc00);
            proof {
                assert(rest[1] == low);
                assert(rest.skip(2) =~= all.skip(i as int + 2));
            }
            match char::from_u32(n) {
                Some(c) => {
                    text.push(c);
                    proof {
                        assert(paired(rest[0], rest[1]) == c);
                        assert(text@ + decoded(rest.skip(2)) =~= done + (seq![c] + decoded(
                            rest.skip(2),
                        )));
                    }
                },
                None => {
                    proof {
                        assert(false);
                    }
                },
            }
            i = i + 2;
        } else {
            text.push('\u{fffd}');
            proof {
                if rest.len() > 1 {
                    assert(rest[1] == units@[i as int + 1]);
                }
                assert(text@ + decoded(rest.drop_first()) =~= done + (seq![replacement()] + decoded(
                    rest.drop_first(),
                )));
            }
            i = i + 1;
        }
    }
    proof {
        assert(all.skip(i as int) =~= Seq::empty());
        assert(text@ + decoded(all.skip(i as int)) =~= text@);
    }
    text
}

/// The text of a zero-terminated buffer: what stands before the first zero, or
/// all of the buffer when there is none.
pub fn from_wide(units: &Vec<u16>) -> (text: String)
    ensures
        text@ == decoded(before_nul(units@)),
{
    let mut end: usize = 0;
    while end < units.len() && units[end] != 0
        invariant
            end <= units.len(),
            forall|i: int| 0 <= i < end ==> #[trigger] units@[i] != 0,
        decreases units.len() - end,
    {
        end = end + 1;
    }
    proof {
        lemma_before_nul(units@.take(end as int), units@.skip(end as int));
        assert(units@.take(end as int) + units@.skip(end as int) =~= units@);
    }
    decode_range(units, end)
}

// ---------------------------------------------------------------------------
// Fixed-size fields
// ---------------------------------------------------------------------------
/// How many leading characters of `s` fit into `room` code units.
pub open spec fn fitting(s: Seq<char>, room: int) -> nat
    decreases s.len(),
{
    if s.len() > 0 && units_of(s[0]).len() <= room {
        1 + fitting(s.drop_first(), room - units_of(s[0]).len())
    } else {
        0
    }
}

/// `s` in a field of `size` units: as many whole characters as leave room for a
/// terminator, then zeros.
pub open spec fn fixed_field(s: Seq<char>, size: nat) -> Seq<u16> {
    let head = encoded(s.take(fitting(s, size - 1) as int));
    head + Seq::new((size - head.len()) as nat, |i: int| 0u16)
}

pub(crate) proof fn lemma_fitting(s: Seq<char>, room: int)
    ensures
        fitting(s, room) <= s.len(),
        room >= 0 ==> encoded(s.take(fitting(s, room) as int)).len() <= room,
        room < 0 ==> fitting(s, room) == 0,
    decreases s.len(),
{
    if s.len() > 0 && units_of(s[0]).len() <= room {
        let rest = s.drop_first();
        let left = room - units_of(s[0]).len();
        lemma_fitting(rest, left);
        let n = fitting(s, room) as int;
        assert(s.take(n).drop_first() =~= rest.take(n - 1));
        assert(s.take(n)[0] == s[0]);
    } else {
        assert(s.take(0) =~= Seq::empty());
    }
}

/// A field is exactly as long as declared, ends with a zero, and reads back as
/// the longest run of whole characters that fits: a surrogate pair is written
/// fully or not at all.
pub proof fn a_field_never_splits_a_character(s: Seq<char>, size: nat)
    requires
        size > 0,
        !s.contains('\0'),
    ensures
        fixed_field(s, size).len() == size,
        fixed_field(s, size).last() == 0,
        decoded(before_nul(fixed_field(s, size))) == s.take(fitting(s, size - 1) as int),
{
    lemma_fitting(s, size - 1);
    let kept = s.take(fitting(s, size - 1) as int);
    let head = encoded(kept);
    let pad = Seq::new((size - head.len()) as nat, |i: int| 0u16);
    assert(!kept.contains('\0')) by {
        if kept.contains('\0') {
            let i = choose|i: int| 0 <= i < kept.len() && kept[i] == '\0';
            assert(s[i] == '\0');
        }
    }
    lemma_encoded_has_no_nul(kept);
    lemma_before_nul(head, pad);
    decoding_undoes_encoding(kept);
}

/// Encode a text into a field of `N` units, zero-padded. Characters that do not
/// fit with the terminator are left out whole.
pub fn to_fixed_utf16<const N: usize>(text: &str) -> (field: Vec<u16>)
    ensures
        field@ == fixed_field(text@, N as nat),
        field@.len() == N,
{
    let limit: usize = if N > 0 {
        N - 1
    } else {
        0
    };
    let chars = chars_of(text);
    let ghost s = text@;
    let mut field: Vec<u16> = Vec::new();
    let mut i: usize = 0;
    let mut full = false;
    proof {
        lemma_fitting(s, N - 1);
        assert(s.skip(0) =~= s);
        assert(s.take(0) =~= Seq::empty());
        if N == 0 {
            assert(s.len() > 0 ==> units_of(s[0]).len() >= 1);
        }
    }
    while i < chars.len() && !full
        invariant
            i <= chars.len(),
            chars@ == s,
            limit == (if N > 0 {
                N - 1
            } else {
                0
            }),
            field@ == encoded(s.take(i as int)),
            field@.len() <= limit,
            fitting(s, limit as int) == i + fitting(s.skip(i as int), limit - field@.len()),
            full ==> fitting(s.skip(i as int), limit - field@.len()) == 0,
        decreases chars.len() - i, (!full) as int,
    {
        let c = chars[i];
        let width: usize = if (c as u32) < 0x10000 {
            1
        } else {
            2
        };
        proof {
            assert(s.skip(i as int)[0] == c);
            assert(s.skip(i as int).drop_first() =~= s.skip(i as int + 1));
        }
        if limit - field.len() < width {
            full = true;
        } else {
            push_units(&mut field, c);
            i = i + 1;
            proof {
                lemma_encoded_push(s.take(i as int - 1), s[i as int - 1]);
                assert(s.take(i as int) =~= s.take(i as int - 1).push(s[i as int - 1]));
            }
        }
    }
    proof {
        assert(fitting(s.skip(i as int), limit - field@.len()) == 0);
        assert(i == fitting(s, limit as int));
        if N == 0 {
            assert(fitting(s, -1) == 0);
            assert(i == 0);
        }
        assert(i == fitting(s, N - 1));
    }
    let ghost head = field@;
    while field.len() < N
        invariant
            head.len() <= field@.len() <= N,
            field@ == head + Seq::new((field@.len() - head.len()) as nat, |j: int| 0u16),
        decreases N - field.len(),
    {
        let ghost before = field@;
        field.push(0);
        proof {
            assert(field@ =~= head + Seq::new((field@.len() - head.len()) as nat, |j: int| 0u16));
        }
    }
    field
}

/// A character of the basic plane is its own code unit; any other is a pair that
/// spells it.
pub proof fn a_character_is_one_unit_or_a_pair(c: char)
    ensures
        c as u32 <= 0xffff ==> units_of(c).len() == 1 && units_of(c)[0] == c as u32,
        c as u32 > 0xffff ==> {
            &&& units_of(c).len() == 2
            &&& 0xd800 <= units_of(c)[0] <= 0xdbff
            &&& 0xdc00 <= units_of(c)[1] <= 0xdfff
            &&& 0x10000 + (units_of(c)[0] - 0xd800) * 0x400 + (units_of(c)[1] - 0xdc00) == c as u32
        },
{
    let n = c as u32;
    if n >= 0x10000 {
        let q = (n - 0x10000) / 0x400;
        let r = (n - 0x10000) % 0x400;
        assert(0 <= q < 0x400 && 0 <= r < 0x400 && n - 0x10000 == q * 0x400 + r);
    }
}

/// A surrogate that has lost its other half decodes as U+FFFD, and what follows
/// it is decoded as if it stood alone.
pub proof fn an_unpaired_surrogate_is_replaced(unit: u16, rest: Seq<u16>)
    requires
        0xd800 <= unit <= 0xdfff,
        unit >= 0xdc00 || rest.len() == 0 || rest[0] < 0xdc00 || rest[0] > 0xdfff,
    ensures
        decoded(seq![unit] + rest) == seq!['\u{fffd}'] + decoded(rest),
{
    let all = seq![unit] + rest;
    assert(all.drop_first() =~= rest);
    assert(rest.len() > 0 ==> all[1] == rest[0]);
}

/// A field holds all of a text that fits, and of a longer one as many characters
/// as fit: the next one would not.
pub proof fn a_field_holds_as_much_as_fits(s: Seq<char>, room: int)
    requires
        0 <= room,
    ensures
        encoded(s).len() <= room ==> fitting(s, room) == s.len(),
        fitting(s, room) < s.len() ==> encoded(s.take(fitting(s, room) as int + 1)).len() > room,
    decreases s.len(),
{
    lemma_fitting(s, room);
    if s.len() > 0 {
        let rest = s.drop_first();
        let n = fitting(s, room) as int;
        if units_of(s[0]).len() <= room {
            let left = room - units_of(s[0]).len();
            a_field_holds_as_much_as_fits(rest, left);
            if n < s.len() {
                assert(s.take(n + 1).drop_first() =~= rest.take(n));
                assert(s.take(n + 1)[0] == s[0]);
            }
        } else {
            assert(s.take(1).drop_first() =~= Seq::empty());
            assert(s.take(1)[0] == s[0]);
            assert(encoded(s.take(1)).len() >= units_of(s[0]).len());
        }
    }
}

/// A text that was encoded with a terminator is decoded again, whatever stands
/// behind the terminator.
pub proof fn an_encoded_text_is_decoded_again(
    text: &str,
    units: Vec<u16>,
    buffer: Vec<u16>,
    tail: Seq<u16>,
    read: String,
)
    requires
        call_ensures(to_wide, (text,), units),
        buffer@ == units@ + tail,
        call_ensures(from_wide, (&buffer,), read),
        !text@.contains('\0'),
    ensures
        units@.last() == 0,
        read@ == text@,
{
    wide_text_round_trips(text@, tail);
}

} // verus!
