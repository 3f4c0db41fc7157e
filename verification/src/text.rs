//! Text primitives: trimming, searching, case folding and decimal notation.
//!
//! A text is modelled by its sequence of `char`s, so nothing here ever counts
//! bytes or splits a character.

use vstd::prelude::*;

verus! {

/// `String::push` appends the given character to the end of the string.
pub assume_specification[ String::push ](s: &mut String, c: char)
    ensures
        final(s)@ == old(s)@.push(c),
;

// ---------------------------------------------------------------------------
// White space
// ---------------------------------------------------------------------------
/// The Unicode `White_Space` property.
pub open spec fn is_space(c: char) -> bool {
    let n = c as u32;
    ||| 0x09 <= n <= 0x0d
    ||| n == 0x20
    ||| n == 0x85
    ||| n == 0xa0
    ||| n == 0x1680
    ||| 0x2000 <= n <= 0x200a
    ||| n == 0x2028
    ||| n == 0x2029
    ||| n == 0x202f
    ||| n == 0x205f
    ||| n == 0x3000
}

/// Whether `c` is Unicode white space.
pub fn is_white_space(c: char) -> (yes: bool)
    ensures
        yes == is_space(c),
{
    let n: u32 = c as u32;
    (0x09 <= n && n <= 0x0d) || n == 0x20 || n == 0x85 || n == 0xa0 || n == 0x1680 || (0x2000 <= n
        && n <= 0x200a) || n == 0x2028 || n == 0x2029 || n == 0x202f || n == 0x205f || n == 0x3000
}

/// `s` without its leading characters that satisfy `drop`.
pub open spec fn without_leading(s: Seq<char>, drop: spec_fn(char) -> bool) -> Seq<char>
    decreases s.len(),
{
    if s.len() > 0 && drop(s[0]) {
        without_leading(s.drop_first(), drop)
    } else {
        s
    }
}

/// `s` without its trailing characters that satisfy `drop`.
pub open spec fn without_trailing(s: Seq<char>, drop: spec_fn(char) -> bool) -> Seq<char>
    decreases s.len(),
{
    if s.len() > 0 && drop(s.last()) {
        without_trailing(s.drop_last(), drop)
    } else {
        s
    }
}

/// `s` without the characters satisfying `drop` at either end.
pub open spec fn without_both(s: Seq<char>, drop: spec_fn(char) -> bool) -> Seq<char> {
    without_trailing(without_leading(s, drop), drop)
}

/// `s` without white space at either end.
pub open spec fn trimmed(s: Seq<char>) -> Seq<char> {
    without_both(s, |c: char| is_space(c))
}

/// Whether `s` holds nothing but white space.
pub open spec fn is_blank(s: Seq<char>) -> bool {
    forall|i: int| 0 <= i < s.len() ==> is_space(#[trigger] s[i])
}

proof fn lemma_without_leading(s: Seq<char>, drop: spec_fn(char) -> bool, n: int)
    requires
        0 <= n <= s.len(),
        forall|i: int| 0 <= i < n ==> drop(#[trigger] s[i]),
        n < s.len() ==> !drop(s[n]),
    ensures
        without_leading(s, drop) == s.subrange(n, s.len() as int),
    decreases s.len(),
{
    if n > 0 {
        assert(drop(s[0]));
        assert forall|i: int| 0 <= i < n - 1 implies drop(#[trigger] s.drop_first()[i]) by {
            assert(s.drop_first()[i] == s[i + 1]);
        }
        lemma_without_leading(s.drop_first(), drop, n - 1);
        assert(s.drop_first().subrange(n - 1, s.len() - 1) =~= s.subrange(n, s.len() as int));
    } else {
        assert(s.subrange(0, s.len() as int) =~= s);
    }
}

proof fn lemma_without_trailing(s: Seq<char>, drop: spec_fn(char) -> bool, n: int)
    requires
        0 <= n <= s.len(),
        forall|i: int| n <= i < s.len() ==> drop(#[trigger] s[i]),
        n > 0 ==> !drop(s[n - 1]),
    ensures
        without_trailing(s, drop) == s.subrange(0, n),
    decreases s.len(),
{
    if n < s.len() {
        assert(drop(s[s.len() - 1]));
        lemma_without_trailing(s.drop_last(), drop, n);
        assert(s.drop_last().subrange(0, n) =~= s.subrange(0, n));
    } else {
        assert(s.subrange(0, n) =~= s);
    }
}

/// Trimming leaves nothing exactly when there was nothing but white space.
pub proof fn trimmed_is_empty_iff_blank(s: Seq<char>)
    ensures
        trimmed(s).len() == 0 <==> is_blank(s),
    decreases s.len(),
{
    let drop = |c: char| is_space(c);
    if s.len() > 0 && is_space(s[0]) {
        trimmed_is_empty_iff_blank(s.drop_first());
        assert(is_blank(s.drop_first()) ==> is_blank(s)) by {
            assert forall|i: int| is_blank(s.drop_first()) && 0 <= i < s.len() implies is_space(
                #[trigger] s[i],
            ) by {
                if i > 0 {
                    assert(s.drop_first()[i - 1] == s[i]);
                }
            }
        }
        assert(is_blank(s) ==> is_blank(s.drop_first())) by {
            assert forall|i: int| is_blank(s) && 0 <= i < s.len() - 1 implies is_space(
                #[trigger] s.drop_first()[i],
            ) by {
                assert(s.drop_first()[i] == s[i + 1]);
            }
        }
    } else if s.len() > 0 {
        assert(without_leading(s, drop) == s);
        lemma_trailing_keeps_head(s, drop);
        assert(!is_space(s[0]));
    } else {
        assert(without_leading(s, drop) == s);
        assert(without_trailing(s, drop) == s);
    }
}

proof fn lemma_trailing_keeps_head(s: Seq<char>, drop: spec_fn(char) -> bool)
    requires
        s.len() > 0,
        !drop(s[0]),
    ensures
        without_trailing(s, drop).len() > 0,
        without_trailing(s, drop)[0] == s[0],
    decreases s.len(),
{
    if drop(s.last()) {
        lemma_trailing_keeps_head(s.drop_last(), drop);
    }
}

/// What a list of texts says.
pub open spec fn texts(args: Seq<String>) -> Seq<Seq<char>> {
    args.map_values(|arg: String| arg@)
}

/// The characters of `text`, in order.
pub fn chars_of(text: &str) -> (chars: Vec<char>)
    ensures
        chars@ == text@,
{
    let mut chars: Vec<char> = Vec::new();
    for c in iter: text.chars()
        invariant
            chars@ == text@.take(iter.index() as int),
            iter.seq() == text@,
    {
        proof {
            assert(text@.take(iter.index() as int + 1) =~= text@.take(iter.index() as int).push(c));
        }
        chars.push(c);
    }
    proof {
        assert(text@.take(text@.len() as int) =~= text@);
    }
    chars
}

/// `text` without white space at either end.
pub fn trim<'a>(text: &'a str) -> (res: &'a str)
    ensures
        res@ == trimmed(text@),
{
    let chars = chars_of(text);
    let ghost s = text@;
    let ghost drop = |c: char| is_space(c);
    let mut start: usize = 0;
    while start < chars.len() && is_white_space(chars[start])
        invariant
            start <= chars.len(),
            chars@ == s,
            drop == (|c: char| is_space(c)),
            forall|i: int| 0 <= i < start ==> drop(#[trigger] s[i]),
        decreases chars.len() - start,
    {
        start = start + 1;
    }
    proof {
        lemma_without_leading(s, drop, start as int);
    }
    let ghost head = s.subrange(start as int, s.len() as int);
    let mut end: usize = chars.len();
    while end > start && is_white_space(chars[end - 1])
        invariant
            start <= end <= chars.len(),
            chars@ == s,
            drop == (|c: char| is_space(c)),
            head == s.subrange(start as int, s.len() as int),
            forall|i: int| end - start <= i < head.len() ==> drop(#[trigger] head[i]),
        decreases end,
    {
        end = end - 1;
        proof {
            assert(head[end - start] == s[end as int]);
        }
    }
    proof {
        if end > start {
            assert(head[end - start - 1] == s[end - 1]);
        }
        lemma_without_trailing(head, drop, end - start);
        assert(head.subrange(0, end - start) =~= s.subrange(start as int, end as int));
    }
    text.substring_char(start, end)
}

/// Picks the characters `a` and `b`.
pub open spec fn either(a: char, b: char) -> spec_fn(char) -> bool {
    |c: char| c == a || c == b
}

/// `text` without the characters `a` and `b` at either end.
pub fn trim_either<'a>(text: &'a str, a: char, b: char) -> (res: &'a str)
    ensures
        res@ == without_both(text@, either(a, b)),
{
    let chars = chars_of(text);
    let ghost s = text@;
    let ghost drop = either(a, b);
    let mut start: usize = 0;
    while start < chars.len() && (chars[start] == a || chars[start] == b)
        invariant
            start <= chars.len(),
            chars@ == s,
            drop == either(a, b),
            forall|i: int| 0 <= i < start ==> drop(#[trigger] s[i]),
        decreases chars.len() - start,
    {
        start = start + 1;
    }
    proof {
        lemma_without_leading(s, drop, start as int);
    }
    let ghost head = s.subrange(start as int, s.len() as int);
    let mut end: usize = chars.len();
    while end > start && (chars[end - 1] == a || chars[end - 1] == b)
        invariant
            start <= end <= chars.len(),
            chars@ == s,
            drop == either(a, b),
            head == s.subrange(start as int, s.len() as int),
            forall|i: int| end - start <= i < head.len() ==> drop(#[trigger] head[i]),
        decreases end,
    {
        end = end - 1;
        proof {
            assert(head[end - start] == s[end as int]);
        }
    }
    proof {
        if end > start {
            assert(head[end - start - 1] == s[end - 1]);
        }
        lemma_without_trailing(head, drop, end - start);
        assert(head.subrange(0, end - start) =~= s.subrange(start as int, end as int));
    }
    text.substring_char(start, end)
}

/// Whether `text` holds nothing but white space.
pub fn blank(text: &str) -> (yes: bool)
    ensures
        yes == is_blank(text@),
{
    proof {
        trimmed_is_empty_iff_blank(text@);
    }
    trim(text).is_empty()
}

// ---------------------------------------------------------------------------
// Searching
// ---------------------------------------------------------------------------
/// Whether `part` stands in `s` at index `i`.
pub open spec fn stands_at(s: Seq<char>, part: Seq<char>, i: int) -> bool {
    0 <= i && i + part.len() <= s.len() && s.subrange(i, i + part.len()) == part
}

/// Whether `part` stands somewhere in `s`.
pub open spec fn holds(s: Seq<char>, part: Seq<char>) -> bool {
    exists|i: int| stands_at(s, part, i)
}

/// Whether `s` begins with `part`.
pub open spec fn begins_with(s: Seq<char>, part: Seq<char>) -> bool {
    stands_at(s, part, 0)
}

/// Whether `s` ends with `part`.
pub open spec fn finishes_with(s: Seq<char>, part: Seq<char>) -> bool {
    stands_at(s, part, s.len() - part.len())
}

/// Whether `part` stands in `chars` at index `at`.
fn matches_at(chars: &Vec<char>, part: &Vec<char>, at: usize) -> (yes: bool)
    ensures
        yes == stands_at(chars@, part@, at as int),
{
    if part.len() > chars.len() || at > chars.len() - part.len() {
        return false;
    }
    let mut i: usize = 0;
    while i < part.len()
        invariant
            i <= part.len(),
            at + part.len() <= chars.len(),
            forall|j: int| 0 <= j < i ==> chars@[at + j] == #[trigger] part@[j],
        decreases part.len() - i,
    {
        if chars[at + i] != part[i] {
            proof {
                assert(chars@.subrange(at as int, at + part.len())[i as int] != part@[i as int]);
            }
            return false;
        }
        i = i + 1;
    }
    proof {
        assert(chars@.subrange(at as int, at + part.len()) =~= part@);
    }
    true
}

/// Whether `part` stands somewhere in `text`.
pub fn contains(text: &str, part: &str) -> (yes: bool)
    ensures
        yes == holds(text@, part@),
{
    let chars = chars_of(text);
    let wanted = chars_of(part);
    let mut at: usize = 0;
    while at <= chars.len()
        invariant
            at <= chars.len() + 1,
            chars@ == text@,
            wanted@ == part@,
            forall|j: int| 0 <= j < at ==> !stands_at(text@, part@, j),
        decreases chars.len() + 1 - at,
    {
        if matches_at(&chars, &wanted, at) {
            return true;
        }
        if at == chars.len() {
            return false;
        }
        at = at + 1;
    }
    false
}

/// Whether `text` begins with `part`.
pub fn starts_with(text: &str, part: &str) -> (yes: bool)
    ensures
        yes == begins_with(text@, part@),
{
    let chars = chars_of(text);
    let wanted = chars_of(part);
    matches_at(&chars, &wanted, 0)
}

/// Whether `text` ends with `part`.
pub fn ends_with(text: &str, part: &str) -> (yes: bool)
    ensures
        yes == finishes_with(text@, part@),
{
    let chars = chars_of(text);
    let wanted = chars_of(part);
    if wanted.len() > chars.len() {
        false
    } else {
        matches_at(&chars, &wanted, chars.len() - wanted.len())
    }
}

/// What follows `prefix` in `text`, when `text` begins with it.
pub fn strip_prefix<'a>(text: &'a str, prefix: &str) -> (rest: Option<&'a str>)
    ensures
        begins_with(text@, prefix@) <==> rest is Some,
        rest matches Some(r) ==> r@ == text@.skip(prefix@.len() as int),
{
    if starts_with(text, prefix) {
        let skipped: usize = prefix.unicode_len();
        let total: usize = text.unicode_len();
        Some(text.substring_char(skipped, total))
    } else {
        None
    }
}

/// What precedes `suffix` in `text`, when `text` ends with it.
pub fn strip_suffix<'a>(text: &'a str, suffix: &str) -> (rest: Option<&'a str>)
    ensures
        finishes_with(text@, suffix@) <==> rest is Some,
        rest matches Some(r) ==> r@ == text@.take(text@.len() - suffix@.len()),
{
    if ends_with(text, suffix) {
        let cut: usize = suffix.unicode_len();
        let total: usize = text.unicode_len();
        Some(text.substring_char(0, total - cut))
    } else {
        None
    }
}

/// Whether two texts hold the same characters.
pub fn same(a: &str, b: &str) -> (yes: bool)
    ensures
        yes == (a@ == b@),
{
    let left = chars_of(a);
    let right = chars_of(b);
    if left.len() != right.len() {
        return false;
    }
    let whole = matches_at(&left, &right, 0);
    proof {
        assert(left@.subrange(0, left@.len() as int) =~= left@);
    }
    whole
}

// ---------------------------------------------------------------------------
// Case
// ---------------------------------------------------------------------------
/// `c` with an ASCII capital letter replaced by its small form.
pub open spec fn ascii_small(c: char) -> char {
    if 'A' <= c <= 'Z' {
        (c as u32 + 32) as char
    } else {
        c
    }
}

/// `s` with every ASCII capital letter replaced by its small form.
pub open spec fn ascii_lowercased(s: Seq<char>) -> Seq<char> {
    s.map_values(|c: char| ascii_small(c))
}

/// The small form of an ASCII capital letter; any other character is kept.
fn to_ascii_small(c: char) -> (small: char)
    ensures
        small == ascii_small(c),
{
    if 'A' <= c && c <= 'Z' {
        let n: u8 = c as u8;
        (n + 32) as char
    } else {
        c
    }
}

/// `text` with its ASCII capital letters replaced by small ones.
pub fn ascii_lowercase(text: &str) -> (res: String)
    ensures
        res@ == ascii_lowercased(text@),
{
    let chars = chars_of(text);
    let mut res = String::new();
    let mut i: usize = 0;
    while i < chars.len()
        invariant
            i <= chars.len(),
            chars@ == text@,
            res@ == ascii_lowercased(text@.take(i as int)),
        decreases chars.len() - i,
    {
        res.push(to_ascii_small(chars[i]));
        i = i + 1;
        proof {
            assert(ascii_lowercased(text@.take(i as int)) =~= ascii_lowercased(
                text@.take(i as int - 1),
            ).push(ascii_small(text@[i as int - 1])));
        }
    }
    proof {
        assert(text@.take(i as int) =~= text@);
    }
    res
}

/// What `str::to_lowercase` makes of a text.
pub uninterp spec fn lowercased(s: Seq<char>) -> Seq<char>;

/// `str::to_lowercase`: the Unicode lowercase form of `text`, a function of its
/// characters alone. The mapping itself is given no definition here.
#[verifier::external_body]
pub(crate) fn lowercase(text: &str) -> (res: String)
    ensures
        res@ == lowercased(text@),
{
    text.to_lowercase()
}

// ---------------------------------------------------------------------------
// Decimal notation
// ---------------------------------------------------------------------------
/// The decimal digit `d`.
pub open spec fn digit(d: nat) -> char {
    (48 + d) as char
}

/// `n` in decimal notation, without leading zeros.
pub open spec fn decimal(n: nat) -> Seq<char>
    decreases n,
{
    if n < 10 {
        seq![digit(n)]
    } else {
        decimal(n / 10).push(digit(n % 10))
    }
}

/// `n` in decimal notation, with a sign when negative.
pub open spec fn signed_decimal(n: int) -> Seq<char> {
    if n < 0 {
        seq!['-'] + decimal((-n) as nat)
    } else {
        decimal(n as nat)
    }
}

/// Different numbers have different notations.
pub proof fn decimal_is_injective(a: nat, b: nat)
    requires
        decimal(a) == decimal(b),
    ensures
        a == b,
    decreases a,
{
    decimal_is_never_empty(a);
    decimal_is_never_empty(b);
    assert(decimal(a).last() == digit(a % 10));
    assert(decimal(b).last() == digit(b % 10));
    assert(a % 10 == b % 10);
    if a < 10 || b < 10 {
        assert(decimal(a).len() == decimal(b).len());
        if a >= 10 {
            decimal_is_never_empty(a / 10);
        }
        if b >= 10 {
            decimal_is_never_empty(b / 10);
        }
    } else {
        assert(decimal(a).drop_last() =~= decimal(a / 10));
        assert(decimal(b).drop_last() =~= decimal(b / 10));
        decimal_is_injective(a / 10, b / 10);
    }
}

/// A notation has at least one digit.
pub proof fn decimal_is_never_empty(n: nat)
    ensures
        decimal(n).len() > 0,
{
}

fn push_digit(text: &mut String, d: u64)
    requires
        d < 10,
    ensures
        final(text)@ == old(text)@.push(digit(d as nat)),
{
    text.push((48u8 + d as u8) as char);
}

/// `n` in decimal notation.
pub fn show(n: u64) -> (text: String)
    ensures
        text@ == decimal(n as nat),
    decreases n,
{
    if n < 10 {
        let mut text = String::new();
        push_digit(&mut text, n);
        proof {
            assert(text@ =~= seq![digit(n as nat)]);
        }
        text
    } else {
        let mut text = show(n / 10);
        push_digit(&mut text, n % 10);
        text
    }
}

/// `n` in decimal notation, with a sign when negative.
pub fn show_signed(n: i32) -> (text: String)
    ensures
        text@ == signed_decimal(n as int),
{
    if n < 0 {
        let magnitude: i64 = -(n as i64);
        let mut text = String::new();
        text.push('-');
        let digits = show(magnitude as u64);
        text.append(digits.as_str());
        proof {
            assert(text@ =~= seq!['-'] + decimal((-n) as nat));
        }
        text
    } else {
        show(n as u64)
    }
}

/// The hexadecimal digit of a value below 16.
pub open spec fn hex_digit(d: nat) -> char {
    if d < 10 {
        digit(d)
    } else {
        ('a' as nat + d - 10) as char
    }
}

/// A number in hexadecimal, in lower case and without leading zeros.
pub open spec fn hexadecimal(n: nat) -> Seq<char>
    decreases n,
{
    if n < 16 {
        seq![hex_digit(n)]
    } else {
        hexadecimal(n / 16).push(hex_digit(n % 16))
    }
}

/// Write a number in hexadecimal.
pub fn show_hex(n: u32) -> (text: String)
    ensures
        text@ == hexadecimal(n as nat),
    decreases n,
{
    let mut text = if n < 16 {
        String::new()
    } else {
        show_hex(n / 16)
    };
    let d: u8 = (n % 16) as u8;
    if d < 10 {
        text.push((48 + d) as char);
    } else {
        text.push((87 + d) as char);
    }
    proof {
        if n < 16 {
            assert(text@ =~= seq![hex_digit(n as nat)]);
        }
    }
    text
}

/// Whether `c` is a decimal digit.
pub open spec fn is_digit(c: char) -> bool {
    '0' <= c <= '9'
}

/// The number that decimal digits stand for.
pub open spec fn number_of(digits: Seq<char>) -> nat
    decreases digits.len(),
{
    if digits.len() == 0 {
        0
    } else {
        number_of(digits.drop_last()) * 10 + (digits.last() as u32 - 48) as nat
    }
}

/// Whether every character of `s` is a decimal digit.
pub open spec fn all_digits(s: Seq<char>) -> bool {
    forall|i: int| 0 <= i < s.len() ==> is_digit(#[trigger] s[i])
}

/// `s` without a leading plus sign.
pub open spec fn unsigned_part(s: Seq<char>) -> Seq<char> {
    if s.len() > 0 && s[0] == '+' {
        s.drop_first()
    } else {
        s
    }
}

/// The byte that `s` spells in decimal: an optional plus sign, then at least one
/// digit and nothing else, and a value that fits.
pub open spec fn byte_of(s: Seq<char>) -> Option<u8> {
    let digits = unsigned_part(s);
    if digits.len() > 0 && all_digits(digits) && number_of(digits) <= u8::MAX {
        Some(number_of(digits) as u8)
    } else {
        None
    }
}

proof fn lemma_number_grows(digits: Seq<char>, n: int)
    requires
        0 <= n <= digits.len(),
    ensures
        number_of(digits.take(n)) <= number_of(digits),
    decreases digits.len() - n,
{
    if n == digits.len() {
        assert(digits.take(n) =~= digits);
    } else {
        lemma_number_grows(digits, n + 1);
        assert(digits.take(n + 1).drop_last() =~= digits.take(n));
    }
}

/// The byte that `text` spells in decimal.
pub fn parse_byte(text: &str) -> (byte: Option<u8>)
    ensures
        byte == byte_of(text@),
{
    let chars = chars_of(text);
    let start: usize = if chars.len() > 0 && chars[0] == '+' {
        1
    } else {
        0
    };
    let ghost digits = unsigned_part(text@);
    proof {
        assert(digits =~= text@.skip(start as int));
    }
    if start == chars.len() {
        return None;
    }
    let mut value: u32 = 0;
    let mut i: usize = start;
    proof {
        assert(digits.take(0) =~= Seq::empty());
    }
    while i < chars.len()
        invariant
            start <= i <= chars.len(),
            chars@ == text@,
            digits == unsigned_part(text@),
            digits == text@.skip(start as int),
            start < chars.len(),
            value <= 255,
            value == number_of(digits.take(i - start)),
            forall|j: int| 0 <= j < i - start ==> is_digit(#[trigger] digits[j]),
        decreases chars.len() - i,
    {
        let c = chars[i];
        proof {
            assert(digits[i - start] == c);
        }
        if c < '0' || c > '9' {
            proof {
                assert(!is_digit(digits[i - start]));
            }
            return None;
        }
        let d: u32 = c as u32 - 48;
        value = value * 10 + d;
        proof {
            assert(digits.take(i - start + 1).drop_last() =~= digits.take(i - start));
            assert(digits.take(i - start + 1).last() == c);
            lemma_number_grows(digits, i - start + 1);
        }
        if value > 255 {
            return None;
        }
        i = i + 1;
    }
    proof {
        assert(digits.take(i - start) =~= digits);
    }
    Some(value as u8)
}

// ---------------------------------------------------------------------------
// Splitting
// ---------------------------------------------------------------------------
/// Where `c` first stands in `s`; the length of `s` when it does not.
pub open spec fn first_of(s: Seq<char>, c: char) -> nat
    decreases s.len(),
{
    if s.len() == 0 || s[0] == c {
        0
    } else {
        1 + first_of(s.drop_first(), c)
    }
}

/// Part `k` of `s` between the places where `c` stands, counted from 0.
pub open spec fn part_of(s: Seq<char>, c: char, k: nat) -> Option<Seq<char>>
    decreases k,
{
    let cut = first_of(s, c) as int;
    if k == 0 {
        Some(s.take(cut))
    } else if cut < s.len() {
        part_of(s.skip(cut + 1), c, (k - 1) as nat)
    } else {
        None
    }
}

proof fn lemma_first_of(s: Seq<char>, c: char, n: int)
    requires
        0 <= n <= s.len(),
        forall|i: int| 0 <= i < n ==> #[trigger] s[i] != c,
        n < s.len() ==> s[n] == c,
    ensures
        first_of(s, c) == n,
    decreases n,
{
    if n > 0 {
        assert(s[0] != c);
        assert forall|i: int| 0 <= i < n - 1 implies #[trigger] s.drop_first()[i] != c by {
            assert(s.drop_first()[i] == s[i + 1]);
        }
        lemma_first_of(s.drop_first(), c, n - 1);
    }
}

/// Part `k` of `text` between the places where `c` stands, counted from 0.
pub fn part<'a>(text: &'a str, c: char, k: usize) -> (found: Option<&'a str>)
    ensures
        found is Some <==> part_of(text@, c, k as nat) is Some,
        found matches Some(p) ==> part_of(text@, c, k as nat) == Some(p@),
    decreases k,
{
    let chars = chars_of(text);
    let mut cut: usize = 0;
    while cut < chars.len() && chars[cut] != c
        invariant
            cut <= chars.len(),
            chars@ == text@,
            forall|i: int| 0 <= i < cut ==> #[trigger] text@[i] != c,
        decreases chars.len() - cut,
    {
        cut = cut + 1;
    }
    proof {
        lemma_first_of(text@, c, cut as int);
    }
    if k == 0 {
        Some(text.substring_char(0, cut))
    } else if cut < chars.len() {
        part(text.substring_char(cut + 1, chars.len()), c, k - 1)
    } else {
        None
    }
}

/// Whether two texts are the same but for the case of ASCII letters.
pub fn same_ignoring_ascii_case(a: &str, b: &str) -> (yes: bool)
    ensures
        yes == (ascii_lowercased(a@) == ascii_lowercased(b@)),
{
    same(ascii_lowercase(a).as_str(), ascii_lowercase(b).as_str())
}

// ---------------------------------------------------------------------------
// What the operations are for
// ---------------------------------------------------------------------------
/// Blanks, tabs, line ends and the no-break space are white space; no visible
/// ASCII character is.
pub proof fn white_space_is_invisible(c: char)
    ensures
        is_space(' ') && is_space('\t') && is_space('\n') && is_space('\r') && is_space('\u{a0}'),
        '!' <= c <= '~' ==> !is_space(c),
{
}

/// Dropping characters at both ends keeps one stretch of the text: everything
/// outside it was to be dropped, and neither of its ends is.
pub proof fn only_the_ends_are_dropped(s: Seq<char>, drop: spec_fn(char) -> bool) -> (kept: (
    int,
    int,
))
    ensures
        0 <= kept.0 <= kept.1 <= s.len(),
        without_both(s, drop) == s.subrange(kept.0, kept.1),
        forall|i: int| 0 <= i < kept.0 || kept.1 <= i < s.len() ==> drop(#[trigger] s[i]),
        kept.0 < kept.1 ==> !drop(s[kept.0]) && !drop(s[kept.1 - 1]),
{
    let a = lemma_leading_end(s, drop);
    let head = s.subrange(a, s.len() as int);
    lemma_without_leading(s, drop, a);
    let b = lemma_trailing_end(head, drop);
    lemma_without_trailing(head, drop, b);
    assert(head.subrange(0, b) =~= s.subrange(a, a + b));
    assert forall|i: int| 0 <= i < a || a + b <= i < s.len() implies drop(#[trigger] s[i]) by {
        if i >= a {
            assert(head[i - a] == s[i]);
        }
    }
    if b > 0 {
        assert(head[b - 1] == s[a + b - 1]);
        if a < s.len() {
            assert(head[0] == s[a]);
        }
    }
    (a, a + b)
}

proof fn lemma_leading_end(s: Seq<char>, drop: spec_fn(char) -> bool) -> (n: int)
    ensures
        0 <= n <= s.len(),
        forall|i: int| 0 <= i < n ==> drop(#[trigger] s[i]),
        n < s.len() ==> !drop(s[n]),
    decreases s.len(),
{
    if s.len() > 0 && drop(s[0]) {
        let rest = s.drop_first();
        let n = lemma_leading_end(rest, drop);
        assert forall|i: int| 0 <= i < n + 1 implies drop(#[trigger] s[i]) by {
            if i > 0 {
                assert(rest[i - 1] == s[i]);
            }
        }
        if n < rest.len() {
            assert(rest[n] == s[n + 1]);
        }
        n + 1
    } else {
        0
    }
}

proof fn lemma_trailing_end(s: Seq<char>, drop: spec_fn(char) -> bool) -> (n: int)
    ensures
        0 <= n <= s.len(),
        forall|i: int| n <= i < s.len() ==> drop(#[trigger] s[i]),
        n > 0 ==> !drop(s[n - 1]),
    decreases s.len(),
{
    if s.len() > 0 && drop(s.last()) {
        let rest = s.drop_last();
        let n = lemma_trailing_end(rest, drop);
        assert forall|i: int| n <= i < s.len() implies drop(#[trigger] s[i]) by {
            if i < rest.len() {
                assert(rest[i] == s[i]);
            }
        }
        n
    } else {
        s.len() as int
    }
}

/// Trimming keeps one stretch of the text: nothing but white space is lost, and
/// what is kept neither begins nor ends with any.
pub proof fn trimming_drops_only_outer_white_space(s: Seq<char>) -> (kept: (int, int))
    ensures
        0 <= kept.0 <= kept.1 <= s.len(),
        trimmed(s) == s.subrange(kept.0, kept.1),
        forall|i: int| 0 <= i < kept.0 || kept.1 <= i < s.len() ==> is_space(#[trigger] s[i]),
        kept.0 < kept.1 ==> !is_space(s[kept.0]) && !is_space(s[kept.1 - 1]),
{
    let drop = |c: char| is_space(c);
    let kept = only_the_ends_are_dropped(s, drop);
    assert forall|i: int| 0 <= i < kept.0 || kept.1 <= i < s.len() implies is_space(
        #[trigger] s[i],
    ) by {
        assert(drop(s[i]));
    }
    kept
}

/// A text without white space at its ends comes back from whatever white space is
/// put around it.
pub proof fn trimming_undoes_padding(left: Seq<char>, s: Seq<char>, right: Seq<char>)
    requires
        is_blank(left),
        is_blank(right),
        s.len() > 0,
        !is_space(s[0]),
        !is_space(s.last()),
    ensures
        trimmed(left + s + right) == s,
        trimmed(s) == s,
{
    lemma_padding_is_dropped(left, s, right, |c: char| is_space(c));
    let none = Seq::<char>::empty();
    lemma_padding_is_dropped(none, s, none, |c: char| is_space(c));
    assert(none + s + none =~= s);
}

pub(crate) proof fn lemma_padding_is_dropped(
    left: Seq<char>,
    s: Seq<char>,
    right: Seq<char>,
    drop: spec_fn(char) -> bool,
)
    requires
        forall|i: int| 0 <= i < left.len() ==> drop(#[trigger] left[i]),
        forall|i: int| 0 <= i < right.len() ==> drop(#[trigger] right[i]),
        s.len() > 0,
        !drop(s[0]),
        !drop(s.last()),
    ensures
        without_both(left + s + right, drop) == s,
{
    let all = left + s + right;
    assert(all[left.len() as int] == s[0]);
    lemma_without_leading(all, drop, left.len() as int);
    let rest = all.subrange(left.len() as int, all.len() as int);
    assert(rest =~= s + right);
    lemma_without_trailing(rest, drop, s.len() as int);
    assert(rest.subrange(0, s.len() as int) =~= s);
}

/// Quotes put around a text that has none at its ends are dropped again.
pub proof fn unquoting_undoes_quoting(s: Seq<char>, a: char, b: char)
    requires
        s.len() > 0,
        s[0] != a && s[0] != b,
        s.last() != a && s.last() != b,
    ensures
        without_both(seq![a] + s + seq![b], either(a, b)) == s,
        without_both(seq![b] + s + seq![a], either(a, b)) == s,
        without_both(s, either(a, b)) == s,
{
    lemma_padding_is_dropped(seq![a], s, seq![b], either(a, b));
    lemma_padding_is_dropped(seq![b], s, seq![a], either(a, b));
    let none = Seq::<char>::empty();
    lemma_padding_is_dropped(none, s, none, either(a, b));
    assert(none + s + none =~= s);
}

/// A text that was put together from three parts holds the middle one, begins
/// with the first and ends with the last; and a text that holds, begins or ends
/// with a part can be taken apart that way.
pub proof fn parts_are_found_where_they_stand(a: Seq<char>, p: Seq<char>, b: Seq<char>)
    ensures
        holds(a + p + b, p),
        begins_with(p + b, p),
        finishes_with(a + p, p),
        begins_with(a, p) ==> a == p + a.skip(p.len() as int),
        finishes_with(a, p) ==> a == a.take(a.len() - p.len()) + p,
        holds(a, p) ==> exists|i: int|
            0 <= i <= a.len() - p.len() && a == #[trigger] a.take(i) + p + a.skip(i + p.len()),
        p.len() > a.len() ==> !holds(a, p) && !begins_with(a, p) && !finishes_with(a, p),
{
    let all = a + p + b;
    assert(all.subrange(a.len() as int, a.len() as int + p.len()) =~= p);
    assert(stands_at(all, p, a.len() as int));
    assert((p + b).subrange(0, p.len() as int) =~= p);
    assert((a + p).subrange(a.len() as int, (a + p).len() as int) =~= p);
    if begins_with(a, p) {
        assert(a =~= a.subrange(0, p.len() as int) + a.skip(p.len() as int));
    }
    if finishes_with(a, p) {
        let n = a.len() - p.len();
        assert(a =~= a.take(n) + a.subrange(n, n + p.len()));
    }
    if holds(a, p) {
        let i = choose|i: int| stands_at(a, p, i);
        assert(a =~= a.take(i) + a.subrange(i, i + p.len()) + a.skip(i + p.len()));
    }
}

/// Folding ASCII case changes capital letters only, keeps their order, and leaves
/// nothing more to fold.
pub proof fn folding_touches_only_capitals(s: Seq<char>)
    ensures
        ascii_lowercased(s).len() == s.len(),
        forall|i: int|
            0 <= i < s.len() ==> {
                let c = #[trigger] ascii_lowercased(s)[i];
                &&& 'A' <= s[i] <= 'Z' ==> 'a' <= c <= 'z' && c as u32 - 'a' as u32 == s[i] as u32
                    - 'A' as u32
                &&& !('A' <= s[i] <= 'Z') ==> c == s[i]
            },
        ascii_lowercased(ascii_lowercased(s)) == ascii_lowercased(s),
{
    assert(ascii_lowercased(ascii_lowercased(s)) =~= ascii_lowercased(s));
}

/// A number reads back from its decimal notation, which consists of digits and
/// has no leading zero.
pub proof fn decimal_notation_reads_back(n: nat)
    ensures
        number_of(decimal(n)) == n,
        all_digits(decimal(n)),
        n > 0 ==> decimal(n)[0] != '0',
        n < 10 ==> decimal(n).len() == 1,
        n >= 10 ==> decimal(n).len() == decimal(n / 10).len() + 1,
    decreases n,
{
    let s = decimal(n);
    if n < 10 {
        assert(s.drop_last() =~= Seq::empty());
        assert(number_of(s.drop_last()) == 0);
        assert(s.last() == digit(n));
    } else {
        decimal_notation_reads_back(n / 10);
        assert(s.drop_last() =~= decimal(n / 10));
        assert(s.last() == digit(n % 10));
        assert forall|i: int| 0 <= i < s.len() implies is_digit(#[trigger] s[i]) by {
            if i < s.len() - 1 {
                assert(s[i] == decimal(n / 10)[i]);
            }
        }
        assert(s[0] == decimal(n / 10)[0]);
    }
}

/// A negative number is its magnitude behind a minus sign, and no other number
/// has one.
pub proof fn only_negative_numbers_carry_a_sign(n: int)
    ensures
        n >= 0 ==> all_digits(signed_decimal(n)) && number_of(signed_decimal(n)) == n,
        n < 0 ==> signed_decimal(n)[0] == '-' && all_digits(signed_decimal(n).skip(1)) && number_of(
            signed_decimal(n).skip(1),
        ) == -n,
{
    if n >= 0 {
        decimal_notation_reads_back(n as nat);
    } else {
        decimal_notation_reads_back((-n) as nat);
        assert(signed_decimal(n).skip(1) =~= decimal((-n) as nat));
    }
}

/// A byte reads back from its decimal notation, with or without a plus sign; a
/// number that is no byte, an empty text and a text with any other character do
/// not read as one.
pub proof fn only_bytes_read_as_bytes(n: nat, s: Seq<char>, i: int)
    ensures
        n <= 255 ==> byte_of(decimal(n)) == Some(n as u8) && byte_of(seq!['+'] + decimal(n)) == Some(
            n as u8,
        ),
        n > 255 ==> byte_of(decimal(n)) is None,
        s.len() == 0 ==> byte_of(s) is None,
        0 <= i < s.len() && !('0' <= s[i] <= '9') && (i > 0 || s[i] != '+') ==> byte_of(s) is None,
        byte_of(s) is Some ==> byte_of(s)->0 == number_of(unsigned_part(s)),
{
    decimal_notation_reads_back(n);
    let d = decimal(n);
    assert(is_digit(d[0]));
    assert(unsigned_part(d) == d);
    assert(unsigned_part(seq!['+'] + d) =~= d);
    if 0 <= i < s.len() && !('0' <= s[i] <= '9') && (i > 0 || s[i] != '+') {
        let digits = unsigned_part(s);
        if s[0] == '+' {
            assert(digits[i - 1] == s[i]);
        } else {
            assert(digits[i] == s[i]);
        }
    }
}

/// What stands before the first separator is part 0, and what stands behind it is
/// parted by itself; a text without a separator is its only part.
pub proof fn joined_parts_are_found_again(a: Seq<char>, rest: Seq<char>, c: char, k: nat)
    requires
        forall|i: int| 0 <= i < a.len() ==> #[trigger] a[i] != c,
    ensures
        part_of(a + seq![c] + rest, c, 0) == Some(a),
        part_of(a + seq![c] + rest, c, k + 1) == part_of(rest, c, k),
        part_of(a, c, 0) == Some(a),
        part_of(a, c, k + 1) is None,
{
    let all = a + seq![c] + rest;
    let n = a.len() as int;
    assert forall|i: int| 0 <= i < n implies #[trigger] all[i] != c by {
        assert(all[i] == a[i]);
    }
    assert(all[n] == c);
    lemma_first_of(all, c, n);
    lemma_first_of(a, c, n);
    assert(all.take(n) =~= a);
    assert(all.skip(n + 1) =~= rest);
    assert(a.take(n) =~= a);
}

/// The value of a hexadecimal digit in lower case.
pub open spec fn hex_value(c: char) -> nat {
    if '0' <= c <= '9' {
        (c as u32 - '0' as u32) as nat
    } else {
        (c as u32 - 'a' as u32 + 10) as nat
    }
}

/// The number that hexadecimal digits stand for.
pub open spec fn hex_number_of(digits: Seq<char>) -> nat
    decreases digits.len(),
{
    if digits.len() == 0 {
        0
    } else {
        hex_number_of(digits.drop_last()) * 16 + hex_value(digits.last())
    }
}

/// A number reads back from its hexadecimal notation, which consists of digits
/// and the small letters up to `f`.
pub proof fn hexadecimal_notation_reads_back(n: nat)
    ensures
        hex_number_of(hexadecimal(n)) == n,
        forall|i: int|
            0 <= i < hexadecimal(n).len() ==> {
                let c = #[trigger] hexadecimal(n)[i];
                '0' <= c <= '9' || 'a' <= c <= 'f'
            },
    decreases n,
{
    let s = hexadecimal(n);
    if n < 16 {
        assert(s.drop_last() =~= Seq::empty());
        assert(hex_number_of(s.drop_last()) == 0);
        assert(s.last() == hex_digit(n));
    } else {
        hexadecimal_notation_reads_back(n / 16);
        assert(s.drop_last() =~= hexadecimal(n / 16));
        assert(s.last() == hex_digit(n % 16));
        assert forall|i: int| 0 <= i < s.len() implies {
            let c = #[trigger] s[i];
            '0' <= c <= '9' || 'a' <= c <= 'f'
        } by {
            if i < s.len() - 1 {
                assert(s[i] == hexadecimal(n / 16)[i]);
            }
        }
    }
}

/// White space is exactly what Unicode calls so: the tab, the line breaks, the
/// blanks of every width, the no-break spaces and the two separators.
pub proof fn white_space_is_what_unicode_calls_so(c: char)
    ensures
        is_space(c) <==> c == '\t' || c == '\n' || c == '\u{b}' || c == '\u{c}' || c == '\r' || c
            == ' ' || c == '\u{85}' || c == '\u{a0}' || c == '\u{1680}' || '\u{2000}' <= c
            <= '\u{200a}' || c == '\u{2028}' || c == '\u{2029}' || c == '\u{202f}' || c
            == '\u{205f}' || c == '\u{3000}',
{
}

/// Trimming gives what stands between the white space around a text.
pub proof fn a_trimmed_text_is_what_was_padded(
    text: &str,
    res: &str,
    nothing: bool,
    left: Seq<char>,
    s: Seq<char>,
    right: Seq<char>,
)
    requires
        call_ensures(trim, (text,), res),
        call_ensures(blank, (text,), nothing),
        is_blank(left),
        is_blank(right),
        text@ == left + s + right,
    ensures
        s.len() > 0 && !is_space(s[0]) && !is_space(s.last()) ==> res@ == s && !nothing,
        is_blank(s) ==> res@.len() == 0 && nothing,
{
    if s.len() > 0 && !is_space(s[0]) && !is_space(s.last()) {
        trimming_undoes_padding(left, s, right);
        assert(text@[left.len() as int] == s[0]);
    }
    if is_blank(s) {
        assert forall|i: int| 0 <= i < text@.len() implies is_space(#[trigger] text@[i]) by {
            if i < left.len() {
                assert(text@[i] == left[i]);
            } else if i < left.len() + s.len() {
                assert(text@[i] == s[i - left.len()]);
            } else {
                assert(text@[i] == right[i - left.len() - s.len()]);
            }
        }
        trimmed_is_empty_iff_blank(text@);
    }
}

/// A part is found in a text that holds it, at its start or its end only where it
/// stands there, and is then cut off whole.
pub proof fn a_part_is_found_and_cut_off(
    text: &str,
    part: &str,
    inside: bool,
    first: bool,
    last: bool,
    rest: Option<&str>,
    head: Option<&str>,
    other: &str,
    equal: bool,
)
    requires
        call_ensures(contains, (text, part), inside),
        call_ensures(starts_with, (text, part), first),
        call_ensures(ends_with, (text, part), last),
        call_ensures(strip_prefix, (text, part), rest),
        call_ensures(strip_suffix, (text, part), head),
        call_ensures(same, (text, other), equal),
    ensures
        inside <==> exists|i: int|
            0 <= i <= text@.len() - part@.len() && #[trigger] text@.subrange(i, i + part@.len())
                == part@,
        first <==> text@.len() >= part@.len() && text@.take(part@.len() as int) == part@,
        last <==> text@.len() >= part@.len() && text@.skip(text@.len() - part@.len()) == part@,
        rest is Some <==> first,
        rest matches Some(r) ==> text@ == part@ + r@,
        head is Some <==> last,
        head matches Some(h) ==> text@ == h@ + part@,
        equal <==> text@ == other@,
{
    parts_are_found_where_they_stand(text@, part@, Seq::empty());
    if inside {
        let i = choose|i: int| stands_at(text@, part@, i);
        assert(text@.subrange(i, i + part@.len()) == part@);
    }
    if exists|i: int|
        0 <= i <= text@.len() - part@.len() && #[trigger] text@.subrange(i, i + part@.len())
            == part@ {
        let i = choose|i: int|
            0 <= i <= text@.len() - part@.len() && #[trigger] text@.subrange(i, i + part@.len())
                == part@;
        assert(stands_at(text@, part@, i));
    }
    assert(text@.len() >= part@.len() ==> text@.take(part@.len() as int) =~= text@.subrange(
        0,
        part@.len() as int,
    ));
    let n = text@.len() - part@.len();
    assert(n >= 0 ==> text@.skip(n) =~= text@.subrange(n, n + part@.len()));
}

/// A number that is shown reads back, and so does a byte.
pub proof fn a_shown_number_reads_back(
    n: u64,
    shown: String,
    m: u32,
    hex: String,
    b: u8,
    digits: &str,
    byte: Option<u8>,
)
    requires
        call_ensures(show, (n,), shown),
        call_ensures(show_hex, (m,), hex),
        digits@ == decimal(b as nat),
        call_ensures(parse_byte, (digits,), byte),
    ensures
        number_of(shown@) == n,
        n > 0 ==> shown@[0] != '0',
        hex_number_of(hex@) == m,
        byte == Some(b),
{
    decimal_notation_reads_back(n as nat);
    hexadecimal_notation_reads_back(m as nat);
    only_bytes_read_as_bytes(b as nat, digits@, 0);
}

/// Two texts are the same but for ASCII case exactly when lower-casing makes them
/// one.
pub proof fn ascii_case_alone_is_ignored(a: &str, b: &str, yes: bool, lower: String, i: int)
    requires
        call_ensures(same_ignoring_ascii_case, (a, b), yes),
        call_ensures(ascii_lowercase, (a,), lower),
    ensures
        yes ==> a@.len() == b@.len(),
        a@ == b@ ==> yes,
        lower@ == b@ ==> yes,
        yes && 0 <= i < a@.len() && !('A' <= a@[i] <= 'Z') && !('A' <= b@[i] <= 'Z') ==> a@[i]
            == b@[i],
        lower@.len() == a@.len(),
        0 <= i < a@.len() && !('A' <= a@[i] <= 'Z') ==> lower@[i] == a@[i],
        0 <= i < a@.len() && 'A' <= a@[i] <= 'Z' ==> lower@[i] as u32 == a@[i] as u32 + 32,
{
    folding_touches_only_capitals(a@);
    folding_touches_only_capitals(b@);
    if yes && 0 <= i < a@.len() {
        assert(ascii_lowercased(a@)[i] == ascii_lowercased(b@)[i]);
    }
    if 0 <= i < a@.len() {
        let c = ascii_lowercased(a@)[i];
    }
}

} // verus!
