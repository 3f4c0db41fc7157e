//! Tooltip length policy.

use vstd::prelude::*;

verus! {

/// Hard ceiling for a tooltip, in `char`s.
///
/// Windows `NOTIFYICONDATAW::szTip` holds 128 UTF-16 code units *including* its
/// NUL terminator, so 127 is the safety cap used cross-platform.
pub const TOOLTIP_MAX_CHARS: usize = 127;

/// Preferred tooltip length. Text longer than this triggers a
/// [`crate::capability::SupportLevel::Partial`] report rather than silent clipping.
pub const TOOLTIP_TARGET_CHARS: usize = 80;

/// The first `limit` characters of `s`, or all of it when it is shorter.
pub open spec fn clamped(s: Seq<char>, limit: nat) -> Seq<char> {
    if s.len() <= limit {
        s
    } else {
        s.take(limit as int)
    }
}

/// `s` clamped to the hard ceiling.
pub open spec fn safe_tooltip(s: Seq<char>) -> Seq<char> {
    clamped(s, TOOLTIP_MAX_CHARS as nat)
}

/// Whether `s` is longer than the preferred tooltip length.
pub open spec fn exceeds_target(s: Seq<char>) -> bool {
    s.len() > TOOLTIP_TARGET_CHARS
}

/// Truncate `text` to at most `limit` `char`s without splitting a `char`.
pub fn truncate_chars(text: &str, limit: usize) -> (res: &str)
    ensures
        res@ == clamped(text@, limit as nat),
{
    if text.unicode_len() <= limit {
        text
    } else {
        text.substring_char(0, limit)
    }
}

/// Clamp `text` to the platform-safe tooltip length.
///
/// No ellipsis is appended: U+2026 is not ASCII, and a legacy console cannot
/// encode it.
pub fn sanitize_tooltip(text: &str) -> (res: &str)
    ensures
        res@ == safe_tooltip(text@),
{
    truncate_chars(text, TOOLTIP_MAX_CHARS)
}

/// Whether `text` exceeds [`TOOLTIP_TARGET_CHARS`] and therefore needs clamping.
pub fn tooltip_needs_truncation(text: &str) -> (yes: bool)
    ensures
        yes == exceeds_target(text@),
{
    text.unicode_len() > TOOLTIP_TARGET_CHARS
}

/// A clamped tooltip fits the ceiling, is a prefix of what was asked for, and is
/// left alone when clamped again.
pub proof fn clamping_is_a_stable_prefix(s: Seq<char>)
    ensures
        safe_tooltip(s).len() <= TOOLTIP_MAX_CHARS,
        safe_tooltip(s).is_prefix_of(s),
        safe_tooltip(safe_tooltip(s)) == safe_tooltip(s),
        s.len() <= TOOLTIP_MAX_CHARS ==> safe_tooltip(s) == s,
{
}

/// Clamping to the ceiling never hides that a text was over the preferred length.
pub proof fn clamping_keeps_the_overlength_report(s: Seq<char>)
    ensures
        exceeds_target(safe_tooltip(s)) == exceeds_target(s),
{
}

/// A tooltip keeps its first 127 characters, and all of them where it has no
/// more; it needs clamping from its 81st character on.
pub proof fn a_tooltip_keeps_as_much_as_is_safe(s: Seq<char>, i: int)
    ensures
        safe_tooltip(s).len() == (if s.len() <= 127 {
            s.len()
        } else {
            127
        }),
        0 <= i < s.len() && i < 127 ==> safe_tooltip(s)[i] == s[i],
        exceeds_target(s) <==> s.len() >= 81,
{
}

/// Truncating keeps as many characters as the limit allows, from the start.
pub proof fn truncation_keeps_the_start(s: Seq<char>, limit: nat, i: int)
    ensures
        clamped(s, limit).len() == (if s.len() <= limit {
            s.len()
        } else {
            limit
        }),
        0 <= i < clamped(s, limit).len() ==> clamped(s, limit)[i] == s[i],
{
}

/// A clamped text is the start of what was given, up to the limit; a tooltip up to
/// 127 characters, and reported as too long from 81 on.
pub proof fn a_clamped_text_is_the_start_of_it(
    text: &str,
    limit: usize,
    cut: &str,
    safe: &str,
    long: bool,
)
    requires
        call_ensures(truncate_chars, (text, limit), cut),
        call_ensures(sanitize_tooltip, (text,), safe),
        call_ensures(tooltip_needs_truncation, (text,), long),
    ensures
        cut@.is_prefix_of(text@) && safe@.is_prefix_of(text@),
        text@.len() <= limit ==> cut@ == text@,
        text@.len() > limit ==> cut@.len() == limit,
        text@.len() <= 127 ==> safe@ == text@,
        text@.len() > 127 ==> safe@.len() == 127,
        long <==> text@.len() > 80,
{
}

} // verus!
