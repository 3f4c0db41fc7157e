//! Theme and accent colour of a Linux desktop, from the answers of the tools
//! that know them.

use crate::capability::{Capability, RgbaColor, Theme};
use crate::error::{ErrorView, UdaError};
use crate::text::{
    ascii_lowercased, begins_with, blank, byte_of, contains, decimal, decimal_is_never_empty,
    decimal_notation_reads_back, either, ends_with, finishes_with, holds, is_blank, is_digit,
    joined_parts_are_found_again, lowercase, lowercased, only_bytes_read_as_bytes, parse_byte, part,
    part_of, same, same_ignoring_ascii_case, strip_prefix, strip_suffix, trim, trim_either, trimmed,
    trimming_undoes_padding, without_both,
};
use vstd::prelude::*;

verus! {

/// One place that may know the theme, in the order they are asked.
#[derive(Debug, Clone, Copy, PartialEq, Eq, Structural)]
pub enum ThemeProbe {
    /// The XDG Desktop Portal's `color-scheme`.
    Portal,
    /// GNOME's `color-scheme` setting.
    GnomeColorScheme,
    /// GNOME's `gtk-theme` setting.
    GnomeGtkTheme,
    /// KDE's colour scheme name.
    Kde,
    /// XFCE's backdrop mode.
    Xfce,
}

/// What a probe answered.
#[derive(Debug, PartialEq, Eq)]
pub enum ProbeAnswer {
    /// It is not there, failed, or had nothing to say.
    Silent,
    /// A number, as the portal answers.
    Number(u32),
    /// A text, as a command answers.
    Text(String),
}

/// Where the detection stands.
#[derive(Debug, Clone, Copy, PartialEq, Eq, Structural)]
pub enum ThemeStep {
    /// Ask this probe next.
    Ask(ThemeProbe),
    /// The theme is known.
    Found(Theme),
}

/// A setting without the white space and quotes that the tool puts around it.
pub open spec fn unquoted(value: Seq<char>) -> Seq<char> {
    trimmed(without_both(trimmed(value), either('\'', '\'')))
}

/// A setting without the white space and quotes that the tool puts around it.
fn unquote(value: &str) -> (inner: &str)
    ensures
        inner@ == unquoted(value@),
{
    trim(trim_either(trim(value), '\'', '\''))
}

/// The theme that the portal's number stands for.
pub open spec fn portal_theme(value: u32) -> Option<Theme> {
    if value == 1 {
        Some(Theme::Dark)
    } else if value == 2 {
        Some(Theme::Light)
    } else {
        None
    }
}

/// The theme that a `color-scheme` setting stands for.
pub open spec fn scheme_theme(value: Seq<char>) -> Option<Theme> {
    let v = unquoted(value);
    if v == "1"@ {
        Some(Theme::Dark)
    } else if v == "2"@ {
        Some(Theme::Light)
    } else if ascii_lowercased(v) == ascii_lowercased("prefer-dark"@) {
        Some(Theme::Dark)
    } else if ascii_lowercased(v) == ascii_lowercased("prefer-light"@) {
        Some(Theme::Light)
    } else {
        None
    }
}

/// The theme of a GTK theme whose name in lower case is `lowered`.
pub open spec fn gtk_name_theme(lowered: Seq<char>) -> Theme {
    if finishes_with(lowered, "-dark"@) {
        Theme::Dark
    } else {
        Theme::Light
    }
}

/// The theme of a colour scheme whose name in lower case is `lowered`.
pub open spec fn scheme_name_theme(lowered: Seq<char>) -> Theme {
    if holds(lowered, "dark"@) {
        Theme::Dark
    } else {
        Theme::Light
    }
}

/// The theme of a GTK theme whose name in lower case is `lowered`.
pub fn theme_of_gtk_name(lowered: &str) -> (theme: Theme)
    ensures
        theme == gtk_name_theme(lowered@),
{
    if ends_with(lowered, "-dark") {
        Theme::Dark
    } else {
        Theme::Light
    }
}

/// The theme of a colour scheme whose name in lower case is `lowered`.
pub fn theme_of_scheme_name(lowered: &str) -> (theme: Theme)
    ensures
        theme == scheme_name_theme(lowered@),
{
    if contains(lowered, "dark") {
        Theme::Dark
    } else {
        Theme::Light
    }
}

/// The theme that a probe's answer settles, if it does.
pub open spec fn answered_theme(probe: ThemeProbe, answer: ProbeAnswer) -> Option<Theme> {
    match (probe, answer) {
        (ThemeProbe::Portal, ProbeAnswer::Number(value)) => portal_theme(value),
        (ThemeProbe::GnomeColorScheme, ProbeAnswer::Text(value)) => scheme_theme(value@),
        (ThemeProbe::GnomeGtkTheme, ProbeAnswer::Text(value)) => Some(
            gtk_name_theme(lowercased(unquoted(value@))),
        ),
        (ThemeProbe::Kde, ProbeAnswer::Text(value)) => if is_blank(value@) {
            None
        } else {
            Some(scheme_name_theme(lowercased(trimmed(value@))))
        },
        (ThemeProbe::Xfce, ProbeAnswer::Text(value)) => Some(
            scheme_name_theme(lowercased(trimmed(value@))),
        ),
        _ => None,
    }
}

/// The step after a probe that settled nothing; after the last one the theme is
/// taken to be light.
pub open spec fn following_step(probe: ThemeProbe) -> ThemeStep {
    match probe {
        ThemeProbe::Portal => ThemeStep::Ask(ThemeProbe::GnomeColorScheme),
        ThemeProbe::GnomeColorScheme => ThemeStep::Ask(ThemeProbe::GnomeGtkTheme),
        ThemeProbe::GnomeGtkTheme => ThemeStep::Ask(ThemeProbe::Kde),
        ThemeProbe::Kde => ThemeStep::Ask(ThemeProbe::Xfce),
        ThemeProbe::Xfce => ThemeStep::Found(Theme::Light),
    }
}

/// The step after a probe's answer.
pub open spec fn step_after_answer(probe: ThemeProbe, answer: ProbeAnswer) -> ThemeStep {
    match answered_theme(probe, answer) {
        Some(theme) => ThemeStep::Found(theme),
        None => following_step(probe),
    }
}

/// How many probes may still be asked, this one included.
pub open spec fn probes_left(step: ThemeStep) -> nat {
    match step {
        ThemeStep::Ask(ThemeProbe::Portal) => 5,
        ThemeStep::Ask(ThemeProbe::GnomeColorScheme) => 4,
        ThemeStep::Ask(ThemeProbe::GnomeGtkTheme) => 3,
        ThemeStep::Ask(ThemeProbe::Kde) => 2,
        ThemeStep::Ask(ThemeProbe::Xfce) => 1,
        ThemeStep::Found(_) => 0,
    }
}

/// Every answer brings the detection closer to a theme, whatever it is, so a
/// theme is found after five probes at most.
pub proof fn theme_detection_always_ends(probe: ThemeProbe, answer: ProbeAnswer)
    ensures
        probes_left(step_after_answer(probe, answer)) < probes_left(ThemeStep::Ask(probe)),
{
}

/// A desktop on which no probe answers is taken to be light.
pub proof fn a_silent_desktop_is_light()
    ensures
        ({
            let step = |probe: ThemeProbe| step_after_answer(probe, ProbeAnswer::Silent);
            &&& step(ThemeProbe::Portal) == ThemeStep::Ask(ThemeProbe::GnomeColorScheme)
            &&& step(ThemeProbe::GnomeColorScheme) == ThemeStep::Ask(ThemeProbe::GnomeGtkTheme)
            &&& step(ThemeProbe::GnomeGtkTheme) == ThemeStep::Ask(ThemeProbe::Kde)
            &&& step(ThemeProbe::Kde) == ThemeStep::Ask(ThemeProbe::Xfce)
            &&& step(ThemeProbe::Xfce) == ThemeStep::Found(Theme::Light)
        }),
{
}

/// The portal settles the theme with the number 1 for dark and 2 for light; any
/// other answer leads on to GNOME.
pub proof fn the_portal_answers_one_for_dark_and_two_for_light(value: u32)
    ensures
        ({
            let step = step_after_answer(ThemeProbe::Portal, ProbeAnswer::Number(value));
            &&& step == ThemeStep::Found(Theme::Dark) <==> value == 1
            &&& step == ThemeStep::Found(Theme::Light) <==> value == 2
            &&& value != 1 && value != 2 ==> step == ThemeStep::Ask(ThemeProbe::GnomeColorScheme)
        }),
{
}

/// GNOME's `color-scheme` settles the theme exactly when it prefers one, by
/// number or in words of any ASCII case; otherwise its GTK theme is asked for.
pub proof fn a_colour_scheme_settles_what_it_prefers(value: String)
    ensures
        ({
            let step = step_after_answer(ThemeProbe::GnomeColorScheme, ProbeAnswer::Text(value));
            let v = unquoted(value@);
            let dark = v == "1"@ || ascii_lowercased(v) == "prefer-dark"@;
            let light = v == "2"@ || ascii_lowercased(v) == "prefer-light"@;
            &&& step == ThemeStep::Found(Theme::Dark) <==> dark
            &&& step == ThemeStep::Found(Theme::Light) <==> light
            &&& !dark && !light ==> step == ThemeStep::Ask(ThemeProbe::GnomeGtkTheme)
        }),
{
    reveal_strlit("1");
    reveal_strlit("2");
    reveal_strlit("prefer-dark");
    reveal_strlit("prefer-light");
    assert(ascii_lowercased("prefer-dark"@) =~= "prefer-dark"@);
    assert(ascii_lowercased("prefer-light"@) =~= "prefer-light"@);
    assert(ascii_lowercased("1"@).len() == 1);
    assert(ascii_lowercased("2"@).len() == 1);
    let v = unquoted(value@);
    assert(ascii_lowercased(v).len() == v.len());
    assert("1"@[0] != "2"@[0]);
}

/// A GTK theme is dark exactly when its name, in lower case, is some name with
/// `-dark` behind it; it always settles the theme.
pub proof fn a_gtk_theme_is_dark_exactly_when_its_name_ends_so(value: String)
    ensures
        ({
            let step = step_after_answer(ThemeProbe::GnomeGtkTheme, ProbeAnswer::Text(value));
            let name = lowercased(unquoted(value@));
            let n = name.len() - "-dark"@.len();
            let dark = n >= 0 && name == name.take(n) + "-dark"@;
            &&& step == ThemeStep::Found(Theme::Dark) <==> dark
            &&& step == ThemeStep::Found(Theme::Light) <==> !dark
        }),
{
    let name = lowercased(unquoted(value@));
    let n = name.len() - "-dark"@.len();
    crate::text::parts_are_found_where_they_stand(name, "-dark"@, Seq::empty());
    if n >= 0 {
        crate::text::parts_are_found_where_they_stand(name.take(n), "-dark"@, Seq::empty());
    }
}

/// A KDE colour scheme that has a name settles the theme: dark when the name, in
/// lower case, mentions `dark`, light otherwise. A blank name leads on to XFCE.
pub proof fn a_kde_scheme_is_dark_exactly_when_its_name_says_so(value: String)
    ensures
        ({
            let step = step_after_answer(ThemeProbe::Kde, ProbeAnswer::Text(value));
            let dark = holds(lowercased(trimmed(value@)), "dark"@);
            if is_blank(value@) {
                step == ThemeStep::Ask(ThemeProbe::Xfce)
            } else {
                &&& step == ThemeStep::Found(Theme::Dark) <==> dark
                &&& step == ThemeStep::Found(Theme::Light) <==> !dark
            }
        }),
{
}

/// What XFCE answers settles the theme: dark when it mentions `dark` in lower
/// case, light otherwise.
pub proof fn an_xfce_mode_is_dark_exactly_when_its_name_says_so(value: String)
    ensures
        ({
            let step = step_after_answer(ThemeProbe::Xfce, ProbeAnswer::Text(value));
            let dark = holds(lowercased(trimmed(value@)), "dark"@);
            &&& step == ThemeStep::Found(Theme::Dark) <==> dark
            &&& step == ThemeStep::Found(Theme::Light) <==> !dark
        }),
{
}

/// No probe ever settles on following the system, and a probe settles nothing
/// without an answer of its own kind.
pub proof fn only_an_answer_settles_the_theme(probe: ThemeProbe, answer: ProbeAnswer)
    ensures
        step_after_answer(probe, answer) != ThemeStep::Found(Theme::Auto),
        probe != ThemeProbe::Xfce && step_after_answer(probe, answer) is Found ==> (if probe
            == ThemeProbe::Portal {
            answer is Number
        } else {
            answer is Text
        }),
        probe == ThemeProbe::Xfce && !(answer is Text) ==> step_after_answer(probe, answer)
            == ThemeStep::Found(Theme::Light),
{
}

/// The quotes and the white space that a tool puts around a setting are dropped.
pub proof fn a_quoted_setting_reads_as_what_it_quotes(
    left: Seq<char>,
    value: Seq<char>,
    right: Seq<char>,
)
    requires
        is_blank(left),
        is_blank(right),
        value.len() > 0,
        value[0] != '\'' && value.last() != '\'',
        !crate::text::is_space(value[0]) && !crate::text::is_space(value.last()),
    ensures
        unquoted(left + (seq!['\''] + value + seq!['\'']) + right) == value,
        unquoted(left + value + right) == value,
{
    let quoted = seq!['\''] + value + seq!['\''];
    crate::text::white_space_is_invisible('\'');
    crate::text::trimming_undoes_padding(left, quoted, right);
    crate::text::trimming_undoes_padding(left, value, right);
    crate::text::unquoting_undoes_quoting(value, '\'', '\'');
}

/// What a command answered: its output without surrounding white space, or
/// nothing when it failed or printed nothing.
pub fn command_answer(success: bool, stdout: &str) -> (answer: Option<String>)
    ensures
        answer is Some <==> success && !is_blank(stdout@),
        answer matches Some(text) ==> text@ == trimmed(stdout@),
{
    proof {
        crate::text::trimmed_is_empty_iff_blank(stdout@);
    }
    if !success {
        return None;
    }
    let text = trim(stdout);
    if text.is_empty() {
        None
    } else {
        Some(text.to_owned())
    }
}

/// Linux appearance manager.
///
/// The theme is asked of the XDG Desktop Portal, then of GNOME, KDE and XFCE, and
/// taken to be light when none of them knows. The accent colour is known to GNOME
/// only.
#[derive(Debug, Default, Clone, Copy)]
pub struct LinuxAppearanceManager;

impl LinuxAppearanceManager {
    /// A new manager.
    pub fn new() -> (manager: Self)
        ensures
            manager == LinuxAppearanceManager,
    {
        LinuxAppearanceManager
    }

    /// Where the detection of the theme begins.
    pub fn first_step() -> (step: ThemeStep)
        ensures
            step == ThemeStep::Ask(ThemeProbe::Portal),
    {
        ThemeStep::Ask(ThemeProbe::Portal)
    }

    /// The step after `probe` answered.
    pub fn next_step(probe: ThemeProbe, answer: &ProbeAnswer) -> (step: ThemeStep)
        ensures
            step == step_after_answer(probe, *answer),
    {
        let settled = match (probe, answer) {
            (ThemeProbe::Portal, ProbeAnswer::Number(value)) => {
                if *value == 1 {
                    Some(Theme::Dark)
                } else if *value == 2 {
                    Some(Theme::Light)
                } else {
                    None
                }
            },
            (ThemeProbe::GnomeColorScheme, ProbeAnswer::Text(value)) => {
                LinuxAppearanceManager::parse_theme_from_gsettings(value.as_str())
            },
            (ThemeProbe::GnomeGtkTheme, ProbeAnswer::Text(value)) => {
                Some(LinuxAppearanceManager::parse_theme_from_gtk_theme(value.as_str()))
            },
            (ThemeProbe::Kde, ProbeAnswer::Text(value)) => {
                if blank(value.as_str()) {
                    None
                } else {
                    Some(theme_of_scheme_name(lowercase(trim(value.as_str())).as_str()))
                }
            },
            (ThemeProbe::Xfce, ProbeAnswer::Text(value)) => {
                Some(theme_of_scheme_name(lowercase(trim(value.as_str())).as_str()))
            },
            _ => None,
        };
        match settled {
            Some(theme) => ThemeStep::Found(theme),
            None => match probe {
                ThemeProbe::Portal => ThemeStep::Ask(ThemeProbe::GnomeColorScheme),
                ThemeProbe::GnomeColorScheme => ThemeStep::Ask(ThemeProbe::GnomeGtkTheme),
                ThemeProbe::GnomeGtkTheme => ThemeStep::Ask(ThemeProbe::Kde),
                ThemeProbe::Kde => ThemeStep::Ask(ThemeProbe::Xfce),
                ThemeProbe::Xfce => ThemeStep::Found(Theme::Light),
            },
        }
    }

    /// The theme that a `color-scheme` setting stands for.
    pub fn parse_theme_from_gsettings(value: &str) -> (theme: Option<Theme>)
        ensures
            theme == scheme_theme(value@),
    {
        let v = unquote(value);
        if same(v, "1") {
            Some(Theme::Dark)
        } else if same(v, "2") {
            Some(Theme::Light)
        } else if same_ignoring_ascii_case(v, "prefer-dark") {
            Some(Theme::Dark)
        } else if same_ignoring_ascii_case(v, "prefer-light") {
            Some(Theme::Light)
        } else {
            None
        }
    }

    /// The theme of a `gtk-theme` setting: dark when its name ends in `-dark`.
    pub fn parse_theme_from_gtk_theme(value: &str) -> (theme: Theme)
        ensures
            theme == gtk_name_theme(lowercased(unquoted(value@))),
    {
        theme_of_gtk_name(lowercase(unquote(value)).as_str())
    }

    /// The accent colour that GNOME's setting describes.
    pub fn detect_gnome_accent_color(setting: &Option<String>) -> (res: Result<
        AccentColor,
        UdaError,
    >)
        ensures
            match *setting {
                Some(value) => is_accent(lowercased(trimmed(unquoted(value@))), res),
                None => res matches Err(error) && error@ == ErrorView::NotSupported(
                    "Accent color is not supported on this desktop"@,
                ),
            },
    {
        match setting {
            Some(value) => parse_rgba_string(unquote(value.as_str())),
            None => Err(
                UdaError::NotSupported("Accent color is not supported on this desktop".to_owned()),
            ),
        }
    }

    /// What the backend can do; the accent colour takes `gsettings`.
    pub fn capabilities(has_gsettings: bool) -> (capabilities: Capability)
        ensures
            capabilities@ == (if has_gsettings {
                Capability::DETECT_THEME | Capability::READ_ACCENT_COLOR
            } else {
                Capability::DETECT_THEME
            }),
    {
        let capabilities = Capability::of(Capability::DETECT_THEME);
        if has_gsettings {
            capabilities.with(Capability::READ_ACCENT_COLOR)
        } else {
            capabilities
        }
    }
}

// ---------------------------------------------------------------------------
// Accent colour
// ---------------------------------------------------------------------------
/// An accent colour as written: three channels, and the alpha as a fraction that
/// is still to be scaled.
#[derive(Debug, PartialEq, Eq)]
pub struct AccentColor {
    pub r: u8,
    pub g: u8,
    pub b: u8,
    /// The alpha as written; absent when the colour has only three parts.
    pub alpha: Option<String>,
}

impl AccentColor {
    /// The colour once its alpha is known.
    pub fn with_alpha(&self, a: u8) -> (color: RgbaColor)
        ensures
            color == (RgbaColor { r: self.r, g: self.g, b: self.b, a }),
    {
        RgbaColor { r: self.r, g: self.g, b: self.b, a }
    }
}

/// What stands between the brackets of a colour in lower case, or the refusal.
pub open spec fn color_body(lowered: Seq<char>) -> Result<Seq<char>, ErrorView> {
    let opened = if begins_with(lowered, "rgba("@) {
        Some(lowered.skip("rgba("@.len() as int))
    } else if begins_with(lowered, "rgb("@) {
        Some(lowered.skip("rgb("@.len() as int))
    } else {
        None
    };
    match opened {
        None => Err(ErrorView::NotSupported("Unsupported accent color format: "@ + lowered)),
        Some(rest) => if finishes_with(rest, ")"@) {
            Ok(rest.take(rest.len() - ")"@.len()))
        } else {
            Err(ErrorView::NotSupported("Unsupported accent color format: "@ + rest))
        },
    }
}

/// Channel `k` of what stands between the brackets.
pub open spec fn channel_of(body: Seq<char>, k: nat) -> Option<u8> {
    match part_of(body, ',', k) {
        Some(text) => byte_of(trimmed(text)),
        None => None,
    }
}

/// Whether `res` is the reading of a colour in lower case.
pub open spec fn is_accent(lowered: Seq<char>, res: Result<AccentColor, UdaError>) -> bool {
    match color_body(lowered) {
        Err(refusal) => res matches Err(error) && error@ == refusal,
        Ok(body) => if channel_of(body, 0) is Some && channel_of(body, 1) is Some && channel_of(
            body,
            2,
        ) is Some {
            res matches Ok(color) && {
                &&& channel_of(body, 0) == Some(color.r)
                &&& channel_of(body, 1) == Some(color.g)
                &&& channel_of(body, 2) == Some(color.b)
                &&& color.alpha is Some <==> part_of(body, ',', 3) is Some
                &&& color.alpha matches Some(text) ==> text@ == trimmed(
                    part_of(body, ',', 3)->0,
                )
            }
        } else {
            res matches Err(error) && error@ == ErrorView::NotSupported(
                "Invalid accent color: "@ + body,
            )
        },
    }
}

/// Channel `k` of what stands between the brackets.
fn channel(body: &str, k: usize) -> (value: Option<u8>)
    ensures
        value == channel_of(body@, k as nat),
{
    match part(body, ',', k) {
        Some(text) => parse_byte(trim(text)),
        None => None,
    }
}

/// Read a colour that is already in lower case: `rgb(..)` or `rgba(..)` with
/// three byte channels and an optional alpha.
pub fn parse_lowered_rgba(lowered: &str) -> (res: Result<AccentColor, UdaError>)
    ensures
        is_accent(lowered@, res),
{
    let opened = match strip_prefix(lowered, "rgba(") {
        Some(rest) => Some(rest),
        None => strip_prefix(lowered, "rgb("),
    };
    let rest = match opened {
        Some(rest) => rest,
        None => {
            return Err(
                UdaError::NotSupported(
                    "Unsupported accent color format: ".to_owned().concat(lowered),
                ),
            );
        },
    };
    let body = match strip_suffix(rest, ")") {
        Some(body) => body,
        None => {
            return Err(
                UdaError::NotSupported("Unsupported accent color format: ".to_owned().concat(rest)),
            );
        },
    };
    match (channel(body, 0), channel(body, 1), channel(body, 2)) {
        (Some(r), Some(g), Some(b)) => {
            let alpha = match part(body, ',', 3) {
                Some(text) => Some(trim(text).to_owned()),
                None => None,
            };
            Ok(AccentColor { r, g, b, alpha })
        },
        _ => Err(UdaError::NotSupported("Invalid accent color: ".to_owned().concat(body))),
    }
}

/// Read a colour in any case, with or without surrounding white space.
pub fn parse_rgba_string(value: &str) -> (res: Result<AccentColor, UdaError>)
    ensures
        is_accent(lowercased(trimmed(value@)), res),
{
    parse_lowered_rgba(lowercase(trim(value)).as_str())
}

/// A colour in lower case with the parts `body` between its brackets.
pub open spec fn written_colour(with_alpha: bool, body: Seq<char>) -> Seq<char> {
    (if with_alpha {
        "rgba("@
    } else {
        "rgb("@
    }) + body + ")"@
}

/// What stands between the brackets of a colour is what is read, whichever of the
/// two spellings is used.
pub proof fn both_spellings_of_a_colour_are_read(with_alpha: bool, body: Seq<char>)
    ensures
        color_body(written_colour(with_alpha, body)) == Ok::<Seq<char>, ErrorView>(body),
{
    reveal_strlit("rgba(");
    reveal_strlit("rgb(");
    reveal_strlit(")");
    let written = written_colour(with_alpha, body);
    let head = if with_alpha {
        "rgba("@
    } else {
        "rgb("@
    };
    let rest = body + ")"@;
    assert(written =~= head + rest);
    crate::text::parts_are_found_where_they_stand(body, head, rest);
    crate::text::parts_are_found_where_they_stand(body, ")"@, Seq::empty());
    assert(written.skip(head.len() as int) =~= rest);
    assert(rest.take(rest.len() - 1) =~= body);
    if !with_alpha {
        assert(written[3] == '(');
        if begins_with(written, "rgba("@) {
            assert(written.subrange(0, 5)[3] == 'a');
        }
    }
}

/// A colour that is written out in decimal reads back channel by channel; an
/// alpha that stands behind the channels is kept as written, and without one
/// there is none.
pub proof fn a_written_colour_reads_back(r: u8, g: u8, b: u8, alpha: Seq<char>)
    requires
        forall|i: int| 0 <= i < alpha.len() ==> #[trigger] alpha[i] != ',',
    ensures
        ({
            let three = decimal(r as nat) + seq![','] + (decimal(g as nat) + seq![','] + decimal(
                b as nat,
            ));
            &&& channel_of(three, 0) == Some(r)
            &&& channel_of(three, 1) == Some(g)
            &&& channel_of(three, 2) == Some(b)
            &&& part_of(three, ',', 3) is None
        }),
        ({
            let four = decimal(r as nat) + seq![','] + (decimal(g as nat) + seq![','] + (decimal(
                b as nat,
            ) + seq![','] + alpha));
            &&& channel_of(four, 0) == Some(r)
            &&& channel_of(four, 1) == Some(g)
            &&& channel_of(four, 2) == Some(b)
            &&& part_of(four, ',', 3) == Some(alpha)
        }),
{
    let (x, y, z) = (decimal(r as nat), decimal(g as nat), decimal(b as nat));
    lemma_channel_text(r);
    lemma_channel_text(g);
    lemma_channel_text(b);
    let end = z + seq![','] + alpha;
    joined_parts_are_found_again(z, alpha, ',', 0);
    joined_parts_are_found_again(alpha, alpha, ',', 0);
    joined_parts_are_found_again(y, z, ',', 0);
    joined_parts_are_found_again(y, z, ',', 1);
    joined_parts_are_found_again(y, end, ',', 0);
    joined_parts_are_found_again(y, end, ',', 1);
    let inner = y + seq![','] + z;
    let longer = y + seq![','] + end;
    joined_parts_are_found_again(x, inner, ',', 0);
    joined_parts_are_found_again(x, inner, ',', 1);
    joined_parts_are_found_again(x, inner, ',', 2);
    joined_parts_are_found_again(x, longer, ',', 0);
    joined_parts_are_found_again(x, longer, ',', 1);
    joined_parts_are_found_again(x, longer, ',', 2);
}

proof fn lemma_channel_text(n: u8)
    ensures
        forall|i: int| 0 <= i < decimal(n as nat).len() ==> #[trigger] decimal(n as nat)[i] != ',',
        trimmed(decimal(n as nat)) == decimal(n as nat),
        byte_of(decimal(n as nat)) == Some(n),
{
    let s = decimal(n as nat);
    decimal_notation_reads_back(n as nat);
    decimal_is_never_empty(n as nat);
    only_bytes_read_as_bytes(n as nat, s, 0);
    assert(is_digit(s[0]) && is_digit(s[s.len() - 1]));
    crate::text::white_space_is_invisible(s[0]);
    crate::text::white_space_is_invisible(s.last());
    trimming_undoes_padding(Seq::empty(), s, Seq::empty());
    assert forall|i: int| 0 <= i < s.len() implies #[trigger] s[i] != ',' by {
        assert(is_digit(s[i]));
    }
}

/// What is read of a colour is a colour only if three of its parts are bytes, and
/// then those three in order; and what is read is settled by the text.
pub proof fn a_colour_takes_three_bytes(
    body: Seq<char>,
    with_alpha: bool,
    res: Result<AccentColor, UdaError>,
)
    requires
        is_accent(written_colour(with_alpha, body), res),
    ensures
        res is Ok <==> channel_of(body, 0) is Some && channel_of(body, 1) is Some && channel_of(
            body,
            2,
        ) is Some,
        res matches Ok(color) ==> channel_of(body, 0) == Some(color.r) && channel_of(body, 1)
            == Some(color.g) && channel_of(body, 2) == Some(color.b),
        res matches Ok(color) ==> match part_of(body, ',', 3) {
            Some(text) => color.alpha matches Some(alpha) && alpha@ == trimmed(text),
            None => color.alpha is None,
        },
        res matches Err(error) ==> error@ == ErrorView::NotSupported(
            "Invalid accent color: "@ + body,
        ),
{
    both_spellings_of_a_colour_are_read(with_alpha, body);
}

/// A text that is neither `rgb(` nor `rgba(` with a closing bracket is refused,
/// and the refusal repeats the text or what follows the bracket.
pub proof fn anything_else_is_no_colour(lowered: Seq<char>, res: Result<AccentColor, UdaError>)
    requires
        is_accent(lowered, res),
        !begins_with(lowered, "rgb("@) && !begins_with(lowered, "rgba("@) || !finishes_with(
            lowered,
            ")"@,
        ),
    ensures
        res matches Err(error) && error@ is NotSupported,
        !begins_with(lowered, "rgb("@) && !begins_with(lowered, "rgba("@) ==> (res matches Err(
            error,
        ) && error@ == ErrorView::NotSupported("Unsupported accent color format: "@ + lowered)),
{
    reveal_strlit(")");
    reveal_strlit("rgb(");
    reveal_strlit("rgba(");
    if begins_with(lowered, "rgba("@) {
        let rest = lowered.skip(5);
        if finishes_with(rest, ")"@) {
            assert(rest.subrange(rest.len() - 1, rest.len() as int) =~= lowered.subrange(
                lowered.len() - 1,
                lowered.len() as int,
            ));
        }
    } else if begins_with(lowered, "rgb("@) {
        let rest = lowered.skip(4);
        if finishes_with(rest, ")"@) {
            assert(rest.subrange(rest.len() - 1, rest.len() as int) =~= lowered.subrange(
                lowered.len() - 1,
                lowered.len() as int,
            ));
        }
    }
}

/// What a command printed is its answer, without the white space around it; a
/// command that failed or printed nothing has none.
pub proof fn a_command_answers_what_it_printed(
    success: bool,
    stdout: &str,
    answer: Option<String>,
    left: Seq<char>,
    text: Seq<char>,
    right: Seq<char>,
)
    requires
        call_ensures(command_answer, (success, stdout), answer),
        is_blank(left),
        is_blank(right),
        text.len() > 0,
        !crate::text::is_space(text[0]) && !crate::text::is_space(text.last()),
        stdout@ == left + text + right,
    ensures
        success ==> (answer matches Some(said) && said@ == text),
        !success ==> answer is None,
{
    trimming_undoes_padding(left, text, right);
    assert(stdout@[left.len() as int] == text[0]);
}

/// The theme can always be detected, and the accent colour read exactly where
/// `gsettings` is there; without its setting there is no accent colour. Detection
/// begins at the portal.
pub proof fn the_accent_colour_takes_gsettings(
    there: bool,
    capabilities: Capability,
    none: Option<String>,
    res: Result<AccentColor, UdaError>,
    step: ThemeStep,
    color: AccentColor,
    a: u8,
    scaled: RgbaColor,
)
    requires
        call_ensures(LinuxAppearanceManager::capabilities, (there,), capabilities),
        none is None,
        call_ensures(LinuxAppearanceManager::detect_gnome_accent_color, (&none,), res),
        call_ensures(LinuxAppearanceManager::first_step, (), step),
        call_ensures(AccentColor::with_alpha, (&color, a), scaled),
    ensures
        capabilities@ & 0x0001 != 0,
        capabilities@ & 0x0008 != 0 <==> there,
        res matches Err(error) && error@ is NotSupported,
        step == ThemeStep::Ask(ThemeProbe::Portal),
        scaled.r == color.r && scaled.g == color.g && scaled.b == color.b && scaled.a == a,
{
    assert(1u32 & 1u32 != 0 && 1u32 & 8u32 == 0 && (1u32 | 8u32) & 1u32 != 0 && (1u32 | 8u32) & 8u32
        != 0) by (bit_vector);
}

/// What a probe answered settles the theme or leads on: the portal by 1 or 2, KDE
/// and XFCE by whether the name says `dark`, each in its turn.
pub proof fn an_answer_leads_to_its_step(probe: ThemeProbe, answer: ProbeAnswer, step: ThemeStep)
    requires
        call_ensures(LinuxAppearanceManager::next_step, (probe, &answer), step),
    ensures
        answer is Silent ==> step == (match probe {
            ThemeProbe::Portal => ThemeStep::Ask(ThemeProbe::GnomeColorScheme),
            ThemeProbe::GnomeColorScheme => ThemeStep::Ask(ThemeProbe::GnomeGtkTheme),
            ThemeProbe::GnomeGtkTheme => ThemeStep::Ask(ThemeProbe::Kde),
            ThemeProbe::Kde => ThemeStep::Ask(ThemeProbe::Xfce),
            ThemeProbe::Xfce => ThemeStep::Found(Theme::Light),
        }),
        probe == ThemeProbe::Portal ==> (answer matches ProbeAnswer::Number(value) ==> (step
            == ThemeStep::Found(Theme::Dark) <==> value == 1) && (step == ThemeStep::Found(
            Theme::Light,
        ) <==> value == 2)),
        probe == ThemeProbe::Kde || probe == ThemeProbe::Xfce ==> (answer matches ProbeAnswer::Text(
            value,
        ) ==> !is_blank(value@) ==> step == ThemeStep::Found(
            if holds(lowercased(trimmed(value@)), "dark"@) {
                Theme::Dark
            } else {
                Theme::Light
            },
        )),
        step == step_after_answer(probe, answer),
{
}

/// A colour that was written in lower case, with three bytes and perhaps an alpha
/// between its brackets, is read as those.
pub proof fn a_written_colour_is_read(
    value: &str,
    r: u8,
    g: u8,
    b: u8,
    alpha: Seq<char>,
    res: Result<AccentColor, UdaError>,
)
    requires
        call_ensures(parse_lowered_rgba, (value,), res),
        forall|i: int| 0 <= i < alpha.len() ==> #[trigger] alpha[i] != ',',
    ensures
        ({
            let three = decimal(r as nat) + seq![','] + (decimal(g as nat) + seq![','] + decimal(
                b as nat,
            ));
            value@ == written_colour(false, three) ==> (res matches Ok(color) && color.r == r
                && color.g == g && color.b == b && color.alpha is None)
        }),
        ({
            let four = decimal(r as nat) + seq![','] + (decimal(g as nat) + seq![','] + (decimal(
                b as nat,
            ) + seq![','] + alpha));
            value@ == written_colour(true, four) ==> (res matches Ok(color) && color.r == r
                && color.g == g && color.b == b && color.alpha is Some && color.alpha->0@ == trimmed(
                alpha,
            ))
        }),
{
    let three = decimal(r as nat) + seq![','] + (decimal(g as nat) + seq![','] + decimal(b as nat));
    let four = decimal(r as nat) + seq![','] + (decimal(g as nat) + seq![','] + (decimal(b as nat)
        + seq![','] + alpha));
    a_written_colour_reads_back(r, g, b, alpha);
    if value@ == written_colour(false, three) {
        a_colour_takes_three_bytes(three, false, res);
    }
    if value@ == written_colour(true, four) {
        a_colour_takes_three_bytes(four, true, res);
    }
}

/// A colour is read in any case and with white space around it, and GNOME's
/// setting with its quotes around it: as what it is in lower case.
pub proof fn a_colour_is_read_in_any_case(
    value: &str,
    read: Result<AccentColor, UdaError>,
    setting: Option<String>,
    accent: Result<AccentColor, UdaError>,
    scheme: Option<Theme>,
    gtk: Theme,
)
    requires
        call_ensures(parse_rgba_string, (value,), read),
        setting is Some,
        call_ensures(LinuxAppearanceManager::detect_gnome_accent_color, (&setting,), accent),
        call_ensures(LinuxAppearanceManager::parse_theme_from_gsettings, (value,), scheme),
        call_ensures(LinuxAppearanceManager::parse_theme_from_gtk_theme, (value,), gtk),
    ensures
        is_accent(lowercased(trimmed(value@)), read),
        is_accent(lowercased(trimmed(unquoted(setting->0@))), accent),
        scheme == Some(Theme::Dark) <==> unquoted(value@) == "1"@ || ascii_lowercased(
            unquoted(value@),
        ) == "prefer-dark"@,
        scheme == Some(Theme::Light) <==> unquoted(value@) == "2"@ || ascii_lowercased(
            unquoted(value@),
        ) == "prefer-light"@,
        scheme != Some(Theme::Auto),
        gtk == Theme::Dark <==> finishes_with(lowercased(unquoted(value@)), "-dark"@),
        gtk != Theme::Auto,
{
    lemma_scheme_words(unquoted(value@));
}

proof fn lemma_scheme_words(v: Seq<char>)
    ensures
        ascii_lowercased("prefer-dark"@) == "prefer-dark"@,
        ascii_lowercased("prefer-light"@) == "prefer-light"@,
        v == "1"@ || v == "2"@ ==> ascii_lowercased(v) != "prefer-dark"@ && ascii_lowercased(v)
            != "prefer-light"@,
        "1"@ != "2"@,
        "prefer-dark"@ != "prefer-light"@,
{
    reveal_strlit("1");
    reveal_strlit("2");
    reveal_strlit("prefer-dark");
    reveal_strlit("prefer-light");
    assert(ascii_lowercased("prefer-dark"@) =~= "prefer-dark"@);
    assert(ascii_lowercased("prefer-light"@) =~= "prefer-light"@);
    assert(ascii_lowercased(v).len() == v.len());
    assert("1"@[0] != "2"@[0]);
    assert("prefer-dark"@.len() != "prefer-light"@.len());
}

} // verus!
