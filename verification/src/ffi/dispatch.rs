//! What an exported call asks of a backend, and what it makes of the answer.

use crate::error::{ErrorView, UdaError};
use crate::ffi::boundary::{optional_text, LastMessage};
use crate::ffi::error::{Failure, FailureView};
use crate::text::{
    begins_with, either, is_blank, lemma_padding_is_dropped, only_the_ends_are_dropped,
    parts_are_found_where_they_stand, strip_prefix, trim, trim_either, trimmed,
    trimmed_is_empty_iff_blank, trimming_undoes_padding, without_both,
};
use crate::wallpaper::{FillMode, WallpaperOptions};
use vstd::prelude::*;

verus! {

/// Opaque wake-lock handle handed to a caller. It is never 0, which stands for
/// "no lock".
#[derive(Debug, Clone, Copy, PartialEq, Eq, Structural)]
pub struct WakeLockHandle {
    raw: u64,
}

impl WakeLockHandle {
    /// The numeric value.
    pub closed spec fn view(self) -> u64 {
        self.raw
    }

    /// Wrap a raw handle coming from a caller; 0 is none.
    pub fn from_raw(raw: u64) -> (handle: Option<Self>)
        ensures
            handle is Some <==> raw != 0,
            handle matches Some(h) ==> h@ == raw,
    {
        if raw == 0 {
            None
        } else {
            Some(WakeLockHandle { raw })
        }
    }

    /// The numeric value to hand back to a caller.
    pub fn raw(self) -> (raw: u64)
        ensures
            raw == self@,
    {
        self.raw
    }

    /// Take a handle argument.
    pub fn argument(raw: u64) -> (res: Result<Self, Failure>)
        ensures
            res is Ok <==> raw != 0,
            res matches Ok(handle) ==> handle@ == raw,
            res matches Err(failure) ==> failure@ == FailureView::InvalidArgument(
                "`handle` must not be 0"@,
            ),
    {
        match WakeLockHandle::from_raw(raw) {
            Some(handle) => Ok(handle),
            None => Err(Failure::InvalidArgument("`handle` must not be 0".to_owned())),
        }
    }
}

/// What is answered for an empty wallpaper path.
pub open spec fn empty_path_failure() -> FailureView {
    FailureView::Uda(ErrorView::NotSupported("wallpaper path must not be empty"@))
}

/// The options under which a wallpaper is set: all monitors, and no pairing with
/// an appearance. An empty path is refused before a backend is asked.
pub fn set_wallpaper(path: &str, fill_mode: FillMode) -> (res: Result<WallpaperOptions, Failure>)
    ensures
        res is Ok <==> path@.len() > 0,
        res matches Ok(options) ==> options == (WallpaperOptions {
            fill_mode,
            monitor_index: None,
            dark_mode: false,
        }),
        res matches Err(failure) ==> failure@ == empty_path_failure(),
{
    if path.is_empty() {
        return Err(
            Failure::Uda(UdaError::NotSupported("wallpaper path must not be empty".to_owned())),
        );
    }
    Ok(WallpaperOptions { fill_mode, monitor_index: None, dark_mode: false })
}

/// A value without a leading file scheme.
pub open spec fn without_file_scheme(value: Seq<char>) -> Seq<char> {
    if begins_with(value, "file://"@) {
        value.skip("file://"@.len() as int)
    } else {
        value
    }
}

/// The path a settings tool printed: surrounding white space, then quotes, then
/// a file scheme are dropped.
pub open spec fn printed_path(output: Seq<char>) -> Option<Seq<char>> {
    let unquoted = without_both(trimmed(output), either('\'', '"'));
    if unquoted.len() == 0 {
        None
    } else {
        Some(without_file_scheme(unquoted))
    }
}

/// Drop a leading `file://` scheme so that callers receive a plain path.
pub fn strip_file_scheme(value: &str) -> (path: String)
    ensures
        path@ == without_file_scheme(value@),
{
    match strip_prefix(value, "file://") {
        Some(rest) => rest.to_owned(),
        None => value.to_owned(),
    }
}

/// The wallpaper path a settings tool printed, if it printed one.
pub fn cli_wallpaper_path(output: &str) -> (path: Option<String>)
    ensures
        optional_text(path) == printed_path(output@),
{
    let unquoted = trim_either(trim(output), '\'', '"');
    if unquoted.is_empty() {
        None
    } else {
        Some(strip_file_scheme(unquoted))
    }
}

/// The path to report: the backend's, or else what the settings tool printed.
pub open spec fn reported_path(backend: Option<Seq<char>>, cli_output: Option<Seq<char>>) -> Option<
    Seq<char>,
> {
    match backend {
        Some(reported) => Some(reported),
        None => match cli_output {
            Some(output) => printed_path(output),
            None => None,
        },
    }
}

/// The path to report: the backend's, or else what the settings tool printed. No
/// answer from either is no failure.
pub fn get_wallpaper_path(backend: Option<String>, cli_output: &Option<String>) -> (path: Option<
    String,
>)
    ensures
        optional_text(path) == reported_path(optional_text(backend), optional_text(*cli_output)),
{
    match backend {
        Some(reported) => Some(reported),
        None => match cli_output {
            Some(output) => cli_wallpaper_path(output.as_str()),
            None => None,
        },
    }
}

/// Why no path is reported: the backend's error when neither it nor the settings
/// tool can answer, and nothing when one of them answered that no wallpaper is
/// configured.
pub open spec fn silence_reason(
    backend: Result<Option<String>, UdaError>,
    cli_output: Option<Seq<char>>,
) -> Option<Seq<char>> {
    match backend {
        Ok(_) => None,
        Err(error) => if cli_output is Some {
            None
        } else {
            Some(error@.shown())
        },
    }
}

/// The path a backend reported.
pub open spec fn backend_path(backend: Result<Option<String>, UdaError>) -> Option<Seq<char>> {
    match backend {
        Ok(path) => optional_text(path),
        Err(_) => None,
    }
}

/// Leave what tells the two reasons for "no path" apart as the last message: the
/// error where nothing can answer, no message where no wallpaper is configured.
/// A path that is reported leaves the slot alone.
pub fn report_wallpaper(
    slot: &mut LastMessage,
    backend: &Result<Option<String>, UdaError>,
    cli_output: &Option<String>,
)
    ensures
        final(slot)@ == (if reported_path(
            backend_path(*backend),
            optional_text(*cli_output),
        ) is Some {
            old(slot)@
        } else {
            silence_reason(*backend, optional_text(*cli_output))
        }),
{
    if let Ok(Some(_)) = backend {
        return;
    }
    if let Some(output) = cli_output {
        if cli_wallpaper_path(output.as_str()).is_none() {
            slot.leave(None);
        }
        return;
    }
    match backend {
        Ok(_) => slot.leave(None),
        Err(error) => slot.leave(Some(error.message())),
    }
}

/// A file scheme is dropped once, and a value without one is left alone.
pub proof fn a_file_scheme_is_dropped_once(path: Seq<char>)
    ensures
        without_file_scheme("file://"@ + path) == path,
        !begins_with(path, "file://"@) ==> without_file_scheme(path) == path,
{
    parts_are_found_where_they_stand(path, "file://"@, path);
    assert(("file://"@ + path).skip("file://"@.len() as int) =~= path);
}

/// A path that a settings tool printed in quotes, with or without a file scheme
/// and with white space around it, is read as the path; nothing but white space
/// and quotes is no path.
pub proof fn a_printed_path_reads_back(
    left: Seq<char>,
    path: Seq<char>,
    right: Seq<char>,
    quote: char,
)
    requires
        is_blank(left),
        is_blank(right),
        quote == '\'' || quote == '"',
        path.len() > 0,
        path[0] != '\'' && path[0] != '"',
        path.last() != '\'' && path.last() != '"',
        !begins_with(path, "file://"@),
    ensures
        printed_path(left + (seq![quote] + path + seq![quote]) + right) == Some(path),
        printed_path(left + (seq![quote] + ("file://"@ + path) + seq![quote]) + right) == Some(path),
        printed_path(left) is None,
{
    let marks = either('\'', '"');
    let plain = seq![quote] + path + seq![quote];
    lemma_printed(left, path, right, quote);
    let uri = "file://"@ + path;
    reveal_strlit("file://");
    assert(uri[0] == 'f');
    assert(uri.last() == path.last());
    lemma_printed(left, uri, right, quote);
    a_file_scheme_is_dropped_once(path);
    trimmed_is_empty_iff_blank(left);
    assert(trimmed(left) =~= Seq::empty());
    let kept = only_the_ends_are_dropped(trimmed(left), marks);
}

proof fn lemma_printed(left: Seq<char>, said: Seq<char>, right: Seq<char>, quote: char)
    requires
        is_blank(left),
        is_blank(right),
        quote == '\'' || quote == '"',
        said.len() > 0,
        said[0] != '\'' && said[0] != '"',
        said.last() != '\'' && said.last() != '"',
    ensures
        printed_path(left + (seq![quote] + said + seq![quote]) + right) == Some(
            without_file_scheme(said),
        ),
{
    let marks = either('\'', '"');
    let quoted = seq![quote] + said + seq![quote];
    assert(quoted.last() == quote);
    trimming_undoes_padding(left, quoted, right);
    lemma_padding_is_dropped(seq![quote], said, seq![quote], marks);
}

/// What the backend reports is reported; only where it reports nothing is the
/// settings tool read.
pub proof fn the_backend_is_heard_first(backend: Seq<char>, output: Seq<char>)
    ensures
        reported_path(Some(backend), Some(output)) == Some(backend),
        reported_path(Some(backend), None) == Some(backend),
        reported_path(None, Some(output)) == printed_path(output),
        reported_path(None, None) is None,
{
}

/// The backend's error is told exactly when the settings tool said nothing
/// either.
pub proof fn only_silence_is_explained(
    backend: Result<Option<String>, UdaError>,
    output: Option<Seq<char>>,
)
    ensures
        silence_reason(backend, output) is Some <==> backend is Err && output is None,
        silence_reason(backend, output) matches Some(reason) ==> reason == backend->Err_0@.shown(),
        backend_path(backend) is Some <==> backend is Ok && backend->Ok_0 is Some,
        backend_path(backend) matches Some(path) ==> path == backend->Ok_0->0@,
{
}

/// A wallpaper is set on every monitor, for both appearances and in the mode that
/// was asked for; an empty path is not supported.
pub proof fn a_wallpaper_is_set_everywhere(
    path: &str,
    fill_mode: FillMode,
    res: Result<WallpaperOptions, Failure>,
)
    requires
        call_ensures(set_wallpaper, (path, fill_mode), res),
    ensures
        path@.len() == 0 ==> (res matches Err(failure) && failure@.code() == -2),
        path@.len() > 0 ==> (res matches Ok(options) && options.fill_mode == fill_mode
            && options.monitor_index is None && !options.dark_mode),
{
}

/// A handle argument is any number but 0.
pub proof fn a_handle_is_not_zero(raw: u64, res: Result<WakeLockHandle, Failure>)
    requires
        call_ensures(WakeLockHandle::argument, (raw,), res),
    ensures
        raw != 0 ==> (res matches Ok(handle) && handle@ == raw),
        raw == 0 ==> (res matches Err(failure) && failure@.code() == -1),
{
}

/// Where no path is reported, the last message is the backend's error if nothing
/// could answer, and none if no wallpaper is configured; a reported path leaves
/// the message alone.
pub proof fn a_missing_wallpaper_is_explained(
    slot: &mut LastMessage,
    backend: Result<Option<String>, UdaError>,
    output: Option<String>,
)
    requires
        call_ensures(report_wallpaper, (slot, &backend, &output), ()),
    ensures
        backend is Ok && backend->Ok_0 is Some ==> final(slot)@ == old(slot)@,
        backend is Err && output is None ==> final(slot)@ == Some(backend->Err_0@.shown()),
        backend is Ok && backend->Ok_0 is None && output is None ==> final(slot)@ is None,
        !(backend is Ok && backend->Ok_0 is Some) && output is Some && printed_path(output->0@)
            is None ==> final(slot)@ is None,
        !(backend is Ok && backend->Ok_0 is Some) && output is Some && printed_path(output->0@)
            is Some ==> final(slot)@ == old(slot)@,
{
}

} // verus!
