//! Setting the wallpaper of a Linux desktop: which backend is tried, with which
//! arguments, and what a failure leads to.

use crate::capability::Capability;
use crate::error::{ErrorView, UdaError};
use crate::platform_linux::detection::DesktopEnvironment;
use crate::text::{
    begins_with, chars_of, decimal, finishes_with, holds, show, show_signed, signed_decimal,
    starts_with, texts, trim, trimmed,
};
use crate::wallpaper::{FillMode, WallpaperOptions};
use vstd::prelude::*;

verus! {

// ---------------------------------------------------------------------------
// File URIs
// ---------------------------------------------------------------------------
/// A character as it stands in a file URI.
pub open spec fn escape(c: char) -> Seq<char> {
    if c == '%' {
        "%25"@
    } else if c == ' ' {
        "%20"@
    } else if c == '#' {
        "%23"@
    } else if c == '?' {
        "%3F"@
    } else {
        seq![c]
    }
}

/// A path as it stands in a file URI.
pub open spec fn escaped(path: Seq<char>) -> Seq<char>
    decreases path.len(),
{
    if path.len() == 0 {
        Seq::empty()
    } else {
        escaped(path.drop_last()) + escape(path.last())
    }
}

/// The file URI of a path. A path that already is one is kept.
pub open spec fn uri_of(path: Seq<char>) -> Seq<char> {
    let p = trimmed(path);
    if begins_with(p, "file://"@) {
        p
    } else {
        "file://"@ + escaped(p)
    }
}

proof fn lemma_escapes()
    ensures
        "%25"@ == seq!['%', '2', '5'],
        "%20"@ == seq!['%', '2', '0'],
        "%23"@ == seq!['%', '2', '3'],
        "%3F"@ == seq!['%', '3', 'F'],
{
    reveal_strlit("%25");
    reveal_strlit("%20");
    reveal_strlit("%23");
    reveal_strlit("%3F");
    assert("%25"@ =~= seq!['%', '2', '5']);
    assert("%20"@ =~= seq!['%', '2', '0']);
    assert("%23"@ =~= seq!['%', '2', '3']);
    assert("%3F"@ =~= seq!['%', '3', 'F']);
}

/// A URI made from a path holds no blank, no fragment mark and no query mark.
pub proof fn escaped_paths_are_uri_safe(path: Seq<char>)
    ensures
        forall|i: int|
            0 <= i < escaped(path).len() ==> {
                let c = #[trigger] escaped(path)[i];
                c != ' ' && c != '#' && c != '?'
            },
    decreases path.len(),
{
    lemma_escapes();
    if path.len() > 0 {
        let head = escaped(path.drop_last());
        escaped_paths_are_uri_safe(path.drop_last());
        assert forall|i: int| 0 <= i < escaped(path).len() implies ({
            let c = #[trigger] escaped(path)[i];
            c != ' ' && c != '#' && c != '?'
        }) by {
            if i < head.len() {
                assert(escaped(path)[i] == head[i]);
            } else {
                assert(escaped(path)[i] == escape(path.last())[i - head.len()]);
            }
        }
    }
}

/// Two paths with the same escaped form are the same path.
pub proof fn escaping_keeps_paths_apart(a: Seq<char>, b: Seq<char>)
    requires
        escaped(a) == escaped(b),
    ensures
        a == b,
    decreases a.len(),
{
    lemma_escapes();
    if a.len() == 0 || b.len() == 0 {
        if a.len() > 0 {
            assert(escaped(a).len() > 0);
        }
        if b.len() > 0 {
            assert(escaped(b).len() > 0);
        }
        assert(a =~= b);
    } else {
        lemma_first_escape(a);
        lemma_first_escape(b);
        let x = escaped(a);
        let fa = escape(a[0]);
        let fb = escape(b[0]);
        let ra = escaped(a.drop_first());
        let rb = escaped(b.drop_first());
        assert(x == fa + ra && x == fb + rb);
        assert(x[0] == fa[0] && x[0] == fb[0]);
        if x[0] == '%' {
            assert(fa.len() == 3 && fb.len() == 3);
            assert(fa[1] == x[1] && fb[1] == x[1]);
            assert(fa[2] == x[2] && fb[2] == x[2]);
        }
        assert(a[0] == b[0]);
        assert(ra =~= x.skip(fa.len() as int));
        assert(rb =~= x.skip(fb.len() as int));
        escaping_keeps_paths_apart(a.drop_first(), b.drop_first());
        assert(a =~= seq![a[0]] + a.drop_first());
        assert(b =~= seq![b[0]] + b.drop_first());
    }
}

proof fn lemma_first_escape(path: Seq<char>)
    requires
        path.len() > 0,
    ensures
        escaped(path) == escape(path[0]) + escaped(path.drop_first()),
    decreases path.len(),
{
    if path.len() == 1 {
        assert(path.drop_last() =~= Seq::empty());
        assert(path.drop_first() =~= Seq::empty());
        assert(escaped(path.drop_last()) =~= Seq::empty());
        assert(escaped(path.drop_first()) =~= Seq::empty());
        assert(path.last() == path[0]);
        assert(escaped(path) =~= escape(path[0]));
        assert(escape(path[0]) + escaped(path.drop_first()) =~= escape(path[0]));
    } else {
        let head = path.drop_last();
        lemma_first_escape(head);
        assert(head.drop_first() =~= path.drop_first().drop_last());
        assert(path.drop_first().last() == path.last());
        assert(escaped(path) =~= escape(path[0]) + escaped(path.drop_first()));
    }
}

// ---------------------------------------------------------------------------
// Arguments
// ---------------------------------------------------------------------------
/// The number KDE gives a fill mode.
pub open spec fn kde_mode(fill_mode: FillMode) -> u8 {
    match fill_mode {
        FillMode::Crop => 2,
        FillMode::Fill => 0,
        FillMode::Fit => 1,
        FillMode::Stretch => 3,
    }
}

/// The option `feh` gives a fill mode.
pub open spec fn feh_mode(fill_mode: FillMode) -> Seq<char> {
    match fill_mode {
        FillMode::Crop => "--bg-center"@,
        FillMode::Fill => "--bg-fill"@,
        FillMode::Fit => "--bg-scale"@,
        FillMode::Stretch => "--bg-fill"@,
    }
}

/// The part of the KDE script before the image.
pub const KDE_SCRIPT_HEAD: &'static str = "\n            let allDesktops = desktops();\n            for (let i = 0; i < allDesktops.length; i++) {\n                let d = allDesktops[i];\n                d.wallpaperPlugin = \"org.kde.image\";\n                d.currentConfigGroup = Array(\"Wallpaper\", \"org.kde.image\", \"General\");\n                d.writeConfig(\"Image\", \"";

/// The part of the KDE script between the image and the fill mode.
pub const KDE_SCRIPT_MIDDLE: &'static str = "\");\n                d.writeConfig(\"FillMode\", ";

/// The part of the KDE script after the fill mode.
pub const KDE_SCRIPT_TAIL: &'static str = "); // 0=scaled, 1=wallpaper, 2=crop, 3=stretch\n            }\n            ";

/// The script that makes Plasma show a wallpaper on every desktop.
pub open spec fn plasma_script(path: Seq<char>, fill_mode: FillMode) -> Seq<char> {
    KDE_SCRIPT_HEAD@ + uri_of(path) + KDE_SCRIPT_MIDDLE@ + decimal(kde_mode(fill_mode) as nat)
        + KDE_SCRIPT_TAIL@
}

/// The arguments of `hyprpaper`; without a monitor it takes all of them.
pub open spec fn hyprpaper_words(path: Seq<char>, monitor: Option<usize>) -> Seq<Seq<char>> {
    match monitor {
        Some(monitor) => seq!["wallpaper"@, "HDMI-"@ + decimal(monitor as nat), path],
        None => seq!["wallpaper"@, ","@, path],
    }
}

/// The output option of `swww`, when a monitor is given.
pub open spec fn swww_output(monitor: Option<usize>) -> Seq<Seq<char>> {
    match monitor {
        Some(monitor) => seq!["-o"@, "output:HDMI-"@ + decimal(monitor as nat)],
        None => Seq::empty(),
    }
}

/// The arguments that prepare `swww`.
pub open spec fn swww_init_words(monitor: Option<usize>) -> Seq<Seq<char>> {
    seq!["init"@, "--no-daemon"@] + swww_output(monitor)
}

/// The arguments that show an image with `swww`.
pub open spec fn swww_img_words(path: Seq<char>, monitor: Option<usize>) -> Seq<Seq<char>> {
    seq!["img"@, path] + swww_output(monitor)
}

/// The arguments of `feh`.
pub open spec fn feh_words(path: Seq<char>, fill_mode: FillMode, monitor: Option<usize>) -> Seq<
    Seq<char>,
> {
    seq![feh_mode(fill_mode), path] + (match monitor {
        Some(monitor) => seq!["--screen"@, decimal(monitor as nat)],
        None => Seq::empty(),
    })
}

/// The arguments of `nitrogen`; without a monitor it takes the first.
pub open spec fn nitrogen_words(path: Seq<char>, monitor: Option<usize>) -> Seq<Seq<char>> {
    seq![
        "--set-zoom-fill"@,
        "--head"@,
        match monitor {
            Some(monitor) => decimal(monitor as nat),
            None => "0"@,
        },
        path,
    ]
}

/// The arguments that write one of GNOME's two picture keys. The key of the mode
/// in use is written first, then the other, so that the wallpaper survives an
/// appearance switch.
pub open spec fn gsettings_words(path: Seq<char>, dark_key: bool) -> Seq<Seq<char>> {
    seq![
        "set"@,
        "org.gnome.desktop.background"@,
        if dark_key {
            "picture-uri-dark"@
        } else {
            "picture-uri"@
        },
        uri_of(path),
    ]
}

/// Linux wallpaper manager.
#[derive(Debug, Default, Clone, Copy)]
pub struct LinuxWallpaperManager;

impl LinuxWallpaperManager {
    /// A new manager.
    pub fn new() -> (manager: Self)
        ensures
            manager == LinuxWallpaperManager,
    {
        LinuxWallpaperManager
    }

    /// The file URI of a path. A path that already is one is kept.
    pub fn file_uri(path: &str) -> (uri: String)
        ensures
            uri@ == uri_of(path@),
    {
        let path = trim(path);
        if starts_with(path, "file://") {
            return path.to_owned();
        }
        let chars = chars_of(path);
        let mut uri = "file://".to_owned();
        let mut i: usize = 0;
        proof {
            assert(path@.take(0) =~= Seq::empty());
            assert(uri@ =~= "file://"@ + escaped(path@.take(0)));
        }
        while i < chars.len()
            invariant
                i <= chars.len(),
                chars@ == path@,
                uri@ == "file://"@ + escaped(path@.take(i as int)),
            decreases chars.len() - i,
        {
            let c = chars[i];
            let ghost before = uri@;
            if c == '%' {
                uri.append("%25");
            } else if c == ' ' {
                uri.append("%20");
            } else if c == '#' {
                uri.append("%23");
            } else if c == '?' {
                uri.append("%3F");
            } else {
                uri.push(c);
            }
            i = i + 1;
            proof {
                assert(path@.take(i as int).drop_last() =~= path@.take(i as int - 1));
                assert(path@.take(i as int).last() == c);
                assert(uri@ =~= before + escape(c));
                assert(uri@ =~= "file://"@ + escaped(path@.take(i as int)));
            }
        }
        proof {
            assert(path@.take(i as int) =~= path@);
        }
        uri
    }

    /// The script that makes Plasma show a wallpaper on every desktop.
    pub fn kde_script(path: &str, options: &WallpaperOptions) -> (script: String)
        ensures
            script@ == plasma_script(path@, options.fill_mode),
    {
        let mode: u8 = LinuxWallpaperManager::kde_fill_mode(options.fill_mode);
        KDE_SCRIPT_HEAD.to_owned().concat(LinuxWallpaperManager::file_uri(path).as_str()).concat(
            KDE_SCRIPT_MIDDLE,
        ).concat(show(mode as u64).as_str()).concat(KDE_SCRIPT_TAIL)
    }

    /// The number KDE gives a fill mode.
    pub fn kde_fill_mode(fill_mode: FillMode) -> (mode: u8)
        ensures
            mode == kde_mode(fill_mode),
    {
        match fill_mode {
            FillMode::Crop => 2,
            FillMode::Fill => 0,
            FillMode::Fit => 1,
            FillMode::Stretch => 3,
        }
    }

    /// Build the `gsettings` arguments that write one of GNOME's picture keys.
    pub fn gsettings_args(path: &str, dark_key: bool) -> (args: Vec<String>)
        ensures
            texts(args@) == gsettings_words(path@, dark_key),
    {
        let mut args: Vec<String> = Vec::new();
        args.push("set".to_owned());
        args.push("org.gnome.desktop.background".to_owned());
        if dark_key {
            args.push("picture-uri-dark".to_owned());
        } else {
            args.push("picture-uri".to_owned());
        }
        args.push(LinuxWallpaperManager::file_uri(path));
        proof {
            assert(texts(args@) =~= gsettings_words(path@, dark_key));
        }
        args
    }

    /// Build the `hyprpaper` arguments.
    pub fn hyprpaper_args(path: &str, monitor_index: Option<usize>) -> (args: Vec<String>)
        ensures
            texts(args@) == hyprpaper_words(path@, monitor_index),
    {
        let mut args: Vec<String> = Vec::new();
        args.push("wallpaper".to_owned());
        match monitor_index {
            Some(monitor) => {
                args.push("HDMI-".to_owned().concat(show(monitor as u64).as_str()));
            },
            None => {
                args.push(",".to_owned());
            },
        }
        args.push(path.to_owned());
        proof {
            assert(texts(args@) =~= hyprpaper_words(path@, monitor_index));
        }
        args
    }

    /// Build the `swww` arguments that prepare its outputs.
    pub fn swww_init_args(monitor_index: Option<usize>) -> (args: Vec<String>)
        ensures
            texts(args@) == swww_init_words(monitor_index),
    {
        let mut args: Vec<String> = Vec::new();
        args.push("init".to_owned());
        args.push("--no-daemon".to_owned());
        if let Some(monitor) = monitor_index {
            args.push("-o".to_owned());
            args.push("output:HDMI-".to_owned().concat(show(monitor as u64).as_str()));
        }
        proof {
            assert(texts(args@) =~= swww_init_words(monitor_index));
        }
        args
    }

    /// Build the `swww` arguments that show an image.
    pub fn swww_img_args(path: &str, monitor_index: Option<usize>) -> (args: Vec<String>)
        ensures
            texts(args@) == swww_img_words(path@, monitor_index),
    {
        let mut args: Vec<String> = Vec::new();
        args.push("img".to_owned());
        args.push(path.to_owned());
        if let Some(monitor) = monitor_index {
            args.push("-o".to_owned());
            args.push("output:HDMI-".to_owned().concat(show(monitor as u64).as_str()));
        }
        proof {
            assert(texts(args@) =~= swww_img_words(path@, monitor_index));
        }
        args
    }

    /// Build the `feh` arguments.
    pub fn feh_args(path: &str, fill_mode: FillMode, monitor_index: Option<usize>) -> (args: Vec<
        String,
    >)
        ensures
            texts(args@) == feh_words(path@, fill_mode, monitor_index),
    {
        let mode = match fill_mode {
            FillMode::Crop => "--bg-center",
            FillMode::Fill => "--bg-fill",
            FillMode::Fit => "--bg-scale",
            FillMode::Stretch => "--bg-fill",
        };
        let mut args: Vec<String> = Vec::new();
        args.push(mode.to_owned());
        args.push(path.to_owned());
        if let Some(monitor) = monitor_index {
            args.push("--screen".to_owned());
            args.push(show(monitor as u64));
        }
        proof {
            assert(texts(args@) =~= feh_words(path@, fill_mode, monitor_index));
        }
        args
    }

    /// Build the `nitrogen` arguments.
    pub fn nitrogen_args(path: &str, monitor_index: Option<usize>) -> (args: Vec<String>)
        ensures
            texts(args@) == nitrogen_words(path@, monitor_index),
    {
        let head = match monitor_index {
            Some(monitor) => show(monitor as u64),
            None => "0".to_owned(),
        };
        let mut args: Vec<String> = Vec::new();
        args.push("--set-zoom-fill".to_owned());
        args.push("--head".to_owned());
        args.push(head);
        args.push(path.to_owned());
        proof {
            assert(texts(args@) =~= nitrogen_words(path@, monitor_index));
        }
        args
    }

    /// The wallpaper cannot be read back through this backend.
    pub fn get_wallpaper() -> (res: Result<Option<String>, UdaError>)
        ensures
            res matches Err(error) && error@ == ErrorView::NotSupported(
                "get_wallpaper is not supported in this phase"@,
            ),
    {
        Err(UdaError::NotSupported("get_wallpaper is not supported in this phase".to_owned()))
    }

    /// What the backend can do; reading takes `gsettings`.
    pub fn capabilities(has_gsettings: bool) -> (capabilities: Capability)
        ensures
            capabilities@ == (if has_gsettings {
                Capability::SET_WALLPAPER | Capability::GET_WALLPAPER
            } else {
                Capability::SET_WALLPAPER
            }),
    {
        let capabilities = Capability::of(Capability::SET_WALLPAPER);
        if has_gsettings {
            capabilities.with(Capability::GET_WALLPAPER)
        } else {
            capabilities
        }
    }
}

// ---------------------------------------------------------------------------
// The fallback chain
// ---------------------------------------------------------------------------
/// Where the setting of a wallpaper stands.
#[derive(Debug, Clone, Copy, PartialEq, Eq, Structural)]
pub enum WallpaperStage {
    /// Write GNOME's key of the mode in use.
    GnomePrimary,
    /// Write GNOME's other key.
    GnomeSecondary,
    /// Evaluate the script in Plasma.
    Kde,
    /// See whether `hyprpaper` is there.
    HyprpaperProbe,
    /// Run `hyprpaper`.
    Hyprpaper,
    /// See whether `swww` is there.
    SwwwProbe,
    /// Prepare `swww`.
    SwwwInit,
    /// Show the image with `swww`.
    SwwwImg,
    /// See whether `feh` is there.
    FehProbe,
    /// Run `feh`.
    Feh,
    /// See whether `nitrogen` is there.
    NitrogenProbe,
    /// Run `nitrogen`.
    Nitrogen,
}

/// How the setting of a wallpaper goes on.
#[derive(Debug)]
pub enum WallpaperProgress {
    /// Do this next.
    Continue(WallpaperStage),
    /// This is the result.
    Finished(Result<(), UdaError>),
}

/// What a [`WallpaperProgress`] says.
#[verifier::ext_equal]
pub enum ProgressView {
    Continue(WallpaperStage),
    Succeeded,
    Failed(ErrorView),
}

impl View for WallpaperProgress {
    type V = ProgressView;

    open spec fn view(&self) -> ProgressView {
        match *self {
            WallpaperProgress::Continue(stage) => ProgressView::Continue(stage),
            WallpaperProgress::Finished(Ok(())) => ProgressView::Succeeded,
            WallpaperProgress::Finished(Err(error)) => ProgressView::Failed(error@),
        }
    }
}

/// The outcome of a stage: `None` when it went well or the tool is there.
pub open spec fn outcome_view(outcome: Result<(), UdaError>) -> Option<ErrorView> {
    match outcome {
        Ok(()) => None,
        Err(error) => Some(error@),
    }
}

/// Where the chain begins on a desktop.
pub open spec fn initial_stage(desktop: DesktopEnvironment) -> WallpaperStage {
    match desktop {
        DesktopEnvironment::Gnome => WallpaperStage::GnomePrimary,
        DesktopEnvironment::Kde => WallpaperStage::Kde,
        _ => WallpaperStage::HyprpaperProbe,
    }
}

/// What a failed native backend leads to: the tools when the backend was not
/// there, its error otherwise.
pub open spec fn after_native_failure(error: ErrorView) -> ProgressView {
    match error {
        ErrorView::DetectionFailed(_) => ProgressView::Continue(WallpaperStage::HyprpaperProbe),
        _ => ProgressView::Failed(error),
    }
}

/// How the chain goes on after a stage.
pub open spec fn stage_after(stage: WallpaperStage, failure: Option<ErrorView>) -> ProgressView {
    match (stage, failure) {
        (WallpaperStage::GnomePrimary, None) => ProgressView::Continue(
            WallpaperStage::GnomeSecondary,
        ),
        (WallpaperStage::GnomePrimary, Some(error)) => after_native_failure(error),
        (WallpaperStage::GnomeSecondary, None) => ProgressView::Succeeded,
        (WallpaperStage::GnomeSecondary, Some(error)) => after_native_failure(error),
        (WallpaperStage::Kde, None) => ProgressView::Succeeded,
        (WallpaperStage::Kde, Some(error)) => after_native_failure(error),
        (WallpaperStage::HyprpaperProbe, None) => ProgressView::Continue(WallpaperStage::Hyprpaper),
        (WallpaperStage::HyprpaperProbe, Some(_)) => ProgressView::Continue(
            WallpaperStage::SwwwProbe,
        ),
        (WallpaperStage::Hyprpaper, None) => ProgressView::Succeeded,
        (WallpaperStage::Hyprpaper, Some(_)) => ProgressView::Continue(WallpaperStage::FehProbe),
        (WallpaperStage::SwwwProbe, None) => ProgressView::Continue(WallpaperStage::SwwwInit),
        (WallpaperStage::SwwwProbe, Some(_)) => ProgressView::Continue(WallpaperStage::FehProbe),
        (WallpaperStage::SwwwInit, None) => ProgressView::Continue(WallpaperStage::SwwwImg),
        (WallpaperStage::SwwwInit, Some(_)) => ProgressView::Continue(WallpaperStage::FehProbe),
        (WallpaperStage::SwwwImg, None) => ProgressView::Succeeded,
        (WallpaperStage::SwwwImg, Some(_)) => ProgressView::Continue(WallpaperStage::FehProbe),
        (WallpaperStage::FehProbe, None) => ProgressView::Continue(WallpaperStage::Feh),
        (WallpaperStage::FehProbe, Some(_)) => ProgressView::Continue(
            WallpaperStage::NitrogenProbe,
        ),
        (WallpaperStage::Feh, None) => ProgressView::Succeeded,
        (WallpaperStage::Feh, Some(error)) => ProgressView::Failed(error),
        (WallpaperStage::NitrogenProbe, None) => ProgressView::Continue(WallpaperStage::Nitrogen),
        (WallpaperStage::NitrogenProbe, Some(_)) => ProgressView::Failed(
            ErrorView::NotSupported("Neither feh nor nitrogen is available"@),
        ),
        (WallpaperStage::Nitrogen, None) => ProgressView::Succeeded,
        (WallpaperStage::Nitrogen, Some(error)) => ProgressView::Failed(error),
    }
}

/// How far a stage is from the end of the chain.
pub open spec fn stages_left(progress: ProgressView) -> nat {
    match progress {
        ProgressView::Continue(stage) => match stage {
            WallpaperStage::GnomePrimary => 12,
            WallpaperStage::GnomeSecondary => 11,
            WallpaperStage::Kde => 10,
            WallpaperStage::HyprpaperProbe => 9,
            WallpaperStage::Hyprpaper => 8,
            WallpaperStage::SwwwProbe => 8,
            WallpaperStage::SwwwInit => 7,
            WallpaperStage::SwwwImg => 6,
            WallpaperStage::FehProbe => 5,
            WallpaperStage::Feh => 4,
            WallpaperStage::NitrogenProbe => 3,
            WallpaperStage::Nitrogen => 2,
        },
        _ => 0,
    }
}

/// Every stage brings the chain closer to its end, so it always comes to a
/// result: the native backend first, then Wayland tools, then X11 tools.
pub proof fn the_fallback_chain_ends(stage: WallpaperStage, failure: Option<ErrorView>)
    ensures
        stages_left(stage_after(stage, failure)) < stages_left(ProgressView::Continue(stage)),
{
}

/// A wallpaper counts as set only when a backend accepted it last.
pub proof fn success_takes_an_accepting_backend(stage: WallpaperStage, failure: Option<ErrorView>)
    requires
        stage_after(stage, failure) is Succeeded,
    ensures
        failure is None,
        stage == WallpaperStage::GnomeSecondary || stage == WallpaperStage::Kde || stage
            == WallpaperStage::Hyprpaper || stage == WallpaperStage::SwwwImg || stage
            == WallpaperStage::Feh || stage == WallpaperStage::Nitrogen,
{
}

/// What is to be done in a stage.
#[derive(Debug, PartialEq, Eq)]
pub enum StageWork {
    /// Run a program with these arguments.
    Run(String, Vec<String>),
    /// Evaluate this script in Plasma.
    Evaluate(String),
    /// See whether this program is there.
    Probe(String),
}

/// What a [`StageWork`] says.
#[verifier::ext_equal]
pub enum WorkView {
    Run(Seq<char>, Seq<Seq<char>>),
    Evaluate(Seq<char>),
    Probe(Seq<char>),
}

impl View for StageWork {
    type V = WorkView;

    open spec fn view(&self) -> WorkView {
        match *self {
            StageWork::Run(program, args) => WorkView::Run(program@, texts(args@)),
            StageWork::Evaluate(script) => WorkView::Evaluate(script@),
            StageWork::Probe(program) => WorkView::Probe(program@),
        }
    }
}

/// What is to be done in a stage for a path and its options.
pub open spec fn work_of(
    stage: WallpaperStage,
    path: Seq<char>,
    options: WallpaperOptions,
) -> WorkView {
    match stage {
        WallpaperStage::GnomePrimary => WorkView::Run(
            "gsettings"@,
            gsettings_words(path, options.dark_mode),
        ),
        WallpaperStage::GnomeSecondary => WorkView::Run(
            "gsettings"@,
            gsettings_words(path, !options.dark_mode),
        ),
        WallpaperStage::Kde => WorkView::Evaluate(plasma_script(path, options.fill_mode)),
        WallpaperStage::HyprpaperProbe => WorkView::Probe("hyprpaper"@),
        WallpaperStage::Hyprpaper => WorkView::Run(
            "hyprpaper"@,
            hyprpaper_words(path, options.monitor_index),
        ),
        WallpaperStage::SwwwProbe => WorkView::Probe("swww"@),
        WallpaperStage::SwwwInit => WorkView::Run(
            "swww"@,
            swww_init_words(options.monitor_index),
        ),
        WallpaperStage::SwwwImg => WorkView::Run(
            "swww"@,
            swww_img_words(path, options.monitor_index),
        ),
        WallpaperStage::FehProbe => WorkView::Probe("feh"@),
        WallpaperStage::Feh => WorkView::Run(
            "feh"@,
            feh_words(path, options.fill_mode, options.monitor_index),
        ),
        WallpaperStage::NitrogenProbe => WorkView::Probe("nitrogen"@),
        WallpaperStage::Nitrogen => WorkView::Run(
            "nitrogen"@,
            nitrogen_words(path, options.monitor_index),
        ),
    }
}

/// Where the setting of a wallpaper begins on a desktop.
pub fn first_stage(desktop: DesktopEnvironment) -> (stage: WallpaperStage)
    ensures
        stage == initial_stage(desktop),
{
    match desktop {
        DesktopEnvironment::Gnome => WallpaperStage::GnomePrimary,
        DesktopEnvironment::Kde => WallpaperStage::Kde,
        _ => WallpaperStage::HyprpaperProbe,
    }
}

/// What is to be done in a stage for a path and its options.
pub fn stage_work(stage: WallpaperStage, path: &str, options: &WallpaperOptions) -> (work: StageWork)
    ensures
        work@ == work_of(stage, path@, *options),
{
    match stage {
        WallpaperStage::GnomePrimary => StageWork::Run(
            "gsettings".to_owned(),
            LinuxWallpaperManager::gsettings_args(path, options.dark_mode),
        ),
        WallpaperStage::GnomeSecondary => StageWork::Run(
            "gsettings".to_owned(),
            LinuxWallpaperManager::gsettings_args(path, !options.dark_mode),
        ),
        WallpaperStage::Kde => StageWork::Evaluate(
            LinuxWallpaperManager::kde_script(path, options),
        ),
        WallpaperStage::HyprpaperProbe => StageWork::Probe("hyprpaper".to_owned()),
        WallpaperStage::Hyprpaper => StageWork::Run(
            "hyprpaper".to_owned(),
            LinuxWallpaperManager::hyprpaper_args(path, options.monitor_index),
        ),
        WallpaperStage::SwwwProbe => StageWork::Probe("swww".to_owned()),
        WallpaperStage::SwwwInit => StageWork::Run(
            "swww".to_owned(),
            LinuxWallpaperManager::swww_init_args(options.monitor_index),
        ),
        WallpaperStage::SwwwImg => StageWork::Run(
            "swww".to_owned(),
            LinuxWallpaperManager::swww_img_args(path, options.monitor_index),
        ),
        WallpaperStage::FehProbe => StageWork::Probe("feh".to_owned()),
        WallpaperStage::Feh => StageWork::Run(
            "feh".to_owned(),
            LinuxWallpaperManager::feh_args(path, options.fill_mode, options.monitor_index),
        ),
        WallpaperStage::NitrogenProbe => StageWork::Probe("nitrogen".to_owned()),
        WallpaperStage::Nitrogen => StageWork::Run(
            "nitrogen".to_owned(),
            LinuxWallpaperManager::nitrogen_args(path, options.monitor_index),
        ),
    }
}

/// What a failed native backend leads to.
fn native_failure(error: UdaError) -> (progress: WallpaperProgress)
    ensures
        progress@ == after_native_failure(error@),
{
    match error {
        UdaError::DetectionFailed(_) => WallpaperProgress::Continue(
            WallpaperStage::HyprpaperProbe,
        ),
        other => WallpaperProgress::Finished(Err(other)),
    }
}

/// How the chain goes on after a stage. A probe succeeds when the tool is there.
pub fn next_stage(stage: WallpaperStage, outcome: Result<(), UdaError>) -> (progress:
    WallpaperProgress)
    ensures
        progress@ == stage_after(stage, outcome_view(outcome)),
{
    match (stage, outcome) {
        (WallpaperStage::GnomePrimary, Ok(())) => WallpaperProgress::Continue(
            WallpaperStage::GnomeSecondary,
        ),
        (WallpaperStage::GnomePrimary, Err(error)) => native_failure(error),
        (WallpaperStage::GnomeSecondary, Err(error)) => native_failure(error),
        (WallpaperStage::Kde, Err(error)) => native_failure(error),
        (WallpaperStage::HyprpaperProbe, Ok(())) => WallpaperProgress::Continue(
            WallpaperStage::Hyprpaper,
        ),
        (WallpaperStage::HyprpaperProbe, Err(_)) => WallpaperProgress::Continue(
            WallpaperStage::SwwwProbe,
        ),
        (WallpaperStage::SwwwProbe, Ok(())) => WallpaperProgress::Continue(
            WallpaperStage::SwwwInit,
        ),
        (WallpaperStage::SwwwInit, Ok(())) => WallpaperProgress::Continue(
            WallpaperStage::SwwwImg,
        ),
        (WallpaperStage::Hyprpaper, Err(_)) => WallpaperProgress::Continue(
            WallpaperStage::FehProbe,
        ),
        (WallpaperStage::SwwwProbe, Err(_)) => WallpaperProgress::Continue(
            WallpaperStage::FehProbe,
        ),
        (WallpaperStage::SwwwInit, Err(_)) => WallpaperProgress::Continue(
            WallpaperStage::FehProbe,
        ),
        (WallpaperStage::SwwwImg, Err(_)) => WallpaperProgress::Continue(WallpaperStage::FehProbe),
        (WallpaperStage::FehProbe, Ok(())) => WallpaperProgress::Continue(WallpaperStage::Feh),
        (WallpaperStage::FehProbe, Err(_)) => WallpaperProgress::Continue(
            WallpaperStage::NitrogenProbe,
        ),
        (WallpaperStage::NitrogenProbe, Ok(())) => WallpaperProgress::Continue(
            WallpaperStage::Nitrogen,
        ),
        (WallpaperStage::NitrogenProbe, Err(_)) => WallpaperProgress::Finished(
            Err(UdaError::NotSupported("Neither feh nor nitrogen is available".to_owned())),
        ),
        (_, Ok(())) => WallpaperProgress::Finished(Ok(())),
        (_, Err(error)) => WallpaperProgress::Finished(Err(error)),
    }
}

/// The error of a command that ended with a failure. One that was ended by a
/// signal has no code and counts as -1.
pub fn command_status_error(code: Option<i32>) -> (error: UdaError)
    ensures
        error@ == ErrorView::DetectionFailed(
            "Command failed with status: "@ + signed_decimal(
                match code {
                    Some(code) => code as int,
                    None => -1,
                },
            ),
        ),
{
    let code: i32 = match code {
        Some(code) => code,
        None => -1,
    };
    UdaError::DetectionFailed(
        "Command failed with status: ".to_owned().concat(show_signed(code).as_str()),
    )
}

/// The error of a command that could not be started.
pub fn command_start_error(reason: &str) -> (error: UdaError)
    ensures
        error@ == ErrorView::DetectionFailed("Failed to execute command: "@ + reason@),
{
    UdaError::DetectionFailed("Failed to execute command: ".to_owned().concat(reason))
}

/// The outcome of looking for a program.
pub fn probe_outcome(program: &str, installed: bool) -> (res: Result<(), UdaError>)
    ensures
        res is Ok <==> installed,
        res matches Err(error) ==> error@ == ErrorView::DetectionFailed(
            program@ + " is not installed"@,
        ),
{
    if installed {
        Ok(())
    } else {
        Err(UdaError::DetectionFailed(program.to_owned().concat(" is not installed")))
    }
}

// ---------------------------------------------------------------------------
// What the chain is for
// ---------------------------------------------------------------------------
/// The value of a hexadecimal digit as URIs write it.
pub open spec fn nibble(c: char) -> int {
    if '0' <= c <= '9' {
        c as u32 - '0' as u32
    } else {
        c as u32 - 'A' as u32 + 10
    }
}

/// The path that a reader of a URI makes of its path: a percent sign and two
/// hexadecimal digits stand for the character with that number.
pub open spec fn percent_decoded(s: Seq<char>) -> Seq<char>
    decreases s.len(),
{
    if s.len() == 0 {
        Seq::empty()
    } else if s[0] == '%' && s.len() >= 3 {
        seq![(16 * nibble(s[1]) + nibble(s[2])) as char] + percent_decoded(s.skip(3))
    } else {
        seq![s[0]] + percent_decoded(s.skip(1))
    }
}

/// Whoever reads the URI of a path gets that path back.
pub proof fn an_escaped_path_reads_back(path: Seq<char>)
    ensures
        percent_decoded(escaped(path)) == path,
    decreases path.len(),
{
    if path.len() == 0 {
        assert(escaped(path) =~= Seq::empty());
        assert(percent_decoded(escaped(path)) =~= path);
    } else {
        lemma_escapes();
        lemma_first_escape(path);
        let first = escape(path[0]);
        let rest = escaped(path.drop_first());
        let all = escaped(path);
        an_escaped_path_reads_back(path.drop_first());
        assert(all[0] == first[0]);
        if first.len() == 3 {
            assert(all[1] == first[1] && all[2] == first[2]);
            assert(all.skip(3) =~= rest);
            assert((16 * nibble(all[1]) + nibble(all[2])) as char == path[0]);
        } else {
            assert(all.skip(1) =~= rest);
        }
        assert(percent_decoded(all) =~= path);
    }
}

/// A plain path becomes a file URI from which it reads back; a URI is kept as it
/// is; and white space around either does not matter.
pub proof fn a_path_becomes_a_uri_once(path: Seq<char>)
    ensures
        ({
            let uri = uri_of(path);
            &&& begins_with(uri, "file://"@)
            &&& begins_with(trimmed(path), "file://"@) ==> uri == trimmed(path)
            &&& !begins_with(trimmed(path), "file://"@) ==> percent_decoded(
                uri.skip("file://"@.len() as int),
            ) == trimmed(path)
        }),
{
    let p = trimmed(path);
    if !begins_with(p, "file://"@) {
        crate::text::parts_are_found_where_they_stand(p, "file://"@, escaped(p));
        assert(uri_of(path).skip("file://"@.len() as int) =~= escaped(p));
        an_escaped_path_reads_back(p);
    }
}

/// On GNOME both picture keys are written, each once and with the same URI, the
/// key of the mode in use first.
pub proof fn gnome_gets_the_wallpaper_for_both_appearances(path: Seq<char>, options: WallpaperOptions)
    ensures
        ({
            let first = work_of(WallpaperStage::GnomePrimary, path, options);
            let second = work_of(WallpaperStage::GnomeSecondary, path, options);
            let light = seq![
                "set"@,
                "org.gnome.desktop.background"@,
                "picture-uri"@,
                uri_of(path),
            ];
            let dark = seq![
                "set"@,
                "org.gnome.desktop.background"@,
                "picture-uri-dark"@,
                uri_of(path),
            ];
            &&& first is Run && first->Run_0 == "gsettings"@
            &&& second is Run && second->Run_0 == "gsettings"@
            &&& options.dark_mode ==> first->Run_1 == dark && second->Run_1 == light
            &&& !options.dark_mode ==> first->Run_1 == light && second->Run_1 == dark
            &&& first->Run_1[2] != second->Run_1[2]
        }),
        stage_after(initial_stage(DesktopEnvironment::Gnome), None) == ProgressView::Continue(
            WallpaperStage::GnomeSecondary,
        ),
        initial_stage(DesktopEnvironment::Gnome) == WallpaperStage::GnomePrimary,
        stage_after(WallpaperStage::GnomeSecondary, None) == ProgressView::Succeeded,
{
    reveal_strlit("picture-uri");
    reveal_strlit("picture-uri-dark");
    assert("picture-uri"@.len() != "picture-uri-dark"@.len());
}

/// Every program that shows an image is handed the path, and Plasma's script
/// holds its URI.
pub proof fn every_backend_is_handed_the_path(path: Seq<char>, options: WallpaperOptions)
    ensures
        ({
            let hyprpaper = work_of(WallpaperStage::Hyprpaper, path, options);
            let swww = work_of(WallpaperStage::SwwwImg, path, options);
            let feh = work_of(WallpaperStage::Feh, path, options);
            let nitrogen = work_of(WallpaperStage::Nitrogen, path, options);
            let kde = work_of(WallpaperStage::Kde, path, options);
            &&& hyprpaper is Run && hyprpaper->Run_1.last() == path
            &&& swww is Run && swww->Run_1[0] == "img"@ && swww->Run_1[1] == path
            &&& feh is Run && feh->Run_1[1] == path
            &&& nitrogen is Run && nitrogen->Run_1.last() == path
            &&& kde is Evaluate && holds(kde->Evaluate_0, uri_of(path))
        }),
{
    let tail = KDE_SCRIPT_MIDDLE@ + decimal(kde_mode(options.fill_mode) as nat) + KDE_SCRIPT_TAIL@;
    crate::text::parts_are_found_where_they_stand(KDE_SCRIPT_HEAD@, uri_of(path), tail);
    assert(plasma_script(path, options.fill_mode) =~= KDE_SCRIPT_HEAD@ + uri_of(path) + tail);
}

/// A monitor that is asked for is named to every tool in its own way. Without one,
/// a tool that can address all of them does, and `nitrogen` takes the first.
pub proof fn a_monitor_is_named_exactly_when_asked_for(
    path: Seq<char>,
    fill_mode: FillMode,
    monitor: usize,
)
    ensures
        hyprpaper_words(path, Some(monitor)) == seq![
            "wallpaper"@,
            "HDMI-"@ + decimal(monitor as nat),
            path,
        ],
        hyprpaper_words(path, None) == seq!["wallpaper"@, ","@, path],
        swww_init_words(Some(monitor)) == seq![
            "init"@,
            "--no-daemon"@,
            "-o"@,
            "output:HDMI-"@ + decimal(monitor as nat),
        ],
        swww_init_words(None) == seq!["init"@, "--no-daemon"@],
        swww_img_words(path, Some(monitor)) == seq![
            "img"@,
            path,
            "-o"@,
            "output:HDMI-"@ + decimal(monitor as nat),
        ],
        swww_img_words(path, None) == seq!["img"@, path],
        feh_words(path, fill_mode, Some(monitor)) == seq![
            feh_mode(fill_mode),
            path,
            "--screen"@,
            decimal(monitor as nat),
        ],
        feh_words(path, fill_mode, None) == seq![feh_mode(fill_mode), path],
        nitrogen_words(path, Some(monitor)) == seq![
            "--set-zoom-fill"@,
            "--head"@,
            decimal(monitor as nat),
            path,
        ],
        nitrogen_words(path, None) == nitrogen_words(path, Some(0)),
{
    assert(swww_init_words(Some(monitor)) =~= seq![
        "init"@,
        "--no-daemon"@,
        "-o"@,
        "output:HDMI-"@ + decimal(monitor as nat),
    ]);
    assert(swww_init_words(None) =~= seq!["init"@, "--no-daemon"@]);
    assert(swww_img_words(path, Some(monitor)) =~= seq![
        "img"@,
        path,
        "-o"@,
        "output:HDMI-"@ + decimal(monitor as nat),
    ]);
    assert(swww_img_words(path, None) =~= seq!["img"@, path]);
    assert(feh_words(path, fill_mode, Some(monitor)) =~= seq![
        feh_mode(fill_mode),
        path,
        "--screen"@,
        decimal(monitor as nat),
    ]);
    assert(feh_words(path, fill_mode, None) =~= seq![feh_mode(fill_mode), path]);
    reveal_strlit("0");
    assert("0"@ =~= decimal(0));
}

/// The options reach the tool of a stage: the monitor every tool that takes one,
/// the fill mode `feh` and Plasma.
pub proof fn options_reach_the_tools(path: Seq<char>, options: WallpaperOptions)
    ensures
        work_of(WallpaperStage::Hyprpaper, path, options) == WorkView::Run(
            "hyprpaper"@,
            hyprpaper_words(path, options.monitor_index),
        ),
        work_of(WallpaperStage::SwwwInit, path, options) == WorkView::Run(
            "swww"@,
            swww_init_words(options.monitor_index),
        ),
        work_of(WallpaperStage::SwwwImg, path, options) == WorkView::Run(
            "swww"@,
            swww_img_words(path, options.monitor_index),
        ),
        work_of(WallpaperStage::Feh, path, options) == WorkView::Run(
            "feh"@,
            feh_words(path, options.fill_mode, options.monitor_index),
        ),
        work_of(WallpaperStage::Nitrogen, path, options) == WorkView::Run(
            "nitrogen"@,
            nitrogen_words(path, options.monitor_index),
        ),
        work_of(WallpaperStage::Kde, path, options) == WorkView::Evaluate(
            plasma_script(path, options.fill_mode),
        ),
{
}

/// Different monitors are named differently to every tool.
pub proof fn different_monitors_are_named_differently(a: usize, b: usize)
    requires
        a != b,
    ensures
        decimal(a as nat) != decimal(b as nat),
        "HDMI-"@ + decimal(a as nat) != "HDMI-"@ + decimal(b as nat),
        "output:HDMI-"@ + decimal(a as nat) != "output:HDMI-"@ + decimal(b as nat),
{
    if decimal(a as nat) == decimal(b as nat) {
        crate::text::decimal_is_injective(a as nat, b as nat);
    }
    lemma_different_tails("HDMI-"@, decimal(a as nat), decimal(b as nat));
    lemma_different_tails("output:HDMI-"@, decimal(a as nat), decimal(b as nat));
}

proof fn lemma_different_tails(head: Seq<char>, x: Seq<char>, y: Seq<char>)
    requires
        x != y,
    ensures
        head + x != head + y,
{
    assert((head + x).skip(head.len() as int) =~= x);
    assert((head + y).skip(head.len() as int) =~= y);
}

/// Plasma numbers the fill modes as its script says, and `feh` names them.
pub proof fn fill_modes_are_named_as_the_tools_know_them(path: Seq<char>, monitor: Option<usize>)
    ensures
        kde_mode(FillMode::Fill) == 0,
        kde_mode(FillMode::Fit) == 1,
        kde_mode(FillMode::Crop) == 2,
        kde_mode(FillMode::Stretch) == 3,
        feh_words(path, FillMode::Crop, monitor)[0] == "--bg-center"@,
        feh_words(path, FillMode::Fit, monitor)[0] == "--bg-scale"@,
        feh_words(path, FillMode::Fill, monitor)[0] == "--bg-fill"@,
        feh_words(path, FillMode::Stretch, monitor)[0] == "--bg-fill"@,
{
}

/// The script for Plasma holds the number of the fill mode, so different modes
/// make different scripts.
pub proof fn a_fill_mode_reaches_plasma(path: Seq<char>, a: FillMode, b: FillMode)
    ensures
        holds(plasma_script(path, a), KDE_SCRIPT_MIDDLE@ + decimal(kde_mode(a) as nat)),
        a != b ==> plasma_script(path, a) != plasma_script(path, b),
{
    let before = KDE_SCRIPT_HEAD@ + uri_of(path);
    let x = decimal(kde_mode(a) as nat);
    let y = decimal(kde_mode(b) as nat);
    let written = KDE_SCRIPT_MIDDLE@ + x;
    crate::text::parts_are_found_where_they_stand(before, written, KDE_SCRIPT_TAIL@);
    assert(before + written + KDE_SCRIPT_TAIL@ =~= plasma_script(path, a));
    if a != b {
        let n = (before + KDE_SCRIPT_MIDDLE@).len() as int;
        assert(kde_mode(a) != kde_mode(b));
        assert(plasma_script(path, a)[n] == x[0]);
        assert(plasma_script(path, b)[n] == y[0]);
        lemma_single_digits(kde_mode(a) as nat, kde_mode(b) as nat);
    }
}

proof fn lemma_single_digits(a: nat, b: nat)
    requires
        a < 10,
        b < 10,
        a != b,
    ensures
        decimal(a)[0] != decimal(b)[0],
{
}

/// A tool is run only after it was found, and it is the very tool that was looked
/// for; `swww` is prepared before it shows anything.
pub proof fn a_tool_is_looked_for_before_it_runs(
    stage: WallpaperStage,
    failure: Option<ErrorView>,
    path: Seq<char>,
    options: WallpaperOptions,
)
    ensures
        stage_after(stage, failure) == ProgressView::Continue(WallpaperStage::Hyprpaper) <==> stage
            == WallpaperStage::HyprpaperProbe && failure is None,
        stage_after(stage, failure) == ProgressView::Continue(WallpaperStage::SwwwInit) <==> stage
            == WallpaperStage::SwwwProbe && failure is None,
        stage_after(stage, failure) == ProgressView::Continue(WallpaperStage::SwwwImg) <==> stage
            == WallpaperStage::SwwwInit && failure is None,
        stage_after(stage, failure) == ProgressView::Continue(WallpaperStage::Feh) <==> stage
            == WallpaperStage::FehProbe && failure is None,
        stage_after(stage, failure) == ProgressView::Continue(WallpaperStage::Nitrogen) <==> stage
            == WallpaperStage::NitrogenProbe && failure is None,
        ({
            let program = |s: WallpaperStage| work_of(s, path, options)->Run_0;
            &&& work_of(WallpaperStage::HyprpaperProbe, path, options) == WorkView::Probe(
                program(WallpaperStage::Hyprpaper),
            )
            &&& program(WallpaperStage::Hyprpaper) == "hyprpaper"@
            &&& work_of(WallpaperStage::SwwwProbe, path, options) == WorkView::Probe(
                program(WallpaperStage::SwwwInit),
            )
            &&& program(WallpaperStage::SwwwInit) == "swww"@
            &&& program(WallpaperStage::SwwwImg) == "swww"@
            &&& work_of(WallpaperStage::SwwwInit, path, options)->Run_1.take(2) == seq![
                "init"@,
                "--no-daemon"@,
            ]
            &&& work_of(WallpaperStage::FehProbe, path, options) == WorkView::Probe(
                program(WallpaperStage::Feh),
            )
            &&& program(WallpaperStage::Feh) == "feh"@
            &&& work_of(WallpaperStage::NitrogenProbe, path, options) == WorkView::Probe(
                program(WallpaperStage::Nitrogen),
            )
            &&& program(WallpaperStage::Nitrogen) == "nitrogen"@
        }),
{
    assert(work_of(WallpaperStage::SwwwInit, path, options)->Run_1.take(2) =~= seq![
        "init"@,
        "--no-daemon"@,
    ]);
}

/// A desktop with a backend of its own tries that first. It falls back to the
/// tools exactly when the backend was not there, and reports its error otherwise.
pub proof fn only_a_missing_backend_falls_back(stage: WallpaperStage, error: ErrorView)
    requires
        stage == WallpaperStage::GnomePrimary || stage == WallpaperStage::GnomeSecondary || stage
            == WallpaperStage::Kde,
    ensures
        error is DetectionFailed ==> stage_after(stage, Some(error)) == ProgressView::Continue(
            WallpaperStage::HyprpaperProbe,
        ),
        !(error is DetectionFailed) ==> stage_after(stage, Some(error)) == ProgressView::Failed(
            error,
        ),
        initial_stage(DesktopEnvironment::Gnome) == WallpaperStage::GnomePrimary,
        initial_stage(DesktopEnvironment::Kde) == WallpaperStage::Kde,
        initial_stage(DesktopEnvironment::Xfce) == WallpaperStage::HyprpaperProbe,
        initial_stage(DesktopEnvironment::Unknown) == WallpaperStage::HyprpaperProbe,
        stage_after(WallpaperStage::Kde, None) == ProgressView::Succeeded,
{
}

/// The tools are looked for one after the other, whatever the reason why one is
/// not there; only when none is, the request is answered as not supported.
pub proof fn every_tool_is_looked_for(error: ErrorView)
    ensures
        stage_after(WallpaperStage::HyprpaperProbe, Some(error)) == ProgressView::Continue(
            WallpaperStage::SwwwProbe,
        ),
        stage_after(WallpaperStage::SwwwProbe, Some(error)) == ProgressView::Continue(
            WallpaperStage::FehProbe,
        ),
        stage_after(WallpaperStage::FehProbe, Some(error)) == ProgressView::Continue(
            WallpaperStage::NitrogenProbe,
        ),
        stage_after(WallpaperStage::NitrogenProbe, Some(error)) == ProgressView::Failed(
            ErrorView::NotSupported("Neither feh nor nitrogen is available"@),
        ),
{
}

/// A Wayland tool that fails gives way to the X11 tools; an X11 tool that fails
/// reports its own error; and a tool that shows the image ends the chain.
pub proof fn a_failed_tool_gives_way_or_reports(stage: WallpaperStage, error: ErrorView)
    ensures
        stage == WallpaperStage::Hyprpaper || stage == WallpaperStage::SwwwInit || stage
            == WallpaperStage::SwwwImg ==> stage_after(stage, Some(error)) == ProgressView::Continue(
            WallpaperStage::FehProbe,
        ),
        stage == WallpaperStage::Feh || stage == WallpaperStage::Nitrogen ==> stage_after(
            stage,
            Some(error),
        ) == ProgressView::Failed(error),
        stage == WallpaperStage::Hyprpaper || stage == WallpaperStage::SwwwImg || stage
            == WallpaperStage::Feh || stage == WallpaperStage::Nitrogen ==> stage_after(stage, None)
            == ProgressView::Succeeded,
{
}

/// A failed command tells its status, or -1 without one; one that could not be
/// started tells the reason; and a program that is not there is named. All three
/// count as a backend that is not there.
pub proof fn a_failed_command_is_a_missing_backend(
    code: Option<i32>,
    ended: UdaError,
    reason: &str,
    unstarted: UdaError,
    program: &str,
    installed: bool,
    probed: Result<(), UdaError>,
)
    requires
        call_ensures(command_status_error, (code,), ended),
        call_ensures(command_start_error, (reason,), unstarted),
        call_ensures(probe_outcome, (program, installed), probed),
    ensures
        ended@ is DetectionFailed && unstarted@ is DetectionFailed,
        code matches Some(n) ==> finishes_with(ended@->DetectionFailed_0, signed_decimal(n as int)),
        code is None ==> finishes_with(ended@->DetectionFailed_0, signed_decimal(-1)),
        finishes_with(unstarted@->DetectionFailed_0, reason@),
        probed is Ok <==> installed,
        probed matches Err(error) ==> error@ is DetectionFailed && begins_with(
            error@->DetectionFailed_0,
            program@,
        ),
{
    let n: int = match code {
        Some(code) => code as int,
        None => -1,
    };
    let none = Seq::<char>::empty();
    crate::text::parts_are_found_where_they_stand(
        "Command failed with status: "@,
        signed_decimal(n),
        none,
    );
    crate::text::parts_are_found_where_they_stand("Failed to execute command: "@, reason@, none);
    crate::text::parts_are_found_where_they_stand(none, program@, " is not installed"@);
}

/// A wallpaper can always be set, and read exactly where `gsettings` is there.
pub proof fn reading_a_wallpaper_takes_gsettings(there: bool, capabilities: Capability)
    requires
        call_ensures(LinuxWallpaperManager::capabilities, (there,), capabilities),
    ensures
        capabilities@ & 0x0002 != 0,
        capabilities@ & 0x0004 != 0 <==> there,
{
    assert(2u32 & 2u32 != 0 && 2u32 & 4u32 == 0 && (2u32 | 4u32) & 2u32 != 0 && (2u32 | 4u32) & 4u32
        != 0) by (bit_vector);
}

/// The work of a stage and what follows it are those of the chain; on GNOME the
/// two keys are written one after the other, each with the URI of the path.
pub proof fn a_stage_does_its_work_and_goes_on(
    stage: WallpaperStage,
    path: &str,
    options: WallpaperOptions,
    work: StageWork,
    outcome: Result<(), UdaError>,
    progress: WallpaperProgress,
    uri: String,
)
    requires
        call_ensures(stage_work, (stage, path, &options), work),
        call_ensures(next_stage, (stage, outcome), progress),
        call_ensures(LinuxWallpaperManager::file_uri, (path,), uri),
    ensures
        work@ == work_of(stage, path@, options),
        outcome is Ok ==> progress@ == stage_after(stage, None),
        outcome matches Err(error) ==> progress@ == stage_after(stage, Some(error@)),
        stage == WallpaperStage::GnomePrimary || stage == WallpaperStage::GnomeSecondary
            ==> work@ == WorkView::Run(
            "gsettings"@,
            seq![
                "set"@,
                "org.gnome.desktop.background"@,
                if options.dark_mode == (stage == WallpaperStage::GnomePrimary) {
                    "picture-uri-dark"@
                } else {
                    "picture-uri"@
                },
                uri@,
            ],
        ),
        begins_with(uri@, "file://"@),
        !begins_with(trimmed(path@), "file://"@) ==> percent_decoded(
            uri@.skip("file://"@.len() as int),
        ) == trimmed(path@),
{
    a_path_becomes_a_uri_once(path@);
    gnome_gets_the_wallpaper_for_both_appearances(path@, options);
}

} // verus!
