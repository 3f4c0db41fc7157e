//! Which Windows release runs.

use crate::error::{ErrorView, UdaError};
use crate::text::{finishes_with, hexadecimal, parts_are_found_where_they_stand, show_hex};
use crate::utf16::{before_nul, decoded, from_wide, wide, wide_text_round_trips};
use vstd::prelude::*;

verus! {

/// Detected Windows release family.
#[derive(Debug, Clone, Copy, PartialEq, Eq, Structural)]
pub enum WindowsRelease {
    /// Before Windows 8. The light/dark preference does not exist.
    Legacy,
    /// Windows 8 and 8.1.
    Eight,
    /// Windows 10 before version 1709.
    Ten,
    /// Windows 10 version 1709 or newer, and every Windows 11 build: the family
    /// in which the light/dark preference is guaranteed to be present.
    Modern,
}

impl Default for WindowsRelease {
    fn default() -> (release: Self)
        ensures
            release == WindowsRelease::Legacy,
    {
        WindowsRelease::Legacy
    }
}

/// The release family of a build number.
pub open spec fn release_of(build: u32) -> WindowsRelease {
    if build < 9200 {
        WindowsRelease::Legacy
    } else if build <= 9600 {
        WindowsRelease::Eight
    } else if build < 16299 {
        WindowsRelease::Ten
    } else {
        WindowsRelease::Modern
    }
}

impl WindowsRelease {
    /// Classify a build number into a release family.
    pub fn from_build(build: u32) -> (release: Self)
        ensures
            release == release_of(build),
    {
        if build < 9200 {
            WindowsRelease::Legacy
        } else if build <= 9600 {
            WindowsRelease::Eight
        } else if build < 16299 {
            WindowsRelease::Ten
        } else {
            WindowsRelease::Modern
        }
    }

    /// Whether the modern personalization registry values are expected to exist.
    pub fn supports_dark_mode_registry(&self) -> (yes: bool)
        ensures
            yes == (*self == WindowsRelease::Modern),
    {
        matches!(self, WindowsRelease::Modern)
    }
}

/// A later build never belongs to an earlier family: once the light/dark
/// preference is expected, it is expected of every later build.
pub proof fn later_builds_keep_the_preference(build: u32, later: u32)
    requires
        build <= later,
        release_of(build) == WindowsRelease::Modern,
    ensures
        release_of(later) == WindowsRelease::Modern,
{
}

/// Structured Windows environment information.
#[derive(Debug, PartialEq, Eq)]
pub struct WindowsEnvironmentInfo {
    /// Detected release family.
    pub release: WindowsRelease,
    /// Reported major version.
    pub major_version: u32,
    /// Reported minor version.
    pub minor_version: u32,
    /// Reported build number.
    pub build_number: u32,
    /// Service pack string, empty on modern builds.
    pub service_pack: String,
}

impl Default for WindowsEnvironmentInfo {
    fn default() -> (info: Self)
        ensures
            info.release == WindowsRelease::Legacy,
            info.major_version == 0,
            info.minor_version == 0,
            info.build_number == 0,
            info.service_pack@ == Seq::<char>::empty(),
    {
        WindowsEnvironmentInfo {
            release: WindowsRelease::Legacy,
            major_version: 0,
            minor_version: 0,
            build_number: 0,
            service_pack: String::new(),
        }
    }
}

/// What the kernel reports about its version.
#[derive(Debug)]
pub struct VersionReply {
    /// The status of the call; 0 is success.
    pub status: i32,
    /// Major version.
    pub major: u32,
    /// Minor version.
    pub minor: u32,
    /// Build number.
    pub build: u32,
    /// The service pack field, as NUL-terminated UTF-16.
    pub service_pack: Vec<u16>,
}

/// Describe the environment from what the kernel reports.
pub fn detect_environment(reply: &VersionReply) -> (res: Result<WindowsEnvironmentInfo, UdaError>)
    ensures
        res is Ok <==> reply.status == 0,
        res matches Ok(info) ==> info.release == release_of(reply.build) && info.major_version
            == reply.major && info.minor_version == reply.minor && info.build_number == reply.build
            && info.service_pack@ == decoded(before_nul(reply.service_pack@)),
        res matches Err(error) ==> error@ == ErrorView::Internal(
            "RtlGetVersion failed with NTSTATUS 0x"@ + hexadecimal(reply.status as u32 as nat),
        ),
{
    if reply.status != 0 {
        return Err(
            UdaError::Internal(
                "RtlGetVersion failed with NTSTATUS 0x".to_owned().concat(
                    show_hex(reply.status as u32).as_str(),
                ),
            ),
        );
    }
    Ok(
        WindowsEnvironmentInfo {
            release: WindowsRelease::from_build(reply.build),
            major_version: reply.major,
            minor_version: reply.minor,
            build_number: reply.build,
            service_pack: from_wide(&reply.service_pack),
        },
    )
}

/// The families meet at builds 9200, 9601 and 16299, and none comes back later.
pub proof fn families_follow_one_another(build: u32)
    ensures
        release_of(build) == WindowsRelease::Legacy <==> build < 9200,
        release_of(build) == WindowsRelease::Eight <==> 9200 <= build < 9601,
        release_of(build) == WindowsRelease::Ten <==> 9601 <= build < 16299,
        release_of(build) == WindowsRelease::Modern <==> 16299 <= build,
{
}

/// What the kernel reports is passed on, the service pack as the text before the
/// first NUL; a failed report is told with its status.
pub proof fn a_report_is_passed_on(
    reply: VersionReply,
    res: Result<WindowsEnvironmentInfo, UdaError>,
    pack: Seq<char>,
    tail: Seq<u16>,
)
    requires
        call_ensures(detect_environment, (&reply,), res),
        !pack.contains('\0'),
        reply.service_pack@ == wide(pack) + tail,
    ensures
        reply.status == 0 ==> (res matches Ok(info) && info.major_version == reply.major
            && info.minor_version == reply.minor && info.build_number == reply.build
            && info.service_pack@ == pack && info.release == release_of(reply.build)),
        reply.status != 0 ==> (res matches Err(error) && error@ is Internal && finishes_with(
            error@->Internal_0,
            hexadecimal(reply.status as u32 as nat),
        )),
{
    wide_text_round_trips(pack, tail);
    parts_are_found_where_they_stand(
        "RtlGetVersion failed with NTSTATUS 0x"@,
        hexadecimal(reply.status as u32 as nat),
        Seq::empty(),
    );
}

/// The preference is expected of the modern family alone.
pub proof fn only_modern_builds_have_the_preference(
    build: u32,
    release: WindowsRelease,
    yes: bool,
)
    requires
        call_ensures(WindowsRelease::from_build, (build,), release),
        call_ensures(WindowsRelease::supports_dark_mode_registry, (&release,), yes),
    ensures
        yes <==> build >= 16299,
{
}

} // verus!
