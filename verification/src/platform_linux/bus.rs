//! What a failed call to a session service is reported as.

use crate::error::{ErrorView, UdaError};
use crate::text::{finishes_with, parts_are_found_where_they_stand};
use vstd::prelude::*;

verus! {

/// A service of the session.
#[derive(Debug, Clone, Copy, PartialEq, Eq, Structural)]
pub enum Service {
    /// The settings portal and Plasma, which are asked as one probe among others.
    Desktop,
    /// The notification service.
    Notifications,
    /// The ScreenSaver service.
    ScreenSaver,
}

/// The stage at which a call failed.
#[derive(Debug, Clone, Copy, PartialEq, Eq, Structural)]
pub enum Stage {
    /// Opening the session bus.
    Connect,
    /// Addressing the service.
    Address,
    /// Calling it.
    Call,
}

/// What stands before the reason of a failure.
pub open spec fn failure_prefix(service: Service, stage: Stage) -> Seq<char> {
    match service {
        Service::Desktop => match stage {
            Stage::Connect => "zbus session: "@,
            Stage::Address => "zbus proxy: "@,
            Stage::Call => "zbus call: "@,
        },
        Service::Notifications => match stage {
            Stage::Connect => "Failed to connect to session bus: "@,
            Stage::Address => "Failed to create notifications proxy: "@,
            Stage::Call => "Notify call failed: "@,
        },
        Service::ScreenSaver => match stage {
            Stage::Connect => "Failed to connect to session bus: "@,
            Stage::Address => "Failed to create ScreenSaver proxy: "@,
            Stage::Call => "Inhibit call failed: "@,
        },
    }
}

/// What a failed call is reported as. A desktop that does not answer a probe
/// leads on to the next one; a service that was asked for by name is an error of
/// its own.
pub open spec fn failure_of(service: Service, stage: Stage, shown: Seq<char>) -> ErrorView {
    let text = failure_prefix(service, stage) + shown;
    match service {
        Service::Desktop => ErrorView::DetectionFailed(text),
        _ => ErrorView::Internal(text),
    }
}

fn prefix_of(service: Service, stage: Stage) -> (prefix: &'static str)
    ensures
        prefix@ == failure_prefix(service, stage),
{
    match service {
        Service::Desktop => match stage {
            Stage::Connect => "zbus session: ",
            Stage::Address => "zbus proxy: ",
            Stage::Call => "zbus call: ",
        },
        Service::Notifications => match stage {
            Stage::Connect => "Failed to connect to session bus: ",
            Stage::Address => "Failed to create notifications proxy: ",
            Stage::Call => "Notify call failed: ",
        },
        Service::ScreenSaver => match stage {
            Stage::Connect => "Failed to connect to session bus: ",
            Stage::Address => "Failed to create ScreenSaver proxy: ",
            Stage::Call => "Inhibit call failed: ",
        },
    }
}

/// The error to report for a failed call.
pub fn bus_error(service: Service, stage: Stage, shown: &str) -> (error: UdaError)
    ensures
        error@ == failure_of(service, stage, shown@),
{
    let text = prefix_of(service, stage).to_owned().concat(shown);
    match service {
        Service::Desktop => UdaError::DetectionFailed(text),
        _ => UdaError::Internal(text),
    }
}

/// The error to report when no async runtime can be started.
pub fn runtime_error(shown: &str) -> (error: UdaError)
    ensures
        error@ == ErrorView::Internal("tokio runtime: "@ + shown@),
{
    UdaError::Internal("tokio runtime: ".to_owned().concat(shown))
}

/// A failure is told with its reason at the end, and only a desktop that does not
/// answer a probe is a failed detection.
pub proof fn a_failure_ends_with_its_reason(service: Service, stage: Stage, shown: Seq<char>)
    ensures
        service == Service::Desktop ==> (failure_of(service, stage, shown) matches
            ErrorView::DetectionFailed(text) && finishes_with(text, shown)),
        service != Service::Desktop ==> (failure_of(service, stage, shown) matches
            ErrorView::Internal(text) && finishes_with(text, shown)),
{
    let prefix = failure_prefix(service, stage);
    parts_are_found_where_they_stand(prefix, shown, Seq::empty());
}

/// The stage of a failure can be told from what is reported, and so can the
/// service once the bus was reached.
pub proof fn a_failure_tells_where_it_happened(
    service: Service,
    stage: Stage,
    other: Service,
    later: Stage,
    shown: Seq<char>,
)
    requires
        failure_of(service, stage, shown) == failure_of(other, later, shown),
    ensures
        stage == later,
        stage != Stage::Connect ==> service == other,
{
    let a = failure_prefix(service, stage);
    let b = failure_prefix(other, later);
    assert(a + shown == b + shown);
    assert((a + shown).len() == (b + shown).len());
    assert(a =~= (a + shown).take(a.len() as int));
    assert(b =~= (b + shown).take(b.len() as int));
    reveal_strlit("zbus session: ");
    reveal_strlit("zbus proxy: ");
    reveal_strlit("zbus call: ");
    reveal_strlit("Failed to connect to session bus: ");
    reveal_strlit("Failed to create notifications proxy: ");
    reveal_strlit("Notify call failed: ");
    reveal_strlit("Failed to create ScreenSaver proxy: ");
    reveal_strlit("Inhibit call failed: ");
    assert("zbus session: "@.len() == 14);
    assert("zbus proxy: "@.len() == 12);
    assert("zbus call: "@.len() == 11);
    assert("Failed to connect to session bus: "@.len() == 34);
    assert("Failed to create notifications proxy: "@.len() == 38);
    assert("Notify call failed: "@.len() == 20);
    assert("Failed to create ScreenSaver proxy: "@.len() == 36);
    assert("Inhibit call failed: "@.len() == 21);
}

/// Every failure is told under the words for its service and its stage.
pub proof fn a_failure_is_told_in_its_words(
    service: Service,
    stage: Stage,
    shown: &str,
    error: UdaError,
    runtime: UdaError,
)
    requires
        call_ensures(bus_error, (service, stage, shown), error),
        call_ensures(runtime_error, (shown,), runtime),
    ensures
        service == Service::Desktop && stage == Stage::Connect ==> error@
            == ErrorView::DetectionFailed("zbus session: "@ + shown@),
        service == Service::Desktop && stage == Stage::Address ==> error@
            == ErrorView::DetectionFailed("zbus proxy: "@ + shown@),
        service == Service::Desktop && stage == Stage::Call ==> error@
            == ErrorView::DetectionFailed("zbus call: "@ + shown@),
        service != Service::Desktop && stage == Stage::Connect ==> error@ == ErrorView::Internal(
            "Failed to connect to session bus: "@ + shown@,
        ),
        service == Service::Notifications && stage == Stage::Address ==> error@
            == ErrorView::Internal("Failed to create notifications proxy: "@ + shown@),
        service == Service::ScreenSaver && stage == Stage::Address ==> error@
            == ErrorView::Internal("Failed to create ScreenSaver proxy: "@ + shown@),
        service == Service::Notifications && stage == Stage::Call ==> error@
            == ErrorView::Internal("Notify call failed: "@ + shown@),
        service == Service::ScreenSaver && stage == Stage::Call ==> error@ == ErrorView::Internal(
            "Inhibit call failed: "@ + shown@,
        ),
        runtime@ == ErrorView::Internal("tokio runtime: "@ + shown@),
{
}

} // verus!
