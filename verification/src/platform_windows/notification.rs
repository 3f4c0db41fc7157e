//! Native toasts over WinRT.

use crate::capability::Capability;
use crate::error::{ErrorView, UdaError};
use crate::notification::Notification;
use crate::text::{finishes_with, parts_are_found_where_they_stand};
use vstd::prelude::*;

verus! {

/// XPath selecting the title text node of the two-line text template.
pub const TITLE_XPATH: &'static str = "/toast/visual/binding/text[1]";

/// XPath selecting the body text node of the two-line text template.
pub const BODY_XPATH: &'static str = "/toast/visual/binding/text[2]";

/// The error code `0x80070490`, which WinRT reports when no app identity can be
/// resolved.
pub const ELEMENT_NOT_FOUND_HRESULT: i32 = -2147023728;

/// One WinRT call on the way to a toast.
#[derive(Debug, Clone, Copy, PartialEq, Eq, Structural)]
pub enum ToastStep {
    /// Get the two-line text template.
    GetTemplate,
    /// Select the title nodes of the template.
    SelectTitle,
    /// Select the body nodes of the template.
    SelectBody,
    /// Take the first title node.
    FindTitle,
    /// Write the summary into it.
    WriteTitle,
    /// Take the first body node.
    FindBody,
    /// Write the body into it.
    WriteBody,
    /// Make a toast of the document.
    CreateToast,
    /// Get the notifier of the calling process.
    CreateNotifier,
    /// Show the toast.
    Show,
    /// Nothing more to do; the id to report. WinRT hands none out, so it is 0.
    Done(u32),
}

/// What follows a call that succeeded while a toast is sent.
pub open spec fn following_step(step: ToastStep) -> ToastStep {
    match step {
        ToastStep::GetTemplate => ToastStep::SelectTitle,
        ToastStep::SelectTitle => ToastStep::SelectBody,
        ToastStep::SelectBody => ToastStep::FindTitle,
        ToastStep::FindTitle => ToastStep::WriteTitle,
        ToastStep::WriteTitle => ToastStep::FindBody,
        ToastStep::FindBody => ToastStep::WriteBody,
        ToastStep::WriteBody => ToastStep::CreateToast,
        ToastStep::CreateToast => ToastStep::CreateNotifier,
        ToastStep::CreateNotifier => ToastStep::Show,
        ToastStep::Show => ToastStep::Done(0),
        ToastStep::Done(id) => ToastStep::Done(id),
    }
}

/// The call made after `n` calls that succeeded.
pub open spec fn step_after(n: nat) -> ToastStep
    decreases n,
{
    if n == 0 {
        ToastStep::GetTemplate
    } else {
        following_step(step_after((n - 1) as nat))
    }
}

/// A toast takes ten calls. It is shown by the last of them, after both of its
/// texts were written, and 0 is reported as its id.
pub proof fn a_toast_is_shown_last()
    ensures
        step_after(4) == ToastStep::WriteTitle,
        step_after(6) == ToastStep::WriteBody,
        step_after(9) == ToastStep::Show,
        step_after(10) == ToastStep::Done(0),
        forall|n: nat| n != 9 ==> #[trigger] step_after(n) != ToastStep::Show,
{
    reveal_with_fuel(step_after, 11);
    assert forall|n: nat| n != 9 implies #[trigger] step_after(n) != ToastStep::Show by {
        if n >= 10 {
            lemma_stays_done(n);
        }
    }
}

proof fn lemma_stays_done(n: nat)
    requires
        n >= 10,
    ensures
        step_after(n) == ToastStep::Done(0),
    decreases n,
{
    if n > 10 {
        lemma_stays_done((n - 1) as nat);
    } else {
        reveal_with_fuel(step_after, 11);
    }
}

/// What a failed call is answered, given the code and the description of its
/// error. Only a process without an app identity is told that toasts are not
/// supported; it can register one or fall back to another channel.
pub open spec fn failure_of(step: ToastStep, code: i32, shown: Seq<char>) -> ErrorView {
    match step {
        ToastStep::GetTemplate => ErrorView::Internal("GetTemplateContent failed: "@ + shown),
        ToastStep::SelectTitle => ErrorView::Internal(
            "SelectNodes("@ + TITLE_XPATH@ + ") failed: "@ + shown,
        ),
        ToastStep::SelectBody => ErrorView::Internal(
            "SelectNodes("@ + BODY_XPATH@ + ") failed: "@ + shown,
        ),
        ToastStep::FindTitle => ErrorView::Internal(
            "toast template has no summary text node: "@ + shown,
        ),
        ToastStep::WriteTitle => ErrorView::Internal(
            "SetInnerText for summary failed: "@ + shown,
        ),
        ToastStep::FindBody => ErrorView::Internal(
            "toast template has no body text node: "@ + shown,
        ),
        ToastStep::WriteBody => ErrorView::Internal("SetInnerText for body failed: "@ + shown),
        ToastStep::CreateToast => ErrorView::Internal("CreateToastNotification failed: "@ + shown),
        ToastStep::CreateNotifier => if code == ELEMENT_NOT_FOUND_HRESULT {
            ErrorView::NotSupported(
                "no toast app identity is registered for this process; toasts require a packaged app or an AppUserModelID"@,
            )
        } else {
            ErrorView::Internal("CreateToastNotifier failed: "@ + shown)
        },
        ToastStep::Show => ErrorView::Internal("ToastNotifier::Show failed: "@ + shown),
        ToastStep::Done(_) => ErrorView::Internal(shown),
    }
}

/// Whether a WinRT error code says that no app identity can be resolved.
pub fn is_element_not_found(code: i32) -> (yes: bool)
    ensures
        yes == (code == ELEMENT_NOT_FOUND_HRESULT),
{
    code == ELEMENT_NOT_FOUND_HRESULT
}

impl ToastStep {
    /// The first call of a toast.
    pub fn first() -> (step: Self)
        ensures
            step == step_after(0),
    {
        ToastStep::GetTemplate
    }

    /// What follows this call once it succeeded.
    pub fn next(self) -> (step: Self)
        ensures
            step == following_step(self),
    {
        match self {
            ToastStep::GetTemplate => ToastStep::SelectTitle,
            ToastStep::SelectTitle => ToastStep::SelectBody,
            ToastStep::SelectBody => ToastStep::FindTitle,
            ToastStep::FindTitle => ToastStep::WriteTitle,
            ToastStep::WriteTitle => ToastStep::FindBody,
            ToastStep::FindBody => ToastStep::WriteBody,
            ToastStep::WriteBody => ToastStep::CreateToast,
            ToastStep::CreateToast => ToastStep::CreateNotifier,
            ToastStep::CreateNotifier => ToastStep::Show,
            ToastStep::Show => ToastStep::Done(0),
            ToastStep::Done(id) => ToastStep::Done(id),
        }
    }

    /// The text this call writes: the summary is the title, the body the second
    /// line. Nothing else of a notification is shown in a toast.
    pub fn text<'a>(self, notification: &'a Notification) -> (text: Option<&'a str>)
        ensures
            match self {
                ToastStep::WriteTitle => text matches Some(t) && t@ == notification.summary@,
                ToastStep::WriteBody => text matches Some(t) && t@ == notification.body@,
                _ => text is None,
            },
    {
        match self {
            ToastStep::WriteTitle => Some(notification.summary.as_str()),
            ToastStep::WriteBody => Some(notification.body.as_str()),
            _ => None,
        }
    }

    /// The error to report when this call fails.
    pub fn failure(self, code: i32, shown: &str) -> (error: UdaError)
        ensures
            error@ == failure_of(self, code, shown@),
    {
        match self {
            ToastStep::GetTemplate => UdaError::Internal(
                "GetTemplateContent failed: ".to_owned().concat(shown),
            ),
            ToastStep::SelectTitle => UdaError::Internal(
                "SelectNodes(".to_owned().concat(TITLE_XPATH).concat(") failed: ").concat(shown),
            ),
            ToastStep::SelectBody => UdaError::Internal(
                "SelectNodes(".to_owned().concat(BODY_XPATH).concat(") failed: ").concat(shown),
            ),
            ToastStep::FindTitle => UdaError::Internal(
                "toast template has no summary text node: ".to_owned().concat(shown),
            ),
            ToastStep::WriteTitle => UdaError::Internal(
                "SetInnerText for summary failed: ".to_owned().concat(shown),
            ),
            ToastStep::FindBody => UdaError::Internal(
                "toast template has no body text node: ".to_owned().concat(shown),
            ),
            ToastStep::WriteBody => UdaError::Internal(
                "SetInnerText for body failed: ".to_owned().concat(shown),
            ),
            ToastStep::CreateToast => UdaError::Internal(
                "CreateToastNotification failed: ".to_owned().concat(shown),
            ),
            ToastStep::CreateNotifier => if is_element_not_found(code) {
                UdaError::NotSupported(
                    "no toast app identity is registered for this process; toasts require a packaged app or an AppUserModelID".to_owned(),
                )
            } else {
                UdaError::Internal("CreateToastNotifier failed: ".to_owned().concat(shown))
            },
            ToastStep::Show => UdaError::Internal(
                "ToastNotifier::Show failed: ".to_owned().concat(shown),
            ),
            ToastStep::Done(_) => UdaError::Internal(shown.to_owned()),
        }
    }
}

/// The error to report when the notifier does not say whether toasts are allowed.
pub fn setting_failure(shown: &str) -> (error: UdaError)
    ensures
        error@ == ErrorView::Internal("NotificationSetting query failed: "@ + shown@),
{
    UdaError::Internal("NotificationSetting query failed: ".to_owned().concat(shown))
}

/// Windows notification manager. WinRT resolves the notifier from the identity
/// of the calling process.
#[derive(Debug, Default, Clone, Copy)]
pub struct WindowsNotificationManager;

impl WindowsNotificationManager {
    /// A new manager.
    pub fn new() -> (manager: Self)
        ensures
            manager == WindowsNotificationManager,
    {
        WindowsNotificationManager
    }

    /// Text toasts work for every process that can display them.
    pub fn capabilities(&self) -> (res: Result<Capability, UdaError>)
        ensures
            res matches Ok(capabilities) && capabilities@ == Capability::SEND_NOTIFICATION,
    {
        Ok(Capability::of(Capability::SEND_NOTIFICATION))
    }
}

/// The calls of a toast, in order: the template, its two places, the two texts,
/// the toast, the notifier, and showing it.
pub proof fn a_toast_is_made_in_order()
    ensures
        step_after(0) == ToastStep::GetTemplate,
        step_after(1) == ToastStep::SelectTitle,
        step_after(2) == ToastStep::SelectBody,
        step_after(3) == ToastStep::FindTitle,
        step_after(4) == ToastStep::WriteTitle,
        step_after(5) == ToastStep::FindBody,
        step_after(6) == ToastStep::WriteBody,
        step_after(7) == ToastStep::CreateToast,
        step_after(8) == ToastStep::CreateNotifier,
        step_after(9) == ToastStep::Show,
        step_after(10) == ToastStep::Done(0),
{
    reveal_with_fuel(step_after, 11);
}

/// Toasts are called unsupported only for want of an app identity, which the
/// notifier reports by `0x80070490`; every other failure tells its reason.
pub proof fn only_a_missing_identity_is_unsupported(step: ToastStep, code: i32, shown: Seq<char>)
    ensures
        failure_of(step, code, shown) is NotSupported <==> step == ToastStep::CreateNotifier && code
            == 0x8007_0490u32 as i32,
        !(failure_of(step, code, shown) is NotSupported) ==> (failure_of(step, code, shown) matches
            ErrorView::Internal(text) && finishes_with(text, shown)),
{
    assert(0x8007_0490u32 as i32 == -2147023728i32) by (bit_vector);
    let none = Seq::<char>::empty();
    parts_are_found_where_they_stand(none, shown, none);
    assert(none + shown =~= shown);
    parts_are_found_where_they_stand("GetTemplateContent failed: "@, shown, none);
    parts_are_found_where_they_stand("SelectNodes("@ + TITLE_XPATH@ + ") failed: "@, shown, none);
    parts_are_found_where_they_stand("SelectNodes("@ + BODY_XPATH@ + ") failed: "@, shown, none);
    parts_are_found_where_they_stand("toast template has no summary text node: "@, shown, none);
    parts_are_found_where_they_stand("SetInnerText for summary failed: "@, shown, none);
    parts_are_found_where_they_stand("toast template has no body text node: "@, shown, none);
    parts_are_found_where_they_stand("SetInnerText for body failed: "@, shown, none);
    parts_are_found_where_they_stand("CreateToastNotification failed: "@, shown, none);
    parts_are_found_where_they_stand("CreateToastNotifier failed: "@, shown, none);
    parts_are_found_where_they_stand("ToastNotifier::Show failed: "@, shown, none);
}

/// The summary is written into the first place and the body into the second, and
/// no other call writes anything.
pub proof fn a_toast_shows_summary_and_body(
    notification: Notification,
    n: nat,
    text: Option<&str>,
)
    requires
        call_ensures(ToastStep::text, (step_after(n), &notification), text),
    ensures
        n == 4 ==> (text matches Some(t) && t@ == notification.summary@),
        n == 6 ==> (text matches Some(t) && t@ == notification.body@),
        n != 4 && n != 6 ==> text is None,
{
    a_toast_is_made_in_order();
    if n >= 10 {
        lemma_stays_done(n);
    }
}

} // verus!
