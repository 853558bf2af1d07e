//! User consent for remote desktop access.
//!
//! A provider decides whether a request is granted. The providers here
//! decide without asking: auto-approval grants, the command-line provider
//! denies for safety (it has no interactive terminal), and the channel
//! provider turns the reply that arrived on its channel into a decision.
//! Waiting, sleeping and printing are left to the caller.

use vstd::prelude::*;
use crate::text::concat2;
use crate::time::Duration;
use crate::types::device::{device_description, DeviceType};
use crate::types::session::SessionId;
use vstd::string::StringExecFns;

verus! {

/// Outcome of a consent request.
#[derive(Clone, Copy, Debug, PartialEq, Eq, Structural)]
pub enum ConsentResult {
    /// The user granted access.
    Granted,
    /// The user denied access.
    Denied,
    /// The user cancelled the dialog.
    Cancelled,
    /// No answer came in time.
    Timeout,
}

/// The lower-case name of a consent result.
pub open spec fn consent_name(c: ConsentResult) -> &'static str {
    match c {
        ConsentResult::Granted => "granted",
        ConsentResult::Denied => "denied",
        ConsentResult::Cancelled => "cancelled",
        ConsentResult::Timeout => "timeout",
    }
}

impl ConsentResult {
    /// True exactly for `Granted`.
    pub fn is_granted(self) -> (r: bool)
        ensures
            r == (self is Granted),
    {
        match self {
            ConsentResult::Granted => true,
            _ => false,
        }
    }

    /// The lower-case name: `"granted"`, `"denied"`, `"cancelled"` or `"timeout"`.
    pub fn name(self) -> (r: &'static str)
        ensures
            r@ == consent_name(self)@,
    {
        match self {
            ConsentResult::Granted => "granted",
            ConsentResult::Denied => "denied",
            ConsentResult::Cancelled => "cancelled",
            ConsentResult::Timeout => "timeout",
        }
    }
}

/// What a consent request asks for.
#[derive(Debug)]
pub struct ConsentRequest {
    /// The requesting session.
    pub session_id: SessionId,
    /// The requesting application.
    pub app_id: String,
    /// The requested devices.
    pub device_types: DeviceType,
    /// Whether screen capture is requested too.
    pub include_screen_capture: bool,
    /// Parent window for a modal dialog, if any.
    pub parent_window: Option<String>,
}

/// The text of a boolean: `"true"` or `"false"`.
pub open spec fn bool_text(b: bool) -> Seq<char> {
    if b {
        "true"@
    } else {
        "false"@
    }
}

/// The description of a request:
/// `ConsentRequest(app=<app>, devices=<devices>, capture=<true|false>)`.
pub open spec fn request_description(app: Seq<char>, devices: DeviceType, capture: bool) -> Seq<
    char,
> {
    "ConsentRequest(app="@ + app + ", devices="@ + device_description(
        devices.keyboard,
        devices.pointer,
        devices.touchscreen,
    )@ + ", capture="@ + bool_text(capture) + ")"@
}

impl ConsentRequest {
    /// A one-line description of the request.
    pub fn description(&self) -> (r: String)
        ensures
            r@ == request_description(self.app_id@, self.device_types, self.include_screen_capture),
    {
        let mut s = concat2("ConsentRequest(app=", self.app_id.as_str());
        s.append(", devices=");
        s.append(self.device_types.description());
        s.append(", capture=");
        if self.include_screen_capture {
            s.append("true");
        } else {
            s.append("false");
        }
        s.append(")");
        proof {
            if self.include_screen_capture {
                assert(bool_text(true) == "true"@);
            }
        }
        s
    }
}

/// Decides consent requests.
pub trait ConsentProvider {
    /// The decision on `request`, given at most `timeout` to answer.
    fn request_consent(&self, request: &ConsentRequest, timeout: Duration) -> ConsentResult;
}

/// Grants every request. For development and automated testing only: it
/// bypasses the user.
#[derive(Clone, Copy, Debug, PartialEq, Eq, Structural)]
pub struct AutoApproveProvider {
    /// Simulated user response time, waited out by the caller.
    pub delay: Duration,
    /// Whether requests are logged.
    pub log_requests: bool,
}

impl AutoApproveProvider {
    /// A provider answering after `delay`.
    pub fn new(delay: Duration, log_requests: bool) -> (r: AutoApproveProvider)
        ensures
            r.delay == delay,
            r.log_requests == log_requests,
    {
        AutoApproveProvider { delay, log_requests }
    }

    /// A provider answering at once and logging requests.
    pub fn instant() -> (r: AutoApproveProvider)
        ensures
            r.delay.nanos == 0,
            r.log_requests,
    {
        AutoApproveProvider::new(Duration::zero(), true)
    }
}

impl Default for AutoApproveProvider {
    fn default() -> (r: AutoApproveProvider)
        ensures
            r.delay.nanos == 0,
            r.log_requests,
    {
        AutoApproveProvider::instant()
    }
}

impl ConsentProvider for AutoApproveProvider {
    /// Always `Granted`.
    fn request_consent(&self, request: &ConsentRequest, timeout: Duration) -> (r: ConsentResult)
        ensures
            r == ConsentResult::Granted,
    {
        ConsentResult::Granted
    }
}

/// Prompts on the terminal; without an interactive terminal it denies.
#[derive(Clone, Copy, Debug, PartialEq, Eq, Structural)]
pub struct CliConsentProvider {
    /// Whether the prompt uses colours.
    pub use_colors: bool,
}

impl CliConsentProvider {
    /// A terminal provider.
    pub fn new(use_colors: bool) -> (r: CliConsentProvider)
        ensures
            r.use_colors == use_colors,
    {
        CliConsentProvider { use_colors }
    }
}

impl Default for CliConsentProvider {
    fn default() -> (r: CliConsentProvider)
        ensures
            r.use_colors,
    {
        CliConsentProvider::new(true)
    }
}

impl ConsentProvider for CliConsentProvider {
    /// Always `Denied`: no interactive answer is read, and denial is the safe default.
    fn request_consent(&self, request: &ConsentRequest, timeout: Duration) -> (r: ConsentResult)
        ensures
            r == ConsentResult::Denied,
    {
        ConsentResult::Denied
    }
}

/// What came back on a consent channel.
#[derive(Clone, Copy, Debug, PartialEq, Eq, Structural)]
pub enum ConsentReply {
    /// The request could not be sent: the channel is closed.
    SendFailed,
    /// An answer arrived in time.
    Answer(ConsentResult),
    /// The channel closed before an answer arrived.
    ChannelClosed,
    /// No answer arrived before the timeout.
    TimedOut,
}

/// The decision a channel reply stands for.
pub open spec fn decision_of_reply(reply: ConsentReply) -> ConsentResult {
    match reply {
        ConsentReply::SendFailed => ConsentResult::Denied,
        ConsentReply::Answer(c) => c,
        ConsentReply::ChannelClosed => ConsentResult::Denied,
        ConsentReply::TimedOut => ConsentResult::Timeout,
    }
}

/// Decides from what a channel delivered: the answer itself, `Denied` when
/// the channel failed, `Timeout` when no answer came in time.
pub fn consent_from_reply(reply: ConsentReply) -> (r: ConsentResult)
    ensures
        r == decision_of_reply(reply),
        r is Granted ==> reply == ConsentReply::Answer(ConsentResult::Granted),
{
    match reply {
        ConsentReply::SendFailed => ConsentResult::Denied,
        ConsentReply::Answer(c) => c,
        ConsentReply::ChannelClosed => ConsentResult::Denied,
        ConsentReply::TimedOut => ConsentResult::Timeout,
    }
}

/// The default time a user has to answer: 30 seconds.
pub fn default_consent_timeout() -> (r: Duration)
    ensures
        r.nanos == 30_000_000_000,
{
    Duration::from_secs(30)
}

} // verus!
