//! Capability detection and session mode selection: which capture tier is
//! available, whether input injection is, and hence which mode a session
//! can offer.

use vstd::prelude::*;
use crate::compositor::capture::tier::{best_tier, CaptureTier, TierSelector};
use crate::types::mode::{mode_from_caps, CaptureTierInfo, RemoteDesktopMode, SessionCapabilities};
use crate::text::concat2;
use vstd::string::StringExecFns;

verus! {

/// The simplified tier information of a tier.
pub open spec fn tier_info(t: CaptureTier) -> Option<CaptureTierInfo> {
    match t {
        CaptureTier::Dmabuf => Some(CaptureTierInfo::Dmabuf),
        CaptureTier::Shm => Some(CaptureTierInfo::Shm),
        CaptureTier::Cpu => Some(CaptureTierInfo::Cpu),
        CaptureTier::Unavailable => None,
    }
}

/// The capture label of a summary.
pub open spec fn capture_label(t: Option<CaptureTier>) -> &'static str {
    match t {
        Some(CaptureTier::Dmabuf) => "GPU (dmabuf)",
        Some(CaptureTier::Shm) => "Shared Memory",
        Some(CaptureTier::Cpu) => "CPU",
        _ => "None",
    }
}

/// Probes and reports what a remote desktop session can do.
#[derive(Debug)]
pub struct CapabilityProvider {
    tier_selector: TierSelector,
    capture_tier: Option<CaptureTier>,
    input_available: bool,
}

impl CapabilityProvider {
    /// The well-formedness of a provider: once it holds a tier (it has
    /// probed), input is available.
    #[verifier::type_invariant]
    spec fn probed_has_input(&self) -> bool {
        self.capture_tier is Some ==> self.input_available
    }

    /// The tier selector.
    pub closed spec fn spec_selector(&self) -> TierSelector {
        self.tier_selector
    }

    /// The tier found by probing, if probed.
    pub closed spec fn spec_tier(&self) -> Option<CaptureTier> {
        self.capture_tier
    }

    /// Whether input injection was found available.
    pub closed spec fn spec_input(&self) -> bool {
        self.input_available
    }

    /// Whether the environment has been probed: exactly when a tier is
    /// held.
    pub closed spec fn spec_probed(&self) -> bool {
        self.capture_tier is Some
    }

    /// Whether the probed tier provides capture.
    pub open spec fn spec_capture_ok(&self) -> bool {
        self.spec_tier() matches Some(t) && t != CaptureTier::Unavailable
    }

    /// A provider that has not probed yet.
    pub fn new(tier_selector: TierSelector) -> (r: CapabilityProvider)
        ensures
            r.spec_selector() == tier_selector,
            r.spec_tier() is None,
            !r.spec_input(),
            !r.spec_probed(),
    {
        CapabilityProvider {
            tier_selector,
            capture_tier: None,
            input_available: false,
        }
    }

    /// Probes: selects the best capture tier; input is always available,
    /// through EIS when the compositor offers it and through direct
    /// injection otherwise.
    pub fn probe(&mut self)
        ensures
            final(self).spec_selector() == old(self).spec_selector(),
            final(self).spec_tier() == Some(best_tier(old(self).spec_selector().spec_env())),
            final(self).spec_input(),
            final(self).spec_probed(),
    {
        let tier = self.tier_selector.select_best();
        self.input_available = true;
        self.capture_tier = Some(tier);
    }

    /// The detected tier when it provides capture: none before probing or
    /// when no tier captures.
    pub fn capture_tier(&self) -> (r: Option<CaptureTier>)
        ensures
            r == (if self.spec_capture_ok() {
                self.spec_tier()
            } else {
                None
            }),
            r matches Some(t) ==> self.spec_probed() && t != CaptureTier::Unavailable,
    {
        match self.capture_tier {
            Some(t) => if t.has_capture() {
                Some(t)
            } else {
                None
            },
            None => None,
        }
    }

    /// Whether input injection is available; always after probing.
    pub fn input_available(&self) -> (r: bool)
        ensures
            r == self.spec_input(),
            self.spec_probed() ==> r,
    {
        proof {
            use_type_invariant(self);
        }
        self.input_available
    }

    /// The session capabilities; only after probing.
    pub fn session_capabilities(&self) -> (r: SessionCapabilities)
        requires
            self.spec_probed(),
        ensures
            r.capture_available == self.spec_capture_ok(),
            r.input_available == self.spec_input(),
            r.capture_tier == match self.spec_tier() {
                Some(t) => tier_info(t),
                None => None,
            },
    {
        let capture_available = match self.capture_tier {
            Some(t) => t.has_capture(),
            None => false,
        };
        let capture_tier = match self.capture_tier {
            Some(CaptureTier::Dmabuf) => Some(CaptureTierInfo::Dmabuf),
            Some(CaptureTier::Shm) => Some(CaptureTierInfo::Shm),
            Some(CaptureTier::Cpu) => Some(CaptureTierInfo::Cpu),
            _ => None,
        };
        SessionCapabilities { capture_available, input_available: self.input_available, capture_tier }
    }

    /// The best mode: `Inactive` before probing, else the mode of the
    /// probed capture and input availability, which always includes input.
    pub fn best_mode(&self) -> (r: RemoteDesktopMode)
        ensures
            r == if self.spec_probed() {
                mode_from_caps(self.spec_capture_ok(), self.spec_input())
            } else {
                RemoteDesktopMode::Inactive
            },
            self.spec_probed() ==> crate::types::mode::mode_has_input(r),
    {
        proof {
            use_type_invariant(self);
        }
        if self.capture_tier.is_none() {
            return RemoteDesktopMode::Inactive;
        }
        let capture_ok = match self.capture_tier {
            Some(t) => t.has_capture(),
            None => false,
        };
        RemoteDesktopMode::from_capabilities(capture_ok, self.input_available)
    }

    /// Whether the environment has been probed.
    pub fn is_probed(&self) -> (r: bool)
        ensures
            r == self.spec_probed(),
    {
        self.capture_tier.is_some()
    }

    /// A one-line summary: `"Not probed"`, or
    /// `"Capture: <tier>, Input: <Available|None>, Mode: <mode>"`.
    pub fn summary(&self) -> (r: String)
        ensures
            !self.spec_probed() ==> r@ == "Not probed"@,
            self.spec_probed() ==> r@ == "Capture: "@ + capture_label(self.spec_tier())@
                + ", Input: "@ + (if self.spec_input() {
                "Available"@
            } else {
                "None"@
            }) + ", Mode: "@ + crate::types::mode::mode_name(
                mode_from_caps(self.spec_capture_ok(), self.spec_input()),
            )@,
    {
        if self.capture_tier.is_none() {
            return String::from_str("Not probed");
        }
        let capture = match self.capture_tier {
            Some(CaptureTier::Dmabuf) => "GPU (dmabuf)",
            Some(CaptureTier::Shm) => "Shared Memory",
            Some(CaptureTier::Cpu) => "CPU",
            _ => "None",
        };
        let input = if self.input_available {
            "Available"
        } else {
            "None"
        };
        let mode = self.best_mode();
        let mut s = concat2("Capture: ", capture);
        s.append(", Input: ");
        s.append(input);
        s.append(", Mode: ");
        s.append(mode.name());
        s
    }
}

/// `s` padded with spaces on the right to at least `width` characters.
pub open spec fn padded(s: Seq<char>, width: nat) -> Seq<char> {
    if s.len() >= width {
        s
    } else {
        s + Seq::new((width - s.len()) as nat, |i: int| ' ')
    }
}

fn pad_right(s: &str, width: usize) -> (r: String)
    ensures
        r@ == padded(s@, width as nat),
{
    let mut out = String::from_str(s);
    let n = s.unicode_len();
    let mut k: usize = n;
    while k < width
        invariant
            n == s@.len(),
            n <= k,
            k < width ==> out@ == s@ + Seq::new((k - n) as nat, |i: int| ' '),
            k >= width ==> out@ == padded(s@, width as nat),
        decreases width - k,
    {
        let ghost before = out@;
        out.append(" ");
        proof {
            reveal_strlit(" ");
            assert(out@ =~= s@ + Seq::new((k + 1 - n) as nat, |i: int| ' '));
        }
        k = k + 1;
        if k >= width {
            assert(out@ =~= padded(s@, width as nat));
        }
    }
    if n >= width {
        assert(out@ =~= padded(s@, width as nat));
    }
    out
}

/// One row of the capability report: `│ <label><value padded to 24> │`.
pub open spec fn report_row(label: Seq<char>, value: Seq<char>) -> Seq<char> {
    "│ "@ + label + padded(value, 24) + " │"@
}

/// The capability report of a probed provider, line by line.
pub open spec fn report_lines(tier: Seq<char>, input: Seq<char>, mode: Seq<char>) -> Seq<Seq<char>> {
    seq![
        "┌─────────────────────────────────────────┐"@,
        "│       ionChannel Capabilities          │"@,
        "├─────────────────────────────────────────┤"@,
        report_row("Capture Tier: "@, tier),
        report_row("Input:        "@, input),
        report_row("Session Mode: "@, mode),
        "└─────────────────────────────────────────┘"@,
    ]
}

fn report_row_text(label: &str, value: &str) -> (r: String)
    ensures
        r@ == report_row(label@, value@),
{
    let mut s = concat2("│ ", label);
    let v = pad_right(value, 24);
    s.append(v.as_str());
    s.append(" │");
    s
}

impl CapabilityProvider {
    /// The report to log: `Err` with the warning `Capabilities not probed`
    /// before probing; afterwards the lines of a box naming the capture
    /// tier (`None (input-only)` when none was found), whether input is
    /// available and the session mode.
    pub fn log_report(&self) -> (r: Result<Vec<String>, String>)
        ensures
            !self.spec_probed() ==> (r matches Err(w) && w@ == "Capabilities not probed"@),
            self.spec_probed() ==> (r matches Ok(lines) && lines@.map_values(|l: String| l@)
                == report_lines(
                crate::compositor::capture::tier::tier_name(
                    match self.spec_tier() {
                        Some(t) => t,
                        None => CaptureTier::Unavailable,
                    },
                )@,
                if self.spec_input() {
                    "Available"@
                } else {
                    "None"@
                },
                crate::types::mode::mode_name(
                    mode_from_caps(self.spec_capture_ok(), self.spec_input()),
                )@,
            )),
    {
        if self.capture_tier.is_none() {
            return Err(String::from_str("Capabilities not probed"));
        }
        let tier = match self.capture_tier {
            Some(t) => t,
            None => CaptureTier::Unavailable,
        };
        let input = if self.input_available {
            "Available"
        } else {
            "None"
        };
        let mode = self.best_mode();
        let mut lines: Vec<String> = Vec::new();
        lines.push(String::from_str("┌─────────────────────────────────────────┐"));
        lines.push(String::from_str("│       ionChannel Capabilities          │"));
        lines.push(String::from_str("├─────────────────────────────────────────┤"));
        lines.push(report_row_text("Capture Tier: ", tier.name()));
        lines.push(report_row_text("Input:        ", input));
        lines.push(report_row_text("Session Mode: ", mode.name()));
        lines.push(String::from_str("└─────────────────────────────────────────┘"));
        proof {
            let t2 = match self.spec_tier() {
                Some(t) => t,
                None => CaptureTier::Unavailable,
            };
            assert(lines@.map_values(|l: String| l@) =~= report_lines(
                crate::compositor::capture::tier::tier_name(t2)@,
                if self.spec_input() {
                    "Available"@
                } else {
                    "None"@
                },
                crate::types::mode::mode_name(
                    mode_from_caps(self.spec_capture_ok(), self.spec_input()),
                )@,
            ));
        }
        Ok(lines)
    }
}

/// The best mode of an environment: probe a fresh provider and report.
pub fn detect_best_mode(tier_selector: TierSelector) -> (r: RemoteDesktopMode)
    ensures
        r == mode_from_caps(best_tier(tier_selector.spec_env()) != CaptureTier::Unavailable, true),
{
    let mut provider = CapabilityProvider::new(tier_selector);
    provider.probe();
    provider.best_mode()
}

/// Whether input-only mode is possible: input can always be injected.
pub fn is_input_only_possible(tier_selector: TierSelector) -> (r: bool)
    ensures
        r,
{
    let mut provider = CapabilityProvider::new(tier_selector);
    provider.probe();
    provider.input_available()
}

/// After probing, a provider always offers input: its mode is `InputOnly`
/// or `Full`, `Full` exactly when a capture tier was found.
pub proof fn lemma_probed_mode_has_input(p: CapabilityProvider)
    requires
        p.spec_probed(),
        p.spec_input(),
    ensures
        crate::types::mode::mode_has_input(mode_from_caps(p.spec_capture_ok(), p.spec_input())),
        mode_from_caps(p.spec_capture_ok(), p.spec_input()) == if p.spec_capture_ok() {
            RemoteDesktopMode::Full
        } else {
            RemoteDesktopMode::InputOnly
        },
{
}

} // verus!
