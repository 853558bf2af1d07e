//! The unattended provisioning run as a state machine. Each step takes the
//! outcome of the last action (a key pair generated, a command's exit, a
//! pause over) and answers with the next action: generate keys, write the
//! cloud-init files, build the ISO, create the disk, install the VM, poll
//! libvirt for the VM's address, poll SSH until it answers, connect.
//! Polling pauses five seconds between tries and gives up after 60 s for
//! the address and 120 s for SSH.

use vstd::prelude::*;
use vstd::string::StringExecFns;
use crate::deploy::provision::{domifaddr_ip, ip_from_domifaddr};
use crate::deploy::vm::opt_text;
use crate::text::concat2;

verus! {

/// Seconds allowed for the VM to obtain an address.
pub const IP_TIMEOUT_SECS: u64 = 60;

/// Seconds allowed for SSH to answer once the address is known.
pub const SSH_TIMEOUT_SECS: u64 = 120;

/// Seconds between two polls.
pub const POLL_INTERVAL_SECS: u64 = 5;

/// Where a provisioning run stands.
#[derive(Debug, Clone)]
pub enum ProvisionPhase {
    /// Generating the SSH key pair.
    GeneratingKeys,
    /// Writing the cloud-init user data and meta-data.
    WritingCloudInit,
    /// Building the cloud-init ISO.
    CreatingIso,
    /// Creating the VM disk with `qemu-img`.
    CreatingDisk,
    /// Installing the VM with `virt-install`.
    Installing,
    /// Polling libvirt for the VM's address, since the given second.
    WaitingForIp { since: u64 },
    /// Polling SSH at `ip`, since the given second.
    WaitingForSsh { ip: String, since: u64 },
    /// Opening the SSH session to `ip`.
    Connecting { ip: String },
    /// Done: the VM is reachable.
    Finished,
    /// Given up.
    Failed,
}

/// What the run asks to be done next.
#[derive(Debug, Clone)]
pub enum ProvisionAction {
    /// Generate the SSH key pair for the VM.
    GenerateKeys,
    /// Create the working directory and write the cloud-init files.
    WriteCloudInit,
    /// Build the cloud-init ISO.
    CreateIso,
    /// Run `qemu-img` to create the VM disk.
    CreateDisk,
    /// Run `virt-install`.
    InstallVm,
    /// Run `virsh domifaddr` to read the VM's address.
    QueryIp,
    /// Try an SSH session to the address and run a test command.
    ProbeSsh(String),
    /// Open the SSH session to the address.
    Connect(String),
    /// Wait this many seconds.
    Sleep(u64),
    /// The VM is ready at the address.
    Complete(String),
    /// Provisioning failed with this message.
    Abort(String),
}

/// The outcome of the last action.
#[derive(Debug, Clone)]
pub enum ProvisionEvent {
    /// The action succeeded (keys, cloud-init files, ISO, connection).
    Succeeded { now: u64 },
    /// The action failed with this message.
    Failed(String),
    /// A command exited.
    CommandExited { success: bool, stdout: String, stderr: String, now: u64 },
    /// The pause is over.
    Slept { now: u64 },
    /// An SSH probe answered (`ready`) or not.
    SshProbed { ready: bool, now: u64 },
}

/// Seconds from `since` to `now`; none when the clock reads earlier.
pub open spec fn elapsed(since: u64, now: u64) -> nat {
    if now >= since {
        (now - since) as nat
    } else {
        0
    }
}

/// Whether `event` answers an action that the run in `phase` asked for.
pub open spec fn fits(phase: ProvisionPhase, event: ProvisionEvent) -> bool {
    match phase {
        ProvisionPhase::GeneratingKeys | ProvisionPhase::WritingCloudInit
        | ProvisionPhase::CreatingIso | ProvisionPhase::Connecting { .. } => event is Succeeded
            || event is Failed,
        ProvisionPhase::CreatingDisk | ProvisionPhase::Installing => event is CommandExited
            || event is Failed,
        ProvisionPhase::WaitingForIp { .. } => event is CommandExited || event is Slept
            || event is Failed,
        ProvisionPhase::WaitingForSsh { .. } => event is SshProbed || event is Slept
            || event is Failed,
        ProvisionPhase::Finished | ProvisionPhase::Failed => false,
    }
}

/// One step of the run: from `p` on `e` to `p2`, asking for `a`, with the
/// warning `w` to report.
pub open spec fn transition(
    p: ProvisionPhase,
    e: ProvisionEvent,
    p2: ProvisionPhase,
    a: ProvisionAction,
    w: Option<Seq<char>>,
) -> bool {
    match e {
        ProvisionEvent::Failed(m) => p2 is Failed && (a matches ProvisionAction::Abort(m2) && m2@
            == m@) && w is None,
        _ => match p {
            ProvisionPhase::GeneratingKeys => p2 is WritingCloudInit && a is WriteCloudInit
                && w is None,
            ProvisionPhase::WritingCloudInit => p2 is CreatingIso && a is CreateIso && w is None,
            ProvisionPhase::CreatingIso => p2 is CreatingDisk && a is CreateDisk && w is None,
            ProvisionPhase::CreatingDisk => match e {
                ProvisionEvent::CommandExited { success, stderr, .. } => w is None && if success {
                    p2 is Installing && a is InstallVm
                } else {
                    p2 is Failed && (a matches ProvisionAction::Abort(m) && m@ == "qemu-img failed: "@
                        + stderr@)
                },
                _ => false,
            },
            ProvisionPhase::Installing => match e {
                ProvisionEvent::CommandExited { success, stderr, now, .. } => {
                    &&& (p2 matches ProvisionPhase::WaitingForIp { since } && since == now)
                    &&& a is QueryIp
                    &&& w == if success {
                        None
                    } else {
                        Some("virt-install warning (may be OK): "@ + stderr@)
                    }
                },
                _ => false,
            },
            ProvisionPhase::WaitingForIp { since } => w is None && match e {
                ProvisionEvent::CommandExited { success, stdout, now, .. } => if success
                    && domifaddr_ip(stdout@) is Some {
                    &&& (p2 matches ProvisionPhase::WaitingForSsh { ip, since: s2 } && Some(ip@)
                        == domifaddr_ip(stdout@) && s2 == now)
                    &&& (a matches ProvisionAction::ProbeSsh(ip2) && Some(ip2@) == domifaddr_ip(
                        stdout@,
                    ))
                } else {
                    (p2 matches ProvisionPhase::WaitingForIp { since: s2 } && s2 == since) && (
                    a matches ProvisionAction::Sleep(secs) && secs == POLL_INTERVAL_SECS)
                },
                ProvisionEvent::Slept { now } => if elapsed(since, now) < IP_TIMEOUT_SECS {
                    (p2 matches ProvisionPhase::WaitingForIp { since: s2 } && s2 == since)
                        && a is QueryIp
                } else {
                    p2 is Failed && (a matches ProvisionAction::Abort(m) && m@
                        == "Timeout waiting for VM IP address"@)
                },
                _ => false,
            },
            ProvisionPhase::WaitingForSsh { ip, since } => w is None && match e {
                ProvisionEvent::SshProbed { ready, .. } => if ready {
                    (p2 matches ProvisionPhase::Connecting { ip: ip2 } && ip2@ == ip@) && (
                    a matches ProvisionAction::Connect(ip3) && ip3@ == ip@)
                } else {
                    (p2 matches ProvisionPhase::WaitingForSsh { ip: ip2, since: s2 } && ip2@ == ip@
                        && s2 == since) && (a matches ProvisionAction::Sleep(secs) && secs
                        == POLL_INTERVAL_SECS)
                },
                ProvisionEvent::Slept { now } => if elapsed(since, now) < SSH_TIMEOUT_SECS {
                    (p2 matches ProvisionPhase::WaitingForSsh { ip: ip2, since: s2 } && ip2@ == ip@
                        && s2 == since) && (a matches ProvisionAction::ProbeSsh(ip3) && ip3@ == ip@)
                } else {
                    p2 is Failed && (a matches ProvisionAction::Abort(m) && m@
                        == "Timeout waiting for SSH to become available"@)
                },
                _ => false,
            },
            ProvisionPhase::Connecting { ip } => p2 is Finished && (
            a matches ProvisionAction::Complete(ip2) && ip2@ == ip@) && w is None,
            _ => false,
        },
    }
}

/// A provisioning run.
#[derive(Debug)]
pub struct ProvisionRun {
    phase: ProvisionPhase,
}

impl ProvisionRun {
    /// Where the run stands.
    pub closed spec fn phase(&self) -> ProvisionPhase {
        self.phase
    }

    /// A run that starts by generating the key pair.
    pub fn start() -> (r: (ProvisionRun, ProvisionAction))
        ensures
            r.0.phase() is GeneratingKeys,
            r.1 is GenerateKeys,
    {
        (ProvisionRun { phase: ProvisionPhase::GeneratingKeys }, ProvisionAction::GenerateKeys)
    }

    /// Where the run stands.
    pub fn current_phase(&self) -> (r: &ProvisionPhase)
        ensures
            *r == self.phase(),
    {
        &self.phase
    }

    /// Whether the run has ended, finished or failed.
    pub fn is_over(&self) -> (r: bool)
        ensures
            r == (self.phase() is Finished || self.phase() is Failed),
    {
        match self.phase {
            ProvisionPhase::Finished | ProvisionPhase::Failed => true,
            _ => false,
        }
    }

    /// Whether `event` answers the action the run asked for last.
    pub fn accepts(&self, event: &ProvisionEvent) -> (r: bool)
        ensures
            r == fits(self.phase(), *event),
    {
        match (&self.phase, event) {
            (ProvisionPhase::Finished, _) | (ProvisionPhase::Failed, _) => false,
            (_, ProvisionEvent::Failed(_)) => true,
            (ProvisionPhase::GeneratingKeys, ProvisionEvent::Succeeded { .. })
            | (ProvisionPhase::WritingCloudInit, ProvisionEvent::Succeeded { .. })
            | (ProvisionPhase::CreatingIso, ProvisionEvent::Succeeded { .. })
            | (ProvisionPhase::Connecting { .. }, ProvisionEvent::Succeeded { .. }) => true,
            (ProvisionPhase::CreatingDisk, ProvisionEvent::CommandExited { .. })
            | (ProvisionPhase::Installing, ProvisionEvent::CommandExited { .. }) => true,
            (ProvisionPhase::WaitingForIp { .. }, ProvisionEvent::CommandExited { .. })
            | (ProvisionPhase::WaitingForIp { .. }, ProvisionEvent::Slept { .. }) => true,
            (ProvisionPhase::WaitingForSsh { .. }, ProvisionEvent::SshProbed { .. })
            | (ProvisionPhase::WaitingForSsh { .. }, ProvisionEvent::Slept { .. }) => true,
            _ => false,
        }
    }

    /// Takes the outcome of the last action and returns the next action,
    /// with a warning to report when `virt-install` exited unsuccessfully
    /// (the run goes on: the VM may still come up).
    pub fn step(&mut self, event: ProvisionEvent) -> (r: (ProvisionAction, Option<String>))
        requires
            fits(old(self).phase(), event),
        ensures
            transition(old(self).phase(), event, final(self).phase(), r.0, opt_text(r.1)),
    {
        if let ProvisionEvent::Failed(m) = event {
            self.phase = ProvisionPhase::Failed;
            return (ProvisionAction::Abort(m), None);
        }
        let (next, action, warning) = match &self.phase {
            ProvisionPhase::GeneratingKeys => (
                ProvisionPhase::WritingCloudInit,
                ProvisionAction::WriteCloudInit,
                None,
            ),
            ProvisionPhase::WritingCloudInit => (
                ProvisionPhase::CreatingIso,
                ProvisionAction::CreateIso,
                None,
            ),
            ProvisionPhase::CreatingIso => (
                ProvisionPhase::CreatingDisk,
                ProvisionAction::CreateDisk,
                None,
            ),
            ProvisionPhase::CreatingDisk => match event {
                ProvisionEvent::CommandExited { success, stderr, .. } => if success {
                    (ProvisionPhase::Installing, ProvisionAction::InstallVm, None)
                } else {
                    (
                        ProvisionPhase::Failed,
                        ProvisionAction::Abort(concat2("qemu-img failed: ", stderr.as_str())),
                        None,
                    )
                },
                _ => (ProvisionPhase::Failed, ProvisionAction::Abort(String::new()), None),
            },
            ProvisionPhase::Installing => match event {
                ProvisionEvent::CommandExited { success, stderr, now, .. } => {
                    let warning = if success {
                        None
                    } else {
                        Some(concat2("virt-install warning (may be OK): ", stderr.as_str()))
                    };
                    (ProvisionPhase::WaitingForIp { since: now }, ProvisionAction::QueryIp, warning)
                },
                _ => (ProvisionPhase::Failed, ProvisionAction::Abort(String::new()), None),
            },
            ProvisionPhase::WaitingForIp { since } => match event {
                ProvisionEvent::CommandExited { success, stdout, now, .. } => {
                    let found = if success {
                        ip_from_domifaddr(stdout.as_str())
                    } else {
                        None
                    };
                    match found {
                        Some(ip) => {
                            let probe = ip.clone();
                            (
                                ProvisionPhase::WaitingForSsh { ip, since: now },
                                ProvisionAction::ProbeSsh(probe),
                                None,
                            )
                        },
                        None => (
                            ProvisionPhase::WaitingForIp { since: *since },
                            ProvisionAction::Sleep(POLL_INTERVAL_SECS),
                            None,
                        ),
                    }
                },
                ProvisionEvent::Slept { now } => {
                    let waited = if now >= *since {
                        now - *since
                    } else {
                        0
                    };
                    if waited < IP_TIMEOUT_SECS {
                        (ProvisionPhase::WaitingForIp { since: *since }, ProvisionAction::QueryIp, None)
                    } else {
                        (
                            ProvisionPhase::Failed,
                            ProvisionAction::Abort(
                                String::from_str("Timeout waiting for VM IP address"),
                            ),
                            None,
                        )
                    }
                },
                _ => (ProvisionPhase::Failed, ProvisionAction::Abort(String::new()), None),
            },
            ProvisionPhase::WaitingForSsh { ip, since } => match event {
                ProvisionEvent::SshProbed { ready, .. } => if ready {
                    (
                        ProvisionPhase::Connecting { ip: ip.clone() },
                        ProvisionAction::Connect(ip.clone()),
                        None,
                    )
                } else {
                    (
                        ProvisionPhase::WaitingForSsh { ip: ip.clone(), since: *since },
                        ProvisionAction::Sleep(POLL_INTERVAL_SECS),
                        None,
                    )
                },
                ProvisionEvent::Slept { now } => {
                    let waited = if now >= *since {
                        now - *since
                    } else {
                        0
                    };
                    if waited < SSH_TIMEOUT_SECS {
                        (
                            ProvisionPhase::WaitingForSsh { ip: ip.clone(), since: *since },
                            ProvisionAction::ProbeSsh(ip.clone()),
                            None,
                        )
                    } else {
                        (
                            ProvisionPhase::Failed,
                            ProvisionAction::Abort(
                                String::from_str("Timeout waiting for SSH to become available"),
                            ),
                            None,
                        )
                    }
                },
                _ => (ProvisionPhase::Failed, ProvisionAction::Abort(String::new()), None),
            },
            ProvisionPhase::Connecting { ip } => (
                ProvisionPhase::Finished,
                ProvisionAction::Complete(ip.clone()),
                None,
            ),
            _ => (ProvisionPhase::Failed, ProvisionAction::Abort(String::new()), None),
        };
        self.phase = next;
        (action, warning)
    }
}

/// The address a run waits for is the one libvirt reported, and SSH is
/// only polled while less than 120 s have passed since it was found; the
/// address is only polled while less than 60 s have passed since the
/// install finished.
pub proof fn lemma_polls_respect_deadlines(
    p: ProvisionPhase,
    e: ProvisionEvent,
    p2: ProvisionPhase,
    a: ProvisionAction,
    w: Option<Seq<char>>,
)
    requires
        fits(p, e),
        transition(p, e, p2, a, w),
    ensures
        a is QueryIp ==> (p2 matches ProvisionPhase::WaitingForIp { since } && (
        e matches ProvisionEvent::Slept { now } ==> elapsed(since, now) < IP_TIMEOUT_SECS)),
        (a is ProbeSsh && e is Slept) ==> (p2 matches ProvisionPhase::WaitingForSsh { since, .. } && (
        e matches ProvisionEvent::Slept { now } && elapsed(since, now) < SSH_TIMEOUT_SECS)),
        (a is ProbeSsh && e is CommandExited) ==> (e matches ProvisionEvent::CommandExited {
            stdout,
            ..
        } && (a matches ProvisionAction::ProbeSsh(ip) && domifaddr_ip(stdout@) == Some(ip@))),
{
}

/// A run completes only from the connecting phase, with the address it
/// connected to, and only fails on a reported failure, a failed disk
/// creation or a timeout.
pub proof fn lemma_outcomes(
    p: ProvisionPhase,
    e: ProvisionEvent,
    p2: ProvisionPhase,
    a: ProvisionAction,
    w: Option<Seq<char>>,
)
    requires
        fits(p, e),
        transition(p, e, p2, a, w),
    ensures
        a matches ProvisionAction::Complete(ip) ==> (p matches ProvisionPhase::Connecting { ip: c }
            && c@ == ip@),
        p2 is Failed <==> a is Abort,
        a is Abort ==> (e is Failed || p is CreatingDisk || e is Slept),
        w is Some ==> p is Installing,
{
}

} // verus!
