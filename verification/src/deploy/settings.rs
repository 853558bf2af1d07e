//! The deployment tool's saved settings.

use vstd::prelude::*;
use crate::deploy::vm::{opt_text, records, VmInfo, VmRecord};
use vstd::string::StringExecFns;
use crate::text::{join, join_path};

verus! {

/// User preferences.
#[derive(Debug, Clone, Copy, PartialEq, Eq, Structural)]
pub struct Preferences {
    /// Restart the portal after deploying.
    pub auto_restart: bool,
    /// Follow the logs after deploying.
    pub monitor_logs: bool,
}

/// Saved settings: the last VM used, the VMs found, the preferences.
#[derive(Debug, Clone)]
pub struct Config {
    /// The VM used last, if any.
    pub last_vm: Option<VmInfo>,
    /// VMs found by discovery.
    pub discovered_vms: Vec<VmInfo>,
    /// Preferences.
    pub preferences: Preferences,
}

/// Whether `c` holds the defaults: no last VM, no VMs, all preferences off.
pub open spec fn is_default_settings(c: Config) -> bool {
    &&& c.last_vm is None
    &&& c.discovered_vms@.len() == 0
    &&& !c.preferences.auto_restart
    &&& !c.preferences.monitor_logs
}

impl Default for Config {
    fn default() -> (r: Config)
        ensures
            is_default_settings(r),
    {
        Config {
            last_vm: None,
            discovered_vms: Vec::new(),
            preferences: Preferences { auto_restart: false, monitor_logs: false },
        }
    }
}

impl Config {
    /// Forgets everything saved: back to the defaults.
    pub fn reset(&mut self)
        ensures
            is_default_settings(*final(self)),
    {
        *self = Config::default();
    }

    /// Records the VMs found by a discovery.
    pub fn remember_discovered(&mut self, vms: Vec<VmInfo>)
        ensures
            records(final(self).discovered_vms@) == records(vms@),
            final(self).last_vm == old(self).last_vm,
            final(self).preferences == old(self).preferences,
    {
        self.discovered_vms = vms;
    }

    /// Records the VM deployed to.
    pub fn remember_last(&mut self, vm: VmInfo)
        ensures
            final(self).last_vm == Some(vm),
            final(self).discovered_vms == old(self).discovered_vms,
            final(self).preferences == old(self).preferences,
    {
        self.last_vm = Some(vm);
    }
}

/// The VM to deploy to: the one given by address (named `manual`, with
/// the given user), else the last one used, else the first discovered;
/// none when nothing is known.
pub open spec fn target_choice(
    c: Config,
    ip: Option<Seq<char>>,
    user: Option<Seq<char>>,
) -> Option<VmRecord> {
    match ip {
        Some(a) => Some(
            VmRecord { name: "manual"@, ip: a, discovery_method: "manual"@, username: user },
        ),
        None => match c.last_vm {
            Some(v) => Some(v@),
            None => if c.discovered_vms@.len() > 0 {
                Some(c.discovered_vms@[0]@)
            } else {
                None
            },
        },
    }
}

impl Config {
    /// The VM to deploy to (see [`target_choice`]).
    pub fn choose_target(&self, ip: Option<String>, user: Option<String>) -> (r: Option<VmInfo>)
        ensures
            match target_choice(*self, opt_text(ip), opt_text(user)) {
                Some(v) => r matches Some(t) && t@ == v,
                None => r is None,
            },
    {
        match ip {
            Some(a) => Some(
                VmInfo {
                    name: String::from_str("manual"),
                    ip: a,
                    discovery_method: String::from_str("manual"),
                    username: user,
                },
            ),
            None => match &self.last_vm {
                Some(v) => Some(v.duplicate()),
                None => if self.discovered_vms.len() > 0 {
                    Some(self.discovered_vms[0].duplicate())
                } else {
                    None
                },
            },
        }
    }
}

/// The user to test a connection as: the given one, else the login name
/// from the environment (`USER`, then `USERNAME`), else `ubuntu`.
pub fn connection_user(user: Option<&str>, env_user: Option<&str>, env_username: Option<&str>) -> (r:
    String)
    ensures
        r@ == match (user, env_user, env_username) {
            (Some(u), _, _) => u@,
            (None, Some(u), _) => u@,
            (None, None, Some(u)) => u@,
            (None, None, None) => "ubuntu"@,
        },
{
    match (user, env_user, env_username) {
        (Some(u), _, _) => String::from_str(u),
        (None, Some(u), _) => String::from_str(u),
        (None, None, Some(u)) => String::from_str(u),
        (None, None, None) => String::from_str("ubuntu"),
    }
}

/// The settings file under the home directory `home`.
pub fn config_path(home: &str) -> (r: String)
    ensures
        r@ == join_path(home@, ".config/ionChannel/deploy.toml"@),
{
    join(home, ".config/ionChannel/deploy.toml")
}

} // verus!
