//! Cloud-init configuration for autonomous VM provisioning.

use vstd::prelude::*;
use crate::text::concat2;
use vstd::string::StringExecFns;

verus! {

/// The texts of a list of strings.
pub open spec fn texts(v: Seq<String>) -> Seq<Seq<char>> {
    v.map_values(|s: String| s@)
}

/// A user to create on the VM.
#[derive(Debug, Clone)]
pub struct CloudInitUser {
    /// User name.
    pub name: String,
    /// Groups, if any.
    pub groups: Option<Vec<String>>,
    /// Sudo rule, if any.
    pub sudo: Option<String>,
    /// Login shell, if any.
    pub shell: Option<String>,
    /// Authorised SSH keys.
    pub ssh_authorized_keys: Vec<String>,
    /// Whether the password is locked.
    pub lock_passwd: Option<bool>,
}

/// A file to write on the VM.
#[derive(Debug, Clone)]
pub struct CloudInitFile {
    /// Path.
    pub path: String,
    /// Content.
    pub content: String,
    /// Octal permissions such as `"0644"`, if any.
    pub permissions: Option<String>,
    /// Owner, if any.
    pub owner: Option<String>,
}

/// Cloud-init user data.
#[derive(Debug, Clone)]
pub struct CloudInitConfig {
    /// Host name.
    pub hostname: Option<String>,
    /// Fully qualified domain name.
    pub fqdn: Option<String>,
    /// Users to create.
    pub users: Vec<CloudInitUser>,
    /// Packages to install.
    pub packages: Vec<String>,
    /// Commands to run on first boot.
    pub runcmd: Vec<String>,
    /// Files to write.
    pub write_files: Vec<CloudInitFile>,
    /// Whether SSH password authentication is allowed.
    pub ssh_pwauth: bool,
    /// Whether packages are updated on first boot.
    pub package_update: bool,
    /// Whether packages are upgraded on first boot.
    pub package_upgrade: bool,
}

/// The packages every configuration installs.
pub open spec fn default_packages() -> Seq<Seq<char>> {
    seq!["openssh-server"@, "python3"@, "curl"@, "wget"@]
}

/// The commands every configuration runs.
pub open spec fn default_runcmd() -> Seq<Seq<char>> {
    seq!["systemctl enable ssh"@, "systemctl start ssh"@]
}

/// Whether `u` is the user `add_user` creates for `name` with `keys`:
/// groups sudo and docker, password-less sudo, bash, password locked.
pub open spec fn is_provisioning_user(u: CloudInitUser, name: Seq<char>, keys: Seq<Seq<char>>) -> bool {
    &&& u.name@ == name
    &&& u.groups matches Some(g) && texts(g@) == seq!["sudo"@, "docker"@]
    &&& u.sudo matches Some(s) && s@ == "ALL=(ALL) NOPASSWD:ALL"@
    &&& u.shell matches Some(s) && s@ == "/bin/bash"@
    &&& texts(u.ssh_authorized_keys@) == keys
    &&& u.lock_passwd == Some(true)
}

/// Builds cloud-init configurations.
#[derive(Debug, Clone)]
pub struct CloudInitBuilder {
    config: CloudInitConfig,
}

fn string_vec2(a: &str, b: &str) -> (r: Vec<String>)
    ensures
        texts(r@) == seq![a@, b@],
        r@.len() == 2,
        r@[0]@ == a@,
        r@[1]@ == b@,
{
    let mut v = Vec::new();
    v.push(String::from_str(a));
    v.push(String::from_str(b));
    assert(texts(v@) =~= seq![a@, b@]);
    v
}

impl CloudInitBuilder {
    /// The configuration being built.
    pub closed spec fn spec_config(&self) -> CloudInitConfig {
        self.config
    }

    /// A builder with the defaults: no host name or users; packages
    /// openssh-server, python3, curl, wget; SSH enabled and started on first
    /// boot; key-only SSH; package update without upgrade.
    pub fn new() -> (r: CloudInitBuilder)
        ensures
            r.spec_config().hostname is None,
            r.spec_config().fqdn is None,
            r.spec_config().users@.len() == 0,
            texts(r.spec_config().packages@) == default_packages(),
            texts(r.spec_config().runcmd@) == default_runcmd(),
            r.spec_config().write_files@.len() == 0,
            !r.spec_config().ssh_pwauth,
            r.spec_config().package_update,
            !r.spec_config().package_upgrade,
    {
        let mut packages = string_vec2("openssh-server", "python3");
        let ghost p0 = packages@;
        let curl = String::from_str("curl");
        let wget = String::from_str("wget");
        packages.push(curl);
        packages.push(wget);
        let runcmd = string_vec2("systemctl enable ssh", "systemctl start ssh");
        proof {
            assert(packages@ == p0.push(curl).push(wget));
            assert(texts(packages@) =~= default_packages());
        }
        CloudInitBuilder {
            config: CloudInitConfig {
                hostname: None,
                fqdn: None,
                users: Vec::new(),
                packages,
                runcmd,
                write_files: Vec::new(),
                ssh_pwauth: false,
                package_update: true,
                package_upgrade: false,
            },
        }
    }

    /// Sets the host name, and the FQDN to `<hostname>.local`.
    pub fn hostname(self, hostname: &str) -> (r: CloudInitBuilder)
        ensures
            r.spec_config().hostname matches Some(h) && h@ == hostname@,
            r.spec_config().fqdn matches Some(f) && f@ == hostname@ + ".local"@,
            r.spec_config().users == self.spec_config().users,
            r.spec_config().packages == self.spec_config().packages,
            r.spec_config().runcmd == self.spec_config().runcmd,
            r.spec_config().write_files == self.spec_config().write_files,
            r.spec_config().ssh_pwauth == self.spec_config().ssh_pwauth,
            r.spec_config().package_update == self.spec_config().package_update,
            r.spec_config().package_upgrade == self.spec_config().package_upgrade,
    {
        let mut b = self;
        b.config.fqdn = Some(concat2(hostname, ".local"));
        b.config.hostname = Some(String::from_str(hostname));
        b
    }

    /// Adds a user reachable with `ssh_public_keys` (see
    /// [`is_provisioning_user`]).
    pub fn add_user(self, username: &str, ssh_public_keys: Vec<String>) -> (r: CloudInitBuilder)
        ensures
            r.spec_config().users@.len() == self.spec_config().users@.len() + 1,
            r.spec_config().users@.drop_last() == self.spec_config().users@,
            is_provisioning_user(
                r.spec_config().users@.last(),
                username@,
                texts(ssh_public_keys@),
            ),
            r.spec_config().hostname == self.spec_config().hostname,
            r.spec_config().fqdn == self.spec_config().fqdn,
            r.spec_config().packages == self.spec_config().packages,
            r.spec_config().runcmd == self.spec_config().runcmd,
            r.spec_config().write_files == self.spec_config().write_files,
            r.spec_config().ssh_pwauth == self.spec_config().ssh_pwauth,
            r.spec_config().package_update == self.spec_config().package_update,
            r.spec_config().package_upgrade == self.spec_config().package_upgrade,
    {
        let mut b = self;
        let ghost before = b.config.users@;
        let user = CloudInitUser {
            name: String::from_str(username),
            groups: Some(string_vec2("sudo", "docker")),
            sudo: Some(String::from_str("ALL=(ALL) NOPASSWD:ALL")),
            shell: Some(String::from_str("/bin/bash")),
            ssh_authorized_keys: ssh_public_keys,
            lock_passwd: Some(true),
        };
        b.config.users.push(user);
        assert(b.config.users@.drop_last() =~= before);
        b
    }

    /// Adds packages to install, after those already listed.
    pub fn add_packages(self, packages: Vec<String>) -> (r: CloudInitBuilder)
        ensures
            r.spec_config().packages@ == self.spec_config().packages@ + packages@,
            r.spec_config().hostname == self.spec_config().hostname,
            r.spec_config().fqdn == self.spec_config().fqdn,
            r.spec_config().users == self.spec_config().users,
            r.spec_config().runcmd == self.spec_config().runcmd,
            r.spec_config().write_files == self.spec_config().write_files,
            r.spec_config().ssh_pwauth == self.spec_config().ssh_pwauth,
            r.spec_config().package_update == self.spec_config().package_update,
            r.spec_config().package_upgrade == self.spec_config().package_upgrade,
    {
        let mut b = self;
        let mut more = packages;
        b.config.packages.append(&mut more);
        b
    }

    /// Adds first-boot commands, after those already listed.
    pub fn add_runcmd(self, commands: Vec<String>) -> (r: CloudInitBuilder)
        ensures
            r.spec_config().runcmd@ == self.spec_config().runcmd@ + commands@,
            r.spec_config().hostname == self.spec_config().hostname,
            r.spec_config().fqdn == self.spec_config().fqdn,
            r.spec_config().users == self.spec_config().users,
            r.spec_config().packages == self.spec_config().packages,
            r.spec_config().write_files == self.spec_config().write_files,
            r.spec_config().ssh_pwauth == self.spec_config().ssh_pwauth,
            r.spec_config().package_update == self.spec_config().package_update,
            r.spec_config().package_upgrade == self.spec_config().package_upgrade,
    {
        let mut b = self;
        let mut more = commands;
        b.config.runcmd.append(&mut more);
        b
    }

    /// Adds a file to write.
    pub fn add_file(self, file: CloudInitFile) -> (r: CloudInitBuilder)
        ensures
            r.spec_config().write_files@ == self.spec_config().write_files@.push(file),
            r.spec_config().hostname == self.spec_config().hostname,
            r.spec_config().fqdn == self.spec_config().fqdn,
            r.spec_config().users == self.spec_config().users,
            r.spec_config().packages == self.spec_config().packages,
            r.spec_config().runcmd == self.spec_config().runcmd,
            r.spec_config().ssh_pwauth == self.spec_config().ssh_pwauth,
            r.spec_config().package_update == self.spec_config().package_update,
            r.spec_config().package_upgrade == self.spec_config().package_upgrade,
    {
        let mut b = self;
        b.config.write_files.push(file);
        b
    }

    /// Allows or forbids SSH password authentication.
    pub fn enable_password_auth(self, enable: bool) -> (r: CloudInitBuilder)
        ensures
            r.spec_config().ssh_pwauth == enable,
            r.spec_config().hostname == self.spec_config().hostname,
            r.spec_config().fqdn == self.spec_config().fqdn,
            r.spec_config().users == self.spec_config().users,
            r.spec_config().packages == self.spec_config().packages,
            r.spec_config().runcmd == self.spec_config().runcmd,
            r.spec_config().write_files == self.spec_config().write_files,
            r.spec_config().package_update == self.spec_config().package_update,
            r.spec_config().package_upgrade == self.spec_config().package_upgrade,
    {
        let mut b = self;
        b.config.ssh_pwauth = enable;
        b
    }

    /// Turns the first-boot package upgrade on or off.
    pub fn enable_package_upgrade(self, enable: bool) -> (r: CloudInitBuilder)
        ensures
            r.spec_config().package_upgrade == enable,
            r.spec_config().hostname == self.spec_config().hostname,
            r.spec_config().fqdn == self.spec_config().fqdn,
            r.spec_config().users == self.spec_config().users,
            r.spec_config().packages == self.spec_config().packages,
            r.spec_config().runcmd == self.spec_config().runcmd,
            r.spec_config().write_files == self.spec_config().write_files,
            r.spec_config().ssh_pwauth == self.spec_config().ssh_pwauth,
            r.spec_config().package_update == self.spec_config().package_update,
    {
        let mut b = self;
        b.config.package_upgrade = enable;
        b
    }

    /// The configuration.
    pub fn build(self) -> (r: CloudInitConfig)
        ensures
            r == self.spec_config(),
    {
        self.config
    }

    /// The configuration, without consuming the builder.
    pub fn config(&self) -> (r: &CloudInitConfig)
        ensures
            *r == self.spec_config(),
    {
        &self.config
    }
}

impl Default for CloudInitBuilder {
    fn default() -> (r: CloudInitBuilder)
        ensures
            r.spec_config().hostname is None,
            r.spec_config().users@.len() == 0,
            texts(r.spec_config().packages@) == default_packages(),
            !r.spec_config().ssh_pwauth,
            r.spec_config().package_update,
            !r.spec_config().package_upgrade,
    {
        CloudInitBuilder::new()
    }
}

/// The first line of cloud-config user data.
pub fn cloud_config_header() -> (r: &'static str)
    ensures
        r@ == "#cloud-config\n"@,
{
    "#cloud-config\n"
}

/// User data: the cloud-config header followed by the YAML document.
pub fn user_data(yaml: &str) -> (r: String)
    ensures
        r@ == "#cloud-config\n"@ + yaml@,
{
    concat2("#cloud-config\n", yaml)
}

/// Cloud-init meta-data naming the instance and its local host name:
/// `instance-id: <id>\nlocal-hostname: <id>\n`.
pub fn meta_data(instance_id: &str) -> (r: String)
    ensures
        r@ == "instance-id: "@ + instance_id@ + "\nlocal-hostname: "@ + instance_id@ + "\n"@,
{
    let mut s = concat2("instance-id: ", instance_id);
    s.append("\nlocal-hostname: ");
    s.append(instance_id);
    s.append("\n");
    s
}

} // verus!
