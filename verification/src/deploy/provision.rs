//! Unattended VM provisioning: the configuration, the files and commands
//! it involves, and reading the VM's address from libvirt.

use vstd::prelude::*;
use vstd::string::StringExecFns;
use crate::deploy::cloud_init::{
    default_packages, default_runcmd, is_provisioning_user, texts, CloudInitBuilder,
    CloudInitConfig,
};
use crate::deploy::keys::SshKeyManager;
use crate::text::{
    before_char, concat2, concat3, decimal, decimal_string, join, join_path, lines, seq_contains,
    split_lines, split_words, text_before, words, contains_str,
};

verus! {

/// How to provision a VM.
#[derive(Debug, Clone)]
pub struct AutonomousProvisionConfig {
    /// VM name.
    pub vm_name: String,
    /// Base image path (a cloud-init enabled image).
    pub base_image: String,
    /// RAM in MB.
    pub ram_mb: u32,
    /// Virtual CPUs.
    pub vcpus: u32,
    /// Disk size in GB.
    pub disk_gb: u32,
    /// User to create.
    pub username: String,
    /// SSH port.
    pub ssh_port: u16,
    /// libvirt network name.
    pub network: String,
    /// Extra packages to install.
    pub packages: Vec<String>,
    /// Working directory for generated files.
    pub work_dir: String,
}

/// The base image used unless another is given.
pub open spec fn default_base_image() -> Seq<char> {
    "/var/lib/libvirt/images/ubuntu-22.04-server-cloudimg-amd64.img"@
}

/// Whether `c` is the default configuration with working directory
/// `work_dir`: VM `autonomous-test-vm`, the default base image, 4096 MB,
/// 2 CPUs, 20 GB, user `ubuntu`, port 22, network `default`, no extra
/// packages.
pub open spec fn is_default_config(c: AutonomousProvisionConfig, work_dir: Seq<char>) -> bool {
    &&& c.vm_name@ == "autonomous-test-vm"@
    &&& c.base_image@ == default_base_image()
    &&& c.ram_mb == 4096
    &&& c.vcpus == 2
    &&& c.disk_gb == 20
    &&& c.username@ == "ubuntu"@
    &&& c.ssh_port == 22
    &&& c.network@ == "default"@
    &&& c.packages@.len() == 0
    &&& c.work_dir@ == work_dir
}

/// The working directory under the temporary directory `temp_root`.
pub fn default_work_dir(temp_root: &str) -> (r: String)
    ensures
        r@ == join_path(temp_root@, "ionChannel-autonomous"@),
{
    join(temp_root, "ionChannel-autonomous")
}

impl AutonomousProvisionConfig {
    /// The default configuration, working in `work_dir`.
    pub fn with_work_dir(work_dir: &str) -> (r: AutonomousProvisionConfig)
        ensures
            is_default_config(r, work_dir@),
    {
        AutonomousProvisionConfig {
            vm_name: String::from_str("autonomous-test-vm"),
            base_image: String::from_str(
                "/var/lib/libvirt/images/ubuntu-22.04-server-cloudimg-amd64.img",
            ),
            ram_mb: 4096,
            vcpus: 2,
            disk_gb: 20,
            username: String::from_str("ubuntu"),
            ssh_port: 22,
            network: String::from_str("default"),
            packages: Vec::new(),
            work_dir: String::from_str(work_dir),
        }
    }

    /// The cloud-init user-data file.
    pub fn user_data_path(&self) -> (r: String)
        ensures
            r@ == join_path(self.work_dir@, "user-data"@),
    {
        join(self.work_dir.as_str(), "user-data")
    }

    /// The cloud-init meta-data file.
    pub fn meta_data_path(&self) -> (r: String)
        ensures
            r@ == join_path(self.work_dir@, "meta-data"@),
    {
        join(self.work_dir.as_str(), "meta-data")
    }

    /// The cloud-init ISO image.
    pub fn cloud_init_iso_path(&self) -> (r: String)
        ensures
            r@ == join_path(self.work_dir@, "cloud-init.iso"@),
    {
        join(self.work_dir.as_str(), "cloud-init.iso")
    }

    /// The VM's disk image, `<vm_name>.qcow2` in the working directory.
    pub fn vm_disk_path(&self) -> (r: String)
        ensures
            r@ == join_path(self.work_dir@, self.vm_name@ + ".qcow2"@),
    {
        let name = concat2(self.vm_name.as_str(), ".qcow2");
        join(self.work_dir.as_str(), name.as_str())
    }
}

/// The arguments of `qemu-img` that create the VM disk as a qcow2 overlay
/// of the base image.
pub open spec fn qemu_img_arguments(base_image: Seq<char>, disk: Seq<char>, disk_gb: nat) -> Seq<
    Seq<char>,
> {
    seq![
        "create"@,
        "-f"@,
        "qcow2"@,
        "-F"@,
        "qcow2"@,
        "-b"@,
        base_image,
        disk,
        decimal(disk_gb) + "G"@,
    ]
}

/// The arguments of `virt-install` that boot the VM from its disk with
/// the cloud-init ISO attached, headless.
pub open spec fn virt_install_arguments(
    c: AutonomousProvisionConfig,
    disk: Seq<char>,
    iso: Seq<char>,
) -> Seq<Seq<char>> {
    seq![
        "--name"@,
        c.vm_name@,
        "--ram"@,
        decimal(c.ram_mb as nat),
        "--vcpus"@,
        decimal(c.vcpus as nat),
        "--disk"@,
        "path="@ + disk + ",format=qcow2"@,
        "--disk"@,
        "path="@ + iso + ",device=cdrom"@,
        "--os-variant"@,
        "ubuntu22.04"@,
        "--network"@,
        "network="@ + c.network@,
        "--graphics"@,
        "none"@,
        "--noautoconsole"@,
        "--import"@,
    ]
}

/// The texts of a list of arguments.
pub open spec fn arg_texts(v: Seq<String>) -> Seq<Seq<char>> {
    v.map_values(|a: String| a@)
}

/// The `qemu-img` arguments for `config`'s disk at `disk`.
pub fn qemu_img_args(config: &AutonomousProvisionConfig, disk: &str) -> (r: Vec<String>)
    ensures
        arg_texts(r@) == qemu_img_arguments(config.base_image@, disk@, config.disk_gb as nat),
{
    let mut v: Vec<String> = Vec::new();
    v.push(String::from_str("create"));
    v.push(String::from_str("-f"));
    v.push(String::from_str("qcow2"));
    v.push(String::from_str("-F"));
    v.push(String::from_str("qcow2"));
    v.push(String::from_str("-b"));
    v.push(config.base_image.clone());
    v.push(String::from_str(disk));
    let mut size = decimal_string(config.disk_gb as u64);
    size.append("G");
    v.push(size);
    assert(arg_texts(v@) =~= qemu_img_arguments(config.base_image@, disk@, config.disk_gb as nat));
    v
}

/// The `virt-install` arguments for `config` with its disk and ISO.
pub fn virt_install_args(config: &AutonomousProvisionConfig, disk: &str, iso: &str) -> (r: Vec<
    String,
>)
    ensures
        arg_texts(r@) == virt_install_arguments(*config, disk@, iso@),
{
    let mut v: Vec<String> = Vec::new();
    v.push(String::from_str("--name"));
    v.push(config.vm_name.clone());
    v.push(String::from_str("--ram"));
    v.push(decimal_string(config.ram_mb as u64));
    v.push(String::from_str("--vcpus"));
    v.push(decimal_string(config.vcpus as u64));
    v.push(String::from_str("--disk"));
    v.push(concat3("path=", disk, ",format=qcow2"));
    v.push(String::from_str("--disk"));
    v.push(concat3("path=", iso, ",device=cdrom"));
    v.push(String::from_str("--os-variant"));
    v.push(String::from_str("ubuntu22.04"));
    v.push(String::from_str("--network"));
    v.push(concat2("network=", config.network.as_str()));
    v.push(String::from_str("--graphics"));
    v.push(String::from_str("none"));
    v.push(String::from_str("--noautoconsole"));
    v.push(String::from_str("--import"));
    assert(arg_texts(v@) =~= virt_install_arguments(*config, disk@, iso@));
    v
}

/// The arguments of `genisoimage` that pack the user data and meta-data
/// into the `cidata` ISO cloud-init reads.
pub fn genisoimage_args(iso: &str, user_data: &str, meta_data: &str) -> (r: Vec<String>)
    ensures
        arg_texts(r@) == seq![
            "-output"@,
            iso@,
            "-volid"@,
            "cidata"@,
            "-joliet"@,
            "-rock"@,
            user_data@,
            meta_data@,
        ],
{
    let mut v: Vec<String> = Vec::new();
    v.push(String::from_str("-output"));
    v.push(String::from_str(iso));
    v.push(String::from_str("-volid"));
    v.push(String::from_str("cidata"));
    v.push(String::from_str("-joliet"));
    v.push(String::from_str("-rock"));
    v.push(String::from_str(user_data));
    v.push(String::from_str(meta_data));
    proof {
        assert(arg_texts(v@) =~= seq![
            "-output"@,
            iso@,
            "-volid"@,
            "cidata"@,
            "-joliet"@,
            "-rock"@,
            user_data@,
            meta_data@,
        ]);
    }
    v
}

/// The `virsh` arguments that list the VM's addresses from DHCP leases.
pub fn domifaddr_args(vm_name: &str) -> (r: Vec<String>)
    ensures
        arg_texts(r@) == seq!["domifaddr"@, vm_name@, "--source"@, "lease"@],
{
    let mut v: Vec<String> = Vec::new();
    v.push(String::from_str("domifaddr"));
    v.push(String::from_str(vm_name));
    v.push(String::from_str("--source"));
    v.push(String::from_str("lease"));
    assert(arg_texts(v@) =~= seq!["domifaddr"@, vm_name@, "--source"@, "lease"@]);
    v
}

/// The `virsh` argument lists that stop the VM and then remove it with its
/// storage.
pub fn destroy_args(vm_name: &str) -> (r: (Vec<String>, Vec<String>))
    ensures
        arg_texts(r.0@) == seq!["destroy"@, vm_name@],
        arg_texts(r.1@) == seq!["undefine"@, vm_name@, "--remove-all-storage"@],
{
    let mut a: Vec<String> = Vec::new();
    a.push(String::from_str("destroy"));
    a.push(String::from_str(vm_name));
    let mut b: Vec<String> = Vec::new();
    b.push(String::from_str("undefine"));
    b.push(String::from_str(vm_name));
    b.push(String::from_str("--remove-all-storage"));
    assert(arg_texts(a@) =~= seq!["destroy"@, vm_name@]);
    assert(arg_texts(b@) =~= seq!["undefine"@, vm_name@, "--remove-all-storage"@]);
    (a, b)
}

/// The first line of `ls` that contains `needle`.
pub open spec fn first_line_containing(ls: Seq<Seq<char>>, needle: Seq<char>) -> Option<Seq<char>>
    decreases ls.len(),
{
    if ls.len() == 0 {
        None
    } else if seq_contains(ls[0], needle) {
        Some(ls[0])
    } else {
        first_line_containing(ls.drop_first(), needle)
    }
}

/// The VM address in the output of `virsh domifaddr`: on the first line
/// mentioning `ipv4`, the fourth word without its `/prefix` length; none
/// when no line mentions `ipv4` or that line has fewer than four words.
pub open spec fn domifaddr_ip(output: Seq<char>) -> Option<Seq<char>> {
    match first_line_containing(lines(output), "ipv4"@) {
        None => None,
        Some(line) => if words(line).len() > 3 {
            Some(before_char(words(line)[3], '/'))
        } else {
            None
        },
    }
}

/// The VM address in the output of `virsh domifaddr` (see [`domifaddr_ip`]).
pub fn ip_from_domifaddr(output: &str) -> (r: Option<String>)
    ensures
        match r {
            Some(ip) => domifaddr_ip(output@) == Some(ip@),
            None => domifaddr_ip(output@) is None,
        },
{
    let all = split_lines(output);
    let ghost ls = all@.map_values(|l: String| l@);
    let mut i: usize = 0;
    assert(ls.skip(0) =~= ls);
    while i < all.len()
        invariant
            ls == all@.map_values(|l: String| l@),
            ls == lines(output@),
            i <= all@.len(),
            first_line_containing(ls, "ipv4"@) == first_line_containing(ls.skip(i as int), "ipv4"@),
        decreases all@.len() - i,
    {
        assert(ls.skip(i as int)[0] == ls[i as int]);
        if contains_str(all[i].as_str(), "ipv4") {
            let ws = split_words(all[i].as_str());
            if ws.len() > 3 {
                assert(ws@.map_values(|w: String| w@)[3] == ws@[3]@);
                return Some(text_before(ws[3].as_str(), '/'));
            } else {
                return None;
            }
        }
        assert(ls.skip(i as int).drop_first() =~= ls.skip(i + 1));
        i = i + 1;
    }
    None
}

/// The cloud-init configuration for `config`, authorising `public_key`.
pub open spec fn provisioning_cloud_config(
    r: CloudInitConfig,
    config: AutonomousProvisionConfig,
    public_key: Seq<char>,
) -> bool {
    &&& r.hostname matches Some(h) && h@ == config.vm_name@
    &&& r.fqdn matches Some(f) && f@ == config.vm_name@ + ".local"@
    &&& r.users@.len() == 1
    &&& is_provisioning_user(r.users@[0], config.username@, seq![public_key])
    &&& texts(r.packages@) == default_packages() + texts(config.packages@)
    &&& texts(r.runcmd@) == default_runcmd()
    &&& r.write_files@.len() == 0
    &&& !r.ssh_pwauth
    &&& r.package_update
    &&& !r.package_upgrade
}

/// A VM provisioner.
#[derive(Debug)]
pub struct AutonomousProvisioner {
    config: AutonomousProvisionConfig,
    keys: SshKeyManager,
}

impl AutonomousProvisioner {
    /// Its configuration.
    pub closed spec fn spec_config(&self) -> AutonomousProvisionConfig {
        self.config
    }

    /// Its key manager.
    pub closed spec fn spec_keys(&self) -> SshKeyManager {
        self.keys
    }

    /// A provisioner for `config`, generating keys with `keys`.
    pub fn new(config: AutonomousProvisionConfig, keys: SshKeyManager) -> (r: AutonomousProvisioner)
        ensures
            r.spec_config() == config,
            r.spec_keys() == keys,
    {
        AutonomousProvisioner { config, keys }
    }

    /// Its configuration.
    pub fn config(&self) -> (r: &AutonomousProvisionConfig)
        ensures
            *r == self.spec_config(),
    {
        &self.config
    }

    /// Its key manager.
    pub fn keys(&self) -> (r: &SshKeyManager)
        ensures
            *r == self.spec_keys(),
    {
        &self.keys
    }

    /// The cloud-init user data for the VM: host name from the VM name,
    /// the configured user reachable with `public_key`, the default
    /// packages followed by the configured ones.
    pub fn cloud_config(&self, public_key: &str) -> (r: CloudInitConfig)
        ensures
            provisioning_cloud_config(r, self.spec_config(), public_key@),
    {
        let mut keys: Vec<String> = Vec::new();
        keys.push(String::from_str(public_key));
        let ghost kv = keys@;
        let packages = self.config.packages.clone();
        assert(packages@ == self.config.packages@);
        let b0 = CloudInitBuilder::new();
        let b1 = b0.hostname(self.config.vm_name.as_str());
        let b2 = b1.add_user(self.config.username.as_str(), keys);
        let b3 = b2.add_packages(packages);
        let r = b3.build();
        proof {
            assert(texts(kv) =~= seq![public_key@]);
            assert(r.users@.drop_last().len() == 0);
            assert(texts(r.packages@) =~= texts(b0.spec_config().packages@) + texts(
                self.config.packages@,
            ));
        }
        r
    }
}

} // verus!
