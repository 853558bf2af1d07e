use ion_channel::deploy::flow::{ProvisionAction, ProvisionEvent, ProvisionPhase, ProvisionRun};
use ion_channel::deploy::cloud_init::{
    cloud_config_header, meta_data, user_data, CloudInitBuilder, CloudInitFile,
};
use ion_channel::deploy::commands::{
    check_build_output, check_verification_output, deployment_plan, files_to_transfer,
    in_dir_command, login_user, make_dir_command, remote_build_command, remote_file_path,
    remote_install_command, verify_command, DeployError, DeployStep, DeploymentConfig,
};
use ion_channel::deploy::keys::{agent_keys_from_output, SshKeyManager};
use ion_channel::deploy::provision::{
    default_work_dir, destroy_args, domifaddr_args, genisoimage_args, ip_from_domifaddr, qemu_img_args,
    virt_install_args, AutonomousProvisionConfig, AutonomousProvisioner,
};
use ion_channel::deploy::settings::{config_path, connection_user, Config};
use ion_channel::deploy::ssh::{
    check_transfer_status, default_key_files, remote_write_command, select_ssh_port,
    ssh_port_candidates, transfer_ready, SshCapabilities, TransferError,
};
use ion_channel::deploy::vm::{
    dedup_by_ip, is_vm_name, merge_discoveries, parse_ssh_config, VmDiscovery, VmInfo,
};
use ion_channel::text::{join, split_lines, split_words, text_before, truncate};

fn default_config() -> AutonomousProvisionConfig {
    AutonomousProvisionConfig::with_work_dir("/tmp/ionChannel-autonomous")
}

fn vm(name: &str, ip: &str, method: &str) -> VmInfo {
    VmInfo {
        name: name.to_string(),
        ip: ip.to_string(),
        discovery_method: method.to_string(),
        username: None,
    }
}

// ---------------------------------------------------------------- cloud-init

#[test]
fn test_cloud_init_builder() {
    let config = CloudInitBuilder::new()
        .hostname("test-vm")
        .add_user(
            "testuser",
            vec!["ssh-rsa AAAAB3NzaC1yc2EA... test@test".to_string()],
        )
        .add_packages(vec!["git".to_string()])
        .add_runcmd(vec!["echo 'Hello World'".to_string()])
        .build();

    assert_eq!(config.hostname, Some("test-vm".to_string()));
    assert_eq!(config.users.len(), 1);
    assert!(config.packages.contains(&"git".to_string()));
}

#[test]
fn test_cloud_init_multiple_users() {
    let config = CloudInitBuilder::new()
        .hostname("multi-user-vm")
        .add_user("user1", vec!["key1".to_string()])
        .add_user("user2", vec!["key2".to_string()])
        .build();

    assert_eq!(config.users.len(), 2);
    assert_eq!(config.users[0].name, "user1");
    assert_eq!(config.users[1].name, "user2");
}

#[test]
fn test_cloud_init_defaults() {
    let config = CloudInitBuilder::new().build();

    assert!(config.package_update);
    assert!(!config.package_upgrade);
    assert!(!config.ssh_pwauth);
    assert!(config.packages.contains(&"openssh-server".to_string()));
    assert!(config.packages.contains(&"python3".to_string()));
}

#[test]
fn test_cloud_init_with_files() {
    let file = CloudInitFile {
        path: "/tmp/test.txt".to_string(),
        content: "Hello World".to_string(),
        permissions: Some("0644".to_string()),
        owner: Some("root:root".to_string()),
    };

    let config = CloudInitBuilder::new().add_file(file.clone()).build();

    assert_eq!(config.write_files.len(), 1);
    assert_eq!(config.write_files[0].path, "/tmp/test.txt");
    assert_eq!(config.write_files[0].content, "Hello World");
}

#[test]
fn test_cloud_init_hostname_sets_fqdn() {
    let config = CloudInitBuilder::new().hostname("myvm").build();

    assert_eq!(config.hostname, Some("myvm".to_string()));
    assert_eq!(config.fqdn, Some("myvm.local".to_string()));
}

#[test]
fn test_cloud_init_password_auth() {
    let config_disabled = CloudInitBuilder::new().build();
    assert!(!config_disabled.ssh_pwauth);

    let config_enabled = CloudInitBuilder::new().enable_password_auth(true).build();
    assert!(config_enabled.ssh_pwauth);
}

#[test]
fn test_cloud_init_package_upgrade() {
    let config_disabled = CloudInitBuilder::new().build();
    assert!(!config_disabled.package_upgrade);

    let config_enabled = CloudInitBuilder::new().enable_package_upgrade(true).build();
    assert!(config_enabled.package_upgrade);
}

#[test]
fn test_cloud_init_user_has_sudo() {
    let config = CloudInitBuilder::new()
        .add_user("admin", vec!["key".to_string()])
        .build();

    assert_eq!(config.users[0].sudo, Some("ALL=(ALL) NOPASSWD:ALL".to_string()));
    assert_eq!(config.users[0].lock_passwd, Some(true));
}

#[test]
fn test_cloud_init_default() {
    let builder1 = CloudInitBuilder::default();
    let builder2 = CloudInitBuilder::new();

    let config1 = builder1.build();
    let config2 = builder2.build();

    assert_eq!(config1.ssh_pwauth, config2.ssh_pwauth);
    assert_eq!(config1.package_update, config2.package_update);
}

#[test]
fn cloud_init_user_fields() {
    let config = CloudInitBuilder::new()
        .add_user("admin", vec!["k1".to_string(), "k2".to_string()])
        .build();
    let u = &config.users[0];
    assert_eq!(u.groups, Some(vec!["sudo".to_string(), "docker".to_string()]));
    assert_eq!(u.shell, Some("/bin/bash".to_string()));
    assert_eq!(u.ssh_authorized_keys, vec!["k1".to_string(), "k2".to_string()]);
}

#[test]
fn cloud_init_default_lists() {
    let config = CloudInitBuilder::new().build();
    assert_eq!(
        config.packages,
        vec!["openssh-server", "python3", "curl", "wget"]
    );
    assert_eq!(
        config.runcmd,
        vec!["systemctl enable ssh", "systemctl start ssh"]
    );
    assert!(config.hostname.is_none());
    assert!(config.fqdn.is_none());
    assert!(config.users.is_empty());
    assert!(config.write_files.is_empty());
}

#[test]
fn cloud_init_appends_in_order() {
    let config = CloudInitBuilder::new()
        .add_packages(vec!["git".to_string(), "vim".to_string()])
        .add_runcmd(vec!["reboot".to_string()])
        .build();
    assert_eq!(
        config.packages,
        vec!["openssh-server", "python3", "curl", "wget", "git", "vim"]
    );
    assert_eq!(
        config.runcmd,
        vec!["systemctl enable ssh", "systemctl start ssh", "reboot"]
    );
}

#[test]
fn cloud_init_config_without_consuming() {
    let b = CloudInitBuilder::new().hostname("h");
    assert_eq!(b.config().hostname, Some("h".to_string()));
    assert_eq!(b.build().fqdn, Some("h.local".to_string()));
}

#[test]
fn cloud_init_user_data_and_meta_data() {
    assert_eq!(cloud_config_header(), "#cloud-config\n");
    assert_eq!(user_data("hostname: a\n"), "#cloud-config\nhostname: a\n");
    let meta = meta_data("test-instance");
    assert_eq!(meta, "instance-id: test-instance\nlocal-hostname: test-instance\n");
    assert!(meta.contains("instance-id: test-instance"));
    assert!(meta.contains("local-hostname: test-instance"));
}

// ---------------------------------------------------------------- provisioning

#[test]
fn test_default_config() {
    let config = default_config();
    assert_eq!(config.username, "ubuntu");
    assert_eq!(config.ssh_port, 22);
    assert_eq!(config.ram_mb, 4096);
    assert_eq!(config.vcpus, 2);
    assert_eq!(config.disk_gb, 20);
    assert_eq!(config.network, "default");
}

#[test]
fn test_config_customization() {
    let config = AutonomousProvisionConfig {
        vm_name: "custom-vm".to_string(),
        ram_mb: 8192,
        vcpus: 4,
        disk_gb: 50,
        username: "admin".to_string(),
        ssh_port: 2222,
        packages: vec!["git".to_string(), "vim".to_string()],
        ..default_config()
    };

    assert_eq!(config.vm_name, "custom-vm");
    assert_eq!(config.ram_mb, 8192);
    assert_eq!(config.vcpus, 4);
    assert_eq!(config.disk_gb, 50);
    assert_eq!(config.username, "admin");
    assert_eq!(config.ssh_port, 2222);
    assert_eq!(config.packages.len(), 2);
}

#[test]
fn test_provisioner_creation() {
    let config = default_config();
    let provisioner =
        AutonomousProvisioner::new(config.clone(), SshKeyManager::in_temp_dir("/tmp"));

    assert_eq!(provisioner.config().vm_name, config.vm_name);
}

#[test]
fn test_config_base_image_path() {
    let config = default_config();

    assert!(config.base_image.contains("ubuntu"));
    assert!(config.base_image.contains("cloudimg"));
}

#[test]
fn test_config_with_custom_packages() {
    let packages = vec![
        "docker.io".to_string(),
        "build-essential".to_string(),
        "git".to_string(),
    ];

    let config = AutonomousProvisionConfig {
        packages: packages.clone(),
        ..default_config()
    };

    assert_eq!(config.packages, packages);
}

#[test]
fn test_config_clone() {
    let config1 = default_config();
    let config2 = config1.clone();

    assert_eq!(config1.vm_name, config2.vm_name);
    assert_eq!(config1.ram_mb, config2.ram_mb);
    assert_eq!(config1.username, config2.username);
}

#[test]
fn test_config_debug() {
    let config = default_config();
    let debug_str = format!("{:?}", config);

    assert!(debug_str.contains("AutonomousProvisionConfig"));
    assert!(debug_str.contains("vm_name"));
}

#[test]
fn provision_default_names() {
    let config = default_config();
    assert_eq!(config.vm_name, "autonomous-test-vm");
    assert_eq!(
        config.base_image,
        "/var/lib/libvirt/images/ubuntu-22.04-server-cloudimg-amd64.img"
    );
    assert!(config.packages.is_empty());
    assert_eq!(default_work_dir("/tmp"), "/tmp/ionChannel-autonomous");
    assert_eq!(default_work_dir("/tmp/"), "/tmp/ionChannel-autonomous");
}

#[test]
fn provision_paths() {
    let config = default_config();
    assert_eq!(config.user_data_path(), "/tmp/ionChannel-autonomous/user-data");
    assert_eq!(config.meta_data_path(), "/tmp/ionChannel-autonomous/meta-data");
    assert_eq!(
        config.cloud_init_iso_path(),
        "/tmp/ionChannel-autonomous/cloud-init.iso"
    );
    assert_eq!(
        config.vm_disk_path(),
        "/tmp/ionChannel-autonomous/autonomous-test-vm.qcow2"
    );
}

#[test]
fn provision_qemu_img_args() {
    let config = default_config();
    let args = qemu_img_args(&config, "/w/vm.qcow2");
    assert_eq!(
        args,
        vec![
            "create",
            "-f",
            "qcow2",
            "-F",
            "qcow2",
            "-b",
            "/var/lib/libvirt/images/ubuntu-22.04-server-cloudimg-amd64.img",
            "/w/vm.qcow2",
            "20G",
        ]
    );
}

#[test]
fn provision_virt_install_args() {
    let config = default_config();
    let args = virt_install_args(&config, "/w/d.qcow2", "/w/c.iso");
    assert_eq!(
        args,
        vec![
            "--name",
            "autonomous-test-vm",
            "--ram",
            "4096",
            "--vcpus",
            "2",
            "--disk",
            "path=/w/d.qcow2,format=qcow2",
            "--disk",
            "path=/w/c.iso,device=cdrom",
            "--os-variant",
            "ubuntu22.04",
            "--network",
            "network=default",
            "--graphics",
            "none",
            "--noautoconsole",
            "--import",
        ]
    );
}

#[test]
fn provision_virsh_args() {
    assert_eq!(domifaddr_args("vm1"), vec!["domifaddr", "vm1", "--source", "lease"]);
    let (stop, remove) = destroy_args("vm1");
    assert_eq!(stop, vec!["destroy", "vm1"]);
    assert_eq!(remove, vec!["undefine", "vm1", "--remove-all-storage"]);
}

#[test]
fn provision_ip_from_domifaddr() {
    let out = " Name       MAC address          Protocol     Address\n\
-------------------------------------------------------------------------------\n \
vnet0      52:54:00:12:34:56    ipv4         192.168.122.45/24\n";
    assert_eq!(ip_from_domifaddr(out), Some("192.168.122.45".to_string()));
    assert_eq!(ip_from_domifaddr("no address yet\n"), None);
    assert_eq!(ip_from_domifaddr("vnet0 ipv4\n"), None);
    assert_eq!(ip_from_domifaddr(""), None);
}

#[test]
fn provision_cloud_config() {
    let config = AutonomousProvisionConfig {
        packages: vec!["git".to_string()],
        ..default_config()
    };
    let p = AutonomousProvisioner::new(config, SshKeyManager::in_temp_dir("/tmp"));
    let c = p.cloud_config("ssh-ed25519 AAAA test");
    assert_eq!(c.hostname, Some("autonomous-test-vm".to_string()));
    assert_eq!(c.fqdn, Some("autonomous-test-vm.local".to_string()));
    assert_eq!(c.users.len(), 1);
    assert_eq!(c.users[0].name, "ubuntu");
    assert_eq!(c.users[0].ssh_authorized_keys, vec!["ssh-ed25519 AAAA test".to_string()]);
    assert_eq!(
        c.packages,
        vec!["openssh-server", "python3", "curl", "wget", "git"]
    );
    assert_eq!(p.keys().key_dir(), "/tmp/ionChannel-ssh-keys");
}

// ---------------------------------------------------------------- keys

#[test]
fn key_manager_paths() {
    let m = SshKeyManager::in_temp_dir("/tmp");
    assert_eq!(m.key_dir(), "/tmp/ionChannel-ssh-keys");
    assert_eq!(m.private_key_path("abc"), "/tmp/ionChannel-ssh-keys/id_ed25519_abc");
    assert_eq!(m.public_key_path("abc"), "/tmp/ionChannel-ssh-keys/id_ed25519_abc.pub");
    assert_eq!(
        m.keygen_args("abc"),
        vec![
            "-t",
            "ed25519",
            "-f",
            "/tmp/ionChannel-ssh-keys/id_ed25519_abc",
            "-N",
            "",
            "-C",
            "ionChannel-autonomous-abc",
        ]
    );
}

#[test]
fn agent_keys_skip_empty_lines() {
    let keys = agent_keys_from_output("ssh-ed25519 AAA a\n\nssh-rsa BBB b\n");
    assert_eq!(keys, vec!["ssh-ed25519 AAA a", "ssh-rsa BBB b"]);
    assert!(agent_keys_from_output("").is_empty());
}

// ---------------------------------------------------------------- discovery

#[test]
fn test_is_vm_name() {
    assert!(is_vm_name("pop-os-vm"));
    assert!(is_vm_name("my-virtual-machine"));
    assert!(is_vm_name("cosmic-test"));
    assert!(!is_vm_name("production-server"));
}

#[test]
fn vm_name_ignores_case() {
    assert!(is_vm_name("MyQEMU"));
    assert!(is_vm_name("KVM-host"));
    assert!(!is_vm_name("laptop"));
}

#[test]
fn parse_ssh_config_finds_vms() {
    let text = "Host pop-vm\n  HostName 192.168.122.10\n  User alice\n\
Host prod\n  HostName 10.0.0.1\n\
Host cosmic-test\n  HostName 192.168.122.11\n\
Host kvm-nohost\n  User bob\n";
    let vms = parse_ssh_config(text);
    assert_eq!(vms.len(), 2);
    assert_eq!(vms[0].name, "pop-vm");
    assert_eq!(vms[0].ip, "192.168.122.10");
    assert_eq!(vms[0].discovery_method, "ssh-config");
    assert_eq!(vms[0].username, Some("alice".to_string()));
    assert_eq!(vms[1].name, "cosmic-test");
    assert_eq!(vms[1].ip, "192.168.122.11");
    assert_eq!(vms[1].username, None);
}

#[test]
fn parse_ssh_config_last_block_without_newline() {
    let vms = parse_ssh_config("Host my-vm\nHostName 10.1.1.1");
    assert_eq!(vms.len(), 1);
    assert_eq!(vms[0].ip, "10.1.1.1");
    assert!(parse_ssh_config("").is_empty());
}

#[test]
fn dedup_keeps_first_of_each_address() {
    let vms = vec![
        vm("a", "10.0.0.1", "mdns"),
        vm("b", "10.0.0.2", "mdns"),
        vm("c", "10.0.0.1", "scan"),
    ];
    let out = dedup_by_ip(vms);
    assert_eq!(out.len(), 2);
    assert_eq!(out[0].name, "a");
    assert_eq!(out[1].name, "b");
}

#[test]
fn merge_discoveries_in_order() {
    let out = merge_discoveries(
        vec![vm("m", "10.0.0.5", "mdns")],
        vec![vm("s", "10.0.0.6", "ssh-config"), vm("s2", "10.0.0.5", "ssh-config")],
        vec![vm("n", "10.0.0.6", "scan"), vm("n2", "10.0.0.7", "scan")],
    );
    let names: Vec<&str> = out.iter().map(|v| v.name.as_str()).collect();
    assert_eq!(names, vec!["m", "s", "n2"]);
}

#[test]
fn discovery_records_findings() {
    let mut d = VmDiscovery::default();
    let out = d.record_findings(vec![], vec![vm("x", "1.1.1.1", "ssh-config")], vec![]);
    assert_eq!(out.len(), 1);
    let d2 = VmDiscovery::new();
    drop(d2);
}

// ---------------------------------------------------------------- ssh

#[test]
fn ssh_port_selection() {
    assert_eq!(ssh_port_candidates(), vec![22, 2222, 22000, 22022]);
    assert_eq!(select_ssh_port(&vec![false, true, true, false]), 2222);
    assert_eq!(select_ssh_port(&vec![false, false, false, true]), 22022);
    assert_eq!(select_ssh_port(&vec![false, false, false, false]), 22);
    assert_eq!(select_ssh_port(&vec![true, true, true, true]), 22);
}

#[test]
fn ssh_capabilities_and_transfer() {
    let caps = SshCapabilities::probed(true);
    assert!(caps.supports_exec && caps.supports_shell);
    assert_eq!(caps.server_version, "OpenSSH");
    assert!(transfer_ready(Some(&caps)).is_ok());
    let no_sftp = SshCapabilities::probed(false);
    assert!(matches!(transfer_ready(Some(&no_sftp)), Err(TransferError::SftpUnsupported)));
    assert!(matches!(transfer_ready(None), Err(TransferError::NotProbed)));
    assert!(check_transfer_status(0).is_ok());
    assert!(matches!(check_transfer_status(3), Err(TransferError::ExitStatus(3))));
    assert_eq!(
        TransferError::ExitStatus(3).message(),
        "File transfer failed with exit code 3"
    );
    assert_eq!(TransferError::NotProbed.message(), "Capabilities not probed");
    assert_eq!(
        TransferError::SftpUnsupported.message(),
        "SFTP not supported by remote server"
    );
}

#[test]
fn ssh_remote_write_command_escapes() {
    assert_eq!(remote_write_command("/home/u/file.txt"), "cat > /home/u/file.txt");
    assert_eq!(remote_write_command("/tmp/a b"), "cat > '/tmp/a b'");
    assert_eq!(remote_write_command("it's"), "cat > 'it'\\''s'");
    assert_eq!(remote_write_command(""), "cat > ''");
}

#[test]
fn ssh_default_key_files() {
    assert_eq!(
        default_key_files("/home/u"),
        vec!["/home/u/.ssh/id_ed25519", "/home/u/.ssh/id_rsa", "/home/u/.ssh/id_ecdsa"]
    );
}

// ---------------------------------------------------------------- deployment

#[test]
fn deployment_commands() {
    let config = DeploymentConfig::for_source_dir("/src/ion");
    assert_eq!(config.target_dir, "~/ionChannel");
    assert_eq!(make_dir_command("~/ionChannel"), "mkdir -p ~/ionChannel");
    assert_eq!(in_dir_command("/d", "ls"), "cd /d && ls");
    assert_eq!(
        remote_build_command(&config),
        "cd ~/ionChannel && cargo build --release --all"
    );
    assert_eq!(
        remote_install_command(&config),
        "cd ~/ionChannel && sudo cp target/release/xdg-desktop-portal-cosmic /usr/libexec/"
    );
    assert_eq!(verify_command(), "ls -lh /usr/libexec/xdg-desktop-portal-cosmic");
    assert_eq!(remote_file_path("~/ionChannel", "Cargo.toml"), "~/ionChannel/Cargo.toml");
}

#[test]
fn deployment_login_user() {
    let mut v = vm("a", "1.2.3.4", "manual");
    assert_eq!(login_user(&v), "ubuntu");
    v.username = Some("alice".to_string());
    assert_eq!(login_user(&v), "alice");
}

#[test]
fn deployment_output_checks() {
    assert!(check_build_output("Finished release").is_ok());
    match check_build_output("error[E0425]: x") {
        Err(DeployError::BuildFailed(out)) => assert_eq!(out, "error[E0425]: x"),
        _ => panic!("expected a build failure"),
    }
    assert!(check_build_output("test failed").is_err());
    assert!(check_verification_output("-rwxr-xr-x 1 root root").is_ok());
    assert!(matches!(
        check_verification_output("ls: cannot access: No such file or directory"),
        Err(DeployError::PortalMissing)
    ));
    assert_eq!(
        DeployError::BuildFailed("x".to_string()).message(),
        "Build failed:\nx"
    );
    assert_eq!(
        DeployError::PortalMissing.message(),
        "Portal binary not found after deployment"
    );
}

#[test]
fn deployment_files_and_plan() {
    let files = files_to_transfer("/src", true, true);
    assert_eq!(files.len(), 2);
    assert_eq!(files[0].local_path, "/src/Cargo.toml");
    assert_eq!(files[1].relative_path, "Cargo.lock");
    let only_lock = files_to_transfer("/src", false, true);
    assert_eq!(only_lock.len(), 1);
    assert_eq!(only_lock[0].local_path, "/src/Cargo.lock");
    assert!(files_to_transfer("/src", false, false).is_empty());

    assert_eq!(
        deployment_plan(true, false, false),
        vec![
            DeployStep::TransferFiles,
            DeployStep::Build,
            DeployStep::InstallPortal,
            DeployStep::Verify
        ]
    );
    assert_eq!(deployment_plan(false, true, true), vec![DeployStep::Verify]);
}

// ---------------------------------------------------------------- settings

#[test]
fn settings_choose_target() {
    let mut c = Config::default();
    assert!(c.choose_target(None, None).is_none());
    c.remember_discovered(vec![vm("d1", "10.0.0.9", "scan")]);
    assert_eq!(c.choose_target(None, None).unwrap().name, "d1");
    c.remember_last(vm("last", "10.0.0.8", "manual"));
    assert_eq!(c.choose_target(None, None).unwrap().ip, "10.0.0.8");
    let manual = c
        .choose_target(Some("1.2.3.4".to_string()), Some("bob".to_string()))
        .unwrap();
    assert_eq!(manual.name, "manual");
    assert_eq!(manual.ip, "1.2.3.4");
    assert_eq!(manual.username, Some("bob".to_string()));
    c.reset();
    assert!(c.last_vm.is_none());
    assert!(c.discovered_vms.is_empty());
    assert!(!c.preferences.auto_restart);
}

#[test]
fn settings_connection_user_and_path() {
    assert_eq!(connection_user(Some("a"), Some("b"), Some("c")), "a");
    assert_eq!(connection_user(None, Some("b"), Some("c")), "b");
    assert_eq!(connection_user(None, None, Some("c")), "c");
    assert_eq!(connection_user(None, None, None), "ubuntu");
    assert_eq!(config_path("/home/u"), "/home/u/.config/ionChannel/deploy.toml");
}

// ---------------------------------------------------------------- text

#[test]
fn text_helpers() {
    assert_eq!(join("/a", "b"), "/a/b");
    assert_eq!(join("/a/", "b"), "/a/b");
    assert_eq!(join("/a", "/abs"), "/abs");
    assert_eq!(join("", "b"), "b");
    assert_eq!(split_lines("a\nb\r\nc"), vec!["a", "b", "c"]);
    assert_eq!(split_lines("a\n"), vec!["a"]);
    assert!(split_lines("").is_empty());
    assert_eq!(split_words("  x\ty  z "), vec!["x", "y", "z"]);
    assert_eq!(text_before("10.0.0.1/24", '/'), "10.0.0.1");
    assert_eq!(text_before("plain", '/'), "plain");
    assert_eq!(truncate("short", 10), "short");
    assert_eq!(truncate("a long line of text", 10), "a long ...");
}

// ---------------------------------------------------------------- provisioning run


fn exited(success: bool, stdout: &str, stderr: &str, now: u64) -> ProvisionEvent {
    ProvisionEvent::CommandExited {
        success,
        stdout: stdout.to_string(),
        stderr: stderr.to_string(),
        now,
    }
}

const LEASES: &str = " vnet0  52:54:00:aa:bb:cc  ipv4  192.168.122.50/24\n";

#[test]
fn provision_run_happy_path() {
    let (mut run, first) = ProvisionRun::start();
    assert!(matches!(first, ProvisionAction::GenerateKeys));
    assert!(matches!(run.step(ProvisionEvent::Succeeded { now: 0 }).0, ProvisionAction::WriteCloudInit));
    assert!(matches!(run.step(ProvisionEvent::Succeeded { now: 1 }).0, ProvisionAction::CreateIso));
    assert!(matches!(run.step(ProvisionEvent::Succeeded { now: 2 }).0, ProvisionAction::CreateDisk));
    assert!(matches!(run.step(exited(true, "", "", 3)).0, ProvisionAction::InstallVm));
    let (a, w) = run.step(exited(false, "", "oops", 4));
    assert!(matches!(a, ProvisionAction::QueryIp));
    assert_eq!(w, Some("virt-install warning (may be OK): oops".to_string()));
    assert!(matches!(run.step(exited(true, "no lease\n", "", 5)).0, ProvisionAction::Sleep(5)));
    assert!(matches!(run.step(ProvisionEvent::Slept { now: 10 }).0, ProvisionAction::QueryIp));
    match run.step(exited(true, LEASES, "", 11)).0 {
        ProvisionAction::ProbeSsh(ip) => assert_eq!(ip, "192.168.122.50"),
        _ => panic!("expected an SSH probe"),
    }
    assert!(matches!(
        run.step(ProvisionEvent::SshProbed { ready: false, now: 12 }).0,
        ProvisionAction::Sleep(5)
    ));
    assert!(matches!(run.step(ProvisionEvent::Slept { now: 17 }).0, ProvisionAction::ProbeSsh(_)));
    match run.step(ProvisionEvent::SshProbed { ready: true, now: 18 }).0 {
        ProvisionAction::Connect(ip) => assert_eq!(ip, "192.168.122.50"),
        _ => panic!("expected a connection"),
    }
    match run.step(ProvisionEvent::Succeeded { now: 19 }).0 {
        ProvisionAction::Complete(ip) => assert_eq!(ip, "192.168.122.50"),
        _ => panic!("expected completion"),
    }
    assert!(run.is_over());
    assert!(matches!(run.current_phase(), ProvisionPhase::Finished));
}

#[test]
fn provision_run_disk_failure_aborts() {
    let (mut run, _) = ProvisionRun::start();
    run.step(ProvisionEvent::Succeeded { now: 0 });
    run.step(ProvisionEvent::Succeeded { now: 0 });
    run.step(ProvisionEvent::Succeeded { now: 0 });
    match run.step(exited(false, "", "no base image", 1)).0 {
        ProvisionAction::Abort(m) => assert_eq!(m, "qemu-img failed: no base image"),
        _ => panic!("expected abort"),
    }
    assert!(run.is_over());
}

#[test]
fn provision_run_reported_failure_aborts() {
    let (mut run, _) = ProvisionRun::start();
    match run.step(ProvisionEvent::Failed("ssh-keygen failed".to_string())).0 {
        ProvisionAction::Abort(m) => assert_eq!(m, "ssh-keygen failed"),
        _ => panic!("expected abort"),
    }
    assert!(matches!(run.current_phase(), ProvisionPhase::Failed));
}

#[test]
fn provision_run_timeouts() {
    let (mut run, _) = ProvisionRun::start();
    run.step(ProvisionEvent::Succeeded { now: 0 });
    run.step(ProvisionEvent::Succeeded { now: 0 });
    run.step(ProvisionEvent::Succeeded { now: 0 });
    run.step(exited(true, "", "", 0));
    run.step(exited(true, "", "", 100));
    assert!(matches!(run.step(exited(true, "", "", 101)).0, ProvisionAction::Sleep(5)));
    assert!(matches!(run.step(ProvisionEvent::Slept { now: 159 }).0, ProvisionAction::QueryIp));
    run.step(exited(false, LEASES, "", 159));
    match run.step(ProvisionEvent::Slept { now: 160 }).0 {
        ProvisionAction::Abort(m) => assert_eq!(m, "Timeout waiting for VM IP address"),
        _ => panic!("expected a timeout"),
    }

    let (mut run, _) = ProvisionRun::start();
    run.step(ProvisionEvent::Succeeded { now: 0 });
    run.step(ProvisionEvent::Succeeded { now: 0 });
    run.step(ProvisionEvent::Succeeded { now: 0 });
    run.step(exited(true, "", "", 0));
    run.step(exited(true, "", "", 0));
    run.step(exited(true, LEASES, "", 10));
    run.step(ProvisionEvent::SshProbed { ready: false, now: 20 });
    assert!(matches!(run.step(ProvisionEvent::Slept { now: 129 }).0, ProvisionAction::ProbeSsh(_)));
    run.step(ProvisionEvent::SshProbed { ready: false, now: 129 });
    match run.step(ProvisionEvent::Slept { now: 130 }).0 {
        ProvisionAction::Abort(m) => assert_eq!(m, "Timeout waiting for SSH to become available"),
        _ => panic!("expected a timeout"),
    }
}

#[test]
fn provision_run_accepts_only_answers() {
    let (mut run, _) = ProvisionRun::start();
    assert!(run.accepts(&ProvisionEvent::Succeeded { now: 0 }));
    assert!(run.accepts(&ProvisionEvent::Failed("x".to_string())));
    assert!(!run.accepts(&ProvisionEvent::Slept { now: 0 }));
    assert!(!run.accepts(&exited(true, "", "", 0)));
    run.step(ProvisionEvent::Failed("x".to_string()));
    assert!(!run.accepts(&ProvisionEvent::Failed("y".to_string())));
}

#[test]
fn provision_genisoimage_args() {
    assert_eq!(
        genisoimage_args("/w/c.iso", "/w/user-data", "/w/meta-data"),
        vec!["-output", "/w/c.iso", "-volid", "cidata", "-joliet", "-rock", "/w/user-data", "/w/meta-data"]
    );
}
