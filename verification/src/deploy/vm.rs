//! VM discovery: which host names look like VMs, reading VMs out of an SSH
//! client configuration, and merging what several discovery methods found.

use vstd::prelude::*;
use vstd::string::StringExecFns;
use crate::text::{
    chars_of, contains_str, lowercase, range_starts_with, seq_contains,
    seq_starts_with, str_eq, to_lowercase, trim, trim_bounds,
};

verus! {

/// A discovered VM.
#[derive(Debug, Clone)]
pub struct VmInfo {
    /// Host name or alias.
    pub name: String,
    /// Address to connect to.
    pub ip: String,
    /// How the VM was found, such as `"ssh-config"`.
    pub discovery_method: String,
    /// User to log in as, when known.
    pub username: Option<String>,
}

/// What a [`VmInfo`] holds, as plain text.
pub struct VmRecord {
    pub name: Seq<char>,
    pub ip: Seq<char>,
    pub discovery_method: Seq<char>,
    pub username: Option<Seq<char>>,
}

/// The text of an optional string.
pub open spec fn opt_text(s: Option<String>) -> Option<Seq<char>> {
    match s {
        Some(t) => Some(t@),
        None => None,
    }
}

impl View for VmInfo {
    type V = VmRecord;

    open spec fn view(&self) -> VmRecord {
        VmRecord {
            name: self.name@,
            ip: self.ip@,
            discovery_method: self.discovery_method@,
            username: opt_text(self.username),
        }
    }
}

/// The records of a list of VMs.
pub open spec fn records(v: Seq<VmInfo>) -> Seq<VmRecord> {
    v.map_values(|x: VmInfo| x@)
}

impl VmInfo {
    /// A copy of this VM's description.
    pub fn duplicate(&self) -> (r: VmInfo)
        ensures
            r@ == self@,
    {
        VmInfo {
            name: self.name.clone(),
            ip: self.ip.clone(),
            discovery_method: self.discovery_method.clone(),
            username: match &self.username {
                Some(u) => Some(u.clone()),
                None => None,
            },
        }
    }
}

/// Whether an already lower-cased host name names a VM: it mentions
/// `vm`, `virtual`, `pop`, `cosmic`, `qemu` or `kvm`.
pub open spec fn names_vm(lower: Seq<char>) -> bool {
    seq_contains(lower, "vm"@) || seq_contains(lower, "virtual"@) || seq_contains(lower, "pop"@)
        || seq_contains(lower, "cosmic"@) || seq_contains(lower, "qemu"@) || seq_contains(
        lower,
        "kvm"@,
    )
}

/// Whether a host name looks like a VM, compared without regard to case.
pub open spec fn looks_like_vm(name: Seq<char>) -> bool {
    names_vm(lowercase(name))
}

/// A lower-cased host name names a VM exactly when it contains one of `vm`,
/// `virtual`, `pop`, `cosmic`, `qemu` or `kvm`.
pub proof fn lemma_names_vm_keywords(lower: Seq<char>)
    ensures
        names_vm(lower) <==> (seq_contains(lower, seq!['v', 'm']) || seq_contains(
            lower,
            seq!['v', 'i', 'r', 't', 'u', 'a', 'l'],
        ) || seq_contains(lower, seq!['p', 'o', 'p']) || seq_contains(
            lower,
            seq!['c', 'o', 's', 'm', 'i', 'c'],
        ) || seq_contains(lower, seq!['q', 'e', 'm', 'u']) || seq_contains(
            lower,
            seq!['k', 'v', 'm'],
        )),
{
    reveal_strlit("vm");
    reveal_strlit("virtual");
    reveal_strlit("pop");
    reveal_strlit("cosmic");
    reveal_strlit("qemu");
    reveal_strlit("kvm");
    assert("vm"@ =~= seq!['v', 'm']);
    assert("virtual"@ =~= seq!['v', 'i', 'r', 't', 'u', 'a', 'l']);
    assert("pop"@ =~= seq!['p', 'o', 'p']);
    assert("cosmic"@ =~= seq!['c', 'o', 's', 'm', 'i', 'c']);
    assert("qemu"@ =~= seq!['q', 'e', 'm', 'u']);
    assert("kvm"@ =~= seq!['k', 'v', 'm']);
}

/// A host name looks like a VM exactly when its lower-cased text contains
/// one of `vm`, `virtual`, `pop`, `cosmic`, `qemu` or `kvm`.
pub proof fn lemma_vm_name_keywords(name: Seq<char>)
    ensures
        looks_like_vm(name) <==> (seq_contains(lowercase(name), seq!['v', 'm']) || seq_contains(
            lowercase(name),
            seq!['v', 'i', 'r', 't', 'u', 'a', 'l'],
        ) || seq_contains(lowercase(name), seq!['p', 'o', 'p']) || seq_contains(
            lowercase(name),
            seq!['c', 'o', 's', 'm', 'i', 'c'],
        ) || seq_contains(lowercase(name), seq!['q', 'e', 'm', 'u']) || seq_contains(
            lowercase(name),
            seq!['k', 'v', 'm'],
        )),
{
    lemma_names_vm_keywords(lowercase(name));
}

/// A `Host` block with a `HostName` whose host looks like a VM is found when
/// the block closes, after the VMs found before it, with method
/// `ssh-config`; a block whose host does not look like a VM adds nothing.
pub proof fn lemma_vm_block_found(st: HostScan)
    requires
        st.host is Some,
        st.hostname is Some,
    ensures
        looks_like_vm(st.host->0) ==> close_block(st) == st.found.push(
            VmRecord {
                name: st.host->0,
                ip: st.hostname->0,
                discovery_method: seq!['s', 's', 'h', '-', 'c', 'o', 'n', 'f', 'i', 'g'],
                username: st.user,
            },
        ),
        !looks_like_vm(st.host->0) ==> close_block(st) == st.found,
{
    reveal_strlit("ssh-config");
    assert("ssh-config"@ =~= seq!['s', 's', 'h', '-', 'c', 'o', 'n', 'f', 'i', 'g']);
}

/// Whether the lower-cased host name `lower` names a VM.
pub fn lowered_names_vm(lower: &str) -> (r: bool)
    ensures
        r == names_vm(lower@),
{
    contains_str(lower, "vm") || contains_str(lower, "virtual") || contains_str(lower, "pop")
        || contains_str(lower, "cosmic") || contains_str(lower, "qemu") || contains_str(
        lower,
        "kvm",
    )
}

/// Whether the host name `name` looks like a VM.
pub fn is_vm_name(name: &str) -> (r: bool)
    ensures
        r == looks_like_vm(name@),
{
    let lower = to_lowercase(name);
    lowered_names_vm(lower.as_str())
}

/// Where the scan of an SSH client configuration stands: the block being
/// read and the VMs found so far.
pub struct HostScan {
    pub host: Option<Seq<char>>,
    pub hostname: Option<Seq<char>>,
    pub user: Option<Seq<char>>,
    pub found: Seq<VmRecord>,
}

/// The scan before the first line.
pub open spec fn scan_start() -> HostScan {
    HostScan { host: None, hostname: None, user: None, found: Seq::empty() }
}

/// The VMs found once the current block is closed: the block counts when
/// it has both a host and a host name and the host looks like a VM.
pub open spec fn close_block(st: HostScan) -> Seq<VmRecord> {
    match (st.host, st.hostname) {
        (Some(h), Some(n)) => if looks_like_vm(h) {
            st.found.push(
                VmRecord { name: h, ip: n, discovery_method: "ssh-config"@, username: st.user },
            )
        } else {
            st.found
        },
        _ => st.found,
    }
}

/// One line of the configuration, read after trimming: `Host` closes the
/// block and opens another, `HostName` and `User` set the block's address
/// and user; any other line changes nothing.
pub open spec fn scan_line(st: HostScan, line: Seq<char>) -> HostScan {
    let t = trim(line);
    if seq_starts_with(t, "Host "@) {
        HostScan { host: Some(trim(t.skip(5))), hostname: None, user: None, found: close_block(st) }
    } else if seq_starts_with(t, "HostName "@) {
        HostScan { host: st.host, hostname: Some(trim(t.skip(9))), user: st.user, found: st.found }
    } else if seq_starts_with(t, "User "@) {
        HostScan { host: st.host, hostname: st.hostname, user: Some(trim(t.skip(5))), found: st.found }
    } else {
        st
    }
}

/// The scan after the complete lines of `s`, with the unfinished last line.
pub open spec fn scan_text(s: Seq<char>) -> (HostScan, Seq<char>)
    decreases s.len(),
{
    if s.len() == 0 {
        (scan_start(), Seq::empty())
    } else {
        let (st, cur) = scan_text(s.drop_last());
        if s.last() == '\n' {
            (scan_line(st, cur), Seq::empty())
        } else {
            (st, cur.push(s.last()))
        }
    }
}

/// The VMs an SSH client configuration names, in order: each `Host` block
/// with a `HostName` whose host looks like a VM.
pub open spec fn ssh_config_vms(s: Seq<char>) -> Seq<VmRecord> {
    let (st, cur) = scan_text(s);
    close_block(scan_line(st, cur))
}

/// The scan as the parser holds it.
struct HostScanner {
    host: Option<String>,
    hostname: Option<String>,
    user: Option<String>,
    found: Vec<VmInfo>,
}

impl HostScanner {
    spec fn state(&self) -> HostScan {
        HostScan {
            host: opt_text(self.host),
            hostname: opt_text(self.hostname),
            user: opt_text(self.user),
            found: records(self.found@),
        }
    }

    /// Closes the block being read.
    fn close_block(&mut self)
        ensures
            records(final(self).found@) == close_block(old(self).state()),
    {
        let host = self.host.take();
        let hostname = self.hostname.take();
        let user = self.user.take();
        match (host, hostname) {
            (Some(h), Some(n)) => {
                if is_vm_name(h.as_str()) {
                    let ghost before = self.found@;
                    self.found.push(
                        VmInfo {
                            name: h,
                            ip: n,
                            discovery_method: String::from_str("ssh-config"),
                            username: user,
                        },
                    );
                    proof {
                        reveal_strlit("ssh-config");
                        assert(records(self.found@) =~= records(before).push(self.found@.last()@));
                    }
                }
            },
            _ => {},
        }
    }

    /// Reads the line `text[start..end]`.
    fn read_line(&mut self, text: &str, chars: &Vec<char>, start: usize, end: usize)
        requires
            chars@ == text@,
            start <= end <= chars@.len(),
        ensures
            final(self).state() == scan_line(
                old(self).state(),
                text@.subrange(start as int, end as int),
            ),
    {
        let (a, b) = trim_bounds(chars, start, end);
        let ghost t = text@.subrange(a as int, b as int);
        proof {
            reveal_strlit("Host ");
            reveal_strlit("HostName ");
            reveal_strlit("User ");
        }
        if range_starts_with(chars, a, b, "Host ") {
            let (x, y) = trim_bounds(chars, a + 5, b);
            assert(t.skip(5) =~= text@.subrange(a + 5, b as int));
            let host = String::from_str(text.substring_char(x, y));
            self.close_block();
            self.host = Some(host);
            self.hostname = None;
            self.user = None;
        } else if range_starts_with(chars, a, b, "HostName ") {
            let (x, y) = trim_bounds(chars, a + 9, b);
            assert(t.skip(9) =~= text@.subrange(a + 9, b as int));
            self.hostname = Some(String::from_str(text.substring_char(x, y)));
        } else if range_starts_with(chars, a, b, "User ") {
            let (x, y) = trim_bounds(chars, a + 5, b);
            assert(t.skip(5) =~= text@.subrange(a + 5, b as int));
            self.user = Some(String::from_str(text.substring_char(x, y)));
        }
    }
}

/// The VMs named in the text of an SSH client configuration
/// (`~/.ssh/config`): each `Host` block that has a `HostName` and whose
/// host looks like a VM, with its `User` when the block gives one.
pub fn parse_ssh_config(text: &str) -> (r: Vec<VmInfo>)
    ensures
        records(r@) == ssh_config_vms(text@),
{
    let chars = chars_of(text);
    let n = chars.len();
    let mut scan = HostScanner { host: None, hostname: None, user: None, found: Vec::new() };
    let mut start: usize = 0;
    let mut i: usize = 0;
    assert(records(scan.found@) =~= Seq::<VmRecord>::empty());
    assert(text@.take(0) =~= Seq::<char>::empty());
    while i < n
        invariant
            chars@ == text@,
            n == chars@.len(),
            start <= i <= n,
            scan_text(text@.take(i as int)) == (
                scan.state(),
                text@.subrange(start as int, i as int),
            ),
        decreases n - i,
    {
        assert(text@.take(i + 1).drop_last() =~= text@.take(i as int));
        if chars[i] == '\n' {
            scan.read_line(text, &chars, start, i);
            start = i + 1;
            assert(text@.subrange(start as int, i + 1) =~= Seq::<char>::empty());
        } else {
            assert(text@.subrange(start as int, i + 1) =~= text@.subrange(
                start as int,
                i as int,
            ).push(text@[i as int]));
        }
        i = i + 1;
    }
    assert(text@.take(n as int) =~= text@);
    scan.read_line(text, &chars, start, n);
    scan.close_block();
    scan.found
}

/// Whether an earlier entry of `s` than position `i` has the same address.
pub open spec fn ip_seen_before(s: Seq<VmRecord>, i: int) -> bool {
    exists|j: int| 0 <= j < i && (#[trigger] s[j]).ip == s[i].ip
}

/// `s` with each VM whose address an earlier entry already has left out.
pub open spec fn unique_by_ip(s: Seq<VmRecord>) -> Seq<VmRecord>
    decreases s.len(),
{
    if s.len() == 0 {
        s
    } else {
        let rest = unique_by_ip(s.drop_last());
        if ip_seen_before(s, s.len() - 1) {
            rest
        } else {
            rest.push(s.last())
        }
    }
}

/// Whether some entry of `v` has the address `ip`.
fn has_ip(v: &Vec<VmInfo>, ip: &str) -> (r: bool)
    ensures
        r == exists|j: int| 0 <= j < v@.len() && (#[trigger] v@[j]).ip@ == ip@,
{
    let mut k: usize = 0;
    while k < v.len()
        invariant
            k <= v@.len(),
            forall|j: int| 0 <= j < k ==> (#[trigger] v@[j]).ip@ != ip@,
        decreases v@.len() - k,
    {
        if str_eq(v[k].ip.as_str(), ip) {
            return true;
        }
        k = k + 1;
    }
    false
}

/// Whether some entry of `s` has the address `ip`.
pub open spec fn ip_in(s: Seq<VmRecord>, ip: Seq<char>) -> bool {
    exists|j: int| 0 <= j < s.len() && (#[trigger] s[j]).ip == ip
}

/// Deduplication keeps every address: an address occurs in the result
/// exactly when it occurs in the input.
pub proof fn lemma_unique_keeps_ips(s: Seq<VmRecord>)
    ensures
        forall|ip: Seq<char>| #[trigger] ip_in(unique_by_ip(s), ip) <==> ip_in(s, ip),
    decreases s.len(),
{
    if s.len() > 0 {
        let p = s.drop_last();
        lemma_unique_keeps_ips(p);
        let u = unique_by_ip(s);
        let up = unique_by_ip(p);
        assert forall|ip: Seq<char>| #[trigger] ip_in(u, ip) <==> ip_in(s, ip) by {
            if ip_in(s, ip) {
                let j = choose|j: int| 0 <= j < s.len() && (#[trigger] s[j]).ip == ip;
                if j < p.len() {
                    assert(p[j].ip == ip);
                    assert(ip_in(p, ip));
                    assert(ip_in(up, ip));
                    let k = choose|k: int| 0 <= k < up.len() && (#[trigger] up[k]).ip == ip;
                    assert(u[k].ip == ip);
                } else if ip_seen_before(s, s.len() - 1) {
                    let k0 = choose|k0: int| 0 <= k0 < s.len() - 1 && (#[trigger] s[k0]).ip == s[s.len() - 1].ip;
                    assert(p[k0].ip == ip);
                    assert(ip_in(p, ip));
                    assert(ip_in(up, ip));
                    let k = choose|k: int| 0 <= k < up.len() && (#[trigger] up[k]).ip == ip;
                    assert(u[k].ip == ip);
                } else {
                    assert(u[up.len() as int].ip == ip);
                }
            }
            if ip_in(u, ip) {
                let j = choose|j: int| 0 <= j < u.len() && (#[trigger] u[j]).ip == ip;
                if j < up.len() {
                    assert(up[j].ip == ip);
                    assert(ip_in(up, ip));
                    assert(ip_in(p, ip));
                    let k = choose|k: int| 0 <= k < p.len() && (#[trigger] p[k]).ip == ip;
                    assert(s[k].ip == ip);
                } else {
                    assert(s[s.len() - 1].ip == ip);
                }
            }
        }
    }
}

/// `vms` with every VM whose address an earlier one already has removed;
/// the first of each address stays, in the original order.
pub fn dedup_by_ip(vms: Vec<VmInfo>) -> (r: Vec<VmInfo>)
    ensures
        records(r@) == unique_by_ip(records(vms@)),
{
    let ghost s = records(vms@);
    let mut out: Vec<VmInfo> = Vec::new();
    let mut i: usize = 0;
    assert(s.take(0) =~= Seq::<VmRecord>::empty());
    assert(records(out@) =~= Seq::<VmRecord>::empty());
    while i < vms.len()
        invariant
            s == records(vms@),
            i <= vms@.len(),
            records(out@) == unique_by_ip(s.take(i as int)),
        decreases vms@.len() - i,
    {
        let ghost t = s.take(i + 1);
        assert(t.drop_last() =~= s.take(i as int));
        proof {
            lemma_unique_keeps_ips(s.take(i as int));
        }
        let seen = has_ip(&out, vms[i].ip.as_str());
        proof {
            let u = unique_by_ip(s.take(i as int));
            if seen {
                let j = choose|j: int| 0 <= j < out@.len() && (#[trigger] out@[j]).ip@ == vms@[i as int].ip@;
                assert(u[j].ip == t[i as int].ip);
                assert(ip_in(u, u[j].ip));
                let k = choose|k: int| 0 <= k < s.take(i as int).len() && (#[trigger] s.take(i as int)[k]).ip == u[j].ip;
                assert(t[k].ip == t[i as int].ip);
                assert(ip_seen_before(t, t.len() - 1));
            } else {
                if ip_seen_before(t, t.len() - 1) {
                    let k = choose|k: int| 0 <= k < t.len() - 1 && (#[trigger] t[k]).ip == t[t.len() - 1].ip;
                    assert(s.take(i as int)[k].ip == t[k].ip);
                    assert(ip_in(s.take(i as int), t[k].ip));
                    assert(ip_in(u, t[k].ip));
                    let j = choose|j: int| 0 <= j < u.len() && (#[trigger] u[j]).ip == t[k].ip;
                    assert(out@[j].ip@ == vms@[i as int].ip@);
                }
            }
        }
        if !seen {
            let ghost before = out@;
            out.push(vms[i].duplicate());
            assert(records(out@) =~= records(before).push(out@.last()@));
        }
        i = i + 1;
    }
    assert(s.take(vms@.len() as int) =~= s);
    out
}

/// What several discovery methods found, in order, with each address
/// kept once (its first finding).
pub fn merge_discoveries(mdns: Vec<VmInfo>, ssh_config: Vec<VmInfo>, scan: Vec<VmInfo>) -> (r: Vec<
    VmInfo,
>)
    ensures
        records(r@) == unique_by_ip(records(mdns@) + records(ssh_config@) + records(scan@)),
{
    let mut all = mdns;
    let mut b = ssh_config;
    let mut c = scan;
    let ghost ra = records(all@);
    let ghost rb = records(b@);
    let ghost rc = records(c@);
    all.append(&mut b);
    all.append(&mut c);
    assert(records(all@) =~= ra + rb + rc);
    dedup_by_ip(all)
}

/// A discovery run: the VMs found so far.
pub struct VmDiscovery {
    discovered: Vec<VmInfo>,
}

impl VmDiscovery {
    /// What has been found.
    pub closed spec fn found(&self) -> Seq<VmRecord> {
        records(self.discovered@)
    }

    /// A discovery that has found nothing yet.
    pub fn new() -> (r: VmDiscovery)
        ensures
            r.found() == Seq::<VmRecord>::empty(),
    {
        let r = VmDiscovery { discovered: Vec::new() };
        assert(records(r.discovered@) =~= Seq::<VmRecord>::empty());
        r
    }

    /// Records the findings of the discovery methods (mDNS, the SSH client
    /// configuration, a network scan) and returns the VMs found, one per
    /// address, the first finding of each kept.
    pub fn record_findings(
        &mut self,
        mdns: Vec<VmInfo>,
        ssh_config: Vec<VmInfo>,
        scan: Vec<VmInfo>,
    ) -> (r: Vec<VmInfo>)
        ensures
            records(r@) == unique_by_ip(records(mdns@) + records(ssh_config@) + records(scan@)),
            final(self).found() == records(r@),
    {
        let r = merge_discoveries(mdns, ssh_config, scan);
        let mut kept: Vec<VmInfo> = Vec::new();
        let mut i: usize = 0;
        while i < r.len()
            invariant
                i <= r@.len(),
                records(kept@) == records(r@).take(i as int),
            decreases r@.len() - i,
        {
            let ghost before = kept@;
            kept.push(r[i].duplicate());
            assert(records(kept@) =~= records(before).push(kept@.last()@));
            assert(records(r@).take(i + 1) =~= records(r@).take(i as int).push(r@[i as int]@));
            i = i + 1;
        }
        assert(records(r@).take(r@.len() as int) =~= records(r@));
        self.discovered = kept;
        r
    }
}

impl Default for VmDiscovery {
    fn default() -> (r: VmDiscovery)
        ensures
            r.found() == Seq::<VmRecord>::empty(),
    {
        VmDiscovery::new()
    }
}

/// After deduplication no two VMs share an address.
pub proof fn lemma_unique_by_ip_distinct(s: Seq<VmRecord>)
    ensures
        forall|i: int, j: int|
            0 <= i < j < unique_by_ip(s).len() ==> (#[trigger] unique_by_ip(s)[i]).ip != (
            #[trigger] unique_by_ip(s)[j]).ip,
    decreases s.len(),
{
    if s.len() > 0 {
        let p = s.drop_last();
        lemma_unique_by_ip_distinct(p);
        lemma_unique_keeps_ips(p);
        let u = unique_by_ip(s);
        let up = unique_by_ip(p);
        if !ip_seen_before(s, s.len() - 1) {
            assert forall|i: int, j: int| 0 <= i < j < u.len() implies (#[trigger] u[i]).ip != (
            #[trigger] u[j]).ip by {
                if j == up.len() {
                    if u[i].ip == u[j].ip {
                        assert(up[i].ip == s.last().ip);
                        assert(ip_in(up, s.last().ip));
                        assert(ip_in(p, s.last().ip));
                        let k = choose|k: int| 0 <= k < p.len() && (#[trigger] p[k]).ip == s.last().ip;
                        assert(s[k].ip == s[s.len() - 1].ip);
                    }
                } else {
                    assert(u[i] == up[i]);
                    assert(u[j] == up[j]);
                }
            }
        }
    }
}

/// Every entry of `found` is a VM found in an SSH configuration.
pub open spec fn all_from_ssh_config(found: Seq<VmRecord>) -> bool {
    forall|i: int|
        0 <= i < found.len() ==> looks_like_vm((#[trigger] found[i]).name) && found[i].discovery_method
            == "ssh-config"@
}

proof fn lemma_scan_line_keeps(st: HostScan, line: Seq<char>)
    requires
        all_from_ssh_config(st.found),
    ensures
        all_from_ssh_config(scan_line(st, line).found),
        all_from_ssh_config(close_block(st)),
{
}

proof fn lemma_scan_text_keeps(s: Seq<char>)
    ensures
        all_from_ssh_config(scan_text(s).0.found),
    decreases s.len(),
{
    if s.len() > 0 {
        lemma_scan_text_keeps(s.drop_last());
        let (st, cur) = scan_text(s.drop_last());
        lemma_scan_line_keeps(st, cur);
    }
}

/// Every VM read from an SSH configuration has a host name that looks like
/// a VM and is marked as found in the SSH configuration.
pub proof fn lemma_ssh_config_vms_look_like_vms(s: Seq<char>)
    ensures
        all_from_ssh_config(ssh_config_vms(s)),
{
    lemma_scan_text_keeps(s);
    let (st, cur) = scan_text(s);
    lemma_scan_line_keeps(st, cur);
    lemma_scan_line_keeps(scan_line(st, cur), Seq::empty());
}

} // verus!
