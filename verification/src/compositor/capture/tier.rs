//! Capture tiers and their selection from the environment.
//!
//! Tiers, best first: DMA-BUF (GPU zero-copy), shared memory (works in
//! VMs), CPU framebuffer copy (universal), and none (input-only mode).

use vstd::prelude::*;
use crate::text::{contains_str, lowercase, seq_contains, str_eq, to_lowercase, trim};
use vstd::string::StringExecFns;

verus! {

/// A capture tier. Tiers compare by quality: `Unavailable < Cpu < Shm < Dmabuf`.
#[derive(Clone, Copy, Debug, PartialEq, Eq, Hash, PartialOrd, Ord, Structural)]
pub enum CaptureTier {
    /// No capture: input-only mode (rank 0).
    Unavailable,
    /// CPU framebuffer capture (rank 1).
    Cpu,
    /// Shared memory capture (rank 2).
    Shm,
    /// DMA-BUF GPU capture (rank 3).
    Dmabuf,
}

/// The rank of a tier: its position in quality order.
pub open spec fn tier_rank(t: CaptureTier) -> u8 {
    match t {
        CaptureTier::Unavailable => 0,
        CaptureTier::Cpu => 1,
        CaptureTier::Shm => 2,
        CaptureTier::Dmabuf => 3,
    }
}

/// The display name of a tier.
pub open spec fn tier_name(t: CaptureTier) -> &'static str {
    match t {
        CaptureTier::Unavailable => "None (input-only)",
        CaptureTier::Cpu => "CPU Framebuffer",
        CaptureTier::Shm => "Shared Memory",
        CaptureTier::Dmabuf => "DMA-BUF (GPU)",
    }
}

impl CaptureTier {
    /// A human-readable name.
    pub fn name(&self) -> (r: &'static str)
        ensures
            r@ == tier_name(*self)@,
    {
        match self {
            CaptureTier::Unavailable => "None (input-only)",
            CaptureTier::Cpu => "CPU Framebuffer",
            CaptureTier::Shm => "Shared Memory",
            CaptureTier::Dmabuf => "DMA-BUF (GPU)",
        }
    }

    /// True for every tier but `Unavailable`.
    pub fn has_capture(&self) -> (r: bool)
        ensures
            r == !(*self is Unavailable),
    {
        match self {
            CaptureTier::Unavailable => false,
            _ => true,
        }
    }

    /// Estimated latency in milliseconds: 2, 10, 30 for DMA-BUF, shared
    /// memory and CPU; 0 without capture.
    pub fn estimated_latency_ms(&self) -> (r: u32)
        ensures
            r == match *self {
                CaptureTier::Dmabuf => 2u32,
                CaptureTier::Shm => 10u32,
                CaptureTier::Cpu => 30u32,
                CaptureTier::Unavailable => 0u32,
            },
    {
        match self {
            CaptureTier::Dmabuf => 2,
            CaptureTier::Shm => 10,
            CaptureTier::Cpu => 30,
            CaptureTier::Unavailable => 0,
        }
    }

    /// The tier's rank in quality order (0 to 3).
    pub fn rank(&self) -> (r: u8)
        ensures
            r == tier_rank(*self),
    {
        match self {
            CaptureTier::Unavailable => 0,
            CaptureTier::Cpu => 1,
            CaptureTier::Shm => 2,
            CaptureTier::Dmabuf => 3,
        }
    }

    /// True when `self` is a better tier than `other`.
    pub fn better_than(&self, other: CaptureTier) -> (r: bool)
        ensures
            r == (tier_rank(*self) > tier_rank(other)),
    {
        self.rank() > other.rank()
    }
}

/// What is known of the environment when choosing a tier.
#[derive(Debug)]
pub struct EnvironmentInfo {
    /// Running in a virtual machine.
    pub is_vm: bool,
    /// DRM render nodes exist.
    pub has_drm: bool,
    /// The Wayland display name, when set.
    pub wayland_display: Option<String>,
    /// `XDG_RUNTIME_DIR` is set.
    pub has_runtime_dir: bool,
    /// The GPU vendor, when detected.
    pub gpu_vendor: Option<String>,
}

/// Whether a GPU vendor name is one of the virtual GPUs without DMA-BUF v4.
pub open spec fn is_virtual_gpu(vendor: Seq<char>) -> bool {
    vendor == "Virtio"@ || vendor == "QEMU"@
}

/// Whether DMA-BUF is likely to work: DRM is present, unless this is a VM
/// whose GPU is a Virtio or QEMU virtual GPU.
pub open spec fn dmabuf_likely(env: EnvironmentInfo) -> bool {
    if env.is_vm && (env.gpu_vendor matches Some(v) && is_virtual_gpu(v@)) {
        false
    } else {
        env.has_drm
    }
}

/// The best tier an environment allows: none without a Wayland display,
/// else DMA-BUF when likely to work, else shared memory when the runtime
/// directory is set, else CPU capture.
pub open spec fn best_tier(env: EnvironmentInfo) -> CaptureTier {
    if env.wayland_display is None {
        CaptureTier::Unavailable
    } else if dmabuf_likely(env) {
        CaptureTier::Dmabuf
    } else if env.has_runtime_dir {
        CaptureTier::Shm
    } else {
        CaptureTier::Cpu
    }
}

/// Whether a given tier can be used in an environment.
pub open spec fn tier_usable(env: EnvironmentInfo, tier: CaptureTier) -> bool {
    match tier {
        CaptureTier::Dmabuf => dmabuf_likely(env),
        CaptureTier::Shm => env.wayland_display is Some && env.has_runtime_dir,
        CaptureTier::Cpu => env.wayland_display is Some,
        CaptureTier::Unavailable => true,
    }
}

impl EnvironmentInfo {
    /// True when DMA-BUF is likely to work (see [`dmabuf_likely`]).
    pub fn dmabuf_likely_works(&self) -> (r: bool)
        ensures
            r == dmabuf_likely(*self),
    {
        if self.is_vm {
            match &self.gpu_vendor {
                Some(vendor) => {
                    if str_eq(vendor.as_str(), "Virtio") || str_eq(vendor.as_str(), "QEMU") {
                        return false;
                    }
                },
                None => {},
            }
        }
        self.has_drm
    }
}

/// The GPU vendor named by a PCI vendor id as read from sysfs (surrounding
/// whitespace already removed): NVIDIA, AMD, Intel, Virtio or QEMU.
pub open spec fn vendor_of_id(id: Seq<char>) -> Option<&'static str> {
    if id == "0x10de"@ {
        Some("NVIDIA")
    } else if id == "0x1002"@ {
        Some("AMD")
    } else if id == "0x8086"@ {
        Some("Intel")
    } else if id == "0x1af4"@ {
        Some("Virtio")
    } else if id == "0x1234"@ {
        Some("QEMU")
    } else {
        None
    }
}

/// The PCI vendor id table: `0x10de` is NVIDIA, `0x1002` AMD, `0x8086`
/// Intel, `0x1af4` Virtio and `0x1234` QEMU (the standard VGA of QEMU and
/// Bochs); any other id is unknown.
pub proof fn lemma_vendor_id_table(id: Seq<char>)
    ensures
        vendor_of_id(seq!['0', 'x', '1', '0', 'd', 'e']) matches Some(v) && v@ == seq![
            'N',
            'V',
            'I',
            'D',
            'I',
            'A',
        ],
        vendor_of_id(seq!['0', 'x', '1', '0', '0', '2']) matches Some(v) && v@ == seq![
            'A',
            'M',
            'D',
        ],
        vendor_of_id(seq!['0', 'x', '8', '0', '8', '6']) matches Some(v) && v@ == seq![
            'I',
            'n',
            't',
            'e',
            'l',
        ],
        vendor_of_id(seq!['0', 'x', '1', 'a', 'f', '4']) matches Some(v) && v@ == seq![
            'V',
            'i',
            'r',
            't',
            'i',
            'o',
        ],
        vendor_of_id(seq!['0', 'x', '1', '2', '3', '4']) matches Some(v) && v@ == seq![
            'Q',
            'E',
            'M',
            'U',
        ],
        vendor_of_id(id) is Some ==> id == seq!['0', 'x', '1', '0', 'd', 'e'] || id == seq![
            '0',
            'x',
            '1',
            '0',
            '0',
            '2',
        ] || id == seq!['0', 'x', '8', '0', '8', '6'] || id == seq!['0', 'x', '1', 'a', 'f', '4']
            || id == seq!['0', 'x', '1', '2', '3', '4'],
{
    reveal_strlit("0x10de");
    reveal_strlit("0x1002");
    reveal_strlit("0x8086");
    reveal_strlit("0x1af4");
    reveal_strlit("0x1234");
    reveal_strlit("NVIDIA");
    reveal_strlit("AMD");
    reveal_strlit("Intel");
    reveal_strlit("Virtio");
    reveal_strlit("QEMU");
    let nv = seq!['0', 'x', '1', '0', 'd', 'e'];
    let amd = seq!['0', 'x', '1', '0', '0', '2'];
    let intel = seq!['0', 'x', '8', '0', '8', '6'];
    let virtio = seq!['0', 'x', '1', 'a', 'f', '4'];
    let qemu = seq!['0', 'x', '1', '2', '3', '4'];
    assert("0x10de"@ =~= nv);
    assert("0x1002"@ =~= amd);
    assert("0x8086"@ =~= intel);
    assert("0x1af4"@ =~= virtio);
    assert("0x1234"@ =~= qemu);
    assert(amd != nv) by {
        assert(amd[4] != nv[4]);
    }
    assert(intel != nv && intel != amd) by {
        assert(intel[2] != nv[2] && intel[2] != amd[2]);
    }
    assert(virtio != nv && virtio != amd && virtio != intel) by {
        assert(virtio[3] != nv[3] && virtio[3] != amd[3] && virtio[2] != intel[2]);
    }
    assert(qemu != nv && qemu != amd && qemu != intel && qemu != virtio) by {
        assert(qemu[3] != nv[3] && qemu[3] != amd[3] && qemu[2] != intel[2] && qemu[3]
            != virtio[3]);
    }
    assert("NVIDIA"@ =~= seq!['N', 'V', 'I', 'D', 'I', 'A']);
    assert("AMD"@ =~= seq!['A', 'M', 'D']);
    assert("Intel"@ =~= seq!['I', 'n', 't', 'e', 'l']);
    assert("Virtio"@ =~= seq!['V', 'i', 'r', 't', 'i', 'o']);
    assert("QEMU"@ =~= seq!['Q', 'E', 'M', 'U']);
}

/// In a VM whose GPU vendor is QEMU or Virtio, DMA-BUF is not expected to
/// work and the best tier is not DMA-BUF, whatever else the environment
/// shows.
pub proof fn lemma_virtual_gpu_in_vm_avoids_dmabuf(env: EnvironmentInfo)
    requires
        env.is_vm,
        env.gpu_vendor matches Some(v) && (v@ == seq!['Q', 'E', 'M', 'U'] || v@ == seq![
            'V',
            'i',
            'r',
            't',
            'i',
            'o',
        ]),
    ensures
        !dmabuf_likely(env),
        best_tier(env) != CaptureTier::Dmabuf,
{
    reveal_strlit("Virtio");
    reveal_strlit("QEMU");
    assert("Virtio"@ =~= seq!['V', 'i', 'r', 't', 'i', 'o']);
    assert("QEMU"@ =~= seq!['Q', 'E', 'M', 'U']);
}

/// The GPU vendor of a PCI vendor id, or `None` for an unknown id.
pub fn gpu_vendor_from_id(id: &str) -> (r: Option<&'static str>)
    ensures
        r is None <==> vendor_of_id(id@) is None,
        r matches Some(v) ==> v@ == vendor_of_id(id@)->0@,
{
    if str_eq(id, "0x10de") {
        Some("NVIDIA")
    } else if str_eq(id, "0x1002") {
        Some("AMD")
    } else if str_eq(id, "0x8086") {
        Some("Intel")
    } else if str_eq(id, "0x1af4") {
        Some("Virtio")
    } else if str_eq(id, "0x1234") {
        Some("QEMU")
    } else {
        None
    }
}

/// Whether lower-cased DMI text names a hypervisor: it contains
/// virtualbox, vmware, qemu, kvm, xen, hyper-v or bochs.
pub open spec fn names_hypervisor(lower: Seq<char>) -> bool {
    crate::text::seq_contains(lower, "virtualbox"@) || crate::text::seq_contains(lower, "vmware"@)
        || crate::text::seq_contains(lower, "qemu"@) || crate::text::seq_contains(lower, "kvm"@)
        || crate::text::seq_contains(lower, "xen"@) || crate::text::seq_contains(lower, "hyper-v"@)
        || crate::text::seq_contains(lower, "bochs"@)
}

/// Whether lower-cased DMI product or vendor text names a hypervisor.
pub fn dmi_text_names_hypervisor(lower: &str) -> (r: bool)
    ensures
        r == names_hypervisor(lower@),
{
    contains_str(lower, "virtualbox") || contains_str(lower, "vmware") || contains_str(
        lower,
        "qemu",
    ) || contains_str(lower, "kvm") || contains_str(lower, "xen") || contains_str(lower, "hyper-v")
        || contains_str(lower, "bochs")
}

/// Lower-cased DMI text names a hypervisor exactly when it contains one of
/// `virtualbox`, `vmware`, `qemu`, `kvm`, `xen`, `hyper-v` or `bochs`.
pub proof fn lemma_names_hypervisor_keywords(lower: Seq<char>)
    ensures
        names_hypervisor(lower) <==> (seq_contains(
            lower,
            seq!['v', 'i', 'r', 't', 'u', 'a', 'l', 'b', 'o', 'x'],
        ) || seq_contains(lower, seq!['v', 'm', 'w', 'a', 'r', 'e']) || seq_contains(
            lower,
            seq!['q', 'e', 'm', 'u'],
        ) || seq_contains(lower, seq!['k', 'v', 'm']) || seq_contains(lower, seq!['x', 'e', 'n'])
            || seq_contains(lower, seq!['h', 'y', 'p', 'e', 'r', '-', 'v']) || seq_contains(
            lower,
            seq!['b', 'o', 'c', 'h', 's'],
        )),
{
    reveal_strlit("virtualbox");
    reveal_strlit("vmware");
    reveal_strlit("qemu");
    reveal_strlit("kvm");
    reveal_strlit("xen");
    reveal_strlit("hyper-v");
    reveal_strlit("bochs");
    assert("virtualbox"@ =~= seq!['v', 'i', 'r', 't', 'u', 'a', 'l', 'b', 'o', 'x']);
    assert("vmware"@ =~= seq!['v', 'm', 'w', 'a', 'r', 'e']);
    assert("qemu"@ =~= seq!['q', 'e', 'm', 'u']);
    assert("kvm"@ =~= seq!['k', 'v', 'm']);
    assert("xen"@ =~= seq!['x', 'e', 'n']);
    assert("hyper-v"@ =~= seq!['h', 'y', 'p', 'e', 'r', '-', 'v']);
    assert("bochs"@ =~= seq!['b', 'o', 'c', 'h', 's']);
}

/// Any DMI text whose lower-cased form contains a hypervisor's name
/// (`virtualbox`, `vmware`, `qemu`, `kvm`, `xen`, `hyper-v`, `bochs`) marks
/// a virtual machine, whatever the other probes show; so does a CPU flag
/// list that contains `hypervisor`.
pub proof fn lemma_hypervisor_text_marks_vm(
    dmi: Seq<Seq<char>>,
    cpuinfo: Option<Seq<char>>,
    i: int,
)
    requires
        0 <= i < dmi.len(),
    ensures
        (seq_contains(lowercase(dmi[i]), seq!['v', 'i', 'r', 't', 'u', 'a', 'l', 'b', 'o', 'x'])
            || seq_contains(lowercase(dmi[i]), seq!['v', 'm', 'w', 'a', 'r', 'e'])
            || seq_contains(lowercase(dmi[i]), seq!['q', 'e', 'm', 'u']) || seq_contains(
            lowercase(dmi[i]),
            seq!['k', 'v', 'm'],
        ) || seq_contains(lowercase(dmi[i]), seq!['x', 'e', 'n']) || seq_contains(
            lowercase(dmi[i]),
            seq!['h', 'y', 'p', 'e', 'r', '-', 'v'],
        ) || seq_contains(lowercase(dmi[i]), seq!['b', 'o', 'c', 'h', 's'])) ==> vm_in_probes(
            dmi,
            cpuinfo,
        ),
        (cpuinfo matches Some(c) && seq_contains(
            c,
            seq!['h', 'y', 'p', 'e', 'r', 'v', 'i', 's', 'o', 'r'],
        )) ==> vm_in_probes(dmi, cpuinfo),
{
    lemma_names_hypervisor_keywords(lowercase(dmi[i]));
    reveal_strlit("hypervisor");
    assert("hypervisor"@ =~= seq!['h', 'y', 'p', 'e', 'r', 'v', 'i', 's', 'o', 'r']);
}

/// Whether `/proc/cpuinfo` text shows the hypervisor CPU flag.
pub fn cpuinfo_names_hypervisor(cpuinfo: &str) -> (r: bool)
    ensures
        r == crate::text::seq_contains(cpuinfo@, "hypervisor"@),
{
    contains_str(cpuinfo, "hypervisor")
}

/// Whether the probes show a virtual machine: some DMI product or vendor
/// text names a hypervisor (compared in lower case), or the CPU flags
/// include `hypervisor`.
pub open spec fn vm_in_probes(dmi: Seq<Seq<char>>, cpuinfo: Option<Seq<char>>) -> bool {
    (exists|i: int| 0 <= i < dmi.len() && names_hypervisor(lowercase(#[trigger] dmi[i])))
        || match cpuinfo {
        Some(c) => seq_contains(c, "hypervisor"@),
        None => false,
    }
}

/// Whether this is a virtual machine, from the DMI texts that could be
/// read (`/sys/class/dmi/id/product_name`, `sys_vendor`) and
/// `/proc/cpuinfo` when readable.
pub fn vm_detected(dmi_texts: &Vec<String>, cpuinfo: Option<&str>) -> (r: bool)
    ensures
        r == vm_in_probes(dmi_texts@.map_values(|t: String| t@), match cpuinfo {
            Some(c) => Some(c@),
            None => None,
        }),
{
    let ghost dmi = dmi_texts@.map_values(|t: String| t@);
    let mut i: usize = 0;
    while i < dmi_texts.len()
        invariant
            dmi == dmi_texts@.map_values(|t: String| t@),
            i <= dmi_texts@.len(),
            forall|j: int| 0 <= j < i ==> !names_hypervisor(lowercase(#[trigger] dmi[j])),
        decreases dmi_texts@.len() - i,
    {
        let lower = to_lowercase(dmi_texts[i].as_str());
        if dmi_text_names_hypervisor(lower.as_str()) {
            assert(names_hypervisor(lowercase(dmi[i as int])));
            return true;
        }
        i = i + 1;
    }
    match cpuinfo {
        Some(c) => cpuinfo_names_hypervisor(c),
        None => false,
    }
}

/// The vendor named by the first vendor id (trimmed) that is known.
pub open spec fn vendor_in_probes(ids: Seq<Seq<char>>) -> Option<&'static str>
    decreases ids.len(),
{
    if ids.len() == 0 {
        None
    } else if vendor_of_id(trim(ids[0])) is Some {
        vendor_of_id(trim(ids[0]))
    } else {
        vendor_in_probes(ids.drop_first())
    }
}

/// The vendor found in the probes is that of the first probe whose trimmed
/// id is known; there is none exactly when no probe's id is known.
pub proof fn lemma_vendor_in_probes_first_known(ids: Seq<Seq<char>>)
    ensures
        vendor_in_probes(ids) is None <==> forall|i: int|
            0 <= i < ids.len() ==> #[trigger] vendor_of_id(trim(ids[i])) is None,
        vendor_in_probes(ids) is Some ==> exists|i: int|
            0 <= i < ids.len() && vendor_in_probes(ids) == #[trigger] vendor_of_id(trim(ids[i]))
                && forall|j: int| 0 <= j < i ==> vendor_of_id(trim(ids[j])) is None,
    decreases ids.len(),
{
    if ids.len() > 0 {
        let rest = ids.drop_first();
        lemma_vendor_in_probes_first_known(rest);
        assert forall|i: int| 0 <= i < rest.len() implies rest[i] == ids[i + 1] by {}
        if vendor_of_id(trim(ids[0])) is Some {
            assert(vendor_in_probes(ids) == vendor_of_id(trim(ids[0])));
        } else {
            if vendor_in_probes(rest) is Some {
                let k = choose|i: int|
                    0 <= i < rest.len() && vendor_in_probes(rest) == #[trigger] vendor_of_id(
                        trim(rest[i]),
                    ) && forall|j: int| 0 <= j < i ==> vendor_of_id(trim(rest[j])) is None;
                assert(vendor_in_probes(ids) == vendor_of_id(trim(ids[k + 1])));
                assert forall|j: int| 0 <= j < k + 1 implies vendor_of_id(trim(ids[j])) is None by {
                    if j > 0 {
                        assert(ids[j] == rest[j - 1]);
                    }
                }
            } else {
                assert forall|i: int| 0 <= i < ids.len() implies #[trigger] vendor_of_id(
                    trim(ids[i]),
                ) is None by {
                    if i > 0 {
                        assert(ids[i] == rest[i - 1]);
                        assert(vendor_of_id(trim(rest[i - 1])) is None);
                    }
                }
            }
        }
    }
}

/// The GPU vendor from the DRM vendor files that could be read
/// (`/sys/class/drm/card0/device/vendor`, then `card1`): the first whose
/// id is known; unknown ids are skipped.
pub fn gpu_vendor_from_probes(vendor_ids: &Vec<String>) -> (r: Option<String>)
    ensures
        match vendor_in_probes(vendor_ids@.map_values(|t: String| t@)) {
            Some(v) => r matches Some(s) && s@ == v@,
            None => r is None,
        },
{
    let ghost ids = vendor_ids@.map_values(|t: String| t@);
    let mut i: usize = 0;
    assert(ids.skip(0) =~= ids);
    while i < vendor_ids.len()
        invariant
            ids == vendor_ids@.map_values(|t: String| t@),
            i <= vendor_ids@.len(),
            vendor_in_probes(ids) == vendor_in_probes(ids.skip(i as int)),
        decreases vendor_ids@.len() - i,
    {
        assert(ids.skip(i as int)[0] == ids[i as int]);
        let chars = crate::text::chars_of(vendor_ids[i].as_str());
        let (a, b) = crate::text::trim_bounds(&chars, 0, chars.len());
        assert(vendor_ids@[i as int]@.subrange(0, chars@.len() as int) =~= ids[i as int]);
        let id = vendor_ids[i].as_str().substring_char(a, b);
        match gpu_vendor_from_id(id) {
            Some(v) => {
                return Some(String::from_str(v));
            },
            None => {},
        }
        assert(ids.skip(i as int).drop_first() =~= ids.skip(i + 1));
        i = i + 1;
    }
    None
}

/// Chooses capture tiers for an environment.
#[derive(Debug)]
pub struct TierSelector {
    env_info: EnvironmentInfo,
}

impl TierSelector {
    /// The environment the selector decides for.
    pub closed spec fn spec_env(&self) -> EnvironmentInfo {
        self.env_info
    }

    /// A selector for the given environment.
    pub fn with_env(env_info: EnvironmentInfo) -> (r: TierSelector)
        ensures
            r.spec_env() == env_info,
    {
        TierSelector { env_info }
    }

    /// The environment.
    pub fn env_info(&self) -> (r: &EnvironmentInfo)
        ensures
            *r == self.spec_env(),
    {
        &self.env_info
    }

    /// The best tier the environment allows (see [`best_tier`]).
    pub fn select_best(&self) -> (r: CaptureTier)
        ensures
            r == best_tier(self.spec_env()),
            tier_usable(self.spec_env(), r),
    {
        if self.env_info.wayland_display.is_none() {
            return CaptureTier::Unavailable;
        }
        if self.env_info.dmabuf_likely_works() {
            return CaptureTier::Dmabuf;
        }
        if self.env_info.wayland_display.is_some() && self.env_info.has_runtime_dir {
            return CaptureTier::Shm;
        }
        CaptureTier::Cpu
    }

    /// `tier` when the environment allows it, else `None`.
    pub fn select_tier(&self, tier: CaptureTier) -> (r: Option<CaptureTier>)
        ensures
            r is Some <==> tier_usable(self.spec_env(), tier),
            r matches Some(t) ==> t == tier,
    {
        let available = match tier {
            CaptureTier::Dmabuf => self.env_info.dmabuf_likely_works(),
            CaptureTier::Shm => self.env_info.wayland_display.is_some()
                && self.env_info.has_runtime_dir,
            CaptureTier::Cpu => self.env_info.wayland_display.is_some(),
            CaptureTier::Unavailable => true,
        };
        if available {
            Some(tier)
        } else {
            None
        }
    }
}

/// With a Wayland display, the chosen tier is the best usable one: every
/// tier the environment allows ranks no higher than it, and it is usable.
pub proof fn lemma_best_tier_is_best(env: EnvironmentInfo, t: CaptureTier)
    requires
        tier_usable(env, t),
        env.wayland_display is Some,
    ensures
        tier_rank(t) <= tier_rank(best_tier(env)),
        tier_usable(env, best_tier(env)),
{
}

} // verus!
