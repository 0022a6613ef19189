//! What is known of a machine.
//!
//! Everything but the architecture may be unknown: a machine where something
//! refuses to answer still gets a snapshot, with that field left unknown.

use crate::text::{copied, same};
use vstd::prelude::*;

verus! {

/// What a processor runs.
#[derive(Debug, PartialEq, Eq)]
pub enum Architecture {
    X86_64,
    Aarch64,
    Other(String),
}

/// An architecture as a mathematical value.
pub enum Arch {
    X86_64,
    Aarch64,
    Other(Seq<char>),
}

impl View for Architecture {
    type V = Arch;

    open spec fn view(&self) -> Arch {
        match self {
            Architecture::X86_64 => Arch::X86_64,
            Architecture::Aarch64 => Arch::Aarch64,
            Architecture::Other(name) => Arch::Other(name@),
        }
    }
}

/// The architecture a compiler's word for a target names.
pub open spec fn arch_of(target: Seq<char>) -> Arch {
    if target == "x86_64"@ {
        Arch::X86_64
    } else if target == "aarch64"@ {
        Arch::Aarch64
    } else {
        Arch::Other(target)
    }
}

impl Architecture {
    /// The architecture a compiler's word for a target names.
    pub fn from_target(target: &str) -> (arch: Architecture)
        ensures
            arch@ == arch_of(target@),
    {
        if same(target, "x86_64") {
            Architecture::X86_64
        } else if same(target, "aarch64") {
            Architecture::Aarch64
        } else {
            Architecture::Other(target.to_owned())
        }
    }

    fn duplicate(&self) -> (copy: Architecture)
        ensures
            copy@ == self@,
    {
        match self {
            Architecture::X86_64 => Architecture::X86_64,
            Architecture::Aarch64 => Architecture::Aarch64,
            Architecture::Other(name) => Architecture::Other(name.clone()),
        }
    }
}

#[derive(Debug, Clone, Copy, PartialEq, Eq, Structural)]
pub struct CpuInfo {
    pub logical_cores: Option<u32>,
}

#[derive(Debug, Clone, Copy, PartialEq, Eq, Structural)]
pub struct MemoryInfo {
    pub total_bytes: Option<u64>,
    pub available_bytes: Option<u64>,
}

#[derive(Debug, Clone, Copy, PartialEq, Eq, Structural)]
pub struct VirtualizationInfo {
    /// Whether the processor can.
    pub supported: Option<bool>,
    /// Whether firmware lets it.
    pub enabled: Option<bool>,
    /// Whether something already does.
    pub hypervisor_present: Option<bool>,
}

impl Default for VirtualizationInfo {
    fn default() -> (info: VirtualizationInfo)
        ensures
            info == unknown_virtualization(),
    {
        VirtualizationInfo { supported: None, enabled: None, hypervisor_present: None }
    }
}

/// Nothing known of virtualization.
pub open spec fn unknown_virtualization() -> VirtualizationInfo {
    VirtualizationInfo { supported: None, enabled: None, hypervisor_present: None }
}

#[derive(Debug, PartialEq, Eq)]
pub struct OsInfo {
    pub name: Option<String>,
    pub kernel: Option<String>,
    pub version: Option<String>,
    pub edition: Option<String>,
}

/// An operating system as a mathematical value.
pub struct Os {
    pub name: Option<Seq<char>>,
    pub kernel: Option<Seq<char>>,
    pub version: Option<Seq<char>>,
    pub edition: Option<Seq<char>>,
}

impl View for OsInfo {
    type V = Os;

    open spec fn view(&self) -> Os {
        Os {
            name: crate::text::optional(self.name),
            kernel: crate::text::optional(self.kernel),
            version: crate::text::optional(self.version),
            edition: crate::text::optional(self.edition),
        }
    }
}

impl OsInfo {
    pub fn duplicate(&self) -> (copy: OsInfo)
        ensures
            copy@ == self@,
    {
        OsInfo {
            name: copied(&self.name),
            kernel: copied(&self.kernel),
            version: copied(&self.version),
            edition: copied(&self.edition),
        }
    }
}

#[derive(Debug, PartialEq, Eq)]
pub struct VolumeInfo {
    pub mount: String,
    pub total_bytes: u64,
    pub available_bytes: u64,
}

impl Clone for VolumeInfo {
    fn clone(&self) -> (copy: VolumeInfo)
        ensures
            copy == *self,
    {
        VolumeInfo {
            mount: self.mount.clone(),
            total_bytes: self.total_bytes,
            available_bytes: self.available_bytes,
        }
    }
}

#[derive(Debug, PartialEq, Eq)]
pub struct GpuInfo {
    pub vendor: Option<String>,
    pub model: Option<String>,
}

/// A graphics processor as a mathematical value.
pub struct Gpu {
    pub vendor: Option<Seq<char>>,
    pub model: Option<Seq<char>>,
}

impl View for GpuInfo {
    type V = Gpu;

    open spec fn view(&self) -> Gpu {
        Gpu {
            vendor: crate::text::optional(self.vendor),
            model: crate::text::optional(self.model),
        }
    }
}

/// Graphics processors as mathematical values.
pub open spec fn gpus_of(list: Seq<GpuInfo>) -> Seq<Gpu> {
    list.map_values(|gpu: GpuInfo| gpu@)
}

#[derive(Debug, PartialEq, Eq)]
pub struct WindowsInfo {
    pub wsl_present: bool,
    pub wsl_version: Option<u32>,
    pub default_distro: Option<String>,
}

/// What is known of Windows, as a mathematical value.
pub struct Windows {
    pub wsl_present: bool,
    pub wsl_version: Option<u32>,
    pub default_distro: Option<Seq<char>>,
}

impl View for WindowsInfo {
    type V = Windows;

    open spec fn view(&self) -> Windows {
        Windows {
            wsl_present: self.wsl_present,
            wsl_version: self.wsl_version,
            default_distro: crate::text::optional(self.default_distro),
        }
    }
}

/// Windows, with nothing known of it.
pub open spec fn plain_windows() -> Windows {
    Windows { wsl_present: false, wsl_version: None, default_distro: None }
}

impl Default for WindowsInfo {
    fn default() -> (info: WindowsInfo)
        ensures
            info@ == plain_windows(),
    {
        WindowsInfo { wsl_present: false, wsl_version: None, default_distro: None }
    }
}

#[derive(Debug, PartialEq, Eq)]
pub struct LinuxInfo {
    pub distribution: Option<String>,
    pub version: Option<String>,
}

/// What is known of Linux, as a mathematical value.
pub struct Linux {
    pub distribution: Option<Seq<char>>,
    pub version: Option<Seq<char>>,
}

impl View for LinuxInfo {
    type V = Linux;

    open spec fn view(&self) -> Linux {
        Linux {
            distribution: crate::text::optional(self.distribution),
            version: crate::text::optional(self.version),
        }
    }
}

/// Linux, with nothing known of it.
pub open spec fn plain_linux() -> Linux {
    Linux { distribution: None, version: None }
}

impl Default for LinuxInfo {
    fn default() -> (info: LinuxInfo)
        ensures
            info@ == plain_linux(),
    {
        LinuxInfo { distribution: None, version: None }
    }
}

impl LinuxInfo {
    pub fn duplicate(&self) -> (copy: LinuxInfo)
        ensures
            copy@ == self@,
    {
        LinuxInfo { distribution: copied(&self.distribution), version: copied(&self.version) }
    }
}

/// What is known of a machine.
#[derive(Debug, PartialEq, Eq)]
pub struct SystemSnapshot {
    pub arch: Architecture,
    pub os: OsInfo,
    pub cpu: CpuInfo,
    pub memory: MemoryInfo,
    pub volumes: Vec<VolumeInfo>,
    pub gpus: Vec<GpuInfo>,
    pub virtualization: VirtualizationInfo,
    pub windows: Option<WindowsInfo>,
    pub linux: Option<LinuxInfo>,
}

/// A machine as a mathematical value.
#[verifier::ext_equal]
pub struct Machine {
    pub arch: Arch,
    pub os: Os,
    pub cpu: CpuInfo,
    pub memory: MemoryInfo,
    pub volumes: Seq<VolumeInfo>,
    pub gpus: Seq<Gpu>,
    pub virtualization: VirtualizationInfo,
    pub windows: Option<Windows>,
    pub linux: Option<Linux>,
}

impl View for SystemSnapshot {
    type V = Machine;

    open spec fn view(&self) -> Machine {
        Machine {
            arch: self.arch@,
            os: self.os@,
            cpu: self.cpu,
            memory: self.memory,
            volumes: self.volumes@,
            gpus: gpus_of(self.gpus@),
            virtualization: self.virtualization,
            windows: match self.windows {
                Some(windows) => Some(windows@),
                None => None,
            },
            linux: match self.linux {
                Some(linux) => Some(linux@),
                None => None,
            },
        }
    }
}

/// A machine nothing is known of.
pub open spec fn unknown_machine() -> Machine {
    Machine {
        arch: Arch::Other("unknown"@),
        os: Os { name: None, kernel: None, version: None, edition: None },
        cpu: CpuInfo { logical_cores: None },
        memory: MemoryInfo { total_bytes: None, available_bytes: None },
        volumes: Seq::empty(),
        gpus: Seq::empty(),
        virtualization: unknown_virtualization(),
        windows: None,
        linux: None,
    }
}

impl SystemSnapshot {
    /// A machine nothing is known of.
    pub fn unknown() -> (snapshot: SystemSnapshot)
        ensures
            snapshot@ == unknown_machine(),
    {
        let snapshot = SystemSnapshot {
            arch: Architecture::Other("unknown".to_owned()),
            os: OsInfo { name: None, kernel: None, version: None, edition: None },
            cpu: CpuInfo { logical_cores: None },
            memory: MemoryInfo { total_bytes: None, available_bytes: None },
            volumes: Vec::new(),
            gpus: Vec::new(),
            virtualization: VirtualizationInfo::default(),
            windows: None,
            linux: None,
        };
        assert(snapshot@ =~= unknown_machine());
        snapshot
    }

    /// A snapshot of its own that says the same.
    pub fn duplicate(&self) -> (copy: SystemSnapshot)
        ensures
            copy@ == self@,
    {
        let mut gpus: Vec<GpuInfo> = Vec::new();
        let ghost all = gpus_of(self.gpus@);
        let mut index: usize = 0;
        assert(gpus_of(gpus@) =~= Seq::empty());
        while index < self.gpus.len()
            invariant
                index <= self.gpus@.len(),
                all == gpus_of(self.gpus@),
                gpus_of(gpus@) == all.take(index as int),
            decreases self.gpus@.len() - index,
        {
            let gpu = &self.gpus[index];
            let ghost earlier = gpus_of(gpus@);
            gpus.push(GpuInfo { vendor: copied(&gpu.vendor), model: copied(&gpu.model) });
            assert(gpus_of(gpus@) =~= earlier.push(all[index as int]));
            assert(all.take(index + 1) =~= all.take(index as int).push(all[index as int]));
            index += 1;
        }
        assert(all.take(index as int) =~= all);
        SystemSnapshot {
            arch: self.arch.duplicate(),
            os: self.os.duplicate(),
            cpu: self.cpu,
            memory: self.memory,
            volumes: duplicate_volumes(&self.volumes),
            gpus,
            virtualization: self.virtualization,
            windows: match &self.windows {
                Some(windows) => Some(
                    WindowsInfo {
                        wsl_present: windows.wsl_present,
                        wsl_version: windows.wsl_version,
                        default_distro: copied(&windows.default_distro),
                    },
                ),
                None => None,
            },
            linux: match &self.linux {
                Some(linux) => Some(linux.duplicate()),
                None => None,
            },
        }
    }
}

/// A list of its own of the same volumes.
pub fn duplicate_volumes(volumes: &Vec<VolumeInfo>) -> (copy: Vec<VolumeInfo>)
    ensures
        copy@ == volumes@,
{
    let mut copy: Vec<VolumeInfo> = Vec::new();
    let mut index: usize = 0;
    while index < volumes.len()
        invariant
            index <= volumes@.len(),
            copy@ == volumes@.take(index as int),
        decreases volumes@.len() - index,
    {
        copy.push(volumes[index].clone());
        assert(copy@ =~= volumes@.take(index + 1));
        index += 1;
    }
    assert(volumes@.take(index as int) =~= volumes@);
    copy
}

} // verus!
