//! Reading this machine.
//!
//! Probing goes through [`SystemProbe`] so that consumers depend on the seam
//! rather than on the machine.

pub mod laws;
pub mod platform_specific;

use crate::snapshot::{
    Architecture, CpuInfo, MemoryInfo, OsInfo, SystemSnapshot, VolumeInfo, duplicate_volumes,
};
use platform_specific::{Answers, Host, enrich, identify};
use vstd::prelude::*;

verus! {

/// Something that can describe this machine.
pub trait SystemProbe {
    /// The machine it describes.
    spec fn described(&self) -> crate::snapshot::Machine;

    fn snapshot(&self) -> (snapshot: SystemSnapshot)
        ensures
            snapshot@ == self.described(),
    ;
}

/// A count of bytes as the machine gave it: a machine that cannot count
/// answers zero, which means unknown.
pub fn known_bytes(count: u64) -> (known: Option<u64>)
    ensures
        known == if count > 0 {
            Some(count)
        } else {
            None::<u64>
        },
{
    if count > 0 {
        Some(count)
    } else {
        None
    }
}

/// The number of cores as the machine gave it: zero means unknown, and so does
/// a number that is out of range.
pub fn known_cores(count: usize) -> (known: Option<u32>)
    ensures
        known == if 0 < count <= u32::MAX {
            Some(count as u32)
        } else {
            None::<u32>
        },
{
    if 0 < count && count <= 0xffff_ffff {
        Some(count as u32)
    } else {
        None
    }
}

/// What can be read of the machine without spawning anything: the machine's
/// own counters, and the files that say what it is.
#[derive(Debug)]
pub struct SystemScanner {
    /// The target this program was compiled for.
    pub target: String,
    pub cpu: CpuInfo,
    pub memory: MemoryInfo,
    pub volumes: Vec<VolumeInfo>,
    pub os: OsInfo,
    pub host: Host,
}

impl SystemScanner {
    /// The machine as far as it can be known without spawning anything.
    pub open spec fn local(self) -> crate::snapshot::Machine {
        platform_specific::identified(
            crate::snapshot::Machine {
                arch: crate::snapshot::arch_of(self.target@),
                cpu: self.cpu,
                memory: self.memory,
                volumes: self.volumes@,
                os: self.os@,
                ..crate::snapshot::unknown_machine()
            },
            self.host,
        )
    }

    /// Counters plus cheap file reads. Safe to call before the window opens.
    pub fn snapshot_local(&self) -> (snapshot: SystemSnapshot)
        ensures
            snapshot@ == self.local(),
    {
        let mut snapshot = SystemSnapshot::unknown();
        // Always knowable: it is the target this program was compiled for.
        snapshot.arch = Architecture::from_target(self.target.as_str());
        snapshot.cpu = self.cpu;
        snapshot.memory = self.memory;
        snapshot.volumes = duplicate_volumes(&self.volumes);
        snapshot.os = self.os.duplicate();
        identify(&mut snapshot, &self.host);
        snapshot
    }

    /// The full picture, with what the subprocess probes answered.
    ///
    /// Used when the user asks a question that needs GPU, WSL or firmware
    /// virtualization, not when the window is trying to appear.
    pub fn snapshot_full(&self, answers: &Answers) -> (snapshot: SystemSnapshot)
        ensures
            snapshot@ == platform_specific::enriched(self.local(), *answers),
    {
        let mut snapshot = self.snapshot_local();
        enrich(&mut snapshot, answers);
        snapshot
    }
}

impl SystemProbe for SystemScanner {
    open spec fn described(&self) -> crate::snapshot::Machine {
        self.local()
    }

    fn snapshot(&self) -> (snapshot: SystemSnapshot) {
        // The fast path. Subprocess probes hang after a reboot and used to
        // keep the window closed.
        self.snapshot_local()
    }
}

/// Returns a snapshot decided by the test, so results never depend on the
/// machine running them.
#[derive(Debug)]
pub struct FixedProbe(SystemSnapshot);

impl FixedProbe {
    pub closed spec fn fixed(self) -> crate::snapshot::Machine {
        self.0@
    }

    pub fn new(snapshot: SystemSnapshot) -> (probe: FixedProbe)
        ensures
            probe.fixed() == snapshot@,
    {
        FixedProbe(snapshot)
    }
}

impl SystemProbe for FixedProbe {
    open spec fn described(&self) -> crate::snapshot::Machine {
        self.fixed()
    }

    fn snapshot(&self) -> (snapshot: SystemSnapshot) {
        self.0.duplicate()
    }
}

/// The snapshot taken before the window opens waits for nothing: what only a
/// subprocess could answer is unknown in it, and on Windows that it is Windows
/// is known all the same.
pub proof fn law_the_startup_snapshot_waits_for_nothing(scanner: SystemScanner)
    ensures
        scanner.described().gpus == Seq::<crate::snapshot::Gpu>::empty(),
        scanner.host is Windows ==> scanner.described().virtualization
            == crate::snapshot::unknown_virtualization(),
        scanner.host is Windows <==> scanner.described().windows is Some,
        scanner.host is Unix <==> scanner.described().linux is Some,
{
}

/// The architecture is always known: it is the one the program was compiled
/// for.
pub proof fn law_the_architecture_is_always_known(scanner: SystemScanner, answers: Answers)
    ensures
        scanner.described().arch == crate::snapshot::arch_of(scanner.target@),
        platform_specific::enriched(scanner.described(), answers).arch
            == scanner.described().arch,
{
}

} // verus!
