//! Reading a machine.

use project_host::probe::platform_specific::{Answers, Host};
use project_host::probe::{known_bytes, known_cores, FixedProbe, SystemProbe, SystemScanner};
use project_host::snapshot::{
    Architecture, CpuInfo, LinuxInfo, MemoryInfo, OsInfo, SystemSnapshot, VirtualizationInfo,
    VolumeInfo,
};

/// What this machine says of itself without anything being spawned.
fn scanner(host: Host) -> SystemScanner {
    let mut system = sysinfo::System::new();
    system.refresh_memory();
    system.refresh_cpu_all();
    let disks = sysinfo::Disks::new_with_refreshed_list();
    SystemScanner {
        target: sysinfo::System::cpu_arch(),
        cpu: CpuInfo {
            logical_cores: u32::try_from(system.cpus().len()).ok(),
        },
        memory: MemoryInfo {
            total_bytes: Some(system.total_memory()),
            available_bytes: Some(system.available_memory()),
        },
        volumes: disks
            .iter()
            .map(|disk| VolumeInfo {
                mount: disk.mount_point().to_string_lossy().into_owned(),
                total_bytes: disk.total_space(),
                available_bytes: disk.available_space(),
            })
            .collect(),
        os: OsInfo {
            name: sysinfo::System::name(),
            kernel: sysinfo::System::kernel_version(),
            version: sysinfo::System::os_version(),
            edition: None,
        },
        host,
    }
}

fn unix() -> Host {
    Host::Unix {
        cpuinfo: None,
        release: None,
    }
}

#[test]
fn a_fixed_probe_returns_exactly_what_it_was_given() {
    // The seam that makes every downstream decision testable: results must
    // never depend on the machine running the test.
    let mut machine = SystemSnapshot::unknown();
    machine.cpu.logical_cores = Some(2);
    machine.memory.total_bytes = Some(4 * 1024 * 1024 * 1024);

    let probe = FixedProbe::new(machine.duplicate());
    assert_eq!(probe.snapshot(), machine);
}

#[test]
fn the_real_scanner_always_produces_a_snapshot() {
    // No failure case. Whatever this machine is, and whatever refuses to
    // answer, a snapshot comes back.
    let snapshot = scanner(unix()).snapshot();
    assert!(
        !matches!(snapshot.arch, Architecture::Other(ref name) if name == "unknown"),
        "the architecture is always knowable from the compiled target"
    );
}

#[test]
fn the_startup_snapshot_does_not_wait_for_powershell_or_wsl() {
    // GPU, firmware virtualization and WSL status are only knowable here
    // via PowerShell CIM queries and `wsl --status`. Those commands hang
    // after a reboot, with no network, or when WSL is wedged, and that
    // hang used to sit in front of the window. The snapshot the
    // application takes before opening the window must not ask them.
    let snapshot = scanner(Host::Windows).snapshot();
    assert_eq!(
        snapshot.virtualization,
        VirtualizationInfo::default(),
        "virtualization on Windows comes from CIM; reading it here means the window waited"
    );
    assert!(
        snapshot.gpus.is_empty(),
        "GPU names come from Win32_VideoController; reading them here means the window waited"
    );
    assert!(
        snapshot.windows.is_some(),
        "the OS still has to be identifiable as Windows, or toolchain install thinks the host is unknown"
    );
}

#[test]
fn the_startup_snapshot_finishes_quickly() {
    // A bound rather than a guess. sysinfo is local; anything that needs a
    // subprocess to answer cannot make this. Two seconds is already longer
    // than a person will wait for a click to produce a window.
    let started = std::time::Instant::now();
    let _snapshot = scanner(unix()).snapshot();
    let elapsed = started.elapsed();
    assert!(
        elapsed < std::time::Duration::from_secs(2),
        "startup snapshot took {elapsed:?}; a hung wsl or PowerShell is sitting on the launch path"
    );
}

#[test]
fn what_was_read_is_what_is_described() {
    let read = scanner(Host::Unix {
        cpuinfo: Some("processor\t: 0\nflags\t: fpu vmx\n".to_string()),
        release: Some(LinuxInfo {
            distribution: Some("Debian".to_string()),
            version: Some("12".to_string()),
        }),
    });
    let snapshot = read.snapshot_local();
    assert_eq!(snapshot.cpu, read.cpu);
    assert_eq!(snapshot.memory, read.memory);
    assert_eq!(snapshot.volumes, read.volumes);
    assert_eq!(snapshot.os, read.os);
    assert_eq!(snapshot.virtualization.supported, Some(true));
    assert_eq!(snapshot.windows, None);
    assert_eq!(
        snapshot.linux.and_then(|linux| linux.distribution).as_deref(),
        Some("Debian")
    );
}

#[test]
fn a_full_snapshot_adds_what_the_subprocesses_answered() {
    let scanner = scanner(Host::Windows);
    let snapshot = scanner.snapshot_full(&Answers::Windows {
        virtualization: Some("True,True\r\n".to_string()),
        caption: Some(" Microsoft Windows 11 Pro \r\n".to_string()),
        gpus: Some("AMD Radeon RX 7800\n".to_string()),
        wsl: Some("Default Version: 1\n".to_string()),
    });
    assert_eq!(snapshot.virtualization.enabled, Some(true));
    assert_eq!(
        snapshot.os.edition.as_deref(),
        Some("Microsoft Windows 11 Pro")
    );
    assert_eq!(snapshot.gpus.len(), 1);
    assert_eq!(snapshot.gpus[0].vendor.as_deref(), Some("AMD"));
    assert_eq!(snapshot.windows.and_then(|w| w.wsl_version), Some(1));
}

#[test]
fn silence_leaves_a_snapshot_as_it_was() {
    let scanner = scanner(unix());
    assert_eq!(
        scanner.snapshot_full(&Answers::Unix { gpus: None }),
        scanner.snapshot_local()
    );
}

#[test]
fn a_target_names_its_architecture() {
    assert_eq!(Architecture::from_target("x86_64"), Architecture::X86_64);
    assert_eq!(Architecture::from_target("aarch64"), Architecture::Aarch64);
    assert_eq!(
        Architecture::from_target("riscv64"),
        Architecture::Other("riscv64".to_string())
    );
}

#[test]
fn a_count_of_zero_is_unknown() {
    assert_eq!(known_bytes(0), None);
    assert_eq!(known_bytes(1), Some(1));
    assert_eq!(known_bytes(u64::MAX), Some(u64::MAX));
    assert_eq!(known_cores(0), None);
    assert_eq!(known_cores(8), Some(8));
    assert_eq!(known_cores(0xffff_ffff), Some(u32::MAX));
}
