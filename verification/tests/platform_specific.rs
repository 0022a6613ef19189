//! Reading what an operating system says of its machine.

use project_host::probe::platform_specific::{
    hidden_powershell, output_of_timed, parse_bool, parse_cpuinfo_flags, parse_gpu_lines,
    parse_virtualization_csv, parse_wsl_status, vendor_of, Wait, Waited, SUBPROCESS_TIMEOUT_MS,
};

#[test]
fn windows_virtualization_output_is_parsed() {
    // `VirtualizationFirmwareEnabled,HypervisorPresent` from Win32_Processor
    // and Win32_ComputerSystem, emitted as one CSV line.
    let info = parse_virtualization_csv("True,False");
    assert_eq!(info.supported, Some(true));
    assert_eq!(info.enabled, Some(true));
    assert_eq!(info.hypervisor_present, Some(false));
}

#[test]
fn virtualization_supported_but_disabled_is_distinguished_from_absent() {
    // These two produce completely different advice: one is a reboot into
    // firmware, the other has no fix on this machine at all.
    let disabled = parse_virtualization_csv("False,False");
    assert_eq!(disabled.enabled, Some(false));
    assert_eq!(disabled.supported, Some(true));
    assert_eq!(disabled.hypervisor_present, Some(false));
    assert_eq!(parse_virtualization_csv("").supported, None);

    // When a hypervisor is already running, Windows reports the firmware
    // flag as False even though virtualization plainly works. Trusting it
    // would tell a working machine to reboot into its BIOS.
    let running = parse_virtualization_csv("False,True");
    assert_eq!(running.enabled, Some(true));
    assert_eq!(running.hypervisor_present, Some(true));
    assert_eq!(running.supported, Some(true));
}

#[test]
fn unreadable_virtualization_output_is_unknown_rather_than_false() {
    let info = parse_virtualization_csv("");
    assert_eq!(info.enabled, None);
    assert_eq!(parse_virtualization_csv("nonsense").enabled, None);
}

#[test]
fn cpuinfo_flags_reveal_virtualization_support() {
    let intel = parse_cpuinfo_flags("flags\t: fpu vme de pse vmx est tm2\n");
    assert_eq!(intel.supported, Some(true));

    let amd = parse_cpuinfo_flags("flags\t: fpu vme de pse svm nx\n");
    assert_eq!(amd.supported, Some(true));

    let neither = parse_cpuinfo_flags("flags\t: fpu vme de pse\n");
    assert_eq!(neither.supported, Some(false));

    assert_eq!(parse_cpuinfo_flags("").supported, None);
}

#[test]
fn wsl_status_reports_its_default_version() {
    let status = parse_wsl_status("Default Version: 2\nDefault Distribution: Ubuntu\n");
    assert!(status.wsl_present);
    assert_eq!(status.wsl_version, Some(2));
    assert_eq!(status.default_distro.as_deref(), Some("Ubuntu"));
}

#[test]
fn absent_wsl_is_reported_as_absent() {
    let status = parse_wsl_status("");
    assert!(!status.wsl_present);
    assert_eq!(status.wsl_version, None);
}

#[test]
fn gpu_lines_become_entries_and_blanks_are_dropped() {
    let gpus = parse_gpu_lines("NVIDIA GeForce RTX 4070\n\nIntel(R) UHD Graphics\n");
    assert_eq!(gpus.len(), 2);
    assert_eq!(gpus[0].vendor.as_deref(), Some("NVIDIA"));
    assert_eq!(gpus[0].model.as_deref(), Some("NVIDIA GeForce RTX 4070"));
    assert_eq!(gpus[1].vendor.as_deref(), Some("Intel"));
    assert!(parse_gpu_lines("").is_empty());
}

#[test]
fn a_windows_probe_asks_powershell_to_stay_hidden() {
    let (program, args) = hidden_powershell("Get-Date");
    assert_eq!(
        program, "powershell.exe",
        "the `powershell` alias can open a visible console"
    );
    assert!(
        args.windows(2).any(
            |pair| pair.first().map(String::as_str) == Some("-WindowStyle")
                && pair.get(1).map(String::as_str) == Some("Hidden")
        ),
        "PowerShell was started without -WindowStyle Hidden: {args:?}"
    );
}

#[test]
fn a_command_that_finishes_in_time_has_its_output_taken() {
    assert_eq!(
        output_of_timed(Waited::StillRunning, 0, 2000),
        Wait::Again
    );
    assert_eq!(
        output_of_timed(Waited::Exited { success: true }, 25, 2000),
        Wait::Take
    );
}

#[test]
fn a_hung_command_is_killed_when_its_time_is_up() {
    assert_eq!(output_of_timed(Waited::StillRunning, 399, 400), Wait::Again);
    assert_eq!(output_of_timed(Waited::StillRunning, 400, 400), Wait::Kill);
    assert_eq!(SUBPROCESS_TIMEOUT_MS, 2000);
}

#[test]
fn a_command_that_failed_says_nothing() {
    assert_eq!(
        output_of_timed(Waited::Exited { success: false }, 5, 2000),
        Wait::Drop
    );
    assert_eq!(output_of_timed(Waited::Unknown, 5, 2000), Wait::Kill);
}

#[test]
fn a_flag_is_read_whatever_its_case() {
    assert_eq!(parse_bool(" TRUE "), Some(true));
    assert_eq!(parse_bool("false"), Some(false));
    assert_eq!(parse_bool("yes"), None);
}

#[test]
fn a_vendor_is_named_by_the_model() {
    assert_eq!(vendor_of("Radeon Pro").as_deref(), Some("AMD"));
    assert_eq!(vendor_of("Apple M2").as_deref(), Some("Apple"));
    assert_eq!(vendor_of("Matrox G200"), None);
}

#[test]
fn a_wsl_version_that_is_no_number_is_unknown() {
    let status = parse_wsl_status("Default Version: two\n");
    assert!(status.wsl_present);
    assert_eq!(status.wsl_version, None);
    assert_eq!(status.default_distro, None);
}
