//! The reads that differ per operating system.
//!
//! Each parser is separated from the subprocess that feeds it, so the parsing
//! is tested on any machine and only the invocation is platform-dependent.

use crate::snapshot::{GpuInfo, LinuxInfo, SystemSnapshot, VirtualizationInfo, WindowsInfo};
use crate::text::{
    Separator, begins_with, chars_of, find, lower_chars, parse_number, same,
    same_ignoring_case, split, split_at_colon, split_lines, split_whitespace, trim,
};
use vstd::prelude::*;

verus! {

/// What a field says, where it says yes or no at all.
pub open spec fn yes_or_no(field: Seq<char>) -> Option<bool> {
    let word = crate::text::lowered(crate::text::trimmed(field));
    if word == "true"@ {
        Some(true)
    } else if word == "false"@ {
        Some(false)
    } else {
        None
    }
}

/// What a field says, where it says yes or no at all.
pub fn parse_bool(field: &str) -> (flag: Option<bool>)
    ensures
        flag == yes_or_no(field@),
{
    proof {
        reveal_strlit("true");
        reveal_strlit("false");
    }
    assert(crate::text::lowered("true"@) =~= "true"@);
    assert(crate::text::lowered("false"@) =~= "false"@);
    let word = trim(field);
    if same_ignoring_case(word, "true") {
        Some(true)
    } else if same_ignoring_case(word, "false") {
        Some(false)
    } else {
        None
    }
}

/// Who makes a graphics processor, by the first of these that its model
/// mentions.
pub open spec fn maker(model: Seq<char>) -> Option<Seq<char>> {
    let model = crate::text::lowered(model);
    if crate::text::found(model, "nvidia"@) is Some {
        Some("NVIDIA"@)
    } else if crate::text::found(model, "amd"@) is Some {
        Some("AMD"@)
    } else if crate::text::found(model, "radeon"@) is Some {
        Some("AMD"@)
    } else if crate::text::found(model, "intel"@) is Some {
        Some("Intel"@)
    } else if crate::text::found(model, "apple"@) is Some {
        Some("Apple"@)
    } else {
        None
    }
}

/// Who makes a graphics processor, going by its model.
pub fn vendor_of(model: &str) -> (vendor: Option<String>)
    ensures
        crate::text::optional(vendor) == maker(model@),
{
    let model = lower_chars(model);
    if find(&model, &chars_of("nvidia")).is_some() {
        Some("NVIDIA".to_owned())
    } else if find(&model, &chars_of("amd")).is_some() {
        Some("AMD".to_owned())
    } else if find(&model, &chars_of("radeon")).is_some() {
        Some("AMD".to_owned())
    } else if find(&model, &chars_of("intel")).is_some() {
        Some("Intel".to_owned())
    } else if find(&model, &chars_of("apple")).is_some() {
        Some("Apple".to_owned())
    } else {
        None
    }
}

/// What the firmware flag and the hypervisor flag say together. A present
/// hypervisor is itself proof that virtualization is enabled, whatever the
/// firmware flag says. The flag exists only on a processor that supports
/// virtualization, so one that can be read says so even where it is off.
pub open spec fn virtualization(firmware: Option<bool>, hypervisor: Option<bool>) -> VirtualizationInfo {
    let enabled = if hypervisor == Some(true) {
        Some(true)
    } else {
        firmware
    };
    VirtualizationInfo {
        supported: if enabled is Some {
            Some(true)
        } else {
            None
        },
        enabled,
        hypervisor_present: hypervisor,
    }
}

/// What the two fields of a line say of virtualization.
pub open spec fn virtualization_in(stdout: Seq<char>) -> VirtualizationInfo {
    let fields = crate::text::pieces(crate::text::trimmed(stdout), Separator::Comma);
    virtualization(
        yes_or_no(fields[0]),
        if fields.len() > 1 {
            yes_or_no(fields[1])
        } else {
            None
        },
    )
}

/// `<VirtualizationFirmwareEnabled>,<HypervisorPresent>`.
///
/// Windows reports the firmware flag as `False` whenever a hypervisor is
/// already running, because the flag describes what firmware exposes to the
/// host rather than whether virtualization works. Trusting it unconditionally
/// would tell a machine already running Hyper-V to reboot into its BIOS.
pub fn parse_virtualization_csv(stdout: &str) -> (info: VirtualizationInfo)
    ensures
        info == virtualization_in(stdout@),
{
    let fields = split(trim(stdout), Separator::Comma);
    let ghost all = crate::text::slices(fields@);
    assert(all.len() == fields@.len());
    assert(all[0] == fields@[0]@);
    let firmware = parse_bool(fields[0]);
    let hypervisor = if fields.len() > 1 {
        assert(all[1] == fields@[1]@);
        parse_bool(fields[1])
    } else {
        None
    };
    let enabled = match (firmware, hypervisor) {
        (_, Some(true)) => Some(true),
        (Some(flag), _) => Some(flag),
        (None, _) => None,
    };
    VirtualizationInfo {
        // On Windows the firmware flag only exists on a CPU that supports it,
        // and a running hypervisor proves support outright.
        supported: match enabled {
            Some(_) => Some(true),
            None => None,
        },
        enabled,
        hypervisor_present: hypervisor,
    }
}

/// The first line at or after `from` that lists the processor's flags; the
/// number of lines where there is none.
pub open spec fn flags_line(lines: Seq<Seq<char>>, from: int) -> int
    decreases lines.len() - from,
{
    if from >= lines.len() || crate::text::leads_with(lines[from], "flags"@) {
        from
    } else {
        flags_line(lines, from + 1)
    }
}

/// What the processor's flags say of virtualization: `vmx` on Intel, `svm` on
/// AMD.
pub open spec fn virtualization_of_flags(contents: Seq<char>) -> VirtualizationInfo {
    let lines = crate::text::lines(contents);
    let at = flags_line(lines, 0);
    if at < lines.len() {
        let flags = crate::text::words(lines[at]);
        let supported = flags.contains("vmx"@) || flags.contains("svm"@);
        VirtualizationInfo {
            supported: Some(supported),
            enabled: Some(supported),
            hypervisor_present: None,
        }
    } else {
        crate::snapshot::unknown_virtualization()
    }
}

/// `vmx` (Intel) or `svm` (AMD) in `/proc/cpuinfo` flags.
pub fn parse_cpuinfo_flags(contents: &str) -> (info: VirtualizationInfo)
    ensures
        info == virtualization_of_flags(contents@),
{
    let lines = split_lines(contents);
    let ghost all = crate::text::slices(lines@);
    let mut at: usize = 0;
    assert(all.len() == lines@.len());
    while at < lines.len() && !begins_with(lines[at], "flags")
        invariant
            at <= lines@.len(),
            all == crate::text::slices(lines@),
            all.len() == lines@.len(),
            flags_line(all, at as int) == flags_line(all, 0),
        decreases lines@.len() - at,
    {
        assert(all[at as int] == lines@[at as int]@);
        at += 1;
    }
    if at >= lines.len() {
        return VirtualizationInfo::default();
    }
    assert(all[at as int] == lines@[at as int]@);
    let flags = split_whitespace(lines[at]);
    let ghost words = crate::text::slices(flags@);
    assert(words.len() == flags@.len());
    let mut supported = false;
    let mut index: usize = 0;
    while index < flags.len() && !supported
        invariant
            index <= flags@.len(),
            words == crate::text::slices(flags@),
            words.len() == flags@.len(),
            !supported ==> forall|i: int|
                0 <= i < index ==> #[trigger] words[i] != "vmx"@ && words[i] != "svm"@,
            supported ==> words.contains("vmx"@) || words.contains("svm"@),
        decreases flags@.len() - index,
    {
        assert(words[index as int] == flags@[index as int]@);
        if same(flags[index], "vmx") || same(flags[index], "svm") {
            supported = true;
        }
        index += 1;
    }
    // A flag present in `/proc/cpuinfo` means the kernel can see the feature,
    // which on Linux means firmware has already enabled it.
    VirtualizationInfo {
        supported: Some(supported),
        enabled: Some(supported),
        hypervisor_present: None,
    }
}

/// What a line says of a label: the text after the colon, where the text
/// before it is the label and there is something after it.
pub open spec fn said_of(line: Seq<char>, label: Seq<char>) -> Option<Seq<char>> {
    match crate::text::at_colon(line) {
        Some((key, value)) => if crate::text::lowered(crate::text::trimmed(key))
            == crate::text::lowered(label) && crate::text::trimmed(value).len() > 0 {
            Some(crate::text::trimmed(value))
        } else {
            None
        },
        None => None,
    }
}

/// What the first line at or after `from` to speak of a label says of it.
pub open spec fn value_after(lines: Seq<Seq<char>>, label: Seq<char>, from: int) -> Option<
    Seq<char>,
>
    decreases lines.len() - from,
{
    if from >= lines.len() {
        None
    } else {
        match said_of(lines[from], label) {
            Some(value) => Some(value),
            None => value_after(lines, label, from + 1),
        }
    }
}

/// What `wsl --status` says.
pub open spec fn wsl_in(stdout: Seq<char>) -> crate::snapshot::Windows {
    let lines = crate::text::lines(stdout);
    crate::snapshot::Windows {
        wsl_present: crate::text::trimmed(stdout).len() > 0,
        wsl_version: match value_after(lines, "Default Version"@, 0) {
            Some(value) => crate::text::number(value),
            None => None,
        },
        default_distro: value_after(lines, "Default Distribution"@, 0),
    }
}

fn find_value<'a>(lines: &Vec<&'a str>, label: &str) -> (value: Option<&'a str>)
    ensures
        crate::text::optional_slice(value) == value_after(
            crate::text::slices(lines@),
            label@,
            0,
        ),
{
    let ghost all = crate::text::slices(lines@);
    let mut index: usize = 0;
    assert(all.len() == lines@.len());
    while index < lines.len()
        invariant
            index <= lines@.len(),
            all == crate::text::slices(lines@),
            all.len() == lines@.len(),
            value_after(all, label@, index as int) == value_after(all, label@, 0),
        decreases lines@.len() - index,
    {
        assert(all[index as int] == lines@[index as int]@);
        if let Some((key, value)) = split_at_colon(lines[index]) {
            let value = trim(value);
            if same_ignoring_case(trim(key), label) && !value.is_empty() {
                return Some(value);
            }
        }
        index += 1;
    }
    None
}

pub fn parse_wsl_status(stdout: &str) -> (info: WindowsInfo)
    ensures
        info@ == wsl_in(stdout@),
{
    let lines = split_lines(stdout);
    let version = match find_value(&lines, "Default Version") {
        Some(value) => parse_number(value),
        None => None,
    };
    WindowsInfo {
        wsl_present: !trim(stdout).is_empty(),
        wsl_version: version,
        default_distro: match find_value(&lines, "Default Distribution") {
            Some(value) => Some(value.to_owned()),
            None => None,
        },
    }
}

/// The graphics processors that the first lines name, one each, the blank
/// lines left out.
pub open spec fn gpus_among(lines: Seq<Seq<char>>, first: int) -> Seq<crate::snapshot::Gpu>
    decreases first,
{
    if first <= 0 {
        Seq::empty()
    } else {
        let earlier = gpus_among(lines, first - 1);
        let model = crate::text::trimmed(lines[first - 1]);
        if model.len() > 0 {
            earlier.push(crate::snapshot::Gpu { vendor: maker(model), model: Some(model) })
        } else {
            earlier
        }
    }
}

/// The graphics processors that a command's output names.
pub open spec fn gpus_in(stdout: Seq<char>) -> Seq<crate::snapshot::Gpu> {
    let lines = crate::text::lines(stdout);
    gpus_among(lines, lines.len() as int)
}

pub fn parse_gpu_lines(stdout: &str) -> (gpus: Vec<GpuInfo>)
    ensures
        crate::snapshot::gpus_of(gpus@) == gpus_in(stdout@),
{
    let lines = split_lines(stdout);
    let ghost all = crate::text::slices(lines@);
    let mut gpus: Vec<GpuInfo> = Vec::new();
    let mut index: usize = 0;
    assert(all.len() == lines@.len());
    assert(crate::snapshot::gpus_of(gpus@) =~= Seq::empty());
    while index < lines.len()
        invariant
            index <= lines@.len(),
            all == crate::text::slices(lines@),
            all.len() == lines@.len(),
            crate::snapshot::gpus_of(gpus@) == gpus_among(all, index as int),
        decreases lines@.len() - index,
    {
        let ghost earlier = crate::snapshot::gpus_of(gpus@);
        assert(all[index as int] == lines@[index as int]@);
        let model = trim(lines[index]);
        if !model.is_empty() {
            gpus.push(GpuInfo { vendor: vendor_of(model), model: Some(model.to_owned()) });
            assert(crate::snapshot::gpus_of(gpus@) =~= earlier.push(gpus@.last()@));
        }
        index += 1;
    }
    gpus
}

/// What asks Windows for its firmware flag and its hypervisor flag.
pub const VIRTUALIZATION_QUERY: &'static str = "$c = Get-CimInstance Win32_ComputerSystem; $p = Get-CimInstance Win32_Processor | Select-Object -First 1; \"$($p.VirtualizationFirmwareEnabled),$($c.HypervisorPresent)\"";

/// What asks Windows which edition it is.
pub const CAPTION_QUERY: &'static str = "(Get-CimInstance Win32_OperatingSystem).Caption";

/// What asks Windows for its graphics processors.
pub const GPU_QUERY: &'static str = "Get-CimInstance Win32_VideoController | Select-Object -ExpandProperty Name";

/// How a Windows probe talks to PowerShell without a console window.
///
/// `powershell.exe` rather than `powershell`: the latter can resolve to a Store
/// alias that allocates a visible console. `-WindowStyle Hidden` is the belt to
/// that flag's braces.
pub fn hidden_powershell(script: &str) -> (command: (&'static str, Vec<String>))
    ensures
        command.0@ == "powershell.exe"@,
        crate::text::texts(command.1@) == seq![
            "-NoProfile"@,
            "-NonInteractive"@,
            "-WindowStyle"@,
            "Hidden"@,
            "-Command"@,
            script@,
        ],
{
    let mut args: Vec<String> = Vec::new();
    args.push("-NoProfile".to_owned());
    args.push("-NonInteractive".to_owned());
    args.push("-WindowStyle".to_owned());
    args.push("Hidden".to_owned());
    args.push("-Command".to_owned());
    args.push(script.to_owned());
    assert(crate::text::texts(args@) =~= seq![
        "-NoProfile"@,
        "-NonInteractive"@,
        "-WindowStyle"@,
        "Hidden"@,
        "-Command"@,
        script@,
    ]);
    ("powershell.exe", args)
}

/// How long a probe subprocess may run before it is treated as absent, in
/// milliseconds.
///
/// Short on purpose. These answers decorate a snapshot; they must never decide
/// whether the window opens.
pub const SUBPROCESS_TIMEOUT_MS: u64 = 2000;

/// What asking after a subprocess said.
#[derive(Debug, Clone, Copy, PartialEq, Eq, Structural)]
pub enum Waited {
    Exited { success: bool },
    StillRunning,
    Unknown,
}

/// What to do about a subprocess.
#[derive(Debug, Clone, Copy, PartialEq, Eq, Structural)]
pub enum Wait {
    /// Its output is the answer.
    Take,
    /// It is gone, and there is no answer.
    Drop,
    /// It is killed, and there is no answer.
    Kill,
    /// It may still answer.
    Again,
}

/// What to do about a subprocess that was asked after so many milliseconds in.
///
/// Killing it is load-bearing: a hung subprocess would keep running after it
/// was given up, and the next start could pile another one on top.
pub fn output_of_timed(waited: Waited, elapsed_ms: u64, timeout_ms: u64) -> (decided: Wait)
    ensures
        decided == match waited {
            Waited::Exited { success } => if success {
                Wait::Take
            } else {
                Wait::Drop
            },
            Waited::StillRunning => if elapsed_ms >= timeout_ms {
                Wait::Kill
            } else {
                Wait::Again
            },
            Waited::Unknown => Wait::Kill,
        },
{
    match waited {
        Waited::Exited { success } => if success {
            Wait::Take
        } else {
            Wait::Drop
        },
        Waited::StillRunning => if elapsed_ms >= timeout_ms {
            Wait::Kill
        } else {
            Wait::Again
        },
        Waited::Unknown => Wait::Kill,
    }
}

/// Which operating system this is, and what its files say without anything
/// being spawned.
#[derive(Debug)]
pub enum Host {
    Windows,
    Unix {
        /// `/proc/cpuinfo`, where it can be read.
        cpuinfo: Option<String>,
        /// What `/etc/os-release` says, where it can be read.
        release: Option<LinuxInfo>,
    },
}

/// A machine, told which operating system it runs.
pub open spec fn identified(machine: crate::snapshot::Machine, host: Host) -> crate::snapshot::Machine {
    match host {
        Host::Windows => crate::snapshot::Machine {
            windows: Some(crate::snapshot::plain_windows()),
            ..machine
        },
        Host::Unix { cpuinfo, release } => crate::snapshot::Machine {
            virtualization: match cpuinfo {
                Some(contents) => virtualization_of_flags(contents@),
                None => machine.virtualization,
            },
            linux: Some(
                match release {
                    Some(release) => release@,
                    None => crate::snapshot::plain_linux(),
                },
            ),
            ..machine
        },
    }
}

/// Mark which operating system this is, without spawning anything.
///
/// Windows is recorded as "this is Windows" with WSL unknown: filling WSL in is
/// [`enrich`]'s job.
pub fn identify(snapshot: &mut SystemSnapshot, host: &Host)
    ensures
        final(snapshot)@ == identified(old(snapshot)@, *host),
{
    match host {
        Host::Windows => {
            snapshot.windows = Some(WindowsInfo::default());
        },
        Host::Unix { cpuinfo, release } => {
            if let Some(contents) = cpuinfo {
                snapshot.virtualization = parse_cpuinfo_flags(contents.as_str());
            }
            snapshot.linux = Some(
                match release {
                    Some(release) => release.duplicate(),
                    None => LinuxInfo::default(),
                },
            );
        },
    }
}

/// What the subprocesses answered. A command that could not be run, failed or
/// did not answer in time answered nothing.
#[derive(Debug)]
pub enum Answers {
    Windows {
        virtualization: Option<String>,
        caption: Option<String>,
        gpus: Option<String>,
        wsl: Option<String>,
    },
    Unix { gpus: Option<String> },
}

/// A machine with what the subprocesses answered filled in. What they did not
/// answer stays as it was.
pub open spec fn enriched(machine: crate::snapshot::Machine, answers: Answers) -> crate::snapshot::Machine {
    match answers {
        Answers::Windows { virtualization, caption, gpus, wsl } => crate::snapshot::Machine {
            virtualization: match virtualization {
                Some(stdout) => virtualization_in(stdout@),
                None => machine.virtualization,
            },
            os: match caption {
                Some(stdout) => crate::snapshot::Os {
                    edition: if crate::text::trimmed(stdout@).len() > 0 {
                        Some(crate::text::trimmed(stdout@))
                    } else {
                        None
                    },
                    ..machine.os
                },
                None => machine.os,
            },
            gpus: match gpus {
                Some(stdout) => gpus_in(stdout@),
                None => machine.gpus,
            },
            windows: Some(
                match wsl {
                    Some(stdout) => wsl_in(stdout@),
                    None => crate::snapshot::plain_windows(),
                },
            ),
            ..machine
        },
        Answers::Unix { gpus } => crate::snapshot::Machine {
            gpus: match gpus {
                Some(stdout) => gpus_in(stdout@),
                None => machine.gpus,
            },
            ..machine
        },
    }
}

/// Fill in the facts that need a subprocess. Failures leave fields unknown.
///
/// Not called before the window opens: the commands hang after a reboot or when
/// WSL is wedged, and a snapshot that waited for them was a snapshot that kept
/// the window closed.
pub fn enrich(snapshot: &mut SystemSnapshot, answers: &Answers)
    ensures
        final(snapshot)@ == enriched(old(snapshot)@, *answers),
{
    match answers {
        Answers::Windows { virtualization, caption, gpus, wsl } => {
            if let Some(stdout) = virtualization {
                snapshot.virtualization = parse_virtualization_csv(stdout.as_str());
            }
            if let Some(stdout) = caption {
                let caption = trim(stdout.as_str());
                snapshot.os.edition = if caption.is_empty() {
                    None
                } else {
                    Some(caption.to_owned())
                };
            }
            if let Some(stdout) = gpus {
                snapshot.gpus = parse_gpu_lines(stdout.as_str());
            }
            snapshot.windows = Some(
                match wsl {
                    Some(stdout) => parse_wsl_status(stdout.as_str()),
                    None => WindowsInfo::default(),
                },
            );
        },
        Answers::Unix { gpus } => {
            if let Some(stdout) = gpus {
                snapshot.gpus = parse_gpu_lines(stdout.as_str());
            }
        },
    }
}

/// A running hypervisor is proof that virtualization works, whatever the
/// firmware says; and what cannot be read is unknown rather than off.
pub proof fn law_a_hypervisor_proves_virtualization(
    firmware: Option<bool>,
    hypervisor: Option<bool>,
)
    ensures
        hypervisor == Some(true) ==> virtualization(firmware, hypervisor).enabled == Some(true)
            && virtualization(firmware, hypervisor).supported == Some(true),
        hypervisor != Some(true) ==> virtualization(firmware, hypervisor).enabled == firmware,
        virtualization(firmware, hypervisor).hypervisor_present == hypervisor,
{
}

/// A machine that supports virtualization and has it switched off is told apart
/// from one of which nothing is known, and neither is ever said not to support
/// it: one needs a setting, and for the other there is nothing to advise.
pub proof fn law_switched_off_is_not_absent(hypervisor: Option<bool>)
    requires
        hypervisor != Some(true),
    ensures
        virtualization(Some(false), hypervisor).supported == Some(true),
        virtualization(Some(false), hypervisor).enabled == Some(false),
        virtualization(None, hypervisor).supported is None,
        virtualization(None, hypervisor).enabled is None,
{
}

/// Subprocesses that answer nothing leave a machine as it was, but that a
/// Windows machine is then known to be one.
pub proof fn law_silence_changes_nothing(machine: crate::snapshot::Machine)
    ensures
        enriched(machine, Answers::Unix { gpus: None }) == machine,
        enriched(
            machine,
            Answers::Windows { virtualization: None, caption: None, gpus: None, wsl: None },
        ) == (crate::snapshot::Machine {
            windows: Some(crate::snapshot::plain_windows()),
            ..machine
        }),
{
}

proof fn every_gpu_has_a_model(lines: Seq<Seq<char>>, first: int)
    ensures
        forall|i: int|
            0 <= i < gpus_among(lines, first).len() ==> {
                let gpu = #[trigger] gpus_among(lines, first)[i];
                gpu.model is Some && gpu.model->0.len() > 0 && gpu.vendor == maker(gpu.model->0)
            },
        first >= 0 ==> gpus_among(lines, first).len() <= first,
    decreases first,
{
    if first > 0 {
        every_gpu_has_a_model(lines, first - 1);
    }
}

/// Every graphics processor that is reported has a model, which is never
/// blank, and its vendor is the one its model names.
pub proof fn law_blank_lines_are_no_gpus(stdout: Seq<char>)
    ensures
        forall|i: int|
            0 <= i < gpus_in(stdout).len() ==> {
                let gpu = #[trigger] gpus_in(stdout)[i];
                gpu.model is Some && gpu.model->0.len() > 0 && gpu.vendor == maker(gpu.model->0)
            },
        gpus_in(stdout).len() <= crate::text::lines(stdout).len(),
{
    every_gpu_has_a_model(crate::text::lines(stdout), crate::text::lines(stdout).len() as int);
}

} // verus!
