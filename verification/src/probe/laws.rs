//! What a machine's own words say of it.

use super::SystemScanner;
use super::platform_specific::{Answers, Host};
use crate::snapshot::{Arch, Gpu, Machine, SystemSnapshot};
use crate::text::Separator;
use vstd::prelude::*;

verus! {

/// A field says yes or no by one word, in any case and with any white space
/// around it; any other says neither.
pub proof fn law_a_field_says_yes_or_no(field: Seq<char>)
    ensures
        ({
            let word = crate::text::lowered(crate::text::trimmed(field));
            &&& word == "true"@ <==> super::platform_specific::yes_or_no(field) == Some(true)
            &&& word == "false"@ <==> super::platform_specific::yes_or_no(field) == Some(false)
            &&& word != "true"@ && word != "false"@ <==> super::platform_specific::yes_or_no(
                field,
            ) is None
        }),
{
    reveal_strlit("true");
    reveal_strlit("false");
    assert("true"@.len() == 4 && "false"@.len() == 5);
}

/// Whether a model mentions a maker's word, in any case.
pub open spec fn mentions(model: Seq<char>, word: Seq<char>) -> bool {
    exists|at: int| #[trigger]
        crate::text::laws::occurs(crate::text::lowered(model), word, at)
}

/// Who makes a graphics processor is told by its model: NVIDIA before AMD, that
/// before Intel, and that before Apple, where it mentions several; Radeon is
/// AMD's. A model that mentions none of them has no maker.
pub proof fn law_a_model_names_its_maker(model: Seq<char>)
    ensures
        ({
            let nvidia = mentions(model, "nvidia"@);
            let amd = mentions(model, "amd"@) || mentions(model, "radeon"@);
            let intel = mentions(model, "intel"@);
            let apple = mentions(model, "apple"@);
            let named = super::platform_specific::maker(model);
            &&& nvidia ==> named == Some("NVIDIA"@)
            &&& !nvidia && amd ==> named == Some("AMD"@)
            &&& !nvidia && !amd && intel ==> named == Some("Intel"@)
            &&& !nvidia && !amd && !intel && apple ==> named == Some("Apple"@)
            &&& !nvidia && !amd && !intel && !apple ==> named is None
        }),
{
    let s = crate::text::lowered(model);
    found_is_mentioned(model, "nvidia"@);
    found_is_mentioned(model, "amd"@);
    found_is_mentioned(model, "radeon"@);
    found_is_mentioned(model, "intel"@);
    found_is_mentioned(model, "apple"@);
}

proof fn found_is_mentioned(model: Seq<char>, word: Seq<char>)
    ensures
        crate::text::found(crate::text::lowered(model), word) is Some <==> mentions(model, word),
{
    crate::text::laws::law_a_text_is_found_where_it_first_stands(
        crate::text::lowered(model),
        word,
    );
}

/// A line of two fields is read in their order: the firmware's word first, the
/// hypervisor's second. A hypervisor that runs proves that virtualization is
/// there and on; otherwise the firmware's word is taken. What is said either
/// way shows that the processor can.
pub proof fn law_the_firmware_comes_first_and_the_hypervisor_wins(stdout: Seq<char>)
    ensures
        ({
            let fields = crate::text::pieces(crate::text::trimmed(stdout), Separator::Comma);
            let firmware = super::platform_specific::yes_or_no(fields[0]);
            let hypervisor = if fields.len() > 1 {
                super::platform_specific::yes_or_no(fields[1])
            } else {
                None
            };
            let info = super::platform_specific::virtualization_in(stdout);
            &&& info.hypervisor_present == hypervisor
            &&& hypervisor == Some(true) ==> info.enabled == Some(true)
            &&& hypervisor != Some(true) ==> info.enabled == firmware
            &&& info.enabled is Some ==> info.supported == Some(true)
            &&& info.enabled is None ==> info.supported is None
        }),
{
}

proof fn the_first_line_of_flags(lines: Seq<Seq<char>>, from: int, at: int)
    requires
        0 <= from <= at <= lines.len(),
        forall|j: int|
            from <= j < at ==> !crate::text::leads_with(#[trigger] lines[j], "flags"@),
        at < lines.len() ==> crate::text::leads_with(lines[at], "flags"@),
    ensures
        super::platform_specific::flags_line(lines, from) == at,
    decreases at - from,
{
    if from < at {
        assert(!crate::text::leads_with(lines[from], "flags"@));
        the_first_line_of_flags(lines, from + 1, at);
    }
}

/// The first line of flags decides: virtualization is there and on where one of
/// its words is `vmx` or `svm`, and neither where none is. Without such a line
/// nothing is known, and of a hypervisor nothing is known either way.
pub proof fn law_the_flags_say_whether_a_processor_can(contents: Seq<char>, at: int)
    requires
        0 <= at <= crate::text::lines(contents).len(),
        forall|j: int|
            0 <= j < at ==> !crate::text::leads_with(
                #[trigger] crate::text::lines(contents)[j],
                "flags"@,
            ),
        at < crate::text::lines(contents).len() ==> crate::text::leads_with(
            crate::text::lines(contents)[at],
            "flags"@,
        ),
    ensures
        ({
            let lines = crate::text::lines(contents);
            let info = super::platform_specific::virtualization_of_flags(contents);
            let flags = crate::text::words(lines[at]);
            let able = exists|i: int|
                0 <= i < flags.len() && (#[trigger] flags[i] == "vmx"@ || flags[i] == "svm"@);
            &&& info.hypervisor_present is None
            &&& at == lines.len() ==> info.supported is None && info.enabled is None
            &&& at < lines.len() ==> info.supported == Some(able) && info.enabled == Some(able)
        }),
{
    let lines = crate::text::lines(contents);
    the_first_line_of_flags(lines, 0, at);
    if at < lines.len() {
        let flags = crate::text::words(lines[at]);
        if flags.contains("vmx"@) {
            let i = choose|i: int| 0 <= i < flags.len() && flags[i] == "vmx"@;
            assert(flags[i] == "vmx"@);
        }
        if flags.contains("svm"@) {
            let i = choose|i: int| 0 <= i < flags.len() && flags[i] == "svm"@;
            assert(flags[i] == "svm"@);
        }
    }
}

/// A line says of a label what stands after its first colon, where what stands
/// before it is the label, in any case and with any white space around either;
/// a line with nothing after the colon says nothing.
pub proof fn law_a_line_speaks_of_its_label(
    key: Seq<char>,
    value: Seq<char>,
    label: Seq<char>,
)
    requires
        forall|i: int| 0 <= i < key.len() ==> #[trigger] key[i] != ':',
    ensures
        super::platform_specific::said_of(key, label) is None,
        ({
            let said = super::platform_specific::said_of(key.push(':') + value, label);
            let speaks = crate::text::lowered(crate::text::trimmed(key)) == crate::text::lowered(
                label,
            ) && crate::text::trimmed(value).len() > 0;
            &&& speaks ==> said == Some(crate::text::trimmed(value))
            &&& !speaks ==> said is None
        }),
{
    crate::text::laws::law_a_text_is_broken_at_its_first_colon(key, value);
}

proof fn the_first_line_to_speak(lines: Seq<Seq<char>>, label: Seq<char>, from: int, at: int)
    requires
        0 <= from <= at <= lines.len(),
        forall|j: int|
            from <= j < at ==> super::platform_specific::said_of(#[trigger] lines[j], label)
                is None,
        at < lines.len() ==> super::platform_specific::said_of(lines[at], label) is Some,
    ensures
        super::platform_specific::value_after(lines, label, from) == if at < lines.len() {
            super::platform_specific::said_of(lines[at], label)
        } else {
            None
        },
    decreases at - from,
{
    if from < at {
        assert(super::platform_specific::said_of(lines[from], label) is None);
        the_first_line_to_speak(lines, label, from + 1, at);
    }
}

/// The first line that speaks of a label is the one that is taken.
pub proof fn law_the_first_line_to_speak_is_taken(
    lines: Seq<Seq<char>>,
    label: Seq<char>,
    at: int,
)
    requires
        0 <= at <= lines.len(),
        forall|j: int|
            0 <= j < at ==> super::platform_specific::said_of(#[trigger] lines[j], label) is None,
        at < lines.len() ==> super::platform_specific::said_of(lines[at], label) is Some,
    ensures
        at < lines.len() ==> super::platform_specific::value_after(lines, label, 0)
            == super::platform_specific::said_of(lines[at], label),
        at == lines.len() ==> super::platform_specific::value_after(lines, label, 0) is None,
{
    the_first_line_to_speak(lines, label, 0, at);
}

/// The subsystem is there where it said anything at all; its version and its
/// default distribution are what it says under those labels, and the version
/// only where it is a number.
pub proof fn law_the_subsystem_speaks_for_itself(stdout: Seq<char>)
    ensures
        ({
            let told = super::platform_specific::wsl_in(stdout);
            let lines = crate::text::lines(stdout);
            let version = super::platform_specific::value_after(lines, "Default Version"@, 0);
            &&& told.wsl_present <==> crate::text::trimmed(stdout).len() > 0
            &&& version is Some ==> told.wsl_version == crate::text::number(version->0)
            &&& version is None ==> told.wsl_version is None
            &&& told.default_distro == super::platform_specific::value_after(
                lines,
                "Default Distribution"@,
                0,
            )
        }),
{
}

/// Every line that is not blank is a graphics processor, in their order: its
/// model is the line without the white space around it, and its vendor is who
/// makes that model.
pub proof fn law_every_line_is_a_gpu(lines: Seq<Seq<char>>, more: Seq<char>)
    ensures
        ({
            let model = crate::text::trimmed(more);
            let earlier = super::platform_specific::gpus_among(lines, lines.len() as int);
            let longer = super::platform_specific::gpus_among(
                lines.push(more),
                lines.len() as int + 1,
            );
            &&& super::platform_specific::gpus_among(Seq::empty(), 0).len() == 0
            &&& model.len() == 0 ==> longer == earlier
            &&& model.len() > 0 ==> {
                &&& longer.len() == earlier.len() + 1
                &&& longer.drop_last() == earlier
                &&& longer.last().model == Some(model)
                &&& longer.last().vendor == super::platform_specific::maker(model)
            }
        }),
{
    the_first_lines_are_read_alike(lines, lines.push(more), lines.len() as int);
    let earlier = super::platform_specific::gpus_among(lines, lines.len() as int);
    let longer = super::platform_specific::gpus_among(lines.push(more), lines.len() as int + 1);
    if crate::text::trimmed(more).len() > 0 {
        assert(longer.drop_last() =~= earlier);
    }
}

proof fn the_first_lines_are_read_alike(one: Seq<Seq<char>>, other: Seq<Seq<char>>, first: int)
    requires
        first <= one.len(),
        first <= other.len(),
        forall|i: int| 0 <= i < first ==> #[trigger] one[i] == other[i],
    ensures
        super::platform_specific::gpus_among(one, first) == super::platform_specific::gpus_among(
            other,
            first,
        ),
    decreases first,
{
    if first > 0 {
        assert(one[first - 1] == other[first - 1]);
        the_first_lines_are_read_alike(one, other, first - 1);
    }
}

/// The graphics processors of an output are those of all its lines.
pub proof fn law_an_output_is_read_to_its_end(stdout: Seq<char>)
    ensures
        super::platform_specific::gpus_in(stdout) == super::platform_specific::gpus_among(
            crate::text::lines(stdout),
            crate::text::lines(stdout).len() as int,
        ),
{
}

/// What a machine keeps whatever is asked of its subprocesses.
pub open spec fn hardware_alike(one: Machine, other: Machine) -> bool {
    &&& one.arch == other.arch
    &&& one.cpu == other.cpu
    &&& one.memory == other.memory
    &&& one.volumes == other.volumes
    &&& one.os.name == other.os.name
    &&& one.os.kernel == other.os.kernel
    &&& one.os.version == other.os.version
}

/// What a subprocess answered is filled in, each answer where it belongs, and
/// what it did not answer stays as it was. A Windows machine is known to be one
/// whatever its subsystem says.
pub proof fn law_an_answer_goes_where_it_belongs(machine: Machine, answers: Answers)
    ensures
        ({
            let told = super::platform_specific::enriched(machine, answers);
            &&& hardware_alike(told, machine)
            &&& told.linux == machine.linux
            &&& match answers {
                Answers::Windows { virtualization, caption, gpus, wsl } => {
                    &&& virtualization is Some ==> told.virtualization
                        == super::platform_specific::virtualization_in(virtualization->0@)
                    &&& virtualization is None ==> told.virtualization == machine.virtualization
                    &&& caption is None ==> told.os.edition == machine.os.edition
                    &&& caption is Some && crate::text::trimmed(caption->0@).len() > 0
                        ==> told.os.edition == Some(crate::text::trimmed(caption->0@))
                    &&& caption is Some && crate::text::trimmed(caption->0@).len() == 0
                        ==> told.os.edition is None
                    &&& gpus is Some ==> told.gpus == super::platform_specific::gpus_in(gpus->0@)
                    &&& gpus is None ==> told.gpus == machine.gpus
                    &&& told.windows is Some
                    &&& wsl is Some ==> told.windows == Some(
                        super::platform_specific::wsl_in(wsl->0@),
                    )
                    &&& wsl is None ==> !told.windows->0.wsl_present && told.windows->0.wsl_version
                        is None && told.windows->0.default_distro is None
                },
                Answers::Unix { gpus } => {
                    &&& told.virtualization == machine.virtualization
                    &&& told.os.edition == machine.os.edition
                    &&& told.windows == machine.windows
                    &&& gpus is Some ==> told.gpus == super::platform_specific::gpus_in(gpus->0@)
                    &&& gpus is None ==> told.gpus == machine.gpus
                },
            }
        }),
{
}

/// A machine is told which system it runs, and nothing else of it changes: a
/// Windows machine is one with nothing known of its subsystem; any other has
/// what its own files say.
pub proof fn law_a_machine_is_told_its_system(machine: Machine, host: Host)
    ensures
        ({
            let told = super::platform_specific::identified(machine, host);
            &&& hardware_alike(told, machine)
            &&& told.os.edition == machine.os.edition
            &&& told.gpus == machine.gpus
            &&& match host {
                Host::Windows => {
                    &&& told.virtualization == machine.virtualization
                    &&& told.linux == machine.linux
                    &&& told.windows is Some
                    &&& !told.windows->0.wsl_present
                    &&& told.windows->0.wsl_version is None
                    &&& told.windows->0.default_distro is None
                },
                Host::Unix { cpuinfo, release } => {
                    &&& told.windows == machine.windows
                    &&& cpuinfo is Some ==> told.virtualization
                        == super::platform_specific::virtualization_of_flags(cpuinfo->0@)
                    &&& cpuinfo is None ==> told.virtualization == machine.virtualization
                    &&& told.linux is Some
                    &&& release is Some ==> told.linux == Some(release->0@)
                    &&& release is None ==> told.linux->0.distribution is None
                        && told.linux->0.version is None
                },
            }
        }),
{
}

/// A scanner passes on what it read: its counters, its volumes and the names of
/// the system, under the architecture it was compiled for.
pub proof fn law_a_scanner_passes_on_what_it_read(scanner: SystemScanner)
    ensures
        ({
            let told = scanner.local();
            &&& scanner.target@ == "x86_64"@ ==> told.arch is X86_64
            &&& scanner.target@ == "aarch64"@ ==> told.arch is Aarch64
            &&& scanner.target@ != "x86_64"@ && scanner.target@ != "aarch64"@ ==> told.arch
                == Arch::Other(scanner.target@)
            &&& told.cpu == scanner.cpu
            &&& told.memory == scanner.memory
            &&& told.volumes == scanner.volumes@
            &&& told.os == scanner.os@
            &&& told.gpus.len() == 0
            &&& scanner.host is Windows ==> told.virtualization.supported is None
                && told.virtualization.enabled is None && told.virtualization.hypervisor_present
                is None
        }),
{
    reveal_strlit("x86_64");
    reveal_strlit("aarch64");
    assert("x86_64"@.len() == 6 && "aarch64"@.len() == 7);
}

/// A machine nothing is known of.
pub proof fn law_nothing_is_known_of_an_unknown_machine()
    ensures
        ({
            let machine = crate::snapshot::unknown_machine();
            &&& machine.arch == Arch::Other("unknown"@)
            &&& machine.os.name is None && machine.os.kernel is None && machine.os.version is None
                && machine.os.edition is None
            &&& machine.cpu.logical_cores is None
            &&& machine.memory.total_bytes is None && machine.memory.available_bytes is None
            &&& machine.volumes.len() == 0
            &&& machine.gpus.len() == 0
            &&& machine.virtualization.supported is None && machine.virtualization.enabled is None
                && machine.virtualization.hypervisor_present is None
            &&& machine.windows is None
            &&& machine.linux is None
        }),
{
}

/// A snapshot is read as it is written.
pub proof fn law_a_snapshot_is_read_whole(snapshot: SystemSnapshot)
    ensures
        snapshot@.cpu == snapshot.cpu,
        snapshot@.memory == snapshot.memory,
        snapshot@.volumes == snapshot.volumes@,
        snapshot@.virtualization == snapshot.virtualization,
        snapshot@.gpus.len() == snapshot.gpus@.len(),
        forall|i: int|
            0 <= i < snapshot.gpus@.len() ==> read_whole(
                #[trigger] snapshot@.gpus[i],
                snapshot.gpus@[i],
            ),
        snapshot@.windows is Some <==> snapshot.windows is Some,
        snapshot.windows is Some ==> ({
            let told = snapshot@.windows->0;
            let info = snapshot.windows->0;
            &&& told.wsl_present == info.wsl_present
            &&& told.wsl_version == info.wsl_version
            &&& told.default_distro is Some <==> info.default_distro is Some
            &&& info.default_distro is Some ==> told.default_distro->0 == info.default_distro->0@
        }),
        snapshot@.linux is Some <==> snapshot.linux is Some,
        snapshot.linux is Some ==> ({
            let told = snapshot@.linux->0;
            let info = snapshot.linux->0;
            &&& told.distribution is Some <==> info.distribution is Some
            &&& info.distribution is Some ==> told.distribution->0 == info.distribution->0@
            &&& told.version is Some <==> info.version is Some
            &&& info.version is Some ==> told.version->0 == info.version->0@
        }),
        ({
            let told = snapshot@.os;
            let info = snapshot.os;
            &&& told.name is Some <==> info.name is Some
            &&& info.name is Some ==> told.name->0 == info.name->0@
            &&& told.kernel is Some <==> info.kernel is Some
            &&& info.kernel is Some ==> told.kernel->0 == info.kernel->0@
            &&& told.version is Some <==> info.version is Some
            &&& info.version is Some ==> told.version->0 == info.version->0@
            &&& told.edition is Some <==> info.edition is Some
            &&& info.edition is Some ==> told.edition->0 == info.edition->0@
        }),
        match snapshot.arch {
            crate::snapshot::Architecture::X86_64 => snapshot@.arch is X86_64,
            crate::snapshot::Architecture::Aarch64 => snapshot@.arch is Aarch64,
            crate::snapshot::Architecture::Other(name) => snapshot@.arch == Arch::Other(name@),
        },
{
}

/// Whether a graphics processor is told as it is.
pub open spec fn read_whole(told: Gpu, info: crate::snapshot::GpuInfo) -> bool {
    &&& told.vendor is Some <==> info.vendor is Some
    &&& info.vendor is Some ==> told.vendor->0 == info.vendor->0@
    &&& told.model is Some <==> info.model is Some
    &&& info.model is Some ==> told.model->0 == info.model->0@
}

/// A subprocess has two seconds to answer, and Windows is asked for its flags,
/// its edition and its graphics processors in these words.
pub proof fn law_windows_is_asked_in_its_own_words()
    ensures
        super::platform_specific::SUBPROCESS_TIMEOUT_MS == 2000,
        super::platform_specific::VIRTUALIZATION_QUERY@
            == "$c = Get-CimInstance Win32_ComputerSystem; $p = Get-CimInstance Win32_Processor | Select-Object -First 1; \"$($p.VirtualizationFirmwareEnabled),$($c.HypervisorPresent)\""@,
        super::platform_specific::CAPTION_QUERY@
            == "(Get-CimInstance Win32_OperatingSystem).Caption"@,
        super::platform_specific::GPU_QUERY@
            == "Get-CimInstance Win32_VideoController | Select-Object -ExpandProperty Name"@,
{
}

} // verus!
