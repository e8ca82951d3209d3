//! Initialization of the processors and the count of those that are online.

use vstd::prelude::*;
use crate::boot::{BootRole, Features};
use crate::boot_info::{is_single_kernel, is_uhyve, is_uhyve_with_pci, BootInfo, BootRecord};

verus! {

/// One hardware step of a processor's initialization, for the caller to perform.
#[derive(Clone, Copy, Debug, PartialEq, Eq, Structural)]
pub enum InitStep {
    PerCoreInit,
    DetectFeatures,
    ConfigureProcessor,
    VgaInit,
    MemoryInit,
    MemoryPrintInformation,
    EnvironmentInit,
    GdtInit,
    GdtAddCurrentCore,
    IdtInstall,
    PicInit,
    IrqInstall,
    DetectFrequency,
    ProcessorPrintInformation,
    SystemTimeInit,
    PciInit,
    PciPrintInformation,
    AcpiInit,
    ApicInit,
    ApicInitX2,
    ApicInitLocal,
    InstallTimerHandler,
    /// Enter the local APIC identifier of the processor that has come up.
    AddLocalApicId(u8),
    /// Prepare the variables with which the processor of this identifier will start.
    InitNextProcessorVariables(u32),
    IrqEnable,
}

/// The steps that end a processor's initialization. Under the hypervisor,
/// which starts every processor itself, the processor `core_id` enters its
/// own APIC identifier and prepares the start of the next one.
pub open spec fn finish_plan(info: BootInfo, core_id: u32) -> Seq<InitStep> {
    if info.spec_is_uhyve() {
        seq![
            InitStep::AddLocalApicId(core_id as u8),
            InitStep::InitNextProcessorVariables((core_id + 1) as u32),
        ]
    } else {
        Seq::empty()
    }
}

/// The steps of the boot processor, in order.
pub open spec fn boot_processor_plan(info: BootInfo, features: Features) -> Seq<InitStep> {
    let single = info.spec_is_single_kernel();
    let uhyve = info.spec_is_uhyve();
    seq![InitStep::DetectFeatures, InitStep::ConfigureProcessor] + (if features.vga && single
        && !uhyve {
        seq![InitStep::VgaInit]
    } else {
        Seq::empty()
    }) + seq![
        InitStep::MemoryInit,
        InitStep::MemoryPrintInformation,
        InitStep::EnvironmentInit,
        InitStep::GdtInit,
        InitStep::GdtAddCurrentCore,
        InitStep::IdtInstall,
        InitStep::PicInit,
        InitStep::IrqInstall,
        InitStep::DetectFrequency,
        InitStep::ProcessorPrintInformation,
        InitStep::SystemTimeInit,
    ] + (if features.pci && single && (info.spec_is_uhyve_with_pci() || !uhyve) {
        seq![InitStep::PciInit, InitStep::PciPrintInformation]
    } else {
        Seq::empty()
    }) + (if features.acpi && single && !uhyve {
        seq![InitStep::AcpiInit]
    } else {
        Seq::empty()
    }) + seq![InitStep::ApicInit, InitStep::InstallTimerHandler] + finish_plan(
        info,
        info.cpu_online,
    ) + seq![InitStep::IrqEnable]
}

/// The steps of an application processor, in order.
pub open spec fn application_processor_plan(info: BootInfo) -> Seq<InitStep> {
    seq![
        InitStep::PerCoreInit,
        InitStep::ConfigureProcessor,
        InitStep::GdtAddCurrentCore,
        InitStep::IdtInstall,
        InitStep::ApicInitX2,
        InitStep::ApicInitLocal,
        InitStep::IrqEnable,
    ] + finish_plan(info, info.cpu_online)
}

/// Ends the initialization of a processor: returns the closing steps and
/// counts the processor as online. The processor's identifier is the count
/// before.
pub fn finish_processor_init(record: &mut BootRecord) -> (steps: Vec<InitStep>)
    requires
        old(record)@.cpu_online < u32::MAX,
    ensures
        steps@ == finish_plan(old(record)@, old(record)@.cpu_online),
        final(record)@ == (BootInfo {
            cpu_online: (old(record)@.cpu_online + 1) as u32,
            ..old(record)@
        }),
{
    let mut steps: Vec<InitStep> = Vec::new();
    let uhyve = is_uhyve(record);
    let core_id = record.add_online_cpu();
    if uhyve {
        steps.push(InitStep::AddLocalApicId(core_id as u8));
        steps.push(InitStep::InitNextProcessorVariables(core_id + 1));
    }
    assert(steps@ =~= finish_plan(old(record)@, old(record)@.cpu_online));
    steps
}

/// A processor that has finished its initialization.
#[derive(Clone, Copy, Debug, PartialEq, Eq, Structural)]
pub struct Core {
    pub id: u32,
    pub role: BootRole,
}

/// The role of the processor with the identifier `id`.
pub open spec fn role_of(id: int) -> BootRole {
    if id == 0 {
        BootRole::BootProcessor
    } else {
        BootRole::ApplicationProcessor
    }
}

/// The processors with the identifiers from `from` up to, not including, `to`.
pub open spec fn cores_between(from: int, to: int) -> Seq<Core> {
    Seq::new(
        if to >= from {
            (to - from) as nat
        } else {
            0
        },
        |i: int| Core { id: (from + i) as u32, role: role_of(from + i) },
    )
}

/// The mathematical state of a machine.
pub struct MachineView {
    pub record: BootInfo,
    pub features: Features,
    pub cores: Seq<Core>,
}

impl MachineView {
    /// Every processor that is online has been initialized once, and its
    /// identifier is the online count that it found.
    pub open spec fn wf(self) -> bool {
        self.cores == cores_between(0, self.record.cpu_online as int)
    }

    /// All processors that the machine may have are online.
    pub open spec fn complete(self) -> bool {
        self.record.cpu_online == self.record.possible_cpus
    }
}

/// The processors of a machine and the record they share.
pub struct Machine {
    record: BootRecord,
    features: Features,
    cores: Vec<Core>,
}

impl View for Machine {
    type V = MachineView;

    closed spec fn view(&self) -> MachineView {
        MachineView { record: self.record@, features: self.features, cores: self.cores@ }
    }
}

impl Machine {
    /// Holds of every machine that this module hands out.
    pub open spec fn wf(&self) -> bool {
        self@.wf()
    }

    /// The machine as the boot processor finds it: nobody is online. `None`
    /// if the record says otherwise.
    pub fn new(record: BootRecord, features: Features) -> (machine: Option<Machine>)
        ensures
            machine.is_some() <==> record@.cpu_online == 0,
            machine matches Some(m) ==> m.wf() && m@ == (MachineView {
                record: record@,
                features,
                cores: Seq::empty(),
            }),
    {
        if record.info().cpu_online == 0 {
            let machine = Machine { record, features, cores: Vec::new() };
            assert(machine@.cores =~= cores_between(0, 0));
            Some(machine)
        } else {
            None
        }
    }

    /// The hand-off record that the processors share.
    pub fn record(&self) -> (record: &BootRecord)
        ensures
            record@ == self@.record,
    {
        &self.record
    }

    /// What the kernel was built with.
    pub fn features(&self) -> (features: Features)
        ensures
            features == self@.features,
    {
        self.features
    }

    /// The processors that are online, by identifier.
    pub fn cores(&self) -> (cores: &Vec<Core>)
        ensures
            cores@ == self@.cores,
    {
        &self.cores
    }

    /// The number of processors that have finished their initialization.
    pub fn cpu_online(&self) -> (n: u32)
        ensures
            n == self@.record.cpu_online,
    {
        self.record.info().cpu_online
    }

    fn register(&mut self, role: BootRole) -> (steps: Vec<InitStep>)
        requires
            old(self).wf(),
            old(self)@.record.cpu_online < u32::MAX,
            role == role_of(old(self)@.record.cpu_online as int),
        ensures
            final(self).wf(),
            steps@ == finish_plan(old(self)@.record, old(self)@.record.cpu_online),
            final(self)@ == (MachineView {
                record: BootInfo {
                    cpu_online: (old(self)@.record.cpu_online + 1) as u32,
                    ..old(self)@.record
                },
                cores: old(self)@.cores.push(Core { id: old(self)@.record.cpu_online, role }),
                ..old(self)@
            }),
    {
        let id = self.record.info().cpu_online;
        let steps = finish_processor_init(&mut self.record);
        self.cores.push(Core { id, role });
        assert(self.cores@ =~= cores_between(0, id + 1));
        steps
    }
}

/// Initializes the boot processor: returns its steps, in order, and counts
/// it as online.
pub fn boot_processor_init(machine: &mut Machine) -> (plan: Vec<InitStep>)
    requires
        old(machine).wf(),
        old(machine)@.record.cpu_online == 0,
    ensures
        final(machine).wf(),
        plan@ == boot_processor_plan(old(machine)@.record, old(machine)@.features),
        final(machine)@ == (MachineView {
            record: BootInfo { cpu_online: 1, ..old(machine)@.record },
            cores: seq![Core { id: 0, role: BootRole::BootProcessor }],
            ..old(machine)@
        }),
{
    let features = machine.features;
    let single = is_single_kernel(&machine.record);
    let uhyve = is_uhyve(&machine.record);
    let uhyve_with_pci = is_uhyve_with_pci(&machine.record);
    let mut plan: Vec<InitStep> = Vec::new();
    plan.push(InitStep::DetectFeatures);
    plan.push(InitStep::ConfigureProcessor);
    if features.vga && single && !uhyve {
        plan.push(InitStep::VgaInit);
    }
    plan.push(InitStep::MemoryInit);
    plan.push(InitStep::MemoryPrintInformation);
    plan.push(InitStep::EnvironmentInit);
    plan.push(InitStep::GdtInit);
    plan.push(InitStep::GdtAddCurrentCore);
    plan.push(InitStep::IdtInstall);
    plan.push(InitStep::PicInit);
    plan.push(InitStep::IrqInstall);
    plan.push(InitStep::DetectFrequency);
    plan.push(InitStep::ProcessorPrintInformation);
    plan.push(InitStep::SystemTimeInit);
    if single {
        if uhyve_with_pci || !uhyve {
            if features.pci {
                plan.push(InitStep::PciInit);
                plan.push(InitStep::PciPrintInformation);
            }
        }
        if !uhyve {
            if features.acpi {
                plan.push(InitStep::AcpiInit);
            }
        }
    }
    plan.push(InitStep::ApicInit);
    plan.push(InitStep::InstallTimerHandler);
    let ghost before_finish = plan@;
    let mut finish = machine.register(BootRole::BootProcessor);
    plan.append(&mut finish);
    plan.push(InitStep::IrqEnable);
    proof {
        let info = old(machine)@.record;
        assert(plan@ =~= before_finish + finish_plan(info, info.cpu_online) + seq![
            InitStep::IrqEnable,
        ]);
        assert(plan@ =~= boot_processor_plan(info, old(machine)@.features));
        assert(final(machine)@.cores =~= seq![Core { id: 0, role: BootRole::BootProcessor }]);
    }
    plan
}

/// Initializes the next application processor: returns its steps, in
/// order, and counts it as online under the next identifier.
pub fn application_processor_init(machine: &mut Machine) -> (plan: Vec<InitStep>)
    requires
        old(machine).wf(),
        old(machine)@.features.smp,
        0 < old(machine)@.record.cpu_online < u32::MAX,
    ensures
        final(machine).wf(),
        plan@ == application_processor_plan(old(machine)@.record),
        final(machine)@ == (MachineView {
            record: BootInfo {
                cpu_online: (old(machine)@.record.cpu_online + 1) as u32,
                ..old(machine)@.record
            },
            cores: old(machine)@.cores.push(
                Core { id: old(machine)@.record.cpu_online, role: BootRole::ApplicationProcessor },
            ),
            ..old(machine)@
        }),
{
    let mut plan: Vec<InitStep> = Vec::new();
    plan.push(InitStep::PerCoreInit);
    plan.push(InitStep::ConfigureProcessor);
    plan.push(InitStep::GdtAddCurrentCore);
    plan.push(InitStep::IdtInstall);
    plan.push(InitStep::ApicInitX2);
    plan.push(InitStep::ApicInitLocal);
    plan.push(InitStep::IrqEnable);
    let mut finish = machine.register(BootRole::ApplicationProcessor);
    plan.append(&mut finish);
    assert(plan@ =~= application_processor_plan(old(machine)@.record));
    plan
}

/// The identifier under which the next application processor will come
/// up, if one is still to be woken.
pub open spec fn next_to_wake(machine: MachineView) -> Option<u32> {
    if machine.features.smp && machine.record.cpu_online < machine.record.possible_cpus {
        Some(machine.record.cpu_online)
    } else {
        None
    }
}

/// Looks at the online count and says which processor to wake next: none
/// if all are online or the kernel supports only one.
pub fn next_application_processor(machine: &Machine) -> (next: Option<u32>)
    ensures
        next == next_to_wake(machine@),
{
    let info = machine.record.info();
    if machine.features.smp && info.cpu_online < info.possible_cpus {
        Some(info.cpu_online)
    } else {
        None
    }
}

/// The count of processors online after the coordinator has run.
pub open spec fn online_after_bring_up(machine: MachineView) -> u32 {
    if machine.features.smp && machine.record.cpu_online < machine.record.possible_cpus {
        machine.record.possible_cpus
    } else {
        machine.record.cpu_online
    }
}

/// Brings up every processor that is not online yet, one after the other:
/// as long as `next_application_processor` names one, that processor is
/// woken and runs its initialization. Returns the identifiers of those
/// woken, in order. A kernel without support for several processors wakes
/// none, and neither does a second call.
pub fn boot_application_processors(machine: &mut Machine) -> (woken: Vec<u32>)
    requires
        old(machine).wf(),
        old(machine)@.record.cpu_online > 0,
    ensures
        final(machine).wf(),
        final(machine)@.record == (BootInfo {
            cpu_online: online_after_bring_up(old(machine)@),
            ..old(machine)@.record
        }),
        final(machine)@.features == old(machine)@.features,
        final(machine)@.cores == old(machine)@.cores + cores_between(
            old(machine)@.record.cpu_online as int,
            online_after_bring_up(old(machine)@) as int,
        ),
        woken@ == Seq::new(
            (online_after_bring_up(old(machine)@) - old(machine)@.record.cpu_online) as nat,
            |i: int| (old(machine)@.record.cpu_online + i) as u32,
        ),
        old(machine)@.features.smp && old(machine)@.record.cpu_online <= old(
            machine,
        )@.record.possible_cpus ==> final(machine)@.complete(),
{
    let mut woken: Vec<u32> = Vec::new();
    let ghost possible = old(machine)@.record.possible_cpus;
    let ghost start = old(machine)@.record.cpu_online;
    assert(woken@ =~= Seq::new(0, |i: int| (start + i) as u32));
    let mut next = next_application_processor(machine);
    while next.is_some()
        invariant
            next == next_to_wake(machine@),
            machine.wf(),
            old(machine).wf(),
            machine@.features == old(machine)@.features,
            possible == old(machine)@.record.possible_cpus,
            start == old(machine)@.record.cpu_online,
            0 < start <= machine@.record.cpu_online,
            machine@.record.cpu_online == start || (machine@.features.smp
                && machine@.record.cpu_online <= possible),
            machine@.record == (BootInfo {
                cpu_online: machine@.record.cpu_online,
                ..old(machine)@.record
            }),
            woken@ == Seq::new(
                (machine@.record.cpu_online - start) as nat,
                |i: int| (start + i) as u32,
            ),
        decreases possible - machine@.record.cpu_online,
    {
        let id = next.unwrap();
        let _plan = application_processor_init(machine);
        woken.push(id);
        assert(woken@ =~= Seq::new(
            (machine@.record.cpu_online - start) as nat,
            |i: int| (start + i) as u32,
        ));
        next = next_application_processor(machine);
    }
    proof {
        let end = online_after_bring_up(old(machine)@);
        assert(machine@.record.cpu_online == end);
        assert(machine@.cores =~= old(machine)@.cores + cores_between(start as int, end as int));
    }
    woken
}

/// Every processor is counted once: the processors online are as many as
/// the count says, no two of them share an identifier, and the machine is
/// complete exactly when as many are online as it may have.
pub proof fn lemma_each_processor_counted_once(machine: MachineView)
    requires
        machine.wf(),
    ensures
        machine.cores.len() == machine.record.cpu_online,
        forall|i: int| 0 <= i < machine.cores.len() ==> (#[trigger] machine.cores[i]).id == i,
        forall|i: int, j: int|
            0 <= i < j < machine.cores.len() ==> (#[trigger] machine.cores[i]).id != (
            #[trigger] machine.cores[j]).id,
        machine.complete() <==> machine.cores.len() == machine.record.possible_cpus,
{
}

} // verus!
