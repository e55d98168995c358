//! The machine as a whole: firmware loaded into memory, and the scheduler
//! at the entry points.
//!
//! The machine holds no instruction engine and no clock. Whoever drives it
//! hands the engines, as functions, to [`EmulatorCore::step`] and the
//! elapsed time to [`EmulatorCore::stop_reason`], round by round.

use std::path::PathBuf;
use vstd::prelude::*;
use vstd::string::StringExecFns;
use crate::address_space::{overlaps_any, Backing, Mapping, Target};
use crate::cpu_types::ArmRegister;
use crate::firm::{header_of, parse_outcome, FirmError, FirmHeader, FirmSectionHeader};
use crate::memory::{
    arm9_layout, lemma_write_bytes_keeps_spaces, load_pass, load_sections, pass_cpu,
    section_bytes, Cpu, FabricModel, LoadError, MemoryFabric, ARM9_BOOTROM_BASE,
    ARM9_BOOTROM_SIZE,
};
use crate::scheduler::{
    accepts, answered, is_round_result, never_faults, QuantumResult, RunOutcome, RunRequest, Scheduler,
    SchedulerConfig,
    SchedulerModel, ARM11_INSTRUCTIONS_PER_QUANTUM, ARM9_INSTRUCTIONS_PER_QUANTUM,
};

verus! {

/// `std::path::PathBuf`, as a value that is carried through: nothing is
/// known of what a path holds.
#[verifier::external_type_specification]
#[verifier::external_body]
pub struct ExPathBuf(std::path::PathBuf);

/// `PathBuf::clone` of std: the copy is the path that was copied.
pub assume_specification[ <PathBuf as Clone>::clone ](path: &PathBuf) -> (r: PathBuf)
    ensures
        r == *path,
;

/// What the machine is started with.
#[derive(Debug, Clone)]
pub struct EmulatorConfig {
    /// Path of the image behind the SD card.
    pub sd_card: Option<PathBuf>,
    /// The coprocessor stops when its PC is this address.
    pub arm9_stop_pc: Option<u64>,
    /// The application processor stops when its PC is this address.
    pub arm11_stop_pc: Option<u64>,
    /// The run ends after this many instructions in all.
    pub max_instructions: Option<usize>,
    /// The run ends after this many milliseconds.
    pub timeout_ms: Option<u64>,
}

impl Default for EmulatorConfig {
    fn default() -> (r: Self)
        ensures
            r.sd_card.is_none(),
            r.arm9_stop_pc.is_none(),
            r.arm11_stop_pc.is_none(),
            r.max_instructions.is_none(),
            r.timeout_ms.is_none(),
    {
        EmulatorConfig {
            sd_card: None,
            arm9_stop_pc: None,
            arm11_stop_pc: None,
            max_instructions: None,
            timeout_ms: None,
        }
    }
}

/// Why a run ended.
#[derive(Clone, Debug, PartialEq)]
pub enum StopReason {
    /// Both processors are stopped, or the instruction limit was reached.
    StopCondition,
    /// The time was up.
    Timeout,
    /// A processor faulted.
    Error(String),
}

/// Why the machine could not be built.
#[derive(Clone, Copy, Debug, PartialEq, Eq, Structural)]
pub enum BuildError {
    /// The firmware container is malformed.
    Firm(FirmError),
    /// A section of the firmware could not be loaded.
    Load(LoadError),
}

/// The message of a build error.
pub open spec fn build_error_message(e: BuildError) -> Seq<char> {
    match e {
        BuildError::Firm(FirmError::FileTooSmall) => "Failed to parse FIRM: FileTooSmall"@,
        BuildError::Firm(FirmError::InvalidMagic) => "Failed to parse FIRM: InvalidMagic"@,
        BuildError::Load(LoadError::OutOfBounds { index }) =>
            "Failed to load FIRM: section data lies outside the file"@,
        BuildError::Load(LoadError::Unmapped { index }) =>
            "Failed to load FIRM: failed to write section data"@,
    }
}

/// The message of a build error.
pub fn describe_build_error(e: BuildError) -> (r: String)
    ensures
        r@ == build_error_message(e),
{
    match e {
        BuildError::Firm(FirmError::FileTooSmall) => String::from_str(
            "Failed to parse FIRM: FileTooSmall",
        ),
        BuildError::Firm(FirmError::InvalidMagic) => String::from_str(
            "Failed to parse FIRM: InvalidMagic",
        ),
        BuildError::Load(LoadError::OutOfBounds { index }) => String::from_str(
            "Failed to load FIRM: section data lies outside the file",
        ),
        BuildError::Load(LoadError::Unmapped { index }) => String::from_str(
            "Failed to load FIRM: failed to write section data",
        ),
    }
}

/// The scheduler's orders that a configuration stands for: the standard
/// quanta, and the stop conditions as given.
pub open spec fn scheduler_config(config: EmulatorConfig) -> SchedulerConfig {
    SchedulerConfig {
        arm9_quantum: ARM9_INSTRUCTIONS_PER_QUANTUM,
        arm11_quantum: ARM11_INSTRUCTIONS_PER_QUANTUM,
        arm9_stop_pc: config.arm9_stop_pc,
        arm11_stop_pc: config.arm11_stop_pc,
        max_instructions: config.max_instructions,
    }
}

/// The window of the boot ROM in the address space of the coprocessor.
pub open spec fn bootrom_window() -> Mapping {
    Mapping {
        base: ARM9_BOOTROM_BASE as u64,
        size: ARM9_BOOTROM_SIZE as u64,
        target: Target::Ram(Backing::Arm9Bootrom),
    }
}

/// Memory after the firmware's sections are loaded: first the pass of the
/// application processor, then that of the coprocessor, into memory that
/// is zero before, and last the boot ROM window mapped, which no window of
/// the coprocessor overlaps.
pub open spec fn loaded_memory(header: FirmHeader, firm_data: Seq<u8>) -> (
    FabricModel,
    Option<LoadError>,
) {
    let (after_arm11, failed) = load_pass(
        FabricModel::init(),
        header.sections@,
        firm_data,
        false,
        4,
    );
    if failed.is_some() {
        (after_arm11, failed)
    } else {
        let (after_arm9, failed) = load_pass(after_arm11, header.sections@, firm_data, true, 4);
        if failed.is_some() {
            (after_arm9, failed)
        } else {
            (FabricModel { arm9: after_arm9.arm9.push(bootrom_window()), ..after_arm9 }, None)
        }
    }
}

/// The value that a register of a processor holds before its first
/// instruction, where it is not zero.
pub open spec fn spec_initial_register(cpu: Cpu, register: ArmRegister) -> u64 {
    match (cpu, register) {
        (Cpu::Arm11, ArmRegister::R0) => 123,
        (Cpu::Arm11, ArmRegister::R5) => 1337,
        _ => 0,
    }
}

/// The value that a register of a processor holds before its first
/// instruction.
pub fn initial_register(cpu: Cpu, register: ArmRegister) -> (r: u64)
    ensures
        r == spec_initial_register(cpu, register),
{
    match (cpu, register) {
        (Cpu::Arm11, ArmRegister::R0) => 123,
        (Cpu::Arm11, ArmRegister::R5) => 1337,
        _ => 0,
    }
}

/// The machine as a mathematical value.
pub struct CoreModel {
    pub scheduler: SchedulerModel,
    pub memory: FabricModel,
    pub timeout_ms: Option<u64>,
}

impl CoreModel {
    /// The processor has done what was expected of it: no stop address
    /// was asked for, or it is stopped at the one that was.
    pub open spec fn reached(self, cpu: Cpu, expected: Option<u64>) -> bool {
        match expected {
            Some(pc) => self.scheduler.stopped(cpu) && self.scheduler.pc(cpu) == pc,
            None => true,
        }
    }

    /// The exit code of a run that ended for `reason`: 2 after a fault, 1
    /// after a timeout or where a processor did not reach the stop
    /// address that was asked for, else 0.
    pub open spec fn exit_code(
        self,
        reason: StopReason,
        arm9_expected: Option<u64>,
        arm11_expected: Option<u64>,
    ) -> i32 {
        match reason {
            StopReason::Error(_) => 2,
            StopReason::Timeout => 1,
            StopReason::StopCondition => if self.reached(Cpu::Arm9, arm9_expected) && self.reached(
                Cpu::Arm11,
                arm11_expected,
            ) {
                0
            } else {
                1
            },
        }
    }

    /// The time is up.
    pub open spec fn timed_out(self, elapsed_ms: u64) -> bool {
        self.timeout_ms matches Some(limit) && elapsed_ms >= limit
    }

    /// The run ends here.
    pub open spec fn should_stop(self, elapsed_ms: u64) -> bool {
        self.scheduler.stop_conditions() || self.timed_out(elapsed_ms)
    }
}

/// What building the machine from a container yields: the machine, or
/// the first reason why it cannot be built.
pub open spec fn build_outcome(firm_data: Seq<u8>, config: EmulatorConfig) -> Result<
    CoreModel,
    BuildError,
> {
    match parse_outcome(firm_data) {
        Err(e) => Err(BuildError::Firm(e)),
        Ok(_) => {
            let header = header_of(firm_data);
            let (memory, failed) = loaded_memory(header, firm_data);
            match failed {
                Some(e) => Err(BuildError::Load(e)),
                None => Ok(
                    CoreModel {
                        scheduler: SchedulerModel::init(
                            scheduler_config(config),
                            header.arm9_entrypoint as u64,
                            header.arm11_entrypoint as u64,
                        ),
                        memory,
                        timeout_ms: config.timeout_ms,
                    },
                ),
            }
        },
    }
}

/// The result of the round behind one turn of a run.
pub open spec fn round_result_of(turn: Option<StopReason>) -> QuantumResult {
    match turn {
        Some(StopReason::Error(message)) => QuantumResult::Error(message),
        _ => QuantumResult::Continue,
    }
}

/// The machine without its instruction engines.
#[derive(Debug)]
pub struct EmulatorCore {
    scheduler: Scheduler,
    memory: MemoryFabric,
    timeout_ms: Option<u64>,
}

impl View for EmulatorCore {
    type V = CoreModel;

    closed spec fn view(&self) -> CoreModel {
        CoreModel {
            scheduler: self.scheduler@,
            memory: self.memory@,
            timeout_ms: self.timeout_ms,
        }
    }
}

impl EmulatorCore {
    /// Builds the machine from a firmware container: parses the header,
    /// loads each section into the memory of the processor that owns its
    /// load address, and sets the scheduler to the two entry points.
    pub fn build(firm_data: &[u8], config: &EmulatorConfig) -> (r: Result<Self, BuildError>)
        ensures
            match r {
                Ok(core) => build_outcome(firm_data@, *config) == Ok::<CoreModel, BuildError>(core@)
                    && core@.memory.wf(),
                Err(e) => build_outcome(firm_data@, *config) == Err::<CoreModel, BuildError>(e),
            },
    {
        let firm = match FirmHeader::parse(firm_data) {
            Ok(firm) => firm,
            Err(e) => {
                return Err(BuildError::Firm(e));
            },
        };
        let mut memory = MemoryFabric::new();
        match load_sections(&mut memory, &firm.sections, firm_data, false) {
            Ok(()) => {},
            Err(e) => {
                return Err(BuildError::Load(e));
            },
        }
        match load_sections(&mut memory, &firm.sections, firm_data, true) {
            Ok(()) => {},
            Err(e) => {
                return Err(BuildError::Load(e));
            },
        }
        proof {
            lemma_loading_keeps_spaces(FabricModel::init(), firm.sections@, firm_data@, false, 4);
            lemma_loading_keeps_spaces(
                load_pass(FabricModel::init(), firm.sections@, firm_data@, false, 4).0,
                firm.sections@,
                firm_data@,
                true,
                4,
            );
            assert(!overlaps_any(
                arm9_layout(),
                ARM9_BOOTROM_BASE as u64,
                ARM9_BOOTROM_SIZE as u64,
            ));
        }
        let mapped = memory.map(
            Cpu::Arm9,
            ARM9_BOOTROM_BASE as u64,
            ARM9_BOOTROM_SIZE as u64,
            Target::Ram(Backing::Arm9Bootrom),
        );
        assert(mapped.is_ok());
        let scheduler_config = SchedulerConfig {
            arm9_quantum: ARM9_INSTRUCTIONS_PER_QUANTUM,
            arm11_quantum: ARM11_INSTRUCTIONS_PER_QUANTUM,
            arm9_stop_pc: config.arm9_stop_pc,
            arm11_stop_pc: config.arm11_stop_pc,
            max_instructions: config.max_instructions,
        };
        let scheduler = Scheduler::new(
            scheduler_config,
            firm.arm9_entrypoint as u64,
            firm.arm11_entrypoint as u64,
        );
        let core = EmulatorCore { scheduler, memory, timeout_ms: config.timeout_ms };
        assert(loaded_memory(firm, firm_data@) == (core@.memory, None::<LoadError>));
        Ok(core)
    }

    /// Builds the machine from a firmware container, or says in words why
    /// it cannot be built.
    pub fn new(firm_data: &[u8], config: EmulatorConfig) -> (r: Result<Self, String>)
        ensures
            match r {
                Ok(core) => build_outcome(firm_data@, config) == Ok::<CoreModel, BuildError>(core@)
                    && core@.memory.wf(),
                Err(message) => build_outcome(firm_data@, config) matches Err(e) && message@
                    == build_error_message(e),
            },
    {
        match EmulatorCore::build(firm_data, &config) {
            Ok(core) => Ok(core),
            Err(e) => Err(describe_build_error(e)),
        }
    }

    /// Runs one round: each engine is asked once at most, with exactly the
    /// run that is due for its processor.
    pub fn step<E9, E11>(&mut self, arm9_emu: &mut E9, arm11_emu: &mut E11) -> (r:
        QuantumResult) where
        E9: FnMut(RunRequest) -> RunOutcome,
        E11: FnMut(RunRequest) -> RunOutcome,

        requires
            old(self)@.scheduler.round_fits(),
            accepts(*old(arm9_emu), old(self)@.scheduler.request(Cpu::Arm9)),
            accepts(*old(arm11_emu), old(self)@.scheduler.request(Cpu::Arm11)),
        ensures
            final(self)@.memory == old(self)@.memory,
            final(self)@.timeout_ms == old(self)@.timeout_ms,
            exists|arm9: RunOutcome, arm11: RunOutcome|
                {
                    &&& #[trigger] is_round_result(r, old(self)@.scheduler, arm9, arm11)
                    &&& final(self)@.scheduler == old(self)@.scheduler.round(arm9@, arm11@)
                    &&& answered(*old(arm9_emu), old(self)@.scheduler.request(Cpu::Arm9), arm9)
                    &&& !old(self)@.scheduler.fatal(Cpu::Arm9, arm9@) ==> answered(
                        *old(arm11_emu),
                        old(self)@.scheduler.request(Cpu::Arm11),
                        arm11,
                    )
                },
            old(self)@.scheduler.all_stopped() ==> r == QuantumResult::Continue && final(self)@
                == old(self)@,
            old(self)@.scheduler.arm9_stopped ==> *final(arm9_emu) == *old(arm9_emu),
            old(self)@.scheduler.arm11_stopped ==> *final(arm11_emu) == *old(arm11_emu),
            never_faults(*old(arm9_emu)) && never_faults(*old(arm11_emu)) ==> {
                &&& r == QuantumResult::Continue
                &&& final(self)@.scheduler.total_executed == old(self)@.scheduler.total_executed
                    + old(self)@.scheduler.due_quantum(Cpu::Arm9) + old(
                    self,
                )@.scheduler.due_quantum(Cpu::Arm11)
            },
    {
        self.scheduler.run_quantum(arm9_emu, arm11_emu)
    }

    /// One turn of a run: where the run ends here, says why and asks
    /// nothing of the engines; else runs one round, and says whether a
    /// fault ended the run. `None` means that the run goes on.
    pub fn run_once<E9, E11>(
        &mut self,
        arm9_emu: &mut E9,
        arm11_emu: &mut E11,
        elapsed_ms: u64,
    ) -> (r: Option<StopReason>) where
        E9: FnMut(RunRequest) -> RunOutcome,
        E11: FnMut(RunRequest) -> RunOutcome,

        requires
            !old(self)@.should_stop(elapsed_ms) ==> {
                &&& old(self)@.scheduler.round_fits()
                &&& accepts(*old(arm9_emu), old(self)@.scheduler.request(Cpu::Arm9))
                &&& accepts(*old(arm11_emu), old(self)@.scheduler.request(Cpu::Arm11))
            },
        ensures
            final(self)@.memory == old(self)@.memory,
            final(self)@.timeout_ms == old(self)@.timeout_ms,
            old(self)@.scheduler.stop_conditions() ==> r == Some(StopReason::StopCondition)
                && final(self)@ == old(self)@,
            !old(self)@.scheduler.stop_conditions() && old(self)@.timed_out(elapsed_ms) ==> r
                == Some(StopReason::Timeout) && final(self)@ == old(self)@,
            !old(self)@.should_stop(elapsed_ms) ==> exists|arm9: RunOutcome, arm11: RunOutcome|
                {
                    &&& #[trigger] is_round_result(
                        round_result_of(r),
                        old(self)@.scheduler,
                        arm9,
                        arm11,
                    )
                    &&& final(self)@.scheduler == old(self)@.scheduler.round(arm9@, arm11@)
                    &&& answered(*old(arm9_emu), old(self)@.scheduler.request(Cpu::Arm9), arm9)
                    &&& !old(self)@.scheduler.fatal(Cpu::Arm9, arm9@) ==> answered(
                        *old(arm11_emu),
                        old(self)@.scheduler.request(Cpu::Arm11),
                        arm11,
                    )
                    &&& r.is_some() ==> r.unwrap() is Error
                },
    {
        match self.stop_reason(elapsed_ms) {
            Some(reason) => {
                return Some(reason);
            },
            None => {},
        }
        match self.step(arm9_emu, arm11_emu) {
            QuantumResult::Continue => None,
            QuantumResult::Error(message) => Some(StopReason::Error(message)),
        }
    }

    /// Tells whether the instruction counter has room for all that the
    /// next round can grant.
    pub fn can_step(&self) -> (r: bool)
        ensures
            r == self@.scheduler.round_fits(),
    {
        self.scheduler.round_fits()
    }

    /// Tells whether the run ends here, `elapsed_ms` milliseconds after
    /// its start.
    pub fn should_stop(&self, elapsed_ms: u64) -> (r: bool)
        ensures
            r == self@.should_stop(elapsed_ms),
    {
        if self.scheduler.check_stop_conditions() {
            return true;
        }
        match self.timeout_ms {
            Some(limit) => elapsed_ms >= limit,
            None => false,
        }
    }

    /// Why the run ends here, `elapsed_ms` milliseconds after its start,
    /// or `None` where it goes on. A stop condition that holds takes
    /// precedence over the timeout.
    pub fn stop_reason(&self, elapsed_ms: u64) -> (r: Option<StopReason>)
        ensures
            r.is_some() == self@.should_stop(elapsed_ms),
            self@.scheduler.stop_conditions() ==> r == Some(StopReason::StopCondition),
            !self@.scheduler.stop_conditions() && self@.timed_out(elapsed_ms) ==> r == Some(
                StopReason::Timeout,
            ),
    {
        if self.scheduler.check_stop_conditions() {
            return Some(StopReason::StopCondition);
        }
        match self.timeout_ms {
            Some(limit) => if elapsed_ms >= limit {
                Some(StopReason::Timeout)
            } else {
                None
            },
            None => None,
        }
    }

    /// Tells whether a processor has done what was expected of it: no
    /// stop address was asked for, or it is stopped at the one that was.
    pub fn reached(&self, cpu: Cpu, expected: Option<u64>) -> (r: bool)
        ensures
            r == self@.reached(cpu, expected),
    {
        match expected {
            Some(pc) => match cpu {
                Cpu::Arm9 => self.scheduler.arm9_stopped() && self.scheduler.arm9_pc() == pc,
                Cpu::Arm11 => self.scheduler.arm11_stopped() && self.scheduler.arm11_pc() == pc,
            },
            None => true,
        }
    }

    /// The exit code of a run that ended for `reason`, where the stop
    /// addresses `arm9_expected` and `arm11_expected` were asked for: 2
    /// after a fault, 1 after a timeout or where a processor did not reach
    /// its stop address, else 0.
    pub fn exit_code(
        &self,
        reason: &StopReason,
        arm9_expected: Option<u64>,
        arm11_expected: Option<u64>,
    ) -> (r: i32)
        ensures
            r == self@.exit_code(*reason, arm9_expected, arm11_expected),
    {
        match reason {
            StopReason::Error(_) => 2,
            StopReason::Timeout => 1,
            StopReason::StopCondition => {
                if self.reached(Cpu::Arm9, arm9_expected) && self.reached(
                    Cpu::Arm11,
                    arm11_expected,
                ) {
                    0
                } else {
                    1
                }
            },
        }
    }

    pub fn arm9_pc(&self) -> (r: u64)
        ensures
            r == self@.scheduler.arm9_pc,
    {
        self.scheduler.arm9_pc()
    }

    pub fn arm11_pc(&self) -> (r: u64)
        ensures
            r == self@.scheduler.arm11_pc,
    {
        self.scheduler.arm11_pc()
    }

    pub fn arm9_stopped(&self) -> (r: bool)
        ensures
            r == self@.scheduler.arm9_stopped,
    {
        self.scheduler.arm9_stopped()
    }

    pub fn arm11_stopped(&self) -> (r: bool)
        ensures
            r == self@.scheduler.arm11_stopped,
    {
        self.scheduler.arm11_stopped()
    }

    pub fn total_executed(&self) -> (r: usize)
        ensures
            r == self@.scheduler.total_executed,
    {
        self.scheduler.total_executed()
    }

    /// The scheduler.
    pub fn scheduler(&self) -> (r: &Scheduler)
        ensures
            r@ == self@.scheduler,
    {
        &self.scheduler
    }

    /// The memory of the machine.
    pub fn memory(&self) -> (r: &MemoryFabric)
        ensures
            r@ == self@.memory,
    {
        &self.memory
    }

    /// The contents of main memory.
    pub fn fcram(&self) -> (r: &[u8])
        ensures
            r@ == self@.memory.fcram,
    {
        self.memory.buffer(Backing::Fcram)
    }

    /// The contents of video memory.
    pub fn vram(&self) -> (r: &[u8])
        ensures
            r@ == self@.memory.vram,
    {
        self.memory.buffer(Backing::Vram)
    }

    /// Reads `size` bytes at `addr` of the machine's memory as the
    /// coprocessor sees them. Windows that an engine maps by itself at run
    /// time are no memory of the machine.
    pub fn arm9_mem_read(&self, addr: u64, size: usize) -> (r: Result<Vec<u8>, String>)
        ensures
            r.is_ok() == self@.memory.accessible(Cpu::Arm9, addr, size as nat),
            r matches Ok(bytes) ==> bytes@ == self@.memory.read_bytes(Cpu::Arm9, addr, size as nat),
            r matches Err(message) ==> message@ == "ARM9 mem read error: READ_UNMAPPED"@,
    {
        match self.memory.read(Cpu::Arm9, addr, size) {
            Some(bytes) => Ok(bytes),
            None => Err(String::from_str("ARM9 mem read error: READ_UNMAPPED")),
        }
    }

    /// Reads `size` bytes at `addr` of the machine's memory as the
    /// application processor sees them.
    pub fn arm11_mem_read(&self, addr: u64, size: usize) -> (r: Result<Vec<u8>, String>)
        ensures
            r.is_ok() == self@.memory.accessible(Cpu::Arm11, addr, size as nat),
            r matches Ok(bytes) ==> bytes@ == self@.memory.read_bytes(
                Cpu::Arm11,
                addr,
                size as nat,
            ),
            r matches Err(message) ==> message@ == "ARM11 mem read error: READ_UNMAPPED"@,
    {
        match self.memory.read(Cpu::Arm11, addr, size) {
            Some(bytes) => Ok(bytes),
            None => Err(String::from_str("ARM11 mem read error: READ_UNMAPPED")),
        }
    }
}

/// Loading changes memory only: the address spaces stay.
pub proof fn lemma_loading_keeps_spaces(
    m: FabricModel,
    sections: Seq<FirmSectionHeader>,
    firm_data: Seq<u8>,
    is_arm9: bool,
    n: int,
)
    requires
        m.wf(),
    ensures
        load_pass(m, sections, firm_data, is_arm9, n).0.arm9 == m.arm9,
        load_pass(m, sections, firm_data, is_arm9, n).0.arm11 == m.arm11,
        load_pass(m, sections, firm_data, is_arm9, n).0.wf(),
    decreases n,
{
    if n > 0 {
        lemma_loading_keeps_spaces(m, sections, firm_data, is_arm9, n - 1);
        let before = load_pass(m, sections, firm_data, is_arm9, n - 1).0;
        let section = sections[n - 1];
        lemma_write_bytes_keeps_spaces(
            before,
            pass_cpu(is_arm9),
            section.load_address as u64,
            section_bytes(section, firm_data),
        );
    }
}

} // verus!
