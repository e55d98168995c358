//! The scheduler: it lets the two processors run in turn, a bounded number
//! of instructions each, and keeps count.
//!
//! One round runs the coprocessor first and the application processor
//! second; a processor that has reached its stop address is not run again.
//! The instruction engine of a processor is a function from the run that is
//! asked of it to what it reports; the scheduler decides from the reports.

use vstd::prelude::*;
use vstd::string::StringExecFns;
use crate::memory::Cpu;

verus! {

/// Clock of the application processor, in Hz.
pub const ARM11_FREQ_HZ: usize = 268_000_000;

/// Clock of the coprocessor, in Hz.
pub const ARM9_FREQ_HZ: usize = 134_000_000;

/// Frames per second of the screens.
pub const TARGET_FPS: usize = 60;

/// Rounds per frame.
pub const QUANTUMS_PER_FRAME: usize = 10;

/// Instructions of the application processor per frame.
pub const ARM11_INSTRUCTIONS_PER_FRAME: usize = ARM11_FREQ_HZ / TARGET_FPS;

/// Instructions of the coprocessor per frame.
pub const ARM9_INSTRUCTIONS_PER_FRAME: usize = ARM9_FREQ_HZ / TARGET_FPS;

/// Instructions of the application processor per round.
pub const ARM11_INSTRUCTIONS_PER_QUANTUM: usize = ARM11_INSTRUCTIONS_PER_FRAME
    / QUANTUMS_PER_FRAME;

/// Instructions of the coprocessor per round.
pub const ARM9_INSTRUCTIONS_PER_QUANTUM: usize = ARM9_INSTRUCTIONS_PER_FRAME / QUANTUMS_PER_FRAME;

/// The breakpoint of a processor without a stop address: no instruction
/// lies there.
pub const NO_STOP_PC: u64 = 0xFFFF_FFFF_FFFF_FFFF;

/// The budgets in numbers. The application processor gets twice the
/// instructions of the coprocessor, as its clock is twice as fast.
pub proof fn lemma_quantum_sizes()
    ensures
        ARM11_INSTRUCTIONS_PER_QUANTUM == 446_666,
        ARM9_INSTRUCTIONS_PER_QUANTUM == 223_333,
        ARM11_INSTRUCTIONS_PER_QUANTUM == 2 * ARM9_INSTRUCTIONS_PER_QUANTUM,
{
}

/// How a round ended.
#[derive(Clone, Debug, PartialEq)]
pub enum QuantumResult {
    /// The round is complete; the run goes on.
    Continue,
    /// A processor faulted away from its stop address.
    Error(String),
}

/// What the scheduler is to do.
#[derive(Clone, Copy, Debug)]
pub struct SchedulerConfig {
    /// Instructions of the coprocessor per round.
    pub arm9_quantum: usize,
    /// Instructions of the application processor per round.
    pub arm11_quantum: usize,
    /// The coprocessor stops when its PC is this address.
    pub arm9_stop_pc: Option<u64>,
    /// The application processor stops when its PC is this address.
    pub arm11_stop_pc: Option<u64>,
    /// The run ends after this many instructions in all.
    pub max_instructions: Option<usize>,
}

impl Default for SchedulerConfig {
    fn default() -> (r: Self)
        ensures
            r == (SchedulerConfig {
                arm9_quantum: ARM9_INSTRUCTIONS_PER_QUANTUM,
                arm11_quantum: ARM11_INSTRUCTIONS_PER_QUANTUM,
                arm9_stop_pc: None,
                arm11_stop_pc: None,
                max_instructions: None,
            }),
    {
        SchedulerConfig {
            arm9_quantum: ARM9_INSTRUCTIONS_PER_QUANTUM,
            arm11_quantum: ARM11_INSTRUCTIONS_PER_QUANTUM,
            arm9_stop_pc: None,
            arm11_stop_pc: None,
            max_instructions: None,
        }
    }
}

/// A bounded run that the scheduler asks of the engine.
#[derive(Clone, Copy, Debug, PartialEq, Eq, Structural)]
pub struct RunRequest {
    /// Address of the first instruction.
    pub start_pc: u64,
    /// The run ends early when the PC is this address.
    pub stop_pc: u64,
    /// The number of instructions to run.
    pub count: usize,
}

/// What the engine reports of a bounded run.
#[derive(Clone, Debug)]
pub struct RunOutcome {
    /// Description of the fault that ended the run; `None` where the run
    /// ended without one.
    pub fault: Option<String>,
    /// The PC after the run.
    pub pc: u64,
}

/// A report of a run, as far as the scheduler's state depends on it.
pub struct RunReport {
    pub ok: bool,
    pub pc: u64,
}

impl View for RunOutcome {
    type V = RunReport;

    open spec fn view(&self) -> RunReport {
        RunReport { ok: self.fault.is_none(), pc: self.pc }
    }
}

/// Whatever `engine` is asked, it reports no fault.
pub open spec fn never_faults<E: FnMut(RunRequest) -> RunOutcome>(engine: E) -> bool {
    forall|request: RunRequest, outcome: RunOutcome| #[trigger]
        call_ensures(engine, (request,), outcome) ==> outcome.fault is None
}

/// `engine` can be asked for the run that is due, if one is.
pub open spec fn accepts<E: FnMut(RunRequest) -> RunOutcome>(
    engine: E,
    due: Option<RunRequest>,
) -> bool {
    due matches Some(request) ==> call_requires(engine, (request,))
}

/// `outcome` is what `engine` has reported of the run that was due, asked
/// with exactly that run; where none was due, nothing is said.
pub open spec fn answered<E: FnMut(RunRequest) -> RunOutcome>(
    engine: E,
    due: Option<RunRequest>,
    outcome: RunOutcome,
) -> bool {
    due matches Some(request) ==> call_ensures(engine, (request,), outcome)
}

/// The scheduler as a mathematical value.
pub struct SchedulerModel {
    pub config: SchedulerConfig,
    pub arm9_pc: u64,
    pub arm11_pc: u64,
    pub total_executed: nat,
    pub arm9_stopped: bool,
    pub arm11_stopped: bool,
}

impl SchedulerModel {
    pub open spec fn init(config: SchedulerConfig, arm9_entry: u64, arm11_entry: u64) -> Self {
        SchedulerModel {
            config,
            arm9_pc: arm9_entry,
            arm11_pc: arm11_entry,
            total_executed: 0,
            arm9_stopped: false,
            arm11_stopped: false,
        }
    }

    pub open spec fn pc(self, cpu: Cpu) -> u64 {
        match cpu {
            Cpu::Arm9 => self.arm9_pc,
            Cpu::Arm11 => self.arm11_pc,
        }
    }

    pub open spec fn stopped(self, cpu: Cpu) -> bool {
        match cpu {
            Cpu::Arm9 => self.arm9_stopped,
            Cpu::Arm11 => self.arm11_stopped,
        }
    }

    pub open spec fn stop_pc(self, cpu: Cpu) -> Option<u64> {
        match cpu {
            Cpu::Arm9 => self.config.arm9_stop_pc,
            Cpu::Arm11 => self.config.arm11_stop_pc,
        }
    }

    pub open spec fn quantum(self, cpu: Cpu) -> usize {
        match cpu {
            Cpu::Arm9 => self.config.arm9_quantum,
            Cpu::Arm11 => self.config.arm11_quantum,
        }
    }

    /// `pc` is the stop address of `cpu`.
    pub open spec fn is_stop_pc(self, cpu: Cpu, pc: u64) -> bool {
        self.stop_pc(cpu) == Some(pc)
    }

    /// Both processors are stopped.
    pub open spec fn all_stopped(self) -> bool {
        self.arm9_stopped && self.arm11_stopped
    }

    /// The instruction limit is reached.
    pub open spec fn limit_reached(self) -> bool {
        self.config.max_instructions matches Some(max) && self.total_executed >= max
    }

    /// The run ends here: both processors are stopped, or the instruction
    /// limit is reached. One processor at its stop address does not end
    /// the run while the other still runs.
    pub open spec fn stop_conditions(self) -> bool {
        self.all_stopped() || self.limit_reached()
    }

    /// The quantum that a run of `cpu` can add to the total: none where
    /// the processor is stopped.
    pub open spec fn due_quantum(self, cpu: Cpu) -> nat {
        if self.stopped(cpu) {
            0
        } else {
            self.quantum(cpu) as nat
        }
    }

    /// The counter has room for all that the next round can grant.
    pub open spec fn round_fits(self) -> bool {
        self.total_executed + self.due_quantum(Cpu::Arm9) + self.due_quantum(Cpu::Arm11)
            <= usize::MAX
    }

    /// The run that is due for `cpu`: none where it is stopped, else one
    /// quantum from its PC, with its stop address as the breakpoint.
    pub open spec fn request(self, cpu: Cpu) -> Option<RunRequest> {
        if self.stopped(cpu) {
            None
        } else {
            Some(
                RunRequest {
                    start_pc: self.pc(cpu),
                    stop_pc: match self.stop_pc(cpu) {
                        Some(pc) => pc,
                        None => NO_STOP_PC,
                    },
                    count: self.quantum(cpu),
                },
            )
        }
    }

    /// The instructions that a run adds to the total: the whole quantum
    /// where the processor was run and the run ended without a fault,
    /// nothing else.
    pub open spec fn granted(self, cpu: Cpu, report: RunReport) -> nat {
        if !self.stopped(cpu) && report.ok {
            self.quantum(cpu) as nat
        } else {
            0
        }
    }

    /// A run of `cpu` with this report ends the whole run: the processor
    /// faulted, and not at its stop address.
    pub open spec fn fatal(self, cpu: Cpu, report: RunReport) -> bool {
        !self.stopped(cpu) && !report.ok && !self.is_stop_pc(cpu, report.pc)
    }

    pub open spec fn with_cpu(self, cpu: Cpu, pc: u64, stopped: bool) -> Self {
        match cpu {
            Cpu::Arm9 => SchedulerModel { arm9_pc: pc, arm9_stopped: stopped, ..self },
            Cpu::Arm11 => SchedulerModel { arm11_pc: pc, arm11_stopped: stopped, ..self },
        }
    }

    /// The scheduler after a run of `cpu`: the PC is the reported one, the
    /// total grows by what was granted, and the processor is stopped where
    /// it stands at its stop address. A report for a stopped processor
    /// changes nothing.
    pub open spec fn record(self, cpu: Cpu, report: RunReport) -> Self {
        if self.stopped(cpu) {
            self
        } else {
            SchedulerModel {
                total_executed: self.total_executed + self.granted(cpu, report),
                ..self.with_cpu(cpu, report.pc, self.is_stop_pc(cpu, report.pc))
            }
        }
    }

    /// The scheduler after a round with these reports. Where the run of
    /// the coprocessor is fatal, the application processor is not run.
    pub open spec fn round(self, arm9: RunReport, arm11: RunReport) -> Self {
        if self.fatal(Cpu::Arm9, arm9) {
            self.record(Cpu::Arm9, arm9)
        } else {
            self.record(Cpu::Arm9, arm9).record(Cpu::Arm11, arm11)
        }
    }

    /// The processor whose fault ends the round, if one does.
    pub open spec fn round_fault(self, arm9: RunReport, arm11: RunReport) -> Option<Cpu> {
        if self.fatal(Cpu::Arm9, arm9) {
            Some(Cpu::Arm9)
        } else if self.record(Cpu::Arm9, arm9).fatal(Cpu::Arm11, arm11) {
            Some(Cpu::Arm11)
        } else {
            None
        }
    }
}

/// The name of a processor in messages.
pub open spec fn cpu_name(cpu: Cpu) -> Seq<char> {
    match cpu {
        Cpu::Arm9 => "ARM9"@,
        Cpu::Arm11 => "ARM11"@,
    }
}

/// The message of a fatal fault: the processor's name, a colon and a
/// space, and the engine's description.
pub open spec fn fault_message(cpu: Cpu, fault: Seq<char>) -> Seq<char> {
    cpu_name(cpu) + ": "@ + fault
}

/// `result` is what a run of `cpu` with `outcome` gives.
pub open spec fn is_run_result(
    result: QuantumResult,
    before: SchedulerModel,
    cpu: Cpu,
    outcome: RunOutcome,
) -> bool {
    match result {
        QuantumResult::Continue => !before.fatal(cpu, outcome@),
        QuantumResult::Error(message) => before.fatal(cpu, outcome@) && message@ == fault_message(
            cpu,
            outcome.fault.unwrap()@,
        ),
    }
}

/// `result` is what a round with these outcomes gives: an error with the
/// message of the processor whose fault ended the round, if one did.
pub open spec fn is_round_result(
    result: QuantumResult,
    before: SchedulerModel,
    arm9: RunOutcome,
    arm11: RunOutcome,
) -> bool {
    match result {
        QuantumResult::Continue => before.round_fault(arm9@, arm11@).is_none(),
        QuantumResult::Error(message) => match before.round_fault(arm9@, arm11@) {
            Some(Cpu::Arm9) => message@ == fault_message(Cpu::Arm9, arm9.fault.unwrap()@),
            Some(Cpu::Arm11) => message@ == fault_message(Cpu::Arm11, arm11.fault.unwrap()@),
            None => false,
        },
    }
}

/// Interleaves the two processors.
#[derive(Debug)]
pub struct Scheduler {
    config: SchedulerConfig,
    arm9_pc: u64,
    arm11_pc: u64,
    total_executed: usize,
    arm9_stopped: bool,
    arm11_stopped: bool,
}

impl View for Scheduler {
    type V = SchedulerModel;

    closed spec fn view(&self) -> SchedulerModel {
        SchedulerModel {
            config: self.config,
            arm9_pc: self.arm9_pc,
            arm11_pc: self.arm11_pc,
            total_executed: self.total_executed as nat,
            arm9_stopped: self.arm9_stopped,
            arm11_stopped: self.arm11_stopped,
        }
    }
}

impl Scheduler {
    /// A scheduler with both processors at their entry points, neither
    /// stopped, and no instruction counted.
    pub fn new(config: SchedulerConfig, arm9_entry: u64, arm11_entry: u64) -> (r: Self)
        ensures
            r@ == SchedulerModel::init(config, arm9_entry, arm11_entry),
    {
        Scheduler {
            config,
            arm9_pc: arm9_entry,
            arm11_pc: arm11_entry,
            total_executed: 0,
            arm9_stopped: false,
            arm11_stopped: false,
        }
    }

    /// What the scheduler was told to do.
    pub fn config(&self) -> (r: SchedulerConfig)
        ensures
            r == self@.config,
    {
        self.config
    }

    pub fn arm9_stopped(&self) -> (r: bool)
        ensures
            r == self@.arm9_stopped,
    {
        self.arm9_stopped
    }

    pub fn arm11_stopped(&self) -> (r: bool)
        ensures
            r == self@.arm11_stopped,
    {
        self.arm11_stopped
    }

    pub fn all_stopped(&self) -> (r: bool)
        ensures
            r == self@.all_stopped(),
    {
        self.arm9_stopped && self.arm11_stopped
    }

    pub fn arm9_pc(&self) -> (r: u64)
        ensures
            r == self@.arm9_pc,
    {
        self.arm9_pc
    }

    pub fn arm11_pc(&self) -> (r: u64)
        ensures
            r == self@.arm11_pc,
    {
        self.arm11_pc
    }

    /// The instructions granted so far.
    pub fn total_executed(&self) -> (r: usize)
        ensures
            r == self@.total_executed,
    {
        self.total_executed
    }

    /// Tells whether the run ends here: both processors are stopped, or
    /// the instruction limit is reached.
    pub fn check_stop_conditions(&self) -> (r: bool)
        ensures
            r == self@.stop_conditions(),
    {
        if self.arm9_stopped && self.arm11_stopped {
            return true;
        }
        match self.config.max_instructions {
            Some(max) => self.total_executed >= max,
            None => false,
        }
    }

    /// Tells whether `pc` is the stop address of the coprocessor.
    pub fn is_arm9_stop_pc(&self, pc: u64) -> (r: bool)
        ensures
            r == self@.is_stop_pc(Cpu::Arm9, pc),
    {
        match self.config.arm9_stop_pc {
            Some(stop) => stop == pc,
            None => false,
        }
    }

    /// Tells whether `pc` is the stop address of the application
    /// processor.
    pub fn is_arm11_stop_pc(&self, pc: u64) -> (r: bool)
        ensures
            r == self@.is_stop_pc(Cpu::Arm11, pc),
    {
        match self.config.arm11_stop_pc {
            Some(stop) => stop == pc,
            None => false,
        }
    }

    /// The run that is due for `cpu` in this round, or `None` where the
    /// processor is stopped.
    pub fn next_run(&self, cpu: Cpu) -> (r: Option<RunRequest>)
        ensures
            r == self@.request(cpu),
    {
        let (stopped, pc, stop_pc, quantum) = match cpu {
            Cpu::Arm9 => (
                self.arm9_stopped,
                self.arm9_pc,
                self.config.arm9_stop_pc,
                self.config.arm9_quantum,
            ),
            Cpu::Arm11 => (
                self.arm11_stopped,
                self.arm11_pc,
                self.config.arm11_stop_pc,
                self.config.arm11_quantum,
            ),
        };
        if stopped {
            None
        } else {
            let breakpoint = match stop_pc {
                Some(pc) => pc,
                None => NO_STOP_PC,
            };
            Some(RunRequest { start_pc: pc, stop_pc: breakpoint, count: quantum })
        }
    }

    /// Takes in what the engine reports of the run of `cpu`. The result is
    /// an error where the run ended in a fault away from the stop address.
    /// The counter must have room for the quantum where the run is granted
    /// one.
    pub fn record_run(&mut self, cpu: Cpu, outcome: RunOutcome) -> (r: QuantumResult)
        requires
            old(self)@.total_executed + old(self)@.granted(cpu, outcome@) <= usize::MAX,
        ensures
            final(self)@ == old(self)@.record(cpu, outcome@),
            is_run_result(r, old(self)@, cpu, outcome),
    {
        let stopped = match cpu {
            Cpu::Arm9 => self.arm9_stopped,
            Cpu::Arm11 => self.arm11_stopped,
        };
        if stopped {
            return QuantumResult::Continue;
        }
        let hit = match cpu {
            Cpu::Arm9 => self.is_arm9_stop_pc(outcome.pc),
            Cpu::Arm11 => self.is_arm11_stop_pc(outcome.pc),
        };
        match cpu {
            Cpu::Arm9 => {
                self.arm9_pc = outcome.pc;
                self.arm9_stopped = hit;
            },
            Cpu::Arm11 => {
                self.arm11_pc = outcome.pc;
                self.arm11_stopped = hit;
            },
        }
        match outcome.fault {
            None => {
                let quantum = match cpu {
                    Cpu::Arm9 => self.config.arm9_quantum,
                    Cpu::Arm11 => self.config.arm11_quantum,
                };
                self.total_executed = self.total_executed + quantum;
                QuantumResult::Continue
            },
            Some(fault) => {
                if hit {
                    QuantumResult::Continue
                } else {
                    let name = match cpu {
                        Cpu::Arm9 => "ARM9",
                        Cpu::Arm11 => "ARM11",
                    };
                    let message = String::from_str(name).concat(": ").concat(fault.as_str());
                    QuantumResult::Error(message)
                }
            },
        }
    }

    /// Tells whether the counter has room for all that the next round can
    /// grant.
    pub fn round_fits(&self) -> (r: bool)
        ensures
            r == self@.round_fits(),
    {
        let arm9: usize = if self.arm9_stopped {
            0
        } else {
            self.config.arm9_quantum
        };
        let arm11: usize = if self.arm11_stopped {
            0
        } else {
            self.config.arm11_quantum
        };
        arm9 <= usize::MAX - self.total_executed && arm11 <= usize::MAX - self.total_executed
            - arm9
    }

    /// Runs one round: the coprocessor, then the application processor,
    /// each for its quantum from where it stands, unless it is stopped.
    /// Each engine is asked once at most, with exactly the run that is due
    /// for its processor, and the scheduler ends the round as
    /// [`SchedulerModel::round`] says for what the engines reported. Where
    /// the run of the coprocessor is fatal, the other engine is not asked.
    pub fn run_quantum<E9, E11>(&mut self, arm9_emu: &mut E9, arm11_emu: &mut E11) -> (r:
        QuantumResult) where
        E9: FnMut(RunRequest) -> RunOutcome,
        E11: FnMut(RunRequest) -> RunOutcome,

        requires
            old(self)@.round_fits(),
            accepts(*old(arm9_emu), old(self)@.request(Cpu::Arm9)),
            accepts(*old(arm11_emu), old(self)@.request(Cpu::Arm11)),
        ensures
            exists|arm9: RunOutcome, arm11: RunOutcome|
                {
                    &&& #[trigger] is_round_result(r, old(self)@, arm9, arm11)
                    &&& final(self)@ == old(self)@.round(arm9@, arm11@)
                    &&& answered(*old(arm9_emu), old(self)@.request(Cpu::Arm9), arm9)
                    &&& !old(self)@.fatal(Cpu::Arm9, arm9@) ==> answered(
                        *old(arm11_emu),
                        old(self)@.request(Cpu::Arm11),
                        arm11,
                    )
                },
            old(self)@.all_stopped() ==> r == QuantumResult::Continue && final(self)@ == old(
                self,
            )@,
            old(self)@.arm9_stopped ==> *final(arm9_emu) == *old(arm9_emu),
            old(self)@.arm11_stopped ==> *final(arm11_emu) == *old(arm11_emu),
            never_faults(*old(arm9_emu)) && never_faults(*old(arm11_emu)) ==> {
                &&& r == QuantumResult::Continue
                &&& final(self)@.total_executed == old(self)@.total_executed + old(
                    self,
                )@.due_quantum(Cpu::Arm9) + old(self)@.due_quantum(Cpu::Arm11)
            },
            old(self)@.arm9_stopped ==> final(self)@.arm9_stopped && final(self)@.arm9_pc == old(
                self,
            )@.arm9_pc,
            old(self)@.arm11_stopped ==> final(self)@.arm11_stopped && final(self)@.arm11_pc
                == old(self)@.arm11_pc,
    {
        let ghost idle = RunOutcome { fault: None, pc: 0 };
        let ghost mut report9 = idle;
        let ghost mut report11 = idle;
        match self.next_run(Cpu::Arm9) {
            Some(request) => {
                let outcome = arm9_emu(request);
                proof {
                    report9 = outcome;
                }
                let result = self.record_run(Cpu::Arm9, outcome);
                match result {
                    QuantumResult::Error(message) => {
                        let r = QuantumResult::Error(message);
                        assert(self@ == old(self)@.round(report9@, report11@));
                        assert(is_round_result(r, old(self)@, report9, report11));
                        return r;
                    },
                    QuantumResult::Continue => {},
                }
            },
            None => {},
        }
        assert(self@.request(Cpu::Arm11) == old(self)@.request(Cpu::Arm11));
        match self.next_run(Cpu::Arm11) {
            Some(request) => {
                let outcome = arm11_emu(request);
                proof {
                    report11 = outcome;
                }
                let result = self.record_run(Cpu::Arm11, outcome);
                assert(self@ == old(self)@.round(report9@, report11@));
                assert(is_round_result(result, old(self)@, report9, report11));
                result
            },
            None => {
                assert(self@ == old(self)@.round(report9@, report11@));
                assert(is_round_result(QuantumResult::Continue, old(self)@, report9, report11));
                QuantumResult::Continue
            },
        }
    }
}

/// In every round the total grows by exactly the quanta that were
/// granted in it: a stopped processor adds nothing, nor does one whose run
/// ended in a fault, nor the application processor where the fault of the
/// coprocessor ended the round before its turn.
pub proof fn law_total_grows_by_granted(s: SchedulerModel, arm9: RunReport, arm11: RunReport)
    ensures
        s.round(arm9, arm11).total_executed == s.total_executed + s.granted(Cpu::Arm9, arm9) + (
        if s.fatal(Cpu::Arm9, arm9) {
            0
        } else {
            s.granted(Cpu::Arm11, arm11)
        }),
        s.arm9_stopped ==> s.granted(Cpu::Arm9, arm9) == 0,
        s.arm11_stopped ==> s.granted(Cpu::Arm11, arm11) == 0,
{
}

/// A processor that is stopped stays stopped and where it is, and no run
/// is asked for it: there is no way back.
pub proof fn law_stopped_is_final(s: SchedulerModel, cpu: Cpu, arm9: RunReport, arm11: RunReport)
    requires
        s.stopped(cpu),
    ensures
        s.request(cpu).is_none(),
        s.round(arm9, arm11).stopped(cpu),
        s.round(arm9, arm11).pc(cpu) == s.pc(cpu),
{
}

/// A processor whose stop address is its entry point is not stopped
/// before it is run, and the run does not end before that. It is asked to
/// run from its breakpoint, so that an engine that honours the breakpoint
/// runs no instruction, and it is stopped as soon as the engine reports
/// that PC: within the first round.
pub proof fn law_stop_at_entry(
    config: SchedulerConfig,
    arm9_entry: u64,
    arm11_entry: u64,
    cpu: Cpu,
    report: RunReport,
)
    requires
        SchedulerModel::init(config, arm9_entry, arm11_entry).stop_pc(cpu) == Some(
            SchedulerModel::init(config, arm9_entry, arm11_entry).pc(cpu),
        ),
        report.pc == SchedulerModel::init(config, arm9_entry, arm11_entry).pc(cpu),
    ensures
        ({
            let s = SchedulerModel::init(config, arm9_entry, arm11_entry);
            &&& !s.stopped(cpu)
            &&& !s.limit_reached() ==> !s.stop_conditions()
            &&& s.request(cpu).is_some()
            &&& s.request(cpu).unwrap().start_pc == s.request(cpu).unwrap().stop_pc
            &&& !s.fatal(cpu, report)
            &&& s.record(cpu, report).stopped(cpu)
        }),
{
}

/// The processors stop one by one: a round may stop one and leave the
/// other running, and the run as a whole counts as stopped only with both.
pub proof fn law_asymmetric_stop(s: SchedulerModel, arm9: RunReport, arm11: RunReport)
    requires
        !s.arm9_stopped,
        !s.arm11_stopped,
        s.is_stop_pc(Cpu::Arm9, arm9.pc),
        arm11.ok,
        !s.is_stop_pc(Cpu::Arm11, arm11.pc),
    ensures
        s.round(arm9, arm11).arm9_stopped,
        !s.round(arm9, arm11).arm11_stopped,
        !s.round(arm9, arm11).all_stopped(),
        s.round_fault(arm9, arm11).is_none(),
{
}

/// A fault of the application processor away from its stop address ends
/// the round with an error, and leaves what the coprocessor did in the
/// same round in place.
pub proof fn law_fault_keeps_progress(s: SchedulerModel, arm9: RunReport, arm11: RunReport)
    requires
        !s.fatal(Cpu::Arm9, arm9),
        s.record(Cpu::Arm9, arm9).fatal(Cpu::Arm11, arm11),
    ensures
        s.round_fault(arm9, arm11) == Some(Cpu::Arm11),
        s.round(arm9, arm11).arm9_pc == s.record(Cpu::Arm9, arm9).arm9_pc,
        s.round(arm9, arm11).arm9_stopped == s.record(Cpu::Arm9, arm9).arm9_stopped,
        s.round(arm9, arm11).total_executed == s.record(Cpu::Arm9, arm9).total_executed,
{
}

/// A round in which both processors run and neither engine reports a
/// fault ends without error, and the total grows by both quanta.
pub proof fn law_round_of_two_runs(s: SchedulerModel, arm9: RunReport, arm11: RunReport)
    requires
        !s.arm9_stopped,
        !s.arm11_stopped,
        arm9.ok,
        arm11.ok,
    ensures
        s.round_fault(arm9, arm11).is_none(),
        s.round(arm9, arm11).total_executed == s.total_executed + s.config.arm9_quantum
            + s.config.arm11_quantum,
{
}

/// A round with one processor stopped asks no run of it, leaves its PC
/// and its flag, and adds the quantum of the other alone, where that run
/// ends without a fault.
pub proof fn law_round_with_one_stopped(
    s: SchedulerModel,
    stopped: Cpu,
    arm9: RunReport,
    arm11: RunReport,
)
    requires
        s.stopped(stopped),
        !s.all_stopped(),
        arm9.ok,
        arm11.ok,
    ensures
        s.request(stopped).is_none(),
        s.round(arm9, arm11).pc(stopped) == s.pc(stopped),
        s.round(arm9, arm11).stopped(stopped),
        s.round_fault(arm9, arm11).is_none(),
        s.round(arm9, arm11).total_executed == s.total_executed + (match stopped {
            Cpu::Arm9 => s.config.arm11_quantum,
            Cpu::Arm11 => s.config.arm9_quantum,
        }),
{
}

/// A processor that stands at its stop address does not end the run
/// while the other still runs and the instruction limit is not reached.
pub proof fn law_one_stop_is_no_end(s: SchedulerModel, other: Cpu)
    requires
        !s.stopped(other),
        !s.limit_reached(),
    ensures
        !s.stop_conditions(),
{
}

} // verus!
