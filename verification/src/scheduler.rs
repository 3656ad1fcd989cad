//! The cycle scheduler: runs the interpreter for one video half-frame and
//! raises the interrupt that ends it.
//!
//! A half-frame is a budget of clock cycles, the clock rate divided by twice
//! the refresh rate. `run_spec` is the run as a function on `Machine`;
//! `run_emulation` executes it. The scheduler never retries: what stopped a
//! run is reported to the host as it is.
use crate::cycles::lemma_cycle_bounds;
use crate::interpreter::{
    instruction_fits, instruction_in_image, step, step_spec, PortEvent, StepOutcome,
};
use crate::intel8080_state::{Machine, StateIntel8080};
use vstd::prelude::*;

verus! {

/// Clock rate of the processor in cycles per second.
pub const CLOCK_RATE: u32 = 2_000_000;

/// Refresh rate of the display in frames per second.
pub const REFRESH_RATE: u32 = 60;

/// Cycle budget of one half-frame: the cycles of a frame, halved, 16666.
pub const HALF_FRAME_CYCLES: u32 = CLOCK_RATE / REFRESH_RATE / 2;

/// Interrupt vector raised when the top half of the frame is done.
pub const TOP_VECTOR: u8 = 1;

/// Interrupt vector raised when the bottom half of the frame is done.
pub const BOTTOM_VECTOR: u8 = 2;

/// The half-frame budget in figures.
pub proof fn lemma_half_frame_budget()
    ensures
        HALF_FRAME_CYCLES == 16_666,
{
}

/// Why a run ended.
#[derive(Debug, Clone, Copy, PartialEq, Eq, Structural)]
pub enum RunOutcome {
    /// The cycle budget was used up.
    Completed,
    /// The processor reached HLT.
    Halted,
    /// The processor reached an opcode without a handler, or an OUT to a
    /// port that the board does not have.
    Unimplemented(u8),
    /// The program counter left the program image: there is no instruction
    /// to fetch.
    LeftImage,
}

/// What a run reports besides the new machine state.
#[derive(Debug, Clone)]
pub struct RunResult {
    pub outcome: RunOutcome,
    /// Cycles spent by the instructions that were executed.
    pub cycles: u32,
    /// The sound-port writes of the run, in the order they were made.
    pub events: Vec<PortEvent>,
}

/// A run in the model.
pub struct Run {
    pub machine: Machine,
    pub outcome: RunOutcome,
    pub cycles: nat,
    pub events: Seq<PortEvent>,
}

/// The events of one step as a sequence: empty, or the one event.
pub open spec fn event_seq(event: Option<PortEvent>) -> Seq<PortEvent> {
    match event {
        Some(e) => seq![e],
        None => Seq::empty(),
    }
}

/// The run of the machine from a state in which `cycles` of the budget are
/// already spent.
///
/// Steps are taken while the budget is not used up. The run stops before an
/// instruction that does not lie within the program image, and at a step
/// that reports HLT or an opcode without a handler; such a step leaves the
/// machine as it found it.
pub open spec fn run_spec(m: Machine, rom: Seq<u8>, cycles: nat) -> Run
    decreases HALF_FRAME_CYCLES as nat + 32 - cycles,
{
    if cycles >= HALF_FRAME_CYCLES {
        Run { machine: m, outcome: RunOutcome::Completed, cycles: cycles, events: Seq::empty() }
    } else if !instruction_in_image(rom, m.pc) {
        Run { machine: m, outcome: RunOutcome::LeftImage, cycles: cycles, events: Seq::empty() }
    } else {
        let s = step_spec(m, rom);
        match s.result.outcome {
            StepOutcome::Continue => {
                proof {
                    lemma_cycle_bounds(rom[m.pc as int]);
                }
                let rest = run_spec(s.machine, rom, cycles + s.result.cycles as nat);
                Run { events: event_seq(s.result.event) + rest.events, ..rest }
            },
            StepOutcome::Halted => Run {
                machine: s.machine,
                outcome: RunOutcome::Halted,
                cycles: cycles,
                events: Seq::empty(),
            },
            StepOutcome::Unimplemented(opcode) => Run {
                machine: s.machine,
                outcome: RunOutcome::Unimplemented(opcode),
                cycles: cycles,
                events: Seq::empty(),
            },
        }
    }
}

/// The machine after a half-frame: the run, then the interrupt on `vector`
/// if interrupts are enabled at its end.
pub open spec fn half_frame_spec(m: Machine, rom: Seq<u8>, vector: u8) -> Machine {
    let after = run_spec(m, rom, 0).machine;
    if after.interrupts {
        after.interrupted(vector)
    } else {
        after
    }
}

/// Runs the processor on the program image `buf` for one half-frame.
///
/// The state after the call, the outcome, the cycles spent and the
/// sound-port writes are exactly those of `run_spec` from zero cycles.
pub fn run_emulation(state: &mut StateIntel8080, buf: &Vec<u8>) -> (run: RunResult)
    requires
        old(state).wf(),
    ensures
        final(state)@ == run_spec(old(state)@, buf@, 0).machine,
        run.outcome == run_spec(old(state)@, buf@, 0).outcome,
        run.cycles == run_spec(old(state)@, buf@, 0).cycles,
        run.events@ == run_spec(old(state)@, buf@, 0).events,
        final(state).wf(),
{
    let ghost start = state@;
    let mut cycles: u32 = 0;
    let mut events: Vec<PortEvent> = Vec::new();
    while cycles < HALF_FRAME_CYCLES
        invariant
            state.wf(),
            start == old(state)@,
            cycles < HALF_FRAME_CYCLES + 32,
            run_spec(start, buf@, 0).machine == run_spec(state@, buf@, cycles as nat).machine,
            run_spec(start, buf@, 0).outcome == run_spec(state@, buf@, cycles as nat).outcome,
            run_spec(start, buf@, 0).cycles == run_spec(state@, buf@, cycles as nat).cycles,
            run_spec(start, buf@, 0).events == events@ + run_spec(
                state@,
                buf@,
                cycles as nat,
            ).events,
        decreases HALF_FRAME_CYCLES + 32 - cycles,
    {
        if !instruction_fits(buf, state.pc) {
            return RunResult { outcome: RunOutcome::LeftImage, cycles: cycles, events: events };
        }
        let ghost before = state@;
        let ghost seen = events@;
        let result = step(state, buf);
        match result.outcome {
            StepOutcome::Continue => {
                match result.event {
                    Some(event) => {
                        events.push(event);
                    },
                    None => {},
                }
                cycles = cycles + result.cycles;
                assert(events@ == seen + event_seq(result.event));
                assert(seen + (event_seq(result.event) + run_spec(
                    state@,
                    buf@,
                    cycles as nat,
                ).events) == seen + event_seq(result.event) + run_spec(
                    state@,
                    buf@,
                    cycles as nat,
                ).events);
            },
            StepOutcome::Halted => {
                return RunResult { outcome: RunOutcome::Halted, cycles: cycles, events: events };
            },
            StepOutcome::Unimplemented(opcode) => {
                return RunResult {
                    outcome: RunOutcome::Unimplemented(opcode),
                    cycles: cycles,
                    events: events,
                };
            },
        }
    }
    RunResult { outcome: RunOutcome::Completed, cycles: cycles, events: events }
}

/// What a half-frame reports: the run, and whether the interrupt was raised.
#[derive(Debug, Clone)]
pub struct HalfFrame {
    pub run: RunResult,
    /// Whether interrupts were enabled at the end of the run, so that the
    /// interrupt was raised.
    pub interrupted: bool,
}

/// Runs one half-frame and raises the interrupt that ends it: vector 1 after
/// the top half, vector 2 after the bottom half. The interrupt is raised
/// only if interrupts are enabled when the run ends.
pub fn run_half_frame(state: &mut StateIntel8080, buf: &Vec<u8>, top: bool) -> (frame: HalfFrame)
    requires
        old(state).wf(),
    ensures
        final(state)@ == half_frame_spec(
            old(state)@,
            buf@,
            if top {
                TOP_VECTOR
            } else {
                BOTTOM_VECTOR
            },
        ),
        frame.run.outcome == run_spec(old(state)@, buf@, 0).outcome,
        frame.run.cycles == run_spec(old(state)@, buf@, 0).cycles,
        frame.run.events@ == run_spec(old(state)@, buf@, 0).events,
        frame.interrupted == run_spec(old(state)@, buf@, 0).machine.interrupts,
        final(state).wf(),
{
    let run = run_emulation(state, buf);
    let interrupted = state.interrupts;
    if interrupted {
        state.generate_interrupt(
            if top {
                TOP_VECTOR
            } else {
                BOTTOM_VECTOR
            },
        );
    }
    HalfFrame { run: run, interrupted: interrupted }
}

} // verus!
