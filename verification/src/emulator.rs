//! The console: a processor and a bus under one owner, with the loader and
//! the run loop.

use vstd::prelude::*;
use crate::bus::Bus;
use crate::cartridge::{parse_image, prg_window, Cartridge, CartridgeModel, LoadError, RomInfo};
use crate::cpu::Cpu;
use crate::state::{machine, CpuState, Machine};
use crate::step::CpuError;

verus! {

/// What a run did.
#[derive(Clone, Copy, Debug, PartialEq, Eq, Structural)]
pub struct RunSummary {
    /// Steps that completed.
    pub steps: u32,
    /// Cycles that the completed steps took.
    pub cycles: u64,
    /// Why the run ended before its budget, if it did.
    pub stop: Option<CpuError>,
}

/// A run as a mathematical value.
pub struct Run {
    pub machine: Machine,
    pub steps: nat,
    pub cycles: nat,
    pub stop: Option<CpuError>,
}

impl Machine {
    /// The machine that `budget` steps lead to, or as many as complete
    /// before the processor halts; with the count of completed steps, the
    /// sum of their cycles, and the error that ended the run early.
    pub open spec fn run_for(self, budget: nat) -> Run
        decreases budget,
    {
        if budget == 0 {
            Run { machine: self, steps: 0, cycles: 0, stop: None }
        } else {
            let step = self.step();
            match step.outcome {
                Err(e) => Run { machine: step.machine, steps: 0, cycles: 0, stop: Some(e) },
                Ok(c) => {
                    let rest = step.machine.run_for((budget - 1) as nat);
                    Run {
                        machine: rest.machine,
                        steps: rest.steps + 1,
                        cycles: rest.cycles + c as nat,
                        stop: rest.stop,
                    }
                },
            }
        }
    }

    /// The machine after a cartridge with program ROM `prg` was inserted
    /// and the processor reset.
    pub open spec fn insert(self, prg: Seq<u8>) -> Machine {
        Machine { bus: self.bus.with_prg(prg_window(prg)), ..self }.reset()
    }
}

/// The console.
pub struct NESEmulator {
    pub(crate) cpu: Cpu,
    pub(crate) bus: Bus,
}

impl View for NESEmulator {
    type V = Machine;

    open(crate) spec fn view(&self) -> Machine {
        machine(self.cpu@, self.bus@)
    }
}

impl NESEmulator {
    /// Processor and bus are well formed.
    pub open spec fn wf(&self) -> bool {
        self@.wf()
    }

    /// A console without cartridge: memory reads as zero and the processor
    /// is in its reset state with the program counter at 0.
    pub fn new() -> (emu: NESEmulator)
        ensures
            emu.wf(),
            emu@.cpu == CpuState::fresh(0),
            forall|addr: u16| emu@.read(addr) == 0,
    {
        NESEmulator { cpu: Cpu::new(), bus: Bus::new() }
    }

    /// Loads an iNES image: maps its program ROM at `8000` and resets the
    /// processor, so that the program counter holds the reset vector. An
    /// image that is refused leaves the console as it was.
    pub fn load_rom(&mut self, image: &[u8]) -> (r: Result<RomInfo, LoadError>)
        requires
            old(self).wf(),
        ensures
            final(self).wf(),
            match r {
                Ok(info) => {
                    &&& parse_image(image@) matches Ok(cart)
                    &&& info == cart.info
                    &&& final(self)@ == old(self)@.insert(cart.prg)
                },
                Err(e) => {
                    &&& parse_image(image@) == Err::<CartridgeModel, LoadError>(e)
                    &&& final(self)@ == old(self)@
                },
            },
    {
        match Cartridge::parse(image) {
            Err(e) => Err(e),
            Ok(cart) => {
                self.bus.insert(&cart);
                self.cpu.reset(&self.bus);
                Ok(cart.info())
            },
        }
    }

    /// Resets the processor.
    pub fn reset(&mut self)
        requires
            old(self).wf(),
        ensures
            final(self).wf(),
            final(self)@ == old(self)@.reset(),
    {
        self.cpu.reset(&self.bus);
    }

    /// Executes one step and returns the cycles it took.
    pub fn step(&mut self) -> (outcome: Result<u8, CpuError>)
        requires
            old(self).wf(),
        ensures
            final(self).wf(),
            final(self)@ == old(self)@.step().machine,
            outcome == old(self)@.step().outcome,
    {
        self.cpu.step(&mut self.bus)
    }

    /// Steps until the processor halts or `max_steps` steps are done.
    pub fn run(&mut self, max_steps: u32) -> (summary: RunSummary)
        requires
            old(self).wf(),
        ensures
            final(self).wf(),
            final(self)@ == old(self)@.run_for(max_steps as nat).machine,
            summary.steps == old(self)@.run_for(max_steps as nat).steps,
            summary.cycles == old(self)@.run_for(max_steps as nat).cycles,
            summary.stop == old(self)@.run_for(max_steps as nat).stop,
    {
        let ghost start = self@;
        let mut steps: u32 = 0;
        let mut cycles: u64 = 0;
        let mut stop: Option<CpuError> = None;
        while steps < max_steps && stop.is_none()
            invariant
                self.wf(),
                steps <= max_steps,
                cycles <= 255 * steps,
                stop is None ==> {
                    let rest = self@.run_for((max_steps - steps) as nat);
                    let whole = start.run_for(max_steps as nat);
                    &&& whole.machine == rest.machine
                    &&& whole.steps == steps + rest.steps
                    &&& whole.cycles == cycles + rest.cycles
                    &&& whole.stop == rest.stop
                },
                stop is Some ==> {
                    let whole = start.run_for(max_steps as nat);
                    &&& whole.machine == self@
                    &&& whole.steps == steps
                    &&& whole.cycles == cycles
                    &&& whole.stop == stop
                },
            decreases max_steps - steps + if stop is None { 1int } else { 0int },
        {
            match self.step() {
                Ok(c) => {
                    steps = steps + 1;
                    cycles = cycles + c as u64;
                },
                Err(e) => {
                    stop = Some(e);
                },
            }
        }
        RunSummary { steps, cycles, stop }
    }

    /// The trace line for the instruction that the next step executes.
    pub fn trace_line(&self) -> (line: Vec<char>)
        requires
            self.wf(),
        ensures
            line@ == self@.trace_line(),
    {
        self.cpu.trace_line(&self.bus)
    }

    /// The processor.
    pub fn cpu(&self) -> (cpu: &Cpu)
        ensures
            cpu@ == self@.cpu,
    {
        &self.cpu
    }

    /// The bus.
    pub fn bus(&self) -> (bus: &Bus)
        ensures
            bus@ == self@.bus,
    {
        &self.bus
    }

    /// Replaces the registers. The status byte is normalized: bit 5 is
    /// forced to 1 and bit 4 is dropped.
    pub fn set_cpu(&mut self, state: CpuState)
        requires
            old(self).wf(),
        ensures
            final(self).wf(),
            final(self)@ == old(self)@.with_cpu(
                CpuState { p: crate::status::normalize(state.p), ..state },
            ),
    {
        self.cpu = Cpu::from_state(state);
    }

    /// Reads a byte through the bus.
    pub fn read(&self, addr: u16) -> (v: u8)
        requires
            self.wf(),
        ensures
            v == self@.read(addr),
    {
        self.bus.read(addr)
    }

    /// Writes a byte through the bus.
    pub fn write(&mut self, addr: u16, v: u8)
        requires
            old(self).wf(),
        ensures
            final(self).wf(),
            final(self)@ == old(self)@.write(addr, v),
    {
        self.bus.write(addr, v);
    }

    /// Latches a non-maskable interrupt.
    pub fn trigger_nmi(&mut self)
        requires
            old(self).wf(),
        ensures
            final(self).wf(),
            final(self)@ == old(self)@.with_cpu(CpuState { nmi_pending: true, ..old(self)@.cpu }),
    {
        self.cpu.trigger_nmi();
    }

    /// Sets the level of the interrupt-request line.
    pub fn set_irq(&mut self, level: bool)
        requires
            old(self).wf(),
        ensures
            final(self).wf(),
            final(self)@ == old(self)@.with_cpu(CpuState { irq_line: level, ..old(self)@.cpu }),
    {
        self.cpu.set_irq(level);
    }
}

} // verus!
