//! The machine: a processor together with the memory it runs on, and the
//! bookkeeping of a run under the debugging monitor.
//!
//! A run alternates between the machine and its driver. The driver reads the
//! input and writes the output; the machine decides. `Machine::run` takes what
//! happened as a `RunEvent`, moves the machine on, and says as a `RunAction`
//! what the driver is to do next.

use vstd::prelude::*;
use vstd::string::StrSliceExecFns;

pub mod addressing;
pub mod cpu;
pub mod instruction;
pub mod lookahead;
pub mod memory;
pub mod monitor;
pub mod opcodes;
pub mod status;

use crate::machine::cpu::{CpuError, CPU};
use crate::machine::instruction::Instruction;
use crate::machine::memory::{blank_memory, MemoryBus};
use crate::machine::monitor::{command_of, trimmed, MonitorCommand};

verus! {

/// A processor, its memory, and the state of the run.
pub struct Machine {
    pub cpu: CPU,
    pub memory: MemoryBus,
    /// A reset was asked for: the machine starts every cycle afresh.
    pub reset: bool,
    /// The run is to end.
    pub stop: bool,
    /// The monitor asks for a command before every instruction.
    pub debug: bool,
    /// The monitor does not show the next instruction before its prompt.
    pub quiet: bool,
}

/// The mathematical model of a machine.
pub struct MachineState {
    pub cpu: CPU,
    pub memory: Seq<u8>,
    pub reset: bool,
    pub stop: bool,
    pub debug: bool,
    pub quiet: bool,
}

/// What happened outside the machine.
#[derive(Debug, PartialEq, Eq)]
pub enum RunEvent {
    /// The run begins.
    Start,
    /// Nothing: the machine asked to be called again.
    Tick,
    /// The user entered this line.
    Line(String),
}

/// What the driver is to tell the user.
#[derive(Clone, Copy, Debug, PartialEq, Eq)]
pub enum Report {
    /// Nothing.
    Nothing,
    /// The machine was reset.
    ResetDone,
    /// The registers, with the flags packed into one byte.
    Registers { a: u8, x: u8, y: u8, flags: u8 },
    /// The line was no command.
    UnknownCommand,
}

/// How the run goes on.
#[derive(Clone, Copy, Debug, PartialEq, Eq)]
pub enum Directive {
    /// Show the instruction, where there is one, ask for a line, and come
    /// back with it.
    Prompt(Option<Instruction>),
    /// Come back with a tick.
    Continue,
    /// The run has ended.
    Stopped,
    /// The run has ended on an instruction that could not be executed.
    Failed(CpuError),
}

/// What the driver is to do: first tell, then go on.
#[derive(Clone, Copy, Debug, PartialEq, Eq)]
pub struct RunAction {
    pub report: Report,
    pub directive: Directive,
}

/// A machine state together with the action that led to it.
pub struct Transition {
    pub state: MachineState,
    pub action: RunAction,
}

/// Some argument is the flag `-` followed by `letter`.
pub open spec fn has_flag(args: Seq<String>, letter: char) -> bool {
    exists|i: int| 0 <= i < args.len() && #[trigger] args[i]@ == seq!['-', letter]
}

impl MachineState {
    /// The state of a new machine: a processor in its initial state, a blank
    /// memory, and the monitor switched on.
    pub open spec fn initial() -> MachineState {
        MachineState {
            cpu: CPU::initial(),
            memory: blank_memory(),
            reset: false,
            stop: false,
            debug: true,
            quiet: false,
        }
    }

    /// The state with the processor and the memory back at zero.
    pub open spec fn cleared(self) -> MachineState {
        MachineState { cpu: CPU::initial(), memory: blank_memory(), ..self }
    }

    /// The state with the stub program at address zero: load `0xC3` into the
    /// accumulator, then halt.
    pub open spec fn with_stub_program(self) -> MachineState {
        MachineState {
            memory: self.memory.update(0, 0xA9).update(1, 0xC3).update(2, 0xFF),
            ..self
        }
    }

    /// The registers as the monitor shows them.
    pub open spec fn registers(self) -> Report {
        Report::Registers {
            a: self.cpu.a,
            x: self.cpu.x,
            y: self.cpu.y,
            flags: self.cpu.status.packed(),
        }
    }

    /// The head of a cycle. A machine that was asked to reset starts afresh
    /// with the stub program. Then the run ends if it was asked to; else the
    /// monitor, where it is on, shows the next instruction and asks for a
    /// command; else the run just goes on.
    pub open spec fn settled(self) -> Transition {
        let state = if self.reset {
            self.cleared().with_stub_program()
        } else {
            self
        };
        if state.stop {
            Transition {
                state,
                action: RunAction { report: Report::Nothing, directive: Directive::Stopped },
            }
        } else if state.debug {
            Transition {
                state: MachineState { quiet: false, ..state },
                action: RunAction {
                    report: Report::Nothing,
                    directive: Directive::Prompt(Some(state.cpu.next_instruction(state.memory))),
                },
            }
        } else {
            Transition {
                state,
                action: RunAction { report: Report::Nothing, directive: Directive::Continue },
            }
        }
    }

    /// One cycle: the processor takes a step, and the next cycle is headed.
    /// A step that fails ends the run.
    pub open spec fn cycled(self) -> Transition {
        let state = MachineState { cpu: self.cpu.stepped(self.memory), ..self };
        match CPU::outcome(self.cpu.next_instruction(self.memory)) {
            Ok(_) => state.settled(),
            Err(error) => Transition {
                state,
                action: RunAction { report: Report::Nothing, directive: Directive::Failed(error) },
            },
        }
    }

    /// What a command of the monitor does.
    ///
    /// `Reset` marks the machine as reset, starts it afresh with the stub
    /// program and runs a cycle. `Quit` marks the run as ending and runs a
    /// last cycle. `Step` runs a cycle. `PrintState` reports the registers and
    /// asks again, from now on without showing the next instruction. Any
    /// other line is reported and asked for again.
    pub open spec fn commanded(self, command: MonitorCommand) -> Transition {
        match command {
            MonitorCommand::Reset => {
                let marked = MachineState { reset: true, ..self };
                let restarted = marked.cleared().with_stub_program();
                Transition {
                    state: restarted.cycled().state,
                    action: RunAction {
                        report: Report::ResetDone,
                        directive: restarted.cycled().action.directive,
                    },
                }
            },
            MonitorCommand::Quit => (MachineState { stop: true, ..self }).cycled(),
            MonitorCommand::Step => self.cycled(),
            MonitorCommand::PrintState => Transition {
                state: MachineState { quiet: true, ..self },
                action: RunAction { report: self.registers(), directive: Directive::Prompt(None) },
            },
            MonitorCommand::Unknown => Transition {
                state: self,
                action: RunAction {
                    report: Report::UnknownCommand,
                    directive: Directive::Prompt(
                        if self.quiet {
                            None
                        } else {
                            Some(self.cpu.next_instruction(self.memory))
                        },
                    ),
                },
            },
        }
    }

    /// What an event does. The start loads the stub program and heads the
    /// first cycle, a tick runs a cycle, and a line is the command that it
    /// stands for once the white space at its two ends is taken off.
    pub open spec fn after(self, event: RunEvent) -> Transition {
        match event {
            RunEvent::Start => self.with_stub_program().settled(),
            RunEvent::Tick => self.cycled(),
            RunEvent::Line(line) => self.commanded(command_of(trimmed(line@))),
        }
    }
}

impl View for Machine {
    type V = MachineState;

    open spec fn view(&self) -> MachineState {
        MachineState {
            cpu: self.cpu,
            memory: self.memory@,
            reset: self.reset,
            stop: self.stop,
            debug: self.debug,
            quiet: self.quiet,
        }
    }
}

/// Whether `arg` is the flag `-` followed by `letter`.
fn is_flag(arg: &str, letter: char) -> (flag: bool)
    ensures
        flag == (arg@ == seq!['-', letter]),
{
    if arg.unicode_len() != 2 {
        assert(arg@.len() != seq!['-', letter].len());
        return false;
    }
    let first = arg.get_char(0);
    let second = arg.get_char(1);
    assert(first == '-' && second == letter ==> arg@ =~= seq!['-', letter]);
    assert(seq!['-', letter][0] == '-' && seq!['-', letter][1] == letter);
    first == '-' && second == letter
}

impl Machine {
    /// A new machine: a processor in its initial state, a blank memory, and
    /// the monitor switched on.
    pub fn new() -> (machine: Machine)
        ensures
            machine@ == MachineState::initial(),
    {
        Machine {
            cpu: CPU::new(),
            memory: MemoryBus::new(),
            reset: false,
            stop: false,
            debug: true,
            quiet: false,
        }
    }

    /// A new machine as the command line asks for it, or `None` where the
    /// command line asks for the help text instead.
    ///
    /// `-h` anywhere asks for the help text. `-d` switches the monitor on.
    /// Every other argument is passed over.
    pub fn new_from_args(args: &Vec<String>) -> (made: Option<Machine>)
        ensures
            made is None <==> has_flag(args@, 'h'),
            made matches Some(machine) ==> machine@ == (MachineState {
                debug: MachineState::initial().debug || has_flag(args@, 'd'),
                ..MachineState::initial()
            }),
    {
        let mut machine = Machine::new();
        let ghost fresh = machine@;
        let mut i: usize = 0;
        while i < args.len()
            invariant
                i <= args.len(),
                fresh == MachineState::initial(),
                machine@ == (MachineState {
                    debug: fresh.debug || has_flag(args@.take(i as int), 'd'),
                    ..fresh
                }),
                !has_flag(args@.take(i as int), 'h'),
            decreases args.len() - i,
        {
            let arg = args[i].as_str();
            let ghost seen = args@.take(i as int);
            let ghost more = args@.take(i + 1);
            assert(more[i as int] == args@[i as int]);
            assert forall|j: int| 0 <= j < seen.len() implies seen[j] == more[j] by {}
            if is_flag(arg, 'h') {
                assert(args@[i as int]@ == seq!['-', 'h']);
                return None;
            }
            if is_flag(arg, 'd') {
                machine.set_debug(true);
            }
            assert(has_flag(more, 'd') <==> has_flag(seen, 'd') || arg@ == seq!['-', 'd']) by {
                if has_flag(more, 'd') {
                    let j = choose|j: int|
                        0 <= j < more.len() && #[trigger] more[j]@ == seq!['-', 'd'];
                    if j < i {
                        assert(seen[j]@ == seq!['-', 'd']);
                    }
                }
                if has_flag(seen, 'd') {
                    let j = choose|j: int|
                        0 <= j < seen.len() && #[trigger] seen[j]@ == seq!['-', 'd'];
                    assert(more[j]@ == seq!['-', 'd']);
                }
            }
            assert(!has_flag(more, 'h')) by {
                if has_flag(more, 'h') {
                    let j = choose|j: int|
                        0 <= j < more.len() && #[trigger] more[j]@ == seq!['-', 'h'];
                    if j < i {
                        assert(seen[j]@ == seq!['-', 'h']);
                    }
                }
            }
            i = i + 1;
        }
        assert(args@.take(i as int) =~= args@);
        Some(machine)
    }

    /// Switches the monitor on or off.
    pub fn set_debug(&mut self, debug: bool)
        ensures
            final(self)@ == (MachineState { debug, ..old(self)@ }),
    {
        self.debug = debug;
    }

    /// Puts the processor and the memory back to zero: every register, every
    /// flag and every byte of the memory.
    pub fn reset(&mut self)
        ensures
            final(self)@ == old(self)@.cleared(),
            final(self).cpu == CPU::initial(),
            forall|addr: u16| final(self).memory@[addr as int] == 0,
    {
        self.cpu.reset();
        self.memory.reset();
    }

    /// Writes the stub program to address zero: load `0xC3` into the
    /// accumulator, then halt.
    pub fn stub_fill_memory_with_insts(&mut self)
        ensures
            final(self)@ == old(self)@.with_stub_program(),
    {
        self.memory.write(0x0, 0xA9);
        self.memory.write(0x1, 0xC3);
        self.memory.write(0x2, 0xFF);
    }

    /// Heads a cycle.
    fn settle(&mut self) -> (action: RunAction)
        ensures
            final(self)@ == old(self)@.settled().state,
            action == old(self)@.settled().action,
    {
        if self.reset {
            self.reset();
            self.stub_fill_memory_with_insts();
        }
        if self.stop {
            RunAction { report: Report::Nothing, directive: Directive::Stopped }
        } else if self.debug {
            self.quiet = false;
            let next = self.cpu.get_next_inst(&self.memory);
            RunAction { report: Report::Nothing, directive: Directive::Prompt(Some(next)) }
        } else {
            RunAction { report: Report::Nothing, directive: Directive::Continue }
        }
    }

    /// Runs a cycle.
    fn cycle(&mut self) -> (action: RunAction)
        ensures
            final(self)@ == old(self)@.cycled().state,
            action == old(self)@.cycled().action,
    {
        match self.cpu.execute(&mut self.memory) {
            Ok(_) => self.settle(),
            Err(error) => RunAction {
                report: Report::Nothing,
                directive: Directive::Failed(error),
            },
        }
    }

    /// Obeys a command of the monitor.
    pub fn command(&mut self, command: MonitorCommand) -> (action: RunAction)
        ensures
            final(self)@ == old(self)@.commanded(command).state,
            action == old(self)@.commanded(command).action,
    {
        match command {
            MonitorCommand::Reset => {
                self.reset = true;
                self.reset();
                self.stub_fill_memory_with_insts();
                let action = self.cycle();
                RunAction { report: Report::ResetDone, directive: action.directive }
            },
            MonitorCommand::Quit => {
                self.stop = true;
                self.cycle()
            },
            MonitorCommand::Step => self.cycle(),
            MonitorCommand::PrintState => {
                self.quiet = true;
                RunAction {
                    report: Report::Registers {
                        a: self.cpu.a,
                        x: self.cpu.x,
                        y: self.cpu.y,
                        flags: u8::from(&self.cpu.status),
                    },
                    directive: Directive::Prompt(None),
                }
            },
            MonitorCommand::Unknown => {
                let next = if self.quiet {
                    None
                } else {
                    Some(self.cpu.get_next_inst(&self.memory))
                };
                RunAction { report: Report::UnknownCommand, directive: Directive::Prompt(next) }
            },
        }
    }

    /// Moves the run on by one event and says what the driver is to do next.
    pub fn run(&mut self, event: RunEvent) -> (action: RunAction)
        ensures
            final(self)@ == old(self)@.after(event).state,
            action == old(self)@.after(event).action,
    {
        match event {
            RunEvent::Start => {
                self.stub_fill_memory_with_insts();
                self.settle()
            },
            RunEvent::Tick => self.cycle(),
            RunEvent::Line(line) => {
                let command = MonitorCommand::parse(line.as_str());
                self.command(command)
            },
        }
    }
}

} // verus!
