use nesemu::machine::addressing::OperandType;
use nesemu::machine::cpu::{CpuError, CPU};
use nesemu::machine::instruction::Instruction;
use nesemu::machine::monitor::MonitorCommand;
use nesemu::machine::{Directive, Machine, Report, RunAction, RunEvent};

fn args(list: &[&str]) -> Vec<String> {
    list.iter().map(|arg| arg.to_string()).collect()
}

fn line(text: &str) -> RunEvent {
    RunEvent::Line(text.to_string())
}

fn lda() -> Instruction {
    Instruction::LDA(0xA9, 0xC3, 1, OperandType::Imm)
}

fn prompt(report: Report, next: Option<Instruction>) -> RunAction {
    RunAction { report, directive: Directive::Prompt(next) }
}

#[test]
fn new_machine_is_blank_and_debugging() {
    let machine = Machine::new();
    assert_eq!(machine.cpu, CPU::new());
    assert!(machine.debug);
    assert!(!machine.reset);
    assert!(!machine.stop);
    assert!(!machine.quiet);
    for addr in 0..=0xFFFFu16 {
        assert_eq!(machine.memory.read(addr), 0);
    }
}

#[test]
fn args_without_help_make_a_machine() {
    let machine = Machine::new_from_args(&args(&["nesemu"])).expect("a machine");
    assert!(machine.debug);
    assert_eq!(machine.cpu, CPU::new());
    let machine = Machine::new_from_args(&args(&["nesemu", "-d", "rom.nes"])).expect("a machine");
    assert!(machine.debug);
    assert!(Machine::new_from_args(&args(&[])).is_some());
    assert!(Machine::new_from_args(&args(&["-dd", "-", "d", "--h", "-H", "h"])).is_some());
}

#[test]
fn help_flag_makes_no_machine() {
    assert!(Machine::new_from_args(&args(&["nesemu", "-h"])).is_none());
    assert!(Machine::new_from_args(&args(&["-h", "-d"])).is_none());
    assert!(Machine::new_from_args(&args(&["-d", "x", "-h"])).is_none());
}

#[test]
fn set_debug_switches_the_monitor() {
    let mut machine = Machine::new();
    machine.set_debug(false);
    assert!(!machine.debug);
    machine.set_debug(true);
    assert!(machine.debug);
    assert_eq!(machine.cpu, CPU::new());
}

#[test]
fn stub_program_is_lda_then_halt() {
    let mut machine = Machine::new();
    machine.stub_fill_memory_with_insts();
    assert_eq!(machine.memory.read(0), 0xA9);
    assert_eq!(machine.memory.read(1), 0xC3);
    assert_eq!(machine.memory.read(2), 0xFF);
    assert_eq!(machine.memory.read(3), 0x00);
}

#[test]
fn machine_reset_zeroes_everything() {
    let mut machine = Machine::new();
    machine.stub_fill_memory_with_insts();
    machine.memory.write(0xFFFF, 0x11);
    machine.memory.write(0x0003, 0x69);
    machine.memory.write(0x0004, 0x80);
    assert_eq!(machine.run(RunEvent::Tick).directive, Directive::Prompt(Some(Instruction::MyHalt(255))));
    machine.cpu.x = 7;
    machine.cpu.y = 9;
    machine.cpu.status.decimal = true;
    assert_eq!(machine.cpu.a, 0xC3);
    machine.reset();
    assert_eq!((machine.cpu.a, machine.cpu.x, machine.cpu.y, machine.cpu.pc), (0, 0, 0, 0));
    assert_eq!(u8::from(&machine.cpu.status), 0);
    for addr in 0..=0xFFFFu16 {
        assert_eq!(machine.memory.read(addr), 0);
    }
    assert!(machine.debug);
}

#[test]
fn start_loads_the_stub_and_prompts() {
    let mut machine = Machine::new();
    assert_eq!(machine.run(RunEvent::Start), prompt(Report::Nothing, Some(lda())));
    assert_eq!(machine.memory.read(0), 0xA9);
    assert_eq!(machine.cpu.pc, 0);
}

#[test]
fn step_executes_one_instruction() {
    let mut machine = Machine::new();
    machine.run(RunEvent::Start);
    assert_eq!(machine.run(line("s\n")), prompt(Report::Nothing, Some(Instruction::MyHalt(255))));
    assert_eq!(machine.cpu.a, 0xC3);
    assert!(machine.cpu.status.negative);
    assert_eq!(machine.cpu.pc, 2);
    assert_eq!(machine.run(line("s")), prompt(Report::Nothing, Some(Instruction::MyHalt(255))));
    assert_eq!(machine.cpu.pc, 2);
}

#[test]
fn print_state_reports_registers_and_silences_the_lookahead() {
    let mut machine = Machine::new();
    machine.run(RunEvent::Start);
    machine.run(line("s\n"));
    let registers = Report::Registers { a: 0xC3, x: 0, y: 0, flags: 0x80 };
    assert_eq!(machine.run(line("p\n")), prompt(registers, None));
    assert!(machine.quiet);
    assert_eq!(machine.run(line("what\n")), prompt(Report::UnknownCommand, None));
    assert_eq!(
        machine.run(line("s\n")),
        prompt(Report::Nothing, Some(Instruction::MyHalt(255)))
    );
    assert!(!machine.quiet);
    assert_eq!(
        machine.run(line("rr\n")),
        prompt(Report::UnknownCommand, Some(Instruction::MyHalt(255)))
    );
    assert_eq!(machine.cpu.pc, 2);
}

#[test]
fn quit_runs_a_last_instruction_and_stops() {
    let mut machine = Machine::new();
    machine.run(RunEvent::Start);
    assert_eq!(
        machine.run(line("q\n")),
        RunAction { report: Report::Nothing, directive: Directive::Stopped }
    );
    assert!(machine.stop);
    assert_eq!(machine.cpu.a, 0xC3);
    assert_eq!(machine.cpu.pc, 2);
}

#[test]
fn reset_command_restarts_every_cycle() {
    let mut machine = Machine::new();
    machine.run(RunEvent::Start);
    machine.run(line("s\n"));
    machine.cpu.x = 5;
    machine.memory.write(0x0100, 0x42);
    assert_eq!(machine.run(line("r\n")), prompt(Report::ResetDone, Some(lda())));
    assert!(machine.reset);
    assert_eq!(machine.cpu, CPU::new());
    assert_eq!(machine.memory.read(0x0100), 0);
    assert_eq!(machine.memory.read(0), 0xA9);
    assert_eq!(machine.run(line("s\n")), prompt(Report::Nothing, Some(lda())));
    assert_eq!(machine.cpu, CPU::new());
}

#[test]
fn without_the_monitor_the_run_goes_on_by_ticks() {
    let mut machine = Machine::new();
    machine.set_debug(false);
    let go_on = RunAction { report: Report::Nothing, directive: Directive::Continue };
    assert_eq!(machine.run(RunEvent::Start), go_on);
    assert_eq!(machine.cpu.pc, 0);
    assert_eq!(machine.run(RunEvent::Tick), go_on);
    assert_eq!(machine.cpu.a, 0xC3);
    assert_eq!(machine.cpu.pc, 2);
    assert_eq!(machine.run(RunEvent::Tick), go_on);
    assert_eq!(machine.cpu.pc, 2);
}

#[test]
fn an_unimplemented_opcode_fails_the_run() {
    let mut machine = Machine::new();
    machine.run(RunEvent::Start);
    machine.memory.write(0, 0xEA);
    assert_eq!(
        machine.run(line("s\n")),
        RunAction {
            report: Report::Nothing,
            directive: Directive::Failed(CpuError::UnimplementedOpcode(0xEA)),
        }
    );
    assert_eq!(machine.cpu.pc, 1);
    assert_eq!(machine.cpu.a, 0);
}

#[test]
fn command_obeys_without_parsing() {
    let mut machine = Machine::new();
    machine.run(RunEvent::Start);
    assert_eq!(
        machine.command(MonitorCommand::Step),
        prompt(Report::Nothing, Some(Instruction::MyHalt(255)))
    );
    assert_eq!(
        machine.command(MonitorCommand::Unknown),
        prompt(Report::UnknownCommand, Some(Instruction::MyHalt(255)))
    );
    assert_eq!(
        machine.command(MonitorCommand::PrintState),
        prompt(Report::Registers { a: 0xC3, x: 0, y: 0, flags: 0x80 }, None)
    );
    assert_eq!(machine.command(MonitorCommand::Quit).directive, Directive::Stopped);
}
