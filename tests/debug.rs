use mac128k::debug::{is_single_step_command, wants_single_step, StepAction, StepRun, TrapKind};
use mac128k::memory::Machine;

#[test]
fn single_step_reply_arms() {
    let mut m = Machine::new();
    assert!(!m.single_step_armed());
    assert!(!m.operator_reply("s\n"));
    assert!(m.single_step_armed());
    assert!(m.operator_reply("\n"));
    assert!(!m.single_step_armed());
}

#[test]
fn other_replies_disarm() {
    let mut m = Machine::new();
    assert!(!m.operator_reply("  s  \r\n"));
    assert!(m.operator_reply("step\n"));
    assert!(!m.single_step_armed());
    assert!(m.operator_reply("S\n"));
    assert!(m.operator_reply(""));
}

#[test]
fn reply_is_trimmed_before_matching() {
    assert!(wants_single_step("\ts\n"));
    assert!(!wants_single_step("ss\n"));
    assert!(is_single_step_command("s"));
    assert!(!is_single_step_command("s\n"));
    assert!(!is_single_step_command(""));
}

#[test]
fn trap_labels() {
    assert_eq!(TrapKind::SerialReadWindowRead.label(), "SCC_RD hardware read");
    assert_eq!(TrapKind::SerialReadWindowWrite.label(), "SCC_RD hardware write");
    assert_eq!(TrapKind::SerialWriteWindowRead.label(), "SCC_WR hardware read");
    assert_eq!(TrapKind::SerialWriteWindowWrite.label(), "SCC_WR hardware write");
    assert_eq!(TrapKind::RomWriteAtZero.label(), "write_u8 attempt to write to ROM@0");
    assert_eq!(TrapKind::RomWriteAtAlias.label(), "write_u8 attempt to write to ROM@400000");
    assert_eq!(TrapKind::SingleStep.label(), "Single-step");
}

#[test]
fn step_run_spends_budget() {
    let mut run = StepRun::new(10);
    assert_eq!(run.next_action(false), StepAction::Execute);
    run.record(4);
    assert_eq!(run.next_action(true), StepAction::TrapThenExecute);
    run.record(4);
    assert_eq!(run.next_action(false), StepAction::Execute);
    run.record(4);
    assert_eq!(run.next_action(false), StepAction::Stop);
    assert_eq!(run.total(), 12);
}

#[test]
fn step_run_stops_when_core_stops() {
    let mut run = StepRun::new(100);
    run.record(8);
    run.record(0);
    assert_eq!(run.next_action(false), StepAction::Stop);
    assert_eq!(run.total(), 8);
}

#[test]
fn step_run_empty_budget() {
    assert_eq!(StepRun::new(0).next_action(true), StepAction::Stop);
    assert_eq!(StepRun::new(-5).next_action(false), StepAction::Stop);
}
