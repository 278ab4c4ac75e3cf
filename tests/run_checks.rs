use relay_runner::{
    check_invocation, write_plan, Action, DriverOp, Ending, Event, Fault, Guard, Level, Phase,
    Sequencer, Span, FAULT_EXIT_CODE,
};

fn start(relay: &str, span: Span) -> Sequencer {
    let args: Vec<String> = vec!["relay_runner".to_string(), relay.to_string(), "1".to_string()];
    let inv = check_invocation(&args, Some(span)).unwrap();
    Sequencer::new(&inv)
}

#[test]
fn quarter_second_pulse_on_line_26() {
    let span = Span { secs: 0, nanos: 250_000_000 };
    let mut s = start("1", span);
    assert_eq!(s.begin(), Action::InstallGuard(26));
    assert_eq!(s.on_event(Event::GuardInstalled(true)), Action::Drive(26, Level::High));
    assert_eq!(s.on_event(Event::Wrote), Action::Sleep(span));
    assert_eq!(s.on_event(Event::Woke), Action::Drive(26, Level::Low));
    let end = s.on_event(Event::Wrote);
    assert_eq!(end, Action::Finish(Ending::Completed));
    assert_eq!(Ending::Completed.exit_code(), 0);
    assert_eq!(s.phase, Phase::Done(Ending::Completed));
}

#[test]
fn two_second_pulse_on_line_21() {
    let span = Span { secs: 2, nanos: 0 };
    let mut s = start("3", span);
    let mut acts = vec![s.begin()];
    for e in [Event::GuardInstalled(true), Event::Wrote, Event::Woke, Event::Wrote] {
        assert!(s.expects(&e));
        acts.push(s.on_event(e));
    }
    assert_eq!(
        acts,
        vec![
            Action::InstallGuard(21),
            Action::Drive(21, Level::High),
            Action::Sleep(span),
            Action::Drive(21, Level::Low),
            Action::Finish(Ending::Completed),
        ]
    );
}

#[test]
fn interrupt_while_holding_line_20_drives_it_low() {
    let span = Span { secs: 3, nanos: 0 };
    let mut s = start("2", span);
    assert_eq!(s.begin(), Action::InstallGuard(20));
    let g = Guard::new(s.pin);
    assert_eq!(s.on_event(Event::GuardInstalled(true)), Action::Drive(20, Level::High));
    assert_eq!(s.on_event(Event::Wrote), Action::Sleep(span));
    assert_eq!(s.phase, Phase::Holding);
    assert_eq!(g.on_interrupt(), Action::Drive(20, Level::Low));
    let end = g.after_low(Ok(()));
    assert_eq!(end, Ending::Interrupted);
    assert_eq!(end.exit_code(), 0);
}

#[test]
fn interrupt_with_failed_low_write_is_a_fault() {
    let g = Guard::new(26);
    let end = g.after_low(Err(Fault::SubsystemUnavailable));
    assert_eq!(end, Ending::Failed(Fault::SubsystemUnavailable));
    assert_eq!(end.exit_code(), FAULT_EXIT_CODE);
}

#[test]
fn failed_high_write_stops_before_sleeping() {
    let mut s = start("1", Span { secs: 1, nanos: 0 });
    s.begin();
    s.on_event(Event::GuardInstalled(true));
    let a = s.on_event(Event::WriteFailed(Fault::PinUnavailable));
    assert_eq!(a, Action::Finish(Ending::Failed(Fault::PinUnavailable)));
    assert!(!s.expects(&Event::Woke));
    assert_ne!(Ending::Failed(Fault::PinUnavailable).exit_code(), 0);
}

#[test]
fn failed_low_write_is_reported() {
    let mut s = start("2", Span { secs: 0, nanos: 0 });
    s.begin();
    s.on_event(Event::GuardInstalled(true));
    s.on_event(Event::Wrote);
    s.on_event(Event::Woke);
    let a = s.on_event(Event::WriteFailed(Fault::SubsystemUnavailable));
    assert_eq!(a, Action::Finish(Ending::Failed(Fault::SubsystemUnavailable)));
}

#[test]
fn refused_guard_touches_no_line() {
    let mut s = start("3", Span { secs: 1, nanos: 0 });
    s.begin();
    let a = s.on_event(Event::GuardInstalled(false));
    assert_eq!(a, Action::Finish(Ending::GuardRefused));
    assert_eq!(Ending::GuardRefused.exit_code(), FAULT_EXIT_CODE);
}

#[test]
fn zero_duration_is_a_legal_run() {
    let span = Span { secs: 0, nanos: 0 };
    let mut s = start("1", span);
    s.begin();
    s.on_event(Event::GuardInstalled(true));
    assert_eq!(s.on_event(Event::Wrote), Action::Sleep(span));
}

#[test]
fn unexpected_events_are_flagged() {
    let mut s = start("1", Span { secs: 1, nanos: 0 });
    assert!(!s.expects(&Event::GuardInstalled(true)));
    s.begin();
    assert!(s.expects(&Event::GuardInstalled(true)));
    assert!(!s.expects(&Event::Wrote));
    assert!(!s.expects(&Event::Woke));
}

#[test]
fn write_plan_keeps_state_before_writing() {
    assert_eq!(
        write_plan(20, Level::High),
        vec![
            DriverOp::OpenSubsystem,
            DriverOp::ClaimPin(20),
            DriverOp::MakeOutput,
            DriverOp::KeepStateOnRelease,
            DriverOp::Write(Level::High),
            DriverOp::Release,
        ]
    );
    let low = write_plan(26, Level::Low);
    assert_eq!(low[1], DriverOp::ClaimPin(26));
    assert_eq!(low[4], DriverOp::Write(Level::Low));
}

#[test]
fn only_open_and_claim_can_fail() {
    assert_eq!(DriverOp::OpenSubsystem.fault(), Some(Fault::SubsystemUnavailable));
    assert_eq!(DriverOp::ClaimPin(21).fault(), Some(Fault::PinUnavailable));
    assert_eq!(DriverOp::MakeOutput.fault(), None);
    assert_eq!(DriverOp::Write(Level::Low).fault(), None);
    assert_eq!(DriverOp::Release.fault(), None);
}
