use vstd::prelude::*;
use crate::driver::{Fault, Level};
use crate::invocation::{Invocation, Span};

verus! {

/// The exit status of a run that stopped on a hardware fault: the status of
/// a panicking Rust program, so that callers see such a run as a crash.
pub const FAULT_EXIT_CODE: i32 = 101;

/// How a run ends.
#[derive(Clone, Copy, Debug, PartialEq, Eq, Structural)]
pub enum Ending {
    /// High, sleep and low all done.
    Completed,
    /// The interrupt guard drove the line low.
    Interrupted,
    /// The interrupt handler could not be installed; the line was not touched.
    GuardRefused,
    /// A pin write failed.
    Failed(Fault),
}

impl Ending {
    pub open spec fn code_spec(self) -> i32 {
        match self {
            Ending::Completed | Ending::Interrupted => 0,
            _ => FAULT_EXIT_CODE,
        }
    }

    /// The process exit status for this ending.
    pub fn exit_code(&self) -> (r: i32)
        ensures
            r == self.code_spec(),
    {
        match self {
            Ending::Completed | Ending::Interrupted => 0,
            _ => FAULT_EXIT_CODE,
        }
    }
}

/// What the program around the library is asked to do next.
#[derive(Clone, Copy, Debug, PartialEq, Eq, Structural)]
pub enum Action {
    /// Install the interrupt guard for this line.
    InstallGuard(u8),
    /// Write a level to a line (see `write_plan`).
    Drive(u8, Level),
    /// Block for this long.
    Sleep(Span),
    /// Stop the process with this ending.
    Finish(Ending),
}

/// What the program reports back after doing an action.
#[derive(Clone, Copy, Debug, PartialEq, Eq, Structural)]
pub enum Event {
    /// The guard was installed, or could not be.
    GuardInstalled(bool),
    /// A pin write was made.
    Wrote,
    /// A pin write failed.
    WriteFailed(Fault),
    /// The sleep ended.
    Woke,
}

/// Where a run stands.
#[derive(Clone, Copy, Debug, PartialEq, Eq, Structural)]
pub enum Phase {
    /// Nothing done yet.
    Start,
    /// Waiting for the guard to be installed.
    Guarding,
    /// Waiting for the high write.
    Raising,
    /// Sleeping with the line high.
    Holding,
    /// Waiting for the low write.
    Lowering,
    /// The run is over.
    Done(Ending),
}

/// One activation run: the line, the time to hold it high, and the phase.
#[derive(Clone, Copy, Debug, PartialEq, Eq, Structural)]
pub struct Sequencer {
    pub pin: u8,
    pub span: Span,
    pub phase: Phase,
}

/// Whether the run in `s` waits for event `e`.
pub open spec fn expects_spec(s: Sequencer, e: Event) -> bool {
    match s.phase {
        Phase::Guarding => e is GuardInstalled,
        Phase::Raising | Phase::Lowering => e is Wrote || e is WriteFailed,
        Phase::Holding => e is Woke,
        _ => false,
    }
}

/// The first phase and action of the run in `s`: install the guard.
pub open spec fn begin_spec(s: Sequencer) -> (Sequencer, Action) {
    (Sequencer { phase: Phase::Guarding, ..s }, Action::InstallGuard(s.pin))
}

/// The next phase and action of the run in `s` on event `e`. A run leaves
/// `Start` by `begin_spec` and waits for no event there or once done; such
/// a step changes nothing.
pub open spec fn step_spec(s: Sequencer, e: Event) -> (Sequencer, Action) {
    match s.phase {
        Phase::Start => (s, Action::InstallGuard(s.pin)),
        Phase::Guarding => if e == Event::GuardInstalled(true) {
            (Sequencer { phase: Phase::Raising, ..s }, Action::Drive(s.pin, Level::High))
        } else {
            (
                Sequencer { phase: Phase::Done(Ending::GuardRefused), ..s },
                Action::Finish(Ending::GuardRefused),
            )
        },
        Phase::Raising => match e {
            Event::WriteFailed(f) => (
                Sequencer { phase: Phase::Done(Ending::Failed(f)), ..s },
                Action::Finish(Ending::Failed(f)),
            ),
            _ => (Sequencer { phase: Phase::Holding, ..s }, Action::Sleep(s.span)),
        },
        Phase::Holding => (Sequencer { phase: Phase::Lowering, ..s }, Action::Drive(s.pin, Level::Low)),
        Phase::Lowering => match e {
            Event::WriteFailed(f) => (
                Sequencer { phase: Phase::Done(Ending::Failed(f)), ..s },
                Action::Finish(Ending::Failed(f)),
            ),
            _ => (
                Sequencer { phase: Phase::Done(Ending::Completed), ..s },
                Action::Finish(Ending::Completed),
            ),
        },
        Phase::Done(end) => (s, Action::Finish(end)),
    }
}

impl Sequencer {
    /// A run of a checked invocation, not yet started.
    pub fn new(inv: &Invocation) -> (r: Sequencer)
        ensures
            r == (Sequencer { pin: inv.pin, span: inv.span, phase: Phase::Start }),
    {
        Sequencer { pin: inv.pin, span: inv.span, phase: Phase::Start }
    }

    /// The first action of the run: install the guard, before any write.
    pub fn begin(&mut self) -> (a: Action)
        requires
            old(self).phase == Phase::Start,
        ensures
            (*final(self), a) == begin_spec(*old(self)),
    {
        self.phase = Phase::Guarding;
        Action::InstallGuard(self.pin)
    }

    /// Whether the run waits for `e` now.
    pub fn expects(&self, e: &Event) -> (r: bool)
        ensures
            r == expects_spec(*self, *e),
    {
        match self.phase {
            Phase::Guarding => matches!(e, Event::GuardInstalled(_)),
            Phase::Raising | Phase::Lowering => matches!(e, Event::Wrote | Event::WriteFailed(_)),
            Phase::Holding => matches!(e, Event::Woke),
            _ => false,
        }
    }

    /// Takes the run one step on the event it waits for: after the guard,
    /// write high; after the high write, sleep; after the sleep, write low;
    /// after the low write, finish. A refused guard or a failed write ends
    /// the run at once.
    pub fn on_event(&mut self, e: Event) -> (a: Action)
        requires
            expects_spec(*old(self), e),
        ensures
            (*final(self), a) == step_spec(*old(self), e),
    {
        match self.phase {
            Phase::Guarding => {
                if e == Event::GuardInstalled(true) {
                    self.phase = Phase::Raising;
                    Action::Drive(self.pin, Level::High)
                } else {
                    self.phase = Phase::Done(Ending::GuardRefused);
                    Action::Finish(Ending::GuardRefused)
                }
            },
            Phase::Raising => match e {
                Event::WriteFailed(f) => {
                    self.phase = Phase::Done(Ending::Failed(f));
                    Action::Finish(Ending::Failed(f))
                },
                _ => {
                    self.phase = Phase::Holding;
                    Action::Sleep(self.span)
                },
            },
            Phase::Holding => {
                self.phase = Phase::Lowering;
                Action::Drive(self.pin, Level::Low)
            },
            Phase::Lowering => match e {
                Event::WriteFailed(f) => {
                    self.phase = Phase::Done(Ending::Failed(f));
                    Action::Finish(Ending::Failed(f))
                },
                _ => {
                    self.phase = Phase::Done(Ending::Completed);
                    Action::Finish(Ending::Completed)
                },
            },
            Phase::Start => Action::InstallGuard(self.pin),
            Phase::Done(end) => Action::Finish(end),
        }
    }
}

/// The interrupt guard: it holds a copy of the line number and nothing else.
#[derive(Clone, Copy, Debug, PartialEq, Eq, Structural)]
pub struct Guard {
    pub pin: u8,
}

impl Guard {
    /// A guard for line `pin`.
    pub fn new(pin: u8) -> (r: Guard)
        ensures
            r.pin == pin,
    {
        Guard { pin }
    }

    pub open spec fn interrupt_action(self) -> Action {
        Action::Drive(self.pin, Level::Low)
    }

    pub open spec fn ending_after(self, wrote: Result<(), Fault>) -> Ending {
        match wrote {
            Ok(()) => Ending::Interrupted,
            Err(f) => Ending::Failed(f),
        }
    }

    /// What the guard does on an interrupt, whatever the run was doing:
    /// write its line low.
    pub fn on_interrupt(&self) -> (a: Action)
        ensures
            a == self.interrupt_action(),
    {
        Action::Drive(self.pin, Level::Low)
    }

    /// How the process ends once the guard's low write has finished.
    pub fn after_low(&self, wrote: Result<(), Fault>) -> (r: Ending)
        ensures
            r == self.ending_after(wrote),
    {
        match wrote {
            Ok(()) => Ending::Interrupted,
            Err(f) => Ending::Failed(f),
        }
    }
}

/// The first action of a run from `s` and then one action per event of
/// `evs`, with the state reached.
pub open spec fn run_spec(s: Sequencer, evs: Seq<Event>) -> (Sequencer, Seq<Action>)
    decreases evs.len(),
{
    if evs.len() == 0 {
        let (s1, a) = begin_spec(s);
        (s1, seq![a])
    } else {
        let (s1, acts) = run_spec(s, evs.drop_last());
        let (s2, a) = step_spec(s1, evs.last());
        (s2, acts.push(a))
    }
}

/// Whether each event of `evs` is one the run from `s` waits for when it
/// comes.
pub open spec fn accepted(s: Sequencer, evs: Seq<Event>) -> bool
    decreases evs.len(),
{
    if evs.len() == 0 {
        true
    } else {
        accepted(s, evs.drop_last()) && expects_spec(run_spec(s, evs.drop_last()).0, evs.last())
    }
}

/// The pin writes among `acts`, in order.
pub open spec fn writes(acts: Seq<Action>) -> Seq<(u8, Level)>
    decreases acts.len(),
{
    if acts.len() == 0 {
        Seq::empty()
    } else {
        match acts.last() {
            Action::Drive(p, l) => writes(acts.drop_last()).push((p, l)),
            _ => writes(acts.drop_last()),
        }
    }
}

/// The actions of an uninterrupted run in which every write succeeds.
pub open spec fn nominal(pin: u8, span: Span) -> Seq<Action> {
    seq![
        Action::InstallGuard(pin),
        Action::Drive(pin, Level::High),
        Action::Sleep(span),
        Action::Drive(pin, Level::Low),
        Action::Finish(Ending::Completed),
    ]
}

/// Where each phase stands in a run from `s0`: the actions so far are a
/// prefix of the nominal ones, followed by the ending if the run stopped
/// early.
pub open spec fn run_shape(s0: Sequencer, s: Sequencer, acts: Seq<Action>) -> bool {
    let nom = nominal(s0.pin, s0.span);
    &&& s.pin == s0.pin
    &&& s.span == s0.span
    &&& match s.phase {
        Phase::Start => false,
        Phase::Guarding => acts == nom.take(1),
        Phase::Raising => acts == nom.take(2),
        Phase::Holding => acts == nom.take(3),
        Phase::Lowering => acts == nom.take(4),
        Phase::Done(Ending::Completed) => acts == nom,
        Phase::Done(Ending::GuardRefused) => acts == nom.take(1).push(
            Action::Finish(Ending::GuardRefused),
        ),
        Phase::Done(Ending::Failed(f)) => acts == nom.take(2).push(
            Action::Finish(Ending::Failed(f)),
        ) || acts == nom.take(4).push(Action::Finish(Ending::Failed(f))),
        Phase::Done(Ending::Interrupted) => false,
    }
}

proof fn lemma_run_shape(s0: Sequencer, evs: Seq<Event>)
    requires
        s0.phase == Phase::Start,
        accepted(s0, evs),
    ensures
        run_shape(s0, run_spec(s0, evs).0, run_spec(s0, evs).1),
    decreases evs.len(),
{
    let nom = nominal(s0.pin, s0.span);
    if evs.len() == 0 {
        assert(seq![Action::InstallGuard(s0.pin)] =~= nom.take(1));
    } else {
        lemma_run_shape(s0, evs.drop_last());
        assert(nom.take(1).push(nom[1]) =~= nom.take(2));
        assert(nom.take(2).push(nom[2]) =~= nom.take(3));
        assert(nom.take(3).push(nom[3]) =~= nom.take(4));
        assert(nom.take(4).push(nom[4]) =~= nom);
    }
}

/// A run that completes wrote the line high, slept for the requested time,
/// wrote it low and finished, in that order, with the guard installed first.
pub proof fn lemma_completed_run(s0: Sequencer, evs: Seq<Event>)
    requires
        s0.phase == Phase::Start,
        accepted(s0, evs),
        run_spec(s0, evs).0.phase == Phase::Done(Ending::Completed),
    ensures
        run_spec(s0, evs).1 == nominal(s0.pin, s0.span),
        writes(run_spec(s0, evs).1) == seq![(s0.pin, Level::High), (s0.pin, Level::Low)],
{
    lemma_run_shape(s0, evs);
    let nom = nominal(s0.pin, s0.span);
    reveal_with_fuel(writes, 6);
    assert(nom.drop_last() =~= nom.take(4));
    assert(nom.take(4).drop_last() =~= nom.take(3));
    assert(nom.take(3).drop_last() =~= nom.take(2));
    assert(nom.take(2).drop_last() =~= nom.take(1));
    assert(nom.take(1).drop_last() =~= Seq::<Action>::empty());
    assert(writes(nom) =~= seq![(s0.pin, Level::High), (s0.pin, Level::Low)]);
}

/// Every run installs the guard before anything else: its first action is
/// the guard for the run's own line, and no write comes before it.
pub proof fn lemma_guard_first(s0: Sequencer, evs: Seq<Event>)
    requires
        s0.phase == Phase::Start,
        accepted(s0, evs),
    ensures
        run_spec(s0, evs).1.len() >= 1,
        run_spec(s0, evs).1[0] == Action::InstallGuard(s0.pin),
{
    lemma_run_shape(s0, evs);
}

/// Whatever point a run from `s0` has reached when the interrupt comes, the
/// guard for the run's line makes the last write to that line a low one,
/// and a successful low write ends the process with status 0.
pub proof fn lemma_interrupt_ends_low(s0: Sequencer, evs: Seq<Event>, g: Guard)
    requires
        s0.phase == Phase::Start,
        accepted(s0, evs),
        g.pin == s0.pin,
    ensures
        ({
            let w = writes(run_spec(s0, evs).1.push(g.interrupt_action()));
            &&& w.len() >= 1
            &&& w.last() == (s0.pin, Level::Low)
        }),
        g.ending_after(Ok(())).code_spec() == 0,
{
    let acts = run_spec(s0, evs).1;
    assert(acts.push(g.interrupt_action()).drop_last() =~= acts);
}

} // verus!
