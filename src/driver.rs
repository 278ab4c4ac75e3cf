use vstd::prelude::*;

verus! {

/// A logic level on a line.
#[derive(Clone, Copy, Debug, PartialEq, Eq, Structural)]
pub enum Level {
    Low,
    High,
}

/// The role a GPIO line is configured for.
#[derive(Clone, Copy, Debug, PartialEq, Eq, Structural)]
pub enum Mode {
    Input,
    Output,
    /// Any alternate function of the line.
    Alternate,
}

/// What can be observed of a line from outside: its mode and its level.
#[derive(Clone, Copy, Debug, PartialEq, Eq, Structural)]
pub struct Line {
    pub mode: Mode,
    pub level: Level,
}

/// Why a pin write could not be made.
#[derive(Clone, Copy, Debug, PartialEq, Eq, Structural)]
pub enum Fault {
    /// The GPIO subsystem could not be opened.
    SubsystemUnavailable,
    /// The line could not be claimed (it does not exist or is in use).
    PinUnavailable,
}

/// One step of a pin write, as the GPIO library offers it.
#[derive(Clone, Copy, Debug, PartialEq, Eq, Structural)]
pub enum DriverOp {
    /// Open the GPIO subsystem.
    OpenSubsystem,
    /// Claim a handle on the numbered line.
    ClaimPin(u8),
    /// Turn the claimed handle into an output handle; the line's mode before
    /// this is remembered and, by default, restored on release.
    MakeOutput,
    /// Switch off the restoring of the remembered mode on release.
    KeepStateOnRelease,
    /// Drive the line to a level.
    Write(Level),
    /// Drop the handle and the subsystem.
    Release,
}

/// A claimed handle: the mode to restore, if any, and whether release
/// restores it.
pub struct Claim {
    pub saved: Option<Mode>,
    pub reset_on_release: bool,
}

/// A line together with the handle held on it, if any.
pub struct Wire {
    pub line: Line,
    pub claim: Option<Claim>,
}

/// The effect of one step on a wire, after the GPIO library's own rules: a
/// freshly claimed handle restores nothing; making it an output remembers a
/// mode other than output and turns restoring on; release restores the
/// remembered mode only while restoring is on.
pub open spec fn apply_op(w: Wire, op: DriverOp) -> Wire {
    match op {
        DriverOp::OpenSubsystem => w,
        DriverOp::ClaimPin(_) => Wire {
            claim: Some(Claim { saved: None, reset_on_release: false }),
            ..w
        },
        DriverOp::MakeOutput => match w.claim {
            Some(_) => Wire {
                line: Line { mode: Mode::Output, ..w.line },
                claim: Some(
                    Claim {
                        saved: if w.line.mode == Mode::Output {
                            None
                        } else {
                            Some(w.line.mode)
                        },
                        reset_on_release: true,
                    },
                ),
            },
            None => w,
        },
        DriverOp::KeepStateOnRelease => match w.claim {
            Some(c) => Wire { claim: Some(Claim { reset_on_release: false, ..c }), ..w },
            None => w,
        },
        DriverOp::Write(l) => match w.claim {
            Some(_) => Wire { line: Line { level: l, ..w.line }, ..w },
            None => w,
        },
        DriverOp::Release => match w.claim {
            Some(c) => Wire {
                line: if c.reset_on_release && c.saved is Some {
                    Line { mode: c.saved->Some_0, ..w.line }
                } else {
                    w.line
                },
                claim: None,
            },
            None => w,
        },
    }
}

/// The effect of a sequence of steps, in order.
pub open spec fn apply_ops(w: Wire, ops: Seq<DriverOp>) -> Wire
    decreases ops.len(),
{
    if ops.len() == 0 {
        w
    } else {
        apply_ops(apply_op(w, ops[0]), ops.drop_first())
    }
}

pub open spec fn plan_spec(pin: u8, level: Level) -> Seq<DriverOp> {
    seq![
        DriverOp::OpenSubsystem,
        DriverOp::ClaimPin(pin),
        DriverOp::MakeOutput,
        DriverOp::KeepStateOnRelease,
        DriverOp::Write(level),
        DriverOp::Release,
    ]
}

/// The steps of one write of `level` to line `pin`: open, claim, make it an
/// output, keep its state on release, write, release. Run from a line with
/// no handle on it, they leave an output line at `level` and no handle.
pub fn write_plan(pin: u8, level: Level) -> (r: Vec<DriverOp>)
    ensures
        r@ == plan_spec(pin, level),
        forall|w: Wire|
            w.claim is None ==> #[trigger] apply_ops(w, r@) == (Wire {
                line: Line { mode: Mode::Output, level },
                claim: None,
            }),
{
    let r = vec![
        DriverOp::OpenSubsystem,
        DriverOp::ClaimPin(pin),
        DriverOp::MakeOutput,
        DriverOp::KeepStateOnRelease,
        DriverOp::Write(level),
        DriverOp::Release,
    ];
    proof {
        assert(r@ =~= plan_spec(pin, level));
        assert forall|w: Wire| w.claim is None implies #[trigger] apply_ops(w, r@) == (Wire {
            line: Line { mode: Mode::Output, level },
            claim: None,
        }) by {
            lemma_plan_effect(w, pin, level);
        }
    }
    r
}

proof fn lemma_plan_effect(w: Wire, pin: u8, level: Level)
    requires
        w.claim is None,
    ensures
        apply_ops(w, plan_spec(pin, level)) == (Wire {
            line: Line { mode: Mode::Output, level },
            claim: None,
        }),
{
    let p = plan_spec(pin, level);
    reveal_with_fuel(apply_ops, 7);
    assert(p.drop_first() =~= seq![p[1], p[2], p[3], p[4], p[5]]);
    assert(p.drop_first().drop_first() =~= seq![p[2], p[3], p[4], p[5]]);
    assert(p.drop_first().drop_first().drop_first() =~= seq![p[3], p[4], p[5]]);
    assert(p.drop_first().drop_first().drop_first().drop_first() =~= seq![p[4], p[5]]);
    assert(p.drop_first().drop_first().drop_first().drop_first().drop_first() =~= seq![p[5]]);
    assert(seq![p[5]].drop_first() =~= Seq::<DriverOp>::empty());
}

impl DriverOp {
    /// The fault reported when this step fails: only opening the subsystem
    /// and claiming the line can fail.
    pub fn fault(&self) -> (r: Option<Fault>)
        ensures
            *self == DriverOp::OpenSubsystem ==> r == Some(Fault::SubsystemUnavailable),
            *self is ClaimPin ==> r == Some(Fault::PinUnavailable),
            !(*self == DriverOp::OpenSubsystem || *self is ClaimPin) ==> r is None,
    {
        match self {
            DriverOp::OpenSubsystem => Some(Fault::SubsystemUnavailable),
            DriverOp::ClaimPin(_) => Some(Fault::PinUnavailable),
            _ => None,
        }
    }
}

/// Writing low to a line that is already a low output changes nothing that
/// can be observed: the line stays a low output and no handle is left.
pub proof fn lemma_low_write_idempotent(pin: u8, line: Line)
    requires
        line == (Line { mode: Mode::Output, level: Level::Low }),
    ensures
        apply_ops(Wire { line, claim: None }, plan_spec(pin, Level::Low)) == (Wire {
            line,
            claim: None,
        }),
{
    lemma_plan_effect(Wire { line, claim: None }, pin, Level::Low);
}

/// Releasing a handle whose restoring is switched off leaves the line's mode
/// and level as they are.
pub proof fn lemma_release_keeps_line(w: Wire)
    requires
        w.claim matches Some(c) && !c.reset_on_release,
    ensures
        apply_op(w, DriverOp::Release).line == w.line,
        apply_op(w, DriverOp::Release).claim is None,
{
}

/// A write keeps its level through the release that ends it: after a plan's
/// write step, releasing the handle leaves the level just written and an
/// output line.
pub proof fn lemma_written_level_survives_release(w: Wire, pin: u8, level: Level)
    requires
        w.claim is None,
    ensures
        ({
            let before = apply_ops(w, plan_spec(pin, level).take(5));
            &&& before.line == (Line { mode: Mode::Output, level })
            &&& apply_op(before, DriverOp::Release).line == before.line
        }),
{
    let p = plan_spec(pin, level);
    reveal_with_fuel(apply_ops, 6);
    let t = p.take(5);
    assert(t.drop_first() =~= seq![p[1], p[2], p[3], p[4]]);
    assert(t.drop_first().drop_first() =~= seq![p[2], p[3], p[4]]);
    assert(t.drop_first().drop_first().drop_first() =~= seq![p[3], p[4]]);
    assert(t.drop_first().drop_first().drop_first().drop_first() =~= seq![p[4]]);
    assert(seq![p[4]].drop_first() =~= Seq::<DriverOp>::empty());
}

} // verus!
