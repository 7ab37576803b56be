//! Arbitration between two opposed continuous sources that share one actuator.
//!
//! The forward source and the backward source each have a held flag and an analog reading.
//! A priority token says which of them drives the actuator; the source pressed last wins.
use vstd::prelude::*;
use crate::p9n_interface::{reading_in_range, AXIS_UNIT};

verus! {

/// Which source has exclusive control of the actuator.
#[derive(Clone, Copy, Debug, PartialEq, Eq, Structural)]
pub enum PriorityToken {
    /// Neither source is active.
    Unheld,
    /// The forward source drives.
    Forward,
    /// The backward source drives.
    Backward,
}

/// The way a command moves the actuator.
#[derive(Clone, Copy, Debug, PartialEq, Eq, Structural)]
pub enum Direction {
    Forward,
    Backward,
}

/// One command for the actuator.
#[derive(Clone, Copy, Debug, PartialEq, Eq, Structural)]
pub enum Command {
    /// Drive in a direction with a magnitude.
    Drive { direction: Direction, magnitude: u64 },
    /// Return to rest: the zero command.
    Rest,
}

/// What one processing cycle knows of one source: its latch before the frame, whether the
/// frame shows it held, and its analog reading.
#[derive(Clone, Copy, Debug, PartialEq, Eq, Structural)]
pub struct SourceInput {
    pub latch: bool,
    pub held: bool,
    pub analog: i32,
}

impl SourceInput {
    /// The reading is within the analog range.
    pub open spec fn wf(&self) -> bool {
        reading_in_range(self.analog)
    }

    /// The source has a rising edge in this cycle.
    pub open spec fn rose(&self) -> bool {
        !self.latch && self.held
    }

    /// The source has a falling edge in this cycle.
    pub open spec fn fell(&self) -> bool {
        self.latch && !self.held
    }
}

/// The command magnitude of a reading: `(1 - reading) * scale` with the reading taken in
/// units of `AXIS_UNIT`, rounded to the nearest integer, a half rounding up. A fully
/// released trigger reads `AXIS_UNIT` and gives 0; a fully pressed one reads `-AXIS_UNIT`
/// and gives twice the scale.
pub open spec fn magnitude_of(analog: i32, scale: u32) -> int {
    ((AXIS_UNIT - analog) * scale + AXIS_UNIT / 2) / (AXIS_UNIT as int)
}

/// The token after a cycle. A source that rises takes the token, the forward source first
/// when both rise at once. Otherwise the holder keeps it while it is held; when it is not,
/// the token passes to the other source if that one is held, and is given up if not.
pub open spec fn next_token(token: PriorityToken, forward: SourceInput, backward: SourceInput)
    -> PriorityToken {
    if forward.rose() {
        PriorityToken::Forward
    } else if backward.rose() {
        PriorityToken::Backward
    } else if token == PriorityToken::Forward && forward.held {
        PriorityToken::Forward
    } else if token == PriorityToken::Backward && backward.held {
        PriorityToken::Backward
    } else if forward.held {
        PriorityToken::Forward
    } else if backward.held {
        PriorityToken::Backward
    } else {
        PriorityToken::Unheld
    }
}

/// The command of a cycle that starts with the token `before` and ends with `after`: the
/// holder's command while there is a holder, one zero command in the cycle that gives the
/// token up, and nothing while the token stays unheld.
pub open spec fn emitted(
    before: PriorityToken,
    after: PriorityToken,
    forward: SourceInput,
    backward: SourceInput,
    scale: u32,
) -> Option<Command> {
    match after {
        PriorityToken::Forward => Some(
            Command::Drive {
                direction: Direction::Forward,
                magnitude: magnitude_of(forward.analog, scale) as u64,
            },
        ),
        PriorityToken::Backward => Some(
            Command::Drive {
                direction: Direction::Backward,
                magnitude: magnitude_of(backward.analog, scale) as u64,
            },
        ),
        PriorityToken::Unheld => if before == PriorityToken::Unheld {
            None
        } else {
            Some(Command::Rest)
        },
    }
}

/// Whether a token agrees with the held flags: a source holds it only while held, and it is
/// unheld only while neither is.
pub open spec fn token_matches(token: PriorityToken, forward_held: bool, backward_held: bool)
    -> bool {
    match token {
        PriorityToken::Forward => forward_held,
        PriorityToken::Backward => backward_held,
        PriorityToken::Unheld => !forward_held && !backward_held,
    }
}

/// Computes the command magnitude of a reading.
pub fn magnitude(analog: i32, scale: u32) -> (m: u64)
    requires
        reading_in_range(analog),
    ensures
        m == magnitude_of(analog, scale),
        m <= 2 * scale,
        // `m` is the integer nearest to `(AXIS_UNIT - analog) * scale / AXIS_UNIT`.
        2 * (AXIS_UNIT * m - (AXIS_UNIT - analog) * scale) <= AXIS_UNIT,
        2 * ((AXIS_UNIT - analog) * scale - AXIS_UNIT * m) < AXIS_UNIT,
{
    let depth: u64 = (AXIS_UNIT - analog) as u64;
    assert(depth * scale <= 2000 * 0xffff_ffff) by (nonlinear_arith)
        requires
            depth <= 2000,
            scale <= 0xffff_ffff,
    ;
    let scaled: u64 = depth * (scale as u64);
    let m: u64 = (scaled + 500) / 1000;
    assert(scaled <= 2000 * scale) by (nonlinear_arith)
        requires
            scaled == depth * scale,
            depth <= 2000,
    ;
    m
}

/// The arbiter of one actuator: the priority token and the scale of its commands.
#[derive(Debug)]
pub struct ActuatorArbiter {
    token: PriorityToken,
    scale: u32,
}

impl ActuatorArbiter {
    /// The current token.
    pub closed spec fn token(&self) -> PriorityToken {
        self.token
    }

    /// The factor from analog depth to command magnitude.
    pub closed spec fn scale(&self) -> u32 {
        self.scale
    }

    /// An arbiter at rest: nobody holds the token.
    pub fn new(scale: u32) -> (a: ActuatorArbiter)
        ensures
            a.token() == PriorityToken::Unheld,
            a.scale() == scale,
    {
        ActuatorArbiter { token: PriorityToken::Unheld, scale }
    }

    /// The current token.
    pub fn holder(&self) -> (t: PriorityToken)
        ensures
            t == self.token(),
    {
        self.token
    }

    /// One processing cycle: moves the token and says what to send to the actuator, if
    /// anything.
    pub fn step(&mut self, forward: SourceInput, backward: SourceInput) -> (out: Option<Command>)
        requires
            forward.wf(),
            backward.wf(),
        ensures
            final(self).token() == next_token(old(self).token(), forward, backward),
            final(self).scale() == old(self).scale(),
            out == emitted(
                old(self).token(),
                final(self).token(),
                forward,
                backward,
                old(self).scale(),
            ),
            token_matches(final(self).token(), forward.held, backward.held),
    {
        let before = self.token;
        let forward_rose = !forward.latch && forward.held;
        let backward_rose = !backward.latch && backward.held;
        let after = if forward_rose {
            PriorityToken::Forward
        } else if backward_rose {
            PriorityToken::Backward
        } else if before == PriorityToken::Forward && forward.held {
            PriorityToken::Forward
        } else if before == PriorityToken::Backward && backward.held {
            PriorityToken::Backward
        } else if forward.held {
            PriorityToken::Forward
        } else if backward.held {
            PriorityToken::Backward
        } else {
            PriorityToken::Unheld
        };
        self.token = after;
        match after {
            PriorityToken::Forward => Some(
                Command::Drive {
                    direction: Direction::Forward,
                    magnitude: magnitude(forward.analog, self.scale),
                },
            ),
            PriorityToken::Backward => Some(
                Command::Drive {
                    direction: Direction::Backward,
                    magnitude: magnitude(backward.analog, self.scale),
                },
            ),
            PriorityToken::Unheld => if before == PriorityToken::Unheld {
                None
            } else {
                Some(Command::Rest)
            },
        }
    }
}

/// The token before cycle `i` of a run that starts with the token `start` and feeds the
/// cycles the inputs `forward` and `backward`.
pub open spec fn token_at(
    start: PriorityToken,
    forward: Seq<SourceInput>,
    backward: Seq<SourceInput>,
    i: int,
) -> PriorityToken
    decreases i,
{
    if i <= 0 {
        start
    } else {
        next_token(token_at(start, forward, backward, i - 1), forward[i - 1], backward[i - 1])
    }
}

/// The command of cycle `i` of such a run.
pub open spec fn command_at(
    start: PriorityToken,
    forward: Seq<SourceInput>,
    backward: Seq<SourceInput>,
    scale: u32,
    i: int,
) -> Option<Command> {
    emitted(
        token_at(start, forward, backward, i),
        token_at(start, forward, backward, i + 1),
        forward[i],
        backward[i],
        scale,
    )
}

/// The drive command of a source with a reading.
pub open spec fn drive(direction: Direction, analog: i32, scale: u32) -> Option<Command> {
    Some(Command::Drive { direction, magnitude: magnitude_of(analog, scale) as u64 })
}

/// After every cycle the token agrees with the held flags of that cycle: a source holds the
/// token only while it is held, and the token is unheld only while neither source is.
pub proof fn lemma_token_follows_held(
    start: PriorityToken,
    forward: Seq<SourceInput>,
    backward: Seq<SourceInput>,
    i: int,
)
    requires
        0 <= i < forward.len(),
        forward.len() == backward.len(),
    ensures
        token_matches(token_at(start, forward, backward, i + 1), forward[i].held, backward[i].held),
{
}

/// A cycle sends at most one command, and what it sends goes by the token after the cycle:
/// the command of the source that holds the token, which is held, so the two directions are
/// never driven at once; with the token unheld, and neither source held, the zero command
/// if the token was given up in this cycle and nothing if it was unheld before.
pub proof fn lemma_one_direction_per_cycle(
    start: PriorityToken,
    forward: Seq<SourceInput>,
    backward: Seq<SourceInput>,
    scale: u32,
    i: int,
)
    requires
        0 <= i < forward.len(),
        forward.len() == backward.len(),
    ensures
        match token_at(start, forward, backward, i + 1) {
            PriorityToken::Forward => {
                &&& forward[i].held
                &&& command_at(start, forward, backward, scale, i) == drive(
                    Direction::Forward,
                    forward[i].analog,
                    scale,
                )
            },
            PriorityToken::Backward => {
                &&& backward[i].held
                &&& command_at(start, forward, backward, scale, i) == drive(
                    Direction::Backward,
                    backward[i].analog,
                    scale,
                )
            },
            PriorityToken::Unheld => {
                &&& !forward[i].held
                &&& !backward[i].held
                &&& command_at(start, forward, backward, scale, i) == if token_at(
                    start,
                    forward,
                    backward,
                    i,
                ) == PriorityToken::Unheld {
                    None
                } else {
                    Some(Command::Rest)
                }
            },
        },
        command_at(start, forward, backward, scale, i) matches Some(Command::Drive { .. })
            ==> forward[i].held || backward[i].held,
{
}

/// When both sources are released, exactly one zero command is sent: in the first cycle
/// that finds neither held while a source still has the token. Every further cycle with both
/// released sends nothing, so the next command of any kind comes with a source held again.
pub proof fn lemma_rest_exactly_once(
    start: PriorityToken,
    forward: Seq<SourceInput>,
    backward: Seq<SourceInput>,
    scale: u32,
    from: int,
    to: int,
)
    requires
        forward.len() == backward.len(),
        0 <= from < to <= forward.len(),
        token_at(start, forward, backward, from) != PriorityToken::Unheld,
        forall|m: int| from <= m < to ==> !forward[m].held && !backward[m].held,
    ensures
        command_at(start, forward, backward, scale, from) == Some(Command::Rest),
        forall|m: int| from < m < to ==> command_at(start, forward, backward, scale, m) is None,
        forall|m: int|
            from < m <= to ==> token_at(start, forward, backward, m) == PriorityToken::Unheld,
    decreases to - from,
{
    if from + 1 < to {
        lemma_rest_exactly_once(start, forward, backward, scale, from, to - 1);
        assert(!forward[to - 1].held && !backward[to - 1].held);
        assert(token_at(start, forward, backward, to - 1) == PriorityToken::Unheld);
    } else {
        assert(!forward[from].held && !backward[from].held);
    }
}

/// Priority transfer. The forward source has the token and stays held without an edge; the
/// backward source rises in cycle `rise`, stays held, and falls in cycle `fall`. Then the
/// command of cycle `rise` and of every cycle before `fall` is the backward source's, and the
/// command of cycle `fall` is the forward source's: control comes back with no zero command
/// in between.
pub proof fn lemma_priority_transfer(
    start: PriorityToken,
    forward: Seq<SourceInput>,
    backward: Seq<SourceInput>,
    scale: u32,
    rise: int,
    fall: int,
)
    requires
        forward.len() == backward.len(),
        0 <= rise < fall < forward.len(),
        token_at(start, forward, backward, rise) == PriorityToken::Forward,
        backward[rise].rose(),
        forall|m: int| rise <= m <= fall ==> forward[m].held && forward[m].latch,
        forall|m: int| rise < m < fall ==> backward[m].held,
        !backward[fall].held,
    ensures
        forall|m: int|
            rise <= m < fall ==> command_at(start, forward, backward, scale, m) == drive(
                Direction::Backward,
                backward[m].analog,
                scale,
            ),
        command_at(start, forward, backward, scale, fall) == drive(
            Direction::Forward,
            forward[fall].analog,
            scale,
        ),
{
    lemma_backward_keeps_token(start, forward, backward, rise, fall);
    assert(forward[fall].held && forward[fall].latch);
    assert forall|m: int| rise <= m < fall implies command_at(start, forward, backward, scale, m)
        == drive(Direction::Backward, backward[m].analog, scale) by {
        assert(token_at(start, forward, backward, m + 1) == PriorityToken::Backward);
    }
    assert(token_at(start, forward, backward, fall) == PriorityToken::Backward);
}

/// Once the backward source has risen in cycle `rise`, it has the token after every cycle
/// before `upto` in which it stays held and the forward source does not rise.
pub proof fn lemma_backward_keeps_token(
    start: PriorityToken,
    forward: Seq<SourceInput>,
    backward: Seq<SourceInput>,
    rise: int,
    upto: int,
)
    requires
        forward.len() == backward.len(),
        0 <= rise < upto <= forward.len(),
        backward[rise].rose(),
        forall|m: int| rise <= m < upto ==> !forward[m].rose(),
        forall|m: int| rise < m < upto ==> backward[m].held,
    ensures
        forall|m: int|
            rise < m <= upto ==> token_at(start, forward, backward, m) == PriorityToken::Backward,
    decreases upto - rise,
{
    if rise + 1 < upto {
        lemma_backward_keeps_token(start, forward, backward, rise, upto - 1);
        assert(token_at(start, forward, backward, upto - 1) == PriorityToken::Backward);
        assert(backward[upto - 1].held);
        assert(!forward[upto - 1].rose());
    } else {
        assert(!forward[rise].rose());
    }
}

/// The other outcome of a transfer. The backward source rises in cycle `rise`, stays held
/// and falls in cycle `fall`; the forward source does not rise in any of these cycles and is
/// not held in cycle `fall`, having been released on the way. Then cycle `fall` sends the zero
/// command: control does not come back to the forward source.
pub proof fn lemma_transfer_after_release_rests(
    start: PriorityToken,
    forward: Seq<SourceInput>,
    backward: Seq<SourceInput>,
    scale: u32,
    rise: int,
    fall: int,
)
    requires
        forward.len() == backward.len(),
        0 <= rise < fall < forward.len(),
        backward[rise].rose(),
        forall|m: int| rise <= m <= fall ==> !forward[m].rose(),
        forall|m: int| rise < m < fall ==> backward[m].held,
        !backward[fall].held,
        !forward[fall].held,
    ensures
        command_at(start, forward, backward, scale, fall) == Some(Command::Rest),
        token_at(start, forward, backward, fall + 1) == PriorityToken::Unheld,
{
    lemma_backward_keeps_token(start, forward, backward, rise, fall);
    assert(token_at(start, forward, backward, fall) == PriorityToken::Backward);
    assert(!forward[fall].rose());
}

} // verus!
