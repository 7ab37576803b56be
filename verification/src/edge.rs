//! Edge detection: one latch per logical button, and the transitions between frames.
use vstd::prelude::*;
use crate::dualsense_state::BUTTON_COUNT;
use crate::p9n_interface::PlaystationInterface;

verus! {

/// A one-shot notice that a button changed between the previous frame and this one.
#[derive(Clone, Copy, Debug, PartialEq, Eq, Structural)]
pub enum Edge {
    /// The button was released and is now held.
    RisingEdge(usize),
    /// The button was held and is now released.
    FallingEdge(usize),
}

/// The edge, if any, of a button whose latch reads `latch` and which the frame shows as `held`.
pub open spec fn edge_between(button: usize, latch: bool, held: bool) -> Option<Edge> {
    if !latch && held {
        Some(Edge::RisingEdge(button))
    } else if latch && !held {
        Some(Edge::FallingEdge(button))
    } else {
        None
    }
}

/// The edges of the first `n` buttons in scan order, which is identifier order.
pub open spec fn scan_edges(latches: Seq<bool>, held: Seq<bool>, n: nat) -> Seq<Edge>
    decreases n,
{
    if n == 0 {
        Seq::empty()
    } else {
        let before = scan_edges(latches, held, (n - 1) as nat);
        match edge_between((n - 1) as usize, latches[n - 1], held[n - 1]) {
            Some(e) => before.push(e),
            None => before,
        }
    }
}

/// The latches of the monitored buttons.
#[derive(Debug)]
pub struct ButtonEdgeTracker {
    latches: Vec<bool>,
}

impl ButtonEdgeTracker {
    /// The latch of every logical button, in identifier order.
    pub closed spec fn latches(&self) -> Seq<bool> {
        self.latches@
    }

    /// There is one latch per logical button.
    pub open spec fn wf(&self) -> bool {
        self.latches().len() == BUTTON_COUNT
    }

    /// A tracker with every button released.
    pub fn new() -> (t: ButtonEdgeTracker)
        ensures
            t.wf(),
            forall|b: int| 0 <= b < BUTTON_COUNT ==> !t.latches()[b],
    {
        let mut latches: Vec<bool> = Vec::new();
        let mut b: usize = 0;
        while b < BUTTON_COUNT
            invariant
                b <= BUTTON_COUNT,
                latches@.len() == b,
                forall|k: int| 0 <= k < b ==> !latches@[k],
            decreases BUTTON_COUNT - b,
        {
            latches.push(false);
            b = b + 1;
        }
        ButtonEdgeTracker { latches }
    }

    /// Whether the tracker considers the button held.
    pub fn is_latched(&self, button: usize) -> (l: bool)
        requires
            self.wf(),
            button < BUTTON_COUNT,
        ensures
            l == self.latches()[button as int],
    {
        self.latches[button]
    }

    /// Takes in the decoded state of one button: reports its edge and stores the state.
    pub fn observe(&mut self, button: usize, held: bool) -> (e: Option<Edge>)
        requires
            old(self).wf(),
            button < BUTTON_COUNT,
        ensures
            e == edge_between(button, old(self).latches()[button as int], held),
            final(self).latches() == old(self).latches().update(button as int, held),
            final(self).wf(),
    {
        let latch = self.latches[button];
        self.latches[button] = held;
        if !latch && held {
            Some(Edge::RisingEdge(button))
        } else if latch && !held {
            Some(Edge::FallingEdge(button))
        } else {
            None
        }
    }

    /// Takes in a whole frame: reports the edges of all buttons in scan order and stores the
    /// decoded states.
    pub fn scan(&mut self, frame: &PlaystationInterface) -> (edges: Vec<Edge>)
        requires
            old(self).wf(),
            frame.wf(),
        ensures
            edges@ == scan_edges(old(self).latches(), frame.held_all(), BUTTON_COUNT as nat),
            final(self).latches() == frame.held_all(),
            final(self).wf(),
    {
        let ghost before = self.latches();
        let mut edges: Vec<Edge> = Vec::new();
        let mut b: usize = 0;
        while b < BUTTON_COUNT
            invariant
                frame.wf(),
                self.wf(),
                before.len() == BUTTON_COUNT,
                b <= BUTTON_COUNT,
                edges@ == scan_edges(before, frame.held_all(), b as nat),
                forall|k: int| 0 <= k < b ==> self.latches()[k] == frame.held_all()[k],
                forall|k: int| b <= k < BUTTON_COUNT ==> self.latches()[k] == before[k],
            decreases BUTTON_COUNT - b,
        {
            let held = frame.is_held(b);
            match self.observe(b, held) {
                Some(e) => {
                    edges.push(e);
                },
                None => {},
            }
            b = b + 1;
        }
        assert(self.latches() =~= frame.held_all());
        edges
    }
}

/// The latch of one button just before frame `i`, when the latch read `start` before the
/// first frame and the frames showed the button as `values`: the state that the frame
/// before showed.
pub open spec fn latch_before(start: bool, values: Seq<bool>, i: int) -> bool {
    if i <= 0 {
        start
    } else {
        values[i - 1]
    }
}

/// What the tracker reports for the button at frame `i` of such a run.
pub open spec fn event_at(button: usize, start: bool, values: Seq<bool>, i: int) -> Option<Edge> {
    edge_between(button, latch_before(start, values, i), values[i])
}

/// How many of the first `n` frames of such a run report a falling edge.
pub open spec fn falling_count(button: usize, start: bool, values: Seq<bool>, n: int) -> nat
    decreases n,
{
    if n <= 0 {
        0
    } else {
        let earlier = falling_count(button, start, values, n - 1);
        if event_at(button, start, values, n - 1) == Some(Edge::FallingEdge(button)) {
            earlier + 1
        } else {
            earlier
        }
    }
}

/// Feeds the tracker the states that successive frames show of one button, and returns
/// what it reports for each. The latch ends as the state shown last.
pub fn replay(tracker: &mut ButtonEdgeTracker, button: usize, values: &Vec<bool>) -> (events:
    Vec<Option<Edge>>)
    requires
        old(tracker).wf(),
        button < BUTTON_COUNT,
    ensures
        final(tracker).wf(),
        events@.len() == values@.len(),
        forall|i: int|
            0 <= i < values@.len() ==> events@[i] == event_at(
                button,
                old(tracker).latches()[button as int],
                values@,
                i,
            ),
        final(tracker).latches() == old(tracker).latches().update(
            button as int,
            latch_before(old(tracker).latches()[button as int], values@, values@.len() as int),
        ),
{
    let ghost start = tracker.latches()[button as int];
    let ghost before = tracker.latches();
    let mut events: Vec<Option<Edge>> = Vec::new();
    let mut i: usize = 0;
    assert(before.update(button as int, start) =~= before);
    while i < values.len()
        invariant
            tracker.wf(),
            button < BUTTON_COUNT,
            before.len() == BUTTON_COUNT,
            i <= values@.len(),
            events@.len() == i,
            forall|k: int| 0 <= k < i ==> events@[k] == event_at(button, start, values@, k),
            tracker.latches() == before.update(
                button as int,
                latch_before(start, values@, i as int),
            ),
        decreases values@.len() - i,
    {
        let e = tracker.observe(button, values[i]);
        events.push(e);
        i = i + 1;
        assert(tracker.latches() =~= before.update(
            button as int,
            latch_before(start, values@, i as int),
        ));
    }
    events
}

/// A rising edge is reported at a frame exactly when the latch read released before it and
/// the frame shows the button held; a falling edge exactly in the opposite case. A frame
/// that shows what the latch already read reports nothing, so a steady hold never fires
/// again.
pub proof fn lemma_edge_exactly_on_transition(
    button: usize,
    start: bool,
    values: Seq<bool>,
    i: int,
)
    requires
        0 <= i < values.len(),
    ensures
        event_at(button, start, values, i) == Some(Edge::RisingEdge(button)) <==> (!latch_before(
            start,
            values,
            i,
        ) && values[i]),
        event_at(button, start, values, i) == Some(Edge::FallingEdge(button)) <==> (latch_before(
            start,
            values,
            i,
        ) && !values[i]),
        latch_before(start, values, i) == values[i] ==> event_at(button, start, values, i) is None,
        latch_before(start, values, i + 1) == values[i],
{
}

/// Between two rising edges of one button lies a falling edge: a press is reported once,
/// and not again before a release.
pub proof fn lemma_no_second_rise_without_fall(
    button: usize,
    start: bool,
    values: Seq<bool>,
    i: int,
    j: int,
)
    requires
        0 <= i < j < values.len(),
        event_at(button, start, values, i) == Some(Edge::RisingEdge(button)),
        event_at(button, start, values, j) == Some(Edge::RisingEdge(button)),
    ensures
        exists|k: int|
            i < k < j && #[trigger] event_at(button, start, values, k) == Some(
                Edge::FallingEdge(button),
            ),
    decreases j - i,
{
    // The frame before `j` shows the button released, frame `i` shows it held.
    assert(!values[j - 1]);
    assert(values[i]);
    if values[j - 2] {
        assert(event_at(button, start, values, j - 1) == Some(Edge::FallingEdge(button)));
    } else {
        // Frame `j - 1` repeats a release: look for the fall further back.
        lemma_fall_before_release(button, start, values, i, j - 1);
        let k = choose|k: int|
            i < k <= j - 1 && #[trigger] event_at(button, start, values, k) == Some(
                Edge::FallingEdge(button),
            );
        assert(i < k < j);
    }
}

/// If frame `i` shows the button held and a later frame `r` shows it released, a falling
/// edge is reported at some frame after `i` and not after `r`.
pub proof fn lemma_fall_before_release(
    button: usize,
    start: bool,
    values: Seq<bool>,
    i: int,
    r: int,
)
    requires
        0 <= i < r < values.len(),
        values[i],
        !values[r],
    ensures
        exists|k: int|
            i < k <= r && #[trigger] event_at(button, start, values, k) == Some(
                Edge::FallingEdge(button),
            ),
    decreases r - i,
{
    if values[r - 1] {
        assert(event_at(button, start, values, r) == Some(Edge::FallingEdge(button)));
    } else {
        lemma_fall_before_release(button, start, values, i, r - 1);
        let k = choose|k: int|
            i < k <= r - 1 && #[trigger] event_at(button, start, values, k) == Some(
                Edge::FallingEdge(button),
            );
        assert(i < k <= r);
    }
}

/// While the frames from `from` up to `to` all show the button held, none of the frames
/// after `from` up to `to` reports a falling edge.
pub proof fn lemma_hold_adds_no_fall(
    button: usize,
    start: bool,
    values: Seq<bool>,
    from: int,
    to: int,
)
    requires
        0 <= from <= to <= values.len(),
        forall|m: int| from <= m < to ==> values[m],
    ensures
        falling_count(button, start, values, to) == falling_count(button, start, values, from),
    decreases to - from,
{
    if from < to {
        lemma_hold_adds_no_fall(button, start, values, from, to - 1);
        assert(values[to - 1]);
    }
}

/// One press-and-release cycle reports exactly one falling edge, however many frames the
/// button was held: pressed at frame `press`, held through every frame before `release`,
/// released at frame `release`, the cycle reports a rising edge at `press`, a falling edge
/// at `release` and nothing in between.
pub proof fn lemma_one_fall_per_cycle(
    button: usize,
    start: bool,
    values: Seq<bool>,
    press: int,
    release: int,
)
    requires
        0 <= press < release < values.len(),
        !latch_before(start, values, press),
        forall|m: int| press <= m < release ==> values[m],
        !values[release],
    ensures
        event_at(button, start, values, press) == Some(Edge::RisingEdge(button)),
        event_at(button, start, values, release) == Some(Edge::FallingEdge(button)),
        forall|m: int| press < m < release ==> event_at(button, start, values, m) is None,
        falling_count(button, start, values, release + 1) == falling_count(
            button,
            start,
            values,
            press,
        ) + 1,
{
    assert(values[press]);
    assert(values[release - 1]);
    assert forall|m: int| press < m < release implies event_at(button, start, values, m) is None by {
        assert(values[m - 1]);
        assert(values[m]);
    }
    lemma_hold_adds_no_fall(button, start, values, press, release);
}

} // verus!
