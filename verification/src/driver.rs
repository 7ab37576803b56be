//! The event-loop driver: what one processing cycle does with a frame, in order — decode,
//! edge detection, arbitration, toggle coordination.
//!
//! The driver never waits. It says what to send, and the caller reports back what the
//! transport answered. While a toggle request is outstanding, frames are refused: the
//! cycle that issued the request is not over until the request is resolved.
use vstd::prelude::*;
use crate::arbiter::{
    emitted, next_token, token_matches, ActuatorArbiter, Command, PriorityToken, SourceInput,
};
use crate::dualsense_state::BUTTON_COUNT;
use crate::edge::{scan_edges, ButtonEdgeTracker, Edge};
use crate::p9n_interface::PlaystationInterface;
use crate::ps5_dualsense::RAW_AXIS_COUNT;
use crate::toggle::{
    PendingToggleRequest, Resolution, TargetPolicy, ToggleRequestCoordinator, ToggleState,
};

verus! {

/// One line of the mapping table: a rising edge of `button` toggles `axle`.
#[derive(Clone, Copy, Debug, PartialEq, Eq, Structural)]
pub struct ToggleBinding {
    pub button: usize,
    pub axle: usize,
}

/// What the control loop is configured with.
#[derive(Debug)]
pub struct ControlConfig {
    /// The logical button that gates the forward source.
    pub forward_button: usize,
    /// The logical button that gates the backward source.
    pub backward_button: usize,
    /// The raw axis that carries the forward source's analog reading.
    pub forward_axis: usize,
    /// The raw axis that carries the backward source's analog reading.
    pub backward_axis: usize,
    /// The factor from analog depth to command magnitude.
    pub scale: u32,
    /// The mapping table from buttons to axle channels.
    pub toggles: Vec<ToggleBinding>,
    /// Number of axle channels.
    pub axle_count: usize,
    /// The bounded wait for a toggle response, in milliseconds.
    pub wait_ms: u64,
    /// How the target of a toggle request is chosen.
    pub policy: TargetPolicy,
    /// Whether an accepted response's state vector is taken over for the other channels.
    pub reconcile: bool,
}

/// Why a configuration was refused.
#[derive(Clone, Copy, Debug, PartialEq, Eq, Structural)]
pub enum ConfigError {
    /// A source is gated by this identifier, which names no logical button.
    UnknownButton(usize),
    /// Both sources are gated by the same button.
    SourcesCoincide,
    /// A source reads this position, which names no raw axis.
    UnknownAxis(usize),
    /// The mapping table's line at this position names no logical button or no axle channel.
    BadBinding(usize),
}

/// Whether a line of the mapping table names a logical button and an axle channel.
pub open spec fn binding_ok(binding: ToggleBinding, axle_count: usize) -> bool {
    binding.button < BUTTON_COUNT && binding.axle < axle_count
}

/// Whether `i` is the position of the first bad line of the mapping table.
pub open spec fn first_bad_binding(toggles: Seq<ToggleBinding>, axle_count: usize, i: int) -> bool {
    &&& 0 <= i < toggles.len()
    &&& !binding_ok(toggles[i], axle_count)
    &&& forall|j: int| 0 <= j < i ==> binding_ok(#[trigger] toggles[j], axle_count)
}

impl ControlConfig {
    /// The configuration names only buttons, axes and channels that exist, and two
    /// different buttons for the two sources.
    pub open spec fn valid(&self) -> bool {
        &&& self.forward_button < BUTTON_COUNT
        &&& self.backward_button < BUTTON_COUNT
        &&& self.forward_button != self.backward_button
        &&& self.forward_axis < RAW_AXIS_COUNT
        &&& self.backward_axis < RAW_AXIS_COUNT
        &&& forall|i: int|
            0 <= i < self.toggles@.len() ==> binding_ok(#[trigger] self.toggles@[i], self.axle_count)
    }

    /// What is wrong with the configuration, if anything: the first fault in the order
    /// forward button, backward button, the two coinciding, forward axis, backward axis,
    /// mapping table.
    pub open spec fn verdict(&self) -> Option<ConfigError> {
        if self.forward_button >= BUTTON_COUNT {
            Some(ConfigError::UnknownButton(self.forward_button))
        } else if self.backward_button >= BUTTON_COUNT {
            Some(ConfigError::UnknownButton(self.backward_button))
        } else if self.forward_button == self.backward_button {
            Some(ConfigError::SourcesCoincide)
        } else if self.forward_axis >= RAW_AXIS_COUNT {
            Some(ConfigError::UnknownAxis(self.forward_axis))
        } else if self.backward_axis >= RAW_AXIS_COUNT {
            Some(ConfigError::UnknownAxis(self.backward_axis))
        } else if exists|i: int| first_bad_binding(self.toggles@, self.axle_count, i) {
            Some(
                ConfigError::BadBinding(
                    (choose|i: int| first_bad_binding(self.toggles@, self.axle_count, i)) as usize,
                ),
            )
        } else {
            None
        }
    }

    /// Checks the configuration.
    pub fn validate(&self) -> (r: Result<(), ConfigError>)
        ensures
            match r {
                Ok(_) => self.verdict() is None,
                Err(e) => self.verdict() == Some(e),
            },
            r is Ok <==> self.valid(),
    {
        if self.forward_button >= BUTTON_COUNT {
            return Err(ConfigError::UnknownButton(self.forward_button));
        }
        if self.backward_button >= BUTTON_COUNT {
            return Err(ConfigError::UnknownButton(self.backward_button));
        }
        if self.forward_button == self.backward_button {
            return Err(ConfigError::SourcesCoincide);
        }
        if self.forward_axis >= RAW_AXIS_COUNT {
            return Err(ConfigError::UnknownAxis(self.forward_axis));
        }
        if self.backward_axis >= RAW_AXIS_COUNT {
            return Err(ConfigError::UnknownAxis(self.backward_axis));
        }
        let mut i: usize = 0;
        while i < self.toggles.len()
            invariant
                i <= self.toggles@.len(),
                self.forward_button < BUTTON_COUNT,
                self.backward_button < BUTTON_COUNT,
                self.forward_button != self.backward_button,
                self.forward_axis < RAW_AXIS_COUNT,
                self.backward_axis < RAW_AXIS_COUNT,
                forall|j: int| 0 <= j < i ==> binding_ok(#[trigger] self.toggles@[j], self.axle_count),
            decreases self.toggles@.len() - i,
        {
            let binding = self.toggles[i];
            if binding.button >= BUTTON_COUNT || binding.axle >= self.axle_count {
                proof {
                    assert(first_bad_binding(self.toggles@, self.axle_count, i as int));
                    let k = choose|k: int| first_bad_binding(self.toggles@, self.axle_count, k);
                    assert(k == i) by {
                        if k < i {
                            assert(binding_ok(self.toggles@[k], self.axle_count));
                        } else if i < k {
                            assert(binding_ok(self.toggles@[i as int], self.axle_count));
                        }
                    }
                }
                return Err(ConfigError::BadBinding(i));
            }
            i = i + 1;
        }
        proof {
            assert forall|k: int| !first_bad_binding(self.toggles@, self.axle_count, k) by {
                if 0 <= k < self.toggles@.len() {
                    assert(binding_ok(self.toggles@[k], self.axle_count));
                }
            }
        }
        Ok(())
    }
}

/// What became of a frame.
#[derive(Clone, Copy, Debug, PartialEq, Eq, Structural)]
pub enum CycleStatus {
    /// The frame was processed.
    Processed,
    /// A toggle request of an earlier frame is not resolved yet; the frame was dropped.
    Blocked,
    /// The control loop has stopped after a transport failure; the frame was dropped.
    Halted,
}

/// What one processing cycle hands to the caller.
#[derive(Debug)]
pub struct CycleOutput {
    /// What became of the frame.
    pub status: CycleStatus,
    /// The edges of this frame, in scan order.
    pub edges: Vec<Edge>,
    /// The command to send to the shared actuator, if any.
    pub command: Option<Command>,
}

/// The axles to toggle after a frame: one for each of the first `n` lines of the mapping
/// table whose button has a rising edge, in table order.
pub open spec fn risen_axles(
    bindings: Seq<ToggleBinding>,
    latches: Seq<bool>,
    held: Seq<bool>,
    n: nat,
) -> Seq<usize>
    decreases n,
{
    if n == 0 {
        Seq::empty()
    } else {
        let before = risen_axles(bindings, latches, held, (n - 1) as nat);
        let binding = bindings[n - 1];
        if !latches[binding.button as int] && held[binding.button as int] {
            before.push(binding.axle)
        } else {
            before
        }
    }
}

/// The driver's state as plain values.
pub struct DriverState {
    /// The latch of every logical button.
    pub latches: Seq<bool>,
    /// The arbiter's priority token.
    pub token: PriorityToken,
    /// The arbiter's scale.
    pub scale: u32,
    /// The toggle coordinator's state.
    pub toggle: ToggleState,
    /// The axles whose toggle request is still to be issued in this cycle.
    pub queue: Seq<usize>,
    /// Whether the control loop has stopped.
    pub halted: bool,
    /// The button of the forward source.
    pub forward_button: usize,
    /// The button of the backward source.
    pub backward_button: usize,
    /// The axis of the forward source.
    pub forward_axis: usize,
    /// The axis of the backward source.
    pub backward_axis: usize,
    /// The mapping table.
    pub bindings: Seq<ToggleBinding>,
}

impl DriverState {
    /// The parts are well formed and name only what exists, and the token agrees with the
    /// latches of the two sources: a source holds it only while its latch is set, and it is
    /// unheld only while neither latch is.
    pub open spec fn wf(self) -> bool {
        &&& self.latches.len() == BUTTON_COUNT
        &&& self.toggle.wf()
        &&& self.forward_button < BUTTON_COUNT
        &&& self.backward_button < BUTTON_COUNT
        &&& self.forward_button != self.backward_button
        &&& token_matches(
            self.token,
            self.latches[self.forward_button as int],
            self.latches[self.backward_button as int],
        )
        &&& self.forward_axis < RAW_AXIS_COUNT
        &&& self.backward_axis < RAW_AXIS_COUNT
        &&& forall|i: int|
            0 <= i < self.bindings.len() ==> (#[trigger] self.bindings[i]).button < BUTTON_COUNT
                && self.bindings[i].axle < self.toggle.channels.len()
        &&& forall|i: int|
            0 <= i < self.queue.len() ==> #[trigger] self.queue[i] < self.toggle.channels.len()
    }

    /// A cycle is still open: a toggle request is in flight or yet to be issued.
    pub open spec fn busy(self) -> bool {
        self.toggle.pending is Some || self.queue.len() > 0
    }

    /// What becomes of a frame that arrives now.
    pub open spec fn status(self) -> CycleStatus {
        if self.halted {
            CycleStatus::Halted
        } else if self.busy() {
            CycleStatus::Blocked
        } else {
            CycleStatus::Processed
        }
    }

    /// What a frame tells of the forward source.
    pub open spec fn forward_input(self, held: Seq<bool>, axes: Seq<i32>) -> SourceInput {
        SourceInput {
            latch: self.latches[self.forward_button as int],
            held: held[self.forward_button as int],
            analog: axes[self.forward_axis as int],
        }
    }

    /// What a frame tells of the backward source.
    pub open spec fn backward_input(self, held: Seq<bool>, axes: Seq<i32>) -> SourceInput {
        SourceInput {
            latch: self.latches[self.backward_button as int],
            held: held[self.backward_button as int],
            analog: axes[self.backward_axis as int],
        }
    }

    /// The token after a processed frame.
    pub open spec fn frame_token(self, held: Seq<bool>, axes: Seq<i32>) -> PriorityToken {
        next_token(self.token, self.forward_input(held, axes), self.backward_input(held, axes))
    }

    /// The state after a frame with these decoded buttons and these axis readings. A frame
    /// that is not processed changes nothing.
    pub open spec fn take_frame(self, held: Seq<bool>, axes: Seq<i32>) -> DriverState {
        if self.status() != CycleStatus::Processed {
            self
        } else {
            DriverState {
                latches: held,
                token: self.frame_token(held, axes),
                queue: risen_axles(self.bindings, self.latches, held, self.bindings.len()),
                ..self
            }
        }
    }

    /// The edges that a frame reports: none unless it is processed.
    pub open spec fn frame_edges(self, held: Seq<bool>) -> Seq<Edge> {
        if self.status() != CycleStatus::Processed {
            Seq::empty()
        } else {
            scan_edges(self.latches, held, BUTTON_COUNT as nat)
        }
    }

    /// The command that a frame sends: none unless it is processed.
    pub open spec fn frame_command(self, held: Seq<bool>, axes: Seq<i32>) -> Option<Command> {
        if self.status() != CycleStatus::Processed {
            None
        } else {
            emitted(
                self.token,
                self.frame_token(held, axes),
                self.forward_input(held, axes),
                self.backward_input(held, axes),
                self.scale,
            )
        }
    }

    /// Whether the next toggle request of the open cycle can be issued now.
    pub open spec fn can_dispatch(self) -> bool {
        !self.halted && self.toggle.pending is None && self.queue.len() > 0
    }

    /// The toggle request that is issued at time `now`.
    pub open spec fn dispatched(self, now: u64) -> Option<PendingToggleRequest> {
        if self.can_dispatch() {
            self.toggle.issued(self.queue[0], now)
        } else {
            None
        }
    }

    /// The state after issuing the next toggle request at time `now`.
    pub open spec fn dispatch(self, now: u64) -> DriverState {
        if self.can_dispatch() {
            DriverState {
                toggle: self.toggle.request(self.queue[0], now),
                queue: self.queue.drop_first(),
                ..self
            }
        } else {
            self
        }
    }

    /// The state after a response.
    pub open spec fn respond(self, result: bool, states: Seq<bool>) -> DriverState {
        DriverState { toggle: self.toggle.respond(result, states), ..self }
    }

    /// The state after the news, at time `now`, that no response has come.
    pub open spec fn expire(self, now: u64) -> DriverState {
        DriverState { toggle: self.toggle.expire(now), ..self }
    }

    /// The state after a transport failure: stopped, with nothing in flight or queued.
    pub open spec fn fail(self) -> DriverState {
        DriverState { toggle: self.toggle.abandon(), queue: Seq::empty(), halted: true, ..self }
    }
}

/// The context of the control loop: every latch, token and channel that outlives a frame.
#[derive(Debug)]
pub struct EventLoopDriver {
    forward_button: usize,
    backward_button: usize,
    forward_axis: usize,
    backward_axis: usize,
    bindings: Vec<ToggleBinding>,
    tracker: ButtonEdgeTracker,
    arbiter: ActuatorArbiter,
    coordinator: ToggleRequestCoordinator,
    queue: Vec<usize>,
    halted: bool,
}

impl View for EventLoopDriver {
    type V = DriverState;

    closed spec fn view(&self) -> DriverState {
        DriverState {
            latches: self.tracker.latches(),
            token: self.arbiter.token(),
            scale: self.arbiter.scale(),
            toggle: self.coordinator@,
            queue: self.queue@,
            halted: self.halted,
            forward_button: self.forward_button,
            backward_button: self.backward_button,
            forward_axis: self.forward_axis,
            backward_axis: self.backward_axis,
            bindings: self.bindings@,
        }
    }
}

impl EventLoopDriver {
    /// The driver's state is well formed.
    pub open spec fn wf(&self) -> bool {
        self@.wf()
    }

    /// Sets the control loop up from a configuration, or says what is wrong with it. The
    /// loop starts with every button released, the token unheld and every channel idle.
    pub fn new(config: ControlConfig) -> (r: Result<EventLoopDriver, ConfigError>)
        ensures
            match r {
                Ok(d) => {
                    &&& config.verdict() is None
                    &&& d.wf()
                    &&& d@.latches == Seq::new(BUTTON_COUNT as nat, |b: int| false)
                    &&& d@.token == PriorityToken::Unheld
                    &&& d@.scale == config.scale
                    &&& d@.toggle == (ToggleState {
                        channels: Seq::new(
                            config.axle_count as nat,
                            |i: int|
                                crate::toggle::AxleChannel {
                                    confirmed_state: false,
                                    request_in_flight: false,
                                },
                        ),
                        pending: None,
                        wait_ms: config.wait_ms,
                        policy: config.policy,
                        reconcile: config.reconcile,
                    })
                    &&& d@.queue == Seq::<usize>::empty()
                    &&& !d@.halted
                    &&& d@.forward_button == config.forward_button
                    &&& d@.backward_button == config.backward_button
                    &&& d@.forward_axis == config.forward_axis
                    &&& d@.backward_axis == config.backward_axis
                    &&& d@.bindings == config.toggles@
                },
                Err(e) => config.verdict() == Some(e),
            },
            r is Ok <==> config.valid(),
    {
        match config.validate() {
            Err(e) => {
                return Err(e);
            },
            Ok(_) => {},
        }
        let tracker = ButtonEdgeTracker::new();
        let arbiter = ActuatorArbiter::new(config.scale);
        let coordinator = ToggleRequestCoordinator::new(
            config.axle_count,
            config.wait_ms,
            config.policy,
            config.reconcile,
        );
        assert(tracker.latches() =~= Seq::new(BUTTON_COUNT as nat, |b: int| false));
        let d = EventLoopDriver {
            forward_button: config.forward_button,
            backward_button: config.backward_button,
            forward_axis: config.forward_axis,
            backward_axis: config.backward_axis,
            bindings: config.toggles,
            tracker,
            arbiter,
            coordinator,
            queue: Vec::new(),
            halted: false,
        };
        assert(d@.queue =~= Seq::<usize>::empty());
        Ok(d)
    }

    /// Whether the control loop has stopped.
    pub fn is_halted(&self) -> (b: bool)
        ensures
            b == self@.halted,
    {
        self.halted
    }

    /// Whether a toggle request is in flight or yet to be issued.
    pub fn is_busy(&self) -> (b: bool)
        ensures
            b == self@.busy(),
    {
        self.coordinator.pending_request().is_some() || self.queue.len() > 0
    }

    /// The confirmed position of an axle channel.
    pub fn confirmed_state(&self, axle: usize) -> (b: bool)
        requires
            axle < self@.toggle.channels.len(),
        ensures
            b == self@.toggle.channels[axle as int].confirmed_state,
    {
        self.coordinator.confirmed_state(axle)
    }

    /// Whether a request for the axle channel is in flight.
    pub fn request_in_flight(&self, axle: usize) -> (b: bool)
        requires
            axle < self@.toggle.channels.len(),
        ensures
            b == self@.toggle.channels[axle as int].request_in_flight,
    {
        self.coordinator.request_in_flight(axle)
    }

    /// How long the transport may still wait for the response at time `now`.
    pub fn remaining_wait(&self, now: u64) -> (left: Option<u64>)
        ensures
            match self@.toggle.pending {
                None => left is None,
                Some(p) => left == Some(
                    if crate::toggle::elapsed(p.created_at, now) >= self@.toggle.wait_ms {
                        0u64
                    } else {
                        (self@.toggle.wait_ms - crate::toggle::elapsed(p.created_at, now)) as u64
                    },
                ),
            },
    {
        self.coordinator.remaining_wait(now)
    }

    /// The axles to toggle after `frame`, read before the latches take the frame in.
    fn collect_risen(&self, frame: &PlaystationInterface) -> (queue: Vec<usize>)
        requires
            self.wf(),
            frame.wf(),
        ensures
            queue@ == risen_axles(
                self@.bindings,
                self@.latches,
                frame.held_all(),
                self@.bindings.len(),
            ),
            forall|i: int| 0 <= i < queue@.len() ==> #[trigger] queue@[i] < self@.toggle.channels.len(),
    {
        let mut queue: Vec<usize> = Vec::new();
        let mut i: usize = 0;
        while i < self.bindings.len()
            invariant
                self.wf(),
                frame.wf(),
                i <= self.bindings@.len(),
                queue@ == risen_axles(self@.bindings, self@.latches, frame.held_all(), i as nat),
                forall|k: int|
                    0 <= k < queue@.len() ==> #[trigger] queue@[k] < self@.toggle.channels.len(),
            decreases self.bindings@.len() - i,
        {
            let binding = self.bindings[i];
            assert(self@.bindings[i as int].button < BUTTON_COUNT);
            let latch = self.tracker.is_latched(binding.button);
            let held = frame.is_held(binding.button);
            if !latch && held {
                queue.push(binding.axle);
            }
            i = i + 1;
        }
        queue
    }

    /// One processing cycle: takes a frame in, reports its edges and the command for the
    /// shared actuator, and queues the toggle requests that its rising edges ask for. A
    /// frame that arrives while the loop is stopped or a cycle is still open is dropped.
    pub fn on_snapshot(&mut self, frame: &PlaystationInterface) -> (out: CycleOutput)
        requires
            old(self).wf(),
            frame.wf(),
        ensures
            out.status == old(self)@.status(),
            out.edges@ == old(self)@.frame_edges(frame.held_all()),
            out.command == old(self)@.frame_command(frame.held_all(), frame.frame().axes()),
            final(self)@ == old(self)@.take_frame(frame.held_all(), frame.frame().axes()),
            final(self).wf(),
    {
        if self.halted {
            return CycleOutput { status: CycleStatus::Halted, edges: Vec::new(), command: None };
        }
        if self.is_busy() {
            return CycleOutput { status: CycleStatus::Blocked, edges: Vec::new(), command: None };
        }
        let forward = SourceInput {
            latch: self.tracker.is_latched(self.forward_button),
            held: frame.is_held(self.forward_button),
            analog: frame.value(self.forward_axis),
        };
        let backward = SourceInput {
            latch: self.tracker.is_latched(self.backward_button),
            held: frame.is_held(self.backward_button),
            analog: frame.value(self.backward_axis),
        };
        let queue = self.collect_risen(frame);
        let edges = self.tracker.scan(frame);
        let command = self.arbiter.step(forward, backward);
        self.queue = queue;
        CycleOutput { status: CycleStatus::Processed, edges, command }
    }

    /// Issues the next toggle request of the open cycle at time `now`, for the caller to
    /// send. Nothing is issued while a request is in flight or the loop is stopped.
    pub fn next_request(&mut self, now: u64) -> (r: Option<PendingToggleRequest>)
        requires
            old(self).wf(),
        ensures
            r == old(self)@.dispatched(now),
            final(self)@ == old(self)@.dispatch(now),
            final(self).wf(),
    {
        if self.halted || self.coordinator.pending_request().is_some() || self.queue.len() == 0 {
            return None;
        }
        let axle = self.queue.remove(0);
        assert(self.queue@ =~= old(self)@.queue.drop_first());
        self.coordinator.request_toggle(axle, now)
    }

    /// A response arrived within the wait.
    pub fn on_response(&mut self, result: bool, states: &Vec<bool>) -> (r: Resolution)
        requires
            old(self).wf(),
        ensures
            r == old(self)@.toggle.response_resolution(result),
            final(self)@ == old(self)@.respond(result, states@),
            final(self).wf(),
    {
        self.coordinator.on_response(result, states)
    }

    /// The transport said at time `now` that no response has come.
    pub fn on_no_response(&mut self, now: u64) -> (r: Resolution)
        requires
            old(self).wf(),
        ensures
            r == old(self)@.toggle.expiry_resolution(now),
            final(self)@ == old(self)@.expire(now),
            final(self).wf(),
    {
        self.coordinator.on_no_response(now)
    }

    /// The transport failed: the handle is freed, the queue is dropped and the loop stops.
    pub fn on_transport_error(&mut self) -> (r: Resolution)
        requires
            old(self).wf(),
        ensures
            r == Resolution::Fatal,
            final(self)@ == old(self)@.fail(),
            final(self).wf(),
    {
        let r = self.coordinator.on_transport_error();
        self.queue = Vec::new();
        self.halted = true;
        assert(self.queue@ =~= Seq::<usize>::empty());
        r
    }
}

/// While a toggle request awaits its response, a frame changes nothing: no latch moves, no
/// edge is reported, no command is sent and no request is queued or issued. So a second
/// rising edge during the wait produces no second request.
pub proof fn lemma_frame_dropped_while_awaiting(
    s: DriverState,
    held: Seq<bool>,
    axes: Seq<i32>,
    now: u64,
)
    requires
        s.toggle.pending is Some,
    ensures
        s.take_frame(held, axes) == s,
        s.frame_edges(held) == Seq::<Edge>::empty(),
        s.frame_command(held, axes) is None,
        s.dispatched(now) is None,
        s.dispatch(now) == s,
{
}

/// A frame queues a toggle only for a rising edge: where no button of the first `n` lines
/// of the mapping table rises, nothing is queued. A button that stays held after its
/// request was resolved or given up therefore asks for nothing more until it has been
/// released and pressed again.
pub proof fn lemma_no_rise_queues_nothing(
    bindings: Seq<ToggleBinding>,
    latches: Seq<bool>,
    held: Seq<bool>,
    n: nat,
)
    requires
        n <= bindings.len(),
        forall|i: int|
            0 <= i < n ==> latches[(#[trigger] bindings[i]).button as int] || !held[bindings[i].button as int],
    ensures
        risen_axles(bindings, latches, held, n) == Seq::<usize>::empty(),
    decreases n,
{
    if n > 0 {
        lemma_no_rise_queues_nothing(bindings, latches, held, (n - 1) as nat);
        assert(latches[bindings[n - 1].button as int] || !held[bindings[n - 1].button as int]);
    }
}

/// A rising edge of the button of line `i` of the mapping table queues that line's axle.
pub proof fn lemma_rise_queues_axle(
    bindings: Seq<ToggleBinding>,
    latches: Seq<bool>,
    held: Seq<bool>,
    n: nat,
    i: int,
)
    requires
        0 <= i < n <= bindings.len(),
        !latches[bindings[i].button as int],
        held[bindings[i].button as int],
    ensures
        risen_axles(bindings, latches, held, n).contains(bindings[i].axle),
    decreases n,
{
    let before = risen_axles(bindings, latches, held, (n - 1) as nat);
    if i == n - 1 {
        assert(before.push(bindings[i].axle)[before.len() as int] == bindings[i].axle);
    } else {
        lemma_rise_queues_axle(bindings, latches, held, (n - 1) as nat, i);
        let k = choose|k: int| 0 <= k < before.len() && before[k] == bindings[i].axle;
        let last = bindings[n - 1];
        if !latches[last.button as int] && held[last.button as int] {
            assert(before.push(last.axle)[k] == bindings[i].axle);
        }
    }
}

/// Every axle that a frame queues is an axle of the mapping table.
pub proof fn lemma_queued_axles_are_bound(
    bindings: Seq<ToggleBinding>,
    latches: Seq<bool>,
    held: Seq<bool>,
    n: nat,
    k: int,
)
    requires
        n <= bindings.len(),
        0 <= k < risen_axles(bindings, latches, held, n).len(),
    ensures
        exists|i: int| 0 <= i < n && (#[trigger] bindings[i]).axle == risen_axles(bindings, latches, held, n)[k],
    decreases n,
{
    if n > 0 {
        let before = risen_axles(bindings, latches, held, (n - 1) as nat);
        if k < before.len() {
            lemma_queued_axles_are_bound(bindings, latches, held, (n - 1) as nat, k);
            let i = choose|i: int| 0 <= i < n - 1 && (#[trigger] bindings[i]).axle == before[k];
            assert(bindings[i].axle == risen_axles(bindings, latches, held, n)[k]);
        } else {
            assert(bindings[n - 1].axle == risen_axles(bindings, latches, held, n)[k]);
        }
    }
}

/// Every event keeps the driver's state well formed; in particular the token agrees with
/// the latches after every frame, and at most one toggle request is in flight.
pub proof fn lemma_driver_stays_wf(
    s: DriverState,
    held: Seq<bool>,
    axes: Seq<i32>,
    now: u64,
    result: bool,
    states: Seq<bool>,
)
    requires
        s.wf(),
        held.len() == BUTTON_COUNT,
    ensures
        s.take_frame(held, axes).wf(),
        s.dispatch(now).wf(),
        s.respond(result, states).wf(),
        s.expire(now).wf(),
        s.fail().wf(),
{
    let after = s.take_frame(held, axes);
    assert forall|k: int| 0 <= k < after.queue.len() implies #[trigger] after.queue[k]
        < after.toggle.channels.len() by {
        if s.status() == CycleStatus::Processed {
            lemma_queued_axles_are_bound(s.bindings, s.latches, held, s.bindings.len(), k);
        }
    }
    if s.can_dispatch() {
        assert(s.queue[0] < s.toggle.channels.len());
        let next = s.dispatch(now);
        assert forall|k: int| 0 <= k < next.queue.len() implies #[trigger] next.queue[k]
            < next.toggle.channels.len() by {
            assert(next.queue[k] == s.queue[k + 1]);
        }
    }
}

} // verus!
