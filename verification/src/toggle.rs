//! Toggle requests for binary actuators: issue one change-of-state request, wait a bounded
//! time for its confirmation, and reconcile the believed state with the answer.
//!
//! The coordinator owns the one handle on which requests are sent. A request checks the
//! handle out; every way in which a request ends hands it back.
use vstd::prelude::*;

verus! {

/// One binary actuator as the coordinator believes it to be.
#[derive(Clone, Copy, Debug, PartialEq, Eq, Structural)]
pub struct AxleChannel {
    /// The position that the last accepted request confirmed; `false` until one did.
    pub confirmed_state: bool,
    /// Whether a request for this channel awaits its response.
    pub request_in_flight: bool,
}

/// A request that has been sent and not yet resolved.
#[derive(Clone, Copy, Debug, PartialEq, Eq, Structural)]
pub struct PendingToggleRequest {
    /// The channel to switch.
    pub axle: usize,
    /// The position asked for.
    pub target: bool,
    /// When the request was issued, in milliseconds.
    pub created_at: u64,
}

/// How the position to ask for is chosen.
#[derive(Clone, Copy, Debug, PartialEq, Eq, Structural)]
pub enum TargetPolicy {
    /// Ask for the opposite of the confirmed position.
    Negate,
    /// Always ask for this position.
    Fixed(bool),
}

/// How an event ended, or did not end, the request in flight.
#[derive(Clone, Copy, Debug, PartialEq, Eq, Structural)]
pub enum Resolution {
    /// The response accepted the request; the channel now has the requested position.
    Accepted(PendingToggleRequest),
    /// The response refused the request; nothing changed.
    Rejected(PendingToggleRequest),
    /// The wait ran out; the request is abandoned and will not be sent again.
    GaveUp(PendingToggleRequest),
    /// The wait has this many milliseconds left.
    StillWaiting(u64),
    /// The transport failed; the control loop must stop.
    Fatal,
    /// No request was in flight; the event was ignored.
    NoRequest,
}

/// The position to ask for, given the policy and the confirmed position.
pub open spec fn target_for(policy: TargetPolicy, confirmed: bool) -> bool {
    match policy {
        TargetPolicy::Negate => !confirmed,
        TargetPolicy::Fixed(target) => target,
    }
}

/// Milliseconds from `created_at` to `now`; zero if the clock reads earlier than the start.
pub open spec fn elapsed(created_at: u64, now: u64) -> int {
    if now >= created_at {
        now - created_at
    } else {
        0
    }
}

/// The channel with its request cleared and its position kept.
pub open spec fn cleared(channel: AxleChannel) -> AxleChannel {
    AxleChannel { confirmed_state: channel.confirmed_state, request_in_flight: false }
}

/// The coordinator's state as plain values.
pub struct ToggleState {
    /// The channels, by axle identifier.
    pub channels: Seq<AxleChannel>,
    /// The request in flight, if any.
    pub pending: Option<PendingToggleRequest>,
    /// The bounded wait, in milliseconds from the issue of a request.
    pub wait_ms: u64,
    /// How targets are chosen.
    pub policy: TargetPolicy,
    /// Whether an accepted response's state vector is taken over for the other channels.
    pub reconcile: bool,
}

impl ToggleState {
    /// The channel flags agree with the request in flight: its channel is marked, and no
    /// other is. So at most one request is in flight.
    pub open spec fn wf(self) -> bool {
        &&& self.channels.len() <= usize::MAX
        &&& match self.pending {
            Some(p) => p.axle < self.channels.len(),
            None => true,
        }
        &&& forall|i: int|
            0 <= i < self.channels.len() ==> ((#[trigger] self.channels[i]).request_in_flight <==> (
            self.pending matches Some(p) && p.axle == i))
    }

    /// The request that a rising edge for `axle` at time `now` issues: none while one is in
    /// flight.
    pub open spec fn issued(self, axle: usize, now: u64) -> Option<PendingToggleRequest> {
        if self.pending is Some {
            None
        } else {
            Some(
                PendingToggleRequest {
                    axle,
                    target: target_for(self.policy, self.channels[axle as int].confirmed_state),
                    created_at: now,
                },
            )
        }
    }

    /// The state after a rising edge for `axle` at time `now`.
    pub open spec fn request(self, axle: usize, now: u64) -> ToggleState {
        if self.pending is Some {
            self
        } else {
            ToggleState {
                channels: self.channels.update(
                    axle as int,
                    AxleChannel {
                        confirmed_state: self.channels[axle as int].confirmed_state,
                        request_in_flight: true,
                    },
                ),
                pending: self.issued(axle, now),
                ..self
            }
        }
    }

    /// The position of channel `i` after a response to the request `p`.
    pub open spec fn reconciled(
        self,
        p: PendingToggleRequest,
        result: bool,
        states: Seq<bool>,
        i: int,
    ) -> bool {
        if !result {
            self.channels[i].confirmed_state
        } else if i == p.axle {
            p.target
        } else if self.reconcile && states.len() == self.channels.len() {
            states[i]
        } else {
            self.channels[i].confirmed_state
        }
    }

    /// The state after a response with this result flag and this reported state vector.
    pub open spec fn respond(self, result: bool, states: Seq<bool>) -> ToggleState {
        match self.pending {
            None => self,
            Some(p) => ToggleState {
                channels: Seq::new(
                    self.channels.len(),
                    |i: int|
                        AxleChannel {
                            confirmed_state: self.reconciled(p, result, states, i),
                            request_in_flight: false,
                        },
                ),
                pending: None,
                ..self
            },
        }
    }

    /// Whether the wait of the request in flight has run out at time `now`.
    pub open spec fn expired(self, now: u64) -> bool {
        self.pending matches Some(p) && elapsed(p.created_at, now) >= self.wait_ms
    }

    /// The state after the transport said at time `now` that no response has come: the
    /// request is abandoned once its wait has run out.
    pub open spec fn expire(self, now: u64) -> ToggleState {
        if self.expired(now) {
            self.abandon()
        } else {
            self
        }
    }

    /// The state with the request in flight dropped and every position kept.
    pub open spec fn abandon(self) -> ToggleState {
        match self.pending {
            None => self,
            Some(p) => ToggleState {
                channels: self.channels.update(p.axle as int, cleared(self.channels[p.axle as int])),
                pending: None,
                ..self
            },
        }
    }

    /// What a response resolves to.
    pub open spec fn response_resolution(self, result: bool) -> Resolution {
        match self.pending {
            None => Resolution::NoRequest,
            Some(p) => if result {
                Resolution::Accepted(p)
            } else {
                Resolution::Rejected(p)
            },
        }
    }

    /// What the news that no response has come resolves to at time `now`.
    pub open spec fn expiry_resolution(self, now: u64) -> Resolution {
        match self.pending {
            None => Resolution::NoRequest,
            Some(p) => if elapsed(p.created_at, now) >= self.wait_ms {
                Resolution::GaveUp(p)
            } else {
                Resolution::StillWaiting((self.wait_ms - elapsed(p.created_at, now)) as u64)
            },
        }
    }
}

/// The coordinator of the toggle requests of all axle channels.
#[derive(Debug)]
pub struct ToggleRequestCoordinator {
    channels: Vec<AxleChannel>,
    pending: Option<PendingToggleRequest>,
    wait_ms: u64,
    policy: TargetPolicy,
    reconcile: bool,
}

impl View for ToggleRequestCoordinator {
    type V = ToggleState;

    closed spec fn view(&self) -> ToggleState {
        ToggleState {
            channels: self.channels@,
            pending: self.pending,
            wait_ms: self.wait_ms,
            policy: self.policy,
            reconcile: self.reconcile,
        }
    }
}

impl ToggleRequestCoordinator {
    /// The coordinator's state is well formed.
    pub open spec fn wf(&self) -> bool {
        self@.wf()
    }

    /// A coordinator for `axles` channels, all idle and in the position `false`.
    pub fn new(axles: usize, wait_ms: u64, policy: TargetPolicy, reconcile: bool) -> (c:
        ToggleRequestCoordinator)
        ensures
            c.wf(),
            c@.channels == Seq::new(
                axles as nat,
                |i: int| AxleChannel { confirmed_state: false, request_in_flight: false },
            ),
            c@.pending is None,
            c@.wait_ms == wait_ms,
            c@.policy == policy,
            c@.reconcile == reconcile,
    {
        let mut channels: Vec<AxleChannel> = Vec::new();
        let mut i: usize = 0;
        while i < axles
            invariant
                i <= axles,
                channels@.len() == i,
                forall|k: int|
                    0 <= k < i ==> channels@[k] == (AxleChannel {
                        confirmed_state: false,
                        request_in_flight: false,
                    }),
            decreases axles - i,
        {
            channels.push(AxleChannel { confirmed_state: false, request_in_flight: false });
            i = i + 1;
        }
        assert(channels@ =~= Seq::new(
            axles as nat,
            |i: int| AxleChannel { confirmed_state: false, request_in_flight: false },
        ));
        ToggleRequestCoordinator { channels, pending: None, wait_ms, policy, reconcile }
    }

    /// Number of axle channels.
    pub fn axle_count(&self) -> (n: usize)
        ensures
            n == self@.channels.len(),
    {
        self.channels.len()
    }

    /// The confirmed position of a channel.
    pub fn confirmed_state(&self, axle: usize) -> (b: bool)
        requires
            axle < self@.channels.len(),
        ensures
            b == self@.channels[axle as int].confirmed_state,
    {
        self.channels[axle].confirmed_state
    }

    /// Whether a request for the channel is in flight.
    pub fn request_in_flight(&self, axle: usize) -> (b: bool)
        requires
            axle < self@.channels.len(),
        ensures
            b == self@.channels[axle as int].request_in_flight,
    {
        self.channels[axle].request_in_flight
    }

    /// The request in flight, if any.
    pub fn pending_request(&self) -> (p: Option<PendingToggleRequest>)
        ensures
            p == self@.pending,
    {
        self.pending
    }

    /// How long the transport may still wait at time `now`: nothing without a request, and
    /// zero once the wait has run out.
    pub fn remaining_wait(&self, now: u64) -> (left: Option<u64>)
        ensures
            match self@.pending {
                None => left is None,
                Some(p) => left == Some(
                    if elapsed(p.created_at, now) >= self@.wait_ms {
                        0u64
                    } else {
                        (self@.wait_ms - elapsed(p.created_at, now)) as u64
                    },
                ),
            },
    {
        match self.pending {
            None => None,
            Some(p) => {
                let gone: u64 = if now >= p.created_at {
                    now - p.created_at
                } else {
                    0
                };
                if gone >= self.wait_ms {
                    Some(0)
                } else {
                    Some(self.wait_ms - gone)
                }
            },
        }
    }

    /// A rising edge for the button of `axle` at time `now`. While no request is in flight
    /// this issues one, which the caller sends; while one is in flight it does nothing.
    pub fn request_toggle(&mut self, axle: usize, now: u64) -> (r: Option<PendingToggleRequest>)
        requires
            old(self).wf(),
            axle < old(self)@.channels.len(),
        ensures
            r == old(self)@.issued(axle, now),
            final(self)@ == old(self)@.request(axle, now),
            final(self).wf(),
    {
        if self.pending.is_some() {
            return None;
        }
        let confirmed = self.channels[axle].confirmed_state;
        let target = match self.policy {
            TargetPolicy::Negate => !confirmed,
            TargetPolicy::Fixed(t) => t,
        };
        let request = PendingToggleRequest { axle, target, created_at: now };
        self.channels[axle] = AxleChannel { confirmed_state: confirmed, request_in_flight: true };
        self.pending = Some(request);
        assert(self@.channels =~= old(self)@.request(axle, now).channels);
        Some(request)
    }

    /// A response arrived within the wait. An accepted request sets its channel to the
    /// requested position; the request ends either way.
    pub fn on_response(&mut self, result: bool, states: &Vec<bool>) -> (r: Resolution)
        requires
            old(self).wf(),
        ensures
            r == old(self)@.response_resolution(result),
            final(self)@ == old(self)@.respond(result, states@),
            final(self).wf(),
    {
        let p = match self.pending {
            None => {
                return Resolution::NoRequest;
            },
            Some(p) => p,
        };
        let n = self.channels.len();
        let take_over = result && self.reconcile && states.len() == n;
        let mut i: usize = 0;
        while i < n
            invariant
                n == self.channels@.len(),
                n == old(self).channels@.len(),
                i <= n,
                p.axle < n,
                old(self)@.pending == Some(p),
                take_over == (result && old(self)@.reconcile && states@.len() == n),
                self.pending == old(self).pending,
                self.wait_ms == old(self).wait_ms,
                self.policy == old(self).policy,
                self.reconcile == old(self).reconcile,
                forall|k: int|
                    0 <= k < i ==> self.channels@[k] == (AxleChannel {
                        confirmed_state: old(self)@.reconciled(p, result, states@, k),
                        request_in_flight: false,
                    }),
                forall|k: int| i <= k < n ==> self.channels@[k] == old(self).channels@[k],
            decreases n - i,
        {
            let confirmed = if !result {
                self.channels[i].confirmed_state
            } else if i == p.axle {
                p.target
            } else if take_over {
                states[i]
            } else {
                self.channels[i].confirmed_state
            };
            self.channels[i] = AxleChannel { confirmed_state: confirmed, request_in_flight: false };
            i = i + 1;
        }
        self.pending = None;
        assert(self@.channels =~= old(self)@.respond(result, states@).channels);
        if result {
            Resolution::Accepted(p)
        } else {
            Resolution::Rejected(p)
        }
    }

    /// The transport said at time `now` that no response has come. Once the wait has run
    /// out the request is abandoned: nothing is sent again and no position changes.
    pub fn on_no_response(&mut self, now: u64) -> (r: Resolution)
        requires
            old(self).wf(),
        ensures
            r == old(self)@.expiry_resolution(now),
            final(self)@ == old(self)@.expire(now),
            final(self).wf(),
    {
        let p = match self.pending {
            None => {
                return Resolution::NoRequest;
            },
            Some(p) => p,
        };
        let gone: u64 = if now >= p.created_at {
            now - p.created_at
        } else {
            0
        };
        if gone >= self.wait_ms {
            self.release(p);
            Resolution::GaveUp(p)
        } else {
            Resolution::StillWaiting(self.wait_ms - gone)
        }
    }

    /// The transport failed. The request in flight, if any, is dropped, so that the handle
    /// is free again, and the answer is always `Fatal`.
    pub fn on_transport_error(&mut self) -> (r: Resolution)
        requires
            old(self).wf(),
        ensures
            r == Resolution::Fatal,
            final(self)@ == old(self)@.abandon(),
            final(self).wf(),
    {
        match self.pending {
            None => {},
            Some(p) => {
                self.release(p);
            },
        }
        Resolution::Fatal
    }

    /// Drops the request in flight.
    fn release(&mut self, p: PendingToggleRequest)
        requires
            old(self).wf(),
            old(self)@.pending == Some(p),
        ensures
            final(self)@ == old(self)@.abandon(),
            final(self).wf(),
    {
        let confirmed = self.channels[p.axle].confirmed_state;
        self.channels[p.axle] = AxleChannel { confirmed_state: confirmed, request_in_flight: false };
        self.pending = None;
        assert(self@.channels =~= old(self)@.abandon().channels);
    }
}

/// Every event keeps the state well formed.
pub proof fn lemma_events_keep_wf(
    s: ToggleState,
    axle: usize,
    now: u64,
    result: bool,
    states: Seq<bool>,
)
    requires
        s.wf(),
        axle < s.channels.len(),
    ensures
        s.request(axle, now).wf(),
        s.respond(result, states).wf(),
        s.expire(now).wf(),
        s.abandon().wf(),
{
}

/// At most one request is in flight at any time: two channels marked as awaiting a response
/// are the same channel, and it is the channel of the request in flight.
pub proof fn lemma_at_most_one_in_flight(s: ToggleState, i: int, j: int)
    requires
        s.wf(),
        0 <= i < s.channels.len(),
        0 <= j < s.channels.len(),
        s.channels[i].request_in_flight,
        s.channels[j].request_in_flight,
    ensures
        i == j,
        s.pending matches Some(p) && p.axle == i,
{
}

/// While a request awaits its response, a further rising edge issues nothing and changes
/// nothing, on the same channel or on another.
pub proof fn lemma_no_request_while_awaiting(s: ToggleState, axle: usize, now: u64)
    requires
        s.wf(),
        s.pending is Some,
    ensures
        s.issued(axle, now) is None,
        s.request(axle, now) == s,
{
}

/// Round trip. A request issued from the idle state and answered with an accepting response
/// leaves its channel in the requested position; answered with a refusing response it leaves
/// every channel in the position it had. Either way no request is in flight afterwards.
pub proof fn lemma_round_trip(s: ToggleState, axle: usize, now: u64, result: bool, states: Seq<bool>)
    requires
        s.wf(),
        s.pending is None,
        axle < s.channels.len(),
    ensures
        s.issued(axle, now) matches Some(p) && p.axle == axle && p.target == target_for(
            s.policy,
            s.channels[axle as int].confirmed_state,
        ) && s.request(axle, now).respond(result, states).channels[axle as int].confirmed_state == (
        if result {
            p.target
        } else {
            s.channels[axle as int].confirmed_state
        }),
        !result ==> s.request(axle, now).respond(result, states) == s,
        s.request(axle, now).respond(result, states).pending is None,
        forall|i: int|
            0 <= i < s.channels.len() ==> !(#[trigger] s.request(axle, now).respond(
                result,
                states,
            ).channels[i]).request_in_flight,
{
    let after = s.request(axle, now).respond(result, states);
    if !result {
        assert(after.channels =~= s.channels);
    }
}

/// Give-up. A request issued from the idle state whose wait runs out is dropped without a
/// trace: the state is the one before the request, so no position changed and a later rising
/// edge may issue a request again. Before the wait has run out nothing changes.
pub proof fn lemma_give_up_restores(s: ToggleState, axle: usize, issued_at: u64, now: u64)
    requires
        s.wf(),
        s.pending is None,
        axle < s.channels.len(),
    ensures
        elapsed(issued_at, now) >= s.wait_ms ==> s.request(axle, issued_at).expire(now) == s,
        elapsed(issued_at, now) < s.wait_ms ==> s.request(axle, issued_at).expire(now) == s.request(
            axle,
            issued_at,
        ),
{
    if elapsed(issued_at, now) >= s.wait_ms {
        assert(s.request(axle, issued_at).expire(now).channels =~= s.channels);
    }
}

} // verus!
