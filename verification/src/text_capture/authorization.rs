//! Time-window key-input authorization shared by the event tap and the
//! accessibility observer.
//!
//! The event tap reserves an authorization for each keystroke and later confirms
//! or rejects it. The accessibility side matches observed values against the
//! reservations of the last few seconds. A ledger owned by the consuming side
//! holds the queue between both and the state of every reservation.

use std::collections::VecDeque;

use vstd::prelude::*;

use crate::channel::{BoundedChannel, ChannelModel};
use crate::clock::Instant;
use crate::subject::Subject;

verus! {

/// How long a keystroke stays able to authorize an observed value, in nanoseconds.
pub const INPUT_WINDOW: u64 = 3_000_000_000;

/// Attempts the queue holds, and attempts the consumer keeps.
pub const AUTHORIZATION_QUEUE_CAPACITY: usize = 1_024;

/// Where one reservation stands.
#[derive(Clone, Copy, Debug, PartialEq, Eq, Structural)]
pub enum AuthorizationState {
    Pending,
    Confirmed,
    Rejected,
    Invalidated,
}

impl AuthorizationState {
    /// Whether a reservation in this state may still authorize a value.
    pub open spec fn opens_window(self) -> bool {
        self is Pending || self is Confirmed
    }

    /// The lower-case name of the state.
    pub open spec fn spec_name(self) -> Seq<char> {
        match self {
            AuthorizationState::Pending => "pending"@,
            AuthorizationState::Confirmed => "confirmed"@,
            AuthorizationState::Rejected => "rejected"@,
            AuthorizationState::Invalidated => "invalidated"@,
        }
    }

    fn can_open_window(self) -> (open: bool)
        ensures
            open == self.opens_window(),
    {
        match self {
            AuthorizationState::Pending => true,
            AuthorizationState::Confirmed => true,
            AuthorizationState::Rejected => false,
            AuthorizationState::Invalidated => false,
        }
    }

    /// The lower-case name of the state.
    pub fn name(self) -> (name: &'static str)
        ensures
            name@ == self.spec_name(),
    {
        match self {
            AuthorizationState::Pending => "pending",
            AuthorizationState::Confirmed => "confirmed",
            AuthorizationState::Rejected => "rejected",
            AuthorizationState::Invalidated => "invalidated",
        }
    }
}

/// A reservation made for one keystroke. The ledger holds its state.
#[derive(Clone, Copy, Debug, PartialEq, Eq, Structural)]
pub struct InputAuthorization {
    pub sequence: u64,
    pub slot: usize,
    pub pid: i32,
    pub target_generation: u64,
    pub input_at: Instant,
}

impl InputAuthorization {
    /// Whether the keystroke went to this target within the window before `at`.
    pub open spec fn precedes(self, pid: i32, target_generation: u64, at: Instant) -> bool {
        &&& self.pid == pid
        &&& self.target_generation == target_generation
        &&& self.input_at.nanos <= at.nanos
        &&& at.since(self.input_at) <= INPUT_WINDOW
    }

    /// Confirms a pending reservation; any other state stays as it is.
    pub fn confirm(&self, authorizations: &mut InputAuthorizations)
        ensures
            final(authorizations)@ == old(authorizations)@.settled(
                self.slot,
                AuthorizationState::Confirmed,
            ),
    {
        authorizations.settle(self.slot, AuthorizationState::Confirmed);
    }

    /// Rejects a pending reservation; any other state stays as it is.
    pub fn reject(&self, authorizations: &mut InputAuthorizations)
        ensures
            final(authorizations)@ == old(authorizations)@.settled(
                self.slot,
                AuthorizationState::Rejected,
            ),
    {
        authorizations.settle(self.slot, AuthorizationState::Rejected);
    }

    /// The state of this reservation; one the ledger never issued is invalidated.
    pub fn state(&self, authorizations: &InputAuthorizations) -> (state: AuthorizationState)
        ensures
            state == authorizations@.state_of(self.slot),
    {
        authorizations.state_at(self.slot)
    }

    /// Whether the reservation still waits for the worker.
    pub fn is_pending(&self, authorizations: &InputAuthorizations) -> (pending: bool)
        ensures
            pending == (authorizations@.state_of(self.slot) is Pending),
    {
        matches!(self.state(authorizations), AuthorizationState::Pending)
    }
}

/// What one keystroke left in the queue.
#[derive(Clone, Copy, Debug, PartialEq, Eq, Structural)]
pub enum AttemptKind {
    Reservation(InputAuthorization),
    RejectedInput { pid: Option<i32> },
}

impl AttemptKind {
    pub open spec fn spec_name(self) -> Seq<char> {
        match self {
            AttemptKind::Reservation(_) => "reservation"@,
            AttemptKind::RejectedInput { .. } => "rejected_input"@,
        }
    }

    /// The lower-case name of the kind.
    pub fn name(&self) -> (name: &'static str)
        ensures
            name@ == self.spec_name(),
    {
        match self {
            AttemptKind::Reservation(_) => "reservation",
            AttemptKind::RejectedInput { .. } => "rejected_input",
        }
    }
}

/// One keystroke as the queue carries it, numbered in the order it was made.
#[derive(Clone, Copy, Debug, PartialEq, Eq, Structural)]
pub struct AuthorizationAttempt {
    pub sequence: u64,
    pub at: Instant,
    pub kind: AttemptKind,
}

impl AuthorizationAttempt {
    /// The slot that the attempt reserves, if it does.
    pub open spec fn slot(self) -> Option<usize> {
        match self.kind {
            AttemptKind::Reservation(authorization) => Some(authorization.slot),
            AttemptKind::RejectedInput { .. } => None,
        }
    }

    pub open spec fn reserves(self, slot: int) -> bool {
        self.kind matches AttemptKind::Reservation(authorization) && authorization.slot == slot
    }

    /// Whether this is a reservation for the process and, where one is given,
    /// the target generation.
    pub open spec fn serves(self, pid: i32, target_generation: Option<u64>) -> bool {
        &&& self.kind matches AttemptKind::Reservation(authorization)
        &&& authorization.pid == pid
        &&& target_generation matches Some(generation) ==> authorization.target_generation
            == generation
    }
}

/// Whether some attempt reserves `slot`.
pub open spec fn reserves_slot(attempts: Seq<AuthorizationAttempt>, slot: int) -> bool {
    exists|i: int| 0 <= i < attempts.len() && (#[trigger] attempts[i]).reserves(slot)
}

/// The states once every reservation among `attempts` is invalidated.
#[verifier::opaque]
pub open spec fn invalidated_by(
    states: Seq<AuthorizationState>,
    attempts: Seq<AuthorizationAttempt>,
) -> Seq<AuthorizationState> {
    Seq::new(
        states.len(),
        |slot: int|
            if reserves_slot(attempts, slot) {
                AuthorizationState::Invalidated
            } else {
                states[slot]
            },
    )
}

/// The number that has to follow `sequence`.
pub open spec fn successor(sequence: u64) -> u64 {
    if sequence < u64::MAX {
        (sequence + 1) as u64
    } else {
        u64::MAX
    }
}

/// Whether the numbers of `attempts` leave a gap after `received`.
#[verifier::opaque]
pub open spec fn has_sequence_gap(received: u64, attempts: Seq<AuthorizationAttempt>) -> bool {
    exists|i: int|
        0 <= i < attempts.len() && (#[trigger] attempts[i]).sequence != successor(
            if i == 0 {
                received
            } else {
                attempts[i - 1].sequence
            },
        )
}

/// Whether every reservation among `attempts` has one of the first `count` slots,
/// and one of its own.
#[verifier::opaque]
pub open spec fn slots_issued(attempts: Seq<AuthorizationAttempt>, count: nat) -> bool {
    &&& forall|i: int|
        0 <= i < attempts.len() && (#[trigger] attempts[i]).slot() is Some
            ==> attempts[i].slot()->0 < count
    &&& forall|i: int, j: int|
        #![trigger attempts[i], attempts[j]]
        0 <= i < j < attempts.len() && attempts[i].slot() is Some ==> attempts[i].slot()
            != attempts[j].slot()
}

/// Everything the two sides share, as plain data.
#[verifier::ext_equal]
pub struct LedgerModel {
    pub inbox: ChannelModel<AuthorizationAttempt>,
    pub states: Seq<AuthorizationState>,
    pub issued: u64,
    pub integrity_lost: bool,
    pub received: u64,
    pub pending: Seq<AuthorizationAttempt>,
}

impl LedgerModel {
    /// Neither the queue nor the kept attempts exceed the capacity, and every
    /// reservation among them has a state of its own.
    pub open spec fn wf(self) -> bool {
        &&& self.inbox.wf()
        &&& self.inbox.capacity == AUTHORIZATION_QUEUE_CAPACITY
        &&& self.pending.len() <= AUTHORIZATION_QUEUE_CAPACITY
        &&& self.states.len() <= usize::MAX
        &&& slots_issued(self.arrivals(), self.states.len())
    }

    pub open spec fn state_of(self, slot: usize) -> AuthorizationState {
        if slot < self.states.len() {
            self.states[slot as int]
        } else {
            AuthorizationState::Invalidated
        }
    }

    /// A pending reservation takes `state`; everything else stays.
    pub open spec fn settled(self, slot: usize, state: AuthorizationState) -> LedgerModel {
        if self.state_of(slot) is Pending {
            LedgerModel { states: self.states.update(slot as int, state), ..self }
        } else {
            self
        }
    }

    /// The reservation that the next keystroke would get.
    pub open spec fn next_reservation(
        self,
        pid: i32,
        target_generation: u64,
        input_at: Instant,
    ) -> InputAuthorization {
        InputAuthorization {
            sequence: (self.issued + 1) as u64,
            slot: self.states.len() as usize,
            pid,
            target_generation,
            input_at,
        }
    }

    /// The ledger after offering an attempt to the queue: a refused attempt
    /// marks the queue as having lost an entry.
    pub open spec fn published(self, attempt: AuthorizationAttempt) -> LedgerModel {
        LedgerModel {
            inbox: self.inbox.offered(attempt),
            issued: attempt.sequence,
            integrity_lost: self.integrity_lost || !self.inbox.accepts(),
            ..self
        }
    }

    /// The ledger after a reservation attempt: its state starts pending, or
    /// invalidated when the queue refused it.
    pub open spec fn reserved(self, authorization: InputAuthorization) -> LedgerModel {
        let sent = self.published(
            AuthorizationAttempt {
                sequence: authorization.sequence,
                at: authorization.input_at,
                kind: AttemptKind::Reservation(authorization),
            },
        );
        LedgerModel {
            states: self.states.push(
                if self.inbox.accepts() {
                    AuthorizationState::Pending
                } else {
                    AuthorizationState::Invalidated
                },
            ),
            ..sent
        }
    }

    /// Everything kept or queued, oldest first.
    pub open spec fn arrivals(self) -> Seq<AuthorizationAttempt> {
        self.pending + self.inbox.items
    }

    /// Whether an attempt was lost on the way.
    pub open spec fn broken(self) -> bool {
        self.integrity_lost || has_sequence_gap(self.received, self.inbox.items)
    }

    /// How many of the oldest arrivals are given up on delivery: all of them
    /// when an attempt was lost, a full store when more arrive than fit.
    pub open spec fn given_up(self) -> int {
        if self.broken() {
            self.arrivals().len() as int
        } else if self.arrivals().len() > AUTHORIZATION_QUEUE_CAPACITY {
            AUTHORIZATION_QUEUE_CAPACITY as int
        } else {
            0
        }
    }

    /// The ledger after moving the queue into the kept attempts.
    pub open spec fn delivered(self) -> LedgerModel {
        LedgerModel {
            inbox: self.inbox.drained(),
            states: invalidated_by(self.states, self.arrivals().take(self.given_up())),
            integrity_lost: false,
            received: if self.inbox.items.len() == 0 {
                self.received
            } else {
                self.inbox.items.last().sequence
            },
            pending: self.arrivals().skip(self.given_up()),
            ..self
        }
    }

    /// Whether an attempt still can authorize a value observed at or after `now`.
    pub open spec fn stays_open(self, attempt: AuthorizationAttempt, now: Instant) -> bool {
        &&& now.since(attempt.at) <= INPUT_WINDOW
        &&& attempt.kind matches AttemptKind::Reservation(authorization) && self.state_of(
            authorization.slot,
        ).opens_window()
    }

    /// The ledger without the attempts that can no longer authorize anything.
    pub open spec fn pruned(self, now: Instant) -> LedgerModel {
        LedgerModel {
            pending: self.pending.filter(
                |attempt: AuthorizationAttempt| self.stays_open(attempt, now),
            ),
            ..self
        }
    }

    /// The reservations that authorize a value of this target observed at `at`.
    pub open spec fn candidates(
        self,
        pid: i32,
        target_generation: u64,
        at: Instant,
    ) -> Seq<InputAuthorization> {
        self.pending.filter(
            |attempt: AuthorizationAttempt| self.authorizes(attempt, pid, target_generation, at),
        ).map_values(|attempt: AuthorizationAttempt| attempt.kind->Reservation_0)
    }

    pub open spec fn authorizes(
        self,
        attempt: AuthorizationAttempt,
        pid: i32,
        target_generation: u64,
        at: Instant,
    ) -> bool {
        attempt.kind matches AttemptKind::Reservation(authorization) && authorization.precedes(
            pid,
            target_generation,
            at,
        ) && self.state_of(authorization.slot).opens_window()
    }

    /// The ledger once the reservations of a target are invalidated and dropped.
    pub open spec fn released(self, pid: i32, target_generation: Option<u64>) -> LedgerModel {
        LedgerModel {
            states: invalidated_by(
                self.states,
                self.pending.filter(
                    |attempt: AuthorizationAttempt| attempt.serves(pid, target_generation),
                ),
            ),
            pending: self.pending.filter(
                |attempt: AuthorizationAttempt| !attempt.serves(pid, target_generation),
            ),
            ..self
        }
    }

    /// The ledger without reservations for one target.
    pub open spec fn without_target(self, pid: i32, target_generation: u64) -> LedgerModel {
        self.delivered().released(pid, Some(target_generation))
    }

    /// The ledger without any trace of one process.
    pub open spec fn without_pid(self, pid: i32) -> LedgerModel {
        let released = self.delivered().released(pid, None);
        LedgerModel {
            pending: released.pending.filter(
                |attempt: AuthorizationAttempt|
                    attempt.kind != (AttemptKind::RejectedInput { pid: Some(pid) }),
            ),
            ..released
        }
    }
}

/// The producing side: numbers keystrokes and offers them to the queue.
#[derive(Clone, Copy, Debug)]
pub struct InputAuthorizationPublisher {}

/// The queue refused an attempt.
#[derive(Clone, Copy, Debug, PartialEq, Eq, Structural)]
pub struct AuthorizationQueueError {}

impl InputAuthorizationPublisher {
    /// Reserves an authorization for a keystroke into a known text target.
    pub fn prepare(
        &self,
        authorizations: &mut InputAuthorizations,
        pid: i32,
        target_generation: u64,
        input_at: Instant,
    ) -> (prepared: Result<InputAuthorization, AuthorizationQueueError>)
        requires
            old(authorizations)@.wf(),
            old(authorizations)@.issued < u64::MAX,
        ensures
            final(authorizations)@.wf(),
            ({
                let authorization = old(authorizations)@.next_reservation(
                    pid,
                    target_generation,
                    input_at,
                );
                &&& final(authorizations)@ == old(authorizations)@.reserved(authorization)
                &&& prepared == if old(authorizations)@.inbox.accepts() {
                    Ok(authorization)
                } else {
                    Err(AuthorizationQueueError {  })
                }
            }),
    {
        authorizations.issued = authorizations.issued + 1;
        let authorization = InputAuthorization {
            sequence: authorizations.issued,
            slot: authorizations.states.len(),
            pid,
            target_generation,
            input_at,
        };
        let attempt = AuthorizationAttempt {
            sequence: authorization.sequence,
            at: input_at,
            kind: AttemptKind::Reservation(authorization),
        };
        let sent = authorizations.inbox.try_send(attempt);
        let ghost before = old(authorizations)@;
        proof {
            lemma_slots_push(before.arrivals(), before.states.len(), attempt);
            assert(before.pending + before.inbox.items.push(attempt) =~= before.arrivals().push(
                attempt,
            ));
        }
        if sent.is_err() {
            authorizations.integrity_lost = true;
            authorizations.states.push(AuthorizationState::Invalidated);
            assert(authorizations.states.len() == authorizations.states@.len());
            return Err(AuthorizationQueueError {  });
        }
        authorizations.states.push(AuthorizationState::Pending);
        assert(authorizations.states.len() == authorizations.states@.len());
        Ok(authorization)
    }

    /// Records a keystroke that must not authorize anything.
    pub fn reject_attempt(
        &self,
        authorizations: &mut InputAuthorizations,
        pid: Option<i32>,
        input_at: Instant,
    ) -> (recorded: Result<(), AuthorizationQueueError>)
        requires
            old(authorizations)@.wf(),
            old(authorizations)@.issued < u64::MAX,
        ensures
            final(authorizations)@.wf(),
            final(authorizations)@ == old(authorizations)@.published(
                AuthorizationAttempt {
                    sequence: (old(authorizations)@.issued + 1) as u64,
                    at: input_at,
                    kind: AttemptKind::RejectedInput { pid },
                },
            ),
            recorded == if old(authorizations)@.inbox.accepts() {
                Ok(())
            } else {
                Err(AuthorizationQueueError {  })
            },
    {
        authorizations.issued = authorizations.issued + 1;
        let attempt = AuthorizationAttempt {
            sequence: authorizations.issued,
            at: input_at,
            kind: AttemptKind::RejectedInput { pid },
        };
        let sent = authorizations.inbox.try_send(attempt);
        proof {
            let before = old(authorizations)@;
            lemma_slots_push(before.arrivals(), before.states.len(), attempt);
            assert(before.pending + before.inbox.items.push(attempt) =~= before.arrivals().push(
                attempt,
            ));
        }
        if sent.is_err() {
            authorizations.integrity_lost = true;
            return Err(AuthorizationQueueError {  });
        }
        Ok(())
    }
}

/// The consuming side, owner of the ledger.
///
/// The state of a reservation outlives its place in the queue, because a value
/// waiting for its debounce still refers to it.
#[derive(Debug)]
pub struct InputAuthorizations {
    inbox: BoundedChannel<AuthorizationAttempt>,
    states: Vec<AuthorizationState>,
    issued: u64,
    integrity_lost: bool,
    received: u64,
    pending: VecDeque<AuthorizationAttempt>,
}

impl View for InputAuthorizations {
    type V = LedgerModel;

    closed spec fn view(&self) -> LedgerModel {
        LedgerModel {
            inbox: self.inbox@,
            states: self.states@,
            issued: self.issued,
            integrity_lost: self.integrity_lost,
            received: self.received,
            pending: self.pending@,
        }
    }
}

/// An empty ledger with its publisher.
#[must_use]
pub fn input_authorization_channel() -> (channel: (
    InputAuthorizationPublisher,
    InputAuthorizations,
))
    ensures
        channel.1@.wf(),
        channel.1@ == (LedgerModel {
            inbox: ChannelModel {
                capacity: AUTHORIZATION_QUEUE_CAPACITY as nat,
                items: Seq::empty(),
                connected: true,
            },
            states: Seq::empty(),
            issued: 0,
            integrity_lost: false,
            received: 0,
            pending: Seq::empty(),
        }),
{
    let authorizations = InputAuthorizations {
        inbox: BoundedChannel::new(AUTHORIZATION_QUEUE_CAPACITY),
        states: Vec::new(),
        issued: 0,
        integrity_lost: false,
        received: 0,
        pending: VecDeque::new(),
    };
    assert(slots_issued(authorizations@.arrivals(), 0)) by {
        reveal(slots_issued);
    }
    (InputAuthorizationPublisher {  }, authorizations)
}

impl InputAuthorizations {
    /// Whether another keystroke can still be numbered.
    pub fn can_issue(&self) -> (possible: bool)
        ensures
            possible == (self@.issued < u64::MAX),
    {
        self.issued < u64::MAX
    }

    /// Gives up the consuming side: every later attempt is refused.
    pub fn disconnect(&mut self)
        requires
            old(self)@.wf(),
        ensures
            final(self)@.wf(),
            final(self)@ == (LedgerModel {
                inbox: ChannelModel { connected: false, ..old(self)@.inbox },
                ..old(self)@
            }),
    {
        self.inbox.disconnect();
    }

    fn settle(&mut self, slot: usize, state: AuthorizationState)
        ensures
            final(self)@ == old(self)@.settled(slot, state),
    {
        if matches!(self.state_at(slot), AuthorizationState::Pending) {
            self.states.set(slot, state);
        }
    }

    fn state_at(&self, slot: usize) -> (state: AuthorizationState)
        ensures
            state == self@.state_of(slot),
    {
        if slot < self.states.len() {
            self.states[slot]
        } else {
            AuthorizationState::Invalidated
        }
    }

    /// Moves the queued attempts into the kept ones. A lost attempt invalidates
    /// everything that was kept or queued.
    pub fn receive_pending(&mut self)
        requires
            old(self)@.wf(),
        ensures
            final(self)@.wf(),
            final(self)@ == old(self)@.delivered(),
    {
        let mut queued = self.inbox.drain();
        let mut sequence_gap = false;
        let ghost before = old(self)@;
        let ghost queue = before.inbox.items;
        let ghost arrivals = before.arrivals();
        let ghost mut taken: int = 0;
        let ghost mut dropped: int = 0;
        proof {
            lemma_invalidate_none(before.states, arrivals.take(0));
            reveal(has_sequence_gap);
        }
        assert(self.pending@ =~= arrivals.subrange(0, before.pending.len() as int));
        assert(queued@ =~= queue.skip(0));
        while queued.len() > 0
            invariant
                before.wf(),
                queue == before.inbox.items,
                arrivals == before.pending + queue,
                0 <= taken <= queue.len(),
                queued@ == queue.skip(taken),
                dropped == if before.pending.len() + taken > AUTHORIZATION_QUEUE_CAPACITY {
                    AUTHORIZATION_QUEUE_CAPACITY as int
                } else {
                    0
                },
                self@.pending == arrivals.subrange(dropped, before.pending.len() + taken),
                self@.states == invalidated_by(before.states, arrivals.take(dropped)),
                self@.received == if taken == 0 {
                    before.received
                } else {
                    queue[taken - 1].sequence
                },
                sequence_gap == has_sequence_gap(before.received, queue.take(taken)),
                self@.inbox == before.inbox.drained(),
                self@.issued == before.issued,
                self@.integrity_lost == before.integrity_lost,
            decreases queued.len(),
        {
            let ghost seen = queue.take(taken);
            let front = queued.pop_front();
            match front {
                None => {},
                Some(attempt) => {
                    assert(attempt == queue[taken]);
                    let expected: u64 = if self.received < u64::MAX {
                        self.received + 1
                    } else {
                        u64::MAX
                    };
                    proof {
                        assert(queue.take(taken + 1) =~= seen.push(attempt));
                        lemma_gap_step(before.received, seen, attempt);
                    }
                    if attempt.sequence != expected {
                        sequence_gap = true;
                    }
                    self.received = attempt.sequence;
                    if self.pending.len() == AUTHORIZATION_QUEUE_CAPACITY {
                        let ghost full = self@.pending;
                        self.invalidate_all();
                        proof {
                            assert(dropped == 0);
                            assert(full =~= arrivals.take(AUTHORIZATION_QUEUE_CAPACITY as int));
                            lemma_invalidate_none(before.states, arrivals.take(0));
                            dropped = AUTHORIZATION_QUEUE_CAPACITY as int;
                        }
                    }
                    self.pending.push_back(attempt);
                    proof {
                        taken = taken + 1;
                        assert(queued@ =~= queue.skip(taken));
                        assert(self@.pending =~= arrivals.subrange(
                            dropped,
                            before.pending.len() + taken,
                        ));
                    }
                },
            }
        }
        assert(queue.take(taken) =~= queue);
        let integrity_lost = self.integrity_lost;
        self.integrity_lost = false;
        if sequence_gap || integrity_lost {
            let ghost remaining = self@.pending;
            let ghost states = self@.states;
            self.invalidate_all();
            proof {
                lemma_invalidate_twice(before.states, arrivals.take(dropped), remaining);
                assert(arrivals.take(dropped) + remaining =~= arrivals);
                assert(arrivals.take(arrivals.len() as int) =~= arrivals);
                assert(self@.pending =~= arrivals.skip(arrivals.len() as int));
            }
        } else {
            assert(self@.pending =~= arrivals.skip(dropped));
        }
        proof {
            lemma_invalidate_len(before.states, arrivals.take(before.given_up()));
            lemma_slots_skip(arrivals, before.states.len(), before.given_up());
            assert(self@.arrivals() =~= arrivals.skip(before.given_up()));
        }
    }

    /// Finds the reservations that authorize a value of this target observed at
    /// `notification_at`, and forgets the attempts whose time is over.
    pub fn matching(
        &mut self,
        pid: i32,
        target_generation: u64,
        notification_at: Instant,
    ) -> (matched: Option<InputWindowMatch>)
        requires
            old(self)@.wf(),
        ensures
            final(self)@.wf(),
            final(self)@ == old(self)@.delivered().pruned(notification_at),
            ({
                let candidates = old(self)@.delivered().candidates(
                    pid,
                    target_generation,
                    notification_at,
                );
                &&& matched is Some <==> candidates.len() > 0
                &&& matched matches Some(window) ==> window@ == candidates
            }),
    {
        self.receive_pending();
        let mut candidates: Vec<InputAuthorization> = Vec::new();
        let mut index: usize = 0;
        let ghost ledger = self@;
        let ghost accept = |attempt: AuthorizationAttempt|
            ledger.authorizes(attempt, pid, target_generation, notification_at);
        let ghost reservation = |attempt: AuthorizationAttempt| attempt.kind->Reservation_0;
        assert(ledger.pending.take(0).filter(accept).map_values(reservation) =~= Seq::empty()) by {
            reveal(Seq::filter);
        }
        while index < self.pending.len()
            invariant
                ledger == self@,
                ledger == old(self)@.delivered(),
                accept == (|attempt: AuthorizationAttempt|
                    ledger.authorizes(attempt, pid, target_generation, notification_at)),
                reservation == (|attempt: AuthorizationAttempt| attempt.kind->Reservation_0),
                0 <= index <= self.pending.len(),
                candidates@ == ledger.pending.take(index as int).filter(accept).map_values(
                    reservation,
                ),
            decreases self.pending.len() - index,
        {
            let attempt = self.pending[index];
            let opens = match attempt.kind {
                AttemptKind::Reservation(authorization) => authorization.pid == pid
                    && authorization.target_generation == target_generation
                    && authorization.input_at.nanos <= notification_at.nanos
                    && notification_at.saturating_nanos_since(authorization.input_at)
                    <= INPUT_WINDOW && self.state_at(authorization.slot).can_open_window(),
                AttemptKind::RejectedInput { .. } => false,
            };
            proof {
                lemma_filter_step(ledger.pending, index as int, accept);
                assert(opens == accept(attempt));
            }
            if opens {
                match attempt.kind {
                    AttemptKind::Reservation(authorization) => {
                        candidates.push(authorization);
                    },
                    AttemptKind::RejectedInput { .. } => {},
                }
            }
            index = index + 1;
            assert(candidates@ =~= ledger.pending.take(index as int).filter(accept).map_values(
                reservation,
            ));
        }
        assert(ledger.pending.take(index as int) =~= ledger.pending);
        self.prune(notification_at);
        if candidates.len() == 0 {
            None
        } else {
            Some(InputWindowMatch { authorizations: candidates })
        }
    }

    /// Invalidates and drops the reservations of one target.
    pub fn invalidate(&mut self, pid: i32, target_generation: u64)
        requires
            old(self)@.wf(),
        ensures
            final(self)@.wf(),
            final(self)@ == old(self)@.without_target(pid, target_generation),
    {
        self.receive_pending();
        self.release_reservations(pid, Some(target_generation));
    }

    /// Invalidates the reservations of one process and drops all of its attempts.
    pub fn remove_pid(&mut self, pid: i32)
        requires
            old(self)@.wf(),
        ensures
            final(self)@.wf(),
            final(self)@ == old(self)@.without_pid(pid),
    {
        self.receive_pending();
        self.release_reservations(pid, None);
        let ghost ledger = self@;
        let ghost keep = |attempt: AuthorizationAttempt|
            attempt.kind != (AttemptKind::RejectedInput { pid: Some(pid) });
        let mut retained: VecDeque<AuthorizationAttempt> = VecDeque::new();
        let mut index: usize = 0;
        assert(ledger.pending.take(0).filter(keep) =~= Seq::empty()) by {
            reveal(Seq::filter);
        }
        while index < self.pending.len()
            invariant
                ledger == self@,
                keep == (|attempt: AuthorizationAttempt|
                    attempt.kind != (AttemptKind::RejectedInput { pid: Some(pid) })),
                0 <= index <= self.pending.len(),
                retained@ == ledger.pending.take(index as int).filter(keep),
            decreases self.pending.len() - index,
        {
            let attempt = self.pending[index];
            let drop = match attempt.kind {
                AttemptKind::RejectedInput { pid: Some(value) } => value == pid,
                _ => false,
            };
            proof {
                lemma_filter_step(ledger.pending, index as int, keep);
            }
            if !drop {
                retained.push_back(attempt);
            }
            index = index + 1;
        }
        assert(ledger.pending.take(index as int) =~= ledger.pending);
        proof {
            lemma_filter_len(ledger.pending, keep);
            lemma_slots_filter(ledger.pending, keep, ledger.inbox.items, ledger.states.len());
        }
        self.pending = retained;
    }

    fn prune(&mut self, now: Instant)
        requires
            old(self)@.wf(),
        ensures
            final(self)@.wf(),
            final(self)@ == old(self)@.pruned(now),
    {
        let ghost ledger = self@;
        let ghost open = |attempt: AuthorizationAttempt| ledger.stays_open(attempt, now);
        let mut retained: VecDeque<AuthorizationAttempt> = VecDeque::new();
        let mut index: usize = 0;
        assert(ledger.pending.take(0).filter(open) =~= Seq::empty()) by {
            reveal(Seq::filter);
        }
        while index < self.pending.len()
            invariant
                ledger == self@,
                open == (|attempt: AuthorizationAttempt| ledger.stays_open(attempt, now)),
                0 <= index <= self.pending.len(),
                retained@ == ledger.pending.take(index as int).filter(open),
            decreases self.pending.len() - index,
        {
            let attempt = self.pending[index];
            let expired = now.saturating_nanos_since(attempt.at) > INPUT_WINDOW;
            let opens_window = match attempt.kind {
                AttemptKind::Reservation(authorization) => self.state_at(
                    authorization.slot,
                ).can_open_window(),
                AttemptKind::RejectedInput { .. } => false,
            };
            proof {
                lemma_filter_step(ledger.pending, index as int, open);
                assert(open(attempt) == (!expired && opens_window));
            }
            if !expired && opens_window {
                retained.push_back(attempt);
            }
            index = index + 1;
        }
        assert(ledger.pending.take(index as int) =~= ledger.pending);
        proof {
            lemma_filter_len(ledger.pending, open);
            lemma_slots_filter(ledger.pending, open, ledger.inbox.items, ledger.states.len());
        }
        self.pending = retained;
    }

    fn release_reservations(&mut self, pid: i32, target_generation: Option<u64>)
        requires
            old(self)@.wf(),
        ensures
            final(self)@.wf(),
            final(self)@ == old(self)@.released(pid, target_generation),
    {
        let ghost ledger = self@;
        let ghost kept_by = |attempt: AuthorizationAttempt| !attempt.serves(pid, target_generation);
        let ghost lost_by = |attempt: AuthorizationAttempt| attempt.serves(pid, target_generation);
        let mut retained: VecDeque<AuthorizationAttempt> = VecDeque::new();
        let mut index: usize = 0;
        assert(ledger.pending.take(0).filter(kept_by) =~= Seq::empty()) by {
            reveal(Seq::filter);
        }
        assert(ledger.pending.take(0).filter(lost_by) =~= Seq::empty()) by {
            reveal(Seq::filter);
        }
        proof {
            lemma_invalidate_none(ledger.states, ledger.pending.take(0).filter(lost_by));
        }
        while index < self.pending.len()
            invariant
                self@ == (LedgerModel { states: self@.states, ..ledger }),
                kept_by == (|attempt: AuthorizationAttempt|
                    !attempt.serves(pid, target_generation)),
                lost_by == (|attempt: AuthorizationAttempt|
                    attempt.serves(pid, target_generation)),
                0 <= index <= self.pending.len(),
                retained@ == ledger.pending.take(index as int).filter(kept_by),
                self@.states == invalidated_by(
                    ledger.states,
                    ledger.pending.take(index as int).filter(lost_by),
                ),
            decreases self.pending.len() - index,
        {
            let attempt = self.pending[index];
            proof {
                lemma_filter_step(ledger.pending, index as int, kept_by);
                lemma_filter_step(ledger.pending, index as int, lost_by);
            }
            match attempt.kind {
                AttemptKind::Reservation(authorization) => {
                    let same_target = match target_generation {
                        Some(generation) => authorization.target_generation == generation,
                        None => true,
                    };
                    if authorization.pid == pid && same_target {
                        self.invalidate_slot(authorization.slot);
                        proof {
                            let lost = ledger.pending.take(index as int).filter(lost_by);
                            lemma_invalidate_twice(ledger.states, lost, seq![attempt]);
                            assert(lost + seq![attempt] =~= lost.push(attempt));
                            lemma_invalidate_one(
                                invalidated_by(ledger.states, lost),
                                attempt,
                                authorization.slot,
                            );
                        }
                    } else {
                        retained.push_back(attempt);
                    }
                },
                AttemptKind::RejectedInput { .. } => {
                    retained.push_back(attempt);
                },
            }
            index = index + 1;
        }
        assert(ledger.pending.take(index as int) =~= ledger.pending);
        proof {
            lemma_filter_len(ledger.pending, kept_by);
            lemma_slots_filter(ledger.pending, kept_by, ledger.inbox.items, ledger.states.len());
            lemma_invalidate_len(ledger.states, ledger.pending.filter(lost_by));
        }
        self.pending = retained;
    }

    fn invalidate_slot(&mut self, slot: usize)
        ensures
            final(self)@ == (LedgerModel {
                states: if slot < old(self)@.states.len() {
                    old(self)@.states.update(slot as int, AuthorizationState::Invalidated)
                } else {
                    old(self)@.states
                },
                ..old(self)@
            }),
    {
        if slot < self.states.len() {
            self.states.set(slot, AuthorizationState::Invalidated);
        }
    }

    fn invalidate_all(&mut self)
        ensures
            final(self)@ == (LedgerModel {
                states: invalidated_by(old(self)@.states, old(self)@.pending),
                pending: Seq::empty(),
                ..old(self)@
            }),
    {
        let ghost ledger = self@;
        let mut index: usize = 0;
        proof {
            lemma_invalidate_none(ledger.states, ledger.pending.take(0));
        }
        while index < self.pending.len()
            invariant
                self@ == (LedgerModel { states: self@.states, ..ledger }),
                0 <= index <= self.pending.len(),
                self@.states == invalidated_by(ledger.states, ledger.pending.take(index as int)),
            decreases self.pending.len() - index,
        {
            let attempt = self.pending[index];
            proof {
                let seen = ledger.pending.take(index as int);
                lemma_invalidate_twice(ledger.states, seen, seq![attempt]);
                assert(seen + seq![attempt] =~= ledger.pending.take(index + 1));
            }
            match attempt.kind {
                AttemptKind::Reservation(authorization) => {
                    proof {
                        lemma_invalidate_one(self@.states, attempt, authorization.slot);
                    }
                    self.invalidate_slot(authorization.slot);
                },
                AttemptKind::RejectedInput { .. } => {
                    proof {
                        lemma_invalidate_none(self@.states, seq![attempt]);
                    }
                },
            }
            index = index + 1;
        }
        assert(ledger.pending.take(index as int) =~= ledger.pending);
        self.pending.clear();
    }
}

/// The reservations that may authorize one observed value.
#[derive(Debug)]
pub struct InputWindowMatch {
    authorizations: Vec<InputAuthorization>,
}

impl View for InputWindowMatch {
    type V = Seq<InputAuthorization>;

    closed spec fn view(&self) -> Seq<InputAuthorization> {
        self.authorizations@
    }
}

/// Whether one of the reservations stands in `state`.
pub open spec fn any_in_state(
    ledger: LedgerModel,
    candidates: Seq<InputAuthorization>,
    state: AuthorizationState,
) -> bool {
    exists|i: int|
        0 <= i < candidates.len() && ledger.state_of((#[trigger] candidates[i]).slot) == state
}

/// Whether the worker still may decide about these reservations.
pub open spec fn awaits_worker(ledger: LedgerModel, candidates: Seq<InputAuthorization>) -> bool {
    !any_in_state(ledger, candidates, AuthorizationState::Confirmed) && any_in_state(
        ledger,
        candidates,
        AuthorizationState::Pending,
    )
}

impl InputWindowMatch {
    /// Whether none is confirmed yet while one still waits for the worker.
    pub fn is_pending(&self, authorizations: &InputAuthorizations) -> (pending: bool)
        ensures
            pending == awaits_worker(authorizations@, self@),
    {
        !self.any(authorizations, AuthorizationState::Confirmed) && self.any(
            authorizations,
            AuthorizationState::Pending,
        )
    }

    /// Whether a confirmed keystroke authorizes the value.
    pub fn resolve_for_flush(&self, authorizations: &InputAuthorizations) -> (confirmed: bool)
        ensures
            confirmed == any_in_state(authorizations@, self@, AuthorizationState::Confirmed),
    {
        self.any(authorizations, AuthorizationState::Confirmed)
    }

    fn any(&self, authorizations: &InputAuthorizations, state: AuthorizationState) -> (found: bool)
        ensures
            found == any_in_state(authorizations@, self@, state),
    {
        let mut index: usize = 0;
        while index < self.authorizations.len()
            invariant
                0 <= index <= self.authorizations.len(),
                forall|i: int|
                    0 <= i < index ==> authorizations@.state_of(
                        (#[trigger] self.authorizations@[i]).slot,
                    ) != state,
            decreases self.authorizations.len() - index,
        {
            if self.authorizations[index].state(authorizations) == state {
                assert(authorizations@.state_of(self@[index as int].slot) == state);
                return true;
            }
            index = index + 1;
        }
        false
    }
}

proof fn lemma_filter_step<A>(items: Seq<A>, index: int, keep: spec_fn(A) -> bool)
    requires
        0 <= index < items.len(),
    ensures
        items.take(index + 1).filter(keep) == if keep(items[index]) {
            items.take(index).filter(keep).push(items[index])
        } else {
            items.take(index).filter(keep)
        },
{
    reveal(Seq::filter);
    assert(items.take(index + 1).drop_last() =~= items.take(index));
    assert(items.take(index + 1).last() == items[index]);
}

proof fn lemma_filter_from<A>(items: Seq<A>, keep: spec_fn(A) -> bool, index: int)
    requires
        0 <= index < items.filter(keep).len(),
    ensures
        items.contains(items.filter(keep)[index]),
        keep(items.filter(keep)[index]),
    decreases items.len(),
{
    reveal(Seq::filter);
    if items.len() > 0 {
        let init = items.drop_last();
        if index < init.filter(keep).len() {
            lemma_filter_from(init, keep, index);
            let source = init.index_of(items.filter(keep)[index]);
            assert(items[source] == init[source]);
        } else {
            assert(items[items.len() - 1] == items.last());
        }
    }
}

proof fn lemma_filter_len<A>(items: Seq<A>, keep: spec_fn(A) -> bool)
    ensures
        items.filter(keep).len() <= items.len(),
{
    broadcast use vstd::seq_lib::group_filter_ensures;

}

proof fn lemma_gap_step(
    received: u64,
    seen: Seq<AuthorizationAttempt>,
    attempt: AuthorizationAttempt,
)
    ensures
        has_sequence_gap(received, seen.push(attempt)) == (has_sequence_gap(received, seen)
            || attempt.sequence != successor(
            if seen.len() == 0 {
                received
            } else {
                seen.last().sequence
            },
        )),
{
    reveal(has_sequence_gap);
    let next = seen.push(attempt);
    let last = seen.len() as int;
    assert(next[last] == attempt);
    assert forall|i: int| 0 <= i < last implies next[i] == seen[i] by {}
    if has_sequence_gap(received, seen) {
        let i = choose|i: int|
            0 <= i < seen.len() && (#[trigger] seen[i]).sequence != successor(
                if i == 0 {
                    received
                } else {
                    seen[i - 1].sequence
                },
            );
        assert(next[i] == seen[i]);
    }
    if has_sequence_gap(received, next) {
        let i = choose|i: int|
            0 <= i < next.len() && (#[trigger] next[i]).sequence != successor(
                if i == 0 {
                    received
                } else {
                    next[i - 1].sequence
                },
            );
        if i < last {
            assert(next[i] == seen[i]);
        }
    }
}

proof fn lemma_slots_push(
    attempts: Seq<AuthorizationAttempt>,
    count: nat,
    attempt: AuthorizationAttempt,
)
    requires
        slots_issued(attempts, count),
        attempt.slot() matches Some(slot) ==> slot == count,
    ensures
        slots_issued(attempts, count + 1),
        slots_issued(attempts.push(attempt), count + 1),
        attempt.slot() is None ==> slots_issued(attempts.push(attempt), count),
{
    reveal(slots_issued);
    let next = attempts.push(attempt);
    assert forall|i: int| 0 <= i < attempts.len() implies #[trigger] next[i] == attempts[i] by {}
}

proof fn lemma_slots_skip(attempts: Seq<AuthorizationAttempt>, count: nat, lost: int)
    requires
        slots_issued(attempts, count),
        0 <= lost <= attempts.len(),
    ensures
        slots_issued(attempts.skip(lost), count),
{
    reveal(slots_issued);
    let rest = attempts.skip(lost);
    assert forall|i: int| 0 <= i < rest.len() implies #[trigger] rest[i] == attempts[i + lost] by {}
}

proof fn lemma_slots_filter(
    first: Seq<AuthorizationAttempt>,
    keep: spec_fn(AuthorizationAttempt) -> bool,
    second: Seq<AuthorizationAttempt>,
    count: nat,
)
    requires
        slots_issued(first + second, count),
    ensures
        slots_issued(first.filter(keep) + second, count),
    decreases first.len(),
{
    reveal(Seq::filter);
    if first.len() == 0 {
        assert(first.filter(keep) =~= first);
    } else {
        let init = first.drop_last();
        let last = first.last();
        assert(init + (seq![last] + second) =~= first + second);
        if keep(last) {
            lemma_slots_filter(init, keep, seq![last] + second, count);
            assert(init.filter(keep) + (seq![last] + second) =~= first.filter(keep) + second);
        } else {
            assert(slots_issued(init + second, count)) by {
                reveal(slots_issued);
                let all = first + second;
                let rest = init + second;
                assert forall|i: int| 0 <= i < rest.len() implies #[trigger] rest[i] == all[if i
                    < init.len() {
                    i
                } else {
                    i + 1
                }] by {}
            }
            lemma_slots_filter(init, keep, second, count);
        }
    }
}

proof fn lemma_invalidate_len(
    states: Seq<AuthorizationState>,
    attempts: Seq<AuthorizationAttempt>,
)
    ensures
        invalidated_by(states, attempts).len() == states.len(),
{
    reveal(invalidated_by);
}

/// Only the reservation of a slot touches its state: a reservation that is still
/// kept keeps its state when the queue is taken in, when another target is
/// invalidated and when another process is removed.
pub proof fn law_other_reservations_keep_their_state(
    ledger: LedgerModel,
    pid: i32,
    target_generation: u64,
    index: int,
)
    requires
        ledger.wf(),
        0 <= index < ledger.delivered().pending.len(),
        ledger.delivered().pending[index].kind is Reservation,
    ensures
        ({
            let kept = ledger.delivered().pending[index];
            let slot = (kept.kind->Reservation_0).slot;
            &&& ledger.delivered().state_of(slot) == ledger.state_of(slot)
            &&& !kept.serves(pid, Some(target_generation)) ==> ledger.without_target(
                pid,
                target_generation,
            ).state_of(slot) == ledger.state_of(slot)
            &&& !kept.serves(pid, None) ==> ledger.without_pid(pid).state_of(slot)
                == ledger.state_of(slot)
        }),
{
    reveal(slots_issued);
    reveal(invalidated_by);
    let arrivals = ledger.arrivals();
    let lost = ledger.given_up();
    let pending = ledger.delivered().pending;
    let kept = pending[index];
    let slot = (kept.kind->Reservation_0).slot;
    assert(kept == arrivals[index + lost]);
    let given_up = arrivals.take(lost);
    assert(!reserves_slot(given_up, slot as int)) by {
        if reserves_slot(given_up, slot as int) {
            let i = choose|i: int|
                0 <= i < given_up.len() && (#[trigger] given_up[i]).reserves(slot as int);
            assert(arrivals[i] == given_up[i]);
            assert(arrivals[i].slot() != arrivals[index + lost].slot());
        }
    }
    lemma_slots_skip(arrivals, ledger.states.len(), lost);
    if !kept.serves(pid, Some(target_generation)) {
        lemma_keeps_slot(pending, ledger.states.len(), index, pid, Some(target_generation));
    }
    if !kept.serves(pid, None) {
        lemma_keeps_slot(pending, ledger.states.len(), index, pid, None);
    }
}

proof fn lemma_keeps_slot(
    pending: Seq<AuthorizationAttempt>,
    count: nat,
    index: int,
    pid: i32,
    target_generation: Option<u64>,
)
    requires
        slots_issued(pending, count),
        0 <= index < pending.len(),
        pending[index].kind is Reservation,
        !pending[index].serves(pid, target_generation),
    ensures
        !reserves_slot(
            pending.filter(
                |attempt: AuthorizationAttempt| attempt.serves(pid, target_generation),
            ),
            (pending[index].kind->Reservation_0).slot as int,
        ),
{
    reveal(slots_issued);
    let served = |attempt: AuthorizationAttempt| attempt.serves(pid, target_generation);
    let slot = (pending[index].kind->Reservation_0).slot;
    let dropped = pending.filter(served);
    if reserves_slot(dropped, slot as int) {
        let i = choose|i: int| 0 <= i < dropped.len() && (#[trigger] dropped[i]).reserves(
            slot as int,
        );
        lemma_filter_from(pending, served, i);
        let source = pending.index_of(dropped[i]);
        assert(pending[source].slot() == pending[index].slot());
        assert(source == index);
    }
}

proof fn lemma_invalidate_none(
    states: Seq<AuthorizationState>,
    attempts: Seq<AuthorizationAttempt>,
)
    requires
        forall|i: int| 0 <= i < attempts.len() ==> (#[trigger] attempts[i]).kind is RejectedInput,
    ensures
        invalidated_by(states, attempts) == states,
{
    reveal(invalidated_by);
    assert(invalidated_by(states, attempts) =~= states);
}

proof fn lemma_invalidate_one(
    states: Seq<AuthorizationState>,
    attempt: AuthorizationAttempt,
    slot: usize,
)
    requires
        attempt.reserves(slot as int),
    ensures
        invalidated_by(states, seq![attempt]) == if slot < states.len() {
            states.update(slot as int, AuthorizationState::Invalidated)
        } else {
            states
        },
{
    reveal(invalidated_by);
    let one = seq![attempt];
    assert forall|other: int| reserves_slot(one, other) <==> other == slot by {
        assert(one[0].reserves(slot as int));
    }
    assert(invalidated_by(states, one) =~= if slot < states.len() {
        states.update(slot as int, AuthorizationState::Invalidated)
    } else {
        states
    });
}

proof fn lemma_invalidate_twice(
    states: Seq<AuthorizationState>,
    first: Seq<AuthorizationAttempt>,
    second: Seq<AuthorizationAttempt>,
)
    ensures
        invalidated_by(invalidated_by(states, first), second) == invalidated_by(
            states,
            first + second,
        ),
{
    reveal(invalidated_by);
    let both = first + second;
    assert forall|slot: int|
        reserves_slot(both, slot) <==> reserves_slot(first, slot) || reserves_slot(
            second,
            slot,
        ) by {
        if reserves_slot(both, slot) {
            let i = choose|i: int| 0 <= i < both.len() && (#[trigger] both[i]).reserves(slot);
            if i < first.len() {
                assert(first[i].reserves(slot));
            } else {
                assert(second[i - first.len()].reserves(slot));
            }
        }
        if reserves_slot(first, slot) {
            let i = choose|i: int| 0 <= i < first.len() && (#[trigger] first[i]).reserves(slot);
            assert(both[i].reserves(slot));
        }
        if reserves_slot(second, slot) {
            let i = choose|i: int| 0 <= i < second.len() && (#[trigger] second[i]).reserves(slot);
            assert(both[first.len() + i].reserves(slot));
        }
    }
    assert(invalidated_by(invalidated_by(states, first), second) =~= invalidated_by(
        states,
        both,
    ));
}

impl LedgerModel {
    /// No attempt is missing: the queue continues what was received without a
    /// gap up to the last number issued.
    pub open spec fn intact(self) -> bool {
        &&& !self.integrity_lost
        &&& !has_sequence_gap(self.received, self.inbox.items)
        &&& self.issued == if self.inbox.items.len() == 0 {
            self.received
        } else {
            self.inbox.items.last().sequence
        }
    }
}

/// A reservation leaves the pending state once; no later settlement changes it.
pub proof fn law_settlement_is_final(
    ledger: LedgerModel,
    slot: usize,
    first: AuthorizationState,
    second: AuthorizationState,
)
    requires
        !(first is Pending),
    ensures
        ledger.settled(slot, first).settled(slot, second) == ledger.settled(slot, first),
        !(ledger.state_of(slot) is Pending) ==> ledger.settled(slot, first) == ledger,
        ledger.state_of(slot) is Pending ==> ledger.settled(slot, first).state_of(slot) == first,
{
}

/// Settling one reservation leaves the state of every other one.
pub proof fn law_settlement_is_local(
    ledger: LedgerModel,
    slot: usize,
    other: usize,
    state: AuthorizationState,
)
    requires
        slot != other,
    ensures
        ledger.settled(slot, state).state_of(other) == ledger.state_of(other),
{
}

/// A lost attempt fails closed: nothing kept or queued authorizes a value any more.
pub proof fn law_lost_attempt_authorizes_nothing(
    ledger: LedgerModel,
    pid: i32,
    target_generation: u64,
    at: Instant,
    index: int,
)
    requires
        ledger.broken(),
        0 <= index < ledger.arrivals().len(),
    ensures
        ledger.delivered().pending.len() == 0,
        ledger.delivered().candidates(pid, target_generation, at).len() == 0,
        ledger.arrivals()[index].kind matches AttemptKind::Reservation(authorization)
            ==> ledger.delivered().state_of(authorization.slot) is Invalidated,
{
    let arrivals = ledger.arrivals();
    let gone = ledger.delivered();
    assert(gone.pending =~= Seq::<AuthorizationAttempt>::empty());
    assert(gone.candidates(pid, target_generation, at).len() == 0) by {
        reveal(Seq::filter);
    }
    assert(arrivals.take(arrivals.len() as int) =~= arrivals);
    reveal(invalidated_by);
    if arrivals[index].kind is Reservation {
        let slot = arrivals[index].kind->Reservation_0.slot;
        assert(arrivals[index].reserves(slot as int));
        assert(reserves_slot(arrivals, slot as int));
    }
}

/// A refused publication is a loss.
pub proof fn law_refused_publication_is_a_loss(ledger: LedgerModel, attempt: AuthorizationAttempt)
    requires
        !ledger.inbox.accepts(),
    ensures
        ledger.published(attempt).broken(),
{
}

/// While nothing is refused the queue stays intact, so delivery never reports a loss.
pub proof fn law_accepted_publications_stay_intact(
    ledger: LedgerModel,
    attempt: AuthorizationAttempt,
)
    requires
        ledger.wf(),
        ledger.intact(),
        ledger.inbox.accepts(),
        ledger.issued < u64::MAX,
        attempt.sequence == ledger.issued + 1,
    ensures
        ledger.published(attempt).intact(),
        !ledger.published(attempt).broken(),
        ledger.delivered().intact(),
{
    lemma_gap_step(ledger.received, ledger.inbox.items, attempt);
    let queue = ledger.inbox.items;
    assert(ledger.published(attempt).inbox.items == queue.push(attempt));
    assert(queue.push(attempt).last() == attempt);
    assert(ledger.delivered().intact()) by {
        reveal(has_sequence_gap);
    }
}

/// A rejected keystroke neither opens nor closes a window.
pub proof fn law_rejected_input_leaves_windows(
    ledger: LedgerModel,
    rejected: AuthorizationAttempt,
    pid: i32,
    target_generation: u64,
    at: Instant,
)
    requires
        rejected.kind is RejectedInput,
    ensures
        (LedgerModel { pending: ledger.pending.push(rejected), ..ledger }).candidates(
            pid,
            target_generation,
            at,
        ) == ledger.candidates(pid, target_generation, at),
{
    let grown = LedgerModel { pending: ledger.pending.push(rejected), ..ledger };
    let accept = |attempt: AuthorizationAttempt|
        ledger.authorizes(attempt, pid, target_generation, at);
    let grown_accept = |attempt: AuthorizationAttempt|
        grown.authorizes(attempt, pid, target_generation, at);
    assert(accept =~= grown_accept);
    lemma_filter_step(grown.pending, ledger.pending.len() as int, accept);
    assert(grown.pending.take(ledger.pending.len() as int) =~= ledger.pending);
    assert(grown.pending.take(grown.pending.len() as int) =~= grown.pending);
}

/// Pruning keeps exactly the reservations that are recent enough and can still open
/// a window, in their order; rejected inputs go, and nothing else changes.
pub proof fn law_pruning_keeps_open_attempts(
    ledger: LedgerModel,
    now: Instant,
    attempt: AuthorizationAttempt,
)
    ensures
        ledger.pruned(now).pending.contains(attempt) <==> ledger.pending.contains(attempt)
            && now.since(attempt.at) <= INPUT_WINDOW && (attempt.kind matches
            AttemptKind::Reservation(authorization) && ledger.state_of(
            authorization.slot,
        ).opens_window()),
        ledger.pruned(now).pending.len() <= ledger.pending.len(),
        ledger.pruned(now).pruned(now) == ledger.pruned(now),
        ledger.pruned(now) == (LedgerModel { pending: ledger.pruned(now).pending, ..ledger }),
{
    let open = |attempt: AuthorizationAttempt| ledger.stays_open(attempt, now);
    let pruned = ledger.pruned(now);
    let still_open = |attempt: AuthorizationAttempt| pruned.stays_open(attempt, now);
    lemma_filter_len(ledger.pending, open);
    lemma_filter_contains(ledger.pending, open, attempt);
    assert(open =~= still_open);
    lemma_filter_subsumed(ledger.pending, open, open);
}

proof fn lemma_filter_contains<A>(items: Seq<A>, keep: spec_fn(A) -> bool, item: A)
    ensures
        items.filter(keep).contains(item) <==> items.contains(item) && keep(item),
    decreases items.len(),
{
    reveal(Seq::filter);
    if items.len() > 0 {
        let init = items.drop_last();
        let last = items.last();
        lemma_filter_contains(init, keep, item);
        assert(items =~= init.push(last));
        lemma_push_contains(init, last, item);
        lemma_push_contains(init.filter(keep), last, item);
    }
}

proof fn lemma_push_contains<A>(items: Seq<A>, last: A, item: A)
    ensures
        items.push(last).contains(item) <==> items.contains(item) || item == last,
{
    assert(items.push(last)[items.len() as int] == last);
    assert forall|i: int| 0 <= i < items.len() && #[trigger] items[i] == item implies items.push(
        last,
    ).contains(item) by {
        assert(items.push(last)[i] == item);
    }
}

/// Forgetting expired attempts does not close a window for a later observation.
pub proof fn law_pruning_keeps_later_windows(
    ledger: LedgerModel,
    now: Instant,
    pid: i32,
    target_generation: u64,
    at: Instant,
)
    requires
        now.nanos <= at.nanos,
        forall|i: int|
            0 <= i < ledger.pending.len() && (#[trigger] ledger.pending[i]).kind is Reservation
                ==> ledger.pending[i].at == ledger.pending[i].kind->Reservation_0.input_at,
    ensures
        ledger.pruned(now).candidates(pid, target_generation, at) == ledger.candidates(
            pid,
            target_generation,
            at,
        ),
{
    let pruned = ledger.pruned(now);
    let open = |attempt: AuthorizationAttempt| ledger.stays_open(attempt, now);
    let accept = |attempt: AuthorizationAttempt|
        ledger.authorizes(attempt, pid, target_generation, at);
    let pruned_accept = |attempt: AuthorizationAttempt|
        pruned.authorizes(attempt, pid, target_generation, at);
    assert(accept =~= pruned_accept);
    lemma_filter_subsumed(ledger.pending, open, accept);
}

proof fn lemma_filter_subsumed<A>(
    items: Seq<A>,
    wide: spec_fn(A) -> bool,
    narrow: spec_fn(A) -> bool,
)
    requires
        forall|i: int| 0 <= i < items.len() && narrow(#[trigger] items[i]) ==> wide(items[i]),
    ensures
        items.filter(wide).filter(narrow) == items.filter(narrow),
    decreases items.len(),
{
    reveal(Seq::filter);
    if items.len() > 0 {
        let init = items.drop_last();
        assert forall|i: int| 0 <= i < init.len() && narrow(#[trigger] init[i]) implies wide(
            init[i],
        ) by {
            assert(init[i] == items[i]);
        }
        lemma_filter_subsumed(init, wide, narrow);
        assert(items.last() == items[items.len() - 1]);
        if wide(items.last()) {
            let grown = init.filter(wide).push(items.last());
            assert(grown.drop_last() =~= init.filter(wide));
        }
    }
}

/// After a target is invalidated no earlier keystroke authorizes its values.
pub proof fn law_invalidated_target_authorizes_nothing(
    ledger: LedgerModel,
    pid: i32,
    target_generation: u64,
    at: Instant,
)
    ensures
        ledger.without_target(pid, target_generation).candidates(
            pid,
            target_generation,
            at,
        ).len() == 0,
{
    let after = ledger.without_target(pid, target_generation);
    lemma_no_candidates(after, ledger.delivered().pending, pid, Some(target_generation), target_generation, at);
}

/// After a process is detached no earlier keystroke authorizes any of its values.
pub proof fn law_detached_process_authorizes_nothing(
    ledger: LedgerModel,
    pid: i32,
    target_generation: u64,
    at: Instant,
)
    ensures
        ledger.without_pid(pid).candidates(pid, target_generation, at).len() == 0,
{
    let released = ledger.delivered().released(pid, None);
    let after = ledger.without_pid(pid);
    let silent = |attempt: AuthorizationAttempt|
        attempt.kind != (AttemptKind::RejectedInput { pid: Some(pid) });
    let accept = |attempt: AuthorizationAttempt|
        after.authorizes(attempt, pid, target_generation, at);
    let keep = |attempt: AuthorizationAttempt| !attempt.serves(pid, None);
    let matched = after.pending.filter(accept);
    if matched.len() > 0 {
        lemma_filter_from(after.pending, accept, 0);
        let i = after.pending.index_of(matched[0]);
        lemma_filter_from(released.pending, silent, i);
        let j = released.pending.index_of(matched[0]);
        lemma_filter_from(ledger.delivered().pending, keep, j);
    }
}

proof fn lemma_no_candidates(
    after: LedgerModel,
    before: Seq<AuthorizationAttempt>,
    pid: i32,
    released: Option<u64>,
    target_generation: u64,
    at: Instant,
)
    requires
        after.pending == before.filter(
            |attempt: AuthorizationAttempt| !attempt.serves(pid, released),
        ),
        released matches Some(generation) ==> generation == target_generation,
    ensures
        after.candidates(pid, target_generation, at).len() == 0,
{
    let accept = |attempt: AuthorizationAttempt|
        after.authorizes(attempt, pid, target_generation, at);
    let keep = |attempt: AuthorizationAttempt| !attempt.serves(pid, released);
    let matched = after.pending.filter(accept);
    if matched.len() > 0 {
        lemma_filter_from(after.pending, accept, 0);
        let i = after.pending.index_of(matched[0]);
        lemma_filter_from(before, keep, i);
    }
}

/// Confirming makes a waiting reservation confirmed and rejecting makes it rejected; a
/// reservation that was decided keeps its decision, and all others theirs.
pub proof fn law_a_waiting_reservation_is_decided_once(
    authorization: InputAuthorization,
    confirmed: Subject<InputAuthorizations>,
    rejected: Subject<InputAuthorizations>,
    other: usize,
)
    requires
        call_ensures(InputAuthorization::confirm, (&authorization, confirmed.on), ()),
        call_ensures(InputAuthorization::reject, (&authorization, rejected.on), ()),
        other != authorization.slot,
    ensures
        old(confirmed.on)@.state_of(authorization.slot) is Pending ==> final(confirmed.on)@.state_of(
            authorization.slot,
        ) is Confirmed,
        old(rejected.on)@.state_of(authorization.slot) is Pending ==> final(rejected.on)@.state_of(
            authorization.slot,
        ) is Rejected,
        old(confirmed.on)@.state_of(authorization.slot) !is Pending ==> final(confirmed.on)@
            == old(confirmed.on)@,
        old(rejected.on)@.state_of(authorization.slot) !is Pending ==> final(rejected.on)@
            == old(rejected.on)@,
        final(confirmed.on)@.state_of(other) == old(confirmed.on)@.state_of(other),
        final(rejected.on)@.state_of(other) == old(rejected.on)@.state_of(other),
        final(confirmed.on)@.pending == old(confirmed.on)@.pending,
        final(rejected.on)@.pending == old(rejected.on)@.pending,
        final(confirmed.on)@.inbox == old(confirmed.on)@.inbox,
        final(rejected.on)@.inbox == old(rejected.on)@.inbox,
{
}

/// A keystroke is reserved where the queue has room: the reservation names the
/// process, the target and the time of the keystroke, waits for a decision, is queued
/// last, and is numbered right after the one before. A refused one is invalid from the
/// start, and the loss is remembered.
pub proof fn law_a_keystroke_is_reserved(
    publisher: InputAuthorizationPublisher,
    call: Subject<InputAuthorizations>,
    pid: i32,
    target_generation: u64,
    input_at: Instant,
    prepared: Result<InputAuthorization, AuthorizationQueueError>,
)
    requires
        call.on@.wf() && call.on@.issued < u64::MAX && call.on@.states.len() < usize::MAX,
        call_ensures(
            InputAuthorizationPublisher::prepare,
            (&publisher, call.on, pid, target_generation, input_at),
            prepared,
        ),
    ensures
        prepared is Ok <==> old(call.on)@.inbox.connected && old(call.on)@.inbox.items.len() < 1_024,
        prepared matches Ok(authorization) ==> {
            &&& authorization.pid == pid
            &&& authorization.target_generation == target_generation
            &&& authorization.input_at == input_at
            &&& authorization.sequence == old(call.on)@.issued + 1
            &&& final(call.on)@.state_of(authorization.slot) is Pending
            &&& final(call.on)@.inbox.items.len() == old(call.on)@.inbox.items.len() + 1
            &&& final(call.on)@.inbox.items.last().kind == AttemptKind::Reservation(authorization)
            &&& final(call.on)@.inbox.items.last().at == input_at
            &&& final(call.on)@.inbox.items.last().sequence == authorization.sequence
            &&& final(call.on)@.integrity_lost == old(call.on)@.integrity_lost
        },
        prepared is Err ==> final(call.on)@.integrity_lost && final(call.on)@.inbox
            == old(call.on)@.inbox,
        final(call.on)@.issued == old(call.on)@.issued + 1,
        forall|slot: usize|
            slot < old(call.on)@.states.len() ==> #[trigger] final(call.on)@.state_of(slot)
                == old(call.on)@.state_of(slot),
{
}

/// A keystroke that must not authorize anything is queued as such, with its process
/// and time, and reserves nothing; where the queue refuses it, the loss is remembered.
pub proof fn law_a_rejected_keystroke_reserves_nothing(
    publisher: InputAuthorizationPublisher,
    call: Subject<InputAuthorizations>,
    pid: Option<i32>,
    input_at: Instant,
    recorded: Result<(), AuthorizationQueueError>,
)
    requires
        call.on@.wf() && call.on@.issued < u64::MAX,
        call_ensures(
            InputAuthorizationPublisher::reject_attempt,
            (&publisher, call.on, pid, input_at),
            recorded,
        ),
    ensures
        recorded is Ok <==> old(call.on)@.inbox.connected && old(call.on)@.inbox.items.len() < 1_024,
        recorded is Ok ==> {
            &&& final(call.on)@.inbox.items.len() == old(call.on)@.inbox.items.len() + 1
            &&& final(call.on)@.inbox.items.last().kind == (AttemptKind::RejectedInput { pid })
            &&& final(call.on)@.inbox.items.last().at == input_at
            &&& final(call.on)@.inbox.items.last().sequence == old(call.on)@.issued + 1
        },
        recorded is Err ==> final(call.on)@.integrity_lost,
        final(call.on)@.states == old(call.on)@.states,
        final(call.on)@.issued == old(call.on)@.issued + 1,
{
}

/// While nothing was lost and everything fits, delivery keeps every attempt, oldest
/// first, and every state, and empties the queue. Where more arrive than fit, the
/// newest stay and those given up are invalid.
pub proof fn law_delivery_keeps_what_fits(ledger: LedgerModel, index: int)
    requires
        !ledger.broken(),
        ledger.pending.len() <= 1_024 && ledger.inbox.items.len() <= 1_024,
        0 <= index < ledger.pending.len() + ledger.inbox.items.len(),
    ensures
        ledger.delivered().inbox.items.len() == 0,
        !ledger.delivered().integrity_lost,
        ledger.pending.len() + ledger.inbox.items.len() <= 1_024 ==> ledger.delivered().pending
            == ledger.pending + ledger.inbox.items && ledger.delivered().states == ledger.states,
        ledger.pending.len() + ledger.inbox.items.len() > 1_024 ==> {
            &&& ledger.delivered().pending.len() == ledger.pending.len() + ledger.inbox.items.len()
                - 1_024
            &&& index >= 1_024 ==> ledger.delivered().pending[index - 1_024] == (ledger.pending
                + ledger.inbox.items)[index]
            &&& index < 1_024 ==> ((ledger.pending + ledger.inbox.items)[index].kind matches
                AttemptKind::Reservation(authorization) ==> ledger.delivered().state_of(
                authorization.slot,
            ) is Invalidated)
        },
{
    reveal(invalidated_by);
    let arrivals = ledger.pending + ledger.inbox.items;
    if arrivals.len() <= 1_024 {
        assert(arrivals.skip(0) =~= arrivals);
        assert(ledger.delivered().states =~= ledger.states) by {
            assert(arrivals.take(0).len() == 0);
        }
    } else if index < 1_024 && arrivals[index].kind is Reservation {
        let slot = arrivals[index].kind->Reservation_0.slot;
        assert(arrivals.take(1_024)[index].reserves(slot as int));
        assert(reserves_slot(arrivals.take(1_024), slot as int));
    }
}

/// Whether a keystroke of this target, in this state, came at most three seconds before
/// `at` and not after it.
pub open spec fn typed_before(
    ledger: LedgerModel,
    pid: i32,
    target_generation: u64,
    at: Instant,
    state: AuthorizationState,
) -> bool {
    exists|i: int|
        {
            &&& 0 <= i < ledger.pending.len()
            &&& (#[trigger] ledger.pending[i]).kind matches AttemptKind::Reservation(authorization)
            &&& authorization.pid == pid
            &&& authorization.target_generation == target_generation
            &&& authorization.input_at.nanos <= at.nanos <= authorization.input_at.nanos
                + 3_000_000_000
            &&& ledger.state_of(authorization.slot) == state
        }
}

/// A value is authorized by the keystrokes of its own target in the three seconds before
/// it that are waiting or confirmed, and by no other.
pub proof fn law_only_recent_keystrokes_of_the_target_authorize(
    ledger: LedgerModel,
    pid: i32,
    target_generation: u64,
    at: Instant,
    index: int,
)
    ensures
        ledger.candidates(pid, target_generation, at).len() > 0 <==> typed_before(
            ledger,
            pid,
            target_generation,
            at,
            AuthorizationState::Pending,
        ) || typed_before(
            ledger,
            pid,
            target_generation,
            at,
            AuthorizationState::Confirmed,
        ),
        any_in_state(
            ledger,
            ledger.candidates(pid, target_generation, at),
            AuthorizationState::Confirmed,
        ) <==> typed_before(ledger, pid, target_generation, at, AuthorizationState::Confirmed),
        any_in_state(
            ledger,
            ledger.candidates(pid, target_generation, at),
            AuthorizationState::Pending,
        ) <==> typed_before(ledger, pid, target_generation, at, AuthorizationState::Pending),
        0 <= index < ledger.candidates(pid, target_generation, at).len() ==> {
            let candidate = ledger.candidates(pid, target_generation, at)[index];
            &&& candidate.pid == pid
            &&& candidate.target_generation == target_generation
            &&& candidate.input_at.nanos <= at.nanos
            &&& at.nanos <= candidate.input_at.nanos + 3_000_000_000
            &&& ledger.state_of(candidate.slot) is Pending || ledger.state_of(candidate.slot)
                is Confirmed
        },
{
    let accept = |attempt: AuthorizationAttempt|
        ledger.authorizes(attempt, pid, target_generation, at);
    let accepted = ledger.pending.filter(accept);
    let candidates = ledger.candidates(pid, target_generation, at);
    assert forall|i: int| 0 <= i < candidates.len() implies ledger.pending.contains(
        #[trigger] accepted[i],
    ) && accept(accepted[i]) && candidates[i] == accepted[i].kind->Reservation_0 by {
        lemma_filter_contains(ledger.pending, accept, accepted[i]);
        assert(accepted.contains(accepted[i]));
    }
    assert forall|i: int|
        0 <= i < ledger.pending.len() && accept(#[trigger] ledger.pending[i]) implies any_in_state(
        ledger,
        candidates,
        ledger.state_of(ledger.pending[i].kind->Reservation_0.slot),
    ) by {
        lemma_filter_contains(ledger.pending, accept, ledger.pending[i]);
        assert(ledger.pending.contains(ledger.pending[i]));
        let k = choose|k: int| 0 <= k < accepted.len() && accepted[k] == ledger.pending[i];
        assert(candidates[k] == accepted[k].kind->Reservation_0);
    }
    if 0 <= index < candidates.len() {
        assert(accept(accepted[index]));
    }
    assert forall|state: AuthorizationState| state is Pending || state is Confirmed implies (
    #[trigger] any_in_state(ledger, candidates, state) <==> typed_before(
        ledger,
        pid,
        target_generation,
        at,
        state,
    )) by {
        if any_in_state(ledger, candidates, state) {
            let k = choose|k: int|
                0 <= k < candidates.len() && ledger.state_of((#[trigger] candidates[k]).slot)
                    == state;
            assert(accept(accepted[k]));
            let i = choose|i: int| 0 <= i < ledger.pending.len() && ledger.pending[i] == accepted[k];
            assert(ledger.pending[i].kind is Reservation);
        }
        if typed_before(ledger, pid, target_generation, at, state) {
            let i = choose|i: int|
                {
                    &&& 0 <= i < ledger.pending.len()
                    &&& (#[trigger] ledger.pending[i]).kind matches AttemptKind::Reservation(
                        authorization,
                    )
                    &&& authorization.pid == pid
                    &&& authorization.target_generation == target_generation
                    &&& authorization.input_at.nanos <= at.nanos <= authorization.input_at.nanos
                        + 3_000_000_000
                    &&& ledger.state_of(authorization.slot) == state
                };
            assert(accept(ledger.pending[i]));
        }
    }
    if candidates.len() > 0 {
        assert(accept(accepted[0]));
        let state = ledger.state_of(candidates[0].slot);
        assert(any_in_state(ledger, candidates, state));
    }
    if any_in_state(ledger, candidates, AuthorizationState::Pending) || any_in_state(
        ledger,
        candidates,
        AuthorizationState::Confirmed,
    ) {
        assert(candidates.len() > 0);
    }
}

/// A matched value is told by its recent keystrokes alone; matching settles nothing.
pub proof fn law_matching_finds_recent_keystrokes(
    call: Subject<InputAuthorizations>,
    pid: i32,
    target_generation: u64,
    at: Instant,
    matched: Option<InputWindowMatch>,
)
    requires
        call.on@.wf(),
        call_ensures(
            InputAuthorizations::matching,
            (call.on, pid, target_generation, at),
            matched,
        ),
    ensures
        matched is Some <==> typed_before(
            old(call.on)@.delivered(),
            pid,
            target_generation,
            at,
            AuthorizationState::Pending,
        ) || typed_before(
            old(call.on)@.delivered(),
            pid,
            target_generation,
            at,
            AuthorizationState::Confirmed,
        ),
        final(call.on)@.states == old(call.on)@.delivered().states,
        final(call.on)@.inbox.items.len() == 0,
{
    law_only_recent_keystrokes_of_the_target_authorize(
        call.on@.delivered(),
        pid,
        target_generation,
        at,
        0,
    );
}

/// The ledger after its queue was delivered: delivering again changes nothing.
pub proof fn law_delivery_settles(ledger: LedgerModel)
    requires
        ledger.pending.len() <= 1_024 && ledger.inbox.items.len() <= 1_024,
    ensures
        ledger.delivered().inbox.items.len() == 0,
        ledger.delivered().pending.len() <= 1_024,
        !ledger.delivered().integrity_lost,
        ledger.delivered().delivered() == ledger.delivered(),
{
    lemma_nothing_to_deliver(ledger.delivered());
}

/// A ledger whose queue is empty and intact is delivered already.
pub proof fn lemma_nothing_to_deliver(ledger: LedgerModel)
    requires
        ledger.inbox.items.len() == 0 && !ledger.integrity_lost,
        ledger.pending.len() <= 1_024,
    ensures
        ledger.delivered() == ledger,
{
    reveal(has_sequence_gap);
    reveal(invalidated_by);
    assert(ledger.arrivals() =~= ledger.pending);
    assert(ledger.pending.skip(0) =~= ledger.pending);
    assert(ledger.pending.take(0).len() == 0);
    assert(ledger.delivered().states =~= ledger.states);
    assert(ledger.delivered().inbox.items =~= ledger.inbox.items);
    assert(ledger.delivered() =~= ledger);
}

/// Once a target is withdrawn, none of its keystrokes waits or is confirmed any more,
/// and every kept keystroke of another target keeps its state.
pub proof fn law_withdrawal_is_complete(
    call: Subject<InputAuthorizations>,
    pid: i32,
    target_generation: u64,
    at: Instant,
)
    requires
        call.on@.wf(),
        call_ensures(
            InputAuthorizations::invalidate,
            (call.on, pid, target_generation),
            (),
        ),
    ensures
        !typed_before(
            final(call.on)@,
            pid,
            target_generation,
            at,
            AuthorizationState::Confirmed,
        ),
        !typed_before(final(call.on)@, pid, target_generation, at, AuthorizationState::Pending),
{
    let released = call.on@.delivered().released(pid, Some(target_generation));
    let kept = |attempt: AuthorizationAttempt| !attempt.serves(pid, Some(target_generation));
    assert forall|i: int| 0 <= i < released.pending.len() implies !(
    #[trigger] released.pending[i]).serves(pid, Some(target_generation)) by {
        lemma_filter_contains(call.on@.delivered().pending, kept, released.pending[i]);
        assert(released.pending.contains(released.pending[i]));
    }
}

} // verus!
