//! Confirm-then-send quarantine for bodies that depend on a browser page.

use std::collections::VecDeque;

use time::OffsetDateTime;
use vstd::prelude::*;

use super::policy::TextContentDecision;
use super::routing;
use super::routing::suppress_text_content;
use crate::clock::Instant;
use crate::schema::{App, RawEvent};
use crate::subject::Subject;

verus! {

/// How long a held event waits for the browser, in nanoseconds.
pub const CONFIRMATION_SAFETY_CAP: u64 = 2_000_000_000;

/// A browser window.
#[derive(Clone, Copy, Debug, PartialEq, Eq, Structural)]
pub struct ChromeWindowKey {
    pub pid: i64,
    pub window_id: i64,
}

/// The scope that a privacy decision is asked for.
#[derive(Clone, Copy, Debug, PartialEq, Eq, Structural)]
pub enum PrivacyScope {
    TextContent,
    ContentSnapshot,
}

/// What body a held event carries.
#[derive(Clone, Copy, Debug, PartialEq, Eq, Structural)]
pub enum HeldBodyKind {
    Text,
    Snapshot { hash: u64 },
}

impl HeldBodyKind {
    pub open spec fn spec_scope(self) -> PrivacyScope {
        match self {
            HeldBodyKind::Text => PrivacyScope::TextContent,
            HeldBodyKind::Snapshot { .. } => PrivacyScope::ContentSnapshot,
        }
    }

    fn scope(self) -> (scope: PrivacyScope)
        ensures
            scope == self.spec_scope(),
    {
        match self {
            HeldBodyKind::Text => PrivacyScope::TextContent,
            HeldBodyKind::Snapshot { .. } => PrivacyScope::ContentSnapshot,
        }
    }
}

/// An event waiting for the browser.
#[derive(Debug, PartialEq)]
pub struct HeldEvent {
    pub event: RawEvent,
    pub key: ChromeWindowKey,
    pub version_at_decision: u64,
    pub held_at: Instant,
    pub kind: HeldBodyKind,
}

/// An event that left the quarantine.
#[derive(Debug, PartialEq)]
pub struct ReleasedEvent {
    pub event: RawEvent,
    pub snapshot_hash: Option<(ChromeWindowKey, u64)>,
}

impl ReleasedEvent {
    /// The event and, for a snapshot, its window and hash.
    pub fn into_parts(self) -> (parts: (RawEvent, Option<(ChromeWindowKey, u64)>))
        ensures
            parts == (self.event, self.snapshot_hash),
    {
        (self.event, self.snapshot_hash)
    }
}

impl HeldEvent {
    pub open spec fn spec_released(self) -> ReleasedEvent {
        ReleasedEvent {
            event: self.event,
            snapshot_hash: match self.kind {
                HeldBodyKind::Text => None,
                HeldBodyKind::Snapshot { hash } => Some((self.key, hash)),
            },
        }
    }

    /// The held event with its body removed.
    pub open spec fn stripped(self) -> HeldEvent {
        HeldEvent { event: routing::without_body(self.event), ..self }
    }

    /// What becomes of the event once the browser answered: a snapshot leaves
    /// only when it is still allowed and the page did not change, a text event
    /// always leaves, with its body under the same condition. The surface of the
    /// answer is taken over when the page did not change.
    pub open spec fn confirmed(self, decision: TextContentDecision) -> Option<ReleasedEvent> {
        let unchanged = decision.chrome_version == Some(self.version_at_decision);
        let placed = if unchanged {
            HeldEvent {
                event: RawEvent { capture_context: decision.capture_context, ..self.event },
                ..self
            }
        } else {
            self
        };
        if decision.allowed && unchanged {
            Some(placed.spec_released())
        } else if self.kind is Snapshot {
            None
        } else {
            Some(placed.stripped().spec_released())
        }
    }

    /// What becomes of the event when the browser did not answer: a snapshot is
    /// dropped, a text event leaves without its body.
    pub open spec fn unresponsive(self) -> Option<ReleasedEvent> {
        if self.kind is Snapshot {
            None
        } else {
            Some(self.stripped().spec_released())
        }
    }

    /// Whether the browser was observed after the event was held.
    pub open spec fn answered(self, observed_at: Option<Instant>) -> bool {
        observed_at matches Some(at) && at.nanos > self.held_at.nanos
    }

    pub open spec fn expired(self, now: Instant) -> bool {
        now.reached(self.held_at, CONFIRMATION_SAFETY_CAP)
    }

    fn released(self) -> (released: ReleasedEvent)
        ensures
            released == self.spec_released(),
    {
        let snapshot_hash = match self.kind {
            HeldBodyKind::Text => None,
            HeldBodyKind::Snapshot { hash } => Some((self.key, hash)),
        };
        ReleasedEvent { event: self.event, snapshot_hash }
    }
}

/// Resolves a held event that the browser answered for.
pub fn resolve_confirmed(held: HeldEvent, decision: TextContentDecision) -> (released: Option<
    ReleasedEvent,
>)
    ensures
        released == held.confirmed(decision),
{
    let unchanged = match decision.chrome_version {
        Some(version) => version == held.version_at_decision,
        None => false,
    };
    let snapshot = matches!(held.kind, HeldBodyKind::Snapshot { .. });
    let allowed = decision.allowed;
    let HeldEvent { event, key, version_at_decision, held_at, kind } = held;
    let placed = if unchanged {
        RawEvent { capture_context: decision.capture_context, ..event }
    } else {
        event
    };
    if allowed && unchanged {
        let held = HeldEvent { event: placed, key, version_at_decision, held_at, kind };
        return Some(held.released());
    }
    if snapshot {
        return None;
    }
    let held = HeldEvent {
        event: suppress_text_content(placed),
        key,
        version_at_decision,
        held_at,
        kind,
    };
    Some(held.released())
}

/// Resolves a held event that the browser never answered for.
pub fn resolve_unresponsive(held: HeldEvent) -> (released: Option<ReleasedEvent>)
    ensures
        released == held.unresponsive(),
{
    if matches!(held.kind, HeldBodyKind::Snapshot { .. }) {
        return None;
    }
    let HeldEvent { event, key, version_at_decision, held_at, kind } = held;
    let held = HeldEvent {
        event: suppress_text_content(event),
        key,
        version_at_decision,
        held_at,
        kind,
    };
    Some(held.released())
}

/// What the outside answered about one held event.
pub struct ReleaseAnswer {
    pub observed_at: Option<Instant>,
    pub decision: TextContentDecision,
}

/// Whether an event stays held.
pub open spec fn stays(held: HeldEvent, answer: ReleaseAnswer, now: Instant) -> bool {
    !held.answered(answer.observed_at) && !held.expired(now)
}

/// What leaves of one event.
pub open spec fn leaves(held: HeldEvent, answer: ReleaseAnswer, now: Instant) -> Option<
    ReleasedEvent,
> {
    if held.answered(answer.observed_at) {
        held.confirmed(answer.decision)
    } else if held.expired(now) {
        held.unresponsive()
    } else {
        None
    }
}

/// The events released among the first `count` held ones, in order.
pub open spec fn released_of(
    held: Seq<HeldEvent>,
    answers: Seq<ReleaseAnswer>,
    now: Instant,
    count: nat,
) -> Seq<ReleasedEvent>
    decreases count,
{
    if count == 0 {
        Seq::empty()
    } else {
        let earlier = released_of(held, answers, now, (count - 1) as nat);
        match leaves(held[count - 1], answers[count - 1], now) {
            Some(event) => earlier.push(event),
            None => earlier,
        }
    }
}

/// The events still held among the first `count`, in order.
pub open spec fn kept_of(
    held: Seq<HeldEvent>,
    answers: Seq<ReleaseAnswer>,
    now: Instant,
    count: nat,
) -> Seq<HeldEvent>
    decreases count,
{
    if count == 0 {
        Seq::empty()
    } else {
        let earlier = kept_of(held, answers, now, (count - 1) as nat);
        if stays(held[count - 1], answers[count - 1], now) {
            earlier.push(held[count - 1])
        } else {
            earlier
        }
    }
}

/// What leaves of the first `count` held events when nothing can answer any more.
pub open spec fn flushed_of(held: Seq<HeldEvent>, count: nat) -> Seq<ReleasedEvent>
    decreases count,
{
    if count == 0 {
        Seq::empty()
    } else {
        let earlier = flushed_of(held, (count - 1) as nat);
        match held[count - 1].unresponsive() {
            Some(event) => earlier.push(event),
            None => earlier,
        }
    }
}

/// The windows of a sequence of held events.
pub open spec fn keys_of(held: Seq<HeldEvent>) -> Seq<ChromeWindowKey> {
    held.map_values(|event: HeldEvent| event.key)
}

/// Held events and the windows whose observation is to be requested.
pub struct QuarantineModel {
    pub held: Seq<HeldEvent>,
    pub requests: Seq<ChromeWindowKey>,
}

impl QuarantineModel {
    pub open spec fn holding(self, held: HeldEvent) -> QuarantineModel {
        QuarantineModel {
            held: self.held.push(held),
            requests: self.requests.push(held.key),
        }
    }
}

/// Events waiting until the browser confirms the page they were made on.
#[derive(Debug)]
pub struct TextQuarantine {
    held: VecDeque<HeldEvent>,
    requests: Vec<ChromeWindowKey>,
}

impl View for TextQuarantine {
    type V = QuarantineModel;

    closed spec fn view(&self) -> QuarantineModel {
        QuarantineModel { held: self.held@, requests: self.requests@ }
    }
}

impl TextQuarantine {
    /// An empty quarantine.
    pub fn new() -> (quarantine: Self)
        ensures
            quarantine@ == (QuarantineModel { held: Seq::empty(), requests: Seq::empty() }),
    {
        TextQuarantine { held: VecDeque::new(), requests: Vec::new() }
    }

    /// Holds an event with body text, stamped with the time of its input.
    pub fn hold_text(
        &mut self,
        event: RawEvent,
        key: ChromeWindowKey,
        version_at_decision: u64,
        observed_at: OffsetDateTime,
        held_at: Instant,
    )
        ensures
            final(self)@ == old(self)@.holding(
                HeldEvent {
                    event: RawEvent { observed_at: Some(observed_at), ..event },
                    key,
                    version_at_decision,
                    held_at,
                    kind: HeldBodyKind::Text,
                },
            ),
    {
        self.hold_at(
            RawEvent { observed_at: Some(observed_at), ..event },
            key,
            version_at_decision,
            HeldBodyKind::Text,
            held_at,
        );
    }

    /// Holds a content snapshot.
    pub fn hold_snapshot(
        &mut self,
        event: RawEvent,
        key: ChromeWindowKey,
        version_at_decision: u64,
        hash: u64,
        held_at: Instant,
    )
        ensures
            final(self)@ == old(self)@.holding(
                HeldEvent {
                    event,
                    key,
                    version_at_decision,
                    held_at,
                    kind: HeldBodyKind::Snapshot { hash },
                },
            ),
    {
        self.hold_at(event, key, version_at_decision, HeldBodyKind::Snapshot { hash }, held_at);
    }

    /// Holds an event and asks for an observation of its window.
    pub fn hold_at(
        &mut self,
        event: RawEvent,
        key: ChromeWindowKey,
        version_at_decision: u64,
        kind: HeldBodyKind,
        held_at: Instant,
    )
        ensures
            final(self)@ == old(self)@.holding(
                HeldEvent { event, key, version_at_decision, held_at, kind },
            ),
    {
        self.requests.push(key);
        self.held.push_back(HeldEvent { event, key, version_at_decision, held_at, kind });
    }

    /// Releases the events that the browser answered for or that waited too
    /// long, and asks again for the others.
    ///
    /// `observed_at` tells when a window was last observed, `decide` what the
    /// policy says of an answered event now.
    pub fn release<O: Fn(ChromeWindowKey) -> Option<Instant>, D: Fn(
        PrivacyScope,
        &App,
        ChromeWindowKey,
    ) -> TextContentDecision>(&mut self, now: Instant, observed_at: O, decide: D) -> (released: Vec<
        ReleasedEvent,
    >)
        requires
            forall|i: int|
                0 <= i < old(self)@.held.len() ==> release_ready(
                    observed_at,
                    decide,
                    #[trigger] old(self)@.held[i],
                ),
        ensures
            exists|answers: Seq<ReleaseAnswer>|
                #![trigger kept_of(old(self)@.held, answers, now, old(self)@.held.len())]
                {
                    let held = old(self)@.held;
                    &&& answers.len() == held.len()
                    &&& forall|i: int|
                        #![trigger answers[i]]
                        0 <= i < held.len() ==> answered_by(
                            observed_at,
                            decide,
                            held[i],
                            answers[i],
                        )
                    &&& released@ == released_of(held, answers, now, held.len())
                    &&& final(self)@.held == kept_of(held, answers, now, held.len())
                    &&& final(self)@.requests == old(self)@.requests + keys_of(final(self)@.held)
                },
    {
        let ghost held = self@.held;
        let ghost requests = self@.requests;
        let ghost mut answers: Seq<ReleaseAnswer> = Seq::empty();
        let ghost mut taken: nat = 0;
        let mut released: Vec<ReleasedEvent> = Vec::new();
        let mut pending: VecDeque<HeldEvent> = VecDeque::new();
        assert(self.held@ =~= held.skip(0));
        assert(self@.requests =~= requests + keys_of(pending@));
        while self.held.len() > 0
            invariant
                forall|i: int|
                    0 <= i < held.len() ==> release_ready(
                        observed_at,
                        decide,
                        #[trigger] held[i],
                    ),
                taken <= held.len(),
                self.held@ == held.skip(taken as int),
                answers.len() == taken,
                forall|i: int|
                    #![trigger answers[i]]
                    0 <= i < taken ==> answered_by(observed_at, decide, held[i], answers[i]),
                released@ == released_of(held, answers, now, taken),
                pending@ == kept_of(held, answers, now, taken),
                self@.requests == requests + keys_of(pending@),
            decreases self.held.len(),
        {
            let front = self.held.pop_front();
            match front {
                None => {},
                Some(event) => {
                    let ghost before = answers;
                    let ghost waiting = pending@;
                    let key = event.key;
                    assert(event == held[taken as int]);
                    let seen = observed_at(key);
                    let answered = match seen {
                        Some(at) => at.nanos > event.held_at.nanos,
                        None => false,
                    };
                    if answered {
                        let decision = decide(event.kind.scope(), &event.event.app, key);
                        proof {
                            answers = answers.push(
                                ReleaseAnswer { observed_at: seen, decision },
                            );
                        }
                        let leaving = resolve_confirmed(event, decision);
                        match leaving {
                            Some(event) => released.push(event),
                            None => {},
                        }
                    } else {
                        proof {
                            let decision = vstd::pervasive::arbitrary();
                            answers = answers.push(
                                ReleaseAnswer { observed_at: seen, decision },
                            );
                        }
                        if now.has_reached(event.held_at, CONFIRMATION_SAFETY_CAP) {
                            let leaving = resolve_unresponsive(event);
                            match leaving {
                                Some(event) => released.push(event),
                                None => {},
                            }
                        } else {
                            self.requests.push(key);
                            pending.push_back(event);
                        }
                    }
                    proof {
                        lemma_release_prefix(held, before, answers, now, taken);
                        taken = taken + 1;
                        assert(self.held@ =~= held.skip(taken as int));
                        assert(self@.requests =~= requests + keys_of(pending@));
                        assert forall|i: int|
                            #![trigger answers[i]]
                            0 <= i < taken implies answered_by(
                            observed_at,
                            decide,
                            held[i],
                            answers[i],
                        ) by {
                            if i < before.len() {
                                assert(answers[i] == before[i]);
                            }
                        }
                    }
                },
            }
        }
        self.held = pending;
        released
    }

    /// Gives up on every held event: snapshots are dropped, the others leave
    /// without their body.
    pub fn flush(&mut self) -> (released: Vec<ReleasedEvent>)
        ensures
            released@ == flushed_of(old(self)@.held, old(self)@.held.len()),
            final(self)@ == (QuarantineModel { held: Seq::empty(), ..old(self)@ }),
    {
        let ghost held = self@.held;
        let ghost mut taken: nat = 0;
        let mut released: Vec<ReleasedEvent> = Vec::new();
        assert(self.held@ =~= held.skip(0));
        while self.held.len() > 0
            invariant
                taken <= held.len(),
                self.held@ == held.skip(taken as int),
                released@ == flushed_of(held, taken),
                self@.requests == old(self)@.requests,
            decreases self.held.len(),
        {
            let front = self.held.pop_front();
            match front {
                None => {},
                Some(event) => {
                    assert(event == held[taken as int]);
                    let leaving = resolve_unresponsive(event);
                    match leaving {
                        Some(event) => released.push(event),
                        None => {},
                    }
                    proof {
                        taken = taken + 1;
                        assert(self.held@ =~= held.skip(taken as int));
                    }
                },
            }
        }
        assert(self.held@ =~= Seq::empty());
        released
    }

    /// Takes the windows whose observation is to be requested.
    pub fn take_requests(&mut self) -> (requests: Vec<ChromeWindowKey>)
        ensures
            requests@ == old(self)@.requests,
            final(self)@ == (QuarantineModel { requests: Seq::empty(), ..old(self)@ }),
    {
        let mut requests: Vec<ChromeWindowKey> = Vec::new();
        requests.append(&mut self.requests);
        assert(requests@ =~= old(self)@.requests);
        assert(self.requests@ =~= Seq::empty());
        requests
    }

    /// Whether nothing is held.
    pub fn is_empty(&self) -> (empty: bool)
        ensures
            empty == (self@.held.len() == 0),
    {
        self.held.len() == 0
    }
}

/// Whether the two questions can be asked for a held event: the second one only
/// once the browser answered.
pub open spec fn release_ready<O: Fn(ChromeWindowKey) -> Option<Instant>, D: Fn(
    PrivacyScope,
    &App,
    ChromeWindowKey,
) -> TextContentDecision>(observed_at: O, decide: D, held: HeldEvent) -> bool {
    &&& call_requires(observed_at, (held.key,))
    &&& forall|seen: Option<Instant>| #[trigger]
        call_ensures(observed_at, (held.key,), seen) && held.answered(seen) ==> call_requires(
            decide,
            (held.kind.spec_scope(), &held.event.app, held.key),
        )
}

/// Whether `answer` is what the two questions give for a held event: the
/// decision is asked only once the browser answered.
pub open spec fn answered_by<O: Fn(ChromeWindowKey) -> Option<Instant>, D: Fn(
    PrivacyScope,
    &App,
    ChromeWindowKey,
) -> TextContentDecision>(
    observed_at: O,
    decide: D,
    held: HeldEvent,
    answer: ReleaseAnswer,
) -> bool {
    &&& call_ensures(observed_at, (held.key,), answer.observed_at)
    &&& held.answered(answer.observed_at) ==> call_ensures(
        decide,
        (held.kind.spec_scope(), &held.event.app, held.key),
        answer.decision,
    )
}

proof fn lemma_release_prefix(
    held: Seq<HeldEvent>,
    before: Seq<ReleaseAnswer>,
    answers: Seq<ReleaseAnswer>,
    now: Instant,
    count: nat,
)
    requires
        count <= before.len(),
        before.len() <= answers.len(),
        forall|i: int| 0 <= i < before.len() ==> before[i] == answers[i],
    ensures
        released_of(held, before, now, count) == released_of(held, answers, now, count),
        kept_of(held, before, now, count) == kept_of(held, answers, now, count),
    decreases count,
{
    if count > 0 {
        lemma_release_prefix(held, before, answers, now, (count - 1) as nat);
    }
}

/// A held body leaves only when the browser answered, the policy still allows it
/// and the page is the one it was made on.
pub proof fn law_body_leaves_only_confirmed(
    held: HeldEvent,
    answer: ReleaseAnswer,
    now: Instant,
    released: ReleasedEvent,
)
    requires
        leaves(held, answer, now) == Some(released),
        routing::has_body(released.event) || released.snapshot_hash is Some,
    ensures
        held.answered(answer.observed_at),
        answer.decision.allowed,
        answer.decision.chrome_version == Some(held.version_at_decision),
{
    routing::law_suppressed_event_has_no_body(held.event);
    routing::law_suppressed_event_has_no_body(
        RawEvent { capture_context: answer.decision.capture_context, ..held.event },
    );
}

/// Nothing is both released and kept, and after the safety cap nothing is kept.
pub proof fn law_no_event_outlives_the_cap(held: HeldEvent, answer: ReleaseAnswer, now: Instant)
    ensures
        stays(held, answer, now) ==> leaves(held, answer, now) is None,
        held.expired(now) ==> !stays(held, answer, now),
        held.kind is Text && !stays(held, answer, now) ==> leaves(held, answer, now) is Some,
{
}

/// Flushing sends no held body.
pub proof fn law_flush_sends_no_body(held: Seq<HeldEvent>, count: nat, index: int)
    requires
        count <= held.len(),
        0 <= index < flushed_of(held, count).len(),
    ensures
        !routing::has_body(flushed_of(held, count)[index].event),
        flushed_of(held, count)[index].snapshot_hash is None,
    decreases count,
{
    if count > 0 {
        let earlier = flushed_of(held, (count - 1) as nat);
        if index < earlier.len() {
            law_flush_sends_no_body(held, (count - 1) as nat, index);
        } else {
            routing::law_suppressed_event_has_no_body(held[count - 1].event);
        }
    }
}

/// A held event is released whole where the page is confirmed, still allowed and still the
/// one it was held under; it then names the page as the answer does. Otherwise a snapshot is
/// dropped, and any other event leaves without its text.
pub proof fn law_confirmation_decides_the_body(
    held: HeldEvent,
    decision: TextContentDecision,
    released: Option<ReleasedEvent>,
)
    requires
        call_ensures(resolve_confirmed, (held, decision), released),
    ensures
        decision.allowed && decision.chrome_version == Some(held.version_at_decision) ==> {
            &&& released is Some
            &&& released->0.event.data == held.event.data
            &&& released->0.event.element == held.event.element
            &&& released->0.event.capture_context == decision.capture_context
            &&& held.kind is Text ==> released->0.snapshot_hash is None
            &&& held.kind matches HeldBodyKind::Snapshot { hash } ==> released->0.snapshot_hash
                == Some((held.key, hash))
        },
        !(decision.allowed && decision.chrome_version == Some(held.version_at_decision)) ==> {
            &&& released is None <==> held.kind is Snapshot
            &&& released is Some ==> !routing::has_body(released->0.event)
                && released->0.snapshot_hash is None
        },
        released is Some && decision.chrome_version != Some(held.version_at_decision)
            ==> released->0.event.capture_context == held.event.capture_context,
        released is Some ==> released->0.event.app == held.event.app && released->0.event.window
            == held.event.window && released->0.event.event_type == held.event.event_type
            && released->0.event.observed_at == held.event.observed_at,
{
}

/// An event that no answer came for leaves without its text; a snapshot does not leave.
pub proof fn law_silence_releases_no_body(held: HeldEvent, released: Option<ReleasedEvent>)
    requires
        call_ensures(resolve_unresponsive, (held,), released),
    ensures
        released is None <==> held.kind is Snapshot,
        released matches Some(event) ==> !routing::has_body(event.event)
            && event.snapshot_hash is None && event.event.app == held.event.app
            && event.event.window == held.event.window && event.event.event_type
            == held.event.event_type && event.event.capture_context == held.event.capture_context,
{
}

/// A held event stays until its window was looked at after it was held, or two seconds have
/// passed. A look before that is no answer.
pub proof fn law_held_events_wait_for_a_later_look(
    held: HeldEvent,
    answer: ReleaseAnswer,
    now: Instant,
)
    ensures
        stays(held, answer, now) <==> !(answer.observed_at matches Some(at) && at.nanos
            > held.held_at.nanos) && now.nanos < held.held_at.nanos + 2_000_000_000,
        (answer.observed_at matches Some(at) && at.nanos > held.held_at.nanos) && held.kind is Text
            && answer.decision.allowed && answer.decision.chrome_version == Some(
            held.version_at_decision,
        ) ==> (leaves(held, answer, now) matches Some(released) && released.event.data
            == held.event.data && released.event.element == held.event.element),
        (answer.observed_at matches Some(at) ==> at.nanos <= held.held_at.nanos)
            && now.nanos >= held.held_at.nanos + 2_000_000_000 && held.kind is Text ==> (leaves(
            held,
            answer,
            now,
        ) matches Some(released) && !routing::has_body(released.event)),
{
}

/// Of the held events exactly those that wait are kept, in their order; every other text
/// event is released.
pub proof fn law_every_held_event_waits_or_leaves(
    held: Seq<HeldEvent>,
    answers: Seq<ReleaseAnswer>,
    now: Instant,
    count: nat,
    index: int,
)
    requires
        count <= held.len(),
        0 <= index < count,
    ensures
        stays(held[index], answers[index], now) ==> kept_of(held, answers, now, count).contains(
            held[index],
        ),
        leaves(held[index], answers[index], now) matches Some(released) ==> released_of(
            held,
            answers,
            now,
            count,
        ).contains(released),
        kept_of(held, answers, now, count).len() + released_of(held, answers, now, count).len()
            <= count,
    decreases count,
{
    law_no_event_outlives_the_cap(held[count - 1], answers[count - 1], now);
    let kept = kept_of(held, answers, now, (count - 1) as nat);
    let released = released_of(held, answers, now, (count - 1) as nat);
    lemma_release_lengths(held, answers, now, (count - 1) as nat);
    let all_kept = kept_of(held, answers, now, count);
    let all_released = released_of(held, answers, now, count);
    if index < count - 1 {
        law_every_held_event_waits_or_leaves(held, answers, now, (count - 1) as nat, index);
        if stays(held[index], answers[index], now) {
            let k = choose|k: int| 0 <= k < kept.len() && kept[k] == held[index];
            assert(all_kept[k] == held[index]);
        }
        if let Some(event) = leaves(held[index], answers[index], now) {
            let k = choose|k: int| 0 <= k < released.len() && released[k] == event;
            assert(all_released[k] == event);
        }
    } else {
        if stays(held[index], answers[index], now) {
            assert(all_kept[kept.len() as int] == held[index]);
        }
        if let Some(event) = leaves(held[index], answers[index], now) {
            assert(all_released[released.len() as int] == event);
        }
    }
}

proof fn lemma_release_lengths(
    held: Seq<HeldEvent>,
    answers: Seq<ReleaseAnswer>,
    now: Instant,
    count: nat,
)
    ensures
        kept_of(held, answers, now, count).len() + released_of(held, answers, now, count).len()
            <= count,
    decreases count,
{
    if count > 0 {
        lemma_release_lengths(held, answers, now, (count - 1) as nat);
        law_no_event_outlives_the_cap(held[count - 1], answers[count - 1], now);
    }
}

/// An event is asked about under the scope of what it holds, for its own application and
/// window.
pub proof fn law_events_are_asked_about_under_their_scope<
    O: Fn(ChromeWindowKey) -> Option<Instant>,
    D: Fn(PrivacyScope, &App, ChromeWindowKey) -> TextContentDecision,
>(observed_at: O, decide: D, held: HeldEvent, answer: ReleaseAnswer)
    requires
        answered_by(observed_at, decide, held, answer),
    ensures
        call_ensures(observed_at, (held.key,), answer.observed_at),
        (answer.observed_at matches Some(at) && at.nanos > held.held_at.nanos) && held.kind is Text
            ==> call_ensures(
            decide,
            (PrivacyScope::TextContent, &held.event.app, held.key),
            answer.decision,
        ),
        (answer.observed_at matches Some(at) && at.nanos > held.held_at.nanos)
            && held.kind is Snapshot ==> call_ensures(
            decide,
            (PrivacyScope::ContentSnapshot, &held.event.app, held.key),
            answer.decision,
        ),
{
}

/// A text that is held waits last, whole, under the window, version and time it is held with,
/// and a look at its window is asked for.
pub proof fn law_held_text_is_kept_whole(
    call: Subject<TextQuarantine>,
    event: RawEvent,
    key: ChromeWindowKey,
    version: u64,
    observed_at: OffsetDateTime,
    held_at: Instant,
)
    requires
        call_ensures(
            TextQuarantine::hold_text,
            (call.on, event, key, version, observed_at, held_at),
            (),
        ),
    ensures
        final(call.on)@.held.len() == old(call.on)@.held.len() + 1,
        final(call.on)@.held.last().event.data == event.data,
        final(call.on)@.held.last().event.element == event.element,
        final(call.on)@.held.last().event.observed_at == Some(observed_at),
        final(call.on)@.held.last().key == key,
        final(call.on)@.held.last().version_at_decision == version,
        final(call.on)@.held.last().held_at == held_at,
        final(call.on)@.held.last().kind is Text,
        final(call.on)@.requests.last() == key,
        final(call.on)@.held.drop_last() == old(call.on)@.held,
        final(call.on)@.requests.drop_last() == old(call.on)@.requests,
{
    assert(forall|item: HeldEvent| #[trigger] call.on@.held.push(item).drop_last() =~= call.on@.held);
    assert(forall|item: ChromeWindowKey| #[trigger]
        call.on@.requests.push(item).drop_last() =~= call.on@.requests);
}

/// A snapshot that is held waits last, whole, with its hash.
pub proof fn law_held_snapshot_is_kept_whole(
    call: Subject<TextQuarantine>,
    event: RawEvent,
    key: ChromeWindowKey,
    version: u64,
    hash: u64,
    held_at: Instant,
)
    requires
        call_ensures(
            TextQuarantine::hold_snapshot,
            (call.on, event, key, version, hash, held_at),
            (),
        ),
    ensures
        final(call.on)@.held.len() == old(call.on)@.held.len() + 1,
        final(call.on)@.held.last().event == event,
        final(call.on)@.held.last().key == key,
        final(call.on)@.held.last().version_at_decision == version,
        final(call.on)@.held.last().held_at == held_at,
        final(call.on)@.held.last().kind == (HeldBodyKind::Snapshot { hash }),
        final(call.on)@.requests.last() == key,
{
}

/// Flushing keeps nothing back: every text event leaves without its text, every snapshot is
/// dropped. Requests are handed out once.
pub proof fn law_flush_and_requests_are_complete(
    flush: Subject<TextQuarantine>,
    released: Vec<ReleasedEvent>,
    take: Subject<TextQuarantine>,
    requests: Vec<ChromeWindowKey>,
)
    requires
        call_ensures(TextQuarantine::flush, (flush.on,), released),
        call_ensures(TextQuarantine::take_requests, (take.on,), requests),
    ensures
        final(flush.on)@.held.len() == 0,
        final(flush.on)@.requests == old(flush.on)@.requests,
        (forall|i: int| 0 <= i < old(flush.on)@.held.len() ==> (#[trigger] old(flush.on)@.held[i]).kind is Text)
            ==> released@.len() == old(flush.on)@.held.len(),
        requests@ == old(take.on)@.requests,
        final(take.on)@.requests.len() == 0,
        final(take.on)@.held == old(take.on)@.held,
{
    if forall|i: int| 0 <= i < flush.on@.held.len() ==> (#[trigger] flush.on@.held[i]).kind is Text {
        lemma_flush_length(flush.on@.held, flush.on@.held.len());
    }
}

proof fn lemma_flush_length(held: Seq<HeldEvent>, count: nat)
    requires
        count <= held.len(),
        forall|i: int| 0 <= i < held.len() ==> (#[trigger] held[i]).kind is Text,
    ensures
        flushed_of(held, count).len() == count,
    decreases count,
{
    if count > 0 {
        lemma_flush_length(held, (count - 1) as nat);
        assert(held[count - 1].kind is Text);
    }
}

} // verus!
