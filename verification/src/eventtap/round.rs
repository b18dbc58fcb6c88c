//! The rounds of the event-tap worker.
//!
//! A round begins with what waited from before: released events and a clipboard
//! that changed meanwhile. After the native events were collected it ends with
//! handling them, another look at the clipboard, and the upkeep of the tap.

use vstd::prelude::*;

use super::clipboard::ClipboardObservationTime;
use super::logic::PasteboardContent;
use super::native;
use super::native::{native_context, NativeContext, NativeEvent};
use super::output;
use super::output::{emit_released, OutputModel};
use super::state;
use super::state::{Driver, DriverModel, EventTapApi, MonotonicTime, NativeCall};
use super::support::{current_health, record_degraded_entries, refresh_secure_input};
use super::worker;
use super::worker::{
    handle_native_event, needs_context, recover_from_wake, WorkerModel, WorkerMoment, WorkerState,
};
use crate::channel;
use crate::channel::{count_up, BoundedChannel, ChannelModel};
use crate::clock::Instant;
use crate::focus_context::{FocusContext, FocusModel, FocusSnapshot};
use crate::subject::Subject;
use crate::text_capture::policy::CapturePolicy;
use crate::text_capture::quarantine::ReleasedEvent;

verus! {

/// What holds for a whole batch of native events.
#[derive(Clone, Copy, Debug, PartialEq, Eq)]
pub struct BatchConditions {
    pub capture_text_content: bool,
    pub now: MonotonicTime,
    pub secure_input_enabled: bool,
}

/// What is read anew for every event.
#[derive(Clone, Copy, Debug, PartialEq, Eq)]
pub struct EventReading {
    pub at: Instant,
    pub ime_active: bool,
}

/// The moment in which an event is handled.
pub open spec fn moment_of(conditions: BatchConditions, reading: EventReading) -> WorkerMoment {
    WorkerMoment {
        capture_text_content: conditions.capture_text_content,
        now: conditions.now,
        at: reading.at,
        ime_active: reading.ime_active,
        secure_input_enabled: conditions.secure_input_enabled,
    }
}

/// What a batch of native events is handled under.
pub struct BatchModel {
    pub conditions: BatchConditions,
    pub context: Option<NativeContext>,
    pub policy: CapturePolicy,
    pub focus: FocusModel,
}

/// What a batch of native events is handled under in a given context.
pub open spec fn batch_model(
    conditions: BatchConditions,
    context: Option<&NativeContext>,
    policy: CapturePolicy,
    focus: FocusModel,
) -> BatchModel {
    BatchModel {
        conditions,
        context: match context {
            Some(context) => Some(*context),
            None => None,
        },
        policy,
        focus,
    }
}

/// What a batch of native events is handled under while a snapshot is focused.
pub open spec fn focused_batch(
    conditions: BatchConditions,
    snapshot: Option<FocusSnapshot>,
    policy: CapturePolicy,
    focus: FocusModel,
) -> BatchModel {
    BatchModel {
        conditions,
        context: match snapshot {
            Some(snapshot) => Some(native::context_of(snapshot)),
            None => None,
        },
        policy,
        focus,
    }
}

/// The tap and the worker.
pub struct RoundModel<A> {
    pub tap: DriverModel<A>,
    pub worker: WorkerModel,
}

/// Whether `after` is what one native event makes of the tap and the worker.
pub open spec fn event_handled<
    A: EventTapApi,
    P: FnOnce(bool) -> PasteboardContent,
    M: Fn() -> EventReading,
>(
    before: RoundModel<A>,
    event: NativeEvent,
    reading: EventReading,
    batch: BatchModel,
    read_pasteboard: P,
    read_event: M,
    calls: Seq<NativeCall<A>>,
    after: RoundModel<A>,
    continues: bool,
) -> bool {
    &&& call_ensures(read_event, (), reading)
    &&& worker::told(before.tap, event, batch.conditions.now, calls, after.tap)
    &&& before.worker.handled(
        event,
        moment_of(batch.conditions, reading),
        batch.context,
        batch.policy,
        batch.focus,
        read_pasteboard,
        after.worker,
        continues,
    )
}

/// Whether the first `count` events, one after the other, lead from `before` to
/// `after`, with these calls of the native tap.
pub open spec fn events_handled<
    A: EventTapApi,
    P: FnOnce(bool) -> PasteboardContent,
    M: Fn() -> EventReading,
>(
    before: RoundModel<A>,
    events: Seq<NativeEvent>,
    count: nat,
    batch: BatchModel,
    read_pasteboard: P,
    read_event: M,
    calls: Seq<NativeCall<A>>,
    after: RoundModel<A>,
) -> bool
    decreases count,
{
    if count == 0 {
        calls.len() == 0 && after == before
    } else {
        exists|
            earlier: Seq<NativeCall<A>>,
            mid: RoundModel<A>,
            reading: EventReading,
            last: Seq<NativeCall<A>>,
        |
            {
                &&& calls == #[trigger] earlier.add(last)
                &&& events_handled(
                    before,
                    events,
                    (count - 1) as nat,
                    batch,
                    read_pasteboard,
                    read_event,
                    earlier,
                    mid,
                )
                &&& #[trigger] event_handled(
                    mid,
                    events[count - 1],
                    reading,
                    batch,
                    read_pasteboard,
                    read_event,
                    last,
                    after,
                    true,
                )
            }
    }
}

/// Whether `after` is where handling a batch ends: after its last event, or after
/// the first one that finds the consumer gone.
pub open spec fn batch_handled<
    A: EventTapApi,
    P: FnOnce(bool) -> PasteboardContent,
    M: Fn() -> EventReading,
>(
    before: RoundModel<A>,
    events: Seq<NativeEvent>,
    batch: BatchModel,
    read_pasteboard: P,
    read_event: M,
    calls: Seq<NativeCall<A>>,
    after: RoundModel<A>,
    continues: bool,
) -> bool {
    if continues {
        events_handled(
            before,
            events,
            events.len(),
            batch,
            read_pasteboard,
            read_event,
            calls,
            after,
        )
    } else {
        exists|
            count: nat,
            earlier: Seq<NativeCall<A>>,
            mid: RoundModel<A>,
            reading: EventReading,
            last: Seq<NativeCall<A>>,
        |
            {
                &&& count < events.len()
                &&& calls == earlier + last
                &&& #[trigger] events_handled(
                    before,
                    events,
                    count,
                    batch,
                    read_pasteboard,
                    read_event,
                    earlier,
                    mid,
                )
                &&& #[trigger] event_handled(
                    mid,
                    events[count as int],
                    reading,
                    batch,
                    read_pasteboard,
                    read_event,
                    last,
                    after,
                    false,
                )
            }
    }
}

/// Handles a batch of native events in their order; tells whether the worker goes
/// on. Time and input state are read anew for every event.
pub fn handle_events<
    A: EventTapApi,
    P: Copy + FnOnce(bool) -> PasteboardContent,
    M: Fn() -> EventReading,
>(
    events: Vec<NativeEvent>,
    driver: &mut Driver<A>,
    worker: &mut WorkerState,
    conditions: BatchConditions,
    read_pasteboard: P,
    read_event: &M,
    context: Option<&NativeContext>,
    policy: &CapturePolicy,
    focus_context: &FocusContext,
) -> (continues: bool)
    requires
        old(worker)@.wf(),
        old(worker).clipboard is None ==> forall|i: int|
            0 <= i < events@.len() ==> !worker::types_into(
                #[trigger] events@[i],
                conditions.secure_input_enabled,
            ),
        forall|i: int, reading: EventReading, body: bool|
            0 <= i < events@.len() && call_ensures(*read_event, (), reading) && #[trigger]
            worker::pastes_into(
                events@[i],
                moment_of(conditions, reading),
                *policy,
                focus_context@,
                body,
            ) ==> call_requires(read_pasteboard, (body,)),
        call_requires(*read_event, ()),
    ensures
        final(worker)@.wf(),
        final(worker).clipboard is Some <==> old(worker).clipboard is Some,
        exists|calls: Seq<NativeCall<A>>|
            {
                &&& #[trigger] batch_handled(
                    (RoundModel { tap: old(driver)@, worker: old(worker)@ }),
                    events@,
                    batch_model(conditions, context, *policy, focus_context@),
                    read_pasteboard,
                    *read_event,
                    calls,
                    (RoundModel { tap: final(driver)@, worker: final(worker)@ }),
                    continues,
                )
                &&& forall|i: int|
                    0 <= i < calls.len() ==> *final((#[trigger] calls[i]).native) == calls[i].after
            },
{
    let ghost all = events@;
    let ghost before = RoundModel { tap: driver@, worker: worker@ };
    let ghost batch = batch_model(conditions, context, *policy, focus_context@);
    let follows_clipboard = worker.clipboard.is_some();
    let mut waiting = events;
    let ghost mut count: nat = 0;
    assert(events_handled(
        before,
        all,
        count,
        batch,
        read_pasteboard,
        *read_event,
        Seq::empty(),
        before,
    ));
    assert(all.skip(0) =~= all);
    while waiting.len() > 0
        invariant
            all == events@,
            before == (RoundModel { tap: old(driver)@, worker: old(worker)@ }),
            follows_clipboard == old(worker).clipboard is Some,
            worker@.wf(),
            worker.clipboard is Some <==> follows_clipboard,
            !follows_clipboard ==> forall|i: int|
                0 <= i < all.len() ==> !worker::types_into(
                    #[trigger] all[i],
                    conditions.secure_input_enabled,
                ),
            forall|i: int, reading: EventReading, body: bool|
                0 <= i < all.len() && call_ensures(*read_event, (), reading) && #[trigger]
                worker::pastes_into(
                    all[i],
                    moment_of(conditions, reading),
                    *policy,
                    focus_context@,
                    body,
                ) ==> call_requires(read_pasteboard, (body,)),
            call_requires(*read_event, ()),
            count + waiting@.len() == all.len(),
            waiting@ == all.skip(count as int),
            batch == batch_model(conditions, context, *policy, focus_context@),
            exists|calls: Seq<NativeCall<A>>|
                {
                    &&& #[trigger] events_handled(
                        before,
                        all,
                        count,
                        batch,
                        read_pasteboard,
                        *read_event,
                        calls,
                        (RoundModel { tap: driver@, worker: worker@ }),
                    )
                    &&& forall|i: int|
                        0 <= i < calls.len() ==> *final((#[trigger] calls[i]).native)
                            == calls[i].after
                },
        decreases waiting.len(),
    {
        let ghost mid = RoundModel { tap: driver@, worker: worker@ };
        let ghost earlier = choose|calls: Seq<NativeCall<A>>|
            {
                &&& #[trigger] events_handled(
                    before,
                    all,
                    count,
                    batch,
                    read_pasteboard,
                    *read_event,
                    calls,
                    mid,
                )
                &&& forall|i: int|
                    0 <= i < calls.len() ==> *final((#[trigger] calls[i]).native) == calls[i].after
            };
        let event = waiting.remove(0);
        assert(event == all[count as int]);
        let reading = read_event();
        let moment = WorkerMoment {
            capture_text_content: conditions.capture_text_content,
            now: conditions.now,
            at: reading.at,
            ime_active: reading.ime_active,
            secure_input_enabled: conditions.secure_input_enabled,
        };
        assert(moment == moment_of(conditions, reading));
        let continues = handle_native_event(
            event,
            driver,
            worker,
            read_pasteboard,
            context,
            moment,
            policy,
            focus_context,
        );
        let ghost after = RoundModel { tap: driver@, worker: worker@ };
        let ghost last = choose|last: Seq<NativeCall<A>>|
            {
                &&& #[trigger] worker::told(mid.tap, event, conditions.now, last, after.tap)
                &&& forall|i: int|
                    0 <= i < last.len() ==> *final((#[trigger] last[i]).native) == last[i].after
            };
        let ghost calls = earlier.add(last);
        assert(event_handled(
            mid,
            all[count as int],
            reading,
            batch,
            read_pasteboard,
            *read_event,
            last,
            after,
            continues,
        ));
        if !continues {
            assert(batch_handled(
                before,
                all,
                batch,
                read_pasteboard,
                *read_event,
                calls,
                after,
                false,
            ));
            return false;
        }
        proof {
            count = count + 1;
            assert(waiting@ =~= all.skip(count as int));
            assert(event_handled(
                mid,
                all[count - 1],
                reading,
                batch,
                read_pasteboard,
                *read_event,
                last,
                after,
                true,
            ));
        }
        assert(events_handled(
            before,
            all,
            (count - 1) as nat,
            batch,
            read_pasteboard,
            *read_event,
            earlier,
            mid,
        ));
        assert(events_handled(
            before,
            all,
            count,
            batch,
            read_pasteboard,
            *read_event,
            calls,
            after,
        ));
    }
    assert(count == all.len());
    assert(forall|calls: Seq<NativeCall<A>>| #[trigger]
        events_handled(
            before,
            all,
            count,
            batch,
            read_pasteboard,
            *read_event,
            calls,
            (RoundModel { tap: driver@, worker: worker@ }),
        ) ==> batch_handled(
            before,
            all,
            batch,
            read_pasteboard,
            *read_event,
            calls,
            (RoundModel { tap: driver@, worker: worker@ }),
            true,
        ));
    true
}

/// The worker once released events were offered, and whether it goes on.
pub open spec fn released_sent(worker: WorkerModel, events: Seq<ReleasedEvent>) -> (
    WorkerModel,
    bool,
) {
    let sender = worker.output.sender;
    if sender.connected {
        (
            WorkerModel {
                output: OutputModel {
                    sender: output::offered_all(sender, events, events.len()),
                    dropped: output::lost_all(
                        sender,
                        events,
                        events.len(),
                        worker.output.dropped,
                    ),
                    ..worker.output
                },
                ..worker
            },
            true,
        )
    } else if events.len() == 0 {
        (worker, true)
    } else {
        (
            WorkerModel {
                output: OutputModel {
                    dropped: channel::next_count(worker.output.dropped),
                    ..worker.output
                },
                ..worker
            },
            false,
        )
    }
}

/// Whether a look at the clipboard can be taken, whatever its change count is.
pub open spec fn look_ready<
    C: FnOnce() -> i64,
    T: FnOnce() -> ClipboardObservationTime,
    P: FnOnce(bool) -> PasteboardContent,
>(
    worker: WorkerModel,
    focus: Option<FocusSnapshot>,
    read_change_count: C,
    read_time: T,
    read_pasteboard: P,
    secure_input: bool,
    policy: CapturePolicy,
) -> bool {
    worker.clipboard is Some ==> {
        &&& call_requires(read_change_count, ())
        &&& forall|change_count: i64| #[trigger]
            call_ensures(read_change_count, (), change_count) ==> worker::report_ready(
                worker,
                change_count,
                focus,
                read_time,
                read_pasteboard,
                secure_input,
                policy,
            )
    }
}

/// Whether a look at the clipboard found this change count and was reported as
/// made at `time`.
pub open spec fn looked_at<
    C: FnOnce() -> i64,
    T: FnOnce() -> ClipboardObservationTime,
    P: FnOnce(bool) -> PasteboardContent,
>(
    before: WorkerModel,
    focus: Option<FocusSnapshot>,
    read_change_count: C,
    change_count: i64,
    read_time: T,
    time: ClipboardObservationTime,
    read_pasteboard: P,
    secure_input: bool,
    policy: CapturePolicy,
    after: WorkerModel,
    continues: bool,
) -> bool {
    &&& call_ensures(read_change_count, (), change_count)
    &&& worker::report_made(
        before,
        change_count,
        focus,
        read_time,
        time,
        read_pasteboard,
        secure_input,
        policy,
        after,
        continues,
    )
}

/// Begins a round: sends what the quarantine released, asks whether secure input
/// is on, and then looks at the clipboard, if there is one, and reports that it
/// changed before any event of the round.
pub fn begin_round<
    A: EventTapApi,
    C: FnOnce() -> i64,
    T: FnOnce() -> ClipboardObservationTime,
    P: FnOnce(bool) -> PasteboardContent,
>(
    driver: &mut Driver<A>,
    worker: &mut WorkerState,
    released: Vec<ReleasedEvent>,
    published_secure_input: &mut bool,
    read_change_count: C,
    read_time: T,
    read_pasteboard: P,
    policy: &CapturePolicy,
    focus_context: &FocusContext,
) -> (continues: bool)
    requires
        old(worker)@.wf(),
        released_sent(old(worker)@, released@).1 ==> forall|secure_input: bool| #[trigger]
            state::secure_input_asked(old(driver)@.api, secure_input) ==> look_ready(
                old(worker)@,
                focus_context@.current,
                read_change_count,
                read_time,
                read_pasteboard,
                secure_input,
                *policy,
            ),
    ensures
        final(worker)@.wf(),
        final(driver)@ == old(driver)@,
        ({
            let (sent, goes_on) = released_sent(old(worker)@, released@);
            if !goes_on {
                &&& !continues
                &&& final(worker)@ == sent
                &&& *final(published_secure_input) == *old(published_secure_input)
            } else {
                &&& state::secure_input_asked(old(driver)@.api, *final(published_secure_input))
                &&& sent.clipboard is None ==> final(worker)@ == sent && continues
                &&& sent.clipboard is Some ==> exists|
                    change_count: i64,
                    time: ClipboardObservationTime,
                |
                    #[trigger] looked_at(
                        sent,
                        focus_context@.current,
                        read_change_count,
                        change_count,
                        read_time,
                        time,
                        read_pasteboard,
                        *final(published_secure_input),
                        *policy,
                        final(worker)@,
                        continues,
                    )
            }
        }),
{
    let goes_on = emit_released(&mut worker.sender, released, &mut worker.dropped_events);
    assert(worker@ == released_sent(old(worker)@, released@).0);
    if !goes_on {
        return false;
    }
    let secure_input = refresh_secure_input(driver, published_secure_input);
    if worker.clipboard.is_none() {
        return true;
    }
    let ghost sent = worker@;
    let change_count = read_change_count();
    let focus = focus_context.current();
    assert(worker::report_ready(
        old(worker)@,
        change_count,
        focus,
        read_time,
        read_pasteboard,
        secure_input,
        *policy,
    ));
    let continues = worker.report_copy(
        change_count,
        &focus,
        read_time,
        read_pasteboard,
        secure_input,
        policy,
    );
    assert(forall|time: ClipboardObservationTime| #[trigger]
        worker::report_made(
            sent,
            change_count,
            focus,
            read_time,
            time,
            read_pasteboard,
            secure_input,
            *policy,
            worker@,
            continues,
        ) ==> looked_at(
            sent,
            focus,
            read_change_count,
            change_count,
            read_time,
            time,
            read_pasteboard,
            secure_input,
            *policy,
            worker@,
            continues,
        ));
    continues
}

/// The focus that a batch of events goes by: it is looked up only for events or a
/// clipboard that belong to it.
pub open spec fn batch_focus(
    worker: WorkerModel,
    events: Seq<NativeEvent>,
    change_count: i64,
    focus: FocusModel,
) -> Option<FocusSnapshot> {
    if worker::copy_due(worker, change_count) || exists|i: int| 0 <= i < events.len() && !(#[trigger] events[i] is Disabled) {
        focus.current
    } else {
        None
    }
}

/// Whether the rest of a round, after its events were handled, leads from `mid`
/// to `after`: wake-ups are looked at, and the clipboard is reported.
pub open spec fn round_finished<
    A: EventTapApi,
    P: FnOnce(bool) -> PasteboardContent,
    T: FnOnce() -> ClipboardObservationTime,
>(
    mid: RoundModel<A>,
    wakes: Option<ChannelModel<()>>,
    conditions: BatchConditions,
    change_count: i64,
    focus: Option<FocusSnapshot>,
    policy: CapturePolicy,
    read_pasteboard: P,
    read_time: T,
    time: ClipboardObservationTime,
    calls: Seq<NativeCall<A>>,
    after: RoundModel<A>,
    continues: bool,
) -> bool {
    &&& worker::woken(mid.tap, wakes, conditions.now, calls, after.tap)
    &&& worker::report_made(
        mid.worker,
        change_count,
        focus,
        read_time,
        time,
        read_pasteboard,
        conditions.secure_input_enabled,
        policy,
        after.worker,
        continues,
    )
}

/// Ends a round: handles its events in their order, rebuilds the tap after a
/// wake-up, and reports a clipboard that changed. It stops where the consumer is
/// gone.
#[verifier::rlimit(60)]
#[verifier::spinoff_prover]
pub fn end_round<
    A: EventTapApi,
    P: Copy + FnOnce(bool) -> PasteboardContent,
    M: Fn() -> EventReading,
    T: FnOnce() -> ClipboardObservationTime,
>(
    events: Vec<NativeEvent>,
    driver: &mut Driver<A>,
    worker: &mut WorkerState,
    wakes: &mut Option<BoundedChannel<()>>,
    conditions: BatchConditions,
    change_count: i64,
    read_pasteboard: P,
    read_event: &M,
    read_time: T,
    policy: &CapturePolicy,
    focus_context: &FocusContext,
) -> (continues: bool)
    requires
        old(worker)@.wf(),
        *old(wakes) is Some ==> (*old(wakes))->0@.wf(),
        old(worker).clipboard is None ==> forall|i: int|
            0 <= i < events@.len() ==> !worker::types_into(
                #[trigger] events@[i],
                conditions.secure_input_enabled,
            ),
        forall|i: int, reading: EventReading, body: bool|
            0 <= i < events@.len() && call_ensures(*read_event, (), reading) && #[trigger]
            worker::pastes_into(
                events@[i],
                moment_of(conditions, reading),
                *policy,
                focus_context@,
                body,
            ) ==> call_requires(read_pasteboard, (body,)),
        call_requires(*read_event, ()),
        ({
            let before = RoundModel { tap: old(driver)@, worker: old(worker)@ };
            let focus = batch_focus(old(worker)@, events@, change_count, focus_context@);
            let batch = focused_batch(conditions, focus, *policy, focus_context@);
            forall|calls: Seq<NativeCall<A>>, mid: RoundModel<A>| #[trigger]
                batch_handled(
                    before,
                    events@,
                    batch,
                    read_pasteboard,
                    *read_event,
                    calls,
                    mid,
                    true,
                ) ==> worker::report_ready(
                    mid.worker,
                    change_count,
                    focus,
                    read_time,
                    read_pasteboard,
                    conditions.secure_input_enabled,
                    *policy,
                )
        }),
    ensures
        final(worker)@.wf(),
        *final(wakes) is Some ==> (*final(wakes))->0@.wf(),
        ({
            let before = RoundModel { tap: old(driver)@, worker: old(worker)@ };
            let after = RoundModel { tap: final(driver)@, worker: final(worker)@ };
            let focus = batch_focus(old(worker)@, events@, change_count, focus_context@);
            let batch = focused_batch(conditions, focus, *policy, focus_context@);
            ||| {
                &&& !continues
                &&& worker::wakes_view(*final(wakes)) == worker::wakes_view(*old(wakes))
                &&& exists|calls: Seq<NativeCall<A>>|
                    {
                        &&& #[trigger] batch_handled(
                            before,
                            events@,
                            batch,
                            read_pasteboard,
                            *read_event,
                            calls,
                            after,
                            false,
                        )
                        &&& forall|i: int|
                            0 <= i < calls.len() ==> *final((#[trigger] calls[i]).native)
                                == calls[i].after
                    }
            }
            ||| {
                &&& worker::wakes_view(*final(wakes)) == match worker::wakes_view(*old(wakes)) {
                    Some(wakes) => Some(wakes.drained()),
                    None => None,
                }
                &&& exists|
                    calls: Seq<NativeCall<A>>,
                    mid: RoundModel<A>,
                    time: ClipboardObservationTime,
                    recovery: Seq<NativeCall<A>>,
                |
                    {
                        &&& #[trigger] batch_handled(
                            before,
                            events@,
                            batch,
                            read_pasteboard,
                            *read_event,
                            calls,
                            mid,
                            true,
                        )
                        &&& #[trigger] round_finished(
                            mid,
                            worker::wakes_view(*old(wakes)),
                            conditions,
                            change_count,
                            focus,
                            *policy,
                            read_pasteboard,
                            read_time,
                            time,
                            recovery,
                            after,
                            continues,
                        )
                        &&& forall|i: int|
                            0 <= i < calls.len() ==> *final((#[trigger] calls[i]).native)
                                == calls[i].after
                        &&& forall|i: int|
                            0 <= i < recovery.len() ==> *final((#[trigger] recovery[i]).native)
                                == recovery[i].after
                    }
            }
        }),
{
    let changed = match &worker.clipboard {
        Some(clipboard) => clipboard.has_changed(change_count),
        None => false,
    };
    let focus = if needs_context(changed, &events) {
        focus_context.current()
    } else {
        None
    };
    let context = match &focus {
        Some(focus) => Some(native_context(focus.clone())),
        None => None,
    };
    let goes_on = handle_events(
        events,
        driver,
        worker,
        conditions,
        read_pasteboard,
        read_event,
        context.as_ref(),
        policy,
        focus_context,
    );
    if !goes_on {
        return false;
    }
    let ghost mid = RoundModel { tap: driver@, worker: worker@ };
    recover_from_wake(driver, wakes, conditions.now);
    let continues = worker.report_copy(
        change_count,
        &focus,
        read_time,
        read_pasteboard,
        conditions.secure_input_enabled,
        policy,
    );
    let ghost time = choose|time: ClipboardObservationTime| #[trigger]
        worker::report_made(
            mid.worker,
            change_count,
            focus,
            read_time,
            time,
            read_pasteboard,
            conditions.secure_input_enabled,
            *policy,
            worker@,
            continues,
        );
    let ghost recovery = choose|recovery: Seq<NativeCall<A>>|
        {
            &&& #[trigger] worker::woken(
                mid.tap,
                worker::wakes_view(*old(wakes)),
                conditions.now,
                recovery,
                driver@,
            )
            &&& forall|i: int|
                0 <= i < recovery.len() ==> *final((#[trigger] recovery[i]).native)
                    == recovery[i].after
        };
    assert(round_finished(
        mid,
        worker::wakes_view(*old(wakes)),
        conditions,
        change_count,
        focus,
        *policy,
        read_pasteboard,
        read_time,
        time,
        recovery,
        (RoundModel { tap: driver@, worker: worker@ }),
        continues,
    ));
    continues
}

/// A worker's tap once it was started.
#[derive(Debug)]
pub struct StartedTap<A> {
    pub driver: Driver<A>,
    pub observed_degraded_entries: u64,
    pub degraded: bool,
}

/// Starts the worker's tap: creates and checks it, publishes whether secure input
/// is on, counts what went wrong, and then begins to observe wake-ups. Wake-ups
/// that cannot be observed count as one failure, and leave the worker degraded.
pub fn start_tap<A: EventTapApi, N: Fn() -> MonotonicTime, W: FnOnce() -> bool>(
    api: A,
    read_now: &N,
    observe_wakes: W,
    published_secure_input: &mut bool,
    degraded_operations: &mut u64,
) -> (started: StartedTap<A>)
    requires
        call_requires(*read_now, ()),
        call_requires(observe_wakes, ()),
    ensures
        exists|
            creation: Seq<NativeCall<A>>,
            created: DriverModel<A>,
            checks: Seq<NativeCall<A>>,
            created_at: MonotonicTime,
            checked_at: MonotonicTime,
        |
            {
                &&& call_ensures(*read_now, (), created_at)
                &&& call_ensures(*read_now, (), checked_at)
                &&& #[trigger] state::started(api, created_at, creation, created)
                &&& #[trigger] state::checked(created, checked_at, checks, started.driver@)
                &&& forall|i: int|
                    0 <= i < creation.len() ==> *final((#[trigger] creation[i]).native)
                        == creation[i].after
                &&& forall|i: int|
                    0 <= i < checks.len() ==> *final((#[trigger] checks[i]).native)
                        == checks[i].after
            },
        state::secure_input_asked(started.driver@.api, *final(published_secure_input)),
        started.observed_degraded_entries == started.driver@.degraded_entries,
        exists|wakes_observed: bool|
            {
                &&& #[trigger] call_ensures(observe_wakes, (), wakes_observed)
                &&& *final(degraded_operations) == ({
                    let counted = channel::joined(
                        *old(degraded_operations),
                        started.driver@.degraded_entries,
                    );
                    if wakes_observed {
                        counted
                    } else {
                        channel::next_count(counted)
                    }
                })
                &&& started.degraded == (!wakes_observed
                    || started.driver@.lifecycle.state is Degraded)
            },
{
    let created_at = read_now();
    let mut driver = Driver::start(api, created_at);
    let checked_at = read_now();
    driver.watchdog(checked_at);
    refresh_secure_input(&mut driver, published_secure_input);
    let mut observed_degraded_entries: u64 = 0;
    record_degraded_entries(&driver, &mut observed_degraded_entries, degraded_operations);
    let wakes_observed = observe_wakes();
    if !wakes_observed {
        *degraded_operations = count_up(*degraded_operations);
    }
    let degraded = current_health(&driver, !wakes_observed);
    StartedTap { driver, observed_degraded_entries, degraded }
}

/// An event is handled at the moment its own reading tells, under the conditions of its batch.
pub proof fn law_moments_join_reading_and_conditions(
    conditions: BatchConditions,
    reading: EventReading,
)
    ensures
        moment_of(conditions, reading).at == reading.at,
        moment_of(conditions, reading).ime_active == reading.ime_active,
        moment_of(conditions, reading).now == conditions.now,
        moment_of(conditions, reading).capture_text_content == conditions.capture_text_content,
        moment_of(conditions, reading).secure_input_enabled == conditions.secure_input_enabled,
{
}

/// A batch without events changes nothing and goes on. A batch of one event handles that event alone, at a
/// moment read for it, on the focus and policy that were handed in; it goes on as the worker does.
pub proof fn law_batches_handle_their_events<
    A: EventTapApi,
    P: Copy + FnOnce(bool) -> PasteboardContent,
    M: Fn() -> EventReading,
>(
    events: Vec<NativeEvent>,
    driver: Subject<Driver<A>>,
    worker: Subject<WorkerState>,
    conditions: BatchConditions,
    read_pasteboard: P,
    read_event: &M,
    context: Option<&NativeContext>,
    policy: &CapturePolicy,
    focus_context: &FocusContext,
    continues: bool,
)
    requires
        worker.on@.wf(),
        call_ensures(
            handle_events::<A, P, M>,
            (
                events,
                driver.on,
                worker.on,
                conditions,
                read_pasteboard,
                read_event,
                context,
                policy,
                focus_context,
            ),
            continues,
        ),
    ensures
        events@.len() == 0 ==> continues && final(worker.on)@ == old(worker.on)@ && final(driver.on)@
            == old(driver.on)@,
        events@.len() == 1 ==> exists|reading: EventReading|
            {
                &&& #[trigger] call_ensures(*read_event, (), reading)
                &&& old(worker.on)@.handled(
                    events@[0],
                    (WorkerMoment {
                        capture_text_content: conditions.capture_text_content,
                        now: conditions.now,
                        at: reading.at,
                        ime_active: reading.ime_active,
                        secure_input_enabled: conditions.secure_input_enabled,
                    }),
                    match context {
                        Some(context) => Some(*context),
                        None => None,
                    },
                    *policy,
                    focus_context@,
                    read_pasteboard,
                    final(worker.on)@,
                    continues,
                )
            },
{
    let before = RoundModel { tap: driver.on@, worker: worker.on@ };
    let after = RoundModel { tap: final(driver.on)@, worker: final(worker.on)@ };
    let batch = batch_model(conditions, context, *policy, focus_context@);
    let calls = choose|calls: Seq<NativeCall<A>>|
        {
            &&& #[trigger] batch_handled(
                before,
                events@,
                batch,
                read_pasteboard,
                *read_event,
                calls,
                after,
                continues,
            )
            &&& forall|i: int|
                0 <= i < calls.len() ==> *final((#[trigger] calls[i]).native) == calls[i].after
        };
    reveal_with_fuel(events_handled, 2);
    if events@.len() == 1 {
        if continues {
            let (earlier, mid, reading, last) = choose|
                earlier: Seq<NativeCall<A>>,
                mid: RoundModel<A>,
                reading: EventReading,
                last: Seq<NativeCall<A>>,
            |
                {
                    &&& calls == #[trigger] earlier.add(last)
                    &&& events_handled(
                        before,
                        events@,
                        0,
                        batch,
                        read_pasteboard,
                        *read_event,
                        earlier,
                        mid,
                    )
                    &&& #[trigger] event_handled(
                        mid,
                        events@[0],
                        reading,
                        batch,
                        read_pasteboard,
                        *read_event,
                        last,
                        after,
                        true,
                    )
                };
            assert(mid == before);
            assert(call_ensures(*read_event, (), reading));
        } else {
            let (count, earlier, mid, reading, last) = choose|
                count: nat,
                earlier: Seq<NativeCall<A>>,
                mid: RoundModel<A>,
                reading: EventReading,
                last: Seq<NativeCall<A>>,
            |
                {
                    &&& count < events@.len()
                    &&& calls == earlier + last
                    &&& #[trigger] events_handled(
                        before,
                        events@,
                        count,
                        batch,
                        read_pasteboard,
                        *read_event,
                        earlier,
                        mid,
                    )
                    &&& #[trigger] event_handled(
                        mid,
                        events@[count as int],
                        reading,
                        batch,
                        read_pasteboard,
                        *read_event,
                        last,
                        after,
                        false,
                    )
                };
            assert(count == 0);
            assert(mid == before);
            assert(call_ensures(*read_event, (), reading));
        }
    }
}

/// A round that begins sends what was released and then asks for secure input. Where the consumer is gone and
/// something was to be sent, the round does not go on and nothing is asked. Without a clipboard to follow it goes
/// on with nothing else changed.
pub proof fn law_rounds_begin_with_what_was_released<
    A: EventTapApi,
    C: FnOnce() -> i64,
    T: FnOnce() -> ClipboardObservationTime,
    P: FnOnce(bool) -> PasteboardContent,
>(
    driver: Subject<Driver<A>>,
    worker: Subject<WorkerState>,
    released: Vec<ReleasedEvent>,
    published: Subject<bool>,
    read_change_count: C,
    read_time: T,
    read_pasteboard: P,
    policy: &CapturePolicy,
    focus_context: &FocusContext,
    continues: bool,
)
    requires
        worker.on@.wf(),
        call_ensures(
            begin_round::<A, C, T, P>,
            (
                driver.on,
                worker.on,
                released,
                published.on,
                read_change_count,
                read_time,
                read_pasteboard,
                policy,
                focus_context,
            ),
            continues,
        ),
        worker.on@.output.dropped < u64::MAX,
    ensures
        final(driver.on)@ == old(driver.on)@,
        !old(worker.on)@.output.sender.connected && released@.len() > 0 ==> !continues
            && final(worker.on)@.output.dropped == old(worker.on)@.output.dropped + 1
            && final(worker.on)@.output.sender == old(worker.on)@.output.sender && *final(published.on)
            == *old(published.on),
        old(worker.on)@.output.sender.connected || released@.len() == 0 ==> state::secure_input_asked(
            old(driver.on)@.api,
            *final(published.on),
        ),
        old(worker.on)@.clipboard is None && (old(worker.on)@.output.sender.connected || released@.len() == 0)
            ==> continues,
        old(worker.on)@.clipboard is None && released@.len() == 0 ==> final(worker.on)@ == old(worker.on)@,
        old(worker.on)@.clipboard is None && old(worker.on)@.output.sender.connected && released@.len() == 1
            && old(worker.on)@.output.sender.items.len() < old(worker.on)@.output.sender.capacity
            ==> final(worker.on)@.output.sender.items.len() == old(worker.on)@.output.sender.items.len() + 1
            && final(worker.on)@.output.dropped == old(worker.on)@.output.dropped,
{
    reveal_with_fuel(output::offered_all, 2);
    reveal_with_fuel(output::lost_all, 2);
}

/// The focus is looked up for a batch exactly where an event needs it, any but a disabled tap, or a copy is to be
/// told.
pub proof fn law_focus_is_looked_up_where_needed(
    worker: WorkerModel,
    events: Seq<NativeEvent>,
    change_count: i64,
    focus: FocusModel,
    index: int,
)
    ensures
        0 <= index < events.len() && !(events[index] is Disabled) ==> batch_focus(
            worker,
            events,
            change_count,
            focus,
        ) == focus.current,
        events.len() == 0 && worker.clipboard is None ==> batch_focus(
            worker,
            events,
            change_count,
            focus,
        ) is None,
{
}

/// A started tap counts its own failures, and one more where wake-ups cannot be observed; it is degraded then, or
/// where its lifecycle is. What it counted is noted as seen.
pub proof fn law_started_taps_count_their_failures<
    A: EventTapApi,
    N: Fn() -> MonotonicTime,
    W: FnOnce() -> bool,
>(
    api: A,
    read_now: &N,
    observe_wakes: W,
    published: Subject<bool>,
    degraded_operations: Subject<u64>,
    started: StartedTap<A>,
)
    requires
        call_ensures(
            start_tap::<A, N, W>,
            (api, read_now, observe_wakes, published.on, degraded_operations.on),
            started,
        ),
        *degraded_operations.on + started.driver@.degraded_entries < u64::MAX,
    ensures
        started.observed_degraded_entries == started.driver@.degraded_entries,
        exists|observed: bool|
            {
                &&& #[trigger] call_ensures(observe_wakes, (), observed)
                &&& *final(degraded_operations.on) == *old(degraded_operations.on)
                    + started.driver@.degraded_entries + if observed {
                    0int
                } else {
                    1
                }
                &&& started.degraded <==> !observed || started.driver@.lifecycle.state is Degraded
            },
        state::secure_input_asked(started.driver@.api, *final(published.on)),
{
}

} // verus!
