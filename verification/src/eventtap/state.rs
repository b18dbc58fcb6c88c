//! Event-tap lifecycle state machine.

use vstd::prelude::*;

use crate::subject::Subject;

verus! {

/// Time between two watchdog checks, in nanoseconds.
pub const WATCHDOG_INTERVAL: u64 = 10_000_000_000;

/// Time before a failed recreation is tried again, in nanoseconds.
pub const RETRY_BACKOFF: u64 = 30_000_000_000;

/// Why a tap stopped.
#[derive(Clone, Copy, Debug, PartialEq, Eq, Structural)]
pub enum DisableReason {
    Timeout,
    UserInput,
    Watchdog,
}

/// Why a tap is being created.
#[derive(Clone, Copy, Debug, PartialEq, Eq, Structural)]
pub enum RecreateCause {
    Startup,
    Disabled(DisableReason),
    Wake,
    Retry,
}

/// Time since the worker started, in nanoseconds.
#[derive(Clone, Copy, Debug, PartialEq, Eq, PartialOrd, Ord, Structural)]
pub struct MonotonicTime {
    pub nanos: u64,
}

impl MonotonicTime {
    pub open spec fn spec_after(self, delay: u64) -> MonotonicTime {
        MonotonicTime {
            nanos: if self.nanos + delay <= u64::MAX {
                (self.nanos + delay) as u64
            } else {
                u64::MAX
            },
        }
    }

    /// The time `nanos` nanoseconds after the start.
    pub fn from_nanos(nanos: u64) -> (time: MonotonicTime)
        ensures
            time.nanos == nanos,
    {
        MonotonicTime { nanos }
    }

    /// The time `delay` nanoseconds later, or the last representable one.
    pub fn after(self, delay: u64) -> (later: MonotonicTime)
        ensures
            later == self.spec_after(delay),
    {
        MonotonicTime { nanos: self.nanos.saturating_add(delay) }
    }
}

/// Where a tap stands.
#[derive(Clone, Copy, Debug, PartialEq, Eq, Structural)]
pub enum TapState {
    Enabled,
    Disabled(DisableReason),
    Recreating(RecreateCause),
    Degraded { cause: RecreateCause, retry_at: MonotonicTime },
}

/// What the owner of a tap has to do next.
#[derive(Clone, Copy, Debug, PartialEq, Eq, Structural)]
pub enum Effect {
    Enable,
    Recreate,
}

/// What happened to a tap.
#[derive(Clone, Copy, Debug, PartialEq, Eq, Structural)]
pub enum Input {
    Disabled(DisableReason),
    Watchdog { tap_enabled: bool, secure_input: bool, now: MonotonicTime },
    Wake,
    EnableFinished { enabled: bool },
    RecreateFinished { enabled: bool, now: MonotonicTime },
    RetryDue(MonotonicTime),
}

/// The state of a tap and whether secure input was on at the last check.
#[derive(Clone, Copy, Debug, PartialEq, Eq, Structural)]
pub struct Lifecycle {
    pub state: TapState,
    pub secure_input: bool,
}

/// A degraded tap whose time has come is recreated; any other stays.
pub open spec fn retried(state: TapState, now: MonotonicTime) -> (TapState, Option<Effect>) {
    match state {
        TapState::Degraded { retry_at, .. } => if now.nanos >= retry_at.nanos {
            (TapState::Recreating(RecreateCause::Retry), Some(Effect::Recreate))
        } else {
            (state, None)
        },
        _ => (state, None),
    }
}

impl Lifecycle {
    /// The next state and what has to be done for it.
    pub open spec fn after(self, input: Input) -> (Lifecycle, Option<Effect>) {
        match input {
            Input::Disabled(reason) => if self.state is Enabled {
                (
                    Lifecycle { state: TapState::Disabled(reason), ..self },
                    Some(Effect::Enable),
                )
            } else {
                (self, None)
            },
            Input::Watchdog { tap_enabled, secure_input, now } => if tap_enabled
                || !(self.state is Enabled) {
                let (state, effect) = retried(self.state, now);
                (Lifecycle { state, secure_input }, effect)
            } else {
                (
                    Lifecycle { state: TapState::Disabled(DisableReason::Watchdog), secure_input },
                    Some(Effect::Enable),
                )
            },
            Input::Wake => (
                Lifecycle { state: TapState::Recreating(RecreateCause::Wake), ..self },
                Some(Effect::Recreate),
            ),
            Input::EnableFinished { enabled } => match self.state {
                TapState::Disabled(reason) => if enabled {
                    (Lifecycle { state: TapState::Enabled, ..self }, None)
                } else {
                    (
                        Lifecycle {
                            state: TapState::Recreating(RecreateCause::Disabled(reason)),
                            ..self
                        },
                        Some(Effect::Recreate),
                    )
                },
                _ => (self, None),
            },
            Input::RecreateFinished { enabled, now } => match self.state {
                TapState::Recreating(cause) => (
                    Lifecycle {
                        state: if enabled {
                            TapState::Enabled
                        } else {
                            TapState::Degraded { cause, retry_at: now.spec_after(RETRY_BACKOFF) }
                        },
                        ..self
                    },
                    None,
                ),
                _ => (self, None),
            },
            Input::RetryDue(now) => {
                let (state, effect) = retried(self.state, now);
                (Lifecycle { state, ..self }, effect)
            },
        }
    }

    /// A tap that has yet to be created.
    pub fn new() -> (started: (Lifecycle, Effect))
        ensures
            started.0 == (Lifecycle {
                state: TapState::Recreating(RecreateCause::Startup),
                secure_input: false,
            }),
            started.1 is Recreate,
    {
        (
            Lifecycle { state: TapState::Recreating(RecreateCause::Startup), secure_input: false },
            Effect::Recreate,
        )
    }

    /// Where the tap stands.
    pub fn state(self) -> (state: TapState)
        ensures
            state == self.state,
    {
        self.state
    }

    /// Whether secure input was on at the last check.
    pub fn secure_input(self) -> (enabled: bool)
        ensures
            enabled == self.secure_input,
    {
        self.secure_input
    }

    /// Takes in what happened and tells what has to be done.
    pub fn transition(&mut self, input: Input) -> (effect: Option<Effect>)
        ensures
            (*final(self), effect) == old(self).after(input),
    {
        match input {
            Input::Disabled(reason) => {
                if matches!(self.state, TapState::Enabled) {
                    self.state = TapState::Disabled(reason);
                    Some(Effect::Enable)
                } else {
                    None
                }
            },
            Input::Watchdog { tap_enabled, secure_input, now } => {
                self.secure_input = secure_input;
                if tap_enabled || !matches!(self.state, TapState::Enabled) {
                    self.retry_if_due(now)
                } else {
                    self.state = TapState::Disabled(DisableReason::Watchdog);
                    Some(Effect::Enable)
                }
            },
            Input::Wake => {
                self.state = TapState::Recreating(RecreateCause::Wake);
                Some(Effect::Recreate)
            },
            Input::EnableFinished { enabled } => match self.state {
                TapState::Disabled(reason) => {
                    if enabled {
                        self.state = TapState::Enabled;
                        None
                    } else {
                        self.state = TapState::Recreating(RecreateCause::Disabled(reason));
                        Some(Effect::Recreate)
                    }
                },
                _ => None,
            },
            Input::RecreateFinished { enabled, now } => {
                if let TapState::Recreating(cause) = self.state {
                    self.state =
                    if enabled {
                        TapState::Enabled
                    } else {
                        TapState::Degraded { cause, retry_at: now.after(RETRY_BACKOFF) }
                    };
                }
                None
            },
            Input::RetryDue(now) => self.retry_if_due(now),
        }
    }

    fn retry_if_due(&mut self, now: MonotonicTime) -> (effect: Option<Effect>)
        ensures
            (final(self).state, effect) == retried(old(self).state, now),
            final(self).secure_input == old(self).secure_input,
    {
        match self.state {
            TapState::Degraded { retry_at, .. } => {
                if now.nanos < retry_at.nanos {
                    None
                } else {
                    self.state = TapState::Recreating(RecreateCause::Retry);
                    Some(Effect::Recreate)
                }
            },
            _ => None,
        }
    }
}

/// The native side of a tap.
pub trait EventTapApi {
    /// Switches the existing tap on.
    fn enable(&mut self);

    /// Whether the tap delivers events.
    fn is_enabled(&self) -> bool;

    /// Creates the tap anew and tells whether that worked.
    fn recreate(&mut self) -> bool;

    /// Whether the system is in secure input.
    fn secure_input_enabled(&self) -> bool;
}

/// Whether an effect is the one that a state waits for.
pub open spec fn awaited(state: TapState, effect: Effect) -> bool {
    match effect {
        Effect::Enable => state is Disabled,
        Effect::Recreate => state is Recreating,
    }
}

/// Where a tap settles once its effects were carried out, given whether
/// enabling and recreating worked. Recreating is tried when enabling fails.
pub open spec fn settled(
    state: TapState,
    effect: Effect,
    enable_worked: bool,
    recreate_worked: bool,
    now: MonotonicTime,
) -> TapState {
    if effect is Enable && enable_worked || recreate_worked {
        TapState::Enabled
    } else {
        TapState::Degraded {
            cause: match state {
                TapState::Disabled(reason) => RecreateCause::Disabled(reason),
                TapState::Recreating(cause) => cause,
                _ => RecreateCause::Startup,
            },
            retry_at: now.spec_after(RETRY_BACKOFF),
        }
    }
}

/// Entries into the degraded state after a step.
pub open spec fn counted(entries: u64, before: TapState, after: TapState) -> u64 {
    if !(before is Degraded) && after is Degraded && entries < u64::MAX {
        (entries + 1) as u64
    } else {
        entries
    }
}

/// A call that changed the native tap: what it was asked for, the reference that
/// it was made through, whether a recreation created a tap, and the native side
/// after it.
///
/// Functions that make such calls say which ones, in their order, and of each that
/// `after` is what its reference came to hold.
pub struct NativeCall<'a, A> {
    pub effect: Effect,
    pub native: &'a mut A,
    pub created: bool,
    pub after: A,
}

/// Whether the native tap answered that it delivers events, or that it does not.
pub open spec fn delivery_asked<A: EventTapApi>(api: A, enabled: bool) -> bool {
    call_ensures(A::is_enabled, (&api,), enabled)
}

/// Whether the native side answered that the system is in secure input, or that
/// it is not.
pub open spec fn secure_input_asked<A: EventTapApi>(api: A, enabled: bool) -> bool {
    call_ensures(A::secure_input_enabled, (&api,), enabled)
}

/// Whether a call switched the native tap on, which then delivers events if it
/// `worked`.
pub open spec fn enabled_natively<A: EventTapApi>(
    before: A,
    worked: bool,
    call: NativeCall<A>,
) -> bool {
    &&& call.effect is Enable
    &&& *call.native == before
    &&& call_ensures(A::enable, (call.native,), ())
    &&& delivery_asked(call.after, worked)
}

/// Whether a call recreated the native tap. It worked if the tap was created and
/// delivers events.
pub open spec fn recreated_natively<A: EventTapApi>(
    before: A,
    worked: bool,
    call: NativeCall<A>,
) -> bool {
    &&& call.effect is Recreate
    &&& *call.native == before
    &&& call_ensures(A::recreate, (call.native,), call.created)
    &&& if call.created {
        delivery_asked(call.after, worked)
    } else {
        !worked
    }
}

/// Whether these are the native calls of an effect, from `before` to `after`, and
/// what they answered: one enabling, one recreation, or a recreation after an
/// enabling that did not work.
pub open spec fn carried_out<A: EventTapApi>(
    before: A,
    effect: Effect,
    enable_worked: bool,
    recreate_worked: bool,
    calls: Seq<NativeCall<A>>,
    after: A,
) -> bool {
    match effect {
        Effect::Enable => {
            &&& enabled_natively(before, enable_worked, calls[0])
            &&& if enable_worked {
                calls.len() == 1 && after == calls[0].after
            } else {
                &&& calls.len() == 2
                &&& recreated_natively(calls[0].after, recreate_worked, calls[1])
                &&& after == calls[1].after
            }
        },
        Effect::Recreate => {
            &&& calls.len() == 1
            &&& recreated_natively(before, recreate_worked, calls[0])
            &&& after == calls[0].after
        },
    }
}

/// A lifecycle, the native tap and the entries into the degraded state.
pub struct DriverModel<A> {
    pub lifecycle: Lifecycle,
    pub api: A,
    pub degraded_entries: u64,
}

/// Whether `after` is where a tap settles from `before` by the answers of the
/// native calls of an effect.
pub open spec fn settles<A: EventTapApi>(
    before: DriverModel<A>,
    effect: Effect,
    now: MonotonicTime,
    calls: Seq<NativeCall<A>>,
    after: DriverModel<A>,
) -> bool {
    exists|enable_worked: bool, recreate_worked: bool|
        {
            &&& #[trigger] carried_out(
                before.api,
                effect,
                enable_worked,
                recreate_worked,
                calls,
                after.api,
            )
            &&& after.lifecycle.state == settled(
                before.lifecycle.state,
                effect,
                enable_worked,
                recreate_worked,
                now,
            )
            &&& after.lifecycle.secure_input == before.lifecycle.secure_input
            &&& after.degraded_entries == counted(
                before.degraded_entries,
                before.lifecycle.state,
                after.lifecycle.state,
            )
        }
}

/// Whether `after` is a tap that was just created.
pub open spec fn started<A: EventTapApi>(
    api: A,
    now: MonotonicTime,
    calls: Seq<NativeCall<A>>,
    after: DriverModel<A>,
) -> bool {
    settles(
        DriverModel {
            lifecycle: Lifecycle {
                state: TapState::Recreating(RecreateCause::Startup),
                secure_input: false,
            },
            api,
            degraded_entries: 0,
        },
        Effect::Recreate,
        now,
        calls,
        after,
    )
}

/// A lifecycle together with the native tap that it drives.
#[derive(Debug)]
pub struct Driver<A> {
    lifecycle: Lifecycle,
    api: A,
    degraded_entries: u64,
}

impl<A> View for Driver<A> {
    type V = DriverModel<A>;

    closed spec fn view(&self) -> DriverModel<A> {
        DriverModel {
            lifecycle: self.lifecycle,
            api: self.api,
            degraded_entries: self.degraded_entries,
        }
    }
}

/// Whether `after` is what an input makes of `before`: the transition alone when
/// it asks for nothing, otherwise a settled outcome of its effect.
pub open spec fn stepped<A: EventTapApi>(
    before: DriverModel<A>,
    input: Input,
    now: MonotonicTime,
    calls: Seq<NativeCall<A>>,
    after: DriverModel<A>,
) -> bool {
    let (moved, effect) = before.lifecycle.after(input);
    let entries = counted(before.degraded_entries, before.lifecycle.state, moved.state);
    match effect {
        None => {
            &&& calls.len() == 0
            &&& after == (DriverModel { lifecycle: moved, degraded_entries: entries, ..before })
        },
        Some(effect) => settles(
            DriverModel { lifecycle: moved, degraded_entries: entries, ..before },
            effect,
            now,
            calls,
            after,
        ),
    }
}

/// Whether `after` is what a watchdog check makes of `before`: the native side is
/// asked whether the tap delivers events and whether secure input is on.
pub open spec fn checked<A: EventTapApi>(
    before: DriverModel<A>,
    now: MonotonicTime,
    calls: Seq<NativeCall<A>>,
    after: DriverModel<A>,
) -> bool {
    exists|tap_enabled: bool, secure_input: bool|
        {
            &&& delivery_asked(before.api, tap_enabled)
            &&& secure_input_asked(before.api, secure_input)
            &&& stepped(
                before,
                #[trigger] watchdog_input(tap_enabled, secure_input, now),
                now,
                calls,
                after,
            )
        }
}

impl<A: EventTapApi> Driver<A> {
    /// Creates the tap.
    pub fn start(api: A, now: MonotonicTime) -> (driver: Self)
        ensures
            exists|calls: Seq<NativeCall<A>>|
                {
                    &&& #[trigger] started(api, now, calls, driver@)
                    &&& forall|i: int|
                        0 <= i < calls.len() ==> *final((#[trigger] calls[i]).native)
                            == calls[i].after
                },
    {
        let (lifecycle, effect) = Lifecycle::new();
        let mut driver = Driver { lifecycle, api, degraded_entries: 0 };
        let ghost created = driver@;
        driver.run_effect(effect, now);
        assert(forall|calls: Seq<NativeCall<A>>| #[trigger]
            settles(created, effect, now, calls, driver@) ==> started(api, now, calls, driver@));
        driver
    }

    /// Where the tap stands.
    pub fn state(&self) -> (state: TapState)
        ensures
            state == self@.lifecycle.state,
    {
        self.lifecycle.state()
    }

    /// Whether the tap could not be recreated.
    pub fn is_degraded(&self) -> (degraded: bool)
        ensures
            degraded == (self@.lifecycle.state is Degraded),
    {
        matches!(self.state(), TapState::Degraded { .. })
    }

    /// Whether secure input was on at the last watchdog check.
    pub fn secure_input(&self) -> (enabled: bool)
        ensures
            enabled == self@.lifecycle.secure_input,
    {
        self.lifecycle.secure_input()
    }

    /// How often the tap entered the degraded state.
    pub fn degraded_entries(&self) -> (entries: u64)
        ensures
            entries == self@.degraded_entries,
    {
        self.degraded_entries
    }

    /// The native side reported that the tap stopped.
    pub fn disabled(&mut self, reason: DisableReason, now: MonotonicTime)
        ensures
            exists|calls: Seq<NativeCall<A>>|
                {
                    &&& #[trigger] stepped(
                        old(self)@,
                        Input::Disabled(reason),
                        now,
                        calls,
                        final(self)@,
                    )
                    &&& forall|i: int|
                        0 <= i < calls.len() ==> *final((#[trigger] calls[i]).native)
                            == calls[i].after
                },
    {
        self.apply(Input::Disabled(reason), now);
    }

    /// Checks the tap and remembers whether secure input is on.
    pub fn watchdog(&mut self, now: MonotonicTime)
        ensures
            exists|calls: Seq<NativeCall<A>>|
                {
                    &&& #[trigger] checked(old(self)@, now, calls, final(self)@)
                    &&& forall|i: int|
                        0 <= i < calls.len() ==> *final((#[trigger] calls[i]).native)
                            == calls[i].after
                },
    {
        let tap_enabled = self.api.is_enabled();
        let secure_input = self.api.secure_input_enabled();
        self.apply(Input::Watchdog { tap_enabled, secure_input, now }, now);
        assert(delivery_asked(old(self)@.api, tap_enabled));
        assert(secure_input_asked(old(self)@.api, secure_input));
        let ghost input = watchdog_input(tap_enabled, secure_input, now);
        assert(forall|calls: Seq<NativeCall<A>>| #[trigger]
            stepped(old(self)@, input, now, calls, self@) ==> checked(
                old(self)@,
                now,
                calls,
                self@,
            ));
    }

    /// The system woke up: the tap is recreated.
    pub fn wake(&mut self, now: MonotonicTime)
        ensures
            exists|calls: Seq<NativeCall<A>>|
                {
                    &&& #[trigger] stepped(old(self)@, Input::Wake, now, calls, final(self)@)
                    &&& forall|i: int|
                        0 <= i < calls.len() ==> *final((#[trigger] calls[i]).native)
                            == calls[i].after
                },
    {
        self.apply(Input::Wake, now);
    }

    /// Tries a degraded tap again when its time has come.
    pub fn retry(&mut self, now: MonotonicTime)
        ensures
            exists|calls: Seq<NativeCall<A>>|
                {
                    &&& #[trigger] stepped(
                        old(self)@,
                        Input::RetryDue(now),
                        now,
                        calls,
                        final(self)@,
                    )
                    &&& forall|i: int|
                        0 <= i < calls.len() ==> *final((#[trigger] calls[i]).native)
                            == calls[i].after
                },
    {
        self.apply(Input::RetryDue(now), now);
    }

    /// The native side.
    pub fn api_mut(&mut self) -> (api: &mut A)
        ensures
            *api == old(self)@.api,
            final(self)@ == (DriverModel { api: *final(api), ..old(self)@ }),
    {
        &mut self.api
    }

    fn apply(&mut self, input: Input, now: MonotonicTime)
        ensures
            exists|calls: Seq<NativeCall<A>>|
                {
                    &&& #[trigger] stepped(old(self)@, input, now, calls, final(self)@)
                    &&& forall|i: int|
                        0 <= i < calls.len() ==> *final((#[trigger] calls[i]).native)
                            == calls[i].after
                },
    {
        let next = self.transition(input);
        let ghost moved = self@;
        match next {
            Some(effect) => {
                self.run_effect(effect, now);
                assert(forall|calls: Seq<NativeCall<A>>| #[trigger]
                    settles(moved, effect, now, calls, self@) ==> stepped(
                        old(self)@,
                        input,
                        now,
                        calls,
                        self@,
                    ));
            },
            None => {
                assert(stepped(old(self)@, input, now, Seq::empty(), self@));
            },
        }
    }

    fn transition(&mut self, input: Input) -> (effect: Option<Effect>)
        ensures
            (final(self).lifecycle, effect) == old(self).lifecycle.after(input),
            final(self).api == old(self).api,
            final(self).degraded_entries == counted(
                old(self).degraded_entries,
                old(self).lifecycle.state,
                final(self).lifecycle.state,
            ),
    {
        let was_degraded = matches!(self.lifecycle.state(), TapState::Degraded { .. });
        let effect = self.lifecycle.transition(input);
        if !was_degraded && matches!(self.lifecycle.state(), TapState::Degraded { .. }) {
            self.degraded_entries = self.degraded_entries.saturating_add(1);
        }
        effect
    }

    fn run_effect(&mut self, effect: Effect, now: MonotonicTime)
        requires
            awaited(old(self).lifecycle.state, effect),
        ensures
            exists|calls: Seq<NativeCall<A>>|
                {
                    &&& #[trigger] settles(old(self)@, effect, now, calls, final(self)@)
                    &&& forall|i: int|
                        0 <= i < calls.len() ==> *final((#[trigger] calls[i]).native)
                            == calls[i].after
                },
    {
        let ghost before = self@;
        let mut next = Some(effect);
        while next.is_some()
            invariant
                awaited(before.lifecycle.state, effect),
                match next {
                    Some(pending) => {
                        &&& awaited(self.lifecycle.state, pending)
                        &&& self.degraded_entries == before.degraded_entries
                        &&& {
                            ||| pending == effect && self@ == before
                            ||| {
                                &&& effect is Enable && pending is Recreate
                                &&& exists|call: NativeCall<A>| #[trigger]
                                    enabled_natively(before.api, false, call)
                                        && *final(call.native) == call.after
                                        && call.after == self.api
                                &&& self.lifecycle == (Lifecycle {
                                    state: TapState::Recreating(
                                        RecreateCause::Disabled(before.lifecycle.state->Disabled_0),
                                    ),
                                    ..before.lifecycle
                                })
                            }
                        }
                    },
                    None => exists|calls: Seq<NativeCall<A>>|
                        {
                            &&& #[trigger] settles(before, effect, now, calls, self@)
                            &&& forall|i: int|
                                0 <= i < calls.len() ==> *final((#[trigger] calls[i]).native)
                                    == calls[i].after
                        },
                },
            decreases
                    (match next {
                        Some(Effect::Enable) => 2int,
                        Some(Effect::Recreate) => 1int,
                        None => 0int,
                    }),
        {
            let ghost tried = self.api;
            let ghost first = choose|call: NativeCall<A>| #[trigger]
                enabled_natively(before.api, false, call) && *final(call.native) == call.after
                    && call.after == tried;
            let current = next.take();
            match current {
                None => {},
                Some(Effect::Enable) => {
                    self.api.enable();
                    let ghost native = choose|native: &mut A| #[trigger]
                        call_ensures(A::enable, (native,), ()) && *native == tried
                            && *final(native) == self.api;
                    let ghost call = NativeCall {
                        effect: Effect::Enable,
                        native,
                        created: false,
                        after: self.api,
                    };
                    let enabled = self.api.is_enabled();
                    next = self.transition(Input::EnableFinished { enabled });
                    assert(enabled_natively(before.api, enabled, call));
                    assert(enabled ==> carried_out(
                        before.api,
                        effect,
                        true,
                        false,
                        seq![call],
                        self@.api,
                    ));
                    assert(enabled ==> settles(before, effect, now, seq![call], self@));
                },
                Some(Effect::Recreate) => {
                    let recreated = self.api.recreate();
                    let ghost native = choose|native: &mut A| #[trigger]
                        call_ensures(A::recreate, (native,), recreated) && *native == tried
                            && *final(native) == self.api;
                    let ghost call = NativeCall {
                        effect: Effect::Recreate,
                        native,
                        created: recreated,
                        after: self.api,
                    };
                    let enabled = recreated && self.api.is_enabled();
                    next = self.transition(Input::RecreateFinished { enabled, now });
                    let ghost calls = if effect is Recreate {
                        seq![call]
                    } else {
                        seq![first, call]
                    };
                    assert(carried_out(before.api, effect, false, enabled, calls, self@.api));
                    assert(settles(before, effect, now, calls, self@));
                },
            }
        }
    }
}

/// The input of a watchdog check.
pub open spec fn watchdog_input(
    tap_enabled: bool,
    secure_input: bool,
    now: MonotonicTime,
) -> Input {
    Input::Watchdog { tap_enabled, secure_input, now }
}

/// A transition asks only for the effect that its new state waits for, and a
/// state that waits for nothing asks for nothing.
pub proof fn law_effects_match_the_state(lifecycle: Lifecycle, input: Input)
    ensures
        lifecycle.after(input).1 matches Some(effect) ==> awaited(
            lifecycle.after(input).0.state,
            effect,
        ),
{
}

/// Carrying out effects always ends in an enabled or a degraded tap, after at
/// most one enabling and one recreation, in this order. A tap that is recreated is
/// not switched on by a call of its own.
pub proof fn law_effects_settle<A: EventTapApi>(
    before: DriverModel<A>,
    effect: Effect,
    now: MonotonicTime,
    calls: Seq<NativeCall<A>>,
    after: DriverModel<A>,
)
    requires
        awaited(before.lifecycle.state, effect),
        settles(before, effect, now, calls, after),
    ensures
        rests(after.lifecycle.state),
        1 <= calls.len() <= 2,
        calls[0].effect == effect,
        *calls[0].native == before.api,
        calls[calls.len() - 1].after == after.api,
        calls.len() == 2 ==> {
            &&& calls[0].effect is Enable
            &&& calls[1].effect is Recreate
            &&& *calls[1].native == calls[0].after
        },
        after.lifecycle.state matches TapState::Degraded { retry_at, .. } ==> retry_at
            == now.spec_after(RETRY_BACKOFF),
        after.lifecycle.secure_input == before.lifecycle.secure_input,
{
}

/// Whether a tap waits for no effect: it is enabled or degraded.
pub open spec fn rests(state: TapState) -> bool {
    state is Enabled || state is Degraded
}

/// Whether an input comes from outside, and is no answer to an effect.
pub open spec fn reported(input: Input) -> bool {
    !(input is EnableFinished || input is RecreateFinished)
}

/// A tap rests once it was started, and again after every input.
pub proof fn law_driver_rests<A: EventTapApi>(
    api: A,
    before: DriverModel<A>,
    input: Input,
    now: MonotonicTime,
    calls: Seq<NativeCall<A>>,
    after: DriverModel<A>,
)
    ensures
        started(api, now, calls, after) ==> rests(after.lifecycle.state),
        rests(before.lifecycle.state) && reported(input) && stepped(
            before,
            input,
            now,
            calls,
            after,
        ) ==> rests(after.lifecycle.state),
{
}

/// A transition enters the degraded state only when a recreation failed. Only the
/// entry is counted, by one, and the count stops at its last value.
pub proof fn law_only_an_entry_is_counted(lifecycle: Lifecycle, input: Input, entries: u64)
    ensures
        !(lifecycle.state is Degraded) && lifecycle.after(input).0.state is Degraded
            <==> lifecycle.state is Recreating && (input matches Input::RecreateFinished {
            enabled,
            ..
        } && !enabled),
        counted(entries, lifecycle.state, lifecycle.after(input).0.state) == if !(
        lifecycle.state is Degraded) && lifecycle.after(input).0.state is Degraded && entries
            < u64::MAX {
            entries + 1
        } else {
            entries as int
        },
{
}

/// Entries into the degraded state are counted one by one: by an input that leaves
/// the tap degraded after native calls, and by no other. Without such calls the
/// native side stays as it was.
pub proof fn law_degraded_entries_are_counted<A: EventTapApi>(
    before: DriverModel<A>,
    input: Input,
    now: MonotonicTime,
    calls: Seq<NativeCall<A>>,
    after: DriverModel<A>,
)
    requires
        rests(before.lifecycle.state),
        reported(input),
        stepped(before, input, now, calls, after),
    ensures
        after.degraded_entries == if calls.len() > 0 && after.lifecycle.state is Degraded
            && before.degraded_entries < u64::MAX {
            before.degraded_entries + 1
        } else {
            before.degraded_entries as int
        },
        calls.len() == 0 ==> after.api == before.api,
        calls.len() == 0 ==> after.lifecycle.state == before.lifecycle.state,
{
}

/// Whether secure input is on has no influence on the tap.
pub proof fn law_secure_input_is_orthogonal(
    state: TapState,
    input: Input,
    first: bool,
    second: bool,
)
    ensures
        (Lifecycle { state, secure_input: first }).after(input).0.state == (Lifecycle {
            state,
            secure_input: second,
        }).after(input).0.state,
        (Lifecycle { state, secure_input: first }).after(input).1 == (Lifecycle {
            state,
            secure_input: second,
        }).after(input).1,
{
}

/// A tap that is being recovered ignores further reports that it stopped, and a
/// degraded tap stays so until its time has come.
pub proof fn law_recovery_is_not_restarted(
    lifecycle: Lifecycle,
    reason: DisableReason,
    now: MonotonicTime,
)
    ensures
        !(lifecycle.state is Enabled) ==> lifecycle.after(Input::Disabled(reason)) == (
            lifecycle,
            None::<Effect>,
        ),
        lifecycle.state matches TapState::Degraded { retry_at, .. } && now.nanos < retry_at.nanos
            ==> lifecycle.after(Input::RetryDue(now)) == (lifecycle, None::<Effect>),
{
}

/// A tap that stops is switched on again, one that cannot be is recreated, and one that cannot be
/// recreated is degraded for thirty seconds. A wake-up recreates it from any state. What a tap is
/// recovered from is kept until it works.
pub proof fn law_stopped_taps_are_recovered(
    call: Subject<Lifecycle>,
    input: Input,
    effect: Option<Effect>,
)
    requires
        call_ensures(Lifecycle::transition, (call.on, input), effect),
    ensures
        input matches Input::Disabled(reason) ==> (if old(call.on).state is Enabled {
            final(call.on).state == TapState::Disabled(reason) && effect == Some(Effect::Enable)
        } else {
            final(call.on).state == old(call.on).state && effect is None
        }),
        input is Wake ==> final(call.on).state == TapState::Recreating(RecreateCause::Wake)
            && effect == Some(Effect::Recreate),
        input matches Input::EnableFinished { enabled } ==> (if old(call.on).state is Disabled {
            if enabled {
                final(call.on).state is Enabled && effect is None
            } else {
                final(call.on).state == TapState::Recreating(
                    RecreateCause::Disabled(old(call.on).state->Disabled_0),
                ) && effect == Some(Effect::Recreate)
            }
        } else {
            final(call.on).state == old(call.on).state && effect is None
        }),
        input matches Input::RecreateFinished { enabled, now } ==> {
            &&& effect is None
            &&& old(call.on).state !is Recreating ==> final(call.on).state == old(call.on).state
            &&& old(call.on).state is Recreating ==> (final(call.on).state is Enabled <==> enabled)
                && (final(call.on).state is Degraded <==> !enabled)
            &&& old(call.on).state is Recreating ==> (final(call.on).state matches
                TapState::Degraded { cause, retry_at } ==> cause
                == old(call.on).state->Recreating_0 && (now.nanos + 30_000_000_000 <= u64::MAX
                ==> retry_at.nanos == now.nanos + 30_000_000_000))
        },
        input !is Watchdog ==> final(call.on).secure_input == old(call.on).secure_input,
{
}

/// A degraded tap is recreated exactly when its time has come. The watchdog tells so too; besides
/// it finds a tap that stopped silently, and it alone takes over whether secure input is on.
pub proof fn law_degraded_taps_are_tried_again(
    call: Subject<Lifecycle>,
    input: Input,
    effect: Option<Effect>,
    now: MonotonicTime,
)
    requires
        call_ensures(Lifecycle::transition, (call.on, input), effect),
        input == Input::RetryDue(now) || (input matches Input::Watchdog { now: at, .. } && at
            == now),
    ensures
        old(call.on).state matches TapState::Degraded { retry_at, .. } ==> (effect is Some
            <==> now.nanos >= retry_at.nanos),
        old(call.on).state is Degraded && effect is Some ==> final(call.on).state
            == TapState::Recreating(RecreateCause::Retry) && effect == Some(Effect::Recreate),
        effect is None ==> final(call.on).state == old(call.on).state,
        old(call.on).state is Disabled || old(call.on).state is Recreating ==> effect is None,
        input matches Input::Watchdog { tap_enabled, secure_input, .. } ==> {
            &&& final(call.on).secure_input == secure_input
            &&& old(call.on).state is Enabled && !tap_enabled ==> final(call.on).state
                == TapState::Disabled(DisableReason::Watchdog) && effect == Some(Effect::Enable)
            &&& old(call.on).state is Enabled && tap_enabled ==> effect is None
        },
        input is RetryDue && old(call.on).state is Enabled ==> effect is None,
{
}

/// A tap starts by being created.
pub proof fn law_taps_start_by_being_created(started: (Lifecycle, Effect))
    requires
        call_ensures(Lifecycle::new, (), started),
    ensures
        started.0.state == TapState::Recreating(RecreateCause::Startup),
        started.1 is Recreate,
        !started.0.secure_input,
{
}

/// A tap ends up enabled only where it answered that it delivers events, and degraded only where
/// it could not be recreated or answered that it does not.
pub proof fn law_enabled_taps_deliver<A: EventTapApi>(
    before: DriverModel<A>,
    effect: Effect,
    now: MonotonicTime,
    calls: Seq<NativeCall<A>>,
    after: DriverModel<A>,
)
    requires
        awaited(before.lifecycle.state, effect),
        settles(before, effect, now, calls, after),
    ensures
        after.lifecycle.state is Enabled ==> delivery_asked(after.api, true),
        after.lifecycle.state is Degraded ==> calls.last().effect is Recreate && (
        !calls.last().created || delivery_asked(after.api, false)),
        after.lifecycle.state is Enabled && calls.last().effect is Recreate
            ==> calls.last().created,
{
}

/// After a wake-up, a report that it stopped or a retry a tap rests again: enabled, or degraded by
/// what it was recovered from and to be tried again in thirty seconds. A report about a tap that
/// is not enabled, and a retry before its time, change nothing.
pub proof fn law_recovered_taps_rest<A: EventTapApi>(
    woken: Subject<Driver<A>>,
    stopped: Subject<Driver<A>>,
    reason: DisableReason,
    retried: Subject<Driver<A>>,
    now: MonotonicTime,
)
    requires
        call_ensures(Driver::<A>::wake, (woken.on, now), ()),
        call_ensures(Driver::<A>::disabled, (stopped.on, reason, now), ()),
        call_ensures(Driver::<A>::retry, (retried.on, now), ()),
        now.nanos + 30_000_000_000 <= u64::MAX,
    ensures
        final(woken.on)@.lifecycle.state is Enabled || (final(woken.on)@.lifecycle.state
            matches TapState::Degraded { cause, retry_at } && cause is Wake && retry_at.nanos
            == now.nanos + 30_000_000_000),
        old(stopped.on)@.lifecycle.state is Enabled ==> final(stopped.on)@.lifecycle.state
            is Enabled || (final(stopped.on)@.lifecycle.state matches TapState::Degraded {
            cause,
            retry_at,
        } && cause == RecreateCause::Disabled(reason) && retry_at.nanos == now.nanos
            + 30_000_000_000),
        old(stopped.on)@.lifecycle.state !is Enabled ==> final(stopped.on)@ == old(stopped.on)@,
        old(retried.on)@.lifecycle.state matches TapState::Degraded { retry_at, .. } && now.nanos
            < retry_at.nanos ==> final(retried.on)@ == old(retried.on)@,
        old(retried.on)@.lifecycle.state matches TapState::Degraded { retry_at: due, .. }
            && now.nanos >= due.nanos ==> final(retried.on)@.lifecycle.state is Enabled || (
        final(retried.on)@.lifecycle.state matches TapState::Degraded { cause, retry_at }
            && cause is Retry && retry_at.nanos == now.nanos + 30_000_000_000),
{
}

} // verus!
