//! Holding a request back until the window of allowed hours is open.
//!
//! A wait polls the configuration and the clock, over and over, until one poll
//! lets the request through. What a poll finds decides which event goes out and
//! what comes next; sending the event and sleeping are left to the caller.

use crate::clock::{
    hour_at, is_unix_time, is_zone_name, named_zone_hour, read_by_clock, read_clock, shows_hour,
};
use crate::stream::{EventView, StreamEvent};
use crate::text::{
    decimal, lemma_decimals_told_apart, lemma_same_parts, optional_view, push_decimal,
};
use crate::window::InferenceWindowConfig;
use vstd::prelude::*;

verus! {

/// How long a wait sleeps between two polls, in seconds.
pub const POLL_INTERVAL_SECS: u64 = 30;

/// What comes after a poll.
#[derive(Debug, Clone, Copy, PartialEq, Eq, Structural)]
pub enum WaitAction {
    /// The request goes out.
    Proceed,
    /// The window is closed: sleep, and poll again.
    Sleep {
        /// The hour that was found to lie outside the window.
        hour: u32,
        /// How long to sleep, in seconds.
        secs: u64,
    },
}

/// The outcome of a poll.
#[derive(Debug)]
pub struct WaitStep {
    /// The event to send before anything else, if any.
    pub event: Option<StreamEvent>,
    /// What comes next.
    pub action: WaitAction,
}

/// A wait in progress.
#[derive(Debug, Clone, Copy, PartialEq, Eq, Structural)]
pub struct WindowWait {
    /// Whether someone is listening for events.
    pub listening: bool,
    /// Whether no poll has found the window closed yet.
    pub first_pause: bool,
}

/// Text of the notice that a request is held back.
pub open spec fn pause_notice(config: InferenceWindowConfig) -> Seq<char> {
    "Inference paused: outside allowed hours ("@ + decimal(config.start_hour as nat) + " to "@
        + decimal(config.end_hour as nat) + "). Re-opens at "@ + decimal(config.start_hour as nat)
        + ":00."@
}

/// The event that tells that a request is held back.
pub open spec fn paused_event(config: InferenceWindowConfig) -> EventView {
    EventView::PhaseChange { phase: "paused"@, detail: Some(pause_notice(config)) }
}

/// The event that tells that a request which was held back goes out.
pub open spec fn running_event() -> EventView {
    EventView::PhaseChange {
        phase: "running"@,
        detail: Some("Inference window opened. Resuming request..."@),
    }
}

/// A wait that has not polled yet.
pub open spec fn fresh_wait(listening: bool) -> WindowWait {
    WindowWait { listening, first_pause: true }
}

/// What comes after a poll that finds this configuration and this hour.
pub open spec fn step_action(config: InferenceWindowConfig, hour: u32) -> WaitAction {
    if config.lets_through(hour) {
        WaitAction::Proceed
    } else {
        WaitAction::Sleep { hour, secs: POLL_INTERVAL_SECS }
    }
}

/// The event that a poll gives rise to. The first poll that finds the window
/// closed announces the pause, and a poll that finds it open after that announces
/// that the request goes out. A window that is not in force gives rise to none.
pub open spec fn step_event(
    wait: WindowWait,
    config: InferenceWindowConfig,
    hour: u32,
) -> Option<EventView> {
    if !wait.listening || !config.enabled {
        None
    } else if config.in_window(hour) {
        if wait.first_pause {
            None
        } else {
            Some(running_event())
        }
    } else {
        if wait.first_pause {
            Some(paused_event(config))
        } else {
            None
        }
    }
}

/// The wait after a poll.
pub open spec fn step_state(
    wait: WindowWait,
    config: InferenceWindowConfig,
    hour: u32,
) -> WindowWait {
    WindowWait { first_pause: wait.first_pause && config.lets_through(hour), ..wait }
}

/// Whether a poll that finds this configuration and this hour takes the wait from
/// `before` to `after` with this outcome.
pub open spec fn stepped(
    before: WindowWait,
    after: WindowWait,
    config: InferenceWindowConfig,
    hour: u32,
    step: WaitStep,
) -> bool {
    &&& after == step_state(before, config, hour)
    &&& step.action == step_action(config, hour)
    &&& match step.event {
        Some(event) => step_event(before, config, hour) == Some(event@),
        None => step_event(before, config, hour) is None,
    }
}

/// The event that tells that a request is held back.
fn make_paused_event(config: &InferenceWindowConfig) -> (event: StreamEvent)
    ensures
        event@ == paused_event(*config),
{
    let mut detail = String::new();
    detail.append("Inference paused: outside allowed hours (");
    push_decimal(&mut detail, config.start_hour as u64);
    detail.append(" to ");
    push_decimal(&mut detail, config.end_hour as u64);
    detail.append("). Re-opens at ");
    push_decimal(&mut detail, config.start_hour as u64);
    detail.append(":00.");
    proof {
        assert(detail@ =~= pause_notice(*config));
    }
    StreamEvent::PhaseChange { phase: "paused".to_owned(), detail: Some(detail) }
}

/// The event that tells that a request which was held back goes out.
fn make_running_event() -> (event: StreamEvent)
    ensures
        event@ == running_event(),
{
    StreamEvent::PhaseChange {
        phase: "running".to_owned(),
        detail: Some("Inference window opened. Resuming request...".to_owned()),
    }
}

impl WindowWait {
    /// Begin a wait. Events are made only if someone is listening.
    pub fn new(listening: bool) -> (wait: WindowWait)
        ensures
            wait == fresh_wait(listening),
            wait.listening == listening,
            wait.first_pause,
    {
        WindowWait { listening, first_pause: true }
    }

    /// Poll, at the given hour.
    pub fn step_at_hour(&mut self, config: &InferenceWindowConfig, hour: u32) -> (step: WaitStep)
        ensures
            stepped(*old(self), *final(self), *config, hour, step),
    {
        if !config.enabled {
            return WaitStep { event: None, action: WaitAction::Proceed };
        }
        if config.is_allowed_hour(hour) {
            let event: Option<StreamEvent> = if !self.first_pause && self.listening {
                Some(make_running_event())
            } else {
                None
            };
            return WaitStep { event, action: WaitAction::Proceed };
        }
        let event: Option<StreamEvent> = if self.first_pause && self.listening {
            Some(make_paused_event(config))
        } else {
            None
        };
        self.first_pause = false;
        WaitStep { event, action: WaitAction::Sleep { hour, secs: POLL_INTERVAL_SECS } }
    }

    /// Poll, at the given instant in seconds since the Unix epoch. The hour is
    /// looked up only if the window is in force.
    pub fn step(&mut self, config: &InferenceWindowConfig, secs: i64) -> (step: WaitStep)
        requires
            is_unix_time(secs as int),
        ensures
            !config.enabled ==> stepped(*old(self), *final(self), *config, 0, step),
            config.enabled ==> exists|hour: u32|
                shows_hour(optional_view(config.timezone), secs as int, hour) && #[trigger] stepped(
                    *old(self),
                    *final(self),
                    *config,
                    hour,
                    step,
                ),
            config.enabled ==> (config.timezone matches Some(name) ==> is_zone_name(name@) ==> {
                &&& 0 <= named_zone_hour(name@, secs as int) < 24
                &&& stepped(
                    *old(self),
                    *final(self),
                    *config,
                    named_zone_hour(name@, secs as int) as u32,
                    step,
                )
            }),
    {
        if !config.enabled {
            return self.step_at_hour(config, 0);
        }
        let hour = hour_at(&config.timezone, secs);
        self.step_at_hour(config, hour)
    }

    /// Poll now. The clock is read only if the window is in force; it has to be set
    /// to the Unix epoch or later.
    pub fn step_now(&mut self, config: &InferenceWindowConfig) -> (step: WaitStep)
        ensures
            !config.enabled ==> stepped(*old(self), *final(self), *config, 0, step),
            config.enabled ==> exists|secs: int, hour: u32|
                read_by_clock(secs) && is_unix_time(secs) && #[trigger] shows_hour(
                    optional_view(config.timezone),
                    secs,
                    hour,
                ) && #[trigger] stepped(*old(self), *final(self), *config, hour, step),
    {
        if !config.enabled {
            return self.step_at_hour(config, 0);
        }
        let secs: i64 = read_clock();
        self.step(config, secs)
    }
}

/// What one poll of a wait finds.
pub struct Poll {
    /// The configuration at that time.
    pub config: InferenceWindowConfig,
    /// The hour at that time.
    pub hour: u32,
}

/// The wait after a sequence of polls.
pub open spec fn state_after(wait: WindowWait, polls: Seq<Poll>) -> WindowWait
    decreases polls.len(),
{
    if polls.len() == 0 {
        wait
    } else {
        step_state(
            state_after(wait, polls.drop_last()),
            polls.last().config,
            polls.last().hour,
        )
    }
}

/// The events that a sequence of polls gives rise to, in order.
pub open spec fn events_after(wait: WindowWait, polls: Seq<Poll>) -> Seq<EventView>
    decreases polls.len(),
{
    if polls.len() == 0 {
        Seq::empty()
    } else {
        let earlier = events_after(wait, polls.drop_last());
        match step_event(
            state_after(wait, polls.drop_last()),
            polls.last().config,
            polls.last().hour,
        ) {
            Some(event) => earlier.push(event),
            None => earlier,
        }
    }
}

/// Whether a sequence of polls is that of one wait: none but the last lets the
/// request through.
pub open spec fn is_one_wait(polls: Seq<Poll>) -> bool {
    &&& polls.len() > 0
    &&& forall|i: int|
        0 <= i < polls.len() - 1 ==> !(#[trigger] polls[i]).config.lets_through(polls[i].hour)
}

/// A request goes out at a poll if and only if the window is not in force or is
/// open at that hour; otherwise there is a pause before the next poll.
pub proof fn law_proceeds_only_in_window(config: InferenceWindowConfig, hour: u32)
    ensures
        step_action(config, hour) is Proceed <==> !config.enabled || config.in_window(hour),
        step_action(config, hour) !is Proceed ==> step_action(config, hour) == (WaitAction::Sleep {
            hour,
            secs: 30,
        }),
{
}

/// While the window is closed, the events of a wait are the one that tells of the
/// pause, with the hours that the first poll found.
proof fn lemma_events_while_closed(polls: Seq<Poll>)
    requires
        polls.len() > 0,
        forall|i: int|
            0 <= i < polls.len() ==> !(#[trigger] polls[i]).config.lets_through(polls[i].hour),
    ensures
        !state_after(fresh_wait(true), polls).first_pause,
        state_after(fresh_wait(true), polls).listening,
        events_after(fresh_wait(true), polls) == seq![paused_event(polls[0].config)],
    decreases polls.len(),
{
    let earlier = polls.drop_last();
    assert(!polls[polls.len() - 1].config.lets_through(polls[polls.len() - 1].hour));
    reveal_with_fuel(state_after, 2);
    reveal_with_fuel(events_after, 2);
    if earlier.len() > 0 {
        assert forall|i: int| 0 <= i < earlier.len() implies !(
        #[trigger] earlier[i]).config.lets_through(earlier[i].hour) by {
            assert(earlier[i] == polls[i]);
        }
        lemma_events_while_closed(earlier);
        assert(earlier[0] == polls[0]);
    } else {
        assert(events_after(fresh_wait(true), polls) =~= seq![paused_event(polls[0].config)]);
    }
}

/// The events of a wait that someone listens to. A request that is let through at
/// once sends none. One that is held back sends one that tells of the pause, with
/// the hours that the first poll found, and, if the window then opens, one that
/// tells that it goes out; if the window is taken out of force instead, it goes
/// out in silence.
pub proof fn law_events_of_a_wait(polls: Seq<Poll>)
    requires
        is_one_wait(polls),
    ensures
        ({
            let last = polls.last();
            let paused = paused_event(polls[0].config);
            let held_back = polls.len() > 1 || !last.config.lets_through(last.hour);
            let opened = last.config.enabled && last.config.in_window(last.hour);
            events_after(fresh_wait(true), polls) == if !held_back {
                Seq::<EventView>::empty()
            } else if opened {
                seq![paused, running_event()]
            } else {
                seq![paused]
            }
        }),
{
    let last = polls.last();
    let earlier = polls.drop_last();
    reveal_with_fuel(state_after, 2);
    reveal_with_fuel(events_after, 2);
    if earlier.len() > 0 {
        assert forall|i: int| 0 <= i < earlier.len() implies !(
        #[trigger] earlier[i]).config.lets_through(earlier[i].hour) by {
            assert(earlier[i] == polls[i]);
        }
        lemma_events_while_closed(earlier);
        assert(earlier[0] == polls[0]);
        assert(seq![paused_event(polls[0].config)].push(running_event()) =~= seq![
            paused_event(polls[0].config),
            running_event(),
        ]);
    } else {
        assert(polls[0] == last);
        assert(Seq::<EventView>::empty().push(paused_event(polls[0].config)) =~= seq![
            paused_event(polls[0].config),
        ]);
    }
}

/// A wait that nobody listens to sends no event.
pub proof fn law_silent_without_listener(wait: WindowWait, polls: Seq<Poll>)
    requires
        !wait.listening,
    ensures
        events_after(wait, polls).len() == 0,
        !state_after(wait, polls).listening,
    decreases polls.len(),
{
    if polls.len() > 0 {
        law_silent_without_listener(wait, polls.drop_last());
    }
}

/// Whether two configurations are the same but, possibly, for the time zone.
pub open spec fn same_but_zone(first: InferenceWindowConfig, second: InferenceWindowConfig) -> bool {
    &&& first.enabled == second.enabled
    &&& first.start_hour == second.start_hour
    &&& first.end_hour == second.end_hour
}

/// The time zone has a say in a wait only through the hours that polls find: two
/// waits that find the same hours, under configurations that differ at most in the
/// zone, go the same way.
pub proof fn law_zone_only_sets_the_hour(wait: WindowWait, first: Seq<Poll>, second: Seq<Poll>)
    requires
        first.len() == second.len(),
        forall|i: int|
            0 <= i < first.len() ==> same_but_zone(
                (#[trigger] first[i]).config,
                second[i].config,
            ) && first[i].hour == second[i].hour,
    ensures
        state_after(wait, first) == state_after(wait, second),
        events_after(wait, first) == events_after(wait, second),
        forall|i: int|
            0 <= i < first.len() ==> step_action((#[trigger] first[i]).config, first[i].hour)
                == step_action(second[i].config, second[i].hour),
        is_one_wait(first) <==> is_one_wait(second),
    decreases first.len(),
{
    if first.len() > 0 {
        let before = first.drop_last();
        let other = second.drop_last();
        assert forall|i: int| 0 <= i < before.len() implies same_but_zone(
            (#[trigger] before[i]).config,
            other[i].config,
        ) && before[i].hour == other[i].hour by {
            assert(before[i] == first[i]);
        }
        law_zone_only_sets_the_hour(wait, before, other);
        assert(same_but_zone(first[first.len() - 1].config, second.last().config));
        assert forall|i: int| 0 <= i < first.len() implies (
        #[trigger] first[i]).config.lets_through(first[i].hour) == second[i].config.lets_through(
            second[i].hour,
        ) by {}
        if is_one_wait(first) {
            assert forall|i: int| 0 <= i < second.len() - 1 implies !(
            #[trigger] second[i]).config.lets_through(second[i].hour) by {
                assert(!first[i].config.lets_through(first[i].hour));
            }
        }
    }
}

/// A name that no time zone has counts as no name at all. At every instant it
/// leaves the same hours possible, those of the machine, and two waits that find
/// the same hours, one under such names and one under none, go the same way.
pub proof fn law_unknown_zone_is_no_zone(wait: WindowWait, first: Seq<Poll>, second: Seq<Poll>)
    requires
        first.len() == second.len(),
        forall|i: int|
            0 <= i < first.len() ==> {
                &&& (#[trigger] first[i]).config.timezone matches Some(name) && !is_zone_name(name@)
                &&& second[i].config.timezone is None
                &&& same_but_zone(first[i].config, second[i].config)
                &&& first[i].hour == second[i].hour
            },
    ensures
        forall|i: int, secs: int, hour: u32|
            0 <= i < first.len() ==> (#[trigger] shows_hour(
                optional_view(first[i].config.timezone),
                secs,
                hour,
            ) <==> shows_hour(optional_view(second[i].config.timezone), secs, hour)),
        state_after(wait, first) == state_after(wait, second),
        events_after(wait, first) == events_after(wait, second),
        forall|i: int|
            0 <= i < first.len() ==> step_action((#[trigger] first[i]).config, first[i].hour)
                == step_action(second[i].config, second[i].hour),
        is_one_wait(first) <==> is_one_wait(second),
{
    law_zone_only_sets_the_hour(wait, first, second);
}

/// What a poll does, told without the workings of a wait. The request goes out if
/// the window is not in force or is open; else it sleeps for half a minute, and the
/// wait has its first pause behind it. A listener hears of a window in force that
/// is found closed for the first time, and of one that is found open after that,
/// and of nothing else.
pub proof fn law_what_a_poll_does(
    before: WindowWait,
    after: WindowWait,
    config: InferenceWindowConfig,
    hour: u32,
    step: WaitStep,
)
    requires
        stepped(before, after, config, hour, step),
    ensures
        step.action is Proceed <==> !config.enabled || config.in_window(hour),
        step.action matches WaitAction::Sleep { hour: found, secs } ==> found == hour && secs == 30,
        after.listening == before.listening,
        step.action is Proceed ==> after == before,
        step.action is Sleep ==> !after.first_pause,
        step.event is Some <==> {
            &&& before.listening
            &&& config.enabled
            &&& config.in_window(hour) <==> !before.first_pause
        },
        step.event is Some && step.action is Sleep ==> is_phase_change(
            step.event->0,
            "paused"@,
            pause_notice(config),
        ),
        step.event is Some && step.action is Proceed ==> is_phase_change(
            step.event->0,
            "running"@,
            "Inference window opened. Resuming request..."@,
        ),
{
}

/// Whether an event tells of this phase, with this detail.
pub open spec fn is_phase_change(event: StreamEvent, phase: Seq<char>, detail: Seq<char>) -> bool {
    event matches StreamEvent::PhaseChange { phase: name, detail: Some(text) } && name@ == phase
        && text@ == detail
}

/// Of a poll that finds the same, every outcome is the same: what a poll does is
/// settled by the wait, the configuration and the hour.
pub proof fn law_a_poll_is_settled(
    before: WindowWait,
    first: WindowWait,
    second: WindowWait,
    config: InferenceWindowConfig,
    hour: u32,
    one: WaitStep,
    other: WaitStep,
)
    requires
        stepped(before, first, config, hour, one),
        stepped(before, second, config, hour, other),
    ensures
        first == second,
        one.action == other.action,
        one.event is Some <==> other.event is Some,
        one.event is Some ==> one.event->0@ == other.event->0@,
{
}

/// The notice of a pause gives the hours of the window, and promises that it opens
/// again at an hour at which it is open, and closed just before unless it never
/// closes. That hour is the first of the window, also where that runs past
/// midnight.
pub proof fn law_pause_notice_promises_an_open_hour(config: InferenceWindowConfig)
    ensures
        ({
            let hours = "Inference paused: outside allowed hours ("@ + decimal(
                config.start_hour as nat,
            ) + " to "@ + decimal(config.end_hour as nat) + ")."@;
            exists|opens: u32|
                {
                    &&& pause_notice(config) == hours + (" Re-opens at "@ + #[trigger] decimal(
                        opens as nat,
                    ) + ":00."@)
                    &&& opens == config.start_hour
                    &&& config.in_window(opens)
                    &&& config.start_hour != config.end_hour && opens > 0 ==> !config.in_window(
                        (opens - 1) as u32,
                    )
                }
        }),
{
    reveal_strlit("). Re-opens at ");
    reveal_strlit(").");
    reveal_strlit(" Re-opens at ");
    assert("). Re-opens at "@ =~= ")."@ + " Re-opens at "@);
    let lead = "Inference paused: outside allowed hours ("@ + decimal(config.start_hour as nat)
        + " to "@ + decimal(config.end_hour as nat);
    let opens = decimal(config.start_hour as nat);
    assert(lead + (")."@ + " Re-opens at "@) + opens + ":00."@ =~= (lead + ")."@) + (
    " Re-opens at "@ + opens + ":00."@));
}

/// The notice of a pause tells windows apart: it is the same for two configurations
/// if and only if both hours are.
pub proof fn law_pause_notice_tells_windows_apart(
    left: InferenceWindowConfig,
    right: InferenceWindowConfig,
)
    ensures
        pause_notice(left) == pause_notice(right) <==> left.start_hour == right.start_hour
            && left.end_hour == right.end_hour,
{
    if pause_notice(left) == pause_notice(right) {
        let lead = "Inference paused: outside allowed hours ("@;
        let middle = " to "@;
        let after = "). Re-opens at "@;
        reveal_strlit(" to ");
        reveal_strlit("). Re-opens at ");
        let (a1, a2) = (decimal(left.start_hour as nat), decimal(right.start_hour as nat));
        let (b1, b2) = (decimal(left.end_hour as nat), decimal(right.end_hour as nat));
        let (c1, c2) = (a1 + ":00."@, a2 + ":00."@);
        assert(pause_notice(left) =~= lead + ((a1 + middle) + ((b1 + after) + c1)));
        assert(pause_notice(right) =~= lead + ((a2 + middle) + ((b2 + after) + c2)));
        lemma_same_parts(
            lead,
            (a1 + middle) + ((b1 + after) + c1),
            lead,
            (a2 + middle) + ((b2 + after) + c2),
        );
        lemma_decimals_told_apart(left.start_hour as nat, right.start_hour as nat, middle);
        lemma_same_parts(a1 + middle, (b1 + after) + c1, a2 + middle, (b2 + after) + c2);
        lemma_decimals_told_apart(left.end_hour as nat, right.end_hour as nat, after);
        lemma_same_parts(b1 + after, c1, b2 + after, c2);
    }
}

/// The events of a pause and of its end are changes of phase that say so: the first
/// with the notice of the pause, the second with the same words for every window.
pub proof fn law_phases_say_what_they_are(config: InferenceWindowConfig)
    ensures
        paused_event(config) == (EventView::PhaseChange {
            phase: "paused"@,
            detail: Some(pause_notice(config)),
        }),
        running_event() == (EventView::PhaseChange {
            phase: "running"@,
            detail: Some("Inference window opened. Resuming request..."@),
        }),
{
}

} // verus!
