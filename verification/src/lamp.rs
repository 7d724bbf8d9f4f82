//! A lamp that can be dimmed, that fades on request, and that warms up when it is bright.
use crate::action::{
    clone_actions, complete_action, delete_action, distinct_ids, fade_href, has_action,
    is_new_fade, is_query_response, law_cancelled_action_is_gone, law_completed_fade_shows_output,
    law_delete_forgets_one, new_fade, with_first_completed, without_first, ActionName,
    ActionStatusStatus, Completion, StoredAction, StoredActionType,
};
use crate::clock::{is_rfc3339, now_utc, rfc3339, Span, Timestamp, NANOS_PER_MILLI};
use crate::fader::{
    fade_goal, fade_of, goal, law_fade_takes_the_whole_change, law_level_is_due_at_each_step,
    lemma_stepped_faders, level_at, level_steps, run_steps, Fader, MAX_LEVEL,
};
use crate::ident::{hyphenated_text, is_random, new_v4};
use crate::status_code::{BAD_REQUEST, NOT_FOUND, NO_CONTENT, OK};
use vstd::prelude::*;

verus! {

/// The brightness above which a lamp that is on warms up.
pub const WARMING_BRIGHTNESS: u8 = 50;

/// The temperature that a lamp cools down to.
pub const MIN_TEMPERATURE: u16 = 25;

/// The temperature that a lamp warms up to.
pub const MAX_TEMPERATURE: u16 = 200;

/// The highest temperature at which a lamp is not overheated.
pub const SAFE_TEMPERATURE: u16 = 100;

/// The input of a fade: the brightness to reach and the milliseconds to take.
#[derive(Clone, Copy, Debug, PartialEq, Eq)]
pub struct FadeActionInput {
    pub brightness: u8,
    pub duration: u64,
}

/// A lamp.
#[derive(Debug)]
pub struct Lamp {
    pub is_on: bool,
    pub brightness: u8,
    pub actions: Vec<StoredAction<FadeActionInput>>,
    pub temperature: u16,
    pub fader: Fader<u8, i8>,
}

/// What can be read of a lamp at once.
#[derive(Clone, Copy, Debug, PartialEq, Eq)]
pub struct Properties {
    pub brightness: u8,
    pub on: bool,
}

/// A request to a lamp.
#[derive(Clone, Copy, Debug)]
pub enum Message {
    GetProperties,
    GetBrightness,
    GetIsOn,
    SetBrightness(u8),
    SetIsOn(bool),
    GetActions,
    DeleteAction { name: ActionName, id: u128 },
    Fade { brightness: u8, time_requested: Timestamp, duration: Span },
    CompleteAction(u128),
}

/// The answer to a [`Message`].
#[derive(Debug)]
pub enum Reply {
    Properties(Properties),
    Brightness(u8),
    IsOn(bool),
    Actions(Vec<StoredAction<FadeActionInput>>),
    Removed(bool),
    Fade(StoredAction<FadeActionInput>),
}

/// Something that a lamp announces.
#[derive(Clone, Copy, Debug, PartialEq, Eq)]
#[allow(inconsistent_fields)]
pub enum Event {
    Overheated { data: u16, timestamp: Timestamp },
    Brightness { data: u8, timestamp: Timestamp },
}

/// What is to be done once a request has been served.
#[derive(Debug)]
pub struct Outcome {
    /// The answer, where the request has one.
    pub reply: Option<Reply>,
    /// The events to announce.
    pub events: Vec<Event>,
    /// The action to complete later, where the request has started one.
    pub completion: Option<Completion>,
}

/// The length of time, in whole milliseconds as far as they can be counted.
pub open spec fn counted_millis(duration: Span) -> u64 {
    let millis = duration.nanos as int / NANOS_PER_MILLI as int;
    if millis <= u64::MAX {
        millis as u64
    } else {
        u64::MAX
    }
}

impl Lamp {
    pub open spec fn wf(self) -> bool {
        self.fader.wf() && self.brightness <= MAX_LEVEL
    }

    /// The brightness from which a fade starts.
    pub open spec fn start(self) -> u8 {
        if self.is_on {
            self.brightness
        } else {
            0
        }
    }

    /// The lamp that is on at first, at half its brightness and cool.
    pub fn new() -> (lamp: Lamp)
        ensures
            lamp.is_on,
            lamp.brightness == 50,
            lamp.actions@.len() == 0,
            lamp.temperature == MIN_TEMPERATURE,
            !lamp.fader.active,
            lamp.wf(),
    {
        Lamp {
            is_on: true,
            brightness: 50,
            actions: Vec::new(),
            temperature: MIN_TEMPERATURE,
            fader: Fader::default(),
        }
    }
}

/// The request for a fade with the given input, made at the given time.
pub open spec fn fade_request(data: FadeActionInput, time_requested: Timestamp) -> Message {
    Message::Fade {
        brightness: data.brightness,
        time_requested,
        duration: Span { nanos: (data.duration * NANOS_PER_MILLI) as u128 },
    }
}

/// The request for a fade with the given input, made at the given time.
pub fn fade_requested_at(data: FadeActionInput, time_requested: Timestamp) -> (message: Message)
    ensures
        message == fade_request(data, time_requested),
{
    let FadeActionInput { brightness, duration } = data;
    Message::Fade { brightness, time_requested, duration: Span::from_millis(duration) }
}

/// The request for a fade with the given input, made now.
pub fn fade(data: FadeActionInput) -> (message: Message)
    ensures
        exists|now: Timestamp| message == #[trigger] fade_request(data, now),
{
    fade_requested_at(data, now_utc())
}

/// The temperature of a lamp after a step of ten milliseconds.
pub open spec fn warmed(is_on: bool, brightness: u8, temperature: u16) -> u16 {
    if is_on && brightness > WARMING_BRIGHTNESS {
        if temperature < MAX_TEMPERATURE {
            (temperature + 1) as u16
        } else {
            temperature
        }
    } else if temperature > MIN_TEMPERATURE {
        (temperature - 1) as u16
    } else {
        temperature
    }
}

/// What a lamp announces at `now`, after a step that has taken it to the given brightness and
/// temperature.
pub open spec fn tick_events(
    changed: bool,
    brightness: u8,
    temperature: u16,
    now: Timestamp,
) -> Seq<Event> {
    (if changed {
        seq![Event::Brightness { data: brightness, timestamp: now }]
    } else {
        seq![]
    }) + (if temperature > SAFE_TEMPERATURE {
        seq![Event::Overheated { data: temperature, timestamp: now }]
    } else {
        seq![]
    })
}

/// What the ten milliseconds up to `now` make of a lamp, and what it announces then.
pub open spec fn ticked<F: Fn(i8, u32, u32) -> i8>(
    before: Lamp,
    share: F,
    now: Timestamp,
    after: Lamp,
    events: Seq<Event>,
) -> bool {
    &&& after.is_on == before.is_on
    &&& after.actions == before.actions
    &&& after.fader == before.fader.stepped()
    &&& level_steps(before.fader, share, before.brightness, after.brightness)
    &&& after.temperature == warmed(before.is_on, after.brightness, before.temperature)
    &&& events == tick_events(
        after.brightness != before.brightness,
        after.brightness,
        after.temperature,
        now,
    )
}

impl Lamp {
    /// Warms the lamp up, or lets it cool down, for ten milliseconds. The result is its
    /// temperature, where it is overheated.
    pub fn warm(&mut self) -> (overheated: Option<u16>)
        ensures
            *final(self) == (Lamp {
                temperature: warmed(old(self).is_on, old(self).brightness, old(self).temperature),
                ..*old(self)
            }),
            overheated == if final(self).temperature > SAFE_TEMPERATURE {
                Some(final(self).temperature)
            } else {
                None
            },
    {
        if self.is_on && self.brightness > WARMING_BRIGHTNESS {
            if self.temperature < MAX_TEMPERATURE {
                self.temperature += 1;
            }
        } else if self.temperature > MIN_TEMPERATURE {
            self.temperature -= 1;
        }
        if self.temperature > SAFE_TEMPERATURE {
            Some(self.temperature)
        } else {
            None
        }
    }

    /// Takes the lamp through the ten milliseconds up to `now`, and tells what it announces.
    ///
    /// `share` works out how much of a fade is due, as for [`Fader::tick`].
    pub fn handle_tick_at<F: Fn(i8, u32, u32) -> i8>(&mut self, share: F, now: Timestamp) -> (
        events: Vec<Event>)
        requires
            old(self).wf(),
            forall|delta: i8, ticks: u32, tick: u32| #[trigger]
                call_requires(share, (delta, ticks, tick)),
        ensures
            final(self).wf(),
            ticked(*old(self), share, now, *final(self), events@),
    {
        let mut events: Vec<Event> = Vec::new();
        if self.fader.tick(&mut self.brightness, share) {
            events.push(Event::Brightness { data: self.brightness, timestamp: now });
        }
        if let Some(data) = self.warm() {
            events.push(Event::Overheated { data, timestamp: now });
        }
        assert(events@ == tick_events(
            self.brightness != old(self).brightness,
            self.brightness,
            self.temperature,
            now,
        ));
        events
    }

    /// Takes the lamp through the last ten milliseconds, and tells what it announces.
    pub fn handle_tick<F: Fn(i8, u32, u32) -> i8>(&mut self, share: F) -> (events: Vec<Event>)
        requires
            old(self).wf(),
            forall|delta: i8, ticks: u32, tick: u32| #[trigger]
                call_requires(share, (delta, ticks, tick)),
        ensures
            final(self).wf(),
            exists|now: Timestamp| #[trigger]
                ticked(*old(self), share, now, *final(self), events@),
    {
        let now = now_utc();
        self.handle_tick_at(share, now)
    }
}

/// The record of a fade and the lamp that has started it: what holds of them, where the fade was
/// served at `now` and given the identifier `id`.
pub open spec fn fade_started(
    before: Lamp,
    brightness: u8,
    time_requested: Timestamp,
    duration: Span,
    now: Timestamp,
    id: u128,
    after: Lamp,
    outcome: Outcome,
) -> bool {
    &&& outcome.reply matches Some(Reply::Fade(action))
    &&& is_new_fade(
        action,
        id,
        FadeActionInput { brightness: goal(brightness), duration: counted_millis(duration) },
        time_requested,
    )
    &&& after.is_on
    &&& after.brightness == before.start()
    &&& after.actions@ == before.actions@.push(action)
    &&& after.temperature == before.temperature
    &&& after.fader == fade_of(before.start(), goal(brightness), duration)
    &&& outcome.events@ == if before.is_on {
        seq![]
    } else {
        seq![Event::Brightness { data: 0, timestamp: now }]
    }
    &&& outcome.completion == Some(
        Completion { id, wait: duration.minus(now.since(time_requested)) },
    )
}

/// What serving a request makes of a lamp, and what is to be done then, where the clock shows
/// `now` and the next identifier is `id`.
pub open spec fn handled(
    before: Lamp,
    message: Message,
    now: Timestamp,
    id: u128,
    after: Lamp,
    outcome: Outcome,
) -> bool {
    let quiet = outcome.events@.len() == 0 && outcome.completion is None;
    match message {
        Message::GetProperties => {
            &&& after == before
            &&& outcome.reply == Some(
                Reply::Properties(Properties { brightness: before.brightness, on: before.is_on }),
            )
            &&& quiet
        },
        Message::GetBrightness => {
            &&& after == before
            &&& outcome.reply == Some(Reply::Brightness(before.brightness))
            &&& quiet
        },
        Message::GetIsOn => {
            &&& after == before
            &&& outcome.reply == Some(Reply::IsOn(before.is_on))
            &&& quiet
        },
        Message::SetBrightness(value) => if value <= MAX_LEVEL {
            &&& after == (Lamp { brightness: value, ..before })
            &&& outcome.reply is None
            &&& outcome.events@ == seq![Event::Brightness { data: value, timestamp: now }]
            &&& outcome.completion is None
        } else {
            &&& after == before
            &&& outcome.reply is None
            &&& quiet
        },
        Message::SetIsOn(value) => {
            &&& after == (Lamp { is_on: value, ..before })
            &&& outcome.reply is None
            &&& quiet
        },
        Message::GetActions => {
            &&& after == before
            &&& outcome.reply matches Some(Reply::Actions(actions))
            &&& actions@ == before.actions@
            &&& quiet
        },
        Message::DeleteAction { name: ActionName::Fade, id: deleted } => {
            &&& after == (Lamp { actions: after.actions, ..before })
            &&& without_first(before.actions@, deleted, after.actions@)
            &&& outcome.reply == Some(Reply::Removed(has_action(before.actions@, deleted)))
            &&& quiet
        },
        Message::Fade { brightness, time_requested, duration } => fade_started(
            before,
            brightness,
            time_requested,
            duration,
            now,
            id,
            after,
            outcome,
        ),
        Message::CompleteAction(done) => {
            &&& after == (Lamp { actions: after.actions, ..before })
            &&& with_first_completed(before.actions@, done, now, after.actions@)
            &&& outcome.reply is None
            &&& quiet
        },
    }
}

fn quiet(reply: Option<Reply>) -> (outcome: Outcome)
    ensures
        outcome.reply == reply,
        outcome.events@.len() == 0,
        outcome.completion is None,
{
    Outcome { reply, events: Vec::new(), completion: None }
}

impl Lamp {
    /// Serves a request for a fade at `now`, with `id` as the identifier of the fade.
    pub fn fade_at(
        &mut self,
        brightness: u8,
        time_requested: Timestamp,
        duration: Span,
        now: Timestamp,
        id: u128,
    ) -> (outcome: Outcome)
        requires
            old(self).wf(),
        ensures
            final(self).wf(),
            fade_started(
                *old(self),
                brightness,
                time_requested,
                duration,
                now,
                id,
                *final(self),
                outcome,
            ),
    {
        let fade_brightness: u8 = fade_goal(brightness);
        let wait = duration.saturating_sub(now.elapsed_since(time_requested));
        let millis: u128 = duration.as_millis();
        let output = FadeActionInput {
            brightness: fade_brightness,
            duration: if millis <= u64::MAX as u128 {
                millis as u64
            } else {
                u64::MAX
            },
        };
        let action = new_fade(id, output, time_requested);
        self.actions.push(action.clone());

        let mut events: Vec<Event> = Vec::new();
        if !self.is_on {
            self.brightness = 0;
            events.push(Event::Brightness { data: 0, timestamp: now });
            self.is_on = true;
        }
        self.fader.fade(self.brightness, fade_brightness, duration);

        Outcome {
            reply: Some(Reply::Fade(action)),
            events,
            completion: Some(Completion { id, wait }),
        }
    }

    /// Serves a request, where the clock shows `now` and the next identifier is `id`.
    pub fn handle_message_at(&mut self, message: Message, now: Timestamp, id: u128) -> (outcome:
        Outcome)
        requires
            old(self).wf(),
        ensures
            final(self).wf(),
            handled(*old(self), message, now, id, *final(self), outcome),
    {
        match message {
            Message::GetProperties => quiet(
                Some(
                    Reply::Properties(Properties { brightness: self.brightness, on: self.is_on }),
                ),
            ),
            Message::GetBrightness => quiet(Some(Reply::Brightness(self.brightness))),
            Message::GetIsOn => quiet(Some(Reply::IsOn(self.is_on))),
            Message::SetBrightness(value) => {
                if value > MAX_LEVEL {
                    return quiet(None);
                }
                self.brightness = value;
                let mut events: Vec<Event> = Vec::new();
                events.push(Event::Brightness { data: value, timestamp: now });
                Outcome { reply: None, events, completion: None }
            },
            Message::SetIsOn(value) => {
                self.is_on = value;
                quiet(None)
            },
            Message::GetActions => quiet(Some(Reply::Actions(clone_actions(&self.actions)))),
            Message::DeleteAction { name, id } => {
                let removed = delete_action(&mut self.actions, name, id);
                quiet(Some(Reply::Removed(removed)))
            },
            Message::Fade { brightness, time_requested, duration } => self.fade_at(
                brightness,
                time_requested,
                duration,
                now,
                id,
            ),
            Message::CompleteAction(id) => {
                let _ = complete_action(&mut self.actions, id, now);
                quiet(None)
            },
        }
    }

    /// Serves a request now, with a random identifier for a new action.
    pub fn handle_message(&mut self, message: Message) -> (outcome: Outcome)
        requires
            old(self).wf(),
        ensures
            final(self).wf(),
            exists|now: Timestamp, id: u128|
                is_random(id) && #[trigger] handled(
                    *old(self),
                    message,
                    now,
                    id,
                    *final(self),
                    outcome,
                ),
    {
        let now = now_utc();
        let id: u128 = new_v4();
        self.handle_message_at(message, now, id)
    }
}

/// Something that happens to a running lamp.
#[derive(Clone, Copy, Debug)]
pub enum LoopEvent {
    Message(Message),
    Tick,
    Stop,
}

/// Takes a running lamp through what happens to it. There is no outcome where the lamp stops.
pub fn handle_event<F: Fn(i8, u32, u32) -> i8>(lamp: &mut Lamp, event: LoopEvent, share: F) -> (
    outcome: Option<Outcome>)
    requires
        old(lamp).wf(),
        forall|delta: i8, ticks: u32, tick: u32| #[trigger]
            call_requires(share, (delta, ticks, tick)),
    ensures
        final(lamp).wf(),
        match event {
            LoopEvent::Message(message) => {
                &&& outcome matches Some(outcome)
                &&& exists|now: Timestamp, id: u128|
                    is_random(id) && #[trigger] handled(
                        *old(lamp),
                        message,
                        now,
                        id,
                        *final(lamp),
                        outcome,
                    )
            },
            LoopEvent::Tick => {
                &&& outcome matches Some(outcome)
                &&& outcome.reply is None
                &&& outcome.completion is None
                &&& exists|now: Timestamp| #[trigger]
                    ticked(*old(lamp), share, now, *final(lamp), outcome.events@)
            },
            LoopEvent::Stop => outcome is None && *final(lamp) == *old(lamp),
        },
{
    match event {
        LoopEvent::Message(message) => Some(lamp.handle_message(message)),
        LoopEvent::Tick => {
            let events = lamp.handle_tick(share);
            let ghost now = choose|now: Timestamp| #[trigger]
                ticked(*old(lamp), share, now, *lamp, events@);
            let outcome = Outcome { reply: None, events, completion: None };
            assert(ticked(*old(lamp), share, now, *lamp, outcome.events@));
            Some(outcome)
        },
        LoopEvent::Stop => None,
    }
}

/// The status code for a request to set the brightness, and what is asked of the lamp, where the
/// brightness is one that it can have.
pub fn put_brightness_property(value: u8) -> (response: (u16, Option<Message>))
    ensures
        response == if value <= MAX_LEVEL {
            (NO_CONTENT, Some(Message::SetBrightness(value)))
        } else {
            (BAD_REQUEST, None)
        },
{
    if value > MAX_LEVEL {
        return (BAD_REQUEST, None);
    }
    (NO_CONTENT, Some(Message::SetBrightness(value)))
}

/// An event as a subscriber gets it.
#[derive(Debug)]
pub struct Notice {
    pub event: &'static str,
    pub data: u16,
    /// When it was announced, where that can be written.
    pub id: Option<String>,
}

/// Whether a notice has the given name and data, and the given time as its identifier.
pub open spec fn is_notice(
    notice: Notice,
    event: Seq<char>,
    data: int,
    timestamp: Timestamp,
) -> bool {
    &&& notice.event@ == event
    &&& notice.data == data
    &&& is_rfc3339(notice.id, timestamp)
}

/// What a subscriber to overheating gets of an event.
pub fn handle_overheated_event(event: Event) -> (notice: Option<Notice>)
    ensures
        match event {
            Event::Overheated { data, timestamp } => notice is Some && is_notice(
                notice->0,
                "overheated"@,
                data as int,
                timestamp,
            ),
            _ => notice is None,
        },
{
    match event {
        Event::Overheated { data, timestamp } => Some(
            Notice { event: "overheated", data, id: rfc3339(timestamp) },
        ),
        _ => None,
    }
}

/// What an observer of the brightness gets of an event.
pub fn handle_brightness_stream(event: Event) -> (notice: Option<Notice>)
    ensures
        match event {
            Event::Brightness { data, timestamp } => notice is Some && is_notice(
                notice->0,
                "brightness"@,
                data as int,
                timestamp,
            ),
            _ => notice is None,
        },
{
    match event {
        Event::Brightness { data, timestamp } => Some(
            Notice { event: "brightness", data: data as u16, id: rfc3339(timestamp) },
        ),
        _ => None,
    }
}

/// The temperature of a lamp stays between that of a cool lamp and that of a hot one.
pub proof fn law_temperature_stays_in_range(is_on: bool, brightness: u8, temperature: u16)
    requires
        MIN_TEMPERATURE <= temperature <= MAX_TEMPERATURE,
    ensures
        MIN_TEMPERATURE <= warmed(is_on, brightness, temperature) <= MAX_TEMPERATURE,
{
}

/// The temperature after a number of steps at the same brightness.
pub open spec fn warmed_for(is_on: bool, brightness: u8, temperature: u16, steps: nat) -> u16
    decreases steps,
{
    if steps == 0 {
        temperature
    } else {
        warmed_for(is_on, brightness, warmed(is_on, brightness, temperature), (steps - 1) as nat)
    }
}

/// A lamp that stays on and bright overheats, and gets as hot as it can: one degree per step.
pub proof fn law_bright_lamp_overheats(brightness: u8, temperature: u16, steps: nat)
    requires
        brightness > WARMING_BRIGHTNESS,
        MIN_TEMPERATURE <= temperature <= MAX_TEMPERATURE,
    ensures
        warmed_for(true, brightness, temperature, steps) == if temperature + steps
            <= MAX_TEMPERATURE {
            temperature + steps
        } else {
            MAX_TEMPERATURE as int
        },
    decreases steps,
{
    if steps > 0 {
        law_bright_lamp_overheats(
            brightness,
            warmed(true, brightness, temperature),
            (steps - 1) as nat,
        );
    }
}

/// A lamp that is off or dim cools down to the end: one degree per step.
pub proof fn law_dim_lamp_cools_down(is_on: bool, brightness: u8, temperature: u16, steps: nat)
    requires
        !is_on || brightness <= WARMING_BRIGHTNESS,
        temperature >= MIN_TEMPERATURE,
    ensures
        warmed_for(is_on, brightness, temperature, steps) == if temperature - steps
            >= MIN_TEMPERATURE {
            temperature - steps
        } else {
            MIN_TEMPERATURE as int
        },
    decreases steps,
{
    if steps > 0 {
        law_dim_lamp_cools_down(
            is_on,
            brightness,
            warmed(is_on, brightness, temperature),
            (steps - 1) as nat,
        );
    }
}

/// Whenever a request changes the brightness, the new brightness is announced.
pub proof fn law_changes_of_brightness_are_announced(
    before: Lamp,
    message: Message,
    now: Timestamp,
    id: u128,
    after: Lamp,
    outcome: Outcome,
)
    requires
        handled(before, message, now, id, after, outcome),
        after.brightness != before.brightness,
    ensures
        outcome.events@ == seq![Event::Brightness { data: after.brightness, timestamp: now }],
{
}

/// A fade that was requested and has been completed is shown with what it has led to.
pub proof fn law_completed_fade_is_shown(
    before: Lamp,
    brightness: u8,
    time_requested: Timestamp,
    duration: Span,
    started_at: Timestamp,
    id: u128,
    fading: Lamp,
    first: Outcome,
    completed_at: Timestamp,
    other_id: u128,
    after: Lamp,
    second: Outcome,
    response: (u16, Option<StoredAction<FadeActionInput>>),
)
    requires
        !has_action(before.actions@, id),
        handled(
            before,
            Message::Fade { brightness, time_requested, duration },
            started_at,
            id,
            fading,
            first,
        ),
        handled(fading, Message::CompleteAction(id), completed_at, other_id, after, second),
        is_query_response(after.actions@, id, response),
    ensures
        response.0 == OK,
        response.1 matches Some(action) && {
            let StoredActionType::Fade(shown) = action.ty;
            &&& action.id == id
            &&& shown.status == ActionStatusStatus::Completed
            &&& shown.output == Some(
                FadeActionInput {
                    brightness: goal(brightness),
                    duration: counted_millis(duration),
                },
            )
            &&& shown.error is None
            &&& shown.href is Some && shown.href->0@ == fade_href(id)
            &&& shown.time_requested == Some(time_requested)
            &&& shown.time_ended == Some(completed_at)
        },
{
    let action = first.reply->0->Fade_0;
    law_completed_fade_shows_output(
        before.actions@,
        action,
        FadeActionInput { brightness: goal(brightness), duration: counted_millis(duration) },
        time_requested,
        completed_at,
        after.actions@,
        response,
    );
}

/// A fade that was requested and has been cancelled is not found any more, and completing it does
/// nothing.
pub proof fn law_cancelled_fade_is_gone(
    before: Lamp,
    brightness: u8,
    time_requested: Timestamp,
    duration: Span,
    now: Timestamp,
    id: u128,
    fading: Lamp,
    first: Outcome,
    cancelled: Lamp,
    second: Outcome,
    after: Lamp,
    third: Outcome,
    response: (u16, Option<StoredAction<FadeActionInput>>),
)
    requires
        distinct_ids(before.actions@),
        !has_action(before.actions@, id),
        handled(
            before,
            Message::Fade { brightness, time_requested, duration },
            now,
            id,
            fading,
            first,
        ),
        handled(
            fading,
            Message::DeleteAction { name: ActionName::Fade, id },
            now,
            id,
            cancelled,
            second,
        ),
        handled(cancelled, Message::CompleteAction(id), now, id, after, third),
        is_query_response(cancelled.actions@, id, response),
    ensures
        second.reply == Some(Reply::Removed(true)),
        response.0 == NOT_FOUND,
        after.actions@ == cancelled.actions@,
{
    let all = fading.actions@;
    assert(all[before.actions@.len() as int].id == id);
    assert forall|i: int, j: int| 0 <= i < j < all.len() implies (#[trigger] all[i]).id != (
    #[trigger] all[j]).id by {
        assert(all[i] == before.actions@[i]);
    }
    law_delete_forgets_one(all, id, cancelled.actions@);
    law_cancelled_action_is_gone(all, id, cancelled.actions@, response);
}

/// No request changes the temperature of a lamp, and none leaves it in disorder or its brightness
/// out of bounds.
pub proof fn law_requests_keep_the_temperature(
    before: Lamp,
    message: Message,
    now: Timestamp,
    id: u128,
    after: Lamp,
    outcome: Outcome,
)
    requires
        before.wf(),
        handled(before, message, now, id, after, outcome),
    ensures
        after.temperature == before.temperature,
        after.wf(),
        after.brightness <= MAX_LEVEL,
{
}

/// What was written to the brightness is read back, where it is within bounds; otherwise the old
/// brightness is.
pub proof fn law_brightness_is_read_back(
    before: Lamp,
    value: u8,
    now: Timestamp,
    id: u128,
    written: Lamp,
    first: Outcome,
    after: Lamp,
    second: Outcome,
)
    requires
        handled(before, Message::SetBrightness(value), now, id, written, first),
        handled(written, Message::GetBrightness, now, id, after, second),
    ensures
        second.reply == Some(
            Reply::Brightness(
                if value <= MAX_LEVEL {
                    value
                } else {
                    before.brightness
                },
            ),
        ),
        after.is_on == before.is_on,
{
}

/// What was written to the switch is read back.
pub proof fn law_switch_is_read_back(
    before: Lamp,
    value: bool,
    now: Timestamp,
    id: u128,
    written: Lamp,
    first: Outcome,
    after: Lamp,
    second: Outcome,
)
    requires
        handled(before, Message::SetIsOn(value), now, id, written, first),
        handled(written, Message::GetIsOn, now, id, after, second),
    ensures
        second.reply == Some(Reply::IsOn(value)),
        after.brightness == before.brightness,
{
}

/// Whether tick `i` may lead from one of `lamps` to the next.
pub open spec fn tick_leads_on<F: Fn(i8, u32, u32) -> i8>(
    share: F,
    lamps: Seq<Lamp>,
    i: int,
) -> bool {
    exists|now: Timestamp, events: Seq<Event>| #[trigger]
        ticked(lamps[i], share, now, lamps[i + 1], events)
}

/// A fade leads the lamp to the brightness that was asked for, within bounds: there it is after all
/// the steps of the fade, and there it stays, whatever `share` gave.
pub proof fn law_fade_reaches_its_goal<F: Fn(i8, u32, u32) -> i8>(
    before: Lamp,
    brightness: u8,
    time_requested: Timestamp,
    duration: Span,
    now: Timestamp,
    id: u128,
    outcome: Outcome,
    share: F,
    lamps: Seq<Lamp>,
    steps: nat,
)
    requires
        before.wf(),
        steps < lamps.len(),
        fade_started(before, brightness, time_requested, duration, now, id, lamps[0], outcome),
        forall|i: int| 0 <= i < lamps.len() - 1 ==> #[trigger] tick_leads_on(share, lamps, i),
        lamps[0].fader.remaining() <= steps,
    ensures
        lamps[steps as int].brightness == goal(brightness),
        brightness <= 100 ==> lamps[steps as int].brightness == brightness,
        brightness > 100 ==> lamps[steps as int].brightness == 100,
        !lamps[steps as int].fader.active,
{
    let fader = lamps[0].fader;
    let levels = lamps.map_values(|lamp: Lamp| lamp.brightness);
    let faders = lamps.map_values(|lamp: Lamp| lamp.fader);
    assert forall|i: int| 0 <= i < faders.len() - 1 implies faders[i + 1] == (
    #[trigger] faders[i]).stepped() by {
        assert(tick_leads_on(share, lamps, i));
    }
    assert forall|i: int| 0 <= i < levels.len() - 1 implies #[trigger] run_steps(
        fader,
        share,
        levels,
        i,
    ) by {
        lemma_stepped_faders(faders, i as nat);
        assert(tick_leads_on(share, lamps, i));
    }
    lemma_stepped_faders(faders, steps);
    law_fade_takes_the_whole_change(fader, share, levels, steps);
    assert(level_at(fader.initial_level, fader.delta_level) == goal(brightness));
}

/// A fade that is requested, and completed after its wait, is neither early nor late: the wait is
/// what is left of its duration at the time it is served.
pub proof fn law_fade_ends_when_its_duration_is_over(
    duration: Span,
    time_requested: Timestamp,
    now: Timestamp,
)
    requires
        time_requested.unix_nanos <= now.unix_nanos,
        now.unix_nanos <= time_requested.unix_nanos + duration.nanos,
    ensures
        now.unix_nanos + duration.minus(now.since(time_requested)).nanos
            == time_requested.unix_nanos + duration.nanos,
{
}

/// Once as many tens of milliseconds have passed as fit into its duration, and at least one, a fade
/// has led the lamp to the brightness that was asked for, or to 100 where more was asked for.
pub proof fn law_fade_is_over_after_its_duration<F: Fn(i8, u32, u32) -> i8>(
    before: Lamp,
    brightness: u8,
    time_requested: Timestamp,
    duration: Span,
    now: Timestamp,
    id: u128,
    outcome: Outcome,
    share: F,
    lamps: Seq<Lamp>,
    steps: nat,
)
    requires
        before.wf(),
        0 < steps < lamps.len(),
        (steps + 1) * 10_000_000 > duration.nanos || (steps + 1) * 10 > u32::MAX,
        handled(
            before,
            Message::Fade { brightness, time_requested, duration },
            now,
            id,
            lamps[0],
            outcome,
        ),
        forall|i: int| 0 <= i < lamps.len() - 1 ==> #[trigger] tick_leads_on(share, lamps, i),
    ensures
        brightness <= 100 ==> lamps[steps as int].brightness == brightness,
        brightness > 100 ==> lamps[steps as int].brightness == 100,
{
    law_fade_reaches_its_goal(
        before,
        brightness,
        time_requested,
        duration,
        now,
        id,
        outcome,
        share,
        lamps,
        steps,
    );
}

/// On the way of a fade, after each step but the last, the brightness is where the fade started
/// from and what `share` gives of the missing brightness for this very step, kept from 0 to 100.
pub proof fn law_brightness_is_due_at_each_step<F: Fn(i8, u32, u32) -> i8>(
    before: Lamp,
    brightness: u8,
    time_requested: Timestamp,
    duration: Span,
    now: Timestamp,
    id: u128,
    outcome: Outcome,
    share: F,
    lamps: Seq<Lamp>,
    step: nat,
) -> (due: i8)
    requires
        before.wf(),
        brightness <= 100,
        0 < step < lamps.len(),
        (step + 1) * 10_000_000 <= duration.nanos,
        (step + 1) * 10 <= u32::MAX,
        handled(
            before,
            Message::Fade { brightness, time_requested, duration },
            now,
            id,
            lamps[0],
            outcome,
        ),
        forall|i: int| 0 <= i < lamps.len() - 1 ==> #[trigger] tick_leads_on(share, lamps, i),
    ensures
        ({
            let start = if before.is_on {
                before.brightness
            } else {
                0
            };
            &&& call_ensures(
                share,
                ((brightness - start) as i8, lamps[0].fader.ticks, step as u32),
                due,
            )
            &&& 0 <= start + due <= 100 ==> lamps[step as int].brightness == start + due
            &&& start + due < 0 ==> lamps[step as int].brightness == 0
            &&& start + due > 100 ==> lamps[step as int].brightness == 100
        }),
{
    let fader = lamps[0].fader;
    let levels = lamps.map_values(|lamp: Lamp| lamp.brightness);
    let faders = lamps.map_values(|lamp: Lamp| lamp.fader);
    assert forall|i: int| 0 <= i < faders.len() - 1 implies faders[i + 1] == (
    #[trigger] faders[i]).stepped() by {
        assert(tick_leads_on(share, lamps, i));
    }
    assert forall|i: int| 0 <= i < levels.len() - 1 implies #[trigger] run_steps(
        fader,
        share,
        levels,
        i,
    ) by {
        lemma_stepped_faders(faders, i as nat);
        assert(tick_leads_on(share, lamps, i));
    }
    law_level_is_due_at_each_step(before.start(), brightness, duration, share, levels, step)
}

/// A step of ten milliseconds leaves the switch and the actions of a lamp as they are. Whether the
/// lamp is on or off, a fade in progress comes one step closer to its end, at which the brightness
/// is what it started from and the whole change, kept from 0 to 100; before its end what `share`
/// gives for this very step is due. Without a fade in progress the brightness stays.
pub proof fn law_step_fades<F: Fn(i8, u32, u32) -> i8>(
    before: Lamp,
    share: F,
    now: Timestamp,
    after: Lamp,
    events: Seq<Event>,
)
    requires
        before.fader.tick < u32::MAX,
        before.fader.initial_level <= 100,
        ticked(before, share, now, after, events),
    ensures
        after.is_on == before.is_on,
        after.actions == before.actions,
        after.fader.initial_level == before.fader.initial_level,
        after.fader.delta_level == before.fader.delta_level,
        after.fader.ticks == before.fader.ticks,
        !before.fader.active ==> after.brightness == before.brightness && after.fader
            == before.fader,
        before.fader.active ==> {
            &&& after.fader.tick == before.fader.tick + 1
            &&& after.fader.active <==> before.fader.tick + 1 < before.fader.ticks
        },
        before.fader.active && !after.fader.active ==> {
            let sum = before.fader.initial_level + before.fader.delta_level;
            &&& 0 <= sum <= 100 ==> after.brightness == sum
            &&& sum < 0 ==> after.brightness == 0
            &&& sum > 100 ==> after.brightness == 100
        },
        after.fader.active ==> exists|due: i8|
            {
                let sum = before.fader.initial_level + due;
                &&& #[trigger] call_ensures(
                    share,
                    (before.fader.delta_level, before.fader.ticks, after.fader.tick),
                    due,
                )
                &&& 0 <= sum <= 100 ==> after.brightness == sum
                &&& sum < 0 ==> after.brightness == 0
                &&& sum > 100 ==> after.brightness == 100
            },
{
}

/// In each step a lamp that is on and brighter than 50 gets one degree warmer, up to 200 degrees,
/// and any other gets one degree cooler, down to 25; what counts is the brightness after the step.
pub proof fn law_step_warms_or_cools<F: Fn(i8, u32, u32) -> i8>(
    before: Lamp,
    share: F,
    now: Timestamp,
    after: Lamp,
    events: Seq<Event>,
)
    requires
        ticked(before, share, now, after, events),
    ensures
        before.is_on && after.brightness > 50 && before.temperature < 200 ==> after.temperature
            == before.temperature + 1,
        before.is_on && after.brightness > 50 && before.temperature >= 200 ==> after.temperature
            == before.temperature,
        !(before.is_on && after.brightness > 50) && before.temperature > 25 ==> after.temperature
            == before.temperature - 1,
        !(before.is_on && after.brightness > 50) && before.temperature <= 25 ==> after.temperature
            == before.temperature,
{
}

/// Warming by itself changes the temperature in the same way, changes nothing else, and tells the
/// temperature exactly where it is over 100 degrees.
pub proof fn law_warming_tells_of_overheating(lamp: &mut Lamp, overheated: Option<u16>)
    requires
        call_ensures(Lamp::warm, (lamp,), overheated),
    ensures
        ({
            let warms = old(lamp).is_on && old(lamp).brightness > 50;
            let (before, after) = (old(lamp).temperature, final(lamp).temperature);
            &&& warms && before < 200 ==> after == before + 1
            &&& warms && before >= 200 ==> after == before
            &&& !warms && before > 25 ==> after == before - 1
            &&& !warms && before <= 25 ==> after == before
            &&& overheated is Some <==> after > 100
            &&& overheated matches Some(temperature) ==> temperature == after
        }),
        final(lamp).is_on == old(lamp).is_on,
        final(lamp).brightness == old(lamp).brightness,
        final(lamp).actions == old(lamp).actions,
        final(lamp).fader == old(lamp).fader,
{
}

/// What a step announces, it announces at its time: the new brightness exactly where it has
/// changed, and then the new temperature exactly where it is over 100 degrees.
pub proof fn law_step_announces_what_is_new<F: Fn(i8, u32, u32) -> i8>(
    before: Lamp,
    share: F,
    now: Timestamp,
    after: Lamp,
    events: Seq<Event>,
)
    requires
        ticked(before, share, now, after, events),
    ensures
        ({
            let brightness = Event::Brightness { data: after.brightness, timestamp: now };
            let overheated = Event::Overheated { data: after.temperature, timestamp: now };
            let changed = after.brightness != before.brightness;
            let hot = after.temperature > 100;
            &&& changed && hot ==> events == seq![brightness, overheated]
            &&& changed && !hot ==> events == seq![brightness]
            &&& !changed && hot ==> events == seq![overheated]
            &&& !changed && !hot ==> events.len() == 0
        }),
{
}

/// A fade turns the lamp on, and starts from its brightness where it was on and from 0 otherwise,
/// which is then announced. It is for the brightness that was asked for, or 100 where more was
/// asked for, and takes as many steps as whole tens of milliseconds fit into its duration.
pub proof fn law_fade_turns_the_lamp_on(
    before: Lamp,
    brightness: u8,
    time_requested: Timestamp,
    duration: Span,
    now: Timestamp,
    id: u128,
    after: Lamp,
    outcome: Outcome,
)
    requires
        before.brightness <= 100,
        handled(
            before,
            Message::Fade { brightness, time_requested, duration },
            now,
            id,
            after,
            outcome,
        ),
    ensures
        after.is_on,
        before.is_on ==> after.brightness == before.brightness && outcome.events@.len() == 0,
        !before.is_on ==> after.brightness == 0 && outcome.events@ == seq![
            Event::Brightness { data: 0, timestamp: now },
        ],
        after.temperature == before.temperature,
        after.fader.active,
        after.fader.tick == 0,
        after.fader.initial_level == after.brightness,
        brightness <= 100 ==> after.fader.initial_level + after.fader.delta_level == brightness,
        brightness > 100 ==> after.fader.initial_level + after.fader.delta_level == 100,
        after.fader.ticks * 10_000_000 <= duration.nanos,
        after.fader.ticks * 10 <= u32::MAX,
        (after.fader.ticks + 1) * 10_000_000 > duration.nanos || (after.fader.ticks + 1) * 10
            > u32::MAX,
{
}

/// A fade is recorded after the actions before it, under its identifier and as pending, with what
/// it is to lead to: the brightness, and the whole milliseconds that it takes as far as they can be
/// counted. What is recorded is what is answered.
pub proof fn law_fade_is_recorded(
    before: Lamp,
    brightness: u8,
    time_requested: Timestamp,
    duration: Span,
    now: Timestamp,
    id: u128,
    after: Lamp,
    outcome: Outcome,
)
    requires
        handled(
            before,
            Message::Fade { brightness, time_requested, duration },
            now,
            id,
            after,
            outcome,
        ),
    ensures
        outcome.reply matches Some(Reply::Fade(action)) && {
            let StoredActionType::Fade(fade) = action.ty;
            &&& after.actions@ == before.actions@.push(action)
            &&& action.id == id
            &&& fade.status == ActionStatusStatus::Pending
            &&& fade.time_requested == Some(time_requested)
            &&& fade.time_ended is None
            &&& fade.error is None
            &&& fade.href is Some
            &&& fade.href->0@ == "/actions/fade/"@ + hyphenated_text(id)
            &&& fade.output is Some
            &&& brightness <= 100 ==> fade.output->0.brightness == brightness
            &&& brightness > 100 ==> fade.output->0.brightness == 100
            &&& fade.output->0.duration * 1_000_000 <= duration.nanos
            &&& (fade.output->0.duration + 1) * 1_000_000 > duration.nanos
                || fade.output->0.duration == u64::MAX
        },
{
}

/// A fade is completed when its duration is over, counted from when it was requested: at once where
/// that has passed, and otherwise after what is left of it.
pub proof fn law_fade_is_completed_on_time(
    before: Lamp,
    brightness: u8,
    time_requested: Timestamp,
    duration: Span,
    now: Timestamp,
    id: u128,
    after: Lamp,
    outcome: Outcome,
)
    requires
        handled(
            before,
            Message::Fade { brightness, time_requested, duration },
            now,
            id,
            after,
            outcome,
        ),
    ensures
        outcome.completion matches Some(completion) && {
            let end = time_requested.unix_nanos + duration.nanos;
            &&& completion.id == id
            &&& time_requested.unix_nanos <= now.unix_nanos <= end ==> now.unix_nanos
                + completion.wait.nanos == end
            &&& now.unix_nanos > end ==> completion.wait.nanos == 0
            &&& now.unix_nanos < time_requested.unix_nanos ==> completion.wait == duration
        },
{
}

/// A request to read a property or the actions is answered with what the lamp has, and changes
/// nothing.
pub proof fn law_lamp_is_read(
    before: Lamp,
    message: Message,
    now: Timestamp,
    id: u128,
    after: Lamp,
    outcome: Outcome,
)
    requires
        message is GetProperties || message is GetBrightness || message is GetIsOn
            || message is GetActions,
        handled(before, message, now, id, after, outcome),
    ensures
        after == before,
        outcome.events@.len() == 0,
        outcome.completion is None,
        message is GetProperties ==> {
            &&& outcome.reply matches Some(Reply::Properties(properties))
            &&& properties.brightness == before.brightness
            &&& properties.on == before.is_on
        },
        message is GetBrightness ==> outcome.reply == Some(Reply::Brightness(before.brightness)),
        message is GetIsOn ==> outcome.reply == Some(Reply::IsOn(before.is_on)),
        message is GetActions ==> {
            &&& outcome.reply matches Some(Reply::Actions(actions))
            &&& actions@ == before.actions@
        },
{
}

/// A brightness from 0 to 100 that is written is taken over and announced, also where it was so
/// before; any other is ignored. The switch is set as was asked. Neither touches anything else of
/// the lamp, a fade in progress in particular.
pub proof fn law_lamp_is_written(
    before: Lamp,
    message: Message,
    now: Timestamp,
    id: u128,
    after: Lamp,
    outcome: Outcome,
)
    requires
        message is SetBrightness || message is SetIsOn,
        handled(before, message, now, id, after, outcome),
    ensures
        outcome.reply is None,
        outcome.completion is None,
        message matches Message::SetBrightness(value) ==> if value <= 100 {
            &&& after.brightness == value
            &&& outcome.events@ == seq![Event::Brightness { data: value, timestamp: now }]
        } else {
            after.brightness == before.brightness && outcome.events@.len() == 0
        },
        message is SetBrightness ==> after.is_on == before.is_on,
        message matches Message::SetIsOn(value) ==> after.is_on == value && outcome.events@.len()
            == 0,
        message is SetIsOn ==> after.brightness == before.brightness,
        after.actions == before.actions,
        after.temperature == before.temperature,
        after.fader == before.fader,
{
}

/// Cancelling or completing an action concerns the records only: the lamp goes on as it did, and
/// whoever cancels is told whether there was such an action.
pub proof fn law_records_do_not_touch_the_lamp(
    before: Lamp,
    message: Message,
    now: Timestamp,
    id: u128,
    after: Lamp,
    outcome: Outcome,
)
    requires
        message is DeleteAction || message is CompleteAction,
        handled(before, message, now, id, after, outcome),
    ensures
        after.is_on == before.is_on,
        after.brightness == before.brightness,
        after.temperature == before.temperature,
        after.fader == before.fader,
        outcome.events@.len() == 0,
        outcome.completion is None,
        message is DeleteAction ==> {
            &&& without_first(before.actions@, message->id, after.actions@)
            &&& outcome.reply matches Some(Reply::Removed(removed))
            &&& removed <==> exists|i: int|
                0 <= i < before.actions@.len() && (#[trigger] before.actions@[i]).id == message->id
        },
        message matches Message::CompleteAction(done) ==> outcome.reply is None
            && with_first_completed(before.actions@, done, now, after.actions@),
{
}

/// However a request reaches the lamp, it is served as it is at the time that the clock shows.
pub proof fn law_requests_are_served_alike<F: Fn(i8, u32, u32) -> i8>(
    message: Message,
    now: Timestamp,
    id: u128,
    share: F,
    at: &mut Lamp,
    outcome_at: Outcome,
    asked: &mut Lamp,
    outcome_asked: Outcome,
    running: &mut Lamp,
    outcome_running: Option<Outcome>,
)
    requires
        call_ensures(Lamp::handle_message_at, (at, message, now, id), outcome_at),
        call_ensures(Lamp::handle_message, (asked, message), outcome_asked),
        call_ensures(
            handle_event::<F>,
            (running, LoopEvent::Message(message), share),
            outcome_running,
        ),
    ensures
        handled(*old(at), message, now, id, *final(at), outcome_at),
        exists|now: Timestamp, id: u128| #[trigger]
            handled(*old(asked), message, now, id, *final(asked), outcome_asked),
        outcome_running is Some,
        exists|now: Timestamp, id: u128| #[trigger]
            handled(*old(running), message, now, id, *final(running), outcome_running->0),
{
}

/// However a step reaches the lamp, it is taken at the time that the clock shows; a running lamp
/// then has nothing to answer, and one that stops stays as it is.
pub proof fn law_steps_are_taken_alike<F: Fn(i8, u32, u32) -> i8>(
    now: Timestamp,
    share: F,
    at: &mut Lamp,
    events_at: Vec<Event>,
    ticking: &mut Lamp,
    events_ticking: Vec<Event>,
    running: &mut Lamp,
    outcome_running: Option<Outcome>,
    stopped: &mut Lamp,
    outcome_stopped: Option<Outcome>,
)
    requires
        call_ensures(Lamp::handle_tick_at::<F>, (at, share, now), events_at),
        call_ensures(Lamp::handle_tick::<F>, (ticking, share), events_ticking),
        call_ensures(handle_event::<F>, (running, LoopEvent::Tick, share), outcome_running),
        call_ensures(handle_event::<F>, (stopped, LoopEvent::Stop, share), outcome_stopped),
    ensures
        ticked(*old(at), share, now, *final(at), events_at@),
        exists|now: Timestamp| #[trigger]
            ticked(*old(ticking), share, now, *final(ticking), events_ticking@),
        outcome_running matches Some(outcome) && outcome.reply is None && outcome.completion is None,
        exists|now: Timestamp| #[trigger]
            ticked(*old(running), share, now, *final(running), outcome_running->0.events@),
        outcome_stopped is None,
        *final(stopped) == *old(stopped),
{
}

/// A brightness that is let through is asked of the lamp as it is; one over 100 is refused, and
/// asks nothing of the lamp.
pub proof fn law_brightness_out_of_bounds_is_refused(value: u8, response: (u16, Option<Message>))
    requires
        call_ensures(put_brightness_property, (value,), response),
    ensures
        value <= 100 ==> response == (204u16, Some(Message::SetBrightness(value))),
        value > 100 ==> response == (400u16, None::<Message>),
{
}

/// A request for a fade asks for the brightness and the milliseconds of its input.
pub proof fn law_fade_request_is_its_input(
    data: FadeActionInput,
    time_requested: Timestamp,
    message: Message,
    other: Message,
)
    requires
        call_ensures(fade_requested_at, (data, time_requested), message),
        call_ensures(fade, (data,), other),
    ensures
        message matches Message::Fade { brightness, time_requested: time, duration } && {
            &&& brightness == data.brightness
            &&& time == time_requested
            &&& duration.nanos == data.duration * 1_000_000
        },
        other matches Message::Fade { brightness, duration, .. } && {
            &&& brightness == data.brightness
            &&& duration.nanos == data.duration * 1_000_000
        },
{
}

/// Subscribers get what concerns them, under its name and with its data and its time, and nothing
/// else.
pub proof fn law_subscribers_get_what_concerns_them(
    event: Event,
    overheated: Option<Notice>,
    brightness: Option<Notice>,
)
    requires
        call_ensures(handle_overheated_event, (event,), overheated),
        call_ensures(handle_brightness_stream, (event,), brightness),
    ensures
        event is Overheated <==> overheated is Some,
        event is Brightness <==> brightness is Some,
        overheated matches Some(notice) ==> {
            &&& notice.event@ == "overheated"@
            &&& notice.data == event->Overheated_data
            &&& is_rfc3339(notice.id, event->Overheated_timestamp)
        },
        brightness matches Some(notice) ==> {
            &&& notice.event@ == "brightness"@
            &&& notice.data == event->Brightness_data
            &&& is_rfc3339(notice.id, event->Brightness_timestamp)
        },
{
}

} // verus!
