//! A door with a lock.
use http_api_problem::HttpApiProblem;

use crate::clock::Span;
use crate::problem::{new_problem, problem_of};
use crate::simulation::Simulation;
use crate::status_code::{BAD_REQUEST, OK};
use vstd::prelude::*;
use vstd::string::*;

verus! {

/// The position of a lock that works.
#[derive(Clone, Copy, Debug, PartialEq, Eq, Structural)]
pub enum LockNormalStatus {
    Unlocked,
    Locked,
}

impl Default for LockNormalStatus {
    fn default() -> (status: Self)
        ensures
            status == LockNormalStatus::Unlocked,
    {
        LockNormalStatus::Unlocked
    }
}

impl LockNormalStatus {
    pub open spec fn text(self) -> Seq<char> {
        match self {
            LockNormalStatus::Unlocked => "unlocked"@,
            LockNormalStatus::Locked => "locked"@,
        }
    }

    pub fn to_text(&self) -> (text: &'static str)
        ensures
            text@ == self.text(),
    {
        match self {
            LockNormalStatus::Unlocked => "unlocked",
            LockNormalStatus::Locked => "locked",
        }
    }
}

/// The state of a lock.
#[derive(Clone, Copy, Debug, PartialEq, Eq, Structural)]
pub enum LockStatus {
    Unlocked,
    Locked,
    Jammed,
}

impl Default for LockStatus {
    fn default() -> (status: Self)
        ensures
            status == LockStatus::Unlocked,
    {
        LockStatus::Unlocked
    }
}

/// The state of a lock that works and is in the given position.
pub open spec fn working_lock(status: LockNormalStatus) -> LockStatus {
    match status {
        LockNormalStatus::Locked => LockStatus::Locked,
        LockNormalStatus::Unlocked => LockStatus::Unlocked,
    }
}

impl From<LockNormalStatus> for LockStatus {
    fn from(value: LockNormalStatus) -> (status: Self) {
        match value {
            LockNormalStatus::Locked => LockStatus::Locked,
            LockNormalStatus::Unlocked => LockStatus::Unlocked,
        }
    }
}

impl vstd::std_specs::convert::FromSpecImpl<LockNormalStatus> for LockStatus {
    open spec fn obeys_from_spec() -> bool {
        true
    }

    open spec fn from_spec(value: LockNormalStatus) -> Self {
        working_lock(value)
    }
}

/// Why a lock was not turned.
#[derive(Clone, Copy, Debug, PartialEq, Eq, Structural)]
pub enum LockError {
    AlreadyInStatus(LockNormalStatus),
    Jammed,
}

impl LockError {
    pub open spec fn text(self) -> Seq<char> {
        match self {
            LockError::AlreadyInStatus(status) => "Lock status is already "@ + status.text()
                + " and it is not being changed"@,
            LockError::Jammed => "lock is jammed"@,
        }
    }

    pub fn to_text(&self) -> (text: String)
        ensures
            text@ == self.text(),
    {
        match self {
            LockError::AlreadyInStatus(status) => {
                let mut text = "Lock status is already ".to_owned();
                text.append(status.to_text());
                text.append(" and it is not being changed");
                text
            },
            LockError::Jammed => "lock is jammed".to_owned(),
        }
    }
}

impl LockStatus {
    pub open spec fn text(self) -> Seq<char> {
        match self {
            LockStatus::Unlocked => "unlocked"@,
            LockStatus::Locked => "locked"@,
            LockStatus::Jammed => "jammed"@,
        }
    }

    pub fn to_text(&self) -> (text: &'static str)
        ensures
            text@ == self.text(),
    {
        match self {
            LockStatus::Unlocked => "unlocked",
            LockStatus::Locked => "locked",
            LockStatus::Jammed => "jammed",
        }
    }

    /// What turning the lock to `target` leads to: the new state, or why it is refused.
    pub open spec fn turned(self, target: LockNormalStatus) -> Result<LockStatus, LockError> {
        if self == LockStatus::Jammed {
            Err(LockError::Jammed)
        } else if self == working_lock(target) {
            Err(LockError::AlreadyInStatus(target))
        } else {
            Ok(working_lock(target))
        }
    }

    /// Locks the lock; a refusal leaves it as it was.
    pub fn lock(&mut self) -> (result: Result<&mut Self, LockError>)
        ensures
            match result {
                Ok(lock) => {
                    &&& old(self).turned(LockNormalStatus::Locked) == Ok::<_, LockError>(*lock)
                    &&& *final(self) == *final(lock)
                },
                Err(error) => {
                    &&& old(self).turned(LockNormalStatus::Locked) == Err::<LockStatus, _>(error)
                    &&& *final(self) == *old(self)
                },
            },
    {
        match self {
            LockStatus::Unlocked => {
                *self = LockStatus::Locked;
                Ok(self)
            },
            LockStatus::Locked => Err(LockError::AlreadyInStatus(LockNormalStatus::Locked)),
            LockStatus::Jammed => Err(LockError::Jammed),
        }
    }

    /// Unlocks the lock; a refusal leaves it as it was.
    pub fn unlock(&mut self) -> (result: Result<&mut Self, LockError>)
        ensures
            match result {
                Ok(lock) => {
                    &&& old(self).turned(LockNormalStatus::Unlocked) == Ok::<_, LockError>(*lock)
                    &&& *final(self) == *final(lock)
                },
                Err(error) => {
                    &&& old(self).turned(LockNormalStatus::Unlocked) == Err::<LockStatus, _>(error)
                    &&& *final(self) == *old(self)
                },
            },
    {
        match self {
            LockStatus::Locked => {
                *self = LockStatus::Unlocked;
                Ok(self)
            },
            LockStatus::Unlocked => Err(LockError::AlreadyInStatus(LockNormalStatus::Unlocked)),
            LockStatus::Jammed => Err(LockError::Jammed),
        }
    }
}

/// Why a door was neither locked nor unlocked.
#[derive(Clone, Copy, Debug, PartialEq, Eq, Structural)]
pub enum DoorError {
    OpenDoor,
    Lock(LockError),
}

impl DoorError {
    pub open spec fn text(self) -> Seq<char> {
        match self {
            DoorError::OpenDoor => "cannot lock or unlock an open door"@,
            DoorError::Lock(error) => error.text(),
        }
    }

    pub fn to_text(&self) -> (text: String)
        ensures
            text@ == self.text(),
    {
        match self {
            DoorError::OpenDoor => "cannot lock or unlock an open door".to_owned(),
            DoorError::Lock(error) => error.to_text(),
        }
    }
}

/// What a [`Door`] holds.
pub struct DoorView {
    pub is_open: bool,
    pub lock: LockStatus,
}

/// A door with a lock.
#[derive(Clone, Copy, Debug)]
pub struct Door {
    is_open: bool,
    lock: LockStatus,
}

impl View for Door {
    type V = DoorView;

    closed spec fn view(&self) -> DoorView {
        DoorView { is_open: self.is_open, lock: self.lock }
    }
}

impl DoorView {
    /// What turning the lock of the door to `target` leads to: the new door, or why it is refused.
    pub open spec fn turned(self, target: LockNormalStatus) -> Result<DoorView, DoorError> {
        if self.is_open {
            Err(DoorError::OpenDoor)
        } else {
            match self.lock.turned(target) {
                Ok(lock) => Ok(DoorView { is_open: false, lock }),
                Err(error) => Err(DoorError::Lock(error)),
            }
        }
    }

    /// The door after an attempt to turn its lock to `target`, which may be refused.
    pub open spec fn after_turn(self, target: LockNormalStatus) -> DoorView {
        match self.turned(target) {
            Ok(door) => door,
            Err(_) => self,
        }
    }
}

impl Default for Door {
    fn default() -> (door: Self)
        ensures
            door@ == (DoorView { is_open: false, lock: LockStatus::Unlocked }),
    {
        Door { is_open: false, lock: LockStatus::Unlocked }
    }
}

impl Door {
    pub fn new(is_open: bool, lock: LockStatus) -> (door: Self)
        ensures
            door@ == (DoorView { is_open, lock }),
    {
        Door { is_open, lock }
    }

    /// Opens or closes the door, whatever the state of its lock.
    pub fn simulate_open(&mut self, is_open: bool) -> (door: &mut Self)
        ensures
            door@ == (DoorView { is_open, ..old(self)@ }),
            *final(self) == *final(door),
    {
        self.is_open = is_open;
        self
    }

    /// Puts the lock in the given state.
    pub fn simulate_lock(&mut self, lock: LockStatus) -> (door: &mut Self)
        ensures
            door@ == (DoorView { lock, ..old(self)@ }),
            *final(self) == *final(door),
    {
        self.lock = lock;
        self
    }

    /// Locks the door; a refusal leaves it as it was.
    pub fn do_lock(&mut self) -> (result: Result<&mut Self, DoorError>)
        ensures
            match result {
                Ok(door) => {
                    &&& old(self)@.turned(LockNormalStatus::Locked) == Ok::<_, DoorError>(door@)
                    &&& *final(self) == *final(door)
                },
                Err(error) => {
                    &&& old(self)@.turned(LockNormalStatus::Locked) == Err::<DoorView, _>(error)
                    &&& *final(self) == *old(self)
                },
            },
    {
        if self.is_open {
            Err(DoorError::OpenDoor)
        } else {
            match self.lock.lock() {
                Ok(_) => Ok(self),
                Err(error) => Err(DoorError::Lock(error)),
            }
        }
    }

    /// Unlocks the door; a refusal leaves it as it was.
    pub fn do_unlock(&mut self) -> (result: Result<&mut Self, DoorError>)
        ensures
            match result {
                Ok(door) => {
                    &&& old(self)@.turned(LockNormalStatus::Unlocked) == Ok::<_, DoorError>(door@)
                    &&& *final(self) == *final(door)
                },
                Err(error) => {
                    &&& old(self)@.turned(LockNormalStatus::Unlocked) == Err::<DoorView, _>(error)
                    &&& *final(self) == *old(self)
                },
            },
    {
        if self.is_open {
            Err(DoorError::OpenDoor)
        } else {
            match self.lock.unlock() {
                Ok(_) => Ok(self),
                Err(error) => Err(DoorError::Lock(error)),
            }
        }
    }

    pub fn is_open(&self) -> (is_open: bool)
        ensures
            is_open == self@.is_open,
    {
        self.is_open
    }

    pub fn lock(&self) -> (lock: LockStatus)
        ensures
            lock == self@.lock,
    {
        self.lock
    }
}

/// What a step of a door's script changes.
#[derive(Clone, Copy, Debug, PartialEq, Eq)]
pub struct SimulationStreamItem {
    pub open: Option<bool>,
    pub lock: Option<LockStatus>,
}

/// A step of a door's script.
#[derive(Clone, Copy, Debug)]
pub struct DoorSimulation {
    pub wait: Span,
    pub open: Option<bool>,
    pub lock: Option<LockStatus>,
}

impl Simulation for DoorSimulation {
    type Output = SimulationStreamItem;

    open spec fn output(self) -> SimulationStreamItem {
        SimulationStreamItem { open: self.open, lock: self.lock }
    }

    open spec fn wait(self) -> Span {
        self.wait
    }

    fn output_and_wait(self) -> (parts: (SimulationStreamItem, Span)) {
        let DoorSimulation { wait, open, lock } = self;
        (SimulationStreamItem { open, lock }, wait)
    }
}

/// What a door starts from, and its script.
#[derive(Debug)]
pub struct DoorConfig {
    pub initial: Door,
    pub simulation: Vec<DoorSimulation>,
}

/// The step of five seconds with the given effect.
pub open spec fn five_seconds(open: Option<bool>, lock: Option<LockStatus>) -> DoorSimulation {
    DoorSimulation { wait: Span { nanos: 5_000_000_000 }, open, lock }
}

impl DoorConfig {
    /// The configuration that is offered as an example: a closed, unlocked door that is opened,
    /// then closed and locked, whose lock then jams, and which is opened at last.
    pub fn example() -> (config: DoorConfig)
        ensures
            config.initial@ == (DoorView { is_open: false, lock: LockStatus::Unlocked }),
            config.simulation@ == seq![
                five_seconds(Some(true), None),
                five_seconds(Some(false), Some(LockStatus::Locked)),
                five_seconds(None, Some(LockStatus::Jammed)),
                five_seconds(Some(true), None),
            ],
    {
        let wait = Span::from_secs(5);
        DoorConfig {
            initial: Door::new(false, LockStatus::Unlocked),
            simulation: vec![
                DoorSimulation { wait, open: Some(true), lock: None },
                DoorSimulation { wait, open: Some(false), lock: Some(LockStatus::Locked) },
                DoorSimulation { wait, open: None, lock: Some(LockStatus::Jammed) },
                DoorSimulation { wait, open: Some(true), lock: None },
            ],
        }
    }
}

/// A request to a door.
#[derive(Clone, Copy, Debug)]
pub enum Message {
    GetOpen,
    GetLock,
    Lock,
    Unlock,
}

/// The answer to a [`Message`].
#[derive(Clone, Copy, Debug, PartialEq, Eq)]
pub enum Reply {
    Open(bool),
    Lock(LockStatus),
    Turned(Result<(), DoorError>),
}

/// The door after a message.
pub open spec fn door_after_message(door: DoorView, message: Message) -> DoorView {
    match message {
        Message::GetOpen | Message::GetLock => door,
        Message::Lock => door.after_turn(LockNormalStatus::Locked),
        Message::Unlock => door.after_turn(LockNormalStatus::Unlocked),
    }
}

/// Whether a lock was turned, with what that led to left out.
pub open spec fn turn_outcome(result: Result<DoorView, DoorError>) -> Result<(), DoorError> {
    match result {
        Ok(_) => Ok(()),
        Err(error) => Err(error),
    }
}

/// The reply to a message.
pub open spec fn reply_to_message(door: DoorView, message: Message) -> Reply {
    match message {
        Message::GetOpen => Reply::Open(door.is_open),
        Message::GetLock => Reply::Lock(door.lock),
        Message::Lock => Reply::Turned(turn_outcome(door.turned(LockNormalStatus::Locked))),
        Message::Unlock => Reply::Turned(turn_outcome(door.turned(LockNormalStatus::Unlocked))),
    }
}

/// Serves a request.
pub fn handle_message(message: Message, status: &mut Door) -> (reply: Reply)
    ensures
        reply == reply_to_message(old(status)@, message),
        final(status)@ == door_after_message(old(status)@, message),
{
    match message {
        Message::GetOpen => Reply::Open(status.is_open()),
        Message::GetLock => Reply::Lock(status.lock()),
        Message::Lock => match status.do_lock() {
            Ok(_) => Reply::Turned(Ok(())),
            Err(error) => Reply::Turned(Err(error)),
        },
        Message::Unlock => match status.do_unlock() {
            Ok(_) => Reply::Turned(Ok(())),
            Err(error) => Reply::Turned(Err(error)),
        },
    }
}

/// Something that happens to a running door.
#[derive(Debug)]
pub enum Event {
    Message(Message),
    Config(DoorConfig),
    NextStatus(SimulationStreamItem),
    Stop,
}

/// What is to be done after an [`Event`].
#[derive(Debug)]
pub enum Action {
    /// Wait for the next event.
    Continue,
    /// Send the reply to whoever asked, and wait for the next event.
    Reply(Reply),
    /// Follow a new script from its start, and wait for the next event.
    Restart(Vec<DoorSimulation>),
    /// Stop.
    Stop,
}

/// The door after a step of its script.
pub open spec fn door_after_step(door: DoorView, step: SimulationStreamItem) -> DoorView {
    DoorView {
        is_open: match step.open {
            Some(open) => open,
            None => door.is_open,
        },
        lock: match step.lock {
            Some(lock) => lock,
            None => door.lock,
        },
    }
}

/// Takes a running door through one event.
pub fn handle_event(event: Event, status: &mut Door) -> (action: Action)
    ensures
        match event {
            Event::Message(message) => {
                &&& action == Action::Reply(reply_to_message(old(status)@, message))
                &&& final(status)@ == door_after_message(old(status)@, message)
            },
            Event::Config(config) => {
                &&& action == Action::Restart(config.simulation)
                &&& *final(status) == config.initial
            },
            Event::NextStatus(step) => {
                &&& action == Action::Continue
                &&& final(status)@ == door_after_step(old(status)@, step)
            },
            Event::Stop => action == Action::Stop && *final(status) == *old(status),
        },
{
    match event {
        Event::Message(message) => Action::Reply(handle_message(message, status)),
        Event::Config(config) => {
            *status = config.initial;
            Action::Restart(config.simulation)
        },
        Event::NextStatus(next_status) => {
            if let Some(open) = next_status.open {
                let _ = status.simulate_open(open);
            }
            if let Some(lock) = next_status.lock {
                let _ = status.simulate_lock(lock);
            }
            Action::Continue
        },
        Event::Stop => Action::Stop,
    }
}

/// The status code and the body of the response to a request to turn the lock.
pub open spec fn turn_response(
    request: Seq<char>,
    outcome: Result<(), DoorError>,
) -> (u16, Option<HttpApiProblem>) {
    match outcome {
        Ok(()) => (OK, None),
        Err(error) => (
            BAD_REQUEST,
            Some(problem_of(BAD_REQUEST, "cannot "@ + request + " door: "@ + error.text())),
        ),
    }
}

/// The response to a request to turn the lock, where `request` says how.
fn respond(request: &str, outcome: Result<(), DoorError>) -> (response: (
    u16,
    Option<HttpApiProblem>,
))
    ensures
        response == turn_response(request@, outcome),
{
    match outcome {
        Ok(()) => (OK, None),
        Err(error) => {
            let mut title = "cannot ".to_owned();
            title.append(request);
            title.append(" door: ");
            title.append(error.to_text().as_str());
            (BAD_REQUEST, Some(new_problem(BAD_REQUEST, title)))
        },
    }
}

/// The response to a request to lock the door.
pub fn action_lock(outcome: Result<(), DoorError>) -> (response: (u16, Option<HttpApiProblem>))
    ensures
        response == turn_response("lock"@, outcome),
{
    respond("lock", outcome)
}

/// The response to a request to unlock the door.
pub fn action_unlock(outcome: Result<(), DoorError>) -> (response: (u16, Option<HttpApiProblem>))
    ensures
        response == turn_response("unlock"@, outcome),
{
    respond("unlock", outcome)
}

/// Unlocking a door that was just locked brings it back to where it was, and the other way round.
pub proof fn law_turning_back_restores(door: DoorView, target: LockNormalStatus)
    requires
        door.turned(target) is Ok,
    ensures
        ({
            let opposite = match target {
                LockNormalStatus::Locked => LockNormalStatus::Unlocked,
                LockNormalStatus::Unlocked => LockNormalStatus::Locked,
            };
            door.after_turn(target).turned(opposite) == Ok::<_, DoorError>(door)
        }),
{
}

/// Turning a lock to where it has just been turned is refused as already done.
pub proof fn law_turning_twice_is_refused(door: DoorView, target: LockNormalStatus)
    requires
        door.turned(target) is Ok,
    ensures
        door.after_turn(target).turned(target) == Err::<DoorView, _>(
            DoorError::Lock(LockError::AlreadyInStatus(target)),
        ),
{
}

/// The lock of an open door cannot be turned, and neither can a jammed one; whatever is refused
/// leaves the door as it was.
pub proof fn law_refused_turn_changes_nothing(door: DoorView, target: LockNormalStatus)
    ensures
        door.is_open ==> door.turned(target) == Err::<DoorView, _>(DoorError::OpenDoor),
        !door.is_open && door.lock == LockStatus::Jammed ==> door.turned(target) == Err::<
            DoorView,
            _,
        >(DoorError::Lock(LockError::Jammed)),
        door.turned(target) is Err ==> door.after_turn(target) == door,
{
}

/// No request opens or closes the door, and none jams its lock or frees it.
pub proof fn law_requests_only_turn_the_lock(door: DoorView, message: Message)
    ensures
        door_after_message(door, message).is_open == door.is_open,
        (door_after_message(door, message).lock == LockStatus::Jammed) <==> (door.lock
            == LockStatus::Jammed),
        door.is_open ==> door_after_message(door, message) == door,
{
}

/// A step of the script takes effect in all its parts: after it the lock is in the state and the
/// door is open or closed as it says, each regardless of the other part and of the door before, and
/// what it does not speak of stays.
pub proof fn law_step_takes_effect(step: SimulationStreamItem, door: &mut Door, action: Action)
    requires
        call_ensures(handle_event, (Event::NextStatus(step), door), action),
    ensures
        action == Action::Continue,
        step.open matches Some(open) ==> final(door)@.is_open == open,
        step.open is None ==> final(door)@.is_open == old(door)@.is_open,
        step.lock matches Some(lock) ==> final(door)@.lock == lock,
        step.lock is None ==> final(door)@.lock == old(door)@.lock,
{
}

/// A new configuration puts the door where it starts and has its script followed from the start.
pub proof fn law_configuration_restarts_the_door(
    config: DoorConfig,
    door: &mut Door,
    action: Action,
)
    requires
        call_ensures(handle_event, (Event::Config(config), door), action),
    ensures
        final(door)@ == config.initial@,
        action == Action::Restart(config.simulation),
{
}

/// A door that stops stays as it is.
pub proof fn law_door_stops(door: &mut Door, action: Action)
    requires
        call_ensures(handle_event, (Event::Stop, door), action),
    ensures
        final(door)@ == old(door)@,
        action == Action::Stop,
{
}

/// The lock of a door is turned exactly where the door is closed and its lock works and is not
/// there yet. Then the lock is where it was to be turned and the door is still closed; otherwise
/// the reason is given, that the door is open before all others, and the door stays as it was.
pub proof fn law_lock_is_turned(event: Event, door: &mut Door, action: Action)
    requires
        call_ensures(handle_event, (event, door), action),
    ensures
        event matches Event::Message(Message::Lock) ==> {
            let before = old(door)@;
            let turns = !before.is_open && before.lock == LockStatus::Unlocked;
            &&& turns ==> action == Action::Reply(Reply::Turned(Ok(()))) && final(door)@.lock
                == LockStatus::Locked && !final(door)@.is_open
            &&& !turns ==> final(door)@ == before
            &&& before.is_open ==> action == Action::Reply(
                Reply::Turned(Err(DoorError::OpenDoor)),
            )
            &&& !before.is_open && before.lock == LockStatus::Jammed ==> action == Action::Reply(
                Reply::Turned(Err(DoorError::Lock(LockError::Jammed))),
            )
            &&& !before.is_open && before.lock == LockStatus::Locked ==> action == Action::Reply(
                Reply::Turned(
                    Err(DoorError::Lock(LockError::AlreadyInStatus(LockNormalStatus::Locked))),
                ),
            )
        },
        event matches Event::Message(Message::Unlock) ==> {
            let before = old(door)@;
            let turns = !before.is_open && before.lock == LockStatus::Locked;
            &&& turns ==> action == Action::Reply(Reply::Turned(Ok(()))) && final(door)@.lock
                == LockStatus::Unlocked && !final(door)@.is_open
            &&& !turns ==> final(door)@ == before
            &&& before.is_open ==> action == Action::Reply(
                Reply::Turned(Err(DoorError::OpenDoor)),
            )
            &&& !before.is_open && before.lock == LockStatus::Jammed ==> action == Action::Reply(
                Reply::Turned(Err(DoorError::Lock(LockError::Jammed))),
            )
            &&& !before.is_open && before.lock == LockStatus::Unlocked ==> action == Action::Reply(
                Reply::Turned(
                    Err(DoorError::Lock(LockError::AlreadyInStatus(LockNormalStatus::Unlocked))),
                ),
            )
        },
{
}

/// Reading a door changes nothing and shows it as it is.
pub proof fn law_door_is_read(message: Message, door: &mut Door, action: Action)
    requires
        message is GetOpen || message is GetLock,
        call_ensures(handle_event, (Event::Message(message), door), action),
    ensures
        message is GetOpen ==> action == Action::Reply(Reply::Open(old(door)@.is_open)),
        message is GetLock ==> action == Action::Reply(Reply::Lock(old(door)@.lock)),
        final(door)@ == old(door)@,
{
}

/// A lock by itself is locked exactly where it is unlocked; a refusal leaves it as it was.
pub proof fn law_unlocked_lock_is_locked(
    lock: &mut LockStatus,
    result: Result<&mut LockStatus, LockError>,
)
    requires
        call_ensures(LockStatus::lock, (lock,), result),
    ensures
        *old(lock) is Unlocked <==> result is Ok,
        result matches Ok(locked) ==> *locked is Locked && *final(lock) == *final(locked),
        result is Err ==> *final(lock) == *old(lock),
        *old(lock) is Jammed ==> result == Err::<&mut LockStatus, _>(LockError::Jammed),
        *old(lock) is Locked ==> result == Err::<&mut LockStatus, _>(
            LockError::AlreadyInStatus(LockNormalStatus::Locked),
        ),
{
}

/// A lock by itself is unlocked exactly where it is locked; a refusal leaves it as it was.
pub proof fn law_locked_lock_is_unlocked(
    lock: &mut LockStatus,
    result: Result<&mut LockStatus, LockError>,
)
    requires
        call_ensures(LockStatus::unlock, (lock,), result),
    ensures
        *old(lock) is Locked <==> result is Ok,
        result matches Ok(unlocked) ==> *unlocked is Unlocked && *final(lock) == *final(unlocked),
        result is Err ==> *final(lock) == *old(lock),
        *old(lock) is Jammed ==> result == Err::<&mut LockStatus, _>(LockError::Jammed),
        *old(lock) is Unlocked ==> result == Err::<&mut LockStatus, _>(
            LockError::AlreadyInStatus(LockNormalStatus::Unlocked),
        ),
{
}

/// A turn that was made is answered without a body. One that was not is answered as a bad request,
/// whose title says what was asked for and why it was refused.
pub proof fn law_refusal_is_explained(
    outcome: Result<(), DoorError>,
    lock: (u16, Option<HttpApiProblem>),
    unlock: (u16, Option<HttpApiProblem>),
)
    requires
        call_ensures(action_lock, (outcome,), lock),
        call_ensures(action_unlock, (outcome,), unlock),
    ensures
        outcome is Ok ==> lock == (200u16, None::<HttpApiProblem>) && unlock == lock,
        outcome matches Err(error) ==> {
            let reason = match error {
                DoorError::OpenDoor => "cannot lock or unlock an open door"@,
                DoorError::Lock(LockError::Jammed) => "lock is jammed"@,
                DoorError::Lock(
                    LockError::AlreadyInStatus(LockNormalStatus::Locked),
                ) => "Lock status is already "@ + "locked"@ + " and it is not being changed"@,
                DoorError::Lock(
                    LockError::AlreadyInStatus(LockNormalStatus::Unlocked),
                ) => "Lock status is already "@ + "unlocked"@ + " and it is not being changed"@,
            };
            &&& lock == (400u16, Some(problem_of(400, "cannot "@ + "lock"@ + " door: "@ + reason)))
            &&& unlock == (
                400u16,
                Some(problem_of(400, "cannot "@ + "unlock"@ + " door: "@ + reason)),
            )
        },
{
}

/// A step of the script does after its wait what it says, in both its parts.
pub proof fn law_step_is_handed_on(step: DoorSimulation, parts: (SimulationStreamItem, Span))
    requires
        call_ensures(DoorSimulation::output_and_wait, (step,), parts),
    ensures
        parts.0.open == step.open,
        parts.0.lock == step.lock,
        parts.1 == step.wait,
{
}

/// A request is served alike whether it comes as an event or by itself.
pub proof fn law_event_serves_the_request(
    message: Message,
    door: &mut Door,
    action: Action,
    other: &mut Door,
    reply: Reply,
)
    requires
        old(door)@ == old(other)@,
        call_ensures(handle_event, (Event::Message(message), door), action),
        call_ensures(handle_message, (message, other), reply),
    ensures
        action == Action::Reply(reply),
        final(door)@ == final(other)@,
{
}

/// A lock and its position are written as what they are, and a lock that works is in the state of
/// its position.
pub proof fn law_lock_is_written_as_it_is(
    lock: LockStatus,
    text: &'static str,
    position: LockNormalStatus,
    position_text: &'static str,
    working: LockStatus,
)
    requires
        call_ensures(LockStatus::to_text, (&lock,), text),
        call_ensures(LockNormalStatus::to_text, (&position,), position_text),
        call_ensures(<LockStatus as From<LockNormalStatus>>::from, (position,), working),
    ensures
        lock is Locked ==> text@ == "locked"@,
        lock is Unlocked ==> text@ == "unlocked"@,
        lock is Jammed ==> text@ == "jammed"@,
        position is Locked ==> position_text@ == "locked"@ && working is Locked,
        position is Unlocked ==> position_text@ == "unlocked"@ && working is Unlocked,
{
}

/// A door is opened or closed as is wanted, and its lock put in the state that is wanted, each
/// leaving the other alone.
pub proof fn law_door_is_moved(
    door: &mut Door,
    is_open: bool,
    opened: &mut Door,
    other: &mut Door,
    lock: LockStatus,
    turned: &mut Door,
)
    requires
        call_ensures(Door::simulate_open, (door, is_open), opened),
        call_ensures(Door::simulate_lock, (other, lock), turned),
    ensures
        old(opened)@.is_open == is_open,
        old(opened)@.lock == old(door)@.lock,
        *final(door) == *final(opened),
        old(turned)@.lock == lock,
        old(turned)@.is_open == old(other)@.is_open,
        *final(other) == *final(turned),
{
}

/// A door is locked by itself exactly where it is closed and unlocked, and unlocked exactly where
/// it is closed and locked; a refusal leaves it as it was.
pub proof fn law_closed_door_is_locked_and_unlocked(
    door: &mut Door,
    locked: Result<&mut Door, DoorError>,
    other: &mut Door,
    unlocked: Result<&mut Door, DoorError>,
)
    requires
        call_ensures(Door::do_lock, (door,), locked),
        call_ensures(Door::do_unlock, (other,), unlocked),
    ensures
        locked is Ok <==> !old(door)@.is_open && old(door)@.lock is Unlocked,
        locked matches Ok(after) ==> after@.lock is Locked && !after@.is_open && *final(door)
            == *final(after),
        locked is Err ==> *final(door) == *old(door),
        unlocked is Ok <==> !old(other)@.is_open && old(other)@.lock is Locked,
        unlocked matches Ok(after) ==> after@.lock is Unlocked && !after@.is_open && *final(other)
            == *final(after),
        unlocked is Err ==> *final(other) == *old(other),
{
}

} // verus!
