//! Loading a configuration anew whenever a signal asks for it.
//!
//! The machine here decides; whoever drives it polls the signals and the load in progress, and
//! tells it what came of that.
use crate::polled::Polled;
use vstd::prelude::*;

verus! {

/// What the machine is waiting for: signals, with what it takes to load (`Status`) at hand, or a
/// load in progress (`Load`).
#[derive(Debug)]
pub enum ConfigSignalLoaderStreamInner<Status, Load> {
    Idle(Status),
    Future(Load),
    Invalid,
}

impl<Status, Load> ConfigSignalLoaderStreamInner<Status, Load> {
    /// The load in progress, or what it takes to start one.
    pub fn future_or_inner(&mut self) -> (result: Result<&mut Load, &Status>)
        requires
            !(*old(self) is Invalid),
        ensures
            match *old(self) {
                ConfigSignalLoaderStreamInner::Idle(status) => {
                    &&& result matches Err(inner) && *inner == status
                    &&& *final(self) == *old(self)
                },
                ConfigSignalLoaderStreamInner::Future(load) => {
                    &&& result matches Ok(future)
                    &&& *future == load
                    &&& *final(self) == ConfigSignalLoaderStreamInner::<Status, Load>::Future(
                        *final(future),
                    )
                },
                ConfigSignalLoaderStreamInner::Invalid => true,
            },
    {
        match self {
            ConfigSignalLoaderStreamInner::Idle(inner) => Err(inner),
            ConfigSignalLoaderStreamInner::Future(future) => Ok(future),
            ConfigSignalLoaderStreamInner::Invalid => vstd::pervasive::unreached(),
        }
    }

    /// Takes out what it takes to start a load, where none is in progress.
    pub fn take_none(&mut self) -> (status: Option<Status>)
        ensures
            match *old(self) {
                ConfigSignalLoaderStreamInner::Idle(inner) => {
                    &&& status == Some(inner)
                    &&& *final(self) is Invalid
                },
                _ => status is None && *final(self) == *old(self),
            },
    {
        let mut taken = ConfigSignalLoaderStreamInner::Invalid;
        std::mem::swap(self, &mut taken);
        match taken {
            ConfigSignalLoaderStreamInner::Idle(inner) => Some(inner),
            _ => {
                *self = taken;
                None
            },
        }
    }
}

/// What the driver tells the machine.
#[derive(Debug)]
pub enum LoaderEvent<Config, Status, Load> {
    /// The next configuration is asked for.
    Poll,
    /// The signals were polled: there is one (`Ready(true)`), there will be none any more
    /// (`Ready(false)`), or none has come so far.
    Signals { answer: Polled<bool>, handle_is_closed: bool },
    /// The load was started and is not over.
    Started(Load),
    /// The load in progress is still not over.
    StillLoading,
    /// The load is over, with a configuration or without one.
    Loaded(Option<Config>, Status),
}

/// What the machine asks of the driver.
#[derive(Debug)]
pub enum LoaderAction<Config, Status> {
    /// Poll the signals.
    PollSignals,
    /// Poll the load in progress.
    PollLoad,
    /// Start a load and poll it.
    Load(Status),
    /// Answer that nothing has come so far.
    Wait,
    /// Answer with a configuration.
    Deliver(Config),
    /// Answer that no configuration will come any more, once the handle of the signals has been
    /// closed, where `close` says so.
    End { close: bool },
}

/// Whether the event can occur while the machine waits as it does.
pub open spec fn is_expected<Config, Status, Load>(
    inner: ConfigSignalLoaderStreamInner<Status, Load>,
    event: LoaderEvent<Config, Status, Load>,
) -> bool {
    match event {
        LoaderEvent::Poll => !(inner is Invalid),
        LoaderEvent::Signals { .. } => inner is Idle,
        LoaderEvent::Started(_) => inner is Invalid,
        LoaderEvent::StillLoading => inner is Future,
        LoaderEvent::Loaded(_, _) => !(inner is Idle),
    }
}

/// What the machine asks for after an event.
pub open spec fn action_on<Config, Status, Load>(
    inner: ConfigSignalLoaderStreamInner<Status, Load>,
    event: LoaderEvent<Config, Status, Load>,
) -> LoaderAction<Config, Status> {
    match event {
        LoaderEvent::Poll => if inner is Idle {
            LoaderAction::PollSignals
        } else {
            LoaderAction::PollLoad
        },
        LoaderEvent::Signals { answer: Polled::Pending, .. } => LoaderAction::Wait,
        LoaderEvent::Signals { answer: Polled::Ready(true), .. } => LoaderAction::Load(
            inner->Idle_0,
        ),
        LoaderEvent::Signals {
            answer: Polled::Ready(false),
            handle_is_closed,
        } => LoaderAction::End { close: !handle_is_closed },
        LoaderEvent::Started(_) => LoaderAction::Wait,
        LoaderEvent::StillLoading => LoaderAction::Wait,
        LoaderEvent::Loaded(Some(config), _) => LoaderAction::Deliver(config),
        LoaderEvent::Loaded(None, _) => LoaderAction::PollSignals,
    }
}

/// What the machine waits for after an event.
pub open spec fn inner_after<Config, Status, Load>(
    inner: ConfigSignalLoaderStreamInner<Status, Load>,
    event: LoaderEvent<Config, Status, Load>,
) -> ConfigSignalLoaderStreamInner<Status, Load> {
    match event {
        LoaderEvent::Signals {
            answer: Polled::Ready(true),
            ..
        } => ConfigSignalLoaderStreamInner::Invalid,
        LoaderEvent::Started(load) => ConfigSignalLoaderStreamInner::Future(load),
        LoaderEvent::Loaded(_, status) => ConfigSignalLoaderStreamInner::Idle(status),
        _ => inner,
    }
}

/// The machine.
#[derive(Debug)]
pub struct ConfigSignalLoaderStream<Status, Load> {
    pub inner: ConfigSignalLoaderStreamInner<Status, Load>,
}

impl<Status, Load> ConfigSignalLoaderStream<Status, Load> {
    pub fn new(status: Status) -> (stream: Self)
        ensures
            stream.inner == ConfigSignalLoaderStreamInner::<Status, Load>::Idle(status),
    {
        ConfigSignalLoaderStream { inner: ConfigSignalLoaderStreamInner::Idle(status) }
    }

    /// Takes the machine one step on the way to its next answer.
    pub fn poll_next<Config>(&mut self, event: LoaderEvent<Config, Status, Load>) -> (action:
        LoaderAction<Config, Status>)
        requires
            is_expected(old(self).inner, event),
        ensures
            action == action_on(old(self).inner, event),
            final(self).inner == inner_after(old(self).inner, event),
    {
        match event {
            LoaderEvent::Poll => match self.inner.future_or_inner() {
                Err(_) => LoaderAction::PollSignals,
                Ok(_) => LoaderAction::PollLoad,
            },
            LoaderEvent::Signals { answer: Polled::Pending, .. } => LoaderAction::Wait,
            LoaderEvent::Signals { answer: Polled::Ready(true), .. } => {
                match self.inner.take_none() {
                    Some(status) => LoaderAction::Load(status),
                    None => vstd::pervasive::unreached(),
                }
            },
            LoaderEvent::Signals {
                answer: Polled::Ready(false),
                handle_is_closed,
            } => LoaderAction::End { close: must_close(handle_is_closed) },
            LoaderEvent::Started(load) => {
                self.inner = ConfigSignalLoaderStreamInner::Future(load);
                LoaderAction::Wait
            },
            LoaderEvent::StillLoading => LoaderAction::Wait,
            LoaderEvent::Loaded(new_config, status) => {
                self.inner = ConfigSignalLoaderStreamInner::Idle(status);
                match new_config {
                    Some(new_config) => LoaderAction::Deliver(new_config),
                    None => LoaderAction::PollSignals,
                }
            },
        }
    }
}

/// What came of reading and parsing the configuration.
#[derive(Debug)]
pub enum LoadResult<Config> {
    Unreadable,
    Unparsable,
    Parsed(Config),
}

/// The configuration that a load ends with, where it ends with one, and whether the handle of the
/// signals is to be closed.
pub fn load_outcome<Config>(result: LoadResult<Config>) -> (outcome: (Option<Config>, bool))
    ensures
        match result {
            LoadResult::Parsed(config) => outcome == (Some(config), false),
            _ => outcome == (None::<Config>, true),
        },
{
    match result {
        LoadResult::Unreadable => (None, true),
        LoadResult::Unparsable => (None, true),
        LoadResult::Parsed(config) => (Some(config), false),
    }
}

/// Whether the handle of the signals is to be closed when it is not needed any more.
pub fn must_close(handle_is_closed: bool) -> (close: bool)
    ensures
        close == !handle_is_closed,
{
    !handle_is_closed
}

/// Whenever the machine answers, it is ready to be polled again; only while a load is being
/// started it is not.
pub proof fn law_machine_is_ready_between_answers<Config, Status, Load>(
    inner: ConfigSignalLoaderStreamInner<Status, Load>,
    event: LoaderEvent<Config, Status, Load>,
)
    requires
        is_expected(inner, event),
    ensures
        inner_after(inner, event) is Invalid <==> action_on(inner, event) is Load,
        !(action_on(inner, event) is Load) ==> is_expected(
            inner_after(inner, event),
            LoaderEvent::<Config, Status, Load>::Poll,
        ),
{
}

/// What the machine asks for is always answered by an event that it expects.
pub proof fn law_answers_are_expected<Config, Status, Load>(
    inner: ConfigSignalLoaderStreamInner<Status, Load>,
    event: LoaderEvent<Config, Status, Load>,
    answer: Polled<bool>,
    handle_is_closed: bool,
    load: Load,
    config: Option<Config>,
    status: Status,
)
    requires
        is_expected(inner, event),
    ensures
        ({
            let after = inner_after(inner, event);
            match action_on(inner, event) {
                LoaderAction::PollSignals => is_expected(
                    after,
                    LoaderEvent::<Config, Status, Load>::Signals { answer, handle_is_closed },
                ),
                LoaderAction::PollLoad => {
                    &&& is_expected(after, LoaderEvent::<Config, Status, Load>::StillLoading)
                    &&& is_expected(
                        after,
                        LoaderEvent::<Config, Status, Load>::Loaded(config, status),
                    )
                },
                LoaderAction::Load(_) => {
                    &&& is_expected(after, LoaderEvent::<Config, Status, Load>::Started(load))
                    &&& is_expected(
                        after,
                        LoaderEvent::<Config, Status, Load>::Loaded(config, status),
                    )
                },
                _ => is_expected(after, LoaderEvent::<Config, Status, Load>::Poll),
            }
        }),
{
}

/// A signal leads to a load with what the machine has at hand, and the configuration that comes of
/// it is delivered; a load without one leads back to the signals.
pub proof fn law_signal_leads_to_a_configuration<Config, Status, Load>(
    status: Status,
    handle_is_closed: bool,
    config: Option<Config>,
    status_after: Status,
)
    ensures
        ({
            let idle = ConfigSignalLoaderStreamInner::<Status, Load>::Idle(status);
            let signal = LoaderEvent::<Config, Status, Load>::Signals {
                answer: Polled::Ready(true),
                handle_is_closed,
            };
            let loading = inner_after(idle, signal);
            let loaded = LoaderEvent::<Config, Status, Load>::Loaded(config, status_after);
            &&& action_on(idle, signal) == LoaderAction::<Config, Status>::Load(status)
            &&& action_on(loading, loaded) == match config {
                Some(config) => LoaderAction::<Config, Status>::Deliver(config),
                None => LoaderAction::PollSignals,
            }
            &&& inner_after(loading, loaded) == ConfigSignalLoaderStreamInner::<Status, Load>::Idle(
                status_after,
            )
        }),
{
}

/// A configuration is delivered exactly when a load ends with one, and it is that one. A load is
/// started exactly on a signal, with what was at hand, and the end comes exactly when there will be
/// no signal any more.
pub proof fn law_machine_does_what_happened<Config, Status, Load>(
    stream: &mut ConfigSignalLoaderStream<Status, Load>,
    event: LoaderEvent<Config, Status, Load>,
    action: LoaderAction<Config, Status>,
)
    requires
        is_expected(old(stream).inner, event),
        call_ensures(
            ConfigSignalLoaderStream::<Status, Load>::poll_next::<Config>,
            (stream, event),
            action,
        ),
    ensures
        action is Deliver <==> (event matches LoaderEvent::Loaded(config, _) && config is Some),
        event matches LoaderEvent::Loaded(Some(config), _) ==> action == LoaderAction::<
            Config,
            Status,
        >::Deliver(config),
        event matches LoaderEvent::Loaded(None, _) ==> action is PollSignals,
        action is Load <==> event is Signals && event->answer == Polled::Ready(true),
        action matches LoaderAction::Load(status) ==> old(stream).inner
            == ConfigSignalLoaderStreamInner::<Status, Load>::Idle(status),
        action is End <==> event is Signals && event->answer == Polled::Ready(false),
        action is End ==> action->close == !event->handle_is_closed,
        event is Signals && event->answer is Pending ==> action is Wait,
        event is Started || event is StillLoading ==> action is Wait,
        event is Poll && old(stream).inner is Idle ==> action is PollSignals,
        event is Poll && old(stream).inner is Future ==> action is PollLoad,
{
}

/// What the machine holds is kept until a signal or the end of a load: a load that was started is
/// the one in progress, and what comes back from a load is at hand for the next one.
pub proof fn law_machine_keeps_what_it_holds<Config, Status, Load>(
    stream: &mut ConfigSignalLoaderStream<Status, Load>,
    event: LoaderEvent<Config, Status, Load>,
    action: LoaderAction<Config, Status>,
)
    requires
        is_expected(old(stream).inner, event),
        call_ensures(
            ConfigSignalLoaderStream::<Status, Load>::poll_next::<Config>,
            (stream, event),
            action,
        ),
    ensures
        event matches LoaderEvent::Started(load) ==> final(stream).inner
            == ConfigSignalLoaderStreamInner::<Status, Load>::Future(load),
        event matches LoaderEvent::Loaded(_, status) ==> final(stream).inner
            == ConfigSignalLoaderStreamInner::<Status, Load>::Idle(status),
        !(event is Started || event is Loaded || action is Load) ==> {
            final(stream).inner == old(stream).inner
        },
{
}

/// A machine takes a step on whatever can come while it waits as it does: a poll between two
/// answers, signals while it is idle, and the outcome of a load that it has asked for.
pub proof fn law_machine_takes_what_can_come<Config, Status, Load>(
    status: Status,
    load: Load,
    answer: Polled<bool>,
    handle_is_closed: bool,
    config: Option<Config>,
)
    ensures
        ({
            let idle = ConfigSignalLoaderStreamInner::<Status, Load>::Idle(status);
            let loading = ConfigSignalLoaderStreamInner::<Status, Load>::Future(load);
            let starting = ConfigSignalLoaderStreamInner::<Status, Load>::Invalid;
            let loaded = LoaderEvent::<Config, Status, Load>::Loaded(config, status);
            &&& is_expected(idle, LoaderEvent::<Config, Status, Load>::Poll)
            &&& is_expected(loading, LoaderEvent::<Config, Status, Load>::Poll)
            &&& is_expected(
                idle,
                LoaderEvent::<Config, Status, Load>::Signals { answer, handle_is_closed },
            )
            &&& is_expected(starting, LoaderEvent::<Config, Status, Load>::Started(load))
            &&& is_expected(loading, LoaderEvent::<Config, Status, Load>::StillLoading)
            &&& is_expected(loading, loaded)
            &&& is_expected(starting, loaded)
        }),
{
}

/// A load ends with the configuration that was parsed, and only otherwise has the handle of the
/// signals closed.
pub proof fn law_load_ends_with_what_was_parsed<Config>(
    result: LoadResult<Config>,
    outcome: (Option<Config>, bool),
    handle_is_closed: bool,
    close: bool,
)
    requires
        call_ensures(load_outcome::<Config>, (result,), outcome),
        call_ensures(must_close, (handle_is_closed,), close),
    ensures
        result matches LoadResult::Parsed(config) ==> outcome.0 == Some(config),
        outcome.0 is Some <==> result is Parsed,
        outcome.1 <==> !(result is Parsed),
        close <==> !handle_is_closed,
{
}

/// What it takes to load is taken out exactly where no load is in progress, and a load in progress
/// stays so.
pub proof fn law_load_in_progress_is_left_alone<Status, Load>(
    inner: &mut ConfigSignalLoaderStreamInner<Status, Load>,
    status: Option<Status>,
)
    requires
        call_ensures(ConfigSignalLoaderStreamInner::<Status, Load>::take_none, (inner,), status),
    ensures
        status is Some <==> *old(inner) is Idle,
        status matches Some(status) ==> status == old(inner)->Idle_0 && *final(inner) is Invalid,
        status is None ==> *final(inner) == *old(inner),
{
}

} // verus!
