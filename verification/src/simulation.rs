//! Scripted behaviour: a list of steps, each of which takes effect after a wait of its own.
use std::collections::VecDeque;

use crate::clock::Span;
use crate::polled::Polled;
use vstd::prelude::*;

verus! {

/// A step of a script.
pub trait Simulation: Sized {
    /// What the step does once its wait is over.
    type Output;

    /// What the step does once its wait is over.
    spec fn output(self) -> Self::Output;

    /// How long the step waits, counted from the step before it.
    spec fn wait(self) -> Span;

    fn output_and_wait(self) -> (parts: (Self::Output, Span))
        ensures
            parts == (self.output(), self.wait()),
    ;
}

/// The effects of a script's steps in order, each with its wait.
pub open spec fn schedule<T: Simulation>(simulations: Seq<T>) -> Seq<(T::Output, Span)> {
    simulations.map_values(|simulation: T| (simulation.output(), simulation.wait()))
}

/// The elements of a vector, in order, as a queue.
pub(crate) fn into_queue<T>(elements: Vec<T>) -> (queue: VecDeque<T>)
    ensures
        queue@ == elements@,
{
    let ghost all = elements@;
    let mut elements = elements;
    let mut queue: VecDeque<T> = VecDeque::new();
    while elements.len() > 0
        invariant
            elements@ + queue@ == all,
        decreases elements.len(),
    {
        let ghost (before, queued) = (elements@, queue@);
        if let Some(element) = elements.pop() {
            queue.push_front(element);
        }
        assert(elements@ + queue@ == before + queued);
    }
    assert(queue@ == all);
    queue
}

/// The step that a stream is waiting for.
#[derive(Debug)]
pub struct SimulationStreamNext<O> {
    pub wait: Span,
    pub output: O,
}

impl<O> SimulationStreamNext<O> {
    pub fn from<T: Simulation<Output = O>>(value: T) -> (next: Self)
        ensures
            next.output == value.output(),
            next.wait == value.wait(),
    {
        let (output, wait) = value.output_and_wait();
        SimulationStreamNext { wait, output }
    }
}

/// A script in progress.
///
/// Whoever drives the stream sleeps for [`SimulationStream::wait`] and then polls it.
pub struct SimulationStream<T: Simulation> {
    simulations: VecDeque<T>,
    next_status: Option<SimulationStreamNext<T::Output>>,
}

/// What a poll of a stream with the given steps ahead leaves ahead of it.
pub open spec fn steps_after_poll<O>(steps: Seq<(O, Span)>, slept: bool) -> Seq<(O, Span)> {
    if steps.len() > 0 && slept {
        steps.drop_first()
    } else {
        steps
    }
}

/// What a poll of a stream with the given steps ahead answers.
pub open spec fn answer_of_poll<O>(steps: Seq<(O, Span)>, slept: bool) -> Polled<Option<O>> {
    if steps.len() == 0 {
        Polled::Ready(None)
    } else if slept {
        Polled::Ready(Some(steps[0].0))
    } else {
        Polled::Pending
    }
}

impl<T: Simulation> SimulationStream<T> {
    /// The effects that are still ahead, each with its wait.
    pub closed spec fn steps(&self) -> Seq<(T::Output, Span)> {
        match self.next_status {
            Some(next) => seq![(next.output, next.wait)] + schedule(self.simulations@),
            None => Seq::empty(),
        }
    }

    pub fn new(simulations: Vec<T>) -> (stream: Self)
        ensures
            stream.steps() == schedule(simulations@),
    {
        let ghost all = simulations@;
        let mut queue = into_queue(simulations);
        let next_status = match queue.pop_front() {
            Some(simulation) => Some(SimulationStreamNext::from(simulation)),
            None => None,
        };
        let stream = SimulationStream { simulations: queue, next_status };
        assert(stream.steps() == schedule(all));
        stream
    }

    /// How long to sleep before the next step takes effect, if there is one.
    pub fn wait(&self) -> (wait: Option<Span>)
        ensures
            wait == if self.steps().len() > 0 {
                Some(self.steps()[0].1)
            } else {
                None
            },
    {
        match &self.next_status {
            Some(next) => Some(next.wait),
            None => None,
        }
    }

    /// Asks for the next effect; `slept` tells whether the sleep before it is over.
    pub fn poll_next(&mut self, slept: bool) -> (answer: Polled<Option<T::Output>>)
        ensures
            answer == answer_of_poll(old(self).steps(), slept),
            final(self).steps() == steps_after_poll(old(self).steps(), slept),
    {
        if self.next_status.is_none() {
            return Polled::Ready(None);
        }
        if !slept {
            return Polled::Pending;
        }
        let ghost rest = self.simulations@;
        let current_status = self.next_status.take();
        self.next_status = match self.simulations.pop_front() {
            Some(simulation) => Some(SimulationStreamNext::from(simulation)),
            None => None,
        };
        assert(self.steps() == schedule(rest));
        assert(old(self).steps().drop_first() == schedule(rest));
        match current_status {
            Some(current_status) => Polled::Ready(Some(current_status.output)),
            None => Polled::Ready(None),
        }
    }

    pub fn is_terminated(&self) -> (terminated: bool)
        ensures
            terminated == (self.steps().len() == 0),
    {
        self.next_status.is_none()
    }
}

/// What is ahead of a stream after `polls` polls, each of them after the sleep it asked for.
pub open spec fn steps_after<O>(steps: Seq<(O, Span)>, polls: nat) -> Seq<(O, Span)>
    decreases polls,
{
    if polls == 0 {
        steps
    } else {
        steps_after(steps_after_poll(steps, true), (polls - 1) as nat)
    }
}

/// A stream hands out the effects of its script in order, one per poll after a sleep.
pub proof fn law_stream_follows_script<O>(steps: Seq<(O, Span)>, polls: nat)
    requires
        polls < steps.len(),
    ensures
        steps_after(steps, polls) == steps.skip(polls as int),
        answer_of_poll(steps_after(steps, polls), true) == Polled::Ready(
            Some(steps[polls as int].0),
        ),
    decreases polls,
{
    if polls > 0 {
        law_stream_follows_script(steps.drop_first(), (polls - 1) as nat);
        assert(steps.drop_first().skip(polls - 1) == steps.skip(polls as int));
    } else {
        assert(steps.skip(0) == steps);
    }
}

/// Once every effect has been handed out, the stream is over and stays over.
pub proof fn law_stream_ends<O>(steps: Seq<(O, Span)>, polls: nat, slept: bool)
    requires
        polls >= steps.len(),
    ensures
        steps_after(steps, polls).len() == 0,
        answer_of_poll(steps_after(steps, polls), slept) == Polled::<Option<O>>::Ready(None),
    decreases polls,
{
    if polls > 0 {
        law_stream_ends(steps_after_poll(steps, true), (polls - 1) as nat, slept);
    }
}

/// A poll before the sleep is over changes nothing.
pub proof fn law_early_poll_is_idle<O>(steps: Seq<(O, Span)>)
    ensures
        steps_after_poll(steps, false) == steps,
{
}

/// A stream has all steps of its script ahead, in order, each with its effect and its wait, and
/// sleeps before each for its own wait.
pub proof fn law_stream_has_its_script_ahead<T: Simulation>(
    simulations: Vec<T>,
    stream: SimulationStream<T>,
    wait: Option<Span>,
    terminated: bool,
)
    requires
        call_ensures(SimulationStream::<T>::new, (simulations,), stream),
        call_ensures(SimulationStream::<T>::wait, (&stream,), wait),
        call_ensures(SimulationStream::<T>::is_terminated, (&stream,), terminated),
    ensures
        stream.steps().len() == simulations@.len(),
        forall|i: int|
            0 <= i < simulations@.len() ==> {
                &&& (#[trigger] stream.steps()[i]).0 == simulations@[i].output()
                &&& stream.steps()[i].1 == simulations@[i].wait()
            },
        simulations@.len() == 0 <==> terminated,
        wait == if simulations@.len() > 0 {
            Some(simulations@[0].wait())
        } else {
            None
        },
{
}

/// A poll after the sleep hands out the next effect and nothing else, and leaves the others ahead
/// as they were; then it is the turn of the wait of the step after it. A poll before that waits,
/// and one of a stream without steps ahead says so.
pub proof fn law_poll_hands_out_one_step<T: Simulation>(
    stream: &mut SimulationStream<T>,
    slept: bool,
    answer: Polled<Option<T::Output>>,
)
    requires
        call_ensures(SimulationStream::<T>::poll_next, (stream, slept), answer),
    ensures
        old(stream).steps().len() == 0 ==> answer == Polled::Ready(None::<T::Output>),
        old(stream).steps().len() == 0 ==> final(stream).steps().len() == 0,
        old(stream).steps().len() > 0 && slept ==> {
            &&& answer == Polled::Ready(Some(old(stream).steps()[0].0))
            &&& final(stream).steps().len() == old(stream).steps().len() - 1
            &&& forall|i: int|
                0 <= i < final(stream).steps().len() ==> #[trigger] final(stream).steps()[i]
                    == old(stream).steps()[i + 1]
        },
        old(stream).steps().len() > 0 && !slept ==> {
            &&& answer == Polled::<Option<T::Output>>::Pending
            &&& final(stream).steps() == old(stream).steps()
        },
{
}

/// What there is to wait for is the wait of the step ahead, at every time.
pub proof fn law_wait_is_that_of_the_step_ahead<T: Simulation>(
    stream: &SimulationStream<T>,
    wait: Option<Span>,
    terminated: bool,
)
    requires
        call_ensures(SimulationStream::<T>::wait, (stream,), wait),
        call_ensures(SimulationStream::<T>::is_terminated, (stream,), terminated),
    ensures
        terminated <==> stream.steps().len() == 0,
        wait is None <==> stream.steps().len() == 0,
        wait matches Some(wait) ==> wait == stream.steps()[0].1,
{
}

} // verus!
