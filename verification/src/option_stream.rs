//! A source of values that may be absent.
use crate::polled::Polled;
use vstd::prelude::*;

verus! {

/// A source of values, or none. Sources come before their absence in order.
#[derive(Clone, Copy, Debug, PartialEq, Eq, PartialOrd, Ord, Hash)]
pub enum OptionStreamInner<T> {
    Present { inner: T },
    Absent,
}

/// A source of values that may be absent. One that is absent never answers.
#[derive(Clone, Copy, Debug, PartialEq, Eq, PartialOrd, Ord, Hash)]
pub struct OptionStream<T> {
    pub inner: OptionStreamInner<T>,
}

impl<T> Default for OptionStreamInner<T> {
    fn default() -> (inner: Self)
        ensures
            inner == OptionStreamInner::<T>::Absent,
    {
        OptionStreamInner::Absent
    }
}

impl<T> Default for OptionStream<T> {
    fn default() -> (stream: Self)
        ensures
            stream.inner == OptionStreamInner::<T>::Absent,
    {
        OptionStream { inner: OptionStreamInner::Absent }
    }
}

impl<T> From<Option<T>> for OptionStream<T> {
    fn from(value: Option<T>) -> (stream: Self) {
        match value {
            Some(inner) => OptionStream { inner: OptionStreamInner::Present { inner } },
            None => OptionStream { inner: OptionStreamInner::Absent },
        }
    }
}

impl<T> vstd::std_specs::convert::FromSpecImpl<Option<T>> for OptionStream<T> {
    open spec fn obeys_from_spec() -> bool {
        true
    }

    open spec fn from_spec(value: Option<T>) -> Self {
        match value {
            Some(inner) => OptionStream { inner: OptionStreamInner::Present { inner } },
            None => OptionStream { inner: OptionStreamInner::Absent },
        }
    }
}

impl<T> OptionStream<T> {
    /// Asks the source for its next value with `poll`, where there is a source.
    pub fn poll_next<Item, F: FnOnce(&mut T) -> Polled<Option<Item>>>(&mut self, poll: F) -> (
        answer: Polled<Option<Item>>)
        requires
            forall|inner: &mut T| #[trigger] call_requires(poll, (inner,)),
        ensures
            match old(self).inner {
                OptionStreamInner::Present { inner: source } => exists|inner: &mut T|
                    {
                        &&& #[trigger] call_ensures(poll, (inner,), answer)
                        &&& *inner == source
                        &&& final(self).inner == (OptionStreamInner::Present {
                            inner: *final(inner),
                        })
                    },
                OptionStreamInner::Absent => {
                    &&& answer == Polled::<Option<Item>>::Pending
                    &&& *final(self) == *old(self)
                },
            },
    {
        match &mut self.inner {
            OptionStreamInner::Present { inner } => poll(inner),
            OptionStreamInner::Absent => Polled::Pending,
        }
    }
}

/// A source that is there is asked, and what it answers is the answer; one that is absent never
/// answers, and stays absent.
pub proof fn law_absent_source_never_answers<
    T,
    Item,
    F: FnOnce(&mut T) -> Polled<Option<Item>>,
>(stream: &mut OptionStream<T>, poll: F, answer: Polled<Option<Item>>)
    requires
        call_ensures(OptionStream::<T>::poll_next::<Item, F>, (stream, poll), answer),
    ensures
        old(stream).inner is Absent ==> answer is Pending && final(stream).inner is Absent,
        old(stream).inner is Present ==> final(stream).inner is Present && exists|inner: &mut T|
            {
                &&& #[trigger] call_ensures(poll, (inner,), answer)
                &&& *inner == old(stream).inner->inner
                &&& *final(inner) == final(stream).inner->inner
            },
{
}

/// A source that is given is the one that is asked, and none is there where none is given.
pub proof fn law_given_source_is_held<T>(source: Option<T>, stream: OptionStream<T>)
    requires
        call_ensures(<OptionStream<T> as From<Option<T>>>::from, (source,), stream),
    ensures
        source matches Some(inner) ==> stream.inner == (OptionStreamInner::Present { inner }),
        source is None ==> stream.inner is Absent,
{
}

} // verus!
