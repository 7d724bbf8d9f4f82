use demo_things::config_loader::{
    load_outcome, must_close, ConfigSignalLoaderStream, ConfigSignalLoaderStreamInner, LoadResult,
    LoaderAction, LoaderEvent,
};
use demo_things::polled::Polled;

type Stream = ConfigSignalLoaderStream<&'static str, u32>;
type Inner = ConfigSignalLoaderStreamInner<&'static str, u32>;
type Event = LoaderEvent<u8, &'static str, u32>;

fn signals(answer: Polled<bool>) -> Event {
    LoaderEvent::Signals {
        answer,
        handle_is_closed: false,
    }
}

#[test]
fn signal_leads_to_a_configuration() {
    let mut stream = Stream::new("path");
    assert!(matches!(stream.poll_next(Event::Poll), LoaderAction::PollSignals));
    match stream.poll_next(signals(Polled::Ready(true))) {
        LoaderAction::Load(status) => assert_eq!(status, "path"),
        other => panic!("{other:?}"),
    }
    assert!(matches!(
        stream.poll_next(Event::Loaded(Some(7), "path")),
        LoaderAction::Deliver(7)
    ));
    assert!(matches!(stream.inner, Inner::Idle("path")));
}

#[test]
fn slow_load_is_polled_again() {
    let mut stream = Stream::new("path");
    stream.poll_next(Event::Poll);
    stream.poll_next(signals(Polled::Ready(true)));
    assert!(matches!(stream.poll_next(Event::Started(3)), LoaderAction::Wait));
    assert!(matches!(stream.inner, Inner::Future(3)));
    assert!(matches!(stream.poll_next(Event::Poll), LoaderAction::PollLoad));
    assert!(matches!(stream.poll_next(Event::StillLoading), LoaderAction::Wait));
    assert!(matches!(stream.poll_next(Event::Poll), LoaderAction::PollLoad));
    assert!(matches!(
        stream.poll_next(Event::Loaded(None, "path")),
        LoaderAction::PollSignals
    ));
    assert!(matches!(
        stream.poll_next(signals(Polled::Pending)),
        LoaderAction::Wait
    ));
}

#[test]
fn end_of_signals_closes_the_handle() {
    let mut stream = Stream::new("path");
    assert!(matches!(
        stream.poll_next(signals(Polled::Ready(false))),
        LoaderAction::End { close: true }
    ));
    assert!(matches!(
        stream.poll_next(Event::Signals {
            answer: Polled::Ready(false),
            handle_is_closed: true
        }),
        LoaderAction::End { close: false }
    ));
    assert!(must_close(false));
    assert!(!must_close(true));
}

#[test]
fn state_is_taken_out_once() {
    let mut inner = Inner::Idle("path");
    assert_eq!(inner.future_or_inner().err().copied(), Some("path"));
    assert_eq!(inner.take_none(), Some("path"));
    assert!(matches!(inner, Inner::Invalid));
    assert_eq!(inner.take_none(), None);
    let mut inner = Inner::Future(4);
    *inner.future_or_inner().unwrap() += 1;
    assert_eq!(inner.take_none(), None);
    assert!(matches!(inner, Inner::Future(5)));
}

#[test]
fn failed_loads_close_the_handle() {
    assert_eq!(load_outcome(LoadResult::Parsed(3)), (Some(3), false));
    assert_eq!(load_outcome::<u8>(LoadResult::Unreadable), (None, true));
    assert_eq!(load_outcome::<u8>(LoadResult::Unparsable), (None, true));
}
