use demo_things::option_stream::{OptionStream, OptionStreamInner};
use demo_things::polled::Polled;

fn count(source: &mut u8) -> Polled<Option<u8>> {
    *source += 1;
    Polled::Ready(Some(*source))
}

#[test]
fn present_source_answers() {
    let mut stream = OptionStream::from(Some(4));
    assert_eq!(stream.poll_next(count), Polled::Ready(Some(5)));
    assert_eq!(stream.poll_next(count), Polled::Ready(Some(6)));
    assert_eq!(stream.inner, OptionStreamInner::Present { inner: 6 });
}

#[test]
fn streams_are_copied_and_compared() {
    let stream = OptionStream::from(Some(4));
    let copy = stream;
    assert_eq!(stream, copy);
    assert!(stream < OptionStream::from(None));
    assert!(OptionStream::from(Some(3)) < stream);
    assert_ne!(stream, OptionStream::default());
}

#[test]
fn absent_source_never_answers() {
    let mut stream = OptionStream::from(None);
    assert_eq!(stream.poll_next(count), Polled::Pending);
    let mut stream = OptionStream::default();
    assert_eq!(stream.poll_next(count), Polled::Pending);
    assert_eq!(stream.inner, OptionStreamInner::Absent);
}
