use iwdrs::property_stream::{PropertyStream, Pull, StreamEvent};
use iwdrs::station::{scan_progress, ScanProgress};

fn item(p: Pull<bool, String>) -> Result<bool, String> {
    match p {
        Pull::Item(x) => x,
        Pull::Wait => panic!("stream waits"),
        Pull::End => panic!("stream ended"),
    }
}

#[test]
fn first_pull_yields_the_initial_read() {
    let mut s: PropertyStream<bool, String> = PropertyStream::new(Ok(true));
    assert_eq!(item(s.pull()), Ok(true));
    assert!(matches!(s.pull(), Pull::Wait));
    assert!(matches!(s.pull(), Pull::Wait));
}

#[test]
fn later_values_follow_in_notification_order() {
    let mut s: PropertyStream<u32, String> = PropertyStream::new(Ok(1));
    assert!(matches!(s.pull(), Pull::Item(Ok(1))));
    assert!(matches!(s.pull(), Pull::Wait));
    assert!(matches!(s.on_event(StreamEvent::Changed(Ok(1))), Pull::Item(Ok(1))));
    assert!(matches!(s.on_event(StreamEvent::Changed(Ok(2))), Pull::Item(Ok(2))));
    assert!(matches!(s.pull(), Pull::Wait));
    assert!(matches!(s.on_event(StreamEvent::Closed), Pull::End));
    assert!(matches!(s.pull(), Pull::End));
}

#[test]
fn an_error_is_yielded_once_and_ends_the_stream() {
    let mut s: PropertyStream<u32, String> = PropertyStream::new(Ok(7));
    assert!(matches!(s.pull(), Pull::Item(Ok(7))));
    match s.on_event(StreamEvent::Changed(Err("gone".to_string()))) {
        Pull::Item(Err(e)) => assert_eq!(e, "gone"),
        other => panic!("unexpected pull {:?}", other),
    }
    assert!(matches!(s.pull(), Pull::End));
}

#[test]
fn a_failed_initial_read_is_yielded_then_ends() {
    let mut s: PropertyStream<u32, String> = PropertyStream::new(Err("no such property".to_string()));
    assert!(matches!(s.pull(), Pull::Item(Err(_))));
    assert!(matches!(s.pull(), Pull::End));
}

#[test]
fn scan_wait_skips_while_scanning() {
    assert_eq!(scan_progress::<String>(Some(Ok(true))), ScanProgress::StillScanning);
    assert_eq!(scan_progress::<String>(Some(Ok(false))), ScanProgress::Complete);
    assert_eq!(scan_progress::<String>(Some(Err("x".to_string()))), ScanProgress::Failed("x".to_string()));
    assert_eq!(scan_progress::<String>(None), ScanProgress::Ended);
}
