use maraetai::range::{RangeState, SeekFault, SeekTarget, PARTIAL_CONTENT};

#[test]
fn a_stream_is_asked_for_from_the_position_on() {
    let mut s = RangeState::new();
    assert_eq!(s.range(), "bytes=0-");
    assert_eq!(s.connect(PARTIAL_CONTENT, Some("bytes 0-999/1000"), Some(1000)), 0);
    assert_eq!(s.len, Some(1000));
    s.advance(10);
    assert_eq!(s.range(), "bytes=10-");
    assert!(!s.at_end());
    s.advance(990);
    assert!(s.at_end());
}

#[test]
fn a_seek_lets_the_connection_go() {
    let mut s = RangeState::new();
    s.connect(PARTIAL_CONTENT, Some("bytes 0-999/1000"), None);
    assert_eq!(s.seek(SeekTarget::Current(0)), Ok(0));
    assert!(s.connected, "nothing moved");
    assert_eq!(s.seek(SeekTarget::Start(500)), Ok(500));
    assert!(!s.connected);
    assert_eq!(s.seek(SeekTarget::End(-1)), Ok(999));
    assert_eq!(s.seek(SeekTarget::Current(-999)), Ok(0));
    assert_eq!(s.seek(SeekTarget::Current(-1)), Err(SeekFault::OutOfRange));
    assert_eq!(s.position, 0, "a seek that fails goes nowhere");
    assert_eq!(RangeState::new().seek(SeekTarget::End(0)), Err(SeekFault::UnknownLength));
}

#[test]
fn a_server_without_ranges_is_read_past_the_start() {
    let mut s = RangeState::new();
    assert_eq!(s.connect(200, None, Some(1000)), 0);
    assert_eq!(s.len, Some(1000));
    s.seek(SeekTarget::Start(400)).unwrap();
    assert_eq!(s.connect(200, None, None), 400);
    assert_eq!(s.len, Some(1000), "a length that was told is kept");
}

#[test]
fn a_total_that_is_not_told_is_not_known() {
    let mut s = RangeState::new();
    s.connect(PARTIAL_CONTENT, Some("bytes 0-999/*"), Some(1000));
    assert_eq!(s.len, None);
    s.connect(PARTIAL_CONTENT, Some("bytes"), None);
    s.connect(PARTIAL_CONTENT, None, None);
    assert_eq!(s.len, None);
}

#[test]
fn seeking_back_leads_back() {
    let mut s = RangeState::new();
    s.connect(PARTIAL_CONTENT, Some("bytes 0-999/1000"), None);
    s.advance(42);
    s.seek(SeekTarget::End(0)).unwrap();
    s.seek(SeekTarget::Start(42)).unwrap();
    assert_eq!(s, RangeState { position: 42, len: Some(1000), connected: false });
}
