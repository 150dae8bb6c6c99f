use maraetai::cli::{
    gave_up_line, keeps_waiting, play_entry, playing_line, poll_interval, status_line,
};
use maraetai::control::{
    bad_request, dispatch, framed, IdleTimer, CONTROL_BUS_NAME, CONTROL_INTERFACE,
    CONTROL_OBJECT_PATH, IDLE_CHECK_SECS, request_fits,
};
use maraetai::engine::{Command, Event};
use maraetai::ieee::{Real32, Real64};
use maraetai::mpris::{
    loop_status, metadata, play_pause, position_micros, seek_by, set_loop_status, set_position,
    signal_for, LoopStatus, Signal,
};
use maraetai::playback::{RepeatMode, Snapshot, Status, TrackMeta};
use maraetai::protocol::{
    queue_reply, spectrum_reply, status_reply, unit_reply, CallError, QueueEntry, Request,
    Response, StatusTuple,
};
use maraetai::time::Duration;
use maraetai::update_check::{
    check_for_update, install_failure, is_update_available, remote_commit, summary_of, TAIL_LINES,
};

fn entry(id: &str) -> QueueEntry {
    QueueEntry {
        stream_url: format!("http://music/{id}"),
        title: id.to_string(),
        artist: String::new(),
        album: String::new(),
        art_url: "http://art".to_string(),
        duration: Real64 { bits: 60.0f64.to_bits() },
        format_label: String::new(),
        lossless: false,
        song_id: id.to_string(),
        replay_gain_db: Real64::zero(),
    }
}

fn track(id: &str) -> TrackMeta {
    TrackMeta {
        stream_url: format!("http://music/{id}"),
        song_id: id.to_string(),
        title: id.to_string(),
        artist: String::new(),
        album: String::new(),
        art_url: Some("http://art".to_string()),
        duration: Some(Duration::from_secs(60)),
        format_label: String::new(),
        lossless: false,
        replay_gain_db: Real64::zero(),
    }
}

fn angel() -> StatusTuple {
    StatusTuple {
        status: "playing".into(),
        title: "Angel".into(),
        artist: "Massive Attack".into(),
        album: "Mezzanine".into(),
        position: Duration::from_secs(1),
        duration: Duration::from_secs(2),
        queue_index: 0,
        queue_len: 1,
        volume: Real32 { bits: 1.0f32.to_bits() },
        format_label: "FLAC".into(),
        lossless: true,
        art_url: String::new(),
        song_id: "song1".into(),
        repeat: "off".into(),
        shuffle: false,
    }
}

#[test]
fn service_matches_common_dbus_constants() {
    assert_eq!(CONTROL_BUS_NAME, "com.maraetai.Daemon");
    assert_eq!(CONTROL_OBJECT_PATH, "/com/maraetai/Daemon");
    assert_eq!(CONTROL_INTERFACE, "com.maraetai.Daemon1");
}

#[test]
fn an_error_response_surfaces_as_an_error() {
    let err = unit_reply(Response::Error("no such track".into())).unwrap_err();
    assert!(err.message().contains("no such track"));
}

#[test]
fn each_reply_has_one_shape() {
    let status = status_reply(Response::Status(angel())).unwrap();
    assert_eq!(status.status, "playing");
    assert_eq!(status.title, "Angel");
    assert_eq!(status.song_id, "song1");
    assert_eq!(unit_reply(Response::Unit), Ok(()));
    assert_eq!(queue_reply(Response::Queue(vec![])), Ok(vec![]));
    assert_eq!(spectrum_reply(Response::Spectrum(vec![3])), Ok(vec![3]));
    assert_eq!(unit_reply(Response::Spectrum(vec![])), Err(CallError::UnexpectedShape));
    assert_eq!(queue_reply(Response::Unit), Err(CallError::UnexpectedShape));
    assert_eq!(spectrum_reply(Response::Unit), Err(CallError::UnexpectedShape));
    assert_eq!(status_reply(Response::Unit), Err(CallError::UnexpectedShape));
    assert_eq!(
        status_reply(Response::Error("gone".into())),
        Err(CallError::Refused("gone".to_string()))
    );
}

#[test]
fn a_command_goes_to_the_engine_and_is_answered_at_once() {
    let snapshot = Snapshot::initial(4);
    let d = dispatch(
        Request::PlayQueue { tracks: vec![entry("a"), entry("b")], start_index: 1 },
        &snapshot,
    );
    assert_eq!(
        d.command,
        Some(Command::PlayQueue { tracks: vec![track("a"), track("b")], start_index: 1 })
    );
    assert_eq!(d.response, Response::Unit);
    assert!(d.activity && !d.quit);
    let d = dispatch(Request::MoveInQueue { from: 1, to: 4 }, &snapshot);
    assert_eq!(d.command, Some(Command::MoveInQueue { from: 1, to: 4 }));
    let d = dispatch(Request::SeekTo { position: Duration::from_millis(12_500) }, &snapshot);
    assert_eq!(d.command, Some(Command::Seek(Duration::from_millis(12_500))));
}

#[test]
fn looking_tells_the_engine_nothing() {
    let mut snapshot = Snapshot::initial(2);
    snapshot.queue = vec![track("a")];
    snapshot.spectrum = vec![5, 6];
    let d = dispatch(Request::Queue, &snapshot);
    assert_eq!((d.command, d.activity), (None, false));
    let rows = queue_reply(d.response).unwrap();
    assert_eq!(rows.len(), 1);
    assert_eq!(rows[0].song_id, "a");
    let d = dispatch(Request::Spectrum, &snapshot);
    assert_eq!((d.command, d.activity, d.response), (None, false, Response::Spectrum(vec![5, 6])));
    let d = dispatch(Request::Status, &snapshot);
    assert_eq!((d.command, d.activity), (None, true));
    assert_eq!(status_reply(d.response).unwrap().status, "stopped");
}

#[test]
fn quitting_is_answered_before_it_happens() {
    let d = dispatch(Request::Quit, &Snapshot::initial(4));
    assert!(d.quit);
    assert_eq!((d.command, d.response), (None, Response::Unit));
}

#[test]
fn a_line_that_is_no_request_is_answered_with_why() {
    assert_eq!(
        bad_request("expected value at line 1 column 1"),
        Response::Error("bad request: expected value at line 1 column 1".to_string())
    );
    assert_eq!(framed("\"Next\"".to_string()), "\"Next\"\n");
}

#[test]
fn an_idle_daemon_is_let_go() {
    let mut timer = IdleTimer::new(Duration::from_secs(60));
    assert_eq!(timer.check_interval(), Duration::from_secs(IDLE_CHECK_SECS));
    assert!(!timer.tick(false, false));
    assert!(!timer.tick(true, false), "activity starts the wait over");
    assert!(!timer.tick(false, true), "so does playback");
    assert!(!timer.tick(false, false));
    assert!(timer.tick(false, false));
}

#[test]
fn a_short_timeout_is_checked_in_time() {
    let timer = IdleTimer::new(Duration::from_secs(10));
    assert_eq!(timer.check_interval(), Duration::from_secs(10));
}

#[test]
fn loop_statuses_read_back() {
    for (repeat, shown) in [
        (RepeatMode::Off, LoopStatus::NoLoop),
        (RepeatMode::Track, LoopStatus::Track),
        (RepeatMode::Queue, LoopStatus::Playlist),
    ] {
        assert_eq!(loop_status(repeat), shown);
        assert_eq!(set_loop_status(shown), Command::SetRepeat(repeat));
    }
}

#[test]
fn media_keys_become_commands() {
    assert_eq!(play_pause(Status::Playing), Command::Pause);
    assert_eq!(play_pause(Status::Paused), Command::Resume);
    assert_eq!(play_pause(Status::Stopped), Command::Resume);
    let here = Duration::from_secs(10);
    assert_eq!(seek_by(here, 5_000_000), Command::Seek(Duration::from_secs(15)));
    assert_eq!(seek_by(here, -20_000_000), Command::Seek(Duration::zero()));
    assert_eq!(set_position(2_500_000), Command::Seek(Duration::from_millis(2_500)));
    assert_eq!(set_position(-1), Command::Seek(Duration::zero()));
    assert_eq!(position_micros(Duration::from_millis(1)), 1_000);
}

#[test]
fn the_current_track_is_described() {
    let mut snapshot = Snapshot::initial(4);
    assert_eq!(metadata(&snapshot), None);
    snapshot.track = Some(track("a"));
    let m = metadata(&snapshot).unwrap();
    assert_eq!(m.title, "a");
    assert_eq!(m.length_micros, Some(60_000_000));
    assert_eq!(m.art_url, Some("http://art".to_string()));
}

#[test]
fn events_become_signals() {
    assert_eq!(
        signal_for(&Event::StatusChanged(Status::Paused)),
        Some(Signal::PlaybackStatus(Status::Paused))
    );
    assert_eq!(signal_for(&Event::TrackChanged), Some(Signal::MetadataChanged));
    assert_eq!(
        signal_for(&Event::Seeked(Duration::from_secs(1))),
        Some(Signal::Seeked { micros: 1_000_000 })
    );
    assert_eq!(signal_for(&Event::QueueEnded), None);
    assert_eq!(signal_for(&Event::PlaybackError("x".to_string())), None);
}

#[test]
fn update_available_when_remote_sha_does_not_start_with_the_built_from_hash() {
    assert!(is_update_available("abcdef1234567890", "000000000000"));
}

#[test]
fn no_update_when_remote_sha_starts_with_the_built_from_hash() {
    assert!(!is_update_available("abcdef123456fedcba0987", "abcdef123456"));
}

#[test]
fn no_update_reported_when_built_from_hash_is_unknown() {
    assert!(!is_update_available("abcdef123456", "unknown"));
}

#[test]
fn a_commit_is_shown_by_its_first_line() {
    let commit = || {
        let (sha, date) = ("abcdef123456".to_string(), "2026-01-02T03:04:05Z".to_string());
        remote_commit(sha, date, "Add lyrics\n\nA long body.")
    };
    let found = check_for_update(commit(), "000000000000");
    assert!(found.update_available);
    assert_eq!(found.remote.sha, "abcdef123456");
    assert_eq!(found.remote.date, "2026-01-02T03:04:05Z");
    assert_eq!(found.remote.summary, "Add lyrics");
    assert!(!check_for_update(commit(), "abcdef").update_available);
    assert_eq!(summary_of(""), "");
}

#[test]
fn a_track_longer_than_a_duration_does_not_fit() {
    let long = |secs: f64| {
        let track = QueueEntry { duration: Real64 { bits: secs.to_bits() }, ..entry("a") };
        Request::AppendQueue { tracks: vec![entry("b"), track] }
    };
    assert!(request_fits(&long(1e12)));
    assert!(request_fits(&long(-1e300)), "a negative length is none");
    assert!(!request_fits(&long(1e20)));
    assert!(request_fits(&Request::Next));
}

#[test]
fn a_failed_install_shows_its_last_lines() {
    let stderr = (1..=9).map(|i| i.to_string()).collect::<Vec<String>>().join("\n");
    assert_eq!(TAIL_LINES, 6);
    assert_eq!(
        install_failure("maraetai", &stderr),
        "maraetai failed to install:\n4\n5\n6\n7\n8\n9"
    );
    assert_eq!(install_failure("maraetai", "oops\n"), "maraetai failed to install:\noops");
}

#[test]
fn the_status_is_one_line() {
    let mut shown = angel();
    assert_eq!(
        status_line(&shown, "1.0", "2.0"),
        "daemon running \u{2014} playing: Angel by Massive Attack (1.0s / 2.0s) [FLAC] [1 of 1]"
    );
    shown.artist = String::new();
    shown.duration = Duration::zero();
    shown.format_label = String::new();
    shown.queue_len = 0;
    assert_eq!(status_line(&shown, "1.0", "0.0"), "daemon running \u{2014} playing: Angel (1.0s)");
    shown.title = String::new();
    shown.status = "stopped".to_string();
    assert_eq!(status_line(&shown, "0.0", "0.0"), "daemon running \u{2014} stopped");
}

#[test]
fn playing_by_song_id_makes_an_entry() {
    let e = play_entry("http://music/s1".to_string(), "s1".to_string(), None, None, None);
    assert_eq!(e.stream_url, "http://music/s1");
    assert_eq!(e.song_id, "s1");
    assert_eq!((e.title, e.artist, e.album), (String::new(), String::new(), String::new()));
    let named = play_entry(
        "http://music/s1".to_string(),
        "s1".to_string(),
        Some("Angel".to_string()),
        Some("Massive Attack".to_string()),
        Some("Mezzanine".to_string()),
    );
    assert_eq!(named.title, "Angel");
    assert_eq!(named.artist, "Massive Attack");
    assert_eq!(named.album, "Mezzanine");
    assert_eq!(playing_line("s1"), "playing song s1");
}

#[test]
fn a_spawned_daemon_is_waited_for() {
    assert!(keeps_waiting(Duration::from_millis(4_999)));
    assert!(!keeps_waiting(Duration::from_secs(5)));
    assert_eq!(poll_interval(), Duration::from_millis(100));
    assert_eq!(
        gave_up_line("/usr/bin/maraetaid"),
        "daemon did not become reachable within 5s of starting /usr/bin/maraetaid"
    );
}
