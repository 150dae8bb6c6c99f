use maraetai::engine::{Command, Effect, EngineState, Event};
use maraetai::ieee::{Real32, Real64};
use maraetai::playback::{RepeatMode, Status, TrackMeta};
use maraetai::time::Duration;

const BARS: usize = 4;

fn track(id: &str) -> TrackMeta {
    TrackMeta {
        stream_url: format!("http://music/{id}"),
        song_id: id.to_string(),
        title: id.to_string(),
        artist: String::new(),
        album: String::new(),
        art_url: None,
        duration: Some(Duration::from_secs(60)),
        format_label: "FLAC".to_string(),
        lossless: true,
        replay_gain_db: Real64 { bits: (-6.5f64).to_bits() },
    }
}

fn tracks(ids: &[&str]) -> Vec<TrackMeta> {
    ids.iter().map(|id| track(id)).collect()
}

fn start_of(id: &str) -> Effect {
    Effect::Load { track: track(id) }
}

fn played(id: &str) -> Effect {
    Effect::Scrobble { song_id: id.to_string(), submission: true }
}

fn status(status: Status) -> Effect {
    Effect::Notify(Event::StatusChanged(status))
}

/// Tells the engine something, a second into the track.
fn tell(engine: &mut EngineState, command: Command) -> Vec<Effect> {
    engine.handle(command, Duration::from_secs(1))
}

/// An engine that plays the first of the tracks.
fn playing(ids: &[&str]) -> EngineState {
    let mut engine = EngineState::new(BARS);
    let effects = tell(&mut engine, Command::PlayQueue { tracks: tracks(ids), start_index: 0 });
    assert_eq!(effects, vec![start_of(ids[0])]);
    engine.finish_load(Ok(()));
    engine
}

/// Tells the engine something that starts a track, and lets it open.
fn tell_and_open(engine: &mut EngineState, command: Command) -> Vec<Effect> {
    let effects = tell(engine, command);
    engine.finish_load(Ok(()));
    effects
}

fn current(engine: &EngineState) -> String {
    engine.snapshot.track.as_ref().map(|t| t.song_id.clone()).unwrap_or_default()
}

fn queue(engine: &EngineState) -> Vec<String> {
    engine.snapshot.queue.iter().map(|t| t.song_id.clone()).collect()
}

#[test]
fn an_opened_track_plays_and_is_announced() {
    let mut engine = EngineState::new(BARS);
    tell(&mut engine, Command::PlayQueue { tracks: tracks(&["a", "b"]), start_index: 1 });
    assert_eq!(engine.snapshot.status, Status::Stopped, "nothing plays before the stream opens");
    let effects = engine.finish_load(Ok(()));
    assert_eq!(
        effects,
        vec![
            Effect::SetSinkVolume {
                volume: Real32 { bits: 1.0f32.to_bits() },
                gain: Real64 { bits: (-6.5f64).to_bits() },
            },
            Effect::Scrobble { song_id: "b".to_string(), submission: false },
            Effect::Notify(Event::TrackChanged),
            status(Status::Playing),
        ]
    );
    assert_eq!(engine.snapshot.status, Status::Playing);
    assert_eq!(current(&engine), "b");
    assert_eq!((engine.snapshot.queue_index, engine.snapshot.queue_len), (1, 2));
}

#[test]
fn a_track_that_cannot_be_opened_is_reported() {
    let mut engine = EngineState::new(BARS);
    tell(&mut engine, Command::PlayQueue { tracks: tracks(&["a"]), start_index: 0 });
    let effects = engine.finish_load(Err("404 Not Found".to_string()));
    assert_eq!(
        effects,
        vec![
            Effect::Notify(Event::PlaybackError("could not play track: 404 Not Found".to_string())),
            status(Status::Stopped),
        ]
    );
    assert_eq!(engine.finish_load(Ok(())), vec![], "nothing was being opened any more");
}

#[test]
fn a_start_past_the_queue_is_its_last_track() {
    let mut engine = EngineState::new(BARS);
    let effects = tell(&mut engine, Command::PlayQueue { tracks: tracks(&["a", "b"]), start_index: 9 });
    assert_eq!(effects, vec![start_of("b")]);
}

#[test]
fn next_walks_the_queue_and_stops_at_its_end() {
    let mut engine = playing(&["a", "b"]);
    assert_eq!(
        tell_and_open(&mut engine, Command::Next),
        vec![Effect::StopSink, start_of("b")]
    );
    assert_eq!(current(&engine), "b");
    assert_eq!(tell(&mut engine, Command::Next), vec![]);
    assert_eq!(current(&engine), "b");
}

#[test]
fn next_starts_a_repeating_queue_over() {
    let mut engine = playing(&["a", "b"]);
    tell(&mut engine, Command::SetRepeat(RepeatMode::Queue));
    tell_and_open(&mut engine, Command::Next);
    tell_and_open(&mut engine, Command::Next);
    assert_eq!(current(&engine), "a");
}

#[test]
fn next_ignores_the_repeat_of_a_track() {
    let mut engine = playing(&["a", "b"]);
    tell(&mut engine, Command::SetRepeat(RepeatMode::Track));
    tell_and_open(&mut engine, Command::Next);
    assert_eq!(current(&engine), "b");
}

#[test]
fn previous_undoes_next_early_in_a_track() {
    let mut engine = playing(&["a", "b"]);
    tell_and_open(&mut engine, Command::Next);
    tell_and_open(&mut engine, Command::Previous);
    assert_eq!(current(&engine), "a");
}

#[test]
fn previous_restarts_a_track_that_is_well_under_way() {
    let mut engine = playing(&["a", "b"]);
    tell_and_open(&mut engine, Command::Next);
    let three = engine.handle(Command::Previous, Duration::from_millis(3_001));
    assert_eq!(three, vec![Effect::RestartSink]);
    assert_eq!(current(&engine), "b");
    // The first track of the order has nothing before it.
    let mut engine = playing(&["a", "b"]);
    assert_eq!(tell(&mut engine, Command::Previous), vec![Effect::RestartSink]);
}

#[test]
fn leaving_a_track_past_its_threshold_records_a_play() {
    let mut engine = playing(&["a", "b"]);
    let effects = engine.handle(Command::Next, Duration::from_secs(30));
    assert_eq!(effects, vec![played("a"), Effect::StopSink, start_of("b")]);
    let mut engine = playing(&["a", "b"]);
    let effects = engine.handle(Command::Stop, Duration::from_secs(30));
    assert_eq!(effects, vec![played("a"), Effect::StopSink, status(Status::Stopped)]);
}

#[test]
fn appending_interrupts_nothing() {
    let mut engine = playing(&["a"]);
    assert_eq!(tell(&mut engine, Command::AppendQueue(tracks(&["b"]))), vec![]);
    assert_eq!(queue(&engine), vec!["a", "b"]);
    assert_eq!(current(&engine), "a");
}

#[test]
fn appending_to_an_idle_player_starts_it() {
    let mut engine = EngineState::new(BARS);
    let effects = tell(&mut engine, Command::AppendQueue(tracks(&["a", "b"])));
    assert_eq!(effects, vec![start_of("a")]);
    let mut engine = playing(&["a"]);
    tell(&mut engine, Command::Stop);
    assert_eq!(tell(&mut engine, Command::AppendQueue(tracks(&["b"]))), vec![start_of("b")]);
    assert_eq!(tell(&mut EngineState::new(BARS), Command::AppendQueue(vec![])), vec![]);
}

#[test]
fn appending_after_the_queue_has_ended_starts_the_new_tracks() {
    let mut engine = playing(&["a"]);
    let ended = engine.poll(true, Duration::from_secs(60), None);
    assert_eq!(
        ended,
        vec![played("a"), Effect::Notify(Event::QueueEnded), status(Status::Stopped)]
    );
    let effects = tell(&mut engine, Command::AppendQueue(tracks(&["b"])));
    assert_eq!(effects, vec![Effect::StopSink, start_of("b")]);
}

#[test]
fn tracks_to_play_next_come_next() {
    let mut engine = playing(&["a", "d"]);
    assert_eq!(tell(&mut engine, Command::PlayNext(tracks(&["b", "c"]))), vec![]);
    assert_eq!(queue(&engine), vec!["a", "b", "c", "d"]);
    for expected in ["b", "c", "d"] {
        tell_and_open(&mut engine, Command::Next);
        assert_eq!(current(&engine), expected);
    }
}

#[test]
fn moving_keeps_what_plays() {
    let mut engine = playing(&["a", "b", "c"]);
    assert_eq!(tell(&mut engine, Command::MoveInQueue { from: 0, to: 2 }), vec![]);
    assert_eq!(queue(&engine), vec!["b", "c", "a"]);
    assert_eq!(current(&engine), "a");
    assert_eq!(engine.snapshot.queue_index, 2);
    tell(&mut engine, Command::MoveInQueue { from: 2, to: 0 });
    assert_eq!(queue(&engine), vec!["a", "b", "c"]);
    assert_eq!(tell(&mut engine, Command::MoveInQueue { from: 0, to: 3 }), vec![]);
    assert_eq!(queue(&engine), vec!["a", "b", "c"], "a place past the queue is no place");
}

#[test]
fn removing_another_track_keeps_what_plays() {
    let mut engine = playing(&["a", "b", "c"]);
    tell_and_open(&mut engine, Command::PlayAt(1));
    assert_eq!(tell(&mut engine, Command::RemoveFromQueue(0)), vec![]);
    assert_eq!(queue(&engine), vec!["b", "c"]);
    assert_eq!(current(&engine), "b");
    assert_eq!(engine.snapshot.queue_index, 0);
}

#[test]
fn removing_the_current_track_goes_on() {
    let mut engine = playing(&["a", "b"]);
    let effects = tell(&mut engine, Command::RemoveFromQueue(0));
    assert_eq!(effects, vec![Effect::StopSink, start_of("b")]);
    engine.finish_load(Ok(()));
    let effects = tell(&mut engine, Command::RemoveFromQueue(0));
    assert_eq!(
        effects,
        vec![
            Effect::StopSink,
            status(Status::Stopped),
            Effect::Notify(Event::QueueEnded),
        ]
    );
    assert_eq!(queue(&engine), Vec::<String>::new());
    assert_eq!(engine.snapshot.track, None);
}

#[test]
fn clearing_leaves_nothing() {
    let mut engine = playing(&["a", "b"]);
    let effects = tell(&mut engine, Command::ClearQueue);
    assert_eq!(
        effects,
        vec![Effect::StopSink, status(Status::Stopped), Effect::Notify(Event::QueueEnded)]
    );
    assert_eq!(engine.snapshot.queue_len, 0);
    assert_eq!(engine.snapshot.status, Status::Stopped);
    assert_eq!(engine.snapshot.track, None);
    assert_eq!(engine.snapshot.spectrum, vec![0u8; BARS]);
}

#[test]
fn shuffling_keeps_what_plays() {
    let ids = ["a", "b", "c", "d", "e", "f"];
    let mut engine = playing(&ids);
    tell_and_open(&mut engine, Command::PlayAt(3));
    assert_eq!(tell(&mut engine, Command::ToggleShuffle), vec![]);
    assert!(engine.snapshot.shuffle);
    assert_eq!(current(&engine), "d");
    assert_eq!(engine.play_order[0], 3);
    assert_eq!(queue(&engine), ids.to_vec(), "the queue itself stays as it was");
    // Every other track comes once.
    let mut heard = vec![current(&engine)];
    for _ in 1..ids.len() {
        tell_and_open(&mut engine, Command::Next);
        heard.push(current(&engine));
    }
    heard.sort_unstable();
    assert_eq!(heard, ids.to_vec());
    assert_eq!(tell(&mut engine, Command::SetShuffle(true)), vec![]);
    tell(&mut engine, Command::SetShuffle(false));
    assert_eq!(engine.play_order, vec![0, 1, 2, 3, 4, 5]);
}

#[test]
fn a_given_order_is_taken() {
    let mut engine = playing(&["a", "b", "c"]);
    engine.apply(Command::ToggleShuffle, Duration::zero(), vec![0, 2, 1]);
    tell_and_open(&mut engine, Command::Next);
    assert_eq!(current(&engine), "c");
    tell_and_open(&mut engine, Command::Next);
    assert_eq!(current(&engine), "b");
    // A shuffled queue that repeats is shuffled anew when it starts over.
    tell(&mut engine, Command::SetRepeat(RepeatMode::Queue));
    let effects = engine.apply(Command::Next, Duration::zero(), vec![1, 0, 2]);
    assert_eq!(effects, vec![Effect::StopSink, start_of("b")]);
    assert_eq!(engine.play_order, vec![1, 0, 2]);
}

#[test]
fn a_repeating_track_follows_itself() {
    let mut engine = playing(&["a", "b"]);
    tell(&mut engine, Command::CycleRepeat);
    assert_eq!(engine.snapshot.repeat, RepeatMode::Track);
    let effects = engine.poll(true, Duration::from_secs(60), None);
    assert_eq!(effects, vec![played("a"), Effect::StopSink, start_of("a")]);
}

#[test]
fn an_ended_track_is_followed_by_the_next() {
    let mut engine = playing(&["a", "b"]);
    let effects = engine.poll(true, Duration::from_secs(60), None);
    assert_eq!(effects, vec![played("a"), Effect::StopSink, start_of("b")]);
    // Nothing ends while the next track opens.
    assert_eq!(engine.poll(true, Duration::zero(), None), vec![]);
}

#[test]
fn an_ended_queue_that_repeats_starts_over() {
    let mut engine = playing(&["a"]);
    tell(&mut engine, Command::SetRepeat(RepeatMode::Queue));
    let effects = engine.apply_poll(true, Duration::from_secs(60), None, vec![]);
    assert_eq!(effects, vec![played("a"), Effect::StopSink, start_of("a")]);
}

#[test]
fn position_and_spectrum_are_published() {
    let mut engine = playing(&["a"]);
    assert_eq!(engine.poll(false, Duration::from_secs(7), Some(vec![1, 2, 3, 4])), vec![]);
    assert_eq!(engine.snapshot.position, Duration::from_secs(7));
    assert_eq!(engine.snapshot.spectrum, vec![1, 2, 3, 4]);
    tell(&mut engine, Command::Pause);
    assert_eq!(engine.snapshot.spectrum, vec![0u8; BARS], "a paused track shows no bars");
    engine.poll(false, Duration::from_secs(8), Some(vec![9, 9, 9, 9]));
    assert_eq!(engine.snapshot.position, Duration::from_secs(8));
    assert_eq!(engine.snapshot.spectrum, vec![0u8; BARS]);
}

#[test]
fn the_spectrum_rests_after_a_change() {
    let loud = |engine: &mut EngineState| {
        engine.poll(false, Duration::from_secs(7), Some(vec![1, 2, 3, 4]));
        assert_eq!(engine.snapshot.spectrum, vec![1, 2, 3, 4]);
    };
    let mut engine = playing(&["a", "b"]);
    loud(&mut engine);
    tell_and_open(&mut engine, Command::Next);
    assert_eq!(engine.snapshot.spectrum, vec![0u8; BARS], "another track");
    loud(&mut engine);
    engine.finish_seek(Duration::from_secs(20), true);
    assert_eq!(engine.snapshot.spectrum, vec![0u8; BARS], "another place");
    loud(&mut engine);
    tell(&mut engine, Command::PlayAt(0));
    engine.finish_load(Err("gone".to_string()));
    assert_eq!(engine.snapshot.spectrum, vec![0u8; BARS], "nothing plays");
}

#[test]
fn a_move_with_shuffle_off_changes_what_comes_next() {
    let mut engine = playing(&["a", "b", "c"]);
    tell(&mut engine, Command::MoveInQueue { from: 0, to: 2 });
    assert_eq!(engine.play_order, vec![0, 1, 2]);
    assert_eq!((engine.index, engine.order_pos), (2, 2));
    assert_eq!(tell(&mut engine, Command::Next), vec![], "nothing follows the last track");
    assert_eq!((current(&engine), engine.snapshot.queue_index), ("a".to_string(), 2));
    tell(&mut engine, Command::SetRepeat(RepeatMode::Queue));
    tell_and_open(&mut engine, Command::Next);
    assert_eq!((current(&engine), engine.snapshot.queue_index), ("b".to_string(), 0));
}

#[test]
fn a_move_with_shuffle_on_keeps_what_comes_next() {
    let mut engine = playing(&["a", "b", "c"]);
    engine.apply(Command::ToggleShuffle, Duration::zero(), vec![0, 2, 1]);
    tell(&mut engine, Command::MoveInQueue { from: 0, to: 2 });
    assert_eq!(queue(&engine), vec!["b", "c", "a"]);
    assert_eq!(engine.play_order, vec![2, 1, 0]);
    for expected in ["c", "b"] {
        tell_and_open(&mut engine, Command::Next);
        assert_eq!(current(&engine), expected);
    }
}

#[test]
fn the_published_place_is_in_the_queue() {
    let mut engine = playing(&["a", "b"]);
    tell_and_open(&mut engine, Command::Next);
    tell(&mut engine, Command::PlayQueue { tracks: tracks(&["c"]), start_index: 0 });
    engine.finish_load(Err("gone".to_string()));
    assert_eq!((engine.snapshot.queue_index, engine.snapshot.queue_len), (0, 1));
    assert_eq!(engine.snapshot.status, Status::Stopped);
    // The last track is removed, and the one before it does not open.
    let mut engine = playing(&["a", "b"]);
    tell_and_open(&mut engine, Command::Next);
    tell(&mut engine, Command::RemoveFromQueue(1));
    engine.finish_load(Err("gone".to_string()));
    assert_eq!((engine.snapshot.queue_index, engine.snapshot.queue_len), (0, 1));
}

#[test]
fn a_queue_of_nothing_stops_what_plays() {
    let mut engine = playing(&["a", "b"]);
    tell_and_open(&mut engine, Command::Next);
    engine.poll(false, Duration::from_secs(7), Some(vec![1, 2, 3, 4]));
    let nothing = Command::PlayQueue { tracks: vec![], start_index: 0 };
    assert_eq!(
        engine.handle(nothing, Duration::from_secs(30)),
        vec![
            played("b"),
            Effect::StopSink,
            status(Status::Stopped),
        ]
    );
    assert_eq!(engine.snapshot.status, Status::Stopped);
    assert_eq!(current(&engine), "b", "what was played last stays published");
    assert_eq!((engine.snapshot.queue_index, engine.snapshot.queue_len), (0, 0));
    assert_eq!(engine.snapshot.spectrum, vec![0u8; BARS]);
}

#[test]
fn a_queue_of_nothing_is_no_news_to_an_idle_player() {
    let mut engine = EngineState::new(BARS);
    let nothing = Command::PlayQueue { tracks: vec![], start_index: 0 };
    assert_eq!(tell(&mut engine, nothing), vec![]);
}

#[test]
fn a_start_past_the_queue_only_stops() {
    let mut engine = playing(&["a"]);
    let mut out = Vec::new();
    engine.start_playback_at(Duration::from_secs(1), 1, &mut out);
    assert_eq!(out, vec![Effect::StopSink, status(Status::Stopped)]);
    assert_eq!((engine.loaded, engine.snapshot.status), (false, Status::Stopped));
}

#[test]
fn pausing_and_resuming_need_something_to_play() {
    let mut engine = EngineState::new(BARS);
    assert_eq!(tell(&mut engine, Command::Pause), vec![]);
    assert_eq!(tell(&mut engine, Command::Resume), vec![]);
    let mut engine = playing(&["a"]);
    assert_eq!(
        tell(&mut engine, Command::Pause),
        vec![Effect::PauseSink, status(Status::Paused)]
    );
    assert_eq!(
        tell(&mut engine, Command::Resume),
        vec![Effect::ResumeSink, status(Status::Playing)]
    );
}

#[test]
fn seeking_is_announced_where_it_worked() {
    let mut engine = playing(&["a"]);
    let target = Duration::from_secs(20);
    assert_eq!(
        tell(&mut engine, Command::Seek(target)),
        vec![Effect::SeekSink { position: target }]
    );
    assert_eq!(engine.finish_seek(target, true), vec![Effect::Notify(Event::Seeked(target))]);
    assert_eq!(engine.snapshot.position, target);
    assert_eq!(engine.finish_seek(Duration::from_secs(30), false), vec![]);
    assert_eq!(engine.snapshot.position, target);
}

#[test]
fn the_volume_reaches_the_sink() {
    let half = Real32 { bits: 0.5f32.to_bits() };
    let mut engine = EngineState::new(BARS);
    assert_eq!(tell(&mut engine, Command::SetVolume(half)), vec![]);
    assert_eq!(engine.snapshot.volume, half);
    let mut engine = playing(&["a"]);
    assert_eq!(
        tell(&mut engine, Command::SetVolume(half)),
        vec![Effect::SetSinkVolume { volume: half, gain: Real64 { bits: (-6.5f64).to_bits() } }]
    );
}

#[test]
fn shutting_down_stops_the_sink() {
    let mut engine = playing(&["a"]);
    assert_eq!(tell(&mut engine, Command::Shutdown), vec![Effect::StopSink, Effect::Exit]);
    assert_eq!(tell(&mut EngineState::new(BARS), Command::Shutdown), vec![Effect::Exit]);
}
