use maraetai::playback::{
    device_line, match_output_device, outgoing_scrobble, queue_row_from_track, scrobble_threshold,
    status_tuple_from_snapshot, track_meta_from_entry, RepeatMode, Snapshot, Status, TrackMeta,
};
use maraetai::ieee::{Real32, Real64};
use maraetai::play_order::{
    play_order_after_insert, play_order_after_move, play_order_after_remove,
    remap_index_after_move, shuffled_play_order,
};
use maraetai::protocol::QueueEntry;
use maraetai::time::{whole_secs, Duration};

fn entry(id: &str, secs: u64) -> QueueEntry {
    QueueEntry {
        stream_url: format!("http://music/{id}"),
        title: format!("title {id}"),
        artist: "Massive Attack".to_string(),
        album: "Mezzanine".to_string(),
        art_url: String::new(),
        duration: Real64 { bits: (secs as f64).to_bits() },
        format_label: "FLAC".to_string(),
        lossless: true,
        song_id: id.to_string(),
        replay_gain_db: Real64 { bits: (-6.5f64).to_bits() },
    }
}

fn track(id: &str, secs: u64) -> TrackMeta {
    track_meta_from_entry(entry(id, secs))
}

#[test]
fn match_output_device_prefers_an_exact_match() {
    let available = vec!["USB DAC".to_string(), "USB DAC (2)".to_string()];
    assert_eq!(match_output_device(&available, "USB DAC"), Some("USB DAC"));
}

#[test]
fn match_output_device_falls_back_to_a_substring_match() {
    let available = vec!["HDA Intel PCH: ALC1220 Analog".to_string()];
    assert_eq!(match_output_device(&available, "ALC1220"), Some("HDA Intel PCH: ALC1220 Analog"));
}

#[test]
fn match_output_device_is_case_insensitive() {
    let available = vec!["USB DAC".to_string()];
    assert_eq!(match_output_device(&available, "usb dac"), Some("USB DAC"));
}

#[test]
fn match_output_device_returns_none_when_nothing_matches() {
    let available = vec!["USB DAC".to_string()];
    assert_eq!(match_output_device(&available, "Bluetooth Headphones"), None);
}

#[test]
fn an_exact_device_name_beats_an_earlier_partial_one() {
    let available = vec!["USB DAC (2)".to_string(), "USB DAC".to_string()];
    assert_eq!(match_output_device(&available, "USB DAC"), Some("USB DAC"));
    assert_eq!(match_output_device(&available, "dac"), Some("USB DAC (2)"));
    assert_eq!(match_output_device(&[], "dac"), None);
}

#[test]
fn device_letters_beyond_ascii_are_matched_too() {
    let available = vec!["\u{c9}couteurs".to_string()];
    assert_eq!(match_output_device(&available, "\u{e9}COUT"), Some("\u{c9}couteurs"));
}

#[test]
fn the_default_device_is_marked() {
    assert_eq!(device_line("USB DAC", Some("USB DAC")), "USB DAC (default)");
    assert_eq!(device_line("USB DAC", Some("HDMI")), "USB DAC");
    assert_eq!(device_line("USB DAC", None), "USB DAC");
}

#[test]
fn scrobble_threshold_is_half_the_track_for_short_songs() {
    assert_eq!(scrobble_threshold(Duration::from_secs(60)), Duration::from_secs(30));
}

#[test]
fn scrobble_threshold_caps_at_four_minutes_for_long_songs() {
    assert_eq!(scrobble_threshold(Duration::from_secs(60 * 20)), Duration::from_secs(4 * 60));
}

#[test]
fn a_play_counts_from_the_threshold_on() {
    let current = Some(track("s1", 60));
    assert_eq!(outgoing_scrobble(&current, Duration::from_secs(30)), Some("s1".to_string()));
    assert_eq!(outgoing_scrobble(&current, Duration::from_millis(29_999)), None);
    assert_eq!(outgoing_scrobble(&None, Duration::from_secs(30)), None);
    assert_eq!(outgoing_scrobble(&Some(track("s1", 0)), Duration::from_secs(30)), None);
    assert_eq!(outgoing_scrobble(&Some(track("", 60)), Duration::from_secs(30)), None);
}

#[test]
fn repeat_mode_cycles_off_track_queue_and_back_to_off() {
    assert_eq!(RepeatMode::Off.cycle(), RepeatMode::Track);
    assert_eq!(RepeatMode::Track.cycle(), RepeatMode::Queue);
    assert_eq!(RepeatMode::Queue.cycle(), RepeatMode::Off);
}

#[test]
fn modes_have_names() {
    assert_eq!(RepeatMode::default(), RepeatMode::Off);
    assert_eq!(RepeatMode::Off.as_str(), "off");
    assert_eq!(RepeatMode::Track.as_str(), "track");
    assert_eq!(RepeatMode::Queue.as_str(), "queue");
    assert_eq!(Status::Stopped.as_str(), "stopped");
    assert_eq!(Status::Playing.as_str(), "playing");
    assert_eq!(Status::Paused.as_str(), "paused");
}

#[test]
fn play_order_is_identity_when_shuffle_is_off_regardless_of_anchor() {
    assert_eq!(shuffled_play_order(5, false, Some(3)), vec![0, 1, 2, 3, 4]);
    assert_eq!(shuffled_play_order(5, false, None), vec![0, 1, 2, 3, 4]);
}

#[test]
fn play_order_pins_the_anchor_at_the_front_when_shuffled() {
    for _ in 0..20 {
        let order = shuffled_play_order(6, true, Some(4));
        assert_eq!(order[0], 4, "anchor must stay pinned at the front: {order:?}");
        let mut sorted = order.clone();
        sorted.sort_unstable();
        assert_eq!(sorted, vec![0, 1, 2, 3, 4, 5], "must still be a full permutation: {order:?}");
    }
}

#[test]
fn play_order_is_a_full_permutation_with_no_anchor() {
    for _ in 0..20 {
        let order = shuffled_play_order(6, true, None);
        let mut sorted = order.clone();
        sorted.sort_unstable();
        assert_eq!(sorted, vec![0, 1, 2, 3, 4, 5]);
    }
}

#[test]
fn play_order_of_an_empty_queue_is_empty() {
    assert!(shuffled_play_order(0, true, None).is_empty());
    assert!(shuffled_play_order(0, false, None).is_empty());
}

#[test]
fn play_order_ignores_an_out_of_range_anchor() {
    let order = shuffled_play_order(4, true, Some(99));
    let mut sorted = order.clone();
    sorted.sort_unstable();
    assert_eq!(sorted, vec![0, 1, 2, 3]);
}

#[test]
fn shuffling_does_not_leave_a_long_queue_in_order() {
    // Twenty shuffles of a hundred tracks that all came out in order would be a
    // shuffle that does nothing.
    let straight: Vec<usize> = (0..100).collect();
    assert!((0..20).any(|_| shuffled_play_order(100, true, None) != straight));
}

#[test]
fn play_order_after_remove_drops_the_removed_entry_and_shifts_greater_ones_down() {
    assert_eq!(play_order_after_remove(&[2, 0, 3, 1], 2), vec![0, 2, 1]);
}

#[test]
fn play_order_after_remove_leaves_smaller_indices_untouched() {
    assert_eq!(play_order_after_remove(&[0, 1, 2, 3], 3), vec![0, 1, 2]);
}

#[test]
fn remap_index_after_move_forward_shifts_the_gap_closed() {
    assert_eq!(remap_index_after_move(1, 1, 3), 3);
    assert_eq!(remap_index_after_move(2, 1, 3), 1);
    assert_eq!(remap_index_after_move(3, 1, 3), 2);
    assert_eq!(remap_index_after_move(0, 1, 3), 0, "untouched index before the move must be unchanged");
}

#[test]
fn remap_index_after_move_backward_shifts_the_gap_closed() {
    assert_eq!(remap_index_after_move(3, 3, 1), 1);
    assert_eq!(remap_index_after_move(1, 3, 1), 2);
    assert_eq!(remap_index_after_move(2, 3, 1), 3);
    assert_eq!(remap_index_after_move(0, 3, 1), 0);
}

#[test]
fn play_order_after_move_is_still_a_full_permutation() {
    let order = play_order_after_move(&[0, 1, 2, 3, 4], 1, 3);
    let mut sorted = order.clone();
    sorted.sort_unstable();
    assert_eq!(sorted, vec![0, 1, 2, 3, 4], "moving must never drop or duplicate an index: {order:?}");
}

#[test]
fn play_order_after_insert_puts_the_new_tracks_next() {
    // Two tracks after the one at queue index 0, which plays second of [2, 0, 1].
    assert_eq!(play_order_after_insert(&[2, 0, 1], 1, 2, 2), vec![4, 0, 1, 2, 3]);
}

#[test]
fn an_entry_becomes_a_track_and_its_row() {
    let t = track("s1", 379);
    assert_eq!(t.art_url, None, "an empty art URL is no art");
    assert_eq!(t.duration, Some(Duration::from_secs(379)));
    assert_eq!(f64::from_bits(t.replay_gain_db.bits), -6.5);
    let row = queue_row_from_track(&t);
    assert_eq!(row.title, "title s1");
    assert_eq!(row.duration, Duration::from_secs(379));
    let mut unknown = entry("s2", 0);
    unknown.art_url = "http://art".to_string();
    let t = track_meta_from_entry(unknown);
    assert_eq!(t.duration, None, "a length of zero is not known");
    assert_eq!(t.art_url, Some("http://art".to_string()));
    assert_eq!(queue_row_from_track(&t).duration, Duration::zero());
}

#[test]
fn a_snapshot_is_reported() {
    let mut snap = Snapshot::initial(32);
    let empty = status_tuple_from_snapshot(&snap);
    assert_eq!(empty.status, "stopped");
    assert_eq!(empty.title, "");
    assert_eq!(empty.repeat, "off");
    assert_eq!(empty.volume, Real32 { bits: 1.0f32.to_bits() });
    assert_eq!(snap.spectrum, vec![0u8; 32]);
    assert!(!snap.has_next());
    snap.status = Status::Paused;
    snap.track = Some(track("s1", 60));
    snap.position = Duration::from_secs(12);
    snap.queue_index = 1;
    snap.queue_len = 3;
    snap.repeat = RepeatMode::Queue;
    snap.shuffle = true;
    let shown = status_tuple_from_snapshot(&snap);
    assert_eq!(shown.status, "paused");
    assert_eq!(shown.title, "title s1");
    assert_eq!(shown.artist, "Massive Attack");
    assert_eq!(shown.album, "Mezzanine");
    assert_eq!(shown.position, Duration::from_secs(12));
    assert_eq!(shown.duration, Duration::from_secs(60));
    assert_eq!((shown.queue_index, shown.queue_len), (1, 3));
    assert_eq!(shown.format_label, "FLAC");
    assert!(shown.lossless);
    assert_eq!(shown.art_url, "");
    assert_eq!(shown.song_id, "s1");
    assert_eq!(shown.repeat, "queue");
    assert!(shown.shuffle);
    assert!(snap.has_next());
}

#[test]
fn whole_seconds_are_cut_off() {
    for number in [
        0.0, -0.0, 0.999, 59.9999999999, 379.9999999999, 60.0, 1e-300, 1e15, 9007199254740993.0, 1e19,
        1e20, -7.5, f64::INFINITY, f64::NEG_INFINITY, f64::NAN,
    ] {
        let whole = whole_secs(Real64 { bits: number.to_bits() });
        assert_eq!(whole, number.max(0.0) as u64, "{number}");
    }
}

#[test]
fn a_length_above_zero_is_known() {
    let tiny = QueueEntry { duration: Real64 { bits: 1e-10f64.to_bits() }, ..entry("a", 0) };
    assert_eq!(track_meta_from_entry(tiny).duration, Some(Duration::zero()));
    let negative = QueueEntry { duration: Real64 { bits: (-1.0f64).to_bits() }, ..entry("a", 0) };
    assert_eq!(track_meta_from_entry(negative).duration, None);
}

#[test]
fn seconds_become_nanoseconds() {
    let numbers = [
        0.0, -0.0, 1.0, 379.5, 0.1, 2.7, 59.9999999999, 1e-9, 4.9e-10, 5e-10, 0.999e-9, 1e-300, 5e-324,
        0.000_976_562_5, 0.002_929_687_5, 1.000_976_562_5, 1.002_929_687_5, 1e12, 9007199254740993.0,
        1.8446744073709550e19, 1.8446744073709552e19, 1e300, -1.0, -1e-300, f64::INFINITY, f64::NAN,
    ];
    for number in numbers {
        let nanos = Duration::try_from_real_secs(Real64 { bits: number.to_bits() }).map(|d| d.nanos);
        let expected = std::time::Duration::try_from_secs_f64(number).ok().map(|d| d.as_nanos());
        assert_eq!(nanos, expected, "{number}");
    }
}
