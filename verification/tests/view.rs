use maraetai::ieee::{Real32, Real64};
use maraetai::library::{Album, Song};
use maraetai::lyrics::LyricLine;
use maraetai::protocol::StatusTuple;
use maraetai::screen::{KeyCode, Tab};
use maraetai::time::Duration;
use maraetai::tui::{now_playing, Action, App, NowPlaying, Reply};
use maraetai::view::{
    body, filter_hint_title, fmt_time, help_lines, lyrics_pane, needs_scrollbar, progress_label,
    shows_lyrics, spectrum_rows, state_line, tab_bar, track_line, volume_slider, Body, Glow,
    LyricsPane, Span, Style, MAX_LEVEL,
};

fn now() -> NowPlaying {
    let report = StatusTuple {
        status: "playing".into(),
        title: "Angel".into(),
        artist: "Massive Attack".into(),
        album: "Mezzanine".into(),
        position: Duration::from_secs(72),
        duration: Duration::from_secs(379),
        queue_index: 1,
        queue_len: 3,
        volume: Real32 { bits: 0.8f32.to_bits() },
        format_label: "FLAC".into(),
        lossless: true,
        art_url: String::new(),
        song_id: "s1".into(),
        repeat: "queue".into(),
        shuffle: true,
    };
    now_playing(Some(report), None)
}

fn text(spans: &[Span]) -> String {
    spans.iter().map(|s| s.text.as_str()).collect()
}

/// An interface on the albums, of which there is one.
fn albums() -> App {
    let (mut app, _) = App::start();
    if let Action::Run(task) = app.handle_key(KeyCode::Char('3'), &now()) {
        let mezzanine = Album {
            id: "al1".to_string(),
            name: "Mezzanine".to_string(),
            artist: "Massive Attack".to_string(),
        };
        app.complete(task, Reply::Albums(vec![mezzanine]));
    }
    app
}

#[test]
fn filter_hint_title_shows_a_cursor_while_editing_even_when_empty() {
    let editing_empty = filter_hint_title("Albums", "", true, "[Enter] open");
    let not_editing_empty = filter_hint_title("Albums", "", false, "[Enter] open");
    assert_ne!(editing_empty, not_editing_empty);
    assert!(editing_empty.contains("filter:"));
}

#[test]
fn filter_hint_title_shows_the_filter_text_after_editing_stops() {
    let title = filter_hint_title("Albums", "mez", false, "[Enter] open");
    assert!(title.contains("filter: mez"));
    assert!(!title.contains('_'), "no cursor once editing has stopped");
}

#[test]
fn times_are_minutes_and_seconds() {
    assert_eq!(fmt_time(Duration::zero()), "0:00");
    assert_eq!(fmt_time(Duration::from_millis(59_999)), "0:59");
    assert_eq!(fmt_time(Duration::from_secs(379)), "6:19");
    assert_eq!(fmt_time(Duration::from_secs(3_605)), "60:05");
}

#[test]
fn the_active_tab_stands_out() {
    let tabs = tab_bar(Tab::Queue);
    assert_eq!(tabs.len(), 8);
    assert_eq!(tabs[0], (" 1 Home ".to_string(), false));
    assert_eq!(tabs[6], (" 7 Queue ".to_string(), true));
}

#[test]
fn a_list_shows_what_there_is() {
    assert_eq!(
        body(&albums(), &now(), "abcdef", "2026-01-02"),
        Body::List {
            title: " Albums \u{2014} [Enter] open  [Esc] back ".to_string(),
            items: vec!["Mezzanine  \u{2014}  Massive Attack".to_string()],
            selected: Some(0),
        }
    );
}

#[test]
fn a_table_marks_what_plays() {
    let mut app = albums();
    if let Action::Run(task) = app.handle_key(KeyCode::Enter, &now()) {
        let song = |title: &str| Song {
            id: title.to_string(),
            title: title.to_string(),
            artist: "Massive Attack".to_string(),
            album: "Mezzanine".to_string(),
            duration: Real64 { bits: 379.9999999999f64.to_bits() },
            cover_art: None,
            suffix: "flac".to_string(),
            bit_rate: None,
            starred: Some(String::new()),
            replay_gain: None,
        };
        app.complete(task, Reply::Songs(vec![song("Angel"), song("Teardrop")]));
    }
    match body(&app, &now(), "abcdef", "2026-01-02") {
        Body::Table { rows, selected, .. } => {
            assert_eq!(selected, Some(0));
            assert_eq!(rows[0].title, "\u{2605} Angel");
            assert_eq!(rows[0].time, "6:19");
            assert_eq!(rows[0].format, "FLAC");
            assert!(rows[0].playing && rows[0].lossless && rows[0].starred && !rows[0].marked);
            assert!(!rows[1].playing);
        }
        other => panic!("got {other:?}"),
    }
}

#[test]
fn the_settings_tell_the_build() {
    let (mut app, _) = App::start();
    app.handle_key(KeyCode::Char('8'), &now());
    assert_eq!(
        body(&app, &now(), "abcdef", "2026-01-02"),
        Body::Settings(vec![
            "Built from abcdef  2026-01-02".to_string(),
            "[c] check for updates".to_string(),
        ])
    );
    app.handle_key(KeyCode::Char('?'), &now());
    assert_eq!(body(&app, &now(), "abcdef", "2026-01-02"), Body::Help);
}

#[test]
fn the_status_bar_names_the_track() {
    assert_eq!(text(&track_line("", &now())), "Angel  \u{2014}  Massive Attack   [FLAC]   [2 of 3]");
    assert_eq!(text(&track_line("Loading\u{2026}", &now())), "Loading\u{2026}");
    assert_eq!(text(&track_line("", &now_playing(None, None))), "(nothing loaded)");
    assert!(track_line("", &now()).iter().any(|s| s.style == Style::Lossless));
    assert_eq!(progress_label(&now()), "1:12 / 6:19");
    assert_eq!(progress_label(&now_playing(None, None)), "0:00");
    let state = text(&state_line(&now(), "VOL"));
    assert!(state.starts_with("[PLAYING] [repeat:queue] [shuffle]  VOL   [space]"), "got: {state}");
}

#[test]
fn the_volume_slider_has_one_marker() {
    assert_eq!(
        volume_slider(5, 50),
        "\u{2500}\u{2500}\u{2500}\u{2500}\u{2500}\u{25cf}\u{2500}\u{2500}\u{2500}\u{2500}  50%"
    );
    for tenths in 0..=10 {
        let slider = volume_slider(tenths, tenths as u32 * 10);
        assert_eq!(slider.chars().filter(|c| *c == '\u{25cf}').count(), 1, "got: {slider}");
    }
    assert!(volume_slider(10, 100).ends_with("\u{25cf} 100%"));
    assert!(volume_slider(0, 0).ends_with("   0%"));
}

#[test]
fn a_long_list_has_a_scrollbar() {
    assert!(needs_scrollbar(9, 10));
    assert!(!needs_scrollbar(8, 10));
    assert!(!needs_scrollbar(0, 0));
}

#[test]
fn the_sung_line_is_the_last_that_has_started() {
    let mut app = albums();
    assert!(!shows_lyrics(&app, &now()));
    app.handle_key(KeyCode::Char('l'), &now());
    assert!(shows_lyrics(&app, &now()));
    assert!(!shows_lyrics(&app, &now_playing(None, None)));
    let note = |words: &str| LyricsPane::Note(words.to_string());
    assert_eq!(lyrics_pane(&app, Duration::zero(), 10), note("(nothing playing)"));
    app.update_lyrics(&now());
    assert_eq!(lyrics_pane(&app, Duration::zero(), 10), note("Loading lyrics\u{2026}"));
    app.take_lyrics("s1", vec![]);
    assert_eq!(
        lyrics_pane(&app, Duration::zero(), 10),
        note("No lyrics found for this track.")
    );
    let line = |ms: i64| LyricLine { start_ms: Some(ms), text: ms.to_string() };
    app.take_lyrics("s1", vec![line(1_000), line(2_000), line(3_000)]);
    let active = |ms: u64| match lyrics_pane(&app, Duration::from_millis(ms), 10) {
        LyricsPane::Lines { active, .. } => active,
        other => panic!("got {other:?}"),
    };
    assert_eq!(active(999), None);
    assert_eq!(active(1_000), Some(0));
    assert_eq!(active(2_999), Some(1));
    assert_eq!(active(60_000), Some(2));
}

#[test]
fn the_spectrum_uses_all_rows() {
    let rows = spectrum_rows(&[MAX_LEVEL, 0], 4, 3);
    assert_eq!(rows.len(), 3);
    for row in &rows {
        assert_eq!(row.cells.chars().count(), 4, "got: {row:?}");
        assert!(row.cells.starts_with('\u{2588}'), "a full bar reaches the top: {row:?}");
        assert!(row.cells.ends_with(' '), "an empty one does not show: {row:?}");
    }
    assert_eq!(rows[0].glow, Glow::Bright);
    let silent = spectrum_rows(&[], 4, 0);
    assert_eq!(silent.len(), 1);
    assert_eq!(silent[0].cells, "(no signal)");
}

#[test]
fn help_names_the_keys() {
    let lines = help_lines();
    assert!(lines.iter().any(|(key, _)| key.contains('?')));
    assert!(lines.iter().any(|(key, _)| key.contains("Enter")));
}

#[test]
fn an_empty_home_list_says_so() {
    let (mut app, action) = App::start();
    if let Action::Run(task) = action {
        let nothing = Reply::Home {
            favourites: vec![],
            recently_played: vec![],
            on_repeat: vec![],
            songs_for_you: vec![],
        };
        app.complete(task, nothing);
    }
    match body(&app, &now(), "abcdef", "2026-01-02") {
        Body::Home(panes) => {
            assert_eq!(panes.len(), 4);
            let says = Span { text: "(nothing here yet)".to_string(), style: Style::Muted };
            assert_eq!(panes[0].rows, vec![says]);
        }
        other => panic!("got {other:?}"),
    }
}
