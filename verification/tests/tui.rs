use maraetai::ieee::{Real32, Real64};
use maraetai::library::{Album, AlbumInfo, Artist, ArtistInfo, Genre, Playlist, SimilarArtist, Song};
use maraetai::lyrics::LyricLine;
use maraetai::protocol::{QueueRow, Request, StatusTuple};
use maraetai::screen::{KeyCode, NativeKind, Rows, Screen, Tab, UpdateState};
use maraetai::time::Duration;
use maraetai::tui::{
    now_playing, Action, App, ArtStep, LyricsFetch, NowPlaying, PromptAction, Reply, Task,
    TextPrompt,
};
use maraetai::update_check::{CheckResult, RemoteCommit};

fn report() -> StatusTuple {
    StatusTuple {
        status: "playing".into(),
        title: "Angel".into(),
        artist: "Massive Attack".into(),
        album: "Mezzanine".into(),
        position: Duration::from_secs(12),
        duration: Duration::from_secs(379),
        queue_index: 1,
        queue_len: 3,
        volume: Real32 { bits: 0.8f32.to_bits() },
        format_label: "FLAC".into(),
        lossless: true,
        art_url: "http://art".into(),
        song_id: "s1".into(),
        repeat: "queue".into(),
        shuffle: true,
    }
}

fn now() -> NowPlaying {
    now_playing(Some(report()), Some(vec![1, 2]))
}

fn song(id: &str) -> Song {
    Song {
        id: id.to_string(),
        title: format!("title {id}"),
        artist: String::new(),
        album: String::new(),
        duration: Real64::zero(),
        cover_art: None,
        suffix: String::new(),
        bit_rate: None,
        starred: None,
        replay_gain: None,
    }
}

fn album(id: &str) -> Album {
    Album { id: id.to_string(), name: format!("album {id}"), artist: "Portishead".to_string() }
}

fn playlist(id: &str) -> Playlist {
    Playlist {
        id: id.to_string(),
        name: format!("list {id}"),
        song_count: 2,
        owner: "alice".to_string(),
    }
}

fn row(id: &str) -> QueueRow {
    QueueRow {
        title: format!("title {id}"),
        artist: String::new(),
        album: String::new(),
        duration: Duration::zero(),
        format_label: String::new(),
        lossless: false,
        song_id: id.to_string(),
    }
}

/// An interface whose tab has loaded.
fn on(tab: Tab, reply: Reply) -> App {
    let (mut app, _) = App::start();
    let digit = char::from_digit(tab.index() as u32 + 1, 10).unwrap();
    let action = app.handle_key(KeyCode::Char(digit), &now());
    match action {
        Action::Run(task) => {
            assert_eq!(app.complete(task, reply), Action::Idle);
        }
        other => assert_eq!(other, Action::Idle),
    }
    app
}

fn press(app: &mut App, key: char) -> Action {
    app.handle_key(KeyCode::Char(key), &now())
}

/// A tab of albums, with one opened whose songs are those.
fn songs(ids: &[&str]) -> App {
    let mut app = on(Tab::Albums, Reply::Albums(vec![album("al1")]));
    let task = match app.handle_key(KeyCode::Enter, &now()) {
        Action::Run(task) => task,
        other => panic!("got {other:?}"),
    };
    app.complete(task, Reply::Songs(ids.iter().map(|id| song(id)).collect()));
    app
}

fn top(app: &App) -> &Screen {
    app.stack.last().unwrap()
}

fn ids(songs: &[Song]) -> Vec<&str> {
    songs.iter().map(|s| s.id.as_str()).collect()
}

fn typed(app: &mut App, words: &str) {
    for c in words.chars() {
        assert_eq!(press(app, c), Action::Idle);
    }
}

#[test]
fn the_home_screen_comes_first() {
    let (mut app, action) = App::start();
    assert_eq!(app.active_tab, Tab::Home);
    assert_eq!(app.message, "Loading home\u{2026}");
    let task = match action {
        Action::Run(task) => task,
        other => panic!("got {other:?}"),
    };
    assert_eq!(task, Task::LoadTab { tab: Tab::Home, newest: false });
    let many = || ["a", "b", "c", "d", "e", "f"].iter().map(|id| song(id)).collect::<Vec<Song>>();
    app.complete(
        task,
        Reply::Home {
            favourites: many(),
            recently_played: vec![],
            on_repeat: vec![song("x")],
            songs_for_you: vec![],
        },
    );
    assert_eq!(app.message, "");
    match &top(&app).rows {
        Rows::Home { sections, section } => {
            assert_eq!(*section, 0);
            let sizes: Vec<usize> = sections.iter().map(|s| s.songs.len()).collect();
            assert_eq!(sizes, vec![5, 0, 1, 0]);
        }
        other => panic!("got {other:?}"),
    }
    // Down from the last favourite is the first song on repeat.
    for _ in 0..5 {
        press(&mut app, 'j');
    }
    assert_eq!(press(&mut app, 'e'), Action::Run(Task::Expand(NativeKind::OnRepeat)));
    assert_eq!(app.message, "Loading On Repeat\u{2026}");
}

#[test]
fn a_report_is_what_is_now_playing() {
    let n = now();
    assert_eq!((n.status.as_str(), n.title.as_str(), n.artist.as_str()), ("playing", "Angel", "Massive Attack"));
    assert_eq!((n.position, n.duration), (Duration::from_secs(12), Duration::from_secs(379)));
    assert_eq!((n.queue_index, n.queue_len), (1, 3));
    assert_eq!(n.spectrum, vec![1, 2]);
    let gone = now_playing(None, None);
    assert_eq!(gone.status, "disconnected");
    assert_eq!(gone.title, "");
    assert_eq!(gone.repeat, "off");
    assert!(gone.spectrum.is_empty());
}

#[test]
fn keys_drive_the_player() {
    let mut app = songs(&["a"]);
    assert_eq!(press(&mut app, ' '), Action::Tell(Request::Pause));
    let stopped = now_playing(None, None);
    assert_eq!(app.handle_key(KeyCode::Char(' '), &stopped), Action::Tell(Request::Resume));
    assert_eq!(press(&mut app, 's'), Action::Tell(Request::Stop));
    assert_eq!(press(&mut app, 'n'), Action::Tell(Request::Next));
    assert_eq!(press(&mut app, 'p'), Action::Tell(Request::Previous));
    assert_eq!(press(&mut app, 'r'), Action::Tell(Request::CycleRepeat));
    assert_eq!(press(&mut app, 'x'), Action::Tell(Request::ToggleShuffle));
    assert_eq!(
        app.handle_key(KeyCode::Left, &now()),
        Action::Tell(Request::SeekTo { position: Duration::from_secs(7) })
    );
    assert_eq!(
        app.handle_key(KeyCode::Left, &stopped),
        Action::Tell(Request::SeekTo { position: Duration::zero() })
    );
    assert_eq!(
        app.handle_key(KeyCode::Right, &now()),
        Action::Tell(Request::SeekTo { position: Duration::from_secs(17) })
    );
    assert_eq!(press(&mut app, '-'), Action::StepVolume { up: false });
    assert_eq!(press(&mut app, '+'), Action::StepVolume { up: true });
    assert_eq!(press(&mut app, '='), Action::StepVolume { up: true });
    assert_eq!(press(&mut app, 'q'), Action::Quit);
    assert_eq!(press(&mut app, 'Q'), Action::QuitDaemon);
}

#[test]
fn tabs_are_reached_by_number_and_by_bracket() {
    let mut app = songs(&["a"]);
    assert_eq!(app.stack.len(), 2);
    assert_eq!(
        press(&mut app, ']'),
        Action::Run(Task::LoadTab { tab: Tab::Artists, newest: false })
    );
    assert_eq!(app.stack.len(), 1, "a tab starts over");
    assert_eq!(press(&mut app, '8'), Action::Idle);
    assert_eq!(app.active_tab, Tab::Settings);
    assert_eq!(press(&mut app, '9'), Action::Idle);
    assert_eq!(app.active_tab, Tab::Settings);
    assert_eq!(press(&mut app, ']'), Action::Run(Task::LoadTab { tab: Tab::Home, newest: false }));
    assert_eq!(press(&mut app, '['), Action::Idle);
    assert_eq!(app.active_tab, Tab::Settings);
}

#[test]
fn a_tab_that_does_not_load_says_why() {
    let app = on(Tab::Albums, Reply::Failed("connection refused".to_string()));
    assert_eq!(app.message, "error: connection refused");
    assert_eq!(app.active_tab, Tab::Albums);
}

#[test]
fn help_goes_away_with_any_key() {
    let mut app = songs(&["a"]);
    press(&mut app, '?');
    assert!(app.show_help);
    assert_eq!(press(&mut app, 'q'), Action::Idle);
    assert!(!app.show_help);
}

#[test]
fn enter_opens_what_the_cursor_is_on() {
    let mut app = on(Tab::Albums, Reply::Albums(vec![album("al1"), album("al2")]));
    press(&mut app, 'j');
    assert_eq!(
        app.handle_key(KeyCode::Enter, &now()),
        Action::Run(Task::OpenAlbum { id: "al2".to_string(), title: "album al2".to_string() })
    );
    assert_eq!(app.message, "Loading album al2\u{2026}");
    let artist = Artist { id: "ar1".to_string(), name: "Tricky".to_string(), album_count: 1 };
    let mut app = on(Tab::Artists, Reply::Artists(vec![artist]));
    assert_eq!(
        app.handle_key(KeyCode::Enter, &now()),
        Action::Run(Task::OpenArtist { id: "ar1".to_string(), title: "Tricky".to_string() })
    );
    let genre = Genre { value: "Trip Hop".to_string(), song_count: 1, album_count: 1 };
    let mut app = on(Tab::Genres, Reply::Genres(vec![genre]));
    assert_eq!(
        app.handle_key(KeyCode::Enter, &now()),
        Action::Run(Task::OpenGenre { title: "Trip Hop".to_string() })
    );
    let mut app = on(Tab::Queue, Reply::Queue(vec![row("a"), row("b")]));
    press(&mut app, 'j');
    assert_eq!(app.handle_key(KeyCode::Enter, &now()), Action::Run(Task::PlayAt { row: 1 }));
}

#[test]
fn playing_starts_at_the_cursor() {
    let mut app = songs(&["a", "b", "c"]);
    press(&mut app, 'j');
    match app.handle_key(KeyCode::Enter, &now()) {
        Action::Run(Task::PlayQueue { songs }) => assert_eq!(ids(&songs), vec!["b", "c"]),
        other => panic!("got {other:?}"),
    }
}

#[test]
fn marked_songs_are_queued_alone() {
    let mut app = songs(&["a", "b", "c"]);
    match press(&mut app, 'a') {
        Action::Run(Task::Append { songs }) => assert_eq!(ids(&songs), vec!["a", "b", "c"]),
        other => panic!("got {other:?}"),
    }
    press(&mut app, 'v');
    press(&mut app, 'k');
    press(&mut app, 'v');
    let task = match press(&mut app, 'A') {
        Action::Run(task) => task,
        other => panic!("got {other:?}"),
    };
    match &task {
        Task::PlayNext { songs } => assert_eq!(ids(songs), vec!["a", "c"]),
        other => panic!("got {other:?}"),
    }
    app.complete(task, Reply::Done);
    assert!(app.message.contains("2"), "got: {}", app.message);
    assert_eq!(top(&app).marks(), Vec::<usize>::new());
}

#[test]
fn a_star_shows_at_once() {
    let mut app = songs(&["a", "b"]);
    let task = match press(&mut app, 'f') {
        Action::Run(task) => task,
        other => panic!("got {other:?}"),
    };
    assert_eq!(task, Task::SetStarred { changes: vec![("a".to_string(), true)] });
    app.complete(task, Reply::Done);
    let stars = |app: &App| match &top(app).rows {
        Rows::Songs { songs, .. } => songs.iter().map(|s| s.is_starred()).collect::<Vec<bool>>(),
        other => panic!("got {other:?}"),
    };
    assert_eq!(stars(&app), vec![true, false]);
    let task = match press(&mut app, 'f') {
        Action::Run(task) => task,
        other => panic!("got {other:?}"),
    };
    assert_eq!(task, Task::SetStarred { changes: vec![("a".to_string(), false)] });
    app.complete(task, Reply::Failed("offline".to_string()));
    assert_eq!(app.message, "could not update favorite: offline");
    assert_eq!(stars(&app), vec![true, false], "a star that was not set does not show");
}

#[test]
fn a_filter_is_edited_applied_and_cleared() {
    let mut app = on(Tab::Albums, Reply::Albums(vec![album("al1"), album("al2")]));
    press(&mut app, '/');
    assert!(app.filter_editing);
    typed(&mut app, "AL2");
    press(&mut app, '/');
    assert_eq!(top(&app).filter, "AL2", "a slash is not typed");
    assert_eq!(
        app.handle_key(KeyCode::Enter, &now()),
        Action::Run(Task::OpenAlbum { id: "al2".to_string(), title: "album al2".to_string() }),
        "one Enter applies the filter and opens what it left"
    );
    assert!(!app.filter_editing);
    app.handle_key(KeyCode::Esc, &now());
    assert_eq!(top(&app).filter, "");
    assert_eq!(app.stack.len(), 1);
}

#[test]
fn escape_goes_one_screen_back() {
    let mut app = songs(&["a"]);
    app.handle_key(KeyCode::Esc, &now());
    assert_eq!(app.stack.len(), 1);
    app.handle_key(KeyCode::Backspace, &now());
    assert_eq!(app.stack.len(), 1, "the first screen stays");
}

#[test]
fn a_search_is_typed_and_run() {
    let mut app = on(Tab::Search, Reply::Done);
    typed(&mut app, "qux ");
    app.handle_key(KeyCode::Backspace, &now());
    let task = match app.handle_key(KeyCode::Enter, &now()) {
        Action::Run(task) => task,
        other => panic!("got {other:?}"),
    };
    assert_eq!(task, Task::Search { query: "qux".to_string() });
    app.complete(task, Reply::Songs(vec![song("a")]));
    match app.handle_key(KeyCode::Enter, &now()) {
        Action::Run(Task::PlayQueue { songs }) => assert_eq!(ids(&songs), vec!["a"]),
        other => panic!("got {other:?}"),
    }
    let mut app = on(Tab::Search, Reply::Done);
    typed(&mut app, "x");
    let task = match app.handle_key(KeyCode::Enter, &now()) {
        Action::Run(task) => task,
        other => panic!("got {other:?}"),
    };
    app.complete(task, Reply::Failed("timeout".to_string()));
    assert_eq!(app.message, "search error: timeout");
}

#[test]
fn a_playlist_is_named_in_a_prompt() {
    let mut app = on(Tab::Playlists, Reply::Playlists(vec![playlist("pl1")]));
    press(&mut app, 'N');
    typed(&mut app, "Qq?1");
    assert_eq!(
        app.prompt,
        Some(TextPrompt { action: PromptAction::NewPlaylist, text: "Qq?1".to_string() }),
        "the prompt takes every key"
    );
    let task = match app.handle_key(KeyCode::Enter, &now()) {
        Action::Run(task) => task,
        other => panic!("got {other:?}"),
    };
    assert_eq!(task, Task::NewPlaylist { name: "Qq?1".to_string() });
    assert_eq!(app.prompt, None);
    assert_eq!(
        app.complete(task, Reply::Done),
        Action::Run(Task::LoadTab { tab: Tab::Playlists, newest: false })
    );
    let mut app = on(Tab::Playlists, Reply::Playlists(vec![playlist("pl1")]));
    press(&mut app, 'c');
    assert_eq!(app.prompt.as_ref().map(|p| p.text.as_str()), Some("list pl1"));
    app.handle_key(KeyCode::Esc, &now());
    assert_eq!(app.prompt, None);
}

#[test]
fn playlists_are_deleted_and_thinned_out() {
    let mut app = on(Tab::Playlists, Reply::Playlists(vec![playlist("pl1")]));
    assert_eq!(press(&mut app, 'd'), Action::Run(Task::DeletePlaylist { id: "pl1".to_string() }));
    let task = match app.handle_key(KeyCode::Enter, &now()) {
        Action::Run(task) => task,
        other => panic!("got {other:?}"),
    };
    app.complete(task, Reply::Songs(vec![song("a"), song("b"), song("c")]));
    press(&mut app, 'v');
    press(&mut app, 'k');
    press(&mut app, 'v');
    let task = match press(&mut app, 'd') {
        Action::Run(task) => task,
        other => panic!("got {other:?}"),
    };
    assert_eq!(
        task,
        Task::RemoveFromPlaylist { id: "pl1".to_string(), rows: vec![2, 0] },
        "from the last to the first, so that no row moves before its turn"
    );
    assert_eq!(
        app.complete(task, Reply::Done),
        Action::Run(Task::RefreshPlaylist { id: "pl1".to_string() })
    );
    assert_eq!(press(&mut songs(&["a"]), 'd'), Action::Idle, "an album is no playlist");
}

#[test]
fn songs_are_added_to_a_picked_playlist() {
    let mut app = songs(&["a", "b"]);
    let task = match press(&mut app, 'P') {
        Action::Run(task) => task,
        other => panic!("got {other:?}"),
    };
    assert_eq!(task, Task::PickPlaylist { song_ids: vec!["a".to_string()] });
    app.complete(task, Reply::Playlists(vec![playlist("pl1"), playlist("pl2")]));
    press(&mut app, 'j');
    let task = match app.handle_key(KeyCode::Enter, &now()) {
        Action::Run(task) => task,
        other => panic!("got {other:?}"),
    };
    assert_eq!(
        task,
        Task::AddToPlaylist {
            id: "pl2".to_string(),
            name: "list pl2".to_string(),
            song_ids: vec!["a".to_string()],
        }
    );
    app.complete(task, Reply::Done);
    assert_eq!(app.message, "added to \"list pl2\"");
    assert!(matches!(top(&app).rows, Rows::Songs { .. }));
    let task = match press(&mut app, 'P') {
        Action::Run(task) => task,
        other => panic!("got {other:?}"),
    };
    app.complete(task, Reply::Playlists(vec![]));
    assert!(app.message.starts_with("no playlists yet"), "got: {}", app.message);
}

#[test]
fn the_queue_is_rearranged() {
    let mut app = on(Tab::Queue, Reply::Queue(vec![row("a"), row("b"), row("c")]));
    assert_eq!(press(&mut app, 'K'), Action::Idle, "the first track cannot go up");
    let task = match press(&mut app, 'J') {
        Action::Run(task) => task,
        other => panic!("got {other:?}"),
    };
    assert_eq!(task, Task::MoveInQueue { from: 0, to: 1 });
    let refresh = app.complete(task, Reply::Done);
    assert_eq!(refresh, Action::Run(Task::RefreshQueue { follow: Some(1) }));
    app.complete(
        Task::RefreshQueue { follow: Some(1) },
        Reply::Queue(vec![row("b"), row("a"), row("c")]),
    );
    assert_eq!(top(&app).selected, 1, "the cursor follows the track");
    assert_eq!(press(&mut app, 'd'), Action::Run(Task::RemoveFromQueue { rows: vec![1] }));
    assert_eq!(press(&mut app, 'D'), Action::Run(Task::ClearQueue));
    press(&mut app, 'S');
    typed(&mut app, "Mix");
    assert_eq!(
        app.handle_key(KeyCode::Enter, &now()),
        Action::Run(Task::SaveQueue {
            name: "Mix".to_string(),
            song_ids: vec!["b".to_string(), "a".to_string(), "c".to_string()],
        })
    );
}

#[test]
fn the_cursor_stays_in_a_queue_that_shrinks() {
    let mut app = on(Tab::Queue, Reply::Queue(vec![row("a"), row("b")]));
    press(&mut app, 'j');
    app.complete(Task::RefreshQueue { follow: None }, Reply::Queue(vec![row("a")]));
    assert_eq!(top(&app).selected, 0);
}

#[test]
fn albums_have_two_orders() {
    let mut app = on(Tab::Albums, Reply::Albums(vec![album("al1")]));
    assert_eq!(
        press(&mut app, 't'),
        Action::Run(Task::LoadTab { tab: Tab::Albums, newest: true })
    );
    assert_eq!(
        press(&mut app, 't'),
        Action::Run(Task::LoadTab { tab: Tab::Albums, newest: false })
    );
}

#[test]
fn what_is_known_of_an_artist_is_shown() {
    let artist = Artist { id: "ar1".to_string(), name: "Tricky".to_string(), album_count: 1 };
    let mut app = on(Tab::Artists, Reply::Artists(vec![artist]));
    let task = match press(&mut app, 'i') {
        Action::Run(task) => task,
        other => panic!("got {other:?}"),
    };
    assert_eq!(task, Task::ArtistInfo { id: "ar1".to_string(), name: "Tricky".to_string() });
    app.complete(
        task,
        Reply::ArtistInfo(ArtistInfo {
            biography: "From Bristol.".to_string(),
            similar_artists: vec![SimilarArtist { id: "x".to_string(), name: "Martina".to_string() }],
        }),
    );
    assert_eq!(
        top(&app).rows,
        Rows::Info {
            title: "Tricky".to_string(),
            body: "From Bristol.\n\nSimilar artists:\n - Martina\n".to_string(),
        }
    );
    let mut app = on(Tab::Albums, Reply::Albums(vec![album("al1")]));
    let task = match press(&mut app, 'i') {
        Action::Run(task) => task,
        other => panic!("got {other:?}"),
    };
    app.complete(task, Reply::AlbumInfo(AlbumInfo { notes: String::new() }));
    assert_eq!(
        top(&app).rows,
        Rows::Info { title: "album al1".to_string(), body: "No notes available.".to_string() }
    );
}

#[test]
fn an_update_takes_two_presses() {
    let found = || CheckResult {
        update_available: true,
        remote: RemoteCommit {
            sha: "abcdef".to_string(),
            date: "2026-01-02".to_string(),
            summary: "Add lyrics".to_string(),
        },
    };
    let mut app = on(Tab::Settings, Reply::Done);
    assert_eq!(press(&mut app, 'u'), Action::Idle, "nothing was found yet");
    assert_eq!(press(&mut app, 'c'), Action::Run(Task::CheckUpdate));
    app.complete(Task::CheckUpdate, Reply::Update(found()));
    assert_eq!(press(&mut app, 'u'), Action::Idle);
    assert_eq!(top(&app).rows, Rows::Settings(UpdateState::Confirming(found())));
    assert_eq!(press(&mut app, 'u'), Action::Run(Task::InstallUpdate));
    app.complete(Task::InstallUpdate, Reply::Failed("no compiler".to_string()));
    assert_eq!(app.message, "update failed: no compiler");
    app.complete(Task::InstallUpdate, Reply::Done);
    assert_eq!(top(&app).rows, Rows::Settings(UpdateState::Installed));
}

#[test]
fn art_is_fetched_once_for_each_url() {
    let mut app = songs(&["a"]);
    assert_eq!(app.update_art(&now()), ArtStep::Fetch("http://art".to_string()));
    assert_eq!(app.update_art(&now()), ArtStep::Keep);
    assert!(app.wants_art("http://art"));
    assert!(!app.wants_art("http://other"));
    assert_eq!(app.update_art(&now_playing(None, None)), ArtStep::Clear);
    assert!(!app.wants_art("http://art"), "late art is not shown");
}

#[test]
fn lyrics_are_fetched_once_for_each_song() {
    let mut app = songs(&["a"]);
    assert_eq!(
        app.update_lyrics(&now()),
        LyricsFetch::Fetch {
            song_id: "s1".to_string(),
            artist: "Massive Attack".to_string(),
            title: "Angel".to_string(),
        }
    );
    assert_eq!(app.update_lyrics(&now()), LyricsFetch::Keep);
    let line = || vec![LyricLine { start_ms: Some(0), text: "Love you".to_string() }];
    app.take_lyrics("s0", line());
    assert_eq!(app.lyrics, None, "late lyrics are not shown");
    app.take_lyrics("s1", line());
    assert_eq!(app.lyrics, Some(line()));
    assert_eq!(app.update_lyrics(&now_playing(None, None)), LyricsFetch::Clear);
    assert_eq!(app.lyrics, None);
}

#[test]
fn deleting_takes_exactly_what_was_chosen() {
    let listed = ["a", "b", "c", "d", "e"];
    let mut app = on(Tab::Queue, Reply::Queue(listed.iter().map(|id| row(id)).collect()));
    for key in ['j', 'v', 'j', 'j', 'v'] {
        press(&mut app, key);
    }
    match press(&mut app, 'd') {
        Action::Run(Task::RemoveFromQueue { rows }) => {
            let mut left = listed.to_vec();
            for row in rows {
                left.remove(row);
            }
            assert_eq!(left, vec!["a", "c", "e"]);
        }
        other => panic!("got {other:?}"),
    }
}

/// Whether each song of the home screen has a star, list by list.
fn home_stars(app: &App) -> Vec<Vec<bool>> {
    match &top(app).rows {
        Rows::Home { sections, .. } => {
            sections.iter().map(|s| s.songs.iter().map(|song| song.is_starred()).collect()).collect()
        }
        other => panic!("got {other:?}"),
    }
}

#[test]
fn a_star_shows_on_every_copy_of_a_song() {
    let (mut app, action) = App::start();
    let task = match action {
        Action::Run(task) => task,
        other => panic!("got {other:?}"),
    };
    app.complete(
        task,
        Reply::Home {
            favourites: vec![song("s1"), song("s2")],
            recently_played: vec![song("s1")],
            on_repeat: vec![],
            songs_for_you: vec![],
        },
    );
    press(&mut app, 'j');
    press(&mut app, 'j');
    let changes = vec![("s1".to_string(), true)];
    let task = Task::SetStarred { changes };
    assert_eq!(press(&mut app, 'f'), Action::Run(Task::SetStarred { changes: vec![("s1".to_string(), true)] }));
    app.complete(task, Reply::Done);
    assert_eq!(home_stars(&app), vec![vec![true, false], vec![true], vec![], vec![]]);
    assert_eq!(app.message, "");
    // Toggled again, the star goes; a refusal changes nothing.
    let changes = vec![("s1".to_string(), false)];
    assert_eq!(press(&mut app, 'f'), Action::Run(Task::SetStarred { changes: vec![("s1".to_string(), false)] }));
    app.complete(Task::SetStarred { changes }, Reply::Failed("offline".to_string()));
    assert_eq!(home_stars(&app), vec![vec![true, false], vec![true], vec![], vec![]]);
    assert_eq!(app.message, "could not update favorite: offline");
}

#[test]
fn the_cursor_stays_on_a_visible_row_under_a_filter() {
    let mut app =
        on(Tab::Queue, Reply::Queue(vec![row("x1"), row("y"), row("x2"), row("z"), row("x3")]));
    press(&mut app, '/');
    typed(&mut app, "x");
    app.handle_key(KeyCode::Enter, &now());
    press(&mut app, 'j');
    press(&mut app, 'j');
    assert_eq!(top(&app).selected, 2);
    app.complete(
        Task::RefreshQueue { follow: None },
        Reply::Queue(vec![row("x1"), row("y"), row("x2"), row("z")]),
    );
    assert_eq!(top(&app).selected, 1, "two rows are visible");
    assert_eq!(top(&app).cursor_row(), Some(2));
}
