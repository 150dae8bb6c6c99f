use maraetai::client::{ApiCall, Client};
use maraetai::config::Credentials;
use maraetai::errand::{
    entries_of, errands, goes_on, reply, songs_to_send, trouble_with, Answer, Errand,
};
use maraetai::ieee::Real64;
use maraetai::library::Song;
use maraetai::protocol::{QueueEntry, QueueRow, Request, Response};
use maraetai::screen::{NativeKind, Tab};
use maraetai::time::Duration;
use maraetai::tui::{Reply, Task};

const OK: &str = r#"{"subsonic-response":{"status":"ok"}}"#;
const REFUSED: &str =
    r#"{"subsonic-response":{"status":"failed","error":{"code":50,"message":"not allowed"}}}"#;

fn client() -> Client {
    Client::new(Credentials {
        server_url: "http://127.0.0.1:4533".into(),
        username: "alice".into(),
        password: "hunter2".into(),
    })
}

fn entry(id: &str) -> QueueEntry {
    QueueEntry {
        stream_url: format!("http://music/{id}"),
        title: id.to_string(),
        artist: String::new(),
        album: String::new(),
        art_url: String::new(),
        duration: Real64::zero(),
        format_label: String::new(),
        lossless: false,
        song_id: id.to_string(),
        replay_gain_db: Real64::zero(),
    }
}

fn needed(task: &Task) -> Vec<Errand> {
    errands(task, &client(), vec![])
}

/// The calls to the server among the errands.
fn calls(errands: Vec<Errand>) -> Vec<ApiCall> {
    errands
        .into_iter()
        .map(|errand| match errand {
            Errand::Ask(call) => call,
            other => panic!("got {other:?}"),
        })
        .collect()
}

fn body(text: &str) -> Answer {
    Answer::Body(text.to_string())
}

fn replied(task: &Task, answers: Vec<Answer>) -> Reply {
    reply(task, &client(), "000000000000", &needed(task), answers)
}

fn failed(why: &str) -> Reply {
    Reply::Failed(why.to_string())
}

#[test]
fn each_tab_asks_for_what_it_shows() {
    let asked = |tab: Tab, newest: bool| calls(needed(&Task::LoadTab { tab, newest }));
    assert_eq!(asked(Tab::Albums, false), vec![client().albums()]);
    assert_eq!(asked(Tab::Albums, true), vec![client().newest_albums()]);
    assert_eq!(asked(Tab::Artists, false), vec![client().artists()]);
    assert_eq!(asked(Tab::Genres, false), vec![client().genres()]);
    assert_eq!(asked(Tab::Playlists, false), vec![client().playlists()]);
    assert_eq!(
        asked(Tab::Home, false),
        vec![
            client().favourites(),
            client().recently_played(),
            client().on_repeat(),
            client().songs_for_you(),
        ]
    );
    assert_eq!(
        needed(&Task::LoadTab { tab: Tab::Queue, newest: false }),
        vec![Errand::Tell(Request::Queue)]
    );
    assert!(asked(Tab::Search, false).is_empty());
    assert!(asked(Tab::Settings, false).is_empty());
}

#[test]
fn each_row_is_an_errand_of_its_own() {
    let task = Task::RemoveFromPlaylist { id: "pl1".to_string(), rows: vec![2, 0] };
    assert_eq!(
        calls(needed(&task)),
        vec![
            client().remove_song_from_playlist("pl1", 2),
            client().remove_song_from_playlist("pl1", 0),
        ]
    );
    let task = Task::AddToPlaylist {
        id: "pl1".to_string(),
        name: "Mix".to_string(),
        song_ids: vec!["a".to_string(), "b".to_string()],
    };
    assert_eq!(
        calls(needed(&task)),
        vec![
            client().add_song_to_playlist("pl1", "a"),
            client().add_song_to_playlist("pl1", "b"),
        ]
    );
    let task = Task::SetStarred {
        changes: vec![("a".to_string(), true), ("b".to_string(), false)],
    };
    assert_eq!(
        calls(needed(&task)),
        vec![client().set_starred("a", true), client().set_starred("b", false)]
    );
    let task = Task::RemoveFromQueue { rows: vec![3, 1] };
    assert_eq!(
        needed(&task),
        vec![
            Errand::Tell(Request::RemoveFromQueue { index: 3 }),
            Errand::Tell(Request::RemoveFromQueue { index: 1 }),
        ]
    );
}

#[test]
fn the_daemon_is_told_what_to_play() {
    let tracks = || vec![entry("a"), entry("b")];
    let told = |task: Task| errands(&task, &client(), tracks());
    assert_eq!(
        told(Task::PlayQueue { songs: vec![] }),
        vec![Errand::Tell(Request::PlayQueue { tracks: tracks(), start_index: 0 })]
    );
    assert_eq!(
        told(Task::Append { songs: vec![] }),
        vec![Errand::Tell(Request::AppendQueue { tracks: tracks() })]
    );
    assert_eq!(
        told(Task::PlayNext { songs: vec![] }),
        vec![Errand::Tell(Request::PlayNext { tracks: tracks() })]
    );
    assert_eq!(
        needed(&Task::PlayAt { row: 4 }),
        vec![Errand::Tell(Request::PlayAt { index: 4 })]
    );
    assert_eq!(
        needed(&Task::MoveInQueue { from: 1, to: 2 }),
        vec![Errand::Tell(Request::MoveInQueue { from: 1, to: 2 })]
    );
    assert_eq!(needed(&Task::ClearQueue), vec![Errand::Tell(Request::ClearQueue)]);
    assert_eq!(needed(&Task::CheckUpdate), vec![Errand::FetchCommit]);
    assert_eq!(needed(&Task::InstallUpdate), vec![Errand::Install]);
}

#[test]
fn a_list_comes_back_as_a_reply() {
    let task = Task::OpenAlbum { id: "al1".to_string(), title: "Mezzanine".to_string() };
    let sent = r#"{"subsonic-response":{"status":"ok","album":{"song":[{"id":"s1","title":"Angel"}]}}}"#;
    match replied(&task, vec![body(sent)]) {
        Reply::Songs(songs) => {
            assert_eq!(songs.len(), 1);
            assert_eq!(songs[0].title, "Angel");
        }
        other => panic!("got {other:?}"),
    }
    assert_eq!(replied(&task, vec![body(REFUSED)]), failed("rest/getAlbum.view: not allowed"));
    assert_eq!(replied(&task, vec![body("oops")]), failed("parsing rest/getAlbum.view response"));
    assert_eq!(
        replied(&task, vec![Answer::Failed("offline".to_string())]),
        failed("offline")
    );
    assert_eq!(
        replied(&task, vec![]),
        failed("unexpected response shape for this request")
    );
}

#[test]
fn a_home_list_that_fails_is_empty() {
    let task = Task::LoadTab { tab: Tab::Home, newest: false };
    let sent = r#"{"subsonic-response":{"status":"ok","onRepeat":{"song":[{"id":"s1","title":"Angel"}]}}}"#;
    let answers = vec![
        Answer::Failed("offline".to_string()),
        body(REFUSED),
        body(sent),
        body(OK),
    ];
    match replied(&task, answers) {
        Reply::Home { favourites, recently_played, on_repeat, songs_for_you } => {
            assert!(favourites.is_empty() && recently_played.is_empty());
            assert_eq!(on_repeat.len(), 1);
            assert!(songs_for_you.is_empty());
        }
        other => panic!("got {other:?}"),
    }
}

#[test]
fn the_queue_is_what_the_daemon_says() {
    let task = Task::RefreshQueue { follow: None };
    let rows = || {
        vec![QueueRow {
            title: "Angel".to_string(),
            artist: String::new(),
            album: String::new(),
            duration: Duration::zero(),
            format_label: String::new(),
            lossless: false,
            song_id: "s1".to_string(),
        }]
    };
    assert_eq!(replied(&task, vec![Answer::Said(Response::Queue(rows()))]), Reply::Queue(rows()));
    assert_eq!(
        replied(&task, vec![Answer::Said(Response::Error("gone".to_string()))]),
        failed("gone")
    );
}

#[test]
fn the_first_failure_is_told() {
    let task = Task::SetStarred {
        changes: vec![("a".to_string(), true), ("b".to_string(), true)],
    };
    assert_eq!(replied(&task, vec![body(OK), body(OK)]), Reply::Done);
    assert_eq!(
        replied(&task, vec![body(OK), body(REFUSED)]),
        failed("rest/star.view: not allowed")
    );
    let wanted = needed(&task);
    assert!(goes_on(&task, &wanted[0], &body(OK)));
    assert!(!goes_on(&task, &wanted[0], &body(REFUSED)));
    let home = Task::LoadTab { tab: Tab::Home, newest: false };
    assert!(goes_on(&home, &needed(&home)[0], &body(REFUSED)), "every list is asked for");
    assert_eq!(
        trouble_with(&Errand::Tell(Request::Next), &Answer::Said(Response::Unit)),
        None
    );
    assert_eq!(
        trouble_with(&Errand::Install, &Answer::Failed("no compiler".to_string())),
        Some("no compiler".to_string())
    );
}

#[test]
fn a_new_playlist_has_an_id() {
    let task = Task::NewPlaylist { name: "Mix".to_string() };
    let made = r#"{"subsonic-response":{"status":"ok","playlist":{"id":"pl9"}}}"#;
    assert_eq!(replied(&task, vec![body(made)]), Reply::Done);
    assert_eq!(
        replied(&task, vec![body(OK)]),
        failed("createPlaylist response had no playlist id")
    );
}

#[test]
fn an_update_is_found_in_the_latest_commit() {
    let sent = Answer::Commit {
        sha: "abcdef123456".to_string(),
        date: "2026-01-02T03:04:05Z".to_string(),
        message: "Add lyrics\n\nA long body.".to_string(),
    };
    match replied(&Task::CheckUpdate, vec![sent]) {
        Reply::Update(found) => {
            assert!(found.update_available);
            assert_eq!(found.remote.date, "2026-01-02T03:04:05Z");
            assert_eq!(found.remote.summary, "Add lyrics");
        }
        other => panic!("got {other:?}"),
    }
    let offline = Answer::Failed("parsing GitHub's response".to_string());
    assert_eq!(replied(&Task::CheckUpdate, vec![offline]), failed("parsing GitHub's response"));
    assert_eq!(replied(&Task::InstallUpdate, vec![Answer::Done]), Reply::Done);
}

#[test]
fn each_home_list_is_opened_whole() {
    for (kind, call) in [
        (NativeKind::Favourites, client().favourites()),
        (NativeKind::RecentlyPlayed, client().recently_played()),
        (NativeKind::OnRepeat, client().on_repeat()),
        (NativeKind::SongsForYou, client().songs_for_you()),
    ] {
        assert_eq!(calls(needed(&Task::Expand(kind))), vec![call]);
    }
}

#[test]
fn each_song_of_a_task_is_sent() {
    let song = |id: &str| Song {
        id: id.to_string(),
        title: format!("title {id}"),
        artist: String::new(),
        album: String::new(),
        duration: Real64 { bits: 60.0f64.to_bits() },
        cover_art: None,
        suffix: "flac".to_string(),
        bit_rate: None,
        starred: None,
        replay_gain: None,
    };
    let task = Task::Append { songs: vec![song("a"), song("b")] };
    assert_eq!(songs_to_send(&task), 2);
    let salted = |salt: &str| vec![("s".to_string(), salt.to_string())];
    let auths = vec![(salted("1"), salted("2")), (salted("3"), salted("4"))];
    let entries = entries_of(&task, &client(), &auths);
    let urls: Vec<&str> = entries.iter().map(|e| e.stream_url.as_str()).collect();
    assert!(urls[0].starts_with("http://127.0.0.1:4533/rest/stream.view?id=a&s=1"));
    assert!(urls[1].starts_with("http://127.0.0.1:4533/rest/stream.view?id=b&s=3"));
    assert_eq!(entries[1].title, "title b");
    assert_eq!(entries[1].format_label, "FLAC");
    assert_eq!(songs_to_send(&Task::ClearQueue), 0);
    assert_eq!(entries_of(&Task::ClearQueue, &client(), &vec![]), vec![]);
}
