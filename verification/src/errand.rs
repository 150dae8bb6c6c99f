//! Errands: what a task of the interface asks of the server and of the daemon, and
//! what comes of the answers.
use crate::client::{
    album_info_reply, artist_info_reply, artists_reply, created_playlist_id, ApiCall, ApiView,
    Client, Fault,
};
use crate::json::{self, Decode};
use crate::library::{
    Album, AlbumView, ArtistView, Genre, GenreView, Playlist, PlaylistView, Song, SongView,
};
use crate::protocol::{queue_reply, QueueEntry, Request, Response};
use crate::screen::{NativeKind, ScreenView, Tab};
use crate::tui::{Reply, Task, TaskView};
use crate::update_check::{check_for_update, remote_commit};
use vstd::prelude::*;

verus! {

/// One thing that a task needs done.
#[derive(Debug, PartialEq, Eq)]
pub enum Errand {
    /// A request to the server.
    Ask(ApiCall),
    /// A request to the daemon.
    Tell(Request),
    /// A request for the latest commit of this program.
    FetchCommit,
    /// The latest commit of this program, built and installed.
    Install,
}

/// What an [`Errand`] says.
#[verifier::ext_equal]
pub enum ErrandView {
    Ask(ApiView),
    Tell(Request),
    FetchCommit,
    Install,
}

impl View for Errand {
    type V = ErrandView;

    open spec fn view(&self) -> ErrandView {
        match *self {
            Errand::Ask(call) => ErrandView::Ask(call@),
            Errand::Tell(request) => ErrandView::Tell(request),
            Errand::FetchCommit => ErrandView::FetchCommit,
            Errand::Install => ErrandView::Install,
        }
    }
}

/// What the errands say, in order.
pub open spec fn errand_views(errands: Seq<Errand>) -> Seq<ErrandView> {
    errands.map_values(|e: Errand| e@)
}

/// The request for one of the server's own lists.
pub open spec fn kind_call(kind: NativeKind) -> ApiView {
    match kind {
        NativeKind::Favourites => crate::client::favourites_call(),
        NativeKind::RecentlyPlayed => crate::client::recently_played_call(),
        NativeKind::OnRepeat => crate::client::on_repeat_call(),
        NativeKind::SongsForYou => crate::client::songs_for_you_call(),
    }
}

/// The request for the albums, in one of their two orders.
pub open spec fn sorted_albums_call(newest: bool) -> ApiView {
    if newest {
        crate::client::newest_albums_call()
    } else {
        crate::client::albums_call()
    }
}

/// What a tab's first screen needs: nothing for a search and for the settings.
pub open spec fn tab_errands(tab: Tab, newest: bool) -> Seq<ErrandView> {
    match tab {
        Tab::Home => seq![
            ErrandView::Ask(kind_call(NativeKind::Favourites)),
            ErrandView::Ask(kind_call(NativeKind::RecentlyPlayed)),
            ErrandView::Ask(kind_call(NativeKind::OnRepeat)),
            ErrandView::Ask(kind_call(NativeKind::SongsForYou)),
        ],
        Tab::Playlists => seq![ErrandView::Ask(crate::client::playlists_call())],
        Tab::Albums => seq![ErrandView::Ask(sorted_albums_call(newest))],
        Tab::Artists => seq![ErrandView::Ask(crate::client::artists_call())],
        Tab::Genres => seq![ErrandView::Ask(crate::client::genres_call())],
        Tab::Queue => seq![ErrandView::Tell(Request::Queue)],
        Tab::Search | Tab::Settings => Seq::empty(),
    }
}

/// What a task needs done, in order. `entries` are those of the songs that it plays
/// or queues, see [`entries_of`].
pub open spec fn errands_of(task: TaskView, entries: Vec<QueueEntry>) -> Seq<ErrandView> {
    match task {
        TaskView::LoadTab { tab, newest } => tab_errands(tab, newest),
        TaskView::OpenAlbum { id, .. } => seq![
            ErrandView::Ask(crate::client::album_songs_call(id)),
        ],
        TaskView::OpenArtist { id, .. } => seq![
            ErrandView::Ask(crate::client::artist_albums_call(id)),
        ],
        TaskView::OpenPlaylist { id, .. } => seq![
            ErrandView::Ask(crate::client::playlist_songs_call(id)),
        ],
        TaskView::RefreshPlaylist { id } => seq![
            ErrandView::Ask(crate::client::playlist_songs_call(id)),
        ],
        TaskView::OpenGenre { title } => seq![
            ErrandView::Ask(crate::client::albums_by_genre_call(title)),
        ],
        TaskView::Expand(kind) => seq![ErrandView::Ask(kind_call(kind))],
        TaskView::RefreshQueue { .. } => seq![ErrandView::Tell(Request::Queue)],
        TaskView::ArtistInfo { id, .. } => seq![
            ErrandView::Ask(crate::client::artist_info_call(id)),
        ],
        TaskView::AlbumInfo { id, .. } => seq![
            ErrandView::Ask(crate::client::album_info_call(id)),
        ],
        TaskView::PickPlaylist { .. } => seq![ErrandView::Ask(crate::client::playlists_call())],
        TaskView::Search { query } => seq![ErrandView::Ask(crate::client::search_call(query))],
        TaskView::NewPlaylist { name } => seq![
            ErrandView::Ask(crate::client::create_playlist_call(name, Seq::empty())),
        ],
        TaskView::SaveQueue { name, song_ids } => seq![
            ErrandView::Ask(crate::client::create_playlist_call(name, song_ids)),
        ],
        TaskView::RenamePlaylist { id, name } => seq![
            ErrandView::Ask(crate::client::rename_playlist_call(id, name)),
        ],
        TaskView::DeletePlaylist { id } => seq![
            ErrandView::Ask(crate::client::delete_playlist_call(id)),
        ],
        TaskView::AddToPlaylist { id, song_ids, .. } => Seq::new(
            song_ids.len(),
            |i: int| ErrandView::Ask(crate::client::add_song_to_playlist_call(id, song_ids[i])),
        ),
        TaskView::RemoveFromPlaylist { id, rows } => Seq::new(
            rows.len(),
            |i: int| ErrandView::Ask(crate::client::remove_song_from_playlist_call(id, rows[i])),
        ),
        TaskView::SetStarred { changes } => Seq::new(
            changes.len(),
            |i: int|
                ErrandView::Ask(crate::client::set_starred_call(changes[i].0, changes[i].1)),
        ),
        TaskView::PlayQueue { .. } => seq![
            ErrandView::Tell(Request::PlayQueue { tracks: entries, start_index: 0 }),
        ],
        TaskView::Append { .. } => seq![
            ErrandView::Tell(Request::AppendQueue { tracks: entries }),
        ],
        TaskView::PlayNext { .. } => seq![ErrandView::Tell(Request::PlayNext { tracks: entries })],
        TaskView::PlayAt { row } => seq![
            ErrandView::Tell(Request::PlayAt { index: row as u32 }),
        ],
        TaskView::RemoveFromQueue { rows } => Seq::new(
            rows.len(),
            |i: int| ErrandView::Tell(Request::RemoveFromQueue { index: rows[i] as u32 }),
        ),
        TaskView::ClearQueue => seq![ErrandView::Tell(Request::ClearQueue)],
        TaskView::MoveInQueue { from, to } => seq![
            ErrandView::Tell(Request::MoveInQueue { from: from as u32, to: to as u32 }),
        ],
        TaskView::CheckUpdate => seq![ErrandView::FetchCommit],
        TaskView::InstallUpdate => seq![ErrandView::Install],
    }
}

fn ask(call: ApiCall) -> (v: Vec<Errand>)
    ensures
        errand_views(v@) == seq![ErrandView::Ask(call@)],
{
    let mut v: Vec<Errand> = Vec::new();
    v.push(Errand::Ask(call));
    assert(errand_views(v@) =~= seq![ErrandView::Ask(call@)]);
    v
}

fn tell(request: Request) -> (v: Vec<Errand>)
    ensures
        errand_views(v@) == seq![ErrandView::Tell(request)],
{
    let mut v: Vec<Errand> = Vec::new();
    v.push(Errand::Tell(request));
    assert(errand_views(v@) =~= seq![ErrandView::Tell(request)]);
    v
}

fn kind_asked(client: &Client, kind: NativeKind) -> (call: ApiCall)
    ensures
        call@ == kind_call(kind),
{
    match kind {
        NativeKind::Favourites => client.favourites(),
        NativeKind::RecentlyPlayed => client.recently_played(),
        NativeKind::OnRepeat => client.on_repeat(),
        NativeKind::SongsForYou => client.songs_for_you(),
    }
}

fn albums_asked(client: &Client, newest: bool) -> (call: ApiCall)
    ensures
        call@ == sorted_albums_call(newest),
{
    if newest {
        client.newest_albums()
    } else {
        client.albums()
    }
}

fn tab_needs(client: &Client, tab: Tab, newest: bool) -> (v: Vec<Errand>)
    ensures
        errand_views(v@) == tab_errands(tab, newest),
{
    match tab {
        Tab::Home => {
            let mut v: Vec<Errand> = Vec::new();
            v.push(Errand::Ask(kind_asked(client, NativeKind::Favourites)));
            v.push(Errand::Ask(kind_asked(client, NativeKind::RecentlyPlayed)));
            v.push(Errand::Ask(kind_asked(client, NativeKind::OnRepeat)));
            v.push(Errand::Ask(kind_asked(client, NativeKind::SongsForYou)));
            assert(errand_views(v@) =~= tab_errands(tab, newest));
            v
        },
        Tab::Playlists => ask(client.playlists()),
        Tab::Albums => ask(albums_asked(client, newest)),
        Tab::Artists => ask(client.artists()),
        Tab::Genres => ask(client.genres()),
        Tab::Queue => tell(Request::Queue),
        Tab::Search | Tab::Settings => {
            let none: Vec<Errand> = Vec::new();
            assert(errand_views(none@) =~= tab_errands(tab, newest));
            none
        },
    }
}

fn additions(client: &Client, id: &str, song_ids: &Vec<String>) -> (v: Vec<Errand>)
    ensures
        errand_views(v@) == Seq::new(
            song_ids@.len(),
            |i: int|
                ErrandView::Ask(
                    crate::client::add_song_to_playlist_call(
                        id@,
                        json::text_views(song_ids@)[i],
                    ),
                ),
        ),
{
    let mut v: Vec<Errand> = Vec::new();
    let ghost all = Seq::new(
        song_ids@.len(),
        |i: int|
            ErrandView::Ask(
                crate::client::add_song_to_playlist_call(id@, json::text_views(song_ids@)[i]),
            ),
    );
    let mut i: usize = 0;
    while i < song_ids.len()
        invariant
            i <= song_ids.len(),
            all == Seq::new(
                song_ids@.len(),
                |i: int|
                    ErrandView::Ask(
                        crate::client::add_song_to_playlist_call(
                            id@,
                            json::text_views(song_ids@)[i],
                        ),
                    ),
            ),
            errand_views(v@) == all.take(i as int),
        decreases song_ids.len() - i,
    {
        let ghost before = v@;
        v.push(Errand::Ask(client.add_song_to_playlist(id, song_ids[i].as_str())));
        assert(errand_views(v@) =~= errand_views(before).push(v@.last()@));
        i = i + 1;
        assert(errand_views(v@) =~= all.take(i as int));
    }
    assert(all.take(i as int) =~= all);
    v
}

fn removals(client: &Client, id: &str, rows: &Vec<usize>) -> (v: Vec<Errand>)
    ensures
        errand_views(v@) == Seq::new(
            rows@.len(),
            |i: int|
                ErrandView::Ask(crate::client::remove_song_from_playlist_call(id@, rows@[i])),
        ),
{
    let mut v: Vec<Errand> = Vec::new();
    let ghost all = Seq::new(
        rows@.len(),
        |i: int| ErrandView::Ask(crate::client::remove_song_from_playlist_call(id@, rows@[i])),
    );
    let mut i: usize = 0;
    while i < rows.len()
        invariant
            i <= rows.len(),
            all == Seq::new(
                rows@.len(),
                |i: int|
                    ErrandView::Ask(crate::client::remove_song_from_playlist_call(id@, rows@[i])),
            ),
            errand_views(v@) == all.take(i as int),
        decreases rows.len() - i,
    {
        let ghost before = v@;
        v.push(Errand::Ask(client.remove_song_from_playlist(id, rows[i])));
        assert(errand_views(v@) =~= errand_views(before).push(v@.last()@));
        i = i + 1;
        assert(errand_views(v@) =~= all.take(i as int));
    }
    assert(all.take(i as int) =~= all);
    v
}

fn starrings(client: &Client, changes: &Vec<(String, bool)>) -> (v: Vec<Errand>)
    ensures
        errand_views(v@) == Seq::new(
            changes@.len(),
            |i: int|
                ErrandView::Ask(
                    crate::client::set_starred_call(
                        crate::tui::change_views(changes@)[i].0,
                        crate::tui::change_views(changes@)[i].1,
                    ),
                ),
        ),
{
    let mut v: Vec<Errand> = Vec::new();
    let ghost all = Seq::new(
        changes@.len(),
        |i: int|
            ErrandView::Ask(
                crate::client::set_starred_call(
                    crate::tui::change_views(changes@)[i].0,
                    crate::tui::change_views(changes@)[i].1,
                ),
            ),
    );
    let mut i: usize = 0;
    while i < changes.len()
        invariant
            i <= changes.len(),
            all == Seq::new(
                changes@.len(),
                |i: int|
                    ErrandView::Ask(
                        crate::client::set_starred_call(
                            crate::tui::change_views(changes@)[i].0,
                            crate::tui::change_views(changes@)[i].1,
                        ),
                    ),
            ),
            errand_views(v@) == all.take(i as int),
        decreases changes.len() - i,
    {
        let ghost before = v@;
        v.push(Errand::Ask(client.set_starred(changes[i].0.as_str(), changes[i].1)));
        assert(errand_views(v@) =~= errand_views(before).push(v@.last()@));
        i = i + 1;
        assert(errand_views(v@) =~= all.take(i as int));
    }
    assert(all.take(i as int) =~= all);
    v
}

fn queue_removals(rows: &Vec<usize>) -> (v: Vec<Errand>)
    ensures
        errand_views(v@) == Seq::new(
            rows@.len(),
            |i: int| ErrandView::Tell(Request::RemoveFromQueue { index: rows@[i] as u32 }),
        ),
{
    let mut v: Vec<Errand> = Vec::new();
    let ghost all = Seq::new(
        rows@.len(),
        |i: int| ErrandView::Tell(Request::RemoveFromQueue { index: rows@[i] as u32 }),
    );
    let mut i: usize = 0;
    while i < rows.len()
        invariant
            i <= rows.len(),
            all == Seq::new(
                rows@.len(),
                |i: int| ErrandView::Tell(Request::RemoveFromQueue { index: rows@[i] as u32 }),
            ),
            errand_views(v@) == all.take(i as int),
        decreases rows.len() - i,
    {
        let ghost before = v@;
        v.push(Errand::Tell(Request::RemoveFromQueue { index: rows[i] as u32 }));
        assert(errand_views(v@) =~= errand_views(before).push(v@.last()@));
        i = i + 1;
        assert(errand_views(v@) =~= all.take(i as int));
    }
    assert(all.take(i as int) =~= all);
    v
}

fn one(errand: Errand) -> (v: Vec<Errand>)
    ensures
        errand_views(v@) == seq![errand@],
{
    let mut v: Vec<Errand> = Vec::new();
    v.push(errand);
    assert(errand_views(v@) =~= seq![errand@]);
    v
}

/// The songs that a task plays or queues.
pub open spec fn songs_sent(task: Task) -> Seq<Song> {
    match task {
        Task::PlayQueue { songs } => songs@,
        Task::Append { songs } => songs@,
        Task::PlayNext { songs } => songs@,
        _ => Seq::empty(),
    }
}

/// How many songs a task plays or queues.
pub fn songs_to_send(task: &Task) -> (n: usize)
    ensures
        n == songs_sent(*task).len(),
{
    match task {
        Task::PlayQueue { songs } => songs.len(),
        Task::Append { songs } => songs.len(),
        Task::PlayNext { songs } => songs.len(),
        _ => 0,
    }
}

/// The queue entries of the songs that a task plays or queues, in order.
pub fn entries_of(
    task: &Task,
    client: &Client,
    auths: &Vec<(Vec<(String, String)>, Vec<(String, String)>)>,
) -> (v: Vec<QueueEntry>)
    requires
        auths@.len() == songs_sent(*task).len(),
    ensures
        crate::client::all_play(*client, songs_sent(*task), auths@, v@),
{
    match task {
        Task::PlayQueue { songs } => client.queue_entries(songs, auths),
        Task::Append { songs } => client.queue_entries(songs, auths),
        Task::PlayNext { songs } => client.queue_entries(songs, auths),
        _ => Vec::new(),
    }
}

/// What a task needs done, see [`errands_of`].
pub fn errands(task: &Task, client: &Client, entries: Vec<QueueEntry>) -> (v: Vec<Errand>)
    ensures
        errand_views(v@) == errands_of(task@, entries),
{
    match task {
        Task::LoadTab { tab, newest } => tab_needs(client, *tab, *newest),
        Task::OpenAlbum { id, .. } => ask(client.album_songs(id.as_str())),
        Task::OpenArtist { id, .. } => ask(client.artist_albums(id.as_str())),
        Task::OpenPlaylist { id, .. } => ask(client.playlist_songs(id.as_str())),
        Task::RefreshPlaylist { id } => ask(client.playlist_songs(id.as_str())),
        Task::OpenGenre { title } => ask(client.albums_by_genre(title.as_str())),
        Task::Expand(kind) => ask(kind_asked(client, *kind)),
        Task::RefreshQueue { .. } => tell(Request::Queue),
        Task::ArtistInfo { id, .. } => ask(client.artist_info(id.as_str())),
        Task::AlbumInfo { id, .. } => ask(client.album_info(id.as_str())),
        Task::PickPlaylist { .. } => ask(client.playlists()),
        Task::Search { query } => ask(client.search(query.as_str())),
        Task::NewPlaylist { name } => {
            let none: Vec<String> = Vec::new();
            assert(json::text_views(none@) =~= Seq::<Seq<char>>::empty());
            ask(client.create_playlist(name.as_str(), &none))
        },
        Task::SaveQueue { name, song_ids } => ask(
            client.create_playlist(name.as_str(), song_ids),
        ),
        Task::RenamePlaylist { id, name } => ask(
            client.rename_playlist(id.as_str(), name.as_str()),
        ),
        Task::DeletePlaylist { id } => ask(client.delete_playlist(id.as_str())),
        Task::AddToPlaylist { id, song_ids, .. } => {
            let v = additions(client, id.as_str(), song_ids);
            assert(errand_views(v@) =~= errands_of(task@, entries));
            v
        },
        Task::RemoveFromPlaylist { id, rows } => {
            let v = removals(client, id.as_str(), rows);
            assert(errand_views(v@) =~= errands_of(task@, entries));
            v
        },
        Task::SetStarred { changes } => {
            let v = starrings(client, changes);
            assert(errand_views(v@) =~= errands_of(task@, entries));
            v
        },
        Task::PlayQueue { .. } => tell(Request::PlayQueue { tracks: entries, start_index: 0 }),
        Task::Append { .. } => tell(Request::AppendQueue { tracks: entries }),
        Task::PlayNext { .. } => tell(Request::PlayNext { tracks: entries }),
        Task::PlayAt { row } => tell(Request::PlayAt { index: *row as u32 }),
        Task::RemoveFromQueue { rows } => {
            let v = queue_removals(rows);
            assert(errand_views(v@) =~= errands_of(task@, entries));
            v
        },
        Task::ClearQueue => tell(Request::ClearQueue),
        Task::MoveInQueue { from, to } => tell(
            Request::MoveInQueue { from: *from as u32, to: *to as u32 },
        ),
        Task::CheckUpdate => one(Errand::FetchCommit),
        Task::InstallUpdate => one(Errand::Install),
    }
}

/// What came of an errand.
#[derive(Debug, PartialEq, Eq)]
pub enum Answer {
    /// The text that the server sent.
    Body(String),
    /// What the daemon answered.
    Said(Response),
    /// The latest commit: its hash, its date and its message.
    Commit { sha: String, date: String, message: String },
    /// It was done, with nothing to show for it.
    Done,
    /// It failed, and why.
    Failed(String),
}

/// What an [`Answer`] says.
#[verifier::ext_equal]
pub enum AnswerView {
    Body(Seq<char>),
    Said(Response),
    Commit { sha: Seq<char>, date: Seq<char>, message: Seq<char> },
    Done,
    Failed(Seq<char>),
}

impl View for Answer {
    type V = AnswerView;

    open spec fn view(&self) -> AnswerView {
        match *self {
            Answer::Body(body) => AnswerView::Body(body@),
            Answer::Said(response) => AnswerView::Said(response),
            Answer::Commit { sha, date, message } => AnswerView::Commit {
                sha: sha@,
                date: date@,
                message: message@,
            },
            Answer::Done => AnswerView::Done,
            Answer::Failed(why) => AnswerView::Failed(why@),
        }
    }
}

/// What the answers say, in order.
pub open spec fn answer_views(answers: Seq<Answer>) -> Seq<AnswerView> {
    answers.map_values(|a: Answer| a@)
}

/// What the user is told of an answer of the wrong kind, and of none.
pub open spec fn no_use() -> Seq<char> {
    "unexpected response shape for this request"@
}

fn of_no_use() -> (s: String)
    ensures
        s@ == no_use(),
{
    "unexpected response shape for this request".to_owned()
}

/// What the user is told of a fault.
pub open spec fn fault_text(fault: Fault) -> Seq<char> {
    match fault {
        Fault::NotJson { path } => "parsing "@ + path + " response"@,
        Fault::Refused { path, message } => path + ": "@ + message,
        Fault::UnexpectedShape => "unexpected response shape"@,
    }
}

/// What is wrong with the answer to an errand that has no results.
pub open spec fn trouble(errand: ErrandView, answer: AnswerView) -> Option<Seq<char>> {
    match (errand, answer) {
        (_, AnswerView::Failed(why)) => Some(why),
        (ErrandView::Ask(call), AnswerView::Body(body)) => match crate::client::refused(
            call.path,
            body,
        ) {
            Some(fault) => Some(fault_text(fault)),
            None => None,
        },
        (ErrandView::Tell(_), AnswerView::Said(Response::Unit)) => None,
        (ErrandView::Tell(_), AnswerView::Said(Response::Error(why))) => Some(why@),
        (ErrandView::Install, AnswerView::Done) => None,
        _ => Some(no_use()),
    }
}

fn response_trouble(response: &Response) -> (r: Option<String>)
    ensures
        json::opt_view(r) == (match *response {
            Response::Unit => None,
            Response::Error(why) => Some(why@),
            _ => Some(no_use()),
        }),
{
    match response {
        Response::Unit => None,
        Response::Error(why) => Some(why.clone()),
        _ => Some(of_no_use()),
    }
}

/// What is wrong with the answer to an errand that has no results, see
/// [`trouble`].
pub fn trouble_with(errand: &Errand, answer: &Answer) -> (r: Option<String>)
    ensures
        json::opt_view(r) == trouble(errand@, answer@),
{
    match (errand, answer) {
        (_, Answer::Failed(why)) => Some(why.clone()),
        (Errand::Ask(call), Answer::Body(body)) => match call.done(body.as_str()) {
            Ok(_) => None,
            Err(e) => Some(e.message()),
        },
        (Errand::Tell(_), Answer::Said(response)) => response_trouble(response),
        (Errand::Install, Answer::Done) => None,
        _ => Some(of_no_use()),
    }
}

/// What the first trouble is, as far as there are answers.
pub open spec fn first_trouble(errands: Seq<ErrandView>, answers: Seq<AnswerView>) -> Option<
    Seq<char>,
>
    decreases errands.len(),
{
    if errands.len() == 0 || answers.len() == 0 {
        None
    } else {
        match trouble(errands[0], answers[0]) {
            Some(why) => Some(why),
            None => first_trouble(errands.skip(1), answers.skip(1)),
        }
    }
}

/// Whether a task needs all of its errands done, and stops at the first that fails.
pub open spec fn all_or_nothing(task: TaskView) -> bool {
    match task {
        TaskView::RenamePlaylist { .. } => true,
        TaskView::DeletePlaylist { .. } => true,
        TaskView::AddToPlaylist { .. } => true,
        TaskView::RemoveFromPlaylist { .. } => true,
        TaskView::SetStarred { .. } => true,
        TaskView::PlayQueue { .. } => true,
        TaskView::Append { .. } => true,
        TaskView::PlayNext { .. } => true,
        TaskView::PlayAt { .. } => true,
        TaskView::RemoveFromQueue { .. } => true,
        TaskView::ClearQueue => true,
        TaskView::MoveInQueue { .. } => true,
        TaskView::InstallUpdate => true,
        _ => false,
    }
}

fn needs_all(task: &Task) -> (r: bool)
    ensures
        r == all_or_nothing(task@),
{
    match task {
        Task::RenamePlaylist { .. } => true,
        Task::DeletePlaylist { .. } => true,
        Task::AddToPlaylist { .. } => true,
        Task::RemoveFromPlaylist { .. } => true,
        Task::SetStarred { .. } => true,
        Task::PlayQueue { .. } => true,
        Task::Append { .. } => true,
        Task::PlayNext { .. } => true,
        Task::PlayAt { .. } => true,
        Task::RemoveFromQueue { .. } => true,
        Task::ClearQueue => true,
        Task::MoveInQueue { .. } => true,
        Task::InstallUpdate => true,
        _ => false,
    }
}

/// Whether to go on to the next errand of a task after this answer: not after a
/// failure of one that needs them all.
pub fn goes_on(task: &Task, errand: &Errand, answer: &Answer) -> (r: bool)
    ensures
        r == !(all_or_nothing(task@) && trouble(errand@, answer@) is Some),
{
    !needs_all(task) || trouble_with(errand, answer).is_none()
}

/// The first answer; that there is none counts as a failure.
pub open spec fn first_answer(answers: Seq<AnswerView>) -> AnswerView {
    if answers.len() > 0 {
        answers[0]
    } else {
        AnswerView::Failed(no_use())
    }
}

/// What the answer to a call for a list comes to: the list, or what is wrong.
pub open spec fn listed<T: Decode>(call: ApiView, answer: AnswerView) -> Result<
    Seq<T::V>,
    Seq<char>,
> {
    match answer {
        AnswerView::Failed(why) => Err(why),
        AnswerView::Body(body) => match crate::client::list_answer::<T>(call, body) {
            Ok(v) => Ok(v),
            Err(fault) => Err(fault_text(fault)),
        },
        _ => Err(no_use()),
    }
}

fn list_in<T: Decode>(call: &ApiCall, answer: &Answer) -> (r: Result<Vec<T>, String>)
    ensures
        match listed::<T>(call@, answer@) {
            Ok(v) => r matches Ok(list) && json::item_views(list@) == v,
            Err(why) => r matches Err(s) && s@ == why,
        },
{
    match answer {
        Answer::Failed(why) => Err(why.clone()),
        Answer::Body(body) => match call.list(body.as_str()) {
            Ok(list) => Ok(list),
            Err(e) => Err(e.message()),
        },
        _ => Err(of_no_use()),
    }
}

/// Whether a reply is that of a failure.
pub open spec fn failed(reply: Reply, why: Seq<char>) -> bool {
    reply matches Reply::Failed(said) && said@ == why
}

/// Whether a reply shows albums, or says what is wrong.
pub open spec fn shows_albums(reply: Reply, found: Result<Seq<AlbumView>, Seq<char>>) -> bool {
    match found {
        Ok(v) => reply matches Reply::Albums(list) && json::item_views(list@) == v,
        Err(why) => failed(reply, why),
    }
}

/// Whether a reply shows songs, or says what is wrong.
pub open spec fn shows_songs(reply: Reply, found: Result<Seq<SongView>, Seq<char>>) -> bool {
    match found {
        Ok(v) => reply matches Reply::Songs(list) && json::item_views(list@) == v,
        Err(why) => failed(reply, why),
    }
}

/// Whether a reply shows genres, or says what is wrong.
pub open spec fn shows_genres(reply: Reply, found: Result<Seq<GenreView>, Seq<char>>) -> bool {
    match found {
        Ok(v) => reply matches Reply::Genres(list) && json::item_views(list@) == v,
        Err(why) => failed(reply, why),
    }
}

/// Whether a reply shows playlists, or says what is wrong.
pub open spec fn shows_playlists(
    reply: Reply,
    found: Result<Seq<PlaylistView>, Seq<char>>,
) -> bool {
    match found {
        Ok(v) => reply matches Reply::Playlists(list) && json::item_views(list@) == v,
        Err(why) => failed(reply, why),
    }
}

/// Whether a reply shows artists, or says what is wrong.
pub open spec fn shows_artists(reply: Reply, found: Result<Seq<ArtistView>, Seq<char>>) -> bool {
    match found {
        Ok(v) => reply matches Reply::Artists(list) && json::item_views(list@) == v,
        Err(why) => failed(reply, why),
    }
}

/// The user's own playlists among those that an answer lists.
pub open spec fn own_listed(username: Seq<char>, answer: AnswerView) -> Result<
    Seq<PlaylistView>,
    Seq<char>,
> {
    match listed::<Playlist>(crate::client::playlists_call(), answer) {
        Ok(v) => Ok(v.filter(crate::client::owned_by(username))),
        Err(why) => Err(why),
    }
}

/// The artists that an answer lists by their letters.
pub open spec fn artists_listed(answer: AnswerView) -> Result<Seq<ArtistView>, Seq<char>> {
    let call = crate::client::artists_call();
    match answer {
        AnswerView::Failed(why) => Err(why),
        AnswerView::Body(body) => match crate::client::refused(call.path, body) {
            Some(fault) => Err(fault_text(fault)),
            None => match crate::client::indexed_artists(
                crate::client::index_groups(
                    json::at_path(
                        crate::library::reply_root(body),
                        seq![call.first, call.second],
                    ),
                ),
            ) {
                Some(v) => Ok(v),
                None => Err("unexpected response shape"@),
            },
        },
        _ => Err(no_use()),
    }
}

/// A list of the home screen: empty where it could not be had.
pub open spec fn home_list(kind: NativeKind, answers: Seq<AnswerView>, i: int) -> Seq<SongView> {
    if i < answers.len() {
        match listed::<Song>(kind_call(kind), answers[i]) {
            Ok(v) => v,
            Err(_) => Seq::empty(),
        }
    } else {
        Seq::empty()
    }
}

/// Whether a reply shows the home screen that the answers make.
pub open spec fn shows_home(reply: Reply, answers: Seq<AnswerView>) -> bool {
    &&& reply matches Reply::Home { favourites, recently_played, on_repeat, songs_for_you }
    &&& json::item_views(favourites@) == home_list(NativeKind::Favourites, answers, 0)
    &&& json::item_views(recently_played@) == home_list(NativeKind::RecentlyPlayed, answers, 1)
    &&& json::item_views(on_repeat@) == home_list(NativeKind::OnRepeat, answers, 2)
    &&& json::item_views(songs_for_you@) == home_list(NativeKind::SongsForYou, answers, 3)
}

/// Whether a reply shows the queue that the daemon told, or says what is wrong.
pub open spec fn shows_queue(reply: Reply, answer: AnswerView) -> bool {
    match answer {
        AnswerView::Failed(why) => failed(reply, why),
        AnswerView::Said(Response::Queue(rows)) => reply == Reply::Queue(rows),
        AnswerView::Said(Response::Error(why)) => failed(reply, why@),
        _ => failed(reply, no_use()),
    }
}

fn albums_told(found: Result<Vec<Album>, String>) -> (reply: Reply)
    ensures
        match found {
            Ok(list) => reply == Reply::Albums(list),
            Err(why) => reply == Reply::Failed(why),
        },
{
    match found {
        Ok(list) => Reply::Albums(list),
        Err(why) => Reply::Failed(why),
    }
}

fn songs_told(found: Result<Vec<Song>, String>) -> (reply: Reply)
    ensures
        match found {
            Ok(list) => reply == Reply::Songs(list),
            Err(why) => reply == Reply::Failed(why),
        },
{
    match found {
        Ok(list) => Reply::Songs(list),
        Err(why) => Reply::Failed(why),
    }
}

fn genres_told(found: Result<Vec<Genre>, String>) -> (reply: Reply)
    ensures
        match found {
            Ok(list) => reply == Reply::Genres(list),
            Err(why) => reply == Reply::Failed(why),
        },
{
    match found {
        Ok(list) => Reply::Genres(list),
        Err(why) => Reply::Failed(why),
    }
}

fn playlists_told(client: &Client, answer: &Answer) -> (reply: Reply)
    ensures
        shows_playlists(reply, own_listed(client.creds.username@, answer@)),
{
    let call = client.playlists();
    match answer {
        Answer::Failed(why) => Reply::Failed(why.clone()),
        Answer::Body(body) => match client.playlists_reply(&call, body.as_str()) {
            Ok(list) => Reply::Playlists(list),
            Err(e) => Reply::Failed(e.message()),
        },
        _ => Reply::Failed(of_no_use()),
    }
}

fn artists_told(client: &Client, answer: &Answer) -> (reply: Reply)
    ensures
        shows_artists(reply, artists_listed(answer@)),
{
    let call = client.artists();
    match answer {
        Answer::Failed(why) => Reply::Failed(why.clone()),
        Answer::Body(body) => match artists_reply(&call, body.as_str()) {
            Ok(list) => Reply::Artists(list),
            Err(e) => Reply::Failed(e.message()),
        },
        _ => Reply::Failed(of_no_use()),
    }
}

fn queue_told(answer: Answer) -> (reply: Reply)
    ensures
        shows_queue(reply, answer@),
{
    match answer {
        Answer::Failed(why) => Reply::Failed(why),
        Answer::Said(response) => match queue_reply(response) {
            Ok(rows) => Reply::Queue(rows),
            Err(e) => Reply::Failed(e.message()),
        },
        _ => Reply::Failed(of_no_use()),
    }
}

fn home_part(client: &Client, kind: NativeKind, answers: &Vec<Answer>, i: usize) -> (list: Vec<
    Song,
>)
    ensures
        json::item_views(list@) == home_list(kind, answer_views(answers@), i as int),
{
    let none: Vec<Song> = Vec::new();
    assert(json::item_views(none@) =~= Seq::<SongView>::empty());
    if i < answers.len() {
        let call = kind_asked(client, kind);
        match list_in::<Song>(&call, &answers[i]) {
            Ok(list) => list,
            Err(_) => none,
        }
    } else {
        none
    }
}

fn take_first(answers: Vec<Answer>) -> (answer: Answer)
    ensures
        answer@ == first_answer(answer_views(answers@)),
{
    let mut answers = answers;
    if answers.len() > 0 {
        let ghost all = answers@;
        let first = answers.swap_remove(0);
        assert(answer_views(all)[0] == first@);
        first
    } else {
        Answer::Failed(of_no_use())
    }
}

/// Whether a reply shows what an answer says of an artist, or says what is wrong.
/// That nothing is known is no failure.
pub open spec fn shows_artist_info(reply: Reply, call: ApiView, answer: AnswerView) -> bool {
    match answer {
        AnswerView::Failed(why) => failed(reply, why),
        AnswerView::Body(body) => match crate::client::refused(call.path, body) {
            Some(fault) => failed(reply, fault_text(fault)),
            None => {
                let value = json::at_path(
                    crate::library::reply_root(body),
                    seq!["artistInfo2"@],
                );
                if json::is_nothing(value) {
                    reply matches Reply::ArtistInfo(info) && info.biography@.len() == 0
                        && info.similar_artists@.len() == 0
                } else {
                    match crate::client::artist_info_in(value->0) {
                        Some((biography, similar)) => reply matches Reply::ArtistInfo(info)
                            && info.biography@ == biography && json::item_views(
                            info.similar_artists@,
                        ) == similar,
                        None => failed(reply, "unexpected artistInfo2 response shape"@),
                    }
                }
            },
        },
        _ => failed(reply, no_use()),
    }
}

/// Whether a reply shows what an answer says of an album, or says what is wrong. That
/// nothing is known is no failure.
pub open spec fn shows_album_info(reply: Reply, call: ApiView, answer: AnswerView) -> bool {
    match answer {
        AnswerView::Failed(why) => failed(reply, why),
        AnswerView::Body(body) => match crate::client::refused(call.path, body) {
            Some(fault) => failed(reply, fault_text(fault)),
            None => {
                let value = json::at_path(crate::library::reply_root(body), seq!["albumInfo"@]);
                if json::is_nothing(value) {
                    reply matches Reply::AlbumInfo(info) && info.notes@.len() == 0
                } else if json::is_record(value->0, 1) && json::text_or_empty(
                    json::field_of(value->0, 0, "notes"@),
                ) is Some {
                    reply matches Reply::AlbumInfo(info) && info.notes@
                        == crate::library::plain_text(
                        json::text_or_empty(json::field_of(value->0, 0, "notes"@))->0,
                    )
                } else {
                    failed(reply, "unexpected albumInfo response shape"@)
                }
            },
        },
        _ => failed(reply, no_use()),
    }
}

/// What is wrong with the answer to a call that makes a playlist: it has to hold the
/// id of the new playlist.
pub open spec fn creation_trouble(call: ApiView, answer: AnswerView) -> Option<Seq<char>> {
    match answer {
        AnswerView::Failed(why) => Some(why),
        AnswerView::Body(body) => match crate::client::refused(call.path, body) {
            Some(fault) => Some(fault_text(fault)),
            None => if crate::library::string_at(
                crate::library::reply_root(body),
                seq!["playlist"@, "id"@],
            ) is Some {
                None
            } else {
                Some("createPlaylist response had no playlist id"@)
            },
        },
        _ => Some(no_use()),
    }
}

/// Whether a reply says that something was done, or what was wrong.
pub open spec fn done_unless(reply: Reply, why: Option<Seq<char>>) -> bool {
    match why {
        Some(said) => failed(reply, said),
        None => reply == Reply::Done,
    }
}

/// Whether a reply shows what the latest commit is, to a program that was built from
/// `hash`, or says what is wrong.
pub open spec fn shows_update(reply: Reply, hash: Seq<char>, answer: AnswerView) -> bool {
    match answer {
        AnswerView::Failed(why) => failed(reply, why),
        AnswerView::Commit { sha, date, message } => {
            &&& reply matches Reply::Update(found)
            &&& found.remote.sha@ == sha
            &&& found.remote.date@ == date
            &&& found.remote.summary@ == crate::update_check::first_line(message)
            &&& found.update_available == crate::update_check::newer(sha, hash)
        },
        _ => failed(reply, no_use()),
    }
}

/// Whether a reply is what comes of a task whose errands were answered so, for the
/// user `username` of a program that was built from `hash`.
pub open spec fn replied(
    reply: Reply,
    task: TaskView,
    username: Seq<char>,
    hash: Seq<char>,
    errands: Seq<ErrandView>,
    answers: Seq<AnswerView>,
) -> bool {
    let first = first_answer(answers);
    match task {
        TaskView::LoadTab { tab, newest } => match tab {
            Tab::Home => shows_home(reply, answers),
            Tab::Playlists => shows_playlists(reply, own_listed(username, first)),
            Tab::Albums => shows_albums(reply, listed::<Album>(sorted_albums_call(newest), first)),
            Tab::Artists => shows_artists(reply, artists_listed(first)),
            Tab::Genres => shows_genres(
                reply,
                listed::<Genre>(crate::client::genres_call(), first),
            ),
            Tab::Queue => shows_queue(reply, first),
            Tab::Search | Tab::Settings => reply == Reply::Done,
        },
        TaskView::OpenAlbum { id, .. } => shows_songs(
            reply,
            listed::<Song>(crate::client::album_songs_call(id), first),
        ),
        TaskView::OpenArtist { id, .. } => shows_albums(
            reply,
            listed::<Album>(crate::client::artist_albums_call(id), first),
        ),
        TaskView::OpenPlaylist { id, .. } => shows_songs(
            reply,
            listed::<Song>(crate::client::playlist_songs_call(id), first),
        ),
        TaskView::RefreshPlaylist { id } => shows_songs(
            reply,
            listed::<Song>(crate::client::playlist_songs_call(id), first),
        ),
        TaskView::OpenGenre { title } => shows_albums(
            reply,
            listed::<Album>(crate::client::albums_by_genre_call(title), first),
        ),
        TaskView::Expand(kind) => shows_songs(reply, listed::<Song>(kind_call(kind), first)),
        TaskView::RefreshQueue { .. } => shows_queue(reply, first),
        TaskView::ArtistInfo { id, .. } => shows_artist_info(
            reply,
            crate::client::artist_info_call(id),
            first,
        ),
        TaskView::AlbumInfo { id, .. } => shows_album_info(
            reply,
            crate::client::album_info_call(id),
            first,
        ),
        TaskView::PickPlaylist { .. } => shows_playlists(reply, own_listed(username, first)),
        TaskView::Search { query } => shows_songs(
            reply,
            listed::<Song>(crate::client::search_call(query), first),
        ),
        TaskView::NewPlaylist { name } => done_unless(
            reply,
            creation_trouble(crate::client::create_playlist_call(name, Seq::empty()), first),
        ),
        TaskView::SaveQueue { name, song_ids } => done_unless(
            reply,
            creation_trouble(crate::client::create_playlist_call(name, song_ids), first),
        ),
        TaskView::CheckUpdate => shows_update(reply, hash, first),
        _ => done_unless(reply, first_trouble(errands, answers)),
    }
}

fn artist_info_told(client: &Client, id: &str, answer: &Answer) -> (reply: Reply)
    ensures
        shows_artist_info(reply, crate::client::artist_info_call(id@), answer@),
{
    let call = client.artist_info(id);
    match answer {
        Answer::Failed(why) => Reply::Failed(why.clone()),
        Answer::Body(body) => match artist_info_reply(&call, body.as_str()) {
            Ok(info) => Reply::ArtistInfo(info),
            Err(e) => Reply::Failed(e.message()),
        },
        _ => Reply::Failed(of_no_use()),
    }
}

fn album_info_told(client: &Client, id: &str, answer: &Answer) -> (reply: Reply)
    ensures
        shows_album_info(reply, crate::client::album_info_call(id@), answer@),
{
    let call = client.album_info(id);
    match answer {
        Answer::Failed(why) => Reply::Failed(why.clone()),
        Answer::Body(body) => match album_info_reply(&call, body.as_str()) {
            Ok(info) => Reply::AlbumInfo(info),
            Err(e) => Reply::Failed(e.message()),
        },
        _ => Reply::Failed(of_no_use()),
    }
}

fn creation_told(call: &ApiCall, answer: &Answer) -> (reply: Reply)
    ensures
        done_unless(reply, creation_trouble(call@, answer@)),
{
    match answer {
        Answer::Failed(why) => Reply::Failed(why.clone()),
        Answer::Body(body) => match created_playlist_id(call, body.as_str()) {
            Ok(_) => Reply::Done,
            Err(e) => Reply::Failed(e.message()),
        },
        _ => Reply::Failed(of_no_use()),
    }
}

fn update_told(hash: &str, answer: &Answer) -> (reply: Reply)
    ensures
        shows_update(reply, hash@, answer@),
{
    match answer {
        Answer::Failed(why) => Reply::Failed(why.clone()),
        Answer::Commit { sha, date, message } => {
            let remote = remote_commit(sha.clone(), date.clone(), message.as_str());
            let ghost v = remote@;
            let found = check_for_update(remote, hash);
            assert(found.remote.sha@ == v.sha && found.remote.date@ == v.date
                && found.remote.summary@ == v.summary);
            Reply::Update(found)
        },
        _ => Reply::Failed(of_no_use()),
    }
}

fn all_told(errands: &Vec<Errand>, answers: &Vec<Answer>) -> (reply: Reply)
    ensures
        done_unless(reply, first_trouble(errand_views(errands@), answer_views(answers@))),
{
    let ghost all_errands = errand_views(errands@);
    let ghost all_answers = answer_views(answers@);
    let mut i: usize = 0;
    assert(all_errands.skip(0) =~= all_errands);
    assert(all_answers.skip(0) =~= all_answers);
    while i < errands.len() && i < answers.len()
        invariant
            i <= errands.len(),
            i <= answers.len(),
            all_errands == errand_views(errands@),
            all_answers == answer_views(answers@),
            first_trouble(all_errands, all_answers) == first_trouble(
                all_errands.skip(i as int),
                all_answers.skip(i as int),
            ),
        decreases errands.len() - i,
    {
        assert(all_errands.skip(i as int)[0] == errands@[i as int]@);
        assert(all_answers.skip(i as int)[0] == answers@[i as int]@);
        assert(all_errands.skip(i as int).skip(1) =~= all_errands.skip(i + 1));
        assert(all_answers.skip(i as int).skip(1) =~= all_answers.skip(i + 1));
        match trouble_with(&errands[i], &answers[i]) {
            Some(why) => {
                return Reply::Failed(why);
            },
            None => {},
        }
        i = i + 1;
    }
    Reply::Done
}

/// What comes of a task whose errands were answered, see [`replied`].
pub fn reply(
    task: &Task,
    client: &Client,
    hash: &str,
    errands: &Vec<Errand>,
    answers: Vec<Answer>,
) -> (r: Reply)
    ensures
        replied(
            r,
            task@,
            client.creds.username@,
            hash@,
            errand_views(errands@),
            answer_views(answers@),
        ),
{
    match task {
        Task::LoadTab { tab, newest } => match *tab {
            Tab::Home => Reply::Home {
                favourites: home_part(client, NativeKind::Favourites, &answers, 0),
                recently_played: home_part(client, NativeKind::RecentlyPlayed, &answers, 1),
                on_repeat: home_part(client, NativeKind::OnRepeat, &answers, 2),
                songs_for_you: home_part(client, NativeKind::SongsForYou, &answers, 3),
            },
            Tab::Playlists => playlists_told(client, &take_first(answers)),
            Tab::Albums => albums_told(
                list_in(&albums_asked(client, *newest), &take_first(answers)),
            ),
            Tab::Artists => artists_told(client, &take_first(answers)),
            Tab::Genres => genres_told(list_in(&client.genres(), &take_first(answers))),
            Tab::Queue => queue_told(take_first(answers)),
            Tab::Search | Tab::Settings => Reply::Done,
        },
        Task::OpenAlbum { id, .. } => songs_told(
            list_in(&client.album_songs(id.as_str()), &take_first(answers)),
        ),
        Task::OpenArtist { id, .. } => albums_told(
            list_in(&client.artist_albums(id.as_str()), &take_first(answers)),
        ),
        Task::OpenPlaylist { id, .. } => songs_told(
            list_in(&client.playlist_songs(id.as_str()), &take_first(answers)),
        ),
        Task::RefreshPlaylist { id } => songs_told(
            list_in(&client.playlist_songs(id.as_str()), &take_first(answers)),
        ),
        Task::OpenGenre { title } => albums_told(
            list_in(&client.albums_by_genre(title.as_str()), &take_first(answers)),
        ),
        Task::Expand(kind) => songs_told(
            list_in(&kind_asked(client, *kind), &take_first(answers)),
        ),
        Task::RefreshQueue { .. } => queue_told(take_first(answers)),
        Task::ArtistInfo { id, .. } => artist_info_told(
            client,
            id.as_str(),
            &take_first(answers),
        ),
        Task::AlbumInfo { id, .. } => album_info_told(client, id.as_str(), &take_first(answers)),
        Task::PickPlaylist { .. } => playlists_told(client, &take_first(answers)),
        Task::Search { query } => songs_told(
            list_in(&client.search(query.as_str()), &take_first(answers)),
        ),
        Task::NewPlaylist { name } => {
            let none: Vec<String> = Vec::new();
            assert(json::text_views(none@) =~= Seq::<Seq<char>>::empty());
            creation_told(
                &client.create_playlist(name.as_str(), &none),
                &take_first(answers),
            )
        },
        Task::SaveQueue { name, song_ids } => creation_told(
            &client.create_playlist(name.as_str(), song_ids),
            &take_first(answers),
        ),
        Task::CheckUpdate => update_told(hash, &take_first(answers)),
        _ => all_told(errands, &answers),
    }
}

/// A task that needs all of its errands done is reported as done only if none of the
/// answers is one of trouble.
pub proof fn done_means_no_trouble(errands: Seq<ErrandView>, answers: Seq<AnswerView>, i: int)
    requires
        first_trouble(errands, answers) is None,
        0 <= i < errands.len(),
        i < answers.len(),
    ensures
        trouble(errands[i], answers[i]) is None,
    decreases errands.len(),
{
    if i > 0 {
        done_means_no_trouble(errands.skip(1), answers.skip(1), i - 1);
        assert(errands.skip(1)[i - 1] == errands[i]);
        assert(answers.skip(1)[i - 1] == answers[i]);
    }
}

/// What is left of a list when the items at the given rows are taken out of it, one
/// after the other.
pub open spec fn after_removals<A>(items: Seq<A>, rows: Seq<usize>) -> Seq<A>
    decreases rows.len(),
{
    if rows.len() == 0 {
        items
    } else {
        after_removals(items.remove(rows[0] as int), rows.skip(1))
    }
}

/// The items whose place is not among the rows, in order.
pub open spec fn spared<A>(items: Seq<A>, rows: Seq<usize>) -> Seq<A>
    decreases items.len(),
{
    if items.len() == 0 {
        items
    } else if rows.contains((items.len() - 1) as usize) {
        spared(items.drop_last(), rows)
    } else {
        spared(items.drop_last(), rows).push(items.last())
    }
}

/// Which items are spared depends only on which of their places are among the rows.
proof fn spared_by_places<A>(items: Seq<A>, rows: Seq<usize>, others: Seq<usize>)
    requires
        items.len() <= usize::MAX,
        forall|i: usize| i < items.len() ==> (rows.contains(i) <==> #[trigger] others.contains(i)),
    ensures
        spared(items, rows) == spared(items, others),
    decreases items.len(),
{
    if items.len() > 0 {
        spared_by_places(items.drop_last(), rows, others);
        assert(others.contains((items.len() - 1) as usize) == others.contains(
            (items.len() - 1) as usize,
        ));
    }
}

/// Taking out the item at the greatest of the rows leaves the same to the others.
proof fn spared_after_greatest<A>(items: Seq<A>, rows: Seq<usize>)
    requires
        items.len() <= usize::MAX,
        rows.len() > 0,
        rows[0] < items.len(),
        forall|k: int| 0 < k < rows.len() ==> #[trigger] rows[k] < rows[0],
    ensures
        spared(items.remove(rows[0] as int), rows.skip(1)) == spared(items, rows),
    decreases items.len(),
{
    let r = rows[0];
    let last = (items.len() - 1) as usize;
    let rest = rows.skip(1);
    assert forall|i: usize| rest.contains(i) implies i < r && rows.contains(i) by {
        let k = choose|k: int| 0 <= k < rest.len() && rest[k] == i;
        assert(rows[k + 1] == i);
    }
    if r == last {
        assert(rows.contains(last));
        assert(items.remove(r as int) =~= items.drop_last());
        assert forall|i: usize| i < items.drop_last().len() implies (rows.contains(i)
            <==> #[trigger] rest.contains(i)) by {
            if rows.contains(i) {
                let k = choose|k: int| 0 <= k < rows.len() && rows[k] == i;
                assert(rest[k - 1] == i);
            }
        }
        spared_by_places(items.drop_last(), rows, rest);
    } else {
        assert(!rows.contains(last)) by {
            if rows.contains(last) {
                let k = choose|k: int| 0 <= k < rows.len() && rows[k] == last;
                assert(k == 0 || rows[k] < rows[0]);
            }
        }
        let less = items.remove(r as int);
        assert(less.drop_last() =~= items.drop_last().remove(r as int));
        assert(less.last() == items.last());
        assert(!rest.contains((less.len() - 1) as usize));
        spared_after_greatest(items.drop_last(), rows);
    }
}

/// Taking out items from the last row to the first spares exactly the others.
pub proof fn removals_spare_the_others<A>(items: Seq<A>, rows: Seq<usize>)
    requires
        items.len() <= usize::MAX,
        forall|k: int| 0 <= k < rows.len() ==> #[trigger] rows[k] < items.len(),
        forall|i: int, j: int|
            0 <= i < j < rows.len() ==> #[trigger] rows[i] > #[trigger] rows[j],
    ensures
        after_removals(items, rows) == spared(items, rows),
    decreases rows.len(),
{
    if rows.len() == 0 {
        nothing_taken(items, rows);
    } else {
        let rest = rows.skip(1);
        assert forall|k: int| 0 <= k < rest.len() implies #[trigger] rest[k] < items.remove(
            rows[0] as int,
        ).len() by {
            assert(rows[0] > rows[k + 1]);
        }
        removals_spare_the_others(items.remove(rows[0] as int), rest);
        spared_after_greatest(items, rows);
    }
}

proof fn nothing_taken<A>(items: Seq<A>, rows: Seq<usize>)
    requires
        rows.len() == 0,
    ensures
        spared(items, rows) == items,
    decreases items.len(),
{
    if items.len() > 0 {
        nothing_taken(items.drop_last(), rows);
        assert(items.drop_last().push(items.last()) =~= items);
    }
}

/// Deleting what is chosen on a screen, row after row in the order that the key `d`
/// gives, takes exactly the chosen rows out of what is listed.
pub proof fn deleting_takes_the_chosen<A>(items: Seq<A>, top: ScreenView)
    requires
        items.len() == crate::screen::row_count(top.rows),
        items.len() <= usize::MAX,
    ensures
        after_removals(items, crate::screen::chosen_rows(top).reverse()) == spared(
            items,
            crate::screen::chosen_rows(top),
        ),
{
    let chosen = crate::screen::chosen_rows(top);
    let rows = chosen.reverse();
    crate::screen::chosen_rows_ascend(top);
    assert forall|i: int, j: int| 0 <= i < j < rows.len() implies #[trigger] rows[i]
        > #[trigger] rows[j] by {
        assert(rows[i] == chosen[chosen.len() - 1 - i]);
        assert(rows[j] == chosen[chosen.len() - 1 - j]);
    }
    assert forall|k: int| 0 <= k < rows.len() implies #[trigger] rows[k] < items.len() by {
        assert(rows[k] == chosen[chosen.len() - 1 - k]);
    }
    removals_spare_the_others(items, rows);
    assert forall|i: usize| i < items.len() implies (rows.contains(i)
        <==> #[trigger] chosen.contains(i)) by {
        if rows.contains(i) {
            let k = choose|k: int| 0 <= k < rows.len() && rows[k] == i;
            assert(chosen[chosen.len() - 1 - k] == i);
        }
        if chosen.contains(i) {
            let k = choose|k: int| 0 <= k < chosen.len() && chosen[k] == i;
            assert(rows[chosen.len() - 1 - k] == i);
        }
    }
    spared_by_places(items, rows, chosen);
}

/// Whether an errand asks the server for a path with one parameter.
pub open spec fn asks_about(
    errand: ErrandView,
    path: Seq<char>,
    key: Seq<char>,
    value: Seq<char>,
) -> bool {
    errand matches ErrandView::Ask(call) && call.path == path && call.params.contains((key, value))
}

proof fn asks_first(call: ApiView, i: int, key: Seq<char>, value: Seq<char>)
    requires
        0 <= i < call.params.len(),
        call.params[i] == (key, value),
    ensures
        asks_about(ErrandView::Ask(call), call.path, key, value),
{
}

/// A task to open something asks for that very thing, once.
pub proof fn opening_asks_for_the_thing(
    id: Seq<char>,
    title: Seq<char>,
    entries: Vec<QueueEntry>,
)
    ensures
        ({
            let album = errands_of(TaskView::OpenAlbum { id, title }, entries);
            let artist = errands_of(TaskView::OpenArtist { id, title }, entries);
            let playlist = errands_of(TaskView::OpenPlaylist { id, title }, entries);
            let again = errands_of(TaskView::RefreshPlaylist { id }, entries);
            let genre = errands_of(TaskView::OpenGenre { title }, entries);
            let bio = errands_of(TaskView::ArtistInfo { id, name: title }, entries);
            let notes = errands_of(TaskView::AlbumInfo { id, name: title }, entries);
            let search = errands_of(TaskView::Search { query: title }, entries);
            &&& album.len() == 1 && asks_about(album[0], "rest/getAlbum.view"@, "id"@, id)
            &&& artist.len() == 1 && asks_about(artist[0], "rest/getArtist.view"@, "id"@, id)
            &&& playlist.len() == 1 && asks_about(playlist[0], "rest/getPlaylist.view"@, "id"@, id)
            &&& again.len() == 1 && asks_about(again[0], "rest/getPlaylist.view"@, "id"@, id)
            &&& genre.len() == 1 && asks_about(
                genre[0],
                "rest/getAlbumList2.view"@,
                "genre"@,
                title,
            )
            &&& bio.len() == 1 && asks_about(bio[0], "rest/getArtistInfo2.view"@, "id"@, id)
            &&& notes.len() == 1 && asks_about(notes[0], "rest/getAlbumInfo2.view"@, "id"@, id)
            &&& search.len() == 1 && asks_about(search[0], "rest/search3.view"@, "query"@, title)
        }),
{
    asks_first(crate::client::album_songs_call(id), 0, "id"@, id);
    asks_first(crate::client::artist_albums_call(id), 0, "id"@, id);
    asks_first(crate::client::playlist_songs_call(id), 0, "id"@, id);
    asks_first(crate::client::albums_by_genre_call(title), 1, "genre"@, title);
    asks_first(crate::client::artist_info_call(id), 0, "id"@, id);
    asks_first(crate::client::album_info_call(id), 0, "id"@, id);
    asks_first(crate::client::search_call(title), 0, "query"@, title);
}

/// A change is asked for once for each thing that changes, with that thing: a song that
/// joins a playlist, a row that leaves it, a star that is set or taken away.
pub proof fn changes_are_asked_for_one_by_one(
    id: Seq<char>,
    name: Seq<char>,
    song_ids: Seq<Seq<char>>,
    rows: Seq<usize>,
    changes: Seq<(Seq<char>, bool)>,
    entries: Vec<QueueEntry>,
    i: int,
)
    ensures
        ({
            let joins = errands_of(TaskView::AddToPlaylist { id, name, song_ids }, entries);
            let leaves = errands_of(TaskView::RemoveFromPlaylist { id, rows }, entries);
            let stars = errands_of(TaskView::SetStarred { changes }, entries);
            &&& joins.len() == song_ids.len()
            &&& 0 <= i < song_ids.len() ==> asks_about(
                joins[i],
                "rest/updatePlaylist.view"@,
                "songIdToAdd"@,
                song_ids[i],
            ) && asks_about(joins[i], "rest/updatePlaylist.view"@, "playlistId"@, id)
            &&& leaves.len() == rows.len()
            &&& 0 <= i < rows.len() ==> asks_about(
                leaves[i],
                "rest/updatePlaylist.view"@,
                "songIndexToRemove"@,
                crate::text::decimal(rows[i] as nat),
            ) && asks_about(leaves[i], "rest/updatePlaylist.view"@, "playlistId"@, id)
            &&& stars.len() == changes.len()
            &&& 0 <= i < changes.len() && changes[i].1 ==> asks_about(
                stars[i],
                "rest/star.view"@,
                "id"@,
                changes[i].0,
            )
            &&& 0 <= i < changes.len() && !changes[i].1 ==> asks_about(
                stars[i],
                "rest/unstar.view"@,
                "id"@,
                changes[i].0,
            )
        }),
{
    if 0 <= i < song_ids.len() {
        let call = crate::client::add_song_to_playlist_call(id, song_ids[i]);
        asks_first(call, 0, "playlistId"@, id);
        asks_first(call, 1, "songIdToAdd"@, song_ids[i]);
    }
    if 0 <= i < rows.len() {
        let call = crate::client::remove_song_from_playlist_call(id, rows[i]);
        asks_first(call, 0, "playlistId"@, id);
        asks_first(call, 1, "songIndexToRemove"@, crate::text::decimal(rows[i] as nat));
    }
    if 0 <= i < changes.len() {
        asks_first(
            crate::client::set_starred_call(changes[i].0, changes[i].1),
            0,
            "id"@,
            changes[i].0,
        );
    }
}

/// The playlists are changed by name and id, and a queue is saved with all its songs.
pub proof fn playlists_are_changed_by_id(
    id: Seq<char>,
    name: Seq<char>,
    song_ids: Seq<Seq<char>>,
    entries: Vec<QueueEntry>,
    i: int,
)
    ensures
        ({
            let new = errands_of(TaskView::NewPlaylist { name }, entries);
            let save = errands_of(TaskView::SaveQueue { name, song_ids }, entries);
            let rename = errands_of(TaskView::RenamePlaylist { id, name }, entries);
            let delete = errands_of(TaskView::DeletePlaylist { id }, entries);
            &&& new.len() == 1 && asks_about(new[0], "rest/createPlaylist.view"@, "name"@, name)
            &&& save.len() == 1 && asks_about(save[0], "rest/createPlaylist.view"@, "name"@, name)
            &&& 0 <= i < song_ids.len() ==> asks_about(
                save[0],
                "rest/createPlaylist.view"@,
                "songId"@,
                song_ids[i],
            )
            &&& rename.len() == 1 && asks_about(
                rename[0],
                "rest/updatePlaylist.view"@,
                "playlistId"@,
                id,
            ) && asks_about(rename[0], "rest/updatePlaylist.view"@, "name"@, name)
            &&& delete.len() == 1 && asks_about(
                delete[0],
                "rest/deletePlaylist.view"@,
                "id"@,
                id,
            )
        }),
{
    asks_first(crate::client::create_playlist_call(name, Seq::empty()), 0, "name"@, name);
    asks_first(crate::client::create_playlist_call(name, song_ids), 0, "name"@, name);
    if 0 <= i < song_ids.len() {
        asks_first(
            crate::client::create_playlist_call(name, song_ids),
            i + 1,
            "songId"@,
            song_ids[i],
        );
    }
    asks_first(crate::client::rename_playlist_call(id, name), 0, "playlistId"@, id);
    asks_first(crate::client::rename_playlist_call(id, name), 1, "name"@, name);
    asks_first(crate::client::delete_playlist_call(id), 0, "id"@, id);
}

/// The daemon is told of the queue what the task says: a new queue from its start, tracks
/// for its end or for next, the row to jump to, the rows to take out one by one, and what
/// moves where.
pub proof fn queue_tasks_tell_the_daemon(
    songs: Seq<SongView>,
    row: usize,
    rows: Seq<usize>,
    to: usize,
    entries: Vec<QueueEntry>,
    i: int,
)
    requires
        row <= u32::MAX,
        to <= u32::MAX,
        forall|k: int| 0 <= k < rows.len() ==> #[trigger] rows[k] <= u32::MAX,
    ensures
        errands_of(TaskView::PlayQueue { songs }, entries) == seq![
            ErrandView::Tell(Request::PlayQueue { tracks: entries, start_index: 0 }),
        ],
        errands_of(TaskView::Append { songs }, entries) == seq![
            ErrandView::Tell(Request::AppendQueue { tracks: entries }),
        ],
        errands_of(TaskView::PlayNext { songs }, entries) == seq![
            ErrandView::Tell(Request::PlayNext { tracks: entries }),
        ],
        ({
            let jump = errands_of(TaskView::PlayAt { row }, entries);
            let out = errands_of(TaskView::RemoveFromQueue { rows }, entries);
            let moves = errands_of(TaskView::MoveInQueue { from: row, to }, entries);
            &&& jump.len() == 1 && (jump[0] matches ErrandView::Tell(Request::PlayAt { index })
                && index == row)
            &&& out.len() == rows.len()
            &&& 0 <= i < rows.len() ==> (out[i] matches ErrandView::Tell(
                Request::RemoveFromQueue { index },
            ) && index == rows[i])
            &&& moves.len() == 1 && (moves[0] matches ErrandView::Tell(
                Request::MoveInQueue { from, to: at },
            ) && from == row && at == to)
            &&& errands_of(TaskView::ClearQueue, entries) == seq![
                ErrandView::Tell(Request::ClearQueue),
            ]
        }),
{
    if 0 <= i < rows.len() {
        assert(rows[i] <= u32::MAX);
    }
}

/// A tab asks for what it shows; the home screen asks for the server's own lists, in the
/// order in which it shows them; the albums for their order.
pub proof fn tabs_ask_for_what_they_show(newest: bool)
    ensures
        ({
            let home = tab_errands(Tab::Home, newest);
            let albums = tab_errands(Tab::Albums, newest);
            &&& home.len() == 4
            &&& asks_path(home[0], "rest/getFavourites.view"@)
            &&& asks_path(home[1], "rest/getRecentlyPlayed.view"@)
            &&& asks_path(home[2], "rest/getOnRepeat.view"@)
            &&& asks_path(home[3], "rest/getSongsForYou.view"@)
            &&& asks_only(tab_errands(Tab::Playlists, newest), "rest/getPlaylists.view"@)
            &&& asks_only(tab_errands(Tab::Artists, newest), "rest/getArtists.view"@)
            &&& asks_only(tab_errands(Tab::Genres, newest), "rest/getGenres.view"@)
            &&& asks_only(albums, "rest/getAlbumList2.view"@)
            &&& newest ==> asks_about(
                albums[0],
                "rest/getAlbumList2.view"@,
                "type"@,
                "newest"@,
            )
            &&& !newest ==> asks_about(
                albums[0],
                "rest/getAlbumList2.view"@,
                "type"@,
                "alphabeticalByName"@,
            )
            &&& tab_errands(Tab::Queue, newest) == seq![ErrandView::Tell(Request::Queue)]
            &&& tab_errands(Tab::Search, newest).len() == 0
            &&& tab_errands(Tab::Settings, newest).len() == 0
        }),
{
    asks_first(crate::client::newest_albums_call(), 0, "type"@, "newest"@);
    asks_first(crate::client::albums_call(), 0, "type"@, "alphabeticalByName"@);
}

/// Whether an errand asks the server for a path.
pub open spec fn asks_path(errand: ErrandView, path: Seq<char>) -> bool {
    errand matches ErrandView::Ask(call) && call.path == path
}

/// Whether there is one errand, which asks the server for a path.
pub open spec fn asks_only(errands: Seq<ErrandView>, path: Seq<char>) -> bool {
    errands.len() == 1 && asks_path(errands[0], path)
}

/// What comes of a search is the songs under `song` within `searchResult3` of the answer,
/// all of them and in order.
pub proof fn search_reply_lists_the_songs_found(
    reply: Reply,
    query: Seq<char>,
    username: Seq<char>,
    hash: Seq<char>,
    errands: Seq<ErrandView>,
    body: Seq<char>,
    items: Seq<Seq<char>>,
)
    requires
        crate::client::holds_list::<Song>(body, "searchResult3"@, "song"@, items),
        replied(
            reply,
            TaskView::Search { query },
            username,
            hash,
            errands,
            seq![AnswerView::Body(body)],
        ),
    ensures
        reply matches Reply::Songs(list) && list@.len() == items.len() && forall|i: int|
            0 <= i < items.len() ==> Song::decoded(#[trigger] items[i]) == Some(list@[i]@),
{
    crate::client::songs_found_are_those_sent(query, body, items);
    if let Reply::Songs(list) = reply {
        let views = json::item_views(list@);
        assert forall|i: int| 0 <= i < items.len() implies Song::decoded(#[trigger] items[i])
            == Some(list@[i]@) by {
            assert(views[i] == list@[i]@);
        }
    }
}

/// What comes of opening an album or a playlist is the songs that the answer lists for it.
pub proof fn opened_songs_are_those_sent(
    reply: Reply,
    task: TaskView,
    username: Seq<char>,
    hash: Seq<char>,
    errands: Seq<ErrandView>,
    body: Seq<char>,
    items: Seq<Seq<char>>,
)
    requires
        task is OpenAlbum && crate::client::holds_list::<Song>(body, "album"@, "song"@, items) || (
        task is OpenPlaylist || task is RefreshPlaylist) && crate::client::holds_list::<Song>(
            body,
            "playlist"@,
            "entry"@,
            items,
        ),
        replied(reply, task, username, hash, errands, seq![AnswerView::Body(body)]),
    ensures
        reply matches Reply::Songs(list) && list@.len() == items.len() && forall|i: int|
            0 <= i < items.len() ==> Song::decoded(#[trigger] items[i]) == Some(list@[i]@),
{
    match task {
        TaskView::OpenAlbum { id, .. } => {
            crate::client::album_songs_are_those_sent(id, body, items);
        },
        TaskView::OpenPlaylist { id, .. } => {
            crate::client::playlist_songs_are_those_sent(id, body, items);
        },
        TaskView::RefreshPlaylist { id } => {
            crate::client::playlist_songs_are_those_sent(id, body, items);
        },
        _ => {},
    }
    if let Reply::Songs(list) = reply {
        let views = json::item_views(list@);
        assert forall|i: int| 0 <= i < items.len() implies Song::decoded(#[trigger] items[i])
            == Some(list@[i]@) by {
            assert(views[i] == list@[i]@);
        }
    }
}

/// A request that could not be made fails with the reason; one that the server refused
/// with its message, led by the path; one that the daemon refused with its words.
pub proof fn trouble_is_told(call: ApiView, request: Request, why: Seq<char>, said: String, body: Seq<char>, message: Seq<char>)
    ensures
        trouble(ErrandView::Ask(call), AnswerView::Failed(why)) == Some(why),
        trouble(ErrandView::Tell(request), AnswerView::Failed(why)) == Some(why),
        trouble(ErrandView::Install, AnswerView::Failed(why)) == Some(why),
        trouble(ErrandView::Tell(request), AnswerView::Said(Response::Error(said))) == Some(said@),
        trouble(ErrandView::Tell(request), AnswerView::Said(Response::Unit)) is None,
        trouble(ErrandView::Install, AnswerView::Done) is None,
        crate::client::refused(call.path, body) is None ==> trouble(
            ErrandView::Ask(call),
            AnswerView::Body(body),
        ) is None,
        crate::client::refused(call.path, body) == Some(
            Fault::Refused { path: call.path, message },
        ) ==> trouble(ErrandView::Ask(call), AnswerView::Body(body)) == Some(
            call.path + ": "@ + message,
        ),
{
}

/// A task of several errands fails with the reason of the first that failed, and is done
/// where none did.
pub proof fn first_trouble_is_told(errands: Seq<ErrandView>, answers: Seq<AnswerView>, k: int)
    requires
        errands.len() == answers.len(),
        0 <= k < errands.len(),
        forall|i: int|
            0 <= i < k ==> trouble(#[trigger] errands[i], answers[i]) is None,
    ensures
        trouble(errands[k], answers[k]) is Some ==> first_trouble(errands, answers) == trouble(
            errands[k],
            answers[k],
        ),
        k == errands.len() - 1 && trouble(errands[k], answers[k]) is None ==> first_trouble(
            errands,
            answers,
        ) is None,
    decreases k,
{
    reveal_with_fuel(first_trouble, 2);
    if k > 0 {
        assert(trouble(errands[0], answers[0]) is None);
        let e = errands.skip(1);
        let a = answers.skip(1);
        assert forall|i: int| 0 <= i < k - 1 implies trouble(#[trigger] e[i], a[i]) is None by {
            assert(e[i] == errands[i + 1]);
            assert(a[i] == answers[i + 1]);
        }
        first_trouble_is_told(e, a, k - 1);
    }
}

/// Each list of the home screen comes from its own answer, in the order in which they are
/// asked for; one that could not be fetched is empty and spoils no other.
pub proof fn home_lists_come_from_their_answers(
    reply: Reply,
    newest: bool,
    username: Seq<char>,
    hash: Seq<char>,
    errands: Seq<ErrandView>,
    answers: Seq<AnswerView>,
    body: Seq<char>,
    items: Seq<Seq<char>>,
    why: Seq<char>,
)
    requires
        answers.len() == 4,
        replied(
            reply,
            TaskView::LoadTab { tab: Tab::Home, newest },
            username,
            hash,
            errands,
            answers,
        ),
    ensures
        reply matches Reply::Home { favourites, recently_played, on_repeat, songs_for_you } && {
            &&& answers[0] == AnswerView::Body(body) && crate::client::holds_list::<Song>(
                body,
                "favourites"@,
                "song"@,
                items,
            ) ==> favourites@.len() == items.len()
            &&& answers[1] == AnswerView::Body(body) && crate::client::holds_list::<Song>(
                body,
                "recentlyPlayed"@,
                "song"@,
                items,
            ) ==> recently_played@.len() == items.len()
            &&& answers[2] == AnswerView::Body(body) && crate::client::holds_list::<Song>(
                body,
                "onRepeat"@,
                "song"@,
                items,
            ) ==> on_repeat@.len() == items.len()
            &&& answers[3] == AnswerView::Body(body) && crate::client::holds_list::<Song>(
                body,
                "songsForYou"@,
                "song"@,
                items,
            ) ==> songs_for_you@.len() == items.len()
            &&& answers[0] == AnswerView::Failed(why) ==> favourites@.len() == 0
            &&& answers[1] == AnswerView::Failed(why) ==> recently_played@.len() == 0
            &&& answers[2] == AnswerView::Failed(why) ==> on_repeat@.len() == 0
            &&& answers[3] == AnswerView::Failed(why) ==> songs_for_you@.len() == 0
        },
{
    if crate::client::holds_list::<Song>(body, "favourites"@, "song"@, items) {
        crate::client::favourites_are_those_sent(body, items);
    }
    if crate::client::holds_list::<Song>(body, "recentlyPlayed"@, "song"@, items) {
        crate::client::songs_recently_played_are_those_sent(body, items);
    }
    if crate::client::holds_list::<Song>(body, "onRepeat"@, "song"@, items) {
        crate::client::songs_on_repeat_are_those_sent(body, items);
    }
    if crate::client::holds_list::<Song>(body, "songsForYou"@, "song"@, items) {
        crate::client::songs_for_you_are_those_sent(body, items);
    }
    match reply {
        Reply::Home { favourites, recently_played, on_repeat, songs_for_you } => {
            assert(json::item_views(favourites@).len() == favourites@.len());
            assert(json::item_views(recently_played@).len() == recently_played@.len());
            assert(json::item_views(on_repeat@).len() == on_repeat@.len());
            assert(json::item_views(songs_for_you@).len() == songs_for_you@.len());
        },
        _ => {},
    }
}

/// The playlists that show, on their tab or to pick from, are the user's own.
pub proof fn only_own_playlists_show(
    reply: Reply,
    task: TaskView,
    username: Seq<char>,
    hash: Seq<char>,
    errands: Seq<ErrandView>,
    answers: Seq<AnswerView>,
)
    requires
        task is PickPlaylist || task matches TaskView::LoadTab { tab: Tab::Playlists, .. },
        replied(reply, task, username, hash, errands, answers),
    ensures
        reply matches Reply::Playlists(list) ==> forall|i: int|
            0 <= i < list@.len() ==> (#[trigger] list@[i]).owner@ == username,
{
    if let Reply::Playlists(list) = reply {
        let views = json::item_views(list@);
        let first = first_answer(answers);
        let sent = listed::<Playlist>(crate::client::playlists_call(), first);
        if sent is Ok {
            crate::client::own_playlists_are_kept(sent->Ok_0, username);
        }
        assert forall|i: int| 0 <= i < list@.len() implies (#[trigger] list@[i]).owner@
            == username by {
            assert(views[i] == list@[i]@);
            assert(views[i].owner == username);
        }
    }
}

/// What a check has found is the newest commit, by its hash and the first line of its
/// message, and whether that is newer than what runs.
pub proof fn check_finds_the_newest_commit(
    reply: Reply,
    username: Seq<char>,
    hash: Seq<char>,
    errands: Seq<ErrandView>,
    sha: Seq<char>,
    date: Seq<char>,
    message: Seq<char>,
)
    requires
        replied(
            reply,
            TaskView::CheckUpdate,
            username,
            hash,
            errands,
            seq![AnswerView::Commit { sha, date, message }],
        ),
    ensures
        reply matches Reply::Update(found) && found.remote.sha@ == sha && found.remote.date@ == date
            && found.remote.summary@ == crate::update_check::first_line(message) && (
        hash.is_prefix_of(sha) ==> !found.update_available) && (hash != "unknown"@
            && !hash.is_prefix_of(sha) ==> found.update_available),
{
    if hash.is_prefix_of(sha) {
        assert(sha.subrange(0, hash.len() as int) =~= hash);
    }
    crate::update_check::same_commit_is_no_update(sha, hash);
}

/// The daemon's queue shows as it was sent.
pub proof fn queue_shows_as_sent(
    reply: Reply,
    task: TaskView,
    username: Seq<char>,
    hash: Seq<char>,
    errands: Seq<ErrandView>,
    rows: Vec<crate::protocol::QueueRow>,
)
    requires
        task is RefreshQueue || task matches TaskView::LoadTab { tab: Tab::Queue, .. },
        replied(
            reply,
            task,
            username,
            hash,
            errands,
            seq![AnswerView::Said(Response::Queue(rows))],
        ),
    ensures
        reply == Reply::Queue(rows),
{
}

/// A change is done where no errand for it met trouble, and fails with the first trouble
/// else.
pub proof fn change_is_done_without_trouble(
    reply: Reply,
    task: TaskView,
    username: Seq<char>,
    hash: Seq<char>,
    errands: Seq<ErrandView>,
    answers: Seq<AnswerView>,
)
    requires
        task is RenamePlaylist || task is DeletePlaylist || task is AddToPlaylist
            || task is RemoveFromPlaylist || task is SetStarred || task is PlayQueue
            || task is Append || task is PlayNext || task is PlayAt || task is RemoveFromQueue
            || task is ClearQueue || task is MoveInQueue || task is InstallUpdate,
        replied(reply, task, username, hash, errands, answers),
    ensures
        first_trouble(errands, answers) is None ==> reply == Reply::Done,
        first_trouble(errands, answers) is Some ==> (reply matches Reply::Failed(said) && said@
            == first_trouble(errands, answers)->0),
{
}

/// The albums that show, on their tab, of an artist or of a genre, are those that the
/// answer lists, all of them and in order; so are the genres.
pub proof fn listed_albums_and_genres_are_those_sent(
    reply: Reply,
    task: TaskView,
    username: Seq<char>,
    hash: Seq<char>,
    errands: Seq<ErrandView>,
    body: Seq<char>,
    items: Seq<Seq<char>>,
)
    requires
        replied(reply, task, username, hash, errands, seq![AnswerView::Body(body)]),
    ensures
        (task matches TaskView::LoadTab { tab: Tab::Albums, .. } || task is OpenGenre)
            && crate::client::holds_list::<Album>(body, "albumList2"@, "album"@, items) || task
            is OpenArtist && crate::client::holds_list::<Album>(body, "artist"@, "album"@, items)
            ==> (reply matches Reply::Albums(list) && list@.len() == items.len() && forall|i: int|
            0 <= i < items.len() ==> Album::decoded(#[trigger] items[i]) == Some(list@[i]@)),
        task matches TaskView::LoadTab { tab: Tab::Genres, .. } ==> (crate::client::holds_list::<
            Genre,
        >(body, "genres"@, "genre"@, items) ==> (reply matches Reply::Genres(list) && list@.len()
            == items.len() && forall|i: int|
            0 <= i < items.len() ==> Genre::decoded(#[trigger] items[i]) == Some(list@[i]@))),
{
    if crate::client::holds_list::<Album>(body, "albumList2"@, "album"@, items) {
        crate::client::albums_are_those_sent(body, items);
        crate::client::newest_albums_are_those_sent(body, items);
        if let TaskView::OpenGenre { title } = task {
            crate::client::albums_by_genre_are_those_sent(title, body, items);
        }
    }
    if crate::client::holds_list::<Album>(body, "artist"@, "album"@, items) {
        if let TaskView::OpenArtist { id, .. } = task {
            crate::client::artist_albums_are_those_sent(id, body, items);
        }
    }
    if crate::client::holds_list::<Genre>(body, "genres"@, "genre"@, items) {
        crate::client::genres_are_those_sent(body, items);
    }
    match reply {
        Reply::Albums(list) => {
            let views = json::item_views(list@);
            assert forall|i: int| 0 <= i < list@.len() implies #[trigger] views[i] == list@[i]@ by {}
        },
        Reply::Genres(list) => {
            let views = json::item_views(list@);
            assert forall|i: int| 0 <= i < list@.len() implies #[trigger] views[i] == list@[i]@ by {}
        },
        _ => {},
    }
}

/// The artists that show are those of the index, group after group.
pub proof fn listed_artists_are_those_of_the_index(
    reply: Reply,
    newest: bool,
    username: Seq<char>,
    hash: Seq<char>,
    errands: Seq<ErrandView>,
    body: Seq<char>,
    root: Seq<char>,
    artists: Seq<char>,
    index: Seq<char>,
)
    requires
        crate::client::went_well(body, root),
        json::member_of(root, "artists"@) == Some(artists),
        json::member_of(artists, "index"@) == Some(index),
        json::items_of(index) is Some,
        crate::client::indexed_artists(json::items_of(index)->0) is Some,
        replied(
            reply,
            TaskView::LoadTab { tab: Tab::Artists, newest },
            username,
            hash,
            errands,
            seq![AnswerView::Body(body)],
        ),
    ensures
        reply matches Reply::Artists(list) && json::item_views(list@)
            == crate::client::indexed_artists(json::items_of(index)->0)->0,
{
    crate::client::index_stands_within_artists(root, artists, index);
    crate::client::success_is_not_refused(crate::client::artists_call().path, body, root);
}

} // verus!
