//! What holds of the terminal interface as a whole: what each key does on the screens
//! that it is for, and what comes of what it asks for.
use crate::library::SongView;
use crate::protocol::{QueueRow, Request};
use crate::screen::{KeyCode, NativeKind, RowsView, ScreenView, SectionView, Tab, UpdateState};
use crate::tui::{
    ActionView, AppView, NowPlaying, PromptAction, PromptView, Reply, TaskView,
};
use vstd::prelude::*;

verus! {

/// Whether keys go to the screen that shows, and to no line of text.
pub open spec fn listening(s: AppView) -> bool {
    &&& s.stack.len() > 0
    &&& !s.show_help
    &&& s.prompt is None
    &&& !s.filter_editing
    &&& !(s.stack.last().rows matches RowsView::Search { editing, .. } && editing)
}

/// Whether a screen lists these songs, as a list of its own or as the results of a
/// search.
pub open spec fn lists_songs(s: ScreenView, songs: Seq<SongView>) -> bool {
    ||| s.rows matches RowsView::Songs { songs: listed, .. } && listed == songs
    ||| s.rows matches RowsView::Search { results, editing, .. } && !editing && results == songs
}

/// Whether some row of a list is marked.
pub open spec fn has_marks(s: ScreenView) -> bool {
    exists|i: usize| #[trigger] s.marked.contains(i) && i < crate::screen::row_count(s.rows)
}

/// What a key does to the state.
pub open spec fn after_key(s: AppView, c: char, now: NowPlaying) -> AppView {
    crate::tui::key_pressed(s, KeyCode::Char(c), now).0
}

/// What a key asks for.
pub open spec fn asked_by(s: AppView, c: char, now: NowPlaying) -> ActionView {
    crate::tui::key_pressed(s, KeyCode::Char(c), now).1
}

proof fn no_marks_no_rows(s: ScreenView)
    requires
        crate::screen::row_count(s.rows) <= usize::MAX,
        !has_marks(s),
    ensures
        crate::screen::marked_rows(s).len() == 0,
{
    broadcast use vstd::seq_lib::group_filter_ensures;

    let all = crate::play_order::identity(crate::screen::row_count(s.rows));
    let f = crate::screen::is_marked(s.marked);
    let kept = all.filter(f);
    if kept.len() > 0 {
        assert(kept.contains(kept[0]));
        assert(f(kept[0]));
        all.lemma_filter_contains_rev(f, kept[0]);
        assert(all.contains(kept[0]));
        assert(s.marked.contains(kept[0]));
    }
}

/// The marked rows are what an action is about, all of them and no other, in the order
/// of the list.
pub proof fn marked_rows_are_chosen(s: ScreenView)
    requires
        crate::screen::row_count(s.rows) <= usize::MAX,
        crate::screen::markable(s.rows),
        has_marks(s),
    ensures
        forall|i: usize|
            #[trigger] crate::screen::chosen_rows(s).contains(i) <==> s.marked.contains(i) && i
                < crate::screen::row_count(s.rows),
        forall|i: int, j: int|
            0 <= i < j < crate::screen::chosen_rows(s).len()
                ==> #[trigger] crate::screen::chosen_rows(s)[i]
                < #[trigger] crate::screen::chosen_rows(s)[j],
{
    broadcast use vstd::seq_lib::group_filter_ensures;

    crate::screen::chosen_rows_ascend(s);
    let n = crate::screen::row_count(s.rows);
    let all = crate::play_order::identity(n);
    let f = crate::screen::is_marked(s.marked);
    let kept = all.filter(f);
    assert forall|i: usize| #[trigger] kept.contains(i) <==> s.marked.contains(i) && i < n by {
        if s.marked.contains(i) && i < n {
            assert(all[i as int] == i);
            assert(all.contains(i));
            assert(f(i));
        }
        if kept.contains(i) {
            let k = choose|k: int| 0 <= k < kept.len() && kept[k] == i;
            assert(f(kept[k]));
            all.lemma_filter_contains_rev(f, i);
        }
    }
    let m = choose|i: usize| #[trigger] s.marked.contains(i) && i < n;
    assert(kept.contains(m));
    assert(kept.len() > 0);
}

/// Without marks, an action is about the row under the cursor alone.
pub proof fn cursor_row_is_chosen(s: ScreenView, row: usize)
    requires
        crate::screen::row_count(s.rows) <= usize::MAX,
        !has_marks(s),
        crate::screen::row_at_cursor(s) == Some(row),
    ensures
        crate::screen::chosen_rows(s) == seq![row],
{
    no_marks_no_rows(s);
}

/// Without a filter, the cursor is on the row that it counts to.
pub proof fn unfiltered_cursor_is_on_its_row(s: ScreenView)
    requires
        crate::screen::row_count(s.rows) <= usize::MAX,
        s.filter.len() == 0 || s.rows is Search,
        s.selected < crate::screen::row_count(s.rows),
    ensures
        crate::screen::row_at_cursor(s) == Some(s.selected),
{
    if s.filter.len() == 0 {
        crate::screen::empty_filter_shows_all(s);
    } else {
        let t = ScreenView { filter: Seq::empty(), ..s };
        crate::screen::empty_filter_shows_all(t);
        crate::screen::filters_agree(
            crate::screen::row_count(s.rows),
            crate::screen::row_visible(s.rows, s.filter),
            crate::screen::row_visible(t.rows, t.filter),
        );
    }
}

/// On a list of songs without marks, `a` and `A` add what `Enter` plays: the song under
/// the cursor and all that follow it, and none before it.
pub proof fn queueing_starts_at_the_cursor(
    s: AppView,
    songs: Seq<SongView>,
    row: usize,
    now: NowPlaying,
)
    requires
        listening(s),
        lists_songs(s.top(), songs),
        songs.len() <= usize::MAX,
        !has_marks(s.top()),
        crate::screen::row_at_cursor(s.top()) == Some(row),
    ensures
        row < songs.len(),
        crate::tui::songs_to_play(s.top()) == songs.skip(row as int),
        crate::tui::songs_to_queue(s.top()) == songs.skip(row as int),
        crate::tui::songs_to_queue(s.top())[0] == songs[row as int],
        crate::tui::songs_to_queue(s.top()).len() == songs.len() - row,
        crate::tui::key_pressed(s, KeyCode::Enter, now) == (
            s,
            ActionView::Run(TaskView::PlayQueue { songs: songs.skip(row as int) }),
        ),
        asked_by(s, 'a', now) == ActionView::Run(
            TaskView::Append { songs: songs.skip(row as int) },
        ),
        asked_by(s, 'A', now) == ActionView::Run(
            TaskView::PlayNext { songs: songs.skip(row as int) },
        ),
        after_key(s, 'a', now) == s,
        after_key(s, 'A', now) == s,
{
    crate::screen::visible_rows_match(s.top());
    no_marks_no_rows(s.top());
}

/// With marks, `a` and `A` add the marked songs alone, in the order of the list; what
/// `Enter` plays does not depend on marks.
pub proof fn marked_songs_are_queued(s: AppView, songs: Seq<SongView>, row: usize, now: NowPlaying)
    requires
        listening(s),
        lists_songs(s.top(), songs),
        songs.len() <= usize::MAX,
        has_marks(s.top()),
        crate::screen::row_at_cursor(s.top()) == Some(row),
    ensures
        ({
            let rows = crate::screen::chosen_rows(s.top());
            let chosen = Seq::new(rows.len(), |i: int| songs[rows[i] as int]);
            &&& rows.len() > 0
            &&& asked_by(s, 'a', now) == ActionView::Run(TaskView::Append { songs: chosen })
            &&& asked_by(s, 'A', now) == ActionView::Run(TaskView::PlayNext { songs: chosen })
            &&& crate::tui::key_pressed(s, KeyCode::Enter, now).1 == ActionView::Run(
                TaskView::PlayQueue { songs: songs.skip(row as int) },
            )
        }),
{
    crate::screen::visible_rows_match(s.top());
    marked_rows_are_chosen(s.top());
    let m = choose|i: usize| #[trigger]
        s.top().marked.contains(i) && i < crate::screen::row_count(s.top().rows);
    let rows = crate::screen::chosen_rows(s.top());
    assert(rows.contains(m));
    let chosen = Seq::new(rows.len(), |i: int| songs[rows[i] as int]);
    if crate::screen::marked_rows(s.top()).len() == 0 {
        broadcast use vstd::seq_lib::group_filter_ensures;

        let all = crate::play_order::identity(songs.len());
        assert(all[m as int] == m);
        assert(crate::screen::is_marked(s.top().marked)(m));
        assert(crate::screen::marked_rows(s.top()).contains(m));
    }
    assert(crate::tui::songs_to_queue(s.top()) =~= chosen);
}

/// `f` toggles the star of each chosen song: one that has a star loses it, another gets
/// one. `P` is about the same songs.
pub proof fn chosen_songs_are_starred_and_picked(s: AppView, songs: Seq<SongView>, now: NowPlaying)
    requires
        listening(s),
        lists_songs(s.top(), songs),
        crate::screen::chosen_rows(s.top()).len() > 0,
    ensures
        ({
            let rows = crate::screen::chosen_rows(s.top());
            &&& asked_by(s, 'f', now) == ActionView::Run(
                TaskView::SetStarred {
                    changes: Seq::new(
                        rows.len(),
                        |i: int|
                            (songs[rows[i] as int].id, songs[rows[i] as int].starred is None),
                    ),
                },
            )
            &&& asked_by(s, 'P', now) == ActionView::Run(
                TaskView::PickPlaylist {
                    song_ids: Seq::new(rows.len(), |i: int| songs[rows[i] as int].id),
                },
            )
        }),
{
    let rows = crate::screen::chosen_rows(s.top());
    assert(crate::tui::star_changes(s.top()) =~= Seq::new(
        rows.len(),
        |i: int| (songs[rows[i] as int].id, songs[rows[i] as int].starred is None),
    ));
    assert(crate::tui::picked_ids(s.top()) =~= Seq::new(
        rows.len(),
        |i: int| songs[rows[i] as int].id,
    ));
}

/// On the home screen, `Enter`, `a` and `A` take the song under the cursor and the rest
/// of its list; `f` and `P` that song alone; `e` opens the whole of its list.
pub proof fn home_keys_are_about_the_cursor(
    s: AppView,
    sections: Seq<SectionView>,
    section: usize,
    now: NowPlaying,
)
    requires
        listening(s),
        s.top().rows == (RowsView::Home { sections, section }),
        section < sections.len(),
        s.top().selected < sections[section as int].songs.len(),
    ensures
        ({
            let row = s.top().selected as int;
            let list = sections[section as int];
            let song = list.songs[row];
            &&& crate::tui::key_pressed(s, KeyCode::Enter, now).1 == ActionView::Run(
                TaskView::PlayQueue { songs: list.songs.skip(row) },
            )
            &&& asked_by(s, 'a', now) == ActionView::Run(
                TaskView::Append { songs: list.songs.skip(row) },
            )
            &&& asked_by(s, 'A', now) == ActionView::Run(
                TaskView::PlayNext { songs: list.songs.skip(row) },
            )
            &&& asked_by(s, 'f', now) == ActionView::Run(
                TaskView::SetStarred { changes: seq![(song.id, song.starred is None)] },
            )
            &&& asked_by(s, 'P', now) == ActionView::Run(
                TaskView::PickPlaylist { song_ids: seq![song.id] },
            )
            &&& asked_by(s, 'e', now) == ActionView::Run(TaskView::Expand(list.kind))
        }),
{
}

/// `Enter` opens what is under the cursor: an album, an artist, a playlist or a genre by
/// its own id and name; in the queue it jumps to that track.
pub proof fn enter_opens_what_is_under_the_cursor(s: AppView, row: usize, now: NowPlaying)
    requires
        listening(s),
        crate::screen::row_at_cursor(s.top()) == Some(row),
    ensures
        ({
            let action = crate::tui::key_pressed(s, KeyCode::Enter, now).1;
            &&& s.top().rows matches RowsView::Albums { albums, .. } ==> action
                == ActionView::Run(
                TaskView::OpenAlbum {
                    id: albums[row as int].id@,
                    title: albums[row as int].name@,
                },
            )
            &&& s.top().rows matches RowsView::Artists(artists) ==> action == ActionView::Run(
                TaskView::OpenArtist {
                    id: artists[row as int].id@,
                    title: artists[row as int].name@,
                },
            )
            &&& s.top().rows matches RowsView::Playlists(playlists) ==> action
                == ActionView::Run(
                TaskView::OpenPlaylist {
                    id: playlists[row as int].id@,
                    title: playlists[row as int].name@,
                },
            )
            &&& s.top().rows matches RowsView::Genres(genres) ==> action == ActionView::Run(
                TaskView::OpenGenre { title: genres[row as int].value@ },
            )
            &&& s.top().rows is Queue ==> action == ActionView::Run(TaskView::PlayAt { row })
        }),
{
}

/// `Enter` on the playlist picker adds the picked songs to the playlist under the cursor.
pub proof fn enter_adds_to_the_picked_playlist(
    s: AppView,
    playlists: Seq<crate::library::Playlist>,
    song_ids: Seq<Seq<char>>,
    now: NowPlaying,
)
    requires
        listening(s),
        s.top().rows == (RowsView::Picker { playlists, song_ids }),
        s.top().selected < playlists.len(),
    ensures
        crate::tui::key_pressed(s, KeyCode::Enter, now).1 == ActionView::Run(
            TaskView::AddToPlaylist {
                id: playlists[s.top().selected as int].id@,
                name: playlists[s.top().selected as int].name@,
                song_ids,
            },
        ),
{
}

/// `i` asks about the artist or the album under the cursor, by its own id.
pub proof fn info_is_about_the_row_under_the_cursor(s: AppView, row: usize, now: NowPlaying)
    requires
        listening(s),
        crate::screen::row_at_cursor(s.top()) == Some(row),
    ensures
        s.top().rows matches RowsView::Artists(artists) ==> asked_by(s, 'i', now)
            == ActionView::Run(
            TaskView::ArtistInfo { id: artists[row as int].id@, name: artists[row as int].name@ },
        ),
        s.top().rows matches RowsView::Albums { albums, .. } ==> asked_by(s, 'i', now)
            == ActionView::Run(
            TaskView::AlbumInfo { id: albums[row as int].id@, name: albums[row as int].name@ },
        ),
{
}

/// `d` deletes the playlist under the cursor, and takes the chosen rows out of a playlist
/// or out of the queue, the last of them first. Songs of no playlist stay.
pub proof fn delete_is_about_the_chosen(s: AppView, row: usize, now: NowPlaying)
    requires
        listening(s),
        crate::screen::row_at_cursor(s.top()) == Some(row),
    ensures
        ({
            let rows = crate::screen::chosen_rows(s.top());
            let backwards = Seq::new(rows.len(), |i: int| rows[rows.len() - 1 - i]);
            &&& s.top().rows matches RowsView::Playlists(playlists) ==> asked_by(s, 'd', now)
                == ActionView::Run(TaskView::DeletePlaylist { id: playlists[row as int].id@ })
            &&& s.top().rows matches RowsView::Songs { playlist_id: Some(id), .. } ==> asked_by(
                s,
                'd',
                now,
            ) == ActionView::Run(TaskView::RemoveFromPlaylist { id, rows: backwards })
            &&& s.top().rows matches RowsView::Songs { playlist_id: None, .. } ==> asked_by(
                s,
                'd',
                now,
            ) == ActionView::Idle
            &&& s.top().rows is Queue ==> asked_by(s, 'd', now) == ActionView::Run(
                TaskView::RemoveFromQueue { rows: backwards },
            )
            &&& after_key(s, 'd', now) == s
        }),
{
    let rows = crate::screen::chosen_rows(s.top());
    assert(rows.reverse() =~= Seq::new(rows.len(), |i: int| rows[rows.len() - 1 - i]));
}

/// `D` clears the queue, and does nothing on any other screen.
pub proof fn clearing_takes_the_queue_screen(s: AppView, now: NowPlaying)
    requires
        listening(s),
    ensures
        s.top().rows is Queue ==> asked_by(s, 'D', now) == ActionView::Run(TaskView::ClearQueue),
        !(s.top().rows is Queue) ==> asked_by(s, 'D', now) == ActionView::Idle,
{
}

/// `J` and `K` move the track under the cursor one place down or up, by its place in the
/// whole queue; at the end that it would leave by it stays.
pub proof fn queue_keys_move_by_one(
    s: AppView,
    tracks: Seq<QueueRow>,
    row: usize,
    now: NowPlaying,
)
    requires
        listening(s),
        s.top().rows == RowsView::Queue(tracks),
        tracks.len() <= usize::MAX,
        crate::screen::row_at_cursor(s.top()) == Some(row),
    ensures
        row + 1 < tracks.len() ==> asked_by(s, 'J', now) == ActionView::Run(
            TaskView::MoveInQueue { from: row, to: (row + 1) as usize },
        ),
        row + 1 == tracks.len() ==> asked_by(s, 'J', now) == ActionView::Idle,
        row > 0 ==> asked_by(s, 'K', now) == ActionView::Run(
            TaskView::MoveInQueue { from: row, to: (row - 1) as usize },
        ),
        row == 0 ==> asked_by(s, 'K', now) == ActionView::Idle,
{
    crate::screen::visible_rows_match(s.top());
}

/// The keys for playback tell the daemon on every screen, and change nothing here. The
/// space bar pauses what plays and resumes what does not; the arrows seek by five seconds,
/// never before the start.
pub proof fn playback_keys_tell_the_daemon(s: AppView, now: NowPlaying)
    requires
        listening(s),
    ensures
        asked_by(s, 'n', now) == ActionView::Tell(Request::Next),
        asked_by(s, 'p', now) == ActionView::Tell(Request::Previous),
        asked_by(s, 's', now) == ActionView::Tell(Request::Stop),
        asked_by(s, 'r', now) == ActionView::Tell(Request::CycleRepeat),
        asked_by(s, 'x', now) == ActionView::Tell(Request::ToggleShuffle),
        now.status@ == "playing"@ ==> asked_by(s, ' ', now) == ActionView::Tell(Request::Pause),
        now.status@ != "playing"@ ==> asked_by(s, ' ', now) == ActionView::Tell(Request::Resume),
        asked_by(s, 'q', now) == ActionView::Quit,
        asked_by(s, 'Q', now) == ActionView::QuitDaemon,
        asked_by(s, '-', now) == (ActionView::StepVolume { up: false }),
        asked_by(s, '+', now) == (ActionView::StepVolume { up: true }),
        asked_by(s, '=', now) == (ActionView::StepVolume { up: true }),
        crate::tui::key_pressed(s, KeyCode::Left, now).1 matches ActionView::Tell(
            Request::SeekTo { position },
        ) && position.nanos == (if now.position.nanos >= 5_000_000_000 {
            now.position.nanos - 5_000_000_000
        } else {
            0
        }),
        now.position.nanos + 5_000_000_000 <= u128::MAX ==> (crate::tui::key_pressed(
            s,
            KeyCode::Right,
            now,
        ).1 matches ActionView::Tell(Request::SeekTo { position }) && position.nanos
            == now.position.nanos + 5_000_000_000),
        after_key(s, 'n', now) == s,
        after_key(s, ' ', now) == s,
{
}

/// The digits lead to the tabs in their order in the tab bar, `[` and `]` to the ones
/// beside; a tab starts with nothing but its own screen, which is then fetched.
pub proof fn tab_keys_lead_to_the_tabs(s: AppView, tab: Tab, now: NowPlaying)
    requires
        listening(s),
    ensures
        crate::tui::tab_key(s.active_tab, KeyCode::Char(('1' as int + tab.place()) as char))
            == Some(tab),
        crate::tui::key_pressed(s, KeyCode::Char(('1' as int + tab.place()) as char), now)
            == crate::tui::switched(s, tab),
        crate::tui::key_pressed(s, KeyCode::Char(']'), now) == crate::tui::switched(
            s,
            s.active_tab.beside(false),
        ),
        crate::tui::key_pressed(s, KeyCode::Char('['), now) == crate::tui::switched(
            s,
            s.active_tab.beside(true),
        ),
        s.active_tab.place() < 7 ==> s.active_tab.beside(false).place() == s.active_tab.place()
            + 1,
        s.active_tab.place() == 7 ==> s.active_tab.beside(false).place() == 0,
{
}

/// A tab that shows something of the server or the daemon fetches it; the search and the
/// settings need none.
pub proof fn tab_is_fetched(s: AppView, tab: Tab)
    ensures
        ({
            let (t, action) = crate::tui::switched(s, tab);
            &&& t.active_tab == tab
            &&& t.stack.len() == 1
            &&& t.stack[0].selected == 0
            &&& t.stack[0].filter.len() == 0
            &&& t.stack[0].marked.len() == 0
            &&& crate::screen::row_count(t.stack[0].rows) == 0
            &&& !t.filter_editing
            &&& t.albums_newest == s.albums_newest
            &&& tab != Tab::Search && tab != Tab::Settings ==> action == ActionView::Run(
                TaskView::LoadTab { tab, newest: s.albums_newest },
            )
            &&& tab == Tab::Search || tab == Tab::Settings ==> action == ActionView::Idle
            &&& tab == Tab::Search ==> (t.stack[0].rows matches RowsView::Search {
                editing,
                query,
                ..
            } && editing && query.len() == 0)
        }),
{
}

/// `t` on the albums fetches them anew in their other order.
pub proof fn sort_key_changes_the_order(s: AppView, now: NowPlaying)
    requires
        listening(s),
    ensures
        s.active_tab == Tab::Albums && s.stack.len() == 1 ==> after_key(s, 't', now).albums_newest
            == !s.albums_newest && asked_by(s, 't', now) == ActionView::Run(
            TaskView::LoadTab { tab: Tab::Albums, newest: !s.albums_newest },
        ),
        s.active_tab != Tab::Albums || s.stack.len() > 1 ==> after_key(s, 't', now) == s
            && asked_by(s, 't', now) == ActionView::Idle,
{
}

/// A search takes each character that is typed, at its end; `Backspace` takes back the
/// last one; `Enter` asks for what was typed.
pub proof fn search_is_typed(s: AppView, query: Seq<char>, results: Seq<SongView>, now: NowPlaying, c: char)
    requires
        s.stack.len() > 0,
        !s.show_help,
        s.prompt is None,
        s.top().rows == (RowsView::Search { query, editing: true, results }),
    ensures
        asked_by(s, c, now) == ActionView::Idle,
        after_key(s, c, now).top().rows == (RowsView::Search {
            query: query.push(c),
            editing: true,
            results,
        }),
        crate::tui::key_pressed(after_key(s, c, now), KeyCode::Backspace, now).0.top().rows
            == s.top().rows,
        query.len() > 0 ==> crate::tui::key_pressed(s, KeyCode::Enter, now).1 == ActionView::Run(
            TaskView::Search { query },
        ),
        query.len() == 0 ==> crate::tui::key_pressed(s, KeyCode::Enter, now).1
            == ActionView::Idle,
        crate::tui::key_pressed(s, KeyCode::Esc, now).0.top().rows == (RowsView::Search {
            query,
            editing: false,
            results,
        }),
{
    assert(query.push(c).drop_last() =~= query);
}

/// A name is typed character by character; `Backspace` takes back the last one; `Esc`
/// gives up; `Enter` uses it without the white space around it, and gives up on an empty
/// one.
pub proof fn name_is_typed(s: AppView, p: PromptView, now: NowPlaying, c: char)
    requires
        s.stack.len() > 0,
        !s.show_help,
        s.prompt == Some(p),
    ensures
        after_key(s, c, now).prompt == Some(PromptView { action: p.action, text: p.text.push(c) }),
        asked_by(s, c, now) == ActionView::Idle,
        crate::tui::key_pressed(after_key(s, c, now), KeyCode::Backspace, now).0.prompt == Some(p),
        crate::tui::key_pressed(s, KeyCode::Esc, now).0.prompt is None,
        crate::tui::key_pressed(s, KeyCode::Esc, now).1 == ActionView::Idle,
        crate::tui::key_pressed(s, KeyCode::Enter, now).0.prompt is None,
        ({
            let name = crate::text::trimmed(p.text);
            let action = crate::tui::key_pressed(s, KeyCode::Enter, now).1;
            &&& name.len() == 0 ==> action == ActionView::Idle
            &&& name.len() > 0 && p.action is NewPlaylist ==> action == ActionView::Run(
                TaskView::NewPlaylist { name },
            )
            &&& name.len() > 0 ==> (p.action matches PromptAction::RenamePlaylist { id }
                ==> action == ActionView::Run(TaskView::RenamePlaylist { id: id@, name }))
        }),
{
    assert(p.text.push(c).drop_last() =~= p.text);
}

/// The queue is saved with the ids of all its songs that have one, in order.
pub proof fn saved_songs_are_the_queue(tracks: Seq<QueueRow>, track: QueueRow)
    ensures
        crate::tui::saveable_ids(Seq::empty()).len() == 0,
        track.song_id@.len() > 0 ==> crate::tui::saveable_ids(tracks.push(track))
            == crate::tui::saveable_ids(tracks).push(track.song_id@),
        track.song_id@.len() == 0 ==> crate::tui::saveable_ids(tracks.push(track))
            == crate::tui::saveable_ids(tracks),
{
    assert(tracks.push(track).drop_last() =~= tracks);
}

/// Saving the queue under a name asks for a playlist of exactly those songs; without any
/// there is nothing to ask for.
pub proof fn queue_is_saved_under_its_name(s: AppView, p: PromptView, tracks: Seq<QueueRow>, now: NowPlaying)
    requires
        s.stack.len() > 0,
        !s.show_help,
        s.prompt == Some(p),
        p.action is SaveQueueAsPlaylist,
        crate::text::trimmed(p.text).len() > 0,
        s.top().rows == RowsView::Queue(tracks),
    ensures
        crate::tui::saveable_ids(tracks).len() > 0 ==> crate::tui::key_pressed(
            s,
            KeyCode::Enter,
            now,
        ).1 == ActionView::Run(
            TaskView::SaveQueue {
                name: crate::text::trimmed(p.text),
                song_ids: crate::tui::saveable_ids(tracks),
            },
        ),
        crate::tui::saveable_ids(tracks).len() == 0 ==> crate::tui::key_pressed(
            s,
            KeyCode::Enter,
            now,
        ).1 == ActionView::Idle,
{
}

/// `N` and `S` ask for the name of a new playlist, `c` for another name of the one under
/// the cursor, beginning with the one that it has.
pub proof fn name_is_asked_for(s: AppView, row: usize, now: NowPlaying)
    requires
        listening(s),
        crate::screen::row_at_cursor(s.top()) == Some(row),
    ensures
        s.top().rows is Playlists ==> after_key(s, 'N', now).prompt == Some(
            PromptView { action: PromptAction::NewPlaylist, text: Seq::empty() },
        ),
        s.top().rows is Queue ==> after_key(s, 'S', now).prompt == Some(
            PromptView { action: PromptAction::SaveQueueAsPlaylist, text: Seq::empty() },
        ),
        s.top().rows matches RowsView::Playlists(playlists) ==> after_key(s, 'c', now).prompt
            == Some(
            PromptView {
                action: PromptAction::RenamePlaylist { id: playlists[row as int].id },
                text: playlists[row as int].name@,
            },
        ),
        asked_by(s, 'N', now) == ActionView::Idle,
        asked_by(s, 'S', now) == ActionView::Idle,
{
}

/// A filter that is edited takes each character, at its end, and brings the cursor to the
/// top; `Backspace` takes back the last one; `Esc` clears it and stops.
pub proof fn filter_is_typed(s: AppView, now: NowPlaying, c: char)
    requires
        s.stack.len() > 0,
        !s.show_help,
        s.prompt is None,
        s.filter_editing,
        crate::screen::filterable(s.top().rows),
        c != '/',
    ensures
        ({
            let t = after_key(s, c, now);
            let back = crate::tui::key_pressed(t, KeyCode::Backspace, now).0;
            let left = crate::tui::key_pressed(s, KeyCode::Esc, now).0;
            &&& t.top().filter == s.top().filter.push(c)
            &&& t.top().selected == 0
            &&& t.top().rows == s.top().rows
            &&& t.top().marked == s.top().marked
            &&& t.filter_editing
            &&& asked_by(s, c, now) == ActionView::Idle
            &&& back.top().filter == s.top().filter
            &&& back.top().selected == 0
            &&& left.top().filter.len() == 0
            &&& left.top().selected == 0
            &&& !left.filter_editing
            &&& left.top().rows == s.top().rows
        }),
{
    assert(s.top().filter.push(c).drop_last() =~= s.top().filter);
}

/// Down and up go to the next and the previous visible row; past an end they come in at
/// the other. Nothing else changes.
pub proof fn cursor_keys_go_round(s: AppView, now: NowPlaying)
    requires
        listening(s),
        crate::screen::filterable(s.top().rows),
        crate::screen::row_count(s.top().rows) <= usize::MAX,
        s.top().selected < crate::screen::visible(s.top()).len(),
    ensures
        ({
            let len = crate::screen::visible(s.top()).len();
            let at = s.top().selected as int;
            let down = crate::tui::key_pressed(s, KeyCode::Down, now);
            let up = crate::tui::key_pressed(s, KeyCode::Up, now);
            &&& down.0.top().selected == (if at + 1 < len {
                at + 1
            } else {
                0
            })
            &&& up.0.top().selected == (if at > 0 {
                at - 1
            } else {
                len - 1
            })
            &&& down.0.top().rows == s.top().rows && up.0.top().rows == s.top().rows
            &&& down.0.top().marked == s.top().marked && up.0.top().marked == s.top().marked
            &&& down.0.top().filter == s.top().filter && up.0.top().filter == s.top().filter
            &&& down.1 == ActionView::Idle && up.1 == ActionView::Idle
            &&& crate::tui::key_pressed(s, KeyCode::Char('j'), now) == down
            &&& crate::tui::key_pressed(s, KeyCode::Char('k'), now) == up
        }),
{
    crate::screen::visible_rows_match(s.top());
    ring_steps(s.top().selected as int, crate::screen::visible(s.top()).len() as int);
}

proof fn ring_steps(at: int, len: int)
    requires
        0 <= at < len,
    ensures
        crate::screen::stepped(at, 1, len) == (if at + 1 < len {
            at + 1
        } else {
            0
        }),
        crate::screen::stepped(at, -1, len) == (if at > 0 {
            at - 1
        } else {
            len - 1
        }),
{
    if at + 1 < len {
        vstd::arithmetic::div_mod::lemma_small_mod((at + 1) as nat, len as nat);
    } else {
        vstd::arithmetic::div_mod::lemma_mod_self_0(len);
    }
    if at > 0 {
        vstd::arithmetic::div_mod::lemma_small_mod((at - 1) as nat, len as nat);
    } else {
        vstd::arithmetic::div_mod::lemma_mod_add_multiples_vanish(-1, len);
        vstd::arithmetic::div_mod::lemma_small_mod((len - 1) as nat, len as nat);
    }
}

/// The cursor of the results of a search, and of the playlists to pick from, goes round in
/// the same way.
pub proof fn other_cursors_go_round(s: ScreenView)
    requires
        (s.rows matches RowsView::Search { editing, results, .. } && !editing && s.selected
            < results.len() && results.len() <= usize::MAX) || (s.rows matches RowsView::Picker {
            playlists,
            ..
        } && s.selected < playlists.len() && playlists.len() <= usize::MAX),
    ensures
        ({
            let len = match s.rows {
                RowsView::Search { results, .. } => results.len() as int,
                RowsView::Picker { playlists, .. } => playlists.len() as int,
                _ => 0,
            };
            let at = s.selected as int;
            &&& crate::screen::cursor_moved(s, 1).selected == (if at + 1 < len {
                at + 1
            } else {
                0
            })
            &&& crate::screen::cursor_moved(s, -1).selected == (if at > 0 {
                at - 1
            } else {
                len - 1
            })
            &&& crate::screen::cursor_moved(s, 1).rows == s.rows
            &&& crate::screen::cursor_moved(s, -1).rows == s.rows
        }),
{
    match s.rows {
        RowsView::Search { results, .. } => {
            ring_steps(s.selected as int, results.len() as int);
        },
        RowsView::Picker { playlists, .. } => {
            ring_steps(s.selected as int, playlists.len() as int);
        },
        _ => {},
    }
}

/// A text is scrolled line by line, and stops at its start.
pub proof fn text_is_scrolled(s: ScreenView)
    requires
        s.rows is Info,
        s.selected < usize::MAX,
    ensures
        crate::screen::cursor_moved(s, 1).selected == s.selected + 1,
        s.selected > 0 ==> crate::screen::cursor_moved(s, -1).selected == s.selected - 1,
        s.selected == 0 ==> crate::screen::cursor_moved(s, -1).selected == 0,
{
}

/// `v` marks the row under the cursor, or takes its mark away, and touches no other mark.
pub proof fn mark_key_marks_the_row(s: AppView, row: usize, now: NowPlaying)
    requires
        listening(s),
        crate::screen::markable(s.top().rows),
        crate::screen::row_at_cursor(s.top()) == Some(row),
    ensures
        ({
            let t = after_key(s, 'v', now).top();
            &&& t.marked.contains(row) == !s.top().marked.contains(row)
            &&& forall|i: usize|
                i != row ==> #[trigger] t.marked.contains(i) == s.top().marked.contains(i)
            &&& t.rows == s.top().rows && t.selected == s.top().selected && t.filter
                == s.top().filter
        }),
{
    broadcast use vstd::seq_lib::group_filter_ensures;

    let m = s.top().marked;
    let t = after_key(s, 'v', now).top();
    let f = crate::play_order::other_than(row);
    if m.contains(row) {
        let kept = m.filter(f);
        assert(t.marked == kept);
        assert forall|i: usize| i != row implies #[trigger] kept.contains(i) == m.contains(i) by {
            if m.contains(i) {
                assert(f(i));
                let k = choose|k: int| 0 <= k < m.len() && m[k] == i;
                assert(f(m[k]));
            }
            if kept.contains(i) {
                m.lemma_filter_contains_rev(f, i);
            }
        }
        if kept.contains(row) {
            let k = choose|k: int| 0 <= k < kept.len() && kept[k] == row;
            assert(f(kept[k]));
        }
    } else {
        assert(t.marked == m.push(row));
        assert(m.push(row)[m.len() as int] == row);
        assert forall|i: usize| i != row implies #[trigger] m.push(row).contains(i) == m.contains(
            i,
        ) by {
            if m.contains(i) {
                let k = choose|k: int| 0 <= k < m.len() && m[k] == i;
                assert(m.push(row)[k] == i);
            }
            if m.push(row).contains(i) {
                let k = choose|k: int| 0 <= k < m.push(row).len() && m.push(row)[k] == i;
                assert(m[k] == i);
            }
        }
    }
}

/// `Esc` and `Backspace` clear a filter and, where there is none, go one screen back; from
/// a tab's first screen there is no way back.
pub proof fn escape_goes_back(s: AppView, now: NowPlaying)
    requires
        listening(s),
    ensures
        ({
            let t = crate::tui::key_pressed(s, KeyCode::Esc, now).0;
            let filtered = crate::screen::filterable(s.top().rows) && s.top().filter.len() > 0;
            &&& t == crate::tui::key_pressed(s, KeyCode::Backspace, now).0
            &&& filtered ==> t.stack.len() == s.stack.len() && t.top().filter.len() == 0
                && t.top().rows == s.top().rows
            &&& !filtered && s.stack.len() > 1 ==> t.stack == s.stack.drop_last()
            &&& !filtered && s.stack.len() == 1 ==> t == s
            &&& crate::tui::key_pressed(s, KeyCode::Esc, now).1 == ActionView::Idle
        }),
{
}

/// `?` shows the help, `l` shows or hides the lyrics, `c` on the settings checks for an
/// update, and an update that was confirmed is installed.
pub proof fn other_keys(s: AppView, now: NowPlaying)
    requires
        listening(s),
    ensures
        after_key(s, '?', now).show_help,
        after_key(s, 'l', now).lyrics_open == !s.lyrics_open,
        after_key(s, 'l', now).stack == s.stack,
        s.top().rows is Settings ==> asked_by(s, 'c', now) == ActionView::Run(
            TaskView::CheckUpdate,
        ),
        s.top().rows matches RowsView::Settings(UpdateState::Confirming(_)) ==> asked_by(
            s,
            'u',
            now,
        ) == ActionView::Run(TaskView::InstallUpdate),
        s.top().rows matches RowsView::Settings(UpdateState::Checked(found)) ==> (
        found.update_available ==> after_key(s, 'u', now).top().rows == RowsView::Settings(
            UpdateState::Confirming(found),
        )),
{
}

/// A tab shows what was fetched for it, all of it and as it was sent, with the cursor at
/// the top.
pub proof fn tab_shows_what_was_fetched(s: AppView, tab: Tab, newest: bool, reply: Reply)
    requires
        s.stack.len() > 0,
    ensures
        ({
            let t = crate::tui::completed(s, TaskView::LoadTab { tab, newest }, reply).0;
            &&& tab == Tab::Albums ==> (reply matches Reply::Albums(albums) ==> (
            t.top().rows matches RowsView::Albums { albums: listed, .. } && listed == albums@))
            &&& tab == Tab::Artists ==> (reply matches Reply::Artists(artists) ==> t.top().rows
                == RowsView::Artists(artists@))
            &&& tab == Tab::Playlists ==> (reply matches Reply::Playlists(playlists)
                ==> t.top().rows == RowsView::Playlists(playlists@))
            &&& tab == Tab::Genres ==> (reply matches Reply::Genres(genres) ==> t.top().rows
                == RowsView::Genres(genres@))
            &&& tab == Tab::Queue ==> (reply matches Reply::Queue(tracks) ==> t.top().rows
                == RowsView::Queue(tracks@))
            &&& !(reply is Failed) && t != s ==> t.stack.len() == 1 && t.top().selected == 0
                && t.top().filter.len() == 0 && t.top().marked.len() == 0 && t.message.len() == 0
        }),
{
}

/// The home screen previews up to five songs of each of the server's own lists, from the
/// start of each: favourites, recently played, on repeat, songs for you.
pub proof fn home_previews_the_lists(
    a: Seq<SongView>,
    b: Seq<SongView>,
    c: Seq<SongView>,
    d: Seq<SongView>,
)
    ensures
        ({
            let lists = crate::tui::previews(a, b, c, d);
            &&& lists.len() == 4
            &&& lists[0].kind == NativeKind::Favourites && is_start_of(lists[0].songs, a)
            &&& lists[1].kind == NativeKind::RecentlyPlayed && is_start_of(lists[1].songs, b)
            &&& lists[2].kind == NativeKind::OnRepeat && is_start_of(lists[2].songs, c)
            &&& lists[3].kind == NativeKind::SongsForYou && is_start_of(lists[3].songs, d)
        }),
{
}

/// Whether `shown` are the first songs of a list: five, or all where there are fewer.
pub open spec fn is_start_of(shown: Seq<SongView>, all: Seq<SongView>) -> bool {
    &&& shown.len() <= all.len()
    &&& shown.len() == 5 || shown.len() < 5 && shown.len() == all.len()
    &&& forall|i: int| 0 <= i < shown.len() ==> #[trigger] shown[i] == all[i]
}

/// What was opened shows on top of what was there, under its title: the songs of an album
/// or a playlist, the albums of an artist or a genre. A playlist's songs can be taken out
/// of it.
pub proof fn opened_list_shows_on_top(
    s: AppView,
    id: Seq<char>,
    title: Seq<char>,
    songs: Vec<crate::library::Song>,
    albums: Vec<crate::library::Album>,
)
    requires
        s.stack.len() > 0,
    ensures
        ({
            let album = crate::tui::completed(
                s,
                TaskView::OpenAlbum { id, title },
                Reply::Songs(songs),
            ).0;
            let playlist = crate::tui::completed(
                s,
                TaskView::OpenPlaylist { id, title },
                Reply::Songs(songs),
            ).0;
            let artist = crate::tui::completed(
                s,
                TaskView::OpenArtist { id, title },
                Reply::Albums(albums),
            ).0;
            let genre = crate::tui::completed(
                s,
                TaskView::OpenGenre { title },
                Reply::Albums(albums),
            ).0;
            &&& album.stack.drop_last() == s.stack && playlist.stack.drop_last() == s.stack
            &&& artist.stack.drop_last() == s.stack && genre.stack.drop_last() == s.stack
            &&& album.top().rows == (RowsView::Songs {
                title,
                songs: crate::json::item_views(songs@),
                playlist_id: None,
            })
            &&& playlist.top().rows == (RowsView::Songs {
                title,
                songs: crate::json::item_views(songs@),
                playlist_id: Some(id),
            })
            &&& artist.top().rows == (RowsView::Albums { title, albums: albums@ })
            &&& genre.top().rows == artist.top().rows
            &&& album.top().selected == 0 && playlist.top().selected == 0
        }),
{
    assert(s.stack.push(crate::screen::opened(s.top().rows)).drop_last() =~= s.stack);
}

/// The results of a search replace those before, with the cursor at the top and the query
/// kept.
pub proof fn results_show_under_the_query(
    s: AppView,
    query: Seq<char>,
    editing: bool,
    results: Seq<SongView>,
    songs: Vec<crate::library::Song>,
)
    requires
        s.stack.len() > 0,
        s.top().rows == (RowsView::Search { query, editing, results }),
    ensures
        ({
            let t = crate::tui::completed(s, TaskView::Search { query }, Reply::Songs(songs)).0;
            &&& t.top().rows == (RowsView::Search {
                query,
                editing: false,
                results: crate::json::item_views(songs@),
            })
            &&& t.top().selected == 0
            &&& t.top().marked.len() == 0
            &&& t.message.len() == 0
        }),
{
}

/// A change of the queue is followed by fetching it anew; after a move the cursor follows
/// the track.
pub proof fn queue_change_is_shown(s: AppView, rows: Seq<usize>, from: usize, to: usize)
    ensures
        crate::tui::completed(s, TaskView::RemoveFromQueue { rows }, Reply::Done).1
            == ActionView::Run(TaskView::RefreshQueue { follow: None }),
        crate::tui::completed(s, TaskView::ClearQueue, Reply::Done).1 == ActionView::Run(
            TaskView::RefreshQueue { follow: None },
        ),
        crate::tui::completed(s, TaskView::MoveInQueue { from, to }, Reply::Done).1
            == ActionView::Run(TaskView::RefreshQueue { follow: Some(to) }),
{
}

/// A change of the playlists is followed by fetching them anew, one of a playlist's songs
/// by fetching those.
pub proof fn playlist_change_is_shown(s: AppView, id: Seq<char>, name: Seq<char>, rows: Seq<usize>)
    ensures
        crate::tui::completed(s, TaskView::NewPlaylist { name }, Reply::Done)
            == crate::tui::switched(s, Tab::Playlists),
        crate::tui::completed(s, TaskView::RenamePlaylist { id, name }, Reply::Done)
            == crate::tui::switched(s, Tab::Playlists),
        crate::tui::completed(s, TaskView::DeletePlaylist { id }, Reply::Done)
            == crate::tui::switched(s, Tab::Playlists),
        crate::tui::completed(s, TaskView::RemoveFromPlaylist { id, rows }, Reply::Done).1
            == ActionView::Run(TaskView::RefreshPlaylist { id }),
{
}

/// A refreshed queue lists the tracks as they are now; the cursor keeps its place, or goes
/// to the last row where there are fewer, and no mark is left.
pub proof fn refreshed_queue_keeps_the_cursor(s: AppView, tracks: Vec<QueueRow>)
    requires
        s.stack.len() > 0,
        s.top().rows is Queue,
        s.top().filter.len() == 0,
        tracks@.len() <= usize::MAX,
    ensures
        ({
            let t = crate::tui::completed(
                s,
                TaskView::RefreshQueue { follow: None },
                Reply::Queue(tracks),
            ).0;
            &&& t.top().rows == RowsView::Queue(tracks@)
            &&& t.top().marked.len() == 0
            &&& s.top().selected < tracks@.len() ==> t.top().selected == s.top().selected
            &&& s.top().selected >= tracks@.len() > 0 ==> t.top().selected == tracks@.len() - 1
            &&& tracks@.len() == 0 ==> t.top().selected == 0
            &&& t.stack.len() == s.stack.len()
        }),
{
    crate::screen::empty_filter_shows_all(
        ScreenView { rows: RowsView::Queue(tracks@), ..s.top() },
    );
}

/// What was added to the queue is told by its number, and its marks are gone.
pub proof fn added_songs_are_counted(s: AppView, songs: Seq<SongView>)
    requires
        s.stack.len() > 0,
    ensures
        ({
            let end = crate::tui::completed(s, TaskView::Append { songs }, Reply::Done).0;
            let next = crate::tui::completed(s, TaskView::PlayNext { songs }, Reply::Done).0;
            let count = crate::text::decimal(songs.len());
            &&& end.message == "added "@ + count + " track(s) to the queue"@
            &&& next.message == "added "@ + count + " track(s) to play next"@
            &&& end.top().marked.len() == 0 && next.top().marked.len() == 0
            &&& end.top().rows == s.top().rows && next.top().rows == s.top().rows
        }),
{
    reveal_strlit(" track(s) ");
    reveal_strlit("to the queue");
    reveal_strlit("to play next");
    reveal_strlit(" track(s) to the queue");
    reveal_strlit(" track(s) to play next");
    let count = crate::text::decimal(songs.len());
    assert(" track(s) "@ + "to the queue"@ =~= " track(s) to the queue"@);
    assert(" track(s) "@ + "to play next"@ =~= " track(s) to play next"@);
    assert("added "@ + count + " track(s) "@ + "to the queue"@ =~= "added "@ + count + (
    " track(s) "@ + "to the queue"@));
    assert("added "@ + count + " track(s) "@ + "to play next"@ =~= "added "@ + count + (
    " track(s) "@ + "to play next"@));
}

/// A task that failed says why and changes no list that shows.
pub proof fn failure_says_why(s: AppView, task: TaskView, why: String)
    requires
        s.stack.len() > 0,
        task is PlayQueue || task is Append || task is PlayNext || task is PlayAt
            || task is RemoveFromQueue || task is ClearQueue || task is MoveInQueue
            || task is NewPlaylist || task is SaveQueue || task is RenamePlaylist
            || task is DeletePlaylist || task is RemoveFromPlaylist || task is SetStarred
            || task is LoadTab || task is Search || task is OpenAlbum || task is OpenArtist
            || task is OpenPlaylist || task is OpenGenre || task is CheckUpdate
            || task is InstallUpdate,
    ensures
        ({
            let (t, action) = crate::tui::completed(s, task, Reply::Failed(why));
            &&& t.stack == s.stack
            &&& why@.is_suffix_of(t.message)
            &&& action == ActionView::Idle
        }),
{
    let t = crate::tui::completed(s, task, Reply::Failed(why)).0;
    assert(t.message.subrange(t.message.len() - why@.len(), t.message.len() as int) =~= why@);
}

/// What is shown of an artist begins with the biography; every similar artist follows on a
/// line of its own.
pub proof fn artist_text_shows_everything(info: crate::library::ArtistInfo, i: int)
    requires
        info.biography@.len() > 0,
    ensures
        info.biography@.is_prefix_of(crate::tui::artist_text(info)),
        info.similar_artists@.len() == 0 ==> crate::tui::artist_text(info) == info.biography@,
        0 <= i < info.similar_artists@.len() ==> crate::text::has_infix(
            crate::tui::artist_text(info),
            " - "@ + info.similar_artists@[i].name@ + "\n"@,
        ),
{
    let all = crate::tui::artist_text(info);
    assert(all.take(info.biography@.len() as int) =~= info.biography@);
    if 0 <= i < info.similar_artists@.len() {
        let lines = crate::tui::similar_lines(info.similar_artists@);
        let line = " - "@ + info.similar_artists@[i].name@ + "\n"@;
        similar_line_stands(info.similar_artists@, i);
        let at = choose|k: int| 0 <= k <= lines.len() && #[trigger] crate::text::stands_at(lines, line, k);
        let front = info.biography@ + "\n\nSimilar artists:\n"@;
        assert(all =~= front + lines);
        assert(all.subrange(front.len() + at, front.len() + at + line.len()) =~= lines.subrange(
            at,
            at + line.len(),
        ));
        assert(crate::text::stands_at(all, line, front.len() + at));
    }
}

proof fn similar_line_stands(artists: Seq<crate::library::SimilarArtist>, i: int)
    requires
        0 <= i < artists.len(),
    ensures
        exists|k: int|
            0 <= k <= crate::tui::similar_lines(artists).len() && #[trigger] crate::text::stands_at(
                crate::tui::similar_lines(artists),
                " - "@ + artists[i].name@ + "\n"@,
                k,
            ),
    decreases artists.len(),
{
    let lines = crate::tui::similar_lines(artists);
    let line = " - "@ + artists[i].name@ + "\n"@;
    let before = crate::tui::similar_lines(artists.drop_last());
    if i == artists.len() - 1 {
        assert(lines.subrange(before.len() as int, (before.len() + line.len()) as int) =~= line);
        assert(crate::text::stands_at(lines, line, before.len() as int));
    } else {
        similar_line_stands(artists.drop_last(), i);
        let k = choose|k: int| 0 <= k <= before.len() && #[trigger] crate::text::stands_at(before, line, k);
        assert(lines.subrange(k, k + line.len()) =~= before.subrange(k, k + line.len()));
        assert(crate::text::stands_at(lines, line, k));
    }
}

/// Once songs are added to a playlist, or could not be, the picker goes away, the marks
/// behind it are gone, and the user is told.
pub proof fn picker_goes_away(s: AppView, id: Seq<char>, name: Seq<char>, ids: Seq<Seq<char>>, why: String)
    requires
        s.stack.len() > 1,
    ensures
        ({
            let task = TaskView::AddToPlaylist { id, name, song_ids: ids };
            let done = crate::tui::completed(s, task, Reply::Done).0;
            let failed = crate::tui::completed(s, task, Reply::Failed(why)).0;
            &&& done.stack.len() == s.stack.len() - 1
            &&& failed.stack.len() == s.stack.len() - 1
            &&& done.top().rows == s.stack[s.stack.len() - 2].rows
            &&& done.top().selected == s.stack[s.stack.len() - 2].selected
            &&& done.top().marked.len() == 0
            &&& failed.top() == done.top()
            &&& done.message == "added to \""@ + name + "\""@
            &&& failed.message == "could not add to playlist: "@ + why@
        }),
{
}

/// The playlists to pick from show on top, with the songs to be added; without any the
/// user is told, and nothing opens.
pub proof fn picker_shows_the_playlists(
    s: AppView,
    song_ids: Seq<Seq<char>>,
    playlists: Vec<crate::library::Playlist>,
)
    requires
        s.stack.len() > 0,
    ensures
        ({
            let t = crate::tui::completed(
                s,
                TaskView::PickPlaylist { song_ids },
                Reply::Playlists(playlists),
            ).0;
            &&& playlists@.len() > 0 ==> t.stack.len() == s.stack.len() + 1 && t.top().rows
                == (RowsView::Picker { playlists: playlists@, song_ids }) && t.top().selected == 0
            &&& playlists@.len() == 0 ==> t.stack == s.stack && t.message.len() > 0
        }),
{
    reveal_strlit("no playlists yet \u{2014} press N on the Playlists tab to create one");
}

/// A list of the home screen opens whole, under its own title; one that could not be
/// fetched opens empty, and the user is told.
pub proof fn expanded_list_shows_whole(
    s: AppView,
    kind: NativeKind,
    songs: Vec<crate::library::Song>,
    why: String,
)
    requires
        s.stack.len() > 0,
    ensures
        ({
            let t = crate::tui::completed(s, TaskView::Expand(kind), Reply::Songs(songs)).0;
            let u = crate::tui::completed(s, TaskView::Expand(kind), Reply::Failed(why)).0;
            &&& t.stack.len() == s.stack.len() + 1 && u.stack.len() == s.stack.len() + 1
            &&& t.top().rows == (RowsView::Songs {
                title: kind.name(),
                songs: crate::json::item_views(songs@),
                playlist_id: None,
            })
            &&& u.top().rows == (RowsView::Songs {
                title: kind.name(),
                songs: Seq::empty(),
                playlist_id: None,
            })
            &&& u.message == "error: "@ + why@
            &&& kind == NativeKind::Favourites ==> kind.name() == "Favourites"@
            &&& kind == NativeKind::RecentlyPlayed ==> kind.name() == "Recently Played"@
            &&& kind == NativeKind::OnRepeat ==> kind.name() == "On Repeat"@
            &&& kind == NativeKind::SongsForYou ==> kind.name() == "Songs For You"@
        }),
{
}

/// The songs of a playlist that were fetched anew replace those on the screen; the cursor
/// keeps its place, or goes to the last row where there are fewer, and no mark is left.
pub proof fn refreshed_playlist_keeps_the_cursor(
    s: AppView,
    title: Seq<char>,
    before: Seq<SongView>,
    playlist_id: Option<Seq<char>>,
    id: Seq<char>,
    songs: Vec<crate::library::Song>,
)
    requires
        s.stack.len() > 0,
        s.top().rows == (RowsView::Songs { title, songs: before, playlist_id }),
        s.top().filter.len() == 0,
        songs@.len() <= usize::MAX,
    ensures
        ({
            let t = crate::tui::completed(
                s,
                TaskView::RefreshPlaylist { id },
                Reply::Songs(songs),
            ).0;
            &&& t.stack.len() == s.stack.len()
            &&& t.top().rows == (RowsView::Songs {
                title,
                songs: crate::json::item_views(songs@),
                playlist_id,
            })
            &&& t.top().marked.len() == 0
            &&& s.top().selected < songs@.len() ==> t.top().selected == s.top().selected
            &&& s.top().selected >= songs@.len() > 0 ==> t.top().selected == songs@.len() - 1
        }),
{
    let rows = RowsView::Songs { title, songs: crate::json::item_views(songs@), playlist_id };
    crate::screen::empty_filter_shows_all(ScreenView { rows, ..s.top() });
}

/// What is known of an artist or an album shows on top under its name; where nothing is
/// known, the text says so.
pub proof fn info_shows_under_its_name(
    s: AppView,
    id: Seq<char>,
    name: Seq<char>,
    artist: crate::library::ArtistInfo,
    album: crate::library::AlbumInfo,
)
    requires
        s.stack.len() > 0,
    ensures
        ({
            let t = crate::tui::completed(
                s,
                TaskView::ArtistInfo { id, name },
                Reply::ArtistInfo(artist),
            ).0;
            let u = crate::tui::completed(
                s,
                TaskView::AlbumInfo { id, name },
                Reply::AlbumInfo(album),
            ).0;
            &&& t.stack.drop_last() == s.stack && u.stack.drop_last() == s.stack
            &&& t.top().rows matches RowsView::Info { title, body } && title == name && body
                == crate::tui::artist_text(artist)
            &&& u.top().rows matches RowsView::Info { title, body } && title == name && (
            album.notes@.len() > 0 ==> body == album.notes@) && (album.notes@.len() == 0 ==> body
                == "No notes available."@)
            &&& artist.biography@.len() == 0 && artist.similar_artists@.len() == 0
                ==> crate::tui::artist_text(artist) == "No biography available."@
        }),
{
    assert(s.stack.push(s.top()).drop_last() =~= s.stack);
    let t = crate::tui::completed(s, TaskView::ArtistInfo { id, name }, Reply::ArtistInfo(artist)).0;
    let u = crate::tui::completed(s, TaskView::AlbumInfo { id, name }, Reply::AlbumInfo(album)).0;
    assert(t.stack.drop_last() =~= s.stack);
    assert(u.stack.drop_last() =~= s.stack);
}

/// The settings show what a check has found, and that an update is installed.
pub proof fn settings_show_the_update(s: AppView, found: crate::update_check::CheckResult)
    requires
        s.stack.len() > 0,
        s.top().rows is Settings,
    ensures
        crate::tui::completed(s, TaskView::CheckUpdate, Reply::Update(found)).0.top().rows
            == RowsView::Settings(UpdateState::Checked(found)),
        crate::tui::completed(s, TaskView::InstallUpdate, Reply::Done).0.top().rows
            == RowsView::Settings(UpdateState::Installed),
{
}

/// A star that was changed shows on every song by that id on the screen, and on no other;
/// nothing else about the songs changes, and no mark is left.
pub proof fn only_those_stars_change(
    songs: Seq<SongView>,
    id: Seq<char>,
    on: bool,
    i: int,
)
    requires
        0 <= i < songs.len(),
    ensures
        crate::tui::star_set(songs, id, on).len() == songs.len(),
        songs[i].id == id ==> (crate::tui::star_set(songs, id, on)[i].starred is Some) == on,
        songs[i].id != id ==> crate::tui::star_set(songs, id, on)[i] == songs[i],
        crate::tui::star_set(songs, id, on)[i].id == songs[i].id,
        crate::tui::star_set(songs, id, on)[i].title == songs[i].title,
        crate::tui::star_set(songs, id, on)[i].artist == songs[i].artist,
        crate::tui::star_set(songs, id, on)[i].duration == songs[i].duration,
{
}

/// The cursor stays where it is while a search is typed, and where there is no row to go
/// to.
pub proof fn cursor_stays_without_rows(s: ScreenView, delta: int)
    ensures
        s.rows matches RowsView::Search { editing, results, .. } ==> (editing || results.len() == 0
            ==> crate::screen::cursor_moved(s, delta) == s),
        s.rows matches RowsView::Picker { playlists, .. } ==> (playlists.len() == 0
            ==> crate::screen::cursor_moved(s, delta) == s),
        crate::screen::filterable(s.rows) && crate::screen::visible(s).len() == 0
            ==> crate::screen::cursor_moved(s, delta) == s,
        s.rows is Settings ==> crate::screen::cursor_moved(s, delta) == s,
{
}

/// Moving the cursor, marking, and typing a filter or a search change the screen that
/// shows; those below it stay.
pub proof fn screens_below_stay(s: AppView, now: NowPlaying, c: char)
    requires
        s.stack.len() > 0,
        !s.show_help,
        s.prompt is None,
    ensures
        listening(s) ==> crate::tui::key_pressed(s, KeyCode::Down, now).0.stack.drop_last()
            == s.stack.drop_last(),
        listening(s) ==> crate::tui::key_pressed(s, KeyCode::Up, now).0.stack.drop_last()
            == s.stack.drop_last(),
        listening(s) ==> after_key(s, 'v', now).stack.drop_last() == s.stack.drop_last(),
        s.filter_editing && crate::screen::filterable(s.top().rows) && c != '/' ==> after_key(
            s,
            c,
            now,
        ).stack.drop_last() == s.stack.drop_last(),
        (s.top().rows matches RowsView::Search { editing, .. } && editing) ==> after_key(
            s,
            c,
            now,
        ).stack.drop_last() == s.stack.drop_last(),
{
    let below = s.stack.drop_last();
    assert forall|top: ScreenView| #[trigger] below.push(top).drop_last() == below by {
        assert(below.push(top).drop_last() =~= below);
    }
}

/// A cursor of the home screen that is on no song plays, adds and stars nothing.
pub proof fn lost_home_cursor_does_nothing(
    s: AppView,
    sections: Seq<SectionView>,
    section: usize,
    now: NowPlaying,
)
    requires
        listening(s),
        s.top().rows == (RowsView::Home { sections, section }),
        section >= sections.len() || s.top().selected >= sections[section as int].songs.len(),
    ensures
        crate::tui::key_pressed(s, KeyCode::Enter, now) == (s, ActionView::Idle),
        asked_by(s, 'a', now) == ActionView::Idle,
        asked_by(s, 'A', now) == ActionView::Idle,
        asked_by(s, 'f', now) == ActionView::Idle,
        asked_by(s, 'P', now) == ActionView::Idle,
{
}

/// On a list where no row is under the cursor, and none is marked, the keys for rows do
/// nothing.
pub proof fn no_row_nothing_to_do(s: AppView, now: NowPlaying)
    requires
        listening(s),
        crate::screen::filterable(s.top().rows),
        crate::screen::row_count(s.top().rows) <= usize::MAX,
        crate::screen::row_at_cursor(s.top()) is None,
        !has_marks(s.top()),
    ensures
        crate::tui::key_pressed(s, KeyCode::Enter, now) == (s, ActionView::Idle),
        asked_by(s, 'a', now) == ActionView::Idle,
        asked_by(s, 'A', now) == ActionView::Idle,
        asked_by(s, 'f', now) == ActionView::Idle,
        asked_by(s, 'P', now) == ActionView::Idle,
        asked_by(s, 'd', now) == ActionView::Idle,
        asked_by(s, 'J', now) == ActionView::Idle,
        asked_by(s, 'K', now) == ActionView::Idle,
        asked_by(s, 'i', now) == ActionView::Idle,
        after_key(s, 'v', now).top() == s.top(),
{
    no_marks_no_rows(s.top());
    let rows = crate::screen::chosen_rows(s.top());
    assert(rows.len() == 0);
    assert(rows.reverse().len() == 0);
}

/// What the interface shows of playback is what the engine published: the track, its
/// place and position, the volume and the modes.
pub proof fn interface_shows_what_is_published(
    now: NowPlaying,
    report: crate::protocol::StatusTuple,
    snap: crate::playback::Snapshot,
)
    requires
        crate::tui::shows_report(now, report),
        crate::playback::reports(report, snap),
    ensures
        now.position == snap.position,
        now.volume == snap.volume,
        now.shuffle == snap.shuffle,
        snap.queue_index <= u32::MAX ==> now.queue_index == snap.queue_index,
        snap.queue_len <= u32::MAX ==> now.queue_len == snap.queue_len,
        (now.status@ == "playing"@) <==> snap.status == crate::playback::Status::Playing,
        snap.track is Some ==> now.title@ == snap.track->0.title@ && now.artist@
            == snap.track->0.artist@ && now.song_id@ == snap.track->0.song_id@
            && now.format_label@ == snap.track->0.format_label@ && now.lossless
            == snap.track->0.lossless,
        snap.track is Some && snap.track->0.duration is Some ==> now.duration
            == snap.track->0.duration->0,
        snap.track is Some && snap.track->0.art_url is Some ==> now.art_url@
            == snap.track->0.art_url->0@,
        snap.track is None ==> now.title@.len() == 0 && now.song_id@.len() == 0,
{
    crate::playback::report_says_what_is_published(report, snap);
    reveal_strlit("playing");
    reveal_strlit("paused");
    reveal_strlit("stopped");
    assert("playing"@[1] == 'l' && "paused"@[1] == 'a' && "stopped"@[1] == 't');
}

} // verus!
