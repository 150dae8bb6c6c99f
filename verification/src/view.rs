//! What the terminal interface shows, as texts and styles: the lists and tables,
//! the tab bar, the lyrics, the status bar and the spectrum.
use crate::library::{format_label, Song, SongView};
use crate::lyrics::LyricLine;
use crate::protocol::QueueRow;
use crate::screen::{HomeSection, Rows, RowsView, Screen, ScreenView, SectionView, Tab, UpdateState};
use crate::text;
use crate::time::{whole_secs, Duration, NANOS_PER_MILLI, NANOS_PER_SEC};
use crate::tui::{App, AppView, NowPlaying};
use vstd::prelude::*;

verus! {

/// How a text stands out.
#[derive(Debug, Clone, Copy, PartialEq, Eq, Structural)]
pub enum Style {
    Plain,
    Accent,
    Muted,
    /// The playback state, and starred songs.
    StateTag,
    Lossless,
    Selected,
}

/// A text in one style.
#[derive(Debug, PartialEq, Eq)]
pub struct Span {
    pub text: String,
    pub style: Style,
}

/// What a [`Span`] shows.
#[verifier::ext_equal]
pub struct SpanView {
    pub text: Seq<char>,
    pub style: Style,
}

impl View for Span {
    type V = SpanView;

    open spec fn view(&self) -> SpanView {
        SpanView { text: self.text@, style: self.style }
    }
}

/// What the spans show, in order.
pub open spec fn span_views(spans: Seq<Span>) -> Seq<SpanView> {
    spans.map_values(|s: Span| s@)
}

fn span(words: &str, style: Style) -> (s: Span)
    ensures
        s@ == (SpanView { text: words@, style }),
{
    Span { text: words.to_owned(), style }
}

fn push_span(spans: &mut Vec<Span>, s: Span)
    ensures
        span_views(final(spans)@) == span_views(old(spans)@).push(s@),
{
    spans.push(s);
    assert(span_views(spans@) =~= span_views(old(spans)@).push(s@));
}

/// A number below a hundred in two digits.
pub open spec fn two_digits(n: nat) -> Seq<char> {
    if n < 10 {
        "0"@ + text::decimal(n)
    } else {
        text::decimal(n)
    }
}

/// A number of seconds in minutes and seconds.
pub open spec fn clock_text(secs: nat) -> Seq<char> {
    text::decimal(secs / 60) + ":"@ + two_digits(secs % 60)
}

/// A time in minutes and seconds.
pub open spec fn time_text(d: Duration) -> Seq<char> {
    clock_text((d.nanos / NANOS_PER_SEC) as nat)
}

/// A time in minutes and seconds; what is left of a second is dropped.
pub fn fmt_time(d: Duration) -> (s: String)
    ensures
        s@ == time_text(d),
{
    clock(d.as_secs())
}

fn clock(secs: u128) -> (s: String)
    ensures
        s@ == clock_text(secs as nat),
{
    let left: u128 = secs % 60;
    let seconds: String = if left < 10 {
        "0".to_owned().concat(text::render(left).as_str())
    } else {
        text::render(left)
    };
    text::render(secs / 60).concat(":").concat(seconds.as_str())
}

/// The title of a list: with a cursor while its filter is edited, with the filter
/// where it has one, and with the keys that do something there.
pub open spec fn titled(base: Seq<char>, filter: Seq<char>, editing: bool, hint: Seq<char>) -> Seq<
    char,
> {
    if editing {
        " "@ + base + " \u{2014} filter: "@ + filter + "_  [Enter] apply  [Esc] cancel "@
    } else if filter.len() == 0 {
        " "@ + base + " \u{2014} "@ + hint + " "@
    } else {
        " "@ + base + " \u{2014} filter: "@ + filter + "  "@ + hint + " "@
    }
}

/// The title of a list, see [`titled`].
pub fn filter_hint_title(base: &str, filter: &str, editing: bool, hint: &str) -> (title: String)
    ensures
        title@ == titled(base@, filter@, editing, hint@),
{
    let head: String = " ".to_owned().concat(base);
    if editing {
        head.concat(" \u{2014} filter: ").concat(filter).concat("_  [Enter] apply  [Esc] cancel ")
    } else if filter.is_empty() {
        head.concat(" \u{2014} ").concat(hint).concat(" ")
    } else {
        head.concat(" \u{2014} filter: ").concat(filter).concat("  ").concat(hint).concat(" ")
    }
}

/// The keys of a list that opens what the cursor is on.
pub open spec fn open_hint() -> Seq<char> {
    "[Enter] open  [Esc] back"@
}

/// A playlist and how many songs it has.
pub open spec fn playlist_text(name: Seq<char>, songs: u32) -> Seq<char> {
    name + "  ("@ + text::decimal(songs as nat) + " songs)"@
}

/// One row of a list.
pub open spec fn item_text(rows: RowsView, i: int) -> Seq<char> {
    match rows {
        RowsView::Albums { albums, .. } => albums[i].name@ + "  \u{2014}  "@ + albums[i].artist@,
        RowsView::Artists(artists) => artists[i].name@ + "  ("@ + text::decimal(
            artists[i].album_count as nat,
        ) + " albums)"@,
        RowsView::Playlists(playlists) => playlist_text(
            playlists[i].name@,
            playlists[i].song_count,
        ),
        RowsView::Genres(genres) => genres[i].value@ + "  ("@ + text::decimal(
            genres[i].album_count as nat,
        ) + " albums, "@ + text::decimal(genres[i].song_count as nat) + " songs)"@,
        RowsView::Picker { playlists, .. } => playlist_text(
            playlists[i].name@,
            playlists[i].song_count,
        ),
        _ => Seq::empty(),
    }
}

fn item(rows: &Rows, i: usize) -> (s: String)
    requires
        i < crate::screen::row_count(rows@) || (rows@ matches RowsView::Picker { playlists, .. }
            && i < playlists.len()),
    ensures
        s@ == item_text(rows@, i as int),
{
    match rows {
        Rows::Albums { albums, .. } => albums[i].name.clone().concat("  \u{2014}  ").concat(
            albums[i].artist.as_str(),
        ),
        Rows::Artists(artists) => artists[i].name.clone().concat("  (").concat(
            text::render(artists[i].album_count as u128).as_str(),
        ).concat(" albums)"),
        Rows::Playlists(playlists) => playlists[i].name.clone().concat("  (").concat(
            text::render(playlists[i].song_count as u128).as_str(),
        ).concat(" songs)"),
        Rows::Genres(genres) => genres[i].value.clone().concat("  (").concat(
            text::render(genres[i].album_count as u128).as_str(),
        ).concat(" albums, ").concat(text::render(genres[i].song_count as u128).as_str()).concat(
            " songs)",
        ),
        Rows::Picker { playlists, .. } => playlists[i].name.clone().concat("  (").concat(
            text::render(playlists[i].song_count as u128).as_str(),
        ).concat(" songs)"),
        _ => {
            let none = String::new();
            assert(none@ =~= Seq::<char>::empty());
            none
        },
    }
}

/// One row of a table of songs.
#[derive(Debug, PartialEq, Eq)]
pub struct TableRow {
    pub artist: String,
    pub title: String,
    pub album: String,
    pub format: String,
    pub time: String,
    /// Whether this is the song that plays, as far as its title tells.
    pub playing: bool,
    pub lossless: bool,
    pub starred: bool,
    pub marked: bool,
}

/// What a [`TableRow`] shows.
#[verifier::ext_equal]
pub struct TableRowView {
    pub artist: Seq<char>,
    pub title: Seq<char>,
    pub album: Seq<char>,
    pub format: Seq<char>,
    pub time: Seq<char>,
    pub playing: bool,
    pub lossless: bool,
    pub starred: bool,
    pub marked: bool,
}

impl View for TableRow {
    type V = TableRowView;

    open spec fn view(&self) -> TableRowView {
        TableRowView {
            artist: self.artist@,
            title: self.title@,
            album: self.album@,
            format: self.format@,
            time: self.time@,
            playing: self.playing,
            lossless: self.lossless,
            starred: self.starred,
            marked: self.marked,
        }
    }
}

/// A title with a star before it, where it has one.
pub open spec fn star_text(title: Seq<char>, starred: bool) -> Seq<char> {
    if starred {
        "\u{2605} "@ + title
    } else {
        title
    }
}

fn with_star(title: &str, starred: bool) -> (s: String)
    ensures
        s@ == star_text(title@, starred),
{
    if starred {
        "\u{2605} ".to_owned().concat(title)
    } else {
        title.to_owned()
    }
}

/// Whether a title is that of the song that plays.
pub open spec fn plays(title: Seq<char>, now_title: Seq<char>) -> bool {
    now_title.len() > 0 && title == now_title
}

/// The row of a song.
pub open spec fn song_row(song: SongView, now_title: Seq<char>, marked: bool) -> TableRowView {
    TableRowView {
        artist: song.artist,
        title: star_text(song.title, song.starred is Some),
        album: song.album,
        format: if song.suffix.len() == 0 {
            Seq::empty()
        } else {
            crate::library::label_of(song.suffix, song.bit_rate)
        },
        time: clock_text(crate::time::whole_secs_in(song.duration.bits)),
        playing: plays(song.title, now_title),
        lossless: song.suffix.len() > 0 && crate::library::is_lossless(song.suffix),
        starred: song.starred is Some,
        marked,
    }
}

/// The row of a track of the queue.
pub open spec fn track_row(track: QueueRow, now_title: Seq<char>, marked: bool) -> TableRowView {
    TableRowView {
        artist: track.artist@,
        title: track.title@,
        album: track.album@,
        format: track.format_label@,
        time: time_text(track.duration),
        playing: plays(track.title@, now_title),
        lossless: track.lossless,
        starred: false,
        marked,
    }
}

/// One row of a table.
pub open spec fn table_row(s: ScreenView, i: int, now_title: Seq<char>) -> TableRowView {
    let marked = s.marked.contains(i as usize);
    match s.rows {
        RowsView::Songs { songs, .. } => song_row(songs[i], now_title, marked),
        RowsView::Search { results, .. } => song_row(results[i], now_title, marked),
        RowsView::Queue(tracks) => track_row(tracks[i], now_title, marked),
        _ => arbitrary_row(),
    }
}

/// The row of no song.
pub open spec fn arbitrary_row() -> TableRowView {
    TableRowView {
        artist: Seq::empty(),
        title: Seq::empty(),
        album: Seq::empty(),
        format: Seq::empty(),
        time: Seq::empty(),
        playing: false,
        lossless: false,
        starred: false,
        marked: false,
    }
}

fn is_playing(title: &str, now_title: &str) -> (r: bool)
    ensures
        r == plays(title@, now_title@),
{
    !now_title.is_empty() && text::same(title, now_title)
}

fn row_of_song(song: &Song, now_title: &str, marked: bool) -> (row: TableRow)
    ensures
        row@ == song_row(song@, now_title@, marked),
{
    let (format, lossless) = format_label(song.suffix.as_str(), song.bit_rate);
    assert(song.suffix@.len() == 0 ==> format@ =~= Seq::<char>::empty());
    let starred: bool = song.is_starred();
    TableRow {
        artist: song.artist.clone(),
        title: with_star(song.title.as_str(), starred),
        album: song.album.clone(),
        format,
        time: clock(whole_secs(song.duration) as u128),
        playing: is_playing(song.title.as_str(), now_title),
        lossless,
        starred,
        marked,
    }
}

fn row_of_track(track: &QueueRow, now_title: &str, marked: bool) -> (row: TableRow)
    ensures
        row@ == track_row(*track, now_title@, marked),
{
    TableRow {
        artist: track.artist.clone(),
        title: track.title.clone(),
        album: track.album.clone(),
        format: track.format_label.clone(),
        time: fmt_time(track.duration),
        playing: is_playing(track.title.as_str(), now_title),
        lossless: track.lossless,
        starred: false,
        marked,
    }
}

/// One list of the home screen.
#[derive(Debug, PartialEq, Eq)]
pub struct HomePane {
    pub title: String,
    /// The songs, or one line where there is nothing in the list.
    pub rows: Vec<Span>,
}

/// What a [`HomePane`] shows.
#[verifier::ext_equal]
pub struct PaneView {
    pub title: Seq<char>,
    pub rows: Seq<SpanView>,
}

impl View for HomePane {
    type V = PaneView;

    open spec fn view(&self) -> PaneView {
        PaneView { title: self.title@, rows: span_views(self.rows@) }
    }
}

/// What the panes show, in order.
pub open spec fn pane_views(panes: Seq<HomePane>) -> Seq<PaneView> {
    panes.map_values(|p: HomePane| p@)
}

/// One song of a list of the home screen. Only the one under the cursor is
/// highlighted.
pub open spec fn home_span(song: SongView, under_cursor: bool) -> SpanView {
    SpanView {
        text: star_text(song.title + "  \u{2014}  "@ + song.artist, song.starred is Some),
        style: if under_cursor {
            Style::Selected
        } else if song.starred is Some {
            Style::StateTag
        } else {
            Style::Plain
        },
    }
}

/// One list of the home screen, with the cursor at a row of it, if any. A list without
/// songs says so.
pub open spec fn pane_of(section: SectionView, cursor: Option<usize>) -> PaneView {
    PaneView {
        title: " "@ + section.kind.name()
            + " \u{2014} [Enter] play  [e]xpand  [a]dd  [f]avorite "@,
        rows: if section.songs.len() == 0 {
            seq![SpanView { text: "(nothing here yet)"@, style: Style::Muted }]
        } else {
            Seq::new(
                section.songs.len(),
                |i: int| home_span(section.songs[i], cursor is Some && cursor->0 == i),
            )
        },
    }
}

/// The lists of the home screen.
pub open spec fn panes_of(sections: Seq<SectionView>, focus: usize, selected: usize) -> Seq<
    PaneView,
> {
    Seq::new(
        sections.len(),
        |i: int|
            pane_of(
                sections[i],
                if i == focus {
                    Some(selected)
                } else {
                    None
                },
            ),
    )
}

fn make_pane(section: &HomeSection, cursor: Option<usize>) -> (pane: HomePane)
    ensures
        pane@ == pane_of(section@, cursor),
{
    let title: String = " ".to_owned().concat(section.kind.title()).concat(
        " \u{2014} [Enter] play  [e]xpand  [a]dd  [f]avorite ",
    );
    let mut rows: Vec<Span> = Vec::new();
    let ghost all = pane_of(section@, cursor).rows;
    if section.songs.len() == 0 {
        rows.push(Span { text: "(nothing here yet)".to_owned(), style: Style::Muted });
        assert(span_views(rows@) =~= all);
        return HomePane { title, rows };
    }
    let mut i: usize = 0;
    while i < section.songs.len()
        invariant
            i <= section.songs.len(),
            all == pane_of(section@, cursor).rows,
            span_views(rows@) == all.take(i as int),
        decreases section.songs.len() - i,
    {
        let song = &section.songs[i];
        let words: String = song.title.clone().concat("  \u{2014}  ").concat(song.artist.as_str());
        let starred: bool = song.is_starred();
        let here: bool = match cursor {
            Some(c) => c == i,
            None => false,
        };
        let style: Style = if here {
            Style::Selected
        } else if starred {
            Style::StateTag
        } else {
            Style::Plain
        };
        let line = Span { text: with_star(words.as_str(), starred), style };
        assert(line@ =~= all[i as int]);
        push_span(&mut rows, line);
        i = i + 1;
        assert(span_views(rows@) =~= all.take(i as int));
    }
    assert(all.take(i as int) =~= all);
    HomePane { title, rows }
}

fn make_panes(sections: &Vec<HomeSection>, focus: usize, selected: usize) -> (panes: Vec<HomePane>)
    ensures
        pane_views(panes@) == panes_of(
            crate::screen::section_views(sections@),
            focus,
            selected,
        ),
{
    let mut panes: Vec<HomePane> = Vec::new();
    let ghost all = panes_of(crate::screen::section_views(sections@), focus, selected);
    let mut i: usize = 0;
    while i < sections.len()
        invariant
            i <= sections.len(),
            all == panes_of(crate::screen::section_views(sections@), focus, selected),
            pane_views(panes@) == all.take(i as int),
        decreases sections.len() - i,
    {
        let ghost before = panes@;
        let cursor: Option<usize> = if i == focus {
            Some(selected)
        } else {
            None
        };
        let pane = make_pane(&sections[i], cursor);
        panes.push(pane);
        assert(pane_views(panes@) =~= pane_views(before).push(pane@));
        assert(pane@ == all[i as int]);
        i = i + 1;
        assert(pane_views(panes@) =~= all.take(i as int));
    }
    assert(all.take(i as int) =~= all);
    panes
}

/// What the screen shows between the tab bar and the status bar.
#[derive(Debug, PartialEq, Eq)]
pub enum Body {
    /// The keys, see [`bindings`].
    Help,
    List { title: String, items: Vec<String>, selected: Option<usize> },
    Table { title: String, rows: Vec<TableRow>, selected: Option<usize> },
    Home(Vec<HomePane>),
    Info { title: String, body: String, scroll: usize },
    Settings(Vec<String>),
}

/// What a [`Body`] shows.
#[verifier::ext_equal]
pub enum BodyView {
    Help,
    List { title: Seq<char>, items: Seq<Seq<char>>, selected: Option<usize> },
    Table { title: Seq<char>, rows: Seq<TableRowView>, selected: Option<usize> },
    Home(Seq<PaneView>),
    Info { title: Seq<char>, body: Seq<char>, scroll: usize },
    Settings(Seq<Seq<char>>),
}

/// What the rows of a table show, in order.
pub open spec fn row_views(rows: Seq<TableRow>) -> Seq<TableRowView> {
    rows.map_values(|r: TableRow| r@)
}

impl View for Body {
    type V = BodyView;

    open spec fn view(&self) -> BodyView {
        match *self {
            Body::Help => BodyView::Help,
            Body::List { title, items, selected } => BodyView::List {
                title: title@,
                items: crate::json::text_views(items@),
                selected,
            },
            Body::Table { title, rows, selected } => BodyView::Table {
                title: title@,
                rows: row_views(rows@),
                selected,
            },
            Body::Home(panes) => BodyView::Home(pane_views(panes@)),
            Body::Info { title, body, scroll } => BodyView::Info {
                title: title@,
                body: body@,
                scroll,
            },
            Body::Settings(lines) => BodyView::Settings(crate::json::text_views(lines@)),
        }
    }
}

/// The cursor of a list, which an empty one has not.
pub open spec fn cursor_in(len: nat, selected: usize) -> Option<usize> {
    if len > 0 {
        Some(selected)
    } else {
        None
    }
}

/// A list of what the filter leaves visible.
pub open spec fn list_body(s: ScreenView, title: Seq<char>) -> BodyView {
    let v = crate::screen::visible(s);
    BodyView::List {
        title,
        items: v.map_values(|i: usize| item_text(s.rows, i as int)),
        selected: cursor_in(v.len(), s.selected),
    }
}

/// A table of what the filter leaves visible.
pub open spec fn table_body(s: ScreenView, title: Seq<char>, now_title: Seq<char>) -> BodyView {
    let v = crate::screen::visible(s);
    BodyView::Table {
        title,
        rows: v.map_values(|i: usize| table_row(s, i as int, now_title)),
        selected: cursor_in(v.len(), s.selected),
    }
}

/// The keys of a list of songs.
pub open spec fn songs_hint(in_playlist: bool) -> Seq<char> {
    if in_playlist {
        "[Enter] play  [a]dd  [f]avorite  [P]laylist  [d]elete  [Esc] back"@
    } else {
        "[Enter] play  [a]dd  [f]avorite  [P]laylist  [Esc] back"@
    }
}

/// The title of a search.
pub open spec fn search_title(query: Seq<char>, editing: bool) -> Seq<char> {
    if editing {
        " Search: "@ + query + "_  [Enter] run  [Esc] stop editing "@
    } else {
        " Search: "@ + query + "  [Enter] play  [a]dd  [f]avorite  [/] new search "@
    }
}

/// The lines of the settings: what the program was built from, and how far the
/// check for an update has come.
pub open spec fn settings_lines(state: UpdateState, hash: Seq<char>, date: Seq<char>) -> Seq<
    Seq<char>,
> {
    let built = "Built from "@ + hash + "  "@ + date;
    match state {
        UpdateState::Unchecked => seq![built, "[c] check for updates"@],
        UpdateState::Checked(found) => if found.update_available {
            seq![
                built,
                "Update available: "@ + found.remote.sha@ + "  "@ + found.remote.date@,
                found.remote.summary@,
                "[u] install  [c] check again"@,
            ]
        } else {
            seq![built, "Up to date."@, "[c] check again"@]
        },
        UpdateState::Confirming(found) => seq![
            built,
            "Update available: "@ + found.remote.sha@ + "  "@ + found.remote.date@,
            found.remote.summary@,
            "Press u again to install."@,
        ],
        UpdateState::Installed => seq![
            built,
            "Installed. Restart the daemon and this program to run the new build."@,
        ],
    }
}

/// What the screen shows between the tab bar and the status bar. `hash` and `date`
/// are those of the commit that the program was built from.
pub open spec fn body_of(s: AppView, now_title: Seq<char>, hash: Seq<char>, date: Seq<char>) -> BodyView {
    let top = s.top();
    let editing = s.filter_editing;
    if s.show_help {
        BodyView::Help
    } else {
        match top.rows {
            RowsView::Albums { title, .. } => list_body(
                top,
                titled(title, top.filter, editing, open_hint()),
            ),
            RowsView::Artists(_) => list_body(
                top,
                titled("Artists"@, top.filter, editing, open_hint()),
            ),
            RowsView::Playlists(_) => list_body(
                top,
                titled("Playlists"@, top.filter, editing, open_hint()),
            ),
            RowsView::Genres(_) => list_body(
                top,
                titled("Genres"@, top.filter, editing, open_hint()),
            ),
            RowsView::Songs { title, playlist_id, .. } => table_body(
                top,
                titled(title, top.filter, editing, songs_hint(playlist_id is Some)),
                now_title,
            ),
            RowsView::Search { query, editing: typing, .. } => table_body(
                top,
                search_title(query, typing),
                now_title,
            ),
            RowsView::Queue(_) => table_body(
                top,
                titled(
                    "Queue"@,
                    top.filter,
                    editing,
                    "[Enter] jump  [J/K] move  [d]elete  [D] clear  [S]ave as playlist  [P]laylist  [Esc] back"@,
                ),
                now_title,
            ),
            RowsView::Home { sections, section } => BodyView::Home(
                panes_of(sections, section, top.selected),
            ),
            RowsView::Picker { playlists, .. } => BodyView::List {
                title: " Add to playlist \u{2014} [Enter] add  [Esc] cancel "@,
                items: Seq::new(playlists.len(), |i: int| item_text(top.rows, i)),
                selected: cursor_in(playlists.len(), top.selected),
            },
            RowsView::Info { title, body } => BodyView::Info {
                title: " "@ + title + " \u{2014} [Up/Down] scroll  [Esc] back "@,
                body,
                scroll: top.selected,
            },
            RowsView::Settings(state) => BodyView::Settings(settings_lines(state, hash, date)),
        }
    }
}

fn cursor_of(len: usize, selected: usize) -> (r: Option<usize>)
    ensures
        r == cursor_in(len as nat, selected),
{
    if len > 0 {
        Some(selected)
    } else {
        None
    }
}

fn make_list(top: &Screen, title: String) -> (b: Body)
    ensures
        b@ == list_body(top@, title@),
{
    let v = top.visible_indices();
    let _count: usize = top.rows.count();
    proof {
        crate::screen::visible_rows_match(top@);
    }
    let mut items: Vec<String> = Vec::new();
    let ghost all = v@.map_values(|i: usize| item_text(top@.rows, i as int));
    let mut i: usize = 0;
    while i < v.len()
        invariant
            i <= v.len(),
            forall|k: int| 0 <= k < v@.len() ==> (#[trigger] v@[k]) < crate::screen::row_count(
                top@.rows,
            ),
            all == v@.map_values(|i: usize| item_text(top@.rows, i as int)),
            crate::json::text_views(items@) == all.take(i as int),
        decreases v.len() - i,
    {
        let ghost before = items@;
        let line: String = item(&top.rows, v[i]);
        items.push(line);
        assert(crate::json::text_views(items@) =~= crate::json::text_views(before).push(line@));
        i = i + 1;
        assert(crate::json::text_views(items@) =~= all.take(i as int));
    }
    assert(all.take(i as int) =~= all);
    Body::List { title, items, selected: cursor_of(v.len(), top.selected) }
}

fn make_row(top: &Screen, i: usize, now_title: &str) -> (row: TableRow)
    requires
        i < crate::screen::row_count(top@.rows),
        top@.rows is Songs || top@.rows is Search || top@.rows is Queue,
    ensures
        row@ == table_row(top@, i as int, now_title@),
{
    let marked: bool = crate::screen::holds(&top.marked, i);
    match &top.rows {
        Rows::Songs { songs, .. } => row_of_song(&songs[i], now_title, marked),
        Rows::Search { results, .. } => row_of_song(&results[i], now_title, marked),
        Rows::Queue(tracks) => row_of_track(&tracks[i], now_title, marked),
        _ => TableRow {
            artist: String::new(),
            title: String::new(),
            album: String::new(),
            format: String::new(),
            time: String::new(),
            playing: false,
            lossless: false,
            starred: false,
            marked: false,
        },
    }
}

fn make_table(top: &Screen, title: String, now_title: &str) -> (b: Body)
    requires
        top@.rows is Songs || top@.rows is Search || top@.rows is Queue,
    ensures
        b@ == table_body(top@, title@, now_title@),
{
    let v = top.visible_indices();
    let _count: usize = top.rows.count();
    proof {
        crate::screen::visible_rows_match(top@);
    }
    let mut rows: Vec<TableRow> = Vec::new();
    let ghost all = v@.map_values(|i: usize| table_row(top@, i as int, now_title@));
    let mut i: usize = 0;
    while i < v.len()
        invariant
            i <= v.len(),
            top@.rows is Songs || top@.rows is Search || top@.rows is Queue,
            forall|k: int| 0 <= k < v@.len() ==> (#[trigger] v@[k]) < crate::screen::row_count(
                top@.rows,
            ),
            all == v@.map_values(|i: usize| table_row(top@, i as int, now_title@)),
            row_views(rows@) == all.take(i as int),
        decreases v.len() - i,
    {
        let ghost before = rows@;
        let row = make_row(top, v[i], now_title);
        rows.push(row);
        assert(row_views(rows@) =~= row_views(before).push(row@));
        i = i + 1;
        assert(row_views(rows@) =~= all.take(i as int));
    }
    assert(all.take(i as int) =~= all);
    Body::Table { title, rows, selected: cursor_of(v.len(), top.selected) }
}

fn make_settings(state: &UpdateState, hash: &str, date: &str) -> (lines: Vec<String>)
    ensures
        crate::json::text_views(lines@) == settings_lines(*state, hash@, date@),
{
    let mut lines: Vec<String> = Vec::new();
    lines.push("Built from ".to_owned().concat(hash).concat("  ").concat(date));
    match state {
        UpdateState::Unchecked => {
            lines.push("[c] check for updates".to_owned());
        },
        UpdateState::Checked(found) => {
            if found.update_available {
                lines.push(
                    "Update available: ".to_owned().concat(found.remote.sha.as_str()).concat(
                        "  ",
                    ).concat(found.remote.date.as_str()),
                );
                lines.push(found.remote.summary.clone());
                lines.push("[u] install  [c] check again".to_owned());
            } else {
                lines.push("Up to date.".to_owned());
                lines.push("[c] check again".to_owned());
            }
        },
        UpdateState::Confirming(found) => {
            lines.push(
                "Update available: ".to_owned().concat(found.remote.sha.as_str()).concat(
                    "  ",
                ).concat(found.remote.date.as_str()),
            );
            lines.push(found.remote.summary.clone());
            lines.push("Press u again to install.".to_owned());
        },
        UpdateState::Installed => {
            lines.push(
                "Installed. Restart the daemon and this program to run the new build.".to_owned(),
            );
        },
    }
    assert(crate::json::text_views(lines@) =~= settings_lines(*state, hash@, date@));
    lines
}

/// What the screen shows between the tab bar and the status bar, see [`body_of`].
pub fn body(app: &App, now: &NowPlaying, hash: &str, date: &str) -> (b: Body)
    requires
        app@.wf(),
    ensures
        b@ == body_of(app@, now.title@, hash@, date@),
{
    if app.show_help {
        return Body::Help;
    }
    let n: usize = app.stack.len();
    assert(crate::tui::screen_views(app.stack@).last() == app.stack@.last()@);
    let top = &app.stack[n - 1];
    let editing: bool = app.filter_editing;
    let filter: &str = top.filter.as_str();
    let open: &str = "[Enter] open  [Esc] back";
    match &top.rows {
        Rows::Albums { title, .. } => make_list(
            top,
            filter_hint_title(title.as_str(), filter, editing, open),
        ),
        Rows::Artists(_) => make_list(top, filter_hint_title("Artists", filter, editing, open)),
        Rows::Playlists(_) => make_list(
            top,
            filter_hint_title("Playlists", filter, editing, open),
        ),
        Rows::Genres(_) => make_list(top, filter_hint_title("Genres", filter, editing, open)),
        Rows::Songs { title, playlist_id, .. } => {
            let hint: &str = if playlist_id.is_some() {
                "[Enter] play  [a]dd  [f]avorite  [P]laylist  [d]elete  [Esc] back"
            } else {
                "[Enter] play  [a]dd  [f]avorite  [P]laylist  [Esc] back"
            };
            make_table(
                top,
                filter_hint_title(title.as_str(), filter, editing, hint),
                now.title.as_str(),
            )
        },
        Rows::Search { query, editing: typing, .. } => {
            let head: String = " Search: ".to_owned().concat(query.as_str());
            let title: String = if *typing {
                head.concat("_  [Enter] run  [Esc] stop editing ")
            } else {
                head.concat("  [Enter] play  [a]dd  [f]avorite  [/] new search ")
            };
            make_table(top, title, now.title.as_str())
        },
        Rows::Queue(_) => make_table(
            top,
            filter_hint_title(
                "Queue",
                filter,
                editing,
                "[Enter] jump  [J/K] move  [d]elete  [D] clear  [S]ave as playlist  [P]laylist  [Esc] back",
            ),
            now.title.as_str(),
        ),
        Rows::Home { sections, section } => Body::Home(
            make_panes(sections, *section, top.selected),
        ),
        Rows::Picker { playlists, .. } => {
            let mut items: Vec<String> = Vec::new();
            let ghost all = Seq::new(playlists@.len(), |i: int| item_text(top@.rows, i));
            let mut i: usize = 0;
            while i < playlists.len()
                invariant
                    i <= playlists.len(),
                    top@.rows matches RowsView::Picker { playlists: p, .. } && p == playlists@,
                    all == Seq::new(playlists@.len(), |i: int| item_text(top@.rows, i)),
                    crate::json::text_views(items@) == all.take(i as int),
                decreases playlists.len() - i,
            {
                let ghost before = items@;
                let line: String = item(&top.rows, i);
                items.push(line);
                assert(crate::json::text_views(items@) =~= crate::json::text_views(before).push(
                    line@,
                ));
                i = i + 1;
                assert(crate::json::text_views(items@) =~= all.take(i as int));
            }
            assert(all.take(i as int) =~= all);
            Body::List {
                title: " Add to playlist \u{2014} [Enter] add  [Esc] cancel ".to_owned(),
                items,
                selected: cursor_of(playlists.len(), top.selected),
            }
        },
        Rows::Info { title, body } => Body::Info {
            title: " ".to_owned().concat(title.as_str()).concat(
                " \u{2014} [Up/Down] scroll  [Esc] back ",
            ),
            body: body.clone(),
            scroll: top.selected,
        },
        Rows::Settings(state) => Body::Settings(make_settings(state, hash, date)),
    }
}

/// One tab of the tab bar, and whether it is the active one.
pub open spec fn tab_span(active: Tab, i: int) -> (Seq<char>, bool) {
    let tab = Tab::at(i)->0;
    (
        " "@ + text::decimal((i + 1) as nat) + " "@ + tab.name() + " "@,
        tab == active,
    )
}

/// What the entries of the tab bar say, in order.
pub open spec fn tab_views(tabs: Seq<(String, bool)>) -> Seq<(Seq<char>, bool)> {
    tabs.map_values(|t: (String, bool)| (t.0@, t.1))
}

/// The tab bar: each tab with its digit and its name, and whether it is the active
/// one.
pub fn tab_bar(active: Tab) -> (tabs: Vec<(String, bool)>)
    ensures
        tab_views(tabs@) == Seq::new(
            crate::screen::TAB_COUNT as nat,
            |i: int| tab_span(active, i),
        ),
{
    let mut tabs: Vec<(String, bool)> = Vec::new();
    let ghost all = Seq::new(crate::screen::TAB_COUNT as nat, |i: int| tab_span(active, i));
    let mut i: usize = 0;
    while i < crate::screen::TAB_COUNT
        invariant
            i <= crate::screen::TAB_COUNT,
            all == Seq::new(crate::screen::TAB_COUNT as nat, |i: int| tab_span(active, i)),
            tab_views(tabs@) == all.take(i as int),
        decreases crate::screen::TAB_COUNT - i,
    {
        let ghost before = tabs@;
        let tab: Tab = match Tab::from_index(i) {
            Some(tab) => tab,
            None => Tab::Home,
        };
        let label: String = " ".to_owned().concat(text::render(i as u128 + 1).as_str()).concat(
            " ",
        ).concat(tab.label()).concat(" ");
        let on: bool = tab == active;
        tabs.push((label, on));
        assert(tab_views(tabs@) =~= tab_views(before).push((label@, on)));
        assert(all[i as int] == (label@, on));
        i = i + 1;
        assert(tab_views(tabs@) =~= all.take(i as int));
    }
    assert(all.take(i as int) =~= all);
    tabs
}

/// Whether the lyrics show: where they are switched on and a track is current.
pub fn shows_lyrics(app: &App, now: &NowPlaying) -> (r: bool)
    ensures
        r == (app@.lyrics_open && now.song_id@.len() > 0),
{
    app.lyrics_open && !now.song_id.as_str().is_empty()
}

/// The line of the status bar that names the track: its title, its artist, its
/// format, its place in the queue. A message for the user takes its place.
pub open spec fn track_spans(message: Seq<char>, now: NowPlaying) -> Seq<SpanView> {
    let title = if now.title@.len() == 0 {
        "(nothing loaded)"@
    } else {
        now.title@
    };
    let artist = if now.artist@.len() == 0 {
        Seq::empty()
    } else {
        seq![
            SpanView { text: "  \u{2014}  "@, style: Style::Plain },
            SpanView { text: now.artist@, style: Style::Plain },
        ]
    };
    let format = if now.format_label@.len() == 0 {
        Seq::empty()
    } else {
        seq![
            SpanView { text: "   "@, style: Style::Plain },
            SpanView {
                text: "["@ + now.format_label@ + "]"@,
                style: if now.lossless {
                    Style::Lossless
                } else {
                    Style::Muted
                },
            },
        ]
    };
    let place = if now.queue_len == 0 {
        Seq::empty()
    } else {
        seq![
            SpanView {
                text: "   ["@ + text::decimal((now.queue_index + 1) as nat) + " of "@
                    + text::decimal(now.queue_len as nat) + "]"@,
                style: Style::Muted,
            },
        ]
    };
    if message.len() > 0 {
        seq![SpanView { text: message, style: Style::Plain }]
    } else {
        seq![SpanView { text: title, style: Style::Accent }] + artist + format + place
    }
}

/// The line of the status bar that names the track, see [`track_spans`].
pub fn track_line(message: &str, now: &NowPlaying) -> (spans: Vec<Span>)
    ensures
        span_views(spans@) == track_spans(message@, *now),
{
    let mut spans: Vec<Span> = Vec::new();
    if !message.is_empty() {
        push_span(&mut spans, span(message, Style::Plain));
        assert(span_views(spans@) =~= track_spans(message@, *now));
        return spans;
    }
    if now.title.as_str().is_empty() {
        push_span(&mut spans, span("(nothing loaded)", Style::Accent));
    } else {
        push_span(&mut spans, span(now.title.as_str(), Style::Accent));
    }
    if !now.artist.as_str().is_empty() {
        push_span(&mut spans, span("  \u{2014}  ", Style::Plain));
        push_span(&mut spans, span(now.artist.as_str(), Style::Plain));
    }
    if !now.format_label.as_str().is_empty() {
        let style: Style = if now.lossless {
            Style::Lossless
        } else {
            Style::Muted
        };
        push_span(&mut spans, span("   ", Style::Plain));
        let label: String = "[".to_owned().concat(now.format_label.as_str()).concat("]");
        push_span(&mut spans, Span { text: label, style });
    }
    if now.queue_len > 0 {
        let place: String = "   [".to_owned().concat(
            text::render(now.queue_index as u128 + 1).as_str(),
        ).concat(" of ").concat(text::render(now.queue_len as u128).as_str()).concat("]");
        push_span(&mut spans, Span { text: place, style: Style::Muted });
    }
    assert(span_views(spans@) =~= track_spans(message@, *now));
    spans
}

/// The times in the progress gauge: how far the track is, and how long where that
/// is known.
pub open spec fn progress_text(now: NowPlaying) -> Seq<char> {
    if now.duration.nanos > 0 {
        time_text(now.position) + " / "@ + time_text(now.duration)
    } else {
        time_text(now.position)
    }
}

/// The times in the progress gauge, see [`progress_text`].
pub fn progress_label(now: &NowPlaying) -> (label: String)
    ensures
        label@ == progress_text(*now),
{
    let position: String = fmt_time(now.position);
    if now.duration.nanos > 0 {
        position.concat(" / ").concat(fmt_time(now.duration).as_str())
    } else {
        position
    }
}

/// The line of the status bar that tells the playback state, the modes that are on,
/// the volume, and the most important keys.
pub open spec fn state_spans(now: NowPlaying, slider: Seq<char>) -> Seq<SpanView> {
    let state = seq![
        SpanView { text: "["@, style: Style::StateTag },
        SpanView { text: text::upper_cased(now.status@), style: Style::StateTag },
        SpanView { text: "]"@, style: Style::StateTag },
    ];
    let repeat = if now.repeat@ == "off"@ {
        Seq::empty()
    } else {
        seq![
            SpanView { text: " "@, style: Style::Plain },
            SpanView { text: "[repeat:"@ + now.repeat@ + "]"@, style: Style::Accent },
        ]
    };
    let shuffle = if now.shuffle {
        seq![
            SpanView { text: " "@, style: Style::Plain },
            SpanView { text: "[shuffle]"@, style: Style::Accent },
        ]
    } else {
        Seq::empty()
    };
    let rest = seq![
        SpanView { text: "  "@, style: Style::Muted },
        SpanView { text: slider, style: Style::Muted },
        SpanView {
            text: "   [space] play/pause  [\u{2190}/\u{2192}] seek  [n]ext [p]rev  [s]top  [?] help"@,
            style: Style::Muted,
        },
    ];
    state + repeat + shuffle + rest
}

/// The line of the status bar that tells the playback state, see [`state_spans`].
pub fn state_line(now: &NowPlaying, slider: &str) -> (spans: Vec<Span>)
    ensures
        span_views(spans@) == state_spans(*now, slider@),
{
    let mut spans: Vec<Span> = Vec::new();
    push_span(&mut spans, span("[", Style::StateTag));
    push_span(
        &mut spans,
        Span { text: text::to_uppercase(now.status.as_str()), style: Style::StateTag },
    );
    push_span(&mut spans, span("]", Style::StateTag));
    if !text::same(now.repeat.as_str(), "off") {
        push_span(&mut spans, span(" ", Style::Plain));
        let mode: String = "[repeat:".to_owned().concat(now.repeat.as_str()).concat("]");
        push_span(&mut spans, Span { text: mode, style: Style::Accent });
    }
    if now.shuffle {
        push_span(&mut spans, span(" ", Style::Plain));
        push_span(&mut spans, span("[shuffle]", Style::Accent));
    }
    push_span(&mut spans, span("  ", Style::Muted));
    push_span(&mut spans, span(slider, Style::Muted));
    push_span(
        &mut spans,
        span(
            "   [space] play/pause  [\u{2190}/\u{2192}] seek  [n]ext [p]rev  [s]top  [?] help",
            Style::Muted,
        ),
    );
    assert(span_views(spans@) =~= state_spans(*now, slider@));
    spans
}

/// Whether a list of `len` rows needs a scrollbar in a frame of `height` lines, two
/// of which are its border.
pub fn needs_scrollbar(len: usize, height: u16) -> (r: bool)
    ensures
        r == (len > 0 && len > height - 2),
{
    let viewport: usize = if height > 2 {
        (height - 2) as usize
    } else {
        0
    };
    len > 0 && len > viewport
}

/// How many places the volume slider has.
pub const SLIDER_WIDTH: usize = 10;

/// Where the volume slider's marker is, for a volume of `tenths` tenths: full volume
/// is its last place.
pub open spec fn marker_at(tenths: usize) -> int {
    if tenths < SLIDER_WIDTH {
        tenths as int
    } else {
        SLIDER_WIDTH - 1
    }
}

/// One place of the volume slider.
pub open spec fn slider_cell(tenths: usize, i: int) -> char {
    if i == marker_at(tenths) {
        '\u{25cf}'
    } else {
        '\u{2500}'
    }
}

/// A number in at least three places, filled up with spaces before it.
pub open spec fn three_wide(n: nat) -> Seq<char> {
    if n < 10 {
        "  "@ + text::decimal(n)
    } else if n < 100 {
        " "@ + text::decimal(n)
    } else {
        text::decimal(n)
    }
}

/// The volume slider, for a volume that rounds to `tenths` tenths and to `percent`
/// percent.
pub fn volume_slider(tenths: usize, percent: u32) -> (s: String)
    ensures
        s@ == Seq::new(SLIDER_WIDTH as nat, |i: int| slider_cell(tenths, i)) + " "@ + three_wide(
            percent as nat,
        ) + "%"@,
{
    let mut bar = String::new();
    let ghost all = Seq::new(SLIDER_WIDTH as nat, |i: int| slider_cell(tenths, i));
    let marker: usize = if tenths < SLIDER_WIDTH {
        tenths
    } else {
        SLIDER_WIDTH - 1
    };
    let mut i: usize = 0;
    while i < SLIDER_WIDTH
        invariant
            i <= SLIDER_WIDTH,
            marker == marker_at(tenths),
            all == Seq::new(SLIDER_WIDTH as nat, |i: int| slider_cell(tenths, i)),
            bar@ == all.take(i as int),
        decreases SLIDER_WIDTH - i,
    {
        if i == marker {
            bar.push('\u{25cf}');
        } else {
            bar.push('\u{2500}');
        }
        i = i + 1;
        assert(bar@ =~= all.take(i as int));
    }
    assert(all.take(i as int) =~= all);
    let number: String = text::render(percent as u128);
    let padded: String = if percent < 10 {
        "  ".to_owned().concat(number.as_str())
    } else if percent < 100 {
        " ".to_owned().concat(number.as_str())
    } else {
        number
    };
    bar.concat(" ").concat(padded.as_str()).concat("%")
}

/// The volume slider always shows its marker, once.
pub proof fn slider_shows_marker(tenths: usize)
    ensures
        0 <= marker_at(tenths) < SLIDER_WIDTH,
        forall|i: int|
            0 <= i < SLIDER_WIDTH ==> ((#[trigger] slider_cell(tenths, i)) == '\u{25cf}' <==> i
                == marker_at(tenths)),
{
}

/// What the lyrics panel shows.
#[derive(Debug, PartialEq, Eq)]
pub enum LyricsPane {
    /// A word to the user in place of lyrics.
    Note(String),
    /// The lyrics, with the line that is sung, if any, and how many lines are
    /// scrolled out at the top.
    Lines { active: Option<usize>, scroll: usize },
}

/// A position in milliseconds, to the nearest.
pub open spec fn nearest_millis(d: Duration) -> i64 {
    let ms = (d.nanos + NANOS_PER_MILLI / 2) / (NANOS_PER_MILLI as int);
    if ms > i64::MAX {
        i64::MAX
    } else {
        ms as i64
    }
}

/// The last line that has started by `now_ms`.
pub open spec fn sung_line(lines: Seq<LyricLine>, now_ms: i64) -> Option<int>
    decreases lines.len(),
{
    if lines.len() == 0 {
        None
    } else {
        match lines.last().start_ms {
            Some(start) => if start <= now_ms {
                Some(lines.len() - 1)
            } else {
                sung_line(lines.drop_last(), now_ms)
            },
            None => sung_line(lines.drop_last(), now_ms),
        }
    }
}

/// A place in a list, where there is one.
pub open spec fn as_index(place: Option<int>) -> Option<usize> {
    match place {
        Some(i) => Some(i as usize),
        None => None,
    }
}

/// How many lines are scrolled out at the top of a panel of `height` lines: the line
/// that is sung is a third of the way down, as far as there are lines before it.
pub open spec fn lyrics_scroll(active: Option<int>, len: nat, height: u16) -> int {
    match active {
        Some(i) => {
            let top = i - height / 3;
            if top < 0 {
                0
            } else if top >= len {
                len - 1
            } else {
                top
            }
        },
        None => 0,
    }
}

/// The last line that is sung has started, and every later one has not.
pub proof fn sung_line_is_last_started(lines: Seq<LyricLine>, now_ms: i64)
    ensures
        match sung_line(lines, now_ms) {
            Some(i) => {
                &&& 0 <= i < lines.len()
                &&& lines[i].start_ms is Some && lines[i].start_ms->0 <= now_ms
                &&& forall|k: int|
                    i < k < lines.len() ==> !((#[trigger] lines[k]).start_ms is Some
                        && lines[k].start_ms->0 <= now_ms)
            },
            None => forall|k: int|
                0 <= k < lines.len() ==> !((#[trigger] lines[k]).start_ms is Some
                    && lines[k].start_ms->0 <= now_ms),
        },
    decreases lines.len(),
{
    if lines.len() > 0 {
        let init = lines.drop_last();
        sung_line_is_last_started(init, now_ms);
        assert forall|k: int| 0 <= k < init.len() implies #[trigger] lines[k] == init[k] by {}
    }
}

fn millis_of(d: Duration) -> (ms: i64)
    ensures
        ms == nearest_millis(d),
{
    let half: u128 = NANOS_PER_MILLI / 2;
    let over: u128 = d.nanos % NANOS_PER_MILLI;
    let whole: u128 = d.nanos / NANOS_PER_MILLI;
    let ms: u128 = if over >= half {
        whole + 1
    } else {
        whole
    };
    assert(ms == (d.nanos + half) / (NANOS_PER_MILLI as int));
    if ms > 0x7fff_ffff_ffff_ffff {
        i64::MAX
    } else {
        ms as i64
    }
}

/// What the lyrics panel shows, in `height` lines.
pub fn lyrics_pane(app: &App, position: Duration, height: u16) -> (pane: LyricsPane)
    ensures
        match app@.lyrics {
            None => pane matches LyricsPane::Note(words) && words@ == (if app@.current_lyrics_song_id
                is Some {
                "Loading lyrics\u{2026}"@
            } else {
                "(nothing playing)"@
            }),
            Some(lines) => if lines.len() == 0 {
                pane matches LyricsPane::Note(words) && words@
                    == "No lyrics found for this track."@
            } else {
                pane matches LyricsPane::Lines { active, scroll } && active == as_index(
                    sung_line(lines, nearest_millis(position)),
                ) && scroll == lyrics_scroll(
                    sung_line(lines, nearest_millis(position)),
                    lines.len(),
                    height,
                )
            },
        },
{
    let lines = match &app.lyrics {
        None => {
            return if app.current_lyrics_song_id.is_some() {
                LyricsPane::Note("Loading lyrics\u{2026}".to_owned())
            } else {
                LyricsPane::Note("(nothing playing)".to_owned())
            };
        },
        Some(lines) => lines,
    };
    if lines.len() == 0 {
        return LyricsPane::Note("No lyrics found for this track.".to_owned());
    }
    let now_ms: i64 = millis_of(position);
    let mut i: usize = lines.len();
    let mut active: Option<usize> = None;
    assert(lines@.take(i as int) =~= lines@);
    while i > 0 && active.is_none()
        invariant
            i <= lines.len(),
            match active {
                None => sung_line(lines@, now_ms) == sung_line(lines@.take(i as int), now_ms),
                Some(k) => sung_line(lines@, now_ms) == Some(k as int) && k < lines@.len(),
            },
        decreases i,
    {
        i = i - 1;
        assert(lines@.take(i + 1).drop_last() =~= lines@.take(i as int));
        match lines[i].start_ms {
            Some(start) => {
                if start <= now_ms {
                    active = Some(i);
                }
            },
            None => {},
        }
    }
    let third: usize = (height / 3) as usize;
    let scroll: usize = match active {
        Some(k) => {
            let top: usize = if k > third {
                k - third
            } else {
                0
            };
            top
        },
        None => 0,
    };
    LyricsPane::Lines { active, scroll }
}

/// How bright a row of the spectrum is.
#[derive(Debug, Clone, Copy, PartialEq, Eq, Structural)]
pub enum Glow {
    /// Near the top, where only loud bars reach.
    Bright,
    Normal,
    Dim,
}

/// One row of the spectrum.
#[derive(Debug, PartialEq, Eq)]
pub struct SpectrumRow {
    pub cells: String,
    pub glow: Glow,
}

/// What a [`SpectrumRow`] shows.
#[verifier::ext_equal]
pub struct SpectrumRowView {
    pub cells: Seq<char>,
    pub glow: Glow,
}

impl View for SpectrumRow {
    type V = SpectrumRowView;

    open spec fn view(&self) -> SpectrumRowView {
        SpectrumRowView { cells: self.cells@, glow: self.glow }
    }
}

/// What the rows of the spectrum show, from the top down.
pub open spec fn spectrum_views(rows: Seq<SpectrumRow>) -> Seq<SpectrumRowView> {
    rows.map_values(|r: SpectrumRow| r@)
}

/// The highest level of a spectrum bar.
pub const MAX_LEVEL: u8 = 7;

/// How high a bar is, in eighths of a row, on `rows` rows: the highest level fills
/// them all.
pub open spec fn bar_eighths(level: u8, rows: nat) -> int {
    (16 * (level * rows) + MAX_LEVEL) / (2 * MAX_LEVEL)
}

/// The character of a bar that is `eighths` eighths high in the row that is `up` rows
/// from the bottom.
pub open spec fn bar_char(eighths: int, up: int) -> char {
    let full = eighths / 8;
    let left = eighths % 8;
    if up < full {
        '\u{2588}'
    } else if up == full && left > 0 {
        (0x2580 + left) as char
    } else {
        ' '
    }
}

/// One bar in one row: its character, over the width of the bar, and a gap where
/// there is room for one.
pub open spec fn bar_cells(c: char, fill: nat, gap: nat) -> Seq<char> {
    Seq::new(fill, |i: int| c) + Seq::new(gap, |i: int| ' ')
}

/// One row of the spectrum: the bars side by side.
pub open spec fn bars_in_row(levels: Seq<u8>, rows: nat, up: int, fill: nat, gap: nat) -> Seq<char>
    decreases levels.len(),
{
    if levels.len() == 0 {
        Seq::empty()
    } else {
        bars_in_row(levels.drop_last(), rows, up, fill, gap) + bar_cells(
            bar_char(bar_eighths(levels.last(), rows), up),
            fill,
            gap,
        )
    }
}

/// How many columns each of `count` bars has in `width` columns.
pub open spec fn bar_slot(width: u16, count: nat) -> nat {
    let slot = width as nat / count;
    if slot > 1 {
        slot
    } else {
        1
    }
}

/// How bright the row `r` from the top of `rows` rows is.
pub open spec fn row_glow(r: int, rows: nat) -> Glow {
    if r < rows / 3 {
        Glow::Bright
    } else if r < rows * 2 / 3 {
        Glow::Normal
    } else {
        Glow::Dim
    }
}

/// The rows of the spectrum, from the top down: the bars stretched over the whole
/// area. Without a bar, a note stands in the middle.
pub open spec fn spectrum_shown(levels: Seq<u8>, width: u16, height: u16) -> Seq<SpectrumRowView> {
    let rows: nat = if height == 0 {
        1
    } else {
        height as nat
    };
    let slot = bar_slot(width, levels.len());
    let gap: nat = if slot > 1 {
        1
    } else {
        0
    };
    Seq::new(
        rows,
        |r: int|
            if levels.len() == 0 {
                SpectrumRowView {
                    cells: if r == rows / 2 {
                        "(no signal)"@
                    } else {
                        Seq::empty()
                    },
                    glow: Glow::Dim,
                }
            } else {
                SpectrumRowView {
                    cells: bars_in_row(
                        levels,
                        rows,
                        rows - 1 - r,
                        (slot - gap) as nat,
                        gap,
                    ),
                    glow: row_glow(r, rows),
                }
            },
    )
}

fn bar_glyph(level: u8, rows: usize, up: usize) -> (c: char)
    requires
        1 <= rows <= 0xffff,
    ensures
        c == bar_char(bar_eighths(level, rows as nat), up as int),
{
    assert(0 <= level * rows <= 255 * 0xffff) by (nonlinear_arith)
        requires
            level <= 255,
            1 <= rows <= 0xffff,
    ;
    let product: u64 = level as u64 * rows as u64;
    let eighths: u64 = (16 * product + MAX_LEVEL as u64) / (2 * MAX_LEVEL as u64);
    let full: u64 = eighths / 8;
    let left: u64 = eighths % 8;
    if (up as u64) < full {
        '\u{2588}'
    } else if up as u64 == full && left > 0 {
        if left == 1 {
            '\u{2581}'
        } else if left == 2 {
            '\u{2582}'
        } else if left == 3 {
            '\u{2583}'
        } else if left == 4 {
            '\u{2584}'
        } else if left == 5 {
            '\u{2585}'
        } else if left == 6 {
            '\u{2586}'
        } else {
            '\u{2587}'
        }
    } else {
        ' '
    }
}

fn push_repeated(line: &mut String, c: char, count: usize)
    ensures
        final(line)@ == old(line)@ + Seq::new(count as nat, |i: int| c),
{
    let mut i: usize = 0;
    let ghost all = Seq::new(count as nat, |i: int| c);
    assert(line@ =~= old(line)@ + all.take(0));
    while i < count
        invariant
            i <= count,
            all == Seq::new(count as nat, |i: int| c),
            line@ == old(line)@ + all.take(i as int),
        decreases count - i,
    {
        line.push(c);
        i = i + 1;
        assert(line@ =~= old(line)@ + all.take(i as int));
    }
    assert(all.take(i as int) =~= all);
}

/// The rows of the spectrum, see [`spectrum_shown`].
pub fn spectrum_rows(levels: &[u8], width: u16, height: u16) -> (out: Vec<SpectrumRow>)
    ensures
        spectrum_views(out@) == spectrum_shown(levels@, width, height),
{
    let rows: usize = if height == 0 {
        1
    } else {
        height as usize
    };
    let mut out: Vec<SpectrumRow> = Vec::new();
    let ghost all = spectrum_shown(levels@, width, height);
    let slot: usize = if levels.len() == 0 {
        1
    } else {
        let s: usize = width as usize / levels.len();
        if s > 1 {
            s
        } else {
            1
        }
    };
    let gap: usize = if slot > 1 {
        1
    } else {
        0
    };
    let fill: usize = slot - gap;
    let mut r: usize = 0;
    while r < rows
        invariant
            r <= rows,
            1 <= rows <= 0xffff,
            rows == (if height == 0 {
                1
            } else {
                height as int
            }),
            levels@.len() > 0 ==> slot == bar_slot(width, levels@.len()),
            gap == (if slot > 1 {
                1int
            } else {
                0
            }),
            fill == slot - gap,
            all == spectrum_shown(levels@, width, height),
            spectrum_views(out@) == all.take(r as int),
        decreases rows - r,
    {
        let ghost before = out@;
        let mut cells = String::new();
        assert(cells@ =~= Seq::<char>::empty());
        let mut glow: Glow = Glow::Dim;
        if levels.len() == 0 {
            if r == rows / 2 {
                cells = "(no signal)".to_owned();
            }
        } else {
            let up: usize = rows - 1 - r;
            let mut k: usize = 0;
            while k < levels.len()
                invariant
                    k <= levels.len(),
                    1 <= rows <= 0xffff,
                    cells@ == bars_in_row(
                        levels@.take(k as int),
                        rows as nat,
                        up as int,
                        fill as nat,
                        gap as nat,
                    ),
                decreases levels.len() - k,
            {
                let c: char = bar_glyph(levels[k], rows, up);
                let ghost so_far = cells@;
                push_repeated(&mut cells, c, fill);
                push_repeated(&mut cells, ' ', gap);
                assert(cells@ =~= so_far + bar_cells(c, fill as nat, gap as nat));
                assert(levels@.take(k + 1).drop_last() =~= levels@.take(k as int));
                assert(levels@.take(k + 1).last() == levels@[k as int]);
                k = k + 1;
            }
            assert(levels@.take(k as int) =~= levels@);
            glow = if r < rows / 3 {
                Glow::Bright
            } else if r < rows * 2 / 3 {
                Glow::Normal
            } else {
                Glow::Dim
            };
        }
        let row = SpectrumRow { cells, glow };
        assert(row@ =~= all[r as int]);
        out.push(row);
        assert(spectrum_views(out@) =~= spectrum_views(before).push(row@));
        r = r + 1;
        assert(spectrum_views(out@) =~= all.take(r as int));
    }
    assert(all.take(r as int) =~= all);
    out
}

/// The highest level reaches the top of the spectrum, and the lowest leaves it
/// empty, however high it is.
pub proof fn spectrum_uses_all_rows(rows: nat)
    requires
        rows > 0,
    ensures
        bar_eighths(MAX_LEVEL, rows) == rows * 8,
        bar_eighths(0, rows) == 0,
        forall|up: int| 0 <= up < rows ==> #[trigger] bar_char(bar_eighths(MAX_LEVEL, rows), up) == '\u{2588}',
        forall|up: int| 0 <= up < rows ==> #[trigger] bar_char(bar_eighths(0, rows), up) == ' ',
{
    assert(MAX_LEVEL * rows == 7 * rows);
    assert(0 * rows == 0);
    assert((16 * (7 * rows) + 7) / 14 == rows * 8);
}

/// The keys and what they do.
pub open spec fn bindings() -> Seq<(Seq<char>, Seq<char>)> {
    seq![
        ("1-8  [ ]"@, "switch / cycle tabs"@),
        ("Up/k Down/j"@, "move selection"@),
        ("Enter"@, "open / play from here"@),
        ("a"@, "add to queue (don't replace it)"@),
        ("A"@, "play next (right after the current track)"@),
        ("v"@, "mark / unmark a song: a, A, f, P and d act on all marked"@),
        ("f"@, "toggle favorite on the selected song"@),
        ("e"@, "expand a Home section into its full list"@),
        ("l"@, "toggle the lyrics panel (while something's playing)"@),
        ("t"@, "toggle the sort: A-Z / newest (Albums)"@),
        ("i"@, "artist bio / album notes (Artists, Albums)"@),
        ("P"@, "add the selected song to a playlist"@),
        ("N"@, "new playlist (Playlists)"@),
        ("c"@, "rename the selected playlist (Playlists), check for updates (Settings)"@),
        ("u"@, "install an update, pressed twice (Settings)"@),
        ("d"@, "delete: a playlist, a song in one, or a queue track"@),
        ("D"@, "clear the entire queue (Queue)"@),
        ("J / K"@, "move the selected queue track down / up (Queue)"@),
        ("S"@, "save the current queue as a playlist (Queue)"@),
        ("/"@, "filter this list (Esc clears it)"@),
        ("Esc / Backspace"@, "clear filter, then back"@),
        ("space"@, "play / pause"@),
        ("n / p"@, "next / previous track"@),
        ("Left / Right"@, "seek -5s / +5s"@),
        ("- / +"@, "volume down / up"@),
        ("r"@, "cycle repeat: off -> track -> queue"@),
        ("x"@, "toggle shuffle"@),
        ("s"@, "stop"@),
        ("q"@, "quit"@),
        ("Q"@, "quit and stop the daemon"@),
        ("?"@, "toggle this help"@),
    ]
}

/// How wide the keys are in the help.
pub const KEY_WIDTH: usize = 16;

/// A text filled up with spaces to the width of the keys.
pub open spec fn padded(s: Seq<char>) -> Seq<char> {
    if s.len() < KEY_WIDTH {
        s + Seq::new((KEY_WIDTH - s.len()) as nat, |i: int| ' ')
    } else {
        s
    }
}

fn pad(s: &str) -> (r: String)
    ensures
        r@ == padded(s@),
{
    let chars = text::chars_of(s);
    let mut line: String = s.to_owned();
    if chars.len() < KEY_WIDTH {
        push_repeated(&mut line, ' ', KEY_WIDTH - chars.len());
    }
    line
}

fn push_binding(lines: &mut Vec<(String, String)>, key: &str, what: &str)
    ensures
        crate::url::pair_views(final(lines)@) == crate::url::pair_views(old(lines)@).push(
            (padded(key@), what@),
        ),
{
    lines.push((pad(key), what.to_owned()));
    assert(crate::url::pair_views(lines@) =~= crate::url::pair_views(old(lines)@).push(
        (padded(key@), what@),
    ));
}

/// The lines of the help: each key, filled up to one width, and what it does.
pub fn help_lines() -> (lines: Vec<(String, String)>)
    ensures
        crate::url::pair_views(lines@) == bindings().map_values(
            |b: (Seq<char>, Seq<char>)| (padded(b.0), b.1),
        ),
{
    let mut lines: Vec<(String, String)> = Vec::new();
    push_binding(&mut lines, "1-8  [ ]", "switch / cycle tabs");
    push_binding(&mut lines, "Up/k Down/j", "move selection");
    push_binding(&mut lines, "Enter", "open / play from here");
    push_binding(&mut lines, "a", "add to queue (don't replace it)");
    push_binding(&mut lines, "A", "play next (right after the current track)");
    push_binding(&mut lines, "v", "mark / unmark a song: a, A, f, P and d act on all marked");
    push_binding(&mut lines, "f", "toggle favorite on the selected song");
    push_binding(&mut lines, "e", "expand a Home section into its full list");
    push_binding(&mut lines, "l", "toggle the lyrics panel (while something's playing)");
    push_binding(&mut lines, "t", "toggle the sort: A-Z / newest (Albums)");
    push_binding(&mut lines, "i", "artist bio / album notes (Artists, Albums)");
    push_binding(&mut lines, "P", "add the selected song to a playlist");
    push_binding(&mut lines, "N", "new playlist (Playlists)");
    push_binding(&mut lines, "c", "rename the selected playlist (Playlists), check for updates (Settings)");
    push_binding(&mut lines, "u", "install an update, pressed twice (Settings)");
    push_binding(&mut lines, "d", "delete: a playlist, a song in one, or a queue track");
    push_binding(&mut lines, "D", "clear the entire queue (Queue)");
    push_binding(&mut lines, "J / K", "move the selected queue track down / up (Queue)");
    push_binding(&mut lines, "S", "save the current queue as a playlist (Queue)");
    push_binding(&mut lines, "/", "filter this list (Esc clears it)");
    push_binding(&mut lines, "Esc / Backspace", "clear filter, then back");
    push_binding(&mut lines, "space", "play / pause");
    push_binding(&mut lines, "n / p", "next / previous track");
    push_binding(&mut lines, "Left / Right", "seek -5s / +5s");
    push_binding(&mut lines, "- / +", "volume down / up");
    push_binding(&mut lines, "r", "cycle repeat: off -> track -> queue");
    push_binding(&mut lines, "x", "toggle shuffle");
    push_binding(&mut lines, "s", "stop");
    push_binding(&mut lines, "q", "quit");
    push_binding(&mut lines, "Q", "quit and stop the daemon");
    push_binding(&mut lines, "?", "toggle this help");
    assert(crate::url::pair_views(lines@) =~= bindings().map_values(
        |b: (Seq<char>, Seq<char>)| (padded(b.0), b.1),
    ));
    lines
}

/// A time of `m` minutes and `s` seconds is shown as `m`, a colon, and the two digits of
/// `s`; parts of a second are left out.
pub proof fn clock_shows_minutes_and_seconds(m: nat, s: nat, part: nat)
    requires
        s < 60,
        part < 1_000_000_000,
        (60 * m + s) * 1_000_000_000 + part <= u128::MAX,
    ensures
        clock_text(60 * m + s) == text::decimal(m) + ":"@ + text::decimal(s / 10) + text::decimal(
            s % 10,
        ),
        time_text(Duration { nanos: ((60 * m + s) * 1_000_000_000 + part) as u128 })
            == clock_text(60 * m + s),
{
    assert((60 * m + s) / 60 == m && (60 * m + s) % 60 == s);
    text::decimal_counts_in_tens(s);
    reveal_strlit("0");
    if s < 10 {
        assert(text::decimal(0) =~= "0"@);
        assert(two_digits(s) =~= text::decimal(0) + text::decimal(s));
    }
    assert(two_digits(s) == text::decimal(s / 10) + text::decimal(s % 10));
    assert(text::decimal(m) + ":"@ + (text::decimal(s / 10) + text::decimal(s % 10))
        =~= text::decimal(m) + ":"@ + text::decimal(s / 10) + text::decimal(s % 10));
    let n = (60 * m + s) * 1_000_000_000 + part;
    assert(n / 1_000_000_000 == 60 * m + s);
}

/// The progress shows the position, and the length behind it where that is known.
pub proof fn progress_shows_the_position(now: NowPlaying)
    ensures
        time_text(now.position).is_prefix_of(progress_text(now)),
        now.duration.nanos == 0 ==> progress_text(now) == time_text(now.position),
        now.duration.nanos > 0 ==> time_text(now.duration).is_suffix_of(progress_text(now)),
{
    let p = progress_text(now);
    let t = time_text(now.position);
    let d = time_text(now.duration);
    assert(p.take(t.len() as int) =~= t);
    if now.duration.nanos > 0 {
        assert(p.subrange(p.len() - d.len(), p.len() as int) =~= d);
    }
}

/// The moment in the lyrics is the millisecond nearest to the position.
pub proof fn moment_is_the_nearest(d: Duration)
    requires
        d.nanos <= 1_000_000 * (i64::MAX as int),
    ensures
        -500_000 < d.nanos - 1_000_000 * nearest_millis(d) <= 500_000 || -500_000 <= d.nanos
            - 1_000_000 * nearest_millis(d) < 500_000,
{
}

/// The lyrics are scrolled so that the line that is sung stands a third of the way down,
/// or higher where the lyrics begin.
pub proof fn sung_line_stays_in_sight(i: int, len: nat, height: u16)
    requires
        0 <= i < len,
        height > 0,
    ensures
        0 <= lyrics_scroll(Some(i), len, height) <= i,
        i - lyrics_scroll(Some(i), len, height) < height,
        i >= height / 3 ==> lyrics_scroll(Some(i), len, height) == i - height / 3,
        i < height / 3 ==> lyrics_scroll(Some(i), len, height) == 0,
        lyrics_scroll(None, len, height) == 0,
{
}

/// The height of a bar is the level's share of the rows, to the nearest eighth of a row;
/// a higher level never has a lower bar.
pub proof fn bar_height_is_the_share(level: u8, higher: u8, rows: nat)
    requires
        level <= higher,
    ensures
        -(MAX_LEVEL as int) <= 2 * (MAX_LEVEL * bar_eighths(level, rows) - 8 * (level * rows))
            <= MAX_LEVEL,
        bar_eighths(level, rows) <= bar_eighths(higher, rows),
{
    assert(level * rows <= higher * rows) by (nonlinear_arith)
        requires
            level <= higher,
    ;
}

/// A bar is solid up to its height, empty above it, and its top cell shows the eighths that
/// are left.
pub proof fn bar_is_solid_below_its_top(eighths: int, up: int)
    requires
        0 <= eighths,
        0 <= up,
    ensures
        8 * (up + 1) <= eighths ==> bar_char(eighths, up) == '\u{2588}',
        eighths <= 8 * up ==> bar_char(eighths, up) == ' ',
        8 * up < eighths < 8 * (up + 1) ==> bar_char(eighths, up) as int == 0x2580 + (eighths - 8
            * up),
{
}

/// A volume is shown three places wide.
pub proof fn volume_is_three_wide(n: nat)
    requires
        n <= 100,
    ensures
        three_wide(n).len() == 3,
        text::decimal(n).is_suffix_of(three_wide(n)),
{
    reveal_strlit("  ");
    reveal_strlit(" ");
    text::decimal_counts_in_tens(n);
    text::decimal_counts_in_tens(n / 10);
    text::decimal_counts_in_tens(n % 10);
    text::decimal_counts_in_tens((n / 10) / 10);
    text::decimal_counts_in_tens((n / 10) % 10);
    let w = three_wide(n);
    let d = text::decimal(n);
    assert(w.subrange(w.len() - d.len(), w.len() as int) =~= d);
}

/// A starred song is led by a star; its title follows unchanged.
pub proof fn star_leads_the_title(title: Seq<char>)
    ensures
        star_text(title, false) == title,
        star_text(title, true).len() > title.len(),
        title.is_suffix_of(star_text(title, true)),
        star_text(title, true)[0] == '\u{2605}',
{
    reveal_strlit("\u{2605} ");
    let s = star_text(title, true);
    assert(s.subrange(s.len() - title.len(), s.len() as int) =~= title);
}

/// The row of a song shows the song: its artist, album and title, whether it plays, is
/// starred, lossless or marked.
pub proof fn row_shows_its_song(song: SongView, now_title: Seq<char>, marked: bool)
    ensures
        ({
            let r = song_row(song, now_title, marked);
            &&& r.artist == song.artist && r.album == song.album
            &&& song.title.is_suffix_of(r.title)
            &&& r.starred == song.starred is Some
            &&& r.marked == marked
            &&& r.playing <==> now_title.len() > 0 && song.title == now_title
            &&& song.suffix.len() == 0 ==> r.format.len() == 0 && !r.lossless
            &&& song.suffix.len() > 0 ==> r.lossless == crate::library::is_lossless(song.suffix)
        }),
{
    star_leads_the_title(song.title);
    assert(song.title.is_suffix_of(song.title)) by {
        assert(song.title.subrange(0, song.title.len() as int) =~= song.title);
    }
}

/// A list shows the rows that the filter leaves visible, in order, with the cursor where it
/// is; a mark shows on its own row.
pub proof fn table_shows_the_visible_rows(
    s: ScreenView,
    title: Seq<char>,
    now_title: Seq<char>,
    k: int,
)
    requires
        0 <= k < crate::screen::visible(s).len(),
    ensures
        table_body(s, title, now_title) matches BodyView::Table { title: shown, rows, selected } && {
            let i = crate::screen::visible(s)[k];
            &&& shown == title
            &&& rows.len() == crate::screen::visible(s).len()
            &&& selected == Some(s.selected)
            &&& s.rows is Songs || s.rows is Search || s.rows is Queue ==> rows[k].marked
                == s.marked.contains(i)
            &&& s.rows matches RowsView::Queue(tracks) ==> rows[k].title == tracks[i as int].title@
                && rows[k].artist == tracks[i as int].artist@ && rows[k].time == time_text(
                tracks[i as int].duration,
            )
            &&& s.rows matches RowsView::Songs { songs, .. } ==> rows[k].artist
                == songs[i as int].artist && rows[k].album == songs[i as int].album
        },
{
}

/// The home screen marks the row under its cursor, and no other.
pub proof fn home_shows_one_cursor(
    sections: Seq<SectionView>,
    focus: usize,
    selected: usize,
    i: int,
    k: int,
)
    requires
        0 <= i < sections.len(),
        0 <= k < sections[i].songs.len(),
    ensures
        panes_of(sections, focus, selected).len() == sections.len(),
        panes_of(sections, focus, selected)[i].rows.len() == sections[i].songs.len(),
        (panes_of(sections, focus, selected)[i].rows[k].style == Style::Selected) <==> i == focus
            && k == selected,
{
}

/// The title of a list that is filtered shows the filter; while it is edited, also the
/// cursor behind it.
pub proof fn title_shows_the_filter(base: Seq<char>, filter: Seq<char>, hint: Seq<char>)
    ensures
        (" "@ + base).is_prefix_of(titled(base, filter, true, hint)),
        (" "@ + base).is_prefix_of(titled(base, filter, false, hint)),
        text::has_infix(titled(base, filter, true, hint), "filter: "@ + filter + "_"@),
        filter.len() > 0 ==> text::has_infix(
            titled(base, filter, false, hint),
            "filter: "@ + filter,
        ),
{
    reveal_strlit(" \u{2014} filter: ");
    reveal_strlit("filter: ");
    reveal_strlit("_");
    reveal_strlit("_  [Enter] apply  [Esc] cancel ");
    let front = " "@ + base;
    let a = titled(base, filter, true, hint);
    let b = titled(base, filter, false, hint);
    assert(a.take(front.len() as int) =~= front);
    assert(b.take(front.len() as int) =~= front);
    let x = "filter: "@ + filter + "_"@;
    let at = front.len() as int + 3;
    assert(a.subrange(at, at + x.len()) =~= x);
    let y = "filter: "@ + filter;
    if filter.len() > 0 {
        assert(b.subrange(at, at + y.len()) =~= y);
    }
}

/// A line for the user stands in place of the track; without one the title leads, and the
/// place in the queue is counted from one.
pub proof fn message_stands_for_the_track(message: Seq<char>, now: NowPlaying)
    ensures
        message.len() > 0 ==> track_spans(message, now).len() == 1 && track_spans(message, now)[0].text
            == message,
        message.len() == 0 && now.title@.len() > 0 ==> track_spans(message, now)[0].text
            == now.title@,
        message.len() == 0 && now.queue_len > 0 ==> track_spans(message, now).last().text
            == "   ["@ + text::decimal((now.queue_index + 1) as nat) + " of "@ + text::decimal(
            now.queue_len as nat,
        ) + "]"@,
{
}

/// The tab bar numbers the tabs from one and marks the active one alone.
pub proof fn tab_bar_marks_the_active_tab(active: Tab, tab: Tab)
    ensures
        tab_span(active, tab.place()).1 == (tab == active),
        tab_span(active, tab.place()).0 == " "@ + text::decimal((tab.place() + 1) as nat) + " "@
            + tab.name() + " "@,
{
}

/// A list names each thing first: the album ahead of its artist, the artist, the playlist
/// and the genre ahead of their counts.
pub proof fn items_are_named_first(rows: RowsView, i: int)
    ensures
        rows matches RowsView::Albums { albums, .. } ==> item_text(rows, i) == albums[i].name@
            + "  \u{2014}  "@ + albums[i].artist@,
        rows matches RowsView::Artists(artists) ==> artists[i].name@.is_prefix_of(
            item_text(rows, i),
        ),
        rows matches RowsView::Playlists(playlists) ==> playlists[i].name@.is_prefix_of(
            item_text(rows, i),
        ),
        rows matches RowsView::Genres(genres) ==> genres[i].value@.is_prefix_of(
            item_text(rows, i),
        ),
        rows matches RowsView::Picker { playlists, .. } ==> playlists[i].name@.is_prefix_of(
            item_text(rows, i),
        ),
{
    let all = item_text(rows, i);
    match rows {
        RowsView::Artists(artists) => {
            assert(all.take(artists[i].name@.len() as int) =~= artists[i].name@);
        },
        RowsView::Playlists(playlists) => {
            assert(all.take(playlists[i].name@.len() as int) =~= playlists[i].name@);
        },
        RowsView::Genres(genres) => {
            assert(all.take(genres[i].value@.len() as int) =~= genres[i].value@);
        },
        RowsView::Picker { playlists, .. } => {
            assert(all.take(playlists[i].name@.len() as int) =~= playlists[i].name@);
        },
        _ => {},
    }
}

/// The spectrum fills the height that it has, and the bars of a row stand side by side,
/// each in a slot of the same width.
pub proof fn spectrum_fills_its_height(levels: Seq<u8>, width: u16, height: u16, r: int)
    requires
        height > 0,
        levels.len() > 0,
        0 <= r < height,
    ensures
        spectrum_shown(levels, width, height).len() == height,
        spectrum_shown(levels, width, height)[r].cells.len() == levels.len() * bar_slot(
            width,
            levels.len(),
        ),
{
    let slot = bar_slot(width, levels.len());
    let gap: nat = if slot > 1 {
        1
    } else {
        0
    };
    bars_are_equally_wide(levels, height as nat, height - 1 - r, (slot - gap) as nat, gap);
}

proof fn bars_are_equally_wide(levels: Seq<u8>, rows: nat, up: int, fill: nat, gap: nat)
    ensures
        bars_in_row(levels, rows, up, fill, gap).len() == levels.len() * (fill + gap),
    decreases levels.len(),
{
    if levels.len() > 0 {
        bars_are_equally_wide(levels.drop_last(), rows, up, fill, gap);
        assert(levels.len() * (fill + gap) == (levels.len() - 1) * (fill + gap) + (fill + gap))
            by (nonlinear_arith);
    } else {
        assert(levels.len() * (fill + gap) == 0) by (nonlinear_arith)
            requires
                levels.len() == 0,
        ;
    }
}

/// What shows is what the screen lists: the help over everything, a table for songs and
/// tracks, a list for everything else that has rows.
pub proof fn body_is_what_the_screen_lists(
    s: AppView,
    now_title: Seq<char>,
    hash: Seq<char>,
    date: Seq<char>,
)
    requires
        s.wf(),
    ensures
        ({
            let body = body_of(s, now_title, hash, date);
            let rows = s.top().rows;
            &&& s.show_help ==> body is Help
            &&& !s.show_help && (rows is Songs || rows is Search || rows is Queue) ==> body is Table
            &&& !s.show_help && (rows is Albums || rows is Artists || rows is Playlists
                || rows is Genres || rows is Picker) ==> body is List
            &&& !s.show_help && rows is Home ==> body is Home
            &&& !s.show_help && rows is Settings ==> body is Settings
            &&& !s.show_help ==> (rows matches RowsView::Info { body: words, .. } ==> (
            body matches BodyView::Info { body: shown, scroll, .. } && shown == words && scroll
                == s.top().selected))
            &&& !s.show_help ==> (rows matches RowsView::Picker { playlists, .. } ==> (
            body matches BodyView::List { items, .. } && items.len() == playlists.len()))
        }),
{
}

/// A list without a row has no cursor.
pub proof fn empty_list_has_no_cursor(s: ScreenView, title: Seq<char>, now_title: Seq<char>)
    requires
        crate::screen::visible(s).len() == 0,
    ensures
        list_body(s, title) matches BodyView::List { items, selected, .. } && items.len() == 0
            && selected is None,
        table_body(s, title, now_title) matches BodyView::Table { rows, selected, .. } && rows.len()
            == 0 && selected is None,
{
}

/// The row of a queue track shows the track, and no star.
pub proof fn row_shows_its_queue_track(track: QueueRow, now_title: Seq<char>, marked: bool)
    ensures
        ({
            let r = track_row(track, now_title, marked);
            &&& r.title == track.title@ && r.artist == track.artist@ && r.album == track.album@
            &&& r.format == track.format_label@ && r.lossless == track.lossless
            &&& !r.starred && r.marked == marked
            &&& r.playing <==> now_title.len() > 0 && track.title@ == now_title
        }),
{
}

/// The artist stands behind the title where there is one; a lossy format is not shown as a
/// lossless one.
pub proof fn artist_stands_behind_the_title(now: NowPlaying)
    requires
        now.artist@.len() > 0,
    ensures
        track_spans(Seq::empty(), now).len() >= 3,
        track_spans(Seq::empty(), now)[2].text == now.artist@,
        now.format_label@.len() > 0 ==> track_spans(Seq::empty(), now).len() >= 5 && (
        track_spans(Seq::empty(), now)[4].style == Style::Lossless) == now.lossless,
{
}

/// The state line names the status; the repeat mode shows unless it is off, and shuffle
/// while it is on.
pub proof fn state_line_shows_the_modes(now: NowPlaying, slider: Seq<char>)
    ensures
        ({
            let spans = state_spans(now, slider);
            let repeats = now.repeat@ != "off"@;
            &&& spans[1].text == text::upper_cased(now.status@)
            &&& spans.len() == 6 + (if repeats {
                2int
            } else {
                0
            }) + (if now.shuffle {
                2int
            } else {
                0
            })
            &&& repeats ==> spans[4].text == "[repeat:"@ + now.repeat@ + "]"@
            &&& now.shuffle ==> spans[spans.len() - 4].text == "[shuffle]"@
            &&& spans[spans.len() - 2].text == slider
        }),
{
}

} // verus!
