//! The screens of the terminal interface: what they list, which rows a filter
//! leaves visible, and how the cursor moves through them.
use crate::json::{item_views, text_views};
use crate::library::{Album, Artist, Genre, Playlist, Song, SongView};
use crate::play_order::identity;
use crate::protocol::QueueRow;
use crate::text;
use crate::update_check::CheckResult;
use vstd::prelude::*;

verus! {

/// A key, as far as the interface tells keys apart.
#[derive(Debug, Clone, Copy, PartialEq, Eq, Structural)]
pub enum KeyCode {
    Char(char),
    Up,
    Down,
    Left,
    Right,
    Enter,
    Esc,
    Backspace,
    /// Any other key.
    Other,
}

/// The tabs at the top of the screen.
#[derive(Debug, Clone, Copy, PartialEq, Eq, Structural)]
pub enum Tab {
    Home,
    Playlists,
    Albums,
    Artists,
    Genres,
    Search,
    Queue,
    Settings,
}

/// How many tabs there are.
pub const TAB_COUNT: usize = 8;

impl Tab {
    pub open spec fn name(self) -> Seq<char> {
        match self {
            Tab::Home => "Home"@,
            Tab::Playlists => "Playlists"@,
            Tab::Albums => "Albums"@,
            Tab::Artists => "Artists"@,
            Tab::Genres => "Genres"@,
            Tab::Search => "Search"@,
            Tab::Queue => "Queue"@,
            Tab::Settings => "Settings"@,
        }
    }

    /// The tab's name.
    pub fn label(self) -> (r: &'static str)
        ensures
            r@ == self.name(),
    {
        match self {
            Tab::Home => "Home",
            Tab::Playlists => "Playlists",
            Tab::Albums => "Albums",
            Tab::Artists => "Artists",
            Tab::Genres => "Genres",
            Tab::Search => "Search",
            Tab::Queue => "Queue",
            Tab::Settings => "Settings",
        }
    }

    /// The tab's place in the tab bar.
    pub open spec fn place(self) -> int {
        match self {
            Tab::Home => 0,
            Tab::Playlists => 1,
            Tab::Albums => 2,
            Tab::Artists => 3,
            Tab::Genres => 4,
            Tab::Search => 5,
            Tab::Queue => 6,
            Tab::Settings => 7,
        }
    }

    /// The tab's place in the tab bar.
    pub fn index(self) -> (i: usize)
        ensures
            i == self.place(),
            i < TAB_COUNT,
    {
        match self {
            Tab::Home => 0,
            Tab::Playlists => 1,
            Tab::Albums => 2,
            Tab::Artists => 3,
            Tab::Genres => 4,
            Tab::Search => 5,
            Tab::Queue => 6,
            Tab::Settings => 7,
        }
    }

    /// The tab at a place of the tab bar.
    pub open spec fn at(i: int) -> Option<Tab> {
        if i == 0 {
            Some(Tab::Home)
        } else if i == 1 {
            Some(Tab::Playlists)
        } else if i == 2 {
            Some(Tab::Albums)
        } else if i == 3 {
            Some(Tab::Artists)
        } else if i == 4 {
            Some(Tab::Genres)
        } else if i == 5 {
            Some(Tab::Search)
        } else if i == 6 {
            Some(Tab::Queue)
        } else if i == 7 {
            Some(Tab::Settings)
        } else {
            None
        }
    }

    /// The tab at a place of the tab bar.
    pub fn from_index(i: usize) -> (t: Option<Tab>)
        ensures
            t == Tab::at(i as int),
    {
        if i == 0 {
            Some(Tab::Home)
        } else if i == 1 {
            Some(Tab::Playlists)
        } else if i == 2 {
            Some(Tab::Albums)
        } else if i == 3 {
            Some(Tab::Artists)
        } else if i == 4 {
            Some(Tab::Genres)
        } else if i == 5 {
            Some(Tab::Search)
        } else if i == 6 {
            Some(Tab::Queue)
        } else if i == 7 {
            Some(Tab::Settings)
        } else {
            None
        }
    }

    /// The tab that `]` leads to, or `[` where `back` is set.
    pub open spec fn beside(self, back: bool) -> Tab {
        let step = if back {
            TAB_COUNT - 1
        } else {
            1
        };
        Tab::at((self.place() + step) % (TAB_COUNT as int))->0
    }

    /// The tab that `]` leads to, or `[` where `back` is set.
    pub fn neighbour(self, back: bool) -> (t: Tab)
        ensures
            t == self.beside(back),
    {
        let step: usize = if back {
            TAB_COUNT - 1
        } else {
            1
        };
        match Tab::from_index((self.index() + step) % TAB_COUNT) {
            Some(t) => t,
            None => Tab::Home,
        }
    }
}

/// `[` undoes `]`, and every tab has a digit of its own.
pub proof fn tabs_form_a_ring(t: Tab)
    ensures
        t.beside(false).beside(true) == t,
        t.beside(true).beside(false) == t,
        0 <= t.place() < TAB_COUNT,
        Tab::at(t.place()) == Some(t),
{
}

/// The server's own lists, previewed on the home screen.
#[derive(Debug, Clone, Copy, PartialEq, Eq, Structural)]
pub enum NativeKind {
    Favourites,
    RecentlyPlayed,
    OnRepeat,
    SongsForYou,
}

impl NativeKind {
    pub open spec fn name(self) -> Seq<char> {
        match self {
            NativeKind::Favourites => "Favourites"@,
            NativeKind::RecentlyPlayed => "Recently Played"@,
            NativeKind::OnRepeat => "On Repeat"@,
            NativeKind::SongsForYou => "Songs For You"@,
        }
    }

    /// The list's title.
    pub fn title(self) -> (r: &'static str)
        ensures
            r@ == self.name(),
    {
        match self {
            NativeKind::Favourites => "Favourites",
            NativeKind::RecentlyPlayed => "Recently Played",
            NativeKind::OnRepeat => "On Repeat",
            NativeKind::SongsForYou => "Songs For You",
        }
    }
}

/// How many songs the home screen shows of each list.
pub const HOME_PREVIEW_ROWS: usize = 5;

/// One list of the home screen.
#[derive(Debug, PartialEq, Eq)]
pub struct HomeSection {
    pub kind: NativeKind,
    pub songs: Vec<Song>,
}

/// What a [`HomeSection`] shows.
#[verifier::ext_equal]
pub struct SectionView {
    pub kind: NativeKind,
    pub songs: Seq<SongView>,
}

impl View for HomeSection {
    type V = SectionView;

    open spec fn view(&self) -> SectionView {
        SectionView { kind: self.kind, songs: item_views(self.songs@) }
    }
}

/// What the lists of the home screen show.
pub open spec fn section_views(sections: Seq<HomeSection>) -> Seq<SectionView> {
    sections.map_values(|s: HomeSection| s@)
}

/// How far the check for an update has come.
#[derive(Debug, PartialEq, Eq)]
pub enum UpdateState {
    /// Nothing has been checked yet.
    Unchecked,
    /// A check has found this.
    Checked(CheckResult),
    /// An update is there, and the user has asked for it once.
    Confirming(CheckResult),
    /// The update is installed; it takes effect after a restart.
    Installed,
}

/// What a screen lists.
#[derive(Debug, PartialEq, Eq)]
pub enum Rows {
    Albums { title: String, albums: Vec<Album> },
    /// Songs; those of a playlist where `playlist_id` names one.
    Songs { title: String, songs: Vec<Song>, playlist_id: Option<String> },
    Artists(Vec<Artist>),
    Playlists(Vec<Playlist>),
    Genres(Vec<Genre>),
    Search { query: String, editing: bool, results: Vec<Song> },
    /// The daemon's queue.
    Queue(Vec<QueueRow>),
    /// Previews of the server's own lists. The cursor is in one of them.
    Home { sections: Vec<HomeSection>, section: usize },
    /// The playlists that songs can be added to.
    Picker { playlists: Vec<Playlist>, song_ids: Vec<String> },
    /// A text to read. The cursor is the line at the top.
    Info { title: String, body: String },
    Settings(UpdateState),
}

/// A screen: what it lists, where the cursor is, the filter, and the marked rows.
/// The cursor counts the rows that the filter leaves visible; a mark is the index
/// of a row in the whole list.
#[derive(Debug, PartialEq, Eq)]
pub struct Screen {
    pub rows: Rows,
    pub selected: usize,
    pub filter: String,
    pub marked: Vec<usize>,
}

/// What [`Rows`] show.
#[verifier::ext_equal]
pub enum RowsView {
    Albums { title: Seq<char>, albums: Seq<Album> },
    Songs { title: Seq<char>, songs: Seq<SongView>, playlist_id: Option<Seq<char>> },
    Artists(Seq<Artist>),
    Playlists(Seq<Playlist>),
    Genres(Seq<Genre>),
    Search { query: Seq<char>, editing: bool, results: Seq<SongView> },
    Queue(Seq<QueueRow>),
    Home { sections: Seq<SectionView>, section: usize },
    Picker { playlists: Seq<Playlist>, song_ids: Seq<Seq<char>> },
    Info { title: Seq<char>, body: Seq<char> },
    Settings(UpdateState),
}

/// What a [`Screen`] shows.
#[verifier::ext_equal]
pub struct ScreenView {
    pub rows: RowsView,
    pub selected: usize,
    pub filter: Seq<char>,
    pub marked: Seq<usize>,
}

impl View for Rows {
    type V = RowsView;

    open spec fn view(&self) -> RowsView {
        match *self {
            Rows::Albums { title, albums } => RowsView::Albums { title: title@, albums: albums@ },
            Rows::Songs { title, songs, playlist_id } => RowsView::Songs {
                title: title@,
                songs: item_views(songs@),
                playlist_id: crate::json::opt_view(playlist_id),
            },
            Rows::Artists(artists) => RowsView::Artists(artists@),
            Rows::Playlists(playlists) => RowsView::Playlists(playlists@),
            Rows::Genres(genres) => RowsView::Genres(genres@),
            Rows::Search { query, editing, results } => RowsView::Search {
                query: query@,
                editing,
                results: item_views(results@),
            },
            Rows::Queue(tracks) => RowsView::Queue(tracks@),
            Rows::Home { sections, section } => RowsView::Home {
                sections: section_views(sections@),
                section,
            },
            Rows::Picker { playlists, song_ids } => RowsView::Picker {
                playlists: playlists@,
                song_ids: text_views(song_ids@),
            },
            Rows::Info { title, body } => RowsView::Info { title: title@, body: body@ },
            Rows::Settings(state) => RowsView::Settings(state),
        }
    }
}

impl View for Screen {
    type V = ScreenView;

    open spec fn view(&self) -> ScreenView {
        ScreenView {
            rows: self.rows@,
            selected: self.selected,
            filter: self.filter@,
            marked: self.marked@,
        }
    }
}

/// A screen that has just been opened: the cursor at the top, no filter, no marks.
pub open spec fn opened(rows: RowsView) -> ScreenView {
    ScreenView { rows, selected: 0, filter: Seq::empty(), marked: Seq::empty() }
}

impl Screen {
    /// A screen that has just been opened.
    pub fn open(rows: Rows) -> (s: Screen)
        ensures
            s@ == opened(rows@),
    {
        let s = Screen { rows, selected: 0, filter: String::new(), marked: Vec::new() };
        assert(s.filter@ =~= Seq::<char>::empty());
        s
    }
}

/// Whether a text holds the filter, in whatever case.
pub open spec fn matches_filter(words: Seq<char>, filter: Seq<char>) -> bool {
    filter.len() == 0 || text::has_infix(text::lowered(words), text::lowered(filter))
}

fn is_match(words: &str, filter: &str) -> (r: bool)
    ensures
        r == matches_filter(words@, filter@),
{
    filter.is_empty() || text::contains(
        text::to_lowercase(words).as_str(),
        text::to_lowercase(filter).as_str(),
    )
}

/// How many rows a list has that a filter, or the cursor, counts.
pub open spec fn row_count(rows: RowsView) -> nat {
    match rows {
        RowsView::Albums { albums, .. } => albums.len(),
        RowsView::Songs { songs, .. } => songs.len(),
        RowsView::Artists(artists) => artists.len(),
        RowsView::Playlists(playlists) => playlists.len(),
        RowsView::Genres(genres) => genres.len(),
        RowsView::Search { results, .. } => results.len(),
        RowsView::Queue(tracks) => tracks.len(),
        _ => 0,
    }
}

/// The text of a row that the filter looks at.
pub open spec fn row_text(rows: RowsView, i: int) -> Seq<char> {
    match rows {
        RowsView::Albums { albums, .. } => albums[i].name@ + " "@ + albums[i].artist@,
        RowsView::Songs { songs, .. } => songs[i].title + " "@ + songs[i].artist,
        RowsView::Artists(artists) => artists[i].name@,
        RowsView::Playlists(playlists) => playlists[i].name@,
        RowsView::Genres(genres) => genres[i].value@,
        RowsView::Queue(tracks) => tracks[i].title@ + " "@ + tracks[i].artist@,
        _ => Seq::empty(),
    }
}

/// Whether the filter leaves a row visible. The results of a search are not
/// filtered.
pub open spec fn row_visible(rows: RowsView, filter: Seq<char>) -> spec_fn(usize) -> bool {
    |i: usize| rows is Search || matches_filter(row_text(rows, i as int), filter)
}

/// The rows that the filter leaves visible, in order.
pub open spec fn visible(s: ScreenView) -> Seq<usize> {
    identity(row_count(s.rows)).filter(row_visible(s.rows, s.filter))
}

/// The row under the cursor, as an index in the whole list.
pub open spec fn row_at_cursor(s: ScreenView) -> Option<usize> {
    let v = visible(s);
    if s.selected < v.len() {
        Some(v[s.selected as int])
    } else {
        None
    }
}

/// What filtering the numbers below `n` keeps: those that pass, each once, in
/// order.
proof fn filtered_identity(n: nat, f: spec_fn(usize) -> bool)
    requires
        n <= usize::MAX,
    ensures
        forall|i: int, j: int|
            0 <= i < j < identity(n).filter(f).len() ==> #[trigger] identity(n).filter(f)[i]
                < #[trigger] identity(n).filter(f)[j],
        forall|k: int|
            0 <= k < identity(n).filter(f).len() ==> (#[trigger] identity(n).filter(f)[k]) < n && f(
                identity(n).filter(f)[k],
            ),
        forall|i: usize| i < n && f(i) ==> #[trigger] identity(n).filter(f).contains(i),
        identity(n).filter(f).len() <= n,
    decreases n,
{
    reveal(Seq::filter);
    if n > 0 {
        let m = (n - 1) as nat;
        filtered_identity(m, f);
        assert(identity(n).drop_last() =~= identity(m));
        let kept = identity(m).filter(f);
        let all = identity(n).filter(f);
        let last = m as usize;
        assert(identity(n).last() == last);
        assert(all == (if f(last) { kept.push(last) } else { kept }));
        assert forall|i: usize| i < n && f(i) implies #[trigger] all.contains(i) by {
            if i < m {
                assert(kept.contains(i));
                let k = choose|k: int| 0 <= k < kept.len() && kept[k] == i;
                assert(all[k] == i);
            } else {
                assert(all[kept.len() as int] == i);
            }
        }
    }
}

/// The visible rows are the rows of the list that hold the filter, each once, in
/// order.
pub proof fn visible_rows_match(s: ScreenView)
    requires
        row_count(s.rows) <= usize::MAX,
    ensures
        visible(s).len() <= row_count(s.rows),
        forall|i: int, j: int|
            0 <= i < j < visible(s).len() ==> #[trigger] visible(s)[i] < #[trigger] visible(s)[j],
        forall|k: int|
            0 <= k < visible(s).len() ==> (#[trigger] visible(s)[k]) < row_count(s.rows)
                && row_visible(s.rows, s.filter)(visible(s)[k]),
        forall|i: usize|
            i < row_count(s.rows) && row_visible(s.rows, s.filter)(i) ==> #[trigger] visible(
                s,
            ).contains(i),
{
    filtered_identity(row_count(s.rows), row_visible(s.rows, s.filter));
}

/// Without a filter, every row is visible.
pub proof fn empty_filter_shows_all(s: ScreenView)
    requires
        row_count(s.rows) <= usize::MAX,
        s.filter.len() == 0,
    ensures
        visible(s) == identity(row_count(s.rows)),
{
    let n = row_count(s.rows);
    all_kept(n, row_visible(s.rows, s.filter));
}

proof fn all_kept(n: nat, f: spec_fn(usize) -> bool)
    requires
        n <= usize::MAX,
        forall|i: usize| #[trigger] f(i),
    ensures
        identity(n).filter(f) == identity(n),
    decreases n,
{
    reveal(Seq::filter);
    if n > 0 {
        let m = (n - 1) as nat;
        all_kept(m, f);
        assert(identity(n).drop_last() =~= identity(m));
        assert(identity(n) =~= identity(m).push(identity(n).last()));
    }
}

/// A filter of ASCII that grows by a character of ASCII shows no row that it hid.
pub proof fn longer_filter_shows_less(s: ScreenView, c: char)
    requires
        row_count(s.rows) <= usize::MAX,
        text::all_ascii(s.filter),
        c as u32 <= 0x7f,
    ensures
        forall|i: usize| #[trigger]
            visible(ScreenView { filter: s.filter.push(c), ..s }).contains(i) ==> visible(
                s,
            ).contains(i),
{
    let longer = s.filter.push(c);
    let t = ScreenView { filter: longer, ..s };
    visible_rows_match(s);
    visible_rows_match(t);
    assert(text::all_ascii(longer));
    assert(text::lowered(longer).take(s.filter.len() as int) =~= text::lowered(s.filter));
    assert forall|i: usize| #[trigger] visible(t).contains(i) implies visible(s).contains(i) by {
        let k = choose|k: int| 0 <= k < visible(t).len() && visible(t)[k] == i;
        let words = row_text(s.rows, i as int);
        assert(row_visible(t.rows, t.filter)(visible(t)[k]));
        if !(s.rows is Search) {
            text::infix_holds_beginnings(
                text::lowered(words),
                text::lowered(longer),
                s.filter.len() as int,
            );
        }
        assert(row_visible(s.rows, s.filter)(i));
    }
}

/// Two filters that agree on the numbers below `n` keep the same of them.
pub proof fn filters_agree(n: nat, f: spec_fn(usize) -> bool, g: spec_fn(usize) -> bool)
    requires
        n <= usize::MAX,
        forall|i: usize| i < n ==> #[trigger] f(i) == g(i),
    ensures
        identity(n).filter(f) == identity(n).filter(g),
    decreases n,
{
    reveal(Seq::filter);
    if n > 0 {
        let m = (n - 1) as nat;
        filters_agree(m, f, g);
        assert(identity(n).drop_last() =~= identity(m));
        assert(f(identity(n).last()) == g(identity(n).last()));
    }
}

fn two_words(a: &str, b: &str) -> (r: String)
    ensures
        r@ == a@ + " "@ + b@,
{
    a.to_owned().concat(" ").concat(b)
}

impl Rows {
    /// How many rows there are for a filter, or the cursor, to count.
    pub fn count(&self) -> (n: usize)
        ensures
            n == row_count(self@),
    {
        match self {
            Rows::Albums { albums, .. } => albums.len(),
            Rows::Songs { songs, .. } => songs.len(),
            Rows::Artists(artists) => artists.len(),
            Rows::Playlists(playlists) => playlists.len(),
            Rows::Genres(genres) => genres.len(),
            Rows::Search { results, .. } => results.len(),
            Rows::Queue(tracks) => tracks.len(),
            _ => 0,
        }
    }

    fn shows(&self, filter: &str, i: usize) -> (r: bool)
        requires
            i < row_count(self@),
        ensures
            r == row_visible(self@, filter@)(i),
    {
        match self {
            Rows::Albums { albums, .. } => is_match(
                two_words(albums[i].name.as_str(), albums[i].artist.as_str()).as_str(),
                filter,
            ),
            Rows::Songs { songs, .. } => is_match(
                two_words(songs[i].title.as_str(), songs[i].artist.as_str()).as_str(),
                filter,
            ),
            Rows::Artists(artists) => is_match(artists[i].name.as_str(), filter),
            Rows::Playlists(playlists) => is_match(playlists[i].name.as_str(), filter),
            Rows::Genres(genres) => is_match(genres[i].value.as_str(), filter),
            Rows::Queue(tracks) => is_match(
                two_words(tracks[i].title.as_str(), tracks[i].artist.as_str()).as_str(),
                filter,
            ),
            _ => true,
        }
    }
}

impl Screen {
    /// The rows that the filter leaves visible, in order.
    pub fn visible_indices(&self) -> (v: Vec<usize>)
        ensures
            v@ == visible(self@),
    {
        let n: usize = self.rows.count();
        let mut v: Vec<usize> = Vec::new();
        let ghost f = row_visible(self@.rows, self@.filter);
        let mut i: usize = 0;
        proof {
            reveal(Seq::filter);
        }
        assert(identity(0).filter(f) =~= Seq::<usize>::empty());
        while i < n
            invariant
                i <= n,
                n == row_count(self@.rows),
                f == row_visible(self@.rows, self@.filter),
                v@ == identity(i as nat).filter(f),
            decreases n - i,
        {
            proof {
                reveal(Seq::filter);
                assert(identity((i + 1) as nat).drop_last() =~= identity(i as nat));
                assert(identity((i + 1) as nat).last() == i);
            }
            if self.rows.shows(self.filter.as_str(), i) {
                v.push(i);
            }
            i = i + 1;
        }
        v
    }

    /// The row under the cursor, as an index in the whole list.
    pub fn cursor_row(&self) -> (r: Option<usize>)
        ensures
            r == row_at_cursor(self@),
            r is Some ==> r->0 < row_count(self@.rows),
    {
        let n: usize = self.rows.count();
        let v = self.visible_indices();
        proof {
            visible_rows_match(self@);
        }
        if self.selected < v.len() {
            Some(v[self.selected])
        } else {
            None
        }
    }
}

/// The place `delta` steps from `current` on a ring of `len` places.
pub open spec fn stepped(current: int, delta: int, len: int) -> int {
    (current + delta) % len
}

/// The place `delta` steps from `current` on a ring of `len` places.
pub fn step_around(current: usize, delta: i32, len: usize) -> (next: usize)
    requires
        len > 0,
    ensures
        next == stepped(current as int, delta as int, len as int),
        next < len,
{
    let sum: i128 = current as i128 + delta as i128;
    let l: i128 = len as i128;
    if sum >= 0 {
        let next: usize = (sum as u128 % len as u128) as usize;
        assert(0 <= sum % l < l);
        next
    } else {
        let below: u128 = (-sum) as u128;
        let over: u128 = below % len as u128;
        let ghost q = below as int / len as int;
        proof {
            vstd::arithmetic::div_mod::lemma_fundamental_div_mod(below as int, len as int);
        }
        if over == 0 {
            proof {
                assert(sum as int == len as int * (-q) + 0) by (nonlinear_arith)
                    requires
                        sum as int == -(below as int),
                        below as int == len as int * q + over as int,
                        over == 0,
                ;
                vstd::arithmetic::div_mod::lemma_fundamental_div_mod_converse(
                    sum as int,
                    len as int,
                    -q,
                    0,
                );
            }
            0
        } else {
            let next: usize = (len as u128 - over) as usize;
            proof {
                assert(sum as int == len as int * (-q - 1) + next as int) by (nonlinear_arith)
                    requires
                        sum as int == -(below as int),
                        below as int == len as int * q + over as int,
                        next as int == len as int - over as int,
                ;
                vstd::arithmetic::div_mod::lemma_fundamental_div_mod_converse(
                    sum as int,
                    len as int,
                    -q - 1,
                    next as int,
                );
            }
            next
        }
    }
}

/// A step forth and a step back lead to where the cursor was.
pub proof fn steps_undo(current: int, delta: int, len: int)
    requires
        0 <= current < len,
    ensures
        stepped(stepped(current, delta, len), -delta, len) == current,
{
    vstd::arithmetic::div_mod::lemma_fundamental_div_mod(current + delta, len);
    let q = (current + delta) / len;
    let r = stepped(current, delta, len);
    assert(r - delta == len * (-q) + current) by (nonlinear_arith)
        requires
            current + delta == len * q + r,
    ;
    vstd::arithmetic::div_mod::lemma_fundamental_div_mod_converse(r - delta, len, -q, current);
}

/// What a key does to a filter that is being edited: the filter and the cursor
/// after it, whether editing stops, and whether the key is used up. Nothing for a
/// key that editing leaves alone. A slash, which starts editing, is used up and
/// not typed.
pub open spec fn filter_key(filter: Seq<char>, selected: usize, code: KeyCode) -> Option<
    (Seq<char>, usize, bool, bool),
> {
    match code {
        KeyCode::Char(c) => if c == '/' {
            Some((filter, selected, false, true))
        } else {
            Some((filter.push(c), 0, false, true))
        },
        KeyCode::Backspace => Some(
            (
                if filter.len() == 0 {
                    filter
                } else {
                    filter.drop_last()
                },
                0,
                false,
                true,
            ),
        ),
        KeyCode::Esc => Some((Seq::empty(), 0, true, true)),
        KeyCode::Enter => Some((filter, selected, true, false)),
        _ => None,
    }
}

/// Edits a filter, see [`filter_key`]. Returns whether editing stops, and whether
/// the key is used up.
pub fn apply_filter_key(filter: &mut String, selected: &mut usize, code: KeyCode) -> (r: Option<
    (bool, bool),
>)
    ensures
        match filter_key(old(filter)@, *old(selected), code) {
            Some((f, s, stop, used)) => {
                &&& final(filter)@ == f
                &&& *final(selected) == s
                &&& r == Some((stop, used))
            },
            None => {
                &&& final(filter)@ == old(filter)@
                &&& *final(selected) == *old(selected)
                &&& r is None
            },
        },
{
    match code {
        KeyCode::Char(c) => if c == '/' {
            Some((false, true))
        } else {
            filter.push(c);
            *selected = 0;
            Some((false, true))
        },
        KeyCode::Backspace => {
            *filter = text::without_last(filter.as_str());
            *selected = 0;
            Some((false, true))
        },
        KeyCode::Esc => {
            *filter = String::new();
            assert(filter@ =~= Seq::<char>::empty());
            *selected = 0;
            Some((true, true))
        },
        KeyCode::Enter => Some((true, false)),
        _ => None,
    }
}

/// The rows of the home screen, list after list: the list and the row in it.
pub open spec fn home_rows(sections: Seq<SectionView>) -> Seq<(usize, usize)>
    decreases sections.len(),
{
    if sections.len() == 0 {
        Seq::empty()
    } else {
        let last = (sections.len() - 1) as usize;
        home_rows(sections.drop_last()) + Seq::new(
            sections.last().songs.len(),
            |row: int| (last, row as usize),
        )
    }
}

/// The place of a row among the rows of the home screen; the first where it is
/// none of them.
pub open spec fn home_place(rows: Seq<(usize, usize)>, at: (usize, usize)) -> int {
    let p = pair_place(rows, at);
    if p < rows.len() {
        p
    } else {
        0
    }
}

/// The first place of `at`, or the length of `rows` where it is not there.
pub open spec fn pair_place(rows: Seq<(usize, usize)>, at: (usize, usize)) -> int
    decreases rows.len(),
{
    if rows.len() == 0 || rows[0] == at {
        0
    } else {
        1 + pair_place(rows.skip(1), at)
    }
}

/// Where the cursor of the home screen goes: through the rows of all its lists as
/// one ring. Without a row it stays.
pub open spec fn home_stepped(
    sections: Seq<SectionView>,
    section: usize,
    selected: usize,
    delta: int,
) -> (usize, usize) {
    let rows = home_rows(sections);
    if rows.len() == 0 {
        (section, selected)
    } else {
        rows[stepped(home_place(rows, (section, selected)), delta, rows.len() as int)]
    }
}

/// Every row of the home screen is one of its lists' rows.
proof fn home_rows_exist(sections: Seq<SectionView>)
    requires
        sections.len() <= usize::MAX,
        forall|i: int|
            0 <= i < sections.len() ==> (#[trigger] sections[i]).songs.len() <= usize::MAX,
    ensures
        forall|k: int|
            0 <= k < home_rows(sections).len() ==> {
                let (s, r) = #[trigger] home_rows(sections)[k];
                s < sections.len() && r < sections[s as int].songs.len()
            },
    decreases sections.len(),
{
    if sections.len() > 0 {
        let init = sections.drop_last();
        home_rows_exist(init);
        let before = home_rows(init);
        let all = home_rows(sections);
        assert forall|k: int| 0 <= k < all.len() implies {
            let (s, r) = #[trigger] all[k];
            s < sections.len() && r < sections[s as int].songs.len()
        } by {
            if k < before.len() {
                assert(all[k] == before[k]);
            }
        }
    }
}

/// Wherever the cursor of the home screen was, moving it leads to a row of one of
/// the lists, if any list has a row.
pub proof fn home_cursor_lands_on_a_row(
    sections: Seq<SectionView>,
    section: usize,
    selected: usize,
    delta: int,
)
    requires
        sections.len() <= usize::MAX,
        forall|i: int|
            0 <= i < sections.len() ==> (#[trigger] sections[i]).songs.len() <= usize::MAX,
        home_rows(sections).len() > 0,
    ensures
        ({
            let (s, r) = home_stepped(sections, section, selected, delta);
            s < sections.len() && r < sections[s as int].songs.len()
        }),
{
    home_rows_exist(sections);
    let rows = home_rows(sections);
    let k = stepped(home_place(rows, (section, selected)), delta, rows.len() as int);
    assert(0 <= k < rows.len());
    assert(rows[k] == home_stepped(sections, section, selected, delta));
}

/// [`pair_place`] is the first place that holds `at`.
proof fn pair_place_is_first(rows: Seq<(usize, usize)>, at: (usize, usize))
    ensures
        0 <= pair_place(rows, at) <= rows.len(),
        rows.contains(at) <==> pair_place(rows, at) < rows.len(),
        pair_place(rows, at) < rows.len() ==> rows[pair_place(rows, at)] == at,
    decreases rows.len(),
{
    if rows.len() > 0 && rows[0] != at {
        let rest = rows.skip(1);
        pair_place_is_first(rest, at);
        if rows.contains(at) {
            let k = choose|k: int| 0 <= k < rows.len() && rows[k] == at;
            assert(rest[k - 1] == at);
        }
    }
}

/// The rows of the home screen are all the rows of its lists, each once.
pub proof fn home_rows_are_distinct(sections: Seq<SectionView>)
    requires
        sections.len() <= usize::MAX,
        forall|i: int|
            0 <= i < sections.len() ==> (#[trigger] sections[i]).songs.len() <= usize::MAX,
    ensures
        home_rows(sections).no_duplicates(),
        forall|s: usize, r: usize| #[trigger]
            home_rows(sections).contains((s, r)) <==> s < sections.len() && r
                < sections[s as int].songs.len(),
    decreases sections.len(),
{
    home_rows_exist(sections);
    let all = home_rows(sections);
    if sections.len() > 0 {
        let init = sections.drop_last();
        let last = (sections.len() - 1) as usize;
        let before = home_rows(init);
        let n = sections.last().songs.len();
        let added = Seq::new(n, |row: int| (last, row as usize));
        home_rows_are_distinct(init);
        home_rows_exist(init);
        assert(all == before + added);
        assert forall|i: int, j: int| 0 <= i < j < all.len() implies all[i] != all[j] by {
            if j < before.len() {
                assert(before[i] != before[j]);
            } else if i < before.len() {
                let (s, r) = before[i];
                assert(s < init.len());
            }
        }
        assert forall|s: usize, r: usize|
            s < sections.len() && r < sections[s as int].songs.len() implies #[trigger] all.contains(
            (s, r),
        ) by {
            if s < last {
                assert(init[s as int] == sections[s as int]);
                assert(before.contains((s, r)));
                let k = choose|k: int| 0 <= k < before.len() && before[k] == (s, r);
                assert(all[k] == (s, r));
            } else {
                assert(all[before.len() + r] == (s, r));
            }
        }
    }
    assert forall|s: usize, r: usize| #[trigger] all.contains((s, r)) implies s < sections.len() && r
        < sections[s as int].songs.len() by {
        let k = choose|k: int| 0 <= k < all.len() && all[k] == (s, r);
        assert(all[k].0 < sections.len());
    }
}

/// A step forth and a step back on the home screen lead to the row where the cursor
/// was.
pub proof fn home_steps_undo(
    sections: Seq<SectionView>,
    section: usize,
    selected: usize,
    delta: int,
)
    requires
        sections.len() <= usize::MAX,
        forall|i: int|
            0 <= i < sections.len() ==> (#[trigger] sections[i]).songs.len() <= usize::MAX,
        section < sections.len(),
        selected < sections[section as int].songs.len(),
    ensures
        ({
            let (s, r) = home_stepped(sections, section, selected, delta);
            home_stepped(sections, s, r, -delta) == (section, selected)
        }),
{
    let rows = home_rows(sections);
    let n = rows.len() as int;
    home_rows_are_distinct(sections);
    assert(rows.contains((section, selected)));
    pair_place_is_first(rows, (section, selected));
    let from = home_place(rows, (section, selected));
    let to = stepped(from, delta, n);
    vstd::arithmetic::div_mod::lemma_mod_bound(from + delta, n);
    let there = rows[to];
    assert(rows.contains(there));
    pair_place_is_first(rows, there);
    assert(home_place(rows, there) == to);
    steps_undo(from, delta, n);
}

/// Moves the cursor of the home screen, see [`home_stepped`].
pub fn home_move_selection(
    sections: &[HomeSection],
    section: &mut usize,
    selected: &mut usize,
    delta: i32,
)
    ensures
        (*final(section), *final(selected)) == home_stepped(
            section_views(sections@),
            *old(section),
            *old(selected),
            delta as int,
        ),
{
    let mut rows: Vec<(usize, usize)> = Vec::new();
    let ghost all = section_views(sections@);
    let mut i: usize = 0;
    assert(all.take(0) =~= Seq::<SectionView>::empty());
    while i < sections.len()
        invariant
            i <= sections.len(),
            all == section_views(sections@),
            rows@ == home_rows(all.take(i as int)),
        decreases sections.len() - i,
    {
        let n: usize = sections[i].songs.len();
        let ghost before = rows@;
        let ghost added = Seq::new(n as nat, |row: int| (i, row as usize));
        let mut r: usize = 0;
        while r < n
            invariant
                r <= n,
                added == Seq::new(n as nat, |row: int| (i, row as usize)),
                rows@ == before + added.take(r as int),
            decreases n - r,
        {
            rows.push((i, r));
            r = r + 1;
            assert(rows@ =~= before + added.take(r as int));
        }
        assert(added.take(r as int) =~= added);
        assert(all.take(i + 1).drop_last() =~= all.take(i as int));
        assert(all.take(i + 1).last() == sections@[i as int]@);
        i = i + 1;
        assert(rows@ =~= home_rows(all.take(i as int)));
    }
    assert(all.take(i as int) =~= all);
    if rows.len() == 0 {
        return;
    }
    let at: (usize, usize) = (*section, *selected);
    let mut k: usize = 0;
    assert(rows@.skip(0) =~= rows@);
    while k < rows.len() && !(rows[k].0 == at.0 && rows[k].1 == at.1)
        invariant
            k <= rows.len(),
            pair_place(rows@, at) == k + pair_place(rows@.skip(k as int), at),
        decreases rows.len() - k,
    {
        assert(rows@.skip(k as int)[0] == rows@[k as int]);
        assert(rows@.skip(k as int).skip(1) =~= rows@.skip(k + 1));
        k = k + 1;
    }
    let current: usize = if k < rows.len() {
        assert(rows@.skip(k as int)[0] == at);
        k
    } else {
        0
    };
    assert(current == home_place(rows@, at));
    let next: usize = step_around(current, delta, rows.len());
    let (s, r) = rows[next];
    *section = s;
    *selected = r;
}

/// Whether `/` filters what a screen lists.
pub open spec fn filterable(rows: RowsView) -> bool {
    rows is Albums || rows is Songs || rows is Artists || rows is Playlists || rows is Genres
        || rows is Queue
}

/// Whether the cursor of a list is on a row that shows, or at its start.
pub open spec fn cursor_in_list(s: ScreenView) -> bool {
    &&& filterable(s.rows) ==> s.selected == 0 || s.selected < visible(s).len()
    &&& s.rows is Search ==> s.selected == 0 || s.selected < row_count(s.rows)
}

/// Moving the cursor keeps it in its list.
pub proof fn moving_keeps_cursor_in_list(s: ScreenView, delta: int)
    requires
        cursor_in_list(s),
        row_count(s.rows) <= usize::MAX,
    ensures
        cursor_in_list(cursor_moved(s, delta)),
{
    let t = cursor_moved(s, delta);
    visible_rows_match(s);
    if filterable(s.rows) {
        assert(t.rows == s.rows && t.filter == s.filter);
        assert(visible(t) == visible(s));
        if visible(s).len() > 0 {
            let len = visible(s).len() as int;
            assert(0 <= stepped(s.selected as int, delta, len) < len) by {
                vstd::arithmetic::div_mod::lemma_mod_bound(s.selected + delta, len);
            }
        }
    } else if s.rows is Search && row_count(s.rows) > 0 {
        let len = row_count(s.rows) as int;
        assert(0 <= stepped(s.selected as int, delta, len) < len) by {
            vstd::arithmetic::div_mod::lemma_mod_bound(s.selected + delta, len);
        }
    }
}

/// A screen with the cursor `delta` rows further. Lists are rings; a text is
/// scrolled, and stops at its start.
pub open spec fn cursor_moved(s: ScreenView, delta: int) -> ScreenView {
    match s.rows {
        RowsView::Search { editing, results, .. } => if editing || results.len() == 0 {
            s
        } else {
            ring_moved(s, delta, results.len())
        },
        RowsView::Home { sections, section } => {
            let (to, row) = home_stepped(sections, section, s.selected, delta);
            ScreenView {
                rows: RowsView::Home { sections, section: to },
                selected: row,
                ..s
            }
        },
        RowsView::Picker { playlists, .. } => ring_moved(s, delta, playlists.len()),
        RowsView::Info { .. } => ScreenView { selected: scrolled(s.selected, delta), ..s },
        RowsView::Settings(_) => s,
        _ => ring_moved(s, delta, visible(s).len()),
    }
}

/// A screen with the cursor `delta` places further on a ring of `len` rows; where
/// it was without a row.
pub open spec fn ring_moved(s: ScreenView, delta: int, len: nat) -> ScreenView {
    if len == 0 {
        s
    } else {
        ScreenView { selected: stepped(s.selected as int, delta, len as int) as usize, ..s }
    }
}

/// The line at the top of a text that is scrolled by `delta` lines.
pub open spec fn scrolled(at: usize, delta: int) -> usize {
    if at + delta < 0 {
        0
    } else if at + delta > usize::MAX {
        usize::MAX
    } else {
        (at + delta) as usize
    }
}

fn scroll_by(at: usize, delta: i32) -> (r: usize)
    ensures
        r == scrolled(at, delta as int),
{
    let to: i128 = at as i128 + delta as i128;
    if to < 0 {
        0
    } else if to > usize::MAX as i128 {
        usize::MAX
    } else {
        to as usize
    }
}

impl Screen {
    fn ring(&mut self, delta: i32, len: usize)
        ensures
            final(self)@ == ring_moved(old(self)@, delta as int, len as nat),
    {
        if len > 0 {
            self.selected = step_around(self.selected, delta, len);
        }
    }

    /// Moves the cursor, see [`cursor_moved`].
    pub fn move_selection(&mut self, delta: i32)
        ensures
            final(self)@ == cursor_moved(old(self)@, delta as int),
    {
        let ghost before = self@;
        let len: usize = match &self.rows {
            Rows::Search { editing, results, .. } => if *editing {
                0
            } else {
                results.len()
            },
            Rows::Home { .. } => 0,
            Rows::Picker { playlists, .. } => playlists.len(),
            Rows::Info { .. } => 0,
            Rows::Settings(_) => 0,
            _ => self.visible_indices().len(),
        };
        match &mut self.rows {
            Rows::Home { sections, section } => {
                home_move_selection(sections.as_slice(), section, &mut self.selected, delta);
            },
            Rows::Info { .. } => {
                self.selected = scroll_by(self.selected, delta);
            },
            _ => {
                self.ring(delta, len);
            },
        }
        assert(self@ =~= cursor_moved(before, delta as int));
    }
}

/// Whether rows of a screen can be marked: those of songs.
pub open spec fn markable(rows: RowsView) -> bool {
    rows is Songs || rows is Queue || (rows matches RowsView::Search { editing, .. } && !editing)
}

/// Whether a row is marked.
pub open spec fn is_marked(marked: Seq<usize>) -> spec_fn(usize) -> bool {
    |i: usize| marked.contains(i)
}

/// The marked rows, in the order of the list.
pub open spec fn marked_rows(s: ScreenView) -> Seq<usize> {
    if markable(s.rows) {
        identity(row_count(s.rows)).filter(is_marked(s.marked))
    } else {
        Seq::empty()
    }
}

/// The rows that an action is about: the marked ones, else the one under the
/// cursor.
pub open spec fn chosen_rows(s: ScreenView) -> Seq<usize> {
    if marked_rows(s).len() > 0 {
        marked_rows(s)
    } else {
        match row_at_cursor(s) {
            Some(i) => seq![i],
            None => Seq::empty(),
        }
    }
}

/// A screen with the mark of the row under the cursor set, or taken away.
pub open spec fn mark_toggled(s: ScreenView) -> ScreenView {
    match row_at_cursor(s) {
        Some(i) => if !markable(s.rows) {
            s
        } else if s.marked.contains(i) {
            ScreenView { marked: s.marked.filter(crate::play_order::other_than(i)), ..s }
        } else {
            ScreenView { marked: s.marked.push(i), ..s }
        },
        None => s,
    }
}

/// Whether a number is in a list.
pub fn holds(list: &Vec<usize>, wanted: usize) -> (r: bool)
    ensures
        r == list@.contains(wanted),
{
    let mut i: usize = 0;
    while i < list.len()
        invariant
            i <= list.len(),
            forall|k: int| 0 <= k < i ==> #[trigger] list@[k] != wanted,
        decreases list.len() - i,
    {
        if list[i] == wanted {
            assert(list@[i as int] == wanted);
            return true;
        }
        i = i + 1;
    }
    false
}

impl Rows {
    /// Whether rows can be marked here.
    pub fn can_mark(&self) -> (r: bool)
        ensures
            r == markable(self@),
    {
        match self {
            Rows::Songs { .. } => true,
            Rows::Queue(_) => true,
            Rows::Search { editing, .. } => !*editing,
            _ => false,
        }
    }

    /// Whether `/` filters what is listed here.
    pub fn can_filter(&self) -> (r: bool)
        ensures
            r == filterable(self@),
    {
        match self {
            Rows::Albums { .. } => true,
            Rows::Songs { .. } => true,
            Rows::Artists(_) => true,
            Rows::Playlists(_) => true,
            Rows::Genres(_) => true,
            Rows::Queue(_) => true,
            _ => false,
        }
    }
}

impl Screen {
    /// Sets the mark of the row under the cursor, or takes it away.
    pub fn toggle_mark(&mut self)
        ensures
            final(self)@ == mark_toggled(old(self)@),
    {
        if !self.rows.can_mark() {
            return;
        }
        match self.cursor_row() {
            None => {},
            Some(i) => {
                if holds(&self.marked, i) {
                    let ghost before = self.marked@;
                    let mut kept: Vec<usize> = Vec::new();
                    let mut k: usize = 0;
                    proof {
                        reveal(Seq::filter);
                    }
                    assert(before.take(0).filter(crate::play_order::other_than(i)) =~= Seq::<
                        usize,
                    >::empty());
                    while k < self.marked.len()
                        invariant
                            k <= self.marked.len(),
                            before == self.marked@,
                            kept@ == before.take(k as int).filter(
                                crate::play_order::other_than(i),
                            ),
                        decreases self.marked.len() - k,
                    {
                        proof {
                            reveal(Seq::filter);
                            assert(before.take(k + 1).drop_last() =~= before.take(k as int));
                        }
                        if self.marked[k] != i {
                            kept.push(self.marked[k]);
                        }
                        k = k + 1;
                    }
                    assert(before.take(k as int) =~= before);
                    self.marked = kept;
                } else {
                    self.marked.push(i);
                }
            },
        }
    }

    /// The marked rows, in the order of the list.
    pub fn marks(&self) -> (v: Vec<usize>)
        ensures
            v@ == marked_rows(self@),
    {
        let mut v: Vec<usize> = Vec::new();
        if !self.rows.can_mark() {
            return v;
        }
        let n: usize = self.rows.count();
        let ghost f = is_marked(self@.marked);
        let mut i: usize = 0;
        proof {
            reveal(Seq::filter);
        }
        assert(identity(0).filter(f) =~= Seq::<usize>::empty());
        while i < n
            invariant
                i <= n,
                n == row_count(self@.rows),
                f == is_marked(self@.marked),
                v@ == identity(i as nat).filter(f),
            decreases n - i,
        {
            proof {
                reveal(Seq::filter);
                assert(identity((i + 1) as nat).drop_last() =~= identity(i as nat));
                assert(identity((i + 1) as nat).last() == i);
            }
            if holds(&self.marked, i) {
                v.push(i);
            }
            i = i + 1;
        }
        v
    }

    /// The rows that an action is about: the marked ones, else the one under the
    /// cursor.
    pub fn chosen(&self) -> (v: Vec<usize>)
        ensures
            v@ == chosen_rows(self@),
            forall|k: int| 0 <= k < v@.len() ==> (#[trigger] v@[k]) < row_count(self@.rows),
    {
        let n: usize = self.rows.count();
        let marked = self.marks();
        proof {
            filtered_identity(row_count(self@.rows), is_marked(self@.marked));
        }
        if marked.len() > 0 {
            return marked;
        }
        let mut v: Vec<usize> = Vec::new();
        match self.cursor_row() {
            Some(i) => {
                v.push(i);
            },
            None => {},
        }
        assert(v@ =~= chosen_rows(self@));
        v
    }
}

/// Marking a row twice leaves its mark as it was.
pub proof fn marking_twice_undoes(s: ScreenView)
    requires
        s.marked.no_duplicates(),
    ensures
        is_marked(mark_toggled(mark_toggled(s)).marked) =~= is_marked(s.marked),
{
    broadcast use vstd::seq_lib::group_filter_ensures;

    match row_at_cursor(s) {
        Some(i) => {
            if markable(s.rows) {
                let once = mark_toggled(s);
                let twice = mark_toggled(once);
                assert(once.rows == s.rows && once.selected == s.selected && once.filter
                    == s.filter);
                assert(visible(once) == visible(s));
                assert(row_at_cursor(once) == Some(i));
                let f = crate::play_order::other_than(i);
                if s.marked.contains(i) {
                    let kept = s.marked.filter(f);
                    assert(!kept.contains(i)) by {
                        if kept.contains(i) {
                            let k = choose|k: int| 0 <= k < kept.len() && kept[k] == i;
                            assert(f(kept[k]));
                        }
                    }
                    assert(twice.marked == kept.push(i));
                    assert forall|x: usize| s.marked.contains(x) == #[trigger] twice.marked.contains(
                        x,
                    ) by {
                        if s.marked.contains(x) && x != i {
                            let k = choose|k: int| 0 <= k < s.marked.len() && s.marked[k] == x;
                            assert(f(s.marked[k]));
                            assert(kept.contains(s.marked[k]));
                            let m = choose|m: int| 0 <= m < kept.len() && kept[m] == x;
                            assert(twice.marked[m] == x);
                        }
                        if x == i {
                            assert(twice.marked[kept.len() as int] == i);
                        }
                        if twice.marked.contains(x) && x != i {
                            let m = choose|m: int|
                                0 <= m < twice.marked.len() && twice.marked[m] == x;
                            assert(kept[m] == x);
                            kept_from(s.marked, f, m);
                        }
                    }
                } else {
                    assert(once.marked == s.marked.push(i));
                    assert(once.marked[s.marked.len() as int] == i);
                    push_then_filter(s.marked, i);
                    assert(twice.marked == s.marked);
                }
            }
        },
        None => {},
    }
}

/// What a filter keeps was there before.
proof fn kept_from(list: Seq<usize>, f: spec_fn(usize) -> bool, m: int)
    requires
        0 <= m < list.filter(f).len(),
    ensures
        list.contains(list.filter(f)[m]),
    decreases list.len(),
{
    reveal(Seq::filter);
    if list.len() > 0 {
        let init = list.drop_last();
        let kept = init.filter(f);
        if m < kept.len() {
            kept_from(init, f, m);
            let k = choose|k: int| 0 <= k < init.len() && init[k] == kept[m];
            assert(list[k] == kept[m]);
        } else {
            assert(list[list.len() - 1] == list.filter(f)[m]);
        }
    }
}

/// Taking out a value that was just added, and was not there before, restores a
/// list.
proof fn push_then_filter(list: Seq<usize>, i: usize)
    requires
        !list.contains(i),
    ensures
        list.push(i).filter(crate::play_order::other_than(i)) == list,
    decreases list.len(),
{
    reveal(Seq::filter);
    assert(list.push(i).drop_last() =~= list);
    none_dropped(list, i);
}

proof fn none_dropped(list: Seq<usize>, i: usize)
    requires
        !list.contains(i),
    ensures
        list.filter(crate::play_order::other_than(i)) == list,
    decreases list.len(),
{
    reveal(Seq::filter);
    if list.len() > 0 {
        let init = list.drop_last();
        assert forall|k: int| 0 <= k < init.len() implies init[k] != i by {
            assert(init[k] == list[k]);
        }
        none_dropped(init, i);
        assert(list.last() != i);
        assert(list =~= init.push(list.last()));
    }
}

/// The chosen rows are rows of the list, each once, in order.
pub proof fn chosen_rows_ascend(s: ScreenView)
    requires
        row_count(s.rows) <= usize::MAX,
    ensures
        forall|i: int, j: int|
            0 <= i < j < chosen_rows(s).len() ==> #[trigger] chosen_rows(s)[i]
                < #[trigger] chosen_rows(s)[j],
        forall|k: int|
            0 <= k < chosen_rows(s).len() ==> (#[trigger] chosen_rows(s)[k]) < row_count(s.rows),
{
    filtered_identity(row_count(s.rows), is_marked(s.marked));
    visible_rows_match(s);
}

/// The filter looks at the names of albums, artists, playlists and genres, at the titles of
/// songs and tracks, and at the artist behind a title; the results of a search are all
/// visible.
pub proof fn filter_looks_at_names_and_titles(rows: RowsView, filter: Seq<char>, i: usize)
    ensures
        ({
            let seen = row_visible(rows, filter)(i);
            &&& rows matches RowsView::Albums { albums, .. } ==> seen == matches_filter(
                albums[i as int].name@ + " "@ + albums[i as int].artist@,
                filter,
            )
            &&& rows matches RowsView::Songs { songs, .. } ==> seen == matches_filter(
                songs[i as int].title + " "@ + songs[i as int].artist,
                filter,
            )
            &&& rows matches RowsView::Artists(artists) ==> seen == matches_filter(
                artists[i as int].name@,
                filter,
            )
            &&& rows matches RowsView::Playlists(playlists) ==> seen == matches_filter(
                playlists[i as int].name@,
                filter,
            )
            &&& rows matches RowsView::Genres(genres) ==> seen == matches_filter(
                genres[i as int].value@,
                filter,
            )
            &&& rows matches RowsView::Queue(tracks) ==> seen == matches_filter(
                tracks[i as int].title@ + " "@ + tracks[i as int].artist@,
                filter,
            )
            &&& rows is Search ==> seen
        }),
{
}

/// A text is found by any part of it, in whatever case the filter is written; an empty
/// filter finds every text.
pub proof fn filter_finds_any_part(before: Seq<char>, part: Seq<char>, after: Seq<char>)
    requires
        text::all_ascii(before),
        text::all_ascii(part),
        text::all_ascii(after),
    ensures
        matches_filter(before + part + after, part),
        matches_filter(before + part + after, part.map_values(|c: char| text::ascii_upper(c))),
        matches_filter(before + part + after, part.map_values(|c: char| text::ascii_lower(c))),
        matches_filter(before, Seq::empty()),
{
    let s = before + part + after;
    assert(text::all_ascii(s));
    let up = part.map_values(|c: char| text::ascii_upper(c));
    let down = part.map_values(|c: char| text::ascii_lower(c));
    assert(text::all_ascii(up));
    assert(text::all_ascii(down));
    let k = before.len() as int;
    assert(text::lowered(s).subrange(k, k + part.len()) =~= text::lowered(part));
    assert(text::lowered(up) =~= text::lowered(part));
    assert(text::lowered(down) =~= text::lowered(part));
}

/// Songs can be marked wherever they are listed, in the queue, too; nothing else can, nor
/// results while the search is being typed.
pub proof fn songs_can_be_marked(rows: RowsView)
    ensures
        rows is Songs || rows is Queue ==> markable(rows),
        rows matches RowsView::Search { editing, .. } ==> markable(rows) == !editing,
        rows is Albums || rows is Artists || rows is Playlists || rows is Genres || rows is Home
            || rows is Picker || rows is Info || rows is Settings ==> !markable(rows),
        filterable(rows) <==> rows is Albums || rows is Songs || rows is Artists
            || rows is Playlists || rows is Genres || rows is Queue,
{
}

/// A cursor of the home screen that is on no row counts from the first one.
pub proof fn lost_home_cursor_counts_from_the_first(
    sections: Seq<SectionView>,
    section: usize,
    selected: usize,
)
    requires
        home_rows(sections).len() > 0,
        !home_rows(sections).contains((section, selected)),
    ensures
        home_stepped(sections, section, selected, 0) == home_rows(sections)[0],
{
    let rows = home_rows(sections);
    pair_place_is_first(rows, (section, selected));
    vstd::arithmetic::div_mod::lemma_small_mod(0, rows.len());
}

} // verus!
