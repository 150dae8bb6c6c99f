//! The terminal interface as a state machine. A key leads to the next state and to
//! an action for the program around it; what the action comes to leads on from
//! there.
use crate::ieee::Real32;
use crate::json::{item_views, text_views};
use crate::library::{
    Album, AlbumInfo, Artist, ArtistInfo, Genre, Playlist, Song, SongView,
};
use crate::lyrics::LyricLine;
use crate::protocol::{QueueRow, Request, StatusTuple};
use crate::screen::{
    apply_filter_key, HomeSection, KeyCode, NativeKind, Rows, RowsView, Screen, ScreenView,
    SectionView, Tab, UpdateState, HOME_PREVIEW_ROWS,
};
use crate::text;
use crate::time::{Duration, NANOS_PER_SEC};
use crate::update_check::CheckResult;
use vstd::prelude::*;

verus! {

/// How far the arrow keys seek.
pub const SEEK_STEP_SECS: u64 = 5;

/// What the interface knows of playback.
#[derive(Debug, PartialEq, Eq)]
pub struct NowPlaying {
    pub status: String,
    pub title: String,
    pub artist: String,
    pub position: Duration,
    pub duration: Duration,
    pub queue_index: u32,
    pub queue_len: u32,
    pub volume: Real32,
    pub format_label: String,
    pub lossless: bool,
    /// Empty without cover art.
    pub art_url: String,
    /// Empty without a current track.
    pub song_id: String,
    pub repeat: String,
    pub shuffle: bool,
    /// Spectrum bar levels; none without a daemon.
    pub spectrum: Vec<u8>,
}

/// Whether the interface shows what a status report says.
pub open spec fn shows_report(n: NowPlaying, t: StatusTuple) -> bool {
    &&& n.status == t.status
    &&& n.title == t.title
    &&& n.artist == t.artist
    &&& n.position == t.position
    &&& n.duration == t.duration
    &&& n.queue_index == t.queue_index
    &&& n.queue_len == t.queue_len
    &&& n.volume == t.volume
    &&& n.format_label == t.format_label
    &&& n.lossless == t.lossless
    &&& n.art_url == t.art_url
    &&& n.song_id == t.song_id
    &&& n.repeat == t.repeat
    &&& n.shuffle == t.shuffle
}

/// Whether the interface shows that no daemon answers.
pub open spec fn shows_disconnected(n: NowPlaying) -> bool {
    &&& n.status@ == "disconnected"@
    &&& n.title@.len() == 0
    &&& n.artist@.len() == 0
    &&& n.position.nanos == 0
    &&& n.duration.nanos == 0
    &&& n.queue_index == 0
    &&& n.queue_len == 0
    &&& n.volume.bits == crate::ieee::ONE_32
    &&& n.format_label@.len() == 0
    &&& !n.lossless
    &&& n.art_url@.len() == 0
    &&& n.song_id@.len() == 0
    &&& n.repeat@ == "off"@
    &&& !n.shuffle
    &&& n.spectrum@.len() == 0
}

/// What the interface knows of playback, from what the daemon answered to the
/// requests for its status and its spectrum. A spectrum that did not come leaves
/// the rest as it is.
pub fn now_playing(status: Option<StatusTuple>, spectrum: Option<Vec<u8>>) -> (n: NowPlaying)
    ensures
        match status {
            Some(t) => shows_report(n, t) && match spectrum {
                Some(levels) => n.spectrum == levels,
                None => n.spectrum@.len() == 0,
            },
            None => shows_disconnected(n),
        },
{
    match status {
        Some(t) => NowPlaying {
            status: t.status,
            title: t.title,
            artist: t.artist,
            position: t.position,
            duration: t.duration,
            queue_index: t.queue_index,
            queue_len: t.queue_len,
            volume: t.volume,
            format_label: t.format_label,
            lossless: t.lossless,
            art_url: t.art_url,
            song_id: t.song_id,
            repeat: t.repeat,
            shuffle: t.shuffle,
            spectrum: match spectrum {
                Some(levels) => levels,
                None => Vec::new(),
            },
        },
        None => NowPlaying {
            status: "disconnected".to_owned(),
            title: String::new(),
            artist: String::new(),
            position: Duration::zero(),
            duration: Duration::zero(),
            queue_index: 0,
            queue_len: 0,
            volume: Real32::one(),
            format_label: String::new(),
            lossless: false,
            art_url: String::new(),
            song_id: String::new(),
            repeat: "off".to_owned(),
            shuffle: false,
            spectrum: Vec::new(),
        },
    }
}

/// What a text that the user types in is for.
#[derive(Debug, PartialEq, Eq)]
pub enum PromptAction {
    NewPlaylist,
    RenamePlaylist { id: String },
    SaveQueueAsPlaylist,
}

/// A line of text that the user is typing in.
#[derive(Debug, PartialEq, Eq)]
pub struct TextPrompt {
    pub action: PromptAction,
    pub text: String,
}

/// What a [`TextPrompt`] holds.
#[verifier::ext_equal]
pub struct PromptView {
    pub action: PromptAction,
    pub text: Seq<char>,
}

impl View for TextPrompt {
    type V = PromptView;

    open spec fn view(&self) -> PromptView {
        PromptView { action: self.action, text: self.text@ }
    }
}

/// Something that takes the server or the daemon to do. What came of it is handed
/// back, see [`App::complete`].
#[derive(Debug, PartialEq, Eq)]
pub enum Task {
    /// Fetch what a tab shows first. For the albums, `newest` tells their order.
    LoadTab { tab: Tab, newest: bool },
    OpenAlbum { id: String, title: String },
    OpenArtist { id: String, title: String },
    OpenPlaylist { id: String, title: String },
    OpenGenre { title: String },
    /// Fetch the whole of one of the server's own lists.
    Expand(NativeKind),
    RefreshPlaylist { id: String },
    /// Fetch the queue anew; the cursor follows the track at `follow`, if any.
    RefreshQueue { follow: Option<usize> },
    ArtistInfo { id: String, name: String },
    AlbumInfo { id: String, name: String },
    /// Fetch the playlists, to add songs to one of them.
    PickPlaylist { song_ids: Vec<String> },
    Search { query: String },
    NewPlaylist { name: String },
    SaveQueue { name: String, song_ids: Vec<String> },
    RenamePlaylist { id: String, name: String },
    DeletePlaylist { id: String },
    AddToPlaylist { id: String, name: String, song_ids: Vec<String> },
    /// Take songs out of a playlist, from the last of the rows to the first.
    RemoveFromPlaylist { id: String, rows: Vec<usize> },
    /// Star each of the songs, or take its star away.
    SetStarred { changes: Vec<(String, bool)> },
    PlayQueue { songs: Vec<Song> },
    Append { songs: Vec<Song> },
    PlayNext { songs: Vec<Song> },
    PlayAt { row: usize },
    /// Take tracks out of the queue, from the last of the rows to the first.
    RemoveFromQueue { rows: Vec<usize> },
    ClearQueue,
    MoveInQueue { from: usize, to: usize },
    CheckUpdate,
    InstallUpdate,
}

/// What a [`Task`] says.
#[verifier::ext_equal]
pub enum TaskView {
    LoadTab { tab: Tab, newest: bool },
    OpenAlbum { id: Seq<char>, title: Seq<char> },
    OpenArtist { id: Seq<char>, title: Seq<char> },
    OpenPlaylist { id: Seq<char>, title: Seq<char> },
    OpenGenre { title: Seq<char> },
    Expand(NativeKind),
    RefreshPlaylist { id: Seq<char> },
    RefreshQueue { follow: Option<usize> },
    ArtistInfo { id: Seq<char>, name: Seq<char> },
    AlbumInfo { id: Seq<char>, name: Seq<char> },
    PickPlaylist { song_ids: Seq<Seq<char>> },
    Search { query: Seq<char> },
    NewPlaylist { name: Seq<char> },
    SaveQueue { name: Seq<char>, song_ids: Seq<Seq<char>> },
    RenamePlaylist { id: Seq<char>, name: Seq<char> },
    DeletePlaylist { id: Seq<char> },
    AddToPlaylist { id: Seq<char>, name: Seq<char>, song_ids: Seq<Seq<char>> },
    RemoveFromPlaylist { id: Seq<char>, rows: Seq<usize> },
    SetStarred { changes: Seq<(Seq<char>, bool)> },
    PlayQueue { songs: Seq<SongView> },
    Append { songs: Seq<SongView> },
    PlayNext { songs: Seq<SongView> },
    PlayAt { row: usize },
    RemoveFromQueue { rows: Seq<usize> },
    ClearQueue,
    MoveInQueue { from: usize, to: usize },
    CheckUpdate,
    InstallUpdate,
}

impl View for Task {
    type V = TaskView;

    open spec fn view(&self) -> TaskView {
        match *self {
            Task::LoadTab { tab, newest } => TaskView::LoadTab { tab, newest },
            Task::OpenAlbum { id, title } => TaskView::OpenAlbum { id: id@, title: title@ },
            Task::OpenArtist { id, title } => TaskView::OpenArtist { id: id@, title: title@ },
            Task::OpenPlaylist { id, title } => TaskView::OpenPlaylist { id: id@, title: title@ },
            Task::OpenGenre { title } => TaskView::OpenGenre { title: title@ },
            Task::Expand(kind) => TaskView::Expand(kind),
            Task::RefreshPlaylist { id } => TaskView::RefreshPlaylist { id: id@ },
            Task::RefreshQueue { follow } => TaskView::RefreshQueue { follow },
            Task::ArtistInfo { id, name } => TaskView::ArtistInfo { id: id@, name: name@ },
            Task::AlbumInfo { id, name } => TaskView::AlbumInfo { id: id@, name: name@ },
            Task::PickPlaylist { song_ids } => TaskView::PickPlaylist { song_ids: text_views(song_ids@) },
            Task::Search { query } => TaskView::Search { query: query@ },
            Task::NewPlaylist { name } => TaskView::NewPlaylist { name: name@ },
            Task::SaveQueue { name, song_ids } => TaskView::SaveQueue {
                name: name@,
                song_ids: text_views(song_ids@),
            },
            Task::RenamePlaylist { id, name } => TaskView::RenamePlaylist { id: id@, name: name@ },
            Task::DeletePlaylist { id } => TaskView::DeletePlaylist { id: id@ },
            Task::AddToPlaylist { id, name, song_ids } => TaskView::AddToPlaylist {
                id: id@,
                name: name@,
                song_ids: text_views(song_ids@),
            },
            Task::RemoveFromPlaylist { id, rows } => TaskView::RemoveFromPlaylist {
                id: id@,
                rows: rows@,
            },
            Task::SetStarred { changes } => TaskView::SetStarred { changes: change_views(changes@) },
            Task::PlayQueue { songs } => TaskView::PlayQueue { songs: item_views(songs@) },
            Task::Append { songs } => TaskView::Append { songs: item_views(songs@) },
            Task::PlayNext { songs } => TaskView::PlayNext { songs: item_views(songs@) },
            Task::PlayAt { row } => TaskView::PlayAt { row },
            Task::RemoveFromQueue { rows } => TaskView::RemoveFromQueue { rows: rows@ },
            Task::ClearQueue => TaskView::ClearQueue,
            Task::MoveInQueue { from, to } => TaskView::MoveInQueue { from, to },
            Task::CheckUpdate => TaskView::CheckUpdate,
            Task::InstallUpdate => TaskView::InstallUpdate,
        }
    }
}

/// What the changes say, in order.
pub open spec fn change_views(changes: Seq<(String, bool)>) -> Seq<(Seq<char>, bool)> {
    changes.map_values(|c: (String, bool)| (c.0@, c.1))
}

/// What the program around the interface has to do.
#[derive(Debug, PartialEq, Eq)]
pub enum Action {
    /// Nothing.
    Idle,
    /// Leave; the daemon keeps running.
    Quit,
    /// Ask the daemon to quit, and leave.
    QuitDaemon,
    /// Tell the daemon, and never mind what it answers.
    Tell(Request),
    /// Set the volume one step up or down, within its bounds.
    StepVolume { up: bool },
    /// Do this, and report back.
    Run(Task),
}

/// What an [`Action`] says.
#[verifier::ext_equal]
pub enum ActionView {
    Idle,
    Quit,
    QuitDaemon,
    Tell(Request),
    StepVolume { up: bool },
    Run(TaskView),
}

impl View for Action {
    type V = ActionView;

    open spec fn view(&self) -> ActionView {
        match *self {
            Action::Idle => ActionView::Idle,
            Action::Quit => ActionView::Quit,
            Action::QuitDaemon => ActionView::QuitDaemon,
            Action::Tell(request) => ActionView::Tell(request),
            Action::StepVolume { up } => ActionView::StepVolume { up },
            Action::Run(task) => ActionView::Run(task@),
        }
    }
}

/// What came of a task.
#[derive(Debug, PartialEq, Eq)]
pub enum Reply {
    /// It failed; the text says why.
    Failed(String),
    Done,
    Albums(Vec<Album>),
    Songs(Vec<Song>),
    Artists(Vec<Artist>),
    Playlists(Vec<Playlist>),
    Genres(Vec<Genre>),
    Queue(Vec<QueueRow>),
    /// The server's own lists; one that could not be fetched is empty.
    Home {
        favourites: Vec<Song>,
        recently_played: Vec<Song>,
        on_repeat: Vec<Song>,
        songs_for_you: Vec<Song>,
    },
    ArtistInfo(ArtistInfo),
    AlbumInfo(AlbumInfo),
    Update(CheckResult),
}

/// The interface.
#[derive(Debug, PartialEq, Eq)]
pub struct App {
    pub active_tab: Tab,
    /// Whether the albums are listed by when they were added.
    pub albums_newest: bool,
    /// The active tab's screens, the one that shows last.
    pub stack: Vec<Screen>,
    /// A line for the user in place of the track.
    pub message: String,
    /// The cover art that is shown or being fetched.
    pub current_art_url: Option<String>,
    /// The song whose lyrics are shown or being fetched.
    pub current_lyrics_song_id: Option<String>,
    /// The lyrics, once they are fetched.
    pub lyrics: Option<Vec<LyricLine>>,
    pub lyrics_open: bool,
    /// Whether keys go to the filter of the screen that shows.
    pub filter_editing: bool,
    pub show_help: bool,
    pub prompt: Option<TextPrompt>,
}

/// What an [`App`] holds.
#[verifier::ext_equal]
pub struct AppView {
    pub active_tab: Tab,
    pub albums_newest: bool,
    pub stack: Seq<ScreenView>,
    pub message: Seq<char>,
    pub current_art_url: Option<String>,
    pub current_lyrics_song_id: Option<String>,
    pub lyrics: Option<Seq<LyricLine>>,
    pub lyrics_open: bool,
    pub filter_editing: bool,
    pub show_help: bool,
    pub prompt: Option<PromptView>,
}

/// What the screens show.
pub open spec fn screen_views(stack: Seq<Screen>) -> Seq<ScreenView> {
    stack.map_values(|s: Screen| s@)
}

impl View for App {
    type V = AppView;

    open spec fn view(&self) -> AppView {
        AppView {
            active_tab: self.active_tab,
            albums_newest: self.albums_newest,
            stack: screen_views(self.stack@),
            message: self.message@,
            current_art_url: self.current_art_url,
            current_lyrics_song_id: self.current_lyrics_song_id,
            lyrics: match self.lyrics {
                Some(lines) => Some(lines@),
                None => None,
            },
            lyrics_open: self.lyrics_open,
            filter_editing: self.filter_editing,
            show_help: self.show_help,
            prompt: match self.prompt {
                Some(p) => Some(p@),
                None => None,
            },
        }
    }
}

impl AppView {
    /// There is always a screen to show.
    pub open spec fn wf(self) -> bool {
        self.stack.len() > 0
    }

    /// The screen that shows.
    pub open spec fn top(self) -> ScreenView {
        self.stack.last()
    }
}

/// The interface with another screen in place of the one that shows.
pub open spec fn with_top(s: AppView, top: ScreenView) -> AppView {
    AppView { stack: s.stack.drop_last().push(top), ..s }
}

/// The interface with one more screen, which shows.
pub open spec fn with_pushed(s: AppView, top: ScreenView) -> AppView {
    AppView { stack: s.stack.push(top), ..s }
}

/// The interface one screen back.
pub open spec fn with_popped(s: AppView) -> AppView {
    AppView { stack: s.stack.drop_last(), ..s }
}

/// The interface with a line for the user.
pub open spec fn saying(s: AppView, message: Seq<char>) -> AppView {
    AppView { message, ..s }
}

/// The interface without one.
pub open spec fn hushed(s: AppView) -> AppView {
    saying(s, Seq::empty())
}

/// What a tab shows before anything is fetched for it.
pub open spec fn blank(tab: Tab) -> RowsView {
    match tab {
        Tab::Home => RowsView::Home { sections: Seq::empty(), section: 0 },
        Tab::Playlists => RowsView::Playlists(Seq::empty()),
        Tab::Albums => RowsView::Albums { title: "Albums"@, albums: Seq::empty() },
        Tab::Artists => RowsView::Artists(Seq::empty()),
        Tab::Genres => RowsView::Genres(Seq::empty()),
        Tab::Search => RowsView::Search {
            query: Seq::empty(),
            editing: true,
            results: Seq::empty(),
        },
        Tab::Queue => RowsView::Queue(Seq::empty()),
        Tab::Settings => RowsView::Settings(UpdateState::Unchecked),
    }
}

/// What the user is told while a tab is fetched; nothing for a tab that needs no
/// fetching.
pub open spec fn loading_text(tab: Tab) -> Option<Seq<char>> {
    match tab {
        Tab::Home => Some("Loading home\u{2026}"@),
        Tab::Playlists => Some("Loading playlists\u{2026}"@),
        Tab::Albums => Some("Loading albums\u{2026}"@),
        Tab::Artists => Some("Loading artists\u{2026}"@),
        Tab::Genres => Some("Loading genres\u{2026}"@),
        Tab::Queue => Some("Loading queue\u{2026}"@),
        Tab::Search | Tab::Settings => None,
    }
}

/// Switches to a tab: its first screen, still empty, replaces all others, and what
/// it shows is fetched. A filter that was being edited is left.
pub open spec fn switched(s: AppView, tab: Tab) -> (AppView, ActionView) {
    let t = AppView {
        active_tab: tab,
        stack: seq![crate::screen::opened(blank(tab))],
        filter_editing: false,
        ..s
    };
    match loading_text(tab) {
        Some(words) => (
            saying(t, words),
            ActionView::Run(TaskView::LoadTab { tab, newest: s.albums_newest }),
        ),
        None => (t, ActionView::Idle),
    }
}

impl App {
    /// An interface that shows nothing yet, on its way to a tab.
    fn root_rows(tab: Tab) -> (rows: Rows)
        ensures
            rows@ == blank(tab),
    {
        let rows = match tab {
            Tab::Home => Rows::Home { sections: Vec::new(), section: 0 },
            Tab::Playlists => Rows::Playlists(Vec::new()),
            Tab::Albums => Rows::Albums { title: "Albums".to_owned(), albums: Vec::new() },
            Tab::Artists => Rows::Artists(Vec::new()),
            Tab::Genres => Rows::Genres(Vec::new()),
            Tab::Search => Rows::Search {
                query: String::new(),
                editing: true,
                results: Vec::new(),
            },
            Tab::Queue => Rows::Queue(Vec::new()),
            Tab::Settings => Rows::Settings(UpdateState::Unchecked),
        };
        assert(rows@ =~= blank(tab));
        rows
    }

    fn say(&mut self, message: String)
        ensures
            final(self)@ == saying(old(self)@, message@),
    {
        self.message = message;
    }

    fn hush(&mut self)
        ensures
            final(self)@ == hushed(old(self)@),
    {
        self.message = String::new();
        assert(self.message@ =~= Seq::<char>::empty());
    }

    fn push(&mut self, rows: Rows)
        ensures
            final(self)@ == with_pushed(old(self)@, crate::screen::opened(rows@)),
    {
        let ghost before = self.stack@;
        let screen = Screen::open(rows);
        self.stack.push(screen);
        assert(screen_views(self.stack@) =~= screen_views(before).push(screen@));
    }

    fn switch_tab(&mut self, tab: Tab) -> (action: Action)
        ensures
            (final(self)@, action@) == switched(old(self)@, tab),
    {
        self.active_tab = tab;
        self.stack = Vec::new();
        self.stack.push(Screen::open(App::root_rows(tab)));
        assert(screen_views(self.stack@) =~= seq![crate::screen::opened(blank(tab))]);
        self.filter_editing = false;
        let words: &str = match tab {
            Tab::Home => "Loading home\u{2026}",
            Tab::Playlists => "Loading playlists\u{2026}",
            Tab::Albums => "Loading albums\u{2026}",
            Tab::Artists => "Loading artists\u{2026}",
            Tab::Genres => "Loading genres\u{2026}",
            Tab::Queue => "Loading queue\u{2026}",
            Tab::Search => {
                return Action::Idle;
            },
            Tab::Settings => {
                return Action::Idle;
            },
        };
        self.say(words.to_owned());
        Action::Run(Task::LoadTab { tab, newest: self.albums_newest })
    }

    /// The interface as it starts: on the home screen, which is being fetched.
    pub fn start() -> (r: (App, Action))
        ensures
            r.0@.wf(),
            r.0@ == (AppView {
                active_tab: Tab::Home,
                albums_newest: false,
                stack: seq![crate::screen::opened(blank(Tab::Home))],
                message: "Loading home\u{2026}"@,
                current_art_url: None,
                current_lyrics_song_id: None,
                lyrics: None,
                lyrics_open: false,
                filter_editing: false,
                show_help: false,
                prompt: None,
            }),
            r.1@ == ActionView::Run(TaskView::LoadTab { tab: Tab::Home, newest: false }),
    {
        let mut app = App {
            active_tab: Tab::Home,
            albums_newest: false,
            stack: Vec::new(),
            message: String::new(),
            current_art_url: None,
            current_lyrics_song_id: None,
            lyrics: None,
            lyrics_open: false,
            filter_editing: false,
            show_help: false,
            prompt: None,
        };
        let action = app.switch_tab(Tab::Home);
        (app, action)
    }
}

/// What a key does to a search that is being typed: nothing for a key that typing
/// leaves alone.
pub open spec fn search_key(s: AppView, code: KeyCode) -> Option<(AppView, ActionView)> {
    match s.top().rows {
        RowsView::Search { query, editing, results } => if !editing {
            None
        } else {
            match code {
                KeyCode::Char(c) => Some(
                    (searching(s, query.push(c), true, results), ActionView::Idle),
                ),
                KeyCode::Backspace => Some(
                    (searching(s, shortened(query), true, results), ActionView::Idle),
                ),
                KeyCode::Esc => Some((searching(s, query, false, results), ActionView::Idle)),
                KeyCode::Enter => {
                    let t = searching(s, query, false, results);
                    if query.len() == 0 {
                        Some((t, ActionView::Idle))
                    } else {
                        Some(
                            (
                                saying(t, "Searching "@ + query + "\u{2026}"@),
                                ActionView::Run(TaskView::Search { query }),
                            ),
                        )
                    }
                },
                _ => None,
            }
        },
        _ => None,
    }
}

/// The interface with another search on the screen that shows.
pub open spec fn searching(
    s: AppView,
    query: Seq<char>,
    editing: bool,
    results: Seq<SongView>,
) -> AppView {
    with_top(s, ScreenView { rows: RowsView::Search { query, editing, results }, ..s.top() })
}

/// A text without its last character, if it has one.
pub open spec fn shortened(words: Seq<char>) -> Seq<char> {
    if words.len() == 0 {
        words
    } else {
        words.drop_last()
    }
}

/// What a key does to the filter of the screen that shows, while that is edited,
/// and whether the key is used up.
pub open spec fn filter_edited(s: AppView, code: KeyCode) -> (AppView, bool) {
    let top = s.top();
    if s.filter_editing && crate::screen::filterable(top.rows) {
        match crate::screen::filter_key(top.filter, top.selected, code) {
            Some((filter, selected, stop, used)) => (
                AppView {
                    filter_editing: !stop,
                    ..with_top(s, ScreenView { filter, selected, ..top })
                },
                used,
            ),
            None => (s, false),
        }
    } else {
        (s, false)
    }
}

/// What a key does to a line that the user types in. Every key is used up.
pub open spec fn prompt_key(s: AppView, p: PromptView, code: KeyCode) -> (AppView, ActionView) {
    let closed = AppView { prompt: None, ..s };
    match code {
        KeyCode::Char(c) => (
            AppView { prompt: Some(PromptView { text: p.text.push(c), ..p }), ..s },
            ActionView::Idle,
        ),
        KeyCode::Backspace => (
            AppView { prompt: Some(PromptView { text: shortened(p.text), ..p }), ..s },
            ActionView::Idle,
        ),
        KeyCode::Esc => (closed, ActionView::Idle),
        KeyCode::Enter => {
            let name = text::trimmed(p.text);
            if name.len() == 0 {
                (closed, ActionView::Idle)
            } else {
                submitted(closed, p.action, name)
            }
        },
        _ => (s, ActionView::Idle),
    }
}

/// The songs of queue rows, without those that have no id.
pub open spec fn saveable_ids(tracks: Seq<QueueRow>) -> Seq<Seq<char>>
    decreases tracks.len(),
{
    if tracks.len() == 0 {
        Seq::empty()
    } else {
        let before = saveable_ids(tracks.drop_last());
        if tracks.last().song_id@.len() == 0 {
            before
        } else {
            before.push(tracks.last().song_id@)
        }
    }
}

/// What comes of a line that the user has typed in.
pub open spec fn submitted(s: AppView, action: PromptAction, name: Seq<char>) -> (
    AppView,
    ActionView,
) {
    match action {
        PromptAction::NewPlaylist => (s, ActionView::Run(TaskView::NewPlaylist { name })),
        PromptAction::RenamePlaylist { id } => (
            s,
            ActionView::Run(TaskView::RenamePlaylist { id: id@, name }),
        ),
        PromptAction::SaveQueueAsPlaylist => match s.top().rows {
            RowsView::Queue(tracks) => {
                let song_ids = saveable_ids(tracks);
                if song_ids.len() == 0 {
                    (saying(s, "queue has no saveable tracks"@), ActionView::Idle)
                } else {
                    (s, ActionView::Run(TaskView::SaveQueue { name, song_ids }))
                }
            },
            _ => (s, ActionView::Idle),
        },
    }
}

impl App {
    fn take_top(&mut self) -> (top: Screen)
        requires
            old(self)@.wf(),
        ensures
            top@ == old(self)@.top(),
            final(self)@ == with_popped(old(self)@),
    {
        let ghost before = self.stack@;
        let n: usize = self.stack.len();
        let top = self.stack.remove(n - 1);
        assert(self.stack@ =~= before.drop_last());
        assert(screen_views(self.stack@) =~= screen_views(before).drop_last());
        assert(screen_views(before).last() == before.last()@);
        top
    }

    fn put_top(&mut self, top: Screen)
        ensures
            final(self)@ == with_pushed(old(self)@, top@),
    {
        let ghost before = self.stack@;
        self.stack.push(top);
        assert(screen_views(self.stack@) =~= screen_views(before).push(top@));
    }

    fn top(&self) -> (top: &Screen)
        requires
            self@.wf(),
        ensures
            top@ == self@.top(),
    {
        let n: usize = self.stack.len();
        assert(screen_views(self.stack@).last() == self.stack@.last()@);
        &self.stack[n - 1]
    }

    fn handle_search_edit(&mut self, code: KeyCode) -> (r: Option<Action>)
        requires
            old(self)@.wf(),
        ensures
            match search_key(old(self)@, code) {
                Some((t, a)) => final(self)@ == t && (r matches Some(x) && x@ == a),
                None => final(self)@ == old(self)@ && r is None,
            },
    {
        let ghost before = self@;
        let top = self.top();
        let (mut query, results) = match &top.rows {
            Rows::Search { query, editing, results } => {
                if !*editing {
                    return None;
                }
                (query.clone(), copy_songs(results))
            },
            _ => {
                return None;
            },
        };
        let ghost typed = query@;
        let editing: bool = match code {
            KeyCode::Char(c) => {
                query.push(c);
                true
            },
            KeyCode::Backspace => {
                query = text::without_last(query.as_str());
                true
            },
            KeyCode::Esc => false,
            KeyCode::Enter => false,
            _ => {
                return None;
            },
        };
        let run: bool = match code {
            KeyCode::Enter => !query.as_str().is_empty(),
            _ => false,
        };
        let asked: String = query.clone();
        let mut top = self.take_top();
        top.rows = Rows::Search { query, editing, results };
        self.put_top(top);
        assert(self@ =~= searching(before, query@, editing, item_views(results@)));
        if run {
            let words: String = "Searching ".to_owned().concat(asked.as_str()).concat("\u{2026}");
            self.say(words);
            Some(Action::Run(Task::Search { query: asked }))
        } else {
            Some(Action::Idle)
        }
    }

    fn handle_filter_edit(&mut self, code: KeyCode) -> (used: bool)
        requires
            old(self)@.wf(),
        ensures
            (final(self)@, used) == filter_edited(old(self)@, code),
            final(self)@.wf(),
    {
        let ghost before = self@;
        if !self.filter_editing || !self.top().rows.can_filter() {
            return false;
        }
        let mut top = self.take_top();
        let r: Option<(bool, bool)> = apply_filter_key(
            &mut top.filter,
            &mut top.selected,
            code,
        );
        self.put_top(top);
        match r {
            Some((stop, used)) => {
                if stop {
                    self.filter_editing = false;
                }
                assert(self@ =~= filter_edited(before, code).0);
                used
            },
            None => {
                assert(self@ =~= before);
                false
            },
        }
    }

    fn handle_prompt_key(&mut self, code: KeyCode) -> (action: Action)
        requires
            old(self)@.wf(),
            old(self)@.prompt is Some,
        ensures
            (final(self)@, action@) == prompt_key(old(self)@, old(self)@.prompt->0, code),
    {
        let ghost before = self@;
        let ghost asked = self@.prompt->0;
        let prompt: TextPrompt = match self.prompt.take() {
            Some(p) => p,
            None => {
                return Action::Idle;
            },
        };
        let ghost closed = AppView { prompt: None, ..before };
        assert(self@ =~= closed);
        match code {
            KeyCode::Char(c) => {
                let mut p = prompt;
                p.text.push(c);
                self.prompt = Some(p);
                assert(self@ =~= prompt_key(before, asked, code).0);
                Action::Idle
            },
            KeyCode::Backspace => {
                let mut p = prompt;
                p.text = text::without_last(p.text.as_str());
                self.prompt = Some(p);
                assert(self@ =~= prompt_key(before, asked, code).0);
                Action::Idle
            },
            KeyCode::Esc => Action::Idle,
            KeyCode::Enter => {
                let name: String = text::trim(prompt.text.as_str());
                if name.as_str().is_empty() {
                    Action::Idle
                } else {
                    self.submit_prompt(prompt.action, name)
                }
            },
            _ => {
                self.prompt = Some(prompt);
                assert(self@ =~= before);
                Action::Idle
            },
        }
    }

    fn submit_prompt(&mut self, action: PromptAction, name: String) -> (r: Action)
        requires
            old(self)@.wf(),
        ensures
            (final(self)@, r@) == submitted(old(self)@, action, name@),
    {
        match action {
            PromptAction::NewPlaylist => Action::Run(Task::NewPlaylist { name }),
            PromptAction::RenamePlaylist { id } => Action::Run(Task::RenamePlaylist { id, name }),
            PromptAction::SaveQueueAsPlaylist => {
                let song_ids: Vec<String> = match &self.top().rows {
                    Rows::Queue(tracks) => saveable(tracks),
                    _ => {
                        return Action::Idle;
                    },
                };
                if song_ids.len() == 0 {
                    self.say("queue has no saveable tracks".to_owned());
                    Action::Idle
                } else {
                    Action::Run(Task::SaveQueue { name, song_ids })
                }
            },
        }
    }
}

fn saveable(tracks: &Vec<QueueRow>) -> (ids: Vec<String>)
    ensures
        text_views(ids@) == saveable_ids(tracks@),
{
    let mut ids: Vec<String> = Vec::new();
    let mut i: usize = 0;
    assert(text_views(ids@) =~= Seq::<Seq<char>>::empty());
    while i < tracks.len()
        invariant
            i <= tracks.len(),
            text_views(ids@) == saveable_ids(tracks@.take(i as int)),
        decreases tracks.len() - i,
    {
        let ghost before = ids@;
        assert(tracks@.take(i + 1).drop_last() =~= tracks@.take(i as int));
        if !tracks[i].song_id.as_str().is_empty() {
            ids.push(tracks[i].song_id.clone());
            assert(text_views(ids@) =~= text_views(before).push(tracks@[i as int].song_id@));
        }
        i = i + 1;
    }
    assert(tracks@.take(i as int) =~= tracks@);
    ids
}

/// A copy of a list of songs.
pub fn copy_songs(songs: &Vec<Song>) -> (out: Vec<Song>)
    ensures
        out@ == songs@,
{
    songs_from(songs, 0)
}

/// The songs of a list from the one at `start` on.
pub fn songs_from(songs: &Vec<Song>, start: usize) -> (out: Vec<Song>)
    requires
        start <= songs@.len(),
    ensures
        out@ == songs@.skip(start as int),
{
    let mut out: Vec<Song> = Vec::new();
    let mut i: usize = start;
    while i < songs.len()
        invariant
            start <= i <= songs.len(),
            out@ == songs@.subrange(start as int, i as int),
        decreases songs.len() - i,
    {
        out.push(songs[i].clone());
        i = i + 1;
        assert(out@ =~= songs@.subrange(start as int, i as int));
    }
    assert(out@ =~= songs@.skip(start as int));
    out
}

/// The songs of a screen that lists songs, and that the user is not typing on.
pub open spec fn songs_of(rows: RowsView) -> Option<Seq<SongView>> {
    match rows {
        RowsView::Songs { songs, .. } => Some(songs),
        RowsView::Search { editing, results, .. } => if editing {
            None
        } else {
            Some(results)
        },
        _ => None,
    }
}

/// The song under the cursor of the home screen, by its list and its row.
pub open spec fn home_song(s: ScreenView) -> Option<(int, int)> {
    match s.rows {
        RowsView::Home { sections, section } => if section < sections.len() && s.selected
            < sections[section as int].songs.len() {
            Some((section as int, s.selected as int))
        } else {
            None
        },
        _ => None,
    }
}

/// The songs at the given rows.
pub open spec fn songs_at(songs: Seq<SongView>, rows: Seq<usize>) -> Seq<SongView> {
    rows.map_values(|i: usize| songs[i as int])
}

/// What `Enter` plays: the song under the cursor, and the rest of its list.
pub open spec fn songs_to_play(s: ScreenView) -> Seq<SongView> {
    match s.rows {
        RowsView::Home { sections, .. } => match home_song(s) {
            Some((section, row)) => sections[section].songs.skip(row),
            None => Seq::empty(),
        },
        _ => match (songs_of(s.rows), crate::screen::row_at_cursor(s)) {
            (Some(songs), Some(row)) => songs.skip(row as int),
            _ => Seq::empty(),
        },
    }
}

/// What is added to the queue: the marked songs, else what `Enter` would play.
pub open spec fn songs_to_queue(s: ScreenView) -> Seq<SongView> {
    let marked = crate::screen::marked_rows(s);
    match songs_of(s.rows) {
        Some(songs) => if marked.len() > 0 {
            songs_at(songs, marked)
        } else {
            songs_to_play(s)
        },
        None => songs_to_play(s),
    }
}

/// What becomes of a song's star when it is toggled.
pub open spec fn star_change(song: SongView) -> (Seq<char>, bool) {
    (song.id, song.starred is None)
}

/// The songs whose star is toggled: the marked ones, else the one under the
/// cursor.
pub open spec fn star_changes(s: ScreenView) -> Seq<(Seq<char>, bool)> {
    match s.rows {
        RowsView::Home { sections, .. } => match home_song(s) {
            Some((section, row)) => seq![star_change(sections[section].songs[row])],
            None => Seq::empty(),
        },
        _ => match songs_of(s.rows) {
            Some(songs) => crate::screen::chosen_rows(s).map_values(
                |i: usize| star_change(songs[i as int]),
            ),
            None => Seq::empty(),
        },
    }
}

/// The ids of the songs that are added to a playlist: the marked ones, else the
/// one under the cursor.
pub open spec fn picked_ids(s: ScreenView) -> Seq<Seq<char>> {
    match s.rows {
        RowsView::Home { sections, .. } => match home_song(s) {
            Some((section, row)) => seq![sections[section].songs[row].id],
            None => Seq::empty(),
        },
        RowsView::Queue(tracks) => crate::screen::chosen_rows(s).map_values(
            |i: usize| tracks[i as int].song_id@,
        ),
        _ => match songs_of(s.rows) {
            Some(songs) => crate::screen::chosen_rows(s).map_values(
                |i: usize| songs[i as int].id,
            ),
            None => Seq::empty(),
        },
    }
}

fn home_cursor(top: &Screen) -> (r: Option<(usize, usize)>)
    ensures
        match home_song(top@) {
            Some((section, row)) => r matches Some((a, b)) && a == section && b == row,
            None => r is None,
        },
{
    match &top.rows {
        Rows::Home { sections, section } => {
            let i: usize = *section;
            if i < sections.len() {
                assert(crate::screen::section_views(sections@)[i as int] == sections@[i as int]@);
                if top.selected < sections[i].songs.len() {
                    return Some((i, top.selected));
                }
            }
            None
        },
        _ => None,
    }
}

fn pick_songs(songs: &Vec<Song>, rows: &Vec<usize>) -> (out: Vec<Song>)
    requires
        forall|k: int| 0 <= k < rows@.len() ==> (#[trigger] rows@[k]) < songs@.len(),
    ensures
        item_views(out@) == songs_at(item_views(songs@), rows@),
{
    let mut out: Vec<Song> = Vec::new();
    let mut i: usize = 0;
    while i < rows.len()
        invariant
            i <= rows.len(),
            forall|k: int| 0 <= k < rows@.len() ==> (#[trigger] rows@[k]) < songs@.len(),
            item_views(out@) == songs_at(item_views(songs@), rows@.take(i as int)),
        decreases rows.len() - i,
    {
        let ghost before = out@;
        out.push(songs[rows[i]].clone());
        assert(item_views(out@) =~= item_views(before).push(songs@[rows@[i as int] as int]@));
        i = i + 1;
        assert(item_views(out@) =~= songs_at(item_views(songs@), rows@.take(i as int)));
    }
    assert(rows@.take(i as int) =~= rows@);
    out
}

fn list_to_play(top: &Screen) -> (out: Vec<Song>)
    ensures
        item_views(out@) == songs_to_play(top@),
{
    match &top.rows {
        Rows::Home { sections, .. } => match home_cursor(top) {
            Some((section, row)) => {
                assert(crate::screen::section_views(sections@)[section as int]
                    == sections@[section as int]@);
                songs_from(&sections[section].songs, row)
            },
            None => Vec::new(),
        },
        Rows::Songs { songs, .. } => match top.cursor_row() {
            Some(row) => songs_from(songs, row),
            None => Vec::new(),
        },
        Rows::Search { editing, results, .. } => if *editing {
            Vec::new()
        } else {
            match top.cursor_row() {
                Some(row) => songs_from(results, row),
                None => Vec::new(),
            }
        },
        _ => Vec::new(),
    }
}

fn list_to_queue(top: &Screen) -> (out: Vec<Song>)
    ensures
        item_views(out@) == songs_to_queue(top@),
{
    let marked = top.marks();
    if marked.len() > 0 {
        let chosen = top.chosen();
        assert(chosen@ == marked@);
        match &top.rows {
            Rows::Songs { songs, .. } => {
                return pick_songs(songs, &chosen);
            },
            Rows::Search { editing, results, .. } => {
                if !*editing {
                    return pick_songs(results, &chosen);
                }
            },
            _ => {},
        }
    }
    list_to_play(top)
}

fn toggled_star(song: &Song) -> (r: (String, bool))
    ensures
        (r.0@, r.1) == star_change(song@),
{
    (song.id.clone(), !song.is_starred())
}

fn stars_of(songs: &Vec<Song>, rows: &Vec<usize>) -> (out: Vec<(String, bool)>)
    requires
        forall|k: int| 0 <= k < rows@.len() ==> (#[trigger] rows@[k]) < songs@.len(),
    ensures
        change_views(out@) == rows@.map_values(
            |i: usize| star_change(item_views(songs@)[i as int]),
        ),
{
    let mut out: Vec<(String, bool)> = Vec::new();
    let mut i: usize = 0;
    while i < rows.len()
        invariant
            i <= rows.len(),
            forall|k: int| 0 <= k < rows@.len() ==> (#[trigger] rows@[k]) < songs@.len(),
            change_views(out@) == rows@.take(i as int).map_values(
                |i: usize| star_change(item_views(songs@)[i as int]),
            ),
        decreases rows.len() - i,
    {
        let ghost before = out@;
        let change = toggled_star(&songs[rows[i]]);
        out.push(change);
        assert(change_views(out@) =~= change_views(before).push((change.0@, change.1)));
        i = i + 1;
        assert(change_views(out@) =~= rows@.take(i as int).map_values(
            |i: usize| star_change(item_views(songs@)[i as int]),
        ));
    }
    assert(rows@.take(i as int) =~= rows@);
    out
}

fn changes_of(top: &Screen) -> (out: Vec<(String, bool)>)
    ensures
        change_views(out@) == star_changes(top@),
{
    match &top.rows {
        Rows::Home { sections, .. } => {
            let mut out: Vec<(String, bool)> = Vec::new();
            match home_cursor(top) {
                Some((section, row)) => {
                    assert(crate::screen::section_views(sections@)[section as int]
                        == sections@[section as int]@);
                    out.push(toggled_star(&sections[section].songs[row]));
                },
                None => {},
            }
            assert(change_views(out@) =~= star_changes(top@));
            out
        },
        Rows::Songs { songs, .. } => {
            let rows = top.chosen();
            stars_of(songs, &rows)
        },
        Rows::Search { editing, results, .. } => if *editing {
            Vec::new()
        } else {
            let rows = top.chosen();
            stars_of(results, &rows)
        },
        _ => Vec::new(),
    }
}

fn ids_at(songs: &Vec<Song>, rows: &Vec<usize>) -> (out: Vec<String>)
    requires
        forall|k: int| 0 <= k < rows@.len() ==> (#[trigger] rows@[k]) < songs@.len(),
    ensures
        text_views(out@) == rows@.map_values(|i: usize| item_views(songs@)[i as int].id),
{
    let mut out: Vec<String> = Vec::new();
    let mut i: usize = 0;
    while i < rows.len()
        invariant
            i <= rows.len(),
            forall|k: int| 0 <= k < rows@.len() ==> (#[trigger] rows@[k]) < songs@.len(),
            text_views(out@) == rows@.take(i as int).map_values(
                |i: usize| item_views(songs@)[i as int].id,
            ),
        decreases rows.len() - i,
    {
        let ghost before = out@;
        out.push(songs[rows[i]].id.clone());
        assert(text_views(out@) =~= text_views(before).push(songs@[rows@[i as int] as int].id@));
        i = i + 1;
        assert(text_views(out@) =~= rows@.take(i as int).map_values(
            |i: usize| item_views(songs@)[i as int].id,
        ));
    }
    assert(rows@.take(i as int) =~= rows@);
    out
}

fn queue_ids_at(tracks: &Vec<QueueRow>, rows: &Vec<usize>) -> (out: Vec<String>)
    requires
        forall|k: int| 0 <= k < rows@.len() ==> (#[trigger] rows@[k]) < tracks@.len(),
    ensures
        text_views(out@) == rows@.map_values(|i: usize| tracks@[i as int].song_id@),
{
    let mut out: Vec<String> = Vec::new();
    let mut i: usize = 0;
    while i < rows.len()
        invariant
            i <= rows.len(),
            forall|k: int| 0 <= k < rows@.len() ==> (#[trigger] rows@[k]) < tracks@.len(),
            text_views(out@) == rows@.take(i as int).map_values(
                |i: usize| tracks@[i as int].song_id@,
            ),
        decreases rows.len() - i,
    {
        let ghost before = out@;
        out.push(tracks[rows[i]].song_id.clone());
        assert(text_views(out@) =~= text_views(before).push(
            tracks@[rows@[i as int] as int].song_id@,
        ));
        i = i + 1;
        assert(text_views(out@) =~= rows@.take(i as int).map_values(
            |i: usize| tracks@[i as int].song_id@,
        ));
    }
    assert(rows@.take(i as int) =~= rows@);
    out
}

/// The ids of the songs that are added to a playlist, see [`picked_ids`].
pub fn selected_song_ids(top: &Screen) -> (out: Vec<String>)
    ensures
        text_views(out@) == picked_ids(top@),
{
    match &top.rows {
        Rows::Home { sections, .. } => {
            let mut out: Vec<String> = Vec::new();
            match home_cursor(top) {
                Some((section, row)) => {
                    assert(crate::screen::section_views(sections@)[section as int]
                        == sections@[section as int]@);
                    out.push(sections[section].songs[row].id.clone());
                },
                None => {},
            }
            assert(text_views(out@) =~= picked_ids(top@));
            out
        },
        Rows::Queue(tracks) => {
            let rows = top.chosen();
            queue_ids_at(tracks, &rows)
        },
        Rows::Songs { songs, .. } => {
            let rows = top.chosen();
            ids_at(songs, &rows)
        },
        Rows::Search { editing, results, .. } => if *editing {
            Vec::new()
        } else {
            let rows = top.chosen();
            ids_at(results, &rows)
        },
        _ => Vec::new(),
    }
}

/// Where the left arrow seeks to: back by a step, never before the start.
pub open spec fn seek_back(position: Duration) -> Duration {
    let step = SEEK_STEP_SECS * NANOS_PER_SEC;
    Duration {
        nanos: if position.nanos > step {
            (position.nanos - step) as u128
        } else {
            0
        },
    }
}

/// Where the right arrow seeks to: on by a step.
pub open spec fn seek_on(position: Duration) -> Duration {
    let step = SEEK_STEP_SECS * NANOS_PER_SEC;
    Duration {
        nanos: if position.nanos + step <= u128::MAX {
            (position.nanos + step) as u128
        } else {
            u128::MAX
        },
    }
}

/// What the keys do that act the same on every screen.
pub open spec fn global_key(code: KeyCode, now: NowPlaying) -> Option<ActionView> {
    if code == KeyCode::Char('q') {
        Some(ActionView::Quit)
    } else if code == KeyCode::Char('Q') {
        Some(ActionView::QuitDaemon)
    } else if code == KeyCode::Char(' ') {
        if now.status@ == "playing"@ {
            Some(ActionView::Tell(Request::Pause))
        } else {
            Some(ActionView::Tell(Request::Resume))
        }
    } else if code == KeyCode::Char('s') {
        Some(ActionView::Tell(Request::Stop))
    } else if code == KeyCode::Char('n') {
        Some(ActionView::Tell(Request::Next))
    } else if code == KeyCode::Char('p') {
        Some(ActionView::Tell(Request::Previous))
    } else if code == KeyCode::Char('r') {
        Some(ActionView::Tell(Request::CycleRepeat))
    } else if code == KeyCode::Char('x') {
        Some(ActionView::Tell(Request::ToggleShuffle))
    } else if code == KeyCode::Left {
        Some(ActionView::Tell(Request::SeekTo { position: seek_back(now.position) }))
    } else if code == KeyCode::Right {
        Some(ActionView::Tell(Request::SeekTo { position: seek_on(now.position) }))
    } else if code == KeyCode::Char('-') {
        Some(ActionView::StepVolume { up: false })
    } else if code == KeyCode::Char('+') || code == KeyCode::Char('=') {
        Some(ActionView::StepVolume { up: true })
    } else {
        None
    }
}

fn global_action(code: KeyCode, now: &NowPlaying) -> (r: Option<Action>)
    ensures
        match global_key(code, *now) {
            Some(a) => r matches Some(x) && x@ == a,
            None => r is None,
        },
{
    let step: u128 = SEEK_STEP_SECS as u128 * NANOS_PER_SEC;
    let at: u128 = now.position.nanos;
    if code == KeyCode::Char('q') {
        Some(Action::Quit)
    } else if code == KeyCode::Char('Q') {
        Some(Action::QuitDaemon)
    } else if code == KeyCode::Char(' ') {
        if text::same(now.status.as_str(), "playing") {
            Some(Action::Tell(Request::Pause))
        } else {
            Some(Action::Tell(Request::Resume))
        }
    } else if code == KeyCode::Char('s') {
        Some(Action::Tell(Request::Stop))
    } else if code == KeyCode::Char('n') {
        Some(Action::Tell(Request::Next))
    } else if code == KeyCode::Char('p') {
        Some(Action::Tell(Request::Previous))
    } else if code == KeyCode::Char('r') {
        Some(Action::Tell(Request::CycleRepeat))
    } else if code == KeyCode::Char('x') {
        Some(Action::Tell(Request::ToggleShuffle))
    } else if code == KeyCode::Left {
        let nanos: u128 = if at > step {
            at - step
        } else {
            0
        };
        Some(Action::Tell(Request::SeekTo { position: Duration { nanos } }))
    } else if code == KeyCode::Right {
        let nanos: u128 = if at <= u128::MAX - step {
            at + step
        } else {
            u128::MAX
        };
        Some(Action::Tell(Request::SeekTo { position: Duration { nanos } }))
    } else if code == KeyCode::Char('-') {
        Some(Action::StepVolume { up: false })
    } else if code == KeyCode::Char('+') || code == KeyCode::Char('=') {
        Some(Action::StepVolume { up: true })
    } else {
        None
    }
}

/// The tab that a key switches to.
pub open spec fn tab_key(active: Tab, code: KeyCode) -> Option<Tab> {
    match code {
        KeyCode::Char(c) => if '1' <= c && c <= '9' {
            Tab::at(c as int - '1' as int)
        } else if c == '[' {
            Some(active.beside(true))
        } else if c == ']' {
            Some(active.beside(false))
        } else {
            None
        },
        _ => None,
    }
}

fn tab_for(active: Tab, code: KeyCode) -> (r: Option<Tab>)
    ensures
        r == tab_key(active, code),
{
    match code {
        KeyCode::Char(c) => if '1' <= c && c <= '9' {
            Tab::from_index((c as u32 - '1' as u32) as usize)
        } else if c == '[' {
            Some(active.neighbour(true))
        } else if c == ']' {
            Some(active.neighbour(false))
        } else {
            None
        },
        _ => None,
    }
}

/// What is said while something by this name is fetched.
pub open spec fn loading(title: Seq<char>) -> Seq<char> {
    "Loading "@ + title + "\u{2026}"@
}

fn loading_line(title: &str) -> (line: String)
    ensures
        line@ == loading(title@),
{
    "Loading ".to_owned().concat(title).concat("\u{2026}")
}

/// What `Enter` does.
pub open spec fn activated(s: AppView) -> (AppView, ActionView) {
    let top = s.top();
    let row = crate::screen::row_at_cursor(top);
    let idle = (s, ActionView::Idle);
    match top.rows {
        RowsView::Search { .. } | RowsView::Home { .. } | RowsView::Songs { .. } => {
            let songs = songs_to_play(top);
            if songs.len() > 0 {
                (s, ActionView::Run(TaskView::PlayQueue { songs }))
            } else {
                idle
            }
        },
        RowsView::Picker { playlists, song_ids } => if top.selected < playlists.len() {
            let p = playlists[top.selected as int];
            (
                s,
                ActionView::Run(
                    TaskView::AddToPlaylist { id: p.id@, name: p.name@, song_ids },
                ),
            )
        } else {
            idle
        },
        RowsView::Albums { albums, .. } => match row {
            Some(i) => {
                let a = albums[i as int];
                (
                    saying(s, loading(a.name@)),
                    ActionView::Run(TaskView::OpenAlbum { id: a.id@, title: a.name@ }),
                )
            },
            None => idle,
        },
        RowsView::Artists(artists) => match row {
            Some(i) => {
                let a = artists[i as int];
                (
                    saying(s, loading(a.name@)),
                    ActionView::Run(TaskView::OpenArtist { id: a.id@, title: a.name@ }),
                )
            },
            None => idle,
        },
        RowsView::Playlists(playlists) => match row {
            Some(i) => {
                let p = playlists[i as int];
                (
                    saying(s, loading(p.name@)),
                    ActionView::Run(TaskView::OpenPlaylist { id: p.id@, title: p.name@ }),
                )
            },
            None => idle,
        },
        RowsView::Genres(genres) => match row {
            Some(i) => {
                let g = genres[i as int];
                (
                    saying(s, loading(g.value@)),
                    ActionView::Run(TaskView::OpenGenre { title: g.value@ }),
                )
            },
            None => idle,
        },
        RowsView::Queue(_) => match row {
            Some(i) => (s, ActionView::Run(TaskView::PlayAt { row: i })),
            None => idle,
        },
        RowsView::Info { .. } | RowsView::Settings(_) => idle,
    }
}

fn copy_texts(texts: &Vec<String>) -> (out: Vec<String>)
    ensures
        out@ == texts@,
{
    let mut out: Vec<String> = Vec::new();
    let mut i: usize = 0;
    while i < texts.len()
        invariant
            i <= texts.len(),
            out@ == texts@.take(i as int),
        decreases texts.len() - i,
    {
        out.push(texts[i].clone());
        i = i + 1;
        assert(out@ =~= texts@.take(i as int));
    }
    assert(texts@.take(i as int) =~= texts@);
    out
}

impl App {
    fn open(&mut self, title: String, task: Task) -> (action: Action)
        ensures
            final(self)@ == saying(old(self)@, loading(title@)),
            action@ == ActionView::Run(task@),
    {
        let words: String = loading_line(title.as_str());
        self.say(words);
        Action::Run(task)
    }

    fn activate_selection(&mut self) -> (action: Action)
        requires
            old(self)@.wf(),
        ensures
            (final(self)@, action@) == activated(old(self)@),
    {
        let top = self.top();
        let row: Option<usize> = top.cursor_row();
        match &top.rows {
            Rows::Search { .. } | Rows::Home { .. } | Rows::Songs { .. } => {
                let songs = list_to_play(top);
                if songs.len() > 0 {
                    Action::Run(Task::PlayQueue { songs })
                } else {
                    Action::Idle
                }
            },
            Rows::Picker { playlists, song_ids } => {
                let i: usize = top.selected;
                if i < playlists.len() {
                    Action::Run(
                        Task::AddToPlaylist {
                            id: playlists[i].id.clone(),
                            name: playlists[i].name.clone(),
                            song_ids: copy_texts(song_ids),
                        },
                    )
                } else {
                    Action::Idle
                }
            },
            Rows::Albums { albums, .. } => match row {
                Some(i) => {
                    let id = albums[i].id.clone();
                    let title = albums[i].name.clone();
                    self.open(title.clone(), Task::OpenAlbum { id, title })
                },
                None => Action::Idle,
            },
            Rows::Artists(artists) => match row {
                Some(i) => {
                    let id = artists[i].id.clone();
                    let title = artists[i].name.clone();
                    self.open(title.clone(), Task::OpenArtist { id, title })
                },
                None => Action::Idle,
            },
            Rows::Playlists(playlists) => match row {
                Some(i) => {
                    let id = playlists[i].id.clone();
                    let title = playlists[i].name.clone();
                    self.open(title.clone(), Task::OpenPlaylist { id, title })
                },
                None => Action::Idle,
            },
            Rows::Genres(genres) => match row {
                Some(i) => {
                    let title = genres[i].value.clone();
                    self.open(title.clone(), Task::OpenGenre { title })
                },
                None => Action::Idle,
            },
            Rows::Queue(_) => match row {
                Some(i) => Action::Run(Task::PlayAt { row: i }),
                None => Action::Idle,
            },
            Rows::Info { .. } => Action::Idle,
            Rows::Settings(_) => Action::Idle,
        }
    }
}

/// What `d` does: deletes the playlist under the cursor, or takes the chosen songs
/// out of a playlist or out of the queue, from the last to the first.
pub open spec fn deleted(s: AppView) -> ActionView {
    let top = s.top();
    let rows = crate::screen::chosen_rows(top).reverse();
    match top.rows {
        RowsView::Playlists(playlists) => match crate::screen::row_at_cursor(top) {
            Some(i) => ActionView::Run(
                TaskView::DeletePlaylist { id: playlists[i as int].id@ },
            ),
            None => ActionView::Idle,
        },
        RowsView::Songs { playlist_id: Some(id), .. } => if rows.len() > 0 {
            ActionView::Run(TaskView::RemoveFromPlaylist { id, rows })
        } else {
            ActionView::Idle
        },
        RowsView::Queue(_) => if rows.len() > 0 {
            ActionView::Run(TaskView::RemoveFromQueue { rows })
        } else {
            ActionView::Idle
        },
        _ => ActionView::Idle,
    }
}

/// What `J` and `K` do: move the track under the cursor one place down or up in
/// the whole queue, unless it is at that end.
pub open spec fn queue_item_moved(s: AppView, down: bool) -> ActionView {
    match (s.top().rows, crate::screen::row_at_cursor(s.top())) {
        (RowsView::Queue(tracks), Some(i)) => if down && i + 1 < tracks.len() {
            ActionView::Run(TaskView::MoveInQueue { from: i, to: (i + 1) as usize })
        } else if !down && i > 0 {
            ActionView::Run(TaskView::MoveInQueue { from: i, to: (i - 1) as usize })
        } else {
            ActionView::Idle
        },
        _ => ActionView::Idle,
    }
}

/// The interface with a line for the user to type in.
pub open spec fn prompting(s: AppView, action: PromptAction, words: Seq<char>) -> AppView {
    AppView { prompt: Some(PromptView { action, text: words }), ..s }
}

/// What `N`, `S` and, on the playlists, `c` do: ask for a name.
pub open spec fn asked_for_name(s: AppView, code: KeyCode) -> AppView {
    let top = s.top();
    if code == KeyCode::Char('N') && top.rows is Playlists {
        prompting(s, PromptAction::NewPlaylist, Seq::empty())
    } else if code == KeyCode::Char('S') && top.rows is Queue {
        prompting(s, PromptAction::SaveQueueAsPlaylist, Seq::empty())
    } else if code == KeyCode::Char('c') {
        match (top.rows, crate::screen::row_at_cursor(top)) {
            (RowsView::Playlists(playlists), Some(i)) => {
                let p = playlists[i as int];
                prompting(s, PromptAction::RenamePlaylist { id: p.id }, p.name@)
            },
            _ => s,
        }
    } else {
        s
    }
}

/// What is said while what is known of something by this name is fetched.
pub open spec fn loading_info(name: Seq<char>) -> Seq<char> {
    "Loading info for "@ + name + "\u{2026}"@
}

/// What `i` does: fetches what is known of the artist or the album under the
/// cursor.
pub open spec fn info_asked(s: AppView) -> (AppView, ActionView) {
    let top = s.top();
    match (top.rows, crate::screen::row_at_cursor(top)) {
        (RowsView::Artists(artists), Some(i)) => {
            let a = artists[i as int];
            (
                saying(s, loading_info(a.name@)),
                ActionView::Run(TaskView::ArtistInfo { id: a.id@, name: a.name@ }),
            )
        },
        (RowsView::Albums { albums, .. }, Some(i)) => {
            let a = albums[i as int];
            (
                saying(s, loading_info(a.name@)),
                ActionView::Run(TaskView::AlbumInfo { id: a.id@, name: a.name@ }),
            )
        },
        _ => (s, ActionView::Idle),
    }
}

/// What `e` does: opens the whole of the list of the home screen that the cursor is
/// in.
pub open spec fn expanded(s: AppView) -> (AppView, ActionView) {
    match s.top().rows {
        RowsView::Home { sections, section } => if section < sections.len() {
            let kind = sections[section as int].kind;
            (saying(s, loading(kind.name())), ActionView::Run(TaskView::Expand(kind)))
        } else {
            (s, ActionView::Idle)
        },
        _ => (s, ActionView::Idle),
    }
}

/// What `P` does: fetches the playlists that the chosen songs can be added to.
pub open spec fn picker_asked(s: AppView) -> (AppView, ActionView) {
    let song_ids = picked_ids(s.top());
    if song_ids.len() > 0 {
        (
            saying(s, "Loading playlists\u{2026}"@),
            ActionView::Run(TaskView::PickPlaylist { song_ids }),
        )
    } else {
        (s, ActionView::Idle)
    }
}

/// What `t` does: lists the albums in their other order, on the tab's first screen.
pub open spec fn sort_toggled(s: AppView) -> (AppView, ActionView) {
    if s.active_tab == Tab::Albums && s.stack.len() == 1 {
        switched(AppView { albums_newest: !s.albums_newest, ..s }, Tab::Albums)
    } else {
        (s, ActionView::Idle)
    }
}

/// The interface with the check for an update in another state.
pub open spec fn with_update(s: AppView, state: UpdateState) -> AppView {
    with_top(s, ScreenView { rows: RowsView::Settings(state), ..s.top() })
}

/// What `u` does: asks for the update that a check has found, and installs it once
/// it is asked for again.
pub open spec fn update_asked(s: AppView) -> (AppView, ActionView) {
    match s.top().rows {
        RowsView::Settings(UpdateState::Checked(found)) => if found.update_available {
            (with_update(s, UpdateState::Confirming(found)), ActionView::Idle)
        } else {
            (s, ActionView::Idle)
        },
        RowsView::Settings(UpdateState::Confirming(_)) => (
            saying(s, "Installing update\u{2026}"@),
            ActionView::Run(TaskView::InstallUpdate),
        ),
        _ => (s, ActionView::Idle),
    }
}

/// What `/` does: starts to edit the filter of a list; on a screen without one,
/// starts a search, unless the screen lies over another.
pub open spec fn slash_pressed(s: AppView) -> (AppView, ActionView) {
    let rows = s.top().rows;
    if crate::screen::filterable(rows) {
        (AppView { filter_editing: true, ..s }, ActionView::Idle)
    } else if rows is Picker || rows is Info {
        (s, ActionView::Idle)
    } else {
        switched(s, Tab::Search)
    }
}

/// What `Esc` and `Backspace` do: clear the filter, else go one screen back.
pub open spec fn gone_back(s: AppView) -> AppView {
    let top = s.top();
    if crate::screen::filterable(top.rows) && top.filter.len() > 0 {
        with_top(s, ScreenView { filter: Seq::empty(), selected: 0, ..top })
    } else if s.stack.len() > 1 {
        with_popped(s)
    } else {
        s
    }
}

/// What the keys do that no line of text takes.
pub open spec fn bound_key(s: AppView, code: KeyCode, now: NowPlaying) -> (AppView, ActionView) {
    let idle = ActionView::Idle;
    match (global_key(code, now), tab_key(s.active_tab, code)) {
        (Some(action), _) => (s, action),
        (None, Some(tab)) => switched(s, tab),
        _ => if code == KeyCode::Char('?') {
            (AppView { show_help: true, ..s }, idle)
        } else if code == KeyCode::Char('/') {
            slash_pressed(s)
        } else if code == KeyCode::Char('a') {
            let songs = songs_to_queue(s.top());
            if songs.len() > 0 {
                (s, ActionView::Run(TaskView::Append { songs }))
            } else {
                (s, idle)
            }
        } else if code == KeyCode::Char('A') {
            let songs = songs_to_queue(s.top());
            if songs.len() > 0 {
                (s, ActionView::Run(TaskView::PlayNext { songs }))
            } else {
                (s, idle)
            }
        } else if code == KeyCode::Char('f') {
            let changes = star_changes(s.top());
            if changes.len() > 0 {
                (s, ActionView::Run(TaskView::SetStarred { changes }))
            } else {
                (s, idle)
            }
        } else if code == KeyCode::Char('v') {
            (with_top(s, crate::screen::mark_toggled(s.top())), idle)
        } else if code == KeyCode::Char('e') {
            expanded(s)
        } else if code == KeyCode::Char('l') {
            (AppView { lyrics_open: !s.lyrics_open, ..s }, idle)
        } else if code == KeyCode::Char('P') {
            picker_asked(s)
        } else if code == KeyCode::Char('c') && s.top().rows is Settings {
            (
                saying(s, "Checking for updates\u{2026}"@),
                ActionView::Run(TaskView::CheckUpdate),
            )
        } else if code == KeyCode::Char('N') || code == KeyCode::Char('c') || code
            == KeyCode::Char('S') {
            (asked_for_name(s, code), idle)
        } else if code == KeyCode::Char('d') {
            (s, deleted(s))
        } else if code == KeyCode::Char('D') {
            if s.top().rows is Queue {
                (s, ActionView::Run(TaskView::ClearQueue))
            } else {
                (s, idle)
            }
        } else if code == KeyCode::Char('J') {
            (s, queue_item_moved(s, true))
        } else if code == KeyCode::Char('K') {
            (s, queue_item_moved(s, false))
        } else if code == KeyCode::Char('i') {
            info_asked(s)
        } else if code == KeyCode::Char('t') {
            sort_toggled(s)
        } else if code == KeyCode::Char('u') {
            update_asked(s)
        } else if code == KeyCode::Up || code == KeyCode::Char('k') {
            (with_top(s, crate::screen::cursor_moved(s.top(), -1)), idle)
        } else if code == KeyCode::Down || code == KeyCode::Char('j') {
            (with_top(s, crate::screen::cursor_moved(s.top(), 1)), idle)
        } else if code == KeyCode::Enter {
            activated(s)
        } else if code == KeyCode::Esc || code == KeyCode::Backspace {
            (gone_back(s), idle)
        } else {
            (s, idle)
        },
    }
}

/// What a key does. The help goes away with any key; a line that the user types in
/// takes every key; a search that is typed, and a filter that is edited, take those
/// that they know.
pub open spec fn key_pressed(s: AppView, code: KeyCode, now: NowPlaying) -> (AppView, ActionView) {
    if s.show_help {
        (AppView { show_help: false, ..s }, ActionView::Idle)
    } else if s.prompt is Some {
        prompt_key(s, s.prompt->0, code)
    } else {
        match search_key(s, code) {
            Some(r) => r,
            None => {
                let (t, used) = filter_edited(s, code);
                if used {
                    (t, ActionView::Idle)
                } else {
                    bound_key(t, code, now)
                }
            },
        }
    }
}

fn reversed(rows: &Vec<usize>) -> (out: Vec<usize>)
    ensures
        out@ == rows@.reverse(),
{
    let mut out: Vec<usize> = Vec::new();
    let mut i: usize = rows.len();
    while i > 0
        invariant
            i <= rows.len(),
            out@ == rows@.reverse().take(rows.len() - i),
        decreases i,
    {
        i = i - 1;
        out.push(rows[i]);
        assert(out@ =~= rows@.reverse().take(rows.len() - i));
    }
    assert(out@ =~= rows@.reverse());
    out
}

impl App {
    fn delete_selected(&self) -> (action: Action)
        requires
            self@.wf(),
        ensures
            action@ == deleted(self@),
    {
        let top = self.top();
        match &top.rows {
            Rows::Playlists(playlists) => match top.cursor_row() {
                Some(i) => Action::Run(Task::DeletePlaylist { id: playlists[i].id.clone() }),
                None => Action::Idle,
            },
            Rows::Songs { playlist_id, .. } => match playlist_id {
                Some(id) => {
                    let chosen = top.chosen();
                    if chosen.len() > 0 {
                        Action::Run(
                            Task::RemoveFromPlaylist { id: id.clone(), rows: reversed(&chosen) },
                        )
                    } else {
                        Action::Idle
                    }
                },
                None => Action::Idle,
            },
            Rows::Queue(_) => {
                let chosen = top.chosen();
                if chosen.len() > 0 {
                    Action::Run(Task::RemoveFromQueue { rows: reversed(&chosen) })
                } else {
                    Action::Idle
                }
            },
            _ => Action::Idle,
        }
    }

    fn move_queue_item(&self, down: bool) -> (action: Action)
        requires
            self@.wf(),
        ensures
            action@ == queue_item_moved(self@, down),
    {
        let top = self.top();
        match &top.rows {
            Rows::Queue(tracks) => match top.cursor_row() {
                Some(i) => if down && i < tracks.len() - 1 {
                    Action::Run(Task::MoveInQueue { from: i, to: i + 1 })
                } else if !down && i > 0 {
                    Action::Run(Task::MoveInQueue { from: i, to: i - 1 })
                } else {
                    Action::Idle
                },
                None => Action::Idle,
            },
            _ => Action::Idle,
        }
    }

    fn ask(&mut self, action: PromptAction, words: String)
        ensures
            final(self)@ == prompting(old(self)@, action, words@),
    {
        self.prompt = Some(TextPrompt { action, text: words });
        assert(self@ =~= prompting(old(self)@, action, words@));
    }

    fn ask_for_name(&mut self, code: KeyCode)
        requires
            old(self)@.wf(),
        ensures
            final(self)@ == asked_for_name(old(self)@, code),
    {
        let empty = String::new();
        assert(empty@ =~= Seq::<char>::empty());
        let top = self.top();
        if code == KeyCode::Char('N') {
            match &top.rows {
                Rows::Playlists(_) => {
                    self.ask(PromptAction::NewPlaylist, empty);
                },
                _ => {},
            }
        } else if code == KeyCode::Char('S') {
            match &top.rows {
                Rows::Queue(_) => {
                    self.ask(PromptAction::SaveQueueAsPlaylist, empty);
                },
                _ => {},
            }
        } else if code == KeyCode::Char('c') {
            match &top.rows {
                Rows::Playlists(playlists) => match top.cursor_row() {
                    Some(i) => {
                        let id = playlists[i].id.clone();
                        let name = playlists[i].name.clone();
                        self.ask(PromptAction::RenamePlaylist { id }, name);
                    },
                    None => {},
                },
                _ => {},
            }
        }
    }

    fn show_info(&mut self) -> (action: Action)
        requires
            old(self)@.wf(),
        ensures
            (final(self)@, action@) == info_asked(old(self)@),
    {
        let top = self.top();
        let row: Option<usize> = top.cursor_row();
        let (name, task) = match &top.rows {
            Rows::Artists(artists) => match row {
                Some(i) => {
                    let name = artists[i].name.clone();
                    (
                        name.clone(),
                        Task::ArtistInfo { id: artists[i].id.clone(), name },
                    )
                },
                None => {
                    return Action::Idle;
                },
            },
            Rows::Albums { albums, .. } => match row {
                Some(i) => {
                    let name = albums[i].name.clone();
                    (name.clone(), Task::AlbumInfo { id: albums[i].id.clone(), name })
                },
                None => {
                    return Action::Idle;
                },
            },
            _ => {
                return Action::Idle;
            },
        };
        let words: String = "Loading info for ".to_owned().concat(name.as_str()).concat("\u{2026}");
        self.say(words);
        Action::Run(task)
    }

    fn expand_home_section(&mut self) -> (action: Action)
        requires
            old(self)@.wf(),
        ensures
            (final(self)@, action@) == expanded(old(self)@),
    {
        let kind: NativeKind = match &self.top().rows {
            Rows::Home { sections, section } => {
                if *section < sections.len() {
                    assert(crate::screen::section_views(sections@)[*section as int]
                        == sections@[*section as int]@);
                    sections[*section].kind
                } else {
                    return Action::Idle;
                }
            },
            _ => {
                return Action::Idle;
            },
        };
        let words: String = loading_line(kind.title());
        self.say(words);
        Action::Run(Task::Expand(kind))
    }

    fn open_playlist_picker(&mut self) -> (action: Action)
        requires
            old(self)@.wf(),
        ensures
            (final(self)@, action@) == picker_asked(old(self)@),
    {
        let song_ids = selected_song_ids(self.top());
        if song_ids.len() > 0 {
            self.say("Loading playlists\u{2026}".to_owned());
            Action::Run(Task::PickPlaylist { song_ids })
        } else {
            Action::Idle
        }
    }

    fn toggle_sort(&mut self) -> (action: Action)
        requires
            old(self)@.wf(),
        ensures
            (final(self)@, action@) == sort_toggled(old(self)@),
    {
        if self.active_tab == Tab::Albums && self.stack.len() == 1 {
            self.albums_newest = !self.albums_newest;
            self.switch_tab(Tab::Albums)
        } else {
            Action::Idle
        }
    }

    fn ask_for_update(&mut self) -> (action: Action)
        requires
            old(self)@.wf(),
        ensures
            (final(self)@, action@) == update_asked(old(self)@),
    {
        let ghost before = self@;
        let mut top = self.take_top();
        let mut install: bool = false;
        top.rows = match top.rows {
            Rows::Settings(UpdateState::Checked(found)) => if found.update_available {
                Rows::Settings(UpdateState::Confirming(found))
            } else {
                Rows::Settings(UpdateState::Checked(found))
            },
            Rows::Settings(UpdateState::Confirming(found)) => {
                install = true;
                Rows::Settings(UpdateState::Confirming(found))
            },
            rows => rows,
        };
        self.put_top(top);
        assert(before.stack.drop_last().push(before.top()) =~= before.stack);
        if install {
            self.say("Installing update\u{2026}".to_owned());
            assert(self@ =~= update_asked(before).0);
            Action::Run(Task::InstallUpdate)
        } else {
            assert(self@ =~= update_asked(before).0);
            Action::Idle
        }
    }

    fn press_slash(&mut self) -> (action: Action)
        requires
            old(self)@.wf(),
        ensures
            (final(self)@, action@) == slash_pressed(old(self)@),
    {
        if self.top().rows.can_filter() {
            self.filter_editing = true;
            return Action::Idle;
        }
        let over: bool = match &self.top().rows {
            Rows::Picker { .. } => true,
            Rows::Info { .. } => true,
            _ => false,
        };
        if over {
            Action::Idle
        } else {
            self.switch_tab(Tab::Search)
        }
    }

    fn go_back(&mut self)
        requires
            old(self)@.wf(),
        ensures
            final(self)@ == gone_back(old(self)@),
    {
        let clears: bool = self.top().rows.can_filter() && !self.top().filter.as_str().is_empty();
        if clears {
            let mut top = self.take_top();
            top.filter = String::new();
            assert(top.filter@ =~= Seq::<char>::empty());
            top.selected = 0;
            self.put_top(top);
        } else if self.stack.len() > 1 {
            self.take_top();
        }
    }

    fn toggle_mark(&mut self)
        requires
            old(self)@.wf(),
        ensures
            final(self)@ == with_top(old(self)@, crate::screen::mark_toggled(old(self)@.top())),
    {
        let mut top = self.take_top();
        top.toggle_mark();
        self.put_top(top);
    }

    fn move_selection(&mut self, delta: i32)
        requires
            old(self)@.wf(),
        ensures
            final(self)@ == with_top(
                old(self)@,
                crate::screen::cursor_moved(old(self)@.top(), delta as int),
            ),
    {
        let mut top = self.take_top();
        top.move_selection(delta);
        self.put_top(top);
    }

    fn handle_bound_key(&mut self, code: KeyCode, now: &NowPlaying) -> (action: Action)
        requires
            old(self)@.wf(),
        ensures
            (final(self)@, action@) == bound_key(old(self)@, code, *now),
    {
        match global_action(code, now) {
            Some(action) => {
                return action;
            },
            None => {},
        }
        match tab_for(self.active_tab, code) {
            Some(tab) => {
                return self.switch_tab(tab);
            },
            None => {},
        }
        let settings: bool = match &self.top().rows {
            Rows::Settings(_) => true,
            _ => false,
        };
        let queue: bool = match &self.top().rows {
            Rows::Queue(_) => true,
            _ => false,
        };
        if code == KeyCode::Char('?') {
            self.show_help = true;
            Action::Idle
        } else if code == KeyCode::Char('/') {
            self.press_slash()
        } else if code == KeyCode::Char('a') {
            let songs = list_to_queue(self.top());
            if songs.len() > 0 {
                Action::Run(Task::Append { songs })
            } else {
                Action::Idle
            }
        } else if code == KeyCode::Char('A') {
            let songs = list_to_queue(self.top());
            if songs.len() > 0 {
                Action::Run(Task::PlayNext { songs })
            } else {
                Action::Idle
            }
        } else if code == KeyCode::Char('f') {
            let changes = changes_of(self.top());
            if changes.len() > 0 {
                Action::Run(Task::SetStarred { changes })
            } else {
                Action::Idle
            }
        } else if code == KeyCode::Char('v') {
            self.toggle_mark();
            Action::Idle
        } else if code == KeyCode::Char('e') {
            self.expand_home_section()
        } else if code == KeyCode::Char('l') {
            self.lyrics_open = !self.lyrics_open;
            Action::Idle
        } else if code == KeyCode::Char('P') {
            self.open_playlist_picker()
        } else if code == KeyCode::Char('c') && settings {
            self.say("Checking for updates\u{2026}".to_owned());
            Action::Run(Task::CheckUpdate)
        } else if code == KeyCode::Char('N') || code == KeyCode::Char('c') || code
            == KeyCode::Char('S') {
            self.ask_for_name(code);
            Action::Idle
        } else if code == KeyCode::Char('d') {
            self.delete_selected()
        } else if code == KeyCode::Char('D') {
            if queue {
                Action::Run(Task::ClearQueue)
            } else {
                Action::Idle
            }
        } else if code == KeyCode::Char('J') {
            self.move_queue_item(true)
        } else if code == KeyCode::Char('K') {
            self.move_queue_item(false)
        } else if code == KeyCode::Char('i') {
            self.show_info()
        } else if code == KeyCode::Char('t') {
            self.toggle_sort()
        } else if code == KeyCode::Char('u') {
            self.ask_for_update()
        } else if code == KeyCode::Up || code == KeyCode::Char('k') {
            self.move_selection(-1);
            Action::Idle
        } else if code == KeyCode::Down || code == KeyCode::Char('j') {
            self.move_selection(1);
            Action::Idle
        } else if code == KeyCode::Enter {
            self.activate_selection()
        } else if code == KeyCode::Esc || code == KeyCode::Backspace {
            self.go_back();
            Action::Idle
        } else {
            Action::Idle
        }
    }

    /// Takes a key. `now` is what is known of playback.
    pub fn handle_key(&mut self, code: KeyCode, now: &NowPlaying) -> (action: Action)
        requires
            old(self)@.wf(),
        ensures
            (final(self)@, action@) == key_pressed(old(self)@, code, *now),
            final(self)@.wf(),
    {
        let ghost before = self@;
        proof {
            key_keeps_a_screen(before, code, *now);
        }
        if self.show_help {
            self.show_help = false;
            return Action::Idle;
        }
        if self.prompt.is_some() {
            return self.handle_prompt_key(code);
        }
        match self.handle_search_edit(code) {
            Some(action) => {
                return action;
            },
            None => {},
        }
        if self.handle_filter_edit(code) {
            return Action::Idle;
        }
        self.handle_bound_key(code, now)
    }
}

/// Whatever key is pressed, there is a screen to show.
pub proof fn key_keeps_a_screen(s: AppView, code: KeyCode, now: NowPlaying)
    requires
        s.wf(),
    ensures
        key_pressed(s, code, now).0.wf(),
{
}

/// The interface with nothing but one screen, just opened.
pub open spec fn with_root(s: AppView, rows: RowsView) -> AppView {
    AppView { stack: seq![crate::screen::opened(rows)], ..s }
}

/// What is said of a fetch that failed.
pub open spec fn error_text(why: Seq<char>) -> Seq<char> {
    "error: "@ + why
}

/// One list of the home screen: the first songs of one of the server's own lists.
pub open spec fn preview(kind: NativeKind, songs: Seq<SongView>) -> SectionView {
    SectionView {
        kind,
        songs: if songs.len() > HOME_PREVIEW_ROWS {
            songs.take(HOME_PREVIEW_ROWS as int)
        } else {
            songs
        },
    }
}

/// What the home screen lists.
pub open spec fn previews(
    favourites: Seq<SongView>,
    recently_played: Seq<SongView>,
    on_repeat: Seq<SongView>,
    songs_for_you: Seq<SongView>,
) -> Seq<SectionView> {
    seq![
        preview(NativeKind::Favourites, favourites),
        preview(NativeKind::RecentlyPlayed, recently_played),
        preview(NativeKind::OnRepeat, on_repeat),
        preview(NativeKind::SongsForYou, songs_for_you),
    ]
}

/// What a tab's first screen lists, from what was fetched for it; nothing where
/// that is something else.
pub open spec fn root_rows(tab: Tab, reply: Reply) -> Option<RowsView> {
    match (tab, reply) {
        (Tab::Albums, Reply::Albums(albums)) => Some(
            RowsView::Albums { title: "Albums"@, albums: albums@ },
        ),
        (Tab::Artists, Reply::Artists(artists)) => Some(RowsView::Artists(artists@)),
        (Tab::Playlists, Reply::Playlists(playlists)) => Some(RowsView::Playlists(playlists@)),
        (Tab::Genres, Reply::Genres(genres)) => Some(RowsView::Genres(genres@)),
        (Tab::Queue, Reply::Queue(tracks)) => Some(RowsView::Queue(tracks@)),
        (
            Tab::Home,
            Reply::Home { favourites, recently_played, on_repeat, songs_for_you },
        ) => Some(
            RowsView::Home {
                sections: previews(
                    item_views(favourites@),
                    item_views(recently_played@),
                    item_views(on_repeat@),
                    item_views(songs_for_you@),
                ),
                section: 0,
            },
        ),
        _ => None,
    }
}

/// What comes of fetching a tab: its first screen, or the reason why there is
/// nothing on it.
pub open spec fn tab_loaded(s: AppView, tab: Tab, reply: Reply) -> AppView {
    match reply {
        Reply::Failed(why) => saying(s, error_text(why@)),
        _ => match root_rows(tab, reply) {
            Some(rows) => hushed(with_root(s, rows)),
            None => s,
        },
    }
}

/// What comes of fetching a list to open: it shows, or the reason why not.
pub open spec fn list_loaded(s: AppView, rows: Option<RowsView>, reply: Reply) -> AppView {
    match (rows, reply) {
        (Some(r), _) => with_pushed(hushed(s), crate::screen::opened(r)),
        (None, Reply::Failed(why)) => saying(s, error_text(why@)),
        _ => s,
    }
}

/// A list of songs to open, from what was fetched.
pub open spec fn song_rows(
    title: Seq<char>,
    playlist_id: Option<Seq<char>>,
    reply: Reply,
) -> Option<RowsView> {
    match reply {
        Reply::Songs(songs) => Some(
            RowsView::Songs { title, songs: item_views(songs@), playlist_id },
        ),
        _ => None,
    }
}

/// A list of albums to open, from what was fetched.
pub open spec fn album_rows(title: Seq<char>, reply: Reply) -> Option<RowsView> {
    match reply {
        Reply::Albums(albums) => Some(RowsView::Albums { title, albums: albums@ }),
        _ => None,
    }
}

/// The place of the cursor in a list of `len` rows: as it was, or the last row.
pub open spec fn clamped(selected: usize, len: nat) -> usize {
    if selected < len {
        selected
    } else if len > 0 {
        (len - 1) as usize
    } else {
        0
    }
}

/// A screen with its list fetched anew. The cursor keeps its place among the rows
/// that the filter leaves visible. Marks are gone: rows may have moved.
pub open spec fn refreshed(top: ScreenView, rows: RowsView) -> ScreenView {
    let len = crate::screen::visible(ScreenView { rows, ..top }).len();
    ScreenView { rows, selected: clamped(top.selected, len), marked: Seq::empty(), ..top }
}

/// A screen with the cursor on the row at `follow`, if that is visible.
pub open spec fn following(top: ScreenView, follow: Option<usize>) -> ScreenView {
    match follow {
        Some(i) => {
            let v = crate::screen::visible(top);
            let p = crate::play_order::place_in(v, i);
            if p < v.len() {
                ScreenView { selected: p as usize, ..top }
            } else {
                top
            }
        },
        None => top,
    }
}

/// What comes of fetching the queue anew.
pub open spec fn queue_refreshed(s: AppView, follow: Option<usize>, reply: Reply) -> AppView {
    let (t, tracks) = match reply {
        Reply::Queue(tracks) => (hushed(s), tracks@),
        Reply::Failed(why) => (saying(s, error_text(why@)), Seq::empty()),
        _ => (s, Seq::empty()),
    };
    if s.top().rows is Queue {
        with_top(t, following(refreshed(s.top(), RowsView::Queue(tracks)), follow))
    } else {
        t
    }
}

/// What comes of fetching the songs of a playlist anew.
pub open spec fn playlist_refreshed(s: AppView, reply: Reply) -> AppView {
    let (t, songs) = match reply {
        Reply::Songs(songs) => (hushed(s), item_views(songs@)),
        Reply::Failed(why) => (saying(s, error_text(why@)), Seq::empty()),
        _ => (s, Seq::empty()),
    };
    match s.top().rows {
        RowsView::Songs { title, playlist_id, .. } => with_top(
            t,
            refreshed(s.top(), RowsView::Songs { title, songs, playlist_id }),
        ),
        _ => t,
    }
}

/// The names of similar artists, one to a line.
pub open spec fn similar_lines(artists: Seq<crate::library::SimilarArtist>) -> Seq<char>
    decreases artists.len(),
{
    if artists.len() == 0 {
        Seq::empty()
    } else {
        similar_lines(artists.drop_last()) + " - "@ + artists.last().name@ + "\n"@
    }
}

/// What is shown of an artist.
pub open spec fn artist_text(info: ArtistInfo) -> Seq<char> {
    let biography = if info.biography@.len() == 0 {
        "No biography available."@
    } else {
        info.biography@
    };
    if info.similar_artists@.len() == 0 {
        biography
    } else {
        biography + "\n\nSimilar artists:\n"@ + similar_lines(info.similar_artists@)
    }
}

/// What is shown of an album.
pub open spec fn album_text(info: AlbumInfo) -> Seq<char> {
    if info.notes@.len() == 0 {
        "No notes available."@
    } else {
        info.notes@
    }
}

/// What comes of fetching what is known of an artist: it shows. A fetch that
/// failed found nothing.
pub open spec fn artist_info_loaded(s: AppView, name: Seq<char>, reply: Reply) -> AppView {
    match reply {
        Reply::ArtistInfo(info) => with_pushed(
            hushed(s),
            crate::screen::opened(RowsView::Info { title: name, body: artist_text(info) }),
        ),
        Reply::Failed(why) => with_pushed(
            saying(s, error_text(why@)),
            crate::screen::opened(
                RowsView::Info { title: name, body: "No biography available."@ },
            ),
        ),
        _ => s,
    }
}

/// What comes of fetching what is known of an album: it shows. A fetch that failed
/// found nothing.
pub open spec fn album_info_loaded(s: AppView, name: Seq<char>, reply: Reply) -> AppView {
    match reply {
        Reply::AlbumInfo(info) => with_pushed(
            hushed(s),
            crate::screen::opened(RowsView::Info { title: name, body: album_text(info) }),
        ),
        Reply::Failed(why) => with_pushed(
            saying(s, error_text(why@)),
            crate::screen::opened(RowsView::Info { title: name, body: "No notes available."@ }),
        ),
        _ => s,
    }
}

/// What is said where there is no playlist to add songs to.
pub open spec fn no_playlists() -> Seq<char> {
    "no playlists yet \u{2014} press N on the Playlists tab to create one"@
}

/// What comes of fetching the playlists that songs can be added to.
pub open spec fn picker_loaded(s: AppView, song_ids: Seq<Seq<char>>, reply: Reply) -> AppView {
    match reply {
        Reply::Playlists(playlists) => if playlists@.len() > 0 {
            with_pushed(
                hushed(s),
                crate::screen::opened(RowsView::Picker { playlists: playlists@, song_ids }),
            )
        } else {
            saying(s, no_playlists())
        },
        Reply::Failed(_) => saying(s, no_playlists()),
        _ => s,
    }
}

/// What comes of a search.
pub open spec fn searched(s: AppView, reply: Reply) -> AppView {
    match reply {
        Reply::Songs(songs) => match s.top().rows {
            RowsView::Search { query, .. } => with_top(
                hushed(s),
                ScreenView {
                    rows: RowsView::Search {
                        query,
                        editing: false,
                        results: item_views(songs@),
                    },
                    selected: 0,
                    marked: Seq::empty(),
                    ..s.top()
                },
            ),
            _ => hushed(s),
        },
        Reply::Failed(why) => saying(s, "search error: "@ + why@),
        _ => s,
    }
}

/// What comes of something that was done, or not: `done` leads on, a failure is
/// told.
pub open spec fn outcome(
    s: AppView,
    reply: Reply,
    done: (AppView, ActionView),
    trouble: Seq<char>,
) -> (AppView, ActionView) {
    match reply {
        Reply::Done => done,
        Reply::Failed(why) => (saying(s, trouble + why@), ActionView::Idle),
        _ => (s, ActionView::Idle),
    }
}

/// The interface one screen back, with the marks there gone.
pub open spec fn picker_closed(s: AppView) -> AppView {
    if s.stack.len() > 1 {
        let t = with_popped(s);
        with_top(t, ScreenView { marked: Seq::empty(), ..t.top() })
    } else {
        s
    }
}

/// What comes of adding songs to a playlist. The screen to pick one goes away
/// either way.
pub open spec fn added_to_playlist(s: AppView, name: Seq<char>, reply: Reply) -> AppView {
    match reply {
        Reply::Done => saying(picker_closed(s), "added to \""@ + name + "\""@),
        Reply::Failed(why) => saying(picker_closed(s), "could not add to playlist: "@ + why@),
        _ => s,
    }
}

/// A song with its star set, or taken away.
pub open spec fn starred(song: SongView, on: bool) -> SongView {
    SongView {
        starred: if on {
            Some(Seq::empty())
        } else {
            None
        },
        ..song
    }
}

/// Songs with the star of each one by this id changed.
pub open spec fn star_set(songs: Seq<SongView>, id: Seq<char>, on: bool) -> Seq<SongView> {
    songs.map_values(
        |song: SongView|
            if song.id == id {
                starred(song, on)
            } else {
                song
            },
    )
}

/// The lists of the home screen with the star of each song by this id changed.
pub open spec fn section_star_set(sections: Seq<SectionView>, id: Seq<char>, on: bool) -> Seq<
    SectionView,
> {
    sections.map_values(
        |list: SectionView| SectionView { songs: star_set(list.songs, id, on), ..list },
    )
}

/// What is listed with the star of each song by this id changed.
pub open spec fn rows_star_set(rows: RowsView, id: Seq<char>, on: bool) -> RowsView {
    match rows {
        RowsView::Home { sections, section } => RowsView::Home {
            sections: section_star_set(sections, id, on),
            section,
        },
        RowsView::Songs { title, songs, playlist_id } => RowsView::Songs {
            title,
            songs: star_set(songs, id, on),
            playlist_id,
        },
        RowsView::Search { query, editing, results } => RowsView::Search {
            query,
            editing,
            results: star_set(results, id, on),
        },
        _ => rows,
    }
}

/// What is listed with all the changes made, one after the other.
pub open spec fn rows_stars_set(rows: RowsView, changes: Seq<(Seq<char>, bool)>) -> RowsView
    decreases changes.len(),
{
    if changes.len() == 0 {
        rows
    } else {
        let last = changes.last();
        rows_star_set(rows_stars_set(rows, changes.drop_last()), last.0, last.1)
    }
}

/// What comes of changing stars: the songs on the screen show it at once.
pub open spec fn stars_changed(s: AppView, changes: Seq<(Seq<char>, bool)>) -> AppView {
    hushed(
        with_top(
            s,
            ScreenView {
                rows: rows_stars_set(s.top().rows, changes),
                marked: Seq::empty(),
                ..s.top()
            },
        ),
    )
}

/// The interface with no row of the screen that shows marked.
pub open spec fn unmarked(s: AppView) -> AppView {
    with_top(s, ScreenView { marked: Seq::empty(), ..s.top() })
}

/// How many tracks were added to the queue, in words.
pub open spec fn added_text(count: nat, place: Seq<char>) -> Seq<char> {
    "added "@ + text::decimal(count) + " track(s) "@ + place
}

/// What comes of fetching the queue after it was changed.
pub open spec fn queue_asked(s: AppView, follow: Option<usize>) -> (AppView, ActionView) {
    (
        saying(s, "Loading queue\u{2026}"@),
        ActionView::Run(TaskView::RefreshQueue { follow }),
    )
}

/// What comes of a check for an update.
pub open spec fn update_checked(s: AppView, reply: Reply) -> AppView {
    match reply {
        Reply::Update(found) => if s.top().rows is Settings {
            hushed(with_update(s, UpdateState::Checked(found)))
        } else {
            hushed(s)
        },
        Reply::Failed(why) => saying(s, error_text(why@)),
        _ => s,
    }
}

/// What comes of installing an update.
pub open spec fn update_installed(s: AppView, reply: Reply) -> AppView {
    match reply {
        Reply::Done => if s.top().rows is Settings {
            hushed(with_update(s, UpdateState::Installed))
        } else {
            hushed(s)
        },
        Reply::Failed(why) => saying(s, "update failed: "@ + why@),
        _ => s,
    }
}

/// What comes of a task, from what was reported of it.
pub open spec fn completed(s: AppView, task: TaskView, reply: Reply) -> (AppView, ActionView) {
    let idle = ActionView::Idle;
    match task {
        TaskView::LoadTab { tab, .. } => (tab_loaded(s, tab, reply), idle),
        TaskView::OpenAlbum { title, .. } => (
            list_loaded(s, song_rows(title, None, reply), reply),
            idle,
        ),
        TaskView::OpenPlaylist { id, title } => (
            list_loaded(s, song_rows(title, Some(id), reply), reply),
            idle,
        ),
        TaskView::OpenArtist { title, .. } => (
            list_loaded(s, album_rows(title, reply), reply),
            idle,
        ),
        TaskView::OpenGenre { title } => (list_loaded(s, album_rows(title, reply), reply), idle),
        TaskView::Expand(kind) => match reply {
            Reply::Failed(why) => (
                with_pushed(
                    saying(s, error_text(why@)),
                    crate::screen::opened(
                        RowsView::Songs {
                            title: kind.name(),
                            songs: Seq::empty(),
                            playlist_id: None,
                        },
                    ),
                ),
                idle,
            ),
            _ => (list_loaded(s, song_rows(kind.name(), None, reply), reply), idle),
        },
        TaskView::RefreshPlaylist { .. } => (playlist_refreshed(s, reply), idle),
        TaskView::RefreshQueue { follow } => (queue_refreshed(s, follow, reply), idle),
        TaskView::ArtistInfo { name, .. } => (artist_info_loaded(s, name, reply), idle),
        TaskView::AlbumInfo { name, .. } => (album_info_loaded(s, name, reply), idle),
        TaskView::PickPlaylist { song_ids } => (picker_loaded(s, song_ids, reply), idle),
        TaskView::Search { .. } => (searched(s, reply), idle),
        TaskView::NewPlaylist { .. } => outcome(
            s,
            reply,
            switched(s, Tab::Playlists),
            "could not create playlist: "@,
        ),
        TaskView::SaveQueue { name, .. } => outcome(
            s,
            reply,
            (saying(s, "saved queue as playlist \""@ + name + "\""@), idle),
            "could not save playlist: "@,
        ),
        TaskView::RenamePlaylist { .. } => outcome(
            s,
            reply,
            switched(s, Tab::Playlists),
            "could not rename playlist: "@,
        ),
        TaskView::DeletePlaylist { .. } => outcome(
            s,
            reply,
            switched(s, Tab::Playlists),
            "could not delete playlist: "@,
        ),
        TaskView::AddToPlaylist { name, .. } => (added_to_playlist(s, name, reply), idle),
        TaskView::RemoveFromPlaylist { id, .. } => outcome(
            s,
            reply,
            (
                saying(s, "Loading\u{2026}"@),
                ActionView::Run(TaskView::RefreshPlaylist { id }),
            ),
            "could not remove from playlist: "@,
        ),
        TaskView::SetStarred { changes } => outcome(
            s,
            reply,
            (stars_changed(s, changes), idle),
            "could not update favorite: "@,
        ),
        TaskView::PlayQueue { .. } => outcome(s, reply, (hushed(s), idle), "could not play: "@),
        TaskView::Append { songs } => outcome(
            s,
            reply,
            (saying(unmarked(s), added_text(songs.len(), "to the queue"@)), idle),
            "could not add to queue: "@,
        ),
        TaskView::PlayNext { songs } => outcome(
            s,
            reply,
            (saying(unmarked(s), added_text(songs.len(), "to play next"@)), idle),
            "could not add to queue: "@,
        ),
        TaskView::PlayAt { .. } => outcome(
            s,
            reply,
            (hushed(s), idle),
            "could not jump to track: "@,
        ),
        TaskView::RemoveFromQueue { .. } => outcome(
            s,
            reply,
            queue_asked(s, None),
            "could not remove from queue: "@,
        ),
        TaskView::ClearQueue => outcome(
            s,
            reply,
            queue_asked(s, None),
            "could not clear queue: "@,
        ),
        TaskView::MoveInQueue { to, .. } => outcome(
            s,
            reply,
            queue_asked(s, Some(to)),
            "could not reorder queue: "@,
        ),
        TaskView::CheckUpdate => (update_checked(s, reply), idle),
        TaskView::InstallUpdate => (update_installed(s, reply), idle),
    }
}

/// Whether nothing follows a task but what its reply shows.
pub open spec fn ends_with_its_reply(task: TaskView) -> bool {
    match task {
        TaskView::LoadTab { .. } => true,
        TaskView::OpenAlbum { .. } => true,
        TaskView::OpenPlaylist { .. } => true,
        TaskView::OpenArtist { .. } => true,
        TaskView::OpenGenre { .. } => true,
        TaskView::Expand(_) => true,
        TaskView::RefreshPlaylist { .. } => true,
        TaskView::RefreshQueue { .. } => true,
        TaskView::ArtistInfo { .. } => true,
        TaskView::AlbumInfo { .. } => true,
        TaskView::PickPlaylist { .. } => true,
        TaskView::Search { .. } => true,
        TaskView::CheckUpdate => true,
        TaskView::InstallUpdate => true,
        TaskView::AddToPlaylist { .. } => true,
        _ => false,
    }
}

fn only_shown(task: &Task) -> (r: bool)
    ensures
        r == ends_with_its_reply(task@),
{
    match task {
        Task::LoadTab { .. } => true,
        Task::OpenAlbum { .. } => true,
        Task::OpenPlaylist { .. } => true,
        Task::OpenArtist { .. } => true,
        Task::OpenGenre { .. } => true,
        Task::Expand(_) => true,
        Task::RefreshPlaylist { .. } => true,
        Task::RefreshQueue { .. } => true,
        Task::ArtistInfo { .. } => true,
        Task::AlbumInfo { .. } => true,
        Task::PickPlaylist { .. } => true,
        Task::Search { .. } => true,
        Task::CheckUpdate => true,
        Task::InstallUpdate => true,
        Task::AddToPlaylist { .. } => true,
        _ => false,
    }
}

fn prefixed(before: &str, why: &str) -> (r: String)
    ensures
        r@ == before@ + why@,
{
    before.to_owned().concat(why)
}

fn make_preview(kind: NativeKind, songs: Vec<Song>) -> (section: HomeSection)
    ensures
        section@ == preview(kind, item_views(songs@)),
{
    let mut songs = songs;
    let ghost all = songs@;
    if songs.len() > HOME_PREVIEW_ROWS {
        songs.truncate(HOME_PREVIEW_ROWS);
        assert(item_views(songs@) =~= item_views(all).take(HOME_PREVIEW_ROWS as int));
    }
    HomeSection { kind, songs }
}

fn similar_text(artists: &Vec<crate::library::SimilarArtist>) -> (out: String)
    ensures
        out@ == similar_lines(artists@),
{
    let mut out = String::new();
    let mut i: usize = 0;
    assert(out@ =~= Seq::<char>::empty());
    while i < artists.len()
        invariant
            i <= artists.len(),
            out@ == similar_lines(artists@.take(i as int)),
        decreases artists.len() - i,
    {
        assert(artists@.take(i + 1).drop_last() =~= artists@.take(i as int));
        out.append(" - ");
        out.append(artists[i].name.as_str());
        out.append("\n");
        i = i + 1;
    }
    assert(artists@.take(i as int) =~= artists@);
    out
}

fn artist_body(info: ArtistInfo) -> (body: String)
    ensures
        body@ == artist_text(info),
{
    let biography: String = if info.biography.as_str().is_empty() {
        "No biography available.".to_owned()
    } else {
        info.biography.clone()
    };
    if info.similar_artists.len() == 0 {
        biography
    } else {
        biography.concat("\n\nSimilar artists:\n").concat(
            similar_text(&info.similar_artists).as_str(),
        )
    }
}

fn album_body(info: AlbumInfo) -> (body: String)
    ensures
        body@ == album_text(info),
{
    if info.notes.as_str().is_empty() {
        "No notes available.".to_owned()
    } else {
        info.notes
    }
}

fn clamp(selected: usize, len: usize) -> (r: usize)
    ensures
        r == clamped(selected, len as nat),
{
    if selected < len {
        selected
    } else if len > 0 {
        len - 1
    } else {
        0
    }
}

fn set_star(songs: &mut Vec<Song>, id: &str, on: bool)
    ensures
        item_views(final(songs)@) == star_set(item_views(old(songs)@), id@, on),
{
    let ghost all = item_views(songs@);
    let ghost wanted = star_set(all, id@, on);
    let mut i: usize = 0;
    assert(wanted.take(0) + all.skip(0) =~= all);
    while i < songs.len()
        invariant
            i <= songs.len(),
            songs@.len() == all.len(),
            wanted == star_set(all, id@, on),
            item_views(songs@) == wanted.take(i as int) + all.skip(i as int),
        decreases songs.len() - i,
    {
        assert(item_views(songs@)[i as int] == all[i as int]);
        if text::same(songs[i].id.as_str(), id) {
            let mut song = songs[i].clone();
            song.starred = if on {
                Some(String::new())
            } else {
                None
            };
            assert(song@ =~= starred(all[i as int], on));
            let ghost before = item_views(songs@);
            songs.set(i, song);
            assert(item_views(songs@) =~= before.update(i as int, song@));
        }
        i = i + 1;
        assert(item_views(songs@) =~= wanted.take(i as int) + all.skip(i as int));
    }
    assert(wanted.take(i as int) + all.skip(i as int) =~= wanted);
}

fn set_section_star(sections: &mut Vec<HomeSection>, id: &str, on: bool)
    ensures
        crate::screen::section_views(final(sections)@) == section_star_set(
            crate::screen::section_views(old(sections)@),
            id@,
            on,
        ),
{
    let ghost all = crate::screen::section_views(sections@);
    let ghost wanted = section_star_set(all, id@, on);
    let mut i: usize = 0;
    assert(wanted.take(0) + all.skip(0) =~= all);
    while i < sections.len()
        invariant
            i <= sections.len(),
            sections@.len() == all.len(),
            wanted == section_star_set(all, id@, on),
            crate::screen::section_views(sections@) == wanted.take(i as int) + all.skip(i as int),
        decreases sections.len() - i,
    {
        let ghost before = crate::screen::section_views(sections@);
        assert(before[i as int] == all[i as int]);
        let mut songs = copy_songs(&sections[i].songs);
        set_star(&mut songs, id, on);
        let section = HomeSection { kind: sections[i].kind, songs };
        assert(section@ =~= wanted[i as int]);
        sections.set(i, section);
        assert(crate::screen::section_views(sections@) =~= before.update(i as int, section@));
        i = i + 1;
        assert(crate::screen::section_views(sections@) =~= wanted.take(i as int) + all.skip(
            i as int,
        ));
    }
    assert(wanted.take(i as int) + all.skip(i as int) =~= wanted);
}

fn set_row_star(rows: &mut Rows, id: &str, on: bool)
    ensures
        final(rows)@ == rows_star_set(old(rows)@, id@, on),
{
    match rows {
        Rows::Home { sections, .. } => {
            set_section_star(sections, id, on);
        },
        Rows::Songs { songs, .. } => {
            set_star(songs, id, on);
        },
        Rows::Search { results, .. } => {
            set_star(results, id, on);
        },
        _ => {},
    }
}

fn set_row_stars(rows: &mut Rows, changes: &Vec<(String, bool)>)
    ensures
        final(rows)@ == rows_stars_set(old(rows)@, change_views(changes@)),
{
    let ghost all = change_views(changes@);
    let ghost before = rows@;
    let mut i: usize = 0;
    while i < changes.len()
        invariant
            i <= changes.len(),
            all == change_views(changes@),
            rows@ == rows_stars_set(before, all.take(i as int)),
        decreases changes.len() - i,
    {
        assert(all.take(i + 1).drop_last() =~= all.take(i as int));
        assert(all.take(i + 1).last() == (changes@[i as int].0@, changes@[i as int].1));
        set_row_star(rows, changes[i].0.as_str(), changes[i].1);
        i = i + 1;
    }
    assert(all.take(i as int) =~= all);
}

impl App {
    fn load_tab(&mut self, tab: Tab, reply: Reply)
        ensures
            final(self)@ == tab_loaded(old(self)@, tab, reply),
    {
        let rows: Rows = match (tab, reply) {
            (_, Reply::Failed(why)) => {
                let words: String = prefixed("error: ", why.as_str());
                self.say(words);
                return;
            },
            (Tab::Albums, Reply::Albums(albums)) => Rows::Albums {
                title: "Albums".to_owned(),
                albums,
            },
            (Tab::Artists, Reply::Artists(artists)) => Rows::Artists(artists),
            (Tab::Playlists, Reply::Playlists(playlists)) => Rows::Playlists(playlists),
            (Tab::Genres, Reply::Genres(genres)) => Rows::Genres(genres),
            (Tab::Queue, Reply::Queue(tracks)) => Rows::Queue(tracks),
            (
                Tab::Home,
                Reply::Home { favourites, recently_played, on_repeat, songs_for_you },
            ) => {
                let mut sections: Vec<HomeSection> = Vec::new();
                sections.push(make_preview(NativeKind::Favourites, favourites));
                sections.push(make_preview(NativeKind::RecentlyPlayed, recently_played));
                sections.push(make_preview(NativeKind::OnRepeat, on_repeat));
                sections.push(make_preview(NativeKind::SongsForYou, songs_for_you));
                assert(crate::screen::section_views(sections@) =~= previews(
                    item_views(favourites@),
                    item_views(recently_played@),
                    item_views(on_repeat@),
                    item_views(songs_for_you@),
                ));
                Rows::Home { sections, section: 0 }
            },
            _ => {
                return;
            },
        };
        self.stack = Vec::new();
        self.stack.push(Screen::open(rows));
        assert(screen_views(self.stack@) =~= seq![crate::screen::opened(rows@)]);
        self.hush();
    }

    fn load_list(&mut self, rows: Option<Rows>, failure: Option<String>)
        ensures
            final(self)@ == (match (rows, failure) {
                (Some(r), _) => with_pushed(hushed(old(self)@), crate::screen::opened(r@)),
                (None, Some(why)) => saying(old(self)@, error_text(why@)),
                _ => old(self)@,
            }),
    {
        match (rows, failure) {
            (Some(r), _) => {
                self.hush();
                self.push(r);
            },
            (None, Some(why)) => {
                let words: String = prefixed("error: ", why.as_str());
                self.say(words);
            },
            _ => {},
        }
    }

    fn load_songs(&mut self, title: String, playlist_id: Option<String>, reply: Reply)
        ensures
            final(self)@ == list_loaded(
                old(self)@,
                song_rows(title@, crate::json::opt_view(playlist_id), reply),
                reply,
            ),
    {
        match reply {
            Reply::Songs(songs) => {
                self.load_list(Some(Rows::Songs { title, songs, playlist_id }), None);
            },
            Reply::Failed(why) => {
                self.load_list(None, Some(why));
            },
            _ => {},
        }
    }

    fn load_albums(&mut self, title: String, reply: Reply)
        ensures
            final(self)@ == list_loaded(old(self)@, album_rows(title@, reply), reply),
    {
        match reply {
            Reply::Albums(albums) => {
                self.load_list(Some(Rows::Albums { title, albums }), None);
            },
            Reply::Failed(why) => {
                self.load_list(None, Some(why));
            },
            _ => {},
        }
    }

    fn refresh_top(&mut self, rows: Rows, follow: Option<usize>)
        requires
            old(self)@.wf(),
        ensures
            final(self)@ == with_top(
                old(self)@,
                following(refreshed(old(self)@.top(), rows@), follow),
            ),
    {
        let mut top = self.take_top();
        let ghost before = top@;
        top.rows = rows;
        assert(top@ =~= (ScreenView { rows: rows@, ..before }));
        let len: usize = top.visible_indices().len();
        top.selected = clamp(top.selected, len);
        top.marked = Vec::new();
        assert(top@ =~= refreshed(before, rows@));
        match follow {
            Some(i) => {
                let v = top.visible_indices();
                match crate::play_order::position_of(&v, i) {
                    Some(p) => {
                        top.selected = p;
                    },
                    None => {},
                }
            },
            None => {},
        }
        assert(top@ =~= following(refreshed(before, rows@), follow));
        self.put_top(top);
    }

    fn refresh_queue(&mut self, follow: Option<usize>, reply: Reply)
        requires
            old(self)@.wf(),
        ensures
            final(self)@ == queue_refreshed(old(self)@, follow, reply),
    {
        let tracks: Vec<QueueRow> = match reply {
            Reply::Queue(tracks) => {
                self.hush();
                tracks
            },
            Reply::Failed(why) => {
                let words: String = prefixed("error: ", why.as_str());
                self.say(words);
                Vec::new()
            },
            _ => Vec::new(),
        };
        let queue: bool = match &self.top().rows {
            Rows::Queue(_) => true,
            _ => false,
        };
        if queue {
            self.refresh_top(Rows::Queue(tracks), follow);
        }
    }

    fn refresh_playlist_songs(&mut self, reply: Reply)
        requires
            old(self)@.wf(),
        ensures
            final(self)@ == playlist_refreshed(old(self)@, reply),
    {
        let songs: Vec<Song> = match reply {
            Reply::Songs(songs) => {
                self.hush();
                songs
            },
            Reply::Failed(why) => {
                let words: String = prefixed("error: ", why.as_str());
                self.say(words);
                Vec::new()
            },
            _ => Vec::new(),
        };
        assert(songs@.len() == 0 ==> item_views(songs@) =~= Seq::<SongView>::empty());
        let (title, playlist_id) = match &self.top().rows {
            Rows::Songs { title, playlist_id, .. } => (title.clone(), playlist_id.clone()),
            _ => {
                return;
            },
        };
        self.refresh_top(Rows::Songs { title, songs, playlist_id }, None);
    }

    fn load_info(&mut self, title: String, body: String, failure: Option<String>)
        ensures
            final(self)@ == with_pushed(
                match failure {
                    Some(why) => saying(old(self)@, error_text(why@)),
                    None => hushed(old(self)@),
                },
                crate::screen::opened(RowsView::Info { title: title@, body: body@ }),
            ),
    {
        match failure {
            Some(why) => {
                let words: String = prefixed("error: ", why.as_str());
                self.say(words);
            },
            None => {
                self.hush();
            },
        }
        self.push(Rows::Info { title, body });
    }

    fn load_picker(&mut self, song_ids: Vec<String>, reply: Reply)
        ensures
            final(self)@ == picker_loaded(old(self)@, text_views(song_ids@), reply),
    {
        match reply {
            Reply::Playlists(playlists) => {
                if playlists.len() > 0 {
                    self.hush();
                    self.push(Rows::Picker { playlists, song_ids });
                } else {
                    self.say(
                        "no playlists yet \u{2014} press N on the Playlists tab to create one".to_owned(),
                    );
                }
            },
            Reply::Failed(_) => {
                self.say(
                    "no playlists yet \u{2014} press N on the Playlists tab to create one".to_owned(),
                );
            },
            _ => {},
        }
    }

    fn take_results(&mut self, reply: Reply)
        requires
            old(self)@.wf(),
        ensures
            final(self)@ == searched(old(self)@, reply),
    {
        match reply {
            Reply::Songs(results) => {
                self.hush();
                let query: String = match &self.top().rows {
                    Rows::Search { query, .. } => query.clone(),
                    _ => {
                        return;
                    },
                };
                let mut top = self.take_top();
                top.rows = Rows::Search { query, editing: false, results };
                top.selected = 0;
                top.marked = Vec::new();
                self.put_top(top);
                assert(self@ =~= searched(old(self)@, reply));
            },
            Reply::Failed(why) => {
                let words: String = prefixed("search error: ", why.as_str());
                self.say(words);
            },
            _ => {},
        }
    }

    fn unmark(&mut self)
        requires
            old(self)@.wf(),
        ensures
            final(self)@ == unmarked(old(self)@),
    {
        let mut top = self.take_top();
        top.marked = Vec::new();
        self.put_top(top);
        assert(self@ =~= unmarked(old(self)@));
    }

    fn close_picker(&mut self)
        requires
            old(self)@.wf(),
        ensures
            final(self)@ == picker_closed(old(self)@),
    {
        if self.stack.len() > 1 {
            self.take_top();
            self.unmark();
        }
    }

    fn take_added(&mut self, name: String, reply: Reply)
        requires
            old(self)@.wf(),
        ensures
            final(self)@ == added_to_playlist(old(self)@, name@, reply),
    {
        match reply {
            Reply::Done => {
                self.close_picker();
                self.say("added to \"".to_owned().concat(name.as_str()).concat("\""));
            },
            Reply::Failed(why) => {
                self.close_picker();
                let words: String = prefixed("could not add to playlist: ", why.as_str());
                self.say(words);
            },
            _ => {},
        }
    }

    fn take_stars(&mut self, changes: Vec<(String, bool)>)
        requires
            old(self)@.wf(),
        ensures
            final(self)@ == stars_changed(old(self)@, change_views(changes@)),
    {
        let mut top = self.take_top();
        set_row_stars(&mut top.rows, &changes);
        top.marked = Vec::new();
        self.put_top(top);
        self.hush();
        assert(self@ =~= stars_changed(old(self)@, change_views(changes@)));
    }

    fn set_update(&mut self, state: UpdateState)
        requires
            old(self)@.wf(),
        ensures
            final(self)@ == (if old(self)@.top().rows is Settings {
                hushed(with_update(old(self)@, state))
            } else {
                hushed(old(self)@)
            }),
    {
        let settings: bool = match &self.top().rows {
            Rows::Settings(_) => true,
            _ => false,
        };
        if settings {
            let mut top = self.take_top();
            top.rows = Rows::Settings(state);
            self.put_top(top);
        }
        self.hush();
    }

    fn fail(&mut self, trouble: &str, reply: Reply) -> (action: Action)
        requires
            !(reply is Done),
        ensures
            forall|done: (AppView, ActionView)| #[trigger]
                outcome(old(self)@, reply, done, trouble@) == (final(self)@, action@),
    {
        match reply {
            Reply::Failed(why) => {
                let words: String = prefixed(trouble, why.as_str());
                self.say(words);
            },
            _ => {},
        }
        Action::Idle
    }

    fn ask_queue(&mut self, follow: Option<usize>) -> (action: Action)
        ensures
            (final(self)@, action@) == queue_asked(old(self)@, follow),
    {
        self.say("Loading queue\u{2026}".to_owned());
        Action::Run(Task::RefreshQueue { follow })
    }

    fn take_expanded(&mut self, kind: NativeKind, reply: Reply)
        ensures
            final(self)@ == completed(old(self)@, TaskView::Expand(kind), reply).0,
    {
        match reply {
            Reply::Failed(why) => {
                let words: String = prefixed("error: ", why.as_str());
                self.say(words);
                let songs: Vec<Song> = Vec::new();
                assert(item_views(songs@) =~= Seq::<SongView>::empty());
                self.push(
                    Rows::Songs { title: kind.title().to_owned(), songs, playlist_id: None },
                );
            },
            reply => {
                self.load_songs(kind.title().to_owned(), None, reply);
            },
        }
    }

    fn take_artist_info(&mut self, name: String, reply: Reply)
        ensures
            final(self)@ == artist_info_loaded(old(self)@, name@, reply),
    {
        match reply {
            Reply::ArtistInfo(info) => {
                self.load_info(name, artist_body(info), None);
            },
            Reply::Failed(why) => {
                self.load_info(name, "No biography available.".to_owned(), Some(why));
            },
            _ => {},
        }
    }

    fn take_album_info(&mut self, name: String, reply: Reply)
        ensures
            final(self)@ == album_info_loaded(old(self)@, name@, reply),
    {
        match reply {
            Reply::AlbumInfo(info) => {
                self.load_info(name, album_body(info), None);
            },
            Reply::Failed(why) => {
                self.load_info(name, "No notes available.".to_owned(), Some(why));
            },
            _ => {},
        }
    }

    fn take_check(&mut self, reply: Reply)
        requires
            old(self)@.wf(),
        ensures
            final(self)@ == update_checked(old(self)@, reply),
    {
        match reply {
            Reply::Update(found) => {
                self.set_update(UpdateState::Checked(found));
            },
            Reply::Failed(why) => {
                let words: String = prefixed("error: ", why.as_str());
                self.say(words);
            },
            _ => {},
        }
    }

    fn take_install(&mut self, reply: Reply)
        requires
            old(self)@.wf(),
        ensures
            final(self)@ == update_installed(old(self)@, reply),
    {
        match reply {
            Reply::Done => {
                self.set_update(UpdateState::Installed);
            },
            Reply::Failed(why) => {
                let words: String = prefixed("update failed: ", why.as_str());
                self.say(words);
            },
            _ => {},
        }
    }

    fn tell_added(&mut self, songs: &Vec<Song>, place: &str)
        requires
            old(self)@.wf(),
        ensures
            final(self)@ == saying(unmarked(old(self)@), added_text(songs@.len(), place@)),
    {
        self.unmark();
        let count: String = text::render(songs.len() as u128);
        self.say("added ".to_owned().concat(count.as_str()).concat(" track(s) ").concat(place));
    }

    #[verifier::rlimit(30)]
    fn take_fetched(&mut self, task: Task, reply: Reply)
        requires
            old(self)@.wf(),
            ends_with_its_reply(task@),
        ensures
            final(self)@ == completed(old(self)@, task@, reply).0,
    {
        match task {
            Task::LoadTab { tab, .. } => {
                self.load_tab(tab, reply);
            },
            Task::OpenAlbum { title, .. } => {
                self.load_songs(title, None, reply);
            },
            Task::OpenPlaylist { id, title } => {
                self.load_songs(title, Some(id), reply);
            },
            Task::OpenArtist { title, .. } => {
                self.load_albums(title, reply);
            },
            Task::OpenGenre { title } => {
                self.load_albums(title, reply);
            },
            Task::Expand(kind) => {
                self.take_expanded(kind, reply);
            },
            Task::RefreshPlaylist { .. } => {
                self.refresh_playlist_songs(reply);
            },
            Task::RefreshQueue { follow } => {
                self.refresh_queue(follow, reply);
            },
            Task::ArtistInfo { name, .. } => {
                self.take_artist_info(name, reply);
            },
            Task::AlbumInfo { name, .. } => {
                self.take_album_info(name, reply);
            },
            Task::PickPlaylist { song_ids } => {
                self.load_picker(song_ids, reply);
            },
            Task::Search { .. } => {
                self.take_results(reply);
            },
            Task::AddToPlaylist { name, .. } => {
                self.take_added(name, reply);
            },
            Task::CheckUpdate => {
                self.take_check(reply);
            },
            Task::InstallUpdate => {
                self.take_install(reply);
            },
            _ => {},
        }
    }

    #[verifier::rlimit(30)]
    fn take_outcome(&mut self, task: Task, reply: Reply) -> (action: Action)
        requires
            old(self)@.wf(),
            !ends_with_its_reply(task@),
        ensures
            (final(self)@, action@) == completed(old(self)@, task@, reply),
    {
        let done: bool = match &reply {
            Reply::Done => true,
            _ => false,
        };
        match task {
            Task::NewPlaylist { .. } => if done {
                self.switch_tab(Tab::Playlists)
            } else {
                self.fail("could not create playlist: ", reply)
            },
            Task::SaveQueue { name, .. } => if done {
                self.say(
                    "saved queue as playlist \"".to_owned().concat(name.as_str()).concat("\""),
                );
                Action::Idle
            } else {
                self.fail("could not save playlist: ", reply)
            },
            Task::RenamePlaylist { .. } => if done {
                self.switch_tab(Tab::Playlists)
            } else {
                self.fail("could not rename playlist: ", reply)
            },
            Task::DeletePlaylist { .. } => if done {
                self.switch_tab(Tab::Playlists)
            } else {
                self.fail("could not delete playlist: ", reply)
            },
            Task::RemoveFromPlaylist { id, .. } => if done {
                self.say("Loading\u{2026}".to_owned());
                Action::Run(Task::RefreshPlaylist { id })
            } else {
                self.fail("could not remove from playlist: ", reply)
            },
            Task::SetStarred { changes } => if done {
                self.take_stars(changes);
                Action::Idle
            } else {
                self.fail("could not update favorite: ", reply)
            },
            Task::PlayQueue { .. } => if done {
                self.hush();
                Action::Idle
            } else {
                self.fail("could not play: ", reply)
            },
            Task::Append { songs } => if done {
                self.tell_added(&songs, "to the queue");
                Action::Idle
            } else {
                self.fail("could not add to queue: ", reply)
            },
            Task::PlayNext { songs } => if done {
                self.tell_added(&songs, "to play next");
                Action::Idle
            } else {
                self.fail("could not add to queue: ", reply)
            },
            Task::PlayAt { .. } => if done {
                self.hush();
                Action::Idle
            } else {
                self.fail("could not jump to track: ", reply)
            },
            Task::RemoveFromQueue { .. } => if done {
                self.ask_queue(None)
            } else {
                self.fail("could not remove from queue: ", reply)
            },
            Task::ClearQueue => if done {
                self.ask_queue(None)
            } else {
                self.fail("could not clear queue: ", reply)
            },
            Task::MoveInQueue { to, .. } => if done {
                self.ask_queue(Some(to))
            } else {
                self.fail("could not reorder queue: ", reply)
            },
            _ => Action::Idle,
        }
    }

    /// Takes what came of a task, and leads on from there.
    pub fn complete(&mut self, task: Task, reply: Reply) -> (action: Action)
        requires
            old(self)@.wf(),
        ensures
            (final(self)@, action@) == completed(old(self)@, task@, reply),
            final(self)@.wf(),
    {
        proof {
            reply_keeps_a_screen(self@, task@, reply);
        }
        if only_shown(&task) {
            self.take_fetched(task, reply);
            Action::Idle
        } else {
            self.take_outcome(task, reply)
        }
    }
}

/// Whatever comes of a task, there is a screen to show.
pub proof fn reply_keeps_a_screen(s: AppView, task: TaskView, reply: Reply)
    requires
        s.wf(),
    ensures
        completed(s, task, reply).0.wf(),
{
}

/// Nothing for an empty text, else the text.
pub open spec fn unless_empty(words: String) -> Option<Seq<char>> {
    if words@.len() == 0 {
        None
    } else {
        Some(words@)
    }
}

fn same_text(a: &Option<String>, b: &str) -> (r: bool)
    ensures
        r == (crate::json::opt_view(*a) == (if b@.len() == 0 {
            None::<Seq<char>>
        } else {
            Some(b@)
        })),
{
    match a {
        Some(t) => !b.is_empty() && text::same(t.as_str(), b),
        None => b.is_empty(),
    }
}

fn some_unless_empty(words: &String) -> (r: Option<String>)
    ensures
        r == (if words@.len() == 0 {
            None::<String>
        } else {
            Some(*words)
        }),
{
    if words.as_str().is_empty() {
        None
    } else {
        Some(words.clone())
    }
}

/// What has to be done about the cover art.
#[derive(Debug, PartialEq, Eq)]
pub enum ArtStep {
    /// It is still the right one.
    Keep,
    /// There is none any more.
    Clear,
    /// It is another: fetch it from here.
    Fetch(String),
}

/// What has to be done about the lyrics.
#[derive(Debug, PartialEq, Eq)]
pub enum LyricsFetch {
    /// They are still the right ones.
    Keep,
    /// There are none any more.
    Clear,
    /// They are others: fetch those of this song.
    Fetch { song_id: String, artist: String, title: String },
}

impl App {
    /// Takes note of the current track's cover art. Only another one than before is
    /// fetched.
    pub fn update_art(&mut self, now: &NowPlaying) -> (step: ArtStep)
        ensures
            crate::json::opt_view(old(self)@.current_art_url) == unless_empty(now.art_url)
                ==> step == ArtStep::Keep && final(self)@ == old(self)@,
            crate::json::opt_view(old(self)@.current_art_url) != unless_empty(now.art_url) ==> {
                &&& step == (if now.art_url@.len() == 0 {
                    ArtStep::Clear
                } else {
                    ArtStep::Fetch(now.art_url)
                })
                &&& final(self)@ == (AppView {
                    current_art_url: if now.art_url@.len() == 0 {
                        None
                    } else {
                        Some(now.art_url)
                    },
                    ..old(self)@
                })
            },
    {
        if same_text(&self.current_art_url, now.art_url.as_str()) {
            return ArtStep::Keep;
        }
        self.current_art_url = some_unless_empty(&now.art_url);
        if now.art_url.as_str().is_empty() {
            ArtStep::Clear
        } else {
            ArtStep::Fetch(now.art_url.clone())
        }
    }

    /// Whether cover art that was fetched from `url` is still the current track's.
    pub fn wants_art(&self, url: &str) -> (r: bool)
        ensures
            r == (crate::json::opt_view(self@.current_art_url) == Some(url@)),
    {
        match &self.current_art_url {
            Some(current) => text::same(current.as_str(), url),
            None => false,
        }
    }

    /// Takes note of the current track's lyrics. Only those of another song than
    /// before are fetched; until they come there are none.
    pub fn update_lyrics(&mut self, now: &NowPlaying) -> (step: LyricsFetch)
        ensures
            crate::json::opt_view(old(self)@.current_lyrics_song_id) == unless_empty(now.song_id)
                ==> step == LyricsFetch::Keep && final(self)@ == old(self)@,
            crate::json::opt_view(old(self)@.current_lyrics_song_id) != unless_empty(now.song_id)
                ==> {
                &&& step == (if now.song_id@.len() == 0 {
                    LyricsFetch::Clear
                } else {
                    LyricsFetch::Fetch {
                        song_id: now.song_id,
                        artist: now.artist,
                        title: now.title,
                    }
                })
                &&& final(self)@ == (AppView {
                    current_lyrics_song_id: if now.song_id@.len() == 0 {
                        None
                    } else {
                        Some(now.song_id)
                    },
                    lyrics: None,
                    ..old(self)@
                })
            },
    {
        if same_text(&self.current_lyrics_song_id, now.song_id.as_str()) {
            return LyricsFetch::Keep;
        }
        self.current_lyrics_song_id = some_unless_empty(&now.song_id);
        self.lyrics = None;
        if now.song_id.as_str().is_empty() {
            LyricsFetch::Clear
        } else {
            LyricsFetch::Fetch {
                song_id: now.song_id.clone(),
                artist: now.artist.clone(),
                title: now.title.clone(),
            }
        }
    }

    /// Takes lyrics that were fetched for a song. They are dropped where another
    /// song has become current since.
    pub fn take_lyrics(&mut self, song_id: &str, lines: Vec<LyricLine>)
        ensures
            final(self)@ == (if crate::json::opt_view(old(self)@.current_lyrics_song_id) == Some(
                song_id@,
            ) {
                AppView { lyrics: Some(lines@), ..old(self)@ }
            } else {
                old(self)@
            }),
    {
        let wanted: bool = match &self.current_lyrics_song_id {
            Some(current) => text::same(current.as_str(), song_id),
            None => false,
        };
        if wanted {
            self.lyrics = Some(lines);
        }
    }
}

/// The help goes away with whatever key, and the key does nothing else.
pub proof fn help_takes_any_key(s: AppView, code: KeyCode, now: NowPlaying)
    requires
        s.show_help,
    ensures
        key_pressed(s, code, now) == (AppView { show_help: false, ..s }, ActionView::Idle),
{
}

/// While the user types a line in, no key leaves the program, reaches the daemon's
/// playback, or changes what is on screen, but for the one that submits it.
pub proof fn prompt_takes_every_key(s: AppView, code: KeyCode, now: NowPlaying)
    requires
        s.wf(),
        !s.show_help,
        s.prompt is Some,
        code != KeyCode::Enter,
    ensures
        key_pressed(s, code, now).1 == ActionView::Idle,
        key_pressed(s, code, now).0 == (AppView {
            prompt: key_pressed(s, code, now).0.prompt,
            ..s
        }),
{
    let p = s.prompt->0;
    let t = key_pressed(s, code, now).0;
    assert(t =~= AppView { prompt: t.prompt, ..s });
}

/// A slash while a filter is edited changes nothing: it is never typed.
pub proof fn slash_is_not_typed(s: AppView, now: NowPlaying)
    requires
        s.wf(),
        !s.show_help,
        s.prompt is None,
        s.filter_editing,
        crate::screen::filterable(s.top().rows),
    ensures
        key_pressed(s, KeyCode::Char('/'), now) == (s, ActionView::Idle),
{
    assert(s.stack.drop_last().push(s.top()) =~= s.stack);
    assert(filter_edited(s, KeyCode::Char('/')).0 =~= s);
}

/// One `Enter` both ends the editing of a filter and opens what the cursor is on.
pub proof fn enter_applies_filter_and_opens(s: AppView, now: NowPlaying)
    requires
        s.wf(),
        !s.show_help,
        s.prompt is None,
        s.filter_editing,
        crate::screen::filterable(s.top().rows),
    ensures
        key_pressed(s, KeyCode::Enter, now) == activated(AppView { filter_editing: false, ..s }),
{
    assert(s.stack.drop_last().push(s.top()) =~= s.stack);
    assert(filter_edited(s, KeyCode::Enter).0 =~= AppView { filter_editing: false, ..s });
}

/// `Esc` on a filtered list shows the whole list again and stays there; only then
/// does it go back.
pub proof fn escape_clears_filter_first(s: AppView, now: NowPlaying)
    requires
        s.wf(),
        !s.show_help,
        s.prompt is None,
        !s.filter_editing,
        crate::screen::filterable(s.top().rows),
        s.top().filter.len() > 0,
    ensures
        ({
            let (t, action) = key_pressed(s, KeyCode::Esc, now);
            let u = key_pressed(t, KeyCode::Esc, now).0;
            &&& action == ActionView::Idle
            &&& t.stack.len() == s.stack.len()
            &&& t.top().rows == s.top().rows
            &&& t.top().filter.len() == 0
            &&& s.stack.len() > 1 ==> u.stack == s.stack.drop_last()
        }),
{
    let t = key_pressed(s, KeyCode::Esc, now).0;
    assert(t.stack.drop_last() =~= s.stack.drop_last());
}

/// Switching to a tab always leads to that tab's first screen alone.
pub proof fn switching_starts_over(s: AppView, tab: Tab)
    ensures
        switched(s, tab).0.active_tab == tab,
        switched(s, tab).0.stack == seq![crate::screen::opened(blank(tab))],
        !switched(s, tab).0.filter_editing,
{
}

/// A tab that could not be fetched still has its screen, empty, and the user is
/// told why.
pub proof fn failed_tab_shows_why(s: AppView, tab: Tab, why: String)
    requires
        loading_text(tab) is Some,
    ensures
        ({
            let t = switched(s, tab).0;
            let u = completed(
                t,
                TaskView::LoadTab { tab, newest: s.albums_newest },
                Reply::Failed(why),
            ).0;
            &&& u.stack == seq![crate::screen::opened(blank(tab))]
            &&& u.message == "error: "@ + why@
        }),
{
}

/// A track that was moved in the queue keeps the cursor on it, as far as the filter
/// leaves it visible.
pub proof fn cursor_follows_moved_track(s: AppView, to: usize, tracks: Vec<QueueRow>)
    requires
        s.wf(),
        s.top().rows is Queue,
        tracks@.len() <= usize::MAX,
    ensures
        ({
            let t = completed(
                s,
                TaskView::RefreshQueue { follow: Some(to) },
                Reply::Queue(tracks),
            ).0;
            crate::screen::visible(t.top()).contains(to) ==> crate::screen::row_at_cursor(t.top())
                == Some(to)
        }),
{
    let base = refreshed(s.top(), RowsView::Queue(tracks@));
    let t = following(base, Some(to));
    let v = crate::screen::visible(base);
    crate::screen::visible_rows_match(base);
    crate::play_order::place_in_is_first(v, to);
    assert(t.rows == base.rows && t.filter == base.filter);
    assert(crate::screen::visible(t) == v);
    let done = completed(
        s,
        TaskView::RefreshQueue { follow: Some(to) },
        Reply::Queue(tracks),
    ).0;
    assert(done.top() == t);
}

/// The song under the cursor.
pub open spec fn song_at_cursor(s: ScreenView) -> Option<SongView> {
    match s.rows {
        RowsView::Home { sections, .. } => match home_song(s) {
            Some((section, row)) => Some(sections[section].songs[row]),
            None => None,
        },
        _ => match (songs_of(s.rows), crate::screen::row_at_cursor(s)) {
            (Some(songs), Some(row)) => Some(songs[row as int]),
            _ => None,
        },
    }
}

/// Stars have no say in which rows are visible.
proof fn stars_hide_no_row(s: ScreenView, changes: Seq<(Seq<char>, bool)>)
    requires
        crate::screen::row_count(s.rows) <= usize::MAX,
    ensures
        ({
            let t = ScreenView { rows: rows_stars_set(s.rows, changes), ..s };
            &&& crate::screen::row_count(t.rows) == crate::screen::row_count(s.rows)
            &&& crate::screen::visible(t) == crate::screen::visible(s)
        }),
    decreases changes.len(),
{
    if changes.len() > 0 {
        let rows = rows_stars_set(s.rows, changes.drop_last());
        let last = changes.last();
        let after = rows_star_set(rows, last.0, last.1);
        stars_hide_no_row(s, changes.drop_last());
        let n = crate::screen::row_count(rows);
        let f = crate::screen::row_visible(rows, s.filter);
        let g = crate::screen::row_visible(after, s.filter);
        assert forall|i: usize| i < n implies #[trigger] f(i) == g(i) by {
            assert(crate::screen::row_text(rows, i as int) == crate::screen::row_text(
                after,
                i as int,
            ));
        }
        crate::screen::filters_agree(n, f, g);
    }
}

/// A song whose star was toggled shows it at once: the row under the cursor is the
/// same song with its star set, or gone, wherever else that song is listed. Where
/// the server refused, nothing that is listed changes.
pub proof fn star_shows_at_once(s: AppView, why: String)
    requires
        s.wf(),
        crate::screen::row_count(s.top().rows) <= usize::MAX,
        crate::screen::marked_rows(s.top()).len() == 0,
        song_at_cursor(s.top()) is Some,
    ensures
        ({
            let song = song_at_cursor(s.top())->0;
            let changes = star_changes(s.top());
            let task = TaskView::SetStarred { changes };
            let t = completed(s, task, Reply::Done).0;
            &&& changes == seq![(song.id, song.starred is None)]
            &&& song_at_cursor(t.top()) == Some(starred(song, song.starred is None))
            &&& t.message.len() == 0
            &&& completed(s, task, Reply::Failed(why)).0.stack == s.stack
        }),
{
    let top = s.top();
    let song = song_at_cursor(top)->0;
    let changes = star_changes(top);
    let t = completed(s, TaskView::SetStarred { changes }, Reply::Done).0;
    assert(changes =~= seq![(song.id, song.starred is None)]);
    assert(changes.drop_last() =~= Seq::empty());
    assert(rows_stars_set(top.rows, changes.drop_last()) == top.rows);
    let after = rows_star_set(top.rows, song.id, song.starred is None);
    assert(rows_stars_set(top.rows, changes) == after);
    assert(t.top() == (ScreenView { rows: after, marked: Seq::empty(), ..top }));
    stars_hide_no_row(top, changes);
    crate::screen::visible_rows_match(top);
    assert(crate::screen::visible(t.top()) == crate::screen::visible(
        ScreenView { rows: after, ..top },
    ));
}

/// Every copy of a song shows its star alike once it was changed, and no other song
/// changes.
pub proof fn star_shows_on_every_copy(
    sections: Seq<SectionView>,
    id: Seq<char>,
    on: bool,
    section: int,
    row: int,
)
    requires
        0 <= section < sections.len(),
        0 <= row < sections[section].songs.len(),
    ensures
        ({
            let song = sections[section].songs[row];
            section_star_set(sections, id, on)[section].songs[row] == (if song.id == id {
                starred(song, on)
            } else {
                song
            })
        }),
{
}

/// Whether the cursor of every screen is in its list.
pub open spec fn cursors_in_lists(s: AppView) -> bool {
    forall|i: int|
        0 <= i < s.stack.len() ==> crate::screen::cursor_in_list(#[trigger] s.stack[i])
}

proof fn top_keeps_cursors(s: AppView, top: ScreenView)
    requires
        s.wf(),
        cursors_in_lists(s),
        crate::screen::cursor_in_list(top),
    ensures
        cursors_in_lists(with_top(s, top)),
        cursors_in_lists(with_pushed(s, top)),
        cursors_in_lists(with_popped(s)),
{
    let t = with_top(s, top);
    assert forall|i: int| 0 <= i < t.stack.len() implies crate::screen::cursor_in_list(
        #[trigger] t.stack[i],
    ) by {
        if i < s.stack.len() - 1 {
            assert(t.stack[i] == s.stack[i]);
        }
    }
    let u = with_pushed(s, top);
    assert forall|i: int| 0 <= i < u.stack.len() implies crate::screen::cursor_in_list(
        #[trigger] u.stack[i],
    ) by {
        if i < s.stack.len() {
            assert(u.stack[i] == s.stack[i]);
        }
    }
    let v = with_popped(s);
    assert forall|i: int| 0 <= i < v.stack.len() implies crate::screen::cursor_in_list(
        #[trigger] v.stack[i],
    ) by {
        assert(v.stack[i] == s.stack[i]);
    }
}

proof fn bound_key_keeps_cursors(s: AppView, code: KeyCode, now: NowPlaying)
    requires
        s.wf(),
        cursors_in_lists(s),
        crate::screen::row_count(s.top().rows) <= usize::MAX,
    ensures
        cursors_in_lists(bound_key(s, code, now).0),
{
    let top = s.top();
    assert(crate::screen::cursor_in_list(top));
    let marked = crate::screen::mark_toggled(top);
    assert(crate::screen::visible(marked) == crate::screen::visible(top));
    assert(crate::screen::cursor_in_list(marked));
    top_keeps_cursors(s, marked);
    crate::screen::moving_keeps_cursor_in_list(top, 1);
    crate::screen::moving_keeps_cursor_in_list(top, -1);
    top_keeps_cursors(s, crate::screen::cursor_moved(top, 1));
    top_keeps_cursors(s, crate::screen::cursor_moved(top, -1));
    let cleared = ScreenView { filter: Seq::empty(), selected: 0, ..top };
    top_keeps_cursors(s, cleared);
    assert(cursors_in_lists(gone_back(s)));
    let t = update_asked(s).0;
    if top.rows is Settings {
        assert(t.stack == s.stack || t.stack == with_top(s, t.top()).stack);
        assert(t.top().rows is Settings);
        top_keeps_cursors(s, t.top());
    }
    assert(cursors_in_lists(t));
    assert(cursors_in_lists(slash_pressed(s).0));
    assert(cursors_in_lists(sort_toggled(s).0));
    assert(activated(s).0.stack == s.stack);
    assert(expanded(s).0.stack == s.stack);
    assert(picker_asked(s).0.stack == s.stack);
    assert(info_asked(s).0.stack == s.stack);
    assert(asked_for_name(s, code).stack == s.stack);
}

/// Whatever key is pressed, the cursor of every list stays in it.
pub proof fn key_keeps_cursors_in_lists(s: AppView, code: KeyCode, now: NowPlaying)
    requires
        s.wf(),
        cursors_in_lists(s),
        crate::screen::row_count(s.top().rows) <= usize::MAX,
    ensures
        cursors_in_lists(key_pressed(s, code, now).0),
{
    let top = s.top();
    assert(crate::screen::cursor_in_list(top));
    if s.show_help {
    } else if s.prompt is Some {
        assert(prompt_key(s, s.prompt->0, code).0.stack == s.stack);
    } else if let Some(r) = search_key(s, code) {
        if let RowsView::Search { query, results, .. } = top.rows {
            let typed = ScreenView { rows: r.0.top().rows, ..top };
            assert(r.0.stack == with_top(s, typed).stack);
            top_keeps_cursors(s, typed);
        }
    } else {
        let t = filter_edited(s, code).0;
        if s.filter_editing && crate::screen::filterable(top.rows) {
            if let Some((filter, selected, _, _)) = crate::screen::filter_key(
                top.filter,
                top.selected,
                code,
            ) {
                let edited = ScreenView { filter, selected, ..top };
                assert(edited.selected == 0 || edited == top);
                assert(crate::screen::cursor_in_list(edited));
                top_keeps_cursors(s, edited);
                assert(t.stack == with_top(s, edited).stack);
            }
        }
        assert(cursors_in_lists(t));
        bound_key_keeps_cursors(t, code, now);
    }
}

/// Whatever comes of a task, the cursor of every list stays in it.
pub proof fn reply_keeps_cursors_in_lists(s: AppView, task: TaskView, reply: Reply)
    requires
        s.wf(),
        cursors_in_lists(s),
        crate::screen::row_count(s.top().rows) <= usize::MAX,
        reply matches Reply::Queue(tracks) ==> tracks@.len() <= usize::MAX,
    ensures
        cursors_in_lists(completed(s, task, reply).0),
{
    let top = s.top();
    let t = completed(s, task, reply).0;
    assert(crate::screen::cursor_in_list(top));
    match task {
        TaskView::RefreshPlaylist { .. } => {
            if top.rows is Songs {
                let rows = t.top().rows;
                assert(crate::screen::visible(refreshed(top, rows)) == crate::screen::visible(
                    ScreenView { rows, ..top },
                ));
                top_keeps_cursors(s, refreshed(top, rows));
                assert(t.stack == with_top(s, refreshed(top, rows)).stack);
            }
        },
        TaskView::RefreshQueue { follow } => {
            if top.rows is Queue {
                let rows = t.top().rows;
                let base = refreshed(top, rows);
                let shown = following(base, follow);
                assert(crate::screen::visible(base) == crate::screen::visible(
                    ScreenView { rows, ..top },
                ));
                assert(crate::screen::visible(shown) == crate::screen::visible(base));
                crate::screen::visible_rows_match(base);
                if let Some(i) = follow {
                    crate::play_order::place_in_is_first(crate::screen::visible(base), i);
                }
                assert(crate::screen::cursor_in_list(shown));
                top_keeps_cursors(s, shown);
                assert(t.stack == with_top(s, shown).stack);
            }
        },
        TaskView::AddToPlaylist { .. } => {
            top_keeps_cursors(s, top);
            if s.stack.len() > 1 {
                let back = with_popped(s);
                let unmarked = ScreenView { marked: Seq::empty(), ..back.top() };
                assert(crate::screen::cursor_in_list(back.top()));
                assert(crate::screen::visible(unmarked) == crate::screen::visible(back.top()));
                top_keeps_cursors(back, unmarked);
            }
        },
        TaskView::SetStarred { changes } => {
            let rows = rows_stars_set(top.rows, changes);
            let shown = ScreenView { rows, marked: Seq::empty(), ..top };
            stars_hide_no_row(top, changes);
            stars_keep_the_kind(top.rows, changes);
            assert(crate::screen::visible(shown) == crate::screen::visible(
                ScreenView { rows, ..top },
            ));
            assert(crate::screen::cursor_in_list(shown));
            top_keeps_cursors(s, shown);
        },
        TaskView::Append { .. } | TaskView::PlayNext { .. } => {
            let shown = ScreenView { marked: Seq::empty(), ..top };
            assert(crate::screen::visible(shown) == crate::screen::visible(top));
            top_keeps_cursors(s, shown);
        },
        TaskView::CheckUpdate | TaskView::InstallUpdate => {
            if top.rows is Settings {
                top_keeps_cursors(s, ScreenView { rows: t.top().rows, ..top });
            }
        },
        TaskView::Search { .. } => {
            top_keeps_cursors(
                s,
                ScreenView { rows: t.top().rows, selected: 0, marked: Seq::empty(), ..top },
            );
        },
        TaskView::LoadTab { .. } => {},
        _ => {
            if t.stack.len() > s.stack.len() {
                top_keeps_cursors(s, t.top());
                assert(t.stack =~= s.stack.push(t.top()));
            }
        },
    }
}

/// Changing stars keeps what kind of list it is.
proof fn stars_keep_the_kind(rows: RowsView, changes: Seq<(Seq<char>, bool)>)
    ensures
        crate::screen::filterable(rows_stars_set(rows, changes)) == crate::screen::filterable(rows),
        rows_stars_set(rows, changes) is Search == rows is Search,
    decreases changes.len(),
{
    if changes.len() > 0 {
        stars_keep_the_kind(rows, changes.drop_last());
    }
}

/// The cursor of a list that was fetched anew is on a row that the filter leaves
/// visible, if there is one.
pub proof fn refreshed_cursor_is_on_a_row(top: ScreenView, rows: RowsView)
    ensures
        ({
            let t = refreshed(top, rows);
            crate::screen::visible(t).len() > 0 ==> crate::screen::row_at_cursor(t) is Some
        }),
{
    let t = refreshed(top, rows);
    assert(crate::screen::visible(t) == crate::screen::visible(ScreenView { rows, ..top }));
}

/// What plays from a list starts with the song under the cursor.
pub proof fn playing_starts_at_the_cursor(s: ScreenView, songs: Seq<SongView>)
    requires
        songs_of(s.rows) == Some(songs),
        songs.len() <= usize::MAX,
        crate::screen::row_at_cursor(s) is Some,
    ensures
        songs_to_play(s).len() > 0,
        songs_to_play(s)[0] == songs[crate::screen::row_at_cursor(s)->0 as int],
{
    crate::screen::visible_rows_match(s);
}

/// An update is installed only once it was found and asked for twice.
pub proof fn update_needs_two_presses(s: AppView, now: NowPlaying)
    requires
        s.wf(),
        !s.show_help,
        s.prompt is None,
        !s.filter_editing,
        s.top().rows is Settings,
        !(s.top().rows matches RowsView::Settings(UpdateState::Confirming(_))),
    ensures
        key_pressed(s, KeyCode::Char('u'), now).1 == ActionView::Idle,
{
}

} // verus!
