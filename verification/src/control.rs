//! The control channel: what each request makes the daemon do and answer, how
//! the daemon decides that nobody needs it any more, and the names it goes by.
use crate::engine::Command;
use crate::playback::{
    all_lengths_fit, queue_rows, status_tuple_from_snapshot, tracks_from_entries, Snapshot,
    TrackMeta,
};
use crate::protocol::{QueueEntry, Request, Response};
use crate::time::Duration;
use vstd::prelude::*;

verus! {

/// The daemon's name on the session bus.
pub const CONTROL_BUS_NAME: &'static str = "com.maraetai.Daemon";

/// Where its control interface stands.
pub const CONTROL_OBJECT_PATH: &'static str = "/com/maraetai/Daemon";

/// The control interface's name.
pub const CONTROL_INTERFACE: &'static str = "com.maraetai.Daemon1";

/// What one request comes to.
#[derive(Debug, PartialEq, Eq)]
pub struct Dispatched {
    /// What the playback engine is told.
    pub command: Option<Command>,
    /// Whether the request shows that someone uses the daemon.
    pub activity: bool,
    /// Whether the daemon is to shut down.
    pub quit: bool,
    /// What the client is told.
    pub response: Response,
}

/// Whether the tracks are those that the entries describe, one for one.
pub open spec fn all_described(entries: Seq<QueueEntry>, tracks: Seq<TrackMeta>) -> bool {
    &&& tracks.len() == entries.len()
    &&& forall|i: int|
        0 <= i < entries.len() ==> crate::playback::entry_describes(
            entries[i],
            #[trigger] tracks[i],
        )
}

/// Whether the length of every track that a request holds is a length of time.
pub open spec fn fits(request: Request) -> bool {
    match request {
        Request::PlayQueue { tracks, .. } => crate::playback::lengths_fit(tracks@),
        Request::AppendQueue { tracks } => crate::playback::lengths_fit(tracks@),
        Request::PlayNext { tracks } => crate::playback::lengths_fit(tracks@),
        _ => true,
    }
}

/// Whether the length of every track that a request holds is a length of time.
pub fn request_fits(request: &Request) -> (r: bool)
    ensures
        r == fits(*request),
{
    match request {
        Request::PlayQueue { tracks, .. } => all_lengths_fit(tracks),
        Request::AppendQueue { tracks } => all_lengths_fit(tracks),
        Request::PlayNext { tracks } => all_lengths_fit(tracks),
        _ => true,
    }
}

/// What a request tells the playback engine.
pub open spec fn commanded(request: Request, command: Option<Command>) -> bool {
    match request {
        Request::PlayQueue { tracks, start_index } => {
            &&& command matches Some(Command::PlayQueue { tracks: queue, start_index: start })
            &&& all_described(tracks@, queue@)
            &&& start == start_index
        },
        Request::AppendQueue { tracks } => {
            &&& command matches Some(Command::AppendQueue(queue))
            &&& all_described(tracks@, queue@)
        },
        Request::PlayNext { tracks } => {
            &&& command matches Some(Command::PlayNext(queue))
            &&& all_described(tracks@, queue@)
        },
        Request::PlayAt { index } => command == Some(Command::PlayAt(index as usize)),
        Request::RemoveFromQueue { index } => command == Some(
            Command::RemoveFromQueue(index as usize),
        ),
        Request::MoveInQueue { from, to } => command == Some(
            Command::MoveInQueue { from: from as usize, to: to as usize },
        ),
        Request::ClearQueue => command == Some(Command::ClearQueue),
        Request::Next => command == Some(Command::Next),
        Request::Previous => command == Some(Command::Previous),
        Request::Pause => command == Some(Command::Pause),
        Request::Resume => command == Some(Command::Resume),
        Request::Stop => command == Some(Command::Stop),
        Request::SeekTo { position } => command == Some(Command::Seek(position)),
        Request::SetVolume { volume } => command == Some(Command::SetVolume(volume)),
        Request::CycleRepeat => command == Some(Command::CycleRepeat),
        Request::ToggleShuffle => command == Some(Command::ToggleShuffle),
        Request::Queue | Request::Spectrum | Request::Status | Request::Quit => command is None,
    }
}

/// What a request is answered.
pub open spec fn answered(request: Request, snapshot: Snapshot, response: Response) -> bool {
    match request {
        Request::Queue => {
            &&& response matches Response::Queue(rows)
            &&& rows@ == snapshot.queue@.map_values(|t: TrackMeta| crate::playback::row_of(t))
        },
        Request::Spectrum => {
            &&& response matches Response::Spectrum(levels)
            &&& levels@ == snapshot.spectrum@
        },
        Request::Status => {
            &&& response matches Response::Status(t)
            &&& crate::playback::reports(t, snapshot)
        },
        _ => response == Response::Unit,
    }
}

/// One request in, one answer out. `snapshot` is what the playback engine last
/// published. A client that looks at the status counts as activity, like every
/// command; looking at the queue or the spectrum does not.
pub fn dispatch(request: Request, snapshot: &Snapshot) -> (d: Dispatched)
    requires
        fits(request),
    ensures
        commanded(request, d.command),
        answered(request, *snapshot, d.response),
        d.activity == (d.command is Some || request is Status),
        d.quit == (request is Quit),
{
    match request {
        Request::PlayQueue { tracks, start_index } => told(
            Command::PlayQueue {
                tracks: tracks_from_entries(tracks),
                start_index: start_index as usize,
            },
        ),
        Request::PlayAt { index } => told(Command::PlayAt(index as usize)),
        Request::AppendQueue { tracks } => told(
            Command::AppendQueue(tracks_from_entries(tracks)),
        ),
        Request::PlayNext { tracks } => told(Command::PlayNext(tracks_from_entries(tracks))),
        Request::Queue => looked_up(Response::Queue(queue_rows(&snapshot.queue))),
        Request::RemoveFromQueue { index } => told(Command::RemoveFromQueue(index as usize)),
        Request::MoveInQueue { from, to } => told(
            Command::MoveInQueue { from: from as usize, to: to as usize },
        ),
        Request::ClearQueue => told(Command::ClearQueue),
        Request::Spectrum => looked_up(Response::Spectrum(copied_levels(&snapshot.spectrum))),
        Request::Next => told(Command::Next),
        Request::Previous => told(Command::Previous),
        Request::Pause => told(Command::Pause),
        Request::Resume => told(Command::Resume),
        Request::Stop => told(Command::Stop),
        Request::SeekTo { position } => told(Command::Seek(position)),
        Request::SetVolume { volume } => told(Command::SetVolume(volume)),
        Request::CycleRepeat => told(Command::CycleRepeat),
        Request::ToggleShuffle => told(Command::ToggleShuffle),
        Request::Status => Dispatched {
            command: None,
            activity: true,
            quit: false,
            response: Response::Status(status_tuple_from_snapshot(snapshot)),
        },
        Request::Quit => Dispatched {
            command: None,
            activity: false,
            quit: true,
            response: Response::Unit,
        },
    }
}

fn told(command: Command) -> (d: Dispatched)
    ensures
        d == (Dispatched {
            command: Some(command),
            activity: true,
            quit: false,
            response: Response::Unit,
        }),
{
    Dispatched { command: Some(command), activity: true, quit: false, response: Response::Unit }
}

fn looked_up(response: Response) -> (d: Dispatched)
    ensures
        d == (Dispatched { command: None, activity: false, quit: false, response }),
{
    Dispatched { command: None, activity: false, quit: false, response }
}

fn copied_levels(levels: &Vec<u8>) -> (out: Vec<u8>)
    ensures
        out@ == levels@,
{
    let mut out: Vec<u8> = Vec::new();
    let mut i: usize = 0;
    while i < levels.len()
        invariant
            i <= levels.len(),
            out@ == levels@.take(i as int),
        decreases levels.len() - i,
    {
        out.push(levels[i]);
        i = i + 1;
        assert(out@ =~= levels@.take(i as int));
    }
    assert(levels@.take(i as int) == levels@);
    out
}

/// The answer to a line that is no request.
pub fn bad_request(reason: &str) -> (r: Response)
    ensures
        r matches Response::Error(m) && m@ == "bad request: "@ + reason@,
{
    Response::Error("bad request: ".to_owned().concat(reason))
}

/// One message on the socket: its text and the newline that ends it.
pub fn framed(message: String) -> (line: String)
    ensures
        line@ == message@.push('\n'),
{
    let mut line = message;
    line.push('\n');
    line
}

/// How often the idle timer looks, at most.
pub const IDLE_CHECK_SECS: u64 = 30;

/// The idle timer: how long the daemon has been idle, and how long it may be.
#[derive(Debug, Clone, Copy, PartialEq, Eq, Structural)]
pub struct IdleTimer {
    pub timeout: Duration,
    pub idle_for: Duration,
}

/// The time between two looks of the idle timer: half a minute, or the timeout
/// where that is shorter.
pub open spec fn check_nanos(timeout: Duration) -> int {
    if timeout.nanos < IDLE_CHECK_SECS * crate::time::NANOS_PER_SEC {
        timeout.nanos as int
    } else {
        IDLE_CHECK_SECS * crate::time::NANOS_PER_SEC
    }
}

impl IdleTimer {
    /// Whether the daemon has been idle for as long as it may.
    pub open spec fn expired(self) -> bool {
        self.idle_for.nanos >= self.timeout.nanos
    }

    /// The timer one look later. A daemon that plays, or that someone uses, is
    /// not idle, and starts counting anew.
    pub open spec fn ticked(self, active: bool) -> IdleTimer {
        IdleTimer {
            idle_for: if active {
                Duration { nanos: 0 }
            } else {
                Duration { nanos: (self.idle_for.nanos + check_nanos(self.timeout)) as u128 }
            },
            ..self
        }
    }

    /// A timer that has not been idle yet.
    pub fn new(timeout: Duration) -> (t: IdleTimer)
        ensures
            t == (IdleTimer { timeout, idle_for: Duration { nanos: 0 } }),
    {
        IdleTimer { timeout, idle_for: Duration::zero() }
    }

    /// How long to wait before the next look.
    pub fn check_interval(&self) -> (d: Duration)
        ensures
            d.nanos == check_nanos(self.timeout),
    {
        Duration::from_secs(IDLE_CHECK_SECS).min(self.timeout)
    }

    /// Takes note of one look, a check interval after the last: whether there was
    /// activity since, and whether a track plays. Returns whether the daemon is
    /// to shut down, having been idle for as long as it may.
    pub fn tick(&mut self, activity: bool, playing: bool) -> (fired: bool)
        requires
            old(self).idle_for.nanos + check_nanos(old(self).timeout) <= u128::MAX,
        ensures
            *final(self) == old(self).ticked(activity || playing),
            fired == (!(activity || playing) && final(self).expired()),
    {
        if activity || playing {
            self.idle_for = Duration::zero();
            return false;
        }
        let step: Duration = self.check_interval();
        self.idle_for = Duration { nanos: self.idle_for.nanos + step.nanos };
        self.idle_for.nanos >= self.timeout.nanos
    }
}

/// The timer after a run of looks, each active or not.
pub open spec fn after_looks(t: IdleTimer, looks: Seq<bool>) -> IdleTimer
    decreases looks.len(),
{
    if looks.len() == 0 {
        t
    } else {
        after_looks(t, looks.drop_last()).ticked(looks.last())
    }
}

/// How many of the looks, up to the last, came after the last active one.
pub open spec fn idle_looks(looks: Seq<bool>) -> nat
    decreases looks.len(),
{
    if looks.len() == 0 || looks.last() {
        0
    } else {
        1 + idle_looks(looks.drop_last())
    }
}

/// The daemon shuts down at a look only where the looks since the last activity
/// span the timeout, and then it does.
pub proof fn idle_time_is_time_since_activity(timeout: Duration, looks: Seq<bool>)
    requires
        looks.len() * check_nanos(timeout) <= u128::MAX,
    ensures
        ({
            let t = after_looks(IdleTimer { timeout, idle_for: Duration { nanos: 0 } }, looks);
            &&& t.timeout == timeout
            &&& t.idle_for.nanos == idle_looks(looks) * check_nanos(timeout)
            &&& t.expired() <==> idle_looks(looks) * check_nanos(timeout) >= timeout.nanos
            &&& idle_looks(looks) <= looks.len()
        }),
    decreases looks.len(),
{
    if looks.len() > 0 {
        let c = check_nanos(timeout);
        let n = looks.drop_last().len();
        assert(n * c + c == looks.len() * c) by (nonlinear_arith)
            requires
                looks.len() == n + 1,
        ;
        idle_time_is_time_since_activity(timeout, looks.drop_last());
        let k = idle_looks(looks.drop_last());
        assert(k * c + c == (k + 1) * c) by (nonlinear_arith);
        assert(k * c <= n * c) by (nonlinear_arith)
            requires
                k <= n,
                0 <= c,
        ;
        assert(0 * c == 0);
    }
}

/// Each request becomes the command of its own name, with what it names; a question
/// becomes none.
pub proof fn requests_become_their_commands(request: Request, command: Option<Command>)
    requires
        commanded(request, command),
    ensures
        request is Next ==> command == Some(Command::Next),
        request is Previous ==> command == Some(Command::Previous),
        request is Pause ==> command == Some(Command::Pause),
        request is Resume ==> command == Some(Command::Resume),
        request is Stop ==> command == Some(Command::Stop),
        request is ClearQueue ==> command == Some(Command::ClearQueue),
        request is CycleRepeat ==> command == Some(Command::CycleRepeat),
        request is ToggleShuffle ==> command == Some(Command::ToggleShuffle),
        request matches Request::SeekTo { position } ==> command == Some(Command::Seek(position)),
        request matches Request::SetVolume { volume } ==> command == Some(
            Command::SetVolume(volume),
        ),
        request matches Request::PlayAt { index } ==> (command matches Some(Command::PlayAt(i)) && i
            == index),
        request matches Request::RemoveFromQueue { index } ==> (command matches Some(
            Command::RemoveFromQueue(i),
        ) && i == index),
        request matches Request::MoveInQueue { from, to } ==> (command matches Some(
            Command::MoveInQueue { from: f, to: t },
        ) && f == from && t == to),
        request is Queue || request is Status || request is Spectrum || request is Quit
            ==> command is None,
{
}

/// The tracks of a request become the engine's, one for one and in order, each with its
/// own stream, song and title.
pub proof fn requested_tracks_are_kept(request: Request, command: Option<Command>, k: int)
    requires
        commanded(request, command),
    ensures
        request matches Request::PlayQueue { tracks, start_index } ==> (command matches Some(
            Command::PlayQueue { tracks: queue, start_index: start },
        ) && start == start_index && queue@.len() == tracks@.len() && (0 <= k < tracks@.len()
            ==> queue@[k].song_id == tracks@[k].song_id && queue@[k].title == tracks@[k].title
            && queue@[k].stream_url == tracks@[k].stream_url)),
        request matches Request::AppendQueue { tracks } ==> (command matches Some(
            Command::AppendQueue(queue),
        ) && queue@.len() == tracks@.len() && (0 <= k < tracks@.len() ==> queue@[k].song_id
            == tracks@[k].song_id && queue@[k].title == tracks@[k].title && queue@[k].stream_url
            == tracks@[k].stream_url)),
        request matches Request::PlayNext { tracks } ==> (command matches Some(
            Command::PlayNext(queue),
        ) && queue@.len() == tracks@.len() && (0 <= k < tracks@.len() ==> queue@[k].song_id
            == tracks@[k].song_id && queue@[k].title == tracks@[k].title && queue@[k].stream_url
            == tracks@[k].stream_url)),
{
    match (request, command) {
        (Request::PlayQueue { tracks, .. }, Some(Command::PlayQueue { tracks: queue, .. })) => {
            if 0 <= k < tracks@.len() {
                assert(crate::playback::entry_describes(tracks@[k], queue@[k]));
            }
        },
        (Request::AppendQueue { tracks }, Some(Command::AppendQueue(queue))) => {
            if 0 <= k < tracks@.len() {
                assert(crate::playback::entry_describes(tracks@[k], queue@[k]));
            }
        },
        (Request::PlayNext { tracks }, Some(Command::PlayNext(queue))) => {
            if 0 <= k < tracks@.len() {
                assert(crate::playback::entry_describes(tracks@[k], queue@[k]));
            }
        },
        _ => {},
    }
}

/// Questions are answered with what is published: the queue row by row, the spectrum, and
/// the status; everything else with nothing.
pub proof fn questions_are_answered(request: Request, snapshot: Snapshot, response: Response, k: int)
    requires
        answered(request, snapshot, response),
    ensures
        request is Queue ==> (response matches Response::Queue(rows) && rows@.len()
            == snapshot.queue@.len() && (0 <= k < rows@.len() ==> rows@[k].title
            == snapshot.queue@[k].title && rows@[k].artist == snapshot.queue@[k].artist
            && rows@[k].song_id == snapshot.queue@[k].song_id)),
        request is Spectrum ==> (response matches Response::Spectrum(levels) && levels@
            == snapshot.spectrum@),
        request is Status ==> (response matches Response::Status(t) && t.position
            == snapshot.position && t.volume == snapshot.volume && t.shuffle == snapshot.shuffle
            && (snapshot.track matches Some(m) ==> t.title@ == m.title@ && t.song_id@
            == m.song_id@)),
        !(request is Queue || request is Spectrum || request is Status) ==> response
            == Response::Unit,
{
}

/// The daemon looks every half minute, or as often as its patience is long where that is
/// less.
pub proof fn looks_are_at_most_half_a_minute_apart(timeout: Duration)
    ensures
        check_nanos(timeout) <= 30_000_000_000,
        check_nanos(timeout) <= timeout.nanos,
        check_nanos(timeout) == 30_000_000_000 || check_nanos(timeout) == timeout.nanos,
{
}

/// Any activity starts the wait over, whatever went before.
pub proof fn activity_starts_the_wait_over(t: IdleTimer)
    requires
        t.timeout.nanos > 0,
    ensures
        t.ticked(true).idle_for.nanos == 0,
        !t.ticked(true).expired(),
        t.ticked(true).timeout == t.timeout,
        t.idle_for.nanos + check_nanos(t.timeout) <= u128::MAX ==> t.ticked(false).idle_for.nanos
            == t.idle_for.nanos + check_nanos(t.timeout),
        t.expired() <==> t.idle_for.nanos >= t.timeout.nanos,
{
}

/// Only a request with tracks can be one that does not fit, and only for the length of one
/// of them.
pub proof fn requests_without_tracks_fit(request: Request)
    ensures
        !(request is PlayQueue || request is AppendQueue || request is PlayNext) ==> fits(request),
        request matches Request::AppendQueue { tracks } ==> (tracks@.len() == 0 ==> fits(request)),
        request matches Request::PlayNext { tracks } ==> (tracks@.len() == 0 ==> fits(request)),
        request matches Request::PlayQueue { tracks, .. } ==> (tracks@.len() == 0 ==> fits(request)),
{
}

} // verus!
