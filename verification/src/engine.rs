//! The playback engine as a state machine. It owns the queue, the play order and
//! the published snapshot. A command, or a poll of the audio sink, takes it to
//! its next state and to the effects that the audio thread has to carry out.
use crate::ieee::{Real32, Real64, ONE_32, ZERO_64};
use crate::play_order::{
    play_order_after_insert, play_order_after_move, play_order_after_remove, position_of,
    remap_index_after_move, shuffled_play_order,
};
use crate::playback::{
    copy_tracks, outgoing_scrobble, silent_bars, RepeatMode, Snapshot, SnapshotView, Status,
    TrackMeta, RESTART_THRESHOLD_SECS,
};
use crate::time::{Duration, NANOS_PER_SEC};
use vstd::prelude::*;

verus! {

/// What the daemon can ask of the engine.
#[derive(Debug, PartialEq, Eq)]
pub enum Command {
    /// Replaces the queue and starts playing at `start_index`.
    PlayQueue { tracks: Vec<TrackMeta>, start_index: usize },
    /// Jumps to an index of the current queue.
    PlayAt(usize),
    /// Adds tracks at the end of the queue without interrupting what plays. If
    /// nothing is playing, playback starts at the first of them.
    AppendQueue(Vec<TrackMeta>),
    /// Puts tracks right after the current one. If nothing is playing, playback
    /// starts at the first of them.
    PlayNext(Vec<TrackMeta>),
    /// Takes one track out of the queue. Removing the current track goes on to
    /// whatever then stands in its place, or stops if the queue is empty.
    RemoveFromQueue(usize),
    /// Moves the track at `from` to position `to`.
    MoveInQueue { from: usize, to: usize },
    /// Empties the queue and stops.
    ClearQueue,
    Next,
    Previous,
    Pause,
    Resume,
    Stop,
    Seek(Duration),
    SetVolume(Real32),
    CycleRepeat,
    SetRepeat(RepeatMode),
    ToggleShuffle,
    SetShuffle(bool),
    Shutdown,
}

/// What the engine tells the rest of the daemon.
#[derive(Debug, PartialEq, Eq)]
pub enum Event {
    StatusChanged(Status),
    /// A new track has started; its metadata is in the snapshot.
    TrackChanged,
    /// There is no next track.
    QueueEnded,
    /// A track could not be loaded; the message is for the user.
    PlaybackError(String),
    Seeked(Duration),
}

/// What the audio thread has to do, in the order given.
#[derive(Debug, PartialEq, Eq)]
pub enum Effect {
    /// Report a song to the server: as a recorded play, or as now playing.
    Scrobble { song_id: String, submission: bool },
    /// Stop the sink and let go of it.
    StopSink,
    /// Open the track's stream and report back, see [`EngineState::finish_load`].
    Load { track: TrackMeta },
    PauseSink,
    ResumeSink,
    /// Seek the sink to its start, whether or not that works.
    RestartSink,
    /// Seek the sink and report back, see [`EngineState::finish_seek`].
    SeekSink { position: Duration },
    /// Set the sink's volume to `volume`, scaled down by `gain` decibels.
    SetSinkVolume { volume: Real32, gain: Real64 },
    Notify(Event),
    /// End the audio thread.
    Exit,
}

/// The engine.
#[derive(Debug, PartialEq, Eq)]
pub struct EngineState {
    pub queue: Vec<TrackMeta>,
    /// The current track's place in the queue.
    pub index: usize,
    /// The order in which `Next` and `Previous` walk the queue.
    pub play_order: Vec<usize>,
    /// The current track's place in the play order.
    pub order_pos: usize,
    pub repeat: RepeatMode,
    pub shuffle: bool,
    /// The track that the sink plays, for scrobbling.
    pub current: Option<TrackMeta>,
    /// Whether there is a sink.
    pub loaded: bool,
    /// The track that is being opened.
    pub loading: Option<TrackMeta>,
    pub volume: Real32,
    pub snapshot: Snapshot,
}

/// What an [`EngineState`] holds.
#[verifier::ext_equal]
pub struct EngineView {
    pub queue: Seq<TrackMeta>,
    pub index: usize,
    pub play_order: Seq<usize>,
    pub order_pos: usize,
    pub repeat: RepeatMode,
    pub shuffle: bool,
    pub current: Option<TrackMeta>,
    pub loaded: bool,
    pub loading: Option<TrackMeta>,
    pub volume: Real32,
    pub snapshot: SnapshotView,
}

impl View for EngineState {
    type V = EngineView;

    open spec fn view(&self) -> EngineView {
        EngineView {
            queue: self.queue@,
            index: self.index,
            play_order: self.play_order@,
            order_pos: self.order_pos,
            repeat: self.repeat,
            shuffle: self.shuffle,
            current: self.current,
            loaded: self.loaded,
            loading: self.loading,
            volume: self.volume,
            snapshot: self.snapshot@,
        }
    }
}

impl EngineView {
    /// The play order holds each index of the queue once, and is the queue's own
    /// with shuffle off; the current track stands where the engine says, in the
    /// queue and in the play order; with an empty queue there is no sink; the
    /// snapshot shows the queue, the place in it, the modes and the volume as they
    /// are; and its spectrum is at rest unless a track plays.
    pub open spec fn wf(self) -> bool {
        &&& crate::play_order::is_order(self.play_order, self.queue.len())
        &&& self.queue.len() <= usize::MAX
        &&& !self.shuffle ==> self.play_order == crate::play_order::identity(self.queue.len())
        &&& self.queue.len() > 0 ==> {
            &&& self.index < self.queue.len()
            &&& self.order_pos < self.queue.len()
            &&& self.play_order[self.order_pos as int] == self.index
            &&& self.snapshot.queue_index < self.snapshot.queue_len
        }
        &&& self.queue.len() == 0 ==> {
            &&& self.index == 0
            &&& self.order_pos == 0
            &&& !self.loaded
            &&& self.loading is None
        }
        &&& self.snapshot.queue == self.queue
        &&& self.snapshot.queue_len == self.queue.len()
        &&& self.snapshot.queue_index == self.index
        &&& self.snapshot.repeat == self.repeat
        &&& self.snapshot.shuffle == self.shuffle
        &&& self.snapshot.volume == self.volume
        &&& self.snapshot.status != Status::Playing ==> at_rest(self.snapshot.spectrum)
    }
}

/// Whether no bar of the spectrum shows anything.
pub open spec fn at_rest(spectrum: Seq<u8>) -> bool {
    spectrum == crate::playback::silence(spectrum.len())
}

/// How far into the current track the sink is; zero without a sink.
pub open spec fn current_position(s: EngineView, position: Duration) -> Duration {
    if s.loaded {
        position
    } else {
        Duration { nanos: 0 }
    }
}

/// The recorded play of a track that is left at `position`, if it counts.
pub open spec fn scrobbled(current: Option<TrackMeta>, position: Duration) -> Seq<Effect> {
    if crate::playback::counts_as_play(current, position) {
        seq![Effect::Scrobble { song_id: current->0.song_id, submission: true }]
    } else {
        Seq::empty()
    }
}

/// What letting go of the sink takes: nothing without one.
pub open spec fn sink_stopped(s: EngineView) -> Seq<Effect> {
    if s.loaded {
        seq![Effect::StopSink]
    } else {
        Seq::empty()
    }
}

/// What leaving the current track for good takes: nothing without a sink, else
/// its scrobble if it counts, and the stop.
pub open spec fn track_left(s: EngineView, position: Duration) -> Seq<Effect> {
    if s.loaded {
        scrobbled(s.current, position).push(Effect::StopSink)
    } else {
        Seq::empty()
    }
}

/// The place of `index` in the play order.
pub open spec fn order_place(order: Seq<usize>, index: usize, absent: usize) -> usize {
    let p = crate::play_order::place_in(order, index);
    if p < order.len() {
        p as usize
    } else {
        absent
    }
}

/// Starts the track at `i`, replacing what was playing: the track that stops is
/// scrobbled if it counts, the sink is stopped, and the new track is opened. Its
/// place is published at once, and the spectrum is at rest until it plays. An `i`
/// past the queue only stops, and tells so where that is news.
pub open spec fn started(s: EngineView, position: Duration, i: usize) -> (EngineView, Seq<Effect>) {
    let out = scrobbled(s.current, current_position(s, position)) + sink_stopped(s);
    if i < s.queue.len() {
        (
            EngineView {
                index: i,
                order_pos: order_place(s.play_order, i, i),
                current: None,
                loaded: false,
                loading: Some(s.queue[i as int]),
                snapshot: SnapshotView { queue_index: i, ..quiet(s).snapshot },
                ..s
            },
            out.push(Effect::Load { track: s.queue[i as int] }),
        )
    } else {
        (
            EngineView {
                current: None,
                loaded: false,
                loading: None,
                ..with_status(quiet(s), Status::Stopped)
            },
            if s.snapshot.status == Status::Stopped {
                out
            } else {
                out.push(Effect::Notify(Event::StatusChanged(Status::Stopped)))
            },
        )
    }
}

/// The engine with `order` as its play order.
pub open spec fn reordered(s: EngineView, order: Seq<usize>) -> EngineView {
    EngineView { play_order: order, order_pos: order_place(order, s.index, 0), ..s }
}

/// The engine with `queue` as its queue, in the snapshot too.
pub open spec fn requeued(s: EngineView, queue: Seq<TrackMeta>) -> EngineView {
    EngineView {
        queue,
        snapshot: SnapshotView { queue, queue_len: queue.len() as usize, ..s.snapshot },
        ..s
    }
}

/// The engine with `status` published.
pub open spec fn with_status(s: EngineView, status: Status) -> EngineView {
    EngineView { snapshot: SnapshotView { status, ..s.snapshot }, ..s }
}

/// The engine with the spectrum at rest.
pub open spec fn quiet(s: EngineView) -> EngineView {
    EngineView {
        snapshot: SnapshotView {
            spectrum: crate::playback::silence(s.snapshot.spectrum.len()),
            ..s.snapshot
        },
        ..s
    }
}

/// The engine with nothing in its queue, at rest.
pub open spec fn emptied(s: EngineView) -> EngineView {
    let r = with_status(quiet(requeued(s, Seq::empty())), Status::Stopped);
    EngineView {
        index: 0,
        play_order: Seq::empty(),
        order_pos: 0,
        current: None,
        loaded: false,
        loading: None,
        snapshot: SnapshotView { queue_index: 0, track: None, ..r.snapshot },
        ..r
    }
}

/// Whether there is nothing that new tracks would interrupt.
pub open spec fn nothing_playing(s: EngineView) -> bool {
    !s.loaded || s.snapshot.status == Status::Stopped
}

/// Whether going on from the current track starts the queue over.
pub open spec fn wraps(s: EngineView) -> bool {
    &&& s.order_pos + 1 >= s.queue.len()
    &&& s.queue.len() > 0
    &&& s.repeat == RepeatMode::Queue
}

/// Goes on to the next track of the play order, or to the first where the queue
/// repeats; at the end of a queue that does not, does nothing. A shuffled queue
/// that starts over takes `fresh` as its new order.
pub open spec fn advanced(s: EngineView, position: Duration, fresh: Seq<usize>) -> (
    EngineView,
    Seq<Effect>,
) {
    if s.order_pos + 1 < s.queue.len() {
        started(s, position, s.play_order[s.order_pos + 1])
    } else if wraps(s) {
        let t = if s.shuffle {
            reordered(s, fresh)
        } else {
            s
        };
        started(t, position, t.play_order[0])
    } else {
        (s, Seq::empty())
    }
}

/// The arguments of the play order that a command makes: the queue's length,
/// whether it is shuffled, and the index to keep in front.
pub open spec fn order_made(s: EngineView, command: Command) -> Option<
    (nat, bool, Option<usize>),
> {
    match command {
        Command::PlayQueue { tracks, .. } => Some((tracks@.len(), s.shuffle, None)),
        Command::Next => if wraps(s) && s.shuffle {
            Some((s.queue.len(), true, None))
        } else {
            None
        },
        Command::ToggleShuffle => Some((s.queue.len(), !s.shuffle, Some(s.index))),
        Command::SetShuffle(on) => if on != s.shuffle {
            Some((s.queue.len(), on, Some(s.index)))
        } else {
            None
        },
        _ => None,
    }
}

/// Whether `fresh` is an order that the command may be given.
pub open spec fn order_allowed(
    made: Option<(nat, bool, Option<usize>)>,
    fresh: Seq<usize>,
) -> bool {
    match made {
        Some((len, shuffle, anchor)) => crate::play_order::fresh_order(
            fresh,
            len,
            shuffle,
            anchor,
        ),
        None => true,
    }
}

/// What follows the last track out of the queue.
pub open spec fn emptied_effects() -> Seq<Effect> {
    seq![
        Effect::Notify(Event::StatusChanged(Status::Stopped)),
        Effect::Notify(Event::QueueEnded),
    ]
}

/// Replaces the queue by `tracks` and starts at `start_index`, or at the last
/// track where that is past the end. Without any tracks, playback only stops.
pub open spec fn queue_played(
    s: EngineView,
    tracks: Seq<TrackMeta>,
    start_index: usize,
    position: Duration,
    fresh: Seq<usize>,
) -> (EngineView, Seq<Effect>) {
    if tracks.len() == 0 {
        let t = requeued(s, Seq::empty());
        started(
            EngineView {
                index: 0,
                play_order: Seq::empty(),
                order_pos: 0,
                snapshot: SnapshotView { queue_index: 0, ..t.snapshot },
                ..t
            },
            position,
            0,
        )
    } else {
        let i: usize = if start_index < tracks.len() {
            start_index
        } else {
            (tracks.len() - 1) as usize
        };
        started(reordered(requeued(s, tracks), fresh), position, i)
    }
}

/// Adds `tracks` at the end of the queue and of the play order.
pub open spec fn appended(s: EngineView, tracks: Seq<TrackMeta>, position: Duration) -> (
    EngineView,
    Seq<Effect>,
) {
    let n = s.queue.len();
    if tracks.len() == 0 {
        (s, Seq::empty())
    } else {
        let t = EngineView {
            play_order: s.play_order + Seq::new(tracks.len(), |k: int| (n + k) as usize),
            ..requeued(s, s.queue + tracks)
        };
        if nothing_playing(s) {
            started(t, position, n as usize)
        } else {
            (t, Seq::empty())
        }
    }
}

/// Puts `tracks` right after the current one, in the queue and in the play
/// order.
pub open spec fn inserted_next(s: EngineView, tracks: Seq<TrackMeta>, position: Duration) -> (
    EngineView,
    Seq<Effect>,
) {
    let n = s.queue.len();
    let at: usize = if n == 0 {
        0
    } else {
        (s.index + 1) as usize
    };
    let pos: int = if n == 0 {
        0
    } else {
        s.order_pos + 1
    };
    if tracks.len() == 0 {
        (s, Seq::empty())
    } else {
        let t = EngineView {
            play_order: crate::play_order::after_insert(
                s.play_order,
                at,
                tracks.len() as usize,
                pos,
            ),
            ..requeued(s, s.queue.take(at as int) + tracks + s.queue.skip(at as int))
        };
        if nothing_playing(s) {
            started(t, position, at)
        } else {
            (t, Seq::empty())
        }
    }
}

/// Takes the track at `r` out of the queue. Where it is the current one, it is
/// left, and the track that then stands in its place is started.
pub open spec fn removed(s: EngineView, r: usize, position: Duration) -> (EngineView, Seq<Effect>) {
    if r >= s.queue.len() {
        (s, Seq::empty())
    } else {
        let t = EngineView {
            play_order: crate::play_order::after_remove(s.play_order, r),
            ..requeued(s, s.queue.remove(r as int))
        };
        if r != s.index {
            let index = crate::play_order::index_after_remove(s.index, r);
            (
                EngineView {
                    index,
                    order_pos: order_place(t.play_order, index, 0),
                    snapshot: SnapshotView { queue_index: index, ..t.snapshot },
                    ..t
                },
                Seq::empty(),
            )
        } else if t.queue.len() == 0 {
            (
                emptied(s),
                track_left(s, position) + emptied_effects(),
            )
        } else {
            let i: usize = if r < t.queue.len() {
                r
            } else {
                (t.queue.len() - 1) as usize
            };
            let (u, load) = started(
                EngineView { current: None, loaded: false, ..t },
                position,
                i,
            );
            (u, track_left(s, position) + load)
        }
    }
}

/// Moves the track at `from` to `to`. The current track stays current. With
/// shuffle on the tracks keep their order of play; with shuffle off they are
/// played in the queue's new order.
pub open spec fn moved_track(s: EngineView, from: usize, to: usize) -> EngineView {
    if from < s.queue.len() && to < s.queue.len() && from != to {
        let index = crate::play_order::remapped(s.index, from, to);
        let order = if s.shuffle {
            crate::play_order::after_move(s.play_order, from, to)
        } else {
            crate::play_order::identity(s.queue.len())
        };
        let t = requeued(s, crate::play_order::moved(s.queue, from as int, to as int));
        EngineView {
            index,
            play_order: order,
            order_pos: order_place(order, index, 0),
            snapshot: SnapshotView { queue_index: index, ..t.snapshot },
            ..t
        }
    } else {
        s
    }
}

/// The engine once the sink plays on from `position`: the spectrum is at rest
/// until there is sound from there.
pub open spec fn sought(s: EngineView, position: Duration) -> EngineView {
    EngineView { snapshot: SnapshotView { position, ..quiet(s).snapshot }, ..s }
}

/// Restarts the current track where it is well under way or the first of the
/// play order, else goes back to the one before it.
pub open spec fn went_back(s: EngineView, position: Duration) -> (EngineView, Seq<Effect>) {
    let here = current_position(s, position);
    if here.nanos > RESTART_THRESHOLD_SECS * NANOS_PER_SEC || s.order_pos == 0 {
        if s.loaded {
            (
                sought(s, Duration { nanos: 0 }),
                scrobbled(s.current, here).push(Effect::RestartSink),
            )
        } else {
            (s, scrobbled(s.current, here))
        }
    } else {
        started(s, position, s.play_order[s.order_pos - 1])
    }
}

/// Turns shuffle on or off. The current track stays current; `fresh` is the new
/// play order.
pub open spec fn shuffle_set(s: EngineView, on: bool, fresh: Seq<usize>) -> EngineView {
    reordered(
        EngineView {
            shuffle: on,
            snapshot: SnapshotView { shuffle: on, ..s.snapshot },
            ..s
        },
        fresh,
    )
}

/// The engine with `repeat` as its repeat mode, in the snapshot too.
pub open spec fn repeat_set(s: EngineView, repeat: RepeatMode) -> EngineView {
    EngineView { repeat, snapshot: SnapshotView { repeat, ..s.snapshot }, ..s }
}

/// The gain of the track that the sink plays; zero without one.
pub open spec fn current_gain(s: EngineView) -> Real64 {
    match s.current {
        Some(t) => t.replay_gain_db,
        None => Real64 { bits: ZERO_64 },
    }
}

/// The state and the effects that a command leads to. `position` is how far the
/// sink is, and `fresh` the order that a command which makes one takes.
pub open spec fn step(
    s: EngineView,
    command: Command,
    position: Duration,
    fresh: Seq<usize>,
) -> (EngineView, Seq<Effect>) {
    let nothing = Seq::<Effect>::empty();
    match command {
        Command::PlayQueue { tracks, start_index } => queue_played(
            s,
            tracks@,
            start_index,
            position,
            fresh,
        ),
        Command::PlayAt(i) => if i < s.queue.len() {
            started(s, position, i)
        } else {
            (s, nothing)
        },
        Command::AppendQueue(tracks) => appended(s, tracks@, position),
        Command::PlayNext(tracks) => inserted_next(s, tracks@, position),
        Command::RemoveFromQueue(r) => removed(s, r, position),
        Command::MoveInQueue { from, to } => (moved_track(s, from, to), nothing),
        Command::ClearQueue => (
            emptied(s),
            track_left(s, position) + emptied_effects(),
        ),
        Command::Next => advanced(s, position, fresh),
        Command::Previous => went_back(s, position),
        Command::Pause => if s.loaded {
            (
                with_status(quiet(s), Status::Paused),
                seq![
                    Effect::PauseSink,
                    Effect::Notify(Event::StatusChanged(Status::Paused)),
                ],
            )
        } else {
            (s, nothing)
        },
        Command::Resume => if s.loaded {
            (
                with_status(s, Status::Playing),
                seq![
                    Effect::ResumeSink,
                    Effect::Notify(Event::StatusChanged(Status::Playing)),
                ],
            )
        } else {
            (s, nothing)
        },
        Command::Stop => (
            EngineView {
                current: None,
                loaded: false,
                ..with_status(quiet(s), Status::Stopped)
            },
            track_left(s, position).push(Effect::Notify(Event::StatusChanged(Status::Stopped))),
        ),
        Command::Seek(target) => (
            s,
            if s.loaded {
                seq![Effect::SeekSink { position: target }]
            } else {
                nothing
            },
        ),
        Command::SetVolume(volume) => (
            EngineView { volume, snapshot: SnapshotView { volume, ..s.snapshot }, ..s },
            if s.loaded {
                seq![Effect::SetSinkVolume { volume, gain: current_gain(s) }]
            } else {
                nothing
            },
        ),
        Command::CycleRepeat => (repeat_set(s, s.repeat.cycled()), nothing),
        Command::SetRepeat(repeat) => (repeat_set(s, repeat), nothing),
        Command::ToggleShuffle => (shuffle_set(s, !s.shuffle, fresh), nothing),
        Command::SetShuffle(on) => if on != s.shuffle {
            (shuffle_set(s, on, fresh), nothing)
        } else {
            (s, nothing)
        },
        Command::Shutdown => (
            EngineView { loaded: false, ..s },
            sink_stopped(s).push(Effect::Exit),
        ),
    }
}

impl EngineState {
    /// An engine with an empty queue, for a spectrum of `bars` bars.
    pub fn new(bars: usize) -> (e: EngineState)
        ensures
            e@.wf(),
            e@.queue.len() == 0,
            e@.index == 0,
            e@.order_pos == 0,
            e@.repeat == RepeatMode::Off,
            !e@.shuffle,
            e@.current is None,
            !e@.loaded,
            e@.loading is None,
            e@.volume.bits == ONE_32,
            e@.snapshot.status == Status::Stopped,
            e@.snapshot.track is None,
            e@.snapshot.position.nanos == 0,
            e@.snapshot.queue_index == 0,
            e@.snapshot.spectrum == crate::playback::silence(bars as nat),
    {
        assert(crate::play_order::identity(0) =~= Seq::<usize>::empty());
        EngineState {
            queue: Vec::new(),
            index: 0,
            play_order: Vec::new(),
            order_pos: 0,
            repeat: RepeatMode::Off,
            shuffle: false,
            current: None,
            loaded: false,
            loading: None,
            volume: Real32::one(),
            snapshot: Snapshot::initial(bars),
        }
    }

    fn scrobble_outgoing(&self, position: Duration, out: &mut Vec<Effect>)
        ensures
            final(out)@ == old(out)@ + scrobbled(self.current, position),
    {
        match outgoing_scrobble(&self.current, position) {
            Some(song_id) => out.push(Effect::Scrobble { song_id, submission: true }),
            None => {},
        }
        assert(out@ =~= old(out)@ + scrobbled(self.current, position));
    }

    fn here(&self, position: Duration) -> (here: Duration)
        ensures
            here == current_position(self@, position),
    {
        if self.loaded {
            position
        } else {
            Duration::zero()
        }
    }

    fn leave_track(&mut self, position: Duration, out: &mut Vec<Effect>)
        ensures
            final(self)@ == (EngineView { current: None, loaded: false, ..old(self)@ }),
            final(out)@ == old(out)@ + track_left(old(self)@, position),
    {
        if self.loaded {
            self.scrobble_outgoing(position, out);
            out.push(Effect::StopSink);
        }
        self.loaded = false;
        self.current = None;
        assert(out@ =~= old(out)@ + track_left(old(self)@, position));
    }

    /// Starts the track at `i` of the queue, replacing what was playing.
    pub fn start_playback_at(&mut self, position: Duration, i: usize, out: &mut Vec<Effect>)
        ensures
            final(self)@ == started(old(self)@, position, i).0,
            final(out)@ == old(out)@ + started(old(self)@, position, i).1,
    {
        let here: Duration = self.here(position);
        self.scrobble_outgoing(here, out);
        if self.loaded {
            out.push(Effect::StopSink);
        }
        self.loaded = false;
        self.current = None;
        self.rest_spectrum();
        if i < self.queue.len() {
            let track = self.queue[i].clone();
            self.index = i;
            self.snapshot.queue_index = i;
            self.order_pos = match position_of(&self.play_order, i) {
                Some(p) => p,
                None => i,
            };
            self.loading = Some(track.clone());
            out.push(Effect::Load { track });
        } else {
            self.loading = None;
            if self.snapshot.status != Status::Stopped {
                self.set_status(Status::Stopped, out);
            }
        }
        assert(self@ =~= started(old(self)@, position, i).0);
        assert(out@ =~= old(out)@ + started(old(self)@, position, i).1);
    }

    fn set_queue(&mut self, queue: Vec<TrackMeta>)
        ensures
            final(self)@ == requeued(old(self)@, queue@),
    {
        self.snapshot.queue = copy_tracks(&queue);
        self.snapshot.queue_len = queue.len();
        self.queue = queue;
    }

    fn set_order(&mut self, order: Vec<usize>)
        ensures
            final(self)@ == reordered(old(self)@, order@),
    {
        self.order_pos = match position_of(&order, self.index) {
            Some(p) => p,
            None => 0,
        };
        self.play_order = order;
    }

    fn set_status(&mut self, status: Status, out: &mut Vec<Effect>)
        ensures
            final(self)@ == with_status(old(self)@, status),
            final(out)@ == old(out)@.push(Effect::Notify(Event::StatusChanged(status))),
    {
        self.snapshot.status = status;
        out.push(Effect::Notify(Event::StatusChanged(status)));
    }

    fn rest_spectrum(&mut self)
        ensures
            final(self)@ == quiet(old(self)@),
    {
        self.snapshot.spectrum = silent_bars(self.snapshot.spectrum.len());
    }

    fn empty_out(&mut self, out: &mut Vec<Effect>)
        ensures
            final(self)@ == emptied(old(self)@),
            final(out)@ == old(out)@ + emptied_effects(),
    {
        self.set_queue(Vec::new());
        self.current = None;
        self.loaded = false;
        self.loading = None;
        self.play_order = Vec::new();
        self.index = 0;
        self.order_pos = 0;
        self.snapshot.queue_index = 0;
        self.snapshot.track = None;
        self.rest_spectrum();
        self.set_status(Status::Stopped, out);
        out.push(Effect::Notify(Event::QueueEnded));
        assert(self@ =~= emptied(old(self)@));
        assert(out@ =~= old(out)@ + emptied_effects());
    }

    fn nothing_plays(&self) -> (r: bool)
        ensures
            r == nothing_playing(self@),
    {
        !self.loaded || self.snapshot.status == Status::Stopped
    }

    fn play_queue(
        &mut self,
        tracks: Vec<TrackMeta>,
        start_index: usize,
        position: Duration,
        fresh: Vec<usize>,
        out: &mut Vec<Effect>,
    )
        ensures
            final(self)@ == queue_played(old(self)@, tracks@, start_index, position, fresh@).0,
            final(out)@ == old(out)@ + queue_played(
                old(self)@,
                tracks@,
                start_index,
                position,
                fresh@,
            ).1,
    {
        let len: usize = tracks.len();
        if len == 0 {
            assert(tracks@ =~= Seq::<TrackMeta>::empty());
            self.set_queue(tracks);
            self.play_order = Vec::new();
            self.index = 0;
            self.order_pos = 0;
            self.snapshot.queue_index = 0;
            self.start_playback_at(position, 0, out);
            return;
        }
        let i: usize = if start_index < len {
            start_index
        } else {
            len - 1
        };
        self.set_queue(tracks);
        self.set_order(fresh);
        self.start_playback_at(position, i, out);
    }

    fn append_queue(&mut self, tracks: Vec<TrackMeta>, position: Duration, out: &mut Vec<Effect>)
        ensures
            final(self)@ == appended(old(self)@, tracks@, position).0,
            final(out)@ == old(out)@ + appended(old(self)@, tracks@, position).1,
            old(self)@.queue.len() + tracks@.len() <= usize::MAX,
    {
        let ghost before = self@;
        let start: usize = self.queue.len();
        if tracks.len() == 0 {
            assert(out@ =~= old(out)@ + Seq::<Effect>::empty());
            return;
        }
        let idle: bool = self.nothing_plays();
        let mut queue = copy_tracks(&self.queue);
        let mut added = tracks;
        queue.append(&mut added);
        let end: usize = queue.len();
        let ghost fresh = Seq::new(tracks@.len(), |k: int| (start + k) as usize);
        let mut k: usize = start;
        while k < end
            invariant
                start <= k <= end,
                end - start == fresh.len(),
                fresh == Seq::new((end - start) as nat, |k: int| (start + k) as usize),
                self.play_order@ == before.play_order + fresh.take(k - start),
                self@ == (EngineView { play_order: self.play_order@, ..before }),
            decreases end - k,
        {
            self.play_order.push(k);
            k = k + 1;
            assert(self.play_order@ =~= before.play_order + fresh.take(k - start));
        }
        assert(fresh.take(k - start) == fresh);
        self.set_queue(queue);
        if idle {
            self.start_playback_at(position, start, out);
        } else {
            assert(out@ =~= old(out)@ + Seq::<Effect>::empty());
        }
    }

    fn play_next(&mut self, tracks: Vec<TrackMeta>, position: Duration, out: &mut Vec<Effect>)
        requires
            old(self)@.wf(),
        ensures
            final(self)@ == inserted_next(old(self)@, tracks@, position).0,
            final(out)@ == old(out)@ + inserted_next(old(self)@, tracks@, position).1,
            old(self)@.queue.len() + tracks@.len() <= usize::MAX,
    {
        let n: usize = self.queue.len();
        if tracks.len() == 0 {
            assert(out@ =~= old(out)@ + Seq::<Effect>::empty());
            return;
        }
        let ghost before = self@;
        let idle: bool = self.nothing_plays();
        let count: usize = tracks.len();
        let at: usize = if n == 0 {
            0
        } else {
            self.index + 1
        };
        let pos: usize = if n == 0 {
            0
        } else {
            self.order_pos + 1
        };
        let mut queue = copy_tracks(&self.queue);
        let mut tail = queue.split_off(at);
        let mut added = tracks;
        queue.append(&mut added);
        queue.append(&mut tail);
        assert(queue@ =~= before.queue.take(at as int) + tracks@ + before.queue.skip(at as int));
        let total: usize = queue.len();
        assert(total == n + count);
        self.play_order = play_order_after_insert(self.play_order.as_slice(), at, count, pos);
        self.set_queue(queue);
        if idle {
            self.start_playback_at(position, at, out);
        } else {
            assert(out@ =~= old(out)@ + Seq::<Effect>::empty());
        }
    }

    fn remove_from_queue(&mut self, r: usize, position: Duration, out: &mut Vec<Effect>)
        ensures
            final(self)@ == removed(old(self)@, r, position).0,
            final(out)@ == old(out)@ + removed(old(self)@, r, position).1,
    {
        if r >= self.queue.len() {
            assert(out@ =~= old(out)@ + Seq::<Effect>::empty());
            return;
        }
        let ghost before = self@;
        let mut queue = copy_tracks(&self.queue);
        queue.remove(r);
        self.play_order = play_order_after_remove(self.play_order.as_slice(), r);
        self.set_queue(queue);
        let len: usize = self.queue.len();
        if r == self.index {
            self.leave_track(position, out);
            if len == 0 {
                self.empty_out(out);
                assert(self@ =~= emptied(before));
                assert(out@ =~= old(out)@ + removed(before, r, position).1);
            } else {
                let i: usize = if r < len {
                    r
                } else {
                    len - 1
                };
                self.start_playback_at(position, i, out);
                assert(out@ =~= old(out)@ + removed(before, r, position).1);
            }
        } else {
            if r < self.index {
                self.index = self.index - 1;
            }
            self.order_pos = match position_of(&self.play_order, self.index) {
                Some(p) => p,
                None => 0,
            };
            self.snapshot.queue_index = self.index;
            assert(out@ =~= old(out)@ + Seq::<Effect>::empty());
        }
    }

    fn move_in_queue(&mut self, from: usize, to: usize)
        requires
            old(self)@.wf(),
        ensures
            final(self)@ == moved_track(old(self)@, from, to),
    {
        let len: usize = self.queue.len();
        if from < len && to < len && from != to {
            let mut queue = copy_tracks(&self.queue);
            let track = queue.remove(from);
            queue.insert(to, track);
            if self.shuffle {
                self.play_order = play_order_after_move(self.play_order.as_slice(), from, to);
            }
            self.index = remap_index_after_move(self.index, from, to);
            self.order_pos = match position_of(&self.play_order, self.index) {
                Some(p) => p,
                None => 0,
            };
            self.set_queue(queue);
            self.snapshot.queue_index = self.index;
        }
    }

    fn go_on(&mut self, position: Duration, fresh: Vec<usize>, out: &mut Vec<Effect>)
        requires
            old(self)@.wf(),
            wraps(old(self)@) && old(self)@.shuffle ==> fresh@.len() == old(self)@.queue.len(),
        ensures
            final(self)@ == advanced(old(self)@, position, fresh@).0,
            final(out)@ == old(out)@ + advanced(old(self)@, position, fresh@).1,
    {
        let n: usize = self.queue.len();
        if n > 0 && self.order_pos < n - 1 {
            let next: usize = self.play_order[self.order_pos + 1];
            self.start_playback_at(position, next, out);
        } else if self.repeat == RepeatMode::Queue && n > 0 {
            if self.shuffle {
                self.set_order(fresh);
            }
            let next: usize = self.play_order[0];
            self.start_playback_at(position, next, out);
        } else {
            assert(out@ =~= old(out)@ + Seq::<Effect>::empty());
        }
    }

    fn go_back(&mut self, position: Duration, out: &mut Vec<Effect>)
        requires
            old(self)@.wf(),
        ensures
            final(self)@ == went_back(old(self)@, position).0,
            final(out)@ == old(out)@ + went_back(old(self)@, position).1,
    {
        let here: Duration = self.here(position);
        if here.nanos > Duration::from_secs(RESTART_THRESHOLD_SECS).nanos || self.order_pos == 0 {
            self.scrobble_outgoing(here, out);
            if self.loaded {
                out.push(Effect::RestartSink);
                self.rest_spectrum();
                self.snapshot.position = Duration::zero();
            }
            assert(out@ =~= old(out)@ + went_back(old(self)@, position).1);
        } else {
            let prev: usize = self.play_order[self.order_pos - 1];
            self.start_playback_at(position, prev, out);
        }
    }

    fn set_shuffle(&mut self, on: bool, fresh: Vec<usize>)
        ensures
            final(self)@ == shuffle_set(old(self)@, on, fresh@),
    {
        self.shuffle = on;
        self.snapshot.shuffle = on;
        self.set_order(fresh);
    }

    fn set_repeat(&mut self, repeat: RepeatMode)
        ensures
            final(self)@ == repeat_set(old(self)@, repeat),
    {
        self.repeat = repeat;
        self.snapshot.repeat = repeat;
    }
}

/// Whether a command's tracks fit in the queue that it makes.
pub open spec fn tracks_fit(s: EngineView, command: Command) -> bool {
    match command {
        Command::PlayQueue { tracks, .. } => tracks@.len() <= usize::MAX,
        Command::AppendQueue(tracks) => s.queue.len() + tracks@.len() <= usize::MAX,
        Command::PlayNext(tracks) => s.queue.len() + tracks@.len() <= usize::MAX,
        _ => true,
    }
}

/// The engine once the track that it was opening plays.
pub open spec fn opened(s: EngineView, track: TrackMeta) -> EngineView {
    EngineView {
        current: Some(track),
        loaded: true,
        loading: None,
        snapshot: SnapshotView {
            status: Status::Playing,
            position: Duration { nanos: 0 },
            track: Some(track),
            queue_index: s.index,
            ..s.snapshot
        },
        ..s
    }
}

/// What a track that has opened leads to: its volume, the report that it is now
/// playing, and the news.
pub open spec fn opened_effects(s: EngineView, track: TrackMeta) -> Seq<Effect> {
    seq![
        Effect::SetSinkVolume { volume: s.volume, gain: track.replay_gain_db },
        Effect::Scrobble { song_id: track.song_id, submission: false },
        Effect::Notify(Event::TrackChanged),
        Effect::Notify(Event::StatusChanged(Status::Playing)),
    ]
}

/// The engine once the track that it was opening could not be.
pub open spec fn open_failed(s: EngineView) -> EngineView {
    EngineView { current: None, loading: None, ..with_status(quiet(s), Status::Stopped) }
}

/// Whether the effects tell the user that a track could not be played, and why,
/// and that playback has stopped.
pub open spec fn failure_told(effects: Seq<Effect>, reason: Seq<char>) -> bool {
    &&& effects.len() == 2
    &&& effects[0] matches Effect::Notify(Event::PlaybackError(message)) && message@
        == "could not play track: "@ + reason
    &&& effects[1] == Effect::Notify(Event::StatusChanged(Status::Stopped))
}

/// The order that a poll makes: a shuffled queue that starts over by itself is
/// shuffled anew.
pub open spec fn order_polled(s: EngineView, ended: bool) -> Option<(nat, bool, Option<usize>)> {
    if s.loaded && ended && s.snapshot.status == Status::Playing && s.repeat != RepeatMode::Track
        && wraps(s) && s.shuffle {
        Some((s.queue.len(), true, None))
    } else {
        None
    }
}

/// The state and the effects of a look at the sink. A track that has ended is
/// followed by itself where it repeats, else by the next one; at the end of a
/// queue that does not repeat, playback stops. While a track plays, its position
/// and its spectrum are published; while it is paused, only the position is.
pub open spec fn polled(
    s: EngineView,
    ended: bool,
    position: Duration,
    spectrum: Option<Seq<u8>>,
    fresh: Seq<usize>,
) -> (EngineView, Seq<Effect>) {
    let playing = s.snapshot.status == Status::Playing;
    if !s.loaded {
        (s, Seq::empty())
    } else if ended && playing {
        if s.repeat == RepeatMode::Track {
            started(s, position, s.index)
        } else if s.order_pos + 1 < s.queue.len() || wraps(s) {
            advanced(s, position, fresh)
        } else {
            (
                EngineView { current: None, ..with_status(quiet(s), Status::Stopped) },
                scrobbled(s.current, position) + seq![
                    Effect::Notify(Event::QueueEnded),
                    Effect::Notify(Event::StatusChanged(Status::Stopped)),
                ],
            )
        }
    } else {
        let shown = if playing && spectrum is Some {
            spectrum->0
        } else {
            s.snapshot.spectrum
        };
        (
            EngineView {
                snapshot: SnapshotView { spectrum: shown, position, ..s.snapshot },
                ..s
            },
            Seq::empty(),
        )
    }
}

/// A track of the queue stands where the play order says.
proof fn order_place_finds(order: Seq<usize>, n: nat, index: usize, absent: usize)
    requires
        crate::play_order::is_order(order, n),
        index < n,
        n <= usize::MAX,
    ensures
        order_place(order, index, absent) < n,
        order[order_place(order, index, absent) as int] == index,
{
    crate::play_order::place_in_is_first(order, index);
    assert(order.contains(index));
}

/// Starting a track of the queue keeps the engine sound, as far as its queue,
/// its play order and its snapshot already agree.
proof fn start_keeps_wf(s: EngineView, position: Duration, i: usize)
    requires
        crate::play_order::is_order(s.play_order, s.queue.len()),
        !s.shuffle ==> s.play_order == crate::play_order::identity(s.queue.len()),
        i < s.queue.len() <= usize::MAX,
        s.snapshot.queue == s.queue,
        s.snapshot.queue_len == s.queue.len(),
        s.snapshot.repeat == s.repeat,
        s.snapshot.shuffle == s.shuffle,
        s.snapshot.volume == s.volume,
    ensures
        started(s, position, i).0.wf(),
{
    order_place_finds(s.play_order, s.queue.len(), i, i);
}

/// An engine with nothing in its queue is sound.
proof fn emptied_is_wf(s: EngineView)
    requires
        s.wf(),
    ensures
        emptied(s).wf(),
{
    assert(crate::play_order::identity(0) =~= Seq::<usize>::empty());
}

/// Every command keeps the engine sound.
pub proof fn step_keeps_wf(s: EngineView, command: Command, position: Duration, fresh: Seq<usize>)
    requires
        s.wf(),
        order_allowed(order_made(s, command), fresh),
        tracks_fit(s, command),
    ensures
        step(s, command, position, fresh).0.wf(),
{
    let n = s.queue.len();
    match command {
        Command::PlayQueue { tracks, start_index } => {
            if tracks@.len() > 0 {
                let i: usize = if start_index < tracks@.len() {
                    start_index
                } else {
                    (tracks@.len() - 1) as usize
                };
                start_keeps_wf(reordered(requeued(s, tracks@), fresh), position, i);
            } else {
                assert(crate::play_order::identity(0) =~= Seq::<usize>::empty());
            }
        },
        Command::PlayAt(i) => {
            if i < n {
                start_keeps_wf(s, position, i);
            }
        },
        Command::AppendQueue(tracks) => {
            let k = tracks@.len();
            if k > 0 {
                let t = EngineView {
                    play_order: s.play_order + Seq::new(k, |k: int| (n + k) as usize),
                    ..requeued(s, s.queue + tracks@)
                };
                crate::play_order::append_keeps_order(s.play_order, n, k);
                if !s.shuffle {
                    assert(t.play_order =~= crate::play_order::identity(n + k));
                }
                if nothing_playing(s) {
                    start_keeps_wf(t, position, n as usize);
                }
            }
        },
        Command::PlayNext(tracks) => {
            if tracks@.len() > 0 {
                inserted_keeps_wf(s, tracks@, position);
            }
        },
        Command::RemoveFromQueue(r) => {
            removed_keeps_wf(s, r, position);
        },
        Command::MoveInQueue { from, to } => {
            moved_keeps_wf(s, from, to);
        },
        Command::ClearQueue => {
            emptied_is_wf(s);
        },
        Command::Next => {
            advanced_keeps_wf(s, position, fresh);
        },
        Command::Previous => {
            if s.order_pos > 0 {
                start_keeps_wf(s, position, s.play_order[s.order_pos - 1]);
            }
        },
        Command::ToggleShuffle => {
            if n > 0 {
                order_place_finds(fresh, n, s.index, 0);
            } else {
                crate::play_order::place_in_is_first(fresh, s.index);
            }
        },
        Command::SetShuffle(on) => {
            if n > 0 && on != s.shuffle {
                order_place_finds(fresh, n, s.index, 0);
            } else {
                crate::play_order::place_in_is_first(fresh, s.index);
            }
        },
        _ => {},
    }
}

/// Putting tracks after the current one keeps the engine sound.
proof fn inserted_keeps_wf(s: EngineView, tracks: Seq<TrackMeta>, position: Duration)
    requires
        s.wf(),
        tracks.len() > 0,
        s.queue.len() + tracks.len() <= usize::MAX,
    ensures
        inserted_next(s, tracks, position).0.wf(),
{
    let n = s.queue.len();
    let at: usize = if n == 0 {
        0
    } else {
        (s.index + 1) as usize
    };
    let pos: int = if n == 0 {
        0
    } else {
        s.order_pos + 1
    };
    let count = tracks.len() as usize;
    let t = EngineView {
        play_order: crate::play_order::after_insert(s.play_order, at, count, pos),
        ..requeued(s, s.queue.take(at as int) + tracks + s.queue.skip(at as int))
    };
    crate::play_order::insert_keeps_order(s.play_order, n, at, count, pos);
    if !s.shuffle {
        assert(t.play_order =~= crate::play_order::identity(n + tracks.len()));
    }
    if nothing_playing(s) {
        start_keeps_wf(t, position, at);
    } else {
        assert(t.play_order[s.order_pos as int] == s.index);
    }
}

/// Taking a track out keeps the engine sound.
proof fn removed_keeps_wf(s: EngineView, r: usize, position: Duration)
    requires
        s.wf(),
    ensures
        removed(s, r, position).0.wf(),
{
    let n = s.queue.len();
    if r < n {
        crate::play_order::remove_keeps_order(s.play_order, n, r);
        let t = EngineView {
            play_order: crate::play_order::after_remove(s.play_order, r),
            ..requeued(s, s.queue.remove(r as int))
        };
        if !s.shuffle {
            crate::play_order::after_remove_takes_out_one(s.play_order, r as int, r);
            assert(t.play_order =~= crate::play_order::identity((n - 1) as nat));
        }
        if r != s.index {
            let index = crate::play_order::index_after_remove(s.index, r);
            order_place_finds(t.play_order, (n - 1) as nat, index, 0);
        } else if t.queue.len() > 0 {
            let i: usize = if r < t.queue.len() {
                r
            } else {
                (t.queue.len() - 1) as usize
            };
            start_keeps_wf(EngineView { current: None, loaded: false, ..t }, position, i);
        } else {
            emptied_is_wf(s);
        }
    }
}

/// Moving a track keeps the engine sound.
proof fn moved_keeps_wf(s: EngineView, from: usize, to: usize)
    requires
        s.wf(),
    ensures
        moved_track(s, from, to).wf(),
{
    let n = s.queue.len();
    if from < n && to < n && from != to {
        crate::play_order::move_keeps_order(s.play_order, n, from, to);
        let index = crate::play_order::remapped(s.index, from, to);
        order_place_finds(moved_track(s, from, to).play_order, n, index, 0);
    }
}

/// Going on keeps the engine sound.
proof fn advanced_keeps_wf(s: EngineView, position: Duration, fresh: Seq<usize>)
    requires
        s.wf(),
        wraps(s) && s.shuffle ==> crate::play_order::is_order(fresh, s.queue.len()),
    ensures
        advanced(s, position, fresh).0.wf(),
{
    if s.order_pos + 1 < s.queue.len() {
        start_keeps_wf(s, position, s.play_order[s.order_pos + 1]);
    } else if wraps(s) {
        let t = if s.shuffle {
            reordered(s, fresh)
        } else {
            s
        };
        start_keeps_wf(t, position, t.play_order[0]);
    }
}

/// Every look at the sink keeps the engine sound.
pub proof fn poll_keeps_wf(
    s: EngineView,
    ended: bool,
    position: Duration,
    spectrum: Option<Seq<u8>>,
    fresh: Seq<usize>,
)
    requires
        s.wf(),
        order_allowed(order_polled(s, ended), fresh),
    ensures
        polled(s, ended, position, spectrum, fresh).0.wf(),
{
    if s.loaded && ended && s.snapshot.status == Status::Playing {
        if s.repeat == RepeatMode::Track {
            start_keeps_wf(s, position, s.index);
        } else {
            advanced_keeps_wf(s, position, fresh);
        }
    }
}

impl EngineState {
    /// Carries out a command. `position` is how far the sink is, and `fresh` is
    /// the play order to take where the command makes one.
    pub fn apply(&mut self, command: Command, position: Duration, fresh: Vec<usize>) -> (effects:
        Vec<Effect>)
        requires
            old(self)@.wf(),
            order_allowed(order_made(old(self)@, command), fresh@),
        ensures
            (final(self)@, effects@) == step(old(self)@, command, position, fresh@),
            final(self)@.wf(),
    {
        let ghost before = self@;
        let ghost asked = command;
        let ghost order = fresh@;
        let mut out: Vec<Effect> = Vec::new();
        assert(out@ + step(before, asked, position, order).1 =~= step(
            before,
            asked,
            position,
            order,
        ).1);
        match command {
            Command::PlayQueue { tracks, start_index } => {
                let len: usize = tracks.len();
                self.play_queue(tracks, start_index, position, fresh, &mut out);
                assert(len == tracks@.len());
            },
            Command::PlayAt(i) => {
                if i < self.queue.len() {
                    self.start_playback_at(position, i, &mut out);
                }
            },
            Command::AppendQueue(tracks) => {
                self.append_queue(tracks, position, &mut out);
            },
            Command::PlayNext(tracks) => {
                self.play_next(tracks, position, &mut out);
            },
            Command::RemoveFromQueue(r) => {
                self.remove_from_queue(r, position, &mut out);
            },
            Command::MoveInQueue { from, to } => {
                self.move_in_queue(from, to);
            },
            Command::ClearQueue => {
                self.leave_track(position, &mut out);
                self.empty_out(&mut out);
                assert(self@ =~= emptied(before));
                assert(out@ =~= step(before, asked, position, order).1);
            },
            Command::Next => {
                self.go_on(position, fresh, &mut out);
            },
            Command::Previous => {
                self.go_back(position, &mut out);
            },
            Command::Pause => {
                if self.loaded {
                    out.push(Effect::PauseSink);
                    self.rest_spectrum();
                    self.set_status(Status::Paused, &mut out);
                }
                assert(out@ =~= step(before, asked, position, order).1);
            },
            Command::Resume => {
                if self.loaded {
                    out.push(Effect::ResumeSink);
                    self.set_status(Status::Playing, &mut out);
                }
                assert(out@ =~= step(before, asked, position, order).1);
            },
            Command::Stop => {
                self.leave_track(position, &mut out);
                self.rest_spectrum();
                self.set_status(Status::Stopped, &mut out);
                assert(self@ =~= step(before, asked, position, order).0);
                assert(out@ =~= step(before, asked, position, order).1);
            },
            Command::Seek(target) => {
                if self.loaded {
                    out.push(Effect::SeekSink { position: target });
                }
                assert(out@ =~= step(before, asked, position, order).1);
            },
            Command::SetVolume(volume) => {
                self.volume = volume;
                self.snapshot.volume = volume;
                if self.loaded {
                    let gain: Real64 = match &self.current {
                        Some(t) => t.replay_gain_db,
                        None => Real64::zero(),
                    };
                    out.push(Effect::SetSinkVolume { volume, gain });
                }
                assert(out@ =~= step(before, asked, position, order).1);
            },
            Command::CycleRepeat => {
                let next: RepeatMode = self.repeat.cycle();
                self.set_repeat(next);
            },
            Command::SetRepeat(repeat) => {
                self.set_repeat(repeat);
            },
            Command::ToggleShuffle => {
                let on: bool = !self.shuffle;
                self.set_shuffle(on, fresh);
            },
            Command::SetShuffle(on) => {
                if on != self.shuffle {
                    self.set_shuffle(on, fresh);
                }
            },
            Command::Shutdown => {
                if self.loaded {
                    out.push(Effect::StopSink);
                }
                self.loaded = false;
                out.push(Effect::Exit);
                assert(out@ =~= step(before, asked, position, order).1);
            },
        }
        proof {
            step_keeps_wf(before, asked, position, order);
        }
        out
    }

    /// Carries out a command. Where it makes a play order, that is a shuffled
    /// one, or the queue's own with shuffle off.
    pub fn handle(&mut self, command: Command, position: Duration) -> (effects: Vec<Effect>)
        requires
            old(self)@.wf(),
        ensures
            exists|fresh: Seq<usize>|
                order_allowed(order_made(old(self)@, command), fresh) && (final(self)@, effects@)
                    == #[trigger] step(old(self)@, command, position, fresh),
            final(self)@.wf(),
    {
        let fresh: Vec<usize> = match &command {
            Command::PlayQueue { tracks, .. } => shuffled_play_order(
                tracks.len(),
                self.shuffle,
                None,
            ),
            Command::Next => {
                if self.repeat == RepeatMode::Queue && self.shuffle && self.queue.len() > 0
                    && self.order_pos == self.queue.len() - 1 {
                    shuffled_play_order(self.queue.len(), true, None)
                } else {
                    Vec::new()
                }
            },
            Command::ToggleShuffle => shuffled_play_order(
                self.queue.len(),
                !self.shuffle,
                Some(self.index),
            ),
            Command::SetShuffle(on) => {
                if *on != self.shuffle {
                    shuffled_play_order(self.queue.len(), *on, Some(self.index))
                } else {
                    Vec::new()
                }
            },
            _ => Vec::new(),
        };
        self.apply(command, position, fresh)
    }

    /// Takes note of how opening a track went. Without a track that is being
    /// opened there is nothing to note.
    pub fn finish_load(&mut self, outcome: Result<(), String>) -> (effects: Vec<Effect>)
        requires
            old(self)@.wf(),
        ensures
            match (old(self)@.loading, outcome) {
                (None, _) => final(self)@ == old(self)@ && effects@.len() == 0,
                (Some(track), Ok(_)) => {
                    &&& final(self)@ == opened(old(self)@, track)
                    &&& effects@ == opened_effects(old(self)@, track)
                },
                (Some(track), Err(reason)) => {
                    &&& final(self)@ == open_failed(old(self)@)
                    &&& failure_told(effects@, reason@)
                },
            },
            final(self)@.wf(),
    {
        let ghost before = self@;
        let mut out: Vec<Effect> = Vec::new();
        let loading: Option<TrackMeta> = self.loading.clone();
        match loading {
            None => {},
            Some(track) => {
                self.loading = None;
                match outcome {
                    Ok(_) => {
                        out.push(
                            Effect::SetSinkVolume {
                                volume: self.volume,
                                gain: track.replay_gain_db,
                            },
                        );
                        out.push(
                            Effect::Scrobble { song_id: track.song_id.clone(), submission: false },
                        );
                        self.loaded = true;
                        self.current = Some(track.clone());
                        self.snapshot.position = Duration::zero();
                        self.snapshot.track = Some(track.clone());
                        self.snapshot.queue_index = self.index;
                        out.push(Effect::Notify(Event::TrackChanged));
                        self.set_status(Status::Playing, &mut out);
                        assert(self@ =~= opened(before, track));
                        assert(out@ =~= opened_effects(before, track));
                    },
                    Err(reason) => {
                        let message: String = "could not play track: ".to_owned().concat(
                            reason.as_str(),
                        );
                        out.push(Effect::Notify(Event::PlaybackError(message)));
                        self.current = None;
                        self.rest_spectrum();
                        self.set_status(Status::Stopped, &mut out);
                        assert(self@ =~= open_failed(before));
                    },
                }
            },
        }
        out
    }

    /// Takes note of how a seek went. One that worked is published; one that did
    /// not changes nothing.
    pub fn finish_seek(&mut self, position: Duration, worked: bool) -> (effects: Vec<Effect>)
        requires
            old(self)@.wf(),
        ensures
            final(self)@ == (if worked {
                sought(old(self)@, position)
            } else {
                old(self)@
            }),
            effects@ == (if worked {
                seq![Effect::Notify(Event::Seeked(position))]
            } else {
                Seq::empty()
            }),
            final(self)@.wf(),
    {
        let mut out: Vec<Effect> = Vec::new();
        if worked {
            self.rest_spectrum();
            self.snapshot.position = position;
            out.push(Effect::Notify(Event::Seeked(position)));
        }
        out
    }

    /// Takes note of a look at the sink: whether its track has ended, how far it
    /// is, and the spectrum, where there is one to show. `fresh` is the play
    /// order to take where the queue starts over shuffled.
    pub fn apply_poll(
        &mut self,
        ended: bool,
        position: Duration,
        spectrum: Option<Vec<u8>>,
        fresh: Vec<usize>,
    ) -> (effects: Vec<Effect>)
        requires
            old(self)@.wf(),
            order_allowed(order_polled(old(self)@, ended), fresh@),
        ensures
            (final(self)@, effects@) == polled(
                old(self)@,
                ended,
                position,
                spectrum_view(spectrum),
                fresh@,
            ),
            final(self)@.wf(),
    {
        let ghost before = self@;
        let ghost order = fresh@;
        let ghost bars = spectrum_view(spectrum);
        let mut out: Vec<Effect> = Vec::new();
        let playing: bool = self.snapshot.status == Status::Playing;
        assert(out@ + polled(before, ended, position, bars, order).1 =~= polled(
            before,
            ended,
            position,
            bars,
            order,
        ).1);
        if self.loaded {
            if ended && playing {
                let n: usize = self.queue.len();
                if self.repeat == RepeatMode::Track {
                    let i: usize = self.index;
                    self.start_playback_at(position, i, &mut out);
                } else if self.order_pos < n - 1 || self.repeat == RepeatMode::Queue {
                    self.go_on(position, fresh, &mut out);
                } else {
                    self.scrobble_outgoing(position, &mut out);
                    self.current = None;
                    self.rest_spectrum();
                    out.push(Effect::Notify(Event::QueueEnded));
                    self.set_status(Status::Stopped, &mut out);
                    assert(self@ =~= polled(before, ended, position, bars, order).0);
                    assert(out@ =~= polled(before, ended, position, bars, order).1);
                }
            } else {
                if playing {
                    match spectrum {
                        Some(shown) => {
                            self.snapshot.spectrum = shown;
                        },
                        None => {},
                    }
                }
                self.snapshot.position = position;
                assert(self@ =~= polled(before, ended, position, bars, order).0);
            }
        }
        proof {
            poll_keeps_wf(before, ended, position, bars, order);
        }
        out
    }

    /// Takes note of a look at the sink, shuffling the queue anew where it starts
    /// over shuffled.
    pub fn poll(&mut self, ended: bool, position: Duration, spectrum: Option<Vec<u8>>) -> (effects:
        Vec<Effect>)
        requires
            old(self)@.wf(),
        ensures
            exists|fresh: Seq<usize>|
                order_allowed(order_polled(old(self)@, ended), fresh) && (final(self)@, effects@)
                    == #[trigger] polled(
                    old(self)@,
                    ended,
                    position,
                    spectrum_view(spectrum),
                    fresh,
                ),
            final(self)@.wf(),
    {
        let len: usize = self.queue.len();
        let fresh: Vec<usize> = if self.loaded && ended && self.repeat == RepeatMode::Queue
            && self.shuffle && self.order_pos == len - 1 {
            shuffled_play_order(len, true, None)
        } else {
            Vec::new()
        };
        self.apply_poll(ended, position, spectrum, fresh)
    }
}

/// The bars of a spectrum, where there is one.
pub open spec fn spectrum_view(spectrum: Option<Vec<u8>>) -> Option<Seq<u8>> {
    match spectrum {
        Some(bars) => Some(bars@),
        None => None,
    }
}

/// Appending to a queue that plays interrupts nothing: no effect, the same
/// current track, and the play order goes on as before and then through the new
/// tracks, in the order they were given.
pub proof fn append_interrupts_nothing(
    s: EngineView,
    tracks: Vec<TrackMeta>,
    position: Duration,
    fresh: Seq<usize>,
)
    requires
        s.wf(),
        !nothing_playing(s),
        tracks_fit(s, Command::AppendQueue(tracks)),
    ensures
        ({
            let (t, effects) = step(s, Command::AppendQueue(tracks), position, fresh);
            &&& effects.len() == 0
            &&& t.index == s.index
            &&& t.order_pos == s.order_pos
            &&& t.current == s.current
            &&& t.loaded
            &&& t.snapshot.track == s.snapshot.track
            &&& t.snapshot.status == s.snapshot.status
            &&& t.snapshot.position == s.snapshot.position
            &&& t.queue == s.queue + tracks@
            &&& forall|p: int| 0 <= p < s.queue.len() ==> #[trigger] t.play_order[p] == s.play_order[p]
            &&& forall|k: int|
                0 <= k < tracks@.len() ==> #[trigger] t.queue[t.play_order[s.queue.len() + k] as int]
                    == tracks@[k]
        }),
{
    assert(s.queue + Seq::<TrackMeta>::empty() =~= s.queue);
    if tracks@.len() == 0 {
        assert(s.queue + tracks@ =~= s.queue);
    }
}

/// Appending while nothing plays starts the first new track.
pub proof fn append_starts_when_idle(
    s: EngineView,
    tracks: Vec<TrackMeta>,
    position: Duration,
    fresh: Seq<usize>,
)
    requires
        s.wf(),
        nothing_playing(s),
        tracks@.len() > 0,
        tracks_fit(s, Command::AppendQueue(tracks)),
    ensures
        ({
            let (t, effects) = step(s, Command::AppendQueue(tracks), position, fresh);
            &&& t.index == s.queue.len()
            &&& t.loading == Some(tracks@[0])
            &&& effects.last() == Effect::Load { track: tracks@[0] }
        }),
{
}

/// A track that is put next is what `Next` goes on to.
pub proof fn play_next_comes_next(
    s: EngineView,
    tracks: Vec<TrackMeta>,
    position: Duration,
    later: Duration,
    fresh: Seq<usize>,
)
    requires
        s.wf(),
        !nothing_playing(s),
        tracks@.len() > 0,
        tracks_fit(s, Command::PlayNext(tracks)),
    ensures
        ({
            let (t, quietly) = step(s, Command::PlayNext(tracks), position, fresh);
            let (u, effects) = step(t, Command::Next, later, fresh);
            &&& quietly.len() == 0
            &&& t.index == s.index
            &&& t.current == s.current
            &&& u.loading == Some(tracks@[0])
            &&& effects.last() == Effect::Load { track: tracks@[0] }
        }),
{
    let t = step(s, Command::PlayNext(tracks), position, fresh).0;
    inserted_keeps_wf(s, tracks@, position);
    assert(t.play_order[s.order_pos + 1] == s.index + 1);
    assert(t.queue[s.index + 1] == tracks@[0]);
}

/// A move has no effect on what plays: the current track stays current, and the
/// moved track stands at its new place.
pub proof fn move_keeps_what_plays(
    s: EngineView,
    from: usize,
    to: usize,
    position: Duration,
    fresh: Seq<usize>,
)
    requires
        s.wf(),
        from < s.queue.len(),
        to < s.queue.len(),
    ensures
        ({
            let (t, effects) = step(s, Command::MoveInQueue { from, to }, position, fresh);
            &&& effects.len() == 0
            &&& t.current == s.current
            &&& t.loaded == s.loaded
            &&& t.queue[t.index as int] == s.queue[s.index as int]
            &&& t.queue[to as int] == s.queue[from as int]
        }),
{
    if from != to {
        crate::play_order::move_takes_tracks_along(s.queue, from, to, s.index);
    }
}

/// With shuffle on, a move changes nothing about the order of play: it goes
/// through the same tracks as before, and stands at the same place.
pub proof fn shuffled_move_keeps_the_order(
    s: EngineView,
    from: usize,
    to: usize,
    position: Duration,
    fresh: Seq<usize>,
)
    requires
        s.wf(),
        s.shuffle,
        from < s.queue.len(),
        to < s.queue.len(),
    ensures
        ({
            let t = step(s, Command::MoveInQueue { from, to }, position, fresh).0;
            &&& t.order_pos == s.order_pos
            &&& order_tracks(t) == order_tracks(s)
        }),
{
    let t = moved_track(s, from, to);
    if from != to {
        moved_keeps_wf(s, from, to);
        assert(t.play_order[s.order_pos as int] == t.index);
        assert(t.play_order[t.order_pos as int] == t.index);
        assert forall|p: int| 0 <= p < s.queue.len() implies #[trigger] t.queue[t.play_order[p] as int]
            == s.queue[s.play_order[p] as int] by {
            crate::play_order::move_takes_tracks_along(s.queue, from, to, s.play_order[p]);
        }
        assert(order_tracks(t) =~= order_tracks(s));
    }
}

/// With shuffle off, a move is a move in the order of play too: `Next` goes on to
/// what follows the current track in the queue as it then stands.
pub proof fn unshuffled_move_is_followed(
    s: EngineView,
    from: usize,
    to: usize,
    position: Duration,
    fresh: Seq<usize>,
)
    requires
        s.wf(),
        !s.shuffle,
        from < s.queue.len(),
        to < s.queue.len(),
    ensures
        ({
            let t = step(s, Command::MoveInQueue { from, to }, position, fresh).0;
            let (u, effects) = step(t, Command::Next, position, fresh);
            &&& t.queue == crate::play_order::moved(s.queue, from as int, to as int)
            &&& t.index == crate::play_order::remapped(s.index, from, to)
            &&& t.play_order == crate::play_order::identity(s.queue.len())
            &&& t.order_pos == t.index
            &&& t.index + 1 < t.queue.len() ==> u.index == t.index + 1
            &&& t.index + 1 == t.queue.len() && t.repeat != RepeatMode::Queue ==> u == t
                && effects.len() == 0
            &&& t.index + 1 == t.queue.len() && t.repeat == RepeatMode::Queue ==> u.index == 0
        }),
{
    let t = moved_track(s, from, to);
    moved_keeps_wf(s, from, to);
    assert(t.play_order[t.order_pos as int] == t.index);
    if from == to {
        assert(t.queue =~= crate::play_order::moved(s.queue, from as int, to as int));
    }
}

/// Moving a track back where it came from undoes the move.
pub proof fn moving_back_restores(s: EngineView, from: usize, to: usize)
    requires
        s.wf(),
        from < s.queue.len(),
        to < s.queue.len(),
    ensures
        moved_track(moved_track(s, from, to), to, from) == s,
{
    let t = moved_track(s, from, to);
    let u = moved_track(t, to, from);
    if from != to {
        moved_keeps_wf(s, from, to);
        moved_keeps_wf(t, to, from);
        crate::play_order::move_back_undoes_move(s.queue, from, to);
        assert(u.play_order =~= s.play_order);
        assert(u.play_order[u.order_pos as int] == s.play_order[s.order_pos as int]);
        assert(u =~= s);
    }
}

/// Removing a track other than the current one has no effect on what plays, and
/// the rest of the play order goes through the same tracks as before.
pub proof fn removing_another_keeps_what_plays(
    s: EngineView,
    r: usize,
    position: Duration,
    fresh: Seq<usize>,
)
    requires
        s.wf(),
        r < s.queue.len(),
        r != s.index,
    ensures
        ({
            let (t, effects) = step(s, Command::RemoveFromQueue(r), position, fresh);
            &&& effects.len() == 0
            &&& t.current == s.current
            &&& t.loaded == s.loaded
            &&& t.queue == s.queue.remove(r as int)
            &&& t.queue[t.index as int] == s.queue[s.index as int]
            &&& exists|p: int|
                {
                    &&& 0 <= p < s.queue.len()
                    &&& s.play_order[p] == r
                    &&& order_tracks(t) == #[trigger] order_tracks(s).remove(p)
                }
        }),
{
    let t = removed(s, r, position).0;
    let n = s.queue.len();
    removed_keeps_wf(s, r, position);
    assert(s.play_order.contains(r));
    let p = choose|p: int| 0 <= p < n && s.play_order[p] == r;
    crate::play_order::after_remove_takes_out_one(s.play_order, p, r);
    assert(order_tracks(t) =~= order_tracks(s).remove(p));
}

/// The queue's tracks in the play order.
pub open spec fn order_tracks(s: EngineView) -> Seq<TrackMeta> {
    s.play_order.map_values(|i: usize| s.queue[i as int])
}

/// Turning shuffle on or off has no effect on what plays. Turned on, the current
/// track is the first of the new order; turned off, the order is the queue's own.
pub proof fn toggling_shuffle_keeps_what_plays(s: EngineView, position: Duration, fresh: Seq<usize>)
    requires
        s.wf(),
        s.queue.len() > 0,
        order_allowed(order_made(s, Command::ToggleShuffle), fresh),
    ensures
        ({
            let (t, effects) = step(s, Command::ToggleShuffle, position, fresh);
            &&& effects.len() == 0
            &&& t.queue == s.queue
            &&& t.index == s.index
            &&& t.current == s.current
            &&& t.loaded == s.loaded
            &&& t.shuffle == !s.shuffle
            &&& t.shuffle ==> t.order_pos == 0
            &&& !t.shuffle ==> t.play_order == crate::play_order::identity(s.queue.len())
                && t.order_pos == s.index
        }),
{
    let t = step(s, Command::ToggleShuffle, position, fresh).0;
    step_keeps_wf(s, Command::ToggleShuffle, position, fresh);
    crate::play_order::place_in_is_first(fresh, s.index);
    if t.shuffle {
        assert(t.play_order[0] == s.index);
        assert(t.play_order[t.order_pos as int] == s.index);
    }
}

/// `Next` on the last track of a queue that does not repeat does nothing.
pub proof fn next_at_the_end_does_nothing(s: EngineView, position: Duration, fresh: Seq<usize>)
    requires
        s.wf(),
        s.order_pos + 1 >= s.queue.len(),
        s.repeat != RepeatMode::Queue,
    ensures
        step(s, Command::Next, position, fresh) == (s, Seq::<Effect>::empty()),
{
}

/// `Next` on the last track of a queue that repeats, unshuffled, starts the
/// first track.
pub proof fn next_starts_a_repeating_queue_over(
    s: EngineView,
    position: Duration,
    fresh: Seq<usize>,
)
    requires
        s.wf(),
        wraps(s),
        !s.shuffle,
    ensures
        step(s, Command::Next, position, fresh).0.index == 0,
        step(s, Command::Next, position, fresh).0.order_pos == 0,
{
    let t = step(s, Command::Next, position, fresh).0;
    advanced_keeps_wf(s, position, fresh);
    assert(t.play_order[0] == t.index);
    assert(t.play_order[t.order_pos as int] == t.index);
}

/// Repeating one track is for its natural end: `Next` goes on as if nothing
/// repeated.
pub proof fn next_ignores_track_repeat(s: EngineView, position: Duration, fresh: Seq<usize>)
    requires
        s.wf(),
        s.repeat == RepeatMode::Track,
    ensures
        ({
            let (t, effects) = step(s, Command::Next, position, fresh);
            let (u, others) = step(repeat_set(s, RepeatMode::Off), Command::Next, position, fresh);
            &&& effects == others
            &&& t == repeat_set(u, RepeatMode::Track)
        }),
{
    let (t, effects) = step(s, Command::Next, position, fresh);
    let (u, others) = step(repeat_set(s, RepeatMode::Off), Command::Next, position, fresh);
    assert(t =~= repeat_set(u, RepeatMode::Track));
}

/// A track that repeats is followed by itself.
pub proof fn repeating_track_follows_itself(
    s: EngineView,
    position: Duration,
    spectrum: Option<Seq<u8>>,
    fresh: Seq<usize>,
)
    requires
        s.wf(),
        s.loaded,
        s.snapshot.status == Status::Playing,
        s.repeat == RepeatMode::Track,
    ensures
        polled(s, true, position, spectrum, fresh).0.index == s.index,
        polled(s, true, position, spectrum, fresh).0.loading == Some(s.queue[s.index as int]),
{
}

/// Going on and then back, early in the new track, returns to the track that was
/// left.
pub proof fn previous_undoes_next(
    s: EngineView,
    position: Duration,
    later: Duration,
    fresh: Seq<usize>,
)
    requires
        s.wf(),
        s.order_pos + 1 < s.queue.len(),
        later.nanos <= RESTART_THRESHOLD_SECS * NANOS_PER_SEC,
    ensures
        ({
            let t = step(s, Command::Next, position, fresh).0;
            let u = step(opened(t, t.loading->0), Command::Previous, later, fresh).0;
            &&& u.index == s.index
            &&& u.order_pos == s.order_pos
            &&& u.loading == Some(s.queue[s.index as int])
        }),
{
    let t = step(s, Command::Next, position, fresh).0;
    advanced_keeps_wf(s, position, fresh);
    assert(t.play_order[s.order_pos + 1] == t.index);
    assert(t.play_order[t.order_pos as int] == t.index);
    let o = opened(t, t.loading->0);
    start_keeps_wf(o, later, s.index);
    let u = step(o, Command::Previous, later, fresh).0;
    assert(u.play_order[u.order_pos as int] == s.play_order[s.order_pos as int]);
}

/// Starting a track of the queue, whether or not it opens, makes it the current
/// one, in the queue and in the play order, and changes neither. Where it does
/// not open, there is no sink, and playback has stopped.
pub proof fn started_track_is_current(s: EngineView, position: Duration, i: usize)
    requires
        s.wf(),
        i < s.queue.len(),
    ensures
        ({
            let (t, effects) = started(s, position, i);
            let plays = opened(t, s.queue[i as int]);
            let fails = open_failed(t);
            &&& t.wf() && plays.wf() && fails.wf()
            &&& t.loading == Some(s.queue[i as int])
            &&& effects.last() == Effect::Load { track: s.queue[i as int] }
            &&& t.queue == s.queue && plays.queue == s.queue && fails.queue == s.queue
            &&& t.play_order == s.play_order
            &&& plays.play_order == s.play_order
            &&& fails.play_order == s.play_order
            &&& plays.index == i && s.play_order[plays.order_pos as int] == i
            &&& fails.index == i && s.play_order[fails.order_pos as int] == i
            &&& plays.snapshot.queue_index == i && fails.snapshot.queue_index == i
            &&& plays.current == Some(s.queue[i as int]) && plays.loaded
            &&& plays.snapshot.status == Status::Playing
            &&& fails.current is None && !fails.loaded && fails.loading is None
            &&& fails.snapshot.status == Status::Stopped
        }),
{
    start_keeps_wf(s, position, i);
    order_place_finds(s.play_order, s.queue.len(), i, i);
}

/// Whether there is a track to what the snapshot says: one that plays or is
/// paused has a sink, or is being opened.
pub open spec fn status_holds(s: EngineView) -> bool {
    s.snapshot.status != Status::Stopped ==> s.loaded || s.loading is Some
}

/// No command but the one that ends the engine leaves it saying that something
/// plays while nothing does.
pub proof fn playing_needs_a_track(
    s: EngineView,
    command: Command,
    position: Duration,
    fresh: Seq<usize>,
)
    requires
        s.wf(),
        status_holds(s),
        order_allowed(order_made(s, command), fresh),
        tracks_fit(s, command),
        command != Command::Shutdown,
    ensures
        status_holds(step(s, command, position, fresh).0),
{
    match command {
        Command::RemoveFromQueue(r) => {
            assert(status_holds(removed(s, r, position).0));
        },
        Command::MoveInQueue { from, to } => {
            assert(status_holds(moved_track(s, from, to)));
        },
        Command::Next => {
            assert(status_holds(advanced(s, position, fresh).0));
        },
        Command::Previous => {
            assert(status_holds(went_back(s, position).0));
        },
        _ => {},
    }
}

/// A look at the sink never leaves the engine saying that something plays while
/// nothing does.
pub proof fn polling_needs_a_track(
    s: EngineView,
    ended: bool,
    position: Duration,
    spectrum: Option<Seq<u8>>,
    fresh: Seq<usize>,
)
    requires
        s.wf(),
        status_holds(s),
        order_allowed(order_polled(s, ended), fresh),
    ensures
        status_holds(polled(s, ended, position, spectrum, fresh).0),
{
    if s.loaded && ended && s.snapshot.status == Status::Playing {
        assert(status_holds(advanced(s, position, fresh).0));
    }
}

/// Replacing the queue by nothing stops whatever plays, and says so.
pub proof fn playing_no_tracks_stops(
    s: EngineView,
    tracks: Vec<TrackMeta>,
    start_index: usize,
    position: Duration,
    fresh: Seq<usize>,
)
    requires
        s.wf(),
        tracks@.len() == 0,
    ensures
        ({
            let (t, effects) = step(s, Command::PlayQueue { tracks, start_index }, position, fresh);
            &&& t.queue.len() == 0
            &&& !t.loaded
            &&& t.current is None
            &&& t.loading is None
            &&& t.snapshot.status == Status::Stopped
            &&& at_rest(t.snapshot.spectrum)
            &&& s.loaded ==> effects.contains(Effect::StopSink)
            &&& s.snapshot.status != Status::Stopped ==> effects.last() == Effect::Notify(
                Event::StatusChanged(Status::Stopped),
            )
        }),
{
    let effects = step(s, Command::PlayQueue { tracks, start_index }, position, fresh).1;
    let here = current_position(s, position);
    if s.loaded {
        assert(effects[scrobbled(s.current, here).len() as int] == Effect::StopSink);
    }
}

/// Clearing leaves nothing in the queue and nothing playing.
pub proof fn clear_leaves_nothing(s: EngineView, position: Duration, fresh: Seq<usize>)
    requires
        s.wf(),
    ensures
        ({
            let (t, effects) = step(s, Command::ClearQueue, position, fresh);
            &&& t.queue.len() == 0
            &&& t.current is None
            &&& !t.loaded
            &&& t.snapshot.track is None
            &&& t.snapshot.queue.len() == 0
            &&& t.snapshot.status == Status::Stopped
            &&& s.loaded ==> effects.contains(Effect::StopSink)
        }),
{
    let effects = step(s, Command::ClearQueue, position, fresh).1;
    if s.loaded {
        let stop = track_left(s, position).len() - 1;
        assert(effects[stop] == Effect::StopSink);
    }
}

/// Removing the current track, while others are left, starts the one that then
/// stands in its place, or the last.
pub proof fn removing_the_current_goes_on(s: EngineView, position: Duration, fresh: Seq<usize>)
    requires
        s.wf(),
        s.queue.len() > 1,
    ensures
        ({
            let (t, effects) = step(s, Command::RemoveFromQueue(s.index), position, fresh);
            let rest = s.queue.remove(s.index as int);
            let i = if s.index < rest.len() {
                s.index as int
            } else {
                rest.len() - 1
            };
            &&& t.queue == rest
            &&& t.index == i
            &&& effects.last() == Effect::Load { track: rest[i] }
        }),
{
}

/// Stopping is not the end of the queue: what is appended then starts at once.
pub proof fn append_after_stop_starts(
    s: EngineView,
    tracks: Vec<TrackMeta>,
    position: Duration,
    fresh: Seq<usize>,
)
    requires
        s.wf(),
        tracks@.len() > 0,
        tracks_fit(s, Command::AppendQueue(tracks)),
    ensures
        ({
            let t = step(s, Command::Stop, position, fresh).0;
            step(t, Command::AppendQueue(tracks), position, fresh).1.last() == Effect::Load {
                track: tracks@[0],
            }
        }),
{
    step_keeps_wf(s, Command::Stop, position, fresh);
    append_starts_when_idle(
        step(s, Command::Stop, position, fresh).0,
        tracks,
        position,
        fresh,
    );
}

/// A queue that has played to its end is not lost: what is appended then starts
/// at once.
pub proof fn append_after_the_end_starts(
    s: EngineView,
    tracks: Vec<TrackMeta>,
    position: Duration,
    spectrum: Option<Seq<u8>>,
    fresh: Seq<usize>,
)
    requires
        s.wf(),
        s.loaded,
        s.snapshot.status == Status::Playing,
        s.repeat == RepeatMode::Off,
        s.order_pos + 1 >= s.queue.len(),
        tracks@.len() > 0,
        tracks_fit(s, Command::AppendQueue(tracks)),
    ensures
        ({
            let t = polled(s, true, position, spectrum, fresh).0;
            &&& t.snapshot.status == Status::Stopped
            &&& t.queue == s.queue
            &&& step(t, Command::AppendQueue(tracks), position, fresh).1.last() == Effect::Load {
                track: tracks@[0],
            }
        }),
{
    poll_keeps_wf(s, true, position, spectrum, fresh);
    append_starts_when_idle(
        polled(s, true, position, spectrum, fresh).0,
        tracks,
        position,
        fresh,
    );
}

/// A track that ends by itself is followed by the next of the play order, just as if
/// the user had asked for it.
pub proof fn ended_track_is_followed_by_the_next(
    s: EngineView,
    position: Duration,
    spectrum: Option<Seq<u8>>,
    fresh: Seq<usize>,
)
    requires
        s.wf(),
        s.loaded,
        s.snapshot.status == Status::Playing,
        s.repeat != RepeatMode::Track,
        s.order_pos + 1 < s.queue.len(),
    ensures
        ({
            let (t, effects) = polled(s, true, position, spectrum, fresh);
            let next = s.play_order[s.order_pos + 1];
            &&& t.order_pos == s.order_pos + 1
            &&& t.index == next
            &&& t.queue == s.queue
            &&& t.play_order == s.play_order
            &&& t.loading == Some(s.queue[next as int])
            &&& effects.last() == Effect::Load { track: s.queue[next as int] }
            &&& (t, effects) == step(s, Command::Next, position, fresh)
        }),
{
    next_goes_on_in_order(s, position, fresh);
}

/// `Next` goes on by one track of the play order, whatever repeats.
pub proof fn next_goes_on_in_order(s: EngineView, position: Duration, fresh: Seq<usize>)
    requires
        s.wf(),
        s.order_pos + 1 < s.queue.len(),
    ensures
        ({
            let (t, effects) = step(s, Command::Next, position, fresh);
            let next = s.play_order[s.order_pos + 1];
            &&& t.order_pos == s.order_pos + 1
            &&& t.index == next
            &&& t.queue == s.queue
            &&& t.play_order == s.play_order
            &&& t.loading == Some(s.queue[next as int])
            &&& effects.last() == Effect::Load { track: s.queue[next as int] }
            &&& s.loaded ==> effects.contains(Effect::StopSink)
        }),
{
    let (t, effects) = step(s, Command::Next, position, fresh);
    advanced_keeps_wf(s, position, fresh);
    assert(t.play_order[s.order_pos + 1] == t.index);
    assert(t.play_order[t.order_pos as int] == t.index);
    if s.loaded {
        assert(effects[effects.len() - 2] == Effect::StopSink);
    }
}

/// `Previous`, early in a track that is not the first, goes back by one track of the
/// play order. Else it starts the current track over, which then stays.
pub proof fn previous_goes_back_or_restarts(s: EngineView, position: Duration, fresh: Seq<usize>)
    requires
        s.wf(),
        s.loaded,
    ensures
        ({
            let (t, effects) = step(s, Command::Previous, position, fresh);
            &&& position.nanos <= 3_000_000_000 && s.order_pos > 0 ==> {
                let before = s.play_order[s.order_pos - 1];
                &&& t.order_pos == s.order_pos - 1
                &&& t.index == before
                &&& t.loading == Some(s.queue[before as int])
                &&& effects.last() == Effect::Load { track: s.queue[before as int] }
            }
            &&& position.nanos > 3_000_000_000 || s.order_pos == 0 ==> {
                &&& t.index == s.index
                &&& t.order_pos == s.order_pos
                &&& t.current == s.current
                &&& t.loaded
                &&& t.loading == s.loading
                &&& t.snapshot.status == s.snapshot.status
                &&& t.snapshot.position.nanos == 0
                &&& effects.last() == Effect::RestartSink
            }
            &&& t.queue == s.queue
            &&& t.play_order == s.play_order
        }),
{
    let t = step(s, Command::Previous, position, fresh).0;
    if position.nanos <= 3_000_000_000 && s.order_pos > 0 {
        start_keeps_wf(s, position, s.play_order[s.order_pos - 1]);
        assert(t.play_order[s.order_pos - 1] == t.index);
        assert(t.play_order[t.order_pos as int] == t.index);
    }
}

/// The last track of a play order that ends by itself is followed by the first one of
/// the queue where the queue repeats unshuffled, by the first of a fresh order where it
/// repeats shuffled, and by nothing where it does not repeat: then playback stops, the
/// queue stays, and both are told.
pub proof fn ended_queue_repeats_or_stops(
    s: EngineView,
    position: Duration,
    spectrum: Option<Seq<u8>>,
    fresh: Seq<usize>,
)
    requires
        s.wf(),
        s.loaded,
        s.snapshot.status == Status::Playing,
        s.order_pos + 1 == s.queue.len(),
        order_allowed(order_polled(s, true), fresh),
    ensures
        ({
            let (t, effects) = polled(s, true, position, spectrum, fresh);
            &&& t.queue == s.queue
            &&& s.repeat == RepeatMode::Queue && !s.shuffle ==> {
                &&& t.index == 0
                &&& t.order_pos == 0
                &&& effects.last() == Effect::Load { track: s.queue[0] }
            }
            &&& s.repeat == RepeatMode::Queue && s.shuffle ==> {
                &&& t.play_order == fresh
                &&& t.order_pos == 0
                &&& t.index == fresh[0]
                &&& effects.last() == Effect::Load { track: s.queue[fresh[0] as int] }
            }
            &&& s.repeat == RepeatMode::Off ==> {
                &&& t.snapshot.status == Status::Stopped
                &&& t.current is None
                &&& t.loading is None == s.loading is None
                &&& t.index == s.index
                &&& effects.contains(Effect::Notify(Event::QueueEnded))
                &&& effects.last() == Effect::Notify(Event::StatusChanged(Status::Stopped))
                &&& forall|k: int| 0 <= k < effects.len() ==> !(#[trigger] effects[k] is Load)
            }
        }),
{
    let (t, effects) = polled(s, true, position, spectrum, fresh);
    poll_keeps_wf(s, true, position, spectrum, fresh);
    if s.repeat == RepeatMode::Queue {
        assert(t.play_order[0] == t.index);
        assert(t.play_order[t.order_pos as int] == t.index);
    } else if s.repeat == RepeatMode::Off {
        assert(effects[effects.len() - 2] == Effect::Notify(Event::QueueEnded));
    }
}

/// A new queue is taken as it was given, and starts with the track that was chosen, or
/// with its last one where the choice is past the end.
pub proof fn new_queue_starts_where_chosen(
    s: EngineView,
    tracks: Vec<TrackMeta>,
    start_index: usize,
    position: Duration,
    fresh: Seq<usize>,
)
    requires
        s.wf(),
        0 < tracks@.len() <= usize::MAX,
        order_allowed(order_made(s, Command::PlayQueue { tracks, start_index }), fresh),
    ensures
        ({
            let (t, effects) = step(s, Command::PlayQueue { tracks, start_index }, position, fresh);
            let i = if start_index < tracks@.len() {
                start_index as int
            } else {
                tracks@.len() - 1
            };
            &&& t.queue == tracks@
            &&& t.snapshot.queue == tracks@
            &&& t.snapshot.queue_len == tracks@.len()
            &&& t.index == i
            &&& t.snapshot.queue_index == i
            &&& t.play_order[t.order_pos as int] == i
            &&& !s.shuffle ==> t.order_pos == i
            &&& t.loading == Some(tracks@[i])
            &&& effects.last() == Effect::Load { track: tracks@[i] }
            &&& s.loaded ==> effects.contains(Effect::StopSink)
        }),
{
    let (t, effects) = step(s, Command::PlayQueue { tracks, start_index }, position, fresh);
    step_keeps_wf(s, Command::PlayQueue { tracks, start_index }, position, fresh);
    if s.loaded {
        assert(effects[effects.len() - 2] == Effect::StopSink);
    }
}

/// Jumping to a track of the queue starts it and changes nothing about the queue; a
/// place past the queue is no place to jump to.
pub proof fn jump_starts_that_track(s: EngineView, i: usize, position: Duration, fresh: Seq<usize>)
    requires
        s.wf(),
    ensures
        ({
            let (t, effects) = step(s, Command::PlayAt(i), position, fresh);
            &&& i < s.queue.len() ==> {
                &&& t.index == i
                &&& t.play_order[t.order_pos as int] == i
                &&& t.loading == Some(s.queue[i as int])
                &&& effects.last() == Effect::Load { track: s.queue[i as int] }
                &&& t.queue == s.queue
                &&& t.play_order == s.play_order
            }
            &&& i >= s.queue.len() ==> t == s && effects.len() == 0
        }),
{
    if i < s.queue.len() {
        start_keeps_wf(s, position, i);
    }
}

/// Pausing and resuming a track touches nothing but the sink, the status and the
/// spectrum; without a sink they do nothing.
pub proof fn pause_and_resume_touch_the_sink(s: EngineView, position: Duration, fresh: Seq<usize>)
    requires
        s.wf(),
    ensures
        ({
            let (t, paused) = step(s, Command::Pause, position, fresh);
            let (u, resumed) = step(s, Command::Resume, position, fresh);
            &&& s.loaded ==> {
                &&& paused == seq![
                    Effect::PauseSink,
                    Effect::Notify(Event::StatusChanged(Status::Paused)),
                ]
                &&& t.snapshot.status == Status::Paused
                &&& t.loaded && t.current == s.current && t.index == s.index && t.queue == s.queue
                &&& t.snapshot.track == s.snapshot.track
                &&& t.snapshot.position == s.snapshot.position
                &&& resumed == seq![
                    Effect::ResumeSink,
                    Effect::Notify(Event::StatusChanged(Status::Playing)),
                ]
                &&& u.snapshot.status == Status::Playing
                &&& u.loaded && u.current == s.current && u.index == s.index && u.queue == s.queue
                &&& u.snapshot.track == s.snapshot.track
                &&& u.snapshot.position == s.snapshot.position
            }
            &&& !s.loaded ==> t == s && u == s && paused.len() == 0 && resumed.len() == 0
        }),
{
}

/// Stopping lets go of the sink and says so; the queue and the place in it stay.
pub proof fn stop_keeps_the_queue(s: EngineView, position: Duration, fresh: Seq<usize>)
    requires
        s.wf(),
    ensures
        ({
            let (t, effects) = step(s, Command::Stop, position, fresh);
            &&& t.snapshot.status == Status::Stopped
            &&& !t.loaded
            &&& t.current is None
            &&& t.queue == s.queue
            &&& t.index == s.index
            &&& t.play_order == s.play_order
            &&& t.order_pos == s.order_pos
            &&& s.loaded ==> effects.contains(Effect::StopSink)
            &&& effects.last() == Effect::Notify(Event::StatusChanged(Status::Stopped))
        }),
{
    let effects = step(s, Command::Stop, position, fresh).1;
    if s.loaded {
        assert(effects[effects.len() - 2] == Effect::StopSink);
    }
}

/// Seeking asks the sink and nothing else; what it did is published once it worked.
/// The volume is published at once, and reaches a sink together with the gain of the
/// track that it plays.
pub proof fn seek_and_volume_reach_the_sink(
    s: EngineView,
    target: Duration,
    volume: Real32,
    position: Duration,
    fresh: Seq<usize>,
)
    requires
        s.wf(),
    ensures
        ({
            let (t, asked) = step(s, Command::Seek(target), position, fresh);
            let (u, told) = step(s, Command::SetVolume(volume), position, fresh);
            &&& t == s
            &&& s.loaded ==> asked == seq![Effect::SeekSink { position: target }]
            &&& !s.loaded ==> asked.len() == 0
            &&& sought(s, target).snapshot.position == target
            &&& sought(s, target).snapshot.status == s.snapshot.status
            &&& sought(s, target).index == s.index
            &&& u.volume == volume && u.snapshot.volume == volume
            &&& u.queue == s.queue && u.index == s.index && u.loaded == s.loaded
            &&& s.loaded && s.current is Some ==> told == seq![
                Effect::SetSinkVolume { volume, gain: s.current->0.replay_gain_db },
            ]
            &&& !s.loaded ==> told.len() == 0
        }),
{
}

/// The repeat modes follow each other round: off, one track, the whole queue. A mode
/// that is set, or come to, is published, and nothing else changes.
pub proof fn repeat_modes_go_round(
    s: EngineView,
    repeat: RepeatMode,
    position: Duration,
    fresh: Seq<usize>,
)
    requires
        s.wf(),
    ensures
        ({
            let (t, effects) = step(s, Command::CycleRepeat, position, fresh);
            let (u, others) = step(s, Command::SetRepeat(repeat), position, fresh);
            &&& s.repeat == RepeatMode::Off ==> t.repeat == RepeatMode::Track
            &&& s.repeat == RepeatMode::Track ==> t.repeat == RepeatMode::Queue
            &&& s.repeat == RepeatMode::Queue ==> t.repeat == RepeatMode::Off
            &&& t.snapshot.repeat == t.repeat
            &&& u.repeat == repeat && u.snapshot.repeat == repeat
            &&& effects.len() == 0 && others.len() == 0
            &&& t.queue == s.queue && t.index == s.index && t.shuffle == s.shuffle
            &&& t.current == s.current && t.loaded == s.loaded && t.play_order == s.play_order
            &&& u.queue == s.queue && u.index == s.index && u.shuffle == s.shuffle
            &&& u.current == s.current && u.loaded == s.loaded && u.play_order == s.play_order
        }),
{
}

/// Setting shuffle to what it is does nothing; setting it to the other is toggling it.
pub proof fn setting_shuffle_is_toggling_it(
    s: EngineView,
    on: bool,
    position: Duration,
    fresh: Seq<usize>,
)
    requires
        s.wf(),
    ensures
        ({
            let (t, effects) = step(s, Command::SetShuffle(on), position, fresh);
            &&& on == s.shuffle ==> t == s && effects.len() == 0
            &&& on != s.shuffle ==> (t, effects) == step(
                s,
                Command::ToggleShuffle,
                position,
                fresh,
            )
            &&& t.shuffle == on
            &&& t.snapshot.shuffle == on
        }),
{
}

/// A track is recorded as played when it is left past its threshold, by whatever way it
/// is left, and not otherwise: half of it, or four minutes, have to have been heard.
pub proof fn leaving_a_track_records_it(
    s: EngineView,
    track: TrackMeta,
    length: Duration,
    i: usize,
    position: Duration,
    fresh: Seq<usize>,
)
    requires
        s.wf(),
        s.loaded,
        s.current == Some(track),
        track.song_id@.len() > 0,
        track.duration == Some(length),
        length.nanos > 0,
        i < s.queue.len(),
    ensures
        ({
            let play = Effect::Scrobble { song_id: track.song_id, submission: true };
            let heard = 2 * position.nanos >= length.nanos || position.nanos >= 240_000_000_000;
            let skipped = 2 * position.nanos + 1 < length.nanos && position.nanos
                < 240_000_000_000;
            let jump = step(s, Command::PlayAt(i), position, fresh).1;
            let stop = step(s, Command::Stop, position, fresh).1;
            let clear = step(s, Command::ClearQueue, position, fresh).1;
            let next = step(s, Command::Next, position, fresh).1;
            &&& heard ==> jump[0] == play && stop[0] == play && clear[0] == play
            &&& heard && s.order_pos + 1 < s.queue.len() ==> next[0] == play
            &&& skipped ==> !jump.contains(play) && !stop.contains(play) && !clear.contains(play)
                && !next.contains(play)
        }),
{
    crate::playback::play_counts_from_half_way(track, length, position);
    if 2 * position.nanos + 1 < length.nanos && position.nanos < 240_000_000_000 {
        assert(scrobbled(s.current, position) =~= Seq::<Effect>::empty());
    }
}

/// A track that has opened plays from its start, is published with its place, and is
/// reported as now playing, not as played.
pub proof fn opened_track_is_announced(s: EngineView, track: TrackMeta)
    ensures
        ({
            let t = opened(s, track);
            let effects = opened_effects(s, track);
            &&& t.loaded && t.loading is None && t.current == Some(track)
            &&& t.snapshot.status == Status::Playing
            &&& t.snapshot.track == Some(track)
            &&& t.snapshot.position.nanos == 0
            &&& t.snapshot.queue_index == s.index
            &&& t.queue == s.queue
            &&& effects.contains(Effect::Scrobble { song_id: track.song_id, submission: false })
            &&& effects.contains(
                Effect::SetSinkVolume { volume: s.volume, gain: track.replay_gain_db },
            )
            &&& effects.contains(Effect::Notify(Event::TrackChanged))
            &&& effects.contains(Effect::Notify(Event::StatusChanged(Status::Playing)))
            &&& effects.len() == 4
        }),
{
    let effects = opened_effects(s, track);
    assert(effects[0] == Effect::SetSinkVolume { volume: s.volume, gain: track.replay_gain_db });
    assert(effects[1] == Effect::Scrobble { song_id: track.song_id, submission: false });
    assert(effects[2] == Effect::Notify(Event::TrackChanged));
    assert(effects[3] == Effect::Notify(Event::StatusChanged(Status::Playing)));
}

/// A look at a track that has not ended publishes how far it is, and its spectrum while
/// it plays, and does nothing else; without a sink there is nothing to look at.
pub proof fn look_publishes_the_position(
    s: EngineView,
    ended: bool,
    position: Duration,
    bars: Seq<u8>,
    fresh: Seq<usize>,
)
    requires
        s.wf(),
    ensures
        ({
            let (t, effects) = polled(s, ended, position, Some(bars), fresh);
            &&& !s.loaded ==> t == s && effects.len() == 0
            &&& s.loaded && (!ended || s.snapshot.status != Status::Playing) ==> {
                &&& effects.len() == 0
                &&& t.snapshot.position == position
                &&& t.snapshot.spectrum == (if s.snapshot.status == Status::Playing {
                    bars
                } else {
                    s.snapshot.spectrum
                })
                &&& t.snapshot.status == s.snapshot.status
                &&& t.snapshot.track == s.snapshot.track
                &&& t.queue == s.queue && t.index == s.index && t.order_pos == s.order_pos
                &&& t.current == s.current && t.loaded && t.loading == s.loading
            }
        }),
{
}

/// Tracks that are put next while nothing plays start at once, with the first of them,
/// and stand behind the current place of the queue.
pub proof fn play_next_starts_when_idle(
    s: EngineView,
    tracks: Vec<TrackMeta>,
    position: Duration,
    fresh: Seq<usize>,
)
    requires
        s.wf(),
        !s.loaded || s.snapshot.status == Status::Stopped,
        tracks@.len() > 0,
        s.queue.len() + tracks@.len() <= usize::MAX,
    ensures
        ({
            let (t, effects) = step(s, Command::PlayNext(tracks), position, fresh);
            let at = if s.queue.len() == 0 {
                0
            } else {
                s.index + 1
            };
            &&& t.queue.len() == s.queue.len() + tracks@.len()
            &&& t.index == at
            &&& forall|k: int| 0 <= k < at ==> #[trigger] t.queue[k] == s.queue[k]
            &&& forall|k: int| 0 <= k < tracks@.len() ==> #[trigger] t.queue[at + k] == tracks@[k]
            &&& forall|k: int|
                at <= k < s.queue.len() ==> t.queue[k + tracks@.len()] == #[trigger] s.queue[k]
            &&& t.loading == Some(tracks@[0])
            &&& effects.last() == Effect::Load { track: tracks@[0] }
        }),
{
}

/// However a track is left, a play of it is recorded first, if it was heard past its
/// threshold: also by going back, by a new queue, and by being taken out of the queue.
pub proof fn other_ways_of_leaving_record_it(
    s: EngineView,
    track: TrackMeta,
    length: Duration,
    tracks: Vec<TrackMeta>,
    start_index: usize,
    position: Duration,
    fresh: Seq<usize>,
)
    requires
        s.wf(),
        s.loaded,
        s.current == Some(track),
        track.song_id@.len() > 0,
        track.duration == Some(length),
        length.nanos > 0,
        s.index < s.queue.len(),
    ensures
        ({
            let play = Effect::Scrobble { song_id: track.song_id, submission: true };
            let heard = 2 * position.nanos >= length.nanos || position.nanos >= 240_000_000_000;
            let skipped = 2 * position.nanos + 1 < length.nanos && position.nanos
                < 240_000_000_000;
            let back = step(s, Command::Previous, position, fresh).1;
            let other = step(s, Command::PlayQueue { tracks, start_index }, position, fresh).1;
            let out = step(s, Command::RemoveFromQueue(s.index), position, fresh).1;
            &&& heard ==> back[0] == play && other[0] == play && out[0] == play
            &&& skipped ==> !back.contains(play) && !other.contains(play) && !out.contains(play)
        }),
{
    crate::playback::play_counts_from_half_way(track, length, position);
    if 2 * position.nanos + 1 < length.nanos && position.nanos < 240_000_000_000 {
        assert(scrobbled(s.current, position) =~= Seq::<Effect>::empty());
        assert(scrobbled(None, position) =~= Seq::<Effect>::empty());
    }
}

/// Pausing, resuming, seeking, the volume, and changes of the queue that leave the current
/// track alone record no play.
pub proof fn staying_records_nothing(
    s: EngineView,
    target: Duration,
    volume: Real32,
    position: Duration,
    fresh: Seq<usize>,
)
    requires
        s.wf(),
    ensures
        ({
            let commands = seq![
                Command::Pause,
                Command::Resume,
                Command::Seek(target),
                Command::SetVolume(volume),
                Command::CycleRepeat,
                Command::ToggleShuffle,
            ];
            forall|i: int, k: int|
                #![trigger step(s, commands[i], position, fresh).1[k]]
                0 <= i < commands.len() && 0 <= k < step(s, commands[i], position, fresh).1.len()
                    ==> !(step(s, commands[i], position, fresh).1[k] is Scrobble)
        }),
{
}

/// A track that cannot be opened stops playback, and both are told; the queue and the
/// place in it stay.
pub proof fn failed_track_stops(s: EngineView)
    ensures
        ({
            let t = open_failed(s);
            &&& t.snapshot.status == Status::Stopped
            &&& t.current is None && t.loading is None
            &&& t.queue == s.queue && t.index == s.index && t.play_order == s.play_order
            &&& t.order_pos == s.order_pos
        }),
{
}

/// Taking out a track takes out that one alone: those before it stay, those behind it move
/// up. A place past the queue holds nothing to take out.
pub proof fn removing_takes_out_one(
    s: EngineView,
    r: usize,
    position: Duration,
    fresh: Seq<usize>,
)
    requires
        s.wf(),
    ensures
        ({
            let (t, effects) = step(s, Command::RemoveFromQueue(r), position, fresh);
            &&& r >= s.queue.len() ==> t == s && effects.len() == 0
            &&& r < s.queue.len() ==> {
                &&& t.queue.len() == s.queue.len() - 1
                &&& forall|k: int| 0 <= k < r ==> #[trigger] t.queue[k] == s.queue[k]
                &&& forall|k: int| r <= k < t.queue.len() ==> #[trigger] t.queue[k] == s.queue[k + 1]
                &&& t.snapshot.queue == t.queue
                &&& t.snapshot.queue_len == t.queue.len()
            }
            &&& r < s.queue.len() && r < s.index ==> t.index == s.index - 1
            &&& r < s.queue.len() && r > s.index ==> t.index == s.index
        }),
{
}

} // verus!
