//! What holds of the playback engine whatever it is asked: what stays as it is, and what
//! reaches the sink and those who listen.
use crate::engine::{
    advanced, appended, current_position, inserted_next, open_failed, opened, polled,
    queue_played, removed, reordered, requeued, scrobbled, sink_stopped, sought, started, step,
    track_left, went_back, wraps, Command, Effect, EngineView, Event,
};
use crate::playback::{RepeatMode, SnapshotView, TrackMeta};
use crate::time::Duration;
use vstd::prelude::*;

verus! {

/// How the queue repeats, whether it is shuffled, and the volume change only when that is
/// asked for: no other command changes them.
#[verifier::rlimit(60)]
pub proof fn settings_change_only_on_request(
    s: EngineView,
    command: Command,
    position: Duration,
    fresh: Seq<usize>,
)
    ensures
        !(command is CycleRepeat || command is SetRepeat) ==> step(
            s,
            command,
            position,
            fresh,
        ).0.repeat == s.repeat,
        !(command is ToggleShuffle || command is SetShuffle) ==> step(
            s,
            command,
            position,
            fresh,
        ).0.shuffle == s.shuffle,
        !(command is SetVolume) ==> step(s, command, position, fresh).0.volume == s.volume,
{
    match command {
        Command::PlayQueue { tracks, start_index } => {
            let t = queue_played(s, tracks@, start_index, position, fresh).0;
            assert(t.repeat == s.repeat && t.shuffle == s.shuffle && t.volume == s.volume);
        },
        Command::AppendQueue(tracks) => {
            let t = appended(s, tracks@, position).0;
            assert(t.repeat == s.repeat && t.shuffle == s.shuffle && t.volume == s.volume);
        },
        Command::PlayNext(tracks) => {
            let t = inserted_next(s, tracks@, position).0;
            assert(t.repeat == s.repeat && t.shuffle == s.shuffle && t.volume == s.volume);
        },
        Command::RemoveFromQueue(r) => {
            let t = removed(s, r, position).0;
            assert(t.repeat == s.repeat && t.shuffle == s.shuffle && t.volume == s.volume);
        },
        Command::Next => {
            let t = advanced(s, position, fresh).0;
            assert(t.repeat == s.repeat && t.shuffle == s.shuffle && t.volume == s.volume);
        },
        Command::Previous => {
            let t = went_back(s, position).0;
            assert(t.repeat == s.repeat && t.shuffle == s.shuffle && t.volume == s.volume);
        },
        _ => {},
    }
}

/// A look at the sink, and a track that opens or fails to, change neither the volume nor
/// how the queue repeats and is shuffled.
pub proof fn settings_outlast_tracks(
    s: EngineView,
    ended: bool,
    position: Duration,
    spectrum: Option<Seq<u8>>,
    fresh: Seq<usize>,
    track: TrackMeta,
)
    ensures
        ({
            let t = polled(s, ended, position, spectrum, fresh).0;
            let u = opened(s, track);
            let v = open_failed(s);
            let w = sought(s, position);
            &&& t.repeat == s.repeat && t.shuffle == s.shuffle && t.volume == s.volume
            &&& u.repeat == s.repeat && u.shuffle == s.shuffle && u.volume == s.volume
            &&& v.repeat == s.repeat && v.shuffle == s.shuffle && v.volume == s.volume
            &&& w.repeat == s.repeat && w.shuffle == s.shuffle && w.volume == s.volume
        }),
{
    let a = advanced(s, position, fresh).0;
    assert(a.repeat == s.repeat && a.shuffle == s.shuffle && a.volume == s.volume);
}

/// The queue changes only by the commands that are for it; going from track to track,
/// pausing, stopping and seeking leave it as it is, and so does a look at the sink.
pub proof fn queue_changes_only_on_request(
    s: EngineView,
    command: Command,
    ended: bool,
    position: Duration,
    spectrum: Option<Seq<u8>>,
    fresh: Seq<usize>,
)
    requires
        s.wf(),
    ensures
        ({
            let t = step(s, command, position, fresh).0;
            let edits = command is PlayQueue || command is AppendQueue || command is PlayNext
                || command is RemoveFromQueue || command is MoveInQueue || command is ClearQueue;
            &&& !edits ==> t.queue == s.queue
            &&& !edits && !(command is ToggleShuffle || command is SetShuffle) && !(s.shuffle
                && s.repeat == RepeatMode::Queue && s.order_pos + 1 >= s.queue.len())
                ==> t.play_order == s.play_order
            &&& polled(s, ended, position, spectrum, fresh).0.queue == s.queue
        }),
{
}

/// The place in the queue changes only by going to another track, or with the queue.
pub proof fn place_changes_only_with_the_track(
    s: EngineView,
    command: Command,
    position: Duration,
    fresh: Seq<usize>,
)
    requires
        s.wf(),
        command is Pause || command is Resume || command is Stop || command is Seek
            || command is SetVolume || command is CycleRepeat || command is SetRepeat
            || command is ToggleShuffle || command is SetShuffle || command is Shutdown,
    ensures
        step(s, command, position, fresh).0.index == s.index,
        step(s, command, position, fresh).0.loading == s.loading,
        step(s, command, position, fresh).0.snapshot.track == s.snapshot.track,
        step(s, command, position, fresh).0.snapshot.position == s.snapshot.position,
        !(command is Stop) ==> step(s, command, position, fresh).0.current == s.current,
{
}

/// Whether, of the effects, only the last opens a track, the one that is waited for.
pub open spec fn opens_only(t: EngineView, effects: Seq<Effect>) -> bool {
    forall|k: int|
        0 <= k < effects.len() && #[trigger] effects[k] is Load ==> k == effects.len() - 1
            && t.loading is Some && effects[k] == (Effect::Load { track: t.loading->0 })
}

proof fn starting_opens_only(s: EngineView, position: Duration, i: usize, before: Seq<Effect>)
    requires
        forall|k: int| 0 <= k < before.len() ==> !(#[trigger] before[k] is Load),
    ensures
        opens_only(started(s, position, i).0, before + started(s, position, i).1),
{
    let (t, effects) = started(s, position, i);
    let out = scrobbled(s.current, current_position(s, position)) + sink_stopped(s);
    assert forall|k: int| 0 <= k < out.len() implies !(#[trigger] out[k] is Load) by {}
    let all = before + effects;
    assert forall|k: int| 0 <= k < all.len() && #[trigger] all[k] is Load implies k == all.len() - 1
        && t.loading is Some && all[k] == (Effect::Load { track: t.loading->0 }) by {
        if k < before.len() {
            assert(all[k] == before[k]);
        } else {
            assert(all[k] == effects[k - before.len()]);
            if k - before.len() < out.len() {
                assert(effects[k - before.len()] == out[k - before.len()]);
            }
        }
    }
}

/// At most one track is opened at a time, after everything else, and it is the one that is
/// then waited for.
#[verifier::rlimit(60)]
pub proof fn only_what_is_waited_for_is_opened(
    s: EngineView,
    command: Command,
    position: Duration,
    fresh: Seq<usize>,
)
    requires
        s.wf(),
    ensures
        opens_only(
            step(s, command, position, fresh).0,
            step(s, command, position, fresh).1,
        ),
{
    let none = Seq::<Effect>::empty();
    match command {
        Command::PlayQueue { tracks, start_index } => {
            let q = if tracks@.len() == 0 {
                let t = requeued(s, Seq::empty());
                EngineView {
                    index: 0,
                    play_order: Seq::empty(),
                    order_pos: 0,
                    snapshot: SnapshotView { queue_index: 0, ..t.snapshot },
                    ..t
                }
            } else {
                reordered(requeued(s, tracks@), fresh)
            };
            let i: usize = if tracks@.len() == 0 {
                0
            } else if start_index < tracks@.len() {
                start_index
            } else {
                (tracks@.len() - 1) as usize
            };
            starting_opens_only(q, position, i, none);
            assert(none + started(q, position, i).1 =~= started(q, position, i).1);
        },
        Command::PlayAt(i) => {
            starting_opens_only(s, position, i, none);
            assert(none + started(s, position, i).1 =~= started(s, position, i).1);
        },
        Command::AppendQueue(tracks) => {
            let n = s.queue.len();
            let t = EngineView {
                play_order: s.play_order + Seq::new(tracks@.len(), |k: int| (n + k) as usize),
                ..requeued(s, s.queue + tracks@)
            };
            starting_opens_only(t, position, n as usize, none);
            assert(none + started(t, position, n as usize).1 =~= started(t, position, n as usize).1);
        },
        Command::PlayNext(tracks) => {
            let n = s.queue.len();
            let at: usize = if n == 0 {
                0
            } else {
                (s.index + 1) as usize
            };
            let pos: int = if n == 0 {
                0
            } else {
                s.order_pos + 1
            };
            let t = EngineView {
                play_order: crate::play_order::after_insert(
                    s.play_order,
                    at,
                    tracks@.len() as usize,
                    pos,
                ),
                ..requeued(s, s.queue.take(at as int) + tracks@ + s.queue.skip(at as int))
            };
            starting_opens_only(t, position, at, none);
            assert(none + started(t, position, at).1 =~= started(t, position, at).1);
        },
        Command::RemoveFromQueue(r) => {
            if r < s.queue.len() && r == s.index {
                let t = EngineView {
                    play_order: crate::play_order::after_remove(s.play_order, r),
                    ..requeued(s, s.queue.remove(r as int))
                };
                let i: usize = if r < t.queue.len() {
                    r
                } else {
                    (t.queue.len() - 1) as usize
                };
                starting_opens_only(
                    EngineView { current: None, loaded: false, ..t },
                    position,
                    i,
                    track_left(s, position),
                );
            }
        },
        Command::Next => {
            if s.order_pos + 1 < s.queue.len() {
                let i = s.play_order[s.order_pos + 1];
                starting_opens_only(s, position, i, none);
                assert(none + started(s, position, i).1 =~= started(s, position, i).1);
            } else if wraps(s) {
                let t = if s.shuffle {
                    reordered(s, fresh)
                } else {
                    s
                };
                starting_opens_only(t, position, t.play_order[0], none);
                assert(none + started(t, position, t.play_order[0]).1 =~= started(
                    t,
                    position,
                    t.play_order[0],
                ).1);
            }
        },
        Command::Previous => {
            let i = s.play_order[s.order_pos - 1];
            starting_opens_only(s, position, i, none);
            assert(none + started(s, position, i).1 =~= started(s, position, i).1);
        },
        _ => {},
    }
}

/// Going to another track, and leaving one, stops a sink that is there; a status that
/// changes with it is told.
pub proof fn letting_go_stops_the_sink(s: EngineView, position: Duration, i: usize)
    requires
        s.wf(),
        s.loaded,
    ensures
        started(s, position, i).1.contains(Effect::StopSink),
        !started(s, position, i).0.loaded,
        started(s, position, i).0.snapshot.status != s.snapshot.status ==> started(
            s,
            position,
            i,
        ).1.contains(
            Effect::Notify(Event::StatusChanged(started(s, position, i).0.snapshot.status)),
        ),
        track_left(s, position).contains(Effect::StopSink),
{
    let (t, effects) = started(s, position, i);
    let past = scrobbled(s.current, position);
    assert(effects[past.len() as int] == Effect::StopSink);
    assert(track_left(s, position)[past.len() as int] == Effect::StopSink);
    if t.snapshot.status != s.snapshot.status {
        assert(effects[effects.len() - 1] == effects.last());
    }
}

/// Shutting down stops the sink and then leaves.
pub proof fn shutting_down_leaves(s: EngineView, position: Duration, fresh: Seq<usize>)
    ensures
        step(s, Command::Shutdown, position, fresh).1.last() == Effect::Exit,
        !step(s, Command::Shutdown, position, fresh).0.loaded,
        s.loaded ==> step(s, Command::Shutdown, position, fresh).1[0] == Effect::StopSink,
{
}

/// Moving a track puts it where it was asked for; the tracks between close up, and all
/// others stay. A move from or to a place that is not there does nothing.
pub proof fn move_puts_the_track_in_place(
    s: EngineView,
    from: usize,
    to: usize,
    position: Duration,
    fresh: Seq<usize>,
)
    requires
        s.wf(),
    ensures
        ({
            let (t, effects) = step(s, Command::MoveInQueue { from, to }, position, fresh);
            &&& effects.len() == 0
            &&& from < s.queue.len() && to < s.queue.len() ==> {
                &&& t.queue.len() == s.queue.len()
                &&& t.queue[to as int] == s.queue[from as int]
                &&& forall|k: int|
                    0 <= k < s.queue.len() && (k < from && k < to || k > from && k > to)
                        ==> #[trigger] t.queue[k] == s.queue[k]
                &&& forall|k: int| from <= k < to ==> #[trigger] t.queue[k] == s.queue[k + 1]
                &&& forall|k: int| to < k <= from ==> #[trigger] t.queue[k] == s.queue[k - 1]
            }
            &&& from >= s.queue.len() || to >= s.queue.len() ==> t == s
        }),
{
}

/// Appended tracks stand behind all others, in order, and are played last.
pub proof fn appended_tracks_come_last(
    s: EngineView,
    tracks: Vec<TrackMeta>,
    position: Duration,
    fresh: Seq<usize>,
)
    requires
        s.wf(),
        s.queue.len() + tracks@.len() <= usize::MAX,
    ensures
        ({
            let t = step(s, Command::AppendQueue(tracks), position, fresh).0;
            let n = s.queue.len();
            &&& t.queue == s.queue + tracks@
            &&& t.play_order.len() == n + tracks@.len()
            &&& forall|k: int| 0 <= k < n ==> #[trigger] t.play_order[k] == s.play_order[k]
            &&& forall|k: int| n <= k < n + tracks@.len() ==> #[trigger] t.play_order[k] == k
        }),
{
    assert(s.queue + tracks@ =~= s.queue + tracks@);
    if tracks@.len() == 0 {
        assert(s.queue + tracks@ =~= s.queue);
    }
}

} // verus!
