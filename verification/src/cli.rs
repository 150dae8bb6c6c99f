//! The command line: what its commands tell the daemon and the user.
use crate::ieee::Real64;
use crate::protocol::{QueueEntry, StatusTuple};
use crate::text;
use crate::time::{Duration, NANOS_PER_MILLI, NANOS_PER_SEC};
use vstd::prelude::*;

verus! {

/// How long a daemon that was just started has to become reachable.
pub const SPAWN_WAIT_SECS: u64 = 5;

/// How long to wait between two attempts to reach it.
pub const SPAWN_POLL_MILLIS: u64 = 100;

/// What the user is told where no daemon answers.
pub const NOT_RUNNING: &'static str = "daemon not running";

/// What the user is told where there is no daemon to stop.
pub const NOTHING_TO_STOP: &'static str = "daemon not running \u{2014} nothing to stop";

/// What the user is told once the daemon was asked to stop.
pub const STOP_REQUESTED: &'static str = "stop requested";

/// `s` behind `before`, or nothing where `s` is empty.
pub open spec fn led_by(before: Seq<char>, s: Seq<char>) -> Seq<char> {
    if s.len() == 0 {
        Seq::empty()
    } else {
        before + s
    }
}

/// Where the track is in the queue, counted from one; nothing without a queue.
pub open spec fn place_text(queue_index: u32, queue_len: u32) -> Seq<char> {
    if queue_len > 0 {
        " ["@ + text::decimal((queue_index + 1) as nat) + " of "@ + text::decimal(
            queue_len as nat,
        ) + "]"@
    } else {
        Seq::empty()
    }
}

/// The times of a track: how far it is, and how long where that is known.
pub open spec fn times_text(
    position: Seq<char>,
    duration: Seq<char>,
    known: bool,
) -> Seq<char> {
    if known {
        position + "s / "@ + duration + "s"@
    } else {
        position + "s"@
    }
}

/// What `daemon status` says of a daemon that reports `t`. `position` and
/// `duration` are the two times in seconds, written out.
pub open spec fn status_text(t: StatusTuple, position: Seq<char>, duration: Seq<char>) -> Seq<char> {
    let head = "daemon running \u{2014} "@ + t.status@;
    if t.title@.len() == 0 {
        head
    } else {
        let times = times_text(position, duration, t.duration.nanos > 0);
        let format = if t.format_label@.len() == 0 {
            Seq::empty()
        } else {
            " ["@ + t.format_label@ + "]"@
        };
        head + ": "@ + t.title@ + led_by(" by "@, t.artist@) + " ("@ + times + ")"@ + format
            + place_text(t.queue_index, t.queue_len)
    }
}

fn empty_text() -> (s: String)
    ensures
        s@ == Seq::<char>::empty(),
{
    let s = String::new();
    assert(s@ =~= Seq::<char>::empty());
    s
}

fn behind(before: &str, s: &str) -> (r: String)
    ensures
        r@ == led_by(before@, s@),
{
    if s.is_empty() {
        empty_text()
    } else {
        before.to_owned().concat(s)
    }
}

fn place(queue_index: u32, queue_len: u32) -> (r: String)
    ensures
        r@ == place_text(queue_index, queue_len),
{
    if queue_len > 0 {
        " [".to_owned().concat(text::render(queue_index as u128 + 1).as_str()).concat(
            " of ",
        ).concat(text::render(queue_len as u128).as_str()).concat("]")
    } else {
        empty_text()
    }
}

fn times(position: &str, duration: &str, known: bool) -> (r: String)
    ensures
        r@ == times_text(position@, duration@, known),
{
    if known {
        position.to_owned().concat("s / ").concat(duration).concat("s")
    } else {
        position.to_owned().concat("s")
    }
}

/// What `daemon status` says, see [`status_text`].
pub fn status_line(t: &StatusTuple, position: &str, duration: &str) -> (line: String)
    ensures
        line@ == status_text(*t, position@, duration@),
{
    let head: String = "daemon running \u{2014} ".to_owned().concat(t.status.as_str());
    if t.title.as_str().is_empty() {
        return head;
    }
    let by: String = behind(" by ", t.artist.as_str());
    let when: String = times(position, duration, t.duration.nanos > 0);
    let format: String = if t.format_label.as_str().is_empty() {
        empty_text()
    } else {
        " [".to_owned().concat(t.format_label.as_str()).concat("]")
    };
    let where_in: String = place(t.queue_index, t.queue_len);
    head.concat(": ").concat(t.title.as_str()).concat(by.as_str()).concat(" (").concat(
        when.as_str(),
    ).concat(")").concat(format.as_str()).concat(where_in.as_str())
}

/// A text, or the empty one.
pub open spec fn or_empty(s: Option<String>) -> Seq<char> {
    match s {
        Some(t) => t@,
        None => Seq::empty(),
    }
}

fn unwrap_text(s: Option<String>) -> (t: String)
    ensures
        t@ == or_empty(s),
{
    match s {
        Some(t) => t,
        None => empty_text(),
    }
}

/// The queue entry for a song of which nothing is known but its id and what the
/// user says of it.
pub fn play_entry(
    stream_url: String,
    song_id: String,
    title: Option<String>,
    artist: Option<String>,
    album: Option<String>,
) -> (entry: QueueEntry)
    ensures
        entry.stream_url == stream_url,
        entry.song_id == song_id,
        entry.title@ == or_empty(title),
        entry.artist@ == or_empty(artist),
        entry.album@ == or_empty(album),
        entry.art_url@.len() == 0,
        entry.duration.bits == crate::ieee::ZERO_64,
        entry.format_label@.len() == 0,
        !entry.lossless,
        entry.replay_gain_db.bits == crate::ieee::ZERO_64,
{
    QueueEntry {
        stream_url,
        title: unwrap_text(title),
        artist: unwrap_text(artist),
        album: unwrap_text(album),
        art_url: String::new(),
        duration: Real64::zero(),
        format_label: String::new(),
        lossless: false,
        song_id,
        replay_gain_db: Real64::zero(),
    }
}

/// What the user is told once a song plays.
pub fn playing_line(song_id: &str) -> (line: String)
    ensures
        line@ == "playing song "@ + song_id@,
{
    "playing song ".to_owned().concat(song_id)
}

/// Whether to wait once more for a daemon that was started `elapsed` ago.
pub fn keeps_waiting(elapsed: Duration) -> (r: bool)
    ensures
        r == (elapsed.nanos < SPAWN_WAIT_SECS * NANOS_PER_SEC),
{
    elapsed.nanos < SPAWN_WAIT_SECS as u128 * NANOS_PER_SEC
}

/// How long to wait before the next attempt.
pub fn poll_interval() -> (d: Duration)
    ensures
        d.nanos == SPAWN_POLL_MILLIS * NANOS_PER_MILLI,
{
    Duration::from_millis(SPAWN_POLL_MILLIS)
}

/// What the user is told of a daemon that did not become reachable.
pub fn gave_up_line(exe: &str) -> (line: String)
    ensures
        line@ == "daemon did not become reachable within 5s of starting "@ + exe@,
{
    "daemon did not become reachable within 5s of starting ".to_owned().concat(exe)
}

/// A status line begins with the status; without a track it says no more; with one it
/// names the title, and counts its place in the queue from one.
pub proof fn status_line_says_what_plays(t: StatusTuple, position: Seq<char>, duration: Seq<char>)
    ensures
        ("daemon running \u{2014} "@ + t.status@).is_prefix_of(status_text(t, position, duration)),
        t.title@.len() == 0 ==> status_text(t, position, duration) == "daemon running \u{2014} "@
            + t.status@,
        t.title@.len() > 0 ==> ("daemon running \u{2014} "@ + t.status@ + ": "@
            + t.title@).is_prefix_of(status_text(t, position, duration)),
        t.queue_len > 0 ==> place_text(t.queue_index, t.queue_len) == " ["@ + text::decimal(
            t.queue_index as nat + 1,
        ) + " of "@ + text::decimal(t.queue_len as nat) + "]"@,
        t.queue_len == 0 ==> place_text(t.queue_index, t.queue_len).len() == 0,
        t.title@.len() > 0 ==> place_text(t.queue_index, t.queue_len).is_suffix_of(
            status_text(t, position, duration),
        ),
{
    let all = status_text(t, position, duration);
    let head = "daemon running \u{2014} "@ + t.status@;
    assert(all.take(head.len() as int) =~= head);
    if t.title@.len() > 0 {
        let more = head + ": "@ + t.title@;
        assert(all.take(more.len() as int) =~= more);
        let place = place_text(t.queue_index, t.queue_len);
        assert(all.subrange(all.len() - place.len(), all.len() as int) =~= place);
    }
}

} // verus!
