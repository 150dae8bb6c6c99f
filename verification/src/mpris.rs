//! The desktop's media controls: what their calls ask of the playback engine,
//! and what they are shown.
use crate::engine::{Command, Event};
use crate::playback::{RepeatMode, Snapshot, Status, TrackMeta};
use crate::time::{Duration, NANOS_PER_MICRO};
use vstd::prelude::*;

verus! {

/// The object path that stands for whatever plays.
pub const CURRENT_TRACK_PATH: &'static str = "/com/maraetai/track/current";

/// How the desktop names the repeat modes.
#[derive(Debug, Clone, Copy, PartialEq, Eq, Structural)]
pub enum LoopStatus {
    NoLoop,
    Track,
    Playlist,
}

/// The loop status that shows a repeat mode.
pub open spec fn shown_loop(repeat: RepeatMode) -> LoopStatus {
    match repeat {
        RepeatMode::Off => LoopStatus::NoLoop,
        RepeatMode::Track => LoopStatus::Track,
        RepeatMode::Queue => LoopStatus::Playlist,
    }
}

/// The repeat mode that a loop status asks for.
pub open spec fn asked_repeat(shown: LoopStatus) -> RepeatMode {
    match shown {
        LoopStatus::NoLoop => RepeatMode::Off,
        LoopStatus::Track => RepeatMode::Track,
        LoopStatus::Playlist => RepeatMode::Queue,
    }
}

/// What the desktop is shown of the repeat mode.
pub fn loop_status(repeat: RepeatMode) -> (shown: LoopStatus)
    ensures
        shown == shown_loop(repeat),
{
    match repeat {
        RepeatMode::Off => LoopStatus::NoLoop,
        RepeatMode::Track => LoopStatus::Track,
        RepeatMode::Queue => LoopStatus::Playlist,
    }
}

/// What setting the loop status asks of the engine.
pub fn set_loop_status(shown: LoopStatus) -> (command: Command)
    ensures
        command == Command::SetRepeat(asked_repeat(shown)),
{
    Command::SetRepeat(
        match shown {
            LoopStatus::NoLoop => RepeatMode::Off,
            LoopStatus::Track => RepeatMode::Track,
            LoopStatus::Playlist => RepeatMode::Queue,
        },
    )
}

/// The desktop reads back the loop status that it sets, and setting what it
/// reads changes nothing.
pub proof fn loop_status_reads_back(shown: LoopStatus, repeat: RepeatMode)
    ensures
        shown_loop(asked_repeat(shown)) == shown,
        asked_repeat(shown_loop(repeat)) == repeat,
{
}

/// What the play/pause key asks for: a pause while a track plays, else to go on.
pub fn play_pause(status: Status) -> (command: Command)
    ensures
        command == (if status == Status::Playing {
            Command::Pause
        } else {
            Command::Resume
        }),
{
    match status {
        Status::Playing => Command::Pause,
        Status::Paused | Status::Stopped => Command::Resume,
    }
}

/// Where a seek by `offset` microseconds from `position` leads: never before
/// the track's start.
pub fn seek_by(position: Duration, offset: i64) -> (command: Command)
    requires
        position.nanos / NANOS_PER_MICRO <= i64::MAX,
        position.nanos / NANOS_PER_MICRO + offset <= i64::MAX,
    ensures
        ({
            let target = position.nanos / NANOS_PER_MICRO + offset;
            command == Command::Seek(
                Duration {
                    nanos: if target > 0 {
                        (target * NANOS_PER_MICRO) as u128
                    } else {
                        0
                    },
                },
            )
        }),
{
    let target: i64 = position.as_micros() as i64 + offset;
    set_position(target)
}

/// Seeks to `micros` microseconds into the track, or to its start where that is
/// negative.
pub fn set_position(micros: i64) -> (command: Command)
    ensures
        command == Command::Seek(
            Duration {
                nanos: if micros > 0 {
                    (micros * NANOS_PER_MICRO) as u128
                } else {
                    0
                },
            },
        ),
{
    if micros > 0 {
        Command::Seek(Duration::from_micros(micros as u64))
    } else {
        Command::Seek(Duration::zero())
    }
}

/// A position in whole microseconds. One past what fits is cut off to the low
/// bits, as the desktop's own type has it.
pub fn position_micros(position: Duration) -> (micros: i64)
    ensures
        micros == (position.nanos / NANOS_PER_MICRO) as i64,
{
    position.as_micros() as i64
}

/// What the desktop is told of the current track.
#[derive(Debug, PartialEq, Eq)]
pub struct Metadata {
    pub title: String,
    pub album: String,
    pub artist: String,
    pub length_micros: Option<i64>,
    pub art_url: Option<String>,
}

pub open spec fn metadata_of(track: TrackMeta) -> Metadata {
    Metadata {
        title: track.title,
        album: track.album,
        artist: track.artist,
        length_micros: match track.duration {
            Some(d) => Some((d.nanos / NANOS_PER_MICRO) as i64),
            None => None,
        },
        art_url: track.art_url,
    }
}

/// What the desktop is told of the current track; nothing without one.
pub fn metadata(snapshot: &Snapshot) -> (m: Option<Metadata>)
    ensures
        m == (match snapshot.track {
            Some(track) => Some(metadata_of(track)),
            None => None,
        }),
{
    match &snapshot.track {
        None => None,
        Some(track) => Some(
            Metadata {
                title: track.title.clone(),
                album: track.album.clone(),
                artist: track.artist.clone(),
                length_micros: match track.duration {
                    Some(d) => Some(position_micros(d)),
                    None => None,
                },
                art_url: track.art_url.clone(),
            },
        ),
    }
}

/// What the desktop is told of an engine event.
#[derive(Debug, PartialEq, Eq)]
pub enum Signal {
    /// The playback status has changed.
    PlaybackStatus(Status),
    /// The metadata has changed; its new value is in the snapshot.
    MetadataChanged,
    Seeked { micros: i64 },
}

/// What the desktop is told of an engine event. The end of the queue and a
/// playback error are not its business.
pub fn signal_for(event: &Event) -> (signal: Option<Signal>)
    ensures
        signal == (match *event {
            Event::StatusChanged(status) => Some(Signal::PlaybackStatus(status)),
            Event::TrackChanged => Some(Signal::MetadataChanged),
            Event::Seeked(position) => Some(
                Signal::Seeked { micros: (position.nanos / NANOS_PER_MICRO) as i64 },
            ),
            Event::QueueEnded | Event::PlaybackError(_) => None,
        }),
{
    match event {
        Event::StatusChanged(status) => Some(Signal::PlaybackStatus(*status)),
        Event::TrackChanged => Some(Signal::MetadataChanged),
        Event::Seeked(position) => Some(Signal::Seeked { micros: position_micros(*position) }),
        Event::QueueEnded => None,
        Event::PlaybackError(_) => None,
    }
}

/// A track is shown with its own title, artist and album, and its length in microseconds.
pub proof fn metadata_shows_the_track(track: TrackMeta)
    ensures
        metadata_of(track).title == track.title,
        metadata_of(track).artist == track.artist,
        metadata_of(track).album == track.album,
        metadata_of(track).art_url == track.art_url,
        track.duration is None <==> metadata_of(track).length_micros is None,
        track.duration is Some && track.duration->0.nanos / 1_000 <= i64::MAX ==> metadata_of(
            track,
        ).length_micros->0 == track.duration->0.nanos / 1_000,
{
}

/// Repeating is shown as the loop of the same extent.
pub proof fn loop_shows_the_repeat()
    ensures
        shown_loop(RepeatMode::Off) == LoopStatus::NoLoop,
        shown_loop(RepeatMode::Track) == LoopStatus::Track,
        shown_loop(RepeatMode::Queue) == LoopStatus::Playlist,
{
}

} // verus!
