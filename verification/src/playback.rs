//! Tracks, the snapshot that the playback engine publishes, and the rules that
//! need nothing but those: wire conversions, the scrobble threshold, the choice
//! of an output device.
use crate::protocol::{QueueEntry, QueueRow, StatusTuple};
use crate::ieee::{Real32, Real64};
use crate::text;
use crate::time::{Duration, NANOS_PER_SEC};
use vstd::prelude::*;

verus! {

/// The longest time that a track has to play before it counts as listened to.
pub const SCROBBLE_CAP_SECS: u64 = 240;

/// `Previous` further into a track than this restarts it.
pub const RESTART_THRESHOLD_SECS: u64 = 3;

#[derive(Debug, Clone, Copy, PartialEq, Eq, Structural)]
pub enum Status {
    Stopped,
    Playing,
    Paused,
}

/// `Track` repeats the current track when it ends by itself; `Queue` starts the
/// queue over once its last track ends.
#[derive(Debug, Clone, Copy, PartialEq, Eq, Structural)]
pub enum RepeatMode {
    Off,
    Track,
    Queue,
}

impl Default for RepeatMode {
    fn default() -> (r: Self)
        ensures
            r == RepeatMode::Off,
    {
        RepeatMode::Off
    }
}

impl RepeatMode {
    pub open spec fn cycled(self) -> RepeatMode {
        match self {
            RepeatMode::Off => RepeatMode::Track,
            RepeatMode::Track => RepeatMode::Queue,
            RepeatMode::Queue => RepeatMode::Off,
        }
    }

    /// The next mode: off, track, queue, and off again.
    pub fn cycle(self) -> (r: Self)
        ensures
            r == self.cycled(),
    {
        match self {
            RepeatMode::Off => RepeatMode::Track,
            RepeatMode::Track => RepeatMode::Queue,
            RepeatMode::Queue => RepeatMode::Off,
        }
    }

    pub open spec fn name(self) -> Seq<char> {
        match self {
            RepeatMode::Off => "off"@,
            RepeatMode::Track => "track"@,
            RepeatMode::Queue => "queue"@,
        }
    }

    /// The mode's name on the wire.
    pub fn as_str(self) -> (r: &'static str)
        ensures
            r@ == self.name(),
    {
        match self {
            RepeatMode::Off => "off",
            RepeatMode::Track => "track",
            RepeatMode::Queue => "queue",
        }
    }
}

/// Three steps lead from every repeat mode back to it, and no fewer do.
pub proof fn cycle_returns_after_three(mode: RepeatMode)
    ensures
        mode.cycled() != mode,
        mode.cycled().cycled() != mode,
        mode.cycled().cycled().cycled() == mode,
{
}

impl Status {
    pub open spec fn name(self) -> Seq<char> {
        match self {
            Status::Playing => "playing"@,
            Status::Paused => "paused"@,
            Status::Stopped => "stopped"@,
        }
    }

    /// The status's name on the wire.
    pub fn as_str(self) -> (r: &'static str)
        ensures
            r@ == self.name(),
    {
        match self {
            Status::Playing => "playing",
            Status::Paused => "paused",
            Status::Stopped => "stopped",
        }
    }
}

/// A track of the queue.
#[derive(Debug, PartialEq, Eq)]
pub struct TrackMeta {
    pub stream_url: String,
    /// The Subsonic song id. Empty for a track without library metadata.
    pub song_id: String,
    pub title: String,
    pub artist: String,
    pub album: String,
    pub art_url: Option<String>,
    pub duration: Option<Duration>,
    /// A display label such as "FLAC" or "MP3 320".
    pub format_label: String,
    pub lossless: bool,
    /// The gain to apply, in decibels; zero for none.
    pub replay_gain_db: Real64,
}

impl Clone for TrackMeta {
    fn clone(&self) -> (r: Self)
        ensures
            r == *self,
    {
        TrackMeta {
            stream_url: self.stream_url.clone(),
            song_id: self.song_id.clone(),
            title: self.title.clone(),
            artist: self.artist.clone(),
            album: self.album.clone(),
            art_url: self.art_url.clone(),
            duration: self.duration,
            format_label: self.format_label.clone(),
            lossless: self.lossless,
            replay_gain_db: self.replay_gain_db,
        }
    }
}

/// A copy of a list of tracks.
pub fn copy_tracks(tracks: &Vec<TrackMeta>) -> (out: Vec<TrackMeta>)
    ensures
        out@ == tracks@,
{
    let mut out: Vec<TrackMeta> = Vec::new();
    let mut i: usize = 0;
    while i < tracks.len()
        invariant
            i <= tracks.len(),
            out@ == tracks@.take(i as int),
        decreases tracks.len() - i,
    {
        out.push(tracks[i].clone());
        i = i + 1;
        assert(out@ =~= tracks@.take(i as int));
    }
    assert(tracks@.take(i as int) == tracks@);
    out
}

/// What the engine publishes about itself.
#[derive(Debug, PartialEq, Eq)]
pub struct Snapshot {
    pub status: Status,
    pub position: Duration,
    pub track: Option<TrackMeta>,
    pub volume: Real32,
    /// The current track's place in the queue, counted from zero.
    pub queue_index: usize,
    /// The queue's length.
    pub queue_len: usize,
    /// The full queue, in order.
    pub queue: Vec<TrackMeta>,
    /// Spectrum bar levels.
    pub spectrum: Vec<u8>,
    pub repeat: RepeatMode,
    pub shuffle: bool,
}

/// What a [`Snapshot`] says.
#[verifier::ext_equal]
pub struct SnapshotView {
    pub status: Status,
    pub position: Duration,
    pub track: Option<TrackMeta>,
    pub volume: Real32,
    pub queue_index: usize,
    pub queue_len: usize,
    pub queue: Seq<TrackMeta>,
    pub spectrum: Seq<u8>,
    pub repeat: RepeatMode,
    pub shuffle: bool,
}

impl View for Snapshot {
    type V = SnapshotView;

    open spec fn view(&self) -> SnapshotView {
        SnapshotView {
            status: self.status,
            position: self.position,
            track: self.track,
            volume: self.volume,
            queue_index: self.queue_index,
            queue_len: self.queue_len,
            queue: self.queue@,
            spectrum: self.spectrum@,
            repeat: self.repeat,
            shuffle: self.shuffle,
        }
    }
}

/// `len` spectrum bars at rest.
pub open spec fn silence(len: nat) -> Seq<u8> {
    Seq::new(len, |i: int| 0u8)
}

/// `len` spectrum bars at rest.
pub fn silent_bars(len: usize) -> (bars: Vec<u8>)
    ensures
        bars@ == silence(len as nat),
{
    let mut bars: Vec<u8> = Vec::new();
    let mut i: usize = 0;
    while i < len
        invariant
            i <= len,
            bars@ == silence(i as nat),
        decreases len - i,
    {
        bars.push(0);
        i = i + 1;
    }
    bars
}

impl Snapshot {
    /// The snapshot of an engine that has done nothing yet, with `bars`
    /// spectrum bars.
    pub fn initial(bars: usize) -> (s: Snapshot)
        ensures
            s@ == (SnapshotView {
                status: Status::Stopped,
                position: Duration { nanos: 0 },
                track: None,
                volume: Real32 { bits: crate::ieee::ONE_32 },
                queue_index: 0,
                queue_len: 0,
                queue: Seq::empty(),
                spectrum: silence(bars as nat),
                repeat: RepeatMode::Off,
                shuffle: false,
            }),
    {
        Snapshot {
            status: Status::Stopped,
            position: Duration::zero(),
            track: None,
            volume: Real32::one(),
            queue_index: 0,
            queue_len: 0,
            queue: Vec::new(),
            spectrum: silent_bars(bars),
            repeat: RepeatMode::Off,
            shuffle: false,
        }
    }

    /// Whether another track follows in the queue, or the queue repeats. The order
    /// of play has no say in it.
    pub fn has_next(&self) -> (r: bool)
        ensures
            r == (self.queue_index + 1 < self.queue_len || self.repeat == RepeatMode::Queue),
    {
        (self.queue_len > 0 && self.queue_index < self.queue_len - 1) || self.repeat
            == RepeatMode::Queue
    }
}

/// The length that a wire entry gives: nothing where it is not above zero.
pub open spec fn length_of(entry: QueueEntry) -> Option<Duration> {
    if crate::ieee::is_positive(entry.duration.bits) {
        Some(Duration { nanos: crate::time::nanos_in(entry.duration.bits)->0 as u128 })
    } else {
        None
    }
}

/// Whether a wire entry's length, where it has one, is a length of time.
pub open spec fn length_fits(entry: QueueEntry) -> bool {
    crate::ieee::is_positive(entry.duration.bits) ==> crate::time::nanos_in(
        entry.duration.bits,
    ) is Some
}

/// Whether every wire entry's length is a length of time.
pub open spec fn lengths_fit(entries: Seq<QueueEntry>) -> bool {
    forall|i: int| 0 <= i < entries.len() ==> length_fits(#[trigger] entries[i])
}

/// Whether every wire entry's length is a length of time.
pub fn all_lengths_fit(entries: &Vec<QueueEntry>) -> (r: bool)
    ensures
        r == lengths_fit(entries@),
{
    let mut i: usize = 0;
    while i < entries.len()
        invariant
            i <= entries.len(),
            forall|k: int| 0 <= k < i ==> length_fits(#[trigger] entries@[k]),
        decreases entries.len() - i,
    {
        if entries[i].duration.is_positive() && Duration::try_from_real_secs(
            entries[i].duration,
        ).is_none() {
            assert(!length_fits(entries@[i as int]));
            return false;
        }
        i = i + 1;
    }
    true
}

/// The track that a wire entry describes.
pub open spec fn entry_describes(entry: QueueEntry, t: TrackMeta) -> bool {
    &&& t.stream_url == entry.stream_url
    &&& t.song_id == entry.song_id
    &&& t.title == entry.title
    &&& t.artist == entry.artist
    &&& t.album == entry.album
    &&& t.art_url == (if entry.art_url@.len() > 0 {
        Some(entry.art_url)
    } else {
        None
    })
    &&& t.duration == length_of(entry)
    &&& t.format_label == entry.format_label
    &&& t.lossless == entry.lossless
    &&& t.replay_gain_db == entry.replay_gain_db
}

/// Turns one wire entry into a track.
pub fn track_meta_from_entry(entry: QueueEntry) -> (t: TrackMeta)
    requires
        length_fits(entry),
    ensures
        entry_describes(entry, t),
{
    TrackMeta {
        stream_url: entry.stream_url,
        song_id: entry.song_id,
        title: entry.title,
        artist: entry.artist,
        album: entry.album,
        art_url: if entry.art_url.as_str().is_empty() {
            None
        } else {
            Some(entry.art_url)
        },
        duration: if entry.duration.is_positive() {
            Duration::try_from_real_secs(entry.duration)
        } else {
            None
        },
        format_label: entry.format_label,
        lossless: entry.lossless,
        replay_gain_db: entry.replay_gain_db,
    }
}

/// Turns wire entries into tracks, one for one.
pub fn tracks_from_entries(entries: Vec<QueueEntry>) -> (tracks: Vec<TrackMeta>)
    requires
        lengths_fit(entries@),
    ensures
        tracks@.len() == entries@.len(),
        forall|i: int|
            0 <= i < entries@.len() ==> entry_describes(entries@[i], #[trigger] tracks@[i]),
{
    let mut tracks: Vec<TrackMeta> = Vec::new();
    let mut i: usize = 0;
    while i < entries.len()
        invariant
            i <= entries.len(),
            lengths_fit(entries@),
            tracks@.len() == i,
            forall|k: int| 0 <= k < i ==> entry_describes(entries@[k], #[trigger] tracks@[k]),
        decreases entries.len() - i,
    {
        tracks.push(track_meta_from_entry(entries[i].clone()));
        i = i + 1;
    }
    tracks
}

/// The length that the wire reports for a track: zero where it is not known.
pub open spec fn wire_duration(duration: Option<Duration>) -> Duration {
    match duration {
        Some(d) => d,
        None => Duration { nanos: 0 },
    }
}

/// The row that shows a track.
pub open spec fn row_of(t: TrackMeta) -> QueueRow {
    QueueRow {
        title: t.title,
        artist: t.artist,
        album: t.album,
        duration: wire_duration(t.duration),
        format_label: t.format_label,
        lossless: t.lossless,
        song_id: t.song_id,
    }
}

/// The row that shows a track.
pub fn queue_row_from_track(t: &TrackMeta) -> (row: QueueRow)
    ensures
        row == row_of(*t),
{
    QueueRow {
        title: t.title.clone(),
        artist: t.artist.clone(),
        album: t.album.clone(),
        duration: t.duration.unwrap_or(Duration::zero()),
        format_label: t.format_label.clone(),
        lossless: t.lossless,
        song_id: t.song_id.clone(),
    }
}

/// The rows that show a queue, in order.
pub fn queue_rows(queue: &Vec<TrackMeta>) -> (rows: Vec<QueueRow>)
    ensures
        rows@ == queue@.map_values(|t: TrackMeta| row_of(t)),
{
    let mut rows: Vec<QueueRow> = Vec::new();
    let mut i: usize = 0;
    while i < queue.len()
        invariant
            i <= queue.len(),
            rows@ == queue@.take(i as int).map_values(|t: TrackMeta| row_of(t)),
        decreases queue.len() - i,
    {
        rows.push(queue_row_from_track(&queue[i]));
        i = i + 1;
        assert(rows@ =~= queue@.take(i as int).map_values(|t: TrackMeta| row_of(t)));
    }
    assert(queue@.take(i as int) == queue@);
    rows
}

/// A queue row shows what the entry it came from said.
pub proof fn row_shows_entry(entry: QueueEntry, t: TrackMeta)
    requires
        entry_describes(entry, t),
    ensures
        row_of(t) == (QueueRow {
            title: entry.title,
            artist: entry.artist,
            album: entry.album,
            duration: wire_duration(length_of(entry)),
            format_label: entry.format_label,
            lossless: entry.lossless,
            song_id: entry.song_id,
        }),
{
}

/// What the status report says of the current track: its own fields, with
/// empty texts and a zero length for what is missing.
pub open spec fn reports_track(t: StatusTuple, track: Option<TrackMeta>) -> bool {
    match track {
        Some(m) => {
            &&& t.title@ == m.title@
            &&& t.artist@ == m.artist@
            &&& t.album@ == m.album@
            &&& t.duration == wire_duration(m.duration)
            &&& t.format_label@ == m.format_label@
            &&& t.lossless == m.lossless
            &&& t.art_url@ == (match m.art_url {
                Some(url) => url@,
                None => Seq::<char>::empty(),
            })
            &&& t.song_id@ == m.song_id@
        },
        None => {
            &&& t.title@.len() == 0
            &&& t.artist@.len() == 0
            &&& t.album@.len() == 0
            &&& t.duration.nanos == 0
            &&& t.format_label@.len() == 0
            &&& !t.lossless
            &&& t.art_url@.len() == 0
            &&& t.song_id@.len() == 0
        },
    }
}

/// Whether a status report says what the snapshot does.
pub open spec fn reports(t: StatusTuple, snap: Snapshot) -> bool {
    &&& t.status@ == snap.status.name()
    &&& reports_track(t, snap.track)
    &&& t.position == snap.position
    &&& t.queue_index == snap.queue_index as u32
    &&& t.queue_len == snap.queue_len as u32
    &&& t.volume == snap.volume
    &&& t.repeat@ == snap.repeat.name()
    &&& t.shuffle == snap.shuffle
}

/// The status report for a snapshot.
pub fn status_tuple_from_snapshot(snap: &Snapshot) -> (t: StatusTuple)
    ensures
        reports(t, *snap),
{
    let status: String = snap.status.as_str().to_owned();
    let repeat: String = snap.repeat.as_str().to_owned();
    match &snap.track {
        Some(m) => StatusTuple {
            status,
            title: m.title.clone(),
            artist: m.artist.clone(),
            album: m.album.clone(),
            position: snap.position,
            duration: m.duration.unwrap_or(Duration::zero()),
            queue_index: snap.queue_index as u32,
            queue_len: snap.queue_len as u32,
            volume: snap.volume,
            format_label: m.format_label.clone(),
            lossless: m.lossless,
            art_url: match &m.art_url {
                Some(url) => url.clone(),
                None => String::new(),
            },
            song_id: m.song_id.clone(),
            repeat,
            shuffle: snap.shuffle,
        },
        None => StatusTuple {
            status,
            title: String::new(),
            artist: String::new(),
            album: String::new(),
            position: snap.position,
            duration: Duration::zero(),
            queue_index: snap.queue_index as u32,
            queue_len: snap.queue_len as u32,
            volume: snap.volume,
            format_label: String::new(),
            lossless: false,
            art_url: String::new(),
            song_id: String::new(),
            repeat,
            shuffle: snap.shuffle,
        },
    }
}

/// Half of `duration`, but no more than four minutes.
pub open spec fn threshold_nanos(duration: Duration) -> int {
    let half = duration.nanos / 2;
    let cap = SCROBBLE_CAP_SECS * NANOS_PER_SEC;
    if half <= cap {
        half as int
    } else {
        cap as int
    }
}

/// How long a track has to play before it counts as listened to.
pub fn scrobble_threshold(duration: Duration) -> (t: Duration)
    ensures
        t.nanos == threshold_nanos(duration),
{
    Duration { nanos: duration.nanos / 2 }.min(Duration::from_secs(SCROBBLE_CAP_SECS))
}

/// Whether leaving `current` at `position` records a play of it: it has a song
/// id and a known length, and has played past its threshold.
pub open spec fn counts_as_play(current: Option<TrackMeta>, position: Duration) -> bool {
    match current {
        Some(t) => {
            &&& t.song_id@.len() > 0
            &&& t.duration is Some
            &&& t.duration->0.nanos > 0
            &&& position.nanos >= threshold_nanos(t.duration->0)
        },
        None => false,
    }
}

/// The threshold of a length is the lesser of its half and four minutes: it is neither
/// more than half the length nor more than four minutes, and it is one of the two.
pub proof fn threshold_is_the_lesser(duration: Duration)
    ensures
        2 * threshold_nanos(duration) <= duration.nanos,
        threshold_nanos(duration) <= 240_000_000_000,
        duration.nanos <= 2 * threshold_nanos(duration) + 1 || threshold_nanos(duration)
            == 240_000_000_000,
{
}

/// A longer track never needs to play for less time, and one of up to eight minutes
/// needs half of its length.
pub proof fn threshold_grows_with_the_length(shorter: Duration, longer: Duration)
    requires
        shorter.nanos <= longer.nanos,
    ensures
        threshold_nanos(shorter) <= threshold_nanos(longer),
        longer.nanos <= 480_000_000_000 ==> threshold_nanos(longer) == longer.nanos / 2,
        longer.nanos >= 480_000_000_000 ==> threshold_nanos(longer) == 240_000_000_000,
{
}

/// A track with a song id and a known length counts as played from the moment at which
/// half of it, or four minutes of it, have been heard, and not before. Nothing else ever
/// counts.
pub proof fn play_counts_from_half_way(t: TrackMeta, length: Duration, position: Duration)
    requires
        t.duration == Some(length),
    ensures
        t.song_id@.len() > 0 && length.nanos > 0 && (2 * position.nanos >= length.nanos
            || position.nanos >= 240_000_000_000) ==> counts_as_play(Some(t), position),
        2 * position.nanos + 1 < length.nanos && position.nanos < 240_000_000_000
            ==> !counts_as_play(Some(t), position),
        t.song_id@.len() == 0 || length.nanos == 0 ==> !counts_as_play(Some(t), position),
        !counts_as_play(None, position),
{
}

/// A track whose length is not known never counts as played.
pub proof fn unknown_length_never_counts(t: TrackMeta, position: Duration)
    requires
        t.duration is None,
    ensures
        !counts_as_play(Some(t), position),
{
}

/// The song id to record a play of when `current` stops at `position`.
pub fn outgoing_scrobble(current: &Option<TrackMeta>, position: Duration) -> (r: Option<String>)
    ensures
        r == (if counts_as_play(*current, position) {
            Some(current->0.song_id)
        } else {
            None
        }),
{
    match current {
        Some(t) => {
            if t.song_id.as_str().is_empty() {
                return None;
            }
            match t.duration {
                Some(d) => if d.nanos > 0 && position.nanos >= scrobble_threshold(d).nanos {
                    Some(t.song_id.clone())
                } else {
                    None
                },
                None => None,
            }
        },
        None => None,
    }
}

/// Whether the device at `i` has exactly the requested name.
pub open spec fn named_exactly(available: Seq<String>, requested: Seq<char>, i: int) -> bool {
    available[i]@ == requested
}

/// Whether the requested name stands in the name of the device at `i`, letter
/// case aside.
pub open spec fn named_loosely(available: Seq<String>, requested: Seq<char>, i: int) -> bool {
    text::has_infix(text::lowered(available[i]@), text::lowered(requested))
}

/// Whether the device at `i` is the one to use: the first with exactly the
/// requested name, or, where there is none, the first that matches loosely.
pub open spec fn device_chosen(available: Seq<String>, requested: Seq<char>, i: int) -> bool {
    &&& 0 <= i < available.len()
    &&& if exists|k: int| 0 <= k < available.len() && named_exactly(available, requested, k) {
        &&& named_exactly(available, requested, i)
        &&& forall|k: int| 0 <= k < i ==> !named_exactly(available, requested, k)
    } else {
        &&& named_loosely(available, requested, i)
        &&& forall|k: int| 0 <= k < i ==> !named_loosely(available, requested, k)
    }
}

/// Whether some device is the one to use.
pub open spec fn some_device_matches(available: Seq<String>, requested: Seq<char>) -> bool {
    exists|k: int|
        0 <= k < available.len() && (#[trigger] named_exactly(available, requested, k)
            || named_loosely(available, requested, k))
}

/// The output device that best matches `requested`: an exact match, else the
/// first match as a part of the name, letter case aside, else none.
pub fn match_output_device<'a>(available: &'a [String], requested: &str) -> (r: Option<&'a str>)
    ensures
        r is Some <==> some_device_matches(available@, requested@),
        r is Some ==> exists|i: int|
            #[trigger] device_chosen(available@, requested@, i) && r->0@ == available@[i]@,
{
    let mut i: usize = 0;
    while i < available.len()
        invariant
            i <= available.len(),
            forall|k: int| 0 <= k < i ==> !named_exactly(available@, requested@, k),
        decreases available.len() - i,
    {
        if text::same(available[i].as_str(), requested) {
            assert(named_exactly(available@, requested@, i as int));
            assert(device_chosen(available@, requested@, i as int));
            return Some(available[i].as_str());
        }
        i = i + 1;
    }
    let wanted = text::to_lowercase(requested);
    let mut j: usize = 0;
    while j < available.len()
        invariant
            j <= available.len(),
            wanted@ == text::lowered(requested@),
            forall|k: int|
                0 <= k < available@.len() ==> !named_exactly(available@, requested@, k),
            forall|k: int| 0 <= k < j ==> !named_loosely(available@, requested@, k),
        decreases available.len() - j,
    {
        let name = text::to_lowercase(available[j].as_str());
        if text::contains(name.as_str(), wanted.as_str()) {
            assert(named_loosely(available@, requested@, j as int));
            assert(!named_exactly(available@, requested@, j as int));
            assert(device_chosen(available@, requested@, j as int));
            return Some(available[j].as_str());
        }
        j = j + 1;
    }
    None
}

/// The line that lists an output device: its name, with a mark on the system's
/// default.
pub fn device_line(name: &str, default_name: Option<&str>) -> (line: String)
    ensures
        line@ == (if default_name is Some && default_name->0@ == name@ {
            name@ + " (default)"@
        } else {
            name@
        }),
{
    let is_default: bool = match default_name {
        Some(d) => text::same(d, name),
        None => false,
    };
    let mut line = name.to_owned();
    if is_default {
        line.append(" (default)");
    }
    line
}

/// A published queue row shows its track, and a track without a length shows none.
pub proof fn row_shows_its_track(t: TrackMeta)
    ensures
        row_of(t).title == t.title,
        row_of(t).artist == t.artist,
        row_of(t).album == t.album,
        row_of(t).song_id == t.song_id,
        row_of(t).format_label == t.format_label,
        row_of(t).lossless == t.lossless,
        t.duration is Some ==> row_of(t).duration == t.duration->0,
        t.duration is None ==> row_of(t).duration.nanos == 0,
{
}

/// A status report names the status, the repeat mode and the track as published.
pub proof fn report_says_what_is_published(t: StatusTuple, snap: Snapshot)
    requires
        reports(t, snap),
    ensures
        snap.status == Status::Playing ==> t.status@ == "playing"@,
        snap.status == Status::Paused ==> t.status@ == "paused"@,
        snap.status == Status::Stopped ==> t.status@ == "stopped"@,
        snap.repeat == RepeatMode::Off ==> t.repeat@ == "off"@,
        snap.repeat == RepeatMode::Track ==> t.repeat@ == "track"@,
        snap.repeat == RepeatMode::Queue ==> t.repeat@ == "queue"@,
        t.position == snap.position,
        t.volume == snap.volume,
        t.shuffle == snap.shuffle,
        snap.queue_index <= u32::MAX ==> t.queue_index == snap.queue_index,
        snap.queue_len <= u32::MAX ==> t.queue_len == snap.queue_len,
        snap.track is Some ==> t.title@ == snap.track->0.title@ && t.artist@
            == snap.track->0.artist@ && t.album@ == snap.track->0.album@ && t.song_id@
            == snap.track->0.song_id@,
        snap.track is Some ==> t.format_label@ == snap.track->0.format_label@ && t.lossless
            == snap.track->0.lossless && t.duration == row_of(snap.track->0).duration,
        snap.track is Some && snap.track->0.art_url is Some ==> t.art_url@
            == snap.track->0.art_url->0@,
        snap.track is Some && snap.track->0.art_url is None ==> t.art_url@.len() == 0,
        snap.track is None ==> t.title@.len() == 0 && t.song_id@.len() == 0 && t.duration.nanos
            == 0 && t.artist@.len() == 0 && t.album@.len() == 0 && t.art_url@.len() == 0
            && t.format_label@.len() == 0 && !t.lossless,
{
}

/// A track is described by its queue entry; without a cover it has none, and without a
/// length above zero its length is not known.
pub proof fn track_is_what_the_entry_says(entry: QueueEntry, t: TrackMeta)
    requires
        entry_describes(entry, t),
    ensures
        t.stream_url == entry.stream_url,
        t.song_id == entry.song_id,
        t.title == entry.title,
        t.artist == entry.artist,
        t.album == entry.album,
        t.replay_gain_db == entry.replay_gain_db,
        entry.art_url@.len() == 0 <==> t.art_url is None,
        t.art_url is Some ==> t.art_url->0 == entry.art_url,
        t.duration is Some <==> crate::ieee::is_positive(entry.duration.bits),
{
}

/// A device is chosen by its exact name where one has it, and else by a part of it,
/// whatever the case; the first that fits is taken.
pub proof fn exact_name_comes_first(available: Seq<String>, requested: Seq<char>, i: int, k: int)
    requires
        device_chosen(available, requested, i),
        0 <= k < available.len(),
    ensures
        0 <= i < available.len(),
        available[k]@ == requested ==> available[i]@ == requested && i <= k,
        available[i]@ == requested || text::has_infix(
            text::lowered(available[i]@),
            text::lowered(requested),
        ),
{
    if available[k]@ == requested {
        assert(named_exactly(available, requested, k));
        if k < i {
            assert(!named_exactly(available, requested, k));
        }
    }
}

/// A device is found if one has the name that is asked for, or holds it whatever the case;
/// any device that fits will do, and without one none is found.
pub proof fn device_is_found_if_there(available: Seq<String>, requested: Seq<char>, k: int)
    ensures
        0 <= k < available.len() && (available[k]@ == requested || text::has_infix(
            text::lowered(available[k]@),
            text::lowered(requested),
        )) ==> some_device_matches(available, requested),
        available.len() == 0 ==> !some_device_matches(available, requested),
        (forall|i: int|
            0 <= i < available.len() ==> (#[trigger] available[i])@ != requested
                && !text::has_infix(text::lowered(available[i]@), text::lowered(requested)))
            ==> !some_device_matches(available, requested),
{
    if 0 <= k < available.len() && (available[k]@ == requested || text::has_infix(
        text::lowered(available[k]@),
        text::lowered(requested),
    )) {
        assert(named_exactly(available, requested, k) || named_loosely(available, requested, k));
    }
    if some_device_matches(available, requested) {
        let i = choose|i: int|
            0 <= i < available.len() && (#[trigger] named_exactly(available, requested, i)
                || named_loosely(available, requested, i));
        assert(available[i]@ == available[i]@);
    }
}

} // verus!
