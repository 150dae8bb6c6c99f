//! What the daemon and its clients say to each other: queue entries and rows,
//! the status report, requests and replies.
use crate::ieee::{Real32, Real64};
use crate::time::Duration;
use vstd::prelude::*;

verus! {

/// One track that a client hands to the daemon. An empty `art_url` stands for
/// no cover art, a `duration` of zero seconds for a length that is not known, and an
/// empty `song_id` for a track without library metadata.
#[derive(Debug, PartialEq, Eq)]
pub struct QueueEntry {
    pub stream_url: String,
    pub title: String,
    pub artist: String,
    pub album: String,
    pub art_url: String,
    pub duration: Real64,
    pub format_label: String,
    pub lossless: bool,
    pub song_id: String,
    pub replay_gain_db: Real64,
}

/// One queue row for display.
#[derive(Debug, PartialEq, Eq)]
pub struct QueueRow {
    pub title: String,
    pub artist: String,
    pub album: String,
    pub duration: Duration,
    pub format_label: String,
    pub lossless: bool,
    pub song_id: String,
}

/// A point-in-time report of what the daemon is doing.
#[derive(Debug, Clone, PartialEq, Eq)]
pub struct StatusTuple {
    pub status: String,
    pub title: String,
    pub artist: String,
    pub album: String,
    pub position: Duration,
    pub duration: Duration,
    pub queue_index: u32,
    pub queue_len: u32,
    pub volume: Real32,
    pub format_label: String,
    pub lossless: bool,
    pub art_url: String,
    pub song_id: String,
    pub repeat: String,
    pub shuffle: bool,
}

impl Clone for QueueEntry {
    fn clone(&self) -> (r: Self)
        ensures
            r == *self,
    {
        QueueEntry {
            stream_url: self.stream_url.clone(),
            title: self.title.clone(),
            artist: self.artist.clone(),
            album: self.album.clone(),
            art_url: self.art_url.clone(),
            duration: self.duration,
            format_label: self.format_label.clone(),
            lossless: self.lossless,
            song_id: self.song_id.clone(),
            replay_gain_db: self.replay_gain_db,
        }
    }
}

impl Clone for QueueRow {
    fn clone(&self) -> (r: Self)
        ensures
            r == *self,
    {
        QueueRow {
            title: self.title.clone(),
            artist: self.artist.clone(),
            album: self.album.clone(),
            duration: self.duration,
            format_label: self.format_label.clone(),
            lossless: self.lossless,
            song_id: self.song_id.clone(),
        }
    }
}

/// One call on the control channel.
#[derive(Debug, Clone, PartialEq, Eq)]
pub enum Request {
    /// Replaces the queue and plays from `start_index`.
    PlayQueue { tracks: Vec<QueueEntry>, start_index: u32 },
    /// Jumps to a track of the current queue.
    PlayAt { index: u32 },
    /// Adds tracks at the end of the queue.
    AppendQueue { tracks: Vec<QueueEntry> },
    /// Puts tracks right after the current one.
    PlayNext { tracks: Vec<QueueEntry> },
    Queue,
    RemoveFromQueue { index: u32 },
    MoveInQueue { from: u32, to: u32 },
    ClearQueue,
    Spectrum,
    Next,
    Previous,
    Pause,
    Resume,
    Stop,
    SeekTo { position: Duration },
    SetVolume { volume: Real32 },
    CycleRepeat,
    ToggleShuffle,
    Status,
    Quit,
}

/// The reply to one [`Request`].
#[derive(Debug, Clone, PartialEq, Eq)]
pub enum Response {
    Unit,
    Queue(Vec<QueueRow>),
    Spectrum(Vec<u8>),
    Status(StatusTuple),
    Error(String),
}

/// Why a call on the control channel gave no result.
#[derive(Debug, PartialEq, Eq)]
pub enum CallError {
    /// The daemon answered with an error of its own.
    Refused(String),
    /// The daemon answered with a reply to some other request.
    UnexpectedShape,
}

/// What a call without a result makes of its reply.
pub fn unit_reply(response: Response) -> (r: Result<(), CallError>)
    ensures
        match response {
            Response::Unit => r is Ok,
            Response::Error(e) => r == Err::<(), CallError>(CallError::Refused(e)),
            _ => r == Err::<(), CallError>(CallError::UnexpectedShape),
        },
{
    match response {
        Response::Unit => Ok(()),
        Response::Error(e) => Err(CallError::Refused(e)),
        _ => Err(CallError::UnexpectedShape),
    }
}

/// What a call for the queue makes of its reply.
pub fn queue_reply(response: Response) -> (r: Result<Vec<QueueRow>, CallError>)
    ensures
        match response {
            Response::Queue(rows) => r == Ok::<Vec<QueueRow>, CallError>(rows),
            Response::Error(e) => r == Err::<Vec<QueueRow>, CallError>(CallError::Refused(e)),
            _ => r == Err::<Vec<QueueRow>, CallError>(CallError::UnexpectedShape),
        },
{
    match response {
        Response::Queue(rows) => Ok(rows),
        Response::Error(e) => Err(CallError::Refused(e)),
        _ => Err(CallError::UnexpectedShape),
    }
}

/// What a call for the spectrum makes of its reply.
pub fn spectrum_reply(response: Response) -> (r: Result<Vec<u8>, CallError>)
    ensures
        match response {
            Response::Spectrum(levels) => r == Ok::<Vec<u8>, CallError>(levels),
            Response::Error(e) => r == Err::<Vec<u8>, CallError>(CallError::Refused(e)),
            _ => r == Err::<Vec<u8>, CallError>(CallError::UnexpectedShape),
        },
{
    match response {
        Response::Spectrum(levels) => Ok(levels),
        Response::Error(e) => Err(CallError::Refused(e)),
        _ => Err(CallError::UnexpectedShape),
    }
}

/// What a call for the status makes of its reply.
pub fn status_reply(response: Response) -> (r: Result<StatusTuple, CallError>)
    ensures
        match response {
            Response::Status(status) => r == Ok::<StatusTuple, CallError>(status),
            Response::Error(e) => r == Err::<StatusTuple, CallError>(CallError::Refused(e)),
            _ => r == Err::<StatusTuple, CallError>(CallError::UnexpectedShape),
        },
{
    match response {
        Response::Status(status) => Ok(status),
        Response::Error(e) => Err(CallError::Refused(e)),
        _ => Err(CallError::UnexpectedShape),
    }
}

impl CallError {
    /// What the user is told.
    pub fn message(&self) -> (m: String)
        ensures
            match *self {
                CallError::Refused(e) => m@ == e@,
                CallError::UnexpectedShape => m@
                    == "unexpected response shape for this request"@,
            },
    {
        match self {
            CallError::Refused(e) => e.clone(),
            CallError::UnexpectedShape => "unexpected response shape for this request".to_owned(),
        }
    }
}

} // verus!
