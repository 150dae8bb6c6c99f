//! Reading a stream over HTTP by ranges: a seek lets the connection go, and the next
//! read asks for the stream from the new position on.
use crate::text;
use vstd::prelude::*;

verus! {

/// Where a stream is read.
#[derive(Debug, Clone, Copy, PartialEq, Eq, Structural)]
pub struct RangeState {
    /// The byte that the next read starts at.
    pub position: u64,
    /// The length of the whole stream, once a request has told it.
    pub len: Option<u64>,
    /// Whether a connection stands at that byte.
    pub connected: bool,
}

/// Where to seek to.
#[derive(Debug, Clone, Copy, PartialEq, Eq, Structural)]
pub enum SeekTarget {
    Start(u64),
    Current(i64),
    End(i64),
}

/// Why a seek leads nowhere.
#[derive(Debug, Clone, Copy, PartialEq, Eq, Structural)]
pub enum SeekFault {
    /// To a place before the start, or past what a `u64` counts.
    OutOfRange,
    /// From the end of a stream whose length is not known.
    UnknownLength,
}

/// The status of an answer that holds the range that was asked for.
pub const PARTIAL_CONTENT: u16 = 206;

/// The byte that a seek leads to; nothing from an end that is not known.
pub open spec fn target_of(s: RangeState, to: SeekTarget) -> Option<int> {
    match to {
        SeekTarget::Start(at) => Some(at as int),
        SeekTarget::Current(by) => Some(s.position + by),
        SeekTarget::End(by) => match s.len {
            Some(len) => Some(len + by),
            None => None,
        },
    }
}

/// What a seek does. One that stays in place keeps the connection.
pub open spec fn sought(s: RangeState, to: SeekTarget) -> Result<RangeState, SeekFault> {
    match target_of(s, to) {
        None => Err(SeekFault::UnknownLength),
        Some(at) => if at < 0 || at > u64::MAX {
            Err(SeekFault::OutOfRange)
        } else if at == s.position {
            Ok(s)
        } else {
            Ok(RangeState { position: at as u64, connected: false, ..s })
        },
    }
}

/// The length of the whole stream, as the header of a range tells it: the number
/// behind the slash.
pub open spec fn total_in(content_range: Seq<char>) -> Option<u64> {
    match text::split_once(content_range, '/') {
        Some((_, total)) => match text::integer(total) {
            Some(n) => if 0 <= n <= i64::MAX {
                Some(n as u64)
            } else {
                None
            },
            None => None,
        },
        None => None,
    }
}

/// The first of two that is there.
pub open spec fn either(first: Option<u64>, second: Option<u64>) -> Option<u64> {
    if first is Some {
        first
    } else {
        second
    }
}

/// The state once a request from the position on was answered. A server that sends
/// the whole stream in place of the range tells its length in full.
pub open spec fn connected(
    s: RangeState,
    status: u16,
    total: Option<u64>,
    content_length: Option<u64>,
) -> RangeState {
    RangeState {
        len: either(
            if status == PARTIAL_CONTENT {
                total
            } else {
                content_length
            },
            s.len,
        ),
        connected: true,
        ..s
    }
}

/// How many bytes of the answer come before the position: none of a range, and all
/// up to it where the server sends the whole stream.
pub open spec fn surplus(s: RangeState, status: u16) -> u64 {
    if status == PARTIAL_CONTENT {
        0
    } else {
        s.position
    }
}

fn total_of(content_range: &str) -> (r: Option<u64>)
    ensures
        r == total_in(content_range@),
{
    let chars = text::chars_of(content_range);
    match text::split_at_char(chars.as_slice(), '/') {
        Some((_, total)) => match text::parse_i64(total) {
            Some(n) => if n >= 0 {
                Some(n as u64)
            } else {
                None
            },
            None => None,
        },
        None => None,
    }
}

impl RangeState {
    /// A stream at its start, of which nothing is known.
    pub fn new() -> (s: RangeState)
        ensures
            s == (RangeState { position: 0, len: None, connected: false }),
    {
        RangeState { position: 0, len: None, connected: false }
    }

    /// Whether the next read is past the end.
    pub fn at_end(&self) -> (r: bool)
        ensures
            r == (self.len is Some && self.position >= self.len->0),
    {
        match self.len {
            Some(len) => self.position >= len,
            None => false,
        }
    }

    /// The range to ask for: all from the position on.
    pub fn range(&self) -> (header: String)
        ensures
            header@ == "bytes="@ + text::decimal(self.position as nat) + "-"@,
    {
        "bytes=".to_owned().concat(text::render(self.position as u128).as_str()).concat("-")
    }

    /// Takes note of the answer to such a request: its status, the header that tells
    /// the range, and its length. Returns how many bytes to read and drop first.
    pub fn connect(
        &mut self,
        status: u16,
        content_range: Option<&str>,
        content_length: Option<u64>,
    ) -> (drop_first: u64)
        ensures
            *final(self) == connected(
                *old(self),
                status,
                match content_range {
                    Some(header) => total_in(header@),
                    None => None,
                },
                content_length,
            ),
            drop_first == surplus(*old(self), status),
    {
        let total: Option<u64> = match content_range {
            Some(header) => total_of(header),
            None => None,
        };
        let told: Option<u64> = if status == PARTIAL_CONTENT {
            total
        } else {
            content_length
        };
        if told.is_some() {
            self.len = told;
        }
        self.connected = true;
        if status == PARTIAL_CONTENT {
            0
        } else {
            self.position
        }
    }

    /// Takes note of a read of `n` bytes.
    pub fn advance(&mut self, n: u64)
        requires
            old(self).position + n <= u64::MAX,
        ensures
            *final(self) == (RangeState { position: (old(self).position + n) as u64, ..*old(self) }),
    {
        self.position = self.position + n;
    }

    /// Seeks, see [`sought`]. Returns the new position.
    pub fn seek(&mut self, to: SeekTarget) -> (r: Result<u64, SeekFault>)
        ensures
            match sought(*old(self), to) {
                Ok(s) => *final(self) == s && r == Ok::<u64, SeekFault>(s.position),
                Err(fault) => *final(self) == *old(self) && r == Err::<u64, SeekFault>(fault),
            },
    {
        let at: i128 = match to {
            SeekTarget::Start(at) => at as i128,
            SeekTarget::Current(by) => self.position as i128 + by as i128,
            SeekTarget::End(by) => match self.len {
                Some(len) => len as i128 + by as i128,
                None => {
                    return Err(SeekFault::UnknownLength);
                },
            },
        };
        if at < 0 || at > 0xffff_ffff_ffff_ffff {
            return Err(SeekFault::OutOfRange);
        }
        let at: u64 = at as u64;
        if at != self.position {
            self.position = at;
            self.connected = false;
        }
        Ok(at)
    }
}

/// A seek asks the server for nothing: it only lets go of a connection that stands
/// elsewhere. What is known of the length is kept.
pub proof fn seeking_is_lazy(s: RangeState, to: SeekTarget)
    requires
        sought(s, to) is Ok,
    ensures
        sought(s, to)->Ok_0.len == s.len,
        sought(s, to)->Ok_0.connected ==> s.connected && sought(s, to)->Ok_0.position
            == s.position,
{
}

/// A seek that is undone leads back to where it came from.
pub proof fn seeking_back_restores(s: RangeState, to: SeekTarget)
    requires
        sought(s, to) is Ok,
    ensures
        ({
            let back = sought(sought(s, to)->Ok_0, SeekTarget::Start(s.position));
            back is Ok && back->Ok_0.position == s.position && back->Ok_0.len == s.len
        }),
{
}

/// What is left of an answer once the surplus is dropped starts at the position,
/// whether the server sent the range or the whole stream. `stream` is that whole
/// stream.
pub proof fn surplus_ends_at_the_position(s: RangeState, status: u16, stream: Seq<u8>)
    requires
        s.position <= stream.len(),
    ensures
        ({
            let sent = if status == PARTIAL_CONTENT {
                stream.skip(s.position as int)
            } else {
                stream
            };
            sent.skip(surplus(s, status) as int) == stream.skip(s.position as int)
        }),
{
    assert(stream.skip(s.position as int).skip(0) =~= stream.skip(s.position as int));
}

/// Seeking goes where it says: to a place counted from the start, from the current place,
/// or from the end where the length is known. Only a place before the start, or past what
/// a `u64` holds, is refused, and the end only while the length is not known.
pub proof fn seeking_goes_where_it_says(s: RangeState, at: u64, by: i64)
    ensures
        sought(s, SeekTarget::Start(at)) is Ok,
        sought(s, SeekTarget::Start(at))->Ok_0.position == at,
        0 <= s.position + by <= u64::MAX ==> sought(s, SeekTarget::Current(by)) is Ok && sought(
            s,
            SeekTarget::Current(by),
        )->Ok_0.position == s.position + by,
        s.position + by < 0 ==> sought(s, SeekTarget::Current(by)) == Err::<
            RangeState,
            SeekFault,
        >(SeekFault::OutOfRange),
        s.len is Some && 0 <= s.len->0 + by <= u64::MAX ==> sought(s, SeekTarget::End(by)) is Ok
            && sought(s, SeekTarget::End(by))->Ok_0.position == s.len->0 + by,
        s.len is Some && s.len->0 + by < 0 ==> sought(s, SeekTarget::End(by)) == Err::<
            RangeState,
            SeekFault,
        >(SeekFault::OutOfRange),
        s.len is None ==> sought(s, SeekTarget::End(by)) == Err::<RangeState, SeekFault>(
            SeekFault::UnknownLength,
        ),
{
}

/// A seek to another place gives up the connection; the length stays known.
pub proof fn moving_gives_up_the_connection(s: RangeState, at: u64)
    requires
        at != s.position,
    ensures
        !sought(s, SeekTarget::Start(at))->Ok_0.connected,
        sought(s, SeekTarget::Start(at))->Ok_0.len == s.len,
{
}

/// The length of a stream is the total that a partial answer names, else what a whole
/// answer holds, else what was known before; the place stays.
pub proof fn length_comes_from_the_answer(
    s: RangeState,
    status: u16,
    total: Option<u64>,
    content_length: Option<u64>,
)
    ensures
        ({
            let t = connected(s, status, total, content_length);
            &&& t.connected
            &&& t.position == s.position
            &&& status == 206 && total is Some ==> t.len == total
            &&& status != 206 && content_length is Some ==> t.len == content_length
            &&& status == 206 && total is None ==> t.len == s.len
            &&& status != 206 && content_length is None ==> t.len == s.len
        }),
{
}

/// The total is the number behind the slash of a content range; an unknown total, written
/// as a star, is none.
pub proof fn total_stands_behind_the_slash(range: Seq<char>, total: nat)
    requires
        !range.contains('/'),
        total <= i64::MAX,
    ensures
        total_in(range + seq!['/'] + text::decimal(total)) matches Some(n) && n == total,
        total_in(range + seq!['/', '*']) is None,
        total_in(range) is None,
{
    text::decimal_reads_back(total);
    let s = range + seq!['/'] + text::decimal(total);
    text::position_is_first(s, '/');
    let k = text::position(s, '/');
    assert(s[range.len() as int] == '/');
    if k < range.len() {
        assert(range[k] == '/');
    }
    assert(s.skip(k + 1) =~= text::decimal(total));
    let t = range + seq!['/', '*'];
    text::position_is_first(t, '/');
    let j = text::position(t, '/');
    assert(t[range.len() as int] == '/');
    if j < range.len() {
        assert(range[j] == '/');
    }
    assert(t.skip(j + 1) =~= seq!['*']);
    assert(!text::is_digit(seq!['*'][0]));
    text::position_is_first(range, '/');
    if text::position(range, '/') < range.len() {
        assert(range.contains('/'));
    }
}

} // verus!
