//! The music library: what the server sends of it, what it is asked, and how its
//! replies are read.
use crate::ieee::Real64;
use crate::json::{self, Decode};
use crate::text;
use vstd::prelude::*;

verus! {

#[derive(Debug, PartialEq, Eq)]
pub struct Album {
    pub id: String,
    pub name: String,
    pub artist: String,
}

#[derive(Debug, PartialEq, Eq)]
pub struct Artist {
    pub id: String,
    pub name: String,
    pub album_count: u32,
}

#[derive(Debug, PartialEq, Eq)]
pub struct Playlist {
    pub id: String,
    pub name: String,
    pub song_count: u32,
    /// The user that the playlist belongs to.
    pub owner: String,
}

/// One of the artists that the server finds similar to another.
#[derive(Debug, PartialEq, Eq)]
pub struct SimilarArtist {
    pub id: String,
    pub name: String,
}

/// An artist's biography, as plain text, and similar artists. Empty where the
/// server knows nothing of the artist.
#[derive(Debug, PartialEq, Eq)]
pub struct ArtistInfo {
    pub biography: String,
    pub similar_artists: Vec<SimilarArtist>,
}

/// An album's notes, as plain text. Empty where the server has none.
#[derive(Debug, PartialEq, Eq)]
pub struct AlbumInfo {
    pub notes: String,
}

#[derive(Debug, PartialEq, Eq)]
pub struct Genre {
    pub value: String,
    pub song_count: u32,
    pub album_count: u32,
}

/// The gains that a file's tags give, in decibels.
#[derive(Debug, Clone, Copy, PartialEq, Eq, Structural)]
pub struct ReplayGain {
    pub track_gain: Option<Real64>,
    pub album_gain: Option<Real64>,
}

#[derive(Debug, PartialEq, Eq)]
pub struct Song {
    pub id: String,
    pub title: String,
    pub artist: String,
    pub album: String,
    /// In seconds; zero where the length is not known.
    pub duration: Real64,
    pub cover_art: Option<String>,
    /// The file extension, such as "flac" or "mp3".
    pub suffix: String,
    pub bit_rate: Option<u32>,
    /// When the song was starred, if it is.
    pub starred: Option<String>,
    pub replay_gain: Option<ReplayGain>,
}

impl Clone for Album {
    fn clone(&self) -> (r: Self)
        ensures
            r == *self,
    {
        Album {
            id: self.id.clone(),
            name: self.name.clone(),
            artist: self.artist.clone(),
        }
    }
}

impl Clone for Artist {
    fn clone(&self) -> (r: Self)
        ensures
            r == *self,
    {
        Artist {
            id: self.id.clone(),
            name: self.name.clone(),
            album_count: self.album_count,
        }
    }
}

impl Clone for Playlist {
    fn clone(&self) -> (r: Self)
        ensures
            r == *self,
    {
        Playlist {
            id: self.id.clone(),
            name: self.name.clone(),
            song_count: self.song_count,
            owner: self.owner.clone(),
        }
    }
}

impl Clone for SimilarArtist {
    fn clone(&self) -> (r: Self)
        ensures
            r == *self,
    {
        SimilarArtist {
            id: self.id.clone(),
            name: self.name.clone(),
        }
    }
}

impl Clone for Genre {
    fn clone(&self) -> (r: Self)
        ensures
            r == *self,
    {
        Genre {
            value: self.value.clone(),
            song_count: self.song_count,
            album_count: self.album_count,
        }
    }
}

impl Clone for Song {
    fn clone(&self) -> (r: Self)
        ensures
            r == *self,
    {
        Song {
            id: self.id.clone(),
            title: self.title.clone(),
            artist: self.artist.clone(),
            album: self.album.clone(),
            duration: self.duration,
            cover_art: self.cover_art.clone(),
            suffix: self.suffix.clone(),
            bit_rate: self.bit_rate,
            starred: self.starred.clone(),
            replay_gain: self.replay_gain,
        }
    }
}

impl Default for ArtistInfo {
    fn default() -> (r: Self)
        ensures
            r.biography@.len() == 0,
            r.similar_artists@.len() == 0,
    {
        ArtistInfo { biography: String::new(), similar_artists: Vec::new() }
    }
}

impl Default for AlbumInfo {
    fn default() -> (r: Self)
        ensures
            r.notes@.len() == 0,
    {
        AlbumInfo { notes: String::new() }
    }
}

impl Song {
    pub fn is_starred(&self) -> (r: bool)
        ensures
            r == (self.starred is Some),
    {
        self.starred.is_some()
    }

    /// The gain to apply: the track's own, else its album's, else none.
    pub open spec fn gain(&self) -> Real64 {
        match self.replay_gain {
            Some(g) => match g.track_gain {
                Some(db) => db,
                None => match g.album_gain {
                    Some(db) => db,
                    None => Real64 { bits: crate::ieee::ZERO_64 },
                },
            },
            None => Real64 { bits: crate::ieee::ZERO_64 },
        }
    }

    /// The gain to apply, in decibels.
    pub fn replay_gain_db(&self) -> (db: Real64)
        ensures
            db == self.gain(),
    {
        match &self.replay_gain {
            Some(g) => match g.track_gain {
                Some(db) => db,
                None => match g.album_gain {
                    Some(db) => db,
                    None => Real64::zero(),
                },
            },
            None => Real64::zero(),
        }
    }
}

/// The characters of a text outside its tags, which run from `<` to `>`.
/// `in_tag` tells whether the text starts inside one.
pub open spec fn outside_tags(s: Seq<char>, in_tag: bool) -> Seq<char>
    decreases s.len(),
{
    if s.len() == 0 {
        Seq::empty()
    } else if s[0] == '<' {
        outside_tags(s.skip(1), true)
    } else if s[0] == '>' {
        outside_tags(s.skip(1), false)
    } else if in_tag {
        outside_tags(s.skip(1), true)
    } else {
        seq![s[0]] + outside_tags(s.skip(1), false)
    }
}

/// A text with the entities that biographies and notes use replaced by what they
/// stand for, one after the other.
pub open spec fn unescaped(s: Seq<char>) -> Seq<char> {
    let a = text::replaced(s, "&amp;"@, "&"@);
    let b = text::replaced(a, "&quot;"@, "\""@);
    let c = text::replaced(b, "&apos;"@, "'"@);
    let d = text::replaced(c, "&#39;"@, "'"@);
    let e = text::replaced(d, "&lt;"@, "<"@);
    text::replaced(e, "&gt;"@, ">"@)
}

/// The plain text of an HTML text: no tags, no entities, no white space at the
/// ends.
pub open spec fn plain_text(html: Seq<char>) -> Seq<char> {
    text::trimmed(unescaped(outside_tags(html, false)))
}

/// The plain text of an HTML text.
pub fn strip_html(input: &str) -> (out: String)
    ensures
        out@ == plain_text(input@),
{
    let chars = text::chars_of(input);
    let mut kept: Vec<char> = Vec::new();
    let mut in_tag: bool = false;
    let mut i: usize = 0;
    assert(chars@.skip(0) =~= chars@);
    assert(kept@ + outside_tags(chars@, false) =~= outside_tags(chars@, false));
    while i < chars.len()
        invariant
            i <= chars.len(),
            kept@ + outside_tags(chars@.skip(i as int), in_tag) == outside_tags(chars@, false),
        decreases chars.len() - i,
    {
        let c: char = chars[i];
        let ghost before = kept@;
        assert(chars@.skip(i as int)[0] == c);
        assert(chars@.skip(i as int).skip(1) =~= chars@.skip(i + 1));
        if c == '<' {
            in_tag = true;
        } else if c == '>' {
            in_tag = false;
        } else if !in_tag {
            kept.push(c);
            assert(kept@ + outside_tags(chars@.skip(i + 1), false) =~= before + (seq![c]
                + outside_tags(chars@.skip(i + 1), false)));
        }
        i = i + 1;
    }
    assert(outside_tags(chars@.skip(i as int), in_tag) =~= Seq::<char>::empty());
    assert(kept@ =~= outside_tags(input@, false));
    proof {
        reveal_strlit("&amp;");
        reveal_strlit("&quot;");
        reveal_strlit("&apos;");
        reveal_strlit("&#39;");
        reveal_strlit("&lt;");
        reveal_strlit("&gt;");
    }
    let a = text::replace(&kept, "&amp;", "&");
    let b = text::replace(&a, "&quot;", "\"");
    let c = text::replace(&b, "&apos;", "'");
    let d = text::replace(&c, "&#39;", "'");
    let e = text::replace(&d, "&lt;", "<");
    let f = text::replace(&e, "&gt;", ">");
    text::string_of(text::trim_chars(f.as_slice()))
}

/// What is left outside the tags holds no angle bracket.
pub proof fn outside_tags_holds_no_bracket(s: Seq<char>, in_tag: bool)
    ensures
        !outside_tags(s, in_tag).contains('<'),
        !outside_tags(s, in_tag).contains('>'),
    decreases s.len(),
{
    if s.len() > 0 {
        outside_tags_holds_no_bracket(s.skip(1), true);
        outside_tags_holds_no_bracket(s.skip(1), false);
        if s[0] != '<' && s[0] != '>' && !in_tag {
            let rest = outside_tags(s.skip(1), false);
            let all = outside_tags(s, false);
            assert forall|i: int| 0 <= i < all.len() implies all[i] != '<' && all[i] != '>' by {
                if i > 0 {
                    assert(all[i] == rest[i - 1]);
                    assert(rest.contains(rest[i - 1]));
                }
            }
        }
    }
}

/// What the server knows of an artist, as it sends it.
#[derive(Debug, PartialEq, Eq)]
pub struct RawArtistInfo {
    pub biography: String,
    pub similar_artist: Vec<SimilarArtist>,
}

/// What is shown of an artist: the biography as plain text, and the similar
/// artists. Nothing, and no error, where the server sent nothing.
pub fn artist_info_from(raw: Option<RawArtistInfo>) -> (info: ArtistInfo)
    ensures
        match raw {
            Some(r) => info.biography@ == plain_text(r.biography@) && info.similar_artists
                == r.similar_artist,
            None => info.biography@.len() == 0 && info.similar_artists@.len() == 0,
        },
{
    match raw {
        Some(r) => ArtistInfo {
            biography: strip_html(r.biography.as_str()),
            similar_artists: r.similar_artist,
        },
        None => ArtistInfo::default(),
    }
}

/// What is shown of an album: its notes as plain text. Nothing, and no error,
/// where the server sent nothing.
pub fn album_info_from(notes: Option<String>) -> (info: AlbumInfo)
    ensures
        match notes {
            Some(n) => info.notes@ == plain_text(n@),
            None => info.notes@.len() == 0,
        },
{
    match notes {
        Some(n) => AlbumInfo { notes: strip_html(n.as_str()) },
        None => AlbumInfo::default(),
    }
}

/// The extensions of formats that are lossless whatever they hold. `m4a` is not
/// one of them: it can hold either kind.
pub open spec fn lossless_suffix(lower: Seq<char>) -> bool {
    ||| lower == "flac"@
    ||| lower == "alac"@
    ||| lower == "ape"@
    ||| lower == "wav"@
    ||| lower == "wv"@
    ||| lower == "aiff"@
    ||| lower == "aif"@
    ||| lower == "dsf"@
    ||| lower == "dff"@
}

fn is_lossless_suffix(lower: &str) -> (r: bool)
    ensures
        r == lossless_suffix(lower@),
{
    text::same(lower, "flac") || text::same(lower, "alac") || text::same(lower, "ape")
        || text::same(lower, "wav") || text::same(lower, "wv") || text::same(lower, "aiff")
        || text::same(lower, "aif") || text::same(lower, "dsf") || text::same(lower, "dff")
}

/// Whether a file with this extension is lossless.
pub open spec fn is_lossless(suffix: Seq<char>) -> bool {
    lossless_suffix(suffix.map_values(|c: char| text::ascii_lower(c)))
}

/// The label of a format: its extension in upper case, with the bit rate behind
/// it where it is lossy and has one.
pub open spec fn label_of(suffix: Seq<char>, bit_rate: Option<u32>) -> Seq<char> {
    let upper = suffix.map_values(|c: char| text::ascii_upper(c));
    if !is_lossless(suffix) && bit_rate is Some && bit_rate->0 > 0 {
        upper + " "@ + text::decimal(bit_rate->0 as nat)
    } else {
        upper
    }
}

/// A short label for a song's format, and whether that is lossless. A song
/// without an extension has no label.
pub fn format_label(suffix: &str, bit_rate: Option<u32>) -> (r: (String, bool))
    ensures
        suffix@.len() == 0 ==> r.0@.len() == 0 && !r.1,
        suffix@.len() > 0 ==> r.0@ == label_of(suffix@, bit_rate) && r.1 == is_lossless(suffix@),
{
    if suffix.is_empty() {
        return (String::new(), false);
    }
    let lower: String = text::to_ascii_lowercase(suffix);
    let lossless: bool = is_lossless_suffix(lower.as_str());
    let upper: String = text::to_ascii_uppercase(suffix);
    match bit_rate {
        Some(kbps) => if !lossless && kbps > 0 {
            let number: String = text::render(kbps as u128);
            (upper.concat(" ").concat(number.as_str()), lossless)
        } else {
            (upper, lossless)
        },
        None => (upper, lossless),
    }
}

/// A lossless format's label does not depend on the bit rate.
pub proof fn lossless_label_hides_bit_rate(
    suffix: Seq<char>,
    one: Option<u32>,
    other: Option<u32>,
)
    requires
        is_lossless(suffix),
    ensures
        label_of(suffix, one) == label_of(suffix, other),
{
}

/// The playlists that belong to a user, in order.
pub fn own_playlists(all: Vec<Playlist>, username: &str) -> (own: Vec<Playlist>)
    ensures
        own@ == all@.filter(belonging_to(username@)),
{
    let mut own: Vec<Playlist> = Vec::new();
    let mut i: usize = 0;
    proof {
        reveal(Seq::filter);
    }
    assert(all@.take(0).filter(belonging_to(username@)) =~= Seq::<Playlist>::empty());
    while i < all.len()
        invariant
            i <= all.len(),
            own@ == all@.take(i as int).filter(belonging_to(username@)),
        decreases all.len() - i,
    {
        proof {
            reveal(Seq::filter);
        }
        assert(all@.take(i + 1).drop_last() =~= all@.take(i as int));
        if text::same(all[i].owner.as_str(), username) {
            own.push(all[i].clone());
        }
        i = i + 1;
    }
    assert(all@.take(i as int) =~= all@);
    own
}

/// Whether a playlist belongs to a user.
pub open spec fn belonging_to(username: Seq<char>) -> spec_fn(Playlist) -> bool {
    |p: Playlist| p.owner@ == username
}

/// What an [`Album`] says.
#[verifier::ext_equal]
pub struct AlbumView {
    pub id: Seq<char>,
    pub name: Seq<char>,
    pub artist: Seq<char>,
}

impl View for Album {
    type V = AlbumView;

    open spec fn view(&self) -> AlbumView {
        AlbumView {
            id: self.id@,
            name: self.name@,
            artist: self.artist@,
        }
    }
}

impl Decode for Album {
    open spec fn decoded(value: Seq<char>) -> Option<AlbumView> {
        let id = json::wanted_text(json::field_of(value, 0, "id"@));
        let name = json::wanted_text(json::field_of(value, 1, "name"@));
        let artist = json::text_or_empty(json::field_of(value, 2, "artist"@));
        if json::is_record(value, 3) && id is Some && name is Some && artist is Some {
            Some(AlbumView { id: id->0, name: name->0, artist: artist->0 })
        } else {
            None
        }
    }

    fn decode(value: &str) -> (r: Option<Self>) {
        if !json::record(value, 3) {
            return None;
        }
        let id = match json::read_wanted_text(json::field(value, 0, "id")) {
            Some(x) => x,
            None => {
                return None;
            },
        };
        let name = match json::read_wanted_text(json::field(value, 1, "name")) {
            Some(x) => x,
            None => {
                return None;
            },
        };
        let artist = match json::read_text_or_empty(json::field(value, 2, "artist")) {
            Some(x) => x,
            None => {
                return None;
            },
        };
        Some(Album { id, name, artist })
    }
}

/// What an [`Artist`] says.
#[verifier::ext_equal]
pub struct ArtistView {
    pub id: Seq<char>,
    pub name: Seq<char>,
    pub album_count: u32,
}

impl View for Artist {
    type V = ArtistView;

    open spec fn view(&self) -> ArtistView {
        ArtistView {
            id: self.id@,
            name: self.name@,
            album_count: self.album_count,
        }
    }
}

impl Decode for Artist {
    open spec fn decoded(value: Seq<char>) -> Option<ArtistView> {
        let id = json::wanted_text(json::field_of(value, 0, "id"@));
        let name = json::wanted_text(json::field_of(value, 1, "name"@));
        let album_count = json::count_or_zero(json::field_of(value, 2, "albumCount"@));
        if json::is_record(value, 3) && id is Some && name is Some && album_count is Some {
            Some(ArtistView { id: id->0, name: name->0, album_count: album_count->0 })
        } else {
            None
        }
    }

    fn decode(value: &str) -> (r: Option<Self>) {
        if !json::record(value, 3) {
            return None;
        }
        let id = match json::read_wanted_text(json::field(value, 0, "id")) {
            Some(x) => x,
            None => {
                return None;
            },
        };
        let name = match json::read_wanted_text(json::field(value, 1, "name")) {
            Some(x) => x,
            None => {
                return None;
            },
        };
        let album_count = match json::read_count_or_zero(json::field(value, 2, "albumCount")) {
            Some(x) => x,
            None => {
                return None;
            },
        };
        Some(Artist { id, name, album_count })
    }
}

/// What a [`Playlist`] says.
#[verifier::ext_equal]
pub struct PlaylistView {
    pub id: Seq<char>,
    pub name: Seq<char>,
    pub song_count: u32,
    pub owner: Seq<char>,
}

impl View for Playlist {
    type V = PlaylistView;

    open spec fn view(&self) -> PlaylistView {
        PlaylistView {
            id: self.id@,
            name: self.name@,
            song_count: self.song_count,
            owner: self.owner@,
        }
    }
}

impl Decode for Playlist {
    open spec fn decoded(value: Seq<char>) -> Option<PlaylistView> {
        let id = json::wanted_text(json::field_of(value, 0, "id"@));
        let name = json::wanted_text(json::field_of(value, 1, "name"@));
        let song_count = json::count_or_zero(json::field_of(value, 2, "songCount"@));
        let owner = json::text_or_empty(json::field_of(value, 3, "owner"@));
        if json::is_record(value, 4) && id is Some && name is Some && song_count is Some && owner is Some {
            Some(PlaylistView { id: id->0, name: name->0, song_count: song_count->0, owner: owner->0 })
        } else {
            None
        }
    }

    fn decode(value: &str) -> (r: Option<Self>) {
        if !json::record(value, 4) {
            return None;
        }
        let id = match json::read_wanted_text(json::field(value, 0, "id")) {
            Some(x) => x,
            None => {
                return None;
            },
        };
        let name = match json::read_wanted_text(json::field(value, 1, "name")) {
            Some(x) => x,
            None => {
                return None;
            },
        };
        let song_count = match json::read_count_or_zero(json::field(value, 2, "songCount")) {
            Some(x) => x,
            None => {
                return None;
            },
        };
        let owner = match json::read_text_or_empty(json::field(value, 3, "owner")) {
            Some(x) => x,
            None => {
                return None;
            },
        };
        Some(Playlist { id, name, song_count, owner })
    }
}

/// What a [`SimilarArtist`] says.
#[verifier::ext_equal]
pub struct SimilarArtistView {
    pub id: Seq<char>,
    pub name: Seq<char>,
}

impl View for SimilarArtist {
    type V = SimilarArtistView;

    open spec fn view(&self) -> SimilarArtistView {
        SimilarArtistView {
            id: self.id@,
            name: self.name@,
        }
    }
}

impl Decode for SimilarArtist {
    open spec fn decoded(value: Seq<char>) -> Option<SimilarArtistView> {
        let id = json::wanted_text(json::field_of(value, 0, "id"@));
        let name = json::wanted_text(json::field_of(value, 1, "name"@));
        if json::is_record(value, 2) && id is Some && name is Some {
            Some(SimilarArtistView { id: id->0, name: name->0 })
        } else {
            None
        }
    }

    fn decode(value: &str) -> (r: Option<Self>) {
        if !json::record(value, 2) {
            return None;
        }
        let id = match json::read_wanted_text(json::field(value, 0, "id")) {
            Some(x) => x,
            None => {
                return None;
            },
        };
        let name = match json::read_wanted_text(json::field(value, 1, "name")) {
            Some(x) => x,
            None => {
                return None;
            },
        };
        Some(SimilarArtist { id, name })
    }
}

/// What a [`Genre`] says.
#[verifier::ext_equal]
pub struct GenreView {
    pub value: Seq<char>,
    pub song_count: u32,
    pub album_count: u32,
}

impl View for Genre {
    type V = GenreView;

    open spec fn view(&self) -> GenreView {
        GenreView {
            value: self.value@,
            song_count: self.song_count,
            album_count: self.album_count,
        }
    }
}

impl Decode for Genre {
    open spec fn decoded(value: Seq<char>) -> Option<GenreView> {
        let name = json::wanted_text(json::field_of(value, 0, "value"@));
        let song_count = json::count_or_zero(json::field_of(value, 1, "songCount"@));
        let album_count = json::count_or_zero(json::field_of(value, 2, "albumCount"@));
        if json::is_record(value, 3) && name is Some && song_count is Some && album_count is Some {
            Some(GenreView { value: name->0, song_count: song_count->0, album_count: album_count->0 })
        } else {
            None
        }
    }

    fn decode(value: &str) -> (r: Option<Self>) {
        if !json::record(value, 3) {
            return None;
        }
        let name = match json::read_wanted_text(json::field(value, 0, "value")) {
            Some(x) => x,
            None => {
                return None;
            },
        };
        let song_count = match json::read_count_or_zero(json::field(value, 1, "songCount")) {
            Some(x) => x,
            None => {
                return None;
            },
        };
        let album_count = match json::read_count_or_zero(json::field(value, 2, "albumCount")) {
            Some(x) => x,
            None => {
                return None;
            },
        };
        Some(Genre { value: name, song_count, album_count })
    }
}

impl View for ReplayGain {
    type V = ReplayGain;

    open spec fn view(&self) -> ReplayGain {
        *self
    }
}

/// A number, where there is one.
pub open spec fn real_of(bits: Option<u64>) -> Option<Real64> {
    match bits {
        Some(b) => Some(Real64 { bits: b }),
        None => None,
    }
}

fn to_real(bits: Option<u64>) -> (r: Option<Real64>)
    ensures
        r == real_of(bits),
{
    match bits {
        Some(b) => Some(Real64 { bits: b }),
        None => None,
    }
}

impl Decode for ReplayGain {
    open spec fn decoded(value: Seq<char>) -> Option<ReplayGain> {
        let track_gain = json::maybe_real(json::field_of(value, 0, "trackGain"@));
        let album_gain = json::maybe_real(json::field_of(value, 1, "albumGain"@));
        if json::is_record(value, 2) && track_gain is Some && album_gain is Some {
            Some(ReplayGain { track_gain: real_of(track_gain->0), album_gain: real_of(album_gain->0) })
        } else {
            None
        }
    }

    fn decode(value: &str) -> (r: Option<Self>) {
        if !json::record(value, 2) {
            return None;
        }
        let track_gain = match json::read_maybe_real(json::field(value, 0, "trackGain")) {
            Some(x) => x,
            None => {
                return None;
            },
        };
        let album_gain = match json::read_maybe_real(json::field(value, 1, "albumGain")) {
            Some(x) => x,
            None => {
                return None;
            },
        };
        Some(ReplayGain { track_gain: to_real(track_gain), album_gain: to_real(album_gain) })
    }
}

/// The gains of a song: nothing where they are missing or null.
pub open spec fn maybe_gain(value: Option<Seq<char>>) -> Option<Option<ReplayGain>> {
    match value {
        Some(value) => if value == "null"@ {
            Some(None)
        } else {
            match ReplayGain::decoded(value) {
                Some(g) => Some(Some(g)),
                None => None,
            }
        },
        None => Some(None),
    }
}

fn read_maybe_gain(value: Option<String>) -> (r: Option<Option<ReplayGain>>)
    ensures
        r == maybe_gain(json::opt_view(value)),
{
    match value {
        Some(value) => if text::same(value.as_str(), "null") {
            Some(None)
        } else {
            match ReplayGain::decode(value.as_str()) {
                Some(g) => Some(Some(g)),
                None => None,
            }
        },
        None => Some(None),
    }
}

/// What a [`Song`] says.
#[verifier::ext_equal]
pub struct SongView {
    pub id: Seq<char>,
    pub title: Seq<char>,
    pub artist: Seq<char>,
    pub album: Seq<char>,
    pub duration: Real64,
    pub cover_art: Option<Seq<char>>,
    pub suffix: Seq<char>,
    pub bit_rate: Option<u32>,
    pub starred: Option<Seq<char>>,
    pub replay_gain: Option<ReplayGain>,
}

impl View for Song {
    type V = SongView;

    open spec fn view(&self) -> SongView {
        SongView {
            id: self.id@,
            title: self.title@,
            artist: self.artist@,
            album: self.album@,
            duration: self.duration,
            cover_art: json::opt_view(self.cover_art),
            suffix: self.suffix@,
            bit_rate: self.bit_rate,
            starred: json::opt_view(self.starred),
            replay_gain: self.replay_gain,
        }
    }
}

impl Decode for Song {
    open spec fn decoded(value: Seq<char>) -> Option<SongView> {
        let id = json::wanted_text(json::field_of(value, 0, "id"@));
        let title = json::wanted_text(json::field_of(value, 1, "title"@));
        let artist = json::text_or_empty(json::field_of(value, 2, "artist"@));
        let album = json::text_or_empty(json::field_of(value, 3, "album"@));
        let duration = json::real_or_zero(json::field_of(value, 4, "duration"@));
        let cover_art = json::maybe_text(json::field_of(value, 5, "coverArt"@));
        let suffix = json::text_or_empty(json::field_of(value, 6, "suffix"@));
        let bit_rate = json::maybe_count(json::field_of(value, 7, "bitRate"@));
        let starred = json::maybe_text(json::field_of(value, 8, "starred"@));
        let replay_gain = maybe_gain(json::field_of(value, 9, "replayGain"@));
        if json::is_record(value, 10) && id is Some && title is Some && artist is Some && album is Some
            && duration is Some && cover_art is Some && suffix is Some && bit_rate is Some
            && starred is Some && replay_gain is Some {
            Some(
                SongView {
                    id: id->0,
                    title: title->0,
                    artist: artist->0,
                    album: album->0,
                    duration: Real64 { bits: duration->0 },
                    cover_art: cover_art->0,
                    suffix: suffix->0,
                    bit_rate: bit_rate->0,
                    starred: starred->0,
                    replay_gain: replay_gain->0,
                },
            )
        } else {
            None
        }
    }

    fn decode(value: &str) -> (r: Option<Self>) {
        if !json::record(value, 10) {
            return None;
        }
        let id = match json::read_wanted_text(json::field(value, 0, "id")) {
            Some(x) => x,
            None => {
                return None;
            },
        };
        let title = match json::read_wanted_text(json::field(value, 1, "title")) {
            Some(x) => x,
            None => {
                return None;
            },
        };
        let artist = match json::read_text_or_empty(json::field(value, 2, "artist")) {
            Some(x) => x,
            None => {
                return None;
            },
        };
        let album = match json::read_text_or_empty(json::field(value, 3, "album")) {
            Some(x) => x,
            None => {
                return None;
            },
        };
        let duration = match json::read_real_or_zero(json::field(value, 4, "duration")) {
            Some(x) => x,
            None => {
                return None;
            },
        };
        let cover_art = match json::read_maybe_text(json::field(value, 5, "coverArt")) {
            Some(x) => x,
            None => {
                return None;
            },
        };
        let suffix = match json::read_text_or_empty(json::field(value, 6, "suffix")) {
            Some(x) => x,
            None => {
                return None;
            },
        };
        let bit_rate = match json::read_maybe_count(json::field(value, 7, "bitRate")) {
            Some(x) => x,
            None => {
                return None;
            },
        };
        let starred = match json::read_maybe_text(json::field(value, 8, "starred")) {
            Some(x) => x,
            None => {
                return None;
            },
        };
        let replay_gain = match read_maybe_gain(json::field(value, 9, "replayGain")) {
            Some(x) => x,
            None => {
                return None;
            },
        };
        Some(
            Song {
                id,
                title,
                artist,
                album,
                duration: Real64 { bits: duration },
                cover_art,
                suffix,
                bit_rate,
                starred,
                replay_gain,
            },
        )
    }
}

/// Why the server's answer to a request is of no use.
#[derive(Debug, PartialEq, Eq)]
pub enum ClientError {
    /// The request could not be made.
    Unreachable { path: String },
    /// The server answered with an HTTP error.
    ErrorStatus { path: String },
    /// The answer is no JSON.
    NotJson { path: String },
    /// The server refused, and said why.
    Refused { path: String, message: String },
    /// The answer lacks the expected shape.
    UnexpectedShape,
    UnexpectedArtistInfo,
    UnexpectedAlbumInfo,
    /// A new playlist has no id.
    NoPlaylistId,
}

impl ClientError {
    pub open spec fn text(self) -> Seq<char> {
        match self {
            ClientError::Unreachable { path } => "requesting "@ + path@,
            ClientError::ErrorStatus { path } => path@ + " returned an error status"@,
            ClientError::NotJson { path } => "parsing "@ + path@ + " response"@,
            ClientError::Refused { path, message } => path@ + ": "@ + message@,
            ClientError::UnexpectedShape => "unexpected response shape"@,
            ClientError::UnexpectedArtistInfo => "unexpected artistInfo2 response shape"@,
            ClientError::UnexpectedAlbumInfo => "unexpected albumInfo response shape"@,
            ClientError::NoPlaylistId => "createPlaylist response had no playlist id"@,
        }
    }

    /// What the user is told.
    pub fn message(&self) -> (m: String)
        ensures
            m@ == self.text(),
    {
        match self {
            ClientError::Unreachable { path } => "requesting ".to_owned().concat(path.as_str()),
            ClientError::ErrorStatus { path } => path.clone().concat(" returned an error status"),
            ClientError::NotJson { path } => "parsing ".to_owned().concat(path.as_str()).concat(
                " response",
            ),
            ClientError::Refused { path, message } => path.clone().concat(": ").concat(
                message.as_str(),
            ),
            ClientError::UnexpectedShape => "unexpected response shape".to_owned(),
            ClientError::UnexpectedArtistInfo => "unexpected artistInfo2 response shape".to_owned(),
            ClientError::UnexpectedAlbumInfo => "unexpected albumInfo response shape".to_owned(),
            ClientError::NoPlaylistId => "createPlaylist response had no playlist id".to_owned(),
        }
    }
}

/// The string at a path of keys.
pub open spec fn string_at(value: Option<Seq<char>>, path: Seq<Seq<char>>) -> Option<Seq<char>> {
    match json::at_path(value, path) {
        Some(found) => json::string_in(found),
        None => None,
    }
}

/// Whether the server says of an answer that all went well.
pub open spec fn says_ok(root: Option<Seq<char>>) -> bool {
    string_at(root, seq!["status"@]) == Some("ok"@)
}

/// Why the server says that it refused.
pub open spec fn refusal(root: Option<Seq<char>>) -> Seq<char> {
    match string_at(root, seq!["error"@, "message"@]) {
        Some(message) => message,
        None => "unknown error"@,
    }
}

/// What comes of an answer whose status is `status`, and which names `message` as
/// its error.
pub fn judge_reply(path: &str, status: Option<&str>, message: Option<String>) -> (r: Result<
    (),
    ClientError,
>)
    ensures
        status is Some && status->0@ == "ok"@ ==> r is Ok,
        !(status is Some && status->0@ == "ok"@) ==> (r matches Err(
            ClientError::Refused { path: p, message: m },
        ) && p@ == path@ && m@ == (match message {
            Some(text) => text@,
            None => "unknown error"@,
        })),
{
    let fine: bool = match status {
        Some(s) => text::same(s, "ok"),
        None => false,
    };
    if fine {
        Ok(())
    } else {
        let why: String = match message {
            Some(text) => text,
            None => "unknown error".to_owned(),
        };
        Err(ClientError::Refused { path: path.to_owned(), message: why })
    }
}

/// The part of an answer that holds the results.
pub open spec fn reply_root(body: Seq<char>) -> Option<Seq<char>> {
    json::member_of(body, "subsonic-response"@)
}

/// Reads the answer to a request for `path`: an error where it is no JSON or where
/// the server refused, else the part that holds the results.
pub fn read_reply(path: &str, body: &str) -> (r: Result<String, ClientError>)
    ensures
        !json::is_json(body@) ==> (r matches Err(ClientError::NotJson { path: p }) && p@
            == path@),
        json::is_json(body@) && says_ok(reply_root(body@)) ==> (r matches Ok(root)
            && Some(root@) == reply_root(body@)),
        json::is_json(body@) && !says_ok(reply_root(body@)) ==> (r matches Err(
            ClientError::Refused { path: p, message: m },
        ) && p@ == path@ && m@ == refusal(reply_root(body@))),
{
    if !json::valid(body) {
        return Err(ClientError::NotJson { path: path.to_owned() });
    }
    proof {
        reveal_with_fuel(json::at_path, 3);
        assert(seq!["status"@].skip(1) =~= Seq::<Seq<char>>::empty());
        assert(seq!["error"@, "message"@].skip(1) =~= seq!["message"@]);
        assert(seq!["message"@].skip(1) =~= Seq::<Seq<char>>::empty());
    }
    match json::member(body, "subsonic-response") {
        None => match judge_reply(path, None, None) {
            Ok(_) => Ok(String::new()),
            Err(e) => Err(e),
        },
        Some(root) => {
            let status: Option<String> = json::read_wanted_text(
                json::member(root.as_str(), "status"),
            );
            let message: Option<String> = match json::at_two(root.as_str(), "error", "message") {
                Some(value) => json::string(value.as_str()),
                None => None,
            };
            let said: Option<&str> = match &status {
                Some(s) => Some(s.as_str()),
                None => None,
            };
            match judge_reply(path, said, message) {
                Ok(_) => Ok(root),
                Err(e) => Err(e),
            }
        },
    }
}

/// Reads the list at two keys of an answer, empty where it is missing or null.
pub fn list_reply<T: Decode>(root: &str, first: &str, second: &str) -> (r: Result<
    Vec<T>,
    ClientError,
>)
    ensures
        match json::decoded_list::<T>(json::at_path(Some(root@), seq![first@, second@])) {
            Some(v) => r matches Ok(list) && json::item_views(list@) == v,
            None => r matches Err(e) && e == ClientError::UnexpectedShape,
        },
{
    match json::read_list(&json::at_two(root, first, second)) {
        Some(list) => Ok(list),
        None => Err(ClientError::UnexpectedShape),
    }
}

/// An album is read from an object with an id and a name; its artist may be missing.
pub proof fn album_says_what_was_sent(value: Seq<char>)
    requires
        json::members_of(value) is Some,
        json::items_of(value) is None,
    ensures
        Album::decoded(value) is Some <==> {
            &&& json::member_of(value, "id"@) is Some && json::string_in(json::member_of(value, "id"@)->0) is Some
            &&& json::member_of(value, "name"@) is Some && json::string_in(json::member_of(value, "name"@)->0) is Some
            &&& (json::member_of(value, "artist"@) is Some ==> json::string_in(json::member_of(value, "artist"@)->0) is Some)
        },
        Album::decoded(value) matches Some(v) ==> {
            &&& json::member_of(value, "id"@) is Some && json::string_in(json::member_of(value, "id"@)->0) == Some(v.id)
            &&& json::member_of(value, "name"@) is Some && json::string_in(json::member_of(value, "name"@)->0) == Some(v.name)
            &&& json::member_of(value, "artist"@) is Some ==> json::string_in(json::member_of(value, "artist"@)->0) == Some(v.artist)
            &&& json::member_of(value, "artist"@) is None ==> v.artist.len() == 0
        },
{
}

/// An artist is read from an object with an id and a name; without a count it has no albums.
pub proof fn artist_says_what_was_sent(value: Seq<char>)
    requires
        json::members_of(value) is Some,
        json::items_of(value) is None,
    ensures
        Artist::decoded(value) is Some <==> {
            &&& json::member_of(value, "id"@) is Some && json::string_in(json::member_of(value, "id"@)->0) is Some
            &&& json::member_of(value, "name"@) is Some && json::string_in(json::member_of(value, "name"@)->0) is Some
            &&& (json::member_of(value, "albumCount"@) is Some ==> json::integer_in(json::member_of(value, "albumCount"@)->0) is Some && 0 <= json::integer_in(json::member_of(value, "albumCount"@)->0)->0 <= u32::MAX)
        },
        Artist::decoded(value) matches Some(v) ==> {
            &&& json::member_of(value, "id"@) is Some && json::string_in(json::member_of(value, "id"@)->0) == Some(v.id)
            &&& json::member_of(value, "name"@) is Some && json::string_in(json::member_of(value, "name"@)->0) == Some(v.name)
            &&& json::member_of(value, "albumCount"@) is Some ==> json::integer_in(json::member_of(value, "albumCount"@)->0)->0 == v.album_count
            &&& json::member_of(value, "albumCount"@) is None ==> v.album_count == 0
        },
{
}

/// A playlist is read from an object with an id and a name; count and owner may be missing.
pub proof fn playlist_says_what_was_sent(value: Seq<char>)
    requires
        json::members_of(value) is Some,
        json::items_of(value) is None,
    ensures
        Playlist::decoded(value) is Some <==> {
            &&& json::member_of(value, "id"@) is Some && json::string_in(json::member_of(value, "id"@)->0) is Some
            &&& json::member_of(value, "name"@) is Some && json::string_in(json::member_of(value, "name"@)->0) is Some
            &&& (json::member_of(value, "songCount"@) is Some ==> json::integer_in(json::member_of(value, "songCount"@)->0) is Some && 0 <= json::integer_in(json::member_of(value, "songCount"@)->0)->0 <= u32::MAX)
            &&& (json::member_of(value, "owner"@) is Some ==> json::string_in(json::member_of(value, "owner"@)->0) is Some)
        },
        Playlist::decoded(value) matches Some(v) ==> {
            &&& json::member_of(value, "id"@) is Some && json::string_in(json::member_of(value, "id"@)->0) == Some(v.id)
            &&& json::member_of(value, "name"@) is Some && json::string_in(json::member_of(value, "name"@)->0) == Some(v.name)
            &&& json::member_of(value, "songCount"@) is Some ==> json::integer_in(json::member_of(value, "songCount"@)->0)->0 == v.song_count
            &&& json::member_of(value, "songCount"@) is None ==> v.song_count == 0
            &&& json::member_of(value, "owner"@) is Some ==> json::string_in(json::member_of(value, "owner"@)->0) == Some(v.owner)
            &&& json::member_of(value, "owner"@) is None ==> v.owner.len() == 0
        },
{
}

/// A similar artist is read from an object with an id and a name.
pub proof fn similar_artist_says_what_was_sent(value: Seq<char>)
    requires
        json::members_of(value) is Some,
        json::items_of(value) is None,
    ensures
        SimilarArtist::decoded(value) is Some <==> {
            &&& json::member_of(value, "id"@) is Some && json::string_in(json::member_of(value, "id"@)->0) is Some
            &&& json::member_of(value, "name"@) is Some && json::string_in(json::member_of(value, "name"@)->0) is Some
        },
        SimilarArtist::decoded(value) matches Some(v) ==> {
            &&& json::member_of(value, "id"@) is Some && json::string_in(json::member_of(value, "id"@)->0) == Some(v.id)
            &&& json::member_of(value, "name"@) is Some && json::string_in(json::member_of(value, "name"@)->0) == Some(v.name)
        },
{
}

/// A genre is read from an object that names it; its counts may be missing.
pub proof fn genre_says_what_was_sent(value: Seq<char>)
    requires
        json::members_of(value) is Some,
        json::items_of(value) is None,
    ensures
        Genre::decoded(value) is Some <==> {
            &&& json::member_of(value, "value"@) is Some && json::string_in(json::member_of(value, "value"@)->0) is Some
            &&& (json::member_of(value, "songCount"@) is Some ==> json::integer_in(json::member_of(value, "songCount"@)->0) is Some && 0 <= json::integer_in(json::member_of(value, "songCount"@)->0)->0 <= u32::MAX)
            &&& (json::member_of(value, "albumCount"@) is Some ==> json::integer_in(json::member_of(value, "albumCount"@)->0) is Some && 0 <= json::integer_in(json::member_of(value, "albumCount"@)->0)->0 <= u32::MAX)
        },
        Genre::decoded(value) matches Some(v) ==> {
            &&& json::member_of(value, "value"@) is Some && json::string_in(json::member_of(value, "value"@)->0) == Some(v.value)
            &&& json::member_of(value, "songCount"@) is Some ==> json::integer_in(json::member_of(value, "songCount"@)->0)->0 == v.song_count
            &&& json::member_of(value, "songCount"@) is None ==> v.song_count == 0
            &&& json::member_of(value, "albumCount"@) is Some ==> json::integer_in(json::member_of(value, "albumCount"@)->0)->0 == v.album_count
            &&& json::member_of(value, "albumCount"@) is None ==> v.album_count == 0
        },
{
}

/// The gains of a song are read from an object; each may be missing.
pub proof fn gains_say_what_was_sent(value: Seq<char>)
    requires
        json::members_of(value) is Some,
        json::items_of(value) is None,
    ensures
        ReplayGain::decoded(value) is Some <==> {
            &&& (json::member_of(value, "trackGain"@) is Some ==> json::member_of(value, "trackGain"@)->0 == "null"@ || json::real_in(json::member_of(value, "trackGain"@)->0) is Some)
            &&& (json::member_of(value, "albumGain"@) is Some ==> json::member_of(value, "albumGain"@)->0 == "null"@ || json::real_in(json::member_of(value, "albumGain"@)->0) is Some)
        },
        ReplayGain::decoded(value) matches Some(v) ==> {
            &&& json::member_of(value, "trackGain"@) is Some && json::member_of(value, "trackGain"@)->0 != "null"@ ==> v.track_gain is Some && json::real_in(json::member_of(value, "trackGain"@)->0) == Some(v.track_gain->0.bits)
            &&& json::member_of(value, "trackGain"@) is None || json::member_of(value, "trackGain"@)->0 == "null"@ ==> v.track_gain is None
            &&& json::member_of(value, "albumGain"@) is Some && json::member_of(value, "albumGain"@)->0 != "null"@ ==> v.album_gain is Some && json::real_in(json::member_of(value, "albumGain"@)->0) == Some(v.album_gain->0.bits)
            &&& json::member_of(value, "albumGain"@) is None || json::member_of(value, "albumGain"@)->0 == "null"@ ==> v.album_gain is None
        },
{
}

/// A song is read from an object with an id and a title; all else that it says may be
/// missing.
pub proof fn song_says_what_was_sent(value: Seq<char>)
    requires
        json::members_of(value) is Some,
        json::items_of(value) is None,
    ensures
        Song::decoded(value) is Some <==> {
            &&& json::member_of(value, "id"@) is Some && json::string_in(json::member_of(value, "id"@)->0) is Some
            &&& json::member_of(value, "title"@) is Some && json::string_in(json::member_of(value, "title"@)->0) is Some
            &&& (json::member_of(value, "artist"@) is Some ==> json::string_in(json::member_of(value, "artist"@)->0) is Some)
            &&& (json::member_of(value, "album"@) is Some ==> json::string_in(json::member_of(value, "album"@)->0) is Some)
            &&& (json::member_of(value, "duration"@) is Some ==> json::real_in(json::member_of(value, "duration"@)->0) is Some)
            &&& (json::member_of(value, "coverArt"@) is Some ==> json::member_of(value, "coverArt"@)->0 == "null"@ || json::string_in(json::member_of(value, "coverArt"@)->0) is Some)
            &&& (json::member_of(value, "suffix"@) is Some ==> json::string_in(json::member_of(value, "suffix"@)->0) is Some)
            &&& (json::member_of(value, "bitRate"@) is Some ==> json::member_of(value, "bitRate"@)->0 == "null"@ || json::integer_in(json::member_of(value, "bitRate"@)->0) is Some && 0 <= json::integer_in(json::member_of(value, "bitRate"@)->0)->0 <= u32::MAX)
            &&& (json::member_of(value, "starred"@) is Some ==> json::member_of(value, "starred"@)->0 == "null"@ || json::string_in(json::member_of(value, "starred"@)->0) is Some)
            &&& (json::member_of(value, "replayGain"@) is Some ==> json::member_of(value, "replayGain"@)->0 == "null"@ || ReplayGain::decoded(json::member_of(value, "replayGain"@)->0) is Some)
        },
        Song::decoded(value) matches Some(v) ==> {
            &&& json::member_of(value, "id"@) is Some && json::string_in(json::member_of(value, "id"@)->0) == Some(v.id)
            &&& json::member_of(value, "title"@) is Some && json::string_in(json::member_of(value, "title"@)->0) == Some(v.title)
            &&& json::member_of(value, "artist"@) is Some ==> json::string_in(json::member_of(value, "artist"@)->0) == Some(v.artist)
            &&& json::member_of(value, "artist"@) is None ==> v.artist.len() == 0
            &&& json::member_of(value, "album"@) is Some ==> json::string_in(json::member_of(value, "album"@)->0) == Some(v.album)
            &&& json::member_of(value, "album"@) is None ==> v.album.len() == 0
            &&& json::member_of(value, "duration"@) is Some ==> json::real_in(json::member_of(value, "duration"@)->0) == Some(v.duration.bits)
            &&& json::member_of(value, "duration"@) is None ==> v.duration.bits == 0
            &&& json::member_of(value, "coverArt"@) is Some && json::member_of(value, "coverArt"@)->0 != "null"@ ==> json::string_in(json::member_of(value, "coverArt"@)->0) == v.cover_art
            &&& json::member_of(value, "coverArt"@) is None || json::member_of(value, "coverArt"@)->0 == "null"@ ==> v.cover_art is None
            &&& json::member_of(value, "suffix"@) is Some ==> json::string_in(json::member_of(value, "suffix"@)->0) == Some(v.suffix)
            &&& json::member_of(value, "suffix"@) is None ==> v.suffix.len() == 0
            &&& json::member_of(value, "bitRate"@) is Some && json::member_of(value, "bitRate"@)->0 != "null"@ ==> v.bit_rate is Some && json::integer_in(json::member_of(value, "bitRate"@)->0)->0 == v.bit_rate->0
            &&& json::member_of(value, "bitRate"@) is None || json::member_of(value, "bitRate"@)->0 == "null"@ ==> v.bit_rate is None
            &&& json::member_of(value, "starred"@) is Some && json::member_of(value, "starred"@)->0 != "null"@ ==> json::string_in(json::member_of(value, "starred"@)->0) == v.starred
            &&& json::member_of(value, "starred"@) is None || json::member_of(value, "starred"@)->0 == "null"@ ==> v.starred is None
            &&& json::member_of(value, "replayGain"@) is Some && json::member_of(value, "replayGain"@)->0 != "null"@ ==> ReplayGain::decoded(json::member_of(value, "replayGain"@)->0) == v.replay_gain
            &&& json::member_of(value, "replayGain"@) is None || json::member_of(value, "replayGain"@)->0 == "null"@ ==> v.replay_gain is None
        },
{
}

/// The gain of a song is the track's own where it has one, whatever the album's is, and
/// else the album's; without either it is zero.
pub proof fn track_gain_comes_first(song: Song, gains: ReplayGain)
    ensures
        song.replay_gain == Some(gains) && gains.track_gain is Some ==> song.gain()
            == gains.track_gain->0,
        song.replay_gain == Some(gains) && gains.track_gain is None && gains.album_gain is Some
            ==> song.gain() == gains.album_gain->0,
        song.replay_gain == Some(gains) && gains.track_gain is None && gains.album_gain is None
            ==> song.gain().bits == 0,
        song.replay_gain is None ==> song.gain().bits == 0,
{
}

/// A text without angle brackets has no tags, and stays; a tag goes, with all that stands
/// in it, and what follows is read as it would be alone.
pub proof fn tags_go_and_words_stay(words: Seq<char>, tag: Seq<char>, rest: Seq<char>)
    requires
        !words.contains('<'),
        !words.contains('>'),
        !tag.contains('<'),
        !tag.contains('>'),
    ensures
        outside_tags(words + rest, false) == words + outside_tags(rest, false),
        outside_tags(seq!['<'] + tag + seq!['>'] + rest, false) == outside_tags(rest, false),
        outside_tags(words, false) == words,
{
    words_stay(words, rest);
    words_stay(words, Seq::empty());
    assert(words + Seq::<char>::empty() =~= words);
    let s = seq!['<'] + tag + seq!['>'] + rest;
    assert(s.skip(1) =~= tag + (seq!['>'] + rest));
    tag_goes(tag, rest);
}

proof fn words_stay(words: Seq<char>, rest: Seq<char>)
    requires
        !words.contains('<'),
        !words.contains('>'),
    ensures
        outside_tags(words + rest, false) == words + outside_tags(rest, false),
    decreases words.len(),
{
    if words.len() == 0 {
        assert(words + rest =~= rest);
        assert(words + outside_tags(rest, false) =~= outside_tags(rest, false));
    } else {
        let more = words.skip(1);
        assert(words.contains(words[0]));
        assert forall|c: char| more.contains(c) implies words.contains(c) by {
            let i = choose|i: int| 0 <= i < more.len() && more[i] == c;
            assert(words[i + 1] == c);
        }
        words_stay(more, rest);
        assert((words + rest).skip(1) =~= more + rest);
        assert(seq![words[0]] + (more + outside_tags(rest, false)) =~= words + outside_tags(
            rest,
            false,
        ));
    }
}

proof fn tag_goes(tag: Seq<char>, rest: Seq<char>)
    requires
        !tag.contains('<'),
        !tag.contains('>'),
    ensures
        outside_tags(tag + (seq!['>'] + rest), true) == outside_tags(rest, false),
    decreases tag.len(),
{
    let s = tag + (seq!['>'] + rest);
    if tag.len() == 0 {
        assert(s =~= seq!['>'] + rest);
        assert(s.skip(1) =~= rest);
    } else {
        let more = tag.skip(1);
        assert(tag.contains(tag[0]));
        assert forall|c: char| more.contains(c) implies tag.contains(c) by {
            let i = choose|i: int| 0 <= i < more.len() && more[i] == c;
            assert(tag[i + 1] == c);
        }
        tag_goes(more, rest);
        assert(s.skip(1) =~= more + (seq!['>'] + rest));
    }
}

/// A text without entities stays as it is.
pub proof fn text_without_entities_stays(s: Seq<char>)
    requires
        !s.contains('&'),
    ensures
        unescaped(s) == s,
{
    reveal_strlit("&amp;");
    reveal_strlit("&quot;");
    reveal_strlit("&apos;");
    reveal_strlit("&#39;");
    reveal_strlit("&lt;");
    reveal_strlit("&gt;");
    text::nothing_to_replace(s, "&amp;"@, "&"@);
    text::nothing_to_replace(s, "&quot;"@, "\""@);
    text::nothing_to_replace(s, "&apos;"@, "'"@);
    text::nothing_to_replace(s, "&#39;"@, "'"@);
    text::nothing_to_replace(s, "&lt;"@, "<"@);
    text::nothing_to_replace(s, "&gt;"@, ">"@);
}

/// A text without tags and entities is kept, but for white space at its ends.
pub proof fn plain_words_are_kept(s: Seq<char>)
    requires
        !s.contains('<'),
        !s.contains('>'),
        !s.contains('&'),
    ensures
        plain_text(s) == text::trimmed(s),
{
    words_stay(s, Seq::empty());
    assert(s + Seq::<char>::empty() =~= s);
    text_without_entities_stays(s);
}

/// Whether a format is lossless does not depend on the case of its extension.
pub proof fn case_does_not_matter(suffix: Seq<char>)
    ensures
        is_lossless(suffix.map_values(|c: char| text::ascii_lower(c))) == is_lossless(suffix),
        is_lossless(suffix.map_values(|c: char| text::ascii_upper(c))) == is_lossless(suffix),
{
    let lower = suffix.map_values(|c: char| text::ascii_lower(c));
    let upper = suffix.map_values(|c: char| text::ascii_upper(c));
    assert(lower.map_values(|c: char| text::ascii_lower(c)) =~= lower);
    assert(upper.map_values(|c: char| text::ascii_lower(c)) =~= lower);
}

/// A lossy format's label is its extension in upper case, with the bit rate behind it; an
/// unknown bit rate, or one of zero, is left out.
pub proof fn lossy_label_shows_bit_rate(suffix: Seq<char>, bit_rate: u32)
    requires
        !is_lossless(suffix),
    ensures
        ({
            let upper = suffix.map_values(|c: char| text::ascii_upper(c));
            &&& bit_rate > 0 ==> label_of(suffix, Some(bit_rate)) == upper + " "@ + text::decimal(
                bit_rate as nat,
            )
            &&& label_of(suffix, Some(0u32)) == upper
            &&& label_of(suffix, None) == upper
        }),
{
}

/// FLAC, ALAC, APE, WAV, WavPack, AIFF and DSD are lossless; MP3, AAC, Ogg, Opus and M4A
/// are not.
pub proof fn formats_are_told_apart()
    ensures
        lossless_suffix("flac"@),
        lossless_suffix("alac"@),
        lossless_suffix("ape"@),
        lossless_suffix("wav"@),
        lossless_suffix("wv"@),
        lossless_suffix("aiff"@),
        lossless_suffix("aif"@),
        lossless_suffix("dsf"@),
        lossless_suffix("dff"@),
        !lossless_suffix("mp3"@),
        !lossless_suffix("aac"@),
        !lossless_suffix("ogg"@),
        !lossless_suffix("opus"@),
        !lossless_suffix("m4a"@),
{
    reveal_strlit("flac");
    reveal_strlit("alac");
    reveal_strlit("ape");
    reveal_strlit("wav");
    reveal_strlit("wv");
    reveal_strlit("aiff");
    reveal_strlit("aif");
    reveal_strlit("dsf");
    reveal_strlit("dff");
    reveal_strlit("mp3");
    reveal_strlit("aac");
    reveal_strlit("ogg");
    reveal_strlit("opus");
    reveal_strlit("m4a");
    assert("mp3"@[0] == 'm' && "m4a"@[0] == 'm' && "ogg"@[0] == 'o' && "opus"@[0] == 'o');
    assert("flac"@[0] == 'f' && "alac"@[1] == 'l' && "ape"@[1] == 'p' && "wav"@[0] == 'w'
        && "wv"@[0] == 'w' && "aiff"@[1] == 'i' && "aif"@[1] == 'i' && "dsf"@[0] == 'd'
        && "dff"@[0] == 'd' && "aac"@[1] == 'a' && "aac"@[0] == 'a');
}

proof fn entity_stays(
    before: Seq<char>,
    entity: Seq<char>,
    after: Seq<char>,
    from: Seq<char>,
    to: Seq<char>,
)
    requires
        !before.contains('&'),
        !after.contains('&'),
        entity.len() > 0,
        forall|i: int| 0 < i < entity.len() ==> #[trigger] entity[i] != '&',
        from.len() > 2,
        from[0] == '&',
        entity[0] == '&' ==> entity.len() > 2 && (entity[1] != from[1] || entity[2] != from[2])
            || entity.len() == 1 && after.len() > 0 && after[0] != from[1],
    ensures
        text::replaced(before + entity + after, from, to) == before + entity + after,
{
    let s = before + entity + after;
    assert forall|k: int| 0 <= k < s.len() implies !(#[trigger] text::stands_at(s, from, k)) by {
        if text::stands_at(s, from, k) {
            let part = s.subrange(k, k + from.len());
            assert(part[0] == s[k] && part[1] == s[k + 1] && part[2] == s[k + 2]);
            if k < before.len() {
                assert(before[k] == '&');
                assert(before.contains('&'));
            } else if k >= before.len() + entity.len() {
                assert(after[k - before.len() - entity.len()] == '&');
                assert(after.contains('&'));
            } else if k > before.len() {
                assert(entity[k - before.len()] == '&');
            } else {
                assert(s[k] == entity[0]);
                if entity.len() > 2 {
                    assert(s[k + 1] == entity[1] && s[k + 2] == entity[2]);
                } else {
                    assert(s[k + 1] == after[0]);
                }
            }
        }
    }
    text::no_occurrence_stays(s, from, to);
}

/// The entities that biographies and notes use are shown as what they stand for, wherever
/// they are; the words around them stay.
pub proof fn entities_show_what_they_stand_for(before: Seq<char>, after: Seq<char>)
    requires
        !before.contains('&'),
        !after.contains('&'),
        after.len() > 0,
        after[0] == ' ',
    ensures
        unescaped(before + "&amp;"@ + after) == before + "&"@ + after,
        unescaped(before + "&quot;"@ + after) == before + "\""@ + after,
        unescaped(before + "&apos;"@ + after) == before + "'"@ + after,
        unescaped(before + "&#39;"@ + after) == before + "'"@ + after,
        unescaped(before + "&lt;"@ + after) == before + "<"@ + after,
        unescaped(before + "&gt;"@ + after) == before + ">"@ + after,
{
    reveal_strlit("&amp;");
    reveal_strlit("&quot;");
    reveal_strlit("&apos;");
    reveal_strlit("&#39;");
    reveal_strlit("&lt;");
    reveal_strlit("&gt;");
    reveal_strlit("&");
    reveal_strlit("\"");
    reveal_strlit("'");
    reveal_strlit("<");
    reveal_strlit(">");
    text::nothing_to_replace(after, "&amp;"@, "&"@);
    text::nothing_to_replace(after, "&quot;"@, "\""@);
    text::nothing_to_replace(after, "&apos;"@, "'"@);
    text::nothing_to_replace(after, "&#39;"@, "'"@);
    text::nothing_to_replace(after, "&lt;"@, "<"@);
    text::nothing_to_replace(after, "&gt;"@, ">"@);
    text::occurrence_is_replaced(before, "&amp;"@, after, "&"@);
    text::occurrence_is_replaced(before, "&quot;"@, after, "\""@);
    text::occurrence_is_replaced(before, "&apos;"@, after, "'"@);
    text::occurrence_is_replaced(before, "&#39;"@, after, "'"@);
    text::occurrence_is_replaced(before, "&lt;"@, after, "<"@);
    text::occurrence_is_replaced(before, "&gt;"@, after, ">"@);
    entity_stays(before, "&"@, after, "&quot;"@, "\""@);
    entity_stays(before, "&"@, after, "&apos;"@, "'"@);
    entity_stays(before, "&"@, after, "&#39;"@, "'"@);
    entity_stays(before, "&"@, after, "&lt;"@, "<"@);
    entity_stays(before, "&"@, after, "&gt;"@, ">"@);
    entity_stays(before, "&quot;"@, after, "&amp;"@, "&"@);
    entity_stays(before, "\""@, after, "&apos;"@, "'"@);
    entity_stays(before, "\""@, after, "&#39;"@, "'"@);
    entity_stays(before, "\""@, after, "&lt;"@, "<"@);
    entity_stays(before, "\""@, after, "&gt;"@, ">"@);
    entity_stays(before, "&apos;"@, after, "&amp;"@, "&"@);
    entity_stays(before, "&apos;"@, after, "&quot;"@, "\""@);
    entity_stays(before, "'"@, after, "&#39;"@, "'"@);
    entity_stays(before, "'"@, after, "&lt;"@, "<"@);
    entity_stays(before, "'"@, after, "&gt;"@, ">"@);
    entity_stays(before, "&#39;"@, after, "&amp;"@, "&"@);
    entity_stays(before, "&#39;"@, after, "&quot;"@, "\""@);
    entity_stays(before, "&#39;"@, after, "&apos;"@, "'"@);
    entity_stays(before, "&lt;"@, after, "&amp;"@, "&"@);
    entity_stays(before, "&lt;"@, after, "&quot;"@, "\""@);
    entity_stays(before, "&lt;"@, after, "&apos;"@, "'"@);
    entity_stays(before, "&lt;"@, after, "&#39;"@, "'"@);
    entity_stays(before, "<"@, after, "&gt;"@, ">"@);
    entity_stays(before, "&gt;"@, after, "&amp;"@, "&"@);
    entity_stays(before, "&gt;"@, after, "&quot;"@, "\""@);
    entity_stays(before, "&gt;"@, after, "&apos;"@, "'"@);
    entity_stays(before, "&gt;"@, after, "&#39;"@, "'"@);
    entity_stays(before, "&gt;"@, after, "&lt;"@, "<"@);
}

} // verus!
