//! The client of the server's API: what each call asks, and what is read in the
//! answer.
use crate::config::Credentials;
use crate::json::{self, Decode};
use crate::library::{
    album_info_from, artist_info_from, format_label, list_reply, own_playlists, read_reply,
    AlbumInfo, Artist, ArtistInfo, ArtistView, ClientError, Playlist, PlaylistView, RawArtistInfo,
    SimilarArtist, SimilarArtistView, Song,
};
use crate::lyrics::{lyrics_by_song_id, lyrics_legacy, LyricLine, StructuredLyrics};
use crate::protocol::QueueEntry;
use crate::text;
use crate::url::{pair_views, url_for};
use vstd::prelude::*;

verus! {

/// One call of the server's API: what is asked, and the two keys under which the
/// answer holds its list, where it has one.
#[derive(Debug, PartialEq, Eq)]
pub struct ApiCall {
    pub path: String,
    pub params: Vec<(String, String)>,
    pub first: String,
    pub second: String,
}

/// What an [`ApiCall`] says.
#[verifier::ext_equal]
pub struct ApiView {
    pub path: Seq<char>,
    pub params: Seq<(Seq<char>, Seq<char>)>,
    pub first: Seq<char>,
    pub second: Seq<char>,
}

impl View for ApiCall {
    type V = ApiView;

    open spec fn view(&self) -> ApiView {
        ApiView {
            path: self.path@,
            params: pair_views(self.params@),
            first: self.first@,
            second: self.second@,
        }
    }
}

/// What the answer `body` to a call comes to: what is wrong with it, or what the
/// list that it holds says.
pub open spec fn list_answer<T: Decode>(call: ApiView, body: Seq<char>) -> Result<Seq<T::V>, Fault> {
    match refused(call.path, body) {
        Some(fault) => Err(fault),
        None => match json::decoded_list::<T>(
            json::at_path(crate::library::reply_root(body), seq![call.first, call.second]),
        ) {
            Some(v) => Ok(v),
            None => Err(Fault::UnexpectedShape),
        },
    }
}

/// What is wrong with an answer.
pub enum Fault {
    NotJson { path: Seq<char> },
    Refused { path: Seq<char>, message: Seq<char> },
    UnexpectedShape,
}

/// What is wrong with the answer to a request for `path`.
pub open spec fn refused(path: Seq<char>, body: Seq<char>) -> Option<Fault> {
    if !json::is_json(body) {
        Some(Fault::NotJson { path })
    } else if !crate::library::says_ok(crate::library::reply_root(body)) {
        Some(
            Fault::Refused {
                path,
                message: crate::library::refusal(crate::library::reply_root(body)),
            },
        )
    } else {
        None
    }
}

/// Whether an error says what is wrong.
pub open spec fn same_error(e: ClientError, fault: Fault) -> bool {
    match fault {
        Fault::NotJson { path } => e matches ClientError::NotJson { path: p } && p@ == path,
        Fault::Refused { path, message } => e matches ClientError::Refused {
            path: p,
            message: m,
        } && p@ == path && m@ == message,
        Fault::UnexpectedShape => e == ClientError::UnexpectedShape,
    }
}

/// What [`Client::albums`] asks.
pub open spec fn albums_call() -> ApiView {
    ApiView {
        path: "rest/getAlbumList2.view"@,
        params: seq![("type"@, "alphabeticalByName"@), ("size"@, "200"@)],
        first: "albumList2"@,
        second: "album"@,
    }
}

/// What [`Client::newest_albums`] asks.
pub open spec fn newest_albums_call() -> ApiView {
    ApiView {
        path: "rest/getAlbumList2.view"@,
        params: seq![("type"@, "newest"@), ("size"@, "200"@)],
        first: "albumList2"@,
        second: "album"@,
    }
}

/// What [`Client::album_songs`] asks.
pub open spec fn album_songs_call(album_id: Seq<char>) -> ApiView {
    ApiView {
        path: "rest/getAlbum.view"@,
        params: seq![("id"@, album_id)],
        first: "album"@,
        second: "song"@,
    }
}

/// What [`Client::search`] asks.
pub open spec fn search_call(query: Seq<char>) -> ApiView {
    ApiView {
        path: "rest/search3.view"@,
        params: seq![
            ("query"@, query),
            ("artistCount"@, "0"@),
            ("albumCount"@, "0"@),
            ("songCount"@, "50"@),
        ],
        first: "searchResult3"@,
        second: "song"@,
    }
}

/// What [`Client::artists`] asks.
pub open spec fn artists_call() -> ApiView {
    ApiView {
        path: "rest/getArtists.view"@,
        params: Seq::empty(),
        first: "artists"@,
        second: "index"@,
    }
}

/// What [`Client::artist_albums`] asks.
pub open spec fn artist_albums_call(artist_id: Seq<char>) -> ApiView {
    ApiView {
        path: "rest/getArtist.view"@,
        params: seq![("id"@, artist_id)],
        first: "artist"@,
        second: "album"@,
    }
}

/// What [`Client::playlists`] asks.
pub open spec fn playlists_call() -> ApiView {
    ApiView {
        path: "rest/getPlaylists.view"@,
        params: Seq::empty(),
        first: "playlists"@,
        second: "playlist"@,
    }
}

/// What [`Client::playlist_songs`] asks.
pub open spec fn playlist_songs_call(playlist_id: Seq<char>) -> ApiView {
    ApiView {
        path: "rest/getPlaylist.view"@,
        params: seq![("id"@, playlist_id)],
        first: "playlist"@,
        second: "entry"@,
    }
}

/// What [`Client::genres`] asks.
pub open spec fn genres_call() -> ApiView {
    ApiView {
        path: "rest/getGenres.view"@,
        params: Seq::empty(),
        first: "genres"@,
        second: "genre"@,
    }
}

/// What [`Client::albums_by_genre`] asks.
pub open spec fn albums_by_genre_call(genre: Seq<char>) -> ApiView {
    ApiView {
        path: "rest/getAlbumList2.view"@,
        params: seq![("type"@, "byGenre"@), ("genre"@, genre), ("size"@, "200"@)],
        first: "albumList2"@,
        second: "album"@,
    }
}

/// What [`Client::recently_played`] asks.
pub open spec fn recently_played_call() -> ApiView {
    ApiView {
        path: "rest/getRecentlyPlayed.view"@,
        params: Seq::empty(),
        first: "recentlyPlayed"@,
        second: "song"@,
    }
}

/// What [`Client::on_repeat`] asks.
pub open spec fn on_repeat_call() -> ApiView {
    ApiView {
        path: "rest/getOnRepeat.view"@,
        params: Seq::empty(),
        first: "onRepeat"@,
        second: "song"@,
    }
}

/// What [`Client::songs_for_you`] asks.
pub open spec fn songs_for_you_call() -> ApiView {
    ApiView {
        path: "rest/getSongsForYou.view"@,
        params: Seq::empty(),
        first: "songsForYou"@,
        second: "song"@,
    }
}

/// What [`Client::favourites`] asks.
pub open spec fn favourites_call() -> ApiView {
    ApiView {
        path: "rest/getFavourites.view"@,
        params: Seq::empty(),
        first: "favourites"@,
        second: "song"@,
    }
}

/// What [`Client::set_starred`] asks.
pub open spec fn set_starred_call(song_id: Seq<char>, starred: bool) -> ApiView {
    ApiView {
        path: if starred {
            "rest/star.view"@
        } else {
            "rest/unstar.view"@
        },
        params: seq![("id"@, song_id)],
        first: ""@,
        second: ""@,
    }
}

/// What [`Client::create_playlist`] asks.
pub open spec fn create_playlist_call(name: Seq<char>, song_ids: Seq<Seq<char>>) -> ApiView {
    ApiView {
        path: "rest/createPlaylist.view"@,
        params: seq![("name"@, name)] + song_pairs(song_ids),
        first: ""@,
        second: ""@,
    }
}

/// What [`Client::delete_playlist`] asks.
pub open spec fn delete_playlist_call(playlist_id: Seq<char>) -> ApiView {
    ApiView {
        path: "rest/deletePlaylist.view"@,
        params: seq![("id"@, playlist_id)],
        first: ""@,
        second: ""@,
    }
}

/// What [`Client::rename_playlist`] asks.
pub open spec fn rename_playlist_call(playlist_id: Seq<char>, name: Seq<char>) -> ApiView {
    ApiView {
        path: "rest/updatePlaylist.view"@,
        params: seq![("playlistId"@, playlist_id), ("name"@, name)],
        first: ""@,
        second: ""@,
    }
}

/// What [`Client::add_song_to_playlist`] asks.
pub open spec fn add_song_to_playlist_call(playlist_id: Seq<char>, song_id: Seq<char>) -> ApiView {
    ApiView {
        path: "rest/updatePlaylist.view"@,
        params: seq![("playlistId"@, playlist_id), ("songIdToAdd"@, song_id)],
        first: ""@,
        second: ""@,
    }
}

/// What [`Client::remove_song_from_playlist`] asks.
pub open spec fn remove_song_from_playlist_call(playlist_id: Seq<char>, song_index: usize) -> ApiView {
    ApiView {
        path: "rest/updatePlaylist.view"@,
        params: seq![
            ("playlistId"@, playlist_id),
            ("songIndexToRemove"@, text::decimal(song_index as nat)),
        ],
        first: ""@,
        second: ""@,
    }
}

/// What [`Client::artist_info`] asks.
pub open spec fn artist_info_call(artist_id: Seq<char>) -> ApiView {
    ApiView {
        path: "rest/getArtistInfo2.view"@,
        params: seq![("id"@, artist_id)],
        first: ""@,
        second: ""@,
    }
}

/// What [`Client::album_info`] asks.
pub open spec fn album_info_call(album_id: Seq<char>) -> ApiView {
    ApiView {
        path: "rest/getAlbumInfo2.view"@,
        params: seq![("id"@, album_id)],
        first: ""@,
        second: ""@,
    }
}

/// What [`Client::structured_lyrics`] asks.
pub open spec fn structured_lyrics_call(song_id: Seq<char>) -> ApiView {
    ApiView {
        path: "rest/getLyricsBySongId.view"@,
        params: seq![("id"@, song_id)],
        first: "lyricsList"@,
        second: "structuredLyrics"@,
    }
}

/// What [`Client::plain_lyrics`] asks.
pub open spec fn plain_lyrics_call(artist: Seq<char>, title: Seq<char>) -> ApiView {
    ApiView {
        path: "rest/getLyrics.view"@,
        params: seq![("artist"@, artist), ("title"@, title)],
        first: ""@,
        second: ""@,
    }
}

impl ApiCall {
    /// Reads the list in the answer to this call.
    pub fn list<T: Decode>(&self, body: &str) -> (r: Result<Vec<T>, ClientError>)
        ensures
            match list_answer::<T>(self@, body@) {
                Ok(v) => r matches Ok(list) && json::item_views(list@) == v,
                Err(fault) => r matches Err(e) && same_error(e, fault),
            },
    {
        match read_reply(self.path.as_str(), body) {
            Err(e) => Err(e),
            Ok(root) => list_reply(root.as_str(), self.first.as_str(), self.second.as_str()),
        }
    }

    /// Reads the answer to a call that has no results.
    pub fn done(&self, body: &str) -> (r: Result<(), ClientError>)
        ensures
            match refused(self@.path, body@) {
                Some(e) => r matches Err(x) && same_error(x, e),
                None => r is Ok,
            },
    {
        match read_reply(self.path.as_str(), body) {
            Err(e) => Err(e),
            Ok(_) => Ok(()),
        }
    }
}

fn pair(name: &str, value: &str) -> (p: (String, String))
    ensures
        p.0@ == name@,
        p.1@ == value@,
{
    (name.to_owned(), value.to_owned())
}

fn call_of(path: &str, params: Vec<(String, String)>, first: &str, second: &str) -> (call: ApiCall)
    ensures
        call@ == (ApiView {
            path: path@,
            params: pair_views(params@),
            first: first@,
            second: second@,
        }),
{
    ApiCall {
        path: path.to_owned(),
        params,
        first: first.to_owned(),
        second: second.to_owned(),
    }
}

fn no_params() -> (params: Vec<(String, String)>)
    ensures
        pair_views(params@) == Seq::<(Seq<char>, Seq<char>)>::empty(),
{
    let params: Vec<(String, String)> = Vec::new();
    assert(pair_views(params@) =~= Seq::<(Seq<char>, Seq<char>)>::empty());
    params
}

fn and(params: Vec<(String, String)>, name: &str, value: &str) -> (out: Vec<(String, String)>)
    ensures
        pair_views(out@) == pair_views(params@).push((name@, value@)),
{
    let mut out = params;
    out.push(pair(name, value));
    assert(pair_views(out@) =~= pair_views(params@).push((name@, value@)));
    out
}

/// The client, for the user whose credentials it holds. A call is asked over a
/// URL that also carries the pairs that authenticate it, made anew for each.
pub struct Client {
    pub creds: Credentials,
}

impl Client {
    pub fn new(creds: Credentials) -> (c: Client)
        ensures
            c.creds == creds,
    {
        Client { creds }
    }

    /// The URL of `path`, asked with `extra`, authenticated by `auth`, for an
    /// answer in JSON.
    pub open spec fn authed(
        self,
        path: Seq<char>,
        extra: Seq<(Seq<char>, Seq<char>)>,
        auth: Seq<(Seq<char>, Seq<char>)>,
    ) -> Seq<char> {
        crate::url::url_of(self.creds.server_url@, path, (extra + auth).push(("f"@, "json"@)))
    }

    /// The URL of `path`, asked with `extra`, authenticated by `auth`, for an
    /// answer in JSON.
    pub fn authed_url(
        &self,
        path: &str,
        extra: &Vec<(String, String)>,
        auth: &Vec<(String, String)>,
    ) -> (url: String)
        ensures
            url@ == self.authed(path@, pair_views(extra@), pair_views(auth@)),
    {
        let mut pairs: Vec<(String, String)> = Vec::new();
        push_pairs(&mut pairs, extra);
        push_pairs(&mut pairs, auth);
        pairs.push(pair("f", "json"));
        assert(pair_views(pairs@) =~= (pair_views(extra@) + pair_views(auth@)).push(
            ("f"@, "json"@),
        ));
        url_for(self.creds.server_url.as_str(), path, &pairs)
    }

    /// The URL of a call.
    pub fn call_url(&self, call: &ApiCall, auth: &Vec<(String, String)>) -> (url: String)
        ensures
            url@ == self.authed(call@.path, call@.params, pair_views(auth@)),
    {
        self.authed_url(call.path.as_str(), &call.params, auth)
    }

    /// The URL of a song's audio stream.
    pub fn stream_url(&self, song_id: &str, auth: &Vec<(String, String)>) -> (url: String)
        ensures
            url@ == self.authed("rest/stream.view"@, seq![("id"@, song_id@)], pair_views(auth@)),
    {
        let params = and(no_params(), "id", song_id);
        assert(pair_views(params@) =~= seq![("id"@, song_id@)]);
        self.authed_url("rest/stream.view", &params, auth)
    }

    /// The URL of cover art; empty without any.
    pub fn cover_art_url(&self, cover_art: &Option<String>, auth: &Vec<(String, String)>) -> (url:
        String)
        ensures
            match *cover_art {
                Some(id) => url@ == self.authed(
                    "rest/getCoverArt.view"@,
                    seq![("id"@, id@)],
                    pair_views(auth@),
                ),
                None => url@.len() == 0,
            },
    {
        match cover_art {
            Some(id) => {
                let params = and(no_params(), "id", id.as_str());
                assert(pair_views(params@) =~= seq![("id"@, id@)]);
                self.authed_url("rest/getCoverArt.view", &params, auth)
            },
            None => String::new(),
        }
    }

    /// The albums, by name.
    pub fn albums(&self) -> (call: ApiCall)
        ensures
            call@ == albums_call(),
    {
        let params = and(and(no_params(), "type", "alphabeticalByName"), "size", "200");
        assert(pair_views(params@) =~= seq![("type"@, "alphabeticalByName"@), ("size"@, "200"@)]);
        call_of("rest/getAlbumList2.view", params, "albumList2", "album")
    }

    /// The albums, the most recently added first.
    pub fn newest_albums(&self) -> (call: ApiCall)
        ensures
            call@ == newest_albums_call(),
    {
        let params = and(and(no_params(), "type", "newest"), "size", "200");
        assert(pair_views(params@) =~= seq![("type"@, "newest"@), ("size"@, "200"@)]);
        call_of("rest/getAlbumList2.view", params, "albumList2", "album")
    }

    /// The songs of an album.
    pub fn album_songs(&self, album_id: &str) -> (call: ApiCall)
        ensures
            call@ == album_songs_call(album_id@),
    {
        let params = and(no_params(), "id", album_id);
        assert(pair_views(params@) =~= seq![("id"@, album_id@)]);
        call_of("rest/getAlbum.view", params, "album", "song")
    }

    /// The songs that match a query.
    pub fn search(&self, query: &str) -> (call: ApiCall)
        ensures
            call@ == search_call(query@),
    {
        let no_artists = and(and(no_params(), "query", query), "artistCount", "0");
        let params = and(and(no_artists, "albumCount", "0"), "songCount", "50");
        assert(pair_views(params@) =~= seq![
            ("query"@, query@),
            ("artistCount"@, "0"@),
            ("albumCount"@, "0"@),
            ("songCount"@, "50"@),
        ]);
        call_of("rest/search3.view", params, "searchResult3", "song")
    }

    /// The index of all artists, in groups.
    pub fn artists(&self) -> (call: ApiCall)
        ensures
            call@ == artists_call(),
    {
        let params = no_params();
        call_of("rest/getArtists.view", params, "artists", "index")
    }

    /// The albums of an artist.
    pub fn artist_albums(&self, artist_id: &str) -> (call: ApiCall)
        ensures
            call@ == artist_albums_call(artist_id@),
    {
        let params = and(no_params(), "id", artist_id);
        assert(pair_views(params@) =~= seq![("id"@, artist_id@)]);
        call_of("rest/getArtist.view", params, "artist", "album")
    }

    /// The playlists, those of other users too.
    pub fn playlists(&self) -> (call: ApiCall)
        ensures
            call@ == playlists_call(),
    {
        let params = no_params();
        call_of("rest/getPlaylists.view", params, "playlists", "playlist")
    }

    /// The songs of a playlist.
    pub fn playlist_songs(&self, playlist_id: &str) -> (call: ApiCall)
        ensures
            call@ == playlist_songs_call(playlist_id@),
    {
        let params = and(no_params(), "id", playlist_id);
        assert(pair_views(params@) =~= seq![("id"@, playlist_id@)]);
        call_of("rest/getPlaylist.view", params, "playlist", "entry")
    }

    /// The genres.
    pub fn genres(&self) -> (call: ApiCall)
        ensures
            call@ == genres_call(),
    {
        let params = no_params();
        call_of("rest/getGenres.view", params, "genres", "genre")
    }

    /// The albums of a genre.
    pub fn albums_by_genre(&self, genre: &str) -> (call: ApiCall)
        ensures
            call@ == albums_by_genre_call(genre@),
    {
        let params = and(and(and(no_params(), "type", "byGenre"), "genre", genre), "size", "200");
        assert(pair_views(params@) =~= seq![("type"@, "byGenre"@), ("genre"@, genre@), ("size"@, "200"@)]);
        call_of("rest/getAlbumList2.view", params, "albumList2", "album")
    }

    /// What was played last, the most recent first.
    pub fn recently_played(&self) -> (call: ApiCall)
        ensures
            call@ == recently_played_call(),
    {
        let params = no_params();
        call_of("rest/getRecentlyPlayed.view", params, "recentlyPlayed", "song")
    }

    /// What is played over and over.
    pub fn on_repeat(&self) -> (call: ApiCall)
        ensures
            call@ == on_repeat_call(),
    {
        let params = no_params();
        call_of("rest/getOnRepeat.view", params, "onRepeat", "song")
    }

    /// A mix from what was played.
    pub fn songs_for_you(&self) -> (call: ApiCall)
        ensures
            call@ == songs_for_you_call(),
    {
        let params = no_params();
        call_of("rest/getSongsForYou.view", params, "songsForYou", "song")
    }

    /// The starred songs.
    pub fn favourites(&self) -> (call: ApiCall)
        ensures
            call@ == favourites_call(),
    {
        let params = no_params();
        call_of("rest/getFavourites.view", params, "favourites", "song")
    }

    /// Stars a song, or takes its star away.
    pub fn set_starred(&self, song_id: &str, starred: bool) -> (call: ApiCall)
        ensures
            call@ == set_starred_call(song_id@, starred),
    {
        let params = and(no_params(), "id", song_id);
        assert(pair_views(params@) =~= seq![("id"@, song_id@)]);
        let path: &str = if starred {
            "rest/star.view"
        } else {
            "rest/unstar.view"
        };
        call_of(path, params, "", "")
    }

    /// Makes a playlist of the given songs.
    pub fn create_playlist(&self, name: &str, song_ids: &Vec<String>) -> (call: ApiCall)
        ensures
            call@ == create_playlist_call(name@, json::text_views(song_ids@)),
    {
        let mut params = and(no_params(), "name", name);
        let ghost ids = json::text_views(song_ids@);
        assert(pair_views(params@) =~= seq![("name"@, name@)] + song_pairs(ids.take(0)));
        let mut i: usize = 0;
        while i < song_ids.len()
            invariant
                i <= song_ids.len(),
                ids == json::text_views(song_ids@),
                pair_views(params@) == seq![("name"@, name@)] + song_pairs(ids.take(i as int)),
            decreases song_ids.len() - i,
        {
            let ghost before = params@;
            params.push(pair("songId", song_ids[i].as_str()));
            assert(pair_views(params@) =~= pair_views(before).push(
                ("songId"@, song_ids@[i as int]@),
            ));
            assert(song_pairs(ids.take(i + 1)) =~= song_pairs(ids.take(i as int)).push(
                ("songId"@, ids[i as int]),
            ));
            i = i + 1;
            assert(pair_views(params@) =~= seq![("name"@, name@)] + song_pairs(
                ids.take(i as int),
            ));
        }
        assert(ids.take(i as int) =~= ids);
        call_of("rest/createPlaylist.view", params, "", "")
    }

    /// Deletes a playlist.
    pub fn delete_playlist(&self, playlist_id: &str) -> (call: ApiCall)
        ensures
            call@ == delete_playlist_call(playlist_id@),
    {
        let params = and(no_params(), "id", playlist_id);
        assert(pair_views(params@) =~= seq![("id"@, playlist_id@)]);
        call_of("rest/deletePlaylist.view", params, "", "")
    }

    /// Renames a playlist.
    pub fn rename_playlist(&self, playlist_id: &str, name: &str) -> (call: ApiCall)
        ensures
            call@ == rename_playlist_call(playlist_id@, name@),
    {
        let params = and(and(no_params(), "playlistId", playlist_id), "name", name);
        assert(pair_views(params@) =~= seq![("playlistId"@, playlist_id@), ("name"@, name@)]);
        call_of("rest/updatePlaylist.view", params, "", "")
    }

    /// Adds a song to a playlist.
    pub fn add_song_to_playlist(&self, playlist_id: &str, song_id: &str) -> (call: ApiCall)
        ensures
            call@ == add_song_to_playlist_call(playlist_id@, song_id@),
    {
        let params = and(and(no_params(), "playlistId", playlist_id), "songIdToAdd", song_id);
        assert(pair_views(params@) =~= seq![("playlistId"@, playlist_id@), ("songIdToAdd"@, song_id@)]);
        call_of("rest/updatePlaylist.view", params, "", "")
    }

    /// Takes the song at an index out of a playlist. Later songs move up by one.
    pub fn remove_song_from_playlist(&self, playlist_id: &str, song_index: usize) -> (call: ApiCall)
        ensures
            call@ == remove_song_from_playlist_call(playlist_id@, song_index),
    {
        let index: String = text::render(song_index as u128);
        let params = and(
            and(no_params(), "playlistId", playlist_id),
            "songIndexToRemove",
            index.as_str(),
        );
        assert(pair_views(params@) =~= seq![
            ("playlistId"@, playlist_id@),
            ("songIndexToRemove"@, text::decimal(song_index as nat)),
        ]);
        call_of("rest/updatePlaylist.view", params, "", "")
    }

    /// What the server knows of an artist.
    pub fn artist_info(&self, artist_id: &str) -> (call: ApiCall)
        ensures
            call@ == artist_info_call(artist_id@),
    {
        let params = and(no_params(), "id", artist_id);
        assert(pair_views(params@) =~= seq![("id"@, artist_id@)]);
        call_of("rest/getArtistInfo2.view", params, "", "")
    }

    /// What the server knows of an album.
    pub fn album_info(&self, album_id: &str) -> (call: ApiCall)
        ensures
            call@ == album_info_call(album_id@),
    {
        let params = and(no_params(), "id", album_id);
        assert(pair_views(params@) =~= seq![("id"@, album_id@)]);
        call_of("rest/getAlbumInfo2.view", params, "", "")
    }

    /// The lyrics of a song, by its id.
    pub fn structured_lyrics(&self, song_id: &str) -> (call: ApiCall)
        ensures
            call@ == structured_lyrics_call(song_id@),
    {
        let params = and(no_params(), "id", song_id);
        assert(pair_views(params@) =~= seq![("id"@, song_id@)]);
        call_of("rest/getLyricsBySongId.view", params, "lyricsList", "structuredLyrics")
    }

    /// The lyrics of a song, by its artist and title.
    pub fn plain_lyrics(&self, artist: &str, title: &str) -> (call: ApiCall)
        ensures
            call@ == plain_lyrics_call(artist@, title@),
    {
        let params = and(and(no_params(), "artist", artist), "title", title);
        assert(pair_views(params@) =~= seq![("artist"@, artist@), ("title"@, title@)]);
        call_of("rest/getLyrics.view", params, "", "")
    }

    /// Reads the playlists in the answer to a call for them: only the user's own.
    pub fn playlists_reply(&self, call: &ApiCall, body: &str) -> (r: Result<
        Vec<Playlist>,
        ClientError,
    >)
        ensures
            match list_answer::<Playlist>(call@, body@) {
                Ok(sent) => r matches Ok(own) && json::item_views(own@) == sent.filter(
                    owned_by(self.creds.username@),
                ),
                Err(fault) => r matches Err(e) && same_error(e, fault),
            },
    {
        match call.list(body) {
            Ok(sent) => {
                proof {
                    filtered_views(sent@, self.creds.username@);
                }
                Ok(own_playlists(sent, self.creds.username.as_str()))
            },
            Err(e) => Err(e),
        }
    }
}

/// Whether a queue entry plays a song: it has the song's stream, its cover art, its
/// format, and what the library says of it. Each of the two URLs is authenticated by
/// pairs of its own.
pub open spec fn plays(
    client: Client,
    song: Song,
    stream_auth: Seq<(String, String)>,
    art_auth: Seq<(String, String)>,
    entry: QueueEntry,
) -> bool {
    &&& entry.stream_url@ == client.authed(
        "rest/stream.view"@,
        seq![("id"@, song.id@)],
        pair_views(stream_auth),
    )
    &&& match song.cover_art {
        Some(id) => entry.art_url@ == client.authed(
            "rest/getCoverArt.view"@,
            seq![("id"@, id@)],
            pair_views(art_auth),
        ),
        None => entry.art_url@.len() == 0,
    }
    &&& entry.title == song.title
    &&& entry.artist == song.artist
    &&& entry.album == song.album
    &&& entry.duration == song.duration
    &&& entry.song_id == song.id
    &&& entry.replay_gain_db == song.gain()
    &&& song.suffix@.len() == 0 ==> entry.format_label@.len() == 0 && !entry.lossless
    &&& song.suffix@.len() > 0 ==> entry.format_label@ == crate::library::label_of(
        song.suffix@,
        song.bit_rate,
    ) && entry.lossless == crate::library::is_lossless(song.suffix@)
}

/// Whether queue entries play songs, one for one, each with its own two lots of
/// pairs.
pub open spec fn all_play(
    client: Client,
    songs: Seq<Song>,
    auths: Seq<(Vec<(String, String)>, Vec<(String, String)>)>,
    entries: Seq<QueueEntry>,
) -> bool {
    &&& entries.len() == songs.len()
    &&& forall|i: int|
        0 <= i < songs.len() ==> plays(
            client,
            songs[i],
            auths[i].0@,
            auths[i].1@,
            #[trigger] entries[i],
        )
}

impl Client {
    /// The queue entry that plays a song. The first pairs authenticate its stream, the
    /// second its cover art.
    pub fn queue_entry(
        &self,
        song: &Song,
        stream_auth: &Vec<(String, String)>,
        art_auth: &Vec<(String, String)>,
    ) -> (entry: QueueEntry)
        ensures
            plays(*self, *song, stream_auth@, art_auth@, entry),
    {
        let (format_label, lossless) = format_label(song.suffix.as_str(), song.bit_rate);
        QueueEntry {
            stream_url: self.stream_url(song.id.as_str(), stream_auth),
            title: song.title.clone(),
            artist: song.artist.clone(),
            album: song.album.clone(),
            art_url: self.cover_art_url(&song.cover_art, art_auth),
            duration: song.duration,
            format_label,
            lossless,
            song_id: song.id.clone(),
            replay_gain_db: song.replay_gain_db(),
        }
    }

    /// The queue entries that play songs, in order, each authenticated by the pairs at
    /// its place.
    pub fn queue_entries(
        &self,
        songs: &Vec<Song>,
        auths: &Vec<(Vec<(String, String)>, Vec<(String, String)>)>,
    ) -> (v: Vec<QueueEntry>)
        requires
            auths@.len() == songs@.len(),
        ensures
            v@.len() == songs@.len(),
            all_play(*self, songs@, auths@, v@),
    {
        let mut v: Vec<QueueEntry> = Vec::new();
        let mut i: usize = 0;
        while i < songs.len()
            invariant
                i <= songs.len(),
                auths@.len() == songs@.len(),
                v@.len() == i,
                forall|k: int|
                    0 <= k < i ==> plays(
                        *self,
                        songs@[k],
                        auths@[k].0@,
                        auths@[k].1@,
                        #[trigger] v@[k],
                    ),
            decreases songs.len() - i,
        {
            v.push(self.queue_entry(&songs[i], &auths[i].0, &auths[i].1));
            i = i + 1;
        }
        v
    }
}

/// Whether a playlist belongs to a user.
pub open spec fn owned_by(username: Seq<char>) -> spec_fn(PlaylistView) -> bool {
    |p: PlaylistView| p.owner == username
}

proof fn filtered_views(all: Seq<Playlist>, username: Seq<char>)
    ensures
        json::item_views(all.filter(crate::library::belonging_to(username))) == json::item_views(
            all,
        ).filter(owned_by(username)),
    decreases all.len(),
{
    reveal(Seq::filter);
    if all.len() > 0 {
        let init = all.drop_last();
        filtered_views(init, username);
        assert(json::item_views(all).drop_last() =~= json::item_views(init));
        assert(json::item_views(all).last() == all.last()@);
        let kept = init.filter(crate::library::belonging_to(username));
        assert(json::item_views(kept.push(all.last())) =~= json::item_views(kept).push(
            all.last()@,
        ));
    } else {
        assert(json::item_views(all.filter(crate::library::belonging_to(username)))
            =~= json::item_views(all).filter(owned_by(username)));
    }
}

/// Reads the artists in the answer to a call for their index, group after group.
/// An answer without an index has none.
pub fn artists_reply(call: &ApiCall, body: &str) -> (r: Result<Vec<Artist>, ClientError>)
    ensures
        match refused(call@.path, body@) {
            Some(fault) => r matches Err(e) && same_error(e, fault),
            None => match indexed_artists(
                index_groups(
                    json::at_path(
                        crate::library::reply_root(body@),
                        seq![call@.first, call@.second],
                    ),
                ),
            ) {
                Some(v) => r matches Ok(artists) && json::item_views(artists@) == v,
                None => r matches Err(e) && e == ClientError::UnexpectedShape,
            },
        },
{
    let root: String = match read_reply(call.path.as_str(), body) {
        Err(e) => {
            return Err(e);
        },
        Ok(root) => root,
    };
    let found: Option<String> = json::at_two(
        root.as_str(),
        call.first.as_str(),
        call.second.as_str(),
    );
    let groups: Vec<String> = match found {
        Some(index) => match json::items(index.as_str()) {
            Some(groups) => groups,
            None => {
                let none: Vec<String> = Vec::new();
                assert(json::text_views(none@) =~= Seq::<Seq<char>>::empty());
                none
            },
        },
        None => {
            let none: Vec<String> = Vec::new();
            assert(json::text_views(none@) =~= Seq::<Seq<char>>::empty());
            none
        },
    };
    let ghost all = json::text_views(groups@);
    let mut out: Vec<Artist> = Vec::new();
    let mut i: usize = 0;
    assert(all.take(0) =~= Seq::<Seq<char>>::empty());
    assert(json::item_views(out@) =~= Seq::<ArtistView>::empty());
    assert(all.skip(0) =~= all);
    while i < groups.len()
        invariant
            i <= groups.len(),
            all == json::text_views(groups@),
            refused(call@.path, body@) is None,
            all == index_groups(
                json::at_path(
                    crate::library::reply_root(body@),
                    seq![call@.first, call@.second],
                ),
            ),
            indexed_artists(all) == joined(json::item_views(out@), indexed_artists(
                all.skip(i as int),
            )),
        decreases groups.len() - i,
    {
        assert(all.skip(i as int)[0] == groups@[i as int]@);
        assert(all.skip(i as int).skip(1) =~= all.skip(i + 1));
        match json::read_list::<Artist>(&json::member(groups[i].as_str(), "artist")) {
            Some(mut group) => {
                let ghost before = out@;
                let ghost added = group@;
                out.append(&mut group);
                assert(json::item_views(out@) =~= json::item_views(before) + json::item_views(
                    added,
                ));
                proof {
                    match indexed_artists(all.skip(i + 1)) {
                        Some(later) => {
                            assert(json::item_views(before) + (json::item_views(added) + later)
                                =~= json::item_views(out@) + later);
                        },
                        None => {},
                    }
                }
            },
            None => {
                return Err(ClientError::UnexpectedShape);
            },
        }
        i = i + 1;
    }
    assert(all.skip(i as int) =~= Seq::<Seq<char>>::empty());
    assert(json::item_views(out@) + Seq::<ArtistView>::empty() =~= json::item_views(out@));
    Ok(out)
}

/// The groups of an index; none where it is missing or no list.
pub open spec fn index_groups(index: Option<Seq<char>>) -> Seq<Seq<char>> {
    match index {
        Some(value) => match json::items_of(value) {
            Some(groups) => groups,
            None => Seq::empty(),
        },
        None => Seq::empty(),
    }
}

/// `first` with what follows, where that is there.
pub open spec fn joined(first: Seq<ArtistView>, later: Option<Seq<ArtistView>>) -> Option<
    Seq<ArtistView>,
> {
    match later {
        Some(more) => Some(first + more),
        None => None,
    }
}

/// The artists of the groups of an index, group after group; nothing where one of
/// them has another shape.
pub open spec fn indexed_artists(groups: Seq<Seq<char>>) -> Option<Seq<ArtistView>>
    decreases groups.len(),
{
    if groups.len() == 0 {
        Some(Seq::empty())
    } else {
        match json::decoded_list::<Artist>(json::member_of(groups[0], "artist"@)) {
            Some(first) => joined(first, indexed_artists(groups.skip(1))),
            None => None,
        }
    }
}

/// Reads the id of a new playlist in the answer to the call that made it.
pub fn created_playlist_id(call: &ApiCall, body: &str) -> (r: Result<String, ClientError>)
    ensures
        match refused(call@.path, body@) {
            Some(fault) => r matches Err(e) && same_error(e, fault),
            None => match crate::library::string_at(
                crate::library::reply_root(body@),
                seq!["playlist"@, "id"@],
            ) {
                Some(id) => r matches Ok(s) && s@ == id,
                None => r matches Err(e) && e == ClientError::NoPlaylistId,
            },
        },
{
    match read_reply(call.path.as_str(), body) {
        Err(e) => Err(e),
        Ok(root) => match json::at_two(root.as_str(), "playlist", "id") {
            Some(value) => match json::string(value.as_str()) {
                Some(id) => Ok(id),
                None => Err(ClientError::NoPlaylistId),
            },
            None => Err(ClientError::NoPlaylistId),
        },
    }
}

/// The biography and the similar artists that a value sends.
pub open spec fn artist_info_in(value: Seq<char>) -> Option<(Seq<char>, Seq<SimilarArtistView>)> {
    let biography = json::text_or_empty(json::field_of(value, 0, "biography"@));
    let similar = json::list_or_empty::<SimilarArtist>(
        json::field_of(value, 1, "similarArtist"@),
    );
    if json::is_record(value, 2) && biography is Some && similar is Some {
        Some((crate::library::plain_text(biography->0), similar->0))
    } else {
        None
    }
}

/// Reads what the server knows of an artist. Nothing is no error.
pub fn artist_info_reply(call: &ApiCall, body: &str) -> (r: Result<ArtistInfo, ClientError>)
    ensures
        match refused(call@.path, body@) {
            Some(fault) => r matches Err(e) && same_error(e, fault),
            None => {
                let value = json::at_path(
                    crate::library::reply_root(body@),
                    seq!["artistInfo2"@],
                );
                if json::is_nothing(value) {
                    r matches Ok(info) && info.biography@.len() == 0
                        && info.similar_artists@.len() == 0
                } else {
                    match artist_info_in(value->0) {
                        Some((biography, similar)) => r matches Ok(info) && info.biography@
                            == biography && json::item_views(info.similar_artists@) == similar,
                        None => r matches Err(e) && e == ClientError::UnexpectedArtistInfo,
                    }
                }
            },
        },
{
    proof {
        reveal_with_fuel(json::at_path, 2);
        assert(seq!["artistInfo2"@].skip(1) =~= Seq::<Seq<char>>::empty());
    }
    let root: String = match read_reply(call.path.as_str(), body) {
        Err(e) => {
            return Err(e);
        },
        Ok(root) => root,
    };
    let value: String = match json::member(root.as_str(), "artistInfo2") {
        None => {
            return Ok(artist_info_from(None));
        },
        Some(value) => value,
    };
    if text::same(value.as_str(), "null") {
        return Ok(artist_info_from(None));
    }
    if !json::record(value.as_str(), 2) {
        return Err(ClientError::UnexpectedArtistInfo);
    }
    match (
        json::read_text_or_empty(json::field(value.as_str(), 0, "biography")),
        json::read_list_or_empty(json::field(value.as_str(), 1, "similarArtist")),
    ) {
        (Some(biography), Some(similar_artist)) => Ok(
            artist_info_from(Some(RawArtistInfo { biography, similar_artist })),
        ),
        _ => Err(ClientError::UnexpectedArtistInfo),
    }
}

/// Reads what the server knows of an album. Nothing is no error.
pub fn album_info_reply(call: &ApiCall, body: &str) -> (r: Result<AlbumInfo, ClientError>)
    ensures
        match refused(call@.path, body@) {
            Some(fault) => r matches Err(e) && same_error(e, fault),
            None => {
                let value = json::at_path(crate::library::reply_root(body@), seq!["albumInfo"@]);
                if json::is_nothing(value) {
                    r matches Ok(info) && info.notes@.len() == 0
                } else if json::is_record(value->0, 1) && json::text_or_empty(
                    json::field_of(value->0, 0, "notes"@),
                ) is Some {
                    r matches Ok(info) && info.notes@ == crate::library::plain_text(
                        json::text_or_empty(json::field_of(value->0, 0, "notes"@))->0,
                    )
                } else {
                    r matches Err(e) && e == ClientError::UnexpectedAlbumInfo
                }
            },
        },
{
    proof {
        reveal_with_fuel(json::at_path, 2);
        assert(seq!["albumInfo"@].skip(1) =~= Seq::<Seq<char>>::empty());
    }
    let root: String = match read_reply(call.path.as_str(), body) {
        Err(e) => {
            return Err(e);
        },
        Ok(root) => root,
    };
    let value: String = match json::member(root.as_str(), "albumInfo") {
        None => {
            return Ok(album_info_from(None));
        },
        Some(value) => value,
    };
    if text::same(value.as_str(), "null") {
        return Ok(album_info_from(None));
    }
    if !json::record(value.as_str(), 1) {
        return Err(ClientError::UnexpectedAlbumInfo);
    }
    match json::read_text_or_empty(json::field(value.as_str(), 0, "notes")) {
        Some(notes) => Ok(album_info_from(Some(notes))),
        None => Err(ClientError::UnexpectedAlbumInfo),
    }
}

/// The lines in the answer to a call for structured lyrics; nothing where the
/// answer is an error, has another shape, or holds a line out of range.
pub fn structured_lyrics_reply(call: &ApiCall, body: &str) -> (r: Option<Vec<LyricLine>>)
    ensures
        match list_answer::<StructuredLyrics>(call@, body@) {
            Ok(versions) => {
                &&& r is Some == crate::lyrics::structured_fits(versions)
                &&& r is Some ==> crate::lyrics::line_views(r->0@)
                    == crate::lyrics::structured_lines(versions)
            },
            Err(_) => r is None,
        },
{
    match call.list::<StructuredLyrics>(body) {
        Ok(versions) => lyrics_by_song_id(&versions),
        Err(_) => None,
    }
}

/// The lines in the answer to a call for plain lyrics; nothing where the answer is
/// an error, or holds a moment out of range. Missing lyrics are empty ones.
pub fn plain_lyrics_reply(call: &ApiCall, body: &str) -> (r: Option<Vec<LyricLine>>)
    ensures
        refused(call@.path, body@) is Some ==> r is None,
        refused(call@.path, body@) is None ==> {
            let words = match crate::library::string_at(
                crate::library::reply_root(body@),
                seq!["lyrics"@, "value"@],
            ) {
                Some(s) => s,
                None => Seq::empty(),
            };
            &&& r is Some == crate::lyrics::plain_fits(words)
            &&& r is Some ==> crate::lyrics::line_views(r->0@) == crate::lyrics::plain_lines(
                words,
            )
        },
{
    match read_reply(call.path.as_str(), body) {
        Err(_) => None,
        Ok(root) => {
            let words: String = match json::at_two(root.as_str(), "lyrics", "value") {
                Some(value) => match json::string(value.as_str()) {
                    Some(s) => s,
                    None => String::new(),
                },
                None => String::new(),
            };
            lyrics_legacy(words)
        },
    }
}

/// The pairs that report a song as played, or as now playing. Nothing is reported
/// of a song without an id.
pub fn scrobble_pairs(song_id: &str, submission: bool) -> (r: Option<Vec<(String, String)>>)
    ensures
        r is Some == (song_id@.len() > 0),
        r is Some ==> pair_views(r->0@) == seq![
            ("id"@, song_id@),
            (
                "submission"@,
                if submission {
                    "true"@
                } else {
                    "false"@
                },
            ),
        ],
{
    if song_id.is_empty() {
        return None;
    }
    let said: &str = if submission {
        "true"
    } else {
        "false"
    };
    let params = and(and(no_params(), "id", song_id), "submission", said);
    assert(pair_views(params@) =~= seq![("id"@, song_id@), ("submission"@, said@)]);
    Some(params)
}

/// The URL that songs are reported to, without its query.
pub fn scrobble_url(server: &str) -> (url: String)
    ensures
        url@ == text::without_end_slashes(server@) + "/rest/scrobble.view"@,
{
    text::trim_end_slashes(server).concat("/rest/scrobble.view")
}

/// One pair for each song that a new playlist starts with.
pub open spec fn song_pairs(ids: Seq<Seq<char>>) -> Seq<(Seq<char>, Seq<char>)> {
    ids.map_values(|id: Seq<char>| ("songId"@, id))
}

fn push_pairs(pairs: &mut Vec<(String, String)>, more: &Vec<(String, String)>)
    ensures
        pair_views(final(pairs)@) == pair_views(old(pairs)@) + pair_views(more@),
{
    let mut i: usize = 0;
    assert(pair_views(more@.take(0)) =~= Seq::<(Seq<char>, Seq<char>)>::empty());
    assert(pair_views(pairs@) =~= pair_views(old(pairs)@) + pair_views(more@.take(0)));
    while i < more.len()
        invariant
            i <= more.len(),
            pair_views(pairs@) == pair_views(old(pairs)@) + pair_views(more@.take(i as int)),
        decreases more.len() - i,
    {
        let ghost before = pairs@;
        pairs.push(pair(more[i].0.as_str(), more[i].1.as_str()));
        assert(pair_views(pairs@) =~= pair_views(before).push(
            (more@[i as int].0@, more@[i as int].1@),
        ));
        i = i + 1;
        assert(pair_views(pairs@) =~= pair_views(old(pairs)@) + pair_views(more@.take(i as int)));
    }
    assert(more@.take(i as int) =~= more@);
}

/// Whether an answer says that all went well.
pub open spec fn went_well(body: Seq<char>, root: Seq<char>) -> bool {
    &&& json::is_json(body)
    &&& json::member_of(body, "subsonic-response"@) == Some(root)
    &&& json::member_of(root, "status"@) is Some
    &&& json::string_in(json::member_of(root, "status"@)->0) == Some("ok"@)
}

/// Whether an answer that went well holds, under one key within another, a list of items
/// of the shape that is wanted.
pub open spec fn holds_list<T: Decode>(
    body: Seq<char>,
    first: Seq<char>,
    second: Seq<char>,
    items: Seq<Seq<char>>,
) -> bool {
    exists|root: Seq<char>, group: Seq<char>, list: Seq<char>|
        {
            &&& #[trigger] went_well(body, root)
            &&& json::member_of(root, first) == Some(group)
            &&& #[trigger] json::member_of(group, second) == Some(list)
            &&& #[trigger] json::is_list_of::<T>(list, items)
        }
}

/// Whether an answer was read as these items, in order.
pub open spec fn read_as<T: Decode>(
    answer: Result<Seq<T::V>, Fault>,
    items: Seq<Seq<char>>,
) -> bool {
    answer matches Ok(found) && found.len() == items.len() && forall|i: int|
        0 <= i < items.len() ==> T::decoded(#[trigger] items[i]) == Some(found[i])
}

proof fn two_keys_lead_on(root: Seq<char>, first: Seq<char>, second: Seq<char>)
    ensures
        json::at_path(Some(root), seq![first, second]) == (match json::member_of(root, first) {
            Some(group) => json::member_of(group, second),
            None => None,
        }),
        json::at_path(Some(root), seq![first]) == json::member_of(root, first),
{
    reveal_with_fuel(json::at_path, 3);
    assert(seq![first, second].skip(1) =~= seq![second]);
    assert(seq![second].skip(1) =~= Seq::<Seq<char>>::empty());
    assert(seq![first].skip(1) =~= Seq::<Seq<char>>::empty());
}

proof fn list_is_read<T: Decode>(call: ApiView, body: Seq<char>, items: Seq<Seq<char>>)
    requires
        holds_list::<T>(body, call.first, call.second, items),
    ensures
        read_as::<T>(list_answer::<T>(call, body), items),
{
    let (root, group, list) = choose|root: Seq<char>, group: Seq<char>, list: Seq<char>|
        {
            &&& #[trigger] went_well(body, root)
            &&& json::member_of(root, call.first) == Some(group)
            &&& #[trigger] json::member_of(group, call.second) == Some(list)
            &&& #[trigger] json::is_list_of::<T>(list, items)
        };
    two_keys_lead_on(root, call.first, call.second);
    two_keys_lead_on(root, "status"@, call.second);
    json::list_is_read_in_order::<T>(list, items);
}

/// What [`Client::albums`] gets back is the list under `album` within `albumList2`.
pub proof fn albums_are_those_sent(body: Seq<char>, items: Seq<Seq<char>>)
    requires
        holds_list::<crate::library::Album>(body, "albumList2"@, "album"@, items),
    ensures
        read_as::<crate::library::Album>(list_answer::<crate::library::Album>(albums_call(), body), items),
{
    list_is_read::<crate::library::Album>(albums_call(), body, items);
}

/// What [`Client::newest_albums`] gets back is the list under `album` within `albumList2`.
pub proof fn newest_albums_are_those_sent(body: Seq<char>, items: Seq<Seq<char>>)
    requires
        holds_list::<crate::library::Album>(body, "albumList2"@, "album"@, items),
    ensures
        read_as::<crate::library::Album>(list_answer::<crate::library::Album>(newest_albums_call(), body), items),
{
    list_is_read::<crate::library::Album>(newest_albums_call(), body, items);
}

/// What [`Client::albums_by_genre`] gets back is the list under `album` within `albumList2`.
pub proof fn albums_by_genre_are_those_sent(genre: Seq<char>, body: Seq<char>, items: Seq<Seq<char>>)
    requires
        holds_list::<crate::library::Album>(body, "albumList2"@, "album"@, items),
    ensures
        read_as::<crate::library::Album>(list_answer::<crate::library::Album>(albums_by_genre_call(genre), body), items),
{
    list_is_read::<crate::library::Album>(albums_by_genre_call(genre), body, items);
}

/// What [`Client::artist_albums`] gets back is the list under `album` within `artist`.
pub proof fn artist_albums_are_those_sent(artist_id: Seq<char>, body: Seq<char>, items: Seq<Seq<char>>)
    requires
        holds_list::<crate::library::Album>(body, "artist"@, "album"@, items),
    ensures
        read_as::<crate::library::Album>(list_answer::<crate::library::Album>(artist_albums_call(artist_id), body), items),
{
    list_is_read::<crate::library::Album>(artist_albums_call(artist_id), body, items);
}

/// What [`Client::album_songs`] gets back is the list under `song` within `album`.
pub proof fn album_songs_are_those_sent(album_id: Seq<char>, body: Seq<char>, items: Seq<Seq<char>>)
    requires
        holds_list::<Song>(body, "album"@, "song"@, items),
    ensures
        read_as::<Song>(list_answer::<Song>(album_songs_call(album_id), body), items),
{
    list_is_read::<Song>(album_songs_call(album_id), body, items);
}

/// What [`Client::playlist_songs`] gets back is the list under `entry` within `playlist`.
pub proof fn playlist_songs_are_those_sent(playlist_id: Seq<char>, body: Seq<char>, items: Seq<Seq<char>>)
    requires
        holds_list::<Song>(body, "playlist"@, "entry"@, items),
    ensures
        read_as::<Song>(list_answer::<Song>(playlist_songs_call(playlist_id), body), items),
{
    list_is_read::<Song>(playlist_songs_call(playlist_id), body, items);
}

/// What [`Client::search`] gets back is the list under `song` within `searchResult3`.
pub proof fn songs_found_are_those_sent(query: Seq<char>, body: Seq<char>, items: Seq<Seq<char>>)
    requires
        holds_list::<Song>(body, "searchResult3"@, "song"@, items),
    ensures
        read_as::<Song>(list_answer::<Song>(search_call(query), body), items),
{
    list_is_read::<Song>(search_call(query), body, items);
}

/// What [`Client::recently_played`] gets back is the list under `song` within `recentlyPlayed`.
pub proof fn songs_recently_played_are_those_sent(body: Seq<char>, items: Seq<Seq<char>>)
    requires
        holds_list::<Song>(body, "recentlyPlayed"@, "song"@, items),
    ensures
        read_as::<Song>(list_answer::<Song>(recently_played_call(), body), items),
{
    list_is_read::<Song>(recently_played_call(), body, items);
}

/// What [`Client::on_repeat`] gets back is the list under `song` within `onRepeat`.
pub proof fn songs_on_repeat_are_those_sent(body: Seq<char>, items: Seq<Seq<char>>)
    requires
        holds_list::<Song>(body, "onRepeat"@, "song"@, items),
    ensures
        read_as::<Song>(list_answer::<Song>(on_repeat_call(), body), items),
{
    list_is_read::<Song>(on_repeat_call(), body, items);
}

/// What [`Client::songs_for_you`] gets back is the list under `song` within `songsForYou`.
pub proof fn songs_for_you_are_those_sent(body: Seq<char>, items: Seq<Seq<char>>)
    requires
        holds_list::<Song>(body, "songsForYou"@, "song"@, items),
    ensures
        read_as::<Song>(list_answer::<Song>(songs_for_you_call(), body), items),
{
    list_is_read::<Song>(songs_for_you_call(), body, items);
}

/// What [`Client::favourites`] gets back is the list under `song` within `favourites`.
pub proof fn favourites_are_those_sent(body: Seq<char>, items: Seq<Seq<char>>)
    requires
        holds_list::<Song>(body, "favourites"@, "song"@, items),
    ensures
        read_as::<Song>(list_answer::<Song>(favourites_call(), body), items),
{
    list_is_read::<Song>(favourites_call(), body, items);
}

/// What [`Client::playlists`] gets back is the list under `playlist` within `playlists`.
pub proof fn playlists_are_those_sent(body: Seq<char>, items: Seq<Seq<char>>)
    requires
        holds_list::<Playlist>(body, "playlists"@, "playlist"@, items),
    ensures
        read_as::<Playlist>(list_answer::<Playlist>(playlists_call(), body), items),
{
    list_is_read::<Playlist>(playlists_call(), body, items);
}

/// What [`Client::genres`] gets back is the list under `genre` within `genres`.
pub proof fn genres_are_those_sent(body: Seq<char>, items: Seq<Seq<char>>)
    requires
        holds_list::<crate::library::Genre>(body, "genres"@, "genre"@, items),
    ensures
        read_as::<crate::library::Genre>(list_answer::<crate::library::Genre>(genres_call(), body), items),
{
    list_is_read::<crate::library::Genre>(genres_call(), body, items);
}

/// What [`Client::structured_lyrics`] gets back is the list under `structuredLyrics` within `lyricsList`.
pub proof fn lyrics_versions_are_those_sent(song_id: Seq<char>, body: Seq<char>, items: Seq<Seq<char>>)
    requires
        holds_list::<StructuredLyrics>(body, "lyricsList"@, "structuredLyrics"@, items),
    ensures
        read_as::<StructuredLyrics>(list_answer::<StructuredLyrics>(structured_lyrics_call(song_id), body), items),
{
    list_is_read::<StructuredLyrics>(structured_lyrics_call(song_id), body, items);
}

/// An answer that went well and lacks its list is read as an empty one.
pub proof fn missing_list_is_empty<T: Decode>(call: ApiView, body: Seq<char>, root: Seq<char>)
    requires
        went_well(body, root),
        json::member_of(root, call.first) is None || json::member_of(
            json::member_of(root, call.first)->0,
            call.second,
        ) is None,
    ensures
        list_answer::<T>(call, body) == Ok::<Seq<T::V>, Fault>(Seq::empty()),
{
    two_keys_lead_on(root, call.first, call.second);
    two_keys_lead_on(root, "status"@, call.second);
    assert(json::decoded_items::<T>(Seq::empty()) =~= Seq::<T::V>::empty());
}

/// An answer whose status is not `ok` is refused with the message that it gives, or as
/// an unknown error where it gives none; a text that is no JSON is refused as such.
pub proof fn failure_is_told(path: Seq<char>, body: Seq<char>, root: Seq<char>, error: Seq<char>)
    requires
        json::is_json(body),
        json::member_of(body, "subsonic-response"@) == Some(root),
        json::member_of(root, "status"@) is None || json::string_in(
            json::member_of(root, "status"@)->0,
        ) != Some("ok"@),
    ensures
        refused(path, body) is Some,
        json::member_of(root, "error"@) == Some(error) && json::member_of(error, "message"@) is Some
            && json::string_in(json::member_of(error, "message"@)->0) is Some ==> refused(path, body)
            == Some(
            Fault::Refused {
                path,
                message: json::string_in(json::member_of(error, "message"@)->0)->0,
            },
        ),
        json::member_of(root, "error"@) is None ==> refused(path, body) == Some(
            Fault::Refused { path, message: "unknown error"@ },
        ),
{
    two_keys_lead_on(root, "status"@, "message"@);
    two_keys_lead_on(root, "error"@, "message"@);
}

/// Only a text that is no JSON, or whose status is not `ok`, is refused.
pub proof fn success_is_not_refused(path: Seq<char>, body: Seq<char>, root: Seq<char>)
    ensures
        went_well(body, root) ==> refused(path, body) is None,
        !json::is_json(body) ==> refused(path, body) == Some(Fault::NotJson { path }),
{
    if went_well(body, root) {
        two_keys_lead_on(root, "status"@, "status"@);
    }
}

/// The artists of an index are those of its groups, group after group, and none is left
/// out.
pub proof fn index_is_read_group_by_group(group: Seq<char>, groups: Seq<Seq<char>>)
    requires
        json::decoded_list::<Artist>(json::member_of(group, "artist"@)) is Some,
        indexed_artists(groups) is Some,
    ensures
        indexed_artists(groups.push(group)) == Some(
            indexed_artists(groups)->0 + json::decoded_list::<Artist>(
                json::member_of(group, "artist"@),
            )->0,
        ),
    decreases groups.len(),
{
    let own = json::decoded_list::<Artist>(json::member_of(group, "artist"@))->0;
    if groups.len() == 0 {
        reveal_with_fuel(indexed_artists, 2);
        assert(groups.push(group).skip(1) =~= Seq::<Seq<char>>::empty());
        assert(own + Seq::<ArtistView>::empty() =~= Seq::<ArtistView>::empty() + own);
    } else {
        let rest = groups.skip(1);
        index_is_read_group_by_group(group, rest);
        assert(groups.push(group).skip(1) =~= rest.push(group));
        let first = json::decoded_list::<Artist>(json::member_of(groups[0], "artist"@))->0;
        assert(first + (indexed_artists(rest)->0 + own) =~= (first + indexed_artists(rest)->0)
            + own);
    }
}

/// The artists come from the groups under `index` within `artists`.
pub proof fn index_stands_within_artists(root: Seq<char>, artists: Seq<char>, index: Seq<char>)
    requires
        json::member_of(root, "artists"@) == Some(artists),
        json::member_of(artists, "index"@) == Some(index),
        json::items_of(index) is Some,
    ensures
        index_groups(
            json::at_path(Some(root), seq![artists_call().first, artists_call().second]),
        ) == json::items_of(index)->0,
{
    two_keys_lead_on(root, "artists"@, "index"@);
}

/// What the server tells of an artist is its biography as plain text, and the similar
/// artists in order.
pub proof fn artist_info_says_what_was_sent(value: Seq<char>)
    requires
        json::members_of(value) is Some,
        json::items_of(value) is None,
    ensures
        ({
            let biography = json::member_of(value, "biography"@);
            let similar = json::member_of(value, "similarArtist"@);
            artist_info_in(value) matches Some((words, artists)) ==> {
                &&& biography is Some ==> json::string_in(biography->0) is Some && words
                    == crate::library::plain_text(json::string_in(biography->0)->0)
                &&& biography is None ==> words == crate::library::plain_text(Seq::empty())
                &&& similar is Some ==> json::decoded_list::<SimilarArtist>(similar) == Some(
                    artists,
                )
                &&& similar is None ==> artists.len() == 0
            }
        }),
{
}

/// Whether a call names `value` as its parameter `key`.
pub open spec fn asks(call: ApiView, key: Seq<char>, value: Seq<char>) -> bool {
    call.params.contains((key, value))
}

proof fn asks_at(call: ApiView, i: int, key: Seq<char>, value: Seq<char>)
    requires
        0 <= i < call.params.len(),
        call.params[i] == (key, value),
    ensures
        asks(call, key, value),
{
}

/// The calls for what belongs to one thing name that thing by its id, and nothing else.
pub proof fn calls_name_what_they_ask_for(id: Seq<char>)
    ensures
        album_songs_call(id).path == "rest/getAlbum.view"@,
        artist_albums_call(id).path == "rest/getArtist.view"@,
        playlist_songs_call(id).path == "rest/getPlaylist.view"@,
        artist_info_call(id).path == "rest/getArtistInfo2.view"@,
        album_info_call(id).path == "rest/getAlbumInfo2.view"@,
        structured_lyrics_call(id).path == "rest/getLyricsBySongId.view"@,
        delete_playlist_call(id).path == "rest/deletePlaylist.view"@,
        set_starred_call(id, true).path == "rest/star.view"@,
        set_starred_call(id, false).path == "rest/unstar.view"@,
        forall|call: ApiView|
            call == album_songs_call(id) || call == artist_albums_call(id) || call
                == playlist_songs_call(id) || call == artist_info_call(id) || call
                == album_info_call(id) || call == structured_lyrics_call(id) || call
                == delete_playlist_call(id) || call == set_starred_call(id, true) || call
                == set_starred_call(id, false) ==> #[trigger] call.params.len() == 1
                && call.params[0] == ("id"@, id),
{
}

/// A search names its query, and wants songs only.
pub proof fn search_names_its_query(query: Seq<char>)
    ensures
        search_call(query).path == "rest/search3.view"@,
        asks(search_call(query), "query"@, query),
        asks(search_call(query), "artistCount"@, "0"@),
        asks(search_call(query), "albumCount"@, "0"@),
        asks(search_call(query), "songCount"@, "50"@),
        search_call(query).params.len() == 4,
{
    let call = search_call(query);
    asks_at(call, 0, "query"@, query);
    asks_at(call, 1, "artistCount"@, "0"@);
    asks_at(call, 2, "albumCount"@, "0"@);
    asks_at(call, 3, "songCount"@, "50"@);
}

/// The lists of albums differ in their type alone; those of a genre name it.
pub proof fn album_lists_name_their_type(genre: Seq<char>)
    ensures
        albums_call().path == "rest/getAlbumList2.view"@,
        newest_albums_call().path == "rest/getAlbumList2.view"@,
        albums_by_genre_call(genre).path == "rest/getAlbumList2.view"@,
        asks(albums_call(), "type"@, "alphabeticalByName"@),
        asks(newest_albums_call(), "type"@, "newest"@),
        asks(albums_by_genre_call(genre), "type"@, "byGenre"@),
        asks(albums_by_genre_call(genre), "genre"@, genre),
        asks(albums_call(), "size"@, "200"@),
        asks(newest_albums_call(), "size"@, "200"@),
        asks(albums_by_genre_call(genre), "size"@, "200"@),
        albums_call().params.len() == 2,
        newest_albums_call().params.len() == 2,
        albums_by_genre_call(genre).params.len() == 3,
{
    asks_at(albums_call(), 0, "type"@, "alphabeticalByName"@);
    asks_at(newest_albums_call(), 0, "type"@, "newest"@);
    asks_at(albums_by_genre_call(genre), 0, "type"@, "byGenre"@);
    asks_at(albums_by_genre_call(genre), 1, "genre"@, genre);
    asks_at(albums_call(), 1, "size"@, "200"@);
    asks_at(newest_albums_call(), 1, "size"@, "200"@);
    asks_at(albums_by_genre_call(genre), 2, "size"@, "200"@);
}

/// The lists that the server makes up by itself, and those of everything, are asked for
/// without parameters.
pub proof fn whole_lists_take_no_parameters()
    ensures
        artists_call().path == "rest/getArtists.view"@,
        playlists_call().path == "rest/getPlaylists.view"@,
        genres_call().path == "rest/getGenres.view"@,
        recently_played_call().path == "rest/getRecentlyPlayed.view"@,
        on_repeat_call().path == "rest/getOnRepeat.view"@,
        songs_for_you_call().path == "rest/getSongsForYou.view"@,
        favourites_call().path == "rest/getFavourites.view"@,
        artists_call().params.len() == 0,
        playlists_call().params.len() == 0,
        genres_call().params.len() == 0,
        recently_played_call().params.len() == 0,
        on_repeat_call().params.len() == 0,
        songs_for_you_call().params.len() == 0,
        favourites_call().params.len() == 0,
{
}

/// A playlist is changed by naming it together with its new name, with the song that
/// joins it, or with the place of the song that leaves it, counted from zero.
pub proof fn playlist_changes_name_what_changes(
    playlist: Seq<char>,
    name: Seq<char>,
    song: Seq<char>,
    place: usize,
)
    ensures
        rename_playlist_call(playlist, name).path == "rest/updatePlaylist.view"@,
        add_song_to_playlist_call(playlist, song).path == "rest/updatePlaylist.view"@,
        remove_song_from_playlist_call(playlist, place).path == "rest/updatePlaylist.view"@,
        asks(rename_playlist_call(playlist, name), "playlistId"@, playlist),
        asks(rename_playlist_call(playlist, name), "name"@, name),
        asks(add_song_to_playlist_call(playlist, song), "playlistId"@, playlist),
        asks(add_song_to_playlist_call(playlist, song), "songIdToAdd"@, song),
        asks(remove_song_from_playlist_call(playlist, place), "playlistId"@, playlist),
        exists|digits: Seq<char>|
            #[trigger] asks(
                remove_song_from_playlist_call(playlist, place),
                "songIndexToRemove"@,
                digits,
            ) && text::integer(digits) == Some(place as int),
        rename_playlist_call(playlist, name).params.len() == 2,
        add_song_to_playlist_call(playlist, song).params.len() == 2,
        remove_song_from_playlist_call(playlist, place).params.len() == 2,
{
    text::decimal_reads_back(place as nat);
    asks_at(rename_playlist_call(playlist, name), 0, "playlistId"@, playlist);
    asks_at(rename_playlist_call(playlist, name), 1, "name"@, name);
    asks_at(add_song_to_playlist_call(playlist, song), 0, "playlistId"@, playlist);
    asks_at(add_song_to_playlist_call(playlist, song), 1, "songIdToAdd"@, song);
    asks_at(remove_song_from_playlist_call(playlist, place), 0, "playlistId"@, playlist);
    asks_at(
        remove_song_from_playlist_call(playlist, place),
        1,
        "songIndexToRemove"@,
        text::decimal(place as nat),
    );
}

/// A new playlist is asked for by its name, with every song that it starts with, in
/// order.
pub proof fn new_playlist_names_every_song(name: Seq<char>, songs: Seq<Seq<char>>)
    ensures
        create_playlist_call(name, songs).path == "rest/createPlaylist.view"@,
        create_playlist_call(name, songs).params.len() == songs.len() + 1,
        create_playlist_call(name, songs).params[0] == ("name"@, name),
        forall|i: int|
            0 <= i < songs.len() ==> create_playlist_call(name, songs).params[i + 1] == (
                "songId"@,
                #[trigger] songs[i],
            ),
{
}

/// Plain lyrics are asked for by artist and title.
pub proof fn plain_lyrics_name_the_song(artist: Seq<char>, title: Seq<char>)
    ensures
        plain_lyrics_call(artist, title).path == "rest/getLyrics.view"@,
        asks(plain_lyrics_call(artist, title), "artist"@, artist),
        asks(plain_lyrics_call(artist, title), "title"@, title),
        plain_lyrics_call(artist, title).params.len() == 2,
{
    asks_at(plain_lyrics_call(artist, title), 0, "artist"@, artist);
    asks_at(plain_lyrics_call(artist, title), 1, "title"@, title);
}

/// Only the user's own playlists are kept, all of them, in the order sent.
pub proof fn own_playlists_are_kept(sent: Seq<PlaylistView>, username: Seq<char>)
    ensures
        forall|i: int|
            0 <= i < sent.filter(owned_by(username)).len() ==> (#[trigger] sent.filter(
                owned_by(username),
            )[i]).owner == username,
        forall|i: int|
            0 <= i < sent.len() && (#[trigger] sent[i]).owner == username ==> sent.filter(
                owned_by(username),
            ).contains(sent[i]),
{
    broadcast use vstd::seq_lib::group_filter_ensures;

    let kept = sent.filter(owned_by(username));
    assert forall|i: int| 0 <= i < kept.len() implies (#[trigger] kept[i]).owner == username by {
        assert(owned_by(username)(kept[i]));
    }
    assert forall|i: int|
        0 <= i < sent.len() && (#[trigger] sent[i]).owner == username implies kept.contains(
        sent[i],
    ) by {
        assert(owned_by(username)(sent[i]));
    }
}

/// A request goes to the server's own address, whatever slashes end it, and asks for the
/// path with what it is about, who asks, and for an answer in JSON.
pub proof fn request_goes_to_the_server(
    client: Client,
    path: Seq<char>,
    extra: Seq<(Seq<char>, Seq<char>)>,
    auth: Seq<(Seq<char>, Seq<char>)>,
)
    requires
        extra.len() + auth.len() > 0,
    ensures
        client.authed(path, extra, auth) == text::without_end_slashes(client.creds.server_url@)
            + "/"@ + path + "?"@ + crate::url::query(extra + auth) + "&f="@
            + crate::url::percent_encoded("json"@),
{
    let pairs = extra + auth;
    crate::url::query_lists_every_pair(pairs, "f"@, "json"@);
    reveal_strlit("&");
    reveal_strlit("f");
    reveal_strlit("=");
    reveal_strlit("&f=");
    assert("&"@ + "f"@ + "="@ =~= "&f="@);
    let head = text::without_end_slashes(client.creds.server_url@) + "/"@ + path + "?"@;
    let json = crate::url::percent_encoded("json"@);
    let q = crate::url::query(pairs);
    assert(head + (q + "&"@ + "f"@ + "="@ + json) =~= head + q + ("&"@ + "f"@ + "="@) + json);
}

/// A queue entry plays its own song: it has the song's id, its title, artist and album, and
/// streams it by that id.
pub proof fn entry_plays_its_song(
    client: Client,
    song: Song,
    stream_auth: Seq<(String, String)>,
    art_auth: Seq<(String, String)>,
    entry: QueueEntry,
)
    requires
        plays(client, song, stream_auth, art_auth, entry),
    ensures
        entry.song_id@ == song.id@,
        entry.title@ == song.title@,
        entry.artist@ == song.artist@,
        entry.album@ == song.album@,
        entry.duration == song.duration,
        entry.stream_url@ == client.authed(
            "rest/stream.view"@,
            seq![("id"@, song.id@)],
            pair_views(stream_auth),
        ),
        song.cover_art is None ==> entry.art_url@.len() == 0,
        song.cover_art is Some ==> entry.art_url@ == client.authed(
            "rest/getCoverArt.view"@,
            seq![("id"@, song.cover_art->0@)],
            pair_views(art_auth),
        ),
{
}

} // verus!
