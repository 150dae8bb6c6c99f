use maraetai::auth::{auth_pairs, token_pairs};
use maraetai::client::{
    album_info_reply, artist_info_reply, artists_reply, created_playlist_id, scrobble_pairs,
    scrobble_url, ApiCall, Client,
};
use maraetai::config::Credentials;
use maraetai::json::Decode;
use maraetai::library::{
    format_label, judge_reply, own_playlists, strip_html, Album, Artist, ClientError, Genre,
    Playlist, Song,
};
use maraetai::protocol::QueueEntry;
use maraetai::url::{query_string, url_for};

const SERVER: &str = "http://127.0.0.1:4533";

fn test_creds(server_url: String) -> Credentials {
    Credentials { server_url, username: "alice".into(), password: "hunter2".into() }
}

fn client() -> Client {
    Client::new(test_creds(SERVER.to_string()))
}

fn auth() -> Vec<(String, String)> {
    auth_pairs("alice", "sesame", "c19b2d")
}

/// What follows the server in the call's URL.
fn requested(call: &ApiCall) -> String {
    let url = client().call_url(call, &auth());
    assert!(url.starts_with(SERVER), "got: {url}");
    url[SERVER.len()..].to_string()
}

fn song(json: &str) -> Song {
    Song::decode(json).unwrap()
}

fn secs(song: &Song) -> f64 {
    f64::from_bits(song.duration.bits)
}

fn gain(song: &Song) -> f64 {
    f64::from_bits(song.replay_gain_db().bits)
}

#[test]
fn parses_real_shaped_recently_played() {
    let songs: Vec<Song> = client()
        .recently_played()
        .list(
            r#"{"subsonic-response":{"status":"ok","recentlyPlayed":{"song":[
                {"id":"s1","title":"Angel","artist":"Massive Attack","album":"Mezzanine","duration":379,"playedAt":1700000000}
            ]}}}"#,
        )
        .unwrap();
    assert_eq!(songs.len(), 1);
    assert_eq!(songs[0].title, "Angel");
}

#[test]
fn parses_real_shaped_on_repeat() {
    let songs: Vec<Song> = client()
        .on_repeat()
        .list(
            r#"{"subsonic-response":{"status":"ok","onRepeat":{"song":[
                {"id":"s1","title":"Teardrop","artist":"Massive Attack","playCount":12}
            ]}}}"#,
        )
        .unwrap();
    assert_eq!(songs.len(), 1);
    assert_eq!(songs[0].title, "Teardrop");
}

#[test]
fn parses_real_shaped_songs_for_you() {
    let songs: Vec<Song> = client()
        .songs_for_you()
        .list(
            r#"{"subsonic-response":{"status":"ok","songsForYou":{"song":[
                {"id":"s1","title":"Glory Box","artist":"Portishead","reason":"Because you play Massive Attack"}
            ]}}}"#,
        )
        .unwrap();
    assert_eq!(songs.len(), 1);
    assert_eq!(songs[0].title, "Glory Box");
}

#[test]
fn parses_real_shaped_favourites_including_starred_flag() {
    let songs: Vec<Song> = client()
        .favourites()
        .list(
            r#"{"subsonic-response":{"status":"ok","favourites":{"song":[
                {"id":"s1","title":"Angel","starred":"2024-01-01T00:00:00.000Z"}
            ]}}}"#,
        )
        .unwrap();
    assert_eq!(songs.len(), 1);
    assert!(songs[0].is_starred());
}

#[test]
fn song_without_a_starred_field_is_not_starred() {
    let song: Song = song(r#"{"id":"s1","title":"Angel"}"#);
    assert!(!song.is_starred());
}

#[test]
fn replay_gain_prefers_track_gain_over_album_gain() {
    let song: Song =
        song(r#"{"id":"s1","title":"Angel","replayGain":{"trackGain":-6.5,"albumGain":-7.2}}"#);
    assert_eq!(gain(&song), -6.5);
}

#[test]
fn replay_gain_falls_back_to_album_gain_when_track_gain_is_absent() {
    let song: Song = song(r#"{"id":"s1","title":"Angel","replayGain":{"albumGain":-7.2}}"#);
    assert_eq!(gain(&song), -7.2);
}

#[test]
fn replay_gain_is_zero_without_the_field_at_all() {
    let song: Song = song(r#"{"id":"s1","title":"Angel"}"#);
    assert_eq!(gain(&song), 0.0);
}

#[test]
fn set_starred_true_requests_star_view_with_the_song_id() {
    let call = client().set_starred("song123", true);
    assert_eq!(call.done(r#"{"subsonic-response":{"status":"ok"}}"#), Ok(()));
    let request_line = requested(&call);
    assert!(request_line.starts_with("/rest/star.view?"), "got: {request_line}");
    assert!(request_line.contains("id=song123"), "got: {request_line}");
}

#[test]
fn set_starred_false_requests_unstar_view() {
    let call = client().set_starred("song123", false);
    assert_eq!(call.done(r#"{"subsonic-response":{"status":"ok"}}"#), Ok(()));
    let request_line = requested(&call);
    assert!(request_line.starts_with("/rest/unstar.view?"), "got: {request_line}");
}

#[test]
fn create_playlist_sends_name_and_repeated_song_id_params() {
    let call = client().create_playlist("Mix", &vec!["s1".into(), "s2".into()]);
    let id = created_playlist_id(
        &call,
        r#"{"subsonic-response":{"status":"ok","playlist":{"id":"pl9","name":"Mix"}}}"#,
    )
    .unwrap();
    assert_eq!(id, "pl9");
    let request_line = requested(&call);
    assert!(request_line.starts_with("/rest/createPlaylist.view?"), "got: {request_line}");
    assert!(request_line.contains("name=Mix"), "got: {request_line}");
    assert!(
        request_line.contains("songId=s1") && request_line.contains("songId=s2"),
        "got: {request_line}"
    );
}

#[test]
fn delete_playlist_requests_delete_playlist_view() {
    let call = client().delete_playlist("pl9");
    assert_eq!(call.done(r#"{"subsonic-response":{"status":"ok"}}"#), Ok(()));
    let request_line = requested(&call);
    assert!(request_line.starts_with("/rest/deletePlaylist.view?"), "got: {request_line}");
    assert!(request_line.contains("id=pl9"), "got: {request_line}");
}

#[test]
fn rename_playlist_sends_playlist_id_and_new_name() {
    let call = client().rename_playlist("pl9", "New Name");
    assert_eq!(call.done(r#"{"subsonic-response":{"status":"ok"}}"#), Ok(()));
    let request_line = requested(&call);
    assert!(request_line.starts_with("/rest/updatePlaylist.view?"), "got: {request_line}");
    assert!(request_line.contains("playlistId=pl9"), "got: {request_line}");
    assert!(request_line.contains("name=New"), "got: {request_line}");
}

#[test]
fn add_song_to_playlist_sends_song_id_to_add() {
    let call = client().add_song_to_playlist("pl9", "s1");
    assert_eq!(call.done(r#"{"subsonic-response":{"status":"ok"}}"#), Ok(()));
    let request_line = requested(&call);
    assert!(request_line.contains("playlistId=pl9"), "got: {request_line}");
    assert!(request_line.contains("songIdToAdd=s1"), "got: {request_line}");
}

#[test]
fn remove_song_from_playlist_sends_song_index_to_remove() {
    let call = client().remove_song_from_playlist("pl9", 2);
    assert_eq!(call.done(r#"{"subsonic-response":{"status":"ok"}}"#), Ok(()));
    let request_line = requested(&call);
    assert!(request_line.contains("playlistId=pl9"), "got: {request_line}");
    assert!(request_line.contains("songIndexToRemove=2"), "got: {request_line}");
}

#[test]
fn parses_real_shaped_artist_info_and_strips_bio_html() {
    let info = artist_info_reply(
        &client().artist_info("ar1"),
        r#"{"subsonic-response":{"status":"ok","artistInfo2":{
                "biography":"A great band from Bristol. &lt;3 <a href=\"http://last.fm\">Read more</a>",
                "similarArtist":[{"id":"ar2","name":"Tricky"},{"id":"ar3","name":"Portishead"}]
            }}}"#,
    )
    .unwrap();
    assert_eq!(info.biography, "A great band from Bristol. <3 Read more");
    assert_eq!(info.similar_artists.len(), 2);
    assert_eq!(info.similar_artists[0].name, "Tricky");
}

#[test]
fn missing_artist_info_is_empty_not_an_error() {
    let info = artist_info_reply(
        &client().artist_info("ar1"),
        r#"{"subsonic-response":{"status":"ok"}}"#,
    )
    .unwrap();
    assert!(info.biography.is_empty());
    assert!(info.similar_artists.is_empty());
}

#[test]
fn parses_real_shaped_album_info() {
    let info = album_info_reply(
        &client().album_info("al1"),
        r#"{"subsonic-response":{"status":"ok","albumInfo":{"notes":"Recorded in 1998."}}}"#,
    )
    .unwrap();
    assert_eq!(info.notes, "Recorded in 1998.");
}

#[test]
fn missing_album_info_is_empty_not_an_error() {
    let info = album_info_reply(
        &client().album_info("al1"),
        r#"{"subsonic-response":{"status":"ok"}}"#,
    )
    .unwrap();
    assert!(info.notes.is_empty());
}

#[test]
fn strip_html_removes_tags_and_unescapes_entities() {
    assert_eq!(strip_html("Tom &amp; Jerry <b>rock</b>"), "Tom & Jerry rock");
    assert_eq!(strip_html("  padded  "), "padded");
}

#[test]
fn newest_albums_requests_the_newest_sort_type() {
    let call = client().newest_albums();
    let albums: Vec<Album> = call
        .list(
            r#"{"subsonic-response":{"status":"ok","albumList2":{"album":[
                {"id":"al3","name":"Blue Lines","artist":"Massive Attack"}
            ]}}}"#,
        )
        .unwrap();
    assert_eq!(albums.len(), 1);
    let request_line = requested(&call);
    assert!(request_line.starts_with("/rest/getAlbumList2.view?"), "got: {request_line}");
    assert!(request_line.contains("type=newest"), "got: {request_line}");
}

#[test]
fn parses_real_shaped_album_list() {
    let albums: Vec<Album> = client()
        .albums()
        .list(
            r#"{"subsonic-response":{"status":"ok","albumList2":{"album":[
                {"id":"al1","name":"Mezzanine","artist":"Massive Attack","coverArt":"ar-al1","songCount":11},
                {"id":"al2","name":"Dummy","artist":"Portishead","coverArt":"ar-al2","songCount":11}
            ]}}}"#,
        )
        .unwrap();
    assert_eq!(albums.len(), 2);
    assert_eq!(albums[0].id, "al1");
    assert_eq!(albums[0].name, "Mezzanine");
    assert_eq!(albums[0].artist, "Massive Attack");
}

#[test]
fn parses_real_shaped_album_songs() {
    let songs: Vec<Song> = client()
        .album_songs("al1")
        .list(
            r#"{"subsonic-response":{"status":"ok","album":{"id":"al1","name":"Mezzanine","song":[
                {"id":"s1","title":"Angel","artist":"Massive Attack","album":"Mezzanine","duration":379,"coverArt":"al1"},
                {"id":"s2","title":"Teardrop","artist":"Massive Attack","album":"Mezzanine","duration":331}
            ]}}}"#,
        )
        .unwrap();
    assert_eq!(songs.len(), 2);
    assert_eq!(songs[0].title, "Angel");
    assert_eq!(secs(&songs[0]), 379.0);
    assert_eq!(songs[0].cover_art.as_deref(), Some("al1"));
    assert_eq!(songs[1].cover_art, None);
}

#[test]
fn playlists_filters_out_other_users_public_playlists() {
    let playlists = client()
        .playlists_reply(
            &client().playlists(),
            r#"{"subsonic-response":{"status":"ok","playlists":{"playlist":[
                {"id":"pl1","name":"My Mix","songCount":5,"owner":"alice"},
                {"id":"pl2","name":"Bob's Public Mix","songCount":3,"owner":"bob","public":true},
                {"id":"pl3","name":"Another Alice List","songCount":1,"owner":"alice"}
            ]}}}"#,
        )
        .unwrap();
    assert_eq!(playlists.len(), 2);
    assert!(playlists.iter().all(|p| p.owner == "alice"));
    assert_eq!(playlists[0].name, "My Mix");
    assert_eq!(playlists[1].name, "Another Alice List");
}

#[test]
fn empty_search_results_are_not_an_error() {
    let songs: Vec<Song> = client()
        .search("nonexistent")
        .list(r#"{"subsonic-response":{"status":"ok","searchResult3":{}}}"#)
        .unwrap();
    assert!(songs.is_empty());
}

#[test]
fn subsonic_error_status_surfaces_the_message() {
    let reply: Result<Vec<Album>, ClientError> = client().albums().list(
        r#"{"subsonic-response":{"status":"failed","error":{"code":40,"message":"Wrong username or password"}}}"#,
    );
    let err = reply.unwrap_err();
    assert!(err.message().contains("Wrong username or password"));
}

#[test]
fn cover_art_url_is_empty_when_absent() {
    let client = Client::new(test_creds("https://example.com".into()));
    assert_eq!(client.cover_art_url(&None, &auth()), "");
    assert!(client.cover_art_url(&Some("art1".into()), &auth()).contains("id=art1"));
}

#[test]
fn format_label_marks_flac_lossless_without_bitrate() {
    let (label, lossless) = format_label("flac", Some(1234));
    assert_eq!(label, "FLAC");
    assert!(lossless, "FLAC must be reported lossless");
}

#[test]
fn format_label_shows_bitrate_for_lossy_formats() {
    let (label, lossless) = format_label("mp3", Some(320));
    assert_eq!(label, "MP3 320");
    assert!(!lossless);
}

#[test]
fn format_label_handles_missing_bitrate() {
    let (label, lossless) = format_label("ogg", None);
    assert_eq!(label, "OGG");
    assert!(!lossless);
}

#[test]
fn format_label_treats_m4a_as_lossy_not_a_guess() {
    let (label, lossless) = format_label("m4a", Some(256));
    assert_eq!(label, "M4A 256");
    assert!(!lossless);
}

#[test]
fn format_label_empty_suffix_yields_empty_label() {
    let (label, lossless) = format_label("", None);
    assert_eq!(label, "");
    assert!(!lossless);
}

#[test]
fn format_label_is_case_insensitive_for_lossless_detection() {
    let (_, lossless) = format_label("FLAC", None);
    assert!(lossless);
}

#[test]
fn format_label_changes_letters_of_ascii_alone() {
    assert_eq!(format_label("\u{f6}gg", None).0, "\u{f6}GG");
    assert_eq!(format_label("mp3", Some(0)).0, "MP3", "a bit rate of zero is not known");
}

#[test]
fn scrobble_request_matches_maraetai_services_scrobble_tee_contract() {
    let mut pairs = auth();
    pairs.extend(scrobble_pairs("song123", true).unwrap());
    let request = reqwest::blocking::Client::new()
        .get(scrobble_url("http://127.0.0.1:4533"))
        .query(&pairs)
        .build()
        .unwrap();
    assert_eq!(request.method().as_str(), "GET");
    assert_eq!(request.url().path(), "/rest/scrobble.view");
    let query = request.url().query().unwrap();
    for expected_param in ["id=song123", "submission=true", "u=alice", "c=maraetai-tui"] {
        assert!(query.contains(expected_param), "missing {expected_param} in: {query}");
    }
    assert!(query.contains("t="), "missing auth token param in: {query}");
    assert!(query.contains("s="), "missing auth salt param in: {query}");
    assert!(query.contains("t=26719a1196d2a940705a59634eb18eab&s=c19b2d&v=1.16.1"));
    assert!(!query.contains("sesame"), "the password itself is not sent: {query}");
}

#[test]
fn a_token_stands_for_the_password() {
    let pairs = token_pairs("alice", "abc".to_string(), "salt");
    let shown: Vec<String> = pairs.iter().map(|(key, value)| format!("{key}={value}")).collect();
    assert_eq!(shown, vec!["u=alice", "t=abc", "s=salt", "v=1.16.1", "c=maraetai-tui"]);
    let other = auth_pairs("alice", "sesame", "c19b2e");
    assert_ne!(other[1], auth()[1], "another salt, another token");
}

#[test]
fn a_record_may_list_its_fields_in_order() {
    let album = Album::decode(r#"["al1","Mezzanine","Massive Attack"]"#).unwrap();
    assert_eq!((album.id.as_str(), album.artist.as_str()), ("al1", "Massive Attack"));
    assert_eq!(Album::decode(r#"["al1","Mezzanine"]"#).unwrap().artist, "", "the rest is missing");
    assert_eq!(Album::decode(r#"["al1"]"#), None, "no name");
    assert_eq!(Album::decode(r#"["al1","Mezzanine","Massive Attack",1]"#), None, "one too many");
    let s = song(r#" ["s1","Angel","","",379.5,null,"flac",null,"2026-01-01",[-6.5]] "#);
    assert_eq!((secs(&s), s.suffix.as_str(), s.is_starred()), (379.5, "flac", true));
    assert_eq!(gain(&s), -6.5);
    assert_eq!(Album::decode(r#" { "id" : "al1" , "name" : "Mezzanine" } "#).unwrap().name, "Mezzanine");
    assert_eq!(Album::decode(r#"{"id":"al1","name":"Mezzanine""#), None, "no JSON");
    // Of several members with one key, the last counts.
    assert_eq!(song(r#"{"id":"s0","id":"s1","title":"Angel"}"#).id, "s1");
}

#[test]
fn a_track_without_a_song_id_is_not_scrobbled() {
    assert_eq!(scrobble_pairs("", true), None);
    let now_playing = scrobble_pairs("song123", false).unwrap();
    assert!(now_playing.contains(&("submission".to_string(), "false".to_string())));
}

#[test]
fn a_url_ends_in_its_encoded_pairs() {
    let pairs = vec![
        ("q".to_string(), "caf\u{e9} & co/1+1".to_string()),
        ("n".to_string(), "-_.~".to_string()),
    ];
    assert_eq!(query_string(&pairs), "q=caf%C3%A9%20%26%20co%2F1%2B1&n=-_.~");
    assert_eq!(
        url_for("https://music.example.com/", "rest/ping.view", &pairs),
        "https://music.example.com/rest/ping.view?q=caf%C3%A9%20%26%20co%2F1%2B1&n=-_.~"
    );
}

#[test]
fn every_list_is_asked_where_it_stands() {
    let c = client();
    let starts = |call: ApiCall, expected: &str| {
        let line = requested(&call);
        assert!(line.starts_with(expected), "expected {expected}, got: {line}");
    };
    starts(c.albums(), "/rest/getAlbumList2.view?type=alphabeticalByName&size=200&u=alice");
    starts(c.artists(), "/rest/getArtists.view?u=alice");
    starts(c.genres(), "/rest/getGenres.view?u=alice");
    starts(c.playlist_songs("pl1"), "/rest/getPlaylist.view?id=pl1&u=alice");
    starts(c.artist_albums("ar1"), "/rest/getArtist.view?id=ar1&u=alice");
    starts(c.search("a b"), "/rest/search3.view?query=a%20b&artistCount=0&albumCount=0&songCount=50");
    starts(c.structured_lyrics("s1"), "/rest/getLyricsBySongId.view?id=s1");
    starts(c.plain_lyrics("A", "T"), "/rest/getLyrics.view?artist=A&title=T");
    assert!(requested(&c.albums_by_genre("Trip Hop")).contains("genre=Trip%20Hop"));
}

#[test]
fn artists_are_read_out_of_their_letters() {
    let artists: Vec<Artist> = artists_reply(
        &client().artists(),
        r#"{"subsonic-response":{"status":"ok","artists":{"index":[
            {"name":"M","artist":[{"id":"ar1","name":"Massive Attack","albumCount":5}]},
            {"name":"P","artist":[{"id":"ar3","name":"Portishead","albumCount":3}]}
        ]}}}"#,
    )
    .unwrap();
    let names: Vec<&str> = artists.iter().map(|a| a.name.as_str()).collect();
    assert_eq!(names, vec!["Massive Attack", "Portishead"]);
    assert_eq!(artists[0].album_count, 5);
}

#[test]
fn genres_are_read() {
    let genres: Vec<Genre> = client()
        .genres()
        .list(
            r#"{"subsonic-response":{"status":"ok","genres":{"genre":[
                {"value":"Trip Hop","songCount":28,"albumCount":4}
            ]}}}"#,
        )
        .unwrap();
    assert_eq!(
        genres,
        vec![Genre { value: "Trip Hop".to_string(), song_count: 28, album_count: 4 }]
    );
}

#[test]
fn replies_that_cannot_be_read_are_errors() {
    let call = client().albums();
    let html: Result<Vec<Album>, ClientError> = call.list("<html></html>");
    assert_eq!(html, Err(ClientError::NotJson { path: "rest/getAlbumList2.view".to_string() }));
    let shape: Result<Vec<Album>, ClientError> =
        call.list(r#"{"subsonic-response":{"status":"ok","albumList2":{"album":[{"id":1}]}}}"#);
    assert_eq!(shape, Err(ClientError::UnexpectedShape));
    let created = created_playlist_id(&call, r#"{"subsonic-response":{"status":"ok"}}"#);
    assert_eq!(created, Err(ClientError::NoPlaylistId));
    let artist = artist_info_reply(
        &call,
        r#"{"subsonic-response":{"status":"ok","artistInfo2":{"biography":7}}}"#,
    );
    assert_eq!(artist, Err(ClientError::UnexpectedArtistInfo));
    let album = album_info_reply(
        &call,
        r#"{"subsonic-response":{"status":"ok","albumInfo":{"notes":7}}}"#,
    );
    assert_eq!(album, Err(ClientError::UnexpectedAlbumInfo));
}

#[test]
fn only_a_status_of_ok_is_success() {
    assert_eq!(judge_reply("rest/ping.view", Some("ok"), None), Ok(()));
    let refused = judge_reply("rest/ping.view", Some("failed"), Some("nope".to_string()));
    assert_eq!(
        refused,
        Err(ClientError::Refused { path: "rest/ping.view".to_string(), message: "nope".to_string() })
    );
    assert!(judge_reply("rest/ping.view", None, None).is_err());
}

#[test]
fn own_playlists_keep_their_order() {
    let playlist = |id: &str, owner: &str| Playlist {
        id: id.to_string(),
        name: id.to_string(),
        song_count: 0,
        owner: owner.to_string(),
    };
    let all = vec![playlist("a", "alice"), playlist("b", "bob"), playlist("c", "alice")];
    let own = own_playlists(all, "alice");
    assert_eq!(own, vec![playlist("a", "alice"), playlist("c", "alice")]);
}

#[test]
fn numbers_of_a_song_are_read() {
    let s = song(r#"{"id":"s1","title":"Angel","duration":379.5,"bitRate":320,"suffix":"mp3"}"#);
    assert_eq!(secs(&s), 379.5);
    assert_eq!(s.bit_rate, Some(320));
    let negative = song(r#"{"id":"s1","title":"Angel","duration":-1}"#);
    assert_eq!(secs(&negative), -1.0);
    assert_eq!(Song::decode(r#"{"id":"s1"}"#), None, "no title");
    assert_eq!(Song::decode(r#"{"id":"s1","title":"Angel","bitRate":"x"}"#), None);
    assert_eq!(Song::decode("7"), None);
}

#[test]
fn a_song_becomes_a_queue_entry() {
    let s = song(
        r#"{"id":"s 1","title":"Angel","artist":"Massive Attack","album":"Mezzanine","duration":379,
            "coverArt":"al1","suffix":"mp3","bitRate":320,"replayGain":{"trackGain":-6.5}}"#,
    );
    let entry: QueueEntry = client().queue_entry(&s, &auth(), &vec![]);
    assert!(entry.stream_url.starts_with("http://127.0.0.1:4533/rest/stream.view?id=s%201&u=alice"));
    assert_eq!(entry.art_url, "http://127.0.0.1:4533/rest/getCoverArt.view?id=al1&f=json");
    assert_eq!(entry.title, "Angel");
    assert_eq!(entry.artist, "Massive Attack");
    assert_eq!(entry.album, "Mezzanine");
    assert_eq!(f64::from_bits(entry.duration.bits), 379.0);
    assert_eq!(entry.format_label, "MP3 320");
    assert!(!entry.lossless);
    assert_eq!(entry.song_id, "s 1");
    assert_eq!(f64::from_bits(entry.replay_gain_db.bits), -6.5);
}
