use maraetai::client::{plain_lyrics_reply, structured_lyrics_reply, Client};
use maraetai::config::Credentials;
use maraetai::lyrics::{
    after_legacy, after_structured, lyrics_by_song_id, lyrics_legacy, parse_lrc,
    parse_lrc_timestamp, sort_lines, try_parse_lrc, LyricLine, LyricsStep, Stamp,
    StructuredLyricLine, StructuredLyrics,
};

/// The lyrics of a song whose server answers every request with `body`.
fn lyrics(body: &str) -> Vec<LyricLine> {
    let client = Client::new(Credentials {
        server_url: "http://127.0.0.1:4533".into(),
        username: "alice".into(),
        password: "hunter2".into(),
    });
    let structured = structured_lyrics_reply(&client.structured_lyrics("s1"), body);
    match after_structured(structured) {
        LyricsStep::Found(lines) => lines,
        LyricsStep::AskLegacy => {
            let call = client.plain_lyrics("Some Artist", "Some Title");
            after_legacy(plain_lyrics_reply(&call, body))
        }
    }
}

fn at(start_ms: i64, text: &str) -> LyricLine {
    LyricLine { start_ms: Some(start_ms), text: text.into() }
}

#[test]
fn lrc_parses_single_timestamp_lines() {
    let lines = parse_lrc("[00:12.50]Hello there\n[00:15.00]General Kenobi");
    assert_eq!(
        lines,
        vec![
            LyricLine { start_ms: Some(12_500), text: "Hello there".into() },
            LyricLine { start_ms: Some(15_000), text: "General Kenobi".into() },
        ]
    );
}

#[test]
fn lrc_expands_multiple_stacked_timestamps_on_one_line() {
    let lines = parse_lrc("[00:10.00][00:40.00]La la la");
    assert_eq!(
        lines,
        vec![
            LyricLine { start_ms: Some(10_000), text: "La la la".into() },
            LyricLine { start_ms: Some(40_000), text: "La la la".into() },
        ]
    );
}

#[test]
fn lrc_applies_the_offset_tag() {
    let lines = parse_lrc("[offset:500]\n[00:10.00]Delayed line");
    assert_eq!(lines, vec![LyricLine { start_ms: Some(10_500), text: "Delayed line".into() }]);
}

#[test]
fn lrc_three_digit_fraction_is_milliseconds_not_centiseconds() {
    let lines = parse_lrc("[00:01.234]Fast line");
    assert_eq!(lines[0].start_ms, Some(1_234));
}

#[test]
fn lrc_ignores_lines_with_no_timestamp() {
    let lines = parse_lrc("[ar:Some Artist]\n[00:05.00]Real line");
    assert_eq!(lines.len(), 1);
    assert_eq!(lines[0].text, "Real line");
}

#[test]
fn plain_text_with_no_lrc_timestamps_parses_as_empty() {
    assert!(parse_lrc("Just some plain lyrics\nwith no timing at all").is_empty());
}

#[test]
fn lrc_lines_are_sung_in_order() {
    let lines = parse_lrc("[00:40.00]last\n[00:10.00][00:20.00]first and second");
    assert_eq!(
        lines,
        vec![at(10_000, "first and second"), at(20_000, "first and second"), at(40_000, "last")]
    );
}

#[test]
fn lrc_times_that_no_clock_holds_are_refused() {
    assert_eq!(try_parse_lrc("[00:01.00]a"), Some(vec![at(1_000, "a")]));
    assert_eq!(try_parse_lrc("[9223372036854775807:00.00]too late"), None);
}

#[test]
fn a_timestamp_is_minutes_seconds_and_a_fraction() {
    let chars = |s: &str| s.chars().collect::<Vec<char>>();
    let stamped = chars("01:02.5]rest");
    let rest = chars("rest");
    match parse_lrc_timestamp(&chars("[01:02.50]rest")) {
        Stamp::At(ms, left) => {
            assert_eq!(ms, 62_500);
            assert_eq!(left, rest.as_slice());
        }
        other => panic!("got {other:?}"),
    }
    assert_eq!(parse_lrc_timestamp(&stamped), Stamp::Absent);
    assert_eq!(parse_lrc_timestamp(&chars("[ar:x]")), Stamp::Absent);
    assert_eq!(parse_lrc_timestamp(&chars("")), Stamp::Absent);
}

#[test]
fn sorting_puts_untimed_lines_last_and_keeps_ties_in_place() {
    let untimed = || LyricLine { start_ms: None, text: "untimed".into() };
    let sorted = sort_lines(vec![at(2, "b"), at(1, "x"), untimed(), at(1, "y")]);
    assert_eq!(sorted, vec![at(1, "x"), at(1, "y"), at(2, "b"), untimed()]);
}

#[test]
fn lyrics_prefers_structured_synced_over_legacy() {
    let lines = lyrics(
        r#"{"subsonic-response":{"status":"ok","lyricsList":{"structuredLyrics":[
                {"synced":true,"offset":100,"line":[{"start":1000,"value":"Synced line"}]}
            ]}}}"#,
    );
    assert_eq!(lines, vec![LyricLine { start_ms: Some(1100), text: "Synced line".into() }]);
}

#[test]
fn lyrics_falls_back_to_legacy_when_structured_is_empty() {
    let lines = lyrics(
        r#"{"subsonic-response":{"status":"ok","lyrics":{"value":"Plain unsynced lyrics"}}}"#,
    );
    assert_eq!(lines, vec![LyricLine { start_ms: None, text: "Plain unsynced lyrics".into() }]);
}

#[test]
fn lyrics_is_empty_not_an_error_when_nothing_is_found() {
    let lines = lyrics(
        r#"{"subsonic-response":{"status":"failed","error":{"code":70,"message":"not found"}}}"#,
    );
    assert!(lines.is_empty());
}

#[test]
fn the_synced_version_is_taken_where_there_is_one() {
    let version = |synced: bool, start: Option<i64>, value: &str| StructuredLyrics {
        synced,
        offset: None,
        line: vec![StructuredLyricLine { start, value: value.to_string() }],
    };
    let both = vec![version(false, None, "plain"), version(true, Some(5), "synced")];
    assert_eq!(lyrics_by_song_id(&both), Some(vec![at(5, "synced")]));
    let plain = vec![version(false, None, "plain")];
    assert_eq!(
        lyrics_by_song_id(&plain),
        Some(vec![LyricLine { start_ms: None, text: "plain".into() }])
    );
}

#[test]
fn legacy_lyrics_are_read_as_lrc_where_they_are() {
    assert_eq!(lyrics_legacy("[00:01.00]a".to_string()), Some(vec![at(1_000, "a")]));
    assert_eq!(
        lyrics_legacy("one\ntwo".to_string()),
        Some(vec![LyricLine { start_ms: None, text: "one\ntwo".into() }])
    );
    assert_eq!(lyrics_legacy(" \n".to_string()), Some(vec![]));
}
