//! Serialization and typed projections.

use mpd_protocol::convert::{millis_to_string, str_eq, u64_to_string};
use mpd_protocol::parse::{parse_flag, parse_millis, parse_u64};
use mpd_protocol::status::parse_state;
use mpd_protocol::{IntoParameter, Song, State, Status, TimePos};

fn pairs(items: &[(&str, &str)]) -> Vec<(String, String)> {
    items.iter().map(|(k, v)| (k.to_string(), v.to_string())).collect()
}

#[test]
fn decimal_rendering() {
    assert_eq!(u64_to_string(0), "0");
    assert_eq!(u64_to_string(7), "7");
    assert_eq!(u64_to_string(1234), "1234");
    assert_eq!(u64_to_string(u64::MAX), "18446744073709551615");
}

#[test]
fn time_rendering() {
    assert_eq!(millis_to_string(0), "0.000");
    assert_eq!(millis_to_string(12500), "12.500");
    assert_eq!(millis_to_string(999), "0.999");
    assert_eq!(millis_to_string(60001), "60.001");
}

#[test]
fn parameters() {
    assert_eq!("play".into_parameter(), "play");
    assert_eq!(80u64.into_parameter(), "80");
    assert_eq!(true.into_parameter(), "1");
    assert_eq!(false.into_parameter(), "0");
    assert_eq!(("setvol", 80u64).into_parameter(), "setvol 80");
    assert_eq!(("seekcur", TimePos { millis: 500 }).into_parameter(), "seekcur 0.500");
    assert_eq!(("a", "b", 3u64).into_parameter(), "a b 3");
}

#[test]
fn string_equality() {
    assert!(str_eq("volume", "volume"));
    assert!(!str_eq("volume", "volumes"));
    assert!(!str_eq("volume", "repeat"));
    assert!(str_eq("", ""));
    assert!(str_eq("caf\u{e9}", "caf\u{e9}"));
    assert!(!str_eq("caf\u{e9}", "cafe"));
}

#[test]
fn unsigned_parsing() {
    assert_eq!(parse_u64("0"), Some(0));
    assert_eq!(parse_u64("80"), Some(80));
    assert_eq!(parse_u64("007"), Some(7));
    assert_eq!(parse_u64("18446744073709551615"), Some(u64::MAX));
    assert_eq!(parse_u64("18446744073709551616"), None);
    assert_eq!(parse_u64(""), None);
    assert_eq!(parse_u64("8a"), None);
    assert_eq!(parse_u64("-3"), None);
}

#[test]
fn flag_parsing() {
    assert_eq!(parse_flag("1"), Some(true));
    assert_eq!(parse_flag("0"), Some(false));
    assert_eq!(parse_flag("2"), Some(false));
    assert_eq!(parse_flag("x"), None);
}

#[test]
fn seconds_parsing() {
    assert_eq!(parse_millis("123.456"), Some(TimePos { millis: 123456 }));
    assert_eq!(parse_millis("12.5"), Some(TimePos { millis: 12500 }));
    assert_eq!(parse_millis("12.50"), Some(TimePos { millis: 12500 }));
    assert_eq!(parse_millis("42"), Some(TimePos { millis: 42000 }));
    assert_eq!(parse_millis("0.001"), Some(TimePos { millis: 1 }));
    assert_eq!(parse_millis("1.2345"), None);
    assert_eq!(parse_millis("1."), None);
    assert_eq!(parse_millis(".5"), None);
    assert_eq!(parse_millis("1.2.3"), None);
    assert_eq!(parse_millis("abc"), None);
}

#[test]
fn state_parsing() {
    assert_eq!(parse_state("play"), Some(State::Play));
    assert_eq!(parse_state("pause"), Some(State::Pause));
    assert_eq!(parse_state("stop"), Some(State::Stop));
    assert_eq!(parse_state("playing"), None);
    assert_eq!("play".parse::<State>(), Ok(State::Play));
    assert_eq!("x".parse::<State>(), Err(()));
}

#[test]
fn status_projection() {
    let response = pairs(&[
        ("volume", "80"),
        ("repeat", "0"),
        ("random", "1"),
        ("single", "0"),
        ("consume", "0"),
        ("playlist", "2"),
        ("playlistlength", "14"),
        ("state", "play"),
        ("song", "3"),
        ("songid", "17"),
        ("elapsed", "123.456"),
        ("duration", "200.000"),
        ("bitrate", "320"),
        ("unknown-key", "ignored"),
    ]);
    let status = Status::from_response(&response);
    assert_eq!(status.volume, Some(80));
    assert_eq!(status.repeat, Some(false));
    assert_eq!(status.random, Some(true));
    assert_eq!(status.single, Some(false));
    assert_eq!(status.consume, Some(false));
    assert_eq!(status.playlist, Some(2));
    assert_eq!(status.playlistlength, Some(14));
    assert_eq!(status.state, Some(State::Play));
    assert_eq!(status.playing, Some(true));
    assert_eq!(status.paused, Some(false));
    assert_eq!(status.stopped, Some(false));
    assert_eq!(status.song, Some(3));
    assert_eq!(status.songid, Some(17));
    assert_eq!(status.nextsong, None);
    assert_eq!(status.nextsongid, None);
    assert_eq!(status.elapsed, Some(TimePos { millis: 123456 }));
    assert_eq!(status.duration, Some(TimePos { millis: 200000 }));
    assert_eq!(status.bitrate, Some(320));
    assert_eq!(status.xfade, None);
}

#[test]
fn status_last_occurrence_wins_and_bad_values_unset() {
    let response = pairs(&[("volume", "10"), ("volume", "90"), ("bitrate", "fast")]);
    let status = Status::from_response(&response);
    assert_eq!(status.volume, Some(90));
    assert_eq!(status.bitrate, None);
    assert_eq!(status.state, None);
    assert_eq!(status.playing, None);
}

#[test]
fn song_projection() {
    let response = pairs(&[
        ("file", "music/a.flac"),
        ("Artist", "Someone"),
        ("Album", "Something"),
        ("Title", "A Song"),
        ("Disc", "1"),
        ("Track", "4"),
        ("duration", "200.000"),
        ("Pos", "3"),
        ("Id", "17"),
        ("Genre", "Jazz"),
        ("Composer", "Someone Else"),
    ]);
    let song = Song::from_response(&response).unwrap();
    assert_eq!(song.file.as_deref(), Some("music/a.flac"));
    assert_eq!(song.artist.as_deref(), Some("Someone"));
    assert_eq!(song.album.as_deref(), Some("Something"));
    assert_eq!(song.title.as_deref(), Some("A Song"));
    assert_eq!(song.disc, Some(1));
    assert_eq!(song.track, Some(4));
    assert_eq!(song.duration, Some(TimePos { millis: 200000 }));
    assert_eq!(song.pos, Some(3));
    assert_eq!(song.id, Some(17));
    assert_eq!(song.tags, pairs(&[("Genre", "Jazz"), ("Composer", "Someone Else")]));
}

#[test]
fn no_current_song_is_none() {
    let response = pairs(&[]);
    assert!(Song::from_response(&response).is_none());
}

#[test]
fn default_views_are_unset() {
    let status = Status::default();
    assert_eq!(status.volume, None);
    assert_eq!(status.state, None);
    let song = Song::default();
    assert!(song.file.is_none());
    assert!(song.tags.is_empty());
}
