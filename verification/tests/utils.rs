use listui::layout::{
    fit, loading_layout, message_layout, player_layout, playlists_layout, songs_layout, Fit,
};
use listui::loading::LoadingWidget;
use listui::text::{ascii_lower_chars, chars_of, contains_chars, to_ascii_lower_char};
use listui::utils::{
    local_tracks, parse_playlist_url, progress_label, push_decimal, time_str, ProbingError,
};

#[test]
fn time_str_shows_minutes_and_seconds() {
    assert_eq!(time_str(0, 0, false), "00:00 \u{25b6} 00:00");
    assert_eq!(time_str(65, 200, false), "01:05 \u{25b6} 03:20");
    assert_eq!(time_str(9, 599, false), "00:09 \u{25b6} 09:59");
    assert_eq!(time_str(600, 3599, false), "10:00 \u{25b6} 59:59");
}

#[test]
fn time_str_shows_the_pause_sign() {
    assert_eq!(time_str(65, 200, true), "01:05 \u{25ae}\u{25ae} 03:20");
}

#[test]
fn time_str_shows_hours_when_the_track_has_any() {
    assert_eq!(time_str(3661, 7322, true), "01:01:01 \u{25ae}\u{25ae} 02:02:02");
    assert_eq!(time_str(5, 3600, false), "00:00:05 \u{25b6} 01:00:00");
    assert_eq!(time_str(0, 360000, false), "00:00:00 \u{25b6} 100:00:00");
    assert_eq!(time_str(i32::MAX, i32::MAX, false), "596523:14:07 \u{25b6} 596523:14:07");
}

#[test]
fn time_str_leaves_hours_of_the_position_out_of_a_short_track() {
    assert_eq!(time_str(3700, 200, false), "01:40 \u{25b6} 03:20");
}

#[test]
fn time_str_of_negative_numbers_keeps_the_signs() {
    assert_eq!(time_str(-5, 10, false), "00:-5 \u{25b6} 00:10");
    assert_eq!(time_str(-65, -75, false), "-1:-5 \u{25b6} -1:-15");
    assert_eq!(time_str(0, -3600, false), "00:00:00 \u{25b6} -1:00:00");
    assert_eq!(time_str(0, i32::MIN, true), "00:00:00 \u{25ae}\u{25ae} -596523:-14:-8");
}

#[test]
fn push_decimal_appends_the_digits() {
    let mut s = String::from("n=");
    push_decimal(&mut s, 0);
    push_decimal(&mut s, 7);
    push_decimal(&mut s, 10);
    push_decimal(&mut s, 4294967295);
    assert_eq!(s, "n=07104294967295");
}

#[test]
fn progress_label_tells_downloads_from_silence() {
    assert_eq!(progress_label(None, 0, false, true), "Downloading...");
    assert_eq!(progress_label(None, 100, false, false), "");
    assert_eq!(progress_label(Some(5), 0, false, false), "");
    assert_eq!(progress_label(Some(5), 65, false, false), "00:05 \u{25b6} 01:05");
    assert_eq!(progress_label(Some(5), 65, true, true), "00:05 \u{25ae}\u{25ae} 01:05");
    assert_eq!(progress_label(Some(5), 1 << 32, false, false), "");
    assert_eq!(progress_label(Some((1 << 32) + 7), 60, false, false), "00:07 \u{25b6} 01:00");
    assert_eq!(
        progress_label(Some(u64::MAX), (1 << 31) + 60, false, false),
        "00:00:-1 \u{25b6} -596523:-13:-8"
    );
}

#[test]
fn probing_error_names_the_tools() {
    assert_eq!(ProbingError {}.message(), "Please install ffmpeg and yt-dlp fist.");
}

#[test]
fn playlist_addresses_are_recognised() {
    assert_eq!(
        parse_playlist_url("https://www.youtube.com/playlist?list=PLabc123"),
        Some("PLabc123".to_string())
    );
    assert_eq!(
        parse_playlist_url("https://youtube.com/watch?v=xyz&list=PLabc&index=2"),
        Some("PLabc".to_string())
    );
    assert_eq!(parse_playlist_url("http://youtu.be/x?list=PLz"), Some("PLz".to_string()));
}

#[test]
fn other_texts_are_no_playlist_addresses() {
    assert_eq!(parse_playlist_url("/home/user/music"), None);
    assert_eq!(parse_playlist_url(""), None);
    assert_eq!(parse_playlist_url("https://www.youtube.com/playlist?list=OLAK5"), None);
    assert_eq!(parse_playlist_url("https://example.com/playlist?list=PLabc"), None);
    assert_eq!(parse_playlist_url("see https://www.youtube.com/playlist?list=PLabc"), None);
    assert_eq!(parse_playlist_url("https://www.youtube.com/playlist?list=PL"), None);
}

#[test]
fn local_tracks_lists_the_audio_files() {
    let names: Vec<String> =
        ["b.mp3", "notes.txt", "A song.mp3", ".mp3", "x.MP3", "mp3", "c.mp3.bak", "d.tar.mp3"]
            .iter()
            .map(|s| s.to_string())
            .collect();
    let tracks = local_tracks(&names);
    let got: Vec<(i32, &str)> = tracks.iter().map(|t| (t.id, t.title.as_str())).collect();
    assert_eq!(got, vec![(0, "b"), (2, "A song"), (3, ".mp3"), (7, "d.tar")]);
    assert!(tracks.iter().all(|t| t.yt_id.is_none() && t.playlist_id.is_none()));
    assert!(local_tracks(&Vec::new()).is_empty());
}

#[test]
fn substring_search_finds_runs() {
    let hay = chars_of("hello world");
    assert!(contains_chars(&hay, &chars_of("")));
    assert!(contains_chars(&hay, &chars_of("hello")));
    assert!(contains_chars(&hay, &chars_of("o w")));
    assert!(contains_chars(&hay, &chars_of("world")));
    assert!(contains_chars(&hay, &chars_of("hello world")));
    assert!(!contains_chars(&hay, &chars_of("hello world!")));
    assert!(!contains_chars(&hay, &chars_of("wold")));
    assert!(contains_chars(&chars_of(""), &chars_of("")));
    assert!(!contains_chars(&chars_of(""), &chars_of("a")));
    assert!(contains_chars(&chars_of("aab"), &chars_of("ab")));
}

#[test]
fn ascii_lowering_leaves_other_characters_alone() {
    assert_eq!(to_ascii_lower_char('A'), 'a');
    assert_eq!(to_ascii_lower_char('Z'), 'z');
    assert_eq!(to_ascii_lower_char('a'), 'a');
    assert_eq!(to_ascii_lower_char('@'), '@');
    assert_eq!(to_ascii_lower_char('['), '[');
    assert_eq!(to_ascii_lower_char('\u{c9}'), '\u{c9}');
    let lowered: String = ascii_lower_chars("HeLLo \u{c9}1").into_iter().collect();
    assert_eq!(lowered, "hello \u{c9}1");
    assert_eq!(chars_of("a\u{2928}b"), vec!['a', '\u{2928}', 'b']);
}

#[test]
fn loading_widget_bounces() {
    let mut w = LoadingWidget::new("Fetching playlist...");
    assert_eq!(w.label(), "Fetching playlist...");
    let offsets: Vec<u16> = (0..10).map(|_| w.advance()).collect();
    assert_eq!(offsets, vec![0, 1, 2, 3, 4, 3, 2, 1, 0, 1]);
    w.change_label("Fetched 50 videos.".to_string());
    assert_eq!(w.label(), "Fetched 50 videos.");
    assert_eq!(w.advance(), 2);
}

#[test]
fn small_terminals_are_not_drawn_in() {
    assert_eq!(fit(24, 5), Fit::TooNarrow);
    assert_eq!(fit(24, 50), Fit::TooNarrow);
    assert_eq!(fit(25, 9), Fit::TooShort);
    assert_eq!(fit(25, 10), Fit::Fits);
    assert_eq!(fit(200, 60), Fit::Fits);
}

#[test]
fn layouts_divide_the_rows() {
    assert_eq!(playlists_layout(80, 19), None);
    assert_eq!(playlists_layout(49, 40), None);
    assert_eq!(playlists_layout(50, 20), Some((10, 10)));
    assert_eq!(playlists_layout(80, 40), Some((10, 30)));
    assert_eq!(songs_layout(30), (25, 5));
    assert_eq!(songs_layout(3), (0, 5));
    assert_eq!(player_layout(5), (2, 3));
    assert_eq!(player_layout(1), (2, 0));
    assert_eq!(message_layout(19), None);
    assert_eq!(message_layout(20), Some((4, 16)));
    assert_eq!(loading_layout(19, 2), None);
    assert_eq!(loading_layout(20, 0), Some((1, 19)));
    assert_eq!(loading_layout(30, 4), Some((5, 25)));
}
