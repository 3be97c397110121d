//! Messages to the control loop, the playback clock shown under a track and
//! the recognition of playlist addresses.

use regex::Regex;
use vstd::prelude::*;
use vstd::string::*;
use crate::api::ApiError;
use crate::models::{opt_text, NewPlaylist, NewVideo, Track, TrackView};
use crate::text::chars_of;

verus! {

/// What background work tells the control loop.
#[derive(Debug)]
pub enum Message {
    /// The current track is over, or could not be played: move on.
    SongFinished,
    /// A playlist was fetched for the first time.
    NewPlaylist(Result<(NewPlaylist, Vec<NewVideo>), ApiError>),
    /// The tracks of the stored playlist with this identifier were fetched
    /// again.
    PlaylistUpdate(Result<(i32, Vec<NewVideo>), ApiError>),
    DownloadProgress(String),
}

/// The external tools that downloads need are not installed.
#[derive(Debug)]
pub struct ProbingError {}

impl ProbingError {
    /// What the user is told.
    pub fn message(&self) -> (s: String)
        ensures
            s@ == "Please install ffmpeg and yt-dlp fist."@,
    {
        String::from_str("Please install ffmpeg and yt-dlp fist.")
    }
}

/// Quotient of a division that rounds towards zero, for a positive divisor.
pub open spec fn trunc_div(a: int, b: int) -> int {
    if a >= 0 {
        a / b
    } else {
        -((-a) / b)
    }
}

/// Remainder of a division that rounds towards zero, for a positive divisor.
pub open spec fn trunc_rem(a: int, b: int) -> int {
    if a >= 0 {
        a % b
    } else {
        -((-a) % b)
    }
}

/// The character of a decimal digit.
pub open spec fn digit_char(d: int) -> char {
    (('0' as u8) + d) as char
}

/// A natural number in decimal digits, without leading zeros.
pub open spec fn decimal(n: nat) -> Seq<char>
    decreases n,
{
    if n < 10 {
        seq![digit_char(n as int)]
    } else {
        decimal(n / 10).push(digit_char((n % 10) as int))
    }
}

/// A number in at least two characters: a single digit gets a leading zero,
/// a negative number its sign.
pub open spec fn padded(n: int) -> Seq<char> {
    if n < 0 {
        seq!['-'] + decimal((-n) as nat)
    } else if n < 10 {
        seq!['0'] + decimal(n as nat)
    } else {
        decimal(n as nat)
    }
}

/// A number of seconds as minutes and seconds, or, `with_hours`, as hours,
/// minutes and seconds, each part padded and the parts joined by colons.
/// Without hours, whole hours are left out.
pub open spec fn clock(total: int, with_hours: bool) -> Seq<char> {
    let seconds = trunc_rem(total, 60);
    let minutes = trunc_rem(trunc_div(total, 60), 60);
    let hours = trunc_div(trunc_div(total, 60), 60);
    if with_hours {
        padded(hours) + seq![':'] + padded(minutes) + seq![':'] + padded(seconds)
    } else {
        padded(minutes) + seq![':'] + padded(seconds)
    }
}

/// The sign between the two clocks: two bars when paused, a triangle when
/// playing, with a blank on either side.
pub open spec fn play_sign(paused: bool) -> Seq<char> {
    if paused {
        seq![' ', '\u{25ae}', '\u{25ae}', ' ']
    } else {
        seq![' ', '\u{25b6}', ' ']
    }
}

/// Position `s1` and length `s2` of a track, both in seconds, as two
/// clocks with the play sign between them. Hours are shown in both clocks
/// when the length has any.
pub open spec fn time_text(s1: int, s2: int, paused: bool) -> Seq<char> {
    let with_hours = trunc_div(trunc_div(s2, 60), 60) != 0;
    clock(s1, with_hours) + play_sign(paused) + clock(s2, with_hours)
}

/// Appends `n` in decimal digits.
pub fn push_decimal(out: &mut String, n: u32)
    ensures
        final(out)@ == old(out)@ + decimal(n as nat),
    decreases n,
{
    if n < 10 {
        out.push((('0' as u8) + (n as u8)) as char);
        assert(out@ =~= old(out)@ + decimal(n as nat));
    } else {
        push_decimal(out, n / 10);
        out.push((('0' as u8) + ((n % 10) as u8)) as char);
        assert(out@ =~= old(out)@ + decimal(n as nat));
    }
}

/// Appends `n` in at least two characters.
fn push_padded(out: &mut String, n: i32)
    ensures
        final(out)@ == old(out)@ + padded(n as int),
{
    if n < 0 {
        out.push('-');
        push_decimal(out, (-(n as i64)) as u32);
    } else {
        if n < 10 {
            out.push('0');
        }
        push_decimal(out, n as u32);
    }
    assert(out@ =~= old(out)@ + padded(n as int));
}

/// Appends the clock of `total` seconds.
fn push_clock(out: &mut String, total: i32, with_hours: bool)
    ensures
        final(out)@ == old(out)@ + clock(total as int, with_hours),
{
    let seconds = total % 60;
    let minutes = (total / 60) % 60;
    let hours = (total / 60) / 60;
    if with_hours {
        push_padded(out, hours);
        out.push(':');
    }
    push_padded(out, minutes);
    out.push(':');
    push_padded(out, seconds);
    assert(out@ =~= old(out)@ + clock(total as int, with_hours));
}

/// The line shown in the progress bar: position and length of the track.
pub fn time_str(s1: i32, s2: i32, paused: bool) -> (text: String)
    ensures
        text@ == time_text(s1 as int, s2 as int, paused),
{
    let with_hours = (s2 / 60) / 60 != 0;
    let mut text = String::new();
    push_clock(&mut text, s1, with_hours);
    text.push(' ');
    if paused {
        text.push('\u{25ae}');
        text.push('\u{25ae}');
    } else {
        text.push('\u{25b6}');
    }
    text.push(' ');
    push_clock(&mut text, s2, with_hours);
    assert(text@ =~= time_text(s1 as int, s2 as int, paused));
    text
}

/// What the first capture group of the regular expression `pattern` holds
/// in the leftmost match in `text`, as the regex crate finds it: `None` when
/// the pattern is no regular expression, when nothing matches, or when the
/// group took no part in the match.
pub uninterp spec fn first_capture(pattern: Seq<char>, text: Seq<char>) -> Option<Seq<char>>;

/// `Regex::new`, `Regex::captures` and `Captures::get` of the regex crate:
/// compiles `pattern`, searches `text` and copies out what group 1 matched.
/// The answer depends on the two texts alone.
#[verifier::external_body]
fn capture_first(pattern: &str, text: &str) -> (r: Option<String>)
    ensures
        opt_text(r) == first_capture(pattern@, text@),
{
    let re = Regex::new(pattern).ok()?;
    let found = re.captures(text)?;
    found.get(1).map(|m| m.as_str().to_string())
}

/// The shape of the address of a playlist: a page of the video site, on
/// either of its hosts, with a `list` parameter whose value starts with
/// `PL`; the value, up to the next `&` or the end, is group 1.
pub open spec fn playlist_url_pattern() -> Seq<char> {
    r"^https?://(?:w{3}.)?(?:(?:youtube\.com)|(?:youtu\.be))/.+\?(?:.+&)*list=(PL.+?)(?:&|$)"@
}

/// The identifier of the playlist that `url` is the address of, if it is
/// one.
pub fn parse_playlist_url(url: &str) -> (id: Option<String>)
    ensures
        opt_text(id) == first_capture(playlist_url_pattern(), url@),
{
    capture_first(
        r"^https?://(?:w{3}.)?(?:(?:youtube\.com)|(?:youtu\.be))/.+\?(?:.+&)*list=(PL.+?)(?:&|$)",
        url,
    )
}

/// A number of seconds cut to its low 32 bits, read as a signed number.
pub open spec fn wrapped_secs(secs: int) -> int {
    let low = secs % 0x1_0000_0000;
    if low >= 0x8000_0000 {
        low - 0x1_0000_0000
    } else {
        low
    }
}

/// What stands in the progress bar: nothing known of the position means
/// that nothing plays, which reads as a download if one is awaited; a
/// track of unknown length shows nothing; otherwise the clocks, of
/// position and length cut to 32 bits.
pub open spec fn progress_text(
    progress: Option<u64>,
    duration: u64,
    paused: bool,
    downloading: bool,
) -> Seq<char> {
    match progress {
        None => if downloading {
            "Downloading..."@
        } else {
            Seq::empty()
        },
        Some(p) => if wrapped_secs(duration as int) != 0 {
            time_text(wrapped_secs(p as int), wrapped_secs(duration as int), paused)
        } else {
            Seq::empty()
        },
    }
}

/// The low 32 bits of a number of seconds, read as a signed number.
fn wrap_secs(secs: u64) -> (r: i32)
    ensures
        r == wrapped_secs(secs as int),
{
    let low: u64 = secs % 0x1_0000_0000;
    if low >= 0x8000_0000 {
        (low as i64 - 0x1_0000_0000) as i32
    } else {
        low as i32
    }
}

/// The label of the progress bar, see `progress_text`.
pub fn progress_label(progress: Option<u64>, duration: u64, paused: bool, downloading: bool) -> (label:
    String)
    ensures
        label@ == progress_text(progress, duration, paused, downloading),
{
    match progress {
        None => {
            if downloading {
                String::from_str("Downloading...")
            } else {
                String::new()
            }
        },
        Some(p) => {
            let length = wrap_secs(duration);
            if length != 0 {
                time_str(wrap_secs(p), length, paused)
            } else {
                String::new()
            }
        },
    }
}

/// Ending by which audio files are told.
pub open spec fn audio_ending() -> Seq<char> {
    seq!['.', 'm', 'p', '3']
}

/// Whether a file of this name is listed as a track.
pub open spec fn is_audio_file(name: Seq<char>) -> bool {
    name.len() >= 4 && name.subrange(name.len() - 4, name.len() as int) == audio_ending()
}

/// The title of the track in the file `name`: the name without the
/// ending, or all of it where nothing stands before the ending.
pub open spec fn title_of_file(name: Seq<char>) -> Seq<char> {
    if name.len() > 4 {
        name.take(name.len() - 4)
    } else {
        name
    }
}

/// The track that the file `name`, entry number `ind` of its directory,
/// stands for.
pub open spec fn track_of_file(name: Seq<char>, ind: int) -> TrackView {
    TrackView { id: ind, title: title_of_file(name), yt_id: None, playlist_id: None }
}

/// Whether the characters end in the audio ending.
fn ends_in_audio(name: &Vec<char>) -> (r: bool)
    ensures
        r == is_audio_file(name@),
{
    let n = name.len();
    if n < 4 {
        return false;
    }
    let r = name[n - 4] == '.' && name[n - 3] == 'm' && name[n - 2] == 'p' && name[n - 1] == '3';
    proof {
        let tail = name@.subrange(n - 4, n as int);
        assert(tail[0] == name@[n - 4]);
        assert(tail[1] == name@[n - 3]);
        assert(tail[2] == name@[n - 2]);
        assert(tail[3] == name@[n - 1]);
        if r {
            assert(tail =~= audio_ending());
        }
    }
    r
}

/// The tracks of a local directory, given the names of its entries in the
/// order in which the directory lists them: one track for each audio file,
/// numbered by the entry's place. At most as many entries as a 32-bit
/// number counts are looked at.
pub fn local_tracks(file_names: &Vec<String>) -> (tracks: Vec<Track>)
    ensures
        tracks.len() <= file_names.len(),
        forall|k: int|
            0 <= k < tracks.len() ==> exists|i: int|
                0 <= i < file_names.len() && i <= i32::MAX && is_audio_file(file_names[i]@)
                    && (#[trigger] tracks[k])@ == track_of_file(file_names[i]@, i),
        forall|i: int|
            0 <= i < file_names.len() && i <= i32::MAX && is_audio_file(file_names[i]@)
                ==> exists|k: int|
                0 <= k < tracks.len() && (#[trigger] tracks[k])@ == track_of_file(
                    file_names[i]@,
                    i,
                ),
        forall|j: int, k: int| 0 <= j < k < tracks.len() ==> tracks[j].id < tracks[k].id,
{
    let mut tracks: Vec<Track> = Vec::new();
    let mut i: usize = 0;
    while i < file_names.len() && i <= i32::MAX as usize
        invariant
            i <= file_names.len(),
            i <= i32::MAX + 1,
            tracks.len() <= i,
            forall|k: int| 0 <= k < tracks.len() ==> (#[trigger] tracks[k]).id < i,
            forall|k: int|
                0 <= k < tracks.len() ==> exists|n: int|
                    0 <= n < i && is_audio_file(file_names[n]@) && (#[trigger] tracks[k])@
                        == track_of_file(file_names[n]@, n),
            forall|n: int|
                0 <= n < i && is_audio_file(file_names[n]@) ==> exists|k: int|
                    0 <= k < tracks.len() && (#[trigger] tracks[k])@ == track_of_file(
                        file_names[n]@,
                        n,
                    ),
            forall|j: int, k: int| 0 <= j < k < tracks.len() ==> tracks[j].id < tracks[k].id,
        decreases file_names.len() - i,
    {
        let name = chars_of(file_names[i].as_str());
        if ends_in_audio(&name) {
            let keep: usize = if name.len() > 4 {
                name.len() - 4
            } else {
                name.len()
            };
            let mut title = String::new();
            let mut j: usize = 0;
            while j < keep
                invariant
                    j <= keep,
                    keep <= name.len(),
                    title@ == name@.take(j as int),
                decreases keep - j,
            {
                title.push(name[j]);
                assert(name@.take(j + 1) =~= name@.take(j as int).push(name@[j as int]));
                j += 1;
            }
            let ghost before = tracks@;
            let track = Track { id: i as i32, title, yt_id: None, playlist_id: None };
            tracks.push(track);
            proof {
                assert(name@.take(name.len() as int) =~= name@);
                assert(track.title@ =~= title_of_file(name@));
                assert(track@ == track_of_file(file_names[i as int]@, i as int));
                assert(forall|k: int| 0 <= k < before.len() ==> tracks[k] == before[k]);
                assert(tracks[before.len() as int] == track);
                assert forall|n: int|
                    0 <= n < i + 1 && is_audio_file(file_names[n]@) implies exists|k: int|
                    0 <= k < tracks.len() && (#[trigger] tracks[k])@ == track_of_file(
                        file_names[n]@,
                        n,
                    ) by {
                    if n < i {
                        let k = choose|k: int|
                            0 <= k < before.len() && (#[trigger] before[k])@ == track_of_file(
                                file_names[n]@,
                                n,
                            );
                        assert(tracks[k]@ == track_of_file(file_names[n]@, n));
                    } else {
                        assert(tracks[before.len() as int]@ == track_of_file(file_names[n]@, n));
                    }
                }
            }
        }
        i += 1;
    }
    tracks
}

} // verus!
