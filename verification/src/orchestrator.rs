//! The playback orchestrator: it decides what to do when the user picks a
//! track, when a download reports back and when the end-of-track timer
//! fires. The caller drives the audio sink and the timers as told.

use vstd::prelude::*;
use vstd::string::*;
use crate::downloader::{DownloadResult, Downloader};
use crate::models::{clone_opt_string, Track, TrackView};
use crate::player::{
    decrease_volume, forward, forward_position, increase_volume, lowered_volume,
    percentage_position, raised_volume, remaining_secs, rewind, rewind_position,
    seek_percentage, timer_delay, MAX_VOLUME,
};
use crate::text::chars_of;

verus! {

/// What the orchestrator is doing.
#[derive(Debug)]
pub enum PlaybackState {
    /// Nothing plays and nothing is waited for.
    Idle,
    /// The current track's file is being downloaded from this source.
    AwaitingDownload(String),
    Playing(Track),
    Paused(Track),
}

/// A playback state as contracts see it.
pub enum PlaybackView {
    Idle,
    AwaitingDownload(Seq<char>),
    Playing(TrackView),
    Paused(TrackView),
}

impl View for PlaybackState {
    type V = PlaybackView;

    open spec fn view(&self) -> PlaybackView {
        match self {
            PlaybackState::Idle => PlaybackView::Idle,
            PlaybackState::AwaitingDownload(id) => PlaybackView::AwaitingDownload(id@),
            PlaybackState::Playing(t) => PlaybackView::Playing(t@),
            PlaybackState::Paused(t) => PlaybackView::Paused(t@),
        }
    }
}

/// What to do with the end-of-track timer.
#[derive(Clone, Copy, Debug, PartialEq, Eq, Structural)]
pub enum TimerCommand {
    /// Leave things as they are: no timer is live.
    Leave,
    /// Abort the timer armed before, if any, and arm timer `timer` to fire
    /// after `delay_secs` seconds.
    Arm { timer: u64, delay_secs: u64 },
}

/// Answer to the selection of a track. Every answer but `Restart` and
/// `Keep` means: stop the sink and abort the live timer first.
#[derive(Debug)]
pub enum SelectCommand {
    /// The track is the one playing or paused: seek to its start.
    Restart,
    /// The track is the one being downloaded: keep waiting.
    Keep,
    /// Play the file of this name from the playlist's directory, then
    /// report how that went.
    Play { file_name: String },
    /// Request the download of `source_id` to the file of this name.
    Download { source_id: String, file_name: String },
    /// No file and nothing to download it from: move on to the next track.
    Skip,
}

/// Answer to a download result.
#[derive(Debug)]
pub enum ResultCommand {
    /// The result is stale: nothing to do.
    Discard,
    /// Play the downloaded file, then report how that went.
    Play { file_path: String },
    /// The download failed: move on to the next track.
    Advance,
}

/// Answer to a pause toggle.
#[derive(Clone, Copy, Debug, PartialEq, Eq, Structural)]
pub enum PauseCommand {
    /// Nothing is playing or paused.
    Nothing,
    /// Pause the sink and abort the live timer.
    Pause,
    /// Resume the sink and arm timer `timer`.
    Resume { timer: u64, delay_secs: u64 },
}

/// Answer to a seek.
#[derive(Clone, Copy, Debug, PartialEq, Eq, Structural)]
pub enum SeekCommand {
    /// Nothing is playing or paused.
    Nothing,
    /// Seek the sink to `position` seconds and treat the timer as told.
    Seek { position: u64, timer: TimerCommand },
}

/// The kinds of answer to a selection.
pub enum SelectKind {
    Restart,
    Keep,
    Play,
    Download,
    Skip,
}

/// The kinds of answer to a download result.
pub enum ResultKind {
    Discard,
    Play,
    Advance,
}

/// Characters left out of the file name of a downloaded track.
pub open spec fn forbidden_in_file_name(c: char) -> bool {
    c == '/' || c == '\\' || c == ':' || c == '*' || c == '<' || c == '>' || c == '|' || c == '"'
}

/// Keeps the characters that may stand in a file name.
pub open spec fn allowed_in_file_name() -> spec_fn(char) -> bool {
    |c: char| !forbidden_in_file_name(c)
}

/// Ending of the audio files.
pub open spec fn file_ending() -> Seq<char> {
    seq!['.', 'm', 'p', '3']
}

/// The name of a track's audio file: its title and the ending. The title of
/// a track that can be downloaded is stripped of the characters that file
/// systems refuse; that of a local track is taken as it is.
pub open spec fn file_name_of(t: TrackView) -> Seq<char> {
    (if t.yt_id is Some {
        t.title.filter(allowed_in_file_name())
    } else {
        t.title
    }) + file_ending()
}

/// The timer identifier that follows `t`.
pub open spec fn next_timer_id(t: u64) -> u64 {
    if t == u64::MAX {
        0
    } else {
        (t + 1) as u64
    }
}

/// The orchestrator as contracts see it.
pub struct PlayerView {
    pub state: PlaybackView,
    /// The track that the user wants to hear.
    pub current: Option<TrackView>,
    /// The live end-of-track timer.
    pub timer: Option<u64>,
    /// The identifier that the next timer gets.
    pub next_timer: u64,
    /// Length in seconds of the track that the sink took up last.
    pub duration: u64,
    /// Volume in percent of the normal level.
    pub volume: int,
}

impl PlayerView {
    pub open spec fn wf(self) -> bool {
        &&& self.timer is Some ==> self.state is Playing
        &&& self.timer != Some(self.next_timer)
        &&& self.state matches PlaybackView::AwaitingDownload(id) ==> (self.current matches Some(t)
            && t.yt_id == Some(id))
        &&& self.state matches PlaybackView::Playing(t) ==> self.current == Some(t)
        &&& self.state matches PlaybackView::Paused(t) ==> self.current == Some(t)
        &&& 0 <= self.volume <= MAX_VOLUME
    }

    /// Nothing current, nothing live, normal volume.
    pub open spec fn initial() -> Self {
        PlayerView {
            state: PlaybackView::Idle,
            current: None,
            timer: None,
            next_timer: 0,
            duration: 0,
            volume: 100,
        }
    }

    /// With a fresh live timer in place of the old one.
    pub open spec fn armed(self) -> Self {
        PlayerView {
            timer: Some(self.next_timer),
            next_timer: next_timer_id(self.next_timer),
            ..self
        }
    }

    /// The command that goes with `armed` when the track stands at
    /// `progress` seconds: the timer covers the rest of the track.
    pub open spec fn arm_command(self, progress: u64) -> TimerCommand {
        TimerCommand::Arm {
            timer: self.next_timer,
            delay_secs: remaining_secs(self.duration as int, progress as int) as u64,
        }
    }

    /// Whether `track` is the current one and still in the works.
    pub open spec fn is_current(self, track: TrackView) -> bool {
        &&& !(self.state is Idle)
        &&& self.current matches Some(c)
        &&& c.id == track.id
    }

    pub open spec fn select_kind(self, track: TrackView, file_present: bool) -> SelectKind {
        if self.is_current(track) {
            if self.state is AwaitingDownload {
                SelectKind::Keep
            } else {
                SelectKind::Restart
            }
        } else if file_present {
            SelectKind::Play
        } else if track.yt_id is Some {
            SelectKind::Download
        } else {
            SelectKind::Skip
        }
    }

    /// The orchestrator after the user picked `track`.
    pub open spec fn play(self, track: TrackView, file_present: bool) -> Self {
        match self.select_kind(track, file_present) {
            SelectKind::Restart => self,
            SelectKind::Keep => self,
            SelectKind::Play => PlayerView {
                state: PlaybackView::Playing(track),
                current: Some(track),
                timer: None,
                ..self
            },
            SelectKind::Download => PlayerView {
                state: PlaybackView::AwaitingDownload(track.yt_id->0),
                current: Some(track),
                timer: None,
                ..self
            },
            SelectKind::Skip => PlayerView {
                state: PlaybackView::Idle,
                current: Some(track),
                timer: None,
                ..self
            },
        }
    }

    /// A result counts only while its source is the one waited for.
    pub open spec fn result_kind(self, id: Seq<char>, completed: bool) -> ResultKind {
        if self.state == PlaybackView::AwaitingDownload(id) {
            if completed {
                ResultKind::Play
            } else {
                ResultKind::Advance
            }
        } else {
            ResultKind::Discard
        }
    }

    /// The orchestrator after a download result for `id`.
    pub open spec fn download_finished(self, id: Seq<char>, completed: bool) -> Self {
        match self.result_kind(id, completed) {
            ResultKind::Discard => self,
            ResultKind::Play => PlayerView {
                state: PlaybackView::Playing(self.current->0),
                ..self
            },
            ResultKind::Advance => PlayerView { state: PlaybackView::Idle, ..self },
        }
    }

    /// The orchestrator after the sink took up the current track, which is
    /// `duration` seconds long.
    pub open spec fn playback_started(self, duration: u64) -> Self {
        if self.state is Playing {
            PlayerView { duration, ..self }.armed()
        } else {
            self
        }
    }

    /// The orchestrator after the sink could not take up the current track.
    pub open spec fn playback_failed(self) -> Self {
        if self.state is Playing {
            PlayerView { state: PlaybackView::Idle, timer: None, ..self }
        } else {
            self
        }
    }

    /// The orchestrator after timer `timer` fired.
    pub open spec fn timer_fired(self, timer: u64) -> Self {
        if self.timer == Some(timer) {
            PlayerView { state: PlaybackView::Idle, timer: None, ..self }
        } else {
            self
        }
    }

    pub open spec fn toggle_pause(self) -> Self {
        match self.state {
            PlaybackView::Playing(t) => PlayerView {
                state: PlaybackView::Paused(t),
                timer: None,
                ..self
            },
            PlaybackView::Paused(t) => PlayerView { state: PlaybackView::Playing(t), ..self }.armed(),
            _ => self,
        }
    }

    pub open spec fn pause_command(self, progress: u64) -> PauseCommand {
        match self.state {
            PlaybackView::Playing(_) => PauseCommand::Pause,
            PlaybackView::Paused(_) => PauseCommand::Resume {
                timer: self.next_timer,
                delay_secs: remaining_secs(self.duration as int, progress as int) as u64,
            },
            _ => PauseCommand::Nothing,
        }
    }

    /// The orchestrator after a seek: while playing the timer is replaced,
    /// otherwise nothing changes.
    pub open spec fn seeked(self) -> Self {
        if self.state is Playing {
            self.armed()
        } else {
            self
        }
    }

    /// The answer to a seek to `position`.
    pub open spec fn seek_command(self, position: u64) -> SeekCommand {
        match self.state {
            PlaybackView::Playing(_) => SeekCommand::Seek {
                position,
                timer: self.arm_command(position),
            },
            PlaybackView::Paused(_) => SeekCommand::Seek { position, timer: TimerCommand::Leave },
            _ => SeekCommand::Nothing,
        }
    }

    pub open spec fn stop(self) -> Self {
        PlayerView { state: PlaybackView::Idle, current: None, timer: None, ..self }
    }
}

/// Whether `cmd` is the answer of kind `kind` to the selection of `track`.
pub open spec fn select_command_is(cmd: SelectCommand, kind: SelectKind, track: TrackView) -> bool {
    match kind {
        SelectKind::Restart => cmd is Restart,
        SelectKind::Keep => cmd is Keep,
        SelectKind::Play => {
            &&& cmd matches SelectCommand::Play { file_name }
            &&& file_name@ == file_name_of(track)
        },
        SelectKind::Download => {
            &&& cmd matches SelectCommand::Download { source_id, file_name }
            &&& Some(source_id@) == track.yt_id
            &&& file_name@ == file_name_of(track)
        },
        SelectKind::Skip => cmd is Skip,
    }
}

/// Whether `cmd` is the answer of kind `kind` to `result`.
pub open spec fn result_command_is(cmd: ResultCommand, kind: ResultKind, result: DownloadResult) -> bool {
    match kind {
        ResultKind::Discard => cmd is Discard,
        ResultKind::Play => {
            &&& cmd matches ResultCommand::Play { file_path }
            &&& result matches DownloadResult::Completed { file_path: downloaded, .. }
            &&& file_path@ == downloaded@
        },
        ResultKind::Advance => cmd is Advance,
    }
}

/// A timer finishes the track at most once: after it has fired, the same
/// timer firing again changes nothing and finishes nothing.
pub proof fn lemma_timer_fires_once(v: PlayerView, timer: u64)
    requires
        v.wf(),
    ensures
        v.timer_fired(timer).wf(),
        v.timer_fired(timer).timer != Some(timer),
        v.timer_fired(timer).timer_fired(timer) == v.timer_fired(timer),
{
}

/// Arming replaces the live timer by one with another identifier, so that
/// the timer that was live before can no longer finish the track.
pub proof fn lemma_replaced_timer_is_stale(v: PlayerView, stale: u64)
    requires
        v.wf(),
        v.timer == Some(stale),
    ensures
        v.armed().wf(),
        v.armed().timer is Some,
        v.armed().timer != Some(stale),
        v.armed().timer_fired(stale) == v.armed(),
{
}

/// Whatever the user and the downloads do, a timer is live only while a
/// track plays, and there is never more than the one.
pub proof fn lemma_steps_keep_one_timer(
    v: PlayerView,
    track: TrackView,
    file_present: bool,
    id: Seq<char>,
    completed: bool,
    duration: u64,
    timer: u64,
)
    requires
        v.wf(),
    ensures
        v.play(track, file_present).wf(),
        v.download_finished(id, completed).wf(),
        v.playback_started(duration).wf(),
        v.playback_failed().wf(),
        v.timer_fired(timer).wf(),
        v.toggle_pause().wf(),
        v.seeked().wf(),
        v.stop().wf(),
{
}

/// Whether a character may stand in the file name of a downloaded track.
fn allowed_char(c: char) -> (r: bool)
    ensures
        r == !forbidden_in_file_name(c),
{
    !(c == '/' || c == '\\' || c == ':' || c == '*' || c == '<' || c == '>' || c == '|' || c
        == '"')
}

/// The name of the audio file of `track`, see `file_name_of`.
pub fn file_name_for(track: &Track) -> (name: String)
    ensures
        name@ == file_name_of(track@),
{
    let title = chars_of(track.title.as_str());
    let strip = track.yt_id.is_some();
    let mut name = String::new();
    let ghost keep = allowed_in_file_name();
    let mut i: usize = 0;
    while i < title.len()
        invariant
            i <= title.len(),
            keep == allowed_in_file_name(),
            strip ==> name@ == title@.take(i as int).filter(keep),
            !strip ==> name@ == title@.take(i as int),
        decreases title.len() - i,
    {
        let c = title[i];
        proof {
            assert(title@.take(i + 1) =~= title@.take(i as int).push(c));
            title@.take(i as int).lemma_filter_push(c, keep);
        }
        if !strip || allowed_char(c) {
            name.push(c);
        }
        i += 1;
    }
    proof {
        assert(title@.take(title.len() as int) =~= title@);
    }
    let ghost stem = name@;
    name.push('.');
    name.push('m');
    name.push('p');
    name.push('3');
    assert(name@ =~= stem + file_ending());
    name
}

/// The playback orchestrator. It owns the current track and the one live
/// end-of-track timer; the caller owns the sink and the timer handles.
pub struct PlayerWidget {
    state: PlaybackState,
    current_track: Option<Track>,
    live_timer: Option<u64>,
    next_timer: u64,
    duration: u64,
    volume: i32,
}

impl PlayerWidget {
    pub closed spec fn view(&self) -> PlayerView {
        PlayerView {
            state: self.state@,
            current: match self.current_track {
                Some(t) => Some(t@),
                None => None,
            },
            timer: self.live_timer,
            next_timer: self.next_timer,
            duration: self.duration,
            volume: self.volume as int,
        }
    }

    pub open spec fn wf(&self) -> bool {
        self@.wf()
    }

    pub fn new() -> (w: Self)
        ensures
            w.wf(),
            w@ == PlayerView::initial(),
    {
        PlayerWidget {
            state: PlaybackState::Idle,
            current_track: None,
            live_timer: None,
            next_timer: 0,
            duration: 0,
            volume: 100,
        }
    }

    /// Makes a fresh timer the live one and returns its identifier.
    fn arm(&mut self) -> (timer: u64)
        ensures
            final(self)@ == old(self)@.armed(),
            timer == old(self)@.next_timer,
    {
        let timer = self.next_timer;
        self.live_timer = Some(timer);
        self.next_timer = if timer == u64::MAX {
            0
        } else {
            timer + 1
        };
        timer
    }

    /// The user picked `track`; `file_present` says whether its audio file
    /// is in the playlist's directory.
    ///
    /// The track that is playing or paused is restarted, the one that is
    /// being downloaded is waited for. Any other becomes the current track:
    /// it is played from its file, or its download is awaited, or, with
    /// neither file nor source, skipped.
    pub fn play(&mut self, track: Track, file_present: bool) -> (cmd: SelectCommand)
        requires
            old(self).wf(),
        ensures
            final(self).wf(),
            final(self)@ == old(self)@.play(track@, file_present),
            select_command_is(cmd, old(self)@.select_kind(track@, file_present), track@),
    {
        let same = match &self.current_track {
            Some(c) => c.id == track.id,
            None => false,
        };
        if same {
            match &self.state {
                PlaybackState::Idle => {},
                PlaybackState::AwaitingDownload(_) => {
                    return SelectCommand::Keep;
                },
                _ => {
                    return SelectCommand::Restart;
                },
            }
        }
        self.live_timer = None;
        let source = clone_opt_string(&track.yt_id);
        if file_present {
            let file_name = file_name_for(&track);
            self.state = PlaybackState::Playing(track.clone());
            self.current_track = Some(track);
            SelectCommand::Play { file_name }
        } else {
            match source {
                Some(source_id) => {
                    let file_name = file_name_for(&track);
                    self.state = PlaybackState::AwaitingDownload(source_id.clone());
                    self.current_track = Some(track);
                    SelectCommand::Download { source_id, file_name }
                },
                None => {
                    self.state = PlaybackState::Idle;
                    self.current_track = Some(track);
                    SelectCommand::Skip
                },
            }
        }
    }

    /// A download reported back. Its source leaves the set of enqueued
    /// downloads in any case. The result is acted on only if its source is
    /// the one that the orchestrator waits for: a completed download is
    /// played, a failed one makes the player move on. Any other result is
    /// stale and changes nothing here.
    pub fn download_finished(&mut self, sched: &mut Downloader, result: DownloadResult) -> (cmd:
        ResultCommand)
        requires
            old(self).wf(),
            old(sched).wf(),
        ensures
            final(self).wf(),
            final(sched).wf(),
            final(sched)@ == old(sched)@.acknowledge(result.id_view()),
            final(self)@ == old(self)@.download_finished(result.id_view(), result is Completed),
            result_command_is(
                cmd,
                old(self)@.result_kind(result.id_view(), result is Completed),
                result,
            ),
            old(self)@.state != PlaybackView::AwaitingDownload(result.id_view()) ==> final(self)@
                == old(self)@ && cmd is Discard,
    {
        sched.acknowledge(result.source_id());
        let awaited = match &self.state {
            PlaybackState::AwaitingDownload(id) => id.as_str().eq(result.source_id()),
            _ => false,
        };
        if !awaited {
            return ResultCommand::Discard;
        }
        match result {
            DownloadResult::Completed { file_path, .. } => {
                match &self.current_track {
                    Some(t) => {
                        self.state = PlaybackState::Playing(t.clone());
                    },
                    None => {},
                }
                ResultCommand::Play { file_path }
            },
            DownloadResult::Failed { .. } => {
                self.state = PlaybackState::Idle;
                ResultCommand::Advance
            },
        }
    }

    /// The sink took up the current track, which is `duration` seconds long
    /// and stands at `progress` seconds: the end-of-track timer is armed
    /// for the rest of it.
    pub fn playback_started(&mut self, duration: u64, progress: u64) -> (cmd: TimerCommand)
        requires
            old(self).wf(),
        ensures
            final(self).wf(),
            final(self)@ == old(self)@.playback_started(duration),
            cmd == if old(self)@.state is Playing {
                TimerCommand::Arm {
                    timer: old(self)@.next_timer,
                    delay_secs: remaining_secs(duration as int, progress as int) as u64,
                }
            } else {
                TimerCommand::Leave
            },
    {
        match &self.state {
            PlaybackState::Playing(_) => {
                self.duration = duration;
                let timer = self.arm();
                TimerCommand::Arm { timer, delay_secs: timer_delay(duration, progress) }
            },
            _ => TimerCommand::Leave,
        }
    }

    /// The sink could not take up the current track. Returns whether the
    /// player is to move on to the next track (it was about to play).
    pub fn playback_failed(&mut self) -> (advance: bool)
        requires
            old(self).wf(),
        ensures
            final(self).wf(),
            final(self)@ == old(self)@.playback_failed(),
            advance == (old(self)@.state is Playing),
    {
        match &self.state {
            PlaybackState::Playing(_) => {
                self.state = PlaybackState::Idle;
                self.live_timer = None;
                true
            },
            _ => false,
        }
    }

    /// Timer `timer` fired. Returns whether the track is over: true for
    /// the live timer, which is thereby used up, and false for any other,
    /// which changes nothing.
    pub fn timer_fired(&mut self, timer: u64) -> (finished: bool)
        requires
            old(self).wf(),
        ensures
            final(self).wf(),
            final(self)@ == old(self)@.timer_fired(timer),
            finished == (old(self)@.timer == Some(timer)),
            finished ==> final(self)@.timer is None,
    {
        match self.live_timer {
            Some(live) => {
                if live == timer {
                    self.state = PlaybackState::Idle;
                    self.live_timer = None;
                    true
                } else {
                    false
                }
            },
            None => false,
        }
    }

    /// Pauses what plays, or resumes what is paused at `progress` seconds.
    pub fn toggle_pause(&mut self, progress: u64) -> (cmd: PauseCommand)
        requires
            old(self).wf(),
        ensures
            final(self).wf(),
            final(self)@ == old(self)@.toggle_pause(),
            cmd == old(self)@.pause_command(progress),
    {
        match &self.state {
            PlaybackState::Playing(t) => {
                self.state = PlaybackState::Paused(t.clone());
                self.live_timer = None;
                PauseCommand::Pause
            },
            PlaybackState::Paused(t) => {
                self.state = PlaybackState::Playing(t.clone());
                let timer = self.arm();
                PauseCommand::Resume { timer, delay_secs: timer_delay(self.duration, progress) }
            },
            _ => PauseCommand::Nothing,
        }
    }

    /// Answers a seek to `position` and replaces the timer while playing.
    fn seek_to(&mut self, position: u64) -> (cmd: SeekCommand)
        requires
            old(self).wf(),
        ensures
            final(self).wf(),
            final(self)@ == old(self)@.seeked(),
            cmd == old(self)@.seek_command(position),
    {
        match &self.state {
            PlaybackState::Playing(_) => {
                let timer = self.arm();
                SeekCommand::Seek {
                    position,
                    timer: TimerCommand::Arm {
                        timer,
                        delay_secs: timer_delay(self.duration, position),
                    },
                }
            },
            PlaybackState::Paused(_) => SeekCommand::Seek { position, timer: TimerCommand::Leave },
            _ => SeekCommand::Nothing,
        }
    }

    /// Seeks to `pcent` percent of the track.
    pub fn seek_percentage(&mut self, pcent: u64) -> (cmd: SeekCommand)
        requires
            old(self).wf(),
        ensures
            final(self).wf(),
            final(self)@ == old(self)@.seeked(),
            cmd == old(self)@.seek_command(
                percentage_position(pcent as int, old(self)@.duration as int) as u64,
            ),
    {
        let position = seek_percentage(pcent, self.duration);
        self.seek_to(position)
    }

    /// Skips `seconds` ahead from `progress`.
    pub fn forward(&mut self, seconds: u64, progress: u64) -> (cmd: SeekCommand)
        requires
            old(self).wf(),
        ensures
            final(self).wf(),
            final(self)@ == old(self)@.seeked(),
            cmd == old(self)@.seek_command(
                forward_position(progress as int, seconds as int, old(self)@.duration as int) as u64,
            ),
    {
        let position = forward(progress, seconds, self.duration);
        self.seek_to(position)
    }

    /// Skips `seconds` back from `progress`.
    pub fn rewind(&mut self, seconds: u64, progress: u64) -> (cmd: SeekCommand)
        requires
            old(self).wf(),
        ensures
            final(self).wf(),
            final(self)@ == old(self)@.seeked(),
            cmd == old(self)@.seek_command(rewind_position(progress as int, seconds as int) as u64),
    {
        let position = rewind(progress, seconds);
        self.seek_to(position)
    }

    /// Ends playback and forgets the current track. The caller stops the
    /// sink and aborts the live timer.
    pub fn stop(&mut self)
        requires
            old(self).wf(),
        ensures
            final(self).wf(),
            final(self)@ == old(self)@.stop(),
    {
        self.state = PlaybackState::Idle;
        self.current_track = None;
        self.live_timer = None;
    }

    /// Turns the volume up by `step` percent and returns the new volume.
    pub fn increase_volume(&mut self, step: i32) -> (volume: i32)
        requires
            old(self).wf(),
        ensures
            final(self).wf(),
            volume == raised_volume(old(self)@.volume, step as int),
            final(self)@ == (PlayerView { volume: volume as int, ..old(self)@ }),
    {
        self.volume = increase_volume(self.volume, step);
        self.volume
    }

    /// Turns the volume down by `step` percent and returns the new volume.
    pub fn decrease_volume(&mut self, step: i32) -> (volume: i32)
        requires
            old(self).wf(),
        ensures
            final(self).wf(),
            volume == lowered_volume(old(self)@.volume, step as int),
            final(self)@ == (PlayerView { volume: volume as int, ..old(self)@ }),
    {
        self.volume = decrease_volume(self.volume, step);
        self.volume
    }

    pub fn get_volume(&self) -> (volume: i32)
        ensures
            volume == self@.volume,
    {
        self.volume
    }

    pub fn state(&self) -> (s: &PlaybackState)
        ensures
            s@ == self@.state,
    {
        &self.state
    }

    /// The track that the user wants to hear.
    pub fn current_track(&self) -> (t: Option<&Track>)
        ensures
            match t {
                Some(t) => self@.current == Some(t@),
                None => self@.current is None,
            },
    {
        match &self.current_track {
            Some(t) => Some(t),
            None => None,
        }
    }

    /// Whether the current track's download is awaited.
    pub fn is_downloading(&self) -> (r: bool)
        ensures
            r == (self@.state is AwaitingDownload),
    {
        match &self.state {
            PlaybackState::AwaitingDownload(_) => true,
            _ => false,
        }
    }

    /// Whether a track is playing or paused.
    pub fn is_playing(&self) -> (r: bool)
        ensures
            r == (self@.state is Playing || self@.state is Paused),
    {
        match &self.state {
            PlaybackState::Playing(_) => true,
            PlaybackState::Paused(_) => true,
            _ => false,
        }
    }

    pub fn is_paused(&self) -> (r: bool)
        ensures
            r == (self@.state is Paused),
    {
        match &self.state {
            PlaybackState::Paused(_) => true,
            _ => false,
        }
    }

    /// The live end-of-track timer.
    pub fn live_timer(&self) -> (t: Option<u64>)
        ensures
            t == self@.timer,
    {
        self.live_timer
    }

    /// Length of the track that the sink took up last, in seconds.
    pub fn get_duration(&self) -> (d: u64)
        ensures
            d == self@.duration,
    {
        self.duration
    }
}

} // verus!
