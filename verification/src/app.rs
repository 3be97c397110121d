//! The control loop's state and what each key press does to it. Whatever
//! needs the store, the network or the audio sink is handed back to the
//! caller as a command.

use vstd::prelude::*;
use vstd::string::*;
use crate::list::{is_permutation, unicode_lowercase, ListView, ListWidget};
use crate::loading::{bounce_offset, LoadingWidget};
use crate::api::error_text;
use crate::models::{NewPlaylist, NewVideo, Playlist, Track};
use crate::utils::Message;

verus! {

/// What the terminal shows.
#[derive(Debug)]
pub enum CurrentScreen {
    Playlists,
    Songs,
    /// The key bindings; any key leads back to the screen held.
    Controls(Box<CurrentScreen>),
    LoadingScreen,
    /// A message; any key leads on to the screen held.
    ErrorScreen(String, Box<CurrentScreen>),
}

/// Whether the cursor of the track list snaps to the track that plays.
#[derive(Clone, Copy, Debug, PartialEq, Eq, Structural)]
pub enum SelectionMode {
    Follow,
    Manual,
}

/// A key press, reduced to what the application tells apart.
#[derive(Clone, Copy, Debug, PartialEq, Eq, Structural)]
pub enum Key {
    Down,
    Up,
    Enter,
    Left,
    Right,
    Char(char),
    Backspace,
    Esc,
    Other,
}

/// What the caller has to do after a key press or a message.
#[derive(Clone, Copy, Debug, PartialEq, Eq, Structural)]
pub enum Command {
    Nothing,
    /// Leave the application.
    Quit,
    /// Load the tracks of the playlist at this position and show them.
    OpenPlaylist(usize),
    /// Delete the playlist at this position from the store.
    DeletePlaylist(usize),
    /// Fetch the tracks of the playlist at this position again.
    UpdatePlaylist(usize),
    /// Play the track at this position of the active order.
    Play(usize),
    /// Skip this many seconds back.
    Rewind(u64),
    /// Skip this many seconds ahead.
    Forward(u64),
    TogglePause,
    /// Stop playback and forget the current track.
    Stop,
    /// Stop playback, then leave the application.
    StopAndQuit,
    /// Turn the volume up by this many percent.
    IncreaseVolume(i32),
    /// Turn the volume down by this many percent.
    DecreaseVolume(i32),
    /// Seek to this many percent of the track.
    SeekPercentage(u64),
}

/// Seconds skipped by the arrow keys.
pub const SKIP_SECONDS: u64 = 15;

/// Percent by which `+` and `-` change the volume.
pub const VOLUME_STEP: i32 = 10;

/// Title of the list of playlists.
pub open spec fn playlists_title() -> Seq<char> {
    "Playlists (press h for help)"@
}

/// The decimal digit that `c` is, if it is one.
pub open spec fn digit_of(c: char) -> Option<int> {
    if '0' <= c && c <= '9' {
        Some((c as u8) - ('0' as u8))
    } else {
        None
    }
}

/// The application as contracts see it.
pub struct AppView {
    pub screen: CurrentScreen,
    pub playlists: ListView<Playlist>,
    pub songs: ListView<Track>,
    /// Label and animation frame of the loading screen, once there is one.
    pub loading: Option<(Seq<char>, int)>,
    /// Name of the playlist whose tracks are listed.
    pub current_playlist: Option<Seq<char>>,
    /// Position, in the active order, of the track that plays.
    pub current_song: Option<usize>,
    pub mode: SelectionMode,
    /// What the user has typed into the search so far.
    pub search_query: Seq<char>,
    /// Whether a playlist store is attached; without one the application
    /// plays a local directory and ends when that is closed.
    pub has_store: bool,
}

impl AppView {
    pub open spec fn wf(self) -> bool {
        &&& self.playlists.wf()
        &&& self.songs.wf()
        &&& self.current_song matches Some(i) ==> i < self.songs.items.len()
        &&& self.loading matches Some(l) ==> 0 <= l.1 < 8
    }

    /// The key bindings over the present screen.
    pub open spec fn help(self) -> Self {
        AppView { screen: CurrentScreen::Controls(Box::new(self.screen)), ..self }
    }

    /// Follow mode on and the cursor onto the track that plays; nothing
    /// while the list is filtered or no track plays.
    pub open spec fn activate_follow(self) -> Self {
        if !self.songs.is_filtered() && self.current_song is Some {
            AppView {
                mode: SelectionMode::Follow,
                songs: self.songs.select_ind(self.current_song->0),
                ..self
            }
        } else {
            self
        }
    }

    /// The application once the track at position `ind` was chosen to play.
    pub open spec fn play_ind(self, ind: usize) -> Self {
        AppView {
            songs: if self.mode == SelectionMode::Follow {
                self.songs.select_ind(ind)
            } else {
                self.songs
            },
            current_song: Some(ind),
            ..self
        }
    }

    /// The position after the one that plays, wrapping at the end; the
    /// first one when nothing plays.
    pub open spec fn next_ind(self) -> usize {
        match self.current_song {
            Some(i) => ((i + 1) % (self.songs.items.len() as int)) as usize,
            None => 0,
        }
    }

    /// The position before the one that plays, wrapping at the start; the
    /// first one when nothing plays.
    pub open spec fn previous_ind(self) -> usize {
        match self.current_song {
            Some(i) => if i == 0 {
                (self.songs.items.len() - 1) as usize
            } else {
                (i - 1) as usize
            },
            None => 0,
        }
    }

    /// Chooses position `ind` unless there are no tracks.
    pub open spec fn play_at(self, ind: usize) -> (Self, Command) {
        if self.songs.items.len() == 0 {
            (self, Command::Nothing)
        } else {
            (self.play_ind(ind), Command::Play(ind))
        }
    }

    pub open spec fn play_next(self) -> (Self, Command) {
        self.play_at(self.next_ind())
    }

    pub open spec fn play_previous(self) -> (Self, Command) {
        self.play_at(self.previous_ind())
    }

    pub open spec fn stop_playing(self) -> Self {
        AppView { current_song: None, ..self }
    }

    pub open spec fn close_playlist(self) -> Self {
        AppView { current_song: None, screen: CurrentScreen::Playlists, ..self }
    }

    /// The application showing `msg`. An error screen is never put over an
    /// error screen; after a loading screen the list of playlists follows.
    pub open spec fn set_error(self, msg: String) -> Self {
        match self.screen {
            CurrentScreen::ErrorScreen(_, _) => self,
            CurrentScreen::LoadingScreen => AppView {
                screen: CurrentScreen::ErrorScreen(msg, Box::new(CurrentScreen::Playlists)),
                ..self
            },
            _ => AppView {
                screen: CurrentScreen::ErrorScreen(msg, Box::new(self.screen)),
                ..self
            },
        }
    }

    /// The application showing the loading screen with `label`.
    pub open spec fn show_loading(self, label: Seq<char>) -> Self {
        AppView { loading: Some((label, 0)), screen: CurrentScreen::LoadingScreen, ..self }
    }

    /// The application showing the tracks of the playlist `title`, none
    /// of which plays yet.
    pub open spec fn load_songs(self, title: Seq<char>, songs: Seq<Track>) -> Self {
        AppView {
            songs: ListView::<Track>::initial(title, songs),
            current_playlist: Some(title),
            current_song: None,
            screen: CurrentScreen::Songs,
            ..self
        }
    }

    /// The application back on the list of playlists, which now holds
    /// `playlists`, with the cursor on the last of them.
    pub open spec fn playlist_saved(self, playlists: Seq<Playlist>) -> Self {
        let list = ListView::<Playlist>::initial(playlists_title(), playlists);
        AppView {
            screen: CurrentScreen::Playlists,
            playlists: if playlists.len() > 0 {
                list.select_ind((playlists.len() - 1) as usize)
            } else {
                list
            },
            ..self
        }
    }

    /// The application with a new label on the loading screen, if it has
    /// one.
    pub open spec fn progress(self, label: Seq<char>) -> Self {
        match self.loading {
            Some(l) => AppView { loading: Some((label, l.1)), ..self },
            None => self,
        }
    }

    /// A key on the list of playlists.
    pub open spec fn playlists_key(self, key: Key) -> (Self, Command) {
        match key {
            Key::Down => (AppView { playlists: self.playlists.next(), ..self }, Command::Nothing),
            Key::Up => (AppView { playlists: self.playlists.previous(), ..self }, Command::Nothing),
            Key::Enter => match self.playlists.selected() {
                Some(ind) => (self, Command::OpenPlaylist(ind)),
                None => (self, Command::Nothing),
            },
            Key::Char(c) => if c == 'd' {
                match self.playlists.selected() {
                    Some(ind) => (self, Command::DeletePlaylist(ind)),
                    None => (self, Command::Nothing),
                }
            } else if c == 'u' {
                match self.playlists.selected() {
                    Some(ind) => (
                        self.show_loading("Updating playlist..."@),
                        Command::UpdatePlaylist(ind),
                    ),
                    None => (self, Command::Nothing),
                }
            } else if c == 'q' {
                (self, Command::Quit)
            } else if c == 'h' {
                (self.help(), Command::Nothing)
            } else {
                (self, Command::Nothing)
            },
            _ => (self, Command::Nothing),
        }
    }

    /// The search with `query` typed in.
    pub open spec fn search(self, query: Seq<char>) -> Self {
        AppView {
            search_query: query,
            songs: self.songs.filter(unicode_lowercase(query)),
            ..self
        }
    }

    /// A letter, digit or sign on the unfiltered track list, but for `r`.
    pub open spec fn songs_char(self, c: char) -> (Self, Command) {
        if c == 'p' {
            (self, Command::TogglePause)
        } else if c == 'f' {
            (self.activate_follow(), Command::Nothing)
        } else if c == 's' {
            (self.search(Seq::empty()), Command::Nothing)
        } else if c == 'n' {
            self.play_next()
        } else if c == 'b' {
            self.play_previous()
        } else if c == 'q' {
            (
                self.close_playlist(),
                if self.has_store {
                    Command::Stop
                } else {
                    Command::StopAndQuit
                },
            )
        } else if c == 'h' {
            (self.help(), Command::Nothing)
        } else if c == '+' {
            (self, Command::IncreaseVolume(VOLUME_STEP))
        } else if c == '-' {
            (self, Command::DecreaseVolume(VOLUME_STEP))
        } else {
            match digit_of(c) {
                Some(d) => (self, Command::SeekPercentage((d * 10) as u64)),
                None => (self, Command::Nothing),
            }
        }
    }

    /// A key on the track list, but for `r` on the unfiltered list.
    pub open spec fn songs_key(self, key: Key) -> (Self, Command) {
        match key {
            Key::Down => (
                AppView { mode: SelectionMode::Manual, songs: self.songs.next(), ..self },
                Command::Nothing,
            ),
            Key::Up => (
                AppView { mode: SelectionMode::Manual, songs: self.songs.previous(), ..self },
                Command::Nothing,
            ),
            Key::Enter => match self.songs.selected() {
                Some(ind) => {
                    let chosen = self.play_ind(ind);
                    (
                        AppView { songs: chosen.songs.clear_filter(), ..chosen }.activate_follow(),
                        Command::Play(ind),
                    )
                },
                None => (self, Command::Nothing),
            },
            Key::Left => (self, Command::Rewind(SKIP_SECONDS)),
            Key::Right => (self, Command::Forward(SKIP_SECONDS)),
            Key::Char(c) => if self.songs.is_filtered() {
                (self.search(self.search_query.push(c)), Command::Nothing)
            } else {
                self.songs_char(c)
            },
            Key::Backspace => if self.songs.is_filtered() {
                (
                    self.search(
                        if self.search_query.len() > 0 {
                            self.search_query.drop_last()
                        } else {
                            self.search_query
                        },
                    ),
                    Command::Nothing,
                )
            } else {
                (self, Command::Nothing)
            },
            Key::Esc => (AppView { songs: self.songs.clear_filter(), ..self }, Command::Nothing),
            Key::Other => (self, Command::Nothing),
        }
    }

    /// Whether `key` toggles the shuffle: `r` on the unfiltered track list.
    pub open spec fn toggles_shuffle(self, key: Key) -> bool {
        self.screen is Songs && key == Key::Char('r') && !self.songs.is_filtered()
    }

    /// The application after `key`, but for a key that toggles the shuffle.
    pub open spec fn after_key(self, key: Key) -> (Self, Command) {
        match self.screen {
            CurrentScreen::Playlists => self.playlists_key(key),
            CurrentScreen::Songs => self.songs_key(key),
            CurrentScreen::Controls(previous) => (
                AppView { screen: *previous, ..self },
                Command::Nothing,
            ),
            CurrentScreen::LoadingScreen => (self, Command::Nothing),
            CurrentScreen::ErrorScreen(_, following) => (
                AppView { screen: *following, ..self },
                Command::Nothing,
            ),
        }
    }

    /// Whether `after` and `cmd` are what `key` leads to from `self`. The
    /// one key whose outcome is not fixed is the shuffle toggle: playback
    /// stops, and the track list is either back in the given order or in
    /// some shuffled order.
    pub open spec fn handles(self, key: Key, after: Self, cmd: Command) -> bool {
        if self.toggles_shuffle(key) {
            &&& cmd == Command::Stop
            &&& after == (AppView { songs: after.songs, ..self.stop_playing() })
            &&& if self.songs.shuffled {
                after.songs == self.songs.shuffle_off()
            } else {
                &&& is_permutation(after.songs.order, self.songs.items.len())
                &&& after.songs == self.songs.shuffle_on(after.songs.order)
            }
        } else {
            (after, cmd) == self.after_key(key)
        }
    }
}

/// The state of the control loop: what is shown, the two lists, and which
/// track plays.
pub struct ListuiApp {
    current_screen: CurrentScreen,
    playlists_widget: ListWidget<Playlist>,
    songs_widget: ListWidget<Track>,
    loading_widget: Option<LoadingWidget>,
    current_playlist: Option<String>,
    current_song_ind: Option<usize>,
    songs_selmode: SelectionMode,
    search_query: String,
    has_store: bool,
}

impl ListuiApp {
    pub closed spec fn view(&self) -> AppView {
        AppView {
            screen: self.current_screen,
            playlists: self.playlists_widget@,
            songs: self.songs_widget@,
            loading: match self.loading_widget {
                Some(w) => Some((w.label_view(), w.frame_view())),
                None => None,
            },
            current_playlist: match self.current_playlist {
                Some(name) => Some(name@),
                None => None,
            },
            current_song: self.current_song_ind,
            mode: self.songs_selmode,
            search_query: self.search_query@,
            has_store: self.has_store,
        }
    }

    pub open spec fn wf(&self) -> bool {
        self@.wf()
    }

    /// The application over a store that holds `playlists`: it starts on
    /// the list of playlists.
    pub fn new(playlists: Vec<Playlist>) -> (app: Self)
        ensures
            app.wf(),
            app@ == (AppView {
                screen: CurrentScreen::Playlists,
                playlists: ListView::<Playlist>::initial(playlists_title(), playlists@),
                songs: ListView::<Track>::initial("..."@, Seq::empty()),
                loading: None,
                current_playlist: None,
                current_song: None,
                mode: SelectionMode::Follow,
                search_query: Seq::empty(),
                has_store: true,
            }),
    {
        ListuiApp {
            current_screen: CurrentScreen::Playlists,
            playlists_widget: ListWidget::with_items("Playlists (press h for help)", playlists),
            songs_widget: ListWidget::empty("..."),
            loading_widget: None,
            current_playlist: None,
            current_song_ind: None,
            songs_selmode: SelectionMode::Follow,
            search_query: String::new(),
            has_store: true,
        }
    }

    /// The application over the tracks of a local directory named
    /// `playlist_name`: it starts on the track list and has no store.
    pub fn with_tracks(playlist_name: String, tracks: Vec<Track>) -> (app: Self)
        ensures
            app.wf(),
            app@ == (AppView {
                screen: CurrentScreen::Songs,
                playlists: ListView::<Playlist>::initial(playlists_title(), Seq::empty()),
                songs: ListView::<Track>::initial(playlist_name@, tracks@),
                loading: None,
                current_playlist: Some(playlist_name@),
                current_song: None,
                mode: SelectionMode::Follow,
                search_query: Seq::empty(),
                has_store: false,
            }),
    {
        ListuiApp {
            current_screen: CurrentScreen::Songs,
            playlists_widget: ListWidget::empty("Playlists (press h for help)"),
            songs_widget: ListWidget::with_items(playlist_name.as_str(), tracks),
            loading_widget: None,
            current_playlist: Some(playlist_name),
            current_song_ind: None,
            songs_selmode: SelectionMode::Follow,
            search_query: String::new(),
            has_store: false,
        }
    }

    /// Takes the present screen out, leaving the list of playlists.
    fn take_screen(&mut self) -> (screen: CurrentScreen)
        ensures
            screen == old(self)@.screen,
            final(self)@ == (AppView { screen: CurrentScreen::Playlists, ..old(self)@ }),
    {
        let mut taken = CurrentScreen::Playlists;
        std::mem::swap(&mut self.current_screen, &mut taken);
        taken
    }

    /// Shows the key bindings over the present screen.
    fn help(&mut self)
        ensures
            final(self)@ == old(self)@.help(),
    {
        let taken = self.take_screen();
        self.current_screen = CurrentScreen::Controls(Box::new(taken));
    }

    /// Leaves a screen that any key closes.
    fn leave_overlay(&mut self)
        requires
            old(self)@.screen is Controls || old(self)@.screen is ErrorScreen,
        ensures
            final(self)@ == old(self)@.after_key(Key::Other).0,
    {
        let taken = self.take_screen();
        match taken {
            CurrentScreen::Controls(previous) => {
                self.current_screen = *previous;
            },
            CurrentScreen::ErrorScreen(_, following) => {
                self.current_screen = *following;
            },
            _ => {},
        }
    }

    /// Puts `msg` on the screen, see `AppView::set_error`.
    pub fn set_error(&mut self, msg: String)
        ensures
            final(self)@ == old(self)@.set_error(msg),
            old(self).wf() ==> final(self).wf(),
    {
        let over_error = match &self.current_screen {
            CurrentScreen::ErrorScreen(_, _) => true,
            _ => false,
        };
        if over_error {
            return ;
        }
        let taken = self.take_screen();
        let following = match taken {
            CurrentScreen::LoadingScreen => CurrentScreen::Playlists,
            other => other,
        };
        self.current_screen = CurrentScreen::ErrorScreen(msg, Box::new(following));
    }

    /// Shows the loading screen with `label`.
    pub fn show_loading(&mut self, label: &str)
        ensures
            final(self)@ == old(self)@.show_loading(label@),
            old(self).wf() ==> final(self).wf(),
    {
        self.loading_widget = Some(LoadingWidget::new(label));
        self.current_screen = CurrentScreen::LoadingScreen;
    }

    /// Turns follow mode on, see `AppView::activate_follow`.
    pub fn activate_follow(&mut self)
        requires
            old(self).wf(),
        ensures
            final(self).wf(),
            final(self)@ == old(self)@.activate_follow(),
    {
        if !self.songs_widget.is_filtered() {
            match self.current_song_ind {
                Some(ind) => {
                    self.songs_selmode = SelectionMode::Follow;
                    self.songs_widget.select_ind(ind);
                },
                None => {},
            }
        }
    }

    /// Makes the track at position `ind` the one that plays; in follow
    /// mode the cursor goes along.
    pub fn play_ind(&mut self, ind: usize)
        requires
            old(self).wf(),
            ind < old(self)@.songs.items.len(),
        ensures
            final(self).wf(),
            final(self)@ == old(self)@.play_ind(ind),
    {
        match self.songs_selmode {
            SelectionMode::Follow => {
                self.songs_widget.select_ind(ind);
            },
            SelectionMode::Manual => {},
        }
        self.current_song_ind = Some(ind);
    }

    /// Moves on to the next track of the active order.
    pub fn play_next(&mut self) -> (cmd: Command)
        requires
            old(self).wf(),
        ensures
            final(self).wf(),
            (final(self)@, cmd) == old(self)@.play_next(),
            cmd matches Command::Play(ind) ==> ind < final(self)@.songs.items.len(),
    {
        let len = self.songs_widget.total_len();
        if len == 0 {
            return Command::Nothing;
        }
        let ind: usize = match self.current_song_ind {
            Some(i) => (i + 1) % len,
            None => 0,
        };
        self.play_ind(ind);
        Command::Play(ind)
    }

    /// Moves back to the previous track of the active order.
    pub fn play_previous(&mut self) -> (cmd: Command)
        requires
            old(self).wf(),
        ensures
            final(self).wf(),
            (final(self)@, cmd) == old(self)@.play_previous(),
            cmd matches Command::Play(ind) ==> ind < final(self)@.songs.items.len(),
    {
        let len = self.songs_widget.total_len();
        if len == 0 {
            return Command::Nothing;
        }
        let ind: usize = match self.current_song_ind {
            Some(i) => if i == 0 {
                len - 1
            } else {
                i - 1
            },
            None => 0,
        };
        self.play_ind(ind);
        Command::Play(ind)
    }

    /// Forgets which track plays. The caller stops the player.
    pub fn stop_playing(&mut self)
        ensures
            final(self)@ == old(self)@.stop_playing(),
            old(self).wf() ==> final(self).wf(),
    {
        self.current_song_ind = None;
    }

    /// Goes back to the list of playlists. The caller stops the player.
    pub fn close_playlist(&mut self)
        ensures
            final(self)@ == old(self)@.close_playlist(),
            old(self).wf() ==> final(self).wf(),
    {
        self.current_song_ind = None;
        self.current_screen = CurrentScreen::Playlists;
    }

    /// Runs the search with `self.search_query`.
    fn run_search(&mut self)
        requires
            old(self).wf(),
        ensures
            final(self).wf(),
            final(self)@ == old(self)@.search(old(self)@.search_query),
    {
        self.songs_widget.filter(self.search_query.as_str());
    }

    /// A key on the list of playlists.
    fn playlists_input(&mut self, key: Key) -> (cmd: Command)
        requires
            old(self).wf(),
        ensures
            final(self).wf(),
            (final(self)@, cmd) == old(self)@.playlists_key(key),
    {
        match key {
            Key::Down => {
                self.playlists_widget.next();
                Command::Nothing
            },
            Key::Up => {
                self.playlists_widget.previous();
                Command::Nothing
            },
            Key::Enter => match self.playlists_widget.get_selected() {
                Some(ind) => Command::OpenPlaylist(ind),
                None => Command::Nothing,
            },
            Key::Char(c) => {
                if c == 'd' {
                    match self.playlists_widget.get_selected() {
                        Some(ind) => Command::DeletePlaylist(ind),
                        None => Command::Nothing,
                    }
                } else if c == 'u' {
                    match self.playlists_widget.get_selected() {
                        Some(ind) => {
                            self.show_loading("Updating playlist...");
                            Command::UpdatePlaylist(ind)
                        },
                        None => Command::Nothing,
                    }
                } else if c == 'q' {
                    Command::Quit
                } else if c == 'h' {
                    self.help();
                    Command::Nothing
                } else {
                    Command::Nothing
                }
            },
            _ => Command::Nothing,
        }
    }

    /// A letter, digit or sign on the unfiltered track list.
    fn songs_char_input(&mut self, c: char) -> (cmd: Command)
        requires
            old(self).wf(),
            old(self)@.screen is Songs,
            !old(self)@.songs.is_filtered(),
        ensures
            final(self).wf(),
            old(self)@.handles(Key::Char(c), final(self)@, cmd),
            cmd matches Command::Play(ind) ==> ind < final(self)@.songs.items.len(),
    {
        if c == 'r' {
            self.current_song_ind = None;
            self.songs_widget.toggle_shuffle();
            Command::Stop
        } else if c == 'p' {
            Command::TogglePause
        } else if c == 'f' {
            self.activate_follow();
            Command::Nothing
        } else if c == 's' {
            self.search_query = String::new();
            self.run_search();
            Command::Nothing
        } else if c == 'n' {
            self.play_next()
        } else if c == 'b' {
            self.play_previous()
        } else if c == 'q' {
            self.close_playlist();
            if self.has_store {
                Command::Stop
            } else {
                Command::StopAndQuit
            }
        } else if c == 'h' {
            self.help();
            Command::Nothing
        } else if c == '+' {
            Command::IncreaseVolume(VOLUME_STEP)
        } else if c == '-' {
            Command::DecreaseVolume(VOLUME_STEP)
        } else if '0' <= c && c <= '9' {
            let digit: u8 = (c as u8) - ('0' as u8);
            Command::SeekPercentage((digit as u64) * 10)
        } else {
            Command::Nothing
        }
    }

    /// A key on the track list.
    fn songs_input(&mut self, key: Key) -> (cmd: Command)
        requires
            old(self).wf(),
            old(self)@.screen is Songs,
        ensures
            final(self).wf(),
            old(self)@.handles(key, final(self)@, cmd),
            cmd matches Command::Play(ind) ==> ind < final(self)@.songs.items.len(),
    {
        match key {
            Key::Down => {
                self.songs_selmode = SelectionMode::Manual;
                self.songs_widget.next();
                Command::Nothing
            },
            Key::Up => {
                self.songs_selmode = SelectionMode::Manual;
                self.songs_widget.previous();
                Command::Nothing
            },
            Key::Enter => match self.songs_widget.get_selected() {
                Some(ind) => {
                    self.play_ind(ind);
                    self.songs_widget.clear_filter();
                    self.activate_follow();
                    Command::Play(ind)
                },
                None => Command::Nothing,
            },
            Key::Left => Command::Rewind(SKIP_SECONDS),
            Key::Right => Command::Forward(SKIP_SECONDS),
            Key::Char(c) => {
                if self.songs_widget.is_filtered() {
                    self.search_query.push(c);
                    self.run_search();
                    Command::Nothing
                } else {
                    self.songs_char_input(c)
                }
            },
            Key::Backspace => {
                if self.songs_widget.is_filtered() {
                    self.search_query.pop();
                    self.run_search();
                }
                Command::Nothing
            },
            Key::Esc => {
                self.songs_widget.clear_filter();
                Command::Nothing
            },
            Key::Other => Command::Nothing,
        }
    }

    /// Handles one key press and says what is left for the caller to do.
    ///
    /// On the list of playlists the arrows move the cursor, Enter opens,
    /// `d` deletes and `u` updates the selected playlist, `q` quits and `h`
    /// shows the key bindings. On the track list the arrows up and down
    /// move the cursor by hand, Enter plays the selected track, left and
    /// right skip, and, unless a search is typed, `p` pauses, `f` follows,
    /// `s` searches, `n` and `b` play the next and the previous track, `r`
    /// toggles the shuffle, `q` closes the list, `+` and `-` change the
    /// volume and a digit seeks to that many tenths of the track. Any key
    /// closes the key bindings or an error; none does anything while
    /// something loads.
    pub fn process_input(&mut self, key: Key) -> (cmd: Command)
        requires
            old(self).wf(),
        ensures
            final(self).wf(),
            old(self)@.handles(key, final(self)@, cmd),
            cmd matches Command::Play(ind) ==> ind < final(self)@.songs.items.len(),
    {
        let on_playlists = match &self.current_screen {
            CurrentScreen::Playlists => true,
            _ => false,
        };
        let on_songs = match &self.current_screen {
            CurrentScreen::Songs => true,
            _ => false,
        };
        let loading = match &self.current_screen {
            CurrentScreen::LoadingScreen => true,
            _ => false,
        };
        if on_playlists {
            self.playlists_input(key)
        } else if on_songs {
            self.songs_input(key)
        } else if loading {
            Command::Nothing
        } else {
            self.leave_overlay();
            Command::Nothing
        }
    }
}

/// What the caller has to do after a message from background work.
#[derive(Debug)]
pub enum MessageCommand {
    /// What the player is to do now.
    Player(Command),
    /// Replace the tracks of the stored playlist with this identifier by
    /// these, then report `playlist_updated`.
    ReplaceTracks(i32, Vec<NewVideo>),
    /// Store the playlist with these tracks, then report `playlist_saved`
    /// with all stored playlists.
    SavePlaylist(NewPlaylist, Vec<NewVideo>),
}

impl ListuiApp {
    /// Whether the selected playlist may be opened: the external tools
    /// that downloads need must be there. If they are not, the user is
    /// told.
    pub fn open_playlist(&mut self, tools_present: bool) -> (open: bool)
        ensures
            open == tools_present,
            tools_present ==> final(self)@ == old(self)@,
            !tools_present ==> exists|msg: String|
                msg@ == "Please install yt-dlp and ffmpeg first."@ && final(self)@
                    == #[trigger] old(self)@.set_error(msg),
            old(self).wf() ==> final(self).wf(),
    {
        if !tools_present {
            let msg = String::from_str("Please install yt-dlp and ffmpeg first.");
            self.set_error(msg);
        }
        tools_present
    }

    /// Shows the tracks `songs` of the playlist `title`.
    pub fn load_songs(&mut self, title: String, songs: Vec<Track>)
        ensures
            final(self)@ == old(self)@.load_songs(title@, songs@),
            old(self).wf() ==> final(self).wf(),
    {
        self.songs_widget = ListWidget::with_items(title.as_str(), songs);
        self.current_playlist = Some(title);
        self.current_song_ind = None;
        self.current_screen = CurrentScreen::Songs;
    }

    /// Replaces the list of playlists, keeping the screen.
    pub fn set_playlists(&mut self, playlists: Vec<Playlist>)
        ensures
            final(self)@ == (AppView {
                playlists: ListView::<Playlist>::initial(playlists_title(), playlists@),
                ..old(self)@
            }),
            old(self).wf() ==> final(self).wf(),
    {
        self.playlists_widget = ListWidget::with_items("Playlists (press h for help)", playlists);
    }

    /// The tracks of a playlist were replaced in the store.
    pub fn playlist_updated(&mut self)
        ensures
            final(self)@ == (AppView { screen: CurrentScreen::Playlists, ..old(self)@ }),
            old(self).wf() ==> final(self).wf(),
    {
        self.current_screen = CurrentScreen::Playlists;
    }

    /// A new playlist was stored; `playlists` is what the store holds now.
    pub fn playlist_saved(&mut self, playlists: Vec<Playlist>)
        ensures
            final(self)@ == old(self)@.playlist_saved(playlists@),
            old(self).wf() ==> final(self).wf(),
    {
        self.current_screen = CurrentScreen::Playlists;
        self.playlists_widget = ListWidget::with_items("Playlists (press h for help)", playlists);
        let len = self.playlists_widget.total_len();
        if len > 0 {
            self.playlists_widget.select_ind(len - 1);
        }
    }

    /// Handles one message from background work: a finished track makes
    /// the player move on, fetched playlists are handed on to the store,
    /// a failed fetch is shown as an error, and progress becomes the label
    /// of the loading screen.
    pub fn check_message_received(&mut self, msg: Message) -> (cmd: MessageCommand)
        requires
            old(self).wf(),
        ensures
            final(self).wf(),
            match msg {
                Message::SongFinished => cmd matches MessageCommand::Player(c) && (final(self)@, c)
                    == old(self)@.play_next(),
                Message::PlaylistUpdate(Ok((id, tracks))) => cmd == MessageCommand::ReplaceTracks(
                    id,
                    tracks,
                ) && final(self)@ == old(self)@,
                Message::NewPlaylist(Ok((playlist, tracks))) => cmd == MessageCommand::SavePlaylist(
                    playlist,
                    tracks,
                ) && final(self)@ == old(self)@,
                Message::PlaylistUpdate(Err(e)) => cmd == MessageCommand::Player(Command::Nothing)
                    && exists|text: String|
                    text@ == error_text(e) && final(self)@ == #[trigger] old(self)@.set_error(text),
                Message::NewPlaylist(Err(e)) => cmd == MessageCommand::Player(Command::Nothing)
                    && exists|text: String|
                    text@ == error_text(e) && final(self)@ == #[trigger] old(self)@.set_error(text),
                Message::DownloadProgress(label) => cmd == MessageCommand::Player(Command::Nothing)
                    && final(self)@ == old(self)@.progress(label@),
            },
            cmd matches MessageCommand::Player(Command::Play(ind)) ==> ind
                < final(self)@.songs.items.len(),
    {
        match msg {
            Message::SongFinished => MessageCommand::Player(self.play_next()),
            Message::PlaylistUpdate(Ok((id, tracks))) => MessageCommand::ReplaceTracks(id, tracks),
            Message::NewPlaylist(Ok((playlist, tracks))) => MessageCommand::SavePlaylist(
                playlist,
                tracks,
            ),
            Message::PlaylistUpdate(Err(e)) => {
                let text = e.message();
                self.set_error(text);
                MessageCommand::Player(Command::Nothing)
            },
            Message::NewPlaylist(Err(e)) => {
                let text = e.message();
                self.set_error(text);
                MessageCommand::Player(Command::Nothing)
            },
            Message::DownloadProgress(label) => {
                match &mut self.loading_widget {
                    Some(w) => {
                        w.change_label(label);
                    },
                    None => {},
                }
                MessageCommand::Player(Command::Nothing)
            },
        }
    }

    /// Moves the animation of the loading screen on by one frame and
    /// returns the offset to draw the figure at; `None` without a loading
    /// screen.
    pub fn advance_loading(&mut self) -> (offset: Option<u16>)
        requires
            old(self).wf(),
        ensures
            final(self).wf(),
            match old(self)@.loading {
                Some(l) => offset == Some(bounce_offset(l.1) as u16) && final(self)@ == (AppView {
                    loading: Some((l.0, (l.1 + 1) % 8)),
                    ..old(self)@
                }),
                None => offset is None && final(self)@ == old(self)@,
            },
    {
        match &mut self.loading_widget {
            Some(w) => Some(w.advance()),
            None => None,
        }
    }

    pub fn current_screen(&self) -> (s: &CurrentScreen)
        ensures
            *s == self@.screen,
    {
        &self.current_screen
    }

    pub fn playlists(&self) -> (l: &ListWidget<Playlist>)
        ensures
            l@ == self@.playlists,
    {
        &self.playlists_widget
    }

    pub fn songs(&self) -> (l: &ListWidget<Track>)
        ensures
            l@ == self@.songs,
    {
        &self.songs_widget
    }

    /// The label of the loading screen, once there is one.
    pub fn loading_label(&self) -> (label: Option<&str>)
        ensures
            match label {
                Some(s) => self@.loading matches Some(l) && l.0 == s@,
                None => self@.loading is None,
            },
    {
        match &self.loading_widget {
            Some(w) => Some(w.label()),
            None => None,
        }
    }

    pub fn current_song_ind(&self) -> (ind: Option<usize>)
        ensures
            ind == self@.current_song,
    {
        self.current_song_ind
    }

    pub fn selection_mode(&self) -> (mode: SelectionMode)
        ensures
            mode == self@.mode,
    {
        self.songs_selmode
    }

    pub fn search_query(&self) -> (q: &str)
        ensures
            q@ == self@.search_query,
    {
        self.search_query.as_str()
    }

    /// Name of the playlist whose tracks are listed.
    pub fn current_playlist(&self) -> (name: Option<&str>)
        ensures
            match name {
                Some(s) => self@.current_playlist == Some(s@),
                None => self@.current_playlist is None,
            },
    {
        match &self.current_playlist {
            Some(s) => Some(s.as_str()),
            None => None,
        }
    }

    pub fn has_store(&self) -> (r: bool)
        ensures
            r == self@.has_store,
    {
        self.has_store
    }
}

} // verus!
