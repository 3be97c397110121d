use listui::api::ApiError;
use listui::app::{Command, CurrentScreen, Key, ListuiApp, MessageCommand, SelectionMode};
use listui::models::{NewPlaylist, NewVideo, Playlist, Track};
use listui::utils::Message;

fn playlist(id: i32, title: &str) -> Playlist {
    Playlist { id, title: title.to_string(), yt_id: format!("PL{id}") }
}

fn track(id: i32, title: &str) -> Track {
    Track { id, title: title.to_string(), yt_id: Some(format!("yt{id}")), playlist_id: Some(1) }
}

fn store_app() -> ListuiApp {
    ListuiApp::new(vec![playlist(1, "Rock"), playlist(2, "Jazz")])
}

fn songs_app() -> ListuiApp {
    let mut app = store_app();
    app.load_songs(
        "Rock".to_string(),
        vec![track(1, "Alpha"), track(2, "Beta"), track(3, "Gamma"), track(4, "alphabet")],
    );
    app
}

fn letters(app: &mut ListuiApp, text: &str) {
    for c in text.chars() {
        assert_eq!(app.process_input(Key::Char(c)), Command::Nothing);
    }
}

#[test]
fn application_starts_on_the_playlists() {
    let app = store_app();
    assert!(matches!(app.current_screen(), CurrentScreen::Playlists));
    assert_eq!(app.playlists().title(), "Playlists (press h for help)");
    assert_eq!(app.playlists().total_len(), 2);
    assert_eq!(app.songs().title(), "...");
    assert_eq!(app.songs().total_len(), 0);
    assert_eq!(app.current_song_ind(), None);
    assert_eq!(app.selection_mode(), SelectionMode::Follow);
    assert_eq!(app.search_query(), "");
    assert_eq!(app.current_playlist(), None);
    assert_eq!(app.loading_label(), None);
    assert!(app.has_store());
}

#[test]
fn local_directory_starts_on_its_tracks() {
    let app = ListuiApp::with_tracks("party".to_string(), vec![track(1, "A")]);
    assert!(matches!(app.current_screen(), CurrentScreen::Songs));
    assert_eq!(app.songs().title(), "party");
    assert_eq!(app.current_playlist(), Some("party"));
    assert_eq!(app.playlists().total_len(), 0);
    assert!(!app.has_store());
}

#[test]
fn playlists_keys() {
    let mut app = store_app();
    assert_eq!(app.process_input(Key::Enter), Command::Nothing);
    assert_eq!(app.process_input(Key::Char('d')), Command::Nothing);
    assert_eq!(app.process_input(Key::Char('u')), Command::Nothing);
    assert_eq!(app.process_input(Key::Down), Command::Nothing);
    assert_eq!(app.process_input(Key::Down), Command::Nothing);
    assert_eq!(app.process_input(Key::Enter), Command::OpenPlaylist(1));
    assert_eq!(app.process_input(Key::Up), Command::Nothing);
    assert_eq!(app.process_input(Key::Char('d')), Command::DeletePlaylist(0));
    assert_eq!(app.process_input(Key::Char('x')), Command::Nothing);
    assert_eq!(app.process_input(Key::Left), Command::Nothing);
    assert_eq!(app.process_input(Key::Char('q')), Command::Quit);
    assert!(matches!(app.current_screen(), CurrentScreen::Playlists));
}

#[test]
fn update_shows_the_loading_screen() {
    let mut app = store_app();
    app.process_input(Key::Down);
    assert_eq!(app.process_input(Key::Char('u')), Command::UpdatePlaylist(0));
    assert!(matches!(app.current_screen(), CurrentScreen::LoadingScreen));
    assert_eq!(app.loading_label(), Some("Updating playlist..."));
    assert_eq!(app.process_input(Key::Char('q')), Command::Nothing);
    assert!(matches!(app.current_screen(), CurrentScreen::LoadingScreen));
    assert_eq!(app.advance_loading(), Some(0));
    assert_eq!(app.advance_loading(), Some(1));
    app.playlist_updated();
    assert!(matches!(app.current_screen(), CurrentScreen::Playlists));
}

#[test]
fn help_returns_to_the_screen_it_was_called_from() {
    let mut app = songs_app();
    assert_eq!(app.process_input(Key::Char('h')), Command::Nothing);
    assert!(matches!(app.current_screen(), CurrentScreen::Controls(prev) if matches!(**prev, CurrentScreen::Songs)));
    assert_eq!(app.process_input(Key::Char('q')), Command::Nothing);
    assert!(matches!(app.current_screen(), CurrentScreen::Songs));
    let mut app = store_app();
    app.process_input(Key::Char('h'));
    app.process_input(Key::Enter);
    assert!(matches!(app.current_screen(), CurrentScreen::Playlists));
}

#[test]
fn errors_do_not_stack() {
    let mut app = songs_app();
    app.set_error("first".to_string());
    app.set_error("second".to_string());
    match app.current_screen() {
        CurrentScreen::ErrorScreen(msg, next) => {
            assert_eq!(msg, "first");
            assert!(matches!(**next, CurrentScreen::Songs));
        }
        other => panic!("unexpected {:?}", other),
    }
    assert_eq!(app.process_input(Key::Other), Command::Nothing);
    assert!(matches!(app.current_screen(), CurrentScreen::Songs));
}

#[test]
fn error_while_loading_leads_to_the_playlists() {
    let mut app = store_app();
    app.show_loading("Fetching playlist...");
    app.set_error("no network".to_string());
    assert!(matches!(
        app.current_screen(),
        CurrentScreen::ErrorScreen(msg, next) if msg == "no network" && matches!(**next, CurrentScreen::Playlists)
    ));
}

#[test]
fn missing_tools_keep_a_playlist_closed() {
    let mut app = store_app();
    assert!(app.open_playlist(true));
    assert!(matches!(app.current_screen(), CurrentScreen::Playlists));
    assert!(!app.open_playlist(false));
    assert!(matches!(
        app.current_screen(),
        CurrentScreen::ErrorScreen(msg, _) if msg == "Please install yt-dlp and ffmpeg first."
    ));
}

#[test]
fn enter_plays_the_selected_track_and_follows() {
    let mut app = songs_app();
    assert_eq!(app.process_input(Key::Enter), Command::Nothing);
    app.process_input(Key::Down);
    app.process_input(Key::Down);
    assert_eq!(app.selection_mode(), SelectionMode::Manual);
    assert_eq!(app.process_input(Key::Enter), Command::Play(1));
    assert_eq!(app.current_song_ind(), Some(1));
    assert_eq!(app.selection_mode(), SelectionMode::Follow);
    assert_eq!(app.songs().get_selected(), Some(1));
}

#[test]
fn next_and_previous_wrap_around() {
    let mut app = songs_app();
    assert_eq!(app.process_input(Key::Char('n')), Command::Play(0));
    assert_eq!(app.process_input(Key::Char('n')), Command::Play(1));
    assert_eq!(app.process_input(Key::Char('n')), Command::Play(2));
    assert_eq!(app.process_input(Key::Char('n')), Command::Play(3));
    assert_eq!(app.process_input(Key::Char('n')), Command::Play(0));
    assert_eq!(app.songs().get_selected(), Some(0));
    assert_eq!(app.process_input(Key::Char('b')), Command::Play(3));
    assert_eq!(app.process_input(Key::Char('b')), Command::Play(2));
    assert_eq!(app.current_song_ind(), Some(2));
    let mut fresh = songs_app();
    assert_eq!(fresh.process_input(Key::Char('b')), Command::Play(0));
}

#[test]
fn next_on_an_empty_list_does_nothing() {
    let mut app = ListuiApp::with_tracks("empty".to_string(), Vec::new());
    assert_eq!(app.process_input(Key::Char('n')), Command::Nothing);
    assert_eq!(app.process_input(Key::Char('b')), Command::Nothing);
    assert_eq!(app.play_next(), Command::Nothing);
    assert_eq!(app.current_song_ind(), None);
}

#[test]
fn manual_cursor_decouples_from_the_playing_track() {
    let mut app = songs_app();
    app.process_input(Key::Char('n'));
    app.process_input(Key::Down);
    app.process_input(Key::Down);
    assert_eq!(app.songs().get_selected(), Some(2));
    assert_eq!(app.process_input(Key::Char('n')), Command::Play(1));
    assert_eq!(app.songs().get_selected(), Some(2));
    assert_eq!(app.process_input(Key::Char('f')), Command::Nothing);
    assert_eq!(app.selection_mode(), SelectionMode::Follow);
    assert_eq!(app.songs().get_selected(), Some(1));
}

#[test]
fn player_keys_become_commands() {
    let mut app = songs_app();
    assert_eq!(app.process_input(Key::Left), Command::Rewind(15));
    assert_eq!(app.process_input(Key::Right), Command::Forward(15));
    assert_eq!(app.process_input(Key::Char('p')), Command::TogglePause);
    assert_eq!(app.process_input(Key::Char('+')), Command::IncreaseVolume(10));
    assert_eq!(app.process_input(Key::Char('-')), Command::DecreaseVolume(10));
    assert_eq!(app.process_input(Key::Char('0')), Command::SeekPercentage(0));
    assert_eq!(app.process_input(Key::Char('7')), Command::SeekPercentage(70));
    assert_eq!(app.process_input(Key::Char('9')), Command::SeekPercentage(90));
    assert_eq!(app.process_input(Key::Char('x')), Command::Nothing);
    assert_eq!(app.process_input(Key::Backspace), Command::Nothing);
    assert_eq!(app.process_input(Key::Other), Command::Nothing);
}

#[test]
fn search_takes_the_letters() {
    let mut app = songs_app();
    assert_eq!(app.process_input(Key::Char('s')), Command::Nothing);
    assert!(app.songs().is_filtered());
    assert_eq!(app.songs().found(), &vec![0, 1, 2, 3]);
    letters(&mut app, "ALp");
    assert_eq!(app.search_query(), "ALp");
    assert_eq!(app.songs().query(), Some("alp"));
    assert_eq!(app.songs().found(), &vec![0, 3]);
    letters(&mut app, "q");
    assert_eq!(app.songs().found(), &Vec::<usize>::new());
    assert_eq!(app.process_input(Key::Backspace), Command::Nothing);
    assert_eq!(app.search_query(), "ALp");
    assert_eq!(app.songs().found(), &vec![0, 3]);
    app.process_input(Key::Down);
    app.process_input(Key::Down);
    assert_eq!(app.process_input(Key::Enter), Command::Play(3));
    assert!(!app.songs().is_filtered());
    assert_eq!(app.current_song_ind(), Some(3));
    assert_eq!(app.songs().get_selected(), Some(3));
}

#[test]
fn escape_leaves_the_search() {
    let mut app = songs_app();
    app.process_input(Key::Char('s'));
    letters(&mut app, "beta");
    assert_eq!(app.process_input(Key::Esc), Command::Nothing);
    assert!(!app.songs().is_filtered());
    assert_eq!(app.process_input(Key::Char('p')), Command::TogglePause);
}

#[test]
fn backspace_on_an_empty_query_keeps_the_search() {
    let mut app = songs_app();
    app.process_input(Key::Char('s'));
    assert_eq!(app.process_input(Key::Backspace), Command::Nothing);
    assert!(app.songs().is_filtered());
    assert_eq!(app.search_query(), "");
}

#[test]
fn shuffle_key_stops_playback_and_toggles_the_order() {
    let mut app = songs_app();
    app.process_input(Key::Char('n'));
    assert_eq!(app.process_input(Key::Char('r')), Command::Stop);
    assert_eq!(app.current_song_ind(), None);
    assert!(app.songs().is_shuffled());
    let mut order = app.songs().order().clone();
    order.sort();
    assert_eq!(order, vec![0, 1, 2, 3]);
    assert_eq!(app.process_input(Key::Char('r')), Command::Stop);
    assert!(!app.songs().is_shuffled());
    assert_eq!(app.songs().order(), &vec![0, 1, 2, 3]);
    assert_eq!(app.songs().title(), "Rock");
}

#[test]
fn closing_a_stored_playlist_goes_back() {
    let mut app = songs_app();
    app.process_input(Key::Char('n'));
    assert_eq!(app.process_input(Key::Char('q')), Command::Stop);
    assert!(matches!(app.current_screen(), CurrentScreen::Playlists));
    assert_eq!(app.current_song_ind(), None);
}

#[test]
fn closing_a_local_directory_quits() {
    let mut app = ListuiApp::with_tracks("party".to_string(), vec![track(1, "A")]);
    assert_eq!(app.process_input(Key::Char('q')), Command::StopAndQuit);
}

#[test]
fn finished_song_moves_on() {
    let mut app = songs_app();
    assert!(matches!(
        app.check_message_received(Message::SongFinished),
        MessageCommand::Player(Command::Play(0))
    ));
    assert!(matches!(
        app.check_message_received(Message::SongFinished),
        MessageCommand::Player(Command::Play(1))
    ));
    assert_eq!(app.current_song_ind(), Some(1));
}

#[test]
fn fetched_playlists_go_to_the_store() {
    let mut app = store_app();
    app.show_loading("Fetching playlist...");
    let video = || NewVideo { title: "A".to_string(), yt_id: "a".to_string(), playlist_id: None };
    match app.check_message_received(Message::PlaylistUpdate(Ok((7, vec![video()])))) {
        MessageCommand::ReplaceTracks(id, tracks) => {
            assert_eq!(id, 7);
            assert_eq!(tracks.len(), 1);
        }
        other => panic!("unexpected {:?}", other),
    }
    let new = NewPlaylist { title: "Mix".to_string(), yt_id: "PLm".to_string() };
    match app.check_message_received(Message::NewPlaylist(Ok((new, vec![video(), video()])))) {
        MessageCommand::SavePlaylist(p, tracks) => {
            assert_eq!(p.title, "Mix");
            assert_eq!(tracks.len(), 2);
        }
        other => panic!("unexpected {:?}", other),
    }
    assert!(matches!(app.current_screen(), CurrentScreen::LoadingScreen));
    app.playlist_saved(vec![playlist(1, "Rock"), playlist(2, "Jazz"), playlist(3, "Mix")]);
    assert!(matches!(app.current_screen(), CurrentScreen::Playlists));
    assert_eq!(app.playlists().total_len(), 3);
    assert_eq!(app.playlists().get_selected(), Some(2));
    app.playlist_saved(Vec::new());
    assert_eq!(app.playlists().get_selected(), None);
}

#[test]
fn failed_fetch_is_shown() {
    let mut app = store_app();
    app.show_loading("Fetching playlist...");
    let cmd = app.check_message_received(Message::NewPlaylist(Err(ApiError::NotFoundError(
        "PLx".to_string(),
    ))));
    assert!(matches!(cmd, MessageCommand::Player(Command::Nothing)));
    assert!(matches!(
        app.current_screen(),
        CurrentScreen::ErrorScreen(msg, next)
            if msg == "Couldn't find playlist with id PLx." && matches!(**next, CurrentScreen::Playlists)
    ));
    let mut app = songs_app();
    app.check_message_received(Message::PlaylistUpdate(Err(ApiError::Unknown)));
    assert!(matches!(
        app.current_screen(),
        CurrentScreen::ErrorScreen(msg, next) if msg == "Unknown error." && matches!(**next, CurrentScreen::Songs)
    ));
}

#[test]
fn progress_relabels_the_loading_screen() {
    let mut app = store_app();
    app.check_message_received(Message::DownloadProgress("ignored".to_string()));
    assert_eq!(app.loading_label(), None);
    app.show_loading("Fetching playlist...");
    app.advance_loading();
    app.check_message_received(Message::DownloadProgress("Fetched 50 videos.".to_string()));
    assert_eq!(app.loading_label(), Some("Fetched 50 videos."));
    assert_eq!(app.advance_loading(), Some(1));
}

#[test]
fn loading_songs_resets_the_track_list() {
    let mut app = songs_app();
    app.process_input(Key::Char('n'));
    app.load_songs("Jazz".to_string(), vec![track(9, "Blue")]);
    assert_eq!(app.current_song_ind(), None);
    assert_eq!(app.songs().title(), "Jazz");
    assert_eq!(app.current_playlist(), Some("Jazz"));
    assert_eq!(app.songs().total_len(), 1);
    app.set_playlists(vec![playlist(5, "Only")]);
    assert_eq!(app.playlists().total_len(), 1);
    assert!(matches!(app.current_screen(), CurrentScreen::Songs));
}

#[test]
fn direct_calls_match_the_keys() {
    let mut app = songs_app();
    app.play_ind(2);
    assert_eq!(app.current_song_ind(), Some(2));
    assert_eq!(app.songs().get_selected(), Some(2));
    assert_eq!(app.play_previous(), Command::Play(1));
    app.stop_playing();
    assert_eq!(app.current_song_ind(), None);
    app.activate_follow();
    assert_eq!(app.songs().get_selected(), Some(1));
    app.close_playlist();
    assert!(matches!(app.current_screen(), CurrentScreen::Playlists));
}
