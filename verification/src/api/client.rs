//! The fetching of one playlist, request by request. The client says which
//! address to ask next; the caller sends the request, decodes the answer
//! and hands it back.

use vstd::prelude::*;
use vstd::string::*;
use crate::api::invidious_api::PlaylistResponse;
use crate::api::yt_api::ApiResponse;
use crate::api::{
    extend_with_items, instance_addresses, invidious_address, invidious_instances,
    invidious_playlist_url, playlist_from_info, playlist_items_address, playlist_items_url,
    playlist_info_address, playlist_info_url, video_views, videos_of_entries, videos_of_items,
    ApiError, ApiErrorView, InvidiousPaging,
};
use crate::models::{opt_text, NewPlaylist, NewPlaylistView, NewVideo, NewVideoView};

verus! {

/// The decoded answer of one of the two services.
#[derive(Debug)]
pub enum Page {
    Youtube(ApiResponse),
    Invidious(PlaylistResponse),
}

/// Where the fetching of a playlist stands.
#[derive(Clone, Copy, Debug, PartialEq, Eq, Structural)]
pub enum FetchPhase {
    /// Nothing was asked yet.
    Idle,
    /// The title of the playlist was asked for.
    Info,
    /// A page of the entries of the playlist was asked for.
    Items,
    /// A page of the playlist was asked of an Invidious instance.
    Invidious,
    /// The fetch has ended.
    Done,
}

/// What the caller has to do next.
#[derive(Debug)]
pub enum FetchAction {
    /// Request `url` and hand back the answer, decoded as an answer of the
    /// YouTube data service if `youtube` is set, of Invidious otherwise.
    Get { url: String, youtube: bool },
    /// The fetch has ended, with the playlist and its videos or with the
    /// reason why there are none.
    Done(Result<(NewPlaylist, Vec<NewVideo>), ApiError>),
}

/// A `FetchAction` as contracts see it.
pub enum ActionView {
    Get { url: Seq<char>, youtube: bool },
    Fetched(NewPlaylistView, Seq<NewVideoView>),
    Failed(ApiErrorView),
}

impl View for FetchAction {
    type V = ActionView;

    open spec fn view(&self) -> ActionView {
        match self {
            FetchAction::Get { url, youtube } => ActionView::Get { url: url@, youtube: *youtube },
            FetchAction::Done(Ok((playlist, videos))) => ActionView::Fetched(
                playlist@,
                video_views(videos@),
            ),
            FetchAction::Done(Err(e)) => ActionView::Failed(e@),
        }
    }
}

/// The client as contracts see it.
pub struct ClientView {
    /// The key of the YouTube data service; without one, Invidious is
    /// asked.
    pub api_key: Option<Seq<char>>,
    /// The playlist that is being fetched.
    pub yt_id: Seq<char>,
    pub phase: FetchPhase,
    /// Title and identifier of the playlist, once known.
    pub playlist: Option<NewPlaylistView>,
    /// The videos gathered so far.
    pub videos: Seq<NewVideoView>,
    pub paging: InvidiousPaging,
    /// The Invidious instance that is being asked.
    pub instance: nat,
}

impl ClientView {
    pub open spec fn wf(self) -> bool {
        &&& (self.phase == FetchPhase::Info || self.phase == FetchPhase::Items)
            ==> self.api_key is Some
        &&& self.phase == FetchPhase::Items ==> self.playlist is Some
        &&& self.phase == FetchPhase::Invidious ==> self.instance < instance_addresses().len()
    }

    /// The client at rest, with nothing gathered.
    pub open spec fn at_rest(self, phase: FetchPhase) -> Self {
        ClientView {
            phase,
            playlist: None,
            videos: Seq::empty(),
            paging: InvidiousPaging { page: 1i32, last_index: -1i32 },
            instance: 0,
            ..self
        }
    }

    /// The client once it has ended with `e`.
    pub open spec fn failed(self, e: ApiErrorView) -> (Self, ActionView) {
        (self.at_rest(FetchPhase::Done), ActionView::Failed(e))
    }

    /// The first request for playlist `yt_id`.
    pub open spec fn fetch_playlist(self, yt_id: Seq<char>) -> (Self, ActionView) {
        let fresh = ClientView { yt_id, ..self.at_rest(FetchPhase::Idle) };
        match self.api_key {
            Some(key) => (
                ClientView { phase: FetchPhase::Info, ..fresh },
                ActionView::Get { url: playlist_info_address(key, yt_id), youtube: true },
            ),
            None => (
                ClientView { phase: FetchPhase::Invidious, ..fresh },
                ActionView::Get {
                    url: invidious_address(instance_addresses()[0], yt_id, 1),
                    youtube: false,
                },
            ),
        }
    }

    /// After the answer to the request for the title.
    pub open spec fn info_answered(self, content: ApiResponse) -> (Self, ActionView) {
        if content.items.len() == 1 {
            let playlist = NewPlaylistView {
                title: content.items[0].snippet.title@,
                yt_id: content.items[0].id@,
            };
            (
                ClientView { phase: FetchPhase::Items, playlist: Some(playlist), ..self },
                ActionView::Get {
                    url: playlist_items_address(self.api_key->0, playlist.yt_id, None),
                    youtube: true,
                },
            )
        } else {
            self.failed(ApiErrorView::NotFoundError(self.yt_id))
        }
    }

    /// After a page of entries: on to the page that the answer names, or
    /// done.
    pub open spec fn items_answered(self, content: ApiResponse) -> (Self, ActionView) {
        let videos = self.videos + videos_of_items(content.items@);
        match content.next_page_token {
            Some(token) => (
                ClientView { videos, ..self },
                ActionView::Get {
                    url: playlist_items_address(
                        self.api_key->0,
                        self.playlist->0.yt_id,
                        Some(token@),
                    ),
                    youtube: true,
                },
            ),
            None => (
                self.at_rest(FetchPhase::Done),
                ActionView::Fetched(self.playlist->0, videos),
            ),
        }
    }

    /// After a page of an Invidious instance: on to the next page, or,
    /// after an empty page, done.
    pub open spec fn invidious_answered(self, content: PlaylistResponse) -> (Self, ActionView) {
        let playlist = NewPlaylistView { title: content.title@, yt_id: content.playlist_id@ };
        let videos = if content.videos.len() > 0 {
            self.videos + videos_of_entries(content.videos@, self.paging.last_index as int)
        } else {
            self.videos
        };
        let paging = self.paging.after(content.videos@);
        if self.paging.goes_on(content.videos@) {
            (
                ClientView { playlist: Some(playlist), videos, paging, ..self },
                ActionView::Get {
                    url: invidious_address(
                        instance_addresses()[self.instance as int],
                        self.yt_id,
                        paging.page as int,
                    ),
                    youtube: false,
                },
            )
        } else {
            (self.at_rest(FetchPhase::Done), ActionView::Fetched(playlist, videos))
        }
    }

    /// After an Invidious instance failed: the next instance is asked from
    /// the first page on; after the last instance the fetch has failed as
    /// that one did.
    pub open spec fn instance_failed(self, e: ApiErrorView) -> (Self, ActionView) {
        if self.instance + 1 < instance_addresses().len() {
            (
                ClientView {
                    instance: self.instance + 1,
                    ..self.at_rest(FetchPhase::Invidious)
                },
                ActionView::Get {
                    url: invidious_address(
                        instance_addresses()[self.instance + 1 as int],
                        self.yt_id,
                        1,
                    ),
                    youtube: false,
                },
            )
        } else {
            self.failed(e)
        }
    }

    /// After an answer. An answer of the wrong service counts as one that
    /// could not be parsed; an answer that nothing asked for ends the fetch
    /// with an unknown error.
    pub open spec fn answer(self, page: Result<Page, ApiError>) -> (Self, ActionView) {
        match self.phase {
            FetchPhase::Info => match page {
                Ok(Page::Youtube(content)) => self.info_answered(content),
                Ok(Page::Invidious(_)) => self.failed(ApiErrorView::ParsingError),
                Err(e) => self.failed(e@),
            },
            FetchPhase::Items => match page {
                Ok(Page::Youtube(content)) => self.items_answered(content),
                Ok(Page::Invidious(_)) => self.failed(ApiErrorView::ParsingError),
                Err(e) => self.failed(e@),
            },
            FetchPhase::Invidious => match page {
                Ok(Page::Invidious(content)) => self.invidious_answered(content),
                Ok(Page::Youtube(_)) => self.instance_failed(ApiErrorView::ParsingError),
                Err(e) => self.instance_failed(e@),
            },
            _ => self.failed(ApiErrorView::Unknown),
        }
    }
}

/// Fetches playlists from YouTube, with a key for its data service, or
/// from the Invidious instances, one after the other until one answers.
pub struct ApiClient {
    api_key: Option<String>,
    yt_id: String,
    phase: FetchPhase,
    playlist: Option<NewPlaylist>,
    videos: Vec<NewVideo>,
    paging: InvidiousPaging,
    instance: usize,
}

impl ApiClient {
    pub closed spec fn view(&self) -> ClientView {
        ClientView {
            api_key: opt_text(self.api_key),
            yt_id: self.yt_id@,
            phase: self.phase,
            playlist: match self.playlist {
                Some(p) => Some(p@),
                None => None,
            },
            videos: video_views(self.videos@),
            paging: self.paging,
            instance: self.instance as nat,
        }
    }

    pub open spec fn wf(&self) -> bool {
        self@.wf()
    }

    /// A client that has asked nothing yet.
    fn idle(api_key: Option<String>) -> (c: Self)
        ensures
            c.wf(),
            c@ == (ClientView {
                api_key: opt_text(api_key),
                yt_id: Seq::empty(),
                phase: FetchPhase::Idle,
                playlist: None,
                videos: Seq::empty(),
                paging: InvidiousPaging { page: 1i32, last_index: -1i32 },
                instance: 0,
            }),
    {
        let c = ApiClient {
            api_key,
            yt_id: String::new(),
            phase: FetchPhase::Idle,
            playlist: None,
            videos: Vec::new(),
            paging: InvidiousPaging::new(),
            instance: 0,
        };
        assert(video_views(c.videos@) =~= Seq::empty());
        c
    }

    /// A client of the YouTube data service.
    pub fn from_youtube(api_key: String) -> (c: Self)
        ensures
            c.wf(),
            c@.api_key == Some(api_key@),
            c@.phase == FetchPhase::Idle,
            c@ == c@.at_rest(FetchPhase::Idle),
    {
        Self::idle(Some(api_key))
    }

    /// A client of the Invidious instances.
    pub fn from_invidious() -> (c: Self)
        ensures
            c.wf(),
            c@.api_key is None,
            c@.phase == FetchPhase::Idle,
            c@ == c@.at_rest(FetchPhase::Idle),
    {
        Self::idle(None)
    }

    /// Forgets what was gathered and goes to `phase`.
    fn rest(&mut self, phase: FetchPhase)
        requires
            phase == FetchPhase::Idle || phase == FetchPhase::Done || phase
                == FetchPhase::Invidious,
        ensures
            final(self)@ == old(self)@.at_rest(phase),
            final(self).wf(),
    {
        self.phase = phase;
        self.playlist = None;
        self.videos = Vec::new();
        self.paging = InvidiousPaging::new();
        self.instance = 0;
        assert(video_views(self.videos@) =~= Seq::empty());
    }

    /// Ends the fetch with `e`.
    fn fail(&mut self, e: ApiError) -> (action: FetchAction)
        ensures
            final(self).wf(),
            (final(self)@, action@) == old(self)@.failed(e@),
    {
        self.rest(FetchPhase::Done);
        FetchAction::Done(Err(e))
    }

    /// Ends the fetch with `playlist` and the videos gathered.
    fn finish(&mut self, playlist: NewPlaylist) -> (action: FetchAction)
        ensures
            final(self).wf(),
            final(self)@ == old(self)@.at_rest(FetchPhase::Done),
            action@ == ActionView::Fetched(playlist@, old(self)@.videos),
    {
        let mut videos: Vec<NewVideo> = Vec::new();
        std::mem::swap(&mut self.videos, &mut videos);
        self.rest(FetchPhase::Done);
        FetchAction::Done(Ok((playlist, videos)))
    }

    /// Asks the Invidious instance number `instance` for the page that
    /// the paging names.
    fn ask_instance(&self) -> (action: FetchAction)
        requires
            self.instance < instance_addresses().len(),
        ensures
            action@ == (ActionView::Get {
                url: invidious_address(
                    instance_addresses()[self.instance as int],
                    self@.yt_id,
                    self@.paging.page as int,
                ),
                youtube: false,
            }),
    {
        let instances = invidious_instances();
        assert(instances.deep_view().len() == instances.len());
        assert(instances.deep_view()[self.instance as int] == instances[self.instance as int]@);
        FetchAction::Get {
            url: invidious_playlist_url(
                instances[self.instance].as_str(),
                self.yt_id.as_str(),
                self.paging.page,
            ),
            youtube: false,
        }
    }

    /// Starts to fetch the playlist `yt_id` and says what to request first.
    /// Whatever was being fetched before is given up.
    pub fn fetch_playlist(&mut self, yt_id: &str) -> (action: FetchAction)
        ensures
            final(self).wf(),
            (final(self)@, action@) == old(self)@.fetch_playlist(yt_id@),
    {
        self.rest(FetchPhase::Idle);
        self.yt_id = String::from_str(yt_id);
        match &self.api_key {
            Some(key) => {
                let url = playlist_info_url(key.as_str(), yt_id);
                self.phase = FetchPhase::Info;
                FetchAction::Get { url, youtube: true }
            },
            None => {
                self.phase = FetchPhase::Invidious;
                proof {
                    assert(instance_addresses().len() == 5);
                }
                self.ask_instance()
            },
        }
    }

    /// After an Invidious instance failed with `e`.
    fn next_instance(&mut self, e: ApiError) -> (action: FetchAction)
        requires
            old(self)@.phase == FetchPhase::Invidious,
            old(self).wf(),
        ensures
            final(self).wf(),
            (final(self)@, action@) == old(self)@.instance_failed(e@),
    {
        proof {
            assert(instance_addresses().len() == 5);
        }
        if self.instance + 1 < 5 {
            let next = self.instance + 1;
            self.rest(FetchPhase::Invidious);
            self.instance = next;
            self.ask_instance()
        } else {
            self.fail(e)
        }
    }

    /// Takes in the answer to the last request and says what to do next.
    ///
    /// With a key, the title of the playlist is asked for first, then its
    /// entries page by page; entries that are deleted, private or without
    /// a video are left out. Without a key, the playlist is read page by
    /// page from the first Invidious instance that answers; videos that a
    /// page repeats are left out, and an empty page ends the playlist.
    pub fn answer(&mut self, page: Result<Page, ApiError>) -> (action: FetchAction)
        requires
            old(self).wf(),
        ensures
            final(self).wf(),
            (final(self)@, action@) == old(self)@.answer(page),
    {
        match self.phase {
            FetchPhase::Info => match page {
                Ok(Page::Youtube(content)) => {
                    let ghost items = content.items@;
                    match playlist_from_info(content, self.yt_id.as_str()) {
                        Ok(playlist) => {
                            let url = match &self.api_key {
                                Some(key) => playlist_items_url(
                                    key.as_str(),
                                    playlist.yt_id.as_str(),
                                    None,
                                ),
                                None => String::new(),
                            };
                            self.playlist = Some(playlist);
                            self.phase = FetchPhase::Items;
                            FetchAction::Get { url, youtube: true }
                        },
                        Err(e) => self.fail(e),
                    }
                },
                Ok(Page::Invidious(_)) => self.fail(ApiError::ParsingError),
                Err(e) => self.fail(e),
            },
            FetchPhase::Items => match page {
                Ok(Page::Youtube(content)) => {
                    extend_with_items(&mut self.videos, &content.items);
                    match content.next_page_token {
                        Some(token) => {
                            let url = match (&self.api_key, &self.playlist) {
                                (Some(key), Some(playlist)) => playlist_items_url(
                                    key.as_str(),
                                    playlist.yt_id.as_str(),
                                    Some(token.as_str()),
                                ),
                                _ => String::new(),
                            };
                            FetchAction::Get { url, youtube: true }
                        },
                        None => {
                            match self.playlist.take() {
                                Some(playlist) => self.finish(playlist),
                                None => self.fail(ApiError::Unknown),
                            }
                        },
                    }
                },
                Ok(Page::Invidious(_)) => self.fail(ApiError::ParsingError),
                Err(e) => self.fail(e),
            },
            FetchPhase::Invidious => match page {
                Ok(Page::Invidious(content)) => {
                    let playlist = NewPlaylist {
                        title: content.title,
                        yt_id: content.playlist_id,
                    };
                    let more = self.paging.absorb(&mut self.videos, &content.videos);
                    if more {
                        self.playlist = Some(playlist);
                        self.ask_instance()
                    } else {
                        self.finish(playlist)
                    }
                },
                Ok(Page::Youtube(_)) => self.next_instance(ApiError::ParsingError),
                Err(e) => self.next_instance(e),
            },
            _ => self.fail(ApiError::Unknown),
        }
    }

    pub fn phase(&self) -> (p: FetchPhase)
        ensures
            p == self@.phase,
    {
        self.phase
    }

    /// Number of videos gathered so far.
    pub fn video_count(&self) -> (n: usize)
        ensures
            n == self@.videos.len(),
    {
        self.videos.len()
    }
}

} // verus!
