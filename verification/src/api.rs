//! What the remote playlist services are asked and what is kept of their
//! answers. Sending the requests and decoding the answers is the caller's
//! part.

pub mod client;
pub mod invidious_api;
pub mod yt_api;

use vstd::prelude::*;
use vstd::string::*;
use crate::api::invidious_api::Video;
use crate::api::yt_api::{ApiResponse, Item};
use crate::models::{NewPlaylist, NewVideo, NewVideoView};
use crate::utils::{decimal, push_decimal};

verus! {

/// Why a playlist could not be fetched.
#[derive(Debug)]
pub enum ApiError {
    NotFoundError(String),
    RequestError(String),
    DecodingError,
    ParsingError,
    Unknown,
}

/// An error as contracts see it.
pub enum ApiErrorView {
    NotFoundError(Seq<char>),
    RequestError(Seq<char>),
    DecodingError,
    ParsingError,
    Unknown,
}

impl View for ApiError {
    type V = ApiErrorView;

    open spec fn view(&self) -> ApiErrorView {
        match self {
            ApiError::NotFoundError(id) => ApiErrorView::NotFoundError(id@),
            ApiError::RequestError(err) => ApiErrorView::RequestError(err@),
            ApiError::DecodingError => ApiErrorView::DecodingError,
            ApiError::ParsingError => ApiErrorView::ParsingError,
            ApiError::Unknown => ApiErrorView::Unknown,
        }
    }
}

/// What the user is told about an error.
pub open spec fn error_text(e: ApiError) -> Seq<char> {
    match e {
        ApiError::NotFoundError(id) => "Couldn't find playlist with id "@ + id@ + "."@,
        ApiError::RequestError(err) => err@,
        ApiError::DecodingError => "Failed to parse api response."@,
        ApiError::ParsingError => "Failed to parse api response."@,
        ApiError::Unknown => "Unknown error."@,
    }
}

impl ApiError {
    /// What the user is told.
    pub fn message(&self) -> (s: String)
        ensures
            s@ == error_text(*self),
    {
        match self {
            ApiError::NotFoundError(id) => {
                String::from_str("Couldn't find playlist with id ").concat(id.as_str()).concat(".")
            },
            ApiError::RequestError(err) => err.clone(),
            ApiError::DecodingError => String::from_str("Failed to parse api response."),
            ApiError::ParsingError => String::from_str("Failed to parse api response."),
            ApiError::Unknown => String::from_str("Unknown error."),
        }
    }

    /// The error for a request that failed with the given status line, or
    /// without one.
    pub fn from_status(status: Option<String>) -> (e: Self)
        ensures
            match status {
                Some(s) => e == ApiError::RequestError(s),
                None => e == ApiError::Unknown,
            },
    {
        match status {
            Some(s) => ApiError::RequestError(s),
            None => ApiError::Unknown,
        }
    }
}

/// Root of the YouTube data service.
pub open spec fn youtube_api_url() -> Seq<char> {
    "https://www.googleapis.com/youtube/v3"@
}

/// Address that answers with the title of playlist `yt_id`.
pub open spec fn playlist_info_address(api_key: Seq<char>, yt_id: Seq<char>) -> Seq<char> {
    youtube_api_url() + "/playlists?part=snippet&key="@ + api_key + "&id="@ + yt_id
}

/// Address that answers with one page of the entries of a playlist: the
/// first page, or the one that `page_token` names.
pub open spec fn playlist_items_address(
    api_key: Seq<char>,
    playlist_id: Seq<char>,
    page_token: Option<Seq<char>>,
) -> Seq<char> {
    let first = youtube_api_url() + "/playlistItems?maxResults=50&part=snippet&key="@ + api_key
        + "&playlistId="@ + playlist_id;
    match page_token {
        Some(token) => first + "&pageToken="@ + token,
        None => first,
    }
}

/// A page number in decimal digits, with its sign if negative.
pub open spec fn page_text(page: int) -> Seq<char> {
    if page < 0 {
        seq!['-'] + decimal((-page) as nat)
    } else {
        decimal(page as nat)
    }
}

/// Address that answers with page `page` of playlist `yt_id` on an
/// Invidious instance.
pub open spec fn invidious_address(instance: Seq<char>, yt_id: Seq<char>, page: int) -> Seq<char> {
    instance + "/api/v1/playlists/"@ + yt_id + "?page="@ + page_text(page)
}

pub fn playlist_info_url(api_key: &str, yt_id: &str) -> (url: String)
    ensures
        url@ == playlist_info_address(api_key@, yt_id@),
{
    String::from_str("https://www.googleapis.com/youtube/v3").concat(
        "/playlists?part=snippet&key=",
    ).concat(api_key).concat("&id=").concat(yt_id)
}

pub fn playlist_items_url(api_key: &str, playlist_id: &str, page_token: Option<&str>) -> (url:
    String)
    ensures
        url@ == playlist_items_address(
            api_key@,
            playlist_id@,
            match page_token {
                Some(t) => Some(t@),
                None => None,
            },
        ),
{
    let first = String::from_str("https://www.googleapis.com/youtube/v3").concat(
        "/playlistItems?maxResults=50&part=snippet&key=",
    ).concat(api_key).concat("&playlistId=").concat(playlist_id);
    match page_token {
        Some(token) => first.concat("&pageToken=").concat(token),
        None => first,
    }
}

pub fn invidious_playlist_url(instance: &str, yt_id: &str, page: i32) -> (url: String)
    ensures
        url@ == invidious_address(instance@, yt_id@, page as int),
{
    let mut url = String::from_str(instance).concat("/api/v1/playlists/").concat(yt_id).concat(
        "?page=",
    );
    let ghost head = url@;
    if page < 0 {
        url.push('-');
        push_decimal(&mut url, (-(page as i64)) as u32);
    } else {
        push_decimal(&mut url, page as u32);
    }
    assert(url@ =~= head + page_text(page as int));
    url
}

/// The addresses of the Invidious instances, in the order in which they
/// are tried.
pub open spec fn instance_addresses() -> Seq<Seq<char>> {
    seq![
        "https://vid.puffyan.us"@,
        "https://y.com.sb"@,
        "https://invidious.nerdvpn.de"@,
        "https://invidious.tiekoetter.com"@,
        "https://inv.bp.projectsegfau.lt"@,
    ]
}

/// The Invidious instances that are tried, in this order.
pub fn invidious_instances() -> (list: Vec<String>)
    ensures
        list.deep_view() == instance_addresses(),
{
    let mut list: Vec<String> = Vec::new();
    list.push(String::from_str("https://vid.puffyan.us"));
    list.push(String::from_str("https://y.com.sb"));
    list.push(String::from_str("https://invidious.nerdvpn.de"));
    list.push(String::from_str("https://invidious.tiekoetter.com"));
    list.push(String::from_str("https://inv.bp.projectsegfau.lt"));
    assert(list.deep_view() =~= instance_addresses());
    list
}

/// The playlist that an answer to a request for the title of `yt_id`
/// describes: the answer must hold exactly one playlist.
pub fn playlist_from_info(content: ApiResponse, yt_id: &str) -> (r: Result<NewPlaylist, ApiError>)
    ensures
        content.items.len() == 1 ==> (r matches Ok(p) && p.title@ == content.items[0].snippet.title@
            && p.yt_id@ == content.items[0].id@),
        content.items.len() != 1 ==> (r matches Err(ApiError::NotFoundError(id)) && id@ == yt_id@),
{
    if content.items.len() == 1 {
        let item = &content.items[0];
        Ok(NewPlaylist { title: item.snippet.title.clone(), yt_id: item.id.clone() })
    } else {
        Err(ApiError::NotFoundError(String::from_str(yt_id)))
    }
}

/// Whether an entry of a YouTube playlist is kept: it is neither deleted
/// nor private and names its video.
pub open spec fn keeps_item() -> spec_fn(Item) -> bool {
    |item: Item|
        item.snippet.title@ != "Deleted video"@ && item.snippet.title@ != "Private video"@
            && item.snippet.resource_id is Some
}

/// The video that a kept entry of a YouTube playlist stands for.
pub open spec fn video_of_item() -> spec_fn(Item) -> NewVideoView {
    |item: Item|
        NewVideoView {
            title: item.snippet.title@,
            yt_id: item.snippet.resource_id->0.video_id@,
            playlist_id: None,
        }
}

/// The videos of one page of a YouTube playlist, in the page's order.
pub open spec fn videos_of_items(items: Seq<Item>) -> Seq<NewVideoView> {
    items.filter(keeps_item()).map_values(video_of_item())
}

/// The views of a list of videos.
pub open spec fn video_views(videos: Seq<NewVideo>) -> Seq<NewVideoView> {
    videos.map_values(|v: NewVideo| v@)
}

/// Adds the videos of one page of a YouTube playlist to `videos`.
pub fn extend_with_items(videos: &mut Vec<NewVideo>, items: &Vec<Item>)
    ensures
        video_views(final(videos)@) == video_views(old(videos)@) + videos_of_items(items@),
{
    let ghost before = video_views(videos@);
    let ghost keep = keeps_item();
    let ghost make = video_of_item();
    let mut i: usize = 0;
    assert(items@.take(0).filter(keep) =~= Seq::<Item>::empty()) by {
        reveal(Seq::filter);
    }
    assert(video_views(videos@) =~= before + videos_of_items(items@.take(0)));
    while i < items.len()
        invariant
            i <= items.len(),
            keep == keeps_item(),
            make == video_of_item(),
            video_views(videos@) == before + videos_of_items(items@.take(i as int)),
        decreases items.len() - i,
    {
        let item = &items[i];
        let ghost done = items@.take(i as int);
        proof {
            assert(items@.take(i + 1) =~= done.push(*item));
            done.lemma_filter_push(*item, keep);
        }
        let deleted = item.snippet.title.as_str().eq("Deleted video");
        let private = item.snippet.title.as_str().eq("Private video");
        if !deleted && !private {
            match &item.snippet.resource_id {
                Some(resource) => {
                    let ghost earlier = videos@;
                    let video = NewVideo {
                        title: item.snippet.title.clone(),
                        yt_id: resource.video_id.clone(),
                        playlist_id: None,
                    };
                    videos.push(video);
                    proof {
                        assert(keep(*item));
                        assert(video@ == make(*item));
                        assert(video_views(videos@) =~= video_views(earlier).push(video@));
                        assert(done.push(*item).filter(keep).map_values(make) =~= done.filter(
                            keep,
                        ).map_values(make).push(make(*item)));
                    }
                },
                None => {},
            }
        }
        i += 1;
    }
    proof {
        assert(items@.take(items.len() as int) =~= items@);
    }
}

/// Whether a video of an Invidious page is kept: it comes after the last
/// one taken from the page before, and is neither deleted nor private.
pub open spec fn keeps_video(last_index: int) -> spec_fn(Video) -> bool {
    |v: Video|
        v.index > last_index && v.title@ != "[Deleted video]"@ && v.title@ != "[Private video]"@
}

/// The video that a kept entry of an Invidious page stands for.
pub open spec fn video_of_entry() -> spec_fn(Video) -> NewVideoView {
    |v: Video| NewVideoView { title: v.title@, yt_id: v.video_id@, playlist_id: None }
}

/// The videos of one page of an Invidious playlist, in the page's order.
pub open spec fn videos_of_entries(entries: Seq<Video>, last_index: int) -> Seq<NewVideoView> {
    entries.filter(keeps_video(last_index)).map_values(video_of_entry())
}

/// Where the fetching of an Invidious playlist stands.
#[derive(Clone, Copy, Debug, PartialEq, Eq, Structural)]
pub struct InvidiousPaging {
    /// The page to ask for next.
    pub page: i32,
    /// Place in the playlist of the last video of the page before. The
    /// service may repeat videos on the next page; they are told by their
    /// place.
    pub last_index: i32,
}

impl InvidiousPaging {
    /// The state after a page with these entries.
    pub open spec fn after(self, entries: Seq<Video>) -> Self {
        if entries.len() == 0 || self.page == i32::MAX {
            self
        } else {
            InvidiousPaging { page: (self.page + 1) as i32, last_index: entries.last().index }
        }
    }

    /// Whether a further page is to be asked for after a page with these
    /// entries: an empty page ends the playlist.
    pub open spec fn goes_on(self, entries: Seq<Video>) -> bool {
        entries.len() > 0 && self.page < i32::MAX
    }

    /// Before the first page.
    pub fn new() -> (p: Self)
        ensures
            p.page == 1,
            p.last_index == -1,
    {
        InvidiousPaging { page: 1, last_index: -1 }
    }

    /// Takes in one page: adds its videos to `videos`, leaving out those
    /// seen on the page before, and returns whether to ask for a further
    /// page.
    pub fn absorb(&mut self, videos: &mut Vec<NewVideo>, entries: &Vec<Video>) -> (more: bool)
        ensures
            more == old(self).goes_on(entries@),
            *final(self) == old(self).after(entries@),
            entries.len() == 0 ==> video_views(final(videos)@) == video_views(old(videos)@),
            entries.len() > 0 ==> video_views(final(videos)@) == video_views(old(videos)@)
                + videos_of_entries(entries@, old(self).last_index as int),
    {
        if entries.len() == 0 {
            return false;
        }
        let last_index = self.last_index;
        let ghost before = video_views(videos@);
        let ghost keep = keeps_video(last_index as int);
        let ghost make = video_of_entry();
        let mut i: usize = 0;
        assert(entries@.take(0).filter(keep) =~= Seq::<Video>::empty()) by {
            reveal(Seq::filter);
        }
        assert(video_views(videos@) =~= before + videos_of_entries(
            entries@.take(0),
            last_index as int,
        ));
        while i < entries.len()
            invariant
                i <= entries.len(),
                keep == keeps_video(last_index as int),
                make == video_of_entry(),
                video_views(videos@) == before + videos_of_entries(
                    entries@.take(i as int),
                    last_index as int,
                ),
            decreases entries.len() - i,
        {
            let entry = &entries[i];
            let ghost done = entries@.take(i as int);
            proof {
                assert(entries@.take(i + 1) =~= done.push(*entry));
                done.lemma_filter_push(*entry, keep);
            }
            let deleted = entry.title.as_str().eq("[Deleted video]");
            let private = entry.title.as_str().eq("[Private video]");
            if entry.index > last_index && !deleted && !private {
                let ghost earlier = videos@;
                let video = NewVideo {
                    title: entry.title.clone(),
                    yt_id: entry.video_id.clone(),
                    playlist_id: None,
                };
                videos.push(video);
                proof {
                    assert(keep(*entry));
                    assert(video@ == make(*entry));
                    assert(video_views(videos@) =~= video_views(earlier).push(video@));
                    assert(done.push(*entry).filter(keep).map_values(make) =~= done.filter(
                        keep,
                    ).map_values(make).push(make(*entry)));
                }
            }
            i += 1;
        }
        proof {
            assert(entries@.take(entries.len() as int) =~= entries@);
        }
        if self.page == i32::MAX {
            return false;
        }
        self.last_index = entries[entries.len() - 1].index;
        self.page = self.page + 1;
        true
    }
}

} // verus!
