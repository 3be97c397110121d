//! Playlists and tracks as the store and the remote service hand them over.

use vstd::prelude::*;
use vstd::string::*;

verus! {

/// Something that a list can show as one line of text.
pub trait Drawable {
    /// The line of text, as contracts see it.
    spec fn text_view(&self) -> Seq<char>;

    /// The line of text.
    fn get_text(&self) -> (s: &str)
        ensures
            s@ == self.text_view(),
    ;
}

/// A copy of an optional string.
pub fn clone_opt_string(s: &Option<String>) -> (r: Option<String>)
    ensures
        r == *s,
{
    match s {
        Some(x) => Some(x.clone()),
        None => None,
    }
}

/// The text of an optional string.
pub open spec fn opt_text(s: Option<String>) -> Option<Seq<char>> {
    match s {
        Some(x) => Some(x@),
        None => None,
    }
}

/// A track as contracts see it.
pub struct TrackView {
    pub id: int,
    pub title: Seq<char>,
    pub yt_id: Option<Seq<char>>,
    pub playlist_id: Option<int>,
}

/// A stored track. `yt_id` is the source it can be downloaded from; a track
/// of a local directory has none.
#[derive(Debug)]
pub struct Track {
    pub id: i32,
    pub title: String,
    pub yt_id: Option<String>,
    pub playlist_id: Option<i32>,
}

impl View for Track {
    type V = TrackView;

    open spec fn view(&self) -> TrackView {
        TrackView {
            id: self.id as int,
            title: self.title@,
            yt_id: opt_text(self.yt_id),
            playlist_id: match self.playlist_id {
                Some(p) => Some(p as int),
                None => None,
            },
        }
    }
}

impl Clone for Track {
    fn clone(&self) -> (r: Self)
        ensures
            r == *self,
    {
        Track {
            id: self.id,
            title: self.title.clone(),
            yt_id: clone_opt_string(&self.yt_id),
            playlist_id: self.playlist_id,
        }
    }
}

impl Drawable for Track {
    open spec fn text_view(&self) -> Seq<char> {
        self.title@
    }

    fn get_text(&self) -> (s: &str) {
        self.title.as_str()
    }
}

/// A stored playlist.
#[derive(Debug)]
pub struct Playlist {
    pub id: i32,
    pub title: String,
    pub yt_id: String,
}

impl Clone for Playlist {
    fn clone(&self) -> (r: Self)
        ensures
            r == *self,
    {
        Playlist { id: self.id, title: self.title.clone(), yt_id: self.yt_id.clone() }
    }
}

impl Drawable for Playlist {
    open spec fn text_view(&self) -> Seq<char> {
        self.title@
    }

    fn get_text(&self) -> (s: &str) {
        self.title.as_str()
    }
}

/// A track that is not stored yet, as contracts see it.
pub struct NewVideoView {
    pub title: Seq<char>,
    pub yt_id: Seq<char>,
    pub playlist_id: Option<int>,
}

/// A track that is not stored yet.
#[derive(Debug)]
pub struct NewVideo {
    pub title: String,
    pub yt_id: String,
    pub playlist_id: Option<i32>,
}

impl View for NewVideo {
    type V = NewVideoView;

    open spec fn view(&self) -> NewVideoView {
        NewVideoView {
            title: self.title@,
            yt_id: self.yt_id@,
            playlist_id: match self.playlist_id {
                Some(p) => Some(p as int),
                None => None,
            },
        }
    }
}

/// A playlist that is not stored yet, as contracts see it.
pub struct NewPlaylistView {
    pub title: Seq<char>,
    pub yt_id: Seq<char>,
}

/// A playlist that is not stored yet.
#[derive(Debug)]
pub struct NewPlaylist {
    pub title: String,
    pub yt_id: String,
}

impl View for NewPlaylist {
    type V = NewPlaylistView;

    open spec fn view(&self) -> NewPlaylistView {
        NewPlaylistView { title: self.title@, yt_id: self.yt_id@ }
    }
}

} // verus!
