//! The answers of an Invidious instance.

use vstd::prelude::*;

verus! {

#[derive(Debug)]
pub struct Video {
    pub title: String,
    pub video_id: String,
    /// Place of the video in its playlist.
    pub index: i32,
}

/// One page of a playlist.
#[derive(Debug)]
pub struct PlaylistResponse {
    pub title: String,
    pub playlist_id: String,
    pub videos: Vec<Video>,
}

} // verus!
