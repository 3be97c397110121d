//! The answers of the YouTube data service.

use vstd::prelude::*;

verus! {

#[derive(Debug)]
pub struct PageInfo {
    pub total_results: i32,
    pub results_per_page: i32,
}

#[derive(Debug)]
pub struct ResourceId {
    pub kind: String,
    pub video_id: String,
}

#[derive(Debug)]
pub struct Snippet {
    pub title: String,
    pub resource_id: Option<ResourceId>,
}

#[derive(Debug)]
pub struct Item {
    pub snippet: Snippet,
    pub id: String,
}

/// One page of playlists or of playlist entries.
#[derive(Debug)]
pub struct ApiResponse {
    pub page_info: PageInfo,
    pub items: Vec<Item>,
    pub next_page_token: Option<String>,
}

} // verus!
