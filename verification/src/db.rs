//! The rules of the playlist store that do not need the database itself.

use vstd::prelude::*;
use vstd::string::*;
use crate::models::{NewVideo, NewVideoView};

verus! {

/// Why the store could not do what it was asked.
#[derive(Clone, Copy, Debug, PartialEq, Eq, Structural)]
pub enum DbError {
    UnknownError,
    UniqueViolation,
    NotFoundError,
    ConnectionError,
    MigrationError,
}

/// What the user is told about an error of the store.
pub open spec fn error_text(e: DbError) -> Seq<char> {
    match e {
        DbError::UnknownError => "An unknown error happened."@,
        DbError::UniqueViolation => "Playlist already present."@,
        DbError::NotFoundError => "Item not found."@,
        DbError::ConnectionError => "Failed to connect to database."@,
        DbError::MigrationError => "Failed to run database migrations."@,
    }
}

impl DbError {
    /// What the user is told.
    pub fn message(&self) -> (s: String)
        ensures
            s@ == error_text(*self),
    {
        match self {
            DbError::UnknownError => String::from_str("An unknown error happened."),
            DbError::UniqueViolation => String::from_str("Playlist already present."),
            DbError::NotFoundError => String::from_str("Item not found."),
            DbError::ConnectionError => String::from_str("Failed to connect to database."),
            DbError::MigrationError => String::from_str("Failed to run database migrations."),
        }
    }
}

/// The error for a statement that the database refused: a second playlist
/// with the same source is told apart from everything else.
pub fn convert_err(unique_violation: bool) -> (e: DbError)
    ensures
        e == if unique_violation {
            DbError::UniqueViolation
        } else {
            DbError::UnknownError
        },
{
    if unique_violation {
        DbError::UniqueViolation
    } else {
        DbError::UnknownError
    }
}

/// How the deletion of a playlist ended, given the number of rows that
/// went: none means that there was no such playlist.
pub fn deletion_outcome(deleted_rows: usize) -> (r: Result<(), DbError>)
    ensures
        r == if deleted_rows == 0 {
            Err::<(), DbError>(DbError::NotFoundError)
        } else {
            Ok::<(), DbError>(())
        },
{
    if deleted_rows == 0 {
        Err(DbError::NotFoundError)
    } else {
        Ok(())
    }
}

/// The videos as tracks of playlist `playlist_id`, in the same order.
pub fn assign_playlist(videos: Vec<NewVideo>, playlist_id: i32) -> (assigned: Vec<NewVideo>)
    ensures
        assigned.len() == videos.len(),
        forall|i: int|
            0 <= i < videos.len() ==> (#[trigger] assigned[i])@ == (NewVideoView {
                playlist_id: Some(playlist_id as int),
                ..videos[i]@
            }),
{
    let mut assigned: Vec<NewVideo> = Vec::new();
    let mut i: usize = 0;
    while i < videos.len()
        invariant
            i <= videos.len(),
            assigned.len() == i,
            forall|k: int|
                0 <= k < i ==> (#[trigger] assigned[k])@ == (NewVideoView {
                    playlist_id: Some(playlist_id as int),
                    ..videos[k]@
                }),
        decreases videos.len() - i,
    {
        let video = &videos[i];
        assigned.push(
            NewVideo {
                title: video.title.clone(),
                yt_id: video.yt_id.clone(),
                playlist_id: Some(playlist_id),
            },
        );
        i += 1;
    }
    assigned
}

} // verus!
