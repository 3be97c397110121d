//! How the screens divide the terminal: pure arithmetic on widths and
//! heights in character cells.

use vstd::prelude::*;

verus! {

/// Whether the terminal is large enough to draw in.
#[derive(Clone, Copy, Debug, PartialEq, Eq, Structural)]
pub enum Fit {
    /// Fewer than 25 columns.
    TooNarrow,
    /// Fewer than 10 rows.
    TooShort,
    Fits,
}

/// Smallest width that is drawn in.
pub const MIN_WIDTH: u16 = 25;

/// Smallest height that is drawn in.
pub const MIN_HEIGHT: u16 = 10;

/// Rows of the logo above the list of playlists.
pub const LOGO_HEIGHT: u16 = 10;

/// Rows of the player under the track list.
pub const PLAYER_HEIGHT: u16 = 5;

/// Rows of the progress bar within the player.
pub const GAUGE_HEIGHT: u16 = 2;

/// Rows from which on the figure is drawn under a message.
pub const FIGURE_MIN_HEIGHT: u16 = 20;

/// The difference, or zero where it would be negative.
pub open spec fn less(a: int, b: int) -> int {
    if a >= b {
        a - b
    } else {
        0
    }
}

/// The difference of two heights, never below zero.
fn rows_left(height: u16, taken: u16) -> (rest: u16)
    ensures
        rest == less(height as int, taken as int),
{
    if height >= taken {
        height - taken
    } else {
        0
    }
}

/// Whether a terminal of this size is drawn in; the width is looked at
/// first.
pub fn fit(width: u16, height: u16) -> (f: Fit)
    ensures
        f == if width < MIN_WIDTH {
            Fit::TooNarrow
        } else if height < MIN_HEIGHT {
            Fit::TooShort
        } else {
            Fit::Fits
        },
{
    if width < MIN_WIDTH {
        Fit::TooNarrow
    } else if height < MIN_HEIGHT {
        Fit::TooShort
    } else {
        Fit::Fits
    }
}

/// Heights of the logo and of the list of playlists under it; `None` when
/// the area has fewer than 20 rows or 50 columns, and the list gets it all.
pub fn playlists_layout(width: u16, height: u16) -> (rows: Option<(u16, u16)>)
    ensures
        rows == if height < 20 || width < 50 {
            None::<(u16, u16)>
        } else {
            Some((LOGO_HEIGHT, (height - LOGO_HEIGHT) as u16))
        },
{
    if height < 20 || width < 50 {
        None
    } else {
        Some((LOGO_HEIGHT, height - LOGO_HEIGHT))
    }
}

/// Heights of the track list and of the player under it.
pub fn songs_layout(height: u16) -> (rows: (u16, u16))
    ensures
        rows == (less(height as int, PLAYER_HEIGHT as int) as u16, PLAYER_HEIGHT),
{
    (rows_left(height, PLAYER_HEIGHT), PLAYER_HEIGHT)
}

/// Heights of the progress bar and of the volume line under it.
pub fn player_layout(height: u16) -> (rows: (u16, u16))
    ensures
        rows == (GAUGE_HEIGHT, less(height as int, GAUGE_HEIGHT as int) as u16),
{
    (GAUGE_HEIGHT, rows_left(height, GAUGE_HEIGHT))
}

/// Heights of a message and of the figure under it; `None` when the area
/// has fewer than 20 rows, and the message stands alone.
pub fn message_layout(height: u16) -> (rows: Option<(u16, u16)>)
    ensures
        rows == if height < FIGURE_MIN_HEIGHT {
            None::<(u16, u16)>
        } else {
            Some((4u16, (height - 4) as u16))
        },
{
    if height < FIGURE_MIN_HEIGHT {
        None
    } else {
        Some((4, height - 4))
    }
}

/// Heights of the label of the loading screen and of the figure under it,
/// which bounces by `offset` rows; `None` when the area has fewer than 20
/// rows, and the label stands alone.
pub fn loading_layout(height: u16, offset: u16) -> (rows: Option<(u16, u16)>)
    requires
        offset <= 4,
    ensures
        rows == if height < FIGURE_MIN_HEIGHT {
            None::<(u16, u16)>
        } else {
            Some(((1 + offset) as u16, (height - 1 - offset) as u16))
        },
{
    if height < FIGURE_MIN_HEIGHT {
        None
    } else {
        Some((1 + offset, height - 1 - offset))
    }
}

} // verus!
