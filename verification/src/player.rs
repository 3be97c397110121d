//! Playback positions, volume steps and the end-of-track timer's delay.

use vstd::prelude::*;

verus! {

/// Loudest volume, in percent of the normal level.
pub const MAX_VOLUME: i32 = 200;

/// Seconds until a track of `duration` seconds that has played `progress`
/// seconds is over; zero when it is over already.
pub open spec fn remaining_secs(duration: int, progress: int) -> int {
    if progress >= duration {
        0
    } else {
        duration - progress
    }
}

/// The position, in seconds, that lies `pcent` percent into a track of
/// `duration` seconds, capped at what a `u64` holds.
pub open spec fn percentage_position(pcent: int, duration: int) -> int {
    if pcent * duration / 100 > u64::MAX {
        u64::MAX as int
    } else {
        pcent * duration / 100
    }
}

/// The position reached from `progress` by skipping `seconds` ahead in a
/// track of `duration` seconds: the end of the track when one more such
/// skip would reach or pass it.
pub open spec fn forward_position(progress: int, seconds: int, duration: int) -> int {
    if progress + seconds + seconds >= duration {
        duration
    } else {
        progress + seconds
    }
}

/// The position reached from `progress` by skipping `seconds` back: the
/// start of the track when there is not that much behind.
pub open spec fn rewind_position(progress: int, seconds: int) -> int {
    if progress > seconds {
        progress - seconds
    } else {
        0
    }
}

/// A volume brought into the range from silence to `MAX_VOLUME`.
pub open spec fn clamped_volume(percent: int) -> int {
    if percent < 0 {
        0
    } else if percent > MAX_VOLUME {
        MAX_VOLUME as int
    } else {
        percent
    }
}

/// The volume after a step of `step` percent up from `percent`.
pub open spec fn raised_volume(percent: int, step: int) -> int {
    clamped_volume(percent + step)
}

/// The volume after a step of `step` percent down from `percent`.
pub open spec fn lowered_volume(percent: int, step: int) -> int {
    clamped_volume(percent - step)
}

/// Delay of the end-of-track timer: the rest of the track.
pub fn timer_delay(duration: u64, progress: u64) -> (delay: u64)
    ensures
        delay == remaining_secs(duration as int, progress as int),
{
    if progress >= duration {
        0
    } else {
        duration - progress
    }
}

/// Where to seek for `pcent` percent of a track of `duration` seconds.
pub fn seek_percentage(pcent: u64, duration: u64) -> (position: u64)
    ensures
        position == percentage_position(pcent as int, duration as int),
{
    let wide: u128 = pcent as u128;
    let long: u128 = duration as u128;
    assert(wide * long <= 0xffff_ffff_ffff_ffff * 0xffff_ffff_ffff_ffff) by (nonlinear_arith)
        requires
            wide <= 0xffff_ffff_ffff_ffff,
            long <= 0xffff_ffff_ffff_ffff,
    ;
    let scaled: u128 = wide * long / 100;
    if scaled > u64::MAX as u128 {
        u64::MAX
    } else {
        scaled as u64
    }
}

/// Where to seek to skip `seconds` ahead.
pub fn forward(progress: u64, seconds: u64, duration: u64) -> (position: u64)
    ensures
        position == forward_position(progress as int, seconds as int, duration as int),
{
    let reach: u128 = progress as u128 + seconds as u128 + seconds as u128;
    if reach >= duration as u128 {
        duration
    } else {
        progress + seconds
    }
}

/// Where to seek to skip `seconds` back.
pub fn rewind(progress: u64, seconds: u64) -> (position: u64)
    ensures
        position == rewind_position(progress as int, seconds as int),
{
    if progress > seconds {
        progress - seconds
    } else {
        0
    }
}

/// A volume in percent, kept between silence and `MAX_VOLUME`.
fn clamp_volume(percent: i64) -> (volume: i32)
    ensures
        volume == clamped_volume(percent as int),
{
    if percent < 0 {
        0
    } else if percent > MAX_VOLUME as i64 {
        MAX_VOLUME
    } else {
        percent as i32
    }
}

/// The volume, in percent, after one step up.
pub fn increase_volume(percent: i32, step: i32) -> (volume: i32)
    ensures
        volume == raised_volume(percent as int, step as int),
{
    clamp_volume(percent as i64 + step as i64)
}

/// The volume, in percent, after one step down.
pub fn decrease_volume(percent: i32, step: i32) -> (volume: i32)
    ensures
        volume == lowered_volume(percent as int, step as int),
{
    clamp_volume(percent as i64 - step as i64)
}

} // verus!
