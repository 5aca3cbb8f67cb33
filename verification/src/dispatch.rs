//! Decisions of the playback dispatcher.
//!
//! The dispatcher consumes one action event at a time and talks to the
//! playback client in one or two calls. The decisions — which call an event
//! leads to first, and what to do with the call's reply — are pure
//! functions here; the surrounding loop performs the calls and feeds the
//! replies back. Every session ends after at most three calls, and a failed
//! call only ends the session, never the loop.

use vstd::prelude::*;
use crate::hotkey::KeyEvent;

verus! {

/// What the player reported about the current playback context.
#[derive(Clone, Copy, Debug, PartialEq, Eq, Structural)]
pub struct PlaybackView {
    pub is_playing: bool,
    pub volume_percent: Option<u32>,
}

/// One call for the dispatcher loop to make against the playback client.
#[derive(Clone, Debug, PartialEq, Eq)]
pub enum SpotifyRequest {
    /// Read the current playback context.
    GetPlayback,
    /// Read the device list and hand back the first device's id.
    GetDevices,
    /// Pause playback.
    Pause,
    /// Resume playback on the active device.
    Resume,
    /// Resume playback on the given device.
    ResumeOn(String),
    /// Set the playback volume (0 to 100).
    SetVolume(u8),
    /// Skip to the next track.
    NextTrack,
    /// Return to the previous track.
    PreviousTrack,
}

/// The reply the dispatcher loop observed for the last request.
#[derive(Clone, Debug, PartialEq, Eq)]
pub enum SpotifyReply {
    /// The playback context, or `None` when there is no active playback.
    Playback(Option<PlaybackView>),
    /// The first available device's id, or `None` when there is none.
    Devices(Option<String>),
    /// The call returned without an error.
    Done,
    /// The call failed; the loop logs and carries on.
    Failed,
}

/// Where a dispatch session stands between two calls.
#[derive(Clone, Copy, Debug, PartialEq, Eq, Structural)]
pub enum DispatchState {
    /// Toggle asked for the playback context.
    AwaitPlaybackToggle,
    /// Toggle found no active playback and asked for the device list.
    AwaitDevicesToggle,
    /// A volume change asked for the playback context; `up` says in which
    /// direction, `step` by how much.
    AwaitVolume { up: bool, step: u32 },
    /// Play issued a resume and may fall back to the device list.
    AwaitResumePlay,
    /// Play failed to resume and asked for the device list.
    AwaitDevicesPlay,
    /// A call whose outcome is logged and otherwise ignored.
    AwaitAck,
    /// The session is over; no further call is made.
    Finished,
}

/// The volume after a volume-up: the current volume plus the step,
/// clamped into 0 to 100.
pub open spec fn spec_vol_up(current: u32, step: u32) -> u32 {
    if current + step >= 100 {
        100u32
    } else {
        (current + step) as u32
    }
}

/// The volume after a volume-down: the current volume minus the step,
/// clamped into 0 to 100.
pub open spec fn spec_vol_down(current: u32, step: u32) -> u32 {
    if current <= step {
        0u32
    } else if current - step >= 100 {
        100u32
    } else {
        (current - step) as u32
    }
}

/// Raise the volume by `step`, clamping at 100.
pub fn vol_up_target(current: u32, step: u32) -> (r: u32)
    ensures
        r == spec_vol_up(current, step),
        r <= 100,
{
    if current >= 100 {
        100
    } else if step >= 100 - current {
        100
    } else {
        current + step
    }
}

/// Lower the volume by `step`, clamping at 0 (and, for a current volume
/// beyond the scale, at 100).
pub fn vol_down_target(current: u32, step: u32) -> (r: u32)
    ensures
        r == spec_vol_down(current, step),
        r <= 100,
{
    if current <= step {
        0
    } else if current - step >= 100 {
        100
    } else {
        current - step
    }
}

/// The first call for an action event, and the state awaiting its reply.
pub open spec fn spec_dispatch_begin(ev: KeyEvent, volstepup: u32, volstepdown: u32) -> (
    DispatchState,
    SpotifyRequest,
) {
    match ev {
        KeyEvent::Toggle => (DispatchState::AwaitPlaybackToggle, SpotifyRequest::GetPlayback),
        KeyEvent::Play => (DispatchState::AwaitResumePlay, SpotifyRequest::Resume),
        KeyEvent::Pause => (DispatchState::AwaitAck, SpotifyRequest::Pause),
        KeyEvent::Next => (DispatchState::AwaitAck, SpotifyRequest::NextTrack),
        KeyEvent::Previous => (DispatchState::AwaitAck, SpotifyRequest::PreviousTrack),
        KeyEvent::Volup => (
            DispatchState::AwaitVolume { up: true, step: volstepup },
            SpotifyRequest::GetPlayback,
        ),
        KeyEvent::Voldown => (
            DispatchState::AwaitVolume { up: false, step: volstepdown },
            SpotifyRequest::GetPlayback,
        ),
        KeyEvent::Mute => (DispatchState::AwaitAck, SpotifyRequest::SetVolume(0)),
    }
}

/// Begin a dispatch session for one action event: the state awaiting the
/// first call's reply, and that first call.
pub fn dispatch_begin(ev: &KeyEvent, volstepup: u32, volstepdown: u32) -> (r: (
    DispatchState,
    SpotifyRequest,
))
    ensures
        r == spec_dispatch_begin(*ev, volstepup, volstepdown),
{
    match ev {
        KeyEvent::Toggle => (DispatchState::AwaitPlaybackToggle, SpotifyRequest::GetPlayback),
        KeyEvent::Play => (DispatchState::AwaitResumePlay, SpotifyRequest::Resume),
        KeyEvent::Pause => (DispatchState::AwaitAck, SpotifyRequest::Pause),
        KeyEvent::Next => (DispatchState::AwaitAck, SpotifyRequest::NextTrack),
        KeyEvent::Previous => (DispatchState::AwaitAck, SpotifyRequest::PreviousTrack),
        KeyEvent::Volup => (
            DispatchState::AwaitVolume { up: true, step: volstepup },
            SpotifyRequest::GetPlayback,
        ),
        KeyEvent::Voldown => (
            DispatchState::AwaitVolume { up: false, step: volstepdown },
            SpotifyRequest::GetPlayback,
        ),
        KeyEvent::Mute => (DispatchState::AwaitAck, SpotifyRequest::SetVolume(0)),
    }
}

/// The next state and call after a reply. No next call means the session
/// is over: either it is complete, or the situation is only logged (no
/// active playback and no available device, or no volume reported).
pub open spec fn spec_dispatch_next(st: DispatchState, reply: SpotifyReply) -> (
    DispatchState,
    Option<SpotifyRequest>,
) {
    match st {
        DispatchState::AwaitPlaybackToggle => match reply {
            SpotifyReply::Playback(Some(pb)) => if pb.is_playing {
                (DispatchState::AwaitAck, Some(SpotifyRequest::Pause))
            } else {
                (DispatchState::AwaitAck, Some(SpotifyRequest::Resume))
            },
            SpotifyReply::Playback(None) => (
                DispatchState::AwaitDevicesToggle,
                Some(SpotifyRequest::GetDevices),
            ),
            _ => (DispatchState::Finished, None),
        },
        DispatchState::AwaitDevicesToggle => match reply {
            SpotifyReply::Devices(Some(id)) => (
                DispatchState::AwaitAck,
                Some(SpotifyRequest::ResumeOn(id)),
            ),
            _ => (DispatchState::Finished, None),
        },
        DispatchState::AwaitVolume { up, step } => match reply {
            SpotifyReply::Playback(Some(pb)) => match pb.volume_percent {
                Some(v) => (
                    DispatchState::AwaitAck,
                    Some(
                        SpotifyRequest::SetVolume(
                            (if up {
                                spec_vol_up(v, step)
                            } else {
                                spec_vol_down(v, step)
                            }) as u8,
                        ),
                    ),
                ),
                None => (DispatchState::Finished, None),
            },
            _ => (DispatchState::Finished, None),
        },
        DispatchState::AwaitResumePlay => match reply {
            SpotifyReply::Done => (DispatchState::Finished, None),
            SpotifyReply::Failed => (DispatchState::AwaitDevicesPlay, Some(SpotifyRequest::GetDevices)),
            _ => (DispatchState::Finished, None),
        },
        DispatchState::AwaitDevicesPlay => match reply {
            SpotifyReply::Devices(Some(id)) => (
                DispatchState::AwaitAck,
                Some(SpotifyRequest::ResumeOn(id)),
            ),
            _ => (DispatchState::Finished, None),
        },
        DispatchState::AwaitAck => (DispatchState::Finished, None),
        DispatchState::Finished => (DispatchState::Finished, None),
    }
}

/// Advance a dispatch session by one observed reply.
pub fn dispatch_next(st: DispatchState, reply: SpotifyReply) -> (r: (
    DispatchState,
    Option<SpotifyRequest>,
))
    ensures
        r == spec_dispatch_next(st, reply),
{
    match st {
        DispatchState::AwaitPlaybackToggle => match reply {
            SpotifyReply::Playback(Some(pb)) => if pb.is_playing {
                (DispatchState::AwaitAck, Some(SpotifyRequest::Pause))
            } else {
                (DispatchState::AwaitAck, Some(SpotifyRequest::Resume))
            },
            SpotifyReply::Playback(None) => (
                DispatchState::AwaitDevicesToggle,
                Some(SpotifyRequest::GetDevices),
            ),
            _ => (DispatchState::Finished, None),
        },
        DispatchState::AwaitDevicesToggle => match reply {
            SpotifyReply::Devices(Some(id)) => (
                DispatchState::AwaitAck,
                Some(SpotifyRequest::ResumeOn(id)),
            ),
            _ => (DispatchState::Finished, None),
        },
        DispatchState::AwaitVolume { up, step } => match reply {
            SpotifyReply::Playback(Some(pb)) => match pb.volume_percent {
                Some(v) => {
                    let target = if up {
                        vol_up_target(v, step)
                    } else {
                        vol_down_target(v, step)
                    };
                    (DispatchState::AwaitAck, Some(SpotifyRequest::SetVolume(target as u8)))
                },
                None => (DispatchState::Finished, None),
            },
            _ => (DispatchState::Finished, None),
        },
        DispatchState::AwaitResumePlay => match reply {
            SpotifyReply::Done => (DispatchState::Finished, None),
            SpotifyReply::Failed => (
                DispatchState::AwaitDevicesPlay,
                Some(SpotifyRequest::GetDevices),
            ),
            _ => (DispatchState::Finished, None),
        },
        DispatchState::AwaitDevicesPlay => match reply {
            SpotifyReply::Devices(Some(id)) => (
                DispatchState::AwaitAck,
                Some(SpotifyRequest::ResumeOn(id)),
            ),
            _ => (DispatchState::Finished, None),
        },
        DispatchState::AwaitAck => (DispatchState::Finished, None),
        DispatchState::Finished => (DispatchState::Finished, None),
    }
}

} // verus!
