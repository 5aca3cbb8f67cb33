use spotify_binds::dispatch::{
    dispatch_begin, dispatch_next, vol_down_target, vol_up_target, DispatchState, PlaybackView,
    SpotifyReply, SpotifyRequest,
};
use spotify_binds::hotkey::KeyEvent;

#[test]
fn volume_up_clamps_at_one_hundred() {
    assert_eq!(vol_up_target(95, 20), 100);
    assert_eq!(vol_up_target(50, 10), 60);
    assert_eq!(vol_up_target(100, 1), 100);
    assert_eq!(vol_up_target(0, 0), 0);
    assert_eq!(vol_up_target(u32::MAX, u32::MAX), 100);
}

#[test]
fn volume_down_clamps_at_zero() {
    assert_eq!(vol_down_target(10, 30), 0);
    assert_eq!(vol_down_target(50, 10), 40);
    assert_eq!(vol_down_target(0, 0), 0);
    assert_eq!(vol_down_target(30, 30), 0);
    assert_eq!(vol_down_target(u32::MAX, 1), 100);
}

#[test]
fn each_event_begins_with_its_call() {
    assert_eq!(
        dispatch_begin(&KeyEvent::Toggle, 5, 7),
        (DispatchState::AwaitPlaybackToggle, SpotifyRequest::GetPlayback)
    );
    assert_eq!(
        dispatch_begin(&KeyEvent::Play, 5, 7),
        (DispatchState::AwaitResumePlay, SpotifyRequest::Resume)
    );
    assert_eq!(
        dispatch_begin(&KeyEvent::Pause, 5, 7),
        (DispatchState::AwaitAck, SpotifyRequest::Pause)
    );
    assert_eq!(
        dispatch_begin(&KeyEvent::Next, 5, 7),
        (DispatchState::AwaitAck, SpotifyRequest::NextTrack)
    );
    assert_eq!(
        dispatch_begin(&KeyEvent::Previous, 5, 7),
        (DispatchState::AwaitAck, SpotifyRequest::PreviousTrack)
    );
    assert_eq!(
        dispatch_begin(&KeyEvent::Volup, 5, 7),
        (DispatchState::AwaitVolume { up: true, step: 5 }, SpotifyRequest::GetPlayback)
    );
    assert_eq!(
        dispatch_begin(&KeyEvent::Voldown, 5, 7),
        (DispatchState::AwaitVolume { up: false, step: 7 }, SpotifyRequest::GetPlayback)
    );
    assert_eq!(
        dispatch_begin(&KeyEvent::Mute, 5, 7),
        (DispatchState::AwaitAck, SpotifyRequest::SetVolume(0))
    );
}

#[test]
fn toggle_pauses_when_playing_and_resumes_when_paused() {
    let playing = SpotifyReply::Playback(Some(PlaybackView {
        is_playing: true,
        volume_percent: Some(40),
    }));
    assert_eq!(
        dispatch_next(DispatchState::AwaitPlaybackToggle, playing),
        (DispatchState::AwaitAck, Some(SpotifyRequest::Pause))
    );

    let paused = SpotifyReply::Playback(Some(PlaybackView {
        is_playing: false,
        volume_percent: Some(40),
    }));
    assert_eq!(
        dispatch_next(DispatchState::AwaitPlaybackToggle, paused),
        (DispatchState::AwaitAck, Some(SpotifyRequest::Resume))
    );
}

#[test]
fn toggle_without_playback_asks_for_a_device() {
    assert_eq!(
        dispatch_next(DispatchState::AwaitPlaybackToggle, SpotifyReply::Playback(None)),
        (DispatchState::AwaitDevicesToggle, Some(SpotifyRequest::GetDevices))
    );
    assert_eq!(
        dispatch_next(
            DispatchState::AwaitDevicesToggle,
            SpotifyReply::Devices(Some("speaker".to_string()))
        ),
        (DispatchState::AwaitAck, Some(SpotifyRequest::ResumeOn("speaker".to_string())))
    );
}

#[test]
fn toggle_without_playback_and_without_device_only_logs() {
    let (st, req) =
        dispatch_next(DispatchState::AwaitPlaybackToggle, SpotifyReply::Playback(None));
    assert_eq!(req, Some(SpotifyRequest::GetDevices));
    let (st2, req2) = dispatch_next(st, SpotifyReply::Devices(None));
    assert_eq!(st2, DispatchState::Finished);
    assert_eq!(req2, None);
    // once finished, nothing more happens whatever comes back
    assert_eq!(
        dispatch_next(st2, SpotifyReply::Done),
        (DispatchState::Finished, None)
    );
}

#[test]
fn failed_calls_end_the_session_quietly() {
    assert_eq!(
        dispatch_next(DispatchState::AwaitPlaybackToggle, SpotifyReply::Failed),
        (DispatchState::Finished, None)
    );
    assert_eq!(
        dispatch_next(DispatchState::AwaitDevicesToggle, SpotifyReply::Failed),
        (DispatchState::Finished, None)
    );
    assert_eq!(
        dispatch_next(DispatchState::AwaitAck, SpotifyReply::Failed),
        (DispatchState::Finished, None)
    );
}

#[test]
fn play_falls_back_to_the_first_device() {
    assert_eq!(
        dispatch_next(DispatchState::AwaitResumePlay, SpotifyReply::Done),
        (DispatchState::Finished, None)
    );
    assert_eq!(
        dispatch_next(DispatchState::AwaitResumePlay, SpotifyReply::Failed),
        (DispatchState::AwaitDevicesPlay, Some(SpotifyRequest::GetDevices))
    );
    assert_eq!(
        dispatch_next(
            DispatchState::AwaitDevicesPlay,
            SpotifyReply::Devices(Some("phone".to_string()))
        ),
        (DispatchState::AwaitAck, Some(SpotifyRequest::ResumeOn("phone".to_string())))
    );
    assert_eq!(
        dispatch_next(DispatchState::AwaitDevicesPlay, SpotifyReply::Devices(None)),
        (DispatchState::Finished, None)
    );
}

#[test]
fn volume_up_flow_sets_the_clamped_volume() {
    let st = DispatchState::AwaitVolume { up: true, step: 20 };
    let reply = SpotifyReply::Playback(Some(PlaybackView {
        is_playing: true,
        volume_percent: Some(95),
    }));
    assert_eq!(
        dispatch_next(st, reply),
        (DispatchState::AwaitAck, Some(SpotifyRequest::SetVolume(100)))
    );
}

#[test]
fn volume_down_flow_sets_the_clamped_volume() {
    let st = DispatchState::AwaitVolume { up: false, step: 30 };
    let reply = SpotifyReply::Playback(Some(PlaybackView {
        is_playing: false,
        volume_percent: Some(10),
    }));
    assert_eq!(
        dispatch_next(st, reply),
        (DispatchState::AwaitAck, Some(SpotifyRequest::SetVolume(0)))
    );
}

#[test]
fn volume_flow_without_a_reading_only_logs() {
    let st = DispatchState::AwaitVolume { up: true, step: 20 };
    let reply = SpotifyReply::Playback(Some(PlaybackView {
        is_playing: true,
        volume_percent: None,
    }));
    assert_eq!(dispatch_next(st, reply), (DispatchState::Finished, None));
    let st = DispatchState::AwaitVolume { up: false, step: 20 };
    assert_eq!(
        dispatch_next(st, SpotifyReply::Playback(None)),
        (DispatchState::Finished, None)
    );
}
