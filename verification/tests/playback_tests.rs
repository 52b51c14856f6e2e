use vh_notification_sound::fade::FADE_STEPS;
use vh_notification_sound::guard::{AudioCommand, AudioStateGuard, PulseAudioState};
use vh_notification_sound::lock::NotificationState;
use vh_notification_sound::playback::{
    monitor_playback, play_notification, resolve_volume, MonitorStep, NotificationContext,
    PlaybackAction, PlaybackPhase, PlaybackSettings, DEFAULT_VOLUME, MAX_VOLUME,
    MONITOR_INTERVAL, MONITOR_TIMEOUT,
};
use vh_notification_sound::queue::RequestQueue;

const STEP: u64 = 30_000_000;

fn settings() -> PlaybackSettings {
    PlaybackSettings { fade_out: 300_000_000, fade_in: 300_000_000, volume: 75 }
}

fn guard() -> AudioStateGuard {
    AudioStateGuard::new(PulseAudioState {
        default_sink: "speakers".to_string(),
        current_volume: 50,
        unmuted_inputs: vec!["42".to_string()],
    })
}

fn volume(percent: u8) -> PlaybackAction {
    PlaybackAction::Audio(vec![AudioCommand::SetSinkVolume {
        sink: "speakers".to_string(),
        percent,
    }])
}

fn mute(muted: bool) -> AudioCommand {
    AudioCommand::SetSinkInputMute { input: "42".to_string(), muted }
}

fn pause() -> PlaybackAction {
    PlaybackAction::Pause { nanos: STEP }
}

/// Steps a playback with nothing waiting and no shutdown until it hands out
/// `Play`, and gives the actions up to and including that one.
fn run_to_play(
    ctx: &mut NotificationContext,
    guard: &mut AudioStateGuard,
    queue: &RequestQueue,
) -> Vec<PlaybackAction> {
    let mut actions = Vec::new();
    loop {
        let action = play_notification(ctx, guard, queue, true, false);
        let done = matches!(action, PlaybackAction::Play { .. } | PlaybackAction::Finish { .. });
        actions.push(action);
        if done {
            return actions;
        }
    }
}

/// Steps a playback until it is over, and gives the actions.
fn run_to_end(
    ctx: &mut NotificationContext,
    guard: &mut AudioStateGuard,
    queue: &RequestQueue,
    running: bool,
) -> Vec<PlaybackAction> {
    let mut actions = Vec::new();
    loop {
        let action = play_notification(ctx, guard, queue, running, false);
        let done = matches!(action, PlaybackAction::Finish { .. });
        actions.push(action);
        if done {
            return actions;
        }
    }
}

fn ducking() -> Vec<PlaybackAction> {
    let mut expected = vec![PlaybackAction::Announce(NotificationState::FadingOut)];
    for percent in [45, 40, 35, 30, 25, 20, 15, 10, 5, 0] {
        expected.push(volume(percent));
        expected.push(pause());
    }
    expected.push(PlaybackAction::Audio(vec![
        mute(true),
        AudioCommand::SetSinkVolume { sink: "speakers".to_string(), percent: 75 },
    ]));
    expected.push(PlaybackAction::Announce(NotificationState::Playing));
    expected.push(PlaybackAction::Play { sound: "beep.wav".to_string() });
    expected
}

#[test]
fn playback_ducks_in_ten_steps_then_mutes_and_plays() {
    let mut guard = guard();
    let queue = RequestQueue::new();
    let mut ctx = NotificationContext::new("beep.wav".to_string(), settings(), true, false);
    assert_eq!(ctx.phase(), PlaybackPhase::Start);
    assert_eq!(ctx.sound_path(), "beep.wav");
    assert_eq!(run_to_play(&mut ctx, &mut guard, &queue), ducking());
    assert_eq!(guard.fade_state(), 0);
    assert_eq!(ctx.phase(), PlaybackPhase::Playing);
}

#[test]
fn undisturbed_playback_fades_back_to_the_original_volume() {
    let mut guard = guard();
    let queue = RequestQueue::new();
    let mut ctx = NotificationContext::new("beep.wav".to_string(), settings(), true, false);
    run_to_play(&mut ctx, &mut guard, &queue);

    let mut expected = vec![
        PlaybackAction::Announce(NotificationState::FadingIn),
        PlaybackAction::Audio(vec![mute(false)]),
    ];
    for percent in [0, 5, 10, 15, 20, 25, 30, 35, 40, 45, 50] {
        expected.push(volume(percent));
        expected.push(pause());
    }
    expected.push(volume(50));
    expected.push(PlaybackAction::Announce(NotificationState::Idle));
    expected.push(PlaybackAction::Finish { completed: true, interrupted: false });
    assert_eq!(run_to_end(&mut ctx, &mut guard, &queue, true), expected);
    assert_eq!(guard.fade_state(), FADE_STEPS);
    assert_eq!(ctx.phase(), PlaybackPhase::Finished { completed: true, interrupted: false });
}

#[test]
fn fade_volumes_fall_on_the_way_out_and_rise_on_the_way_in() {
    let mut guard = AudioStateGuard::new(PulseAudioState {
        default_sink: "speakers".to_string(),
        current_volume: 87,
        unmuted_inputs: vec!["1".to_string()],
    });
    let queue = RequestQueue::new();
    let mut ctx = NotificationContext::new("beep.wav".to_string(), settings(), true, false);
    let percents = |actions: &[PlaybackAction]| -> Vec<u8> {
        let mut found = Vec::new();
        for action in actions {
            if let PlaybackAction::Audio(commands) = action {
                if let [AudioCommand::SetSinkVolume { percent, .. }] = commands.as_slice() {
                    found.push(*percent);
                }
            }
        }
        found
    };
    let out = percents(&run_to_play(&mut ctx, &mut guard, &queue));
    assert_eq!(out, vec![78, 69, 60, 52, 43, 34, 26, 17, 8, 0]);
    assert!(out.windows(2).all(|pair| pair[0] >= pair[1]));
    let back = percents(&run_to_end(&mut ctx, &mut guard, &queue, true));
    assert_eq!(back, vec![0, 8, 17, 26, 34, 43, 52, 60, 69, 78, 87, 87]);
    assert!(back.windows(2).all(|pair| pair[0] <= pair[1]));
    assert_eq!(back.last(), Some(&87));
}

#[test]
fn request_during_playing_ends_the_playback_without_fade_in() {
    let mut guard = guard();
    let mut queue = RequestQueue::new();
    let mut ctx = NotificationContext::new("beep.wav".to_string(), settings(), true, false);
    run_to_play(&mut ctx, &mut guard, &queue);
    queue.enqueue("ding.wav".to_string());
    let action = play_notification(&mut ctx, &mut guard, &queue, true, false);
    assert_eq!(action, PlaybackAction::Finish { completed: false, interrupted: true });
    assert_eq!(guard.fade_state(), 0);
    assert_eq!(ctx.phase(), PlaybackPhase::Finished { completed: false, interrupted: true });
    let again = play_notification(&mut ctx, &mut guard, &queue, true, false);
    assert_eq!(again, PlaybackAction::Finish { completed: false, interrupted: true });
}

#[test]
fn monitor_report_alone_ends_the_playback_as_interrupted() {
    let mut guard = guard();
    let queue = RequestQueue::new();
    let mut ctx = NotificationContext::new("beep.wav".to_string(), settings(), true, false);
    run_to_play(&mut ctx, &mut guard, &queue);
    let action = play_notification(&mut ctx, &mut guard, &queue, true, true);
    assert_eq!(action, PlaybackAction::Finish { completed: false, interrupted: true });
}

#[test]
fn shutdown_after_the_sound_ends_the_playback_as_cancelled() {
    let mut guard = guard();
    let queue = RequestQueue::new();
    let mut ctx = NotificationContext::new("beep.wav".to_string(), settings(), true, false);
    run_to_play(&mut ctx, &mut guard, &queue);
    let action = play_notification(&mut ctx, &mut guard, &queue, false, false);
    assert_eq!(action, PlaybackAction::Finish { completed: false, interrupted: false });
    assert_eq!(guard.fade_state(), 0);
}

#[test]
fn prepared_playback_skips_the_ducking() {
    let mut guard = guard();
    let queue = RequestQueue::new();
    let mut ctx = NotificationContext::new("ding.wav".to_string(), settings(), true, true);
    assert_eq!(
        run_to_play(&mut ctx, &mut guard, &queue),
        vec![
            PlaybackAction::Announce(NotificationState::Playing),
            PlaybackAction::Play { sound: "ding.wav".to_string() },
        ]
    );
    assert_eq!(guard.fade_state(), FADE_STEPS);
}

#[test]
fn shutdown_in_the_fade_out_keeps_the_last_position_applied() {
    let mut guard = guard();
    let queue = RequestQueue::new();
    let mut ctx = NotificationContext::new("beep.wav".to_string(), settings(), true, false);
    let mut actions = Vec::new();
    for _ in 0..5 {
        actions.push(play_notification(&mut ctx, &mut guard, &queue, true, false));
    }
    assert_eq!(
        actions,
        vec![
            PlaybackAction::Announce(NotificationState::FadingOut),
            volume(45),
            pause(),
            volume(40),
            pause(),
        ]
    );
    let action = play_notification(&mut ctx, &mut guard, &queue, false, false);
    assert_eq!(action, PlaybackAction::Finish { completed: false, interrupted: false });
    assert_eq!(guard.fade_state(), 8);
}

#[test]
fn failed_volume_step_is_not_recorded() {
    let mut guard = guard();
    let queue = RequestQueue::new();
    let mut ctx = NotificationContext::new("beep.wav".to_string(), settings(), true, false);
    play_notification(&mut ctx, &mut guard, &queue, true, false);
    assert_eq!(play_notification(&mut ctx, &mut guard, &queue, true, false), volume(45));
    assert_eq!(ctx.phase(), PlaybackPhase::FadeOutApplied { position: 9 });
    assert_eq!(guard.fade_state(), FADE_STEPS);
    assert_eq!(play_notification(&mut ctx, &mut guard, &queue, true, false), pause());
    assert_eq!(guard.fade_state(), 9);
}

#[test]
fn request_during_the_fade_in_stops_it_at_the_last_position_applied() {
    let mut guard = guard();
    let mut queue = RequestQueue::new();
    let mut ctx = NotificationContext::new("beep.wav".to_string(), settings(), true, false);
    run_to_play(&mut ctx, &mut guard, &queue);
    let mut actions = Vec::new();
    for _ in 0..8 {
        actions.push(play_notification(&mut ctx, &mut guard, &queue, true, false));
    }
    assert_eq!(
        actions,
        vec![
            PlaybackAction::Announce(NotificationState::FadingIn),
            PlaybackAction::Audio(vec![mute(false)]),
            volume(0),
            pause(),
            volume(5),
            pause(),
            volume(10),
            pause(),
        ]
    );
    queue.enqueue("ding.wav".to_string());
    let action = play_notification(&mut ctx, &mut guard, &queue, true, false);
    assert_eq!(action, PlaybackAction::Finish { completed: false, interrupted: true });
    assert_eq!(guard.fade_state(), 2);
}

#[test]
fn shutdown_during_the_fade_in_ends_the_playback_in_place() {
    let mut guard = guard();
    let queue = RequestQueue::new();
    let mut ctx = NotificationContext::new("beep.wav".to_string(), settings(), true, false);
    run_to_play(&mut ctx, &mut guard, &queue);
    for _ in 0..6 {
        play_notification(&mut ctx, &mut guard, &queue, true, false);
    }
    assert_eq!(guard.fade_state(), 1);
    assert_eq!(
        play_notification(&mut ctx, &mut guard, &queue, false, false),
        PlaybackAction::Finish { completed: false, interrupted: false }
    );
    assert_eq!(ctx.phase(), PlaybackPhase::Finished { completed: false, interrupted: false });
    assert_eq!(guard.fade_state(), 1);
}

#[test]
fn shutdown_before_the_fade_in_ends_the_playback_in_place() {
    for enable_fading in [true, false] {
        let mut guard = guard();
        let queue = RequestQueue::new();
        let mut ctx =
            NotificationContext::new("beep.wav".to_string(), settings(), enable_fading, false);
        run_to_play(&mut ctx, &mut guard, &queue);
        assert_eq!(
            play_notification(&mut ctx, &mut guard, &queue, true, false),
            PlaybackAction::Announce(NotificationState::FadingIn)
        );
        assert_eq!(
            play_notification(&mut ctx, &mut guard, &queue, true, false),
            PlaybackAction::Audio(vec![mute(false)])
        );
        assert_eq!(
            play_notification(&mut ctx, &mut guard, &queue, false, false),
            PlaybackAction::Finish { completed: false, interrupted: false }
        );
        assert_eq!(guard.fade_state(), 0);
    }
}

#[test]
fn request_right_after_the_fade_in_still_interrupts() {
    let mut guard = guard();
    let mut queue = RequestQueue::new();
    let mut ctx = NotificationContext::new("beep.wav".to_string(), settings(), true, false);
    run_to_play(&mut ctx, &mut guard, &queue);
    loop {
        play_notification(&mut ctx, &mut guard, &queue, true, false);
        if ctx.phase() == PlaybackPhase::FadeInRestored {
            break;
        }
    }
    queue.enqueue("ding.wav".to_string());
    assert_eq!(
        play_notification(&mut ctx, &mut guard, &queue, true, false),
        PlaybackAction::Finish { completed: false, interrupted: true }
    );
    assert_eq!(guard.fade_state(), FADE_STEPS);
}

#[test]
fn without_fading_the_volume_snaps_both_ways() {
    for (enable_fading, settings) in [
        (false, settings()),
        (true, PlaybackSettings { fade_out: 0, fade_in: 0, volume: 75 }),
    ] {
        let mut guard = guard();
        let queue = RequestQueue::new();
        let mut ctx =
            NotificationContext::new("beep.wav".to_string(), settings, enable_fading, false);
        assert_eq!(
            run_to_play(&mut ctx, &mut guard, &queue),
            vec![
                PlaybackAction::Announce(NotificationState::FadingOut),
                PlaybackAction::Audio(vec![
                    mute(true),
                    AudioCommand::SetSinkVolume { sink: "speakers".to_string(), percent: 75 },
                ]),
                PlaybackAction::Announce(NotificationState::Playing),
                PlaybackAction::Play { sound: "beep.wav".to_string() },
            ]
        );
        assert_eq!(guard.fade_state(), 0);
        assert_eq!(
            run_to_end(&mut ctx, &mut guard, &queue, true),
            vec![
                PlaybackAction::Announce(NotificationState::FadingIn),
                PlaybackAction::Audio(vec![mute(false)]),
                volume(50),
                PlaybackAction::Announce(NotificationState::Idle),
                PlaybackAction::Finish { completed: true, interrupted: false },
            ]
        );
        assert_eq!(guard.fade_state(), FADE_STEPS);
    }
}

#[test]
fn shutdown_before_the_ducking_touches_no_audio_and_keeps_the_position() {
    for (enable_fading, settings) in [
        (true, settings()),
        (false, settings()),
        (true, PlaybackSettings { fade_out: 0, fade_in: 0, volume: 75 }),
    ] {
        let mut guard = guard();
        let queue = RequestQueue::new();
        let mut ctx =
            NotificationContext::new("beep.wav".to_string(), settings, enable_fading, false);
        assert_eq!(
            run_to_end(&mut ctx, &mut guard, &queue, false),
            vec![
                PlaybackAction::Announce(NotificationState::FadingOut),
                PlaybackAction::Finish { completed: false, interrupted: false },
            ]
        );
        assert_eq!(guard.fade_state(), FADE_STEPS);
    }
}

#[test]
fn one_interval_is_a_tenth_of_the_fade() {
    let mut guard = guard();
    let queue = RequestQueue::new();
    let settings = PlaybackSettings { fade_out: 1_000_000_007, fade_in: 9, volume: 10 };
    let mut ctx = NotificationContext::new("beep.wav".to_string(), settings, true, false);
    let out = run_to_play(&mut ctx, &mut guard, &queue);
    assert_eq!(out[2], PlaybackAction::Pause { nanos: 100_000_000 });
    let back = run_to_end(&mut ctx, &mut guard, &queue, true);
    assert_eq!(back[3], PlaybackAction::Pause { nanos: 0 });
}

#[test]
fn monitor_waits_interrupts_and_gives_up() {
    let mut queue = RequestQueue::new();
    assert_eq!(
        monitor_playback(0, true, true, &queue),
        MonitorStep::Wait { nanos: MONITOR_INTERVAL }
    );
    assert_eq!(monitor_playback(0, false, true, &queue), MonitorStep::Stop);
    assert_eq!(monitor_playback(0, true, false, &queue), MonitorStep::Stop);
    queue.enqueue("ding.wav".to_string());
    assert_eq!(monitor_playback(0, true, true, &queue), MonitorStep::Interrupt);
    assert_eq!(monitor_playback(MONITOR_TIMEOUT, true, true, &queue), MonitorStep::Interrupt);
    assert_eq!(monitor_playback(MONITOR_TIMEOUT + 1, true, true, &queue), MonitorStep::Stop);
    assert_eq!(monitor_playback(0, false, true, &queue), MonitorStep::Stop);
    assert_eq!(MONITOR_INTERVAL, 50_000_000);
    assert_eq!(MONITOR_TIMEOUT, 10_000_000_000);
}

#[test]
fn volume_comes_from_the_first_source_that_has_one() {
    assert_eq!(resolve_volume(Some(20), Some(30), Some(40)), 20);
    assert_eq!(resolve_volume(None, Some(30), Some(40)), 30);
    assert_eq!(resolve_volume(None, None, Some(40)), 40);
    assert_eq!(resolve_volume(None, None, None), 75);
    assert_eq!(resolve_volume(Some(0), None, None), 0);
    assert_eq!(DEFAULT_VOLUME, 75);
}

#[test]
fn volume_is_capped_at_a_hundred() {
    assert_eq!(resolve_volume(Some(101), None, None), 100);
    assert_eq!(resolve_volume(None, Some(255), Some(5)), 100);
    assert_eq!(resolve_volume(Some(100), None, None), 100);
    assert_eq!(MAX_VOLUME, 100);
}
