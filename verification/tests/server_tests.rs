use vh_notification_sound::fade::FADE_STEPS;
use vh_notification_sound::guard::{AudioCommand, AudioStateGuard, PulseAudioState};
use vh_notification_sound::lock::NotificationState;
use vh_notification_sound::playback::PlaybackSettings;
use vh_notification_sound::queue::RequestQueue;
use vh_notification_sound::server::{
    run_notification_server, NotificationServer, ServerAction, ServerPhase,
};

fn settings() -> PlaybackSettings {
    PlaybackSettings { fade_out: 300_000_000, fade_in: 300_000_000, volume: 75 }
}

fn guard() -> AudioStateGuard {
    AudioStateGuard::new(PulseAudioState {
        default_sink: "speakers".to_string(),
        current_volume: 50,
        unmuted_inputs: vec!["42".to_string()],
    })
}

fn set_volume(percent: u8) -> AudioCommand {
    AudioCommand::SetSinkVolume { sink: "speakers".to_string(), percent }
}

fn volume(percent: u8) -> ServerAction {
    ServerAction::Audio(vec![set_volume(percent)])
}

fn mute(muted: bool) -> AudioCommand {
    AudioCommand::SetSinkInputMute { input: "42".to_string(), muted }
}

fn pause() -> ServerAction {
    ServerAction::Pause { nanos: 30_000_000 }
}

fn restoration() -> ServerAction {
    ServerAction::Audio(vec![set_volume(50), mute(false)])
}

/// A stand-in for the audio subsystem: the volume of the output and whether
/// the stream is muted.
fn carry_out(state: &mut (u8, bool), action: &ServerAction) {
    if let ServerAction::Audio(commands) = action {
        for command in commands {
            match command {
                AudioCommand::SetSinkVolume { percent, .. } => state.0 = *percent,
                AudioCommand::SetSinkInputMute { muted, .. } => state.1 = *muted,
            }
        }
    }
}

/// Steps the server, with nothing arriving and no shutdown, until it hands
/// out an action for which `stop` holds, and gives the actions.
fn run_until(
    server: &mut NotificationServer,
    guard: &mut AudioStateGuard,
    queue: &mut RequestQueue,
    audio: &mut (u8, bool),
    stop: fn(&ServerAction) -> bool,
) -> Vec<ServerAction> {
    let mut actions = Vec::new();
    loop {
        let action = run_notification_server(server, guard, queue, true, false);
        carry_out(audio, &action);
        let done = stop(&action);
        actions.push(action);
        if done {
            return actions;
        }
    }
}

fn is_play(action: &ServerAction) -> bool {
    matches!(action, ServerAction::Play { .. })
}

fn is_exit(action: &ServerAction) -> bool {
    matches!(action, ServerAction::Exit)
}

#[test]
fn new_server_fades_only_if_a_stream_was_unmuted() {
    let server = NotificationServer::new(&guard(), settings());
    assert_eq!(server.phase(), ServerPhase::Waiting);
    assert!(!server.audio_already_prepared());

    let mut silent = AudioStateGuard::new(PulseAudioState {
        default_sink: "speakers".to_string(),
        current_volume: 50,
        unmuted_inputs: vec![],
    });
    let mut server = NotificationServer::new(&silent, settings());
    let mut queue = RequestQueue::new();
    queue.enqueue("beep.wav".to_string());
    let mut audio = (50, false);
    let actions = run_until(&mut server, &mut silent, &mut queue, &mut audio, is_play);
    assert_eq!(
        actions,
        vec![
            ServerAction::Announce(NotificationState::Idle),
            ServerAction::Announce(NotificationState::FadingOut),
            volume(75),
            ServerAction::Announce(NotificationState::Playing),
            ServerAction::Play { sound: "beep.wav".to_string() },
        ]
    );
}

#[test]
fn single_request_is_ducked_played_restored_and_the_lock_released() {
    let mut guard = guard();
    let mut server = NotificationServer::new(&guard, settings());
    let mut queue = RequestQueue::new();
    queue.enqueue("beep.wav".to_string());
    let mut audio = (50, false);

    let mut expected = vec![
        ServerAction::Announce(NotificationState::Idle),
        ServerAction::Announce(NotificationState::FadingOut),
    ];
    for percent in [45, 40, 35, 30, 25, 20, 15, 10, 5, 0] {
        expected.push(volume(percent));
        expected.push(pause());
    }
    expected.push(ServerAction::Audio(vec![mute(true), set_volume(75)]));
    expected.push(ServerAction::Announce(NotificationState::Playing));
    expected.push(ServerAction::Play { sound: "beep.wav".to_string() });
    let actions = run_until(&mut server, &mut guard, &mut queue, &mut audio, is_play);
    assert_eq!(actions, expected);
    assert_eq!(audio, (75, true));
    assert!(queue.is_empty());

    let mut expected = vec![
        ServerAction::Announce(NotificationState::FadingIn),
        ServerAction::Audio(vec![mute(false)]),
    ];
    for percent in [0, 5, 10, 15, 20, 25, 30, 35, 40, 45, 50] {
        expected.push(volume(percent));
        expected.push(pause());
    }
    expected.push(volume(50));
    expected.push(ServerAction::Announce(NotificationState::Idle));
    expected.push(restoration());
    expected.push(ServerAction::ReleaseLock);
    expected.push(ServerAction::Exit);
    let actions = run_until(&mut server, &mut guard, &mut queue, &mut audio, is_exit);
    assert_eq!(actions, expected);
    assert_eq!(audio, (50, false));
    assert!(guard.is_cleaned_up());
    assert_eq!(guard.fade_state(), FADE_STEPS);
    assert_eq!(server.phase(), ServerPhase::Stopped);
    assert_eq!(
        run_notification_server(&mut server, &mut guard, &mut queue, true, false),
        ServerAction::Exit
    );
}

#[test]
fn request_during_playing_is_played_next_without_fade_in_or_ducking() {
    let mut guard = guard();
    let mut server = NotificationServer::new(&guard, settings());
    let mut queue = RequestQueue::new();
    queue.enqueue("beep.wav".to_string());
    let mut audio = (50, false);
    run_until(&mut server, &mut guard, &mut queue, &mut audio, is_play);

    queue.enqueue("ding.wav".to_string());
    let actions = run_until(&mut server, &mut guard, &mut queue, &mut audio, is_play);
    assert_eq!(
        actions,
        vec![
            ServerAction::Announce(NotificationState::Idle),
            ServerAction::Announce(NotificationState::Playing),
            ServerAction::Play { sound: "ding.wav".to_string() },
        ]
    );
    assert!(queue.is_empty());
    assert_eq!(audio, (75, true));
    assert_eq!(guard.fade_state(), 0);

    let actions = run_until(&mut server, &mut guard, &mut queue, &mut audio, is_exit);
    assert_eq!(actions.first(), Some(&ServerAction::Announce(NotificationState::FadingIn)));
    assert_eq!(
        &actions[actions.len() - 3..],
        &[restoration(), ServerAction::ReleaseLock, ServerAction::Exit]
    );
    assert_eq!(audio, (50, false));
}

#[test]
fn burst_during_playing_plays_the_last_request_only() {
    let mut guard = guard();
    let mut server = NotificationServer::new(&guard, settings());
    let mut queue = RequestQueue::new();
    queue.enqueue("beep.wav".to_string());
    let mut audio = (50, false);
    run_until(&mut server, &mut guard, &mut queue, &mut audio, is_play);

    queue.enqueue("a.wav".to_string());
    queue.enqueue("b.wav".to_string());
    queue.enqueue("c.wav".to_string());
    let actions = run_until(&mut server, &mut guard, &mut queue, &mut audio, is_play);
    assert_eq!(actions.last(), Some(&ServerAction::Play { sound: "c.wav".to_string() }));
    let rest = run_until(&mut server, &mut guard, &mut queue, &mut audio, is_exit);
    assert!(!rest.iter().any(is_play));
}

#[test]
fn interruption_late_in_the_fade_in_ducks_again() {
    let mut guard = guard();
    let mut server = NotificationServer::new(&guard, settings());
    let mut queue = RequestQueue::new();
    queue.enqueue("beep.wav".to_string());
    let mut audio = (50, false);
    run_until(&mut server, &mut guard, &mut queue, &mut audio, is_play);
    loop {
        let action = run_notification_server(&mut server, &mut guard, &mut queue, true, false);
        carry_out(&mut audio, &action);
        if action == volume(30) {
            break;
        }
    }
    run_notification_server(&mut server, &mut guard, &mut queue, true, false);
    assert_eq!(guard.fade_state(), 6);

    queue.enqueue("ding.wav".to_string());
    let actions = run_until(&mut server, &mut guard, &mut queue, &mut audio, is_play);
    assert!(!server.audio_already_prepared());
    let mut expected = vec![
        ServerAction::Announce(NotificationState::Idle),
        ServerAction::Announce(NotificationState::FadingOut),
    ];
    for percent in [25, 20, 15, 10, 5, 0] {
        expected.push(volume(percent));
        expected.push(pause());
    }
    expected.push(ServerAction::Audio(vec![mute(true), set_volume(75)]));
    expected.push(ServerAction::Announce(NotificationState::Playing));
    expected.push(ServerAction::Play { sound: "ding.wav".to_string() });
    assert_eq!(actions, expected);
}

#[test]
fn interruption_early_in_the_fade_in_ducks_again_from_where_it_stopped() {
    let mut guard = guard();
    let mut server = NotificationServer::new(&guard, settings());
    let mut queue = RequestQueue::new();
    queue.enqueue("beep.wav".to_string());
    let mut audio = (50, false);
    run_until(&mut server, &mut guard, &mut queue, &mut audio, is_play);
    loop {
        let action = run_notification_server(&mut server, &mut guard, &mut queue, true, false);
        carry_out(&mut audio, &action);
        if action == volume(20) {
            break;
        }
    }
    run_notification_server(&mut server, &mut guard, &mut queue, true, false);
    assert_eq!(guard.fade_state(), 4);
    assert_eq!(audio, (20, false));

    queue.enqueue("ding.wav".to_string());
    let actions = run_until(&mut server, &mut guard, &mut queue, &mut audio, is_play);
    assert!(!server.audio_already_prepared());
    let mut expected = vec![
        ServerAction::Announce(NotificationState::Idle),
        ServerAction::Announce(NotificationState::FadingOut),
    ];
    for percent in [15, 10, 5, 0] {
        expected.push(volume(percent));
        expected.push(pause());
    }
    expected.push(ServerAction::Audio(vec![mute(true), set_volume(75)]));
    expected.push(ServerAction::Announce(NotificationState::Playing));
    expected.push(ServerAction::Play { sound: "ding.wav".to_string() });
    assert_eq!(actions, expected);
    assert_eq!(audio, (75, true));
}

#[test]
fn interruption_before_the_first_fade_in_step_ducks_again() {
    let mut guard = guard();
    let mut server = NotificationServer::new(&guard, settings());
    let mut queue = RequestQueue::new();
    queue.enqueue("beep.wav".to_string());
    let mut audio = (50, false);
    run_until(&mut server, &mut guard, &mut queue, &mut audio, is_play);
    for _ in 0..2 {
        let action = run_notification_server(&mut server, &mut guard, &mut queue, true, false);
        carry_out(&mut audio, &action);
    }
    assert_eq!(audio, (75, false));
    assert_eq!(guard.fade_state(), 0);

    queue.enqueue("ding.wav".to_string());
    let actions = run_until(&mut server, &mut guard, &mut queue, &mut audio, is_play);
    assert_eq!(
        actions,
        vec![
            ServerAction::Announce(NotificationState::Idle),
            ServerAction::Announce(NotificationState::FadingOut),
            ServerAction::Audio(vec![mute(true), set_volume(75)]),
            ServerAction::Announce(NotificationState::Playing),
            ServerAction::Play { sound: "ding.wav".to_string() },
        ]
    );
    assert_eq!(audio, (75, true));
}

#[test]
fn every_sound_is_played_over_ducked_audio() {
    let mut guard = guard();
    let mut server = NotificationServer::new(&guard, settings());
    let mut queue = RequestQueue::new();
    queue.enqueue("first.wav".to_string());
    let mut audio = (50, false);
    let mut plays = 0;
    for step in 0..400 {
        if step % 7 == 3 && plays < 12 {
            queue.enqueue(format!("sound-{}.wav", step));
        }
        let action = run_notification_server(&mut server, &mut guard, &mut queue, true, false);
        if is_play(&action) {
            assert_eq!(audio, (75, true), "step {}", step);
            plays += 1;
        }
        carry_out(&mut audio, &action);
        if is_exit(&action) {
            break;
        }
    }
    assert!(plays > 1);
    assert_eq!(audio, (50, false));
    assert_eq!(server.phase(), ServerPhase::Stopped);
}

#[test]
fn shutdown_during_the_fade_in_is_restored_by_the_server() {
    let mut guard = guard();
    let mut server = NotificationServer::new(&guard, settings());
    let mut queue = RequestQueue::new();
    queue.enqueue("beep.wav".to_string());
    let mut audio = (50, false);
    run_until(&mut server, &mut guard, &mut queue, &mut audio, is_play);
    loop {
        let action = run_notification_server(&mut server, &mut guard, &mut queue, true, false);
        carry_out(&mut audio, &action);
        if action == volume(10) {
            break;
        }
    }
    run_notification_server(&mut server, &mut guard, &mut queue, true, false);
    assert_eq!(guard.fade_state(), 2);
    assert_eq!(audio, (10, false));

    let mut actions = Vec::new();
    loop {
        let action = run_notification_server(&mut server, &mut guard, &mut queue, false, false);
        carry_out(&mut audio, &action);
        let done = is_exit(&action);
        actions.push(action);
        if done {
            break;
        }
    }
    assert_eq!(actions, vec![restoration(), ServerAction::ReleaseLock, ServerAction::Exit]);
    assert_eq!(audio, (50, false));
    assert_eq!(guard.fade_state(), FADE_STEPS);
}

#[test]
fn shutdown_while_ducked_restores_once_and_leaves() {
    let mut guard = guard();
    let mut server = NotificationServer::new(&guard, settings());
    let mut queue = RequestQueue::new();
    queue.enqueue("beep.wav".to_string());
    let mut audio = (50, false);
    run_until(&mut server, &mut guard, &mut queue, &mut audio, is_play);
    assert_eq!(audio, (75, true));

    let mut actions = Vec::new();
    loop {
        let action = run_notification_server(&mut server, &mut guard, &mut queue, false, false);
        carry_out(&mut audio, &action);
        let done = is_exit(&action);
        actions.push(action);
        if done {
            break;
        }
    }
    assert_eq!(actions, vec![restoration(), ServerAction::ReleaseLock, ServerAction::Exit]);
    assert_eq!(audio, (50, false));
    assert!(guard.is_cleaned_up());
    assert_eq!(guard.fade_state(), FADE_STEPS);
}

#[test]
fn shutdown_with_a_request_waiting_plays_nothing_more() {
    let mut guard = guard();
    let mut server = NotificationServer::new(&guard, settings());
    let mut queue = RequestQueue::new();
    queue.enqueue("beep.wav".to_string());
    let mut audio = (50, false);
    run_until(&mut server, &mut guard, &mut queue, &mut audio, is_play);
    queue.enqueue("ding.wav".to_string());

    let mut actions = Vec::new();
    loop {
        let action = run_notification_server(&mut server, &mut guard, &mut queue, false, true);
        carry_out(&mut audio, &action);
        let done = is_exit(&action);
        actions.push(action);
        if done {
            break;
        }
    }
    assert_eq!(actions, vec![restoration(), ServerAction::ReleaseLock, ServerAction::Exit]);
    assert_eq!(audio, (50, false));
    assert_eq!(queue.len(), 1);
}

#[test]
fn server_with_nothing_to_play_restores_and_leaves() {
    let mut guard = guard();
    let mut server = NotificationServer::new(&guard, settings());
    let mut queue = RequestQueue::new();
    let mut audio = (50, false);
    let actions = run_until(&mut server, &mut guard, &mut queue, &mut audio, is_exit);
    assert_eq!(actions, vec![restoration(), ServerAction::ReleaseLock, ServerAction::Exit]);
}

#[test]
fn cleanup_by_the_host_after_a_failure_restores_the_audio() {
    let mut guard = guard();
    let mut server = NotificationServer::new(&guard, settings());
    let mut queue = RequestQueue::new();
    queue.enqueue("beep.wav".to_string());
    let mut audio = (50, false);
    run_until(&mut server, &mut guard, &mut queue, &mut audio, is_play);
    assert_eq!(audio, (75, true));
    let owed = ServerAction::Audio(guard.cleanup());
    assert_eq!(owed, restoration());
    carry_out(&mut audio, &owed);
    assert_eq!(audio, (50, false));
}
