use vh_notification_sound::fade::{fade_audio_in, fade_audio_out, fade_volume, FadeStep, FADE_STEPS};
use vh_notification_sound::guard::{AudioStateGuard, PulseAudioState};
use vh_notification_sound::queue::RequestQueue;

fn guard_at(volume: u8) -> AudioStateGuard {
    AudioStateGuard::new(PulseAudioState {
        default_sink: "speakers".to_string(),
        current_volume: volume,
        unmuted_inputs: vec!["7".to_string()],
    })
}

#[test]
fn fade_volume_rounds_down() {
    assert_eq!(fade_volume(50, 3), 15);
    assert_eq!(fade_volume(75, 1), 7);
    assert_eq!(fade_volume(33, 5), 16);
    assert_eq!(fade_volume(255, 9), 229);
}

#[test]
fn fade_volume_reaches_both_ends() {
    assert_eq!(fade_volume(50, 0), 0);
    assert_eq!(fade_volume(50, FADE_STEPS), 50);
    assert_eq!(fade_volume(255, FADE_STEPS), 255);
    assert_eq!(fade_volume(0, 7), 0);
}

#[test]
fn fade_volume_never_falls_as_the_position_rises() {
    for original in 0..=255u8 {
        let mut last = 0u8;
        for position in 0..=FADE_STEPS {
            let volume = fade_volume(original, position);
            assert!(volume >= last);
            assert!(volume <= original);
            last = volume;
        }
        assert_eq!(last, original);
    }
}

#[test]
fn fade_out_begins_one_position_below_the_guard() {
    let guard = guard_at(50);
    assert_eq!(guard.fade_state(), FADE_STEPS);
    assert_eq!(fade_audio_out(&guard, true), FadeStep::Apply { position: 9, volume: 45 });
}

#[test]
fn fade_out_is_cancelled_by_shutdown() {
    let guard = guard_at(50);
    assert_eq!(fade_audio_out(&guard, false), FadeStep::Cancelled);
    assert_eq!(guard.fade_state(), FADE_STEPS);
}

#[test]
fn fade_in_applies_the_position_it_is_given() {
    let guard = guard_at(50);
    let queue = RequestQueue::new();
    assert_eq!(fade_audio_in(&guard, 0, true, &queue), FadeStep::Apply { position: 0, volume: 0 });
    assert_eq!(fade_audio_in(&guard, 4, true, &queue), FadeStep::Apply { position: 4, volume: 20 });
    assert_eq!(
        fade_audio_in(&guard, FADE_STEPS, true, &queue),
        FadeStep::Apply { position: 10, volume: 50 }
    );
    assert_eq!(fade_audio_in(&guard, FADE_STEPS + 1, true, &queue), FadeStep::Done);
}

#[test]
fn fade_in_stops_for_a_request_before_it_stops_for_shutdown() {
    let guard = guard_at(50);
    let mut queue = RequestQueue::new();
    assert_eq!(fade_audio_in(&guard, 3, false, &queue), FadeStep::Cancelled);
    queue.enqueue("ding.wav".to_string());
    assert_eq!(fade_audio_in(&guard, 3, true, &queue), FadeStep::Interrupted);
    assert_eq!(fade_audio_in(&guard, 3, false, &queue), FadeStep::Interrupted);
    assert_eq!(fade_audio_in(&guard, FADE_STEPS + 1, false, &queue), FadeStep::Done);
}
