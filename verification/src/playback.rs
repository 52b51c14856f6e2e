//! The playback state machine for one notification: duck the audio unless
//! it is ducked already, play the sound, and fade back in unless another
//! request cut the playback short.
//!
//! The machine never touches the audio subsystem itself. Each call of
//! [`play_notification`] takes what the host observed after carrying out the
//! previous action and hands out the next action.

use crate::fade::{
    fade_audio_in, fade_audio_out, fade_volume_at, in_step, lemma_fade_volume_bounds,
    lemma_fade_volume_full, lemma_fade_volume_monotone, out_step, step_interval, FadeStep,
    FADE_STEPS,
};
use crate::guard::{command_views, AudioCommand, AudioCommandView, AudioStateGuard, GuardView};
use crate::lock::NotificationState;
use crate::queue::RequestQueue;
use vstd::prelude::*;

verus! {

/// The playback parameters of a server, fixed when it starts.
#[derive(Clone, Copy, Debug, PartialEq, Eq)]
pub struct PlaybackSettings {
    /// Length of the fade-out, in nanoseconds. Zero disables it.
    pub fade_out: u64,
    /// Length of the fade-in, in nanoseconds. Zero disables it.
    pub fade_in: u64,
    /// Volume at which the notification is played, in percent.
    pub volume: u8,
}

/// Where a playback stands. Each phase but the first and the last is named
/// after the action that the host is carrying out.
#[derive(Clone, Copy, Debug, PartialEq, Eq, Structural)]
pub enum PlaybackPhase {
    /// Nothing has been handed out yet.
    Start,
    /// The record is being set to `FadingOut`.
    FadeOutAnnounced,
    /// A fade-out volume is being set; `position` is recorded once it is.
    FadeOutApplied { position: u8 },
    /// The pause after a fade-out step.
    FadeOutPaused,
    /// The streams are being muted and the notification volume set.
    Ducked,
    /// The record is being set to `Playing`.
    PlayingAnnounced,
    /// The sound is playing.
    Playing,
    /// The record is being set to `FadingIn`.
    FadeInAnnounced,
    /// The streams are being unmuted.
    Unmuted,
    /// A fade-in volume is being set; `position` is recorded once it is.
    FadeInApplied { position: u8 },
    /// The pause after a fade-in step; `next` is the position that follows.
    FadeInPaused { next: u8 },
    /// The original volume is being set at the end of a fade-in.
    FadeInRestored,
    /// The original volume is being set in place of a fade-in.
    SnapRestored,
    /// The record is being set to `Idle`.
    IdleAnnounced,
    /// The playback is over, with this outcome.
    Finished { completed: bool, interrupted: bool },
}

/// What the host observed after it carried out the previous action.
pub struct Observation {
    /// The shutdown signal has not arrived.
    pub running: bool,
    /// The request queue is not empty.
    pub pending: bool,
    /// The monitor cut the sound short because a request arrived.
    pub interrupted: bool,
}

/// What the host is to do next.
#[derive(Clone, Debug, PartialEq, Eq)]
pub enum PlaybackAction {
    /// Set the state in the lock record, if the record can be read.
    Announce(NotificationState),
    /// Carry out the commands in order; a failure ends the playback.
    Audio(Vec<AudioCommand>),
    /// Wait.
    Pause { nanos: u64 },
    /// Play the sound until it ends or the monitor stops it.
    Play { sound: String },
    /// The playback is over.
    Finish { completed: bool, interrupted: bool },
}

/// The mathematical content of a [`PlaybackAction`].
pub enum PlaybackActionView {
    Announce(NotificationState),
    Audio(Seq<AudioCommandView>),
    Pause { nanos: u64 },
    Play { sound: Seq<char> },
    Finish { completed: bool, interrupted: bool },
}

impl View for PlaybackAction {
    type V = PlaybackActionView;

    open spec fn view(&self) -> PlaybackActionView {
        match self {
            PlaybackAction::Announce(state) => PlaybackActionView::Announce(*state),
            PlaybackAction::Audio(commands) => PlaybackActionView::Audio(command_views(commands@)),
            PlaybackAction::Pause { nanos } => PlaybackActionView::Pause { nanos: *nanos },
            PlaybackAction::Play { sound } => PlaybackActionView::Play { sound: sound@ },
            PlaybackAction::Finish { completed, interrupted } => PlaybackActionView::Finish {
                completed: *completed,
                interrupted: *interrupted,
            },
        }
    }
}

/// The mathematical content of a [`NotificationContext`].
pub struct ContextView {
    pub sound: Seq<char>,
    pub settings: PlaybackSettings,
    pub enable_fading: bool,
    pub prepared: bool,
    pub phase: PlaybackPhase,
}

/// The result of one step: the new phase, the guard as the step leaves it,
/// and the action handed out.
pub struct PlaybackStep {
    pub phase: PlaybackPhase,
    pub guard: GuardView,
    pub action: PlaybackActionView,
}

/// A step that hands out audio commands.
pub open spec fn audio(
    phase: PlaybackPhase,
    guard: GuardView,
    commands: Seq<AudioCommandView>,
) -> PlaybackStep {
    PlaybackStep { phase, guard, action: PlaybackActionView::Audio(commands) }
}

/// A step that announces a state in the lock record.
pub open spec fn announce(
    phase: PlaybackPhase,
    guard: GuardView,
    state: NotificationState,
) -> PlaybackStep {
    PlaybackStep { phase, guard, action: PlaybackActionView::Announce(state) }
}

/// The step that ends a playback.
pub open spec fn finish(guard: GuardView, completed: bool, interrupted: bool) -> PlaybackStep {
    PlaybackStep {
        phase: PlaybackPhase::Finished { completed, interrupted },
        guard,
        action: PlaybackActionView::Finish { completed, interrupted },
    }
}

impl ContextView {
    /// Whether there is a fade-out to run: something was playing when the
    /// snapshot was taken, and the fade-out has a length.
    pub open spec fn fades_out(self) -> bool {
        self.enable_fading && self.settings.fade_out > 0
    }

    /// Whether there is a fade-in to run: something was playing when the
    /// snapshot was taken, and the fade-in has a length.
    pub open spec fn fades_in(self) -> bool {
        self.enable_fading && self.settings.fade_in > 0
    }

    /// What follows the fade-out, whether it ran, was skipped or was cut
    /// short: on shutdown the playback ends; otherwise every stream of the
    /// snapshot is muted and the notification volume is set.
    pub open spec fn after_fade_out(self, guard: GuardView, seen: Observation) -> PlaybackStep {
        if !seen.running {
            finish(guard, false, false)
        } else {
            audio(
                PlaybackPhase::Ducked,
                guard,
                guard.mute_commands(true).push(guard.volume_command(self.settings.volume)),
            )
        }
    }

    /// One turn of the fade-out loop.
    pub open spec fn next_fade_out(self, guard: GuardView, seen: Observation) -> PlaybackStep {
        match out_step(guard, seen.running) {
            FadeStep::Apply { position, volume } => audio(
                PlaybackPhase::FadeOutApplied { position },
                guard,
                seq![guard.volume_command(volume)],
            ),
            _ => self.after_fade_out(guard, seen),
        }
    }

    /// The original volume is set again, at the end of a fade-in that ran
    /// to its end.
    pub open spec fn restore_after_fade(self, guard: GuardView) -> PlaybackStep {
        audio(PlaybackPhase::FadeInRestored, guard, seq![guard.volume_command(guard.volume)])
    }

    /// One turn of the fade-in loop, with `next` the position to apply. A
    /// request ends the playback as interrupted, a shutdown ends it as
    /// cancelled; either way no volume is set and the fade position stays.
    pub open spec fn next_fade_in(self, guard: GuardView, next: u8, seen: Observation)
        -> PlaybackStep {
        match in_step(guard, next, seen.running, seen.pending) {
            FadeStep::Apply { position, volume } => audio(
                PlaybackPhase::FadeInApplied { position },
                guard,
                seq![guard.volume_command(volume)],
            ),
            FadeStep::Interrupted => finish(guard, false, true),
            FadeStep::Cancelled => finish(guard, false, false),
            FadeStep::Done => self.restore_after_fade(guard),
        }
    }

    /// The transition function of the playback machine.
    ///
    /// A shutdown ends the playback where it stands, as neither completed
    /// nor interrupted, at the points at which it is looked for: before the
    /// fade-out, at each of its turns, before the streams are muted, after
    /// the sound, before the fade-in and at each of its turns. Nothing is
    /// set on the way and the fade position is left as it is. The fade
    /// position snaps to 0, or to `FADE_STEPS`, only where the server runs
    /// and there is no fade to run.
    pub open spec fn step(self, guard: GuardView, seen: Observation) -> PlaybackStep {
        match self.phase {
            PlaybackPhase::Start => if self.prepared {
                announce(PlaybackPhase::PlayingAnnounced, guard, NotificationState::Playing)
            } else {
                announce(PlaybackPhase::FadeOutAnnounced, guard, NotificationState::FadingOut)
            },
            PlaybackPhase::FadeOutAnnounced => if !seen.running {
                finish(guard, false, false)
            } else if self.fades_out() {
                self.next_fade_out(guard, seen)
            } else {
                self.after_fade_out(guard.at_position(0), seen)
            },
            PlaybackPhase::FadeOutApplied { position } => PlaybackStep {
                phase: PlaybackPhase::FadeOutPaused,
                guard: guard.at_position(position),
                action: PlaybackActionView::Pause { nanos: step_interval(self.settings.fade_out) },
            },
            PlaybackPhase::FadeOutPaused => self.next_fade_out(guard, seen),
            PlaybackPhase::Ducked => announce(
                PlaybackPhase::PlayingAnnounced,
                guard,
                NotificationState::Playing,
            ),
            PlaybackPhase::PlayingAnnounced => PlaybackStep {
                phase: PlaybackPhase::Playing,
                guard,
                action: PlaybackActionView::Play { sound: self.sound },
            },
            PlaybackPhase::Playing => if seen.interrupted || seen.pending {
                finish(guard, false, true)
            } else if !seen.running {
                finish(guard, false, false)
            } else {
                announce(PlaybackPhase::FadeInAnnounced, guard, NotificationState::FadingIn)
            },
            PlaybackPhase::FadeInAnnounced => audio(
                PlaybackPhase::Unmuted,
                guard,
                guard.mute_commands(false),
            ),
            PlaybackPhase::Unmuted => if self.fades_in() {
                self.next_fade_in(guard, guard.position, seen)
            } else if !seen.running {
                finish(guard, false, false)
            } else {
                audio(PlaybackPhase::SnapRestored, guard, seq![guard.volume_command(guard.volume)])
            },
            PlaybackPhase::FadeInApplied { position } => PlaybackStep {
                phase: PlaybackPhase::FadeInPaused { next: (position + 1) as u8 },
                guard: guard.at_position(position),
                action: PlaybackActionView::Pause { nanos: step_interval(self.settings.fade_in) },
            },
            PlaybackPhase::FadeInPaused { next } => self.next_fade_in(guard, next, seen),
            PlaybackPhase::FadeInRestored => if seen.pending {
                finish(guard, false, true)
            } else {
                announce(PlaybackPhase::IdleAnnounced, guard, NotificationState::Idle)
            },
            PlaybackPhase::SnapRestored => announce(
                PlaybackPhase::IdleAnnounced,
                guard.at_position(FADE_STEPS),
                NotificationState::Idle,
            ),
            PlaybackPhase::IdleAnnounced => finish(guard, true, false),
            PlaybackPhase::Finished { completed, interrupted } => finish(
                guard,
                completed,
                interrupted,
            ),
        }
    }

    /// The same playback in another phase.
    pub open spec fn in_phase(self, phase: PlaybackPhase) -> ContextView {
        ContextView { phase, ..self }
    }
}

/// The positions that a phase carries stay within the fade.
pub open spec fn phase_in_range(phase: PlaybackPhase) -> bool {
    match phase {
        PlaybackPhase::FadeOutApplied { position } => position <= FADE_STEPS,
        PlaybackPhase::FadeInApplied { position } => position <= FADE_STEPS,
        PlaybackPhase::FadeInPaused { next } => next <= FADE_STEPS + 1,
        _ => true,
    }
}

/// One notification on its way through the playback machine.
pub struct NotificationContext {
    sound_path: String,
    settings: PlaybackSettings,
    enable_fading: bool,
    audio_already_prepared: bool,
    phase: PlaybackPhase,
}

impl View for NotificationContext {
    type V = ContextView;

    closed spec fn view(&self) -> ContextView {
        ContextView {
            sound: self.sound_path@,
            settings: self.settings,
            enable_fading: self.enable_fading,
            prepared: self.audio_already_prepared,
            phase: self.phase,
        }
    }
}

fn single(command: AudioCommand) -> (commands: Vec<AudioCommand>)
    ensures
        command_views(commands@) == seq![command@],
{
    let mut commands: Vec<AudioCommand> = Vec::new();
    commands.push(command);
    assert(command_views(commands@) =~= seq![command@]);
    commands
}

impl NotificationContext {
    #[verifier::type_invariant]
    spec fn positions_in_range(self) -> bool {
        phase_in_range(self.phase)
    }

    /// A playback that has not begun. `enable_fading` says whether there is
    /// anything to fade; `audio_already_prepared` says that the previous
    /// playback left the audio ducked.
    pub fn new(
        sound_path: String,
        settings: PlaybackSettings,
        enable_fading: bool,
        audio_already_prepared: bool,
    ) -> (ctx: Self)
        ensures
            ctx@ == (ContextView {
                sound: sound_path@,
                settings,
                enable_fading,
                prepared: audio_already_prepared,
                phase: PlaybackPhase::Start,
            }),
    {
        NotificationContext {
            sound_path,
            settings,
            enable_fading,
            audio_already_prepared,
            phase: PlaybackPhase::Start,
        }
    }

    /// The phase that the playback is in.
    pub fn phase(&self) -> (phase: PlaybackPhase)
        ensures
            phase == self@.phase,
            phase_in_range(phase),
    {
        proof {
            use_type_invariant(self);
        }
        self.phase
    }

    /// The sound that this playback plays.
    pub fn sound_path(&self) -> (sound: &String)
        ensures
            sound@ == self@.sound,
    {
        &self.sound_path
    }

    fn finish(&mut self, completed: bool, interrupted: bool) -> (action: PlaybackAction)
        ensures
            final(self)@ == old(self)@.in_phase(PlaybackPhase::Finished { completed, interrupted }),
            action@ == (PlaybackActionView::Finish { completed, interrupted }),
    {
        self.phase = PlaybackPhase::Finished { completed, interrupted };
        PlaybackAction::Finish { completed, interrupted }
    }

    fn announce(&mut self, phase: PlaybackPhase, state: NotificationState) -> (action:
        PlaybackAction)
        requires
            phase_in_range(phase),
        ensures
            final(self)@ == old(self)@.in_phase(phase),
            action@ == PlaybackActionView::Announce(state),
    {
        self.phase = phase;
        PlaybackAction::Announce(state)
    }

    fn after_fade_out(&mut self, guard: &AudioStateGuard, running: bool) -> (action:
        PlaybackAction)
        ensures
            ({
                let seen = Observation { running, pending: false, interrupted: false };
                let step = old(self)@.after_fade_out(guard@, seen);
                &&& final(self)@ == old(self)@.in_phase(step.phase)
                &&& action@ == step.action
            }),
    {
        if !running {
            self.finish(false, false)
        } else {
            let mut commands = guard.mute_commands(true);
            let ghost mutes = commands@;
            let duck = guard.volume_command(self.settings.volume);
            commands.push(duck);
            assert(command_views(commands@) =~= command_views(mutes).push(duck@));
            self.phase = PlaybackPhase::Ducked;
            PlaybackAction::Audio(commands)
        }
    }

    fn next_fade_out(&mut self, guard: &AudioStateGuard, running: bool) -> (action:
        PlaybackAction)
        ensures
            ({
                let seen = Observation { running, pending: false, interrupted: false };
                let step = old(self)@.next_fade_out(guard@, seen);
                &&& final(self)@ == old(self)@.in_phase(step.phase)
                &&& action@ == step.action
            }),
    {
        match fade_audio_out(guard, running) {
            FadeStep::Apply { position, volume } => {
                self.phase = PlaybackPhase::FadeOutApplied { position };
                PlaybackAction::Audio(single(guard.volume_command(volume)))
            },
            _ => self.after_fade_out(guard, running),
        }
    }

    fn restore_after_fade(&mut self, guard: &AudioStateGuard) -> (action: PlaybackAction)
        ensures
            ({
                let step = old(self)@.restore_after_fade(guard@);
                &&& final(self)@ == old(self)@.in_phase(step.phase)
                &&& action@ == step.action
            }),
    {
        self.phase = PlaybackPhase::FadeInRestored;
        PlaybackAction::Audio(single(guard.volume_command(guard.current_volume())))
    }

    fn next_fade_in(
        &mut self,
        guard: &AudioStateGuard,
        next: u8,
        running: bool,
        queue: &RequestQueue,
    ) -> (action: PlaybackAction)
        ensures
            ({
                let seen = Observation { running, pending: queue@.len() > 0, interrupted: false };
                let step = old(self)@.next_fade_in(guard@, next, seen);
                &&& final(self)@ == old(self)@.in_phase(step.phase)
                &&& action@ == step.action
            }),
    {
        match fade_audio_in(guard, next, running, queue) {
            FadeStep::Apply { position, volume } => {
                self.phase = PlaybackPhase::FadeInApplied { position };
                PlaybackAction::Audio(single(guard.volume_command(volume)))
            },
            FadeStep::Interrupted => self.finish(false, true),
            FadeStep::Cancelled => self.finish(false, false),
            FadeStep::Done => self.restore_after_fade(guard),
        }
    }
}

/// Advances a playback by one step.
///
/// The caller has carried out the action that the previous call handed out
/// (none before the first call) and passes what it observes now: whether the
/// queue holds a request, whether the server is still running, and, after
/// the sound was played, whether the monitor cut it short. The result is the
/// next action; the new phase and the guard's fade position are exactly
/// those of the transition function [`ContextView::step`]. A fade position is
/// recorded only once the host has applied its volume, and a shutdown leaves
/// it where it is.
pub fn play_notification(
    ctx: &mut NotificationContext,
    guard: &mut AudioStateGuard,
    queue: &RequestQueue,
    running: bool,
    interrupted: bool,
) -> (action: PlaybackAction)
    ensures
        ({
            let seen = Observation { running, pending: queue@.len() > 0, interrupted };
            let step = old(ctx)@.step(old(guard)@, seen);
            &&& final(ctx)@ == old(ctx)@.in_phase(step.phase)
            &&& final(guard)@ == step.guard
            &&& action@ == step.action
        }),
{
    let pending = !queue.is_empty();
    let phase = ctx.phase();
    match phase {
        PlaybackPhase::Start => {
            if ctx.audio_already_prepared {
                ctx.announce(PlaybackPhase::PlayingAnnounced, NotificationState::Playing)
            } else {
                ctx.announce(PlaybackPhase::FadeOutAnnounced, NotificationState::FadingOut)
            }
        },
        PlaybackPhase::FadeOutAnnounced => {
            if !running {
                ctx.finish(false, false)
            } else if ctx.enable_fading && ctx.settings.fade_out > 0 {
                ctx.next_fade_out(guard, running)
            } else {
                guard.set_fade_state(0);
                ctx.after_fade_out(guard, running)
            }
        },
        PlaybackPhase::FadeOutApplied { position } => {
            guard.set_fade_state(position);
            ctx.phase = PlaybackPhase::FadeOutPaused;
            PlaybackAction::Pause { nanos: ctx.settings.fade_out / (FADE_STEPS as u64) }
        },
        PlaybackPhase::FadeOutPaused => ctx.next_fade_out(guard, running),
        PlaybackPhase::Ducked => ctx.announce(
            PlaybackPhase::PlayingAnnounced,
            NotificationState::Playing,
        ),
        PlaybackPhase::PlayingAnnounced => {
            ctx.phase = PlaybackPhase::Playing;
            PlaybackAction::Play { sound: ctx.sound_path.clone() }
        },
        PlaybackPhase::Playing => {
            if interrupted || pending {
                ctx.finish(false, true)
            } else if !running {
                ctx.finish(false, false)
            } else {
                ctx.announce(PlaybackPhase::FadeInAnnounced, NotificationState::FadingIn)
            }
        },
        PlaybackPhase::FadeInAnnounced => {
            ctx.phase = PlaybackPhase::Unmuted;
            PlaybackAction::Audio(guard.mute_commands(false))
        },
        PlaybackPhase::Unmuted => {
            if ctx.enable_fading && ctx.settings.fade_in > 0 {
                let start = guard.fade_state();
                ctx.next_fade_in(guard, start, running, queue)
            } else if !running {
                ctx.finish(false, false)
            } else {
                ctx.phase = PlaybackPhase::SnapRestored;
                PlaybackAction::Audio(single(guard.volume_command(guard.current_volume())))
            }
        },
        PlaybackPhase::FadeInApplied { position } => {
            guard.set_fade_state(position);
            ctx.phase = PlaybackPhase::FadeInPaused { next: position + 1 };
            PlaybackAction::Pause { nanos: ctx.settings.fade_in / (FADE_STEPS as u64) }
        },
        PlaybackPhase::FadeInPaused { next } => ctx.next_fade_in(guard, next, running, queue),
        PlaybackPhase::FadeInRestored => {
            if pending {
                ctx.finish(false, true)
            } else {
                ctx.announce(PlaybackPhase::IdleAnnounced, NotificationState::Idle)
            }
        },
        PlaybackPhase::SnapRestored => {
            guard.set_fade_state(FADE_STEPS);
            ctx.announce(PlaybackPhase::IdleAnnounced, NotificationState::Idle)
        },
        PlaybackPhase::IdleAnnounced => ctx.finish(true, false),
        PlaybackPhase::Finished { completed, interrupted } => ctx.finish(completed, interrupted),
    }
}

/// Time between two looks of the monitor at the queue, in nanoseconds.
pub const MONITOR_INTERVAL: u64 = 50_000_000;

/// Time after which the monitor gives up watching, in nanoseconds.
pub const MONITOR_TIMEOUT: u64 = 10_000_000_000;

/// The volume of the notification where nothing else is asked for.
pub const DEFAULT_VOLUME: u8 = 75;

/// The loudest that a notification can be asked to be, in percent.
pub const MAX_VOLUME: u8 = 100;

/// What the monitor of a playing sound does next.
#[derive(Clone, Copy, Debug, PartialEq, Eq, Structural)]
pub enum MonitorStep {
    /// Stop watching.
    Stop,
    /// Report an interruption, end the sound, and stop watching.
    Interrupt,
    /// Look again after this many nanoseconds.
    Wait { nanos: u64 },
}

/// The decision of the monitor, `elapsed` nanoseconds after the sound
/// began. It stops once the timeout has passed, whatever the queue holds,
/// and when the server shuts down or the sound is over; it interrupts the
/// sound when a request is waiting; otherwise it waits for one interval.
pub open spec fn monitor_step(elapsed: u64, running: bool, playing: bool, pending: bool)
    -> MonitorStep {
    if elapsed > MONITOR_TIMEOUT || !running || !playing {
        MonitorStep::Stop
    } else if pending {
        MonitorStep::Interrupt
    } else {
        MonitorStep::Wait { nanos: MONITOR_INTERVAL }
    }
}

/// Decides what the monitor of a playing sound does next.
pub fn monitor_playback(elapsed: u64, running: bool, playing: bool, queue: &RequestQueue) -> (step:
    MonitorStep)
    ensures
        step == monitor_step(elapsed, running, playing, queue@.len() > 0),
{
    if elapsed > MONITOR_TIMEOUT || !running || !playing {
        MonitorStep::Stop
    } else if !queue.is_empty() {
        MonitorStep::Interrupt
    } else {
        MonitorStep::Wait { nanos: MONITOR_INTERVAL }
    }
}

/// The first of the given volumes that is there, in the order command line,
/// environment, configuration; the default where none is; and never more
/// than `MAX_VOLUME`.
pub open spec fn volume_of(
    argument: Option<u8>,
    environment: Option<u8>,
    configured: Option<u8>,
) -> u8 {
    let asked = match argument {
        Some(volume) => volume,
        None => match environment {
            Some(volume) => volume,
            None => match configured {
                Some(volume) => volume,
                None => DEFAULT_VOLUME,
            },
        },
    };
    if asked > MAX_VOLUME {
        MAX_VOLUME
    } else {
        asked
    }
}

/// Settles the volume of the notification.
pub fn resolve_volume(argument: Option<u8>, environment: Option<u8>, configured: Option<u8>) -> (volume:
    u8)
    ensures
        volume == volume_of(argument, environment, configured),
        volume <= MAX_VOLUME,
{
    let asked = match argument {
        Some(volume) => volume,
        None => match environment {
            Some(volume) => volume,
            None => match configured {
                Some(volume) => volume,
                None => DEFAULT_VOLUME,
            },
        },
    };
    if asked > MAX_VOLUME {
        MAX_VOLUME
    } else {
        asked
    }
}

/// A step changes nothing of the guard but its fade position, and keeps
/// every position within the fade.
pub proof fn lemma_step_moves_position_only(ctx: ContextView, guard: GuardView, seen: Observation)
    requires
        phase_in_range(ctx.phase),
        guard.position <= FADE_STEPS,
    ensures
        ({
            let step = ctx.step(guard, seen);
            &&& step.guard == guard.at_position(step.guard.position)
            &&& step.guard.position <= FADE_STEPS
            &&& phase_in_range(step.phase)
        }),
{
}

/// Interruption skips the fade-in: when the sound has been played and a
/// request is waiting, or the monitor cut the sound short, the playback ends
/// at once as interrupted and not completed. No volume is set on the way,
/// the fade position stays where it was, and the playback, being over, hands
/// out nothing but the same outcome from then on.
pub proof fn lemma_interruption_skips_fade_in(
    ctx: ContextView,
    guard: GuardView,
    seen: Observation,
    later: Observation,
)
    requires
        ctx.phase == PlaybackPhase::Playing,
        seen.pending || seen.interrupted,
    ensures
        ctx.step(guard, seen) == finish(guard, false, true),
        ctx.in_phase(ctx.step(guard, seen).phase).step(guard, later) == finish(guard, false, true),
{
}

/// A request that arrives during the fade-in stops it before the next
/// volume is set: the playback ends as interrupted, and the fade position
/// is the last one whose volume was set.
pub proof fn lemma_request_stops_fade_in(
    ctx: ContextView,
    guard: GuardView,
    seen: Observation,
    next: u8,
)
    requires
        ctx.phase == (PlaybackPhase::FadeInPaused { next }),
        next <= FADE_STEPS,
        seen.pending,
    ensures
        ctx.step(guard, seen) == finish(guard, false, true),
{
}

/// A shutdown ends the playback in place. Before the fade-out and at each of
/// its turns, after the sound, and, while no request waits, before the
/// fade-in and at each of its turns, a cleared shutdown flag ends the
/// playback as neither completed nor interrupted. No volume is set, no
/// stream is touched, and the fade position is the one before the step, so
/// that the server restores the audio from where the playback stopped.
pub proof fn lemma_shutdown_ends_playback_in_place(
    ctx: ContextView,
    guard: GuardView,
    seen: Observation,
)
    requires
        !seen.running,
        match ctx.phase {
            PlaybackPhase::FadeOutAnnounced => true,
            PlaybackPhase::FadeOutPaused => true,
            PlaybackPhase::Playing => !seen.pending && !seen.interrupted,
            PlaybackPhase::Unmuted => !seen.pending,
            PlaybackPhase::FadeInPaused { next } => !seen.pending && next <= FADE_STEPS,
            _ => false,
        },
        guard.position <= FADE_STEPS,
    ensures
        ctx.step(guard, seen) == finish(guard, false, false),
{
}

/// One turn of an undisturbed fade-out: the volume of the position just
/// below the guard's is set, then that position is recorded and one step
/// interval passes. The volume set is no louder than that of the position
/// before, so the volumes of a fade-out never rise.
pub proof fn lemma_fade_out_turn(
    ctx: ContextView,
    guard: GuardView,
    seen: Observation,
    later: Observation,
)
    requires
        ctx.phase == PlaybackPhase::FadeOutPaused || (ctx.phase == PlaybackPhase::FadeOutAnnounced
            && ctx.fades_out()),
        0 < guard.position <= FADE_STEPS,
        seen.running,
    ensures
        ({
            let below = (guard.position - 1) as u8;
            let volume = fade_volume_at(guard.volume, below);
            let set = ctx.step(guard, seen);
            let paused = ctx.in_phase(set.phase).step(set.guard, later);
            &&& set.action == PlaybackActionView::Audio(seq![guard.volume_command(volume as u8)])
            &&& set.guard == guard
            &&& paused.action == (PlaybackActionView::Pause {
                nanos: step_interval(ctx.settings.fade_out),
            })
            &&& paused.guard == guard.at_position(below)
            &&& paused.phase == PlaybackPhase::FadeOutPaused
            &&& 0 <= volume <= fade_volume_at(guard.volume, guard.position) <= guard.volume
        }),
{
    let below = (guard.position - 1) as u8;
    lemma_fade_volume_monotone(guard.volume, below, guard.position);
    lemma_fade_volume_bounds(guard.volume, below);
    lemma_fade_volume_bounds(guard.volume, guard.position);
}

/// One turn of an undisturbed fade-in that is about to apply position
/// `next`: its volume is set, then the position is recorded and one step
/// interval passes. As `next` is never below the guard's position, the
/// volumes of a fade-in never fall, and none exceeds the original volume.
pub proof fn lemma_fade_in_turn(
    ctx: ContextView,
    guard: GuardView,
    seen: Observation,
    later: Observation,
    next: u8,
)
    requires
        ctx.phase == (PlaybackPhase::FadeInPaused { next }) || (ctx.phase == PlaybackPhase::Unmuted
            && ctx.fades_in() && next == guard.position),
        guard.position <= next <= FADE_STEPS,
        seen.running,
        !seen.pending,
    ensures
        ({
            let volume = fade_volume_at(guard.volume, next);
            let set = ctx.step(guard, seen);
            let paused = ctx.in_phase(set.phase).step(set.guard, later);
            &&& set.action == PlaybackActionView::Audio(seq![guard.volume_command(volume as u8)])
            &&& set.guard == guard
            &&& paused.action == (PlaybackActionView::Pause {
                nanos: step_interval(ctx.settings.fade_in),
            })
            &&& paused.guard == guard.at_position(next)
            &&& paused.phase == (PlaybackPhase::FadeInPaused { next: (next + 1) as u8 })
            &&& fade_volume_at(guard.volume, guard.position) <= volume <= guard.volume
        }),
{
    lemma_fade_volume_monotone(guard.volume, guard.position, next);
    lemma_fade_volume_bounds(guard.volume, next);
}

/// The last step of a fade-in sets the original volume itself, not a scaled
/// one: when the fade has passed its last position, the volume of the
/// snapshot is set exactly.
pub proof fn lemma_fade_in_ends_at_original(
    ctx: ContextView,
    guard: GuardView,
    seen: Observation,
    next: u8,
)
    requires
        ctx.phase == (PlaybackPhase::FadeInPaused { next }),
        next > FADE_STEPS,
    ensures
        ctx.step(guard, seen) == audio(
            PlaybackPhase::FadeInRestored,
            guard,
            seq![guard.volume_command(guard.volume)],
        ),
{
}

/// The fade position snaps only where the server runs and there is no fade
/// to run: to 0 before the streams are muted, and to `FADE_STEPS` once the
/// original volume has been set in place of a fade-in.
pub proof fn lemma_position_snaps_without_fade(ctx: ContextView, guard: GuardView, seen: Observation)
    requires
        seen.running,
    ensures
        ctx.phase == PlaybackPhase::FadeOutAnnounced && !ctx.fades_out() ==> ctx.step(
            guard,
            seen,
        ).guard == guard.at_position(0),
        ctx.phase == PlaybackPhase::Unmuted && !ctx.fades_in() ==> ctx.step(guard, seen) == audio(
            PlaybackPhase::SnapRestored,
            guard,
            seq![guard.volume_command(guard.volume)],
        ),
        ctx.phase == PlaybackPhase::SnapRestored ==> ctx.step(guard, seen).guard
            == guard.at_position(FADE_STEPS),
{
}

/// A bound on the number of steps that a playback has left, whatever the
/// host observes on the way.
pub open spec fn steps_left(phase: PlaybackPhase, guard: GuardView) -> int {
    match phase {
        PlaybackPhase::Start => 53,
        PlaybackPhase::FadeOutAnnounced => 52,
        PlaybackPhase::FadeOutApplied { position } => 32 + 2 * position,
        PlaybackPhase::FadeOutPaused => 31 + 2 * guard.position,
        PlaybackPhase::Ducked => 30,
        PlaybackPhase::PlayingAnnounced => 29,
        PlaybackPhase::Playing => 28,
        PlaybackPhase::FadeInAnnounced => 27,
        PlaybackPhase::Unmuted => 26,
        PlaybackPhase::FadeInApplied { position } => 24 - 2 * position,
        PlaybackPhase::FadeInPaused { next } => 25 - 2 * next,
        PlaybackPhase::FadeInRestored => 2,
        PlaybackPhase::SnapRestored => 2,
        PlaybackPhase::IdleAnnounced => 1,
        PlaybackPhase::Finished { .. } => 0,
    }
}

/// A playback cannot go on for ever: every step of a playback that is not
/// over brings it closer to its end, whatever is observed, so that it is
/// over after 53 steps at most.
pub proof fn lemma_playback_ends(ctx: ContextView, guard: GuardView, seen: Observation)
    requires
        phase_in_range(ctx.phase),
        guard.position <= FADE_STEPS,
        !(ctx.phase is Finished),
    ensures
        ({
            let step = ctx.step(guard, seen);
            0 <= steps_left(step.phase, step.guard) < steps_left(ctx.phase, guard) <= 53
        }),
{
}

/// What a playback has done after a run of steps.
pub struct PlaybackRun {
    pub ctx: ContextView,
    pub guard: GuardView,
    pub actions: Seq<PlaybackActionView>,
}

impl ContextView {
    /// The playback after one step for each observation, with the actions
    /// that the steps hand out, in order.
    pub open spec fn run(self, guard: GuardView, seen: Seq<Observation>) -> PlaybackRun
        decreases seen.len(),
    {
        if seen.len() == 0 {
            PlaybackRun { ctx: self, guard, actions: Seq::empty() }
        } else {
            let step = self.step(guard, seen[0]);
            let rest = self.in_phase(step.phase).run(step.guard, seen.drop_first());
            PlaybackRun { actions: seq![step.action] + rest.actions, ..rest }
        }
    }
}

/// Nothing disturbs the playback: the server keeps running and no request
/// arrives.
pub open spec fn undisturbed(seen: Seq<Observation>) -> bool {
    forall|i: int| 0 <= i < seen.len() ==> (#[trigger] seen[i]).running && !seen[i].pending
}

/// The volumes that a fade-out sets, in order, when it begins with the fade
/// at position `start`: those of the positions below `start`, downwards.
pub open spec fn fade_out_volumes(original: u8, start: u8) -> Seq<int> {
    Seq::new(start as nat, |k: int| fade_volume_at(original, (start - 1 - k) as u8))
}

/// The volumes that the turns of a fade-in set, in order, when `next` is the
/// first position to apply: those of the positions from `next` up to
/// `FADE_STEPS`.
pub open spec fn fade_in_volumes(original: u8, next: u8) -> Seq<int> {
    Seq::new((FADE_STEPS + 1 - next) as nat, |k: int| fade_volume_at(original, (next + k) as u8))
}

/// The actions of a fade that sets the given volumes: for each volume, the
/// command that sets it and a pause of one interval.
pub open spec fn fade_actions(guard: GuardView, volumes: Seq<int>, interval: u64) -> Seq<
    PlaybackActionView,
> {
    Seq::new(
        2 * volumes.len(),
        |i: int|
            if i % 2 == 0 {
                PlaybackActionView::Audio(seq![guard.volume_command(volumes[i / 2] as u8)])
            } else {
                PlaybackActionView::Pause { nanos: interval }
            },
    )
}

/// The volumes of a fade-out never rise, and the last is 0.
pub proof fn lemma_fade_out_volumes_fall(original: u8, start: u8, earlier: int, later: int)
    requires
        start <= FADE_STEPS,
        0 <= earlier <= later < start,
    ensures
        original >= fade_out_volumes(original, start)[earlier] >= fade_out_volumes(
            original,
            start,
        )[later] >= 0,
        fade_out_volumes(original, start).last() == 0,
{
    let volumes = fade_out_volumes(original, start);
    assert(volumes.last() == volumes[start - 1]);
    lemma_fade_volume_full(original);
    lemma_fade_volume_monotone(original, (start - 1 - later) as u8, (start - 1 - earlier) as u8);
    lemma_fade_volume_bounds(original, (start - 1 - earlier) as u8);
    lemma_fade_volume_bounds(original, (start - 1 - later) as u8);
}

/// The volumes of a fade-in never fall and never exceed the original
/// volume, and the last is the original volume.
pub proof fn lemma_fade_in_volumes_rise(original: u8, next: u8, earlier: int, later: int)
    requires
        next <= FADE_STEPS,
        0 <= earlier <= later <= FADE_STEPS - next,
    ensures
        0 <= fade_in_volumes(original, next)[earlier] <= fade_in_volumes(original, next)[later]
            <= original,
        fade_in_volumes(original, next).last() == original,
{
    let volumes = fade_in_volumes(original, next);
    assert(volumes.last() == volumes[FADE_STEPS - next]);
    lemma_fade_volume_full(original);
    lemma_fade_volume_monotone(original, (next + earlier) as u8, (next + later) as u8);
    lemma_fade_volume_bounds(original, (next + earlier) as u8);
    lemma_fade_volume_bounds(original, (next + later) as u8);
}

proof fn lemma_fade_actions_unfold(guard: GuardView, volumes: Seq<int>, interval: u64)
    requires
        volumes.len() > 0,
    ensures
        fade_actions(guard, volumes, interval) == seq![
            PlaybackActionView::Audio(seq![guard.volume_command(volumes[0] as u8)]),
        ] + (seq![PlaybackActionView::Pause { nanos: interval }] + fade_actions(
            guard,
            volumes.drop_first(),
            interval,
        )),
{
    let whole = fade_actions(guard, volumes, interval);
    let rest = fade_actions(guard, volumes.drop_first(), interval);
    let built = seq![PlaybackActionView::Audio(seq![guard.volume_command(volumes[0] as u8)])] + (
    seq![PlaybackActionView::Pause { nanos: interval }] + rest);
    assert(whole.len() == built.len());
    assert forall|i: int| 0 <= i < whole.len() implies whole[i] == built[i] by {
        if i >= 2 {
            assert(built[i] == rest[i - 2]);
            assert((i - 2) % 2 == i % 2);
            assert((i - 2) / 2 == i / 2 - 1);
            assert(volumes.drop_first()[(i - 2) / 2] == volumes[i / 2]);
        }
    }
    assert(whole =~= built);
}

/// An undisturbed fade-out, step by step: from the pause of a fade-out with
/// the fade at position `p`, the next `2 * p` steps set the volumes of the
/// positions `p - 1` down to 0, each followed by a pause of one interval,
/// and leave the fade at position 0. As those volumes never rise, the output
/// never gets louder during a fade-out.
pub proof fn lemma_undisturbed_fade_out(ctx: ContextView, guard: GuardView, seen: Seq<Observation>)
    requires
        ctx.phase == PlaybackPhase::FadeOutPaused,
        guard.position <= FADE_STEPS,
        seen.len() == 2 * guard.position,
        undisturbed(seen),
    ensures
        ctx.run(guard, seen) == (PlaybackRun {
            ctx,
            guard: guard.at_position(0),
            actions: fade_actions(
                guard,
                fade_out_volumes(guard.volume, guard.position),
                step_interval(ctx.settings.fade_out),
            ),
        }),
    decreases guard.position,
{
    let volumes = fade_out_volumes(guard.volume, guard.position);
    let interval = step_interval(ctx.settings.fade_out);
    if guard.position == 0 {
        assert(fade_actions(guard, volumes, interval) =~= Seq::<PlaybackActionView>::empty());
        assert(guard.at_position(0) == guard);
    } else {
        let below = (guard.position - 1) as u8;
        let later = seen.drop_first();
        assert(seen[0].running && !seen[0].pending);
        assert(later[0] == seen[1]);
        assert(seen[1].running && !seen[1].pending);
        lemma_fade_out_turn(ctx, guard, seen[0], seen[1]);
        let set = ctx.step(guard, seen[0]);
        let paused = ctx.in_phase(set.phase).step(set.guard, seen[1]);
        let lowered = guard.at_position(below);
        let rest = later.drop_first();
        assert(ctx.in_phase(set.phase).in_phase(paused.phase) == ctx);
        assert forall|i: int| 0 <= i < rest.len() implies (#[trigger] rest[i]).running
            && !rest[i].pending by {
            assert(rest[i] == seen[i + 2]);
        }
        lemma_undisturbed_fade_out(ctx, lowered, rest);
        let run1 = ctx.in_phase(set.phase).run(set.guard, later);
        let run2 = ctx.run(lowered, rest);
        assert(run1 == (PlaybackRun { actions: seq![paused.action] + run2.actions, ..run2 }));
        assert(ctx.run(guard, seen) == (PlaybackRun {
            actions: seq![set.action] + run1.actions,
            ..run1
        }));
        let tail = fade_out_volumes(guard.volume, below);
        assert(volumes.drop_first() =~= tail);
        lemma_fade_actions_unfold(guard, volumes, interval);
        assert(fade_actions(lowered, tail, interval) =~= fade_actions(guard, tail, interval));
        assert(lowered.at_position(0) == guard.at_position(0));
        assert(volumes[0] == fade_volume_at(guard.volume, below));
    }
}

/// An undisturbed fade-in, step by step: from the pause of a fade-in that is
/// about to apply position `next`, the steps set the volumes of the
/// positions from `next` up to `FADE_STEPS`, each followed by a pause of one
/// interval, and then, as the last action of the fade, the original volume
/// itself. As those volumes never fall, the output never gets quieter during
/// a fade-in, and it ends at exactly the original volume.
pub proof fn lemma_undisturbed_fade_in(
    ctx: ContextView,
    guard: GuardView,
    seen: Seq<Observation>,
    next: u8,
)
    requires
        ctx.phase == (PlaybackPhase::FadeInPaused { next }),
        guard.position <= next <= FADE_STEPS + 1,
        guard.position <= FADE_STEPS,
        seen.len() == 2 * (FADE_STEPS + 1 - next) + 1,
        undisturbed(seen),
    ensures
        ctx.run(guard, seen) == (PlaybackRun {
            ctx: ctx.in_phase(PlaybackPhase::FadeInRestored),
            guard: if next <= FADE_STEPS {
                guard.at_position(FADE_STEPS)
            } else {
                guard
            },
            actions: fade_actions(
                guard,
                fade_in_volumes(guard.volume, next),
                step_interval(ctx.settings.fade_in),
            ).push(PlaybackActionView::Audio(seq![guard.volume_command(guard.volume)])),
        }),
    decreases FADE_STEPS + 1 - next,
{
    let volumes = fade_in_volumes(guard.volume, next);
    let interval = step_interval(ctx.settings.fade_in);
    let last = PlaybackActionView::Audio(seq![guard.volume_command(guard.volume)]);
    assert(seen[0].running && !seen[0].pending);
    if next > FADE_STEPS {
        let step = ctx.step(guard, seen[0]);
        let rest = ctx.in_phase(step.phase).run(step.guard, seen.drop_first());
        assert(rest.actions =~= Seq::<PlaybackActionView>::empty());
        assert(fade_actions(guard, volumes, interval) =~= Seq::<PlaybackActionView>::empty());
        assert(seq![step.action] + rest.actions =~= Seq::<PlaybackActionView>::empty().push(last));
    } else {
        let later = seen.drop_first();
        assert(later[0] == seen[1]);
        assert(seen[1].running && !seen[1].pending);
        lemma_fade_in_turn(ctx, guard, seen[0], seen[1], next);
        let set = ctx.step(guard, seen[0]);
        let paused = ctx.in_phase(set.phase).step(set.guard, seen[1]);
        let raised = guard.at_position(next);
        let after = ctx.in_phase(PlaybackPhase::FadeInPaused { next: (next + 1) as u8 });
        let rest = later.drop_first();
        assert(ctx.in_phase(set.phase).in_phase(paused.phase) == after);
        assert forall|i: int| 0 <= i < rest.len() implies (#[trigger] rest[i]).running
            && !rest[i].pending by {
            assert(rest[i] == seen[i + 2]);
        }
        lemma_undisturbed_fade_in(after, raised, rest, (next + 1) as u8);
        let run1 = ctx.in_phase(set.phase).run(set.guard, later);
        let run2 = after.run(raised, rest);
        assert(run1 == (PlaybackRun { actions: seq![paused.action] + run2.actions, ..run2 }));
        assert(ctx.run(guard, seen) == (PlaybackRun {
            actions: seq![set.action] + run1.actions,
            ..run1
        }));
        let tail = fade_in_volumes(guard.volume, (next + 1) as u8);
        assert(volumes.drop_first() =~= tail);
        lemma_fade_actions_unfold(guard, volumes, interval);
        assert(fade_actions(raised, tail, interval) =~= fade_actions(guard, tail, interval));
        assert(volumes[0] == fade_volume_at(guard.volume, next));
        assert(after.in_phase(PlaybackPhase::FadeInRestored) == ctx.in_phase(
            PlaybackPhase::FadeInRestored,
        ));
        assert(raised.at_position(FADE_STEPS) == guard.at_position(FADE_STEPS));
        let first = seq![PlaybackActionView::Audio(seq![guard.volume_command(volumes[0] as u8)])];
        let second = seq![PlaybackActionView::Pause { nanos: interval }];
        let middle = fade_actions(guard, tail, interval);
        assert(first + (second + middle.push(last)) =~= (first + (second + middle)).push(last));
    }
}

} // verus!
