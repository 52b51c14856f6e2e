//! The notification server loop: take the latest request, run it through
//! the playback machine, restore the audio where a playback left it ducked,
//! and give up the lock once nothing is waiting.
//!
//! Like the playback machine, the loop is a transition function. The host
//! carries out each action and calls [`run_notification_server`] again with
//! what it observes.

use crate::fade::FADE_STEPS;
use crate::guard::{
    apply_all, command_views, lemma_apply_all_push, lemma_mute_all_applied,
    lemma_restoration_restores, restored, AudioCommand, AudioCommandView, AudioStateGuard,
    AudioWorld, GuardView,
};
use crate::lock::NotificationState;
use crate::playback::{
    lemma_step_moves_position_only, phase_in_range, play_notification, ContextView,
    NotificationContext, Observation, PlaybackAction, PlaybackActionView, PlaybackPhase,
    PlaybackSettings,
};
use crate::queue::RequestQueue;
use vstd::prelude::*;

verus! {

/// Where the server loop stands.
#[derive(Clone, Copy, Debug, PartialEq, Eq, Structural)]
pub enum ServerPhase {
    /// Between two playbacks.
    Waiting,
    /// A request was taken and the record is being set to `Idle`.
    IdleAnnounced,
    /// A playback is under way.
    Playing,
    /// The audio is being restored after a playback that did not complete.
    Restoring,
    /// The audio is being restored before the server leaves.
    FinalRestoring,
    /// The lock record is being removed.
    Releasing,
    /// The server is done.
    Stopped,
}

/// What the host is to do next.
#[derive(Clone, Debug, PartialEq, Eq)]
pub enum ServerAction {
    /// Set the state in the lock record, if the record can be read.
    Announce(NotificationState),
    /// Carry out the commands in order; a failure ends the server.
    Audio(Vec<AudioCommand>),
    /// Wait.
    Pause { nanos: u64 },
    /// Play the sound until it ends or the monitor stops it.
    Play { sound: String },
    /// Remove the lock record; a failure is ignored.
    ReleaseLock,
    /// Leave.
    Exit,
}

/// The mathematical content of a [`ServerAction`].
pub enum ServerActionView {
    Announce(NotificationState),
    Audio(Seq<AudioCommandView>),
    Pause { nanos: u64 },
    Play { sound: Seq<char> },
    ReleaseLock,
    Exit,
}

impl View for ServerAction {
    type V = ServerActionView;

    open spec fn view(&self) -> ServerActionView {
        match self {
            ServerAction::Announce(state) => ServerActionView::Announce(*state),
            ServerAction::Audio(commands) => ServerActionView::Audio(command_views(commands@)),
            ServerAction::Pause { nanos } => ServerActionView::Pause { nanos: *nanos },
            ServerAction::Play { sound } => ServerActionView::Play { sound: sound@ },
            ServerAction::ReleaseLock => ServerActionView::ReleaseLock,
            ServerAction::Exit => ServerActionView::Exit,
        }
    }
}

/// The mathematical content of a [`NotificationServer`].
pub struct ServerView {
    pub settings: PlaybackSettings,
    /// There was something to duck when the snapshot was taken.
    pub enable_fading: bool,
    /// The previous playback left the audio ducked.
    pub prepared: bool,
    pub phase: ServerPhase,
    /// The playback under way, if any.
    pub playback: Option<ContextView>,
}

/// The result of one step of the server.
pub struct ServerStep {
    pub server: ServerView,
    pub guard: GuardView,
    pub queue: Seq<Seq<char>>,
    pub action: ServerActionView,
}

/// A playback that has not begun.
pub open spec fn fresh_playback(
    sound: Seq<char>,
    settings: PlaybackSettings,
    enable_fading: bool,
    prepared: bool,
) -> ContextView {
    ContextView { sound, settings, enable_fading, prepared, phase: PlaybackPhase::Start }
}

/// Whether the next playback may skip the ducking, given how the last one
/// ended. It may only after an interruption while the sound was playing:
/// the streams are muted and the notification volume is set then, so that
/// the audio is fully ducked. After an interruption anywhere else, and
/// after a completed playback, it may not; after a cancelled one the answer
/// is as before.
pub open spec fn prepared_after(
    before: bool,
    while_playing: bool,
    completed: bool,
    interrupted: bool,
) -> bool {
    if interrupted {
        while_playing
    } else if completed {
        false
    } else {
        before
    }
}

/// Whether the audio is to be restored right after a playback: nothing is
/// waiting or the server shuts down, and the playback did not complete.
pub open spec fn restores_after(pending: bool, running: bool, completed: bool, interrupted: bool)
    -> bool {
    (!pending || !running) && (interrupted || !completed)
}

impl ServerView {
    /// The lock record is given up.
    pub open spec fn release(self, guard: GuardView, queue: Seq<Seq<char>>) -> ServerStep {
        ServerStep {
            server: ServerView { phase: ServerPhase::Releasing, playback: None, ..self },
            guard,
            queue,
            action: ServerActionView::ReleaseLock,
        }
    }

    /// The server leaves: the audio is restored unless it was before, then
    /// the lock record is given up.
    pub open spec fn shut_down(self, guard: GuardView, queue: Seq<Seq<char>>) -> ServerStep {
        if guard.cleaned {
            self.release(guard.at_position(FADE_STEPS), queue)
        } else {
            ServerStep {
                server: ServerView { phase: ServerPhase::FinalRestoring, playback: None, ..self },
                guard,
                queue,
                action: ServerActionView::Audio(guard.restoration()),
            }
        }
    }

    /// The top of the loop: while the server runs and a request waits, the
    /// latest request is taken, all older ones are dropped, and its playback
    /// begins; otherwise the server leaves.
    pub open spec fn serve_next(self, guard: GuardView, queue: Seq<Seq<char>>, running: bool)
        -> ServerStep {
        if running && queue.len() > 0 {
            ServerStep {
                server: ServerView {
                    phase: ServerPhase::IdleAnnounced,
                    playback: Some(
                        fresh_playback(
                            queue.last(),
                            self.settings,
                            self.enable_fading,
                            self.prepared,
                        ),
                    ),
                    ..self
                },
                guard,
                queue: Seq::empty(),
                action: ServerActionView::Announce(NotificationState::Idle),
            }
        } else {
            self.shut_down(guard, queue)
        }
    }

    /// What follows a playback that ended with the given outcome;
    /// `while_playing` says that it ended while the sound was playing.
    pub open spec fn after_playback(
        self,
        guard: GuardView,
        queue: Seq<Seq<char>>,
        running: bool,
        completed: bool,
        interrupted: bool,
        while_playing: bool,
    ) -> ServerStep {
        let prepared = prepared_after(self.prepared, while_playing, completed, interrupted);
        let server = ServerView { prepared, playback: None, ..self };
        if restores_after(queue.len() > 0, running, completed, interrupted) {
            if guard.cleaned {
                (ServerView { prepared: false, ..server }).serve_next(
                    guard.at_position(FADE_STEPS),
                    queue,
                    running,
                )
            } else {
                ServerStep {
                    server: ServerView { phase: ServerPhase::Restoring, ..server },
                    guard,
                    queue,
                    action: ServerActionView::Audio(guard.restoration()),
                }
            }
        } else {
            server.serve_next(guard, queue, running)
        }
    }

    /// The playback under way advances by one step. Its actions are passed
    /// on; its end is followed by what `after_playback` says.
    pub open spec fn advance_playback(
        self,
        guard: GuardView,
        queue: Seq<Seq<char>>,
        running: bool,
        interrupted: bool,
    ) -> ServerStep {
        match self.playback {
            None => self.shut_down(guard, queue),
            Some(playback) => {
                let seen = Observation { running, pending: queue.len() > 0, interrupted };
                let step = playback.step(guard, seen);
                let server = ServerView {
                    phase: ServerPhase::Playing,
                    playback: Some(playback.in_phase(step.phase)),
                    ..self
                };
                let passed = |action: ServerActionView|
                    ServerStep { server, guard: step.guard, queue, action };
                match step.action {
                    PlaybackActionView::Announce(state) => passed(
                        ServerActionView::Announce(state),
                    ),
                    PlaybackActionView::Audio(commands) => passed(
                        ServerActionView::Audio(commands),
                    ),
                    PlaybackActionView::Pause { nanos } => passed(
                        ServerActionView::Pause { nanos },
                    ),
                    PlaybackActionView::Play { sound } => passed(ServerActionView::Play { sound }),
                    PlaybackActionView::Finish { completed, interrupted } => self.after_playback(
                        step.guard,
                        queue,
                        running,
                        completed,
                        interrupted,
                        playback.phase == PlaybackPhase::Playing,
                    ),
                }
            },
        }
    }

    /// The transition function of the server loop.
    pub open spec fn step(
        self,
        guard: GuardView,
        queue: Seq<Seq<char>>,
        running: bool,
        interrupted: bool,
    ) -> ServerStep {
        match self.phase {
            ServerPhase::Waiting => self.serve_next(guard, queue, running),
            ServerPhase::IdleAnnounced => self.advance_playback(guard, queue, running, interrupted),
            ServerPhase::Playing => self.advance_playback(guard, queue, running, interrupted),
            ServerPhase::Restoring => (ServerView { prepared: false, ..self }).serve_next(
                guard.marked_cleaned().at_position(FADE_STEPS),
                queue,
                running,
            ),
            ServerPhase::FinalRestoring => self.release(
                guard.marked_cleaned().at_position(FADE_STEPS),
                queue,
            ),
            ServerPhase::Releasing => ServerStep {
                server: ServerView { phase: ServerPhase::Stopped, playback: None, ..self },
                guard,
                queue,
                action: ServerActionView::Exit,
            },
            ServerPhase::Stopped => ServerStep {
                server: ServerView { phase: ServerPhase::Stopped, playback: None, ..self },
                guard,
                queue,
                action: ServerActionView::Exit,
            },
        }
    }
}

/// The state of the server loop between two steps.
pub struct NotificationServer {
    settings: PlaybackSettings,
    enable_fading: bool,
    audio_already_prepared: bool,
    phase: ServerPhase,
    playback: Option<NotificationContext>,
}

impl View for NotificationServer {
    type V = ServerView;

    closed spec fn view(&self) -> ServerView {
        ServerView {
            settings: self.settings,
            enable_fading: self.enable_fading,
            prepared: self.audio_already_prepared,
            phase: self.phase,
            playback: match self.playback {
                Some(playback) => Some(playback@),
                None => None,
            },
        }
    }
}

impl NotificationServer {
    /// A server that has played nothing yet. Fading is enabled only if the
    /// snapshot holds at least one unmuted stream: otherwise there is
    /// nothing to duck.
    pub fn new(guard: &AudioStateGuard, settings: PlaybackSettings) -> (server: Self)
        ensures
            server@ == (ServerView {
                settings,
                enable_fading: guard@.inputs.len() > 0,
                prepared: false,
                phase: ServerPhase::Waiting,
                playback: None,
            }),
    {
        NotificationServer {
            settings,
            enable_fading: guard.unmuted_inputs().len() > 0,
            audio_already_prepared: false,
            phase: ServerPhase::Waiting,
            playback: None,
        }
    }

    /// The phase that the loop is in.
    pub fn phase(&self) -> (phase: ServerPhase)
        ensures
            phase == self@.phase,
    {
        self.phase
    }

    /// Whether the next playback skips the ducking.
    pub fn audio_already_prepared(&self) -> (prepared: bool)
        ensures
            prepared == self@.prepared,
    {
        self.audio_already_prepared
    }

    fn release(&mut self) -> (action: ServerAction)
        ensures
            final(self)@ == (ServerView {
                phase: ServerPhase::Releasing,
                playback: None,
                ..old(self)@
            }),
            action@ == ServerActionView::ReleaseLock,
    {
        self.phase = ServerPhase::Releasing;
        self.playback = None;
        ServerAction::ReleaseLock
    }

    fn shut_down(&mut self, guard: &mut AudioStateGuard, queue: &RequestQueue) -> (action:
        ServerAction)
        ensures
            ({
                let step = old(self)@.shut_down(old(guard)@, queue@);
                &&& final(self)@ == step.server
                &&& final(guard)@ == step.guard
                &&& action@ == step.action
            }),
    {
        if guard.is_cleaned_up() {
            guard.set_fade_state(FADE_STEPS);
            self.release()
        } else {
            self.phase = ServerPhase::FinalRestoring;
            self.playback = None;
            ServerAction::Audio(guard.restoration())
        }
    }

    fn serve_next(&mut self, guard: &mut AudioStateGuard, queue: &mut RequestQueue, running: bool)
        -> (action: ServerAction)
        ensures
            ({
                let step = old(self)@.serve_next(old(guard)@, old(queue)@, running);
                &&& final(self)@ == step.server
                &&& final(guard)@ == step.guard
                &&& final(queue)@ == step.queue
                &&& action@ == step.action
            }),
    {
        if running {
            match queue.take_latest() {
                Some(sound) => {
                    self.playback = Some(
                        NotificationContext::new(
                            sound,
                            self.settings,
                            self.enable_fading,
                            self.audio_already_prepared,
                        ),
                    );
                    self.phase = ServerPhase::IdleAnnounced;
                    return ServerAction::Announce(NotificationState::Idle);
                },
                None => {},
            }
        }
        self.shut_down(guard, queue)
    }

    fn after_playback(
        &mut self,
        guard: &mut AudioStateGuard,
        queue: &mut RequestQueue,
        running: bool,
        completed: bool,
        interrupted: bool,
        while_playing: bool,
    ) -> (action: ServerAction)
        requires
            old(self)@.playback is None,
        ensures
            ({
                let step = old(self)@.after_playback(
                    old(guard)@,
                    old(queue)@,
                    running,
                    completed,
                    interrupted,
                    while_playing,
                );
                &&& final(self)@ == step.server
                &&& final(guard)@ == step.guard
                &&& final(queue)@ == step.queue
                &&& action@ == step.action
            }),
    {
        if interrupted {
            self.audio_already_prepared = while_playing;
        } else if completed {
            self.audio_already_prepared = false;
        }
        let no_more_notifications = queue.is_empty();
        if (no_more_notifications || !running) && (interrupted || !completed) {
            if guard.is_cleaned_up() {
                self.audio_already_prepared = false;
                guard.set_fade_state(FADE_STEPS);
            } else {
                self.phase = ServerPhase::Restoring;
                return ServerAction::Audio(guard.restoration());
            }
        }
        self.serve_next(guard, queue, running)
    }

    fn advance_playback(
        &mut self,
        guard: &mut AudioStateGuard,
        queue: &mut RequestQueue,
        running: bool,
        interrupted: bool,
    ) -> (action: ServerAction)
        ensures
            ({
                let step = old(self)@.advance_playback(
                    old(guard)@,
                    old(queue)@,
                    running,
                    interrupted,
                );
                &&& final(self)@ == step.server
                &&& final(guard)@ == step.guard
                &&& final(queue)@ == step.queue
                &&& action@ == step.action
            }),
    {
        match self.playback.take() {
            None => self.shut_down(guard, queue),
            Some(mut playback) => {
                let while_playing = match playback.phase() {
                    PlaybackPhase::Playing => true,
                    _ => false,
                };
                let action = play_notification(&mut playback, guard, queue, running, interrupted);
                match action {
                    PlaybackAction::Finish { completed, interrupted } => self.after_playback(
                        guard,
                        queue,
                        running,
                        completed,
                        interrupted,
                        while_playing,
                    ),
                    PlaybackAction::Announce(state) => {
                        self.phase = ServerPhase::Playing;
                        self.playback = Some(playback);
                        ServerAction::Announce(state)
                    },
                    PlaybackAction::Audio(commands) => {
                        self.phase = ServerPhase::Playing;
                        self.playback = Some(playback);
                        ServerAction::Audio(commands)
                    },
                    PlaybackAction::Pause { nanos } => {
                        self.phase = ServerPhase::Playing;
                        self.playback = Some(playback);
                        ServerAction::Pause { nanos }
                    },
                    PlaybackAction::Play { sound } => {
                        self.phase = ServerPhase::Playing;
                        self.playback = Some(playback);
                        ServerAction::Play { sound }
                    },
                }
            },
        }
    }
}

/// Advances the server loop by one step.
///
/// The caller has carried out the action that the previous call handed out
/// (none before the first call) and passes the request queue, whether the
/// server is still running, and, after a sound was played, whether the
/// monitor cut it short. The server, the guard and the queue change exactly
/// as the transition function [`ServerView::step`] says, and the result is
/// the action that it names.
pub fn run_notification_server(
    server: &mut NotificationServer,
    guard: &mut AudioStateGuard,
    queue: &mut RequestQueue,
    running: bool,
    interrupted: bool,
) -> (action: ServerAction)
    ensures
        ({
            let step = old(server)@.step(old(guard)@, old(queue)@, running, interrupted);
            &&& final(server)@ == step.server
            &&& final(guard)@ == step.guard
            &&& final(queue)@ == step.queue
            &&& action@ == step.action
        }),
{
    match server.phase {
        ServerPhase::Waiting => server.serve_next(guard, queue, running),
        ServerPhase::IdleAnnounced => server.advance_playback(guard, queue, running, interrupted),
        ServerPhase::Playing => server.advance_playback(guard, queue, running, interrupted),
        ServerPhase::Restoring => {
            guard.mark_cleaned();
            guard.set_fade_state(FADE_STEPS);
            server.audio_already_prepared = false;
            server.serve_next(guard, queue, running)
        },
        ServerPhase::FinalRestoring => {
            guard.mark_cleaned();
            guard.set_fade_state(FADE_STEPS);
            server.release()
        },
        ServerPhase::Releasing => {
            server.phase = ServerPhase::Stopped;
            server.playback = None;
            ServerAction::Exit
        },
        ServerPhase::Stopped => {
            server.playback = None;
            ServerAction::Exit
        },
    }
}

/// The audio state after the host has carried out an action.
pub open spec fn after_action(world: AudioWorld, action: ServerActionView) -> AudioWorld {
    match action {
        ServerActionView::Audio(commands) => apply_all(world, commands),
        _ => world,
    }
}

/// What holds of a server between any two steps, with `world` the audio
/// state and `was_running` the shutdown flag as the last step saw it:
/// - once the server restores or has restored the audio, the audio state is
///   that of the snapshot;
/// - the audio is restored after a playback only on shutdown;
/// - the guard is marked as cleaned only when the server is about to leave;
/// - a playback under way has not ended.
pub open spec fn safe(server: ServerView, guard: GuardView, world: AudioWorld, was_running: bool)
    -> bool {
    let leaving = server.phase == ServerPhase::Releasing || server.phase == ServerPhase::Stopped;
    let restoring = server.phase == ServerPhase::Restoring || server.phase
        == ServerPhase::FinalRestoring;
    &&& guard.position <= FADE_STEPS
    &&& leaving || restoring ==> restored(world, guard)
    &&& server.phase == ServerPhase::Restoring ==> !was_running
    &&& guard.cleaned ==> leaving
    &&& server.playback matches Some(playback) ==> phase_in_range(playback.phase)
        && !(playback.phase is Finished)
}

/// A server that was just made is safe, whatever the audio state.
pub proof fn lemma_new_server_is_safe(
    guard: GuardView,
    settings: PlaybackSettings,
    world: AudioWorld,
)
    requires
        !guard.cleaned,
        guard.position <= FADE_STEPS,
    ensures
        safe(
            ServerView {
                settings,
                enable_fading: guard.inputs.len() > 0,
                prepared: false,
                phase: ServerPhase::Waiting,
                playback: None,
            },
            guard,
            world,
            true,
        ),
{
}

/// Every step keeps a safe server safe and leaves the snapshot alone,
/// provided that the shutdown flag, once cleared, stays cleared, and that
/// the monitor reports an interruption only while a request is waiting.
pub proof fn lemma_step_keeps_safe(
    server: ServerView,
    guard: GuardView,
    queue: Seq<Seq<char>>,
    world: AudioWorld,
    was_running: bool,
    running: bool,
    interrupted: bool,
)
    requires
        safe(server, guard, world, was_running),
        running ==> was_running,
        interrupted ==> queue.len() > 0,
    ensures
        ({
            let step = server.step(guard, queue, running, interrupted);
            &&& safe(step.server, step.guard, after_action(world, step.action), running)
            &&& step.guard.sink == guard.sink
            &&& step.guard.volume == guard.volume
            &&& step.guard.inputs == guard.inputs
        }),
{
    let step = server.step(guard, queue, running, interrupted);
    lemma_restoration_restores(world, guard);
    match server.playback {
        Some(playback) => {
            let seen = Observation { running, pending: queue.len() > 0, interrupted };
            lemma_step_moves_position_only(playback, guard, seen);
            lemma_restoration_restores(world, playback.step(guard, seen).guard);
        },
        None => {},
    }
}

/// The server never leaves with the audio ducked: when a safe server hands
/// out `ReleaseLock` or `Exit`, the output has its original volume and every
/// stream of the snapshot is unmuted.
pub proof fn lemma_server_leaves_audio_restored(
    server: ServerView,
    guard: GuardView,
    queue: Seq<Seq<char>>,
    world: AudioWorld,
    was_running: bool,
    running: bool,
    interrupted: bool,
)
    requires
        safe(server, guard, world, was_running),
        running ==> was_running,
        interrupted ==> queue.len() > 0,
    ensures
        ({
            let step = server.step(guard, queue, running, interrupted);
            step.action is ReleaseLock || step.action is Exit ==> restored(world, step.guard)
        }),
{
    lemma_step_keeps_safe(server, guard, queue, world, was_running, running, interrupted);
}

/// Giving up is safe at any moment: if the host abandons an action that a
/// safe server handed out, however much of it was carried out, then what
/// `cleanup` hands out restores the audio. `partial` is the audio state at
/// that moment; only an audio action can have changed it.
pub proof fn lemma_cleanup_restores_after_failure(
    server: ServerView,
    guard: GuardView,
    queue: Seq<Seq<char>>,
    world: AudioWorld,
    partial: AudioWorld,
    was_running: bool,
    running: bool,
    interrupted: bool,
)
    requires
        safe(server, guard, world, was_running),
        running ==> was_running,
        interrupted ==> queue.len() > 0,
        server.step(guard, queue, running, interrupted).action is Audio || partial == world,
    ensures
        ({
            let step = server.step(guard, queue, running, interrupted);
            restored(apply_all(partial, step.guard.cleanup_commands()), step.guard)
        }),
{
    let step = server.step(guard, queue, running, interrupted);
    lemma_step_keeps_safe(server, guard, queue, world, was_running, running, interrupted);
    lemma_restoration_restores(partial, step.guard);
}

/// The audio is fully ducked: the managed output has the notification
/// volume and every stream of the snapshot is muted.
pub open spec fn ducked(world: AudioWorld, guard: GuardView, settings: PlaybackSettings) -> bool {
    &&& world.volumes.contains_key(guard.sink)
    &&& world.volumes[guard.sink] == settings.volume
    &&& forall|i: int|
        0 <= i < guard.inputs.len() ==> world.muted.contains_key(#[trigger] guard.inputs[i])
            && world.muted[guard.inputs[i]]
}

/// The playback is at a point at which the audio has to be ducked: it is
/// about to skip the ducking, or it has ducked and not yet unmuted.
pub open spec fn relies_on_ducking(playback: ContextView) -> bool {
    ||| playback.phase == PlaybackPhase::Start && playback.prepared
    ||| playback.phase == PlaybackPhase::Ducked
    ||| playback.phase == PlaybackPhase::PlayingAnnounced
    ||| playback.phase == PlaybackPhase::Playing
}

/// What holds of a server between any two steps, with `world` the audio
/// state: wherever the playback under way relies on the audio being ducked,
/// it is ducked; a playback under way has not ended; and a server that has
/// not begun does not take the audio for prepared.
pub open spec fn tuned(server: ServerView, guard: GuardView, world: AudioWorld) -> bool {
    &&& server.phase == ServerPhase::Waiting ==> !server.prepared
    &&& server.playback matches Some(playback) ==> {
        &&& playback.settings == server.settings
        &&& !(playback.phase is Finished)
        &&& relies_on_ducking(playback) ==> ducked(world, guard, server.settings)
    }
}

/// The ducking is skipped only where the audio is ducked. Every step keeps
/// a tuned server tuned, whatever is observed; and when the step hands out
/// `Play`, every stream of the snapshot is muted and the managed output is
/// at the notification volume.
pub proof fn lemma_sound_plays_only_while_ducked(
    server: ServerView,
    guard: GuardView,
    queue: Seq<Seq<char>>,
    world: AudioWorld,
    running: bool,
    interrupted: bool,
)
    requires
        tuned(server, guard, world),
    ensures
        ({
            let step = server.step(guard, queue, running, interrupted);
            &&& tuned(step.server, step.guard, after_action(world, step.action))
            &&& step.action is Play ==> ducked(world, guard, server.settings)
            &&& step.guard.sink == guard.sink
            &&& step.guard.inputs == guard.inputs
            &&& step.server.settings == server.settings
        }),
{
    let step = server.step(guard, queue, running, interrupted);
    let mutes = guard.mute_commands(true);
    let duck = guard.volume_command(server.settings.volume);
    lemma_apply_all_push(world, mutes, duck);
    lemma_mute_all_applied(world, guard.inputs, true);
    assert forall|i: int| 0 <= i < guard.inputs.len() implies guard.inputs.contains(
        #[trigger] guard.inputs[i],
    ) by {}
    assert(ducked(apply_all(world, mutes.push(duck)), guard, server.settings));
}

/// An interruption during the fade-in does not count as ducked: whatever
/// the fade position, the next playback does not skip the ducking. It fades
/// out from where the fade-in stopped, mutes the streams and sets the
/// notification volume.
pub proof fn lemma_interrupted_fade_in_ducks_again(
    server: ServerView,
    playback: ContextView,
    guard: GuardView,
    queue: Seq<Seq<char>>,
    interrupted: bool,
)
    requires
        server.phase == ServerPhase::Playing,
        server.playback == Some(playback),
        playback.phase is FadeInPaused || playback.phase is FadeInRestored || (playback.phase
            is Unmuted && playback.fades_in()),
        playback.phase matches PlaybackPhase::FadeInPaused { next } ==> next <= FADE_STEPS,
        guard.position <= FADE_STEPS,
        queue.len() > 0,
    ensures
        ({
            let step = server.step(guard, queue, true, interrupted);
            &&& step.action == ServerActionView::Announce(NotificationState::Idle)
            &&& step.guard == guard
            &&& step.server.playback == Some(
                fresh_playback(queue.last(), server.settings, server.enable_fading, false),
            )
        }),
{
}

/// What reaches the server before one of its steps.
pub struct ServerInput {
    /// The requests that arrived since the step before, oldest first.
    pub arrived: Seq<Seq<char>>,
    /// The shutdown signal has not arrived.
    pub running: bool,
    /// The monitor cut the sound short because a request arrived.
    pub interrupted: bool,
}

/// A server and its surroundings between two steps.
pub struct ServerRun {
    pub server: ServerView,
    pub guard: GuardView,
    pub queue: Seq<Seq<char>>,
    /// The audio state.
    pub world: AudioWorld,
    /// The shutdown flag as the last step saw it.
    pub running: bool,
}

impl ServerRun {
    /// One step: the requests that arrived join the queue, the server
    /// decides, and the host carries out the action.
    pub open spec fn step(self, input: ServerInput) -> ServerRun {
        let step = self.server.step(
            self.guard,
            self.queue + input.arrived,
            input.running,
            input.interrupted,
        );
        ServerRun {
            server: step.server,
            guard: step.guard,
            queue: step.queue,
            world: after_action(self.world, step.action),
            running: input.running,
        }
    }

    /// One step for each input, in order.
    pub open spec fn run(self, inputs: Seq<ServerInput>) -> ServerRun
        decreases inputs.len(),
    {
        if inputs.len() == 0 {
            self
        } else {
            self.step(inputs[0]).run(inputs.drop_first())
        }
    }

    /// The inputs are such as a host meets: the shutdown flag, once
    /// cleared, stays cleared, and the monitor reports an interruption only
    /// while a request is waiting.
    pub open spec fn plausible(self, inputs: Seq<ServerInput>) -> bool
        decreases inputs.len(),
    {
        inputs.len() == 0 || {
            &&& inputs[0].running ==> self.running
            &&& inputs[0].interrupted ==> (self.queue + inputs[0].arrived).len() > 0
            &&& self.step(inputs[0]).plausible(inputs.drop_first())
        }
    }

    /// The server is safe, in the sense of [`safe`].
    pub open spec fn is_safe(self) -> bool {
        safe(self.server, self.guard, self.world, self.running)
    }

    /// The server is tuned, in the sense of [`tuned`].
    pub open spec fn is_tuned(self) -> bool {
        tuned(self.server, self.guard, self.world)
    }
}

/// A tuned server stays tuned, whatever arrives and whenever the shutdown
/// comes, and its snapshot and settings stay as they were.
pub proof fn lemma_run_keeps_tuned(start: ServerRun, inputs: Seq<ServerInput>)
    requires
        start.is_tuned(),
    ensures
        start.run(inputs).is_tuned(),
        start.run(inputs).guard.sink == start.guard.sink,
        start.run(inputs).guard.inputs == start.guard.inputs,
        start.run(inputs).server.settings == start.server.settings,
    decreases inputs.len(),
{
    if inputs.len() > 0 {
        lemma_sound_plays_only_while_ducked(
            start.server,
            start.guard,
            start.queue + inputs[0].arrived,
            start.world,
            inputs[0].running,
            inputs[0].interrupted,
        );
        lemma_run_keeps_tuned(start.step(inputs[0]), inputs.drop_first());
    }
}

/// No sound is ever played over audio that is not ducked. Take a server
/// that was just made, any audio state, any queue and any inputs at all. If
/// the server then hands out `Play`, every stream of the snapshot is muted
/// and the managed output is at the notification volume.
pub proof fn lemma_every_sound_plays_ducked(
    guard: GuardView,
    settings: PlaybackSettings,
    queue: Seq<Seq<char>>,
    world: AudioWorld,
    inputs: Seq<ServerInput>,
    last: ServerInput,
)
    ensures
        ({
            let start = ServerRun {
                server: ServerView {
                    settings,
                    enable_fading: guard.inputs.len() > 0,
                    prepared: false,
                    phase: ServerPhase::Waiting,
                    playback: None,
                },
                guard,
                queue,
                world,
                running: true,
            };
            let before = start.run(inputs);
            let step = before.server.step(
                before.guard,
                before.queue + last.arrived,
                last.running,
                last.interrupted,
            );
            step.action is Play ==> ducked(before.world, guard, settings)
        }),
{
    let start = ServerRun {
        server: ServerView {
            settings,
            enable_fading: guard.inputs.len() > 0,
            prepared: false,
            phase: ServerPhase::Waiting,
            playback: None,
        },
        guard,
        queue,
        world,
        running: true,
    };
    lemma_run_keeps_tuned(start, inputs);
    let before = start.run(inputs);
    lemma_sound_plays_only_while_ducked(
        before.server,
        before.guard,
        before.queue + last.arrived,
        before.world,
        last.running,
        last.interrupted,
    );
}

/// Safety lasts: whatever arrives and whenever the shutdown comes, a safe
/// server stays safe and its snapshot stays as it was.
pub proof fn lemma_run_keeps_safe(start: ServerRun, inputs: Seq<ServerInput>)
    requires
        start.is_safe(),
        start.plausible(inputs),
    ensures
        start.run(inputs).is_safe(),
        start.run(inputs).guard.sink == start.guard.sink,
        start.run(inputs).guard.volume == start.guard.volume,
        start.run(inputs).guard.inputs == start.guard.inputs,
    decreases inputs.len(),
{
    if inputs.len() > 0 {
        lemma_step_keeps_safe(
            start.server,
            start.guard,
            start.queue + inputs[0].arrived,
            start.world,
            start.running,
            inputs[0].running,
            inputs[0].interrupted,
        );
        lemma_run_keeps_safe(start.step(inputs[0]), inputs.drop_first());
    }
}

/// The server never leaves with the audio ducked. Take a server that was
/// just made, any audio state, any queue, and any run of plausible inputs.
/// If the server is then giving up the lock or has stopped, the managed
/// output has the volume of the snapshot and every stream of the snapshot is
/// unmuted.
pub proof fn lemma_server_never_leaves_audio_ducked(
    guard: GuardView,
    settings: PlaybackSettings,
    queue: Seq<Seq<char>>,
    world: AudioWorld,
    inputs: Seq<ServerInput>,
)
    requires
        !guard.cleaned,
        guard.position <= FADE_STEPS,
        (ServerRun {
            server: ServerView {
                settings,
                enable_fading: guard.inputs.len() > 0,
                prepared: false,
                phase: ServerPhase::Waiting,
                playback: None,
            },
            guard,
            queue,
            world,
            running: true,
        }).plausible(inputs),
    ensures
        ({
            let start = ServerRun {
                server: ServerView {
                    settings,
                    enable_fading: guard.inputs.len() > 0,
                    prepared: false,
                    phase: ServerPhase::Waiting,
                    playback: None,
                },
                guard,
                queue,
                world,
                running: true,
            };
            let end = start.run(inputs);
            end.server.phase == ServerPhase::Releasing || end.server.phase == ServerPhase::Stopped
                ==> restored(end.world, guard)
        }),
{
    let start = ServerRun {
        server: ServerView {
            settings,
            enable_fading: guard.inputs.len() > 0,
            prepared: false,
            phase: ServerPhase::Waiting,
            playback: None,
        },
        guard,
        queue,
        world,
        running: true,
    };
    lemma_new_server_is_safe(guard, settings, world);
    lemma_run_keeps_safe(start, inputs);
}

} // verus!
