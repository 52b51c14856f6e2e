//! The audio state guard: a snapshot of the audio state as it was before any
//! notification touched it, the commands that bring that state back, and the
//! current fade position.

use crate::fade::FADE_STEPS;
use vstd::prelude::*;

verus! {

/// What the audio subsystem reported before anything was changed.
#[derive(Clone, Debug, PartialEq, Eq)]
pub struct PulseAudioState {
    /// Name of the default output.
    pub default_sink: String,
    /// Volume of the default output, in percent.
    pub current_volume: u8,
    /// Identifiers of the streams that were not muted, in the order reported.
    pub unmuted_inputs: Vec<String>,
}

/// One change to the audio subsystem.
#[derive(Clone, Debug, PartialEq, Eq)]
pub enum AudioCommand {
    /// Set the volume of an output to a percentage.
    SetSinkVolume { sink: String, percent: u8 },
    /// Mute or unmute one stream.
    SetSinkInputMute { input: String, muted: bool },
}

/// The mathematical content of an [`AudioCommand`].
pub enum AudioCommandView {
    SetSinkVolume { sink: Seq<char>, percent: u8 },
    SetSinkInputMute { input: Seq<char>, muted: bool },
}

impl View for AudioCommand {
    type V = AudioCommandView;

    open spec fn view(&self) -> AudioCommandView {
        match self {
            AudioCommand::SetSinkVolume { sink, percent } => AudioCommandView::SetSinkVolume {
                sink: sink@,
                percent: *percent,
            },
            AudioCommand::SetSinkInputMute { input, muted } => AudioCommandView::SetSinkInputMute {
                input: input@,
                muted: *muted,
            },
        }
    }
}

/// The views of a sequence of commands, in the same order.
pub open spec fn command_views(commands: Seq<AudioCommand>) -> Seq<AudioCommandView> {
    Seq::new(commands.len(), |i: int| commands[i]@)
}

/// The views of a sequence of strings, in the same order.
pub open spec fn string_views(strings: Seq<String>) -> Seq<Seq<char>> {
    Seq::new(strings.len(), |i: int| strings[i]@)
}

/// One command per stream that mutes (or unmutes) it, in the order given.
pub open spec fn mute_all(inputs: Seq<Seq<char>>, muted: bool) -> Seq<AudioCommandView> {
    Seq::new(inputs.len(), |i: int| AudioCommandView::SetSinkInputMute { input: inputs[i], muted })
}

/// The mathematical content of an [`AudioStateGuard`].
pub struct GuardView {
    /// Name of the output whose volume is managed.
    pub sink: Seq<char>,
    /// The volume that the output had when the snapshot was taken.
    pub volume: u8,
    /// The streams that were unmuted when the snapshot was taken.
    pub inputs: Seq<Seq<char>>,
    /// Whether the restoration has been handed out already.
    pub cleaned: bool,
    /// The fade position, from 0 (fully ducked) to `FADE_STEPS` (restored).
    pub position: u8,
}

impl GuardView {
    /// The same guard at another fade position.
    pub open spec fn at_position(self, position: u8) -> GuardView {
        GuardView { position, ..self }
    }

    /// The same guard, marked as cleaned.
    pub open spec fn marked_cleaned(self) -> GuardView {
        GuardView { cleaned: true, ..self }
    }

    /// The same guard, with the mark taken back.
    pub open spec fn marked_uncleaned(self) -> GuardView {
        GuardView { cleaned: false, ..self }
    }

    /// The command that sets the managed output to a volume.
    pub open spec fn volume_command(self, percent: u8) -> AudioCommandView {
        AudioCommandView::SetSinkVolume { sink: self.sink, percent }
    }

    /// One mute command for every stream of the snapshot, in snapshot order.
    pub open spec fn mute_commands(self, muted: bool) -> Seq<AudioCommandView> {
        mute_all(self.inputs, muted)
    }

    /// Everything that a full restoration does: the original volume first,
    /// then every stream of the snapshot unmuted.
    pub open spec fn restoration(self) -> Seq<AudioCommandView> {
        seq![self.volume_command(self.volume)] + self.mute_commands(false)
    }

    /// What `cleanup` hands out: the restoration, unless it was handed out
    /// before.
    pub open spec fn cleanup_commands(self) -> Seq<AudioCommandView> {
        if self.cleaned {
            Seq::empty()
        } else {
            self.restoration()
        }
    }
}

/// Owns the snapshot of the audio state and the current fade position.
pub struct AudioStateGuard {
    default_sink: String,
    current_volume: u8,
    unmuted_inputs: Vec<String>,
    cleaned_up: bool,
    fade_state: u8,
}

impl View for AudioStateGuard {
    type V = GuardView;

    closed spec fn view(&self) -> GuardView {
        GuardView {
            sink: self.default_sink@,
            volume: self.current_volume,
            inputs: string_views(self.unmuted_inputs@),
            cleaned: self.cleaned_up,
            position: self.fade_state,
        }
    }
}

impl AudioStateGuard {
    #[verifier::type_invariant]
    spec fn position_in_range(self) -> bool {
        self.fade_state <= FADE_STEPS
    }

    /// Takes ownership of a snapshot. Nothing is cleaned yet and the output
    /// is at full volume.
    pub fn new(state: PulseAudioState) -> (guard: Self)
        ensures
            guard@ == (GuardView {
                sink: state.default_sink@,
                volume: state.current_volume,
                inputs: string_views(state.unmuted_inputs@),
                cleaned: false,
                position: FADE_STEPS,
            }),
    {
        AudioStateGuard {
            default_sink: state.default_sink,
            current_volume: state.current_volume,
            unmuted_inputs: state.unmuted_inputs,
            cleaned_up: false,
            fade_state: FADE_STEPS,
        }
    }

    /// Name of the managed output.
    pub fn default_sink(&self) -> (sink: &String)
        ensures
            sink@ == self@.sink,
    {
        &self.default_sink
    }

    /// The volume to restore.
    pub fn current_volume(&self) -> (volume: u8)
        ensures
            volume == self@.volume,
    {
        self.current_volume
    }

    /// The streams to unmute again.
    pub fn unmuted_inputs(&self) -> (inputs: &Vec<String>)
        ensures
            string_views(inputs@) == self@.inputs,
    {
        &self.unmuted_inputs
    }

    /// Whether the restoration has been handed out.
    pub fn is_cleaned_up(&self) -> (cleaned: bool)
        ensures
            cleaned == self@.cleaned,
    {
        self.cleaned_up
    }

    /// The current fade position.
    pub fn fade_state(&self) -> (position: u8)
        ensures
            position == self@.position,
            position <= FADE_STEPS,
    {
        proof {
            use_type_invariant(self);
        }
        self.fade_state
    }

    /// Records a fade position.
    pub(crate) fn set_fade_state(&mut self, position: u8)
        requires
            position <= FADE_STEPS,
        ensures
            final(self)@ == old(self)@.at_position(position),
    {
        self.fade_state = position;
    }

    /// Records that the restoration has been carried out.
    pub(crate) fn mark_cleaned(&mut self)
        ensures
            final(self)@ == old(self)@.marked_cleaned(),
    {
        proof {
            use_type_invariant(&*self);
        }
        self.cleaned_up = true;
    }

    /// The command that sets the managed output to `percent`.
    pub fn volume_command(&self, percent: u8) -> (command: AudioCommand)
        ensures
            command@ == self@.volume_command(percent),
    {
        AudioCommand::SetSinkVolume { sink: self.default_sink.clone(), percent }
    }

    /// One command per stream of the snapshot that mutes (or unmutes) it.
    pub fn mute_commands(&self, muted: bool) -> (commands: Vec<AudioCommand>)
        ensures
            command_views(commands@) == self@.mute_commands(muted),
    {
        let mut commands: Vec<AudioCommand> = Vec::new();
        let mut i: usize = 0;
        while i < self.unmuted_inputs.len()
            invariant
                i <= self.unmuted_inputs.len(),
                commands.len() == i,
                forall|k: int|
                    0 <= k < i ==> (#[trigger] commands[k])@ == self@.mute_commands(muted)[k],
            decreases self.unmuted_inputs.len() - i,
        {
            let input = self.unmuted_inputs[i].clone();
            commands.push(AudioCommand::SetSinkInputMute { input, muted });
            i += 1;
        }
        assert(command_views(commands@) =~= self@.mute_commands(muted));
        commands
    }

    /// The commands of a full restoration, whether or not one was handed
    /// out before.
    pub fn restoration(&self) -> (commands: Vec<AudioCommand>)
        ensures
            command_views(commands@) == self@.restoration(),
    {
        let mut commands: Vec<AudioCommand> = Vec::new();
        commands.push(self.volume_command(self.current_volume));
        let mut unmutes = self.mute_commands(false);
        let ghost head = commands@;
        let ghost tail = unmutes@;
        commands.append(&mut unmutes);
        assert(commands@ == head + tail);
        assert(command_views(commands@) =~= self@.restoration());
        commands
    }

    /// Hands out what is needed to restore the original audio state and
    /// marks the guard as cleaned: the original volume, then every stream of
    /// the snapshot unmuted. Once cleaned, it hands out nothing. The fade
    /// position is left alone.
    ///
    /// The mark stands for the commands having been carried out. A host
    /// that fails to carry one out reports it with `cleanup_failed`, and the
    /// next `cleanup` hands out the whole restoration again.
    pub fn cleanup(&mut self) -> (commands: Vec<AudioCommand>)
        ensures
            command_views(commands@) == old(self)@.cleanup_commands(),
            final(self)@ == old(self)@.marked_cleaned(),
    {
        if self.cleaned_up {
            let commands: Vec<AudioCommand> = Vec::new();
            assert(command_views(commands@) =~= old(self)@.cleanup_commands());
            return commands;
        }
        let commands = self.restoration();
        self.mark_cleaned();
        commands
    }

    /// Records that a command of the restoration failed: the guard is not
    /// cleaned, so that the restoration is handed out again when it is next
    /// asked for. Nothing else changes.
    pub fn cleanup_failed(&mut self)
        ensures
            final(self)@ == old(self)@.marked_uncleaned(),
    {
        proof {
            use_type_invariant(&*self);
        }
        self.cleaned_up = false;
    }
}

/// The part of the audio subsystem that commands change: the volume of each
/// output and the mute flag of each stream, by name.
pub struct AudioWorld {
    pub volumes: Map<Seq<char>, u8>,
    pub muted: Map<Seq<char>, bool>,
}

/// The audio state after one command.
pub open spec fn apply(world: AudioWorld, command: AudioCommandView) -> AudioWorld {
    match command {
        AudioCommandView::SetSinkVolume { sink, percent } => AudioWorld {
            volumes: world.volumes.insert(sink, percent),
            ..world
        },
        AudioCommandView::SetSinkInputMute { input, muted } => AudioWorld {
            muted: world.muted.insert(input, muted),
            ..world
        },
    }
}

/// The audio state after a run of commands, carried out in order.
pub open spec fn apply_all(world: AudioWorld, commands: Seq<AudioCommandView>) -> AudioWorld
    decreases commands.len(),
{
    if commands.len() == 0 {
        world
    } else {
        apply_all(apply(world, commands[0]), commands.drop_first())
    }
}

/// The audio state is what the snapshot recorded: the managed output has its
/// original volume and every stream of the snapshot is unmuted.
pub open spec fn restored(world: AudioWorld, guard: GuardView) -> bool {
    &&& world.volumes.contains_key(guard.sink)
    &&& world.volumes[guard.sink] == guard.volume
    &&& forall|i: int|
        0 <= i < guard.inputs.len() ==> world.muted.contains_key(#[trigger] guard.inputs[i])
            && !world.muted[guard.inputs[i]]
}

/// The audio state after every listed stream was set to one mute flag.
pub open spec fn with_mute_flags(world: AudioWorld, inputs: Seq<Seq<char>>, muted: bool)
    -> AudioWorld {
    AudioWorld {
        muted: Map::new(
            |input: Seq<char>| inputs.contains(input) || world.muted.contains_key(input),
            |input: Seq<char>|
                if inputs.contains(input) {
                    muted
                } else {
                    world.muted[input]
                },
        ),
        ..world
    }
}

/// Muting (or unmuting) a list of streams one by one sets the flag of each
/// and leaves everything else alone.
pub proof fn lemma_mute_all_applied(world: AudioWorld, inputs: Seq<Seq<char>>, muted: bool)
    ensures
        apply_all(world, mute_all(inputs, muted)) == with_mute_flags(world, inputs, muted),
    decreases inputs.len(),
{
    let commands = mute_all(inputs, muted);
    if inputs.len() == 0 {
        assert(with_mute_flags(world, inputs, muted).muted =~= world.muted);
    } else {
        let first = inputs[0];
        let rest = inputs.drop_first();
        let next = apply(world, commands[0]);
        assert(commands.drop_first() =~= mute_all(rest, muted));
        lemma_mute_all_applied(next, rest, muted);
        assert forall|input: Seq<char>| inputs.contains(input) <==> (input == first
            || rest.contains(input)) by {
            if inputs.contains(input) {
                let i = choose|i: int| 0 <= i < inputs.len() && inputs[i] == input;
                if i > 0 {
                    assert(rest[i - 1] == input);
                }
            }
            if rest.contains(input) {
                let i = choose|i: int| 0 <= i < rest.len() && rest[i] == input;
                assert(inputs[i + 1] == input);
            }
        }
        assert(with_mute_flags(next, rest, muted).muted =~= with_mute_flags(
            world,
            inputs,
            muted,
        ).muted);
    }
}

/// Carrying out a run of commands and then one more is carrying out the run
/// with that one appended.
pub proof fn lemma_apply_all_push(
    world: AudioWorld,
    commands: Seq<AudioCommandView>,
    last: AudioCommandView,
)
    ensures
        apply_all(world, commands.push(last)) == apply(apply_all(world, commands), last),
    decreases commands.len(),
{
    let all = commands.push(last);
    if commands.len() == 0 {
        assert(all.drop_first() =~= Seq::<AudioCommandView>::empty());
        assert(apply_all(apply(world, last), all.drop_first()) == apply(world, last));
    } else {
        assert(all.drop_first() =~= commands.drop_first().push(last));
        lemma_apply_all_push(apply(world, commands[0]), commands.drop_first(), last);
    }
}

/// The audio state after a full restoration, in closed form.
pub proof fn lemma_restoration_applied(world: AudioWorld, guard: GuardView)
    ensures
        apply_all(world, guard.restoration()) == with_mute_flags(
            apply(world, guard.volume_command(guard.volume)),
            guard.inputs,
            false,
        ),
{
    let commands = guard.restoration();
    assert(commands.drop_first() =~= guard.mute_commands(false));
    lemma_mute_all_applied(apply(world, commands[0]), guard.inputs, false);
}

/// A full restoration brings back the audio state of the snapshot, whatever
/// the state was before.
pub proof fn lemma_restoration_restores(world: AudioWorld, guard: GuardView)
    ensures
        restored(apply_all(world, guard.restoration()), guard),
{
    lemma_restoration_applied(world, guard);
}

/// A failed cleanup is tried again: when the host reports that a command of
/// the restoration failed, the guard is as it was before the cleanup but for
/// the flag being cleared, and the next cleanup hands out the whole
/// restoration, which restores the audio whatever the failed attempt left
/// behind.
pub proof fn lemma_failed_cleanup_is_tried_again(guard: GuardView, partial: AudioWorld)
    ensures
        ({
            let failed = guard.marked_cleaned().marked_uncleaned();
            &&& failed == guard.marked_uncleaned()
            &&& failed.cleanup_commands() == guard.restoration()
            &&& restored(apply_all(partial, failed.cleanup_commands()), guard)
        }),
{
    lemma_restoration_restores(partial, guard);
}

/// Cleanup is idempotent: carrying out what two calls of `cleanup` in a row
/// hand out leaves the same audio state as carrying out what the first call
/// hands out, for every snapshot and every audio state. The second call
/// hands out nothing; and even the restoration carried out a second time
/// would change nothing.
pub proof fn lemma_cleanup_is_idempotent(world: AudioWorld, guard: GuardView)
    ensures
        ({
            let first = guard.cleanup_commands();
            let second = guard.marked_cleaned().cleanup_commands();
            let once = apply_all(world, first);
            &&& second == Seq::<AudioCommandView>::empty()
            &&& apply_all(once, second) == once
        }),
        ({
            let once = apply_all(world, guard.restoration());
            apply_all(once, guard.restoration()) == once
        }),
{
    let once = apply_all(world, guard.restoration());
    lemma_restoration_applied(world, guard);
    lemma_restoration_applied(once, guard);
    let twice = apply_all(once, guard.restoration());
    assert(twice.volumes =~= once.volumes);
    assert(twice.muted =~= once.muted);
}

} // verus!
