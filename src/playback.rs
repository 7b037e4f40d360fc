//! Shared playback state and the command processor that mutates it.
use vstd::prelude::*;
use std::collections::VecDeque;
use crate::sample::{clamp_volume, clamped_volume, FIXED_ONE};

verus! {

/// A control intent carried from the engine facade to the command processor.
#[derive(Clone, Debug)]
pub enum AudioCommand {
    /// Append a chunk of source samples to the backlog and start playing.
    Play(Vec<i32>),
    /// Discard the backlog and stop playing.
    Stop,
    /// Set the volume; the level is clamped into `[0, FIXED_ONE]` when applied.
    SetVolume(i32),
}

/// Mathematical model of a command.
pub enum CommandModel {
    Play(Seq<i32>),
    Stop,
    SetVolume(int),
}

impl View for AudioCommand {
    type V = CommandModel;

    open spec fn view(&self) -> CommandModel {
        match self {
            AudioCommand::Play(chunk) => CommandModel::Play(chunk@),
            AudioCommand::Stop => CommandModel::Stop,
            AudioCommand::SetVolume(level) => CommandModel::SetVolume(*level as int),
        }
    }
}

impl AudioCommand {
    /// The command that appends `audio_data` to the backlog.
    pub fn play(audio_data: Vec<i32>) -> (c: AudioCommand)
        ensures
            c@ == CommandModel::Play(audio_data@),
    {
        AudioCommand::Play(audio_data)
    }

    /// The command that discards the backlog and stops playing.
    pub fn stop() -> (c: AudioCommand)
        ensures
            c@ == CommandModel::Stop,
    {
        AudioCommand::Stop
    }

    /// The command that sets the volume to `level`, clamped when applied.
    pub fn set_volume(level: i32) -> (c: AudioCommand)
        ensures
            c@ == CommandModel::SetVolume(level as int),
    {
        AudioCommand::SetVolume(level)
    }
}

/// Mathematical model of the playback state.
pub struct PlaybackModel {
    /// Samples not yet consumed by the renderer, oldest first.
    pub backlog: Seq<i32>,
    /// Volume in `[0, FIXED_ONE]`.
    pub volume: int,
    /// Whether the renderer produces audible output.
    pub playing: bool,
}

impl PlaybackModel {
    /// A state is well formed when its volume is in range and a stopped engine
    /// holds no backlog.
    pub open spec fn wf(self) -> bool {
        &&& 0 <= self.volume <= FIXED_ONE
        &&& !self.playing ==> self.backlog.len() == 0
    }
}

/// The state after a command has been applied.
pub open spec fn applied(s: PlaybackModel, cmd: CommandModel) -> PlaybackModel {
    match cmd {
        CommandModel::Play(chunk) => PlaybackModel {
            backlog: s.backlog + chunk,
            volume: s.volume,
            playing: true,
        },
        CommandModel::Stop => PlaybackModel { backlog: Seq::empty(), volume: s.volume, playing: false },
        CommandModel::SetVolume(level) => PlaybackModel {
            backlog: s.backlog,
            volume: clamped_volume(level),
            playing: s.playing,
        },
    }
}

/// The state after a sequence of commands has been applied in order, the
/// first command first.
pub open spec fn applied_all(s: PlaybackModel, cmds: Seq<CommandModel>) -> PlaybackModel
    decreases cmds.len(),
{
    if cmds.len() == 0 {
        s
    } else {
        applied(applied_all(s, cmds.drop_last()), cmds.last())
    }
}

/// The state shared between the command processor and the renderer: sample
/// backlog, volume and playing flag, changed together by each command.
pub struct PlaybackState {
    backlog: VecDeque<i32>,
    volume: i32,
    playing: bool,
}

impl View for PlaybackState {
    type V = PlaybackModel;

    closed spec fn view(&self) -> PlaybackModel {
        PlaybackModel { backlog: self.backlog@, volume: self.volume as int, playing: self.playing }
    }
}

impl PlaybackState {
    /// A fresh state: empty backlog, full volume, playing.
    pub fn new() -> (r: PlaybackState)
        ensures
            r@.backlog.len() == 0,
            r@.volume == FIXED_ONE,
            r@.playing,
            r@.wf(),
    {
        PlaybackState { backlog: VecDeque::new(), volume: FIXED_ONE, playing: true }
    }

    /// Applies one command as a single step.
    pub fn apply(&mut self, cmd: AudioCommand)
        requires
            old(self)@.wf(),
        ensures
            final(self)@ == applied(old(self)@, cmd@),
            final(self)@.wf(),
    {
        self.apply_command(&cmd);
    }

    /// Applies received commands one after another, in the order given.
    pub fn apply_all(&mut self, cmds: &Vec<AudioCommand>)
        requires
            old(self)@.wf(),
        ensures
            final(self)@ == applied_all(old(self)@, cmds@.map_values(|c: AudioCommand| c@)),
            final(self)@.wf(),
    {
        let ghost models = cmds@.map_values(|c: AudioCommand| c@);
        let mut i: usize = 0;
        while i < cmds.len()
            invariant
                i <= cmds@.len(),
                models == cmds@.map_values(|c: AudioCommand| c@),
                self@ == applied_all(old(self)@, models.subrange(0, i as int)),
                self@.wf(),
            decreases cmds@.len() - i,
        {
            self.apply_command(&cmds[i]);
            proof {
                assert(models.subrange(0, i + 1).drop_last() == models.subrange(0, i as int));
            }
            i = i + 1;
        }
        assert(models.subrange(0, cmds@.len() as int) == models);
    }

    fn apply_command(&mut self, cmd: &AudioCommand)
        requires
            old(self)@.wf(),
        ensures
            final(self)@ == applied(old(self)@, cmd@),
            final(self)@.wf(),
    {
        match cmd {
            AudioCommand::Play(chunk) => {
                let mut i: usize = 0;
                while i < chunk.len()
                    invariant
                        i <= chunk.len(),
                        self.backlog@ == old(self).backlog@ + chunk@.subrange(0, i as int),
                        self.volume == old(self).volume,
                    decreases chunk.len() - i,
                {
                    self.backlog.push_back(chunk[i]);
                    i = i + 1;
                    proof {
                        assert(chunk@.subrange(0, i as int) == chunk@.subrange(0, i - 1).push(chunk@[i - 1]));
                    }
                }
                assert(chunk@.subrange(0, chunk.len() as int) == chunk@);
                self.playing = true;
            },
            AudioCommand::Stop => {
                self.backlog.clear();
                self.playing = false;
                assert(self.backlog@ == Seq::<i32>::empty());
            },
            AudioCommand::SetVolume(level) => {
                self.volume = clamp_volume(*level);
            },
        }
    }

    /// Whether the renderer should produce audible output.
    pub fn is_playing(&self) -> (r: bool)
        ensures
            r == self@.playing,
    {
        self.playing
    }

    /// The stored volume.
    pub fn volume(&self) -> (r: i32)
        ensures
            r == self@.volume,
    {
        self.volume
    }

    /// The number of samples waiting in the backlog.
    pub fn backlog_len(&self) -> (r: usize)
        ensures
            r == self@.backlog.len(),
    {
        self.backlog.len()
    }

    /// The sample at position `i` of the backlog, if there is one.
    pub fn sample_at(&self, i: usize) -> (r: Option<i32>)
        ensures
            r == (if i < self@.backlog.len() { Some(self@.backlog[i as int]) } else { None::<i32> }),
    {
        if i < self.backlog.len() {
            Some(self.backlog[i])
        } else {
            None
        }
    }

    /// Removes up to `n` samples from the front of the backlog.
    pub fn discard_front(&mut self, n: u64)
        requires
            old(self)@.wf(),
        ensures
            final(self)@.backlog == old(self)@.backlog.skip(
                if n < old(self)@.backlog.len() { n as int } else { old(self)@.backlog.len() as int },
            ),
            final(self)@.volume == old(self)@.volume,
            final(self)@.playing == old(self)@.playing,
            final(self)@.wf(),
    {
        let mut k: u64 = 0;
        while k < n && self.backlog.len() > 0
            invariant
                k <= n,
                k <= old(self).backlog@.len(),
                self.backlog@ == old(self).backlog@.skip(k as int),
                self.volume == old(self).volume,
                self.playing == old(self).playing,
            decreases n - k,
        {
            let _ = self.backlog.pop_front();
            k = k + 1;
            assert(self.backlog@ == old(self).backlog@.skip(k as int));
        }
    }

    /// The backlog, oldest sample first.
    pub fn backlog(&self) -> (r: Vec<i32>)
        ensures
            r@ == self@.backlog,
    {
        let mut out: Vec<i32> = Vec::new();
        let mut i: usize = 0;
        while i < self.backlog.len()
            invariant
                i <= self.backlog@.len(),
                out@ == self.backlog@.subrange(0, i as int),
            decreases self.backlog@.len() - i,
        {
            out.push(self.backlog[i]);
            i = i + 1;
            assert(out@ == self.backlog@.subrange(0, i as int));
        }
        out
    }
}

/// Whatever level is requested, the stored volume is that level clamped
/// into `[0, FIXED_ONE]`, and nothing else changes.
pub proof fn lemma_volume_is_clamped(s: PlaybackModel, level: int)
    requires
        s.wf(),
    ensures
        applied(s, CommandModel::SetVolume(level)).volume == clamped_volume(level),
        0 <= applied(s, CommandModel::SetVolume(level)).volume <= FIXED_ONE,
        applied(s, CommandModel::SetVolume(level)).backlog == s.backlog,
        applied(s, CommandModel::SetVolume(level)).playing == s.playing,
{
}

/// Two chunks played on a stopped engine leave exactly their concatenation in
/// the backlog, and the engine playing.
pub proof fn lemma_two_plays_concatenate(s: PlaybackModel, chunk1: Seq<i32>, chunk2: Seq<i32>)
    requires
        s.wf(),
        !s.playing,
    ensures
        applied(applied(s, CommandModel::Play(chunk1)), CommandModel::Play(chunk2)).backlog
            == chunk1 + chunk2,
        applied(applied(s, CommandModel::Play(chunk1)), CommandModel::Play(chunk2)).playing,
{
    assert(s.backlog + chunk1 == chunk1);
    assert(s.backlog + chunk1 + chunk2 == chunk1 + chunk2);
}

/// Stop leaves an empty backlog and the engine stopped, from any state.
pub proof fn lemma_stop_silences(s: PlaybackModel)
    ensures
        applied(s, CommandModel::Stop).backlog.len() == 0,
        !applied(s, CommandModel::Stop).playing,
        applied(s, CommandModel::Stop).volume == s.volume,
{
}

/// A stop issued after any sequence of commands discards all audio they
/// queued: applied in order, they leave an empty backlog and a stopped engine.
pub proof fn lemma_stop_discards_earlier_chunks(s: PlaybackModel, cmds: Seq<CommandModel>)
    ensures
        applied_all(s, cmds.push(CommandModel::Stop)).backlog.len() == 0,
        !applied_all(s, cmds.push(CommandModel::Stop)).playing,
{
    assert(cmds.push(CommandModel::Stop).drop_last() == cmds);
}

/// Applying commands one by one, in order, keeps the state well formed.
pub proof fn lemma_applied_all_wf(s: PlaybackModel, cmds: Seq<CommandModel>)
    requires
        s.wf(),
    ensures
        applied_all(s, cmds).wf(),
    decreases cmds.len(),
{
    if cmds.len() > 0 {
        lemma_applied_all_wf(s, cmds.drop_last());
    }
}

} // verus!
