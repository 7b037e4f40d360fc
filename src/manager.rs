//! The engine facade: the sending end of the command channel.
use vstd::prelude::*;
use crossbeam_channel::Sender;
use crate::device::EngineError;
use crate::playback::{AudioCommand, CommandModel};

verus! {

/// Capacity of the bounded command channel; senders block while it is full.
pub const COMMAND_CAPACITY: usize = 100;

#[verifier::external_type_specification]
#[verifier::external_body]
#[verifier::reject_recursive_types(T)]
pub struct ExSender<T>(Sender<T>);

/// Relies on crossbeam_channel::Sender::send: it blocks while a bounded
/// channel is full, enqueues the message behind those sent before, and fails
/// only once the receiving end has been dropped, handing the message back.
#[verifier::external_body]
fn send_command(sender: &Sender<AudioCommand>, cmd: AudioCommand) -> (r: Result<(), AudioCommand>)
    ensures
        r matches Err(back) ==> back@ == cmd@,
{
    sender.send(cmd).map_err(|e| e.0)
}

/// Issues playback commands to the command processor, in the order of the calls.
pub struct AudioManager {
    command_sender: Sender<AudioCommand>,
    /// The commands enqueued through this facade so far, oldest first.
    sent: Ghost<Seq<CommandModel>>,
}

impl AudioManager {
    /// The commands this facade has enqueued, in the order they were enqueued.
    pub closed spec fn sent(&self) -> Seq<CommandModel> {
        self.sent@
    }

    /// A facade over the sending end of a command channel whose receiving end
    /// is drained by a command processor.
    pub fn new(command_sender: Sender<AudioCommand>) -> (r: AudioManager)
        ensures
            r.sent() == Seq::<CommandModel>::empty(),
    {
        AudioManager { command_sender, sent: Ghost(Seq::empty()) }
    }

    /// Hands `cmd` to the channel. On success it is enqueued behind every
    /// command sent before; on failure nothing is enqueued.
    fn deliver(&mut self, cmd: AudioCommand) -> (r: Result<(), EngineError>)
        ensures
            r is Ok ==> final(self).sent() == old(self).sent().push(cmd@),
            r is Err ==> r == Err::<(), EngineError>(EngineError::ChannelClosed) && final(self).sent()
                == old(self).sent(),
    {
        let ghost m = cmd@;
        match send_command(&self.command_sender, cmd) {
            Ok(()) => {
                self.sent = Ghost(self.sent@.push(m));
                Ok(())
            },
            Err(_) => Err(EngineError::ChannelClosed),
        }
    }

    /// Enqueues `Play` with these samples, in this order.
    pub fn play_audio(&mut self, audio_data: Vec<i32>) -> (r: Result<(), EngineError>)
        ensures
            r is Ok ==> final(self).sent() == old(self).sent().push(CommandModel::Play(audio_data@)),
            r is Err ==> r == Err::<(), EngineError>(EngineError::ChannelClosed) && final(self).sent()
                == old(self).sent(),
    {
        self.deliver(AudioCommand::play(audio_data))
    }

    /// Enqueues `Stop`.
    pub fn stop(&mut self) -> (r: Result<(), EngineError>)
        ensures
            r is Ok ==> final(self).sent() == old(self).sent().push(CommandModel::Stop),
            r is Err ==> r == Err::<(), EngineError>(EngineError::ChannelClosed) && final(self).sent()
                == old(self).sent(),
    {
        self.deliver(AudioCommand::stop())
    }

    /// Enqueues `SetVolume` with the raw level; it is clamped when applied.
    pub fn set_volume(&mut self, volume: i32) -> (r: Result<(), EngineError>)
        ensures
            r is Ok ==> final(self).sent() == old(self).sent().push(CommandModel::SetVolume(volume as int)),
            r is Err ==> r == Err::<(), EngineError>(EngineError::ChannelClosed) && final(self).sent()
                == old(self).sent(),
    {
        self.deliver(AudioCommand::set_volume(volume))
    }
}

} // verus!
