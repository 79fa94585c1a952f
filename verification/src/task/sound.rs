//! # Sound
//! The commands that play the alarm sound on the DFPlayer Mini, and the time keeping its driver
//! asks for.
use vstd::prelude::*;

verus! {

/// Milliseconds the DFPlayer gets to power up before it is initialised.
pub const POWER_UP_DELAY_MS: u64 = 500;

/// Milliseconds the driver waits for an answer.
pub const DFPLAYER_TIMEOUT_MS: u64 = 1000;

/// Milliseconds the driver holds the reset.
pub const DFPLAYER_RESET_MS: u64 = 1000;

/// The track of the alarm sound on the SD card.
pub const ALARM_TRACK: u16 = 1;

/// A command to the DFPlayer.
#[derive(Debug, Clone, Copy, PartialEq, Eq, Structural)]
pub enum SoundCommand {
    /// Set the volume.
    SetVolume(u8),
    /// Use the classic equalizer.
    ClassicEqualizer,
    /// Play from the SD card.
    SdCardSource,
    /// Play a track.
    Play(u16),
}

/// A command with the pause that follows it, in milliseconds.
#[derive(Debug, Clone, Copy, PartialEq, Eq, Structural)]
pub struct SoundStep {
    /// The command
    pub command: SoundCommand,
    /// The pause after it
    pub pause_ms: u64,
}

/// The steps that start the alarm sound on an initialised player at a volume: volume,
/// equalizer, source, then the track.
pub open spec fn start_steps(volume: u8) -> Seq<SoundStep> {
    seq![
        SoundStep { command: SoundCommand::SetVolume(volume), pause_ms: 100 },
        SoundStep { command: SoundCommand::ClassicEqualizer, pause_ms: 100 },
        SoundStep { command: SoundCommand::SdCardSource, pause_ms: 100 },
        SoundStep { command: SoundCommand::Play(ALARM_TRACK), pause_ms: 200 },
    ]
}

/// The commands that start the alarm sound at the set volume; a player that failed to
/// initialise plays nothing.
pub fn sound_start_plan(player_ready: bool, volume: u8) -> (plan: Vec<SoundStep>)
    ensures
        player_ready ==> plan@ == start_steps(volume),
        !player_ready ==> plan@.len() == 0,
{
    let mut plan: Vec<SoundStep> = Vec::new();
    if player_ready {
        plan.push(SoundStep { command: SoundCommand::SetVolume(volume), pause_ms: 100 });
        plan.push(SoundStep { command: SoundCommand::ClassicEqualizer, pause_ms: 100 });
        plan.push(SoundStep { command: SoundCommand::SdCardSource, pause_ms: 100 });
        plan.push(SoundStep { command: SoundCommand::Play(ALARM_TRACK), pause_ms: 200 });
        assert(plan@ =~= start_steps(volume));
    }
    plan
}

/// Whether `timeout_ms` milliseconds have passed since `since_ms`, both read from the same
/// clock, the later one being `now_ms`.
pub fn is_elapsed(now_ms: u64, since_ms: u64, timeout_ms: u64) -> (elapsed: bool)
    requires
        since_ms <= now_ms,
    ensures
        elapsed == (now_ms - since_ms >= timeout_ms),
{
    now_ms - since_ms >= timeout_ms
}

} // verus!
