//! Semantic playback commands and their wire encoding.
//!
//! A command is turned into a fixed 8-byte frame for the serial audio-decoder
//! module: start marker, protocol version, declared length, opcode, feedback
//! flag, two parameter bytes, end marker. The protocol's checksum field is
//! deliberately not appended; the declared-length byte is a protocol constant
//! independent of the variant.

use vstd::prelude::*;

verus! {

pub const START_BYTE: u8 = 0x7E;
pub const VERSION_BYTE: u8 = 0xFF;
pub const COMMAND_LENGTH: u8 = 0x06;
/// Feedback flag: a frame never requests an acknowledgement in this design.
pub const ACK: u8 = 0x00;
pub const END_BYTE: u8 = 0xEF;

/// Equalizer preset, used with [`Command::SetEQ`].
#[derive(Clone, Copy, PartialEq, Eq, Structural, Debug)]
pub enum EQ {
    Normal,
    Pop,
    Rock,
    Jazz,
    Classic,
    Base,
}

/// A playback command for the audio-decoder module.
#[derive(Clone, Copy, PartialEq, Eq, Structural, Debug)]
pub enum Command {
    /// Play next song
    NextSong,
    /// Play previous song
    PrevSong,
    /// Play the song with this index
    PlayWithIndex(u16),
    /// Volume up
    VolumeUp,
    /// Volume down
    VolumeDown,
    /// Set volume (0-30)
    SetVolume(u16),
    /// Select an equalizer preset
    SetEQ(EQ),
    /// Loop a specific song
    LoopSong(u16),
    /// Select storage device: USB memory if true, else SD card
    SetDevice(bool),
    /// Chip enters sleep mode
    SleepMode,
    /// Chip leaves sleep mode
    WakeUp,
    /// Chip reset
    Reset,
    /// Resume playback
    Play,
    /// Pause playback
    Pause,
    /// Play a song (2nd param) in a folder (1st param) of up to 256 songs
    PlayFolder(u8, u8),
    /// Audio amplification: enable (0/1), level (0-31)
    SetAmplification(u8, u8),
    /// Start/stop looping all songs
    SetLoopAll(bool),
    /// Play a song in the MP3 folder (1-3000)
    PlayInMP3Folder(u16),
    /// Play an advert
    PlayAdvert,
    /// Stop the advert and resume the previous playback
    StopAdvert,
    /// Play a song (2nd param) in a folder (1st param) of up to 3000 songs
    PlayInFolder2(u8, u8),
    /// Enable looping all songs
    EnableLoopAll(bool),
    /// Loop the songs of a folder
    LoopFromFolder(u8, u8),
    /// Random playback
    RandomPlayback,
    /// Set single-loop play
    SetSingleLoopPlay(bool),
    /// Enable or disable the DAC
    SetDAC(bool),
    /// Play a song (1st param) at a volume (2nd param)
    PlaySongWithVolume(u8, u8),
}

/// The one-byte opcode the protocol assigns to each command variant.
pub open spec fn spec_opcode(c: Command) -> u8 {
    match c {
        Command::NextSong => 0x01,
        Command::PrevSong => 0x02,
        Command::PlayWithIndex(_) => 0x03,
        Command::VolumeUp => 0x04,
        Command::VolumeDown => 0x05,
        Command::SetVolume(_) => 0x06,
        Command::SetEQ(_) => 0x07,
        Command::LoopSong(_) => 0x08,
        Command::SetDevice(_) => 0x09,
        Command::SleepMode => 0x0A,
        Command::WakeUp => 0x0B,
        Command::Reset => 0x0C,
        Command::Play => 0x0D,
        Command::Pause => 0x0E,
        Command::PlayFolder(_, _) => 0x0F,
        Command::SetAmplification(_, _) => 0x10,
        Command::SetLoopAll(_) => 0x11,
        Command::PlayInMP3Folder(_) => 0x12,
        Command::PlayAdvert => 0x13,
        Command::StopAdvert => 0x15,
        Command::PlayInFolder2(_, _) => 0x14,
        Command::EnableLoopAll(_) => 0x16,
        Command::LoopFromFolder(_, _) => 0x17,
        Command::RandomPlayback => 0x18,
        Command::SetSingleLoopPlay(_) => 0x19,
        Command::SetDAC(_) => 0x1A,
        Command::PlaySongWithVolume(_, _) => 0x22,
    }
}

/// The ordinal the protocol assigns to each equalizer preset.
pub open spec fn spec_eq_ordinal(e: EQ) -> u8 {
    match e {
        EQ::Normal => 0,
        EQ::Pop => 1,
        EQ::Rock => 2,
        EQ::Jazz => 3,
        EQ::Classic => 4,
        EQ::Base => 5,
    }
}

/// First parameter byte: high byte of a 16-bit parameter, the first of two
/// 8-bit parameters, and 0x00 for every other variant.
pub open spec fn spec_param1(c: Command) -> u8 {
    match c {
        Command::PlayWithIndex(a)
        | Command::PlayInMP3Folder(a)
        | Command::SetVolume(a)
        | Command::LoopSong(a) => (a / 256) as u8,
        Command::PlayFolder(a, _)
        | Command::PlayInFolder2(a, _)
        | Command::LoopFromFolder(a, _)
        | Command::PlaySongWithVolume(a, _)
        | Command::SetAmplification(a, _) => a,
        _ => 0,
    }
}

/// Second parameter byte: low byte of a 16-bit parameter, the second of two
/// 8-bit parameters, 0x00/0x01 for a boolean parameter, the preset ordinal
/// for SetEQ, and 0x00 for the parameterless variants.
pub open spec fn spec_param2(c: Command) -> u8 {
    match c {
        Command::PlayWithIndex(a)
        | Command::PlayInMP3Folder(a)
        | Command::SetVolume(a)
        | Command::LoopSong(a) => (a % 256) as u8,
        Command::PlayFolder(_, b)
        | Command::PlayInFolder2(_, b)
        | Command::LoopFromFolder(_, b)
        | Command::PlaySongWithVolume(_, b)
        | Command::SetAmplification(_, b) => b,
        Command::SetDevice(a)
        | Command::SetLoopAll(a)
        | Command::EnableLoopAll(a)
        | Command::SetSingleLoopPlay(a)
        | Command::SetDAC(a) => if a {
            1
        } else {
            0
        },
        Command::SetEQ(eq) => spec_eq_ordinal(eq),
        _ => 0,
    }
}

/// The 8-byte wire frame that carries a command.
pub open spec fn spec_frame(c: Command) -> Seq<u8> {
    seq![
        START_BYTE,
        VERSION_BYTE,
        COMMAND_LENGTH,
        spec_opcode(c),
        ACK,
        spec_param1(c),
        spec_param2(c),
        END_BYTE,
    ]
}

/// High and low byte of a 16-bit value, big-endian.
pub fn split(value: &u16) -> (r: (u8, u8))
    ensures
        r.0 as u16 == *value / 256,
        r.1 as u16 == *value % 256,
        *value == r.0 as u16 * 256 + r.1 as u16,
{
    ((*value / 256) as u8, (*value % 256) as u8)
}

impl EQ {
    /// The protocol ordinal of this preset.
    pub fn ordinal(&self) -> (r: u8)
        ensures
            r == spec_eq_ordinal(*self),
    {
        match self {
            EQ::Normal => 0,
            EQ::Pop => 1,
            EQ::Rock => 2,
            EQ::Jazz => 3,
            EQ::Classic => 4,
            EQ::Base => 5,
        }
    }
}

impl Command {
    /// Opcode and the two parameter bytes of this command.
    pub fn convert_with_params(&self) -> (r: (u8, u8, u8))
        ensures
            r.0 == spec_opcode(*self),
            r.1 == spec_param1(*self),
            r.2 == spec_param2(*self),
    {
        let cmd_byte = self.cmd_byte();
        match self {
            // All with u16 parameter
            Self::PlayWithIndex(a) | Self::PlayInMP3Folder(a) | Self::SetVolume(a)
            | Self::LoopSong(a) => {
                let (p1, p2) = split(a);
                (cmd_byte, p1, p2)
            },
            // All with (u8, u8) parameters
            Self::PlayFolder(a, b)
            | Self::PlayInFolder2(a, b)
            | Self::LoopFromFolder(a, b)
            | Self::PlaySongWithVolume(a, b)
            | Self::SetAmplification(a, b) => (cmd_byte, *a, *b),
            // All with bool parameter
            Self::SetDevice(a)
            | Self::SetLoopAll(a)
            | Self::EnableLoopAll(a)
            | Self::SetSingleLoopPlay(a)
            | Self::SetDAC(a) => {
                let p2: u8 = match a {
                    true => 1,
                    false => 0,
                };
                (cmd_byte, 0, p2)
            },
            Self::SetEQ(eq) => (cmd_byte, 0, eq.ordinal()),
            _ => (cmd_byte, 0, 0),
        }
    }

    /// The one-byte opcode of this command.
    fn cmd_byte(&self) -> (r: u8)
        ensures
            r == spec_opcode(*self),
    {
        match self {
            Self::NextSong => 0x01,
            Self::PrevSong => 0x02,
            Self::PlayWithIndex(_) => 0x03,
            Self::VolumeUp => 0x04,
            Self::VolumeDown => 0x05,
            Self::SetVolume(_) => 0x06,
            Self::SetEQ(_) => 0x07,
            Self::LoopSong(_) => 0x08,
            Self::SetDevice(_) => 0x09,
            Self::SleepMode => 0x0A,
            Self::WakeUp => 0x0B,
            Self::Reset => 0x0C,
            Self::Play => 0x0D,
            Self::Pause => 0x0E,
            Self::PlayFolder(_, _) => 0x0F,
            Self::SetAmplification(_, _) => 0x10,
            Self::SetLoopAll(_) => 0x11,
            Self::PlayInMP3Folder(_) => 0x12,
            Self::PlayAdvert => 0x13,
            Self::StopAdvert => 0x15,
            Self::PlayInFolder2(_, _) => 0x14,
            Self::EnableLoopAll(_) => 0x16,
            Self::LoopFromFolder(_, _) => 0x17,
            Self::RandomPlayback => 0x18,
            Self::SetSingleLoopPlay(_) => 0x19,
            Self::SetDAC(_) => 0x1A,
            Self::PlaySongWithVolume(_, _) => 0x22,
        }
    }

    /// The full 8-byte frame for this command: every variant encodes, and the
    /// frame always carries the fixed start, version, length and end markers.
    pub fn encode(&self) -> (frame: [u8; 8])
        ensures
            frame@ == spec_frame(*self),
    {
        let (cmd_byte, p1, p2) = self.convert_with_params();
        let out: [u8; 8] = [
            START_BYTE,
            VERSION_BYTE,
            COMMAND_LENGTH,
            cmd_byte,
            ACK,
            p1,
            p2,
            END_BYTE,
        ];
        proof {
            assert(out@ =~= spec_frame(*self));
        }
        out
    }
}

/// Every encoded frame is 8 bytes with the fixed markers at their fixed
/// offsets, and opcode and parameter bytes at offsets 3, 5 and 6.
pub proof fn lemma_frame_well_formed(c: Command)
    ensures
        spec_frame(c).len() == 8,
        spec_frame(c)[0] == START_BYTE,
        spec_frame(c)[1] == VERSION_BYTE,
        spec_frame(c)[2] == COMMAND_LENGTH,
        spec_frame(c)[3] == spec_opcode(c),
        spec_frame(c)[4] == ACK,
        spec_frame(c)[5] == spec_param1(c),
        spec_frame(c)[6] == spec_param2(c),
        spec_frame(c)[7] == END_BYTE,
{
}

/// A boolean-parameter command always carries 0x00 as its first parameter
/// byte and 0x00/0x01 as its second.
pub proof fn lemma_bool_param_encoding(c: Command, b: bool)
    requires
        c == Command::SetDevice(b) || c == Command::SetLoopAll(b) || c == Command::EnableLoopAll(b)
            || c == Command::SetSingleLoopPlay(b) || c == Command::SetDAC(b),
    ensures
        spec_param1(c) == 0,
        spec_param2(c) == if b {
            1u8
        } else {
            0u8
        },
{
}

} // verus!
