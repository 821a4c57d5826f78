use vstd::prelude::*;

verus! {

/// The lowest explicit bitrate, in bits per second, handed to the encoder.
pub const MIN_BITRATE: i32 = 500;

/// The highest explicit bitrate, in bits per second, handed to the encoder.
pub const MAX_BITRATE: i32 = 512_000;

/// The code that asks for (and reports) the encoder's automatic bitrate.
pub const AUTO_BITRATE_CODE: i32 = -1000;

/// The code that asks for (and reports) the highest bitrate the encoder can reach.
pub const MAX_BITRATE_CODE: i32 = -1;

/// The code of the music-optimised application mode.
pub const AUDIO_MODE_CODE: i32 = 2049;

/// The code of the low-delay application mode.
pub const LOW_DELAY_MODE_CODE: i32 = 2051;

/// The channel layout of a session; fixed when the session is created.
#[derive(Clone, Copy, Debug, PartialEq, Eq, Structural)]
pub enum Channels {
    Mono,
    Stereo,
}

impl Channels {
    pub open spec fn count_spec(self) -> int {
        match self {
            Channels::Mono => 1,
            Channels::Stereo => 2,
        }
    }

    /// Samples per frame: one for each channel.
    pub fn count(&self) -> (r: usize)
        ensures
            r == self.count_spec(),
    {
        match self {
            Channels::Mono => 1,
            Channels::Stereo => 2,
        }
    }
}

pub open spec fn channels_spec(stereo: u8) -> Channels {
    if stereo == 1 {
        Channels::Stereo
    } else {
        Channels::Mono
    }
}

/// Reads the managed side's boolean: 1 is stereo, anything else mono.
pub fn channels_from_flag(stereo: u8) -> (r: Channels)
    ensures
        r == channels_spec(stereo),
{
    if stereo == 1 {
        Channels::Stereo
    } else {
        Channels::Mono
    }
}

/// What the encoder is tuned for.
#[derive(Clone, Copy, Debug, PartialEq, Eq, Structural)]
pub enum Application {
    Voip,
    Audio,
    LowDelay,
}

pub open spec fn application_spec(code: i32) -> Application {
    if code == AUDIO_MODE_CODE {
        Application::Audio
    } else if code == LOW_DELAY_MODE_CODE {
        Application::LowDelay
    } else {
        Application::Voip
    }
}

/// Reads an application mode code; an unknown code selects voice.
pub fn application_from_code(code: i32) -> (r: Application)
    ensures
        r == application_spec(code),
{
    if code == AUDIO_MODE_CODE {
        Application::Audio
    } else if code == LOW_DELAY_MODE_CODE {
        Application::LowDelay
    } else {
        Application::Voip
    }
}

/// A bitrate setting of the encoder.
#[derive(Clone, Copy, Debug, PartialEq, Eq, Structural)]
pub enum Bitrate {
    Bits(i32),
    Max,
    Auto,
}

pub open spec fn clamp_bits(v: int) -> int {
    if v < MIN_BITRATE {
        MIN_BITRATE as int
    } else if v > MAX_BITRATE {
        MAX_BITRATE as int
    } else {
        v
    }
}

pub open spec fn bitrate_spec(code: i32) -> Bitrate {
    if code == AUTO_BITRATE_CODE {
        Bitrate::Auto
    } else if code == MAX_BITRATE_CODE {
        Bitrate::Max
    } else {
        Bitrate::Bits(clamp_bits(code as int) as i32)
    }
}

pub open spec fn bitrate_code_spec(b: Bitrate) -> i32 {
    match b {
        Bitrate::Auto => AUTO_BITRATE_CODE,
        Bitrate::Max => MAX_BITRATE_CODE,
        Bitrate::Bits(bits) => bits,
    }
}

/// Reads a requested bitrate code: the two sentinels select the automatic
/// and the highest bitrate, any other value is clamped to
/// `MIN_BITRATE..=MAX_BITRATE` bits per second.
pub fn bitrate_from_code(code: i32) -> (r: Bitrate)
    ensures
        r == bitrate_spec(code),
{
    if code == AUTO_BITRATE_CODE {
        Bitrate::Auto
    } else if code == MAX_BITRATE_CODE {
        Bitrate::Max
    } else if code < MIN_BITRATE {
        Bitrate::Bits(MIN_BITRATE)
    } else if code > MAX_BITRATE {
        Bitrate::Bits(MAX_BITRATE)
    } else {
        Bitrate::Bits(code)
    }
}

/// Reports a bitrate setting as a code: the sentinels for the automatic and
/// the highest bitrate, bits per second otherwise.
pub fn bitrate_code(b: Bitrate) -> (r: i32)
    ensures
        r == bitrate_code_spec(b),
{
    match b {
        Bitrate::Auto => AUTO_BITRATE_CODE,
        Bitrate::Max => MAX_BITRATE_CODE,
        Bitrate::Bits(bits) => bits,
    }
}

/// Reporting the setting that a code selects gives the code back for the
/// two sentinels, and the code clamped to `MIN_BITRATE..=MAX_BITRATE`
/// for every other value.
pub proof fn lemma_bitrate_code_round_trip(code: i32)
    ensures
        bitrate_code_spec(bitrate_spec(code)) == (if code == AUTO_BITRATE_CODE {
            AUTO_BITRATE_CODE as int
        } else if code == MAX_BITRATE_CODE {
            MAX_BITRATE_CODE as int
        } else {
            clamp_bits(code as int)
        }),
{
}

} // verus!
