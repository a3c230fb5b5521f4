//! The value types of a decoded SID header: the container kind, the declared
//! version, the six flag enumerations, and the error taxonomy.

use vstd::prelude::*;

verus! {

/// Which of the two magic signatures the file declares itself as.
#[derive(Debug, Copy, Clone, PartialEq, Eq, Structural)]
pub enum Type {
    RSID,
    PSID,
}

/// The header version declared at offset 0x04; versions other than V1 carry
/// an extended tail of flag and paging fields.
#[derive(Debug, Copy, Clone, PartialEq, Eq, Structural)]
pub enum Version {
    V1,
    V2,
    V3,
    V4,
}

/// Bit 0 of the packed flags word.
#[derive(Debug, Copy, Clone, PartialEq, Eq, Structural)]
pub enum Format {
    InternalPlayer,
    MusData,
}

/// Bit 1 of the packed flags word.
#[derive(Debug, Copy, Clone, PartialEq, Eq, Structural)]
pub enum PlaySID {
    C64,
    PlaySID,
}

/// Bits 2-3 of the packed flags word.
#[derive(Debug, Copy, Clone, PartialEq, Eq, Structural)]
pub enum Clock {
    Unknown,
    PAL,
    NTSC,
    Both,
}

/// One of the three two-bit chip-model fields of the packed flags word.
#[derive(Debug, Copy, Clone, PartialEq, Eq, Structural)]
pub enum ChipModel {
    Unknown,
    MOS6581,
    MOS8580,
    Both,
}

/// The six enumerations decoded from the 16-bit packed flags word, present
/// only for versions other than V1.
#[derive(Debug, Copy, Clone, PartialEq, Eq, Structural)]
pub struct Flags {
    pub format: Format,
    pub play_sid: PlaySID,
    pub clock: Clock,
    pub sid_model: ChipModel,
    pub second_sid_model: ChipModel,
    pub third_sid_model: ChipModel,
}

/// One variant per validation rule that can fail; `Truncated` is raised
/// whenever fewer bytes remain than the next field requires.
#[derive(Debug, Copy, Clone, PartialEq, Eq, Structural)]
pub enum DecodeError {
    InvalidSignature,
    InvalidVersion,
    InvalidDataOffset,
    InvalidInitAddress,
    InvalidPlayAddress,
    InvalidSongCount,
    InvalidStartSong,
    InvalidSpeed,
    InvalidFlags,
    Truncated,
}

} // verus!
