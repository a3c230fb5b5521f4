//! The header decoder: a pure function from a byte buffer to a validated
//! `SidFile`, specified field by field against the fixed binary layout.
//!
//! Every header field is read big-endian at a fixed offset, except the real
//! load address, which is little-endian. Fields are read in strict sequence
//! and the first invalid one aborts the decode; versions other than V1 carry
//! an extended tail of flag and paging fields between the text fields and the
//! real load address.

use vstd::prelude::*;

use crate::bytes::be16_at;
use crate::bytes::be32_at;
use crate::bytes::le16_at;
use crate::bytes::lemma_trim_trailing_nuls;
use crate::bytes::lossy_decode;
use crate::bytes::lossy_utf8;
use crate::bytes::read_u16_be;
use crate::bytes::read_u16_le;
use crate::bytes::read_u32_be;
use crate::bytes::read_u8;
use crate::bytes::trim_trailing_nuls;
use crate::types::ChipModel;
use crate::types::Clock;
use crate::types::DecodeError;
use crate::types::Flags;
use crate::types::Format;
use crate::types::PlaySID;
use crate::types::Type;
use crate::types::Version;
use vstd::slice::slice_index_get;
use vstd::slice::slice_subrange;
use vstd::slice::slice_to_vec;

verus! {

/// A decoded header together with the program payload; immutable once built.
/// The five optional fields are jointly present exactly when the version is
/// not V1.
#[derive(Debug, Clone)]
pub struct SidFile {
    pub file_type: Type,
    pub version: Version,
    pub data_offset: u16,
    pub load_address: u16,
    pub init_address: u16,
    pub play_address: u16,
    pub songs: u16,
    pub start_song: u16,
    pub speed: u32,
    pub name: String,
    pub author: String,
    pub released: String,
    pub flags: Option<Flags>,
    pub start_page: Option<u8>,
    pub page_length: Option<u8>,
    pub second_sid_address: Option<u8>,
    pub third_sid_address: Option<u8>,
    pub real_load_address: u16,
    pub data: Vec<u8>,
}

/// The mathematical image of a `SidFile`: the same fields with the text
/// slots as character sequences and the payload as a byte sequence.
pub ghost struct SidSpec {
    pub file_type: Type,
    pub version: Version,
    pub data_offset: u16,
    pub load_address: u16,
    pub init_address: u16,
    pub play_address: u16,
    pub songs: u16,
    pub start_song: u16,
    pub speed: u32,
    pub name: Seq<char>,
    pub author: Seq<char>,
    pub released: Seq<char>,
    pub flags: Option<Flags>,
    pub start_page: Option<u8>,
    pub page_length: Option<u8>,
    pub second_sid_address: Option<u8>,
    pub third_sid_address: Option<u8>,
    pub real_load_address: u16,
    pub data: Seq<u8>,
}

impl View for SidFile {
    type V = SidSpec;

    open spec fn view(&self) -> SidSpec {
        SidSpec {
            file_type: self.file_type,
            version: self.version,
            data_offset: self.data_offset,
            load_address: self.load_address,
            init_address: self.init_address,
            play_address: self.play_address,
            songs: self.songs,
            start_song: self.start_song,
            speed: self.speed,
            name: self.name@,
            author: self.author@,
            released: self.released@,
            flags: self.flags,
            start_page: self.start_page,
            page_length: self.page_length,
            second_sid_address: self.second_sid_address,
            third_sid_address: self.third_sid_address,
            real_load_address: self.real_load_address,
            data: self.data@,
        }
    }
}

/// The container kind declared by the 4-byte magic word: only the two fixed
/// signatures are accepted.
pub open spec fn spec_file_type(w: u32) -> Result<Type, DecodeError> {
    if w == 0x52534944 {
        Ok(Type::RSID)
    } else if w == 0x50534944 {
        Ok(Type::PSID)
    } else {
        Err(DecodeError::InvalidSignature)
    }
}

/// The version declared at offset 0x04: exactly the values 1 through 4 are
/// accepted, for either container kind.
pub open spec fn spec_version(w: u16) -> Result<Version, DecodeError> {
    if w == 1 {
        Ok(Version::V1)
    } else if w == 2 {
        Ok(Version::V2)
    } else if w == 3 {
        Ok(Version::V3)
    } else if w == 4 {
        Ok(Version::V4)
    } else {
        Err(DecodeError::InvalidVersion)
    }
}

/// The data-offset field is a pure consistency check: it must be 0x76 for V1
/// and 0x7C for every later version.
pub open spec fn spec_data_offset(v: Version, w: u16) -> Result<u16, DecodeError> {
    if (v is V1 && w == 0x76) || (!(v is V1) && w == 0x7C) {
        Ok(w)
    } else {
        Err(DecodeError::InvalidDataOffset)
    }
}

/// The init-address ranges an RSID file must respect.
pub open spec fn rsid_init_range(w: u16) -> bool {
    (0x07E8 <= w && w <= 0x9FFF) || (0xC000 <= w && w <= 0xCFFF)
}

/// RSID files restrict the init address to two windows; PSID accepts any.
pub open spec fn spec_init_address(t: Type, w: u16) -> Result<u16, DecodeError> {
    if t is PSID || rsid_init_range(w) {
        Ok(w)
    } else {
        Err(DecodeError::InvalidInitAddress)
    }
}

/// RSID files must declare play address 0; PSID accepts any.
pub open spec fn spec_play_address(t: Type, w: u16) -> Result<u16, DecodeError> {
    if t is PSID || w == 0 {
        Ok(w)
    } else {
        Err(DecodeError::InvalidPlayAddress)
    }
}

/// The song count must lie in [1, 256].
pub open spec fn spec_songs(w: u16) -> Result<u16, DecodeError> {
    if 1 <= w && w <= 256 {
        Ok(w)
    } else {
        Err(DecodeError::InvalidSongCount)
    }
}

/// The start song may not exceed the song count; 0 is accepted.
pub open spec fn spec_start_song(songs: u16, w: u16) -> Result<u16, DecodeError> {
    if w <= songs {
        Ok(w)
    } else {
        Err(DecodeError::InvalidStartSong)
    }
}

/// RSID files must declare speed 0; PSID accepts any.
pub open spec fn spec_speed(t: Type, w: u32) -> Result<u32, DecodeError> {
    if t is PSID || w == 0 {
        Ok(w)
    } else {
        Err(DecodeError::InvalidSpeed)
    }
}

/// Bit `n` of the packed flags word.
pub open spec fn flag_bit(w: u16, n: u16) -> bool {
    ((w >> n) & 1) == 1
}

/// One two-bit chip-model field, `lo` being the less significant of its two
/// source bits: 00 is Unknown, 01 MOS6581, 10 MOS8580, 11 Both.
pub open spec fn spec_chip_model(lo: bool, hi: bool) -> ChipModel {
    if !hi && !lo {
        ChipModel::Unknown
    } else if !hi && lo {
        ChipModel::MOS6581
    } else if hi && !lo {
        ChipModel::MOS8580
    } else {
        ChipModel::Both
    }
}

/// The two-bit clock field, `lo` being the less significant of its two
/// source bits: 00 is Unknown, 01 PAL, 10 NTSC, 11 Both.
pub open spec fn spec_clock(lo: bool, hi: bool) -> Clock {
    if !hi && !lo {
        Clock::Unknown
    } else if !hi && lo {
        Clock::PAL
    } else if hi && !lo {
        Clock::NTSC
    } else {
        Clock::Both
    }
}

/// The six enumerations packed into the flags word, bits 0 through 9; any of
/// the reserved bits 10 through 15 set fails the whole decode.
pub open spec fn spec_flags(w: u16) -> Result<Flags, DecodeError> {
    if (w >> 10u16) != 0 {
        Err(DecodeError::InvalidFlags)
    } else {
        Ok(
            Flags {
                format: if flag_bit(w, 0) {
                    Format::MusData
                } else {
                    Format::InternalPlayer
                },
                play_sid: if flag_bit(w, 1) {
                    PlaySID::PlaySID
                } else {
                    PlaySID::C64
                },
                clock: spec_clock(flag_bit(w, 2), flag_bit(w, 3)),
                sid_model: spec_chip_model(flag_bit(w, 4), flag_bit(w, 5)),
                second_sid_model: spec_chip_model(flag_bit(w, 6), flag_bit(w, 7)),
                third_sid_model: spec_chip_model(flag_bit(w, 8), flag_bit(w, 9)),
            },
        )
    }
}

/// A 32-byte text slot at offset `i`, decoded permissively and stripped of
/// its trailing NUL padding.
pub open spec fn spec_text_field(b: Seq<u8>, i: int) -> Seq<char> {
    lossy_utf8(trim_trailing_nuls(b.subrange(i, i + 32)))
}

/// The number of header bytes a file of version `v` consumes before the
/// program payload: the 0x76-byte common header, the 6-byte extended tail
/// for versions other than V1, and the 2-byte real load address.
pub open spec fn spec_header_len(v: Version) -> int {
    if v is V1 {
        0x78
    } else {
        0x7E
    }
}

/// What decoding `b` yields: the fields read in strict sequence, each
/// validated in stream order, the first failure naming the field at fault.
pub open spec fn spec_parse(b: Seq<u8>) -> Result<SidSpec, DecodeError> {
    if b.len() < 4 {
        Err(DecodeError::Truncated)
    } else {
        match spec_file_type(be32_at(b, 0)) {
            Err(e) => Err(e),
            Ok(file_type) => if b.len() < 6 {
                Err(DecodeError::Truncated)
            } else {
                match spec_version(be16_at(b, 4)) {
                    Err(e) => Err(e),
                    Ok(version) => if b.len() < 8 {
                        Err(DecodeError::Truncated)
                    } else {
                        match spec_data_offset(version, be16_at(b, 6)) {
                            Err(e) => Err(e),
                            Ok(data_offset) => if b.len() < 10 {
                                Err(DecodeError::Truncated)
                            } else {
                                let load_address = be16_at(b, 8);
                                if b.len() < 12 {
                                    Err(DecodeError::Truncated)
                                } else {
                                    match spec_init_address(file_type, be16_at(b, 10)) {
                                        Err(e) => Err(e),
                                        Ok(init_address) => if b.len() < 14 {
                                            Err(DecodeError::Truncated)
                                        } else {
                                            match spec_play_address(file_type, be16_at(b, 12)) {
                                                Err(e) => Err(e),
                                                Ok(play_address) => spec_parse_counts(
                                                    b,
                                                    file_type,
                                                    version,
                                                    data_offset,
                                                    load_address,
                                                    init_address,
                                                    play_address,
                                                ),
                                            }
                                        },
                                    }
                                }
                            },
                        }
                    },
                }
            },
        }
    }
}

/// The decode from the song-count field on: counts, speed, the three text
/// slots, then the version-dependent tail.
pub open spec fn spec_parse_counts(
    b: Seq<u8>,
    file_type: Type,
    version: Version,
    data_offset: u16,
    load_address: u16,
    init_address: u16,
    play_address: u16,
) -> Result<SidSpec, DecodeError> {
    if b.len() < 16 {
        Err(DecodeError::Truncated)
    } else {
        match spec_songs(be16_at(b, 14)) {
            Err(e) => Err(e),
            Ok(songs) => if b.len() < 18 {
                Err(DecodeError::Truncated)
            } else {
                match spec_start_song(songs, be16_at(b, 16)) {
                    Err(e) => Err(e),
                    Ok(start_song) => if b.len() < 22 {
                        Err(DecodeError::Truncated)
                    } else {
                        match spec_speed(file_type, be32_at(b, 18)) {
                            Err(e) => Err(e),
                            Ok(speed) => if b.len() < 54 {
                                Err(DecodeError::Truncated)
                            } else if b.len() < 86 {
                                Err(DecodeError::Truncated)
                            } else if b.len() < 118 {
                                Err(DecodeError::Truncated)
                            } else {
                                spec_parse_tail(
                                    b,
                                    SidSpec {
                                        file_type,
                                        version,
                                        data_offset,
                                        load_address,
                                        init_address,
                                        play_address,
                                        songs,
                                        start_song,
                                        speed,
                                        name: spec_text_field(b, 22),
                                        author: spec_text_field(b, 54),
                                        released: spec_text_field(b, 86),
                                        flags: None,
                                        start_page: None,
                                        page_length: None,
                                        second_sid_address: None,
                                        third_sid_address: None,
                                        real_load_address: 0,
                                        data: Seq::empty(),
                                    },
                                )
                            },
                        }
                    },
                }
            },
        }
    }
}

/// The version-dependent tail after offset 0x76: for V1 only the
/// little-endian real load address; otherwise the flags word, the four
/// paging and SID-address bytes, and then the real load address. The
/// remaining bytes become the payload.
pub open spec fn spec_parse_tail(b: Seq<u8>, head: SidSpec) -> Result<SidSpec, DecodeError> {
    if head.version is V1 {
        if b.len() < 0x78 {
            Err(DecodeError::Truncated)
        } else {
            Ok(
                SidSpec {
                    real_load_address: le16_at(b, 0x76),
                    data: b.skip(0x78),
                    ..head
                },
            )
        }
    } else {
        if b.len() < 0x78 {
            Err(DecodeError::Truncated)
        } else {
            match spec_flags(be16_at(b, 0x76)) {
                Err(e) => Err(e),
                Ok(fl) => if b.len() < 0x7C {
                    Err(DecodeError::Truncated)
                } else if b.len() < 0x7E {
                    Err(DecodeError::Truncated)
                } else {
                    Ok(
                        SidSpec {
                            flags: Some(fl),
                            start_page: Some(b[0x78]),
                            page_length: Some(b[0x79]),
                            second_sid_address: Some(b[0x7A]),
                            third_sid_address: Some(b[0x7B]),
                            real_load_address: le16_at(b, 0x7C),
                            data: b.skip(0x7E),
                            ..head
                        },
                    )
                },
            }
        }
    }
}

impl SidFile {
    /// Decodes a complete file image: the validated header fields and the
    /// program payload, or the error named after the first field at fault.
    pub fn parse(data: &[u8]) -> (r: Result<SidFile, DecodeError>)
        ensures
            r matches Ok(f) ==> spec_parse(data@) == Ok::<SidSpec, DecodeError>(f@),
            r matches Err(e) ==> spec_parse(data@) == Err::<SidSpec, DecodeError>(e),
    {
        let mut pos: usize = 0;
        let file_type = match Self::get_file_type(data, &mut pos) {
            Ok(v) => v,
            Err(e) => return Err(e),
        };
        let version = match Self::get_version(data, &mut pos) {
            Ok(v) => v,
            Err(e) => return Err(e),
        };
        let data_offset = match Self::get_data_offset(data, &mut pos, version) {
            Ok(v) => v,
            Err(e) => return Err(e),
        };
        let load_address = match Self::get_load_address(data, &mut pos) {
            Ok(v) => v,
            Err(e) => return Err(e),
        };
        let init_address = match Self::get_init_address(data, &mut pos, file_type) {
            Ok(v) => v,
            Err(e) => return Err(e),
        };
        let play_address = match Self::get_play_address(data, &mut pos, file_type) {
            Ok(v) => v,
            Err(e) => return Err(e),
        };
        let songs = match Self::get_songs(data, &mut pos) {
            Ok(v) => v,
            Err(e) => return Err(e),
        };
        let start_song = match Self::get_start_song(data, &mut pos, songs) {
            Ok(v) => v,
            Err(e) => return Err(e),
        };
        let speed = match Self::get_speed(data, &mut pos, file_type) {
            Ok(v) => v,
            Err(e) => return Err(e),
        };
        let name = match Self::get_name(data, &mut pos) {
            Ok(v) => v,
            Err(e) => return Err(e),
        };
        let author = match Self::get_author(data, &mut pos) {
            Ok(v) => v,
            Err(e) => return Err(e),
        };
        let released = match Self::get_released(data, &mut pos) {
            Ok(v) => v,
            Err(e) => return Err(e),
        };
        match version {
            Version::V1 => {
                let real_load_address = match Self::get_real_load_address(data, &mut pos) {
                    Ok(v) => v,
                    Err(e) => return Err(e),
                };
                let program = match Self::get_data(data, &mut pos) {
                    Ok(v) => v,
                    Err(e) => return Err(e),
                };
                Ok(
                    SidFile {
                        file_type,
                        version,
                        data_offset,
                        load_address,
                        init_address,
                        play_address,
                        songs,
                        start_song,
                        speed,
                        name,
                        author,
                        released,
                        flags: None,
                        start_page: None,
                        page_length: None,
                        second_sid_address: None,
                        third_sid_address: None,
                        real_load_address,
                        data: program,
                    },
                )
            },
            _ => {
                let flags = match Self::get_flags(data, &mut pos) {
                    Ok(v) => v,
                    Err(e) => return Err(e),
                };
                let start_page = match Self::get_start_page(data, &mut pos) {
                    Ok(v) => v,
                    Err(e) => return Err(e),
                };
                let page_length = match Self::get_page_length(data, &mut pos) {
                    Ok(v) => v,
                    Err(e) => return Err(e),
                };
                let second_sid_address = match Self::get_sid_address(data, &mut pos) {
                    Ok(v) => v,
                    Err(e) => return Err(e),
                };
                let third_sid_address = match Self::get_sid_address(data, &mut pos) {
                    Ok(v) => v,
                    Err(e) => return Err(e),
                };
                let real_load_address = match Self::get_real_load_address(data, &mut pos) {
                    Ok(v) => v,
                    Err(e) => return Err(e),
                };
                let program = match Self::get_data(data, &mut pos) {
                    Ok(v) => v,
                    Err(e) => return Err(e),
                };
                Ok(
                    SidFile {
                        file_type,
                        version,
                        data_offset,
                        load_address,
                        init_address,
                        play_address,
                        songs,
                        start_song,
                        speed,
                        name,
                        author,
                        released,
                        flags: Some(flags),
                        start_page: Some(start_page),
                        page_length: Some(page_length),
                        second_sid_address: Some(second_sid_address),
                        third_sid_address: Some(third_sid_address),
                        real_load_address,
                        data: program,
                    },
                )
            },
        }
    }

    /// Reads and validates the 4-byte magic signature.
    fn get_file_type(data: &[u8], pos: &mut usize) -> (r: Result<Type, DecodeError>)
        requires
            *old(pos) <= data@.len(),
        ensures
            *old(pos) + 4 <= data@.len() ==> (r == spec_file_type(be32_at(data@, *old(pos) as int))
                && *final(pos) == *old(pos) + 4),
            *old(pos) + 4 > data@.len() ==> (r == Err::<Type, DecodeError>(DecodeError::Truncated)
                && *final(pos) == *old(pos)),
    {
        let w = match read_u32_be(data, pos) {
            Ok(w) => w,
            Err(e) => return Err(e),
        };
        if w == 0x52534944 {
            Ok(Type::RSID)
        } else if w == 0x50534944 {
            Ok(Type::PSID)
        } else {
            Err(DecodeError::InvalidSignature)
        }
    }

    /// Reads and validates the 2-byte version field.
    fn get_version(data: &[u8], pos: &mut usize) -> (r: Result<Version, DecodeError>)
        requires
            *old(pos) <= data@.len(),
        ensures
            *old(pos) + 2 <= data@.len() ==> (r == spec_version(be16_at(data@, *old(pos) as int))
                && *final(pos) == *old(pos) + 2),
            *old(pos) + 2 > data@.len() ==> (r == Err::<Version, DecodeError>(
                DecodeError::Truncated,
            ) && *final(pos) == *old(pos)),
    {
        let w = match read_u16_be(data, pos) {
            Ok(w) => w,
            Err(e) => return Err(e),
        };
        if w == 1 {
            Ok(Version::V1)
        } else if w == 2 {
            Ok(Version::V2)
        } else if w == 3 {
            Ok(Version::V3)
        } else if w == 4 {
            Ok(Version::V4)
        } else {
            Err(DecodeError::InvalidVersion)
        }
    }

    /// Reads the 2-byte data offset and checks it against the constant the
    /// version prescribes.
    fn get_data_offset(data: &[u8], pos: &mut usize, version: Version) -> (r: Result<
        u16,
        DecodeError,
    >)
        requires
            *old(pos) <= data@.len(),
        ensures
            *old(pos) + 2 <= data@.len() ==> (r == spec_data_offset(
                version,
                be16_at(data@, *old(pos) as int),
            ) && *final(pos) == *old(pos) + 2),
            *old(pos) + 2 > data@.len() ==> (r == Err::<u16, DecodeError>(DecodeError::Truncated)
                && *final(pos) == *old(pos)),
    {
        let w = match read_u16_be(data, pos) {
            Ok(w) => w,
            Err(e) => return Err(e),
        };
        let expected: u16 = match version {
            Version::V1 => 0x76,
            _ => 0x7C,
        };
        if w == expected {
            Ok(w)
        } else {
            Err(DecodeError::InvalidDataOffset)
        }
    }

    /// Reads the 2-byte load address; any value is accepted.
    fn get_load_address(data: &[u8], pos: &mut usize) -> (r: Result<u16, DecodeError>)
        requires
            *old(pos) <= data@.len(),
        ensures
            *old(pos) + 2 <= data@.len() ==> (r == Ok::<u16, DecodeError>(
                be16_at(data@, *old(pos) as int),
            ) && *final(pos) == *old(pos) + 2),
            *old(pos) + 2 > data@.len() ==> (r == Err::<u16, DecodeError>(DecodeError::Truncated)
                && *final(pos) == *old(pos)),
    {
        read_u16_be(data, pos)
    }

    /// Reads the 2-byte real load address, the one little-endian field.
    fn get_real_load_address(data: &[u8], pos: &mut usize) -> (r: Result<u16, DecodeError>)
        requires
            *old(pos) <= data@.len(),
        ensures
            *old(pos) + 2 <= data@.len() ==> (r == Ok::<u16, DecodeError>(
                le16_at(data@, *old(pos) as int),
            ) && *final(pos) == *old(pos) + 2),
            *old(pos) + 2 > data@.len() ==> (r == Err::<u16, DecodeError>(DecodeError::Truncated)
                && *final(pos) == *old(pos)),
    {
        read_u16_le(data, pos)
    }

    /// Reads the 2-byte init address; RSID restricts it to two windows.
    fn get_init_address(data: &[u8], pos: &mut usize, file_type: Type) -> (r: Result<
        u16,
        DecodeError,
    >)
        requires
            *old(pos) <= data@.len(),
        ensures
            *old(pos) + 2 <= data@.len() ==> (r == spec_init_address(
                file_type,
                be16_at(data@, *old(pos) as int),
            ) && *final(pos) == *old(pos) + 2),
            *old(pos) + 2 > data@.len() ==> (r == Err::<u16, DecodeError>(DecodeError::Truncated)
                && *final(pos) == *old(pos)),
    {
        let w = match read_u16_be(data, pos) {
            Ok(w) => w,
            Err(e) => return Err(e),
        };
        match file_type {
            Type::PSID => Ok(w),
            Type::RSID => {
                if (0x07E8 <= w && w <= 0x9FFF) || (0xC000 <= w && w <= 0xCFFF) {
                    Ok(w)
                } else {
                    Err(DecodeError::InvalidInitAddress)
                }
            },
        }
    }

    /// Reads the 2-byte play address; RSID requires it to be 0.
    fn get_play_address(data: &[u8], pos: &mut usize, file_type: Type) -> (r: Result<
        u16,
        DecodeError,
    >)
        requires
            *old(pos) <= data@.len(),
        ensures
            *old(pos) + 2 <= data@.len() ==> (r == spec_play_address(
                file_type,
                be16_at(data@, *old(pos) as int),
            ) && *final(pos) == *old(pos) + 2),
            *old(pos) + 2 > data@.len() ==> (r == Err::<u16, DecodeError>(DecodeError::Truncated)
                && *final(pos) == *old(pos)),
    {
        let w = match read_u16_be(data, pos) {
            Ok(w) => w,
            Err(e) => return Err(e),
        };
        match file_type {
            Type::PSID => Ok(w),
            Type::RSID => {
                if w == 0 {
                    Ok(w)
                } else {
                    Err(DecodeError::InvalidPlayAddress)
                }
            },
        }
    }

    /// Reads the 2-byte song count and checks the range [1, 256].
    fn get_songs(data: &[u8], pos: &mut usize) -> (r: Result<u16, DecodeError>)
        requires
            *old(pos) <= data@.len(),
        ensures
            *old(pos) + 2 <= data@.len() ==> (r == spec_songs(be16_at(data@, *old(pos) as int))
                && *final(pos) == *old(pos) + 2),
            *old(pos) + 2 > data@.len() ==> (r == Err::<u16, DecodeError>(DecodeError::Truncated)
                && *final(pos) == *old(pos)),
    {
        let w = match read_u16_be(data, pos) {
            Ok(w) => w,
            Err(e) => return Err(e),
        };
        if 1 <= w && w <= 256 {
            Ok(w)
        } else {
            Err(DecodeError::InvalidSongCount)
        }
    }

    /// Reads the 2-byte start song, which may not exceed the song count.
    fn get_start_song(data: &[u8], pos: &mut usize, songs: u16) -> (r: Result<u16, DecodeError>)
        requires
            *old(pos) <= data@.len(),
        ensures
            *old(pos) + 2 <= data@.len() ==> (r == spec_start_song(
                songs,
                be16_at(data@, *old(pos) as int),
            ) && *final(pos) == *old(pos) + 2),
            *old(pos) + 2 > data@.len() ==> (r == Err::<u16, DecodeError>(DecodeError::Truncated)
                && *final(pos) == *old(pos)),
    {
        let w = match read_u16_be(data, pos) {
            Ok(w) => w,
            Err(e) => return Err(e),
        };
        if w <= songs {
            Ok(w)
        } else {
            Err(DecodeError::InvalidStartSong)
        }
    }

    /// Reads the 4-byte speed word; RSID requires it to be 0.
    fn get_speed(data: &[u8], pos: &mut usize, file_type: Type) -> (r: Result<u32, DecodeError>)
        requires
            *old(pos) <= data@.len(),
        ensures
            *old(pos) + 4 <= data@.len() ==> (r == spec_speed(
                file_type,
                be32_at(data@, *old(pos) as int),
            ) && *final(pos) == *old(pos) + 4),
            *old(pos) + 4 > data@.len() ==> (r == Err::<u32, DecodeError>(DecodeError::Truncated)
                && *final(pos) == *old(pos)),
    {
        let w = match read_u32_be(data, pos) {
            Ok(w) => w,
            Err(e) => return Err(e),
        };
        match file_type {
            Type::PSID => Ok(w),
            Type::RSID => {
                if w == 0 {
                    Ok(w)
                } else {
                    Err(DecodeError::InvalidSpeed)
                }
            },
        }
    }

    /// Reads the 32-byte name slot, decoded permissively and stripped of
    /// trailing NUL padding.
    pub fn get_name(data: &[u8], pos: &mut usize) -> (r: Result<String, DecodeError>)
        requires
            *old(pos) <= data@.len(),
        ensures
            *old(pos) + 32 <= data@.len() ==> (r matches Ok(s) && s@ == spec_text_field(
                data@,
                *old(pos) as int,
            ) && *final(pos) == *old(pos) + 32),
            *old(pos) + 32 > data@.len() ==> (r == Err::<String, DecodeError>(
                DecodeError::Truncated,
            ) && *final(pos) == *old(pos)),
    {
        Self::read_text_field(data, pos)
    }

    /// Reads the 32-byte author slot, decoded permissively and stripped of
    /// trailing NUL padding.
    pub fn get_author(data: &[u8], pos: &mut usize) -> (r: Result<String, DecodeError>)
        requires
            *old(pos) <= data@.len(),
        ensures
            *old(pos) + 32 <= data@.len() ==> (r matches Ok(s) && s@ == spec_text_field(
                data@,
                *old(pos) as int,
            ) && *final(pos) == *old(pos) + 32),
            *old(pos) + 32 > data@.len() ==> (r == Err::<String, DecodeError>(
                DecodeError::Truncated,
            ) && *final(pos) == *old(pos)),
    {
        Self::read_text_field(data, pos)
    }

    /// Reads the 32-byte release slot, decoded permissively and stripped of
    /// trailing NUL padding.
    pub fn get_released(data: &[u8], pos: &mut usize) -> (r: Result<String, DecodeError>)
        requires
            *old(pos) <= data@.len(),
        ensures
            *old(pos) + 32 <= data@.len() ==> (r matches Ok(s) && s@ == spec_text_field(
                data@,
                *old(pos) as int,
            ) && *final(pos) == *old(pos) + 32),
            *old(pos) + 32 > data@.len() ==> (r == Err::<String, DecodeError>(
                DecodeError::Truncated,
            ) && *final(pos) == *old(pos)),
    {
        Self::read_text_field(data, pos)
    }

    /// Shared body of the three text getters: one 32-byte slot.
    fn read_text_field(data: &[u8], pos: &mut usize) -> (r: Result<String, DecodeError>)
        requires
            *old(pos) <= data@.len(),
        ensures
            *old(pos) + 32 <= data@.len() ==> (r matches Ok(s) && s@ == spec_text_field(
                data@,
                *old(pos) as int,
            ) && *final(pos) == *old(pos) + 32),
            *old(pos) + 32 > data@.len() ==> (r == Err::<String, DecodeError>(
                DecodeError::Truncated,
            ) && *final(pos) == *old(pos)),
    {
        if data.len() - *pos < 32 {
            return Err(DecodeError::Truncated);
        }
        let start: usize = *pos;
        let n: usize = data.len();
        let mut k: usize = 32;
        while k > 0 && *slice_index_get(data, start + k - 1) == 0
            invariant
                n == data@.len(),
                start + 32 <= n,
                k <= 32,
                forall|j: int| start + k <= j < start + 32 ==> data@[j] == 0,
            decreases k,
        {
            k = k - 1;
        }
        let mut buf: Vec<u8> = Vec::new();
        let mut i: usize = 0;
        while i < k
            invariant
                i <= k,
                k <= 32,
                n == data@.len(),
                start + 32 <= n,
                buf@ == data@.subrange(start as int, start + i),
            decreases k - i,
        {
            buf.push(*slice_index_get(data, start + i));
            proof {
                assert(data@.subrange(start as int, start + i + 1) =~= data@.subrange(
                    start as int,
                    start + i,
                ).push(data@[start + i]));
            }
            i = i + 1;
        }
        proof {
            let window = data@.subrange(start as int, start + 32);
            lemma_trim_trailing_nuls(window, k as int);
            assert(window.subrange(0, k as int) =~= data@.subrange(start as int, start + k));
        }
        let s = lossy_decode(&buf);
        *pos = start + 32;
        Ok(s)
    }

    /// Reads the 2-byte flags word and decodes its six enumerations; any of
    /// the reserved bits 10 through 15 set is an error.
    fn get_flags(data: &[u8], pos: &mut usize) -> (r: Result<Flags, DecodeError>)
        requires
            *old(pos) <= data@.len(),
        ensures
            *old(pos) + 2 <= data@.len() ==> (r == spec_flags(be16_at(data@, *old(pos) as int))
                && *final(pos) == *old(pos) + 2),
            *old(pos) + 2 > data@.len() ==> (r == Err::<Flags, DecodeError>(DecodeError::Truncated)
                && *final(pos) == *old(pos)),
    {
        let w = match read_u16_be(data, pos) {
            Ok(w) => w,
            Err(e) => return Err(e),
        };
        if (w >> 10u16) != 0u16 {
            return Err(DecodeError::InvalidFlags);
        }
        let b0 = ((w >> 0u16) & 1u16) == 1u16;
        let b1 = ((w >> 1u16) & 1u16) == 1u16;
        let b2 = ((w >> 2u16) & 1u16) == 1u16;
        let b3 = ((w >> 3u16) & 1u16) == 1u16;
        let b4 = ((w >> 4u16) & 1u16) == 1u16;
        let b5 = ((w >> 5u16) & 1u16) == 1u16;
        let b6 = ((w >> 6u16) & 1u16) == 1u16;
        let b7 = ((w >> 7u16) & 1u16) == 1u16;
        let b8 = ((w >> 8u16) & 1u16) == 1u16;
        let b9 = ((w >> 9u16) & 1u16) == 1u16;
        let format = if b0 {
            Format::MusData
        } else {
            Format::InternalPlayer
        };
        let play_sid = if b1 {
            PlaySID::PlaySID
        } else {
            PlaySID::C64
        };
        let clock = match (b2, b3) {
            (false, false) => Clock::Unknown,
            (true, false) => Clock::PAL,
            (false, true) => Clock::NTSC,
            (true, true) => Clock::Both,
        };
        let sid_model = Self::get_sid_model(b4, b5);
        let second_sid_model = Self::get_sid_model(b6, b7);
        let third_sid_model = Self::get_sid_model(b8, b9);
        Ok(
            Flags {
                format,
                play_sid,
                clock,
                sid_model,
                second_sid_model,
                third_sid_model,
            },
        )
    }

    /// Maps one two-bit chip-model field to its enumeration, `bit0` being
    /// the less significant of the two source bits.
    pub fn get_sid_model(bit0: bool, bit1: bool) -> (r: ChipModel)
        ensures
            r == spec_chip_model(bit0, bit1),
    {
        match (bit0, bit1) {
            (false, false) => ChipModel::Unknown,
            (true, false) => ChipModel::MOS6581,
            (false, true) => ChipModel::MOS8580,
            (true, true) => ChipModel::Both,
        }
    }

    /// Reads the 1-byte start page of the extended tail.
    pub fn get_start_page(data: &[u8], pos: &mut usize) -> (r: Result<u8, DecodeError>)
        requires
            *old(pos) <= data@.len(),
        ensures
            *old(pos) + 1 <= data@.len() ==> (r == Ok::<u8, DecodeError>(data@[*old(pos) as int])
                && *final(pos) == *old(pos) + 1),
            *old(pos) + 1 > data@.len() ==> (r == Err::<u8, DecodeError>(DecodeError::Truncated)
                && *final(pos) == *old(pos)),
    {
        read_u8(data, pos)
    }

    /// Reads the 1-byte page length of the extended tail.
    pub fn get_page_length(data: &[u8], pos: &mut usize) -> (r: Result<u8, DecodeError>)
        requires
            *old(pos) <= data@.len(),
        ensures
            *old(pos) + 1 <= data@.len() ==> (r == Ok::<u8, DecodeError>(data@[*old(pos) as int])
                && *final(pos) == *old(pos) + 1),
            *old(pos) + 1 > data@.len() ==> (r == Err::<u8, DecodeError>(DecodeError::Truncated)
                && *final(pos) == *old(pos)),
    {
        read_u8(data, pos)
    }

    /// Reads one 1-byte SID address of the extended tail.
    pub fn get_sid_address(data: &[u8], pos: &mut usize) -> (r: Result<u8, DecodeError>)
        requires
            *old(pos) <= data@.len(),
        ensures
            *old(pos) + 1 <= data@.len() ==> (r == Ok::<u8, DecodeError>(data@[*old(pos) as int])
                && *final(pos) == *old(pos) + 1),
            *old(pos) + 1 > data@.len() ==> (r == Err::<u8, DecodeError>(DecodeError::Truncated)
                && *final(pos) == *old(pos)),
    {
        read_u8(data, pos)
    }

    /// Hands back every byte from the cursor to the end of the input as the
    /// program payload; this step never fails, an empty remainder included.
    pub fn get_data(data: &[u8], pos: &mut usize) -> (r: Result<Vec<u8>, DecodeError>)
        requires
            *old(pos) <= data@.len(),
        ensures
            r matches Ok(v) && v@ == data@.subrange(*old(pos) as int, data@.len() as int),
            *final(pos) == data@.len(),
    {
        let rest = slice_subrange(data, *pos, data.len());
        let v = slice_to_vec(rest);
        *pos = data.len();
        Ok(v)
    }
}

} // verus!
