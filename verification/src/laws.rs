//! The general laws of the decoder, stated over `spec_parse` and proved once
//! and for all; scenario-sized facts live in the test suite instead.

use vstd::prelude::*;

use crate::bytes::trim_trailing_nuls;
use crate::decode::flag_bit;
use crate::decode::spec_flags;
use crate::decode::spec_header_len;
use crate::decode::spec_parse;
use crate::types::ChipModel;
use crate::types::Clock;
use crate::types::DecodeError;
use crate::types::Flags;
use crate::types::Format;
use crate::types::PlaySID;

verus! {

/// Decoding is deterministic: identical bytes decode to an identical result,
/// success and failure alike.
pub proof fn lemma_parse_deterministic(b1: Seq<u8>, b2: Seq<u8>)
    requires
        b1 == b2,
    ensures
        spec_parse(b1) == spec_parse(b2),
{
}

/// Round trip of a padded text slot: a text whose last byte is not NUL,
/// followed by any amount of NUL padding, trims back to exactly that text.
pub proof fn lemma_trim_round_trip(text: Seq<u8>, pad: nat)
    requires
        text.len() == 0 || text[text.len() - 1] != 0,
    ensures
        trim_trailing_nuls(text + Seq::new(pad, |i: int| 0u8)) == text,
    decreases pad,
{
    let zeros = Seq::new(pad, |i: int| 0u8);
    if pad == 0 {
        assert(text + zeros =~= text);
    } else {
        let s = text + zeros;
        assert(s[s.len() - 1] == 0);
        assert(s.drop_last() =~= text + Seq::new((pad - 1) as nat, |i: int| 0u8));
        lemma_trim_round_trip(text, (pad - 1) as nat);
    }
}

/// Version gating: the flags and the four paging/SID-address fields of a
/// successful decode are jointly present exactly when the version is not V1.
pub proof fn lemma_version_gating(b: Seq<u8>)
    ensures
        spec_parse(b) matches Ok(m) ==> {
            &&& !(m.version is V1) <==> m.flags is Some
            &&& m.flags is Some <==> m.start_page is Some
            &&& m.flags is Some <==> m.page_length is Some
            &&& m.flags is Some <==> m.second_sid_address is Some
            &&& m.flags is Some <==> m.third_sid_address is Some
        },
{
}

/// A successful decode consumed exactly the header bytes of its version, and
/// the payload is the remainder of the input, verbatim.
pub proof fn lemma_program_bytes(b: Seq<u8>)
    ensures
        spec_parse(b) matches Ok(m) ==> {
            &&& b.len() >= spec_header_len(m.version)
            &&& m.data == b.skip(spec_header_len(m.version))
            &&& m.data.len() == b.len() - spec_header_len(m.version)
        },
{
}

/// Any of the reserved bits 10 through 15 set in the flags word fails the
/// decode of that word with the invalid-flags error.
pub proof fn lemma_reserved_flag_bits(w: u16)
    requires
        exists|n: u16| 10 <= n < 16 && flag_bit(w, n),
    ensures
        spec_flags(w) == Err::<Flags, DecodeError>(DecodeError::InvalidFlags),
{
    let n = choose|n: u16| 10 <= n < 16 && flag_bit(w, n);
    assert((w >> 10u16) != 0) by (bit_vector)
        requires
            10 <= n < 16 && ((w >> n) & 1) == 1,
    ;
}

/// A flags word of 0 decodes with every sub-field at its first value:
/// internal player, C64 compatibility, and unknown clock and chip models.
pub proof fn lemma_flags_zero()
    ensures
        spec_flags(0) == Ok::<Flags, DecodeError>(
            Flags {
                format: Format::InternalPlayer,
                play_sid: PlaySID::C64,
                clock: Clock::Unknown,
                sid_model: ChipModel::Unknown,
                second_sid_model: ChipModel::Unknown,
                third_sid_model: ChipModel::Unknown,
            },
        ),
{
    assert(forall|n: u16| n < 16 ==> ((0u16 >> n) & 1) != 1) by (bit_vector);
    assert((0u16 >> 10u16) == 0) by (bit_vector);
}

} // verus!
