use sidfile::ChipModel;
use sidfile::Clock;
use sidfile::DecodeError;
use sidfile::Flags;
use sidfile::Format;
use sidfile::PlaySID;
use sidfile::SidFile;

const PSID_MAGIC: u32 = 0x50534944;

fn push_u16_be(b: &mut Vec<u8>, w: u16) {
    b.push((w >> 8) as u8);
    b.push(w as u8);
}

fn push_u32_be(b: &mut Vec<u8>, w: u32) {
    b.push((w >> 24) as u8);
    b.push((w >> 16) as u8);
    b.push((w >> 8) as u8);
    b.push(w as u8);
}

/// A valid PSID version-2 image whose flags word and name slot are chosen by
/// the caller; the name slot is taken verbatim, padded with NUL to 32 bytes.
fn psid_v2_with(flags: u16, name: &[u8]) -> Vec<u8> {
    assert!(name.len() <= 32);
    let mut b = Vec::new();
    push_u32_be(&mut b, PSID_MAGIC);
    push_u16_be(&mut b, 2); // version
    push_u16_be(&mut b, 0x7C); // data offset
    push_u16_be(&mut b, 0x1000); // load address
    push_u16_be(&mut b, 0x1003); // init address
    push_u16_be(&mut b, 0x1006); // play address
    push_u16_be(&mut b, 1); // songs
    push_u16_be(&mut b, 1); // start song
    push_u32_be(&mut b, 0); // speed
    b.extend_from_slice(name);
    for _ in name.len()..32 {
        b.push(0);
    }
    for _ in 0..64 {
        b.push(0); // author and released slots
    }
    push_u16_be(&mut b, flags);
    b.extend_from_slice(&[0, 0, 0, 0]); // start page, page length, SID addresses
    b.extend_from_slice(&[0, 0]); // real load address
    b
}

fn flags_of(image: &[u8]) -> Flags {
    SidFile::parse(image).unwrap().flags.unwrap()
}

#[test]
fn flags_zero_decodes_to_first_variants() {
    let flags = flags_of(&psid_v2_with(0, b"x"));
    assert_eq!(flags.format, Format::InternalPlayer);
    assert_eq!(flags.play_sid, PlaySID::C64);
    assert_eq!(flags.clock, Clock::Unknown);
    assert_eq!(flags.sid_model, ChipModel::Unknown);
    assert_eq!(flags.second_sid_model, ChipModel::Unknown);
    assert_eq!(flags.third_sid_model, ChipModel::Unknown);
}

#[test]
fn flags_bit_to_field_mapping_is_exact() {
    // Each field is read at its own bit positions, with no shift offset.
    assert_eq!(flags_of(&psid_v2_with(1 << 0, b"x")).format, Format::MusData);
    assert_eq!(flags_of(&psid_v2_with(1 << 1, b"x")).play_sid, PlaySID::PlaySID);
    assert_eq!(flags_of(&psid_v2_with(1 << 2, b"x")).clock, Clock::PAL);
    assert_eq!(flags_of(&psid_v2_with(1 << 3, b"x")).clock, Clock::NTSC);
    assert_eq!(flags_of(&psid_v2_with(3 << 2, b"x")).clock, Clock::Both);
    assert_eq!(flags_of(&psid_v2_with(1 << 4, b"x")).sid_model, ChipModel::MOS6581);
    assert_eq!(flags_of(&psid_v2_with(1 << 5, b"x")).sid_model, ChipModel::MOS8580);
    assert_eq!(flags_of(&psid_v2_with(3 << 4, b"x")).sid_model, ChipModel::Both);
    assert_eq!(flags_of(&psid_v2_with(1 << 6, b"x")).second_sid_model, ChipModel::MOS6581);
    assert_eq!(flags_of(&psid_v2_with(1 << 7, b"x")).second_sid_model, ChipModel::MOS8580);
    assert_eq!(flags_of(&psid_v2_with(1 << 8, b"x")).third_sid_model, ChipModel::MOS6581);
    assert_eq!(flags_of(&psid_v2_with(1 << 9, b"x")).third_sid_model, ChipModel::MOS8580);
    assert_eq!(flags_of(&psid_v2_with(3 << 8, b"x")).third_sid_model, ChipModel::Both);
    // A bit set in one field leaves the other fields at their first value.
    let f = flags_of(&psid_v2_with(1 << 4, b"x"));
    assert_eq!(f.format, Format::InternalPlayer);
    assert_eq!(f.play_sid, PlaySID::C64);
    assert_eq!(f.clock, Clock::Unknown);
    assert_eq!(f.second_sid_model, ChipModel::Unknown);
    assert_eq!(f.third_sid_model, ChipModel::Unknown);
}

#[test]
fn reserved_flag_bits_are_rejected() {
    for n in 10..16u16 {
        assert_eq!(
            SidFile::parse(&psid_v2_with(1 << n, b"x")).unwrap_err(),
            DecodeError::InvalidFlags,
            "flags bit {}",
            n
        );
    }
    assert_eq!(SidFile::parse(&psid_v2_with(0xFC00, b"x")).unwrap_err(), DecodeError::InvalidFlags);
}

#[test]
fn low_flag_bits_all_set_decode_to_both() {
    let flags = flags_of(&psid_v2_with(0x03FF, b"x"));
    assert_eq!(flags.format, Format::MusData);
    assert_eq!(flags.play_sid, PlaySID::PlaySID);
    assert_eq!(flags.clock, Clock::Both);
    assert_eq!(flags.sid_model, ChipModel::Both);
    assert_eq!(flags.second_sid_model, ChipModel::Both);
    assert_eq!(flags.third_sid_model, ChipModel::Both);
}

#[test]
fn get_sid_model_maps_bit_pairs() {
    assert_eq!(SidFile::get_sid_model(false, false), ChipModel::Unknown);
    assert_eq!(SidFile::get_sid_model(true, false), ChipModel::MOS6581);
    assert_eq!(SidFile::get_sid_model(false, true), ChipModel::MOS8580);
    assert_eq!(SidFile::get_sid_model(true, true), ChipModel::Both);
}

#[test]
fn text_trailing_nul_padding_is_stripped() {
    let f = SidFile::parse(&psid_v2_with(0, b"Hello")).unwrap();
    assert_eq!(f.name, "Hello");
}

#[test]
fn text_without_nul_is_unchanged() {
    let name = b"abcdefghijklmnopqrstuvwxyz012345";
    assert_eq!(name.len(), 32);
    let f = SidFile::parse(&psid_v2_with(0, name)).unwrap();
    assert_eq!(f.name, "abcdefghijklmnopqrstuvwxyz012345");
}

#[test]
fn text_inner_nul_is_kept() {
    let f = SidFile::parse(&psid_v2_with(0, b"ab\0cd")).unwrap();
    assert_eq!(f.name, "ab\0cd");
}

#[test]
fn text_all_nul_decodes_empty() {
    let f = SidFile::parse(&psid_v2_with(0, b"")).unwrap();
    assert_eq!(f.name, "");
}

#[test]
fn text_invalid_bytes_are_replaced_not_rejected() {
    let f = SidFile::parse(&psid_v2_with(0, &[0xFF, b'A'])).unwrap();
    assert_eq!(f.name, "\u{FFFD}A");
}

#[test]
fn get_name_reads_one_slot() {
    let mut buf = b"Slot One".to_vec();
    for _ in buf.len()..32 {
        buf.push(0);
    }
    buf.extend_from_slice(b"tail");
    let mut pos: usize = 0;
    let s = SidFile::get_name(&buf, &mut pos).unwrap();
    assert_eq!(s, "Slot One");
    assert_eq!(pos, 32);
}

#[test]
fn get_name_fails_on_short_slot() {
    let buf = vec![0u8; 31];
    let mut pos: usize = 0;
    assert_eq!(SidFile::get_name(&buf, &mut pos), Err(DecodeError::Truncated));
    assert_eq!(pos, 0);
}

#[test]
fn byte_getters_read_in_order() {
    let buf = vec![7u8, 8, 9];
    let mut pos: usize = 0;
    assert_eq!(SidFile::get_start_page(&buf, &mut pos), Ok(7));
    assert_eq!(SidFile::get_page_length(&buf, &mut pos), Ok(8));
    assert_eq!(SidFile::get_sid_address(&buf, &mut pos), Ok(9));
    assert_eq!(SidFile::get_sid_address(&buf, &mut pos), Err(DecodeError::Truncated));
    assert_eq!(pos, 3);
}

#[test]
fn get_data_hands_back_the_remainder() {
    let buf = vec![1u8, 2, 3, 4, 5];
    let mut pos: usize = 2;
    let rest = SidFile::get_data(&buf, &mut pos).unwrap();
    assert_eq!(rest, vec![3, 4, 5]);
    assert_eq!(pos, 5);
}
