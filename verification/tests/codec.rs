//! Tests of the message-info and capability-data codecs.
use sel4_sys::cap_data::seL4_CapData;
use sel4_sys::message_info::seL4_MessageInfo;
use sel4_sys::message_info::seL4_MsgMaxLength;

#[test]
fn tag_round_trip_typical() {
    let tag = seL4_MessageInfo::new(7, 2, 1, 10);
    assert_eq!(tag.get_label(), 7);
    assert_eq!(tag.get_caps_unwrapped(), 2);
    assert_eq!(tag.get_extra_caps(), 1);
    assert_eq!(tag.get_length(), 10);
}

#[test]
fn tag_round_trip_extremes() {
    let tag = seL4_MessageInfo::new(0xFFFFF, 7, 3, 120);
    assert_eq!(tag.get_label(), 0xFFFFF);
    assert_eq!(tag.get_caps_unwrapped(), 7);
    assert_eq!(tag.get_extra_caps(), 3);
    assert_eq!(tag.get_length(), 120);

    let zero = seL4_MessageInfo::new(0, 0, 0, 0);
    assert_eq!(zero.words[0], 0);
    assert_eq!(zero.get_length(), 0);
}

#[test]
fn tag_packing_is_exact() {
    // length in the low 7 bits, extraCaps at bit 7, capsUnwrapped at
    // bit 9, label at bit 12.
    let tag = seL4_MessageInfo::new(1, 1, 1, 1);
    assert_eq!(tag.words[0], (1 << 12) | (1 << 9) | (1 << 7) | 1);
}

#[test]
fn tag_length_120_accepted_121_rejected() {
    assert_eq!(seL4_MsgMaxLength, 120);
    let ok = seL4_MessageInfo::try_new(3, 0, 0, 120);
    let tag = ok.expect("length 120 lies within the field's range");
    assert_eq!(tag.get_length(), 120);
    assert_eq!(tag.get_label(), 3);

    // One word more than the buffer carries: rejected outright, not
    // silently truncated into a shorter message.
    assert!(seL4_MessageInfo::try_new(3, 0, 0, 121).is_none());
}

#[test]
fn tag_extra_caps_3_accepted_4_rejected() {
    let ok = seL4_MessageInfo::try_new(0, 0, 3, 0);
    let tag = ok.expect("extraCaps 3 fills the 2-bit field exactly");
    assert_eq!(tag.get_extra_caps(), 3);

    // Past the 2-bit field: a contract violation, rejected.
    assert!(seL4_MessageInfo::try_new(0, 0, 4, 0).is_none());
}

#[test]
fn tag_label_and_caps_unwrapped_bounds() {
    assert!(seL4_MessageInfo::try_new(0x100000, 0, 0, 0).is_none());
    assert!(seL4_MessageInfo::try_new(0, 8, 0, 0).is_none());
    assert!(seL4_MessageInfo::try_new(0xFFFFF, 7, 3, 120).is_some());
}

#[test]
fn tag_decode_is_idempotent() {
    // Reading the fields of one received word twice yields the same
    // fields: decoding never mutates what it reads.
    let tag = seL4_MessageInfo::from_word(0xDEAD_BEEF);
    let first = (
        tag.get_label(),
        tag.get_caps_unwrapped(),
        tag.get_extra_caps(),
        tag.get_length(),
    );
    let second = (
        tag.get_label(),
        tag.get_caps_unwrapped(),
        tag.get_extra_caps(),
        tag.get_length(),
    );
    assert_eq!(first, second);
    assert_eq!(tag.words[0], 0xDEAD_BEEF);
}

#[test]
fn badge_round_trip() {
    let data = seL4_CapData::new_badge(0x0FFF_FFFF);
    assert_eq!(data.get_badge(), 0x0FFF_FFFF);
    let small = seL4_CapData::new_badge(42);
    assert_eq!(small.get_badge(), 42);
    assert_eq!(small.words[0], 42);
}

#[test]
fn guard_round_trip() {
    let data = seL4_CapData::new_guard(0x3_FFFF, 31);
    assert_eq!(data.get_guard(), 0x3_FFFF);
    assert_eq!(data.get_guard_size(), 31);

    let data = seL4_CapData::new_guard(5, 12);
    assert_eq!(data.get_guard(), 5);
    assert_eq!(data.get_guard_size(), 12);
    // guard at bit 5, guard size in the low 5 bits.
    assert_eq!(data.words[0], (5 << 5) | 12);
}

#[test]
fn cap_data_from_word_reads_fields() {
    let data = seL4_CapData::from_word((7 << 5) | 3);
    assert_eq!(data.get_guard(), 7);
    assert_eq!(data.get_guard_size(), 3);
}
