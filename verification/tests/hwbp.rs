use tracer_core::error::Error;
use tracer_core::hwbp::{
    slot_enabled, slot_kind, slot_length, HardwareBreakpoint, HardwareBreakpointType,
};

const LENGTHS: [usize; 4] = [1, 2, 4, 8];

#[test]
fn new_keeps_what_it_is_given() {
    let bp = HardwareBreakpoint::new(0xdead_beef, HardwareBreakpointType::Write, 8, 3).unwrap();
    assert_eq!(bp.address(), 0xdead_beef);
    assert_eq!(bp.kind(), HardwareBreakpointType::Write);
    assert_eq!(bp.length(), 8);
    assert_eq!(bp.dr(), 3);
}

#[test]
fn new_rejects_invalid_length() {
    for length in [0usize, 3, 5, 6, 7, 9, 16] {
        assert_eq!(
            HardwareBreakpoint::new(0x1000, HardwareBreakpointType::Execute, length, 0),
            Err(Error::InvalidArgument)
        );
    }
}

#[test]
fn new_rejects_a_slot_out_of_range() {
    assert_eq!(
        HardwareBreakpoint::new(0x1000, HardwareBreakpointType::Execute, 1, 4),
        Err(Error::InvalidArgument)
    );
    assert!(HardwareBreakpoint::new(0x1000, HardwareBreakpointType::Execute, 1, 3).is_ok());
}

#[test]
fn kinds_have_their_condition_bits() {
    assert_eq!(u8::from(HardwareBreakpointType::Execute), 0b00);
    assert_eq!(u8::from(HardwareBreakpointType::Write), 0b01);
    assert_eq!(u8::from(HardwareBreakpointType::Read), 0b01);
    assert_eq!(u8::from(HardwareBreakpointType::Access), 0b11);
}

#[test]
fn condition_bits_have_their_kinds() {
    assert_eq!(HardwareBreakpointType::try_from(0b00), Ok(HardwareBreakpointType::Execute));
    assert_eq!(HardwareBreakpointType::try_from(0b01), Ok(HardwareBreakpointType::Write));
    assert_eq!(HardwareBreakpointType::try_from(0b11), Ok(HardwareBreakpointType::Access));
    assert_eq!(HardwareBreakpointType::try_from(0b10), Err(Error::InvalidArgument));
    assert_eq!(HardwareBreakpointType::try_from(4), Err(Error::InvalidArgument));
}

#[test]
fn enable_sets_fields_of_slot_two() {
    let bp = HardwareBreakpoint::new(0x1000, HardwareBreakpointType::Access, 4, 2).unwrap();
    let dr7 = bp.enable(0);
    assert_eq!(dr7, (1 << 4) | (0b11 << 24) | (0b11 << 26));
    assert_eq!(slot_enabled(dr7, 2), Ok(true));
    assert_eq!(slot_kind(dr7, 2), Ok(HardwareBreakpointType::Access));
    assert_eq!(slot_length(dr7, 2), Ok(4));
}

#[test]
fn lengths_are_encoded_as_the_hardware_wants_them() {
    let codes = [0b00u64, 0b01, 0b11, 0b10];
    for (length, code) in LENGTHS.iter().zip(codes.iter()) {
        let bp =
            HardwareBreakpoint::new(0x1000, HardwareBreakpointType::Execute, *length, 0).unwrap();
        assert_eq!(bp.enable(0), 1 | (code << 18));
    }
}

#[test]
fn enable_replaces_what_the_slot_held() {
    let old = HardwareBreakpoint::new(0x1000, HardwareBreakpointType::Access, 8, 1).unwrap();
    let new = HardwareBreakpoint::new(0x2000, HardwareBreakpointType::Execute, 1, 1).unwrap();
    let dr7 = new.enable(old.enable(0));
    assert_eq!(dr7, 1 << 2);
}

#[test]
fn dr7_round_trip_for_every_slot_kind_and_length() {
    let kinds = [
        HardwareBreakpointType::Execute,
        HardwareBreakpointType::Write,
        HardwareBreakpointType::Access,
    ];
    let backgrounds = [0u64, u64::MAX, 0x0000_0000_aaaa_0455, 0xffff_ffff_5555_03aa];
    for slot in 0..4usize {
        for kind in kinds {
            for length in LENGTHS {
                for background in backgrounds {
                    let bp = HardwareBreakpoint::new(0x1000, kind, length, slot).unwrap();
                    let mask: u64 =
                        (1 << (2 * slot)) | (0b11 << (16 + 4 * slot)) | (0b11 << (18 + 4 * slot));
                    let enabled = bp.enable(background);
                    assert_eq!(slot_enabled(enabled, slot), Ok(true));
                    assert_eq!(slot_kind(enabled, slot), Ok(kind));
                    assert_eq!(slot_length(enabled, slot), Ok(length));
                    assert_eq!(enabled & !mask, background & !mask);

                    let disabled = bp.disable(enabled);
                    assert_eq!(slot_enabled(disabled, slot), Ok(false));
                    assert_eq!(disabled | (1 << (2 * slot)), enabled | (1 << (2 * slot)));
                    assert_eq!(slot_kind(disabled, slot), Ok(kind));
                    assert_eq!(slot_length(disabled, slot), Ok(length));
                }
            }
        }
    }
}

#[test]
fn disable_leaves_the_other_slots_alone() {
    let first = HardwareBreakpoint::new(0x1000, HardwareBreakpointType::Execute, 1, 0).unwrap();
    let second = HardwareBreakpoint::new(0x2000, HardwareBreakpointType::Write, 2, 1).unwrap();
    let both = second.enable(first.enable(0));
    assert_eq!(both, 1 | (1 << 2) | (0b01 << 20) | (0b01 << 22));
    let one = first.disable(both);
    assert_eq!(one, (1 << 2) | (0b01 << 20) | (0b01 << 22));
    assert_eq!(slot_enabled(one, 1), Ok(true));
    assert_eq!(slot_enabled(one, 0), Ok(false));
}

#[test]
fn an_io_condition_in_dr7_has_no_kind() {
    assert_eq!(slot_kind(0b10 << 16, 0), Err(Error::InvalidArgument));
}

#[test]
fn reading_a_slot_out_of_range_is_refused() {
    assert_eq!(slot_enabled(u64::MAX, 4), Err(Error::InvalidArgument));
    assert_eq!(slot_kind(u64::MAX, 4), Err(Error::InvalidArgument));
    assert_eq!(slot_length(u64::MAX, 4), Err(Error::InvalidArgument));
}
