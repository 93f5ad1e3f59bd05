use object::elf::{Machine, RelocationType};
use scry_link::reloc::{
    AllowedRange, BitMask, DynamicRelocationKind, RelocationInstruction, RelocationKind,
    RelocationModifier, RelocationSize, Scry32Instruction,
};
use scry_link::scry32::{
    rel_type_to_string, relocation_type_from_raw, RelaxationKind, EM_SCRY, R_SCRY_32, R_SCRY_64,
    R_SCRY_ABS32, R_SCRY_NONE,
};

#[test]
fn constants_match_the_scry_elf_abi() {
    assert_eq!(Machine(EM_SCRY), Machine(264));
    assert_eq!(RelocationType(R_SCRY_NONE), RelocationType(0));
    assert_eq!(RelocationType(R_SCRY_32), RelocationType(1));
    assert_eq!(RelocationType(R_SCRY_64), RelocationType(2));
    assert_eq!(RelocationType(R_SCRY_ABS32), RelocationType(3));
}

#[test]
fn relocation_type_names() {
    assert_eq!(rel_type_to_string(R_SCRY_NONE), "R_SCRY_NONE");
    assert_eq!(rel_type_to_string(R_SCRY_32), "R_SCRY_32");
    assert_eq!(rel_type_to_string(R_SCRY_64), "R_SCRY_64");
    assert_eq!(rel_type_to_string(R_SCRY_ABS32), "R_SCRY_ABS32");
    assert_eq!(
        rel_type_to_string(RelocationType(200).0),
        "Unknown scry32 relocation type 0xc8"
    );
}

#[test]
fn unknown_relocation_types_are_rejected() {
    assert!(relocation_type_from_raw(RelocationType(200).0).is_none());
}

#[test]
fn scry_has_no_dynamic_relocations() {
    for r_type in [R_SCRY_NONE, R_SCRY_32, R_SCRY_64, R_SCRY_ABS32] {
        assert!(DynamicRelocationKind::from_scry32_r_type(r_type).is_none());
    }
}

#[test]
fn r_scry_none_does_nothing() {
    let info = relocation_type_from_raw(R_SCRY_NONE).unwrap();
    assert_eq!(info.kind, RelocationKind::Nothing);
    assert_eq!(info.size, RelocationSize::ByteSize(0));

    let mut bytes = [7u8; 2];
    info.write_to_buffer(0x1234, &mut bytes).unwrap();
    assert_eq!(bytes, [7, 7]);
}

#[test]
fn r_scry_32_is_a_plain_little_endian_word() {
    let info = relocation_type_from_raw(R_SCRY_32).unwrap();
    assert_eq!(info.kind, RelocationKind::Absolute);
    assert_eq!(info.size, RelocationSize::ByteSize(4));
    // Data can be byte-aligned, so the value has no alignment requirement.
    assert_eq!(info.alignment, 1);
    // A 32-bit field, allowing a negative addend to sign-extend.
    assert_eq!(info.range, AllowedRange::new(-(1 << 31), 1 << 32));
    assert!(!info.thunkable);

    let mut bytes = [0xffu8; 6];
    info.write_to_buffer(0x0102_0304, &mut bytes).unwrap();
    assert_eq!(bytes, [0x04, 0x03, 0x02, 0x01, 0xff, 0xff]);
}

#[test]
fn r_scry_64_is_not_supported_in_32_bit_links() {
    assert!(relocation_type_from_raw(R_SCRY_64).is_none());
}

#[test]
fn r_scry_abs32_kind_info() {
    let info = relocation_type_from_raw(R_SCRY_ABS32).unwrap();
    assert_eq!(info.kind, RelocationKind::Absolute);
    assert_eq!(
        info.size,
        RelocationSize::BitMasking(BitMask::new(
            RelocationInstruction::Scry32(Scry32Instruction::ConstGrowChain),
            0,
            32
        ))
    );
    assert_eq!(info.alignment, 1);
    assert_eq!(info.range, AllowedRange::new(-(1 << 31), 1 << 32));
    assert!(!info.thunkable);
}

#[test]
fn abs32_scatters_the_address_over_the_const_grow_chain() {
    let info = relocation_type_from_raw(R_SCRY_ABS32).unwrap();

    // A `const` (with a non-zero type field) followed by three `grow` instructions, with
    // garbage in the immediates, followed by an unrelated instruction that must be left alone.
    let mut bytes = [0x90, 0xaa, 0xc0, 0xbb, 0xc0, 0xcc, 0xc0, 0xdd, 0x12, 0x34];
    info.write_to_buffer(0x0102_0304, &mut bytes).unwrap();
    assert_eq!(
        bytes,
        [0x90, 0x01, 0xc0, 0x02, 0xc0, 0x03, 0xc0, 0x04, 0x12, 0x34]
    );
}

#[test]
fn abs32_rejects_values_that_do_not_fit() {
    let info = relocation_type_from_raw(R_SCRY_ABS32).unwrap();
    let mut bytes = [0u8; 8];
    assert!(info.write_to_buffer(1 << 32, &mut bytes).is_err());
}

#[test]
fn abs32_round_trips_through_read_value() {
    let instruction = Scry32Instruction::ConstGrowChain;
    let mut bytes = [0x90, 0, 0xc0, 0, 0xc0, 0, 0xc0, 0];
    instruction.write_to_value(0xdead_beef, false, &mut bytes);
    assert_eq!(bytes, [0x90, 0xde, 0xc0, 0xad, 0xc0, 0xbe, 0xc0, 0xef]);
    assert_eq!(instruction.read_value(&bytes), (0xdead_beef, false));

    // The chain is four 16-bit instructions.
    assert_eq!(
        RelocationInstruction::Scry32(instruction).write_windows_size(),
        8
    );
}

#[test]
fn write_to_value_keeps_only_the_low_32_bits() {
    let instruction = Scry32Instruction::ConstGrowChain;
    let mut bytes = [0x90, 1, 0xc0, 2, 0xc0, 3, 0xc0, 4, 0x55];
    instruction.write_to_value(0x1234_5678_9abc_def0, true, &mut bytes);
    assert_eq!(bytes, [0x90, 0x9a, 0xc0, 0xbc, 0xc0, 0xde, 0xc0, 0xf0, 0x55]);
    assert_eq!(instruction.read_value(&bytes), (0x9abc_def0, false));
}

#[test]
fn rewriting_what_was_read_changes_nothing() {
    let instruction = Scry32Instruction::ConstGrowChain;
    let original = [0x91, 0x12, 0xc1, 0x34, 0xc2, 0x56, 0xc3, 0x78];
    let mut bytes = original;
    let (value, negative) = instruction.read_value(&bytes);
    assert_eq!(value, 0x1234_5678);
    instruction.write_to_value(value, negative, &mut bytes);
    assert_eq!(bytes, original);
}

#[test]
fn abs32_accepts_sign_extended_negative_values() {
    let info = relocation_type_from_raw(R_SCRY_ABS32).unwrap();
    let mut bytes = [0u8; 8];
    info.write_to_buffer(0xffff_ffff_8000_0000, &mut bytes).unwrap();
    assert_eq!(bytes, [0, 0x80, 0, 0, 0, 0, 0, 0]);
    let mut bytes = [0u8; 8];
    let err = info.write_to_buffer(0xffff_ffff_7fff_ffff, &mut bytes).unwrap_err();
    assert_eq!(err.message, "Relocation value out of range");
    assert_eq!(bytes, [0u8; 8]);
    info.write_to_buffer(0xffff_ffff, &mut bytes).unwrap();
    assert_eq!(bytes, [0, 0xff, 0, 0xff, 0, 0xff, 0, 0xff]);
}

#[test]
fn r_scry_32_rejects_values_that_do_not_fit() {
    let info = relocation_type_from_raw(R_SCRY_32).unwrap();
    let mut bytes = [9u8; 4];
    let err = info.write_to_buffer(0x1_0000_0000, &mut bytes).unwrap_err();
    assert_eq!(err.message, "Relocation value out of range");
    assert_eq!(bytes, [9u8; 4]);
    info.write_to_buffer(0xffff_ffff_ffff_fffe, &mut bytes).unwrap();
    assert_eq!(bytes, [0xfe, 0xff, 0xff, 0xff]);
}

#[test]
fn misaligned_values_are_rejected() {
    let mut info = relocation_type_from_raw(R_SCRY_32).unwrap();
    info.alignment = 4;
    let mut bytes = [0u8; 4];
    let err = info.write_to_buffer(6, &mut bytes).unwrap_err();
    assert_eq!(err.message, "Relocation value not aligned");
    info.write_to_buffer(8, &mut bytes).unwrap();
    assert_eq!(bytes, [8, 0, 0, 0]);
}

#[test]
fn no_op_relaxation_changes_nothing() {
    let mut bytes = [1u8, 2, 3];
    let mut offset = 7u64;
    let mut addend = -3i64;
    RelaxationKind::NoOp.apply(&mut bytes, &mut offset, &mut addend);
    assert_eq!(bytes, [1, 2, 3]);
    assert_eq!(offset, 7);
    assert_eq!(addend, -3);
    assert_eq!(RelaxationKind::NoOp.next_modifier(), RelocationModifier::Normal);
}
