use scry_link::elf_scry32::{ElfScry32, OutputKind, RelocationModel};
use scry_link::scry32::EM_SCRY;

#[test]
fn arch_identifier_is_scry() {
    assert_eq!(ElfScry32::arch_identifier(), EM_SCRY);
}

#[test]
fn programs_are_placed_at_address_zero() {
    // scryer starts executing at address 0, so that's where a static executable must go.
    assert_eq!(ElfScry32::DEFAULT_LOAD_ADDRESS, 0);
    assert_eq!(
        ElfScry32::start_memory_address(OutputKind::StaticExecutable(RelocationModel::Fixed)),
        0
    );
}

#[test]
fn unknown_relocations_are_reported_by_name() {
    let err = ElfScry32::relocation_from_raw(object::elf::RelocationType(200).0).unwrap_err();
    assert!(
        format!("{err:?}").contains("Unknown scry32 relocation type 0xc8"),
        "{err:?}"
    );
    assert_eq!(
        ElfScry32::rel_type_to_string(object::elf::RelocationType(3).0),
        "R_SCRY_ABS32"
    );
}

#[test]
fn unsupported_relocation_message() {
    let err = ElfScry32::relocation_from_raw(2).unwrap_err();
    assert_eq!(err.message, "Unsupported relocation type R_SCRY_64");
    assert!(ElfScry32::relocation_from_raw(3).is_ok());
}

#[test]
fn scry_has_no_plt_tls_or_relaxations() {
    let mut entry = [5u8; 4];
    let err = ElfScry32::write_plt_entry(&mut entry, 0x1000, 0x2000).unwrap_err();
    assert_eq!(err.message, "Scry has no PLT");
    assert_eq!(entry, [5u8; 4]);
    assert_eq!(ElfScry32::get_dtv_offset(), 0);
    assert!(ElfScry32::high_part_relocations().is_empty());
    assert!(ElfScry32::new_relaxation(3, &[0u8; 8], 0).is_none());
    assert!(ElfScry32::get_property_class(0xc000_0002).is_none());
}

#[test]
fn eflags_are_merged_by_union() {
    assert_eq!(ElfScry32::merge_eflags(&[]).unwrap(), 0);
    assert_eq!(ElfScry32::merge_eflags(&[0x1, 0x4, 0x1]).unwrap(), 0x5);
    assert_eq!(ElfScry32::merge_eflags(&[0x8000_0000, 0x2]).unwrap(), 0x8000_0002);
}

#[test]
fn every_output_kind_starts_at_zero() {
    for kind in [
        OutputKind::StaticExecutable(RelocationModel::Relocatable),
        OutputKind::DynamicExecutable(RelocationModel::Fixed),
        OutputKind::DynamicExecutable(RelocationModel::Relocatable),
        OutputKind::SharedObject,
    ] {
        assert_eq!(ElfScry32::start_memory_address(kind), 0);
    }
}
