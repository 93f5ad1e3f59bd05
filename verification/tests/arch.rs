use object::elf;
use scry_link::arch::{Architecture, SUPPORTED_TARGETS};
use scry_link::scry32::EM_SCRY;

#[test]
fn scry32_is_recognised() {
    assert_eq!(
        Architecture::try_from(EM_SCRY).unwrap(),
        Architecture::Scry32
    );
    assert_eq!(
        Architecture::try_from(object::elf::Machine(264).0).unwrap(),
        Architecture::Scry32
    );
    assert_eq!(Architecture::Scry32.to_string(), "scry32");
}

#[test]
fn scry32_output_format() {
    assert_eq!(
        Architecture::parse_output_format(b"elf32-scry"),
        Architecture::Scry32
    );
    // Scry objects are ELF32, so the 64-bit spelling must not be accepted.
    assert_eq!(
        Architecture::parse_output_format(b"elf64-scry"),
        Architecture::Unsupported
    );
    assert!(SUPPORTED_TARGETS.split(' ').any(|t| t == "elf32-scry"));
    // Existing targets must keep parsing.
    assert_eq!(
        Architecture::parse_output_format(b"elf64-x86-64"),
        Architecture::X86_64
    );
}

#[test]
fn machine_numbers_match_the_object_crate() {
    let pairs = [
        (elf::EM_X86_64, Architecture::X86_64),
        (elf::EM_AARCH64, Architecture::AArch64),
        (elf::EM_RISCV, Architecture::RiscV64),
        (elf::EM_LOONGARCH, Architecture::LoongArch64),
        (elf::EM_PPC64, Architecture::Ppc64),
    ];
    for (machine, arch) in pairs {
        assert_eq!(Architecture::try_from(machine.0).unwrap(), arch);
    }
}

#[test]
fn unknown_machines_are_reported_in_hex() {
    let err = Architecture::try_from(0x1234).unwrap_err();
    assert_eq!(err.message, "Unsupported architecture: 0x1234");
    let err = Architecture::try_from(0).unwrap_err();
    assert_eq!(err.message, "Unsupported architecture: 0x0");
}

#[test]
fn every_supported_target_parses() {
    for target in SUPPORTED_TARGETS.split(' ') {
        assert_ne!(
            Architecture::parse_output_format(target.as_bytes()),
            Architecture::Unsupported,
            "{target}"
        );
    }
}

#[test]
fn output_formats_must_match_exactly() {
    assert_eq!(Architecture::parse_output_format(b"elf64-aarch64"), Architecture::AArch64);
    assert_eq!(Architecture::parse_output_format(b"elf64-littleaarch64"), Architecture::AArch64);
    assert_eq!(Architecture::parse_output_format(b"elf64-littleriscv"), Architecture::RiscV64);
    assert_eq!(Architecture::parse_output_format(b"elf64-loongarch"), Architecture::LoongArch64);
    assert_eq!(Architecture::parse_output_format(b"elf64-powerpcle"), Architecture::Ppc64);
    assert_eq!(Architecture::parse_output_format(b"elf64-x86-64 "), Architecture::Unsupported);
    assert_eq!(Architecture::parse_output_format(b"elf32-x86-64"), Architecture::Unsupported);
    assert_eq!(Architecture::parse_output_format(b"elf32-scryx"), Architecture::Unsupported);
    assert_eq!(Architecture::parse_output_format(b"elf64-"), Architecture::Unsupported);
    assert_eq!(Architecture::parse_output_format(b""), Architecture::Unsupported);
}

#[test]
fn architecture_names() {
    assert_eq!(Architecture::X86_64.to_string(), "x86_64");
    assert_eq!(Architecture::AArch64.as_str(), "aarch64");
    assert_eq!(Architecture::Unsupported.to_string(), "unsupported");
}
