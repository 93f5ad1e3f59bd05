use object::Architecture;
use scry_link::file_kind::{
    gcc_lto_in_string_table, has_llvm_lto_section, FileKind, EI_CLASS, EI_DATA,
};
use scry_link::text::{decimal_string, hex_list_string, lower_hex_string};

fn elf_object(arch: Architecture) -> Vec<u8> {
    let mut object =
        object::write::Object::new(object::BinaryFormat::Elf, arch, object::Endianness::Little);
    let text = object.add_section(Vec::new(), b".text".to_vec(), object::SectionKind::Text);
    object.append_section_data(text, &[0; 4], 4);
    object.write().unwrap()
}

/// A little-endian ELF64 file of type `e_type` holding a section-name string table and one
/// more section of type `sh_type`.
fn handmade_elf64(e_type: u16, names: &[u8], sh_type: u32) -> Vec<u8> {
    let mut out = vec![0u8; 64];
    out[..4].copy_from_slice(&[0x7f, b'E', b'L', b'F']);
    out[4] = 2;
    out[5] = 1;
    out[6] = 1;
    out[16..18].copy_from_slice(&e_type.to_le_bytes());
    out[18..20].copy_from_slice(&62u16.to_le_bytes());
    out[20..24].copy_from_slice(&1u32.to_le_bytes());
    let names_offset = out.len() as u64;
    out.extend_from_slice(names);
    let shoff = out.len() as u64;
    out[40..48].copy_from_slice(&shoff.to_le_bytes());
    out[52..54].copy_from_slice(&64u16.to_le_bytes());
    out[58..60].copy_from_slice(&64u16.to_le_bytes());
    out[60..62].copy_from_slice(&3u16.to_le_bytes());
    out[62..64].copy_from_slice(&1u16.to_le_bytes());
    let section = |sh_type: u32, offset: u64, size: u64| {
        let mut s = vec![0u8; 64];
        s[4..8].copy_from_slice(&sh_type.to_le_bytes());
        s[24..32].copy_from_slice(&offset.to_le_bytes());
        s[32..40].copy_from_slice(&size.to_le_bytes());
        s
    };
    out.extend(section(0, 0, 0));
    out.extend(section(3, names_offset, names.len() as u64));
    out.extend(section(sh_type, 0, 0));
    out
}

fn native_mh_magic() -> Vec<u8> {
    0xfeed_facfu32.to_ne_bytes().to_vec()
}

#[test]
fn identifies_elf64_object() {
    let bytes = elf_object(Architecture::X86_64);
    assert_eq!(bytes[EI_CLASS], object::elf::ELFCLASS64.0);
    assert_eq!(
        FileKind::identify_bytes(&bytes).unwrap(),
        FileKind::ElfObject
    );
}

#[test]
fn identifies_elf32_object() {
    // The x32 ABI produces ELF32 files with an x86-64 machine type.
    let bytes = elf_object(Architecture::X86_64_X32);
    assert_eq!(bytes[EI_CLASS], object::elf::ELFCLASS32.0);
    assert_eq!(
        FileKind::identify_bytes(&bytes).unwrap(),
        FileKind::ElfObject
    );
}

#[test]
fn rejects_unsupported_elf() {
    let bytes = elf_object(Architecture::X86_64_X32);

    let err = FileKind::identify_bytes(&bytes[..8]).unwrap_err();
    assert!(format!("{err:?}").contains("Invalid ELF file"), "{err:?}");

    let mut big_endian = bytes.clone();
    big_endian[EI_DATA] = object::elf::ELFDATA2MSB.0;
    let err = FileKind::identify_bytes(&big_endian).unwrap_err();
    assert!(format!("{err:?}").contains("little endian"), "{err:?}");

    let mut bad_class = bytes;
    bad_class[EI_CLASS] = 3;
    let err = FileKind::identify_bytes(&bad_class).unwrap_err();
    assert!(
        format!("{err:?}").contains("Unsupported ELF class 3"),
        "{err:?}"
    );
}

#[test]
fn elf_headers_that_object_refuses_are_invalid() {
    // Long enough for the identification, too short for a 32-bit header.
    let bytes = elf_object(Architecture::X86_64_X32);
    let err = FileKind::identify_bytes(&bytes[..40]).unwrap_err();
    assert_eq!(err.message, "Invalid ELF file");
    // A header whose version is not 1.
    let mut bad_version = elf_object(Architecture::X86_64);
    bad_version[6] = 2;
    let err = FileKind::identify_bytes(&bad_version).unwrap_err();
    assert_eq!(err.message, "Invalid ELF file");
}

#[test]
fn elf_kinds_by_e_type() {
    let dynamic = handmade_elf64(3, b"\0.shstrtab\0", 1);
    assert_eq!(FileKind::identify_bytes(&dynamic).unwrap(), FileKind::ElfDynamic);
    let executable = handmade_elf64(2, b"\0.shstrtab\0", 1);
    let err = FileKind::identify_bytes(&executable).unwrap_err();
    assert_eq!(err.message, "Unsupported ELF kind 2");
    let object = handmade_elf64(1, b"\0.shstrtab\0", 1);
    assert_eq!(FileKind::identify_bytes(&object).unwrap(), FileKind::ElfObject);
}

#[test]
fn llvm_ir_is_found_only_when_asked_for() {
    let bytes = handmade_elf64(1, b"\0.shstrtab\0.llvm.lto\0", 0x6fff_4c0c);
    let native = native_mh_magic();
    assert_eq!(
        FileKind::identify_bytes_with(&bytes, &native, true).unwrap(),
        FileKind::LlvmIr
    );
    assert_eq!(
        FileKind::identify_bytes_with(&bytes, &native, false).unwrap(),
        FileKind::ElfObject
    );
    assert_eq!(FileKind::identify_bytes(&bytes).unwrap(), FileKind::ElfObject);
}

#[test]
fn gcc_ir_is_found_in_the_scanned_window() {
    let mut names = vec![0u8];
    names.extend_from_slice(&[b'a'; 120]);
    names.extend_from_slice(b"\0.gnu.lto_.symtab\0");
    let bytes = handmade_elf64(1, &names, 1);
    let native = native_mh_magic();
    assert_eq!(
        FileKind::identify_bytes_with(&bytes, &native, true).unwrap(),
        FileKind::GccIr
    );
    assert_eq!(
        FileKind::identify_bytes_with(&bytes, &native, false).unwrap(),
        FileKind::ElfObject
    );

    // A name before the scanned window is not seen.
    let mut early = b"\0.gnu.lto_.symtab\0".to_vec();
    early.extend_from_slice(&[b'a'; 120]);
    let bytes = handmade_elf64(1, &early, 1);
    assert_eq!(
        FileKind::identify_bytes_with(&bytes, &native, true).unwrap(),
        FileKind::ElfObject
    );
}

fn macho_header(magic_le: u32, cputype: u32, filetype: u32) -> Vec<u8> {
    let mut h = vec![0u8; 32];
    h[0..4].copy_from_slice(&magic_le.to_le_bytes());
    h[4..8].copy_from_slice(&cputype.to_le_bytes());
    h[12..16].copy_from_slice(&filetype.to_le_bytes());
    h
}

#[test]
fn mach_o_files() {
    let arm64 = 0x0100_000c;
    assert_eq!(
        FileKind::identify_bytes(&macho_header(0xfeed_facf, arm64, 1)).unwrap(),
        FileKind::MachOObject
    );
    assert_eq!(
        FileKind::identify_bytes(&macho_header(0xfeed_facf, arm64, 6)).unwrap(),
        FileKind::MachODylib
    );
    let err = FileKind::identify_bytes(&macho_header(0xfeed_facf, arm64, 2)).unwrap_err();
    assert_eq!(err.message, "Unsupported MachO input file type 2");
    let err = FileKind::identify_bytes(&macho_header(0xfeed_facf, 0x0100_0007, 1)).unwrap_err();
    assert_eq!(err.message, "Only ARM64 is currently supported");
    let err = FileKind::identify_bytes(&macho_header(0xcffa_edfe, arm64, 1)).unwrap_err();
    assert_eq!(err.message, "Only little endian is currently supported");
    let short = &macho_header(0xfeed_facf, arm64, 1)[..20];
    let err = FileKind::identify_bytes(short).unwrap_err();
    assert_eq!(err.message, "Invalid Mach-O header size or alignment");
}

#[test]
fn other_formats() {
    assert_eq!(FileKind::identify_bytes(b"!<arch>\nrest").unwrap(), FileKind::Archive);
    assert_eq!(FileKind::identify_bytes(b"!<thin>\nrest").unwrap(), FileKind::ThinArchive);
    assert_eq!(FileKind::identify_bytes(b"\0asm\x01\0\0\0").unwrap(), FileKind::WasmObject);
    let err = FileKind::identify_bytes(b"\0asm\x01").unwrap_err();
    assert_eq!(err.message, "Invalid Wasm file (too short)");
    assert_eq!(FileKind::identify_bytes(&[0xca, 0xfe, 0xba, 0xbe, 0]).unwrap(), FileKind::FatMachOObject);
    assert_eq!(FileKind::identify_bytes(&[0xca, 0xfe, 0xba, 0xbf]).unwrap(), FileKind::FatMachOObject);
    assert_eq!(FileKind::identify_bytes(b"--- !tapi-tbd\n").unwrap(), FileKind::MachOStubLibrary);
    assert_eq!(FileKind::identify_bytes(b"tbd-version: 4").unwrap(), FileKind::MachOStubLibrary);
    assert_eq!(FileKind::identify_bytes(b"INPUT(libc.so.6)").unwrap(), FileKind::Text);
    assert_eq!(FileKind::identify_bytes(b"").unwrap(), FileKind::Text);
    assert_eq!(FileKind::identify_bytes(b"BC\xc0\xde").unwrap(), FileKind::LlvmIr);
    let err = FileKind::identify_bytes(&[0xff, 0xfe, 0, 1, 2]).unwrap_err();
    assert_eq!(err.message, "Couldn't identify file type starting with [ff, fe, 0, 1]");
    let err = FileKind::identify_bytes(&[0xff, 0xfe]).unwrap_err();
    assert_eq!(err.message, "Input file is only 2 bytes");
}

#[test]
fn compiler_ir_kinds() {
    assert!(FileKind::LlvmIr.is_compiler_ir());
    assert!(FileKind::GccIr.is_compiler_ir());
    assert!(!FileKind::ElfObject.is_compiler_ir());
    assert_eq!(FileKind::GccIr.to_string(), "GCC-IR");
    assert_eq!(FileKind::MachOStubLibrary.as_str(), "Mach-O TBD library");
}

#[test]
fn numbers_as_text() {
    assert_eq!(lower_hex_string(0), "0");
    assert_eq!(lower_hex_string(0xc8), "c8");
    assert_eq!(lower_hex_string(u64::MAX), "ffffffffffffffff");
    assert_eq!(decimal_string(0), "0");
    assert_eq!(decimal_string(1234567890), "1234567890");
    assert_eq!(hex_list_string(&[0x7f, 0, 0xab]), "[7f, 0, ab]");
    assert_eq!(hex_list_string(&[]), "[]");
    assert_eq!(hex_list_string(&[0xff, 0xfe, 0, 1]), format!("{:x?}", &[0xffu8, 0xfe, 0, 1][..]));
}

#[test]
fn gcc_lto_scan_on_a_given_table() {
    let mut data = vec![0u8; 10];
    data.extend_from_slice(&[b'a'; 100]);
    data.extend_from_slice(b"\0.gnu.lto_.x\0");
    data.extend_from_slice(&[b'b'; 50]);
    let headers = [(0u32, 0u64, 0u64), (3, 10, 163)];
    assert_eq!(gcc_lto_in_string_table(&data, &headers, 1), Some(true));
    // The window starts 100 bytes into the table: a table that starts later misses the name.
    let later = [(0u32, 0u64, 0u64), (3, 20, 153)];
    assert_eq!(gcc_lto_in_string_table(&data, &later, 1), Some(false));
    // A table under 100 bytes long has an empty, reversed window.
    let short = [(3u32, 10u64, 99u64)];
    assert_eq!(gcc_lto_in_string_table(&data, &short, 0), None);
    // A window that runs past the data, an index past the headers, an overflowing offset.
    let past = [(3u32, 10u64, 1000u64)];
    assert_eq!(gcc_lto_in_string_table(&data, &past, 0), None);
    assert_eq!(gcc_lto_in_string_table(&data, &headers, 2), None);
    let huge = [(3u32, u64::MAX, 300u64)];
    assert_eq!(gcc_lto_in_string_table(&data, &huge, 0), None);
}

#[test]
fn llvm_lto_section_on_a_given_table() {
    assert!(has_llvm_lto_section(&[(1, 0, 0), (0x6fff_4c0c, 64, 8)]));
    assert!(!has_llvm_lto_section(&[(1, 0, 0), (3, 64, 8)]));
    assert!(!has_llvm_lto_section(&[]));
}
