//! Identifying what sort of file we're dealing with based on its bytes.
use vstd::prelude::*;
use crate::bytes::{
    all_ascii, be_bytes, contains, has_prefix, occurs_at, is_ascii, le_bytes, starts_with, to_be_bytes,
    u16_le, u32_be, u32_le,
};
use crate::error::LinkError;
use crate::formats::{
    elf32_file_type, elf32_section_headers, elf32_section_table, elf32_shstrndx,
    elf32_string_table_index, elf64_file_type, elf64_section_headers, elf64_section_table,
    elf64_shstrndx, elf64_string_table_index, elf_header_accepted, macho64_header,
    macho64_header_accepted, macho64_header_error, memmem_find, mh_magic_64, u32_memory_bytes,
};
use crate::text::{decimal, decimal_string, hex_list, hex_list_string};

verus! {

/// The kinds of input file the linker recognises.
#[derive(Debug, PartialEq, Eq, Clone, Copy, Structural)]
pub enum FileKind {
    ElfObject,
    ElfDynamic,
    MachOObject,
    MachODylib,
    FatMachOObject,
    MachOStubLibrary,
    WasmObject,
    Archive,
    ThinArchive,
    Text,
    LlvmIr,
    GccIr,
}

/// The two ELF classes.
#[derive(Debug, PartialEq, Eq, Clone, Copy, Structural)]
pub enum ElfClass {
    Elf32,
    Elf64,
}

/// The ELF magic number, `\x7fELF`.
pub open spec fn elf_magic() -> Seq<u8> {
    seq![0x7fu8, 0x45u8, 0x4cu8, 0x46u8]
}

fn elf_magic_bytes() -> (r: [u8; 4])
    ensures
        r@ == elf_magic(),
{
    let r = [0x7fu8, 0x45u8, 0x4cu8, 0x46u8];
    assert(r@ =~= elf_magic());
    r
}

/// The bytes of the magic of a regular archive, `!<arch>\n`.
pub open spec fn archive_magic() -> Seq<u8> {
    seq![0x21u8, 0x3cu8, 0x61u8, 0x72u8, 0x63u8, 0x68u8, 0x3eu8, 0x0au8]
}

fn archive_magic_bytes() -> (r: [u8; 8])
    ensures
        r@ == archive_magic(),
{
    let r = [0x21u8, 0x3cu8, 0x61u8, 0x72u8, 0x63u8, 0x68u8, 0x3eu8, 0x0au8];
    assert(r@ =~= archive_magic());
    r
}

/// The bytes of the magic of a thin archive, `!<thin>\n`.
pub open spec fn thin_archive_magic() -> Seq<u8> {
    seq![0x21u8, 0x3cu8, 0x74u8, 0x68u8, 0x69u8, 0x6eu8, 0x3eu8, 0x0au8]
}

fn thin_archive_magic_bytes() -> (r: [u8; 8])
    ensures
        r@ == thin_archive_magic(),
{
    let r = [0x21u8, 0x3cu8, 0x74u8, 0x68u8, 0x69u8, 0x6eu8, 0x3eu8, 0x0au8];
    assert(r@ =~= thin_archive_magic());
    r
}

/// The bytes of the Wasm binary magic, `\0asm`, which a 4-byte version follows.
pub open spec fn wasm_magic() -> Seq<u8> {
    seq![0x00u8, 0x61u8, 0x73u8, 0x6du8]
}

fn wasm_magic_bytes() -> (r: [u8; 4])
    ensures
        r@ == wasm_magic(),
{
    let r = [0x00u8, 0x61u8, 0x73u8, 0x6du8];
    assert(r@ =~= wasm_magic());
    r
}

/// The bytes of the start of a text-based Mach-O stub library, `--- !tapi-tbd`.
pub open spec fn tapi_tbd_magic() -> Seq<u8> {
    seq![0x2du8, 0x2du8, 0x2du8, 0x20u8, 0x21u8, 0x74u8, 0x61u8, 0x70u8, 0x69u8, 0x2du8, 0x74u8, 0x62u8, 0x64u8]
}

fn tapi_tbd_magic_bytes() -> (r: [u8; 13])
    ensures
        r@ == tapi_tbd_magic(),
{
    let r = [0x2du8, 0x2du8, 0x2du8, 0x20u8, 0x21u8, 0x74u8, 0x61u8, 0x70u8, 0x69u8, 0x2du8, 0x74u8, 0x62u8, 0x64u8];
    assert(r@ =~= tapi_tbd_magic());
    r
}

/// The bytes of the other start of a text-based Mach-O stub library, `tbd-version:`.
pub open spec fn tbd_version_magic() -> Seq<u8> {
    seq![0x74u8, 0x62u8, 0x64u8, 0x2du8, 0x76u8, 0x65u8, 0x72u8, 0x73u8, 0x69u8, 0x6fu8, 0x6eu8, 0x3au8]
}

fn tbd_version_magic_bytes() -> (r: [u8; 12])
    ensures
        r@ == tbd_version_magic(),
{
    let r = [0x74u8, 0x62u8, 0x64u8, 0x2du8, 0x76u8, 0x65u8, 0x72u8, 0x73u8, 0x69u8, 0x6fu8, 0x6eu8, 0x3au8];
    assert(r@ =~= tbd_version_magic());
    r
}

/// The bytes of the start of raw LLVM bitcode, `BC`.
pub open spec fn llvm_bitcode_magic() -> Seq<u8> {
    seq![0x42u8, 0x43u8]
}

fn llvm_bitcode_magic_bytes() -> (r: [u8; 2])
    ensures
        r@ == llvm_bitcode_magic(),
{
    let r = [0x42u8, 0x43u8];
    assert(r@ =~= llvm_bitcode_magic());
    r
}

/// The bytes of the start of a GCC LTO section name in a string table, `\0.gnu.lto_.`.
pub open spec fn gcc_lto_marker() -> Seq<u8> {
    seq![0x00u8, 0x2eu8, 0x67u8, 0x6eu8, 0x75u8, 0x2eu8, 0x6cu8, 0x74u8, 0x6fu8, 0x5fu8, 0x2eu8]
}

fn gcc_lto_marker_bytes() -> (r: [u8; 11])
    ensures
        r@ == gcc_lto_marker(),
{
    let r = [0x00u8, 0x2eu8, 0x67u8, 0x6eu8, 0x75u8, 0x2eu8, 0x6cu8, 0x74u8, 0x6fu8, 0x5fu8, 0x2eu8];
    assert(r@ =~= gcc_lto_marker());
    r
}

/// `MH_MAGIC_64`, the magic number of a 64-bit Mach-O file.
pub const MH_MAGIC_64: u32 = 0xfeed_facf;

/// `FAT_MAGIC`, the magic number of a universal ("fat") Mach-O file, stored big-endian.
pub const FAT_MAGIC: u32 = 0xcafe_babe;

/// `FAT_MAGIC_64`, the magic number of a universal Mach-O file with 64-bit offsets.
pub const FAT_MAGIC_64: u32 = 0xcafe_babf;

/// `CPU_TYPE_ARM64`.
pub const CPU_TYPE_ARM64: u32 = 0x0100_000c;

/// `MH_OBJECT`, the Mach-O file type of a relocatable object.
pub const MH_OBJECT: u32 = 1;

/// `MH_DYLIB`, the Mach-O file type of a dynamic library.
pub const MH_DYLIB: u32 = 6;

/// `ET_REL`, the ELF file type of a relocatable object.
pub const ET_REL: u16 = 1;

/// `ET_DYN`, the ELF file type of a shared object.
pub const ET_DYN: u16 = 3;

/// `SHT_LLVM_LTO`, the type of the section in which LLVM stores bitcode for LTO.
pub const SHT_LLVM_LTO: u32 = 0x6fff_4c0c;

/// The size of the ELF identification, `EI_NIDENT`.
pub const EI_NIDENT: usize = 16;

/// The index of the class byte in the ELF identification.
pub const EI_CLASS: usize = 4;

/// The index of the data-encoding byte in the ELF identification.
pub const EI_DATA: usize = 5;

/// Where the scan for GCC LTO section names starts, from the start of the section-name string
/// table: in observed GCC IR files the names run from offset 44 to 454, and the scan looks at
/// roughly the middle of that range.
pub const GCC_SCAN_START: u64 = 100;

/// How many bytes the scan for GCC LTO section names looks at: the longest name is 47 bytes, so
/// this leaves room for a first name that starts late.
pub const GCC_SCAN_LEN: u64 = 200;


/// The `e_type` that `object` reads from an ELF header of the given class, if it accepts the
/// header.
pub open spec fn elf_file_type(class: ElfClass, data: Seq<u8>) -> Option<u16> {
    let accepted = match class {
        ElfClass::Elf32 => elf_header_accepted(data, 1, 52),
        ElfClass::Elf64 => elf_header_accepted(data, 2, 64),
    };
    if accepted { Some(u16_le(data, 16)) } else { None }
}

/// The section headers that `object` reads, by class.
pub open spec fn section_table(class: ElfClass, data: Seq<u8>) -> Option<Seq<(u32, u64, u64)>> {
    match class {
        ElfClass::Elf32 => elf32_section_table(data),
        ElfClass::Elf64 => elf64_section_table(data),
    }
}

/// The index of the section-name string table that `object` reads, by class.
pub open spec fn string_table_index(class: ElfClass, data: Seq<u8>) -> Option<u32> {
    match class {
        ElfClass::Elf32 => elf32_string_table_index(data),
        ElfClass::Elf64 => elf64_string_table_index(data),
    }
}

/// The part of the file scanned for GCC LTO section names, given the offset and size of the
/// section-name string table: from 100 bytes into the table up to 300 bytes into it, but no
/// further than its end. `None` where that is empty-and-reversed or runs past the file.
pub open spec fn gcc_scan_window(data_len: int, sh_offset: u64, sh_size: u64) -> Option<(int, int)> {
    let start = sh_offset + GCC_SCAN_START;
    let end = sh_offset + if sh_size < GCC_SCAN_START + GCC_SCAN_LEN { sh_size as int } else {
        (GCC_SCAN_START + GCC_SCAN_LEN) as int
    };
    if start <= end && end <= data_len { Some((start, end)) } else { None }
}

/// Given the section headers (type, offset, size) and the index of the section-name string table,
/// whether a GCC LTO section name appears in the scanned part of that table. `None` where the
/// index names no header or the scanned part does not lie inside the file.
pub open spec fn gcc_lto_scan(data: Seq<u8>, table: Seq<(u32, u64, u64)>, index: u32) -> Option<bool> {
    if index < table.len() {
        match gcc_scan_window(data.len() as int, table[index as int].1, table[index as int].2) {
            Some((s, e)) => Some(contains(data.subrange(s, e), gcc_lto_marker())),
            None => None,
        }
    } else {
        None
    }
}

/// Some section header has type `SHT_LLVM_LTO`.
pub open spec fn has_llvm_lto(table: Seq<(u32, u64, u64)>) -> bool {
    exists|i: int| 0 <= i < table.len() && #[trigger] table[i].0 == SHT_LLVM_LTO
}

/// Whether the file is GCC IR: when the check is enabled, whether a GCC LTO section name appears
/// in the scanned part of the section-name string table. `None` where the section headers or the
/// string table cannot be read; `Some(false)` when the check is disabled.
pub open spec fn gcc_bitcode(class: ElfClass, data: Seq<u8>, enabled: bool) -> Option<bool> {
    if !enabled {
        Some(false)
    } else {
        match (section_table(class, data), string_table_index(class, data)) {
            (Some(t), Some(i)) => gcc_lto_scan(data, t, i),
            _ => None,
        }
    }
}

/// Whether the file is LLVM IR: when the check is enabled, whether some section has type
/// `SHT_LLVM_LTO`. `None` where the section headers cannot be read; `Some(false)` when the check
/// is disabled.
pub open spec fn llvm_bitcode(class: ElfClass, data: Seq<u8>, enabled: bool) -> Option<bool> {
    if !enabled {
        Some(false)
    } else {
        match section_table(class, data) {
            Some(t) => Some(has_llvm_lto(t)),
            None => None,
        }
    }
}

/// The kind of a little-endian ELF file of the given class. An error is `Err(message)`.
pub open spec fn elf_kind(class: ElfClass, data: Seq<u8>, detect_ir: bool) -> Result<FileKind, Seq<char>> {
    match elf_file_type(class, data) {
        None => Err("Invalid ELF file"@),
        Some(t) => if t == ET_REL {
            if gcc_bitcode(class, data, detect_ir) == Some(true) {
                Ok(FileKind::GccIr)
            } else if llvm_bitcode(class, data, detect_ir) == Some(true) {
                Ok(FileKind::LlvmIr)
            } else {
                Ok(FileKind::ElfObject)
            }
        } else if t == ET_DYN {
            Ok(FileKind::ElfDynamic)
        } else {
            Err("Unsupported ELF kind "@ + decimal(t as nat))
        },
    }
}

/// The kind of a file that starts like a 64-bit Mach-O file. Where `object` refuses the header,
/// the error is what `object` reports.
pub open spec fn macho_kind(data: Seq<u8>) -> Result<FileKind, Seq<char>> {
    if !macho64_header_accepted(data) {
        Err(macho64_header_error(data))
    } else if u32_be(data, 0) == mh_magic_64() {
        Err("Only little endian is currently supported"@)
    } else if u32_le(data, 4) != CPU_TYPE_ARM64 {
        Err("Only ARM64 is currently supported"@)
    } else if u32_le(data, 12) == MH_OBJECT {
        Ok(FileKind::MachOObject)
    } else if u32_le(data, 12) == MH_DYLIB {
        Ok(FileKind::MachODylib)
    } else {
        Err("Unsupported MachO input file type "@ + decimal(u32_le(data, 12) as nat))
    }
}

/// The kind of a file, from its bytes. `native_mh_magic` is `MH_MAGIC_64` in the machine's own
/// byte order; `detect_ir` says whether ELF objects are examined for compiler IR. An error is
/// `Err(message)`.
pub open spec fn identify(data: Seq<u8>, native_mh_magic: Seq<u8>, detect_ir: bool) -> Result<FileKind, Seq<char>> {
    if starts_with(data, archive_magic()) {
        Ok(FileKind::Archive)
    } else if starts_with(data, thin_archive_magic()) {
        Ok(FileKind::ThinArchive)
    } else if starts_with(data, elf_magic()) {
        if data.len() < EI_NIDENT {
            Err("Invalid ELF file"@)
        } else if data[EI_DATA as int] != 1 {
            Err("Only little endian is currently supported"@)
        } else if data[EI_CLASS as int] == 1 {
            elf_kind(ElfClass::Elf32, data, detect_ir)
        } else if data[EI_CLASS as int] == 2 {
            elf_kind(ElfClass::Elf64, data, detect_ir)
        } else {
            Err("Unsupported ELF class "@ + decimal(data[EI_CLASS as int] as nat))
        }
    } else if starts_with(data, native_mh_magic) || starts_with(data, be_bytes(MH_MAGIC_64)) {
        macho_kind(data)
    } else if starts_with(data, wasm_magic()) {
        if data.len() >= 8 {
            Ok(FileKind::WasmObject)
        } else {
            Err("Invalid Wasm file (too short)"@)
        }
    } else if starts_with(data, be_bytes(FAT_MAGIC)) || starts_with(data, be_bytes(FAT_MAGIC_64)) {
        Ok(FileKind::FatMachOObject)
    } else if starts_with(data, tapi_tbd_magic()) || starts_with(data, tbd_version_magic()) {
        Ok(FileKind::MachOStubLibrary)
    } else if all_ascii(data) {
        Ok(FileKind::Text)
    } else if starts_with(data, llvm_bitcode_magic()) {
        Ok(FileKind::LlvmIr)
    } else if data.len() >= 4 {
        Err("Couldn't identify file type starting with "@ + hex_list(data.take(4)))
    } else {
        Err("Input file is only "@ + decimal(data.len()) + " bytes"@)
    }
}

/// `r` is what `s` describes: the same kind, or an error with the described message.
pub open spec fn reports(r: Result<FileKind, LinkError>, s: Result<FileKind, Seq<char>>) -> bool {
    match s {
        Ok(k) => r matches Ok(k2) && k2 == k,
        Err(m) => r matches Err(e) && e.message@ == m,
    }
}

/// How a kind of file is shown to users.
pub open spec fn kind_name(kind: FileKind) -> Seq<char> {
    match kind {
        FileKind::ElfObject => "ELF object"@,
        FileKind::ElfDynamic => "ELF dynamic"@,
        FileKind::MachOObject => "Mach-O object"@,
        FileKind::MachODylib => "Mach-O dylib"@,
        FileKind::WasmObject => "Wasm object"@,
        FileKind::FatMachOObject => "Fat Mach-O object"@,
        FileKind::MachOStubLibrary => "Mach-O TBD library"@,
        FileKind::Archive => "archive"@,
        FileKind::ThinArchive => "thin archive"@,
        FileKind::Text => "text"@,
        FileKind::LlvmIr => "LLVM-IR"@,
        FileKind::GccIr => "GCC-IR"@,
    }
}

impl FileKind {
    /// Identifies a file by its bytes, as a linker built without plugin support does: compiler
    /// IR inside ELF objects is not looked for.
    pub fn identify_bytes(bytes: &[u8]) -> (r: Result<FileKind, LinkError>)
        ensures
            reports(r, identify(bytes@, le_bytes(MH_MAGIC_64), false))
                || reports(r, identify(bytes@, be_bytes(MH_MAGIC_64), false)),
            !starts_with(bytes@, le_bytes(MH_MAGIC_64)) ==> reports(
                r,
                identify(bytes@, be_bytes(MH_MAGIC_64), false),
            ),
    {
        proof {
            if !starts_with(bytes@, le_bytes(MH_MAGIC_64)) {
                lemma_native_order_matters_only_for_macho(bytes@, false);
            }
        }
        let native = u32_memory_bytes(MH_MAGIC_64);
        Self::identify_bytes_with(bytes, native.as_slice(), false)
    }

    /// Identifies a file by its bytes, given `MH_MAGIC_64` in the machine's own byte order and
    /// whether to look for compiler IR inside ELF objects.
    pub fn identify_bytes_with(bytes: &[u8], native_mh_magic: &[u8], detect_ir: bool) -> (r: Result<FileKind, LinkError>)
        ensures
            reports(r, identify(bytes@, native_mh_magic@, detect_ir)),
    {
        if has_prefix(bytes, &archive_magic_bytes()) {
            Ok(FileKind::Archive)
        } else if has_prefix(bytes, &thin_archive_magic_bytes()) {
            Ok(FileKind::ThinArchive)
        } else if has_prefix(bytes, &elf_magic_bytes()) {
            if bytes.len() < EI_NIDENT {
                return Err(LinkError::msg("Invalid ELF file"));
            }
            if bytes[EI_DATA] != 1 {
                return Err(LinkError::msg("Only little endian is currently supported"));
            }
            let class = bytes[EI_CLASS];
            if class == 1 {
                identify_elf(bytes, ElfClass::Elf32, detect_ir)
            } else if class == 2 {
                identify_elf(bytes, ElfClass::Elf64, detect_ir)
            } else {
                let mut message = String::from_str("Unsupported ELF class ");
                let number = decimal_string(class as u64);
                message.append(number.as_str());
                Err(LinkError::new(message))
            }
        } else if has_prefix(bytes, native_mh_magic) || has_prefix(bytes, &to_be_bytes(MH_MAGIC_64)) {
            determine_macho_kind(bytes)
        } else if has_prefix(bytes, &wasm_magic_bytes()) {
            if bytes.len() >= 8 {
                Ok(FileKind::WasmObject)
            } else {
                Err(LinkError::msg("Invalid Wasm file (too short)"))
            }
        } else if has_prefix(bytes, &to_be_bytes(FAT_MAGIC)) || has_prefix(bytes, &to_be_bytes(FAT_MAGIC_64)) {
            Ok(FileKind::FatMachOObject)
        } else if has_prefix(bytes, &tapi_tbd_magic_bytes()) || has_prefix(bytes, &tbd_version_magic_bytes()) {
            Ok(FileKind::MachOStubLibrary)
        } else if is_ascii(bytes) {
            Ok(FileKind::Text)
        } else if has_prefix(bytes, &llvm_bitcode_magic_bytes()) {
            Ok(FileKind::LlvmIr)
        } else if bytes.len() >= 4 {
            let start = [bytes[0], bytes[1], bytes[2], bytes[3]];
            assert(start@ =~= bytes@.take(4));
            let mut message = String::from_str("Couldn't identify file type starting with ");
            let list = hex_list_string(&start);
            message.append(list.as_str());
            Err(LinkError::new(message))
        } else {
            let mut message = String::from_str("Input file is only ");
            let number = decimal_string(bytes.len() as u64);
            message.append(number.as_str());
            message.append(" bytes");
            Err(LinkError::new(message))
        }
    }

    /// How the kind is shown to users.
    pub fn as_str(&self) -> (s: &'static str)
        ensures
            s@ == kind_name(*self),
    {
        match self {
            FileKind::ElfObject => "ELF object",
            FileKind::ElfDynamic => "ELF dynamic",
            FileKind::MachOObject => "Mach-O object",
            FileKind::MachODylib => "Mach-O dylib",
            FileKind::WasmObject => "Wasm object",
            FileKind::FatMachOObject => "Fat Mach-O object",
            FileKind::MachOStubLibrary => "Mach-O TBD library",
            FileKind::Archive => "archive",
            FileKind::ThinArchive => "thin archive",
            FileKind::Text => "text",
            FileKind::LlvmIr => "LLVM-IR",
            FileKind::GccIr => "GCC-IR",
        }
    }

    /// How the kind is shown to users, as an owned string.
    pub fn to_string(&self) -> (s: String)
        ensures
            s@ == kind_name(*self),
    {
        String::from_str(self.as_str())
    }

    /// Whether the kind is compiler IR, to be handed to a compiler plugin.
    pub fn is_compiler_ir(self) -> (r: bool)
        ensures
            r == (self == FileKind::LlvmIr || self == FileKind::GccIr),
    {
        matches!(self, FileKind::LlvmIr | FileKind::GccIr)
    }
}

/// Identifies a little-endian ELF file of the given class by its `e_type`, looking for compiler
/// IR in relocatable objects when asked to.
pub fn identify_elf(bytes: &[u8], class: ElfClass, detect_ir: bool) -> (r: Result<FileKind, LinkError>)
    ensures
        reports(r, elf_kind(class, bytes@, detect_ir)),
{
    let file_type = match class {
        ElfClass::Elf32 => elf32_file_type(bytes),
        ElfClass::Elf64 => elf64_file_type(bytes),
    };
    let t = match file_type {
        Some(t) => t,
        None => return Err(LinkError::msg("Invalid ELF file")),
    };
    if t == ET_REL {
        let gcc = is_gcc_bitcode(bytes, class, detect_ir);
        if gcc == Some(true) {
            return Ok(FileKind::GccIr);
        }
        let llvm = is_llvm_bitcode(bytes, class, detect_ir);
        if llvm == Some(true) {
            Ok(FileKind::LlvmIr)
        } else {
            Ok(FileKind::ElfObject)
        }
    } else if t == ET_DYN {
        Ok(FileKind::ElfDynamic)
    } else {
        let mut message = String::from_str("Unsupported ELF kind ");
        let number = decimal_string(t as u64);
        message.append(number.as_str());
        Err(LinkError::new(message))
    }
}

/// Identifies a 64-bit Mach-O file: only little-endian ARM64 objects and dynamic libraries are
/// supported.
pub fn determine_macho_kind(bytes: &[u8]) -> (r: Result<FileKind, LinkError>)
    ensures
        reports(r, macho_kind(bytes@)),
{
    let (magic, cputype, filetype) = match macho64_header(bytes) {
        Ok(fields) => fields,
        Err(text) => return Err(LinkError::new(text)),
    };
    // The header is big-endian exactly when its magic reads as `MH_MAGIC_64` in big-endian order.
    if magic == MH_MAGIC_64 {
        return Err(LinkError::msg("Only little endian is currently supported"));
    }
    if cputype != CPU_TYPE_ARM64 {
        return Err(LinkError::msg("Only ARM64 is currently supported"));
    }
    if filetype == MH_OBJECT {
        Ok(FileKind::MachOObject)
    } else if filetype == MH_DYLIB {
        Ok(FileKind::MachODylib)
    } else {
        let mut message = String::from_str("Unsupported MachO input file type ");
        let number = decimal_string(filetype as u64);
        message.append(number.as_str());
        Err(LinkError::new(message))
    }
}

/// Whether an ELF relocatable object holds GCC IR. Scanning the entire section table would be
/// expensive, so this assumes that a GCC LTO section name turns up within the first few
/// sections, and scans only part of the section-name string table. When `enabled` is false the
/// answer is `Some(false)` without looking.
pub fn is_gcc_bitcode(data: &[u8], class: ElfClass, enabled: bool) -> (r: Option<bool>)
    ensures
        r == gcc_bitcode(class, data@, enabled),
{
    if !enabled {
        return Some(false);
    }
    let headers = match class {
        ElfClass::Elf32 => elf32_section_headers(data),
        ElfClass::Elf64 => elf64_section_headers(data),
    };
    let index = match class {
        ElfClass::Elf32 => elf32_shstrndx(data),
        ElfClass::Elf64 => elf64_shstrndx(data),
    };
    let (headers, index) = match (headers, index) {
        (Some(h), Some(i)) => (h, i),
        _ => return None,
    };
    gcc_lto_in_string_table(data, headers.as_slice(), index)
}

/// Scans the part of the section-name string table that GCC LTO section names are expected in:
/// from 100 bytes into the table up to 300 bytes into it, no further than its end. `headers` are
/// the section headers as (type, offset, size) and `index` is that of the string table.
pub fn gcc_lto_in_string_table(data: &[u8], headers: &[(u32, u64, u64)], index: u32) -> (r: Option<bool>)
    ensures
        r == gcc_lto_scan(data@, headers@, index),
{
    if index as usize >= headers.len() {
        return None;
    }
    let (_, sh_offset, sh_size) = headers[index as usize];
    let data_len = data.len();
    assert(data_len as int <= u64::MAX);
    let scan_end = if sh_size < GCC_SCAN_START + GCC_SCAN_LEN { sh_size } else { GCC_SCAN_START + GCC_SCAN_LEN };
    let start = match sh_offset.checked_add(GCC_SCAN_START) {
        Some(s) => s,
        None => return None,
    };
    let end = match sh_offset.checked_add(scan_end) {
        Some(e) => e,
        None => return None,
    };
    if start > end || end > data.len() as u64 {
        return None;
    }
    let strings = &data[start as usize..end as usize];
    let marker = gcc_lto_marker_bytes();
    let found = memmem_find(strings, &marker);
    proof {
        if found is None {
            assert(!contains(strings@, gcc_lto_marker()));
        }
    }
    Some(found.is_some())
}

/// Whether an ELF relocatable object holds LLVM IR: some section has type `SHT_LLVM_LTO`. When
/// `enabled` is false the answer is `Some(false)` without looking.
pub fn is_llvm_bitcode(data: &[u8], class: ElfClass, enabled: bool) -> (r: Option<bool>)
    ensures
        r == llvm_bitcode(class, data@, enabled),
{
    if !enabled {
        return Some(false);
    }
    let headers = match class {
        ElfClass::Elf32 => elf32_section_headers(data),
        ElfClass::Elf64 => elf64_section_headers(data),
    };
    let headers = match headers {
        Some(h) => h,
        None => return None,
    };
    Some(has_llvm_lto_section(headers.as_slice()))
}

/// Whether some section header, given as (type, offset, size), has type `SHT_LLVM_LTO`.
pub fn has_llvm_lto_section(headers: &[(u32, u64, u64)]) -> (r: bool)
    ensures
        r == has_llvm_lto(headers@),
{
    let mut i: usize = 0;
    while i < headers.len()
        invariant
            0 <= i <= headers.len(),
            forall|j: int| 0 <= j < i ==> headers@[j].0 != SHT_LLVM_LTO,
        decreases headers.len() - i,
    {
        if headers[i].0 == SHT_LLVM_LTO {
            assert(headers@[i as int].0 == SHT_LLVM_LTO);
            return true;
        }
        i = i + 1;
    }
    false
}

/// The machine's byte order only matters for files that begin with `MH_MAGIC_64` stored
/// little-endian: every other file is identified the same way on any machine.
pub proof fn lemma_native_order_matters_only_for_macho(data: Seq<u8>, detect_ir: bool)
    requires
        !starts_with(data, le_bytes(MH_MAGIC_64)),
    ensures
        identify(data, le_bytes(MH_MAGIC_64), detect_ir) == identify(data, be_bytes(MH_MAGIC_64), detect_ir),
{
}

/// Without IR detection, ELF objects are never reported as compiler IR: GCC IR is never
/// reported, and LLVM IR only for raw bitcode, which starts with `BC`.
pub proof fn lemma_no_ir_without_detection(data: Seq<u8>, native_mh_magic: Seq<u8>)
    ensures
        identify(data, native_mh_magic, false) != Ok::<FileKind, Seq<char>>(FileKind::GccIr),
        identify(data, native_mh_magic, false) == Ok::<FileKind, Seq<char>>(FileKind::LlvmIr)
            ==> starts_with(data, llvm_bitcode_magic()),
{
}

/// IR detection only ever refines an ELF object into GCC or LLVM IR: with it on, the result
/// differs from the result with it off only where that is an ELF object and this is IR.
pub proof fn lemma_ir_detection_refines_elf_objects(data: Seq<u8>, native_mh_magic: Seq<u8>)
    ensures
        identify(data, native_mh_magic, true) != identify(data, native_mh_magic, false) ==> {
            &&& identify(data, native_mh_magic, false) == Ok::<FileKind, Seq<char>>(FileKind::ElfObject)
            &&& (identify(data, native_mh_magic, true) == Ok::<FileKind, Seq<char>>(FileKind::GccIr)
                || identify(data, native_mh_magic, true) == Ok::<FileKind, Seq<char>>(FileKind::LlvmIr))
        },
{
}

/// ELF files that are not little-endian are rejected, whatever else they hold.
pub proof fn lemma_big_endian_elf_rejected(data: Seq<u8>, native_mh_magic: Seq<u8>, detect_ir: bool)
    requires
        starts_with(data, elf_magic()),
        data.len() >= EI_NIDENT,
        data[EI_DATA as int] != 1,
    ensures
        identify(data, native_mh_magic, detect_ir) == Err::<FileKind, Seq<char>>(
            "Only little endian is currently supported"@,
        ),
{
    assert(data.take(4)[0] == 0x7f);
    assert(!starts_with(data, archive_magic()));
    assert(!starts_with(data, thin_archive_magic()));
}

/// A little-endian ELF header that `object` accepts: the ELF magic, class byte `class` (1 for
/// 32-bit, 2 for 64-bit), little-endian data encoding, version 1, and at least `size` bytes.
pub open spec fn accepted_le_elf(data: Seq<u8>, class: u8, size: nat) -> bool {
    &&& starts_with(data, elf_magic())
    &&& data.len() >= size
    &&& data[4] == class
    &&& data[5] == 1
    &&& data[6] == 1
}

/// Byte strings made of ASCII bytes that carry none of the recognised magic numbers are text (a
/// linker script), whatever ASCII they hold, line breaks and other whitespace included.
pub proof fn lemma_ascii_without_magic_is_text(data: Seq<u8>, native_mh_magic: Seq<u8>, detect_ir: bool)
    requires
        all_ascii(data),
        !starts_with(data, archive_magic()),
        !starts_with(data, thin_archive_magic()),
        !starts_with(data, elf_magic()),
        !starts_with(data, native_mh_magic),
        !starts_with(data, wasm_magic()),
        !starts_with(data, tapi_tbd_magic()),
        !starts_with(data, tbd_version_magic()),
    ensures
        identify(data, native_mh_magic, detect_ir) == Ok::<FileKind, Seq<char>>(FileKind::Text),
{
    assert((MH_MAGIC_64 >> 24u32) as u8 == 0xfe) by (bit_vector);
    assert((FAT_MAGIC >> 24u32) as u8 == 0xca) by (bit_vector);
    assert((FAT_MAGIC_64 >> 24u32) as u8 == 0xca) by (bit_vector);
    if data.len() >= 4 {
        assert(data[0] < 0x80);
        assert(data.take(4)[0] == data[0]);
        assert(!starts_with(data, be_bytes(MH_MAGIC_64)));
        assert(!starts_with(data, be_bytes(FAT_MAGIC)));
        assert(!starts_with(data, be_bytes(FAT_MAGIC_64)));
    }
}

/// An accepted little-endian ELF file is classified by its `e_type` alone, for either class: a
/// shared object (`ET_DYN`) is `ElfDynamic`, a relocatable object (`ET_REL`) is `ElfObject` when
/// compiler IR is not looked for, and any other type is refused with the type in decimal.
pub proof fn lemma_elf_kind_by_type(data: Seq<u8>, class: u8, size: nat, native_mh_magic: Seq<u8>, detect_ir: bool)
    requires
        (class == 1 && size == 52) || (class == 2 && size == 64),
        accepted_le_elf(data, class, size),
    ensures
        u16_le(data, 16) == ET_DYN ==> identify(data, native_mh_magic, detect_ir)
            == Ok::<FileKind, Seq<char>>(FileKind::ElfDynamic),
        u16_le(data, 16) == ET_REL && !detect_ir ==> identify(data, native_mh_magic, detect_ir)
            == Ok::<FileKind, Seq<char>>(FileKind::ElfObject),
        u16_le(data, 16) != ET_REL && u16_le(data, 16) != ET_DYN ==> identify(
            data,
            native_mh_magic,
            detect_ir,
        ) == Err::<FileKind, Seq<char>>("Unsupported ELF kind "@ + decimal(u16_le(data, 16) as nat)),
{
    assert(data.take(4)[0] == 0x7f);
    assert(!starts_with(data, archive_magic()));
    assert(!starts_with(data, thin_archive_magic()));
    assert(data.take(4) == elf_magic());
}

/// An ELF file whose identification is little-endian and of a known class, but whose header
/// `object` refuses (too short for the class's header, or a version other than 1), is invalid.
pub proof fn lemma_refused_elf_header_is_invalid(data: Seq<u8>, class: u8, size: nat, native_mh_magic: Seq<u8>, detect_ir: bool)
    requires
        (class == 1 && size == 52) || (class == 2 && size == 64),
        starts_with(data, elf_magic()),
        data.len() >= EI_NIDENT,
        data[4] == class,
        data[5] == 1,
        data.len() < size || data[6] != 1,
    ensures
        identify(data, native_mh_magic, detect_ir) == Err::<FileKind, Seq<char>>("Invalid ELF file"@),
{
    assert(data.take(4)[0] == 0x7f);
    assert(!starts_with(data, archive_magic()));
    assert(!starts_with(data, thin_archive_magic()));
}

/// IR detection reads the section headers and string-table index of the file's own class.
pub proof fn lemma_ir_detection_reads_own_class(data: Seq<u8>)
    ensures
        gcc_bitcode(ElfClass::Elf32, data, true) == match (elf32_section_table(data), elf32_string_table_index(data)) {
            (Some(t), Some(i)) => gcc_lto_scan(data, t, i),
            _ => None,
        },
        gcc_bitcode(ElfClass::Elf64, data, true) == match (elf64_section_table(data), elf64_string_table_index(data)) {
            (Some(t), Some(i)) => gcc_lto_scan(data, t, i),
            _ => None,
        },
        llvm_bitcode(ElfClass::Elf32, data, true) == match elf32_section_table(data) {
            Some(t) => Some(has_llvm_lto(t)),
            None => None,
        },
        llvm_bitcode(ElfClass::Elf64, data, true) == match elf64_section_table(data) {
            Some(t) => Some(has_llvm_lto(t)),
            None => None,
        },
{
}

/// The GCC LTO scan finds the marker exactly when it occurs wholly between 100 bytes into the
/// string table and 300 bytes into it (or the table's end, if sooner); it gives no answer where
/// the index names no header or that part of the table does not lie in the file.
pub proof fn lemma_gcc_lto_scan_meaning(data: Seq<u8>, table: Seq<(u32, u64, u64)>, index: u32)
    ensures
        ({
            let off = table[index as int].1 as int;
            let size = table[index as int].2 as int;
            let end = off + if size < 300 { size } else { 300 };
            &&& gcc_lto_scan(data, table, index) is Some <==> (index < table.len() && off + 100 <= end
                && end <= data.len())
            &&& gcc_lto_scan(data, table, index) == Some(true) <==> (index < table.len() && off + 100
                <= end && end <= data.len() && exists|p: int|
                off + 100 <= p && p + gcc_lto_marker().len() <= end && #[trigger] data.subrange(
                    p,
                    p + gcc_lto_marker().len(),
                ) == gcc_lto_marker())
        }),
{
    let off = table[index as int].1 as int;
    let size = table[index as int].2 as int;
    let end = off + if size < 300 { size } else { 300 };
    let n = gcc_lto_marker().len();
    if index < table.len() && off + 100 <= end && end <= data.len() {
        let w = data.subrange(off + 100, end);
        if contains(w, gcc_lto_marker()) {
            let q = choose|q: int| occurs_at(w, gcc_lto_marker(), q);
            assert(data.subrange(off + 100 + q, off + 100 + q + n) =~= w.subrange(q, q + n));
        }
        if exists|p: int| off + 100 <= p && p + n <= end && #[trigger] data.subrange(p, p + n)
            == gcc_lto_marker() {
            let p = choose|p: int| off + 100 <= p && p + n <= end && #[trigger] data.subrange(p, p + n)
                == gcc_lto_marker();
            assert(w.subrange(p - (off + 100), p - (off + 100) + n) =~= data.subrange(p, p + n));
            assert(occurs_at(w, gcc_lto_marker(), p - (off + 100)));
        }
    }
}

/// With IR detection on, an accepted little-endian ELF relocatable object of either class whose
/// own section-name string table carries a GCC LTO section name in the scanned part (which must
/// lie inside the file) is GCC IR.
pub proof fn lemma_gcc_lto_object_is_gcc_ir(data: Seq<u8>, class: u8, size: nat, native_mh_magic: Seq<u8>, table: Seq<(u32, u64, u64)>, index: u32, p: int)
    requires
        (class == 1 && size == 52) || (class == 2 && size == 64),
        accepted_le_elf(data, class, size),
        u16_le(data, 16) == ET_REL,
        class == 1 ==> elf32_section_table(data) == Some(table) && elf32_string_table_index(data) == Some(index),
        class == 2 ==> elf64_section_table(data) == Some(table) && elf64_string_table_index(data) == Some(index),
        index < table.len(),
        table[index as int].1 + 100 <= p,
        p + gcc_lto_marker().len() <= table[index as int].1 + if table[index as int].2 < 300 {
            table[index as int].2 as int
        } else {
            300
        },
        table[index as int].1 + if table[index as int].2 < 300 {
            table[index as int].2 as int
        } else {
            300
        } <= data.len(),
        data.subrange(p, p + gcc_lto_marker().len()) == gcc_lto_marker(),
    ensures
        identify(data, native_mh_magic, true) == Ok::<FileKind, Seq<char>>(FileKind::GccIr),
{
    lemma_gcc_lto_scan_meaning(data, table, index);
    lemma_ir_detection_reads_own_class(data);
    lemma_elf_kind_by_type(data, class, size, native_mh_magic, true);
    assert(data.take(4)[0] == 0x7f);
    assert(!starts_with(data, archive_magic()));
    assert(!starts_with(data, thin_archive_magic()));
    assert(data.take(4) == elf_magic());
    let off = table[index as int].1 as int;
    let sz = table[index as int].2 as int;
    let end = off + if sz < 300 { sz } else { 300 };
    let n = gcc_lto_marker().len();
    assert(off + 100 <= end && end <= data.len());
    assert(exists|q: int| off + 100 <= q && q + n <= end && #[trigger] data.subrange(q, q + n)
        == gcc_lto_marker());
    assert(gcc_lto_scan(data, table, index) == Some(true));
}

} // verus!
