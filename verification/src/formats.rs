//! What the `object`, `memchr` and `zerocopy` crates compute for the file-kind logic, each call
//! behind a trusted item whose contract states what the crate's source does.
use vstd::prelude::*;
use object::read::elf::FileHeader;
use object::read::elf::SectionHeader;
use object::read::macho::MachHeader;
use object::elf::{FileHeader32, FileHeader64};
use object::macho::MachHeader64;
use object::{Endianness, LittleEndian};
use zerocopy::IntoBytes;
use crate::bytes::{be_bytes, le_bytes, occurs_at, u16_le, u32_be, u32_le};
use crate::file_kind::elf_magic;

verus! {

/// The identification bytes and header size that `object` accepts for an ELF header of class
/// `class` (1 for 32-bit, 2 for 64-bit): at least `header_size` bytes, the ELF magic, the class,
/// a little- or big-endian data encoding, and version 1.
pub open spec fn elf_header_accepted(data: Seq<u8>, class: u8, header_size: nat) -> bool {
    &&& data.len() >= header_size
    &&& data.take(4) == elf_magic()
    &&& data[4] == class
    &&& (data[5] == 1 || data[5] == 2)
    &&& data[6] == 1
}

/// What `object` reads as the section headers of a 32-bit little-endian ELF file: for each
/// header, its `sh_type`, `sh_offset` and `sh_size`; `None` where it reports an error.
pub uninterp spec fn elf32_section_table(data: Seq<u8>) -> Option<Seq<(u32, u64, u64)>>;

/// The same for a 64-bit little-endian ELF file.
pub uninterp spec fn elf64_section_table(data: Seq<u8>) -> Option<Seq<(u32, u64, u64)>>;

/// What `object` reads as the index of the section-name string table of a 32-bit
/// little-endian ELF file (handling the extended `SHN_XINDEX` form); `None` where it reports an
/// error.
pub uninterp spec fn elf32_string_table_index(data: Seq<u8>) -> Option<u32>;

/// The same for a 64-bit little-endian ELF file.
pub uninterp spec fn elf64_string_table_index(data: Seq<u8>) -> Option<u32>;

/// `FileHeader32::<LittleEndian>::parse` from `object`, then the header's `e_type`. The source
/// reads the 52-byte header in place (its fields are byte arrays, so any alignment will do) and
/// accepts it when its identification is supported; `e_type` is the little-endian `u16` at
/// offset 16.
#[verifier::external_body]
pub(crate) fn elf32_file_type(data: &[u8]) -> (r: Option<u16>)
    ensures
        r is Some <==> elf_header_accepted(data@, 1, 52),
        r matches Some(t) ==> t == u16_le(data@, 16),
{
    FileHeader32::<LittleEndian>::parse(data).ok().map(|h| h.e_type(LittleEndian).0)
}

/// `FileHeader64::<LittleEndian>::parse` from `object`, then the header's `e_type`, as for the
/// 32-bit form but with a 64-byte header.
#[verifier::external_body]
pub(crate) fn elf64_file_type(data: &[u8]) -> (r: Option<u16>)
    ensures
        r is Some <==> elf_header_accepted(data@, 2, 64),
        r matches Some(t) ==> t == u16_le(data@, 16),
{
    FileHeader64::<LittleEndian>::parse(data).ok().map(|h| h.e_type(LittleEndian).0)
}

/// `FileHeader::section_headers` from `object` on a 32-bit little-endian ELF file, each header
/// given as its `sh_type`, `sh_offset` and `sh_size`. The result is named, not described: it
/// depends on the header fields and the section-header table in the ways the crate's source
/// spells out.
#[verifier::external_body]
pub(crate) fn elf32_section_headers(data: &[u8]) -> (r: Option<Vec<(u32, u64, u64)>>)
    ensures
        r is Some <==> elf32_section_table(data@) is Some,
        r matches Some(v) ==> v@ == elf32_section_table(data@).unwrap(),
{
    let header = FileHeader32::<LittleEndian>::parse(data).ok()?;
    let sections = header.section_headers(LittleEndian, data).ok()?;
    Some(sections.iter().map(|s| (s.sh_type(LittleEndian).0, u64::from(s.sh_offset(LittleEndian)),
        u64::from(s.sh_size(LittleEndian)))).collect())
}

/// `FileHeader::section_headers` from `object` on a 64-bit little-endian ELF file.
#[verifier::external_body]
pub(crate) fn elf64_section_headers(data: &[u8]) -> (r: Option<Vec<(u32, u64, u64)>>)
    ensures
        r is Some <==> elf64_section_table(data@) is Some,
        r matches Some(v) ==> v@ == elf64_section_table(data@).unwrap(),
{
    let header = FileHeader64::<LittleEndian>::parse(data).ok()?;
    let sections = header.section_headers(LittleEndian, data).ok()?;
    Some(sections.iter().map(|s| (s.sh_type(LittleEndian).0, s.sh_offset(LittleEndian),
        s.sh_size(LittleEndian))).collect())
}

/// `FileHeader::shstrndx` from `object` on a 32-bit little-endian ELF file.
#[verifier::external_body]
pub(crate) fn elf32_shstrndx(data: &[u8]) -> (r: Option<u32>)
    ensures
        r == elf32_string_table_index(data@),
{
    let header = FileHeader32::<LittleEndian>::parse(data).ok()?;
    header.shstrndx(LittleEndian, data).ok()
}

/// `FileHeader::shstrndx` from `object` on a 64-bit little-endian ELF file.
#[verifier::external_body]
pub(crate) fn elf64_shstrndx(data: &[u8]) -> (r: Option<u32>)
    ensures
        r == elf64_string_table_index(data@),
{
    let header = FileHeader64::<LittleEndian>::parse(data).ok()?;
    header.shstrndx(LittleEndian, data).ok()
}

/// The Mach-O 64-bit magic number, read big-endian.
pub open spec fn mh_magic_64() -> u32 {
    0xfeed_facf
}

/// The byte-swapped Mach-O 64-bit magic number, read big-endian.
pub open spec fn mh_cigam_64() -> u32 {
    0xcffa_edfe
}

/// At least the 32 bytes of a Mach-O 64-bit header, beginning with its magic in either byte order.
pub open spec fn macho64_header_accepted(data: Seq<u8>) -> bool {
    data.len() >= 32 && (u32_be(data, 0) == mh_magic_64() || u32_be(data, 0) == mh_cigam_64())
}

/// The text of the error that `object` reports for a Mach-O 64-bit header it refuses: the
/// header does not fit in the data, or its magic is not a Mach-O one.
pub open spec fn macho64_header_error(data: Seq<u8>) -> Seq<char> {
    if data.len() < 32 {
        "Invalid Mach-O header size or alignment"@
    } else {
        "Unsupported Mach-O header"@
    }
}

/// `MachHeader64::<Endianness>::parse` from `object` at offset 0, giving the header's `magic`
/// (read big-endian) and its `cputype` and `filetype` read little-endian, or the text of the
/// error it reports. The source reads the 32-byte header in place (byte-array fields, any
/// alignment), failing with "Invalid Mach-O header size or alignment" when the data is shorter,
/// and accepts it when its magic is `MH_MAGIC_64` or `MH_CIGAM_64`, failing otherwise with
/// "Unsupported Mach-O header"; the error's `Display` writes that text.
#[verifier::external_body]
pub(crate) fn macho64_header(data: &[u8]) -> (r: Result<(u32, u32, u32), String>)
    ensures
        r is Ok <==> macho64_header_accepted(data@),
        r matches Ok(fields) ==> fields == (u32_be(data@, 0), u32_le(data@, 4), u32_le(data@, 12)),
        r matches Err(text) ==> text@ == macho64_header_error(data@),
{
    let h = MachHeader64::<Endianness>::parse(data, 0).map_err(|e| e.to_string())?;
    Ok((h.magic(), h.cputype(Endianness::Little).0, h.filetype(Endianness::Little).0))
}

/// `memchr::memmem::find`: the index of the first occurrence of `needle` in `haystack`, or
/// `None` where there is none.
#[verifier::external_body]
pub(crate) fn memmem_find(haystack: &[u8], needle: &[u8]) -> (r: Option<usize>)
    ensures
        r matches Some(i) ==> occurs_at(haystack@, needle@, i as int) && forall|j: int|
            0 <= j < i ==> !occurs_at(haystack@, needle@, j),
        r is None ==> forall|j: int| !occurs_at(haystack@, needle@, j),
{
    memchr::memmem::find(haystack, needle)
}

/// `zerocopy::IntoBytes::as_bytes` on a `u32`: its bytes in the machine's own order, which is
/// one of the two orders.
#[verifier::external_body]
pub(crate) fn u32_memory_bytes(v: u32) -> (r: Vec<u8>)
    ensures
        r@ == le_bytes(v) || r@ == be_bytes(v),
{
    v.as_bytes().to_vec()
}

} // verus!
