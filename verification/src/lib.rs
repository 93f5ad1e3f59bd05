//! Scry32 support for a linker: the Scry ELF ABI and its relocations, output-format and
//! architecture selection, and identification of input files by their bytes.
pub mod error;
pub mod text;
pub mod reloc;
pub mod scry32;
pub mod bytes;
pub mod formats;
pub mod file_kind;
pub mod arch;
pub mod elf_scry32;
