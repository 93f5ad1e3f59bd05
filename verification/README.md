# scry_link

Scry32 support for an ELF linker, verified with Verus.

- `src/scry32.rs`: the Scry ELF ABI (machine and relocation numbers), how each relocation type
  is applied, and the const-grow instruction chain that carries 32-bit addresses in code, with
  laws about writing and reading it back.
- `src/reloc.rs`: the description of a relocation (kind, field size, accepted range) and
  writing a value into a buffer.
- `src/elf_scry32.rs`: the Scry32 target: load address, relocation lookup, flag merging, and the
  features Scry does not have (PLT, TLS, relaxations).
- `src/arch.rs`: architectures by ELF machine number and by output-format name.
- `src/file_kind.rs`: identifying input files (ELF, Mach-O, archives, Wasm, text, compiler IR)
  by their bytes.
- `src/formats.rs`: the calls into the `object`, `memchr` and `zerocopy` crates, each behind a
  trusted item whose contract states what the crate's source does.
- `src/bytes.rs`, `src/text.rs`, `src/error.rs`: byte predicates, rendering of numbers in
  messages, and the error type.
