//! The architectures the linker targets: identified by ELF machine number or by the name of an
//! output format.
use vstd::prelude::*;
use crate::bytes::{has_prefix, rest_is, starts_with};
use crate::error::LinkError;
use crate::scry32::EM_SCRY;
use crate::text::{lower_hex, lower_hex_string};

verus! {

/// The `e_machine` value for x86-64.
pub const EM_X86_64: u16 = 62;

/// The `e_machine` value for AArch64.
pub const EM_AARCH64: u16 = 183;

/// The `e_machine` value for RISC-V.
pub const EM_RISCV: u16 = 243;

/// The `e_machine` value for LoongArch.
pub const EM_LOONGARCH: u16 = 258;

/// The `e_machine` value for 64-bit PowerPC.
pub const EM_PPC64: u16 = 21;

/// The architectures.
#[derive(Debug, Clone, Copy, PartialEq, Eq, Structural)]
pub enum Architecture {
    X86_64,
    AArch64,
    RiscV64,
    LoongArch64,
    Ppc64,
    Scry32,
    Unsupported,
}

/// The architecture of an ELF machine number; an error names an unknown one in hexadecimal.
pub open spec fn arch_of_machine(machine: u16) -> Result<Architecture, Seq<char>> {
    if machine == EM_X86_64 {
        Ok(Architecture::X86_64)
    } else if machine == EM_AARCH64 {
        Ok(Architecture::AArch64)
    } else if machine == EM_RISCV {
        Ok(Architecture::RiscV64)
    } else if machine == EM_LOONGARCH {
        Ok(Architecture::LoongArch64)
    } else if machine == EM_PPC64 {
        Ok(Architecture::Ppc64)
    } else if machine == EM_SCRY {
        Ok(Architecture::Scry32)
    } else {
        Err("Unsupported architecture: 0x"@ + lower_hex(machine as nat))
    }
}

/// The ELF machine number of an architecture; none for `Unsupported`.
pub open spec fn machine_of(arch: Architecture) -> Option<u16> {
    match arch {
        Architecture::X86_64 => Some(EM_X86_64),
        Architecture::AArch64 => Some(EM_AARCH64),
        Architecture::RiscV64 => Some(EM_RISCV),
        Architecture::LoongArch64 => Some(EM_LOONGARCH),
        Architecture::Ppc64 => Some(EM_PPC64),
        Architecture::Scry32 => Some(EM_SCRY),
        Architecture::Unsupported => None,
    }
}

/// The display name of an architecture.
pub open spec fn arch_name(arch: Architecture) -> Seq<char> {
    match arch {
        Architecture::X86_64 => "x86_64"@,
        Architecture::AArch64 => "aarch64"@,
        Architecture::RiscV64 => "riscv64"@,
        Architecture::LoongArch64 => "loongarch64"@,
        Architecture::Ppc64 => "ppc64"@,
        Architecture::Scry32 => "scry32"@,
        Architecture::Unsupported => "unsupported"@,
    }
}

/// The bytes of `elf64-`.
pub open spec fn elf64_prefix() -> Seq<u8> {
    seq![0x65u8, 0x6cu8, 0x66u8, 0x36u8, 0x34u8, 0x2du8]
}

fn elf64_prefix_bytes() -> (r: [u8; 6])
    ensures
        r@ == elf64_prefix(),
{
    let r = [0x65u8, 0x6cu8, 0x66u8, 0x36u8, 0x34u8, 0x2du8];
    assert(r@ =~= elf64_prefix());
    r
}

/// The bytes of `elf32-`.
pub open spec fn elf32_prefix() -> Seq<u8> {
    seq![0x65u8, 0x6cu8, 0x66u8, 0x33u8, 0x32u8, 0x2du8]
}

fn elf32_prefix_bytes() -> (r: [u8; 6])
    ensures
        r@ == elf32_prefix(),
{
    let r = [0x65u8, 0x6cu8, 0x66u8, 0x33u8, 0x32u8, 0x2du8];
    assert(r@ =~= elf32_prefix());
    r
}

/// The bytes of `x86-64`.
pub open spec fn x86_64_name() -> Seq<u8> {
    seq![0x78u8, 0x38u8, 0x36u8, 0x2du8, 0x36u8, 0x34u8]
}

fn x86_64_name_bytes() -> (r: [u8; 6])
    ensures
        r@ == x86_64_name(),
{
    let r = [0x78u8, 0x38u8, 0x36u8, 0x2du8, 0x36u8, 0x34u8];
    assert(r@ =~= x86_64_name());
    r
}

/// The bytes of `aarch64`.
pub open spec fn aarch64_name() -> Seq<u8> {
    seq![0x61u8, 0x61u8, 0x72u8, 0x63u8, 0x68u8, 0x36u8, 0x34u8]
}

fn aarch64_name_bytes() -> (r: [u8; 7])
    ensures
        r@ == aarch64_name(),
{
    let r = [0x61u8, 0x61u8, 0x72u8, 0x63u8, 0x68u8, 0x36u8, 0x34u8];
    assert(r@ =~= aarch64_name());
    r
}

/// The bytes of `littleaarch64`.
pub open spec fn little_aarch64_name() -> Seq<u8> {
    seq![0x6cu8, 0x69u8, 0x74u8, 0x74u8, 0x6cu8, 0x65u8, 0x61u8, 0x61u8, 0x72u8, 0x63u8, 0x68u8, 0x36u8, 0x34u8]
}

fn little_aarch64_name_bytes() -> (r: [u8; 13])
    ensures
        r@ == little_aarch64_name(),
{
    let r = [0x6cu8, 0x69u8, 0x74u8, 0x74u8, 0x6cu8, 0x65u8, 0x61u8, 0x61u8, 0x72u8, 0x63u8, 0x68u8, 0x36u8, 0x34u8];
    assert(r@ =~= little_aarch64_name());
    r
}

/// The bytes of `littleriscv`.
pub open spec fn little_riscv_name() -> Seq<u8> {
    seq![0x6cu8, 0x69u8, 0x74u8, 0x74u8, 0x6cu8, 0x65u8, 0x72u8, 0x69u8, 0x73u8, 0x63u8, 0x76u8]
}

fn little_riscv_name_bytes() -> (r: [u8; 11])
    ensures
        r@ == little_riscv_name(),
{
    let r = [0x6cu8, 0x69u8, 0x74u8, 0x74u8, 0x6cu8, 0x65u8, 0x72u8, 0x69u8, 0x73u8, 0x63u8, 0x76u8];
    assert(r@ =~= little_riscv_name());
    r
}

/// The bytes of `loongarch`.
pub open spec fn loongarch_name() -> Seq<u8> {
    seq![0x6cu8, 0x6fu8, 0x6fu8, 0x6eu8, 0x67u8, 0x61u8, 0x72u8, 0x63u8, 0x68u8]
}

fn loongarch_name_bytes() -> (r: [u8; 9])
    ensures
        r@ == loongarch_name(),
{
    let r = [0x6cu8, 0x6fu8, 0x6fu8, 0x6eu8, 0x67u8, 0x61u8, 0x72u8, 0x63u8, 0x68u8];
    assert(r@ =~= loongarch_name());
    r
}

/// The bytes of `powerpcle`.
pub open spec fn powerpcle_name() -> Seq<u8> {
    seq![0x70u8, 0x6fu8, 0x77u8, 0x65u8, 0x72u8, 0x70u8, 0x63u8, 0x6cu8, 0x65u8]
}

fn powerpcle_name_bytes() -> (r: [u8; 9])
    ensures
        r@ == powerpcle_name(),
{
    let r = [0x70u8, 0x6fu8, 0x77u8, 0x65u8, 0x72u8, 0x70u8, 0x63u8, 0x6cu8, 0x65u8];
    assert(r@ =~= powerpcle_name());
    r
}

/// The bytes of `scry`.
pub open spec fn scry_name() -> Seq<u8> {
    seq![0x73u8, 0x63u8, 0x72u8, 0x79u8]
}

fn scry_name_bytes() -> (r: [u8; 4])
    ensures
        r@ == scry_name(),
{
    let r = [0x73u8, 0x63u8, 0x72u8, 0x79u8];
    assert(r@ =~= scry_name());
    r
}

/// The architecture that an output format names (`elf64-x86-64`, `elf32-scry`, ...): the format
/// is a class prefix, `elf64-` or `elf32-`, then an exact architecture name; anything else is
/// `Unsupported`.
pub open spec fn output_format_arch(format: Seq<u8>) -> Architecture {
    if starts_with(format, elf64_prefix()) {
        let rest = format.skip(6);
        if rest == x86_64_name() {
            Architecture::X86_64
        } else if rest == aarch64_name() || rest == little_aarch64_name() {
            Architecture::AArch64
        } else if rest == little_riscv_name() {
            Architecture::RiscV64
        } else if rest == loongarch_name() {
            Architecture::LoongArch64
        } else if rest == powerpcle_name() {
            Architecture::Ppc64
        } else {
            Architecture::Unsupported
        }
    } else if starts_with(format, elf32_prefix()) {
        if format.skip(6) == scry_name() {
            Architecture::Scry32
        } else {
            Architecture::Unsupported
        }
    } else {
        Architecture::Unsupported
    }
}

impl Architecture {
    /// The architecture of an ELF machine number.
    pub fn try_from(machine: u16) -> (r: Result<Architecture, LinkError>)
        ensures
            match arch_of_machine(machine) {
                Ok(a) => r matches Ok(b) && b == a,
                Err(m) => r matches Err(e) && e.message@ == m,
            },
    {
        if machine == EM_X86_64 {
            Ok(Architecture::X86_64)
        } else if machine == EM_AARCH64 {
            Ok(Architecture::AArch64)
        } else if machine == EM_RISCV {
            Ok(Architecture::RiscV64)
        } else if machine == EM_LOONGARCH {
            Ok(Architecture::LoongArch64)
        } else if machine == EM_PPC64 {
            Ok(Architecture::Ppc64)
        } else if machine == EM_SCRY {
            Ok(Architecture::Scry32)
        } else {
            let mut message = String::from_str("Unsupported architecture: 0x");
            let digits = lower_hex_string(machine as u64);
            message.append(digits.as_str());
            Err(LinkError::new(message))
        }
    }

    /// The display name of the architecture.
    pub fn as_str(&self) -> (s: &'static str)
        ensures
            s@ == arch_name(*self),
    {
        match self {
            Architecture::X86_64 => "x86_64",
            Architecture::AArch64 => "aarch64",
            Architecture::RiscV64 => "riscv64",
            Architecture::LoongArch64 => "loongarch64",
            Architecture::Ppc64 => "ppc64",
            Architecture::Scry32 => "scry32",
            Architecture::Unsupported => "unsupported",
        }
    }

    /// The display name of the architecture, as an owned string.
    pub fn to_string(&self) -> (s: String)
        ensures
            s@ == arch_name(*self),
    {
        String::from_str(self.as_str())
    }

    /// The architecture that an output format names.
    pub fn parse_output_format(format: &[u8]) -> (r: Architecture)
        ensures
            r == output_format_arch(format@),
    {
        if has_prefix(format, &elf64_prefix_bytes()) {
            if rest_is(format, 6, &x86_64_name_bytes()) {
                Architecture::X86_64
            } else if rest_is(format, 6, &aarch64_name_bytes()) || rest_is(format, 6, &little_aarch64_name_bytes()) {
                Architecture::AArch64
            } else if rest_is(format, 6, &little_riscv_name_bytes()) {
                Architecture::RiscV64
            } else if rest_is(format, 6, &loongarch_name_bytes()) {
                Architecture::LoongArch64
            } else if rest_is(format, 6, &powerpcle_name_bytes()) {
                Architecture::Ppc64
            } else {
                Architecture::Unsupported
            }
        } else if has_prefix(format, &elf32_prefix_bytes()) {
            if rest_is(format, 6, &scry_name_bytes()) {
                Architecture::Scry32
            } else {
                Architecture::Unsupported
            }
        } else {
            Architecture::Unsupported
        }
    }
}

/// The output formats the linker supports, separated by spaces.
pub const SUPPORTED_TARGETS: &'static str = "elf64-x86-64 elf64-littleaarch64 elf64-littleriscv elf64-loongarch elf64-powerpcle elf32-scry";

/// The output formats in `SUPPORTED_TARGETS`, as bytes.
pub open spec fn supported_formats() -> Seq<Seq<u8>> {
    seq![
        elf64_prefix() + x86_64_name(),
        elf64_prefix() + little_aarch64_name(),
        elf64_prefix() + little_riscv_name(),
        elf64_prefix() + loongarch_name(),
        elf64_prefix() + powerpcle_name(),
        elf32_prefix() + scry_name(),
    ]
}

/// Bytes read as ASCII text.
pub open spec fn ascii_text(b: Seq<u8>) -> Seq<char> {
    b.map_values(|x: u8| x as char)
}

/// Byte strings as text, separated by single spaces.
pub open spec fn space_separated(items: Seq<Seq<u8>>) -> Seq<char>
    decreases items.len(),
{
    if items.len() == 0 {
        Seq::empty()
    } else if items.len() == 1 {
        ascii_text(items[0])
    } else {
        space_separated(items.drop_last()) + " "@ + ascii_text(items.last())
    }
}

/// `SUPPORTED_TARGETS` lists exactly the formats of `supported_formats`, in order.
pub proof fn lemma_supported_targets_text()
    ensures
        SUPPORTED_TARGETS@ == space_separated(supported_formats()),
{
    reveal_strlit("elf64-x86-64 elf64-littleaarch64 elf64-littleriscv elf64-loongarch elf64-powerpcle elf32-scry");
    reveal_strlit(" ");
    let f = supported_formats();
    reveal_with_fuel(space_separated, 7);
    assert(f.drop_last().drop_last().drop_last().drop_last().drop_last() =~= seq![f[0]]);
    assert(SUPPORTED_TARGETS@ =~= space_separated(f));
}

/// Every output format that the linker lists as supported names an architecture.
pub proof fn lemma_supported_formats_parse(i: int)
    requires
        0 <= i < supported_formats().len(),
    ensures
        output_format_arch(supported_formats()[i]) != Architecture::Unsupported,
{
    let f = supported_formats()[i];
    let (prefix, name) = if i < 5 {
        (elf64_prefix(), if i == 0 { x86_64_name() } else if i == 1 { little_aarch64_name() } else if i == 2 {
            little_riscv_name() } else if i == 3 { loongarch_name() } else { powerpcle_name() })
    } else {
        (elf32_prefix(), scry_name())
    };
    assert(f == prefix + name);
    assert(f.take(6) =~= prefix);
    assert(f.skip(6) =~= name);
    if i == 5 {
        assert(f.take(6) != elf64_prefix());
    }
}

/// An architecture with a machine number is exactly the one that number identifies.
pub proof fn lemma_machine_round_trip(arch: Architecture)
    requires
        machine_of(arch) is Some,
    ensures
        arch_of_machine(machine_of(arch).unwrap()) == Ok::<Architecture, Seq<char>>(arch),
{
}

/// A machine number that identifies an architecture is that architecture's number.
pub proof fn lemma_machine_of_identified(machine: u16)
    ensures
        arch_of_machine(machine) matches Ok(arch) ==> machine_of(arch) == Some(machine),
{
}

/// `prefix + name` is `format` exactly when `format` starts with the six-byte `prefix` and the
/// rest is `name`.
proof fn lemma_prefix_split(format: Seq<u8>, prefix: Seq<u8>, name: Seq<u8>)
    requires
        prefix.len() == 6,
    ensures
        format == prefix + name <==> (starts_with(format, prefix) && format.skip(6) == name),
{
    if format == prefix + name {
        assert(format.take(6) =~= prefix);
        assert(format.skip(6) =~= name);
    }
    if starts_with(format, prefix) && format.skip(6) == name {
        assert(format =~= prefix + name);
    }
}

/// An output format names an architecture only when it is exactly one of that architecture's
/// format names: `elf64-x86-64`; `elf64-aarch64` or `elf64-littleaarch64`; `elf64-littleriscv`;
/// `elf64-loongarch`; `elf64-powerpcle`; `elf32-scry`. Every other format is `Unsupported`.
pub proof fn lemma_output_format_names(format: Seq<u8>)
    ensures
        output_format_arch(format) == Architecture::X86_64 <==> format == elf64_prefix() + x86_64_name(),
        output_format_arch(format) == Architecture::AArch64 <==> (format == elf64_prefix()
            + aarch64_name() || format == elf64_prefix() + little_aarch64_name()),
        output_format_arch(format) == Architecture::RiscV64 <==> format == elf64_prefix()
            + little_riscv_name(),
        output_format_arch(format) == Architecture::LoongArch64 <==> format == elf64_prefix()
            + loongarch_name(),
        output_format_arch(format) == Architecture::Ppc64 <==> format == elf64_prefix()
            + powerpcle_name(),
        output_format_arch(format) == Architecture::Scry32 <==> format == elf32_prefix() + scry_name(),
        output_format_arch(format) != Architecture::Unsupported <==> (format == elf64_prefix()
            + aarch64_name() || exists|k: int| 0 <= k < supported_formats().len()
            && format == #[trigger] supported_formats()[k]),
{
    lemma_prefix_split(format, elf64_prefix(), x86_64_name());
    lemma_prefix_split(format, elf64_prefix(), aarch64_name());
    lemma_prefix_split(format, elf64_prefix(), little_aarch64_name());
    lemma_prefix_split(format, elf64_prefix(), little_riscv_name());
    lemma_prefix_split(format, elf64_prefix(), loongarch_name());
    lemma_prefix_split(format, elf64_prefix(), powerpcle_name());
    lemma_prefix_split(format, elf32_prefix(), scry_name());
    assert(elf64_prefix()[3] != elf32_prefix()[3]);
    if starts_with(format, elf64_prefix()) {
        assert(format.take(6)[3] == elf64_prefix()[3]);
        assert(!starts_with(format, elf32_prefix()));
    }
    let f = supported_formats();
    if output_format_arch(format) != Architecture::Unsupported && format != elf64_prefix() + aarch64_name() {
        if output_format_arch(format) == Architecture::X86_64 {
            assert(format == f[0]);
        } else if output_format_arch(format) == Architecture::AArch64 {
            assert(format == f[1]);
        } else if output_format_arch(format) == Architecture::RiscV64 {
            assert(format == f[2]);
        } else if output_format_arch(format) == Architecture::LoongArch64 {
            assert(format == f[3]);
        } else if output_format_arch(format) == Architecture::Ppc64 {
            assert(format == f[4]);
        } else {
            assert(format == f[5]);
        }
    }
    if exists|k: int| 0 <= k < f.len() && format == #[trigger] f[k] {
        let k = choose|k: int| 0 <= k < f.len() && format == #[trigger] f[k];
        lemma_supported_formats_parse(k);
    }
}

} // verus!
