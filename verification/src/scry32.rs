//! The Scry architecture: a 32-bit little-endian ISA whose ELF objects use `EM_SCRY` and RELA
//! relocations.
use vstd::prelude::*;
use crate::reloc::{
    AllowedRange, BitMask, BitRange, RelocationInstruction, RelocationKind,
    RelocationKindInfo, RelocationModifier, RelocationSize, Scry32Instruction,
};
use crate::reloc::{extract_bits, field_written, le_written};
use crate::text::{lower_hex, lower_hex_string};

verus! {

/// The `e_machine` value for Scry.
pub const EM_SCRY: u16 = 264;

/// No relocation.
pub const R_SCRY_NONE: u32 = 0;

/// A 32-bit absolute value, `S + A`, stored as a plain little-endian word. Used for pointers in
/// data.
pub const R_SCRY_32: u32 = 1;

/// A 64-bit absolute value, `S + A`, stored as a plain little-endian word.
pub const R_SCRY_64: u32 = 2;

/// A 32-bit absolute address, `S + A`, materialised in code by a `const` instruction followed by
/// three `grow` instructions. Each of the four 16-bit instruction words carries one byte of the
/// address in its high byte, most significant byte first.
pub const R_SCRY_ABS32: u32 = 3;

/// Relaxations of Scry code.
#[derive(Debug, Clone, Copy, PartialEq, Eq, Structural)]
pub enum RelaxationKind {
    /// Leave the instruction alone. Used when we only want to change the kind of relocation used.
    NoOp,
}

impl RelaxationKind {
    /// Applies the relaxation to the section: a `NoOp` changes nothing.
    pub fn apply(self, section_bytes: &mut [u8], offset_in_section: &mut u64, addend: &mut i64)
        ensures
            final(section_bytes)@ == old(section_bytes)@,
            *final(offset_in_section) == *old(offset_in_section),
            *final(addend) == *old(addend),
    {
        match self {
            RelaxationKind::NoOp => {},
        }
    }

    /// How the relocation after this one is to be treated: normally.
    pub fn next_modifier(&self) -> (m: RelocationModifier)
        ensures
            m == RelocationModifier::Normal,
    {
        RelocationModifier::Normal
    }
}

/// The name of a Scry relocation type, or a description of an unknown one with its number in
/// hexadecimal.
pub open spec fn rel_type_name(r_type: u32) -> Seq<char> {
    if r_type == 0 {
        "R_SCRY_NONE"@
    } else if r_type == 1 {
        "R_SCRY_32"@
    } else if r_type == 2 {
        "R_SCRY_64"@
    } else if r_type == 3 {
        "R_SCRY_ABS32"@
    } else {
        "Unknown scry32 relocation type 0x"@ + lower_hex(r_type as nat)
    }
}

/// Names a relocation type.
pub fn rel_type_to_string(r_type: u32) -> (s: String)
    ensures
        s@ == rel_type_name(r_type),
{
    if r_type == R_SCRY_NONE {
        String::from_str("R_SCRY_NONE")
    } else if r_type == R_SCRY_32 {
        String::from_str("R_SCRY_32")
    } else if r_type == R_SCRY_64 {
        String::from_str("R_SCRY_64")
    } else if r_type == R_SCRY_ABS32 {
        String::from_str("R_SCRY_ABS32")
    } else {
        let mut s = String::from_str("Unknown scry32 relocation type 0x");
        let digits = lower_hex_string(r_type as u64);
        s.append(digits.as_str());
        s
    }
}

/// The range of a 32-bit absolute value: `[-2^31, 2^32)`. The negative lower bound admits a
/// sign-extended negative addend, not a negative address.
pub open spec fn range_32() -> AllowedRange {
    AllowedRange { min: -0x8000_0000i64, max: 0x1_0000_0000i64 }
}

/// What every supported Scry relocation shares: values address data as well as code, and data
/// can be byte-aligned, so no alignment is required; nothing is biased or thunked.
pub open spec fn scry_info(kind: RelocationKind, size: RelocationSize, range: AllowedRange) -> RelocationKindInfo {
    RelocationKindInfo { kind, size, mask: None, range, alignment: 1, bias: 0, thunkable: false }
}

/// How each relocation type is applied; `None` for a type that is not supported. `R_SCRY_64` is
/// unsupported: it only appears in 64-bit Scry objects, which can't be linked into a 32-bit
/// executable.
pub open spec fn relocation_info(r_type: u32) -> Option<RelocationKindInfo> {
    if r_type == 0 {
        Some(scry_info(RelocationKind::Nothing, RelocationSize::ByteSize(0), AllowedRange { min: i64::MIN, max: i64::MAX }))
    } else if r_type == 1 {
        Some(scry_info(RelocationKind::Absolute, RelocationSize::ByteSize(4), range_32()))
    } else if r_type == 3 {
        Some(scry_info(
            RelocationKind::Absolute,
            RelocationSize::BitMasking(BitMask {
                instruction: RelocationInstruction::Scry32(Scry32Instruction::ConstGrowChain),
                range: BitRange { start: 0, end: 32 },
            }),
            range_32(),
        ))
    } else {
        None
    }
}

/// Returns how to apply the supplied relocation type, or `None` if it isn't supported.
pub fn relocation_type_from_raw(r_type: u32) -> (r: Option<RelocationKindInfo>)
    ensures
        r == relocation_info(r_type),
{
    let range_32 = AllowedRange::new(-0x8000_0000, 0x1_0000_0000);
    let (kind, size, range) = if r_type == R_SCRY_NONE {
        (RelocationKind::Nothing, RelocationSize::ByteSize(0), AllowedRange::no_check())
    } else if r_type == R_SCRY_32 {
        (RelocationKind::Absolute, RelocationSize::ByteSize(4), range_32)
    } else if r_type == R_SCRY_ABS32 {
        (
            RelocationKind::Absolute,
            RelocationSize::BitMasking(BitMask::new(
                RelocationInstruction::Scry32(Scry32Instruction::ConstGrowChain),
                0,
                32,
            )),
            range_32,
        )
    } else {
        return None;
    };
    Some(RelocationKindInfo {
        kind,
        size,
        mask: None,
        range,
        alignment: 1,
        bias: 0,
        thunkable: false,
    })
}

/// The four bytes of the low 32 bits of `v`, most significant first.
pub open spec fn chain_bytes(v: u64) -> Seq<u8> {
    seq![(v >> 24u64) as u8, (v >> 16u64) as u8, (v >> 8u64) as u8, v as u8]
}

/// `dest` with the low 32 bits of `v` written into the high bytes of a const-grow chain: byte `i`
/// of `chain_bytes(v)` goes to index `2 * i + 1`; the opcode bytes at even indices stay.
pub open spec fn chain_written(dest: Seq<u8>, v: u64) -> Seq<u8> {
    let b = chain_bytes(v);
    dest.update(1, b[0]).update(3, b[1]).update(5, b[2]).update(7, b[3])
}

/// The 32-bit value that a const-grow chain carries: the high bytes of its four words, most
/// significant first.
pub open spec fn chain_value(bytes: Seq<u8>) -> u64 {
    ((bytes[1] as u64) * 0x100_0000 + (bytes[3] as u64) * 0x1_0000 + (bytes[5] as u64) * 0x100
        + (bytes[7] as u64)) as u64
}

/// The number of bytes that an instruction sequence occupies.
pub open spec fn window_size(instruction: Scry32Instruction) -> nat {
    match instruction {
        Scry32Instruction::ConstGrowChain => 8,
    }
}

impl Scry32Instruction {
    /// Writes the low 32 bits of `extracted_value` into the chain, one byte per instruction word,
    /// most significant byte first. The low byte of each word holds the opcode and is preserved.
    pub fn write_to_value(self, extracted_value: u64, _negative: bool, dest: &mut [u8])
        requires
            old(dest)@.len() >= window_size(self),
        ensures
            final(dest)@ == chain_written(old(dest)@, extracted_value),
    {
        match self {
            Scry32Instruction::ConstGrowChain => {
                let v = extracted_value;
                dest[1] = (v >> 24u64) as u8;
                dest[3] = (v >> 16u64) as u8;
                dest[5] = (v >> 8u64) as u8;
                dest[7] = v as u8;
            },
        }
    }

    /// Reads back the value carried by the chain; it is never negative.
    pub fn read_value(self, bytes: &[u8]) -> (r: (u64, bool))
        requires
            bytes@.len() >= window_size(self),
        ensures
            r == (chain_value(bytes@), false),
    {
        match self {
            Scry32Instruction::ConstGrowChain => {
                let value = (bytes[1] as u64) * 0x100_0000 + (bytes[3] as u64) * 0x1_0000
                    + (bytes[5] as u64) * 0x100 + (bytes[7] as u64);
                (value, false)
            },
        }
    }

    /// The number of bytes that the instruction sequence occupies.
    pub fn write_windows_size(self) -> (n: usize)
        ensures
            n == window_size(self),
    {
        match self {
            Scry32Instruction::ConstGrowChain => 8,
        }
    }
}

/// Reading a const-grow chain after writing `v` into it gives back the low 32 bits of `v`.
pub proof fn lemma_chain_read_after_write(dest: Seq<u8>, v: u64)
    requires
        dest.len() >= 8,
    ensures
        chain_value(chain_written(dest, v)) == v % 0x1_0000_0000,
{
    let w = chain_written(dest, v);
    let b1 = (v >> 24u64) as u8;
    let b3 = (v >> 16u64) as u8;
    let b5 = (v >> 8u64) as u8;
    let b7 = v as u8;
    assert(w[1] == b1 && w[3] == b3 && w[5] == b5 && w[7] == b7);
    assert((b1 as u64) * 0x100_0000 + (b3 as u64) * 0x1_0000 + (b5 as u64) * 0x100 + (b7 as u64)
        == v % 0x1_0000_0000) by (bit_vector)
        requires
            b1 == (v >> 24u64) as u8,
            b3 == (v >> 16u64) as u8,
            b5 == (v >> 8u64) as u8,
            b7 == v as u8,
    ;
}

/// Writing back the value that a const-grow chain carries leaves the chain as it was.
pub proof fn lemma_chain_write_after_read(bytes: Seq<u8>)
    requires
        bytes.len() >= 8,
    ensures
        chain_written(bytes, chain_value(bytes)) == bytes,
{
    let b1 = bytes[1];
    let b3 = bytes[3];
    let b5 = bytes[5];
    let b7 = bytes[7];
    let v = chain_value(bytes);
    assert(v == ((b1 as u64) * 0x100_0000 + (b3 as u64) * 0x1_0000 + (b5 as u64) * 0x100
        + (b7 as u64)) as u64);
    assert((v >> 24u64) as u8 == b1 && (v >> 16u64) as u8 == b3 && (v >> 8u64) as u8 == b5
        && v as u8 == b7) by (bit_vector)
        requires
            v == ((b1 as u64) * 0x100_0000 + (b3 as u64) * 0x1_0000 + (b5 as u64) * 0x100
                + (b7 as u64)) as u64,
    ;
    assert(chain_written(bytes, v) =~= bytes);
}

/// Writing a value into a const-grow chain touches only the high byte of each of its four words:
/// the opcode bytes, and every byte past the chain, stay as they were.
pub proof fn lemma_chain_keeps_other_bytes(dest: Seq<u8>, v: u64, i: int)
    requires
        dest.len() >= 8,
        0 <= i < dest.len(),
        i != 1 && i != 3 && i != 5 && i != 7,
    ensures
        chain_written(dest, v)[i] == dest[i],
        chain_written(dest, v).len() == dest.len(),
{
}

/// `R_SCRY_NONE` writes nothing: applying it leaves every byte as it was.
pub proof fn lemma_r_scry_none_writes_nothing(dest: Seq<u8>, value: u64)
    ensures
        relocation_info(0) is Some,
        field_written(relocation_info(0).unwrap().size, dest, value) == dest,
{
    assert(le_written(dest, value, 0) =~= dest);
}

/// `R_SCRY_32` stores the value as a plain little-endian word: the first four bytes become the
/// low four bytes of the value, least significant first, and nothing else changes.
pub proof fn lemma_r_scry_32_is_little_endian_word(dest: Seq<u8>, value: u64)
    requires
        dest.len() >= 4,
    ensures
        relocation_info(1) is Some,
        field_written(relocation_info(1).unwrap().size, dest, value)
            == seq![value as u8, (value >> 8u64) as u8, (value >> 16u64) as u8, (value >> 24u64) as u8]
                + dest.skip(4),
{
    let w = field_written(relocation_info(1).unwrap().size, dest, value);
    assert(w[0] == (value >> 0u64) as u8);
    assert((value >> 0u64) == value) by (bit_vector);
    assert(w =~= seq![value as u8, (value >> 8u64) as u8, (value >> 16u64) as u8, (value >> 24u64) as u8]
        + dest.skip(4));
}

/// `R_SCRY_ABS32` scatters the low 32 bits of the value over the const-grow chain, one byte per
/// instruction word, most significant first.
pub proof fn lemma_r_scry_abs32_fills_the_chain(dest: Seq<u8>, value: u64)
    requires
        dest.len() >= 8,
    ensures
        relocation_info(3) is Some,
        field_written(relocation_info(3).unwrap().size, dest, value) == chain_written(dest, value),
{
    let x = extract_bits(value, 0, 32);
    assert(x == (value >> 0u32) & (((1u64 << 32u64) - 1) as u64));
    assert((x >> 24u64) as u8 == (value >> 24u64) as u8 && (x >> 16u64) as u8 == (value >> 16u64) as u8
        && (x >> 8u64) as u8 == (value >> 8u64) as u8 && x as u8 == value as u8) by (bit_vector)
        requires
            x == (value >> 0u32) & (((1u64 << 32u64) - 1) as u64),
    ;
    assert(chain_written(dest, x) =~= chain_written(dest, value));
}

/// The 32-bit relocations accept exactly the values that fit in 32 bits, unsigned, and the
/// sign-extended negative 32-bit values.
pub proof fn lemma_range_32_accepts_32_bit_values(value: u64)
    ensures
        range_32().accepts(value as i64)
            <==> (value < 0x1_0000_0000 || value >= 0xffff_ffff_8000_0000),
{
    let s = value as i64;
    assert(-0x8000_0000i64 <= s && s < 0x1_0000_0000i64
        <==> (value < 0x1_0000_0000u64 || value >= 0xffff_ffff_8000_0000u64)) by (bit_vector)
        requires
            s == value as i64,
    ;
}

/// Applying `R_SCRY_ABS32` to a const-grow chain and reading the chain back gives the low 32 bits
/// of the value that was written: for every value the relocation admits, the value itself.
pub proof fn lemma_abs32_apply_then_read(dest: Seq<u8>, value: u64)
    requires
        dest.len() >= 8,
    ensures
        chain_value(field_written(relocation_info(3).unwrap().size, dest, value)) == value
            % 0x1_0000_0000,
        value < 0x1_0000_0000 ==> chain_value(field_written(relocation_info(3).unwrap().size, dest, value)) == value,
{
    lemma_r_scry_abs32_fills_the_chain(dest, value);
    lemma_chain_read_after_write(dest, value);
}

/// Exactly `R_SCRY_NONE`, `R_SCRY_32` and `R_SCRY_ABS32` are supported, and every supported
/// relocation is unbiased, unmasked, needs no alignment beyond a byte and is never thunked; the
/// two that compute `S + A` do so absolutely over the 32-bit range, and `R_SCRY_NONE` computes
/// nothing.
pub proof fn lemma_supported_relocations(r_type: u32)
    ensures
        relocation_info(r_type) is Some <==> (r_type == R_SCRY_NONE || r_type == R_SCRY_32 || r_type
            == R_SCRY_ABS32),
        relocation_info(r_type) matches Some(i) ==> {
            &&& i.bias == 0
            &&& i.mask is None
            &&& i.alignment == 1
            &&& !i.thunkable
        },
        relocation_info(r_type) matches Some(i) ==> (i.kind == RelocationKind::Nothing <==> r_type
            == R_SCRY_NONE),
        relocation_info(r_type) matches Some(i) ==> (r_type != R_SCRY_NONE ==> i.range
            == AllowedRange { min: -0x8000_0000i64, max: 0x1_0000_0000i64 }),
        relocation_info(R_SCRY_32) matches Some(i) && i.size == RelocationSize::ByteSize(4),
        relocation_info(R_SCRY_NONE) matches Some(i) && i.size == RelocationSize::ByteSize(0),
{
}

} // verus!
