//! How a relocation is applied: its kind, the size of the field it writes, the range of
//! values it accepts, and the instruction sequences that carry a value in their immediates.
use vstd::prelude::*;
use crate::error::LinkError;
use crate::scry32::{chain_written, window_size};

verus! {

/// What a relocation computes.
#[derive(Debug, Clone, Copy, PartialEq, Eq, Structural)]
pub enum RelocationKind {
    /// The absolute address of the symbol plus the addend, `S + A`.
    Absolute,
    /// Nothing is computed or written.
    Nothing,
}

/// A range of bits `[start, end)` of a value.
#[derive(Debug, Clone, Copy, PartialEq, Eq, Structural)]
pub struct BitRange {
    pub start: u32,
    pub end: u32,
}

/// Instruction sequences that carry a value spread over their immediates.
#[derive(Debug, Clone, Copy, PartialEq, Eq, Structural)]
pub enum Scry32Instruction {
    /// A `const` instruction followed by three `grow` instructions: four 16-bit words, each
    /// carrying one byte of a 32-bit value in its high byte, most significant byte first.
    ConstGrowChain,
}

/// An instruction sequence, by architecture.
#[derive(Debug, Clone, Copy, PartialEq, Eq, Structural)]
pub enum RelocationInstruction {
    Scry32(Scry32Instruction),
}

/// Bits of a value that are written into an instruction sequence.
#[derive(Debug, Clone, Copy, PartialEq, Eq, Structural)]
pub struct BitMask {
    pub instruction: RelocationInstruction,
    pub range: BitRange,
}

/// How a relocation's field is laid out.
#[derive(Debug, Clone, Copy, PartialEq, Eq, Structural)]
pub enum RelocationSize {
    /// A plain little-endian field of this many bytes.
    ByteSize(usize),
    /// Bits of the value scattered over an instruction sequence.
    BitMasking(BitMask),
}

/// The values a relocation accepts: `min <= value < max`, the value read as signed.
#[derive(Debug, Clone, Copy, PartialEq, Eq, Structural)]
pub struct AllowedRange {
    pub min: i64,
    pub max: i64,
}

/// Everything needed to apply one relocation type.
#[derive(Debug, Clone, Copy, PartialEq, Eq, Structural)]
pub struct RelocationKindInfo {
    pub kind: RelocationKind,
    pub size: RelocationSize,
    pub mask: Option<BitMask>,
    pub range: AllowedRange,
    pub alignment: usize,
    pub bias: u64,
    pub thunkable: bool,
}

/// What a relaxation asks of the relocation that follows it.
#[derive(Debug, Clone, Copy, PartialEq, Eq, Structural)]
pub enum RelocationModifier {
    Normal,
    SkipNextRelocation,
}

/// Dynamic relocations that a linker may emit for an output.
#[derive(Debug, Clone, Copy, PartialEq, Eq, Structural)]
pub enum DynamicRelocationKind {
    Copy,
    Irelative,
    DtpMod,
    DtpOff,
    TlsDesc,
    TpOff,
    Relative,
    DynamicSymbol,
    JumpSlot,
}

impl DynamicRelocationKind {
    /// The dynamic relocation that a Scry32 relocation type stands for: there is none, since
    /// Scry executables are always static.
    pub fn from_scry32_r_type(r_type: u32) -> (r: Option<DynamicRelocationKind>)
        ensures
            r is None,
    {
        None
    }
}

impl BitRange {
    pub fn new(start: u32, end: u32) -> (r: BitRange)
        ensures
            r.start == start,
            r.end == end,
    {
        BitRange { start, end }
    }
}

impl BitMask {
    pub fn new(instruction: RelocationInstruction, start: u32, end: u32) -> (r: BitMask)
        ensures
            r.instruction == instruction,
            r.range == (BitRange { start, end }),
    {
        BitMask { instruction, range: BitRange { start, end } }
    }
}

impl AllowedRange {
    pub fn new(min: i64, max: i64) -> (r: AllowedRange)
        ensures
            r.min == min,
            r.max == max,
    {
        AllowedRange { min, max }
    }

    /// The widest range there is.
    pub fn no_check() -> (r: AllowedRange)
        ensures
            r.min == i64::MIN,
            r.max == i64::MAX,
    {
        AllowedRange { min: i64::MIN, max: i64::MAX }
    }

    pub open spec fn accepts(self, value: i64) -> bool {
        self.min <= value && value < self.max
    }
}

/// The bits `[start, end)` of `v`, shifted down to bit 0.
pub open spec fn extract_bits(v: u64, start: u32, end: u32) -> u64 {
    if end - start >= 64 {
        v >> start
    } else {
        (v >> start) & (((1u64 << (end - start) as u64) - 1) as u64)
    }
}

impl BitRange {
    pub open spec fn valid(self) -> bool {
        self.start < 64 && self.start <= self.end && self.end <= 64
    }

    /// The bits of `value` in this range.
    pub fn extract(self, value: u64) -> (r: u64)
        requires
            self.valid(),
        ensures
            r == extract_bits(value, self.start, self.end),
    {
        let width = self.end - self.start;
        let shifted = value >> self.start;
        if width >= 64 {
            shifted
        } else {
            assert(1u64 << (width as u64) >= 1u64) by (bit_vector)
                requires
                    width < 64,
            ;
            shifted & ((1u64 << width) - 1)
        }
    }
}

/// The number of bytes an instruction sequence occupies.
pub open spec fn instruction_len(instruction: RelocationInstruction) -> nat {
    match instruction {
        RelocationInstruction::Scry32(i) => window_size(i),
    }
}

/// `dest` with `v` written into the instruction sequence at its start.
pub open spec fn instruction_written(instruction: RelocationInstruction, dest: Seq<u8>, v: u64) -> Seq<u8> {
    match instruction {
        RelocationInstruction::Scry32(_) => chain_written(dest, v),
    }
}

impl RelocationInstruction {
    /// The number of bytes that the instruction sequence occupies.
    pub fn write_windows_size(self) -> (n: usize)
        ensures
            n == instruction_len(self),
    {
        match self {
            RelocationInstruction::Scry32(i) => i.write_windows_size(),
        }
    }

    /// Writes `extracted_value` into the immediates of the instruction sequence at the start of
    /// `dest`.
    pub fn write_to_value(self, extracted_value: u64, negative: bool, dest: &mut [u8])
        requires
            old(dest)@.len() >= instruction_len(self),
        ensures
            final(dest)@ == instruction_written(self, old(dest)@, extracted_value),
    {
        match self {
            RelocationInstruction::Scry32(i) => i.write_to_value(extracted_value, negative, dest),
        }
    }
}

/// `dest` with its first `n` bytes replaced by the `n` low bytes of `v`, least significant first.
pub open spec fn le_written(dest: Seq<u8>, v: u64, n: nat) -> Seq<u8> {
    Seq::new(dest.len(), |i: int| if i < n { (v >> (8 * i) as u64) as u8 } else { dest[i] })
}

/// The number of bytes of the field that a relocation writes.
pub open spec fn field_len(size: RelocationSize) -> nat {
    match size {
        RelocationSize::ByteSize(n) => n as nat,
        RelocationSize::BitMasking(m) => instruction_len(m.instruction),
    }
}

/// `dest` with `value` stored in the field that a relocation of this size writes at its start.
pub open spec fn field_written(size: RelocationSize, dest: Seq<u8>, value: u64) -> Seq<u8> {
    match size {
        RelocationSize::ByteSize(n) => le_written(dest, value, n as nat),
        RelocationSize::BitMasking(m) => instruction_written(
            m.instruction,
            dest,
            extract_bits(value, m.range.start, m.range.end),
        ),
    }
}

impl RelocationKindInfo {
    /// What `write_to_buffer` needs of the description: a plain field of at most eight bytes or
    /// a valid bit range, a non-zero alignment, and no extra mask.
    pub open spec fn writable(self) -> bool {
        &&& self.alignment > 0
        &&& self.mask is None
        &&& match self.size {
            RelocationSize::ByteSize(n) => n <= 8,
            RelocationSize::BitMasking(m) => m.range.valid(),
        }
    }

    /// Whether a value may be written: it lies in the range, read as signed, and is aligned.
    pub open spec fn admits(self, value: u64) -> bool {
        self.range.accepts(value as i64) && value % (self.alignment as u64) == 0
    }

    /// Writes `value` into the field at the start of `output`, after checking that the
    /// relocation admits it.
    pub fn write_to_buffer(&self, value: u64, output: &mut [u8]) -> (r: Result<(), LinkError>)
        requires
            self.writable(),
            old(output)@.len() >= field_len(self.size),
        ensures
            r is Ok <==> self.admits(value),
            r is Ok ==> final(output)@ == field_written(self.size, old(output)@, value),
            r is Err ==> final(output)@ == old(output)@,
            !self.range.accepts(value as i64) ==> (r matches Err(e)
                && e.message@ == "Relocation value out of range"@),
            self.range.accepts(value as i64) && value % (self.alignment as u64) != 0
                ==> (r matches Err(e) && e.message@ == "Relocation value not aligned"@),
    {
        let signed = value as i64;
        if signed < self.range.min || signed >= self.range.max {
            return Err(LinkError::msg("Relocation value out of range"));
        }
        if value % (self.alignment as u64) != 0 {
            return Err(LinkError::msg("Relocation value not aligned"));
        }
        match self.size {
            RelocationSize::ByteSize(n) => {
                let ghost start = output@;
                let mut i: usize = 0;
                while i < n
                    invariant
                        n <= 8,
                        n <= start.len(),
                        0 <= i <= n,
                        output@.len() == start.len(),
                        forall|j: int| 0 <= j < i ==> output@[j] == (value >> (8 * j) as u64) as u8,
                        forall|j: int| i <= j < start.len() ==> output@[j] == start[j],
                    decreases n - i,
                {
                    output[i] = (value >> (8 * i as u64)) as u8;
                    i = i + 1;
                }
                assert(output@ =~= le_written(start, value, n as nat));
            },
            RelocationSize::BitMasking(mask) => {
                let extracted = mask.range.extract(value);
                mask.instruction.write_to_value(extracted, signed < 0, output);
            },
        }
        Ok(())
    }
}

} // verus!
