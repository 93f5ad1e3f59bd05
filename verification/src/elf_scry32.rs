//! Linking 32-bit Scry ELF objects. Scry programs are static executables loaded at address 0.
//! There is no dynamic linking, no PLT and no TLS.
use vstd::prelude::*;
use crate::error::LinkError;
use crate::reloc::{RelocationKindInfo, RelocationModifier};
use crate::scry32::{
    rel_type_name, rel_type_to_string, relocation_info, relocation_type_from_raw, RelaxationKind,
    EM_SCRY,
};

verus! {

/// Whether an output can be placed at any address.
#[derive(Debug, Clone, Copy, PartialEq, Eq, Structural)]
pub enum RelocationModel {
    /// Loaded at the address it was linked for.
    Fixed,
    /// Position independent.
    Relocatable,
}

/// The kind of file the linker writes.
#[derive(Debug, Clone, Copy, PartialEq, Eq, Structural)]
pub enum OutputKind {
    StaticExecutable(RelocationModel),
    DynamicExecutable(RelocationModel),
    SharedObject,
}

impl OutputKind {
    /// Whether the output can be placed at any address.
    pub open spec fn spec_is_relocatable(self) -> bool {
        match self {
            OutputKind::StaticExecutable(m) => m == RelocationModel::Relocatable,
            OutputKind::DynamicExecutable(m) => m == RelocationModel::Relocatable,
            OutputKind::SharedObject => true,
        }
    }

    /// Whether the output can be placed at any address.
    pub fn is_relocatable(self) -> (r: bool)
        ensures
            r == self.spec_is_relocatable(),
    {
        match self {
            OutputKind::StaticExecutable(m) => m == RelocationModel::Relocatable,
            OutputKind::DynamicExecutable(m) => m == RelocationModel::Relocatable,
            OutputKind::SharedObject => true,
        }
    }
}

/// How the values of a GNU property note are combined across inputs.
#[derive(Debug, Clone, Copy, PartialEq, Eq, Structural)]
pub enum PropertyClass {
    /// The output has a bit only where every input has it.
    And,
    /// The output has a bit where any input has it.
    Or,
    /// Combined by `And` where every input has the property, else by `Or`.
    AndOr,
}

/// The bitwise union of all the given ELF header flags; 0 for none.
pub open spec fn merged_flags(flags: Seq<u32>) -> u32
    decreases flags.len(),
{
    if flags.len() == 0 {
        0
    } else {
        merged_flags(flags.drop_last()) | flags.last()
    }
}

/// The Scry32 target.
pub struct ElfScry32;

impl ElfScry32 {
    /// scryer starts executing at address 0, so that's where static executables go.
    pub const DEFAULT_LOAD_ADDRESS: u64 = 0;

    /// The ELF machine number of the target's objects.
    pub fn arch_identifier() -> (m: u16)
        ensures
            m == EM_SCRY,
    {
        EM_SCRY
    }

    /// Where the output's memory starts: position-independent outputs start at 0, others at the
    /// default load address, which for Scry is 0 as well.
    pub fn start_memory_address(output_kind: OutputKind) -> (a: u64)
        ensures
            a == 0,
            a == (if output_kind.spec_is_relocatable() { 0 } else { Self::DEFAULT_LOAD_ADDRESS }),
    {
        if output_kind.is_relocatable() {
            0
        } else {
            Self::DEFAULT_LOAD_ADDRESS
        }
    }

    /// How to apply a relocation type; an unsupported one is an error that names it.
    pub fn relocation_from_raw(r_type: u32) -> (r: Result<RelocationKindInfo, LinkError>)
        ensures
            match relocation_info(r_type) {
                Some(info) => r matches Ok(i) && i == info,
                None => r matches Err(e) && e.message@ == "Unsupported relocation type "@
                    + rel_type_name(r_type),
            },
    {
        match relocation_type_from_raw(r_type) {
            Some(info) => Ok(info),
            None => {
                let mut message = String::from_str("Unsupported relocation type ");
                let name = Self::rel_type_to_string(r_type);
                message.append(name.as_str());
                Err(LinkError::new(message))
            },
        }
    }

    /// Names a relocation type.
    pub fn rel_type_to_string(r_type: u32) -> (s: String)
        ensures
            s@ == rel_type_name(r_type),
    {
        rel_type_to_string(r_type)
    }

    /// Writing a PLT entry always fails: Scry has no PLT. The entry is left alone.
    pub fn write_plt_entry(plt_entry: &mut [u8], got_address: u64, plt_address: u64) -> (r: Result<(), LinkError>)
        ensures
            r matches Err(e) && e.message@ == "Scry has no PLT"@,
            final(plt_entry)@ == old(plt_entry)@,
    {
        Err(LinkError::msg("Scry has no PLT"))
    }

    /// Scry is single-threaded and has no TLS, so there is no DTV.
    pub fn get_dtv_offset() -> (o: u64)
        ensures
            o == 0,
    {
        0
    }

    /// How a GNU property is merged: Scry defines no properties, so none has a class.
    pub fn get_property_class(property_type: u32) -> (c: Option<PropertyClass>)
        ensures
            c is None,
    {
        None
    }

    /// Merges the ELF header flags of the inputs by taking their bitwise union.
    pub fn merge_eflags(eflags: &[u32]) -> (r: Result<u32, LinkError>)
        ensures
            r matches Ok(f) && f == merged_flags(eflags@),
    {
        let mut merged: u32 = 0;
        let mut i: usize = 0;
        while i < eflags.len()
            invariant
                0 <= i <= eflags.len(),
                merged == merged_flags(eflags@.take(i as int)),
            decreases eflags.len() - i,
        {
            assert(eflags@.take(i + 1).drop_last() =~= eflags@.take(i as int));
            merged = merged | eflags[i];
            i = i + 1;
        }
        assert(eflags@.take(eflags.len() as int) =~= eflags@);
        Ok(merged)
    }

    /// The relocation types that compute the high part of a value: Scry has none.
    pub fn high_part_relocations() -> (r: &'static [u32])
        ensures
            r@.len() == 0,
    {
        &[]
    }

    /// The relaxation to apply to a relocation: Scry has no relaxations.
    pub fn new_relaxation(relocation_kind: u32, section_bytes: &[u8], offset_in_section: u64) -> (r: Option<Relaxation>)
        ensures
            r is None,
    {
        None
    }
}

/// Every input's flags are among the merged flags: merging never drops a bit.
pub proof fn lemma_merged_flags_cover_each(flags: Seq<u32>, i: int)
    requires
        0 <= i < flags.len(),
    ensures
        merged_flags(flags) | flags[i] == merged_flags(flags),
    decreases flags.len(),
{
    let rest = merged_flags(flags.drop_last());
    let last = flags.last();
    if i == flags.len() - 1 {
        assert((rest | last) | last == rest | last) by (bit_vector);
    } else {
        lemma_merged_flags_cover_each(flags.drop_last(), i);
        let x = flags[i];
        assert(flags.drop_last()[i] == x);
        assert(rest | x == rest ==> (rest | last) | x == rest | last) by (bit_vector);
    }
}

/// Every merged bit comes from some input: with no input carrying a bit, the merge lacks it too.
pub proof fn lemma_merged_flags_from_inputs(flags: Seq<u32>, bit: u32)
    requires
        forall|i: int| 0 <= i < flags.len() ==> #[trigger] flags[i] & bit == 0,
    ensures
        merged_flags(flags) & bit == 0,
    decreases flags.len(),
{
    if flags.len() > 0 {
        let rest_flags = flags.drop_last();
        assert forall|i: int| 0 <= i < rest_flags.len() implies #[trigger] rest_flags[i] & bit == 0 by {
            assert(rest_flags[i] == flags[i]);
        }
        lemma_merged_flags_from_inputs(rest_flags, bit);
        let rest = merged_flags(rest_flags);
        let last = flags.last();
        assert(flags[flags.len() - 1] & bit == 0);
        assert(rest & bit == 0 && last & bit == 0 ==> (rest | last) & bit == 0) by (bit_vector);
    } else {
        assert(0u32 & bit == 0) by (bit_vector);
    }
}

/// A relaxation of a Scry relocation. Scry has no relaxations, so `new_relaxation` always returns
/// `None` and this type is never constructed.
pub struct Relaxation {
    pub kind: RelaxationKind,
    pub rel_info: RelocationKindInfo,
    pub mandatory: bool,
}

impl Relaxation {
    /// Applies the relaxation's kind to the section.
    pub fn apply(&self, section_bytes: &mut [u8], offset_in_section: &mut u64, addend: &mut i64)
        ensures
            final(section_bytes)@ == old(section_bytes)@,
            *final(offset_in_section) == *old(offset_in_section),
            *final(addend) == *old(addend),
    {
        self.kind.apply(section_bytes, offset_in_section, addend);
    }

    /// How the relocation is applied once relaxed.
    pub fn rel_info(&self) -> (r: RelocationKindInfo)
        ensures
            r == self.rel_info,
    {
        self.rel_info
    }

    /// The relaxation's kind, for diagnostics.
    pub fn debug_kind(&self) -> (k: &RelaxationKind)
        ensures
            *k == self.kind,
    {
        &self.kind
    }

    /// How the relocation after this one is to be treated.
    pub fn next_modifier(&self) -> (m: RelocationModifier)
        ensures
            m == RelocationModifier::Normal,
    {
        self.kind.next_modifier()
    }

    /// Whether the relaxation must be applied.
    pub fn is_mandatory(&self) -> (b: bool)
        ensures
            b == self.mandatory,
    {
        self.mandatory
    }
}

} // verus!
