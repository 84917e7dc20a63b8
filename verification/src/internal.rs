use vstd::prelude::*;

use crate::cxx::CxxOptional;
use crate::OptimizationFlag;

verus! {

/// The behaviour that dynarmic's callback table falls back to for a slot that the user left empty.
#[derive(Clone, Copy, Debug, PartialEq, Eq, Structural)]
pub enum Fallback {
    /// Fetch the instruction word through the 32-bit memory read callback.
    ReadCodeThroughRead32,
    /// Return `true`.
    ReturnTrue,
    /// Return `false`.
    ReturnFalse,
    /// Do nothing.
    DoNothing,
    /// Charge one tick per instruction.
    OneTick,
    /// Panic: an exception was raised and nothing handles it.
    PanicOnException,
    /// Panic: dynarmic has no implementation for an instruction and nothing handles it.
    PanicOnUnhandledInstruction,
    /// Panic: a supervisor call was made and nothing handles it.
    PanicOnSupervisorCall,
}

/// What one slot of a callback table holds: a function that the caller gave, or the
/// function that implements one of the fallbacks.
#[derive(Clone, Copy, Debug, PartialEq, Eq)]
pub enum Entry<F> {
    /// A function that the caller gave.
    Given(F),
    /// The function that implements this fallback.
    Fallback(Fallback),
}

/// A filled slot keeps its entry; an empty slot gets the slot's fallback where it has one
/// and stays empty otherwise.
pub open spec fn fill_spec<F>(slot: Option<Entry<F>>, fallback: Option<Fallback>) -> Option<Entry<F>> {
    match slot {
        Some(e) => Some(e),
        None => match fallback {
            Some(f) => Some(Entry::Fallback(f)),
            None => None,
        },
    }
}

/// Decides what a slot holds from what it was given and from the slot's fallback.
pub fn fill<F>(slot: Option<Entry<F>>, fallback: Option<Fallback>) -> (r: Option<Entry<F>>)
    ensures
        r == fill_spec(slot, fallback),
{
    match slot {
        Some(e) => Some(e),
        None => match fallback {
            Some(f) => Some(Entry::Fallback(f)),
            None => None,
        },
    }
}

/// The plain settings of dynarmic's A32 `UserConfig`. The callback table, the global
/// exclusive monitor, the page table and the coprocessors are attached when the JIT is built.
#[derive(Clone, Copy, Debug)]
pub struct A32Config {
    pub processor_id: usize,
    /// Select the architecture version to use.
    /// There are minor behavioural differences between versions.
    pub arch_version: crate::a32::ArchVersion,
    /// This selects other optimizations than can't otherwise be disabled by setting other
    /// configuration options. This includes IR optimizations, block linking optimizations
    /// and RSB optimizations. This is intended to be used for debugging.
    pub optimizations: OptimizationFlag,
    /// This enables unsafe optimizations that reduce emulation accuracy in favour of speed.
    /// For safety, in order to enable unsafe optimizations you have to set BOTH this flag
    /// AND the appropriate flag bits above.
    /// The prefered and tested mode for this library is with unsafe optimizations disabled.
    pub unsafe_optimizations: bool,
    /// Determines if the pointer in the page_table shall be offseted locally or globally.
    /// 'false' will access page_table[addr >> bits][addr & mask];
    /// 'true' will access page_table[addr >> bits][addr].
    pub absolute_offset_page_table: bool,
    /// Masks out the first N bits in host pointers from the page table.
    pub page_table_pointer_mask_bits: i32,
    /// The access sizes (ORed together) for which misaligned page table accesses are detected.
    pub detect_misaligned_access_via_page_table: u8,
    /// Determines if the above option only triggers when the misalignment straddles a
    /// page boundary.
    pub only_detect_misalignment_via_page_table_on_page_boundary: bool,
    pub fastmem_pointer: CxxOptional<usize>,
    /// Determines if instructions that pagefault should cause recompilation of that block
    /// with fastmem disabled.
    pub recompile_on_fastmem_failure: bool,
    /// Determines if we should use the above fastmem_pointer for exclusive reads and writes.
    pub fastmem_exclusive_access: bool,
    /// Determines if exclusive access instructions that pagefault should cause
    /// recompilation of that block with fastmem disabled.
    pub recompile_on_exclusive_fastmem_failure: bool,
    /// When set, an ISB instruction calls the instruction synchronization barrier callback;
    /// otherwise ISB is a NOP.
    pub hook_isb: bool,
    /// Hint instructions would cause ExceptionRaised to be called with the appropriate argument.
    pub hook_hint_instructions: bool,
    /// Define behaviour for some unpredictable instructions instead of raising an exception.
    pub define_unpredictable_behaviour: bool,
    /// Tells the translator a wall clock will be used.
    pub wall_clock_cntpct: bool,
    /// Check for exit after every data memory access by the emulated program.
    pub check_halt_on_memory_access: bool,
    /// When false, AddTicks and GetTicksRemaining are never called and no cycle counting is done.
    pub enable_cycle_counting: bool,
    /// Disables modification of CPSR.E by the emulated program, forcing it to 0.
    pub always_little_endian: bool,
    pub code_cache_size: usize,
    /// Internal use only.
    pub very_verbose_debugging_output: bool,
}

impl A32Config {
    /// The settings that a new A32 configuration starts from.
    pub open spec fn is_default(self) -> bool {
        &&& self.processor_id == 0
        &&& self.arch_version == crate::a32::ArchVersion::V8
        &&& self.optimizations@ == 0xFFFF
        &&& !self.unsafe_optimizations
        &&& !self.absolute_offset_page_table
        &&& self.page_table_pointer_mask_bits == 0
        &&& self.detect_misaligned_access_via_page_table == 0
        &&& !self.only_detect_misalignment_via_page_table_on_page_boundary
        &&& self.fastmem_pointer.value == Some(0usize)
        &&& self.recompile_on_fastmem_failure
        &&& !self.fastmem_exclusive_access
        &&& self.recompile_on_exclusive_fastmem_failure
        &&& !self.hook_isb
        &&& !self.hook_hint_instructions
        &&& !self.define_unpredictable_behaviour
        &&& !self.wall_clock_cntpct
        &&& !self.check_halt_on_memory_access
        &&& self.enable_cycle_counting
        &&& !self.always_little_endian
        &&& self.code_cache_size == 128 * 1024 * 1024
        &&& !self.very_verbose_debugging_output
    }

    /// The default A32 settings: ARMv8, every safe optimization, a 128 MiB code cache,
    /// cycle counting on, fastmem pointer engaged at zero with recompilation on faults.
    pub fn new() -> (r: A32Config)
        ensures
            r.is_default(),
    {
        A32Config {
            processor_id: 0,
            arch_version: crate::a32::ArchVersion::V8,
            optimizations: OptimizationFlag::AllSafe(),
            unsafe_optimizations: false,
            absolute_offset_page_table: false,
            page_table_pointer_mask_bits: 0,
            detect_misaligned_access_via_page_table: 0,
            only_detect_misalignment_via_page_table_on_page_boundary: false,
            fastmem_pointer: CxxOptional::from(0usize),
            recompile_on_fastmem_failure: true,
            fastmem_exclusive_access: false,
            recompile_on_exclusive_fastmem_failure: true,
            hook_isb: false,
            hook_hint_instructions: false,
            define_unpredictable_behaviour: false,
            wall_clock_cntpct: false,
            check_halt_on_memory_access: false,
            enable_cycle_counting: true,
            always_little_endian: false,
            code_cache_size: 128 * 1024 * 1024,
            very_verbose_debugging_output: false,
        }
    }
}

/// The plain settings of dynarmic's A64 `UserConfig`. The callback table, the global
/// exclusive monitor, the TPIDR pointers and the page table are attached when the JIT is built.
#[derive(Clone, Copy, Debug)]
pub struct A64Config {
    pub processor_id: usize,
    /// This selects other optimizations than can't otherwise be disabled by setting other
    /// configuration options. This is intended to be used for debugging.
    pub optimizations: OptimizationFlag,
    /// This enables unsafe optimizations that reduce emulation accuracy in favour of speed.
    /// For safety, in order to enable unsafe optimizations you have to set BOTH this flag
    /// AND the appropriate flag bits above.
    pub unsafe_optimizations: bool,
    /// When set, any data cache instruction calls the data cache operation callback and
    /// DC ZVA does nothing by itself; otherwise DC ZVA writes zeros.
    pub hook_data_cache_operations: bool,
    /// When set, an ISB instruction calls the instruction synchronization barrier callback;
    /// otherwise ISB is a NOP.
    pub hook_isb: bool,
    /// When set, any hint instruction calls the exception callback.
    pub hook_hint_instructions: bool,
    /// Counter-timer frequency register. Not interpreted by dynarmic.
    pub cntfrq_el0: u32,
    /// Cache type register: log2 granule and line sizes, and the L1 instruction cache policy.
    pub ctr_el0: u32,
    /// DCZID_EL0<3:0> is log2 of the block size in words;
    /// DCZID_EL0<4> is 0 if the DC ZVA instruction is permitted.
    pub dczid_el0: u32,
    /// How many valid address bits there are in virtual addresses, for the page table.
    /// Valid values are between 12 and 64 inclusive.
    pub page_table_address_space_bits: usize,
    /// Masks out the first N bits in host pointers from the page table.
    pub page_table_pointer_mask_bits: i32,
    /// Mirror the page table's address space for accesses off its end.
    pub silently_mirror_page_table: bool,
    /// Determines if the pointer in the page_table shall be offseted locally or globally.
    pub absolute_offset_page_table: bool,
    /// The access sizes (ORed together) for which misaligned page table accesses are detected.
    pub detect_misaligned_access_via_page_table: u8,
    /// Determines if the above option only triggers when the misalignment straddles a
    /// page boundary.
    pub only_detect_misalignment_via_page_table_on_page_boundary: bool,
    /// Start of a 2^fastmem_address_space_bits bytes host arena laid out like emulated memory.
    pub fastmem_pointer: CxxOptional<usize>,
    /// Determines if instructions that pagefault should cause recompilation of that block
    /// with fastmem disabled.
    pub recompile_on_fastmem_failure: bool,
    /// How many valid address bits there are in virtual addresses, for the fastmem arena.
    /// Valid values are between 12 and 64 inclusive.
    pub fastmem_address_space_bits: usize,
    /// Mirror the fastmem arena's address space for accesses off its end.
    pub silently_mirror_fastmem: bool,
    /// Determines if we should use the fastmem pointer for exclusive reads and writes.
    pub fastmem_exclusive_access: bool,
    /// Determines if exclusive access instructions that pagefault should cause
    /// recompilation of that block with fastmem disabled.
    pub recompile_on_exclusive_fastmem_failure: bool,
    /// Define behaviour for some unpredictable instructions instead of raising an exception.
    pub define_unpredictable_behaviour: bool,
    /// Tells the translator a wall clock will be used.
    pub wall_clock_cntpct: bool,
    /// Check for exit after every data memory access by the emulated program.
    pub check_halt_on_memory_access: bool,
    /// When false, AddTicks and GetTicksRemaining are never called and no cycle counting is done.
    pub enable_cycle_counting: bool,
    pub code_cache_size: usize,
    /// Internal use only.
    pub very_verbose_debugging_output: bool,
}

impl A64Config {
    /// The settings that a new A64 configuration starts from.
    pub open spec fn is_default(self) -> bool {
        &&& self.processor_id == 0
        &&& self.optimizations@ == 0xFFFF
        &&& !self.unsafe_optimizations
        &&& !self.hook_data_cache_operations
        &&& !self.hook_isb
        &&& !self.hook_hint_instructions
        &&& self.cntfrq_el0 == 600000000
        &&& self.ctr_el0 == 0x8444c004
        &&& self.dczid_el0 == 4
        &&& self.page_table_address_space_bits == 36
        &&& self.page_table_pointer_mask_bits == 0
        &&& self.silently_mirror_page_table
        &&& !self.absolute_offset_page_table
        &&& self.detect_misaligned_access_via_page_table == 0
        &&& !self.only_detect_misalignment_via_page_table_on_page_boundary
        &&& self.fastmem_pointer.value == Some(0usize)
        &&& self.recompile_on_fastmem_failure
        &&& self.fastmem_address_space_bits == 36
        &&& self.silently_mirror_fastmem
        &&& !self.fastmem_exclusive_access
        &&& self.recompile_on_exclusive_fastmem_failure
        &&& !self.define_unpredictable_behaviour
        &&& !self.wall_clock_cntpct
        &&& !self.check_halt_on_memory_access
        &&& self.enable_cycle_counting
        &&& self.code_cache_size == 128 * 1024 * 1024
        &&& !self.very_verbose_debugging_output
    }

    /// The default A64 settings: every safe optimization, a 600 MHz counter frequency,
    /// 36-bit page table and fastmem address spaces that mirror, a 128 MiB code cache,
    /// cycle counting on, fastmem pointer engaged at zero with recompilation on faults.
    pub fn new() -> (r: A64Config)
        ensures
            r.is_default(),
    {
        A64Config {
            processor_id: 0,
            optimizations: OptimizationFlag::AllSafe(),
            unsafe_optimizations: false,
            hook_data_cache_operations: false,
            hook_isb: false,
            hook_hint_instructions: false,
            cntfrq_el0: 600000000,
            ctr_el0: 0x8444c004,
            dczid_el0: 4,
            page_table_address_space_bits: 36,
            page_table_pointer_mask_bits: 0,
            silently_mirror_page_table: true,
            absolute_offset_page_table: false,
            detect_misaligned_access_via_page_table: 0,
            only_detect_misalignment_via_page_table_on_page_boundary: false,
            fastmem_pointer: CxxOptional::from(0usize),
            recompile_on_fastmem_failure: true,
            fastmem_address_space_bits: 36,
            silently_mirror_fastmem: true,
            fastmem_exclusive_access: false,
            recompile_on_exclusive_fastmem_failure: true,
            define_unpredictable_behaviour: false,
            wall_clock_cntpct: false,
            check_halt_on_memory_access: false,
            enable_cycle_counting: true,
            code_cache_size: 128 * 1024 * 1024,
            very_verbose_debugging_output: false,
        }
    }
}

/// A new A32 configuration carries dynarmic's defaults: processor 0, ARMv8, the safe optimizations only, fastmem pointer engaged at 0 with recompilation on faults, no hooks, cycle counting on, a 128 MiB code cache.
pub proof fn law_a32_defaults_are_dynarmics(c: A32Config)
    requires
        c.is_default(),
    ensures
        c.processor_id == 0,
        c.arch_version == crate::a32::ArchVersion::V8,
        c.optimizations@ == 0xFFFF,
        !c.unsafe_optimizations,
        !c.absolute_offset_page_table,
        c.page_table_pointer_mask_bits == 0,
        c.detect_misaligned_access_via_page_table == 0,
        !c.only_detect_misalignment_via_page_table_on_page_boundary,
        c.fastmem_pointer.value == Some(0usize),
        c.recompile_on_fastmem_failure,
        !c.fastmem_exclusive_access,
        c.recompile_on_exclusive_fastmem_failure,
        !c.hook_isb,
        !c.hook_hint_instructions,
        !c.define_unpredictable_behaviour,
        !c.wall_clock_cntpct,
        !c.check_halt_on_memory_access,
        c.enable_cycle_counting,
        !c.always_little_endian,
        c.code_cache_size == 128 * 1024 * 1024,
        !c.very_verbose_debugging_output,
{
}

/// A new A64 configuration carries dynarmic's defaults: processor 0, the safe optimizations only, CNTFRQ 600 MHz, CTR 0x8444c004, DCZID 4, 36-bit mirrored page table and fastmem spaces, fastmem pointer engaged at 0 with recompilation on faults, no hooks, cycle counting on, a 128 MiB code cache.
pub proof fn law_a64_defaults_are_dynarmics(c: A64Config)
    requires
        c.is_default(),
    ensures
        c.processor_id == 0,
        c.optimizations@ == 0xFFFF,
        !c.unsafe_optimizations,
        !c.hook_data_cache_operations,
        !c.hook_isb,
        !c.hook_hint_instructions,
        c.cntfrq_el0 == 600000000,
        c.ctr_el0 == 0x8444c004,
        c.dczid_el0 == 4,
        c.page_table_address_space_bits == 36,
        c.page_table_pointer_mask_bits == 0,
        c.silently_mirror_page_table,
        !c.absolute_offset_page_table,
        c.detect_misaligned_access_via_page_table == 0,
        !c.only_detect_misalignment_via_page_table_on_page_boundary,
        c.fastmem_pointer.value == Some(0usize),
        c.recompile_on_fastmem_failure,
        c.fastmem_address_space_bits == 36,
        c.silently_mirror_fastmem,
        !c.fastmem_exclusive_access,
        c.recompile_on_exclusive_fastmem_failure,
        !c.define_unpredictable_behaviour,
        !c.wall_clock_cntpct,
        !c.check_halt_on_memory_access,
        c.enable_cycle_counting,
        c.code_cache_size == 128 * 1024 * 1024,
        !c.very_verbose_debugging_output,
{
}

} // verus!
