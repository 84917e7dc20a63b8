//! A verified model of the plain-value logic around the dynarmic ARM JIT:
//! optimization sets, halt reasons, exception and operation codes, register files,
//! JIT configuration builders and the callback tables' defaulting rules.
pub mod a32;
pub mod a64;
pub mod cxx;
pub mod internal;
mod optimization;

pub use optimization::{known_bits, OptimizationFlag, ALL_BITS};

use vstd::prelude::*;

verus! {

/// Why a run of the JIT stopped. Each reason is one bit of dynarmic's halt mask.
#[derive(Clone, Copy, Debug, PartialEq, Eq, Structural)]
pub enum HaltReason {
    Step,
    CacheInvalidation,
    MemoryAbort,
    UserDefined1,
    UserDefined2,
    UserDefined3,
    UserDefined4,
    UserDefined5,
    UserDefined6,
    UserDefined7,
    UserDefined8,
}

impl HaltReason {
    /// The position of the reason's bit in the halt mask.
    pub open spec fn bit_index(self) -> u32 {
        match self {
            HaltReason::Step => 0,
            HaltReason::CacheInvalidation => 1,
            HaltReason::MemoryAbort => 2,
            HaltReason::UserDefined1 => 24,
            HaltReason::UserDefined2 => 25,
            HaltReason::UserDefined3 => 26,
            HaltReason::UserDefined4 => 27,
            HaltReason::UserDefined5 => 28,
            HaltReason::UserDefined6 => 29,
            HaltReason::UserDefined7 => 30,
            HaltReason::UserDefined8 => 31,
        }
    }

    /// The reason's value in dynarmic's halt mask.
    pub open spec fn value(self) -> u32 {
        match self {
            HaltReason::Step => 1,
            HaltReason::CacheInvalidation => 2,
            HaltReason::MemoryAbort => 4,
            HaltReason::UserDefined1 => 0x0100_0000,
            HaltReason::UserDefined2 => 0x0200_0000,
            HaltReason::UserDefined3 => 0x0400_0000,
            HaltReason::UserDefined4 => 0x0800_0000,
            HaltReason::UserDefined5 => 0x1000_0000,
            HaltReason::UserDefined6 => 0x2000_0000,
            HaltReason::UserDefined7 => 0x4000_0000,
            HaltReason::UserDefined8 => 0x8000_0000,
        }
    }

    /// The reason that a mask value stands for, if it stands for one.
    pub open spec fn from_value(bits: u32) -> Option<HaltReason> {
        if bits == 1 {
            Some(HaltReason::Step)
        } else if bits == 2 {
            Some(HaltReason::CacheInvalidation)
        } else if bits == 4 {
            Some(HaltReason::MemoryAbort)
        } else if bits == 0x0100_0000 {
            Some(HaltReason::UserDefined1)
        } else if bits == 0x0200_0000 {
            Some(HaltReason::UserDefined2)
        } else if bits == 0x0400_0000 {
            Some(HaltReason::UserDefined3)
        } else if bits == 0x0800_0000 {
            Some(HaltReason::UserDefined4)
        } else if bits == 0x1000_0000 {
            Some(HaltReason::UserDefined5)
        } else if bits == 0x2000_0000 {
            Some(HaltReason::UserDefined6)
        } else if bits == 0x4000_0000 {
            Some(HaltReason::UserDefined7)
        } else if bits == 0x8000_0000 {
            Some(HaltReason::UserDefined8)
        } else {
            None
        }
    }

    /// The reason's value in dynarmic's halt mask.
    pub fn bits(&self) -> (r: u32)
        ensures
            r == self.value(),
    {
        match self {
            HaltReason::Step => 1,
            HaltReason::CacheInvalidation => 2,
            HaltReason::MemoryAbort => 4,
            HaltReason::UserDefined1 => 0x0100_0000,
            HaltReason::UserDefined2 => 0x0200_0000,
            HaltReason::UserDefined3 => 0x0400_0000,
            HaltReason::UserDefined4 => 0x0800_0000,
            HaltReason::UserDefined5 => 0x1000_0000,
            HaltReason::UserDefined6 => 0x2000_0000,
            HaltReason::UserDefined7 => 0x4000_0000,
            HaltReason::UserDefined8 => 0x8000_0000,
        }
    }

    /// The reason that a halt mask value stands for, or `None` where it is not exactly one reason.
    pub fn from_bits(bits: u32) -> (r: Option<HaltReason>)
        ensures
            r == HaltReason::from_value(bits),
    {
        if bits == 1 {
            Some(HaltReason::Step)
        } else if bits == 2 {
            Some(HaltReason::CacheInvalidation)
        } else if bits == 4 {
            Some(HaltReason::MemoryAbort)
        } else if bits == 0x0100_0000 {
            Some(HaltReason::UserDefined1)
        } else if bits == 0x0200_0000 {
            Some(HaltReason::UserDefined2)
        } else if bits == 0x0400_0000 {
            Some(HaltReason::UserDefined3)
        } else if bits == 0x0800_0000 {
            Some(HaltReason::UserDefined4)
        } else if bits == 0x1000_0000 {
            Some(HaltReason::UserDefined5)
        } else if bits == 0x2000_0000 {
            Some(HaltReason::UserDefined6)
        } else if bits == 0x4000_0000 {
            Some(HaltReason::UserDefined7)
        } else if bits == 0x8000_0000 {
            Some(HaltReason::UserDefined8)
        } else {
            None
        }
    }
}

proof fn lemma_halt_values_are_shifts()
    ensures
        1u32 == 1u32 << 0u32,
        2u32 == 1u32 << 1u32,
        4u32 == 1u32 << 2u32,
        0x0100_0000u32 == 1u32 << 24u32,
        0x0200_0000u32 == 1u32 << 25u32,
        0x0400_0000u32 == 1u32 << 26u32,
        0x0800_0000u32 == 1u32 << 27u32,
        0x1000_0000u32 == 1u32 << 28u32,
        0x2000_0000u32 == 1u32 << 29u32,
        0x4000_0000u32 == 1u32 << 30u32,
        0x8000_0000u32 == 1u32 << 31u32,
{
    assert(1u32 == 1u32 << 0u32 && 2u32 == 1u32 << 1u32 && 4u32 == 1u32 << 2u32
        && 0x0100_0000u32 == 1u32 << 24u32 && 0x0200_0000u32 == 1u32 << 25u32
        && 0x0400_0000u32 == 1u32 << 26u32 && 0x0800_0000u32 == 1u32 << 27u32
        && 0x1000_0000u32 == 1u32 << 28u32 && 0x2000_0000u32 == 1u32 << 29u32
        && 0x4000_0000u32 == 1u32 << 30u32 && 0x8000_0000u32 == 1u32 << 31u32) by (bit_vector);
}

proof fn lemma_distinct_single_bits(i: u32, j: u32)
    requires
        i < 32,
        j < 32,
        i != j,
    ensures
        (1u32 << i) & (1u32 << j) == 0,
        (1u32 << i) != 0,
{
    assert((1u32 << i) & (1u32 << j) == 0 && (1u32 << i) != 0) by (bit_vector)
        requires i < 32, j < 32, i != j;
}

/// Each halt reason is a single bit of the halt mask, and distinct reasons never share a
/// bit: reasons combined into one mask can always be told apart again.
pub proof fn law_halt_reasons_are_distinct_bits(a: HaltReason, b: HaltReason)
    ensures
        a.value() == 1u32 << a.bit_index(),
        a.value() != 0,
        a != b ==> a.value() & b.value() == 0,
{
    lemma_halt_values_are_shifts();
    if a != b {
        assert(a.bit_index() != b.bit_index());
        lemma_distinct_single_bits(a.bit_index(), b.bit_index());
    } else {
        lemma_distinct_single_bits(a.bit_index(), if a.bit_index() == 0 { 1 } else { 0 });
    }
}

/// Reading a halt reason back from its mask value gives the same reason, and only
/// the eleven reason values are read back as a reason.
pub proof fn law_halt_reason_roundtrip(h: HaltReason, bits: u32)
    ensures
        HaltReason::from_value(h.value()) == Some(h),
        HaltReason::from_value(bits) matches Some(r) ==> r.value() == bits,
{
}


/// The halt reasons' mask values are dynarmic's: Step 1, CacheInvalidation 2, MemoryAbort 4,
/// and UserDefined1 to UserDefined8 the bits 24 to 31; no other mask value is read back as a reason.
pub proof fn law_halt_reason_values_are_dynarmics(h: HaltReason, i: int)
    ensures
        ({ let order = seq![HaltReason::Step, HaltReason::CacheInvalidation, HaltReason::MemoryAbort, HaltReason::UserDefined1, HaltReason::UserDefined2, HaltReason::UserDefined3, HaltReason::UserDefined4, HaltReason::UserDefined5, HaltReason::UserDefined6, HaltReason::UserDefined7, HaltReason::UserDefined8]; let values = seq![1u32, 2u32, 4u32, 0x0100_0000u32, 0x0200_0000u32, 0x0400_0000u32, 0x0800_0000u32, 0x1000_0000u32, 0x2000_0000u32, 0x4000_0000u32, 0x8000_0000u32]; 0 <= i < 11 ==> order[i].value() == values[i] }),
        ({ let order = seq![HaltReason::Step, HaltReason::CacheInvalidation, HaltReason::MemoryAbort, HaltReason::UserDefined1, HaltReason::UserDefined2, HaltReason::UserDefined3, HaltReason::UserDefined4, HaltReason::UserDefined5, HaltReason::UserDefined6, HaltReason::UserDefined7, HaltReason::UserDefined8]; let values = seq![1u32, 2u32, 4u32, 0x0100_0000u32, 0x0200_0000u32, 0x0400_0000u32, 0x0800_0000u32, 0x1000_0000u32, 0x2000_0000u32, 0x4000_0000u32, 0x8000_0000u32]; 0 <= i < 11 ==> HaltReason::from_value(values[i]) == Some(order[i]) }),
        ({ let order = seq![HaltReason::Step, HaltReason::CacheInvalidation, HaltReason::MemoryAbort, HaltReason::UserDefined1, HaltReason::UserDefined2, HaltReason::UserDefined3, HaltReason::UserDefined4, HaltReason::UserDefined5, HaltReason::UserDefined6, HaltReason::UserDefined7, HaltReason::UserDefined8]; exists|k: int| 0 <= k < 11 && order[k] == h }),
        ({ let values = seq![1u32, 2u32, 4u32, 0x0100_0000u32, 0x0200_0000u32, 0x0400_0000u32, 0x0800_0000u32, 0x1000_0000u32, 0x2000_0000u32, 0x4000_0000u32, 0x8000_0000u32]; HaltReason::from_value(h.value()) == Some(h) && values.contains(h.value()) }),
{
    let order = seq![HaltReason::Step, HaltReason::CacheInvalidation, HaltReason::MemoryAbort, HaltReason::UserDefined1, HaltReason::UserDefined2, HaltReason::UserDefined3, HaltReason::UserDefined4, HaltReason::UserDefined5, HaltReason::UserDefined6, HaltReason::UserDefined7, HaltReason::UserDefined8];
    let values = seq![1u32, 2u32, 4u32, 0x0100_0000u32, 0x0200_0000u32, 0x0400_0000u32, 0x0800_0000u32, 0x1000_0000u32, 0x2000_0000u32, 0x4000_0000u32, 0x8000_0000u32];
    assert(order[0] == HaltReason::Step && values[0] == 1u32);
    assert(order[1] == HaltReason::CacheInvalidation && values[1] == 2u32);
    assert(order[2] == HaltReason::MemoryAbort && values[2] == 4u32);
    assert(order[3] == HaltReason::UserDefined1 && values[3] == 0x0100_0000u32);
    assert(order[4] == HaltReason::UserDefined2 && values[4] == 0x0200_0000u32);
    assert(order[5] == HaltReason::UserDefined3 && values[5] == 0x0400_0000u32);
    assert(order[6] == HaltReason::UserDefined4 && values[6] == 0x0800_0000u32);
    assert(order[7] == HaltReason::UserDefined5 && values[7] == 0x1000_0000u32);
    assert(order[8] == HaltReason::UserDefined6 && values[8] == 0x2000_0000u32);
    assert(order[9] == HaltReason::UserDefined7 && values[9] == 0x4000_0000u32);
    assert(order[10] == HaltReason::UserDefined8 && values[10] == 0x8000_0000u32);
    match h {
        HaltReason::Step => { assert(order[0] == h); assert(values[0] == h.value()); }
        HaltReason::CacheInvalidation => { assert(order[1] == h); assert(values[1] == h.value()); }
        HaltReason::MemoryAbort => { assert(order[2] == h); assert(values[2] == h.value()); }
        HaltReason::UserDefined1 => { assert(order[3] == h); assert(values[3] == h.value()); }
        HaltReason::UserDefined2 => { assert(order[4] == h); assert(values[4] == h.value()); }
        HaltReason::UserDefined3 => { assert(order[5] == h); assert(values[5] == h.value()); }
        HaltReason::UserDefined4 => { assert(order[6] == h); assert(values[6] == h.value()); }
        HaltReason::UserDefined5 => { assert(order[7] == h); assert(values[7] == h.value()); }
        HaltReason::UserDefined6 => { assert(order[8] == h); assert(values[8] == h.value()); }
        HaltReason::UserDefined7 => { assert(order[9] == h); assert(values[9] == h.value()); }
        HaltReason::UserDefined8 => { assert(order[10] == h); assert(values[10] == h.value()); }
    }
}

} // verus!
