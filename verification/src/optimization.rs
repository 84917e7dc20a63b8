use vstd::prelude::*;

verus! {

/// The union of every optimization that dynarmic defines.
pub const ALL_BITS: u32 = 0x1F_FFFF;

/// A set of dynarmic optimizations, stored as the bit mask that dynarmic reads.
#[derive(Clone, Copy, Debug, PartialEq, Eq, Structural, Hash)]
pub struct OptimizationFlag {
    bits: u32,
}

/// Bit masks made only of defined optimizations are exactly those below 2^21.
pub open spec fn known_bits(bits: u32) -> bool {
    bits & !ALL_BITS == 0
}

proof fn lemma_known_ops(a: u32, b: u32)
    requires
        a & !0x1F_FFFFu32 == 0,
        b & !0x1F_FFFFu32 == 0,
    ensures
        (a | b) & !0x1F_FFFFu32 == 0,
        (a & b) & !0x1F_FFFFu32 == 0,
        (a ^ b) & !0x1F_FFFFu32 == 0,
        (a & !b) & !0x1F_FFFFu32 == 0,
        (!a & 0x1F_FFFFu32) & !0x1F_FFFFu32 == 0,
{
    assert((a | b) & !0x1F_FFFFu32 == 0) by (bit_vector)
        requires a & !0x1F_FFFFu32 == 0, b & !0x1F_FFFFu32 == 0;
    assert((a & b) & !0x1F_FFFFu32 == 0) by (bit_vector)
        requires a & !0x1F_FFFFu32 == 0;
    assert((a ^ b) & !0x1F_FFFFu32 == 0) by (bit_vector)
        requires a & !0x1F_FFFFu32 == 0, b & !0x1F_FFFFu32 == 0;
    assert((a & !b) & !0x1F_FFFFu32 == 0) by (bit_vector)
        requires a & !0x1F_FFFFu32 == 0;
    assert((!a & 0x1F_FFFFu32) & !0x1F_FFFFu32 == 0) by (bit_vector);
}

proof fn lemma_small_is_known(b: u32)
    requires
        b <= 0x1F_FFFF,
    ensures
        known_bits(b),
{
    assert(b & !0x1F_FFFFu32 == 0) by (bit_vector)
        requires b <= 0x1F_FFFFu32;
}

impl View for OptimizationFlag {
    type V = u32;

    closed spec fn view(&self) -> u32 {
        self.bits
    }
}

impl OptimizationFlag {
    #[verifier::type_invariant]
    spec fn inv(self) -> bool {
        known_bits(self.bits)
    }

    fn from_known(bits: u32) -> (r: Self)
        requires
            known_bits(bits),
        ensures
            r@ == bits,
    {
        OptimizationFlag { bits }
    }

    /// Block linking: emitted basic blocks jump directly to other basic blocks
    /// when the destination PC is predictable at JIT-time. A safe optimization.
    #[allow(non_snake_case)]
    pub fn BlockLinking() -> (r: Self)
        ensures
            r@ == 1,
    {
        proof { lemma_small_is_known(1); }
        Self::from_known(1)
    }

    /// Return stack buffer emulation, so that returns are predicted at runtime.
    /// A safe optimization.
    #[allow(non_snake_case)]
    pub fn ReturnStackBuffer() -> (r: Self)
        ensures
            r@ == 2,
    {
        proof { lemma_small_is_known(2); }
        Self::from_known(2)
    }

    /// Two-tiered dispatch through a small MRU cache. A safe optimization.
    #[allow(non_snake_case)]
    pub fn FastDispatch() -> (r: Self)
        ensures
            r@ == 4,
    {
        proof { lemma_small_is_known(4); }
        Self::from_known(4)
    }

    /// IR optimization that removes unnecessary emulated CPU state context lookups.
    /// A safe optimization.
    #[allow(non_snake_case)]
    pub fn GetSetElimination() -> (r: Self)
        ensures
            r@ == 8,
    {
        proof { lemma_small_is_known(8); }
        Self::from_known(8)
    }

    /// IR constant propagation. A safe optimization.
    #[allow(non_snake_case)]
    pub fn ConstProp() -> (r: Self)
        ensures
            r@ == 16,
    {
        proof { lemma_small_is_known(16); }
        Self::from_known(16)
    }

    /// Miscellaneous safe IR optimizations.
    #[allow(non_snake_case)]
    pub fn MiscIROpt() -> (r: Self)
        ensures
            r@ == 32,
    {
        proof { lemma_small_is_known(32); }
        Self::from_known(32)
    }

    /// UNSAFE: unfuses fused multiply-add instructions.
    #[allow(non_snake_case)]
    pub fn Unsafe_UnfuseFMA() -> (r: Self)
        ensures
            r@ == 0x1_0000,
    {
        proof { lemma_small_is_known(0x1_0000); }
        Self::from_known(0x1_0000)
    }

    /// UNSAFE: FRECPE and FRSQRTE may have less error than the specification allows.
    #[allow(non_snake_case)]
    pub fn Unsafe_ReducedErrorFP() -> (r: Self)
        ensures
            r@ == 0x2_0000,
    {
        proof { lemma_small_is_known(0x2_0000); }
        Self::from_known(0x2_0000)
    }

    /// UNSAFE: floating-point instructions may not produce correct NaNs.
    #[allow(non_snake_case)]
    pub fn Unsafe_InaccurateNaN() -> (r: Self)
        ensures
            r@ == 0x4_0000,
    {
        proof { lemma_small_is_known(0x4_0000); }
        Self::from_known(0x4_0000)
    }

    /// UNSAFE: ASIMD floating-point instructions run with incorrect rounding modes.
    #[allow(non_snake_case)]
    pub fn Unsafe_IgnoreStandardFPCRValue() -> (r: Self)
        ensures
            r@ == 0x8_0000,
    {
        proof { lemma_small_is_known(0x8_0000); }
        Self::from_known(0x8_0000)
    }

    /// UNSAFE: the global exclusive monitor is ignored.
    #[allow(non_snake_case)]
    pub fn Unsafe_IgnoreGlobalMonitor() -> (r: Self)
        ensures
            r@ == 0x10_0000,
    {
        proof { lemma_small_is_known(0x10_0000); }
        Self::from_known(0x10_0000)
    }

    /// Every safe optimization (the low sixteen bits).
    #[allow(non_snake_case)]
    pub fn AllSafe() -> (r: Self)
        ensures
            r@ == 0xFFFF,
    {
        proof { lemma_small_is_known(0xFFFF); }
        Self::from_known(0xFFFF)
    }

    /// The empty set (dynarmic's `None` optimization value).
    pub fn empty() -> (r: Self)
        ensures
            r@ == 0,
    {
        proof { lemma_small_is_known(0); }
        Self::from_known(0)
    }

    /// The set of every defined optimization.
    pub fn all() -> (r: Self)
        ensures
            r@ == ALL_BITS,
    {
        proof { lemma_small_is_known(0x1F_FFFF); }
        Self::from_known(ALL_BITS)
    }

    /// The raw mask.
    pub fn bits(&self) -> (r: u32)
        ensures
            r == self@,
            known_bits(r),
    {
        proof {
            use_type_invariant(self);
        }
        self.bits
    }

    /// The set with exactly these bits, or `None` where a bit names no optimization.
    pub fn from_bits(bits: u32) -> (r: Option<Self>)
        ensures
            r is Some <==> known_bits(bits),
            r matches Some(f) ==> f@ == bits,
    {
        if bits & !ALL_BITS == 0 {
            Some(Self::from_known(bits))
        } else {
            None
        }
    }

    /// The set of the defined optimizations among these bits; other bits are dropped.
    pub fn from_bits_truncate(bits: u32) -> (r: Self)
        ensures
            r@ == bits & ALL_BITS,
    {
        let b = bits & ALL_BITS;
        assert(b & !0x1F_FFFFu32 == 0) by (bit_vector)
            requires b == bits & 0x1F_FFFFu32;
        Self::from_known(b)
    }

    /// Whether no optimization is in the set.
    pub fn is_empty(&self) -> (r: bool)
        ensures
            r == (self@ == 0),
    {
        self.bits == 0
    }

    /// Whether every defined optimization is in the set.
    pub fn is_all(&self) -> (r: bool)
        ensures
            r == (self@ == ALL_BITS),
    {
        self.bits == ALL_BITS
    }

    /// Whether the two sets share an optimization.
    pub fn intersects(&self, other: Self) -> (r: bool)
        ensures
            r == (self@ & other@ != 0),
    {
        self.bits & other.bits != 0
    }

    /// Whether every optimization of `other` is in the set.
    pub fn contains(&self, other: Self) -> (r: bool)
        ensures
            r == (self@ & other@ == other@),
    {
        self.bits & other.bits == other.bits
    }

    /// Adds the optimizations of `other`.
    pub fn insert(&mut self, other: Self)
        ensures
            final(self)@ == old(self)@ | other@,
    {
        proof {
            use_type_invariant(&*self);
            use_type_invariant(&other);
            lemma_known_ops(self.bits, other.bits);
        }
        *self = Self::from_known(self.bits | other.bits);
    }

    /// Removes the optimizations of `other`.
    pub fn remove(&mut self, other: Self)
        ensures
            final(self)@ == old(self)@ & !other@,
    {
        proof {
            use_type_invariant(&*self);
            use_type_invariant(&other);
            lemma_known_ops(self.bits, other.bits);
        }
        *self = Self::from_known(self.bits & !other.bits);
    }

    /// Flips the optimizations of `other`.
    pub fn toggle(&mut self, other: Self)
        ensures
            final(self)@ == old(self)@ ^ other@,
    {
        proof {
            use_type_invariant(&*self);
            use_type_invariant(&other);
            lemma_known_ops(self.bits, other.bits);
        }
        *self = Self::from_known(self.bits ^ other.bits);
    }

    /// Inserts `other` when `value` holds, removes it otherwise.
    pub fn set(&mut self, other: Self, value: bool)
        ensures
            final(self)@ == if value { old(self)@ | other@ } else { old(self)@ & !other@ },
    {
        if value {
            self.insert(other);
        } else {
            self.remove(other);
        }
    }

    /// The optimizations in both sets.
    pub fn intersection(self, other: Self) -> (r: Self)
        ensures
            r@ == self@ & other@,
    {
        proof {
            use_type_invariant(&self);
            use_type_invariant(&other);
            lemma_known_ops(self.bits, other.bits);
        }
        Self::from_known(self.bits & other.bits)
    }

    /// The optimizations in either set.
    pub fn union(self, other: Self) -> (r: Self)
        ensures
            r@ == self@ | other@,
    {
        proof {
            use_type_invariant(&self);
            use_type_invariant(&other);
            lemma_known_ops(self.bits, other.bits);
        }
        Self::from_known(self.bits | other.bits)
    }

    /// The optimizations of `self` that are not in `other`.
    pub fn difference(self, other: Self) -> (r: Self)
        ensures
            r@ == self@ & !other@,
    {
        proof {
            use_type_invariant(&self);
            use_type_invariant(&other);
            lemma_known_ops(self.bits, other.bits);
        }
        Self::from_known(self.bits & !other.bits)
    }

    /// The optimizations in exactly one of the two sets.
    pub fn symmetric_difference(self, other: Self) -> (r: Self)
        ensures
            r@ == self@ ^ other@,
    {
        proof {
            use_type_invariant(&self);
            use_type_invariant(&other);
            lemma_known_ops(self.bits, other.bits);
        }
        Self::from_known(self.bits ^ other.bits)
    }

    /// The defined optimizations that are not in the set.
    pub fn complement(self) -> (r: Self)
        ensures
            r@ == !self@ & ALL_BITS,
    {
        proof {
            use_type_invariant(&self);
            lemma_known_ops(self.bits, self.bits);
        }
        Self::from_known(!self.bits & ALL_BITS)
    }
}

impl core::ops::BitOr for OptimizationFlag {
    type Output = Self;

    /// The optimizations in either set.
    fn bitor(self, rhs: Self) -> (r: Self)
        ensures
            r@ == self@ | rhs@,
    {
        self.union(rhs)
    }
}

impl vstd::std_specs::ops::BitOrSpecImpl for OptimizationFlag {
    open spec fn obeys_bitor_spec() -> bool {
        true
    }

    open spec fn bitor_req(self, rhs: Self) -> bool {
        true
    }

    closed spec fn bitor_spec(self, rhs: Self) -> Self {
        OptimizationFlag { bits: self.bits | rhs.bits }
    }
}

impl core::ops::BitAnd for OptimizationFlag {
    type Output = Self;

    /// The optimizations in both sets.
    fn bitand(self, rhs: Self) -> (r: Self)
        ensures
            r@ == self@ & rhs@,
    {
        self.intersection(rhs)
    }
}

impl vstd::std_specs::ops::BitAndSpecImpl for OptimizationFlag {
    open spec fn obeys_bitand_spec() -> bool {
        true
    }

    open spec fn bitand_req(self, rhs: Self) -> bool {
        true
    }

    closed spec fn bitand_spec(self, rhs: Self) -> Self {
        OptimizationFlag { bits: self.bits & rhs.bits }
    }
}

impl core::ops::BitXor for OptimizationFlag {
    type Output = Self;

    /// The optimizations in exactly one of the two sets.
    fn bitxor(self, rhs: Self) -> (r: Self)
        ensures
            r@ == self@ ^ rhs@,
    {
        self.symmetric_difference(rhs)
    }
}

impl vstd::std_specs::ops::BitXorSpecImpl for OptimizationFlag {
    open spec fn obeys_bitxor_spec() -> bool {
        true
    }

    open spec fn bitxor_req(self, rhs: Self) -> bool {
        true
    }

    closed spec fn bitxor_spec(self, rhs: Self) -> Self {
        OptimizationFlag { bits: self.bits ^ rhs.bits }
    }
}

impl core::ops::Sub for OptimizationFlag {
    type Output = Self;

    /// The optimizations of the left set that are not in the right one.
    fn sub(self, rhs: Self) -> (r: Self)
        ensures
            r@ == self@ & !rhs@,
    {
        self.difference(rhs)
    }
}

impl vstd::std_specs::ops::SubSpecImpl for OptimizationFlag {
    open spec fn obeys_sub_spec() -> bool {
        true
    }

    open spec fn sub_req(self, rhs: Self) -> bool {
        true
    }

    closed spec fn sub_spec(self, rhs: Self) -> Self {
        OptimizationFlag { bits: self.bits & !rhs.bits }
    }
}

impl core::ops::Not for OptimizationFlag {
    type Output = Self;

    /// The defined optimizations that are not in the set.
    fn not(self) -> (r: Self)
        ensures
            r@ == !self@ & ALL_BITS,
    {
        self.complement()
    }
}

impl vstd::std_specs::ops::NotSpecImpl for OptimizationFlag {
    open spec fn obeys_not_spec() -> bool {
        true
    }

    open spec fn not_req(self) -> bool {
        true
    }

    closed spec fn not_spec(self) -> Self {
        OptimizationFlag { bits: !self.bits & ALL_BITS }
    }
}

impl core::ops::BitOrAssign for OptimizationFlag {
    /// Adds the optimizations of `rhs`.
    fn bitor_assign(&mut self, rhs: Self)
        ensures
            final(self)@ == old(self)@ | rhs@,
    {
        self.insert(rhs);
    }
}

impl core::ops::BitAndAssign for OptimizationFlag {
    /// Keeps only the optimizations that are also in `rhs`.
    fn bitand_assign(&mut self, rhs: Self)
        ensures
            final(self)@ == old(self)@ & rhs@,
    {
        *self = self.intersection(rhs);
    }
}

impl core::ops::BitXorAssign for OptimizationFlag {
    /// Flips the optimizations of `rhs`.
    fn bitxor_assign(&mut self, rhs: Self)
        ensures
            final(self)@ == old(self)@ ^ rhs@,
    {
        self.toggle(rhs);
    }
}

impl core::ops::SubAssign for OptimizationFlag {
    /// Removes the optimizations of `rhs`.
    fn sub_assign(&mut self, rhs: Self)
        ensures
            final(self)@ == old(self)@ & !rhs@,
    {
        self.remove(rhs);
    }
}

/// A set of optimizations lies within `AllSafe` exactly when it holds none of the five
/// unsafe optimizations: `AllSafe` holds every safe optimization and no unsafe one.
pub proof fn law_all_safe_is_exactly_the_safe_optimizations(f: OptimizationFlag)
    requires
        known_bits(f@),
    ensures
        (0xFFFFu32 & f@ == f@) <==> (f@ & 0x1F_0000u32 == 0),
        0xFFFFu32 & 0x1F_0000u32 == 0,
        0xFFFFu32 | 0x1F_0000u32 == ALL_BITS,
{
    let b = f@;
    assert((0xFFFFu32 & b == b) <==> (b & 0x1F_0000u32 == 0)) by (bit_vector)
        requires b & !0x1F_FFFFu32 == 0;
    assert(0xFFFFu32 & 0x1F_0000u32 == 0 && 0xFFFFu32 | 0x1F_0000u32 == 0x1F_FFFFu32) by (bit_vector);
}

/// After inserting `g` into `f` the set contains both `f` and `g`; after removing `g` it
/// shares nothing with `g` and still lies within `f`; toggling `g` twice restores `f`.
pub proof fn law_insert_remove_toggle(f: OptimizationFlag, g: OptimizationFlag)
    ensures
        (f@ | g@) & g@ == g@,
        (f@ | g@) & f@ == f@,
        (f@ & !g@) & g@ == 0,
        f@ & (f@ & !g@) == (f@ & !g@),
        (f@ ^ g@) ^ g@ == f@,
{
    let a = f@;
    let b = g@;
    assert((a | b) & b == b && (a | b) & a == a && (a & !b) & b == 0 && a & (a & !b) == (a & !b)
        && (a ^ b) ^ b == a) by (bit_vector);
}

/// The complement of a set shares nothing with it, together they make every optimization,
/// and complementing twice gives the set back.
pub proof fn law_complement(f: OptimizationFlag)
    requires
        known_bits(f@),
    ensures
        (!f@ & ALL_BITS) & f@ == 0,
        (!f@ & ALL_BITS) | f@ == ALL_BITS,
        !(!f@ & ALL_BITS) & ALL_BITS == f@,
{
    let a = f@;
    assert((!a & 0x1F_FFFFu32) & a == 0 && (!a & 0x1F_FFFFu32) | a == 0x1F_FFFFu32
        && !(!a & 0x1F_FFFFu32) & 0x1F_FFFFu32 == a) by (bit_vector)
        requires a & !0x1F_FFFFu32 == 0;
}

/// Truncating keeps exactly the defined optimizations, so truncating a mask of defined
/// optimizations changes nothing, and a set's own mask always reads back as that set.
pub proof fn law_truncate_and_from_bits(bits: u32, f: OptimizationFlag)
    requires
        known_bits(f@),
    ensures
        known_bits(bits & ALL_BITS),
        f@ & ALL_BITS == f@,
        known_bits(bits) <==> bits & ALL_BITS == bits,
{
    let a = f@;
    assert(a & 0x1F_FFFFu32 == a) by (bit_vector)
        requires a & !0x1F_FFFFu32 == 0;
    assert((bits & 0x1F_FFFFu32) & !0x1F_FFFFu32 == 0
        && ((bits & !0x1F_FFFFu32 == 0) <==> bits & 0x1F_FFFFu32 == bits)) by (bit_vector);
}

} // verus!
