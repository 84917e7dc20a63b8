use dynarmic::a32::{ArchVersion, CoprocReg, Exception as A32Exception};
use dynarmic::a64::{DataCacheOperation, Exception as A64Exception, InstructionCacheOperation};
use dynarmic::HaltReason;

#[test]
fn halt_reason_bits() {
    let all = [
        (HaltReason::Step, 1u32),
        (HaltReason::CacheInvalidation, 2),
        (HaltReason::MemoryAbort, 4),
        (HaltReason::UserDefined1, 16777216),
        (HaltReason::UserDefined2, 33554432),
        (HaltReason::UserDefined3, 67108864),
        (HaltReason::UserDefined4, 134217728),
        (HaltReason::UserDefined5, 268435456),
        (HaltReason::UserDefined6, 536870912),
        (HaltReason::UserDefined7, 1073741824),
        (HaltReason::UserDefined8, 2147483648),
    ];
    for (h, b) in all {
        assert_eq!(h.bits(), b);
        assert_eq!(HaltReason::from_bits(b), Some(h));
        for (g, c) in all {
            if g != h {
                assert_eq!(b & c, 0);
            }
        }
    }
    assert_eq!(HaltReason::from_bits(0), None);
    assert_eq!(HaltReason::from_bits(3), None);
    assert_eq!(HaltReason::from_bits(8), None);
}

#[test]
fn a32_exception_codes() {
    assert_eq!(A32Exception::UndefinedInstruction.code(), 0);
    assert_eq!(A32Exception::Breakpoint.code(), 8);
    assert_eq!(A32Exception::NoExecuteFault.code(), 12);
    for c in 0..13 {
        assert_eq!(A32Exception::from_code(c).unwrap().code(), c);
    }
    assert_eq!(A32Exception::from_code(13), None);
    assert_eq!(A32Exception::from_code(-1), None);
}

#[test]
fn arch_version_and_coproc_reg_codes() {
    assert_eq!(ArchVersion::V3.code(), 0);
    assert_eq!(ArchVersion::V6T2.code(), 5);
    assert_eq!(ArchVersion::V8.code(), 7);
    assert_eq!(ArchVersion::from_code(7), Some(ArchVersion::V8));
    assert_eq!(ArchVersion::from_code(8), None);
    assert_eq!(CoprocReg::C0.code(), 0);
    assert_eq!(CoprocReg::C15.code(), 15);
    assert_eq!(CoprocReg::from_code(10), Some(CoprocReg::C10));
    assert_eq!(CoprocReg::from_code(16), None);
}

#[test]
fn a64_codes() {
    assert_eq!(A64Exception::UnallocatedEncoding.code(), 0);
    assert_eq!(A64Exception::Breakpoint.code(), 8);
    assert_eq!(A64Exception::from_code(9), Some(A64Exception::NoExecuteFault));
    assert_eq!(A64Exception::from_code(10), None);
    assert_eq!(DataCacheOperation::CleanByVAToPoP.code(), 5);
    assert_eq!(DataCacheOperation::from_code(8), Some(DataCacheOperation::ZeroByVA));
    assert_eq!(DataCacheOperation::from_code(9), None);
    assert_eq!(InstructionCacheOperation::InvalidateAllToPoUInnerSharable.code(), 2);
    assert_eq!(InstructionCacheOperation::from_code(0), Some(InstructionCacheOperation::InvalidateByVAToPoU));
    assert_eq!(InstructionCacheOperation::from_code(3), None);
}
