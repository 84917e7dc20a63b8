use dynarmic::{OptimizationFlag, ALL_BITS};

#[test]
fn flag_values_match_dynarmic() {
    assert_eq!(OptimizationFlag::BlockLinking().bits(), 1);
    assert_eq!(OptimizationFlag::ReturnStackBuffer().bits(), 2);
    assert_eq!(OptimizationFlag::FastDispatch().bits(), 4);
    assert_eq!(OptimizationFlag::GetSetElimination().bits(), 8);
    assert_eq!(OptimizationFlag::ConstProp().bits(), 16);
    assert_eq!(OptimizationFlag::MiscIROpt().bits(), 32);
    assert_eq!(OptimizationFlag::Unsafe_UnfuseFMA().bits(), 65536);
    assert_eq!(OptimizationFlag::Unsafe_ReducedErrorFP().bits(), 131072);
    assert_eq!(OptimizationFlag::Unsafe_InaccurateNaN().bits(), 262144);
    assert_eq!(OptimizationFlag::Unsafe_IgnoreStandardFPCRValue().bits(), 524288);
    assert_eq!(OptimizationFlag::Unsafe_IgnoreGlobalMonitor().bits(), 1048576);
    assert_eq!(OptimizationFlag::AllSafe().bits(), 0x0000FFFF);
    assert_eq!(OptimizationFlag::empty().bits(), 0);
    assert_eq!(OptimizationFlag::all().bits(), ALL_BITS);
    assert_eq!(ALL_BITS, 0x1F_FFFF);
}

#[test]
fn all_safe_holds_the_safe_flags_only() {
    let safe = OptimizationFlag::AllSafe();
    for f in [
        OptimizationFlag::BlockLinking(),
        OptimizationFlag::ReturnStackBuffer(),
        OptimizationFlag::FastDispatch(),
        OptimizationFlag::GetSetElimination(),
        OptimizationFlag::ConstProp(),
        OptimizationFlag::MiscIROpt(),
    ] {
        assert!(safe.contains(f));
    }
    for f in [
        OptimizationFlag::Unsafe_UnfuseFMA(),
        OptimizationFlag::Unsafe_ReducedErrorFP(),
        OptimizationFlag::Unsafe_InaccurateNaN(),
        OptimizationFlag::Unsafe_IgnoreStandardFPCRValue(),
        OptimizationFlag::Unsafe_IgnoreGlobalMonitor(),
    ] {
        assert!(!safe.contains(f));
        assert!(!safe.intersects(f));
    }
}

#[test]
fn from_bits_rejects_unknown_bits() {
    assert_eq!(OptimizationFlag::from_bits(0x10003).map(|f| f.bits()), Some(0x10003));
    assert!(OptimizationFlag::from_bits(0x20_0000).is_none());
    assert!(OptimizationFlag::from_bits(0x8000_0001).is_none());
    assert_eq!(OptimizationFlag::from_bits_truncate(0xFFFF_FFFF).bits(), 0x1F_FFFF);
    assert_eq!(OptimizationFlag::from_bits_truncate(0x0120_0004).bits(), 0x4);
}

#[test]
fn set_operations() {
    let a = OptimizationFlag::BlockLinking().union(OptimizationFlag::ConstProp());
    assert_eq!(a.bits(), 17);
    let b = OptimizationFlag::ConstProp().union(OptimizationFlag::MiscIROpt());
    assert_eq!(a.intersection(b).bits(), 16);
    assert_eq!(a.difference(b).bits(), 1);
    assert_eq!(a.symmetric_difference(b).bits(), 33);
    assert_eq!(a.complement().bits(), 0x1F_FFEE);
    assert_eq!(a.complement().complement().bits(), 17);
    assert!(!a.is_empty());
    assert!(OptimizationFlag::empty().is_empty());
    assert!(OptimizationFlag::all().is_all());
    assert!(!OptimizationFlag::AllSafe().is_all());
}

#[test]
fn insert_remove_toggle_set() {
    let mut f = OptimizationFlag::empty();
    f.insert(OptimizationFlag::FastDispatch());
    assert!(f.contains(OptimizationFlag::FastDispatch()));
    assert_eq!(f.bits(), 4);
    f.toggle(OptimizationFlag::FastDispatch().union(OptimizationFlag::BlockLinking()));
    assert_eq!(f.bits(), 1);
    f.toggle(OptimizationFlag::FastDispatch().union(OptimizationFlag::BlockLinking()));
    assert_eq!(f.bits(), 4);
    f.remove(OptimizationFlag::FastDispatch());
    assert!(f.is_empty());
    f.set(OptimizationFlag::Unsafe_InaccurateNaN(), true);
    assert_eq!(f.bits(), 0x4_0000);
    f.set(OptimizationFlag::Unsafe_InaccurateNaN(), false);
    assert_eq!(f.bits(), 0);
}

#[test]
fn operators() {
    let a = OptimizationFlag::BlockLinking() | OptimizationFlag::ReturnStackBuffer();
    assert_eq!(a.bits(), 3);
    assert_eq!((a & OptimizationFlag::ReturnStackBuffer()).bits(), 2);
    assert_eq!((a ^ OptimizationFlag::FastDispatch()).bits(), 7);
    assert_eq!((a - OptimizationFlag::BlockLinking()).bits(), 2);
    assert_eq!((!a).bits(), 0x1F_FFFC);
    assert_eq!(a, OptimizationFlag::from_bits(3).unwrap());
}

#[test]
fn assign_operators() {
    let mut f = OptimizationFlag::BlockLinking();
    f |= OptimizationFlag::ConstProp();
    assert_eq!(f.bits(), 17);
    f ^= OptimizationFlag::MiscIROpt();
    assert_eq!(f.bits(), 49);
    f -= OptimizationFlag::BlockLinking();
    assert_eq!(f.bits(), 48);
    f &= OptimizationFlag::ConstProp();
    assert_eq!(f.bits(), 16);
}
