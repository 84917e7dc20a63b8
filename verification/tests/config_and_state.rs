use dynarmic::a32::{self, ArchVersion, RegisterFile};
use dynarmic::a64;
use dynarmic::cxx::{code_read_result, CxxOptional};
use dynarmic::internal::{Entry, Fallback};

#[test]
fn a32_config_defaults() {
    let c = a32::Config::new(42u32);
    assert_eq!(*c.cb, 42);
    let s = c.config;
    assert_eq!(s.processor_id, 0);
    assert_eq!(s.arch_version, ArchVersion::V8);
    assert_eq!(s.optimizations.bits(), 0xFFFF);
    assert!(!s.unsafe_optimizations);
    assert_eq!(s.fastmem_pointer.value, Some(0));
    assert!(s.recompile_on_fastmem_failure);
    assert!(!s.fastmem_exclusive_access);
    assert!(s.recompile_on_exclusive_fastmem_failure);
    assert!(s.enable_cycle_counting);
    assert!(!s.always_little_endian);
    assert_eq!(s.code_cache_size, 128 * 1024 * 1024);
}

#[test]
fn a32_config_builders() {
    let mut c = a32::Config::new(());
    c.processor_id(3).fastmem(0x4000, false);
    assert_eq!(c.config.processor_id, 3);
    assert_eq!(c.config.fastmem_pointer.value, Some(0x4000));
    assert!(!c.config.recompile_on_fastmem_failure);
    c.fastmem_exclusive(true, false);
    assert!(c.config.fastmem_exclusive_access);
    assert!(!c.config.recompile_on_exclusive_fastmem_failure);
    assert_eq!(c.config.code_cache_size, 128 * 1024 * 1024);
}

#[test]
fn a64_config_defaults_and_fastmem() {
    let mut c = a64::Config::new(7u8);
    assert_eq!(c.config.cntfrq_el0, 600000000);
    assert_eq!(c.config.ctr_el0, 0x8444c004);
    assert_eq!(c.config.dczid_el0, 4);
    assert_eq!(c.config.page_table_address_space_bits, 36);
    assert_eq!(c.config.fastmem_address_space_bits, 36);
    assert!(c.config.silently_mirror_page_table);
    assert!(c.config.silently_mirror_fastmem);
    c.fastmem(0x1000, 12, false, true).processor_id(1);
    assert_eq!(c.config.fastmem_pointer.value, Some(0x1000));
    assert_eq!(c.config.fastmem_address_space_bits, 12);
    assert_eq!(c.config.page_table_address_space_bits, 36);
    assert!(!c.config.recompile_on_fastmem_failure);
    assert!(c.config.silently_mirror_fastmem);
    assert_eq!(c.config.processor_id, 1);
}

#[test]
fn a32_registers() {
    let mut r = RegisterFile::from_array([0; 16]);
    r.set_reg(0, 0x100);
    r.set_reg(1, 0x1F0);
    r.set_pc(8);
    r.set_sp(0xFFF);
    assert_eq!(r.get_reg(0), 0x100);
    assert_eq!(r.get_reg(1), 0x1F0);
    assert_eq!(r.get_pc(), 8);
    assert_eq!(r.get_reg(15), 8);
    assert_eq!(r.get_sp(), 0xFFF);
    assert_eq!(r.get_reg(13), 0xFFF);
    assert_eq!(r.get_reg(2), 0);
    let arr = r.to_array();
    assert_eq!(arr[13], 0xFFF);
    assert_eq!(arr[15], 8);
}

#[test]
fn a64_w_registers() {
    assert_eq!(a64::low_word(0x1234_5678_9ABC_DEF0), 0x9ABC_DEF0);
    assert_eq!(a64::low_word(0xFFFF_FFFF), 0xFFFF_FFFF);
    assert_eq!(a64::low_word(0x1_0000_0000), 0);
}

#[test]
fn optional_conversions() {
    assert_eq!(CxxOptional::<usize>::from(5usize).value, Some(5));
    assert_eq!(CxxOptional::<usize>::from(9u64).value, Some(9));
    assert_eq!(CxxOptional::<u32>::from(0xE5904000u32).value, Some(0xE5904000));
    assert_eq!(code_read_result(Some(0xEAFFFFFE)).value, Some(0xEAFFFFFE));
    assert_eq!(code_read_result(None).value, None);
}

#[test]
fn a32_callback_table_defaults() {
    let fb = |f| Some(Entry::Fallback(f));
    let none = a32::UserCallbacksVTable::<u8>::new([None; 23]);
    assert_eq!(none.slots[a32::Slot::MemoryReadCode.code() as usize], fb(Fallback::ReadCodeThroughRead32));
    assert_eq!(none.slots[a32::Slot::PreCodeReadHook.code() as usize], fb(Fallback::ReturnTrue));
    assert_eq!(none.slots[a32::Slot::PreCodeTranslationHook.code() as usize], fb(Fallback::DoNothing));
    assert_eq!(none.slots[a32::Slot::GetTicksForCode.code() as usize], fb(Fallback::OneTick));
    assert_eq!(none.slots[a32::Slot::MemoryWriteExclusive32.code() as usize], fb(Fallback::ReturnFalse));
    assert_eq!(none.slots[a32::Slot::IsReadonlyMemory.code() as usize], fb(Fallback::ReturnFalse));
    assert_eq!(none.slots[a32::Slot::CallSvc.code() as usize], fb(Fallback::PanicOnSupervisorCall));
    assert_eq!(none.slots[a32::Slot::MemoryRead8.code() as usize], None);
    assert_eq!(none.slots[a32::Slot::AddTicks.code() as usize], None);
    let mut given = [None; 23];
    given[a32::Slot::IsReadonlyMemory.code() as usize] = Some(Entry::Given(7u8));
    let some = a32::UserCallbacksVTable::new(given);
    assert_eq!(some.slots[a32::Slot::IsReadonlyMemory.code() as usize], Some(Entry::Given(7)));
    assert_eq!(some.slots[a32::Slot::ExceptionRaised.code() as usize], fb(Fallback::PanicOnException));
    let all = a32::UserCallbacksVTable::new([Some(Entry::Given(1u8)); 23]);
    assert!(all.slots.iter().all(|b| *b == Some(Entry::Given(1))));
}

#[test]
fn rebuilding_a_built_table_changes_nothing() {
    let mut given = [None; 23];
    given[a32::Slot::MemoryRead32.code() as usize] = Some(Entry::Given(3u8));
    given[a32::Slot::CallSvc.code() as usize] = Some(Entry::Given(4u8));
    let t = a32::UserCallbacksVTable::new(given);
    let u = a32::UserCallbacksVTable::new(t.slots);
    assert_eq!(u.slots, t.slots);
    let t64 = a64::UserCallbacksVTable::<u8>::new([None; 26]);
    let u64_ = a64::UserCallbacksVTable::new(t64.slots);
    assert_eq!(u64_.slots, t64.slots);
}

#[test]
fn a64_callback_table_defaults() {
    let fb = |f| Some(Entry::Fallback(f));
    let none = a64::UserCallbacksVTable::<u8>::new([None; 26]);
    assert_eq!(none.slots[a64::Slot::MemoryReadCode.code() as usize], fb(Fallback::ReadCodeThroughRead32));
    assert_eq!(none.slots[a64::Slot::MemoryWriteExclusive128.code() as usize], fb(Fallback::ReturnFalse));
    assert_eq!(none.slots[a64::Slot::DataCacheOperationRaised.code() as usize], fb(Fallback::DoNothing));
    assert_eq!(none.slots[a64::Slot::InstructionCacheOperationRaised.code() as usize], fb(Fallback::DoNothing));
    assert_eq!(none.slots[a64::Slot::InterpreterFallback.code() as usize], fb(Fallback::PanicOnUnhandledInstruction));
    assert_eq!(none.slots[a64::Slot::GetCntpct.code() as usize], None);
    assert_eq!(a64::Slot::GetCntpct.code(), 25);
    assert_eq!(a64::Slot::MemoryReadCode.fallback(), Some(Fallback::ReadCodeThroughRead32));
    assert_eq!(a64::Slot::MemoryRead128.fallback(), None);
}

#[test]
fn empty_code_fetch_stays_empty() {
    let r = code_read_result(None);
    assert!(r.value.is_none());
    assert_ne!(r.value, Some(0));
}
