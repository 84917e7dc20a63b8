use vstd::prelude::*;

use crate::cxx::CxxOptional;
use crate::internal::{fill, fill_spec, A32Config, Entry, Fallback};

verus! {

/// Why the emulated CPU raised an exception.
#[derive(Clone, Copy, Debug, PartialEq, Eq, Structural)]
pub enum Exception {
    /// An UndefinedFault occured due to executing instruction with an unallocated encoding
    UndefinedInstruction,
    /// An unpredictable instruction is to be executed. Implementation-defined behaviour should now happen. This behaviour is up to the user of this library to define.
    UnpredictableInstruction,
    /// A decode error occurred when decoding this instruction. This should never happen.
    DecodeError,
    /// A SEV instruction was executed. The event register of all PEs should be set. (Hint instruction.)
    SendEvent,
    /// A SEVL instruction was executed. The event register of the current PE should be set. (Hint instruction.)
    SendEventLocal,
    /// A WFI instruction was executed. You may now enter a low-power state. (Hint instruction.)
    WaitForInterrupt,
    /// A WFE instruction was executed. You may now enter a low-power state if the event register is clear. (Hint instruction.)
    WaitForEvent,
    /// A YIELD instruction was executed. (Hint instruction.)
    Yield,
    /// A BKPT instruction was executed.
    Breakpoint,
    /// A PLD instruction was executed. (Hint instruction.)
    PreloadData,
    /// A PLDW instruction was executed. (Hint instruction.)
    PreloadDataWithIntentToWrite,
    /// A PLI instruction was executed. (Hint instruction.)
    PreloadInstruction,
    /// Attempted to execute a code block at an address for which MemoryReadCode returned std::nullopt. (Intended to be used to emulate memory protection faults.)
    NoExecuteFault,
}

impl Exception {
    /// The code that dynarmic uses for this value.
    pub open spec fn value(self) -> i32 {
        match self {
            Exception::UndefinedInstruction => 0,
            Exception::UnpredictableInstruction => 1,
            Exception::DecodeError => 2,
            Exception::SendEvent => 3,
            Exception::SendEventLocal => 4,
            Exception::WaitForInterrupt => 5,
            Exception::WaitForEvent => 6,
            Exception::Yield => 7,
            Exception::Breakpoint => 8,
            Exception::PreloadData => 9,
            Exception::PreloadDataWithIntentToWrite => 10,
            Exception::PreloadInstruction => 11,
            Exception::NoExecuteFault => 12,
        }
    }

    /// The value that a dynarmic code stands for, if any.
    pub open spec fn from_value(code: i32) -> Option<Exception> {
        if code == 0 {
            Some(Exception::UndefinedInstruction)
        } else if code == 1 {
            Some(Exception::UnpredictableInstruction)
        } else if code == 2 {
            Some(Exception::DecodeError)
        } else if code == 3 {
            Some(Exception::SendEvent)
        } else if code == 4 {
            Some(Exception::SendEventLocal)
        } else if code == 5 {
            Some(Exception::WaitForInterrupt)
        } else if code == 6 {
            Some(Exception::WaitForEvent)
        } else if code == 7 {
            Some(Exception::Yield)
        } else if code == 8 {
            Some(Exception::Breakpoint)
        } else if code == 9 {
            Some(Exception::PreloadData)
        } else if code == 10 {
            Some(Exception::PreloadDataWithIntentToWrite)
        } else if code == 11 {
            Some(Exception::PreloadInstruction)
        } else if code == 12 {
            Some(Exception::NoExecuteFault)
        } else {
            None
        }
    }

    /// The code that dynarmic uses for this value.
    pub fn code(&self) -> (r: i32)
        ensures
            r == self.value(),
    {
        match self {
            Exception::UndefinedInstruction => 0,
            Exception::UnpredictableInstruction => 1,
            Exception::DecodeError => 2,
            Exception::SendEvent => 3,
            Exception::SendEventLocal => 4,
            Exception::WaitForInterrupt => 5,
            Exception::WaitForEvent => 6,
            Exception::Yield => 7,
            Exception::Breakpoint => 8,
            Exception::PreloadData => 9,
            Exception::PreloadDataWithIntentToWrite => 10,
            Exception::PreloadInstruction => 11,
            Exception::NoExecuteFault => 12,
        }
    }

    /// The value that a dynarmic code stands for; `None` for a code outside 0..13.
    pub fn from_code(code: i32) -> (r: Option<Exception>)
        ensures
            r == Exception::from_value(code),
            r is Some <==> 0 <= code < 13,
    {
        if code == 0 {
            Some(Exception::UndefinedInstruction)
        } else if code == 1 {
            Some(Exception::UnpredictableInstruction)
        } else if code == 2 {
            Some(Exception::DecodeError)
        } else if code == 3 {
            Some(Exception::SendEvent)
        } else if code == 4 {
            Some(Exception::SendEventLocal)
        } else if code == 5 {
            Some(Exception::WaitForInterrupt)
        } else if code == 6 {
            Some(Exception::WaitForEvent)
        } else if code == 7 {
            Some(Exception::Yield)
        } else if code == 8 {
            Some(Exception::Breakpoint)
        } else if code == 9 {
            Some(Exception::PreloadData)
        } else if code == 10 {
            Some(Exception::PreloadDataWithIntentToWrite)
        } else if code == 11 {
            Some(Exception::PreloadInstruction)
        } else if code == 12 {
            Some(Exception::NoExecuteFault)
        } else {
            None
        }
    }
}

/// The codes of `Exception` are 13 distinct values: reading a value back from its
/// code gives the same value, and any code that is read back is that value's code.
pub proof fn law_exception_code_roundtrip(e: Exception, code: i32)
    ensures
        Exception::from_value(e.value()) == Some(e),
        0 <= e.value() < 13,
        Exception::from_value(code) matches Some(f) ==> f.value() == code,
{
}

/// The A32 exception codes are the discriminants of dynarmic's `A32::Exception`.
/// Code `i` is the `i`-th of: UndefinedInstruction, UnpredictableInstruction, DecodeError, SendEvent, SendEventLocal, WaitForInterrupt, WaitForEvent, Yield, Breakpoint, PreloadData, PreloadDataWithIntentToWrite, PreloadInstruction, NoExecuteFault; no other code names a value.
pub proof fn law_exception_codes_are_dynarmics(e: Exception, i: int)
    ensures
        ({ let order = seq![Exception::UndefinedInstruction, Exception::UnpredictableInstruction, Exception::DecodeError, Exception::SendEvent, Exception::SendEventLocal, Exception::WaitForInterrupt, Exception::WaitForEvent, Exception::Yield, Exception::Breakpoint, Exception::PreloadData, Exception::PreloadDataWithIntentToWrite, Exception::PreloadInstruction, Exception::NoExecuteFault]; 0 <= i < 13 ==> order[i].value() == i }),
        ({ let order = seq![Exception::UndefinedInstruction, Exception::UnpredictableInstruction, Exception::DecodeError, Exception::SendEvent, Exception::SendEventLocal, Exception::WaitForInterrupt, Exception::WaitForEvent, Exception::Yield, Exception::Breakpoint, Exception::PreloadData, Exception::PreloadDataWithIntentToWrite, Exception::PreloadInstruction, Exception::NoExecuteFault]; 0 <= i < 13 ==> Exception::from_value(i as i32) == Some(order[i]) }),
        ({ let order = seq![Exception::UndefinedInstruction, Exception::UnpredictableInstruction, Exception::DecodeError, Exception::SendEvent, Exception::SendEventLocal, Exception::WaitForInterrupt, Exception::WaitForEvent, Exception::Yield, Exception::Breakpoint, Exception::PreloadData, Exception::PreloadDataWithIntentToWrite, Exception::PreloadInstruction, Exception::NoExecuteFault]; 0 <= e.value() < 13 && order[e.value() as int] == e }),
{
    let order = seq![Exception::UndefinedInstruction, Exception::UnpredictableInstruction, Exception::DecodeError, Exception::SendEvent, Exception::SendEventLocal, Exception::WaitForInterrupt, Exception::WaitForEvent, Exception::Yield, Exception::Breakpoint, Exception::PreloadData, Exception::PreloadDataWithIntentToWrite, Exception::PreloadInstruction, Exception::NoExecuteFault];
    assert(order[0] == Exception::UndefinedInstruction);
    assert(order[1] == Exception::UnpredictableInstruction);
    assert(order[2] == Exception::DecodeError);
    assert(order[3] == Exception::SendEvent);
    assert(order[4] == Exception::SendEventLocal);
    assert(order[5] == Exception::WaitForInterrupt);
    assert(order[6] == Exception::WaitForEvent);
    assert(order[7] == Exception::Yield);
    assert(order[8] == Exception::Breakpoint);
    assert(order[9] == Exception::PreloadData);
    assert(order[10] == Exception::PreloadDataWithIntentToWrite);
    assert(order[11] == Exception::PreloadInstruction);
    assert(order[12] == Exception::NoExecuteFault);
}

/// The ARM architecture version to emulate; versions differ in minor behaviour.
#[derive(Clone, Copy, Debug, PartialEq, Eq, Structural)]
pub enum ArchVersion {
    V3,
    V4,
    V4T,
    V5TE,
    V6K,
    V6T2,
    V7,
    V8,
}

impl ArchVersion {
    /// The code that dynarmic uses for this value.
    pub open spec fn value(self) -> i32 {
        match self {
            ArchVersion::V3 => 0,
            ArchVersion::V4 => 1,
            ArchVersion::V4T => 2,
            ArchVersion::V5TE => 3,
            ArchVersion::V6K => 4,
            ArchVersion::V6T2 => 5,
            ArchVersion::V7 => 6,
            ArchVersion::V8 => 7,
        }
    }

    /// The value that a dynarmic code stands for, if any.
    pub open spec fn from_value(code: i32) -> Option<ArchVersion> {
        if code == 0 {
            Some(ArchVersion::V3)
        } else if code == 1 {
            Some(ArchVersion::V4)
        } else if code == 2 {
            Some(ArchVersion::V4T)
        } else if code == 3 {
            Some(ArchVersion::V5TE)
        } else if code == 4 {
            Some(ArchVersion::V6K)
        } else if code == 5 {
            Some(ArchVersion::V6T2)
        } else if code == 6 {
            Some(ArchVersion::V7)
        } else if code == 7 {
            Some(ArchVersion::V8)
        } else {
            None
        }
    }

    /// The code that dynarmic uses for this value.
    pub fn code(&self) -> (r: i32)
        ensures
            r == self.value(),
    {
        match self {
            ArchVersion::V3 => 0,
            ArchVersion::V4 => 1,
            ArchVersion::V4T => 2,
            ArchVersion::V5TE => 3,
            ArchVersion::V6K => 4,
            ArchVersion::V6T2 => 5,
            ArchVersion::V7 => 6,
            ArchVersion::V8 => 7,
        }
    }

    /// The value that a dynarmic code stands for; `None` for a code outside 0..8.
    pub fn from_code(code: i32) -> (r: Option<ArchVersion>)
        ensures
            r == ArchVersion::from_value(code),
            r is Some <==> 0 <= code < 8,
    {
        if code == 0 {
            Some(ArchVersion::V3)
        } else if code == 1 {
            Some(ArchVersion::V4)
        } else if code == 2 {
            Some(ArchVersion::V4T)
        } else if code == 3 {
            Some(ArchVersion::V5TE)
        } else if code == 4 {
            Some(ArchVersion::V6K)
        } else if code == 5 {
            Some(ArchVersion::V6T2)
        } else if code == 6 {
            Some(ArchVersion::V7)
        } else if code == 7 {
            Some(ArchVersion::V8)
        } else {
            None
        }
    }
}

/// The codes of `ArchVersion` are 8 distinct values: reading a value back from its
/// code gives the same value, and any code that is read back is that value's code.
pub proof fn law_arch_version_code_roundtrip(e: ArchVersion, code: i32)
    ensures
        ArchVersion::from_value(e.value()) == Some(e),
        0 <= e.value() < 8,
        ArchVersion::from_value(code) matches Some(f) ==> f.value() == code,
{
}

/// The architecture version codes are the discriminants of dynarmic's `A32::ArchVersion`.
/// Code `i` is the `i`-th of: V3, V4, V4T, V5TE, V6K, V6T2, V7, V8; no other code names a value.
pub proof fn law_arch_version_codes_are_dynarmics(e: ArchVersion, i: int)
    ensures
        ({ let order = seq![ArchVersion::V3, ArchVersion::V4, ArchVersion::V4T, ArchVersion::V5TE, ArchVersion::V6K, ArchVersion::V6T2, ArchVersion::V7, ArchVersion::V8]; 0 <= i < 8 ==> order[i].value() == i }),
        ({ let order = seq![ArchVersion::V3, ArchVersion::V4, ArchVersion::V4T, ArchVersion::V5TE, ArchVersion::V6K, ArchVersion::V6T2, ArchVersion::V7, ArchVersion::V8]; 0 <= i < 8 ==> ArchVersion::from_value(i as i32) == Some(order[i]) }),
        ({ let order = seq![ArchVersion::V3, ArchVersion::V4, ArchVersion::V4T, ArchVersion::V5TE, ArchVersion::V6K, ArchVersion::V6T2, ArchVersion::V7, ArchVersion::V8]; 0 <= e.value() < 8 && order[e.value() as int] == e }),
{
    let order = seq![ArchVersion::V3, ArchVersion::V4, ArchVersion::V4T, ArchVersion::V5TE, ArchVersion::V6K, ArchVersion::V6T2, ArchVersion::V7, ArchVersion::V8];
    assert(order[0] == ArchVersion::V3);
    assert(order[1] == ArchVersion::V4);
    assert(order[2] == ArchVersion::V4T);
    assert(order[3] == ArchVersion::V5TE);
    assert(order[4] == ArchVersion::V6K);
    assert(order[5] == ArchVersion::V6T2);
    assert(order[6] == ArchVersion::V7);
    assert(order[7] == ArchVersion::V8);
}

/// A coprocessor register.
#[derive(Clone, Copy, Debug, PartialEq, Eq, Structural)]
pub enum CoprocReg {
    C0,
    C1,
    C2,
    C3,
    C4,
    C5,
    C6,
    C7,
    C8,
    C9,
    C10,
    C11,
    C12,
    C13,
    C14,
    C15,
}

impl CoprocReg {
    /// The code that dynarmic uses for this value.
    pub open spec fn value(self) -> i32 {
        match self {
            CoprocReg::C0 => 0,
            CoprocReg::C1 => 1,
            CoprocReg::C2 => 2,
            CoprocReg::C3 => 3,
            CoprocReg::C4 => 4,
            CoprocReg::C5 => 5,
            CoprocReg::C6 => 6,
            CoprocReg::C7 => 7,
            CoprocReg::C8 => 8,
            CoprocReg::C9 => 9,
            CoprocReg::C10 => 10,
            CoprocReg::C11 => 11,
            CoprocReg::C12 => 12,
            CoprocReg::C13 => 13,
            CoprocReg::C14 => 14,
            CoprocReg::C15 => 15,
        }
    }

    /// The value that a dynarmic code stands for, if any.
    pub open spec fn from_value(code: i32) -> Option<CoprocReg> {
        if code == 0 {
            Some(CoprocReg::C0)
        } else if code == 1 {
            Some(CoprocReg::C1)
        } else if code == 2 {
            Some(CoprocReg::C2)
        } else if code == 3 {
            Some(CoprocReg::C3)
        } else if code == 4 {
            Some(CoprocReg::C4)
        } else if code == 5 {
            Some(CoprocReg::C5)
        } else if code == 6 {
            Some(CoprocReg::C6)
        } else if code == 7 {
            Some(CoprocReg::C7)
        } else if code == 8 {
            Some(CoprocReg::C8)
        } else if code == 9 {
            Some(CoprocReg::C9)
        } else if code == 10 {
            Some(CoprocReg::C10)
        } else if code == 11 {
            Some(CoprocReg::C11)
        } else if code == 12 {
            Some(CoprocReg::C12)
        } else if code == 13 {
            Some(CoprocReg::C13)
        } else if code == 14 {
            Some(CoprocReg::C14)
        } else if code == 15 {
            Some(CoprocReg::C15)
        } else {
            None
        }
    }

    /// The code that dynarmic uses for this value.
    pub fn code(&self) -> (r: i32)
        ensures
            r == self.value(),
    {
        match self {
            CoprocReg::C0 => 0,
            CoprocReg::C1 => 1,
            CoprocReg::C2 => 2,
            CoprocReg::C3 => 3,
            CoprocReg::C4 => 4,
            CoprocReg::C5 => 5,
            CoprocReg::C6 => 6,
            CoprocReg::C7 => 7,
            CoprocReg::C8 => 8,
            CoprocReg::C9 => 9,
            CoprocReg::C10 => 10,
            CoprocReg::C11 => 11,
            CoprocReg::C12 => 12,
            CoprocReg::C13 => 13,
            CoprocReg::C14 => 14,
            CoprocReg::C15 => 15,
        }
    }

    /// The value that a dynarmic code stands for; `None` for a code outside 0..16.
    pub fn from_code(code: i32) -> (r: Option<CoprocReg>)
        ensures
            r == CoprocReg::from_value(code),
            r is Some <==> 0 <= code < 16,
    {
        if code == 0 {
            Some(CoprocReg::C0)
        } else if code == 1 {
            Some(CoprocReg::C1)
        } else if code == 2 {
            Some(CoprocReg::C2)
        } else if code == 3 {
            Some(CoprocReg::C3)
        } else if code == 4 {
            Some(CoprocReg::C4)
        } else if code == 5 {
            Some(CoprocReg::C5)
        } else if code == 6 {
            Some(CoprocReg::C6)
        } else if code == 7 {
            Some(CoprocReg::C7)
        } else if code == 8 {
            Some(CoprocReg::C8)
        } else if code == 9 {
            Some(CoprocReg::C9)
        } else if code == 10 {
            Some(CoprocReg::C10)
        } else if code == 11 {
            Some(CoprocReg::C11)
        } else if code == 12 {
            Some(CoprocReg::C12)
        } else if code == 13 {
            Some(CoprocReg::C13)
        } else if code == 14 {
            Some(CoprocReg::C14)
        } else if code == 15 {
            Some(CoprocReg::C15)
        } else {
            None
        }
    }
}

/// The codes of `CoprocReg` are 16 distinct values: reading a value back from its
/// code gives the same value, and any code that is read back is that value's code.
pub proof fn law_coproc_reg_code_roundtrip(e: CoprocReg, code: i32)
    ensures
        CoprocReg::from_value(e.value()) == Some(e),
        0 <= e.value() < 16,
        CoprocReg::from_value(code) matches Some(f) ==> f.value() == code,
{
}

/// The coprocessor register codes are the discriminants of dynarmic's `A32::CoprocReg`.
/// Code `i` is the `i`-th of: C0, C1, C2, C3, C4, C5, C6, C7, C8, C9, C10, C11, C12, C13, C14, C15; no other code names a value.
pub proof fn law_coproc_reg_codes_are_dynarmics(e: CoprocReg, i: int)
    ensures
        ({ let order = seq![CoprocReg::C0, CoprocReg::C1, CoprocReg::C2, CoprocReg::C3, CoprocReg::C4, CoprocReg::C5, CoprocReg::C6, CoprocReg::C7, CoprocReg::C8, CoprocReg::C9, CoprocReg::C10, CoprocReg::C11, CoprocReg::C12, CoprocReg::C13, CoprocReg::C14, CoprocReg::C15]; 0 <= i < 16 ==> order[i].value() == i }),
        ({ let order = seq![CoprocReg::C0, CoprocReg::C1, CoprocReg::C2, CoprocReg::C3, CoprocReg::C4, CoprocReg::C5, CoprocReg::C6, CoprocReg::C7, CoprocReg::C8, CoprocReg::C9, CoprocReg::C10, CoprocReg::C11, CoprocReg::C12, CoprocReg::C13, CoprocReg::C14, CoprocReg::C15]; 0 <= i < 16 ==> CoprocReg::from_value(i as i32) == Some(order[i]) }),
        ({ let order = seq![CoprocReg::C0, CoprocReg::C1, CoprocReg::C2, CoprocReg::C3, CoprocReg::C4, CoprocReg::C5, CoprocReg::C6, CoprocReg::C7, CoprocReg::C8, CoprocReg::C9, CoprocReg::C10, CoprocReg::C11, CoprocReg::C12, CoprocReg::C13, CoprocReg::C14, CoprocReg::C15]; 0 <= e.value() < 16 && order[e.value() as int] == e }),
{
    let order = seq![CoprocReg::C0, CoprocReg::C1, CoprocReg::C2, CoprocReg::C3, CoprocReg::C4, CoprocReg::C5, CoprocReg::C6, CoprocReg::C7, CoprocReg::C8, CoprocReg::C9, CoprocReg::C10, CoprocReg::C11, CoprocReg::C12, CoprocReg::C13, CoprocReg::C14, CoprocReg::C15];
    assert(order[0] == CoprocReg::C0);
    assert(order[1] == CoprocReg::C1);
    assert(order[2] == CoprocReg::C2);
    assert(order[3] == CoprocReg::C3);
    assert(order[4] == CoprocReg::C4);
    assert(order[5] == CoprocReg::C5);
    assert(order[6] == CoprocReg::C6);
    assert(order[7] == CoprocReg::C7);
    assert(order[8] == CoprocReg::C8);
    assert(order[9] == CoprocReg::C9);
    assert(order[10] == CoprocReg::C10);
    assert(order[11] == CoprocReg::C11);
    assert(order[12] == CoprocReg::C12);
    assert(order[13] == CoprocReg::C13);
    assert(order[14] == CoprocReg::C14);
    assert(order[15] == CoprocReg::C15);
}

/// A user callback of the A32 callback table, in the order that `UserCallbacksVTable::new` takes them.
#[derive(Clone, Copy, Debug, PartialEq, Eq, Structural)]
pub enum Slot {
    MemoryReadCode,
    PreCodeReadHook,
    PreCodeTranslationHook,
    GetTicksForCode,
    MemoryRead8,
    MemoryRead16,
    MemoryRead32,
    MemoryRead64,
    MemoryWrite8,
    MemoryWrite16,
    MemoryWrite32,
    MemoryWrite64,
    MemoryWriteExclusive8,
    MemoryWriteExclusive16,
    MemoryWriteExclusive32,
    MemoryWriteExclusive64,
    IsReadonlyMemory,
    InterpreterFallback,
    CallSvc,
    ExceptionRaised,
    InstructionSynchronizationBarrierRaised,
    AddTicks,
    GetTicksRemaining,
}

impl Slot {
    /// The code that dynarmic uses for this value.
    pub open spec fn value(self) -> i32 {
        match self {
            Slot::MemoryReadCode => 0,
            Slot::PreCodeReadHook => 1,
            Slot::PreCodeTranslationHook => 2,
            Slot::GetTicksForCode => 3,
            Slot::MemoryRead8 => 4,
            Slot::MemoryRead16 => 5,
            Slot::MemoryRead32 => 6,
            Slot::MemoryRead64 => 7,
            Slot::MemoryWrite8 => 8,
            Slot::MemoryWrite16 => 9,
            Slot::MemoryWrite32 => 10,
            Slot::MemoryWrite64 => 11,
            Slot::MemoryWriteExclusive8 => 12,
            Slot::MemoryWriteExclusive16 => 13,
            Slot::MemoryWriteExclusive32 => 14,
            Slot::MemoryWriteExclusive64 => 15,
            Slot::IsReadonlyMemory => 16,
            Slot::InterpreterFallback => 17,
            Slot::CallSvc => 18,
            Slot::ExceptionRaised => 19,
            Slot::InstructionSynchronizationBarrierRaised => 20,
            Slot::AddTicks => 21,
            Slot::GetTicksRemaining => 22,
        }
    }

    /// The value that a dynarmic code stands for, if any.
    pub open spec fn from_value(code: i32) -> Option<Slot> {
        if code == 0 {
            Some(Slot::MemoryReadCode)
        } else if code == 1 {
            Some(Slot::PreCodeReadHook)
        } else if code == 2 {
            Some(Slot::PreCodeTranslationHook)
        } else if code == 3 {
            Some(Slot::GetTicksForCode)
        } else if code == 4 {
            Some(Slot::MemoryRead8)
        } else if code == 5 {
            Some(Slot::MemoryRead16)
        } else if code == 6 {
            Some(Slot::MemoryRead32)
        } else if code == 7 {
            Some(Slot::MemoryRead64)
        } else if code == 8 {
            Some(Slot::MemoryWrite8)
        } else if code == 9 {
            Some(Slot::MemoryWrite16)
        } else if code == 10 {
            Some(Slot::MemoryWrite32)
        } else if code == 11 {
            Some(Slot::MemoryWrite64)
        } else if code == 12 {
            Some(Slot::MemoryWriteExclusive8)
        } else if code == 13 {
            Some(Slot::MemoryWriteExclusive16)
        } else if code == 14 {
            Some(Slot::MemoryWriteExclusive32)
        } else if code == 15 {
            Some(Slot::MemoryWriteExclusive64)
        } else if code == 16 {
            Some(Slot::IsReadonlyMemory)
        } else if code == 17 {
            Some(Slot::InterpreterFallback)
        } else if code == 18 {
            Some(Slot::CallSvc)
        } else if code == 19 {
            Some(Slot::ExceptionRaised)
        } else if code == 20 {
            Some(Slot::InstructionSynchronizationBarrierRaised)
        } else if code == 21 {
            Some(Slot::AddTicks)
        } else if code == 22 {
            Some(Slot::GetTicksRemaining)
        } else {
            None
        }
    }

    /// The code that dynarmic uses for this value.
    pub fn code(&self) -> (r: i32)
        ensures
            r == self.value(),
    {
        match self {
            Slot::MemoryReadCode => 0,
            Slot::PreCodeReadHook => 1,
            Slot::PreCodeTranslationHook => 2,
            Slot::GetTicksForCode => 3,
            Slot::MemoryRead8 => 4,
            Slot::MemoryRead16 => 5,
            Slot::MemoryRead32 => 6,
            Slot::MemoryRead64 => 7,
            Slot::MemoryWrite8 => 8,
            Slot::MemoryWrite16 => 9,
            Slot::MemoryWrite32 => 10,
            Slot::MemoryWrite64 => 11,
            Slot::MemoryWriteExclusive8 => 12,
            Slot::MemoryWriteExclusive16 => 13,
            Slot::MemoryWriteExclusive32 => 14,
            Slot::MemoryWriteExclusive64 => 15,
            Slot::IsReadonlyMemory => 16,
            Slot::InterpreterFallback => 17,
            Slot::CallSvc => 18,
            Slot::ExceptionRaised => 19,
            Slot::InstructionSynchronizationBarrierRaised => 20,
            Slot::AddTicks => 21,
            Slot::GetTicksRemaining => 22,
        }
    }

    /// The value that a dynarmic code stands for; `None` for a code outside 0..23.
    pub fn from_code(code: i32) -> (r: Option<Slot>)
        ensures
            r == Slot::from_value(code),
            r is Some <==> 0 <= code < 23,
    {
        if code == 0 {
            Some(Slot::MemoryReadCode)
        } else if code == 1 {
            Some(Slot::PreCodeReadHook)
        } else if code == 2 {
            Some(Slot::PreCodeTranslationHook)
        } else if code == 3 {
            Some(Slot::GetTicksForCode)
        } else if code == 4 {
            Some(Slot::MemoryRead8)
        } else if code == 5 {
            Some(Slot::MemoryRead16)
        } else if code == 6 {
            Some(Slot::MemoryRead32)
        } else if code == 7 {
            Some(Slot::MemoryRead64)
        } else if code == 8 {
            Some(Slot::MemoryWrite8)
        } else if code == 9 {
            Some(Slot::MemoryWrite16)
        } else if code == 10 {
            Some(Slot::MemoryWrite32)
        } else if code == 11 {
            Some(Slot::MemoryWrite64)
        } else if code == 12 {
            Some(Slot::MemoryWriteExclusive8)
        } else if code == 13 {
            Some(Slot::MemoryWriteExclusive16)
        } else if code == 14 {
            Some(Slot::MemoryWriteExclusive32)
        } else if code == 15 {
            Some(Slot::MemoryWriteExclusive64)
        } else if code == 16 {
            Some(Slot::IsReadonlyMemory)
        } else if code == 17 {
            Some(Slot::InterpreterFallback)
        } else if code == 18 {
            Some(Slot::CallSvc)
        } else if code == 19 {
            Some(Slot::ExceptionRaised)
        } else if code == 20 {
            Some(Slot::InstructionSynchronizationBarrierRaised)
        } else if code == 21 {
            Some(Slot::AddTicks)
        } else if code == 22 {
            Some(Slot::GetTicksRemaining)
        } else {
            None
        }
    }
}

/// The codes of `Slot` are 23 distinct values: reading a value back from its
/// code gives the same value, and any code that is read back is that value's code.
pub proof fn law_slot_code_roundtrip(e: Slot, code: i32)
    ensures
        Slot::from_value(e.value()) == Some(e),
        0 <= e.value() < 23,
        Slot::from_value(code) matches Some(f) ==> f.value() == code,
{
}

/// A slot's code is its position among the callback arguments of dynarmic's A32 `UserCallbacksVTable::new`.
/// Code `i` is the `i`-th of: MemoryReadCode, PreCodeReadHook, PreCodeTranslationHook, GetTicksForCode, MemoryRead8, MemoryRead16, MemoryRead32, MemoryRead64, MemoryWrite8, MemoryWrite16, MemoryWrite32, MemoryWrite64, MemoryWriteExclusive8, MemoryWriteExclusive16, MemoryWriteExclusive32, MemoryWriteExclusive64, IsReadonlyMemory, InterpreterFallback, CallSvc, ExceptionRaised, InstructionSynchronizationBarrierRaised, AddTicks, GetTicksRemaining; no other code names a value.
pub proof fn law_slot_codes_follow_the_callback_order(e: Slot, i: int)
    ensures
        ({ let order = seq![Slot::MemoryReadCode, Slot::PreCodeReadHook, Slot::PreCodeTranslationHook, Slot::GetTicksForCode, Slot::MemoryRead8, Slot::MemoryRead16, Slot::MemoryRead32, Slot::MemoryRead64, Slot::MemoryWrite8, Slot::MemoryWrite16, Slot::MemoryWrite32, Slot::MemoryWrite64, Slot::MemoryWriteExclusive8, Slot::MemoryWriteExclusive16, Slot::MemoryWriteExclusive32, Slot::MemoryWriteExclusive64, Slot::IsReadonlyMemory, Slot::InterpreterFallback, Slot::CallSvc, Slot::ExceptionRaised, Slot::InstructionSynchronizationBarrierRaised, Slot::AddTicks, Slot::GetTicksRemaining]; 0 <= i < 23 ==> order[i].value() == i }),
        ({ let order = seq![Slot::MemoryReadCode, Slot::PreCodeReadHook, Slot::PreCodeTranslationHook, Slot::GetTicksForCode, Slot::MemoryRead8, Slot::MemoryRead16, Slot::MemoryRead32, Slot::MemoryRead64, Slot::MemoryWrite8, Slot::MemoryWrite16, Slot::MemoryWrite32, Slot::MemoryWrite64, Slot::MemoryWriteExclusive8, Slot::MemoryWriteExclusive16, Slot::MemoryWriteExclusive32, Slot::MemoryWriteExclusive64, Slot::IsReadonlyMemory, Slot::InterpreterFallback, Slot::CallSvc, Slot::ExceptionRaised, Slot::InstructionSynchronizationBarrierRaised, Slot::AddTicks, Slot::GetTicksRemaining]; 0 <= i < 23 ==> Slot::from_value(i as i32) == Some(order[i]) }),
        ({ let order = seq![Slot::MemoryReadCode, Slot::PreCodeReadHook, Slot::PreCodeTranslationHook, Slot::GetTicksForCode, Slot::MemoryRead8, Slot::MemoryRead16, Slot::MemoryRead32, Slot::MemoryRead64, Slot::MemoryWrite8, Slot::MemoryWrite16, Slot::MemoryWrite32, Slot::MemoryWrite64, Slot::MemoryWriteExclusive8, Slot::MemoryWriteExclusive16, Slot::MemoryWriteExclusive32, Slot::MemoryWriteExclusive64, Slot::IsReadonlyMemory, Slot::InterpreterFallback, Slot::CallSvc, Slot::ExceptionRaised, Slot::InstructionSynchronizationBarrierRaised, Slot::AddTicks, Slot::GetTicksRemaining]; 0 <= e.value() < 23 && order[e.value() as int] == e }),
{
    let order = seq![Slot::MemoryReadCode, Slot::PreCodeReadHook, Slot::PreCodeTranslationHook, Slot::GetTicksForCode, Slot::MemoryRead8, Slot::MemoryRead16, Slot::MemoryRead32, Slot::MemoryRead64, Slot::MemoryWrite8, Slot::MemoryWrite16, Slot::MemoryWrite32, Slot::MemoryWrite64, Slot::MemoryWriteExclusive8, Slot::MemoryWriteExclusive16, Slot::MemoryWriteExclusive32, Slot::MemoryWriteExclusive64, Slot::IsReadonlyMemory, Slot::InterpreterFallback, Slot::CallSvc, Slot::ExceptionRaised, Slot::InstructionSynchronizationBarrierRaised, Slot::AddTicks, Slot::GetTicksRemaining];
    assert(order[0] == Slot::MemoryReadCode);
    assert(order[1] == Slot::PreCodeReadHook);
    assert(order[2] == Slot::PreCodeTranslationHook);
    assert(order[3] == Slot::GetTicksForCode);
    assert(order[4] == Slot::MemoryRead8);
    assert(order[5] == Slot::MemoryRead16);
    assert(order[6] == Slot::MemoryRead32);
    assert(order[7] == Slot::MemoryRead64);
    assert(order[8] == Slot::MemoryWrite8);
    assert(order[9] == Slot::MemoryWrite16);
    assert(order[10] == Slot::MemoryWrite32);
    assert(order[11] == Slot::MemoryWrite64);
    assert(order[12] == Slot::MemoryWriteExclusive8);
    assert(order[13] == Slot::MemoryWriteExclusive16);
    assert(order[14] == Slot::MemoryWriteExclusive32);
    assert(order[15] == Slot::MemoryWriteExclusive64);
    assert(order[16] == Slot::IsReadonlyMemory);
    assert(order[17] == Slot::InterpreterFallback);
    assert(order[18] == Slot::CallSvc);
    assert(order[19] == Slot::ExceptionRaised);
    assert(order[20] == Slot::InstructionSynchronizationBarrierRaised);
    assert(order[21] == Slot::AddTicks);
    assert(order[22] == Slot::GetTicksRemaining);
}

impl Slot {
    /// What dynarmic's callback table holds for this slot when the user gives no callback.
    pub open spec fn default_behaviour(self) -> Option<Fallback> {
        match self {
            Slot::MemoryReadCode => Some(Fallback::ReadCodeThroughRead32),
            Slot::PreCodeReadHook => Some(Fallback::ReturnTrue),
            Slot::PreCodeTranslationHook => Some(Fallback::DoNothing),
            Slot::GetTicksForCode => Some(Fallback::OneTick),
            Slot::MemoryRead8 => None,
            Slot::MemoryRead16 => None,
            Slot::MemoryRead32 => None,
            Slot::MemoryRead64 => None,
            Slot::MemoryWrite8 => None,
            Slot::MemoryWrite16 => None,
            Slot::MemoryWrite32 => None,
            Slot::MemoryWrite64 => None,
            Slot::MemoryWriteExclusive8 => Some(Fallback::ReturnFalse),
            Slot::MemoryWriteExclusive16 => Some(Fallback::ReturnFalse),
            Slot::MemoryWriteExclusive32 => Some(Fallback::ReturnFalse),
            Slot::MemoryWriteExclusive64 => Some(Fallback::ReturnFalse),
            Slot::IsReadonlyMemory => Some(Fallback::ReturnFalse),
            Slot::InterpreterFallback => Some(Fallback::PanicOnUnhandledInstruction),
            Slot::CallSvc => Some(Fallback::PanicOnSupervisorCall),
            Slot::ExceptionRaised => Some(Fallback::PanicOnException),
            Slot::InstructionSynchronizationBarrierRaised => Some(Fallback::DoNothing),
            Slot::AddTicks => None,
            Slot::GetTicksRemaining => None,
        }
    }

    /// What dynarmic's callback table holds for this slot when the user gives no callback.
    pub fn fallback(&self) -> (r: Option<Fallback>)
        ensures
            r == self.default_behaviour(),
    {
        match self {
            Slot::MemoryReadCode => Some(Fallback::ReadCodeThroughRead32),
            Slot::PreCodeReadHook => Some(Fallback::ReturnTrue),
            Slot::PreCodeTranslationHook => Some(Fallback::DoNothing),
            Slot::GetTicksForCode => Some(Fallback::OneTick),
            Slot::MemoryRead8 => None,
            Slot::MemoryRead16 => None,
            Slot::MemoryRead32 => None,
            Slot::MemoryRead64 => None,
            Slot::MemoryWrite8 => None,
            Slot::MemoryWrite16 => None,
            Slot::MemoryWrite32 => None,
            Slot::MemoryWrite64 => None,
            Slot::MemoryWriteExclusive8 => Some(Fallback::ReturnFalse),
            Slot::MemoryWriteExclusive16 => Some(Fallback::ReturnFalse),
            Slot::MemoryWriteExclusive32 => Some(Fallback::ReturnFalse),
            Slot::MemoryWriteExclusive64 => Some(Fallback::ReturnFalse),
            Slot::IsReadonlyMemory => Some(Fallback::ReturnFalse),
            Slot::InterpreterFallback => Some(Fallback::PanicOnUnhandledInstruction),
            Slot::CallSvc => Some(Fallback::PanicOnSupervisorCall),
            Slot::ExceptionRaised => Some(Fallback::PanicOnException),
            Slot::InstructionSynchronizationBarrierRaised => Some(Fallback::DoNothing),
            Slot::AddTicks => None,
            Slot::GetTicksRemaining => None,
        }
    }
}

/// The A32 callback table that dynarmic calls into, as what each of its 23 user slots
/// (indexed by `Slot::code`) holds: a given function, a fallback's function, or nothing.
pub struct UserCallbacksVTable<F> {
    pub slots: [Option<Entry<F>>; 23],
}

impl<F: Copy> UserCallbacksVTable<F> {
    /// What one slot holds.
    pub open spec fn entry(self, slot: Slot) -> Option<Entry<F>> {
        self.slots@[slot.value() as int]
    }

    /// The table is what filling the slots `given` (indexed by `Slot::code`) gives.
    pub open spec fn built_from(self, given: Seq<Option<Entry<F>>>) -> bool {
        forall|i: int|
            0 <= i < 23 ==> #[trigger] self.slots@[i] == fill_spec(
                given[i],
                Slot::from_value(i as i32).unwrap().default_behaviour(),
            )
    }

    /// Builds the table from the functions given for each slot (`given[Slot::code]`): a
    /// given function is kept, an empty slot gets the slot's fallback where it has one.
    pub fn new(given: [Option<Entry<F>>; 23]) -> (r: UserCallbacksVTable<F>)
        ensures
            r.built_from(given@),
            forall|s: Slot|
                #![trigger r.entry(s)]
                r.entry(s) == fill_spec(given@[s.value() as int], s.default_behaviour()),
    {
        let mut slots: [Option<Entry<F>>; 23] = [None; 23];
        let mut i: usize = 0;
        while i < 23
            invariant
                0 <= i <= 23,
                forall|j: int|
                    0 <= j < i ==> #[trigger] slots@[j] == fill_spec(
                        given@[j],
                        Slot::from_value(j as i32).unwrap().default_behaviour(),
                    ),
            decreases 23 - i,
        {
            let slot = Slot::from_code(i as i32).unwrap();
            slots[i] = fill(given[i], slot.fallback());
            i = i + 1;
        }
        proof {
            assert forall|s: Slot| #![trigger s.value()]
                slots@[s.value() as int] == fill_spec(given@[s.value() as int], s.default_behaviour()) by {
                law_slot_code_roundtrip(s, s.value());
            }
        }
        UserCallbacksVTable { slots }
    }
}

/// Building a table from the slots of a table that was itself built changes nothing: every
/// slot that can get a fallback already holds a function, and given functions are kept.
pub proof fn law_rebuilding_a_built_table_changes_nothing<F: Copy>(
    t: UserCallbacksVTable<F>,
    u: UserCallbacksVTable<F>,
    given: Seq<Option<Entry<F>>>,
)
    requires
        t.built_from(given),
        u.built_from(t.slots@),
    ensures
        u.slots@ == t.slots@,
{
    assert forall|i: int| 0 <= i < 23 implies #[trigger] u.slots@[i] == t.slots@[i] by {
        assert(u.slots@[i] == fill_spec(t.slots@[i], Slot::from_value(i as i32).unwrap().default_behaviour()));
    }
    assert(u.slots@ =~= t.slots@);
}

/// The fallbacks of dynarmic's A32 callback table, slot by slot in the order of the callback
/// arguments: MemoryReadCode ReadCodeThroughRead32; PreCodeReadHook ReturnTrue; PreCodeTranslationHook DoNothing; GetTicksForCode OneTick; MemoryRead8 none; MemoryRead16 none; MemoryRead32 none; MemoryRead64 none; MemoryWrite8 none; MemoryWrite16 none; MemoryWrite32 none; MemoryWrite64 none; MemoryWriteExclusive8 ReturnFalse; MemoryWriteExclusive16 ReturnFalse; MemoryWriteExclusive32 ReturnFalse; MemoryWriteExclusive64 ReturnFalse; IsReadonlyMemory ReturnFalse; InterpreterFallback PanicOnUnhandledInstruction; CallSvc PanicOnSupervisorCall; ExceptionRaised PanicOnException; InstructionSynchronizationBarrierRaised DoNothing; AddTicks none; GetTicksRemaining none.
/// An empty slot of a built table holds its fallback's function, or nothing where it has none.
pub proof fn law_empty_slots_get_dynarmics_fallbacks<F: Copy>(
    t: UserCallbacksVTable<F>,
    given: Seq<Option<Entry<F>>>,
    i: int,
    s: Slot,
)
    requires
        t.built_from(given),
        0 <= i < 23,
        given[i] is None,
    ensures
        ({ let fallbacks: Seq<Option<Fallback>> = seq![Some(Fallback::ReadCodeThroughRead32), Some(Fallback::ReturnTrue), Some(Fallback::DoNothing), Some(Fallback::OneTick), None, None, None, None, None, None, None, None, Some(Fallback::ReturnFalse), Some(Fallback::ReturnFalse), Some(Fallback::ReturnFalse), Some(Fallback::ReturnFalse), Some(Fallback::ReturnFalse), Some(Fallback::PanicOnUnhandledInstruction), Some(Fallback::PanicOnSupervisorCall), Some(Fallback::PanicOnException), Some(Fallback::DoNothing), None, None]; t.slots@[i] == match fallbacks[i] { Some(f) => Some(Entry::<F>::Fallback(f)), None => None } }),
        ({ let fallbacks: Seq<Option<Fallback>> = seq![Some(Fallback::ReadCodeThroughRead32), Some(Fallback::ReturnTrue), Some(Fallback::DoNothing), Some(Fallback::OneTick), None, None, None, None, None, None, None, None, Some(Fallback::ReturnFalse), Some(Fallback::ReturnFalse), Some(Fallback::ReturnFalse), Some(Fallback::ReturnFalse), Some(Fallback::ReturnFalse), Some(Fallback::PanicOnUnhandledInstruction), Some(Fallback::PanicOnSupervisorCall), Some(Fallback::PanicOnException), Some(Fallback::DoNothing), None, None]; s.default_behaviour() == fallbacks[s.value() as int] }),
{
    let fallbacks: Seq<Option<Fallback>> = seq![Some(Fallback::ReadCodeThroughRead32), Some(Fallback::ReturnTrue), Some(Fallback::DoNothing), Some(Fallback::OneTick), None, None, None, None, None, None, None, None, Some(Fallback::ReturnFalse), Some(Fallback::ReturnFalse), Some(Fallback::ReturnFalse), Some(Fallback::ReturnFalse), Some(Fallback::ReturnFalse), Some(Fallback::PanicOnUnhandledInstruction), Some(Fallback::PanicOnSupervisorCall), Some(Fallback::PanicOnException), Some(Fallback::DoNothing), None, None];
    assert(fallbacks[0] == Some(Fallback::ReadCodeThroughRead32));
    assert(fallbacks[1] == Some(Fallback::ReturnTrue));
    assert(fallbacks[2] == Some(Fallback::DoNothing));
    assert(fallbacks[3] == Some(Fallback::OneTick));
    assert(fallbacks[4] == None::<Fallback>);
    assert(fallbacks[5] == None::<Fallback>);
    assert(fallbacks[6] == None::<Fallback>);
    assert(fallbacks[7] == None::<Fallback>);
    assert(fallbacks[8] == None::<Fallback>);
    assert(fallbacks[9] == None::<Fallback>);
    assert(fallbacks[10] == None::<Fallback>);
    assert(fallbacks[11] == None::<Fallback>);
    assert(fallbacks[12] == Some(Fallback::ReturnFalse));
    assert(fallbacks[13] == Some(Fallback::ReturnFalse));
    assert(fallbacks[14] == Some(Fallback::ReturnFalse));
    assert(fallbacks[15] == Some(Fallback::ReturnFalse));
    assert(fallbacks[16] == Some(Fallback::ReturnFalse));
    assert(fallbacks[17] == Some(Fallback::PanicOnUnhandledInstruction));
    assert(fallbacks[18] == Some(Fallback::PanicOnSupervisorCall));
    assert(fallbacks[19] == Some(Fallback::PanicOnException));
    assert(fallbacks[20] == Some(Fallback::DoNothing));
    assert(fallbacks[21] == None::<Fallback>);
    assert(fallbacks[22] == None::<Fallback>);
    assert(t.slots@[i] == fill_spec(given[i], Slot::from_value(i as i32).unwrap().default_behaviour()));
}

/// A slot that was given a function keeps exactly that function in the built table.
pub proof fn law_given_slots_are_kept<F: Copy>(t: UserCallbacksVTable<F>, given: Seq<Option<Entry<F>>>, i: int)
    requires
        t.built_from(given),
        0 <= i < 23,
        given[i] is Some,
    ensures
        t.slots@[i] == given[i],
{
    assert(t.slots@[i] == fill_spec(given[i], Slot::from_value(i as i32).unwrap().default_behaviour()));
}

/// A guest virtual address.
pub type VAddr = u32;

/// The IR emitter that the translation hooks receive.
pub struct IREmitter;

/// A coprocessor that the A32 JIT forwards coprocessor instructions to.
pub struct Coprocessor;

/// Index of the stack pointer among the general-purpose registers.
pub const SP_INDEX: usize = 13;

/// Index of the program counter among the general-purpose registers.
pub const PC_INDEX: usize = 15;

/// The sixteen A32 general-purpose registers R0..R15 (R13 is SP, R15 is PC).
#[derive(Clone, Copy, Debug)]
pub struct RegisterFile {
    regs: [u32; 16],
}

impl View for RegisterFile {
    type V = Seq<u32>;

    closed spec fn view(&self) -> Seq<u32> {
        self.regs@
    }
}

impl RegisterFile {
    /// The register file holding these values, R0 first.
    pub fn from_array(regs: [u32; 16]) -> (r: RegisterFile)
        ensures
            r@ == regs@,
            r@.len() == 16,
    {
        RegisterFile { regs }
    }

    /// The register values, R0 first.
    pub fn to_array(&self) -> (r: [u32; 16])
        ensures
            r@ == self@,
            self@.len() == 16,
    {
        self.regs
    }

    /// Reads a general-purpose register.
    pub fn get_reg(&self, index: usize) -> (r: u32)
        requires
            index < 16,
        ensures
            r == self@[index as int],
            self@.len() == 16,
    {
        self.regs[index]
    }

    /// Writes a general-purpose register; the others keep their values.
    pub fn set_reg(&mut self, index: usize, val: u32)
        requires
            index < 16,
        ensures
            final(self)@ == old(self)@.update(index as int, val),
            old(self)@.len() == 16,
            final(self)@.len() == 16,
    {
        self.regs[index] = val;
    }

    /// Reads the stack pointer (R13).
    pub fn get_sp(&self) -> (r: u32)
        ensures
            r == self@[SP_INDEX as int],
            self@.len() == 16,
    {
        self.get_reg(SP_INDEX)
    }

    /// Writes the stack pointer (R13).
    pub fn set_sp(&mut self, sp: u32)
        ensures
            final(self)@ == old(self)@.update(SP_INDEX as int, sp),
            old(self)@.len() == 16,
            final(self)@.len() == 16,
    {
        self.set_reg(SP_INDEX, sp)
    }

    /// Reads the program counter (R15).
    pub fn get_pc(&self) -> (r: u32)
        ensures
            r == self@[PC_INDEX as int],
            self@.len() == 16,
    {
        self.get_reg(PC_INDEX)
    }

    /// Writes the program counter (R15).
    pub fn set_pc(&mut self, pc: u32)
        ensures
            final(self)@ == old(self)@.update(PC_INDEX as int, pc),
            old(self)@.len() == 16,
            final(self)@.len() == 16,
    {
        self.set_reg(PC_INDEX, pc)
    }
}

/// A read of a register gives back what the last write to it wrote, and a write to one
/// register leaves every other register as it was; the stack pointer and the program
/// counter are two distinct registers.
pub proof fn law_register_read_after_write(regs: RegisterFile, index: int, val: u32, other: int)
    requires
        0 <= index < 16,
        0 <= other < 16,
        other != index,
    ensures
        regs@.len() == 16,
        regs@.update(index, val)[index] == val,
        regs@.update(index, val)[other] == regs@[other],
        regs@.update(index, val).len() == 16,
        SP_INDEX == 13,
        PC_INDEX == 15,
{
}

/// An A32 JIT configuration under construction, with the callbacks it will use.
pub struct Config<T> {
    pub config: A32Config,
    pub cb: Box<T>,
}

impl<T> Config<T> {
    /// A configuration with the default A32 settings and these callbacks.
    pub fn new(cb: T) -> (r: Self)
        ensures
            r.config.is_default(),
            *r.cb == cb,
    {
        Config { config: A32Config::new(), cb: Box::new(cb) }
    }

    /// Sets the processor id.
    pub fn processor_id(&mut self, id: usize) -> (r: &mut Self)
        ensures
            r.config == (A32Config { processor_id: id, ..old(self).config }),
            r.cb == old(self).cb,
            *final(self) == *final(r),
    {
        self.config.processor_id = id;
        self
    }

    /// Sets the fastmem pointer and whether dynarmic recompiles without fastmem when a
    /// page fault is reached.
    pub fn fastmem(&mut self, ptr: usize, recompile_on_fault: bool) -> (r: &mut Self)
        ensures
            r.config == (A32Config {
                fastmem_pointer: CxxOptional { value: Some(ptr) },
                recompile_on_fastmem_failure: recompile_on_fault,
                ..old(self).config
            }),
            r.cb == old(self).cb,
            *final(self) == *final(r),
    {
        self.config.fastmem_pointer = CxxOptional::from(ptr);
        self.config.recompile_on_fastmem_failure = recompile_on_fault;
        self
    }

    /// Sets whether dynarmic uses the fastmem pointer for exclusive reads and writes, and
    /// whether it recompiles without fastmem when a page fault is reached there.
    pub fn fastmem_exclusive(&mut self, exclusive_access: bool, recompile_on_fault: bool)
        ensures
            final(self).config == (A32Config {
                fastmem_exclusive_access: exclusive_access,
                recompile_on_exclusive_fastmem_failure: recompile_on_fault,
                ..old(self).config
            }),
            final(self).cb == old(self).cb,
    {
        self.config.fastmem_exclusive_access = exclusive_access;
        self.config.recompile_on_exclusive_fastmem_failure = recompile_on_fault;
    }
}

} // verus!
