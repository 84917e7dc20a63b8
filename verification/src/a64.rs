use vstd::prelude::*;

use crate::cxx::CxxOptional;
use crate::internal::{fill, fill_spec, A64Config, Entry, Fallback};

verus! {

/// Why the emulated CPU raised an exception.
#[derive(Clone, Copy, Debug, PartialEq, Eq, Structural)]
pub enum Exception {
    /// An UndefinedFault occured due to executing instruction with an unallocated encoding
    UnallocatedEncoding,
    /// An UndefinedFault occured due to executing instruction containing a reserved value
    ReservedValue,
    /// An unpredictable instruction is to be executed. Implementation-defined behaviour should now happen. This behaviour is up to the user of this library to define. Constraints on unpredictable behaviour are specified in the ARMv8 ARM.
    UnpredictableInstruction,
    /// A WFI instruction was executed. You may now enter a low-power state. (Hint instruction.)
    WaitForInterrupt,
    /// A WFE instruction was executed. You may now enter a low-power state if the event register is clear. (Hint instruction.)
    WaitForEvent,
    /// A SEV instruction was executed. The event register of all PEs should be set. (Hint instruction.)
    SendEvent,
    /// A SEVL instruction was executed. The event register of the current PE should be set. (Hint instruction.)
    SendEventLocal,
    /// A YIELD instruction was executed. (Hint instruction.)
    Yield,
    /// A BRK instruction was executed. (Hint instruction.)
    Breakpoint,
    /// Attempted to execute a code block at an address for which MemoryReadCode returned std::nullopt. (Intended to be used to emulate memory protection faults.)
    NoExecuteFault,
}

impl Exception {
    /// The code that dynarmic uses for this value.
    pub open spec fn value(self) -> i32 {
        match self {
            Exception::UnallocatedEncoding => 0,
            Exception::ReservedValue => 1,
            Exception::UnpredictableInstruction => 2,
            Exception::WaitForInterrupt => 3,
            Exception::WaitForEvent => 4,
            Exception::SendEvent => 5,
            Exception::SendEventLocal => 6,
            Exception::Yield => 7,
            Exception::Breakpoint => 8,
            Exception::NoExecuteFault => 9,
        }
    }

    /// The value that a dynarmic code stands for, if any.
    pub open spec fn from_value(code: i32) -> Option<Exception> {
        if code == 0 {
            Some(Exception::UnallocatedEncoding)
        } else if code == 1 {
            Some(Exception::ReservedValue)
        } else if code == 2 {
            Some(Exception::UnpredictableInstruction)
        } else if code == 3 {
            Some(Exception::WaitForInterrupt)
        } else if code == 4 {
            Some(Exception::WaitForEvent)
        } else if code == 5 {
            Some(Exception::SendEvent)
        } else if code == 6 {
            Some(Exception::SendEventLocal)
        } else if code == 7 {
            Some(Exception::Yield)
        } else if code == 8 {
            Some(Exception::Breakpoint)
        } else if code == 9 {
            Some(Exception::NoExecuteFault)
        } else {
            None
        }
    }

    /// The code that dynarmic uses for this value.
    pub fn code(&self) -> (r: i32)
        ensures
            r == self.value(),
    {
        match self {
            Exception::UnallocatedEncoding => 0,
            Exception::ReservedValue => 1,
            Exception::UnpredictableInstruction => 2,
            Exception::WaitForInterrupt => 3,
            Exception::WaitForEvent => 4,
            Exception::SendEvent => 5,
            Exception::SendEventLocal => 6,
            Exception::Yield => 7,
            Exception::Breakpoint => 8,
            Exception::NoExecuteFault => 9,
        }
    }

    /// The value that a dynarmic code stands for; `None` for a code outside 0..10.
    pub fn from_code(code: i32) -> (r: Option<Exception>)
        ensures
            r == Exception::from_value(code),
            r is Some <==> 0 <= code < 10,
    {
        if code == 0 {
            Some(Exception::UnallocatedEncoding)
        } else if code == 1 {
            Some(Exception::ReservedValue)
        } else if code == 2 {
            Some(Exception::UnpredictableInstruction)
        } else if code == 3 {
            Some(Exception::WaitForInterrupt)
        } else if code == 4 {
            Some(Exception::WaitForEvent)
        } else if code == 5 {
            Some(Exception::SendEvent)
        } else if code == 6 {
            Some(Exception::SendEventLocal)
        } else if code == 7 {
            Some(Exception::Yield)
        } else if code == 8 {
            Some(Exception::Breakpoint)
        } else if code == 9 {
            Some(Exception::NoExecuteFault)
        } else {
            None
        }
    }
}

/// The codes of `Exception` are 10 distinct values: reading a value back from its
/// code gives the same value, and any code that is read back is that value's code.
pub proof fn law_exception_code_roundtrip(e: Exception, code: i32)
    ensures
        Exception::from_value(e.value()) == Some(e),
        0 <= e.value() < 10,
        Exception::from_value(code) matches Some(f) ==> f.value() == code,
{
}

/// The A64 exception codes are the discriminants of dynarmic's `A64::Exception`.
/// Code `i` is the `i`-th of: UnallocatedEncoding, ReservedValue, UnpredictableInstruction, WaitForInterrupt, WaitForEvent, SendEvent, SendEventLocal, Yield, Breakpoint, NoExecuteFault; no other code names a value.
pub proof fn law_exception_codes_are_dynarmics(e: Exception, i: int)
    ensures
        ({ let order = seq![Exception::UnallocatedEncoding, Exception::ReservedValue, Exception::UnpredictableInstruction, Exception::WaitForInterrupt, Exception::WaitForEvent, Exception::SendEvent, Exception::SendEventLocal, Exception::Yield, Exception::Breakpoint, Exception::NoExecuteFault]; 0 <= i < 10 ==> order[i].value() == i }),
        ({ let order = seq![Exception::UnallocatedEncoding, Exception::ReservedValue, Exception::UnpredictableInstruction, Exception::WaitForInterrupt, Exception::WaitForEvent, Exception::SendEvent, Exception::SendEventLocal, Exception::Yield, Exception::Breakpoint, Exception::NoExecuteFault]; 0 <= i < 10 ==> Exception::from_value(i as i32) == Some(order[i]) }),
        ({ let order = seq![Exception::UnallocatedEncoding, Exception::ReservedValue, Exception::UnpredictableInstruction, Exception::WaitForInterrupt, Exception::WaitForEvent, Exception::SendEvent, Exception::SendEventLocal, Exception::Yield, Exception::Breakpoint, Exception::NoExecuteFault]; 0 <= e.value() < 10 && order[e.value() as int] == e }),
{
    let order = seq![Exception::UnallocatedEncoding, Exception::ReservedValue, Exception::UnpredictableInstruction, Exception::WaitForInterrupt, Exception::WaitForEvent, Exception::SendEvent, Exception::SendEventLocal, Exception::Yield, Exception::Breakpoint, Exception::NoExecuteFault];
    assert(order[0] == Exception::UnallocatedEncoding);
    assert(order[1] == Exception::ReservedValue);
    assert(order[2] == Exception::UnpredictableInstruction);
    assert(order[3] == Exception::WaitForInterrupt);
    assert(order[4] == Exception::WaitForEvent);
    assert(order[5] == Exception::SendEvent);
    assert(order[6] == Exception::SendEventLocal);
    assert(order[7] == Exception::Yield);
    assert(order[8] == Exception::Breakpoint);
    assert(order[9] == Exception::NoExecuteFault);
}

/// A data cache maintenance instruction.
#[derive(Clone, Copy, Debug, PartialEq, Eq, Structural)]
pub enum DataCacheOperation {
    /// DC CISW
    CleanAndInvalidateBySetWay,
    /// DC CIVAC
    CleanAndInvalidateByVAToPoC,
    /// DC CSW
    CleanBySetWay,
    /// DC CVAC
    CleanByVAToPoC,
    /// DC CVAU
    CleanByVAToPoU,
    /// DC CVAP
    CleanByVAToPoP,
    /// DC ISW
    InvalidateBySetWay,
    /// DC IVAC
    InvalidateByVAToPoC,
    /// DC ZVA
    ZeroByVA,
}

impl DataCacheOperation {
    /// The code that dynarmic uses for this value.
    pub open spec fn value(self) -> i32 {
        match self {
            DataCacheOperation::CleanAndInvalidateBySetWay => 0,
            DataCacheOperation::CleanAndInvalidateByVAToPoC => 1,
            DataCacheOperation::CleanBySetWay => 2,
            DataCacheOperation::CleanByVAToPoC => 3,
            DataCacheOperation::CleanByVAToPoU => 4,
            DataCacheOperation::CleanByVAToPoP => 5,
            DataCacheOperation::InvalidateBySetWay => 6,
            DataCacheOperation::InvalidateByVAToPoC => 7,
            DataCacheOperation::ZeroByVA => 8,
        }
    }

    /// The value that a dynarmic code stands for, if any.
    pub open spec fn from_value(code: i32) -> Option<DataCacheOperation> {
        if code == 0 {
            Some(DataCacheOperation::CleanAndInvalidateBySetWay)
        } else if code == 1 {
            Some(DataCacheOperation::CleanAndInvalidateByVAToPoC)
        } else if code == 2 {
            Some(DataCacheOperation::CleanBySetWay)
        } else if code == 3 {
            Some(DataCacheOperation::CleanByVAToPoC)
        } else if code == 4 {
            Some(DataCacheOperation::CleanByVAToPoU)
        } else if code == 5 {
            Some(DataCacheOperation::CleanByVAToPoP)
        } else if code == 6 {
            Some(DataCacheOperation::InvalidateBySetWay)
        } else if code == 7 {
            Some(DataCacheOperation::InvalidateByVAToPoC)
        } else if code == 8 {
            Some(DataCacheOperation::ZeroByVA)
        } else {
            None
        }
    }

    /// The code that dynarmic uses for this value.
    pub fn code(&self) -> (r: i32)
        ensures
            r == self.value(),
    {
        match self {
            DataCacheOperation::CleanAndInvalidateBySetWay => 0,
            DataCacheOperation::CleanAndInvalidateByVAToPoC => 1,
            DataCacheOperation::CleanBySetWay => 2,
            DataCacheOperation::CleanByVAToPoC => 3,
            DataCacheOperation::CleanByVAToPoU => 4,
            DataCacheOperation::CleanByVAToPoP => 5,
            DataCacheOperation::InvalidateBySetWay => 6,
            DataCacheOperation::InvalidateByVAToPoC => 7,
            DataCacheOperation::ZeroByVA => 8,
        }
    }

    /// The value that a dynarmic code stands for; `None` for a code outside 0..9.
    pub fn from_code(code: i32) -> (r: Option<DataCacheOperation>)
        ensures
            r == DataCacheOperation::from_value(code),
            r is Some <==> 0 <= code < 9,
    {
        if code == 0 {
            Some(DataCacheOperation::CleanAndInvalidateBySetWay)
        } else if code == 1 {
            Some(DataCacheOperation::CleanAndInvalidateByVAToPoC)
        } else if code == 2 {
            Some(DataCacheOperation::CleanBySetWay)
        } else if code == 3 {
            Some(DataCacheOperation::CleanByVAToPoC)
        } else if code == 4 {
            Some(DataCacheOperation::CleanByVAToPoU)
        } else if code == 5 {
            Some(DataCacheOperation::CleanByVAToPoP)
        } else if code == 6 {
            Some(DataCacheOperation::InvalidateBySetWay)
        } else if code == 7 {
            Some(DataCacheOperation::InvalidateByVAToPoC)
        } else if code == 8 {
            Some(DataCacheOperation::ZeroByVA)
        } else {
            None
        }
    }
}

/// The codes of `DataCacheOperation` are 9 distinct values: reading a value back from its
/// code gives the same value, and any code that is read back is that value's code.
pub proof fn law_data_cache_operation_code_roundtrip(e: DataCacheOperation, code: i32)
    ensures
        DataCacheOperation::from_value(e.value()) == Some(e),
        0 <= e.value() < 9,
        DataCacheOperation::from_value(code) matches Some(f) ==> f.value() == code,
{
}

/// The data cache operation codes are the discriminants of dynarmic's `A64::DataCacheOperation`.
/// Code `i` is the `i`-th of: CleanAndInvalidateBySetWay, CleanAndInvalidateByVAToPoC, CleanBySetWay, CleanByVAToPoC, CleanByVAToPoU, CleanByVAToPoP, InvalidateBySetWay, InvalidateByVAToPoC, ZeroByVA; no other code names a value.
pub proof fn law_data_cache_operation_codes_are_dynarmics(e: DataCacheOperation, i: int)
    ensures
        ({ let order = seq![DataCacheOperation::CleanAndInvalidateBySetWay, DataCacheOperation::CleanAndInvalidateByVAToPoC, DataCacheOperation::CleanBySetWay, DataCacheOperation::CleanByVAToPoC, DataCacheOperation::CleanByVAToPoU, DataCacheOperation::CleanByVAToPoP, DataCacheOperation::InvalidateBySetWay, DataCacheOperation::InvalidateByVAToPoC, DataCacheOperation::ZeroByVA]; 0 <= i < 9 ==> order[i].value() == i }),
        ({ let order = seq![DataCacheOperation::CleanAndInvalidateBySetWay, DataCacheOperation::CleanAndInvalidateByVAToPoC, DataCacheOperation::CleanBySetWay, DataCacheOperation::CleanByVAToPoC, DataCacheOperation::CleanByVAToPoU, DataCacheOperation::CleanByVAToPoP, DataCacheOperation::InvalidateBySetWay, DataCacheOperation::InvalidateByVAToPoC, DataCacheOperation::ZeroByVA]; 0 <= i < 9 ==> DataCacheOperation::from_value(i as i32) == Some(order[i]) }),
        ({ let order = seq![DataCacheOperation::CleanAndInvalidateBySetWay, DataCacheOperation::CleanAndInvalidateByVAToPoC, DataCacheOperation::CleanBySetWay, DataCacheOperation::CleanByVAToPoC, DataCacheOperation::CleanByVAToPoU, DataCacheOperation::CleanByVAToPoP, DataCacheOperation::InvalidateBySetWay, DataCacheOperation::InvalidateByVAToPoC, DataCacheOperation::ZeroByVA]; 0 <= e.value() < 9 && order[e.value() as int] == e }),
{
    let order = seq![DataCacheOperation::CleanAndInvalidateBySetWay, DataCacheOperation::CleanAndInvalidateByVAToPoC, DataCacheOperation::CleanBySetWay, DataCacheOperation::CleanByVAToPoC, DataCacheOperation::CleanByVAToPoU, DataCacheOperation::CleanByVAToPoP, DataCacheOperation::InvalidateBySetWay, DataCacheOperation::InvalidateByVAToPoC, DataCacheOperation::ZeroByVA];
    assert(order[0] == DataCacheOperation::CleanAndInvalidateBySetWay);
    assert(order[1] == DataCacheOperation::CleanAndInvalidateByVAToPoC);
    assert(order[2] == DataCacheOperation::CleanBySetWay);
    assert(order[3] == DataCacheOperation::CleanByVAToPoC);
    assert(order[4] == DataCacheOperation::CleanByVAToPoU);
    assert(order[5] == DataCacheOperation::CleanByVAToPoP);
    assert(order[6] == DataCacheOperation::InvalidateBySetWay);
    assert(order[7] == DataCacheOperation::InvalidateByVAToPoC);
    assert(order[8] == DataCacheOperation::ZeroByVA);
}

/// An instruction cache maintenance instruction.
#[derive(Clone, Copy, Debug, PartialEq, Eq, Structural)]
pub enum InstructionCacheOperation {
    /// IC IVAU
    InvalidateByVAToPoU,
    /// IC IALLU
    InvalidateAllToPoU,
    /// IC IALLUIS
    InvalidateAllToPoUInnerSharable,
}

impl InstructionCacheOperation {
    /// The code that dynarmic uses for this value.
    pub open spec fn value(self) -> i32 {
        match self {
            InstructionCacheOperation::InvalidateByVAToPoU => 0,
            InstructionCacheOperation::InvalidateAllToPoU => 1,
            InstructionCacheOperation::InvalidateAllToPoUInnerSharable => 2,
        }
    }

    /// The value that a dynarmic code stands for, if any.
    pub open spec fn from_value(code: i32) -> Option<InstructionCacheOperation> {
        if code == 0 {
            Some(InstructionCacheOperation::InvalidateByVAToPoU)
        } else if code == 1 {
            Some(InstructionCacheOperation::InvalidateAllToPoU)
        } else if code == 2 {
            Some(InstructionCacheOperation::InvalidateAllToPoUInnerSharable)
        } else {
            None
        }
    }

    /// The code that dynarmic uses for this value.
    pub fn code(&self) -> (r: i32)
        ensures
            r == self.value(),
    {
        match self {
            InstructionCacheOperation::InvalidateByVAToPoU => 0,
            InstructionCacheOperation::InvalidateAllToPoU => 1,
            InstructionCacheOperation::InvalidateAllToPoUInnerSharable => 2,
        }
    }

    /// The value that a dynarmic code stands for; `None` for a code outside 0..3.
    pub fn from_code(code: i32) -> (r: Option<InstructionCacheOperation>)
        ensures
            r == InstructionCacheOperation::from_value(code),
            r is Some <==> 0 <= code < 3,
    {
        if code == 0 {
            Some(InstructionCacheOperation::InvalidateByVAToPoU)
        } else if code == 1 {
            Some(InstructionCacheOperation::InvalidateAllToPoU)
        } else if code == 2 {
            Some(InstructionCacheOperation::InvalidateAllToPoUInnerSharable)
        } else {
            None
        }
    }
}

/// The codes of `InstructionCacheOperation` are 3 distinct values: reading a value back from its
/// code gives the same value, and any code that is read back is that value's code.
pub proof fn law_instruction_cache_operation_code_roundtrip(e: InstructionCacheOperation, code: i32)
    ensures
        InstructionCacheOperation::from_value(e.value()) == Some(e),
        0 <= e.value() < 3,
        InstructionCacheOperation::from_value(code) matches Some(f) ==> f.value() == code,
{
}

/// The instruction cache operation codes are the discriminants of dynarmic's `A64::InstructionCacheOperation`.
/// Code `i` is the `i`-th of: InvalidateByVAToPoU, InvalidateAllToPoU, InvalidateAllToPoUInnerSharable; no other code names a value.
pub proof fn law_instruction_cache_operation_codes_are_dynarmics(e: InstructionCacheOperation, i: int)
    ensures
        ({ let order = seq![InstructionCacheOperation::InvalidateByVAToPoU, InstructionCacheOperation::InvalidateAllToPoU, InstructionCacheOperation::InvalidateAllToPoUInnerSharable]; 0 <= i < 3 ==> order[i].value() == i }),
        ({ let order = seq![InstructionCacheOperation::InvalidateByVAToPoU, InstructionCacheOperation::InvalidateAllToPoU, InstructionCacheOperation::InvalidateAllToPoUInnerSharable]; 0 <= i < 3 ==> InstructionCacheOperation::from_value(i as i32) == Some(order[i]) }),
        ({ let order = seq![InstructionCacheOperation::InvalidateByVAToPoU, InstructionCacheOperation::InvalidateAllToPoU, InstructionCacheOperation::InvalidateAllToPoUInnerSharable]; 0 <= e.value() < 3 && order[e.value() as int] == e }),
{
    let order = seq![InstructionCacheOperation::InvalidateByVAToPoU, InstructionCacheOperation::InvalidateAllToPoU, InstructionCacheOperation::InvalidateAllToPoUInnerSharable];
    assert(order[0] == InstructionCacheOperation::InvalidateByVAToPoU);
    assert(order[1] == InstructionCacheOperation::InvalidateAllToPoU);
    assert(order[2] == InstructionCacheOperation::InvalidateAllToPoUInnerSharable);
}

/// A user callback of the A64 callback table, in the order that `UserCallbacksVTable::new` takes them.
#[derive(Clone, Copy, Debug, PartialEq, Eq, Structural)]
pub enum Slot {
    MemoryReadCode,
    MemoryRead8,
    MemoryRead16,
    MemoryRead32,
    MemoryRead64,
    MemoryRead128,
    MemoryWrite8,
    MemoryWrite16,
    MemoryWrite32,
    MemoryWrite64,
    MemoryWrite128,
    MemoryWriteExclusive8,
    MemoryWriteExclusive16,
    MemoryWriteExclusive32,
    MemoryWriteExclusive64,
    MemoryWriteExclusive128,
    IsReadonlyMemory,
    InterpreterFallback,
    CallSvc,
    ExceptionRaised,
    DataCacheOperationRaised,
    InstructionCacheOperationRaised,
    InstructionSynchronizationBarrierRaised,
    AddTicks,
    GetTicksRemaining,
    GetCntpct,
}

impl Slot {
    /// The code that dynarmic uses for this value.
    pub open spec fn value(self) -> i32 {
        match self {
            Slot::MemoryReadCode => 0,
            Slot::MemoryRead8 => 1,
            Slot::MemoryRead16 => 2,
            Slot::MemoryRead32 => 3,
            Slot::MemoryRead64 => 4,
            Slot::MemoryRead128 => 5,
            Slot::MemoryWrite8 => 6,
            Slot::MemoryWrite16 => 7,
            Slot::MemoryWrite32 => 8,
            Slot::MemoryWrite64 => 9,
            Slot::MemoryWrite128 => 10,
            Slot::MemoryWriteExclusive8 => 11,
            Slot::MemoryWriteExclusive16 => 12,
            Slot::MemoryWriteExclusive32 => 13,
            Slot::MemoryWriteExclusive64 => 14,
            Slot::MemoryWriteExclusive128 => 15,
            Slot::IsReadonlyMemory => 16,
            Slot::InterpreterFallback => 17,
            Slot::CallSvc => 18,
            Slot::ExceptionRaised => 19,
            Slot::DataCacheOperationRaised => 20,
            Slot::InstructionCacheOperationRaised => 21,
            Slot::InstructionSynchronizationBarrierRaised => 22,
            Slot::AddTicks => 23,
            Slot::GetTicksRemaining => 24,
            Slot::GetCntpct => 25,
        }
    }

    /// The value that a dynarmic code stands for, if any.
    pub open spec fn from_value(code: i32) -> Option<Slot> {
        if code == 0 {
            Some(Slot::MemoryReadCode)
        } else if code == 1 {
            Some(Slot::MemoryRead8)
        } else if code == 2 {
            Some(Slot::MemoryRead16)
        } else if code == 3 {
            Some(Slot::MemoryRead32)
        } else if code == 4 {
            Some(Slot::MemoryRead64)
        } else if code == 5 {
            Some(Slot::MemoryRead128)
        } else if code == 6 {
            Some(Slot::MemoryWrite8)
        } else if code == 7 {
            Some(Slot::MemoryWrite16)
        } else if code == 8 {
            Some(Slot::MemoryWrite32)
        } else if code == 9 {
            Some(Slot::MemoryWrite64)
        } else if code == 10 {
            Some(Slot::MemoryWrite128)
        } else if code == 11 {
            Some(Slot::MemoryWriteExclusive8)
        } else if code == 12 {
            Some(Slot::MemoryWriteExclusive16)
        } else if code == 13 {
            Some(Slot::MemoryWriteExclusive32)
        } else if code == 14 {
            Some(Slot::MemoryWriteExclusive64)
        } else if code == 15 {
            Some(Slot::MemoryWriteExclusive128)
        } else if code == 16 {
            Some(Slot::IsReadonlyMemory)
        } else if code == 17 {
            Some(Slot::InterpreterFallback)
        } else if code == 18 {
            Some(Slot::CallSvc)
        } else if code == 19 {
            Some(Slot::ExceptionRaised)
        } else if code == 20 {
            Some(Slot::DataCacheOperationRaised)
        } else if code == 21 {
            Some(Slot::InstructionCacheOperationRaised)
        } else if code == 22 {
            Some(Slot::InstructionSynchronizationBarrierRaised)
        } else if code == 23 {
            Some(Slot::AddTicks)
        } else if code == 24 {
            Some(Slot::GetTicksRemaining)
        } else if code == 25 {
            Some(Slot::GetCntpct)
        } else {
            None
        }
    }

    /// The code that dynarmic uses for this value.
    pub fn code(&self) -> (r: i32)
        ensures
            r == self.value(),
    {
        match self {
            Slot::MemoryReadCode => 0,
            Slot::MemoryRead8 => 1,
            Slot::MemoryRead16 => 2,
            Slot::MemoryRead32 => 3,
            Slot::MemoryRead64 => 4,
            Slot::MemoryRead128 => 5,
            Slot::MemoryWrite8 => 6,
            Slot::MemoryWrite16 => 7,
            Slot::MemoryWrite32 => 8,
            Slot::MemoryWrite64 => 9,
            Slot::MemoryWrite128 => 10,
            Slot::MemoryWriteExclusive8 => 11,
            Slot::MemoryWriteExclusive16 => 12,
            Slot::MemoryWriteExclusive32 => 13,
            Slot::MemoryWriteExclusive64 => 14,
            Slot::MemoryWriteExclusive128 => 15,
            Slot::IsReadonlyMemory => 16,
            Slot::InterpreterFallback => 17,
            Slot::CallSvc => 18,
            Slot::ExceptionRaised => 19,
            Slot::DataCacheOperationRaised => 20,
            Slot::InstructionCacheOperationRaised => 21,
            Slot::InstructionSynchronizationBarrierRaised => 22,
            Slot::AddTicks => 23,
            Slot::GetTicksRemaining => 24,
            Slot::GetCntpct => 25,
        }
    }

    /// The value that a dynarmic code stands for; `None` for a code outside 0..26.
    pub fn from_code(code: i32) -> (r: Option<Slot>)
        ensures
            r == Slot::from_value(code),
            r is Some <==> 0 <= code < 26,
    {
        if code == 0 {
            Some(Slot::MemoryReadCode)
        } else if code == 1 {
            Some(Slot::MemoryRead8)
        } else if code == 2 {
            Some(Slot::MemoryRead16)
        } else if code == 3 {
            Some(Slot::MemoryRead32)
        } else if code == 4 {
            Some(Slot::MemoryRead64)
        } else if code == 5 {
            Some(Slot::MemoryRead128)
        } else if code == 6 {
            Some(Slot::MemoryWrite8)
        } else if code == 7 {
            Some(Slot::MemoryWrite16)
        } else if code == 8 {
            Some(Slot::MemoryWrite32)
        } else if code == 9 {
            Some(Slot::MemoryWrite64)
        } else if code == 10 {
            Some(Slot::MemoryWrite128)
        } else if code == 11 {
            Some(Slot::MemoryWriteExclusive8)
        } else if code == 12 {
            Some(Slot::MemoryWriteExclusive16)
        } else if code == 13 {
            Some(Slot::MemoryWriteExclusive32)
        } else if code == 14 {
            Some(Slot::MemoryWriteExclusive64)
        } else if code == 15 {
            Some(Slot::MemoryWriteExclusive128)
        } else if code == 16 {
            Some(Slot::IsReadonlyMemory)
        } else if code == 17 {
            Some(Slot::InterpreterFallback)
        } else if code == 18 {
            Some(Slot::CallSvc)
        } else if code == 19 {
            Some(Slot::ExceptionRaised)
        } else if code == 20 {
            Some(Slot::DataCacheOperationRaised)
        } else if code == 21 {
            Some(Slot::InstructionCacheOperationRaised)
        } else if code == 22 {
            Some(Slot::InstructionSynchronizationBarrierRaised)
        } else if code == 23 {
            Some(Slot::AddTicks)
        } else if code == 24 {
            Some(Slot::GetTicksRemaining)
        } else if code == 25 {
            Some(Slot::GetCntpct)
        } else {
            None
        }
    }
}

/// The codes of `Slot` are 26 distinct values: reading a value back from its
/// code gives the same value, and any code that is read back is that value's code.
pub proof fn law_slot_code_roundtrip(e: Slot, code: i32)
    ensures
        Slot::from_value(e.value()) == Some(e),
        0 <= e.value() < 26,
        Slot::from_value(code) matches Some(f) ==> f.value() == code,
{
}

/// A slot's code is its position among the callback arguments of dynarmic's A64 `UserCallbacksVTable::new`.
/// Code `i` is the `i`-th of: MemoryReadCode, MemoryRead8, MemoryRead16, MemoryRead32, MemoryRead64, MemoryRead128, MemoryWrite8, MemoryWrite16, MemoryWrite32, MemoryWrite64, MemoryWrite128, MemoryWriteExclusive8, MemoryWriteExclusive16, MemoryWriteExclusive32, MemoryWriteExclusive64, MemoryWriteExclusive128, IsReadonlyMemory, InterpreterFallback, CallSvc, ExceptionRaised, DataCacheOperationRaised, InstructionCacheOperationRaised, InstructionSynchronizationBarrierRaised, AddTicks, GetTicksRemaining, GetCntpct; no other code names a value.
pub proof fn law_slot_codes_follow_the_callback_order(e: Slot, i: int)
    ensures
        ({ let order = seq![Slot::MemoryReadCode, Slot::MemoryRead8, Slot::MemoryRead16, Slot::MemoryRead32, Slot::MemoryRead64, Slot::MemoryRead128, Slot::MemoryWrite8, Slot::MemoryWrite16, Slot::MemoryWrite32, Slot::MemoryWrite64, Slot::MemoryWrite128, Slot::MemoryWriteExclusive8, Slot::MemoryWriteExclusive16, Slot::MemoryWriteExclusive32, Slot::MemoryWriteExclusive64, Slot::MemoryWriteExclusive128, Slot::IsReadonlyMemory, Slot::InterpreterFallback, Slot::CallSvc, Slot::ExceptionRaised, Slot::DataCacheOperationRaised, Slot::InstructionCacheOperationRaised, Slot::InstructionSynchronizationBarrierRaised, Slot::AddTicks, Slot::GetTicksRemaining, Slot::GetCntpct]; 0 <= i < 26 ==> order[i].value() == i }),
        ({ let order = seq![Slot::MemoryReadCode, Slot::MemoryRead8, Slot::MemoryRead16, Slot::MemoryRead32, Slot::MemoryRead64, Slot::MemoryRead128, Slot::MemoryWrite8, Slot::MemoryWrite16, Slot::MemoryWrite32, Slot::MemoryWrite64, Slot::MemoryWrite128, Slot::MemoryWriteExclusive8, Slot::MemoryWriteExclusive16, Slot::MemoryWriteExclusive32, Slot::MemoryWriteExclusive64, Slot::MemoryWriteExclusive128, Slot::IsReadonlyMemory, Slot::InterpreterFallback, Slot::CallSvc, Slot::ExceptionRaised, Slot::DataCacheOperationRaised, Slot::InstructionCacheOperationRaised, Slot::InstructionSynchronizationBarrierRaised, Slot::AddTicks, Slot::GetTicksRemaining, Slot::GetCntpct]; 0 <= i < 26 ==> Slot::from_value(i as i32) == Some(order[i]) }),
        ({ let order = seq![Slot::MemoryReadCode, Slot::MemoryRead8, Slot::MemoryRead16, Slot::MemoryRead32, Slot::MemoryRead64, Slot::MemoryRead128, Slot::MemoryWrite8, Slot::MemoryWrite16, Slot::MemoryWrite32, Slot::MemoryWrite64, Slot::MemoryWrite128, Slot::MemoryWriteExclusive8, Slot::MemoryWriteExclusive16, Slot::MemoryWriteExclusive32, Slot::MemoryWriteExclusive64, Slot::MemoryWriteExclusive128, Slot::IsReadonlyMemory, Slot::InterpreterFallback, Slot::CallSvc, Slot::ExceptionRaised, Slot::DataCacheOperationRaised, Slot::InstructionCacheOperationRaised, Slot::InstructionSynchronizationBarrierRaised, Slot::AddTicks, Slot::GetTicksRemaining, Slot::GetCntpct]; 0 <= e.value() < 26 && order[e.value() as int] == e }),
{
    let order = seq![Slot::MemoryReadCode, Slot::MemoryRead8, Slot::MemoryRead16, Slot::MemoryRead32, Slot::MemoryRead64, Slot::MemoryRead128, Slot::MemoryWrite8, Slot::MemoryWrite16, Slot::MemoryWrite32, Slot::MemoryWrite64, Slot::MemoryWrite128, Slot::MemoryWriteExclusive8, Slot::MemoryWriteExclusive16, Slot::MemoryWriteExclusive32, Slot::MemoryWriteExclusive64, Slot::MemoryWriteExclusive128, Slot::IsReadonlyMemory, Slot::InterpreterFallback, Slot::CallSvc, Slot::ExceptionRaised, Slot::DataCacheOperationRaised, Slot::InstructionCacheOperationRaised, Slot::InstructionSynchronizationBarrierRaised, Slot::AddTicks, Slot::GetTicksRemaining, Slot::GetCntpct];
    assert(order[0] == Slot::MemoryReadCode);
    assert(order[1] == Slot::MemoryRead8);
    assert(order[2] == Slot::MemoryRead16);
    assert(order[3] == Slot::MemoryRead32);
    assert(order[4] == Slot::MemoryRead64);
    assert(order[5] == Slot::MemoryRead128);
    assert(order[6] == Slot::MemoryWrite8);
    assert(order[7] == Slot::MemoryWrite16);
    assert(order[8] == Slot::MemoryWrite32);
    assert(order[9] == Slot::MemoryWrite64);
    assert(order[10] == Slot::MemoryWrite128);
    assert(order[11] == Slot::MemoryWriteExclusive8);
    assert(order[12] == Slot::MemoryWriteExclusive16);
    assert(order[13] == Slot::MemoryWriteExclusive32);
    assert(order[14] == Slot::MemoryWriteExclusive64);
    assert(order[15] == Slot::MemoryWriteExclusive128);
    assert(order[16] == Slot::IsReadonlyMemory);
    assert(order[17] == Slot::InterpreterFallback);
    assert(order[18] == Slot::CallSvc);
    assert(order[19] == Slot::ExceptionRaised);
    assert(order[20] == Slot::DataCacheOperationRaised);
    assert(order[21] == Slot::InstructionCacheOperationRaised);
    assert(order[22] == Slot::InstructionSynchronizationBarrierRaised);
    assert(order[23] == Slot::AddTicks);
    assert(order[24] == Slot::GetTicksRemaining);
    assert(order[25] == Slot::GetCntpct);
}

impl Slot {
    /// What dynarmic's callback table holds for this slot when the user gives no callback.
    pub open spec fn default_behaviour(self) -> Option<Fallback> {
        match self {
            Slot::MemoryReadCode => Some(Fallback::ReadCodeThroughRead32),
            Slot::MemoryRead8 => None,
            Slot::MemoryRead16 => None,
            Slot::MemoryRead32 => None,
            Slot::MemoryRead64 => None,
            Slot::MemoryRead128 => None,
            Slot::MemoryWrite8 => None,
            Slot::MemoryWrite16 => None,
            Slot::MemoryWrite32 => None,
            Slot::MemoryWrite64 => None,
            Slot::MemoryWrite128 => None,
            Slot::MemoryWriteExclusive8 => Some(Fallback::ReturnFalse),
            Slot::MemoryWriteExclusive16 => Some(Fallback::ReturnFalse),
            Slot::MemoryWriteExclusive32 => Some(Fallback::ReturnFalse),
            Slot::MemoryWriteExclusive64 => Some(Fallback::ReturnFalse),
            Slot::MemoryWriteExclusive128 => Some(Fallback::ReturnFalse),
            Slot::IsReadonlyMemory => Some(Fallback::ReturnFalse),
            Slot::InterpreterFallback => Some(Fallback::PanicOnUnhandledInstruction),
            Slot::CallSvc => Some(Fallback::PanicOnSupervisorCall),
            Slot::ExceptionRaised => Some(Fallback::PanicOnException),
            Slot::DataCacheOperationRaised => Some(Fallback::DoNothing),
            Slot::InstructionCacheOperationRaised => Some(Fallback::DoNothing),
            Slot::InstructionSynchronizationBarrierRaised => Some(Fallback::DoNothing),
            Slot::AddTicks => None,
            Slot::GetTicksRemaining => None,
            Slot::GetCntpct => None,
        }
    }

    /// What dynarmic's callback table holds for this slot when the user gives no callback.
    pub fn fallback(&self) -> (r: Option<Fallback>)
        ensures
            r == self.default_behaviour(),
    {
        match self {
            Slot::MemoryReadCode => Some(Fallback::ReadCodeThroughRead32),
            Slot::MemoryRead8 => None,
            Slot::MemoryRead16 => None,
            Slot::MemoryRead32 => None,
            Slot::MemoryRead64 => None,
            Slot::MemoryRead128 => None,
            Slot::MemoryWrite8 => None,
            Slot::MemoryWrite16 => None,
            Slot::MemoryWrite32 => None,
            Slot::MemoryWrite64 => None,
            Slot::MemoryWrite128 => None,
            Slot::MemoryWriteExclusive8 => Some(Fallback::ReturnFalse),
            Slot::MemoryWriteExclusive16 => Some(Fallback::ReturnFalse),
            Slot::MemoryWriteExclusive32 => Some(Fallback::ReturnFalse),
            Slot::MemoryWriteExclusive64 => Some(Fallback::ReturnFalse),
            Slot::MemoryWriteExclusive128 => Some(Fallback::ReturnFalse),
            Slot::IsReadonlyMemory => Some(Fallback::ReturnFalse),
            Slot::InterpreterFallback => Some(Fallback::PanicOnUnhandledInstruction),
            Slot::CallSvc => Some(Fallback::PanicOnSupervisorCall),
            Slot::ExceptionRaised => Some(Fallback::PanicOnException),
            Slot::DataCacheOperationRaised => Some(Fallback::DoNothing),
            Slot::InstructionCacheOperationRaised => Some(Fallback::DoNothing),
            Slot::InstructionSynchronizationBarrierRaised => Some(Fallback::DoNothing),
            Slot::AddTicks => None,
            Slot::GetTicksRemaining => None,
            Slot::GetCntpct => None,
        }
    }
}

/// The A64 callback table that dynarmic calls into, as what each of its 26 user slots
/// (indexed by `Slot::code`) holds: a given function, a fallback's function, or nothing.
pub struct UserCallbacksVTable<F> {
    pub slots: [Option<Entry<F>>; 26],
}

impl<F: Copy> UserCallbacksVTable<F> {
    /// What one slot holds.
    pub open spec fn entry(self, slot: Slot) -> Option<Entry<F>> {
        self.slots@[slot.value() as int]
    }

    /// The table is what filling the slots `given` (indexed by `Slot::code`) gives.
    pub open spec fn built_from(self, given: Seq<Option<Entry<F>>>) -> bool {
        forall|i: int|
            0 <= i < 26 ==> #[trigger] self.slots@[i] == fill_spec(
                given[i],
                Slot::from_value(i as i32).unwrap().default_behaviour(),
            )
    }

    /// Builds the table from the functions given for each slot (`given[Slot::code]`): a
    /// given function is kept, an empty slot gets the slot's fallback where it has one.
    pub fn new(given: [Option<Entry<F>>; 26]) -> (r: UserCallbacksVTable<F>)
        ensures
            r.built_from(given@),
            forall|s: Slot|
                #![trigger r.entry(s)]
                r.entry(s) == fill_spec(given@[s.value() as int], s.default_behaviour()),
    {
        let mut slots: [Option<Entry<F>>; 26] = [None; 26];
        let mut i: usize = 0;
        while i < 26
            invariant
                0 <= i <= 26,
                forall|j: int|
                    0 <= j < i ==> #[trigger] slots@[j] == fill_spec(
                        given@[j],
                        Slot::from_value(j as i32).unwrap().default_behaviour(),
                    ),
            decreases 26 - i,
        {
            let slot = Slot::from_code(i as i32).unwrap();
            slots[i] = fill(given[i], slot.fallback());
            i = i + 1;
        }
        proof {
            assert forall|s: Slot| #![trigger s.value()]
                slots@[s.value() as int] == fill_spec(given@[s.value() as int], s.default_behaviour()) by {
                law_slot_code_roundtrip(s, s.value());
            }
        }
        UserCallbacksVTable { slots }
    }
}

/// Building a table from the slots of a table that was itself built changes nothing: every
/// slot that can get a fallback already holds a function, and given functions are kept.
pub proof fn law_rebuilding_a_built_table_changes_nothing<F: Copy>(
    t: UserCallbacksVTable<F>,
    u: UserCallbacksVTable<F>,
    given: Seq<Option<Entry<F>>>,
)
    requires
        t.built_from(given),
        u.built_from(t.slots@),
    ensures
        u.slots@ == t.slots@,
{
    assert forall|i: int| 0 <= i < 26 implies #[trigger] u.slots@[i] == t.slots@[i] by {
        assert(u.slots@[i] == fill_spec(t.slots@[i], Slot::from_value(i as i32).unwrap().default_behaviour()));
    }
    assert(u.slots@ =~= t.slots@);
}

/// The fallbacks of dynarmic's A64 callback table, slot by slot in the order of the callback
/// arguments: MemoryReadCode ReadCodeThroughRead32; MemoryRead8 none; MemoryRead16 none; MemoryRead32 none; MemoryRead64 none; MemoryRead128 none; MemoryWrite8 none; MemoryWrite16 none; MemoryWrite32 none; MemoryWrite64 none; MemoryWrite128 none; MemoryWriteExclusive8 ReturnFalse; MemoryWriteExclusive16 ReturnFalse; MemoryWriteExclusive32 ReturnFalse; MemoryWriteExclusive64 ReturnFalse; MemoryWriteExclusive128 ReturnFalse; IsReadonlyMemory ReturnFalse; InterpreterFallback PanicOnUnhandledInstruction; CallSvc PanicOnSupervisorCall; ExceptionRaised PanicOnException; DataCacheOperationRaised DoNothing; InstructionCacheOperationRaised DoNothing; InstructionSynchronizationBarrierRaised DoNothing; AddTicks none; GetTicksRemaining none; GetCntpct none.
/// An empty slot of a built table holds its fallback's function, or nothing where it has none.
pub proof fn law_empty_slots_get_dynarmics_fallbacks<F: Copy>(
    t: UserCallbacksVTable<F>,
    given: Seq<Option<Entry<F>>>,
    i: int,
    s: Slot,
)
    requires
        t.built_from(given),
        0 <= i < 26,
        given[i] is None,
    ensures
        ({ let fallbacks: Seq<Option<Fallback>> = seq![Some(Fallback::ReadCodeThroughRead32), None, None, None, None, None, None, None, None, None, None, Some(Fallback::ReturnFalse), Some(Fallback::ReturnFalse), Some(Fallback::ReturnFalse), Some(Fallback::ReturnFalse), Some(Fallback::ReturnFalse), Some(Fallback::ReturnFalse), Some(Fallback::PanicOnUnhandledInstruction), Some(Fallback::PanicOnSupervisorCall), Some(Fallback::PanicOnException), Some(Fallback::DoNothing), Some(Fallback::DoNothing), Some(Fallback::DoNothing), None, None, None]; t.slots@[i] == match fallbacks[i] { Some(f) => Some(Entry::<F>::Fallback(f)), None => None } }),
        ({ let fallbacks: Seq<Option<Fallback>> = seq![Some(Fallback::ReadCodeThroughRead32), None, None, None, None, None, None, None, None, None, None, Some(Fallback::ReturnFalse), Some(Fallback::ReturnFalse), Some(Fallback::ReturnFalse), Some(Fallback::ReturnFalse), Some(Fallback::ReturnFalse), Some(Fallback::ReturnFalse), Some(Fallback::PanicOnUnhandledInstruction), Some(Fallback::PanicOnSupervisorCall), Some(Fallback::PanicOnException), Some(Fallback::DoNothing), Some(Fallback::DoNothing), Some(Fallback::DoNothing), None, None, None]; s.default_behaviour() == fallbacks[s.value() as int] }),
{
    let fallbacks: Seq<Option<Fallback>> = seq![Some(Fallback::ReadCodeThroughRead32), None, None, None, None, None, None, None, None, None, None, Some(Fallback::ReturnFalse), Some(Fallback::ReturnFalse), Some(Fallback::ReturnFalse), Some(Fallback::ReturnFalse), Some(Fallback::ReturnFalse), Some(Fallback::ReturnFalse), Some(Fallback::PanicOnUnhandledInstruction), Some(Fallback::PanicOnSupervisorCall), Some(Fallback::PanicOnException), Some(Fallback::DoNothing), Some(Fallback::DoNothing), Some(Fallback::DoNothing), None, None, None];
    assert(fallbacks[0] == Some(Fallback::ReadCodeThroughRead32));
    assert(fallbacks[1] == None::<Fallback>);
    assert(fallbacks[2] == None::<Fallback>);
    assert(fallbacks[3] == None::<Fallback>);
    assert(fallbacks[4] == None::<Fallback>);
    assert(fallbacks[5] == None::<Fallback>);
    assert(fallbacks[6] == None::<Fallback>);
    assert(fallbacks[7] == None::<Fallback>);
    assert(fallbacks[8] == None::<Fallback>);
    assert(fallbacks[9] == None::<Fallback>);
    assert(fallbacks[10] == None::<Fallback>);
    assert(fallbacks[11] == Some(Fallback::ReturnFalse));
    assert(fallbacks[12] == Some(Fallback::ReturnFalse));
    assert(fallbacks[13] == Some(Fallback::ReturnFalse));
    assert(fallbacks[14] == Some(Fallback::ReturnFalse));
    assert(fallbacks[15] == Some(Fallback::ReturnFalse));
    assert(fallbacks[16] == Some(Fallback::ReturnFalse));
    assert(fallbacks[17] == Some(Fallback::PanicOnUnhandledInstruction));
    assert(fallbacks[18] == Some(Fallback::PanicOnSupervisorCall));
    assert(fallbacks[19] == Some(Fallback::PanicOnException));
    assert(fallbacks[20] == Some(Fallback::DoNothing));
    assert(fallbacks[21] == Some(Fallback::DoNothing));
    assert(fallbacks[22] == Some(Fallback::DoNothing));
    assert(fallbacks[23] == None::<Fallback>);
    assert(fallbacks[24] == None::<Fallback>);
    assert(fallbacks[25] == None::<Fallback>);
    assert(t.slots@[i] == fill_spec(given[i], Slot::from_value(i as i32).unwrap().default_behaviour()));
}

/// A slot that was given a function keeps exactly that function in the built table.
pub proof fn law_given_slots_are_kept<F: Copy>(t: UserCallbacksVTable<F>, given: Seq<Option<Entry<F>>>, i: int)
    requires
        t.built_from(given),
        0 <= i < 26,
        given[i] is Some,
    ensures
        t.slots@[i] == given[i],
{
    assert(t.slots@[i] == fill_spec(given[i], Slot::from_value(i as i32).unwrap().default_behaviour()));
}

/// A guest virtual address.
pub type VAddr = u64;

/// The W view of an X register: its low 32 bits.
pub fn low_word(x: u64) -> (r: u32)
    ensures
        r == x % 0x1_0000_0000,
{
    let m: u64 = x & 0xFFFF_FFFF;
    assert(m == x % 0x1_0000_0000 && m < 0x1_0000_0000) by (bit_vector)
        requires m == x & 0xFFFF_FFFF;
    m as u32
}

/// An A64 JIT configuration under construction, with the callbacks it will use.
pub struct Config<T> {
    pub config: A64Config,
    pub cb: Box<T>,
}

impl<T> Config<T> {
    /// A configuration with the default A64 settings and these callbacks.
    pub fn new(cb: T) -> (r: Self)
        ensures
            r.config.is_default(),
            *r.cb == cb,
    {
        Config { config: A64Config::new(), cb: Box::new(cb) }
    }

    /// Sets the processor id.
    pub fn processor_id(&mut self, id: usize) -> (r: &mut Self)
        ensures
            r.config == (A64Config { processor_id: id, ..old(self).config }),
            r.cb == old(self).cb,
            *final(self) == *final(r),
    {
        self.config.processor_id = id;
        self
    }

    /// Sets the fastmem pointer: the start of a 2^`address_space_bits` bytes host arena laid
    /// out like emulated memory; whether dynarmic recompiles without fastmem when a page
    /// fault is reached; and whether accesses off the end of the arena mirror it (otherwise
    /// they go to the memory callbacks).
    pub fn fastmem(
        &mut self,
        ptr: usize,
        address_space_bits: usize,
        recompile_on_fault: bool,
        silently_mirror: bool,
    ) -> (r: &mut Self)
        ensures
            r.config == (A64Config {
                fastmem_pointer: CxxOptional { value: Some(ptr) },
                fastmem_address_space_bits: address_space_bits,
                recompile_on_fastmem_failure: recompile_on_fault,
                silently_mirror_fastmem: silently_mirror,
                ..old(self).config
            }),
            r.cb == old(self).cb,
            *final(self) == *final(r),
    {
        self.config = A64Config {
            fastmem_pointer: CxxOptional::from(ptr),
            fastmem_address_space_bits: address_space_bits,
            recompile_on_fastmem_failure: recompile_on_fault,
            silently_mirror_fastmem: silently_mirror,
            ..self.config
        };
        self
    }

    /// Sets whether dynarmic uses the fastmem pointer for exclusive reads and writes, and
    /// whether it recompiles without fastmem when a page fault is reached there.
    pub fn fastmem_exclusive(&mut self, exclusive_access: bool, recompile_on_fault: bool)
        ensures
            final(self).config == (A64Config {
                fastmem_exclusive_access: exclusive_access,
                recompile_on_exclusive_fastmem_failure: recompile_on_fault,
                ..old(self).config
            }),
            final(self).cb == old(self).cb,
    {
        self.config.fastmem_exclusive_access = exclusive_access;
        self.config.recompile_on_exclusive_fastmem_failure = recompile_on_fault;
    }
}

} // verus!
