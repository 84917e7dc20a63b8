use vstd::prelude::*;

verus! {

/// The contents of a C++ `std::optional<T>`: either engaged with a value or empty.
#[derive(Clone, Copy, Debug, PartialEq, Eq)]
pub struct CxxOptional<T> {
    pub value: Option<T>,
}

impl From<usize> for CxxOptional<usize> {
    /// An optional engaged with `value`.
    fn from(value: usize) -> (r: Self) {
        CxxOptional { value: Some(value) }
    }
}

impl vstd::std_specs::convert::FromSpecImpl<usize> for CxxOptional<usize> {
    open spec fn obeys_from_spec() -> bool {
        true
    }

    open spec fn from_spec(v: usize) -> Self {
        CxxOptional { value: Some(v) }
    }
}

impl From<u64> for CxxOptional<usize> {
    /// An optional engaged with `value` taken as an address-sized integer.
    fn from(value: u64) -> (r: Self) {
        CxxOptional { value: Some(value as usize) }
    }
}

impl vstd::std_specs::convert::FromSpecImpl<u64> for CxxOptional<usize> {
    open spec fn obeys_from_spec() -> bool {
        true
    }

    open spec fn from_spec(v: u64) -> Self {
        CxxOptional { value: Some(v as usize) }
    }
}

impl From<u32> for CxxOptional<u32> {
    /// An optional engaged with `value`.
    fn from(value: u32) -> (r: Self) {
        CxxOptional { value: Some(value) }
    }
}

impl vstd::std_specs::convert::FromSpecImpl<u32> for CxxOptional<u32> {
    open spec fn obeys_from_spec() -> bool {
        true
    }

    open spec fn from_spec(v: u32) -> Self {
        CxxOptional { value: Some(v) }
    }
}

/// What the JIT receives from a code fetch through a user's `memory_read_code`: the fetched
/// word, engaged, or an empty optional when the fetch gave nothing (which dynarmic answers
/// with a no-execute fault).
pub fn code_read_result(read: Option<u32>) -> (r: CxxOptional<u32>)
    ensures
        r.value == read,
{
    match read {
        Some(word) => CxxOptional::from(word),
        None => CxxOptional { value: None },
    }
}

/// Converting a plain value gives an optional engaged with exactly that value (a `u64` taken
/// as an address-sized integer).
pub proof fn law_optional_from_is_engaged(a: usize, b: u64, c: u32)
    ensures
        <CxxOptional<usize> as vstd::std_specs::convert::FromSpec<usize>>::from_spec(a).value == Some(a),
        <CxxOptional<usize> as vstd::std_specs::convert::FromSpec<u64>>::from_spec(b).value == Some(b as usize),
        <CxxOptional<u32> as vstd::std_specs::convert::FromSpec<u32>>::from_spec(c).value == Some(c),
{
}

/// The contents of a C++ `std::optional<T>`, under the name that dynarmic's generated bindings use.
#[allow(non_camel_case_types)]
pub type cpp_optional<T> = CxxOptional<T>;

} // verus!
