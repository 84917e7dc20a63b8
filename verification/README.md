# dynarmic

Rust bindings to the dynarmic ARM dynamic recompiler, split in two:

- `src/` is a Verus-verified library holding the plain-value logic of the bindings:
  the optimization flag set (`OptimizationFlag`), halt reasons and their mask bits,
  the exception / architecture / cache-operation codes that cross the C++ boundary,
  the A32 register file (R13 is SP, R15 is PC) and the W view of A64 registers,
  the A32 and A64 configuration defaults and builders, C++ `std::optional` contents,
  and which fallback each empty slot of dynarmic's callback table receives.
- `app/` holds what only the C++ side can do: the `repr(C)` layouts, the `extern "C"`
  calls into dynarmic, the `Callbacks` traits whose methods dynarmic calls through its
  vtable, the JIT objects, the exclusive monitor, and the lower-level binding API.
- `tests/` runs the verified library on concrete values.
