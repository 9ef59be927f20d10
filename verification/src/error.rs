use vstd::prelude::*;

verus! {

/// The failure kinds of the library. Every fallible native call is checked
/// immediately at its call site and its primitive result is collapsed into
/// exactly one of these; no retries happen anywhere, and no failure carries a
/// finer classification than the native layer itself provides.
#[derive(Clone, Copy, Debug, PartialEq, Eq, Structural)]
pub enum Error {
    /// The text is not representable in the native string form (it holds an
    /// embedded NUL character).
    EncodingError,
    /// The native loader reported no model (a null handle). The native layer
    /// does not distinguish a missing file, a bad format, or incompatible
    /// parameters, so neither does this kind.
    LoadFailed,
    /// The native layer reported no inference context (a null handle).
    CreationFailed,
    /// The native tokenizer reported a non-positive length. This conflates
    /// "buffer too small" and "malformed input": the native layer reports
    /// both the same way, and that ambiguity is preserved rather than guessed
    /// at.
    TokenizeFailed,
    /// The native evaluation returned a non-zero code.
    EvalFailed,
}

} // verus!
