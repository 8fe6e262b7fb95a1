use vstd::prelude::*;

verus! {

/// How one encoding run can fail. The three cases follow the three
/// stages of a run: the module bytes are attached first, then the
/// adapter bytes under their name, and finally the composed component
/// is emitted and validated.
#[derive(Clone, Copy, Debug, PartialEq, Eq, Structural)]
pub enum EncodeError {
    /// The module bytes were not accepted as a core WebAssembly module.
    Decode,
    /// The adapter bytes were not accepted as an adapter for the
    /// attached module under the given adapter name.
    AdapterMismatch,
    /// Composing the accepted module and adapter did not produce a
    /// component that passes validation.
    Validation,
}

impl EncodeError {
    /// A short description of the failure, for reporting at the exit
    /// of a run.
    pub fn message(&self) -> (r: &'static str)
        ensures
            r@ == match *self {
                EncodeError::Decode => "input does not decode as a core wasm module"@,
                EncodeError::AdapterMismatch => "adapter was not accepted under the expected name"@,
                EncodeError::Validation => "composed component failed encoding or validation"@,
            },
    {
        match *self {
            EncodeError::Decode => "input does not decode as a core wasm module",
            EncodeError::AdapterMismatch => "adapter was not accepted under the expected name",
            EncodeError::Validation => "composed component failed encoding or validation",
        }
    }
}

} // verus!
