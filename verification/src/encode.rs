//! One encoding run: attach the module, attach the adapter, emit and
//! validate the component, and report the first failure.

use vstd::prelude::*;

use crate::encoder::adapter_accepted;
use crate::encoder::component_valid;
use crate::encoder::encode_result;
use crate::encoder::encoder_adapter;
use crate::encoder::encoder_encode;
use crate::encoder::encoder_module;
use crate::encoder::encoder_new;
use crate::encoder::encoder_set_validate;
use crate::encoder::module_accepted;
use crate::encoder::no_adapters;
use crate::encoder::provider_adapter;
use crate::encoder::provider_adapter_name;
use crate::encoder::provider_command_adapter;
use crate::error::EncodeError;

verus! {

/// The adapter name that the default adapter is attached under.
pub open spec fn default_adapter_name() -> Seq<char> {
    "wasi_snapshot_preview1"@
}

/// The bytes of the default adapter: the command adapter embedded in
/// the provider crate.
pub open spec fn default_adapter_bytes() -> Seq<u8> {
    provider_adapter("command"@)
}

/// The outcome of one encoding run on the given module bytes, adapter
/// name and adapter bytes: the component bytes on success, and
/// otherwise the error of the first stage that fails. Every run
/// attaches exactly one module and exactly one adapter and validates
/// its output, so the outcome is a function of these three inputs
/// alone.
pub open spec fn encode_outcome(m: Seq<u8>, name: Seq<char>, a: Seq<u8>) -> Result<
    Seq<u8>,
    EncodeError,
> {
    if !module_accepted(m) {
        Err(EncodeError::Decode)
    } else if !adapter_accepted(m, name, a) {
        Err(EncodeError::AdapterMismatch)
    } else {
        match encode_result(m, no_adapters().insert(name, a)) {
            Some(c) => Ok(c),
            None => Err(EncodeError::Validation),
        }
    }
}

/// Compose one core module with one adapter into a component.
///
/// The run is a single pass through the encoder: a fresh encoder is
/// given the module bytes, then the adapter bytes under `adapter_name`,
/// then emits the component with validation on. The result is exactly
/// `encode_outcome` on the three inputs: success if and only if every
/// stage accepts, the error of the first failing stage otherwise, and
/// on success the returned bytes passed component validation.
pub fn encode_component(module: &Vec<u8>, adapter_name: &str, adapter: &Vec<u8>) -> (r: Result<
    Vec<u8>,
    EncodeError,
>)
    ensures
        (match r {
            Ok(out) => encode_outcome(module@, adapter_name@, adapter@) == Ok::<
                Seq<u8>,
                EncodeError,
            >(out@),
            Err(e) => encode_outcome(module@, adapter_name@, adapter@) == Err::<
                Seq<u8>,
                EncodeError,
            >(e),
        }),
        r is Ok ==> component_valid(r->Ok_0@),
{
    let enc = encoder_new();
    let enc = match encoder_module(enc, module) {
        Ok(next) => next,
        Err(_) => {
            return Err(EncodeError::Decode);
        },
    };
    let enc = match encoder_adapter(enc, adapter_name, adapter) {
        Ok(next) => next,
        Err(_) => {
            return Err(EncodeError::AdapterMismatch);
        },
    };
    let enc = encoder_set_validate(enc, true);
    match encoder_encode(enc) {
        Ok(bytes) => Ok(bytes),
        Err(_) => Err(EncodeError::Validation),
    }
}

/// Compose one core module with the default adapter: the embedded
/// command adapter under its fixed name: into a component. The result
/// is exactly `encode_outcome` on the module and the default adapter.
pub fn encode_component_default_adapter(module: &Vec<u8>) -> (r: Result<Vec<u8>, EncodeError>)
    ensures
        (match r {
            Ok(out) => encode_outcome(module@, default_adapter_name(), default_adapter_bytes())
                == Ok::<Seq<u8>, EncodeError>(out@),
            Err(e) => encode_outcome(module@, default_adapter_name(), default_adapter_bytes())
                == Err::<Seq<u8>, EncodeError>(e),
        }),
        r is Ok ==> component_valid(r->Ok_0@),
{
    let name = provider_adapter_name();
    let adapter = provider_command_adapter();
    encode_component(module, name, &adapter)
}

/// A module and an adapter that every stage accepts encode
/// successfully, and the bytes of the outcome are the composed
/// component.
pub proof fn lemma_accepted_inputs_encode(m: Seq<u8>, name: Seq<char>, a: Seq<u8>)
    requires
        module_accepted(m),
        adapter_accepted(m, name, a),
        encode_result(m, no_adapters().insert(name, a)) is Some,
    ensures
        encode_outcome(m, name, a) is Ok,
        encode_outcome(m, name, a)->Ok_0 == encode_result(m, no_adapters().insert(name, a))->0,
{
}

/// A byte sequence that is not accepted as a core module fails with
/// the decode error, whatever adapter name and adapter bytes stand
/// beside it: no other error, and no output, is possible for it.
pub proof fn lemma_rejected_module_fails_decode(m: Seq<u8>, name: Seq<char>, a: Seq<u8>)
    requires
        !module_accepted(m),
    ensures
        encode_outcome(m, name, a) is Err,
        encode_outcome(m, name, a)->Err_0 == EncodeError::Decode,
{
}

/// Adapter bytes that are not accepted under the given name beside an
/// accepted module fail with the adapter mismatch error: no other
/// error, and no output, is possible for them.
pub proof fn lemma_rejected_adapter_fails_mismatch(m: Seq<u8>, name: Seq<char>, a: Seq<u8>)
    requires
        module_accepted(m),
        !adapter_accepted(m, name, a),
    ensures
        encode_outcome(m, name, a) is Err,
        encode_outcome(m, name, a)->Err_0 == EncodeError::AdapterMismatch,
{
}

/// Output bytes exist only for inputs that every stage accepts: a
/// successful outcome means the module bytes were accepted as a core
/// module, the adapter bytes were accepted under their name, and the
/// composed component passed validation.
pub proof fn lemma_output_only_for_accepted_inputs(m: Seq<u8>, name: Seq<char>, a: Seq<u8>)
    requires
        encode_outcome(m, name, a) is Ok,
    ensures
        module_accepted(m),
        adapter_accepted(m, name, a),
        encode_result(m, no_adapters().insert(name, a)) is Some,
{
}

/// Encoding is deterministic: any two outcomes that the encoding
/// contract allows for the same module bytes, adapter name and adapter
/// bytes are equal, byte for byte.
pub proof fn lemma_encode_deterministic(
    m: Seq<u8>,
    name: Seq<char>,
    a: Seq<u8>,
    r1: Result<Seq<u8>, EncodeError>,
    r2: Result<Seq<u8>, EncodeError>,
)
    requires
        r1 == encode_outcome(m, name, a),
        r2 == encode_outcome(m, name, a),
    ensures
        r1 == r2,
{
}

} // verus!
