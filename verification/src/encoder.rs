//! The trusted boundary around the outside encoder.
//!
//! Everything the library states about an encoding run is phrased over
//! a small model of `wit_component::ComponentEncoder`: the module bytes
//! it was given, the adapter bytes it was given under their name, and
//! whether it validates its output. The wrappers below carry that model;
//! their contracts are believed, not proved, and each doc comment names
//! the outside item it relies on.

use vstd::prelude::*;

verus! {

#[verifier::external_type_specification]
#[verifier::external_body]
pub struct ExComponentEncoder(wit_component::ComponentEncoder);

#[verifier::external_type_specification]
#[verifier::external_body]
pub struct ExAnyhowError(anyhow::Error);

/// The adapter map of an encoder that holds no adapters.
pub open spec fn no_adapters() -> Map<Seq<char>, Seq<u8>> {
    Map::empty()
}

/// The module bytes that were attached to the encoder, if any.
pub uninterp spec fn encoder_module_of(e: wit_component::ComponentEncoder) -> Option<Seq<u8>>;

/// The adapter bytes that were attached to the encoder, keyed by the
/// adapter name each was attached under.
pub uninterp spec fn encoder_adapters_of(e: wit_component::ComponentEncoder) -> Map<Seq<char>, Seq<u8>>;

/// Whether the encoder validates the component bytes it emits.
pub uninterp spec fn encoder_validates(e: wit_component::ComponentEncoder) -> bool;

/// Whether a fresh encoder accepts these bytes as its core module:
/// they decode as a core wasm module and any WIT metadata embedded in
/// them merges cleanly. A verdict on the bytes alone.
pub uninterp spec fn module_accepted(m: Seq<u8>) -> bool;

/// Whether an encoder holding module `m` accepts `a` as an adapter
/// under the name `name`: the adapter bytes decode and their WIT
/// packages merge with those of the module.
pub uninterp spec fn adapter_accepted(m: Seq<u8>, name: Seq<char>, a: Seq<u8>) -> bool;

/// The outcome of emitting, with validation on, the component of an
/// encoder that holds module `m` and the adapters `adapters`:
/// `Some(component bytes)` on success, `None` when composition or
/// validation fails.
pub uninterp spec fn encode_result(m: Seq<u8>, adapters: Map<Seq<char>, Seq<u8>>) -> Option<Seq<u8>>;

/// The verdict of `wasmparser::Validator::validate_all`, with every
/// wasm feature enabled, on a byte sequence.
pub uninterp spec fn component_valid(c: Seq<u8>) -> bool;

/// The adapter binary of the given kind that the provider crate embeds.
pub uninterp spec fn provider_adapter(kind: Seq<char>) -> Seq<u8>;

/// Relies on `wit_component::ComponentEncoder::default`: a fresh
/// encoder holds no module and no adapters, and does not validate its
/// output.
#[verifier::external_body]
pub(crate) fn encoder_new() -> (e: wit_component::ComponentEncoder)
    ensures
        encoder_module_of(e) == None::<Seq<u8>>,
        encoder_adapters_of(e) == no_adapters(),
        !encoder_validates(e),
{
    wit_component::ComponentEncoder::default()
}

/// Relies on `wit_component::ComponentEncoder::module`: it decodes the
/// given bytes and their embedded WIT metadata, and on success the
/// encoder holds them as its core module; whether it succeeds is a
/// deterministic verdict on the bytes. The adapters and the validation
/// setting are untouched.
#[verifier::external_body]
pub(crate) fn encoder_module(e: wit_component::ComponentEncoder, m: &Vec<u8>) -> (r: Result<
    wit_component::ComponentEncoder,
    anyhow::Error,
>)
    requires
        encoder_module_of(e) == None::<Seq<u8>>,
        encoder_adapters_of(e) == no_adapters(),
    ensures
        r is Ok <==> module_accepted(m@),
        r is Ok ==> encoder_module_of(r->Ok_0) == Some(m@),
        r is Ok ==> encoder_adapters_of(r->Ok_0) == no_adapters(),
        r is Ok ==> encoder_validates(r->Ok_0) == encoder_validates(e),
{
    let mut enc = e;
    match enc.module(m.as_slice()) {
        Ok(_) => Ok(enc),
        Err(err) => Err(err),
    }
}

/// Relies on `wit_component::ComponentEncoder::adapter`: it decodes the
/// adapter bytes, merges their WIT packages with those of the module,
/// and on success the encoder holds the adapter bytes under the given
/// name; whether it succeeds is a deterministic verdict on the module,
/// the name and the adapter bytes. The module and the validation
/// setting are untouched.
#[verifier::external_body]
pub(crate) fn encoder_adapter(
    e: wit_component::ComponentEncoder,
    name: &str,
    a: &Vec<u8>,
) -> (r: Result<wit_component::ComponentEncoder, anyhow::Error>)
    requires
        encoder_module_of(e) is Some,
        encoder_adapters_of(e) == no_adapters(),
    ensures
        r is Ok <==> adapter_accepted(encoder_module_of(e)->0, name@, a@),
        r is Ok ==> encoder_module_of(r->Ok_0) == encoder_module_of(e),
        r is Ok ==> encoder_adapters_of(r->Ok_0) == no_adapters().insert(
            name@,
            a@,
        ),
        r is Ok ==> encoder_validates(r->Ok_0) == encoder_validates(e),
{
    let mut enc = e;
    match enc.adapter(name, a.as_slice()) {
        Ok(_) => Ok(enc),
        Err(err) => Err(err),
    }
}

/// Relies on `wit_component::ComponentEncoder::validate`: it only sets
/// whether the encoder validates the component bytes it emits.
#[verifier::external_body]
pub(crate) fn encoder_set_validate(e: wit_component::ComponentEncoder, v: bool) -> (r:
    wit_component::ComponentEncoder)
    ensures
        encoder_module_of(r) == encoder_module_of(e),
        encoder_adapters_of(r) == encoder_adapters_of(e),
        encoder_validates(r) == v,
{
    let mut enc = e;
    enc.validate(v);
    enc
}

/// Relies on `wit_component::ComponentEncoder::encode`: the emitted
/// bytes are a deterministic function of the module and the adapters
/// the encoder holds, and with validation on, bytes are only returned
/// after `wasmparser::Validator::validate_all`, with every wasm feature
/// enabled, has accepted them.
#[verifier::external_body]
pub(crate) fn encoder_encode(e: wit_component::ComponentEncoder) -> (r: Result<
    Vec<u8>,
    anyhow::Error,
>)
    requires
        encoder_module_of(e) is Some,
        encoder_validates(e),
    ensures
        r is Ok <==> encode_result(encoder_module_of(e)->0, encoder_adapters_of(e)) is Some,
        r is Ok ==> Some(r->Ok_0@) == encode_result(encoder_module_of(e)->0, encoder_adapters_of(e)),
        r is Ok ==> component_valid(r->Ok_0@),
{
    let mut enc = e;
    enc.encode()
}

/// Relies on the constant
/// `wasi_preview1_component_adapter_provider::WASI_SNAPSHOT_PREVIEW1_ADAPTER_NAME`,
/// whose value is the string "wasi_snapshot_preview1".
#[verifier::external_body]
pub(crate) fn provider_adapter_name() -> (r: &'static str)
    ensures
        r@ == "wasi_snapshot_preview1"@,
{
    wasi_preview1_component_adapter_provider::WASI_SNAPSHOT_PREVIEW1_ADAPTER_NAME
}

/// Relies on the constant
/// `wasi_preview1_component_adapter_provider::WASI_SNAPSHOT_PREVIEW1_COMMAND_ADAPTER`,
/// the command adapter binary that the provider crate embeds.
#[verifier::external_body]
pub(crate) fn provider_command_adapter() -> (r: Vec<u8>)
    ensures
        r@ == provider_adapter("command"@),
{
    wasi_preview1_component_adapter_provider::WASI_SNAPSHOT_PREVIEW1_COMMAND_ADAPTER.to_vec()
}

} // verus!
