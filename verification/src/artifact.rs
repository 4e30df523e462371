//! Function artifacts: the executable representation of a fetched Wasm
//! module, plus opportunistic precompilation through the Wasm runtime.
//!
//! An artifact carries its bytes, a precompiled flag and the second at which
//! it was fetched. Only this crate can mark an artifact as precompiled: the
//! flag is set exclusively on bytes that came out of the runtime's own
//! serializer, or that were read back from the on-disk cache, which only
//! ever holds such output.

use vstd::prelude::*;

verus! {

/// The ghost shape of an artifact: what its bytes denote, whether they are
/// the runtime's native serialized form, and when they were fetched.
#[verifier::ext_equal]
pub ghost struct ArtifactView {
    pub bytes: Seq<u8>,
    pub is_precompiled: bool,
    pub fetched_at: u64,
}

/// A fetched Wasm module. When the precompiled flag is false there is no
/// guarantee that the bytes are valid Wasm; when it is true, the bytes are
/// the Wasm runtime's native serialized form. The fields are private so that
/// no code outside this module can assemble an artifact by hand.
#[derive(Debug)]
pub struct FetchedFunction {
    wasm_bytes: Vec<u8>,
    is_precompiled: bool,
    fetched_at: u64,
}

impl View for FetchedFunction {
    type V = ArtifactView;

    closed spec fn view(&self) -> ArtifactView {
        ArtifactView {
            bytes: self.wasm_bytes@,
            is_precompiled: self.is_precompiled,
            fetched_at: self.fetched_at,
        }
    }
}

impl Clone for FetchedFunction {
    fn clone(&self) -> (r: Self)
        ensures
            r@ == self@,
    {
        let r = FetchedFunction {
            wasm_bytes: self.wasm_bytes.clone(),
            is_precompiled: self.is_precompiled,
            fetched_at: self.fetched_at,
        };
        proof {
            assert(r@ =~= self@);
        }
        r
    }
}

impl FetchedFunction {
    /// The artifact's bytes: raw Wasm, or the runtime's serialized form
    /// when the artifact is precompiled.
    pub fn wasm_bytes(&self) -> (r: &Vec<u8>)
        ensures
            r@ == self@.bytes,
    {
        &self.wasm_bytes
    }

    /// Whether the bytes are the runtime's native serialized form.
    pub fn is_precompiled(&self) -> (r: bool)
        ensures
            r == self@.is_precompiled,
    {
        self.is_precompiled
    }

    /// The second (Unix time) at which the artifact was fetched.
    pub fn fetched_at(&self) -> (r: u64)
        ensures
            r == self@.fetched_at,
    {
        self.fetched_at
    }

    /// An artifact of raw (not precompiled) Wasm bytes.
    pub fn from_wasm(wasm_bytes: Vec<u8>, fetched_at: u64) -> (r: Self)
        ensures
            r@.bytes == wasm_bytes@,
            !r@.is_precompiled,
            r@.fetched_at == fetched_at,
    {
        FetchedFunction { wasm_bytes, is_precompiled: false, fetched_at }
    }

    /// An artifact of the runtime's native serialized form. Kept inside the
    /// crate: no outside code may mark arbitrary bytes as precompiled.
    pub(crate) fn from_precompiled_wasm(wasm_bytes: Vec<u8>, fetched_at: u64) -> (r: Self)
        ensures
            r@.bytes == wasm_bytes@,
            r@.is_precompiled,
            r@.fetched_at == fetched_at,
    {
        FetchedFunction { wasm_bytes, is_precompiled: true, fetched_at }
    }

    /// Serializes raw Wasm through the runtime where it can; the artifact
    /// then carries the native form and is marked precompiled. Where the
    /// runtime refuses the bytes, the artifact carries the raw Wasm
    /// unchanged with the flag cleared.
    pub fn try_precompile(wasm_bytes: Vec<u8>, fetched_at: u64) -> (r: Self)
        ensures
            r@.fetched_at == fetched_at,
            !r@.is_precompiled ==> r@.bytes == wasm_bytes@,
    {
        let precompiled = precompile_wasm_bytes(&wasm_bytes);
        Self::from_origin_parts(wasm_bytes, precompiled, fetched_at)
    }

    /// Builds the artifact for an origin fetch from the raw Wasm and the
    /// outcome of the precompilation attempt.
    pub(crate) fn from_origin_parts(
        wasm_bytes: Vec<u8>,
        precompiled: Option<Vec<u8>>,
        fetched_at: u64,
    ) -> (r: Self)
        ensures
            r@.fetched_at == fetched_at,
            match precompiled {
                Some(native) => r@.is_precompiled && r@.bytes == native@,
                None => !r@.is_precompiled && r@.bytes == wasm_bytes@,
            },
    {
        match precompiled {
            Some(native) => Self::from_precompiled_wasm(native, fetched_at),
            None => Self::from_wasm(wasm_bytes, fetched_at),
        }
    }
}

#[verifier::external_type_specification]
#[verifier::external_body]
pub struct ExStore(wasmer::Store);

#[verifier::external_type_specification]
#[verifier::external_body]
pub struct ExModule(wasmer::Module);

/// Relies on wasmer::Store::default: builds a store over the default engine.
#[verifier::external_body]
fn default_store() -> wasmer::Store {
    wasmer::Store::default()
}

/// Relies on wasmer::Module::new: compiles Wasm bytes against a store's
/// engine, failing on bytes the engine cannot compile.
#[verifier::external_body]
fn compile_module(store: &wasmer::Store, bytes: &Vec<u8>) -> Option<wasmer::Module> {
    wasmer::Module::new(store, bytes.as_slice()).ok()
}

/// Relies on wasmer::Module::serialize: emits the engine's native form of a
/// compiled module, the form `Module::deserialize` later accepts.
#[verifier::external_body]
fn serialize_module(module: &wasmer::Module) -> Option<Vec<u8>> {
    module.serialize().ok().map(|b| b.to_vec())
}

/// Attempts to serialize raw Wasm into the runtime's native form: `None`
/// where the bytes do not compile or the engine cannot serialize them.
fn precompile_wasm_bytes(wasm_bytes: &Vec<u8>) -> Option<Vec<u8>> {
    let store = default_store();
    match compile_module(&store, wasm_bytes) {
        Some(module) => serialize_module(&module),
        None => None,
    }
}

/// Relies on std::time::SystemTime::now: seconds since the Unix epoch, zero
/// where the clock reads before the epoch. Nothing is promised of a clock.
#[verifier::external_body]
pub fn current_unix_timestamp_s() -> u64 {
    std::time::SystemTime::now()
        .duration_since(std::time::UNIX_EPOCH)
        .unwrap_or_default()
        .as_secs()
}

} // verus!
