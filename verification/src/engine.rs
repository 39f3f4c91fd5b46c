//! The shared engine store and the compilation boundary.
//!
//! The wasmer types that carry compiled code are opaque here.  What the
//! verified code knows about them is stated as attributes of the opaque
//! values themselves — which store a thing lives in, which bytes it was built
//! from — established by the contracts of the functions that call into the
//! runtime and by nothing else.

use vstd::prelude::*;

verus! {

#[verifier::external_type_specification]
#[verifier::external_body]
pub struct ExStore(wasmer::Store);

#[verifier::external_type_specification]
#[verifier::external_body]
pub struct ExModule(wasmer::Module);

#[verifier::external_type_specification]
#[verifier::external_body]
pub struct ExInstance(wasmer::Instance);

#[verifier::external_type_specification]
#[verifier::external_body]
pub struct ExImports(wasmer::Imports);

#[verifier::external_type_specification]
#[verifier::external_body]
pub struct ExFunction(wasmer::Function);

/// The identity of a store's execution context: fixed when the store is
/// made, never shared with another store, and carried by every module,
/// instance and function living inside it.  It stands for wasmer's own store
/// object id, the one every `is_from_store` check compares.
pub uninterp spec fn store_id(s: wasmer::Store) -> int;

/// The bytes a compiled module was built from: a fixed attribute of each
/// module value, recorded by the contract of the compilation call below.
pub uninterp spec fn module_source(m: wasmer::Module) -> Seq<u8>;

/// The shared compilation and execution context.  Exactly one should exist
/// per running application; every compile, instantiate and call operation
/// borrows it for its duration, and everything those operations create lives
/// inside it and can only be used with it again.
pub struct WasmerStore(pub wasmer::Store);

impl WasmerStore {
    /// The identity of this store's execution context.
    pub open spec fn id_spec(self) -> int {
        store_id(self.0)
    }

    /// Relies on wasmer::Store::default: a fresh execution context over the
    /// default engine of the enabled backend.
    #[verifier::external_body]
    pub fn new() -> WasmerStore {
        WasmerStore(wasmer::Store::default())
    }
}

/// Whether the engine of the store with this identity accepts `bytes` as a
/// module: a well-formed binary (or text) module using only the features that
/// store's configuration enables.  For one store this is a function of the
/// bytes alone.
pub uninterp spec fn valid_wasm(sid: int, bytes: Seq<u8>) -> bool;

/// What the text-to-binary conversion yields for `text`: the equivalent
/// binary module, or nothing when the text is ill-formed.  Input that already
/// looks binary passes through unchanged.
pub uninterp spec fn wat_to_wasm(text: Seq<u8>) -> Option<Seq<u8>>;

/// Relies on wasmer::Module::new: for a fixed store, validation and
/// compilation of a byte sequence are deterministic, so whether they succeed
/// is a function of the store's identity and the bytes alone; a module it
/// yields was built from exactly those bytes.
#[verifier::external_body]
pub(crate) fn compile_module(store: &WasmerStore, bytes: &Vec<u8>) -> (r: Result<
    wasmer::Module,
    String,
>)
    ensures
        r is Ok <==> valid_wasm(store.id_spec(), bytes@),
        r is Ok ==> module_source(r->Ok_0) == bytes@,
{
    wasmer::Module::new(&store.0, bytes).map_err(|e| format!("{}", e))
}

/// Relies on wat::parse_bytes: a pure conversion from the module text format
/// to the binary format, a function of the input bytes alone.
#[verifier::external_body]
pub(crate) fn parse_wat(text: &Vec<u8>) -> (r: Result<Vec<u8>, String>)
    ensures
        match wat_to_wasm(text@) {
            Some(b) => r is Ok && r->Ok_0@ == b,
            None => r is Err,
        },
{
    match wat::parse_bytes(text) {
        Ok(b) => Ok(b.into_owned()),
        Err(e) => Err(format!("{}", e)),
    }
}

} // verus!
