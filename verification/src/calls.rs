//! Generic invocation of exported functions with 0 to 5 typed arguments, and
//! the uniform error classification every arity runs through.

use vstd::prelude::*;

use crate::engine::WasmerStore;
use crate::registry::ScriptRegistry;
use crate::script::{instance_source, instance_store, ScriptView, WasmScript};
use crate::values::{
    all_kinds_supported, all_supported, kinds_match, kinds_of, ValKind, WasmValue,
};

verus! {

/// The names under which a module's bytes declare function exports.
pub uninterp spec fn wasm_export_names(source: Seq<u8>) -> Set<Seq<char>>;

/// The signature — parameter kinds, then result kinds — that a module's bytes
/// declare for the function export of the given name.
pub uninterp spec fn wasm_export_sig(source: Seq<u8>, name: Seq<char>) -> (
    Seq<ValKind>,
    Seq<ValKind>,
);

/// The signature of a function value: its parameter kinds, then its result
/// kinds.  A fixed attribute of the value, recorded by the contract of the
/// export lookup below.
pub uninterp spec fn function_sig(f: wasmer::Function) -> (Seq<ValKind>, Seq<ValKind>);

/// The identity of the execution context a function value belongs to,
/// likewise recorded at lookup.
pub uninterp spec fn function_store(f: wasmer::Function) -> int;

/// Relies on wasmer's Exports::get_function, a map lookup on the instance: an
/// instance's exports are exactly those of the module it was instantiated
/// from, so the lookup succeeds precisely when that module's bytes declare a
/// function export under this name; the function it yields carries the
/// signature those bytes declare and belongs to the instance's own store.
#[verifier::external_body]
fn get_export_function(inst: &wasmer::Instance, name: &str) -> (r: Option<wasmer::Function>)
    ensures
        r is Some <==> wasm_export_names(instance_source(*inst)).contains(name@),
        r is Some ==> function_sig(r->Some_0) == wasm_export_sig(instance_source(*inst), name@)
            && function_store(r->Some_0) == instance_store(*inst),
{
    match inst.exports.get_function(name) {
        Ok(f) => Some(f.clone()),
        Err(_) => None,
    }
}

/// Relies on wasmer's Function::is_from_store: it compares the function's
/// store object id with the given store's.
#[verifier::external_body]
fn function_in_store(store: &WasmerStore, f: &wasmer::Function) -> (r: bool)
    ensures
        r <==> function_store(*f) == crate::engine::store_id(store.0),
{
    f.is_from_store(&store.0)
}

/// Relies on wasmer's Function::ty: it reports the function's declared
/// parameter and result kinds.  It asserts that the store is the function's
/// own, which the precondition fixes.
#[verifier::external_body]
fn export_signature(store: &WasmerStore, f: &wasmer::Function) -> (r: (Vec<ValKind>, Vec<ValKind>))
    requires
        function_store(*f) == store.id_spec(),
    ensures
        r.0@ == function_sig(*f).0,
        r.1@ == function_sig(*f).1,
{
    let ty = f.ty(&store.0);
    let conv = |t: &wasmer::Type| match t {
        wasmer::Type::I32 => ValKind::I32,
        wasmer::Type::I64 => ValKind::I64,
        wasmer::Type::F32 => ValKind::F32,
        wasmer::Type::F64 => ValKind::F64,
        wasmer::Type::V128 => ValKind::V128,
        wasmer::Type::ExternRef => ValKind::ExternRef,
        wasmer::Type::FuncRef => ValKind::FuncRef,
        wasmer::Type::ExceptionRef => ValKind::ExceptionRef,
    };
    (ty.params().iter().map(conv).collect(), ty.results().iter().map(conv).collect())
}

/// Relies on wasmer's Function::call: runs the export under its own store's
/// execution context.  The preconditions keep the store the function's own
/// (the call asserts that) and the arguments at the declared parameter kinds,
/// so a failure is the module's own fault — a trap or a runtime error raised
/// while it ran — and the values of a successful call carry the declared
/// result kinds.  The store's identity never changes.
#[verifier::external_body]
fn call_function(store: &mut WasmerStore, f: &wasmer::Function, args: &Vec<WasmValue>) -> (r:
    Result<Vec<WasmValue>, String>)
    requires
        function_store(*f) == old(store).id_spec(),
        kinds_of(args@) == function_sig(*f).0,
    ensures
        r is Ok ==> kinds_of(r->Ok_0@) == function_sig(*f).1,
        final(store).id_spec() == old(store).id_spec(),
{
    let params: Vec<wasmer::Value> = args.iter().map(|a| match a {
        WasmValue::I32(x) => wasmer::Value::I32(*x),
        WasmValue::I64(x) => wasmer::Value::I64(*x),
    }).collect();
    let out = f.call(&mut store.0, &params).map_err(|e| format!("{}", e))?;
    let mut values: Vec<WasmValue> = Vec::new();
    for v in out.iter() {
        match v {
            wasmer::Value::I32(x) => values.push(WasmValue::I32(*x)),
            wasmer::Value::I64(x) => values.push(WasmValue::I64(*x)),
            _ => return Err(format!("result of unsupported kind")),
        }
    }
    Ok(values)
}

/// Why a call returned no values, from routine to faulty.
#[derive(Debug, Clone, PartialEq, Eq)]
pub enum ScriptCallError {
    /// The handle resolves to no live asset.
    AssetNotLoaded,
    /// The asset exists but is not instantiated yet.  This is the routine
    /// outcome during the tick or two after a (re)load; callers should treat
    /// it as "skip this tick", not as a fault worth reporting loudly.
    NotYetInstantiated,
    /// No function export of that name exists, or its declared signature does
    /// not match the supplied arguments or carriable result kinds.
    ExportMissingOrMismatched,
    /// The call did not produce values at run time, with the message: the
    /// module faulted while running, or the export could not be run because
    /// it lives in another engine store than the one supplied.  The instance
    /// stays usable; later calls may still be attempted.
    TrapOrRuntimeError(String),
}

/// The classification every call runs through, whatever its arity, before
/// the module itself runs: the asset must exist, be instantiated, export a
/// function under the name, and declare a signature matching the arguments
/// and carriable result kinds.  `None` means the call proceeds.
pub open spec fn call_blocked(
    script: Option<ScriptView>,
    fname: Seq<char>,
    args: Seq<WasmValue>,
) -> Option<ScriptCallError> {
    match script {
        None => Some(ScriptCallError::AssetNotLoaded),
        Some(v) => if !(v is Instantiated) {
            Some(ScriptCallError::NotYetInstantiated)
        } else if !wasm_export_names(v.source()).contains(fname) {
            Some(ScriptCallError::ExportMissingOrMismatched)
        } else if wasm_export_sig(v.source(), fname).0 != kinds_of(args) {
            Some(ScriptCallError::ExportMissingOrMismatched)
        } else if !all_supported(wasm_export_sig(v.source(), fname).1) {
            Some(ScriptCallError::ExportMissingOrMismatched)
        } else {
            None
        },
    }
}

/// Whether the script under the handle holds an instance that exports the
/// name but lives in a different store than the one with identity `sid`.
/// Such a call is refused before the module runs — the engine cannot run an
/// export under a foreign store — and reported as a runtime error.
pub open spec fn foreign_store_call(
    script: Option<ScriptView>,
    sid: int,
    fname: Seq<char>,
) -> bool {
    &&& script matches Some(v)
    &&& script->Some_0 is Instantiated
    &&& wasm_export_names(script->Some_0.source()).contains(fname)
    &&& script->Some_0.instantiated_store() != sid
}

/// What a finished dispatch against the store with identity `sid` reports:
/// for an instance living in a foreign store, a runtime error and nothing
/// run; otherwise the blocking error exactly when the classification blocks
/// the call, and for a call that proceeds either the module's result values,
/// carrying the export's declared result kinds, or the module's own fault.
pub open spec fn dispatch_ensures(
    m: Map<u64, ScriptView>,
    sid: int,
    handle: u64,
    fname: Seq<char>,
    args: Seq<WasmValue>,
    r: Result<Vec<WasmValue>, ScriptCallError>,
) -> bool {
    let script = if m.contains_key(handle) {
        Some(m[handle])
    } else {
        None
    };
    if foreign_store_call(script, sid, fname) {
        r is Err && r->Err_0 is TrapOrRuntimeError
    } else {
        match call_blocked(script, fname, args) {
            Some(err) => r == Err::<Vec<WasmValue>, ScriptCallError>(err),
            None => match r {
                Ok(vals) => kinds_of(vals@) == wasm_export_sig(script->Some_0.source(), fname).1,
                Err(e) => e is TrapOrRuntimeError,
            },
        }
    }
}

impl ScriptRegistry {
    /// Invokes the named export on the script under `handle` with the given
    /// arguments.  Every failure is classified by `call_blocked`, identically
    /// at every arity; a classified call that proceeds returns the module's
    /// values or the module's own fault, and the store comes back with its
    /// identity intact.
    pub fn call_if_instantiated(
        &self,
        store: &mut WasmerStore,
        handle: u64,
        function_name: &str,
        args: &Vec<WasmValue>,
    ) -> (r: Result<Vec<WasmValue>, ScriptCallError>)
        ensures
            dispatch_ensures(self@, old(store).id_spec(), handle, function_name@, args@, r),
            final(store).id_spec() == old(store).id_spec(),
    {
        let script = match self.get(handle) {
            None => {
                return Err(ScriptCallError::AssetNotLoaded);
            },
            Some(s) => s,
        };
        let inst = match script {
            WasmScript::Instantiated(_, inst) => inst,
            _ => {
                return Err(ScriptCallError::NotYetInstantiated);
            },
        };
        let func = match get_export_function(inst, function_name) {
            None => {
                return Err(ScriptCallError::ExportMissingOrMismatched);
            },
            Some(f) => f,
        };
        if !function_in_store(store, &func) {
            return Err(
                ScriptCallError::TrapOrRuntimeError(
                    "the export lives in another engine store".to_owned(),
                ),
            );
        }
        let sig = export_signature(store, &func);
        if !kinds_match(args, &sig.0) {
            return Err(ScriptCallError::ExportMissingOrMismatched);
        }
        if !all_kinds_supported(&sig.1) {
            return Err(ScriptCallError::ExportMissingOrMismatched);
        }
        match call_function(store, &func, args) {
            Ok(values) => Ok(values),
            Err(message) => Err(ScriptCallError::TrapOrRuntimeError(message)),
        }
    }

    /// Invocation with no arguments; same classification as every arity.
    pub fn call_if_instantiated_0(
        &self,
        store: &mut WasmerStore,
        handle: u64,
        function_name: &str,
    ) -> (r: Result<Vec<WasmValue>, ScriptCallError>)
        ensures
            dispatch_ensures(
                self@,
                old(store).id_spec(),
                handle,
                function_name@,
                Seq::<WasmValue>::empty(),
                r,
            ),
            final(store).id_spec() == old(store).id_spec(),
    {
        let args: Vec<WasmValue> = Vec::new();
        proof {
            assert(args@ =~= Seq::<WasmValue>::empty());
        }
        self.call_if_instantiated(store, handle, function_name, &args)
    }

    /// Invocation with one argument; same classification as every arity.
    pub fn call_if_instantiated_1(
        &self,
        store: &mut WasmerStore,
        handle: u64,
        function_name: &str,
        s0: WasmValue,
    ) -> (r: Result<Vec<WasmValue>, ScriptCallError>)
        ensures
            dispatch_ensures(self@, old(store).id_spec(), handle, function_name@, seq![s0], r),
            final(store).id_spec() == old(store).id_spec(),
    {
        let args: Vec<WasmValue> = vec![s0];
        proof {
            assert(args@ =~= seq![s0]);
        }
        self.call_if_instantiated(store, handle, function_name, &args)
    }

    /// Invocation with two arguments; same classification as every arity.
    pub fn call_if_instantiated_2(
        &self,
        store: &mut WasmerStore,
        handle: u64,
        function_name: &str,
        s0: WasmValue,
        s1: WasmValue,
    ) -> (r: Result<Vec<WasmValue>, ScriptCallError>)
        ensures
            dispatch_ensures(self@, old(store).id_spec(), handle, function_name@, seq![s0, s1], r),
            final(store).id_spec() == old(store).id_spec(),
    {
        let args: Vec<WasmValue> = vec![s0, s1];
        proof {
            assert(args@ =~= seq![s0, s1]);
        }
        self.call_if_instantiated(store, handle, function_name, &args)
    }

    /// Invocation with three arguments; same classification as every arity.
    pub fn call_if_instantiated_3(
        &self,
        store: &mut WasmerStore,
        handle: u64,
        function_name: &str,
        s0: WasmValue,
        s1: WasmValue,
        s2: WasmValue,
    ) -> (r: Result<Vec<WasmValue>, ScriptCallError>)
        ensures
            dispatch_ensures(
                self@,
                old(store).id_spec(),
                handle,
                function_name@,
                seq![s0, s1, s2],
                r,
            ),
            final(store).id_spec() == old(store).id_spec(),
    {
        let args: Vec<WasmValue> = vec![s0, s1, s2];
        proof {
            assert(args@ =~= seq![s0, s1, s2]);
        }
        self.call_if_instantiated(store, handle, function_name, &args)
    }

    /// Invocation with four arguments; same classification as every arity.
    pub fn call_if_instantiated_4(
        &self,
        store: &mut WasmerStore,
        handle: u64,
        function_name: &str,
        s0: WasmValue,
        s1: WasmValue,
        s2: WasmValue,
        s3: WasmValue,
    ) -> (r: Result<Vec<WasmValue>, ScriptCallError>)
        ensures
            dispatch_ensures(
                self@,
                old(store).id_spec(),
                handle,
                function_name@,
                seq![s0, s1, s2, s3],
                r,
            ),
            final(store).id_spec() == old(store).id_spec(),
    {
        let args: Vec<WasmValue> = vec![s0, s1, s2, s3];
        proof {
            assert(args@ =~= seq![s0, s1, s2, s3]);
        }
        self.call_if_instantiated(store, handle, function_name, &args)
    }

    /// Invocation with five arguments; same classification as every arity.
    pub fn call_if_instantiated_5(
        &self,
        store: &mut WasmerStore,
        handle: u64,
        function_name: &str,
        s0: WasmValue,
        s1: WasmValue,
        s2: WasmValue,
        s3: WasmValue,
        s4: WasmValue,
    ) -> (r: Result<Vec<WasmValue>, ScriptCallError>)
        ensures
            dispatch_ensures(
                self@,
                old(store).id_spec(),
                handle,
                function_name@,
                seq![s0, s1, s2, s3, s4],
                r,
            ),
            final(store).id_spec() == old(store).id_spec(),
    {
        let args: Vec<WasmValue> = vec![s0, s1, s2, s3, s4];
        proof {
            assert(args@ =~= seq![s0, s1, s2, s3, s4]);
        }
        self.call_if_instantiated(store, handle, function_name, &args)
    }
}

/// Arity uniformity of the classification: when the blocking cause does not
/// depend on the arguments — no asset, not yet instantiated, or no export
/// under the name — any two argument lists classify identically; in
/// particular a nonexistent export yields `ExportMissingOrMismatched` for
/// every argument list, never a different error kind.
pub proof fn lemma_arity_uniform_classification(
    script: Option<ScriptView>,
    fname: Seq<char>,
    args_a: Seq<WasmValue>,
    args_b: Seq<WasmValue>,
)
    requires
        script is None || !(script->Some_0 is Instantiated) || !wasm_export_names(
            script->Some_0.source(),
        ).contains(fname),
    ensures
        call_blocked(script, fname, args_a) == call_blocked(script, fname, args_b),
        (script matches Some(v) && v is Instantiated && !wasm_export_names(v.source()).contains(
            fname,
        )) ==> call_blocked(script, fname, args_a) == Some(
            ScriptCallError::ExportMissingOrMismatched,
        ),
{
}

} // verus!
