//! The script lifecycle: raw bytes, a compiled module, a linked instance.

use vstd::prelude::*;

use crate::engine::{
    compile_module, module_source, parse_wat, valid_wasm, wat_to_wasm, WasmerStore,
};

verus! {

/// The bytes of the module an instance was linked from: a fixed attribute of
/// each instance value, recorded by the contract of the linking call below.
pub uninterp spec fn instance_source(i: wasmer::Instance) -> Seq<u8>;

/// The identity of the execution context an instance lives in, likewise
/// recorded when linking creates it.
pub uninterp spec fn instance_store(i: wasmer::Instance) -> int;

/// A compiled module together with the name it was loaded under.
pub struct CompiledModule {
    pub(crate) module: wasmer::Module,
    pub(crate) name: String,
}

impl CompiledModule {
    /// The name the module was loaded under.
    pub closed spec fn name_spec(self) -> Seq<char> {
        self.name@
    }

    /// The bytes the module was compiled from.
    pub closed spec fn source_spec(self) -> Seq<u8> {
        module_source(self.module)
    }
}

/// A single script asset.  Exactly one of the three states holds at any
/// instant, and a state change replaces the whole value, so a reader never
/// sees a partially constructed stage.
pub enum WasmScript {
    /// Freshly loaded bytes, not yet compiled.
    Loaded(String, Vec<u8>),
    /// Validated and lowered, not linked to any consumer.
    Compiled(CompiledModule),
    /// Linked against one consumer's imports.
    Instantiated(String, wasmer::Instance),
}

/// The specification-level image of a script: its stage, its name, the module
/// bytes the stage was built from, and — once linked — the identity of the
/// store the instance lives in.
pub enum ScriptView {
    Loaded { name: Seq<char>, bytes: Seq<u8> },
    Compiled { name: Seq<char>, source: Seq<u8> },
    Instantiated { name: Seq<char>, source: Seq<u8>, store: int },
}

impl ScriptView {
    pub open spec fn name(self) -> Seq<char> {
        match self {
            ScriptView::Loaded { name, .. } => name,
            ScriptView::Compiled { name, .. } => name,
            ScriptView::Instantiated { name, .. } => name,
        }
    }

    /// The module bytes behind this stage: the raw bytes when loaded, and the
    /// bytes the module was compiled from afterwards.
    pub open spec fn source(self) -> Seq<u8> {
        match self {
            ScriptView::Loaded { bytes, .. } => bytes,
            ScriptView::Compiled { source, .. } => source,
            ScriptView::Instantiated { source, .. } => source,
        }
    }

    /// The identity of the store a linked instance lives in.
    pub open spec fn instantiated_store(self) -> int
        recommends
            self is Instantiated,
    {
        match self {
            ScriptView::Instantiated { store, .. } => store,
            _ => arbitrary(),
        }
    }
}

impl View for WasmScript {
    type V = ScriptView;

    open spec fn view(&self) -> ScriptView {
        match self {
            WasmScript::Loaded(name, bytes) => ScriptView::Loaded {
                name: name@,
                bytes: bytes@,
            },
            WasmScript::Compiled(m) => ScriptView::Compiled {
                name: m.name_spec(),
                source: m.source_spec(),
            },
            WasmScript::Instantiated(name, inst) => ScriptView::Instantiated {
                name: name@,
                source: instance_source(*inst),
                store: instance_store(*inst),
            },
        }
    }
}

/// Compilation under the store with identity `sid` is invalid-bytes-rejecting
/// and otherwise name- and bytes-preserving: a loaded script with valid bytes
/// becomes the compiled form of the same name and bytes, and any other input
/// is left untouched.
pub open spec fn compile_transition(sid: int, pre: ScriptView, post: ScriptView) -> bool {
    &&& pre is Loaded
    &&& if valid_wasm(sid, pre.source()) {
        post == (ScriptView::Compiled { name: pre.name(), source: pre.source() })
    } else {
        post == pre
    }
}

/// Whether compiling a script under the store with identity `sid` is bound to
/// succeed: a function of that store and the loaded bytes alone.
pub open spec fn compile_succeeds(sid: int, pre: ScriptView) -> bool {
    valid_wasm(sid, pre.source())
}

/// Instantiation under the store with identity `sid` either publishes, in one
/// step, the instance built from the compiled module and living in that
/// store, or leaves the script exactly as it was.
pub open spec fn instantiate_transition(sid: int, pre: ScriptView, post: ScriptView) -> bool {
    ||| post == pre
    ||| (pre is Compiled && post == (ScriptView::Instantiated {
        name: pre.name(),
        source: pre.source(),
        store: sid,
    }))
}

/// Compilation failed: the engine rejected the named script's bytes.
#[derive(Debug, Clone, PartialEq, Eq)]
pub struct CompileError {
    pub name: String,
    pub message: String,
}

/// Instantiation failed for one (asset, consumer) pair.
#[derive(Debug, Clone, PartialEq, Eq)]
pub enum InstantiationError {
    /// The handle resolves to no live asset.
    AssetMissing,
    /// Linking the compiled module against the consumer's imports failed;
    /// carries the script's name and the engine's report.
    LinkFailed { name: String, message: String },
}

/// Relies on wasmer::Instance::new: links the compiled module against the
/// given imports.  Linking fails when the module requires an import the table
/// does not provide or one whose signature differs, when the module or an
/// import belongs to another store, and when the module's start function
/// faults; every such failure comes back as an error.  On success the
/// instance is the running form of exactly this module, living in exactly
/// this store, whose identity the call never changes.
#[verifier::external_body]
fn instance_new(store: &mut WasmerStore, module: &CompiledModule, imports: &wasmer::Imports) -> (r:
    Result<wasmer::Instance, String>)
    ensures
        r is Ok ==> instance_source(r->Ok_0) == module.source_spec() && instance_store(r->Ok_0)
            == old(store).id_spec(),
        final(store).id_spec() == old(store).id_spec(),
{
    wasmer::Instance::new(&mut store.0, &module.module, imports).map_err(|e| format!("{}", e))
}

impl WasmScript {
    /// Pure construction of a freshly loaded script; no engine interaction.
    pub fn load(name: String, bytes: Vec<u8>) -> (r: WasmScript)
        ensures
            r@ == (ScriptView::Loaded { name: name@, bytes: bytes@ }),
    {
        WasmScript::Loaded(name, bytes)
    }

    /// The script's name, the same in every lifecycle stage.
    pub fn name(&self) -> (r: String)
        ensures
            r@ == self@.name(),
    {
        match self {
            WasmScript::Loaded(name, _) => name.clone(),
            WasmScript::Compiled(m) => m.name.clone(),
            WasmScript::Instantiated(name, _) => name.clone(),
        }
    }

    /// Whether the script is linked and callable right now.
    pub fn is_instantiated(&self) -> (r: bool)
        ensures
            r <==> self@ is Instantiated,
    {
        match self {
            WasmScript::Instantiated(..) => true,
            _ => false,
        }
    }

    /// Whether the script still holds raw, uncompiled bytes.
    pub fn is_loaded(&self) -> (r: bool)
        ensures
            r <==> self@ is Loaded,
    {
        match self {
            WasmScript::Loaded(..) => true,
            _ => false,
        }
    }

    /// Whether the script is compiled but not linked to any consumer.
    pub fn is_compiled(&self) -> (r: bool)
        ensures
            r <==> self@ is Compiled,
    {
        match self {
            WasmScript::Compiled(..) => true,
            _ => false,
        }
    }

    /// Validates and lowers the raw bytes into an executable module.  On
    /// success the script becomes `Compiled`, keeping its name; on failure it
    /// stays as it was and the rejection, carrying the script's name and the
    /// engine's report, is handed back, never dropped.
    pub fn compile(&mut self, store: &WasmerStore) -> (r: Result<(), CompileError>)
        requires
            old(self)@ is Loaded,
        ensures
            compile_transition(store.id_spec(), old(self)@, final(self)@),
            r is Ok <==> compile_succeeds(store.id_spec(), old(self)@),
            r is Err ==> final(self)@ == old(self)@ && r->Err_0.name@ == old(self)@.name(),
    {
        let compiled = match &*self {
            WasmScript::Loaded(name, bytes) => {
                match compile_module(store, bytes) {
                    Ok(module) => CompiledModule { module, name: name.clone() },
                    Err(message) => {
                        let name = name.clone();
                        return Err(CompileError { name, message });
                    },
                }
            },
            _ => unreached(),
        };
        *self = WasmScript::Compiled(compiled);
        Ok(())
    }

    /// Like `instantiate_if_compiled`, but reports how the attempt went:
    /// `Ok(true)` when a new instance was published, `Ok(false)` when the
    /// script was not in the compiled stage (a routine skip), and the link
    /// failure itself otherwise, never swallowed.
    pub fn instantiate_report(
        &mut self,
        wasmer_store: &mut WasmerStore,
        imports: &wasmer::Imports,
    ) -> (r: Result<bool, InstantiationError>)
        ensures
            instantiate_transition(old(wasmer_store).id_spec(), old(self)@, final(self)@),
            r == Ok::<bool, InstantiationError>(true) <==> (old(self)@ is Compiled
                && final(self)@ is Instantiated),
            r == Ok::<bool, InstantiationError>(false) <==> !(old(self)@ is Compiled),
            !(r == Ok::<bool, InstantiationError>(true)) ==> final(self)@ == old(self)@,
            r is Err ==> (r->Err_0 matches InstantiationError::LinkFailed { name, .. }
                && name@ == old(self)@.name()),
            final(wasmer_store).id_spec() == old(wasmer_store).id_spec(),
    {
        let inst = match &*self {
            WasmScript::Compiled(m) => {
                match instance_new(wasmer_store, m, imports) {
                    Ok(instance) => {
                        let name = m.name.clone();
                        (name, instance)
                    },
                    Err(message) => {
                        let name = m.name.clone();
                        return Err(InstantiationError::LinkFailed { name, message });
                    },
                }
            },
            _ => {
                return Ok(false);
            },
        };
        *self = WasmScript::Instantiated(inst.0, inst.1);
        Ok(true)
    }

    /// If the script is compiled, links it against `imports` and publishes
    /// the instantiated state in one replacement; in every other case, and
    /// when linking fails, the script is left exactly as it was.  Returns
    /// whether a new instance was published.
    pub fn instantiate_if_compiled(
        &mut self,
        wasmer_store: &mut WasmerStore,
        imports: &wasmer::Imports,
    ) -> (r: bool)
        ensures
            instantiate_transition(old(wasmer_store).id_spec(), old(self)@, final(self)@),
            r <==> (old(self)@ is Compiled && final(self)@ is Instantiated),
            !r ==> final(self)@ == old(self)@,
            final(wasmer_store).id_spec() == old(wasmer_store).id_spec(),
    {
        match self.instantiate_report(wasmer_store, imports) {
            Ok(published) => published,
            Err(_) => false,
        }
    }
}

/// Builds `Loaded` scripts from binary-format module bytes.
pub struct WasmAssetLoader;

impl WasmAssetLoader {
    /// The file extension this loader accepts.
    pub fn extensions(&self) -> (r: &'static str)
        ensures
            r@ == "wasm"@,
    {
        "wasm"
    }

    /// Wraps freshly read binary bytes as a `Loaded` script under `name`.
    pub fn load(&self, name: String, bytes: Vec<u8>) -> (r: WasmScript)
        ensures
            r@ == (ScriptView::Loaded { name: name@, bytes: bytes@ }),
    {
        WasmScript::load(name, bytes)
    }
}

/// Builds `Loaded` scripts from text-format module bytes, converting them to
/// the binary format first.
pub struct WatAssetLoader;

impl WatAssetLoader {
    /// The file extension this loader accepts.
    pub fn extensions(&self) -> (r: &'static str)
        ensures
            r@ == "wat"@,
    {
        "wat"
    }

    /// Converts text-format bytes and wraps the binary result as a `Loaded`
    /// script under `name`; ill-formed text is reported and nothing is built.
    pub fn load(&self, name: String, text: Vec<u8>) -> (r: Result<WasmScript, CompileError>)
        ensures
            match wat_to_wasm(text@) {
                Some(b) => r is Ok && r->Ok_0@ == (ScriptView::Loaded { name: name@, bytes: b }),
                None => r is Err,
            },
    {
        match parse_wat(&text) {
            Ok(bytes) => Ok(WasmScript::load(name, bytes)),
            Err(message) => Err(CompileError { name, message }),
        }
    }
}

/// A script occupies exactly one lifecycle state at any instant; because each
/// transition publishes a whole replacement value, a reader never observes a
/// mixture of two stages.
pub proof fn lemma_states_mutually_exclusive(s: ScriptView)
    ensures
        s is Loaded || s is Compiled || s is Instantiated,
        s is Loaded ==> !(s is Compiled) && !(s is Instantiated),
        s is Compiled ==> !(s is Loaded) && !(s is Instantiated),
        s is Instantiated ==> !(s is Loaded) && !(s is Compiled),
{
}

/// For one engine store, whether compilation succeeds is a function of the
/// loaded bytes alone: two separate loads of the same valid bytes both reach
/// the compiled state, and neither ever reports an error.
pub proof fn lemma_compile_repeatable(sid: int, a: ScriptView, b: ScriptView)
    requires
        a is Loaded,
        b is Loaded,
        a.source() == b.source(),
    ensures
        compile_succeeds(sid, a) == compile_succeeds(sid, b),
        valid_wasm(sid, a.source()) ==> compile_succeeds(sid, a) && compile_succeeds(sid, b),
{
}

/// Instantiation steps under one store compose: two in a row amount to one,
/// because a freshly published instance is no longer in the compiled stage
/// and a second step can only leave it alone.
pub proof fn lemma_instantiate_transition_trans(
    sid: int,
    a: ScriptView,
    b: ScriptView,
    c: ScriptView,
)
    requires
        instantiate_transition(sid, a, b),
        instantiate_transition(sid, b, c),
    ensures
        instantiate_transition(sid, a, c),
{
}

/// Once a script has been reloaded with new bytes, a compile step followed by
/// an instantiation step can only yield an instance built from the new bytes
/// or a still-uninstantiated state — never an instance built from any older
/// bytes, whichever stores the two steps ran under.
pub proof fn lemma_reload_never_reverts(
    reloaded: ScriptView,
    compiled: ScriptView,
    instantiated: ScriptView,
    new_bytes: Seq<u8>,
    sid_compile: int,
    sid_instantiate: int,
)
    requires
        reloaded is Loaded,
        reloaded.source() == new_bytes,
        compile_transition(sid_compile, reloaded, compiled),
        instantiate_transition(sid_instantiate, compiled, instantiated),
    ensures
        instantiated is Instantiated ==> instantiated.source() == new_bytes,
{
}

} // verus!
