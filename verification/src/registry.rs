//! The live script table: one record per asset handle, replaced in place as
//! assets move through their lifecycle.

use std::collections::HashMap;

use vstd::prelude::*;

use crate::engine::{valid_wasm, WasmerStore};
use crate::script::{
    instantiate_transition, lemma_instantiate_transition_trans, CompileError, InstantiationError,
    ScriptView, WasmScript,
};
use crate::tracker::{
    get_modified_script_assets, instantiation_set, is_script_asset_modified, modified_handles,
    modified_referenced,
};
use crate::tracker::AssetEvent;

verus! {

broadcast use vstd::std_specs::hash::group_hash_axioms;

/// The specification image of a script table.
pub open spec fn views_of(m: Map<u64, WasmScript>) -> Map<u64, ScriptView> {
    m.map_values(|s: WasmScript| s@)
}

proof fn lemma_views_of_insert(m: Map<u64, WasmScript>, k: u64, s: WasmScript)
    ensures
        views_of(m.insert(k, s)) == views_of(m).insert(k, s@),
{
    assert(views_of(m.insert(k, s)) =~= views_of(m).insert(k, s@));
}

proof fn lemma_views_of_remove(m: Map<u64, WasmScript>, k: u64)
    ensures
        views_of(m.remove(k)) == views_of(m).remove(k),
{
    assert(views_of(m.remove(k)) =~= views_of(m).remove(k));
}

/// What one compile attempt under the store with identity `sid` does to the
/// table, seen from the outside: the script under `h`, if it is freshly
/// loaded and its bytes are valid, becomes the compiled form of the same name
/// and bytes; every other table is unchanged.
pub open spec fn compile_event_step(sid: int, m: Map<u64, ScriptView>, h: u64) -> Map<
    u64,
    ScriptView,
> {
    if m.contains_key(h) && m[h] is Loaded && valid_wasm(sid, m[h].source()) {
        m.insert(h, ScriptView::Compiled { name: m[h].name(), source: m[h].source() })
    } else {
        m
    }
}

/// One compile pass over a tick's notifications, in event order.
pub open spec fn compile_pass(sid: int, m: Map<u64, ScriptView>, events: Seq<AssetEvent>) -> Map<
    u64,
    ScriptView,
>
    decreases events.len(),
{
    if events.len() == 0 {
        m
    } else {
        compile_event_step(sid, compile_pass(sid, m, events.drop_last()), events.last().handle())
    }
}

/// The names of the loads a compile pass rejects, in event order: one entry
/// for each notification that finds its script freshly loaded with bytes the
/// engine refuses.
pub open spec fn compile_failures(sid: int, m: Map<u64, ScriptView>, events: Seq<AssetEvent>) -> Seq<
    Seq<char>,
>
    decreases events.len(),
{
    if events.len() == 0 {
        Seq::empty()
    } else {
        let rest = compile_failures(sid, m, events.drop_last());
        let mp = compile_pass(sid, m, events.drop_last());
        let h = events.last().handle();
        if mp.contains_key(h) && mp[h] is Loaded && !valid_wasm(sid, mp[h].source()) {
            rest.push(mp[h].name())
        } else {
            rest
        }
    }
}

/// The names a list of compile rejections carries, in order.
pub open spec fn compile_error_names(errors: Seq<CompileError>) -> Seq<Seq<char>> {
    errors.map_values(|e: CompileError| e.name@)
}

/// What one compile pass does to each script, record by record: a loaded
/// script with valid bytes that at least one notification names becomes the
/// compiled form of the same name and bytes; every other record, and every
/// handle the notifications do not name, is left exactly as it was.  In
/// particular each distinct (re)load is compiled once: later notifications
/// find the script already past the loaded stage and leave it alone.
pub proof fn lemma_compile_pass_pointwise(
    sid: int,
    m: Map<u64, ScriptView>,
    events: Seq<AssetEvent>,
    h: u64,
)
    ensures
        compile_pass(sid, m, events).dom() == m.dom(),
        m.contains_key(h) && !(exists|i: int|
            0 <= i < events.len() && (#[trigger] events[i]).handle() == h) ==> compile_pass(
            sid,
            m,
            events,
        )[h] == m[h],
        m.contains_key(h) && m[h] is Loaded && valid_wasm(sid, m[h].source()) && (exists|i: int|
            0 <= i < events.len() && (#[trigger] events[i]).handle() == h) ==> compile_pass(
            sid,
            m,
            events,
        )[h] == (ScriptView::Compiled { name: m[h].name(), source: m[h].source() }),
        m.contains_key(h) && !(m[h] is Loaded && valid_wasm(sid, m[h].source())) ==> compile_pass(
            sid,
            m,
            events,
        )[h] == m[h],
    decreases events.len(),
{
    if events.len() == 0 {
        assert(compile_pass(sid, m, events).dom() =~= m.dom());
    } else {
        let prefix = events.drop_last();
        let last = events.last();
        lemma_compile_pass_pointwise(sid, m, prefix, h);
        let mp = compile_pass(sid, m, prefix);
        assert(compile_pass(sid, m, events) == compile_event_step(sid, mp, last.handle()));
        assert(compile_event_step(sid, mp, last.handle()).dom() =~= mp.dom());
        if h != last.handle() {
            if mp.contains_key(h) {
                assert(compile_event_step(sid, mp, last.handle())[h] == mp[h]);
            }
            if exists|i: int| 0 <= i < events.len() && (#[trigger] events[i]).handle() == h {
                let i = choose|i: int|
                    0 <= i < events.len() && (#[trigger] events[i]).handle() == h;
                assert(i < events.len() - 1);
                assert(prefix[i] == events[i]);
            }
            if exists|i: int| 0 <= i < prefix.len() && (#[trigger] prefix[i]).handle() == h {
                let i = choose|i: int|
                    0 <= i < prefix.len() && (#[trigger] prefix[i]).handle() == h;
                assert(events[i] == prefix[i]);
            }
        } else {
            assert(events[events.len() - 1] == last);
            if m.contains_key(h) {
                if m[h] is Loaded && valid_wasm(sid, m[h].source()) {
                    if exists|i: int| 0 <= i < prefix.len() && (#[trigger] prefix[i]).handle()
                        == h {
                        assert(mp[h] == (ScriptView::Compiled {
                            name: m[h].name(),
                            source: m[h].source(),
                        }));
                        assert(compile_event_step(sid, mp, h)[h] == mp[h]);
                    } else {
                        assert(mp[h] == m[h]);
                        assert(compile_event_step(sid, mp, h)[h] == (ScriptView::Compiled {
                            name: m[h].name(),
                            source: m[h].source(),
                        }));
                    }
                } else {
                    assert(mp[h] == m[h]);
                    assert(compile_event_step(sid, mp, h)[h] == mp[h]);
                }
            }
        }
    }
}

/// Independently valid loads are never reported as failures: when every
/// freshly loaded script a notification names carries bytes the engine
/// accepts, the compile pass reports no rejection at all.
pub proof fn lemma_valid_loads_report_nothing(
    sid: int,
    m: Map<u64, ScriptView>,
    events: Seq<AssetEvent>,
)
    requires
        forall|i: int|
            0 <= i < events.len() ==> {
                let h = (#[trigger] events[i]).handle();
                m.contains_key(h) && m[h] is Loaded ==> valid_wasm(sid, m[h].source())
            },
    ensures
        compile_failures(sid, m, events).len() == 0,
    decreases events.len(),
{
    if events.len() > 0 {
        let prefix = events.drop_last();
        let last = events.last();
        let h = last.handle();
        assert forall|i: int|
            0 <= i < prefix.len() implies {
            let ph = (#[trigger] prefix[i]).handle();
            m.contains_key(ph) && m[ph] is Loaded ==> valid_wasm(sid, m[ph].source())
        } by {
            assert(prefix[i] == events[i]);
        }
        lemma_valid_loads_report_nothing(sid, m, prefix);
        lemma_compile_pass_pointwise(sid, m, prefix, h);
        let mp = compile_pass(sid, m, prefix);
        if mp.contains_key(h) && mp[h] is Loaded {
            if m[h] is Loaded && valid_wasm(sid, m[h].source()) {
                if exists|i: int| 0 <= i < prefix.len() && (#[trigger] prefix[i]).handle() == h {
                    assert(!(mp[h] is Loaded));
                } else {
                    assert(mp[h] == m[h]);
                }
            } else {
                assert(mp[h] == m[h]);
            }
            assert(mp[h] == m[h]);
            assert(events[events.len() - 1] == last);
            assert(valid_wasm(sid, mp[h].source()));
        }
    }
}

/// What one instantiation attempt under the store with identity `sid` does to
/// the table and reports back.  An unknown handle is a missing asset; a
/// compiled script either has its new instance published under its handle,
/// everything else untouched, or is left exactly as it was with the link
/// failure — carrying the script's name — reported; a script in any other
/// stage is skipped (`Ok(false)`), the routine outcome during the tick or two
/// between a (re)load and its compilation.
pub open spec fn instantiate_outcome(
    sid: int,
    pre: Map<u64, ScriptView>,
    post: Map<u64, ScriptView>,
    handle: u64,
    r: Result<bool, InstantiationError>,
) -> bool {
    &&& post.dom() == pre.dom()
    &&& if !pre.contains_key(handle) {
        r == Err::<bool, InstantiationError>(InstantiationError::AssetMissing) && post == pre
    } else {
        &&& instantiate_transition(sid, pre[handle], post[handle])
        &&& post == pre.insert(handle, post[handle])
        &&& (r == Ok::<bool, InstantiationError>(true) <==> (pre[handle] is Compiled
            && post[handle] is Instantiated))
        &&& (r == Ok::<bool, InstantiationError>(false) <==> !(pre[handle] is Compiled))
        &&& (r is Err ==> post == pre && (r->Err_0 matches InstantiationError::LinkFailed {
            name,
            ..
        } && name@ == pre[handle].name()))
    }
}

/// Whether a link failure for the script of this name is among the reported
/// errors.
pub open spec fn link_failure_reported(errors: Seq<InstantiationError>, name: Seq<char>) -> bool {
    exists|k: int|
        0 <= k < errors.len() && ((#[trigger] errors[k]) matches InstantiationError::LinkFailed {
            name: n,
            ..
        } && n@ == name)
}

/// The reload property over the whole table: once a reload has published new
/// bytes under a handle, the next compile pass and instantiation attempt
/// under one store leave under that handle either an instance built from
/// those new bytes or a still-uninstantiated record — never an instance built
/// from any earlier bytes.
pub proof fn lemma_reload_pipeline(
    sid: int,
    loaded: Map<u64, ScriptView>,
    events: Seq<AssetEvent>,
    after: Map<u64, ScriptView>,
    h: u64,
    name: Seq<char>,
    bytes: Seq<u8>,
    r: Result<bool, InstantiationError>,
)
    requires
        loaded.contains_key(h),
        loaded[h] == (ScriptView::Loaded { name, bytes }),
        instantiate_outcome(sid, compile_pass(sid, loaded, events), after, h, r),
    ensures
        after.contains_key(h),
        after[h] is Instantiated ==> after[h].source() == bytes,
{
    lemma_compile_pass_pointwise(sid, loaded, events, h);
    let compiled = compile_pass(sid, loaded, events);
    assert(compiled.contains_key(h));
    assert(compiled[h] is Loaded || compiled[h] == (ScriptView::Compiled { name, source: bytes }));
}

/// All live script assets, keyed by their opaque handles.  Exactly one record
/// exists per handle, so for each (asset, consumer) pair at most one
/// instantiated state can exist at any instant.
pub struct ScriptRegistry {
    scripts: HashMap<u64, WasmScript>,
}

impl View for ScriptRegistry {
    type V = Map<u64, ScriptView>;

    closed spec fn view(&self) -> Map<u64, ScriptView> {
        views_of(self.scripts@)
    }
}

impl Default for ScriptRegistry {
    /// An empty table.
    fn default() -> (r: ScriptRegistry)
        ensures
            r@ == Map::<u64, ScriptView>::empty(),
    {
        ScriptRegistry::new()
    }
}

impl ScriptRegistry {
    /// An empty table.
    pub fn new() -> (r: ScriptRegistry)
        ensures
            r@ == Map::<u64, ScriptView>::empty(),
    {
        let r = ScriptRegistry { scripts: HashMap::new() };
        proof {
            assert(r@ =~= Map::<u64, ScriptView>::empty());
        }
        r
    }

    /// Whether a script is live under this handle.
    pub fn contains(&self, handle: u64) -> (r: bool)
        ensures
            r == self@.contains_key(handle),
    {
        let r = self.scripts.contains_key(&handle);
        proof {
            assert(self@.contains_key(handle) == self.scripts@.contains_key(handle));
        }
        r
    }

    /// The script under this handle, if any.
    pub fn get(&self, handle: u64) -> (r: Option<&WasmScript>)
        ensures
            match r {
                Some(s) => self@.contains_key(handle) && s@ == self@[handle],
                None => !self@.contains_key(handle),
            },
    {
        let r = self.scripts.get(&handle);
        proof {
            if r is Some {
                assert(self.scripts@.contains_key(handle));
                assert(self@[handle] == self.scripts@[handle]@);
            } else {
                assert(!self.scripts@.contains_key(handle));
            }
        }
        r
    }

    /// Publishes freshly loaded bytes under `handle`: a first load creates
    /// the record, a reload replaces whatever stage was there with the new
    /// raw bytes in one step.
    pub fn load(&mut self, handle: u64, name: String, bytes: Vec<u8>)
        ensures
            final(self)@ == old(self)@.insert(
                handle,
                ScriptView::Loaded { name: name@, bytes: bytes@ },
            ),
    {
        let ghost old_m = self.scripts@;
        let s = WasmScript::load(name, bytes);
        self.scripts.insert(handle, s);
        proof {
            lemma_views_of_insert(old_m, handle, s);
        }
    }

    /// One compile attempt for the script under `handle`: compiles it when it
    /// is freshly loaded, skips it (`Ok(false)`) in every other stage and for
    /// unknown handles, and reports rejected bytes — under the script's name —
    /// without changing anything.
    pub fn compile_if_loaded(&mut self, store: &WasmerStore, handle: u64) -> (r: Result<
        bool,
        CompileError,
    >)
        ensures
            final(self)@ == compile_event_step(store.id_spec(), old(self)@, handle),
            r == Ok::<bool, CompileError>(true) <==> (old(self)@.contains_key(handle) && old(
                self,
            )@[handle] is Loaded && valid_wasm(store.id_spec(), old(self)@[handle].source())),
            r is Err <==> (old(self)@.contains_key(handle) && old(self)@[handle] is Loaded
                && !valid_wasm(store.id_spec(), old(self)@[handle].source())),
            r is Err ==> r->Err_0.name@ == old(self)@[handle].name(),
    {
        let ghost old_m = self.scripts@;
        let is_loaded = match self.scripts.get(&handle) {
            Some(s) => s.is_loaded(),
            None => false,
        };
        if !is_loaded {
            proof {
                assert(self@ =~= compile_event_step(store.id_spec(), old(self)@, handle));
            }
            return Ok(false);
        }
        let mut s = match self.scripts.remove(&handle) {
            Some(s) => s,
            None => unreached(),
        };
        proof {
            lemma_views_of_remove(old_m, handle);
        }
        let res = s.compile(store);
        let ghost mid_m = self.scripts@;
        self.scripts.insert(handle, s);
        proof {
            lemma_views_of_insert(mid_m, handle, s);
            assert(self@ =~= compile_event_step(store.id_spec(), old(self)@, handle));
        }
        match res {
            Ok(()) => Ok(true),
            Err(e) => Err(e),
        }
    }

    /// One compile pass for this tick: every notification, in event order,
    /// triggers one compile attempt for its handle, so each distinct (re)load
    /// is compiled exactly once.  Rejected bytes leave their script loaded,
    /// and the rejections come back exactly one per failing load, in event
    /// order, under the failing script's name — reported, never dropped, and
    /// never retried here.  A pass over valid loads reports nothing.
    pub fn compile_wasm_scripts(&mut self, store: &WasmerStore, events: &Vec<AssetEvent>) -> (errors:
        Vec<CompileError>)
        ensures
            final(self)@ == compile_pass(store.id_spec(), old(self)@, events@),
            compile_error_names(errors@) == compile_failures(store.id_spec(), old(self)@, events@),
    {
        let n = events.len();
        let mut errors: Vec<CompileError> = Vec::new();
        let mut i: usize = 0;
        while i < n
            invariant
                n == events@.len(),
                0 <= i <= n,
                self@ == compile_pass(store.id_spec(), old(self)@, events@.take(i as int)),
                compile_error_names(errors@) == compile_failures(
                    store.id_spec(),
                    old(self)@,
                    events@.take(i as int),
                ),
            decreases n - i,
        {
            proof {
                assert(events@.take(i + 1).drop_last() =~= events@.take(i as int));
                assert(events@.take(i + 1).last() == events@[i as int]);
            }
            let ghost prev_errors = errors@;
            let h = match events[i] {
                AssetEvent::Created { handle } => handle,
                AssetEvent::Modified { handle } => handle,
            };
            match self.compile_if_loaded(store, h) {
                Ok(_) => {},
                Err(e) => {
                    errors.push(e);
                    proof {
                        assert(compile_error_names(errors@) =~= compile_error_names(
                            prev_errors,
                        ).push(errors@.last().name@));
                    }
                },
            }
            i += 1;
        }
        proof {
            assert(events@.take(n as int) =~= events@);
        }
        errors
    }

    /// One instantiation attempt for the script under `handle`, against one
    /// consumer's import table.
    pub fn instantiate_if_compiled(
        &mut self,
        store: &mut WasmerStore,
        handle: u64,
        imports: &wasmer::Imports,
    ) -> (r: Result<bool, InstantiationError>)
        ensures
            instantiate_outcome(old(store).id_spec(), old(self)@, final(self)@, handle, r),
            final(store).id_spec() == old(store).id_spec(),
    {
        let ghost old_m = self.scripts@;
        let mut s = match self.scripts.remove(&handle) {
            Some(s) => s,
            None => {
                proof {
                    assert(old_m.remove(handle) =~= old_m);
                    assert(self@ =~= old(self)@);
                }
                return Err(InstantiationError::AssetMissing);
            },
        };
        proof {
            lemma_views_of_remove(old_m, handle);
        }
        let res = s.instantiate_report(store, imports);
        let ghost mid_m = self.scripts@;
        self.scripts.insert(handle, s);
        proof {
            lemma_views_of_insert(mid_m, handle, s);
            assert(self@ =~= old(self)@.insert(handle, s@));
            assert(self@.dom() =~= old(self)@.dom());
            if !(res == Ok::<bool, InstantiationError>(true)) {
                assert(old(self)@.insert(handle, old(self)@[handle]) =~= old(self)@);
            }
        }
        res
    }

    /// Runs every scheduled handle through one instantiation attempt, in
    /// order.  Every scheduled script found compiled is attempted: it ends
    /// instantiated, or its link failure — under its name — is among the
    /// returned errors.  Unknown handles are reported as missing; no failure
    /// stops the pass, and a failure for one handle leaves every other script
    /// untouched.
    pub fn instantiate_scheduled(
        &mut self,
        store: &mut WasmerStore,
        handles: &Vec<u64>,
        imports: &wasmer::Imports,
    ) -> (errors: Vec<InstantiationError>)
        ensures
            final(self)@.dom() == old(self)@.dom(),
            forall|h: u64|
                old(self)@.contains_key(h) ==> instantiate_transition(
                    old(store).id_spec(),
                    old(self)@[h],
                    #[trigger] final(self)@[h],
                ),
            forall|h: u64|
                old(self)@.contains_key(h) && !handles@.contains(h) ==> final(self)@[h] == old(
                    self,
                )@[h],
            forall|h: u64|
                handles@.contains(h) && old(self)@.contains_key(h) && (#[trigger] old(
                    self,
                )@[h]) is Compiled ==> final(self)@[h] is Instantiated || link_failure_reported(
                    errors@,
                    old(self)@[h].name(),
                ),
            final(store).id_spec() == old(store).id_spec(),
    {
        let ghost sid = old(store).id_spec();
        let n = handles.len();
        let mut errors: Vec<InstantiationError> = Vec::new();
        let mut i: usize = 0;
        while i < n
            invariant
                n == handles@.len(),
                0 <= i <= n,
                store.id_spec() == sid,
                sid == old(store).id_spec(),
                self@.dom() == old(self)@.dom(),
                forall|h: u64|
                    old(self)@.contains_key(h) ==> instantiate_transition(
                        sid,
                        old(self)@[h],
                        #[trigger] self@[h],
                    ),
                forall|h: u64|
                    old(self)@.contains_key(h) && !handles@.take(i as int).contains(h)
                        ==> self@[h] == old(self)@[h],
                forall|h: u64|
                    handles@.take(i as int).contains(h) && old(self)@.contains_key(h) && (
                    #[trigger] old(self)@[h]) is Compiled ==> self@[h] is Instantiated
                        || link_failure_reported(errors@, old(self)@[h].name()),
            decreases n - i,
        {
            let ghost mid = self@;
            let ghost mid_errors = errors@;
            let h = handles[i];
            let res = self.instantiate_if_compiled(store, h, imports);
            let ghost gres = res;
            if let Err(e) = res {
                errors.push(e);
            }
            i += 1;
            proof {
                assert(handles@.take(i as int)[i - 1] == h);
                assert forall|x: u64| old(self)@.contains_key(x) implies instantiate_transition(
                    sid,
                    old(self)@[x],
                    #[trigger] self@[x],
                ) by {
                    if mid.contains_key(x) && x == h {
                        lemma_instantiate_transition_trans(sid, old(self)@[x], mid[x], self@[x]);
                    } else {
                        assert(self@[x] == mid[x]);
                    }
                }
                assert forall|x: u64|
                    old(self)@.contains_key(x) && !handles@.take(i as int).contains(
                        x,
                    ) implies self@[x] == old(self)@[x] by {
                    assert(x != h);
                    assert forall|j: int| 0 <= j < i - 1 implies #[trigger] handles@.take(i - 1)[j]
                        != x by {
                        assert(handles@.take(i as int)[j] == handles@.take(i - 1)[j]);
                    }
                    assert(!handles@.take(i - 1).contains(x));
                    assert(mid[x] == old(self)@[x]);
                    assert(self@[x] == mid[x]);
                }
                assert forall|x: u64|
                    handles@.take(i as int).contains(x) && old(self)@.contains_key(x) && (
                    #[trigger] old(self)@[x]) is Compiled implies self@[x] is Instantiated
                    || link_failure_reported(errors@, old(self)@[x].name()) by {
                    let was_before = handles@.take(i - 1).contains(x);
                    if was_before {
                        // the claim held at the top of this iteration; both halves persist
                        if mid[x] is Instantiated {
                            assert(self@[x] == mid[x]);
                        } else {
                            assert(link_failure_reported(mid_errors, old(self)@[x].name()));
                            let k = choose|k: int|
                                0 <= k < mid_errors.len() && ((#[trigger] mid_errors[k])
                                    matches InstantiationError::LinkFailed { name: n, .. } && n@
                                    == old(self)@[x].name());
                            assert(errors@[k] == mid_errors[k]);
                        }
                    } else {
                        assert(x == h);
                        assert(mid[x] == old(self)@[x]);
                        match gres {
                            Ok(published) => {
                                assert(gres == Ok::<bool, InstantiationError>(published));
                                assert(published);
                                assert(self@[x] is Instantiated);
                            },
                            Err(e) => {
                                assert(gres == Err::<bool, InstantiationError>(e));
                                assert(errors@ == mid_errors.push(e));
                                assert(errors@[mid_errors.len() as int] == e);
                            },
                        }
                    }
                }
            }
        }
        proof {
            assert(handles@.take(n as int) =~= handles@);
        }
        errors
    }

    /// One tick of change-driven instantiation for one consumer type: the
    /// reloaded assets that its live consumers reference, together with the
    /// handles of consumers added or retargeted this tick, duplicates
    /// collapsed, each run through one instantiation attempt.  Every scheduled
    /// script found compiled ends instantiated or has its link failure among
    /// the returned errors; scripts the tick did not schedule are untouched.
    pub fn instantiate_wasm_component_scripts(
        &mut self,
        store: &mut WasmerStore,
        events: &Vec<AssetEvent>,
        referenced: &Vec<u64>,
        added: &Vec<u64>,
        imports: &wasmer::Imports,
    ) -> (errors: Vec<InstantiationError>)
        ensures
            final(self)@.dom() == old(self)@.dom(),
            forall|h: u64|
                old(self)@.contains_key(h) ==> instantiate_transition(
                    old(store).id_spec(),
                    old(self)@[h],
                    #[trigger] final(self)@[h],
                ),
            forall|h: u64|
                old(self)@.contains_key(h) && !modified_referenced(events@, referenced@).contains(h)
                    && !added@.contains(h) ==> final(self)@[h] == old(self)@[h],
            forall|h: u64|
                (modified_referenced(events@, referenced@).contains(h) || added@.contains(h))
                    && old(self)@.contains_key(h) && (#[trigger] old(self)@[h]) is Compiled
                    ==> final(self)@[h] is Instantiated || link_failure_reported(
                    errors@,
                    old(self)@[h].name(),
                ),
            final(store).id_spec() == old(store).id_spec(),
    {
        let modified = get_modified_script_assets(events, referenced);
        let scheduled = instantiation_set(&modified, added);
        self.instantiate_scheduled(store, &scheduled, imports)
    }

    /// Reload-driven instantiation for a script attached to a singleton
    /// consumer: when one of this tick's notifications reloaded the asset,
    /// the script is run through one instantiation attempt; otherwise nothing
    /// happens.
    pub fn instantiate_resource_script(
        &mut self,
        store: &mut WasmerStore,
        events: &Vec<AssetEvent>,
        resource_handle: u64,
        imports: &wasmer::Imports,
    ) -> (r: Result<bool, InstantiationError>)
        ensures
            modified_handles(events@).contains(resource_handle) ==> instantiate_outcome(
                old(store).id_spec(),
                old(self)@,
                final(self)@,
                resource_handle,
                r,
            ),
            !modified_handles(events@).contains(resource_handle) ==> final(self)@ == old(self)@
                && r == Ok::<bool, InstantiationError>(false),
            final(store).id_spec() == old(store).id_spec(),
    {
        if is_script_asset_modified(events, resource_handle) {
            self.instantiate_if_compiled(store, resource_handle, imports)
        } else {
            Ok(false)
        }
    }

    /// The same reload-driven attempt for a consumer that may not have picked
    /// its script yet: with no handle there is nothing to do.
    pub fn instantiate_wasm_resource_scripts(
        &mut self,
        store: &mut WasmerStore,
        events: &Vec<AssetEvent>,
        resource_handle: Option<u64>,
        imports: &wasmer::Imports,
    ) -> (r: Result<bool, InstantiationError>)
        ensures
            match resource_handle {
                Some(h) => {
                    &&& (modified_handles(events@).contains(h) ==> instantiate_outcome(
                        old(store).id_spec(),
                        old(self)@,
                        final(self)@,
                        h,
                        r,
                    ))
                    &&& (!modified_handles(events@).contains(h) ==> final(self)@ == old(self)@ && r
                        == Ok::<bool, InstantiationError>(false))
                },
                None => final(self)@ == old(self)@ && r == Ok::<bool, InstantiationError>(false),
            },
            final(store).id_spec() == old(store).id_spec(),
    {
        match resource_handle {
            Some(h) => self.instantiate_resource_script(store, events, h, imports),
            None => Ok(false),
        }
    }
}

} // verus!
