//! Change tracking: which script assets need (re)instantiation this tick.
//!
//! Given the loader's notifications since the last tick and the handles the
//! live consumers reference, these functions yield the minimal set of assets
//! to run through instantiation.

use vstd::prelude::*;

verus! {

/// A loader notification about one script asset, keyed by its opaque handle.
#[derive(Clone, Copy, Debug, PartialEq, Eq, Structural)]
pub enum AssetEvent {
    /// The asset was loaded for the first time.
    Created { handle: u64 },
    /// The asset was reloaded with new bytes.
    Modified { handle: u64 },
}

impl AssetEvent {
    pub open spec fn handle(self) -> u64 {
        match self {
            AssetEvent::Created { handle } => handle,
            AssetEvent::Modified { handle } => handle,
        }
    }
}

/// The handles of the reload notifications, in event order.
pub open spec fn modified_handles(events: Seq<AssetEvent>) -> Seq<u64>
    decreases events.len(),
{
    if events.len() == 0 {
        Seq::empty()
    } else {
        let rest = modified_handles(events.drop_last());
        if events.last() is Modified {
            rest.push(events.last().handle())
        } else {
            rest
        }
    }
}

/// The handles of the reload notifications that some live consumer
/// references, in event order.
pub open spec fn modified_referenced(events: Seq<AssetEvent>, refs: Seq<u64>) -> Seq<u64>
    decreases events.len(),
{
    if events.len() == 0 {
        Seq::empty()
    } else {
        let rest = modified_referenced(events.drop_last(), refs);
        if events.last() is Modified && refs.contains(events.last().handle()) {
            rest.push(events.last().handle())
        } else {
            rest
        }
    }
}

/// A handle is among the modified ones exactly when some event reloaded it.
pub proof fn lemma_modified_handles_membership(events: Seq<AssetEvent>, h: u64)
    ensures
        modified_handles(events).contains(h) <==> exists|i: int|
            0 <= i < events.len() && (#[trigger] events[i]) is Modified && events[i].handle() == h,
    decreases events.len(),
{
    if events.len() > 0 {
        let prefix = events.drop_last();
        lemma_modified_handles_membership(prefix, h);
        let rest = modified_handles(prefix);
        let last = events.last();
        let cur = modified_handles(events);
        if cur.contains(h) {
            if last is Modified && last.handle() == h {
                assert(events[events.len() - 1] is Modified && events[events.len() - 1].handle()
                    == h);
            } else {
                if last is Modified {
                    let j = choose|j: int| 0 <= j < cur.len() && cur[j] == h;
                    assert(rest[j] == h);
                }
                assert(rest.contains(h));
                let i = choose|i: int|
                    0 <= i < prefix.len() && (#[trigger] prefix[i]) is Modified
                        && prefix[i].handle() == h;
                assert(events[i] == prefix[i]);
            }
        }
        if exists|i: int|
            0 <= i < events.len() && (#[trigger] events[i]) is Modified && events[i].handle()
                == h {
            let i = choose|i: int|
                0 <= i < events.len() && (#[trigger] events[i]) is Modified && events[i].handle()
                    == h;
            if i == events.len() - 1 {
                assert(cur == rest.push(h));
                assert(cur[rest.len() as int] == h);
            } else {
                assert(prefix[i] == events[i]);
                assert(rest.contains(h));
                let j = choose|j: int| 0 <= j < rest.len() && rest[j] == h;
                if last is Modified {
                    assert(cur[j] == rest[j]);
                } else {
                    assert(cur == rest);
                }
            }
            assert(cur.contains(h));
        }
    }
}

/// A handle is scheduled exactly when some event reloaded it and a live
/// consumer references it.
pub proof fn lemma_modified_referenced_membership(events: Seq<AssetEvent>, refs: Seq<u64>, h: u64)
    ensures
        modified_referenced(events, refs).contains(h) <==> modified_handles(events).contains(h)
            && refs.contains(h),
    decreases events.len(),
{
    lemma_modified_handles_membership(events, h);
    if events.len() > 0 {
        let prefix = events.drop_last();
        lemma_modified_referenced_membership(prefix, refs, h);
        lemma_modified_handles_membership(prefix, h);
        let rest = modified_referenced(events, refs);
        let rest_prefix = modified_referenced(prefix, refs);
        let last = events.last();
        if rest.contains(h) {
            if last is Modified && refs.contains(last.handle()) && last.handle() == h {
                assert(events[events.len() - 1] is Modified && events[events.len() - 1].handle()
                    == h);
                lemma_modified_handles_membership(events, h);
            } else {
                if last is Modified && refs.contains(last.handle()) {
                    let j = choose|j: int| 0 <= j < rest.len() && rest[j] == h;
                    assert(rest_prefix[j] == h);
                }
                assert(rest_prefix.contains(h));
                let i = choose|i: int|
                    0 <= i < prefix.len() && (#[trigger] prefix[i]) is Modified
                        && prefix[i].handle() == h;
                assert(events[i] == prefix[i]);
            }
        }
        if modified_handles(events).contains(h) && refs.contains(h) {
            let i = choose|i: int|
                0 <= i < events.len() && (#[trigger] events[i]) is Modified && events[i].handle()
                    == h;
            if i == events.len() - 1 {
                assert(rest == rest_prefix.push(h));
                assert(rest[rest_prefix.len() as int] == h);
            } else {
                assert(prefix[i] == events[i]);
                assert(rest_prefix.contains(h));
                let j = choose|j: int| 0 <= j < rest_prefix.len() && rest_prefix[j] == h;
                if last is Modified && refs.contains(last.handle()) {
                    assert(rest[j] == rest_prefix[j]);
                } else {
                    assert(rest == rest_prefix);
                }
            }
            assert(rest.contains(h));
        }
    }
}

/// Whether `v` holds `h`.
fn contains_handle(v: &Vec<u64>, h: u64) -> (r: bool)
    ensures
        r <==> v@.contains(h),
{
    let n = v.len();
    let mut i: usize = 0;
    while i < n
        invariant
            n == v@.len(),
            0 <= i <= n,
            forall|j: int| 0 <= j < i ==> v@[j] != h,
        decreases n - i,
    {
        if v[i] == h {
            return true;
        }
        i += 1;
    }
    false
}

/// The reloaded assets that at least one live consumer references, in event
/// order; reloads of orphaned assets are dropped.
pub fn get_modified_script_assets(events: &Vec<AssetEvent>, referenced: &Vec<u64>) -> (r: Vec<u64>)
    ensures
        r@ == modified_referenced(events@, referenced@),
{
    let n = events.len();
    let mut r: Vec<u64> = Vec::new();
    let mut i: usize = 0;
    while i < n
        invariant
            n == events@.len(),
            0 <= i <= n,
            r@ == modified_referenced(events@.take(i as int), referenced@),
        decreases n - i,
    {
        proof {
            assert(events@.take(i + 1).drop_last() =~= events@.take(i as int));
            assert(events@.take(i + 1).last() == events@[i as int]);
        }
        match events[i] {
            AssetEvent::Modified { handle } => {
                if contains_handle(referenced, handle) {
                    r.push(handle);
                }
            },
            AssetEvent::Created { .. } => {},
        }
        i += 1;
    }
    proof {
        assert(events@.take(n as int) =~= events@);
    }
    r
}

/// The handles referenced by consumers that were added or retargeted this
/// tick, each once, in first-appearance order.
pub fn get_added_script_assets(added: &Vec<u64>) -> (r: Vec<u64>)
    ensures
        r@.no_duplicates(),
        forall|h: u64| r@.contains(h) <==> added@.contains(h),
{
    let n = added.len();
    let mut r: Vec<u64> = Vec::new();
    let mut i: usize = 0;
    while i < n
        invariant
            n == added@.len(),
            0 <= i <= n,
            r@.no_duplicates(),
            forall|h: u64| r@.contains(h) <==> added@.take(i as int).contains(h),
        decreases n - i,
    {
        let h = added[i];
        let ghost prev = r@;
        let absent = !contains_handle(&r, h);
        if absent {
            r.push(h);
        }
        proof {
            let cur = added@.take(i + 1);
            assert(cur.drop_last() =~= added@.take(i as int));
            assert(cur[i as int] == added@[i as int]);
            if absent {
                assert(r@ == prev.push(h));
                assert forall|a: int, b: int| 0 <= a < b < r@.len() implies r@[a] != r@[b] by {
                    if b < prev.len() {
                        assert(prev[a] != prev[b]);
                    } else {
                        assert(r@[b] == h);
                        assert(r@[a] == prev[a]);
                        assert(prev.contains(prev[a]));
                    }
                }
                assert(r@.no_duplicates());
            }
            assert forall|x: u64| r@.contains(x) implies cur.contains(x) by {
                let j = choose|j: int| 0 <= j < r@.len() && r@[j] == x;
                if absent && j == prev.len() {
                    assert(cur[i as int] == h);
                } else {
                    assert(prev[j] == x);
                    assert(prev.contains(x));
                    assert(added@.take(i as int).contains(x));
                    let k = choose|k: int|
                        0 <= k < added@.take(i as int).len() && added@.take(i as int)[k] == x;
                    assert(cur[k] == x);
                }
            }
            assert forall|x: u64| cur.contains(x) implies r@.contains(x) by {
                let j = choose|j: int| 0 <= j < cur.len() && cur[j] == x;
                if j < i {
                    assert(added@.take(i as int)[j] == x);
                    assert(added@.take(i as int).contains(x));
                    assert(prev.contains(x));
                    let k = choose|k: int| 0 <= k < prev.len() && prev[k] == x;
                    assert(r@[k] == prev[k]);
                } else {
                    assert(x == h);
                    if absent {
                        assert(r@[prev.len() as int] == h);
                    } else {
                        assert(prev.contains(h));
                        let k = choose|k: int| 0 <= k < prev.len() && prev[k] == h;
                        assert(r@[k] == h);
                    }
                }
            }
        }
        i += 1;
    }
    proof {
        assert(added@.take(n as int) =~= added@);
    }
    r
}

/// Whether any notification this tick reloaded the given asset.
pub fn is_script_asset_modified(events: &Vec<AssetEvent>, resource_handle: u64) -> (r: bool)
    ensures
        r <==> modified_handles(events@).contains(resource_handle),
{
    let n = events.len();
    let mut i: usize = 0;
    while i < n
        invariant
            n == events@.len(),
            0 <= i <= n,
            forall|j: int|
                0 <= j < i ==> !((#[trigger] events@[j]) is Modified && events@[j].handle()
                    == resource_handle),
        decreases n - i,
    {
        match events[i] {
            AssetEvent::Modified { handle } => {
                if handle == resource_handle {
                    proof {
                        lemma_modified_handles_membership(events@, resource_handle);
                    }
                    return true;
                }
            },
            AssetEvent::Created { .. } => {},
        }
        i += 1;
    }
    proof {
        lemma_modified_handles_membership(events@, resource_handle);
    }
    false
}

/// The assets to run through instantiation this tick: the referenced reloads
/// and the handles of new or retargeted consumers, duplicates collapsed.
pub fn instantiation_set(modified: &Vec<u64>, added: &Vec<u64>) -> (r: Vec<u64>)
    ensures
        r@.no_duplicates(),
        forall|h: u64| r@.contains(h) <==> modified@.contains(h) || added@.contains(h),
{
    let mut all: Vec<u64> = Vec::new();
    let mut i: usize = 0;
    let n1 = modified.len();
    while i < n1
        invariant
            n1 == modified@.len(),
            0 <= i <= n1,
            all@ == modified@.take(i as int),
        decreases n1 - i,
    {
        all.push(modified[i]);
        proof {
            assert(all@ =~= modified@.take(i + 1));
        }
        i += 1;
    }
    let mut j: usize = 0;
    let n2 = added.len();
    while j < n2
        invariant
            n2 == added@.len(),
            0 <= j <= n2,
            all@ == modified@.take(n1 as int) + added@.take(j as int),
            n1 == modified@.len(),
        decreases n2 - j,
    {
        all.push(added[j]);
        proof {
            assert(all@ =~= modified@.take(n1 as int) + added@.take(j + 1));
        }
        j += 1;
    }
    proof {
        assert(modified@.take(n1 as int) =~= modified@);
        assert(added@.take(n2 as int) =~= added@);
        assert forall|h: u64| all@.contains(h) implies modified@.contains(h) || added@.contains(
            h,
        ) by {
            let k = choose|k: int| 0 <= k < all@.len() && all@[k] == h;
            if k < modified@.len() {
                assert(modified@[k] == h);
            } else {
                assert(added@[k - modified@.len()] == h);
            }
        }
        assert forall|h: u64| modified@.contains(h) || added@.contains(h) implies all@.contains(
            h,
        ) by {
            if modified@.contains(h) {
                let k = choose|k: int| 0 <= k < modified@.len() && modified@[k] == h;
                assert(all@[k] == h);
            } else {
                let k = choose|k: int| 0 <= k < added@.len() && added@[k] == h;
                assert(all@[k + modified@.len()] == h);
            }
        }
    }
    get_added_script_assets(&all)
}

/// One reload event re-instantiates every consumer of the asset: a modified
/// handle that a consumer set references is always scheduled for that set,
/// whichever other sets reference it.
pub proof fn lemma_reload_reaches_every_consumer(
    events: Seq<AssetEvent>,
    refs_a: Seq<u64>,
    refs_b: Seq<u64>,
    h: u64,
)
    requires
        modified_handles(events).contains(h),
        refs_a.contains(h),
        refs_b.contains(h),
    ensures
        modified_referenced(events, refs_a).contains(h),
        modified_referenced(events, refs_b).contains(h),
{
    lemma_modified_referenced_membership(events, refs_a, h);
    lemma_modified_referenced_membership(events, refs_b, h);
}

} // verus!
