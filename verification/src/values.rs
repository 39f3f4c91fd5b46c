//! Native values crossing the host/script boundary, and their kinds.

use vstd::prelude::*;

verus! {

/// The kind of a WebAssembly value, as a module's type section declares it.
#[derive(Clone, Copy, Debug, PartialEq, Eq, Structural)]
pub enum ValKind {
    I32,
    I64,
    F32,
    F64,
    V128,
    ExternRef,
    FuncRef,
    ExceptionRef,
}

/// A native argument or return value for a script call.  Only the two
/// integer kinds are carried — this crate cannot hold float values, not even
/// as bit patterns at the engine boundary — so an export whose signature
/// needs any other kind is treated as mismatched by the dispatcher.
#[derive(Clone, Copy, Debug, PartialEq, Eq, Structural)]
pub enum WasmValue {
    I32(i32),
    I64(i64),
}

impl WasmValue {
    pub open spec fn kind_spec(self) -> ValKind {
        match self {
            WasmValue::I32(_) => ValKind::I32,
            WasmValue::I64(_) => ValKind::I64,
        }
    }

    pub fn kind(&self) -> (k: ValKind)
        ensures
            k == self.kind_spec(),
    {
        match self {
            WasmValue::I32(_) => ValKind::I32,
            WasmValue::I64(_) => ValKind::I64,
        }
    }
}

/// The kinds of a value list, position by position.
pub open spec fn kinds_of(vs: Seq<WasmValue>) -> Seq<ValKind> {
    vs.map_values(|v: WasmValue| v.kind_spec())
}

/// Whether the dispatcher can carry a value of this kind.
pub open spec fn supported_kind(k: ValKind) -> bool {
    k == ValKind::I32 || k == ValKind::I64
}

/// Whether the dispatcher can carry every kind in the list.
pub open spec fn all_supported(ks: Seq<ValKind>) -> bool {
    forall|i: int| 0 <= i < ks.len() ==> supported_kind(#[trigger] ks[i])
}

/// Compares the kinds of the given values against a declared parameter list.
pub fn kinds_match(args: &Vec<WasmValue>, params: &Vec<ValKind>) -> (r: bool)
    ensures
        r <==> kinds_of(args@) == params@,
{
    if args.len() != params.len() {
        proof {
            assert(kinds_of(args@).len() == args@.len());
        }
        return false;
    }
    let n = args.len();
    let mut i: usize = 0;
    while i < n
        invariant
            n == args@.len() == params@.len(),
            0 <= i <= n,
            forall|j: int| 0 <= j < i ==> kinds_of(args@)[j] == params@[j],
        decreases n - i,
    {
        if args[i].kind() != params[i] {
            proof {
                assert(kinds_of(args@)[i as int] != params@[i as int]);
            }
            return false;
        }
        i += 1;
    }
    proof {
        assert(kinds_of(args@) =~= params@);
    }
    true
}

/// Checks that every kind in the list is one the dispatcher can carry.
pub fn all_kinds_supported(ks: &Vec<ValKind>) -> (r: bool)
    ensures
        r <==> all_supported(ks@),
{
    let n = ks.len();
    let mut i: usize = 0;
    while i < n
        invariant
            n == ks@.len(),
            0 <= i <= n,
            forall|j: int| 0 <= j < i ==> supported_kind(#[trigger] ks@[j]),
        decreases n - i,
    {
        let k = ks[i];
        if !(k == ValKind::I32 || k == ValKind::I64) {
            return false;
        }
        i += 1;
    }
    true
}

} // verus!
