use vstd::prelude::*;

use crate::analyze::{AccessMode, FunctionDescriptor, ParamBindingV};

verus! {

/// The borrow discipline a handle is under at one instant: no borrow, one or
/// more shared borrows, or a single exclusive borrow.
#[derive(Clone, Copy, Debug, PartialEq, Eq, Structural)]
pub enum BorrowState {
    Unborrowed,
    Shared,
    Exclusive,
}

/// An opaque handle as the dynamic runtime keeps it: the name of the native
/// type it denotes, and its current borrow state.
#[derive(Debug)]
pub struct Handle {
    pub native_type: String,
    pub state: BorrowState,
}

/// Mathematical view of a [`Handle`].
#[verifier::ext_equal]
pub struct HandleV {
    pub native_type: Seq<char>,
    pub state: BorrowState,
}

impl View for Handle {
    type V = HandleV;

    open spec fn view(&self) -> HandleV {
        HandleV { native_type: self.native_type@, state: self.state }
    }
}

/// A runtime-level call failure: the handle's native type is not the one the
/// wrapper asks for, the requested borrow would break the discipline, or the
/// wrapped function's own failure, carrying its rendered description.
#[derive(Debug)]
pub enum RuntimeError {
    TypeMismatch,
    BorrowViolation,
    NativeFailure { message: String },
}

/// Mathematical view of a [`RuntimeError`].
#[verifier::ext_equal]
pub enum RuntimeErrorV {
    TypeMismatch,
    BorrowViolation,
    NativeFailure { message: Seq<char> },
}

impl View for RuntimeError {
    type V = RuntimeErrorV;

    open spec fn view(&self) -> RuntimeErrorV {
        match self {
            RuntimeError::TypeMismatch => RuntimeErrorV::TypeMismatch,
            RuntimeError::BorrowViolation => RuntimeErrorV::BorrowViolation,
            RuntimeError::NativeFailure { message } => RuntimeErrorV::NativeFailure {
                message: message@,
            },
        }
    }
}

/// Whether a borrow request is granted on a handle in the given state: a
/// shared request is refused only under an exclusive borrow; an exclusive
/// request is refused under any outstanding borrow.
pub open spec fn spec_granted(s: BorrowState, exclusive: bool) -> bool {
    if exclusive {
        s is Unborrowed
    } else {
        !(s is Exclusive)
    }
}

/// The state a handle moves to when a borrow request is granted.
pub open spec fn spec_after_grant(exclusive: bool) -> BorrowState {
    if exclusive {
        BorrowState::Exclusive
    } else {
        BorrowState::Shared
    }
}

/// Two resolutions of the same handle, the first still outstanding, cannot
/// both be granted when at least one of them is exclusive: whichever of the
/// two asks second is refused with a borrow violation.
pub proof fn lemma_exclusivity(s: BorrowState, first_exclusive: bool, second_exclusive: bool)
    requires
        first_exclusive || second_exclusive,
    ensures
        !(spec_granted(s, first_exclusive) && spec_granted(
            spec_after_grant(first_exclusive),
            second_exclusive,
        )),
{
}

/// Resolve a handle into a shared native reference of the expected type.
///
/// Succeeds exactly when the handle's native type matches and no exclusive
/// borrow is outstanding; a wrong type is a type mismatch, an exclusive
/// borrow outstanding is a borrow violation; the handle is left unchanged on
/// failure.
pub fn resolve_shared(h: &mut Handle, expected: &str) -> (r: Result<(), RuntimeError>)
    ensures
        final(h).native_type@ == old(h).native_type@,
        r is Ok <==> (old(h).native_type@ == expected@ && spec_granted(old(h).state, false)),
        r is Ok ==> final(h).state == spec_after_grant(false),
        r is Err ==> final(h).state == old(h).state,
        r matches Err(e) ==> (e@ is TypeMismatch <==> old(h).native_type@ != expected@),
        r matches Err(e) ==> (e@ is BorrowViolation <==> old(h).native_type@ == expected@
            && !spec_granted(old(h).state, false)),
{
    let expected_s: String = expected.to_owned();
    if !h.native_type.eq(&expected_s) {
        Err(RuntimeError::TypeMismatch)
    } else {
        match h.state {
            BorrowState::Exclusive => Err(RuntimeError::BorrowViolation),
            _ => {
                h.state = BorrowState::Shared;
                Ok(())
            },
        }
    }
}

/// Resolve a handle into an exclusive native reference of the expected type.
///
/// Succeeds exactly when the handle's native type matches and no borrow of
/// any kind is outstanding; a wrong type is a type mismatch, any outstanding
/// borrow is a borrow violation; the handle is left unchanged on failure.
pub fn resolve_exclusive(h: &mut Handle, expected: &str) -> (r: Result<(), RuntimeError>)
    ensures
        final(h).native_type@ == old(h).native_type@,
        r is Ok <==> (old(h).native_type@ == expected@ && spec_granted(old(h).state, true)),
        r is Ok ==> final(h).state == spec_after_grant(true),
        r is Err ==> final(h).state == old(h).state,
        r matches Err(e) ==> (e@ is TypeMismatch <==> old(h).native_type@ != expected@),
        r matches Err(e) ==> (e@ is BorrowViolation <==> old(h).native_type@ == expected@
            && !spec_granted(old(h).state, true)),
{
    let expected_s: String = expected.to_owned();
    if !h.native_type.eq(&expected_s) {
        Err(RuntimeError::TypeMismatch)
    } else {
        match h.state {
            BorrowState::Unborrowed => {
                h.state = BorrowState::Exclusive;
                Ok(())
            },
            _ => Err(RuntimeError::BorrowViolation),
        }
    }
}

/// One argument of a wrapper invocation: an owned dynamic value, or an opaque
/// handle named by its slot in the runtime's handle store.
#[derive(Clone, Copy, Debug, PartialEq, Eq, Structural)]
pub enum CallArg {
    Owned,
    Handle { index: usize },
}

/// What the wrapped native function itself did: returned its payload, or
/// failed with the given rendered description.
#[derive(Debug)]
pub enum NativeOutcome {
    Success,
    Failure { message: String },
}

/// Mathematical view of a [`NativeOutcome`].
#[verifier::ext_equal]
pub enum NativeOutcomeV {
    Success,
    Failure { message: Seq<char> },
}

impl View for NativeOutcome {
    type V = NativeOutcomeV;

    open spec fn view(&self) -> NativeOutcomeV {
        match self {
            NativeOutcome::Success => NativeOutcomeV::Success,
            NativeOutcome::Failure { message } => NativeOutcomeV::Failure { message: message@ },
        }
    }
}

/// What a wrapper invocation hands back to the dynamic caller: a successful
/// value, or a runtime-level failure.
#[derive(Debug)]
pub enum CallResult {
    Value,
    RuntimeFailure { error: RuntimeError },
}

/// Mathematical view of a [`CallResult`].
#[verifier::ext_equal]
pub enum CallResultV {
    Value,
    RuntimeFailure { error: RuntimeErrorV },
}

impl View for CallResult {
    type V = CallResultV;

    open spec fn view(&self) -> CallResultV {
        match self {
            CallResult::Value => CallResultV::Value,
            CallResult::RuntimeFailure { error } => CallResultV::RuntimeFailure { error: error@ },
        }
    }
}

/// The store slot an argument names, or a marker outside every store.
pub open spec fn spec_arg_index(a: CallArg) -> int {
    match a {
        CallArg::Handle { index } => index as int,
        CallArg::Owned => -1,
    }
}

/// Whether an argument tuple lines up with a parameter list: same length, an
/// owned value exactly for each owned slot, and every named store slot in
/// range.
pub open spec fn spec_args_aligned(ps: Seq<ParamBindingV>, args: Seq<CallArg>, store_len: int) -> bool {
    &&& args.len() == ps.len()
    &&& forall|k: int| 0 <= k < ps.len() ==> ((#[trigger] ps[k].mode is Owned) <==> args[k] is Owned)
    &&& forall|k: int| 0 <= k < ps.len() && !(ps[k].mode is Owned) ==> 0 <= #[trigger] spec_arg_index(args[k]) < store_len
}

/// The view of a whole handle store.
pub open spec fn spec_store_v(s: Seq<Handle>) -> Seq<HandleV> {
    s.map_values(|h: Handle| h@)
}

/// The borrow preamble of a wrapper invocation, from parameter `i` on: each
/// borrowed slot's handle is resolved in declaration order, under the
/// discipline of [`spec_granted`]; the first refusal is the preamble's
/// error, and a wrong native type is reported as a type mismatch before the
/// discipline is consulted.
pub open spec fn spec_borrow_phase(
    ps: Seq<ParamBindingV>,
    args: Seq<CallArg>,
    store: Seq<HandleV>,
    i: int,
) -> Result<Seq<HandleV>, RuntimeErrorV>
    decreases ps.len() - i,
{
    if 0 <= i < ps.len() {
        match ps[i].mode {
            AccessMode::Owned => spec_borrow_phase(ps, args, store, i + 1),
            _ => {
                let exclusive = ps[i].mode is ExclusiveRef;
                let idx = spec_arg_index(args[i]);
                if !(0 <= idx < store.len()) {
                    Err(RuntimeErrorV::TypeMismatch)
                } else if store[idx].native_type != ps[i].declared_type {
                    Err(RuntimeErrorV::TypeMismatch)
                } else if !spec_granted(store[idx].state, exclusive) {
                    Err(RuntimeErrorV::BorrowViolation)
                } else {
                    spec_borrow_phase(
                        ps,
                        args,
                        store.update(
                            idx,
                            HandleV {
                                native_type: store[idx].native_type,
                                state: spec_after_grant(exclusive),
                            },
                        ),
                        i + 1,
                    )
                }
            },
        }
    } else {
        Ok(store)
    }
}

/// How a wrapper converts what the native function did: a non-fallible
/// declaration's result is always a value; a fallible declaration's success
/// is the unwrapped payload and its failure is a runtime error carrying the
/// failure's rendered description.
pub open spec fn spec_convert(fallible: bool, o: NativeOutcomeV) -> CallResultV {
    if !fallible {
        CallResultV::Value
    } else {
        match o {
            NativeOutcomeV::Success => CallResultV::Value,
            NativeOutcomeV::Failure { message } => CallResultV::RuntimeFailure {
                error: RuntimeErrorV::NativeFailure { message },
            },
        }
    }
}

/// The result of one whole wrapper invocation: the borrow preamble's error
/// if any slot's resolution is refused, the converted native outcome
/// otherwise.
pub open spec fn spec_invoke_result(
    ps: Seq<ParamBindingV>,
    fallible: bool,
    args: Seq<CallArg>,
    store: Seq<HandleV>,
    o: NativeOutcomeV,
) -> CallResultV {
    match spec_borrow_phase(ps, args, store, 0) {
        Err(e) => CallResultV::RuntimeFailure { error: e },
        Ok(_) => spec_convert(fallible, o),
    }
}

/// A granted borrow never changes which native type a handle denotes, nor
/// the length of the store.
proof fn lemma_borrow_phase_preserves_types(
    ps: Seq<ParamBindingV>,
    args: Seq<CallArg>,
    store: Seq<HandleV>,
    i: int,
)
    ensures
        spec_borrow_phase(ps, args, store, i) matches Ok(s2) ==> s2.len() == store.len()
            && forall|j: int| 0 <= j < store.len() ==> #[trigger] s2[j].native_type
            == store[j].native_type,
    decreases ps.len() - i,
{
    if 0 <= i < ps.len() {
        match ps[i].mode {
            AccessMode::Owned => lemma_borrow_phase_preserves_types(ps, args, store, i + 1),
            _ => {
                let exclusive = ps[i].mode is ExclusiveRef;
                let idx = spec_arg_index(args[i]);
                if 0 <= idx < store.len() && store[idx].native_type == ps[i].declared_type
                    && spec_granted(store[idx].state, exclusive) {
                    let s1 = store.update(
                        idx,
                        HandleV {
                            native_type: store[idx].native_type,
                            state: spec_after_grant(exclusive),
                        },
                    );
                    lemma_borrow_phase_preserves_types(ps, args, s1, i + 1);
                }
            },
        }
    }
}

/// Whether one argument slot is compatible with the store: the right kind of
/// value for its mode, and for a borrowed slot a handle of the declared
/// native type with no borrow outstanding.
pub open spec fn spec_compat_at(
    ps: Seq<ParamBindingV>,
    args: Seq<CallArg>,
    store: Seq<HandleV>,
    k: int,
) -> bool {
    if ps[k].mode is Owned {
        args[k] is Owned
    } else {
        &&& args[k] is Handle
        &&& 0 <= spec_arg_index(args[k]) < store.len()
        &&& store[spec_arg_index(args[k])].native_type == ps[k].declared_type
        &&& store[spec_arg_index(args[k])].state is Unborrowed
    }
}

/// Valid handles for one invocation: every slot compatible, and no handle
/// passed in two borrowed slots of which at least one is exclusive. Passing
/// one handle in several shared slots is allowed.
pub open spec fn spec_args_compatible(
    ps: Seq<ParamBindingV>,
    args: Seq<CallArg>,
    store: Seq<HandleV>,
) -> bool {
    &&& args.len() == ps.len()
    &&& forall|k: int| 0 <= k < ps.len() ==> #[trigger] spec_compat_at(ps, args, store, k)
    &&& forall|k1: int, k2: int|
        0 <= k1 < k2 < ps.len() && !(ps[k1].mode is Owned) && !(ps[k2].mode is Owned) && (
        ps[k1].mode is ExclusiveRef || ps[k2].mode is ExclusiveRef)
            ==> #[trigger] spec_arg_index(args[k1]) != #[trigger] spec_arg_index(args[k2])
}

/// Whether one argument slot can still be resolved against the store as it
/// stands mid-preamble: an exclusive slot needs its handle unborrowed, a
/// shared slot only needs it free of an exclusive borrow.
pub open spec fn spec_slot_ready(
    ps: Seq<ParamBindingV>,
    args: Seq<CallArg>,
    store: Seq<HandleV>,
    k: int,
) -> bool {
    if ps[k].mode is Owned {
        args[k] is Owned
    } else {
        &&& args[k] is Handle
        &&& 0 <= spec_arg_index(args[k]) < store.len()
        &&& store[spec_arg_index(args[k])].native_type == ps[k].declared_type
        &&& if ps[k].mode is ExclusiveRef {
            store[spec_arg_index(args[k])].state is Unborrowed
        } else {
            !(store[spec_arg_index(args[k])].state is Exclusive)
        }
    }
}

/// When every remaining slot is still resolvable and no exclusive slot
/// shares its handle with another borrowed slot, every resolution of the
/// borrow preamble is granted.
proof fn lemma_ready_borrows_ok(
    ps: Seq<ParamBindingV>,
    args: Seq<CallArg>,
    store: Seq<HandleV>,
    i: int,
)
    requires
        args.len() == ps.len(),
        forall|k: int| i <= k < ps.len() ==> #[trigger] spec_slot_ready(ps, args, store, k),
        forall|k1: int, k2: int|
            i <= k1 < k2 < ps.len() && !(ps[k1].mode is Owned) && !(ps[k2].mode is Owned) && (
            ps[k1].mode is ExclusiveRef || ps[k2].mode is ExclusiveRef)
                ==> #[trigger] spec_arg_index(args[k1]) != #[trigger] spec_arg_index(args[k2]),
    ensures
        spec_borrow_phase(ps, args, store, i) is Ok,
    decreases ps.len() - i,
{
    if 0 <= i < ps.len() {
        if ps[i].mode is Owned {
            lemma_ready_borrows_ok(ps, args, store, i + 1);
        } else {
            let exclusive = ps[i].mode is ExclusiveRef;
            let idx = spec_arg_index(args[i]);
            assert(spec_slot_ready(ps, args, store, i));
            let s1 = store.update(
                idx,
                HandleV { native_type: store[idx].native_type, state: spec_after_grant(exclusive) },
            );
            assert forall|k: int| i + 1 <= k < ps.len() implies #[trigger] spec_slot_ready(
                ps,
                args,
                s1,
                k,
            ) by {
                assert(spec_slot_ready(ps, args, store, k));
                if !(ps[k].mode is Owned) && spec_arg_index(args[k]) == idx {
                    assert(!(ps[k].mode is ExclusiveRef) && !exclusive);
                }
            }
            lemma_ready_borrows_ok(ps, args, s1, i + 1);
        }
    }
}

/// With valid handles, every resolution of the borrow preamble is granted.
proof fn lemma_compatible_borrows_ok(
    ps: Seq<ParamBindingV>,
    args: Seq<CallArg>,
    store: Seq<HandleV>,
    i: int,
)
    requires
        args.len() == ps.len(),
        forall|k: int| i <= k < ps.len() ==> #[trigger] spec_compat_at(ps, args, store, k),
        forall|k1: int, k2: int|
            i <= k1 < k2 < ps.len() && !(ps[k1].mode is Owned) && !(ps[k2].mode is Owned) && (
            ps[k1].mode is ExclusiveRef || ps[k2].mode is ExclusiveRef)
                ==> #[trigger] spec_arg_index(args[k1]) != #[trigger] spec_arg_index(args[k2]),
    ensures
        spec_borrow_phase(ps, args, store, i) is Ok,
    decreases ps.len() - i,
{
    assert forall|k: int| i <= k < ps.len() implies #[trigger] spec_slot_ready(
        ps,
        args,
        store,
        k,
    ) by {
        assert(spec_compat_at(ps, args, store, k));
    }
    lemma_ready_borrows_ok(ps, args, store, i);
}

/// Given valid handles, a wrapper invocation for a declaration with a
/// non-fallible return type always yields a value, never a runtime error.
pub proof fn theorem_infallible_yields_value(
    ps: Seq<ParamBindingV>,
    args: Seq<CallArg>,
    store: Seq<HandleV>,
    o: NativeOutcomeV,
)
    requires
        spec_args_compatible(ps, args, store),
    ensures
        spec_invoke_result(ps, false, args, store, o) == CallResultV::Value,
{
    lemma_compatible_borrows_ok(ps, args, store, 0);
}

/// Given valid handles, a wrapper invocation for a declaration with a
/// fallible return type yields the unwrapped payload on a native success,
/// and on a native failure a runtime error whose message equals the
/// failure's rendered description.
pub proof fn theorem_fallible_conversion(
    ps: Seq<ParamBindingV>,
    args: Seq<CallArg>,
    store: Seq<HandleV>,
    o: NativeOutcomeV,
)
    requires
        spec_args_compatible(ps, args, store),
    ensures
        o is Success ==> spec_invoke_result(ps, true, args, store, o) == CallResultV::Value,
        o matches NativeOutcomeV::Failure { message } ==> spec_invoke_result(
            ps,
            true,
            args,
            store,
            o,
        ) == (CallResultV::RuntimeFailure {
            error: RuntimeErrorV::NativeFailure { message },
        }),
{
    lemma_compatible_borrows_ok(ps, args, store, 0);
}

/// The borrow states of every handle in the store, by slot.
fn saved_states(store: &Vec<Handle>) -> (r: Vec<BorrowState>)
    ensures
        r@.len() == store@.len(),
        forall|j: int| 0 <= j < store@.len() ==> r@[j] == store@[j]@.state,
{
    let mut r: Vec<BorrowState> = Vec::new();
    let mut j: usize = 0;
    while j < store.len()
        invariant
            j <= store.len(),
            r@.len() == j,
            forall|k: int| 0 <= k < j ==> r@[k] == store@[k]@.state,
        decreases store.len() - j,
    {
        r.push(store[j].state);
        j = j + 1;
    }
    r
}

/// Put every handle back into the given borrow state, slot by slot.
fn restore_states(store: &mut Vec<Handle>, saved: &Vec<BorrowState>)
    requires
        old(store)@.len() == saved@.len(),
    ensures
        final(store)@.len() == old(store)@.len(),
        forall|j: int| 0 <= j < old(store)@.len() ==> #[trigger] final(store)@[j]@ == (HandleV {
            native_type: old(store)@[j]@.native_type,
            state: saved@[j],
        }),
{
    let mut j: usize = 0;
    while j < store.len()
        invariant
            store@.len() == old(store)@.len(),
            saved@.len() == old(store)@.len(),
            j <= store@.len(),
            forall|k: int| j <= k < old(store)@.len() ==> #[trigger] store@[k]@ == old(store)@[k]@,
            forall|k: int| 0 <= k < j ==> #[trigger] store@[k]@ == (HandleV {
                native_type: old(store)@[k]@.native_type,
                state: saved@[k],
            }),
        decreases store.len() - j,
    {
        let ghost prev = store@;
        let h = store.remove(j);
        let ghost hv = h@;
        let h2 = Handle { native_type: h.native_type, state: saved[j] };
        assert(h2@ == (HandleV { native_type: hv.native_type, state: saved@[j as int] }));
        assert(hv == old(store)@[j as int]@);
        store.insert(j, h2);
        assert(store@ =~= prev.update(j as int, h2));
        assert(store@[j as int]@ == h2@);
        j = j + 1;
    }
}

/// Resolve the borrowed slots of one invocation in declaration order, from
/// parameter `i` on; on a refusal every slot is left as it was.
fn borrow_from(
    d: &FunctionDescriptor,
    args: &Vec<CallArg>,
    store: &mut Vec<Handle>,
    i: usize,
) -> (r: Result<(), RuntimeError>)
    requires
        i <= d.params@.len(),
        args@.len() == d.params@.len(),
    ensures
        match spec_borrow_phase(d@.params, args@, spec_store_v(old(store)@), i as int) {
            Ok(s2) => r is Ok && spec_store_v(final(store)@) == s2,
            Err(e) => (r matches Err(e2) && e2@ == e) && spec_store_v(final(store)@)
                == spec_store_v(old(store)@),
        },
    decreases d.params@.len() - i,
{
    if i == d.params.len() {
        assert(spec_store_v(store@) =~= spec_store_v(old(store)@));
        Ok(())
    } else {
        let exclusive = match d.params[i].mode {
            AccessMode::Owned => {
                let r = borrow_from(d, args, store, i + 1);
                return r;
            },
            AccessMode::SharedRef => false,
            AccessMode::ExclusiveRef => true,
        };
        let idx: usize = match args[i] {
            CallArg::Handle { index } => index,
            CallArg::Owned => {
                return Err(RuntimeError::TypeMismatch);
            },
        };
        if idx >= store.len() {
            return Err(RuntimeError::TypeMismatch);
        }
        let ghost store0 = spec_store_v(store@);
        let mut h = store.remove(idx);
        let saved_state: BorrowState = h.state;
        let res = if exclusive {
            resolve_exclusive(&mut h, d.params[i].declared_type.as_str())
        } else {
            resolve_shared(&mut h, d.params[i].declared_type.as_str())
        };
        match res {
            Err(e) => {
                store.insert(idx, h);
                assert(spec_store_v(store@) =~= store0);
                Err(e)
            },
            Ok(()) => {
                store.insert(idx, h);
                assert(spec_store_v(store@) =~= store0.update(
                    idx as int,
                    HandleV {
                        native_type: store0[idx as int].native_type,
                        state: spec_after_grant(exclusive),
                    },
                ));
                let rec = borrow_from(d, args, store, i + 1);
                match rec {
                    Ok(()) => Ok(()),
                    Err(e) => {
                        let ghost store1 = spec_store_v(store@);
                        let mut h2 = store.remove(idx);
                        assert(h2@ == store1[idx as int]);
                        assert(store1[idx as int].native_type == store0[
                            idx as int
                        ].native_type);
                        h2.state = saved_state;
                        store.insert(idx, h2);
                        assert(spec_store_v(store@) =~= store1.update(idx as int, h2@));
                        assert(saved_state == store0[idx as int].state);
                        assert(h2@ == store0[idx as int]);
                        assert(spec_store_v(store@) =~= store0);
                        Err(e)
                    },
                }
            },
        }
    }
}

/// Run one wrapper invocation against the runtime's handle store: resolve
/// every borrowed slot in declaration order, and when every resolution is
/// granted, convert what the native function did into the call's result;
/// every borrow taken for the call is released again before it returns.
pub fn invoke_wrapper(
    d: &FunctionDescriptor,
    args: &Vec<CallArg>,
    store: &mut Vec<Handle>,
    outcome: &NativeOutcome,
) -> (r: CallResult)
    requires
        args@.len() == d.params@.len(),
    ensures
        spec_store_v(final(store)@) == spec_store_v(old(store)@),
        r@ == spec_invoke_result(
            d@.params,
            d.ret.fallible,
            args@,
            spec_store_v(old(store)@),
            outcome@,
        ),
{
    let saved = saved_states(store);
    match borrow_from(d, args, store, 0) {
        Err(e) => {
            assert(spec_store_v(store@) =~= spec_store_v(old(store)@));
            CallResult::RuntimeFailure { error: e }
        },
        Ok(()) => {
            proof {
                lemma_borrow_phase_preserves_types(
                    d@.params,
                    args@,
                    spec_store_v(old(store)@),
                    0,
                );
            }
            restore_states(store, &saved);
            proof {
                let orig = spec_store_v(old(store)@);
                let s2 = spec_borrow_phase(d@.params, args@, orig, 0)->Ok_0;
                assert forall|j: int| 0 <= j < old(store)@.len() implies store@[j]@ == orig[j] by {
                    assert(saved@[j] == old(store)@[j]@.state);
                    assert(s2[j].native_type == orig[j].native_type);
                    assert(orig[j] == old(store)@[j]@);
                }
                assert(spec_store_v(store@) =~= spec_store_v(old(store)@));
            }
            if d.ret.fallible {
                match outcome {
                    NativeOutcome::Success => CallResult::Value,
                    NativeOutcome::Failure { message } => CallResult::RuntimeFailure {
                        error: RuntimeError::NativeFailure { message: message.clone() },
                    },
                }
            } else {
                CallResult::Value
            }
        },
    }
}

} // verus!
