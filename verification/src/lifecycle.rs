//! The contract's lifecycle: how state is created exactly once, how a named
//! call is dispatched against the persisted state, and the laws that hold of
//! every call sequence.
//!
//! The host environment owns the durable storage slot and serializes calls;
//! here the slot is modelled as a [`StateSlot`] value that the host hands in,
//! and each entry point as a transition on it. [`dispatch`] is the single
//! decision point: given the stored state and the name of the call, it says
//! exactly which calls succeed, what they return, and how the slot changes.

use vstd::prelude::*;

use crate::contract::Contract;
use crate::contract::spec_greeting;

verus! {

/// The contract's durable-storage slot as the host sees it: either nothing
/// has been persisted yet, or the one contract state is stored.
#[derive(Clone, Copy, Debug, PartialEq, Eq, Structural)]
pub enum StateSlot {
    /// No state has been persisted: the initializer has never succeeded.
    Empty,
    /// The state persisted by the one successful initializer call.
    Stored(Contract),
}

/// Why a call was rejected. These are the only failure modes.
#[derive(Clone, Copy, Debug, PartialEq, Eq, Structural)]
pub enum CallError {
    /// The initializer was invoked while a state was already persisted.
    AlreadyInitialized,
    /// A non-initializer entry point was invoked before initialization.
    Uninitialized,
}

/// The names under which the host can dispatch a call.
#[derive(Clone, Copy, Debug, PartialEq, Eq, Structural)]
pub enum EntryPoint {
    /// The initializer, `new`.
    New,
    /// The read-only query, `hello_world`.
    HelloWorld,
}

/// How one dispatched call changes the storage slot: the initializer fills an
/// empty slot; every other combination leaves the slot exactly as it was.
pub open spec fn spec_step(s: StateSlot, call: EntryPoint) -> StateSlot {
    match call {
        EntryPoint::New => if s is Empty {
            StateSlot::Stored(Contract {})
        } else {
            s
        },
        EntryPoint::HelloWorld => s,
    }
}

/// What one dispatched call answers: `Ok(None)` for a successful
/// initialization, `Ok(Some(text))` for a successful query, and the matching
/// [`CallError`] otherwise.
pub open spec fn spec_outcome(s: StateSlot, call: EntryPoint) -> Result<
    Option<Seq<char>>,
    CallError,
> {
    match call {
        EntryPoint::New => if s is Empty {
            Ok(None)
        } else {
            Err(CallError::AlreadyInitialized)
        },
        EntryPoint::HelloWorld => if s is Stored {
            Ok(Some(spec_greeting()))
        } else {
            Err(CallError::Uninitialized)
        },
    }
}

/// The payload a dispatched call actually returns, seen abstractly: the
/// returned text as a sequence of characters.
pub open spec fn spec_payload_view(r: Result<Option<String>, CallError>) -> Result<
    Option<Seq<char>>,
    CallError,
> {
    match r {
        Ok(p) => match p {
            Some(text) => Ok(Some(text@)),
            None => Ok(None),
        },
        Err(e) => Err(e),
    }
}

/// The initializer path: constructs and persists the state, but only into an
/// empty slot. A slot that is already filled is left untouched and the call
/// is rejected with [`CallError::AlreadyInitialized`] before any write.
pub fn initialize(slot: &mut StateSlot) -> (r: Result<(), CallError>)
    ensures
        *final(slot) == spec_step(*old(slot), EntryPoint::New),
        *old(slot) is Empty <==> r is Ok,
        r is Err ==> r == Err::<(), CallError>(CallError::AlreadyInitialized),
{
    match slot {
        StateSlot::Empty => {
            *slot = StateSlot::Stored(Contract::new());
            Ok(())
        },
        StateSlot::Stored(_) => Err(CallError::AlreadyInitialized),
    }
}

/// The query path: a pure read of the slot. A filled slot always answers the
/// fixed greeting; an empty one is rejected with [`CallError::Uninitialized`].
pub fn query_greeting(slot: &StateSlot) -> (r: Result<String, CallError>)
    ensures
        slot is Stored ==> r is Ok && r->Ok_0@ == spec_greeting(),
        slot is Empty ==> r == Err::<String, CallError>(CallError::Uninitialized),
{
    match slot {
        StateSlot::Stored(state) => Ok(state.hello_world()),
        StateSlot::Empty => Err(CallError::Uninitialized),
    }
}

/// Dispatches one named call against the persisted state: the slot moves
/// exactly as [`spec_step`] says and the answer is exactly [`spec_outcome`].
pub fn dispatch(slot: &mut StateSlot, call: EntryPoint) -> (r: Result<
    Option<String>,
    CallError,
>)
    ensures
        *final(slot) == spec_step(*old(slot), call),
        spec_payload_view(r) == spec_outcome(*old(slot), call),
{
    match call {
        EntryPoint::New => match initialize(slot) {
            Ok(()) => Ok(None),
            Err(e) => Err(e),
        },
        EntryPoint::HelloWorld => match query_greeting(slot) {
            Ok(text) => Ok(Some(text)),
            Err(e) => Err(e),
        },
    }
}

/// The slot after a whole sequence of dispatched calls, first to last.
pub open spec fn spec_run(s: StateSlot, calls: Seq<EntryPoint>) -> StateSlot
    decreases calls.len(),
{
    if calls.len() == 0 {
        s
    } else {
        spec_step(spec_run(s, calls.drop_last()), calls.last())
    }
}

/// Law: once a state is stored it is permanent — no sequence of dispatched
/// calls, of any length and in any order, ever changes or removes it.
pub proof fn lemma_initialized_is_permanent(s: StateSlot, calls: Seq<EntryPoint>)
    requires
        s is Stored,
    ensures
        spec_run(s, calls) == s,
    decreases calls.len(),
{
    if calls.len() > 0 {
        lemma_initialized_is_permanent(s, calls.drop_last());
    }
}

/// Law: after initialization, the query entry point answers the fixed
/// greeting at whatever position it stands in whatever sequence of calls.
pub proof fn lemma_query_always_greets(s: StateSlot, calls: Seq<EntryPoint>, j: int)
    requires
        s is Stored,
        0 <= j < calls.len(),
        calls[j] is HelloWorld,
    ensures
        spec_outcome(spec_run(s, calls.take(j)), calls[j]) == Ok::<
            Option<Seq<char>>,
            CallError,
        >(Some(spec_greeting())),
{
    lemma_initialized_is_permanent(s, calls.take(j));
}

/// Helper: a run whose prefix already stores a state never moves past it.
proof fn lemma_run_extend(s: StateSlot, calls: Seq<EntryPoint>, i: int, j: int)
    requires
        0 <= i <= j <= calls.len(),
        spec_run(s, calls.take(i)) is Stored,
    ensures
        spec_run(s, calls.take(j)) == spec_run(s, calls.take(i)),
    decreases j - i,
{
    if i < j {
        lemma_run_extend(s, calls, i, j - 1);
        assert(calls.take(j).drop_last() =~= calls.take(j - 1));
        assert(calls.take(j).last() == calls[j - 1]);
    }
}

/// Law: the initializer succeeds at most once in any run. Once one
/// initializer call has succeeded, every later one is rejected as already
/// initialized, and the rejection writes nothing: the slot after the
/// rejected call is exactly the slot before it.
pub proof fn lemma_initialize_at_most_once(
    s: StateSlot,
    calls: Seq<EntryPoint>,
    i: int,
    j: int,
)
    requires
        0 <= i < j < calls.len(),
        calls[i] is New,
        calls[j] is New,
        spec_outcome(spec_run(s, calls.take(i)), calls[i]) is Ok,
    ensures
        spec_outcome(spec_run(s, calls.take(j)), calls[j]) == Err::<
            Option<Seq<char>>,
            CallError,
        >(CallError::AlreadyInitialized),
        spec_run(s, calls.take(j + 1)) == spec_run(s, calls.take(j)),
{
    assert(calls.take(i + 1).drop_last() =~= calls.take(i));
    assert(calls.take(i + 1).last() == calls[i]);
    lemma_run_extend(s, calls, i + 1, j);
    assert(calls.take(j + 1).drop_last() =~= calls.take(j));
    assert(calls.take(j + 1).last() == calls[j]);
}

} // verus!
