//! The storage initializer: the persistent key-value store must mount
//! before networking starts. A failure that means "no free pages" or
//! "incompatible stored version" is corrected by erasing the store and
//! retrying the mount exactly once — never more, since an unbounded retry
//! could loop forever on a persistently corrupt store. Any other failure,
//! or a failed retry, is fatal for startup.
//!
//! The driver's `init` and `erase` calls block on hardware, so the caller
//! runs them and feeds each classified outcome to `storage_step`; the
//! proof functions state the bounded-retry discipline over any run.

use vstd::prelude::*;

verus! {

/// How one attempt of the store's `init` operation ended, classified.
#[derive(Clone, Copy, PartialEq, Eq, Structural, Debug)]
pub enum InitOutcome {
    /// The store mounted.
    Success,
    /// The store has no free pages left — recoverable by an erase.
    NoFreePages,
    /// The store holds data of an incompatible layout version —
    /// recoverable by an erase.
    IncompatibleVersion,
    /// Any other failure; not recoverable.
    OtherFailure,
}

/// The initializer's states.
#[derive(Clone, Copy, PartialEq, Eq, Structural, Debug)]
pub enum StorageState {
    /// No attempt has been made yet.
    Uninitialized,
    /// The first attempt failed recoverably; the erase is owed.
    VersionMismatchOrFull,
    /// The store mounted; startup may proceed.
    Ready,
    /// Initialization is exhausted; fatal for startup.
    Failed,
}

/// What the caller must do after a step: erase the store and attempt the
/// mount once more, or stop — the state is terminal.
#[derive(Clone, Copy, PartialEq, Eq, Structural, Debug)]
pub enum StorageAction {
    EraseAndRetry,
    Done,
}

/// One transition of the bounded-retry machine: a recoverable first
/// failure schedules the single erase-and-retry; everything else settles
/// the final state.
pub open spec fn spec_storage_step(s: StorageState, o: InitOutcome) -> (StorageState,
    StorageAction) {
    match s {
        StorageState::Uninitialized => match o {
            InitOutcome::Success => (StorageState::Ready, StorageAction::Done),
            InitOutcome::NoFreePages => (
                StorageState::VersionMismatchOrFull,
                StorageAction::EraseAndRetry,
            ),
            InitOutcome::IncompatibleVersion => (
                StorageState::VersionMismatchOrFull,
                StorageAction::EraseAndRetry,
            ),
            InitOutcome::OtherFailure => (StorageState::Failed, StorageAction::Done),
        },
        StorageState::VersionMismatchOrFull => match o {
            InitOutcome::Success => (StorageState::Ready, StorageAction::Done),
            _ => (StorageState::Failed, StorageAction::Done),
        },
        StorageState::Ready => (StorageState::Ready, StorageAction::Done),
        StorageState::Failed => (StorageState::Failed, StorageAction::Done),
    }
}

/// Performs one transition; the caller carries out the returned action.
pub fn storage_step(s: StorageState, o: InitOutcome) -> (r: (StorageState, StorageAction))
    ensures
        r == spec_storage_step(s, o),
{
    match s {
        StorageState::Uninitialized => match o {
            InitOutcome::Success => (StorageState::Ready, StorageAction::Done),
            InitOutcome::NoFreePages => (
                StorageState::VersionMismatchOrFull,
                StorageAction::EraseAndRetry,
            ),
            InitOutcome::IncompatibleVersion => (
                StorageState::VersionMismatchOrFull,
                StorageAction::EraseAndRetry,
            ),
            InitOutcome::OtherFailure => (StorageState::Failed, StorageAction::Done),
        },
        StorageState::VersionMismatchOrFull => match o {
            InitOutcome::Success => (StorageState::Ready, StorageAction::Done),
            _ => (StorageState::Failed, StorageAction::Done),
        },
        StorageState::Ready => (StorageState::Ready, StorageAction::Done),
        StorageState::Failed => (StorageState::Failed, StorageAction::Done),
    }
}

/// The state after feeding `outcomes` to the machine, first to last,
/// starting from `Uninitialized`.
pub open spec fn state_after(outcomes: Seq<InitOutcome>) -> StorageState
    decreases outcomes.len(),
{
    if outcomes.len() == 0 {
        StorageState::Uninitialized
    } else {
        spec_storage_step(state_after(outcomes.drop_last()), outcomes.last()).0
    }
}

/// How many of the steps along the run scheduled the corrective erase.
pub open spec fn erases_in(outcomes: Seq<InitOutcome>) -> int
    decreases outcomes.len(),
{
    if outcomes.len() == 0 {
        0
    } else {
        erases_in(outcomes.drop_last()) + (
        if spec_storage_step(state_after(outcomes.drop_last()), outcomes.last()).1
            is EraseAndRetry {
            1int
        } else {
            0
        })
    }
}

/// However many outcomes are fed to the machine, the corrective erase is
/// scheduled at most once: only the very first attempt can trigger it.
pub proof fn lemma_at_most_one_erase(outcomes: Seq<InitOutcome>)
    ensures
        0 <= erases_in(outcomes) <= 1,
        state_after(outcomes) is Uninitialized <==> outcomes.len() == 0,
    decreases outcomes.len(),
{
    if outcomes.len() > 0 {
        lemma_at_most_one_erase(outcomes.drop_last());
    }
}

/// A run whose first attempt fails recoverably schedules the corrective
/// erase exactly once, whatever happens afterwards: the cycle is never
/// repeated.
pub proof fn lemma_recoverable_failure_erases_exactly_once(outcomes: Seq<InitOutcome>)
    requires
        outcomes.len() > 0,
        outcomes[0] is NoFreePages || outcomes[0] is IncompatibleVersion,
    ensures
        erases_in(outcomes) == 1,
    decreases outcomes.len(),
{
    if outcomes.len() == 1 {
        assert(outcomes.drop_last() =~= Seq::<InitOutcome>::empty());
        assert(state_after(Seq::<InitOutcome>::empty()) is Uninitialized);
        assert(erases_in(Seq::<InitOutcome>::empty()) == 0);
        assert(outcomes.last() == outcomes[0]);
    } else {
        assert(outcomes.drop_last()[0] == outcomes[0]);
        lemma_recoverable_failure_erases_exactly_once(outcomes.drop_last());
        lemma_at_most_one_erase(outcomes.drop_last());
    }
}

/// A recoverable first failure schedules exactly one erase-and-retry; if
/// the retried mount fails too — in any way — the machine ends `Failed`
/// and schedules nothing further.
pub proof fn lemma_double_failure_fails(first: InitOutcome, second: InitOutcome)
    requires
        first is NoFreePages || first is IncompatibleVersion,
        !(second is Success),
    ensures
        spec_storage_step(StorageState::Uninitialized, first).1 is EraseAndRetry,
        state_after(seq![first, second]) is Failed,
        spec_storage_step(state_after(seq![first, second]), second).1 is Done,
        erases_in(seq![first, second]) == 1,
{
    let run = seq![first, second];
    let one = seq![first];
    assert(run.drop_last() =~= one);
    assert(one.drop_last() =~= Seq::<InitOutcome>::empty());
    assert(state_after(Seq::<InitOutcome>::empty()) is Uninitialized);
    assert(erases_in(Seq::<InitOutcome>::empty()) == 0);
    assert(one.last() == first);
    assert(state_after(one) is VersionMismatchOrFull);
    assert(erases_in(one) == 1);
    assert(run.last() == second);
}

/// A first attempt that succeeds mounts the store with no erase at all.
pub proof fn lemma_clean_start(outcomes: Seq<InitOutcome>)
    requires
        outcomes.len() > 0,
        outcomes[0] is Success,
    ensures
        erases_in(outcomes) == 0,
        state_after(outcomes) is Ready,
    decreases outcomes.len(),
{
    if outcomes.len() == 1 {
        assert(outcomes.drop_last() =~= Seq::<InitOutcome>::empty());
        assert(state_after(Seq::<InitOutcome>::empty()) is Uninitialized);
        assert(erases_in(Seq::<InitOutcome>::empty()) == 0);
        assert(outcomes.last() == outcomes[0]);
    } else {
        assert(outcomes.drop_last()[0] == outcomes[0]);
        lemma_clean_start(outcomes.drop_last());
    }
}

} // verus!
