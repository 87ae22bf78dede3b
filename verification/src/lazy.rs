//! The state machine of a value that is computed on first use, once, whichever thread asks
//! first; others spin until it is ready.
use vstd::prelude::*;

verus! {

/// Nobody has started computing the value.
pub const UNINITIALISED: u8 = 0b00;

/// A thread is computing the value.
pub const INITIALISING: u8 = 0b01;

/// The value is ready.
pub const INITIALISED: u8 = 0b11;

/// What a thread asking for the value does, having set the low state bit and seen the state
/// before it.
#[derive(Clone, Copy, Debug, PartialEq, Eq, Structural)]
pub enum ForceStep {
    /// Compute the value, store it, and set the state to `INITIALISED`.
    Initialise,
    /// Spin and ask again.
    Spin,
    /// Read the value.
    Ready,
}

/// The state a thread leaves when it asks: the low bit set.
pub open spec fn claimed(previous_state: u8) -> u8 {
    previous_state | INITIALISING
}

/// What to do given the state seen when asking (one of the three states).
pub fn force_step(previous_state: u8) -> (step: ForceStep)
    requires
        previous_state == UNINITIALISED || previous_state == INITIALISING || previous_state
            == INITIALISED,
    ensures
        step == if previous_state == UNINITIALISED {
            ForceStep::Initialise
        } else if previous_state == INITIALISING {
            ForceStep::Spin
        } else {
            ForceStep::Ready
        },
{
    if previous_state == UNINITIALISED {
        ForceStep::Initialise
    } else if previous_state == INITIALISING {
        ForceStep::Spin
    } else {
        ForceStep::Ready
    }
}

/// Only the first thread to ask computes the value: asking leaves the state at `INITIALISING`
/// or `INITIALISED`, so every later thread spins or reads; and asking never undoes
/// `INITIALISED`.
pub proof fn lemma_single_initialiser(previous_state: u8)
    requires
        previous_state == UNINITIALISED || previous_state == INITIALISING || previous_state
            == INITIALISED,
    ensures
        claimed(previous_state) == INITIALISING || claimed(previous_state) == INITIALISED,
        claimed(previous_state) != UNINITIALISED,
        previous_state == INITIALISED ==> claimed(previous_state) == INITIALISED,
        previous_state != INITIALISED ==> claimed(previous_state) == INITIALISING,
{
    assert((0u8 | 1u8) == 1u8 && (1u8 | 1u8) == 1u8 && (3u8 | 1u8) == 3u8) by (bit_vector);
}


/// What happens to the state word: a thread asks (setting the low bit), or the thread that
/// computed the value stores `INITIALISED`.
#[derive(Clone, Copy, Debug, PartialEq, Eq, Structural)]
pub enum LazyEvent {
    Claim,
    Store,
}

/// The state after the first `k` events, from `UNINITIALISED`.
pub open spec fn state_after(events: Seq<LazyEvent>, k: int) -> u8
    decreases k,
{
    if k <= 0 {
        UNINITIALISED
    } else {
        let s = state_after(events, k - 1);
        match events[k - 1] {
            LazyEvent::Claim => claimed(s),
            LazyEvent::Store => INITIALISED,
        }
    }
}

/// Some thread asked among the first `k` events.
pub open spec fn claimed_before(events: Seq<LazyEvent>, k: int) -> bool {
    exists|j: int| 0 <= j < k && #[trigger] events[j] == LazyEvent::Claim
}

/// The value was stored among the first `k` events.
pub open spec fn stored_before(events: Seq<LazyEvent>, k: int) -> bool {
    exists|j: int| 0 <= j < k && #[trigger] events[j] == LazyEvent::Store
}

/// Every store comes after some thread asked (only a thread that asked computes the value).
pub open spec fn stores_follow_claims(events: Seq<LazyEvent>) -> bool {
    forall|f: int| 0 <= f < events.len() && #[trigger] events[f] == LazyEvent::Store ==> claimed_before(events, f)
}

proof fn lemma_state_after(events: Seq<LazyEvent>, k: int)
    requires
        0 <= k <= events.len(),
        stores_follow_claims(events),
    ensures
        state_after(events, k) == if !claimed_before(events, k) {
            UNINITIALISED
        } else if stored_before(events, k) {
            INITIALISED
        } else {
            INITIALISING
        },
    decreases k,
{
    if k > 0 {
        lemma_state_after(events, k - 1);
        let s = state_after(events, k - 1);
        lemma_single_initialiser(s);
        if events[k - 1] == LazyEvent::Claim {
            assert(claimed_before(events, k));
            if stored_before(events, k) {
                let j = choose|j: int| 0 <= j < k && #[trigger] events[j] == LazyEvent::Store;
                assert(j < k - 1);
                assert(stored_before(events, k - 1));
            } else {
                if stored_before(events, k - 1) {
                    let j = choose|j: int| 0 <= j < k - 1 && #[trigger] events[j] == LazyEvent::Store;
                    assert(events[j] == LazyEvent::Store && 0 <= j < k);
                }
            }
        } else {
            assert(stored_before(events, k));
            assert(claimed_before(events, k - 1));
            let j = choose|j: int| 0 <= j < k - 1 && #[trigger] events[j] == LazyEvent::Claim;
            assert(events[j] == LazyEvent::Claim && 0 <= j < k);
        }
        if claimed_before(events, k - 1) {
            let j = choose|j: int| 0 <= j < k - 1 && #[trigger] events[j] == LazyEvent::Claim;
            assert(events[j] == LazyEvent::Claim && 0 <= j < k);
        }
        if stored_before(events, k - 1) {
            let j = choose|j: int| 0 <= j < k - 1 && #[trigger] events[j] == LazyEvent::Store;
            assert(events[j] == LazyEvent::Store && 0 <= j < k);
        }
        if !claimed_before(events, k) {
            assert(!claimed_before(events, k - 1)) by {
                if claimed_before(events, k - 1) {
                    let j = choose|j: int| 0 <= j < k - 1 && #[trigger] events[j] == LazyEvent::Claim;
                    assert(events[j] == LazyEvent::Claim && 0 <= j < k);
                }
            }
        }
    }
}

/// Over any run of asks and stores from `UNINITIALISED` in which the value is stored only after
/// someone asked, the first thread to ask, and only it, sees `UNINITIALISED` and computes the
/// value; every later thread sees `INITIALISED`, and reads the stored value, exactly when the
/// value was stored before it asked, and spins otherwise.
pub proof fn lemma_initialised_once(events: Seq<LazyEvent>)
    requires
        stores_follow_claims(events),
    ensures
        forall|k: int|
            0 <= k < events.len() && #[trigger] events[k] == LazyEvent::Claim ==> {
                &&& (state_after(events, k) == UNINITIALISED) == !claimed_before(events, k)
                &&& (state_after(events, k) == INITIALISED) == stored_before(events, k)
                &&& (state_after(events, k) == INITIALISING) == (claimed_before(events, k)
                    && !stored_before(events, k))
            },
{
    assert forall|k: int| 0 <= k < events.len() && #[trigger] events[k] == LazyEvent::Claim implies {
        &&& (state_after(events, k) == UNINITIALISED) == !claimed_before(events, k)
        &&& (state_after(events, k) == INITIALISED) == stored_before(events, k)
        &&& (state_after(events, k) == INITIALISING) == (claimed_before(events, k)
            && !stored_before(events, k))
    } by {
        lemma_state_after(events, k);
        if stored_before(events, k) {
            let j = choose|j: int| 0 <= j < k && #[trigger] events[j] == LazyEvent::Store;
            assert(claimed_before(events, j));
            let i = choose|i: int| 0 <= i < j && #[trigger] events[i] == LazyEvent::Claim;
            assert(events[i] == LazyEvent::Claim && 0 <= i < k);
        }
    }
}

} // verus!
