//! The per-instance lifecycle protocol.
//!
//! The foreign runtime drives each instance through create, reference,
//! unreference, stringify and free calls. This module states that protocol
//! as a state machine over call traces and proves the laws every
//! well-formed trace obeys: nothing happens to an instance after it is
//! freed, and the reference count is exactly the initial count plus the
//! references minus the unreferences, never going below zero.

use vstd::prelude::*;

verus! {

/// One lifecycle call the foreign runtime can issue on an instance.
#[derive(Clone, Copy, PartialEq, Eq, Debug, Structural)]
pub enum LifecycleEvent {
    /// The create-instance callback.
    Create,
    /// The reference callback.
    Reference,
    /// The unreference callback.
    Unreference,
    /// The stringify callback.
    Stringify,
    /// The free-instance callback.
    Free,
}

/// The state of one instance as the protocol sees it.
pub enum InstanceState {
    /// No storage exists yet.
    Uncreated,
    /// Storage exists and carries this reference count.
    Live { refcount: nat },
    /// The storage has been released; this state is terminal.
    Freed,
}

/// One protocol step: the state after an event, or `None` when the event
/// is not allowed in that state. Creation starts the instance live with
/// one reference; only a live instance may be referenced, unreferenced,
/// stringified or freed; an unreference needs at least one reference to
/// take away; nothing at all is allowed after a free.
pub open spec fn lifecycle_step(s: InstanceState, e: LifecycleEvent) -> Option<InstanceState> {
    match (s, e) {
        (InstanceState::Uncreated, LifecycleEvent::Create) => Some(
            InstanceState::Live { refcount: 1 },
        ),
        (InstanceState::Live { refcount }, LifecycleEvent::Reference) => Some(
            InstanceState::Live { refcount: refcount + 1 },
        ),
        (InstanceState::Live { refcount }, LifecycleEvent::Unreference) => if refcount >= 1 {
            Some(InstanceState::Live { refcount: (refcount - 1) as nat })
        } else {
            None
        },
        (InstanceState::Live { refcount }, LifecycleEvent::Stringify) => Some(
            InstanceState::Live { refcount },
        ),
        (InstanceState::Live { .. }, LifecycleEvent::Free) => Some(InstanceState::Freed),
        _ => None,
    }
}

/// Runs a trace of lifecycle calls from a state: the resulting state, or
/// `None` as soon as any call is not allowed.
pub open spec fn run_lifecycle(s: InstanceState, trace: Seq<LifecycleEvent>) -> Option<
    InstanceState,
>
    decreases trace.len(),
{
    if trace.len() == 0 {
        Some(s)
    } else {
        match lifecycle_step(s, trace.first()) {
            Some(s2) => run_lifecycle(s2, trace.drop_first()),
            None => None,
        }
    }
}

/// A trace is well formed when the protocol accepts every call in it,
/// starting from an uncreated instance.
pub open spec fn valid_trace(trace: Seq<LifecycleEvent>) -> bool {
    run_lifecycle(InstanceState::Uncreated, trace) is Some
}

/// A freed instance accepts no further call: no trace continues from
/// `Freed`.
proof fn lemma_freed_is_terminal(trace: Seq<LifecycleEvent>)
    requires
        trace.len() > 0,
    ensures
        run_lifecycle(InstanceState::Freed, trace) is None,
{
    assert(lifecycle_step(InstanceState::Freed, trace.first()) is None);
}

/// In any trace the protocol accepts from any state, a free call can only
/// be the last call.
proof fn lemma_free_is_last_from(s: InstanceState, trace: Seq<LifecycleEvent>, i: int)
    requires
        run_lifecycle(s, trace) is Some,
        0 <= i < trace.len(),
        trace[i] == LifecycleEvent::Free,
    ensures
        i == trace.len() - 1,
    decreases trace.len(),
{
    let s2 = lifecycle_step(s, trace.first());
    if i == 0 {
        assert(s2 == Some(InstanceState::Freed));
        if trace.len() > 1 {
            lemma_freed_is_terminal(trace.drop_first());
        }
    } else {
        assert(trace.drop_first()[i - 1] == trace[i]);
        lemma_free_is_last_from(s2.unwrap(), trace.drop_first(), i - 1);
    }
}

/// No use after free: in every well-formed trace of lifecycle calls, no
/// call of any kind follows a free call — every reference, unreference or
/// stringify call an instance sees lies strictly between its creation and
/// its free.
pub proof fn lemma_no_use_after_free(trace: Seq<LifecycleEvent>, i: int)
    requires
        valid_trace(trace),
        0 <= i < trace.len(),
        trace[i] == LifecycleEvent::Free,
    ensures
        i == trace.len() - 1,
{
    lemma_free_is_last_from(InstanceState::Uncreated, trace, i);
}

/// Once an instance has left the uncreated state it never returns to it,
/// so a trace the protocol accepts from a created instance contains no
/// create call.
proof fn lemma_no_create_once_started(s: InstanceState, trace: Seq<LifecycleEvent>, i: int)
    requires
        run_lifecycle(s, trace) is Some,
        !(s is Uncreated),
        0 <= i < trace.len(),
    ensures
        trace[i] != LifecycleEvent::Create,
    decreases trace.len(),
{
    assert(lifecycle_step(s, trace.first()) is Some);
    let s2 = lifecycle_step(s, trace.first()).unwrap();
    if i == 0 {
        assert(trace[0] != LifecycleEvent::Create);
    } else {
        assert(!(s2 is Uncreated));
        assert(trace.drop_first()[i - 1] == trace[i]);
        lemma_no_create_once_started(s2, trace.drop_first(), i - 1);
    }
}

/// A create call only ever stands at the very start of a well-formed
/// trace; together with the free call being last, every reference,
/// unreference and stringify call is observed strictly between create and
/// free.
pub proof fn lemma_create_opens_the_trace(trace: Seq<LifecycleEvent>, i: int)
    requires
        valid_trace(trace),
        0 <= i < trace.len(),
        trace[i] == LifecycleEvent::Create,
    ensures
        i == 0,
{
    if i > 0 {
        assert(lifecycle_step(InstanceState::Uncreated, trace.first()) is Some);
        assert(trace.first() == LifecycleEvent::Create);
        let s2 = lifecycle_step(InstanceState::Uncreated, trace.first()).unwrap();
        assert(!(s2 is Uncreated));
        assert(trace.drop_first()[i - 1] == trace[i]);
        lemma_no_create_once_started(s2, trace.drop_first(), i - 1);
    }
}

/// The executable callbacks implement exactly the protocol steps: a
/// storage whose reference count is `c` stands for the state `Live { c }`,
/// creation starts at one reference, `reference` adds one, `unreference`
/// takes one from a count of at least one, stringify changes nothing, and
/// free moves to the terminal state.
pub proof fn lemma_callbacks_match_protocol(c: u64)
    ensures
        lifecycle_step(InstanceState::Uncreated, LifecycleEvent::Create) == Some(
            InstanceState::Live { refcount: 1 },
        ),
        c < u64::MAX ==> lifecycle_step(
            InstanceState::Live { refcount: c as nat },
            LifecycleEvent::Reference,
        ) == Some(InstanceState::Live { refcount: (c + 1) as nat }),
        c >= 1 ==> lifecycle_step(
            InstanceState::Live { refcount: c as nat },
            LifecycleEvent::Unreference,
        ) == Some(InstanceState::Live { refcount: (c - 1) as nat }),
        lifecycle_step(InstanceState::Live { refcount: c as nat }, LifecycleEvent::Stringify)
            == Some(InstanceState::Live { refcount: c as nat }),
        lifecycle_step(InstanceState::Live { refcount: c as nat }, LifecycleEvent::Free) == Some(
            InstanceState::Freed,
        ),
{
}

/// How many reference calls a trace contains.
pub open spec fn count_references(trace: Seq<LifecycleEvent>) -> nat
    decreases trace.len(),
{
    if trace.len() == 0 {
        0
    } else {
        (if trace.first() == LifecycleEvent::Reference {
            1nat
        } else {
            0nat
        }) + count_references(trace.drop_first())
    }
}

/// How many unreference calls a trace contains.
pub open spec fn count_unreferences(trace: Seq<LifecycleEvent>) -> nat
    decreases trace.len(),
{
    if trace.len() == 0 {
        0
    } else {
        (if trace.first() == LifecycleEvent::Unreference {
            1nat
        } else {
            0nat
        }) + count_unreferences(trace.drop_first())
    }
}

/// A trace made of reference-count adjustments only.
pub open spec fn refcount_events_only(trace: Seq<LifecycleEvent>) -> bool {
    forall|i: int|
        0 <= i < trace.len() ==> (trace[i] == LifecycleEvent::Reference || trace[i]
            == LifecycleEvent::Unreference)
}

/// The reference-count invariant: after any well-formed sequence of `k`
/// reference and `m` unreference calls on a live instance, the count is
/// exactly the initial count plus `k` minus `m`; and `m` never exceeds the
/// initial count plus `k`, so the count never goes below zero.
pub proof fn lemma_refcount_invariant(init: nat, trace: Seq<LifecycleEvent>)
    requires
        refcount_events_only(trace),
        run_lifecycle(InstanceState::Live { refcount: init }, trace) is Some,
    ensures
        count_unreferences(trace) <= init + count_references(trace),
        run_lifecycle(InstanceState::Live { refcount: init }, trace) == Some(
            InstanceState::Live {
                refcount: (init + count_references(trace) - count_unreferences(trace)) as nat,
            },
        ),
    decreases trace.len(),
{
    if trace.len() == 0 {
    } else {
        let rest = trace.drop_first();
        assert forall|i: int|
            0 <= i < rest.len() implies (rest[i] == LifecycleEvent::Reference || rest[i]
            == LifecycleEvent::Unreference) by {
            assert(rest[i] == trace[i + 1]);
        }
        if trace.first() == LifecycleEvent::Reference {
            lemma_refcount_invariant(init + 1, rest);
        } else {
            assert(trace.first() == LifecycleEvent::Unreference);
            assert(init >= 1) by {
                if init < 1 {
                    assert(lifecycle_step(
                        InstanceState::Live { refcount: init },
                        trace.first(),
                    ) is None);
                }
            }
            lemma_refcount_invariant((init - 1) as nat, rest);
        }
    }
}

} // verus!
