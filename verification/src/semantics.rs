//! The execution model of a synthesized body, and the laws the
//! transformation guarantees about it.
//!
//! A callback expression is opaque host-language code; what the
//! transformation fixes is where each expression runs and what it can
//! see. This module states that sequencing exactly. The runtime behavior
//! of one expression is abstracted as an `Effect`: when the statement
//! holding it runs, it either proceeds to the next statement or exits the
//! enclosing function early with a value, exactly as a result-propagating
//! operator written inline at that position would. A before-expression's
//! behavior is a fixed effect; an after-expression reads the captured
//! result of the original body, so its behavior is a function from that
//! value to an effect. The element at index `i` of the effect sequences
//! below stands for the expression at index `i` of the corresponding
//! side of the synthesized body (`crate::codegen::exprs_with`).

use vstd::prelude::*;

verus! {

/// What one callback expression does when its statement runs: proceed,
/// or exit the enclosing function early with a value.
pub enum Effect<V> {
    Proceed,
    Exit(V),
}

/// One unit of the synthesized body having run, in trace order: the
/// before-expression at an index, the original body, or the
/// after-expression at an index together with the captured value it
/// observed.
pub enum Event<V> {
    RanBefore(int),
    RanBody,
    RanAfter(int, V),
}

/// The first index whose effect exits early, if any.
pub open spec fn first_exit<V>(effs: Seq<Effect<V>>) -> Option<int>
    decreases effs.len(),
{
    if effs.len() == 0 {
        None
    } else if effs[0] is Exit {
        Some(0)
    } else {
        match first_exit(effs.drop_first()) {
            None => None,
            Some(j) => Some(j + 1),
        }
    }
}

/// What `first_exit` finds: an exiting effect all of whose predecessors
/// proceed, or nothing only when every effect proceeds.
pub proof fn lemma_first_exit<V>(effs: Seq<Effect<V>>)
    ensures
        first_exit(effs) matches Some(j) ==> 0 <= j < effs.len() && effs[j] is Exit
            && (forall|i: int| 0 <= i < j ==> effs[i] is Proceed),
        first_exit(effs) is None ==> forall|i: int| 0 <= i < effs.len() ==> effs[i] is Proceed,
    decreases effs.len(),
{
    if effs.len() > 0 && !(effs[0] is Exit) {
        let rest = effs.drop_first();
        lemma_first_exit(rest);
        assert(forall|i: int| 0 <= i < rest.len() ==> rest[i] == effs[i + 1]);
        match first_exit(rest) {
            None => {
                assert forall|i: int| 0 <= i < effs.len() implies effs[i] is Proceed by {
                    if i > 0 {
                        assert(rest[i - 1] is Proceed);
                    }
                }
            },
            Some(j) => {
                assert(effs[j + 1] == rest[j]);
                assert forall|i: int| 0 <= i < j + 1 implies effs[i] is Proceed by {
                    if i > 0 {
                        assert(rest[i - 1] is Proceed);
                    }
                }
            },
        }
    }
}

/// The converse: the first exiting index is what `first_exit` finds.
pub proof fn lemma_first_exit_at<V>(effs: Seq<Effect<V>>, j: int)
    requires
        0 <= j < effs.len(),
        effs[j] is Exit,
        forall|i: int| 0 <= i < j ==> effs[i] is Proceed,
    ensures
        first_exit(effs) == Some(j),
    decreases j,
{
    if j > 0 {
        assert(effs[0] is Proceed);
        let rest = effs.drop_first();
        assert(forall|i: int| 0 <= i < rest.len() ==> rest[i] == effs[i + 1]);
        assert(rest[j - 1] is Exit);
        assert forall|i: int| 0 <= i < j - 1 implies rest[i] is Proceed by {
            assert(effs[i + 1] is Proceed);
        }
        lemma_first_exit_at(rest, j - 1);
    }
}

/// The trace of the before-expressions at indexes `0 .. n`.
pub open spec fn before_events<V>(n: int) -> Seq<Event<V>> {
    Seq::new(n as nat, |i: int| Event::RanBefore(i))
}

/// The trace of the after-expressions at indexes `0 .. n`, each
/// observing the captured value.
pub open spec fn after_events<V>(n: int, captured: V) -> Seq<Event<V>> {
    Seq::new(n as nat, |i: int| Event::RanAfter(i, captured))
}

/// The effects of the after-expressions, each applied to the captured
/// value it reads.
pub open spec fn after_effects<V>(afters: Seq<spec_fn(V) -> Effect<V>>, captured: V) -> Seq<
    Effect<V>,
> {
    Seq::new(afters.len(), |i: int| afters[i](captured))
}

/// The trace of one run of the synthesized body: which units run, in
/// order. The before-expressions run first, in list order, until one
/// exits early; only if none does, the original body runs and its value
/// is captured; then the after-expressions run in list order, each
/// observing the captured value, until one exits early.
pub open spec fn run_trace<V>(
    befores: Seq<Effect<V>>,
    body_value: V,
    afters: Seq<spec_fn(V) -> Effect<V>>,
) -> Seq<Event<V>> {
    match first_exit(befores) {
        Some(j) => before_events(j + 1),
        None => match first_exit(after_effects(afters, body_value)) {
            Some(k) => before_events::<V>(befores.len() as int) + seq![Event::RanBody]
                + after_events(k + 1, body_value),
            None => before_events::<V>(befores.len() as int) + seq![Event::RanBody]
                + after_events(afters.len() as int, body_value),
        },
    }
}

/// The value the run of the synthesized body yields to the caller: the
/// early exit's value if a callback exits, else the captured value of
/// the original body.
pub open spec fn run_result<V>(
    befores: Seq<Effect<V>>,
    body_value: V,
    afters: Seq<spec_fn(V) -> Effect<V>>,
) -> V {
    match first_exit(befores) {
        Some(j) => befores[j]->Exit_0,
        None => match first_exit(after_effects(afters, body_value)) {
            Some(k) => after_effects(afters, body_value)[k]->Exit_0,
            None => body_value,
        },
    }
}

/// Idempotent structure preservation, run side: with no callback
/// expressions the synthesized body runs the original body exactly once
/// and yields its value unchanged.
pub proof fn lemma_no_callbacks_run<V>(body_value: V)
    ensures
        run_trace(Seq::<Effect<V>>::empty(), body_value, Seq::empty()) == seq![
            Event::<V>::RanBody,
        ],
        run_result(Seq::<Effect<V>>::empty(), body_value, Seq::empty()) == body_value,
{
    assert(run_trace(Seq::<Effect<V>>::empty(), body_value, Seq::empty()) =~= seq![
        Event::<V>::RanBody,
    ]);
}

/// Order preservation: where no callback exits early, the trace is every
/// before-expression in list order, then the original body, then every
/// after-expression in list order — each exactly once.
pub proof fn lemma_order_preservation<V>(
    befores: Seq<Effect<V>>,
    body_value: V,
    afters: Seq<spec_fn(V) -> Effect<V>>,
)
    requires
        forall|i: int| 0 <= i < befores.len() ==> befores[i] is Proceed,
        forall|i: int| 0 <= i < afters.len() ==> afters[i](body_value) is Proceed,
    ensures
        run_trace(befores, body_value, afters).len() == befores.len() + 1 + afters.len(),
        forall|i: int|
            0 <= i < befores.len() ==> run_trace(befores, body_value, afters)[i]
                == Event::<V>::RanBefore(i),
        run_trace(befores, body_value, afters)[befores.len() as int] == Event::<V>::RanBody,
        forall|i: int|
            0 <= i < afters.len() ==> run_trace(befores, body_value, afters)[befores.len() + 1 + i]
                == Event::<V>::RanAfter(i, body_value),
{
    lemma_first_exit(befores);
    lemma_first_exit(after_effects(afters, body_value));
}

/// Value preservation: where no callback exits early, the synthesized
/// body yields exactly the value the original body produced.
pub proof fn lemma_value_preservation<V>(
    befores: Seq<Effect<V>>,
    body_value: V,
    afters: Seq<spec_fn(V) -> Effect<V>>,
)
    requires
        forall|i: int| 0 <= i < befores.len() ==> befores[i] is Proceed,
        forall|i: int| 0 <= i < afters.len() ==> afters[i](body_value) is Proceed,
    ensures
        run_result(befores, body_value, afters) == body_value,
{
    lemma_first_exit(befores);
    lemma_first_exit(after_effects(afters, body_value));
}

/// Early-exit propagation: if the before-expression at index `j` is the
/// first to exit early, the trace holds the before-expressions up to and
/// including `j` and nothing else — the original body and every
/// after-expression do not run — and the function exits with that
/// expression's value.
pub proof fn lemma_early_exit_propagation<V>(
    befores: Seq<Effect<V>>,
    body_value: V,
    afters: Seq<spec_fn(V) -> Effect<V>>,
    j: int,
)
    requires
        0 <= j < befores.len(),
        befores[j] is Exit,
        forall|i: int| 0 <= i < j ==> befores[i] is Proceed,
    ensures
        run_result(befores, body_value, afters) == befores[j]->Exit_0,
        run_trace(befores, body_value, afters).len() == j + 1,
        forall|k: int|
            0 <= k <= j ==> run_trace(befores, body_value, afters)[k] == Event::<V>::RanBefore(k),
        forall|k: int|
            0 <= k < run_trace(befores, body_value, afters).len() ==> !(run_trace(
                befores,
                body_value,
                afters,
            )[k] is RanBody),
        forall|k: int|
            0 <= k < run_trace(befores, body_value, afters).len() ==> !(run_trace(
                befores,
                body_value,
                afters,
            )[k] is RanAfter),
{
    lemma_first_exit_at(befores, j);
}

/// Post-hoc inspection: every after-expression that runs observes
/// exactly the value the original body produced, both as the argument
/// its behavior is applied to and in its trace event.
pub proof fn lemma_post_hoc_inspection<V>(
    befores: Seq<Effect<V>>,
    body_value: V,
    afters: Seq<spec_fn(V) -> Effect<V>>,
)
    requires
        forall|i: int| 0 <= i < befores.len() ==> befores[i] is Proceed,
    ensures
        forall|k: int|
            0 <= k < run_trace(befores, body_value, afters).len() && run_trace(
                befores,
                body_value,
                afters,
            )[k] is RanAfter ==> run_trace(befores, body_value, afters)[k]->RanAfter_1
                == body_value,
        forall|i: int|
            0 <= i < afters.len() ==> after_effects(afters, body_value)[i] == afters[i](
                body_value,
            ),
{
    lemma_first_exit(befores);
}

} // verus!
