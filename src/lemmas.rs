//! What holds of every run of the dispatcher, proved over its transition
//! function.
use vstd::prelude::*;

use crate::dispatch::{Action, EventHandler, Input, Phase};
use crate::event::Kind;

verus! {

/// `n` handler outcomes, all successes.
pub open spec fn successes<E>(n: nat) -> Seq<Input<E>> {
    Seq::new(n, |i: int| Input::Handled(Ok(())))
}

/// The invocations of handlers `from`, `from + 1`, ..., `to - 1` for `kind`.
pub open spec fn invocations<E>(kind: Kind, from: int, to: int) -> Seq<Action<E>> {
    Seq::new((to - from) as nat, |i: int| Action::Invoke { kind, index: (from + i) as usize })
}

/// A step taken while an event of `kind` is routed names no other kind.
pub open spec fn within_kind<E>(kind: Kind, step: (Phase, Action<E>)) -> bool {
    &&& match step.0 {
        Phase::Dispatching { kind: k, .. } => k == kind,
        _ => true,
    }
    &&& match step.1 {
        Action::Invoke { kind: k, .. } => k == kind,
        _ => true,
    }
}

/// From handler `j` of a list for `kind`, `m` successes run the next `m`
/// handlers, in order, and leave the dispatch at handler `j + m`.
proof fn lemma_successes_advance<FG, FL, K, M, P, R, E>(
    h: EventHandler<FG, FL, K, M, P, R>,
    kind: Kind,
    j: usize,
    m: nat,
    tail: Seq<Input<E>>,
)
    requires
        j + m < h.count_of(kind),
        h.count_of(kind) <= usize::MAX,
    ensures
        h.run(Phase::Dispatching { kind, index: j }, successes(m) + tail) == {
            let (last, acts) = h.run(Phase::Dispatching { kind, index: (j + m) as usize }, tail);
            (last, invocations::<E>(kind, j + 1, j + m + 1) + acts)
        },
    decreases m,
{
    let inputs = successes::<E>(m) + tail;
    if m == 0 {
        assert(inputs =~= tail);
        assert(invocations::<E>(kind, j + 1, j + 1) =~= Seq::empty());
        let acts = h.run(Phase::Dispatching { kind, index: j }, tail).1;
        assert(invocations::<E>(kind, j + 1, j + 1) + acts =~= acts);
    } else {
        let next = (j + 1) as usize;
        assert(inputs[0] == Input::<E>::Handled(Ok(())));
        assert(inputs.drop_first() =~= successes::<E>((m - 1) as nat) + tail);
        lemma_successes_advance(h, kind, next, (m - 1) as nat, tail);
        let acts = h.run(Phase::Dispatching { kind, index: (j + m) as usize }, tail).1;
        assert(seq![Action::<E>::Invoke { kind, index: next }] + (invocations::<E>(
            kind,
            next + 1,
            next + (m - 1) + 1,
        ) + acts) =~= invocations::<E>(kind, j + 1, j + m + 1) + acts);
    }
}

/// Every handler of a non-empty list runs exactly once, in registration
/// order: an event of `kind` whose handlers all succeed invokes handlers
/// `0..n` of that kind and nothing else, then the loop waits for the next tick.
pub proof fn lemma_all_handlers_run_in_order<FG, FL, K, M, P, R, E>(
    h: EventHandler<FG, FL, K, M, P, R>,
    kind: Kind,
)
    requires
        h.count_of(kind) > 0,
        h.count_of(kind) <= usize::MAX,
    ensures
        h.run(
            Phase::Fetching,
            seq![Input::<E>::Fetched(Some(kind))] + successes(h.count_of(kind)),
        ) == (Phase::Idle, invocations::<E>(kind, 0, h.count_of(kind) as int).push(
            Action::WaitTick,
        )),
{
    let n = h.count_of(kind);
    let inputs = seq![Input::<E>::Fetched(Some(kind))] + successes::<E>(n);
    let last = seq![Input::<E>::Handled(Ok(()))];
    assert(inputs.drop_first() =~= successes::<E>((n - 1) as nat) + last);
    lemma_successes_advance(h, kind, 0, (n - 1) as nat, last);
    let fin = Phase::Dispatching { kind, index: (n - 1) as usize };
    assert(last.drop_first() =~= Seq::<Input<E>>::empty());
    assert(h.run(Phase::Idle, last.drop_first()) == (Phase::Idle, Seq::<Action<E>>::empty()));
    assert(seq![Action::<E>::WaitTick] + Seq::<Action<E>>::empty() =~= seq![Action::<E>::WaitTick]);
    assert(h.run(fin, last) == (Phase::Idle, seq![Action::<E>::WaitTick]));
    assert(seq![Action::<E>::Invoke { kind, index: 0 }] + (invocations::<E>(kind, 1, n as int)
        + seq![Action::<E>::WaitTick]) =~= invocations::<E>(kind, 0, n as int).push(
        Action::WaitTick,
    ));
}

/// An event whose kind has no handlers invokes none: the loop goes straight
/// back to waiting for the next tick.
pub proof fn lemma_empty_list_invokes_nothing<FG, FL, K, M, P, R, E>(
    h: EventHandler<FG, FL, K, M, P, R>,
    kind: Kind,
)
    requires
        h.count_of(kind) == 0,
    ensures
        h.transition(Phase::Fetching, Input::<E>::Fetched(Some(kind))) == Some(
            (Phase::Idle, Action::<E>::WaitTick),
        ),
{
}

/// When handler `i` of a list fails, handlers `0..=i` are the ones that ran,
/// the loop ends with that very failure, and nothing fed afterwards invokes
/// another handler.
pub proof fn lemma_first_failure_stops<FG, FL, K, M, P, R, E>(
    h: EventHandler<FG, FL, K, M, P, R>,
    kind: Kind,
    i: nat,
    e: E,
    rest: Seq<Input<E>>,
)
    requires
        i < h.count_of(kind),
        h.count_of(kind) <= usize::MAX,
    ensures
        h.run(
            Phase::Fetching,
            seq![Input::Fetched(Some(kind))] + successes(i) + seq![Input::Handled(Err(e))] + rest,
        ) == (Phase::Terminated, invocations::<E>(kind, 0, i + 1 as int).push(Action::Stop(e))),
{
    let tail = seq![Input::Handled(Err(e))] + rest;
    let inputs = seq![Input::Fetched(Some(kind))] + successes(i) + tail;
    assert(inputs =~= seq![Input::Fetched(Some(kind))] + successes(i) + seq![Input::Handled(Err(e))]
        + rest);
    assert(inputs[0] == Input::<E>::Fetched(Some(kind)));
    assert(inputs.drop_first() =~= successes(i) + tail);
    lemma_successes_advance(h, kind, 0, i, tail);
    let at = Phase::Dispatching { kind, index: i as usize };
    assert(tail[0] == Input::Handled(Err(e)));
    assert(tail.drop_first() =~= rest);
    assert(h.run(Phase::Terminated, rest) == (Phase::Terminated, Seq::<Action<E>>::empty()));
    assert(seq![Action::Stop(e)] + Seq::<Action<E>>::empty() =~= seq![Action::Stop(e)]);
    assert(h.run(at, tail) == (Phase::Terminated, seq![Action::Stop(e)]));
    assert(seq![Action::<E>::Invoke { kind, index: 0 }] + (invocations::<E>(kind, 1, i + 1 as int)
        + seq![Action::Stop(e)]) =~= invocations::<E>(kind, 0, i + 1 as int).push(Action::Stop(e)));
}

/// Kinds are isolated: while an event of `kind` is routed, every step
/// invokes handlers of `kind` only, and stays in its list, returns to
/// waiting, or ends the loop.
pub proof fn lemma_kinds_isolated<FG, FL, K, M, P, R, E>(
    h: EventHandler<FG, FL, K, M, P, R>,
    kind: Kind,
    phase: Phase,
    input: Input<E>,
)
    requires
        (phase == Phase::Fetching && input == Input::<E>::Fetched(Some(kind))) || (match phase {
            Phase::Dispatching { kind: k, .. } => k == kind,
            _ => false,
        }),
        h.transition(phase, input).is_some(),
    ensures
        within_kind(kind, h.transition(phase, input).unwrap()),
{
}

/// Events are handled one at a time: the source is polled only after a
/// tick while idle; while a handler list runs, only handler outcomes are
/// taken; and the loop returns to idle only once the last handler of the
/// list has succeeded.
pub proof fn lemma_dispatch_is_sequential<FG, FL, K, M, P, R, E>(
    h: EventHandler<FG, FL, K, M, P, R>,
    phase: Phase,
    input: Input<E>,
)
    ensures
        (match h.transition(phase, input) {
            Some((_, Action::Fetch)) => phase == Phase::Idle && input == Input::<E>::Tick,
            _ => true,
        }),
        phase is Dispatching ==> (h.transition(phase, input).is_some() <==> input is Handled),
        (match (phase, h.transition(phase, input)) {
            (Phase::Dispatching { kind, index }, Some((Phase::Idle, _))) => {
                &&& input matches Input::Handled(Ok(_))
                &&& index + 1 >= h.count_of(kind)
            },
            _ => true,
        }),
{
}

/// With every list empty, no sequence of inputs ends the loop: it never
/// invokes a handler and never stops.
pub proof fn lemma_no_handlers_never_stop<FG, FL, K, M, P, R, E>(
    h: EventHandler<FG, FL, K, M, P, R>,
    phase: Phase,
    inputs: Seq<Input<E>>,
)
    requires
        forall|k: Kind| h.count_of(k) == 0,
        phase == Phase::Idle || phase == Phase::Fetching,
    ensures
        h.run(phase, inputs).0 == Phase::Idle || h.run(phase, inputs).0 == Phase::Fetching,
        forall|t: int|
            0 <= t < h.run(phase, inputs).1.len() ==> (h.run(phase, inputs).1[t] == Action::<E>::Fetch
                || h.run(phase, inputs).1[t] == Action::<E>::WaitTick),
    decreases inputs.len(),
{
    if inputs.len() > 0 {
        match h.transition(phase, inputs[0]) {
            None => {},
            Some((next, action)) => {
                lemma_no_handlers_never_stop(h, next, inputs.drop_first());
            },
        }
    }
}

} // verus!
