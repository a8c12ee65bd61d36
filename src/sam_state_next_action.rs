use vstd::prelude::*;

use crate::NextActionData;

verus! {

/// NextAction: a convergence predicate over signals, and the driver that
/// applies it until it signals termination.
pub trait SamStateNextAction: Sized {
    type SamModel;
    type Error;

    /// The signal (or the error) that the predicate yields for `data`.
    spec fn predicate_spec(
        data: NextActionData<Self::SamModel>,
    ) -> Result<NextActionData<Self::SamModel>, Self::Error>;

    /// One step of the convergence. A terminal signal passes through unchanged.
    fn next_action_predicate(data: NextActionData<Self::SamModel>) -> (r: Result<
        NextActionData<Self::SamModel>,
        Self::Error,
    >)
        ensures
            r == Self::predicate_spec(data),
            data is Terminate ==> r == Ok::<NextActionData<Self::SamModel>, Self::Error>(data),
    ;

    /// Drives `model` to a terminal state: starting from `Continue(model)`,
    /// applies the predicate while the signal is `Continue`, stops at the first
    /// error, and yields the model of the first `Terminate`. The loop ends only
    /// if the predicate lets it: the caller answers for that, by `requires`.
    fn next_action(model: Self::SamModel) -> (r: Result<Self::SamModel, Self::Error>)
        requires
            converges(|d| Self::predicate_spec(d), model),
        ensures
            r == convergence(|d| Self::predicate_spec(d), model),
    {
        let ghost step = |d| Self::predicate_spec(d);
        let ghost fuel0 = choose|n: nat| converges_within(step, model, n);
        let ghost mut fuel: nat = fuel0;
        let mut data = NextActionData::new_continue(model);
        while matches!(data, NextActionData::Continue { .. })
            invariant
                step == (|d| Self::predicate_spec(d)),
                fuel0 == choose|n: nat| converges_within(step, model, n),
                run(step, data, fuel) is Some,
                run(step, data, fuel) == run(step, NextActionData::Continue { model }, fuel0),
            decreases fuel,
        {
            let result = Self::next_action_predicate(data);
            data = match result {
                Ok(v) => v,
                Err(e) => return Err(e),
            };
            proof {
                fuel = (fuel - 1) as nat;
            }
        }
        Ok(data.get())
    }
}

/// The outcome of the convergence loop from `data` under the predicate `step`
/// when `step` may run at most `fuel` more times: `None` when that is not
/// enough to reach a terminal signal or an error.
pub open spec fn run<M, E>(
    step: spec_fn(NextActionData<M>) -> Result<NextActionData<M>, E>,
    data: NextActionData<M>,
    fuel: nat,
) -> Option<Result<M, E>>
    decreases fuel,
{
    match data {
        NextActionData::Terminate { model } => Some(Ok(model)),
        NextActionData::Continue { .. } => if fuel == 0 {
            None
        } else {
            match step(data) {
                Ok(next) => run(step, next, (fuel - 1) as nat),
                Err(e) => Some(Err(e)),
            }
        },
    }
}

/// The loop started on `model` ends within `n` invocations of `step`.
pub open spec fn converges_within<M, E>(
    step: spec_fn(NextActionData<M>) -> Result<NextActionData<M>, E>,
    model: M,
    n: nat,
) -> bool {
    run(step, NextActionData::Continue { model }, n) is Some
}

/// The loop started on `model` ends after finitely many invocations of `step`.
pub open spec fn converges<M, E>(
    step: spec_fn(NextActionData<M>) -> Result<NextActionData<M>, E>,
    model: M,
) -> bool {
    exists|n: nat| converges_within(step, model, n)
}

/// What the loop started on `model` yields, where it ends.
pub open spec fn convergence<M, E>(
    step: spec_fn(NextActionData<M>) -> Result<NextActionData<M>, E>,
    model: M,
) -> Result<M, E> {
    run(step, NextActionData::Continue { model }, choose|n: nat| converges_within(step, model, n))->Some_0
}

/// Once `fuel` suffices to end the loop, more fuel changes nothing.
pub proof fn lemma_run_fuel_mono<M, E>(
    step: spec_fn(NextActionData<M>) -> Result<NextActionData<M>, E>,
    data: NextActionData<M>,
    fuel: nat,
    more: nat,
)
    requires
        run(step, data, fuel) is Some,
        fuel <= more,
    ensures
        run(step, data, more) == run(step, data, fuel),
    decreases fuel,
{
    if data is Continue {
        if let Ok(next) = step(data) {
            lemma_run_fuel_mono(step, next, (fuel - 1) as nat, (more - 1) as nat);
        }
    }
}

/// Where the loop ends within `n` invocations, what it yields is what those
/// `n` invocations give.
pub proof fn lemma_convergence_within<M, E>(
    step: spec_fn(NextActionData<M>) -> Result<NextActionData<M>, E>,
    model: M,
    n: nat,
)
    requires
        converges_within(step, model, n),
    ensures
        converges(step, model),
        convergence(step, model) == run(step, NextActionData::Continue { model }, n)->Some_0,
{
    let k = choose|k: nat| converges_within(step, model, k);
    if k <= n {
        lemma_run_fuel_mono(step, NextActionData::Continue { model }, k, n);
    } else {
        lemma_run_fuel_mono(step, NextActionData::Continue { model }, n, k);
    }
}

/// A predicate that answers every `Continue(m)` with `Terminate(m)` ends the
/// loop after exactly one invocation, and the driver yields the model it was
/// given, unchanged.
pub proof fn lemma_terminating_predicate<T: SamStateNextAction>(model: T::SamModel)
    requires
        forall|m: T::SamModel|
            #[trigger] T::predicate_spec(NextActionData::Continue { model: m }) == Ok::<
                NextActionData<T::SamModel>,
                T::Error,
            >(NextActionData::Terminate { model: m }),
    ensures
        converges_within(|d| T::predicate_spec(d), model, 1),
        !converges_within(|d| T::predicate_spec(d), model, 0),
        converges(|d| T::predicate_spec(d), model),
        convergence(|d| T::predicate_spec(d), model) == Ok::<T::SamModel, T::Error>(model),
{
    let step = |d| T::predicate_spec(d);
    assert(step(NextActionData::Continue { model }) == Ok::<NextActionData<T::SamModel>, T::Error>(
        NextActionData::Terminate { model },
    ));
    assert(run(step, NextActionData::Terminate { model }, 0) == Some(
        Ok::<T::SamModel, T::Error>(model),
    ));
    assert(run(step, NextActionData::Continue { model }, 1) == Some(
        Ok::<T::SamModel, T::Error>(model),
    ));
    lemma_convergence_within(step, model, 1);
}

/// The loop under a counting-down predicate, run with `fuel`: it ends exactly
/// when `fuel` exceeds the counter, with the counter at zero.
proof fn lemma_countdown_run<T: SamStateNextAction>(
    counter: spec_fn(T::SamModel) -> nat,
    model: T::SamModel,
    fuel: nat,
)
    requires
        counts_down::<T>(counter),
    ensures
        run(|d| T::predicate_spec(d), NextActionData::Continue { model }, fuel) is Some <==> fuel
            > counter(model),
        fuel > counter(model) ==> {
            let r = run(|d| T::predicate_spec(d), NextActionData::Continue { model }, fuel)->Some_0;
            r is Ok && counter(r->Ok_0) == 0
        },
    decreases fuel,
{
    let step = |d| T::predicate_spec(d);
    let out = T::predicate_spec(NextActionData::Continue { model });
    assert(step(NextActionData::Continue { model }) == out);
    if fuel > 0 {
        assert(run(step, NextActionData::Continue { model }, fuel) == run(
            step,
            out->Ok_0,
            (fuel - 1) as nat,
        ));
        if counter(model) > 0 {
            lemma_countdown_run::<T>(counter, out->Ok_0.model(), (fuel - 1) as nat);
        }
    }
}

/// `counter` measures the models of `T`'s predicate: on `Continue(m)` with a
/// positive counter it continues with the counter one lower, and with a zero
/// counter it terminates on a model whose counter is zero.
pub open spec fn counts_down<T: SamStateNextAction>(counter: spec_fn(T::SamModel) -> nat) -> bool {
    forall|m: T::SamModel|
        {
            let out = #[trigger] T::predicate_spec(NextActionData::Continue { model: m });
            &&& out is Ok
            &&& counter(m) > 0 ==> out->Ok_0 is Continue && counter(out->Ok_0.model()) == counter(
                m,
            ) - 1
            &&& counter(m) == 0 ==> out->Ok_0 is Terminate && counter(out->Ok_0.model()) == 0
        }
}

/// Under a predicate that counts a model down to zero and then terminates, the
/// loop started on a model with counter `N` ends after exactly `N + 1`
/// invocations, with the counter at zero.
pub proof fn lemma_countdown<T: SamStateNextAction>(
    counter: spec_fn(T::SamModel) -> nat,
    model: T::SamModel,
)
    requires
        counts_down::<T>(counter),
    ensures
        converges_within(|d| T::predicate_spec(d), model, counter(model) + 1),
        !converges_within(|d| T::predicate_spec(d), model, counter(model)),
        converges(|d| T::predicate_spec(d), model),
        convergence(|d| T::predicate_spec(d), model) is Ok,
        counter(convergence(|d| T::predicate_spec(d), model)->Ok_0) == 0,
{
    lemma_countdown_run::<T>(counter, model, counter(model) + 1);
    lemma_countdown_run::<T>(counter, model, counter(model));
    lemma_convergence_within(|d| T::predicate_spec(d), model, counter(model) + 1);
}

} // verus!
