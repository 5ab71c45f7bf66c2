use crate::validation::{ResidualView, ValidationView};
use std::ops::ControlFlow;
use vstd::prelude::*;

verus! {

/// Warnings never hide a success: a success built from `v`, with any
/// warnings added one by one or as a sequence, still yields `v` when its
/// value is taken.
pub proof fn lemma_warnings_keep_success<T, E, W>(v: T, w: W, ws: Seq<W>)
    ensures
        ValidationView::<T, E, W>::success(v).with_warnings(ws).ok() == Some(v),
        ValidationView::<T, E, W>::success(v).with_warning(w).ok() == Some(v),
        ValidationView::<T, E, W>::success(v).with_warning(w).with_warnings(ws).ok() == Some(v),
{
}

/// A failure yields no value, whatever its errors (none included) and
/// its warnings.
pub proof fn lemma_failure_has_no_value<T, E, W>(es: Seq<E>, ws: Seq<W>)
    ensures
        (ValidationView::<T, E, W> { warnings: ws, result: Err(es) }).ok() == None::<T>,
{
}

/// Mapping a success with warnings `ws` by a function `g` gives the success
/// `g(v)` with the same warnings `ws`. `rel` is what the mapping closure
/// promises of its result; it must pin that result to `g`.
pub proof fn lemma_map_success<T, U, E, W>(
    v: T,
    ws: Seq<W>,
    g: spec_fn(T) -> U,
    rel: spec_fn(T, U) -> bool,
    out: ValidationView<U, E, W>,
)
    requires
        forall|a: T, b: U| #[trigger] rel(a, b) ==> b == g(a),
        out.is_map_of(ValidationView::<T, E, W> { warnings: ws, result: Ok(v) }, rel),
    ensures
        out == (ValidationView::<U, E, W> { warnings: ws, result: Ok(g(v)) }),
{
}

/// Mapping a failure with warnings `ws` and errors `es`, by any function,
/// gives the failure with the same warnings and errors.
pub proof fn lemma_map_failure<T, U, E, W>(
    es: Seq<E>,
    ws: Seq<W>,
    rel: spec_fn(T, U) -> bool,
    out: ValidationView<U, E, W>,
)
    requires
        out.is_map_of(ValidationView::<T, E, W> { warnings: ws, result: Err(es) }, rel),
    ensures
        out == (ValidationView::<U, E, W> { warnings: ws, result: Err(es) }),
{
}

/// Decomposing a failure with warnings `ws` and errors `es` breaks with a
/// residual that holds exactly `ws` and `es`, and rebuilding from that
/// residual gives the same failure back.
pub proof fn lemma_failure_round_trip<T, E, W>(es: Seq<E>, ws: Seq<W>)
    ensures
        (ValidationView::<T, E, W> { warnings: ws, result: Err(es) }).branch() == ControlFlow::<
            ResidualView<E, W>,
            T,
        >::Break(ResidualView { warnings: ws, errors: es }),
        ValidationView::<T, E, W>::failure_from(ResidualView { warnings: ws, errors: es }) == (
        ValidationView::<T, E, W> { warnings: ws, result: Err(es) }),
{
}

/// Decomposing a success continues with its bare value, whatever warnings
/// it carries: the continuation holds `v` and nothing else.
pub proof fn lemma_success_continues<T, E, W>(v: T, ws: Seq<W>)
    ensures
        (ValidationView::<T, E, W> { warnings: ws, result: Ok(v) }).branch() == ControlFlow::<
            ResidualView<E, W>,
            T,
        >::Continue(v),
{
}

/// Decomposing what was built from a plain value continues with that
/// value; decomposing what was rebuilt from a residual breaks with that
/// same residual.
pub proof fn lemma_rebuild_then_branch<T, E, W>(v: T, res: ResidualView<E, W>)
    ensures
        ValidationView::<T, E, W>::success(v).branch() == ControlFlow::<ResidualView<E, W>, T>::Continue(v),
        ValidationView::<T, E, W>::failure_from(res).branch() == ControlFlow::<ResidualView<E, W>, T>::Break(res),
{
}

/// Adding an empty sequence of warnings changes nothing.
pub proof fn lemma_no_warnings_added<T, E, W>(x: ValidationView<T, E, W>)
    ensures
        x.with_warnings(Seq::empty()) == x,
{
    assert(x.warnings + Seq::<W>::empty() =~= x.warnings);
}

} // verus!
