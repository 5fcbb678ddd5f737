//! Folding a sequence with a step that can fail: the first failure, in
//! the order of the sequence, is the result.

use vstd::prelude::*;
use crate::error::{ParseError, ParseFault};

verus! {

/// The mathematical value of a result.
pub open spec fn seen<T: DeepView>(r: Result<T, ParseError>) -> Result<T::V, ParseFault> {
    match r {
        Ok(value) => Ok(value.deep_view()),
        Err(e) => Err(e.deep_view()),
    }
}

/// The mathematical value of a result that holds a plain value.
pub open spec fn seen_plain<T>(r: Result<T, ParseError>) -> Result<T, ParseFault> {
    match r {
        Ok(value) => Ok(value),
        Err(e) => Err(e.deep_view()),
    }
}

/// What a result holds where it is a success.
pub open spec fn value_of<T>(r: Result<T, ParseFault>) -> T
    recommends
        r is Ok,
{
    r->Ok_0
}

/// The state after `step` took every item in turn, or the failure of
/// the first item that it refused.
pub open spec fn try_fold<S, T>(
    items: Seq<T>,
    init: S,
    step: spec_fn(S, T) -> Result<S, ParseFault>,
) -> Result<S, ParseFault>
    decreases items.len(),
{
    if items.len() == 0 {
        Ok(init)
    } else {
        match try_fold(items.drop_last(), init, step) {
            Ok(state) => step(state, items.last()),
            Err(e) => Err(e),
        }
    }
}

/// What each item turns into, in order, or the failure of the first item that is refused.
pub open spec fn try_map<T, U>(items: Seq<T>, each: spec_fn(T) -> Result<U, ParseFault>) -> Result<
    Seq<U>,
    ParseFault,
> {
    try_fold(items, Seq::<U>::empty(), collecting(each))
}

/// The step that appends what `each` makes of an item.
pub open spec fn collecting<T, U>(each: spec_fn(T) -> Result<U, ParseFault>) -> spec_fn(
    Seq<U>,
    T,
) -> Result<Seq<U>, ParseFault> {
    |sofar: Seq<U>, item: T|
        match each(item) {
            Ok(made) => Ok(sofar.push(made)),
            Err(e) => Err(e),
        }
}

/// Folding nothing leaves the state as it was.
pub proof fn lemma_fold_none<S, T>(
    items: Seq<T>,
    init: S,
    step: spec_fn(S, T) -> Result<S, ParseFault>,
)
    ensures
        try_fold(items.take(0), init, step) == Ok::<S, ParseFault>(init),
{
    assert(items.take(0).len() == 0);
}

/// Folding one item more is one step from where the fold stood.
pub proof fn lemma_fold_next<S, T>(
    items: Seq<T>,
    i: int,
    init: S,
    step: spec_fn(S, T) -> Result<S, ParseFault>,
)
    requires
        0 <= i < items.len(),
    ensures
        try_fold(items.take(i + 1), init, step) == (match try_fold(items.take(i), init, step) {
            Ok(state) => step(state, items[i]),
            Err(e) => Err(e),
        }),
{
    let upto = items.take(i + 1);
    assert(upto.drop_last() =~= items.take(i));
    assert(upto.last() == items[i]);
}

/// A fold that failed on a prefix fails in the same way on the whole.
pub proof fn lemma_fold_failed<S, T>(
    items: Seq<T>,
    i: int,
    init: S,
    step: spec_fn(S, T) -> Result<S, ParseFault>,
)
    requires
        0 <= i <= items.len(),
        try_fold(items.take(i), init, step) is Err,
    ensures
        try_fold(items, init, step) == try_fold(items.take(i), init, step),
    decreases items.len() - i,
{
    if i == items.len() {
        assert(items.take(i) =~= items);
    } else {
        lemma_fold_next(items, i, init, step);
        lemma_fold_failed(items, i + 1, init, step);
    }
}

/// A fold over the whole prefix is the fold over the sequence.
pub proof fn lemma_fold_all<S, T>(
    items: Seq<T>,
    init: S,
    step: spec_fn(S, T) -> Result<S, ParseFault>,
)
    ensures
        try_fold(items.take(items.len() as int), init, step) == try_fold(items, init, step),
{
    assert(items.take(items.len() as int) =~= items);
}

/// A step that refuses an item whatever the state makes the whole fold fail.
pub proof fn lemma_fold_refused<S, T>(
    items: Seq<T>,
    i: int,
    init: S,
    step: spec_fn(S, T) -> Result<S, ParseFault>,
)
    requires
        0 <= i < items.len(),
        forall|state: S| (#[trigger] step(state, items[i])) is Err,
    ensures
        try_fold(items, init, step) is Err,
{
    lemma_fold_next(items, i, init, step);
    lemma_fold_failed(items, i + 1, init, step);
}

/// One item that is refused makes the whole mapping fail.
pub proof fn lemma_map_refused<T, U>(
    items: Seq<T>,
    i: int,
    each: spec_fn(T) -> Result<U, ParseFault>,
)
    requires
        0 <= i < items.len(),
        each(items[i]) is Err,
    ensures
        try_map(items, each) is Err,
{
    let step = collecting(each);
    assert forall|state: Seq<U>| (#[trigger] step(state, items[i])) is Err by {}
    lemma_fold_refused(items, i, Seq::<U>::empty(), step);
}

/// A mapping that succeeds keeps the order: one result for each item.
pub proof fn lemma_map_kept<T, U>(items: Seq<T>, each: spec_fn(T) -> Result<U, ParseFault>)
    requires
        try_map(items, each) is Ok,
    ensures
        value_of(try_map(items, each)).len() == items.len(),
        forall|i: int|
            0 <= i < items.len() ==> each(items[i]) == Ok::<U, ParseFault>(
                #[trigger] value_of(try_map(items, each))[i],
            ),
    decreases items.len(),
{
    if items.len() > 0 {
        let step = collecting(each);
        let before = try_fold(items.drop_last(), Seq::<U>::empty(), step);
        assert(before is Ok);
        lemma_map_kept(items.drop_last(), each);
        assert forall|i: int| 0 <= i < items.len() implies each(items[i]) == Ok::<U, ParseFault>(
            #[trigger] value_of(try_map(items, each))[i],
        ) by {
            if i < items.len() - 1 {
                assert(items.drop_last()[i] == items[i]);
                assert(value_of(try_map(items.drop_last(), each))[i] == value_of(
                    try_map(items, each),
                )[i]);
            }
        }
    }
}

/// What every successful step keeps true of the state is true of the
/// outcome of a successful fold.
pub proof fn lemma_fold_keeps<S, T>(
    items: Seq<T>,
    init: S,
    step: spec_fn(S, T) -> Result<S, ParseFault>,
    kept: spec_fn(S) -> bool,
)
    requires
        kept(init),
        forall|state: S, item: T|
            kept(state) && (#[trigger] step(state, item)) is Ok ==> kept(
                value_of(step(state, item)),
            ),
    ensures
        try_fold(items, init, step) is Ok ==> kept(value_of(try_fold(items, init, step))),
    decreases items.len(),
{
    if items.len() > 0 {
        lemma_fold_keeps(items.drop_last(), init, step, kept);
    }
}

} // verus!
