//! Which strategy answers a call, stated over the effects of the operations.

use crate::mock::{Dispatch, Mock};
use vstd::prelude::*;

verus! {

/// While no override is installed, every call returns a clone of the stub
/// value, and leaves the mock answering in the same way.
pub proof fn lemma_stub_value_answers<C: Clone, R: Clone>(
    mock: Mock<C, R>,
    args: C,
    ret: R,
    post: Mock<C, R>,
)
    requires
        mock@.dispatch == Dispatch::StubValue,
        mock.call_yields(args, ret, &post),
    ensures
        cloned(mock@.stub_value, ret),
        post@.dispatch == Dispatch::StubValue,
        post@.stub_value == mock@.stub_value,
{
}

/// A mock constructed with `value` and not configured since answers every
/// call with a clone of `value`.
pub proof fn lemma_fresh_mock_answers_with_its_value<C: Clone, R: Clone>(
    value: R,
    mock: Mock<C, R>,
    first: C,
    first_ret: R,
    mid: Mock<C, R>,
    second: C,
    second_ret: R,
    post: Mock<C, R>,
)
    requires
        mock.fresh(value),
        mock.call_yields(first, first_ret, &mid),
        mid.call_yields(second, second_ret, &post),
    ensures
        cloned(value, first_ret),
        cloned(value, second_ret),
{
}

/// Once the stub value is set to `value`, and while no override is
/// installed, the calls that follow return clones of `value`.
pub proof fn lemma_new_stub_value_answers<C: Clone, R: Clone>(
    pre: Mock<C, R>,
    value: R,
    mock: Mock<C, R>,
    first: C,
    first_ret: R,
    mid: Mock<C, R>,
    second: C,
    second_ret: R,
    post: Mock<C, R>,
)
    requires
        pre@.dispatch == Dispatch::StubValue,
        pre.restubbed(value, &mock),
        mock.call_yields(first, first_ret, &mid),
        mid.call_yields(second, second_ret, &post),
    ensures
        cloned(value, first_ret),
        cloned(value, second_ret),
{
}

/// Setting the stub value while an override is installed changes no answer:
/// the override still decides.
pub proof fn lemma_override_outlives_stub_value<C: Clone, R: Clone>(
    pre: Mock<C, R>,
    value: R,
    mock: Mock<C, R>,
    args: C,
    ret: R,
)
    requires
        pre@.dispatch != Dispatch::StubValue,
        pre.restubbed(value, &mock),
    ensures
        mock.accepts(args) == pre.accepts(args),
        mock.answers(args, ret) == pre.answers(args, ret),
{
}

/// Once an override is installed, of either kind, each call that follows
/// returns what the override gives for that call's arguments, whatever
/// override or stub value was there before.
pub proof fn lemma_override_answers<C: Clone, R: Clone, F: Fn(C) -> R>(
    pre: Mock<C, R>,
    kind: Dispatch,
    f: F,
    mock: Mock<C, R>,
    first: C,
    first_ret: R,
    mid: Mock<C, R>,
    second: C,
    second_ret: R,
    post: Mock<C, R>,
)
    requires
        kind != Dispatch::StubValue,
        pre.overridden(kind, f, &mock),
        mock.call_yields(first, first_ret, &mid),
        mid.call_yields(second, second_ret, &post),
    ensures
        call_ensures(f, (first,), first_ret),
        call_ensures(f, (second,), second_ret),
        post@.dispatch == kind,
{
}

/// A closure installed after a function takes over from it, and a function
/// installed after that takes over again: each call is answered by the
/// override installed last.
pub proof fn lemma_last_override_answers<
    C: Clone,
    R: Clone,
    F: Fn(C) -> R,
    G: Fn(C) -> R,
    H: Fn(C) -> R,
>(
    start: Mock<C, R>,
    f: F,
    with_f: Mock<C, R>,
    g: G,
    with_g: Mock<C, R>,
    first: C,
    first_ret: R,
    mid: Mock<C, R>,
    h: H,
    with_h: Mock<C, R>,
    second: C,
    second_ret: R,
    post: Mock<C, R>,
)
    requires
        start.overridden(Dispatch::Function, f, &with_f),
        with_f.overridden(Dispatch::Closure, g, &with_g),
        with_g.call_yields(first, first_ret, &mid),
        mid.overridden(Dispatch::Function, h, &with_h),
        with_h.call_yields(second, second_ret, &post),
    ensures
        with_g@.dispatch == Dispatch::Closure,
        call_ensures(g, (first,), first_ret),
        with_h@.dispatch == Dispatch::Function,
        call_ensures(h, (second,), second_ret),
{
}

/// A call is in order after an override is installed exactly where the
/// override's own precondition admits the arguments.
pub proof fn lemma_override_decides_what_is_accepted<C: Clone, R: Clone, F: Fn(C) -> R>(
    pre: Mock<C, R>,
    kind: Dispatch,
    f: F,
    mock: Mock<C, R>,
    args: C,
)
    requires
        kind != Dispatch::StubValue,
        pre.overridden(kind, f, &mock),
    ensures
        mock.accepts(args) == call_requires(f, (args,)),
{
}

} // verus!
