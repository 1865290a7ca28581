//! Shorthands for mocks whose answer is an `Option` or a `Result`.
//!
//! Each one sets the stub value to a wrapped value and does nothing else.

use crate::mock::{Dispatch, Mock};
use vstd::prelude::*;

verus! {

/// `Clone::clone` of std for `Result`: cloning an `Ok` gives an `Ok` and
/// cloning an `Err` gives an `Err`, each holding a clone of the value that the
/// cloned one holds. This is taken on trust, as std documents it; it is what
/// lets a `Result` stub value be followed through a call.
pub assume_specification<T: Clone, E: Clone>[ <Result<T, E> as Clone>::clone ](
    res: &Result<T, E>,
) -> (ret: Result<T, E>)
    ensures
        res is Ok ==> ret is Ok && cloned::<T>(res->Ok_0, ret->Ok_0),
        res is Err ==> ret is Err && cloned::<E>(res->Err_0, ret->Err_0),
;

impl<C, S> Mock<C, Option<S>> where C: Clone, S: Clone {
    /// Sets the stub value to `Some(return_value)`.
    pub fn return_some(&mut self, return_value: S)
        ensures
            old(self).restubbed(Some(return_value), final(self)),
    {
        self.return_value(Some(return_value))
    }

    /// Sets the stub value to `None`.
    pub fn return_none(&mut self)
        ensures
            old(self).restubbed(None, final(self)),
    {
        self.return_value(None)
    }
}

impl<C, O, E> Mock<C, Result<O, E>> where C: Clone, O: Clone, E: Clone {
    /// Sets the stub value to `Ok(return_value)`.
    pub fn return_ok(&mut self, return_value: O)
        ensures
            old(self).restubbed(Ok(return_value), final(self)),
    {
        self.return_value(Ok(return_value))
    }

    /// Sets the stub value to `Err(return_value)`.
    pub fn return_err(&mut self, return_value: E)
        ensures
            old(self).restubbed(Err(return_value), final(self)),
    {
        self.return_value(Err(return_value))
    }
}

/// After `return_some(value)`, and while no override is installed, a call
/// returns `Some` of a clone of `value`.
pub proof fn lemma_return_some_answers<C: Clone, S: Clone>(
    pre: Mock<C, Option<S>>,
    value: S,
    mock: Mock<C, Option<S>>,
    args: C,
    ret: Option<S>,
    post: Mock<C, Option<S>>,
)
    requires
        pre@.dispatch == Dispatch::StubValue,
        pre.restubbed(Some(value), &mock),
        mock.call_yields(args, ret, &post),
    ensures
        ret matches Some(given) && cloned(value, given),
{
}

/// After `return_none()`, and while no override is installed, a call
/// returns `None`.
pub proof fn lemma_return_none_answers<C: Clone, S: Clone>(
    pre: Mock<C, Option<S>>,
    mock: Mock<C, Option<S>>,
    args: C,
    ret: Option<S>,
    post: Mock<C, Option<S>>,
)
    requires
        pre@.dispatch == Dispatch::StubValue,
        pre.restubbed(None, &mock),
        mock.call_yields(args, ret, &post),
    ensures
        ret is None,
{
}

/// After `return_ok(value)`, and while no override is installed, a call
/// returns `Ok` of a clone of `value`.
pub proof fn lemma_return_ok_answers<C: Clone, O: Clone, E: Clone>(
    pre: Mock<C, Result<O, E>>,
    value: O,
    mock: Mock<C, Result<O, E>>,
    args: C,
    ret: Result<O, E>,
    post: Mock<C, Result<O, E>>,
)
    requires
        pre@.dispatch == Dispatch::StubValue,
        pre.restubbed(Ok(value), &mock),
        mock.call_yields(args, ret, &post),
    ensures
        ret matches Ok(given) && cloned(value, given),
{
}

/// After `return_err(value)`, and while no override is installed, a call
/// returns `Err` of a clone of `value`.
pub proof fn lemma_return_err_answers<C: Clone, O: Clone, E: Clone>(
    pre: Mock<C, Result<O, E>>,
    value: E,
    mock: Mock<C, Result<O, E>>,
    args: C,
    ret: Result<O, E>,
    post: Mock<C, Result<O, E>>,
)
    requires
        pre@.dispatch == Dispatch::StubValue,
        pre.restubbed(Err(value), &mock),
        mock.call_yields(args, ret, &post),
    ensures
        ret matches Err(given) && cloned(value, given),
{
}

} // verus!
