//! The mock itself: recorded history, stub value and override slot.

use vstd::prelude::*;
use vstd::std_specs::cmp::PartialEqSpec;

verus! {

/// The strategy that answers the next call.
#[derive(Clone, Copy, Debug, PartialEq, Eq, Structural)]
pub enum Dispatch {
    /// No override is installed: a call returns a clone of the stub value.
    StubValue,
    /// The override installed by [`Mock::use_fn`] answers.
    Function,
    /// The override installed by [`Mock::use_closure`] answers.
    Closure,
}

/// Something that can answer a call: the contract of an installed override,
/// seen without its concrete type.
trait Responder<C, R>: Send + Sync {
    /// The arguments the override may be called with.
    spec fn accepts(&self, args: C) -> bool;

    /// The results the override may give for `args`.
    spec fn answers(&self, args: C, ret: R) -> bool;

    fn respond(&self, args: C) -> (ret: R)
        requires
            self.accepts(args),
        ensures
            self.answers(args, ret),
    ;
}

impl<C, R, F: Fn(C) -> R + Send + Sync> Responder<C, R> for F {
    spec fn accepts(&self, args: C) -> bool {
        call_requires(*self, (args,))
    }

    spec fn answers(&self, args: C, ret: R) -> bool {
        call_ensures(*self, (args,), ret)
    }

    fn respond(&self, args: C) -> (ret: R) {
        self(args)
    }
}

/// The override slot. One slot with three states: a function and a closure
/// can never be installed together.
#[verifier::reject_recursive_types(C)]
#[verifier::reject_recursive_types(R)]
enum Override<C, R> {
    Unset,
    Function(Box<dyn Responder<C, R>>),
    Closure(Box<dyn Responder<C, R>>),
}

/// Records the arguments of every call and answers each one from the stub
/// value or from the installed override.
///
/// Every value of this type is well formed: the override slot is one enum,
/// so at most one override is installed at any time, and the stub value is
/// always there, also while an override answers in its place.
#[verifier::reject_recursive_types(C)]
#[verifier::reject_recursive_types(R)]
pub struct Mock<C, R> where C: Clone, R: Clone {
    return_value: R,
    overriding: Override<C, R>,
    calls: Vec<C>,
}

/// What a mock is, apart from the behaviour of its override.
pub struct MockView<C, R> {
    /// The arguments recorded so far, oldest first.
    pub history: Seq<C>,
    /// The value that answers a call while no override is installed.
    pub stub_value: R,
    /// Which strategy answers the next call.
    pub dispatch: Dispatch,
}

impl<C, R> View for Mock<C, R> where C: Clone, R: Clone {
    type V = MockView<C, R>;

    closed spec fn view(&self) -> MockView<C, R> {
        MockView {
            history: self.calls@,
            stub_value: self.return_value,
            dispatch: match self.overriding {
                Override::Unset => Dispatch::StubValue,
                Override::Function(_) => Dispatch::Function,
                Override::Closure(_) => Dispatch::Closure,
            },
        }
    }
}

impl<C, R> Mock<C, R> where C: Clone, R: Clone {
    /// Whether the installed override may be called with `args`.
    pub closed spec fn override_accepts(&self, args: C) -> bool {
        match self.overriding {
            Override::Unset => true,
            Override::Function(f) => f.accepts(args),
            Override::Closure(g) => g.accepts(args),
        }
    }

    /// Whether the installed override may give `ret` for `args`.
    pub closed spec fn override_answers(&self, args: C, ret: R) -> bool {
        match self.overriding {
            Override::Unset => false,
            Override::Function(f) => f.answers(args, ret),
            Override::Closure(g) => g.answers(args, ret),
        }
    }

    /// Whether a call with `args` is in order: always while no override is
    /// installed, else where the override's own precondition admits `args`.
    pub open spec fn accepts(&self, args: C) -> bool {
        self@.dispatch == Dispatch::StubValue || self.override_accepts(args)
    }

    /// Whether `ret` is a possible answer to a call with `args`: a clone of the
    /// stub value while no override is installed, else what the override gives.
    pub open spec fn answers(&self, args: C, ret: R) -> bool {
        match self@.dispatch {
            Dispatch::StubValue => cloned(self@.stub_value, ret),
            _ => self.override_answers(args, ret),
        }
    }

    /// Whether `self` and `other` have the same override installed, or none.
    pub open spec fn same_override(&self, other: &Self) -> bool {
        &&& self@.dispatch == other@.dispatch
        &&& forall|a: C| #[trigger] self.override_accepts(a) == other.override_accepts(a)
        &&& forall|a: C, r: R| #[trigger]
            self.override_answers(a, r) == other.override_answers(a, r)
    }

    /// The state right after construction with `value`.
    pub open spec fn fresh(&self, value: R) -> bool {
        &&& self@.history == Seq::<C>::empty()
        &&& self@.stub_value == value
        &&& self@.dispatch == Dispatch::StubValue
    }

    /// The effect of one call: `post` is `self` with a clone of `args` added to
    /// the end of the history, `ret` is what the active strategy answers, and
    /// the configuration is untouched.
    pub open spec fn call_yields(&self, args: C, ret: R, post: &Self) -> bool {
        &&& post@.history.len() == self@.history.len() + 1
        &&& post@.history.drop_last() == self@.history
        &&& cloned(args, post@.history.last())
        &&& self.answers(args, ret)
        &&& post@.stub_value == self@.stub_value
        &&& post.same_override(self)
    }

    /// The effect of setting the stub value to `value`: history and override
    /// stay as they are.
    pub open spec fn restubbed(&self, value: R, post: &Self) -> bool {
        &&& post@.stub_value == value
        &&& post@.history == self@.history
        &&& post.same_override(self)
    }

    /// The effect of installing `f` as the override of the given kind: the
    /// override slot now behaves as `f` does, and any override installed
    /// before is gone. History and stub value stay as they are.
    pub open spec fn overridden<F: Fn(C) -> R>(&self, kind: Dispatch, f: F, post: &Self) -> bool {
        &&& post@.dispatch == kind
        &&& forall|a: C| #[trigger] post.override_accepts(a) == call_requires(f, (a,))
        &&& forall|a: C, r: R| #[trigger] post.override_answers(a, r) == call_ensures(f, (a,), r)
        &&& post@.history == self@.history
        &&& post@.stub_value == self@.stub_value
    }

    /// The effect of clearing the history: stub value and override stay as
    /// they are.
    pub open spec fn history_cleared(&self, post: &Self) -> bool {
        &&& post@.history == Seq::<C>::empty()
        &&& post@.stub_value == self@.stub_value
        &&& post.same_override(self)
    }

    /// Whether at least one call has been recorded.
    pub open spec fn was_called(&self) -> bool {
        self@.history.len() > 0
    }

    /// The number of calls recorded.
    pub open spec fn call_count(&self) -> nat {
        self@.history.len()
    }

    /// Whether `snapshot` is a copy of the history: as long, each element a
    /// clone of the recorded one at the same place.
    pub open spec fn snapshot_of_history(&self, snapshot: Seq<C>) -> bool {
        &&& snapshot.len() == self@.history.len()
        &&& forall|i: int|
            0 <= i < snapshot.len() ==> cloned(self@.history[i], #[trigger] snapshot[i])
    }

    /// Creates a mock that answers with `return_value` and has recorded nothing.
    pub fn new(return_value: R) -> (mock: Self)
        ensures
            mock.fresh(return_value),
    {
        Mock { return_value, overriding: Override::Unset, calls: Vec::new() }
    }

    /// Records a clone of `args`, then answers: the function override if one
    /// is installed, else the closure override if one is installed, else a
    /// clone of the stub value.
    pub fn call(&mut self, args: C) -> (ret: R)
        requires
            old(self).accepts(args),
        ensures
            old(self).call_yields(args, ret, final(self)),
    {
        self.calls.push(args.clone());
        assert(self.calls@.drop_last() == old(self).calls@);
        match &self.overriding {
            Override::Function(f) => f.respond(args),
            Override::Closure(g) => g.respond(args),
            Override::Unset => self.return_value.clone(),
        }
    }

    /// Replaces the stub value. An installed override stays installed and
    /// keeps answering.
    pub fn return_value(&mut self, return_value: R)
        ensures
            old(self).restubbed(return_value, final(self)),
    {
        self.return_value = return_value;
    }

    /// Installs `mock_fn` as the function override, in place of whatever
    /// override was installed. Calls are still recorded.
    pub fn use_fn<F>(&mut self, mock_fn: F) where F: Fn(C) -> R + Send + Sync + 'static
        ensures
            old(self).overridden(Dispatch::Function, mock_fn, final(self)),
    {
        self.overriding = Override::Function(Box::new(mock_fn));
    }

    /// Installs `mock_fn` as the closure override, in place of whatever
    /// override was installed. Calls are still recorded.
    pub fn use_closure<G>(&mut self, mock_fn: Box<G>) where G: Fn(C) -> R + Send + Sync + 'static
        ensures
            old(self).overridden(Dispatch::Closure, *mock_fn, final(self)),
    {
        self.overriding = Override::Closure(mock_fn);
    }

    /// The stub value as it is now, whether or not an override is installed.
    pub fn stub(&self) -> (value: &R)
        ensures
            *value == self@.stub_value,
    {
        &self.return_value
    }

    /// Whether any call has been recorded.
    pub fn called(&self) -> (ret: bool)
        ensures
            ret == self.was_called(),
    {
        !self.calls.is_empty()
    }

    /// The number of calls recorded.
    pub fn num_calls(&self) -> (ret: usize)
        ensures
            ret == self.call_count(),
    {
        self.calls.len()
    }

    /// A copy of the recorded arguments, oldest first. The copy is the
    /// caller's own: changing it does not touch the mock.
    pub fn calls(&self) -> (snapshot: Vec<C>)
        ensures
            self.snapshot_of_history(snapshot@),
    {
        self.calls.clone()
    }

    /// Forgets every recorded call. Stub value and override are kept.
    pub fn reset_calls(&mut self)
        ensures
            old(self).history_cleared(final(self)),
    {
        self.calls.clear();
    }
}

impl<C, R> Default for Mock<C, R> where C: Clone, R: Clone + Default {
    /// A mock that answers with `R::default()` and has recorded nothing.
    fn default() -> (mock: Self)
        ensures
            call_ensures(R::default, (), mock@.stub_value),
            mock@.history == Seq::<C>::empty(),
            mock@.dispatch == Dispatch::StubValue,
    {
        Mock::new(R::default())
    }
}

impl<C, R> Mock<C, R> where C: Clone + PartialEq, R: Clone {
    /// Whether some recorded argument equals `args`, by the meaning that
    /// `C` gives to `==`.
    pub open spec fn recorded(&self, args: C) -> bool {
        exists|i: int| 0 <= i < self@.history.len() && #[trigger] self@.history[i].eq_spec(&args)
    }

    /// Whether some recorded argument compares equal to `args`. Each recorded
    /// argument stands on the left of the comparison.
    pub fn called_with(&self, args: C) -> (found: bool)
        ensures
            C::obeys_eq_spec() ==> found == self.recorded(args),
            found ==> exists|i: int|
                0 <= i < self@.history.len() && call_ensures(
                    C::eq,
                    (&#[trigger] self@.history[i], &args),
                    true,
                ),
            !found ==> forall|i: int|
                0 <= i < self@.history.len() ==> call_ensures(
                    C::eq,
                    (&#[trigger] self@.history[i], &args),
                    false,
                ),
    {
        let mut at: usize = 0;
        while at < self.calls.len()
            invariant
                at <= self.calls.len(),
                forall|i: int|
                    0 <= i < at ==> call_ensures(
                        C::eq,
                        (&#[trigger] self.calls@[i], &args),
                        false,
                    ),
                C::obeys_eq_spec() ==> forall|i: int|
                    0 <= i < at ==> !(#[trigger] self.calls@[i].eq_spec(&args)),
            decreases self.calls.len() - at,
        {
            if self.calls[at] == args {
                return true;
            }
            at += 1;
        }
        false
    }
}

} // verus!
