//! Groups of imports that are requested together and processed together.
//!
//! Registering an import in a group asks the session for it at once; the
//! processing of the imported data waits until the whole group is evaluated.
//! A run that is missing any of the group's data therefore asks for all of it
//! before it is abandoned, and the next run receives everything in one go.
use vstd::prelude::*;
use vstd::cell::invcell::InvCell;
use std::rc::Rc;
use crate::session::{import, ImportSession, LazyImport, MissingContext};
use crate::tokens::{SerializedTokenStream, Token};

verus! {

/// Which values a slot may hold: nothing, or a value the processor may produce.
pub open spec fn slot_predicate<T>(accepts: spec_fn(T) -> bool) -> spec_fn(Option<T>) -> bool {
    |o: Option<T>|
        match o {
            Some(v) => accepts(v),
            None => true,
        }
}

/// The values that the processor `f` may produce from the answer of an import.
pub open spec fn produced_by<T, E, F: FnOnce(SerializedTokenStream) -> Result<T, E>>(
    answer: Option<Seq<Token>>,
    f: F,
) -> spec_fn(T) -> bool {
    |v: T|
        match answer {
            Some(a) => exists|ts: SerializedTokenStream| ts@ == a && f.ensures((ts,), Ok::<T, E>(v)),
            None => false,
        }
}

/// The errors that the processor `f` may report for the answer of an import.
pub open spec fn failures_of<T, E, F: FnOnce(SerializedTokenStream) -> Result<T, E>>(
    answer: Option<Seq<Token>>,
    f: F,
) -> spec_fn(E) -> bool {
    |e: E|
        match answer {
            Some(a) => exists|ts: SerializedTokenStream| ts@ == a && f.ensures((ts,), Err::<T, E>(e)),
            None => false,
        }
}

/// One import of a group, seen without the type of the value it produces.
trait ErasedLazyProcessor<E> {
    /// The processor has not run yet.
    spec fn pending(&self) -> bool;

    /// The import this processor waits for was answered.
    spec fn has_answer(&self) -> bool;

    /// The processor may report this error.
    spec fn may_fail_with(&self, e: E) -> bool;

    /// The processor may produce a value.
    spec fn may_succeed(&self) -> bool;

    /// Runs the processor on the imported data and stores its value.
    fn compute(&mut self) -> (r: Result<Result<(), E>, MissingContext>)
        requires
            old(self).pending(),
        ensures
            r is Err <==> !old(self).has_answer(),
            r matches Ok(Err(e)) ==> old(self).may_fail_with(e),
            r matches Ok(Ok(())) ==> old(self).may_succeed(),
    ;
}

/// The processor of one import and the slot where its value goes.
#[verifier::reject_recursive_types(T)]
#[verifier::reject_recursive_types(E)]
#[verifier::reject_recursive_types(F)]
struct ConcreteLazyProcessor<T, E, F> {
    state: Option<(LazyImport, F)>,
    slot: Rc<InvCell<Option<T>, spec_fn(Option<T>) -> bool>>,
    answer: Ghost<Option<Seq<Token>>>,
    executor: Ghost<F>,
    error: Ghost<spec_fn(E) -> bool>,
}

impl<T, E, F: FnOnce(SerializedTokenStream) -> Result<T, E>> ErasedLazyProcessor<E> for ConcreteLazyProcessor<
    T,
    E,
    F,
> {
    closed spec fn pending(&self) -> bool {
        &&& self.state matches Some((imp, f)) && imp@ == self.answer@ && f == self.executor@
        &&& self.slot.predicate() == slot_predicate(produced_by::<T, E, F>(self.answer@, self.executor@))
        &&& self.error@ == failures_of::<T, E, F>(self.answer@, self.executor@)
        &&& forall|ts: SerializedTokenStream| self.executor@.requires((ts,))
    }

    closed spec fn has_answer(&self) -> bool {
        self.answer@ is Some
    }

    closed spec fn may_fail_with(&self, e: E) -> bool {
        (self.error@)(e)
    }

    closed spec fn may_succeed(&self) -> bool {
        exists|v: T| #[trigger] produced_by::<T, E, F>(self.answer@, self.executor@)(v)
    }

    fn compute(&mut self) -> (r: Result<Result<(), E>, MissingContext>) {
        let (imp, f) = self.state.take().unwrap();
        match imp.eval() {
            Err(m) => Err(m),
            Ok(tokens) => match f(tokens) {
                Ok(v) => {
                    assert(produced_by::<T, E, F>(self.answer@, self.executor@)(v));
                    self.slot.set(Some(v));
                    Ok(Ok(()))
                },
                Err(e) => {
                    assert(failures_of::<T, E, F>(self.answer@, self.executor@)(e));
                    Ok(Err(e))
                },
            },
        }
    }
}

/// A registered import whose processor has not run yet.
#[verifier::reject_recursive_types(E)]
struct PendingImport<'a, E> {
    processor: Box<dyn ErasedLazyProcessor<E> + 'a>,
}

impl<'a, E> PendingImport<'a, E> {
    /// Wraps a processor, forgetting the type of the value it produces.
    fn new<T: 'a, F: 'a + FnOnce(SerializedTokenStream) -> Result<T, E>>(
        processor: ConcreteLazyProcessor<T, E, F>,
    ) -> (p: Self)
        where E: 'a,
        ensures
            p.processor.pending() == processor.pending(),
            p.processor.has_answer() == processor.has_answer(),
            forall|e: E| #[trigger] p.processor.may_fail_with(e) == processor.may_fail_with(e),
            p.processor.may_succeed() == processor.may_succeed(),
    {
        PendingImport { processor: Box::new(processor) }
    }
}

/// Imports registered together and evaluated together.
#[verifier::reject_recursive_types(E)]
pub struct LazyImportGroup<'a, E> {
    items: Vec<PendingImport<'a, E>>,
}

/// The value of one import of a group, available once the group is evaluated.
#[verifier::reject_recursive_types(T)]
pub struct ComputedLazyImport<T> {
    slot: Rc<InvCell<Option<T>, spec_fn(Option<T>) -> bool>>,
    value: Option<T>,
    accepts: Ghost<spec_fn(T) -> bool>,
}

/// The value of an import is not available: its group was not evaluated, or
/// its processor reported an error.
#[derive(Clone, Copy, Debug, PartialEq, Eq, Structural)]
pub struct NotComputed;

impl<'a, E> LazyImportGroup<'a, E> {
    /// The number of imports waiting for evaluation.
    pub closed spec fn len(&self) -> nat {
        self.items@.len()
    }

    /// Whether the `i`-th waiting import was answered.
    pub closed spec fn has_answer(&self, i: int) -> bool {
        self.items@[i].processor.has_answer()
    }

    /// Whether the processor of the `i`-th waiting import may report `e`.
    pub closed spec fn may_fail_with(&self, i: int, e: E) -> bool {
        self.items@[i].processor.may_fail_with(e)
    }

    /// Whether the processor of the `i`-th waiting import may produce a value.
    pub closed spec fn may_succeed(&self, i: int) -> bool {
        self.items@[i].processor.may_succeed()
    }

    /// Whether `errors` can be the errors reported by the waiting imports at
    /// the positions `origin`: each error by the import at its origin, the
    /// origins increasing, so that the errors come in the order of the imports.
    pub open spec fn errors_from(&self, errors: Seq<E>, origin: Seq<int>) -> bool {
        &&& origin.len() == errors.len()
        &&& forall|k: int|
            0 <= k < errors.len() ==> 0 <= #[trigger] origin[k] < self.len() && self.may_fail_with(
                origin[k],
                errors[k],
            )
        &&& forall|k1: int, k2: int|
            0 <= k1 < k2 < origin.len() ==> #[trigger] origin[k1] < #[trigger] origin[k2]
    }

    /// Whether `errors` can be what the waiting imports report, in their order:
    /// one error from each import whose processor failed, and the processor of
    /// every other import may have produced a value.
    pub open spec fn reported(&self, errors: Seq<E>) -> bool {
        exists|origin: Seq<int>|
            {
                &&& #[trigger] self.errors_from(errors, origin)
                &&& forall|i: int|
                    0 <= i < self.len() && !origin.contains(i) ==> #[trigger] self.may_succeed(i)
            }
    }

    /// Every waiting import still has its processor to run.
    pub closed spec fn wf(&self) -> bool {
        forall|i: int| 0 <= i < self.items@.len() ==> #[trigger] self.items@[i].processor.pending()
    }

    /// An empty group.
    pub fn new() -> (g: Self)
        ensures
            g.wf(),
            g.len() == 0,
    {
        LazyImportGroup { items: Vec::new() }
    }

    /// Processes every waiting import, in the order they were registered, and
    /// empties the group.
    ///
    /// Stops with `MissingContext` at the first import that was not answered;
    /// there is one exactly when some waiting import was not answered.
    /// Otherwise returns the errors that the processors reported, in order, or
    /// `None` when there were none.
    pub fn eval(&mut self) -> (r: Result<Option<Vec<E>>, MissingContext>)
        requires
            old(self).wf(),
        ensures
            final(self).wf(),
            final(self).len() == 0,
            r is Err <==> exists|i: int| 0 <= i < old(self).len() && !old(self).has_answer(i),
            r matches Ok(None) ==> old(self).reported(Seq::empty()),
            r matches Ok(Some(errors)) ==> errors@.len() > 0 && old(self).reported(errors@),
    {
        let mut items: Vec<PendingImport<'a, E>> = Vec::new();
        std::mem::swap(&mut items, &mut self.items);
        let ghost old_items = items@;
        let mut errors: Vec<E> = Vec::new();
        let ghost mut origin: Seq<int> = Seq::empty();
        for item in it: items.into_iter()
            invariant
                it.seq() == old_items,
                old_items == old(self).items@,
                forall|i: int| 0 <= i < old_items.len() ==> #[trigger] old_items[i].processor.pending(),
                forall|j: int| 0 <= j < it.index() ==> #[trigger] old_items[j].processor.has_answer(),
                old(self).errors_from(errors@, origin),
                forall|k: int| 0 <= k < origin.len() ==> #[trigger] origin[k] < it.index(),
                forall|i: int|
                    0 <= i < it.index() && !origin.contains(i) ==> #[trigger] old(self).may_succeed(i),
                self.items@.len() == 0,
        {
            let ghost k = it.index();
            let mut processor = item.processor;
            assert(processor == old_items[k].processor);
            match processor.compute() {
                Err(m) => {
                    assert(!old(self).has_answer(k));
                    return Err(m);
                },
                Ok(Err(e)) => {
                    assert(old(self).may_fail_with(k as int, e));
                    errors.push(e);
                    proof {
                        let before = origin;
                        origin = origin.push(k as int);
                        assert forall|i: int| 0 <= i < k + 1 && !origin.contains(i) implies #[trigger] old(
                            self,
                        ).may_succeed(i) by {
                            assert(origin[before.len() as int] == k);
                            assert(i != k);
                            if before.contains(i) {
                                let j = choose|j: int| 0 <= j < before.len() && before[j] == i;
                                assert(origin[j] == i);
                            }
                        }
                    }
                },
                Ok(Ok(())) => {
                    assert(old(self).may_succeed(k as int));
                },
            }
        }
        assert(old(self).errors_from(errors@, origin));
        assert(old(self).reported(errors@));
        assert(errors@.len() == 0 ==> errors@ =~= Seq::<E>::empty());
        if errors.len() == 0 {
            Ok(None)
        } else {
            Ok(Some(errors))
        }
    }

    /// Registers an import of the data exported by the macro at `path`,
    /// to be processed by `f` when the group is evaluated.
    ///
    /// The session is asked for the import at once, exactly as `import` does.
    /// The returned handle will hold only a value that `f` may produce from the
    /// answer.
    pub fn import<T: 'a, F: 'a + FnOnce(SerializedTokenStream) -> Result<T, E>>(
        &mut self,
        session: &mut ImportSession,
        path: SerializedTokenStream,
        f: F,
    ) -> (h: ComputedLazyImport<T>)
        where E: 'a,
        requires
            old(self).wf(),
            old(session).wf(),
            forall|ts: SerializedTokenStream| f.requires((ts,)),
        ensures
            final(session).wf(),
            final(session).requests() == old(session).requests().push(path@),
            final(session).inputs() == old(session).inputs(),
            final(self).wf(),
            final(self).len() == old(self).len() + 1,
            forall|i: int|
                0 <= i < old(self).len() ==> (final(self).has_answer(i) == old(self).has_answer(i)
                    && final(self).may_succeed(i) == old(self).may_succeed(i) && forall|e: E|
                    #[trigger] final(self).may_fail_with(i, e) == old(self).may_fail_with(i, e)),
            final(self).has_answer(old(self).len() as int) == old(session).next_answer() is Some,
            forall|e: E| #[trigger]
                final(self).may_fail_with(old(self).len() as int, e) == failures_of::<T, E, F>(
                    old(session).next_answer(),
                    f,
                )(e),
            final(self).may_succeed(old(self).len() as int) == exists|v: T| #[trigger]
                produced_by::<T, E, F>(old(session).next_answer(), f)(v),
            h.wf(),
            h.accepts() == produced_by::<T, E, F>(old(session).next_answer(), f),
    {
        let answer = import(session, path);
        let ghost accepts = produced_by::<T, E, F>(answer@, f);
        let slot = Rc::new(InvCell::new(None, Ghost(slot_predicate(accepts))));
        let processor = ConcreteLazyProcessor {
            state: Some((answer, f)),
            slot: slot.clone(),
            answer: Ghost(answer@),
            executor: Ghost(f),
            error: Ghost(failures_of::<T, E, F>(answer@, f)),
        };
        let pending = PendingImport::new(processor);
        self.items.push(pending);
        ComputedLazyImport { slot, value: None, accepts: Ghost(accepts) }
    }
}

impl<'a, E> Default for LazyImportGroup<'a, E> {
    fn default() -> (g: Self)
        ensures
            g.wf(),
            g.len() == 0,
    {
        Self::new()
    }
}

impl<T> ComputedLazyImport<T> {
    /// The values this import may hold: those its processor may produce.
    pub closed spec fn accepts(&self) -> spec_fn(T) -> bool {
        self.accepts@
    }

    /// The slot and the cached value hold only accepted values.
    pub closed spec fn wf(&self) -> bool {
        &&& self.slot.predicate() == slot_predicate(self.accepts@)
        &&& self.value matches Some(v) ==> (self.accepts@)(v)
    }

    /// The value taken from the group's slot, if it was taken.
    pub closed spec fn held(&self) -> Option<T> {
        self.value
    }

    /// Whether the value has been taken from the group's slot.
    pub open spec fn is_init(&self) -> bool {
        self.held() is Some
    }

    /// Takes the value out of the slot the group's evaluation filled.
    fn steal(&self) -> (r: Option<T>)
        requires
            self.wf(),
        ensures
            r matches Some(v) ==> (self.accepts@)(v),
    {
        self.slot.replace(None)
    }

    /// Fetches the value from the evaluated group, once; reports whether a
    /// value is now held.
    pub fn init(&mut self) -> (r: bool)
        requires
            old(self).wf(),
        ensures
            final(self).wf(),
            final(self).accepts() == old(self).accepts(),
            r == final(self).is_init(),
            old(self).is_init() ==> final(self).held() == old(self).held(),
    {
        if self.value.is_none() {
            self.value = self.steal();
        }
        self.value.is_some()
    }

    /// The value, once fetched.
    pub fn get(&self) -> (r: Option<&T>)
        requires
            self.wf(),
        ensures
            r is Some <==> self.is_init(),
            r matches Some(v) ==> Some(*v) == self.held() && self.accepts()(*v),
    {
        match &self.value {
            Some(v) => Some(v),
            None => None,
        }
    }

    /// The value, fetched from the evaluated group if it was not yet.
    pub fn into_inner(self) -> (r: Result<T, NotComputed>)
        requires
            self.wf(),
        ensures
            r matches Ok(v) ==> self.accepts()(v),
            self.held() matches Some(v) ==> r == Ok::<T, NotComputed>(v),
    {
        let mut me = self;
        me.init();
        match me.value {
            Some(v) => Ok(v),
            None => Err(NotComputed),
        }
    }
}

} // verus!
