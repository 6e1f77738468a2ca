//! The one-shot future behind the ask pattern.
//!
//! A future is completed at most once with a value, then transformation
//! steps run on that value; each step decides whether the future keeps
//! computing, terminates, or hands its value out. Steps that arrive before
//! the value are queued and run, in order, on completion.
use vstd::prelude::*;
use std::collections::VecDeque;
use std::sync::Arc;
use crate::actor_ref::ActorPath;
use crate::cell::{Actor, ActorFailure};

verus! {

/// The state of a future.
pub enum FutureState<V> {
    /// No value yet.
    Uncompleted,
    /// A value is held, awaiting further steps.
    Computing(V),
    /// The chain of steps ended without an extractable result.
    Terminated,
    /// The value has been permanently removed.
    Extracted,
}

/// What a transformation step decides once it has run on the value.
pub enum StepOutcome<V> {
    /// Keep computing with this new value.
    Continue(V),
    /// End the chain; the value is dropped.
    Terminate,
    /// Hand this value out of the future and disable it.
    Extract(V),
}

/// A transformation step on the value of a future.
pub trait FutureStep<V>: Sized {
    /// What the step decides for a value.
    spec fn outcome(&self, v: V) -> StepOutcome<V>;

    /// Runs the step on a value.
    fn run(&self, v: V) -> (r: StepOutcome<V>)
        ensures
            r == self.outcome(v),
    ;
}

/// The step that hands the value, unchanged, to a destination.
pub struct Forward<D> {
    pub destination: D,
}

impl<V, D> FutureStep<V> for Forward<D> {
    open spec fn outcome(&self, v: V) -> StepOutcome<V> {
        StepOutcome::Extract(v)
    }

    fn run(&self, v: V) -> (r: StepOutcome<V>) {
        StepOutcome::Extract(v)
    }
}

/// The step that ends the chain once the computations are done.
pub struct Discard;

impl<V> FutureStep<V> for Discard {
    open spec fn outcome(&self, v: V) -> StepOutcome<V> {
        StepOutcome::Terminate
    }

    fn run(&self, v: V) -> (r: StepOutcome<V>) {
        StepOutcome::Terminate
    }
}

/// The messages a future understands.
pub enum FutureMessages<V, S> {
    /// Completes the future with the value.
    Complete(V),
    /// Applies the step to the value, now or once there is one.
    Calculation(S),
}

/// Why a future refused a message.
#[derive(Debug, PartialEq, Eq, Clone, Copy, Structural)]
pub enum FutureError {
    /// The future was completed already.
    CompletedTwice,
    /// A step was sent to a future whose chain has terminated.
    AppliedAfterTermination,
    /// A step, or an extraction, was asked of a future whose value is gone.
    AppliedAfterExtraction,
}

/// A value that a step handed out, with the step that did it (which
/// knows where the value goes).
pub type Handoff<V, S> = Option<(S, V)>;

/// The state and hand-off after one step ran on a value.
pub open spec fn after_step<V, S: FutureStep<V>>(step: S, v: V) -> (FutureState<V>, Handoff<V, S>) {
    match step.outcome(v) {
        StepOutcome::Continue(w) => (FutureState::Computing(w), None),
        StepOutcome::Terminate => (FutureState::Terminated, None),
        StepOutcome::Extract(w) => (FutureState::Extracted, Some((step, w))),
    }
}

/// The state and hand-off after the queued steps ran in order on a value;
/// the run stops at the first step that ends the chain, and the steps after
/// it are dropped.
pub open spec fn run_queue<V, S: FutureStep<V>>(v: V, steps: Seq<S>) -> (FutureState<V>, Handoff<V, S>)
    decreases steps.len(),
{
    if steps.len() == 0 {
        (FutureState::Computing(v), None)
    } else {
        match steps[0].outcome(v) {
            StepOutcome::Continue(w) => run_queue(w, steps.drop_first()),
            _ => after_step(steps[0], v),
        }
    }
}

/// A one-shot future.
pub struct Future<V, S> {
    state: FutureState<V>,
    scheduled: VecDeque<S>,
}

impl<V, S: FutureStep<V>> Future<V, S> {
    /// The current state.
    pub closed spec fn state(&self) -> FutureState<V> {
        self.state
    }

    /// The steps waiting for a value, oldest first.
    pub closed spec fn pending(&self) -> Seq<S> {
        self.scheduled@
    }

    /// Steps wait only while there is no value.
    pub open spec fn wf(&self) -> bool {
        !(self.state() is Uncompleted) ==> self.pending().len() == 0
    }

    /// How a completion with `value`, answered by `r`, takes the future
    /// from `self` to `after`.
    pub open spec fn completion(&self, after: Self, value: V, r: Result<Handoff<V, S>, FutureError>) -> bool {
        if self.state() is Uncompleted {
            &&& r is Ok
            &&& after.pending().len() == 0
            &&& (after.state(), r->Ok_0) == run_queue(value, self.pending())
        } else {
            &&& r == Err::<Handoff<V, S>, FutureError>(FutureError::CompletedTwice)
            &&& after.state() == self.state()
            &&& after.pending() == self.pending()
        }
    }

    /// How applying `step`, answered by `r`, takes the future from `self`
    /// to `after`.
    pub open spec fn application(&self, after: Self, step: S, r: Result<Handoff<V, S>, FutureError>) -> bool {
        match self.state() {
            FutureState::Uncompleted => {
                &&& r == Ok::<Handoff<V, S>, FutureError>(None)
                &&& after.state() is Uncompleted
                &&& after.pending() == self.pending().push(step)
            },
            FutureState::Computing(v) => {
                &&& r is Ok
                &&& after.pending().len() == 0
                &&& (after.state(), r->Ok_0) == after_step(step, v)
            },
            FutureState::Terminated => {
                &&& r == Err::<Handoff<V, S>, FutureError>(FutureError::AppliedAfterTermination)
                &&& after.state() == self.state()
                &&& after.pending() == self.pending()
            },
            FutureState::Extracted => {
                &&& r == Err::<Handoff<V, S>, FutureError>(FutureError::AppliedAfterExtraction)
                &&& after.state() == self.state()
                &&& after.pending() == self.pending()
            },
        }
    }

    /// Creates an uncompleted future with no pending step.
    pub fn new(_dummy: ()) -> (r: Self)
        ensures
            r.wf(),
            r.state() is Uncompleted,
            r.pending() == Seq::<S>::empty(),
    {
        Future { state: FutureState::Uncompleted, scheduled: VecDeque::new() }
    }

    /// Whether the future is done: terminated or extracted.
    pub fn is_finished(&self) -> (r: bool)
        ensures
            r == (self.state() is Terminated || self.state() is Extracted),
    {
        match self.state {
            FutureState::Terminated => true,
            FutureState::Extracted => true,
            _ => false,
        }
    }

    /// Takes the state out, leaving `Terminated` in its place.
    fn take_state(&mut self) -> (r: FutureState<V>)
        ensures
            r == old(self).state(),
            final(self).state() is Terminated,
            final(self).pending() == old(self).pending(),
    {
        let mut s = FutureState::Terminated;
        std::mem::swap(&mut s, &mut self.state);
        s
    }

    /// Completes the future with a value. Only an uncompleted future takes
    /// one: it then runs its queued steps in order on the value. Any other
    /// future refuses, and keeps its state.
    pub fn complete(&mut self, value: V) -> (r: Result<Handoff<V, S>, FutureError>)
        requires
            old(self).wf(),
        ensures
            final(self).wf(),
            old(self).completion(*final(self), value, r),
    {
        match self.state {
            FutureState::Uncompleted => {},
            _ => {
                return Err(FutureError::CompletedTwice);
            },
        }
        let ghost goal = run_queue(value, self.scheduled@);
        let mut cur = value;
        loop
            invariant
                run_queue(cur, self.scheduled@) == goal,
                goal == run_queue(value, old(self).pending()),
                old(self).state() is Uncompleted,
                self.state is Uncompleted,
            decreases self.scheduled@.len(),
        {
            match self.scheduled.pop_front() {
                None => {
                    self.state = FutureState::Computing(cur);
                    return Ok(None);
                },
                Some(step) => {
                    match step.run(cur) {
                        StepOutcome::Continue(w) => {
                            cur = w;
                        },
                        StepOutcome::Terminate => {
                            self.scheduled.clear();
                            self.state = FutureState::Terminated;
                            return Ok(None);
                        },
                        StepOutcome::Extract(w) => {
                            self.scheduled.clear();
                            self.state = FutureState::Extracted;
                            return Ok(Some((step, w)));
                        },
                    }
                },
            }
        }
    }
    /// Applies a step. Without a value yet, the step is queued; with one,
    /// it runs now and decides the next state. A terminated or extracted
    /// future refuses, and keeps its state.
    pub fn apply(&mut self, step: S) -> (r: Result<Handoff<V, S>, FutureError>)
        requires
            old(self).wf(),
        ensures
            final(self).wf(),
            old(self).application(*final(self), step, r),
    {
        match self.take_state() {
            FutureState::Computing(v) => match step.run(v) {
                StepOutcome::Continue(w) => {
                    self.state = FutureState::Computing(w);
                    Ok(None)
                },
                StepOutcome::Terminate => Ok(None),
                StepOutcome::Extract(w) => {
                    self.state = FutureState::Extracted;
                    Ok(Some((step, w)))
                },
            },
            FutureState::Uncompleted => {
                self.state = FutureState::Uncompleted;
                self.scheduled.push_back(step);
                Ok(None)
            },
            FutureState::Terminated => Err(FutureError::AppliedAfterTermination),
            FutureState::Extracted => {
                self.state = FutureState::Extracted;
                Err(FutureError::AppliedAfterExtraction)
            },
        }
    }

    /// Drains the future: returns its value if it holds one (nothing if it
    /// has none yet) and disables it for good. The pending steps are
    /// dropped. A terminated or extracted future refuses, and keeps its
    /// state.
    pub fn extract(&mut self) -> (r: Result<Option<V>, FutureError>)
        requires
            old(self).wf(),
        ensures
            final(self).wf(),
            match old(self).state() {
                FutureState::Uncompleted => {
                    &&& r == Ok::<Option<V>, FutureError>(None)
                    &&& final(self).state() is Extracted
                    &&& final(self).pending().len() == 0
                },
                FutureState::Computing(v) => {
                    &&& r == Ok::<Option<V>, FutureError>(Some(v))
                    &&& final(self).state() is Extracted
                    &&& final(self).pending().len() == 0
                },
                FutureState::Terminated => {
                    &&& r == Err::<Option<V>, FutureError>(FutureError::AppliedAfterTermination)
                    &&& final(self).state() == old(self).state()
                    &&& final(self).pending() == old(self).pending()
                },
                FutureState::Extracted => {
                    &&& r == Err::<Option<V>, FutureError>(FutureError::AppliedAfterExtraction)
                    &&& final(self).state() == old(self).state()
                    &&& final(self).pending() == old(self).pending()
                },
            },
    {
        match self.take_state() {
            FutureState::Computing(v) => {
                self.state = FutureState::Extracted;
                Ok(Some(v))
            },
            FutureState::Uncompleted => {
                self.state = FutureState::Extracted;
                self.scheduled.clear();
                Ok(None)
            },
            FutureState::Terminated => Err(FutureError::AppliedAfterTermination),
            FutureState::Extracted => {
                self.state = FutureState::Extracted;
                Err(FutureError::AppliedAfterExtraction)
            },
        }
    }

    /// Handles one message: a completion or a step.
    pub fn receive(&mut self, message: FutureMessages<V, S>) -> (r: Result<Handoff<V, S>, FutureError>)
        requires
            old(self).wf(),
        ensures
            final(self).wf(),
            match message {
                FutureMessages::Complete(value) => old(self).completion(*final(self), value, r),
                FutureMessages::Calculation(step) => old(self).application(*final(self), step, r),
            },
    {
        match message {
            FutureMessages::Complete(value) => self.complete(value),
            FutureMessages::Calculation(step) => self.apply(step),
        }
    }

}

/// A run of queued steps never leaves a future without a value.
proof fn lemma_run_queue_settles<V, S: FutureStep<V>>(v: V, steps: Seq<S>)
    ensures
        !(run_queue(v, steps).0 is Uncompleted),
    decreases steps.len(),
{
    if steps.len() > 0 {
        if let StepOutcome::Continue(w) = steps[0].outcome(v) {
            lemma_run_queue_settles(w, steps.drop_first());
        }
    }
}

/// A future is completed at most once: the first completion of an
/// uncompleted future succeeds, and every completion after it is refused
/// and leaves the state and the pending steps as they were.
pub proof fn lemma_complete_at_most_once<V, S: FutureStep<V>>(
    f0: Future<V, S>,
    f1: Future<V, S>,
    f2: Future<V, S>,
    v1: V,
    v2: V,
    r1: Result<Handoff<V, S>, FutureError>,
    r2: Result<Handoff<V, S>, FutureError>,
)
    requires
        f0.completion(f1, v1, r1),
        f1.completion(f2, v2, r2),
    ensures
        f0.state() is Uncompleted ==> r1 is Ok,
        r2 == Err::<Handoff<V, S>, FutureError>(FutureError::CompletedTwice),
        f2.state() == f1.state(),
        f2.pending() == f1.pending(),
{
    if f0.state() is Uncompleted {
        lemma_run_queue_settles(v1, f0.pending());
    }
}

/// The bridge that takes a future's result out of the actor world: it
/// subscribes to the future, and hands the first value it receives to the
/// caller waiting on it, after which it is done.
pub struct FutureExtractor<T> {
    pub future: Arc<ActorPath>,
    pub delivered: bool,
    pub marker: std::marker::PhantomData<T>,
}

impl<T> FutureExtractor<T> {
    /// An extractor for the future at the given path.
    pub fn new(future: Arc<ActorPath>) -> (r: Self)
        ensures
            r == Self::initial(future),
            r.future == future,
            !r.delivered,
    {
        FutureExtractor { future, delivered: false, marker: std::marker::PhantomData }
    }

    /// The path of the future, and the subscription to send it: a step that
    /// forwards the future's value to this extractor, at `me`.
    pub fn pre_start(&self, me: Arc<ActorPath>) -> (r: (Arc<ActorPath>, FutureMessages<T, Forward<Arc<ActorPath>>>))
        ensures
            r.0 == self.future,
            r.1 == FutureMessages::<T, Forward<Arc<ActorPath>>>::Calculation(Forward { destination: me }),
    {
        (self.future.clone(), FutureMessages::Calculation(Forward { destination: me }))
    }
}

impl<T> Actor for FutureExtractor<T> {
    type Args = Arc<ActorPath>;
    type Message = T;
    /// The value to hand to the waiting caller, if any.
    type Output = Option<T>;

    open spec fn initial(args: Arc<ActorPath>) -> Self {
        FutureExtractor { future: args, delivered: false, marker: std::marker::PhantomData }
    }

    /// The first value received is handed on; the extractor is then done
    /// and hands on nothing more.
    open spec fn reaction(&self, message: T) -> Option<(Self, Option<T>)> {
        if self.delivered {
            Some((*self, None))
        } else {
            Some((FutureExtractor { delivered: true, ..*self }, Some(message)))
        }
    }

    open spec fn restart_output(&self) -> Option<T> {
        None
    }

    fn build(args: &Arc<ActorPath>) -> (r: Self) {
        FutureExtractor::new(args.clone())
    }

    fn receive(&mut self, message: T) -> (r: Result<Option<T>, ActorFailure>) {
        if self.delivered {
            Ok(None)
        } else {
            self.delivered = true;
            Ok(Some(message))
        }
    }

    fn post_restart(&self) -> (r: Option<T>) {
        None
    }
}

/// The ask round trip: a fresh future to which an extractor has
/// subscribed, once completed with a value, hands that very value to the
/// extractor and is then extracted; the extractor hands the value on to the
/// caller, once.
pub proof fn lemma_ask_round_trip<T>(
    f0: Future<T, Forward<Arc<ActorPath>>>,
    f1: Future<T, Forward<Arc<ActorPath>>>,
    f2: Future<T, Forward<Arc<ActorPath>>>,
    me: Arc<ActorPath>,
    future_path: Arc<ActorPath>,
    value: T,
    r1: Result<Handoff<T, Forward<Arc<ActorPath>>>, FutureError>,
    r2: Result<Handoff<T, Forward<Arc<ActorPath>>>, FutureError>,
)
    requires
        f0.state() is Uncompleted,
        f0.pending().len() == 0,
        f0.application(f1, Forward { destination: me }, r1),
        f1.completion(f2, value, r2),
    ensures
        r1 == Ok::<Handoff<T, Forward<Arc<ActorPath>>>, FutureError>(None),
        r2 == Ok::<Handoff<T, Forward<Arc<ActorPath>>>, FutureError>(Some((Forward { destination: me }, value))),
        f2.state() is Extracted,
        ({
            let x = FutureExtractor::<T>::initial(future_path);
            &&& x.reaction(value) matches Some((x1, out))
            &&& out == Some(value)
            &&& forall|w: T| #[trigger] x1.reaction(w) == Some((x1, None::<T>))
        }),
{
    assert(f1.pending() =~= seq![Forward { destination: me }]);
    assert(f1.pending().drop_first() =~= Seq::<Forward<Arc<ActorPath>>>::empty());
}

} // verus!
