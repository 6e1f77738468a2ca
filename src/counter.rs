//! A counter actor that checks that the values it is told arrive in
//! strictly increasing order.
use vstd::prelude::*;
use crate::cell::{Actor, ActorCell, ActorFailure, Envelope, Handled};

verus! {

/// The value at which the counter reports that it is done.
pub const TARGET: u32 = 1000;

/// A signal the counter sends to its observer.
#[derive(Debug, PartialEq, Eq, Clone, Copy, Structural)]
pub enum Res {
    /// The target value was reached.
    Reached,
    /// A value arrived out of order, or twice.
    OutOfOrder,
}

/// The messages of the counter protocol.
#[derive(Debug, PartialEq, Eq, Clone, Copy, Structural)]
pub enum InternalStateMessage {
    /// A new value, to be larger than every earlier one.
    Store(u32),
    /// Asks for the last value kept.
    Get,
    /// Makes the actor fail.
    Panic,
}

/// What the counter hands back for one message.
#[derive(Debug, PartialEq, Eq, Clone, Copy, Structural)]
pub struct Report {
    /// The answer to a `Get`, for the sender.
    pub answer: Option<u32>,
    /// Whether an `OutOfOrder` signal goes to the observer.
    pub out_of_order: bool,
    /// Whether a `Reached` signal goes to the observer (after the `OutOfOrder`, if
    /// both are sent).
    pub reached_target: bool,
}

/// The counter's private state: the last value kept.
#[derive(Debug, PartialEq, Eq, Clone, Copy, Structural)]
pub struct InternalState {
    pub last: u32,
}

/// The report with nothing in it.
pub open spec fn quiet() -> Report {
    Report { answer: None, out_of_order: false, reached_target: false }
}

impl InternalState {
    /// A fresh counter, at zero.
    pub fn new(_dummy: ()) -> (r: InternalState)
        ensures
            r.last == 0,
    {
        InternalState { last: 0 }
    }
}

impl Actor for InternalState {
    type Args = ();
    type Message = InternalStateMessage;
    type Output = Report;

    open spec fn initial(args: ()) -> InternalState {
        InternalState { last: 0 }
    }

    /// A `Get` is answered with the last value. A `Store` larger than the
    /// last value replaces it; one that is not is reported out of order and
    /// dropped. Either way the target is reported when the last value is
    /// the target. A `Panic` fails.
    open spec fn reaction(&self, message: InternalStateMessage) -> Option<(InternalState, Report)> {
        match message {
            InternalStateMessage::Get => Some((*self, Report { answer: Some(self.last), ..quiet() })),
            InternalStateMessage::Store(v) => {
                let last = if v <= self.last { self.last } else { v };
                Some((
                    InternalState { last },
                    Report { answer: None, out_of_order: v <= self.last, reached_target: last == TARGET },
                ))
            },
            InternalStateMessage::Panic => None,
        }
    }

    open spec fn restart_output(&self) -> Report {
        quiet()
    }

    fn build(args: &()) -> (r: InternalState) {
        InternalState::new(())
    }

    fn receive(&mut self, message: InternalStateMessage) -> (r: Result<Report, ActorFailure>) {
        match message {
            InternalStateMessage::Get => Ok(Report { answer: Some(self.last), out_of_order: false, reached_target: false }),
            InternalStateMessage::Store(v) => {
                let out_of_order = v <= self.last;
                if !out_of_order {
                    self.last = v;
                }
                Ok(Report { answer: None, out_of_order, reached_target: self.last == TARGET })
            },
            InternalStateMessage::Panic => Err(ActorFailure),
        }
    }

    fn post_restart(&self) -> (r: Report) {
        Report { answer: None, out_of_order: false, reached_target: false }
    }
}

/// The state and the reports after storing the values in order.
pub open spec fn store_all(s: InternalState, values: Seq<u32>) -> (InternalState, Seq<Report>)
    decreases values.len(),
{
    if values.len() == 0 {
        (s, Seq::empty())
    } else {
        let (next, report) = s.reaction(InternalStateMessage::Store(values[0]))->Some_0;
        let (end, reports) = store_all(next, values.drop_first());
        (end, seq![report] + reports)
    }
}

/// Values told in strictly increasing order, each above the last value
/// kept, are all kept: none is reported out of order, the counter ends at
/// the last of them, and the target is reported exactly for the value
/// equal to it.
pub proof fn lemma_increasing_values_accepted(s: InternalState, values: Seq<u32>)
    requires
        forall|i: int, j: int| 0 <= i < j < values.len() ==> values[i] < values[j],
        values.len() > 0 ==> s.last < values[0],
    ensures
        store_all(s, values).1.len() == values.len(),
        forall|i: int| 0 <= i < values.len() ==> !(#[trigger] store_all(s, values).1[i]).out_of_order,
        forall|i: int| 0 <= i < values.len() ==> (#[trigger] store_all(s, values).1[i]).reached_target == (values[i] == TARGET),
        values.len() > 0 ==> store_all(s, values).0.last == values.last(),
        values.len() == 0 ==> store_all(s, values).0 == s,
    decreases values.len(),
{
    if values.len() > 0 {
        let next = InternalState { last: values[0] };
        let rest = values.drop_first();
        lemma_increasing_values_accepted(next, rest);
        let reports = store_all(s, values).1;
        assert(reports == seq![s.reaction(InternalStateMessage::Store(values[0]))->Some_0.1] + store_all(next, rest).1);
        assert forall|i: int| 0 <= i < values.len() implies !(#[trigger] reports[i]).out_of_order
            && reports[i].reached_target == (values[i] == TARGET) by {
            if i > 0 {
                assert(reports[i] == store_all(next, rest).1[i - 1]);
                assert(rest[i - 1] == values[i]);
            }
        }
        if rest.len() > 0 {
            assert(rest.last() == values.last());
        }
    }
}

/// A failure resets the counter: after a value is stored, a `Panic`, then
/// a `Get`, the `Get` is answered with zero, not the stored value, and the
/// cell keeps its recipe and carries on with an empty mailbox.
pub proof fn lemma_panic_resets_counter<R>(
    c0: ActorCell<InternalState, R>,
    c1: ActorCell<InternalState, R>,
    c2: ActorCell<InternalState, R>,
    c3: ActorCell<InternalState, R>,
    value: u32,
    senders: Seq<R>,
    r1: Handled<Report, R>,
    r2: Handled<Report, R>,
    r3: Handled<Report, R>,
)
    requires
        senders.len() == 3,
        c0.inbox().system_queue().len() == 0,
        c0.inbox().user_queue() == seq![
            Envelope { message: InternalStateMessage::Store(value), sender: senders[0] },
            Envelope { message: InternalStateMessage::Panic, sender: senders[1] },
            Envelope { message: InternalStateMessage::Get, sender: senders[2] },
        ],
        c0.handled(c1, r1),
        c1.handled(c2, r2),
        c2.handled(c3, r3),
    ensures
        r2 == Handled::<Report, R>::Recovered(quiet()),
        r3 == Handled::<Report, R>::Answered(Report { answer: Some(0), ..quiet() }, senders[2]),
        c3.recipe() == c0.recipe(),
        c3.actor() == InternalState::initial(()),
        c3.inbox().system_queue().len() == 0,
        c3.inbox().user_queue().len() == 0,
{
    let q = c0.inbox().user_queue();
    assert(q.drop_first() =~= seq![q[1], q[2]]);
    assert(q.drop_first().drop_first() =~= seq![q[2]]);
    assert(q.drop_first().drop_first().drop_first() =~= Seq::<Envelope<InternalStateMessage, R>>::empty());
}

} // verus!
