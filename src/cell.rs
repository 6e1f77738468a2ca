//! Mailboxes and supervised actor cells.
//!
//! A cell owns an actor's private state and its mailbox and delivers one
//! item at a time, control messages before user messages. When the actor
//! fails on a user message, the message is dropped, the state is rebuilt
//! from the actor's construction recipe, the restart hook runs, and the
//! mailbox carries on as it was.
use vstd::prelude::*;
use std::collections::VecDeque;
use std::sync::Arc;
use crate::actor_ref::ActorPath;

verus! {

/// A lifecycle control message.
pub enum SystemMessage {
    /// Start the actor.
    Start,
    /// Restart the actor with fresh state.
    Restart,
    /// A child actor, at this path, failed.
    Failure(Arc<ActorPath>),
}

/// A user message with the path of whoever sent it.
pub struct Envelope<M, R> {
    pub message: M,
    pub sender: R,
}

/// The next item a mailbox delivers.
pub enum Delivery<M, R> {
    System(SystemMessage),
    User(Envelope<M, R>),
}

/// A mailbox: a queue of control messages, served first, and a queue of
/// user messages, each in arrival order.
pub struct Mailbox<M, R> {
    system: VecDeque<SystemMessage>,
    user: VecDeque<Envelope<M, R>>,
}

impl<M, R> Mailbox<M, R> {
    /// The control messages waiting, oldest first.
    pub closed spec fn system_queue(&self) -> Seq<SystemMessage> {
        self.system@
    }

    /// The user messages waiting, oldest first.
    pub closed spec fn user_queue(&self) -> Seq<Envelope<M, R>> {
        self.user@
    }

    /// Creates an empty mailbox.
    pub fn new() -> (r: Self)
        ensures
            r.system_queue() == Seq::<SystemMessage>::empty(),
            r.user_queue() == Seq::<Envelope<M, R>>::empty(),
    {
        Mailbox { system: VecDeque::new(), user: VecDeque::new() }
    }

    /// Queues a control message.
    pub fn push_system(&mut self, message: SystemMessage)
        ensures
            final(self).system_queue() == old(self).system_queue().push(message),
            final(self).user_queue() == old(self).user_queue(),
    {
        self.system.push_back(message);
    }

    /// Queues a user message.
    pub fn push_user(&mut self, envelope: Envelope<M, R>)
        ensures
            final(self).system_queue() == old(self).system_queue(),
            final(self).user_queue() == old(self).user_queue().push(envelope),
    {
        self.user.push_back(envelope);
    }

    /// Whether nothing is waiting.
    pub fn is_empty(&self) -> (r: bool)
        ensures
            r == (self.system_queue().len() == 0 && self.user_queue().len() == 0),
    {
        self.system.len() == 0 && self.user.len() == 0
    }

    /// Takes the next item: the oldest control message if there is one,
    /// else the oldest user message.
    pub fn next(&mut self) -> (r: Option<Delivery<M, R>>)
        ensures
            old(self).next_taken(*final(self), r),
    {
        match self.system.pop_front() {
            Some(m) => Some(Delivery::System(m)),
            None => match self.user.pop_front() {
                Some(e) => Some(Delivery::User(e)),
                None => None,
            },
        }
    }

    /// How taking the next item, `r`, takes the mailbox from `self` to
    /// `after`.
    pub open spec fn next_taken(&self, after: Self, r: Option<Delivery<M, R>>) -> bool {
        if self.system_queue().len() > 0 {
            &&& r == Some(Delivery::<M, R>::System(self.system_queue()[0]))
            &&& after.system_queue() == self.system_queue().drop_first()
            &&& after.user_queue() == self.user_queue()
        } else if self.user_queue().len() > 0 {
            &&& r == Some(Delivery::<M, R>::User(self.user_queue()[0]))
            &&& after.system_queue() == self.system_queue()
            &&& after.user_queue() == self.user_queue().drop_first()
        } else {
            &&& r is None
            &&& after.system_queue() == self.system_queue()
            &&& after.user_queue() == self.user_queue()
        }
    }
}

/// An actor's failure on a user message.
#[derive(Debug, PartialEq, Eq, Clone, Copy, Structural)]
pub struct ActorFailure;

/// The behaviour of an actor: how it is built from its recipe, how it
/// reacts to a user message, and what it does after a restart.
pub trait Actor: Sized {
    /// The construction argument, kept so the actor can be rebuilt.
    type Args;
    /// The user messages it understands.
    type Message;
    /// What it hands back to the runtime after a message or a restart.
    type Output;

    /// The state built from a recipe.
    spec fn initial(args: Self::Args) -> Self;

    /// The next state and output for a message, or `None` when the actor
    /// fails on it.
    spec fn reaction(&self, message: Self::Message) -> Option<(Self, Self::Output)>;

    /// What the restart hook hands back.
    spec fn restart_output(&self) -> Self::Output;

    /// Builds the actor from its recipe.
    fn build(args: &Self::Args) -> (r: Self)
        ensures
            r == Self::initial(*args),
    ;

    /// Reacts to one user message.
    fn receive(&mut self, message: Self::Message) -> (r: Result<Self::Output, ActorFailure>)
        ensures
            match old(self).reaction(message) {
                Some((next, out)) => *final(self) == next && r == Ok::<Self::Output, ActorFailure>(out),
                None => r is Err,
            },
    ;

    /// Runs after a supervised restart, on the fresh state.
    fn post_restart(&self) -> (r: Self::Output)
        ensures
            r == self.restart_output(),
    ;
}

/// What handling one mailbox item did.
pub enum Handled<O, R> {
    /// The mailbox was empty.
    Idle,
    /// A start message was taken.
    Started,
    /// A restart was asked for: the state was rebuilt and the hook ran.
    Restarted(O),
    /// A child's failure was reported; the actor's state is untouched.
    ChildFailed(Arc<ActorPath>),
    /// A user message was handled; the output goes back towards its sender.
    Answered(O, R),
    /// The actor failed on a user message: the message was dropped, the
    /// state rebuilt and the hook ran.
    Recovered(O),
}

/// The container of one actor: its recipe, its private state and its
/// mailbox.
pub struct ActorCell<A: Actor, R> {
    args: A::Args,
    state: A,
    mailbox: Mailbox<A::Message, R>,
}

impl<A: Actor, R> ActorCell<A, R> {
    /// The construction recipe.
    pub closed spec fn recipe(&self) -> A::Args {
        self.args
    }

    /// The actor's private state.
    pub closed spec fn actor(&self) -> A {
        self.state
    }

    /// The mailbox.
    pub closed spec fn inbox(&self) -> Mailbox<A::Message, R> {
        self.mailbox
    }

    /// Builds the actor from its recipe, with an empty mailbox.
    pub fn new(args: A::Args) -> (r: Self)
        ensures
            r.recipe() == args,
            r.actor() == A::initial(args),
            r.inbox().system_queue().len() == 0,
            r.inbox().user_queue().len() == 0,
    {
        let state = A::build(&args);
        ActorCell { args, state, mailbox: Mailbox::new() }
    }

    /// Queues a control message.
    pub fn receive_system_message(&mut self, message: SystemMessage)
        ensures
            final(self).recipe() == old(self).recipe(),
            final(self).actor() == old(self).actor(),
            final(self).inbox().system_queue() == old(self).inbox().system_queue().push(message),
            final(self).inbox().user_queue() == old(self).inbox().user_queue(),
    {
        self.mailbox.push_system(message);
    }

    /// Queues a user message with its sender.
    pub fn receive_message(&mut self, message: A::Message, sender: R)
        ensures
            final(self).recipe() == old(self).recipe(),
            final(self).actor() == old(self).actor(),
            final(self).inbox().system_queue() == old(self).inbox().system_queue(),
            final(self).inbox().user_queue() == old(self).inbox().user_queue().push(
                Envelope { message, sender },
            ),
    {
        self.mailbox.push_user(Envelope { message, sender });
    }

    /// How handling one item, answered by `r`, takes the cell from `self`
    /// to `after`. The recipe never changes; the mailbox loses exactly the
    /// item taken.
    pub open spec fn handled(&self, after: Self, r: Handled<A::Output, R>) -> bool {
        &&& after.recipe() == self.recipe()
        &&& exists|d: Option<Delivery<A::Message, R>>| {
            &&& #[trigger] self.inbox().next_taken(after.inbox(), d)
            &&& match d {
                None => r is Idle && after.actor() == self.actor(),
                Some(Delivery::System(SystemMessage::Start)) => r is Started && after.actor() == self.actor(),
                Some(Delivery::System(SystemMessage::Failure(child))) => {
                    r == Handled::<A::Output, R>::ChildFailed(child) && after.actor() == self.actor()
                },
                Some(Delivery::System(SystemMessage::Restart)) => {
                    &&& after.actor() == A::initial(self.recipe())
                    &&& r == Handled::<A::Output, R>::Restarted(after.actor().restart_output())
                },
                Some(Delivery::User(e)) => match self.actor().reaction(e.message) {
                    Some((next, out)) => {
                        &&& after.actor() == next
                        &&& r == Handled::<A::Output, R>::Answered(out, e.sender)
                    },
                    None => {
                        &&& after.actor() == A::initial(self.recipe())
                        &&& r == Handled::<A::Output, R>::Recovered(after.actor().restart_output())
                    },
                },
            }
        }
    }

    /// Handles the next mailbox item, control messages first. A failure on
    /// a user message is contained here: the message is dropped, the state
    /// is rebuilt from the recipe and the restart hook runs.
    pub fn handle_envelope(&mut self) -> (r: Handled<A::Output, R>)
        ensures
            old(self).handled(*final(self), r),
    {
        let d = self.mailbox.next();
        let r = match d {
            None => Handled::Idle,
            Some(Delivery::System(SystemMessage::Start)) => Handled::Started,
            Some(Delivery::System(SystemMessage::Failure(child))) => Handled::ChildFailed(child),
            Some(Delivery::System(SystemMessage::Restart)) => {
                self.state = A::build(&self.args);
                Handled::Restarted(self.state.post_restart())
            },
            Some(Delivery::User(e)) => match self.state.receive(e.message) {
                Ok(out) => Handled::Answered(out, e.sender),
                Err(_) => {
                    self.state = A::build(&self.args);
                    Handled::Recovered(self.state.post_restart())
                },
            },
        };
        proof {
            assert(old(self).inbox().next_taken(self.inbox(), d));
        }
        r
    }
}

/// User messages leave a mailbox in the order they arrived: draining a
/// mailbox with no control message waiting, one item per step, delivers
/// its user messages oldest first.
pub proof fn lemma_fifo<M, R>(boxes: Seq<Mailbox<M, R>>, taken: Seq<Option<Delivery<M, R>>>)
    requires
        boxes.len() == taken.len() + 1,
        boxes[0].system_queue().len() == 0,
        taken.len() <= boxes[0].user_queue().len(),
        forall|i: int| 0 <= i < taken.len() ==> #[trigger] boxes[i].next_taken(boxes[i + 1], taken[i]),
    ensures
        forall|i: int| 0 <= i < taken.len() ==> taken[i] == Some(Delivery::<M, R>::User(#[trigger] boxes[0].user_queue()[i])),
        boxes.last().user_queue() == boxes[0].user_queue().subrange(taken.len() as int, boxes[0].user_queue().len() as int),
    decreases taken.len(),
{
    let q = boxes[0].user_queue();
    if taken.len() > 0 {
        let k = (taken.len() - 1) as int;
        lemma_fifo(boxes.subrange(0, k + 1), taken.subrange(0, k));
        assert(boxes.subrange(0, k + 1).last() == boxes[k]);
        assert(boxes[k].next_taken(boxes[k + 1], taken[k]));
        assert forall|j: int| 0 <= j <= k implies boxes[j].system_queue().len() == 0 by {
            lemma_system_stays_empty(boxes, taken, j);
        }
        assert(boxes[k + 1].user_queue() =~= q.subrange(k + 1, q.len() as int));
        assert forall|i: int| 0 <= i < taken.len() implies taken[i] == Some(Delivery::<M, R>::User(#[trigger] q[i])) by {
            if i < k {
                assert(taken.subrange(0, k)[i] == taken[i]);
            }
        }
    }
}

/// Taking items never fills an empty control queue.
proof fn lemma_system_stays_empty<M, R>(boxes: Seq<Mailbox<M, R>>, taken: Seq<Option<Delivery<M, R>>>, j: int)
    requires
        boxes.len() == taken.len() + 1,
        boxes[0].system_queue().len() == 0,
        forall|i: int| 0 <= i < taken.len() ==> #[trigger] boxes[i].next_taken(boxes[i + 1], taken[i]),
        0 <= j < boxes.len(),
    ensures
        boxes[j].system_queue().len() == 0,
    decreases j,
{
    if j > 0 {
        let i = j - 1;
        lemma_system_stays_empty(boxes, taken, i);
        assert(boxes[i].next_taken(boxes[i + 1], taken[i]));
    }
}

/// A failure resets the state but keeps the cell: when the oldest user
/// message makes the actor fail and no control message waits, handling it
/// rebuilds the state from the recipe, runs the restart hook, keeps the
/// recipe, and keeps every later message queued in its order.
pub proof fn lemma_failure_resets_state<A: Actor, R>(
    c0: ActorCell<A, R>,
    c1: ActorCell<A, R>,
    r: Handled<A::Output, R>,
)
    requires
        c0.inbox().system_queue().len() == 0,
        c0.inbox().user_queue().len() > 0,
        c0.actor().reaction(c0.inbox().user_queue()[0].message) is None,
        c0.handled(c1, r),
    ensures
        c1.recipe() == c0.recipe(),
        c1.actor() == A::initial(c0.recipe()),
        r == Handled::<A::Output, R>::Recovered(A::initial(c0.recipe()).restart_output()),
        c1.inbox().system_queue().len() == 0,
        c1.inbox().user_queue() == c0.inbox().user_queue().drop_first(),
{
}

} // verus!
