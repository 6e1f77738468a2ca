//! Logical addresses of actors.
use vstd::prelude::*;
use std::sync::Arc;
use crate::cell::{Actor, ActorCell, Handled, SystemMessage};

verus! {

/// Connection information for a distant actor: its logical path on the
/// distant system (such as "/user/distant/actor") and the address and port
/// to reach it (such as "127.0.0.1:12345").
#[derive(Debug, PartialEq, Eq, Hash)]
pub struct ConnectionInfo {
    distant_logical_path: String,
    addr_port: String,
}

impl View for ConnectionInfo {
    /// The logical path and the address, as character sequences.
    type V = (Seq<char>, Seq<char>);

    closed spec fn view(&self) -> (Seq<char>, Seq<char>) {
        (self.distant_logical_path@, self.addr_port@)
    }
}

impl ConnectionInfo {
    /// Distant logical path.
    pub fn distant_logical_path(&self) -> (r: &String)
        ensures
            r@ == self@.0,
    {
        &self.distant_logical_path
    }

    /// Address and port of the distant actor.
    pub fn addr_port(&self) -> (r: &String)
        ensures
            r@ == self@.1,
    {
        &self.addr_port
    }
}

/// Path to an actor, local or distant.
#[derive(Debug, PartialEq, Eq, Hash)]
pub enum ActorPath {
    /// Logical path to a local actor.
    Local(String),
    /// Logical path and connection information for a distant actor.
    Distant(ConnectionInfo),
}

impl ActorPath {
    /// The logical path: the local-style name, whether the actor is local or not.
    pub open spec fn logical(&self) -> Seq<char> {
        match self {
            ActorPath::Local(s) => s@,
            ActorPath::Distant(c) => c@.0,
        }
    }

    /// Creates a new local path with the given logical path.
    pub fn new_local(path: String) -> (r: Arc<ActorPath>)
        ensures
            *r == ActorPath::Local(path),
    {
        Arc::new(ActorPath::Local(path))
    }

    /// Creates a new distant path.
    pub fn new_distant(distant_logical_path: String, addr_port: String) -> (r: Arc<ActorPath>)
        ensures
            *r is Distant,
            r.logical() == distant_logical_path@,
            r->Distant_0@.1 == addr_port@,
    {
        Arc::new(ActorPath::Distant(ConnectionInfo { distant_logical_path, addr_port }))
    }

    /// Gives the logical path of an actor; for a distant actor, its logical
    /// path on the distant system, never its address.
    pub fn logical_path(&self) -> (r: &String)
        ensures
            r@ == self.logical(),
    {
        match self {
            ActorPath::Local(s) => s,
            ActorPath::Distant(c) => c.distant_logical_path(),
        }
    }

    /// Creates the path of a child of a local actor: the parent's logical
    /// path, a slash, then the child's name. Actors are always created
    /// locally, so a distant path has no children.
    pub fn child(&self, name: String) -> (r: Arc<ActorPath>)
        requires
            self is Local,
        ensures
            *r is Local,
            r.logical() == self.logical() + seq!['/'] + name@,
    {
        match self {
            ActorPath::Local(s) => {
                let mut path = s.clone();
                path.append("/");
                path.append(name.as_str());
                proof {
                    reveal_strlit("/");
                    assert("/"@ =~= seq!['/']);
                }
                ActorPath::new_local(path)
            },
            ActorPath::Distant(_) => {
                proof {
                    assert(false);
                }
                ActorPath::new_local(name)
            },
        }
    }
}

/// The root registry: the well-known actor that resolves logical paths to
/// the actors registered under them. It answers its own lifecycle
/// messages and runs no user code.
pub struct Cthulhu {
    registered: Vec<Arc<ActorPath>>,
}

impl Cthulhu {
    /// The paths registered, oldest first.
    pub closed spec fn entries(&self) -> Seq<ActorPath> {
        self.registered@.map_values(|p: Arc<ActorPath>| *p)
    }

    /// An empty registry.
    pub fn new() -> (r: Cthulhu)
        ensures
            r.entries() == Seq::<ActorPath>::empty(),
    {
        Cthulhu { registered: Vec::new() }
    }

    /// Registers an actor under its path.
    pub fn register(&mut self, path: Arc<ActorPath>)
        ensures
            final(self).entries() == old(self).entries().push(*path),
    {
        self.registered.push(path);
        assert(self.entries() =~= old(self).entries().push(*path));
    }

    /// Resolves a logical path: the oldest registered path with that
    /// logical path, or `None` when no actor is registered under it.
    pub fn resolve(&self, logical_path: &String) -> (r: Option<Arc<ActorPath>>)
        ensures
            match r {
                Some(p) => exists|i: int| {
                    &&& 0 <= i < self.entries().len()
                    &&& #[trigger] self.entries()[i] == *p
                    &&& p.logical() == logical_path@
                    &&& forall|j: int| 0 <= j < i ==> (#[trigger] self.entries()[j]).logical() != logical_path@
                },
                None => forall|i: int| 0 <= i < self.entries().len() ==> (#[trigger] self.entries()[i]).logical() != logical_path@,
            },
    {
        let mut i: usize = 0;
        while i < self.registered.len()
            invariant
                i <= self.registered@.len(),
                forall|j: int| 0 <= j < i ==> (#[trigger] self.entries()[j]).logical() != logical_path@,
            decreases self.registered@.len() - i,
        {
            let candidate = self.registered[i].logical_path();
            assert(self.entries()[i as int] == *self.registered@[i as int]);
            if candidate.eq(logical_path) {
                return Some(self.registered[i].clone());
            }
            i = i + 1;
        }
        None
    }
}

/// What stands behind a reference to a live actor.
pub enum InnerActor<A: Actor> {
    /// The root registry.
    Cthulhu(Cthulhu),
    /// An ordinary actor's cell; a message carries the path of its sender.
    Actor(ActorCell<A, Arc<ActorPath>>),
}

/// Why a delivery through a reference was refused.
#[derive(Debug, PartialEq, Eq, Clone, Copy, Structural)]
pub enum DeliveryError {
    /// The reference is to a distant actor, to which nothing is delivered.
    Distant,
    /// The sender's reference is to a distant actor, which cannot send.
    DistantSender,
}

/// The handle through which actors are addressed: a path, and for a live
/// actor what stands behind it. A reference to a distant actor only knows
/// its path.
pub struct ActorRef<A: Actor> {
    inner_actor: Option<InnerActor<A>>,
    path: Arc<ActorPath>,
}

impl<A: Actor> ActorRef<A> {
    /// What stands behind the reference: `None` for a distant actor.
    pub closed spec fn inner(&self) -> Option<InnerActor<A>> {
        self.inner_actor
    }

    /// The actor's path.
    pub closed spec fn path_of(&self) -> ActorPath {
        *self.path
    }

    /// A reference to a distant actor.
    pub fn new_distant(path: Arc<ActorPath>) -> (r: Self)
        ensures
            r.inner() is None,
            r.path_of() == *path,
    {
        ActorRef { inner_actor: None, path }
    }

    /// The reference to the root registry, at the local path "/".
    pub fn with_cthulhu(cthulhu: Cthulhu) -> (r: Self)
        ensures
            r.inner() == Some(InnerActor::<A>::Cthulhu(cthulhu)),
            r.path_of() is Local,
            r.path_of().logical() == seq!['/'],
    {
        let path = ActorPath::new_local("/".to_owned());
        proof {
            reveal_strlit("/");
        }
        assert(path.logical() =~= seq!['/']);
        ActorRef { inner_actor: Some(InnerActor::Cthulhu(cthulhu)), path }
    }

    /// A reference to a local actor, through its cell.
    pub fn with_cell(cell: ActorCell<A, Arc<ActorPath>>, path: Arc<ActorPath>) -> (r: Self)
        ensures
            r.inner() == Some(InnerActor::<A>::Actor(cell)),
            r.path_of() == *path,
    {
        ActorRef { inner_actor: Some(InnerActor::Actor(cell)), path }
    }

    /// Gives the path, shared.
    pub fn path(&self) -> (r: Arc<ActorPath>)
        ensures
            *r == self.path_of(),
    {
        self.path.clone()
    }

    /// Delivers a control message: into the actor's mailbox, or to the
    /// registry, which takes it. A distant actor refuses it.
    pub fn receive_system_message(&mut self, system_message: SystemMessage) -> (r: Result<(), DeliveryError>)
        ensures
            final(self).path_of() == old(self).path_of(),
            match old(self).inner() {
                None => r == Err::<(), DeliveryError>(DeliveryError::Distant) && final(self).inner() == old(self).inner(),
                Some(InnerActor::Cthulhu(c)) => r is Ok && final(self).inner() == old(self).inner(),
                Some(InnerActor::Actor(c0)) => {
                    &&& r is Ok
                    &&& final(self).inner() matches Some(InnerActor::Actor(c1))
                    &&& c1.recipe() == c0.recipe()
                    &&& c1.actor() == c0.actor()
                    &&& c1.inbox().system_queue() == c0.inbox().system_queue().push(system_message)
                    &&& c1.inbox().user_queue() == c0.inbox().user_queue()
                },
            },
    {
        match &mut self.inner_actor {
            None => Err(DeliveryError::Distant),
            Some(InnerActor::Cthulhu(_)) => Ok(()),
            Some(InnerActor::Actor(cell)) => {
                cell.receive_system_message(system_message);
                Ok(())
            },
        }
    }

    /// Delivers a user message with its sender's path: into the actor's
    /// mailbox, or to the registry, which runs no user code and drops it.
    /// A distant actor refuses it.
    pub fn receive(&mut self, message: A::Message, sender: Arc<ActorPath>) -> (r: Result<(), DeliveryError>)
        ensures
            final(self).path_of() == old(self).path_of(),
            match old(self).inner() {
                None => r == Err::<(), DeliveryError>(DeliveryError::Distant) && final(self).inner() == old(self).inner(),
                Some(InnerActor::Cthulhu(c)) => r is Ok && final(self).inner() == old(self).inner(),
                Some(InnerActor::Actor(c0)) => {
                    &&& r is Ok
                    &&& final(self).inner() matches Some(InnerActor::Actor(c1))
                    &&& c1.recipe() == c0.recipe()
                    &&& c1.actor() == c0.actor()
                    &&& c1.inbox().system_queue() == c0.inbox().system_queue()
                    &&& c1.inbox().user_queue() == c0.inbox().user_queue().push(
                        crate::cell::Envelope { message, sender },
                    )
                },
            },
    {
        match &mut self.inner_actor {
            None => Err(DeliveryError::Distant),
            Some(InnerActor::Cthulhu(_)) => Ok(()),
            Some(InnerActor::Actor(cell)) => {
                cell.receive_message(message, sender);
                Ok(())
            },
        }
    }

    /// Has the actor handle one item of its mailbox; the registry has
    /// nothing to handle. A distant actor refuses.
    pub fn handle(&mut self) -> (r: Result<Handled<A::Output, Arc<ActorPath>>, DeliveryError>)
        ensures
            final(self).path_of() == old(self).path_of(),
            match old(self).inner() {
                None => r == Err::<Handled<A::Output, Arc<ActorPath>>, DeliveryError>(DeliveryError::Distant)
                    && final(self).inner() == old(self).inner(),
                Some(InnerActor::Cthulhu(c)) => r == Ok::<Handled<A::Output, Arc<ActorPath>>, DeliveryError>(Handled::Idle)
                    && final(self).inner() == old(self).inner(),
                Some(InnerActor::Actor(c0)) => {
                    &&& r is Ok
                    &&& final(self).inner() matches Some(InnerActor::Actor(c1))
                    &&& c0.handled(c1, r->Ok_0)
                },
            },
    {
        match &mut self.inner_actor {
            None => Err(DeliveryError::Distant),
            Some(InnerActor::Cthulhu(_)) => Ok(Handled::Idle),
            Some(InnerActor::Actor(cell)) => Ok(cell.handle_envelope()),
        }
    }

    /// Makes this actor send a message to another: the message goes into
    /// the target's mailbox with this actor's path as its sender. Neither a
    /// distant sender nor a distant target can take part.
    pub fn tell_to<B: Actor>(&self, to: &mut ActorRef<B>, message: B::Message) -> (r: Result<(), DeliveryError>)
        ensures
            final(to).path_of() == old(to).path_of(),
            self.inner() is None ==> r == Err::<(), DeliveryError>(DeliveryError::DistantSender)
                && final(to).inner() == old(to).inner(),
            self.inner() is Some ==> match old(to).inner() {
                None => r == Err::<(), DeliveryError>(DeliveryError::Distant) && final(to).inner() == old(to).inner(),
                Some(InnerActor::Cthulhu(c)) => r is Ok && final(to).inner() == old(to).inner(),
                Some(InnerActor::Actor(c0)) => {
                    &&& r is Ok
                    &&& final(to).inner() matches Some(InnerActor::Actor(c1))
                    &&& c1.recipe() == c0.recipe()
                    &&& c1.actor() == c0.actor()
                    &&& c1.inbox().system_queue() == c0.inbox().system_queue()
                    &&& c1.inbox().user_queue().len() == c0.inbox().user_queue().len() + 1
                    &&& c1.inbox().user_queue().drop_last() == c0.inbox().user_queue()
                    &&& c1.inbox().user_queue().last().message == message
                    &&& *c1.inbox().user_queue().last().sender == self.path_of()
                },
            },
    {
        if self.inner_actor.is_none() {
            return Err(DeliveryError::DistantSender);
        }
        let r = to.receive(message, self.path());
        proof {
            if let Some(InnerActor::Actor(c0)) = old(to).inner() {
                if let Some(InnerActor::Actor(c1)) = to.inner() {
                    assert(c1.inbox().user_queue().drop_last() =~= c0.inbox().user_queue());
                }
            }
        }
        r
    }
}

} // verus!
