//! The pool of warm instances of one module, and the course of one request through its
//! handler.
//!
//! A request takes an instance out of the pool, or has a new one made where the pool is
//! empty; when the request is done, the instance goes back unless the pool is full. A
//! request from outside holds a permit of the global semaphore from before it takes its
//! instance until after it has given the instance up.

use std::collections::VecDeque;
use vstd::prelude::*;

verus! {

/// The idle instances of one module, and how many of them may wait at most.
pub struct InstancePool<Instance> {
    pub idle: VecDeque<Instance>,
    pub max_idle: usize,
}

/// How many instances wait after one more comes back to `idle` waiting ones.
pub open spec fn after_return(idle: nat, max_idle: nat) -> nat {
    if idle < max_idle {
        idle + 1
    } else {
        idle
    }
}

/// How many instances wait after `count` more come back, one after the other.
pub open spec fn after_returns(idle: nat, count: nat, max_idle: nat) -> nat
    decreases count,
{
    if count == 0 {
        idle
    } else {
        after_return(after_returns(idle, (count - 1) as nat, max_idle), max_idle)
    }
}

/// Once a burst of requests has settled, the pool is as full as the instances that came back could make it
/// and no fuller than it may be: a pool within its bound that gets `count` instances
/// back holds `idle + count` of them, or `max_idle` where that would be more.
pub proof fn lemma_pool_settles(idle: nat, count: nat, max_idle: nat)
    requires
        idle <= max_idle,
    ensures
        after_returns(idle, count, max_idle) == if idle + count <= max_idle {
            idle + count
        } else {
            max_idle
        },
    decreases count,
{
    if count > 0 {
        lemma_pool_settles(idle, (count - 1) as nat, max_idle);
    }
}

impl<Instance> InstancePool<Instance> {
    /// The pool holds no more instances than may wait.
    pub open spec fn wf(&self) -> bool {
        self.idle@.len() <= self.max_idle
    }

    /// A pool of the instances that were made in advance.
    pub fn new(idle: VecDeque<Instance>, max_idle: usize) -> (pool: Self)
        ensures
            pool.idle == idle,
            pool.max_idle == max_idle,
            idle@.len() <= max_idle ==> pool.wf(),
    {
        Self { idle, max_idle }
    }

    pub fn len(&self) -> (len: usize)
        ensures
            len == self.idle@.len(),
    {
        self.idle.len()
    }

    /// Takes the instance that has waited longest out of the pool, if one waits.
    pub fn take(&mut self) -> (instance: Option<Instance>)
        ensures
            final(self).max_idle == old(self).max_idle,
            old(self).idle@.len() == 0 ==> instance.is_none() && final(self).idle@ == old(self).idle@,
            old(self).idle@.len() > 0 ==> instance == Some(old(self).idle@[0]) && final(self).idle@ == old(self).idle@.skip(1),
            old(self).wf() ==> final(self).wf(),
    {
        let instance: Option<Instance> = self.idle.pop_front();
        instance
    }

    /// Puts an instance back behind those that wait, unless as many wait as may: then the
    /// instance is handed back to be dropped.
    pub fn give_back(&mut self, instance: Instance) -> (rejected: Option<Instance>)
        ensures
            final(self).max_idle == old(self).max_idle,
            final(self).idle@.len() == after_return(
                old(self).idle@.len(),
                old(self).max_idle as nat,
            ),
            old(self).idle@.len() < old(self).max_idle ==> rejected.is_none() && final(self).idle@ == old(self).idle@.push(instance),
            old(self).idle@.len() >= old(self).max_idle ==> rejected == Some(instance) && final(self).idle@ == old(self).idle@,
            old(self).wf() ==> final(self).wf(),
    {
        if self.idle.len() < self.max_idle {
            self.idle.push_back(instance);
            None
        } else {
            Some(instance)
        }
    }
}

/// What the handler of a request waits for.
#[derive(Debug, Clone, Copy, PartialEq, Eq, Structural)]
pub enum Phase {
    /// A permit of the global semaphore.
    Admitting,
    /// An instance out of the pool.
    Taking,
    /// A new instance, the pool having been empty.
    Creating,
    /// The module.
    Executing,
    /// The reply channel.
    Replying,
    /// The pool, to give the instance back.
    Returning,
    /// The instance to be dropped, the reply channel having been closed.
    Dropping,
    /// The permit to be released.
    Releasing,
    /// Nothing: the request is done.
    Done,
}

/// What the handler of a request does next.
#[derive(Debug, Clone, Copy, PartialEq, Eq, Structural)]
pub enum Action {
    AcquirePermit,
    TakeInstance,
    CreateInstance,
    Execute,
    Reply,
    ReturnInstance,
    DropInstance,
    ReleasePermit,
    Finish,
}

/// What happened to what the handler of a request did.
#[derive(Debug, Clone, Copy, PartialEq, Eq, Structural)]
pub enum Event {
    PermitAcquired,
    /// The semaphore is closed.
    PermitRefused,
    InstanceTaken,
    PoolEmpty,
    InstanceCreated,
    CreationFailed,
    /// The module ran; whatever came of it is the reply.
    Executed,
    ReplySent,
    /// The reply channel is closed.
    ReplyRefused,
    /// The instance went back to the pool or was dropped.
    InstanceGone,
    PermitReleased,
}

/// The course of one request: what its handler waits for and what it holds.
#[derive(Debug, Clone, Copy, PartialEq, Eq, Structural)]
pub struct Handling {
    pub from_outside: bool,
    pub phase: Phase,
    pub permit: bool,
    pub instance: bool,
}

impl Handling {
    /// A handler holds a permit from its admission to its release if the request came
    /// from outside, and never else; it holds an instance from the taking or creating to
    /// the returning or dropping.
    pub open spec fn wf(self) -> bool {
        match self.phase {
            Phase::Admitting => self.from_outside && !self.permit && !self.instance,
            Phase::Taking | Phase::Creating => self.permit == self.from_outside && !self.instance,
            Phase::Executing | Phase::Replying | Phase::Returning | Phase::Dropping => self.permit
                == self.from_outside && self.instance,
            Phase::Releasing => self.from_outside && self.permit && !self.instance,
            Phase::Done => !self.permit && !self.instance,
        }
    }

    /// How far the handler has come.
    pub open spec fn progress(self) -> nat {
        match self.phase {
            Phase::Admitting => 0,
            Phase::Taking => 1,
            Phase::Creating => 2,
            Phase::Executing => 3,
            Phase::Replying => 4,
            Phase::Returning => 5,
            Phase::Dropping => 5,
            Phase::Releasing => 6,
            Phase::Done => 7,
        }
    }

    /// The handler of a new request: one from outside waits for a permit first.
    pub fn start(from_outside: bool) -> (handling: Self)
        ensures
            handling.wf(),
            handling == (Handling {
                from_outside,
                phase: if from_outside {
                    Phase::Admitting
                } else {
                    Phase::Taking
                },
                permit: false,
                instance: false,
            }),
    {
        Handling {
            from_outside,
            phase: if from_outside {
                Phase::Admitting
            } else {
                Phase::Taking
            },
            permit: false,
            instance: false,
        }
    }

    pub open spec fn spec_action(&self) -> Action {
        match self.phase {
            Phase::Admitting => Action::AcquirePermit,
            Phase::Taking => Action::TakeInstance,
            Phase::Creating => Action::CreateInstance,
            Phase::Executing => Action::Execute,
            Phase::Replying => Action::Reply,
            Phase::Returning => Action::ReturnInstance,
            Phase::Dropping => Action::DropInstance,
            Phase::Releasing => Action::ReleasePermit,
            Phase::Done => Action::Finish,
        }
    }

    /// What the handler does next.
    #[verifier::when_used_as_spec(spec_action)]
    pub fn action(&self) -> (action: Action)
        ensures
            action == self.spec_action(),
    {
        match self.phase {
            Phase::Admitting => Action::AcquirePermit,
            Phase::Taking => Action::TakeInstance,
            Phase::Creating => Action::CreateInstance,
            Phase::Executing => Action::Execute,
            Phase::Replying => Action::Reply,
            Phase::Returning => Action::ReturnInstance,
            Phase::Dropping => Action::DropInstance,
            Phase::Releasing => Action::ReleasePermit,
            Phase::Done => Action::Finish,
        }
    }

    pub open spec fn spec_expects(&self, event: Event) -> bool {
        match self.phase {
            Phase::Admitting => event == Event::PermitAcquired || event == Event::PermitRefused,
            Phase::Taking => event == Event::InstanceTaken || event == Event::PoolEmpty,
            Phase::Creating => event == Event::InstanceCreated || event == Event::CreationFailed,
            Phase::Executing => event == Event::Executed,
            Phase::Replying => event == Event::ReplySent || event == Event::ReplyRefused,
            Phase::Returning | Phase::Dropping => event == Event::InstanceGone,
            Phase::Releasing => event == Event::PermitReleased,
            Phase::Done => false,
        }
    }

    /// Whether `event` can be what happened to what the handler did last.
    #[verifier::when_used_as_spec(spec_expects)]
    pub fn expects(&self, event: Event) -> (expected: bool)
        ensures
            expected == self.spec_expects(event),
    {
        match self.phase {
            Phase::Admitting => event == Event::PermitAcquired || event == Event::PermitRefused,
            Phase::Taking => event == Event::InstanceTaken || event == Event::PoolEmpty,
            Phase::Creating => event == Event::InstanceCreated || event == Event::CreationFailed,
            Phase::Executing => event == Event::Executed,
            Phase::Replying => event == Event::ReplySent || event == Event::ReplyRefused,
            Phase::Returning | Phase::Dropping => event == Event::InstanceGone,
            Phase::Releasing => event == Event::PermitReleased,
            Phase::Done => false,
        }
    }

    /// Where the handler stands after it has given up its instance, or has failed to get
    /// one: it releases its permit if it holds one, and is done.
    pub open spec fn wound_up(self) -> Handling {
        Handling {
            phase: if self.permit {
                Phase::Releasing
            } else {
                Phase::Done
            },
            instance: false,
            ..self
        }
    }

    /// Where the handler stands after `event`.
    pub open spec fn after(self, event: Event) -> Handling {
        match event {
            Event::PermitAcquired => Handling { phase: Phase::Taking, permit: true, ..self },
            Event::PermitRefused => Handling { phase: Phase::Done, ..self },
            Event::InstanceTaken | Event::InstanceCreated => Handling {
                phase: Phase::Executing,
                instance: true,
                ..self
            },
            Event::PoolEmpty => Handling { phase: Phase::Creating, ..self },
            Event::CreationFailed | Event::InstanceGone => self.wound_up(),
            Event::Executed => Handling { phase: Phase::Replying, ..self },
            Event::ReplySent => Handling { phase: Phase::Returning, ..self },
            Event::ReplyRefused => Handling { phase: Phase::Dropping, ..self },
            Event::PermitReleased => Handling { phase: Phase::Done, permit: false, ..self },
        }
    }

    /// Takes note of what happened to what the handler did last.
    pub fn step(&mut self, event: Event)
        requires
            old(self).wf(),
            old(self).expects(event),
        ensures
            *final(self) == old(self).after(event),
            final(self).wf(),
            final(self).progress() > old(self).progress(),
    {
        match event {
            Event::PermitAcquired => {
                self.permit = true;
                self.phase = Phase::Taking;
            },
            Event::PermitRefused => {
                self.phase = Phase::Done;
            },
            Event::InstanceTaken | Event::InstanceCreated => {
                self.instance = true;
                self.phase = Phase::Executing;
            },
            Event::PoolEmpty => {
                self.phase = Phase::Creating;
            },
            Event::CreationFailed | Event::InstanceGone => {
                self.instance = false;
                self.phase = if self.permit {
                    Phase::Releasing
                } else {
                    Phase::Done
                };
            },
            Event::Executed => {
                self.phase = Phase::Replying;
            },
            Event::ReplySent => {
                self.phase = Phase::Returning;
            },
            Event::ReplyRefused => {
                self.phase = Phase::Dropping;
            },
            Event::PermitReleased => {
                self.permit = false;
                self.phase = Phase::Done;
            },
        }
    }
}

/// A module runs a request only on an instance that the handler holds, and a request from
/// outside only under a permit of the global semaphore: so no more requests from outside
/// run at the same time than the semaphore has permits. The permit is released last,
/// after the instance is given up, and a handler that is done holds nothing.
pub proof fn lemma_handling_holds(handling: Handling)
    requires
        handling.wf(),
    ensures
        handling.action() == Action::Execute ==> handling.instance && (handling.from_outside
            ==> handling.permit),
        handling.action() == Action::ReleasePermit ==> handling.permit && !handling.instance,
        handling.action() == Action::Finish ==> !handling.permit && !handling.instance,
        handling.action() == Action::ReturnInstance || handling.action() == Action::DropInstance
            ==> handling.instance,
        !handling.from_outside ==> !handling.permit,
{
}

} // verus!
