//! Listener groups: the listeners bound for a list of addresses, all plain or
//! all TLS, started and stopped together.
use crate::address::Address;
use crate::listener::{Listener, ListenerView};
use vstd::prelude::*;

verus! {

/// Why an address could not be bound.
#[derive(Clone, Copy, Debug, PartialEq, Eq, Structural)]
pub enum BindError {
    AddressInUse,
    PermissionDenied,
    InvalidAddress,
    Other,
}

/// An address that was skipped, and why.
#[derive(Clone, Copy, Debug, PartialEq, Eq, Structural)]
pub struct BindFailure {
    pub address: Address,
    pub error: BindError,
}

/// A group was asked to hold plain and TLS listeners together.
#[derive(Clone, Copy, Debug, PartialEq, Eq, Structural)]
pub enum GroupError {
    MixedTls,
}

/// How a member's accept-loop task ended, when it did not hand its listener back.
#[derive(Clone, Copy, Debug, PartialEq, Eq, Structural)]
pub enum TaskFault {
    /// The task panicked.
    Panicked,
    /// The task was aborted before it finished.
    Aborted,
    /// The task handed back a listener whose TLS classification is not the group's.
    Misclassified,
}

/// The sockets bound successfully, with their addresses, in the order of the attempts.
pub open spec fn bound_attempts<S>(attempts: Seq<(Address, Result<S, BindError>)>) -> Seq<(Address, S)>
    decreases attempts.len(),
{
    if attempts.len() == 0 {
        Seq::empty()
    } else {
        let rest = bound_attempts(attempts.drop_last());
        match attempts.last().1 {
            Ok(socket) => rest.push((attempts.last().0, socket)),
            Err(_) => rest,
        }
    }
}

/// The attempts that failed, in order.
pub open spec fn failed_attempts<S>(attempts: Seq<(Address, Result<S, BindError>)>) -> Seq<BindFailure>
    decreases attempts.len(),
{
    if attempts.len() == 0 {
        Seq::empty()
    } else {
        let rest = failed_attempts(attempts.drop_last());
        match attempts.last().1 {
            Ok(_) => rest,
            Err(error) => rest.push(BindFailure { address: attempts.last().0, error }),
        }
    }
}

/// How many attempts succeeded.
pub open spec fn bind_successes<S>(attempts: Seq<(Address, Result<S, BindError>)>) -> nat
    decreases attempts.len(),
{
    if attempts.len() == 0 {
        0
    } else {
        bind_successes(attempts.drop_last()) + if attempts.last().1 is Ok {
            1nat
        } else {
            0nat
        }
    }
}

/// Fresh plain listeners for bound sockets.
pub open spec fn fresh_listeners<S, A>(bound: Seq<(Address, S)>) -> Seq<ListenerView<S, A>> {
    bound.map_values(|b: (Address, S)| ListenerView { address: b.0, tls_acceptor: None, socket: b.1 })
}

/// All listeners agree on whether they serve TLS.
pub open spec fn uniform<S, A>(members: Seq<ListenerView<S, A>>) -> bool {
    forall|i: int, j: int|
        0 <= i < members.len() && 0 <= j < members.len() ==> #[trigger] members[i].over_tls()
            == #[trigger] members[j].over_tls()
}

/// What a stopped task gave back, as contracts see it.
pub open spec fn outcome_view<S, A>(o: Result<Listener<S, A>, TaskFault>) -> Result<
    ListenerView<S, A>,
    TaskFault,
> {
    match o {
        Ok(l) => Ok(l@),
        Err(f) => Err(f),
    }
}

/// The contents of each listener, in order.
pub open spec fn listener_views<S, A>(listeners: Seq<Listener<S, A>>) -> Seq<ListenerView<S, A>> {
    listeners.map_values(|l: Listener<S, A>| l@)
}

/// What each stopped task gave back, in order.
pub open spec fn outcome_views<S, A>(outcomes: Seq<Result<Listener<S, A>, TaskFault>>) -> Seq<
    Result<ListenerView<S, A>, TaskFault>,
> {
    outcomes.map_values(|o| outcome_view(o))
}

/// The task handed back a listener with the given classification.
pub open spec fn hands_back<S, A>(o: Result<ListenerView<S, A>, TaskFault>, over_tls: bool) -> bool {
    o matches Ok(l) && l.over_tls() == over_tls
}

/// The listeners that a group stopped as `over_tls` takes back: those handed back
/// with the group's classification, in order.
pub open spec fn recovered<S, A>(
    over_tls: bool,
    outcomes: Seq<Result<ListenerView<S, A>, TaskFault>>,
) -> Seq<ListenerView<S, A>>
    decreases outcomes.len(),
{
    if outcomes.len() == 0 {
        Seq::empty()
    } else {
        let rest = recovered(over_tls, outcomes.drop_last());
        match outcomes.last() {
            Ok(l) => if l.over_tls() == over_tls {
                rest.push(l)
            } else {
                rest
            },
            Err(_) => rest,
        }
    }
}

/// The faults recorded while stopping a group: each failed task's fault, and
/// `Misclassified` for each listener that cannot rejoin the group, in order.
pub open spec fn shutdown_faults<S, A>(
    over_tls: bool,
    outcomes: Seq<Result<ListenerView<S, A>, TaskFault>>,
) -> Seq<TaskFault>
    decreases outcomes.len(),
{
    if outcomes.len() == 0 {
        Seq::empty()
    } else {
        let rest = shutdown_faults(over_tls, outcomes.drop_last());
        match outcomes.last() {
            Ok(l) => if l.over_tls() == over_tls {
                rest
            } else {
                rest.push(TaskFault::Misclassified)
            },
            Err(f) => rest.push(f),
        }
    }
}

/// A group as its contracts see it.
pub struct GroupView<S, A> {
    pub members: Seq<ListenerView<S, A>>,
    pub over_tls: bool,
}

impl<S, A> GroupView<S, A> {
    /// Every member has the group's TLS classification.
    pub open spec fn classified(self) -> bool {
        forall|i: int| 0 <= i < self.members.len() ==> (#[trigger] self.members[i]).over_tls() == self.over_tls
    }
}

/// An ordered collection of idle listeners that are all plain or all TLS.
pub struct ListenerGroup<S, A> {
    listeners: Vec<Listener<S, A>>,
    over_tls: bool,
}

impl<S, A> View for ListenerGroup<S, A> {
    type V = GroupView<S, A>;

    closed spec fn view(&self) -> GroupView<S, A> {
        GroupView { members: listener_views(self.listeners@), over_tls: self.over_tls }
    }
}

/// A started group: the classification and how many member tasks were handed out.
pub struct RunningGroupView {
    pub over_tls: bool,
    pub started: nat,
}

/// The handle's side of a running group. The shared cancellation scope and the
/// member tasks belong to the runtime that drives them.
pub struct RunningListenerGroup {
    over_tls: bool,
    started: usize,
}

impl View for RunningListenerGroup {
    type V = RunningGroupView;

    closed spec fn view(&self) -> RunningGroupView {
        RunningGroupView { over_tls: self.over_tls, started: self.started as nat }
    }
}

/// What stopping a group gives: the listeners recovered as an idle group, the
/// faults of the tasks that did not hand theirs back, and how many were started.
pub struct ShutdownReport<S, A> {
    pub group: ListenerGroup<S, A>,
    pub faults: Vec<TaskFault>,
    pub started: usize,
}

impl<S, A> ListenerGroup<S, A> {
    #[verifier::type_invariant]
    spec fn members_classified(self) -> bool {
        forall|i: int| 0 <= i < self.listeners@.len() ==> (#[trigger] self.listeners@[i])@.over_tls() == self.over_tls
    }

    /// An empty plain group.
    pub fn new() -> (r: ListenerGroup<S, A>)
        ensures
            r@.members.len() == 0,
            !r@.over_tls,
            r@.classified(),
    {
        let r = ListenerGroup { listeners: Vec::new(), over_tls: false };
        assert(r@.members =~= Seq::empty());
        r
    }

    /// The group of the addresses that were bound: each attempt pairs an address
    /// with the outcome of binding it. A failed bind skips its address; the group
    /// holds a fresh plain listener for every other, in order, and the failures
    /// come back beside it.
    pub fn bind_all(attempts: Vec<(Address, Result<S, BindError>)>) -> (r: (
        ListenerGroup<S, A>,
        Vec<BindFailure>,
    ))
        ensures
            r.0@.members == fresh_listeners::<S, A>(bound_attempts(attempts@)),
            !r.0@.over_tls,
            r.0@.classified(),
            r.1@ == failed_attempts(attempts@),
    {
        let ghost all = attempts@;
        let mut rest = attempts;
        let mut listeners: Vec<Listener<S, A>> = Vec::new();
        let mut failures: Vec<BindFailure> = Vec::new();
        let ghost mut done: int = 0;
        while rest.len() > 0
            invariant
                0 <= done <= all.len(),
                rest@ == all.subrange(done, all.len() as int),
                listener_views(listeners@) == fresh_listeners::<S, A>(
                    bound_attempts(all.subrange(0, done)),
                ),
                failures@ == failed_attempts(all.subrange(0, done)),
                forall|i: int| 0 <= i < listeners@.len() ==> !(#[trigger] listeners@[i])@.over_tls(),
            decreases rest.len(),
        {
            let ghost prefix = all.subrange(0, done);
            let ghost next = all.subrange(0, done + 1);
            assert(next.drop_last() =~= prefix);
            assert(next.last() == all[done]);
            assert(rest@[0] == all[done]);
            let (address, outcome) = rest.remove(0);
            match outcome {
                Ok(socket) => {
                    let l = Listener::new(address, socket);
                    let ghost before = listeners@;
                    listeners.push(l);
                    assert(listener_views(listeners@) =~= listener_views(before).push(l@));
                    assert(fresh_listeners::<S, A>(bound_attempts(next)) =~= fresh_listeners::<S, A>(
                        bound_attempts(prefix),
                    ).push(l@));
                },
                Err(error) => {
                    failures.push(BindFailure { address, error });
                },
            }
            proof {
                done = done + 1;
            }
            assert(rest@ =~= all.subrange(done, all.len() as int));
        }
        assert(all.subrange(0, done) =~= all);
        let group = ListenerGroup { listeners, over_tls: false };
        (group, failures)
    }

    /// A group of the given listeners, refused when some serve TLS and others do
    /// not. An empty group is plain.
    pub fn from_listeners(listeners: Vec<Listener<S, A>>) -> (r: Result<ListenerGroup<S, A>, GroupError>)
        ensures
            r is Ok <==> uniform(listener_views(listeners@)),
            r matches Ok(g) ==> g@.members == listener_views(listeners@)
                && g@.over_tls == (listeners@.len() > 0 && listeners@[0]@.over_tls()) && g@.classified(),
            r matches Err(e) ==> e == GroupError::MixedTls,
    {
        let ghost views = listener_views(listeners@);
        let over_tls = listeners.len() > 0 && listeners[0].over_tls();
        let mut i: usize = 0;
        while i < listeners.len()
            invariant
                0 <= i <= listeners@.len(),
                views == listener_views(listeners@),
                over_tls == (listeners@.len() > 0 && listeners@[0]@.over_tls()),
                forall|k: int| 0 <= k < i ==> (#[trigger] listeners@[k])@.over_tls() == over_tls,
            decreases listeners@.len() - i,
        {
            if listeners[i].over_tls() != over_tls {
                assert(views[0].over_tls() != views[i as int].over_tls());
                return Err(GroupError::MixedTls);
            }
            i = i + 1;
        }
        assert forall|a: int, b: int| 0 <= a < views.len() && 0 <= b < views.len() implies #[trigger] views[a].over_tls()
            == #[trigger] views[b].over_tls() by {
            assert(views[a] == listeners@[a]@);
            assert(views[b] == listeners@[b]@);
        }
        Ok(ListenerGroup { listeners, over_tls })
    }

    /// Attaches the shared acceptor to every member, and makes the whole group a
    /// TLS group. Each member gets a clone of `tls_acceptor`.
    pub fn with_tls_acceptor(self, tls_acceptor: A) -> (r: ListenerGroup<S, A>)
        where
            A: Clone,
        ensures
            r@.over_tls,
            r@.classified(),
            r@.members.len() == self@.members.len(),
            forall|i: int|
                0 <= i < r@.members.len() ==> {
                    &&& (#[trigger] r@.members[i]).address == self@.members[i].address
                    &&& r@.members[i].socket == self@.members[i].socket
                    &&& r@.members[i].tls_acceptor matches Some(a) && cloned(tls_acceptor, a)
                },
    {
        let ghost members = self@.members;
        let ListenerGroup { listeners, over_tls: _ } = self;
        let mut rest = listeners;
        let mut stamped: Vec<Listener<S, A>> = Vec::new();
        let ghost mut done: int = 0;
        while rest.len() > 0
            invariant
                0 <= done <= members.len(),
                rest@.len() == members.len() - done,
                listener_views(rest@) == members.subrange(done, members.len() as int),
                stamped@.len() == done,
                forall|i: int|
                    0 <= i < done ==> {
                        &&& (#[trigger] stamped@[i])@.address == members[i].address
                        &&& stamped@[i]@.socket == members[i].socket
                        &&& stamped@[i]@.tls_acceptor matches Some(a) && cloned(tls_acceptor, a)
                    },
            decreases rest.len(),
        {
            let ghost before = rest@;
            assert(listener_views(before)[0] == members[done]);
            let l = rest.remove(0);
            let copy = tls_acceptor.clone();
            stamped.push(l.with_tls_acceptor(copy));
            assert forall|k: int| 0 <= k < rest@.len() implies #[trigger] listener_views(rest@)[k] == members[done + 1 + k] by {
                assert(rest@[k] == before[k + 1]);
                assert(listener_views(before)[k + 1] == members[done + 1 + k]);
            }
            assert(listener_views(rest@) =~= members.subrange(
                done + 1,
                members.len() as int,
            ));
            proof {
                done = done + 1;
            }
        }
        let r = ListenerGroup { listeners: stamped, over_tls: true };
        assert forall|i: int| 0 <= i < r@.members.len() implies (#[trigger] r@.members[i]).address
            == members[i].address by {
            assert(r@.members[i] == stamped@[i]@);
        }
        assert forall|i: int| 0 <= i < r@.members.len() implies (#[trigger] r@.members[i]).socket
            == members[i].socket && (r@.members[i].tls_acceptor matches Some(a) && cloned(tls_acceptor, a)) by {
            assert(r@.members[i] == stamped@[i]@);
        }
        r
    }

    /// How many listeners the group holds.
    pub fn len(&self) -> (r: usize)
        ensures
            r == self@.members.len(),
    {
        self.listeners.len()
    }

    /// True when the group holds no listener.
    pub fn is_empty(&self) -> (r: bool)
        ensures
            r == (self@.members.len() == 0),
    {
        self.listeners.len() == 0
    }

    /// True when the group serves TLS.
    pub fn over_tls(&self) -> (r: bool)
        ensures
            r == self@.over_tls,
    {
        self.over_tls
    }

    /// The member at `index`.
    pub fn get(&self, index: usize) -> (r: &Listener<S, A>)
        requires
            index < self@.members.len(),
        ensures
            r@ == self@.members[index as int],
            r@.over_tls() == self@.over_tls,
    {
        proof {
            use_type_invariant(self);
        }
        &self.listeners[index]
    }

    /// Hands out the members, in order, one accept-loop task each, and keeps the
    /// classification and their number in the handle.
    pub fn start(self) -> (r: (RunningListenerGroup, Vec<Listener<S, A>>))
        ensures
            r.0@.over_tls == self@.over_tls,
            r.0@.started == self@.members.len(),
            listener_views(r.1@) == self@.members,
    {
        let ListenerGroup { listeners, over_tls } = self;
        let running = RunningListenerGroup { over_tls, started: listeners.len() };
        (running, listeners)
    }
}

impl RunningListenerGroup {
    /// True when the group serves TLS.
    pub fn over_tls(&self) -> (r: bool)
        ensures
            r == self@.over_tls,
    {
        self.over_tls
    }

    /// How many member tasks were started.
    pub fn started(&self) -> (r: usize)
        ensures
            r == self@.started,
    {
        self.started
    }

    /// Collects what the member tasks gave once the group's cancellation has been
    /// signalled and they have exited: every listener handed back with the
    /// group's classification rejoins the idle group, in order; every other
    /// outcome is recorded as a fault, and does not stop the collection.
    pub fn stop<S, A>(self, outcomes: Vec<Result<Listener<S, A>, TaskFault>>) -> (r: ShutdownReport<S, A>)
        ensures
            r.group@.members == recovered(self@.over_tls, outcome_views(outcomes@)),
            r.group@.over_tls == self@.over_tls,
            r.group@.classified(),
            r.faults@ == shutdown_faults(self@.over_tls, outcome_views(outcomes@)),
            r.started == self@.started,
    {
        let ghost all = outcome_views(outcomes@);
        let over_tls = self.over_tls;
        let mut rest = outcomes;
        let mut listeners: Vec<Listener<S, A>> = Vec::new();
        let mut faults: Vec<TaskFault> = Vec::new();
        let ghost mut done: int = 0;
        while rest.len() > 0
            invariant
                0 <= done <= all.len(),
                rest@.len() == all.len() - done,
                outcome_views(rest@) == all.subrange(done, all.len() as int),
                listener_views(listeners@) == recovered(over_tls, all.subrange(0, done)),
                faults@ == shutdown_faults(over_tls, all.subrange(0, done)),
                forall|i: int| 0 <= i < listeners@.len() ==> (#[trigger] listeners@[i])@.over_tls() == over_tls,
            decreases rest.len(),
        {
            let ghost prefix = all.subrange(0, done);
            let ghost next = all.subrange(0, done + 1);
            assert(next.drop_last() =~= prefix);
            assert(outcome_views(rest@)[0] == all[done]);
            let ghost before = rest@;
            let outcome = rest.remove(0);
            match outcome {
                Ok(l) => {
                    if l.over_tls() == over_tls {
                        let ghost before = listeners@;
                        listeners.push(l);
                        assert(listener_views(listeners@) =~= listener_views(before).push(l@));
                    } else {
                        faults.push(TaskFault::Misclassified);
                    }
                },
                Err(fault) => {
                    faults.push(fault);
                },
            }
            assert forall|k: int| 0 <= k < rest@.len() implies #[trigger] outcome_views(rest@)[k] == all[done + 1 + k] by {
                assert(rest@[k] == before[k + 1]);
                assert(outcome_views(before)[k + 1] == all[done + 1 + k]);
            }
            assert(outcome_views(rest@) =~= all.subrange(done + 1, all.len() as int));
            proof {
                done = done + 1;
            }
        }
        assert(all.subrange(0, done) =~= all);
        let group = ListenerGroup { listeners, over_tls };
        ShutdownReport { group, faults, started: self.started }
    }
}

impl<S, A> ShutdownReport<S, A> {
    /// True when every started listener came back and no task failed.
    pub fn is_clean(&self) -> (r: bool)
        ensures
            r == (self.faults@.len() == 0 && self.group@.members.len() == self.started),
    {
        self.faults.len() == 0 && self.group.len() == self.started
    }
}

/// Partial binds are tolerated: of the attempts, exactly the successful ones give
/// a member and exactly the others give a failure: the group holds as many
/// listeners as binds succeeded, and every other address is reported as failed.
pub proof fn lemma_partial_bind<S, A>(attempts: Seq<(Address, Result<S, BindError>)>)
    ensures
        fresh_listeners::<S, A>(bound_attempts(attempts)).len() == bind_successes(attempts),
        failed_attempts(attempts).len() == attempts.len() - bind_successes(attempts),
    decreases attempts.len(),
{
    if attempts.len() > 0 {
        lemma_partial_bind::<S, A>(attempts.drop_last());
    }
}

/// Stopping a group brings every member back: when each of the group's started
/// tasks hands back a listener of the group's classification, the recovered group
/// holds as many listeners as were started, in order, and no fault is recorded.
pub proof fn lemma_group_cascade<S, A>(
    running: RunningGroupView,
    outcomes: Seq<Result<ListenerView<S, A>, TaskFault>>,
)
    requires
        outcomes.len() == running.started,
        forall|i: int| 0 <= i < outcomes.len() ==> hands_back(#[trigger] outcomes[i], running.over_tls),
    ensures
        recovered(running.over_tls, outcomes).len() == running.started,
        forall|i: int|
            0 <= i < outcomes.len() ==> outcomes[i] == Ok::<ListenerView<S, A>, TaskFault>(
                #[trigger] recovered(running.over_tls, outcomes)[i],
            ),
        shutdown_faults(running.over_tls, outcomes).len() == 0,
    decreases outcomes.len(),
{
    lemma_all_recovered(running.over_tls, outcomes);
}

proof fn lemma_all_recovered<S, A>(over_tls: bool, outcomes: Seq<Result<ListenerView<S, A>, TaskFault>>)
    requires
        forall|i: int| 0 <= i < outcomes.len() ==> hands_back(#[trigger] outcomes[i], over_tls),
    ensures
        recovered(over_tls, outcomes).len() == outcomes.len(),
        forall|i: int|
            0 <= i < outcomes.len() ==> outcomes[i] == Ok::<ListenerView<S, A>, TaskFault>(
                #[trigger] recovered(over_tls, outcomes)[i],
            ),
        shutdown_faults(over_tls, outcomes).len() == 0,
    decreases outcomes.len(),
{
    if outcomes.len() > 0 {
        let init = outcomes.drop_last();
        assert forall|i: int| 0 <= i < init.len() implies hands_back(#[trigger] init[i], over_tls) by {
            assert(init[i] == outcomes[i]);
        }
        lemma_all_recovered(over_tls, init);
        assert(outcomes[outcomes.len() - 1] == outcomes.last());
    }
}

} // verus!
