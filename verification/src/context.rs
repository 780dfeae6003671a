use vstd::prelude::*;

use crate::errors::FatalError;
use crate::event::EventView;
use crate::event::TestEvent;
use crate::test_name::name_fits;
use crate::test_name::TestName;

verus! {

/// The harness's endpoint of the one-directional rendezvous channel to the
/// supervising process. `blocking_send` returns only once the supervisor has
/// taken receipt of the message; the view is the ordered sequence of events
/// the supervisor has accepted so far. This model's channel always accepts:
/// in the isolated execution context a rejected send marks an environment
/// fault that the harness treats as fatal, and the host aborts.
#[derive(Debug)]
pub struct Sender {
    accepted: Vec<TestEvent>,
}

impl View for Sender {
    type V = Seq<EventView>;

    closed spec fn view(&self) -> Seq<EventView> {
        self.accepted@.map_values(|e: TestEvent| e@)
    }
}

impl Sender {
    /// A fresh endpoint over which nothing has been sent yet.
    pub fn new() -> (s: Sender)
        ensures
            s@ == Seq::<EventView>::empty(),
    {
        let s = Sender { accepted: Vec::new() };
        proof {
            assert(s@ =~= Seq::<EventView>::empty());
        }
        s
    }

    /// Hands one event to the supervisor, suspending the caller until the
    /// message is accepted: exactly `event` is appended to the accepted
    /// sequence.
    pub fn blocking_send(&mut self, event: TestEvent)
        ensures
            final(self)@ == old(self)@.push(event@),
    {
        self.accepted.push(event);
        proof {
            assert(self@ =~= old(self)@.push(event@));
        }
    }

    /// The events accepted by the supervisor so far, in order.
    pub fn events(&self) -> (r: &Vec<TestEvent>)
        ensures
            r@.map_values(|e: TestEvent| e@) == self@,
    {
        &self.accepted
    }
}

/// The execution context of the harness: the outbound reporting endpoint
/// together with auxiliary host state (a numeric tag). At most one instance
/// exists at a time; ownership moves from the host's `ContextSlot` to the
/// runner and never returns.
#[derive(Debug)]
pub struct TestContext {
    /// Auxiliary host state.
    pub x: u32,
    /// The outbound event endpoint.
    pub test_event_sender: Sender,
}

impl TestContext {
    /// The events this context has reported so far, in order.
    pub open spec fn events(&self) -> Seq<EventView> {
        self.test_event_sender@
    }

    /// A fresh context, with tag `x`, that has reported nothing yet.
    pub fn new(x: u32) -> (c: TestContext)
        ensures
            c.x == x,
            c.events() == Seq::<EventView>::empty(),
    {
        TestContext { x, test_event_sender: Sender::new() }
    }

    /// Reports that the test called `name` is about to run.
    pub fn report_test_starting(&mut self, name: &str)
        requires
            name_fits(name@),
        ensures
            final(self).events() == old(self).events().push(EventView::TestStarting(name@)),
            final(self).x == old(self).x,
    {
        let ev = TestEvent::TestStarting(TestName::new(name).unwrap());
        self.test_event_sender.blocking_send(ev);
    }

    /// Reports that the test called `name` ran to completion.
    pub fn report_test_passed(&mut self, name: &str)
        requires
            name_fits(name@),
        ensures
            final(self).events() == old(self).events().push(EventView::TestPassed(name@)),
            final(self).x == old(self).x,
    {
        let ev = TestEvent::TestPassed(TestName::new(name).unwrap());
        self.test_event_sender.blocking_send(ev);
    }

    /// Reports `AllTestsComplete` and moves the harness into the terminal
    /// state of the termination protocol. The context is consumed: no
    /// further event can ever be reported after this transition. In the
    /// isolated execution context control never comes back from here — the
    /// host yields to the scheduler forever, since the context cannot
    /// terminate itself.
    pub fn complete(self) -> (r: CompletedRun)
        ensures
            r@ == self.events().push(EventView::AllTestsComplete),
    {
        let TestContext { x: _, test_event_sender: mut sender } = self;
        sender.blocking_send(TestEvent::AllTestsComplete);
        CompletedRun { events: sender.accepted }
    }
}

/// The terminal state of the termination protocol: the record of a run whose
/// `AllTestsComplete` event has been sent. It offers no operation that could
/// emit a further event.
#[derive(Debug)]
pub struct CompletedRun {
    events: Vec<TestEvent>,
}

impl View for CompletedRun {
    type V = Seq<EventView>;

    closed spec fn view(&self) -> Seq<EventView> {
        self.events@.map_values(|e: TestEvent| e@)
    }
}

impl CompletedRun {
    /// The complete, ordered event sequence of the run.
    pub fn events(&self) -> (r: &Vec<TestEvent>)
        ensures
            r@.map_values(|e: TestEvent| e@) == self@,
    {
        &self.events
    }
}

/// Process-wide singleton storage for the `TestContext`: an owned slot that
/// holds at most one context. The host installs exactly once before the
/// runner starts; the runner takes exactly once. Installing into an occupied
/// slot, or taking from an empty one, is a fatal configuration error.
#[derive(Debug)]
pub struct ContextSlot {
    stored: Option<TestContext>,
}

impl View for ContextSlot {
    type V = Option<TestContext>;

    closed spec fn view(&self) -> Option<TestContext> {
        self.stored
    }
}

impl ContextSlot {
    /// A fresh, empty slot.
    pub fn new() -> (s: ContextSlot)
        ensures
            s@ is None,
    {
        ContextSlot { stored: None }
    }

    /// Installs `context`; fails, leaving the slot unchanged, exactly when
    /// the slot is already occupied.
    pub fn set_test_context(&mut self, context: TestContext) -> (r: Result<(), FatalError>)
        ensures
            r is Ok <==> old(self)@ is None,
            r is Ok ==> final(self)@ == Some(context),
            r matches Err(e) ==> e == FatalError::ContextAlreadyInstalled && final(self)@ == old(self)@,
    {
        if self.stored.is_some() {
            Err(FatalError::ContextAlreadyInstalled)
        } else {
            self.stored = Some(context);
            Ok(())
        }
    }

    /// Takes the stored context out, leaving the slot empty; fails exactly
    /// when the slot is empty.
    pub fn take_test_context(&mut self) -> (r: Result<TestContext, FatalError>)
        ensures
            r is Ok <==> old(self)@ is Some,
            final(self)@ is None,
            r matches Ok(c) ==> old(self)@ == Some(c),
            r matches Err(e) ==> e == FatalError::ContextNotInstalled,
    {
        match self.stored.take() {
            Some(c) => Ok(c),
            None => Err(FatalError::ContextNotInstalled),
        }
    }
}

} // verus!
