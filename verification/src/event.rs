use vstd::prelude::*;

use crate::test_name::TestName;

verus! {

/// The mathematical shape of one lifecycle report: the constructor and the
/// text of the name payload, if any. Event sequences in contracts are
/// sequences of this view.
pub enum EventView {
    TestStarting(Seq<char>),
    TestPassed(Seq<char>),
    AllTestsComplete,
}

/// One point of the lifecycle protocol, as transmitted to the supervising
/// process: a closed variant with exactly these three shapes. Events are
/// transmitted, never stored by the harness.
#[derive(Debug)]
pub enum TestEvent {
    /// The named test is about to run.
    TestStarting(TestName),
    /// The named test ran to completion.
    TestPassed(TestName),
    /// Every selected test has passed; nothing further will be sent.
    AllTestsComplete,
}

impl View for TestEvent {
    type V = EventView;

    open spec fn view(&self) -> EventView {
        match self {
            TestEvent::TestStarting(n) => EventView::TestStarting(n@),
            TestEvent::TestPassed(n) => EventView::TestPassed(n@),
            TestEvent::AllTestsComplete => EventView::AllTestsComplete,
        }
    }
}

impl PartialEq for TestEvent {
    fn eq(&self, other: &TestEvent) -> (r: bool) {
        match (self, other) {
            (TestEvent::TestStarting(a), TestEvent::TestStarting(b)) => *a == *b,
            (TestEvent::TestPassed(a), TestEvent::TestPassed(b)) => *a == *b,
            (TestEvent::AllTestsComplete, TestEvent::AllTestsComplete) => true,
            _ => false,
        }
    }
}

impl vstd::std_specs::cmp::PartialEqSpecImpl for TestEvent {
    open spec fn obeys_eq_spec() -> bool {
        true
    }

    open spec fn eq_spec(&self, other: &TestEvent) -> bool {
        self@ == other@
    }
}

} // verus!
