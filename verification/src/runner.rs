use vstd::prelude::*;

use crate::context::CompletedRun;
use crate::context::ContextSlot;
use crate::errors::FatalError;
use crate::event::EventView;
use crate::protocol::lemma_pair_events_push;
use crate::protocol::lemma_selected_names_push;
use crate::protocol::pair_events;
use crate::protocol::run_events;
use crate::protocol::selected_names;
use crate::protocol::selects;
use crate::test_name::name_fits;
use crate::test_name::str_eq;

verus! {

/// A registry entry: a stable textual name paired with a zero-argument
/// runnable body. The registry is populated entirely before the runner
/// starts; the runner preserves whatever order it yields.
pub trait Testable {
    /// The descriptor's name, as mathematical text.
    spec fn spec_name(&self) -> Seq<char>;

    /// Whether the body may be invoked.
    spec fn ready(&self) -> bool;

    /// The descriptor's stable name: the identity of the test.
    fn name(&self) -> (r: &str)
        ensures
            r@ == self.spec_name(),
    ;

    /// Runs the test body: it either completes, or aborts the whole
    /// execution context.
    fn run(&self)
        requires
            self.ready(),
    ;
}

/// A registry entry produced at build time from a named zero-argument test
/// body.
pub struct UnitTest<F: Fn() -> ()> {
    /// The stable, fully qualified name of the test.
    pub name: &'static str,
    /// The zero-argument test body.
    pub f: F,
}

impl<F: Fn() -> ()> Testable for UnitTest<F> {
    open spec fn spec_name(&self) -> Seq<char> {
        self.name@
    }

    open spec fn ready(&self) -> bool {
        call_requires(self.f, ())
    }

    fn name(&self) -> (r: &str) {
        self.name
    }

    fn run(&self) {
        (self.f)();
    }
}

/// What a `UnitTest` contributes as a registry entry: its name is the text
/// of its `name` field, and it is ready exactly when its body may be
/// invoked.
pub proof fn lemma_unit_test_entry<F: Fn() -> ()>(t: &UnitTest<F>)
    ensures
        t.spec_name() == t.name@,
        t.ready() == call_requires(t.f, ()),
{
}

/// The names of the registry `tests`, in registry order.
pub open spec fn names_of<T: Testable>(tests: Seq<T>) -> Seq<Seq<char>> {
    Seq::new(tests.len(), |i: int| tests[i].spec_name())
}

/// The view of the optional exact-match filter string.
pub open spec fn filter_view(filter: Option<&str>) -> Option<Seq<char>> {
    match filter {
        None => None,
        Some(f) => Some(f@),
    }
}

/// Takes the installed context out of `slot` — a fatal configuration error
/// if none was installed — then runs the registry `tests` in registry
/// order, restricted to the exactly matching descriptor when `filter` is
/// set. Each executed test is reported as `TestStarting`, run, then
/// reported as `TestPassed`, strictly sequentially, with no other test's
/// events between them; descriptors whose name equals the filter more than
/// once all run (duplicate names are a caller error that the registry does
/// not police). One `AllTestsComplete` follows every selected test's
/// events, and the terminal record of the run is handed back.
pub fn runner<T: Testable>(tests: &Vec<T>, filter: Option<&str>, slot: &mut ContextSlot) -> (r:
    Result<CompletedRun, FatalError>)
    requires
        forall|i: int| 0 <= i < tests@.len() ==> (#[trigger] tests@[i]).ready(),
        forall|i: int| 0 <= i < tests@.len() ==> name_fits((#[trigger] tests@[i]).spec_name()),
    ensures
        r is Ok <==> old(slot)@ is Some,
        final(slot)@ is None,
        r matches Ok(done) ==> (old(slot)@ matches Some(context) && done@ == context.events()
            + run_events(names_of(tests@), filter_view(filter))),
        r matches Err(e) ==> e == FatalError::ContextNotInstalled,
{
    let mut context = match slot.take_test_context() {
        Ok(c) => c,
        Err(e) => {
            return Err(e);
        },
    };
    let ghost base = context.events();
    let ghost names = names_of(tests@);
    let ghost fv = filter_view(filter);

    let mut i: usize = 0;
    while i < tests.len()
        invariant
            i <= tests@.len(),
            names == names_of(tests@),
            fv == filter_view(filter),
            forall|k: int| 0 <= k < tests@.len() ==> (#[trigger] tests@[k]).ready(),
            forall|k: int| 0 <= k < tests@.len() ==> name_fits((#[trigger] tests@[k]).spec_name()),
            context.events() == base + pair_events(selected_names(names.take(i as int), fv)),
        decreases tests@.len() - i,
    {
        let t = &tests[i];
        let name = t.name();
        let selected = match filter {
            None => true,
            Some(f) => str_eq(name, f),
        };
        proof {
            assert(names[i as int] == tests@[i as int].spec_name());
            assert(selected == selects(fv, names[i as int]));
            assert(names.take(i + 1 as int) =~= names.take(i as int).push(names[i as int]));
            lemma_selected_names_push(names.take(i as int), names[i as int], fv);
        }
        let ghost sel_before = selected_names(names.take(i as int), fv);
        if selected {
            context.report_test_starting(name);
            t.run();
            context.report_test_passed(name);
            proof {
                lemma_pair_events_push(sel_before, names[i as int]);
                assert(sel_before + seq![names[i as int]] =~= sel_before.push(names[i as int]));
                assert(selected_names(names.take(i + 1 as int), fv) == sel_before.push(
                    names[i as int],
                ));
                assert(name@ == names[i as int]);
                assert(context.events() =~= base + (pair_events(sel_before) + seq![
                    EventView::TestStarting(names[i as int]),
                    EventView::TestPassed(names[i as int]),
                ]));
                assert(context.events() == base + pair_events(
                    selected_names(names.take(i + 1 as int), fv),
                ));
            }
        } else {
            proof {
                assert(sel_before + Seq::<Seq<char>>::empty() =~= sel_before);
                assert(context.events() == base + pair_events(
                    selected_names(names.take(i + 1 as int), fv),
                ));
            }
        }
        i += 1;
    }
    proof {
        assert(names.take(tests@.len() as int) =~= names);
    }
    Ok(context.complete())
}

} // verus!
