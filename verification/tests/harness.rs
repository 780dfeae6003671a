use fancy_test::runner;
use fancy_test::str_eq;
use fancy_test::ContextSlot;
use fancy_test::FatalError;
use fancy_test::Sender;
use fancy_test::TestContext;
use fancy_test::TestEvent;
use fancy_test::TestName;
use fancy_test::UnitTest;
use fancy_test::NAME_CAPACITY;

fn name(s: &str) -> TestName {
    TestName::new(s).unwrap()
}

fn starting(s: &str) -> TestEvent {
    TestEvent::TestStarting(name(s))
}

fn passed(s: &str) -> TestEvent {
    TestEvent::TestPassed(name(s))
}

fn noop() {}

fn installed_slot() -> ContextSlot {
    let mut slot = ContextSlot::new();
    slot.set_test_context(TestContext::new(0)).unwrap();
    slot
}

#[test]
fn unfiltered_run_emits_pairs_in_order_then_complete() {
    let tests: Vec<UnitTest<fn()>> = vec![
        UnitTest { name: "A", f: noop },
        UnitTest { name: "B", f: noop },
        UnitTest { name: "C", f: noop },
    ];
    let mut slot = installed_slot();
    let done = runner(&tests, None, &mut slot).unwrap();
    let expected = vec![
        starting("A"),
        passed("A"),
        starting("B"),
        passed("B"),
        starting("C"),
        passed("C"),
        TestEvent::AllTestsComplete,
    ];
    assert_eq!(done.events(), &expected);
    assert_eq!(done.events().len(), 2 * tests.len() + 1);
}

#[test]
fn unfiltered_empty_registry_still_completes() {
    let tests: Vec<UnitTest<fn()>> = vec![];
    let mut slot = installed_slot();
    let done = runner(&tests, None, &mut slot).unwrap();
    assert_eq!(done.events(), &vec![TestEvent::AllTestsComplete]);
}

#[test]
fn filter_selects_exactly_the_matching_test() {
    let tests: Vec<UnitTest<fn()>> = vec![
        UnitTest { name: "A", f: noop },
        UnitTest { name: "B", f: noop },
    ];
    let mut slot = installed_slot();
    let done = runner(&tests, Some("B"), &mut slot).unwrap();
    let expected = vec![starting("B"), passed("B"), TestEvent::AllTestsComplete];
    assert_eq!(done.events(), &expected);
}

#[test]
fn filter_matching_nothing_emits_only_complete() {
    let tests: Vec<UnitTest<fn()>> = vec![
        UnitTest { name: "A", f: noop },
        UnitTest { name: "B", f: noop },
    ];
    let mut slot = installed_slot();
    let done = runner(&tests, Some("zzz"), &mut slot).unwrap();
    assert_eq!(done.events(), &vec![TestEvent::AllTestsComplete]);
}

#[test]
fn filter_is_exact_not_a_prefix_match() {
    let tests: Vec<UnitTest<fn()>> = vec![
        UnitTest { name: "AB", f: noop },
        UnitTest { name: "ABC", f: noop },
    ];
    let mut slot = installed_slot();
    let done = runner(&tests, Some("A"), &mut slot).unwrap();
    assert_eq!(done.events(), &vec![TestEvent::AllTestsComplete]);
}

#[test]
fn duplicate_names_matching_the_filter_all_run() {
    // Duplicate descriptor names are a caller error that the registry does
    // not police: every exact match runs.
    let tests: Vec<UnitTest<fn()>> = vec![
        UnitTest { name: "A", f: noop },
        UnitTest { name: "A", f: noop },
    ];
    let mut slot = installed_slot();
    let done = runner(&tests, Some("A"), &mut slot).unwrap();
    let expected = vec![
        starting("A"),
        passed("A"),
        starting("A"),
        passed("A"),
        TestEvent::AllTestsComplete,
    ];
    assert_eq!(done.events(), &expected);
}

#[test]
fn every_selected_body_runs_exactly_once() {
    let counter = std::cell::Cell::new(0u32);
    let body = || counter.set(counter.get() + 1);
    let tests: Vec<UnitTest<&dyn Fn()>> = vec![
        UnitTest { name: "A", f: &body },
        UnitTest { name: "B", f: &body },
        UnitTest { name: "C", f: &body },
    ];
    let mut slot = installed_slot();
    runner(&tests, None, &mut slot).unwrap();
    assert_eq!(counter.get(), 3);
}

#[test]
fn filtered_out_bodies_do_not_run() {
    let counter = std::cell::Cell::new(0u32);
    let body = || counter.set(counter.get() + 1);
    let tests: Vec<UnitTest<&dyn Fn()>> = vec![
        UnitTest { name: "A", f: &body },
        UnitTest { name: "B", f: &body },
    ];
    let mut slot = installed_slot();
    runner(&tests, Some("B"), &mut slot).unwrap();
    assert_eq!(counter.get(), 1);
}

#[test]
fn runner_without_installed_context_fails_fatally() {
    let tests: Vec<UnitTest<fn()>> = vec![UnitTest { name: "A", f: noop }];
    let mut slot = ContextSlot::new();
    let r = runner(&tests, None, &mut slot);
    assert_eq!(r.unwrap_err(), FatalError::ContextNotInstalled);
}

#[test]
fn installing_twice_without_a_take_fails_fatally() {
    let mut slot = ContextSlot::new();
    slot.set_test_context(TestContext::new(1)).unwrap();
    let second = slot.set_test_context(TestContext::new(2));
    assert_eq!(second.unwrap_err(), FatalError::ContextAlreadyInstalled);
}

#[test]
fn taking_twice_without_a_new_install_fails_fatally() {
    let mut slot = ContextSlot::new();
    slot.set_test_context(TestContext::new(1)).unwrap();
    let first = slot.take_test_context();
    assert!(first.is_ok());
    assert_eq!(first.unwrap().x, 1);
    let second = slot.take_test_context();
    assert_eq!(second.unwrap_err(), FatalError::ContextNotInstalled);
}

#[test]
fn install_after_take_succeeds_again() {
    let mut slot = ContextSlot::new();
    slot.set_test_context(TestContext::new(1)).unwrap();
    slot.take_test_context().unwrap();
    assert!(slot.set_test_context(TestContext::new(2)).is_ok());
}

#[test]
fn name_at_the_bound_round_trips() {
    let text = "a".repeat(NAME_CAPACITY);
    let n = TestName::new(&text).unwrap();
    assert_eq!(n.as_str(), text);
}

#[test]
fn name_over_the_bound_fails_fatally() {
    let text = "a".repeat(NAME_CAPACITY + 1);
    let r = TestName::new(&text);
    assert_eq!(r.unwrap_err(), FatalError::NameTooLong);
}

#[test]
fn name_bound_counts_bytes_not_characters() {
    // A two-byte character: 64 of them fill the capacity exactly, 65 exceed
    // it although the character count stays far under the bound.
    let fits = "\u{e9}".repeat(NAME_CAPACITY / 2);
    assert_eq!(TestName::new(&fits).unwrap().as_str(), fits);
    let overflows = "\u{e9}".repeat(NAME_CAPACITY / 2 + 1);
    assert_eq!(TestName::new(&overflows).unwrap_err(), FatalError::NameTooLong);
}

#[test]
fn name_round_trips_ordinary_text() {
    let n = TestName::new("suite::case_one").unwrap();
    assert_eq!(n.as_str(), "suite::case_one");
    assert_eq!(name("x"), name("x"));
    assert!(name("x") != name("y"));
}

#[test]
fn events_compare_by_shape_and_name() {
    assert_eq!(starting("A"), starting("A"));
    assert!(starting("A") != starting("B"));
    assert!(starting("A") != passed("A"));
    assert_eq!(TestEvent::AllTestsComplete, TestEvent::AllTestsComplete);
    assert!(passed("A") != TestEvent::AllTestsComplete);
}

#[test]
fn str_eq_is_exact_text_equality() {
    assert!(str_eq("", ""));
    assert!(str_eq("abc", "abc"));
    assert!(!str_eq("abc", "abd"));
    assert!(!str_eq("abc", "ab"));
    assert!(str_eq("h\u{e9}llo", "h\u{e9}llo"));
    assert!(!str_eq("h\u{e9}llo", "hello"));
}

#[test]
fn sender_records_events_in_order() {
    let mut sender = Sender::new();
    assert!(sender.events().is_empty());
    sender.blocking_send(starting("A"));
    sender.blocking_send(passed("A"));
    assert_eq!(sender.events(), &vec![starting("A"), passed("A")]);
}

#[test]
fn aborted_run_leaves_exactly_the_truncated_stream() {
    // Registry [t1, t2, t3]: the harness reports t1's pair, then t2's
    // Starting; t2's body then aborts the whole context, so nothing further
    // is ever reported — the supervisor has observed exactly the prefix.
    let mut context = TestContext::new(0);
    context.report_test_starting("t1");
    context.report_test_passed("t1");
    context.report_test_starting("t2");
    let observed = context.test_event_sender.events();
    let expected = vec![starting("t1"), passed("t1"), starting("t2")];
    assert_eq!(observed, &expected);
}

#[test]
fn complete_appends_exactly_one_terminal_event() {
    let mut context = TestContext::new(0);
    context.report_test_starting("t1");
    context.report_test_passed("t1");
    let done = context.complete();
    let expected = vec![starting("t1"), passed("t1"), TestEvent::AllTestsComplete];
    assert_eq!(done.events(), &expected);
}
