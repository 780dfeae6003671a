//! A minimal test-orchestration harness for processes that run inside an
//! isolated execution context of a capability-based microkernel, where no
//! conventional process model (stdout, exit codes, dynamic loading) exists.
//!
//! The harness collects a statically known, ordered registry of test cases,
//! runs them sequentially, and reports each test's lifecycle to a supervising
//! process over a one-directional typed message channel: `TestStarting` and
//! `TestPassed` per executed test, then a single `AllTestsComplete`, after
//! which the context goes idle forever (it cannot terminate itself).

mod context;
mod errors;
mod event;
mod protocol;
mod runner;
mod test_name;

pub use context::CompletedRun;
pub use context::ContextSlot;
pub use context::Sender;
pub use context::TestContext;
pub use errors::FatalError;
pub use event::EventView;
pub use event::TestEvent;
pub use protocol::lemma_aborted_run_prefix;
pub use protocol::lemma_pair_events_push;
pub use protocol::lemma_pair_events_shape;
pub use protocol::lemma_run_events_no_match;
pub use protocol::lemma_run_events_unfiltered;
pub use protocol::lemma_run_events_unique_filter;
pub use protocol::lemma_selected_names_no_filter;
pub use protocol::lemma_selected_names_no_match;
pub use protocol::lemma_selected_names_push;
pub use protocol::lemma_selected_names_unique_match;
pub use protocol::pair_events;
pub use protocol::run_events;
pub use protocol::selected_names;
pub use protocol::selects;
pub use runner::filter_view;
pub use runner::lemma_unit_test_entry;
pub use runner::names_of;
pub use runner::runner;
pub use runner::Testable;
pub use runner::UnitTest;
pub use test_name::name_fits;
pub use test_name::str_eq;
pub use test_name::TestName;
pub use test_name::NAME_CAPACITY;
