use vstd::prelude::*;

use crate::event::EventView;

verus! {

/// Whether `filter` selects a test called `name`: no filter selects every
/// test; a filter selects exactly the tests whose name equals it.
pub open spec fn selects(filter: Option<Seq<char>>, name: Seq<char>) -> bool {
    match filter {
        None => true,
        Some(f) => name == f,
    }
}

/// The names among `names` that `filter` selects, in registry order.
pub open spec fn selected_names(names: Seq<Seq<char>>, filter: Option<Seq<char>>) -> Seq<
    Seq<char>,
>
    decreases names.len(),
{
    if names.len() == 0 {
        Seq::empty()
    } else if selects(filter, names.first()) {
        seq![names.first()] + selected_names(names.drop_first(), filter)
    } else {
        selected_names(names.drop_first(), filter)
    }
}

/// The (Starting, Passed) pair stream emitted for the executed names
/// `names`, in order.
pub open spec fn pair_events(names: Seq<Seq<char>>) -> Seq<EventView>
    decreases names.len(),
{
    if names.len() == 0 {
        Seq::empty()
    } else {
        seq![
            EventView::TestStarting(names.first()),
            EventView::TestPassed(names.first()),
        ] + pair_events(names.drop_first())
    }
}

/// The full event sequence of a run over the registry names `names` with
/// the optional exact-match `filter`: one (Starting, Passed) pair per
/// selected name, in registry order, then exactly one `AllTestsComplete`.
pub open spec fn run_events(names: Seq<Seq<char>>, filter: Option<Seq<char>>) -> Seq<EventView> {
    pair_events(selected_names(names, filter)).push(EventView::AllTestsComplete)
}

/// `selected_names` over a snoc: the last name is kept exactly when the
/// filter selects it.
pub proof fn lemma_selected_names_push(
    names: Seq<Seq<char>>,
    name: Seq<char>,
    filter: Option<Seq<char>>,
)
    ensures
        selected_names(names.push(name), filter) == selected_names(names, filter) + (
        if selects(filter, name) {
            seq![name]
        } else {
            Seq::<Seq<char>>::empty()
        }),
    decreases names.len(),
{
    let tail = if selects(filter, name) {
        seq![name]
    } else {
        Seq::<Seq<char>>::empty()
    };
    if names.len() == 0 {
        reveal_with_fuel(selected_names, 2);
        assert(names.push(name).drop_first() =~= Seq::<Seq<char>>::empty());
        assert(names.push(name).first() == name);
        assert(selected_names(names.push(name), filter) =~= selected_names(names, filter) + tail);
    } else {
        assert(names.push(name).drop_first() =~= names.drop_first().push(name));
        assert(names.push(name).first() == names.first());
        lemma_selected_names_push(names.drop_first(), name, filter);
        assert(selected_names(names.push(name), filter) =~= selected_names(names, filter) + tail);
    }
}

/// `pair_events` over a snoc: the pair of the last executed name comes last.
pub proof fn lemma_pair_events_push(names: Seq<Seq<char>>, name: Seq<char>)
    ensures
        pair_events(names.push(name)) == pair_events(names) + seq![
            EventView::TestStarting(name),
            EventView::TestPassed(name),
        ],
    decreases names.len(),
{
    let pair = seq![EventView::TestStarting(name), EventView::TestPassed(name)];
    if names.len() == 0 {
        reveal_with_fuel(pair_events, 2);
        assert(names.push(name).drop_first() =~= Seq::<Seq<char>>::empty());
        assert(names.push(name).first() == name);
        assert(pair_events(names.push(name)) =~= pair_events(names) + pair);
    } else {
        assert(names.push(name).drop_first() =~= names.drop_first().push(name));
        assert(names.push(name).first() == names.first());
        lemma_pair_events_push(names.drop_first(), name);
        assert(pair_events(names.push(name)) =~= pair_events(names) + pair);
    }
}

/// With no filter set, every name is selected, in registry order.
pub proof fn lemma_selected_names_no_filter(names: Seq<Seq<char>>)
    ensures
        selected_names(names, None) == names,
    decreases names.len(),
{
    if names.len() == 0 {
        assert(selected_names(names, None) =~= names);
    } else {
        lemma_selected_names_no_filter(names.drop_first());
        assert(selected_names(names, None) =~= names);
    }
}

/// A filter that matches no name selects nothing.
pub proof fn lemma_selected_names_no_match(names: Seq<Seq<char>>, filter: Seq<char>)
    requires
        forall|i: int| 0 <= i < names.len() ==> names[i] != filter,
    ensures
        selected_names(names, Some(filter)) == Seq::<Seq<char>>::empty(),
    decreases names.len(),
{
    if names.len() == 0 {
    } else {
        assert(names[0] != filter);
        assert(forall|i: int|
            0 <= i < names.drop_first().len() ==> names.drop_first()[i] == names[i + 1]);
        lemma_selected_names_no_match(names.drop_first(), filter);
    }
}

/// A filter that matches exactly the name at position `j` selects exactly
/// that one name.
pub proof fn lemma_selected_names_unique_match(names: Seq<Seq<char>>, filter: Seq<char>, j: int)
    requires
        0 <= j < names.len(),
        names[j] == filter,
        forall|i: int| 0 <= i < names.len() && i != j ==> names[i] != filter,
    ensures
        selected_names(names, Some(filter)) == seq![filter],
    decreases names.len(),
{
    if j == 0 {
        assert(names.first() == filter);
        assert(forall|i: int|
            0 <= i < names.drop_first().len() ==> names.drop_first()[i] == names[i + 1]);
        lemma_selected_names_no_match(names.drop_first(), filter);
        assert(selected_names(names, Some(filter)) =~= seq![filter]);
    } else {
        assert(names.first() != filter);
        assert(forall|i: int|
            0 <= i < names.drop_first().len() ==> names.drop_first()[i] == names[i + 1]);
        lemma_selected_names_unique_match(names.drop_first(), filter, j - 1);
    }
}

/// The pair stream of `names` holds two events per name: at each even
/// offset the `Starting` event of the name at half that offset, at each odd
/// offset the matching `Passed` event.
pub proof fn lemma_pair_events_shape(names: Seq<Seq<char>>)
    ensures
        pair_events(names).len() == 2 * names.len(),
        forall|j: int|
            0 <= j < 2 * names.len() ==> #[trigger] pair_events(names)[j] == (if j % 2 == 0 {
                EventView::TestStarting(names[j / 2])
            } else {
                EventView::TestPassed(names[j / 2])
            }),
    decreases names.len(),
{
    if names.len() == 0 {
    } else {
        lemma_pair_events_shape(names.drop_first());
        assert forall|j: int| 0 <= j < 2 * names.len() implies #[trigger] pair_events(names)[j]
            == (if j % 2 == 0 {
            EventView::TestStarting(names[j / 2])
        } else {
            EventView::TestPassed(names[j / 2])
        }) by {
            if j >= 2 {
                assert(pair_events(names)[j] == pair_events(names.drop_first())[j - 2]);
                assert((j - 2) % 2 == j % 2);
                assert((j - 2) / 2 == j / 2 - 1);
                assert(names.drop_first()[j / 2 - 1] == names[j / 2]);
            }
        }
    }
}

/// For every registry with no filter set, the emitted event sequence has
/// length `2 * N + 1`, where `N` is the number of descriptors: the `N`
/// (Starting, Passed) pairs in registry order, then one `AllTestsComplete`.
pub proof fn lemma_run_events_unfiltered(names: Seq<Seq<char>>)
    ensures
        run_events(names, None).len() == 2 * names.len() + 1,
        forall|j: int|
            0 <= j < 2 * names.len() ==> #[trigger] run_events(names, None)[j] == (if j % 2 == 0 {
                EventView::TestStarting(names[j / 2])
            } else {
                EventView::TestPassed(names[j / 2])
            }),
        run_events(names, None)[2 * names.len() as int] == EventView::AllTestsComplete,
{
    lemma_selected_names_no_filter(names);
    lemma_pair_events_shape(names);
}

/// For a filter equal to exactly one descriptor's name, the run emits
/// exactly that descriptor's (Starting, Passed) pair and one
/// `AllTestsComplete`; no other descriptor produces any event.
pub proof fn lemma_run_events_unique_filter(names: Seq<Seq<char>>, filter: Seq<char>, j: int)
    requires
        0 <= j < names.len(),
        names[j] == filter,
        forall|i: int| 0 <= i < names.len() && i != j ==> names[i] != filter,
    ensures
        run_events(names, Some(filter)) == seq![
            EventView::TestStarting(filter),
            EventView::TestPassed(filter),
            EventView::AllTestsComplete,
        ],
{
    lemma_selected_names_unique_match(names, filter, j);
    reveal_with_fuel(pair_events, 2);
    assert(seq![filter].drop_first() =~= Seq::<Seq<char>>::empty());
    assert(run_events(names, Some(filter)) =~= seq![
        EventView::TestStarting(filter),
        EventView::TestPassed(filter),
        EventView::AllTestsComplete,
    ]);
}

/// For a filter matching no descriptor's name, the run emits no
/// (Starting, Passed) pair and still exactly one `AllTestsComplete`.
pub proof fn lemma_run_events_no_match(names: Seq<Seq<char>>, filter: Seq<char>)
    requires
        forall|i: int| 0 <= i < names.len() ==> names[i] != filter,
    ensures
        run_events(names, Some(filter)) == seq![EventView::AllTestsComplete],
{
    lemma_selected_names_no_match(names, filter);
    assert(run_events(names, Some(filter)) =~= seq![EventView::AllTestsComplete]);
}

/// When the body of the selected test at position `k` (in selection order)
/// aborts the whole context, the supervisor has observed exactly the pairs
/// of the first `k` selected tests followed by that test's `Starting` event
/// — precisely the prefix of length `2 * k + 1` of the full run's event
/// sequence — and nothing further is ever emitted.
pub proof fn lemma_aborted_run_prefix(names: Seq<Seq<char>>, filter: Option<Seq<char>>, k: int)
    requires
        0 <= k < selected_names(names, filter).len(),
    ensures
        pair_events(selected_names(names, filter).take(k)).push(
            EventView::TestStarting(selected_names(names, filter)[k]),
        ) == run_events(names, filter).take(2 * k + 1),
{
    let sel = selected_names(names, filter);
    lemma_pair_events_shape(sel);
    lemma_pair_events_shape(sel.take(k));
    assert(run_events(names, filter).take(2 * k + 1) =~= pair_events(sel).take(2 * k + 1));
    assert(pair_events(sel.take(k)).push(EventView::TestStarting(sel[k])) =~= pair_events(
        sel,
    ).take(2 * k + 1));
}

} // verus!
