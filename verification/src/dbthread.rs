//! The decisions of the database worker: which captured packets to store,
//! when to run a search, and where its results go.

use crate::model::{displayed_packets, KeyMode, Model, ModelView, Packet};
use crate::update::{key_press, update_spec, KeyCode};
use vstd::prelude::*;

verus! {

/// Takes every packet waiting to be stored, leaving none behind; `None` when
/// nothing waits.
pub fn take_pending(pending: &mut Vec<Packet>) -> (r: Option<Vec<Packet>>)
    ensures
        final(pending)@.len() == 0,
        old(pending)@.len() == 0 ==> r is None,
        old(pending)@.len() > 0 ==> (r matches Some(batch) && batch@ == old(pending)@),
{
    if pending.len() == 0 {
        None
    } else {
        let mut batch: Vec<Packet> = Vec::new();
        batch.append(pending);
        Some(batch)
    }
}

/// The query that the database worker takes from a model, and the model after
/// it is taken: while a search is active and the input is not empty, the
/// input is the query and is cleared.
pub open spec fn search_query_step(m: ModelView) -> (Option<Seq<char>>, ModelView) {
    if m.search_is_active && m.input.len() > 0 {
        (Some(m.input), ModelView { input: Seq::empty(), ..m })
    } else {
        (None, m)
    }
}

/// Takes the pending search query from the model (see `search_query_step`).
pub fn take_search_query(model: &mut Model) -> (r: Option<String>)
    ensures
        match r {
            Some(q) => search_query_step(old(model)@).0 == Some(q@),
            None => search_query_step(old(model)@).0 is None,
        },
        final(model)@ == search_query_step(old(model)@).1,
{
    if model.search_is_active && !model.input.as_str().is_empty() {
        let query = model.input.clone();
        model.input = String::new();
        Some(query)
    } else {
        None
    }
}

/// The ids of the stored documents to fetch after a search that counted
/// `count` hits: `0` up to `count - 1`, in order.
pub fn search_result_ids(count: usize) -> (r: Vec<u64>)
    ensures
        r@.len() == count,
        forall|i: int| 0 <= i < count ==> r@[i] == i,
{
    let mut ids: Vec<u64> = Vec::new();
    for id in 0..count
        invariant
            ids@.len() == id,
            forall|i: int| 0 <= i < id ==> ids@[i] == i,
    {
        ids.push(id as u64);
    }
    ids
}

/// Replaces the search results that the table shows.
pub fn show_search_results(model: &mut Model, results: Vec<Packet>)
    ensures
        final(model)@ == (ModelView { packets_to_draw: results@, ..old(model)@ }),
{
    model.packets_to_draw = results;
}

/// Submitting a non-empty search with Enter hands exactly the typed text to
/// the database worker once, and clears the input.
pub proof fn law_submitted_search_is_taken_once(m: ModelView)
    requires
        m.key_mode == KeyMode::Insert,
        m.input.len() > 0,
    ensures
        ({
            let submitted = update_spec(m, key_press(KeyCode::Enter));
            let (query, after) = search_query_step(submitted);
            &&& query == Some(m.input)
            &&& after.input.len() == 0
            &&& after.search_is_active
            &&& after.key_mode == KeyMode::Normal
            &&& search_query_step(after).0 is None
        }),
{
}

/// Enter on an empty input starts no search.
pub proof fn law_empty_input_starts_no_search(m: ModelView)
    requires
        m.key_mode == KeyMode::Insert,
        m.input.len() == 0,
    ensures
        update_spec(m, key_press(KeyCode::Enter)) == m,
        search_query_step(update_spec(m, key_press(KeyCode::Enter))).0 == search_query_step(m).0,
{
}

/// While a search is active, the table shows exactly the latest results.
pub proof fn law_results_are_shown(m: ModelView, results: Seq<Packet>)
    requires
        m.search_is_active,
    ensures
        displayed_packets(ModelView { packets_to_draw: results, ..m }) == Some(results),
{
}

/// A query is taken only from an active search with a non-empty input: then
/// it is the whole input and only the input is cleared; otherwise nothing is
/// taken and the model is left as it was (text still being typed, or typed
/// after a search ended, is never taken).
pub proof fn law_query_only_from_active_search(m: ModelView)
    ensures
        !m.search_is_active ==> search_query_step(m).0 is None && search_query_step(m).1 == m,
        m.input.len() == 0 ==> search_query_step(m).0 is None && search_query_step(m).1 == m,
        m.search_is_active && m.input.len() > 0 ==> search_query_step(m).0 == Some(m.input)
            && search_query_step(m).1 == (ModelView { input: Seq::empty(), ..m }),
{
}

/// Characters typed in insert mode outside a search are never taken as a query.
pub proof fn law_typing_is_not_a_query(m: ModelView, c: char)
    requires
        m.key_mode == KeyMode::Insert,
        !m.search_is_active,
    ensures
        search_query_step(update_spec(m, key_press(KeyCode::Char(c)))).0 is None,
        search_query_step(update_spec(m, key_press(KeyCode::Char(c)))).1 == update_spec(
            m,
            key_press(KeyCode::Char(c)),
        ),
{
}

} // verus!
