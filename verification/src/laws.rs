//! What holds of every run of the coordinator, proved over the state
//! machine of `state`.

use crate::render::Panes;
use crate::state::{
    frame_step, initial_state, key_step, message_step, queue_step, render_step, results_step,
    thumbnail_step, AppState, CommandView, Focus, Key, MessageView, ThumbnailFileView,
};
use crate::text::trimmed;
use crate::video::VideoView;
use vstd::prelude::*;

verus! {

/// The command orders the thumbnail of result `index`.
pub open spec fn fetches(command: CommandView, index: nat) -> bool {
    command matches CommandView::FetchThumbnail { index: i, .. } && i == index
}

/// The state after the keys `keys`, pressed in order.
pub open spec fn after_keys(s: AppState, keys: Seq<Key>) -> AppState
    decreases keys.len(),
{
    if keys.len() == 0 {
        s
    } else {
        key_step(after_keys(s, keys.drop_last()), keys.last()).0
    }
}

/// The command that the last of the keys `keys` causes.
pub open spec fn last_command(s: AppState, keys: Seq<Key>) -> CommandView
    recommends
        keys.len() > 0,
{
    key_step(after_keys(s, keys.drop_last()), keys.last()).1
}

/// The state at start is well-formed.
pub proof fn lemma_initial_state_wf()
    ensures
        initial_state().wf(),
{
}

/// Ordering a thumbnail keeps the state well-formed.
pub proof fn lemma_queue_step_wf(s: AppState, index: nat)
    requires
        s.wf(),
    ensures
        queue_step(s, index).0.wf(),
{
}

/// Every key keeps the state well-formed.
pub proof fn lemma_key_step_wf(s: AppState, key: Key)
    requires
        s.wf(),
    ensures
        key_step(s, key).0.wf(),
{
}

/// Every message keeps the state well-formed.
pub proof fn lemma_message_step_wf(s: AppState, message: MessageView)
    requires
        s.wf(),
    ensures
        message_step(s, message).0.wf(),
{
}

/// Planning and drawing a frame keep the state well-formed, and change
/// nothing but the planned thumbnail area and the memory of the guard.
pub proof fn lemma_frame_keeps_state(s: AppState, panes: Panes)
    requires
        s.wf(),
    ensures
        frame_step(s, panes).0.wf(),
        render_step(s).0.wf(),
        frame_step(s, panes).0 == (AppState { thumb_area: frame_step(s, panes).0.thumb_area, ..s }),
        render_step(s).0 == (AppState { last_thumb: render_step(s).0.last_thumb, ..s }),
{
}

/// During query entry with no results, Down changes nothing and orders
/// nothing.
pub proof fn lemma_down_without_results(s: AppState)
    requires
        s.focus == Focus::Search,
        s.results.len() == 0,
    ensures
        key_step(s, Key::Down) == (s, CommandView::Nothing),
{
}

/// While the first result is selected, Up goes back to query entry; the
/// selection and everything else stay as they are.
pub proof fn lemma_up_at_top(s: AppState)
    requires
        s.focus == Focus::Results,
        s.selected == 0,
    ensures
        key_step(s, Key::Up) == (AppState { focus: Focus::Search, ..s }, CommandView::Nothing),
{
}

/// A thumbnail is ordered only for a result of the batch on show that
/// names a thumbnail, has no file and was not waiting; the order carries
/// that result's address, and from then on the result is waiting.
pub proof fn lemma_fetch_marks_waiting(s: AppState, key: Key, index: nat)
    requires
        s.wf(),
        fetches(key_step(s, key).1, index),
    ensures
        index < s.results.len(),
        s.results[index as int].thumbnail_path is None,
        !s.results[index as int].thumbnail_loading,
        key_step(s, key).1 == (CommandView::FetchThumbnail {
            generation: s.generation,
            index,
            url: s.results[index as int].thumbnail_url->0,
        }),
        key_step(s, key).0.results.len() == s.results.len(),
        key_step(s, key).0.results[index as int].thumbnail_loading,
{
}

/// No key changes the result list, except that one result may start to
/// wait for its thumbnail: files, sizes and waiting marks stay.
pub proof fn lemma_keys_keep_results(s: AppState, key: Key, index: nat)
    requires
        s.wf(),
        index < s.results.len(),
    ensures
        key_step(s, key).0.results.len() == s.results.len(),
        key_step(s, key).0.generation == s.generation,
        key_step(s, key).0.results[index as int] == s.results[index as int] || key_step(
            s,
            key,
        ).0.results[index as int] == (VideoView {
            thumbnail_loading: true,
            ..s.results[index as int]
        }),
        s.results[index as int].thumbnail_loading ==> key_step(
            s,
            key,
        ).0.results[index as int].thumbnail_loading,
{
}

/// While a result waits for its thumbnail, or has it, no sequence of keys
/// orders it again, however often the selection comes back to it.
pub proof fn lemma_no_duplicate_fetch(s: AppState, keys: Seq<Key>, index: nat)
    requires
        s.wf(),
        index < s.results.len(),
        s.results[index as int].thumbnail_loading || s.results[index as int].thumbnail_path
            is Some,
        keys.len() > 0,
    ensures
        !fetches(last_command(s, keys), index),
        after_keys(s, keys).wf(),
        after_keys(s, keys).results.len() == s.results.len(),
        after_keys(s, keys).results[index as int].thumbnail_loading || after_keys(
            s,
            keys,
        ).results[index as int].thumbnail_path is Some,
    decreases keys.len(),
{
    let before = after_keys(s, keys.drop_last());
    if keys.len() > 1 {
        lemma_no_duplicate_fetch(s, keys.drop_last(), index);
    }
    lemma_key_step_wf(before, keys.last());
    lemma_keys_keep_results(before, keys.last(), index);
    if fetches(key_step(before, keys.last()).1, index) {
        lemma_fetch_marks_waiting(before, keys.last(), index);
    }
}

/// Two keys in a row never order the same thumbnail twice.
pub proof fn lemma_fetch_not_repeated(s: AppState, first: Key, second: Key, index: nat)
    requires
        s.wf(),
        fetches(key_step(s, first).1, index),
    ensures
        !fetches(key_step(key_step(s, first).0, second).1, index),
{
    lemma_fetch_marks_waiting(s, first, index);
    lemma_key_step_wf(s, first);
    let next = key_step(s, first).0;
    if fetches(key_step(next, second).1, index) {
        lemma_fetch_marks_waiting(next, second, index);
    }
}

/// A search is started only from query entry, only while none is under
/// way, and for the query without the white space around it, which is
/// not empty.
pub proof fn lemma_search_query(s: AppState, key: Key)
    requires
        key_step(s, key).1 is Search,
    ensures
        key == Key::Enter,
        s.focus == Focus::Search,
        !s.searching,
        key_step(s, key).0.searching,
        key_step(s, key).1 == (CommandView::Search { query: trimmed(s.query) }),
        trimmed(s.query).len() > 0,
{
}

/// While a search is under way no key starts another one.
pub proof fn lemma_single_search(s: AppState, key: Key)
    requires
        s.searching,
    ensures
        !(key_step(s, key).1 is Search),
        key_step(s, key).0.searching,
{
}

/// A report for another batch than the one on show, or for an index
/// outside it, changes nothing.
pub proof fn lemma_stale_report_dropped(
    s: AppState,
    generation: u64,
    index: nat,
    result: Result<ThumbnailFileView, Seq<char>>,
)
    requires
        generation != s.generation || index >= s.results.len(),
    ensures
        message_step(s, MessageView::Thumbnail { generation, index, result }) == (
            s,
            CommandView::Nothing,
        ),
{
}

/// Once a search has replaced the results, the report of a thumbnail task
/// that was ordered for the batch before is dropped: it cannot touch the
/// new results.
pub proof fn lemma_superseded_report_dropped(
    s: AppState,
    list: Seq<VideoView>,
    index: nat,
    result: Result<ThumbnailFileView, Seq<char>>,
)
    ensures
        results_step(s, list).0.generation != s.generation,
        thumbnail_step(results_step(s, list).0, s.generation, index, result) == results_step(
            s,
            list,
        ).0,
{
}

/// A new batch shows its first result, browsed if there is one, and the
/// only thumbnail it orders is that of the first result.
pub proof fn lemma_new_batch(s: AppState, list: Seq<VideoView>)
    requires
        s.wf(),
    ensures
        results_step(s, list).0.selected == 0,
        !results_step(s, list).0.searching,
        results_step(s, list).0.results.len() == list.len(),
        results_step(s, list).0.focus == if list.len() > 0 {
            Focus::Results
        } else {
            Focus::Search
        },
        results_step(s, list).1 is Nothing || fetches(results_step(s, list).1, 0),
        results_step(s, list).0.wf(),
{
}

/// A thumbnail report never takes a file away: a result that has a file
/// has one afterwards, and the report's result no longer waits.
pub proof fn lemma_report_keeps_files(
    s: AppState,
    generation: u64,
    index: nat,
    result: Result<ThumbnailFileView, Seq<char>>,
    other: nat,
)
    requires
        other < s.results.len(),
    ensures
        thumbnail_step(s, generation, index, result).results.len() == s.results.len(),
        s.results[other as int].thumbnail_path is Some ==> thumbnail_step(
            s,
            generation,
            index,
            result,
        ).results[other as int].thumbnail_path is Some,
        other != index ==> thumbnail_step(s, generation, index, result).results[other as int]
            == s.results[other as int],
        generation == s.generation && other == index ==> !thumbnail_step(
            s,
            generation,
            index,
            result,
        ).results[other as int].thumbnail_loading,
{
}

/// Drawing twice without a change in between draws once: the second call
/// asks for nothing and leaves the state as it is.
pub proof fn lemma_second_render_skipped(s: AppState)
    ensures
        render_step(render_step(s).0) == (render_step(s).0, None::<crate::render::BlitRequestView>),
{
}

} // verus!
