//! What holds of the cache and of the synchronisation engine, whatever the
//! host replies.

use crate::common::fetch::{
    asked, fetch_next, fetches_in, lemma_one_refresh_one_retry, refreshes_in, status_of, Fetch,
    FetchPhase, FetchedView, Target,
};
use crate::common::tasks::{
    get_all_tasks_next, get_tasks_by_list_id_next, get_tasks_lists_next, lists_url, merged,
    position_of, prioritized, sync_next, tasks_from, tasks_url, GoogleTasksView, Stage,
    TasksListView, TasksListsView, TasksView, Walk,
};
use crate::common::Priority;
use crate::error::Error;
use crate::host::{no_restart, outcome_of, Outcome, ReplyView, RequestView, StepView};
use vstd::prelude::*;

verus! {

/// `position_of` finds the first list with the identifier, and only that.
pub proof fn lemma_position_of(items: Seq<TasksListView>, list_id: Seq<char>)
    ensures
        0 <= position_of(items, list_id) <= items.len(),
        position_of(items, list_id) < items.len() ==> items[position_of(items, list_id)].id
            == list_id,
        forall|i: int| 0 <= i < position_of(items, list_id) ==> (#[trigger] items[i]).id != list_id,
    decreases items.len(),
{
    if items.len() > 0 && items[0].id != list_id {
        let rest = items.drop_first();
        lemma_position_of(rest, list_id);
        assert forall|i: int| 0 <= i < position_of(items, list_id) implies (#[trigger] items[i]).id
            != list_id by {
            if i > 0 {
                assert(items[i] == rest[i - 1]);
            }
        }
    }
}

/// Merging the tasks of one list leaves every list with another identifier
/// exactly as it was, and keeps the number and the order of the lists.
pub proof fn lemma_merge_keeps_other_lists(
    cache: TasksListsView,
    list_id: Seq<char>,
    tasks: Seq<TasksView>,
)
    ensures
        merged(cache, list_id, tasks).len() == cache.len(),
        merged(cache, list_id, tasks).kind == cache.kind,
        merged(cache, list_id, tasks).etag == cache.etag,
        cache.items is None ==> merged(cache, list_id, tasks) == cache,
        forall|i: int|
            0 <= i < cache.len() && cache.items->0[i].id != list_id ==> (#[trigger] merged(
                cache,
                list_id,
                tasks,
            ).items->0[i]) == cache.items->0[i],
        forall|i: int|
            0 <= i < cache.len() ==> (#[trigger] merged(cache, list_id, tasks).items->0[i]).id
                == cache.items->0[i].id,
{
    if let Some(items) = cache.items {
        lemma_position_of(items, list_id);
    }
}

/// After a merge the first list with the identifier holds exactly the merged
/// tasks, each with the priority of its title.
pub proof fn lemma_merge_fills_the_list(
    cache: TasksListsView,
    list_id: Seq<char>,
    tasks: Seq<TasksView>,
)
    requires
        cache.items is Some,
        position_of(cache.items->0, list_id) < cache.items->0.len(),
    ensures
        merged(cache, list_id, tasks).items->0[position_of(cache.items->0, list_id)].tasks == Some(
            prioritized(tasks),
        ),
        prioritized(tasks).len() == tasks.len(),
        forall|k: int|
            0 <= k < tasks.len() ==> (#[trigger] prioritized(tasks)[k]).priority == Some(
                Priority::of_title(tasks[k].title),
            ) && prioritized(tasks)[k].title == tasks[k].title,
{
    lemma_position_of(cache.items->0, list_id);
}

/// The start of every operation of the engine asks for the stored tokens,
/// unless there is nothing to do at all.
pub proof fn lemma_begin_asks_for_credentials(pre: GoogleTasksView, list_id: Seq<char>)
    ensures
        get_tasks_lists_next(pre, ReplyView::Begin).1 == StepView::<TasksListsView>::Ask(
            RequestView::ReadCredentials,
        ),
        get_tasks_by_list_id_next(pre, list_id, ReplyView::Begin).1 == StepView::<
            TasksListsView,
        >::Ask(RequestView::ReadCredentials),
        get_tasks_lists_next(pre, ReplyView::Begin).0.task_lists == pre.task_lists,
        get_tasks_by_list_id_next(pre, list_id, ReplyView::Begin).0.task_lists == pre.task_lists,
        get_tasks_lists_next(pre, ReplyView::Begin).0.synced == pre.synced,
        get_tasks_by_list_id_next(pre, list_id, ReplyView::Begin).0.synced == pre.synced,
{
}

/// Fetching the tasks of one list changes, of the cached lists, the tasks of
/// the lists with that identifier at most: every other list, the number of
/// lists and their identifiers stay as they are, whatever the host replies,
/// as long as the collection itself is not fetched anew.
pub proof fn lemma_fetch_keeps_other_lists(
    pre: GoogleTasksView,
    list_id: Seq<char>,
    reply: ReplyView,
)
    requires
        pre.stage == Stage::Fetching || (reply is Begin && pre.synced),
    ensures
        ({
            let post = get_tasks_by_list_id_next(pre, list_id, reply).0;
            &&& post.task_lists.len() == pre.task_lists.len()
            &&& post.synced == pre.synced
            &&& forall|i: int|
                0 <= i < pre.task_lists.len() ==> (#[trigger] post.task_lists.items->0[i]).id
                    == pre.task_lists.items->0[i].id
            &&& forall|i: int|
                0 <= i < pre.task_lists.len() && pre.task_lists.items->0[i].id != list_id ==> (
                #[trigger] post.task_lists.items->0[i]) == pre.task_lists.items->0[i]
        }),
{
    if !(reply is Begin) {
        let next = fetch_next(pre.tasks_fetch, pre.auth, Target::Tasks, tasks_url(list_id), reply);
        if let FetchedView::Answer(answer) = next.2 {
            if let Some(tasks) = tasks_from(answer) {
                lemma_merge_keeps_other_lists(pre.task_lists, list_id, tasks);
            }
        }
    }
}

/// A list whose tasks the task API does not deliver does not stop the walk:
/// the cache stays as it is and the walk turns to the next list, or ends
/// with the cache where that was the last one.
pub proof fn lemma_failure_is_isolated(pre: GoogleTasksView, at: usize, reply: ReplyView)
    requires
        pre.walk == Walk::At(at),
        at < pre.task_lists.len() <= usize::MAX,
        pre.stage == Stage::Fetching,
        pre.tasks_fetch.phase == FetchPhase::AwaitingAnswer,
        reply is Tasks,
        outcome_of(status_of(reply)) == Outcome::Other,
    ensures
        ({
            let next = get_all_tasks_next(pre, reply);
            &&& next.0.task_lists == pre.task_lists
            &&& at + 1 < pre.task_lists.len() ==> next.0.walk == Walk::At((at + 1) as usize)
                && next.1 == StepView::<TasksListsView>::Ask(RequestView::ReadCredentials)
            &&& at + 1 == pre.task_lists.len() ==> next.0.walk == Walk::Idle && next.1
                == StepView::Done(pre.task_lists)
        }),
{
    let inner = get_tasks_by_list_id_next(pre, pre.id_at(at as int), reply);
    assert(tasks_from(reply) is None);
    assert(inner.1 == StepView::Done(pre.task_lists));
    lemma_begin_asks_for_credentials(inner.0, inner.0.id_at(at + 1));
}

/// The first synchronisation happens once: an engine whose cache holds a
/// delivered collection has nothing to do and asks nothing of the host; any
/// other engine starts the fetch of the collection.
pub proof fn lemma_sync_is_lazy(pre: GoogleTasksView)
    ensures
        pre.synced ==> sync_next(pre, ReplyView::Begin) == (pre, StepView::Done(())),
        !pre.synced ==> sync_next(pre, ReplyView::Begin).1 == StepView::<()>::Ask(
            RequestView::ReadCredentials,
        ),
{
}

/// The requests that the fetch of the collection asks of the host while it
/// is fed `replies`, up to the step that ends it.
pub open spec fn lists_asked(pre: GoogleTasksView, replies: Seq<ReplyView>) -> Seq<RequestView>
    decreases replies.len(),
{
    if replies.len() == 0 {
        Seq::empty()
    } else {
        let next = get_tasks_lists_next(pre, replies[0]);
        match next.1 {
            StepView::Ask(request) => seq![request] + lists_asked(next.0, replies.drop_first()),
            _ => Seq::empty(),
        }
    }
}

/// The fetch of the collection asks what its authorized fetch asks.
pub proof fn lemma_lists_asked(pre: GoogleTasksView, replies: Seq<ReplyView>)
    ensures
        lists_asked(pre, replies) == asked(
            pre.lists_fetch,
            pre.auth,
            Target::Lists,
            lists_url(),
            replies,
        ),
    decreases replies.len(),
{
    if replies.len() > 0 {
        let next = get_tasks_lists_next(pre, replies[0]);
        lemma_lists_asked(next.0, replies.drop_first());
    }
}

/// The retry budget of the fetch of the collection: one call sends at most
/// two requests to the task API and asks for at most one refresh, whatever
/// the host replies.  A 401 to the first request is the only way to the
/// second.
pub proof fn lemma_get_tasks_lists_budget(pre: GoogleTasksView, replies: Seq<ReplyView>)
    requires
        no_restart(replies),
    ensures
        fetches_in(lists_asked(pre, seq![ReplyView::Begin] + replies)) <= 2,
        refreshes_in(lists_asked(pre, seq![ReplyView::Begin] + replies)) <= 1,
{
    lemma_lists_asked(pre, seq![ReplyView::Begin] + replies);
    lemma_one_refresh_one_retry(pre.lists_fetch, pre.auth, Target::Lists, lists_url(), replies);
}

/// A second 401 in a row ends the fetch of the collection with
/// `Unauthorized`; the cache is not touched and nothing more is asked.
pub proof fn lemma_second_unauthorized_propagates(pre: GoogleTasksView, reply: ReplyView)
    requires
        pre.lists_fetch == (Fetch { phase: FetchPhase::AwaitingAnswer, retried: true }),
        reply is Lists,
        status_of(reply) == Some(401u16),
    ensures
        get_tasks_lists_next(pre, reply).1 == StepView::<TasksListsView>::Failed(
            Error::Unauthorized,
        ),
        get_tasks_lists_next(pre, reply).0 == (GoogleTasksView { lists_fetch: Fetch::idle(), ..pre }),
{
}

} // verus!
