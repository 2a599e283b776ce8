//! Task lists and tasks as the remote service describes them, and the merge
//! of freshly fetched tasks into the cache.

use crate::auth::google::{GoogleOAuth, GoogleOAuthView};
use crate::common::fetch::{fetch_next, Fetch, FetchPhase, Fetched, FetchedView, Target};
use crate::common::text::{copy_text, same_text, text_of};
use crate::common::Priority;
use crate::error::Error;
use crate::host::{
    classify, is_success_status, Outcome, Reply, ReplyView, Request, RequestView, Step, StepView,
};
use vstd::prelude::*;
use vstd::string::*;

verus! {

/// An instant as seconds and nanoseconds since the Unix epoch.
#[derive(Debug, PartialEq, Eq, Clone, Copy, Structural)]
pub struct Timestamp {
    pub seconds: i64,
    pub nanos: u32,
}

/// One task.
#[derive(Debug)]
pub struct Tasks {
    pub kind: String,
    pub etag: String,
    pub title: String,
    pub notes: Option<String>,
    pub updated: String,
    pub position: String,
    pub status: String,
    pub web_view_link: String,
    pub priority: Option<Priority>,
}

/// What a task holds.
pub struct TasksView {
    pub kind: Seq<char>,
    pub etag: Seq<char>,
    pub title: Seq<char>,
    pub notes: Option<Seq<char>>,
    pub updated: Seq<char>,
    pub position: Seq<char>,
    pub status: Seq<char>,
    pub web_view_link: Seq<char>,
    pub priority: Option<Priority>,
}

/// One task list.  `tasks` is `None` until the tasks of this very list have
/// been fetched.
#[derive(Debug)]
pub struct TasksList {
    pub kind: String,
    pub id: String,
    pub etag: String,
    pub title: String,
    pub updated: Timestamp,
    pub tasks: Option<Vec<Tasks>>,
}

/// What a task list holds.
pub struct TasksListView {
    pub kind: Seq<char>,
    pub id: Seq<char>,
    pub etag: Seq<char>,
    pub title: Seq<char>,
    pub updated: Timestamp,
    pub tasks: Option<Seq<TasksView>>,
}

/// The collection of task lists: what the service lists, and the cache.
#[derive(Debug)]
pub struct TasksLists {
    pub kind: String,
    pub etag: String,
    pub items: Option<Vec<TasksList>>,
}

/// What a collection of task lists holds.
pub struct TasksListsView {
    pub kind: Seq<char>,
    pub etag: Seq<char>,
    pub items: Option<Seq<TasksListView>>,
}

/// The answer of the service to a request for the tasks of one list.
#[derive(Debug)]
pub struct TasksResponse {
    pub kind: String,
    pub etag: String,
    pub items: Option<Vec<Tasks>>,
}

/// What such an answer holds.
pub struct TasksResponseView {
    pub kind: Seq<char>,
    pub etag: Seq<char>,
    pub items: Option<Seq<TasksView>>,
}

impl View for Tasks {
    type V = TasksView;

    open spec fn view(&self) -> TasksView {
        TasksView {
            kind: self.kind@,
            etag: self.etag@,
            title: self.title@,
            notes: text_of(self.notes),
            updated: self.updated@,
            position: self.position@,
            status: self.status@,
            web_view_link: self.web_view_link@,
            priority: self.priority,
        }
    }
}

impl DeepView for Tasks {
    type V = TasksView;

    open spec fn deep_view(&self) -> TasksView {
        self@
    }
}

impl View for TasksList {
    type V = TasksListView;

    open spec fn view(&self) -> TasksListView {
        TasksListView {
            kind: self.kind@,
            id: self.id@,
            etag: self.etag@,
            title: self.title@,
            updated: self.updated,
            tasks: self.tasks.deep_view(),
        }
    }
}

impl DeepView for TasksList {
    type V = TasksListView;

    open spec fn deep_view(&self) -> TasksListView {
        self@
    }
}

impl View for TasksLists {
    type V = TasksListsView;

    open spec fn view(&self) -> TasksListsView {
        TasksListsView { kind: self.kind@, etag: self.etag@, items: self.items.deep_view() }
    }
}

impl DeepView for TasksLists {
    type V = TasksListsView;

    open spec fn deep_view(&self) -> TasksListsView {
        self@
    }
}

impl View for TasksResponse {
    type V = TasksResponseView;

    open spec fn view(&self) -> TasksResponseView {
        TasksResponseView { kind: self.kind@, etag: self.etag@, items: self.items.deep_view() }
    }
}

impl DeepView for TasksResponse {
    type V = TasksResponseView;

    open spec fn deep_view(&self) -> TasksResponseView {
        self@
    }
}

impl TasksView {
    /// A task with every text empty and no priority.
    pub open spec fn empty() -> TasksView {
        TasksView {
            kind: Seq::empty(),
            etag: Seq::empty(),
            title: Seq::empty(),
            notes: None,
            updated: Seq::empty(),
            position: Seq::empty(),
            status: Seq::empty(),
            web_view_link: Seq::empty(),
            priority: None,
        }
    }

    /// The same task with the priority that its title announces.
    pub open spec fn prioritized(self) -> TasksView {
        TasksView { priority: Some(Priority::of_title(self.title)), ..self }
    }
}

impl TasksListView {
    /// A list with every text empty, dated at the epoch, never fetched.
    pub open spec fn empty() -> TasksListView {
        TasksListView {
            kind: Seq::empty(),
            id: Seq::empty(),
            etag: Seq::empty(),
            title: Seq::empty(),
            updated: Timestamp { seconds: 0, nanos: 0 },
            tasks: None,
        }
    }
}

impl TasksListsView {
    /// The collection that stands for "nothing known": no items at all.
    pub open spec fn empty() -> TasksListsView {
        TasksListsView { kind: Seq::empty(), etag: Seq::empty(), items: None }
    }

    /// How many lists the collection holds.
    pub open spec fn len(self) -> nat {
        match self.items {
            Some(items) => items.len(),
            None => 0,
        }
    }
}

/// Every task of `tasks` with the priority that its title announces.
pub open spec fn prioritized(tasks: Seq<TasksView>) -> Seq<TasksView> {
    Seq::new(tasks.len(), |i: int| tasks[i].prioritized())
}

/// The position of the first list of `items` whose identifier is `list_id`,
/// or the length of `items` where there is none.
pub open spec fn position_of(items: Seq<TasksListView>, list_id: Seq<char>) -> int
    decreases items.len(),
{
    if items.len() == 0 {
        0
    } else if items[0].id == list_id {
        0
    } else {
        1 + position_of(items.drop_first(), list_id)
    }
}

/// `items` after the tasks of the list `list_id` have been replaced by
/// `tasks`: the first list with that identifier gets them, with their
/// priorities derived; nothing else changes.
pub open spec fn merged_items(
    items: Seq<TasksListView>,
    list_id: Seq<char>,
    tasks: Seq<TasksView>,
) -> Seq<TasksListView> {
    let at = position_of(items, list_id);
    if 0 <= at < items.len() {
        items.update(at, TasksListView { tasks: Some(prioritized(tasks)), ..items[at] })
    } else {
        items
    }
}

/// The cache after the tasks of the list `list_id` have been merged into it.
pub open spec fn merged(cache: TasksListsView, list_id: Seq<char>, tasks: Seq<TasksView>)
    -> TasksListsView {
    match cache.items {
        Some(items) => TasksListsView {
            items: Some(merged_items(items, list_id, tasks)),
            ..cache
        },
        None => cache,
    }
}

impl Default for Tasks {
    fn default() -> (task: Self)
        ensures
            task@ == TasksView::empty(),
    {
        Tasks {
            kind: String::new(),
            etag: String::new(),
            title: String::new(),
            notes: None,
            updated: String::new(),
            position: String::new(),
            status: String::new(),
            web_view_link: String::new(),
            priority: None,
        }
    }
}

impl Default for TasksList {
    fn default() -> (list: Self)
        ensures
            list@ == TasksListView::empty(),
    {
        TasksList {
            kind: String::new(),
            id: String::new(),
            etag: String::new(),
            title: String::new(),
            updated: Timestamp { seconds: 0, nanos: 0 },
            tasks: None,
        }
    }
}

impl Default for TasksLists {
    fn default() -> (lists: Self)
        ensures
            lists@ == TasksListsView::empty(),
    {
        TasksLists { kind: String::new(), etag: String::new(), items: None }
    }
}

impl Clone for Tasks {
    fn clone(&self) -> (copy: Self)
        ensures
            copy@ == self@,
    {
        Tasks {
            kind: self.kind.clone(),
            etag: self.etag.clone(),
            title: self.title.clone(),
            notes: copy_text(&self.notes),
            updated: self.updated.clone(),
            position: self.position.clone(),
            status: self.status.clone(),
            web_view_link: self.web_view_link.clone(),
            priority: self.priority,
        }
    }
}

/// A copy of a sequence of tasks.
pub fn copy_tasks(tasks: &Vec<Tasks>) -> (copy: Vec<Tasks>)
    ensures
        copy.deep_view() == tasks.deep_view(),
{
    let mut copy: Vec<Tasks> = Vec::new();
    let mut i: usize = 0;
    while i < tasks.len()
        invariant
            i <= tasks.len(),
            copy.len() == i,
            forall|k: int| 0 <= k < i ==> (#[trigger] copy[k])@ == tasks[k]@,
        decreases tasks.len() - i,
    {
        copy.push(tasks[i].clone());
        i += 1;
    }
    assert(copy.deep_view() =~= tasks.deep_view());
    copy
}

impl Clone for TasksList {
    fn clone(&self) -> (copy: Self)
        ensures
            copy@ == self@,
    {
        let tasks = match &self.tasks {
            Some(tasks) => Some(copy_tasks(tasks)),
            None => None,
        };
        TasksList {
            kind: self.kind.clone(),
            id: self.id.clone(),
            etag: self.etag.clone(),
            title: self.title.clone(),
            updated: self.updated,
            tasks,
        }
    }
}

/// A copy of a sequence of task lists.
pub fn copy_lists(lists: &Vec<TasksList>) -> (copy: Vec<TasksList>)
    ensures
        copy.deep_view() == lists.deep_view(),
{
    let mut copy: Vec<TasksList> = Vec::new();
    let mut i: usize = 0;
    while i < lists.len()
        invariant
            i <= lists.len(),
            copy.len() == i,
            forall|k: int| 0 <= k < i ==> (#[trigger] copy[k])@ == lists[k]@,
        decreases lists.len() - i,
    {
        copy.push(lists[i].clone());
        i += 1;
    }
    assert(copy.deep_view() =~= lists.deep_view());
    copy
}

impl Clone for TasksLists {
    fn clone(&self) -> (copy: Self)
        ensures
            copy@ == self@,
    {
        let items = match &self.items {
            Some(items) => Some(copy_lists(items)),
            None => None,
        };
        TasksLists { kind: self.kind.clone(), etag: self.etag.clone(), items }
    }
}

impl Clone for TasksResponse {
    fn clone(&self) -> (copy: Self)
        ensures
            copy@ == self@,
    {
        let items = match &self.items {
            Some(items) => Some(copy_tasks(items)),
            None => None,
        };
        TasksResponse { kind: self.kind.clone(), etag: self.etag.clone(), items }
    }
}

/// Attaches to every task the priority that its title announces.  Titles are
/// left as they are.
pub fn prioritize(tasks: Vec<Tasks>) -> (out: Vec<Tasks>)
    ensures
        out.deep_view() == prioritized(tasks.deep_view()),
{
    let mut out: Vec<Tasks> = Vec::new();
    let mut i: usize = 0;
    while i < tasks.len()
        invariant
            i <= tasks.len(),
            out.len() == i,
            forall|k: int| 0 <= k < i ==> (#[trigger] out[k])@ == tasks[k]@.prioritized(),
        decreases tasks.len() - i,
    {
        let mut task = tasks[i].clone();
        task.priority = Some(Priority::from_title(task.title.as_str()));
        out.push(task);
        i += 1;
    }
    assert(out.deep_view() =~= prioritized(tasks.deep_view()));
    out
}

/// The index of the first list whose identifier is `list_id`.
pub fn find_list(items: &Vec<TasksList>, list_id: &str) -> (at: Option<usize>)
    ensures
        match at {
            Some(i) => i < items.len() && i == position_of(items.deep_view(), list_id@),
            None => position_of(items.deep_view(), list_id@) == items.len(),
        },
{
    let ghost all = items.deep_view();
    let mut i: usize = 0;
    assert(all.subrange(0, all.len() as int) =~= all);
    while i < items.len()
        invariant
            i <= items.len(),
            all == items.deep_view(),
            position_of(all, list_id@) == i + position_of(all.subrange(i as int, all.len() as int), list_id@),
        decreases items.len() - i,
    {
        let ghost rest = all.subrange(i as int, all.len() as int);
        assert(rest[0] == items[i as int]@);
        if same_text(items[i].id.as_str(), list_id) {
            return Some(i);
        }
        assert(rest.drop_first() =~= all.subrange(i + 1, all.len() as int));
        i += 1;
    }
    assert(all.subrange(i as int, all.len() as int).len() == 0);
    None
}

impl TasksLists {
    /// How many lists the collection holds.
    pub fn len(&self) -> (n: usize)
        ensures
            n == self@.len(),
    {
        match &self.items {
            Some(items) => items.len(),
            None => 0,
        }
    }

    /// Replaces the tasks of the first list whose identifier is `list_id` by
    /// `tasks`, each with its priority derived from its title.  Lists with
    /// another identifier are not touched; without such a list, or without
    /// any list, nothing changes.
    pub fn merge(&mut self, list_id: &str, tasks: Vec<Tasks>)
        ensures
            final(self)@ == merged(old(self)@, list_id@, tasks.deep_view()),
    {
        let ghost before = self@;
        let ghost fetched = tasks.deep_view();
        let ready = prioritize(tasks);
        let mut held: Option<Vec<TasksList>> = None;
        core::mem::swap(&mut self.items, &mut held);
        match held {
            Some(mut items) => {
                let ghost views = items.deep_view();
                match find_list(&items, list_id) {
                    Some(at) => {
                        let mut list = items[at].clone();
                        list.tasks = Some(ready);
                        items.set(at, list);
                        assert(items.deep_view() =~= merged_items(views, list_id@, fetched));
                    },
                    None => {},
                }
                self.items = Some(items);
            },
            None => {},
        }
        assert(self@.items == merged(before, list_id@, fetched).items);
    }
}

/// The root of the task API.
pub const TASKS_API_ENDPOINT: &'static str = "https://tasks.googleapis.com/tasks/v1";

/// Where a fetch of the tasks of one list stands.
#[derive(Debug, PartialEq, Eq, Clone, Copy, Structural)]
pub enum Stage {
    /// Nothing is running.
    Idle,
    /// The collection of lists is being fetched first.
    Syncing,
    /// The tasks are being fetched.
    Fetching,
}

/// Where a walk over all lists stands.
#[derive(Debug, PartialEq, Eq, Clone, Copy, Structural)]
pub enum Walk {
    /// Nothing is running.
    Idle,
    /// The collection of lists is being fetched first.
    Syncing,
    /// The tasks of the list at this position are being fetched.
    At(usize),
}

/// Where the creation of a task stands.
#[derive(Debug, PartialEq, Eq, Clone, Copy, Structural)]
pub enum AddPhase {
    /// Nothing is running.
    Idle,
    /// The access token is being read from the store.
    AwaitingCredentials,
    /// The task is with the task API.
    AwaitingAnswer,
}

/// The synchronisation engine: the session, the cache and the state of the
/// running operation.
///
/// The cache starts empty.  `synced` tells whether the cache holds a
/// collection that the task API delivered; operations on single lists fetch
/// the collection first as long as it does not.
#[derive(Debug)]
pub struct GoogleTasks {
    pub auth: Box<GoogleOAuth>,
    pub task_lists: TasksLists,
    pub synced: bool,
    pub lists_fetch: Fetch,
    pub tasks_fetch: Fetch,
    pub stage: Stage,
    pub walk: Walk,
    pub adding: AddPhase,
}

/// What a `GoogleTasks` holds.
pub struct GoogleTasksView {
    pub auth: GoogleOAuthView,
    pub task_lists: TasksListsView,
    pub synced: bool,
    pub lists_fetch: Fetch,
    pub tasks_fetch: Fetch,
    pub stage: Stage,
    pub walk: Walk,
    pub adding: AddPhase,
}

impl View for GoogleTasks {
    type V = GoogleTasksView;

    open spec fn view(&self) -> GoogleTasksView {
        GoogleTasksView {
            auth: self.auth@,
            task_lists: self.task_lists@,
            synced: self.synced,
            lists_fetch: self.lists_fetch,
            tasks_fetch: self.tasks_fetch,
            stage: self.stage,
            walk: self.walk,
            adding: self.adding,
        }
    }
}

/// The address of the collection of task lists.
pub open spec fn lists_url() -> Seq<char> {
    TASKS_API_ENDPOINT@ + "/users/@me/lists"@
}

/// The address of the tasks of one list.
pub open spec fn tasks_url(list_id: Seq<char>) -> Seq<char> {
    TASKS_API_ENDPOINT@ + "/lists/"@ + list_id + "/tasks"@
}

/// The collection that an answer delivers: the body of a 200.
pub open spec fn lists_from(answer: ReplyView) -> Option<TasksListsView> {
    match answer {
        ReplyView::Lists { status, body: Some(lists) } => if status == Some(200u16) {
            Some(lists)
        } else {
            None
        },
        _ => None,
    }
}

/// The tasks that an answer delivers: the items of the body of a 200, none
/// where the body names no items.
pub open spec fn tasks_from(answer: ReplyView) -> Option<Seq<TasksView>> {
    match answer {
        ReplyView::Tasks { status, body: Some(response) } => if status == Some(200u16) {
            match response.items {
                Some(items) => Some(items),
                None => Some(Seq::empty()),
            }
        } else {
            None
        },
        _ => None,
    }
}

/// The step of an operation that hands on what a fetch of the lists asks or
/// reports, and has no result of its own yet.
pub open spec fn forwarded<V, W>(step: StepView<V>, done: StepView<W>) -> StepView<W> {
    match step {
        StepView::Ask(request) => StepView::Ask(request),
        StepView::Failed(error) => StepView::Failed(error),
        StepView::Done(_) => done,
    }
}

impl GoogleTasksView {
    /// An engine with a fresh session and an empty cache.
    pub open spec fn fresh() -> GoogleTasksView {
        GoogleTasksView {
            auth: GoogleOAuthView::fresh(),
            task_lists: TasksListsView::empty(),
            synced: false,
            lists_fetch: Fetch::idle(),
            tasks_fetch: Fetch::idle(),
            stage: Stage::Idle,
            walk: Walk::Idle,
            adding: AddPhase::Idle,
        }
    }

    /// The identifier of the list at position `at`.
    pub open spec fn id_at(self, at: int) -> Seq<char> {
        self.task_lists.items->0[at].id
    }
}

/// One step of the fetch of the collection of lists.
///
/// A 200 replaces the cache by what was delivered.  Any other answer but a
/// 401 empties the cache and is reported as an empty collection: "could not
/// tell", not "no lists".  A 401 is met by the one refresh and retry.
pub open spec fn get_tasks_lists_next(pre: GoogleTasksView, reply: ReplyView) -> (
    GoogleTasksView,
    StepView<TasksListsView>,
) {
    let next = fetch_next(pre.lists_fetch, pre.auth, Target::Lists, lists_url(), reply);
    let mid = GoogleTasksView { lists_fetch: next.0, auth: next.1, ..pre };
    match next.2 {
        FetchedView::Ask(request) => (mid, StepView::Ask(request)),
        FetchedView::Failed(error) => (mid, StepView::Failed(error)),
        FetchedView::Answer(answer) => match lists_from(answer) {
            Some(lists) => (
                GoogleTasksView { task_lists: lists, synced: true, ..mid },
                StepView::Done(lists),
            ),
            None => (
                GoogleTasksView { task_lists: TasksListsView::empty(), synced: false, ..mid },
                StepView::Done(TasksListsView::empty()),
            ),
        },
    }
}

/// One step of the first synchronisation: nothing to do once the cache holds
/// a delivered collection, else the fetch of the collection.
pub open spec fn sync_next(pre: GoogleTasksView, reply: ReplyView) -> (
    GoogleTasksView,
    StepView<()>,
) {
    if reply is Begin && pre.synced {
        (pre, StepView::Done(()))
    } else {
        let next = get_tasks_lists_next(pre, reply);
        (next.0, forwarded(next.1, StepView::Done(())))
    }
}

/// The engine at the start of the fetch of the tasks of a list.
pub open spec fn begin_fetch(pre: GoogleTasksView) -> (GoogleTasksView, StepView<TasksListsView>) {
    (
        GoogleTasksView {
            tasks_fetch: Fetch { phase: FetchPhase::AwaitingCredentials, retried: false },
            stage: Stage::Fetching,
            ..pre
        },
        StepView::Ask(RequestView::ReadCredentials),
    )
}

/// One step of the fetch of the tasks of the list `list_id`.
///
/// The collection of lists is fetched first unless the cache holds one.  A
/// 200 merges the delivered tasks into the cache; any other answer but a 401
/// leaves the cache as it is.  Either way the result is the cache.
pub open spec fn get_tasks_by_list_id_next(
    pre: GoogleTasksView,
    list_id: Seq<char>,
    reply: ReplyView,
) -> (GoogleTasksView, StepView<TasksListsView>) {
    if reply is Begin {
        if pre.synced {
            begin_fetch(pre)
        } else {
            (
                GoogleTasksView { stage: Stage::Syncing, ..get_tasks_lists_next(pre, reply).0 },
                StepView::Ask(RequestView::ReadCredentials),
            )
        }
    } else {
        match pre.stage {
            Stage::Idle => (pre, StepView::Failed(Error::UnexpectedReply)),
            Stage::Syncing => {
                let next = get_tasks_lists_next(pre, reply);
                match next.1 {
                    StepView::Ask(request) => (next.0, StepView::Ask(request)),
                    StepView::Failed(error) => (
                        GoogleTasksView { stage: Stage::Idle, ..next.0 },
                        StepView::Failed(error),
                    ),
                    StepView::Done(_) => begin_fetch(next.0),
                }
            },
            Stage::Fetching => {
                let next = fetch_next(
                    pre.tasks_fetch,
                    pre.auth,
                    Target::Tasks,
                    tasks_url(list_id),
                    reply,
                );
                let mid = GoogleTasksView { tasks_fetch: next.0, auth: next.1, ..pre };
                match next.2 {
                    FetchedView::Ask(request) => (mid, StepView::Ask(request)),
                    FetchedView::Failed(error) => (
                        GoogleTasksView { stage: Stage::Idle, ..mid },
                        StepView::Failed(error),
                    ),
                    FetchedView::Answer(answer) => {
                        let cache = match tasks_from(answer) {
                            Some(tasks) => merged(mid.task_lists, list_id, tasks),
                            None => mid.task_lists,
                        };
                        (
                            GoogleTasksView { task_lists: cache, stage: Stage::Idle, ..mid },
                            StepView::Done(cache),
                        )
                    },
                }
            },
        }
    }
}

/// The walk at position `at`: the fetch of that list starts, or, past the
/// last list, the walk ends with the cache as its result.
pub open spec fn walk_from(pre: GoogleTasksView, at: int) -> (
    GoogleTasksView,
    StepView<TasksListsView>,
) {
    if 0 <= at < pre.task_lists.len() && at <= usize::MAX {
        (
            GoogleTasksView {
                walk: Walk::At(at as usize),
                ..get_tasks_by_list_id_next(pre, pre.id_at(at), ReplyView::Begin).0
            },
            StepView::Ask(RequestView::ReadCredentials),
        )
    } else {
        (GoogleTasksView { walk: Walk::Idle, ..pre }, StepView::Done(pre.task_lists))
    }
}

/// One step of the fetch of the tasks of every list in the cache.
///
/// The lists are visited in their order.  A list whose tasks the task API
/// does not deliver is left as it is and the walk goes on; only a failure of
/// the session or of the host ends the walk early.
pub open spec fn get_all_tasks_next(pre: GoogleTasksView, reply: ReplyView) -> (
    GoogleTasksView,
    StepView<TasksListsView>,
) {
    if reply is Begin {
        if pre.synced {
            walk_from(pre, 0)
        } else {
            (
                GoogleTasksView { walk: Walk::Syncing, ..get_tasks_lists_next(pre, reply).0 },
                StepView::Ask(RequestView::ReadCredentials),
            )
        }
    } else {
        match pre.walk {
            Walk::Idle => (pre, StepView::Failed(Error::UnexpectedReply)),
            Walk::Syncing => {
                let next = get_tasks_lists_next(pre, reply);
                match next.1 {
                    StepView::Ask(request) => (next.0, StepView::Ask(request)),
                    StepView::Failed(error) => (
                        GoogleTasksView { walk: Walk::Idle, ..next.0 },
                        StepView::Failed(error),
                    ),
                    StepView::Done(_) => walk_from(next.0, 0),
                }
            },
            Walk::At(at) => if at < pre.task_lists.len() {
                let next = get_tasks_by_list_id_next(pre, pre.id_at(at as int), reply);
                match next.1 {
                    StepView::Ask(request) => (next.0, StepView::Ask(request)),
                    StepView::Failed(error) => (
                        GoogleTasksView { walk: Walk::Idle, ..next.0 },
                        StepView::Failed(error),
                    ),
                    StepView::Done(_) => walk_from(next.0, at + 1),
                }
            } else {
                (GoogleTasksView { walk: Walk::Idle, ..pre }, StepView::Failed(Error::UnexpectedReply))
            },
        }
    }
}

/// What the answer to the creation of a task amounts to: the created task
/// for a 2xx that carries one, `RemoteUnavailable` where the task API did
/// not answer, `CreateFailed` otherwise.
pub open spec fn created_from(status: Option<u16>, body: Option<TasksView>) -> StepView<TasksView> {
    if status is None {
        StepView::Failed(Error::RemoteUnavailable)
    } else if is_success_status(status) && body is Some {
        StepView::Done(body->0)
    } else {
        StepView::Failed(Error::CreateFailed)
    }
}

/// One step of the creation of a task titled `title` in the list `list_id`.
pub open spec fn add_tasks_next(
    pre: GoogleTasksView,
    list_id: Seq<char>,
    title: Seq<char>,
    reply: ReplyView,
) -> (GoogleTasksView, StepView<TasksView>) {
    match (pre.adding, reply) {
        (_, ReplyView::Begin) => (
            GoogleTasksView { adding: AddPhase::AwaitingCredentials, ..pre },
            StepView::Ask(RequestView::ReadCredentials),
        ),
        (AddPhase::AwaitingCredentials, ReplyView::Credentials(stored)) => if stored.complete() {
            (
                GoogleTasksView {
                    auth: pre.auth.probed(stored),
                    adding: AddPhase::AwaitingAnswer,
                    ..pre
                },
                StepView::Ask(
                    RequestView::CreateTask {
                        url: tasks_url(list_id),
                        bearer: stored.access_token->0,
                        title,
                    },
                ),
            )
        } else {
            (
                GoogleTasksView { auth: pre.auth.probed(stored), adding: AddPhase::Idle, ..pre },
                StepView::Failed(Error::CredentialsNotFound),
            )
        },
        (AddPhase::AwaitingAnswer, ReplyView::Created { status, body }) => (
            GoogleTasksView { adding: AddPhase::Idle, ..pre },
            created_from(status, body),
        ),
        _ => (
            GoogleTasksView { adding: AddPhase::Idle, ..pre },
            StepView::Failed(Error::UnexpectedReply),
        ),
    }
}

fn lists_endpoint() -> (url: String)
    ensures
        url@ == lists_url(),
{
    String::from_str(TASKS_API_ENDPOINT).concat("/users/@me/lists")
}

fn tasks_endpoint(list_id: &str) -> (url: String)
    ensures
        url@ == tasks_url(list_id@),
{
    String::from_str(TASKS_API_ENDPOINT).concat("/lists/").concat(list_id).concat("/tasks")
}

fn take_lists(answer: Reply) -> (lists: Option<TasksLists>)
    ensures
        lists.deep_view() == lists_from(answer@),
{
    match answer {
        Reply::Lists { status, body: Some(lists) } => {
            match classify(status) {
                Outcome::Success => Some(lists),
                _ => None,
            }
        },
        _ => None,
    }
}

fn take_tasks(answer: Reply) -> (tasks: Option<Vec<Tasks>>)
    ensures
        tasks.deep_view() == tasks_from(answer@),
{
    match answer {
        Reply::Tasks { status, body: Some(response) } => {
            match classify(status) {
                Outcome::Success => match response.items {
                    Some(items) => Some(items),
                    None => {
                        let none: Vec<Tasks> = Vec::new();
                        assert(none.deep_view() =~= Seq::<TasksView>::empty());
                        Some(none)
                    },
                },
                _ => None,
            }
        },
        _ => None,
    }
}

impl GoogleTasks {
    /// An engine with a fresh session and an empty cache.
    pub fn new() -> (engine: Self)
        ensures
            engine@ == GoogleTasksView::fresh(),
    {
        GoogleTasks {
            auth: Box::new(GoogleOAuth::new()),
            task_lists: TasksLists::default(),
            synced: false,
            lists_fetch: Fetch::new(),
            tasks_fetch: Fetch::new(),
            stage: Stage::Idle,
            walk: Walk::Idle,
            adding: AddPhase::Idle,
        }
    }

    /// One step of the fetch of the collection of lists.
    pub fn get_tasks_lists(&mut self, reply: Reply) -> (step: Step<TasksLists>)
        ensures
            final(self)@ == get_tasks_lists_next(old(self)@, reply@).0,
            step@ == get_tasks_lists_next(old(self)@, reply@).1,
    {
        let url = lists_endpoint();
        match self.lists_fetch.advance(&mut *self.auth, Target::Lists, url.as_str(), reply) {
            Fetched::Ask(request) => Step::Ask(request),
            Fetched::Failed(error) => Step::Failed(error),
            Fetched::Answer(answer) => {
                match take_lists(answer) {
                    Some(lists) => {
                        self.task_lists = lists.clone();
                        self.synced = true;
                        Step::Done(lists)
                    },
                    None => {
                        self.task_lists = TasksLists::default();
                        self.synced = false;
                        Step::Done(TasksLists::default())
                    },
                }
            },
        }
    }

    /// One step of the first synchronisation.
    pub fn sync(&mut self, reply: Reply) -> (step: Step<()>)
        ensures
            final(self)@ == sync_next(old(self)@, reply@).0,
            step@ == sync_next(old(self)@, reply@).1,
    {
        let begins = match &reply {
            Reply::Begin => true,
            _ => false,
        };
        if begins && self.synced {
            return Step::Done(());
        }
        match self.get_tasks_lists(reply) {
            Step::Ask(request) => Step::Ask(request),
            Step::Failed(error) => Step::Failed(error),
            Step::Done(_) => Step::Done(()),
        }
    }

    /// Takes the tasks that were fetched for the list `list_id` into the
    /// cache: each gets the priority that its title announces, and together
    /// they replace the tasks of that list.  No other list is touched.
    pub fn update_tasks(&mut self, list_id: &str, tasks: Vec<Tasks>)
        ensures
            final(self)@ == (GoogleTasksView {
                task_lists: merged(old(self)@.task_lists, list_id@, tasks.deep_view()),
                ..old(self)@
            }),
    {
        self.task_lists.merge(list_id, tasks);
    }

    fn start_fetch(&mut self) -> (step: Step<TasksLists>)
        ensures
            final(self)@ == begin_fetch(old(self)@).0,
            step@ == begin_fetch(old(self)@).1,
    {
        self.tasks_fetch = Fetch { phase: FetchPhase::AwaitingCredentials, retried: false };
        self.stage = Stage::Fetching;
        Step::Ask(Request::ReadCredentials)
    }

    /// One step of the fetch of the tasks of the list `list_id`.
    pub fn get_tasks_by_list_id(&mut self, list_id: &str, reply: Reply) -> (step: Step<TasksLists>)
        ensures
            final(self)@ == get_tasks_by_list_id_next(old(self)@, list_id@, reply@).0,
            step@ == get_tasks_by_list_id_next(old(self)@, list_id@, reply@).1,
    {
        let begins = match &reply {
            Reply::Begin => true,
            _ => false,
        };
        if begins {
            if self.synced {
                return self.start_fetch();
            }
            let step = self.get_tasks_lists(reply);
            self.stage = Stage::Syncing;
            return step;
        }
        match self.stage {
            Stage::Idle => Step::Failed(Error::UnexpectedReply),
            Stage::Syncing => {
                match self.get_tasks_lists(reply) {
                    Step::Ask(request) => Step::Ask(request),
                    Step::Failed(error) => {
                        self.stage = Stage::Idle;
                        Step::Failed(error)
                    },
                    Step::Done(_) => self.start_fetch(),
                }
            },
            Stage::Fetching => {
                let url = tasks_endpoint(list_id);
                match self.tasks_fetch.advance(&mut *self.auth, Target::Tasks, url.as_str(), reply) {
                    Fetched::Ask(request) => Step::Ask(request),
                    Fetched::Failed(error) => {
                        self.stage = Stage::Idle;
                        Step::Failed(error)
                    },
                    Fetched::Answer(answer) => {
                        match take_tasks(answer) {
                            Some(tasks) => {
                                self.update_tasks(list_id, tasks);
                            },
                            None => {},
                        }
                        self.stage = Stage::Idle;
                        Step::Done(self.task_lists.clone())
                    },
                }
            },
        }
    }

    fn walk_on(&mut self, at: usize) -> (step: Step<TasksLists>)
        ensures
            final(self)@ == walk_from(old(self)@, at as int).0,
            step@ == walk_from(old(self)@, at as int).1,
    {
        if at < self.task_lists.len() {
            let list_id = match &self.task_lists.items {
                Some(items) => items[at].id.clone(),
                None => String::new(),
            };
            let step = self.get_tasks_by_list_id(list_id.as_str(), Reply::Begin);
            self.walk = Walk::At(at);
            step
        } else {
            self.walk = Walk::Idle;
            Step::Done(self.task_lists.clone())
        }
    }

    /// One step of the fetch of the tasks of every list in the cache.
    pub fn get_all_tasks(&mut self, reply: Reply) -> (step: Step<TasksLists>)
        ensures
            final(self)@ == get_all_tasks_next(old(self)@, reply@).0,
            step@ == get_all_tasks_next(old(self)@, reply@).1,
    {
        let begins = match &reply {
            Reply::Begin => true,
            _ => false,
        };
        if begins {
            if self.synced {
                return self.walk_on(0);
            }
            let step = self.get_tasks_lists(reply);
            self.walk = Walk::Syncing;
            return step;
        }
        match self.walk {
            Walk::Idle => Step::Failed(Error::UnexpectedReply),
            Walk::Syncing => {
                match self.get_tasks_lists(reply) {
                    Step::Ask(request) => Step::Ask(request),
                    Step::Failed(error) => {
                        self.walk = Walk::Idle;
                        Step::Failed(error)
                    },
                    Step::Done(_) => self.walk_on(0),
                }
            },
            Walk::At(at) => {
                if at < self.task_lists.len() {
                    let list_id = match &self.task_lists.items {
                        Some(items) => items[at].id.clone(),
                        None => String::new(),
                    };
                    match self.get_tasks_by_list_id(list_id.as_str(), reply) {
                        Step::Ask(request) => Step::Ask(request),
                        Step::Failed(error) => {
                            self.walk = Walk::Idle;
                            Step::Failed(error)
                        },
                        Step::Done(_) => self.walk_on(at + 1),
                    }
                } else {
                    self.walk = Walk::Idle;
                    Step::Failed(Error::UnexpectedReply)
                }
            },
        }
    }

    /// One step of the creation of a task titled `title` in the list
    /// `list_id`.
    pub fn add_tasks(&mut self, list_id: &str, title: &str, reply: Reply) -> (step: Step<Tasks>)
        ensures
            final(self)@ == add_tasks_next(old(self)@, list_id@, title@, reply@).0,
            step@ == add_tasks_next(old(self)@, list_id@, title@, reply@).1,
    {
        let phase = self.adding;
        self.adding = AddPhase::Idle;
        match (phase, reply) {
            (_, Reply::Begin) => {
                self.adding = AddPhase::AwaitingCredentials;
                Step::Ask(Request::ReadCredentials)
            },
            (AddPhase::AwaitingCredentials, Reply::Credentials(stored)) => {
                match self.auth.get_tokens(&stored) {
                    Ok(bearer) => {
                        self.adding = AddPhase::AwaitingAnswer;
                        Step::Ask(
                            Request::CreateTask {
                                url: tasks_endpoint(list_id),
                                bearer,
                                title: String::from_str(title),
                            },
                        )
                    },
                    Err(error) => Step::Failed(error),
                }
            },
            (AddPhase::AwaitingAnswer, Reply::Created { status, body }) => {
                match status {
                    None => Step::Failed(Error::RemoteUnavailable),
                    Some(code) => {
                        match body {
                            Some(task) => {
                                if 200 <= code && code < 300 {
                                    Step::Done(task)
                                } else {
                                    Step::Failed(Error::CreateFailed)
                                }
                            },
                            None => Step::Failed(Error::CreateFailed),
                        }
                    },
                }
            },
            _ => Step::Failed(Error::UnexpectedReply),
        }
    }
}

} // verus!
