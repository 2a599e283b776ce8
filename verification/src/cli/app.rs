//! The command-line front end: which operation a command starts, and the
//! lines that its result is shown with.

use crate::args::{Args, ArgsView, AuthOption, Command, CommandView, ListOption};
use crate::auth::google::{refresh_token_next, sign_in_step, sign_out_next, GoogleOAuthView};
use crate::common::paint::Tint;
use crate::common::tasks::{
    add_tasks_next, get_all_tasks_next, get_tasks_lists_next, GoogleTasks, GoogleTasksView, Tasks,
    TasksList, TasksListView, TasksLists, TasksListsView, TasksView,
};
use crate::common::text::{decimal, to_decimal};
use crate::common::Priority;
use crate::host::{Reply, ReplyView, Step, StepView};
use vstd::prelude::*;
use vstd::string::*;

verus! {

/// The list that a task goes to when the command names none.
pub const DEFAULT_LIST: &'static str = "@default";

/// What is printed where the command line holds no command.
pub const NO_COMMAND: &'static str = "No command provided.";

/// The lines to print.
#[derive(Debug)]
pub struct Output {
    pub lines: Vec<String>,
}

impl View for Output {
    type V = Seq<Seq<char>>;

    open spec fn view(&self) -> Seq<Seq<char>> {
        self.lines.deep_view()
    }
}

/// The command-line front end.
#[derive(Debug)]
pub struct Cli {
    pub tasks: GoogleTasks,
}

/// What a `Cli` holds.
pub struct CliView {
    pub tasks: GoogleTasksView,
}

impl View for Cli {
    type V = CliView;

    open spec fn view(&self) -> CliView {
        CliView { tasks: self.tasks@ }
    }
}

/// The priority of a task, the lowest where it has none.
pub open spec fn priority_of(task: TasksView) -> Priority {
    match task.priority {
        Some(priority) => priority,
        None => Priority::P5,
    }
}

/// The line of a list: its number, counted from one, in cyan, a full stop,
/// and its title in blue.
pub open spec fn heading(index: nat, title: Seq<char>) -> Seq<char> {
    Tint::Cyan.painted(decimal(index + 1)) + ". "@ + Tint::Blue.painted(title)
}

/// The line of a task: two blanks and the title in the colour of its
/// priority, the whole wrapped once more in the colour of the highest.
pub open spec fn task_line(task: TasksView) -> Seq<char> {
    "  "@ + Priority::P1.tint().painted(priority_of(task).tint().painted(task.title))
}

/// The headings of the lists of a collection.
pub open spec fn list_lines(lists: TasksListsView) -> Seq<Seq<char>> {
    match lists.items {
        Some(items) => Seq::new(items.len(), |i: int| heading(i as nat, items[i].title)),
        None => Seq::empty(),
    }
}

/// The lists that are shown: those of the collection, or one empty list
/// where the collection has none.
pub open spec fn shown_lists(lists: TasksListsView) -> Seq<TasksListView> {
    match lists.items {
        Some(items) => items,
        None => seq![TasksListView::empty()],
    }
}

/// The tasks that are shown under a list: its tasks, or one empty task where
/// they have not been fetched.
pub open spec fn shown_tasks(list: TasksListView) -> Seq<TasksView> {
    match list.tasks {
        Some(tasks) => tasks,
        None => seq![TasksView::empty()],
    }
}

/// The lines of the first `count` tasks.
pub open spec fn lines_of_tasks(tasks: Seq<TasksView>, count: nat) -> Seq<Seq<char>> {
    Seq::new(count, |k: int| task_line(tasks[k]))
}

/// The heading of a list followed by the lines of its tasks.
pub open spec fn block(index: nat, list: TasksListView) -> Seq<Seq<char>> {
    seq![heading(index, list.title)] + lines_of_tasks(
        shown_tasks(list),
        shown_tasks(list).len(),
    )
}

/// The blocks of the first `count` lists, one after the other.
pub open spec fn blocks(lists: Seq<TasksListView>, count: nat) -> Seq<Seq<char>>
    decreases count,
{
    if count == 0 {
        Seq::empty()
    } else {
        blocks(lists, (count - 1) as nat) + block((count - 1) as nat, lists[count - 1])
    }
}

/// The lines that show every list with its tasks.
pub open spec fn task_lines(lists: TasksListsView) -> Seq<Seq<char>> {
    blocks(shown_lists(lists), shown_lists(lists).len())
}

/// A step of an operation as a step of the front end: requests and failures
/// pass, a result becomes the lines that show it.
pub open spec fn shown<V>(step: StepView<V>, lines: spec_fn(V) -> Seq<Seq<char>>) -> StepView<
    Seq<Seq<char>>,
> {
    match step {
        StepView::Ask(request) => StepView::Ask(request),
        StepView::Failed(error) => StepView::Failed(error),
        StepView::Done(value) => StepView::Done(lines(value)),
    }
}

/// The step of a session operation that a step of the front end stands for.
pub open spec fn silent(step: StepView<Seq<Seq<char>>>) -> StepView<()> {
    match step {
        StepView::Ask(request) => StepView::Ask(request),
        StepView::Failed(error) => StepView::Failed(error),
        StepView::Done(_) => StepView::Done(()),
    }
}

/// What a step of a session operation may turn a session and a reply into.
pub open spec fn session_step(
    auth: AuthOption,
    pre: GoogleOAuthView,
    reply: ReplyView,
    post: GoogleOAuthView,
    step: StepView<()>,
) -> bool {
    match auth {
        AuthOption::Login => sign_in_step(pre, reply, post, step),
        AuthOption::Refresh => post == refresh_token_next(pre, reply).0 && step
            == refresh_token_next(pre, reply).1,
        AuthOption::Logout => post == sign_out_next(pre, reply).0 && step == sign_out_next(
            pre,
            reply,
        ).1,
    }
}

/// What a step of the front end may turn its state and a reply into.
///
/// A session command runs the login, the refresh or the logout and prints
/// nothing.  `list lists` fetches the collection and prints its headings;
/// `list tasks` fetches the tasks of every list and prints every list with
/// its tasks.  `add` creates the task in the default list and prints nothing.
/// Without a command one line says so.
pub open spec fn handled(
    pre: CliView,
    args: ArgsView,
    reply: ReplyView,
    post: CliView,
    step: StepView<Seq<Seq<char>>>,
) -> bool {
    match args.command {
        None => post == pre && step == StepView::Done(seq![NO_COMMAND@]),
        Some(CommandView::Auth { auth }) => {
            &&& session_step(auth, pre.tasks.auth, reply, post.tasks.auth, silent(step))
            &&& post.tasks == GoogleTasksView { auth: post.tasks.auth, ..pre.tasks }
            &&& step is Done ==> step->Done_0 == Seq::<Seq<char>>::empty()
        },
        Some(CommandView::List { list: ListOption::Lists }) => {
            &&& post.tasks == get_tasks_lists_next(pre.tasks, reply).0
            &&& step == shown(
                get_tasks_lists_next(pre.tasks, reply).1,
                |lists: TasksListsView| list_lines(lists),
            )
        },
        Some(CommandView::List { list: ListOption::Tasks }) => {
            &&& post.tasks == get_all_tasks_next(pre.tasks, reply).0
            &&& step == shown(
                get_all_tasks_next(pre.tasks, reply).1,
                |lists: TasksListsView| task_lines(lists),
            )
        },
        Some(CommandView::Add { value }) => {
            &&& post.tasks == add_tasks_next(pre.tasks, DEFAULT_LIST@, value, reply).0
            &&& step == shown(
                add_tasks_next(pre.tasks, DEFAULT_LIST@, value, reply).1,
                |task: TasksView| Seq::<Seq<char>>::empty(),
            )
        },
    }
}

fn heading_line(index: usize, title: &str) -> (line: String)
    requires
        index < usize::MAX,
    ensures
        line@ == heading(index as nat, title@),
{
    let number = to_decimal(index + 1);
    let mut line = Tint::Cyan.paint(number.as_str());
    line.append(". ");
    let painted = Tint::Blue.paint(title);
    line.append(painted.as_str());
    line
}

fn line_of_task(task: &Tasks) -> (line: String)
    ensures
        line@ == task_line(task@),
{
    let priority = match task.priority {
        Some(priority) => priority,
        None => Priority::default(),
    };
    let inner = priority.color(task.title.clone());
    let outer = Priority::P1.color(inner);
    let mut line = String::from_str("  ");
    line.append(outer.as_str());
    line
}

fn push_block(lines: &mut Vec<String>, index: usize, list: &TasksList)
    requires
        index < usize::MAX,
    ensures
        final(lines).deep_view() == old(lines).deep_view() + block(index as nat, list@),
{
    let ghost before = lines.deep_view();
    let ghost shown = shown_tasks(list@);
    lines.push(heading_line(index, list.title.as_str()));
    assert(lines.deep_view() =~= before + seq![heading(index as nat, list@.title)]
        + lines_of_tasks(shown, 0));
    match &list.tasks {
        Some(tasks) => {
            assert(tasks.deep_view() == shown);
            let mut k: usize = 0;
            while k < tasks.len()
                invariant
                    k <= tasks.len(),
                    tasks.deep_view() == shown,
                    lines.deep_view() == before + seq![heading(index as nat, list@.title)]
                        + lines_of_tasks(shown, k as nat),
                decreases tasks.len() - k,
            {
                let ghost so_far = lines.deep_view();
                lines.push(line_of_task(&tasks[k]));
                assert(tasks[k as int]@ == shown[k as int]);
                assert(lines.deep_view() =~= so_far.push(task_line(shown[k as int])));
                assert(lines_of_tasks(shown, (k + 1) as nat) =~= lines_of_tasks(shown, k as nat).push(
                    task_line(shown[k as int]),
                ));
                assert(lines.deep_view() =~= before + seq![heading(index as nat, list@.title)]
                    + lines_of_tasks(shown, (k + 1) as nat));
                k += 1;
            }
        },
        None => {
            let ghost so_far = lines.deep_view();
            let blank = Tasks::default();
            lines.push(line_of_task(&blank));
            assert(lines.deep_view() =~= so_far.push(task_line(shown[0])));
            assert(lines_of_tasks(shown, 1) =~= lines_of_tasks(shown, 0).push(task_line(shown[0])));
            assert(lines.deep_view() =~= before + seq![heading(index as nat, list@.title)]
                + lines_of_tasks(shown, 1));
        },
    }
}

fn no_output() -> (out: Output)
    ensures
        out@ == Seq::<Seq<char>>::empty(),
{
    let lines: Vec<String> = Vec::new();
    assert(lines.deep_view() =~= Seq::<Seq<char>>::empty());
    Output { lines }
}

fn quiet(step: Step<()>) -> (out: Step<Output>)
    ensures
        silent(out@) == step@,
        out@ is Done ==> out@->Done_0 == Seq::<Seq<char>>::empty(),
{
    match step {
        Step::Ask(request) => Step::Ask(request),
        Step::Failed(error) => Step::Failed(error),
        Step::Done(_) => Step::Done(no_output()),
    }
}

impl Cli {
    /// A front end with a fresh engine.
    pub fn new() -> (cli: Self)
        ensures
            cli@.tasks == GoogleTasksView::fresh(),
    {
        Cli { tasks: GoogleTasks::new() }
    }

    /// The headings of the lists of a collection, one line for each list.
    pub fn cli_get_task_lists(&self, task_lists: &TasksLists) -> (out: Output)
        ensures
            out@ == list_lines(task_lists@),
    {
        let mut lines: Vec<String> = Vec::new();
        match &task_lists.items {
            Some(items) => {
                let mut i: usize = 0;
                while i < items.len()
                    invariant
                        i <= items.len(),
                        lines.len() == i,
                        forall|k: int|
                            0 <= k < i ==> (#[trigger] lines[k])@ == heading(k as nat, items[k].title@),
                    decreases items.len() - i,
                {
                    lines.push(heading_line(i, items[i].title.as_str()));
                    i += 1;
                }
                assert(lines.deep_view() =~= list_lines(task_lists@));
            },
            None => {
                assert(lines.deep_view() =~= list_lines(task_lists@));
            },
        }
        Output { lines }
    }

    /// Every list with its tasks: the heading of the list, then one line for
    /// each task.  A collection without lists is shown as one empty list, a list
    /// whose tasks have not been fetched with one empty task.
    pub fn cli_get_tasks(&self, task_lists: &TasksLists) -> (out: Output)
        ensures
            out@ == task_lines(task_lists@),
    {
        let mut lines: Vec<String> = Vec::new();
        assert(lines.deep_view() =~= Seq::<Seq<char>>::empty());
        match &task_lists.items {
            Some(items) => {
                let ghost all = items.deep_view();
                let mut i: usize = 0;
                while i < items.len()
                    invariant
                        i <= items.len(),
                        all == items.deep_view(),
                        lines.deep_view() == blocks(all, i as nat),
                    decreases items.len() - i,
                {
                    assert(items[i as int]@ == all[i as int]);
                    push_block(&mut lines, i, &items[i]);
                    i += 1;
                }
            },
            None => {
                let blank = TasksList::default();
                push_block(&mut lines, 0, &blank);
                assert(blocks(seq![TasksListView::empty()], 0) =~= Seq::<Seq<char>>::empty());
                assert(lines.deep_view() =~= blocks(seq![TasksListView::empty()], 1));
            },
        }
        Output { lines }
    }

    /// One step of the operation that the command line asks for.
    pub fn handle_commands(&mut self, args: &Args, reply: Reply) -> (step: Step<Output>)
        ensures
            handled(old(self)@, args@, reply@, final(self)@, step@),
    {
        match &args.command {
            None => {
                let mut lines: Vec<String> = Vec::new();
                lines.push(String::from_str(NO_COMMAND));
                assert(lines.deep_view() =~= seq![NO_COMMAND@]);
                Step::Done(Output { lines })
            },
            Some(Command::Auth { auth }) => {
                let step = match auth {
                    AuthOption::Login => self.tasks.auth.sign_in(reply),
                    AuthOption::Refresh => self.tasks.auth.refresh_token(reply),
                    AuthOption::Logout => self.tasks.auth.sign_out(reply),
                };
                quiet(step)
            },
            Some(Command::List { list }) => {
                match list {
                    ListOption::Lists => {
                        match self.tasks.get_tasks_lists(reply) {
                            Step::Ask(request) => Step::Ask(request),
                            Step::Failed(error) => Step::Failed(error),
                            Step::Done(lists) => Step::Done(self.cli_get_task_lists(&lists)),
                        }
                    },
                    ListOption::Tasks => {
                        match self.tasks.get_all_tasks(reply) {
                            Step::Ask(request) => Step::Ask(request),
                            Step::Failed(error) => Step::Failed(error),
                            Step::Done(lists) => Step::Done(self.cli_get_tasks(&lists)),
                        }
                    },
                }
            },
            Some(Command::Add { value }) => {
                match self.tasks.add_tasks(DEFAULT_LIST, value.as_str(), reply) {
                    Step::Ask(request) => Step::Ask(request),
                    Step::Failed(error) => Step::Failed(error),
                    Step::Done(_) => Step::Done(no_output()),
                }
            },
        }
    }
}

} // verus!
