use tasked::common::fetch::{Fetch, FetchPhase};
use tasked::common::tasks::{
    prioritize, GoogleTasks, Stage, Tasks, TasksList, TasksLists, TasksResponse, Timestamp, Walk,
    TASKS_API_ENDPOINT,
};
use tasked::common::Priority;
use tasked::error::Error;
use tasked::host::{classify, Outcome, Reply, Request, Step, StoredCredentials, TokenGrant};

fn stored(access: &str, refresh: &str) -> StoredCredentials {
    StoredCredentials {
        access_token: Some(access.to_string()),
        refresh_token: Some(refresh.to_string()),
    }
}

fn task(title: &str) -> Tasks {
    Tasks {
        kind: "tasks#task".to_string(),
        etag: "e".to_string(),
        title: title.to_string(),
        notes: None,
        updated: "2024-01-01T00:00:00.000Z".to_string(),
        position: "0".to_string(),
        status: "needsAction".to_string(),
        web_view_link: "https://tasks.example/t".to_string(),
        priority: None,
    }
}

fn list(id: &str, title: &str) -> TasksList {
    TasksList {
        kind: "tasks#taskList".to_string(),
        id: id.to_string(),
        etag: "e".to_string(),
        title: title.to_string(),
        updated: Timestamp { seconds: 1_700_000_000, nanos: 0 },
        tasks: None,
    }
}

fn lists(items: Vec<TasksList>) -> TasksLists {
    TasksLists { kind: "tasks#taskLists".to_string(), etag: "e".to_string(), items: Some(items) }
}

fn three_lists() -> TasksLists {
    lists(vec![list("abc", "Home"), list("def", "Work"), list("ghi", "Errands")])
}

fn answer_lists(status: u16, body: Option<TasksLists>) -> Reply {
    Reply::Lists { status: Some(status), body }
}

fn answer_tasks(status: u16, items: Option<Vec<Tasks>>) -> Reply {
    let body = items.map(|items| TasksResponse {
        kind: "tasks#tasks".to_string(),
        etag: "e".to_string(),
        items: Some(items),
    });
    Reply::Tasks { status: Some(status), body }
}

fn synced_engine() -> GoogleTasks {
    let mut engine = GoogleTasks::new();
    assert!(matches!(engine.get_tasks_lists(Reply::Begin), Step::Ask(Request::ReadCredentials)));
    assert!(matches!(
        engine.get_tasks_lists(Reply::Credentials(stored("a", "r"))),
        Step::Ask(Request::FetchLists { .. })
    ));
    assert!(matches!(
        engine.get_tasks_lists(answer_lists(200, Some(three_lists()))),
        Step::Done(_)
    ));
    engine
}

fn titles(list: &TasksList) -> Vec<String> {
    list.tasks.as_ref().unwrap().iter().map(|t| t.title.clone()).collect()
}

#[test]
fn new_engine_is_empty() {
    let engine = GoogleTasks::new();
    assert!(engine.task_lists.items.is_none());
    assert_eq!(engine.task_lists.len(), 0);
    assert!(!engine.synced);
    assert_eq!(engine.lists_fetch, Fetch { phase: FetchPhase::Idle, retried: false });
    assert_eq!(engine.stage, Stage::Idle);
    assert_eq!(engine.walk, Walk::Idle);
}

#[test]
fn statuses_fall_into_three_classes() {
    assert_eq!(classify(Some(200)), Outcome::Success);
    assert_eq!(classify(Some(401)), Outcome::Unauthorized);
    assert_eq!(classify(Some(201)), Outcome::Other);
    assert_eq!(classify(Some(403)), Outcome::Other);
    assert_eq!(classify(Some(500)), Outcome::Other);
    assert_eq!(classify(None), Outcome::Other);
}

#[test]
fn lists_are_fetched_with_the_stored_token() {
    let mut engine = GoogleTasks::new();
    assert!(matches!(engine.get_tasks_lists(Reply::Begin), Step::Ask(Request::ReadCredentials)));
    match engine.get_tasks_lists(Reply::Credentials(stored("ya29.token", "r"))) {
        Step::Ask(Request::FetchLists { url, bearer }) => {
            assert_eq!(url, "https://tasks.googleapis.com/tasks/v1/users/@me/lists");
            assert_eq!(url, format!("{}/users/@me/lists", TASKS_API_ENDPOINT));
            assert_eq!(bearer, "ya29.token");
        }
        other => panic!("unexpected step {:?}", other),
    }
    match engine.get_tasks_lists(answer_lists(200, Some(three_lists()))) {
        Step::Done(found) => {
            assert_eq!(found.len(), 3);
            assert_eq!(found.items.as_ref().unwrap()[1].title, "Work");
        }
        other => panic!("unexpected step {:?}", other),
    }
    assert_eq!(engine.task_lists.len(), 3);
    assert_eq!(engine.task_lists.items.as_ref().unwrap()[0].id, "abc");
    assert!(engine.synced);
}

#[test]
fn list_fetch_replaces_the_cache_wholesale() {
    let mut engine = synced_engine();
    engine.get_tasks_lists(Reply::Begin);
    engine.get_tasks_lists(Reply::Credentials(stored("a", "r")));
    engine.get_tasks_lists(answer_lists(200, Some(lists(vec![list("zzz", "Only")]))));
    assert_eq!(engine.task_lists.len(), 1);
    assert_eq!(engine.task_lists.items.as_ref().unwrap()[0].id, "zzz");
}

#[test]
fn unauthorized_triggers_one_refresh_and_one_retry() {
    let mut engine = GoogleTasks::new();
    let mut asked: Vec<Request> = Vec::new();
    let replies = vec![
        Reply::Begin,
        Reply::Credentials(stored("stale", "r1")),
        answer_lists(401, None),
        Reply::Credentials(stored("stale", "r1")),
        Reply::Granted(Some(TokenGrant { access_token: "fresh".to_string(), refresh_token: None })),
        Reply::Stored(true),
        Reply::Credentials(stored("fresh", "r1")),
    ];
    for reply in replies {
        match engine.get_tasks_lists(reply) {
            Step::Ask(request) => asked.push(request),
            other => panic!("unexpected step {:?}", other),
        }
    }
    assert!(matches!(asked[0], Request::ReadCredentials));
    assert!(matches!(&asked[1], Request::FetchLists { bearer, .. } if bearer == "stale"));
    assert!(matches!(asked[2], Request::ReadCredentials));
    assert!(matches!(&asked[3], Request::RefreshGrant { refresh_token } if refresh_token == "r1"));
    assert!(matches!(
        &asked[4],
        Request::WriteCredentials { access_token, refresh_token }
            if access_token == "fresh" && refresh_token == "r1"
    ));
    assert!(matches!(asked[5], Request::ReadCredentials));
    assert!(matches!(&asked[6], Request::FetchLists { bearer, .. } if bearer == "fresh"));
    let refreshes = asked.iter().filter(|r| matches!(r, Request::RefreshGrant { .. })).count();
    let gets = asked.iter().filter(|r| matches!(r, Request::FetchLists { .. })).count();
    assert_eq!(refreshes, 1);
    assert_eq!(gets, 2);
    match engine.get_tasks_lists(answer_lists(200, Some(three_lists()))) {
        Step::Done(found) => assert_eq!(found.len(), 3),
        other => panic!("unexpected step {:?}", other),
    }
    assert_eq!(engine.task_lists.len(), 3);
    assert_eq!(engine.auth.access_token, "fresh");
}

#[test]
fn second_unauthorized_propagates_without_third_attempt() {
    let mut engine = GoogleTasks::new();
    engine.get_tasks_lists(Reply::Begin);
    engine.get_tasks_lists(Reply::Credentials(stored("stale", "r1")));
    engine.get_tasks_lists(answer_lists(401, None));
    engine.get_tasks_lists(Reply::Credentials(stored("stale", "r1")));
    engine.get_tasks_lists(Reply::Granted(Some(TokenGrant {
        access_token: "fresh".to_string(),
        refresh_token: None,
    })));
    engine.get_tasks_lists(Reply::Stored(true));
    engine.get_tasks_lists(Reply::Credentials(stored("fresh", "r1")));
    let step = engine.get_tasks_lists(answer_lists(401, None));
    assert!(matches!(step, Step::Failed(Error::Unauthorized)));
    assert_eq!(engine.lists_fetch, Fetch { phase: FetchPhase::Idle, retried: false });
    let after = engine.get_tasks_lists(answer_lists(200, Some(three_lists())));
    assert!(matches!(after, Step::Failed(Error::UnexpectedReply)));
    assert_eq!(engine.task_lists.len(), 0);
}

#[test]
fn rejected_refresh_reaches_the_caller() {
    let mut engine = GoogleTasks::new();
    engine.get_tasks_lists(Reply::Begin);
    engine.get_tasks_lists(Reply::Credentials(stored("stale", "r1")));
    engine.get_tasks_lists(answer_lists(401, None));
    engine.get_tasks_lists(Reply::Credentials(stored("stale", "r1")));
    let step = engine.get_tasks_lists(Reply::Granted(None));
    assert!(matches!(step, Step::Failed(Error::RefreshRejected)));
}

#[test]
fn missing_credentials_reach_the_caller() {
    let mut engine = GoogleTasks::new();
    engine.get_tasks_lists(Reply::Begin);
    let step = engine.get_tasks_lists(Reply::Credentials(StoredCredentials {
        access_token: Some("a".to_string()),
        refresh_token: None,
    }));
    assert!(matches!(step, Step::Failed(Error::CredentialsNotFound)));
}

#[test]
fn other_status_yields_an_empty_collection() {
    let mut engine = synced_engine();
    engine.get_tasks_lists(Reply::Begin);
    engine.get_tasks_lists(Reply::Credentials(stored("a", "r")));
    match engine.get_tasks_lists(answer_lists(500, None)) {
        Step::Done(found) => {
            assert!(found.items.is_none());
            assert_eq!(found.kind, "");
        }
        other => panic!("unexpected step {:?}", other),
    }
    assert!(engine.task_lists.items.is_none());
    assert!(!engine.synced);
}

#[test]
fn transport_failure_yields_an_empty_collection() {
    let mut engine = GoogleTasks::new();
    engine.get_tasks_lists(Reply::Begin);
    engine.get_tasks_lists(Reply::Credentials(stored("a", "r")));
    let step = engine.get_tasks_lists(Reply::Lists { status: None, body: None });
    assert!(matches!(step, Step::Done(found) if found.items.is_none()));
}

#[test]
fn unreadable_body_yields_an_empty_collection() {
    let mut engine = GoogleTasks::new();
    engine.get_tasks_lists(Reply::Begin);
    engine.get_tasks_lists(Reply::Credentials(stored("a", "r")));
    let step = engine.get_tasks_lists(answer_lists(200, None));
    assert!(matches!(step, Step::Done(found) if found.items.is_none()));
}

#[test]
fn sync_fetches_once() {
    let mut engine = GoogleTasks::new();
    assert!(matches!(engine.sync(Reply::Begin), Step::Ask(Request::ReadCredentials)));
    assert!(matches!(
        engine.sync(Reply::Credentials(stored("a", "r"))),
        Step::Ask(Request::FetchLists { .. })
    ));
    assert!(matches!(engine.sync(answer_lists(200, Some(three_lists()))), Step::Done(())));
    assert!(matches!(engine.sync(Reply::Begin), Step::Done(())));
    assert_eq!(engine.task_lists.len(), 3);
}

#[test]
fn tasks_of_a_list_are_merged_with_their_priorities() {
    let mut engine = synced_engine();
    assert!(matches!(
        engine.get_tasks_by_list_id("def", Reply::Begin),
        Step::Ask(Request::ReadCredentials)
    ));
    match engine.get_tasks_by_list_id("def", Reply::Credentials(stored("tok", "r"))) {
        Step::Ask(Request::FetchTasks { url, bearer }) => {
            assert_eq!(url, "https://tasks.googleapis.com/tasks/v1/lists/def/tasks");
            assert_eq!(bearer, "tok");
        }
        other => panic!("unexpected step {:?}", other),
    }
    let fetched = vec![task("[p1] Buy milk"), task("Buy milk"), task("[p9] X"), task("[p3] Call")];
    let cache = match engine.get_tasks_by_list_id("def", answer_tasks(200, Some(fetched))) {
        Step::Done(cache) => cache,
        other => panic!("unexpected step {:?}", other),
    };
    let work = &cache.items.as_ref().unwrap()[1];
    let found = work.tasks.as_ref().unwrap();
    assert_eq!(found.len(), 4);
    assert_eq!(found[0].priority, Some(Priority::P1));
    assert_eq!(found[1].priority, Some(Priority::P5));
    assert_eq!(found[2].priority, Some(Priority::P5));
    assert_eq!(found[3].priority, Some(Priority::P3));
    assert_eq!(found[0].title, "[p1] Buy milk");
    assert_eq!(found[0].status, "needsAction");
    assert_eq!(titles(&engine.task_lists.items.as_ref().unwrap()[1]).len(), 4);
    assert_eq!(engine.stage, Stage::Idle);
}

#[test]
fn merging_one_list_leaves_the_others_alone() {
    let mut engine = synced_engine();
    engine.get_tasks_by_list_id("def", Reply::Begin);
    engine.get_tasks_by_list_id("def", Reply::Credentials(stored("tok", "r")));
    engine.get_tasks_by_list_id("def", answer_tasks(200, Some(vec![task("work 1"), task("work 2")])));

    engine.get_tasks_by_list_id("abc", Reply::Begin);
    engine.get_tasks_by_list_id("abc", Reply::Credentials(stored("tok", "r")));
    engine.get_tasks_by_list_id("abc", answer_tasks(200, Some(vec![task("[p2] home 1")])));

    let items = engine.task_lists.items.as_ref().unwrap();
    assert_eq!(items.len(), 3);
    assert_eq!(titles(&items[0]), vec!["[p2] home 1".to_string()]);
    assert_eq!(titles(&items[1]), vec!["work 1".to_string(), "work 2".to_string()]);
    assert!(items[2].tasks.is_none());
    assert_eq!(items[1].id, "def");
    assert_eq!(items[1].title, "Work");
    assert_eq!(items[1].updated, Timestamp { seconds: 1_700_000_000, nanos: 0 });
}

#[test]
fn merge_touches_the_first_list_with_the_identifier_only() {
    let mut cache = lists(vec![list("abc", "A"), list("dup", "first"), list("dup", "second")]);
    cache.merge("dup", vec![task("[p4] t")]);
    let items = cache.items.as_ref().unwrap();
    assert!(items[0].tasks.is_none());
    assert_eq!(items[1].tasks.as_ref().unwrap()[0].priority, Some(Priority::P4));
    assert!(items[2].tasks.is_none());
    cache.merge("nowhere", vec![task("lost")]);
    let items = cache.items.as_ref().unwrap();
    assert!(items[0].tasks.is_none());
    assert_eq!(items[1].tasks.as_ref().unwrap().len(), 1);
    assert!(items[2].tasks.is_none());
    let mut empty = TasksLists::default();
    empty.merge("abc", vec![task("lost")]);
    assert!(empty.items.is_none());
}

#[test]
fn merge_with_no_tasks_marks_the_list_as_fetched() {
    let mut cache = three_lists();
    cache.merge("abc", Vec::new());
    assert_eq!(cache.items.as_ref().unwrap()[0].tasks.as_ref().unwrap().len(), 0);
    assert!(cache.items.as_ref().unwrap()[1].tasks.is_none());
}

#[test]
fn update_tasks_merges_into_the_cache_of_the_engine() {
    let mut engine = synced_engine();
    engine.update_tasks("ghi", vec![task("[p3] errand")]);
    let items = engine.task_lists.items.as_ref().unwrap();
    assert!(items[0].tasks.is_none());
    assert!(items[1].tasks.is_none());
    assert_eq!(items[2].tasks.as_ref().unwrap()[0].priority, Some(Priority::P3));
    assert!(engine.synced);
}

#[test]
fn prioritize_overwrites_a_stale_priority() {
    let mut stale = task("plain");
    stale.priority = Some(Priority::P1);
    let out = prioritize(vec![stale, task("[p2] x")]);
    assert_eq!(out[0].priority, Some(Priority::P5));
    assert_eq!(out[1].priority, Some(Priority::P2));
    assert_eq!(out[1].title, "[p2] x");
}

#[test]
fn first_use_fetches_the_lists_before_the_tasks() {
    let mut engine = GoogleTasks::new();
    assert!(matches!(
        engine.get_tasks_by_list_id("abc", Reply::Begin),
        Step::Ask(Request::ReadCredentials)
    ));
    assert_eq!(engine.stage, Stage::Syncing);
    assert!(matches!(
        engine.get_tasks_by_list_id("abc", Reply::Credentials(stored("tok", "r"))),
        Step::Ask(Request::FetchLists { .. })
    ));
    assert!(matches!(
        engine.get_tasks_by_list_id("abc", answer_lists(200, Some(three_lists()))),
        Step::Ask(Request::ReadCredentials)
    ));
    assert_eq!(engine.stage, Stage::Fetching);
    assert!(matches!(
        engine.get_tasks_by_list_id("abc", Reply::Credentials(stored("tok", "r"))),
        Step::Ask(Request::FetchTasks { .. })
    ));
    let step = engine.get_tasks_by_list_id("abc", answer_tasks(200, Some(vec![task("[p1] a")])));
    match step {
        Step::Done(cache) => {
            assert_eq!(cache.items.as_ref().unwrap()[0].tasks.as_ref().unwrap().len(), 1)
        }
        other => panic!("unexpected step {:?}", other),
    }
}

#[test]
fn task_fetch_recovers_from_one_unauthorized() {
    let mut engine = synced_engine();
    engine.get_tasks_by_list_id("abc", Reply::Begin);
    engine.get_tasks_by_list_id("abc", Reply::Credentials(stored("stale", "r1")));
    assert!(matches!(
        engine.get_tasks_by_list_id("abc", answer_tasks(401, None)),
        Step::Ask(Request::ReadCredentials)
    ));
    assert!(matches!(
        engine.get_tasks_by_list_id("abc", Reply::Credentials(stored("stale", "r1"))),
        Step::Ask(Request::RefreshGrant { .. })
    ));
    assert!(matches!(
        engine.get_tasks_by_list_id(
            "abc",
            Reply::Granted(Some(TokenGrant {
                access_token: "fresh".to_string(),
                refresh_token: Some("r2".to_string())
            }))
        ),
        Step::Ask(Request::WriteCredentials { .. })
    ));
    assert!(matches!(
        engine.get_tasks_by_list_id("abc", Reply::Stored(true)),
        Step::Ask(Request::ReadCredentials)
    ));
    match engine.get_tasks_by_list_id("abc", Reply::Credentials(stored("fresh", "r2"))) {
        Step::Ask(Request::FetchTasks { bearer, .. }) => assert_eq!(bearer, "fresh"),
        other => panic!("unexpected step {:?}", other),
    }
    assert!(matches!(
        engine.get_tasks_by_list_id("abc", answer_tasks(401, None)),
        Step::Failed(Error::Unauthorized)
    ));
    assert!(engine.task_lists.items.as_ref().unwrap()[0].tasks.is_none());
}

#[test]
fn failed_task_fetch_leaves_the_cache_alone() {
    let mut engine = synced_engine();
    engine.get_tasks_by_list_id("abc", Reply::Begin);
    engine.get_tasks_by_list_id("abc", Reply::Credentials(stored("tok", "r")));
    engine.get_tasks_by_list_id("abc", answer_tasks(200, Some(vec![task("kept")])));
    engine.get_tasks_by_list_id("abc", Reply::Begin);
    engine.get_tasks_by_list_id("abc", Reply::Credentials(stored("tok", "r")));
    let step = engine.get_tasks_by_list_id("abc", answer_tasks(503, None));
    match step {
        Step::Done(cache) => assert_eq!(titles(&cache.items.as_ref().unwrap()[0]), vec!["kept"]),
        other => panic!("unexpected step {:?}", other),
    }
}

#[test]
fn body_without_items_counts_as_no_tasks() {
    let mut engine = synced_engine();
    engine.get_tasks_by_list_id("abc", Reply::Begin);
    engine.get_tasks_by_list_id("abc", Reply::Credentials(stored("tok", "r")));
    let body = TasksResponse { kind: String::new(), etag: String::new(), items: None };
    engine.get_tasks_by_list_id("abc", Reply::Tasks { status: Some(200), body: Some(body) });
    assert_eq!(engine.task_lists.items.as_ref().unwrap()[0].tasks.as_ref().unwrap().len(), 0);
}

#[test]
fn all_tasks_survive_a_failing_list() {
    let mut engine = synced_engine();
    let mut fetched_urls = Vec::new();
    let mut reply = Reply::Begin;
    let result = loop {
        match engine.get_all_tasks(reply) {
            Step::Ask(Request::ReadCredentials) => reply = Reply::Credentials(stored("tok", "r")),
            Step::Ask(Request::FetchTasks { url, .. }) => {
                reply = if url.ends_with("/lists/abc/tasks") {
                    answer_tasks(200, Some(vec![task("[p1] first")]))
                } else if url.ends_with("/lists/def/tasks") {
                    answer_tasks(500, None)
                } else {
                    answer_tasks(200, Some(vec![task("third a"), task("[p4] third b")]))
                };
                fetched_urls.push(url);
            }
            Step::Ask(other) => panic!("unexpected request {:?}", other),
            Step::Done(cache) => break cache,
            Step::Failed(error) => panic!("walk failed: {:?}", error),
        }
    };
    assert_eq!(fetched_urls.len(), 3);
    let items = result.items.as_ref().unwrap();
    assert_eq!(titles(&items[0]), vec!["[p1] first"]);
    assert!(items[1].tasks.is_none());
    assert_eq!(titles(&items[2]), vec!["third a", "[p4] third b"]);
    assert_eq!(items[2].tasks.as_ref().unwrap()[1].priority, Some(Priority::P4));
    assert_eq!(engine.walk, Walk::Idle);
    assert_eq!(titles(&engine.task_lists.items.as_ref().unwrap()[0]), vec!["[p1] first"]);
}

#[test]
fn all_tasks_fetches_the_lists_first() {
    let mut engine = GoogleTasks::new();
    let mut requests = Vec::new();
    let mut reply = Reply::Begin;
    let result = loop {
        match engine.get_all_tasks(reply) {
            Step::Ask(request) => {
                reply = match &request {
                    Request::ReadCredentials => Reply::Credentials(stored("tok", "r")),
                    Request::FetchLists { .. } => answer_lists(200, Some(three_lists())),
                    Request::FetchTasks { .. } => answer_tasks(200, Some(vec![task("t")])),
                    other => panic!("unexpected request {:?}", other),
                };
                requests.push(request);
            }
            Step::Done(cache) => break cache,
            Step::Failed(error) => panic!("walk failed: {:?}", error),
        }
    };
    assert!(matches!(requests[1], Request::FetchLists { .. }));
    let gets = requests.iter().filter(|r| matches!(r, Request::FetchTasks { .. })).count();
    assert_eq!(gets, 3);
    assert!(result.items.as_ref().unwrap().iter().all(|l| l.tasks.as_ref().unwrap().len() == 1));
}

#[test]
fn all_tasks_over_an_unreachable_service_is_empty() {
    let mut engine = GoogleTasks::new();
    engine.get_all_tasks(Reply::Begin);
    engine.get_all_tasks(Reply::Credentials(stored("tok", "r")));
    let step = engine.get_all_tasks(Reply::Lists { status: None, body: None });
    assert!(matches!(step, Step::Done(cache) if cache.items.is_none()));
    assert_eq!(engine.walk, Walk::Idle);
}

#[test]
fn all_tasks_stops_where_the_session_fails() {
    let mut engine = synced_engine();
    engine.get_all_tasks(Reply::Begin);
    let step = engine.get_all_tasks(Reply::Credentials(StoredCredentials {
        access_token: None,
        refresh_token: None,
    }));
    assert!(matches!(step, Step::Failed(Error::CredentialsNotFound)));
    assert_eq!(engine.walk, Walk::Idle);
}

#[test]
fn task_is_created_in_the_named_list() {
    let mut engine = GoogleTasks::new();
    assert!(matches!(
        engine.add_tasks("abc", "[p2] new", Reply::Begin),
        Step::Ask(Request::ReadCredentials)
    ));
    match engine.add_tasks("abc", "[p2] new", Reply::Credentials(stored("tok", "r"))) {
        Step::Ask(Request::CreateTask { url, bearer, title }) => {
            assert_eq!(url, "https://tasks.googleapis.com/tasks/v1/lists/abc/tasks");
            assert_eq!(bearer, "tok");
            assert_eq!(title, "[p2] new");
        }
        other => panic!("unexpected step {:?}", other),
    }
    let created = Reply::Created { status: Some(200), body: Some(task("[p2] new")) };
    match engine.add_tasks("abc", "[p2] new", created) {
        Step::Done(found) => assert_eq!(found.title, "[p2] new"),
        other => panic!("unexpected step {:?}", other),
    }
}

#[test]
fn refused_creation_is_create_failed() {
    for status in [199u16, 300, 400, 401, 404, 500] {
        let mut engine = GoogleTasks::new();
        engine.add_tasks("abc", "t", Reply::Begin);
        engine.add_tasks("abc", "t", Reply::Credentials(stored("tok", "r")));
        let step =
            engine.add_tasks("abc", "t", Reply::Created { status: Some(status), body: None });
        assert!(matches!(step, Step::Failed(Error::CreateFailed)));
    }
    for status in [200u16, 201, 204, 299] {
        let mut engine = GoogleTasks::new();
        engine.add_tasks("abc", "t", Reply::Begin);
        engine.add_tasks("abc", "t", Reply::Credentials(stored("tok", "r")));
        let step = engine
            .add_tasks("abc", "t", Reply::Created { status: Some(status), body: Some(task("t")) });
        assert!(matches!(step, Step::Done(_)));
    }
}

#[test]
fn unreachable_service_on_creation_is_remote_unavailable() {
    let mut engine = GoogleTasks::new();
    engine.add_tasks("abc", "t", Reply::Begin);
    engine.add_tasks("abc", "t", Reply::Credentials(stored("tok", "r")));
    let step = engine.add_tasks("abc", "t", Reply::Created { status: None, body: None });
    assert!(matches!(step, Step::Failed(Error::RemoteUnavailable)));
}

#[test]
fn creation_without_session_fails() {
    let mut engine = GoogleTasks::new();
    engine.add_tasks("abc", "t", Reply::Begin);
    let step = engine.add_tasks(
        "abc",
        "t",
        Reply::Credentials(StoredCredentials { access_token: None, refresh_token: None }),
    );
    assert!(matches!(step, Step::Failed(Error::CredentialsNotFound)));
}

#[test]
fn copies_are_deep() {
    let mut source = three_lists();
    source.merge("abc", vec![task("[p1] a")]);
    let copy = source.clone();
    source.merge("abc", vec![task("changed"), task("twice")]);
    assert_eq!(titles(&copy.items.as_ref().unwrap()[0]), vec!["[p1] a"]);
    assert_eq!(copy.items.as_ref().unwrap()[0].tasks.as_ref().unwrap()[0].priority, Some(Priority::P1));
    assert_eq!(copy.kind, "tasks#taskLists");
    let one = task("x").clone();
    assert_eq!(one.web_view_link, "https://tasks.example/t");
    assert_eq!(Tasks::default().title, "");
    assert_eq!(TasksList::default().updated, Timestamp { seconds: 0, nanos: 0 });
}
