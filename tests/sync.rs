use todo_app::dispatcher::{Dispatcher, Outcome};
use todo_app::overlay::pending_titles;
use todo_app::record::{title_is_valid, Todo};
use todo_app::resource::{DependencyKey, Resource};
use todo_app::todos::Todos;

fn todo(id: u16, title: &str) -> Todo {
    Todo::new(id, title.to_string(), false)
}

fn key(c: u64, d: u64) -> DependencyKey {
    DependencyKey { create_version: c, delete_version: d }
}

#[test]
fn version_counts_each_settlement_once() {
    let mut d: Dispatcher<String> = Dispatcher::new();
    assert_eq!(d.version(), 0);
    let a = d.dispatch("a".to_string());
    let b = d.dispatch("b".to_string());
    assert_eq!((a, b), (0, 1));
    assert_eq!(d.version(), 0);
    assert!(d.settle(b, Err("refused".to_string())));
    assert_eq!(d.version(), 1);
    assert!(d.settle(a, Ok(())));
    assert_eq!(d.version(), 2);
    // A second settlement of the same submission is not recorded.
    assert!(!d.settle(a, Ok(())));
    assert_eq!(d.version(), 2);
    // Nor is one of a handle that was never dispatched.
    assert!(!d.settle(7, Ok(())));
    assert_eq!(d.version(), 2);
    assert_eq!(d.submission(a).outcome, Outcome::Succeeded);
    assert_eq!(d.submission(b).outcome, Outcome::Failed("refused".to_string()));
    assert_eq!(d.submission(b).dispatched_at, 0);
    assert_eq!(d.len(), 2);
}

#[test]
fn repeated_key_issues_no_extra_fetch() {
    let mut r = Resource::new();
    assert_eq!(r.observe(key(0, 0)), Some(1));
    assert_eq!(r.observe(key(0, 0)), None);
    assert_eq!(r.fetches_issued(), 1);
    assert_eq!(r.observe(key(1, 0)), Some(2));
    assert_eq!(r.observe(key(1, 1)), Some(3));
    assert_eq!(r.observe(key(1, 1)), None);
    assert_eq!(r.fetches_issued(), 3);
}

#[test]
fn later_fetch_wins_over_earlier_that_settles_last() {
    let mut r = Resource::new();
    let a = r.observe(key(0, 0)).unwrap();
    let b = r.observe(key(1, 0)).unwrap();
    assert!(r.is_loading());
    assert!(r.complete(b, Ok(vec![todo(2, "new")])));
    assert!(!r.is_loading());
    assert!(!r.complete(a, Ok(vec![todo(1, "old")])));
    assert_eq!(r.snapshot(), &vec![todo(2, "new")]);
    assert_eq!(r.error(), &None);
}

#[test]
fn fetch_failure_keeps_snapshot_and_reports() {
    let mut r = Resource::new();
    let a = r.observe(key(0, 0)).unwrap();
    assert!(r.complete(a, Ok(vec![todo(1, "x")])));
    let b = r.observe(key(0, 1)).unwrap();
    assert!(r.complete(b, Err("connection lost".to_string())));
    assert_eq!(r.snapshot(), &vec![todo(1, "x")]);
    assert_eq!(r.error(), &Some("connection lost".to_string()));
    let c = r.observe(key(0, 2)).unwrap();
    assert!(r.complete(c, Ok(vec![])));
    assert!(r.snapshot().is_empty());
    assert_eq!(r.error(), &None);
}

#[test]
fn unissued_fetch_result_is_discarded() {
    let mut r = Resource::new();
    assert!(!r.complete(0, Ok(vec![todo(1, "x")])));
    assert!(!r.complete(1, Ok(vec![todo(1, "x")])));
    assert!(r.snapshot().is_empty());
}

#[test]
fn overlay_drops_submission_once_version_moves_on() {
    let mut d: Dispatcher<String> = Dispatcher::new();
    let a = d.dispatch("first".to_string());
    let _b = d.dispatch("second".to_string());
    assert_eq!(pending_titles(&d), vec!["first".to_string(), "second".to_string()]);
    assert!(d.settle(a, Ok(())));
    // The second is still unsettled, but the version has moved past it.
    assert!(pending_titles(&d).is_empty());
    let c = d.dispatch("third".to_string());
    assert_eq!(c, 2);
    assert_eq!(pending_titles(&d), vec!["third".to_string()]);
}

#[test]
fn scenario_add() {
    let mut t = Todos::new();
    let first = t.refresh().unwrap();
    assert!(t.fetch_settled(first, Ok(vec![])));
    assert!(t.is_empty());
    let h = t.add_todo("Buy milk".to_string());
    assert_eq!(t.pending_titles(), vec!["Buy milk".to_string()]);
    assert_eq!(t.refresh(), None);
    let fetch = t.settle_add(h, Ok(())).unwrap();
    assert!(t.pending_titles().is_empty());
    assert!(t.fetch_settled(fetch, Ok(vec![todo(1, "Buy milk")])));
    assert_eq!(t.resource().snapshot(), &vec![Todo::new(1, "Buy milk".to_string(), false)]);
    assert!(t.pending_titles().is_empty());
    assert!(!t.is_empty());
}

#[test]
fn scenario_delete() {
    let mut t = Todos::new();
    let first = t.refresh().unwrap();
    assert!(t.fetch_settled(first, Ok(vec![todo(1, "a"), todo(2, "b")])));
    let h = t.delete_todo(1);
    // No optimistic removal: the row stays until the refetch.
    assert_eq!(t.resource().snapshot().len(), 2);
    let fetch = t.settle_delete(h, Ok(())).unwrap();
    assert_eq!(t.deletes().version(), 1);
    assert!(t.fetch_settled(fetch, Ok(vec![todo(2, "b")])));
    assert_eq!(t.resource().snapshot(), &vec![todo(2, "b")]);
}

#[test]
fn scenario_failed_create() {
    let mut t = Todos::new();
    let first = t.refresh().unwrap();
    assert!(t.fetch_settled(first, Ok(vec![todo(1, "a")])));
    let h = t.add_todo(String::new());
    assert_eq!(t.pending_titles(), vec![String::new()]);
    let fetch = t.settle_add(h, Err("empty title".to_string())).unwrap();
    assert_eq!(t.creates().version(), 1);
    assert!(t.pending_titles().is_empty());
    assert_eq!(t.creates().submission(h).outcome, Outcome::Failed("empty title".to_string()));
    assert!(t.fetch_settled(fetch, Ok(vec![todo(1, "a")])));
    assert_eq!(t.resource().snapshot(), &vec![todo(1, "a")]);
}

#[test]
fn settling_unknown_handle_changes_nothing() {
    let mut t = Todos::new();
    assert_eq!(t.settle_add(0, Ok(())), None);
    assert_eq!(t.settle_delete(3, Ok(())), None);
    assert_eq!(t.creates().version(), 0);
    assert_eq!(t.resource().fetches_issued(), 0);
}

#[test]
fn dependency_key_follows_both_versions() {
    let mut t = Todos::new();
    let a = t.add_todo("x".to_string());
    let d = t.delete_todo(4);
    assert_eq!(t.dependency_key(), key(0, 0));
    t.settle_delete(d, Ok(()));
    assert_eq!(t.dependency_key(), key(0, 1));
    t.settle_add(a, Ok(()));
    assert_eq!(t.dependency_key(), key(1, 1));
    assert_eq!(t.resource().fetches_issued(), 2);
}

#[test]
fn empty_title_is_refused() {
    assert!(!title_is_valid(""));
    assert!(title_is_valid("Buy milk"));
    assert!(title_is_valid(" "));
}
