use r2_s3::{Action, BatchResult, BulkDelete, Errs, Event, Page};

fn page(keys: Vec<String>, token: Option<&str>) -> Event {
    Event::Listed(Page {
        keys,
        truncated: token.is_some(),
        next_token: token.map(|t| t.to_string()),
    })
}

fn done(failed: Vec<(&str, &str)>) -> Event {
    Event::Deleted(BatchResult {
        deleted: Vec::new(),
        failed: failed
            .into_iter()
            .map(|(k, m)| (k.to_string(), m.to_string()))
            .collect(),
    })
}

fn keys(prefix: &str, n: usize) -> Vec<String> {
    (0..n).map(|i| format!("{prefix}obj-{i}")).collect()
}

#[test]
fn two_pages_one_failure() {
    let mut run = BulkDelete::new();
    let mut lists = 1;
    assert_eq!(run.step(page(keys("logs/2024/", 1000), Some("t1"))), Action::DeleteBatch);
    assert_eq!(run.batch().len(), 1000);
    assert_eq!(run.token().as_deref(), Some("t1"));
    assert_eq!(run.step(done(vec![])), Action::List);
    lists += 1;
    let mut second = keys("logs/2024/more-", 249);
    second.insert(100, "logs/2024/corrupt".to_string());
    assert_eq!(run.step(page(second, None)), Action::DeleteBatch);
    assert_eq!(run.batch().len(), 250);
    assert_eq!(run.batch()[100], "logs/2024/corrupt");
    assert_eq!(
        run.step(done(vec![("logs/2024/corrupt", "access denied")])),
        Action::Stop
    );
    assert_eq!(lists, 2);
    let summary = run.into_result().unwrap().unwrap();
    assert_eq!(summary.total, 1250);
    assert_eq!(summary.deleted, 1249);
    assert_eq!(
        summary.failed,
        vec![("logs/2024/corrupt".to_string(), "access denied".to_string())]
    );
}

#[test]
fn nothing_under_prefix() {
    let mut run = BulkDelete::new();
    assert!(run.token().is_none());
    assert_eq!(run.step(page(Vec::new(), None)), Action::Stop);
    let summary = run.into_result().unwrap().unwrap();
    assert_eq!(summary.total, 0);
    assert_eq!(summary.deleted, 0);
    assert!(summary.failed.is_empty());
}

#[test]
fn second_run_finds_nothing() {
    let mut first = BulkDelete::new();
    assert_eq!(first.step(page(keys("a/", 3), None)), Action::DeleteBatch);
    assert_eq!(first.step(done(vec![])), Action::Stop);
    let s = first.into_result().unwrap().unwrap();
    assert_eq!((s.total, s.deleted), (3, 3));

    let mut second = BulkDelete::new();
    assert_eq!(second.step(page(Vec::new(), None)), Action::Stop);
    let s = second.into_result().unwrap().unwrap();
    assert_eq!((s.total, s.deleted, s.failed.len()), (0, 0, 0));
}

#[test]
fn list_failure_keeps_partial_summary() {
    let mut run = BulkDelete::new();
    run.step(page(keys("p/", 4), Some("next")));
    assert_eq!(run.step(done(vec![("p/obj-1", "denied")])), Action::List);
    assert_eq!(run.token().as_deref(), Some("next"));
    assert_eq!(run.step(Event::ListFailed("timeout".to_string())), Action::Stop);
    let aborted = run.into_result().unwrap().unwrap_err();
    assert!(matches!(aborted.error, Errs::List(ref m) if m == "timeout"));
    assert_eq!(aborted.summary.total, 4);
    assert_eq!(aborted.summary.deleted, 3);
    assert_eq!(aborted.summary.failed.len(), 1);
}

#[test]
fn batch_failure_is_fatal() {
    let mut run = BulkDelete::new();
    run.step(page(keys("p/", 2), Some("next")));
    assert_eq!(run.step(Event::DeleteFailed("network".to_string())), Action::Stop);
    let aborted = run.into_result().unwrap().unwrap_err();
    assert!(matches!(aborted.error, Errs::Delete(ref m) if m == "network"));
    assert_eq!(aborted.summary.total, 2);
    assert_eq!(aborted.summary.deleted, 0);
}

#[test]
fn first_list_failure_reports_nothing_done() {
    let mut run = BulkDelete::new();
    assert_eq!(run.step(Event::ListFailed("no such bucket".to_string())), Action::Stop);
    let aborted = run.into_result().unwrap().unwrap_err();
    assert!(matches!(aborted.error, Errs::List(_)));
    assert_eq!(aborted.summary.total, 0);
}

#[test]
fn unexpected_event_repeats_request() {
    let mut run = BulkDelete::new();
    assert_eq!(run.step(done(vec![])), Action::List);
    assert!(run.into_result().is_none());
    let mut run = BulkDelete::new();
    run.step(page(keys("x/", 1), None));
    assert_eq!(run.step(page(keys("y/", 5), None)), Action::DeleteBatch);
    assert_eq!(run.summary().total, 1);
    assert_eq!(run.batch()[0], "x/obj-0");
}

#[test]
fn untruncated_page_ends_run_despite_token() {
    let mut run = BulkDelete::new();
    let event = Event::Listed(Page {
        keys: keys("k/", 2),
        truncated: false,
        next_token: Some("stale".to_string()),
    });
    assert_eq!(run.step(event), Action::DeleteBatch);
    assert!(run.token().is_none());
    assert_eq!(run.step(done(vec![])), Action::Stop);
}

#[test]
fn failure_for_unsubmitted_key_is_recorded_only() {
    let mut run = BulkDelete::new();
    run.step(page(keys("k/", 3), None));
    run.step(done(vec![("other", "odd"), ("k/obj-2", "locked")]));
    let s = run.into_result().unwrap().unwrap();
    assert_eq!(s.deleted, 2);
    assert_eq!(s.failed.len(), 2);
    assert_eq!(s.failed[0].0, "other");
    assert_eq!(s.failed[1].1, "locked");
}

#[test]
fn stopped_run_stays_stopped() {
    let mut run = BulkDelete::new();
    run.step(page(Vec::new(), None));
    assert_eq!(run.step(page(keys("z/", 2), None)), Action::Stop);
    assert_eq!(run.summary().total, 0);
}
