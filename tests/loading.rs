use jsonb_bench::batching::{plan_batches, Batch};
use jsonb_bench::copy_load::{CopyAction, CopyLoad};
use jsonb_bench::error::BenchError;
use jsonb_bench::search_load::{BatchVerdict, BulkAction, BulkLoad, BulkReply};

fn ok_reply(errors: Option<bool>) -> BulkReply {
    BulkReply::Http { status: 200, errors, body: String::new() }
}

#[test]
fn empty_corpus_has_no_batch() {
    assert!(plan_batches(0, 1000).is_empty());
    let load = BulkLoad::new(0, 1000);
    assert_eq!(load.next_action(), BulkAction::Refresh);
}

#[test]
fn divisible_corpus_has_no_trailing_batch() {
    let plan = plan_batches(3000, 1000);
    assert_eq!(
        plan,
        vec![
            Batch { start: 0, end: 1000 },
            Batch { start: 1000, end: 2000 },
            Batch { start: 2000, end: 3000 },
        ]
    );
}

#[test]
fn last_batch_holds_the_remainder() {
    let plan = plan_batches(2500, 1000);
    assert_eq!(plan.len(), 3);
    assert_eq!(plan[2], Batch { start: 2000, end: 2500 });
    assert_eq!(plan_batches(1, 1000), vec![Batch { start: 0, end: 1 }]);
    assert_eq!(plan_batches(5, 1).len(), 5);
}

#[test]
fn partial_bulk_failure_does_not_abort() {
    let mut load = BulkLoad::new(25, 10);
    assert_eq!(load.next_action(), BulkAction::Send(Batch { start: 0, end: 10 }));
    assert_eq!(load.record_reply(ok_reply(Some(true))), BatchVerdict::AcceptedWithItemErrors);
    assert_eq!(load.next_action(), BulkAction::Send(Batch { start: 10, end: 20 }));
    assert_eq!(load.record_reply(ok_reply(Some(false))), BatchVerdict::Accepted);
    assert_eq!(load.next_action(), BulkAction::Send(Batch { start: 20, end: 25 }));
    assert_eq!(load.record_reply(ok_reply(None)), BatchVerdict::Accepted);
    assert_eq!(load.next_action(), BulkAction::Refresh);
    load.record_refresh(None);
    assert_eq!(load.next_action(), BulkAction::Finished);
    assert_eq!(load.partial_failures(), &vec![0usize]);
    assert_eq!(load.failure_reason(), &None);
}

#[test]
fn non_success_bulk_status_aborts_the_load() {
    let mut load = BulkLoad::new(30, 10);
    load.record_reply(ok_reply(None));
    let reply = BulkReply::Http { status: 413, errors: None, body: "too large".to_string() };
    assert_eq!(load.record_reply(reply), BatchVerdict::Rejected);
    assert_eq!(load.next_action(), BulkAction::Abort);
    assert_eq!(
        load.failure_reason(),
        &Some(BenchError::BulkRejected { status: 413, body: "too large".to_string() })
    );
}

#[test]
fn unreachable_or_malformed_bulk_reply_aborts() {
    let mut a = BulkLoad::new(5, 10);
    assert_eq!(a.record_reply(BulkReply::Unreachable("refused".to_string())), BatchVerdict::Rejected);
    assert_eq!(a.failure_reason(), &Some(BenchError::Connectivity("refused".to_string())));
    let mut b = BulkLoad::new(5, 10);
    assert_eq!(b.record_reply(BulkReply::Malformed("not json".to_string())), BatchVerdict::Rejected);
    assert_eq!(b.failure_reason(), &Some(BenchError::Protocol("not json".to_string())));
    assert_eq!(b.next_action(), BulkAction::Abort);
}

#[test]
fn failed_refresh_fails_the_load() {
    let mut load = BulkLoad::new(1, 10);
    load.record_reply(ok_reply(None));
    load.record_refresh(Some("timeout".to_string()));
    assert_eq!(load.next_action(), BulkAction::Abort);
    assert_eq!(load.failure_reason(), &Some(BenchError::Connectivity("timeout".to_string())));
}

#[test]
fn copy_writes_every_row_then_finishes() {
    let mut copy = CopyLoad::new(3);
    for i in 0..3usize {
        assert_eq!(copy.next_action(), CopyAction::WriteRow(i));
        copy.record_write(true);
    }
    assert_eq!(copy.next_action(), CopyAction::Finish);
    copy.record_finish(true);
    assert_eq!(copy.next_action(), CopyAction::Finished);
    assert_eq!(copy.rows_written(), 3);
    assert_eq!(copy.failure_reason(), None);
}

#[test]
fn failed_write_aborts_without_finish() {
    let mut copy = CopyLoad::new(10);
    for _ in 0..4 {
        copy.record_write(true);
    }
    assert_eq!(copy.next_action(), CopyAction::WriteRow(4));
    copy.record_write(false);
    assert_eq!(copy.next_action(), CopyAction::Abort);
    assert_eq!(copy.failure_reason(), Some(BenchError::AbortedStream { rows_written: 4 }));
}

#[test]
fn failed_finish_commits_nothing() {
    let mut copy = CopyLoad::new(0);
    assert_eq!(copy.next_action(), CopyAction::Finish);
    copy.record_finish(false);
    assert_eq!(copy.next_action(), CopyAction::Abort);
    assert_eq!(copy.failure_reason(), Some(BenchError::CopyNotCommitted));
}
