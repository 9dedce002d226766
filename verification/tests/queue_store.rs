use fjall::{Config, PartitionCreateOptions};
use rsky_appview::queue::{distinct_partitions, job_key, IndexQueue, QueueKind};

fn open_queue(tag: &str) -> IndexQueue {
    let nanos = chrono::Utc::now().timestamp_nanos_opt().unwrap_or(0);
    let path = format!("/tmp/rsky-appview-{tag}-{nanos}");
    let keyspace = Config::new(&path).temporary(true).open().expect("keyspace opens");
    let live = keyspace
        .open_partition("live_queue", PartitionCreateOptions::default())
        .expect("live partition opens");
    let backfill = keyspace
        .open_partition("backfill_queue", PartitionCreateOptions::default())
        .expect("backfill partition opens");
    let cursors = keyspace
        .open_partition("cursors", PartitionCreateOptions::default())
        .expect("cursor partition opens");
    assert!(distinct_partitions(&live, &backfill, &cursors));
    IndexQueue::from_parts(keyspace, live, backfill, cursors)
}

#[test]
fn saved_cursors_read_back_until_deleted() {
    let mut q = open_queue("cursors");
    assert_eq!(q.load_cursor("firehose:bsky.network").expect("loads"), None);
    q.save_cursor("firehose:bsky.network", 123_456_789).expect("saves");
    q.save_cursor("firehose:other.relay", -5).expect("saves");
    assert_eq!(q.load_cursor("firehose:bsky.network").expect("loads"), Some(123_456_789));
    assert_eq!(q.load_cursor("firehose:other.relay").expect("loads"), Some(-5));
    q.delete_cursor("firehose:bsky.network").expect("deletes");
    assert_eq!(q.load_cursor("firehose:bsky.network").expect("loads"), None);
    assert_eq!(q.load_cursor("firehose:other.relay").expect("loads"), Some(-5));
}

#[test]
fn jobs_come_off_in_key_order() {
    let mut q = open_queue("jobs");
    assert!(q.first_job(QueueKind::Live).expect("reads").is_none());
    q.enqueue(QueueKind::Live, 20, "did:plc:b", b"second").expect("queues");
    q.enqueue(QueueKind::Live, 10, "did:plc:a", b"first").expect("queues");
    q.enqueue(QueueKind::Backfill, 5, "did:plc:c", b"elsewhere").expect("queues");
    let (key, value) = q.first_job(QueueKind::Live).expect("reads").expect("a job is queued");
    assert_eq!(key, job_key(10, "did:plc:a").into_bytes());
    assert_eq!(value, b"first".to_vec());
    q.remove_job(QueueKind::Live, &key).expect("removes");
    let (key, value) = q.first_job(QueueKind::Live).expect("reads").expect("a job is queued");
    assert_eq!(key, b"20:did:plc:b".to_vec());
    assert_eq!(value, b"second".to_vec());
    q.remove_job(QueueKind::Live, &key).expect("removes");
    assert!(q.first_job(QueueKind::Live).expect("reads").is_none());
    let (_, value) = q.first_job(QueueKind::Backfill).expect("reads").expect("a job is queued");
    assert_eq!(value, b"elsewhere".to_vec());
}

#[test]
fn one_partition_opened_twice_is_not_three() {
    let nanos = chrono::Utc::now().timestamp_nanos_opt().unwrap_or(0);
    let path = format!("/tmp/rsky-appview-alias-{nanos}");
    let keyspace = Config::new(&path).temporary(true).open().expect("keyspace opens");
    let a = keyspace.open_partition("jobs", PartitionCreateOptions::default()).expect("opens");
    let b = keyspace.open_partition("jobs", PartitionCreateOptions::default()).expect("opens again");
    let c = keyspace.open_partition("cursors", PartitionCreateOptions::default()).expect("opens");
    assert!(!distinct_partitions(&a, &b, &c));
    assert!(!distinct_partitions(&a, &c, &c));
}
