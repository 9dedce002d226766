//! The indexing queue: its jobs, their storage keys, the stream cursors'
//! byte format, and the queue itself over three fjall partitions (live
//! jobs, backfill jobs, cursors).

use vstd::prelude::*;
use crate::appview::error::AppViewError;
use crate::text::{decimal_of, format_i64, has_prefix, str_eq, to_string};

verus! {

broadcast use vstd::string::group_string_axioms;

/// What happened to a record.
#[derive(Debug)]
pub enum IndexOperation {
    Create { uri: String, cid: String },
    Update { uri: String, cid: String },
    Delete { uri: String },
}

/// A queued repository operation.
#[derive(Debug)]
pub struct IndexJob {
    pub repo: String,
    pub commit_cid: String,
    pub rev: String,
    pub operation: IndexOperation,
    /// The record, as JSON text, when the commit carried it.
    pub record_json: Option<String>,
}

/// The storage key of a job queued at `nanos` (Unix nanoseconds) for `repo`.
pub open spec fn job_key_of(nanos: i64, repo: Seq<char>) -> Seq<char> {
    decimal_of(nanos as int) + seq![':'] + repo
}

/// The storage key of a job: `<nanos>:<repo>`.
pub fn job_key(nanos: i64, repo: &str) -> (r: String)
    ensures
        r@ == job_key_of(nanos, repo@),
{
    let mut k = format_i64(nanos);
    k.append(":");
    k.append(repo);
    proof {
        reveal_strlit(":");
    }
    k
}

/// The little-endian bytes of a cursor.
pub open spec fn cursor_le_bytes(c: i64) -> Seq<u8> {
    let u = c as u64;
    seq![
        (u & 0xff) as u8,
        ((u >> 8u64) & 0xff) as u8,
        ((u >> 16u64) & 0xff) as u8,
        ((u >> 24u64) & 0xff) as u8,
        ((u >> 32u64) & 0xff) as u8,
        ((u >> 40u64) & 0xff) as u8,
        ((u >> 48u64) & 0xff) as u8,
        ((u >> 56u64) & 0xff) as u8,
    ]
}

/// The cursor whose little-endian bytes are `b0..b7`.
pub open spec fn cursor_of_le(b0: u8, b1: u8, b2: u8, b3: u8, b4: u8, b5: u8, b6: u8, b7: u8) -> i64 {
    ((b0 as u64) | ((b1 as u64) << 8u64) | ((b2 as u64) << 16u64) | ((b3 as u64) << 24u64) | ((
    b4 as u64) << 32u64) | ((b5 as u64) << 40u64) | ((b6 as u64) << 48u64) | ((b7 as u64)
        << 56u64)) as i64
}

/// The stored form of a stream cursor (`i64::to_le_bytes`).
pub fn cursor_bytes(c: i64) -> (r: [u8; 8])
    ensures
        r@ == cursor_le_bytes(c),
{
    let u = c as u64;
    let r = [
        (u & 0xff) as u8,
        ((u >> 8u64) & 0xff) as u8,
        ((u >> 16u64) & 0xff) as u8,
        ((u >> 24u64) & 0xff) as u8,
        ((u >> 32u64) & 0xff) as u8,
        ((u >> 40u64) & 0xff) as u8,
        ((u >> 48u64) & 0xff) as u8,
        ((u >> 56u64) & 0xff) as u8,
    ];
    assert(r@ =~= cursor_le_bytes(c));
    r
}

/// The cursor stored as `bytes`; anything but eight bytes is refused.
pub fn cursor_from_bytes(bytes: &[u8]) -> (r: Result<i64, AppViewError>)
    ensures
        bytes@.len() == 8 ==> (r matches Ok(c) && c == cursor_of_le(
            bytes@[0],
            bytes@[1],
            bytes@[2],
            bytes@[3],
            bytes@[4],
            bytes@[5],
            bytes@[6],
            bytes@[7],
        )),
        bytes@.len() != 8 ==> (r matches Err(AppViewError::Storage(m)) && m@
            == "invalid cursor format"@),
{
    if bytes.len() != 8 {
        return Err(AppViewError::Storage(to_string("invalid cursor format")));
    }
    let v: u64 = (bytes[0] as u64) | ((bytes[1] as u64) << 8u64) | ((bytes[2] as u64) << 16u64)
        | ((bytes[3] as u64) << 24u64) | ((bytes[4] as u64) << 32u64) | ((bytes[5] as u64) << 40u64)
        | ((bytes[6] as u64) << 48u64) | ((bytes[7] as u64) << 56u64);
    Ok(v as i64)
}

/// Reading a stored cursor gives back the cursor that was stored.
pub proof fn law_cursor_roundtrip(c: i64)
    ensures
        cursor_of_le(
            cursor_le_bytes(c)[0],
            cursor_le_bytes(c)[1],
            cursor_le_bytes(c)[2],
            cursor_le_bytes(c)[3],
            cursor_le_bytes(c)[4],
            cursor_le_bytes(c)[5],
            cursor_le_bytes(c)[6],
            cursor_le_bytes(c)[7],
        ) == c,
{
    let u = c as u64;
    let b0 = (u & 0xff) as u8;
    let b1 = ((u >> 8u64) & 0xff) as u8;
    let b2 = ((u >> 16u64) & 0xff) as u8;
    let b3 = ((u >> 24u64) & 0xff) as u8;
    let b4 = ((u >> 32u64) & 0xff) as u8;
    let b5 = ((u >> 40u64) & 0xff) as u8;
    let b6 = ((u >> 48u64) & 0xff) as u8;
    let b7 = ((u >> 56u64) & 0xff) as u8;
    assert(((b0 as u64) | ((b1 as u64) << 8u64) | ((b2 as u64) << 16u64) | ((b3 as u64) << 24u64)
        | ((b4 as u64) << 32u64) | ((b5 as u64) << 40u64) | ((b6 as u64) << 48u64) | ((b7 as u64)
        << 56u64)) == u) by (bit_vector)
        requires
            b0 == (u & 0xff) as u8,
            b1 == ((u >> 8u64) & 0xff) as u8,
            b2 == ((u >> 16u64) & 0xff) as u8,
            b3 == ((u >> 24u64) & 0xff) as u8,
            b4 == ((u >> 32u64) & 0xff) as u8,
            b5 == ((u >> 40u64) & 0xff) as u8,
            b6 == ((u >> 48u64) & 0xff) as u8,
            b7 == ((u >> 56u64) & 0xff) as u8,
    ;
    assert((u as i64) == c) by (bit_vector)
        requires
            u == c as u64,
    ;
}


/// `fjall::Keyspace`, the store the partitions live in.
#[verifier::external_type_specification]
#[verifier::external_body]
pub struct ExKeyspace(fjall::Keyspace);

/// `fjall::PartitionHandle`, one ordered key-value partition.
#[verifier::external_type_specification]
#[verifier::external_body]
pub struct ExPartitionHandle(fjall::PartitionHandle);

/// What a partition holds: its keys and their values, as bytes.
pub uninterp spec fn partition_contents(p: fjall::PartitionHandle) -> Map<Seq<u8>, Seq<u8>>;

/// The name a partition handle was opened under.
pub uninterp spec fn partition_name_of(p: fjall::PartitionHandle) -> Seq<char>;

/// The name of the partition a handle stands for (its `name` field).
/// Tied to `partition_name_of`; `Keyspace::open_partition` hands out the
/// one partition registered under a name, so handles of different names
/// are of different partitions.
#[verifier::external_body]
fn partition_name(p: &fjall::PartitionHandle) -> (r: String)
    ensures
        r@ == partition_name_of(*p),
{
    p.name.to_string()
}

/// Three handles name three different partitions.
pub open spec fn distinct_names(a: fjall::PartitionHandle, b: fjall::PartitionHandle, c: fjall::PartitionHandle) -> bool {
    partition_name_of(a) != partition_name_of(b) && partition_name_of(a) != partition_name_of(c)
        && partition_name_of(b) != partition_name_of(c)
}

/// Whether the three handles are of three different partitions, by name.
pub fn distinct_partitions(
    a: &fjall::PartitionHandle,
    b: &fjall::PartitionHandle,
    c: &fjall::PartitionHandle,
) -> (r: bool)
    ensures
        r == distinct_names(*a, *b, *c),
{
    let na = partition_name(a);
    let nb = partition_name(b);
    let nc = partition_name(c);
    !str_eq(na.as_str(), nb.as_str()) && !str_eq(na.as_str(), nc.as_str()) && !str_eq(nb.as_str(), nc.as_str())
}

/// The longest key a partition takes, in bytes; a longer one panics.
pub const MAX_KEY_BYTES: usize = 65535;

/// The largest value a partition's journal records, in bytes.
pub const MAX_VALUE_BYTES: u64 = 0xffff_ffff;

/// `a` sorts no later than `b`, byte by byte, a prefix first.
pub open spec fn bytes_le(a: Seq<u8>, b: Seq<u8>) -> bool
    decreases a.len(),
{
    if a.len() == 0 {
        true
    } else if b.len() == 0 {
        false
    } else if a[0] != b[0] {
        a[0] < b[0]
    } else {
        bytes_le(a.skip(1), b.skip(1))
    }
}

/// `PartitionHandle::insert`. Once it succeeds the key holds the value; an
/// error can come before the item is written or after, so on failure the
/// partition holds either what it held or the new item. The handle is taken
/// `&mut` here to mark the write. An empty or over-long key panics.
#[verifier::external_body]
fn partition_insert(p: &mut fjall::PartitionHandle, key: &[u8], value: &[u8]) -> (r: Result<(), String>)
    requires
        0 < key@.len() <= MAX_KEY_BYTES,
        value@.len() <= MAX_VALUE_BYTES,
    ensures
        r is Ok ==> partition_contents(*final(p)) == partition_contents(*old(p)).insert(key@, value@),
        r is Err ==> partition_contents(*final(p)) == partition_contents(*old(p))
            || partition_contents(*final(p)) == partition_contents(*old(p)).insert(key@, value@),
{
    p.insert(key, value).map_err(|e| e.to_string())
}

/// `PartitionHandle::remove`. Once it succeeds the key is gone; on failure
/// the partition holds either what it held or that without the key. An
/// empty or over-long key panics.
#[verifier::external_body]
fn partition_remove(p: &mut fjall::PartitionHandle, key: &[u8]) -> (r: Result<(), String>)
    requires
        0 < key@.len() <= MAX_KEY_BYTES,
    ensures
        r is Ok ==> partition_contents(*final(p)) == partition_contents(*old(p)).remove(key@),
        r is Err ==> partition_contents(*final(p)) == partition_contents(*old(p))
            || partition_contents(*final(p)) == partition_contents(*old(p)).remove(key@),
{
    p.remove(key).map_err(|e| e.to_string())
}

/// `PartitionHandle::get`: the value under the key, if any.
#[verifier::external_body]
fn partition_get(p: &fjall::PartitionHandle, key: &[u8]) -> (r: Result<Option<Vec<u8>>, String>)
    requires
        key@.len() <= MAX_KEY_BYTES,
    ensures
        r matches Ok(v) ==> match v {
            Some(b) => partition_contents(*p).contains_key(key@) && partition_contents(*p)[key@]
                == b@,
            None => !partition_contents(*p).contains_key(key@),
        },
{
    p.get(key).map(|v| v.map(|b| b.to_vec())).map_err(|e| e.to_string())
}

/// `PartitionHandle::first_key_value`: the entry with the smallest key, if
/// the partition holds any.
#[verifier::external_body]
fn partition_first(p: &fjall::PartitionHandle) -> (r: Result<Option<(Vec<u8>, Vec<u8>)>, String>)
    ensures
        r matches Ok(Some(kv)) ==> partition_contents(*p).contains_key(kv.0@)
            && partition_contents(*p)[kv.0@] == kv.1@ && forall|k: Seq<u8>|
            #[trigger] partition_contents(*p).contains_key(k) ==> bytes_le(kv.0@, k),
        r matches Ok(None) ==> partition_contents(*p).dom().is_empty(),
{
    p.first_key_value().map(|o| o.map(|(k, v)| (k.to_vec(), v.to_vec()))).map_err(|e| e.to_string())
}

/// Which of the two job queues.
#[derive(Clone, Copy, Debug, PartialEq, Eq, Structural)]
pub enum QueueKind {
    /// Jobs from the live firehose.
    Live,
    /// Jobs from repository backfills.
    Backfill,
}

/// What a failed enqueue reports.
pub open spec fn enqueue_context(kind: QueueKind) -> Seq<char> {
    match kind {
        QueueKind::Live => "failed to enqueue live job"@,
        QueueKind::Backfill => "failed to enqueue backfill job"@,
    }
}

/// What a failed read of a queue reports.
pub open spec fn read_context(kind: QueueKind) -> Seq<char> {
    match kind {
        QueueKind::Live => "failed to read live queue"@,
        QueueKind::Backfill => "failed to read backfill queue"@,
    }
}

/// The storage key of a job queued at `nanos` for `repo`, as bytes.
pub open spec fn job_key_bytes(nanos: i64, repo: Seq<char>) -> Seq<u8> {
    vstd::utf8::encode_utf8(job_key_of(nanos, repo))
}

/// The key of a stream's cursor, as bytes.
pub open spec fn stream_key(stream: Seq<char>) -> Seq<u8> {
    vstd::utf8::encode_utf8(stream)
}

/// The cursor stored for a stream in `cursors`: none, the decoded cursor,
/// or `None` inside `Some` never: bytes of the wrong length are refused.
pub open spec fn stored_cursor(cursors: Map<Seq<u8>, Seq<u8>>, stream: Seq<char>) -> Option<Option<i64>> {
    let k = stream_key(stream);
    if !cursors.contains_key(k) {
        Some(None)
    } else {
        let b = cursors[k];
        if b.len() == 8 {
            Some(Some(cursor_of_le(b[0], b[1], b[2], b[3], b[4], b[5], b[6], b[7])))
        } else {
            None
        }
    }
}

/// A storage error: `context`, `: ` and the store's message.
pub open spec fn is_storage_error(e: AppViewError, context: Seq<char>) -> bool {
    e matches AppViewError::Storage(m) && has_prefix(m@, context + ": "@)
}

fn storage_error(context: &str, message: String) -> (r: AppViewError)
    ensures
        r matches AppViewError::Storage(m) && m@ == context@ + ": "@ + message@,
        is_storage_error(r, context@),
{
    let mut m = to_string(context);
    m.append(": ");
    m.append(message.as_str());
    assert(m@.take((context@ + ": "@).len() as int) =~= context@ + ": "@);
    AppViewError::Storage(m)
}

/// A job's storage key is never empty.
proof fn lemma_job_key_nonempty(nanos: i64, repo: Seq<char>)
    ensures
        job_key_bytes(nanos, repo).len() > 0,
{
    let k = job_key_of(nanos, repo);
    assert(k.len() > 0);
    vstd::utf8::encode_utf8_first_scalar(k);
}

/// The durable job queues and stream cursors.
pub struct IndexQueue {
    keyspace: fjall::Keyspace,
    live_queue: fjall::PartitionHandle,
    backfill_queue: fjall::PartitionHandle,
    cursors: fjall::PartitionHandle,
}

impl IndexQueue {
    /// The jobs of a queue, by storage key.
    pub closed spec fn jobs(&self, kind: QueueKind) -> Map<Seq<u8>, Seq<u8>> {
        match kind {
            QueueKind::Live => partition_contents(self.live_queue),
            QueueKind::Backfill => partition_contents(self.backfill_queue),
        }
    }

    /// The stored cursors, by stream key.
    pub closed spec fn cursor_entries(&self) -> Map<Seq<u8>, Seq<u8>> {
        partition_contents(self.cursors)
    }

    /// The queue over an opened keyspace and its three partitions, which
    /// are three different ones.
    pub fn from_parts(
        keyspace: fjall::Keyspace,
        live_queue: fjall::PartitionHandle,
        backfill_queue: fjall::PartitionHandle,
        cursors: fjall::PartitionHandle,
    ) -> (r: IndexQueue)
        requires
            distinct_names(live_queue, backfill_queue, cursors),
        ensures
            r.jobs(QueueKind::Live) == partition_contents(live_queue),
            r.jobs(QueueKind::Backfill) == partition_contents(backfill_queue),
            r.cursor_entries() == partition_contents(cursors),
    {
        IndexQueue { keyspace, live_queue, backfill_queue, cursors }
    }

    /// Queues the serialized `job` for `repo` under `<nanos>:<repo>`.
    pub fn enqueue(&mut self, kind: QueueKind, nanos: i64, repo: &str, job: &[u8]) -> (r: Result<(), AppViewError>)
        requires
            job_key_bytes(nanos, repo@).len() <= MAX_KEY_BYTES,
            job@.len() <= MAX_VALUE_BYTES,
        ensures
            r is Ok ==> final(self).jobs(kind) == old(self).jobs(kind).insert(
                job_key_bytes(nanos, repo@),
                job@,
            ),
            r is Err ==> final(self).jobs(kind) == old(self).jobs(kind) || final(self).jobs(kind)
                == old(self).jobs(kind).insert(job_key_bytes(nanos, repo@), job@),
            r matches Err(e) ==> is_storage_error(e, enqueue_context(kind)),
            forall|k: QueueKind| k != kind ==> #[trigger] final(self).jobs(k) == old(self).jobs(k),
            final(self).cursor_entries() == old(self).cursor_entries(),
    {
        let key = job_key(nanos, repo);
        proof {
            lemma_job_key_nonempty(nanos, repo@);
        }
        let r = match kind {
            QueueKind::Live => partition_insert(&mut self.live_queue, key.as_str().as_bytes(), job),
            QueueKind::Backfill => partition_insert(&mut self.backfill_queue, key.as_str().as_bytes(), job),
        };
        match r {
            Ok(()) => Ok(()),
            Err(m) => Err(match kind {
                QueueKind::Live => storage_error("failed to enqueue live job", m),
                QueueKind::Backfill => storage_error("failed to enqueue backfill job", m),
            }),
        }
    }

    /// Queues the serialized `job` for `repo` on the live queue.
    pub fn enqueue_live(&mut self, nanos: i64, repo: &str, job: &[u8]) -> (r: Result<(), AppViewError>)
        requires
            job_key_bytes(nanos, repo@).len() <= MAX_KEY_BYTES,
            job@.len() <= MAX_VALUE_BYTES,
        ensures
            r is Ok ==> final(self).jobs(QueueKind::Live) == old(self).jobs(QueueKind::Live).insert(
                job_key_bytes(nanos, repo@),
                job@,
            ),
            r matches Err(e) ==> is_storage_error(e, "failed to enqueue live job"@),
            final(self).jobs(QueueKind::Backfill) == old(self).jobs(QueueKind::Backfill),
            final(self).cursor_entries() == old(self).cursor_entries(),
    {
        self.enqueue(QueueKind::Live, nanos, repo, job)
    }

    /// Queues the serialized `job` for `repo` on the backfill queue.
    pub fn enqueue_backfill(&mut self, nanos: i64, repo: &str, job: &[u8]) -> (r: Result<(), AppViewError>)
        requires
            job_key_bytes(nanos, repo@).len() <= MAX_KEY_BYTES,
            job@.len() <= MAX_VALUE_BYTES,
        ensures
            r is Ok ==> final(self).jobs(QueueKind::Backfill) == old(self).jobs(
                QueueKind::Backfill,
            ).insert(job_key_bytes(nanos, repo@), job@),
            r matches Err(e) ==> is_storage_error(e, "failed to enqueue backfill job"@),
            final(self).jobs(QueueKind::Live) == old(self).jobs(QueueKind::Live),
            final(self).cursor_entries() == old(self).cursor_entries(),
    {
        self.enqueue(QueueKind::Backfill, nanos, repo, job)
    }

    /// The job with the smallest key in a queue, without taking it.
    pub fn first_job(&self, kind: QueueKind) -> (r: Result<Option<(Vec<u8>, Vec<u8>)>, AppViewError>)
        ensures
            r matches Ok(Some(kv)) ==> self.jobs(kind).contains_key(kv.0@) && self.jobs(kind)[kv.0@]
                == kv.1@ && forall|k: Seq<u8>| #[trigger] self.jobs(kind).contains_key(k)
                ==> bytes_le(kv.0@, k),
            r matches Ok(None) ==> self.jobs(kind).dom().is_empty(),
            r matches Err(e) ==> is_storage_error(e, read_context(kind)),
    {
        let r = match kind {
            QueueKind::Live => partition_first(&self.live_queue),
            QueueKind::Backfill => partition_first(&self.backfill_queue),
        };
        match r {
            Ok(o) => Ok(o),
            Err(m) => Err(match kind {
                QueueKind::Live => storage_error("failed to read live queue", m),
                QueueKind::Backfill => storage_error("failed to read backfill queue", m),
            }),
        }
    }

    /// Takes the job stored under `key` off a queue.
    pub fn remove_job(&mut self, kind: QueueKind, key: &[u8]) -> (r: Result<(), AppViewError>)
        requires
            0 < key@.len() <= MAX_KEY_BYTES,
        ensures
            r is Ok ==> final(self).jobs(kind) == old(self).jobs(kind).remove(key@),
            r is Err ==> final(self).jobs(kind) == old(self).jobs(kind) || final(self).jobs(kind)
                == old(self).jobs(kind).remove(key@),
            r matches Err(e) ==> is_storage_error(e, "failed to remove job"@),
            forall|k: QueueKind| k != kind ==> #[trigger] final(self).jobs(k) == old(self).jobs(k),
            final(self).cursor_entries() == old(self).cursor_entries(),
    {
        let r = match kind {
            QueueKind::Live => partition_remove(&mut self.live_queue, key),
            QueueKind::Backfill => partition_remove(&mut self.backfill_queue, key),
        };
        match r {
            Ok(()) => Ok(()),
            Err(m) => Err(storage_error("failed to remove job", m)),
        }
    }

    /// Stores the cursor of `stream`.
    pub fn save_cursor(&mut self, stream: &str, cursor: i64) -> (r: Result<(), AppViewError>)
        requires
            0 < stream_key(stream@).len() <= MAX_KEY_BYTES,
        ensures
            r is Ok ==> final(self).cursor_entries() == old(self).cursor_entries().insert(
                stream_key(stream@),
                cursor_le_bytes(cursor),
            ),
            r is Err ==> final(self).cursor_entries() == old(self).cursor_entries()
                || final(self).cursor_entries() == old(self).cursor_entries().insert(
                stream_key(stream@),
                cursor_le_bytes(cursor),
            ),
            r matches Err(e) ==> is_storage_error(e, "failed to save cursor"@),
            forall|k: QueueKind| #[trigger] final(self).jobs(k) == old(self).jobs(k),
    {
        let b = cursor_bytes(cursor);
        match partition_insert(&mut self.cursors, stream.as_bytes(), b.as_slice()) {
            Ok(()) => Ok(()),
            Err(m) => Err(storage_error("failed to save cursor", m)),
        }
    }

    /// The stored cursor of `stream`, if any; stored bytes that are not a
    /// cursor are refused.
    pub fn load_cursor(&self, stream: &str) -> (r: Result<Option<i64>, AppViewError>)
        requires
            stream_key(stream@).len() <= MAX_KEY_BYTES,
        ensures
            r matches Ok(c) ==> stored_cursor(self.cursor_entries(), stream@) == Some(c),
            stored_cursor(self.cursor_entries(), stream@) is None ==> r is Err,
            r matches Err(e) ==> is_storage_error(e, "failed to load cursor"@) || (e matches AppViewError::Storage(
                m,
            ) && m@ == "invalid cursor format"@),
    {
        match partition_get(&self.cursors, stream.as_bytes()) {
            Ok(Some(bytes)) => match cursor_from_bytes(bytes.as_slice()) {
                Ok(c) => Ok(Some(c)),
                Err(e) => Err(e),
            },
            Ok(None) => Ok(None),
            Err(m) => Err(storage_error("failed to load cursor", m)),
        }
    }

    /// Drops the cursor of `stream`.
    pub fn delete_cursor(&mut self, stream: &str) -> (r: Result<(), AppViewError>)
        requires
            0 < stream_key(stream@).len() <= MAX_KEY_BYTES,
        ensures
            r is Ok ==> final(self).cursor_entries() == old(self).cursor_entries().remove(
                stream_key(stream@),
            ),
            r is Err ==> final(self).cursor_entries() == old(self).cursor_entries()
                || final(self).cursor_entries() == old(self).cursor_entries().remove(
                stream_key(stream@),
            ),
            r matches Err(e) ==> is_storage_error(e, "failed to delete cursor"@),
            forall|k: QueueKind| #[trigger] final(self).jobs(k) == old(self).jobs(k),
    {
        match partition_remove(&mut self.cursors, stream.as_bytes()) {
            Ok(()) => Ok(()),
            Err(m) => Err(storage_error("failed to delete cursor", m)),
        }
    }
}

/// A cursor read back after it was stored is the cursor stored, and the
/// other streams' cursors are untouched: `after` is `before` once
/// `save_cursor(stream, c)` succeeded.
pub proof fn law_cursor_read_back(
    before: IndexQueue,
    after: IndexQueue,
    stream: Seq<char>,
    other: Seq<char>,
    c: i64,
)
    requires
        after.cursor_entries() == before.cursor_entries().insert(
            stream_key(stream),
            cursor_le_bytes(c),
        ),
    ensures
        stored_cursor(after.cursor_entries(), stream) == Some(Some(c)),
        other != stream ==> stored_cursor(after.cursor_entries(), other) == stored_cursor(
            before.cursor_entries(),
            other,
        ),
{
    law_cursor_roundtrip(c);
    if other != stream {
        vstd::utf8::encode_utf8_decode_utf8(stream);
        vstd::utf8::encode_utf8_decode_utf8(other);
        assert(stream_key(other) != stream_key(stream));
    }
}

/// A deleted cursor reads back as absent: `after` is `before` once
/// `delete_cursor(stream)` succeeded.
pub proof fn law_deleted_cursor_is_absent(before: IndexQueue, after: IndexQueue, stream: Seq<char>)
    requires
        after.cursor_entries() == before.cursor_entries().remove(stream_key(stream)),
    ensures
        stored_cursor(after.cursor_entries(), stream) == Some(None::<i64>),
{
}

/// A queued job is found under its key, and no job sorts before it in an
/// otherwise empty queue: `after` is `before` once `enqueue` succeeded.
pub proof fn law_queued_job_found(
    before: IndexQueue,
    after: IndexQueue,
    kind: QueueKind,
    nanos: i64,
    repo: Seq<char>,
    job: Seq<u8>,
)
    requires
        after.jobs(kind) == before.jobs(kind).insert(job_key_bytes(nanos, repo), job),
    ensures
        after.jobs(kind).contains_key(job_key_bytes(nanos, repo)),
        after.jobs(kind)[job_key_bytes(nanos, repo)] == job,
        before.jobs(kind).dom().is_empty() ==> forall|k: Seq<u8>|
            #[trigger] after.jobs(kind).contains_key(k) ==> k == job_key_bytes(nanos, repo),
{
}

} // verus!
