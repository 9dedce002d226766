//! The firehose consumer's decisions: which URL to subscribe to, how long
//! to back off between connections, when a connection's loop ends and
//! which cursor it saves, and which index jobs a commit makes.

use vstd::prelude::*;
use crate::queue::{IndexJob, IndexOperation};
use crate::appview::error::AppViewError;
use crate::text::{chars_of, decimal_of, digits_of, format_i64, has_prefix, str_eq, str_starts_with, to_string};

verus! {

broadcast use vstd::string::group_string_axioms;

/// The longest pause between reconnection attempts, in seconds.
pub const MAX_BACKOFF_SECS: u64 = 300;

/// `s` with every leading copy of `p` removed (`str::trim_start_matches`).
pub open spec fn strip_all_prefix(s: Seq<char>, p: Seq<char>) -> Seq<char>
    decreases s.len(),
{
    if p.len() > 0 && has_prefix(s, p) {
        strip_all_prefix(s.skip(p.len() as int), p)
    } else {
        s
    }
}

/// `s` with every trailing `/` removed.
pub open spec fn strip_trailing_slashes(s: Seq<char>) -> Seq<char>
    decreases s.len(),
{
    if s.len() > 0 && s.last() == '/' {
        strip_trailing_slashes(s.drop_last())
    } else {
        s
    }
}

/// `t` occurs somewhere in `s`.
pub open spec fn contains_seq(s: Seq<char>, t: Seq<char>) -> bool {
    exists|i: int| 0 <= i <= s.len() - t.len() && #[trigger] s.subrange(i, i + t.len()) == t
}

/// The host part of a relay address: schemes and trailing slashes removed.
pub open spec fn clean_host(h: Seq<char>) -> Seq<char> {
    strip_trailing_slashes(
        strip_all_prefix(
            strip_all_prefix(strip_all_prefix(strip_all_prefix(h, "wss://"@), "ws://"@), "https://"@),
            "http://"@,
        ),
    )
}

/// The WebSocket URL to subscribe to for a relay address: plain `ws` for
/// `ws://` and `http://` addresses, `wss` otherwise; the subscribeRepos
/// path is added unless the address already names an XRPC path.
pub open spec fn subscribe_url(h: Seq<char>) -> Seq<char> {
    let scheme = if has_prefix(h, "ws://"@) || has_prefix(h, "http://"@) {
        "ws"@
    } else {
        "wss"@
    };
    let clean = clean_host(h);
    if contains_seq(clean, "/xrpc/"@) {
        scheme + "://"@ + clean
    } else {
        scheme + "://"@ + clean + "/xrpc/com.atproto.sync.subscribeRepos"@
    }
}

/// A relay is dialled with the scheme its address asks for: plain `ws` for
/// a `ws://` or `http://` address, TLS (`wss`) for every other one.
pub proof fn law_dialled_scheme_follows_address(h: Seq<char>)
    ensures
        has_prefix(h, "ws://"@) ==> has_prefix(subscribe_url(h), "ws://"@),
        has_prefix(h, "http://"@) ==> has_prefix(subscribe_url(h), "ws://"@),
        !has_prefix(h, "ws://"@) && !has_prefix(h, "http://"@) ==> has_prefix(subscribe_url(h), "wss://"@),
{
    reveal_strlit("ws");
    reveal_strlit("wss");
    reveal_strlit("://");
    reveal_strlit("ws://");
    reveal_strlit("wss://");
    let scheme = if has_prefix(h, "ws://"@) || has_prefix(h, "http://"@) {
        "ws"@
    } else {
        "wss"@
    };
    let clean = clean_host(h);
    let u = subscribe_url(h);
    let head = scheme + "://"@;
    assert(u.take(head.len() as int) =~= head);
    if scheme == "ws"@ {
        assert(head =~= "ws://"@);
    } else {
        assert(head =~= "wss://"@);
    }
}

fn trim_prefix_all<'a>(s: &'a str, p: &str) -> (r: &'a str)
    requires
        p@.len() > 0,
    ensures
        r@ == strip_all_prefix(s@, p@),
{
    let n = chars_of(p).len();
    let mut cur: &str = s;
    while str_starts_with(cur, p)
        invariant
            n == p@.len(),
            n > 0,
            strip_all_prefix(cur@, p@) == strip_all_prefix(s@, p@),
        decreases cur@.len(),
    {
        let m = chars_of(cur).len();
        cur = cur.substring_char(n, m);
    }
    cur
}

fn trim_trailing_slashes(s: &str) -> (r: &str)
    ensures
        r@ == strip_trailing_slashes(s@),
{
    let cs = chars_of(s);
    let mut e: usize = cs.len();
    proof {
        assert(s@.take(e as int) =~= s@);
    }
    while e > 0 && cs[e - 1] == '/'
        invariant
            e <= cs@.len(),
            cs@ == s@,
            strip_trailing_slashes(s@.take(e as int)) == strip_trailing_slashes(s@),
        decreases e,
    {
        proof {
            assert(s@.take(e as int).drop_last() =~= s@.take(e - 1));
        }
        e = e - 1;
    }
    s.substring_char(0, e)
}

fn contains_str(s: &str, t: &str) -> (r: bool)
    ensures
        r == contains_seq(s@, t@),
{
    let sc = chars_of(s);
    let tc = chars_of(t);
    if tc.len() > sc.len() {
        return false;
    }
    let mut i: usize = 0;
    while i <= sc.len() - tc.len()
        invariant
            tc@.len() <= sc@.len(),
            sc@ == s@,
            tc@ == t@,
            forall|k: int| 0 <= k < i ==> #[trigger] s@.subrange(k, k + t@.len()) != t@,
        decreases sc@.len() - tc@.len() + 1 - i,
    {
        let mut j: usize = 0;
        let mut same = true;
        while j < tc.len()
            invariant
                j <= tc@.len(),
                i + tc@.len() <= sc@.len(),
                sc@.len() == sc.len(),
                sc@ == s@,
                tc@ == t@,
                same == forall|m: int| 0 <= m < j ==> sc@[i + m] == tc@[m],
            decreases tc@.len() - j,
        {
            assert(i + j < sc@.len());
            if sc[i + j] != tc[j] {
                same = false;
            }
            j = j + 1;
        }
        if same {
            assert(s@.subrange(i as int, i + t@.len()) =~= t@);
            return true;
        }
        assert(s@.subrange(i as int, i + t@.len()) != t@) by {
            let m = choose|m: int| 0 <= m < tc@.len() && sc@[i + m] != tc@[m];
            assert(s@.subrange(i as int, i + t@.len())[m] == sc@[i + m]);
        }
        i = i + 1;
    }
    false
}

/// The WebSocket URL to subscribe to for a relay address.
pub fn connection_url(hostname: &str) -> (r: String)
    ensures
        r@ == subscribe_url(hostname@),
{
    let scheme: &str = if str_starts_with(hostname, "ws://") || str_starts_with(hostname, "http://") {
        "ws"
    } else {
        "wss"
    };
    proof {
        reveal_strlit("wss://");
        reveal_strlit("ws://");
        reveal_strlit("https://");
        reveal_strlit("http://");
    }
    let c1 = trim_prefix_all(hostname, "wss://");
    let c2 = trim_prefix_all(c1, "ws://");
    let c3 = trim_prefix_all(c2, "https://");
    let c4 = trim_prefix_all(c3, "http://");
    let clean = trim_trailing_slashes(c4);
    let mut u = to_string(scheme);
    u.append("://");
    u.append(clean);
    if !contains_str(clean, "/xrpc/") {
        u.append("/xrpc/com.atproto.sync.subscribeRepos");
    }
    u
}

/// A stored cursor is resumed from when it is positive.
pub open spec fn resumed(stored: Option<i64>) -> Option<i64> {
    match stored {
        Some(c) => if c > 0 { Some(c) } else { None },
        None => None,
    }
}

/// The cursor to resume from: a stored positive cursor; none otherwise.
pub fn resume_cursor(stored: Option<i64>) -> (r: Option<i64>)
    ensures
        r == resumed(stored),
{
    match stored {
        Some(c) => if c > 0 {
            Some(c)
        } else {
            None
        },
        None => None,
    }
}

/// The key under which a relay's cursor is stored.
pub fn cursor_key(hostname: &str) -> (r: String)
    ensures
        r@ == "firehose:"@ + hostname@,
{
    let mut k = to_string("firehose:");
    k.append(hostname);
    k
}

/// The text the `url` crate gives back for `url` once parsed (`Url::parse`,
/// then the URL's serialisation), or the parser's message when it refuses it.
pub uninterp spec fn url_serialized(url: Seq<char>) -> Result<Seq<char>, Seq<char>>;

/// The serialisation of `url`, once parsed, after the pair `name=value` is
/// appended to its query.
pub uninterp spec fn url_with_query_pair(url: Seq<char>, name: Seq<char>, value: Seq<char>) -> Seq<char>;

/// A character that form encoding leaves as it is.
pub open spec fn form_safe(c: char) -> bool {
    ||| ('0' <= c && c <= '9')
    ||| ('a' <= c && c <= 'z')
    ||| ('A' <= c && c <= 'Z')
    ||| c == '-' || c == '.' || c == '_' || c == '*'
}

/// Every character of `s` is left as it is by form encoding.
pub open spec fn all_form_safe(s: Seq<char>) -> bool {
    forall|i: int| 0 <= i < s.len() ==> form_safe(#[trigger] s[i])
}

/// A serialised URL with neither a query nor a fragment.
pub open spec fn bare_url(s: Seq<char>) -> bool {
    !s.contains('?') && !s.contains('#')
}

/// Parses `url` with `url::Url::parse` and gives back its serialisation,
/// or the parser's message. Tied to `url_serialized`; nothing more is
/// claimed of the parser.
#[verifier::external_body]
fn parse_url_text(url: &str) -> (r: Result<String, String>)
    ensures
        r matches Ok(s) ==> url_serialized(url@) is Ok && url_serialized(url@)->Ok_0 == s@,
        r matches Err(m) ==> url_serialized(url@) is Err && url_serialized(url@)->Err_0 == m@,
{
    match url::Url::parse(url) {
        Ok(u) => Ok(u.to_string()),
        Err(e) => Err(e.to_string()),
    }
}

/// Parses `url` with `url::Url::parse`, appends `name=value` with
/// `query_pairs_mut().append_pair` and gives back the serialisation, or the
/// parser's message. Claimed: it succeeds exactly when the parse does, with
/// the parser's message otherwise; the result is `url_with_query_pair`; and,
/// as the crate's source shows, for a URL whose serialisation has no `?` and
/// no `#` and a name and value of characters that form encoding keeps, the
/// result is that serialisation, `?`, the name, `=` and the value. What it
/// gives for other URLs is left to the name. The crate keeps positions in
/// a URL as `u32` and panics when one past 4 GiB is restored, so the text
/// handed in is bounded well below that.
#[verifier::external_body]
fn url_append_query_pair(url: &str, name: &str, value: &str) -> (r: Result<String, String>)
    requires
        url@.len() + name@.len() + value@.len() <= MAX_DIALLED_URL_CHARS,
    ensures
        (r is Ok) <==> (url_serialized(url@) is Ok),
        r matches Ok(s) ==> s@ == url_with_query_pair(url@, name@, value@),
        r matches Err(m) ==> url_serialized(url@) is Err && url_serialized(url@)->Err_0 == m@,
        r is Ok && bare_url(url_serialized(url@)->Ok_0) && all_form_safe(name@) && all_form_safe(value@)
            ==> r->Ok_0@ == url_serialized(url@)->Ok_0 + "?"@ + name@ + "="@ + value@,
{
    match url::Url::parse(url) {
        Ok(mut u) => {
            u.query_pairs_mut().append_pair(name, value);
            Ok(u.to_string())
        }
        Err(e) => Err(e.to_string()),
    }
}

/// The longest text, in characters, that is handed to the URL parser
/// together with a query pair: far below the parser's 4 GiB limit even
/// after percent-encoding.
pub const MAX_DIALLED_URL_CHARS: usize = 0x100_0000;

/// The longest relay address `subscribe_url_with_cursor` takes.
pub const MAX_RELAY_ADDRESS_CHARS: usize = 0x10_0000;

proof fn lemma_strip_prefix_len(s: Seq<char>, p: Seq<char>)
    ensures
        strip_all_prefix(s, p).len() <= s.len(),
    decreases s.len(),
{
    if p.len() > 0 && has_prefix(s, p) {
        lemma_strip_prefix_len(s.skip(p.len() as int), p);
    }
}

proof fn lemma_strip_slashes_len(s: Seq<char>)
    ensures
        strip_trailing_slashes(s).len() <= s.len(),
    decreases s.len(),
{
    if s.len() > 0 && s.last() == '/' {
        lemma_strip_slashes_len(s.drop_last());
    }
}

proof fn lemma_subscribe_url_len(h: Seq<char>)
    ensures
        subscribe_url(h).len() <= h.len() + 46,
{
    let a = strip_all_prefix(h, "wss://"@);
    let b = strip_all_prefix(a, "ws://"@);
    let c = strip_all_prefix(b, "https://"@);
    let d = strip_all_prefix(c, "http://"@);
    lemma_strip_prefix_len(h, "wss://"@);
    lemma_strip_prefix_len(a, "ws://"@);
    lemma_strip_prefix_len(b, "https://"@);
    lemma_strip_prefix_len(c, "http://"@);
    lemma_strip_slashes_len(d);
    reveal_strlit("ws");
    reveal_strlit("wss");
    reveal_strlit("://");
    reveal_strlit("/xrpc/com.atproto.sync.subscribeRepos");
}

/// The query added for a resumed cursor: `?cursor=` and its digits.
pub open spec fn cursor_query(stored: Option<i64>) -> Seq<char> {
    match resumed(stored) {
        Some(c) => "?cursor="@ + digits_of(c as nat),
        None => ""@,
    }
}

spec fn pow10(k: nat) -> nat
    decreases k,
{
    if k == 0 {
        1
    } else {
        10 * pow10((k - 1) as nat)
    }
}

proof fn lemma_digits_len_le(n: nat, k: nat)
    requires
        1 <= k,
        n < pow10(k),
    ensures
        digits_of(n).len() <= k,
    decreases k,
{
    if n >= 10 {
        if k == 1 {
            assert(pow10(1) == 10) by {
                reveal_with_fuel(pow10, 2);
            }
        } else {
            let p = pow10((k - 1) as nat);
            assert(n / 10 < p) by (nonlinear_arith)
                requires
                    n < 10 * p,
            ;
            lemma_digits_len_le(n / 10, (k - 1) as nat);
        }
    }
}

proof fn lemma_digits_len(n: nat)
    requires
        n <= i64::MAX,
    ensures
        digits_of(n).len() <= 19,
{
    assert(pow10(19) == 10_000_000_000_000_000_000) by {
        reveal_with_fuel(pow10, 20);
    }
    lemma_digits_len_le(n, 19);
}

proof fn lemma_digits_form_safe(n: nat)
    ensures
        all_form_safe(digits_of(n)),
    decreases n,
{
    if n >= 10 {
        lemma_digits_form_safe(n / 10);
        let d = digits_of(n);
        assert forall|i: int| 0 <= i < d.len() implies form_safe(#[trigger] d[i]) by {
            if i < digits_of(n / 10).len() {
                assert(d[i] == digits_of(n / 10)[i]);
            }
        }
    }
}

/// The URL a relay is dialled on: the subscription URL, as the `url` crate
/// parses it, with the resumed cursor appended as the `cursor` query pair.
/// An address the parser refuses gives its message.
pub fn subscribe_url_with_cursor(hostname: &str, stored: Option<i64>) -> (r: Result<String, AppViewError>)
    requires
        hostname@.len() <= MAX_RELAY_ADDRESS_CHARS,
    ensures
        (r is Ok) <==> (url_serialized(subscribe_url(hostname@)) is Ok),
        r is Err ==> r->Err_0 is Internal
            && r->Err_0->Internal_0@ == url_serialized(subscribe_url(hostname@))->Err_0,
        r is Ok && resumed(stored) is None ==> r->Ok_0@ == url_serialized(subscribe_url(hostname@))->Ok_0,
        r is Ok && resumed(stored) is Some ==> r->Ok_0@ == url_with_query_pair(
            subscribe_url(hostname@),
            "cursor"@,
            decimal_of(resumed(stored)->0 as int),
        ),
        r is Ok && bare_url(url_serialized(subscribe_url(hostname@))->Ok_0) ==> r->Ok_0@
            == url_serialized(subscribe_url(hostname@))->Ok_0 + cursor_query(stored),
{
    let base = connection_url(hostname);
    let outcome = match resume_cursor(stored) {
        Some(c) => {
            let digits = format_i64(c);
            proof {
                reveal_strlit("cursor");
                reveal_strlit("?cursor=");
                reveal_strlit("?");
                reveal_strlit("=");
                lemma_digits_form_safe(c as nat);
                lemma_subscribe_url_len(hostname@);
                lemma_digits_len(c as nat);
                assert(all_form_safe("cursor"@));
                assert("?"@ + "cursor"@ + "="@ + digits@ =~= "?cursor="@ + digits_of(c as nat));
            }
            let r = url_append_query_pair(base.as_str(), "cursor", digits.as_str());
            proof {
                if r is Ok {
                    let s = url_serialized(subscribe_url(hostname@))->Ok_0;
                    assert(s + "?"@ + "cursor"@ + "="@ + digits@ =~= s + ("?"@ + "cursor"@ + "="@ + digits@));
                }
            }
            r
        },
        None => {
            let r = parse_url_text(base.as_str());
            proof {
                if r is Ok {
                    let s = url_serialized(subscribe_url(hostname@))->Ok_0;
                    assert(s + ""@ =~= s) by {
                        reveal_strlit("");
                    }
                }
            }
            r
        },
    };
    match outcome {
        Ok(u) => Ok(u),
        Err(m) => Err(AppViewError::Internal(m)),
    }
}

/// How a connection to a relay ended.
#[derive(Clone, Copy, Debug, PartialEq, Eq, Structural)]
pub enum ConnectionResult {
    Success,
    Timeout,
    FutureCursor,
}

/// What to do after a connection ends.
#[derive(Debug)]
pub enum Reconnect {
    /// Stop consuming this relay.
    Stop,
    /// Sleep this many seconds, then connect again.
    RetryAfter(u64),
    /// Drop the stored cursor and connect again at once.
    ResetCursor,
}

/// The back-off after a connection ends with `result` while it is
/// `backoff`: unchanged after a normal end, doubled up to
/// `MAX_BACKOFF_SECS` after a time-out, one second after a future cursor.
pub open spec fn next_backoff(result: ConnectionResult, backoff: u64) -> int {
    match result {
        ConnectionResult::Success => backoff as int,
        ConnectionResult::Timeout => if backoff * 2 < MAX_BACKOFF_SECS {
            backoff * 2
        } else {
            MAX_BACKOFF_SECS as int
        },
        ConnectionResult::FutureCursor => 1,
    }
}

/// After a connection ends with `result` while the back-off is `backoff`:
/// what to do, and the next back-off. Time-outs double the back-off up to
/// `MAX_BACKOFF_SECS`; a cursor in the future resets it to one second.
pub fn after_connection(result: ConnectionResult, backoff: u64) -> (r: (Reconnect, u64))
    ensures
        r.1 == next_backoff(result, backoff),
        result == ConnectionResult::Success ==> r.0 is Stop,
        result == ConnectionResult::Timeout ==> (r.0 matches Reconnect::RetryAfter(s) && s
            == backoff),
        result == ConnectionResult::FutureCursor ==> r.0 is ResetCursor,
{
    match result {
        ConnectionResult::Success => (Reconnect::Stop, backoff),
        ConnectionResult::Timeout => {
            let next = if backoff < MAX_BACKOFF_SECS / 2 {
                backoff * 2
            } else {
                MAX_BACKOFF_SECS
            };
            (Reconnect::RetryAfter(backoff), next)
        },
        ConnectionResult::FutureCursor => (Reconnect::ResetCursor, 1),
    }
}

/// Starting from one second, the back-off never leaves `[1, MAX_BACKOFF_SECS]`.
pub proof fn law_backoff_bounded(backoff: u64, result: ConnectionResult)
    requires
        1 <= backoff <= MAX_BACKOFF_SECS,
    ensures
        1 <= next_backoff(result, backoff) <= MAX_BACKOFF_SECS,
{
}

/// How long a connection may go without any message, a pong included,
/// before it is taken for dead (three missed pongs), in milliseconds.
pub const IDLE_TIMEOUT_MS: u64 = 90_000;

/// The cursor a connection saves as it ends, having seen sequence
/// `last_seq`: only a positive one is saved.
pub open spec fn closing_cursor(last_seq: i64) -> Option<i64> {
    if last_seq > 0 {
        Some(last_seq)
    } else {
        None
    }
}

/// How a connection's loop ends: the cursor to save first, if any, and the
/// result to report.
#[derive(Debug)]
pub struct StreamEnd {
    pub save_cursor: Option<i64>,
    pub result: ConnectionResult,
}

/// What waiting for the next message gave.
#[derive(Debug)]
pub enum ReadOutcome {
    /// A binary frame.
    Binary,
    /// Another message (text, ping, pong, close frame).
    Other,
    /// The socket failed.
    Failed,
    /// The stream ended.
    Closed,
    /// Nothing arrived within the polling interval.
    Quiet,
}

/// What the loop does after a read.
#[derive(Debug)]
pub enum StreamAction {
    /// Stop, saving the cursor first if there is one.
    End(StreamEnd),
    /// Hand the frame on for decoding; a message was heard.
    Process,
    /// Wait again; `heard` when a message arrived, which resets the idle
    /// timer.
    Continue { heard: bool },
}

/// Before each wait for a message: a requested shutdown ends the loop
/// normally, and a connection idle past `IDLE_TIMEOUT_MS` ends it as timed
/// out; either way the last positive sequence is saved.
pub fn before_read(shutdown: bool, idle_ms: u64, last_seq: i64) -> (r: Option<StreamEnd>)
    ensures
        shutdown ==> (r matches Some(e) && e.save_cursor == closing_cursor(last_seq) && e.result
            == ConnectionResult::Success),
        !shutdown && idle_ms > IDLE_TIMEOUT_MS ==> (r matches Some(e) && e.save_cursor
            == closing_cursor(last_seq) && e.result == ConnectionResult::Timeout),
        !shutdown && idle_ms <= IDLE_TIMEOUT_MS ==> r is None,
{
    let save_cursor = if last_seq > 0 {
        Some(last_seq)
    } else {
        None
    };
    if shutdown {
        Some(StreamEnd { save_cursor, result: ConnectionResult::Success })
    } else if idle_ms > IDLE_TIMEOUT_MS {
        Some(StreamEnd { save_cursor, result: ConnectionResult::Timeout })
    } else {
        None
    }
}

/// After a read: a binary frame is processed; other messages and quiet
/// intervals wait again; a failed socket ends the loop as timed out, saving
/// the last positive sequence; an ended stream ends it as timed out with
/// nothing saved.
pub fn after_read(read: ReadOutcome, last_seq: i64) -> (r: StreamAction)
    ensures
        read is Binary ==> r is Process,
        read is Other ==> (r matches StreamAction::Continue { heard } && heard),
        read is Quiet ==> (r matches StreamAction::Continue { heard } && !heard),
        read is Failed ==> (r matches StreamAction::End(e) && e.save_cursor == closing_cursor(
            last_seq,
        ) && e.result == ConnectionResult::Timeout),
        read is Closed ==> (r matches StreamAction::End(e) && e.save_cursor is None && e.result
            == ConnectionResult::Timeout),
{
    match read {
        ReadOutcome::Binary => StreamAction::Process,
        ReadOutcome::Other => StreamAction::Continue { heard: true },
        ReadOutcome::Quiet => StreamAction::Continue { heard: false },
        ReadOutcome::Failed => StreamAction::End(
            StreamEnd {
                save_cursor: if last_seq > 0 {
                    Some(last_seq)
                } else {
                    None
                },
                result: ConnectionResult::Timeout,
            },
        ),
        ReadOutcome::Closed => StreamAction::End(
            StreamEnd { save_cursor: None, result: ConnectionResult::Timeout },
        ),
    }
}

/// The cursor the periodic saver writes, having last written `last_saved`:
/// the current sequence when it is positive and new.
pub fn cursor_to_save(current: i64, last_saved: i64) -> (r: Option<i64>)
    ensures
        r == (if current > 0 && current != last_saved {
            Some(current)
        } else {
            None
        }),
{
    if current > 0 && current != last_saved {
        Some(current)
    } else {
        None
    }
}

/// One operation of a commit, with its record as JSON text when the commit
/// carried it.
#[derive(Debug)]
pub struct RepoOp {
    /// `create`, `update` or `delete`.
    pub action: String,
    /// `<collection>/<rkey>`.
    pub path: String,
    pub cid: Option<String>,
    pub record_json: Option<String>,
}

/// The job an operation makes, if any: creates and updates need a CID;
/// other actions are skipped.
pub open spec fn op_job_ok(
    j: Option<IndexJob>,
    repo: Seq<char>,
    commit_cid: Seq<char>,
    rev: Seq<char>,
    op: RepoOp,
) -> bool {
    let uri = "at://"@ + repo + "/"@ + op.path@;
    if op.action@ == "create"@ || op.action@ == "update"@ {
        match op.cid {
            Some(c) => j matches Some(job) && job.repo@ == repo && job.commit_cid@ == commit_cid
                && job.rev@ == rev && (if op.action@ == "create"@ {
                job.operation matches IndexOperation::Create { uri: u, cid: k } && u@ == uri && k@
                    == c@
            } else {
                job.operation matches IndexOperation::Update { uri: u, cid: k } && u@ == uri && k@
                    == c@
            }) && match (job.record_json, op.record_json) {
                (Some(a), Some(b)) => a@ == b@,
                (None, None) => true,
                _ => false,
            },
            None => j is None,
        }
    } else if op.action@ == "delete"@ {
        j matches Some(job) && job.repo@ == repo && job.commit_cid@ == commit_cid && job.rev@ == rev
            && (job.operation matches IndexOperation::Delete { uri: u } && u@ == uri)
            && job.record_json is None
    } else {
        j is None
    }
}

/// The index job for one operation of a commit of `repo`.
pub fn job_for_op(repo: &str, commit_cid: &str, rev: &str, op: &RepoOp) -> (r: Option<IndexJob>)
    ensures
        op_job_ok(r, repo@, commit_cid@, rev@, *op),
{
    let mut uri = to_string("at://");
    uri.append(repo);
    uri.append("/");
    uri.append(op.path.as_str());
    let is_create = str_eq(op.action.as_str(), "create");
    let is_update = str_eq(op.action.as_str(), "update");
    if is_create || is_update {
        let cid = match &op.cid {
            Some(c) => c.clone(),
            None => return None,
        };
        let operation = if is_create {
            IndexOperation::Create { uri, cid }
        } else {
            IndexOperation::Update { uri, cid }
        };
        let record_json = match &op.record_json {
            Some(j) => Some(j.clone()),
            None => None,
        };
        return Some(IndexJob {
            repo: to_string(repo),
            commit_cid: to_string(commit_cid),
            rev: to_string(rev),
            operation,
            record_json,
        });
    }
    if str_eq(op.action.as_str(), "delete") {
        return Some(IndexJob {
            repo: to_string(repo),
            commit_cid: to_string(commit_cid),
            rev: to_string(rev),
            operation: IndexOperation::Delete { uri },
            record_json: None,
        });
    }
    None
}

/// The index jobs of a commit's operations, one per operation in order,
/// `None` for an operation that makes none.
pub fn jobs_for_ops(repo: &str, commit_cid: &str, rev: &str, ops: &Vec<RepoOp>) -> (r: Vec<Option<IndexJob>>)
    ensures
        r@.len() == ops@.len(),
        forall|i: int| 0 <= i < ops@.len() ==> op_job_ok(#[trigger] r@[i], repo@, commit_cid@, rev@, ops@[i]),
{
    let mut out: Vec<Option<IndexJob>> = Vec::new();
    let mut i: usize = 0;
    while i < ops.len()
        invariant
            i <= ops@.len(),
            out@.len() == i,
            forall|k: int| 0 <= k < i ==> op_job_ok(#[trigger] out@[k], repo@, commit_cid@, rev@, ops@[k]),
        decreases ops@.len() - i,
    {
        let job = job_for_op(repo, commit_cid, rev, &ops[i]);
        out.push(job);
        i = i + 1;
    }
    out
}

} // verus!
