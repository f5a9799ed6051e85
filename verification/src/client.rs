//! The pull protocol: request framing, HTTP status classification, the
//! exponential-backoff retry schedule, and resilient batch decoding.
//!
//! The client here is transport-free. A driver owns the HTTP connection
//! and the async sleeps; per attempt it reports what happened as an
//! [`Attempt`] and performs the [`Step`] that [`pull_step`] returns.
//! [`run_pull`] is the same loop run against a whole sequence of attempt
//! outcomes at once: it fixes the meaning of a pull — which attempts are
//! retried, with which delays, and which of the three terminal outcomes
//! (a batch, a permanent rejection, exhausted retries) the caller sees.

use vstd::prelude::*;

verus! {

use vstd::string::StrSliceExecFns;
use vstd::string::StringExecFns;
use vstd::string::StringSliceAdditionalSpecFns;
use vstd::arithmetic::div_mod::lemma_fundamental_div_mod;
use vstd::arithmetic::div_mod::lemma_mod_bound;

use crate::cursor;
use crate::error::SyncError;
use crate::types::LogEntry;

/// First inter-attempt delay of the retry schedule, in milliseconds.
pub const INITIAL_DELAY_MS: u64 = 500;

/// Cap on a single inter-attempt delay, in milliseconds.
pub const MAX_DELAY_MS: u64 = 60000;

/// Total sleeping budget of one pull, in milliseconds; once a further
/// delay would pass it, the pull gives up with `RetriesExhausted`.
pub const MAX_ELAPSED_MS: u64 = 900000;

/// Configuration a client is built from: an optional service URL (a fixed
/// well-known URL is the default) and the bearer token.
#[derive(Default, Clone, Debug)]
pub struct ClientConfig {
    pub url: Option<String>,
    pub token: String,
}

/// One raw entry as the server sent it: the wire cursor and the opaque
/// JSON-encoded payload.
#[derive(Debug, Clone, PartialEq, Eq)]
pub struct RawLogEntryWithSeq {
    pub seq: String,
    pub value: String,
}

/// A raw entry together with the outcome of the structured payload decode
/// the driver attempted on `raw.value`: `None` when the payload did not
/// parse as a known event. The decode needs a JSON deserializer and so
/// happens in the driver; what becomes of its outcome is decided here.
#[derive(Debug, Clone, PartialEq, Eq)]
pub struct RawEntryOutcome {
    pub raw: RawLogEntryWithSeq,
    pub parsed: Option<LogEntry>,
}

/// A decoded entry: the entry's cursor, and either the structured event
/// or, when payload decode failed, the raw payload text kept verbatim.
/// An entry is never dropped on payload decode failure.
#[derive(Debug, PartialEq, Eq)]
pub struct LogEntryWithSeq {
    pub seq: u128,
    pub log: Result<LogEntry, String>,
}

/// How an HTTP status is acted on: 2xx carries a batch, 4xx is a
/// permanent rejection, everything else is worth retrying.
#[derive(Debug, Clone, Copy, PartialEq, Eq, Structural)]
pub enum StatusClass {
    Success,
    Permanent,
    Transient,
}

pub open spec fn spec_classify(status: u16) -> StatusClass {
    if 200 <= status && status < 300 {
        StatusClass::Success
    } else if 400 <= status && status < 500 {
        StatusClass::Permanent
    } else {
        StatusClass::Transient
    }
}

/// Classify an HTTP status code: success (2xx), permanent client
/// rejection (4xx), or transient (anything else, 5xx included).
pub fn classify_status(status: u16) -> (r: StatusClass)
    ensures
        r == spec_classify(status),
{
    if 200 <= status && status < 300 {
        StatusClass::Success
    } else if 400 <= status && status < 500 {
        StatusClass::Permanent
    } else {
        StatusClass::Transient
    }
}

/// The outcome of one HTTP attempt, as the driver observed it.
#[derive(Debug, Clone, PartialEq, Eq)]
pub enum Attempt {
    /// A success status whose body parsed structurally; each entry comes
    /// with the outcome of its payload decode.
    Batch(Vec<RawEntryOutcome>),
    /// A success status, but the body failed structural JSON parsing.
    BadBody,
    /// A response with a non-success status, and its body text.
    Status(u16, String),
    /// No usable response: connection failure, timeout, unreadable body.
    Network,
}

/// What the client does after an attempt.
#[derive(Debug, PartialEq, Eq)]
pub enum Step {
    /// The pull is complete: the decoded batch, in server order.
    Done(Vec<LogEntryWithSeq>),
    /// The pull failed for good.
    Fail(SyncError),
    /// A transient failure within budget: sleep this many milliseconds,
    /// then attempt again.
    Retry(u64),
}

/// An attempt outcome eligible for retry: a structurally bad body, a
/// network-level failure, or any status that is not a 4xx rejection.
pub open spec fn attempt_transient(a: Attempt) -> bool {
    match a {
        Attempt::Batch(_) => false,
        Attempt::BadBody => true,
        Attempt::Status(s, _) => spec_classify(s) != StatusClass::Permanent,
        Attempt::Network => true,
    }
}

/// The retry/backoff state of one pull: the next inter-attempt delay and
/// how much of the sleeping budget is spent.
#[derive(Debug, Clone, Copy, PartialEq, Eq, Structural)]
pub struct Backoff {
    pub next_delay_ms: u64,
    pub elapsed_ms: u64,
}

impl Backoff {
    pub open spec fn wf(self) -> bool {
        &&& INITIAL_DELAY_MS <= self.next_delay_ms <= MAX_DELAY_MS
        &&& self.elapsed_ms <= MAX_ELAPSED_MS
    }

    pub open spec fn spec_new() -> Backoff {
        Backoff { next_delay_ms: INITIAL_DELAY_MS, elapsed_ms: 0 }
    }

    /// The backoff state a pull starts from.
    pub fn new() -> (r: Backoff)
        ensures
            r == Backoff::spec_new(),
            r.wf(),
    {
        Backoff { next_delay_ms: INITIAL_DELAY_MS, elapsed_ms: 0 }
    }
}

/// The delay that follows `d` in the schedule: half again as long, capped.
pub open spec fn next_delay_after(d: nat) -> nat {
    if d * 3 / 2 >= MAX_DELAY_MS {
        MAX_DELAY_MS as nat
    } else {
        d * 3 / 2
    }
}

/// The delay slept after transient attempt `k` (counting from zero).
pub open spec fn spec_delay(k: nat) -> nat
    decreases k,
{
    if k == 0 {
        INITIAL_DELAY_MS as nat
    } else {
        next_delay_after(spec_delay((k - 1) as nat))
    }
}

/// Budget spent before transient attempt `k`: the sum of the first `k`
/// delays.
pub open spec fn spec_elapsed(k: nat) -> nat
    decreases k,
{
    if k == 0 {
        0
    } else {
        spec_elapsed((k - 1) as nat) + spec_delay((k - 1) as nat)
    }
}

proof fn lemma_next_delay_after_props(d: nat)
    requires
        2 <= d,
        d <= MAX_DELAY_MS,
    ensures
        d <= next_delay_after(d),
        d < MAX_DELAY_MS ==> d < next_delay_after(d),
        next_delay_after(d) <= MAX_DELAY_MS,
{
    let p = (d * 3) as int;
    lemma_fundamental_div_mod(p, 2);
    lemma_mod_bound(p, 2);
}

pub proof fn lemma_delay_bounds(k: nat)
    ensures
        INITIAL_DELAY_MS <= spec_delay(k) <= MAX_DELAY_MS,
    decreases k,
{
    if k > 0 {
        lemma_delay_bounds((k - 1) as nat);
        lemma_next_delay_after_props(spec_delay((k - 1) as nat));
    }
}

/// The law of the retry schedule: inter-attempt delays never shrink, they
/// grow strictly until they reach the cap, and they never pass it.
pub proof fn lemma_delays_increase(k: nat)
    ensures
        spec_delay(k) <= spec_delay(k + 1),
        spec_delay(k) < MAX_DELAY_MS ==> spec_delay(k) < spec_delay(k + 1),
        spec_delay(k + 1) <= MAX_DELAY_MS,
{
    lemma_delay_bounds(k);
    lemma_next_delay_after_props(spec_delay(k));
    assert(spec_delay(k + 1) == next_delay_after(spec_delay(k)));
}

/// Spent budget only grows along the schedule.
pub proof fn lemma_elapsed_monotone(k1: nat, k2: nat)
    requires
        k1 <= k2,
    ensures
        spec_elapsed(k1) <= spec_elapsed(k2),
    decreases k2,
{
    if k1 < k2 {
        lemma_elapsed_monotone(k1, (k2 - 1) as nat);
    }
}

/// How one transient attempt outcome moves the backoff state: while a
/// further delay fits the budget, the answer is `Retry` with the current
/// delay and the state advances; otherwise the pull gives up with
/// `RetriesExhausted` and the state stands still.
pub open spec fn transient_step(pre: Backoff, post: Backoff, r: Step) -> bool {
    if pre.elapsed_ms + pre.next_delay_ms <= MAX_ELAPSED_MS {
        &&& r == Step::Retry(pre.next_delay_ms)
        &&& post.elapsed_ms == pre.elapsed_ms + pre.next_delay_ms
        &&& post.next_delay_ms as nat == next_delay_after(pre.next_delay_ms as nat)
    } else {
        &&& r == Step::Fail(SyncError::RetriesExhausted)
        &&& post == pre
    }
}

fn retry_or_give_up(b: &mut Backoff) -> (r: Step)
    requires
        old(b).wf(),
    ensures
        final(b).wf(),
        transient_step(*old(b), *final(b), r),
{
    if b.elapsed_ms + b.next_delay_ms <= MAX_ELAPSED_MS {
        let delay = b.next_delay_ms;
        b.elapsed_ms = b.elapsed_ms + delay;
        let grown = delay * 3 / 2;
        b.next_delay_ms = if grown >= MAX_DELAY_MS {
            MAX_DELAY_MS
        } else {
            grown
        };
        proof {
            lemma_next_delay_after_props(delay as nat);
        }
        Step::Retry(delay)
    } else {
        Step::Fail(SyncError::RetriesExhausted)
    }
}

/// The entry's wire cursor is one the lenient decode accepts.
pub open spec fn entry_seq_ok(e: RawEntryOutcome) -> bool {
    cursor::spec_hex_ok(e.raw.seq@)
}

/// What one raw entry decodes to: its cursor read leniently, and either
/// the structured event or the raw payload preserved on decode failure.
pub open spec fn spec_decode_entry(e: RawEntryOutcome) -> LogEntryWithSeq {
    LogEntryWithSeq {
        seq: cursor::spec_hex_value(e.raw.seq@) as u128,
        log: match e.parsed {
            Some(ev) => Ok(ev),
            None => Err(e.raw.value),
        },
    }
}

pub open spec fn batch_ok(v: Seq<RawEntryOutcome>) -> bool {
    forall|i: int| 0 <= i < v.len() ==> entry_seq_ok(#[trigger] v[i])
}

/// What a whole batch decodes to, entry by entry, in server order.
pub open spec fn spec_decode_batch(v: Seq<RawEntryOutcome>) -> Seq<LogEntryWithSeq> {
    Seq::new(v.len(), |i: int| spec_decode_entry(v[i]))
}

fn decode_entry(e: RawEntryOutcome) -> (r: Result<LogEntryWithSeq, SyncError>)
    ensures
        entry_seq_ok(e) ==> (r matches Ok(d) && d == spec_decode_entry(e)),
        !entry_seq_ok(e) ==> r == Err::<LogEntryWithSeq, SyncError>(SyncError::MalformedCursor),
{
    let RawEntryOutcome { raw, parsed } = e;
    match cursor::decode(raw.seq.as_str()) {
        Ok(seq) => {
            proof {
                if entry_seq_ok(e) {
                    cursor::lemma_hex_value_bound(e.raw.seq@);
                    cursor::lemma_pow16_increases(e.raw.seq@.len(), 32);
                    cursor::lemma_pow16_values();
                }
            }
            let log: Result<LogEntry, String> = match parsed {
                Some(ev) => Ok(ev),
                None => Err(raw.value),
            };
            Ok(LogEntryWithSeq { seq, log })
        },
        Err(err) => Err(err),
    }
}

/// Decode every entry of a pulled batch, in the order received. A
/// malformed payload degrades only its own entry; a malformed wire cursor
/// fails the batch with `MalformedCursor`, since cursors are what the
/// caller advances by.
#[verifier::loop_isolation(false)]
pub fn decode_batch(v: Vec<RawEntryOutcome>) -> (r: Result<Vec<LogEntryWithSeq>, SyncError>)
    ensures
        batch_ok(v@) ==> (r matches Ok(res) && res@ == spec_decode_batch(v@)),
        !batch_ok(v@) ==> r == Err::<Vec<LogEntryWithSeq>, SyncError>(SyncError::MalformedCursor),
{
    let ghost orig = v@;
    let mut rest = v;
    let mut out: Vec<LogEntryWithSeq> = Vec::new();
    while rest.len() > 0
        invariant
            out@.len() + rest@.len() == orig.len(),
            rest@ == orig.subrange(out@.len() as int, orig.len() as int),
            forall|j: int| 0 <= j < out@.len() ==> entry_seq_ok(#[trigger] orig[j]),
            forall|j: int| 0 <= j < out@.len() ==> out@[j] == spec_decode_entry(#[trigger] orig[j]),
        decreases rest@.len(),
    {
        let ghost k = out@.len() as int;
        let e = rest.remove(0);
        proof {
            assert(e == orig[k]);
            assert(rest@ =~= orig.subrange(k + 1, orig.len() as int));
        }
        match decode_entry(e) {
            Ok(d) => out.push(d),
            Err(err) => {
                proof {
                    assert(!entry_seq_ok(orig[k]));
                }
                return Err(err);
            },
        }
    }
    proof {
        assert(out@ =~= spec_decode_batch(orig));
    }
    Ok(out)
}

/// One turn of the pull protocol: classify the attempt's outcome and
/// either finish with the decoded batch, fail for good (4xx rejection,
/// malformed cursor, exhausted budget), or schedule a retry.
pub fn pull_step(b: &mut Backoff, a: Attempt) -> (r: Step)
    requires
        old(b).wf(),
    ensures
        final(b).wf(),
        match a {
            Attempt::Batch(v) => {
                &&& *final(b) == *old(b)
                &&& batch_ok(v@) ==> (r matches Step::Done(res) && res@ == spec_decode_batch(v@))
                &&& !batch_ok(v@) ==> r == Step::Fail(SyncError::MalformedCursor)
            },
            Attempt::BadBody => transient_step(*old(b), *final(b), r),
            Attempt::Status(s, body) => {
                if spec_classify(s) == StatusClass::Permanent {
                    &&& *final(b) == *old(b)
                    &&& r == Step::Fail(SyncError::ClientRejected(s, body))
                } else {
                    transient_step(*old(b), *final(b), r)
                }
            },
            Attempt::Network => transient_step(*old(b), *final(b), r),
        },
{
    match a {
        Attempt::Batch(v) => match decode_batch(v) {
            Ok(out) => Step::Done(out),
            Err(e) => Step::Fail(e),
        },
        Attempt::BadBody => retry_or_give_up(b),
        Attempt::Status(s, body) => {
            if classify_status(s) == StatusClass::Permanent {
                Step::Fail(SyncError::ClientRejected(s, body))
            } else {
                retry_or_give_up(b)
            }
        },
        Attempt::Network => retry_or_give_up(b),
    }
}

/// What one whole pull did, given the outcomes its attempts had.
#[derive(Debug, PartialEq, Eq)]
pub struct PullRun {
    /// The terminal outcome, or `None` if every given attempt outcome was
    /// consumed with the pull still retrying.
    pub result: Option<Result<Vec<LogEntryWithSeq>, SyncError>>,
    /// How many attempts were made.
    pub attempts_used: usize,
    /// The delays slept between attempts, in order.
    pub delays: Vec<u64>,
}

/// The whole retry loop of one pull, run against a given sequence of
/// attempt outcomes: attempt, classify, back off, attempt again — until a
/// batch is decoded, a permanent failure surfaces, or the budget is gone.
///
/// Its contract fixes the protocol's laws: a leading 4xx rejection ends
/// the pull after exactly one attempt with `ClientRejected` and no
/// retries; a run of transient failures within budget followed by a good
/// batch uses every attempt and returns the batch; and the delays slept
/// are exactly the schedule `spec_delay(0), spec_delay(1), ...`.
#[verifier::loop_isolation(false)]
pub fn run_pull(attempts: Vec<Attempt>) -> (r: PullRun)
    ensures
        r.attempts_used <= attempts@.len(),
        r.delays@.len() <= r.attempts_used,
        r.result is None ==> r.attempts_used == attempts@.len() && r.delays@.len()
            == attempts@.len(),
        forall|j: int| 0 <= j < r.delays@.len() ==> #[trigger] r.delays@[j] == spec_delay(
            j as nat,
        ) as u64,
        attempts@.len() > 0 ==> match attempts@[0] {
            Attempt::Status(s, body) => spec_classify(s) == StatusClass::Permanent ==> {
                &&& r.attempts_used == 1
                &&& r.delays@.len() == 0
                &&& r.result == Some(Err::<Vec<LogEntryWithSeq>, SyncError>(
                    SyncError::ClientRejected(s, body),
                ))
            },
            _ => true,
        },
        ({
            &&& attempts@.len() > 0
            &&& forall|i: int| 0 <= i < attempts@.len() - 1 ==> attempt_transient(
                #[trigger] attempts@[i],
            )
            &&& spec_elapsed((attempts@.len() - 1) as nat) <= MAX_ELAPSED_MS
        }) ==> match attempts@.last() {
            Attempt::Batch(v) => batch_ok(v@) ==> {
                &&& r.attempts_used == attempts@.len()
                &&& r.delays@.len() == attempts@.len() - 1
                &&& (r.result matches Some(res) && res matches Ok(out) && out@
                    == spec_decode_batch(v@))
            },
            _ => true,
        },
        ({
            &&& forall|i: int| 0 <= i < attempts@.len() ==> attempt_transient(
                #[trigger] attempts@[i],
            )
            &&& spec_elapsed(attempts@.len()) <= MAX_ELAPSED_MS
        }) ==> {
            &&& r.result is None
            &&& r.attempts_used == attempts@.len()
            &&& r.delays@.len() == attempts@.len()
        },
{
    let n = attempts.len();
    let ghost atts = attempts@;
    let mut rest = attempts;
    let mut b = Backoff::new();
    let mut delays: Vec<u64> = Vec::new();
    let mut used: usize = 0;
    while rest.len() > 0
        invariant
            used + rest@.len() == n,
            rest@ == atts.subrange(used as int, atts.len() as int),
            delays@.len() == used,
            forall|j: int| 0 <= j < used ==> #[trigger] delays@[j] == spec_delay(j as nat) as u64,
            b.wf(),
            b.next_delay_ms as nat == spec_delay(used as nat),
            b.elapsed_ms as nat == spec_elapsed(used as nat),
            forall|j: int| 0 <= j < used ==> attempt_transient(#[trigger] atts[j]),
        decreases rest@.len(),
    {
        let ghost k = used as int;
        let a = rest.remove(0);
        proof {
            assert(a == atts[k]);
            assert(rest@ =~= atts.subrange(k + 1, atts.len() as int));
        }
        let used_new = used + 1;
        match pull_step(&mut b, a) {
            Step::Done(out) => {
                return PullRun { result: Some(Ok(out)), attempts_used: used_new, delays };
            },
            Step::Fail(e) => {
                proof {
                    assert(spec_elapsed((used + 1) as nat) == spec_elapsed(used as nat)
                        + spec_delay(used as nat));
                    if used as int + 1 < atts.len() {
                        lemma_elapsed_monotone((used + 1) as nat, (atts.len() - 1) as nat);
                    }
                    lemma_elapsed_monotone((used + 1) as nat, atts.len());
                }
                return PullRun { result: Some(Err(e)), attempts_used: used_new, delays };
            },
            Step::Retry(d) => {
                delays.push(d);
                proof {
                    assert(spec_elapsed((used + 1) as nat) == spec_elapsed(used as nat)
                        + spec_delay(used as nat));
                }
            },
        }
        used = used_new;
    }
    PullRun { result: None, attempts_used: used, delays }
}

/// The cursor the caller pulls from next: one past the batch's last
/// entry, or nothing when the batch is empty and the caller is caught up.
pub fn next_cursor(batch: &Vec<LogEntryWithSeq>) -> (r: Option<u128>)
    requires
        batch@.len() > 0 ==> batch@.last().seq < u128::MAX,
    ensures
        batch@.len() == 0 ==> r is None,
        batch@.len() > 0 ==> r == Some((batch@.last().seq + 1) as u128),
{
    if batch.len() == 0 {
        None
    } else {
        Some(batch[batch.len() - 1].seq + 1)
    }
}

/// The URL a pull is posted to: the configured service URL, or the
/// well-known default, with the pull endpoint path appended.
pub open spec fn spec_pull_url(cfg: ClientConfig) -> Seq<char> {
    (match cfg.url {
        Some(u) => u@,
        None => "https://bluebird.ink"@,
    }) + "/api/v1/sync/pull"@
}

/// The JSON body of a pull request: the starting cursor in its canonical
/// fixed-width wire form, under the `fromSeq` key.
pub open spec fn spec_pull_request_body(from_seq: u128) -> Seq<char> {
    "{\"fromSeq\":\""@ + cursor::spec_encode(from_seq) + "\"}"@
}

/// Build the JSON body of a pull request. The cursor is always sent in
/// its full 16-byte form, even though trimmed forms are accepted inbound.
pub fn pull_request_body(from_seq: u128) -> (r: String)
    ensures
        r@ == spec_pull_request_body(from_seq),
{
    let mut s = String::from_str("{\"fromSeq\":\"");
    let enc = cursor::encode(from_seq);
    s.append(enc.as_str());
    s.append("\"}");
    s
}

/// A byte allowed in an HTTP header value: horizontal tab, or anything
/// from space upward except delete.
pub open spec fn header_byte_ok(b: u8) -> bool {
    b == 9 || (32 <= b && b != 127)
}

pub open spec fn spec_token_ok(bs: Seq<u8>) -> bool {
    forall|i: int| 0 <= i < bs.len() ==> header_byte_ok(#[trigger] bs[i])
}

/// Whether a bearer token can form a valid HTTP header value. The header
/// sent is the token with a `Bearer ` prefix of plainly valid bytes, so
/// the token's own bytes decide.
pub fn token_ok(token: &str) -> (r: bool)
    ensures
        r == spec_token_ok(token.spec_bytes()),
{
    let bs = token.as_bytes();
    let n = bs.len();
    let mut i: usize = 0;
    while i < n
        invariant
            n == bs@.len(),
            bs@ == token.spec_bytes(),
            i <= n,
            forall|j: int| 0 <= j < i ==> header_byte_ok(#[trigger] bs@[j]),
        decreases n - i,
    {
        let byte = bs[i];
        if !(byte == 9 || (byte >= 32 && byte != 127)) {
            assert(!header_byte_ok(bs@[i as int]));
            return false;
        }
        i = i + 1;
    }
    true
}

impl ClientConfig {
    /// The construction-time credential check: a client can only be built
    /// when the bearer token forms a valid HTTP header value; otherwise
    /// construction fails with `InvalidCredential`.
    pub fn validate(&self) -> (r: Result<(), SyncError>)
        ensures
            spec_token_ok(vstd::utf8::encode_utf8(self.token@)) ==> r == Ok::<(), SyncError>(()),
            !spec_token_ok(vstd::utf8::encode_utf8(self.token@)) ==> r == Err::<(), SyncError>(
                SyncError::InvalidCredential,
            ),
    {
        if token_ok(self.token.as_str()) {
            Ok(())
        } else {
            Err(SyncError::InvalidCredential)
        }
    }

    /// The URL pulls are posted to.
    pub fn pull_url(&self) -> (r: String)
        ensures
            r@ == spec_pull_url(*self),
    {
        match &self.url {
            Some(u) => {
                let mut s = u.clone();
                s.append("/api/v1/sync/pull");
                s
            },
            None => {
                let mut s = String::from_str("https://bluebird.ink");
                s.append("/api/v1/sync/pull");
                s
            },
        }
    }
}

} // verus!
