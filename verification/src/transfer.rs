//! The concurrent bulk-transfer engine's verified core: direction
//! classification, the work queue with its enqueue-order guarantee, the
//! completion tracker with its barrier accounting, and the per-item target
//! resolution the workers use.
//!
//! The engine is a state machine over plain values. The surrounding program
//! spawns the actual worker threads and performs the network and filesystem
//! calls; every decision — which direction, which item next, what counts as
//! completed, when the barrier releases — is made and proved here.

use vstd::prelude::*;
use vstd::string::StringExecFns;

use crate::paths::{
    spec_is_remote, spec_normalized, spec_resolved_dest, is_remote_path, normalize_data_path,
    resolve_download_dest,
};

verus! {

/// Which way a bulk copy moves data.
#[derive(Clone, Copy, PartialEq, Eq, Structural, Debug)]
pub enum TransferDirection {
    Upload,
    Download,
}

/// Rejections the path classifier can give before any work is dispatched.
#[derive(Clone, Copy, PartialEq, Eq, Structural, Debug)]
pub enum ClassifyError {
    /// Source and destination are both remote: a direct remote-to-remote copy
    /// is unsupported.
    AmbiguousDirection,
    /// Neither side is explicitly remote: the remote path must carry the
    /// scheme marker.
    AmbiguousPath,
}

/// A per-item failure, carrying the underlying cause unmodified.
#[derive(Clone, PartialEq, Eq, Debug)]
pub enum TransferError {
    /// A local open, create or copy failed.
    LocalIo(String),
    /// The remote endpoint call failed.
    Remote(String),
}

/// The result a worker reports for one item.
#[derive(Clone, PartialEq, Eq, Debug)]
pub enum TransferOutcome {
    /// The item was transferred; `resolved` names where it landed and
    /// `bytes` how much was copied (zero when the endpoint does not say).
    Success { path: String, resolved: String, bytes: u64 },
    /// The item's transfer failed.
    Failure { path: String, error: TransferError },
}

impl TransferOutcome {
    /// Did this item's transfer succeed?
    pub open spec fn is_success(self) -> bool {
        self is Success
    }
}

/// Some source path carries the remote scheme marker.
pub open spec fn spec_any_remote(sources: Seq<Seq<char>>) -> bool {
    exists|i: int| 0 <= i < sources.len() && spec_is_remote(sources[i])
}

/// The classifier's decision table: at least one remote source and a local
/// destination means a download; all-local sources and a remote destination
/// mean an upload; both sides remote or neither side remote is rejected.
pub open spec fn spec_classify(sources: Seq<Seq<char>>, dest: Seq<char>) -> Result<
    TransferDirection,
    ClassifyError,
> {
    if spec_any_remote(sources) {
        if spec_is_remote(dest) {
            Err(ClassifyError::AmbiguousDirection)
        } else {
            Ok(TransferDirection::Download)
        }
    } else {
        if spec_is_remote(dest) {
            Ok(TransferDirection::Upload)
        } else {
            Err(ClassifyError::AmbiguousPath)
        }
    }
}

/// Decide the transfer direction from the source and destination paths.
pub fn classify(sources: &Vec<String>, dest: &str) -> (r: Result<
    TransferDirection,
    ClassifyError,
>)
    ensures
        r == spec_classify(sources.deep_view(), dest@),
{
    let mut any_remote = false;
    let mut i: usize = 0;
    while i < sources.len()
        invariant
            i <= sources.len(),
            any_remote == spec_any_remote(sources.deep_view().take(i as int)),
        decreases sources.len() - i,
    {
        let ghost prefix = sources.deep_view().take(i as int);
        if is_remote_path(sources[i].as_str()) {
            any_remote = true;
        }
        proof {
            let next = sources.deep_view().take(i + 1);
            assert(next.drop_last() =~= prefix);
            assert(next.last() == sources.deep_view()[i as int]);
            if any_remote {
                if spec_is_remote(sources.deep_view()[i as int]) {
                    assert(spec_any_remote(next)) by {
                        assert(next[i as int] == sources.deep_view()[i as int]);
                    }
                } else {
                    let j = choose|j: int|
                        0 <= j < prefix.len() && spec_is_remote(prefix[j]);
                    assert(next[j] == prefix[j]);
                }
            } else {
                assert(forall|j: int|
                    0 <= j < next.len() ==> !spec_is_remote(#[trigger] next[j]));
            }
        }
        i += 1;
    }
    proof {
        assert(sources.deep_view().take(sources.len() as int) =~= sources.deep_view());
    }
    let dest_remote = is_remote_path(dest);
    if any_remote {
        if dest_remote {
            Err(ClassifyError::AmbiguousDirection)
        } else {
            Ok(TransferDirection::Download)
        }
    } else {
        if dest_remote {
            Ok(TransferDirection::Upload)
        } else {
            Err(ClassifyError::AmbiguousPath)
        }
    }
}

/// Law (classifier correctness): `Upload` exactly when no source is remote
/// and the destination is; `Download` exactly when some source is remote and
/// the destination is not; otherwise the matching ambiguity error.
pub proof fn lemma_classify_correct(sources: Seq<Seq<char>>, dest: Seq<char>)
    ensures
        spec_classify(sources, dest) == Ok::<TransferDirection, ClassifyError>(
            TransferDirection::Upload,
        ) <==> (!spec_any_remote(sources) && spec_is_remote(dest)),
        spec_classify(sources, dest) == Ok::<TransferDirection, ClassifyError>(
            TransferDirection::Download,
        ) <==> (spec_any_remote(sources) && !spec_is_remote(dest)),
        spec_classify(sources, dest) == Err::<TransferDirection, ClassifyError>(
            ClassifyError::AmbiguousDirection,
        ) <==> (spec_any_remote(sources) && spec_is_remote(dest)),
        spec_classify(sources, dest) == Err::<TransferDirection, ClassifyError>(
            ClassifyError::AmbiguousPath,
        ) <==> (!spec_any_remote(sources) && !spec_is_remote(dest)),
{
}

/// The default worker-count limit when the caller gives none.
pub const DEFAULT_CONCURRENCY: u32 = 8;

/// The progress verb of a direction, as the console lines use it.
pub open spec fn spec_verb(d: TransferDirection) -> Seq<char> {
    match d {
        TransferDirection::Upload => "uploading"@,
        TransferDirection::Download => "downloading"@,
    }
}

/// `min(item_count, limit)`: enough workers to overlap every item, never an
/// idle extra one.
pub open spec fn spec_effective_concurrency(item_count: nat, limit: u32) -> nat {
    if item_count <= limit as nat {
        item_count
    } else {
        limit as nat
    }
}

/// How many workers a transfer of `item_count` items runs under `limit`.
pub fn effective_concurrency(item_count: usize, limit: u32) -> (r: usize)
    ensures
        r == spec_effective_concurrency(item_count as nat, limit),
{
    if item_count <= limit as usize {
        item_count
    } else {
        limit as usize
    }
}

/// The worker limit a `-c` argument configures: the default when absent, its
/// decimal value when it names a positive number that fits, and nothing
/// otherwise.
pub open spec fn spec_concurrency_from_arg(arg: Option<Seq<char>>) -> Option<u32> {
    match arg {
        None => Some(DEFAULT_CONCURRENCY),
        Some(s) => {
            let digits = crate::strings::spec_after_sign(s);
            if crate::strings::spec_all_digits(digits) && 1
                <= crate::strings::spec_decimal_value(digits) <= u32::MAX {
                Some(crate::strings::spec_decimal_value(digits) as u32)
            } else {
                None
            }
        },
    }
}

/// The worker limit the command line configures, if it is usable.
pub fn concurrency_from_arg(arg: &Option<String>) -> (r: Option<u32>)
    ensures
        r == spec_concurrency_from_arg(arg.deep_view()),
{
    match arg {
        None => Some(DEFAULT_CONCURRENCY),
        Some(s) => match crate::strings::parse_u32(s.as_str()) {
            Some(v) => if v >= 1 {
                Some(v)
            } else {
                None
            },
            None => None,
        },
    }
}

/// One invocation of the bulk copy: the source paths in the caller's order,
/// the single destination, and the configured worker limit.
pub struct TransferRequest {
    /// Source path strings, in command-line order.
    pub sources: Vec<String>,
    /// The single destination path string.
    pub dest: String,
    /// Positive worker limit.
    pub limit: u32,
}

impl TransferRequest {
    /// A request over `sources` towards `dest` with worker limit `limit`.
    pub fn new(sources: Vec<String>, dest: String, limit: u32) -> (r: TransferRequest)
        requires
            limit >= 1,
        ensures
            r.sources == sources,
            r.dest == dest,
            r.limit == limit,
    {
        TransferRequest { sources, dest, limit }
    }
}

/// How many of the recorded outcomes were successes.
pub open spec fn count_successes(outcomes: Seq<bool>) -> int
    decreases outcomes.len(),
{
    if outcomes.len() == 0 {
        0
    } else {
        count_successes(outcomes.drop_last()) + if outcomes.last() {
            1int
        } else {
            0int
        }
    }
}

pub proof fn lemma_count_successes_bound(outcomes: Seq<bool>)
    ensures
        0 <= count_successes(outcomes) <= outcomes.len(),
    decreases outcomes.len(),
{
    if outcomes.len() > 0 {
        lemma_count_successes_bound(outcomes.drop_last());
    }
}

proof fn lemma_count_successes_push(outcomes: Seq<bool>, b: bool)
    ensures
        count_successes(outcomes.push(b)) == count_successes(outcomes) + if b {
            1int
        } else {
            0int
        },
{
    assert(outcomes.push(b).drop_last() =~= outcomes);
}

/// The engine's abstract state: what has been enqueued, issued, recorded and
/// signalled, over mathematical values.
pub struct EngineModel {
    /// The decided transfer direction.
    pub direction: TransferDirection,
    /// The destination path.
    pub dest: Seq<char>,
    /// Every work item, in enqueue order (the caller's argument order).
    pub queue: Seq<Seq<char>>,
    /// The configured worker limit.
    pub limit: u32,
    /// Items handed to workers so far; items `0 .. issued` of `queue` are
    /// exactly the ones issued, in order.
    pub issued: int,
    /// Workers started so far.
    pub started: int,
    /// Workers that have signalled the completion barrier.
    pub done: int,
    /// The completion tracker's counter.
    pub completed: int,
    /// One success flag per recorded outcome, in record order.
    pub outcomes: Seq<bool>,
    /// The first recorded failure, if any.
    pub failed: Option<TransferOutcome>,
}

impl EngineModel {
    /// The fixed worker count of this run.
    pub open spec fn workers(self) -> nat {
        spec_effective_concurrency(self.queue.len(), self.limit)
    }

    /// Workers currently running: started and not yet done.
    pub open spec fn active(self) -> int {
        self.started - self.done
    }

    /// The engine's invariant, established by construction and preserved by
    /// every step.
    pub open spec fn wf(self) -> bool {
        &&& self.limit >= 1
        &&& 0 <= self.issued <= self.queue.len()
        &&& 0 <= self.done <= self.started <= self.workers()
        &&& self.outcomes.len() <= self.issued
        &&& self.completed == count_successes(self.outcomes)
        &&& (self.failed is Some) <==> count_successes(self.outcomes) < self.outcomes.len()
    }

    /// The barrier releases once every worker of the pool has signalled.
    pub open spec fn barrier_released(self) -> bool {
        self.done == self.workers()
    }
}

/// The transfer engine: owns the work queue, the completion tracker and the
/// barrier accounting for one classified request.
pub struct TransferEngine {
    direction: TransferDirection,
    dest: String,
    queue: Vec<String>,
    limit: u32,
    issued: usize,
    started: usize,
    done: usize,
    completed: u64,
    outcomes: Ghost<Seq<bool>>,
    failed: Option<TransferOutcome>,
}

impl View for TransferEngine {
    type V = EngineModel;

    closed spec fn view(&self) -> EngineModel {
        EngineModel {
            direction: self.direction,
            dest: self.dest@,
            queue: self.queue.deep_view(),
            limit: self.limit,
            issued: self.issued as int,
            started: self.started as int,
            done: self.done as int,
            completed: self.completed as int,
            outcomes: self.outcomes@,
            failed: self.failed,
        }
    }
}

impl TransferEngine {
    /// Classify the request and, if a direction can be decided, build the
    /// engine with every source enqueued in the caller's order and all
    /// counters at zero.
    pub fn new(request: TransferRequest) -> (r: Result<TransferEngine, ClassifyError>)
        requires
            request.limit >= 1,
        ensures
            match r {
                Ok(engine) => {
                    &&& engine@.wf()
                    &&& Ok::<TransferDirection, ClassifyError>(engine@.direction)
                        == spec_classify(request.sources.deep_view(), request.dest@)
                    &&& engine@.queue == request.sources.deep_view()
                    &&& engine@.dest == request.dest@
                    &&& engine@.limit == request.limit
                    &&& engine@.issued == 0
                    &&& engine@.started == 0
                    &&& engine@.done == 0
                    &&& engine@.completed == 0
                    &&& engine@.outcomes == Seq::<bool>::empty()
                    &&& engine@.failed is None
                },
                Err(e) => Err::<TransferDirection, ClassifyError>(e) == spec_classify(
                    request.sources.deep_view(),
                    request.dest@,
                ),
            },
    {
        let direction = match classify(&request.sources, request.dest.as_str()) {
            Ok(d) => d,
            Err(e) => {
                return Err(e);
            },
        };
        Ok(
            TransferEngine {
                direction,
                dest: request.dest,
                queue: request.sources,
                limit: request.limit,
                issued: 0,
                started: 0,
                done: 0,
                completed: 0,
                outcomes: Ghost(Seq::empty()),
                failed: None,
            },
        )
    }

    /// The decided direction.
    pub fn direction(&self) -> (r: TransferDirection)
        ensures
            r == self@.direction,
    {
        self.direction
    }

    /// The destination path, as the request gave it.
    pub fn dest(&self) -> (r: &str)
        ensures
            r@ == self@.dest,
    {
        self.dest.as_str()
    }

    /// The worker count of this run: `min(item count, limit)`.
    pub fn worker_count(&self) -> (r: usize)
        ensures
            r == self@.workers(),
    {
        effective_concurrency(self.queue.len(), self.limit)
    }

    /// Workers currently running: started and not yet done. Never exceeds
    /// `worker_count`.
    pub fn active_workers(&self) -> (r: usize)
        requires
            self@.wf(),
        ensures
            r == self@.active(),
            r <= self@.workers(),
    {
        self.started - self.done
    }

    /// Register one more worker of the pool as started.
    pub fn start_worker(&mut self)
        requires
            old(self)@.wf(),
            old(self)@.started < old(self)@.workers(),
        ensures
            final(self)@.wf(),
            final(self)@ == (EngineModel { started: old(self)@.started + 1, ..old(self)@ }),
    {
        self.started = self.started + 1;
    }

    /// Hand out the next work item: the sources are issued in enqueue order,
    /// each exactly once; `None` once the queue is drained.
    pub fn next_item(&mut self) -> (r: Option<String>)
        requires
            old(self)@.wf(),
        ensures
            final(self)@.wf(),
            old(self)@.issued < old(self)@.queue.len() ==> {
                &&& r matches Some(item) && item@ == old(self)@.queue[old(self)@.issued]
                &&& final(self)@ == (EngineModel { issued: old(self)@.issued + 1, ..old(self)@ })
            },
            old(self)@.issued == old(self)@.queue.len() ==> {
                &&& r is None
                &&& final(self)@ == old(self)@
            },
    {
        if self.issued < self.queue.len() {
            let item = self.queue[self.issued].clone();
            self.issued = self.issued + 1;
            Some(item)
        } else {
            None
        }
    }

    /// Record one worker's report for an issued item: a success bumps the
    /// completion tracker, a failure is kept (first one wins) and the tracker
    /// is left alone.
    pub fn record_outcome(&mut self, outcome: TransferOutcome)
        requires
            old(self)@.wf(),
            old(self)@.outcomes.len() < old(self)@.issued,
        ensures
            final(self)@.wf(),
            final(self)@.outcomes == old(self)@.outcomes.push(outcome.is_success()),
            final(self)@.completed == old(self)@.completed + if outcome.is_success() {
                1int
            } else {
                0int
            },
            final(self)@.failed == if old(self)@.failed is Some {
                old(self)@.failed
            } else if outcome.is_success() {
                None::<TransferOutcome>
            } else {
                Some(outcome)
            },
            final(self)@ == (EngineModel {
                completed: final(self)@.completed,
                outcomes: final(self)@.outcomes,
                failed: final(self)@.failed,
                ..old(self)@
            }),
    {
        proof {
            lemma_count_successes_bound(self.outcomes@);
            lemma_count_successes_push(self.outcomes@, outcome is Success);
        }
        let is_success = match &outcome {
            TransferOutcome::Success { .. } => true,
            TransferOutcome::Failure { .. } => false,
        };
        proof {
            self.outcomes = Ghost(self.outcomes@.push(is_success));
        }
        if is_success {
            self.completed = self.completed + 1;
        } else {
            if self.failed.is_none() {
                self.failed = Some(outcome);
            }
        }
    }

    /// One worker signals the barrier; it does so exactly once, success or
    /// failure alike.
    pub fn worker_done(&mut self)
        requires
            old(self)@.wf(),
            old(self)@.done < old(self)@.started,
        ensures
            final(self)@.wf(),
            final(self)@ == (EngineModel { done: old(self)@.done + 1, ..old(self)@ }),
    {
        self.done = self.done + 1;
    }

    /// Has every worker of the pool signalled the barrier?
    pub fn barrier_released(&self) -> (r: bool)
        ensures
            r == self@.barrier_released(),
    {
        self.done == effective_concurrency(self.queue.len(), self.limit)
    }

    /// The completion tracker's current value.
    pub fn completed_count(&self) -> (r: u64)
        ensures
            r == self@.completed,
    {
        self.completed
    }

    /// Have all items been handed out?
    pub fn is_drained(&self) -> (r: bool)
        ensures
            r == (self@.issued == self@.queue.len()),
    {
        self.issued == self.queue.len()
    }

    /// The first recorded failure, if any item failed.
    pub fn failure(&self) -> (r: &Option<TransferOutcome>)
        ensures
            *r == self@.failed,
    {
        &self.failed
    }

    /// The process exit status the batch ends with: zero only on full
    /// success (fail-fast surfaces the first failure as a non-zero exit).
    pub fn exit_code(&self) -> (r: i32)
        ensures
            (r == 0i32) <==> (self@.failed is None),
            (r == 1i32) <==> (self@.failed is Some),
    {
        if self.failed.is_none() {
            0
        } else {
            1
        }
    }

    /// The line the orchestrator prints once the barrier has released:
    /// `Finished <verb>ing <count> file(s)`.
    pub fn summary_message(&self) -> (r: String)
        ensures
            r@ == "Finished "@ + spec_verb(self@.direction) + " "@ + crate::format::spec_decimal(
                self@.completed as nat,
            ) + " file(s)"@,
    {
        let mut r = String::from_str("Finished ");
        match self.direction {
            TransferDirection::Upload => r.append("uploading"),
            TransferDirection::Download => r.append("downloading"),
        }
        r.append(" ");
        let digits = crate::format::u64_to_decimal(self.completed);
        r.append(digits.as_str());
        r.append(" file(s)");
        proof {
            assert(r@ =~= "Finished "@ + spec_verb(self@.direction) + " "@
                + crate::format::spec_decimal(self@.completed as nat) + " file(s)"@);
        }
        r
    }

    /// The remote directory an upload worker hands to the endpoint client:
    /// the destination with its scheme marker stripped.
    pub fn upload_target(&self) -> (r: String)
        ensures
            r@ == spec_normalized(self@.dest),
    {
        normalize_data_path(self.dest.as_str())
    }

    /// The local file a download worker writes `remote_item` to, given
    /// whether the destination names an existing local directory.
    pub fn download_target(&self, remote_item: &str, dest_is_dir: bool) -> (r: String)
        ensures
            r@ == spec_resolved_dest(self@.dest, dest_is_dir, remote_item@),
    {
        resolve_download_dest(self.dest.as_str(), dest_is_dir, remote_item)
    }
}

/// Law (concurrency bound): a well-formed engine never has more active
/// workers than `min(item count, limit)`.
pub proof fn lemma_concurrency_bound(m: EngineModel)
    requires
        m.wf(),
    ensures
        m.active() <= spec_effective_concurrency(m.queue.len(), m.limit),
{
}

/// Law (completion accounting): once the barrier has released, the
/// completion tracker equals the number of recorded successes — failures are
/// reported but never counted.
pub proof fn lemma_completion_accounting(m: EngineModel)
    requires
        m.wf(),
        m.barrier_released(),
    ensures
        m.completed == count_successes(m.outcomes),
        m.completed < m.outcomes.len() <==> m.failed is Some,
{
    lemma_count_successes_bound(m.outcomes);
}

/// Law (enqueue order): the items handed out so far are exactly the first
/// `issued` sources in the caller's original order — no duplication, no
/// omission, and once the queue is drained they are the whole input.
pub proof fn lemma_issue_order(m: EngineModel)
    requires
        m.wf(),
    ensures
        forall|k: int| 0 <= k < m.issued ==> m.queue.take(m.issued)[k] == m.queue[k],
        m.issued == m.queue.len() ==> m.queue.take(m.issued) == m.queue,
{
    assert(m.issued == m.queue.len() ==> m.queue.take(m.issued) =~= m.queue);
}

} // verus!
