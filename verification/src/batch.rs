//! The conversion worker's decisions and the batch coordinator's
//! accounting.
//!
//! All file reading, decoding, encoding and directory creation happen
//! outside this library; what the worker decides from their results — which
//! format to use, where to write, and which outcome an item gets for each
//! possible event — is defined and verified here. Each item's outcome is a
//! function of that item's own inputs and events alone, which is what makes
//! one item's failure unable to touch its siblings.

use vstd::prelude::*;
use crate::registry::{Format, spec_lookup};
use crate::registry::lookup;
use crate::resolve::{
    opt_string_view, opt_view, resolve, spec_dest, spec_dir_to_create, ResolveError,
};
use crate::paths::has_file_name;

verus! {

/// Why one item of a batch failed. Carried in that item's outcome and never
/// propagated to sibling items.
#[derive(Debug)]
pub enum FailureReason {
    /// The target extension names no supported format.
    UnsupportedTarget(String),
    /// The source path names no file.
    InvalidSourcePath,
    /// The external decoder rejected the source file.
    DecodeFailed(String),
    /// The output directory could not be created.
    CreateDirFailed(String),
    /// The external encoder failed to write the destination.
    EncodeFailed(String),
}

/// The specification-level image of a failure reason.
pub enum SpecFailure {
    UnsupportedTarget(Seq<char>),
    InvalidSourcePath,
    DecodeFailed(Seq<char>),
    CreateDirFailed(Seq<char>),
    EncodeFailed(Seq<char>),
}

impl View for FailureReason {
    type V = SpecFailure;

    open spec fn view(&self) -> SpecFailure {
        match self {
            FailureReason::UnsupportedTarget(e) => SpecFailure::UnsupportedTarget(e@),
            FailureReason::InvalidSourcePath => SpecFailure::InvalidSourcePath,
            FailureReason::DecodeFailed(m) => SpecFailure::DecodeFailed(m@),
            FailureReason::CreateDirFailed(m) => SpecFailure::CreateDirFailed(m@),
            FailureReason::EncodeFailed(m) => SpecFailure::EncodeFailed(m@),
        }
    }
}

/// The per-item result of a batch: the destination written, or the failing
/// source and its reason.
#[derive(Debug)]
pub enum ConversionOutcome {
    Success { source: String, dest: String },
    Failure { source: String, reason: FailureReason },
}

/// The specification-level image of an outcome.
pub enum SpecOutcome {
    Success { source: Seq<char>, dest: Seq<char> },
    Failure { source: Seq<char>, reason: SpecFailure },
}

impl View for ConversionOutcome {
    type V = SpecOutcome;

    open spec fn view(&self) -> SpecOutcome {
        match self {
            ConversionOutcome::Success { source, dest } => SpecOutcome::Success {
                source: source@,
                dest: dest@,
            },
            ConversionOutcome::Failure { source, reason } => SpecOutcome::Failure {
                source: source@,
                reason: reason@,
            },
        }
    }
}

/// What the worker computed for one item before any write: the format tag,
/// the destination path, and the directory to create first, if any.
#[derive(Debug)]
pub struct ItemPlan {
    pub format: Format,
    pub dest: String,
    pub dir_to_create: Option<String>,
}

/// The plan an item gets, as a function of its own inputs alone: the target
/// must be a supported format and the source must name a file; then the
/// destination follows the resolver.
pub open spec fn spec_plan(source: Seq<char>, to: Seq<char>, root: Option<Seq<char>>) -> Result<
    (Format, Seq<char>, Option<Seq<char>>),
    SpecFailure,
> {
    match spec_lookup(to) {
        None => Err(SpecFailure::UnsupportedTarget(to)),
        Some(f) => if !has_file_name(source) {
            Err(SpecFailure::InvalidSourcePath)
        } else {
            Ok((f, spec_dest(source, root, to), spec_dir_to_create(source, root)))
        },
    }
}

/// Computes one item's plan; fails, per item and without panicking, when
/// the target is unsupported or the source names no file.
pub fn plan_item(source: &str, to: &str, output_root: Option<&str>) -> (r: Result<
    ItemPlan,
    FailureReason,
>)
    ensures
        match r {
            Ok(p) => spec_plan(source@, to@, opt_view(output_root)) == Ok::<_, SpecFailure>(
                (p.format, p.dest@, opt_string_view(p.dir_to_create)),
            ),
            Err(f) => spec_plan(source@, to@, opt_view(output_root)) == Err::<
                (Format, Seq<char>, Option<Seq<char>>),
                _,
            >(f@),
        },
{
    let format = match lookup(to) {
        Ok(f) => f,
        Err(e) => {
            return Err(FailureReason::UnsupportedTarget(e.extension));
        },
    };
    match resolve(source, output_root, to) {
        Ok(res) => Ok(ItemPlan { format, dest: res.dest, dir_to_create: res.dir_to_create }),
        Err(ResolveError::NoFileName) => Err(FailureReason::InvalidSourcePath),
    }
}

/// What the outside work of one item reported back to the worker.
#[derive(Debug)]
pub enum WorkEvent {
    /// Decoding the source failed with this message.
    DecodeFailed(String),
    /// Creating the output directory failed with this message.
    CreateDirFailed(String),
    /// Encoding or writing the destination failed with this message.
    EncodeFailed(String),
    /// The destination was written.
    Written,
}

/// The specification-level image of a work event.
pub enum SpecEvent {
    DecodeFailed(Seq<char>),
    CreateDirFailed(Seq<char>),
    EncodeFailed(Seq<char>),
    Written,
}

impl View for WorkEvent {
    type V = SpecEvent;

    open spec fn view(&self) -> SpecEvent {
        match self {
            WorkEvent::DecodeFailed(m) => SpecEvent::DecodeFailed(m@),
            WorkEvent::CreateDirFailed(m) => SpecEvent::CreateDirFailed(m@),
            WorkEvent::EncodeFailed(m) => SpecEvent::EncodeFailed(m@),
            WorkEvent::Written => SpecEvent::Written,
        }
    }
}

/// One item's outcome as a function of its own inputs and its own event: a
/// decode failure is reported as such; otherwise a failed plan decides; an
/// event of failed directory creation or encoding decides next; and what
/// remains is success at the planned destination.
pub open spec fn spec_item_outcome(
    source: Seq<char>,
    to: Seq<char>,
    root: Option<Seq<char>>,
    ev: SpecEvent,
) -> SpecOutcome {
    match ev {
        SpecEvent::DecodeFailed(m) => SpecOutcome::Failure {
            source,
            reason: SpecFailure::DecodeFailed(m),
        },
        _ => match spec_plan(source, to, root) {
            Err(f) => SpecOutcome::Failure { source, reason: f },
            Ok((format, dest, dir)) => match ev {
                SpecEvent::CreateDirFailed(m) => SpecOutcome::Failure {
                    source,
                    reason: SpecFailure::CreateDirFailed(m),
                },
                SpecEvent::EncodeFailed(m) => SpecOutcome::Failure {
                    source,
                    reason: SpecFailure::EncodeFailed(m),
                },
                _ => SpecOutcome::Success { source, dest },
            },
        },
    }
}

/// Decides one item's outcome from its inputs and its reported event.
pub fn item_outcome(source: &str, to: &str, output_root: Option<&str>, ev: WorkEvent) -> (o:
    ConversionOutcome)
    ensures
        o@ == spec_item_outcome(source@, to@, opt_view(output_root), ev@),
{
    let source_owned = String::from_str(source);
    match ev {
        WorkEvent::DecodeFailed(m) => ConversionOutcome::Failure {
            source: source_owned,
            reason: FailureReason::DecodeFailed(m),
        },
        other => match plan_item(source, to, output_root) {
            Err(f) => ConversionOutcome::Failure { source: source_owned, reason: f },
            Ok(plan) => match other {
                WorkEvent::CreateDirFailed(m) => ConversionOutcome::Failure {
                    source: source_owned,
                    reason: FailureReason::CreateDirFailed(m),
                },
                WorkEvent::EncodeFailed(m) => ConversionOutcome::Failure {
                    source: source_owned,
                    reason: FailureReason::EncodeFailed(m),
                },
                _ => ConversionOutcome::Success { source: source_owned, dest: plan.dest },
            },
        },
    }
}

/// The shared progress counter: hands out 1-based sequence numbers, one per
/// dispatched item, by fetch-and-increment. It serves the "item K of N"
/// report only, never correctness.
pub struct ProgressCounter {
    pub count: u16,
}

impl ProgressCounter {
    /// A fresh counter, before any dispatch.
    pub fn new() -> (c: ProgressCounter)
        ensures
            c.count == 0,
    {
        ProgressCounter { count: 0 }
    }

    /// Fetch-and-increment: returns this dispatch's 1-based sequence number.
    pub fn next(&mut self) -> (n: u16)
        requires
            old(self).count < u16::MAX,
        ensures
            final(self).count == old(self).count + 1,
            n == final(self).count,
    {
        self.count = self.count + 1;
        self.count
    }
}

/// One dispatched item: its 1-based sequence number, the batch's fixed
/// total, and the source it will convert.
#[derive(Debug)]
pub struct Dispatch {
    pub seq: u16,
    pub total: u16,
    pub source: String,
}

/// Assigns sequence numbers to the candidates in dispatch order: the total
/// is fixed to the batch size before any dispatch, and item `i` draws
/// number `i + 1` from the counter.
pub fn plan_dispatches(candidates: &Vec<String>) -> (r: Vec<Dispatch>)
    requires
        candidates@.len() <= u16::MAX,
    ensures
        r@.len() == candidates@.len(),
        forall|i: int|
            0 <= i < r@.len() ==> (#[trigger] r@[i]).seq as int == i + 1 && r@[i].total as int
                == candidates@.len() && r@[i].source@ == candidates@[i]@,
{
    let total = candidates.len() as u16;
    let mut counter = ProgressCounter::new();
    let mut r: Vec<Dispatch> = Vec::new();
    let mut i: usize = 0;
    while i < candidates.len()
        invariant
            i <= candidates@.len(),
            candidates@.len() <= u16::MAX,
            total as int == candidates@.len(),
            counter.count as int == i as int,
            r@.len() == i,
            forall|k: int|
                0 <= k < i ==> (#[trigger] r@[k]).seq as int == k + 1 && r@[k].total as int
                    == candidates@.len() && r@[k].source@ == candidates@[k]@,
        decreases candidates@.len() - i,
    {
        let seq = counter.next();
        r.push(Dispatch { seq, total, source: candidates[i].clone() });
        i = i + 1;
    }
    r
}

/// Sequence numbers of a planned batch are a permutation of 1..=N: each lies
/// in bounds, no two dispatches share one, and none is skipped.
pub proof fn lemma_sequence_numbers_complete(d: Seq<Dispatch>)
    requires
        forall|i: int| 0 <= i < d.len() ==> (#[trigger] d[i]).seq as int == i + 1,
    ensures
        forall|i: int| 0 <= i < d.len() ==> 1 <= (#[trigger] d[i]).seq as int <= d.len(),
        forall|i: int, j: int|
            0 <= i < d.len() && 0 <= j < d.len() && i != j ==> d[i].seq != d[j].seq,
        forall|n: int| 1 <= n <= d.len() ==> (#[trigger] d[n - 1]).seq as int == n,
{
}

/// The outcomes of a whole batch, each item judged from its own source and
/// its own event alone.
pub open spec fn spec_batch_outcomes(
    sources: Seq<Seq<char>>,
    to: Seq<char>,
    root: Option<Seq<char>>,
    events: Seq<SpecEvent>,
) -> Seq<SpecOutcome> {
    Seq::new(sources.len(), |i: int| spec_item_outcome(sources[i], to, root, events[i]))
}

/// Aggregates per-item outcomes for a batch: collect-and-continue, never
/// aborting on a failed item.
pub fn batch_outcomes(
    sources: &Vec<String>,
    to: &str,
    output_root: Option<&str>,
    events: Vec<WorkEvent>,
) -> (r: Vec<ConversionOutcome>)
    requires
        events@.len() == sources@.len(),
    ensures
        r@.len() == sources@.len(),
        r@.map_values(|o: ConversionOutcome| o@) == spec_batch_outcomes(
            sources@.map_values(|s: String| s@),
            to@,
            opt_view(output_root),
            events@.map_values(|e: WorkEvent| e@),
        ),
{
    let mut r: Vec<ConversionOutcome> = Vec::new();
    let mut events = events;
    let ghost all_events = events@;
    let n = sources.len();
    let mut i: usize = 0;
    while i < n
        invariant
            i <= n,
            n == sources@.len(),
            all_events.len() == n,
            events@ == all_events.subrange(i as int, n as int),
            r@.len() == i,
            forall|k: int|
                0 <= k < i ==> (#[trigger] r@[k])@ == spec_item_outcome(
                    sources@[k]@,
                    to@,
                    opt_view(output_root),
                    all_events[k]@,
                ),
        decreases n - i,
    {
        let ev = events.remove(0);
        proof {
            assert(all_events.subrange(i as int, n as int).remove(0) =~= all_events.subrange(
                i as int + 1,
                n as int,
            ));
        }
        r.push(item_outcome(sources[i].as_str(), to, output_root, ev));
        i = i + 1;
    }
    proof {
        assert(r@.map_values(|o: ConversionOutcome| o@) =~= spec_batch_outcomes(
            sources@.map_values(|s: String| s@),
            to@,
            opt_view(output_root),
            all_events.map_values(|e: WorkEvent| e@),
        ));
    }
    r
}

/// Failure isolation: an item's outcome is a function of that item's own
/// source and event alone. Between two batches that agree on item `i` —
/// however much the sibling items differ, fail to decode, or fail to write
/// — item `i`'s outcome is exactly the same.
pub proof fn lemma_failure_isolation(
    sources1: Seq<Seq<char>>,
    sources2: Seq<Seq<char>>,
    to: Seq<char>,
    root: Option<Seq<char>>,
    events1: Seq<SpecEvent>,
    events2: Seq<SpecEvent>,
    i: int,
)
    requires
        events1.len() == sources1.len(),
        events2.len() == sources2.len(),
        0 <= i < sources1.len(),
        0 <= i < sources2.len(),
        sources1[i] == sources2[i],
        events1[i] == events2[i],
    ensures
        spec_batch_outcomes(sources1, to, root, events1)[i] == spec_batch_outcomes(
            sources2,
            to,
            root,
            events2,
        )[i],
{
}

} // verus!
