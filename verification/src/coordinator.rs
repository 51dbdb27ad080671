//! The computation coordinator: registers the circuit once, opens one
//! request per caller-chosen offset, forwards the plaintext bounds to the
//! execution cluster, and finalizes each request exactly once through an
//! asynchronous callback.
//!
//! Each operation is pinned to a spec-level transition function over the
//! coordinator's mathematical state, so the per-offset lifecycle
//! (unopened, then open, then finalized with success or abort, and nothing
//! after that) is stated once and proved of the executable code.

use vstd::prelude::*;
use std::collections::HashMap;

verus! {

broadcast use vstd::std_specs::hash::group_hash_axioms;

/// Failure conditions surfaced by the coordinator. Every one is a
/// synchronous return value; nothing is reported as a silent default.
#[derive(Clone, Copy, Debug, PartialEq, Eq, Structural)]
pub enum ErrorCode {
    /// The execution cluster could not produce a result for the request.
    AbortedComputation,
    /// No execution cluster reference was configured for this coordinator.
    ClusterNotConfigured,
    /// The offset is already in use by an open or finalized request.
    DuplicateOffset,
    /// A circuit is already registered; it cannot be swapped silently.
    AlreadyRegistered,
    /// The requested bounds have `min > max`.
    InvalidRange,
    /// No circuit has been registered yet.
    NotRegistered,
    /// The callback referenced an offset that is unknown or already
    /// finalized; it is rejected and never applied.
    InvalidCallback,
}

/// Where the registered circuit's code comes from: embedded bytecode, or a
/// retrievable location paired with a content hash.
#[derive(Debug)]
pub enum CircuitSource {
    Inline(Vec<u8>),
    Remote { url: String, content_hash: [u8; 32] },
}

/// Mathematical value of a `CircuitSource`.
pub enum CircuitSourceView {
    Inline(Seq<u8>),
    Remote { url: Seq<char>, content_hash: Seq<u8> },
}

impl View for CircuitSource {
    type V = CircuitSourceView;

    open spec fn view(&self) -> CircuitSourceView {
        match self {
            CircuitSource::Inline(code) => CircuitSourceView::Inline(code@),
            CircuitSource::Remote { url, content_hash } => CircuitSourceView::Remote {
                url: url@,
                content_hash: content_hash@,
            },
        }
    }
}

/// Registered description of the circuit to execute: the offset under which
/// its definition is addressed, derived from the circuit's name alone, and
/// the source of its code. Created once at bootstrap, immutable thereafter.
#[derive(Debug)]
pub struct ComputationDefinition {
    pub offset: u32,
    pub source: CircuitSource,
}

/// Mathematical value of a `ComputationDefinition`.
pub struct ComputationDefinitionView {
    pub offset: u32,
    pub source: CircuitSourceView,
}

impl View for ComputationDefinition {
    type V = ComputationDefinitionView;

    open spec fn view(&self) -> ComputationDefinitionView {
        ComputationDefinitionView { offset: self.offset, source: self.source@ }
    }
}

/// Name of the circuit this coordinator registers and queues.
pub const CIRCUIT_NAME: &'static str = "generate_random";

/// The offset under which a circuit's computation definition is addressed:
/// the leading bytes of a cryptographic digest of the circuit's name, so it
/// is a function of the name alone and every participant derives the same
/// address.
pub uninterp spec fn comp_def_offset_of(name: Seq<char>) -> u32;

/// Relies on `arcium_anchor::comp_def_offset`: the definition offset is read
/// from the first four bytes of the SHA-256 digest of the circuit name, a
/// pure function of the name.
#[verifier::external_body]
fn derive_comp_def_offset(name: &str) -> (r: u32)
    ensures
        r == comp_def_offset_of(name@),
{
    arcium_anchor::comp_def_offset(name)
}

/// Lifecycle stage of one computation request.
#[derive(Clone, Copy, Debug, PartialEq, Eq, Structural)]
pub enum RequestStatus {
    /// Submitted and forwarded; no callback has arrived yet.
    Open,
    /// Finalized by a callback that carried a revealed value.
    FinalizedSuccess,
    /// Finalized by a callback that carried an abort.
    FinalizedAborted,
}

/// Tracking record of one computation request.
#[derive(Clone, Copy, Debug, PartialEq, Eq, Structural)]
pub struct Request {
    pub min: u64,
    pub max: u64,
    pub status: RequestStatus,
}

/// Outcome the execution cluster reports for one request: either the
/// revealed value, or an abort marker distinct from every value.
#[derive(Clone, Copy, Debug, PartialEq, Eq, Structural)]
pub enum CallbackResult {
    Success(u64),
    Aborted,
}

/// The only externally observable artifact of a successful computation.
#[derive(Clone, Copy, Debug, PartialEq, Eq, Structural)]
pub struct GenerateRandomEvent {
    pub result: u64,
}

/// Work item handed to the execution cluster by a successful submission:
/// the request's offset and its plaintext arguments.
#[derive(Clone, Copy, Debug, PartialEq, Eq, Structural)]
pub struct QueuedComputation {
    pub offset: u64,
    pub min: u64,
    pub max: u64,
}

/// Mathematical state of a coordinator: the registered computation
/// definition, if any, whether an execution cluster is configured, and every
/// request ever opened, keyed by its offset.
#[verifier::ext_equal]
pub struct CoordinatorView {
    pub registered: Option<ComputationDefinitionView>,
    pub cluster_configured: bool,
    pub requests: Map<u64, Request>,
}

/// One registration step: binds the computation definition, unless one is
/// already bound.
pub open spec fn register_step(s: CoordinatorView, def: ComputationDefinitionView) -> (
    CoordinatorView,
    Result<(), ErrorCode>,
) {
    if s.registered is Some {
        (s, Err(ErrorCode::AlreadyRegistered))
    } else {
        (CoordinatorView { registered: Some(def), ..s }, Ok(()))
    }
}

/// One submission step: opens a request under `offset` and forwards its
/// arguments, or rejects it without changing anything. An offset already in
/// the map is refused whether its request is open or finalized, so an offset
/// is never reused.
pub open spec fn submit_step(s: CoordinatorView, offset: u64, min: u64, max: u64) -> (
    CoordinatorView,
    Result<QueuedComputation, ErrorCode>,
) {
    if !s.cluster_configured {
        (s, Err(ErrorCode::ClusterNotConfigured))
    } else if s.registered is None {
        (s, Err(ErrorCode::NotRegistered))
    } else if s.requests.contains_key(offset) {
        (s, Err(ErrorCode::DuplicateOffset))
    } else if min > max {
        (s, Err(ErrorCode::InvalidRange))
    } else {
        (
            CoordinatorView {
                requests: s.requests.insert(
                    offset,
                    Request { min, max, status: RequestStatus::Open },
                ),
                ..s
            },
            Ok(QueuedComputation { offset, min, max }),
        )
    }
}

/// One finalization step: consumes the callback of an open request. Success
/// emits the outcome event; an abort surfaces `AbortedComputation` and emits
/// nothing. A callback for an unknown or already finalized offset is
/// rejected and changes nothing.
pub open spec fn finalize_step(s: CoordinatorView, offset: u64, outcome: CallbackResult) -> (
    CoordinatorView,
    Result<GenerateRandomEvent, ErrorCode>,
) {
    if !(s.requests.contains_key(offset) && s.requests[offset].status is Open) {
        (s, Err(ErrorCode::InvalidCallback))
    } else {
        let r = s.requests[offset];
        match outcome {
            CallbackResult::Success(value) => (
                CoordinatorView {
                    requests: s.requests.insert(
                        offset,
                        Request { status: RequestStatus::FinalizedSuccess, ..r },
                    ),
                    ..s
                },
                Ok(GenerateRandomEvent { result: value }),
            ),
            CallbackResult::Aborted => (
                CoordinatorView {
                    requests: s.requests.insert(
                        offset,
                        Request { status: RequestStatus::FinalizedAborted, ..r },
                    ),
                    ..s
                },
                Err(ErrorCode::AbortedComputation),
            ),
        }
    }
}

/// Uniqueness of offsets: once a submission under `offset` has been
/// accepted, a further submission under the same offset is rejected with
/// `DuplicateOffset` and changes nothing, whatever bounds it carries.
pub proof fn lemma_duplicate_offset_rejected(
    s: CoordinatorView,
    offset: u64,
    min1: u64,
    max1: u64,
    min2: u64,
    max2: u64,
)
    requires
        submit_step(s, offset, min1, max1).1 is Ok,
    ensures
        ({
            let s1 = submit_step(s, offset, min1, max1).0;
            &&& submit_step(s1, offset, min2, max2).0 == s1
            &&& submit_step(s1, offset, min2, max2).1 == Err::<QueuedComputation, ErrorCode>(
                ErrorCode::DuplicateOffset,
            )
        }),
{
}

/// Single finalization: after the callback for an open request under
/// `offset` has been consumed, with success or abort, every further
/// callback for that offset is rejected, changes nothing, and so no second
/// outcome event is ever emitted.
pub proof fn lemma_single_finalize(
    s: CoordinatorView,
    offset: u64,
    out1: CallbackResult,
    out2: CallbackResult,
)
    requires
        s.requests.contains_key(offset),
        s.requests[offset].status is Open,
    ensures
        ({
            let s1 = finalize_step(s, offset, out1).0;
            &&& finalize_step(s1, offset, out2).0 == s1
            &&& finalize_step(s1, offset, out2).1 == Err::<GenerateRandomEvent, ErrorCode>(
                ErrorCode::InvalidCallback,
            )
        }),
{
}

/// Abort path: a callback carrying an abort never yields an outcome event.
/// On an open request it surfaces `AbortedComputation` and leaves the
/// request terminal in the aborted state.
pub proof fn lemma_abort_emits_no_event(s: CoordinatorView, offset: u64)
    ensures
        finalize_step(s, offset, CallbackResult::Aborted).1 is Err,
        s.requests.contains_key(offset) && s.requests[offset].status is Open ==> {
            let after = finalize_step(s, offset, CallbackResult::Aborted);
            &&& after.1 == Err::<GenerateRandomEvent, ErrorCode>(ErrorCode::AbortedComputation)
            &&& after.0.requests[offset].status is FinalizedAborted
        },
{
}

/// Requests are independent across offsets: submitting or finalizing under
/// one offset never touches another offset's record.
pub proof fn lemma_offsets_independent(
    s: CoordinatorView,
    offset: u64,
    min: u64,
    max: u64,
    outcome: CallbackResult,
    other: u64,
)
    requires
        other != offset,
    ensures
        ({
            let submitted = submit_step(s, offset, min, max).0;
            &&& submitted.requests.contains_key(other) == s.requests.contains_key(other)
            &&& submitted.requests.contains_key(other) ==> submitted.requests[other]
                == s.requests[other]
        }),
        ({
            let finalized = finalize_step(s, offset, outcome).0;
            &&& finalized.requests.contains_key(other) == s.requests.contains_key(other)
            &&& finalized.requests.contains_key(other) ==> finalized.requests[other]
                == s.requests[other]
        }),
{
}

/// The computation coordinator. Requests are tracked in a map keyed by the
/// caller-chosen offset, the deterministic address under which the caller,
/// the cluster and observers all find the same logical request.
pub struct Coordinator {
    definition: Option<ComputationDefinition>,
    cluster_configured: bool,
    requests: HashMap<u64, Request>,
}

impl View for Coordinator {
    type V = CoordinatorView;

    closed spec fn view(&self) -> CoordinatorView {
        CoordinatorView {
            registered: match self.definition {
                Some(d) => Some(d@),
                None => None,
            },
            cluster_configured: self.cluster_configured,
            requests: self.requests@,
        }
    }
}

impl Coordinator {
    /// A fresh coordinator: no circuit registered, no requests opened.
    /// `cluster_configured` says whether a reference to an execution
    /// cluster was supplied at construction.
    pub fn new(cluster_configured: bool) -> (c: Coordinator)
        ensures
            c@ == (CoordinatorView {
                registered: None,
                cluster_configured,
                requests: Map::empty(),
            }),
    {
        Coordinator { definition: None, cluster_configured, requests: HashMap::new() }
    }

    /// One-time bootstrap: derives the definition's offset from the circuit
    /// name and binds the definition to this coordinator. Re-registration is
    /// an error, never a silent swap.
    pub fn init_generate_random_comp_def(&mut self, source: CircuitSource) -> (r: Result<
        (),
        ErrorCode,
    >)
        ensures
            ({
                let def = ComputationDefinitionView {
                    offset: comp_def_offset_of(CIRCUIT_NAME@),
                    source: source@,
                };
                &&& final(self)@ == register_step(old(self)@, def).0
                &&& r == register_step(old(self)@, def).1
            }),
    {
        if self.definition.is_some() {
            Err(ErrorCode::AlreadyRegistered)
        } else {
            let offset = derive_comp_def_offset(CIRCUIT_NAME);
            self.definition = Some(ComputationDefinition { offset, source });
            Ok(())
        }
    }

    /// The offset under which the registered computation definition is
    /// addressed, once one is registered.
    pub fn comp_def_address(&self) -> (r: Option<u32>)
        ensures
            r == match self@.registered {
                Some(def) => Some(def.offset),
                None => None::<u32>,
            },
    {
        match &self.definition {
            Some(def) => Some(def.offset),
            None => None,
        }
    }

    /// Validates and opens a request under `offset` and returns the work
    /// item forwarded to the execution cluster. Returns as soon as the
    /// request is recorded; the computation and its callback happen
    /// asynchronously. Rejections leave the coordinator unchanged and
    /// nothing is forwarded.
    pub fn generate_random(&mut self, offset: u64, min: u64, max: u64) -> (r: Result<
        QueuedComputation,
        ErrorCode,
    >)
        ensures
            final(self)@ == submit_step(old(self)@, offset, min, max).0,
            r == submit_step(old(self)@, offset, min, max).1,
    {
        if !self.cluster_configured {
            return Err(ErrorCode::ClusterNotConfigured);
        }
        if self.definition.is_none() {
            return Err(ErrorCode::NotRegistered);
        }
        if self.requests.contains_key(&offset) {
            return Err(ErrorCode::DuplicateOffset);
        }
        if min > max {
            return Err(ErrorCode::InvalidRange);
        }
        self.requests.insert(offset, Request { min, max, status: RequestStatus::Open });
        Ok(QueuedComputation { offset, min, max })
    }

    /// Consumes the callback for the request under `offset`, exactly once.
    /// On success the outcome event is emitted as the return value; on abort
    /// `AbortedComputation` is surfaced and no event exists. Either way the
    /// request is terminal afterwards.
    pub fn generate_random_callback(&mut self, offset: u64, outcome: CallbackResult) -> (r: Result<
        GenerateRandomEvent,
        ErrorCode,
    >)
        ensures
            final(self)@ == finalize_step(old(self)@, offset, outcome).0,
            r == finalize_step(old(self)@, offset, outcome).1,
    {
        let record = match self.requests.get(&offset) {
            Some(rec) => *rec,
            None => {
                return Err(ErrorCode::InvalidCallback);
            },
        };
        if record.status != RequestStatus::Open {
            return Err(ErrorCode::InvalidCallback);
        }
        match outcome {
            CallbackResult::Success(value) => {
                self.requests.insert(
                    offset,
                    Request { min: record.min, max: record.max, status: RequestStatus::FinalizedSuccess },
                );
                Ok(GenerateRandomEvent { result: value })
            },
            CallbackResult::Aborted => {
                self.requests.insert(
                    offset,
                    Request { min: record.min, max: record.max, status: RequestStatus::FinalizedAborted },
                );
                Err(ErrorCode::AbortedComputation)
            },
        }
    }
}

} // verus!
