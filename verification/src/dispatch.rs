//! Per-entry dispatch: the state machine a worker drives for one delivered
//! queue entry.
//!
//! The worker decodes the job identifier from the entry, fetches the raw
//! image, runs the conversion engine over staged files, persists the result,
//! and acknowledges the entry.  All decisions stand here as verified steps;
//! the unverified shell performs one store or subprocess action between
//! steps and feeds its outcome back.  Whatever the outcomes, a dispatch that
//! runs to completion acknowledges its entry exactly once; failure of the
//! fetch, the conversion or the write is terminal for the entry, never
//! retried, and still acknowledged.

use vstd::prelude::*;

use crate::keys::{image_key, result_key, spec_key, KeyCategory};
use crate::request_id::{u32_of_le_bytes, RequestId, TryFromRequestIdError};
use crate::store::{spec_fields_of, DeliveredEntry, DeliveredEntryModel, StoreReply, StoreReplyModel};

verus! {

/// A breach of the queue's wire protocol: the delivered entry or a store
/// reply did not have the shape the producer is bound to.  This class is
/// not a runtime condition to recover from; the shell aborts loudly on it.
#[derive(Copy, Clone, Debug, PartialEq, Eq, Structural)]
pub enum ProtocolError {
    /// The entry carries no `request_id` field.
    MissingRequestId,
    /// The `request_id` field is not a byte payload.
    RequestIdNotBytes,
    /// The `request_id` bytes are not a valid wire form.
    BadRequestId(TryFromRequestIdError),
    /// The store answered the image fetch with neither bytes nor "absent".
    UnexpectedReply,
}

/// How the conversion engine ended: a readable output, or any failure on
/// the way (staging, spawning, a non-zero exit, an unreadable output).
#[derive(Clone, Debug)]
pub enum ConversionOutcome {
    Completed(Vec<u8>),
    Failed,
}

/// The mathematical shape of a conversion outcome.
pub ghost enum ConversionOutcomeModel {
    Completed(Seq<u8>),
    Failed,
}

impl View for ConversionOutcome {
    type V = ConversionOutcomeModel;

    open spec fn view(&self) -> ConversionOutcomeModel {
        match self {
            ConversionOutcome::Completed(data) => ConversionOutcomeModel::Completed(data@),
            ConversionOutcome::Failed => ConversionOutcomeModel::Failed,
        }
    }
}

/// The store's answer to writing the result: confirmed, or failed.  Either
/// way the entry is acknowledged; a failed write only costs the result.
#[derive(Copy, Clone, Debug, PartialEq, Eq, Structural)]
pub enum StoreWriteReply {
    Confirmed,
    Failed,
}

/// One action the shell must perform next on behalf of the dispatch.
#[derive(Clone, Debug)]
pub enum WorkerAction {
    /// Fetch the raw image stored under the given key.
    FetchImage(String),
    /// Stage the given payload and run the conversion engine over it.
    RunConversion(Vec<u8>),
    /// Write the given result under the given key with the given
    /// time-to-live in seconds.
    StoreResult { key: String, data: Vec<u8>, ttl_seconds: u32 },
    /// Acknowledge the entry with the given entry identifier.
    Ack(String),
}

/// The mathematical shape of a worker action.
pub ghost enum WorkerActionModel {
    FetchImage(Seq<char>),
    RunConversion(Seq<u8>),
    StoreResult { key: Seq<char>, data: Seq<u8>, ttl_seconds: u32 },
    Ack(Seq<char>),
}

impl View for WorkerAction {
    type V = WorkerActionModel;

    open spec fn view(&self) -> WorkerActionModel {
        match self {
            WorkerAction::FetchImage(key) => WorkerActionModel::FetchImage(key@),
            WorkerAction::RunConversion(data) => WorkerActionModel::RunConversion(data@),
            WorkerAction::StoreResult { key, data, ttl_seconds } => WorkerActionModel::StoreResult {
                key: key@,
                data: data@,
                ttl_seconds: *ttl_seconds,
            },
            WorkerAction::Ack(entry_id) => WorkerActionModel::Ack(entry_id@),
        }
    }
}

/// Where a dispatch stands: which outcome it waits for next, or done.
#[derive(Copy, Clone, Debug, PartialEq, Eq, Structural)]
pub enum DispatchPhase {
    AwaitImage,
    AwaitConversion,
    AwaitStore,
    Done,
}

/// The dispatch of one delivered entry.
#[derive(Clone, Debug)]
pub struct Dispatch {
    /// The server-assigned identifier of the entry being handled.
    pub entry_id: String,
    /// The job identifier decoded from the entry.
    pub request_id: RequestId,
    /// The time-to-live, in seconds, for the stored result.
    pub result_ttl: u32,
    /// Which outcome the dispatch waits for next.
    pub phase: DispatchPhase,
    /// Whether the entry's single acknowledgment has been emitted.
    pub acked: bool,
}

/// The mathematical shape of a dispatch.
pub ghost struct DispatchModel {
    pub entry_id: Seq<char>,
    pub request_id: u32,
    pub result_ttl: u32,
    pub phase: DispatchPhase,
    pub acked: bool,
}

impl DispatchModel {
    /// The acknowledgment flag tracks the phase: set exactly when done.
    pub open spec fn wf(self) -> bool {
        self.acked <==> self.phase == DispatchPhase::Done
    }
}

impl View for Dispatch {
    type V = DispatchModel;

    open spec fn view(&self) -> DispatchModel {
        DispatchModel {
            entry_id: self.entry_id@,
            request_id: self.request_id@,
            result_ttl: self.result_ttl,
            phase: self.phase,
            acked: self.acked,
        }
    }
}

/// One event fed back into a dispatch by the shell.
pub ghost enum DispatchEventModel {
    ImageReply(StoreReplyModel),
    Conversion(ConversionOutcomeModel),
    StoreWrite(StoreWriteReply),
}

/// The transition relation of a dispatch: from a state and an event to the
/// next state and the one action the shell must perform; no transition for
/// an event out of phase or a reply out of protocol.
pub open spec fn spec_step(d: DispatchModel, e: DispatchEventModel) -> Option<
    (DispatchModel, WorkerActionModel),
> {
    match e {
        DispatchEventModel::ImageReply(r) => {
            if d.phase != DispatchPhase::AwaitImage {
                None
            } else {
                match r {
                    StoreReplyModel::Nil => Some(
                        (
                            DispatchModel { phase: DispatchPhase::Done, acked: true, ..d },
                            WorkerActionModel::Ack(d.entry_id),
                        ),
                    ),
                    StoreReplyModel::Bytes(img) => Some(
                        (
                            DispatchModel { phase: DispatchPhase::AwaitConversion, ..d },
                            WorkerActionModel::RunConversion(img),
                        ),
                    ),
                    _ => None,
                }
            }
        },
        DispatchEventModel::Conversion(o) => {
            if d.phase != DispatchPhase::AwaitConversion {
                None
            } else {
                match o {
                    ConversionOutcomeModel::Failed => Some(
                        (
                            DispatchModel { phase: DispatchPhase::Done, acked: true, ..d },
                            WorkerActionModel::Ack(d.entry_id),
                        ),
                    ),
                    ConversionOutcomeModel::Completed(data) => Some(
                        (
                            DispatchModel { phase: DispatchPhase::AwaitStore, ..d },
                            WorkerActionModel::StoreResult {
                                key: spec_key(KeyCategory::Result, d.request_id),
                                data: data,
                                ttl_seconds: d.result_ttl,
                            },
                        ),
                    ),
                }
            }
        },
        DispatchEventModel::StoreWrite(_) => {
            if d.phase != DispatchPhase::AwaitStore {
                None
            } else {
                Some(
                    (
                        DispatchModel { phase: DispatchPhase::Done, acked: true, ..d },
                        WorkerActionModel::Ack(d.entry_id),
                    ),
                )
            }
        },
    }
}

/// The first value of the named field among an entry's fields.
pub open spec fn spec_field_lookup(
    fields: Seq<(Seq<char>, StoreReplyModel)>,
    name: Seq<char>,
) -> Option<StoreReplyModel>
    decreases fields.len(),
{
    if fields.len() == 0 {
        None
    } else if fields[0].0 == name {
        Some(fields[0].1)
    } else {
        spec_field_lookup(fields.drop_first(), name)
    }
}

/// The job identifier read from a delivered entry's `request_id` field, or
/// the exact protocol breach found there.
pub open spec fn spec_decode_request_id(e: DeliveredEntryModel) -> Result<u32, ProtocolError> {
    match spec_field_lookup(e.fields, "request_id"@) {
        Option::None => Err(ProtocolError::MissingRequestId),
        Option::Some(StoreReplyModel::Bytes(b)) => if b.len() == 4 {
            Ok(u32_of_le_bytes(b))
        } else {
            Err(
                ProtocolError::BadRequestId(
                    TryFromRequestIdError::LengthError(b.len() as usize),
                ),
            )
        },
        Option::Some(_) => Err(ProtocolError::RequestIdNotBytes),
    }
}

/// Read the job identifier out of a delivered entry, or name the exact
/// protocol breach.  Never panics, whatever the entry holds.
pub fn decode_request_id(entry: &DeliveredEntry) -> (r: Result<RequestId, ProtocolError>)
    ensures
        match r {
            Ok(id) => spec_decode_request_id(entry@) == Ok::<u32, ProtocolError>(id@),
            Err(e) => spec_decode_request_id(entry@) == Err::<u32, ProtocolError>(e),
        },
{
    let target = String::from_str("request_id");
    let ghost m = spec_fields_of(entry.fields@);
    proof {
        assert(m.skip(0) =~= m);
    }
    let mut i: usize = 0;
    while i < entry.fields.len()
        invariant
            i <= entry.fields.len(),
            target@ == "request_id"@,
            m == spec_fields_of(entry.fields@),
            spec_field_lookup(m, "request_id"@) == spec_field_lookup(
                m.skip(i as int),
                "request_id"@,
            ),
            forall|j: int| 0 <= j < i ==> #[trigger] m[j].0 != "request_id"@,
        decreases entry.fields.len() - i,
    {
        if entry.fields[i].0 == target {
            assert(m.skip(i as int)[0] == m[i as int]);
            let reply = &entry.fields[i].1;
            match reply {
                StoreReply::Bytes(b) => {
                    match RequestId::from_bytes(b.as_slice()) {
                        Ok(id) => {
                            return Ok(id);
                        },
                        Err(e) => {
                            return Err(ProtocolError::BadRequestId(e));
                        },
                    }
                },
                _ => {
                    return Err(ProtocolError::RequestIdNotBytes);
                },
            }
        }
        proof {
            assert(m.skip(i as int)[0] == m[i as int]);
            assert(m.skip(i as int).drop_first() =~= m.skip(i as int + 1));
        }
        i = i + 1;
    }
    proof {
        assert(m.skip(i as int) =~= Seq::<(Seq<char>, StoreReplyModel)>::empty());
    }
    Err(ProtocolError::MissingRequestId)
}

/// Whether an action is an acknowledgment.
pub open spec fn spec_is_ack(a: WorkerActionModel) -> bool {
    match a {
        WorkerActionModel::Ack(_) => true,
        _ => false,
    }
}

/// How many of the actions are acknowledgments.
pub open spec fn spec_ack_count(acts: Seq<WorkerActionModel>) -> int
    decreases acts.len(),
{
    if acts.len() == 0 {
        0
    } else {
        (if spec_is_ack(acts[0]) {
            1int
        } else {
            0int
        }) + spec_ack_count(acts.drop_first())
    }
}

/// A whole run of a dispatch: the states and actions reached by feeding a
/// sequence of events, one step each; no run if any step has no
/// transition.
pub open spec fn spec_run(d: DispatchModel, events: Seq<DispatchEventModel>) -> Option<
    (DispatchModel, Seq<WorkerActionModel>),
>
    decreases events.len(),
{
    if events.len() == 0 {
        Some((d, Seq::empty()))
    } else {
        match spec_step(d, events[0]) {
            Option::None => None,
            Option::Some((d1, a)) => match spec_run(d1, events.drop_first()) {
                Option::None => None,
                Option::Some((d2, acts)) => Some((d2, seq![a] + acts)),
            },
        }
    }
}

/// The ledger of a run: the identity of the entry never changes, the
/// acknowledgment flag never goes back, and the number of acknowledgments
/// emitted is exactly the flag's movement — in particular never more than
/// one, and every one names the dispatched entry.
pub proof fn lemma_run_accounting(
    d: DispatchModel,
    events: Seq<DispatchEventModel>,
    d2: DispatchModel,
    acts: Seq<WorkerActionModel>,
)
    requires
        d.wf(),
        spec_run(d, events) == Some((d2, acts)),
    ensures
        d2.wf(),
        d2.entry_id == d.entry_id,
        d2.request_id == d.request_id,
        d2.result_ttl == d.result_ttl,
        d.acked ==> d2.acked,
        spec_ack_count(acts) == (if d2.acked {
            1int
        } else {
            0int
        }) - (if d.acked {
            1int
        } else {
            0int
        }),
        forall|j: int|
            0 <= j < acts.len() && spec_is_ack(#[trigger] acts[j]) ==> acts[j]
                == WorkerActionModel::Ack(d.entry_id),
    decreases events.len(),
{
    if events.len() == 0 {
        assert(acts =~= Seq::<WorkerActionModel>::empty());
    } else {
        let s = spec_step(d, events[0]);
        assert(s is Some);
        let (d1, a) = s->Some_0;
        assert(d1.wf());
        let rest = spec_run(d1, events.drop_first());
        assert(rest is Some);
        let (dr, acts_rest) = rest->Some_0;
        assert(dr == d2);
        assert(acts == seq![a] + acts_rest);
        lemma_run_accounting(d1, events.drop_first(), d2, acts_rest);
        assert(acts[0] == a);
        assert(acts.drop_first() =~= acts_rest);
        assert(spec_is_ack(a) <==> d1.acked && !d.acked);
    }
}

/// A delivered entry is acknowledged exactly once: any complete run of its
/// dispatch — from the freshly opened state to the done state, through
/// whatever mix of an absent image, a failed or completed conversion, and
/// a confirmed or failed result write — emits exactly one acknowledgment,
/// and it names that entry.
pub proof fn lemma_entry_acked_exactly_once(
    d: DispatchModel,
    events: Seq<DispatchEventModel>,
    d2: DispatchModel,
    acts: Seq<WorkerActionModel>,
)
    requires
        d.phase == DispatchPhase::AwaitImage,
        !d.acked,
        spec_run(d, events) == Some((d2, acts)),
        d2.phase == DispatchPhase::Done,
    ensures
        spec_ack_count(acts) == 1,
        forall|j: int|
            0 <= j < acts.len() && spec_is_ack(#[trigger] acts[j]) ==> acts[j]
                == WorkerActionModel::Ack(d.entry_id),
{
    lemma_run_accounting(d, events, d2, acts);
}

/// The next state and the action a step produced.
pub struct DispatchStep {
    pub next: Dispatch,
    pub action: WorkerAction,
}

impl Dispatch {
    /// Open the dispatch of one delivered entry: decode the job identifier
    /// and ask the shell to fetch the raw image under the image key.  An
    /// entry out of protocol yields the exact breach and no dispatch.
    pub fn begin(entry: &DeliveredEntry, result_ttl: u32) -> (r: Result<
        DispatchStep,
        ProtocolError,
    >)
        ensures
            match r {
                Ok(st) => {
                    &&& spec_decode_request_id(entry@) == Ok::<u32, ProtocolError>(
                        st.next@.request_id,
                    )
                    &&& st.next@ == (DispatchModel {
                        entry_id: entry@.entry_id,
                        request_id: st.next@.request_id,
                        result_ttl: result_ttl,
                        phase: DispatchPhase::AwaitImage,
                        acked: false,
                    })
                    &&& st.action@ == WorkerActionModel::FetchImage(
                        spec_key(KeyCategory::Image, st.next@.request_id),
                    )
                },
                Err(e) => spec_decode_request_id(entry@) == Err::<u32, ProtocolError>(e),
            },
    {
        let request_id = match decode_request_id(entry) {
            Ok(id) => id,
            Err(e) => {
                return Err(e);
            },
        };
        let key = image_key(request_id);
        let next = Dispatch {
            entry_id: entry.entry_id.clone(),
            request_id: request_id,
            result_ttl: result_ttl,
            phase: DispatchPhase::AwaitImage,
            acked: false,
        };
        Ok(DispatchStep { next, action: WorkerAction::FetchImage(key) })
    }

    /// Consume the store's answer to the image fetch.  An absent image (its
    /// time-to-live ran out first) ends the dispatch with the bare
    /// acknowledgment; payload bytes go on to conversion; any other reply
    /// is a protocol breach and leaves the dispatch untouched.
    pub fn on_image_reply(self, reply: StoreReply) -> (r: Result<DispatchStep, ProtocolError>)
        requires
            self@.phase == DispatchPhase::AwaitImage,
            self@.wf(),
        ensures
            match r {
                Ok(st) => {
                    &&& spec_step(self@, DispatchEventModel::ImageReply(reply@)) == Some(
                        (st.next@, st.action@),
                    )
                    &&& st.next@.wf()
                },
                Err(e) => {
                    &&& spec_step(self@, DispatchEventModel::ImageReply(reply@)) is None
                    &&& e == ProtocolError::UnexpectedReply
                },
            },
    {
        match reply {
            StoreReply::Nil => {
                let entry_id = self.entry_id.clone();
                let next = Dispatch { phase: DispatchPhase::Done, acked: true, ..self };
                Ok(DispatchStep { next, action: WorkerAction::Ack(entry_id) })
            },
            StoreReply::Bytes(img) => {
                let next = Dispatch { phase: DispatchPhase::AwaitConversion, ..self };
                Ok(DispatchStep { next, action: WorkerAction::RunConversion(img) })
            },
            _ => Err(ProtocolError::UnexpectedReply),
        }
    }

    /// Consume the conversion engine's outcome.  A failure is terminal for
    /// the entry: no result is written, no retry happens, the entry is
    /// acknowledged.  A completed output goes on to the result write under
    /// the result key with the configured time-to-live.
    pub fn on_conversion(self, outcome: ConversionOutcome) -> (st: DispatchStep)
        requires
            self@.phase == DispatchPhase::AwaitConversion,
            self@.wf(),
        ensures
            spec_step(self@, DispatchEventModel::Conversion(outcome@)) == Some(
                (st.next@, st.action@),
            ),
            st.next@.wf(),
    {
        match outcome {
            ConversionOutcome::Failed => {
                let entry_id = self.entry_id.clone();
                let next = Dispatch { phase: DispatchPhase::Done, acked: true, ..self };
                DispatchStep { next, action: WorkerAction::Ack(entry_id) }
            },
            ConversionOutcome::Completed(data) => {
                let key = result_key(self.request_id);
                let ttl = self.result_ttl;
                let next = Dispatch { phase: DispatchPhase::AwaitStore, ..self };
                DispatchStep {
                    next,
                    action: WorkerAction::StoreResult { key, data, ttl_seconds: ttl },
                }
            },
        }
    }

    /// Consume the store's answer to the result write.  Confirmed or
    /// failed, the dispatch ends with the entry's acknowledgment; a failed
    /// write is logged by the shell and only costs the result.
    pub fn on_store_reply(self, reply: StoreWriteReply) -> (st: DispatchStep)
        requires
            self@.phase == DispatchPhase::AwaitStore,
            self@.wf(),
        ensures
            spec_step(self@, DispatchEventModel::StoreWrite(reply)) == Some(
                (st.next@, st.action@),
            ),
            st.next@.wf(),
    {
        let entry_id = self.entry_id.clone();
        let next = Dispatch { phase: DispatchPhase::Done, acked: true, ..self };
        DispatchStep { next, action: WorkerAction::Ack(entry_id) }
    }
}

} // verus!
