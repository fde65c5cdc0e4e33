//! Worker identity and loop-level decisions: the ephemeral consumer name,
//! the parameters of the blocking read, what a read failure means for the
//! loop, and the judgment of acknowledgment and deregistration replies.

use vstd::prelude::*;

use crate::request_id::{random_u32, spec_hex, u32_hex};
use crate::store::{DeliveredEntry, StoreReply, StoreReplyModel};

verus! {

/// The consumer name a worker registers under for one process lifetime:
/// a fixed prefix and a random 32-bit value in hexadecimal.
pub open spec fn spec_consumer_name(x: u32) -> Seq<char> {
    "fs_consumer_"@ + spec_hex(x)
}

/// Draw a fresh ephemeral consumer name.
pub fn consumer_name() -> (s: String)
    ensures
        exists|x: u32| s@ == spec_consumer_name(x),
{
    let id: u32 = random_u32();
    let mut s = String::from_str("fs_consumer_");
    let hex = u32_hex(id);
    s.append(hex.as_str());
    proof {
        assert(s@ == spec_consumer_name(id));
    }
    s
}

/// The parameters of one blocking read against the submission queue: at
/// most one entry per call, blocking for a bounded timeout, on behalf of
/// the configured group and this worker's consumer identity.
pub struct ReadParameters {
    /// At most this many entries are delivered per call.
    pub count: usize,
    /// The read blocks for at most this many milliseconds.
    pub block_ms: usize,
    /// The consumer group read through.
    pub group: String,
    /// This worker's consumer identity within the group.
    pub consumer: String,
}

impl ReadParameters {
    /// The fixed read parameters of the worker's loop: one entry per read,
    /// a timeout in the order of a second, the configured group.
    pub fn new(consumer: String) -> (r: ReadParameters)
        ensures
            r.count == 1,
            r.block_ms == 1000,
            r.group@ == "fs_submission_group"@,
            r.consumer@ == consumer@,
    {
        ReadParameters {
            count: 1,
            block_ms: 1000,
            group: String::from_str(crate::store::submission_group_name()),
            consumer,
        }
    }
}

/// What one blocking read came back with: the delivered entries (none on
/// an idle timeout), or a transient read failure.
#[derive(Clone, Debug)]
pub enum ReadOutcome {
    Entries(Vec<DeliveredEntry>),
    ReadFailed,
}

/// The entries one loop iteration must dispatch.  A transient read failure
/// is logged by the shell and yields none: the loop stays alive and simply
/// reads again after the timeout; it is never fatal.
pub fn entries_to_dispatch(read: ReadOutcome) -> (v: Vec<DeliveredEntry>)
    ensures
        match read {
            ReadOutcome::Entries(es) => v == es,
            ReadOutcome::ReadFailed => v@.len() == 0,
        },
{
    match read {
        ReadOutcome::Entries(es) => es,
        ReadOutcome::ReadFailed => Vec::new(),
    }
}

/// How the store answered an acknowledgment.
#[derive(Copy, Clone, Debug, PartialEq, Eq, Structural)]
pub enum AckOutcome {
    /// The entry left the pending list: the expected count of one.
    Confirmed,
    /// Anything else: logged as an inconsistency, never fatal.
    Inconsistent,
}

/// Judge the store's answer to acknowledging one entry: exactly the
/// integer one confirms that the entry left the pending entries list.
pub fn interpret_ack_reply(reply: &StoreReply) -> (o: AckOutcome)
    ensures
        o == AckOutcome::Confirmed <==> reply@ == StoreReplyModel::Int(1),
{
    match reply {
        StoreReply::Int(n) => {
            if *n == 1 {
                AckOutcome::Confirmed
            } else {
                AckOutcome::Inconsistent
            }
        },
        _ => AckOutcome::Inconsistent,
    }
}

/// How deregistering this worker's consumer identity ended.
#[derive(Copy, Clone, Debug, PartialEq, Eq, Structural)]
pub enum DeregisterOutcome {
    /// The identity is gone; the store names how many of its entries were
    /// still pending.
    Removed(i64),
    /// Anything else: logged, never fatal — shutdown proceeds.
    Unexpected,
}

/// Judge the store's answer to deregistering the consumer identity on
/// shutdown.  Only this worker's own identity is ever deregistered; the
/// group itself is left for the rest of the fleet.
pub fn interpret_deregister_reply(reply: &StoreReply) -> (o: DeregisterOutcome)
    ensures
        match o {
            DeregisterOutcome::Removed(n) => reply@ == StoreReplyModel::Int(n),
            DeregisterOutcome::Unexpected => !(reply@ is Int),
        },
{
    match reply {
        StoreReply::Int(n) => DeregisterOutcome::Removed(*n),
        _ => DeregisterOutcome::Unexpected,
    }
}

} // verus!
