//! The boundary to the shared store: the tagged shape of every store reply
//! the worker inspects, and the wire shape of a delivered queue entry.
//!
//! Replies from the store client arrive as loosely typed dynamic values; the
//! unverified shell converts each into [`StoreReply`] at the boundary, and
//! every decision on it is made here, in verified code.

use vstd::prelude::*;

verus! {

/// The name of the submission queue's stream, identical across the producer
/// and every worker.
pub fn submission_queue_name() -> (s: &'static str)
    ensures
        s@ == "fs_submission"@,
{
    "fs_submission"
}

/// The name of the durable consumer group over the submission queue.
pub fn submission_group_name() -> (s: &'static str)
    ensures
        s@ == "fs_submission_group"@,
{
    "fs_submission_group"
}

/// A store reply, decoded at the boundary into the exact tagged shape the
/// worker distinguishes: payload bytes, an absent key, an integer, a plain
/// acknowledgment, or anything else.
#[derive(Clone, Debug, PartialEq)]
pub enum StoreReply {
    Bytes(Vec<u8>),
    Nil,
    Int(i64),
    Okay,
    Other,
}

/// The mathematical shape of a store reply.
pub ghost enum StoreReplyModel {
    Bytes(Seq<u8>),
    Nil,
    Int(i64),
    Okay,
    Other,
}

impl View for StoreReply {
    type V = StoreReplyModel;

    open spec fn view(&self) -> StoreReplyModel {
        match self {
            StoreReply::Bytes(v) => StoreReplyModel::Bytes(v@),
            StoreReply::Nil => StoreReplyModel::Nil,
            StoreReply::Int(n) => StoreReplyModel::Int(*n),
            StoreReply::Okay => StoreReplyModel::Okay,
            StoreReply::Other => StoreReplyModel::Other,
        }
    }
}

/// One entry delivered from the submission queue: the server-assigned entry
/// identifier and the entry's fields, each a name with a store value.
#[derive(Clone, Debug)]
pub struct DeliveredEntry {
    pub entry_id: String,
    pub fields: Vec<(String, StoreReply)>,
}

/// The mathematical shape of a delivered entry.
pub ghost struct DeliveredEntryModel {
    pub entry_id: Seq<char>,
    pub fields: Seq<(Seq<char>, StoreReplyModel)>,
}

/// An entry's fields, as mathematical pairs of name and reply shape.
pub open spec fn spec_fields_of(fields: Seq<(String, StoreReply)>) -> Seq<
    (Seq<char>, StoreReplyModel),
> {
    fields.map_values(|f: (String, StoreReply)| (f.0@, f.1@))
}

impl View for DeliveredEntry {
    type V = DeliveredEntryModel;

    open spec fn view(&self) -> DeliveredEntryModel {
        DeliveredEntryModel { entry_id: self.entry_id@, fields: spec_fields_of(self.fields@) }
    }
}

} // verus!
