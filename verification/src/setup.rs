//! Consumer-group setup: the run-once, fleet-idempotent protocol that makes
//! sure the submission queue carries the configured consumer group before a
//! worker starts reading.
//!
//! The protocol is check-then-create: query the groups that exist on the
//! stream, skip creation when the configured group is already among them,
//! otherwise create it anchored at the current end of the stream.  Two
//! workers may race through the check; the race is resolved by treating an
//! "already exists" answer to the creation as success, never as a failure.

use vstd::prelude::*;

use crate::store::submission_group_name;

verus! {

/// The answer to querying the groups that exist on the queue's stream:
/// their names, or a failed query (a stream that does not exist yet), which
/// is treated as "no groups".
#[derive(Clone, Debug)]
pub enum GroupsQueryReply {
    Names(Vec<String>),
    QueryFailed,
}

/// The mathematical shape of a groups query answer.
pub ghost enum GroupsQueryReplyModel {
    Names(Seq<Seq<char>>),
    QueryFailed,
}

/// The names in a queried list, as mathematical strings.
pub open spec fn spec_names_of(names: Seq<String>) -> Seq<Seq<char>> {
    names.map_values(|s: String| s@)
}

impl View for GroupsQueryReply {
    type V = GroupsQueryReplyModel;

    open spec fn view(&self) -> GroupsQueryReplyModel {
        match self {
            GroupsQueryReply::Names(names) => GroupsQueryReplyModel::Names(spec_names_of(names@)),
            GroupsQueryReply::QueryFailed => GroupsQueryReplyModel::QueryFailed,
        }
    }
}

/// What to do after the groups query: create the group, or skip creation
/// because the group is already there.
#[derive(Copy, Clone, Debug, PartialEq, Eq, Structural)]
pub enum SetupPlan {
    CreateGroup,
    GroupExists,
}

/// The answer to a group-creation attempt, decoded at the boundary: the
/// store confirmed the creation; the group already existed (the harmless
/// race); an unexpected but non-failing reply; or a genuine failure.
#[derive(Copy, Clone, Debug, PartialEq, Eq, Structural)]
pub enum CreateGroupReply {
    Confirmed,
    AlreadyExists,
    Unexpected,
    Failed,
}

/// How setup ends: the worker may start reading, or must refuse to start.
#[derive(Copy, Clone, Debug, PartialEq, Eq, Structural)]
pub enum SetupOutcome {
    Ready,
    Fatal,
}

/// Whether the configured consumer group is among the queried names.
pub open spec fn spec_group_known(r: GroupsQueryReplyModel) -> bool {
    match r {
        GroupsQueryReplyModel::Names(names) => names.contains("fs_submission_group"@),
        GroupsQueryReplyModel::QueryFailed => false,
    }
}

/// Whether a whole setup pass ends fatally: only when the group was not
/// already there and the creation attempt genuinely failed.
pub open spec fn spec_setup_fatal(groups: GroupsQueryReplyModel, create: CreateGroupReply) -> bool {
    !spec_group_known(groups) && create == CreateGroupReply::Failed
}

/// Decide from the groups query whether creation is needed.  A failed query
/// is read as "the stream does not exist yet" and leads to creation.
pub fn plan_setup(reply: &GroupsQueryReply) -> (p: SetupPlan)
    ensures
        p == SetupPlan::GroupExists <==> spec_group_known(reply@),
{
    match reply {
        GroupsQueryReply::QueryFailed => SetupPlan::CreateGroup,
        GroupsQueryReply::Names(names) => {
            let target = String::from_str(submission_group_name());
            let ghost m = spec_names_of(names@);
            let mut i: usize = 0;
            while i < names.len()
                invariant
                    i <= names.len(),
                    target@ == "fs_submission_group"@,
                    m == spec_names_of(names@),
                    reply@ == GroupsQueryReplyModel::Names(m),
                    forall|j: int| 0 <= j < i ==> m[j] != "fs_submission_group"@,
                decreases names.len() - i,
            {
                if names[i] == target {
                    assert(m[i as int] == "fs_submission_group"@);
                    assert(m.contains("fs_submission_group"@));
                    return SetupPlan::GroupExists;
                }
                i = i + 1;
            }
            assert(!m.contains("fs_submission_group"@));
            SetupPlan::CreateGroup
        },
    }
}

/// Judge a creation attempt.  "Already exists" is the harmless startup race
/// and an unexpected reply is logged and tolerated; only a genuine failure
/// keeps the worker from starting.
pub fn interpret_create_reply(reply: &CreateGroupReply) -> (o: SetupOutcome)
    ensures
        o == SetupOutcome::Fatal <==> *reply == CreateGroupReply::Failed,
{
    match reply {
        CreateGroupReply::Failed => SetupOutcome::Fatal,
        _ => SetupOutcome::Ready,
    }
}

/// One whole setup pass: the groups query decides whether to create, and
/// only a creation attempt that genuinely failed is fatal.  The creation
/// reply is consulted only when creation was attempted.
pub fn setup_outcome(groups: &GroupsQueryReply, create: &CreateGroupReply) -> (o: SetupOutcome)
    ensures
        o == SetupOutcome::Fatal <==> spec_setup_fatal(groups@, *create),
{
    match plan_setup(groups) {
        SetupPlan::GroupExists => SetupOutcome::Ready,
        SetupPlan::CreateGroup => interpret_create_reply(create),
    }
}

/// Setup is idempotent across the fleet: once any worker's setup has put
/// the group in place, a later setup pass against the same queue is never
/// fatal, whatever its creation attempt (if any) is answered; and even a
/// pass that raced a concurrent creation and was answered "already exists"
/// ends ready.
pub proof fn lemma_setup_idempotent(groups: GroupsQueryReplyModel, create: CreateGroupReply)
    requires
        spec_group_known(groups) || create != CreateGroupReply::Failed,
    ensures
        !spec_setup_fatal(groups, create),
{
}

} // verus!
