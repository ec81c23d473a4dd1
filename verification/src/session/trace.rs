//! What holds of every run of a login attempt, whatever the replies are.
//!
//! A run is the sequence of replies that the caller gives; the stage at
//! position `i` is the operation asked for after the first `i` replies.

use vstd::prelude::*;
use crate::error::TUILogError;
use crate::session::authenticate::{auth_failure, auth_succeeded, AuthStep};
use crate::session::environment::DropStep;
use crate::session::exchange::Reply;
use crate::session::shell::LaunchStep;
use crate::session::start::{next_stage, Stage};

verus! {

/// The stage reached from `stage` after all of `replies`.
pub open spec fn stage_after(stage: Stage, replies: Seq<Reply>) -> Stage
    decreases replies.len(),
{
    if replies.len() == 0 {
        stage
    } else {
        next_stage(stage_after(stage, replies.drop_last()), replies.last())
    }
}

/// The stage of a fresh attempt after the first `position` of `replies`.
pub open spec fn stage_at(replies: Seq<Reply>, position: int) -> Stage {
    stage_after(Stage::SaveDefaults, replies.take(position))
}

/// The stages of the process that was forked off.
pub open spec fn in_child(stage: Stage) -> bool {
    stage matches Stage::Launch(step) && (step is DropPrivileges || step is ApplyEnvironment
        || step is ReplaceImage || step is ExitChild)
}

/// The stages whose operation changes the owner of the terminal or the
/// groups, group id or user id of the process.
pub open spec fn needs_privilege(stage: Stage) -> bool {
    stage matches Stage::Launch(LaunchStep::DropPrivileges(step)) && (step is ChownTerminal
        || step is InitGroups || step is SetGid || step is SetUid)
}

/// The stage at which the authentication transaction is closed.
pub open spec fn closes_transaction(stage: Stage) -> bool {
    stage matches Stage::Launch(LaunchStep::CloseTransaction { .. })
}

/// The stages after which nothing changes any more.
pub open spec fn is_final(stage: Stage) -> bool {
    stage is Finished || stage matches Stage::Launch(LaunchStep::ExitChild { .. })
}

/// The place of a stage in the one order in which stages follow each other.
pub open spec fn rank(stage: Stage) -> nat {
    match stage {
        Stage::SaveDefaults => 0,
        Stage::Authenticate(AuthStep::OpenTransaction) => 1,
        Stage::Authenticate(AuthStep::VerifyCredentials) => 2,
        Stage::Authenticate(AuthStep::ResolveAccount) => 3,
        Stage::Authenticate(AuthStep::OpenAccounting) => 4,
        Stage::ReleaseScreen => 5,
        Stage::Launch(LaunchStep::Fork) => 6,
        Stage::Launch(LaunchStep::WaitChild { .. }) => 7,
        Stage::Launch(LaunchStep::CloseTransaction { .. }) => 8,
        Stage::Finished { .. } => 9,
        Stage::Launch(LaunchStep::DropPrivileges(step)) => match step {
            DropStep::BecomeSessionLeader => 10,
            DropStep::IdentifyTerminal => 11,
            DropStep::ChownTerminal => 12,
            DropStep::OpenTerminal => 13,
            DropStep::ClaimTerminal { .. } => 14,
            DropStep::RedirectInput { .. } => 15,
            DropStep::RedirectOutput { .. } => 16,
            DropStep::RedirectError { .. } => 17,
            DropStep::CloseDescriptor { .. } => 18,
            DropStep::InitGroups => 19,
            DropStep::SetGid => 20,
            DropStep::SetUid => 21,
        },
        Stage::Launch(LaunchStep::ApplyEnvironment) => 22,
        Stage::Launch(LaunchStep::ReplaceImage) => 23,
        Stage::Launch(LaunchStep::ExitChild { .. }) => 24,
    }
}

/// One reply moves an attempt forward in the order of stages, or leaves it
/// where it is once it has ended.
pub proof fn lemma_reply_moves_forward(stage: Stage, reply: Reply)
    ensures
        is_final(stage) ==> next_stage(stage, reply) == stage,
        !is_final(stage) ==> rank(next_stage(stage, reply)) > rank(stage),
        in_child(stage) ==> in_child(next_stage(stage, reply)),
{
}

/// The stage at a position follows from the stage and the reply before it.
pub proof fn lemma_stage_unfolds(replies: Seq<Reply>, position: int)
    requires
        0 <= position < replies.len(),
    ensures
        stage_at(replies, position + 1) == next_stage(
            stage_at(replies, position),
            replies[position],
        ),
        stage_at(replies, 0) == Stage::SaveDefaults,
{
    let longer = replies.take(position + 1);
    assert(longer.drop_last() =~= replies.take(position));
    assert(longer.last() == replies[position]);
    assert(replies.take(0).len() == 0);
}

/// Stages never go back: a later position holds the same final stage or a
/// stage further on in the order.
pub proof fn lemma_stages_in_order(replies: Seq<Reply>, earlier: int, later: int)
    requires
        0 <= earlier <= later <= replies.len(),
    ensures
        rank(stage_at(replies, earlier)) <= rank(stage_at(replies, later)),
        is_final(stage_at(replies, earlier)) ==> stage_at(replies, later) == stage_at(
            replies,
            earlier,
        ),
        earlier < later && !is_final(stage_at(replies, earlier)) ==> rank(
            stage_at(replies, earlier),
        ) < rank(stage_at(replies, later)),
        in_child(stage_at(replies, earlier)) ==> in_child(stage_at(replies, later)),
    decreases later - earlier,
{
    if earlier < later {
        lemma_stages_in_order(replies, earlier, later - 1);
        lemma_stage_unfolds(replies, later - 1);
        lemma_reply_moves_forward(stage_at(replies, later - 1), replies[later - 1]);
    }
}

/// Credentials that are not accepted end the attempt: once a step of the
/// authentication has failed, the attempt is finished with the failure kind of
/// that step and stays so. With the verification step this is `Unauthorized`.
pub proof fn lemma_failed_authentication_ends_attempt(
    replies: Seq<Reply>,
    position: int,
    later: int,
    step: AuthStep,
)
    requires
        0 <= position < later <= replies.len(),
        stage_at(replies, position) == Stage::Authenticate(step),
        !auth_succeeded(step, replies[position]),
    ensures
        stage_at(replies, later) == (Stage::Finished { failure: Some(auth_failure(step)) }),
        !(stage_at(replies, later) is Launch),
{
    lemma_stage_unfolds(replies, position);
    lemma_stages_in_order(replies, position + 1, later);
}

/// No fork and no step of the privilege transition without an authentication
/// that succeeded in full: wherever a run stands at a stage of the launch, the
/// transaction was opened, the credentials were accepted, the account was found
/// and the accounting was opened, each at its place in the run.
pub proof fn lemma_launch_needs_authentication(replies: Seq<Reply>, position: int)
    requires
        0 <= position <= replies.len(),
        stage_at(replies, position) is Launch,
    ensures
        position >= 6,
        replies[1] is Done,
        replies[2] is Done,
        replies[3] is Account,
        replies[4] is Done,
{
    assert(replies.take(0).len() == 0);
    if position >= 1 {
        lemma_stage_unfolds(replies, 0);
    }
    if position >= 2 {
        lemma_stage_unfolds(replies, 1);
        lemma_stages_in_order(replies, 2, position);
    }
    if position >= 3 {
        lemma_stage_unfolds(replies, 2);
        lemma_stages_in_order(replies, 3, position);
    }
    if position >= 4 {
        lemma_stage_unfolds(replies, 3);
        lemma_stages_in_order(replies, 4, position);
    }
    if position >= 5 {
        lemma_stage_unfolds(replies, 4);
        lemma_stages_in_order(replies, 5, position);
    }
}

/// The transaction is closed at most once in a run.
pub proof fn lemma_transaction_closed_once(replies: Seq<Reply>, first: int, second: int)
    requires
        0 <= first <= replies.len(),
        0 <= second <= replies.len(),
        closes_transaction(stage_at(replies, first)),
        closes_transaction(stage_at(replies, second)),
    ensures
        first == second,
{
    if first < second {
        lemma_stages_in_order(replies, first, second);
    }
    if second < first {
        lemma_stages_in_order(replies, second, first);
    }
}

/// The transaction is closed only after the wait for the child has returned,
/// or straight after a fork that made no child.
pub proof fn lemma_close_follows_wait(replies: Seq<Reply>, position: int)
    requires
        0 <= position <= replies.len(),
        closes_transaction(stage_at(replies, position)),
    ensures
        position >= 1,
        stage_at(replies, position - 1) matches Stage::Launch(step) && (step is WaitChild || (step
            is Fork && !(replies[position - 1] is Parent) && !(replies[position - 1] is Child))),
{
    assert(replies.take(0).len() == 0);
    lemma_stage_unfolds(replies, position - 1);
}

/// The process that was forked off never closes the transaction, and it never
/// returns to a stage of the launcher.
pub proof fn lemma_child_never_closes(replies: Seq<Reply>, earlier: int, later: int)
    requires
        0 <= earlier <= later <= replies.len(),
        in_child(stage_at(replies, earlier)),
    ensures
        in_child(stage_at(replies, later)),
        !closes_transaction(stage_at(replies, later)),
        !(stage_at(replies, later) is Finished),
{
    lemma_stages_in_order(replies, earlier, later);
}

/// After an authentication that succeeded, the launcher reports the end of the
/// attempt only once it has closed the transaction: the stage before the
/// report is the closing.
pub proof fn lemma_report_follows_close(replies: Seq<Reply>, position: int)
    requires
        6 <= position <= replies.len(),
        stage_at(replies, 6) is Launch,
        stage_at(replies, position) is Finished,
    ensures
        exists|closing: int|
            6 <= closing < position && closes_transaction(#[trigger] stage_at(replies, closing)),
    decreases position,
{
    lemma_stage_unfolds(replies, position - 1);
    if stage_at(replies, position - 1) is Finished {
        lemma_report_follows_close(replies, position - 1);
    } else {
        lemma_stages_in_order(replies, 6, position - 1);
        assert(closes_transaction(stage_at(replies, position - 1)));
    }
}

/// The privilege transition is one-way: once the user id was set, no stage of
/// the run changes the terminal's owner, the groups, the group id or the user
/// id again.
pub proof fn lemma_no_privileged_step_after_uid_drop(replies: Seq<Reply>, dropped: int, later: int)
    requires
        0 <= dropped < later <= replies.len(),
        stage_at(replies, dropped) == Stage::Launch(LaunchStep::DropPrivileges(DropStep::SetUid)),
    ensures
        !needs_privilege(stage_at(replies, later)),
{
    lemma_stages_in_order(replies, dropped, later);
}

/// The steps of the privilege transition come in their one order: each later
/// stage of the transition stands further on than every earlier one.
pub proof fn lemma_transition_steps_in_order(replies: Seq<Reply>, earlier: int, later: int)
    requires
        0 <= earlier < later <= replies.len(),
        stage_at(replies, earlier) matches Stage::Launch(LaunchStep::DropPrivileges(_)),
    ensures
        rank(stage_at(replies, earlier)) < rank(stage_at(replies, later)),
{
    lemma_stages_in_order(replies, earlier, later);
}

} // verus!
