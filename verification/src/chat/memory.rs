//! How a consolidation decision about one durable user observation becomes
//! a memory candidate: the stored content is always the full accepted user
//! text, never a classifier paraphrase.

use vstd::prelude::*;

use crate::text::{chars_of, string_of};

verus! {

/// The consolidator's decision about an observation.
#[derive(Debug)]
pub enum ConsolidationAction {
    Ignore,
    Add { content: String, pinned: bool },
    Reinforce { memory_id: i64 },
    Supersede { old_memory_id: i64, content: String, pin_replacement: bool },
}

/// A memory the consolidator compared the observation with.
#[derive(Debug, Clone, Copy, PartialEq, Eq, Structural)]
pub struct MemoryCandidateRef {
    pub id: i64,
    pub revision: Option<i64>,
}

#[derive(Debug, Clone, Copy, PartialEq, Eq, Structural)]
pub enum CandidateOperation {
    Add,
    Reinforce,
    Supersede,
}

#[derive(Debug, Clone, Copy, PartialEq, Eq, Structural)]
pub enum ProvenanceRelation {
    Originated,
    Reasserted,
    Corrected,
    ChangedStance,
    Contradicted,
}

pub open spec fn relation_name_spec(r: ProvenanceRelation) -> Seq<char> {
    match r {
        ProvenanceRelation::Originated => "originated"@,
        ProvenanceRelation::Reasserted => "reasserted"@,
        ProvenanceRelation::Corrected => "corrected"@,
        ProvenanceRelation::ChangedStance => "changed_stance"@,
        ProvenanceRelation::Contradicted => "contradicted"@,
    }
}

/// The stored name of a provenance relation.
pub fn relation_name(r: ProvenanceRelation) -> (s: &'static str)
    ensures
        s@ == relation_name_spec(r),
{
    match r {
        ProvenanceRelation::Originated => "originated",
        ProvenanceRelation::Reasserted => "reasserted",
        ProvenanceRelation::Corrected => "corrected",
        ProvenanceRelation::ChangedStance => "changed_stance",
        ProvenanceRelation::Contradicted => "contradicted",
    }
}

/// What gets persisted and promoted for an observation.
#[derive(Debug)]
pub struct PromotionPlan {
    pub action: ConsolidationAction,
    pub operation: CandidateOperation,
    pub relation: ProvenanceRelation,
    /// The revision the target memory must still have.
    pub expected_revision: Option<i64>,
    pub target_memory_id: Option<i64>,
}

/// The revision of the first candidate with this id, if it has one.
pub open spec fn candidate_revision(candidates: Seq<MemoryCandidateRef>, id: i64) -> Option<i64>
    decreases candidates.len(),
{
    if candidates.len() == 0 {
        None
    } else if candidates[0].id == id {
        candidates[0].revision
    } else {
        candidate_revision(candidates.drop_first(), id)
    }
}

fn revision_of(candidates: &Vec<MemoryCandidateRef>, id: i64) -> (r: Option<i64>)
    ensures
        r == candidate_revision(candidates@, id),
{
    let mut i: usize = 0;
    assert(candidates@.skip(0) =~= candidates@);
    while i < candidates.len()
        invariant
            i <= candidates@.len(),
            candidate_revision(candidates@, id) == candidate_revision(candidates@.skip(i as int), id),
        decreases candidates.len() - i,
    {
        assert(candidates@.skip(i as int).drop_first() =~= candidates@.skip(i as int + 1));
        assert(candidates@.skip(i as int)[0] == candidates@[i as int]);
        if candidates[i].id == id {
            return candidates[i].revision;
        }
        i = i + 1;
    }
    None
}

/// Turns a consolidation decision into the candidate to persist: `None` for
/// an ignored observation; otherwise the operation, the provenance relation,
/// the target memory and its expected revision, with added or superseding
/// content replaced by the full user text.
pub fn plan_promotion(decided: ConsolidationAction, candidates: &Vec<MemoryCandidateRef>, user_text: &str) -> (r:
    Option<PromotionPlan>)
    ensures
        decided is Ignore <==> r is None,
        decided matches ConsolidationAction::Add { pinned, .. } ==> (r matches Some(p) && p.operation
            == CandidateOperation::Add && p.relation == ProvenanceRelation::Originated && p.expected_revision
            is None && p.target_memory_id is None && (p.action matches ConsolidationAction::Add {
            content,
            pinned: kept,
        } && content@ == user_text@ && kept == pinned)),
        decided matches ConsolidationAction::Reinforce { memory_id } ==> (r matches Some(p) && p.operation
            == CandidateOperation::Reinforce && p.relation == ProvenanceRelation::Reasserted
            && p.expected_revision == candidate_revision(candidates@, memory_id) && p.target_memory_id
            == Some(memory_id) && (p.action matches ConsolidationAction::Reinforce { memory_id: kept }
            && kept == memory_id)),
        decided matches ConsolidationAction::Supersede { old_memory_id, pin_replacement, .. } ==> (r matches Some(
            p,
        ) && p.operation == CandidateOperation::Supersede && p.relation == ProvenanceRelation::Corrected
            && p.expected_revision == candidate_revision(candidates@, old_memory_id) && p.target_memory_id
            == Some(old_memory_id) && (p.action matches ConsolidationAction::Supersede {
            old_memory_id: kept_id,
            content,
            pin_replacement: kept_pin,
        } && kept_id == old_memory_id && content@ == user_text@ && kept_pin == pin_replacement)),
{
    match decided {
        ConsolidationAction::Ignore => None,
        ConsolidationAction::Add { pinned, .. } => Some(
            PromotionPlan {
                action: ConsolidationAction::Add { content: string_of(chars_of(user_text).as_slice()), pinned },
                operation: CandidateOperation::Add,
                relation: ProvenanceRelation::Originated,
                expected_revision: None,
                target_memory_id: None,
            },
        ),
        ConsolidationAction::Reinforce { memory_id } => Some(
            PromotionPlan {
                action: ConsolidationAction::Reinforce { memory_id },
                operation: CandidateOperation::Reinforce,
                relation: ProvenanceRelation::Reasserted,
                expected_revision: revision_of(candidates, memory_id),
                target_memory_id: Some(memory_id),
            },
        ),
        ConsolidationAction::Supersede { old_memory_id, pin_replacement, .. } => Some(
            PromotionPlan {
                action: ConsolidationAction::Supersede {
                    old_memory_id,
                    content: string_of(chars_of(user_text).as_slice()),
                    pin_replacement,
                },
                operation: CandidateOperation::Supersede,
                relation: ProvenanceRelation::Corrected,
                expected_revision: revision_of(candidates, old_memory_id),
                target_memory_id: Some(old_memory_id),
            },
        ),
    }
}


// ---------------------------------------------------------------- rolling summary

/// Newest messages that stay out of the rolling summary.
pub const SUMMARY_RECENT_MESSAGES: usize = 20;
/// Messages folded into the summary per batch.
pub const SUMMARY_BATCH_MESSAGES: usize = 8;
/// Batches per drain pass.
pub const SUMMARY_DRAIN_BATCHES_PER_PASS: usize = 4;
pub const SUMMARY_MAX_CHARS: usize = 2000;
/// Time after which a drain pass yields, in milliseconds.
pub const SUMMARY_DRAIN_TIME_BUDGET_MILLIS: u64 = 50;

/// The message id after which summarizing resumes: the end of an existing
/// role-preserving summary, or the start for a legacy or missing one, which
/// is rebuilt from the stored messages.
pub fn summary_resume_point(existing_through: Option<i64>, role_preserving: bool) -> (r: i64)
    ensures
        r == match existing_through {
            Some(t) => if role_preserving {
                t
            } else {
                0
            },
            None => 0,
        },
{
    match existing_through {
        Some(t) => if role_preserving {
            t
        } else {
            0
        },
        None => 0,
    }
}

/// Of a page of up to one more message than a batch, how many are folded
/// now and whether more remain.
pub fn summary_batch(page_len: usize) -> (r: (usize, bool))
    ensures
        r.0 == if page_len > SUMMARY_BATCH_MESSAGES {
            SUMMARY_BATCH_MESSAGES
        } else {
            page_len
        },
        r.1 == (page_len > SUMMARY_BATCH_MESSAGES),
{
    if page_len > SUMMARY_BATCH_MESSAGES {
        (SUMMARY_BATCH_MESSAGES, true)
    } else {
        (page_len, false)
    }
}

/// Whether a drain pass may run batch number `batch`: not after
/// cancellation, and only the first batch once the time budget is spent.
/// When it may not, the pass reports that work remains.
pub fn may_run_summary_batch(batch: usize, cancelled: bool, budget_spent: bool) -> (r: bool)
    ensures
        r == (batch < SUMMARY_DRAIN_BATCHES_PER_PASS && !cancelled && !(batch > 0 && budget_spent)),
{
    batch < SUMMARY_DRAIN_BATCHES_PER_PASS && !cancelled && !(batch > 0 && budget_spent)
}

} // verus!
