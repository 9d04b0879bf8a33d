//! The stage-gating protocol: a closed enumeration of stages, the onboarding
//! steps, and the decision rule that says whether a step may apply to a
//! record at a given stage.
//!
//! The transition table:
//!
//! | step             | precondition stage | stage after success | note            |
//! |------------------|--------------------|---------------------|-----------------|
//! | personal data    | 1                  | 2 (owner = self) or 1 (otherwise) | conditional |
//! | bank data        | 2                  | 3                   | write-once      |
//! | employment data  | 3                  | 4                   | re-appliable    |
//! | supporting data  | 4                  | 5                   | re-appliable, sets the finished flag |
//! | beneficiary data | 1                  | 2                   | only if the applicant is not the beneficial owner |

use vstd::prelude::*;

verus! {

/// The persisted position of a record in the onboarding workflow, named by
/// the next write-once step it is waiting for.  Stages are numbered 1 to 5.
#[derive(Clone, Copy, Debug, PartialEq, Eq, Structural)]
pub enum Stage {
    /// Stage 1: freshly registered, personal data (and, when the applicant is
    /// not the beneficial owner, beneficiary data) still pending.
    PersonalPending,
    /// Stage 2: bank data pending.
    BankPending,
    /// Stage 3: employment data pending.
    EmploymentPending,
    /// Stage 4: supporting/questionnaire data pending.
    SupportingPending,
    /// Stage 5: every step applied; the record is finished.
    Finished,
}

/// One onboarding step, applied by the processor of the same name.
#[derive(Clone, Copy, Debug, PartialEq, Eq, Structural)]
pub enum Step {
    PersonalData,
    BankData,
    EmploymentData,
    SupportingData,
    BeneficiaryData,
}

/// What the stage-gating rule decides for one attempted step.
#[derive(Clone, Copy, Debug, PartialEq, Eq, Structural)]
pub enum GateDecision {
    /// The step applies; on success the record's stage becomes the maximum of
    /// its current stage and `next`.
    Allow { next: Stage },
    /// The record has not yet passed the step's prerequisite stage.
    TooEarly,
    /// A write-once step was already applied to this record.
    AlreadyPassed,
    /// The beneficiary-owner answer does not permit this step.
    InvalidBeneficiary,
}

/// The beneficiary-owner answer that declares the applicant the beneficial
/// owner ("self").
pub const OWNER_SELF: i32 = 1;

/// The beneficiary-owner answer that names someone else as the beneficial
/// owner.
pub const OWNER_OTHER: i32 = 2;

/// The stage as the number 1 to 5 under which it is persisted.
pub open spec fn stage_num(s: Stage) -> int {
    match s {
        Stage::PersonalPending => 1,
        Stage::BankPending => 2,
        Stage::EmploymentPending => 3,
        Stage::SupportingPending => 4,
        Stage::Finished => 5,
    }
}

/// The stage a record must have reached before the step may apply.
pub open spec fn step_pre(step: Step) -> int {
    match step {
        Step::PersonalData => 1,
        Step::BankData => 2,
        Step::EmploymentData => 3,
        Step::SupportingData => 4,
        Step::BeneficiaryData => 1,
    }
}

/// Whether a step is write-once: a record past such a step's precondition
/// stage rejects the step instead of silently re-applying it.
pub open spec fn is_write_once(step: Step) -> bool {
    match step {
        Step::PersonalData => true,
        Step::BankData => true,
        Step::EmploymentData => false,
        Step::SupportingData => false,
        Step::BeneficiaryData => true,
    }
}

/// The decision for a record at `stage` attempting `step`.
///
/// `owner` is the beneficiary-owner answer the decision depends on: for the
/// personal-data step, the answer in the validated request; for the
/// beneficiary-data step, the answer stored on the record by the
/// personal-data step.  The other steps ignore it.
pub open spec fn gate_spec(stage: Stage, step: Step, owner: i32) -> GateDecision {
    if stage_num(stage) < step_pre(step) {
        GateDecision::TooEarly
    } else if stage_num(stage) > step_pre(step) && is_write_once(step) {
        GateDecision::AlreadyPassed
    } else {
        match step {
            Step::PersonalData => {
                if owner == OWNER_SELF {
                    GateDecision::Allow { next: Stage::BankPending }
                } else if owner == OWNER_OTHER {
                    GateDecision::Allow { next: Stage::PersonalPending }
                } else {
                    GateDecision::InvalidBeneficiary
                }
            },
            Step::BankData => GateDecision::Allow { next: Stage::EmploymentPending },
            Step::EmploymentData => GateDecision::Allow { next: Stage::SupportingPending },
            Step::SupportingData => GateDecision::Allow { next: Stage::Finished },
            Step::BeneficiaryData => {
                if owner == OWNER_SELF {
                    GateDecision::InvalidBeneficiary
                } else {
                    GateDecision::Allow { next: Stage::BankPending }
                }
            },
        }
    }
}

/// The larger of two stages.
pub open spec fn stage_max(a: Stage, b: Stage) -> Stage {
    if stage_num(a) >= stage_num(b) {
        a
    } else {
        b
    }
}

/// The stage a record holds after one attempt of `step`: advanced to the
/// decision's target when the step is allowed, never moved backwards,
/// unchanged when the step is rejected.
pub open spec fn stage_after_attempt(stage: Stage, step: Step, owner: i32) -> Stage {
    match gate_spec(stage, step, owner) {
        GateDecision::Allow { next } => stage_max(stage, next),
        _ => stage,
    }
}

/// The stage a record holds after a sequence of step attempts, each given as
/// the step and the beneficiary-owner answer it saw.
pub open spec fn stage_after_attempts(stage: Stage, ops: Seq<(Step, i32)>) -> Stage
    decreases ops.len(),
{
    if ops.len() == 0 {
        stage
    } else {
        stage_after_attempts(stage_after_attempt(stage, ops[0].0, ops[0].1), ops.drop_first())
    }
}

/// The stage-gating decision procedure.
pub struct StageGate;

impl StageGate {
    /// Decide whether `step` may apply to a record at `stage`, given the
    /// beneficiary-owner answer `owner` (see [`gate_spec`]).
    pub fn check(stage: Stage, step: Step, owner: i32) -> (d: GateDecision)
        ensures
            d == gate_spec(stage, step, owner),
    {
        let pre_gap: i32 = Self::stage_number(stage) - Self::step_precondition(step);
        if pre_gap < 0 {
            GateDecision::TooEarly
        } else if pre_gap > 0 && Self::write_once(step) {
            GateDecision::AlreadyPassed
        } else {
            match step {
                Step::PersonalData => {
                    if owner == OWNER_SELF {
                        GateDecision::Allow { next: Stage::BankPending }
                    } else if owner == OWNER_OTHER {
                        GateDecision::Allow { next: Stage::PersonalPending }
                    } else {
                        GateDecision::InvalidBeneficiary
                    }
                },
                Step::BankData => GateDecision::Allow { next: Stage::EmploymentPending },
                Step::EmploymentData => GateDecision::Allow { next: Stage::SupportingPending },
                Step::SupportingData => GateDecision::Allow { next: Stage::Finished },
                Step::BeneficiaryData => {
                    if owner == OWNER_SELF {
                        GateDecision::InvalidBeneficiary
                    } else {
                        GateDecision::Allow { next: Stage::BankPending }
                    }
                },
            }
        }
    }

    /// The number 1 to 5 under which the stage is persisted.
    pub fn stage_number(stage: Stage) -> (n: i32)
        ensures
            n == stage_num(stage),
    {
        match stage {
            Stage::PersonalPending => 1,
            Stage::BankPending => 2,
            Stage::EmploymentPending => 3,
            Stage::SupportingPending => 4,
            Stage::Finished => 5,
        }
    }

    /// The stage persisted under the number `n`, for `n` in 1 to 5.
    pub fn stage_from_number(n: i32) -> (s: Option<Stage>)
        ensures
            s matches Some(stage) ==> stage_num(stage) == n,
            s is None <==> !(1 <= n <= 5),
    {
        match n {
            1 => Some(Stage::PersonalPending),
            2 => Some(Stage::BankPending),
            3 => Some(Stage::EmploymentPending),
            4 => Some(Stage::SupportingPending),
            5 => Some(Stage::Finished),
            _ => None,
        }
    }

    /// The step's precondition stage, as a number.
    pub fn step_precondition(step: Step) -> (n: i32)
        ensures
            n == step_pre(step),
    {
        match step {
            Step::PersonalData => 1,
            Step::BankData => 2,
            Step::EmploymentData => 3,
            Step::SupportingData => 4,
            Step::BeneficiaryData => 1,
        }
    }

    /// Whether the step is write-once (see [`is_write_once`]).
    pub fn write_once(step: Step) -> (b: bool)
        ensures
            b == is_write_once(step),
    {
        match step {
            Step::PersonalData => true,
            Step::BankData => true,
            Step::EmploymentData => false,
            Step::SupportingData => false,
            Step::BeneficiaryData => true,
        }
    }

    /// The larger of two stages.
    pub fn later_stage(a: Stage, b: Stage) -> (s: Stage)
        ensures
            s == stage_max(a, b),
    {
        if Self::stage_number(a) >= Self::stage_number(b) {
            a
        } else {
            b
        }
    }
}

/// One attempted step never lowers a record's stage.
pub proof fn lemma_stage_monotonic_step(stage: Stage, step: Step, owner: i32)
    ensures
        stage_num(stage_after_attempt(stage, step, owner)) >= stage_num(stage),
{
}

/// Stage monotonicity: over any sequence of step attempts, in whatever order
/// and with whatever beneficiary-owner answers, the stage observed afterwards
/// is at least the stage observed before.
pub proof fn lemma_stage_monotonic(stage: Stage, ops: Seq<(Step, i32)>)
    ensures
        stage_num(stage_after_attempts(stage, ops)) >= stage_num(stage),
    decreases ops.len(),
{
    if ops.len() > 0 {
        lemma_stage_monotonic_step(stage, ops[0].0, ops[0].1);
        lemma_stage_monotonic(stage_after_attempt(stage, ops[0].0, ops[0].1), ops.drop_first());
    }
}

/// Idempotent rejection: when a write-once step applies successfully and
/// advances the record past the step's precondition stage, the same step
/// attempted again -- with any beneficiary-owner answer -- is rejected as
/// already passed.
///
/// The personal-data step with the "owner = other" answer leaves the stage at
/// the precondition (the beneficiary step is still owed), so it is the one
/// write-once application this statement leaves out.
pub proof fn lemma_idempotent_rejection(stage: Stage, step: Step, owner1: i32, owner2: i32)
    requires
        is_write_once(step),
        (gate_spec(stage, step, owner1) matches GateDecision::Allow { next } &&
            stage_num(next) > step_pre(step)),
    ensures
        gate_spec(stage_after_attempt(stage, step, owner1), step, owner2)
            == GateDecision::AlreadyPassed,
{
}

/// Branch exclusivity: a record that took the "beneficiary = self" branch at
/// the personal-data step never afterwards passes the check for the
/// beneficiary-data step: whatever answer is stored on the record, the
/// step is rejected as already passed.
pub proof fn lemma_branch_exclusivity(stage: Stage, owner2: i32)
    requires
        gate_spec(stage, Step::PersonalData, OWNER_SELF) is Allow,
    ensures
        gate_spec(
            stage_after_attempt(stage, Step::PersonalData, OWNER_SELF),
            Step::BeneficiaryData,
            owner2,
        ) == GateDecision::AlreadyPassed,
{
}

} // verus!
