//! The stage-gating rule against the transition table.

use onboarding::stage::{GateDecision, Stage, StageGate, Step, OWNER_OTHER, OWNER_SELF};

#[test]
fn stage_numbers_run_one_to_five() {
    assert_eq!(StageGate::stage_number(Stage::PersonalPending), 1);
    assert_eq!(StageGate::stage_number(Stage::BankPending), 2);
    assert_eq!(StageGate::stage_number(Stage::EmploymentPending), 3);
    assert_eq!(StageGate::stage_number(Stage::SupportingPending), 4);
    assert_eq!(StageGate::stage_number(Stage::Finished), 5);
}

#[test]
fn stage_from_number_round_trips() {
    for n in 1..=5 {
        let stage = StageGate::stage_from_number(n).unwrap();
        assert_eq!(StageGate::stage_number(stage), n);
    }
    assert!(StageGate::stage_from_number(0).is_none());
    assert!(StageGate::stage_from_number(6).is_none());
    assert!(StageGate::stage_from_number(-1).is_none());
}

#[test]
fn personal_data_branches_on_the_beneficiary_answer() {
    assert_eq!(
        StageGate::check(Stage::PersonalPending, Step::PersonalData, OWNER_SELF),
        GateDecision::Allow { next: Stage::BankPending }
    );
    assert_eq!(
        StageGate::check(Stage::PersonalPending, Step::PersonalData, OWNER_OTHER),
        GateDecision::Allow { next: Stage::PersonalPending }
    );
    assert_eq!(
        StageGate::check(Stage::PersonalPending, Step::PersonalData, 0),
        GateDecision::InvalidBeneficiary
    );
    assert_eq!(
        StageGate::check(Stage::PersonalPending, Step::PersonalData, 7),
        GateDecision::InvalidBeneficiary
    );
}

#[test]
fn personal_data_is_write_once() {
    assert_eq!(
        StageGate::check(Stage::BankPending, Step::PersonalData, OWNER_SELF),
        GateDecision::AlreadyPassed
    );
    assert_eq!(
        StageGate::check(Stage::Finished, Step::PersonalData, OWNER_SELF),
        GateDecision::AlreadyPassed
    );
}

#[test]
fn bank_data_needs_stage_two_exactly() {
    assert_eq!(
        StageGate::check(Stage::PersonalPending, Step::BankData, 0),
        GateDecision::TooEarly
    );
    assert_eq!(
        StageGate::check(Stage::BankPending, Step::BankData, 0),
        GateDecision::Allow { next: Stage::EmploymentPending }
    );
    assert_eq!(
        StageGate::check(Stage::EmploymentPending, Step::BankData, 0),
        GateDecision::AlreadyPassed
    );
}

#[test]
fn employment_and_supporting_can_be_reapplied() {
    assert_eq!(
        StageGate::check(Stage::BankPending, Step::EmploymentData, 0),
        GateDecision::TooEarly
    );
    assert_eq!(
        StageGate::check(Stage::EmploymentPending, Step::EmploymentData, 0),
        GateDecision::Allow { next: Stage::SupportingPending }
    );
    assert_eq!(
        StageGate::check(Stage::Finished, Step::EmploymentData, 0),
        GateDecision::Allow { next: Stage::SupportingPending }
    );
    assert_eq!(
        StageGate::check(Stage::SupportingPending, Step::SupportingData, 0),
        GateDecision::Allow { next: Stage::Finished }
    );
    assert_eq!(
        StageGate::check(Stage::Finished, Step::SupportingData, 0),
        GateDecision::Allow { next: Stage::Finished }
    );
}

#[test]
fn beneficiary_data_is_exclusive_with_the_self_branch() {
    // Stored answer "self": the step is never valid.
    assert_eq!(
        StageGate::check(Stage::PersonalPending, Step::BeneficiaryData, OWNER_SELF),
        GateDecision::InvalidBeneficiary
    );
    // Stored answer "other" at the first stage: allowed.
    assert_eq!(
        StageGate::check(Stage::PersonalPending, Step::BeneficiaryData, OWNER_OTHER),
        GateDecision::Allow { next: Stage::BankPending }
    );
    // Past the first stage the step is already passed, whatever the answer.
    assert_eq!(
        StageGate::check(Stage::BankPending, Step::BeneficiaryData, OWNER_OTHER),
        GateDecision::AlreadyPassed
    );
    assert_eq!(
        StageGate::check(Stage::BankPending, Step::BeneficiaryData, OWNER_SELF),
        GateDecision::AlreadyPassed
    );
}

#[test]
fn write_once_marks_match_the_table() {
    assert!(StageGate::write_once(Step::PersonalData));
    assert!(StageGate::write_once(Step::BankData));
    assert!(!StageGate::write_once(Step::EmploymentData));
    assert!(!StageGate::write_once(Step::SupportingData));
    assert!(StageGate::write_once(Step::BeneficiaryData));
}
