//! Domain vocabulary: wire names, parsers, defaults and responses.

use jobflow::config::Environment;
use jobflow::domain::auth::{SupabaseErrorResponse, UserType};
use jobflow::domain::bids::BidStatus;
use jobflow::domain::extraction::MilestoneStatus;
use jobflow::domain::hiring::{ContractStatus, HireRequestStatus, RateType, TeamMemberStatus};
use jobflow::domain::marketplace::{AvailabilityStatus, TenderVisibility, VerificationStatus};
use jobflow::domain::notifications::NotificationType;
use jobflow::domain::tasks::{TaskPriority, TaskStatus};
use jobflow::domain::tenders::{trade_category_to_string, TenderStatus, TradeCategory};
use jobflow::jobs::{JobStatus, StepStatus};
use jobflow::response::MessageResponse;

#[test]
fn environment_parses_names_case_insensitively() {
    assert_eq!(Environment::from_str("prod"), Environment::Prod);
    assert_eq!(Environment::from_str("PROD"), Environment::Prod);
    assert_eq!(Environment::from_str("Production"), Environment::Prod);
    assert_eq!(Environment::from_str("staging"), Environment::Staging);
    assert_eq!(Environment::from_str("STAGING"), Environment::Staging);
    assert_eq!(Environment::from_str("dev"), Environment::Dev);
    assert_eq!(Environment::from_str(""), Environment::Dev);
    assert_eq!(Environment::from_str("anything else"), Environment::Dev);
    assert!(Environment::from_str("dev").is_dev());
    assert!(!Environment::from_str("dev").is_prod());
    assert!(Environment::from_str("prod").is_prod());
}

#[test]
fn job_and_step_statuses_have_snake_case_names() {
    assert_eq!(JobStatus::Queued.as_str(), "queued");
    assert_eq!(JobStatus::Cancelled.as_str(), "cancelled");
    assert_eq!(StepStatus::Pending.as_str(), "pending");
    assert_eq!(StepStatus::Skipped.as_str(), "skipped");
}

#[test]
fn lifecycle_enums_have_snake_case_names() {
    assert_eq!(HireRequestStatus::ContractSent.as_str(), "contract_sent");
    assert_eq!(RateType::PerUnit.as_str(), "per_unit");
    assert_eq!(ContractStatus::PendingGc.as_str(), "pending_gc");
    assert_eq!(TeamMemberStatus::OnHold.as_str(), "on_hold");
    assert_eq!(MilestoneStatus::InProgress.as_str(), "in_progress");
    assert_eq!(NotificationType::HireRequestReceived.as_str(), "hire_request_received");
    assert_eq!(VerificationStatus::Verified.as_str(), "verified");
    assert_eq!(AvailabilityStatus::NotTakingWork.as_str(), "not_taking_work");
    assert_eq!(TenderVisibility::InvitedOnly.as_str(), "invited_only");
    assert_eq!(trade_category_to_string(&TradeCategory::SiteworkExcavation), "sitework_excavation");
    assert_eq!(trade_category_to_string(&TradeCategory::Hvac), "hvac");
}

#[test]
fn marketplace_parsers_fall_back_to_defaults() {
    assert_eq!(VerificationStatus::from_str("verified"), VerificationStatus::Verified);
    assert_eq!(VerificationStatus::from_str("rejected"), VerificationStatus::Rejected);
    assert_eq!(VerificationStatus::from_str("nonsense"), VerificationStatus::Pending);
    assert_eq!(AvailabilityStatus::from_str("busy"), AvailabilityStatus::Busy);
    assert_eq!(AvailabilityStatus::from_str("not_taking_work"), AvailabilityStatus::NotTakingWork);
    assert_eq!(AvailabilityStatus::from_str(""), AvailabilityStatus::Available);
    assert_eq!(TenderVisibility::from_str("invited_only"), TenderVisibility::InvitedOnly);
    assert_eq!(TenderVisibility::from_str("public"), TenderVisibility::Public);
}

#[test]
fn defaults_match_the_domain() {
    assert_eq!(UserType::default(), UserType::Gc);
    assert_eq!(BidStatus::default(), BidStatus::Draft);
    assert_eq!(TaskStatus::default(), TaskStatus::Todo);
    assert_eq!(TaskPriority::default(), TaskPriority::Medium);
    assert_eq!(TenderStatus::default(), TenderStatus::Draft);
    assert_eq!(VerificationStatus::default(), VerificationStatus::Pending);
    assert_eq!(AvailabilityStatus::default(), AvailabilityStatus::Available);
    assert_eq!(TenderVisibility::default(), TenderVisibility::Public);
}

#[test]
fn auth_error_message_prefers_the_newest_field() {
    let full = SupabaseErrorResponse {
        code: Some(400),
        error_code: Some("invalid".to_string()),
        msg: Some("from msg".to_string()),
        error: Some("from error".to_string()),
        error_description: Some("from description".to_string()),
        message: Some("from message".to_string()),
    };
    assert_eq!(full.get_message(), "from message");

    let no_message = SupabaseErrorResponse { message: None, ..full.clone() };
    assert_eq!(no_message.get_message(), "from msg");

    let legacy = SupabaseErrorResponse { message: None, msg: None, ..full.clone() };
    assert_eq!(legacy.get_message(), "from description");

    let older = SupabaseErrorResponse {
        message: None,
        msg: None,
        error_description: None,
        ..full.clone()
    };
    assert_eq!(older.get_message(), "from error");

    let empty = SupabaseErrorResponse {
        code: None,
        error_code: None,
        msg: None,
        error: None,
        error_description: None,
        message: None,
    };
    assert_eq!(empty.get_message(), "Unknown authentication error");
}

#[test]
fn message_responses_carry_text_and_code() {
    let m = MessageResponse::new("saved");
    assert_eq!(m.message, "saved");
    assert!(m.code.is_none());
    let m = MessageResponse::with_code("rejected", "CONFLICT");
    assert_eq!(m.message, "rejected");
    assert_eq!(m.code.as_deref(), Some("CONFLICT"));
}
