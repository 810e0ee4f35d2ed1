//! Hiring types: hire requests, contracts, messages and team members.

use vstd::prelude::*;

use crate::pagination::PaginationParams;

verus! {

/// Lifecycle status of a hire request.
#[derive(Debug, Clone, Copy, PartialEq, Eq, Structural)]
pub enum HireRequestStatus {
    Draft,
    Pending,
    Sent,
    Viewed,
    Interested,
    Negotiating,
    ContractSent,
    ContractSigned,
    Hired,
    Declined,
    Cancelled,
    Expired,
}

impl HireRequestStatus {
    /// The wire name of this status.
    pub open spec fn spec_as_str(self) -> Seq<char> {
        match self {
            HireRequestStatus::Draft => "draft"@,
            HireRequestStatus::Pending => "pending"@,
            HireRequestStatus::Sent => "sent"@,
            HireRequestStatus::Viewed => "viewed"@,
            HireRequestStatus::Interested => "interested"@,
            HireRequestStatus::Negotiating => "negotiating"@,
            HireRequestStatus::ContractSent => "contract_sent"@,
            HireRequestStatus::ContractSigned => "contract_signed"@,
            HireRequestStatus::Hired => "hired"@,
            HireRequestStatus::Declined => "declined"@,
            HireRequestStatus::Cancelled => "cancelled"@,
            HireRequestStatus::Expired => "expired"@,
        }
    }

    /// Snake-case wire name of this status.
    pub fn as_str(self) -> (r: &'static str)
        ensures
            r@ == self.spec_as_str(),
    {
        match self {
            HireRequestStatus::Draft => "draft",
            HireRequestStatus::Pending => "pending",
            HireRequestStatus::Sent => "sent",
            HireRequestStatus::Viewed => "viewed",
            HireRequestStatus::Interested => "interested",
            HireRequestStatus::Negotiating => "negotiating",
            HireRequestStatus::ContractSent => "contract_sent",
            HireRequestStatus::ContractSigned => "contract_signed",
            HireRequestStatus::Hired => "hired",
            HireRequestStatus::Declined => "declined",
            HireRequestStatus::Cancelled => "cancelled",
            HireRequestStatus::Expired => "expired",
        }
    }
}

/// How a rate is quoted.
#[derive(Debug, Clone, Copy, PartialEq, Eq, Structural)]
pub enum RateType {
    Fixed,
    Hourly,
    Daily,
    Weekly,
    PerUnit,
    Negotiable,
}

impl RateType {
    /// The wire name of this rate type.
    pub open spec fn spec_as_str(self) -> Seq<char> {
        match self {
            RateType::Fixed => "fixed"@,
            RateType::Hourly => "hourly"@,
            RateType::Daily => "daily"@,
            RateType::Weekly => "weekly"@,
            RateType::PerUnit => "per_unit"@,
            RateType::Negotiable => "negotiable"@,
        }
    }

    /// Snake-case wire name of this rate type.
    pub fn as_str(self) -> (r: &'static str)
        ensures
            r@ == self.spec_as_str(),
    {
        match self {
            RateType::Fixed => "fixed",
            RateType::Hourly => "hourly",
            RateType::Daily => "daily",
            RateType::Weekly => "weekly",
            RateType::PerUnit => "per_unit",
            RateType::Negotiable => "negotiable",
        }
    }
}

/// Input for registering an external (off-platform) subcontractor.
#[derive(Debug, Clone, PartialEq, Eq)]
pub struct CreateExternalSubcontractorInput {
    pub company_name: String,
    pub contact_name: Option<String>,
    pub contact_email: Option<String>,
    pub contact_phone: Option<String>,
    pub trade: String,
    pub secondary_trades: Option<Vec<String>>,
    pub location: Option<String>,
    pub address: Option<String>,
    pub license_number: Option<String>,
    pub insurance_info: Option<String>,
    pub notes: Option<String>,
    pub is_preferred: Option<bool>,
}

/// Filter for listing external subcontractors.
#[derive(Debug, Clone, PartialEq, Eq)]
pub struct ExternalSubcontractorQuery {
    pub trade: Option<String>,
    pub is_preferred: Option<bool>,
    pub search: Option<String>,
}

/// Lifecycle status of a contract.
#[derive(Debug, Clone, Copy, PartialEq, Eq, Structural)]
pub enum ContractStatus {
    Draft,
    PendingGc,
    PendingSub,
    GcSigned,
    FullySigned,
    Active,
    Completed,
    Terminated,
    Disputed,
}

impl ContractStatus {
    /// The wire name of this status.
    pub open spec fn spec_as_str(self) -> Seq<char> {
        match self {
            ContractStatus::Draft => "draft"@,
            ContractStatus::PendingGc => "pending_gc"@,
            ContractStatus::PendingSub => "pending_sub"@,
            ContractStatus::GcSigned => "gc_signed"@,
            ContractStatus::FullySigned => "fully_signed"@,
            ContractStatus::Active => "active"@,
            ContractStatus::Completed => "completed"@,
            ContractStatus::Terminated => "terminated"@,
            ContractStatus::Disputed => "disputed"@,
        }
    }

    /// Snake-case wire name of this status.
    pub fn as_str(self) -> (r: &'static str)
        ensures
            r@ == self.spec_as_str(),
    {
        match self {
            ContractStatus::Draft => "draft",
            ContractStatus::PendingGc => "pending_gc",
            ContractStatus::PendingSub => "pending_sub",
            ContractStatus::GcSigned => "gc_signed",
            ContractStatus::FullySigned => "fully_signed",
            ContractStatus::Active => "active",
            ContractStatus::Completed => "completed",
            ContractStatus::Terminated => "terminated",
            ContractStatus::Disputed => "disputed",
        }
    }
}

/// One editable section of a contract body.
#[derive(Debug, Clone, PartialEq, Eq)]
pub struct ContractSection {
    pub key: String,
    pub title: String,
    pub content: String,
    pub editable: bool,
}

/// A fill-in variable of a contract template.
#[derive(Debug, Clone, PartialEq, Eq)]
pub struct TemplateVariable {
    pub key: String,
    pub label: String,
    pub var_type: String,
    pub options: Option<Vec<String>>,
    pub required: Option<bool>,
    pub default: Option<String>,
}

/// Input for signing a contract.
#[derive(Debug, Clone, PartialEq, Eq)]
pub struct SignContractInput {
    pub signature: String,
    pub agreed_to_terms: bool,
}

/// Kind of message within a hire conversation.
#[derive(Debug, Clone, Copy, PartialEq, Eq, Structural)]
pub enum MessageType {
    Text,
    File,
    CounterOffer,
    ScopeChange,
    ScheduleChange,
    System,
}

impl MessageType {
    /// The wire name of this message type.
    pub open spec fn spec_as_str(self) -> Seq<char> {
        match self {
            MessageType::Text => "text"@,
            MessageType::File => "file"@,
            MessageType::CounterOffer => "counter_offer"@,
            MessageType::ScopeChange => "scope_change"@,
            MessageType::ScheduleChange => "schedule_change"@,
            MessageType::System => "system"@,
        }
    }

    /// Snake-case wire name of this message type.
    pub fn as_str(self) -> (r: &'static str)
        ensures
            r@ == self.spec_as_str(),
    {
        match self {
            MessageType::Text => "text",
            MessageType::File => "file",
            MessageType::CounterOffer => "counter_offer",
            MessageType::ScopeChange => "scope_change",
            MessageType::ScheduleChange => "schedule_change",
            MessageType::System => "system",
        }
    }
}

/// Status of a hired team member on a project.
#[derive(Debug, Clone, Copy, PartialEq, Eq, Structural)]
pub enum TeamMemberStatus {
    Pending,
    Active,
    OnHold,
    Completed,
    Terminated,
}

impl TeamMemberStatus {
    /// The wire name of this status.
    pub open spec fn spec_as_str(self) -> Seq<char> {
        match self {
            TeamMemberStatus::Pending => "pending"@,
            TeamMemberStatus::Active => "active"@,
            TeamMemberStatus::OnHold => "on_hold"@,
            TeamMemberStatus::Completed => "completed"@,
            TeamMemberStatus::Terminated => "terminated"@,
        }
    }

    /// Snake-case wire name of this status.
    pub fn as_str(self) -> (r: &'static str)
        ensures
            r@ == self.spec_as_str(),
    {
        match self {
            TeamMemberStatus::Pending => "pending",
            TeamMemberStatus::Active => "active",
            TeamMemberStatus::OnHold => "on_hold",
            TeamMemberStatus::Completed => "completed",
            TeamMemberStatus::Terminated => "terminated",
        }
    }
}

/// Pagination plus filter for the external subcontractor list.
#[derive(Debug, Clone, PartialEq, Eq)]
pub struct ExternalSubQueryParams {
    pub pagination: PaginationParams,
    pub filter: ExternalSubcontractorQuery,
}

} // verus!
